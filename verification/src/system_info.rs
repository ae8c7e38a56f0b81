//! Judgement of whether the host is fit for encoding work. The numbers
//! themselves are collected outside the library and handed in as plain
//! values; this module derives readiness and coarse performance estimates
//! from them.

use vstd::prelude::*;
use vstd::string::*;

use crate::detection::spec_string_views;
use crate::text::{append_decimal, spec_decimal};

verus! {

#[derive(Debug, Clone)]
pub struct CpuInformation {
    pub name: String,
    pub cores: usize,
    pub frequency_mhz: u64,
    pub usage_percent: u32,
}

#[derive(Debug, Clone)]
pub struct MemoryInformation {
    pub total_mb: u64,
    pub used_mb: u64,
    pub available_mb: u64,
    pub usage_percent: u32,
}

#[derive(Debug, Clone)]
pub struct DiskInformation {
    pub name: String,
    pub mount_point: String,
    pub total_mb: u64,
    pub used_mb: u64,
    pub available_mb: u64,
    pub usage_percent: u32,
}

#[derive(Debug, Clone)]
pub struct ProcessInformation {
    pub total_processes: usize,
    pub current_process_memory_mb: u64,
    pub current_process_cpu_percent: u32,
}

/// A snapshot of the host, as an external collector reports it.
#[derive(Debug, Clone)]
pub struct SystemInformation {
    pub os_name: String,
    pub os_version: String,
    pub architecture: String,
    pub cpu_info: CpuInformation,
    pub memory_info: MemoryInformation,
    pub disk_info: Vec<DiskInformation>,
    pub process_info: ProcessInformation,
}

/// Overall fitness for encoding.
#[derive(Debug, Clone, Copy, PartialEq, Eq, Structural)]
pub enum ReadinessLevel {
    Optimal,
    Good,
    Marginal,
    Poor,
}

/// The readiness verdict with its individual findings.
#[derive(Debug, Clone)]
pub struct EncodingReadiness {
    pub readiness: ReadinessLevel,
    pub issues: Vec<String>,
    pub recommendations: Vec<String>,
}

/// Coarse throughput estimate for encoding on this host.
#[derive(Debug, Clone)]
pub struct EncodingPerformance {
    /// Combined CPU/memory score in hundredths.
    pub performance_score_centi: u64,
    pub estimated_speed: String,
    pub recommended_concurrent_jobs: usize,
    pub memory_per_job_mb: u64,
}

pub open spec fn spec_low_memory(s: SystemInformation) -> bool {
    s.memory_info.available_mb < 1024
}

pub open spec fn spec_tight_memory(s: SystemInformation) -> bool {
    s.memory_info.available_mb < 2048
}

pub open spec fn spec_high_cpu(s: SystemInformation) -> bool {
    s.cpu_info.usage_percent > 90
}

/// How many disks run low on space (less than one gigabyte free).
pub open spec fn spec_low_disk_count(disks: Seq<DiskInformation>) -> int
    decreases disks.len(),
{
    if disks.len() == 0 {
        0
    } else {
        spec_low_disk_count(disks.drop_last()) + (if disks.last().available_mb < 1024 {
            1int
        } else {
            0int
        })
    }
}

/// The texts of the disk findings, one per disk that runs low.
pub open spec fn spec_disk_issue_texts(disks: Seq<DiskInformation>) -> Seq<Seq<char>>
    decreases disks.len(),
{
    if disks.len() == 0 {
        Seq::empty()
    } else {
        spec_disk_issue_texts(disks.drop_last()) + (if disks.last().available_mb < 1024 {
            seq!["Low disk space on "@ + disks.last().mount_point@ + " (< 1GB)"@]
        } else {
            Seq::<Seq<char>>::empty()
        })
    }
}

/// The blocking findings, each tied to its cause: low memory, a loaded
/// CPU, then one line per disk that runs low.
pub open spec fn spec_issue_texts(s: SystemInformation) -> Seq<Seq<char>> {
    (if spec_low_memory(s) {
        seq!["Low available memory (< 1GB)"@]
    } else {
        Seq::<Seq<char>>::empty()
    }) + (if spec_high_cpu(s) {
        seq!["High CPU usage"@]
    } else {
        Seq::<Seq<char>>::empty()
    }) + spec_disk_issue_texts(s.disk_info@)
}

/// The advisory findings, in the same cause order.
pub open spec fn spec_recommendation_texts(s: SystemInformation) -> Seq<Seq<char>> {
    (if spec_low_memory(s) {
        seq!["Close other applications to free memory"@]
    } else if spec_tight_memory(s) {
        seq!["Consider closing some applications for better performance"@]
    } else {
        Seq::<Seq<char>>::empty()
    }) + (if spec_high_cpu(s) {
        seq!["Wait for CPU usage to decrease or close CPU-intensive applications"@]
    } else {
        Seq::<Seq<char>>::empty()
    }) + (if spec_low_disk_count(s.disk_info@) > 0 {
        seq!["Free up disk space before encoding"@]
    } else {
        Seq::<Seq<char>>::empty()
    })
}

/// The number of blocking findings.
pub open spec fn spec_issue_count(s: SystemInformation) -> int {
    (if spec_low_memory(s) {
        1int
    } else {
        0int
    }) + (if spec_high_cpu(s) {
        1int
    } else {
        0int
    }) + spec_low_disk_count(s.disk_info@)
}

/// The number of advisory findings.
pub open spec fn spec_recommendation_count(s: SystemInformation) -> int {
    (if spec_low_memory(s) || spec_tight_memory(s) {
        1int
    } else {
        0int
    }) + (if spec_high_cpu(s) {
        1int
    } else {
        0int
    }) + (if spec_low_disk_count(s.disk_info@) > 0 {
        1int
    } else {
        0int
    })
}

/// The overall level: optimal without findings, good when there is only
/// advice, marginal with one issue while half a gigabyte remains, else
/// poor.
pub open spec fn spec_readiness_level(s: SystemInformation) -> ReadinessLevel {
    if spec_issue_count(s) == 0 {
        if spec_recommendation_count(s) == 0 {
            ReadinessLevel::Optimal
        } else {
            ReadinessLevel::Good
        }
    } else if spec_issue_count(s) == 1 && s.memory_info.available_mb >= 512 {
        ReadinessLevel::Marginal
    } else {
        ReadinessLevel::Poor
    }
}

/// Combined CPU/memory throughput score in hundredths: cores times GHz,
/// weighted seven to three against the memory size capped at 32 GB, the
/// whole capped at a hundred.
pub open spec fn spec_perf_score_centi(s: SystemInformation) -> int {
    let cpu = s.cpu_info.cores * s.cpu_info.frequency_mhz / 10;
    let capped = if s.memory_info.total_mb < 32768 {
        s.memory_info.total_mb as int
    } else {
        32768
    };
    let mem = capped * 100 / 32768;
    let combined = cpu * 7 / 10 + mem * 3 / 10;
    if combined < 10000 {
        combined
    } else {
        10000
    }
}

pub open spec fn spec_speed_label(score_centi: int) -> Seq<char> {
    if score_centi > 5000 {
        "Fast"@
    } else if score_centi > 2500 {
        "Medium"@
    } else {
        "Slow"@
    }
}

/// How many encodes may run side by side: a quarter of the cores on a big
/// box, two on a middling one, one otherwise.
pub open spec fn spec_concurrent_jobs(s: SystemInformation) -> int {
    if s.cpu_info.cores >= 8 && s.memory_info.total_mb >= 16384 {
        if s.cpu_info.cores / 4 < 1 {
            1
        } else {
            s.cpu_info.cores as int / 4
        }
    } else if s.cpu_info.cores >= 4 && s.memory_info.total_mb >= 8192 {
        2
    } else {
        1
    }
}

/// Four fifths of the free memory split across the jobs, at least one
/// gigabyte each.
pub open spec fn spec_memory_per_job_mb(s: SystemInformation) -> int {
    let share = s.memory_info.available_mb as int / spec_concurrent_jobs(s) * 8 / 10;
    if share < 1024 {
        1024
    } else {
        share
    }
}

fn push_finding(v: &mut Vec<String>, text: &str)
    ensures
        spec_string_views(final(v)@) == spec_string_views(old(v)@).push(text@),
{
    v.push(String::from_str(text));
    proof {
        assert(spec_string_views(v@) =~= spec_string_views(old(v)@).push(text@));
    }
}

impl SystemInformation {
    /// Checks whether the host has the resources encoding needs: enough
    /// free memory, headroom on the CPU, and space on every disk. The
    /// findings name their causes: each low disk names its mount point.
    pub fn check_encoding_readiness(&self) -> (r: EncodingReadiness)
        ensures
            r.readiness == spec_readiness_level(*self),
            r.issues@.len() == spec_issue_count(*self),
            r.recommendations@.len() == spec_recommendation_count(*self),
            spec_string_views(r.issues@) == spec_issue_texts(*self),
            spec_string_views(r.recommendations@) == spec_recommendation_texts(*self),
    {
        let mut issues: Vec<String> = Vec::new();
        let mut recommendations: Vec<String> = Vec::new();

        if self.memory_info.available_mb < 1024 {
            push_finding(&mut issues, "Low available memory (< 1GB)");
            push_finding(&mut recommendations, "Close other applications to free memory");
        } else if self.memory_info.available_mb < 2048 {
            push_finding(
                &mut recommendations,
                "Consider closing some applications for better performance",
            );
        }

        if self.cpu_info.usage_percent > 90 {
            push_finding(&mut issues, "High CPU usage");
            push_finding(
                &mut recommendations,
                "Wait for CPU usage to decrease or close CPU-intensive applications",
            );
        }

        let ghost base_issues = issues@.len() as int;
        let ghost base_texts = spec_string_views(issues@);
        proof {
            assert(base_texts =~= (if spec_low_memory(*self) {
                seq!["Low available memory (< 1GB)"@]
            } else {
                Seq::<Seq<char>>::empty()
            }) + (if spec_high_cpu(*self) {
                seq!["High CPU usage"@]
            } else {
                Seq::<Seq<char>>::empty()
            }));
        }
        let mut has_low_disk_space = false;
        let mut i: usize = 0;
        while i < self.disk_info.len()
            invariant
                0 <= i <= self.disk_info@.len(),
                issues@.len() == base_issues + spec_low_disk_count(self.disk_info@.take(i as int)),
                spec_string_views(issues@) == base_texts + spec_disk_issue_texts(
                    self.disk_info@.take(i as int),
                ),
                has_low_disk_space == (spec_low_disk_count(self.disk_info@.take(i as int)) > 0),
                spec_low_disk_count(self.disk_info@.take(i as int)) >= 0,
            decreases self.disk_info@.len() - i,
        {
            proof {
                assert(self.disk_info@.take(i + 1).drop_last() =~= self.disk_info@.take(i as int));
                assert(self.disk_info@.take(i + 1).last() == self.disk_info@[i as int]);
            }
            let disk = &self.disk_info[i];
            if disk.available_mb < 1024 {
                let mut msg = String::from_str("Low disk space on ");
                msg.append(disk.mount_point.as_str());
                msg.append(" (< 1GB)");
                proof {
                    assert(msg@ =~= "Low disk space on "@ + disk.mount_point@ + " (< 1GB)"@);
                }
                let ghost pre = issues@;
                issues.push(msg);
                proof {
                    assert(spec_string_views(issues@) =~= spec_string_views(pre).push(
                        "Low disk space on "@ + disk.mount_point@ + " (< 1GB)"@,
                    ));
                    assert(spec_string_views(issues@) =~= base_texts + spec_disk_issue_texts(
                        self.disk_info@.take(i + 1),
                    ));
                }
                has_low_disk_space = true;
            } else {
                proof {
                    assert(spec_string_views(issues@) =~= base_texts + spec_disk_issue_texts(
                        self.disk_info@.take(i + 1),
                    ));
                }
            }
            i = i + 1;
        }
        proof {
            assert(self.disk_info@.take(self.disk_info@.len() as int) =~= self.disk_info@);
        }
        if has_low_disk_space {
            push_finding(&mut recommendations, "Free up disk space before encoding");
        }
        proof {
            assert(spec_string_views(issues@) =~= spec_issue_texts(*self));
            assert(spec_string_views(recommendations@) =~= spec_recommendation_texts(*self));
        }

        let readiness = if issues.len() == 0 {
            if recommendations.len() == 0 {
                ReadinessLevel::Optimal
            } else {
                ReadinessLevel::Good
            }
        } else if issues.len() == 1 && self.memory_info.available_mb >= 512 {
            ReadinessLevel::Marginal
        } else {
            ReadinessLevel::Poor
        };
        EncodingReadiness { readiness, issues, recommendations }
    }

    /// Estimates encoding throughput from the core count, frequency and
    /// memory size, and recommends how many jobs to run side by side.
    pub fn estimate_encoding_performance(&self) -> (r: EncodingPerformance)
        requires
            self.cpu_info.cores <= 4096,
            self.cpu_info.frequency_mhz <= 100000,
            self.memory_info.available_mb <= 0x1000_0000_0000,
        ensures
            r.performance_score_centi == spec_perf_score_centi(*self),
            r.estimated_speed@ == spec_speed_label(spec_perf_score_centi(*self)),
            r.recommended_concurrent_jobs == spec_concurrent_jobs(*self),
            r.memory_per_job_mb == spec_memory_per_job_mb(*self),
            r.recommended_concurrent_jobs >= 1,
            r.memory_per_job_mb >= 1024,
    {
        // CPU score in hundredths: cores times GHz.
        proof {
            vstd::arithmetic::mul::lemma_mul_upper_bound(
                self.cpu_info.cores as int,
                4096,
                self.cpu_info.frequency_mhz as int,
                100000,
            );
        }
        let cpu_score_centi: u64 = (self.cpu_info.cores as u64) * self.cpu_info.frequency_mhz / 10;
        // Memory score in hundredths of its cap at 32 GB.
        let capped_mb: u64 = if self.memory_info.total_mb < 32768 {
            self.memory_info.total_mb
        } else {
            32768
        };
        let memory_score_centi: u64 = capped_mb * 100 / 32768;
        let combined: u64 = cpu_score_centi * 7 / 10 + memory_score_centi * 3 / 10;
        let performance_score_centi: u64 = if combined < 10000 {
            combined
        } else {
            10000
        };
        let estimated_speed = if performance_score_centi > 5000 {
            String::from_str("Fast")
        } else if performance_score_centi > 2500 {
            String::from_str("Medium")
        } else {
            String::from_str("Slow")
        };
        let concurrent_jobs: usize = if self.cpu_info.cores >= 8 && self.memory_info.total_mb
            >= 16384 {
            let j = self.cpu_info.cores / 4;
            if j < 1 {
                1
            } else {
                j
            }
        } else if self.cpu_info.cores >= 4 && self.memory_info.total_mb >= 8192 {
            2
        } else {
            1
        };
        proof {
            vstd::arithmetic::div_mod::lemma_div_nonincreasing(
                self.memory_info.available_mb as int,
                concurrent_jobs as int,
            );
        }
        let share = self.memory_info.available_mb / (concurrent_jobs as u64) * 8 / 10;
        let memory_per_job_mb: u64 = if share < 1024 {
            1024
        } else {
            share
        };
        EncodingPerformance {
            performance_score_centi,
            estimated_speed,
            recommended_concurrent_jobs: concurrent_jobs,
            memory_per_job_mb,
        }
    }
}

pub open spec fn spec_readiness_status_text(l: ReadinessLevel) -> Seq<char> {
    match l {
        ReadinessLevel::Optimal => "OK Optimal"@,
        ReadinessLevel::Good => "OK Good"@,
        ReadinessLevel::Marginal => "WARN Marginal"@,
        ReadinessLevel::Poor => "BAD Poor"@,
    }
}

impl EncodingReadiness {
    /// Whether encoding may proceed at all.
    pub fn is_ready_for_encoding(&self) -> (r: bool)
        ensures
            r == (self.readiness == ReadinessLevel::Optimal || self.readiness
                == ReadinessLevel::Good || self.readiness == ReadinessLevel::Marginal),
    {
        matches!(
            self.readiness,
            ReadinessLevel::Optimal | ReadinessLevel::Good | ReadinessLevel::Marginal
        )
    }

    /// One line stating the verdict and how many findings back it.
    pub fn summary(&self) -> (r: String)
        ensures
            r@ == spec_readiness_status_text(self.readiness) + " - "@ + spec_decimal(
                self.issues@.len() as int,
            ) + " issues, "@ + spec_decimal(self.recommendations@.len() as int)
                + " recommendations"@,
    {
        let mut s = match self.readiness {
            ReadinessLevel::Optimal => String::from_str("OK Optimal"),
            ReadinessLevel::Good => String::from_str("OK Good"),
            ReadinessLevel::Marginal => String::from_str("WARN Marginal"),
            ReadinessLevel::Poor => String::from_str("BAD Poor"),
        };
        s.append(" - ");
        append_decimal(&mut s, self.issues.len() as u64);
        s.append(" issues, ");
        append_decimal(&mut s, self.recommendations.len() as u64);
        s.append(" recommendations");
        proof {
            assert(s@ =~= spec_readiness_status_text(self.readiness) + " - "@ + spec_decimal(
                self.issues@.len() as int,
            ) + " issues, "@ + spec_decimal(self.recommendations@.len() as int)
                + " recommendations"@);
        }
        s
    }
}

} // verus!
