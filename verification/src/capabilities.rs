//! Hardware capability registry: aggregates vendor probe results into one
//! read-only value describing what this machine can encode with.
//!
//! The probes themselves (vendor tools, the encoder binary's capability
//! listing) run outside the library; they hand in plain lists of encoder
//! kinds and device records, and this module derives the available set, the
//! preferred encoder and coarse performance estimates from them.

use vstd::prelude::*;

use crate::encoders::{
    all_encoders, lemma_encoder_at_index, lemma_encoder_index_bijective, encoder_index, spec_encoder_at,
    spec_encoder_index, spec_is_hardware_accelerated, HardwareEncoder, ENCODER_COUNT,
};

verus! {

/// A discovered accelerator device of the CUDA kind.
#[derive(Debug, Clone)]
pub struct CudaDevice {
    pub id: u32,
    pub name: String,
    pub compute_major: u32,
    pub compute_minor: u32,
    pub memory_mb: u64,
    pub nvenc_support: bool,
    pub max_concurrent_sessions: u32,
}

/// What the CUDA probe yields: the discovered devices and the encoders
/// they support.
#[derive(Debug, Clone)]
pub struct CudaInfo {
    pub devices: Vec<CudaDevice>,
    pub encoders: Vec<HardwareEncoder>,
}

/// A discovered accelerator device of the OpenCL kind.
#[derive(Debug, Clone)]
pub struct OpenCLDevice {
    pub id: u32,
    pub name: String,
    pub vendor: String,
    pub device_type: String,
    pub memory_mb: u64,
}

/// What this host can encode with, built once per run from probe results.
///
/// Invariant: `Software` is always available, and the preferred encoder is
/// always a member of the available set.
#[derive(Debug, Clone)]
pub struct HardwareCapabilities {
    pub available_encoders: Vec<HardwareEncoder>,
    pub cuda_devices: Vec<CudaDevice>,
    pub opencl_devices: Vec<OpenCLDevice>,
    pub preferred_encoder: Option<HardwareEncoder>,
    pub memory_usage_mb: u64,
    /// Aggregate speed relative to software encoding, in tenths (10 = 1.0x).
    pub encoding_speed_multiplier_tenths: u32,
    /// Per-encoder speed estimate in tenths, keyed by `encoder_index`;
    /// 0 marks an encoder for which no estimate was computed.
    pub encoder_performance_tenths: Vec<u32>,
}

/// Fixed priority order for choosing the preferred encoder: best
/// quality/speed balance first, `Software` last.
pub open spec fn spec_preferred_priority() -> Seq<HardwareEncoder> {
    seq![
        HardwareEncoder::NvencH265,
        HardwareEncoder::NvencH264,
        HardwareEncoder::QsvH265,
        HardwareEncoder::QsvH264,
        HardwareEncoder::VideoToolbox,
        HardwareEncoder::AmfH265,
        HardwareEncoder::AmfH264,
        HardwareEncoder::Vaapi,
        HardwareEncoder::NvencAV1,
        HardwareEncoder::QsvAV1,
        HardwareEncoder::Software,
    ]
}

pub fn preferred_priority() -> (v: Vec<HardwareEncoder>)
    ensures
        v@ == spec_preferred_priority(),
{
    let mut v: Vec<HardwareEncoder> = Vec::new();
    v.push(HardwareEncoder::NvencH265);
    v.push(HardwareEncoder::NvencH264);
    v.push(HardwareEncoder::QsvH265);
    v.push(HardwareEncoder::QsvH264);
    v.push(HardwareEncoder::VideoToolbox);
    v.push(HardwareEncoder::AmfH265);
    v.push(HardwareEncoder::AmfH264);
    v.push(HardwareEncoder::Vaapi);
    v.push(HardwareEncoder::NvencAV1);
    v.push(HardwareEncoder::QsvAV1);
    v.push(HardwareEncoder::Software);
    proof {
        assert(v@ =~= spec_preferred_priority());
    }
    v
}

/// First entry of `order` that is a member of `avail`.
pub open spec fn spec_first_in(order: Seq<HardwareEncoder>, avail: Seq<HardwareEncoder>) -> Option<
    HardwareEncoder,
>
    decreases order.len(),
{
    if order.len() == 0 {
        None
    } else if avail.contains(order[0]) {
        Some(order[0])
    } else {
        spec_first_in(order.drop_first(), avail)
    }
}

pub fn vec_contains_encoder(v: &Vec<HardwareEncoder>, e: &HardwareEncoder) -> (b: bool)
    ensures
        b == v@.contains(*e),
{
    let mut i: usize = 0;
    while i < v.len()
        invariant
            0 <= i <= v@.len(),
            forall|k: int| 0 <= k < i ==> v@[k] != *e,
        decreases v@.len() - i,
    {
        if v[i] == *e {
            return true;
        }
        i = i + 1;
    }
    false
}

/// Walks `order` and returns the first encoder present in `avail`.
pub fn first_in(order: &Vec<HardwareEncoder>, avail: &Vec<HardwareEncoder>) -> (r: Option<
    HardwareEncoder,
>)
    ensures
        r == spec_first_in(order@, avail@),
{
    let mut i: usize = 0;
    proof {
        assert(order@.skip(0) =~= order@);
    }
    while i < order.len()
        invariant
            0 <= i <= order@.len(),
            spec_first_in(order@, avail@) == spec_first_in(order@.skip(i as int), avail@),
        decreases order@.len() - i,
    {
        let e = order[i];
        proof {
            assert(order@.skip(i as int)[0] == order@[i as int]);
        }
        if vec_contains_encoder(avail, &e) {
            return Some(e);
        }
        proof {
            assert(order@.skip(i as int).drop_first() =~= order@.skip(i + 1));
        }
        i = i + 1;
    }
    proof {
        assert(order@.skip(order@.len() as int).len() == 0);
    }
    None
}

impl HardwareCapabilities {
    /// Well-formedness: the universal software fallback is present, the
    /// preferred encoder is chosen and available, and the performance table
    /// covers the whole catalog.
    pub open spec fn wf(self) -> bool {
        &&& self.available_encoders@.contains(HardwareEncoder::Software)
        &&& match self.preferred_encoder {
            Some(p) => self.available_encoders@.contains(p),
            None => false,
        }
        &&& self.encoder_performance_tenths@.len() == ENCODER_COUNT
    }

    /// Capabilities of a host with no working hardware acceleration.
    pub fn software_only() -> (r: HardwareCapabilities)
        ensures
            r.wf(),
            r.available_encoders@ =~= seq![HardwareEncoder::Software],
            r.preferred_encoder == Some(HardwareEncoder::Software),
            r.cuda_devices@.len() == 0,
            r.opencl_devices@.len() == 0,
            r.memory_usage_mb == 0,
            r.encoding_speed_multiplier_tenths == 10,
    {
        let mut available: Vec<HardwareEncoder> = Vec::new();
        available.push(HardwareEncoder::Software);
        proof {
            assert(available@[0] == HardwareEncoder::Software);
            assert(available@.contains(HardwareEncoder::Software));
            assert(available@ =~= seq![HardwareEncoder::Software]);
        }
        let mut perf: Vec<u32> = Vec::new();
        let mut i: usize = 0;
        while i < ENCODER_COUNT
            invariant
                perf@.len() == i,
                0 <= i <= ENCODER_COUNT,
            decreases ENCODER_COUNT - i,
        {
            perf.push(0);
            i = i + 1;
        }
        HardwareCapabilities {
            available_encoders: available,
            cuda_devices: Vec::new(),
            opencl_devices: Vec::new(),
            preferred_encoder: Some(HardwareEncoder::Software),
            memory_usage_mb: 0,
            encoding_speed_multiplier_tenths: 10,
            encoder_performance_tenths: perf,
        }
    }

    /// Fallback speed estimate for an encoder that has no computed entry,
    /// in tenths of the software baseline.
    pub open spec fn spec_default_speed_tenths(e: HardwareEncoder) -> u32 {
        match e {
            HardwareEncoder::NvencH264 => 80,
            HardwareEncoder::NvencH265 => 80,
            HardwareEncoder::NvencAV1 => 60,
            HardwareEncoder::AmfH264 => 55,
            HardwareEncoder::AmfH265 => 55,
            HardwareEncoder::QsvH264 => 70,
            HardwareEncoder::QsvH265 => 70,
            HardwareEncoder::QsvAV1 => 50,
            HardwareEncoder::Vaapi => 40,
            HardwareEncoder::VideoToolbox => 60,
            HardwareEncoder::Software => 10,
        }
    }

    pub open spec fn spec_speed_improvement(self, e: HardwareEncoder) -> u32 {
        if self.encoder_performance_tenths@[spec_encoder_index(e)] != 0 {
            self.encoder_performance_tenths@[spec_encoder_index(e)]
        } else {
            Self::spec_default_speed_tenths(e)
        }
    }

    /// Estimated speed of `encoder` relative to software encoding, in tenths.
    pub fn speed_improvement(&self, encoder: &HardwareEncoder) -> (r: u32)
        requires
            self.wf(),
        ensures
            r == self.spec_speed_improvement(*encoder),
    {
        let idx = encoder_index(encoder);
        let table = self.encoder_performance_tenths[idx];
        if table != 0 {
            table
        } else {
            match encoder {
                HardwareEncoder::NvencH264 => 80,
                HardwareEncoder::NvencH265 => 80,
                HardwareEncoder::NvencAV1 => 60,
                HardwareEncoder::AmfH264 => 55,
                HardwareEncoder::AmfH265 => 55,
                HardwareEncoder::QsvH264 => 70,
                HardwareEncoder::QsvH265 => 70,
                HardwareEncoder::QsvAV1 => 50,
                HardwareEncoder::Vaapi => 40,
                HardwareEncoder::VideoToolbox => 60,
                HardwareEncoder::Software => 10,
            }
        }
    }

    pub open spec fn spec_has_cuda(self) -> bool {
        self.cuda_devices@.len() > 0
    }

    pub fn has_cuda(&self) -> (b: bool)
        ensures
            b == self.spec_has_cuda(),
    {
        self.cuda_devices.len() > 0
    }

    /// Sort key for picking the best CUDA device: compute capability first,
    /// then memory size.
    pub open spec fn spec_device_key(d: CudaDevice) -> (int, int, int) {
        (d.compute_major as int, d.compute_minor as int, d.memory_mb as int)
    }

    pub open spec fn spec_key_le(a: (int, int, int), b: (int, int, int)) -> bool {
        if a.0 != b.0 {
            a.0 < b.0
        } else if a.1 != b.1 {
            a.1 < b.1
        } else {
            a.2 <= b.2
        }
    }

    /// The NVENC-capable device with the greatest capability/memory key;
    /// among equal keys, the one listed last.
    pub open spec fn spec_best_nvenc_device(devices: Seq<CudaDevice>) -> Option<CudaDevice>
        decreases devices.len(),
    {
        if devices.len() == 0 {
            None
        } else {
            let rest = Self::spec_best_nvenc_device(devices.drop_last());
            let last = devices.last();
            if last.nvenc_support {
                match rest {
                    None => Some(last),
                    Some(b) => if Self::spec_key_le(
                        Self::spec_device_key(b),
                        Self::spec_device_key(last),
                    ) {
                        Some(last)
                    } else {
                        Some(b)
                    },
                }
            } else {
                rest
            }
        }
    }

    /// The device `spec_best_nvenc_device` picks, when one exists, and
    /// nothing when no device supports the encoder stack.
    pub fn get_best_cuda_device(&self) -> (r: Option<&CudaDevice>)
        ensures
            match r {
                Some(d) => {
                    &&& Self::spec_best_nvenc_device(self.cuda_devices@) == Some(*d)
                    &&& d.nvenc_support
                },
                None => {
                    &&& Self::spec_best_nvenc_device(self.cuda_devices@) is None
                    &&& forall|j: int|
                        0 <= j < self.cuda_devices@.len()
                            ==> !(#[trigger] self.cuda_devices@[j]).nvenc_support
                },
            },
    {
        let n = self.cuda_devices.len();
        let mut best: Option<usize> = None;
        let mut i: usize = 0;
        while i < n
            invariant
                0 <= i <= n,
                n == self.cuda_devices@.len(),
                match best {
                    Some(b) => {
                        &&& b < i
                        &&& self.cuda_devices@[b as int].nvenc_support
                        &&& Self::spec_best_nvenc_device(self.cuda_devices@.take(i as int))
                            == Some(self.cuda_devices@[b as int])
                    },
                    None => {
                        &&& Self::spec_best_nvenc_device(self.cuda_devices@.take(i as int)) is None
                        &&& forall|j: int|
                            0 <= j < i ==> !(#[trigger] self.cuda_devices@[j]).nvenc_support
                    },
                },
            decreases n - i,
        {
            proof {
                assert(self.cuda_devices@.take(i + 1).drop_last() =~= self.cuda_devices@.take(
                    i as int,
                ));
                assert(self.cuda_devices@.take(i + 1).last() == self.cuda_devices@[i as int]);
            }
            let d = &self.cuda_devices[i];
            if d.nvenc_support {
                let take = match best {
                    None => true,
                    Some(b) => {
                        let bd = &self.cuda_devices[b];
                        key_le_exec(bd, d)
                    },
                };
                if take {
                    best = Some(i);
                }
            }
            i = i + 1;
        }
        proof {
            assert(self.cuda_devices@.take(n as int) =~= self.cuda_devices@);
        }
        match best {
            Some(b) => Some(&self.cuda_devices[b]),
            None => None,
        }
    }
}

/// The memory set aside for the accelerator: an eighth of the best CUDA
/// device's memory capped at 512 MB; a flat 128 MB for other hardware
/// backends; a larger CPU-side reserve when encoding runs in software.
pub open spec fn spec_hw_memory_share(cuda: Seq<CudaDevice>, any_hw: bool) -> int {
    if cuda.len() > 0 {
        match HardwareCapabilities::spec_best_nvenc_device(cuda) {
            Some(d) => if d.memory_mb as int / 8 < 512 {
                d.memory_mb as int / 8
            } else {
                512
            },
            None => 256,
        }
    } else if any_hw {
        128
    } else {
        256
    }
}

/// Which encoders the probes, taken together, make available; the software
/// encoder is always included.
pub open spec fn spec_probes_offer(
    cuda: Seq<HardwareEncoder>,
    amd: Seq<HardwareEncoder>,
    intel: Seq<HardwareEncoder>,
    platform: Seq<HardwareEncoder>,
    e: HardwareEncoder,
) -> bool {
    ||| e == HardwareEncoder::Software
    ||| cuda.contains(e)
    ||| amd.contains(e)
    ||| intel.contains(e)
    ||| platform.contains(e)
}

/// Compute capability (major) of the device with the greatest
/// `major * 10 + minor` key, if any device was found; among equal keys the
/// one listed last wins.
pub open spec fn spec_metric_cc0(devices: Seq<CudaDevice>) -> Option<u32> {
    match spec_metric_cc0_key(devices) {
        None => None,
        Some(bk) => Some(bk.0),
    }
}

/// Helper carrying both the winning device's major capability and its key.
pub open spec fn spec_metric_cc0_key(devices: Seq<CudaDevice>) -> Option<(u32, int)>
    decreases devices.len(),
{
    if devices.len() == 0 {
        None
    } else {
        let last = devices.last();
        let lk = last.compute_major * 10 + last.compute_minor;
        match spec_metric_cc0_key(devices.drop_last()) {
            None => Some((last.compute_major, lk)),
            Some(bk) => if lk >= bk.1 {
                Some((last.compute_major, lk))
            } else {
                Some(bk)
            },
        }
    }
}

/// Speed estimate in tenths for one encoder, given the major compute
/// capability of the best discovered device (if any).
pub open spec fn spec_perf_tenths(e: HardwareEncoder, best_cc0: Option<u32>) -> u32 {
    match e {
        HardwareEncoder::NvencH264 | HardwareEncoder::NvencH265 => match best_cc0 {
            Some(c) => if 8 <= c && c <= 9 {
                120
            } else if c == 7 {
                100
            } else if c == 6 {
                80
            } else {
                60
            },
            None => 80,
        },
        HardwareEncoder::NvencAV1 => 80,
        HardwareEncoder::AmfH264 | HardwareEncoder::AmfH265 => 60,
        HardwareEncoder::QsvH264 | HardwareEncoder::QsvH265 => 75,
        HardwareEncoder::QsvAV1 => 60,
        HardwareEncoder::Vaapi => 45,
        HardwareEncoder::VideoToolbox => 70,
        HardwareEncoder::Software => 10,
    }
}

fn perf_tenths(e: &HardwareEncoder, best_cc0: &Option<u32>) -> (r: u32)
    ensures
        r == spec_perf_tenths(*e, *best_cc0),
{
    match e {
        HardwareEncoder::NvencH264 | HardwareEncoder::NvencH265 => match best_cc0 {
            Some(c) => {
                if 8 <= *c && *c <= 9 {
                    120
                } else if *c == 7 {
                    100
                } else if *c == 6 {
                    80
                } else {
                    60
                }
            },
            None => 80,
        },
        HardwareEncoder::NvencAV1 => 80,
        HardwareEncoder::AmfH264 | HardwareEncoder::AmfH265 => 60,
        HardwareEncoder::QsvH264 | HardwareEncoder::QsvH265 => 75,
        HardwareEncoder::QsvAV1 => 60,
        HardwareEncoder::Vaapi => 45,
        HardwareEncoder::VideoToolbox => 70,
        HardwareEncoder::Software => 10,
    }
}

fn metric_cc0(devices: &Vec<CudaDevice>) -> (r: Option<u32>)
    ensures
        r == spec_metric_cc0(devices@),
{
    let mut r: Option<u32> = None;
    let mut key: u64 = 0;
    let mut i: usize = 0;
    while i < devices.len()
        invariant
            0 <= i <= devices@.len(),
            match spec_metric_cc0_key(devices@.take(i as int)) {
                None => r is None && i == 0,
                Some(bk) => r == Some(bk.0) && key == bk.1,
            },
            i == 0 ==> r is None,
        decreases devices@.len() - i,
    {
        let d = &devices[i];
        let lk = (d.compute_major as u64) * 10 + (d.compute_minor as u64);
        proof {
            assert(devices@.take(i + 1).drop_last() =~= devices@.take(i as int));
            assert(devices@.take(i + 1).last() == devices@[i as int]);
        }
        match r {
            None => {
                r = Some(d.compute_major);
                key = lk;
            },
            Some(_) => {
                if lk >= key {
                    r = Some(d.compute_major);
                    key = lk;
                }
            },
        }
        i = i + 1;
    }
    proof {
        assert(devices@.take(devices@.len() as int) =~= devices@);
    }
    r
}

impl HardwareCapabilities {
    /// Aggregates the vendor probe results into one capability value.
    ///
    /// A probe that failed contributes an empty list; the software encoder
    /// is always appended, so the result is well formed whatever the probes
    /// returned. The available set is deduplicated and kept in catalog
    /// order, and the preferred encoder is the first hit in the fixed
    /// priority order.
    pub fn from_probes(
        cuda_devices: Vec<CudaDevice>,
        cuda_encoders: Vec<HardwareEncoder>,
        amd_encoders: Vec<HardwareEncoder>,
        intel_encoders: Vec<HardwareEncoder>,
        platform_encoders: Vec<HardwareEncoder>,
    ) -> (r: HardwareCapabilities)
        ensures
            r.wf(),
            forall|e: HardwareEncoder| #[trigger]
                r.available_encoders@.contains(e) <==> spec_probes_offer(
                    cuda_encoders@,
                    amd_encoders@,
                    intel_encoders@,
                    platform_encoders@,
                    e,
                ),
            forall|m: int, n: int|
                0 <= m < n < r.available_encoders@.len() ==> spec_encoder_index(
                    r.available_encoders@[m],
                ) < spec_encoder_index(r.available_encoders@[n]),
            r.preferred_encoder == spec_first_in(spec_preferred_priority(), r.available_encoders@),
            r.cuda_devices == cuda_devices,
            r.encoder_performance_tenths@.len() == ENCODER_COUNT,
            forall|i: int|
                0 <= i < ENCODER_COUNT ==> r.encoder_performance_tenths@[i] == (
                if r.available_encoders@.contains(spec_encoder_at(i)) {
                    spec_perf_tenths(spec_encoder_at(i), spec_metric_cc0(cuda_devices@))
                } else {
                    0
                }),
            match r.preferred_encoder {
                Some(p) => r.encoding_speed_multiplier_tenths == r.spec_speed_improvement(p),
                None => false,
            },
            r.memory_usage_mb == 100 + spec_hw_memory_share(
                cuda_devices@,
                exists|j: int|
                    0 <= j < r.available_encoders@.len() && spec_is_hardware_accelerated(
                        #[trigger] r.available_encoders@[j],
                    ),
            ),
            100 <= r.memory_usage_mb <= 612,
    {
        broadcast use vstd::seq_lib::lemma_seq_contains_after_push;

        let catalog = all_encoders();
        let mut available: Vec<HardwareEncoder> = Vec::new();
        let mut i: usize = 0;
        while i < catalog.len()
            invariant
                0 <= i <= catalog@.len(),
                catalog@.len() == ENCODER_COUNT,
                forall|k: int| 0 <= k < ENCODER_COUNT ==> catalog@[k] == spec_encoder_at(k),
                forall|e: HardwareEncoder| #[trigger]
                    available@.contains(e) <==> (spec_encoder_index(e) < i && spec_probes_offer(
                        cuda_encoders@,
                        amd_encoders@,
                        intel_encoders@,
                        platform_encoders@,
                        e,
                    )),
                forall|m: int, n: int|
                    0 <= m < n < available@.len() ==> spec_encoder_index(available@[m])
                        < spec_encoder_index(available@[n]),
                forall|m: int|
                    0 <= m < available@.len() ==> spec_encoder_index(#[trigger] available@[m]) < i,
            decreases catalog@.len() - i,
        {
            let e = catalog[i];
            proof {
                assert(e == spec_encoder_at(i as int));
                lemma_encoder_at_index(i as int);
                assert(spec_encoder_index(e) == i);
            }
            let present = matches!(e, HardwareEncoder::Software) || vec_contains_encoder(
                &cuda_encoders,
                &e,
            ) || vec_contains_encoder(&amd_encoders, &e) || vec_contains_encoder(&intel_encoders, &e)
                || vec_contains_encoder(&platform_encoders, &e);
            let ghost pre = available@;
            proof {
                assert(present == spec_probes_offer(
                    cuda_encoders@,
                    amd_encoders@,
                    intel_encoders@,
                    platform_encoders@,
                    e,
                ));
                assert(forall|x: HardwareEncoder| #[trigger]
                    pre.contains(x) <==> (spec_encoder_index(x) < i && spec_probes_offer(
                        cuda_encoders@,
                        amd_encoders@,
                        intel_encoders@,
                        platform_encoders@,
                        x,
                    )));
                assert(forall|m: int|
                    0 <= m < pre.len() ==> spec_encoder_index(#[trigger] pre[m]) < i);
            }
            if present {
                available.push(e);
            }
            proof {
                if !present {
                    assert(available@ == pre);
                }
                assert forall|x: HardwareEncoder|
                    (#[trigger] available@.contains(x) <==> (spec_encoder_index(x) < i + 1
                        && spec_probes_offer(
                        cuda_encoders@,
                        amd_encoders@,
                        intel_encoders@,
                        platform_encoders@,
                        x,
                    ))) by {
                    lemma_encoder_index_bijective(x);
                    lemma_encoder_index_bijective(e);
                    if present {
                        assert(available@ == pre.push(e));
                        vstd::seq_lib::lemma_seq_contains_after_push(pre, e, x);
                    }
                }
                assert forall|m: int|
                    0 <= m < available@.len() implies spec_encoder_index(
                    #[trigger] available@[m],
                ) < i + 1 by {
                    lemma_encoder_index_bijective(e);
                    if present {
                        assert(available@ == pre.push(e));
                        if m < pre.len() {
                            assert(available@[m] == pre[m]);
                        } else {
                            assert(available@[m] == e);
                        }
                    }
                }
                assert forall|m: int, n: int|
                    0 <= m < n < available@.len() implies spec_encoder_index(available@[m])
                    < spec_encoder_index(available@[n]) by {
                    lemma_encoder_index_bijective(e);
                    if present {
                        assert(available@ == pre.push(e));
                        if n == available@.len() - 1 {
                            assert(available@[n] == e);
                            assert(available@[m] == pre[m]);
                            assert(spec_encoder_index(pre[m]) < i);
                        } else {
                            assert(available@[m] == pre[m]);
                            assert(available@[n] == pre[n]);
                        }
                    }
                }
            }
            i = i + 1;
        }
        proof {
            lemma_encoder_index_bijective(HardwareEncoder::Software);
            assert(available@.contains(HardwareEncoder::Software));
        }

        let priority = preferred_priority();
        let preferred = first_in(&priority, &available);
        proof {
            assert(spec_preferred_priority()[10] == HardwareEncoder::Software);
            assert(spec_preferred_priority().contains(HardwareEncoder::Software));
            lemma_first_in_member(spec_preferred_priority(), available@);
        }

        // Per-encoder speed estimates for the available set.
        let best_cc0 = metric_cc0(&cuda_devices);
        let mut perf: Vec<u32> = Vec::new();
        let mut k: usize = 0;
        while k < ENCODER_COUNT
            invariant
                0 <= k <= ENCODER_COUNT,
                perf@.len() == k,
                catalog@.len() == ENCODER_COUNT,
                forall|j: int| 0 <= j < ENCODER_COUNT ==> catalog@[j] == spec_encoder_at(j),
                best_cc0 == spec_metric_cc0(cuda_devices@),
                forall|j: int|
                    0 <= j < k ==> perf@[j] == (if available@.contains(spec_encoder_at(j)) {
                        spec_perf_tenths(spec_encoder_at(j), spec_metric_cc0(cuda_devices@))
                    } else {
                        0
                    }),
            decreases ENCODER_COUNT - k,
        {
            let e = catalog[k];
            if vec_contains_encoder(&available, &e) {
                let p = perf_tenths(&e, &best_cc0);
                perf.push(p);
            } else {
                perf.push(0);
            }
            k = k + 1;
        }

        // System-wide estimates: memory footprint and aggregate speed.
        let has_hw = {
            let mut any: bool = false;
            let mut m: usize = 0;
            while m < available.len()
                invariant
                    0 <= m <= available@.len(),
                    any == exists|j: int|
                        0 <= j < m && spec_is_hardware_accelerated(#[trigger] available@[j]),
                decreases available@.len() - m,
            {
                if available[m].is_hardware_accelerated() {
                    any = true;
                }
                m = m + 1;
            }
            any
        };
        let mut caps = HardwareCapabilities {
            available_encoders: available,
            cuda_devices,
            opencl_devices: Vec::new(),
            preferred_encoder: preferred,
            memory_usage_mb: 0,
            encoding_speed_multiplier_tenths: 10,
            encoder_performance_tenths: perf,
        };
        let hw_memory: u64 = if caps.has_cuda() {
            match caps.get_best_cuda_device() {
                Some(best) => {
                    let share = best.memory_mb / 8;
                    if share < 512 {
                        share
                    } else {
                        512
                    }
                },
                None => 256,
            }
        } else if has_hw {
            128
        } else {
            256
        };
        caps.memory_usage_mb = 100 + hw_memory;
        proof {
            assert(caps.wf());
        }
        let pref = caps.preferred_encoder;
        let speed = match pref {
            Some(p) => caps.speed_improvement(&p),
            None => 10,
        };
        caps.encoding_speed_multiplier_tenths = speed;
        caps
    }
}

/// When both the priority order and the available set hold the software
/// encoder, the priority walk finds an available encoder.
pub proof fn lemma_first_in_member(order: Seq<HardwareEncoder>, avail: Seq<HardwareEncoder>)
    requires
        order.contains(HardwareEncoder::Software),
        avail.contains(HardwareEncoder::Software),
    ensures
        match spec_first_in(order, avail) {
            Some(p) => avail.contains(p),
            None => false,
        },
    decreases order.len(),
{
    if !avail.contains(order[0]) {
        let k = choose|k: int| 0 <= k < order.len() && order[k] == HardwareEncoder::Software;
        assert(k > 0);
        assert(order.drop_first()[k - 1] == HardwareEncoder::Software);
        assert(order.drop_first().contains(HardwareEncoder::Software));
        lemma_first_in_member(order.drop_first(), avail);
    }
}

fn key_le_exec(a: &CudaDevice, b: &CudaDevice) -> (r: bool)
    ensures
        r == HardwareCapabilities::spec_key_le(
            HardwareCapabilities::spec_device_key(*a),
            HardwareCapabilities::spec_device_key(*b),
        ),
{
    if a.compute_major != b.compute_major {
        a.compute_major < b.compute_major
    } else if a.compute_minor != b.compute_minor {
        a.compute_minor < b.compute_minor
    } else {
        a.memory_mb <= b.memory_mb
    }
}

} // verus!
