//! Encoding orchestrator: drives the attempts of one compression request.
//!
//! The request walks a small state machine: plan an attempt (bitrate,
//! one- or two-pass, the exact process invocation), let the caller run the
//! external encoder, then record the observed outcome. A failure bumps the
//! fallback counters and either swaps the encoder for a retry or, once the
//! attempt cap is reached, reports a terminal failure carrying the attempt
//! count and the last error text.

use vstd::prelude::*;
use vstd::string::*;

use crate::capabilities::HardwareCapabilities;
use crate::encoders::{spec_is_hardware_accelerated, HardwareEncoder};
use crate::error::CompressionError;
use crate::estimator::{bitrate_for_target, spec_bitrate_for_target, SizeEstimator, VideoMetadata};
use crate::fallback::{
    spec_bump, spec_chain, spec_chain_priority, spec_clear, spec_next_encoder, FallbackSystem,
    MAX_ENCODER_FAILURES,
};
use crate::invocation::{
    build_invocation_args, first_pass_extra_args, pass_log_files, progress_extra_args,
    second_pass_extra_args, spec_first_pass_extra, spec_invocation_args, spec_pass_log_files,
    spec_progress_extra, spec_second_pass_extra,
};
use crate::settings::CompressionSettings;

verus! {

/// Hard cap on encoder attempts for one request.
pub const MAX_ATTEMPTS: u32 = 3;

/// The orchestrator: capabilities of this host, the per-session fallback
/// state, and the pure estimator.
pub struct CompressionEngine {
    pub capabilities: HardwareCapabilities,
    pub fallback_system: FallbackSystem,
    pub size_estimator: SizeEstimator,
}

/// One compression request in flight.
pub struct CompressionRequest {
    pub input_path: String,
    pub output_path: String,
    pub input_size_bytes: u64,
    pub settings: CompressionSettings,
    /// Attempts completed so far.
    pub attempts: u32,
}

/// Everything the caller needs to run one attempt: the computed bitrate,
/// whether to run two passes, the exact argument lists, and the statistics
/// files to remove unconditionally afterwards.
pub struct EncodePlan {
    pub target_bitrate_kbps: u32,
    pub use_two_pass: bool,
    /// Arguments of the analysis pass; empty for a one-pass encode.
    pub first_pass_args: Vec<String>,
    /// Arguments of the (final) encoding pass.
    pub encode_args: Vec<String>,
    /// Statistics files a two-pass encode leaves behind.
    pub cleanup_files: Vec<String>,
}

/// What the caller observed of one finished attempt. A clean exit whose
/// output file is missing or empty is reported as `Failed`, mirroring the
/// output-validation rule.
pub enum AttemptOutcome {
    Succeeded { output_size_bytes: u64, encoding_time_ms: u64 },
    Failed { error: String },
}

/// What one completed compression yielded.
#[derive(Debug, Clone)]
pub struct CompressionResult {
    pub input_path: String,
    pub output_path: String,
    pub input_size_bytes: u64,
    pub output_size_bytes: u64,
    /// Input size over output size, in percent.
    pub compression_ratio_percent: u64,
    pub encoding_time_ms: u64,
    pub encoder_used: HardwareEncoder,
    pub hardware_accelerated: bool,
}

pub open spec fn spec_result_summary(r: CompressionResult) -> Seq<char> {
    "Compressed "@ + r.input_path@ + " ("@ + crate::format::spec_format_file_size(
        r.input_size_bytes as int,
    ) + ") -> "@ + r.output_path@ + " ("@ + crate::format::spec_format_file_size(
        r.output_size_bytes as int,
    ) + ") in "@ + crate::text::spec_decimal(r.encoding_time_ms as int / 1000) + "."@ + seq![
        crate::text::spec_digit_char(r.encoding_time_ms as int % 1000 / 100),
    ] + "s using "@ + crate::encoders::spec_display_name(r.encoder_used) + " ("@
        + crate::text::spec_decimal(r.compression_ratio_percent as int / 100) + "."@ + seq![
        crate::text::spec_digit_char(r.compression_ratio_percent as int % 100 / 10),
    ] + "x compression, "@ + (if r.hardware_accelerated {
        "hardware"@
    } else {
        "software"@
    }) + " encoder)"@
}

impl CompressionResult {
    /// One line describing what the compression achieved.
    pub fn summary(&self) -> (r: String)
        ensures
            r@ == spec_result_summary(*self),
    {
        let mut s = String::from_str("Compressed ");
        s.append(self.input_path.as_str());
        s.append(" (");
        let in_size = crate::format::format_file_size(self.input_size_bytes);
        s.append(in_size.as_str());
        s.append(") -> ");
        s.append(self.output_path.as_str());
        s.append(" (");
        let out_size = crate::format::format_file_size(self.output_size_bytes);
        s.append(out_size.as_str());
        s.append(") in ");
        crate::text::append_decimal(&mut s, self.encoding_time_ms / 1000);
        s.append(".");
        let tenth = crate::text::decimal_string(self.encoding_time_ms % 1000 / 100);
        s.append(tenth.as_str());
        s.append("s using ");
        s.append(self.encoder_used.display_name());
        s.append(" (");
        crate::text::append_decimal(&mut s, self.compression_ratio_percent / 100);
        s.append(".");
        let frac = crate::text::decimal_string(self.compression_ratio_percent % 100 / 10);
        s.append(frac.as_str());
        s.append("x compression, ");
        if self.hardware_accelerated {
            s.append("hardware");
        } else {
            s.append("software");
        }
        s.append(" encoder)");
        proof {
            assert(s@ =~= spec_result_summary(*self));
        }
        s
    }
}

/// Where the request stands after an outcome was recorded.
pub enum EngineStep {
    /// Try again, with this encoder in the settings.
    Retry { encoder: HardwareEncoder },
    /// The request is done.
    Done { result: CompressionResult },
    /// The request failed for good.
    Failed { error: CompressionError },
}

/// Achieved compression ratio in percent (zero for an empty output).
pub open spec fn spec_ratio_percent(input_bytes: int, output_bytes: int) -> int {
    if output_bytes == 0 {
        0
    } else {
        input_bytes * 100 / output_bytes
    }
}

impl CompressionRequest {
    pub open spec fn wf(self) -> bool {
        &&& self.attempts <= MAX_ATTEMPTS
        &&& self.input_size_bytes <= u64::MAX / 100
    }
}

impl CompressionEngine {
    pub open spec fn wf(self) -> bool {
        &&& self.capabilities.wf()
        &&& self.fallback_system.wf()
        &&& self.size_estimator.wf()
    }

    /// A fresh engine for the detected capabilities; the fallback chain is
    /// derived from the available encoders and no failures are recorded.
    pub fn new(capabilities: HardwareCapabilities) -> (r: CompressionEngine)
        requires
            capabilities.wf(),
        ensures
            r.wf(),
            r.capabilities == capabilities,
            r.fallback_system.fallback_chain@ == spec_chain(
                spec_chain_priority(),
                capabilities.available_encoders@,
            ),
            forall|e: HardwareEncoder| r.fallback_system.spec_count(e) == 0,
    {
        let fallback_system = FallbackSystem::new(&capabilities);
        let size_estimator = SizeEstimator::new();
        CompressionEngine { capabilities, fallback_system, size_estimator }
    }

    /// Opens one compression request. The caller has already checked that
    /// the input exists and measured its size, and resolved the output
    /// path.
    pub fn begin_request(
        &self,
        input_path: String,
        output_path: String,
        input_size_bytes: u64,
        settings: CompressionSettings,
    ) -> (r: CompressionRequest)
        requires
            input_size_bytes <= u64::MAX / 100,
        ensures
            r.wf(),
            r.input_path == input_path,
            r.output_path == output_path,
            r.input_size_bytes == input_size_bytes,
            r.settings == settings,
            r.attempts == 0,
    {
        CompressionRequest { input_path, output_path, input_size_bytes, settings, attempts: 0 }
    }

    /// Plans the next attempt: computes the target bitrate from the target
    /// size and metadata, decides one- or two-pass (two passes only on the
    /// software encoder; hardware backends use their own rate control),
    /// and lays out the exact process invocations. The caller supplies the
    /// base path for the two-pass statistics log.
    pub fn plan_attempt(
        &self,
        request: &CompressionRequest,
        metadata: &VideoMetadata,
        pass_log_base: &str,
    ) -> (r: EncodePlan)
        requires
            self.wf(),
            metadata.wf(),
        ensures
            r.target_bitrate_kbps == spec_bitrate_for_target(
                *metadata,
                crate::size_presets::spec_target_mb(request.settings.target_size),
            ),
            r.use_two_pass == (request.settings.hardware_encoder == HardwareEncoder::Software),
            r.use_two_pass ==> r.first_pass_args.deep_view() == spec_invocation_args(
                request.input_path@,
                "/dev/null"@,
                request.settings,
                r.target_bitrate_kbps,
                metadata.duration_seconds,
            ) + spec_first_pass_extra(pass_log_base@),
            r.use_two_pass ==> r.encode_args.deep_view() == spec_invocation_args(
                request.input_path@,
                request.output_path@,
                request.settings,
                r.target_bitrate_kbps,
                metadata.duration_seconds,
            ) + spec_second_pass_extra(pass_log_base@),
            r.use_two_pass ==> r.cleanup_files.deep_view() == spec_pass_log_files(pass_log_base@),
            !r.use_two_pass ==> r.first_pass_args.deep_view() == Seq::<Seq<char>>::empty(),
            !r.use_two_pass ==> r.encode_args.deep_view() == spec_invocation_args(
                request.input_path@,
                request.output_path@,
                request.settings,
                r.target_bitrate_kbps,
                metadata.duration_seconds,
            ) + spec_progress_extra(),
            !r.use_two_pass ==> r.cleanup_files.deep_view() == Seq::<Seq<char>>::empty(),
    {
        let target_mb = request.settings.target_size.as_mb();
        let target_bitrate_kbps = bitrate_for_target(metadata, target_mb);
        let use_two_pass = matches!(request.settings.hardware_encoder, HardwareEncoder::Software);
        if use_two_pass {
            let mut first_pass_args = build_invocation_args(
                request.input_path.as_str(),
                "/dev/null",
                &request.settings,
                target_bitrate_kbps,
                metadata.duration_seconds,
            );
            let ghost f0 = first_pass_args.deep_view();
            let mut extra1 = first_pass_extra_args(pass_log_base);
            let ghost e1 = extra1.deep_view();
            first_pass_args.append(&mut extra1);
            proof {
                assert forall|i: int| 0 <= i < f0.len() implies (#[trigger] first_pass_args@[i])@
                    == f0[i] by {}
                assert forall|i: int|
                    f0.len() <= i < first_pass_args@.len() implies (#[trigger] first_pass_args@[i])@
                    == e1[i - f0.len()] by {}
                lemma_deep_view_concat(first_pass_args, f0, e1);
            }
            let mut encode_args = build_invocation_args(
                request.input_path.as_str(),
                request.output_path.as_str(),
                &request.settings,
                target_bitrate_kbps,
                metadata.duration_seconds,
            );
            let ghost s0 = encode_args.deep_view();
            let mut extra2 = second_pass_extra_args(pass_log_base);
            let ghost e2 = extra2.deep_view();
            encode_args.append(&mut extra2);
            proof {
                assert forall|i: int| 0 <= i < s0.len() implies (#[trigger] encode_args@[i])@
                    == s0[i] by {}
                assert forall|i: int|
                    s0.len() <= i < encode_args@.len() implies (#[trigger] encode_args@[i])@ == e2[i
                    - s0.len()] by {}
                lemma_deep_view_concat(encode_args, s0, e2);
            }
            let cleanup_files = pass_log_files(pass_log_base);
            EncodePlan {
                target_bitrate_kbps,
                use_two_pass,
                first_pass_args,
                encode_args,
                cleanup_files,
            }
        } else {
            let mut encode_args = build_invocation_args(
                request.input_path.as_str(),
                request.output_path.as_str(),
                &request.settings,
                target_bitrate_kbps,
                metadata.duration_seconds,
            );
            let ghost s0 = encode_args.deep_view();
            let mut extra = progress_extra_args();
            let ghost e0 = extra.deep_view();
            encode_args.append(&mut extra);
            proof {
                assert forall|i: int| 0 <= i < s0.len() implies (#[trigger] encode_args@[i])@
                    == s0[i] by {}
                assert forall|i: int|
                    s0.len() <= i < encode_args@.len() implies (#[trigger] encode_args@[i])@ == e0[i
                    - s0.len()] by {}
                lemma_deep_view_concat(encode_args, s0, e0);
            }
            let first_pass_args: Vec<String> = Vec::new();
            let cleanup_files: Vec<String> = Vec::new();
            proof {
                assert(first_pass_args.deep_view() =~= Seq::<Seq<char>>::empty());
                assert(cleanup_files.deep_view() =~= Seq::<Seq<char>>::empty());
            }
            EncodePlan {
                target_bitrate_kbps,
                use_two_pass,
                first_pass_args,
                encode_args,
                cleanup_files,
            }
        }
    }

    /// Records the outcome of one attempt and decides what happens next.
    ///
    /// A success resets the encoder's failure count and closes the request
    /// with the achieved sizes and ratio. A failure bumps the count; while
    /// attempts remain, the fallback policy picks the encoder of the next
    /// attempt (swapping the settings when it differs), and when the cap
    /// is reached the request fails for good, citing the attempt count and
    /// the last error text.
    pub fn record_attempt(
        &mut self,
        request: &mut CompressionRequest,
        outcome: AttemptOutcome,
    ) -> (r: EngineStep)
        requires
            old(self).wf(),
            old(request).wf(),
            old(request).attempts < MAX_ATTEMPTS,
        ensures
            final(self).wf(),
            final(request).wf(),
            final(self).capabilities == old(self).capabilities,
            final(self).size_estimator == old(self).size_estimator,
            final(self).fallback_system.fallback_chain == old(self).fallback_system.fallback_chain,
            final(request).attempts == old(request).attempts + 1,
            final(request).input_path == old(request).input_path,
            final(request).output_path == old(request).output_path,
            final(request).input_size_bytes == old(request).input_size_bytes,
            match outcome {
                AttemptOutcome::Succeeded { output_size_bytes, encoding_time_ms } => {
                    &&& final(self).fallback_system.failure_counts@ == spec_clear(
                        old(self).fallback_system.failure_counts@,
                        old(request).settings.hardware_encoder,
                    )
                    &&& final(request).settings == old(request).settings
                    &&& match r {
                        EngineStep::Done { result } => {
                            &&& result.input_path == old(request).input_path
                            &&& result.output_path == old(request).output_path
                            &&& result.input_size_bytes == old(request).input_size_bytes
                            &&& result.output_size_bytes == output_size_bytes
                            &&& result.compression_ratio_percent == spec_ratio_percent(
                                old(request).input_size_bytes as int,
                                output_size_bytes as int,
                            )
                            &&& result.encoding_time_ms == encoding_time_ms
                            &&& result.encoder_used == old(request).settings.hardware_encoder
                            &&& result.hardware_accelerated
                                == old(request).settings.enable_hardware_accel
                        },
                        _ => false,
                    }
                },
                AttemptOutcome::Failed { error } => {
                    let bumped = spec_bump(
                        old(self).fallback_system.failure_counts@,
                        old(request).settings.hardware_encoder,
                    );
                    let next = spec_next_encoder(
                        old(self).fallback_system.fallback_chain@,
                        bumped,
                        MAX_ENCODER_FAILURES,
                        old(request).settings.hardware_encoder,
                    );
                    &&& final(self).fallback_system.failure_counts@ == bumped
                    &&& if old(request).attempts + 1 < MAX_ATTEMPTS {
                        &&& r == (EngineStep::Retry { encoder: next })
                        &&& final(request).settings.hardware_encoder == next
                        &&& (next != old(request).settings.hardware_encoder
                            ==> final(request).settings.enable_hardware_accel
                            == spec_is_hardware_accelerated(next))
                        &&& (next == old(request).settings.hardware_encoder
                            ==> final(request).settings == old(request).settings)
                        // A retry may swap only the encoder and its
                        // acceleration flag; every other setting stays.
                        &&& final(request).settings.target_size == old(
                            request,
                        ).settings.target_size
                        &&& final(request).settings.estimated_size_mb == old(
                            request,
                        ).settings.estimated_size_mb
                        &&& final(request).settings.cuda_device_id == old(
                            request,
                        ).settings.cuda_device_id
                        &&& final(request).settings.hardware_preset == old(
                            request,
                        ).settings.hardware_preset
                        &&& final(request).settings.hardware_quality == old(
                            request,
                        ).settings.hardware_quality
                        &&& final(request).settings.force_software_fallback == old(
                            request,
                        ).settings.force_software_fallback
                        &&& final(request).settings.memory_optimization == old(
                            request,
                        ).settings.memory_optimization
                        &&& final(request).settings.compatibility_mode == old(
                            request,
                        ).settings.compatibility_mode
                    } else {
                        &&& match r {
                            EngineStep::Failed { error: e } => match e {
                                CompressionError::ExhaustedAttempts { attempts, last_error } => {
                                    &&& attempts == old(request).attempts + 1
                                    &&& last_error@ == error@
                                },
                                _ => false,
                            },
                            _ => false,
                        }
                        &&& final(request).settings == old(request).settings
                    }
                },
            },
    {
        request.attempts = request.attempts + 1;
        match outcome {
            AttemptOutcome::Succeeded { output_size_bytes, encoding_time_ms } => {
                let encoder = request.settings.hardware_encoder;
                self.fallback_system.record_success(&encoder);
                let ratio: u64 = if output_size_bytes == 0 {
                    0
                } else {
                    request.input_size_bytes * 100 / output_size_bytes
                };
                let result = CompressionResult {
                    input_path: request.input_path.clone(),
                    output_path: request.output_path.clone(),
                    input_size_bytes: request.input_size_bytes,
                    output_size_bytes,
                    compression_ratio_percent: ratio,
                    encoding_time_ms,
                    encoder_used: request.settings.hardware_encoder,
                    hardware_accelerated: request.settings.enable_hardware_accel,
                };
                EngineStep::Done { result }
            },
            AttemptOutcome::Failed { error } => {
                let encoder = request.settings.hardware_encoder;
                self.fallback_system.record_failure(&encoder, error.as_str());
                if request.attempts < MAX_ATTEMPTS {
                    let next = self.fallback_system.get_next_encoder(&encoder);
                    if next != encoder {
                        request.settings.hardware_encoder = next;
                        request.settings.enable_hardware_accel = next.is_hardware_accelerated();
                    }
                    EngineStep::Retry { encoder: next }
                } else {
                    EngineStep::Failed {
                        error: CompressionError::ExhaustedAttempts {
                            attempts: request.attempts,
                            last_error: error,
                        },
                    }
                }
            },
        }
    }
}

proof fn lemma_deep_view_concat(v: Vec<String>, a: Seq<Seq<char>>, b: Seq<Seq<char>>)
    requires
        v@.len() == a.len() + b.len(),
        forall|i: int| 0 <= i < a.len() ==> (#[trigger] v@[i])@ == a[i],
        forall|i: int| a.len() <= i < v@.len() ==> (#[trigger] v@[i])@ == b[i - a.len()],
    ensures
        v.deep_view() == a + b,
{
    assert(v.deep_view() =~= a + b);
}

} // verus!
