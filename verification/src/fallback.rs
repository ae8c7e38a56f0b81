//! Fallback policy: an ordered chain of encoders with a per-encoder
//! consecutive-failure counter, plus the classification of error text into
//! recovery strategies.
//!
//! An encoder is usable exactly while its failure count stays below the
//! fixed threshold of three; a success resets the count to zero.

use vstd::prelude::*;

use crate::capabilities::{spec_first_in, vec_contains_encoder, HardwareCapabilities};
use crate::encoders::{
    encoder_index, lemma_encoder_index_bijective, spec_encoder_index, spec_is_hardware_accelerated,
    spec_vendor_id, HardwareEncoder, ENCODER_COUNT,
};
use crate::text::{contains_pattern, lower_chars, spec_contains_seq, spec_lower_chars};

verus! {

/// Failure threshold: an encoder that failed this many times in a row is
/// blacklisted until a success resets it.
pub const MAX_ENCODER_FAILURES: u32 = 3;

/// Per-session fallback state: the priority-ordered chain of available
/// encoders and a failure count per encoder kind.
pub struct FallbackSystem {
    pub fallback_chain: Vec<HardwareEncoder>,
    /// Consecutive failures, keyed by `encoder_index`.
    pub failure_counts: Vec<u32>,
    pub max_failures: u32,
}

/// Fixed chain priority: most broadly reliable backends first, platform
/// native next, then the newer codecs, software always last.
pub open spec fn spec_chain_priority() -> Seq<HardwareEncoder> {
    seq![
        HardwareEncoder::NvencH264,
        HardwareEncoder::NvencH265,
        HardwareEncoder::VideoToolbox,
        HardwareEncoder::QsvH264,
        HardwareEncoder::QsvH265,
        HardwareEncoder::AmfH264,
        HardwareEncoder::AmfH265,
        HardwareEncoder::Vaapi,
        HardwareEncoder::NvencAV1,
        HardwareEncoder::QsvAV1,
        HardwareEncoder::Software,
    ]
}

fn chain_priority() -> (v: Vec<HardwareEncoder>)
    ensures
        v@ == spec_chain_priority(),
{
    let mut v: Vec<HardwareEncoder> = Vec::new();
    v.push(HardwareEncoder::NvencH264);
    v.push(HardwareEncoder::NvencH265);
    v.push(HardwareEncoder::VideoToolbox);
    v.push(HardwareEncoder::QsvH264);
    v.push(HardwareEncoder::QsvH265);
    v.push(HardwareEncoder::AmfH264);
    v.push(HardwareEncoder::AmfH265);
    v.push(HardwareEncoder::Vaapi);
    v.push(HardwareEncoder::NvencAV1);
    v.push(HardwareEncoder::QsvAV1);
    v.push(HardwareEncoder::Software);
    proof {
        assert(v@ =~= spec_chain_priority());
    }
    v
}

/// `order` restricted to the members of `avail`, keeping the order.
pub open spec fn spec_chain(order: Seq<HardwareEncoder>, avail: Seq<HardwareEncoder>) -> Seq<
    HardwareEncoder,
>
    decreases order.len(),
{
    if order.len() == 0 {
        Seq::empty()
    } else {
        spec_chain(order.drop_last(), avail) + (if avail.contains(order.last()) {
            seq![order.last()]
        } else {
            Seq::<HardwareEncoder>::empty()
        })
    }
}

/// Builds the fallback chain for the encoders actually available, in the
/// fixed reliability order.
pub fn create_fallback_chain(available_encoders: &Vec<HardwareEncoder>) -> (v: Vec<
    HardwareEncoder,
>)
    ensures
        v@ == spec_chain(spec_chain_priority(), available_encoders@),
{
    let order = chain_priority();
    let mut v: Vec<HardwareEncoder> = Vec::new();
    let mut i: usize = 0;
    proof {
        assert(order@.take(0) =~= Seq::<HardwareEncoder>::empty());
    }
    while i < order.len()
        invariant
            0 <= i <= order@.len(),
            order@ == spec_chain_priority(),
            v@ == spec_chain(order@.take(i as int), available_encoders@),
        decreases order@.len() - i,
    {
        let e = order[i];
        proof {
            assert(order@.take(i + 1).drop_last() =~= order@.take(i as int));
            assert(order@.take(i + 1).last() == order@[i as int]);
        }
        if vec_contains_encoder(available_encoders, &e) {
            v.push(e);
        }
        proof {
            assert(v@ =~= spec_chain(order@.take(i + 1), available_encoders@));
        }
        i = i + 1;
    }
    proof {
        assert(order@.take(order@.len() as int) =~= order@);
    }
    v
}

/// One more consecutive failure for `e` (saturating far above the threshold).
pub open spec fn spec_bump(counts: Seq<u32>, e: HardwareEncoder) -> Seq<u32> {
    let i = spec_encoder_index(e);
    counts.update(i, if counts[i] < u32::MAX { (counts[i] + 1) as u32 } else { counts[i] })
}

/// A success wipes the failure history of `e`.
pub open spec fn spec_clear(counts: Seq<u32>, e: HardwareEncoder) -> Seq<u32> {
    counts.update(spec_encoder_index(e), 0u32)
}

pub open spec fn spec_usable_counts(counts: Seq<u32>, e: HardwareEncoder, max: u32) -> bool {
    counts[spec_encoder_index(e)] < max
}

/// First encoder along the chain whose count is below the threshold and
/// whose vendor differs from the one being avoided.
pub open spec fn spec_first_usable_counts(
    chain: Seq<HardwareEncoder>,
    counts: Seq<u32>,
    max: u32,
    avoid_vendor: int,
) -> Option<HardwareEncoder>
    decreases chain.len(),
{
    if chain.len() == 0 {
        None
    } else if spec_usable_counts(counts, chain[0], max) && spec_vendor_id(chain[0])
        != avoid_vendor {
        Some(chain[0])
    } else {
        spec_first_usable_counts(chain.drop_first(), counts, max, avoid_vendor)
    }
}

/// The encoder the next attempt uses: the preferred one while usable, else
/// the first usable chain entry of another vendor, else the software
/// encoder. A blacklisted backend never hands the retry to a sibling of
/// its own vendor.
pub open spec fn spec_next_encoder(
    chain: Seq<HardwareEncoder>,
    counts: Seq<u32>,
    max: u32,
    preferred: HardwareEncoder,
) -> HardwareEncoder {
    if spec_usable_counts(counts, preferred, max) {
        preferred
    } else {
        match spec_first_usable_counts(chain, counts, max, spec_vendor_id(preferred)) {
            Some(c) => c,
            None => HardwareEncoder::Software,
        }
    }
}

impl FallbackSystem {
    pub open spec fn wf(self) -> bool {
        &&& self.failure_counts@.len() == ENCODER_COUNT
        &&& self.max_failures == MAX_ENCODER_FAILURES
    }

    /// Consecutive failures recorded against `e`.
    pub open spec fn spec_count(self, e: HardwareEncoder) -> u32 {
        self.failure_counts@[spec_encoder_index(e)]
    }

    /// An encoder is usable while its failure count is below the threshold.
    pub open spec fn spec_usable(self, e: HardwareEncoder) -> bool {
        self.spec_count(e) < self.max_failures
    }

    /// Fresh fallback state for one compression session: the chain holds
    /// the available encoders in reliability order and no failures are
    /// recorded yet.
    pub fn new(capabilities: &HardwareCapabilities) -> (r: FallbackSystem)
        ensures
            r.wf(),
            r.fallback_chain@ == spec_chain(
                spec_chain_priority(),
                capabilities.available_encoders@,
            ),
            forall|e: HardwareEncoder| r.spec_count(e) == 0,
            forall|e: HardwareEncoder| r.spec_usable(e),
    {
        let fallback_chain = create_fallback_chain(&capabilities.available_encoders);
        let mut failure_counts: Vec<u32> = Vec::new();
        let mut i: usize = 0;
        while i < ENCODER_COUNT
            invariant
                0 <= i <= ENCODER_COUNT,
                failure_counts@.len() == i,
                forall|k: int| 0 <= k < i ==> failure_counts@[k] == 0,
            decreases ENCODER_COUNT - i,
        {
            failure_counts.push(0);
            i = i + 1;
        }
        let r = FallbackSystem { fallback_chain, failure_counts, max_failures: MAX_ENCODER_FAILURES };
        proof {
            assert forall|e: HardwareEncoder| r.spec_count(e) == 0 by {
                lemma_encoder_index_bijective(e);
            }
        }
        r
    }

    /// Whether `encoder` may still be tried (failure count below threshold).
    pub fn is_encoder_usable(&self, encoder: &HardwareEncoder) -> (b: bool)
        requires
            self.wf(),
        ensures
            b == self.spec_usable(*encoder),
    {
        let idx = encoder_index(encoder);
        self.failure_counts[idx] < self.max_failures
    }

    /// Records one more consecutive failure of `encoder`; the error text is
    /// kept by the caller for diagnostics and does not change the counts.
    pub fn record_failure(&mut self, encoder: &HardwareEncoder, error: &str)
        requires
            old(self).wf(),
        ensures
            final(self).wf(),
            final(self).failure_counts@ == spec_bump(old(self).failure_counts@, *encoder),
            final(self).fallback_chain == old(self).fallback_chain,
            final(self).max_failures == old(self).max_failures,
    {
        let _ = error;
        let idx = encoder_index(encoder);
        let count = self.failure_counts[idx];
        let bumped = if count < u32::MAX {
            count + 1
        } else {
            count
        };
        self.failure_counts.set(idx, bumped);
    }

    /// Records a success of `encoder`, resetting its failure count to zero.
    pub fn record_success(&mut self, encoder: &HardwareEncoder)
        requires
            old(self).wf(),
        ensures
            final(self).wf(),
            final(self).failure_counts@ == spec_clear(old(self).failure_counts@, *encoder),
            final(self).spec_usable(*encoder),
            final(self).fallback_chain == old(self).fallback_chain,
            final(self).max_failures == old(self).max_failures,
    {
        let idx = encoder_index(encoder);
        self.failure_counts.set(idx, 0);
    }

    /// Wipes the whole failure history.
    pub fn reset_failures(&mut self)
        requires
            old(self).wf(),
        ensures
            final(self).wf(),
            forall|e: HardwareEncoder| final(self).spec_count(e) == 0,
            final(self).fallback_chain == old(self).fallback_chain,
    {
        let mut counts: Vec<u32> = Vec::new();
        let mut i: usize = 0;
        while i < ENCODER_COUNT
            invariant
                0 <= i <= ENCODER_COUNT,
                counts@.len() == i,
                forall|k: int| 0 <= k < i ==> counts@[k] == 0,
            decreases ENCODER_COUNT - i,
        {
            counts.push(0);
            i = i + 1;
        }
        self.failure_counts = counts;
        proof {
            assert forall|e: HardwareEncoder| self.spec_count(e) == 0 by {
                lemma_encoder_index_bijective(e);
            }
        }
    }

    /// The recorded failure count of every encoder kind, in catalog order.
    pub fn get_failure_stats(&self) -> (r: Vec<(HardwareEncoder, u32)>)
        requires
            self.wf(),
        ensures
            r@.len() == ENCODER_COUNT,
            forall|k: int|
                0 <= k < ENCODER_COUNT ==> (#[trigger] r@[k]).1 == self.spec_count(r@[k].0)
                    && spec_encoder_index(r@[k].0) == k,
    {
        let catalog = crate::encoders::all_encoders();
        let mut r: Vec<(HardwareEncoder, u32)> = Vec::new();
        let mut i: usize = 0;
        while i < catalog.len()
            invariant
                0 <= i <= catalog@.len(),
                catalog@.len() == ENCODER_COUNT,
                self.wf(),
                forall|k: int|
                    0 <= k < ENCODER_COUNT ==> catalog@[k] == crate::encoders::spec_encoder_at(k),
                r@.len() == i,
                forall|k: int|
                    0 <= k < i ==> (#[trigger] r@[k]).1 == self.spec_count(r@[k].0)
                        && spec_encoder_index(r@[k].0) == k,
            decreases catalog@.len() - i,
        {
            let e = catalog[i];
            proof {
                crate::encoders::lemma_encoder_at_index(i as int);
            }
            let idx = encoder_index(&e);
            let c = self.failure_counts[idx];
            r.push((e, c));
            i = i + 1;
        }
        r
    }

    /// First usable encoder along the chain from a vendor other than the
    /// one being avoided, if any.
    pub open spec fn spec_first_usable(
        self,
        chain: Seq<HardwareEncoder>,
        avoid_vendor: int,
    ) -> Option<HardwareEncoder> {
        spec_first_usable_counts(chain, self.failure_counts@, self.max_failures, avoid_vendor)
    }

    /// The encoder a retry should use: the preferred one while it is still
    /// usable; otherwise the first usable chain encoder from another
    /// vendor, so that a backend blacklisted for repeated failures does
    /// not hand the retry to its own vendor's sibling; and the software
    /// encoder when nothing else qualifies.
    pub fn get_next_encoder(&self, preferred: &HardwareEncoder) -> (r: HardwareEncoder)
        requires
            self.wf(),
        ensures
            r == spec_next_encoder(
                self.fallback_chain@,
                self.failure_counts@,
                self.max_failures,
                *preferred,
            ),
            self.spec_usable(*preferred) ==> r == *preferred,
            !self.spec_usable(*preferred) ==> spec_vendor_id(r) != spec_vendor_id(*preferred) || r
                == HardwareEncoder::Software,
            !self.spec_usable(*preferred) ==> r == (match self.spec_first_usable(
                self.fallback_chain@,
                spec_vendor_id(*preferred),
            ) {
                Some(c) => c,
                None => HardwareEncoder::Software,
            }),
    {
        if self.is_encoder_usable(preferred) {
            return *preferred;
        }
        let avoid = crate::encoders::vendor_id(preferred);
        let chain = &self.fallback_chain;
        let mut i: usize = 0;
        proof {
            assert(chain@.skip(0) =~= chain@);
        }
        while i < chain.len()
            invariant
                0 <= i <= chain@.len(),
                self.wf(),
                !self.spec_usable(*preferred),
                avoid == spec_vendor_id(*preferred),
                chain == self.fallback_chain,
                self.spec_first_usable(chain@, avoid as int) == self.spec_first_usable(
                    chain@.skip(i as int),
                    avoid as int,
                ),
            decreases chain@.len() - i,
        {
            let e = chain[i];
            proof {
                assert(chain@.skip(i as int)[0] == chain@[i as int]);
            }
            if self.is_encoder_usable(&e) && crate::encoders::vendor_id(&e) != avoid {
                proof {
                    assert(self.spec_first_usable(chain@.skip(i as int), avoid as int) == Some(e));
                }
                return e;
            }
            proof {
                assert(chain@.skip(i as int).drop_first() =~= chain@.skip(i + 1));
            }
            i = i + 1;
        }
        proof {
            assert(chain@.skip(chain@.len() as int).len() == 0);
        }
        HardwareEncoder::Software
    }

    /// Whether any hardware-accelerated encoder of the chain is usable.
    pub fn has_usable_hardware_encoders(&self) -> (b: bool)
        requires
            self.wf(),
        ensures
            b == exists|i: int|
                0 <= i < self.fallback_chain@.len() && spec_is_hardware_accelerated(
                    #[trigger] self.fallback_chain@[i],
                ) && self.spec_usable(self.fallback_chain@[i]),
    {
        let chain = &self.fallback_chain;
        let mut i: usize = 0;
        while i < chain.len()
            invariant
                0 <= i <= chain@.len(),
                self.wf(),
                chain == self.fallback_chain,
                forall|k: int|
                    0 <= k < i ==> !(spec_is_hardware_accelerated(#[trigger] chain@[k])
                        && self.spec_usable(chain@[k])),
            decreases chain@.len() - i,
        {
            let e = chain[i];
            if e.is_hardware_accelerated() && self.is_encoder_usable(&e) {
                proof {
                    assert(spec_is_hardware_accelerated(chain@[i as int]) && self.spec_usable(
                        chain@[i as int],
                    ));
                }
                return true;
            }
            i = i + 1;
        }
        false
    }
}

pub open spec fn spec_is_nvenc(e: HardwareEncoder) -> bool {
    e == HardwareEncoder::NvencH264 || e == HardwareEncoder::NvencH265 || e
        == HardwareEncoder::NvencAV1
}

pub open spec fn spec_is_amf(e: HardwareEncoder) -> bool {
    e == HardwareEncoder::AmfH264 || e == HardwareEncoder::AmfH265
}

pub open spec fn spec_is_qsv(e: HardwareEncoder) -> bool {
    e == HardwareEncoder::QsvH264 || e == HardwareEncoder::QsvH265 || e
        == HardwareEncoder::QsvAV1
}

/// How to recover from a failed attempt, derived from the error text.
#[derive(Debug, Clone, Copy, PartialEq, Eq, Structural)]
pub enum RecoveryStrategy {
    ReduceMemoryUsage,
    ChangeDevice,
    ChangeEncoder,
    AvoidNvidia,
    AvoidAmd,
    AvoidIntel,
    FallbackToSoftware,
    TryAlternative,
}

pub open spec fn spec_strategy_description(s: RecoveryStrategy) -> Seq<char> {
    match s {
        RecoveryStrategy::ReduceMemoryUsage => "Reduce memory usage and try again"@,
        RecoveryStrategy::ChangeDevice => "Try a different hardware device"@,
        RecoveryStrategy::ChangeEncoder => "Switch to different encoder"@,
        RecoveryStrategy::AvoidNvidia => "Avoid NVIDIA encoders temporarily"@,
        RecoveryStrategy::AvoidAmd => "Avoid AMD encoders temporarily"@,
        RecoveryStrategy::AvoidIntel => "Avoid Intel encoders temporarily"@,
        RecoveryStrategy::FallbackToSoftware => "Use software encoding"@,
        RecoveryStrategy::TryAlternative => "Try alternative approach"@,
    }
}

impl RecoveryStrategy {
    pub fn description(&self) -> (r: &'static str)
        ensures
            r@ == spec_strategy_description(*self),
    {
        match self {
            RecoveryStrategy::ReduceMemoryUsage => "Reduce memory usage and try again",
            RecoveryStrategy::ChangeDevice => "Try a different hardware device",
            RecoveryStrategy::ChangeEncoder => "Switch to different encoder",
            RecoveryStrategy::AvoidNvidia => "Avoid NVIDIA encoders temporarily",
            RecoveryStrategy::AvoidAmd => "Avoid AMD encoders temporarily",
            RecoveryStrategy::AvoidIntel => "Avoid Intel encoders temporarily",
            RecoveryStrategy::FallbackToSoftware => "Use software encoding",
            RecoveryStrategy::TryAlternative => "Try alternative approach",
        }
    }
}

/// The strategy chosen for a given (lower-cased) error text, checked in a
/// fixed priority order: memory pressure first, then the vendor-specific
/// categories, then generic device, driver and codec trouble, with a
/// generic fallback last. Vendor text deliberately outranks the generic
/// `device`/`unavailable` keywords: a message that names an accelerator
/// stack (such as one about an unavailable CUDA device) must steer the
/// retry away from that vendor, not merely to another device of it.
pub open spec fn spec_recovery_strategy(t: Seq<char>) -> RecoveryStrategy {
    if spec_contains_seq(t, "out of memory"@) || spec_contains_seq(t, "memory"@) {
        RecoveryStrategy::ReduceMemoryUsage
    } else if spec_contains_seq(t, "nvenc"@) || spec_contains_seq(t, "cuda"@) {
        RecoveryStrategy::AvoidNvidia
    } else if spec_contains_seq(t, "amf"@) || spec_contains_seq(t, "amd"@) {
        RecoveryStrategy::AvoidAmd
    } else if spec_contains_seq(t, "qsv"@) || spec_contains_seq(t, "intel"@) {
        RecoveryStrategy::AvoidIntel
    } else if spec_contains_seq(t, "device"@) || spec_contains_seq(t, "unavailable"@) {
        RecoveryStrategy::ChangeDevice
    } else if spec_contains_seq(t, "driver"@) || spec_contains_seq(t, "initialization"@) {
        RecoveryStrategy::FallbackToSoftware
    } else if spec_contains_seq(t, "codec"@) || spec_contains_seq(t, "unsupported"@) {
        RecoveryStrategy::ChangeEncoder
    } else {
        RecoveryStrategy::TryAlternative
    }
}

/// Classifies error text into exactly one recovery strategy; matching is
/// case-insensitive over the whole message.
pub fn analyze_error_for_recovery(error: &str) -> (r: RecoveryStrategy)
    ensures
        r == spec_recovery_strategy(spec_lower_chars(error@)),
{
    let t = lower_chars(error);
    if contains_pattern(&t, "out of memory") || contains_pattern(&t, "memory") {
        RecoveryStrategy::ReduceMemoryUsage
    } else if contains_pattern(&t, "nvenc") || contains_pattern(&t, "cuda") {
        RecoveryStrategy::AvoidNvidia
    } else if contains_pattern(&t, "amf") || contains_pattern(&t, "amd") {
        RecoveryStrategy::AvoidAmd
    } else if contains_pattern(&t, "qsv") || contains_pattern(&t, "intel") {
        RecoveryStrategy::AvoidIntel
    } else if contains_pattern(&t, "device") || contains_pattern(&t, "unavailable") {
        RecoveryStrategy::ChangeDevice
    } else if contains_pattern(&t, "driver") || contains_pattern(&t, "initialization") {
        RecoveryStrategy::FallbackToSoftware
    } else if contains_pattern(&t, "codec") || contains_pattern(&t, "unsupported") {
        RecoveryStrategy::ChangeEncoder
    } else {
        RecoveryStrategy::TryAlternative
    }
}

/// Encoders of the same codec family that another vendor offers, in the
/// order they are tried.
pub open spec fn spec_alt_candidates(e: HardwareEncoder) -> Seq<HardwareEncoder> {
    match e {
        HardwareEncoder::NvencH264 | HardwareEncoder::AmfH264 | HardwareEncoder::QsvH264 => seq![
            HardwareEncoder::NvencH264,
            HardwareEncoder::AmfH264,
            HardwareEncoder::QsvH264,
            HardwareEncoder::Vaapi,
            HardwareEncoder::VideoToolbox,
        ],
        HardwareEncoder::NvencH265 | HardwareEncoder::AmfH265 | HardwareEncoder::QsvH265 => seq![
            HardwareEncoder::NvencH265,
            HardwareEncoder::AmfH265,
            HardwareEncoder::QsvH265,
        ],
        HardwareEncoder::NvencAV1 | HardwareEncoder::QsvAV1 => seq![
            HardwareEncoder::NvencAV1,
            HardwareEncoder::QsvAV1,
        ],
        _ => Seq::empty(),
    }
}

fn alt_candidates(e: &HardwareEncoder) -> (v: Vec<HardwareEncoder>)
    ensures
        v@ == spec_alt_candidates(*e),
{
    let mut v: Vec<HardwareEncoder> = Vec::new();
    match e {
        HardwareEncoder::NvencH264 | HardwareEncoder::AmfH264 | HardwareEncoder::QsvH264 => {
            v.push(HardwareEncoder::NvencH264);
            v.push(HardwareEncoder::AmfH264);
            v.push(HardwareEncoder::QsvH264);
            v.push(HardwareEncoder::Vaapi);
            v.push(HardwareEncoder::VideoToolbox);
        },
        HardwareEncoder::NvencH265 | HardwareEncoder::AmfH265 | HardwareEncoder::QsvH265 => {
            v.push(HardwareEncoder::NvencH265);
            v.push(HardwareEncoder::AmfH265);
            v.push(HardwareEncoder::QsvH265);
        },
        HardwareEncoder::NvencAV1 | HardwareEncoder::QsvAV1 => {
            v.push(HardwareEncoder::NvencAV1);
            v.push(HardwareEncoder::QsvAV1);
        },
        _ => {},
    }
    proof {
        assert(v@ =~= spec_alt_candidates(*e));
    }
    v
}

impl FallbackSystem {
    /// First candidate that is not the failed encoder itself, is still
    /// usable, and stands in the fallback chain.
    pub open spec fn spec_first_alt(
        self,
        failed: HardwareEncoder,
        cands: Seq<HardwareEncoder>,
    ) -> Option<HardwareEncoder>
        decreases cands.len(),
    {
        if cands.len() == 0 {
            None
        } else if cands[0] != failed && self.spec_usable(cands[0]) && self.fallback_chain@.contains(
            cands[0],
        ) {
            Some(cands[0])
        } else {
            self.spec_first_alt(failed, cands.drop_first())
        }
    }

    /// The vendor-alternative proposed for a failed encoder: the first
    /// same-codec candidate from another vendor that is usable and present
    /// in the chain.
    pub open spec fn spec_alt_vendor(self, failed: HardwareEncoder) -> Option<HardwareEncoder> {
        self.spec_first_alt(failed, spec_alt_candidates(failed))
    }

    /// Proposes an encoder of the same codec family from another vendor.
    pub fn find_alternative_vendor_encoder(&self, failed_encoder: &HardwareEncoder) -> (r: Option<
        HardwareEncoder,
    >)
        requires
            self.wf(),
        ensures
            r == self.spec_alt_vendor(*failed_encoder),
    {
        let cands = alt_candidates(failed_encoder);
        let mut i: usize = 0;
        proof {
            assert(cands@.skip(0) =~= cands@);
        }
        while i < cands.len()
            invariant
                0 <= i <= cands@.len(),
                self.wf(),
                cands@ == spec_alt_candidates(*failed_encoder),
                self.spec_first_alt(*failed_encoder, cands@) == self.spec_first_alt(
                    *failed_encoder,
                    cands@.skip(i as int),
                ),
            decreases cands@.len() - i,
        {
            let c = cands[i];
            proof {
                assert(cands@.skip(i as int)[0] == cands@[i as int]);
            }
            if c != *failed_encoder && self.is_encoder_usable(&c) && vec_contains_encoder(
                &self.fallback_chain,
                &c,
            ) {
                return Some(c);
            }
            proof {
                assert(cands@.skip(i as int).drop_first() =~= cands@.skip(i + 1));
            }
            i = i + 1;
        }
        proof {
            assert(cands@.skip(cands@.len() as int).len() == 0);
        }
        None
    }

    /// The per-error fallback recommendation: vendor-specific error text
    /// proposes an alternative vendor for the same codec, memory pressure
    /// proposes the software encoder, device trouble proposes another
    /// vendor; anything unrecognized yields no recommendation.
    pub open spec fn spec_error_fallback(self, e: HardwareEncoder, t: Seq<char>) -> Option<
        HardwareEncoder,
    > {
        if spec_is_nvenc(e) && (spec_contains_seq(t, "cuda"@) || spec_contains_seq(t, "nvenc"@)) {
            self.spec_alt_vendor(e)
        } else if spec_is_amf(e) && (spec_contains_seq(t, "amf"@) || spec_contains_seq(t, "amd"@)) {
            self.spec_alt_vendor(e)
        } else if spec_is_qsv(e) && (spec_contains_seq(t, "qsv"@) || spec_contains_seq(
            t,
            "intel"@,
        )) {
            self.spec_alt_vendor(e)
        } else if spec_contains_seq(t, "memory"@) || spec_contains_seq(t, "out of memory"@) {
            Some(HardwareEncoder::Software)
        } else if spec_contains_seq(t, "device"@) || spec_contains_seq(t, "unavailable"@) {
            self.spec_alt_vendor(e)
        } else {
            None
        }
    }

    /// Recommends a fallback for a specific error message, matched
    /// case-insensitively; `None` means the caller should use the generic
    /// chain walk instead.
    pub fn get_error_specific_fallback(
        &self,
        encoder: &HardwareEncoder,
        error: &str,
    ) -> (r: Option<HardwareEncoder>)
        requires
            self.wf(),
        ensures
            r == self.spec_error_fallback(*encoder, spec_lower_chars(error@)),
    {
        let t = lower_chars(error);
        let is_nvenc = matches!(
            encoder,
            HardwareEncoder::NvencH264 | HardwareEncoder::NvencH265 | HardwareEncoder::NvencAV1
        );
        let is_amf = matches!(encoder, HardwareEncoder::AmfH264 | HardwareEncoder::AmfH265);
        let is_qsv = matches!(
            encoder,
            HardwareEncoder::QsvH264 | HardwareEncoder::QsvH265 | HardwareEncoder::QsvAV1
        );
        if is_nvenc && (contains_pattern(&t, "cuda") || contains_pattern(&t, "nvenc")) {
            self.find_alternative_vendor_encoder(encoder)
        } else if is_amf && (contains_pattern(&t, "amf") || contains_pattern(&t, "amd")) {
            self.find_alternative_vendor_encoder(encoder)
        } else if is_qsv && (contains_pattern(&t, "qsv") || contains_pattern(&t, "intel")) {
            self.find_alternative_vendor_encoder(encoder)
        } else if contains_pattern(&t, "memory") || contains_pattern(&t, "out of memory") {
            Some(HardwareEncoder::Software)
        } else if contains_pattern(&t, "device") || contains_pattern(&t, "unavailable") {
            self.find_alternative_vendor_encoder(encoder)
        } else {
            None
        }
    }
}

/// Why a recovery strategy could not be applied.
#[derive(Debug, Clone, Copy, PartialEq, Eq, Structural)]
pub enum RecoveryError {
    NoAlternativeDevice,
    NoAlternativeEncoder,
}

impl RecoveryError {
    pub fn message(&self) -> (r: &'static str)
        ensures
            *self == RecoveryError::NoAlternativeDevice ==> r@
                == "No alternative devices available"@,
            *self == RecoveryError::NoAlternativeEncoder ==> r@
                == "No alternative encoder for same vendor"@,
    {
        match self {
            RecoveryError::NoAlternativeDevice => "No alternative devices available",
            RecoveryError::NoAlternativeEncoder => "No alternative encoder for same vendor",
        }
    }
}

pub open spec fn spec_avoid_list(s: RecoveryStrategy) -> Seq<HardwareEncoder> {
    match s {
        RecoveryStrategy::AvoidNvidia => seq![
            HardwareEncoder::AmfH264,
            HardwareEncoder::QsvH264,
            HardwareEncoder::Vaapi,
            HardwareEncoder::VideoToolbox,
            HardwareEncoder::Software,
        ],
        RecoveryStrategy::AvoidAmd => seq![
            HardwareEncoder::NvencH264,
            HardwareEncoder::QsvH264,
            HardwareEncoder::Vaapi,
            HardwareEncoder::VideoToolbox,
            HardwareEncoder::Software,
        ],
        RecoveryStrategy::AvoidIntel => seq![
            HardwareEncoder::NvencH264,
            HardwareEncoder::AmfH264,
            HardwareEncoder::Vaapi,
            HardwareEncoder::VideoToolbox,
            HardwareEncoder::Software,
        ],
        _ => Seq::empty(),
    }
}

fn avoid_list(s: &RecoveryStrategy) -> (v: Vec<HardwareEncoder>)
    ensures
        v@ == spec_avoid_list(*s),
{
    let mut v: Vec<HardwareEncoder> = Vec::new();
    match s {
        RecoveryStrategy::AvoidNvidia => {
            v.push(HardwareEncoder::AmfH264);
            v.push(HardwareEncoder::QsvH264);
            v.push(HardwareEncoder::Vaapi);
            v.push(HardwareEncoder::VideoToolbox);
            v.push(HardwareEncoder::Software);
        },
        RecoveryStrategy::AvoidAmd => {
            v.push(HardwareEncoder::NvencH264);
            v.push(HardwareEncoder::QsvH264);
            v.push(HardwareEncoder::Vaapi);
            v.push(HardwareEncoder::VideoToolbox);
            v.push(HardwareEncoder::Software);
        },
        RecoveryStrategy::AvoidIntel => {
            v.push(HardwareEncoder::NvencH264);
            v.push(HardwareEncoder::AmfH264);
            v.push(HardwareEncoder::Vaapi);
            v.push(HardwareEncoder::VideoToolbox);
            v.push(HardwareEncoder::Software);
        },
        _ => {},
    }
    proof {
        assert(v@ =~= spec_avoid_list(*s));
    }
    v
}

/// What applying a strategy yields for a given current encoder and host
/// capabilities.
pub open spec fn spec_apply_recovery(
    strategy: RecoveryStrategy,
    current: HardwareEncoder,
    caps: HardwareCapabilities,
) -> Result<HardwareEncoder, RecoveryError> {
    match strategy {
        RecoveryStrategy::ReduceMemoryUsage => Ok(current),
        RecoveryStrategy::ChangeDevice => if caps.cuda_devices@.len() > 1 && spec_is_nvenc(
            current,
        ) {
            Ok(current)
        } else {
            Err(RecoveryError::NoAlternativeDevice)
        },
        RecoveryStrategy::ChangeEncoder => match current {
            HardwareEncoder::NvencH265 => Ok(HardwareEncoder::NvencH264),
            HardwareEncoder::NvencAV1 => Ok(HardwareEncoder::NvencH264),
            HardwareEncoder::AmfH265 => Ok(HardwareEncoder::AmfH264),
            HardwareEncoder::QsvH265 => Ok(HardwareEncoder::QsvH264),
            HardwareEncoder::QsvAV1 => Ok(HardwareEncoder::QsvH264),
            _ => Err(RecoveryError::NoAlternativeEncoder),
        },
        RecoveryStrategy::AvoidNvidia | RecoveryStrategy::AvoidAmd
            | RecoveryStrategy::AvoidIntel => match spec_first_in(
            spec_avoid_list(strategy),
            caps.available_encoders@,
        ) {
            Some(e) => Ok(e),
            None => Ok(HardwareEncoder::Software),
        },
        RecoveryStrategy::FallbackToSoftware => Ok(HardwareEncoder::Software),
        RecoveryStrategy::TryAlternative => match caps.preferred_encoder {
            Some(p) => if p != current {
                Ok(p)
            } else {
                Ok(HardwareEncoder::Software)
            },
            None => Ok(HardwareEncoder::Software),
        },
    }
}

/// Applies a recovery strategy, yielding the encoder the next attempt
/// should use, or an error when the strategy has nothing to offer.
pub fn apply_recovery_strategy(
    strategy: &RecoveryStrategy,
    current_encoder: &HardwareEncoder,
    capabilities: &HardwareCapabilities,
) -> (r: Result<HardwareEncoder, RecoveryError>)
    ensures
        r == spec_apply_recovery(*strategy, *current_encoder, *capabilities),
{
    match strategy {
        RecoveryStrategy::ReduceMemoryUsage => Ok(*current_encoder),
        RecoveryStrategy::ChangeDevice => {
            let is_nvidia = matches!(
                current_encoder,
                HardwareEncoder::NvencH264 | HardwareEncoder::NvencH265 | HardwareEncoder::NvencAV1
            );
            if capabilities.cuda_devices.len() > 1 && is_nvidia {
                Ok(*current_encoder)
            } else {
                Err(RecoveryError::NoAlternativeDevice)
            }
        },
        RecoveryStrategy::ChangeEncoder => match current_encoder {
            HardwareEncoder::NvencH265 => Ok(HardwareEncoder::NvencH264),
            HardwareEncoder::NvencAV1 => Ok(HardwareEncoder::NvencH264),
            HardwareEncoder::AmfH265 => Ok(HardwareEncoder::AmfH264),
            HardwareEncoder::QsvH265 => Ok(HardwareEncoder::QsvH264),
            HardwareEncoder::QsvAV1 => Ok(HardwareEncoder::QsvH264),
            _ => Err(RecoveryError::NoAlternativeEncoder),
        },
        RecoveryStrategy::AvoidNvidia | RecoveryStrategy::AvoidAmd
            | RecoveryStrategy::AvoidIntel => {
            let list = avoid_list(strategy);
            match crate::capabilities::first_in(&list, &capabilities.available_encoders) {
                Some(e) => Ok(e),
                None => Ok(HardwareEncoder::Software),
            }
        },
        RecoveryStrategy::FallbackToSoftware => Ok(HardwareEncoder::Software),
        RecoveryStrategy::TryAlternative => match &capabilities.preferred_encoder {
            Some(p) => if *p != *current_encoder {
                Ok(*p)
            } else {
                Ok(HardwareEncoder::Software)
            },
            None => Ok(HardwareEncoder::Software),
        },
    }
}

/// Calling `record_failure` three times in a row on one encoder makes it
/// unusable; one subsequent `record_success` makes it usable again. Stated
/// over the failure-count model that the two methods' contracts use.
pub proof fn lemma_failure_threshold(counts: Seq<u32>, e: HardwareEncoder)
    requires
        counts.len() == ENCODER_COUNT,
    ensures
        !spec_usable_counts(
            spec_bump(spec_bump(spec_bump(counts, e), e), e),
            e,
            MAX_ENCODER_FAILURES,
        ),
        spec_usable_counts(
            spec_clear(spec_bump(spec_bump(spec_bump(counts, e), e), e), e),
            e,
            MAX_ENCODER_FAILURES,
        ),
{
    lemma_encoder_index_bijective(e);
}

} // verus!
