//! Negotiation of the sample rate at which an aggregate device runs.
//! Rates are whole numbers of hertz.

use vstd::prelude::*;

verus! {

/// The format in which captured audio is handed on.
#[derive(Clone, Copy, Debug, PartialEq, Eq, Structural)]
pub struct AudioStats {
    /// The sample rate in hertz.
    pub sample_rate: u32,
    /// The number of channels: one, since every buffer is mixed down to mono.
    pub channels: u32,
}

/// A range of nominal sample rates that a device advertises, both ends
/// included.
#[derive(Clone, Copy, Debug, PartialEq, Eq, Structural)]
pub struct RateRange {
    pub minimum: u32,
    pub maximum: u32,
}

impl RateRange {
    /// Whether `rate` lies in the range.
    pub open spec fn spec_contains(self, rate: u32) -> bool {
        self.minimum <= rate && rate <= self.maximum
    }

    /// Tests whether `rate` lies in the range.
    pub fn contains(&self, rate: u32) -> (b: bool)
        ensures
            b == self.spec_contains(rate),
    {
        self.minimum <= rate && rate <= self.maximum
    }
}

/// Whether one of `ranges` contains `rate`.
pub open spec fn spec_supports(ranges: Seq<RateRange>, rate: u32) -> bool {
    exists|i: int| 0 <= i < ranges.len() && (#[trigger] ranges[i]).spec_contains(rate)
}

/// The common rates, the most preferred first.
pub open spec fn spec_common_rates() -> Seq<u32> {
    seq![48000u32, 44100u32, 96000u32, 88200u32, 24000u32, 22050u32]
}

/// The first of the common rates from position `from` on that one of
/// `ranges` contains.
pub open spec fn spec_first_common(ranges: Seq<RateRange>, from: int) -> Option<u32>
    decreases spec_common_rates().len() - from,
{
    if from < 0 || from >= spec_common_rates().len() {
        None
    } else if spec_supports(ranges, spec_common_rates()[from]) {
        Some(spec_common_rates()[from])
    } else {
        spec_first_common(ranges, from + 1)
    }
}

/// The greatest upper end among `ranges`, and zero where there is none.
pub open spec fn spec_highest(ranges: Seq<RateRange>) -> u32
    decreases ranges.len(),
{
    if ranges.len() == 0 {
        0
    } else {
        let rest = spec_highest(ranges.drop_last());
        if ranges.last().maximum > rest {
            ranges.last().maximum
        } else {
            rest
        }
    }
}

/// The rate to run at when `preferred` is wished for and the device
/// advertises `ranges`: `preferred` itself where a range contains it;
/// otherwise the first common rate that a range contains; otherwise the
/// greatest upper end of the ranges. Where nothing is advertised there is
/// nothing to choose from, and `preferred` stays.
pub open spec fn spec_select_sample_rate(preferred: u32, ranges: Seq<RateRange>) -> u32 {
    if spec_supports(ranges, preferred) {
        preferred
    } else {
        match spec_first_common(ranges, 0) {
            Some(rate) => rate,
            None => if ranges.len() > 0 {
                spec_highest(ranges)
            } else {
                preferred
            },
        }
    }
}

/// Tests whether one of `ranges` contains `rate`.
pub fn supports(ranges: &[RateRange], rate: u32) -> (b: bool)
    ensures
        b == spec_supports(ranges@, rate),
{
    let mut i: usize = 0;
    while i < ranges.len()
        invariant
            i <= ranges@.len(),
            forall|j: int| 0 <= j < i ==> !(#[trigger] ranges@[j]).spec_contains(rate),
        decreases ranges@.len() - i,
    {
        if ranges[i].contains(rate) {
            return true;
        }
        i += 1;
    }
    false
}

/// The greatest upper end among `ranges`, and zero where there is none.
pub fn highest(ranges: &[RateRange]) -> (rate: u32)
    ensures
        rate == spec_highest(ranges@),
{
    let mut rate: u32 = 0;
    let mut i: usize = 0;
    while i < ranges.len()
        invariant
            i <= ranges@.len(),
            rate == spec_highest(ranges@.take(i as int)),
        decreases ranges@.len() - i,
    {
        assert(ranges@.take(i + 1).drop_last() == ranges@.take(i as int));
        if ranges[i].maximum > rate {
            rate = ranges[i].maximum;
        }
        i += 1;
    }
    assert(ranges@.take(ranges@.len() as int) == ranges@);
    rate
}

/// Chooses the rate to run at when `preferred` is wished for and the device
/// advertises `ranges`.
pub fn select_sample_rate(preferred: u32, ranges: &[RateRange]) -> (rate: u32)
    ensures
        rate == spec_select_sample_rate(preferred, ranges@),
{
    if supports(ranges, preferred) {
        return preferred;
    }
    let common: [u32; 6] = [48000, 44100, 96000, 88200, 24000, 22050];
    assert(common@ =~= spec_common_rates());
    let mut k: usize = 0;
    while k < 6
        invariant
            k <= 6,
            common@ == spec_common_rates(),
            !spec_supports(ranges@, preferred),
            spec_first_common(ranges@, k as int) == spec_first_common(ranges@, 0),
        decreases 6 - k,
    {
        if supports(ranges, common[k]) {
            return common[k];
        }
        k += 1;
    }
    if ranges.len() > 0 {
        highest(ranges)
    } else {
        preferred
    }
}

/// Every range of `ranges` has its lower end at or below its upper end.
pub open spec fn spec_well_formed(ranges: Seq<RateRange>) -> bool {
    forall|i: int| 0 <= i < ranges.len() ==> (#[trigger] ranges[i]).minimum <= ranges[i].maximum
}

/// The greatest upper end of `ranges` is the upper end of one of them and
/// no upper end lies above it.
pub proof fn lemma_highest_is_an_upper_end(ranges: Seq<RateRange>)
    requires
        ranges.len() > 0,
    ensures
        exists|i: int| 0 <= i < ranges.len() && (#[trigger] ranges[i]).maximum == spec_highest(ranges),
        forall|i: int| 0 <= i < ranges.len() ==> (#[trigger] ranges[i]).maximum <= spec_highest(ranges),
    decreases ranges.len(),
{
    let init = ranges.drop_last();
    if init.len() == 0 {
        assert(spec_highest(init) == 0);
        assert(ranges[0].maximum == spec_highest(ranges));
    } else {
        lemma_highest_is_an_upper_end(init);
        let w = choose|i: int| 0 <= i < init.len() && (#[trigger] init[i]).maximum == spec_highest(init);
        assert(ranges[w] == init[w]);
        if ranges.last().maximum > spec_highest(init) {
            assert(ranges[ranges.len() - 1].maximum == spec_highest(ranges));
        } else {
            assert(ranges[w].maximum == spec_highest(ranges));
        }
        assert forall|i: int| 0 <= i < ranges.len() implies (#[trigger] ranges[i]).maximum
            <= spec_highest(ranges) by {
            if i < init.len() {
                assert(ranges[i] == init[i]);
            }
        }
    }
}

/// A common rate that is found is one that a range contains.
pub proof fn lemma_first_common_is_supported(ranges: Seq<RateRange>, from: int)
    ensures
        spec_first_common(ranges, from) matches Some(rate) ==> spec_supports(ranges, rate),
    decreases spec_common_rates().len() - from,
{
    if 0 <= from < spec_common_rates().len() && !spec_supports(ranges, spec_common_rates()[from]) {
        lemma_first_common_is_supported(ranges, from + 1);
    }
}

/// Where the device advertises neither the preferred rate nor any of the
/// common rates, the chosen rate is the greatest upper end of what it does
/// advertise.
pub proof fn lemma_fallback_is_the_highest(preferred: u32, ranges: Seq<RateRange>)
    requires
        ranges.len() > 0,
        !spec_supports(ranges, preferred),
        forall|k: int|
            0 <= k < spec_common_rates().len() ==> !spec_supports(
                ranges,
                #[trigger] spec_common_rates()[k],
            ),
    ensures
        spec_select_sample_rate(preferred, ranges) == spec_highest(ranges),
{
    lemma_no_common_from(ranges, 0);
}

/// Where none of the common rates is advertised, none is found.
pub proof fn lemma_no_common_from(ranges: Seq<RateRange>, from: int)
    requires
        forall|k: int|
            0 <= k < spec_common_rates().len() ==> !spec_supports(
                ranges,
                #[trigger] spec_common_rates()[k],
            ),
    ensures
        spec_first_common(ranges, from) is None,
    decreases spec_common_rates().len() - from,
{
    if 0 <= from < spec_common_rates().len() {
        lemma_no_common_from(ranges, from + 1);
    }
}

/// The chosen rate is one that the device advertises, whenever it advertises
/// anything and its ranges are well formed.
pub proof fn lemma_selected_rate_is_supported(preferred: u32, ranges: Seq<RateRange>)
    requires
        ranges.len() > 0,
        spec_well_formed(ranges),
    ensures
        spec_supports(ranges, spec_select_sample_rate(preferred, ranges)),
{
    lemma_first_common_is_supported(ranges, 0);
    if !spec_supports(ranges, preferred) && spec_first_common(ranges, 0) is None {
        lemma_highest_is_an_upper_end(ranges);
        let w = choose|i: int| 0 <= i < ranges.len() && (#[trigger] ranges[i]).maximum == spec_highest(ranges);
        assert(ranges[w].spec_contains(spec_highest(ranges)));
    }
}

} // verus!
