//! The adapter in front of the sinc resampler: how the resampler is set up
//! for one run of mono samples, and when it is called at all.

use vstd::prelude::*;

verus! {

/// How the resampler interpolates between the points of its sinc table.
#[derive(Clone, Copy, Debug, PartialEq, Eq, Structural)]
pub enum SincInterpolationType {
    Cubic,
    Quadratic,
    Linear,
    Nearest,
}

/// The window that the resampler lays over its sinc function.
#[derive(Clone, Copy, Debug, PartialEq, Eq, Structural)]
pub enum WindowFunction {
    Blackman,
    Blackman2,
    BlackmanHarris,
    BlackmanHarris2,
    Hann,
    Hann2,
}

/// The set-up of the resampler for one run of samples.
#[derive(Clone, Copy, Debug, PartialEq, Eq, Structural)]
pub struct ResamplerSettings {
    /// The rate of the samples that go in, in hertz.
    pub from_rate: u32,
    /// The rate of the samples that come out, in hertz.
    pub to_rate: u32,
    /// The length of the sinc filter.
    pub sinc_len: usize,
    /// The cutoff frequency of the filter, in hundredths of the Nyquist
    /// frequency.
    pub cutoff_percent: u32,
    /// The interpolation between the points of the sinc table.
    pub interpolation: SincInterpolationType,
    /// By how much the sinc table oversamples.
    pub oversampling_factor: usize,
    /// The window over the sinc function.
    pub window: WindowFunction,
    /// The greatest ratio by which the rate ratio may change afterwards.
    pub max_relative_ratio: u32,
    /// The number of frames of the one chunk that is processed.
    pub chunk_size: usize,
    /// The number of channels.
    pub channels: usize,
}

/// The set-up for the conversion of `frames` mono samples from `from_rate`
/// to `to_rate`: a sinc filter of length 256 with its cutoff at 0.95, linear
/// interpolation, an oversampling factor of 256, the squared
/// Blackman-Harris window and a greatest relative ratio of 2.
pub open spec fn spec_settings(from_rate: u32, to_rate: u32, frames: usize) -> ResamplerSettings {
    ResamplerSettings {
        from_rate,
        to_rate,
        sinc_len: 256,
        cutoff_percent: 95,
        interpolation: SincInterpolationType::Linear,
        oversampling_factor: 256,
        window: WindowFunction::BlackmanHarris2,
        max_relative_ratio: 2,
        chunk_size: frames,
        channels: 1,
    }
}

/// Whether a conversion from `from_rate` to `to_rate` calls the resampler:
/// the rates differ, and neither is zero.
pub open spec fn spec_calls_resampler(from_rate: u32, to_rate: u32) -> bool {
    from_rate != to_rate && from_rate != 0 && to_rate != 0
}

/// Whether `out` is what the conversion of `samples` from `from_rate` to
/// `to_rate` may give: `samples` themselves where the rates are equal;
/// nothing where one of two different rates is zero, for which no resampler
/// can be built; and otherwise what `resampler` may return for them with the
/// set-up of `spec_settings`.
pub open spec fn spec_is_converted<T, R: Fn(Vec<T>, ResamplerSettings) -> Option<Vec<T>>>(
    samples: Vec<T>,
    from_rate: u32,
    to_rate: u32,
    resampler: R,
    out: Option<Vec<T>>,
) -> bool {
    if from_rate == to_rate {
        out == Some(samples)
    } else if from_rate == 0 || to_rate == 0 {
        out is None
    } else {
        call_ensures(
            resampler,
            (samples, spec_settings(from_rate, to_rate, samples@.len() as usize)),
            out,
        )
    }
}

/// Whether `resampler` may be called on every run of samples with the
/// set-up for a conversion from `from_rate` to `to_rate`.
pub open spec fn spec_accepts_runs<T, R: Fn(Vec<T>, ResamplerSettings) -> Option<Vec<T>>>(
    resampler: R,
    from_rate: u32,
    to_rate: u32,
) -> bool {
    forall|v: Vec<T>| #[trigger]
        call_requires(resampler, (v, spec_settings(from_rate, to_rate, v@.len() as usize)))
}

/// Builds the set-up for the conversion of `frames` mono samples from
/// `from_rate` to `to_rate`.
pub fn settings(from_rate: u32, to_rate: u32, frames: usize) -> (s: ResamplerSettings)
    ensures
        s == spec_settings(from_rate, to_rate, frames),
{
    ResamplerSettings {
        from_rate,
        to_rate,
        sinc_len: 256,
        cutoff_percent: 95,
        interpolation: SincInterpolationType::Linear,
        oversampling_factor: 256,
        window: WindowFunction::BlackmanHarris2,
        max_relative_ratio: 2,
        chunk_size: frames,
        channels: 1,
    }
}

/// Converts mono `samples` from `from_rate` to `to_rate`. Equal rates hand
/// the samples back as they are, and the resampler is not called. Nor is
/// it called where one of the rates is zero: the result is then `None`.
/// Otherwise the result is the resampler's, `None` where it failed. A result
/// of `None` means that the buffer is to be dropped.
pub fn convert<T, R: Fn(Vec<T>, ResamplerSettings) -> Option<Vec<T>>>(
    samples: Vec<T>,
    from_rate: u32,
    to_rate: u32,
    resampler: &R,
) -> (out: Option<Vec<T>>)
    requires
        spec_calls_resampler(from_rate, to_rate) ==> call_requires(
            *resampler,
            (samples, spec_settings(from_rate, to_rate, samples@.len() as usize)),
        ),
    ensures
        spec_is_converted(samples, from_rate, to_rate, *resampler, out),
        from_rate == to_rate ==> out == Some(samples),
{
    if from_rate == to_rate {
        Some(samples)
    } else if from_rate == 0 || to_rate == 0 {
        None
    } else {
        let set_up = settings(from_rate, to_rate, samples.len());
        resampler(samples, set_up)
    }
}

} // verus!
