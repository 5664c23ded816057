//! What the IO procedure of a stream does with one callback of the render
//! thread: which buffers it processes and whether it delivers anything.

use crate::aggregate::CallbackRates;
use crate::audio_buffer::{AudioBufferList, InputAndOutputAudioBufferList};
use crate::error::{CoreAudioError, NO_ERROR};
use crate::resampler::ResamplerSettings;
use vstd::prelude::*;

verus! {

/// What one callback comes to.
#[derive(Debug)]
pub struct CallbackOutcome<T> {
    /// The status to return to the render thread.
    pub status: i32,
    /// The mono samples to hand to the consumer, if there are any.
    pub delivery: Option<Vec<T>>,
}

/// What a mix hands to the consumer: its samples where it succeeded, and
/// nothing where it failed.
pub open spec fn spec_delivery<T>(mixed: Result<Vec<T>, CoreAudioError>) -> Option<Vec<T>> {
    match mixed {
        Ok(samples) => Some(samples),
        Err(_) => None,
    }
}

/// Whether the callback at `sample_time` with the buffers `list` gets as far
/// as the mixer: it is not pre-roll, and the list holds two buffers.
pub open spec fn spec_is_processed_callback<T>(sample_time: i64, list: AudioBufferList<T>) -> bool {
    sample_time >= 0 && list.number_buffers == 2
}

/// Handles one callback. `sample_time` is the time stamp of the input in
/// whole samples, rounded down. The render thread is always told of
/// success. A callback before the start of the stream, with a negative time
/// stamp, is passed over: nothing is processed and nothing delivered. So is
/// one that does not bring two buffers. Otherwise the two buffers are mixed,
/// and the mix is delivered unless a buffer was empty or the resampler
/// failed.
pub fn on_audio_buffers<
    'a,
    T: Copy,
    M: Fn(&[T]) -> T,
    R: Fn(Vec<T>, ResamplerSettings) -> Option<Vec<T>>,
    B: Fn(T, T) -> T,
>(
    sample_time: i64,
    list: AudioBufferList<'a, T>,
    rates: CallbackRates,
    mean: &M,
    resampler: &R,
    silence: T,
    blend: &B,
) -> (outcome: CallbackOutcome<T>)
    requires
        spec_is_processed_callback(sample_time, list) ==> InputAndOutputAudioBufferList(
            list,
        ).spec_mix_callable(
            rates.target_sample_rate,
            rates.input_sample_rate,
            rates.output_sample_rate,
            *mean,
            *resampler,
            *blend,
        ),
    ensures
        outcome.status == NO_ERROR,
        !spec_is_processed_callback(sample_time, list) ==> outcome.delivery is None,
        spec_is_processed_callback(sample_time, list) ==> exists|
            mixed: Result<Vec<T>, CoreAudioError>,
        |
            {
                &&& InputAndOutputAudioBufferList(list).spec_is_mixed(
                    rates.target_sample_rate,
                    rates.input_sample_rate,
                    rates.output_sample_rate,
                    *mean,
                    *resampler,
                    silence,
                    *blend,
                    mixed,
                )
                &&& outcome.delivery == #[trigger] spec_delivery(mixed)
            },
{
    if sample_time < 0 {
        return CallbackOutcome { status: NO_ERROR, delivery: None };
    }
    let pair = match InputAndOutputAudioBufferList::from_raw(list) {
        Ok(pair) => pair,
        Err(_) => {
            return CallbackOutcome { status: NO_ERROR, delivery: None };
        },
    };
    let mixed = pair.mix_input_and_output(
        rates.target_sample_rate,
        rates.input_sample_rate,
        rates.output_sample_rate,
        mean,
        resampler,
        silence,
        blend,
    );
    let delivery = match mixed {
        Ok(samples) => Some(samples),
        Err(_) => None,
    };
    assert(delivery == spec_delivery(mixed));
    CallbackOutcome { status: NO_ERROR, delivery }
}

} // verus!
