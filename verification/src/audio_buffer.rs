//! The buffers that a callback receives and how they become one mono run of
//! samples: mixdown of interleaved channels, conversion to the target rate,
//! and the blend of the input device's buffer with the tap's.
//!
//! The module is generic in the sample type. Arithmetic on samples is the
//! caller's: the mean of a frame, the blend of two samples and the resampler
//! are passed in, and each contract says to which arguments they are applied
//! and where their results go.

use crate::error::{BufferSide, CoreAudioError, BAD_STREAM_ERROR};
use crate::resampler::{
    convert, spec_accepts_runs, spec_calls_resampler, spec_is_converted, ResamplerSettings,
};
use vstd::prelude::*;

verus! {

/// The number of bytes that one sample takes in a native buffer.
pub const BYTES_PER_SAMPLE: u32 = 4;

/// Whether `value` is what `mean` may return for a frame that holds `frame`.
pub open spec fn spec_is_mean_of<T, M: Fn(&[T]) -> T>(mean: M, frame: Seq<T>, value: T) -> bool {
    exists|f: &[T]| f@ == frame && #[trigger] call_ensures(mean, (f,), value)
}

/// The `k`-th frame of `samples` when `channels` channels are interleaved.
pub open spec fn spec_frame<T>(samples: Seq<T>, channels: int, k: int) -> Seq<T> {
    samples.subrange(k * channels, k * channels + channels)
}

/// Whether `out` is a mixdown of `samples` to mono: `samples` itself for one
/// channel; otherwise one sample for each whole frame, in order, each the
/// mean of its frame. Samples behind the last whole frame are dropped.
pub open spec fn spec_is_mixdown<T, M: Fn(&[T]) -> T>(
    samples: Seq<T>,
    channels: int,
    mean: M,
    out: Seq<T>,
) -> bool {
    if channels == 1 {
        out == samples
    } else {
        &&& out.len() == samples.len() as int / channels
        &&& forall|k: int|
            0 <= k < out.len() ==> spec_is_mean_of(
                mean,
                spec_frame(samples, channels, k),
                #[trigger] out[k],
            )
    }
}

/// Whether `mean` may be called on every frame of `channels` samples.
pub open spec fn spec_accepts_frames<T, M: Fn(&[T]) -> T>(mean: M, channels: int) -> bool {
    forall|f: &[T]| f@.len() == channels ==> #[trigger] call_requires(mean, (f,))
}

proof fn lemma_frame_in_bounds(len: int, channels: int, k: int)
    requires
        channels >= 1,
        0 <= k < len / channels,
        len >= 0,
    ensures
        0 <= k * channels,
        k * channels + channels <= len,
{
    assert(k * channels >= 0) by (nonlinear_arith)
        requires
            k >= 0,
            channels >= 1,
    ;
    assert((k + 1) * channels <= (len / channels) * channels) by (nonlinear_arith)
        requires
            k + 1 <= len / channels,
            channels >= 1,
    ;
    assert((len / channels) * channels <= len) by (nonlinear_arith)
        requires
            len >= 0,
            channels >= 1,
    ;
    assert((k + 1) * channels == k * channels + channels) by (nonlinear_arith);
}

/// Mixes interleaved `samples` of `channel_count` channels down to mono.
pub fn mixdown<T: Copy, M: Fn(&[T]) -> T>(samples: &[T], channel_count: usize, mean: &M) -> (out:
    Vec<T>)
    requires
        channel_count >= 1,
        channel_count > 1 ==> spec_accepts_frames(*mean, channel_count as int),
    ensures
        spec_is_mixdown(samples@, channel_count as int, *mean, out@),
        out@.len() == samples@.len() as int / channel_count as int,
{
    if channel_count == 1 {
        return vstd::slice::slice_to_vec(samples);
    }
    let len: usize = samples.len();
    let frames: usize = len / channel_count;
    let mut out: Vec<T> = Vec::new();
    let mut k: usize = 0;
    while k < frames
        invariant
            channel_count > 1,
            len == samples@.len(),
            spec_accepts_frames(*mean, channel_count as int),
            frames == samples@.len() as int / channel_count as int,
            k <= frames,
            out@.len() == k,
            forall|j: int|
                0 <= j < k ==> spec_is_mean_of(
                    *mean,
                    spec_frame(samples@, channel_count as int, j),
                    #[trigger] out@[j],
                ),
        decreases frames - k,
    {
        proof {
            lemma_frame_in_bounds(samples@.len() as int, channel_count as int, k as int);
        }
        let start: usize = k * channel_count;
        let frame = vstd::slice::slice_subrange(samples, start, start + channel_count);
        let value = mean(frame);
        assert(spec_is_mean_of(*mean, spec_frame(samples@, channel_count as int, k as int), value))
            by {
            assert(frame@ == spec_frame(samples@, channel_count as int, k as int));
            assert(call_ensures(*mean, (frame,), value));
        }
        out.push(value);
        k += 1;
    }
    out
}

/// The samples that a native buffer of `data_byte_size` bytes holds: none
/// where the data are absent or the size is zero; otherwise the first
/// `data_byte_size / 4` samples of the data, or all of them where the data
/// hold fewer.
pub open spec fn spec_samples<T>(data: Option<&[T]>, data_byte_size: u32) -> Option<Seq<T>> {
    match data {
        None => None,
        Some(d) => if data_byte_size == 0 {
            None
        } else if d@.len() <= data_byte_size as int / 4 {
            Some(d@)
        } else {
            Some(d@.take(data_byte_size as int / 4))
        },
    }
}

/// The number of channels by which a buffer that reports `number_channels`
/// is mixed down: a buffer that reports none counts as mono.
pub open spec fn spec_channel_count(number_channels: u32) -> int {
    if number_channels > 1 {
        number_channels as int
    } else {
        1
    }
}

/// Whether `out` is what the processing of one buffer may give: nothing for
/// a buffer without samples; otherwise the conversion, from
/// `current_sample_rate` to `target_sample_rate`, of a mixdown of its
/// samples.
pub open spec fn spec_is_processed<
    T,
    M: Fn(&[T]) -> T,
    R: Fn(Vec<T>, ResamplerSettings) -> Option<Vec<T>>,
>(
    data: Option<&[T]>,
    data_byte_size: u32,
    number_channels: u32,
    current_sample_rate: u32,
    target_sample_rate: u32,
    mean: M,
    resampler: R,
    out: Option<Vec<T>>,
) -> bool {
    match spec_samples(data, data_byte_size) {
        None => out is None,
        Some(samples) => exists|mono: Vec<T>|
            {
                &&& spec_is_mixdown(samples, spec_channel_count(number_channels), mean, mono@)
                &&& #[trigger] spec_is_converted(
                    mono,
                    current_sample_rate,
                    target_sample_rate,
                    resampler,
                    out,
                )
            },
    }
}

/// Turns one native buffer into mono samples at `target_sample_rate`. The
/// result is `None` where the buffer has no samples or the resampler failed.
pub fn process_audio_frame<
    T: Copy,
    M: Fn(&[T]) -> T,
    R: Fn(Vec<T>, ResamplerSettings) -> Option<Vec<T>>,
>(
    data: Option<&[T]>,
    data_byte_size: u32,
    number_channels: u32,
    current_sample_rate: u32,
    target_sample_rate: u32,
    mean: &M,
    resampler: &R,
) -> (out: Option<Vec<T>>)
    requires
        number_channels > 1 ==> spec_accepts_frames(*mean, number_channels as int),
        spec_calls_resampler(current_sample_rate, target_sample_rate) ==> spec_accepts_runs(
            *resampler,
            current_sample_rate,
            target_sample_rate,
        ),
    ensures
        spec_is_processed(
            data,
            data_byte_size,
            number_channels,
            current_sample_rate,
            target_sample_rate,
            *mean,
            *resampler,
            out,
        ),
        spec_samples(data, data_byte_size) is None ==> out is None,
        current_sample_rate == target_sample_rate && spec_samples(data, data_byte_size) is Some
            ==> out is Some,
{
    let all: &[T] = match data {
        None => {
            return None;
        },
        Some(d) => d,
    };
    if data_byte_size == 0 {
        return None;
    }
    let total_samples: usize = (data_byte_size / BYTES_PER_SAMPLE) as usize;
    let samples: &[T] = if all.len() <= total_samples {
        all
    } else {
        vstd::slice::slice_subrange(all, 0, total_samples)
    };
    let channel_count: usize = if number_channels > 1 {
        number_channels as usize
    } else {
        1
    };
    let mono = mixdown(samples, channel_count, mean);
    let out = convert(mono, current_sample_rate, target_sample_rate, resampler);
    assert(spec_is_converted(mono, current_sample_rate, target_sample_rate, *resampler, out));
    out
}

/// The sample of `s` at index `i`, and `silence` behind its end.
pub open spec fn spec_sample_or<T>(s: Seq<T>, i: int, silence: T) -> T {
    if 0 <= i < s.len() {
        s[i]
    } else {
        silence
    }
}

/// Whether `out` is a blend of `a` and `b`: as long as the longer of the
/// two, each sample the blend of the two samples at its index, with
/// `silence` in place of what the shorter one lacks.
pub open spec fn spec_is_blend<T, B: Fn(T, T) -> T>(
    a: Seq<T>,
    b: Seq<T>,
    silence: T,
    blend: B,
    out: Seq<T>,
) -> bool {
    &&& out.len() == if a.len() >= b.len() {
        a.len()
    } else {
        b.len()
    }
    &&& forall|i: int|
        0 <= i < out.len() ==> call_ensures(
            blend,
            (spec_sample_or(a, i, silence), spec_sample_or(b, i, silence)),
            #[trigger] out[i],
        )
}

/// Whether `blend` may be called on every pair of samples.
pub open spec fn spec_accepts_pairs<T, B: Fn(T, T) -> T>(blend: B) -> bool {
    forall|x: T, y: T| #[trigger] call_requires(blend, (x, y))
}

/// Blends two runs of mono samples sample by sample, up to the end of the
/// longer one.
pub fn blend_buffers<T: Copy, B: Fn(T, T) -> T>(a: &[T], b: &[T], silence: T, blend: &B) -> (out:
    Vec<T>)
    requires
        spec_accepts_pairs(*blend),
    ensures
        spec_is_blend(a@, b@, silence, *blend, out@),
{
    let length: usize = if a.len() >= b.len() {
        a.len()
    } else {
        b.len()
    };
    let mut out: Vec<T> = Vec::new();
    let mut i: usize = 0;
    while i < length
        invariant
            spec_accepts_pairs(*blend),
            length == if a@.len() >= b@.len() {
                a@.len()
            } else {
                b@.len()
            },
            i <= length,
            out@.len() == i,
            forall|j: int|
                0 <= j < i ==> call_ensures(
                    *blend,
                    (spec_sample_or(a@, j, silence), spec_sample_or(b@, j, silence)),
                    #[trigger] out@[j],
                ),
        decreases length - i,
    {
        let x: T = if i < a.len() {
            a[i]
        } else {
            silence
        };
        let y: T = if i < b.len() {
            b[i]
        } else {
            silence
        };
        let value = blend(x, y);
        out.push(value);
        i += 1;
    }
    out
}

/// Whether `r` is what the two processed buffers come to: the failure of the
/// input side where the input buffer gave nothing, the failure of the output
/// side where only the output buffer gave nothing, and otherwise a blend of
/// the two.
pub open spec fn spec_is_reconciled<T, B: Fn(T, T) -> T>(
    input: Option<Vec<T>>,
    output: Option<Vec<T>>,
    silence: T,
    blend: B,
    r: Result<Vec<T>, CoreAudioError>,
) -> bool {
    match input {
        None => r == Err::<Vec<T>, CoreAudioError>(
            CoreAudioError::BufferProcessingFailed(BufferSide::Input),
        ),
        Some(a) => match output {
            None => r == Err::<Vec<T>, CoreAudioError>(
                CoreAudioError::BufferProcessingFailed(BufferSide::Output),
            ),
            Some(b) => (r matches Ok(mixed) && spec_is_blend(a@, b@, silence, blend, mixed@)),
        },
    }
}

/// Brings the two processed buffers of a callback together.
pub fn reconcile<T: Copy, B: Fn(T, T) -> T>(
    input: Option<Vec<T>>,
    output: Option<Vec<T>>,
    silence: T,
    blend: &B,
) -> (r: Result<Vec<T>, CoreAudioError>)
    requires
        spec_accepts_pairs(*blend),
    ensures
        spec_is_reconciled(input, output, silence, *blend, r),
{
    match input {
        None => Err(CoreAudioError::BufferProcessingFailed(BufferSide::Input)),
        Some(a) => match output {
            None => Err(CoreAudioError::BufferProcessingFailed(BufferSide::Output)),
            Some(b) => Ok(blend_buffers(a.as_slice(), b.as_slice(), silence, blend)),
        },
    }
}

/// One buffer of a callback.
#[derive(Debug)]
pub struct AudioBuffer<'a, T> {
    /// The number of channels that are interleaved in the buffer.
    pub number_channels: u32,
    /// The size of the data in bytes.
    pub data_byte_size: u32,
    /// The data as samples, absent where the native pointer is null.
    pub data: Option<&'a [T]>,
}

impl<'a, T> Copy for AudioBuffer<'a, T> {

}

impl<'a, T> Clone for AudioBuffer<'a, T> {
    fn clone(&self) -> (copy: Self)
        ensures
            copy == *self,
    {
        *self
    }
}

/// The buffers of a callback.
#[derive(Debug)]
pub struct AudioBufferList<'a, T> {
    /// The number of buffers that the list holds.
    pub number_buffers: u32,
    /// The buffers themselves; the first `number_buffers` count.
    pub buffers: [AudioBuffer<'a, T>; 2],
}

impl<'a, T> Copy for AudioBufferList<'a, T> {

}

impl<'a, T> Clone for AudioBufferList<'a, T> {
    fn clone(&self) -> (copy: Self)
        ensures
            copy == *self,
    {
        *self
    }
}

/// A list of two buffers: the input device's first, then the tap's.
pub struct InputAndOutputAudioBufferList<'a, T>(pub AudioBufferList<'a, T>);

impl<'a, T: Copy> InputAndOutputAudioBufferList<'a, T> {
    /// Takes a list of buffers for the pair of an input and an output
    /// buffer. A list that does not hold two buffers is refused with the
    /// status of a bad stream.
    pub fn from_raw(list: AudioBufferList<'a, T>) -> (r: Result<Self, i32>)
        ensures
            list.number_buffers != 2 ==> r == Err::<Self, i32>(BAD_STREAM_ERROR),
            list.number_buffers == 2 ==> (r matches Ok(pair) && pair.0 == list),
    {
        if list.number_buffers != 2 {
            return Err(BAD_STREAM_ERROR);
        }
        Ok(InputAndOutputAudioBufferList(list))
    }

    /// The buffer of the input device.
    pub open spec fn spec_input(self) -> AudioBuffer<'a, T> {
        self.0.buffers[0]
    }

    /// The buffer of the tap.
    pub open spec fn spec_output(self) -> AudioBuffer<'a, T> {
        self.0.buffers[1]
    }

    /// Whether `r` is what the mix of the pair may give: each buffer is
    /// processed against `target_sample_rate` from its own rate, the output
    /// buffer only where the input buffer gave samples, and the two results
    /// are reconciled.
    pub open spec fn spec_is_mixed<
        M: Fn(&[T]) -> T,
        R: Fn(Vec<T>, ResamplerSettings) -> Option<Vec<T>>,
        B: Fn(T, T) -> T,
    >(
        self,
        target_sample_rate: u32,
        input_sample_rate: u32,
        output_sample_rate: u32,
        mean: M,
        resampler: R,
        silence: T,
        blend: B,
        r: Result<Vec<T>, CoreAudioError>,
    ) -> bool {
        exists|input: Option<Vec<T>>, output: Option<Vec<T>>|
            {
                &&& spec_is_processed(
                    self.spec_input().data,
                    self.spec_input().data_byte_size,
                    self.spec_input().number_channels,
                    input_sample_rate,
                    target_sample_rate,
                    mean,
                    resampler,
                    input,
                )
                &&& input is Some ==> spec_is_processed(
                    self.spec_output().data,
                    self.spec_output().data_byte_size,
                    self.spec_output().number_channels,
                    output_sample_rate,
                    target_sample_rate,
                    mean,
                    resampler,
                    output,
                )
                &&& #[trigger] spec_is_reconciled(input, output, silence, blend, r)
            }
    }

    /// Whether the closures may be applied as the mix of the pair applies
    /// them.
    pub open spec fn spec_mix_callable<
        M: Fn(&[T]) -> T,
        R: Fn(Vec<T>, ResamplerSettings) -> Option<Vec<T>>,
        B: Fn(T, T) -> T,
    >(
        self,
        target_sample_rate: u32,
        input_sample_rate: u32,
        output_sample_rate: u32,
        mean: M,
        resampler: R,
        blend: B,
    ) -> bool {
        &&& self.spec_input().number_channels > 1 ==> spec_accepts_frames(
            mean,
            self.spec_input().number_channels as int,
        )
        &&& self.spec_output().number_channels > 1 ==> spec_accepts_frames(
            mean,
            self.spec_output().number_channels as int,
        )
        &&& spec_calls_resampler(input_sample_rate, target_sample_rate) ==> spec_accepts_runs(
            resampler,
            input_sample_rate,
            target_sample_rate,
        )
        &&& spec_calls_resampler(output_sample_rate, target_sample_rate) ==> spec_accepts_runs(
            resampler,
            output_sample_rate,
            target_sample_rate,
        )
        &&& spec_accepts_pairs(blend)
    }

    /// Processes both buffers against `target_sample_rate` and blends the
    /// results.
    pub fn mix_input_and_output<
        M: Fn(&[T]) -> T,
        R: Fn(Vec<T>, ResamplerSettings) -> Option<Vec<T>>,
        B: Fn(T, T) -> T,
    >(
        &self,
        target_sample_rate: u32,
        input_sample_rate: u32,
        output_sample_rate: u32,
        mean: &M,
        resampler: &R,
        silence: T,
        blend: &B,
    ) -> (r: Result<Vec<T>, CoreAudioError>)
        requires
            self.spec_mix_callable(
                target_sample_rate,
                input_sample_rate,
                output_sample_rate,
                *mean,
                *resampler,
                *blend,
            ),
        ensures
            self.spec_is_mixed(
                target_sample_rate,
                input_sample_rate,
                output_sample_rate,
                *mean,
                *resampler,
                silence,
                *blend,
                r,
            ),
    {
        let input_buffer = self.0.buffers[0];
        let output_buffer = self.0.buffers[1];
        let input = process_audio_frame(
            input_buffer.data,
            input_buffer.data_byte_size,
            input_buffer.number_channels,
            input_sample_rate,
            target_sample_rate,
            mean,
            resampler,
        );
        if input.is_none() {
            let r = reconcile(input, None, silence, blend);
            assert(spec_is_reconciled(input, None::<Vec<T>>, silence, *blend, r));
            return r;
        }
        let output = process_audio_frame(
            output_buffer.data,
            output_buffer.data_byte_size,
            output_buffer.number_channels,
            output_sample_rate,
            target_sample_rate,
            mean,
            resampler,
        );
        let r = reconcile(input, output, silence, blend);
        assert(spec_is_reconciled(input, output, silence, *blend, r));
        r
    }
}

} // verus!
