//! The running capture stream and its teardown. Stopping a stream yields the
//! native calls to make, in order; what they returned decides the result.

use crate::error::CoreAudioError;
use crate::rate::AudioStats;
use vstd::prelude::*;

verus! {

/// The identifier of an IO procedure that is installed on a device.
#[derive(Clone, Copy, Debug, PartialEq, Eq, Structural)]
pub struct IoProcId(pub usize);

/// A native call of a teardown.
#[derive(Clone, Copy, Debug, PartialEq, Eq, Structural)]
pub enum TeardownCall {
    /// Stop the IO procedure `proc_id` of the device `device_id`.
    StopDevice { device_id: u32, proc_id: IoProcId },
    /// Destroy the IO procedure `proc_id` of the device `device_id`.
    DestroyIoProc { device_id: u32, proc_id: IoProcId },
    /// Destroy the aggregate device `device_id`.
    DestroyAggregateDevice { device_id: u32 },
    /// Destroy the process tap `tap_id`.
    DestroyProcessTap { tap_id: u32 },
}

/// One step of a teardown: the call to make, and whether it is a primary
/// step, whose failure is reported, or the clean-up of an auxiliary device,
/// whose failure is passed over.
#[derive(Clone, Copy, Debug, PartialEq, Eq, Structural)]
pub struct TeardownStep {
    pub call: TeardownCall,
    pub primary: bool,
}

/// A capture stream that was started. It answers for the release of its
/// aggregate device, its tap and every IO procedure it names.
#[derive(Debug, PartialEq, Eq, Structural)]
pub struct AudioTapStream {
    /// The aggregate device.
    pub device_id: u32,
    /// The process tap.
    pub tap_id: u32,
    /// The IO procedure that runs on the aggregate device.
    pub in_proc_id: IoProcId,
    /// Whether `stop` was called.
    pub stop_called: bool,
    /// The format of the samples that the stream delivers.
    pub audio_stats: AudioStats,
    /// The input device.
    pub input_device_id: u32,
    /// The output device, where one was activated.
    pub output_device_id: Option<u32>,
    /// The idle IO procedure on the input device, where it was activated.
    pub input_proc_id: Option<IoProcId>,
    /// The idle IO procedure on the output device, where it was activated.
    pub output_proc_id: Option<IoProcId>,
}

/// The failure that a nonzero `status` of `call` stands for.
pub open spec fn spec_teardown_error(call: TeardownCall, status: i32) -> CoreAudioError {
    match call {
        TeardownCall::StopDevice { .. } => CoreAudioError::DeviceStopFailed(status),
        TeardownCall::DestroyIoProc { .. } => CoreAudioError::IOProcDestroyFailed(status),
        TeardownCall::DestroyAggregateDevice { .. } => CoreAudioError::AggregateDestroyFailed(
            status,
        ),
        TeardownCall::DestroyProcessTap { .. } => CoreAudioError::TapDestroyFailed(status),
    }
}

/// The two steps that release an auxiliary device whose idle procedure is
/// `proc_id`; none where the device or the procedure is absent.
pub open spec fn spec_auxiliary_steps(device_id: Option<u32>, proc_id: Option<IoProcId>) -> Seq<
    TeardownStep,
> {
    match (device_id, proc_id) {
        (Some(device_id), Some(proc_id)) => seq![
            TeardownStep { call: TeardownCall::StopDevice { device_id, proc_id }, primary: false },
            TeardownStep {
                call: TeardownCall::DestroyIoProc { device_id, proc_id },
                primary: false,
            },
        ],
        _ => Seq::empty(),
    }
}

/// The result of a teardown whose steps from `from` on returned `statuses`:
/// the failure of the first primary step with a nonzero status, and success
/// where there is none. A step without a status counts as not made.
pub open spec fn spec_teardown_result_from(
    plan: Seq<TeardownStep>,
    statuses: Seq<i32>,
    from: int,
) -> Result<(), CoreAudioError>
    decreases plan.len() - from,
{
    if from < 0 || from >= plan.len() || from >= statuses.len() {
        Ok(())
    } else if plan[from].primary && statuses[from] != 0 {
        Err(spec_teardown_error(plan[from].call, statuses[from]))
    } else {
        spec_teardown_result_from(plan, statuses, from + 1)
    }
}

/// The result of a teardown whose steps returned `statuses`.
pub open spec fn spec_teardown_result(plan: Seq<TeardownStep>, statuses: Seq<i32>) -> Result<
    (),
    CoreAudioError,
> {
    spec_teardown_result_from(plan, statuses, 0)
}

impl AudioTapStream {
    /// What holds of every stream that a start hands out: it delivers one
    /// channel, and an idle procedure on the output device comes with that
    /// device.
    pub open spec fn spec_well_formed(self) -> bool {
        &&& self.audio_stats.channels == 1
        &&& self.output_proc_id is Some ==> self.output_device_id is Some
    }

    /// The steps that release everything the stream holds, in order: stop
    /// the aggregate device; stop and destroy the idle procedure of the
    /// input device, then of the output device, where they were activated;
    /// destroy the IO procedure of the aggregate device; destroy the
    /// aggregate device; destroy the tap.
    pub open spec fn spec_teardown_plan(self) -> Seq<TeardownStep> {
        seq![
            TeardownStep {
                call: TeardownCall::StopDevice {
                    device_id: self.device_id,
                    proc_id: self.in_proc_id,
                },
                primary: true,
            },
        ] + spec_auxiliary_steps(Some(self.input_device_id), self.input_proc_id)
            + spec_auxiliary_steps(self.output_device_id, self.output_proc_id) + seq![
            TeardownStep {
                call: TeardownCall::DestroyIoProc {
                    device_id: self.device_id,
                    proc_id: self.in_proc_id,
                },
                primary: true,
            },
            TeardownStep {
                call: TeardownCall::DestroyAggregateDevice { device_id: self.device_id },
                primary: true,
            },
            TeardownStep {
                call: TeardownCall::DestroyProcessTap { tap_id: self.tap_id },
                primary: true,
            },
        ]
    }

    /// The native calls that a call of `stop` asks for: the whole teardown
    /// for a stream that was not stopped before, and none after that.
    pub open spec fn spec_stop(self) -> Seq<TeardownStep> {
        if self.stop_called {
            Seq::empty()
        } else {
            self.spec_teardown_plan()
        }
    }

    /// The stream after a call of `stop`.
    pub open spec fn spec_stopped(self) -> AudioTapStream {
        AudioTapStream { stop_called: true, ..self }
    }

    /// Stops the stream. Returns the native calls to make, each whatever the
    /// ones before it returned. The first call on a stream returns its whole
    /// teardown and marks it as stopped; every later call returns nothing to
    /// do and changes nothing.
    pub fn stop(&mut self) -> (plan: Vec<TeardownStep>)
        ensures
            plan@ == old(self).spec_stop(),
            *final(self) == old(self).spec_stopped(),
            old(self).spec_well_formed() ==> final(self).spec_well_formed(),
    {
        let mut plan: Vec<TeardownStep> = Vec::new();
        if self.stop_called {
            return plan;
        }
        self.stop_called = true;
        plan.push(
            TeardownStep {
                call: TeardownCall::StopDevice {
                    device_id: self.device_id,
                    proc_id: self.in_proc_id,
                },
                primary: true,
            },
        );
        if let Some(proc_id) = self.input_proc_id {
            let device_id = self.input_device_id;
            plan.push(
                TeardownStep {
                    call: TeardownCall::StopDevice { device_id, proc_id },
                    primary: false,
                },
            );
            plan.push(
                TeardownStep {
                    call: TeardownCall::DestroyIoProc { device_id, proc_id },
                    primary: false,
                },
            );
        }
        if let Some(device_id) = self.output_device_id {
            if let Some(proc_id) = self.output_proc_id {
                plan.push(
                    TeardownStep {
                        call: TeardownCall::StopDevice { device_id, proc_id },
                        primary: false,
                    },
                );
                plan.push(
                    TeardownStep {
                        call: TeardownCall::DestroyIoProc { device_id, proc_id },
                        primary: false,
                    },
                );
            }
        }
        plan.push(
            TeardownStep {
                call: TeardownCall::DestroyIoProc {
                    device_id: self.device_id,
                    proc_id: self.in_proc_id,
                },
                primary: true,
            },
        );
        plan.push(
            TeardownStep {
                call: TeardownCall::DestroyAggregateDevice { device_id: self.device_id },
                primary: true,
            },
        );
        plan.push(
            TeardownStep {
                call: TeardownCall::DestroyProcessTap { tap_id: self.tap_id },
                primary: true,
            },
        );
        assert(plan@ =~= old(self).spec_teardown_plan());
        plan
    }

    /// The sample rate of the samples that the stream delivers, in hertz.
    pub fn get_sample_rate(&self) -> (rate: u32)
        ensures
            rate == self.audio_stats.sample_rate,
    {
        self.audio_stats.sample_rate
    }

    /// The number of channels of the samples that the stream delivers.
    pub fn get_channels(&self) -> (channels: u32)
        ensures
            channels == self.audio_stats.channels,
    {
        self.audio_stats.channels
    }
}

/// Maps a nonzero `status` of `call` to the failure it stands for.
pub fn teardown_error(call: TeardownCall, status: i32) -> (e: CoreAudioError)
    ensures
        e == spec_teardown_error(call, status),
{
    match call {
        TeardownCall::StopDevice { .. } => CoreAudioError::DeviceStopFailed(status),
        TeardownCall::DestroyIoProc { .. } => CoreAudioError::IOProcDestroyFailed(status),
        TeardownCall::DestroyAggregateDevice { .. } => CoreAudioError::AggregateDestroyFailed(
            status,
        ),
        TeardownCall::DestroyProcessTap { .. } => CoreAudioError::TapDestroyFailed(status),
    }
}

/// Judges a teardown from what its steps returned: `statuses[i]` is the
/// status of `plan[i]`. The result is the failure of the first primary step
/// that failed, and success where none did.
pub fn teardown_result(plan: &[TeardownStep], statuses: &[i32]) -> (r: Result<(), CoreAudioError>)
    ensures
        r == spec_teardown_result(plan@, statuses@),
{
    let mut i: usize = 0;
    while i < plan.len() && i < statuses.len()
        invariant
            i <= plan@.len(),
            i <= statuses@.len(),
            spec_teardown_result_from(plan@, statuses@, i as int) == spec_teardown_result(
                plan@,
                statuses@,
            ),
        decreases plan@.len() - i,
    {
        if plan[i].primary && statuses[i] != 0 {
            return Err(teardown_error(plan[i].call, statuses[i]));
        }
        i += 1;
    }
    Ok(())
}

/// A stream is torn down once: the first `stop` asks for the whole teardown,
/// a second one asks for no native call, leaves the stream as it is and
/// succeeds whatever statuses it is handed.
pub proof fn lemma_stop_twice(stream: AudioTapStream, statuses: Seq<i32>)
    requires
        !stream.stop_called,
    ensures
        stream.spec_stop() == stream.spec_teardown_plan(),
        stream.spec_stopped().spec_stop() == Seq::<TeardownStep>::empty(),
        stream.spec_stopped().spec_stopped() == stream.spec_stopped(),
        spec_teardown_result(stream.spec_stopped().spec_stop(), statuses) == Ok::<
            (),
            CoreAudioError,
        >(()),
{
}

/// A teardown in which no primary step failed succeeds, whatever the steps
/// for the auxiliary devices returned.
pub proof fn lemma_auxiliary_failures_are_passed_over(
    plan: Seq<TeardownStep>,
    statuses: Seq<i32>,
    from: int,
)
    requires
        forall|i: int|
            0 <= i < plan.len() && i < statuses.len() && (#[trigger] plan[i]).primary
                ==> statuses[i] == 0,
    ensures
        spec_teardown_result_from(plan, statuses, from) == Ok::<(), CoreAudioError>(()),
    decreases plan.len() - from,
{
    if 0 <= from && from < plan.len() && from < statuses.len() {
        lemma_auxiliary_failures_are_passed_over(plan, statuses, from + 1);
    }
}

} // verus!
