//! The start of a stream on a configured aggregate device. As in the
//! construction of the device, the native work is the caller's: a `Launch`
//! says which call comes next, takes what the call returned, and ends in a
//! running stream or in the failure of the step that failed.

use crate::aggregate::{AggregateDevice, CallbackRates, Reply, Request};
use crate::error::CoreAudioError;
use crate::rate::AudioStats;
use crate::stream::{AudioTapStream, IoProcId};
use vstd::prelude::*;

verus! {

/// The step of a start that is pending, or how it ended.
#[derive(Clone, Copy, Debug, PartialEq, Eq, Structural)]
pub enum LaunchStage {
    AggregateRate,
    InputRate,
    InstallProc,
    StartDevice,
    Running,
    Failed(CoreAudioError),
}

/// The start of a stream on an aggregate device, step by step.
#[derive(Debug)]
pub struct Launch {
    /// The device that is started.
    pub device: AggregateDevice,
    /// The pending step.
    pub stage: LaunchStage,
    /// The rate of the aggregate device, once read.
    pub output_sample_rate: u32,
    /// The rate of the input device, once read.
    pub input_sample_rate: u32,
    /// The IO procedure on the aggregate device, once installed.
    pub in_proc_id: IoProcId,
}

/// The failure that a nonzero `status` stands for at the step `stage`.
pub open spec fn spec_launch_error(stage: LaunchStage, status: i32) -> CoreAudioError {
    match stage {
        LaunchStage::InstallProc => CoreAudioError::IOProcCreationFailed(status),
        LaunchStage::StartDevice => CoreAudioError::DeviceStartFailed(status),
        LaunchStage::Failed(e) => e,
        _ => CoreAudioError::PropertyAccessFailed(status),
    }
}

/// Maps a nonzero `status` at the step `stage` to the failure it stands for.
pub fn launch_error(stage: LaunchStage, status: i32) -> (e: CoreAudioError)
    ensures
        e == spec_launch_error(stage, status),
{
    match stage {
        LaunchStage::InstallProc => CoreAudioError::IOProcCreationFailed(status),
        LaunchStage::StartDevice => CoreAudioError::DeviceStartFailed(status),
        LaunchStage::Failed(e) => e,
        _ => CoreAudioError::PropertyAccessFailed(status),
    }
}

impl LaunchStage {
    /// Whether the start has ended.
    pub open spec fn spec_is_final(self) -> bool {
        self is Running || self is Failed
    }
}

impl Launch {
    /// The start of `device` before its first step.
    pub open spec fn spec_begin(device: AggregateDevice) -> Launch {
        Launch {
            device,
            stage: LaunchStage::AggregateRate,
            output_sample_rate: 0,
            input_sample_rate: 0,
            in_proc_id: IoProcId(0),
        }
    }

    /// The rates that the IO procedure works with: the buffers come at the
    /// rates of the input device and of the aggregate device, and the
    /// samples go out at the higher of the two.
    pub open spec fn spec_rates(self) -> CallbackRates {
        CallbackRates {
            target_sample_rate: if self.input_sample_rate >= self.output_sample_rate {
                self.input_sample_rate
            } else {
                self.output_sample_rate
            },
            input_sample_rate: self.input_sample_rate,
            output_sample_rate: self.output_sample_rate,
        }
    }

    /// The native call that comes next.
    pub open spec fn spec_request(self) -> Request {
        match self.stage {
            LaunchStage::AggregateRate => Request::NominalSampleRate(self.device.id),
            LaunchStage::InputRate => Request::NominalSampleRate(self.device.input_device_id),
            LaunchStage::InstallProc => Request::InstallIoProc {
                device_id: self.device.id,
                rates: self.spec_rates(),
            },
            LaunchStage::StartDevice => Request::StartDevice {
                device_id: self.device.id,
                proc_id: self.in_proc_id,
            },
            LaunchStage::Running | LaunchStage::Failed(_) => Request::Nothing,
        }
    }

    /// The start after the pending call returned `reply`. A start that has
    /// ended stays as it is. A nonzero status ends it with the failure of
    /// the pending step. A reply of the kind that the pending call is
    /// answered by is taken down and the next step becomes pending; one of
    /// another kind is passed over.
    pub open spec fn spec_advance(self, reply: Reply) -> Launch {
        if self.stage.spec_is_final() {
            self
        } else if reply.spec_status() != 0 {
            Launch {
                stage: LaunchStage::Failed(spec_launch_error(self.stage, reply.spec_status())),
                ..self
            }
        } else {
            match (self.stage, reply) {
                (LaunchStage::AggregateRate, Reply::Rate(_, rate)) => Launch {
                    stage: LaunchStage::InputRate,
                    output_sample_rate: rate,
                    ..self
                },
                (LaunchStage::InputRate, Reply::Rate(_, rate)) => Launch {
                    stage: LaunchStage::InstallProc,
                    input_sample_rate: rate,
                    ..self
                },
                (LaunchStage::InstallProc, Reply::Proc(_, proc_id)) => Launch {
                    stage: LaunchStage::StartDevice,
                    in_proc_id: proc_id,
                    ..self
                },
                (LaunchStage::StartDevice, Reply::Status(_)) => Launch {
                    stage: LaunchStage::Running,
                    ..self
                },
                _ => self,
            }
        }
    }

    /// The stream of a start that reached its end: it takes over the tap,
    /// the aggregate device and the auxiliary devices of the device, was not
    /// stopped, and delivers one channel at the target rate.
    pub open spec fn spec_stream(self) -> AudioTapStream {
        AudioTapStream {
            device_id: self.device.id,
            tap_id: self.device.tap_id,
            in_proc_id: self.in_proc_id,
            stop_called: false,
            audio_stats: AudioStats {
                sample_rate: self.spec_rates().target_sample_rate,
                channels: 1,
            },
            input_device_id: self.device.input_device_id,
            output_device_id: self.device.output_device_id,
            input_proc_id: self.device.input_proc_id,
            output_proc_id: self.device.output_proc_id,
        }
    }

    /// How the start ended, if it has: with the stream, or with the failure
    /// of the step that failed.
    pub open spec fn spec_outcome(self) -> Option<Result<AudioTapStream, CoreAudioError>> {
        match self.stage {
            LaunchStage::Running => Some(Ok(self.spec_stream())),
            LaunchStage::Failed(e) => Some(Err(e)),
            _ => None,
        }
    }

    /// The start after the pending calls returned `replies`, one after the
    /// other.
    pub open spec fn spec_run(self, replies: Seq<Reply>) -> Launch
        decreases replies.len(),
    {
        if replies.len() == 0 {
            self
        } else {
            self.spec_run(replies.drop_last()).spec_advance(replies.last())
        }
    }

    /// The rates that the IO procedure works with.
    pub fn rates(&self) -> (rates: CallbackRates)
        ensures
            rates == self.spec_rates(),
    {
        CallbackRates {
            target_sample_rate: if self.input_sample_rate >= self.output_sample_rate {
                self.input_sample_rate
            } else {
                self.output_sample_rate
            },
            input_sample_rate: self.input_sample_rate,
            output_sample_rate: self.output_sample_rate,
        }
    }

    /// The native call to make next.
    pub fn request(&self) -> (request: Request)
        ensures
            request == self.spec_request(),
    {
        match self.stage {
            LaunchStage::AggregateRate => Request::NominalSampleRate(self.device.id),
            LaunchStage::InputRate => Request::NominalSampleRate(self.device.input_device_id),
            LaunchStage::InstallProc => Request::InstallIoProc {
                device_id: self.device.id,
                rates: self.rates(),
            },
            LaunchStage::StartDevice => Request::StartDevice {
                device_id: self.device.id,
                proc_id: self.in_proc_id,
            },
            LaunchStage::Running | LaunchStage::Failed(_) => Request::Nothing,
        }
    }

    /// Takes what the pending call returned and moves on.
    pub fn advance(self, reply: &Reply) -> (next: Launch)
        ensures
            next == self.spec_advance(*reply),
    {
        let mut next = self;
        let status = reply.status();
        match next.stage {
            LaunchStage::Running | LaunchStage::Failed(_) => {
                return next;
            },
            _ => {},
        }
        if status != 0 {
            next.stage = LaunchStage::Failed(launch_error(next.stage, status));
            return next;
        }
        match (next.stage, reply) {
            (LaunchStage::AggregateRate, Reply::Rate(_, rate)) => {
                next.output_sample_rate = *rate;
                next.stage = LaunchStage::InputRate;
            },
            (LaunchStage::InputRate, Reply::Rate(_, rate)) => {
                next.input_sample_rate = *rate;
                next.stage = LaunchStage::InstallProc;
            },
            (LaunchStage::InstallProc, Reply::Proc(_, proc_id)) => {
                next.in_proc_id = *proc_id;
                next.stage = LaunchStage::StartDevice;
            },
            (LaunchStage::StartDevice, Reply::Status(_)) => {
                next.stage = LaunchStage::Running;
            },
            _ => {},
        }
        next
    }

    /// Ends the start: hands out the stream or the failure, and nothing
    /// where a step is still pending.
    pub fn finish(self) -> (r: Option<Result<AudioTapStream, CoreAudioError>>)
        ensures
            r == self.spec_outcome(),
            self.device.spec_well_formed() ==> (r matches Some(Ok(stream))
                ==> stream.spec_well_formed()),
    {
        match self.stage {
            LaunchStage::Running => {
                let rates = self.rates();
                Some(
                    Ok(
                        AudioTapStream {
                            device_id: self.device.id,
                            tap_id: self.device.tap_id,
                            in_proc_id: self.in_proc_id,
                            stop_called: false,
                            audio_stats: AudioStats {
                                sample_rate: rates.target_sample_rate,
                                channels: 1,
                            },
                            input_device_id: self.device.input_device_id,
                            output_device_id: self.device.output_device_id,
                            input_proc_id: self.device.input_proc_id,
                            output_proc_id: self.device.output_proc_id,
                        },
                    ),
                )
            },
            LaunchStage::Failed(e) => Some(Err(e)),
            _ => None,
        }
    }
}

impl AggregateDevice {
    /// Begins the start of a stream on the device. The device is given up:
    /// the stream answers for what it held.
    pub fn start(self) -> (launch: Launch)
        ensures
            launch == Launch::spec_begin(self),
    {
        Launch {
            device: self,
            stage: LaunchStage::AggregateRate,
            output_sample_rate: 0,
            input_sample_rate: 0,
            in_proc_id: IoProcId(0),
        }
    }
}

/// A start that has ended takes no further reply.
pub proof fn lemma_launch_end_is_final(launch: Launch, replies: Seq<Reply>)
    requires
        launch.stage.spec_is_final(),
    ensures
        launch.spec_run(replies) == launch,
    decreases replies.len(),
{
    if replies.len() > 0 {
        lemma_launch_end_is_final(launch, replies.drop_last());
    }
}

/// A start that failed leaves the device as it found it: from the failure
/// on it asks for no native call, so a device whose IO procedure could not
/// be installed is never started, and it hands out no stream.
pub proof fn lemma_failed_start_starts_nothing(launch: Launch, reply: Reply, later: Seq<Reply>)
    requires
        !launch.stage.spec_is_final(),
        reply.spec_status() != 0,
    ensures
        ({
            let end = launch.spec_advance(reply).spec_run(later);
            &&& end.spec_request() == Request::Nothing
            &&& end.spec_outcome() == Some(
                Err::<AudioTapStream, CoreAudioError>(
                    spec_launch_error(launch.stage, reply.spec_status()),
                ),
            )
        }),
{
    lemma_launch_end_is_final(launch.spec_advance(reply), later);
}

/// A stream that a start hands out was not stopped, delivers one channel,
/// and answers for the tap, the aggregate device and the auxiliary devices
/// of the device that was started.
pub proof fn lemma_stream_takes_over(device: AggregateDevice, replies: Seq<Reply>)
    ensures
        Launch::spec_begin(device).spec_run(replies).spec_outcome() matches Some(Ok(stream)) ==> {
            &&& !stream.stop_called
            &&& stream.audio_stats.channels == 1
            &&& stream.device_id == device.id
            &&& stream.tap_id == device.tap_id
            &&& stream.input_device_id == device.input_device_id
            &&& stream.output_device_id == device.output_device_id
            &&& stream.input_proc_id == device.input_proc_id
            &&& stream.output_proc_id == device.output_proc_id
        },
    decreases replies.len(),
{
    lemma_launch_keeps_device(device, replies);
}

/// A start never changes the device that it was begun with.
pub proof fn lemma_launch_keeps_device(device: AggregateDevice, replies: Seq<Reply>)
    ensures
        Launch::spec_begin(device).spec_run(replies).device == device,
    decreases replies.len(),
{
    if replies.len() > 0 {
        lemma_launch_keeps_device(device, replies.drop_last());
    }
}

} // verus!
