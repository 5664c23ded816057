//! The aggregate device and its construction. The native work is the
//! caller's: a `Setup` says which call comes next, takes what the call
//! returned, and ends in a configured `AggregateDevice` or in the failure of
//! the step that failed.

use crate::error::CoreAudioError;
use crate::rate::{select_sample_rate, spec_select_sample_rate, AudioStats, RateRange};
use crate::stream::IoProcId;
use vstd::prelude::*;

verus! {

/// What is captured.
#[derive(Debug)]
pub enum CaptureTarget {
    /// The audio of one process.
    SingleProcess(u32),
    /// The audio of every process but these.
    AllExceptProcesses(Vec<u32>),
}

/// An aggregate device made of a process tap and the default devices. It
/// answers for its tap and its native device until a stream takes them over.
#[derive(Debug, PartialEq, Eq, Structural)]
pub struct AggregateDevice {
    /// The process tap.
    pub tap_id: u32,
    /// The aggregate device itself.
    pub id: u32,
    /// The negotiated format.
    pub audio_stats: Option<AudioStats>,
    /// The default input device.
    pub input_device_id: u32,
    /// The default output device, where it was activated.
    pub output_device_id: Option<u32>,
    /// The idle IO procedure on the input device, where it was activated.
    pub input_proc_id: Option<IoProcId>,
    /// The idle IO procedure on the output device, where it was activated.
    pub output_proc_id: Option<IoProcId>,
}

impl AggregateDevice {
    /// What holds of every device that a construction hands out: a
    /// negotiated format has one channel, and an idle procedure on the
    /// output device comes with that device.
    pub open spec fn spec_well_formed(self) -> bool {
        &&& self.audio_stats matches Some(stats) ==> stats.channels == 1
        &&& self.output_proc_id is Some ==> self.output_device_id is Some
    }
}

/// A native call that a construction or a start asks for.
#[derive(Clone, Copy, Debug, PartialEq, Eq, Structural)]
pub enum Request {
    /// Create the process tap for the capture target. Answered by
    /// `Reply::Object` with the tap.
    CreateProcessTap,
    /// Read which device is the default input device. Answered by
    /// `Reply::Object`.
    DefaultInputDevice,
    /// Read which device is the default output device. Answered by
    /// `Reply::Object`.
    DefaultOutputDevice,
    /// Read the UID of a device. Answered by `Reply::Status`.
    DeviceUid(u32),
    /// Read the UID of a tap. Answered by `Reply::Status`.
    TapUid(u32),
    /// Create the aggregate device from the description of the tap, the
    /// input device and the output device. Answered by `Reply::Object`.
    CreateAggregateDevice { tap_id: u32, input_device_id: u32, output_device_id: u32 },
    /// Read the nominal sample rate of an object. Answered by `Reply::Rate`.
    NominalSampleRate(u32),
    /// Read the ranges of nominal sample rates that a device advertises.
    /// Answered by `Reply::Rates`.
    AvailableSampleRates(u32),
    /// Set the nominal sample rate of a device. Answered by `Reply::Status`.
    SetNominalSampleRate { device_id: u32, rate: u32 },
    /// Install an IO procedure that does nothing on a device. Answered by
    /// `Reply::Proc`.
    InstallIdleProc(u32),
    /// Install the IO procedure that processes the buffers, for these rates,
    /// on the aggregate device. Answered by `Reply::Proc`.
    InstallIoProc { device_id: u32, rates: CallbackRates },
    /// Start an IO procedure of a device. Answered by `Reply::Status`.
    StartDevice { device_id: u32, proc_id: IoProcId },
    /// Nothing is left to do.
    Nothing,
}

/// The rates that the IO procedure of a stream works with, in hertz.
#[derive(Clone, Copy, Debug, PartialEq, Eq, Structural)]
pub struct CallbackRates {
    /// The rate of the samples that are delivered.
    pub target_sample_rate: u32,
    /// The rate of the input device's buffer.
    pub input_sample_rate: u32,
    /// The rate of the tap's buffer.
    pub output_sample_rate: u32,
}

/// What a native call returned: its status, and what it gave.
#[derive(Debug)]
pub enum Reply {
    /// Nothing but the status.
    Status(i32),
    /// An audio object.
    Object(i32, u32),
    /// A sample rate in hertz.
    Rate(i32, u32),
    /// The ranges of sample rates of a device.
    Rates(i32, Vec<RateRange>),
    /// An IO procedure.
    Proc(i32, IoProcId),
}

impl Reply {
    /// The status of the call.
    pub open spec fn spec_status(self) -> i32 {
        match self {
            Reply::Status(s) => s,
            Reply::Object(s, _) => s,
            Reply::Rate(s, _) => s,
            Reply::Rates(s, _) => s,
            Reply::Proc(s, _) => s,
        }
    }

    /// The status of the call.
    pub fn status(&self) -> (s: i32)
        ensures
            s == self.spec_status(),
    {
        match self {
            Reply::Status(s) => *s,
            Reply::Object(s, _) => *s,
            Reply::Rate(s, _) => *s,
            Reply::Rates(s, _) => *s,
            Reply::Proc(s, _) => *s,
        }
    }
}

/// The step of a construction that is pending, or how it ended.
#[derive(Clone, Copy, Debug, PartialEq, Eq, Structural)]
pub enum SetupStage {
    CreateTap,
    InputDevice,
    InputUid,
    TapUid,
    OutputDevice,
    OutputUid,
    CreateAggregate,
    PreferredRate,
    AvailableRates,
    ApplyRate,
    VerifyRate,
    InstallInputProc,
    StartInput,
    InstallOutputProc,
    StartOutput,
    Configured,
    Failed(CoreAudioError),
}

/// How far a construction has come.
#[derive(Clone, Copy, Debug, PartialEq, Eq, Structural)]
pub enum Phase {
    /// Neither tap nor aggregate device exists for sure.
    Unconfigured,
    /// Tap and aggregate device were created.
    Created,
    /// The rate was negotiated and the auxiliary devices were activated.
    Configured,
    /// A step failed.
    Failed,
}

/// The construction of an aggregate device, step by step.
#[derive(Debug)]
pub struct Setup {
    /// What is captured.
    pub target: CaptureTarget,
    /// The pending step.
    pub stage: SetupStage,
    /// The process tap, once created.
    pub tap_id: u32,
    /// The default input device, once read.
    pub input_device_id: u32,
    /// The default output device, once read.
    pub output_device_id: u32,
    /// The aggregate device, once created.
    pub device_id: u32,
    /// The rate of the tap, once read.
    pub preferred_rate: u32,
    /// The rate that was asked for, once chosen.
    pub chosen_rate: u32,
    /// The rate that the device reported after it was set.
    pub verified_rate: u32,
    /// The idle IO procedure of the input device, once installed.
    pub input_proc_id: IoProcId,
    /// The idle IO procedure of the output device, once installed.
    pub output_proc_id: IoProcId,
}

/// The failure that a nonzero `status` stands for at the step `stage`.
pub open spec fn spec_setup_error(stage: SetupStage, status: i32) -> CoreAudioError {
    match stage {
        SetupStage::CreateTap => CoreAudioError::TapCreationFailed(status),
        SetupStage::CreateAggregate => CoreAudioError::AggregateCreationFailed(status),
        SetupStage::InstallInputProc | SetupStage::InstallOutputProc => {
            CoreAudioError::IOProcCreationFailed(status)
        },
        SetupStage::StartInput | SetupStage::StartOutput => CoreAudioError::DeviceStartFailed(
            status,
        ),
        SetupStage::Failed(e) => e,
        _ => CoreAudioError::PropertyAccessFailed(status),
    }
}

impl CaptureTarget {
    /// Whether the target is everything but a set of processes.
    pub open spec fn spec_is_global(self) -> bool {
        self is AllExceptProcesses
    }

    /// Tests whether the target is everything but a set of processes.
    pub fn is_global(&self) -> (b: bool)
        ensures
            b == self.spec_is_global(),
    {
        match self {
            CaptureTarget::SingleProcess(_) => false,
            CaptureTarget::AllExceptProcesses(_) => true,
        }
    }
}

impl SetupStage {
    /// Whether the construction has ended.
    pub open spec fn spec_is_final(self) -> bool {
        self is Configured || self is Failed
    }

    /// The phase that the step belongs to.
    pub open spec fn spec_phase(self) -> Phase {
        match self {
            SetupStage::CreateTap
            | SetupStage::InputDevice
            | SetupStage::InputUid
            | SetupStage::TapUid
            | SetupStage::OutputDevice
            | SetupStage::OutputUid
            | SetupStage::CreateAggregate => Phase::Unconfigured,
            SetupStage::Configured => Phase::Configured,
            SetupStage::Failed(_) => Phase::Failed,
            _ => Phase::Created,
        }
    }
}

impl Setup {
    /// The construction for `target` before its first step.
    pub open spec fn spec_begin(target: CaptureTarget) -> Setup {
        Setup {
            target,
            stage: SetupStage::CreateTap,
            tap_id: 0,
            input_device_id: 0,
            output_device_id: 0,
            device_id: 0,
            preferred_rate: 0,
            chosen_rate: 0,
            verified_rate: 0,
            input_proc_id: IoProcId(0),
            output_proc_id: IoProcId(0),
        }
    }

    /// The native call that comes next.
    pub open spec fn spec_request(self) -> Request {
        match self.stage {
            SetupStage::CreateTap => Request::CreateProcessTap,
            SetupStage::InputDevice => Request::DefaultInputDevice,
            SetupStage::InputUid => Request::DeviceUid(self.input_device_id),
            SetupStage::TapUid => Request::TapUid(self.tap_id),
            SetupStage::OutputDevice => Request::DefaultOutputDevice,
            SetupStage::OutputUid => Request::DeviceUid(self.output_device_id),
            SetupStage::CreateAggregate => Request::CreateAggregateDevice {
                tap_id: self.tap_id,
                input_device_id: self.input_device_id,
                output_device_id: self.output_device_id,
            },
            SetupStage::PreferredRate => Request::NominalSampleRate(self.tap_id),
            SetupStage::AvailableRates => Request::AvailableSampleRates(self.device_id),
            SetupStage::ApplyRate => Request::SetNominalSampleRate {
                device_id: self.device_id,
                rate: self.chosen_rate,
            },
            SetupStage::VerifyRate => Request::NominalSampleRate(self.device_id),
            SetupStage::InstallInputProc => Request::InstallIdleProc(self.input_device_id),
            SetupStage::StartInput => Request::StartDevice {
                device_id: self.input_device_id,
                proc_id: self.input_proc_id,
            },
            SetupStage::InstallOutputProc => Request::InstallIdleProc(self.output_device_id),
            SetupStage::StartOutput => Request::StartDevice {
                device_id: self.output_device_id,
                proc_id: self.output_proc_id,
            },
            SetupStage::Configured | SetupStage::Failed(_) => Request::Nothing,
        }
    }

    /// The construction after the pending call returned `reply`. A
    /// construction that has ended stays as it is. A nonzero status ends it
    /// with the failure of the pending step. A reply of the kind that the
    /// pending call is answered by is taken down and the next step becomes
    /// pending; one of another kind is passed over. The auxiliary devices
    /// are activated for a global target only.
    pub open spec fn spec_advance(self, reply: Reply) -> Setup {
        if self.stage.spec_is_final() {
            self
        } else if reply.spec_status() != 0 {
            Setup {
                stage: SetupStage::Failed(spec_setup_error(self.stage, reply.spec_status())),
                ..self
            }
        } else {
            match (self.stage, reply) {
                (SetupStage::CreateTap, Reply::Object(_, id)) => Setup {
                    stage: SetupStage::InputDevice,
                    tap_id: id,
                    ..self
                },
                (SetupStage::InputDevice, Reply::Object(_, id)) => Setup {
                    stage: SetupStage::InputUid,
                    input_device_id: id,
                    ..self
                },
                (SetupStage::InputUid, Reply::Status(_)) => Setup {
                    stage: SetupStage::TapUid,
                    ..self
                },
                (SetupStage::TapUid, Reply::Status(_)) => Setup {
                    stage: SetupStage::OutputDevice,
                    ..self
                },
                (SetupStage::OutputDevice, Reply::Object(_, id)) => Setup {
                    stage: SetupStage::OutputUid,
                    output_device_id: id,
                    ..self
                },
                (SetupStage::OutputUid, Reply::Status(_)) => Setup {
                    stage: SetupStage::CreateAggregate,
                    ..self
                },
                (SetupStage::CreateAggregate, Reply::Object(_, id)) => Setup {
                    stage: SetupStage::PreferredRate,
                    device_id: id,
                    ..self
                },
                (SetupStage::PreferredRate, Reply::Rate(_, rate)) => Setup {
                    stage: SetupStage::AvailableRates,
                    preferred_rate: rate,
                    ..self
                },
                (SetupStage::AvailableRates, Reply::Rates(_, ranges)) => Setup {
                    stage: SetupStage::ApplyRate,
                    chosen_rate: spec_select_sample_rate(self.preferred_rate, ranges@),
                    ..self
                },
                (SetupStage::ApplyRate, Reply::Status(_)) => Setup {
                    stage: SetupStage::VerifyRate,
                    ..self
                },
                (SetupStage::VerifyRate, Reply::Rate(_, rate)) => Setup {
                    stage: if self.target.spec_is_global() {
                        SetupStage::InstallInputProc
                    } else {
                        SetupStage::Configured
                    },
                    verified_rate: rate,
                    ..self
                },
                (SetupStage::InstallInputProc, Reply::Proc(_, proc_id)) => Setup {
                    stage: SetupStage::StartInput,
                    input_proc_id: proc_id,
                    ..self
                },
                (SetupStage::StartInput, Reply::Status(_)) => Setup {
                    stage: SetupStage::InstallOutputProc,
                    ..self
                },
                (SetupStage::InstallOutputProc, Reply::Proc(_, proc_id)) => Setup {
                    stage: SetupStage::StartOutput,
                    output_proc_id: proc_id,
                    ..self
                },
                (SetupStage::StartOutput, Reply::Status(_)) => Setup {
                    stage: SetupStage::Configured,
                    ..self
                },
                _ => self,
            }
        }
    }

    /// The device that a construction which reached its end has built: its
    /// format is the verified rate with one channel, and it names the
    /// auxiliary devices and their idle procedures for a global target only.
    pub open spec fn spec_device(self) -> AggregateDevice {
        AggregateDevice {
            tap_id: self.tap_id,
            id: self.device_id,
            audio_stats: Some(AudioStats { sample_rate: self.verified_rate, channels: 1 }),
            input_device_id: self.input_device_id,
            output_device_id: if self.target.spec_is_global() {
                Some(self.output_device_id)
            } else {
                None
            },
            input_proc_id: if self.target.spec_is_global() {
                Some(self.input_proc_id)
            } else {
                None
            },
            output_proc_id: if self.target.spec_is_global() {
                Some(self.output_proc_id)
            } else {
                None
            },
        }
    }

    /// How the construction ended, if it has: with the device, or with the
    /// failure of the step that failed.
    pub open spec fn spec_outcome(self) -> Option<Result<AggregateDevice, CoreAudioError>> {
        match self.stage {
            SetupStage::Configured => Some(Ok(self.spec_device())),
            SetupStage::Failed(e) => Some(Err(e)),
            _ => None,
        }
    }

    /// The construction after the pending calls returned `replies`, one
    /// after the other.
    pub open spec fn spec_run(self, replies: Seq<Reply>) -> Setup
        decreases replies.len(),
    {
        if replies.len() == 0 {
            self
        } else {
            self.spec_run(replies.drop_last()).spec_advance(replies.last())
        }
    }

    /// Starts the construction for `target`.
    pub fn begin(target: CaptureTarget) -> (setup: Setup)
        ensures
            setup == Setup::spec_begin(target),
    {
        Setup {
            target,
            stage: SetupStage::CreateTap,
            tap_id: 0,
            input_device_id: 0,
            output_device_id: 0,
            device_id: 0,
            preferred_rate: 0,
            chosen_rate: 0,
            verified_rate: 0,
            input_proc_id: IoProcId(0),
            output_proc_id: IoProcId(0),
        }
    }

    /// The native call to make next.
    pub fn request(&self) -> (request: Request)
        ensures
            request == self.spec_request(),
    {
        match self.stage {
            SetupStage::CreateTap => Request::CreateProcessTap,
            SetupStage::InputDevice => Request::DefaultInputDevice,
            SetupStage::InputUid => Request::DeviceUid(self.input_device_id),
            SetupStage::TapUid => Request::TapUid(self.tap_id),
            SetupStage::OutputDevice => Request::DefaultOutputDevice,
            SetupStage::OutputUid => Request::DeviceUid(self.output_device_id),
            SetupStage::CreateAggregate => Request::CreateAggregateDevice {
                tap_id: self.tap_id,
                input_device_id: self.input_device_id,
                output_device_id: self.output_device_id,
            },
            SetupStage::PreferredRate => Request::NominalSampleRate(self.tap_id),
            SetupStage::AvailableRates => Request::AvailableSampleRates(self.device_id),
            SetupStage::ApplyRate => Request::SetNominalSampleRate {
                device_id: self.device_id,
                rate: self.chosen_rate,
            },
            SetupStage::VerifyRate => Request::NominalSampleRate(self.device_id),
            SetupStage::InstallInputProc => Request::InstallIdleProc(self.input_device_id),
            SetupStage::StartInput => Request::StartDevice {
                device_id: self.input_device_id,
                proc_id: self.input_proc_id,
            },
            SetupStage::InstallOutputProc => Request::InstallIdleProc(self.output_device_id),
            SetupStage::StartOutput => Request::StartDevice {
                device_id: self.output_device_id,
                proc_id: self.output_proc_id,
            },
            SetupStage::Configured | SetupStage::Failed(_) => Request::Nothing,
        }
    }

    /// Takes what the pending call returned and moves on.
    pub fn advance(self, reply: &Reply) -> (next: Setup)
        ensures
            next == self.spec_advance(*reply),
    {
        let mut next = self;
        let status = reply.status();
        match next.stage {
            SetupStage::Configured | SetupStage::Failed(_) => {
                return next;
            },
            _ => {},
        }
        if status != 0 {
            next.stage = SetupStage::Failed(setup_error(next.stage, status));
            return next;
        }
        match (next.stage, reply) {
            (SetupStage::CreateTap, Reply::Object(_, id)) => {
                next.tap_id = *id;
                next.stage = SetupStage::InputDevice;
            },
            (SetupStage::InputDevice, Reply::Object(_, id)) => {
                next.input_device_id = *id;
                next.stage = SetupStage::InputUid;
            },
            (SetupStage::InputUid, Reply::Status(_)) => {
                next.stage = SetupStage::TapUid;
            },
            (SetupStage::TapUid, Reply::Status(_)) => {
                next.stage = SetupStage::OutputDevice;
            },
            (SetupStage::OutputDevice, Reply::Object(_, id)) => {
                next.output_device_id = *id;
                next.stage = SetupStage::OutputUid;
            },
            (SetupStage::OutputUid, Reply::Status(_)) => {
                next.stage = SetupStage::CreateAggregate;
            },
            (SetupStage::CreateAggregate, Reply::Object(_, id)) => {
                next.device_id = *id;
                next.stage = SetupStage::PreferredRate;
            },
            (SetupStage::PreferredRate, Reply::Rate(_, rate)) => {
                next.preferred_rate = *rate;
                next.stage = SetupStage::AvailableRates;
            },
            (SetupStage::AvailableRates, Reply::Rates(_, ranges)) => {
                next.chosen_rate = select_sample_rate(next.preferred_rate, ranges.as_slice());
                next.stage = SetupStage::ApplyRate;
            },
            (SetupStage::ApplyRate, Reply::Status(_)) => {
                next.stage = SetupStage::VerifyRate;
            },
            (SetupStage::VerifyRate, Reply::Rate(_, rate)) => {
                next.verified_rate = *rate;
                next.stage = if next.target.is_global() {
                    SetupStage::InstallInputProc
                } else {
                    SetupStage::Configured
                };
            },
            (SetupStage::InstallInputProc, Reply::Proc(_, proc_id)) => {
                next.input_proc_id = *proc_id;
                next.stage = SetupStage::StartInput;
            },
            (SetupStage::StartInput, Reply::Status(_)) => {
                next.stage = SetupStage::InstallOutputProc;
            },
            (SetupStage::InstallOutputProc, Reply::Proc(_, proc_id)) => {
                next.output_proc_id = *proc_id;
                next.stage = SetupStage::StartOutput;
            },
            (SetupStage::StartOutput, Reply::Status(_)) => {
                next.stage = SetupStage::Configured;
            },
            _ => {},
        }
        next
    }

    /// Ends the construction: hands out the device or the failure, and
    /// nothing where a step is still pending.
    pub fn finish(self) -> (r: Option<Result<AggregateDevice, CoreAudioError>>)
        ensures
            r == self.spec_outcome(),
            r matches Some(Ok(device)) ==> device.spec_well_formed(),
    {
        match self.stage {
            SetupStage::Configured => {
                let global = self.target.is_global();
                Some(
                    Ok(
                        AggregateDevice {
                            tap_id: self.tap_id,
                            id: self.device_id,
                            audio_stats: Some(
                                AudioStats { sample_rate: self.verified_rate, channels: 1 },
                            ),
                            input_device_id: self.input_device_id,
                            output_device_id: if global {
                                Some(self.output_device_id)
                            } else {
                                None
                            },
                            input_proc_id: if global {
                                Some(self.input_proc_id)
                            } else {
                                None
                            },
                            output_proc_id: if global {
                                Some(self.output_proc_id)
                            } else {
                                None
                            },
                        },
                    ),
                )
            },
            SetupStage::Failed(e) => Some(Err(e)),
            _ => None,
        }
    }
}

/// Maps a nonzero `status` at the step `stage` to the failure it stands for.
pub fn setup_error(stage: SetupStage, status: i32) -> (e: CoreAudioError)
    ensures
        e == spec_setup_error(stage, status),
{
    match stage {
        SetupStage::CreateTap => CoreAudioError::TapCreationFailed(status),
        SetupStage::CreateAggregate => CoreAudioError::AggregateCreationFailed(status),
        SetupStage::InstallInputProc | SetupStage::InstallOutputProc => {
            CoreAudioError::IOProcCreationFailed(status)
        },
        SetupStage::StartInput | SetupStage::StartOutput => CoreAudioError::DeviceStartFailed(
            status,
        ),
        SetupStage::Failed(e) => e,
        _ => CoreAudioError::PropertyAccessFailed(status),
    }
}

impl AggregateDevice {
    /// Starts the construction of the aggregate device that captures the
    /// process `object_id`.
    pub fn new(object_id: u32) -> (setup: Setup)
        ensures
            setup == Setup::spec_begin(CaptureTarget::SingleProcess(object_id)),
    {
        Setup::begin(CaptureTarget::SingleProcess(object_id))
    }

    /// Starts the construction of the aggregate device that captures
    /// everything but `processes`.
    pub fn create_global_tap_but_exclude_processes(processes: Vec<u32>) -> (setup: Setup)
        ensures
            setup == Setup::spec_begin(CaptureTarget::AllExceptProcesses(processes)),
    {
        Setup::begin(CaptureTarget::AllExceptProcesses(processes))
    }
}

/// A construction that has ended takes no further reply.
pub proof fn lemma_setup_end_is_final(setup: Setup, replies: Seq<Reply>)
    requires
        setup.stage.spec_is_final(),
    ensures
        setup.spec_run(replies) == setup,
    decreases replies.len(),
{
    if replies.len() > 0 {
        lemma_setup_end_is_final(setup, replies.drop_last());
    }
}

/// Where the creation of the tap fails, the construction ends with that
/// failure and its status, whatever comes later: no aggregate device is
/// asked for, and none is handed out.
pub proof fn lemma_tap_failure_creates_no_aggregate(
    target: CaptureTarget,
    reply: Reply,
    later: Seq<Reply>,
)
    requires
        reply.spec_status() != 0,
    ensures
        ({
            let failed = Setup::spec_begin(target).spec_advance(reply);
            let end = failed.spec_run(later);
            &&& end == failed
            &&& end.spec_request() == Request::Nothing
            &&& end.spec_outcome() == Some(
                Err::<AggregateDevice, CoreAudioError>(
                    CoreAudioError::TapCreationFailed(reply.spec_status()),
                ),
            )
        }),
{
    lemma_setup_end_is_final(Setup::spec_begin(target).spec_advance(reply), later);
}

/// A construction never goes back: a reply leaves its phase as it is, or
/// takes it from unconfigured to created, from created to configured, or
/// from either of these two to failed.
pub proof fn lemma_setup_never_goes_back(setup: Setup, reply: Reply)
    ensures
        ({
            let before = setup.stage.spec_phase();
            let after = setup.spec_advance(reply).stage.spec_phase();
            ||| after == before
            ||| before == Phase::Unconfigured && after == Phase::Created
            ||| before == Phase::Created && after == Phase::Configured
            ||| (before == Phase::Unconfigured || before == Phase::Created) && after
                == Phase::Failed
        }),
{
}

/// The aggregate device is asked for only after the tap was created:
/// whatever the replies, a pending request for it has at least six replies
/// behind it, and the first of them reported success.
pub proof fn lemma_aggregate_follows_tap(target: CaptureTarget, replies: Seq<Reply>)
    ensures
        ({
            let setup = Setup::spec_begin(target).spec_run(replies);
            setup.spec_request() is CreateAggregateDevice ==> replies.len() >= 6
                && replies[0].spec_status() == 0
        }),
{
    lemma_stage_needs_replies(target, replies);
}

/// The least number of replies after which `stage` can be pending or
/// reached.
pub open spec fn spec_steps_before(stage: SetupStage) -> int {
    match stage {
        SetupStage::CreateTap => 0,
        SetupStage::InputDevice => 1,
        SetupStage::InputUid => 2,
        SetupStage::TapUid => 3,
        SetupStage::OutputDevice => 4,
        SetupStage::OutputUid => 5,
        SetupStage::CreateAggregate => 6,
        SetupStage::PreferredRate => 7,
        SetupStage::AvailableRates => 8,
        SetupStage::ApplyRate => 9,
        SetupStage::VerifyRate => 10,
        SetupStage::InstallInputProc => 11,
        SetupStage::StartInput => 12,
        SetupStage::InstallOutputProc => 13,
        SetupStage::StartOutput => 14,
        SetupStage::Configured => 11,
        SetupStage::Failed(_) => 1,
    }
}

/// A construction has taken at least as many replies as its stage needs,
/// and unless it failed, its first reply reported success.
pub proof fn lemma_stage_needs_replies(target: CaptureTarget, replies: Seq<Reply>)
    ensures
        ({
            let setup = Setup::spec_begin(target).spec_run(replies);
            &&& replies.len() >= spec_steps_before(setup.stage)
            &&& replies.len() > 0 && !(setup.stage is Failed) ==> replies[0].spec_status()
                == 0
        }),
    decreases replies.len(),
{
    if replies.len() > 0 {
        lemma_stage_needs_replies(target, replies.drop_last());
        let before = Setup::spec_begin(target).spec_run(replies.drop_last());
        if replies.len() > 1 {
            assert(replies.drop_last()[0] == replies[0]);
        }
    }
}

} // verus!
