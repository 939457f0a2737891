//! The lock-step double-buffer session: a hardware ring of two halves, each
//! with a completion signal.
//!
//! The hardware plays the ring round and round and raises a signal whenever
//! its play position reaches the start of a half. The feeder waits for a
//! signal, has one period produced and converted, and writes it into the half
//! that the hardware has just left. It never writes into the half that plays.

use crate::convert::{convert_buffer, native_samples};
use crate::error::FatalError;
use crate::params::{OutputDeviceParameters, ParameterError};
use vstd::prelude::*;
use vstd::string::StringExecFns;

verus! {

/// The size of a native sample, in bytes.
pub const BYTES_PER_SAMPLE: u32 = 2;

/// The tag of linear pulse-code modulation in a wave format.
pub const WAVE_FORMAT_PCM: u16 = 1;

/// The return code of a native call that succeeded.
pub const DS_OK: i32 = 0;

/// The format of the ring, as the native interface wants it described.
#[derive(Copy, Clone, Debug, PartialEq, Eq, Structural)]
pub struct WaveFormat {
    pub format_tag: u16,
    pub channels: u16,
    pub samples_per_sec: u32,
    pub avg_bytes_per_sec: u32,
    /// The size of one frame, in bytes.
    pub block_align: u16,
    pub bits_per_sample: u16,
}

/// What the native interface is asked for when the device is opened.
#[derive(Copy, Clone, Debug, PartialEq, Eq, Structural)]
pub struct RingPlan {
    pub format: WaveFormat,
    /// The size of one half of the ring, in bytes: one period.
    pub half_bytes: u32,
    /// The size of the ring, in bytes: two halves.
    pub ring_bytes: u32,
    /// The play position at which the first completion signal is raised.
    pub first_notify_offset: u32,
    /// The play position at which the second completion signal is raised.
    pub second_notify_offset: u32,
}

/// The plan for a parameter record, where it has one.
pub open spec fn ring_plan_of(params: OutputDeviceParameters) -> Result<RingPlan, ParameterError> {
    let block_align = BYTES_PER_SAMPLE * params.channels_count;
    let half_bytes = BYTES_PER_SAMPLE * params.samples_per_period();
    if let Some(e) = params.violation() {
        Err(e)
    } else if block_align > u16::MAX || params.sample_rate > u32::MAX || params.sample_rate
        * block_align > u32::MAX || 2 * half_bytes > u32::MAX {
        Err(ParameterError::BeyondNativeRange)
    } else {
        Ok(
            RingPlan {
                format: WaveFormat {
                    format_tag: WAVE_FORMAT_PCM,
                    channels: params.channels_count as u16,
                    samples_per_sec: params.sample_rate as u32,
                    avg_bytes_per_sec: (params.sample_rate * block_align) as u32,
                    block_align: block_align as u16,
                    bits_per_sample: (8 * BYTES_PER_SAMPLE) as u16,
                },
                half_bytes: half_bytes as u32,
                ring_bytes: (2 * half_bytes) as u32,
                first_notify_offset: 0,
                second_notify_offset: half_bytes as u32,
            },
        )
    }
}

/// Plans what to ask of the native interface for a parameter record.
pub fn ring_plan(params: OutputDeviceParameters) -> (plan: Result<RingPlan, ParameterError>)
    ensures
        plan == ring_plan_of(params),
{
    match params.validate() {
        Err(e) => Err(e),
        Ok(samples) => {
            proof {
                params.lemma_valid_bounds();
            }
            if params.channels_count > 32767 || params.sample_rate > u32::MAX as usize || samples
                > 0x3fff_ffff {
                return Err(ParameterError::BeyondNativeRange);
            }
            let block_align: u64 = 2 * (params.channels_count as u64);
            let rate: u64 = params.sample_rate as u64;
            assert(rate * block_align <= 0xffff_ffff * 0xffff) by (nonlinear_arith)
                requires
                    rate <= 0xffff_ffff,
                    block_align <= 0xffff,
            ;
            let avg: u64 = rate * block_align;
            if avg > u32::MAX as u64 {
                return Err(ParameterError::BeyondNativeRange);
            }
            let half_bytes: u32 = 2 * (samples as u32);
            Ok(
                RingPlan {
                    format: WaveFormat {
                        format_tag: WAVE_FORMAT_PCM,
                        channels: params.channels_count as u16,
                        samples_per_sec: params.sample_rate as u32,
                        avg_bytes_per_sec: avg as u32,
                        block_align: block_align as u16,
                        bits_per_sample: 16,
                    },
                    half_bytes,
                    ring_bytes: 2 * half_bytes,
                    first_notify_offset: 0,
                    second_notify_offset: half_bytes,
                },
            )
        },
    }
}

/// What a native return code says.
#[derive(Copy, Clone, Debug, PartialEq, Eq, Structural)]
pub enum ResultKind {
    NoError,
    BufferLost,
    InvalidCall,
    InvalidParam,
    PriorityLevelNeeded,
    Allocated,
    NoDriver,
    OutOfMemory,
    Uninitialized,
    Unsupported,
    ControlUnavailable,
    BadFormat,
    Unknown,
}

/// What a native return code says, the code taken as an unsigned number: the
/// codes that the calls of this session can return are told apart, every
/// other is unknown.
pub open spec fn result_kind_of(code: u32) -> ResultKind {
    if code == 0 {
        ResultKind::NoError
    } else if code == 0x8878_0096 {
        ResultKind::BufferLost
    } else if code == 0x8878_0032 {
        ResultKind::InvalidCall
    } else if code == 0x8007_0057 {
        ResultKind::InvalidParam
    } else if code == 0x8878_0046 {
        ResultKind::PriorityLevelNeeded
    } else if code == 0x8878_000A {
        ResultKind::Allocated
    } else if code == 0x8878_0078 {
        ResultKind::NoDriver
    } else if code == 0x0000_0007 {
        ResultKind::OutOfMemory
    } else if code == 0x8878_00AA {
        ResultKind::Uninitialized
    } else if code == 0x8000_4001 {
        ResultKind::Unsupported
    } else if code == 0x8878_001E {
        ResultKind::ControlUnavailable
    } else if code == 0x8878_0064 {
        ResultKind::BadFormat
    } else {
        ResultKind::Unknown
    }
}

/// Reads what a native return code says.
pub fn result_kind(code: u32) -> (kind: ResultKind)
    ensures
        kind == result_kind_of(code),
{
    match code {
        0 => ResultKind::NoError,
        0x8878_0096 => ResultKind::BufferLost,
        0x8878_0032 => ResultKind::InvalidCall,
        0x8007_0057 => ResultKind::InvalidParam,
        0x8878_0046 => ResultKind::PriorityLevelNeeded,
        0x8878_000A => ResultKind::Allocated,
        0x8878_0078 => ResultKind::NoDriver,
        0x0000_0007 => ResultKind::OutOfMemory,
        0x8878_00AA => ResultKind::Uninitialized,
        0x8000_4001 => ResultKind::Unsupported,
        0x8878_001E => ResultKind::ControlUnavailable,
        0x8878_0064 => ResultKind::BadFormat,
        _ => ResultKind::Unknown,
    }
}

/// What a kind of result says, in words.
pub open spec fn description_of(kind: ResultKind) -> Seq<char> {
    match kind {
        ResultKind::NoError => "No Error"@,
        ResultKind::BufferLost => "Buffer was lost."@,
        ResultKind::InvalidCall => "This function is not valid for the current state of this object."@,
        ResultKind::InvalidParam => "An invalid parameter was passed to the returning function."@,
        ResultKind::PriorityLevelNeeded => "A cooperative level of DSSCL_PRIORITY or higher is required."@,
        ResultKind::Allocated => "The request failed because resources, such as a priority level, were already in use by another caller."@,
        ResultKind::NoDriver => "No sound driver is available for use, or the given GUID is not a valid DirectSound device ID."@,
        ResultKind::OutOfMemory => "The DirectSound subsystem could not allocate sufficient memory to complete the caller's request."@,
        ResultKind::Uninitialized => "The IDirectSound8::Initialize method has not been called or has not been called successfully before other methods were called."@,
        ResultKind::Unsupported => "The function called is not supported at this time."@,
        ResultKind::ControlUnavailable => "The buffer control (volume, pan, and so on) requested by the caller is not available. Controls must be specified when the buffer is created, using the dwFlags member of DSBUFFERDESC."@,
        ResultKind::BadFormat => "The specified wave format is not supported."@,
        ResultKind::Unknown => "Unknown"@,
    }
}

/// Says in words what a kind of result means.
pub fn describe(kind: ResultKind) -> (text: &'static str)
    ensures
        text@ == description_of(kind),
{
    match kind {
        ResultKind::NoError => "No Error",
        ResultKind::BufferLost => "Buffer was lost.",
        ResultKind::InvalidCall => "This function is not valid for the current state of this object.",
        ResultKind::InvalidParam => "An invalid parameter was passed to the returning function.",
        ResultKind::PriorityLevelNeeded => "A cooperative level of DSSCL_PRIORITY or higher is required.",
        ResultKind::Allocated => "The request failed because resources, such as a priority level, were already in use by another caller.",
        ResultKind::NoDriver => "No sound driver is available for use, or the given GUID is not a valid DirectSound device ID.",
        ResultKind::OutOfMemory => "The DirectSound subsystem could not allocate sufficient memory to complete the caller's request.",
        ResultKind::Uninitialized => "The IDirectSound8::Initialize method has not been called or has not been called successfully before other methods were called.",
        ResultKind::Unsupported => "The function called is not supported at this time.",
        ResultKind::ControlUnavailable => "The buffer control (volume, pan, and so on) requested by the caller is not available. Controls must be specified when the buffer is created, using the dwFlags member of DSBUFFERDESC.",
        ResultKind::BadFormat => "The specified wave format is not supported.",
        ResultKind::Unknown => "Unknown",
    }
}

/// The message for a native call that failed: what was being done, and what
/// the return code says.
pub fn failure_message(message: &str, code: u32) -> (text: String)
    ensures
        text@ == message@ + ". Reason: "@ + description_of(result_kind_of(code)),
{
    let mut text = String::from_str(message);
    text.append(". Reason: ");
    text.append(describe(result_kind(code)));
    text
}

/// Reads a native return code: every code but `DS_OK` is an error, and is
/// handed back as it came.
pub fn check(code: i32) -> (r: Result<(), i32>)
    ensures
        r == if code == DS_OK {
            Ok::<(), i32>(())
        } else {
            Err::<(), i32>(code)
        },
{
    if code == DS_OK {
        Ok(())
    } else {
        Err(code)
    }
}

/// One half of the ring.
#[derive(Copy, Clone, Debug, PartialEq, Eq, Structural)]
pub enum Half {
    First,
    Second,
}

impl Half {
    /// The other half.
    pub open spec fn spec_other(self) -> Half {
        match self {
            Half::First => Half::Second,
            Half::Second => Half::First,
        }
    }

    /// Where the half starts in a ring whose halves are `half_bytes` long.
    pub open spec fn spec_offset(self, half_bytes: u32) -> int {
        match self {
            Half::First => 0,
            Half::Second => half_bytes as int,
        }
    }

    /// The other half.
    #[verifier::when_used_as_spec(spec_other)]
    pub fn other(self) -> (h: Half)
        ensures
            h == self.spec_other(),
    {
        match self {
            Half::First => Half::Second,
            Half::Second => Half::First,
        }
    }

    /// Where the half starts in a ring whose halves are `half_bytes` long.
    pub fn offset(self, half_bytes: u32) -> (o: u32)
        ensures
            o == self.spec_offset(half_bytes),
    {
        match self {
            Half::First => 0,
            Half::Second => half_bytes,
        }
    }
}

/// The half whose start the play position has reached when the wait returns
/// `signal`: the half that plays now.
pub open spec fn playing_half_of(signal: u32) -> Option<Half> {
    if signal == 0 {
        Some(Half::First)
    } else if signal == 1 {
        Some(Half::Second)
    } else {
        None
    }
}

/// Whether two regions of the ring, each given by its start and its length
/// in bytes, have no byte in common.
pub open spec fn regions_disjoint(a: int, a_len: int, b: int, b_len: int) -> bool {
    a + a_len <= b || b + b_len <= a
}

/// Where a lock-step feeder stands.
#[derive(Copy, Clone, Debug, PartialEq, Eq, Structural)]
pub enum LockStepPhase {
    /// Between two periods: the shutdown flag is read next.
    Idle,
    /// The feeder waits for a completion signal.
    Waiting,
    /// The producer is filling a buffer.
    Producing,
    /// The converted period is being written into the free half.
    Writing,
    /// The flag was seen lowered; the feeder has left its loop.
    Stopped,
    /// A fatal error ended the feeder.
    Failed { error: FatalError },
}

/// What the driver of a lock-step feeder does next.
#[derive(Copy, Clone, Debug, PartialEq, Eq, Structural)]
pub enum LockStepStep {
    /// Read the shutdown flag and report it with `begin_period`.
    CheckFlag,
    /// Wait until a completion signal is raised, then report which with
    /// `signalled`.
    Wait,
    /// Call the producer on a buffer of `len` samples, then report with
    /// `samples_ready`, or with `producer_failed`.
    Produce { len: usize },
    /// Write the native samples into the ring, `len_bytes` bytes from
    /// `offset_bytes` on, then report what the native calls returned with
    /// `write_returned`.
    Write { offset_bytes: u32, len_bytes: u32 },
    /// Leave the loop.
    Exit,
}

/// What a driver reports to a lock-step feeder.
pub enum LockStepReport {
    BeginPeriod { running: bool },
    Signalled { signal: u32 },
    SamplesReady { samples: Seq<u32> },
    ProducerFailed,
    WriteReturned { code: i32 },
}

/// The state of a lock-step feeder, as contracts see it.
pub struct LockStepModel {
    pub params: OutputDeviceParameters,
    /// The size of one half of the ring, in bytes.
    pub half_bytes: u32,
    pub phase: LockStepPhase,
    /// The half that the hardware last reported to have started playing.
    pub playing: Option<Half>,
    /// The half that was last written.
    pub last_written: Option<Half>,
    /// The converted samples of the period in flight.
    pub native: Seq<i16>,
}

impl LockStepModel {
    /// A feeder before its first period.
    pub open spec fn initial(params: OutputDeviceParameters) -> LockStepModel {
        LockStepModel {
            params,
            half_bytes: (BYTES_PER_SAMPLE * params.samples_per_period()) as u32,
            phase: LockStepPhase::Idle,
            playing: None,
            last_written: None,
            native: Seq::empty(),
        }
    }

    /// What holds of every feeder: a half of its ring holds one period, the
    /// ring can be addressed, a period is produced and written only once a
    /// half was reported to play, and what is written is one period.
    pub open spec fn well_formed(self) -> bool {
        &&& self.params.is_valid()
        &&& self.half_bytes == BYTES_PER_SAMPLE * self.params.samples_per_period()
        &&& 2 * self.half_bytes <= u32::MAX
        &&& (self.phase is Producing || self.phase is Writing ==> self.playing is Some)
        &&& (self.phase is Writing ==> self.native.len() == self.params.samples_per_period())
    }

    /// Whether the feeder has left its loop for good.
    pub open spec fn halted(self) -> bool {
        self.phase is Stopped || self.phase is Failed
    }

    /// The fatal error that ended the feeder, if one did.
    pub open spec fn fault(self) -> Option<FatalError> {
        match self.phase {
            LockStepPhase::Failed { error } => Some(error),
            _ => None,
        }
    }

    /// The half that is free to be written: the one that does not play.
    pub open spec fn free_half(self) -> Option<Half> {
        match self.playing {
            Some(h) => Some(h.spec_other()),
            None => None,
        }
    }

    /// The feeder ends with a fatal error.
    pub open spec fn fail(self, error: FatalError) -> (LockStepModel, LockStepStep) {
        (LockStepModel { phase: LockStepPhase::Failed { error }, ..self }, LockStepStep::Exit)
    }

    /// What a report does to a feeder that was not waiting for it.
    pub open spec fn unexpected(self) -> (LockStepModel, LockStepStep) {
        if self.halted() {
            (self, LockStepStep::Exit)
        } else {
            self.fail(FatalError::OutOfOrder)
        }
    }

    /// The shutdown flag was read at the top of the loop.
    pub open spec fn begin_period(self, running: bool) -> (LockStepModel, LockStepStep) {
        if self.phase is Idle {
            if running {
                (LockStepModel { phase: LockStepPhase::Waiting, ..self }, LockStepStep::Wait)
            } else {
                (LockStepModel { phase: LockStepPhase::Stopped, ..self }, LockStepStep::Exit)
            }
        } else {
            self.unexpected()
        }
    }

    /// The wait returned `signal`.
    pub open spec fn signalled(self, signal: u32) -> (LockStepModel, LockStepStep) {
        if self.phase is Waiting {
            match playing_half_of(signal) {
                Some(half) => (
                    LockStepModel {
                        phase: LockStepPhase::Producing,
                        playing: Some(half),
                        ..self
                    },
                    LockStepStep::Produce { len: self.params.samples_per_period() as usize },
                ),
                None => self.fail(FatalError::UnknownSignal { signal }),
            }
        } else {
            self.unexpected()
        }
    }

    /// The producer returned and `samples` is what it wrote.
    pub open spec fn samples_ready(self, samples: Seq<u32>) -> (LockStepModel, LockStepStep) {
        if self.phase is Producing && self.playing is Some {
            if samples.len() == self.params.samples_per_period() {
                (
                    LockStepModel {
                        phase: LockStepPhase::Writing,
                        native: native_samples(samples),
                        ..self
                    },
                    LockStepStep::Write {
                        offset_bytes: self.free_half().unwrap().spec_offset(self.half_bytes) as u32,
                        len_bytes: self.half_bytes,
                    },
                )
            } else {
                self.fail(FatalError::WrongBufferLength)
            }
        } else {
            self.unexpected()
        }
    }

    /// The producer did not return normally.
    pub open spec fn producer_failed(self) -> (LockStepModel, LockStepStep) {
        if self.phase is Producing {
            self.fail(FatalError::ProducerFailed)
        } else {
            self.unexpected()
        }
    }

    /// The native calls of the write returned `code`: every code but `DS_OK`
    /// is an error, and no recovery exists.
    pub open spec fn write_returned(self, code: i32) -> (LockStepModel, LockStepStep) {
        if self.phase is Writing {
            if code == DS_OK {
                (
                    LockStepModel {
                        phase: LockStepPhase::Idle,
                        last_written: self.free_half(),
                        ..self
                    },
                    LockStepStep::CheckFlag,
                )
            } else {
                self.fail(FatalError::NativeCall { code })
            }
        } else {
            self.unexpected()
        }
    }

    /// The feeder and its next step after a report.
    pub open spec fn after(self, report: LockStepReport) -> (LockStepModel, LockStepStep) {
        match report {
            LockStepReport::BeginPeriod { running } => self.begin_period(running),
            LockStepReport::Signalled { signal } => self.signalled(signal),
            LockStepReport::SamplesReady { samples } => self.samples_ready(samples),
            LockStepReport::ProducerFailed => self.producer_failed(),
            LockStepReport::WriteReturned { code } => self.write_returned(code),
        }
    }
}

/// A lock-step feeder.
pub struct LockStepFeeder {
    params: OutputDeviceParameters,
    half_bytes: u32,
    phase: LockStepPhase,
    playing: Option<Half>,
    last_written: Option<Half>,
    native: Vec<i16>,
}

impl View for LockStepFeeder {
    type V = LockStepModel;

    closed spec fn view(&self) -> LockStepModel {
        LockStepModel {
            params: self.params,
            half_bytes: self.half_bytes,
            phase: self.phase,
            playing: self.playing,
            last_written: self.last_written,
            native: self.native@,
        }
    }
}

impl LockStepFeeder {
    #[verifier::type_invariant]
    spec fn inv(self) -> bool {
        self@.well_formed()
    }

    /// A feeder for a device with these parameters, or the reason why the
    /// ring cannot be planned for them.
    pub fn new(params: OutputDeviceParameters) -> (r: Result<LockStepFeeder, ParameterError>)
        ensures
            match ring_plan_of(params) {
                Err(e) => r == Err::<LockStepFeeder, ParameterError>(e),
                Ok(plan) => r is Ok && r->Ok_0@ == LockStepModel::initial(params)
                    && r->Ok_0@.half_bytes == plan.half_bytes,
            },
    {
        match ring_plan(params) {
            Err(e) => Err(e),
            Ok(plan) => Ok(
                LockStepFeeder {
                    params,
                    half_bytes: plan.half_bytes,
                    phase: LockStepPhase::Idle,
                    playing: None,
                    last_written: None,
                    native: Vec::new(),
                },
            ),
        }
    }

    /// The parameters of the device.
    pub fn params(&self) -> (p: OutputDeviceParameters)
        ensures
            p == self@.params,
            p.is_valid(),
    {
        proof {
            use_type_invariant(self);
        }
        self.params
    }

    /// Where the feeder stands.
    pub fn phase(&self) -> (p: LockStepPhase)
        ensures
            p == self@.phase,
    {
        self.phase
    }

    /// The fatal error that ended the feeder, if one did.
    pub fn fault(&self) -> (e: Option<FatalError>)
        ensures
            e == self@.fault(),
    {
        match self.phase {
            LockStepPhase::Failed { error } => Some(error),
            _ => None,
        }
    }

    /// The half that the hardware last reported to have started playing.
    pub fn playing(&self) -> (h: Option<Half>)
        ensures
            h == self@.playing,
    {
        self.playing
    }

    /// The half that was last written.
    pub fn last_written(&self) -> (h: Option<Half>)
        ensures
            h == self@.last_written,
    {
        self.last_written
    }

    /// The converted samples of the period in flight: what a write sends.
    pub fn native(&self) -> (samples: &Vec<i16>)
        ensures
            samples@ == self@.native,
            self@.phase is Writing ==> samples@.len() == self@.params.samples_per_period(),
    {
        proof {
            use_type_invariant(self);
        }
        &self.native
    }

    fn fail(&mut self, error: FatalError) -> (step: LockStepStep)
        ensures
            (final(self)@, step) == old(self)@.fail(error),
    {
        proof {
            use_type_invariant(&*self);
        }
        self.phase = LockStepPhase::Failed { error };
        LockStepStep::Exit
    }

    fn unexpected(&mut self) -> (step: LockStepStep)
        ensures
            (final(self)@, step) == old(self)@.unexpected(),
    {
        match self.phase {
            LockStepPhase::Stopped | LockStepPhase::Failed { .. } => LockStepStep::Exit,
            _ => self.fail(FatalError::OutOfOrder),
        }
    }

    /// Reports the shutdown flag, read at the top of the loop.
    pub fn begin_period(&mut self, running: bool) -> (step: LockStepStep)
        ensures
            (final(self)@, step) == old(self)@.begin_period(running),
            final(self)@.well_formed(),
    {
        proof {
            use_type_invariant(&*self);
        }
        match self.phase {
            LockStepPhase::Idle => {
                if running {
                    self.phase = LockStepPhase::Waiting;
                    LockStepStep::Wait
                } else {
                    self.phase = LockStepPhase::Stopped;
                    LockStepStep::Exit
                }
            },
            _ => self.unexpected(),
        }
    }

    /// Reports which completion signal the wait returned.
    pub fn signalled(&mut self, signal: u32) -> (step: LockStepStep)
        ensures
            (final(self)@, step) == old(self)@.signalled(signal),
            final(self)@.well_formed(),
    {
        proof {
            use_type_invariant(&*self);
        }
        match self.phase {
            LockStepPhase::Waiting => {
                let half = if signal == 0 {
                    Half::First
                } else if signal == 1 {
                    Half::Second
                } else {
                    return self.fail(FatalError::UnknownSignal { signal });
                };
                let len = self.params.buffer_len();
                self.playing = Some(half);
                self.phase = LockStepPhase::Producing;
                LockStepStep::Produce { len }
            },
            _ => self.unexpected(),
        }
    }

    /// Reports that the producer returned, with the samples that it wrote.
    pub fn samples_ready(&mut self, samples: &[u32]) -> (step: LockStepStep)
        ensures
            (final(self)@, step) == old(self)@.samples_ready(samples@),
            final(self)@.well_formed(),
    {
        proof {
            use_type_invariant(&*self);
        }
        match (self.phase, self.playing) {
            (LockStepPhase::Producing, Some(playing)) => {
                if samples.len() == self.params.buffer_len() {
                    let mut native = Vec::new();
                    core::mem::swap(&mut native, &mut self.native);
                    convert_buffer(samples, &mut native);
                    self.native = native;
                    self.phase = LockStepPhase::Writing;
                    LockStepStep::Write {
                        offset_bytes: playing.other().offset(self.half_bytes),
                        len_bytes: self.half_bytes,
                    }
                } else {
                    self.fail(FatalError::WrongBufferLength)
                }
            },
            _ => self.unexpected(),
        }
    }

    /// Reports that the producer did not return normally.
    pub fn producer_failed(&mut self) -> (step: LockStepStep)
        ensures
            (final(self)@, step) == old(self)@.producer_failed(),
            final(self)@.well_formed(),
    {
        proof {
            use_type_invariant(&*self);
        }
        match self.phase {
            LockStepPhase::Producing => self.fail(FatalError::ProducerFailed),
            _ => self.unexpected(),
        }
    }

    /// Reports what the native calls of the write returned.
    pub fn write_returned(&mut self, code: i32) -> (step: LockStepStep)
        ensures
            (final(self)@, step) == old(self)@.write_returned(code),
            final(self)@.well_formed(),
    {
        proof {
            use_type_invariant(&*self);
        }
        match self.phase {
            LockStepPhase::Writing => {
                if code == DS_OK {
                    self.last_written = match self.playing {
                        Some(h) => Some(h.other()),
                        None => None,
                    };
                    self.phase = LockStepPhase::Idle;
                    LockStepStep::CheckFlag
                } else {
                    self.fail(FatalError::NativeCall { code })
                }
            },
            _ => self.unexpected(),
        }
    }
}

/// Every report keeps a feeder well formed, and keeps its parameters and
/// the size of its ring.
pub proof fn lemma_report_keeps_well_formed(m: LockStepModel, report: LockStepReport)
    requires
        m.well_formed(),
    ensures
        m.after(report).0.well_formed(),
        m.after(report).0.params == m.params,
        m.after(report).0.half_bytes == m.half_bytes,
{
}

/// The feeder never writes into the half that plays: whenever it asks for a
/// write, the region to write is exactly the other half of the ring, and has
/// no byte in common with the half that was last reported to play.
pub proof fn lemma_write_avoids_playing_half(m: LockStepModel, report: LockStepReport)
    requires
        m.well_formed(),
        m.after(report).1 is Write,
    ensures
        m.after(report).0.playing is Some,
        m.after(report).0.playing == m.playing,
        m.after(report).1->len_bytes == m.half_bytes,
        m.after(report).1->offset_bytes == m.playing.unwrap().spec_other().spec_offset(
            m.half_bytes,
        ),
        regions_disjoint(
            m.after(report).1->offset_bytes as int,
            m.after(report).1->len_bytes as int,
            m.playing.unwrap().spec_offset(m.half_bytes),
            m.half_bytes as int,
        ),
        m.after(report).1->offset_bytes + m.after(report).1->len_bytes <= 2 * m.half_bytes,
        m.after(report).0.native.len() * BYTES_PER_SAMPLE == m.half_bytes,
{
}

/// The halves are written in turn where they play in turn: a write that
/// succeeded has filled the half opposite to the one that played, so two
/// periods with different playing halves fill different halves.
pub proof fn lemma_halves_alternate(m: LockStepModel, code: i32)
    requires
        m.well_formed(),
        m.phase is Writing,
        code == DS_OK,
    ensures
        m.write_returned(code).0.last_written == Some(m.playing.unwrap().spec_other()),
        m.write_returned(code).0.last_written != m.playing,
{
}

/// The producer is called on a buffer of exactly one period, whenever it is
/// called; and it is called only by a feeder that waited for a signal and
/// now waits for the producer.
pub proof fn lemma_producer_gets_one_period(m: LockStepModel, report: LockStepReport)
    requires
        m.well_formed(),
        m.after(report).1 is Produce,
    ensures
        m.after(report).1->len == m.params.channels_count * m.params.channel_sample_count,
        m.phase is Waiting,
        m.after(report).0.phase is Producing,
{
    m.params.lemma_valid_bounds();
    assert(m.params.channels_count * m.params.channel_sample_count
        == m.params.samples_per_period()) by (nonlinear_arith);
}

/// The producer is never called while it runs.
pub proof fn lemma_producer_is_not_reentered(m: LockStepModel, report: LockStepReport)
    requires
        m.phase is Producing,
    ensures
        !(m.after(report).1 is Produce),
{
}

/// What reaches the ring is what the producer wrote: after a signal, a
/// period that is produced is written as its converted samples, as many as
/// were produced and in their order, into the half opposite to the one that
/// the signal named.
pub proof fn lemma_period_reaches_ring(m: LockStepModel, signal: u32, samples: Seq<u32>)
    requires
        m.well_formed(),
        m.phase is Idle,
        signal == 0 || signal == 1,
        samples.len() == m.params.samples_per_period(),
    ensures
        ({
            let produced = m.begin_period(true).0.signalled(signal).0.samples_ready(samples);
            &&& produced.1 == (LockStepStep::Write {
                offset_bytes: if signal == 0 {
                    m.half_bytes
                } else {
                    0
                },
                len_bytes: m.half_bytes,
            })
            &&& produced.0.native == native_samples(samples)
            &&& produced.0.native.len() == samples.len()
            &&& forall|i: int|
                0 <= i < samples.len() ==> produced.0.native[i] == crate::convert::native_sample(
                    #[trigger] samples[i],
                )
            &&& produced.0.write_returned(DS_OK).0.phase is Idle
            &&& produced.0.write_returned(DS_OK).1 is CheckFlag
        }),
{
}

/// A feeder that has left its loop stays out: it asks for nothing more, and
/// keeps the error that ended it.
pub proof fn lemma_halted_is_final(m: LockStepModel, report: LockStepReport)
    requires
        m.halted(),
    ensures
        m.after(report) == (m, LockStepStep::Exit),
{
}

} // verus!
