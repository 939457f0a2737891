//! The streaming write-ahead session: playback is driven by a native event
//! loop that the feeder thread pumps, and that asks for data through write
//! requests of its own.
//!
//! The feeder waits until the connection is ready, opens the stream paused,
//! and then pumps the loop until the shutdown flag is lowered. A write
//! request arrives inside a pump, carries a number of bytes, and is served
//! with as many whole periods as fit that number. A failure inside a write
//! request is captured, never thrown across the native boundary: the feeder
//! finds it when the pump has returned, and ends with it.

use crate::error::FatalError;
use crate::params::{OutputDeviceParameters, ParameterError};
use vstd::prelude::*;

verus! {

/// The size of a sample of the stream, in bytes: the stream takes the
/// normalised 32-bit samples of the producer as they are.
pub const STREAM_SAMPLE_BYTES: usize = 4;

/// The highest values that the native library takes in a sample format.
#[derive(Copy, Clone, Debug, PartialEq, Eq, Structural)]
pub struct SpecLimits {
    pub rate_max: u32,
    pub channels_max: u8,
}

/// The sample format of the stream: 32-bit samples at `rate` Hz in
/// `channels` channels.
#[derive(Copy, Clone, Debug, PartialEq, Eq, Structural)]
pub struct SampleSpec {
    pub rate: u32,
    pub channels: u8,
}

/// The sample format for a parameter record under the limits of the native
/// library, where it has one.
pub open spec fn sample_spec_of(params: OutputDeviceParameters, limits: SpecLimits) -> Result<
    SampleSpec,
    ParameterError,
> {
    if let Some(e) = params.violation() {
        Err(e)
    } else if params.sample_rate > limits.rate_max {
        Err(ParameterError::SampleRateAboveMaximum)
    } else if params.channels_count > limits.channels_max {
        Err(ParameterError::ChannelsAboveMaximum)
    } else {
        Ok(SampleSpec { rate: params.sample_rate as u32, channels: params.channels_count as u8 })
    }
}

/// Plans the sample format of the stream for a parameter record.
pub fn sample_spec(params: OutputDeviceParameters, limits: SpecLimits) -> (spec: Result<
    SampleSpec,
    ParameterError,
>)
    ensures
        spec == sample_spec_of(params, limits),
{
    match params.validate() {
        Err(e) => Err(e),
        Ok(_) => {
            if params.sample_rate > limits.rate_max as usize {
                Err(ParameterError::SampleRateAboveMaximum)
            } else if params.channels_count > limits.channels_max as usize {
                Err(ParameterError::ChannelsAboveMaximum)
            } else {
                Ok(
                    SampleSpec {
                        rate: params.sample_rate as u32,
                        channels: params.channels_count as u8,
                    },
                )
            }
        },
    }
}

/// Reads a native return code: a negative one is an error, and is handed
/// back as it came.
pub fn check(code: i32) -> (r: Result<(), i32>)
    ensures
        r == if code < 0 {
            Err::<(), i32>(code)
        } else {
            Ok::<(), i32>(())
        },
{
    if code < 0 {
        Err(code)
    } else {
        Ok(())
    }
}

/// The state of the connection to the native server.
#[derive(Copy, Clone, Debug, PartialEq, Eq, Structural)]
pub enum ContextState {
    /// The connection is being set up.
    Pending,
    /// The connection is established.
    Ready,
    /// The connection failed or was lost.
    Failed,
    /// The connection was ended cleanly.
    Terminated,
}

/// How the opening of the stream ended.
#[derive(Copy, Clone, Debug, PartialEq, Eq, Structural)]
pub enum OpenOutcome {
    /// The stream is connected for playback, and paused.
    Connected,
    /// The native library refused the sample format.
    InvalidSpec,
    /// A native call failed with `code`.
    Failed { code: i32 },
}

/// Where a streaming feeder stands.
#[derive(Copy, Clone, Debug, PartialEq, Eq, Structural)]
pub enum StreamingPhase {
    /// The state of the connection is looked up next.
    Connecting,
    /// The loop is pumped while the connection is being set up.
    ConnectPump,
    /// The stream is being opened.
    Opening,
    /// At the top of the pump loop: the shutdown flag is read next.
    Idle,
    /// Inside a pump of the loop; a write request may arrive.
    Pumping,
    /// Inside a write request: the producer is filling a buffer, and
    /// `remaining` periods are still owed, this one counted.
    Producing { remaining: usize },
    /// Inside a write request: a period is being written, and `remaining`
    /// periods are still owed, this one counted.
    Writing { remaining: usize },
    /// The pump has returned; whether the stream is paused is looked up next.
    CorkCheck,
    /// The stream is being resumed.
    Uncorking,
    /// The feeder has left its loop without an error.
    Stopped,
    /// A fatal error ended the feeder.
    Failed { error: FatalError },
}

/// What the driver of a streaming feeder does next.
#[derive(Copy, Clone, Debug, PartialEq, Eq, Structural)]
pub enum StreamingStep {
    /// Look up the state of the connection and report it with
    /// `context_state`.
    QueryContext,
    /// Pump the native loop once and report what it returned with
    /// `pump_returned`; a write request that arrives meanwhile is reported
    /// with `write_requested`.
    Pump,
    /// Create the stream with this sample format, register the write
    /// request, connect the stream for playback, paused, and report with
    /// `stream_opened`.
    OpenStream { spec: SampleSpec },
    /// Read the shutdown flag and report it with `begin_iteration`.
    CheckFlag,
    /// Look up whether the stream is paused and report it with
    /// `cork_state`.
    QueryCork,
    /// Resume the stream, then report with `uncorked`.
    Uncork,
    /// Call the producer on a buffer of `len` samples, then report with
    /// `samples_ready`, or with `producer_failed`.
    Produce { len: usize },
    /// Write the buffer of the producer to the stream, `bytes` bytes, then
    /// report what the write returned with `write_returned`.
    Write { bytes: usize },
    /// Return from the write request into the native loop.
    Return,
    /// Leave the loop.
    Exit,
}

/// What a driver reports to a streaming feeder.
pub enum StreamingReport {
    ContextState { state: ContextState },
    PumpReturned { code: i32 },
    StreamOpened { outcome: OpenOutcome },
    BeginIteration { running: bool },
    WriteRequested { nbytes: usize },
    SamplesReady { len: usize },
    ProducerFailed,
    WriteReturned { code: i32 },
    CorkState { corked: bool },
    Uncorked,
}

/// The state of a streaming feeder, as contracts see it.
pub struct StreamingModel {
    pub params: OutputDeviceParameters,
    pub spec: SampleSpec,
    pub phase: StreamingPhase,
    /// The failure that was captured inside a write request and that the
    /// feeder has not yet ended with.
    pub captured: Option<FatalError>,
}

impl StreamingModel {
    /// A feeder before its connection is ready.
    pub open spec fn initial(params: OutputDeviceParameters, spec: SampleSpec) -> StreamingModel {
        StreamingModel { params, spec, phase: StreamingPhase::Connecting, captured: None }
    }

    /// The size of one period of the stream, in bytes.
    pub open spec fn period_bytes(self) -> int {
        STREAM_SAMPLE_BYTES * self.params.samples_per_period()
    }

    /// The number of whole periods that fit a request of `nbytes` bytes.
    pub open spec fn periods_in(self, nbytes: usize) -> int {
        nbytes as int / self.period_bytes()
    }

    /// Whether the feeder is inside a write request.
    pub open spec fn in_request(self) -> bool {
        self.phase is Producing || self.phase is Writing
    }

    /// What holds of every feeder: the sample format is that of the
    /// parameters, a period is still owed while a write request is served,
    /// and nothing was captured before the stream was opened.
    pub open spec fn well_formed(self) -> bool {
        &&& self.params.is_valid()
        &&& self.spec.rate == self.params.sample_rate
        &&& self.spec.channels == self.params.channels_count
        &&& (self.phase matches StreamingPhase::Producing { remaining } ==> remaining >= 1)
        &&& (self.phase matches StreamingPhase::Writing { remaining } ==> remaining >= 1)
        &&& (self.in_request() ==> self.captured is None)
        &&& (self.phase is Connecting || self.phase is ConnectPump || self.phase is Opening
            || self.phase is Idle ==> self.captured is None)
    }

    /// Whether the feeder has left its loop for good.
    pub open spec fn halted(self) -> bool {
        self.phase is Stopped || self.phase is Failed
    }

    /// The fatal error that ended the feeder, if one did.
    pub open spec fn fault(self) -> Option<FatalError> {
        match self.phase {
            StreamingPhase::Failed { error } => Some(error),
            _ => None,
        }
    }

    /// The feeder ends with a fatal error.
    pub open spec fn fail(self, error: FatalError) -> (StreamingModel, StreamingStep) {
        (
            StreamingModel { phase: StreamingPhase::Failed { error }, captured: None, ..self },
            StreamingStep::Exit,
        )
    }

    /// What a report does to a feeder that was not waiting for it.
    pub open spec fn unexpected(self) -> (StreamingModel, StreamingStep) {
        if self.halted() {
            (self, StreamingStep::Exit)
        } else {
            self.fail(FatalError::OutOfOrder)
        }
    }

    /// A failure inside a write request is captured, and the request
    /// returns.
    pub open spec fn capture(self, error: FatalError) -> (StreamingModel, StreamingStep) {
        (
            StreamingModel { phase: StreamingPhase::Pumping, captured: Some(error), ..self },
            StreamingStep::Return,
        )
    }

    /// The pump has returned and the stream plays: the feeder ends with what
    /// was captured, or goes round again.
    pub open spec fn settle(self) -> (StreamingModel, StreamingStep) {
        match self.captured {
            Some(error) => self.fail(error),
            None => (
                StreamingModel { phase: StreamingPhase::Idle, ..self },
                StreamingStep::CheckFlag,
            ),
        }
    }

    /// The state of the connection was looked up.
    pub open spec fn context_state(self, state: ContextState) -> (StreamingModel, StreamingStep) {
        if self.phase is Connecting {
            match state {
                ContextState::Ready => (
                    StreamingModel { phase: StreamingPhase::Opening, ..self },
                    StreamingStep::OpenStream { spec: self.spec },
                ),
                ContextState::Failed => self.fail(FatalError::ConnectionFailed),
                ContextState::Terminated => (
                    StreamingModel { phase: StreamingPhase::Stopped, ..self },
                    StreamingStep::Exit,
                ),
                ContextState::Pending => (
                    StreamingModel { phase: StreamingPhase::ConnectPump, ..self },
                    StreamingStep::Pump,
                ),
            }
        } else {
            self.unexpected()
        }
    }

    /// A pump of the loop returned `code`: a negative number is an error.
    pub open spec fn pump_returned(self, code: i32) -> (StreamingModel, StreamingStep) {
        if self.phase is ConnectPump {
            if code < 0 {
                self.fail(FatalError::NativeCall { code })
            } else {
                (
                    StreamingModel { phase: StreamingPhase::Connecting, ..self },
                    StreamingStep::QueryContext,
                )
            }
        } else if self.phase is Pumping {
            if code < 0 {
                self.fail(FatalError::NativeCall { code })
            } else {
                (
                    StreamingModel { phase: StreamingPhase::CorkCheck, ..self },
                    StreamingStep::QueryCork,
                )
            }
        } else {
            self.unexpected()
        }
    }

    /// The opening of the stream ended.
    pub open spec fn stream_opened(self, outcome: OpenOutcome) -> (StreamingModel, StreamingStep) {
        if self.phase is Opening {
            match outcome {
                OpenOutcome::Connected => (
                    StreamingModel { phase: StreamingPhase::Idle, ..self },
                    StreamingStep::CheckFlag,
                ),
                OpenOutcome::InvalidSpec => self.fail(FatalError::InvalidSampleSpec),
                OpenOutcome::Failed { code } => self.fail(FatalError::NativeCall { code }),
            }
        } else {
            self.unexpected()
        }
    }

    /// The shutdown flag was read at the top of the pump loop.
    pub open spec fn begin_iteration(self, running: bool) -> (StreamingModel, StreamingStep) {
        if self.phase is Idle {
            if running {
                (StreamingModel { phase: StreamingPhase::Pumping, ..self }, StreamingStep::Pump)
            } else {
                (StreamingModel { phase: StreamingPhase::Stopped, ..self }, StreamingStep::Exit)
            }
        } else {
            self.unexpected()
        }
    }

    /// The native loop asks for `nbytes` bytes. Once a failure is captured
    /// nothing more is produced.
    pub open spec fn write_requested(self, nbytes: usize) -> (StreamingModel, StreamingStep) {
        if self.phase is Pumping {
            if self.captured is Some || self.periods_in(nbytes) == 0 {
                (self, StreamingStep::Return)
            } else {
                (
                    StreamingModel {
                        phase: StreamingPhase::Producing {
                            remaining: self.periods_in(nbytes) as usize,
                        },
                        ..self
                    },
                    StreamingStep::Produce { len: self.params.samples_per_period() as usize },
                )
            }
        } else {
            self.unexpected()
        }
    }

    /// The producer returned and has written `len` samples.
    pub open spec fn samples_ready(self, len: usize) -> (StreamingModel, StreamingStep) {
        if let StreamingPhase::Producing { remaining } = self.phase {
            if len == self.params.samples_per_period() {
                (
                    StreamingModel { phase: StreamingPhase::Writing { remaining }, ..self },
                    StreamingStep::Write { bytes: self.period_bytes() as usize },
                )
            } else {
                self.capture(FatalError::WrongBufferLength)
            }
        } else {
            self.unexpected()
        }
    }

    /// The producer did not return normally.
    pub open spec fn producer_failed(self) -> (StreamingModel, StreamingStep) {
        if self.phase is Producing {
            self.capture(FatalError::ProducerFailed)
        } else {
            self.unexpected()
        }
    }

    /// The native write returned `code`: a negative number is an error.
    pub open spec fn write_returned(self, code: i32) -> (StreamingModel, StreamingStep) {
        if let StreamingPhase::Writing { remaining } = self.phase {
            if code < 0 {
                self.capture(FatalError::NativeCall { code })
            } else if remaining > 1 {
                (
                    StreamingModel {
                        phase: StreamingPhase::Producing { remaining: (remaining - 1) as usize },
                        ..self
                    },
                    StreamingStep::Produce { len: self.params.samples_per_period() as usize },
                )
            } else {
                (StreamingModel { phase: StreamingPhase::Pumping, ..self }, StreamingStep::Return)
            }
        } else {
            self.unexpected()
        }
    }

    /// Whether the stream is paused was looked up.
    pub open spec fn cork_state(self, corked: bool) -> (StreamingModel, StreamingStep) {
        if self.phase is CorkCheck {
            if corked {
                (
                    StreamingModel { phase: StreamingPhase::Uncorking, ..self },
                    StreamingStep::Uncork,
                )
            } else {
                self.settle()
            }
        } else {
            self.unexpected()
        }
    }

    /// The stream was resumed.
    pub open spec fn uncorked(self) -> (StreamingModel, StreamingStep) {
        if self.phase is Uncorking {
            self.settle()
        } else {
            self.unexpected()
        }
    }

    /// The feeder and its next step after a report.
    pub open spec fn after(self, report: StreamingReport) -> (StreamingModel, StreamingStep) {
        match report {
            StreamingReport::ContextState { state } => self.context_state(state),
            StreamingReport::PumpReturned { code } => self.pump_returned(code),
            StreamingReport::StreamOpened { outcome } => self.stream_opened(outcome),
            StreamingReport::BeginIteration { running } => self.begin_iteration(running),
            StreamingReport::WriteRequested { nbytes } => self.write_requested(nbytes),
            StreamingReport::SamplesReady { len } => self.samples_ready(len),
            StreamingReport::ProducerFailed => self.producer_failed(),
            StreamingReport::WriteReturned { code } => self.write_returned(code),
            StreamingReport::CorkState { corked } => self.cork_state(corked),
            StreamingReport::Uncorked => self.uncorked(),
        }
    }

    /// The feeder after `rounds` periods of a write request went well: each
    /// was produced in full and written without an error.
    pub open spec fn after_rounds(self, rounds: nat) -> (StreamingModel, StreamingStep)
        decreases rounds,
    {
        if rounds == 0 {
            (self, StreamingStep::Produce { len: self.params.samples_per_period() as usize })
        } else {
            let before = self.after_rounds((rounds - 1) as nat).0;
            before.samples_ready(self.params.samples_per_period() as usize).0.write_returned(0)
        }
    }
}

/// A streaming feeder.
pub struct StreamingFeeder {
    params: OutputDeviceParameters,
    spec: SampleSpec,
    phase: StreamingPhase,
    captured: Option<FatalError>,
}

impl View for StreamingFeeder {
    type V = StreamingModel;

    closed spec fn view(&self) -> StreamingModel {
        StreamingModel {
            params: self.params,
            spec: self.spec,
            phase: self.phase,
            captured: self.captured,
        }
    }
}

impl StreamingFeeder {
    #[verifier::type_invariant]
    spec fn inv(self) -> bool {
        self@.well_formed()
    }

    /// A feeder for a device with these parameters, or the reason why the
    /// stream cannot have them.
    pub fn new(params: OutputDeviceParameters, limits: SpecLimits) -> (r: Result<
        StreamingFeeder,
        ParameterError,
    >)
        ensures
            match sample_spec_of(params, limits) {
                Err(e) => r == Err::<StreamingFeeder, ParameterError>(e),
                Ok(spec) => r is Ok && r->Ok_0@ == StreamingModel::initial(params, spec),
            },
    {
        match sample_spec(params, limits) {
            Err(e) => Err(e),
            Ok(spec) => Ok(
                StreamingFeeder { params, spec, phase: StreamingPhase::Connecting, captured: None },
            ),
        }
    }

    /// The parameters of the device.
    pub fn params(&self) -> (p: OutputDeviceParameters)
        ensures
            p == self@.params,
            p.is_valid(),
    {
        proof {
            use_type_invariant(self);
        }
        self.params
    }

    /// The sample format of the stream.
    pub fn spec(&self) -> (s: SampleSpec)
        ensures
            s == self@.spec,
    {
        self.spec
    }

    /// Where the feeder stands.
    pub fn phase(&self) -> (p: StreamingPhase)
        ensures
            p == self@.phase,
    {
        self.phase
    }

    /// The fatal error that ended the feeder, if one did.
    pub fn fault(&self) -> (e: Option<FatalError>)
        ensures
            e == self@.fault(),
    {
        match self.phase {
            StreamingPhase::Failed { error } => Some(error),
            _ => None,
        }
    }

    /// The size of one period of the stream, in bytes.
    pub fn period_bytes(&self) -> (n: usize)
        ensures
            n == self@.period_bytes(),
            n > 0,
    {
        proof {
            use_type_invariant(self);
            self.params.lemma_valid_bounds();
        }
        STREAM_SAMPLE_BYTES * self.params.buffer_len()
    }

    fn fail(&mut self, error: FatalError) -> (step: StreamingStep)
        ensures
            (final(self)@, step) == old(self)@.fail(error),
    {
        proof {
            use_type_invariant(&*self);
        }
        self.captured = None;
        self.phase = StreamingPhase::Failed { error };
        StreamingStep::Exit
    }

    fn unexpected(&mut self) -> (step: StreamingStep)
        ensures
            (final(self)@, step) == old(self)@.unexpected(),
    {
        match self.phase {
            StreamingPhase::Stopped | StreamingPhase::Failed { .. } => StreamingStep::Exit,
            _ => self.fail(FatalError::OutOfOrder),
        }
    }

    fn capture(&mut self, error: FatalError) -> (step: StreamingStep)
        requires
            old(self)@.in_request(),
        ensures
            (final(self)@, step) == old(self)@.capture(error),
    {
        proof {
            use_type_invariant(&*self);
        }
        self.phase = StreamingPhase::Pumping;
        self.captured = Some(error);
        StreamingStep::Return
    }

    fn settle(&mut self) -> (step: StreamingStep)
        requires
            old(self)@.phase is CorkCheck || old(self)@.phase is Uncorking,
        ensures
            (final(self)@, step) == old(self)@.settle(),
    {
        proof {
            use_type_invariant(&*self);
        }
        match self.captured {
            Some(error) => self.fail(error),
            None => {
                self.phase = StreamingPhase::Idle;
                StreamingStep::CheckFlag
            },
        }
    }

    /// Reports the state of the connection.
    pub fn context_state(&mut self, state: ContextState) -> (step: StreamingStep)
        ensures
            (final(self)@, step) == old(self)@.context_state(state),
            final(self)@.well_formed(),
    {
        proof {
            use_type_invariant(&*self);
        }
        match self.phase {
            StreamingPhase::Connecting => match state {
                ContextState::Ready => {
                    self.phase = StreamingPhase::Opening;
                    StreamingStep::OpenStream { spec: self.spec }
                },
                ContextState::Failed => self.fail(FatalError::ConnectionFailed),
                ContextState::Terminated => {
                    self.phase = StreamingPhase::Stopped;
                    StreamingStep::Exit
                },
                ContextState::Pending => {
                    self.phase = StreamingPhase::ConnectPump;
                    StreamingStep::Pump
                },
            },
            _ => self.unexpected(),
        }
    }

    /// Reports what a pump of the loop returned.
    pub fn pump_returned(&mut self, code: i32) -> (step: StreamingStep)
        ensures
            (final(self)@, step) == old(self)@.pump_returned(code),
            final(self)@.well_formed(),
    {
        proof {
            use_type_invariant(&*self);
        }
        match self.phase {
            StreamingPhase::ConnectPump => {
                if code < 0 {
                    self.fail(FatalError::NativeCall { code })
                } else {
                    self.phase = StreamingPhase::Connecting;
                    StreamingStep::QueryContext
                }
            },
            StreamingPhase::Pumping => {
                if code < 0 {
                    self.fail(FatalError::NativeCall { code })
                } else {
                    self.phase = StreamingPhase::CorkCheck;
                    StreamingStep::QueryCork
                }
            },
            _ => self.unexpected(),
        }
    }

    /// Reports how the opening of the stream ended.
    pub fn stream_opened(&mut self, outcome: OpenOutcome) -> (step: StreamingStep)
        ensures
            (final(self)@, step) == old(self)@.stream_opened(outcome),
            final(self)@.well_formed(),
    {
        proof {
            use_type_invariant(&*self);
        }
        match self.phase {
            StreamingPhase::Opening => match outcome {
                OpenOutcome::Connected => {
                    self.phase = StreamingPhase::Idle;
                    StreamingStep::CheckFlag
                },
                OpenOutcome::InvalidSpec => self.fail(FatalError::InvalidSampleSpec),
                OpenOutcome::Failed { code } => self.fail(FatalError::NativeCall { code }),
            },
            _ => self.unexpected(),
        }
    }

    /// Reports the shutdown flag, read at the top of the pump loop.
    pub fn begin_iteration(&mut self, running: bool) -> (step: StreamingStep)
        ensures
            (final(self)@, step) == old(self)@.begin_iteration(running),
            final(self)@.well_formed(),
    {
        proof {
            use_type_invariant(&*self);
        }
        match self.phase {
            StreamingPhase::Idle => {
                if running {
                    self.phase = StreamingPhase::Pumping;
                    StreamingStep::Pump
                } else {
                    self.phase = StreamingPhase::Stopped;
                    StreamingStep::Exit
                }
            },
            _ => self.unexpected(),
        }
    }

    /// Reports that the native loop asks for `nbytes` bytes.
    pub fn write_requested(&mut self, nbytes: usize) -> (step: StreamingStep)
        ensures
            (final(self)@, step) == old(self)@.write_requested(nbytes),
            final(self)@.well_formed(),
    {
        proof {
            use_type_invariant(&*self);
        }
        match self.phase {
            StreamingPhase::Pumping => {
                let periods = nbytes / self.period_bytes();
                if self.captured.is_some() || periods == 0 {
                    StreamingStep::Return
                } else {
                    let len = self.params.buffer_len();
                    self.phase = StreamingPhase::Producing { remaining: periods };
                    StreamingStep::Produce { len }
                }
            },
            _ => self.unexpected(),
        }
    }

    /// Reports that the producer returned and has written `len` samples.
    pub fn samples_ready(&mut self, len: usize) -> (step: StreamingStep)
        ensures
            (final(self)@, step) == old(self)@.samples_ready(len),
            final(self)@.well_formed(),
    {
        proof {
            use_type_invariant(&*self);
        }
        match self.phase {
            StreamingPhase::Producing { remaining } => {
                if len == self.params.buffer_len() {
                    let bytes = self.period_bytes();
                    self.phase = StreamingPhase::Writing { remaining };
                    StreamingStep::Write { bytes }
                } else {
                    self.capture(FatalError::WrongBufferLength)
                }
            },
            _ => self.unexpected(),
        }
    }

    /// Reports that the producer did not return normally.
    pub fn producer_failed(&mut self) -> (step: StreamingStep)
        ensures
            (final(self)@, step) == old(self)@.producer_failed(),
            final(self)@.well_formed(),
    {
        proof {
            use_type_invariant(&*self);
        }
        match self.phase {
            StreamingPhase::Producing { .. } => self.capture(FatalError::ProducerFailed),
            _ => self.unexpected(),
        }
    }

    /// Reports what the native write returned.
    pub fn write_returned(&mut self, code: i32) -> (step: StreamingStep)
        ensures
            (final(self)@, step) == old(self)@.write_returned(code),
            final(self)@.well_formed(),
    {
        proof {
            use_type_invariant(&*self);
        }
        match self.phase {
            StreamingPhase::Writing { remaining } => {
                if code < 0 {
                    self.capture(FatalError::NativeCall { code })
                } else if remaining > 1 {
                    let len = self.params.buffer_len();
                    self.phase = StreamingPhase::Producing { remaining: remaining - 1 };
                    StreamingStep::Produce { len }
                } else {
                    self.phase = StreamingPhase::Pumping;
                    StreamingStep::Return
                }
            },
            _ => self.unexpected(),
        }
    }

    /// Reports whether the stream is paused.
    pub fn cork_state(&mut self, corked: bool) -> (step: StreamingStep)
        ensures
            (final(self)@, step) == old(self)@.cork_state(corked),
            final(self)@.well_formed(),
    {
        proof {
            use_type_invariant(&*self);
        }
        match self.phase {
            StreamingPhase::CorkCheck => {
                if corked {
                    self.phase = StreamingPhase::Uncorking;
                    StreamingStep::Uncork
                } else {
                    self.settle()
                }
            },
            _ => self.unexpected(),
        }
    }

    /// Reports that the stream was resumed.
    pub fn uncorked(&mut self) -> (step: StreamingStep)
        ensures
            (final(self)@, step) == old(self)@.uncorked(),
            final(self)@.well_formed(),
    {
        proof {
            use_type_invariant(&*self);
        }
        match self.phase {
            StreamingPhase::Uncorking => self.settle(),
            _ => self.unexpected(),
        }
    }
}

/// Every report keeps a feeder well formed, and keeps its parameters and its
/// sample format.
pub proof fn lemma_report_keeps_well_formed(m: StreamingModel, report: StreamingReport)
    requires
        m.well_formed(),
    ensures
        m.after(report).0.well_formed(),
        m.after(report).0.params == m.params,
        m.after(report).0.spec == m.spec,
{
    m.params.lemma_valid_bounds();
    if let StreamingReport::WriteRequested { nbytes } = report {
        lemma_periods_fit(m, nbytes);
    }
}

/// A write request is served with the whole periods that fit it: their
/// bytes do not exceed the request, and one period more would.
pub proof fn lemma_periods_fit(m: StreamingModel, nbytes: usize)
    requires
        m.params.is_valid(),
    ensures
        0 <= m.periods_in(nbytes) <= nbytes,
        m.periods_in(nbytes) * m.period_bytes() <= nbytes < (m.periods_in(nbytes) + 1)
            * m.period_bytes(),
{
    m.params.lemma_valid_bounds();
    let d = m.period_bytes();
    let q = m.periods_in(nbytes);
    vstd::arithmetic::div_mod::lemma_fundamental_div_mod(nbytes as int, d);
    vstd::arithmetic::div_mod::lemma_mod_bound(nbytes as int, d);
    vstd::arithmetic::div_mod::lemma_div_pos_is_pos(nbytes as int, d);
    assert(q * d == d * q) by (nonlinear_arith);
    assert((q + 1) * d == d * q + d) by (nonlinear_arith);
    assert(q <= q * d) by (nonlinear_arith)
        requires
            q >= 0,
            d >= 1,
    ;
}

/// The bytes of one period are whole frames of the stream.
pub proof fn lemma_period_is_whole_frames(m: StreamingModel)
    requires
        m.well_formed(),
    ensures
        m.period_bytes() == m.params.channel_sample_count * (STREAM_SAMPLE_BYTES
            * m.spec.channels),
        m.period_bytes() % (STREAM_SAMPLE_BYTES * m.spec.channels) as int == 0,
{
    let frames = m.params.channel_sample_count as int;
    let frame_bytes = (STREAM_SAMPLE_BYTES * m.spec.channels) as int;
    assert(m.period_bytes() == frames * frame_bytes) by (nonlinear_arith)
        requires
            m.period_bytes() == 4 * (frames * m.params.channels_count),
            frame_bytes == 4 * m.params.channels_count,
    ;
    vstd::arithmetic::div_mod::lemma_mod_multiples_basic(frames, frame_bytes);
}

/// The producer is called on a buffer of exactly one period, whenever it is
/// called; and it is called only inside a pump, by a feeder that now waits
/// for it.
pub proof fn lemma_producer_gets_one_period(m: StreamingModel, report: StreamingReport)
    requires
        m.well_formed(),
        m.after(report).1 is Produce,
    ensures
        m.after(report).1->len == m.params.channels_count * m.params.channel_sample_count,
        m.phase is Pumping || m.phase is Writing,
        m.after(report).0.phase is Producing,
{
    m.params.lemma_valid_bounds();
    assert(m.params.channels_count * m.params.channel_sample_count
        == m.params.samples_per_period()) by (nonlinear_arith);
}

/// The producer is never called while it runs.
pub proof fn lemma_producer_is_not_reentered(m: StreamingModel, report: StreamingReport)
    requires
        m.phase is Producing,
    ensures
        !(m.after(report).1 is Produce),
{
}

/// A write request that meets no failure is served in full: a request that
/// owes `owed` periods has the producer called once more after each of the
/// first `owed - 1` rounds, and returns after the last.
pub proof fn lemma_request_is_served(m: StreamingModel, owed: usize, rounds: nat)
    requires
        m.well_formed(),
        m.phase == (StreamingPhase::Producing { remaining: owed }),
        rounds <= owed,
    ensures
        m.after_rounds(rounds).0.well_formed(),
        m.after_rounds(rounds).0.params == m.params,
        m.after_rounds(rounds).0.captured is None,
        rounds < owed ==> m.after_rounds(rounds).0.phase == (StreamingPhase::Producing {
            remaining: (owed - rounds) as usize,
        }) && m.after_rounds(rounds).1 == (StreamingStep::Produce {
            len: m.params.samples_per_period() as usize,
        }),
        rounds == owed ==> m.after_rounds(rounds).0.phase is Pumping && m.after_rounds(rounds).1
            is Return,
    decreases rounds,
{
    m.params.lemma_valid_bounds();
    if rounds > 0 {
        lemma_request_is_served(m, owed, (rounds - 1) as nat);
    }
}

/// A failure inside a write request does not leave the request by force: it
/// is captured, the request returns, and nothing more is produced.
pub proof fn lemma_failure_is_captured(m: StreamingModel, nbytes: usize)
    requires
        m.well_formed(),
        m.phase is Producing,
    ensures
        m.producer_failed().1 is Return,
        m.producer_failed().0.captured == Some(FatalError::ProducerFailed),
        m.producer_failed().0.write_requested(nbytes) == (
            m.producer_failed().0,
            StreamingStep::Return,
        ),
{
}

/// What was captured ends the feeder once the pump has returned: the feeder
/// ends with the captured failure as its result.
pub proof fn lemma_captured_failure_ends_feeder(m: StreamingModel, corked: bool)
    requires
        m.well_formed(),
        m.phase is CorkCheck,
        m.captured is Some,
    ensures
        !corked ==> m.cork_state(corked).0.fault() == m.captured && m.cork_state(corked).1
            is Exit,
        corked ==> m.cork_state(corked).1 is Uncork && m.cork_state(corked).0.uncorked().0.fault()
            == m.captured && m.cork_state(corked).0.uncorked().1 is Exit,
{
}

/// The stream is resumed only once the connection was reported ready and
/// the stream was opened: no feeder asks for it while it connects or opens.
pub proof fn lemma_uncork_follows_ready(m: StreamingModel, report: StreamingReport)
    requires
        m.after(report).1 is Uncork,
    ensures
        m.phase is CorkCheck,
{
}

/// A feeder that has left its loop stays out: it asks for nothing more, and
/// keeps the error that ended it.
pub proof fn lemma_halted_is_final(m: StreamingModel, report: StreamingReport)
    requires
        m.halted(),
    ensures
        m.after(report) == (m, StreamingStep::Exit),
{
}

} // verus!
