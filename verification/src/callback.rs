//! The free-running callback session: the native library runs a thread of
//! its own and calls back once per period, on that thread.
//!
//! The bridge is what the callback consults. On each call it has one period
//! produced, converts it where the native format asks for it, has it copied
//! into the native buffer, and lets the stream continue. It stops the stream
//! only when a fatal error has ended the session.

use crate::convert::{convert_buffer, native_samples};
use crate::error::FatalError;
use crate::params::{OutputDeviceParameters, ParameterError};
use vstd::prelude::*;

verus! {

/// The format of the samples that the native buffer takes.
#[derive(Copy, Clone, Debug, PartialEq, Eq, Structural)]
pub enum NativeFormat {
    /// Normalised 32-bit samples, as the producer writes them.
    Float32,
    /// Signed 16-bit samples.
    Int16,
}

impl NativeFormat {
    /// The size of one sample, in bytes.
    pub open spec fn spec_sample_bytes(self) -> int {
        match self {
            NativeFormat::Float32 => 4,
            NativeFormat::Int16 => 2,
        }
    }

    /// The size of one sample, in bytes.
    pub fn sample_bytes(self) -> (n: usize)
        ensures
            n == self.spec_sample_bytes(),
    {
        match self {
            NativeFormat::Float32 => 4,
            NativeFormat::Int16 => 2,
        }
    }
}

/// What a native stream is asked for when the device is opened: a buffer of
/// twice the period, so that one period of jitter goes unheard, and callbacks
/// of exactly one period.
#[derive(Copy, Clone, Debug, PartialEq, Eq, Structural)]
pub struct StreamPlan {
    /// The capacity of the native buffer, in frames: two periods.
    pub buffer_capacity_frames: i32,
    pub channel_count: i32,
    pub sample_rate: i32,
    /// The number of frames that each callback is to carry: one period.
    pub frames_per_callback: i32,
}

/// The stream plan for a parameter record, where it has one.
pub open spec fn stream_plan_of(params: OutputDeviceParameters) -> Result<
    StreamPlan,
    ParameterError,
> {
    if let Some(e) = params.violation() {
        Err(e)
    } else if params.sample_rate > i32::MAX || params.channels_count > i32::MAX || 2
        * params.channel_sample_count > i32::MAX {
        Err(ParameterError::BeyondNativeRange)
    } else {
        Ok(
            StreamPlan {
                buffer_capacity_frames: (2 * params.channel_sample_count) as i32,
                channel_count: params.channels_count as i32,
                sample_rate: params.sample_rate as i32,
                frames_per_callback: params.channel_sample_count as i32,
            },
        )
    }
}

/// Plans what to ask of a native stream for a parameter record.
pub fn stream_plan(params: OutputDeviceParameters) -> (plan: Result<StreamPlan, ParameterError>)
    ensures
        plan == stream_plan_of(params),
{
    match params.validate() {
        Err(e) => Err(e),
        Ok(_) => {
            if params.sample_rate > i32::MAX as usize || params.channels_count > i32::MAX as usize
                || params.channel_sample_count > 0x3fff_ffff {
                Err(ParameterError::BeyondNativeRange)
            } else {
                let frames: i32 = params.channel_sample_count as i32;
                Ok(
                    StreamPlan {
                        buffer_capacity_frames: 2 * frames,
                        channel_count: params.channels_count as i32,
                        sample_rate: params.sample_rate as i32,
                        frames_per_callback: frames,
                    },
                )
            }
        },
    }
}

/// The number of buffers that a native queue plays in turn.
pub const QUEUE_BUFFERS: usize = 2;

/// What a native queue is asked for when the device is opened: packed signed
/// 16-bit samples, one frame per packet, and two buffers of one period each.
#[derive(Copy, Clone, Debug, PartialEq, Eq, Structural)]
pub struct QueuePlan {
    /// The sample rate, in Hz.
    pub sample_rate: usize,
    pub bits_per_channel: u32,
    pub frames_per_packet: u32,
    pub channels_per_frame: u32,
    pub bytes_per_frame: u32,
    pub bytes_per_packet: u32,
    /// The size of each buffer, in bytes: one period.
    pub buffer_bytes: u32,
}

/// The queue plan for a parameter record, where it has one.
pub open spec fn queue_plan_of(params: OutputDeviceParameters) -> Result<QueuePlan, ParameterError> {
    if let Some(e) = params.violation() {
        Err(e)
    } else if 2 * params.samples_per_period() > u32::MAX {
        Err(ParameterError::BeyondNativeRange)
    } else {
        Ok(
            QueuePlan {
                sample_rate: params.sample_rate,
                bits_per_channel: 16,
                frames_per_packet: 1,
                channels_per_frame: params.channels_count as u32,
                bytes_per_frame: (2 * params.channels_count) as u32,
                bytes_per_packet: (2 * params.channels_count) as u32,
                buffer_bytes: (2 * params.samples_per_period()) as u32,
            },
        )
    }
}

/// Plans what to ask of a native queue for a parameter record.
pub fn queue_plan(params: OutputDeviceParameters) -> (plan: Result<QueuePlan, ParameterError>)
    ensures
        plan == queue_plan_of(params),
{
    match params.validate() {
        Err(e) => Err(e),
        Ok(samples) => {
            proof {
                params.lemma_valid_bounds();
            }
            if samples > 0x7fff_ffff {
                Err(ParameterError::BeyondNativeRange)
            } else {
                let frame_bytes: u32 = 2 * (params.channels_count as u32);
                Ok(
                    QueuePlan {
                        sample_rate: params.sample_rate,
                        bits_per_channel: 16,
                        frames_per_packet: 1,
                        channels_per_frame: params.channels_count as u32,
                        bytes_per_frame: frame_bytes,
                        bytes_per_packet: frame_bytes,
                        buffer_bytes: 2 * (samples as u32),
                    },
                )
            }
        },
    }
}

/// What a native interface that keeps each channel in a buffer of its own is
/// asked for when the device is opened: buffers of one period per channel,
/// of normalised 32-bit samples.
#[derive(Copy, Clone, Debug, PartialEq, Eq, Structural)]
pub struct ChannelBufferPlan {
    pub number_of_channels: u32,
    /// The length of each channel, in frames: one period.
    pub length: u32,
    /// The sample rate, in Hz.
    pub sample_rate: usize,
    /// The size of one channel of one period, in bytes.
    pub channel_bytes: u32,
}

/// The channel buffer plan for a parameter record, where it has one.
pub open spec fn channel_buffer_plan_of(params: OutputDeviceParameters) -> Result<
    ChannelBufferPlan,
    ParameterError,
> {
    if let Some(e) = params.violation() {
        Err(e)
    } else if params.channels_count > u32::MAX || 4 * params.channel_sample_count > u32::MAX {
        Err(ParameterError::BeyondNativeRange)
    } else {
        Ok(
            ChannelBufferPlan {
                number_of_channels: params.channels_count as u32,
                length: params.channel_sample_count as u32,
                sample_rate: params.sample_rate,
                channel_bytes: (4 * params.channel_sample_count) as u32,
            },
        )
    }
}

/// Plans what to ask of a native interface with one buffer per channel.
pub fn channel_buffer_plan(params: OutputDeviceParameters) -> (plan: Result<
    ChannelBufferPlan,
    ParameterError,
>)
    ensures
        plan == channel_buffer_plan_of(params),
{
    match params.validate() {
        Err(e) => Err(e),
        Ok(_) => {
            if params.channels_count > u32::MAX as usize || params.channel_sample_count
                > 0x3fff_ffff {
                Err(ParameterError::BeyondNativeRange)
            } else {
                let length: u32 = params.channel_sample_count as u32;
                Ok(
                    ChannelBufferPlan {
                        number_of_channels: params.channels_count as u32,
                        length,
                        sample_rate: params.sample_rate,
                        channel_bytes: 4 * length,
                    },
                )
            }
        },
    }
}

/// Reads a native status: every status but zero is an error, and is handed
/// back as it came.
pub fn check(status: i32) -> (r: Result<(), i32>)
    ensures
        r == if status == 0 {
            Ok::<(), i32>(())
        } else {
            Err::<(), i32>(status)
        },
{
    if status == 0 {
        Ok(())
    } else {
        Err(status)
    }
}

/// Where a callback bridge stands.
#[derive(Copy, Clone, Debug, PartialEq, Eq, Structural)]
pub enum CallbackPhase {
    /// Between two callbacks.
    Ready,
    /// Inside a callback: the producer is filling a buffer.
    Producing,
    /// A fatal error ended the session.
    Failed { error: FatalError },
}

/// What the callback does next.
#[derive(Copy, Clone, Debug, PartialEq, Eq, Structural)]
pub enum CallbackStep {
    /// Call the producer on a buffer of `len` samples, then report with
    /// `samples_ready`, or with `producer_failed`.
    Produce { len: usize },
    /// Copy one period, `bytes` bytes long, into the native buffer, and let
    /// the stream continue.
    Deliver { bytes: usize },
    /// Stop the stream: the native thread calls back no more.
    Stop,
}

/// What a callback reports to its bridge.
pub enum CallbackReport {
    Requested { frames: usize },
    SamplesReady { samples: Seq<u32> },
    ProducerFailed,
}

/// The state of a callback bridge, as contracts see it.
pub struct CallbackModel {
    pub params: OutputDeviceParameters,
    pub format: NativeFormat,
    pub phase: CallbackPhase,
    /// The converted samples of the last period, where the native format is
    /// not the producer's.
    pub native: Seq<i16>,
}

impl CallbackModel {
    /// A bridge before its first callback.
    pub open spec fn initial(params: OutputDeviceParameters, format: NativeFormat) -> CallbackModel {
        CallbackModel { params, format, phase: CallbackPhase::Ready, native: Seq::empty() }
    }

    /// What holds of every bridge.
    pub open spec fn well_formed(self) -> bool {
        self.params.is_valid()
    }

    /// The size of one period in the native buffer, in bytes.
    pub open spec fn period_bytes(self) -> int {
        self.format.spec_sample_bytes() * self.params.samples_per_period()
    }

    /// Whether a fatal error has ended the session.
    pub open spec fn halted(self) -> bool {
        self.phase is Failed
    }

    /// The fatal error that ended the session, if one did.
    pub open spec fn fault(self) -> Option<FatalError> {
        match self.phase {
            CallbackPhase::Failed { error } => Some(error),
            _ => None,
        }
    }

    /// The session ends with a fatal error.
    pub open spec fn fail(self, error: FatalError) -> (CallbackModel, CallbackStep) {
        (CallbackModel { phase: CallbackPhase::Failed { error }, ..self }, CallbackStep::Stop)
    }

    /// What a report does to a bridge that was not waiting for it.
    pub open spec fn unexpected(self) -> (CallbackModel, CallbackStep) {
        if self.halted() {
            (self, CallbackStep::Stop)
        } else {
            self.fail(FatalError::OutOfOrder)
        }
    }

    /// The native thread called back for `frames` frames.
    pub open spec fn requested(self, frames: usize) -> (CallbackModel, CallbackStep) {
        if self.phase is Ready {
            if frames == self.params.channel_sample_count {
                (
                    CallbackModel { phase: CallbackPhase::Producing, ..self },
                    CallbackStep::Produce { len: self.params.samples_per_period() as usize },
                )
            } else {
                self.fail(FatalError::WrongBufferLength)
            }
        } else {
            self.unexpected()
        }
    }

    /// The producer returned and `samples` is what it wrote.
    pub open spec fn samples_ready(self, samples: Seq<u32>) -> (CallbackModel, CallbackStep) {
        if self.phase is Producing {
            if samples.len() == self.params.samples_per_period() {
                (
                    CallbackModel {
                        phase: CallbackPhase::Ready,
                        native: if self.format is Int16 {
                            native_samples(samples)
                        } else {
                            self.native
                        },
                        ..self
                    },
                    CallbackStep::Deliver { bytes: self.period_bytes() as usize },
                )
            } else {
                self.fail(FatalError::WrongBufferLength)
            }
        } else {
            self.unexpected()
        }
    }

    /// The producer did not return normally.
    pub open spec fn producer_failed(self) -> (CallbackModel, CallbackStep) {
        if self.phase is Producing {
            self.fail(FatalError::ProducerFailed)
        } else {
            self.unexpected()
        }
    }

    /// The bridge and its next step after a report.
    pub open spec fn after(self, report: CallbackReport) -> (CallbackModel, CallbackStep) {
        match report {
            CallbackReport::Requested { frames } => self.requested(frames),
            CallbackReport::SamplesReady { samples } => self.samples_ready(samples),
            CallbackReport::ProducerFailed => self.producer_failed(),
        }
    }
}

/// A callback bridge.
pub struct CallbackBridge {
    params: OutputDeviceParameters,
    format: NativeFormat,
    phase: CallbackPhase,
    native: Vec<i16>,
}

impl View for CallbackBridge {
    type V = CallbackModel;

    closed spec fn view(&self) -> CallbackModel {
        CallbackModel {
            params: self.params,
            format: self.format,
            phase: self.phase,
            native: self.native@,
        }
    }
}

impl CallbackBridge {
    #[verifier::type_invariant]
    spec fn inv(self) -> bool {
        self@.well_formed()
    }

    /// A bridge for a device with these parameters and this native format,
    /// or the rule that the parameters break.
    pub fn new(params: OutputDeviceParameters, format: NativeFormat) -> (r: Result<
        CallbackBridge,
        ParameterError,
    >)
        ensures
            match params.violation() {
                Some(e) => r == Err::<CallbackBridge, ParameterError>(e),
                None => r is Ok && r->Ok_0@ == CallbackModel::initial(params, format),
            },
    {
        match params.validate() {
            Err(e) => Err(e),
            Ok(_) => Ok(
                CallbackBridge { params, format, phase: CallbackPhase::Ready, native: Vec::new() },
            ),
        }
    }

    /// The parameters of the device.
    pub fn params(&self) -> (p: OutputDeviceParameters)
        ensures
            p == self@.params,
            p.is_valid(),
    {
        proof {
            use_type_invariant(self);
        }
        self.params
    }

    /// The format of the native samples.
    pub fn format(&self) -> (f: NativeFormat)
        ensures
            f == self@.format,
    {
        self.format
    }

    /// Where the bridge stands.
    pub fn phase(&self) -> (p: CallbackPhase)
        ensures
            p == self@.phase,
    {
        self.phase
    }

    /// The fatal error that ended the session, if one did.
    pub fn fault(&self) -> (e: Option<FatalError>)
        ensures
            e == self@.fault(),
    {
        match self.phase {
            CallbackPhase::Failed { error } => Some(error),
            _ => None,
        }
    }

    /// The converted samples of the last period.
    pub fn native(&self) -> (samples: &Vec<i16>)
        ensures
            samples@ == self@.native,
    {
        &self.native
    }

    fn fail(&mut self, error: FatalError) -> (step: CallbackStep)
        ensures
            (final(self)@, step) == old(self)@.fail(error),
    {
        proof {
            use_type_invariant(&*self);
        }
        self.phase = CallbackPhase::Failed { error };
        CallbackStep::Stop
    }

    fn unexpected(&mut self) -> (step: CallbackStep)
        ensures
            (final(self)@, step) == old(self)@.unexpected(),
    {
        match self.phase {
            CallbackPhase::Failed { .. } => CallbackStep::Stop,
            _ => self.fail(FatalError::OutOfOrder),
        }
    }

    /// Reports that the native thread called back for `frames` frames.
    pub fn requested(&mut self, frames: usize) -> (step: CallbackStep)
        ensures
            (final(self)@, step) == old(self)@.requested(frames),
            final(self)@.well_formed(),
    {
        proof {
            use_type_invariant(&*self);
        }
        match self.phase {
            CallbackPhase::Ready => {
                if frames == self.params.channel_sample_count {
                    let len = self.params.buffer_len();
                    self.phase = CallbackPhase::Producing;
                    CallbackStep::Produce { len }
                } else {
                    self.fail(FatalError::WrongBufferLength)
                }
            },
            _ => self.unexpected(),
        }
    }

    /// Reports that the producer returned, with the samples that it wrote.
    pub fn samples_ready(&mut self, samples: &[u32]) -> (step: CallbackStep)
        ensures
            (final(self)@, step) == old(self)@.samples_ready(samples@),
            final(self)@.well_formed(),
    {
        proof {
            use_type_invariant(&*self);
            self.params.lemma_valid_bounds();
        }
        match self.phase {
            CallbackPhase::Producing => {
                let len = self.params.buffer_len();
                if samples.len() == len {
                    match self.format {
                        NativeFormat::Int16 => {
                            let mut native = Vec::new();
                            core::mem::swap(&mut native, &mut self.native);
                            convert_buffer(samples, &mut native);
                            self.native = native;
                        },
                        NativeFormat::Float32 => {},
                    }
                    self.phase = CallbackPhase::Ready;
                    let sample_bytes = self.format.sample_bytes();
                    assert(sample_bytes * len <= 4 * len) by (nonlinear_arith)
                        requires
                            sample_bytes <= 4,
                    ;
                    CallbackStep::Deliver { bytes: sample_bytes * len }
                } else {
                    self.fail(FatalError::WrongBufferLength)
                }
            },
            _ => self.unexpected(),
        }
    }

    /// Reports that the producer did not return normally.
    pub fn producer_failed(&mut self) -> (step: CallbackStep)
        ensures
            (final(self)@, step) == old(self)@.producer_failed(),
            final(self)@.well_formed(),
    {
        proof {
            use_type_invariant(&*self);
        }
        match self.phase {
            CallbackPhase::Producing => self.fail(FatalError::ProducerFailed),
            _ => self.unexpected(),
        }
    }
}

/// Every report keeps a bridge well formed, and keeps its parameters and its
/// native format.
pub proof fn lemma_report_keeps_well_formed(m: CallbackModel, report: CallbackReport)
    requires
        m.well_formed(),
    ensures
        m.after(report).0.well_formed(),
        m.after(report).0.params == m.params,
        m.after(report).0.format == m.format,
{
}

/// The producer is called on a buffer of exactly one period, whenever it is
/// called; and it is called only between two callbacks, by a bridge that now
/// waits for it.
pub proof fn lemma_producer_gets_one_period(m: CallbackModel, report: CallbackReport)
    requires
        m.well_formed(),
        m.after(report).1 is Produce,
    ensures
        m.after(report).1->len == m.params.channels_count * m.params.channel_sample_count,
        m.phase is Ready,
        m.after(report).0.phase is Producing,
{
    m.params.lemma_valid_bounds();
    assert(m.params.channels_count * m.params.channel_sample_count
        == m.params.samples_per_period()) by (nonlinear_arith);
}

/// The producer is never called while it runs.
pub proof fn lemma_producer_is_not_reentered(m: CallbackModel, report: CallbackReport)
    requires
        m.phase is Producing,
    ensures
        !(m.after(report).1 is Produce),
{
}

/// What is delivered is one period in the native format; where that format
/// is signed 16-bit, it is the converted samples of what the producer wrote.
pub proof fn lemma_delivery_is_one_period(m: CallbackModel, samples: Seq<u32>)
    requires
        m.well_formed(),
        m.samples_ready(samples).1 is Deliver,
    ensures
        m.samples_ready(samples).1->bytes == m.format.spec_sample_bytes()
            * m.params.samples_per_period(),
        m.format is Int16 ==> m.samples_ready(samples).0.native == native_samples(samples),
        m.format is Int16 ==> m.samples_ready(samples).0.native.len()
            == m.params.samples_per_period(),
{
    m.params.lemma_valid_bounds();
}

/// The stream is stopped from inside a callback only when a fatal error has
/// ended the session; and once one has, every callback stops it.
pub proof fn lemma_stop_means_failed(m: CallbackModel, report: CallbackReport)
    ensures
        m.after(report).1 is Stop <==> m.after(report).0.phase is Failed,
        m.halted() ==> m.after(report) == (m, CallbackStep::Stop),
{
}

} // verus!
