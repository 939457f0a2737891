//! The polling feeder: a session over a native interface that offers a
//! blocking "write N frames" call and a "recover" call, and nothing else.
//!
//! The feeder is a state machine. Its driver does what each step names and
//! reports back; the feeder decides what comes next. One period is produced,
//! converted once, and written; a failed write is retried with the same
//! converted samples after a recovery, up to [`MAX_WRITE_ATTEMPTS`] writes.

use crate::convert::{convert_buffer, native_samples};
use crate::error::FatalError;
use crate::params::{OutputDeviceParameters, ParameterError};
use vstd::prelude::*;

verus! {

/// How often one period is written before the feeder gives up.
pub const MAX_WRITE_ATTEMPTS: u8 = 10;

/// Where a polling feeder stands.
#[derive(Copy, Clone, Debug, PartialEq, Eq, Structural)]
pub enum PollingPhase {
    /// Between two periods: the shutdown flag is read next.
    Idle,
    /// The producer is filling a buffer.
    Producing,
    /// The converted period is being written, for the `attempt`-th time.
    Writing { attempt: u8 },
    /// The `attempt`-th write failed and the native recovery is running.
    Recovering { attempt: u8 },
    /// The flag was seen lowered; the feeder has left its loop.
    Stopped,
    /// A fatal error ended the feeder.
    Failed { error: FatalError },
}

/// What the driver of a polling feeder does next.
#[derive(Copy, Clone, Debug, PartialEq, Eq, Structural)]
pub enum PollingStep {
    /// Read the shutdown flag and report it with `begin_period`.
    CheckFlag,
    /// Call the producer on a buffer of `len` samples, then report with
    /// `samples_ready`, or with `producer_failed`.
    Produce { len: usize },
    /// Write `frames` frames of the native samples, then report what the
    /// write returned with `write_returned`.
    Write { frames: usize },
    /// Run the native recovery for `code`, then report with `recovered`.
    Recover { code: i32 },
    /// Leave the loop.
    Exit,
}

/// What a driver reports to a polling feeder.
pub enum PollingReport {
    BeginPeriod { running: bool },
    SamplesReady { samples: Seq<u32> },
    ProducerFailed,
    WriteReturned { code: i32 },
    Recovered,
}

/// What the native interface is asked for when the device is opened: signed
/// 16-bit interleaved samples, with room for two periods so that one can play
/// while the next is written.
#[derive(Copy, Clone, Debug, PartialEq, Eq, Structural)]
pub struct PcmPlan {
    /// The sample rate to ask for, in Hz.
    pub rate: u32,
    /// The number of channels.
    pub channels: u32,
    /// The period, in frames.
    pub period_frames: usize,
    /// The size of the device buffer, in frames: two periods.
    pub buffer_frames: usize,
    /// The number of free frames at which the device wakes a writer.
    pub avail_min: usize,
    /// The number of written frames at which the device starts to play.
    pub start_threshold: usize,
}

/// The plan for a parameter record, where it has one.
pub open spec fn pcm_plan_of(params: OutputDeviceParameters) -> Result<PcmPlan, ParameterError> {
    if let Some(e) = params.violation() {
        Err(e)
    } else if params.sample_rate > u32::MAX || params.channels_count > u32::MAX {
        Err(ParameterError::BeyondNativeRange)
    } else {
        Ok(
            PcmPlan {
                rate: params.sample_rate as u32,
                channels: params.channels_count as u32,
                period_frames: params.channel_sample_count,
                buffer_frames: (2 * params.channel_sample_count) as usize,
                avail_min: params.channel_sample_count,
                start_threshold: params.channel_sample_count,
            },
        )
    }
}

/// Plans what to ask of the native interface for a parameter record.
pub fn pcm_plan(params: OutputDeviceParameters) -> (plan: Result<PcmPlan, ParameterError>)
    ensures
        plan == pcm_plan_of(params),
{
    match params.validate() {
        Err(e) => Err(e),
        Ok(_) => {
            proof {
                params.lemma_valid_bounds();
            }
            if params.sample_rate > u32::MAX as usize || params.channels_count > u32::MAX as usize {
                Err(ParameterError::BeyondNativeRange)
            } else {
                Ok(
                    PcmPlan {
                        rate: params.sample_rate as u32,
                        channels: params.channels_count as u32,
                        period_frames: params.channel_sample_count,
                        buffer_frames: 2 * params.channel_sample_count,
                        avail_min: params.channel_sample_count,
                        start_threshold: params.channel_sample_count,
                    },
                )
            }
        },
    }
}

/// Reads a native return code: a negative one is an error, and is handed
/// back as it came.
pub fn check(err_code: i32) -> (r: Result<(), i32>)
    ensures
        r == if err_code < 0 {
            Err::<(), i32>(err_code)
        } else {
            Ok::<(), i32>(())
        },
{
    if err_code < 0 {
        Err(err_code)
    } else {
        Ok(())
    }
}

/// The state of a polling feeder, as contracts see it.
pub struct PollingModel {
    pub params: OutputDeviceParameters,
    pub phase: PollingPhase,
    /// The converted samples of the period in flight.
    pub native: Seq<i16>,
}

impl PollingModel {
    /// A feeder before its first period: idle, with nothing converted yet.
    pub open spec fn initial(params: OutputDeviceParameters) -> PollingModel {
        PollingModel { params, phase: PollingPhase::Idle, native: Seq::empty() }
    }

    /// Whether a converted period is waiting to reach the device.
    pub open spec fn in_flight(self) -> bool {
        self.phase is Writing || self.phase is Recovering
    }

    /// The fatal error that ended the feeder, if one did.
    pub open spec fn fault(self) -> Option<FatalError> {
        match self.phase {
            PollingPhase::Failed { error } => Some(error),
            _ => None,
        }
    }

    /// What holds of every feeder: while a period is in flight the native
    /// buffer holds exactly one period, and an attempt is counted within the
    /// bound.
    pub open spec fn well_formed(self) -> bool {
        &&& self.params.is_valid()
        &&& (self.in_flight() ==> self.native.len() == self.params.samples_per_period())
        &&& (self.phase matches PollingPhase::Writing { attempt } ==> 1 <= attempt
            <= MAX_WRITE_ATTEMPTS)
        &&& (self.phase matches PollingPhase::Recovering { attempt } ==> 1 <= attempt
            < MAX_WRITE_ATTEMPTS)
    }

    /// Whether the feeder has left its loop for good.
    pub open spec fn halted(self) -> bool {
        self.phase is Stopped || self.phase is Failed
    }

    /// The feeder ends with a fatal error.
    pub open spec fn fail(self, error: FatalError) -> (PollingModel, PollingStep) {
        (PollingModel { phase: PollingPhase::Failed { error }, ..self }, PollingStep::Exit)
    }

    /// What a report does to a feeder that was not waiting for it.
    pub open spec fn unexpected(self) -> (PollingModel, PollingStep) {
        if self.halted() {
            (self, PollingStep::Exit)
        } else {
            self.fail(FatalError::OutOfOrder)
        }
    }

    /// The shutdown flag was read at the top of the loop.
    pub open spec fn begin_period(self, running: bool) -> (PollingModel, PollingStep) {
        if self.phase is Idle {
            if running {
                (
                    PollingModel { phase: PollingPhase::Producing, ..self },
                    PollingStep::Produce { len: self.params.samples_per_period() as usize },
                )
            } else {
                (PollingModel { phase: PollingPhase::Stopped, ..self }, PollingStep::Exit)
            }
        } else {
            self.unexpected()
        }
    }

    /// The producer returned and `samples` is what it wrote.
    pub open spec fn samples_ready(self, samples: Seq<u32>) -> (PollingModel, PollingStep) {
        if self.phase is Producing {
            if samples.len() == self.params.samples_per_period() {
                (
                    PollingModel {
                        phase: PollingPhase::Writing { attempt: 1 },
                        native: native_samples(samples),
                        ..self
                    },
                    PollingStep::Write { frames: self.params.channel_sample_count },
                )
            } else {
                self.fail(FatalError::WrongBufferLength)
            }
        } else {
            self.unexpected()
        }
    }

    /// The producer did not return normally.
    pub open spec fn producer_failed(self) -> (PollingModel, PollingStep) {
        if self.phase is Producing {
            self.fail(FatalError::ProducerFailed)
        } else {
            self.unexpected()
        }
    }

    /// The native write returned `code`: a negative number is an error.
    pub open spec fn write_returned(self, code: i32) -> (PollingModel, PollingStep) {
        if let PollingPhase::Writing { attempt } = self.phase {
            if code >= 0 {
                (PollingModel { phase: PollingPhase::Idle, ..self }, PollingStep::CheckFlag)
            } else if attempt < MAX_WRITE_ATTEMPTS {
                (
                    PollingModel { phase: PollingPhase::Recovering { attempt }, ..self },
                    PollingStep::Recover { code },
                )
            } else {
                self.fail(FatalError::RetriesExhausted { code })
            }
        } else {
            self.unexpected()
        }
    }

    /// The feeder and its next step after a report.
    pub open spec fn after(self, report: PollingReport) -> (PollingModel, PollingStep) {
        match report {
            PollingReport::BeginPeriod { running } => self.begin_period(running),
            PollingReport::SamplesReady { samples } => self.samples_ready(samples),
            PollingReport::ProducerFailed => self.producer_failed(),
            PollingReport::WriteReturned { code } => self.write_returned(code),
            PollingReport::Recovered => self.recovered(),
        }
    }

    /// The feeder after the writes of one period have failed with `codes`,
    /// one after the other, and each failure was recovered from where the
    /// feeder asked for it.
    pub open spec fn after_failed_writes(self, codes: Seq<i32>) -> (PollingModel, PollingStep)
        decreases codes.len(),
    {
        if codes.len() == 0 {
            (self, PollingStep::Write { frames: self.params.channel_sample_count })
        } else {
            let failed = self.after_failed_writes(codes.drop_last()).0.write_returned(codes.last());
            if failed.1 is Recover {
                failed.0.recovered()
            } else {
                failed
            }
        }
    }

    /// The native recovery returned.
    pub open spec fn recovered(self) -> (PollingModel, PollingStep) {
        if let PollingPhase::Recovering { attempt } = self.phase {
            (
                PollingModel {
                    phase: PollingPhase::Writing { attempt: (attempt + 1) as u8 },
                    ..self
                },
                PollingStep::Write { frames: self.params.channel_sample_count },
            )
        } else {
            self.unexpected()
        }
    }
}

/// A polling feeder.
pub struct PollingFeeder {
    params: OutputDeviceParameters,
    phase: PollingPhase,
    native: Vec<i16>,
}

impl View for PollingFeeder {
    type V = PollingModel;

    closed spec fn view(&self) -> PollingModel {
        PollingModel { params: self.params, phase: self.phase, native: self.native@ }
    }
}

impl PollingFeeder {
    #[verifier::type_invariant]
    spec fn inv(self) -> bool {
        self@.well_formed()
    }

    /// A feeder for a device with these parameters, or the rule that the
    /// parameters break.
    pub fn new(params: OutputDeviceParameters) -> (r: Result<PollingFeeder, ParameterError>)
        ensures
            match params.violation() {
                Some(e) => r == Err::<PollingFeeder, ParameterError>(e),
                None => r is Ok && r->Ok_0@ == PollingModel::initial(params),
            },
    {
        match params.validate() {
            Err(e) => Err(e),
            Ok(len) => Ok(
                PollingFeeder {
                    params,
                    phase: PollingPhase::Idle,
                    native: Vec::with_capacity(len),
                },
            ),
        }
    }

    /// The parameters of the device.
    pub fn params(&self) -> (p: OutputDeviceParameters)
        ensures
            p == self@.params,
            p.is_valid(),
    {
        proof {
            use_type_invariant(self);
        }
        self.params
    }

    /// Where the feeder stands.
    pub fn phase(&self) -> (p: PollingPhase)
        ensures
            p == self@.phase,
    {
        self.phase
    }

    /// The fatal error that ended the feeder, if one did.
    pub fn fault(&self) -> (e: Option<FatalError>)
        ensures
            e == self@.fault(),
    {
        match self.phase {
            PollingPhase::Failed { error } => Some(error),
            _ => None,
        }
    }

    /// The converted samples of the period in flight: what a write sends.
    pub fn native(&self) -> (samples: &Vec<i16>)
        ensures
            samples@ == self@.native,
            self@.in_flight() ==> samples@.len() == self@.params.samples_per_period(),
    {
        proof {
            use_type_invariant(self);
        }
        &self.native
    }

    fn fail(&mut self, error: FatalError) -> (step: PollingStep)
        ensures
            (final(self)@, step) == old(self)@.fail(error),
    {
        proof {
            use_type_invariant(&*self);
        }
        self.phase = PollingPhase::Failed { error };
        PollingStep::Exit
    }

    fn unexpected(&mut self) -> (step: PollingStep)
        ensures
            (final(self)@, step) == old(self)@.unexpected(),
    {
        match self.phase {
            PollingPhase::Stopped | PollingPhase::Failed { .. } => PollingStep::Exit,
            _ => self.fail(FatalError::OutOfOrder),
        }
    }

    /// Reports the shutdown flag, read at the top of the loop.
    pub fn begin_period(&mut self, running: bool) -> (step: PollingStep)
        ensures
            (final(self)@, step) == old(self)@.begin_period(running),
            final(self)@.well_formed(),
    {
        proof {
            use_type_invariant(&*self);
        }
        match self.phase {
            PollingPhase::Idle => {
                if running {
                    let len = self.params.buffer_len();
                    self.phase = PollingPhase::Producing;
                    PollingStep::Produce { len }
                } else {
                    self.phase = PollingPhase::Stopped;
                    PollingStep::Exit
                }
            },
            _ => self.unexpected(),
        }
    }

    /// Reports that the producer returned, with the samples that it wrote.
    pub fn samples_ready(&mut self, samples: &[u32]) -> (step: PollingStep)
        ensures
            (final(self)@, step) == old(self)@.samples_ready(samples@),
            final(self)@.well_formed(),
    {
        proof {
            use_type_invariant(&*self);
        }
        match self.phase {
            PollingPhase::Producing => {
                if samples.len() == self.params.buffer_len() {
                    let mut native = Vec::new();
                    core::mem::swap(&mut native, &mut self.native);
                    convert_buffer(samples, &mut native);
                    self.native = native;
                    self.phase = PollingPhase::Writing { attempt: 1 };
                    PollingStep::Write { frames: self.params.channel_sample_count }
                } else {
                    self.fail(FatalError::WrongBufferLength)
                }
            },
            _ => self.unexpected(),
        }
    }

    /// Reports that the producer did not return normally.
    pub fn producer_failed(&mut self) -> (step: PollingStep)
        ensures
            (final(self)@, step) == old(self)@.producer_failed(),
            final(self)@.well_formed(),
    {
        proof {
            use_type_invariant(&*self);
        }
        match self.phase {
            PollingPhase::Producing => self.fail(FatalError::ProducerFailed),
            _ => self.unexpected(),
        }
    }

    /// Reports what the native write returned.
    pub fn write_returned(&mut self, code: i32) -> (step: PollingStep)
        ensures
            (final(self)@, step) == old(self)@.write_returned(code),
            final(self)@.well_formed(),
    {
        proof {
            use_type_invariant(&*self);
        }
        match self.phase {
            PollingPhase::Writing { attempt } => {
                if code >= 0 {
                    self.phase = PollingPhase::Idle;
                    PollingStep::CheckFlag
                } else if attempt < MAX_WRITE_ATTEMPTS {
                    self.phase = PollingPhase::Recovering { attempt };
                    PollingStep::Recover { code }
                } else {
                    self.fail(FatalError::RetriesExhausted { code })
                }
            },
            _ => self.unexpected(),
        }
    }

    /// Reports that the native recovery returned.
    pub fn recovered(&mut self) -> (step: PollingStep)
        ensures
            (final(self)@, step) == old(self)@.recovered(),
            final(self)@.well_formed(),
    {
        proof {
            use_type_invariant(&*self);
        }
        match self.phase {
            PollingPhase::Recovering { attempt } => {
                self.phase = PollingPhase::Writing { attempt: attempt + 1 };
                PollingStep::Write { frames: self.params.channel_sample_count }
            },
            _ => self.unexpected(),
        }
    }
}

/// Every report keeps a feeder well formed, and keeps its parameters.
pub proof fn lemma_report_keeps_well_formed(m: PollingModel, report: PollingReport)
    requires
        m.well_formed(),
    ensures
        m.after(report).0.well_formed(),
        m.after(report).0.params == m.params,
{
    m.params.lemma_valid_bounds();
}

/// The producer is called on a buffer of exactly one period, whenever it is
/// called; and it is called only by a feeder that was idle and now waits for
/// it.
pub proof fn lemma_producer_gets_one_period(m: PollingModel, report: PollingReport)
    requires
        m.well_formed(),
        m.after(report).1 is Produce,
    ensures
        m.after(report).1->len == m.params.channels_count * m.params.channel_sample_count,
        m.phase is Idle,
        m.after(report).0.phase is Producing,
{
    m.params.lemma_valid_bounds();
    assert(m.params.channels_count * m.params.channel_sample_count
        == m.params.samples_per_period()) by (nonlinear_arith);
}

/// The producer is never called while it runs: a feeder that waits for the
/// producer asks for no second call, whatever it is told.
pub proof fn lemma_producer_is_not_reentered(m: PollingModel, report: PollingReport)
    requires
        m.phase is Producing,
    ensures
        !(m.after(report).1 is Produce),
{
}

/// What is written is one converted period: a write is asked for only while
/// a period is in flight, and for all its frames.
pub proof fn lemma_write_sends_one_period(m: PollingModel, report: PollingReport)
    requires
        m.well_formed(),
        m.after(report).1 is Write,
    ensures
        m.after(report).0.in_flight(),
        m.after(report).0.native.len() == m.params.samples_per_period(),
        m.after(report).1->frames == m.params.channel_sample_count,
{
}

/// A retry sends the samples that the failed write sent: the converted
/// period changes only when the producer has filled a new one.
pub proof fn lemma_retry_keeps_samples(m: PollingModel, report: PollingReport)
    requires
        !(report is SamplesReady),
    ensures
        m.after(report).0.native == m.native,
{
}

/// A period is written at most `MAX_WRITE_ATTEMPTS` times: the write that
/// fails last ends the feeder with the code that it returned.
pub proof fn lemma_retries_are_bounded(m: PollingModel, code: i32)
    requires
        m.well_formed(),
        m.phase == (PollingPhase::Writing { attempt: MAX_WRITE_ATTEMPTS }),
        code < 0,
    ensures
        m.write_returned(code).1 is Exit,
        m.write_returned(code).0.fault() == Some(FatalError::RetriesExhausted { code }),
{
}

/// A write that fails is made again, with the samples that it had, until
/// it has been made `MAX_WRITE_ATTEMPTS` times: while fewer writes have
/// failed the feeder asks for the next, and when the last has failed it
/// ends with the code of that write.
pub proof fn lemma_failed_writes_are_retried(m: PollingModel, codes: Seq<i32>)
    requires
        m.well_formed(),
        m.phase == (PollingPhase::Writing { attempt: 1 }),
        codes.len() <= MAX_WRITE_ATTEMPTS,
        forall|i: int| 0 <= i < codes.len() ==> codes[i] < 0,
    ensures
        m.after_failed_writes(codes).0.native == m.native,
        m.after_failed_writes(codes).0.params == m.params,
        codes.len() < MAX_WRITE_ATTEMPTS ==> m.after_failed_writes(codes) == (
            PollingModel { phase: PollingPhase::Writing { attempt: (1 + codes.len()) as u8 }, ..m },
            PollingStep::Write { frames: m.params.channel_sample_count },
        ),
        codes.len() == MAX_WRITE_ATTEMPTS ==> m.after_failed_writes(codes) == (
            PollingModel {
                phase: PollingPhase::Failed {
                    error: FatalError::RetriesExhausted { code: codes.last() },
                },
                ..m
            },
            PollingStep::Exit,
        ),
    decreases codes.len(),
{
    if codes.len() > 0 {
        lemma_failed_writes_are_retried(m, codes.drop_last());
    }
}

/// What reaches the device is what the producer wrote: a period that is
/// produced and written is sent as its converted samples, as many as were
/// produced and in their order, and the feeder is idle again once the write
/// has succeeded.
pub proof fn lemma_period_reaches_device(m: PollingModel, samples: Seq<u32>, written: i32)
    requires
        m.well_formed(),
        m.phase is Idle,
        samples.len() == m.params.samples_per_period(),
        written >= 0,
    ensures
        ({
            let produced = m.begin_period(true).0.samples_ready(samples);
            &&& produced.1 == (PollingStep::Write { frames: m.params.channel_sample_count })
            &&& produced.0.native == native_samples(samples)
            &&& produced.0.native.len() == samples.len()
            &&& forall|i: int|
                0 <= i < samples.len() ==> produced.0.native[i] == crate::convert::native_sample(
                    #[trigger] samples[i],
                )
            &&& produced.0.write_returned(written) == (
                PollingModel { native: native_samples(samples), ..m },
                PollingStep::CheckFlag,
            )
        }),
{
}

/// A feeder that has left its loop stays out: it asks for nothing more, and
/// keeps the error that ended it.
pub proof fn lemma_halted_is_final(m: PollingModel, report: PollingReport)
    requires
        m.halted(),
    ensures
        m.after(report) == (m, PollingStep::Exit),
{
}

/// Once the flag is seen lowered nothing is produced or written: the feeder
/// stops at once.
pub proof fn lemma_lowered_flag_stops(m: PollingModel)
    requires
        m.phase is Idle,
    ensures
        m.begin_period(false).1 is Exit,
        m.begin_period(false).0.phase is Stopped,
{
}

} // verus!
