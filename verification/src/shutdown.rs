//! The order in which a session is shut down when its device is closed.
//!
//! Closing a device lowers the shutdown flag, waits until the feeder has
//! gone, and only then releases what the session holds. The sequence is a
//! state machine: its driver does what each step names and reports back.

use crate::backend::BackendKind;
use crate::error::{first_error, FatalError};
use vstd::prelude::*;

verus! {

/// How far the shutdown of a session has come.
#[derive(Copy, Clone, Debug, PartialEq, Eq, Structural)]
pub enum ShutdownPhase {
    /// The session runs: the shutdown flag is up.
    Running,
    /// The flag is down; the feeder may still be in its last period.
    FlagLowered,
    /// The feeder thread has been joined.
    FeederExited,
    /// The native stream was stopped; its thread calls back no more.
    StreamStopped,
    /// Everything is released.
    Closed,
}

/// What the driver of a shutdown does next.
#[derive(Copy, Clone, Debug, PartialEq, Eq, Structural)]
pub enum ShutdownStep {
    /// Lower the shutdown flag, then report with `flag_lowered`.
    LowerFlag,
    /// Join the feeder thread, then report how it ended with `feeder_joined`.
    JoinFeeder,
    /// Stop the native stream, then report with `stream_stopped`.
    StopStream,
    /// Release the native resources, then report the number of references
    /// that are left on the device with `released`.
    Release,
    /// Nothing is left to do.
    Done,
}

/// What a driver reports to a shutdown.
pub enum ShutdownReport {
    FlagLowered,
    FeederJoined { result: Option<FatalError> },
    StreamStopped,
    Released { references_left: u32 },
}

/// The state of a shutdown, as contracts see it.
pub struct ShutdownModel {
    pub kind: BackendKind,
    pub phase: ShutdownPhase,
    /// The first fatal error that the shutdown has met.
    pub outcome: Option<FatalError>,
}

impl ShutdownModel {
    /// The shutdown of a running session of the given kind.
    pub open spec fn initial(kind: BackendKind) -> ShutdownModel {
        ShutdownModel { kind, phase: ShutdownPhase::Running, outcome: None }
    }

    /// The shutdown flag: up while the session runs, down from then on.
    pub open spec fn flag(self) -> bool {
        self.phase is Running
    }

    /// The phases that a session of this kind passes through.
    pub open spec fn well_formed(self) -> bool {
        &&& (self.phase is FlagLowered ==> self.kind.spec_owns_feeder_thread())
        &&& (self.phase is FeederExited ==> self.kind.spec_owns_feeder_thread()
            && self.kind.spec_releases_after_feeder())
        &&& (self.phase is StreamStopped ==> !self.kind.spec_owns_feeder_thread())
    }

    /// What the driver does next.
    pub open spec fn step(self) -> ShutdownStep {
        match self.phase {
            ShutdownPhase::Running => if self.kind.spec_owns_feeder_thread() {
                ShutdownStep::LowerFlag
            } else {
                ShutdownStep::StopStream
            },
            ShutdownPhase::FlagLowered => ShutdownStep::JoinFeeder,
            ShutdownPhase::FeederExited => ShutdownStep::Release,
            ShutdownPhase::StreamStopped => ShutdownStep::Release,
            ShutdownPhase::Closed => ShutdownStep::Done,
        }
    }

    /// The flag was lowered.
    pub open spec fn flag_lowered(self) -> ShutdownModel {
        if self.step() is LowerFlag {
            ShutdownModel { phase: ShutdownPhase::FlagLowered, ..self }
        } else {
            self
        }
    }

    /// The feeder thread was joined; `result` is the fatal error that ended
    /// it, if one did.
    pub open spec fn feeder_joined(self, result: Option<FatalError>) -> ShutdownModel {
        if self.step() is JoinFeeder {
            ShutdownModel {
                phase: if self.kind.spec_releases_after_feeder() {
                    ShutdownPhase::FeederExited
                } else {
                    ShutdownPhase::Closed
                },
                outcome: first_error(self.outcome, result),
                ..self
            }
        } else {
            self
        }
    }

    /// The native stream was stopped.
    pub open spec fn stream_stopped(self) -> ShutdownModel {
        if self.step() is StopStream {
            ShutdownModel { phase: ShutdownPhase::StreamStopped, ..self }
        } else {
            self
        }
    }

    /// The native resources were released, and `references_left` references
    /// were left on the device. Any that is left is a fatal error.
    pub open spec fn released(self, references_left: u32) -> ShutdownModel {
        if self.step() is Release {
            ShutdownModel {
                phase: ShutdownPhase::Closed,
                outcome: first_error(
                    self.outcome,
                    if references_left == 0 {
                        None
                    } else {
                        Some(FatalError::StillReferenced { count: references_left })
                    },
                ),
                ..self
            }
        } else {
            self
        }
    }

    /// The shutdown after a report. A report that the shutdown was not
    /// waiting for changes nothing.
    pub open spec fn after(self, report: ShutdownReport) -> ShutdownModel {
        match report {
            ShutdownReport::FlagLowered => self.flag_lowered(),
            ShutdownReport::FeederJoined { result } => self.feeder_joined(result),
            ShutdownReport::StreamStopped => self.stream_stopped(),
            ShutdownReport::Released { references_left } => self.released(references_left),
        }
    }

    /// The shutdown after its driver has done what the next step names and
    /// has reported it: `result` is how the feeder ended, `references_left`
    /// what the release left on the device.
    pub open spec fn carried_out(
        self,
        result: Option<FatalError>,
        references_left: u32,
    ) -> ShutdownModel {
        match self.step() {
            ShutdownStep::LowerFlag => self.flag_lowered(),
            ShutdownStep::JoinFeeder => self.feeder_joined(result),
            ShutdownStep::StopStream => self.stream_stopped(),
            ShutdownStep::Release => self.released(references_left),
            ShutdownStep::Done => self,
        }
    }

    /// The number of steps that are left before the shutdown is done.
    pub open spec fn steps_left(self) -> nat {
        match self.phase {
            ShutdownPhase::Running => if self.kind.spec_owns_feeder_thread()
                && self.kind.spec_releases_after_feeder() {
                3
            } else {
                2
            },
            ShutdownPhase::FlagLowered => if self.kind.spec_releases_after_feeder() {
                2
            } else {
                1
            },
            ShutdownPhase::FeederExited => 1,
            ShutdownPhase::StreamStopped => 1,
            ShutdownPhase::Closed => 0,
        }
    }
}

/// The shutdown of one session.
pub struct Shutdown {
    kind: BackendKind,
    phase: ShutdownPhase,
    outcome: Option<FatalError>,
}

impl View for Shutdown {
    type V = ShutdownModel;

    closed spec fn view(&self) -> ShutdownModel {
        ShutdownModel { kind: self.kind, phase: self.phase, outcome: self.outcome }
    }
}

impl Shutdown {
    #[verifier::type_invariant]
    spec fn inv(self) -> bool {
        self@.well_formed()
    }

    /// The shutdown of a running session of the given kind.
    pub fn new(kind: BackendKind) -> (s: Shutdown)
        ensures
            s@ == ShutdownModel::initial(kind),
    {
        Shutdown { kind, phase: ShutdownPhase::Running, outcome: None }
    }

    /// What the driver does next.
    pub fn step(&self) -> (step: ShutdownStep)
        ensures
            step == self@.step(),
            self@.well_formed(),
    {
        proof {
            use_type_invariant(self);
        }
        match self.phase {
            ShutdownPhase::Running => {
                if self.kind.owns_feeder_thread() {
                    ShutdownStep::LowerFlag
                } else {
                    ShutdownStep::StopStream
                }
            },
            ShutdownPhase::FlagLowered => ShutdownStep::JoinFeeder,
            ShutdownPhase::FeederExited => ShutdownStep::Release,
            ShutdownPhase::StreamStopped => ShutdownStep::Release,
            ShutdownPhase::Closed => ShutdownStep::Done,
        }
    }

    /// Whether the shutdown flag is still up.
    pub fn flag(&self) -> (up: bool)
        ensures
            up == self@.flag(),
    {
        match self.phase {
            ShutdownPhase::Running => true,
            _ => false,
        }
    }

    /// Whether nothing is left to do.
    pub fn is_done(&self) -> (done: bool)
        ensures
            done == (self@.phase is Closed),
            done == (self@.step() is Done),
    {
        match self.phase {
            ShutdownPhase::Closed => true,
            _ => false,
        }
    }

    /// The first fatal error that the shutdown has met: what the feeder
    /// ended with, or references left on a released device.
    pub fn outcome(&self) -> (e: Option<FatalError>)
        ensures
            e == self@.outcome,
    {
        self.outcome
    }

    /// Reports that the flag was lowered.
    pub fn flag_lowered(&mut self) -> (step: ShutdownStep)
        ensures
            final(self)@ == old(self)@.flag_lowered(),
            step == final(self)@.step(),
    {
        match self.step() {
            ShutdownStep::LowerFlag => {
                self.phase = ShutdownPhase::FlagLowered;
            },
            _ => {},
        }
        self.step()
    }

    /// Reports that the feeder thread was joined, with the fatal error that
    /// ended it, if one did.
    pub fn feeder_joined(&mut self, result: Option<FatalError>) -> (step: ShutdownStep)
        ensures
            final(self)@ == old(self)@.feeder_joined(result),
            step == final(self)@.step(),
    {
        match self.step() {
            ShutdownStep::JoinFeeder => {
                if self.outcome.is_none() {
                    self.outcome = result;
                }
                if self.kind.releases_after_feeder() {
                    self.phase = ShutdownPhase::FeederExited;
                } else {
                    self.phase = ShutdownPhase::Closed;
                }
            },
            _ => {},
        }
        self.step()
    }

    /// Reports that the native stream was stopped.
    pub fn stream_stopped(&mut self) -> (step: ShutdownStep)
        ensures
            final(self)@ == old(self)@.stream_stopped(),
            step == final(self)@.step(),
    {
        match self.step() {
            ShutdownStep::StopStream => {
                self.phase = ShutdownPhase::StreamStopped;
            },
            _ => {},
        }
        self.step()
    }

    /// Reports that the native resources were released, with the number of
    /// references that were left on the device.
    pub fn released(&mut self, references_left: u32) -> (step: ShutdownStep)
        ensures
            final(self)@ == old(self)@.released(references_left),
            step == final(self)@.step(),
    {
        match self.step() {
            ShutdownStep::Release => {
                if self.outcome.is_none() && references_left != 0 {
                    self.outcome = Some(FatalError::StillReferenced { count: references_left });
                }
                self.phase = ShutdownPhase::Closed;
            },
            _ => {},
        }
        self.step()
    }
}

/// The shutdown flag, once down, is never up again.
pub proof fn lemma_flag_never_rises(s: ShutdownModel, report: ShutdownReport)
    requires
        !s.flag(),
    ensures
        !s.after(report).flag(),
{
}

/// Every report keeps a shutdown well formed, and keeps its kind.
pub proof fn lemma_report_keeps_well_formed(s: ShutdownModel, report: ShutdownReport)
    requires
        s.well_formed(),
    ensures
        s.after(report).well_formed(),
        s.after(report).kind == s.kind,
{
}

/// Nothing is released before the feeder has gone: a shutdown asks for the
/// release only once the feeder thread was joined or, where the thread is
/// the native library's, once the stream was stopped.
pub proof fn lemma_release_follows_feeder(s: ShutdownModel)
    requires
        s.well_formed(),
        s.step() is Release,
    ensures
        s.phase is FeederExited || s.phase is StreamStopped,
        !s.flag(),
{
}

/// A shutdown ends: the report that it waits for brings it one step nearer
/// to the end, any other changes nothing, and it is done exactly when no
/// step is left.
pub proof fn lemma_shutdown_ends(s: ShutdownModel, report: ShutdownReport)
    requires
        s.well_formed(),
    ensures
        s.after(report) == s || s.after(report).steps_left() + 1 == s.steps_left(),
        s.steps_left() == 0 <==> s.step() is Done,
        s.steps_left() <= 3,
{
}

/// A fatal error that the shutdown has met stays: no later report replaces
/// it.
pub proof fn lemma_outcome_is_kept(s: ShutdownModel, report: ShutdownReport)
    requires
        s.outcome is Some,
    ensures
        s.after(report).outcome == s.outcome,
{
}

/// Closing a running session releases everything: a driver that does what
/// it is told three times over has lowered the flag, seen the feeder go and
/// released the device, whatever the kind of the session. What the close
/// has met on the way is its outcome: the error that ended the feeder, or
/// else the references that the release left.
pub proof fn lemma_close_releases_everything(
    kind: BackendKind,
    result: Option<FatalError>,
    references_left: u32,
)
    ensures
        ({
            let closed = ShutdownModel::initial(kind).carried_out(
                result,
                references_left,
            ).carried_out(result, references_left).carried_out(result, references_left);
            &&& closed.phase is Closed
            &&& closed.step() is Done
            &&& !closed.flag()
            &&& closed.outcome == first_error(
                if kind.spec_owns_feeder_thread() {
                    result
                } else {
                    None
                },
                if kind.spec_releases_after_feeder() && references_left != 0 {
                    Some(FatalError::StillReferenced { count: references_left })
                } else {
                    None
                },
            )
        }),
{
}

} // verus!
