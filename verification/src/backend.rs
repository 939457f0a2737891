//! The kinds of backend session and the choice of one for a platform.

use vstd::prelude::*;

verus! {

/// The kinds of backend session. Each stands for one family of native
/// playback interfaces.
#[derive(Copy, Clone, Debug, PartialEq, Eq, Structural)]
pub enum BackendKind {
    /// A hardware ring of two halves, each with a completion signal; a
    /// feeder thread refills the half that has finished playing.
    LockStepDoubleBuffer,
    /// The native library runs its own thread and calls back once per period.
    FreeRunningCallback,
    /// A blocking "write N frames" call, driven by a feeder thread that
    /// recovers from underruns.
    PollingFeeder,
    /// A native event loop that the feeder thread pumps and that asks for
    /// data through write requests.
    StreamingWriteAhead,
}

impl BackendKind {
    /// Whether a session of this kind owns a feeder thread. Where it does
    /// not, the thread belongs to the native library.
    pub open spec fn spec_owns_feeder_thread(self) -> bool {
        !(self is FreeRunningCallback)
    }

    /// Whether the native resources of a session of this kind are left to
    /// release once its feeder has gone. Where they are not, the feeder
    /// thread holds them and has released them by the time it exits.
    pub open spec fn spec_releases_after_feeder(self) -> bool {
        !(self is StreamingWriteAhead)
    }

    /// Whether a session of this kind owns a feeder thread.
    #[verifier::when_used_as_spec(spec_owns_feeder_thread)]
    pub fn owns_feeder_thread(self) -> (b: bool)
        ensures
            b == self.spec_owns_feeder_thread(),
    {
        match self {
            BackendKind::FreeRunningCallback => false,
            _ => true,
        }
    }

    /// Whether native resources are left to release once the feeder has gone.
    #[verifier::when_used_as_spec(spec_releases_after_feeder)]
    pub fn releases_after_feeder(self) -> (b: bool)
        ensures
            b == self.spec_releases_after_feeder(),
    {
        match self {
            BackendKind::StreamingWriteAhead => false,
            _ => true,
        }
    }
}

/// The platforms that a device can be asked for.
#[derive(Copy, Clone, Debug, PartialEq, Eq, Structural)]
pub enum Platform {
    Windows,
    Android,
    /// Linux has two backends; the fields say which of them are available.
    /// Where both are, the polling one is taken.
    Linux { polling: bool, streaming: bool },
    MacOs,
    Ios,
    /// A browser, reached from WebAssembly.
    Web,
    /// Any other platform: none has a backend.
    Other,
}

/// The kind of session that a platform gets, if it gets one.
pub open spec fn backend_of(platform: Platform) -> Option<BackendKind> {
    match platform {
        Platform::Windows => Some(BackendKind::LockStepDoubleBuffer),
        Platform::Android => Some(BackendKind::FreeRunningCallback),
        Platform::Linux { polling, streaming } => if polling {
            Some(BackendKind::PollingFeeder)
        } else if streaming {
            Some(BackendKind::StreamingWriteAhead)
        } else {
            None
        },
        Platform::MacOs => Some(BackendKind::FreeRunningCallback),
        Platform::Ios => Some(BackendKind::FreeRunningCallback),
        Platform::Web => Some(BackendKind::FreeRunningCallback),
        Platform::Other => None,
    }
}

/// Selects the one kind of session that is valid for a platform.
pub fn select_backend(platform: Platform) -> (kind: Option<BackendKind>)
    ensures
        kind == backend_of(platform),
{
    match platform {
        Platform::Windows => Some(BackendKind::LockStepDoubleBuffer),
        Platform::Android => Some(BackendKind::FreeRunningCallback),
        Platform::Linux { polling, streaming } => {
            if polling {
                Some(BackendKind::PollingFeeder)
            } else if streaming {
                Some(BackendKind::StreamingWriteAhead)
            } else {
                None
            }
        },
        Platform::MacOs => Some(BackendKind::FreeRunningCallback),
        Platform::Ios => Some(BackendKind::FreeRunningCallback),
        Platform::Web => Some(BackendKind::FreeRunningCallback),
        Platform::Other => None,
    }
}

} // verus!
