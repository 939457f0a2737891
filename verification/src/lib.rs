//! A pull-based bridge between a sample producer and the default audio output
//! of the host.
//!
//! The crate holds the decisions of that bridge: which parameters a device
//! accepts, how a normalised sample becomes a native one, what each kind of
//! backend session asks of its native interface, and in which order a feeder
//! produces, converts, writes, recovers and stops. Every function states its
//! result in a contract that is proved.

pub mod backend;
pub mod callback;
pub mod convert;
pub mod device;
pub mod error;
pub mod interleave;
pub mod lockstep;
pub mod params;
pub mod polling;
pub mod shutdown;
pub mod streaming;

pub use backend::{BackendKind, Platform};
pub use device::OutputDevice;
pub use error::{CreateError, FatalError};
pub use params::{OutputDeviceParameters, ParameterError};

use backend::{backend_of, select_backend};
use vstd::prelude::*;

verus! {

/// What the creation of a device hands back, given how the native session
/// was opened: a handle that owns the session, or the reason why none was
/// acquired.
pub open spec fn creation_of<D, E>(opened: Result<D, E>, r: Result<
    OutputDevice<D>,
    CreateError<E>,
>) -> bool {
    match opened {
        Ok(session) => r is Ok && r->Ok_0.session() == Some(session) && r->Ok_0.fatal_error()
            is None,
        Err(e) => r == Err::<OutputDevice<D>, CreateError<E>>(CreateError::Acquisition(e)),
    }
}

/// Wraps an opened native session into a device handle. Where the session
/// could not be opened no handle exists, only the error.
pub fn finish_creation<D, E>(opened: Result<D, E>) -> (r: Result<OutputDevice<D>, CreateError<E>>)
    ensures
        creation_of(opened, r),
{
    match opened {
        Ok(session) => Ok(OutputDevice::new(session)),
        Err(e) => Err(CreateError::Acquisition(e)),
    }
}

/// Creates an output device for a platform.
///
/// The parameters are checked first, then the one kind of session that is
/// valid for the platform is selected, and `open` is called with that kind
/// and the parameters to acquire the native session. `open` is called at
/// most once, and not at all where the parameters are refused or the
/// platform has no backend.
pub fn run_output_device<D, E, F>(
    params: OutputDeviceParameters,
    platform: Platform,
    open: F,
) -> (r: Result<OutputDevice<D>, CreateError<E>>) where
    F: FnOnce(BackendKind, OutputDeviceParameters) -> Result<D, E>,

    requires
        params.is_valid() && backend_of(platform) is Some ==> open.requires(
            (backend_of(platform)->Some_0, params),
        ),
    ensures
        match (params.violation(), backend_of(platform)) {
            (Some(e), _) => r == Err::<OutputDevice<D>, CreateError<E>>(
                CreateError::Parameters(e),
            ),
            (None, None) => r == Err::<OutputDevice<D>, CreateError<E>>(
                CreateError::UnsupportedPlatform,
            ),
            (None, Some(kind)) => exists|opened: Result<D, E>|
                open.ensures((kind, params), opened) && creation_of(opened, r),
        },
{
    match params.validate() {
        Err(e) => Err(CreateError::Parameters(e)),
        Ok(_) => match select_backend(platform) {
            None => Err(CreateError::UnsupportedPlatform),
            Some(kind) => {
                let opened = open(kind, params);
                finish_creation(opened)
            },
        },
    }
}

} // verus!
