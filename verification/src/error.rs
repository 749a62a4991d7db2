use vstd::prelude::*;

verus! {

/// The ways in which an operation on the emulator binding can fail.
///
/// Every failure is reported synchronously to the caller; nothing is
/// retried internally.
#[derive(Clone, Copy, Debug, PartialEq, Eq, Structural)]
pub enum ErrorKind {
    /// A second instance was requested while one is live.
    AlreadyActive,
    /// The ROM path cannot be represented in the native encoding.
    InvalidPath,
    /// The native core rejected the ROM during initialization.
    InitFailed,
    /// The native core rejected the snapshot buffer on restore.
    LoadFailed,
    /// The native core failed to capture state into the snapshot buffer.
    SaveFailed,
    /// The native core rejected the requested audio sample rate.
    UnsupportedFrequency,
}

/// A typed failure of the emulator binding.
#[derive(Clone, Copy, Debug)]
pub struct Error {
    kind: ErrorKind,
}

impl Error {
    /// Which failure this error reports.
    pub closed spec fn spec_kind(self) -> ErrorKind {
        self.kind
    }

    /// Builds an error that reports the given failure.
    pub fn new(kind: ErrorKind) -> (e: Error)
        ensures
            e.spec_kind() == kind,
    {
        Error { kind }
    }

    /// Which failure this error reports.
    pub fn kind(&self) -> (k: ErrorKind)
        ensures
            k == self.spec_kind(),
    {
        self.kind
    }
}

/// Converts a status code of the native core into a typed result.
///
/// Throughout the native interface a status of zero means failure and any
/// other value means success; `on_failure` names the failure that the
/// calling operation reports.
pub fn status_to_result(status: i32, on_failure: ErrorKind) -> (r: Result<(), Error>)
    ensures
        r is Ok <==> status != 0,
        r matches Err(e) ==> e.spec_kind() == on_failure,
{
    if status == 0 {
        Err(Error::new(on_failure))
    } else {
        Ok(())
    }
}

} // verus!
