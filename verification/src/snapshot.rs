use vstd::prelude::*;

use crate::lifecycle::Lifecycle;

verus! {

/// Ownership of one opaque native save-state buffer.
///
/// The buffer itself lives in the native core and is never inspected
/// here: saving overwrites its contents with the full emulator state,
/// loading restores the emulator from them, and both verdicts come back
/// as native status codes.  The FFI shell pairs each value of this type
/// with the native buffer it allocated and releases that buffer when the
/// owner is done.
#[derive(Debug)]
pub struct Snapshot {
    opaque: (),
}

/// Creates a save-state handle.
///
/// A snapshot may be created only while an instance is live; its lifetime
/// is otherwise independent of the instance.  Allocation failure of the
/// native buffer is unrecoverable and aborts the process, so creation
/// never reports an error.
pub fn snapshot_create(lc: &Lifecycle) -> (s: Snapshot)
    requires
        lc.is_live(),
{
    Snapshot { opaque: () }
}

} // verus!
