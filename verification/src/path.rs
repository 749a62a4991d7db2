use vstd::prelude::*;

use crate::error::Error;
use crate::error::ErrorKind;

verus! {

/// Whether a byte sequence is free of NUL bytes.
pub open spec fn spec_nul_free(bytes: Seq<u8>) -> bool {
    forall|i: int| 0 <= i < bytes.len() ==> bytes[i] != 0
}

/// Checks that a ROM path is representable in the native encoding.
///
/// The native core takes the path as a NUL-terminated C string, so the
/// path must be valid Unicode and must not contain a NUL byte.  The FFI
/// shell hands in the UTF-8 bytes of the path, or `None` where the
/// operating-system form of the path is not valid Unicode; this function
/// decides, and reports `InvalidPath` for every path it rejects.
/// Reports whether a byte sequence is free of NUL bytes.
pub fn bytes_nul_free(bytes: &[u8]) -> (b: bool)
    ensures
        b == spec_nul_free(bytes@),
{
    let mut i: usize = 0;
    while i < bytes.len()
        invariant
            0 <= i <= bytes@.len(),
            forall|j: int| 0 <= j < i ==> bytes@[j] != 0,
        decreases bytes@.len() - i,
    {
        if bytes[i] == 0 {
            return false;
        }
        i += 1;
    }
    true
}

pub fn check_path(path: Option<&[u8]>) -> (r: Result<(), Error>)
    ensures
        r is Ok <==> (path matches Some(bytes) && spec_nul_free(bytes@)),
        r matches Err(e) ==> e.spec_kind() == ErrorKind::InvalidPath,
{
    match path {
        None => Err(Error::new(ErrorKind::InvalidPath)),
        Some(bytes) => {
            if bytes_nul_free(bytes) {
                Ok(())
            } else {
                Err(Error::new(ErrorKind::InvalidPath))
            }
        },
    }
}

} // verus!
