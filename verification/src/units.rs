//! Byte quantities, for sizing stdin payloads and buffers against the
//! operating system's pipe sizes.

use vstd::prelude::*;

verus! {

/// How many bytes one mebibyte holds.
pub const BYTES_PER_MIB: usize = 0x100000;

/// The number of bytes in the given number of mebibytes.
pub fn from_mib(mebibytes: usize) -> (result: usize)
    requires
        mebibytes * 0x100000 <= usize::MAX,
    ensures
        result == mebibytes * 0x100000,
{
    mebibytes * BYTES_PER_MIB
}

} // verus!
