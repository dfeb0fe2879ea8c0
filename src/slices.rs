use vstd::prelude::*;

verus! {

/// The byte that the mutable-slice export writes into its argument.
pub const MARK: u8 = 1;

/// Writes `MARK` into the first byte of a caller-owned buffer and leaves the
/// rest as it was; the write is seen by the caller after return.
pub fn mark_first_byte(bytes: &mut [u8])
    requires
        old(bytes)@.len() > 0,
    ensures
        final(bytes)@ == old(bytes)@.update(0, MARK),
{
    bytes[0] = MARK;
}

} // verus!
