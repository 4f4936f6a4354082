use vstd::prelude::*;
use rand::RngCore;

verus! {

/// Fills every byte of the buffer with random data (`rand::rng().fill_bytes`); only the
/// buffer's length is promised, the contents are whatever the thread-local generator gives.
#[verifier::external_body]
pub(crate) fn fill_random(buf: &mut Vec<u8>)
    ensures
        final(buf)@.len() == old(buf)@.len(),
{
    rand::rng().fill_bytes(buf.as_mut_slice());
}

} // verus!
