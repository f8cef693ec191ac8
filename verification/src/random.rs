//! Random bytes.

use vstd::prelude::*;

verus! {

/// Calls `rand::random` for thirty-two bytes from the generator of the
/// thread, which the system seeds. Nothing is known of them.
#[verifier::external_body]
pub(crate) fn random_bytes() -> (bytes: [u8; 32]) {
    rand::random()
}

/// The first twelve of thirty-two bytes.
pub(crate) fn first_twelve(bytes: &[u8; 32]) -> (head: [u8; 12])
    ensures
        head@ == bytes@.subrange(0, 12),
{
    let mut head = [0u8;12];
    let mut i: usize = 0;
    while i < 12
        invariant
            i <= 12,
            forall|j: int| 0 <= j < i ==> head@[j] == bytes@[j],
        decreases 12 - i,
    {
        head[i] = bytes[i];
        i = i + 1;
    }
    assert(head@ =~= bytes@.subrange(0, 12));
    head
}

} // verus!
