//! Copying bytes into a fixed-size array.

use vstd::prelude::*;

verus! {

/// Copies `src` into `out` starting at position `at`, leaving the other
/// bytes of `out` unchanged.
pub fn copy_into_at<const N: usize>(out: &mut [u8; N], at: usize, src: &[u8])
    requires
        at + src@.len() <= N,
    ensures
        final(out)@ == old(out)@.subrange(0, at as int) + src@ + old(out)@.subrange(
            at + src@.len(),
            N as int,
        ),
{
    let ghost before = out@;
    let mut i: usize = 0;
    while i < src.len()
        invariant
            at + src@.len() <= N,
            i <= src@.len(),
            out@.len() == N,
            before.len() == N,
            forall|j: int| 0 <= j < at ==> out@[j] == before[j],
            forall|j: int| 0 <= j < i ==> out@[at + j] == src@[j],
            forall|j: int| at + src@.len() <= j < N ==> out@[j] == before[j],
        decreases src@.len() - i,
    {
        out[at + i] = src[i];
        i = i + 1;
    }
    assert(out@ =~= before.subrange(0, at as int) + src@ + before.subrange(at + src@.len(), N as int));
}

} // verus!
