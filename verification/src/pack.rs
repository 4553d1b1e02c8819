//! Moving field elements between buffers, word by word.

use vstd::prelude::*;

verus! {

/// What a buffer holds after eight words were written into it from `offset`
/// on: the words before and behind are as they were.
pub open spec fn overwritten(dst: Seq<u32>, offset: int, src: Seq<u32>) -> Seq<u32> {
    dst.subrange(0, offset) + src + dst.subrange(offset + 8, dst.len() as int)
}

/// Copies the eight words of `src` into `dst`, from word `offset` on. No
/// other word of `dst` changes.
pub fn copy_words<const N: usize>(dst: &mut [u32; N], offset: usize, src: &[u32; 8])
    requires
        offset + 8 <= N,
    ensures
        final(dst)@ == overwritten(old(dst)@, offset as int, src@),
{
    let mut i: usize = 0;
    while i < 8
        invariant
            i <= 8,
            offset + 8 <= N,
            dst@.len() == N,
            forall|k: int| 0 <= k < i ==> dst@[offset + k] == src@[k],
            forall|k: int| 0 <= k < N && !(offset <= k < offset + i) ==> dst@[k] == old(dst)@[k],
        decreases 8 - i,
    {
        dst[offset + i] = src[i];
        i += 1;
    }
    assert(dst@ =~= overwritten(old(dst)@, offset as int, src@));
}

/// Lays two field elements out as one region of sixteen words: `x` in words
/// 0 to 7, `y` in words 8 to 15.
pub fn concat_words(x: &[u32; 8], y: &[u32; 8]) -> (scratch: [u32; 16])
    ensures
        scratch@ == x@ + y@,
{
    let mut scratch: [u32; 16] = [0u32; 16];
    copy_words(&mut scratch, 0, x);
    copy_words(&mut scratch, 8, y);
    assert(scratch@ =~= x@ + y@);
    scratch
}

} // verus!
