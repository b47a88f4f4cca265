use vstd::prelude::*;

verus! {

/// `r` written over a buffer of `len` entries, the rest set to `zero`.
pub open spec fn padded<R>(r: Seq<R>, zero: R, len: nat) -> Seq<R> {
    Seq::new(len, |i: int| if i < r.len() { r[i] } else { zero })
}

/// A buffer of `len` entries, each `zero`.
pub fn filled<R: Copy>(len: usize, zero: R) -> (r: Vec<R>)
    ensures
        r@ == Seq::new(len as nat, |i: int| zero),
{
    let mut v: Vec<R> = Vec::with_capacity(len);
    let mut i: usize = 0;
    while i < len
        invariant
            i <= len,
            v@ == Seq::new(i as nat, |j: int| zero),
        decreases len - i,
    {
        v.push(zero);
        i = i + 1;
        assert(v@ =~= Seq::new(i as nat, |j: int| zero));
    }
    v
}

/// Copies `src` to the front of `dst` and fills the rest of `dst` with
/// `zero`; `dst` keeps its length.
pub fn copy_and_pad<R: Copy>(dst: &mut Vec<R>, src: &[R], zero: R)
    requires
        src@.len() <= old(dst)@.len(),
    ensures
        final(dst)@ == padded(src@, zero, old(dst)@.len()),
{
    let n = dst.len();
    let mut i: usize = 0;
    while i < n
        invariant
            i <= n,
            n == dst@.len(),
            n == old(dst)@.len(),
            src@.len() <= n,
            forall|j: int| 0 <= j < i ==> dst@[j] == padded(src@, zero, n as nat)[j],
        decreases n - i,
    {
        if i < src.len() {
            dst.set(i, src[i]);
        } else {
            dst.set(i, zero);
        }
        i = i + 1;
    }
    assert(dst@ =~= padded(src@, zero, n as nat));
}

} // verus!
