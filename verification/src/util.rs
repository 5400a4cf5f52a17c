//! Small verified helpers on byte slices and byte vectors.

use vstd::prelude::*;

verus! {

/// Compare two byte slices for equality.
pub fn bytes_eq(a: &[u8], b: &[u8]) -> (r: bool)
    ensures
        r == (a@ == b@),
{
    if a.len() != b.len() {
        proof {
            assert(a@ != b@);
        }
        return false;
    }
    let n = a.len();
    let mut i: usize = 0;
    let mut same: bool = true;
    while i < n
        invariant
            i <= n,
            a@.len() == n,
            b@.len() == n,
            same == (forall|j: int| 0 <= j < i ==> a@[j] == #[trigger] b@[j]),
        decreases n - i,
    {
        if a[i] != b[i] {
            same = false;
        }
        i = i + 1;
    }
    proof {
        if same {
            assert(a@ =~= b@);
        } else {
            if a@ == b@ {
                assert(forall|j: int| 0 <= j < n ==> a@[j] == #[trigger] b@[j]);
            }
        }
    }
    same
}

/// What stripping a literal prefix and a literal suffix leaves of `s`:
/// each is removed exactly once, and only when present.
pub open spec fn spec_strip_wrapper(s: Seq<u8>, pre: Seq<u8>, suf: Seq<u8>) -> Seq<u8> {
    let t = if s.len() >= pre.len() && s.take(pre.len() as int) == pre {
        s.skip(pre.len() as int)
    } else {
        s
    };
    if t.len() >= suf.len() && t.skip(t.len() - suf.len()) == suf {
        t.take(t.len() - suf.len())
    } else {
        t
    }
}

/// Strip a literal prefix and a literal suffix, each once and only when
/// present. The vault's JS-framed files are unwrapped with this; the
/// remainder is parsed as strict JSON, never evaluated.
pub fn strip_wrapper(s: &[u8], pre: &[u8], suf: &[u8]) -> (r: Vec<u8>)
    ensures
        r@ == spec_strip_wrapper(s@, pre@, suf@),
{
    let mut from: usize = 0;
    let to: usize = s.len();
    if s.len() >= pre.len() && bytes_eq(vstd::slice::slice_subrange(s, 0, pre.len()), pre) {
        proof {
            assert(s@.subrange(0, pre@.len() as int) =~= s@.take(pre@.len() as int));
        }
        from = pre.len();
    }
    let ghost t = if s@.len() >= pre@.len() && s@.take(pre@.len() as int) == pre@ {
        s@.skip(pre@.len() as int)
    } else {
        s@
    };
    proof {
        assert(t =~= s@.subrange(from as int, s@.len() as int));
    }
    let mut end: usize = to;
    if to - from >= suf.len() {
        proof {
            assert(s@.subrange(to - suf@.len(), to as int) =~= t.skip(t.len() - suf@.len()));
        }
        if bytes_eq(vstd::slice::slice_subrange(s, to - suf.len(), to), suf) {
            end = to - suf.len();
        }
    }
    let r = subvec(s, from, end);
    proof {
        if t.len() >= suf@.len() && t.skip(t.len() - suf@.len()) == suf@ {
            assert(r@ =~= t.take(t.len() - suf@.len()));
        } else {
            assert(r@ =~= t);
        }
    }
    r
}

/// Copy the bytes `[from, to)` of a slice into a fresh vector.
pub fn subvec(s: &[u8], from: usize, to: usize) -> (r: Vec<u8>)
    requires
        from <= to <= s@.len(),
    ensures
        r@ == s@.subrange(from as int, to as int),
{
    vstd::slice::slice_to_vec(vstd::slice::slice_subrange(s, from, to))
}

} // verus!
