//! Variable-length fields: bytes that end with the first `NUL`.

use vstd::prelude::*;
use crate::consts::NUL;

verus! {

/// The number of bytes before the first `NUL` of `s`; the length of `s` if it holds none.
pub open spec fn nul_at(s: Seq<u8>) -> nat
    decreases s.len(),
{
    if s.len() == 0 {
        0
    } else if s[0] == NUL {
        0
    } else {
        1 + nul_at(s.drop_first())
    }
}

/// Whether `s` holds no `NUL`.
pub open spec fn nul_free(s: Seq<u8>) -> bool {
    forall|i: int| 0 <= i < s.len() ==> s[i] != NUL
}

/// What reading `s` up to and including the first `NUL` returns: the bytes through that
/// `NUL`, or all of `s` if it holds none.
pub open spec fn through_nul(s: Seq<u8>) -> Seq<u8> {
    if nul_at(s) < s.len() {
        s.take(nul_at(s) as int + 1)
    } else {
        s
    }
}

/// The first `NUL` lies within the sequence or just past it, and no byte before it is `NUL`.
pub proof fn lemma_nul_at(s: Seq<u8>)
    ensures
        nul_at(s) <= s.len(),
        nul_at(s) < s.len() ==> s[nul_at(s) as int] == NUL,
        forall|i: int| 0 <= i < nul_at(s) ==> s[i] != NUL,
    decreases s.len(),
{
    if s.len() > 0 && s[0] != NUL {
        let t = s.drop_first();
        lemma_nul_at(t);
        assert forall|i: int| 0 <= i < nul_at(s) implies s[i] != NUL by {
            if i > 0 {
                assert(s[i] == t[i - 1]);
            }
        }
    }
}

/// The first `NUL` of `s` is at `k` when `s[k]` is `NUL` and no earlier byte is.
pub proof fn lemma_nul_at_is(s: Seq<u8>, k: int)
    requires
        0 <= k <= s.len(),
        forall|i: int| 0 <= i < k ==> s[i] != NUL,
        k < s.len() ==> s[k] == NUL,
    ensures
        nul_at(s) == k,
    decreases s.len(),
{
    if s.len() > 0 && k > 0 {
        let t = s.drop_first();
        assert(s[0] != NUL);
        assert forall|i: int| 0 <= i < k - 1 implies t[i] != NUL by {
            assert(t[i] == s[i + 1]);
        }
        lemma_nul_at_is(t, k - 1);
    }
}

/// A field written as `body`, `NUL`, then anything is read back as `body` and its `NUL`.
pub proof fn lemma_through_nul_of_field(body: Seq<u8>, rest: Seq<u8>)
    requires
        nul_free(body),
    ensures
        through_nul(body + seq![NUL] + rest) == body + seq![NUL],
        through_nul(body + seq![NUL] + rest).len() == body.len() + 1,
{
    let s = body + seq![NUL] + rest;
    let k = body.len() as int;
    assert(s[k] == NUL);
    assert forall|i: int| 0 <= i < k implies s[i] != NUL by {
        assert(s[i] == body[i]);
    }
    lemma_nul_at_is(s, k);
    assert(s.take(k + 1) =~= body + seq![NUL]);
}

/// Whether `bytes` holds no `NUL`.
pub fn is_nul_free(bytes: &[u8]) -> (b: bool)
    ensures
        b == nul_free(bytes@),
{
    let mut i: usize = 0;
    while i < bytes.len()
        invariant
            i <= bytes.len(),
            forall|j: int| 0 <= j < i ==> bytes@[j] != NUL,
        decreases bytes.len() - i,
    {
        if bytes[i] == NUL {
            return false;
        }
        i = i + 1;
    }
    true
}

/// The length of the field that starts at `from`: the number of bytes from there through
/// the first `NUL`, or to the end of `bytes` if no `NUL` follows.
pub fn field_len(bytes: &[u8], from: usize) -> (n: usize)
    requires
        from <= bytes@.len(),
    ensures
        n == through_nul(bytes@.skip(from as int)).len(),
        from + n <= bytes@.len(),
{
    let ghost s = bytes@.skip(from as int);
    let mut i: usize = from;
    while i < bytes.len()
        invariant
            from <= i <= bytes.len(),
            s == bytes@.skip(from as int),
            forall|j: int| 0 <= j < i - from ==> s[j] != NUL,
        decreases bytes.len() - i,
    {
        if bytes[i] == NUL {
            proof {
                assert(s[i - from] == NUL);
                lemma_nul_at_is(s, i - from);
            }
            return i - from + 1;
        }
        i = i + 1;
    }
    proof {
        lemma_nul_at_is(s, s.len() as int);
    }
    i - from
}

} // verus!
