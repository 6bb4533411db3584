//! Byte-level text helpers shared by the parsers.
//!
//! The control channel and the playlist format are ASCII line- and
//! token-oriented, so everything here works on plain bytes: finding a
//! byte, trimming whitespace, lowering ASCII case, splitting into
//! whitespace-separated tokens. Each helper's meaning is a spec function
//! over `Seq<u8>`, and the executable code is proved to match it.

use vstd::prelude::*;

verus! {

/// ASCII whitespace as the tokenizer understands it.
pub open spec fn spec_is_ws(b: u8) -> bool {
    b == 32 || b == 9 || b == 13 || b == 10
}

/// Whether `b` is an ASCII whitespace byte.
pub fn is_ws_byte(b: u8) -> (r: bool)
    ensures
        r == spec_is_ws(b),
{
    b == 32 || b == 9 || b == 13 || b == 10
}

/// Index of the first occurrence of `b` in `s`, or `-1` if there is none.
pub open spec fn spec_find(s: Seq<u8>, b: u8) -> int
    decreases s.len(),
{
    if s.len() == 0 {
        -1
    } else if s[0] == b {
        0
    } else {
        let r = spec_find(s.skip(1), b);
        if r == -1 {
            -1
        } else {
            r + 1
        }
    }
}

/// `spec_find` returns the least index holding `b`, or `-1` when `b` does
/// not occur.
pub proof fn lemma_find_props(s: Seq<u8>, b: u8)
    ensures
        spec_find(s, b) == -1 || 0 <= spec_find(s, b) < s.len(),
        spec_find(s, b) == -1 ==> forall|j: int| 0 <= j < s.len() ==> s[j] != b,
        spec_find(s, b) >= 0 ==> spec_find(s, b) < s.len() && s[spec_find(s, b)] == b && (forall|
            j: int,
        |
            0 <= j < spec_find(s, b) ==> s[j] != b),
    decreases s.len(),
{
    if s.len() == 0 {
    } else if s[0] == b {
    } else {
        lemma_find_props(s.skip(1), b);
        let r = spec_find(s.skip(1), b);
        if r == -1 {
            assert forall|j: int| 0 <= j < s.len() implies s[j] != b by {
                if j > 0 {
                    assert(s.skip(1)[j - 1] == s[j]);
                }
            }
        } else {
            assert(s[r + 1] == s.skip(1)[r]);
            assert forall|j: int| 0 <= j < r + 1 implies s[j] != b by {
                if j > 0 {
                    assert(s.skip(1)[j - 1] == s[j]);
                }
            }
        }
    }
}

/// First index of `b` in `s`, as an executable search.
pub fn find_byte(s: &[u8], b: u8) -> (r: Option<usize>)
    ensures
        match r {
            Some(i) => i == spec_find(s@, b) && i < s@.len() && s@[i as int] == b,
            None => spec_find(s@, b) == -1,
        },
{
    let mut i: usize = 0;
    while i < s.len()
        invariant
            i <= s@.len(),
            forall|j: int| 0 <= j < i ==> s@[j] != b,
        decreases s@.len() - i,
    {
        if s[i] == b {
            proof {
                lemma_find_props(s@, b);
                let f = spec_find(s@, b);
                if f == -1 {
                    assert(s@[i as int] != b);  // contradiction
                }
                if f < i {
                    assert(s@[f] != b);  // contradiction with the least-index fact
                }
                if f > i {
                    assert(s@[i as int] != b);  // contradiction
                }
            }
            return Some(i);
        }
        i = i + 1;
    }
    proof {
        lemma_find_props(s@, b);
        let f = spec_find(s@, b);
        if f >= 0 {
            assert(s@[f] != b);  // contradiction: every index was visited
        }
    }
    None
}

/// `s` without its leading ASCII whitespace.
pub open spec fn spec_ltrim(s: Seq<u8>) -> Seq<u8>
    decreases s.len(),
{
    if s.len() > 0 && spec_is_ws(s[0]) {
        spec_ltrim(s.skip(1))
    } else {
        s
    }
}

/// `s` without its trailing ASCII whitespace.
pub open spec fn spec_rtrim(s: Seq<u8>) -> Seq<u8>
    decreases s.len(),
{
    if s.len() > 0 && spec_is_ws(s[s.len() - 1]) {
        spec_rtrim(s.take(s.len() - 1))
    } else {
        s
    }
}

/// `s` without leading or trailing ASCII whitespace.
pub open spec fn spec_trim(s: Seq<u8>) -> Seq<u8> {
    spec_rtrim(spec_ltrim(s))
}

/// Trim ASCII whitespace from both ends of a byte slice.
pub fn trim_bytes<'a>(s: &'a [u8]) -> (r: &'a [u8])
    ensures
        r@ == spec_trim(s@),
{
    proof {
        assert(s@.skip(0) =~= s@);
    }
    let mut lo: usize = 0;
    while lo < s.len() && is_ws_byte(s[lo])
        invariant
            lo <= s@.len(),
            spec_ltrim(s@) == spec_ltrim(s@.skip(lo as int)),
        decreases s@.len() - lo,
    {
        proof {
            assert(s@.skip(lo as int)[0] == s@[lo as int]);
            assert(s@.skip(lo as int).skip(1) =~= s@.skip(lo + 1));
        }
        lo = lo + 1;
    }
    proof {
        if lo < s@.len() {
            assert(s@.skip(lo as int)[0] == s@[lo as int]);
        }
        assert(spec_ltrim(s@) == s@.skip(lo as int));
        assert(s@.subrange(lo as int, s@.len() as int) =~= s@.skip(lo as int));
    }
    let mut hi: usize = s.len();
    while hi > lo && is_ws_byte(s[hi - 1])
        invariant
            lo <= hi <= s@.len(),
            spec_rtrim(s@.skip(lo as int)) == spec_rtrim(s@.subrange(lo as int, hi as int)),
        decreases hi,
    {
        proof {
            let cur = s@.subrange(lo as int, hi as int);
            assert(cur[cur.len() - 1] == s@[hi - 1]);
            assert(cur.take(cur.len() - 1) =~= s@.subrange(lo as int, hi - 1));
        }
        hi = hi - 1;
    }
    proof {
        let cur = s@.subrange(lo as int, hi as int);
        if hi > lo {
            assert(cur[cur.len() - 1] == s@[hi - 1]);
            assert(!spec_is_ws(cur[cur.len() - 1]));
        }
        assert(spec_rtrim(cur) == cur);
    }
    vstd::slice::slice_subrange(s, lo, hi)
}

/// `s` with every ASCII capital letter lowered.
pub open spec fn spec_lower(s: Seq<u8>) -> Seq<u8> {
    s.map(|_i: int, b: u8| if 65 <= b <= 90 { (b + 32) as u8 } else { b })
}

/// Lower the ASCII case of every byte.
pub fn lower_bytes(s: &[u8]) -> (r: Vec<u8>)
    ensures
        r@ == spec_lower(s@),
{
    let mut out: Vec<u8> = Vec::new();
    proof {
        assert(out@ =~= spec_lower(s@.take(0)));
    }
    let mut i: usize = 0;
    while i < s.len()
        invariant
            i <= s@.len(),
            out@ == spec_lower(s@.take(i as int)),
        decreases s@.len() - i,
    {
        let b = s[i];
        let lowered: u8 = if 65 <= b && b <= 90 {
            b + 32
        } else {
            b
        };
        out.push(lowered);
        proof {
            assert(out@ =~= spec_lower(s@.take(i + 1)));
        }
        i = i + 1;
    }
    proof {
        assert(s@.take(s@.len() as int) =~= s@);
    }
    out
}

/// Whether two byte slices hold the same bytes.
pub fn bytes_eq(a: &[u8], b: &[u8]) -> (r: bool)
    ensures
        r == (a@ == b@),
{
    if a.len() != b.len() {
        proof {
            assert(a@ != b@);
        }
        return false;
    }
    let mut i: usize = 0;
    while i < a.len()
        invariant
            i <= a@.len(),
            a@.len() == b@.len(),
            forall|j: int| 0 <= j < i ==> a@[j] == b@[j],
        decreases a@.len() - i,
    {
        if a[i] != b[i] {
            proof {
                assert(a@ != b@);
            }
            return false;
        }
        i = i + 1;
    }
    proof {
        assert(a@ =~= b@);
    }
    true
}

/// Index of the first ASCII whitespace byte in `s`, or `-1` if none.
pub open spec fn spec_find_ws(s: Seq<u8>) -> int
    decreases s.len(),
{
    if s.len() == 0 {
        -1
    } else if spec_is_ws(s[0]) {
        0
    } else {
        let r = spec_find_ws(s.skip(1));
        if r == -1 {
            -1
        } else {
            r + 1
        }
    }
}

/// `spec_find_ws` returns the least whitespace index, or `-1` when `s`
/// holds no whitespace.
pub proof fn lemma_find_ws_props(s: Seq<u8>)
    ensures
        spec_find_ws(s) == -1 || 0 <= spec_find_ws(s) < s.len(),
        spec_find_ws(s) == -1 ==> forall|j: int| 0 <= j < s.len() ==> !spec_is_ws(s[j]),
        spec_find_ws(s) >= 0 ==> spec_find_ws(s) < s.len() && spec_is_ws(s[spec_find_ws(s)]) && (
        forall|j: int| 0 <= j < spec_find_ws(s) ==> !spec_is_ws(s[j])),
    decreases s.len(),
{
    if s.len() == 0 {
    } else if spec_is_ws(s[0]) {
    } else {
        lemma_find_ws_props(s.skip(1));
        let r = spec_find_ws(s.skip(1));
        if r == -1 {
            assert forall|j: int| 0 <= j < s.len() implies !spec_is_ws(s[j]) by {
                if j > 0 {
                    assert(s.skip(1)[j - 1] == s[j]);
                }
            }
        } else {
            assert(s[r + 1] == s.skip(1)[r]);
            assert forall|j: int| 0 <= j < r + 1 implies !spec_is_ws(s[j]) by {
                if j > 0 {
                    assert(s.skip(1)[j - 1] == s[j]);
                }
            }
        }
    }
}

/// The whitespace-separated tokens of `s`, in order.
pub open spec fn spec_tokens(s: Seq<u8>) -> Seq<Seq<u8>>
    decreases s.len(),
    via spec_tokens_decreases
{
    if s.len() == 0 {
        Seq::empty()
    } else if spec_is_ws(s[0]) {
        spec_tokens(s.skip(1))
    } else {
        let e = spec_find_ws(s);
        if e == -1 {
            seq![s]
        } else {
            seq![s.take(e)] + spec_tokens(s.skip(e))
        }
    }
}

#[via_fn]
proof fn spec_tokens_decreases(s: Seq<u8>) {
    if s.len() > 0 && !spec_is_ws(s[0]) {
        lemma_find_ws_props(s);
        let e = spec_find_ws(s);
        if e >= 0 {
            assert(e != 0);
            assert(s.skip(e).len() < s.len());
        }
    }
}

/// Every byte of `s` is plain ASCII.
pub open spec fn spec_all_ascii(s: Seq<u8>) -> bool {
    forall|i: int| 0 <= i < s.len() ==> s[i] < 128
}

/// Whether every byte of `s` is plain ASCII.
pub fn all_ascii(s: &[u8]) -> (r: bool)
    ensures
        r == spec_all_ascii(s@),
{
    let mut i: usize = 0;
    while i < s.len()
        invariant
            i <= s@.len(),
            forall|j: int| 0 <= j < i ==> s@[j] < 128,
        decreases s@.len() - i,
    {
        if s[i] >= 128 {
            return false;
        }
        i = i + 1;
    }
    true
}

/// Relies on `String::from_utf8_lossy`: bytes that are valid UTF-8 pass
/// through unchanged, and ASCII bytes decode to one character each.
#[verifier::external_body]
pub fn ascii_bytes_to_string(b: &[u8]) -> (r: String)
    requires
        spec_all_ascii(b@),
    ensures
        r@.len() == b@.len(),
        forall|i: int| 0 <= i < b@.len() ==> r@[i] == b@[i] as char,
{
    String::from_utf8_lossy(b).into_owned()
}

/// Split off the first whitespace-separated token: the token's bytes and
/// everything after it, or `None` when only whitespace is left.
pub fn next_token<'a>(s: &'a [u8]) -> (r: Option<(&'a [u8], &'a [u8])>)
    ensures
        match r {
            None => spec_tokens(s@).len() == 0,
            Some((tok, rest)) => spec_tokens(s@).len() > 0 && tok@ == spec_tokens(s@)[0]
                && spec_tokens(rest@) == spec_tokens(s@).skip(1) && tok@.len() > 0 && (forall|
                j: int,
            |
                0 <= j < tok@.len() ==> !spec_is_ws(tok@[j])),
        },
{
    proof {
        assert(s@.skip(0) =~= s@);
    }
    let mut lo: usize = 0;
    while lo < s.len() && is_ws_byte(s[lo])
        invariant
            lo <= s@.len(),
            spec_tokens(s@) == spec_tokens(s@.skip(lo as int)),
        decreases s@.len() - lo,
    {
        proof {
            assert(s@.skip(lo as int)[0] == s@[lo as int]);
            assert(s@.skip(lo as int).skip(1) =~= s@.skip(lo + 1));
        }
        lo = lo + 1;
    }
    if lo == s.len() {
        proof {
            assert(s@.skip(lo as int) =~= Seq::<u8>::empty());
        }
        return None;
    }
    let mut hi: usize = lo;
    while hi < s.len() && !is_ws_byte(s[hi])
        invariant
            lo <= hi <= s@.len(),
            lo < s@.len(),
            !spec_is_ws(s@[lo as int]),
            forall|j: int| lo <= j < hi ==> !spec_is_ws(s@[j]),
        decreases s@.len() - hi,
    {
        hi = hi + 1;
    }
    let tok = vstd::slice::slice_subrange(s, lo, hi);
    let rest = vstd::slice::slice_subrange(s, hi, s.len());
    proof {
        assert(hi > lo);  // the first byte was not whitespace, so the loop advanced
        let tail = s@.skip(lo as int);
        lemma_find_ws_props(tail);
        let e = spec_find_ws(tail);
        assert(tail[0] == s@[lo as int]);
        assert forall|k: int| 0 <= k < hi - lo implies !spec_is_ws(tail[k]) by {
            assert(tail[k] == s@[lo + k]);
        }
        if hi < s@.len() {
            // the token stops at the least whitespace byte of the tail
            assert(tail[hi - lo] == s@[hi as int]);
            assert(spec_is_ws(tail[hi - lo]));
            if e == -1 {
                assert(!spec_is_ws(tail[hi - lo]));  // contradiction
            }
            if e < hi - lo {
                assert(!spec_is_ws(tail[e]));  // contradiction with the least index
            }
            if e > hi - lo {
                assert(!spec_is_ws(tail[hi - lo]));  // contradiction
            }
            assert(e == hi - lo);
            assert(tail.take(e) =~= tok@);
            assert(tail.skip(e) =~= rest@);
            assert(spec_tokens(s@) == seq![tok@] + spec_tokens(rest@));
            assert((seq![tok@] + spec_tokens(rest@)).skip(1) =~= spec_tokens(rest@));
        } else {
            // the token runs to the end of the input
            if e >= 0 {
                assert(!spec_is_ws(tail[e]));  // contradiction: no whitespace remains
            }
            assert(e == -1);
            assert(tail =~= tok@);
            assert(rest@ =~= Seq::<u8>::empty());
            assert(spec_tokens(s@) == seq![tok@]);
            assert(seq![tok@].skip(1) =~= Seq::<Seq<u8>>::empty());
        }
    }
    Some((tok, rest))
}

} // verus!