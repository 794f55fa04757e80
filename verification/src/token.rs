//! The shape of a bearer token: dot-separated segments, the second of which
//! carries the claims, and the scheme word that may stand in front of it.

use vstd::prelude::*;
use vstd::slice::{slice_subrange, slice_to_vec};
use vstd::string::StrSliceExecFns;

verus! {

/// The byte that separates the segments of a token.
pub const DOT: u8 = 0x2e;

/// How many bytes of `s` stand before its first dot: all of them where it
/// has none.
pub open spec fn head_len(s: Seq<u8>) -> int
    decreases s.len(),
{
    if s.len() == 0 || s[0] == DOT {
        0
    } else {
        1 + head_len(s.skip(1))
    }
}

/// The segments that the dots of `s` separate, in their order. A sequence
/// without a dot is one segment, the empty one too.
pub open spec fn segments(s: Seq<u8>) -> Seq<Seq<u8>>
    decreases s.len(),
{
    let n = head_len(s);
    if n >= s.len() {
        seq![s]
    } else {
        proof {
            lemma_head_len(s);
        }
        seq![s.take(n)] + segments(s.skip(n + 1))
    }
}

/// The second segment of `s`, which in a token holds the claims; `None`
/// where `s` has no dot.
pub open spec fn payload(s: Seq<u8>) -> Option<Seq<u8>> {
    let parts = segments(s);
    if parts.len() >= 2 {
        Some(parts[1])
    } else {
        None
    }
}

/// `Bearer` and a blank: the scheme word that may stand in front of a
/// token.
pub open spec fn scheme_word() -> Seq<char> {
    "Bearer "@
}

/// `value` without the scheme word in front, where it stands there.
pub open spec fn without_scheme(value: Seq<char>) -> Seq<char> {
    if scheme_word().is_prefix_of(value) {
        value.skip(scheme_word().len() as int)
    } else {
        value
    }
}

/// The index of the first dot of `s` at or behind `from`, the length of `s`
/// where none follows.
fn next_dot(s: &[u8], from: usize) -> (r: usize)
    requires
        from <= s.len(),
    ensures
        r == from + head_len(s@.skip(from as int)),
        r <= s.len(),
{
    let mut i: usize = from;
    while i < s.len() && s[i] != DOT
        invariant
            from <= i <= s.len(),
            from + head_len(s@.skip(from as int)) == i + head_len(s@.skip(i as int)),
        decreases s.len() - i,
    {
        proof {
            assert(s@.skip(i as int).skip(1) =~= s@.skip(i + 1));
        }
        i += 1;
    }
    i
}

/// The second dot-separated segment of `token`.
pub fn payload_segment(token: &[u8]) -> (r: Option<Vec<u8>>)
    ensures
        match r {
            Some(seg) => payload(token@) == Some(seg@),
            None => payload(token@) is None,
        },
{
    proof {
        assert(token@.skip(0) =~= token@);
    }
    let first = next_dot(token, 0);
    if first >= token.len() {
        return None;
    }
    let start = first + 1;
    let end = next_dot(token, start);
    proof {
        let rest = token@.skip(start as int);
        let n = head_len(rest);
        lemma_head_len(rest);
        assert(segments(rest)[0] == rest.take(n));
    }
    Some(slice_to_vec(slice_subrange(token, start, end)))
}

/// Takes the scheme word off the front of `value`.
pub fn strip_scheme(value: &str) -> (r: &str)
    ensures
        r@ == without_scheme(value@),
{
    let word = "Bearer ";
    proof {
        reveal_strlit("Bearer ");
    }
    let len = value.unicode_len();
    if len < 7 {
        return value;
    }
    let mut i: usize = 0;
    while i < 7
        invariant
            i <= 7 <= len,
            len == value@.len(),
            word@ == scheme_word(),
            word@.len() == 7,
            forall|j: int| 0 <= j < i ==> value@[j] == word@[j],
        decreases 7 - i,
    {
        if value.get_char(i) != word.get_char(i) {
            return value;
        }
        i += 1;
    }
    value.substring_char(7, len)
}

/// `head_len` counts exactly the bytes before the first dot.
pub proof fn lemma_head_len(s: Seq<u8>)
    ensures
        0 <= head_len(s) <= s.len(),
        forall|j: int| 0 <= j < head_len(s) ==> s[j] != DOT,
        head_len(s) < s.len() ==> s[head_len(s)] == DOT,
    decreases s.len(),
{
    if s.len() > 0 && s[0] != DOT {
        let t = s.skip(1);
        lemma_head_len(t);
        assert forall|j: int| 0 <= j < head_len(s) implies s[j] != DOT by {
            if j > 0 {
                assert(t[j - 1] == s[j]);
            }
        }
    }
}

/// A sequence without a dot has no dot before its end.
proof fn lemma_head_len_dot_free(s: Seq<u8>)
    requires
        forall|i: int| 0 <= i < s.len() ==> s[i] != DOT,
    ensures
        head_len(s) == s.len(),
{
    lemma_head_len(s);
}

/// A dot-free sequence in front of a dot is the first segment.
proof fn lemma_head_len_joined(head: Seq<u8>, tail: Seq<u8>)
    requires
        forall|i: int| 0 <= i < head.len() ==> head[i] != DOT,
    ensures
        head_len(head + seq![DOT] + tail) == head.len(),
{
    let s = head + seq![DOT] + tail;
    lemma_head_len(s);
    assert(s[head.len() as int] == DOT);
}

/// A token has a payload exactly where it holds a dot.
pub proof fn lemma_payload_needs_dot(s: Seq<u8>)
    ensures
        payload(s) is Some <==> exists|i: int| 0 <= i < s.len() && s[i] == DOT,
{
    lemma_head_len(s);
    let n = head_len(s);
    if n < s.len() {
        assert(segments(s.skip(n + 1)).len() >= 1);
    }
}

/// Of a dot-free head, a dot, a dot-free segment, and then nothing more or
/// a dot and anything, the payload is that segment.
pub proof fn lemma_payload_of_joined(head: Seq<u8>, segment: Seq<u8>, tail: Seq<u8>)
    requires
        forall|i: int| 0 <= i < head.len() ==> head[i] != DOT,
        forall|i: int| 0 <= i < segment.len() ==> segment[i] != DOT,
    ensures
        payload(head + seq![DOT] + segment) == Some(segment),
        payload(head + seq![DOT] + segment + seq![DOT] + tail) == Some(segment),
{
    let two = head + seq![DOT] + segment;
    lemma_head_len_joined(head, segment);
    assert(two.skip(head.len() as int + 1) =~= segment);
    lemma_head_len_dot_free(segment);
    assert(segments(two)[1] == segments(segment)[0]);

    let rest = segment + seq![DOT] + tail;
    let three = head + seq![DOT] + segment + seq![DOT] + tail;
    assert(three =~= head + seq![DOT] + rest);
    lemma_head_len_joined(head, rest);
    assert(three.skip(head.len() as int + 1) =~= rest);
    lemma_head_len_joined(segment, tail);
    assert(segments(three)[1] == segments(rest)[0]);
}

} // verus!
