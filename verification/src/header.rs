//! HTTP header names and values: which bytes they may hold, and the header
//! set that a list of configured headers leaves behind.

use crate::error::SupabaseError;
use std::str::FromStr;
use vstd::prelude::*;
use vstd::string::StringSliceAdditionalSpecFns;
use vstd::utf8::encode_utf8;

verus! {

/// Configured headers as text: a name and a value each, in the order in
/// which they are applied.
pub type Pairs = Seq<(Seq<char>, Seq<char>)>;

/// A header set: the names in lower case, as bytes, with the value of each.
pub type Headers = Map<Seq<u8>, Seq<u8>>;

/// The entries of a header list as text.
pub open spec fn pairs_of(list: Seq<(String, String)>) -> Pairs {
    Seq::new(list.len(), |i: int| (list[i].0@, list[i].1@))
}

/// The entries of a header list that may be missing.
pub open spec fn pairs_of_list(list: Option<Vec<(String, String)>>) -> Option<Pairs> {
    match list {
        Some(entries) => Some(pairs_of(entries@)),
        None => None,
    }
}

/// The text of a string that may be missing.
pub open spec fn text_of(s: Option<String>) -> Option<Seq<char>> {
    match s {
        Some(t) => Some(t@),
        None => None,
    }
}

/// The longest header name, in bytes.
pub const MAX_NAME_LEN: usize = 65535;

/// How many headers a configuration may hold: as many as the header map of
/// a request is sure to take, with the two that every request sets itself
/// on top. A longer list might still fit; it is refused because the map is
/// not sure to take it.
pub const MAX_HEADERS: usize = 6551;

/// Whether `b` may stand in a header name: a letter, a digit, or one of
/// ``! " # $ % & ' * + - . ^ _ ` | ~``.
pub open spec fn is_name_byte(b: u8) -> bool {
    ||| 0x21 <= b <= 0x27
    ||| 0x2a <= b <= 0x2b
    ||| 0x2d <= b <= 0x2e
    ||| 0x30 <= b <= 0x39
    ||| 0x41 <= b <= 0x5a
    ||| 0x5e <= b <= 0x7a
    ||| b == 0x7c
    ||| b == 0x7e
}

/// Whether `s` is a header name: not empty, not too long, name bytes only.
pub open spec fn is_header_name(s: Seq<u8>) -> bool {
    &&& 1 <= s.len() <= MAX_NAME_LEN
    &&& forall|i: int| 0 <= i < s.len() ==> is_name_byte(#[trigger] s[i])
}

/// `b`, or its lower-case letter where it is an upper-case one.
pub open spec fn lower(b: u8) -> u8 {
    if 0x41 <= b <= 0x5a {
        (b + 0x20) as u8
    } else {
        b
    }
}

/// `s` with every upper-case letter turned into its lower-case one.
pub open spec fn lower_case(s: Seq<u8>) -> Seq<u8> {
    Seq::new(s.len(), |i: int| lower(s[i]))
}

/// Whether `b` may stand in a header value: a tab, or anything from the
/// blank upwards but DEL.
pub open spec fn is_value_byte(b: u8) -> bool {
    (b >= 0x20 && b != 0x7f) || b == 0x09
}

/// Whether `s` is a header value.
pub open spec fn is_header_value(s: Seq<u8>) -> bool {
    forall|i: int| 0 <= i < s.len() ==> is_value_byte(#[trigger] s[i])
}

/// Whether `bytes` is a header value.
pub fn header_value_ok(bytes: &[u8]) -> (r: bool)
    ensures
        r == is_header_value(bytes@),
{
    let mut i: usize = 0;
    while i < bytes.len()
        invariant
            i <= bytes.len(),
            forall|j: int| 0 <= j < i ==> is_value_byte(#[trigger] bytes@[j]),
        decreases bytes.len() - i,
    {
        let b = bytes[i];
        if !((b >= 0x20 && b != 0x7f) || b == 0x09) {
            return false;
        }
        i += 1;
    }
    true
}

/// The header name of the `http` crate.
#[verifier::external_type_specification]
#[verifier::external_body]
pub struct ExHeaderName(http::header::HeaderName);

/// What the `http` crate returns for a name that is none.
#[verifier::external_type_specification]
#[verifier::external_body]
pub struct ExInvalidHeaderName(http::header::InvalidHeaderName);

/// The header map of the `http` crate.
#[verifier::external_type_specification]
#[verifier::external_body]
#[verifier::reject_recursive_types(T)]
pub struct ExHeaderMap<T>(http::HeaderMap<T>);

/// The header value of the `http` crate.
#[verifier::external_type_specification]
#[verifier::external_body]
pub struct ExHeaderValue(http::HeaderValue);

/// The bytes of a parsed header name.
pub uninterp spec fn header_name_text(name: http::header::HeaderName) -> Seq<u8>;

/// `HeaderName::from_str` of the `http` crate. It accepts exactly the names
/// of one to 65535 bytes that its table of name characters maps to
/// something, and the name it returns is the input in lower case.
#[verifier::external_body]
pub(crate) fn parse_header_name(name: &str) -> (r: Result<
    http::header::HeaderName,
    http::header::InvalidHeaderName,
>)
    ensures
        r is Ok <==> is_header_name(name.spec_bytes()),
        r matches Ok(n) ==> header_name_text(n) == lower_case(name.spec_bytes()),
{
    http::header::HeaderName::from_str(name)
}

/// Why the entry `p` cannot be sent, if it cannot: its name is looked at
/// before its value.
pub open spec fn entry_error(p: (Seq<char>, Seq<char>)) -> Option<SupabaseError> {
    if !is_header_name(encode_utf8(p.0)) {
        Some(SupabaseError::InvalidHeaderName)
    } else if !is_header_value(encode_utf8(p.1)) {
        Some(SupabaseError::InvalidHeaderValue)
    } else {
        None
    }
}

/// The error of the first entry of `pairs` that has one.
pub open spec fn first_error(pairs: Pairs) -> Option<SupabaseError>
    decreases pairs.len(),
{
    if pairs.len() == 0 {
        None
    } else if entry_error(pairs[0]) is Some {
        entry_error(pairs[0])
    } else {
        first_error(pairs.skip(1))
    }
}

/// The header set after the entries of `pairs` were inserted one by one: a
/// later entry replaces an earlier one whose name differs in case at most.
pub open spec fn applied(pairs: Pairs) -> Headers
    decreases pairs.len(),
{
    if pairs.len() == 0 {
        Map::empty()
    } else {
        let p = pairs.last();
        applied(pairs.drop_last()).insert(lower_case(encode_utf8(p.0)), encode_utf8(p.1))
    }
}

/// The value of the last entry of `pairs` that is named `name`, letter for
/// letter.
pub open spec fn lookup(pairs: Pairs, name: Seq<char>) -> Option<Seq<char>>
    decreases pairs.len(),
{
    if pairs.len() == 0 {
        None
    } else if pairs.last().0 == name {
        Some(pairs.last().1)
    } else {
        lookup(pairs.drop_last(), name)
    }
}

/// The error of the first entry that has one is the error of the list.
pub proof fn lemma_first_error_at(pairs: Pairs, i: int)
    requires
        0 <= i < pairs.len(),
        forall|j: int| 0 <= j < i ==> entry_error(#[trigger] pairs[j]) is None,
        entry_error(pairs[i]) is Some,
    ensures
        first_error(pairs) == entry_error(pairs[i]),
    decreases i,
{
    if i > 0 {
        lemma_first_error_at(pairs.skip(1), i - 1);
    }
}

/// A list whose entries have no error has none.
pub proof fn lemma_no_first_error(pairs: Pairs)
    requires
        forall|j: int| 0 <= j < pairs.len() ==> entry_error(#[trigger] pairs[j]) is None,
    ensures
        first_error(pairs) is None,
    decreases pairs.len(),
{
    if pairs.len() > 0 {
        lemma_no_first_error(pairs.skip(1));
    }
}

/// A list leaves no more headers behind than it has entries.
pub proof fn lemma_applied_size(pairs: Pairs)
    ensures
        applied(pairs).dom().finite(),
        applied(pairs).dom().len() <= pairs.len(),
    decreases pairs.len(),
{
    if pairs.len() > 0 {
        lemma_applied_size(pairs.drop_last());
    }
}

/// An entry with an error makes the list one with an error.
pub proof fn lemma_some_first_error(pairs: Pairs, i: int)
    requires
        0 <= i < pairs.len(),
        entry_error(pairs[i]) is Some,
    ensures
        first_error(pairs) is Some,
    decreases i,
{
    if i > 0 && entry_error(pairs[0]) is None {
        lemma_some_first_error(pairs.skip(1), i - 1);
    }
}

/// An entry that no later entry replaces is in the header set that the list
/// leaves behind.
pub proof fn lemma_applied_entry(pairs: Pairs, i: int)
    requires
        0 <= i < pairs.len(),
        forall|j: int|
            i < j < pairs.len() ==> lower_case(encode_utf8(#[trigger] pairs[j].0)) != lower_case(
                encode_utf8(pairs[i].0),
            ),
    ensures
        applied(pairs).contains_pair(
            lower_case(encode_utf8(pairs[i].0)),
            encode_utf8(pairs[i].1),
        ),
    decreases pairs.len(),
{
    if i < pairs.len() - 1 {
        lemma_applied_entry(pairs.drop_last(), i);
    }
}

/// `lookup` finds the last entry of a name.
pub proof fn lemma_lookup_last(pairs: Pairs, name: Seq<char>, i: int)
    requires
        0 <= i < pairs.len(),
        pairs[i].0 == name,
        forall|j: int| i < j < pairs.len() ==> (#[trigger] pairs[j]).0 != name,
    ensures
        lookup(pairs, name) == Some(pairs[i].1),
    decreases pairs.len(),
{
    if i < pairs.len() - 1 {
        lemma_lookup_last(pairs.drop_last(), name, i);
    }
}

/// `lookup` finds nothing where no entry has the name.
pub proof fn lemma_lookup_none(pairs: Pairs, name: Seq<char>)
    requires
        forall|j: int| 0 <= j < pairs.len() ==> (#[trigger] pairs[j]).0 != name,
    ensures
        lookup(pairs, name) is None,
    decreases pairs.len(),
{
    if pairs.len() > 0 {
        lemma_lookup_none(pairs.drop_last(), name);
    }
}

/// A name that holds a blank is no header name.
pub proof fn lemma_blank_in_name(name: Seq<u8>, i: int)
    requires
        0 <= i < name.len(),
        name[i] == 0x20,
    ensures
        !is_header_name(name),
{
}

} // verus!
