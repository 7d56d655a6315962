//! The view of tonic's request metadata that the interceptors rely on: which
//! header names and values tonic accepts, and what an insertion does.

use vstd::prelude::*;
use tonic::metadata::{Ascii, MetadataKey, MetadataValue};
use tonic::Request;

verus! {

#[verifier::external_type_specification]
#[verifier::external_body]
#[verifier::reject_recursive_types(T)]
pub struct ExRequest<T>(Request<T>);

/// The ASCII metadata of a request: for each header name, its values in order.
pub uninterp spec fn ascii_entries(r: Request<()>) -> Map<Seq<char>, Seq<Seq<char>>>;

/// The binary (`-bin`) metadata of a request: for each header name, its
/// encoded values in order.
pub uninterp spec fn binary_entries(r: Request<()>) -> Map<Seq<char>, Seq<Seq<u8>>>;

/// The number of distinct header names, ASCII and binary, in a request's metadata.
pub uninterp spec fn key_count(r: Request<()>) -> nat;

/// The metadata as the interceptors see it: the ASCII entries, and the
/// number of distinct header names.
pub type MetadataState = (Map<Seq<char>, Seq<Seq<char>>>, nat);

pub open spec fn metadata_state(r: Request<()>) -> MetadataState {
    (ascii_entries(r), key_count(r))
}

/// The most distinct header names a request may hold for an insertion to be
/// safe. http's header map panics on an insertion that would need its index
/// table to grow beyond 2^15 slots; with at most this many names no insertion
/// asks for that, whatever state the table is in (it grows early, at one name
/// per 5 slots, once it has seen long probe sequences).
pub const MAX_KEYS_FOR_INSERT: usize = 6553;

/// What an insertion of `value` under `key` makes of the metadata `s`.
pub open spec fn inserted(s: MetadataState, key: Seq<char>, value: Seq<char>) -> MetadataState {
    (
        s.0.insert(key, seq![value]),
        if s.0.contains_key(key) {
            s.1
        } else {
            s.1 + 1
        },
    )
}

/// The metadata `s` has room for one more insertion.
pub open spec fn has_room(s: MetadataState) -> bool {
    s.1 <= MAX_KEYS_FOR_INSERT
}

/// A character of an HTTP header-name token.
pub open spec fn is_token_char(c: char) -> bool {
    ('a' <= c && c <= 'z') || ('A' <= c && c <= 'Z') || ('0' <= c && c <= '9') || c == '!'
        || c == '#' || c == '$' || c == '%' || c == '&' || c == '\'' || c == '*' || c == '+'
        || c == '-' || c == '.' || c == '^' || c == '_' || c == '`' || c == '|' || c == '~'
}

/// A character with upper-case ASCII letters folded to lower case.
pub open spec fn lower_char(c: char) -> char {
    if 'A' <= c && c <= 'Z' {
        ((c as u8) + 32u8) as char
    } else {
        c
    }
}

pub open spec fn ascii_lower(s: Seq<char>) -> Seq<char> {
    s.map_values(|c: char| lower_char(c))
}

/// A name with the binary-metadata suffix.
pub open spec fn has_bin_suffix(s: Seq<char>) -> bool {
    s.len() >= 4 && s.subrange(s.len() - 4, s.len() as int) == seq!['-', 'b', 'i', 'n']
}

/// A name that tonic accepts as the key of ASCII metadata: a non-empty header
/// token of at most 65535 characters whose lower-case form does not end in `-bin`.
pub open spec fn is_ascii_metadata_key(s: Seq<char>) -> bool {
    &&& 1 <= s.len() <= 65535
    &&& forall|i: int| 0 <= i < s.len() ==> #[trigger] is_token_char(s[i])
    &&& !has_bin_suffix(ascii_lower(s))
}

/// A character whose bytes are all allowed in a header value: visible ASCII,
/// a space, a tab, or any character beyond ASCII.
pub open spec fn is_value_char(c: char) -> bool {
    (c as u32 >= 32 && c as u32 != 127) || c == '\t'
}

/// A text that tonic accepts as an ASCII metadata value.
pub open spec fn is_ascii_metadata_value(s: Seq<char>) -> bool {
    forall|i: int| 0 <= i < s.len() ==> #[trigger] is_value_char(s[i])
}

/// Relies on tonic's `MetadataKey::<Ascii>::from_bytes`, which accepts exactly
/// the valid header names without the `-bin` suffix, and on `MetadataKey::as_str`,
/// which gives the name in lower case.
#[verifier::external_body]
pub(crate) fn parse_ascii_key(name: &str) -> (r: Option<String>)
    ensures
        r is Some <==> is_ascii_metadata_key(name@),
        r is Some ==> r->Some_0@ == ascii_lower(name@),
{
    MetadataKey::<Ascii>::from_bytes(name.as_bytes()).ok().map(|k| k.as_str().to_string())
}

/// Relies on tonic's `FromStr` for `MetadataValue<Ascii>`, which accepts a text
/// exactly when each of its bytes is a tab or at least 32 and not 127.
#[verifier::external_body]
pub(crate) fn is_ascii_value(text: &str) -> (r: bool)
    ensures
        r == is_ascii_metadata_value(text@),
{
    text.parse::<MetadataValue<Ascii>>().is_ok()
}

/// Relies on tonic's `Request::metadata` and `MetadataMap::keys_len`: the
/// number of distinct header names.
#[verifier::external_body]
pub(crate) fn metadata_key_count(req: &Request<()>) -> (r: usize)
    ensures
        r == key_count(*req),
{
    req.metadata().keys_len()
}

/// Relies on tonic's `Request::metadata_mut` and `MetadataMap::insert`: the key
/// then holds the one given value, no other key changes, and a new key adds
/// one to the count of names. tonic's key and value types cannot be named
/// outside tonic, so both are built here from texts that tonic accepts
/// (`MetadataKey::from_bytes`, `MetadataValue::from_str`). The bound on the
/// count keeps http's header map from panicking as it grows.
#[verifier::external_body]
pub(crate) fn insert_ascii(req: &mut Request<()>, key: &str, value: &str)
    requires
        is_ascii_metadata_key(key@),
        is_ascii_metadata_value(value@),
        has_room(metadata_state(*old(req))),
    ensures
        ascii_entries(*final(req)) == ascii_entries(*old(req)).insert(
            ascii_lower(key@),
            seq![value@],
        ),
        key_count(*final(req)) == if ascii_entries(*old(req)).contains_key(ascii_lower(key@)) {
            key_count(*old(req))
        } else {
            key_count(*old(req)) + 1
        },
        binary_entries(*final(req)) == binary_entries(*old(req)),
{
    let key = MetadataKey::<Ascii>::from_bytes(key.as_bytes()).unwrap();
    let value = value.parse::<MetadataValue<Ascii>>().unwrap();
    req.metadata_mut().insert(key, value);
}

} // verus!
