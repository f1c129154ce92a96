//! Reading the JSON body of a request: its text must be UTF-8, and the
//! `json` crate reads the members of the object that it holds.
use vstd::prelude::*;
use vstd::utf8::{decode_utf8, valid_utf8};

verus! {

/// Why a request body could not be read.
#[derive(Debug, Clone, Copy, PartialEq, Eq, Structural)]
pub enum BodyError {
    /// The bytes are not UTF-8.
    NotUtf8,
    /// The text is not JSON.
    NotJson,
    /// A member that must be `true` or `false` is not.
    FlagNotBoolean,
}

/// Whether `json::parse` accepts the text.
pub uninterp spec fn json_accepts(text: Seq<char>) -> bool;

/// What `json::parse(text)` holds under `key`, written out as its `Display`
/// writes it: a string member without quotes, `null` for a missing member.
pub uninterp spec fn json_member_display(text: Seq<char>, key: Seq<char>) -> Seq<char>;

/// What `as_bool` gives of the member `key` of `json::parse(text)`.
pub uninterp spec fn json_member_bool(text: Seq<char>, key: Seq<char>) -> Option<bool>;

/// The items of the array under `key` in `json::parse(text)`, each written out
/// as its `Display` writes it; nothing when the member is not an array.
pub uninterp spec fn json_member_items(text: Seq<char>, key: Seq<char>) -> Seq<Seq<char>>;

/// Calls `std::str::from_utf8`, which gives the text exactly when the bytes
/// are UTF-8.
#[verifier::external_body]
pub(crate) fn utf8_text(body: &[u8]) -> (text: Option<&str>)
    ensures
        text is Some <==> valid_utf8(body@),
        text matches Some(t) ==> t@ == decode_utf8(body@),
{
    std::str::from_utf8(body).ok()
}

/// Calls `json::parse(text)` and tells whether it succeeded; whether it does
/// depends on the text alone, and the contract names it `json_accepts`.
#[verifier::external_body]
pub(crate) fn json_parses(text: &str) -> (accepted: bool)
    ensures
        accepted == json_accepts(text@),
{
    json::parse(text).is_ok()
}

/// Calls `json::parse(text)` and writes out its member `key` with `to_string`.
/// The result depends on the two texts alone; the contract names it
/// `json_member_display`.
#[verifier::external_body]
pub(crate) fn json_member_text(text: &str, key: &str) -> (shown: String)
    requires
        json_accepts(text@),
    ensures
        shown@ == json_member_display(text@, key@),
{
    json::parse(text).unwrap()[key].to_string()
}

/// Calls `json::parse(text)` and `as_bool` on its member `key`. The result
/// depends on the two texts alone; the contract names it `json_member_bool`.
#[verifier::external_body]
pub(crate) fn json_member_flag(text: &str, key: &str) -> (flag: Option<bool>)
    requires
        json_accepts(text@),
    ensures
        flag == json_member_bool(text@, key@),
{
    json::parse(text).unwrap()[key].as_bool()
}

/// Calls `json::parse(text)`, takes `members` of its member `key` and writes
/// each out with `to_string`. The result depends on the two texts alone; the
/// contract names it `json_member_items`.
#[verifier::external_body]
pub(crate) fn json_member_list(text: &str, key: &str) -> (items: Vec<String>)
    requires
        json_accepts(text@),
    ensures
        items@.map_values(|s: String| s@) == json_member_items(text@, key@),
{
    json::parse(text).unwrap()[key].members().map(|m| m.to_string()).collect()
}

} // verus!
