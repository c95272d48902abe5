//! What the library takes from other crates. The contracts here are trusted, not proved.
use vstd::prelude::*;

verus! {

/// The members of the JSON object that `text` is, each with its text where it is a string; none
/// where `text` is no JSON document or its top level is no object.
pub uninterp spec fn json_members(text: Seq<char>) -> Option<Map<Seq<char>, Option<Seq<char>>>>;

/// The status `code` with its canonical reason, as the HTTP library writes it.
pub uninterp spec fn status_line(code: u16) -> Seq<char>;

/// What a list of members stands for: the last one of a name counts.
pub open spec fn members_listed(members: Option<Vec<(String, Option<String>)>>) -> Option<
    Map<Seq<char>, Option<Seq<char>>>,
> {
    match members {
        Some(list) => Some(crate::str_map::as_map(list.deep_view())),
        None => None,
    }
}

/// Calls `serde_json::from_str` for a `serde_json::Value` and hands out the members of a
/// top-level object, each with its string where it is one. The parser depends on nothing but the
/// text, and so does the result; which texts it accepts is left to its name.
#[verifier::external_body]
pub(crate) fn parse_json_object(text: &str) -> (members: Option<Vec<(String, Option<String>)>>)
    ensures
        members_listed(members) == json_members(text@),
{
    let value: serde_json::Value = serde_json::from_str(text).ok()?;
    let object = value.as_object()?;
    Some(object.iter().map(|(k, v)| (k.clone(), v.as_str().map(str::to_owned))).collect())
}

/// Calls `to_string` on a `reqwest::StatusCode`, which writes the code in decimal, a space, and
/// the canonical reason of the code. Codes outside of the range make no `StatusCode`.
#[verifier::external_body]
pub(crate) fn status_text(code: u16) -> (text: String)
    requires
        100 <= code <= 999,
    ensures
        text@ == status_line(code),
        (crate::text::decimal_text(code as nat) + " "@).is_prefix_of(text@),
{
    reqwest::StatusCode::from_u16(code).unwrap().to_string()
}

/// Whether `c` is a decimal digit.
pub open spec fn is_digit(c: char) -> bool {
    '0' <= c <= '9'
}

/// Whether `s` has the shape of a date and time of RFC 3339 in UTC with whole seconds, such as
/// `2018-01-26T18:30:09Z`. A year of more than four digits has a sign before it.
pub open spec fn is_utc_timestamp(s: Seq<char>) -> bool {
    let n = s.len() as int;
    let year = n - 16;
    &&& year == 4 || year >= 6 && s[0] == '+'
    &&& forall|i: int| 1 <= i < year ==> is_digit(#[trigger] s[i])
    &&& year == 4 ==> is_digit(s[0])
    &&& s[n - 16] == '-' && is_digit(s[n - 15]) && is_digit(s[n - 14])
    &&& s[n - 13] == '-' && is_digit(s[n - 12]) && is_digit(s[n - 11])
    &&& s[n - 10] == 'T' && is_digit(s[n - 9]) && is_digit(s[n - 8])
    &&& s[n - 7] == ':' && is_digit(s[n - 6]) && is_digit(s[n - 5])
    &&& s[n - 4] == ':' && is_digit(s[n - 3]) && is_digit(s[n - 2])
    &&& s[n - 1] == 'Z'
}

/// Calls `chrono::Utc::now` and writes the time with `to_rfc3339_opts`, in whole seconds and with
/// `Z` for the offset. What the clock says is left open; the shape holds of every time. Like the
/// call, it stops the program where the system clock stands before the Unix epoch.
#[verifier::external_body]
pub(crate) fn now_rfc3339() -> (text: String)
    ensures
        is_utc_timestamp(text@),
{
    chrono::Utc::now().to_rfc3339_opts(chrono::SecondsFormat::Secs, true)
}

} // verus!
