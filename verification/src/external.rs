//! The calls into outside crates: fresh identifiers and the current time.

use vstd::prelude::*;

verus! {

/// A lower-case hexadecimal digit.
pub open spec fn is_lower_hex_digit(c: char) -> bool {
    ('0' <= c && c <= '9') || ('a' <= c && c <= 'f')
}

/// The text of a random (version 4, RFC 4122 variant) UUID in hyphenated
/// lower-case form: 8-4-4-4-12 hexadecimal digits, the version digit `4`
/// and a variant digit among `8`, `9`, `a`, `b`.
pub open spec fn is_uuid_v4_text(s: Seq<char>) -> bool {
    &&& s.len() == 36
    &&& forall|i: int|
        0 <= i < 36 ==> if i == 8 || i == 13 || i == 18 || i == 23 {
            s[i] == '-'
        } else {
            is_lower_hex_digit(#[trigger] s[i])
        }
    &&& s[14] == '4'
    &&& (s[19] == '8' || s[19] == '9' || s[19] == 'a' || s[19] == 'b')
}

/// A fresh random identifier: `uuid::Uuid::new_v4()` rendered by its
/// `Display` impl. The claim is the shape of the text, which the crate
/// fixes (random bits masked to version 4 and the RFC 4122 variant, then
/// hyphenated lower-case hex); which identifier comes back is left open.
#[verifier::external_body]
pub(crate) fn new_identifier() -> (r: String)
    ensures
        is_uuid_v4_text(r@),
{
    uuid::Uuid::new_v4().to_string()
}

/// An ASCII decimal digit.
pub open spec fn is_ascii_digit(c: char) -> bool {
    '0' <= c && c <= '9'
}

/// The `n` characters of `s` from `start` on are digits.
pub open spec fn digits_at(s: Seq<char>, start: int, n: int) -> bool {
    forall|i: int| start <= i < start + n ==> is_ascii_digit(#[trigger] s[i])
}

/// `s` is laid out as an RFC 3339 UTC timestamp whose year takes `y`
/// characters (four digits, or a sign and at least four digits) and whose
/// fraction of a second takes `f` (none, or a dot and three, six or nine
/// digits): `YYYY-MM-DDTHH:MM:SS[.fff]+00:00`.
pub open spec fn rfc3339_utc_layout(s: Seq<char>, y: int, f: int) -> bool {
    &&& (y == 4 && digits_at(s, 0, 4)) || (y >= 5 && (s[0] == '+' || s[0] == '-') && digits_at(
        s,
        1,
        y - 1,
    ))
    &&& f == 0 || f == 4 || f == 7 || f == 10
    &&& s.len() == y + f + 21
    &&& s[y] == '-' && digits_at(s, y + 1, 2) && s[y + 3] == '-' && digits_at(s, y + 4, 2)
    &&& s[y + 6] == 'T' && digits_at(s, y + 7, 2) && s[y + 9] == ':' && digits_at(s, y + 10, 2)
        && s[y + 12] == ':' && digits_at(s, y + 13, 2)
    &&& f > 0 ==> s[y + 15] == '.' && digits_at(s, y + 16, f - 1)
    &&& s.subrange(y + 15 + f, s.len() as int) == seq!['+', '0', '0', ':', '0', '0']
}

/// `s` is an RFC 3339 timestamp in UTC, as `chrono` writes one.
pub open spec fn is_rfc3339_utc_text(s: Seq<char>) -> bool {
    exists|y: int, f: int| #[trigger] rfc3339_utc_layout(s, y, f)
}

/// The current time as `chrono::Utc::now().to_rfc3339()` renders it. The
/// date and time depend on the clock and are left open; what holds of
/// every outcome is the layout `chrono` writes: the year (four digits
/// within 0..=9999, else signed), month, day, hours, minutes and seconds
/// in two digits each, a fraction of three, six or nine digits when the
/// nanoseconds are not zero, and the offset `+00:00`.
#[verifier::external_body]
pub(crate) fn current_timestamp() -> (r: String)
    ensures
        is_rfc3339_utc_text(r@),
{
    chrono::Utc::now().to_rfc3339()
}

} // verus!
