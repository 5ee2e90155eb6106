//! Fresh identifiers and timestamps, which come from outside the library.
use vstd::prelude::*;

verus! {

/// Whether `c` is a lower-case hexadecimal digit.
pub open spec fn is_lower_hex(c: char) -> bool {
    ('0' <= c && c <= '9') || ('a' <= c && c <= 'f')
}

/// Whether `s` is a UUID in lower-case hyphenated form:
/// `xxxxxxxx-xxxx-xxxx-xxxx-xxxxxxxxxxxx`.
pub open spec fn is_hyphenated_uuid(s: Seq<char>) -> bool {
    &&& s.len() == 36
    &&& forall|i: int|
        0 <= i < 36 ==> if i == 8 || i == 13 || i == 18 || i == 23 {
            s[i] == '-'
        } else {
            is_lower_hex(#[trigger] s[i])
        }
}

/// Whether `s` is a version 4 (random) UUID in lower-case hyphenated form:
/// the version digit is `4` and the variant digit is one of `8`, `9`, `a`, `b`.
pub open spec fn is_random_uuid(s: Seq<char>) -> bool {
    &&& is_hyphenated_uuid(s)
    &&& s[14] == '4'
    &&& (s[19] == '8' || s[19] == '9' || s[19] == 'a' || s[19] == 'b')
}

/// Whether `s` has the shape of a UTC time as `DateTime::<Utc>::to_rfc3339`
/// writes it: at least 25 characters (date, `T`, time, optional fraction),
/// only digits and `-`, `:`, `.`, `T`, `+`, ending in the offset `+00:00`.
pub open spec fn is_utc_timestamp(s: Seq<char>) -> bool {
    &&& s.len() >= 25
    &&& s.subrange(s.len() - 6, s.len() as int) == "+00:00"@
    &&& forall|i: int|
        0 <= i < s.len() ==> {
            let c = #[trigger] s[i];
            ('0' <= c && c <= '9') || c == '-' || c == ':' || c == '.' || c == 'T' || c == '+'
        }
}

/// A new random identifier: `uuid::Uuid::new_v4()` written with its `Display`
/// impl, which writes the lower-case hyphenated form (36 characters).
/// `new_v4` masks in the version nibble 4 and the RFC 4122 variant bits
/// `10`, so the digit at index 14 is `4` and the one at index 19 is `8`, `9`,
/// `a` or `b`. Which identifier comes back is random and is not stated.
#[verifier::external_body]
pub(crate) fn fresh_id() -> (id: String)
    ensures
        is_random_uuid(id@),
{
    uuid::Uuid::new_v4().to_string()
}

/// The current time: `chrono::Utc::now()` written with `to_rfc3339`, which
/// writes the date (a four-digit year, or a signed one outside 0..=9999), `T`,
/// the time with a fraction of 0, 3, 6 or 9 digits, and the offset, which for
/// UTC is `+00:00`. Which time it is depends on the clock and is not stated.
#[verifier::external_body]
pub(crate) fn now_rfc3339() -> (stamp: String)
    ensures
        is_utc_timestamp(stamp@),
{
    chrono::Utc::now().to_rfc3339()
}

} // verus!
