//! What the dashboard takes from its host: the clock and random identifiers.
use vstd::prelude::*;

verus! {

/// A lowercase hexadecimal digit.
pub open spec fn is_lower_hex(c: char) -> bool {
    ('0' <= c && c <= '9') || ('a' <= c && c <= 'f')
}

/// The hyphenated text of a UUID: 36 characters, `-` at positions 8, 13, 18
/// and 23, lowercase hexadecimal digits elsewhere.
pub open spec fn is_uuid_text(s: Seq<char>) -> bool {
    &&& s.len() == 36
    &&& forall|i: int|
        0 <= i < 36 ==> if i == 8 || i == 13 || i == 18 || i == 23 {
            s[i] == '-'
        } else {
            is_lower_hex(s[i])
        }
}

/// The current UTC time, `chrono::Utc::now()`, as RFC 3339 text. The time is
/// the machine's, so nothing is stated of the text.
#[verifier::external_body]
pub(crate) fn utc_now_text() -> (r: String) {
    chrono::Utc::now().to_rfc3339()
}

/// The local wall-clock time, `chrono::Local::now()`, formatted `%H:%M:%S`.
/// It depends on the clock and the time zone, so nothing is stated of it.
#[verifier::external_body]
pub(crate) fn local_clock_label() -> (r: String) {
    chrono::Local::now().format("%H:%M:%S").to_string()
}

/// A fresh random identifier, `uuid::Uuid::new_v4()` written with `to_string`
/// (trusted, not proved): the text always has the hyphenated lowercase shape
/// of uuid's `Display`; nothing is said of its random digits.
#[verifier::external_body]
pub(crate) fn new_uuid_text() -> (r: String)
    ensures
        is_uuid_text(r@),
{
    uuid::Uuid::new_v4().to_string()
}

} // verus!
