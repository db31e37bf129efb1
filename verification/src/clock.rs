//! The library's only calls out: reading the wall clock through chrono.
//! A session's unique prefix and the capture timestamp of the metadata
//! line both come from here.

use vstd::prelude::*;

verus! {

/// Relies on `chrono::Utc::now` and `chrono::DateTime::timestamp`: the
/// current time as whole seconds since the Unix epoch. Nothing can be
/// promised of a clock reading.
#[verifier::external_body]
pub fn now_unix_seconds() -> i64 {
    chrono::Utc::now().timestamp()
}

/// Relies on `chrono::Utc::now` and the `Display` of
/// `chrono::DateTime<Utc>`, which renders `YYYY-MM-DD HH:MM:SS[.frac] UTC`
/// out of digits, `-` `+` `:` `.`, spaces and the letters `UTC`: the
/// rendering is never empty and never contains a quote or a newline.
/// Nothing more is promised of a clock reading.
#[verifier::external_body]
pub fn utc_now_string() -> (s: String)
    ensures
        s@.len() > 0,
        forall|i: int| 0 <= i < s@.len() ==> s@[i] != '"' && s@[i] != '\n',
{
    chrono::Utc::now().to_string()
}

} // verus!
