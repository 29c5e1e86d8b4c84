//! The one place where the library reads the clock.
use vstd::prelude::*;

verus! {

/// Relies on `chrono::Local::now` and `DateTime::format` with the pattern
/// `%Y-%m-%d %H:%M:%S`: the rendered local time consists of ASCII digits and
/// punctuation.  Beyond being ASCII, nothing is assumed of the value, which
/// depends on the clock.
#[verifier::external_body]
pub fn timestamp_now() -> (r: String)
    ensures
        r.is_ascii(),
{
    chrono::Local::now().format("%Y-%m-%d %H:%M:%S").to_string()
}

} // verus!
