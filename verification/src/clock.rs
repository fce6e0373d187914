use vstd::prelude::*;

use crate::text::single_line;

verus! {

/// Relies on chrono::Local::now rendered through the Display impl of
/// chrono::DateTime: the current local date and time as one line of text
/// (digits, punctuation and a zone offset; never a line break).
#[verifier::external_body]
pub(crate) fn now_line() -> (r: String)
    ensures
        single_line(r@),
{
    chrono::Local::now().to_string()
}

/// Relies on chrono::Local::now and chrono::DateTime::format with
/// "%Y-%m-%d %H:%M:%S": the current local date and time rendered as zero
/// padded decimal fields joined by '-', ' ' and ':'; never a line break.
#[verifier::external_body]
pub(crate) fn now_stamp() -> (r: String)
    ensures
        single_line(r@),
{
    format!("{}", chrono::Local::now().format("%Y-%m-%d %H:%M:%S"))
}

} // verus!
