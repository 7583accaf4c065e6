//! The calls this library makes into the `regex` and `chrono` crates, and the
//! one method of `String` it uses that comes without a specification. Nothing
//! in this file is proved: each contract restates what the called code
//! documents.

use crate::key::{in_layout_span, is_stamp, kept, DISALLOWED, TIMESTAMP_LAYOUT};
use chrono::DateTime;
use regex::Regex;
use std::fmt::Write;
use vstd::prelude::*;

verus! {

/// `String::push` appends the character to the end of the string.
pub assume_specification[ String::push ](s: &mut String, c: char)
    ensures
        final(s)@ == old(s)@.push(c),
;

/// The text that `chrono::DateTime::<Utc>::format` prints for the instant
/// `secs` seconds after the Unix epoch under the strftime layout `layout`.
pub uninterp spec fn utc_text(secs: i64, layout: Seq<char>) -> Seq<char>;

/// Builds the UTC instant with `chrono::DateTime::from_timestamp` and prints
/// it with `DateTime::format`.
///
/// The instant exists whenever `secs` lies within chrono's range, which
/// reaches far beyond the years 0000 to 9999; printing fails only on a
/// malformed layout. So for a second of that span and the key layout, whose
/// six specifiers are all valid, a text comes back. What comes back is the
/// text chrono prints for these two arguments; the library does not say which
/// digits it holds. It does say which shape it has under the key layout:
/// chrono pads day, month, hour, minute and second with zeros to two digits
/// and a year from 0 to 9999 to four, without a sign, and copies the
/// separators of the layout.
#[verifier::external_body]
pub(crate) fn format_utc(secs: i64, layout: &str) -> (out: Option<String>)
    ensures
        in_layout_span(secs) && layout@ == TIMESTAMP_LAYOUT@ ==> out is Some,
        out matches Some(text) ==> text@ == utc_text(secs, layout@),
        out matches Some(text) ==> (in_layout_span(secs) && layout@ == TIMESTAMP_LAYOUT@ ==> is_stamp(text@)),
{
    let instant = DateTime::from_timestamp(secs, 0)?;
    let mut text = String::new();
    write!(text, "{}", instant.format(layout)).ok()?;
    Some(text)
}

/// Compiles `pattern` with `regex::Regex::new` and replaces every match in
/// `text` by `replacement` with `Regex::replace_all`; `None` where the pattern
/// does not compile.
///
/// The contract speaks of one pattern only, the negated class
/// `[^a-zA-Z0-9.]`. It compiles, and each of its matches is exactly one
/// character outside the class. Replacing all of them by the empty string
/// therefore leaves the characters of the class, in their order.
#[verifier::external_body]
pub(crate) fn replace_matches(pattern: &str, text: &str, replacement: &str) -> (out: Option<String>)
    ensures
        pattern@ == DISALLOWED@ && replacement@.len() == 0 ==> out is Some,
        out matches Some(rest) ==> (pattern@ == DISALLOWED@ && replacement@.len() == 0 ==> rest@ == kept(text@)),
{
    let re = Regex::new(pattern).ok()?;
    Some(re.replace_all(text, replacement).into_owned())
}

} // verus!
