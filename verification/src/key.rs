//! The key builder: from an uploaded file's category and name, and the
//! instant of the upload, to the key under which the object is stored.

use crate::foreign::{format_utc, replace_matches, utc_text};
use vstd::prelude::*;

verus! {

/// The namespace under which every object of the service lives.
pub const OBJECT_KEY_PREFIX: &'static str = "images";

/// The strftime layout of the timestamp inside a key: `DD-MM-YYYY_HH:MM:SS`.
pub const TIMESTAMP_LAYOUT: &'static str = "%d-%m-%Y_%H:%M:%S";

/// The pattern that matches one character a sanitized file name may not hold.
pub const DISALLOWED: &'static str = "[^a-zA-Z0-9.]";

/// The characters a sanitized file name may hold: ASCII letters, ASCII digits
/// and the dot.
pub open spec fn is_key_char(c: char) -> bool {
    ||| 'a' <= c <= 'z'
    ||| 'A' <= c <= 'Z'
    ||| '0' <= c <= '9'
    ||| c == '.'
}

/// `s` with every space turned into an underscore.
pub open spec fn underscored(s: Seq<char>) -> Seq<char> {
    s.map_values(|c: char| if c == ' ' { '_' } else { c })
}

/// The characters of `s` that a sanitized file name may hold, in their order.
pub open spec fn kept(s: Seq<char>) -> Seq<char> {
    s.filter(|c: char| is_key_char(c))
}

/// The sanitized form of a file name: spaces become underscores first, then
/// every character outside the allowed set is removed.
pub open spec fn sanitized(s: Seq<char>) -> Seq<char> {
    kept(underscored(s))
}

/// Whether `secs`, counted from the Unix epoch, falls within the years 0000 to
/// 9999, the span that the four-digit year of the key layout can print.
pub open spec fn in_layout_span(secs: i64) -> bool {
    -62_167_219_200 <= secs <= 253_402_300_799
}

/// Whether `c` is an ASCII digit.
pub open spec fn is_digit(c: char) -> bool {
    '0' <= c <= '9'
}

/// Whether `text` has the shape of the key layout, `DD-MM-YYYY_HH:MM:SS`:
/// nineteen characters, the five separators in their places, and a digit in
/// every other place.
pub open spec fn is_stamp(text: Seq<char>) -> bool {
    &&& text.len() == 19
    &&& text[2] == '-'
    &&& text[5] == '-'
    &&& text[10] == '_'
    &&& text[13] == ':'
    &&& text[16] == ':'
    &&& forall|i: int|
        0 <= i < 19 && i != 2 && i != 5 && i != 10 && i != 13 && i != 16 ==> is_digit(
            #[trigger] text[i],
        )
}

/// Turns every space of `name` into an underscore.
pub fn replace_spaces(name: &str) -> (out: String)
    ensures
        out@ == underscored(name@),
{
    let mut out = String::new();
    for c in it: name.chars()
        invariant
            it.seq() == name@,
            out@ == underscored(name@.take(it.index() as int)),
    {
        out.push(if c == ' ' { '_' } else { c });
    }
    out
}

/// Sanitizes an uploaded file's name for use inside a key.
///
/// The result holds allowed characters only, and holds exactly the allowed
/// characters of `file_name` in the order in which they stood there.
pub fn sanitize(file_name: &str) -> (out: String)
    ensures
        out@ == sanitized(file_name@),
        out@ == kept(file_name@),
        forall|i: int| 0 <= i < out@.len() ==> is_key_char(#[trigger] out@[i]),
{
    let spaced = replace_spaces(file_name);
    proof {
        reveal_strlit("");
        lemma_sanitized_is_kept(file_name@);
        lemma_kept_allowed(file_name@);
    }
    replace_matches(DISALLOWED, spaced.as_str(), "").unwrap()
}

/// Every character that `kept` leaves is an allowed one.
pub proof fn lemma_kept_allowed(s: Seq<char>)
    ensures
        forall|i: int| 0 <= i < kept(s).len() ==> is_key_char(#[trigger] kept(s)[i]),
{
    let allowed = |c: char| is_key_char(c);
    assert forall|i: int| 0 <= i < kept(s).len() implies is_key_char(#[trigger] kept(s)[i]) by {
        s.lemma_filter_pred(allowed, i);
    }
}

/// Filtering leaves a sequence of allowed characters as it is.
pub proof fn lemma_kept_of_allowed(s: Seq<char>)
    requires
        forall|i: int| 0 <= i < s.len() ==> is_key_char(#[trigger] s[i]),
    ensures
        kept(s) == s,
    decreases s.len(),
{
    reveal(Seq::filter);
    if s.len() > 0 {
        lemma_kept_of_allowed(s.drop_last());
    }
}

/// Turning spaces into underscores before filtering changes nothing in what
/// survives: neither character is an allowed one. Sanitizing therefore keeps
/// the surviving characters of the name in the order they had there.
pub proof fn lemma_sanitized_is_kept(s: Seq<char>)
    ensures
        sanitized(s) == kept(s),
    decreases s.len(),
{
    reveal(Seq::filter);
    if s.len() > 0 {
        lemma_sanitized_is_kept(s.drop_last());
        assert(underscored(s).drop_last() =~= underscored(s.drop_last()));
    }
}

/// A sanitized name holds allowed characters only.
pub proof fn lemma_sanitized_allowed(s: Seq<char>)
    ensures
        forall|i: int| 0 <= i < sanitized(s).len() ==> is_key_char(#[trigger] sanitized(s)[i]),
{
    lemma_kept_allowed(underscored(s));
}

/// Sanitizing is idempotent: a second pass changes nothing.
pub proof fn lemma_sanitized_idempotent(s: Seq<char>)
    ensures
        sanitized(sanitized(s)) == sanitized(s),
{
    lemma_sanitized_allowed(s);
    lemma_sanitized_is_kept(sanitized(s));
    lemma_kept_of_allowed(sanitized(s));
}

/// A UTC instant of second resolution within the years 0000 to 9999.
#[derive(Clone, Copy, Debug, PartialEq, Eq)]
pub struct Timestamp {
    secs: i64,
}

impl View for Timestamp {
    type V = i64;

    closed spec fn view(&self) -> i64 {
        self.secs
    }
}

impl Timestamp {
    #[verifier::type_invariant]
    spec fn within_span(self) -> bool {
        in_layout_span(self.secs)
    }

    /// The instant `secs` seconds after the Unix epoch, where the key layout
    /// can print it.
    pub fn from_unix_seconds(secs: i64) -> (out: Option<Timestamp>)
        ensures
            out is Some <==> in_layout_span(secs),
            out matches Some(at) ==> at@ == secs,
    {
        if -62_167_219_200 <= secs && secs <= 253_402_300_799 {
            Some(Timestamp { secs })
        } else {
            None
        }
    }

    /// Seconds since the Unix epoch.
    pub fn unix_seconds(&self) -> (secs: i64)
        ensures
            secs == self@,
            in_layout_span(secs),
    {
        proof {
            use_type_invariant(self);
        }
        self.secs
    }
}

/// The text of a key made of its four parts:
/// `<prefix>/<stamp>_<category>_<name>`.
pub open spec fn key_text(
    prefix: Seq<char>,
    stamp: Seq<char>,
    category: Seq<char>,
    name: Seq<char>,
) -> Seq<char> {
    prefix + seq!['/'] + stamp + seq!['_'] + category + seq!['_'] + name
}

/// The key of a file uploaded at `secs`: the prefix, the instant in the key
/// layout, the category as given, and the sanitized file name.
pub open spec fn object_key(
    prefix: Seq<char>,
    category: Seq<char>,
    file_name: Seq<char>,
    secs: i64,
) -> Seq<char> {
    key_text(prefix, utc_text(secs, TIMESTAMP_LAYOUT@), category, sanitized(file_name))
}

/// The bare marker of a prefix: the prefix and a slash with nothing behind.
pub open spec fn prefix_marker(prefix: Seq<char>) -> Seq<char> {
    prefix + seq!['/']
}

/// Joins the parts of a key. The category goes in as given; the name is
/// expected to be sanitized already.
pub fn compose_key(prefix: &str, stamp: &str, category: &str, name: &str) -> (key: String)
    ensures
        key@ == key_text(prefix@, stamp@, category@, name@),
{
    proof {
        reveal_strlit("/");
        reveal_strlit("_");
    }
    let mut key = String::from_str(prefix);
    key.append("/");
    key.append(stamp);
    key.append("_");
    key.append(category);
    key.append("_");
    key.append(name);
    key
}

/// Derives the storage key of a file uploaded at `now`.
pub fn build_key(prefix: &str, category: &str, file_name: &str, now: &Timestamp) -> (key: String)
    ensures
        key@ == object_key(prefix@, category@, file_name@, now@),
        is_stamp(utc_text(now@, TIMESTAMP_LAYOUT@)),
        prefix_marker(prefix@).is_prefix_of(key@),
        key@ != prefix_marker(prefix@),
{
    let secs = now.unix_seconds();
    let stamp = format_utc(secs, TIMESTAMP_LAYOUT).unwrap();
    let name = sanitize(file_name);
    proof {
        lemma_key_under_prefix(prefix@, stamp@, category@, name@);
    }
    compose_key(prefix, stamp.as_str(), category, name.as_str())
}

/// Every key lies under its prefix, and none is the bare marker of it.
pub proof fn lemma_key_under_prefix(
    prefix: Seq<char>,
    stamp: Seq<char>,
    category: Seq<char>,
    name: Seq<char>,
)
    ensures
        prefix_marker(prefix).is_prefix_of(key_text(prefix, stamp, category, name)),
        key_text(prefix, stamp, category, name) != prefix_marker(prefix),
        key_text(prefix, stamp, category, name).len() == prefix.len() + stamp.len()
            + category.len() + name.len() + 3,
{
}

} // verus!
