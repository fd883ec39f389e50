//! Lyrics as they are shown: without addresses of web pages and other
//! leftovers, line by line.

use vstd::prelude::*;
use crate::text::{chars_of, string_from};

verus! {

/// Pattern of the address of a web page.
pub const URL_PATTERN: &'static str = "https?://[^\\s]+";

/// Pattern of the ending of an audio file's name.
pub const WMA_PATTERN: &'static str = "\\.wma";

/// Pattern of the player's own domain.
pub const DOMAIN_PATTERN: &'static str = "qqmusic\\.qq\\.com";

/// What becomes of `text` when every match of the regular expression
/// `pattern`, taken from left to right without overlap, is replaced as
/// `replacement` says; `None` where `pattern` is not a regular expression
/// that can be compiled. The empty replacement removes the matches.
pub uninterp spec fn regex_replaced(
    pattern: Seq<char>,
    text: Seq<char>,
    replacement: Seq<char>,
) -> Option<Seq<char>>;

/// `Regex::new` and `Regex::replace_all` of the regex crate: the pattern is
/// compiled and every match in `text` replaced. The result is a function of
/// the three texts alone.
#[verifier::external_body]
fn replace_matches(pattern: &str, text: &str, replacement: &str) -> (replaced: Option<String>)
    ensures
        match replaced {
            Some(result) => regex_replaced(pattern@, text@, replacement@) == Some(result@),
            None => regex_replaced(pattern@, text@, replacement@) is None,
        },
{
    match regex::Regex::new(pattern) {
        Ok(regex) => Some(regex.replace_all(text, replacement).into_owned()),
        Err(_) => None,
    }
}

/// `text` without the matches of `pattern`. A pattern that cannot be compiled
/// removes nothing.
pub open spec fn without(pattern: Seq<char>, text: Seq<char>) -> Seq<char> {
    match regex_replaced(pattern, text, Seq::empty()) {
        Some(rest) => rest,
        None => text,
    }
}

/// Whether `c` is white space in the sense of Unicode.
pub open spec fn is_white_space(c: char) -> bool {
    let code = c as u32;
    ||| 0x09 <= code <= 0x0D
    ||| code == 0x20
    ||| code == 0x85
    ||| code == 0xA0
    ||| code == 0x1680
    ||| 0x2000 <= code <= 0x200A
    ||| code == 0x2028
    ||| code == 0x2029
    ||| code == 0x202F
    ||| code == 0x205F
    ||| code == 0x3000
}

/// `text` without the white space in front of it.
pub open spec fn trimmed_start(text: Seq<char>) -> Seq<char>
    decreases text.len(),
{
    if text.len() > 0 && is_white_space(text[0]) {
        trimmed_start(text.skip(1))
    } else {
        text
    }
}

/// `text` without the white space behind it.
pub open spec fn trimmed_end(text: Seq<char>) -> Seq<char>
    decreases text.len(),
{
    if text.len() > 0 && is_white_space(text.last()) {
        trimmed_end(text.drop_last())
    } else {
        text
    }
}

/// `text` without the white space around it.
pub open spec fn trimmed(text: Seq<char>) -> Seq<char> {
    trimmed_end(trimmed_start(text))
}

/// Lyrics as they are shown: addresses of web pages are removed, then the
/// ending of audio files and the player's domain wherever they are left, and
/// last the white space around the whole.
pub open spec fn filtered_lyrics(lyrics: Seq<char>) -> Seq<char> {
    trimmed(without(DOMAIN_PATTERN@, without(WMA_PATTERN@, without(URL_PATTERN@, lyrics))))
}

/// Tells whether `c` is white space in the sense of Unicode.
pub fn white_space(c: char) -> (yes: bool)
    ensures
        yes == is_white_space(c),
{
    let code: u32 = c as u32;
    (0x09 <= code && code <= 0x0D) || code == 0x20 || code == 0x85 || code == 0xA0 || code
        == 0x1680 || (0x2000 <= code && code <= 0x200A) || code == 0x2028 || code == 0x2029
        || code == 0x202F || code == 0x205F || code == 0x3000
}

/// Removes the white space around `text`.
pub fn trim_text(text: &str) -> (result: String)
    ensures
        result@ == trimmed(text@),
{
    let chars = chars_of(text);
    let mut start: usize = 0;
    assert(chars@.skip(0) =~= chars@);
    while start < chars.len() && white_space(chars[start])
        invariant
            start <= chars@.len(),
            trimmed_start(chars@.skip(start as int)) == trimmed_start(chars@),
        decreases chars@.len() - start,
    {
        assert(chars@.skip(start as int).skip(1) =~= chars@.skip(start + 1));
        start += 1;
    }
    let mut end: usize = chars.len();
    while end > start && white_space(chars[end - 1])
        invariant
            start <= end <= chars@.len(),
            trimmed_end(chars@.subrange(start as int, end as int)) == trimmed_end(
                chars@.skip(start as int),
            ),
        decreases end,
    {
        assert(chars@.subrange(start as int, end as int).drop_last() =~= chars@.subrange(
            start as int,
            end - 1,
        ));
        end -= 1;
    }
    string_from(&chars, start, end)
}

/// Without the matches of `pattern`, `text` as a string.
fn strip(pattern: &str, text: String) -> (rest: String)
    ensures
        rest@ == without(pattern@, text@),
{
    proof {
        reveal_strlit("");
        assert(""@ =~= Seq::<char>::empty());
    }
    match replace_matches(pattern, text.as_str(), "") {
        Some(rest) => rest,
        None => text,
    }
}

/// Prepares lyrics for being shown: removes addresses of web pages, the
/// ending of audio files and the player's domain, and the white space around
/// what is left.
pub fn filter_lyrics(lyrics: &str) -> (shown: String)
    ensures
        shown@ == filtered_lyrics(lyrics@),
{
    let rest = strip(URL_PATTERN, lyrics.to_owned());
    let rest = strip(WMA_PATTERN, rest);
    let rest = strip(DOMAIN_PATTERN, rest);
    trim_text(rest.as_str())
}

} // verus!
