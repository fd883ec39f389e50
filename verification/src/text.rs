//! UTF-16 as a mathematical notion, and the conversions between wide
//! characters and text.

use vstd::prelude::*;

verus! {

/// Whether `unit` is a surrogate, a code unit that stands for no character by
/// itself.
pub open spec fn is_surrogate(unit: u16) -> bool {
    0xD800 <= unit <= 0xDFFF
}

/// Whether `unit` is a surrogate that opens a pair.
pub open spec fn is_leading_surrogate(unit: u16) -> bool {
    0xD800 <= unit <= 0xDBFF
}

/// Whether `unit` is a surrogate that closes a pair.
pub open spec fn is_trailing_surrogate(unit: u16) -> bool {
    0xDC00 <= unit <= 0xDFFF
}

/// The character that a surrogate pair stands for.
pub open spec fn pair_value(leading: u16, trailing: u16) -> char {
    (0x1_0000 + (leading - 0xD800) * 0x400 + (trailing - 0xDC00)) as char
}

/// The text that a sequence of UTF-16 code units stands for, with U+FFFD in
/// place of every surrogate that has no partner.
pub open spec fn decode_utf16_lossy(units: Seq<u16>) -> Seq<char>
    decreases units.len(),
{
    if units.len() == 0 {
        Seq::empty()
    } else if !is_surrogate(units[0]) {
        seq![units[0] as char] + decode_utf16_lossy(units.skip(1))
    } else if is_leading_surrogate(units[0]) && units.len() >= 2 && is_trailing_surrogate(
        units[1],
    ) {
        seq![pair_value(units[0], units[1])] + decode_utf16_lossy(units.skip(2))
    } else {
        seq!['\u{FFFD}'] + decode_utf16_lossy(units.skip(1))
    }
}

/// Decoding yields no text only from no code units.
pub proof fn lemma_decode_empty(units: Seq<u16>)
    ensures
        decode_utf16_lossy(units).len() == 0 <==> units.len() == 0,
{
}

/// `String::from_utf16_lossy` of the standard library: the result is the text
/// that the code units stand for, each unpaired surrogate replaced by U+FFFD.
pub assume_specification[ String::from_utf16_lossy ](v: &[u16]) -> (text: String)
    ensures
        text@ == decode_utf16_lossy(v@),
;

/// The UTF-16 code units of one character: itself where it fits sixteen bits,
/// a surrogate pair otherwise.
pub open spec fn encode_char(c: char) -> Seq<u16> {
    if (c as u32) < 0x1_0000 {
        seq![c as u16]
    } else {
        seq![
            (0xD800 + (c as u32 - 0x1_0000) / 0x400) as u16,
            (0xDC00 + (c as u32 - 0x1_0000) % 0x400) as u16,
        ]
    }
}

/// The UTF-16 code units of a text, character after character.
pub open spec fn encode_utf16(text: Seq<char>) -> Seq<u16>
    decreases text.len(),
{
    if text.len() == 0 {
        Seq::empty()
    } else {
        encode_char(text[0]) + encode_utf16(text.skip(1))
    }
}

/// Text that is encoded and decoded again is the same text: encoding never
/// yields a surrogate without its partner.
pub proof fn lemma_decode_encode(text: Seq<char>)
    ensures
        decode_utf16_lossy(encode_utf16(text)) == text,
    decreases text.len(),
{
    if text.len() > 0 {
        let c = text[0];
        let units = encode_utf16(text);
        let rest = encode_utf16(text.skip(1));
        lemma_decode_encode(text.skip(1));
        vstd::utf8::char_is_scalar(c);
        vstd::utf8::char_u32_cast(c, c as u32);
        if (c as u32) < 0x1_0000 {
            assert(units.skip(1) =~= rest);
        } else {
            assert(units.skip(2) =~= rest);
        }
    }
}

/// `U16String::from_str` of the widestring crate, unpacked with `into_vec`:
/// the UTF-16 code units of `text`, without terminator or byte-order mark.
#[verifier::external_body]
pub(crate) fn utf16_units(text: &str) -> (units: Vec<u16>)
    ensures
        units@ == encode_utf16(text@),
{
    widestring::U16String::from_str(text).into_vec()
}

/// `String::push` of the standard library: the character is appended to the
/// end of the string.
pub assume_specification[ String::push ](s: &mut String, ch: char)
    ensures
        final(s)@ == old(s)@.push(ch),
;

/// The character for a decimal digit.
pub open spec fn digit_char(digit: nat) -> char
    recommends
        digit < 10,
{
    ('0' as nat + digit) as char
}

/// The decimal numeral of `n`, without leading zeros.
pub open spec fn decimal(n: nat) -> Seq<char>
    decreases n,
{
    if n < 10 {
        seq![digit_char(n)]
    } else {
        decimal(n / 10).push(digit_char(n % 10))
    }
}

/// The text `ch` repeated `count` times.
pub open spec fn repeated(ch: char, count: nat) -> Seq<char> {
    Seq::new(count, |i: int| ch)
}

/// Appends the decimal numeral of `n` to `s`.
pub(crate) fn push_decimal(s: &mut String, n: u64)
    ensures
        final(s)@ == old(s)@ + decimal(n as nat),
    decreases n,
{
    if n >= 10 {
        push_decimal(s, n / 10);
    }
    let digit: u8 = (n % 10) as u8;
    s.push((48u8 + digit) as char);
}

/// Appends `count` copies of `ch` to `s`.
pub(crate) fn push_repeated(s: &mut String, ch: char, count: usize)
    ensures
        final(s)@ == old(s)@ + repeated(ch, count as nat),
{
    let mut done: usize = 0;
    while done < count
        invariant
            done <= count,
            s@ == old(s)@ + repeated(ch, done as nat),
        decreases count - done,
    {
        s.push(ch);
        done += 1;
    }
}

/// The texts of a list of strings.
pub open spec fn texts(strings: Seq<String>) -> Seq<Seq<char>> {
    strings.map_values(|s: String| s@)
}

/// The characters of `s`, one by one.
pub(crate) fn chars_of(s: &str) -> (chars: Vec<char>)
    ensures
        chars@ == s@,
{
    let mut chars: Vec<char> = Vec::new();
    for c in it: s.chars()
        invariant
            it.seq() == s@,
            chars@ == s@.take(it.index()),
    {
        chars.push(c);
    }
    chars
}

/// Tells whether the characters of `chars` from `start` up to `end` spell
/// `word`.
pub(crate) fn range_is(chars: &Vec<char>, start: usize, end: usize, word: &str) -> (same: bool)
    requires
        start <= end <= chars@.len(),
    ensures
        same == (chars@.subrange(start as int, end as int) == word@),
{
    let length = word.unicode_len();
    if end - start != length {
        return false;
    }
    let mut i: usize = 0;
    while i < length
        invariant
            i <= length,
            length == word@.len(),
            end - start == length,
            start <= end <= chars@.len(),
            forall|j: int| 0 <= j < i ==> chars@[start + j] == word@[j],
        decreases length - i,
    {
        if chars[start + i] != word.get_char(i) {
            return false;
        }
        i += 1;
    }
    assert(chars@.subrange(start as int, end as int) =~= word@);
    true
}

/// The characters of `chars` from `start` up to `end`, as a string.
pub(crate) fn string_from(chars: &Vec<char>, start: usize, end: usize) -> (text: String)
    requires
        start <= end <= chars@.len(),
    ensures
        text@ == chars@.subrange(start as int, end as int),
{
    let mut text = String::new();
    let mut i: usize = start;
    while i < end
        invariant
            start <= i <= end <= chars@.len(),
            text@ == chars@.subrange(start as int, i as int),
        decreases end - i,
    {
        text.push(chars[i]);
        i += 1;
    }
    text
}

/// The position of the first `target` in `text` at or behind `from`, or the
/// length of `text` if there is none.
pub open spec fn first_index_of(text: Seq<char>, target: char, from: int) -> int
    decreases text.len() - from,
{
    if from >= text.len() || from < 0 {
        text.len() as int
    } else if text[from] == target {
        from
    } else {
        first_index_of(text, target, from + 1)
    }
}

/// A search that starts inside the text ends at or behind its start and not
/// behind the end of the text.
pub proof fn lemma_first_index_bounds(text: Seq<char>, target: char, from: int)
    requires
        0 <= from <= text.len(),
    ensures
        from <= first_index_of(text, target, from) <= text.len(),
    decreases text.len() - from,
{
    if from < text.len() && text[from] != target {
        lemma_first_index_bounds(text, target, from + 1);
    }
}

/// Finds the first `target` in `chars` at or behind `from`.
pub(crate) fn find_char(chars: &Vec<char>, target: char, from: usize) -> (at: usize)
    requires
        from <= chars@.len(),
    ensures
        at == first_index_of(chars@, target, from as int),
        from <= at <= chars@.len(),
{
    let mut at: usize = from;
    while at < chars.len() && chars[at] != target
        invariant
            from <= at <= chars@.len(),
            first_index_of(chars@, target, at as int) == first_index_of(
                chars@,
                target,
                from as int,
            ),
        decreases chars@.len() - at,
    {
        at += 1;
    }
    at
}

} // verus!
