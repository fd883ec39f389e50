//! What is written to the output files when the song changes.
//!
//! Both files hold UTF-16, least significant byte first, without a
//! byte-order mark and without a terminator. Each write replaces the file.

use vstd::prelude::*;
use vstd::string::StringExecFns;
use crate::song_info::SongInfo;
use crate::text::{chars_of, encode_utf16, utf16_units};

verus! {

/// The bytes of code units, each unit as two bytes, the lower one first.
pub open spec fn wide_bytes(units: Seq<u16>) -> Seq<u8>
    decreases units.len(),
{
    if units.len() == 0 {
        Seq::empty()
    } else {
        wide_bytes(units.drop_last()) + seq![
            (units.last() % 0x100) as u8,
            (units.last() / 0x100) as u8,
        ]
    }
}

/// The character for a hexadecimal digit, in lower case.
pub open spec fn hex_digit(digit: nat) -> char
    recommends
        digit < 16,
{
    if digit < 10 {
        ('0' as nat + digit) as char
    } else {
        ('a' as nat + digit - 10) as char
    }
}

/// The number that a hexadecimal digit stands for.
pub open spec fn hex_value(c: char) -> nat {
    if '0' <= c <= '9' {
        (c as nat - '0' as nat) as nat
    } else if 'a' <= c <= 'f' {
        (c as nat - 'a' as nat + 10) as nat
    } else if 'A' <= c <= 'F' {
        (c as nat - 'A' as nat + 10) as nat
    } else {
        0
    }
}

/// How a character stands inside a JSON string: a quotation mark and a
/// backslash behind a backslash, a control character as `\u00` and its two
/// hexadecimal digits, every other character as itself.
pub open spec fn json_escape(c: char) -> Seq<char> {
    if c == '"' {
        seq!['\\', '"']
    } else if c == '\\' {
        seq!['\\', '\\']
    } else if (c as u32) < 0x20 {
        seq![
            '\\',
            'u',
            '0',
            '0',
            hex_digit((c as u32 / 16) as nat),
            hex_digit((c as u32 % 16) as nat),
        ]
    } else {
        seq![c]
    }
}

/// How a text stands inside a JSON string, without the quotation marks
/// around it.
pub open spec fn json_escaped(text: Seq<char>) -> Seq<char>
    decreases text.len(),
{
    if text.len() == 0 {
        Seq::empty()
    } else {
        json_escaped(text.drop_last()) + json_escape(text.last())
    }
}

/// The text that the inside of a JSON string stands for: a backslash and `u`
/// open the four hexadecimal digits of a character, any other backslash
/// stands for the character behind it.
pub open spec fn json_unescaped(inside: Seq<char>) -> Seq<char>
    decreases inside.len(),
{
    if inside.len() == 0 {
        Seq::empty()
    } else if inside[0] == '\\' && inside.len() >= 6 && inside[1] == 'u' {
        seq![
            (hex_value(inside[2]) * 0x1000 + hex_value(inside[3]) * 0x100 + hex_value(inside[4])
                * 0x10 + hex_value(inside[5])) as char,
        ] + json_unescaped(inside.skip(6))
    } else if inside[0] == '\\' && inside.len() >= 2 {
        seq![inside[1]] + json_unescaped(inside.skip(2))
    } else {
        seq![inside[0]] + json_unescaped(inside.skip(1))
    }
}

/// The JSON document for a title: one object with the single field `title`,
/// whose value is the title as a JSON string.
pub open spec fn json_text(title: Seq<char>) -> Seq<char> {
    "{\"title\": \""@ + json_escaped(title) + "\"}"@
}

/// A text may be escaped part by part.
pub proof fn lemma_escaped_concat(front: Seq<char>, back: Seq<char>)
    ensures
        json_escaped(front + back) == json_escaped(front) + json_escaped(back),
    decreases back.len(),
{
    if back.len() == 0 {
        assert(front + back =~= front);
    } else {
        lemma_escaped_concat(front, back.drop_last());
        assert((front + back).drop_last() =~= front + back.drop_last());
        assert(json_escaped(front + back) =~= json_escaped(front) + json_escaped(back));
    }
}

/// Reading an escaped character back gives the character, whatever follows.
pub proof fn lemma_unescape_one(c: char, rest: Seq<char>)
    ensures
        json_unescaped(json_escape(c) + rest) == seq![c] + json_unescaped(rest),
{
    let inside = json_escape(c) + rest;
    vstd::utf8::char_is_scalar(c);
    vstd::utf8::char_u32_cast(c, c as u32);
    if c == '"' || c == '\\' {
        assert(inside.skip(2) =~= rest);
    } else if (c as u32) < 0x20 {
        assert(inside.skip(6) =~= rest);
        assert(hex_value(inside[2]) == 0 && hex_value(inside[3]) == 0);
        assert(hex_value(inside[4]) == c as u32 / 16);
        assert(hex_value(inside[5]) == c as u32 % 16);
    } else {
        assert(inside.skip(1) =~= rest);
    }
}

/// An escaped text starts with its first character, escaped.
pub proof fn lemma_escaped_front(text: Seq<char>)
    requires
        text.len() > 0,
    ensures
        json_escaped(text) == json_escape(text[0]) + json_escaped(text.skip(1)),
{
    let first = seq![text[0]];
    assert(first.drop_last() =~= Seq::<char>::empty());
    assert(json_escaped(first.drop_last()) =~= Seq::<char>::empty());
    assert(json_escaped(first) =~= json_escape(first.last()));
    assert(text =~= first + text.skip(1));
    lemma_escaped_concat(first, text.skip(1));
}

/// The value of the JSON string is the text: what is escaped and read back
/// is the same text.
pub proof fn lemma_unescape_escape(text: Seq<char>)
    ensures
        json_unescaped(json_escaped(text)) == text,
    decreases text.len(),
{
    if text.len() > 0 {
        lemma_escaped_front(text);
        lemma_unescape_one(text[0], json_escaped(text.skip(1)));
        lemma_unescape_escape(text.skip(1));
        assert(seq![text[0]] + text.skip(1) =~= text);
    }
}

/// Whether `c` is a hexadecimal digit.
pub open spec fn is_hex(c: char) -> bool {
    '0' <= c <= '9' || 'a' <= c <= 'f' || 'A' <= c <= 'F'
}

/// Whether `inside` can stand between the quotation marks of a JSON string:
/// it holds no bare quotation mark and no control character, and every
/// backslash opens an escape, of a quotation mark, of a backslash, or of
/// four hexadecimal digits behind `u`.
pub open spec fn is_json_inside(inside: Seq<char>) -> bool
    decreases inside.len(),
{
    if inside.len() == 0 {
        true
    } else if inside[0] == '\\' {
        if inside.len() >= 2 && (inside[1] == '"' || inside[1] == '\\') {
            is_json_inside(inside.skip(2))
        } else {
            inside.len() >= 6 && inside[1] == 'u' && is_hex(inside[2]) && is_hex(inside[3])
                && is_hex(inside[4]) && is_hex(inside[5]) && is_json_inside(inside.skip(6))
        }
    } else {
        inside[0] != '"' && inside[0] as u32 >= 0x20 && is_json_inside(inside.skip(1))
    }
}

/// An escaped character in front of a well-formed rest is well-formed.
pub proof fn lemma_escape_is_json(c: char, rest: Seq<char>)
    requires
        is_json_inside(rest),
    ensures
        is_json_inside(json_escape(c) + rest),
{
    let inside = json_escape(c) + rest;
    vstd::utf8::char_is_scalar(c);
    if c == '"' || c == '\\' {
        assert(inside.skip(2) =~= rest);
    } else if (c as u32) < 0x20 {
        assert(inside.skip(6) =~= rest);
        assert(is_hex(inside[2]) && is_hex(inside[3]) && is_hex(inside[4]) && is_hex(inside[5]));
    } else {
        assert(inside.skip(1) =~= rest);
    }
}

/// Whatever the title, the JSON file holds a JSON string: an escaped text is
/// well-formed.
pub proof fn lemma_escaped_is_json(text: Seq<char>)
    ensures
        is_json_inside(json_escaped(text)),
    decreases text.len(),
{
    if text.len() > 0 {
        lemma_escaped_front(text);
        lemma_escaped_is_json(text.skip(1));
        lemma_escape_is_json(text[0], json_escaped(text.skip(1)));
    }
}

/// Encodes `text` as UTF-16, least significant byte first.
pub fn encode_wide(text: &str) -> (bytes: Vec<u8>)
    ensures
        bytes@ == wide_bytes(encode_utf16(text@)),
{
    let units = utf16_units(text);
    let mut bytes: Vec<u8> = Vec::new();
    let mut i: usize = 0;
    while i < units.len()
        invariant
            i <= units@.len(),
            bytes@ == wide_bytes(units@.take(i as int)),
        decreases units@.len() - i,
    {
        let unit: u16 = units[i];
        bytes.push((unit % 0x100) as u8);
        bytes.push((unit / 0x100) as u8);
        i += 1;
        proof {
            assert(units@.take(i as int).drop_last() =~= units@.take(i - 1));
        }
    }
    assert(units@.take(i as int) =~= units@);
    bytes
}

/// The contents of the text file: the title, encoded.
pub fn info_to_txt(info: &SongInfo) -> (bytes: Vec<u8>)
    ensures
        bytes@ == wide_bytes(encode_utf16(info.title@)),
{
    encode_wide(info.title.as_str())
}

/// The contents of the JSON file: the document for the title, encoded.
pub fn info_to_json(info: &SongInfo) -> (bytes: Vec<u8>)
    ensures
        bytes@ == wide_bytes(encode_utf16(json_text(info.title@))),
{
    let mut document = String::new();
    document.append("{\"title\": \"");
    document.append(escape_json(info.title.as_str()).as_str());
    document.append("\"}");
    encode_wide(document.as_str())
}

/// The character for a hexadecimal digit, in lower case.
fn hex_char(digit: u8) -> (c: char)
    requires
        digit < 16,
    ensures
        c == hex_digit(digit as nat),
{
    if digit < 10 {
        (48u8 + digit) as char
    } else {
        (87u8 + digit) as char
    }
}

/// Writes `text` as it stands inside a JSON string.
pub fn escape_json(text: &str) -> (inside: String)
    ensures
        inside@ == json_escaped(text@),
{
    let chars = chars_of(text);
    let mut inside = String::new();
    let mut i: usize = 0;
    while i < chars.len()
        invariant
            i <= chars@.len(),
            inside@ == json_escaped(chars@.take(i as int)),
        decreases chars@.len() - i,
    {
        let c: char = chars[i];
        let ghost before = inside@;
        proof {
            vstd::utf8::char_is_scalar(c);
        }
        if c == '"' || c == '\\' {
            inside.push('\\');
            inside.push(c);
            assert(inside@ =~= before + json_escape(c));
        } else if (c as u32) < 0x20 {
            let code: u8 = (c as u32) as u8;
            inside.push('\\');
            inside.push('u');
            inside.push('0');
            inside.push('0');
            inside.push(hex_char(code / 16));
            inside.push(hex_char(code % 16));
            assert(inside@ =~= before + json_escape(c));
        } else {
            inside.push(c);
            assert(inside@ =~= before + json_escape(c));
        }
        i += 1;
        proof {
            assert(chars@.take(i as int).drop_last() =~= chars@.take(i - 1));
        }
    }
    assert(chars@.take(i as int) =~= chars@);
    inside
}

} // verus!
