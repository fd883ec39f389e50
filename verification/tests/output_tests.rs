use qqmusic_reader::output::{encode_wide, escape_json, info_to_json, info_to_txt};
use qqmusic_reader::song_info::SongInfo;

fn titled(title: &str) -> SongInfo {
    SongInfo { title: title.to_string(), ..SongInfo::default() }
}

#[test]
fn text_is_encoded_as_little_endian_code_units() {
    assert_eq!(encode_wide("AB"), vec![0x41, 0x00, 0x42, 0x00]);
    assert_eq!(encode_wide(""), Vec::<u8>::new());
    assert_eq!(encode_wide("\u{6B4C}"), vec![0x4C, 0x6B]);
}

#[test]
fn characters_beyond_sixteen_bits_become_surrogate_pairs() {
    assert_eq!(encode_wide("\u{1F3B5}"), vec![0x3C, 0xD8, 0xB5, 0xDF]);
    assert_eq!(encode_wide("\u{10000}"), vec![0x00, 0xD8, 0x00, 0xDC]);
    assert_eq!(encode_wide("\u{10FFFF}"), vec![0xFF, 0xDB, 0xFF, 0xDF]);
    assert_eq!(encode_wide("\u{FFFF}"), vec![0xFF, 0xFF]);
}

#[test]
fn text_file_holds_the_title_without_marker_or_terminator() {
    assert_eq!(info_to_txt(&titled("Hi")), vec![b'H', 0, b'i', 0]);
    assert_eq!(info_to_txt(&titled("")), Vec::<u8>::new());
    let mut other = titled("T");
    other.artist = "ignored".to_string();
    assert_eq!(info_to_txt(&other), vec![b'T', 0]);
}

#[test]
fn json_file_holds_one_title_field() {
    let expected: Vec<u8> =
        "{\"title\": \"Hi\"}".encode_utf16().flat_map(|unit| unit.to_le_bytes()).collect();
    assert_eq!(info_to_json(&titled("Hi")), expected);
    let bytes = info_to_json(&titled("\u{6B4C}"));
    let units: Vec<u16> =
        bytes.chunks(2).map(|pair| u16::from_le_bytes([pair[0], pair[1]])).collect();
    assert_eq!(String::from_utf16(&units).unwrap(), "{\"title\": \"\u{6B4C}\"}");
}

#[test]
fn json_of_empty_title() {
    let units: Vec<u16> = info_to_json(&titled(""))
        .chunks(2)
        .map(|pair| u16::from_le_bytes([pair[0], pair[1]]))
        .collect();
    assert_eq!(String::from_utf16(&units).unwrap(), "{\"title\": \"\"}");
}

#[test]
fn encoding_agrees_with_the_standard_library() {
    let text = "a\u{7F}\u{80}\u{7FF}\u{800}\u{D7FF}\u{E000}\u{FFFD}\u{10000}\u{1F600}\u{10FFFF}";
    let expected: Vec<u8> = text.encode_utf16().flat_map(|unit| unit.to_le_bytes()).collect();
    assert_eq!(encode_wide(text), expected);
}

#[test]
fn what_is_written_reads_back_as_the_same_title() {
    for title in ["Song", "\u{6B4C}\u{66F2}\u{540D}", "mixed \u{1F3B5} \u{E9}", "a\u{FFFF}\u{10000}"] {
        let mut bytes = info_to_txt(&titled(title));
        bytes.extend_from_slice(&[0, 0]);
        let image = qqmusic_reader::reader::MemoryImage::new(0x40000, bytes);
        let units = title.encode_utf16().count();
        assert_eq!(
            qqmusic_reader::memory::read_wstring(&image, 0x40000, Some(units)),
            Ok(title.to_string()),
            "{:?}",
            title
        );
    }
}

fn json_document(title: &str) -> String {
    let units: Vec<u16> = info_to_json(&titled(title))
        .chunks(2)
        .map(|pair| u16::from_le_bytes([pair[0], pair[1]]))
        .collect();
    String::from_utf16(&units).unwrap()
}

#[test]
fn quotation_marks_and_backslashes_are_escaped() {
    assert_eq!(json_document("\""), "{\"title\": \"\\\"\"}");
    assert_eq!(json_document("\\"), "{\"title\": \"\\\\\"}");
    assert_eq!(json_document("say \"hi\""), "{\"title\": \"say \\\"hi\\\"\"}");
    assert_eq!(json_document("a\\b\\\"c"), "{\"title\": \"a\\\\b\\\\\\\"c\"}");
}

#[test]
fn control_characters_are_escaped() {
    assert_eq!(json_document("a\nb"), "{\"title\": \"a\\u000ab\"}");
    assert_eq!(json_document("\u{0}\t\r\u{1f}"), "{\"title\": \"\\u0000\\u0009\\u000d\\u001f\"}");
    assert_eq!(escape_json("\u{10}"), "\\u0010");
}

#[test]
fn other_characters_stand_for_themselves() {
    assert_eq!(escape_json(""), "");
    assert_eq!(escape_json(" !#[]/'\u{7f}\u{80}"), " !#[]/'\u{7f}\u{80}");
    assert_eq!(escape_json("\u{6B4C} \u{1F3B5}"), "\u{6B4C} \u{1F3B5}");
    assert_eq!(json_document("\u{1F3B5}"), "{\"title\": \"\u{1F3B5}\"}");
}

fn unescape(inside: &str) -> String {
    let chars: Vec<char> = inside.chars().collect();
    let mut text = String::new();
    let mut at = 0;
    while at < chars.len() {
        if chars[at] == '\\' && chars[at + 1] == 'u' {
            let digits: String = chars[at + 2..at + 6].iter().collect();
            text.push(char::from_u32(u32::from_str_radix(&digits, 16).unwrap()).unwrap());
            at += 6;
        } else if chars[at] == '\\' {
            text.push(chars[at + 1]);
            at += 2;
        } else {
            text.push(chars[at]);
            at += 1;
        }
    }
    text
}

#[test]
fn the_value_of_the_json_string_is_the_title() {
    for title in ["", "plain", "\"", "\\", "\\u0041", "\\\"", "a\u{0}b\u{1f}c\n", "\"\u{6B4C}\"\\"] {
        let document = json_document(title);
        let inside = &document["{\"title\": \"".len()..document.len() - 2];
        assert!(document.starts_with("{\"title\": \"") && document.ends_with("\"}"));
        assert!(inside.chars().all(|c| c >= ' '));
        assert_eq!(unescape(inside), title, "{:?}", title);
    }
}
