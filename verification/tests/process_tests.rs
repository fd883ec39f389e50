use qqmusic_reader::process::{entry_name, find_entry, names_match};

fn buffer(name: &str, length: usize) -> Vec<u16> {
    let mut units: Vec<u16> = name.encode_utf16().collect();
    units.resize(length, 0);
    units
}

#[test]
fn name_ends_at_the_first_zero_unit() {
    assert_eq!(entry_name(&buffer("QQMusic.exe", 260)), "QQMusic.exe");
    assert_eq!(entry_name(&[0x41, 0x42, 0, 0x43, 0]), "AB");
    assert_eq!(entry_name(&[0, 0x41]), "");
    assert_eq!(entry_name(&[]), "");
}

#[test]
fn name_may_fill_the_whole_buffer() {
    assert_eq!(entry_name(&[0x41, 0x42, 0x43]), "ABC");
}

#[test]
fn malformed_name_is_replaced_not_refused() {
    assert_eq!(entry_name(&[0x41, 0xDC00, 0x42, 0]), "A\u{FFFD}B");
    assert_eq!(entry_name(&[0xD83C, 0xDFB5, 0]), "\u{1F3B5}");
}

#[test]
fn names_match_but_for_ascii_case() {
    assert!(names_match("QQMusic.exe", "qqmusic.EXE"));
    assert!(names_match("", ""));
    assert!(!names_match("QQMusic.exe", "QQMusic.ex"));
    assert!(!names_match("QQMusic.exe", "QQMusic_exe"));
    assert!(!names_match("\u{C4}", "\u{E4}"));
    assert!(names_match("\u{6B4C}A", "\u{6B4C}a"));
    assert!(!names_match("@", "`"));
    assert!(!names_match("[", "{"));
}

#[test]
fn matching_agrees_with_the_standard_library() {
    let names = [
        "", "a", "A", "z", "Z", "@", "`", "[", "{", "az", "AZ", "Az", "a\u{E9}", "A\u{C9}",
        "\u{212A}", "k", "K", "abc", "ABC", "ab", "\u{FF21}", "\u{FF41}",
    ];
    for a in names {
        for b in names {
            assert_eq!(names_match(a, b), a.eq_ignore_ascii_case(b), "{:?} {:?}", a, b);
        }
    }
}

#[test]
fn first_matching_entry_is_found() {
    let entries = vec![
        buffer("System", 260),
        buffer("qqmusic.exe", 260),
        buffer("QQMusic.exe", 260),
        buffer("other.exe", 260),
    ];
    assert_eq!(find_entry(&entries, "QQMusic.exe"), Some(1));
    assert_eq!(find_entry(&entries, "OTHER.EXE"), Some(3));
    assert_eq!(find_entry(&entries, "system"), Some(0));
    assert_eq!(find_entry(&entries, "missing.exe"), None);
    assert_eq!(find_entry(&Vec::new(), "QQMusic.exe"), None);
}
