use qqmusic_reader::lyrics::{filter_lyrics, trim_text, white_space};

#[test]
fn web_addresses_are_removed() {
    assert_eq!(filter_lyrics("see http://example.com/a?b=1 now"), "see  now");
    assert_eq!(filter_lyrics("https://example.com"), "");
    assert_eq!(filter_lyrics("la la https://a.b/c\nnext line"), "la la \nnext line");
    assert_eq!(filter_lyrics("httpx://not.an.address"), "httpx://not.an.address");
}

#[test]
fn file_ending_and_domain_are_removed() {
    assert_eq!(filter_lyrics("song.wma"), "song");
    assert_eq!(filter_lyrics("from qqmusic.qq.com with love"), "from  with love");
    assert_eq!(filter_lyrics("qqmusicXqqYcom"), "qqmusicXqqYcom");
    assert_eq!(filter_lyrics("awma"), "awma");
}

#[test]
fn removals_happen_in_order() {
    assert_eq!(filter_lyrics("x http://qqmusic.qq.com/song.wma y"), "x  y");
    assert_eq!(filter_lyrics("qqmusic.qq.wma.com"), "");
    assert_eq!(filter_lyrics(".wqqmusic.qq.comma"), ".wma");
    assert_eq!(filter_lyrics("http://x .wma"), "");
}

#[test]
fn surrounding_white_space_is_removed() {
    assert_eq!(filter_lyrics("  hello world \n"), "hello world");
    assert_eq!(filter_lyrics(" \t\r\n "), "");
    assert_eq!(filter_lyrics(""), "");
    assert_eq!(filter_lyrics("http://only.address  "), "");
}

#[test]
fn plain_lyrics_are_kept() {
    assert_eq!(filter_lyrics("first line\nsecond line"), "first line\nsecond line");
}

#[test]
fn trim_removes_white_space_at_both_ends_only() {
    assert_eq!(trim_text("  a b  "), "a b");
    assert_eq!(trim_text("\u{3000}a\u{A0}\u{2003}"), "a");
    assert_eq!(trim_text("a"), "a");
    assert_eq!(trim_text(""), "");
    assert_eq!(trim_text("   "), "");
    assert_eq!(trim_text("\u{200B}a\u{200B}"), "\u{200B}a\u{200B}");
}

#[test]
fn trim_agrees_with_the_standard_library() {
    for text in ["", " ", " a", "a ", "\n\ta b\r\n", "\u{85}x\u{1680}", "\u{2028}\u{2029}", "x\u{202F}\u{205F}"] {
        assert_eq!(trim_text(text), text.trim());
    }
}

#[test]
fn white_space_agrees_with_the_standard_library() {
    for code in 0..=0x10FFFFu32 {
        if let Some(c) = char::from_u32(code) {
            assert_eq!(white_space(c), c.is_whitespace(), "U+{:04X}", code);
        }
    }
}
