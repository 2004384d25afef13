use wallpaper::text::{chars_of, decimal_string, is_whitespace, trim};

#[test]
fn white_space_is_what_the_standard_library_says() {
    for code in 0..=0x10FFFFu32 {
        if let Some(c) = char::from_u32(code) {
            assert_eq!(is_whitespace(c), c.is_whitespace(), "U+{:04X}", code);
        }
    }
}

#[test]
fn trim_agrees_with_the_standard_library() {
    let samples = [
        "",
        " ",
        "a",
        " a",
        "a ",
        "  a  b  ",
        "\n\t x \r\n",
        "\u{a0}\u{2003}caf\u{e9}\u{3000}",
        "\u{200b}x\u{200b}",
        "\u{85}\u{1680}\u{2028}\u{2029}\u{202f}\u{205f}",
        "'file:///home/alice/Pictures/a b.png'\n",
    ];
    for s in samples {
        assert_eq!(trim(s), s.trim(), "{:?}", s);
    }
}

#[test]
fn trim_has_exact_results() {
    assert_eq!(trim("  sunset.jpg \n"), "sunset.jpg");
    assert_eq!(trim("\t\t"), "");
    assert_eq!(trim("a \u{1F5BC} b"), "a \u{1F5BC} b");
}

#[test]
fn chars_are_handed_out_in_order() {
    assert_eq!(chars_of(""), Vec::<char>::new());
    assert_eq!(chars_of("a\u{e9}\u{1F5BC}"), vec!['a', '\u{e9}', '\u{1F5BC}']);
}

#[test]
fn decimal_agrees_with_the_standard_library() {
    let samples = [
        0,
        1,
        9,
        10,
        11,
        99,
        100,
        101,
        404,
        65535,
        1_000_000,
        i32::MAX,
        -1,
        -9,
        -10,
        -128,
        -1_000_000,
        i32::MIN + 1,
        i32::MIN,
    ];
    for n in samples {
        assert_eq!(decimal_string(n), n.to_string());
    }
    for n in -1200..1200 {
        assert_eq!(decimal_string(n), n.to_string());
    }
}

#[test]
fn decimal_has_exact_results() {
    assert_eq!(decimal_string(0), "0");
    assert_eq!(decimal_string(7), "7");
    assert_eq!(decimal_string(1230), "1230");
    assert_eq!(decimal_string(-45), "-45");
}
