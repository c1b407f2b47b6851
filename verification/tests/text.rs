use library_store::text::{blank, white_space};

#[test]
fn white_space_is_what_trimming_removes() {
    for n in 0u32..=0x10FFFF {
        if let Some(c) = char::from_u32(n) {
            assert_eq!(white_space(c), c.is_whitespace(), "U+{:04X}", n);
        }
    }
}

#[test]
fn blank_is_empty_after_trimming() {
    let samples = [
        "",
        " ",
        " \t\r\n",
        "\u{b}\u{c}\u{85}\u{a0}",
        "\u{1680}\u{2000}\u{200a}\u{2028}\u{2029}\u{202f}\u{205f}\u{3000}",
        "\u{200b}",
        "\u{feff}",
        " a ",
        "Dune",
        "\n.\n",
        "\u{3000}x",
    ];
    for s in samples {
        assert_eq!(blank(s), s.trim().is_empty(), "{:?}", s);
    }
    assert!(blank(" \t\r\n"));
    assert!(!blank("\u{200b}"));
    assert!(!blank(" a "));
}
