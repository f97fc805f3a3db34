use rust_anilist::text::fold;

fn white_space(c: char) -> bool {
    matches!(
        c as u32,
        0x09..=0x0D
            | 0x20
            | 0x85
            | 0xA0
            | 0x1680
            | 0x2000..=0x200A
            | 0x2028
            | 0x2029
            | 0x202F
            | 0x205F
            | 0x3000
    )
}

#[test]
fn fold_trims_and_raises() {
    assert_eq!(fold("  ja \n"), "JA");
    assert_eq!(fold("ja"), "JA");
    assert_eq!(fold("Non-Binary"), "NON-BINARY");
    assert_eq!(fold("light_novel"), "LIGHT_NOVEL");
}

#[test]
fn fold_of_blank_text_is_empty() {
    assert_eq!(fold(""), "");
    assert_eq!(fold(" \t\r\n"), "");
    assert_eq!(fold("\u{3000}\u{2003}"), "");
}

#[test]
fn fold_keeps_inner_white_space() {
    assert_eq!(fold(" not yet  released "), "NOT YET  RELEASED");
}

#[test]
fn fold_trims_exactly_the_white_space_characters() {
    for c in (0u32..=0x10FFFF).filter_map(char::from_u32) {
        let padded = format!("{c}x{c}");
        assert_eq!(fold(&padded) == "X", white_space(c), "U+{:04X}", c as u32);
    }
}

#[test]
fn fold_puts_every_ascii_character_in_upper_case() {
    for b in 0u8..128 {
        let c = b as char;
        let text = format!("a{c}a");
        let expected = format!("A{}A", c.to_ascii_uppercase());
        assert_eq!(fold(&text), expected);
    }
}

#[test]
fn fold_follows_unicode_outside_ascii() {
    assert_eq!(fold("tschüß"), "TSCHÜSS");
    assert_eq!(fold("ﬁ"), "FI");
}
