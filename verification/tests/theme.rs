use start_page::theme::{Color, Theme};

#[test]
fn color_round_trips_through_hex() {
    let c = Color::new(0x2b, 0xc3, 0xde);
    assert_eq!(c.to_hex_string(), "#2bc3de");
    assert_eq!("#2bc3de".parse::<Color>().unwrap(), c);
}

#[test]
fn color_rejects_bad_hex() {
    assert!("not-a-color".parse::<Color>().is_err());
}

#[test]
fn color_parses_without_hash_and_in_upper_case() {
    assert_eq!("2BC3DE".parse::<Color>().unwrap(), Color::new(0x2b, 0xc3, 0xde));
    assert_eq!(Color::parse_hex("#FFffFF").unwrap(), Color::new(255, 255, 255));
}

#[test]
fn color_fields_are_hex_digits_only() {
    assert!("#+f+f+f".parse::<Color>().is_err());
    assert!("#+f0000".parse::<Color>().is_err());
    assert!("#++0000".parse::<Color>().is_err());
    assert!("#-f0000".parse::<Color>().is_err());
    assert!("#12 456".parse::<Color>().is_err());
    assert!("#12345g".parse::<Color>().is_err());
}

#[test]
fn color_rejects_wrong_lengths_and_keeps_the_input() {
    let err = "#12345".parse::<Color>().unwrap_err();
    assert_eq!(err.input(), "#12345");
    assert!("#1234567".parse::<Color>().is_err());
    assert!("##123456".parse::<Color>().is_err());
    assert!("".parse::<Color>().is_err());
    assert!("#".parse::<Color>().is_err());
}

#[test]
fn color_rejects_non_ascii() {
    assert!("#ééé".parse::<Color>().is_err());
    assert!("aébcd".parse::<Color>().is_err());
}

#[test]
fn color_formats_lower_case_with_leading_zeros() {
    assert_eq!(Color::new(0, 10, 255).to_hex_string(), "#000aff");
    let c = Color::new(1, 2, 3);
    assert_eq!(c.to_hex_string().parse::<Color>().unwrap(), c);
}

#[test]
fn default_theme_palette() {
    let t = Theme::default();
    assert_eq!(t.name, "Default");
    assert_eq!(t.background, Color::new(0x12, 0x13, 0x17));
    assert_eq!(t.cyan.to_hex_string(), "#62e0e2");
    assert_eq!(t.gray, Color::new(0x97, 0x98, 0x9d));
}
