use jsoncanvas::color::{Color, HexColor};
use jsoncanvas::json::{parse_document, render_document, Json};

#[test]
fn preset_deser() {
    let doc = parse_document("\"red\"").unwrap();
    let name = match doc {
        Json::Str(s) => s,
        _ => panic!("expected a string document"),
    };
    let preset = Color::Preset(name);
    assert_eq!(preset, Color::Preset("red".to_string()));
}

#[test]
fn color_preset_deser() {
    let doc = parse_document("\"2\"").unwrap();
    let text = match doc {
        Json::Str(s) => s,
        _ => panic!("expected a string document"),
    };
    let color = Color::decode(&text).unwrap();
    assert_eq!(color, Color::Preset("2".to_string()));
}

#[test]
fn color_rgb_deser() {
    let doc = parse_document("\"#FF0000\"").unwrap();
    let text = match doc {
        Json::Str(s) => s,
        _ => panic!("expected a string document"),
    };
    let color = Color::decode(&text).unwrap();
    assert_eq!(color, Color::Color(HexColor::rgb(255, 0, 0)));
}

#[test]
fn color_ser() {
    assert_eq!(
        render_document(&Json::Str(Color::Preset("yellow".to_string()).encode())),
        "\"yellow\""
    );
    assert_eq!(
        render_document(&Json::Str(Color::Color(HexColor::rgb(255, 0, 0)).encode())),
        "\"#FF0000\""
    );
}

#[test]
fn color_round_trip_exact() {
    let red = Color::decode("#FF0000").unwrap();
    assert_eq!(red.encode(), "#FF0000");
    let named = Color::decode("red").unwrap();
    assert_eq!(named.encode(), "red");
}

#[test]
fn hex_shorthand_and_alpha() {
    assert_eq!(HexColor::parse("#F00").unwrap(), HexColor::rgb(255, 0, 0));
    assert_eq!(HexColor::parse("#ff0000").unwrap(), HexColor::rgb(255, 0, 0));
    assert_eq!(
        HexColor::parse("#11223344").unwrap(),
        HexColor::new(0x11, 0x22, 0x33, 0x44)
    );
    let translucent = Color::Color(HexColor::new(0xAB, 0xCD, 0xEF, 0x10));
    assert_eq!(translucent.encode(), "#ABCDEF10");
}

#[test]
fn hex_rejects_malformed() {
    assert!(HexColor::parse("#GG0000").is_err());
    assert!(HexColor::parse("#12345").is_err());
    assert!(HexColor::parse("12AB56").is_err());
    assert!(Color::decode("#12").is_err());
}

#[test]
fn json_escapes_round_trip() {
    let text = "a \"quoted\"\\ line\nwith\ttabs\r and \u{1} control".to_string();
    let doc = Json::Str(text.clone());
    let wire = render_document(&doc);
    match parse_document(&wire).unwrap() {
        Json::Str(back) => assert_eq!(back, text),
        _ => panic!("expected a string document"),
    }
}

#[test]
fn json_numbers_round_trip() {
    for text in ["0", "-1", "9223372036854775807", "-9223372036854775808", "18446744073709551615"] {
        let doc = parse_document(text).unwrap();
        assert_eq!(render_document(&doc), text);
    }
    assert!(parse_document("18446744073709551616").is_err());
    assert!(parse_document("1.5").is_err());
    assert!(parse_document("true").is_err());
}
