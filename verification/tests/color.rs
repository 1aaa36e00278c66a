use deckd::error::DeckError;
use deckd::render::canvas::{create_canvas, parse_hex_color, Rgb, BUTTON_SIZE};

#[test]
fn parse_6_digit_hex() {
    let c = parse_hex_color("#1a1a2e").unwrap();
    let c = tiny_skia::Color::from_rgba8(c.red, c.green, c.blue, 255);
    assert_eq!(c.red(), 0x1a as f32 / 255.0);
}

#[test]
fn parse_3_digit_hex() {
    let c = parse_hex_color("#fff").unwrap();
    let c = tiny_skia::Color::from_rgba8(c.red, c.green, c.blue, 255);
    assert_eq!(c.red(), 1.0);
    assert_eq!(c.green(), 1.0);
}

#[test]
fn create_canvas_basic() {
    let pm = create_canvas("#000000").unwrap();
    assert_eq!(pm.width(), BUTTON_SIZE);
    assert_eq!(pm.height(), BUTTON_SIZE);
}

#[test]
fn hex_colors_by_channel() {
    assert_eq!(parse_hex_color("#fff"), Ok(Rgb { red: 255, green: 255, blue: 255 }));
    assert_eq!(parse_hex_color("#1a1a2e"), Ok(Rgb { red: 26, green: 26, blue: 46 }));
    assert_eq!(parse_hex_color("#1A1a2E"), Ok(Rgb { red: 26, green: 26, blue: 46 }));
    assert_eq!(parse_hex_color("#a0c"), Ok(Rgb { red: 0xaa, green: 0x00, blue: 0xcc }));
    assert_eq!(parse_hex_color("e0e0e0"), Ok(Rgb { red: 224, green: 224, blue: 224 }));
    assert_eq!(parse_hex_color("###123456"), Ok(Rgb { red: 0x12, green: 0x34, blue: 0x56 }));
    assert_eq!(Rgb::from_hex("#c0392b"), Ok(Rgb { red: 0xc0, green: 0x39, blue: 0x2b }));
}

#[test]
fn signs_are_no_digits() {
    assert_eq!(
        parse_hex_color("#+1+2+f"),
        Err(DeckError::Render("invalid hex color: #+1+2+f".to_string()))
    );
    assert!(parse_hex_color("#+++").is_err());
    assert!(parse_hex_color("#1+2+3+").is_err());
    assert!(parse_hex_color("#-1-2-3").is_err());
}

#[test]
fn malformed_hex_is_an_error() {
    assert_eq!(
        parse_hex_color("#ff"),
        Err(DeckError::Render("invalid hex color: #ff".to_string()))
    );
    assert_eq!(parse_hex_color(""), Err(DeckError::Render("invalid hex color: #".to_string())));
    assert_eq!(parse_hex_color("#"), Err(DeckError::Render("invalid hex color: #".to_string())));
    assert_eq!(
        parse_hex_color("##ggg"),
        Err(DeckError::Render("invalid hex color: #ggg".to_string()))
    );
    assert_eq!(
        parse_hex_color("#12345"),
        Err(DeckError::Render("invalid hex color: #12345".to_string()))
    );
    assert_eq!(
        parse_hex_color("#1234567"),
        Err(DeckError::Render("invalid hex color: #1234567".to_string()))
    );
    assert_eq!(
        parse_hex_color("#12 456"),
        Err(DeckError::Render("invalid hex color: #12 456".to_string()))
    );
}

#[test]
fn non_ascii_hex_is_an_error_not_a_crash() {
    assert_eq!(
        parse_hex_color("#é1"),
        Err(DeckError::Render("invalid hex color: #é1".to_string()))
    );
    assert!(parse_hex_color("#ééé").is_err());
    assert!(parse_hex_color("#a€aa").is_err());
    assert!(parse_hex_color("#ｆｆｆ").is_err());
}

#[test]
fn canvas_is_filled_with_the_color() {
    let canvas = create_canvas("#1a1a2e").unwrap();
    let data = canvas.data();
    assert_eq!(data.len(), 72 * 72 * 4);
    for pixel in data.chunks(4) {
        assert_eq!(pixel, &[26, 26, 46, 255]);
    }
    assert_eq!(
        create_canvas("#12").unwrap_err(),
        DeckError::Render("invalid hex color: #12".to_string())
    );
}
