use gartk::{ColorError, ColorValue, NamedColor, Rgba8};

/// The 0.0-1.0 components of 8-bit components.
fn unit(c: Rgba8) -> (f64, f64, f64, f64) {
    (c.r as f64 / 255.0, c.g as f64 / 255.0, c.b as f64 / 255.0, c.a as f64 / 255.0)
}

#[test]
fn test_hex_parsing() {
    assert_eq!(unit(Rgba8::from_hex("#fff").unwrap()), (1.0, 1.0, 1.0, 1.0));
    assert_eq!(unit(Rgba8::from_hex("#000000").unwrap()), (0.0, 0.0, 0.0, 1.0));
    assert_eq!(unit(Rgba8::from_hex("#ff0000").unwrap()), (1.0, 0.0, 0.0, 1.0));
    assert_eq!(unit(Rgba8::from_hex("#00ff0080").unwrap()), (0.0, 1.0, 0.0, 128.0 / 255.0));
}

#[test]
fn test_rgb_parsing() {
    match ColorValue::from_rgb_str("rgb(255, 0, 0)").unwrap() {
        ColorValue::Rgba(c) => assert_eq!(unit(c), (1.0, 0.0, 0.0, 1.0)),
        other => panic!("unexpected {:?}", other),
    }
    match ColorValue::from_rgb_str("rgba(0, 255, 0, 0.5)").unwrap() {
        ColorValue::RgbAlphaText { r, g, b, alpha } => {
            let a: f64 = alpha.parse().unwrap();
            assert_eq!((r as f64 / 255.0, g as f64 / 255.0, b as f64 / 255.0, a), (0.0, 1.0, 0.0, 0.5));
        }
        other => panic!("unexpected {:?}", other),
    }
}

#[test]
fn test_named_colors() {
    assert_eq!(NamedColor::from_name("black").unwrap(), NamedColor::Black);
    assert_eq!(NamedColor::from_name("WHITE").unwrap(), NamedColor::White);
}

#[test]
fn hex_forms() {
    assert_eq!(Rgba8::from_hex("fff"), Ok(Rgba8 { r: 255, g: 255, b: 255, a: 255 }));
    assert_eq!(Rgba8::from_hex("##1a2B3c"), Ok(Rgba8 { r: 0x1a, g: 0x2b, b: 0x3c, a: 255 }));
    assert_eq!(Rgba8::from_hex("#123"), Ok(Rgba8 { r: 0x11, g: 0x22, b: 0x33, a: 255 }));
    // only hexadecimal digits are accepted
    assert_eq!(Rgba8::from_hex("#+f0000"), Err(ColorError::InvalidHex("+f0000".to_string())));
    assert_eq!(Rgba8::from_hex("#ff 000"), Err(ColorError::InvalidHex("ff 000".to_string())));
}

#[test]
fn hex_errors_carry_text_without_hashes() {
    assert_eq!(Rgba8::from_hex("#ggg"), Err(ColorError::InvalidHex("ggg".to_string())));
    assert_eq!(Rgba8::from_hex("#12345"), Err(ColorError::InvalidHex("12345".to_string())));
    assert_eq!(Rgba8::from_hex("#"), Err(ColorError::InvalidHex(String::new())));
    assert_eq!(Rgba8::from_hex("#+ff"), Err(ColorError::InvalidHex("+ff".to_string())));
    assert_eq!(Rgba8::from_hex("#é1"), Err(ColorError::InvalidHex("é1".to_string())));
}

#[test]
fn rgb_errors() {
    assert_eq!(ColorValue::from_rgb_str(" rgb(1,2) "), Err(ColorError::InvalidRgb("rgb(1,2)".to_string())));
    assert_eq!(ColorValue::from_rgb_str("rgb(256,0,0)"), Err(ColorError::InvalidRgb("rgb(256,0,0)".to_string())));
    assert_eq!(ColorValue::from_rgb_str("rgba(1,2,3)"), Err(ColorError::InvalidRgb("rgba(1,2,3)".to_string())));
    assert_eq!(ColorValue::from_rgb_str("rgb(1,2,3"), Err(ColorError::InvalidRgb("rgb(1,2,3".to_string())));
    assert_eq!(ColorValue::from_rgb_str("hsl(1,2,3)"), Err(ColorError::InvalidRgb("hsl(1,2,3)".to_string())));
    assert_eq!(ColorValue::from_rgb_str("rgb(1,-2,3)"), Err(ColorError::InvalidRgb("rgb(1,-2,3)".to_string())));
}

#[test]
fn rgb_component_forms() {
    assert_eq!(
        ColorValue::from_rgb_str("  rgb( +10 ,020,  255 )\n"),
        Ok(ColorValue::Rgba(Rgba8 { r: 10, g: 20, b: 255, a: 255 }))
    );
    assert_eq!(
        ColorValue::from_rgb_str("rgba(1,2,3,  .25 )"),
        Ok(ColorValue::RgbAlphaText { r: 1, g: 2, b: 3, alpha: ".25".to_string() })
    );
}

#[test]
fn names_and_aliases() {
    assert_eq!(NamedColor::from_name("Grey"), Ok(NamedColor::Gray));
    assert_eq!(NamedColor::from_name("darkgrey"), Ok(NamedColor::DarkGray));
    assert_eq!(NamedColor::from_name("LightGray"), Ok(NamedColor::LightGray));
    assert_eq!(NamedColor::from_name("transparent"), Ok(NamedColor::Transparent));
    assert_eq!(NamedColor::from_name("Orange"), Err(ColorError::UnknownName("Orange".to_string())));
    assert_eq!(NamedColor::from_name(" red"), Err(ColorError::UnknownName(" red".to_string())));
}

#[test]
fn parse_dispatches_on_form() {
    assert_eq!(ColorValue::parse("  #ff0000 "), Ok(ColorValue::Rgba(Rgba8 { r: 255, g: 0, b: 0, a: 255 })));
    assert_eq!(ColorValue::parse("rgb(0,0,255)"), Ok(ColorValue::Rgba(Rgba8 { r: 0, g: 0, b: 255, a: 255 })));
    assert_eq!(ColorValue::parse(" Magenta\t"), Ok(ColorValue::Named(NamedColor::Magenta)));
    assert_eq!(ColorValue::parse("rgbx"), Err(ColorError::InvalidRgb("rgbx".to_string())));
    assert_eq!(ColorValue::parse("#zz"), Err(ColorError::InvalidHex("zz".to_string())));
    assert_eq!(ColorValue::parse(" nope "), Err(ColorError::UnknownName("nope".to_string())));
}
