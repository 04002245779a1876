use gartk::{FontSpecShape, TextAlign};

/// The family and size the font specification names, with the size text
/// read as a number as the toolkit does.
fn family_and_size(spec: &str) -> Option<(String, f64)> {
    match gartk::font::font_spec_shape(spec) {
        FontSpecShape::Polybar { family, size_text } => size_text.parse().ok().map(|s| (family, s)),
        FontSpecShape::Pango { family, size_text } => match size_text.parse::<f64>() {
            Ok(s) => Some((family, s)),
            Err(_) => Some((spec.to_string(), 12.0)),
        },
        FontSpecShape::Empty => None,
    }
}

#[test]
fn test_parse_font_spec() {
    let (family, size) = family_and_size("Sans 12").unwrap();
    assert_eq!(family, "Sans");
    assert_eq!(size, 12.0);

    let (family, size) = family_and_size("JetBrains Mono:size=14").unwrap();
    assert_eq!(family, "JetBrains Mono");
    assert_eq!(size, 14.0);

    let (family, size) = family_and_size("Monospace Bold 11").unwrap();
    assert_eq!(family, "Monospace Bold");
    assert_eq!(size, 11.0);
}

#[test]
fn font_spec_shapes() {
    assert_eq!(
        gartk::font::font_spec_shape("  Fira  Code :size=9.5:size=1"),
        FontSpecShape::Polybar { family: "Fira  Code".to_string(), size_text: "9.5:size=1".to_string() }
    );
    assert_eq!(
        gartk::font::font_spec_shape(" Noto\tSans   CJK 10 "),
        FontSpecShape::Pango { family: "Noto Sans CJK".to_string(), size_text: "10".to_string() }
    );
    assert_eq!(
        gartk::font::font_spec_shape("Mono"),
        FontSpecShape::Pango { family: String::new(), size_text: "Mono".to_string() }
    );
    assert_eq!(gartk::font::font_spec_shape(" \t "), FontSpecShape::Empty);
    assert_eq!(family_and_size("Terminus Bold"), Some(("Terminus Bold".to_string(), 12.0)));
    assert_eq!(family_and_size("Mono:size=big"), None);
    assert_eq!(TextAlign::default(), TextAlign::Left);
}

#[test]
fn unicode_whitespace_separates_words() {
    assert_eq!(
        gartk::font::font_spec_shape("Noto\u{3000}Sans\u{A0}12\u{2009}"),
        FontSpecShape::Pango { family: "Noto Sans".to_string(), size_text: "12".to_string() }
    );
}
