use element_style::json::JsonField;
use element_style::length::{Decimal, Length, UnitError};
use element_style::style::{
    parse_json_style, style_from_fields, Align, Display, ElementStyle, FieldError, FlexDirection,
    Justify, Overflow, PositionType, StyleError, Wrap,
};

fn dec(negative: bool, whole: &str, frac: &str) -> Decimal {
    Decimal { negative, whole: whole.chars().collect(), frac: frac.chars().collect() }
}

fn parse(text: &str) -> Result<ElementStyle, StyleError> {
    parse_json_style(text.to_string())
}

fn assert_all_none(s: &ElementStyle) {
    assert!(s.flex_direction.is_none());
    assert!(s.justify_content.is_none());
    assert!(s.position.is_none());
    assert!(s.align_content.is_none());
    assert!(s.align_items.is_none());
    assert!(s.align_self.is_none());
    assert!(s.flex_wrap.is_none());
    assert!(s.display.is_none());
    assert!(s.overflow.is_none());
    assert!(s.aspect_ratio.is_none());
    assert!(s.border_bottom.is_none());
    assert!(s.border_right.is_none());
    assert!(s.border_left.is_none());
    assert!(s.border_top.is_none());
    assert!(s.border_start.is_none());
    assert!(s.border_end.is_none());
    assert!(s.border.is_none());
    assert!(s.flex_shrink.is_none());
    assert!(s.flex_grow.is_none());
    assert!(s.flex.is_none());
    assert!(s.bottom.is_none());
    assert!(s.end.is_none());
    assert!(s.flex_basis.is_none());
    assert!(s.height.is_none());
    assert!(s.left.is_none());
    assert!(s.margin.is_none());
    assert!(s.margin_bottom.is_none());
    assert!(s.margin_end.is_none());
    assert!(s.margin_horizontal.is_none());
    assert!(s.margin_left.is_none());
    assert!(s.margin_right.is_none());
    assert!(s.margin_start.is_none());
    assert!(s.margin_top.is_none());
    assert!(s.margin_vertical.is_none());
    assert!(s.max_height.is_none());
    assert!(s.max_width.is_none());
    assert!(s.min_height.is_none());
    assert!(s.min_width.is_none());
    assert!(s.padding.is_none());
    assert!(s.padding_bottom.is_none());
    assert!(s.padding_end.is_none());
    assert!(s.padding_horizontal.is_none());
    assert!(s.padding_left.is_none());
    assert!(s.padding_right.is_none());
    assert!(s.padding_start.is_none());
    assert!(s.padding_top.is_none());
    assert!(s.padding_vertical.is_none());
    assert!(s.right.is_none());
    assert!(s.start.is_none());
    assert!(s.top.is_none());
    assert!(s.width.is_none());
    assert!(s.background.is_none());
}

#[test]
fn mixed_object_decodes_known_fields() {
    let s = parse(r#"{"width": "50%", "height": "120px", "flex_grow": 2, "display": "flex", "unknown_prop": 1}"#)
        .unwrap();
    assert_eq!(s.width, Some(Length::Percent(dec(false, "50", ""))));
    assert_eq!(s.height, Some(Length::Point(dec(false, "120", ""))));
    assert_eq!(s.flex_grow.as_ref().and_then(|n| n.as_f64()), Some(2.0));
    assert_eq!(s.display, Some(Display::Flex));
    assert!(s.margin.is_none());
    assert!(s.position.is_none());
}

#[test]
fn bogus_position_names_the_field() {
    let e = parse(r#"{"position": "bogus"}"#).unwrap_err();
    assert_eq!(
        e,
        StyleError::InvalidField { name: "position".to_string(), problem: FieldError::UnknownWord }
    );
}

#[test]
fn empty_object_gives_empty_record() {
    let s = parse("{}").unwrap();
    assert_all_none(&s);
    let t = style_from_fields(&Vec::new()).unwrap();
    assert_all_none(&t);
}

#[test]
fn absent_or_non_string_length_is_none() {
    let s = parse(r#"{"width": 5, "height": null, "margin": true, "padding": ["1px"], "top": {"a": 1}}"#).unwrap();
    assert!(s.width.is_none());
    assert!(s.height.is_none());
    assert!(s.margin.is_none());
    assert!(s.padding.is_none());
    assert!(s.top.is_none());
    assert!(s.left.is_none());
}

#[test]
fn malformed_length_is_an_error() {
    let e = parse(r#"{"width": "50q"}"#).unwrap_err();
    assert_eq!(
        e,
        StyleError::InvalidField {
            name: "width".to_string(),
            problem: FieldError::BadLength(UnitError::UnknownUnit)
        }
    );
    let e = parse(r#"{"margin_top": "%"}"#).unwrap_err();
    assert_eq!(
        e,
        StyleError::InvalidField {
            name: "margin_top".to_string(),
            problem: FieldError::BadLength(UnitError::BadNumber)
        }
    );
}

#[test]
fn malformed_json_is_a_syntax_error() {
    assert!(matches!(parse("{\"width\": "), Err(StyleError::Syntax(_))));
    assert!(matches!(parse("not json"), Err(StyleError::Syntax(_))));
}

#[test]
fn exponent_lengths_in_a_record() {
    let s = parse(r#"{"width": "2.5e1%", "min_height": "1E2px"}"#).unwrap();
    assert_eq!(s.width, Some(Length::Percent(dec(false, "25", ""))));
    assert_eq!(s.min_height, Some(Length::Point(dec(false, "100", ""))));
}

#[test]
fn non_object_is_refused() {
    assert_eq!(parse("[1, 2]"), Err(StyleError::NotAnObject));
    assert_eq!(parse("\"50%\""), Err(StyleError::NotAnObject));
}

#[test]
fn wrong_types_are_errors() {
    assert_eq!(
        parse(r#"{"flex_grow": "2"}"#),
        Err(StyleError::InvalidField { name: "flex_grow".to_string(), problem: FieldError::NotANumber })
    );
    assert_eq!(
        parse(r#"{"display": 1}"#),
        Err(StyleError::InvalidField { name: "display".to_string(), problem: FieldError::NotAString })
    );
}

#[test]
fn null_properties_are_absent() {
    let s = parse(r#"{"display": null, "flex": null, "background": null}"#).unwrap();
    assert!(s.display.is_none());
    assert!(s.flex.is_none());
    assert!(s.background.is_none());
}

#[test]
fn every_vocabulary_reads() {
    let s = parse(
        r#"{"flex_direction": "row-reverse", "justify_content": "space-evenly", "position": "absolute",
            "align_content": "stretch", "align_items": "baseline", "align_self": "auto",
            "flex_wrap": "wrap-reverse", "display": "none", "overflow": "scroll"}"#,
    )
    .unwrap();
    assert_eq!(s.flex_direction, Some(FlexDirection::RowReverse));
    assert_eq!(s.justify_content, Some(Justify::SpaceEvenly));
    assert_eq!(s.position, Some(PositionType::Absolute));
    assert_eq!(s.align_content, Some(Align::Stretch));
    assert_eq!(s.align_items, Some(Align::Baseline));
    assert_eq!(s.align_self, Some(Align::Auto));
    assert_eq!(s.flex_wrap, Some(Wrap::WrapReverse));
    assert_eq!(s.display, Some(Display::Hidden));
    assert_eq!(s.overflow, Some(Overflow::Scroll));
}

#[test]
fn scalars_and_background_are_kept() {
    let s = parse(r#"{"aspect_ratio": 1.5, "border": 3, "background": {"color": "red"}}"#).unwrap();
    assert_eq!(s.aspect_ratio.as_ref().and_then(|n| n.as_f64()), Some(1.5));
    assert_eq!(s.border.as_ref().and_then(|n| n.as_i64()), Some(3));
    match s.background {
        Some(JsonField::Nested(v)) => assert_eq!(v["color"].as_str(), Some("red")),
        other => panic!("unexpected background {:?}", other),
    }
}

#[test]
fn fields_decode_without_json_text() {
    let f = vec![
        ("width".to_string(), JsonField::Text("auto".to_string())),
        ("overflow".to_string(), JsonField::Text("hidden".to_string())),
        ("flex_wrap".to_string(), JsonField::Text("nowrap".to_string())),
        ("background".to_string(), JsonField::Text("blue".to_string())),
    ];
    let s = style_from_fields(&f).unwrap();
    assert_eq!(s.width, Some(Length::Auto));
    assert_eq!(s.overflow, Some(Overflow::Hidden));
    assert_eq!(s.flex_wrap, Some(Wrap::NoWrap));
    assert_eq!(s.background, Some(JsonField::Text("blue".to_string())));
}

#[test]
fn record_encodes_to_entries() {
    let s = parse(r#"{"width": "50.7%", "height": "120px", "flex_grow": 2, "display": "flex", "margin": "auto"}"#)
        .unwrap();
    assert!(element_style::style::style_is_wf(&s));
    let f = element_style::style::style_to_fields(&s);
    assert_eq!(f.len(), 52);
    let get = |name: &str| f.iter().find(|(k, _)| k == name).map(|(_, v)| v.clone()).unwrap();
    assert_eq!(get("width"), JsonField::Text("50%".to_string()));
    assert_eq!(get("height"), JsonField::Text("120px".to_string()));
    assert_eq!(get("margin"), JsonField::Text("auto".to_string()));
    assert_eq!(get("display"), JsonField::Text("flex".to_string()));
    assert_eq!(get("position"), JsonField::Null);
    assert_eq!(get("top"), JsonField::Null);
    assert_eq!(get("background"), JsonField::Null);
    match get("flex_grow") {
        JsonField::Number(n) => assert_eq!(n.as_f64(), Some(2.0)),
        other => panic!("unexpected {:?}", other),
    }
    assert_eq!(f[0].0, "flex_direction");
    assert_eq!(f[51].0, "background");
}

#[test]
fn encoded_record_decodes_again() {
    let s = parse(r#"{"width": "-12.5px", "align_self": "center", "border": 1}"#).unwrap();
    let t = style_from_fields(&element_style::style::style_to_fields(&s)).unwrap();
    assert_eq!(t.width, Some(Length::Point(dec(true, "12", ""))));
    assert_eq!(t.align_self, Some(Align::Center));
    assert_eq!(t.border, s.border);
    assert!(t.height.is_none());
}

#[test]
fn words_read_back() {
    for x in [FlexDirection::Row, FlexDirection::RowReverse, FlexDirection::Column, FlexDirection::ColumnReverse] {
        assert_eq!(FlexDirection::from_word(x.word()), Some(x));
    }
    for x in [Justify::FlexStart, Justify::Center, Justify::FlexEnd, Justify::SpaceBetween, Justify::SpaceAround, Justify::SpaceEvenly] {
        assert_eq!(Justify::from_word(x.word()), Some(x));
    }
    for x in [Align::Auto, Align::FlexStart, Align::Center, Align::FlexEnd, Align::Stretch, Align::Baseline, Align::SpaceBetween, Align::SpaceAround] {
        assert_eq!(Align::from_word(x.word()), Some(x));
    }
    for x in [Wrap::NoWrap, Wrap::Wrap, Wrap::WrapReverse] {
        assert_eq!(Wrap::from_word(x.word()), Some(x));
    }
    assert_eq!(PositionType::from_word("absolute"), Some(PositionType::Absolute));
    assert_eq!(PositionType::Relative.word(), "relative");
    assert_eq!(Display::Hidden.word(), "none");
    assert_eq!(Overflow::from_word(Overflow::Visible.word()), Some(Overflow::Visible));
    assert_eq!(Overflow::from_word("Visible"), None);
}

#[test]
fn unknown_entries_change_nothing() {
    let plain = vec![
        ("width".to_string(), JsonField::Text("10px".to_string())),
        ("display".to_string(), JsonField::Text("flex".to_string())),
    ];
    let mut noisy = plain.clone();
    noisy.insert(1, ("colour".to_string(), JsonField::Text("50q".to_string())));
    noisy.insert(0, ("Width".to_string(), JsonField::Bool(false)));
    assert_eq!(style_from_fields(&noisy), style_from_fields(&plain));
    assert!(style_from_fields(&plain).is_ok());
}
