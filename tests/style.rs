use std::rc::Rc;

use mermaid_builder::{
    ArrowShape, Color, FontStyle, FontWeight, StyleClassBuilder, StyleClassError, StyleProperty,
    Unit,
};

#[test]
fn test_style_class_display() {
    let style_class = StyleClassBuilder::default()
        .name("myClass")
        .unwrap()
        .property(StyleProperty::Fill(Color::from((255, 0, 0))))
        .unwrap()
        .property(StyleProperty::Stroke(Color::from((0, 0, 255))))
        .unwrap()
        .build()
        .unwrap();
    assert_eq!(style_class.to_string(), "classDef myClass fill: #ff0000,stroke: #0000ff\n");
}

#[test]
fn test_style_class_getters() {
    let style_class = StyleClassBuilder::default()
        .name("myClass")
        .unwrap()
        .property(StyleProperty::Fill(Color::from((255, 0, 0))))
        .unwrap()
        .build()
        .unwrap();
    assert_eq!(style_class.name(), "myClass");
    assert_eq!(style_class.properties().len(), 1);
}

#[test]
fn test_font_style_display() {
    assert_eq!(FontStyle::Normal.to_string(), "normal");
    assert_eq!(FontStyle::Italic.to_string(), "italic");
    assert_eq!(FontStyle::Oblique.to_string(), "oblique");
}

#[test]
fn test_font_weight_display() {
    assert_eq!(FontWeight::Normal.to_string(), "normal");
    assert_eq!(FontWeight::Bold.to_string(), "bold");
    assert_eq!(FontWeight::Bolder.to_string(), "bolder");
    assert_eq!(FontWeight::Lighter.to_string(), "lighter");
    assert_eq!(FontWeight::Number(400).to_string(), "400");
}

#[test]
fn test_style_property_display() {
    let color = Color::from((255, 0, 0));
    assert_eq!(StyleProperty::Fill(color).to_string(), "fill: #ff0000");
    assert_eq!(StyleProperty::Stroke(color).to_string(), "stroke: #ff0000");
    assert_eq!(StyleProperty::Color(color).to_string(), "color: #ff0000");
    assert_eq!(StyleProperty::StrokeWidth(Unit::Pixel(2)).to_string(), "stroke-width: 2px");
    assert_eq!(StyleProperty::FontSize(Unit::Point(12)).to_string(), "font-size: 12pt");
    assert_eq!(StyleProperty::FontWeight(FontWeight::Bold).to_string(), "font-weight: bold");
    assert_eq!(StyleProperty::FontStyle(FontStyle::Italic).to_string(), "font-style: italic");
    assert_eq!(StyleProperty::StrokeDasharray(5, 2).to_string(), "stroke-dasharray: 5, 2");
    assert_eq!(StyleProperty::StrokeDashoffset(4).to_string(), "stroke-dashoffset: 4");
    assert_eq!(StyleProperty::Opacity(50).to_string(), "opacity: 0.50");
    assert_eq!(StyleProperty::BorderRadius(Unit::Pixel(5)).to_string(), "rx: 5px, ry: 5px");
}

#[test]
fn test_style_property_is_same_type() {
    assert!(
        StyleProperty::Fill(Color::from((255, 0, 0)))
            .is_same_type(StyleProperty::Fill(Color::from((0, 0, 255))))
    );
    assert!(
        !StyleProperty::Fill(Color::from((255, 0, 0)))
            .is_same_type(StyleProperty::Stroke(Color::from((255, 0, 0))))
    );
}

#[test]
fn test_unit_display() {
    assert_eq!(Unit::Pixel(10).to_string(), "10px");
    assert_eq!(Unit::Point(12).to_string(), "12pt");
}

#[test]
fn test_arrow_shape_left() {
    assert_eq!(ArrowShape::Normal.left(), "<");
    assert_eq!(ArrowShape::Sharp.left(), "(");
    assert_eq!(ArrowShape::X.left(), "x");
    assert_eq!(ArrowShape::Circle.left(), "o");
    assert_eq!(ArrowShape::Triangle.left(), "<|");
    assert_eq!(ArrowShape::Star.left(), "*");
    assert_eq!(ArrowShape::ZeroOrOne.left(), "|o");
    assert_eq!(ArrowShape::ExactlyOne.left(), "||");
    assert_eq!(ArrowShape::ZeroOrMore.left(), "}o");
    assert_eq!(ArrowShape::OneOrMore.left(), "}|");
}

#[test]
fn test_arrow_shape_right() {
    assert_eq!(ArrowShape::Normal.right(), ">");
    assert_eq!(ArrowShape::Sharp.right(), ")");
    assert_eq!(ArrowShape::X.right(), "x");
    assert_eq!(ArrowShape::Circle.right(), "o");
    assert_eq!(ArrowShape::Triangle.right(), "|>");
    assert_eq!(ArrowShape::Star.right(), "*");
    assert_eq!(ArrowShape::ZeroOrOne.right(), "o|");
    assert_eq!(ArrowShape::ExactlyOne.right(), "||");
    assert_eq!(ArrowShape::ZeroOrMore.right(), "o{");
    assert_eq!(ArrowShape::OneOrMore.right(), "|{");
}

#[test]
fn style_class_round_trip_keeps_order() {
    let props = vec![
        StyleProperty::Stroke(Color::from((0, 0, 255))),
        StyleProperty::Fill(Color::from((255, 0, 0))),
        StyleProperty::Opacity(7),
    ];
    let mut builder = StyleClassBuilder::default().name("ordered").unwrap();
    for p in &props {
        builder = builder.property(*p).unwrap();
    }
    let class = builder.build().unwrap();
    assert_eq!(class.name(), "ordered");
    assert_eq!(class.properties(), &props);
}

#[test]
fn duplicate_property_kind_is_rejected() {
    let builder = StyleClassBuilder::default()
        .name("dup")
        .unwrap()
        .property(StyleProperty::Fill(Color::from((1, 2, 3))))
        .unwrap();
    let kept = builder.clone();
    let other = StyleProperty::Fill(Color::from((9, 9, 9)));
    assert_eq!(builder.property(other), Err(StyleClassError::DuplicateProperty(other)));
    assert_eq!(kept.get_properties().len(), 1);
    assert_eq!(kept.get_properties()[0], StyleProperty::Fill(Color::from((1, 2, 3))));
}

#[test]
fn style_class_builder_errors() {
    assert_eq!(StyleClassBuilder::default().name(""), Err(StyleClassError::EmptyName));
    assert_eq!(StyleClassBuilder::default().build(), Err(StyleClassError::MissingProperties));
    let unnamed = StyleClassBuilder::default()
        .property(StyleProperty::Opacity(10))
        .unwrap()
        .build();
    assert_eq!(unnamed, Err(StyleClassError::MissingName));
    let named_empty = StyleClassBuilder::default().name("x").unwrap().build();
    assert_eq!(named_empty, Err(StyleClassError::MissingProperties));
}

#[test]
fn opacity_and_hex_edges() {
    assert_eq!(StyleProperty::Opacity(0).to_string(), "opacity: 0.00");
    assert_eq!(StyleProperty::Opacity(100).to_string(), "opacity: 1.00");
    assert_eq!(StyleProperty::Opacity(7).to_string(), "opacity: 0.07");
    assert_eq!(StyleProperty::Opacity(255).to_string(), "opacity: 2.55");
    assert_eq!(Color::new(0, 171, 15).to_hex(), "#00ab0f");
    assert_eq!(StyleProperty::StrokeDashoffset(65535).to_string(), "stroke-dashoffset: 65535");
    assert_eq!(FontWeight::Number(0).to_string(), "0");
}

#[test]
fn style_class_shared_by_rc() {
    let class = Rc::new(
        StyleClassBuilder::default()
            .name("shared")
            .unwrap()
            .property(StyleProperty::FontSize(Unit::Point(9)))
            .unwrap()
            .build()
            .unwrap(),
    );
    let copy = class.duplicate();
    assert_eq!(copy.name(), "shared");
    assert!(copy.same_as(&class));
}
