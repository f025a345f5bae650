use std::rc::Rc;

use mermaid_builder::{
    Argument, ArrowShape, ClassAttribute, ClassDiagram, ClassDiagramBuilder, ClassEdgeBuilder,
    ClassMethod, ClassNodeBuilder, ClickEvent, EdgeBuilder, EdgeError, Edge, LineStyle,
    Multiplicity, Navigation, Node, NodeBuilder, StyleClassBuilder, StyleProperty, Unit,
    Visibility,
};

#[test]
fn test_class_edge_builder() {
    let node1 = Rc::new(ClassNodeBuilder::default().label("A").unwrap().id(0).build().unwrap());
    let node2 = Rc::new(ClassNodeBuilder::default().label("B").unwrap().id(1).build().unwrap());
    let edge = ClassEdgeBuilder::default()
        .source(node1.clone())
        .unwrap()
        .destination(node2.clone())
        .unwrap()
        .label("Edge Label")
        .unwrap()
        .line_style(LineStyle::Dashed)
        .left_multiplicity(Multiplicity::One)
        .right_multiplicity(Multiplicity::Many)
        .left_arrow_shape(ArrowShape::Circle)
        .unwrap()
        .right_arrow_shape(ArrowShape::Triangle)
        .unwrap()
        .build()
        .unwrap();
    assert_eq!(edge.source().id(), 0);
    assert_eq!(edge.destination().id(), 1);
    assert_eq!(edge.label(), Some("Edge Label"));
    assert_eq!(edge.line_style(), LineStyle::Dashed);
    assert_eq!(edge.left_multiplicity(), Some(Multiplicity::One));
    assert_eq!(edge.right_multiplicity(), Some(Multiplicity::Many));
    assert_eq!(edge.left_arrow_shape(), Some(ArrowShape::Circle));
    assert_eq!(edge.right_arrow_shape(), Some(ArrowShape::Triangle));
}

#[test]
fn test_multiplicity_display() {
    assert_eq!(Multiplicity::One.to_string(), "1");
    assert_eq!(Multiplicity::ZeroOrOne.to_string(), "0..1");
    assert_eq!(Multiplicity::OneOrMore.to_string(), "1..*");
    assert_eq!(Multiplicity::Many.to_string(), "*");
    assert_eq!(Multiplicity::N.to_string(), "n");
    assert_eq!(Multiplicity::ZeroToN.to_string(), "0..n");
    assert_eq!(Multiplicity::OneToN.to_string(), "1..n");
}

#[test]
fn test_class_node_builder() {
    let style_class = Rc::new(
        StyleClassBuilder::default()
            .name("test")
            .unwrap()
            .property(StyleProperty::StrokeWidth(Unit::Pixel(2)))
            .unwrap()
            .build()
            .unwrap(),
    );
    let node = ClassNodeBuilder::default()
        .id(1)
        .label("MyClass")
        .unwrap()
        .annotation("interface")
        .attribute(ClassAttribute::new("int", "id"))
        .method(ClassMethod::new("void", "method", vec![]))
        .click_event(ClickEvent::Navigation(Navigation::new("https://example.com")))
        .style_class(style_class.clone())
        .unwrap()
        .style_property(StyleProperty::StrokeWidth(Unit::Pixel(2)))
        .unwrap()
        .build()
        .unwrap();
    assert_eq!(node.id(), 1);
    assert_eq!(node.label(), "MyClass");
    assert_eq!(node.annotation(), Some("interface"));
    assert_eq!(node.attributes().len(), 1);
    assert_eq!(node.methods().len(), 1);
    assert!(matches!(node.click_event(), Some(ClickEvent::Navigation(_))));
    assert_eq!(node.classes().iter().count(), 1);
    assert_eq!(node.styles().iter().count(), 1);
}

#[test]
fn test_class_attribute_display() {
    let attr = ClassAttribute::new("int", "attr1");
    assert_eq!(attr.to_string(), "+ attr1: int");
}

#[test]
fn test_argument_display() {
    let arg = Argument::new("arg1", "int");
    assert_eq!(arg.to_string(), "arg1: int");
}

#[test]
fn test_class_method_display() {
    let method = ClassMethod::new(
        "bool",
        "method1",
        vec![Argument::new("arg1", "int"), Argument::new("arg2", "String")],
    );
    assert_eq!(method.to_string(), "+method1(arg1: int, arg2: String): bool");
    let method_void = ClassMethod::procedure("method2", vec![]).visibility(Visibility::Private);
    assert_eq!(method_void.to_string(), "-method2(): void");
}

#[test]
fn test_visibility_display() {
    assert_eq!(Visibility::Public.to_string(), "+");
    assert_eq!(Visibility::Private.to_string(), "-");
    assert_eq!(Visibility::Protected.to_string(), "#");
    assert_eq!(Visibility::Package.to_string(), "~");
}

#[test]
fn class_diagram_uses_edge_line() {
    let mut builder = ClassDiagramBuilder::default();
    let a = builder.node(ClassNodeBuilder::default().label("A").unwrap()).unwrap();
    let b = builder.node(ClassNodeBuilder::default().label("B").unwrap()).unwrap();
    assert_eq!(a.id(), 0);
    assert_eq!(b.id(), 1);
    let edge = ClassEdgeBuilder::default()
        .source(a)
        .unwrap()
        .destination(b)
        .unwrap()
        .right_arrow_shape(ArrowShape::Triangle)
        .unwrap()
        .line_style(LineStyle::Dashed)
        .label("uses")
        .unwrap();
    builder.edge(edge).unwrap();
    let diagram: ClassDiagram = builder.into();
    let text = diagram.to_string();
    assert!(text.contains("v0 ..|> v1 : \"`uses`\""));
    assert_eq!(
        text,
        "classDiagram\n  direction LR\n  class v0[\"A\"] {\n  }\n  class v1[\"B\"] {\n  }\n  v0 ..|> v1 : \"`uses`\"\n"
    );
}

#[test]
fn class_edge_rejects_er_shapes() {
    let left = ClassEdgeBuilder::default().left_arrow_shape(ArrowShape::ZeroOrOne);
    assert_eq!(left.unwrap_err(), EdgeError::IncompatibleLeftArrowShape(ArrowShape::ZeroOrOne));
    let right = ClassEdgeBuilder::default().right_arrow_shape(ArrowShape::ZeroOrOne);
    assert_eq!(right.unwrap_err(), EdgeError::IncompatibleRightArrowShape(ArrowShape::ZeroOrOne));
}

#[test]
fn class_node_block_text() {
    let node = ClassNodeBuilder::default()
        .id(4)
        .label("Shape")
        .unwrap()
        .annotation("abstract")
        .attribute(ClassAttribute::new("int", "sides").visibility(Visibility::Protected))
        .method(ClassMethod::new("float", "area", vec![]))
        .build()
        .unwrap();
    assert_eq!(
        node.to_string(),
        "class v4[\"Shape\"] {\n    <<abstract>>\n    # sides: int\n    +area(): float\n}\n"
    );
}

#[test]
fn class_edge_multiplicities_text() {
    let a = Rc::new(ClassNodeBuilder::default().label("A").unwrap().id(0).build().unwrap());
    let b = Rc::new(ClassNodeBuilder::default().label("B").unwrap().id(1).build().unwrap());
    let edge = ClassEdgeBuilder::default()
        .source(a)
        .unwrap()
        .destination(b)
        .unwrap()
        .left_multiplicity(Multiplicity::One)
        .right_multiplicity(Multiplicity::Many)
        .left_arrow_shape(ArrowShape::Star)
        .unwrap()
        .build()
        .unwrap();
    assert_eq!(edge.to_string(), "v0 1 *-- * v1\n");
}
