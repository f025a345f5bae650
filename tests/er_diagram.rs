use std::rc::Rc;

use mermaid_builder::{
    ArrowShape, Color, ConfigurationBuilder, ERDiagram, ERDiagramBuilder,
    ERDiagramConfigurationBuilder, EREdgeBuilder,
    ERNodeBuilder, Edge, EdgeBuilder, EdgeError, Node, NodeBuilder, StyleClassBuilder,
    StyleProperty,
};

#[test]
fn test_er_edge_builder_methods() {
    let node1 = Rc::new(ERNodeBuilder::default().label("A").unwrap().id(0).build().unwrap());
    let node2 = Rc::new(ERNodeBuilder::default().label("B").unwrap().id(1).build().unwrap());
    let edge_zero_one = EREdgeBuilder::zero_or_one(node1.clone(), node2.clone()).build().unwrap();
    assert_eq!(edge_zero_one.left_arrow_shape(), Some(ArrowShape::ZeroOrOne));
    assert_eq!(edge_zero_one.right_arrow_shape(), Some(ArrowShape::ZeroOrOne));
    let edge_one_one = EREdgeBuilder::one_to_one(node1.clone(), node2.clone()).build().unwrap();
    assert_eq!(edge_one_one.left_arrow_shape(), Some(ArrowShape::ExactlyOne));
    assert_eq!(edge_one_one.right_arrow_shape(), Some(ArrowShape::ExactlyOne));
    let edge_zero_more = EREdgeBuilder::zero_or_more(node1.clone(), node2.clone()).build().unwrap();
    assert_eq!(edge_zero_more.left_arrow_shape(), Some(ArrowShape::ZeroOrMore));
    assert_eq!(edge_zero_more.right_arrow_shape(), Some(ArrowShape::ZeroOrMore));
    let edge_one_more = EREdgeBuilder::one_or_more(node1.clone(), node2.clone()).build().unwrap();
    assert_eq!(edge_one_more.left_arrow_shape(), Some(ArrowShape::OneOrMore));
    assert_eq!(edge_one_more.right_arrow_shape(), Some(ArrowShape::OneOrMore));
}

#[test]
fn test_er_edge_display() {
    let node1 = Rc::new(ERNodeBuilder::default().label("A").unwrap().id(0).build().unwrap());
    let node2 = Rc::new(ERNodeBuilder::default().label("B").unwrap().id(1).build().unwrap());
    let edge = EREdgeBuilder::zero_or_one(node1, node2).label("relates to").unwrap().build().unwrap();
    let output = edge.to_string();
    assert!(output.contains("v0"));
    assert!(output.contains("v1"));
    assert!(output.contains("relates to"));
    assert!(output.contains("|o--o|"));
    assert_eq!(output, "v0 |o--o| v1 : \"relates to\"\n");
}

#[test]
fn test_er_node_builder() {
    let style = Rc::new(
        StyleClassBuilder::default()
            .name("myStyle")
            .unwrap()
            .property(StyleProperty::Fill(Color::from((255, 0, 0))))
            .unwrap()
            .build()
            .unwrap(),
    );
    let node = ERNodeBuilder::default()
        .id(1)
        .label("CUSTOMER")
        .unwrap()
        .attribute("string", "name")
        .attribute("int", "age")
        .style_class(style)
        .unwrap()
        .style_property(StyleProperty::Fill(Color::from((255, 0, 0))))
        .unwrap()
        .build()
        .unwrap();
    assert_eq!(node.id(), 1);
    assert_eq!(node.label(), "CUSTOMER");
    assert_eq!(node.attributes().len(), 2);
    assert_eq!(node.attributes()[0].attribute_type(), "string");
    assert_eq!(node.attributes()[0].name(), "name");
    assert_eq!(node.attributes()[1].attribute_type(), "int");
    assert_eq!(node.attributes()[1].name(), "age");
    let styles: Vec<_> = node.styles().iter().collect();
    assert!(styles.contains(&&StyleProperty::Fill(Color::from((255, 0, 0)))));
}

#[test]
fn er_shapes_accepted_only_by_er_nodes() {
    let ok = EREdgeBuilder::default().left_arrow_shape(ArrowShape::ZeroOrOne);
    assert!(ok.is_ok());
    let refused = EREdgeBuilder::default().right_arrow_shape(ArrowShape::Triangle);
    assert_eq!(refused.unwrap_err(), EdgeError::IncompatibleRightArrowShape(ArrowShape::Triangle));
}

#[test]
fn er_diagram_text() {
    let mut builder = ERDiagramBuilder::default();
    let customer = builder
        .node(ERNodeBuilder::default().label("CUSTOMER").unwrap().attribute("string", "name"))
        .unwrap();
    let order = builder.node(ERNodeBuilder::default().label("ORDER").unwrap()).unwrap();
    builder
        .edge(EREdgeBuilder::one_or_more(customer, order).label("places").unwrap())
        .unwrap();
    let builder = builder
        .configuration(ERDiagramConfigurationBuilder::default().title("Shop").unwrap())
        .unwrap();
    let diagram: ERDiagram = builder.into();
    assert_eq!(
        diagram.to_string(),
        "---\nconfig:\n  layout: dagre\n  theme: default\n  look: classic\ntitle: Shop\n---\nerDiagram\n  direction LR\n  v0[\"CUSTOMER\"] {\n      name string\n  }\n  v1[\"ORDER\"]\n  v0 }|--|{ v1 : \"places\"\n"
    );
}

#[test]
fn entity_identity_covers_attributes() {
    let mut builder = ERDiagramBuilder::default();
    let a = builder.node(ERNodeBuilder::default().label("A").unwrap().attribute("int", "x")).unwrap();
    let other = Rc::new(
        ERNodeBuilder::default().label("A").unwrap().id(0).attribute("int", "y").build().unwrap(),
    );
    let result = builder.edge(EREdgeBuilder::one_to_one(a, other));
    assert_eq!(
        result.unwrap_err(),
        mermaid_builder::Error::Edge(EdgeError::DestinationNodeNotFound("A".to_string()))
    );
}
