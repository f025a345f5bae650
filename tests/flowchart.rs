use std::rc::Rc;

use mermaid_builder::{
    ArrowShape, ClickEvent, Color, ConfigurationBuilder, CurveStyle, Direction, Edge, EdgeBuilder,
    EdgeError, Flowchart, FlowchartBuilder, FlowchartConfigurationBuilder, FlowchartEdgeBuilder,
    FlowchartNodeBuilder, FlowchartNodeShape, LineStyle, Navigation, Node, NodeBuilder,
    NodeError, StyleClassBuilder, StyleProperty, Unit,
};

#[test]
fn test_flowchart_node_display_simple() {
    let node = FlowchartNodeBuilder::default()
        .label("My Node")
        .unwrap()
        .id(1)
        .shape(FlowchartNodeShape::Circle)
        .build()
        .unwrap();
    let output = node.to_string();
    assert!(output.contains("v1@{shape: circle, label: \"My Node\"}"));
}

#[test]
fn test_flowchart_node_display_full() {
    let style_class = Rc::new(
        StyleClassBuilder::default()
            .name("myClass")
            .unwrap()
            .property(StyleProperty::Fill(Color::from((255, 0, 0))))
            .unwrap()
            .build()
            .unwrap(),
    );
    let node = FlowchartNodeBuilder::default()
        .label("My Node")
        .unwrap()
        .id(1)
        .shape(FlowchartNodeShape::Rectangle)
        .style_class(style_class)
        .unwrap()
        .style_property(StyleProperty::Stroke(Color::from((0, 0, 255))))
        .unwrap()
        .click_event(ClickEvent::Navigation(
            Navigation::new("https://example.com").anchor(true).tooltip("Open link"),
        ))
        .build()
        .unwrap();
    let output = node.to_string();
    assert!(output.contains("v1@{shape: rect, label: \"My Node\"}"));
    assert!(output.contains("click v1 href \"https://example.com\" \"Open link\""));
    assert!(output.contains("class v1 myClass"));
    assert!(output.contains("style v1 stroke: #0000ff"));
}

#[test]
fn test_flowchart_node_subgraph() {
    let subnode =
        Rc::new(FlowchartNodeBuilder::default().label("Sub Node").unwrap().id(2).build().unwrap());
    let node = FlowchartNodeBuilder::default()
        .label("My Subgraph")
        .unwrap()
        .id(1)
        .subnode(subnode)
        .unwrap()
        .direction(Direction::LeftToRight)
        .build()
        .unwrap();
    let output = node.to_string();
    assert!(output.contains("subgraph v1 [\"`My Subgraph`\"]"));
    assert!(output.contains("direction LR"));
    assert!(output.contains("v2@{shape: rect, label: \"Sub Node\"}"));
    assert!(output.contains("end"));
}

#[test]
fn test_flowchart_node_builder() {
    let style_class = Rc::new(
        StyleClassBuilder::default()
            .name("test")
            .unwrap()
            .property(StyleProperty::StrokeWidth(Unit::Pixel(2)))
            .unwrap()
            .build()
            .unwrap(),
    );
    let subnode =
        Rc::new(FlowchartNodeBuilder::default().label("Sub").unwrap().id(2).build().unwrap());
    let node = FlowchartNodeBuilder::default()
        .id(1)
        .label("My Node")
        .unwrap()
        .shape(FlowchartNodeShape::Circle)
        .click_event(ClickEvent::Navigation(Navigation::new("https://example.com")))
        .subnode(subnode.clone())
        .unwrap()
        .direction(Direction::TopToBottom)
        .style_class(style_class.clone())
        .unwrap()
        .style_property(StyleProperty::StrokeWidth(Unit::Pixel(2)))
        .unwrap()
        .build()
        .unwrap();
    assert_eq!(node.id(), 1);
    assert_eq!(node.label(), "My Node");
    assert_eq!(node.shape(), FlowchartNodeShape::Circle);
    assert!(matches!(node.click_event(), Some(ClickEvent::Navigation { .. })));
    assert_eq!(node.subnodes().len(), 1);
    assert_eq!(node.direction(), Some(Direction::TopToBottom));
    assert_eq!(node.classes().iter().count(), 1);
    assert_eq!(node.styles().iter().count(), 1);
}

#[test]
fn test_flowchart_node_builder_subgraph_methods() {
    let mut builder = FlowchartNodeBuilder::default();
    assert!(!builder.is_subgraph());
    let subnode =
        Rc::new(FlowchartNodeBuilder::default().label("Sub").unwrap().id(2).build().unwrap());
    builder = builder.subnode(subnode).unwrap();
    assert!(builder.is_subgraph());
    builder = builder.direction(Direction::LeftToRight);
    assert_eq!(builder.get_direction(), Some(Direction::LeftToRight));
    builder = builder.reset_direction();
    assert_eq!(builder.get_direction(), None);
}

#[test]
fn test_flowchart_edge_display() {
    let node1 = Rc::new(FlowchartNodeBuilder::default().label("A").unwrap().id(0).build().unwrap());
    let node2 = Rc::new(FlowchartNodeBuilder::default().label("B").unwrap().id(1).build().unwrap());
    let style_class = Rc::new(
        StyleClassBuilder::default()
            .name("myStyle")
            .unwrap()
            .property(StyleProperty::Stroke(Color::from((255, 0, 0))))
            .unwrap()
            .build()
            .unwrap(),
    );
    let edge = FlowchartEdgeBuilder::default()
        .id(1)
        .source(node1.clone())
        .unwrap()
        .destination(node2.clone())
        .unwrap()
        .label("Edge Label")
        .unwrap()
        .line_style(LineStyle::Dashed)
        .left_arrow_shape(ArrowShape::Circle)
        .unwrap()
        .right_arrow_shape(ArrowShape::X)
        .unwrap()
        .curve_style(CurveStyle::StepAfter)
        .length(2)
        .style_class(style_class.clone())
        .unwrap()
        .style_property(StyleProperty::Stroke(Color::from((255, 0, 0))))
        .unwrap()
        .build()
        .unwrap();
    let output = edge.to_string();
    assert!(output.contains("v0 e1@o-..-x|\"`Edge Label`\"| v1"));
    assert!(output.contains("e1@{curve: stepAfter}"));
    assert!(output.contains("class e1 myStyle"));
    assert!(output.contains("linkStyle e1 stroke: #ff0000"));
}

#[test]
fn test_flowchart_edge_traits() {
    let node1 = Rc::new(FlowchartNodeBuilder::default().label("A").unwrap().id(0).build().unwrap());
    let node2 = Rc::new(FlowchartNodeBuilder::default().label("B").unwrap().id(1).build().unwrap());
    let style_class = Rc::new(
        StyleClassBuilder::default()
            .name("myStyle")
            .unwrap()
            .property(StyleProperty::Stroke(Color::from((255, 0, 0))))
            .unwrap()
            .build()
            .unwrap(),
    );
    let edge = FlowchartEdgeBuilder::default()
        .id(1)
        .source(node1.clone())
        .unwrap()
        .destination(node2.clone())
        .unwrap()
        .style_class(style_class.clone())
        .unwrap()
        .build()
        .unwrap();
    assert_eq!(edge.classes().iter().count(), 1);
    assert_eq!(edge.classes().iter().next().ok_or("No class found").unwrap().name(), "myStyle");
}

#[test]
fn test_flowchart_edge_builder() {
    let node1 = Rc::new(FlowchartNodeBuilder::default().label("A").unwrap().id(0).build().unwrap());
    let node2 = Rc::new(FlowchartNodeBuilder::default().label("B").unwrap().id(1).build().unwrap());
    let style_class = Rc::new(
        StyleClassBuilder::default()
            .name("test")
            .unwrap()
            .property(StyleProperty::StrokeWidth(Unit::Pixel(2)))
            .unwrap()
            .build()
            .unwrap(),
    );
    let edge = FlowchartEdgeBuilder::default()
        .id(1)
        .source(node1.clone())
        .unwrap()
        .destination(node2.clone())
        .unwrap()
        .label("Edge Label")
        .unwrap()
        .line_style(LineStyle::Dashed)
        .left_arrow_shape(ArrowShape::Circle)
        .unwrap()
        .right_arrow_shape(ArrowShape::X)
        .unwrap()
        .curve_style(CurveStyle::StepAfter)
        .length(2)
        .style_class(style_class.clone())
        .unwrap()
        .style_property(StyleProperty::StrokeWidth(Unit::Pixel(2)))
        .unwrap()
        .build()
        .unwrap();
    assert_eq!(edge.id(), 1);
    assert_eq!(edge.source().id(), 0);
    assert_eq!(edge.destination().id(), 1);
    assert_eq!(edge.label(), Some("Edge Label"));
    assert_eq!(edge.line_style(), LineStyle::Dashed);
    assert_eq!(edge.left_arrow_shape(), Some(ArrowShape::Circle));
    assert_eq!(edge.right_arrow_shape(), Some(ArrowShape::X));
    assert_eq!(edge.curve_style(), CurveStyle::StepAfter);
    assert_eq!(edge.length(), 2);
    assert_eq!(edge.classes().len(), 1);
    assert_eq!(edge.style_properties().len(), 1);
}

#[test]
fn test_flowchart_builder() {
    let mut builder = FlowchartBuilder::default();
    let config = FlowchartConfigurationBuilder::default().title("My Flowchart").unwrap();
    builder = builder.configuration(config).unwrap();
    let style_class_builder = StyleClassBuilder::default()
        .name("myStyle")
        .unwrap()
        .property(StyleProperty::Fill(Color::from((255, 0, 0))))
        .unwrap();
    let style_class = builder.style_class(style_class_builder).unwrap();
    assert_eq!(style_class.name(), "myStyle");
    assert!(builder.get_style_class_by_name("myStyle").is_some());
    let node_builder = FlowchartNodeBuilder::default().label("Node A").unwrap();
    let node_a = builder.node(node_builder).unwrap();
    assert_eq!(builder.number_of_nodes(), 1);
    assert!(builder.get_node_by_id(node_a.id()).is_some());
    let node_builder_b = FlowchartNodeBuilder::default().label("Node B").unwrap();
    let node_b = builder.node(node_builder_b).unwrap();
    assert_eq!(builder.number_of_nodes(), 2);
    let nodes: Vec<_> = builder.nodes().iter().collect();
    assert_eq!(nodes.len(), 2);
    let edge_builder = FlowchartEdgeBuilder::default()
        .source(node_a.clone())
        .unwrap()
        .destination(node_b.clone())
        .unwrap();
    let edge = builder.edge(edge_builder).unwrap();
    assert_eq!(builder.number_of_edges(), 1);
    assert_eq!(edge.source().id(), node_a.id());
    assert_eq!(edge.destination().id(), node_b.id());
    let _flowchart: Flowchart = builder.into();
}

#[test]
fn test_navigation_display() {
    let nav = Navigation::new("https://example.com");
    assert_eq!(nav.to_string(), " \"https://example.com\"");
    let nav = Navigation::new("https://example.com").new_tab(true);
    assert_eq!(nav.to_string(), " \"https://example.com\" _blank");
    let nav = Navigation::new("https://example.com").anchor(true);
    assert_eq!(nav.to_string(), "href \"https://example.com\"");
    let nav =
        Navigation::new("https://example.com").new_tab(true).anchor(true).tooltip("Tooltip");
    assert_eq!(nav.to_string(), "href \"https://example.com\" \"Tooltip\" _blank");
}

#[test]
fn flowchart_edge_errors() {
    let node = Rc::new(FlowchartNodeBuilder::default().label("A").unwrap().id(0).build().unwrap());
    let missing_id =
        FlowchartEdgeBuilder::default().source(node.clone()).unwrap().destination(node.clone());
    assert_eq!(missing_id.unwrap().build().unwrap_err(), EdgeError::MissingId);
    let zero = FlowchartEdgeBuilder::default().id(0).length(0).build();
    assert_eq!(zero.unwrap_err(), EdgeError::InvalidLength);
    let no_source = FlowchartEdgeBuilder::default().id(0).build();
    assert_eq!(no_source.unwrap_err(), EdgeError::MissingSource);
    let no_destination = FlowchartEdgeBuilder::default().id(0).source(node).unwrap().build();
    assert_eq!(no_destination.unwrap_err(), EdgeError::MissingDestination);
    assert_eq!(
        FlowchartEdgeBuilder::default().label("").unwrap_err(),
        EdgeError::EmptyLabel
    );
    assert_eq!(
        FlowchartEdgeBuilder::default().left_arrow_shape(ArrowShape::Triangle).unwrap_err(),
        EdgeError::IncompatibleLeftArrowShape(ArrowShape::Triangle)
    );
}

#[test]
fn flowchart_edge_segments() {
    let a = Rc::new(FlowchartNodeBuilder::default().label("A").unwrap().id(3).build().unwrap());
    let b = Rc::new(FlowchartNodeBuilder::default().label("B").unwrap().id(12).build().unwrap());
    let solid = FlowchartEdgeBuilder::default()
        .id(0)
        .source(a.clone())
        .unwrap()
        .destination(b.clone())
        .unwrap()
        .right_arrow_shape(ArrowShape::Normal)
        .unwrap()
        .build()
        .unwrap();
    assert_eq!(solid.to_string(), "v3 ---> v12\n");
    let thick = FlowchartEdgeBuilder::default()
        .id(0)
        .source(a)
        .unwrap()
        .destination(b)
        .unwrap()
        .line_style(LineStyle::Thick)
        .length(3)
        .build()
        .unwrap();
    assert_eq!(thick.to_string(), "v3 ===== v12\n");
}

#[test]
fn flowchart_node_errors() {
    assert_eq!(FlowchartNodeBuilder::default().label("").unwrap_err(), NodeError::EmptyLabel);
    assert_eq!(
        FlowchartNodeBuilder::default().label("x").unwrap().build().unwrap_err(),
        NodeError::MissingId
    );
    assert_eq!(FlowchartNodeBuilder::default().id(1).build().unwrap_err(), NodeError::MissingLabel);
    let directed = FlowchartNodeBuilder::default()
        .label("x")
        .unwrap()
        .id(1)
        .direction(Direction::TopToBottom)
        .build();
    assert_eq!(directed.unwrap_err(), NodeError::MissingSubnodes);
    let sub = Rc::new(FlowchartNodeBuilder::default().label("S").unwrap().id(5).build().unwrap());
    let twice = FlowchartNodeBuilder::default().subnode(sub.clone()).unwrap().subnode(sub);
    assert_eq!(twice.unwrap_err(), NodeError::DuplicateNode("S".to_string()));
}

#[test]
fn subnodes_follow_identifier_order() {
    let late = Rc::new(FlowchartNodeBuilder::default().label("late").unwrap().id(5).build().unwrap());
    let early =
        Rc::new(FlowchartNodeBuilder::default().label("early").unwrap().id(2).build().unwrap());
    let also_early =
        Rc::new(FlowchartNodeBuilder::default().label("tie").unwrap().id(2).build().unwrap());
    let group = FlowchartNodeBuilder::default()
        .label("g")
        .unwrap()
        .id(9)
        .subnode(late)
        .unwrap()
        .subnode(early)
        .unwrap()
        .subnode(also_early)
        .unwrap()
        .build()
        .unwrap();
    let labels: Vec<&str> = group.subnodes().iter().map(|n| n.label()).collect();
    assert_eq!(labels, vec!["early", "tie", "late"]);
    assert_eq!(
        group.to_string(),
        "subgraph v9 [\"`g`\"]\n  v2@{shape: rect, label: \"early\"}\n  v2@{shape: rect, label: \"tie\"}\n  v5@{shape: rect, label: \"late\"}\nend\n"
    );
}
