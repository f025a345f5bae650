use std::rc::Rc;

use mermaid_builder::{
    Configuration, ConfigurationBuilder, Direction, Edge, EdgeBuilder, EdgeError, Error,
    FlowchartConfiguration, FlowchartConfigurationBuilder, FlowchartEdge, FlowchartEdgeBuilder,
    FlowchartNode, FlowchartNodeBuilder, FlowchartNodeShape, GenericDiagram, GenericDiagramBuilder, Node,
    NodeBuilder, NodeError, StyleClassBuilder, StyleClassError, StyleProperty, Unit,
};

type Builder = GenericDiagramBuilder<FlowchartNode, FlowchartEdge, FlowchartConfiguration>;
type Diagram = GenericDiagram<FlowchartNode, FlowchartEdge, FlowchartConfiguration>;

#[test]
fn test_generic_diagram_builder() {
    let mut builder = Builder::default();
    let node_builder = FlowchartNodeBuilder::default().label("Node 1").unwrap().id(1);
    let node1 = builder.node(node_builder).unwrap();
    assert_eq!(node1.id(), 1);
    let node_builder2 = FlowchartNodeBuilder::default().label("Node 2").unwrap().id(2);
    let node2 = builder.node(node_builder2).unwrap();
    assert_eq!(node2.id(), 2);
    let edge_builder = FlowchartEdgeBuilder::default()
        .source(node1.clone())
        .unwrap()
        .destination(node2.clone())
        .unwrap()
        .id(1);
    let edge = builder.edge(edge_builder).unwrap();
    assert_eq!(edge.source().id(), 1);
    assert_eq!(edge.destination().id(), 2);
    let config_builder = FlowchartConfigurationBuilder::default().title("My Diagram").unwrap();
    builder = builder.configuration(config_builder).unwrap();
    let diagram: Diagram = builder.into();
    assert_eq!(diagram.nodes().iter().count(), 2);
    assert_eq!(diagram.edges().iter().count(), 1);
    assert_eq!(diagram.configuration().title(), Some("My Diagram"));
}

#[test]
fn test_generic_diagram_methods() {
    let mut builder = Builder::default();
    let node_builder = FlowchartNodeBuilder::default().label("Node 1").unwrap().id(1);
    builder.node(node_builder).unwrap();
    assert_eq!(builder.number_of_nodes(), 1);
    assert_eq!(builder.number_of_edges(), 0);
    assert!(builder.get_node_by_id(1).is_some());
    assert!(builder.get_node_by_id(2).is_none());
    assert_eq!(builder.nodes().iter().count(), 1);
    let diagram: Diagram = builder.into();
    assert_eq!(diagram.nodes().iter().count(), 1);
    assert_eq!(diagram.edges().iter().count(), 0);
    assert!(diagram.get_node_by_id(1).is_some());
    assert!(diagram.get_node_by_id(2).is_none());
}

#[test]
fn test_style_class_management() {
    let mut builder = Builder::default();
    let style_class_builder = StyleClassBuilder::default()
        .name("test_class")
        .unwrap()
        .property(StyleProperty::StrokeWidth(Unit::Pixel(1)))
        .unwrap();
    let style_class = builder.style_class(style_class_builder).unwrap();
    assert_eq!(style_class.name(), "test_class");
    assert!(builder.get_style_class_by_name("test_class").is_some());
    assert!(builder.get_style_class_by_name("unknown").is_none());
    let style_class_builder_dup = StyleClassBuilder::default()
        .name("test_class")
        .unwrap()
        .property(StyleProperty::StrokeWidth(Unit::Pixel(1)))
        .unwrap();
    let result = builder.style_class(style_class_builder_dup);
    assert!(result.is_err());
    let diagram: Diagram = builder.into();
    assert!(diagram.get_style_class_by_name("test_class").is_some());
    assert!(diagram.get_style_class_by_name("unknown").is_none());
    assert_eq!(diagram.style_classes().iter().count(), 1);
}

#[test]
fn test_node_with_unknown_class() {
    let mut builder = Builder::default();
    let class = StyleClassBuilder::default()
        .name("unknown")
        .unwrap()
        .property(StyleProperty::StrokeWidth(Unit::Pixel(2)))
        .unwrap()
        .build()
        .unwrap();
    let node_builder = FlowchartNodeBuilder::default()
        .label("Node 1")
        .unwrap()
        .id(1)
        .style_class(Rc::new(class))
        .unwrap();
    let result = builder.node(node_builder);
    assert!(result.is_err());
}

#[test]
fn test_edge_with_unknown_nodes() {
    let mut builder = Builder::default();
    let node1 =
        Rc::new(FlowchartNodeBuilder::default().label("Node 1").unwrap().id(1).build().unwrap());
    let node2 =
        Rc::new(FlowchartNodeBuilder::default().label("Node 2").unwrap().id(2).build().unwrap());
    let edge_builder = FlowchartEdgeBuilder::default()
        .source(node1)
        .unwrap()
        .destination(node2)
        .unwrap()
        .id(1);
    let result = builder.edge(edge_builder);
    assert!(result.is_err());
}

#[test]
fn test_edge_destination_node_not_found() {
    let mut builder = Builder::default();
    let node1_builder = FlowchartNodeBuilder::default().label("Node 1").unwrap().id(1);
    let node1 = builder.node(node1_builder).unwrap();
    let node2 =
        Rc::new(FlowchartNodeBuilder::default().label("Node 2").unwrap().id(2).build().unwrap());
    let edge_builder = FlowchartEdgeBuilder::default()
        .source(node1)
        .unwrap()
        .destination(node2)
        .unwrap()
        .id(1);
    let result = builder.edge(edge_builder);
    assert!(result.is_err());
}

#[test]
fn test_node_auto_id() {
    let mut builder = Builder::default();
    let node_builder = FlowchartNodeBuilder::default().label("Node 1").unwrap();
    let node = builder.node(node_builder).unwrap();
    assert_eq!(node.id(), 0);
    let node_builder2 = FlowchartNodeBuilder::default().label("Node 2").unwrap();
    let node2 = builder.node(node_builder2).unwrap();
    assert_eq!(node2.id(), 1);
}

#[test]
fn unknown_class_leaves_nodes_unchanged() {
    let mut builder = Builder::default();
    builder.node(FlowchartNodeBuilder::default().label("kept").unwrap()).unwrap();
    let class = StyleClassBuilder::default()
        .name("ghost")
        .unwrap()
        .property(StyleProperty::Opacity(3))
        .unwrap()
        .build()
        .unwrap();
    let refused = FlowchartNodeBuilder::default()
        .label("refused")
        .unwrap()
        .style_class(Rc::new(class.clone()))
        .unwrap();
    let result = builder.node(refused);
    assert_eq!(result.unwrap_err(), Error::StyleClass(StyleClassError::UnknownClass(class)));
    assert_eq!(builder.number_of_nodes(), 1);
    assert!(builder.nodes().iter().all(|n| n.label() != "refused"));
}

#[test]
fn registered_class_is_accepted() {
    let mut builder = Builder::default();
    let class = builder
        .style_class(
            StyleClassBuilder::default()
                .name("known")
                .unwrap()
                .property(StyleProperty::Opacity(3))
                .unwrap(),
        )
        .unwrap();
    let node = builder
        .node(FlowchartNodeBuilder::default().label("n").unwrap().style_class(class).unwrap())
        .unwrap();
    assert_eq!(node.classes().len(), 1);
    assert_eq!(builder.number_of_nodes(), 1);
}

#[test]
fn missing_ends_leave_edges_unchanged() {
    let mut builder = Builder::default();
    let inside = builder.node(FlowchartNodeBuilder::default().label("in").unwrap()).unwrap();
    let outside =
        Rc::new(FlowchartNodeBuilder::default().label("out").unwrap().id(9).build().unwrap());
    let source_missing = FlowchartEdgeBuilder::default()
        .id(0)
        .source(outside.clone())
        .unwrap()
        .destination(inside.clone())
        .unwrap();
    assert_eq!(
        builder.edge(source_missing).unwrap_err(),
        Error::Edge(EdgeError::SourceNodeNotFound("out".to_string()))
    );
    let destination_missing = FlowchartEdgeBuilder::default()
        .id(0)
        .source(inside)
        .unwrap()
        .destination(outside)
        .unwrap();
    assert_eq!(
        builder.edge(destination_missing).unwrap_err(),
        Error::Edge(EdgeError::DestinationNodeNotFound("out".to_string()))
    );
    assert_eq!(builder.number_of_edges(), 0);
}

#[test]
fn auto_ids_follow_insertion_order() {
    let mut builder = Builder::default();
    let labels = ["zeta", "alpha", "alpha", "m"];
    for (i, label) in labels.iter().enumerate() {
        let node = builder.node(FlowchartNodeBuilder::default().label(label).unwrap()).unwrap();
        assert_eq!(node.id(), i as u64);
    }
    let explicit = builder.node(FlowchartNodeBuilder::default().label("x").unwrap().id(40)).unwrap();
    assert_eq!(explicit.id(), 40);
    let next = builder.node(FlowchartNodeBuilder::default().label("y").unwrap()).unwrap();
    assert_eq!(next.id(), 5);
}

#[test]
fn builder_errors_are_wrapped() {
    let mut builder = Builder::default();
    assert_eq!(
        builder.style_class(StyleClassBuilder::default()).unwrap_err(),
        Error::StyleClass(StyleClassError::MissingProperties)
    );
    let directed = FlowchartNodeBuilder::default().label("d").unwrap().direction(Direction::BottomToTop);
    assert_eq!(builder.node(directed).unwrap_err(), Error::Node(NodeError::MissingSubnodes));
    assert_eq!(
        builder.edge(FlowchartEdgeBuilder::default().id(0)).unwrap_err(),
        Error::Edge(EdgeError::MissingSource)
    );
    let class = builder
        .style_class(
            StyleClassBuilder::default().name("c").unwrap().property(StyleProperty::Opacity(1)).unwrap(),
        )
        .unwrap();
    assert_eq!(class.name(), "c");
    let again = StyleClassBuilder::default().name("c").unwrap().property(StyleProperty::Opacity(2)).unwrap();
    assert_eq!(
        builder.style_class(again).unwrap_err(),
        Error::StyleClass(StyleClassError::DuplicateClass("c".to_string()))
    );
}

#[test]
fn node_identity_covers_every_field() {
    let mut builder = Builder::default();
    let registered = builder.node(FlowchartNodeBuilder::default().label("A").unwrap()).unwrap();
    let lookalike = Rc::new(
        FlowchartNodeBuilder::default()
            .label("A")
            .unwrap()
            .id(0)
            .shape(FlowchartNodeShape::Circle)
            .build()
            .unwrap(),
    );
    let edge = FlowchartEdgeBuilder::default()
        .id(0)
        .source(lookalike)
        .unwrap()
        .destination(registered.clone())
        .unwrap();
    assert_eq!(
        builder.edge(edge).unwrap_err(),
        Error::Edge(EdgeError::SourceNodeNotFound("A".to_string()))
    );
    let twin = Rc::new(FlowchartNodeBuilder::default().label("A").unwrap().id(0).build().unwrap());
    let edge = FlowchartEdgeBuilder::default()
        .id(0)
        .source(twin)
        .unwrap()
        .destination(registered)
        .unwrap();
    assert!(builder.edge(edge).is_ok());
}
