use std::rc::Rc;

use mermaid_builder::{
    ClassDiagram, ClassDiagramBuilder, ClassNodeBuilder, Color, ConfigurationBuilder, Direction,
    EdgeBuilder, Flowchart, FlowchartBuilder, FlowchartConfigurationBuilder, FlowchartEdgeBuilder,
    FlowchartNodeBuilder, GenericConfiguration, Look, Node, NodeBuilder, Renderer,
    StyleClassBuilder, StyleProperty, Theme,
};

#[test]
fn flowchart_front_matter_scenario() {
    let builder = FlowchartBuilder::default()
        .configuration(
            FlowchartConfigurationBuilder::default()
                .renderer(Renderer::EclipseLayoutKernel)
                .theme(Theme::Forest)
                .look(Look::HandDrawn)
                .title("My Flowchart")
                .unwrap(),
        )
        .unwrap();
    let text = Flowchart::from(builder).to_string();
    assert!(text.contains("defaultRenderer: \"elk\""));
    assert!(text.contains("theme: forest"));
    assert!(text.contains("look: handDrawn"));
    assert!(text.contains("title: My Flowchart"));
    assert!(text.ends_with("---\nflowchart LR\n"));
}

#[test]
fn subgraph_members_render_once() {
    let mut builder = FlowchartBuilder::default();
    let first = builder.node(FlowchartNodeBuilder::default().label("First").unwrap()).unwrap();
    let second = builder.node(FlowchartNodeBuilder::default().label("Second").unwrap()).unwrap();
    let group = builder
        .node(
            FlowchartNodeBuilder::default()
                .label("Group")
                .unwrap()
                .subnode(first)
                .unwrap()
                .subnode(second)
                .unwrap()
                .direction(Direction::LeftToRight),
        )
        .unwrap();
    assert_eq!(group.id(), 2);
    let text = Flowchart::from(builder).to_string();
    assert_eq!(
        text,
        "flowchart LR\n  subgraph v2 [\"`Group`\"]\n      direction LR\n    v0@{shape: rect, label: \"First\"}\n    v1@{shape: rect, label: \"Second\"}\n  end\n"
    );
    assert!(text.contains("subgraph v2 [\"`Group`\"]"));
    assert!(text.contains("direction LR"));
    assert_eq!(text.matches("label: \"First\"").count(), 1);
    assert_eq!(text.matches("label: \"Second\"").count(), 1);
    assert!(text.contains("end"));
}

#[test]
fn node_in_two_subgraphs_renders_once() {
    let mut builder = FlowchartBuilder::default();
    let shared = builder.node(FlowchartNodeBuilder::default().label("Shared").unwrap()).unwrap();
    builder
        .node(FlowchartNodeBuilder::default().label("G1").unwrap().subnode(shared.clone()).unwrap())
        .unwrap();
    builder
        .node(FlowchartNodeBuilder::default().label("G2").unwrap().subnode(shared).unwrap())
        .unwrap();
    let text = Flowchart::from(builder).to_string();
    assert_eq!(text.matches("label: \"Shared\"").count(), 1);
    assert_eq!(
        text,
        "flowchart LR\n  subgraph v1 [\"`G1`\"]\n    v0@{shape: rect, label: \"Shared\"}\n  end\n  subgraph v2 [\"`G2`\"]\n  end\n"
    );
}

#[test]
fn unused_style_classes_are_omitted() {
    let mut builder = FlowchartBuilder::default();
    let used = builder
        .style_class(
            StyleClassBuilder::default()
                .name("used")
                .unwrap()
                .property(StyleProperty::Fill(Color::from((255, 0, 0))))
                .unwrap(),
        )
        .unwrap();
    builder
        .style_class(
            StyleClassBuilder::default()
                .name("idle")
                .unwrap()
                .property(StyleProperty::Fill(Color::from((0, 255, 0))))
                .unwrap(),
        )
        .unwrap();
    let a = builder
        .node(FlowchartNodeBuilder::default().label("A").unwrap().style_class(used).unwrap())
        .unwrap();
    let b = builder.node(FlowchartNodeBuilder::default().label("B").unwrap()).unwrap();
    builder
        .edge(FlowchartEdgeBuilder::default().source(a).unwrap().destination(b).unwrap())
        .unwrap();
    let text = Flowchart::from(builder).to_string();
    assert_eq!(
        text,
        "flowchart LR\n  classDef used fill: #ff0000\n  v0@{shape: rect, label: \"A\"}\n  class v0 used\n  v1@{shape: rect, label: \"B\"}\n  v0 --- v1\n"
    );
}

#[test]
fn rendering_twice_is_identical() {
    let mut builder = ClassDiagramBuilder::default();
    builder.node(ClassNodeBuilder::default().label("A").unwrap()).unwrap();
    let diagram: ClassDiagram = builder.into();
    assert_eq!(diagram.to_string(), diagram.to_string());
    let mut fb = FlowchartBuilder::default();
    fb.node(FlowchartNodeBuilder::default().label("x").unwrap()).unwrap();
    let flowchart = Flowchart::from(fb);
    assert_eq!(flowchart.to_string(), flowchart.to_string());
}

#[test]
fn default_header_is_suppressed() {
    let chart = Flowchart::from(FlowchartBuilder::default());
    assert_eq!(chart.to_string(), "flowchart LR\n");
    let class_diagram: ClassDiagram = ClassDiagramBuilder::default().into();
    assert_eq!(class_diagram.to_string(), "classDiagram\n  direction LR\n");
    assert_eq!(GenericConfiguration::default().to_string().len(), 65);
}

#[test]
fn subgraph_node_at_depth_one() {
    let inner = Rc::new(FlowchartNodeBuilder::default().label("In").unwrap().id(7).build().unwrap());
    let node = FlowchartNodeBuilder::default()
        .label("Out")
        .unwrap()
        .id(8)
        .subnode(inner)
        .unwrap()
        .style_property(StyleProperty::Opacity(50))
        .unwrap()
        .build()
        .unwrap();
    assert_eq!(
        node.to_string(),
        "subgraph v8 [\"`Out`\"]\n  v7@{shape: rect, label: \"In\"}\nend\nstyle v8 opacity: 0.50 \n"
    );
}
