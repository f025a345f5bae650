use mermaid_builder::{
    ClassDiagramConfigurationBuilder, ConfigError, Configuration, ConfigurationBuilder, CurveStyle,
    Direction, FlowchartConfiguration, FlowchartConfigurationBuilder, GenericConfiguration,
    GenericConfigurationBuilder, Look, Renderer, Theme,
};

#[test]
fn test_generic_configuration_display() {
    let config = GenericConfiguration::default();
    assert_eq!(
        config.to_string(),
        "---\nconfig:\n  layout: dagre\n  theme: default\n  look: classic\n---\n"
    );
}

#[test]
fn test_generic_configuration_builder() {
    let config = GenericConfigurationBuilder::default()
        .title("My Diagram")
        .unwrap()
        .renderer(Renderer::EclipseLayoutKernel)
        .direction(Direction::TopToBottom)
        .build()
        .unwrap();
    assert_eq!(config.title(), Some("My Diagram"));
    assert_eq!(config.renderer(), Renderer::EclipseLayoutKernel);
    assert_eq!(config.direction(), Direction::TopToBottom);
}

#[test]
fn test_generic_configuration_builder_errors() {
    let builder = GenericConfigurationBuilder::default();
    assert!(matches!(builder.title(""), Err(ConfigError::EmptyTitle)));
}

#[test]
fn test_direction_display() {
    assert_eq!(Direction::LeftToRight.to_string(), "LR");
    assert_eq!(Direction::TopToBottom.to_string(), "TB");
    assert_eq!(Direction::RightToLeft.to_string(), "RL");
    assert_eq!(Direction::BottomToTop.to_string(), "BT");
}

#[test]
fn test_direction_flip() {
    assert_eq!(Direction::LeftToRight.flip(), Direction::TopToBottom);
    assert_eq!(Direction::TopToBottom.flip(), Direction::LeftToRight);
    assert_eq!(Direction::RightToLeft.flip(), Direction::BottomToTop);
    assert_eq!(Direction::BottomToTop.flip(), Direction::RightToLeft);
}

#[test]
fn test_look_display() {
    assert_eq!(Look::Neo.to_string(), "neo");
    assert_eq!(Look::HandDrawn.to_string(), "handDrawn");
    assert_eq!(Look::Classic.to_string(), "classic");
}

#[test]
fn test_renderer_display() {
    assert_eq!(Renderer::Dagre.to_string(), "dagre");
    assert_eq!(Renderer::EclipseLayoutKernel.to_string(), "elk");
}

#[test]
fn test_theme_display() {
    assert_eq!(Theme::MermaidChart.to_string(), "mc");
    assert_eq!(Theme::Neo.to_string(), "neo");
    assert_eq!(Theme::NeoDark.to_string(), "neo-dark");
    assert_eq!(Theme::Default.to_string(), "default");
    assert_eq!(Theme::Forest.to_string(), "forest");
    assert_eq!(Theme::Base.to_string(), "base");
    assert_eq!(Theme::Dark.to_string(), "dark");
    assert_eq!(Theme::Neutral.to_string(), "neutral");
    assert_eq!(Theme::Redux.to_string(), "redux");
    assert_eq!(Theme::ReduxDark.to_string(), "redux-dark");
}

#[test]
fn test_flowchart_configuration_display_default() {
    let config = FlowchartConfiguration::default();
    assert_eq!(config.to_string(), "");
}

#[test]
fn test_flowchart_configuration_display_full() {
    let config = FlowchartConfigurationBuilder::default()
        .title("My Flowchart")
        .unwrap()
        .renderer(Renderer::EclipseLayoutKernel)
        .theme(Theme::Forest)
        .look(Look::HandDrawn)
        .build()
        .unwrap();
    let output = config.to_string();
    assert!(output.contains("title: My Flowchart"));
    assert!(output.contains("defaultRenderer: \"elk\""));
    assert!(output.contains("theme: forest"));
    assert!(output.contains("look: handDrawn"));
}

#[test]
fn test_flowchart_configuration_traits() {
    let config = FlowchartConfigurationBuilder::default()
        .title("My Flowchart")
        .unwrap()
        .direction(Direction::TopToBottom)
        .renderer(Renderer::EclipseLayoutKernel)
        .theme(Theme::Forest)
        .look(Look::HandDrawn)
        .build()
        .unwrap();
    assert_eq!(config.title(), Some("My Flowchart"));
    assert_eq!(config.direction(), Direction::TopToBottom);
    assert_eq!(config.renderer(), Renderer::EclipseLayoutKernel);
    assert_eq!(config.theme(), Theme::Forest);
    assert_eq!(config.look(), Look::HandDrawn);
}

#[test]
fn test_flowchart_configuration_builder() {
    let config = FlowchartConfigurationBuilder::default()
        .title("My Flowchart")
        .unwrap()
        .direction(Direction::TopToBottom)
        .renderer(Renderer::EclipseLayoutKernel)
        .theme(Theme::Forest)
        .look(Look::HandDrawn)
        .html_labels(true)
        .markdown_auto_wrap(false)
        .curve_style(CurveStyle::Basis)
        .build()
        .unwrap();
    assert!(config.html_labels());
    assert!(!config.markdown_auto_wrap());
    assert_eq!(config.curve_style(), CurveStyle::Basis);
    assert_eq!(config.title(), Some("My Flowchart"));
    assert_eq!(config.direction(), Direction::TopToBottom);
    assert_eq!(config.renderer(), Renderer::EclipseLayoutKernel);
    assert_eq!(config.theme(), Theme::Forest);
    assert_eq!(config.look(), Look::HandDrawn);
}

#[test]
fn test_class_diagram_configuration_builder() {
    let config = ClassDiagramConfigurationBuilder::default()
        .title("My Class Diagram")
        .unwrap()
        .direction(Direction::LeftToRight)
        .hide_empty_members_box(true)
        .build()
        .unwrap();
    assert!(config.hide_empty_members_box());
}

#[test]
fn test_curve_style_display() {
    assert_eq!(CurveStyle::Basis.to_string(), "basis");
    assert_eq!(CurveStyle::BumpX.to_string(), "bumpX");
    assert_eq!(CurveStyle::BumpY.to_string(), "bumpY");
    assert_eq!(CurveStyle::Cardinal.to_string(), "cardinal");
    assert_eq!(CurveStyle::CatmullRom.to_string(), "catmullRom");
    assert_eq!(CurveStyle::Linear.to_string(), "linear");
    assert_eq!(CurveStyle::MonotoneX.to_string(), "monotoneX");
    assert_eq!(CurveStyle::MonotoneY.to_string(), "monotoneY");
    assert_eq!(CurveStyle::Natural.to_string(), "natural");
    assert_eq!(CurveStyle::Step.to_string(), "step");
    assert_eq!(CurveStyle::StepAfter.to_string(), "stepAfter");
    assert_eq!(CurveStyle::StepBefore.to_string(), "stepBefore");
}

#[test]
fn flowchart_front_matter_is_exact() {
    let config = FlowchartConfigurationBuilder::default()
        .title("My Flowchart")
        .unwrap()
        .renderer(Renderer::EclipseLayoutKernel)
        .theme(Theme::Forest)
        .look(Look::HandDrawn)
        .build()
        .unwrap();
    assert_eq!(
        config.to_string(),
        "---\nconfig:\n  theme: forest\n  look: handDrawn\n  flowchart:\n    defaultRenderer: \"elk\"\ntitle: My Flowchart\n---\n"
    );
}

#[test]
fn title_alone_keeps_front_matter() {
    let config = FlowchartConfigurationBuilder::default().title("T").unwrap().build().unwrap();
    assert!(config.to_string().starts_with("---\n"));
    let generic = GenericConfigurationBuilder::default().title("T").unwrap().build().unwrap();
    assert_eq!(
        generic.to_string(),
        "---\nconfig:\n  layout: dagre\n  theme: default\n  look: classic\ntitle: T\n---\n"
    );
}
