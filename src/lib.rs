//! Typed construction of Mermaid diagram descriptions: class diagrams,
//! entity-relationship diagrams and flowcharts, assembled through validating
//! builders and rendered to text.
use vstd::prelude::*;

pub mod arrow;
pub mod class_diagram;
pub mod class_edge;
pub mod class_member;
pub mod class_node;
pub mod config;
pub mod diagram;
pub mod edge;
pub mod er_diagram;
pub mod errors;
pub mod flowchart;
pub mod flowchart_config;
pub mod flowchart_edge;
pub mod flowchart_node;
pub mod flowchart_shape;
pub mod navigation;
pub mod node;
pub mod style;
pub mod text;

pub use arrow::{ArrowShape, LineStyle};
pub use class_diagram::{
    ClassDiagram, ClassDiagramBuilder, ClassDiagramConfiguration, ClassDiagramConfigurationBuilder,
};
pub use class_edge::{ClassEdge, ClassEdgeBuilder};
pub use class_member::{
    Argument, ArgumentView, ClassAttribute, ClassAttributeView, ClassMethod, ClassMethodView,
    Multiplicity, Visibility,
};
pub use class_node::{ClassNode, ClassNodeBuilder};
pub use config::{
    ConfigView, Configuration, ConfigurationBuilder, Direction, GenericConfiguration,
    GenericConfigurationBuilder, Look, Renderer, Theme,
};
pub use diagram::{DiagramView, GenericDiagram, GenericDiagramBuilder};
pub use edge::{Edge, EdgeBuilder, EdgeBuilderView, EdgeView, GenericEdge, GenericEdgeBuilder};
pub use er_diagram::{
    ERDiagram, ERDiagramBuilder, ERDiagramConfiguration, ERDiagramConfigurationBuilder, EREdge,
    EREdgeBuilder, ERNode, ERNodeBuilder, EntityRelationshipAttribute,
};
pub use errors::{ConfigError, EdgeError, Error, NodeError, StyleClassError};
pub use flowchart::{Flowchart, FlowchartBuilder};
pub use flowchart_config::{FlowchartConfiguration, FlowchartConfigurationBuilder};
pub use flowchart_edge::{CurveStyle, FlowchartEdge, FlowchartEdgeBuilder};
pub use flowchart_node::{FlowchartNode, FlowchartNodeBuilder};
pub use flowchart_shape::FlowchartNodeShape;
pub use navigation::{ClickEvent, Navigation, NavigationView};
pub use node::{GenericNode, GenericNodeBuilder, Node, NodeBuilder, NodeBuilderView, NodeView};
pub use style::{Color, FontStyle, FontWeight, StyleClass, StyleClassBuilder, StyleProperty, Unit};

verus! {

/// The view of a result: the view of its value, or its error unchanged.
pub open spec fn view_result<T: View, E>(r: Result<T, E>) -> Result<T::V, E> {
    match r {
        Ok(t) => Ok(t@),
        Err(e) => Err(e),
    }
}

/// Text produced at a given indentation depth, recursing into children one
/// level deeper.
pub trait TabbedDisplay {
    /// The text of `self` rendered at indentation depth `depth`.
    spec fn tabbed(&self, depth: nat) -> Seq<char>;

    /// Appends the text of `self` rendered at indentation depth `depth`.
    fn fmt_tabbed(&self, out: &mut String, depth: usize)
        ensures
            final(out)@ == old(out)@ + self.tabbed(depth as nat),
    ;
}

} // verus!
