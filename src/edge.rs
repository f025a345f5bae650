//! The edge capability, the edge-builder capability, and the generic edge
//! that concrete diagram edges are built on.
use std::rc::Rc;
use vstd::prelude::*;

use crate::arrow::{ArrowShape, LineStyle};
use crate::config::opt_view;
use crate::errors::EdgeError;
use crate::node::{class_views, Node};
use crate::style::{StyleClass, StyleClassView};

verus! {

/// What the edge capability exposes besides its end points.
pub struct EdgeView {
    pub label: Option<Seq<char>>,
    pub line_style: LineStyle,
    pub left_arrow_shape: Option<ArrowShape>,
    pub right_arrow_shape: Option<ArrowShape>,
}

/// An edge of a diagram, between two nodes that it shares with the diagram.
pub trait Edge: Sized {
    /// The type of the nodes at its ends.
    type Node: Node;

    /// What the edge exposes besides its end points.
    spec fn edge_view(&self) -> EdgeView;

    /// The source node.
    spec fn spec_source(&self) -> Self::Node;

    /// The destination node.
    spec fn spec_destination(&self) -> Self::Node;

    /// Returns the label, if any.
    fn label(&self) -> (r: Option<&str>)
        ensures
            match r {
                Some(l) => self.edge_view().label == Some(l@),
                None => self.edge_view().label is None,
            },
    ;

    /// Returns the source node.
    fn source(&self) -> (r: &Rc<Self::Node>)
        ensures
            **r == self.spec_source(),
    ;

    /// Returns the destination node.
    fn destination(&self) -> (r: &Rc<Self::Node>)
        ensures
            **r == self.spec_destination(),
    ;

    /// Returns the line style.
    fn line_style(&self) -> (r: LineStyle)
        ensures
            r == self.edge_view().line_style,
    ;

    /// Returns the arrow shape at the left end, if any.
    fn left_arrow_shape(&self) -> (r: Option<ArrowShape>)
        ensures
            r == self.edge_view().left_arrow_shape,
    ;

    /// Returns the arrow shape at the right end, if any.
    fn right_arrow_shape(&self) -> (r: Option<ArrowShape>)
        ensures
            r == self.edge_view().right_arrow_shape,
    ;

    /// The style classes attached to the edge itself.
    spec fn edge_classes(&self) -> Seq<StyleClassView>;

    /// Returns the style classes attached to the edge itself, in insertion
    /// order.
    fn classes(&self) -> (r: Vec<Rc<StyleClass>>)
        ensures
            class_views(r@) == self.edge_classes(),
    ;
}

/// What an edge builder holds of the fields common to every edge.
pub struct EdgeBuilderView<N> {
    pub label: Option<Seq<char>>,
    pub source: Option<N>,
    pub destination: Option<N>,
    pub line_style: LineStyle,
    pub left_arrow_shape: Option<ArrowShape>,
    pub right_arrow_shape: Option<ArrowShape>,
}

impl<N> EdgeBuilderView<N> {
    /// A builder with nothing set and a solid line.
    pub open spec fn empty() -> EdgeBuilderView<N> {
        EdgeBuilderView {
            label: None,
            source: None,
            destination: None,
            line_style: LineStyle::Solid,
            left_arrow_shape: None,
            right_arrow_shape: None,
        }
    }

    /// The error of building from the common fields alone, if any.
    pub open spec fn build_error(self) -> Option<EdgeError> {
        if self.source is None {
            Some(EdgeError::MissingSource)
        } else if self.destination is None {
            Some(EdgeError::MissingDestination)
        } else {
            None
        }
    }

    /// The edge view that building from these fields gives.
    pub open spec fn built(self) -> EdgeView {
        EdgeView {
            label: self.label,
            line_style: self.line_style,
            left_arrow_shape: self.left_arrow_shape,
            right_arrow_shape: self.right_arrow_shape,
        }
    }
}

/// The error of building: that of the kind-specific checks, made first, or
/// else that of the common fields.
pub open spec fn combined_edge_error<N>(extra: Option<EdgeError>, base: EdgeBuilderView<N>) -> Option<
    EdgeError,
> {
    match extra {
        Some(e) => Some(e),
        None => base.build_error(),
    }
}

/// Validating builder of an edge.
pub trait EdgeBuilder: Sized {
    /// The type of the nodes at the ends of the edge.
    type Node: Node;

    /// The edge that this builder makes.
    type Edge: Edge<Node = Self::Node>;

    /// The fields common to every edge, as set so far.
    spec fn base(&self) -> EdgeBuilderView<Self::Node>;

    /// The error of the checks that this kind of edge makes before the
    /// common fields, if any.
    spec fn extra_error(&self) -> Option<EdgeError>;

    /// Whether `e` keeps what this builder holds beyond the common fields.
    spec fn keeps_extras(&self, e: &Self::Edge) -> bool;

    /// Whether `other` holds what this builder holds beyond the common
    /// fields.
    spec fn same_extras(&self, other: &Self) -> bool;

    /// The outcome of building.
    spec fn spec_build(&self) -> Result<Self::Edge, EdgeError>;

    /// Building succeeds exactly when there is no build error, and gives an
    /// edge between the nodes set, with the common fields.
    proof fn lemma_spec_build(&self)
        ensures
            self.spec_build() is Ok <==> combined_edge_error(self.extra_error(), self.base()) is None,
            self.spec_build() matches Err(e) ==> combined_edge_error(self.extra_error(), self.base())
                == Some(e),
            self.spec_build() matches Ok(e) ==> self.base().source == Some(e.spec_source())
                && self.base().destination == Some(e.spec_destination()) && e.edge_view()
                == self.base().built() && self.keeps_extras(&e),
    ;

    /// Builds the edge.
    fn build(self) -> (r: Result<Self::Edge, EdgeError>)
        ensures
            r == self.spec_build(),
            r is Ok <==> combined_edge_error(self.extra_error(), self.base()) is None,
            r matches Err(e) ==> combined_edge_error(self.extra_error(), self.base()) == Some(e),
            r matches Ok(e) ==> self.base().source == Some(e.spec_source())
                && self.base().destination == Some(e.spec_destination()) && e.edge_view()
                == self.base().built() && self.keeps_extras(&e),
    ;

    /// Sets the source node.
    fn source(self, node: Rc<Self::Node>) -> (r: Result<Self, EdgeError>)
        ensures
            r matches Ok(b) && b.base() == (EdgeBuilderView {
                source: Some(*node),
                ..self.base()
            }) && b.extra_error() == self.extra_error() && b.same_extras(&self),
    ;

    /// Sets the destination node.
    fn destination(self, node: Rc<Self::Node>) -> (r: Result<Self, EdgeError>)
        ensures
            r matches Ok(b) && b.base() == (EdgeBuilderView {
                destination: Some(*node),
                ..self.base()
            }) && b.extra_error() == self.extra_error() && b.same_extras(&self),
    ;

    /// Sets the label, replacing any earlier one.
    ///
    /// Fails with `EmptyLabel` when `label` is empty.
    fn label(self, label: &str) -> (r: Result<Self, EdgeError>)
        ensures
            label@.len() == 0 ==> r == Err::<Self, EdgeError>(EdgeError::EmptyLabel),
            label@.len() > 0 ==> (r matches Ok(b) && b.base() == (EdgeBuilderView {
                label: Some(label@),
                ..self.base()
            }) && b.extra_error() == self.extra_error() && b.same_extras(&self)),
    ;

    /// Sets the line style.
    fn line_style(self, style: LineStyle) -> (r: Self)
        ensures
            r.base() == (EdgeBuilderView { line_style: style, ..self.base() }),
            r.extra_error() == self.extra_error(),
            r.same_extras(&self),
    ;

    /// Sets the arrow shape at the left end.
    ///
    /// Fails with `IncompatibleLeftArrowShape` when the node type does not
    /// accept the shape.
    fn left_arrow_shape(self, shape: ArrowShape) -> (r: Result<Self, EdgeError>)
        ensures
            !Self::Node::accepts_shape(shape) ==> r == Err::<Self, EdgeError>(
                EdgeError::IncompatibleLeftArrowShape(shape),
            ),
            Self::Node::accepts_shape(shape) ==> (r matches Ok(b) && b.base() == (
            EdgeBuilderView { left_arrow_shape: Some(shape), ..self.base() })
                && b.extra_error() == self.extra_error() && b.same_extras(&self)),
    ;

    /// Sets the arrow shape at the right end.
    ///
    /// Fails with `IncompatibleRightArrowShape` when the node type does not
    /// accept the shape.
    fn right_arrow_shape(self, shape: ArrowShape) -> (r: Result<Self, EdgeError>)
        ensures
            !Self::Node::accepts_shape(shape) ==> r == Err::<Self, EdgeError>(
                EdgeError::IncompatibleRightArrowShape(shape),
            ),
            Self::Node::accepts_shape(shape) ==> (r matches Ok(b) && b.base() == (
            EdgeBuilderView { right_arrow_shape: Some(shape), ..self.base() })
                && b.extra_error() == self.extra_error() && b.same_extras(&self)),
    ;
}

/// The fields common to every edge.
#[derive(Clone, Debug, PartialEq, Eq, Hash)]
pub struct GenericEdge<N> {
    label: Option<String>,
    source: Rc<N>,
    destination: Rc<N>,
    line_style: LineStyle,
    left_arrow_shape: Option<ArrowShape>,
    right_arrow_shape: Option<ArrowShape>,
}

impl<N: Node> Edge for GenericEdge<N> {
    type Node = N;

    closed spec fn edge_view(&self) -> EdgeView {
        EdgeView {
            label: opt_view(self.label),
            line_style: self.line_style,
            left_arrow_shape: self.left_arrow_shape,
            right_arrow_shape: self.right_arrow_shape,
        }
    }

    closed spec fn spec_source(&self) -> N {
        *self.source
    }

    closed spec fn spec_destination(&self) -> N {
        *self.destination
    }

    fn label(&self) -> (r: Option<&str>) {
        match &self.label {
            Some(l) => Some(l.as_str()),
            None => None,
        }
    }

    fn source(&self) -> (r: &Rc<N>) {
        &self.source
    }

    fn destination(&self) -> (r: &Rc<N>) {
        &self.destination
    }

    fn line_style(&self) -> (r: LineStyle) {
        self.line_style
    }

    fn left_arrow_shape(&self) -> (r: Option<ArrowShape>) {
        self.left_arrow_shape
    }

    fn right_arrow_shape(&self) -> (r: Option<ArrowShape>) {
        self.right_arrow_shape
    }

    /// The generic edge carries no style classes of its own.
    open spec fn edge_classes(&self) -> Seq<StyleClassView> {
        Seq::empty()
    }

    fn classes(&self) -> (r: Vec<Rc<StyleClass>>) {
        let r: Vec<Rc<StyleClass>> = Vec::new();
        assert(class_views(r@) =~= Seq::<StyleClassView>::empty());
        r
    }
}

/// Validating builder of a `GenericEdge`.
#[derive(Clone, Debug, PartialEq, Eq, Hash)]
pub struct GenericEdgeBuilder<N> {
    label: Option<String>,
    source: Option<Rc<N>>,
    destination: Option<Rc<N>>,
    line_style: LineStyle,
    left_arrow_shape: Option<ArrowShape>,
    right_arrow_shape: Option<ArrowShape>,
}

/// The node behind an optional shared node.
pub open spec fn opt_node<N>(n: Option<Rc<N>>) -> Option<N> {
    match n {
        Some(rc) => Some(*rc),
        None => None,
    }
}

impl<N> View for GenericEdgeBuilder<N> {
    type V = EdgeBuilderView<N>;

    closed spec fn view(&self) -> EdgeBuilderView<N> {
        EdgeBuilderView {
            label: opt_view(self.label),
            source: opt_node(self.source),
            destination: opt_node(self.destination),
            line_style: self.line_style,
            left_arrow_shape: self.left_arrow_shape,
            right_arrow_shape: self.right_arrow_shape,
        }
    }
}

impl<N> Default for GenericEdgeBuilder<N> {
    fn default() -> (r: Self)
        ensures
            r@ == EdgeBuilderView::<N>::empty(),
    {
        GenericEdgeBuilder {
            label: None,
            source: None,
            destination: None,
            line_style: LineStyle::Solid,
            left_arrow_shape: None,
            right_arrow_shape: None,
        }
    }
}

impl<N: Node> EdgeBuilder for GenericEdgeBuilder<N> {
    type Node = N;

    type Edge = GenericEdge<N>;

    open spec fn base(&self) -> EdgeBuilderView<N> {
        self@
    }

    open spec fn extra_error(&self) -> Option<EdgeError> {
        None
    }

    open spec fn keeps_extras(&self, e: &GenericEdge<N>) -> bool {
        e.edge_classes().len() == 0
    }

    open spec fn same_extras(&self, other: &Self) -> bool {
        true
    }

    closed spec fn spec_build(&self) -> Result<GenericEdge<N>, EdgeError> {
        match self.source {
            None => Err(EdgeError::MissingSource),
            Some(source) => match self.destination {
                None => Err(EdgeError::MissingDestination),
                Some(destination) => Ok(
                    GenericEdge {
                        label: self.label,
                        source,
                        destination,
                        line_style: self.line_style,
                        left_arrow_shape: self.left_arrow_shape,
                        right_arrow_shape: self.right_arrow_shape,
                    },
                ),
            },
        }
    }

    proof fn lemma_spec_build(&self) {
    }

    fn build(self) -> (r: Result<GenericEdge<N>, EdgeError>) {
        match self.source {
            None => Err(EdgeError::MissingSource),
            Some(source) => match self.destination {
                None => Err(EdgeError::MissingDestination),
                Some(destination) => Ok(
                    GenericEdge {
                        label: self.label,
                        source,
                        destination,
                        line_style: self.line_style,
                        left_arrow_shape: self.left_arrow_shape,
                        right_arrow_shape: self.right_arrow_shape,
                    },
                ),
            },
        }
    }

    fn source(self, node: Rc<N>) -> (r: Result<Self, EdgeError>) {
        Ok(GenericEdgeBuilder { source: Some(node), ..self })
    }

    fn destination(self, node: Rc<N>) -> (r: Result<Self, EdgeError>) {
        Ok(GenericEdgeBuilder { destination: Some(node), ..self })
    }

    fn label(self, label: &str) -> (r: Result<Self, EdgeError>) {
        if label.is_empty() {
            return Err(EdgeError::EmptyLabel);
        }
        Ok(GenericEdgeBuilder { label: Some(label.to_owned()), ..self })
    }

    fn line_style(self, style: LineStyle) -> (r: Self) {
        GenericEdgeBuilder { line_style: style, ..self }
    }

    fn left_arrow_shape(self, shape: ArrowShape) -> (r: Result<Self, EdgeError>) {
        if !N::is_compatible_arrow_shape(shape) {
            return Err(EdgeError::IncompatibleLeftArrowShape(shape));
        }
        Ok(GenericEdgeBuilder { left_arrow_shape: Some(shape), ..self })
    }

    fn right_arrow_shape(self, shape: ArrowShape) -> (r: Result<Self, EdgeError>) {
        if !N::is_compatible_arrow_shape(shape) {
            return Err(EdgeError::IncompatibleRightArrowShape(shape));
        }
        Ok(GenericEdgeBuilder { right_arrow_shape: Some(shape), ..self })
    }
}

} // verus!
