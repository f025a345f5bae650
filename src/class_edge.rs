//! Edges of class diagrams: relations between classes, with a multiplicity
//! at each end.
use std::rc::Rc;
use vstd::prelude::*;

use crate::arrow::{left_glyph, push_left_glyph, push_right_glyph, right_glyph, ArrowShape, LineStyle};
use crate::class_member::Multiplicity;
use crate::class_node::ClassNode;
use crate::edge::{Edge, EdgeBuilder, EdgeBuilderView, EdgeView, GenericEdge, GenericEdgeBuilder};
use crate::errors::EdgeError;
use crate::node::{class_views, Node};
use crate::style::{StyleClass, StyleClassView};
use crate::text::{indent, node_ref, push_indent, push_node_ref};
use crate::TabbedDisplay;

verus! {

/// What a class edge holds besides its ends.
pub struct ClassEdgeView {
    pub edge: EdgeView,
    pub left_multiplicity: Option<Multiplicity>,
    pub right_multiplicity: Option<Multiplicity>,
}

impl ClassEdgeView {
    /// The relation between the two ends: multiplicities, arrow heads and
    /// line segment.
    pub open spec fn relation_text(self) -> Seq<char> {
        (match self.left_multiplicity {
            Some(m) => m.text() + " "@,
            None => Seq::empty(),
        }) + left_glyph(self.edge.left_arrow_shape) + self.edge.line_style.segment_text()
            + right_glyph(self.edge.right_arrow_shape) + match self.right_multiplicity {
            Some(m) => " "@ + m.text(),
            None => Seq::empty(),
        }
    }

    /// The edge line at depth `depth`, from node `source` to node
    /// `destination`, with the quoted label if any.
    pub open spec fn text(self, source: u64, destination: u64, depth: nat) -> Seq<char> {
        indent(depth) + node_ref(source) + " "@ + self.relation_text() + " "@ + node_ref(destination)
            + match self.edge.label {
            Some(l) => " : \"`"@ + l + "`\""@,
            None => Seq::empty(),
        } + "\n"@
    }
}

/// A relation between two classes.
#[derive(Clone, Debug, PartialEq, Eq, Hash)]
pub struct ClassEdge {
    edge: GenericEdge<ClassNode>,
    left_multiplicity: Option<Multiplicity>,
    right_multiplicity: Option<Multiplicity>,
}

impl View for ClassEdge {
    type V = ClassEdgeView;

    closed spec fn view(&self) -> ClassEdgeView {
        ClassEdgeView {
            edge: self.edge.edge_view(),
            left_multiplicity: self.left_multiplicity,
            right_multiplicity: self.right_multiplicity,
        }
    }
}

impl Edge for ClassEdge {
    type Node = ClassNode;

    open spec fn edge_view(&self) -> EdgeView {
        self@.edge
    }

    closed spec fn spec_source(&self) -> ClassNode {
        self.edge.spec_source()
    }

    closed spec fn spec_destination(&self) -> ClassNode {
        self.edge.spec_destination()
    }

    fn label(&self) -> (r: Option<&str>) {
        self.edge.label()
    }

    fn source(&self) -> (r: &Rc<ClassNode>) {
        self.edge.source()
    }

    fn destination(&self) -> (r: &Rc<ClassNode>) {
        self.edge.destination()
    }

    fn line_style(&self) -> (r: LineStyle) {
        self.edge.line_style()
    }

    fn left_arrow_shape(&self) -> (r: Option<ArrowShape>) {
        self.edge.left_arrow_shape()
    }

    fn right_arrow_shape(&self) -> (r: Option<ArrowShape>) {
        self.edge.right_arrow_shape()
    }

    /// Class edges carry no style classes of their own.
    open spec fn edge_classes(&self) -> Seq<StyleClassView> {
        Seq::empty()
    }

    fn classes(&self) -> (r: Vec<Rc<StyleClass>>) {
        let r: Vec<Rc<StyleClass>> = Vec::new();
        assert(class_views(r@) =~= Seq::<StyleClassView>::empty());
        r
    }
}

impl ClassEdge {
    /// Returns the multiplicity at the left end, if any.
    pub fn left_multiplicity(&self) -> (r: Option<Multiplicity>)
        ensures
            r == self@.left_multiplicity,
    {
        self.left_multiplicity
    }

    /// Returns the multiplicity at the right end, if any.
    pub fn right_multiplicity(&self) -> (r: Option<Multiplicity>)
        ensures
            r == self@.right_multiplicity,
    {
        self.right_multiplicity
    }

    fn push_relation(&self, out: &mut String)
        ensures
            final(out)@ == old(out)@ + self@.relation_text(),
    {
        match self.left_multiplicity {
            Some(m) => {
                out.append(m.as_str());
                out.append(" ");
            },
            None => {},
        }
        push_left_glyph(out, self.edge.left_arrow_shape());
        out.append(self.edge.line_style().segment());
        push_right_glyph(out, self.edge.right_arrow_shape());
        match self.right_multiplicity {
            Some(m) => {
                out.append(" ");
                out.append(m.as_str());
            },
            None => {},
        }
        assert(final(out)@ =~= old(out)@ + self@.relation_text());
    }

    /// Returns the edge line at depth 0.
    pub fn to_string(&self) -> (r: String)
        ensures
            r@ == self.tabbed(0),
    {
        let mut out = String::new();
        self.fmt_tabbed(&mut out, 0);
        assert(out@ =~= self.tabbed(0));
        out
    }
}

impl TabbedDisplay for ClassEdge {
    open spec fn tabbed(&self, depth: nat) -> Seq<char> {
        self@.text(self.spec_source().node_view().id, self.spec_destination().node_view().id, depth)
    }

    fn fmt_tabbed(&self, out: &mut String, depth: usize) {
        push_indent(out, depth);
        push_node_ref(out, self.edge.source().id());
        out.append(" ");
        self.push_relation(out);
        out.append(" ");
        push_node_ref(out, self.edge.destination().id());
        let ghost before = out@;
        match self.edge.label() {
            Some(l) => {
                out.append(" : \"`");
                out.append(l);
                out.append("`\"");
            },
            None => {},
        }
        assert(out@ =~= before + match self@.edge.label {
            Some(l) => " : \"`"@ + l + "`\""@,
            None => Seq::empty(),
        });
        out.append("\n");
        assert(final(out)@ =~= old(out)@ + self.tabbed(depth as nat));
    }
}

/// What a class edge builder holds.
pub struct ClassEdgeBuilderView {
    pub base: EdgeBuilderView<ClassNode>,
    pub left_multiplicity: Option<Multiplicity>,
    pub right_multiplicity: Option<Multiplicity>,
}

/// Validating builder of a `ClassEdge`.
#[derive(Clone, Debug, PartialEq, Eq, Hash)]
pub struct ClassEdgeBuilder {
    edge_builder: GenericEdgeBuilder<ClassNode>,
    left_multiplicity: Option<Multiplicity>,
    right_multiplicity: Option<Multiplicity>,
}

impl View for ClassEdgeBuilder {
    type V = ClassEdgeBuilderView;

    closed spec fn view(&self) -> ClassEdgeBuilderView {
        ClassEdgeBuilderView {
            base: self.edge_builder.base(),
            left_multiplicity: self.left_multiplicity,
            right_multiplicity: self.right_multiplicity,
        }
    }
}

impl Default for ClassEdgeBuilder {
    fn default() -> (r: Self)
        ensures
            r@ == (ClassEdgeBuilderView {
                base: EdgeBuilderView::empty(),
                left_multiplicity: None,
                right_multiplicity: None,
            }),
    {
        ClassEdgeBuilder {
            edge_builder: GenericEdgeBuilder::default(),
            left_multiplicity: None,
            right_multiplicity: None,
        }
    }
}

impl ClassEdgeBuilder {
    /// Sets the multiplicity at the left end.
    pub fn left_multiplicity(self, multiplicity: Multiplicity) -> (r: Self)
        ensures
            r@ == (ClassEdgeBuilderView { left_multiplicity: Some(multiplicity), ..self@ }),
    {
        ClassEdgeBuilder { left_multiplicity: Some(multiplicity), ..self }
    }

    /// Sets the multiplicity at the right end.
    pub fn right_multiplicity(self, multiplicity: Multiplicity) -> (r: Self)
        ensures
            r@ == (ClassEdgeBuilderView { right_multiplicity: Some(multiplicity), ..self@ }),
    {
        ClassEdgeBuilder { right_multiplicity: Some(multiplicity), ..self }
    }
}

impl EdgeBuilder for ClassEdgeBuilder {
    type Node = ClassNode;

    type Edge = ClassEdge;

    open spec fn base(&self) -> EdgeBuilderView<ClassNode> {
        self@.base
    }

    open spec fn extra_error(&self) -> Option<EdgeError> {
        None
    }

    open spec fn same_extras(&self, other: &Self) -> bool {
        self@.left_multiplicity == other@.left_multiplicity && self@.right_multiplicity
            == other@.right_multiplicity
    }

    /// The multiplicities carry over to the edge.
    open spec fn keeps_extras(&self, e: &ClassEdge) -> bool {
        e@.left_multiplicity == self@.left_multiplicity && e@.right_multiplicity
            == self@.right_multiplicity
    }

    closed spec fn spec_build(&self) -> Result<ClassEdge, EdgeError> {
        match self.edge_builder.spec_build() {
            Ok(edge) => Ok(
                ClassEdge {
                    edge,
                    left_multiplicity: self.left_multiplicity,
                    right_multiplicity: self.right_multiplicity,
                },
            ),
            Err(e) => Err(e),
        }
    }

    proof fn lemma_spec_build(&self) {
        self.edge_builder.lemma_spec_build();
    }

    fn build(self) -> (r: Result<ClassEdge, EdgeError>) {
        match self.edge_builder.build() {
            Ok(edge) => Ok(
                ClassEdge {
                    edge,
                    left_multiplicity: self.left_multiplicity,
                    right_multiplicity: self.right_multiplicity,
                },
            ),
            Err(e) => Err(e),
        }
    }

    fn source(self, node: Rc<ClassNode>) -> (r: Result<Self, EdgeError>) {
        match self.edge_builder.source(node) {
            Ok(edge_builder) => Ok(ClassEdgeBuilder { edge_builder, ..self }),
            Err(e) => Err(e),
        }
    }

    fn destination(self, node: Rc<ClassNode>) -> (r: Result<Self, EdgeError>) {
        match self.edge_builder.destination(node) {
            Ok(edge_builder) => Ok(ClassEdgeBuilder { edge_builder, ..self }),
            Err(e) => Err(e),
        }
    }

    fn label(self, label: &str) -> (r: Result<Self, EdgeError>) {
        match self.edge_builder.label(label) {
            Ok(edge_builder) => Ok(ClassEdgeBuilder { edge_builder, ..self }),
            Err(e) => Err(e),
        }
    }

    fn line_style(self, style: LineStyle) -> (r: Self) {
        ClassEdgeBuilder { edge_builder: self.edge_builder.line_style(style), ..self }
    }

    fn left_arrow_shape(self, shape: ArrowShape) -> (r: Result<Self, EdgeError>) {
        match self.edge_builder.left_arrow_shape(shape) {
            Ok(edge_builder) => Ok(ClassEdgeBuilder { edge_builder, ..self }),
            Err(e) => Err(e),
        }
    }

    fn right_arrow_shape(self, shape: ArrowShape) -> (r: Result<Self, EdgeError>) {
        match self.edge_builder.right_arrow_shape(shape) {
            Ok(edge_builder) => Ok(ClassEdgeBuilder { edge_builder, ..self }),
            Err(e) => Err(e),
        }
    }
}

} // verus!
