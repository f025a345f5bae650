//! Edges of flowcharts: an identifier, a curve, a length, and their own
//! style classes and properties.
use std::rc::Rc;
use vstd::prelude::*;

use crate::arrow::{left_glyph, push_left_glyph, push_right_glyph, right_glyph, ArrowShape, LineStyle};
use crate::errors::{EdgeError, StyleClassError};
use crate::flowchart_node::FlowchartNode;
use crate::edge::{Edge, EdgeBuilder, EdgeBuilderView, EdgeView, GenericEdge, GenericEdgeBuilder};
use crate::node::{class_views, contains_class_named, has_class_named, Node};
use crate::style::{class_lines, contains_kind, has_kind, push_class_lines, push_style_line, style_line, StyleClass, StyleClassView, StyleProperty};
use crate::text::{edge_ref, indent, node_ref, push_edge_ref, push_indent, push_node_ref};
use crate::TabbedDisplay;

verus! {

/// The curve along which flowchart edges are drawn.
#[derive(Copy, Clone, Debug, PartialEq, Eq, Structural, Hash)]
pub enum CurveStyle {
    /// The `basis` curve.
    Basis,
    /// The `bumpX` curve.
    BumpX,
    /// The `bumpY` curve.
    BumpY,
    /// The `cardinal` curve.
    Cardinal,
    /// The `catmullRom` curve.
    CatmullRom,
    /// The `linear` curve.
    Linear,
    /// The `monotoneX` curve.
    MonotoneX,
    /// The `monotoneY` curve.
    MonotoneY,
    /// The `natural` curve.
    Natural,
    /// The `step` curve.
    Step,
    /// The `stepAfter` curve.
    StepAfter,
    /// The `stepBefore` curve.
    StepBefore,
}

impl Default for CurveStyle {
    fn default() -> (r: Self)
        ensures
            r == CurveStyle::Basis,
    {
        CurveStyle::Basis
    }
}

impl CurveStyle {
    /// The curve as text.
    pub open spec fn text(self) -> Seq<char> {
        match self {
            CurveStyle::Basis => "basis"@,
            CurveStyle::BumpX => "bumpX"@,
            CurveStyle::BumpY => "bumpY"@,
            CurveStyle::Cardinal => "cardinal"@,
            CurveStyle::CatmullRom => "catmullRom"@,
            CurveStyle::Linear => "linear"@,
            CurveStyle::MonotoneX => "monotoneX"@,
            CurveStyle::MonotoneY => "monotoneY"@,
            CurveStyle::Natural => "natural"@,
            CurveStyle::Step => "step"@,
            CurveStyle::StepAfter => "stepAfter"@,
            CurveStyle::StepBefore => "stepBefore"@,
        }
    }

    /// Returns the curve as text.
    pub fn as_str(&self) -> (r: &'static str)
        ensures
            r@ == self.text(),
    {
        match self {
            CurveStyle::Basis => "basis",
            CurveStyle::BumpX => "bumpX",
            CurveStyle::BumpY => "bumpY",
            CurveStyle::Cardinal => "cardinal",
            CurveStyle::CatmullRom => "catmullRom",
            CurveStyle::Linear => "linear",
            CurveStyle::MonotoneX => "monotoneX",
            CurveStyle::MonotoneY => "monotoneY",
            CurveStyle::Natural => "natural",
            CurveStyle::Step => "step",
            CurveStyle::StepAfter => "stepAfter",
            CurveStyle::StepBefore => "stepBefore",
        }
    }

    /// Returns the curve as text.
    pub fn to_string(&self) -> (r: String)
        ensures
            r@ == self.text(),
    {
        String::from_str(self.as_str())
    }
}

} // verus!

verus! {

/// `n` copies of the character `c`.
pub open spec fn repeated(c: char, n: nat) -> Seq<char> {
    Seq::new(n, |i: int| c)
}

/// The line segment of a flowchart edge of the given style and length.
pub open spec fn segment_text(style: LineStyle, length: u8) -> Seq<char> {
    match style {
        LineStyle::Solid => repeated('-', length as nat + 2),
        LineStyle::Thick => repeated('=', length as nat + 2),
        LineStyle::Dashed => seq!['-'] + repeated('.', length as nat) + seq!['-'],
    }
}

fn push_repeated(out: &mut String, piece: &str, c: Ghost<char>, n: usize)
    requires
        piece@ == seq![c@],
    ensures
        final(out)@ == old(out)@ + repeated(c@, n as nat),
{
    let ghost start = out@;
    let mut i: usize = 0;
    while i < n
        invariant
            i <= n,
            piece@ == seq![c@],
            out@ == start + repeated(c@, i as nat),
        decreases n - i,
    {
        out.append(piece);
        i = i + 1;
        assert(out@ =~= start + repeated(c@, i as nat));
    }
}

fn push_segment(out: &mut String, style: LineStyle, length: u8)
    ensures
        final(out)@ == old(out)@ + segment_text(style, length),
{
    proof {
        reveal_strlit("-");
        reveal_strlit("=");
        reveal_strlit(".");
        assert("-"@ =~= seq!['-']);
        assert("="@ =~= seq!['=']);
        assert("."@ =~= seq!['.']);
    }
    match style {
        LineStyle::Solid => push_repeated(out, "-", Ghost('-'), length as usize + 2),
        LineStyle::Thick => push_repeated(out, "=", Ghost('='), length as usize + 2),
        LineStyle::Dashed => {
            out.append("-");
            push_repeated(out, ".", Ghost('.'), length as usize);
            out.append("-");
        },
    }
    assert(final(out)@ =~= old(out)@ + segment_text(style, length));
}

/// What a flowchart edge holds.
pub struct FlowchartEdgeView {
    pub id: usize,
    pub edge: EdgeView,
    pub classes: Seq<StyleClassView>,
    pub properties: Seq<StyleProperty>,
    pub curve_style: CurveStyle,
    pub length: u8,
}

/// An edge of a flowchart.
#[derive(Clone, Debug, PartialEq, Eq, Hash)]
pub struct FlowchartEdge {
    id: usize,
    edge: GenericEdge<FlowchartNode>,
    style_classes: Vec<Rc<StyleClass>>,
    style_properties: Vec<StyleProperty>,
    curve_style: CurveStyle,
    length: u8,
}

impl View for FlowchartEdge {
    type V = FlowchartEdgeView;

    closed spec fn view(&self) -> FlowchartEdgeView {
        FlowchartEdgeView {
            id: self.id,
            edge: self.edge.edge_view(),
            classes: class_views(self.style_classes@),
            properties: self.style_properties@,
            curve_style: self.curve_style,
            length: self.length,
        }
    }
}

impl Edge for FlowchartEdge {
    type Node = FlowchartNode;

    open spec fn edge_view(&self) -> EdgeView {
        self@.edge
    }

    closed spec fn spec_source(&self) -> FlowchartNode {
        self.edge.spec_source()
    }

    closed spec fn spec_destination(&self) -> FlowchartNode {
        self.edge.spec_destination()
    }

    fn label(&self) -> (r: Option<&str>) {
        self.edge.label()
    }

    fn source(&self) -> (r: &Rc<FlowchartNode>) {
        self.edge.source()
    }

    fn destination(&self) -> (r: &Rc<FlowchartNode>) {
        self.edge.destination()
    }

    fn line_style(&self) -> (r: LineStyle) {
        self.edge.line_style()
    }

    fn left_arrow_shape(&self) -> (r: Option<ArrowShape>) {
        self.edge.left_arrow_shape()
    }

    fn right_arrow_shape(&self) -> (r: Option<ArrowShape>) {
        self.edge.right_arrow_shape()
    }

    open spec fn edge_classes(&self) -> Seq<StyleClassView> {
        self@.classes
    }

    fn classes(&self) -> (r: Vec<Rc<StyleClass>>) {
        let mut r: Vec<Rc<StyleClass>> = Vec::new();
        let mut i: usize = 0;
        while i < self.style_classes.len()
            invariant
                i <= self.style_classes.len(),
                class_views(r@) == class_views(self.style_classes@).take(i as int),
            decreases self.style_classes.len() - i,
        {
            let c = Rc::clone(&self.style_classes[i]);
            let ghost prev = r@;
            r.push(c);
            assert(class_views(r@) =~= class_views(prev).push(c@));
            assert(class_views(self.style_classes@).take(i + 1) =~= class_views(
                self.style_classes@,
            ).take(i as int).push(c@));
            i = i + 1;
        }
        assert(class_views(self.style_classes@).take(i as int) =~= class_views(
            self.style_classes@,
        ));
        r
    }
}

impl FlowchartEdgeView {
    /// Whether the edge line carries its identifier: it has a curve other
    /// than the default, style classes, or style properties.
    pub open spec fn decorated(self) -> bool {
        self.curve_style != CurveStyle::Basis || self.classes.len() > 0 || self.properties.len()
            > 0
    }

    /// The edge line at depth `depth`, from node `source` to node
    /// `destination`.
    pub open spec fn line_text(self, source: u64, destination: u64, depth: nat) -> Seq<char> {
        indent(depth) + node_ref(source) + " "@ + self.prefix_text() + self.arrow_text()
            + self.label_text() + " "@ + node_ref(destination) + "\n"@
    }

    /// The identifier of a decorated edge, before its arrow.
    pub open spec fn prefix_text(self) -> Seq<char> {
        if self.decorated() {
            edge_ref(self.id as u64) + "@"@
        } else {
            Seq::empty()
        }
    }

    /// The arrow: left glyph, segment and right glyph.
    pub open spec fn arrow_text(self) -> Seq<char> {
        left_glyph(self.edge.left_arrow_shape) + segment_text(self.edge.line_style, self.length)
            + right_glyph(self.edge.right_arrow_shape)
    }

    /// The quoted label, if any.
    pub open spec fn label_text(self) -> Seq<char> {
        match self.edge.label {
            Some(l) => "|\"`"@ + l + "`\"|"@,
            None => Seq::empty(),
        }
    }

    /// The curve line at depth `depth`, when the curve is not the default.
    pub open spec fn curve_text(self, depth: nat) -> Seq<char> {
        if self.curve_style != CurveStyle::Basis {
            indent(depth) + edge_ref(self.id as u64) + "@{curve: "@ + self.curve_style.text()
                + "}\n"@
        } else {
            Seq::empty()
        }
    }

    /// The text of the edge at depth `depth`, from node `source` to node
    /// `destination`: the edge line, then its curve, class and style lines.
    pub open spec fn text(self, source: u64, destination: u64, depth: nat) -> Seq<char> {
        self.line_text(source, destination, depth) + self.curve_text(depth) + class_lines(
            indent(depth),
            "class "@,
            edge_ref(self.id as u64),
            self.classes,
        ) + style_line(indent(depth), "linkStyle "@, edge_ref(self.id as u64), self.properties)
    }
}

impl FlowchartEdge {
    /// Returns the identifier.
    pub fn id(&self) -> (r: usize)
        ensures
            r == self@.id,
    {
        self.id
    }

    /// Returns the style properties of the edge, in insertion order.
    pub fn style_properties(&self) -> (r: &Vec<StyleProperty>)
        ensures
            r@ == self@.properties,
    {
        &self.style_properties
    }

    /// Returns the curve style.
    pub fn curve_style(&self) -> (r: CurveStyle)
        ensures
            r == self@.curve_style,
    {
        self.curve_style
    }

    /// Returns the number of extra segments of the line.
    pub fn length(&self) -> (r: u8)
        ensures
            r == self@.length,
    {
        self.length
    }

    fn push_prefix(&self, out: &mut String, target: &str)
        requires
            target@ == edge_ref(self.id as u64),
        ensures
            final(out)@ == old(out)@ + self@.prefix_text(),
    {
        if self.curve_style != CurveStyle::Basis || self.style_classes.len() > 0
            || self.style_properties.len() > 0 {
            out.append(target);
            out.append("@");
        }
        assert(final(out)@ =~= old(out)@ + self@.prefix_text());
    }

    fn push_arrow(&self, out: &mut String)
        ensures
            final(out)@ == old(out)@ + self@.arrow_text(),
    {
        push_left_glyph(out, self.edge.left_arrow_shape());
        push_segment(out, self.edge.line_style(), self.length);
        push_right_glyph(out, self.edge.right_arrow_shape());
        assert(final(out)@ =~= old(out)@ + self@.arrow_text());
    }

    fn push_label(&self, out: &mut String)
        ensures
            final(out)@ == old(out)@ + self@.label_text(),
    {
        match self.edge.label() {
            Some(l) => {
                out.append("|\"`");
                out.append(l);
                out.append("`\"|");
            },
            None => {},
        }
        assert(final(out)@ =~= old(out)@ + self@.label_text());
    }

    fn push_edge_line(&self, out: &mut String, depth: usize, target: &str)
        requires
            target@ == edge_ref(self.id as u64),
        ensures
            final(out)@ == old(out)@ + self@.line_text(
                self.spec_source().node_view().id,
                self.spec_destination().node_view().id,
                depth as nat,
            ),
    {
        push_indent(out, depth);
        push_node_ref(out, self.edge.source().id());
        out.append(" ");
        self.push_prefix(out, target);
        self.push_arrow(out);
        self.push_label(out);
        out.append(" ");
        push_node_ref(out, self.edge.destination().id());
        out.append("\n");
        assert(final(out)@ =~= old(out)@ + self@.line_text(
            self.spec_source().node_view().id,
            self.spec_destination().node_view().id,
            depth as nat,
        ));
    }

    fn push_curve_line(&self, out: &mut String, depth: usize, target: &str)
        requires
            target@ == edge_ref(self.id as u64),
        ensures
            final(out)@ == old(out)@ + self@.curve_text(depth as nat),
    {
        if self.curve_style != CurveStyle::Basis {
            push_indent(out, depth);
            out.append(target);
            out.append("@{curve: ");
            out.append(self.curve_style.as_str());
            out.append("}\n");
        }
        assert(final(out)@ =~= old(out)@ + self@.curve_text(depth as nat));
    }
}

impl TabbedDisplay for FlowchartEdge {
    open spec fn tabbed(&self, depth: nat) -> Seq<char> {
        self@.text(
            self.spec_source().node_view().id,
            self.spec_destination().node_view().id,
            depth,
        )
    }

    fn fmt_tabbed(&self, out: &mut String, depth: usize) {
        let mut target = String::new();
        push_edge_ref(&mut target, self.id as u64);
        assert(target@ =~= edge_ref(self.id as u64));
        self.push_edge_line(out, depth, target.as_str());
        self.push_curve_line(out, depth, target.as_str());
        push_class_lines(out, depth, "class ", target.as_str(), &self.style_classes);
        push_style_line(out, depth, "linkStyle ", target.as_str(), &self.style_properties);
        assert(final(out)@ =~= old(out)@ + self.tabbed(depth as nat));
    }
}

impl FlowchartEdge {
    /// Returns the text of the edge at depth 0.
    pub fn to_string(&self) -> (r: String)
        ensures
            r@ == self.tabbed(0),
    {
        let mut out = String::new();
        self.fmt_tabbed(&mut out, 0);
        assert(out@ =~= self.tabbed(0));
        out
    }
}

/// What a flowchart edge builder holds.
pub struct FlowchartEdgeBuilderView {
    pub id: Option<usize>,
    pub base: EdgeBuilderView<FlowchartNode>,
    pub classes: Seq<StyleClassView>,
    pub properties: Seq<StyleProperty>,
    pub curve_style: CurveStyle,
    pub length: u8,
}

/// Validating builder of a `FlowchartEdge`.
#[derive(Clone, Debug, PartialEq, Eq, Hash)]
pub struct FlowchartEdgeBuilder {
    id: Option<usize>,
    edge_builder: GenericEdgeBuilder<FlowchartNode>,
    style_classes: Vec<Rc<StyleClass>>,
    style_properties: Vec<StyleProperty>,
    curve_style: CurveStyle,
    length: u8,
}

impl View for FlowchartEdgeBuilder {
    type V = FlowchartEdgeBuilderView;

    closed spec fn view(&self) -> FlowchartEdgeBuilderView {
        FlowchartEdgeBuilderView {
            id: self.id,
            base: self.edge_builder.base(),
            classes: class_views(self.style_classes@),
            properties: self.style_properties@,
            curve_style: self.curve_style,
            length: self.length,
        }
    }
}

impl Default for FlowchartEdgeBuilder {
    /// No identifier, no ends, the default curve, and a length of one.
    fn default() -> (r: Self)
        ensures
            r@ == (FlowchartEdgeBuilderView {
                id: None,
                base: EdgeBuilderView::empty(),
                classes: Seq::empty(),
                properties: Seq::empty(),
                curve_style: CurveStyle::Basis,
                length: 1,
            }),
    {
        let r = FlowchartEdgeBuilder {
            id: None,
            edge_builder: GenericEdgeBuilder::default(),
            style_classes: Vec::new(),
            style_properties: Vec::new(),
            curve_style: CurveStyle::Basis,
            length: 1,
        };
        assert(r@.classes =~= Seq::<StyleClassView>::empty());
        assert(r@.properties =~= Seq::<StyleProperty>::empty());
        r
    }
}

impl FlowchartEdgeBuilder {
    /// The builder with its identifier set.
    pub closed spec fn spec_with_id(self, id: usize) -> Self {
        FlowchartEdgeBuilder { id: Some(id), ..self }
    }

    /// Sets the identifier.
    pub fn id(self, id: usize) -> (r: Self)
        ensures
            r == self.spec_with_id(id),
            r@ == (FlowchartEdgeBuilderView { id: Some(id), ..self@ }),
    {
        FlowchartEdgeBuilder { id: Some(id), ..self }
    }

    /// Attaches a style class, after those already attached.
    ///
    /// Fails with `DuplicateClass` when a class of the same name is attached.
    pub fn style_class(self, class: Rc<StyleClass>) -> (r: Result<Self, StyleClassError>)
        ensures
            has_class_named(self@.classes, class@.name) ==> (r matches Err(
                StyleClassError::DuplicateClass(n),
            ) && n@ == class@.name),
            !has_class_named(self@.classes, class@.name) ==> (r matches Ok(b) && b@ == (
            FlowchartEdgeBuilderView { classes: self@.classes.push(class@), ..self@ })),
    {
        let name = class.name().to_owned();
        if contains_class_named(&self.style_classes, &name) {
            return Err(StyleClassError::DuplicateClass(name));
        }
        let mut style_classes = self.style_classes;
        style_classes.push(class);
        proof {
            assert(class_views(style_classes@) =~= class_views(self.style_classes@).push(class@));
        }
        Ok(FlowchartEdgeBuilder { style_classes, ..self })
    }

    /// Adds a style property, after those already added.
    ///
    /// Fails with `DuplicateProperty` when a property of the same kind is
    /// there.
    pub fn style_property(self, property: StyleProperty) -> (r: Result<Self, StyleClassError>)
        ensures
            has_kind(self@.properties, property) ==> r == Err::<Self, StyleClassError>(
                StyleClassError::DuplicateProperty(property),
            ),
            !has_kind(self@.properties, property) ==> (r matches Ok(b) && b@ == (
            FlowchartEdgeBuilderView { properties: self@.properties.push(property), ..self@ })),
    {
        if contains_kind(&self.style_properties, property) {
            return Err(StyleClassError::DuplicateProperty(property));
        }
        let mut style_properties = self.style_properties;
        style_properties.push(property);
        Ok(FlowchartEdgeBuilder { style_properties, ..self })
    }

    /// Sets the curve style.
    pub fn curve_style(self, style: CurveStyle) -> (r: Self)
        ensures
            r@ == (FlowchartEdgeBuilderView { curve_style: style, ..self@ }),
    {
        FlowchartEdgeBuilder { curve_style: style, ..self }
    }

    /// Sets the number of extra segments of the line.
    pub fn length(self, length: u8) -> (r: Self)
        ensures
            r@ == (FlowchartEdgeBuilderView { length, ..self@ }),
    {
        FlowchartEdgeBuilder { length, ..self }
    }
}

impl EdgeBuilder for FlowchartEdgeBuilder {
    type Node = FlowchartNode;

    type Edge = FlowchartEdge;

    open spec fn base(&self) -> EdgeBuilderView<FlowchartNode> {
        self@.base
    }

    open spec fn same_extras(&self, other: &Self) -> bool {
        self@.id == other@.id && self@.classes == other@.classes && self@.properties
            == other@.properties && self@.curve_style == other@.curve_style && self@.length
            == other@.length
    }

    /// The identifier, classes, properties, curve and length carry over to
    /// the edge.
    open spec fn keeps_extras(&self, e: &FlowchartEdge) -> bool {
        Some(e@.id) == self@.id && e@.classes == self@.classes && e@.properties
            == self@.properties && e@.curve_style == self@.curve_style && e@.length
            == self@.length
    }

    /// A zero length is refused first, then a missing identifier, before
    /// the common fields are looked at.
    open spec fn extra_error(&self) -> Option<EdgeError> {
        if self@.length == 0 {
            Some(EdgeError::InvalidLength)
        } else if self@.id is None {
            Some(EdgeError::MissingId)
        } else {
            None
        }
    }

    closed spec fn spec_build(&self) -> Result<FlowchartEdge, EdgeError> {
        if self.length == 0 {
            Err(EdgeError::InvalidLength)
        } else {
            match self.id {
                None => Err(EdgeError::MissingId),
                Some(id) => match self.edge_builder.spec_build() {
                    Ok(edge) => Ok(
                        FlowchartEdge {
                            id,
                            edge,
                            style_classes: self.style_classes,
                            style_properties: self.style_properties,
                            curve_style: self.curve_style,
                            length: self.length,
                        },
                    ),
                    Err(e) => Err(e),
                },
            }
        }
    }

    proof fn lemma_spec_build(&self) {
        self.edge_builder.lemma_spec_build();
    }

    fn build(self) -> (r: Result<FlowchartEdge, EdgeError>) {
        if self.length == 0 {
            return Err(EdgeError::InvalidLength);
        }
        let id = match self.id {
            None => return Err(EdgeError::MissingId),
            Some(id) => id,
        };
        match self.edge_builder.build() {
            Ok(edge) => Ok(
                FlowchartEdge {
                    id,
                    edge,
                    style_classes: self.style_classes,
                    style_properties: self.style_properties,
                    curve_style: self.curve_style,
                    length: self.length,
                },
            ),
            Err(e) => Err(e),
        }
    }

    fn source(self, node: Rc<FlowchartNode>) -> (r: Result<Self, EdgeError>) {
        match self.edge_builder.source(node) {
            Ok(edge_builder) => Ok(FlowchartEdgeBuilder { edge_builder, ..self }),
            Err(e) => Err(e),
        }
    }

    fn destination(self, node: Rc<FlowchartNode>) -> (r: Result<Self, EdgeError>) {
        match self.edge_builder.destination(node) {
            Ok(edge_builder) => Ok(FlowchartEdgeBuilder { edge_builder, ..self }),
            Err(e) => Err(e),
        }
    }

    fn label(self, label: &str) -> (r: Result<Self, EdgeError>) {
        match self.edge_builder.label(label) {
            Ok(edge_builder) => Ok(FlowchartEdgeBuilder { edge_builder, ..self }),
            Err(e) => Err(e),
        }
    }

    fn line_style(self, style: LineStyle) -> (r: Self) {
        FlowchartEdgeBuilder { edge_builder: self.edge_builder.line_style(style), ..self }
    }

    fn left_arrow_shape(self, shape: ArrowShape) -> (r: Result<Self, EdgeError>) {
        match self.edge_builder.left_arrow_shape(shape) {
            Ok(edge_builder) => Ok(FlowchartEdgeBuilder { edge_builder, ..self }),
            Err(e) => Err(e),
        }
    }

    fn right_arrow_shape(self, shape: ArrowShape) -> (r: Result<Self, EdgeError>) {
        match self.edge_builder.right_arrow_shape(shape) {
            Ok(edge_builder) => Ok(FlowchartEdgeBuilder { edge_builder, ..self }),
            Err(e) => Err(e),
        }
    }
}

} // verus!
