//! Entity-relationship diagrams: entities with typed attributes, and
//! relationships whose ends carry cardinalities.
use std::rc::Rc;
use vstd::prelude::*;

use crate::arrow::{left_glyph, push_left_glyph, push_right_glyph, right_glyph, ArrowShape, LineStyle};
use crate::config::{GenericConfiguration, GenericConfigurationBuilder};
use crate::diagram::{standard_text, GenericDiagram, GenericDiagramBuilder};
use crate::edge::{Edge, EdgeBuilder, EdgeBuilderView, GenericEdge, GenericEdgeBuilder};
use crate::errors::{NodeError, StyleClassError};
use crate::node::{GenericNode, GenericNodeBuilder, Node, NodeBuilder, NodeBuilderView, NodeView};
use crate::style::{class_lines, push_class_lines, StyleClass, StyleProperty};
use crate::text::{indent, node_ref, push_indent, push_node_ref};
use crate::TabbedDisplay;

verus! {

/// What an attribute of an entity holds.
pub struct EntityRelationshipAttributeView {
    pub name: Seq<char>,
    pub attribute_type: Seq<char>,
}

impl EntityRelationshipAttributeView {
    /// The attribute as text: `<name> <type>`.
    pub open spec fn text(self) -> Seq<char> {
        self.name + " "@ + self.attribute_type
    }
}

/// A typed attribute of an entity.
#[derive(Clone, Debug, PartialEq, Eq, Hash)]
pub struct EntityRelationshipAttribute {
    name: String,
    attribute_type: String,
}

impl View for EntityRelationshipAttribute {
    type V = EntityRelationshipAttributeView;

    closed spec fn view(&self) -> EntityRelationshipAttributeView {
        EntityRelationshipAttributeView { name: self.name@, attribute_type: self.attribute_type@ }
    }
}

impl EntityRelationshipAttribute {
    /// Creates an attribute of the given type and name.
    pub fn new(attribute_type: &str, name: &str) -> (r: Self)
        ensures
            r@ == (EntityRelationshipAttributeView { name: name@, attribute_type: attribute_type@ }),
    {
        EntityRelationshipAttribute {
            name: name.to_owned(),
            attribute_type: attribute_type.to_owned(),
        }
    }

    /// Returns the name.
    pub fn name(&self) -> (r: &str)
        ensures
            r@ == self@.name,
    {
        self.name.as_str()
    }

    /// Returns the type.
    pub fn attribute_type(&self) -> (r: &str)
        ensures
            r@ == self@.attribute_type,
    {
        self.attribute_type.as_str()
    }

    /// Returns whether `other` is the same attribute.
    pub fn same_as(&self, other: &EntityRelationshipAttribute) -> (r: bool)
        ensures
            r == (self@ == other@),
    {
        self.name == other.name && self.attribute_type == other.attribute_type
    }

    /// Appends the attribute as text.
    pub fn push_text(&self, out: &mut String)
        ensures
            final(out)@ == old(out)@ + self@.text(),
    {
        out.append(self.name.as_str());
        out.append(" ");
        out.append(self.attribute_type.as_str());
        assert(final(out)@ =~= old(out)@ + self@.text());
    }

    /// Returns the attribute as text.
    pub fn to_string(&self) -> (r: String)
        ensures
            r@ == self@.text(),
    {
        let mut out = String::new();
        self.push_text(&mut out);
        assert(out@ =~= self@.text());
        out
    }
}

/// The views of a sequence of attributes.
pub open spec fn er_attribute_views(attrs: Seq<EntityRelationshipAttribute>) -> Seq<
    EntityRelationshipAttributeView,
> {
    attrs.map_values(|a: EntityRelationshipAttribute| a@)
}

/// The attribute lines of an entity, at indentation `prefix`.
pub open spec fn er_attribute_lines(
    prefix: Seq<char>,
    attrs: Seq<EntityRelationshipAttributeView>,
) -> Seq<char>
    decreases attrs.len(),
{
    if attrs.len() == 0 {
        Seq::empty()
    } else {
        er_attribute_lines(prefix, attrs.drop_last()) + prefix + "    "@ + attrs.last().text()
            + "\n"@
    }
}

/// What an entity holds.
pub struct ERNodeView {
    pub node: NodeView,
    pub attributes: Seq<EntityRelationshipAttributeView>,
}

impl ERNodeView {
    /// The text of the entity at depth `depth`: its line, its attribute block
    /// when it has attributes, then its class lines.
    pub open spec fn text(self, depth: nat) -> Seq<char> {
        indent(depth) + node_ref(self.node.id) + "[\""@ + self.node.label + "\"]"@ + (if self.attributes.len()
            == 0 {
            "\n"@
        } else {
            " {\n"@ + er_attribute_lines(indent(depth), self.attributes) + indent(depth) + "}\n"@
        }) + class_lines(indent(depth), "class "@, node_ref(self.node.id), self.node.classes)
    }
}

/// An entity of an entity-relationship diagram.
#[derive(Clone, Debug, PartialEq, Eq, Hash)]
pub struct ERNode {
    node: GenericNode,
    attributes: Vec<EntityRelationshipAttribute>,
}

impl View for ERNode {
    type V = ERNodeView;

    closed spec fn view(&self) -> ERNodeView {
        ERNodeView { node: self.node.node_view(), attributes: er_attribute_views(self.attributes@) }
    }
}

impl ERNode {
    /// Returns the attributes, in insertion order.
    pub fn attributes(&self) -> (r: &Vec<EntityRelationshipAttribute>)
        ensures
            er_attribute_views(r@) == self@.attributes,
    {
        &self.attributes
    }

    fn push_attribute_block(&self, out: &mut String, depth: usize)
        ensures
            final(out)@ == old(out)@ + (if self@.attributes.len() == 0 {
                "\n"@
            } else {
                " {\n"@ + er_attribute_lines(indent(depth as nat), self@.attributes) + indent(
                    depth as nat,
                ) + "}\n"@
            }),
    {
        if self.attributes.len() == 0 {
            out.append("\n");
            return;
        }
        out.append(" {\n");
        let ghost start = out@;
        let ghost all = er_attribute_views(self.attributes@);
        let mut i: usize = 0;
        while i < self.attributes.len()
            invariant
                i <= self.attributes.len(),
                all == er_attribute_views(self.attributes@),
                out@ == start + er_attribute_lines(indent(depth as nat), all.take(i as int)),
            decreases self.attributes.len() - i,
        {
            push_indent(out, depth);
            out.append("    ");
            self.attributes[i].push_text(out);
            out.append("\n");
            assert(all.take(i + 1).drop_last() =~= all.take(i as int));
            assert(all[i as int] == self.attributes@[i as int]@);
            i = i + 1;
            assert(out@ =~= start + er_attribute_lines(indent(depth as nat), all.take(i as int)));
        }
        assert(all.take(i as int) =~= all);
        push_indent(out, depth);
        out.append("}\n");
        assert(final(out)@ =~= old(out)@ + " {\n"@ + er_attribute_lines(
            indent(depth as nat),
            self@.attributes,
        ) + indent(depth as nat) + "}\n"@);
    }

    /// Returns the text of the entity at depth 0.
    pub fn to_string(&self) -> (r: String)
        ensures
            r@ == self.tabbed(0),
    {
        let mut out = String::new();
        self.fmt_tabbed(&mut out, 0);
        assert(out@ =~= self.tabbed(0));
        out
    }
}

impl TabbedDisplay for ERNode {
    open spec fn tabbed(&self, depth: nat) -> Seq<char> {
        self@.text(depth)
    }

    fn fmt_tabbed(&self, out: &mut String, depth: usize) {
        let mut target = String::new();
        push_node_ref(&mut target, self.node.id());
        assert(target@ =~= node_ref(self@.node.id));
        push_indent(out, depth);
        out.append(target.as_str());
        out.append("[\"");
        out.append(self.node.label());
        out.append("\"]");
        self.push_attribute_block(out, depth);
        push_class_lines(out, depth, "class ", target.as_str(), self.node.classes());
        assert(final(out)@ =~= old(out)@ + self.tabbed(depth as nat));
    }
}

impl Node for ERNode {
    open spec fn node_view(&self) -> NodeView {
        self@.node
    }

    /// Relationships end in one of the four cardinalities.
    open spec fn accepts_shape(shape: ArrowShape) -> bool {
        shape == ArrowShape::OneOrMore || shape == ArrowShape::ExactlyOne || shape
            == ArrowShape::ZeroOrOne || shape == ArrowShape::ZeroOrMore
    }

    fn id(&self) -> (r: u64) {
        self.node.id()
    }

    fn label(&self) -> (r: &str) {
        self.node.label()
    }

    fn classes(&self) -> (r: &Vec<Rc<StyleClass>>) {
        self.node.classes()
    }

    fn styles(&self) -> (r: &Vec<StyleProperty>) {
        self.node.styles()
    }

    fn is_compatible_arrow_shape(shape: ArrowShape) -> (r: bool) {
        shape == ArrowShape::OneOrMore || shape == ArrowShape::ExactlyOne || shape
            == ArrowShape::ZeroOrOne || shape == ArrowShape::ZeroOrMore
    }

    /// The same entity: the same common fields and attributes.
    open spec fn is_same(&self, other: &Self) -> bool {
        self@ == other@
    }

    proof fn lemma_is_same(&self, other: &Self) {
    }

    fn same_node(&self, other: &Self) -> (r: bool) {
        if !self.node.same_node(&other.node) || self.attributes.len() != other.attributes.len() {
            assert(self@.attributes.len() == self.attributes@.len());
            return false;
        }
        let mut i: usize = 0;
        while i < self.attributes.len()
            invariant
                i <= self.attributes.len(),
                self.attributes.len() == other.attributes.len(),
                forall|j: int| 0 <= j < i ==> (#[trigger] self.attributes@[j])@ == other.attributes@[j]@,
            decreases self.attributes.len() - i,
        {
            if !self.attributes[i].same_as(&other.attributes[i]) {
                assert(er_attribute_views(self.attributes@)[i as int] != er_attribute_views(
                    other.attributes@,
                )[i as int]);
                return false;
            }
            i = i + 1;
        }
        assert(er_attribute_views(self.attributes@) =~= er_attribute_views(other.attributes@));
        true
    }
}

/// What an entity builder holds.
pub struct ERNodeBuilderView {
    pub base: NodeBuilderView,
    pub attributes: Seq<EntityRelationshipAttributeView>,
}

/// Validating builder of an `ERNode`.
#[derive(Clone, Debug, PartialEq, Eq, Hash)]
pub struct ERNodeBuilder {
    builder: GenericNodeBuilder,
    class_attributes: Vec<EntityRelationshipAttribute>,
}

impl View for ERNodeBuilder {
    type V = ERNodeBuilderView;

    closed spec fn view(&self) -> ERNodeBuilderView {
        ERNodeBuilderView {
            base: self.builder.base(),
            attributes: er_attribute_views(self.class_attributes@),
        }
    }
}

impl Default for ERNodeBuilder {
    fn default() -> (r: Self)
        ensures
            r@ == (ERNodeBuilderView { base: NodeBuilderView::empty(), attributes: Seq::empty() }),
    {
        let r = ERNodeBuilder { builder: GenericNodeBuilder::default(), class_attributes: Vec::new() };
        assert(r@.attributes =~= Seq::<EntityRelationshipAttributeView>::empty());
        r
    }
}

impl ERNodeBuilder {
    /// Adds an attribute of the given type and name, after those already
    /// added.
    pub fn attribute(self, attribute_type: &str, name: &str) -> (r: Self)
        ensures
            r@ == (ERNodeBuilderView {
                attributes: self@.attributes.push(
                    EntityRelationshipAttributeView { name: name@, attribute_type: attribute_type@ },
                ),
                ..self@
            }),
    {
        let attribute = EntityRelationshipAttribute::new(attribute_type, name);
        let mut class_attributes = self.class_attributes;
        class_attributes.push(attribute);
        proof {
            assert(er_attribute_views(class_attributes@) =~= er_attribute_views(
                self.class_attributes@,
            ).push(attribute@));
        }
        ERNodeBuilder { class_attributes, ..self }
    }
}

impl NodeBuilder for ERNodeBuilder {
    type Node = ERNode;

    open spec fn base(&self) -> NodeBuilderView {
        self@.base
    }

    open spec fn extra_error(&self) -> Option<NodeError> {
        None
    }

    open spec fn same_extras(&self, other: &Self) -> bool {
        self@.attributes == other@.attributes
    }

    open spec fn keeps_extras(&self, n: &ERNode) -> bool {
        n@.attributes == self@.attributes
    }

    closed spec fn spec_with_id(&self, id: u64) -> Self {
        ERNodeBuilder { builder: self.builder.spec_with_id(id), ..*self }
    }

    closed spec fn spec_build(&self) -> Result<ERNode, NodeError> {
        match self.builder.spec_build() {
            Ok(node) => Ok(ERNode { node, attributes: self.class_attributes }),
            Err(e) => Err(e),
        }
    }

    proof fn lemma_spec_with_id(&self, id: u64) {
        self.builder.lemma_spec_with_id(id);
    }

    proof fn lemma_spec_build(&self) {
        self.builder.lemma_spec_build();
    }

    fn build(self) -> (r: Result<ERNode, NodeError>) {
        match self.builder.build() {
            Ok(node) => Ok(ERNode { node, attributes: self.class_attributes }),
            Err(e) => Err(e),
        }
    }

    fn id(self, id: u64) -> (r: Self) {
        ERNodeBuilder { builder: self.builder.id(id), ..self }
    }

    fn get_id(&self) -> (r: Option<u64>) {
        self.builder.get_id()
    }

    fn label(self, label: &str) -> (r: Result<Self, NodeError>) {
        match self.builder.label(label) {
            Ok(builder) => Ok(ERNodeBuilder { builder, ..self }),
            Err(e) => Err(e),
        }
    }

    fn get_label(&self) -> (r: Option<&String>) {
        self.builder.get_label()
    }

    fn style_class(self, style_class: Rc<StyleClass>) -> (r: Result<Self, StyleClassError>) {
        match self.builder.style_class(style_class) {
            Ok(builder) => Ok(ERNodeBuilder { builder, ..self }),
            Err(e) => Err(e),
        }
    }

    fn style_property(self, property: StyleProperty) -> (r: Result<Self, StyleClassError>) {
        match self.builder.style_property(property) {
            Ok(builder) => Ok(ERNodeBuilder { builder, ..self }),
            Err(e) => Err(e),
        }
    }

    fn style_properties(&self) -> (r: &Vec<StyleProperty>) {
        self.builder.style_properties()
    }
}

/// A relationship between two entities.
pub type EREdge = GenericEdge<ERNode>;

/// Validating builder of a relationship.
pub type EREdgeBuilder = GenericEdgeBuilder<ERNode>;

/// The builder of a solid relationship from `source` to `destination` with
/// `shape` at both ends.
pub open spec fn symmetric_relationship(source: ERNode, destination: ERNode, shape: ArrowShape) -> EdgeBuilderView<ERNode> {
    EdgeBuilderView {
        label: None,
        source: Some(source),
        destination: Some(destination),
        line_style: LineStyle::Solid,
        left_arrow_shape: Some(shape),
        right_arrow_shape: Some(shape),
    }
}

fn symmetric(source: Rc<ERNode>, destination: Rc<ERNode>, shape: ArrowShape) -> (r: EREdgeBuilder)
    requires
        ERNode::accepts_shape(shape),
    ensures
        r.base() == symmetric_relationship(*source, *destination, shape),
{
    let ghost s = source;
    let ghost d = destination;
    let b = match EREdgeBuilder::default().source(source) {
        Ok(b) => b,
        Err(_) => EREdgeBuilder::default(),
    };
    let b = match b.destination(destination) {
        Ok(b) => b,
        Err(_) => EREdgeBuilder::default(),
    };
    let b = match b.left_arrow_shape(shape) {
        Ok(b) => b,
        Err(_) => EREdgeBuilder::default(),
    };
    let b = match b.right_arrow_shape(shape) {
        Ok(b) => b,
        Err(_) => EREdgeBuilder::default(),
    };
    let r = b.line_style(LineStyle::Solid);
    assert(r.base() == symmetric_relationship(*s, *d, shape));
    r
}

impl GenericEdgeBuilder<ERNode> {
    /// A solid relationship with zero or one at both ends.
    pub fn zero_or_one(source: Rc<ERNode>, destination: Rc<ERNode>) -> (r: Self)
        ensures
            r.base() == symmetric_relationship(*source, *destination, ArrowShape::ZeroOrOne),
    {
        symmetric(source, destination, ArrowShape::ZeroOrOne)
    }

    /// A solid relationship with exactly one at both ends.
    pub fn one_to_one(source: Rc<ERNode>, destination: Rc<ERNode>) -> (r: Self)
        ensures
            r.base() == symmetric_relationship(*source, *destination, ArrowShape::ExactlyOne),
    {
        symmetric(source, destination, ArrowShape::ExactlyOne)
    }

    /// A solid relationship with zero or more at both ends.
    pub fn zero_or_more(source: Rc<ERNode>, destination: Rc<ERNode>) -> (r: Self)
        ensures
            r.base() == symmetric_relationship(*source, *destination, ArrowShape::ZeroOrMore),
    {
        symmetric(source, destination, ArrowShape::ZeroOrMore)
    }

    /// A solid relationship with one or more at both ends.
    pub fn one_or_more(source: Rc<ERNode>, destination: Rc<ERNode>) -> (r: Self)
        ensures
            r.base() == symmetric_relationship(*source, *destination, ArrowShape::OneOrMore),
    {
        symmetric(source, destination, ArrowShape::OneOrMore)
    }
}

/// The line of a relationship at depth `depth`, from node `source` to node
/// `destination`, with its label quoted (empty when there is none).
pub open spec fn relationship_text(
    edge: crate::edge::EdgeView,
    source: u64,
    destination: u64,
    depth: nat,
) -> Seq<char> {
    indent(depth) + node_ref(source) + " "@ + left_glyph(edge.left_arrow_shape)
        + edge.line_style.segment_text() + right_glyph(edge.right_arrow_shape) + " "@ + node_ref(
        destination,
    ) + " : \""@ + match edge.label {
        Some(l) => l,
        None => Seq::empty(),
    } + "\"\n"@
}

impl TabbedDisplay for GenericEdge<ERNode> {
    open spec fn tabbed(&self, depth: nat) -> Seq<char> {
        relationship_text(
            self.edge_view(),
            self.spec_source().node_view().id,
            self.spec_destination().node_view().id,
            depth,
        )
    }

    fn fmt_tabbed(&self, out: &mut String, depth: usize) {
        push_indent(out, depth);
        push_node_ref(out, self.source().id());
        out.append(" ");
        push_left_glyph(out, self.left_arrow_shape());
        out.append(self.line_style().segment());
        push_right_glyph(out, self.right_arrow_shape());
        out.append(" ");
        push_node_ref(out, self.destination().id());
        out.append(" : \"");
        match self.label() {
            Some(l) => out.append(l),
            None => {},
        }
        out.append("\"\n");
        assert(final(out)@ =~= old(out)@ + self.tabbed(depth as nat));
    }
}

impl GenericEdge<ERNode> {
    /// Returns the line of the relationship at depth 0.
    pub fn to_string(&self) -> (r: String)
        ensures
            r@ == self.tabbed(0),
    {
        let mut out = String::new();
        self.fmt_tabbed(&mut out, 0);
        assert(out@ =~= self.tabbed(0));
        out
    }
}

/// The configuration of an entity-relationship diagram.
pub type ERDiagramConfiguration = GenericConfiguration;

/// Validating builder of the configuration of an entity-relationship
/// diagram.
pub type ERDiagramConfigurationBuilder = GenericConfigurationBuilder;

/// An entity-relationship diagram.
pub type ERDiagram = GenericDiagram<ERNode, EREdge, GenericConfiguration>;

/// Builder of an entity-relationship diagram.
pub type ERDiagramBuilder = GenericDiagramBuilder<ERNode, EREdge, GenericConfiguration>;

impl TabbedDisplay for GenericDiagram<ERNode, GenericEdge<ERNode>, GenericConfiguration> {
    /// The `erDiagram` keyword, then the common layout.
    open spec fn tabbed(&self, depth: nat) -> Seq<char> {
        standard_text(self@, "erDiagram"@, depth)
    }

    fn fmt_tabbed(&self, out: &mut String, depth: usize) {
        self.push_standard(out, "erDiagram", depth);
    }
}

impl GenericDiagram<ERNode, GenericEdge<ERNode>, GenericConfiguration> {
    /// Returns the text of the entity-relationship diagram.
    pub fn to_string(&self) -> (r: String)
        ensures
            r@ == self.tabbed(0),
    {
        let mut out = String::new();
        self.fmt_tabbed(&mut out, 0);
        assert(out@ =~= self.tabbed(0));
        out
    }
}

} // verus!
