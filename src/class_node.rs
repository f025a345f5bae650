//! Nodes of class diagrams: a class with an optional annotation, its
//! attributes and methods, and an optional click event.
use std::rc::Rc;
use vstd::prelude::*;

use crate::arrow::ArrowShape;
use crate::class_member::{ClassAttribute, ClassAttributeView, ClassMethod, ClassMethodView};
use crate::config::{opt_view, same_opt_string};
use crate::errors::{NodeError, StyleClassError};
use crate::navigation::{click_line, click_view, same_click, ClickEvent};
use crate::node::{GenericNode, GenericNodeBuilder, Node, NodeBuilder, NodeBuilderView, NodeView};
use crate::style::{class_lines, push_class_lines, StyleClass, StyleProperty};
use crate::text::{indent, node_ref, push_indent, push_node_ref};
use crate::TabbedDisplay;

verus! {

/// The attribute lines of a class, at indentation `prefix`.
pub open spec fn attribute_lines(prefix: Seq<char>, attrs: Seq<ClassAttributeView>) -> Seq<char>
    decreases attrs.len(),
{
    if attrs.len() == 0 {
        Seq::empty()
    } else {
        attribute_lines(prefix, attrs.drop_last()) + prefix + "    "@ + attrs.last().text() + "\n"@
    }
}

/// The method lines of a class, at indentation `prefix`.
pub open spec fn method_lines(prefix: Seq<char>, methods: Seq<ClassMethodView>) -> Seq<char>
    decreases methods.len(),
{
    if methods.len() == 0 {
        Seq::empty()
    } else {
        method_lines(prefix, methods.drop_last()) + prefix + "    "@ + methods.last().text() + "\n"@
    }
}

/// What a class node holds.
pub struct ClassNodeView {
    pub node: NodeView,
    pub click_event: Option<ClickEvent>,
    pub annotation: Option<Seq<char>>,
    pub attributes: Seq<ClassAttributeView>,
    pub methods: Seq<ClassMethodView>,
}

impl ClassNodeView {
    /// The class block at depth `depth`: the class line, the annotation,
    /// attribute and method lines, and the closing brace.
    pub open spec fn block_text(self, depth: nat) -> Seq<char> {
        indent(depth) + "class "@ + node_ref(self.node.id) + "[\""@ + self.node.label + "\"] {\n"@
            + match self.annotation {
            Some(a) => indent(depth) + "    <<"@ + a + ">>\n"@,
            None => Seq::empty(),
        } + attribute_lines(indent(depth), self.attributes) + method_lines(
            indent(depth),
            self.methods,
        ) + indent(depth) + "}\n"@
    }

    /// The text of the class at depth `depth`: its block, then its click and
    /// `cssClass` lines.
    pub open spec fn text(self, depth: nat) -> Seq<char> {
        self.block_text(depth) + click_line(indent(depth), node_ref(self.node.id), self.click_event)
            + class_lines(indent(depth), "cssClass "@, node_ref(self.node.id), self.node.classes)
    }
}

/// A class of a class diagram.
#[derive(Clone, Debug, PartialEq, Eq, Hash)]
pub struct ClassNode {
    node: GenericNode,
    click_event: Option<ClickEvent>,
    annotation: Option<String>,
    attributes: Vec<ClassAttribute>,
    methods: Vec<ClassMethod>,
}

/// The views of a sequence of attributes.
pub open spec fn attribute_views(attrs: Seq<ClassAttribute>) -> Seq<ClassAttributeView> {
    attrs.map_values(|a: ClassAttribute| a@)
}

/// The views of a sequence of methods.
pub open spec fn method_views(methods: Seq<ClassMethod>) -> Seq<ClassMethodView> {
    methods.map_values(|m: ClassMethod| m@)
}

impl View for ClassNode {
    type V = ClassNodeView;

    closed spec fn view(&self) -> ClassNodeView {
        ClassNodeView {
            node: self.node.node_view(),
            click_event: self.click_event,
            annotation: opt_view(self.annotation),
            attributes: attribute_views(self.attributes@),
            methods: method_views(self.methods@),
        }
    }
}

fn push_attribute_lines(out: &mut String, depth: usize, attrs: &Vec<ClassAttribute>)
    ensures
        final(out)@ == old(out)@ + attribute_lines(indent(depth as nat), attribute_views(attrs@)),
{
    let ghost start = out@;
    let ghost all = attribute_views(attrs@);
    let mut i: usize = 0;
    while i < attrs.len()
        invariant
            i <= attrs.len(),
            all == attribute_views(attrs@),
            out@ == start + attribute_lines(indent(depth as nat), all.take(i as int)),
        decreases attrs.len() - i,
    {
        push_indent(out, depth);
        out.append("    ");
        attrs[i].push_text(out);
        out.append("\n");
        assert(all.take(i + 1).drop_last() =~= all.take(i as int));
        assert(all[i as int] == attrs@[i as int]@);
        i = i + 1;
        assert(out@ =~= start + attribute_lines(indent(depth as nat), all.take(i as int)));
    }
    assert(all.take(i as int) =~= all);
}

fn push_method_lines(out: &mut String, depth: usize, methods: &Vec<ClassMethod>)
    ensures
        final(out)@ == old(out)@ + method_lines(indent(depth as nat), method_views(methods@)),
{
    let ghost start = out@;
    let ghost all = method_views(methods@);
    let mut i: usize = 0;
    while i < methods.len()
        invariant
            i <= methods.len(),
            all == method_views(methods@),
            out@ == start + method_lines(indent(depth as nat), all.take(i as int)),
        decreases methods.len() - i,
    {
        push_indent(out, depth);
        out.append("    ");
        methods[i].push_text(out);
        out.append("\n");
        assert(all.take(i + 1).drop_last() =~= all.take(i as int));
        assert(all[i as int] == methods@[i as int]@);
        i = i + 1;
        assert(out@ =~= start + method_lines(indent(depth as nat), all.take(i as int)));
    }
    assert(all.take(i as int) =~= all);
}

fn same_attributes(a: &Vec<ClassAttribute>, b: &Vec<ClassAttribute>) -> (r: bool)
    ensures
        r == (attribute_views(a@) == attribute_views(b@)),
{
    if a.len() != b.len() {
        assert(attribute_views(a@).len() != attribute_views(b@).len());
        return false;
    }
    let mut i: usize = 0;
    while i < a.len()
        invariant
            i <= a.len(),
            a.len() == b.len(),
            forall|j: int| 0 <= j < i ==> (#[trigger] a@[j])@ == b@[j]@,
        decreases a.len() - i,
    {
        if !a[i].same_as(&b[i]) {
            assert(attribute_views(a@)[i as int] != attribute_views(b@)[i as int]);
            return false;
        }
        i = i + 1;
    }
    assert(attribute_views(a@) =~= attribute_views(b@));
    true
}

fn same_methods(a: &Vec<ClassMethod>, b: &Vec<ClassMethod>) -> (r: bool)
    ensures
        r == (method_views(a@) == method_views(b@)),
{
    if a.len() != b.len() {
        assert(method_views(a@).len() != method_views(b@).len());
        return false;
    }
    let mut i: usize = 0;
    while i < a.len()
        invariant
            i <= a.len(),
            a.len() == b.len(),
            forall|j: int| 0 <= j < i ==> (#[trigger] a@[j])@ == b@[j]@,
        decreases a.len() - i,
    {
        if !a[i].same_as(&b[i]) {
            assert(method_views(a@)[i as int] != method_views(b@)[i as int]);
            return false;
        }
        i = i + 1;
    }
    assert(method_views(a@) =~= method_views(b@));
    true
}

impl ClassNode {
    /// Returns the annotation, if any.
    pub fn annotation(&self) -> (r: Option<&str>)
        ensures
            match r {
                Some(a) => self@.annotation == Some(a@),
                None => self@.annotation is None,
            },
    {
        match &self.annotation {
            Some(a) => Some(a.as_str()),
            None => None,
        }
    }

    /// Returns the attributes, in insertion order.
    pub fn attributes(&self) -> (r: &Vec<ClassAttribute>)
        ensures
            attribute_views(r@) == self@.attributes,
    {
        &self.attributes
    }

    /// Returns the methods, in insertion order.
    pub fn methods(&self) -> (r: &Vec<ClassMethod>)
        ensures
            method_views(r@) == self@.methods,
    {
        &self.methods
    }

    /// Returns the click event, if any.
    pub fn click_event(&self) -> (r: &Option<ClickEvent>)
        ensures
            *r == self@.click_event,
    {
        &self.click_event
    }

    fn push_block(&self, out: &mut String, depth: usize, target: &str)
        requires
            target@ == node_ref(self@.node.id),
        ensures
            final(out)@ == old(out)@ + self@.block_text(depth as nat),
    {
        push_indent(out, depth);
        out.append("class ");
        out.append(target);
        out.append("[\"");
        out.append(self.node.label());
        out.append("\"] {\n");
        let ghost head = out@;
        match &self.annotation {
            Some(a) => {
                push_indent(out, depth);
                out.append("    <<");
                out.append(a.as_str());
                out.append(">>\n");
            },
            None => {},
        }
        assert(out@ =~= head + match self@.annotation {
            Some(a) => indent(depth as nat) + "    <<"@ + a + ">>\n"@,
            None => Seq::empty(),
        });
        push_attribute_lines(out, depth, &self.attributes);
        push_method_lines(out, depth, &self.methods);
        push_indent(out, depth);
        out.append("}\n");
        assert(final(out)@ =~= old(out)@ + self@.block_text(depth as nat));
    }

    /// Returns the text of the class at depth 0.
    pub fn to_string(&self) -> (r: String)
        ensures
            r@ == self.tabbed(0),
    {
        let mut out = String::new();
        self.fmt_tabbed(&mut out, 0);
        assert(out@ =~= self.tabbed(0));
        out
    }
}

impl TabbedDisplay for ClassNode {
    open spec fn tabbed(&self, depth: nat) -> Seq<char> {
        self@.text(depth)
    }

    fn fmt_tabbed(&self, out: &mut String, depth: usize) {
        let mut target = String::new();
        push_node_ref(&mut target, self.node.id());
        assert(target@ =~= node_ref(self@.node.id));
        self.push_block(out, depth, target.as_str());
        let ghost block = out@;
        match &self.click_event {
            Some(e) => {
                push_indent(out, depth);
                out.append("click ");
                out.append(target.as_str());
                out.append(" ");
                e.push_text(out);
                out.append("\n");
            },
            None => {},
        }
        assert(out@ =~= block + click_line(indent(depth as nat), target@, self@.click_event));
        push_class_lines(out, depth, "cssClass ", target.as_str(), self.node.classes());
        assert(final(out)@ =~= old(out)@ + self.tabbed(depth as nat));
    }
}

impl Node for ClassNode {
    open spec fn node_view(&self) -> NodeView {
        self@.node
    }

    /// Class edges end in a triangle, a star, a circle or a normal arrow head.
    open spec fn accepts_shape(shape: ArrowShape) -> bool {
        shape == ArrowShape::Triangle || shape == ArrowShape::Star || shape == ArrowShape::Circle
            || shape == ArrowShape::Normal
    }

    fn id(&self) -> (r: u64) {
        self.node.id()
    }

    fn label(&self) -> (r: &str) {
        self.node.label()
    }

    fn classes(&self) -> (r: &Vec<Rc<StyleClass>>) {
        self.node.classes()
    }

    fn styles(&self) -> (r: &Vec<StyleProperty>) {
        self.node.styles()
    }

    fn is_compatible_arrow_shape(shape: ArrowShape) -> (r: bool) {
        shape == ArrowShape::Triangle || shape == ArrowShape::Star || shape == ArrowShape::Circle
            || shape == ArrowShape::Normal
    }

    /// The same class: the same common fields, click event, annotation,
    /// attributes and methods.
    open spec fn is_same(&self, other: &Self) -> bool {
        self@.node == other@.node && click_view(self@.click_event) == click_view(
            other@.click_event,
        ) && self@.annotation == other@.annotation && self@.attributes == other@.attributes
            && self@.methods == other@.methods
    }

    proof fn lemma_is_same(&self, other: &Self) {
    }

    fn same_node(&self, other: &Self) -> (r: bool) {
        self.node.same_node(&other.node) && same_click(&self.click_event, &other.click_event)
            && same_opt_string(&self.annotation, &other.annotation) && same_attributes(
            &self.attributes,
            &other.attributes,
        ) && same_methods(&self.methods, &other.methods)
    }
}

/// What a class node builder holds.
pub struct ClassNodeBuilderView {
    pub base: NodeBuilderView,
    pub click_event: Option<ClickEvent>,
    pub annotation: Option<Seq<char>>,
    pub attributes: Seq<ClassAttributeView>,
    pub methods: Seq<ClassMethodView>,
}

/// Validating builder of a `ClassNode`.
#[derive(Clone, Debug, PartialEq, Eq, Hash)]
pub struct ClassNodeBuilder {
    builder: GenericNodeBuilder,
    click_event: Option<ClickEvent>,
    annotation: Option<String>,
    attributes: Vec<ClassAttribute>,
    methods: Vec<ClassMethod>,
}

impl View for ClassNodeBuilder {
    type V = ClassNodeBuilderView;

    closed spec fn view(&self) -> ClassNodeBuilderView {
        ClassNodeBuilderView {
            base: self.builder.base(),
            click_event: self.click_event,
            annotation: opt_view(self.annotation),
            attributes: attribute_views(self.attributes@),
            methods: method_views(self.methods@),
        }
    }
}

impl Default for ClassNodeBuilder {
    fn default() -> (r: Self)
        ensures
            r@ == (ClassNodeBuilderView {
                base: NodeBuilderView::empty(),
                click_event: None,
                annotation: None,
                attributes: Seq::empty(),
                methods: Seq::empty(),
            }),
    {
        let r = ClassNodeBuilder {
            builder: GenericNodeBuilder::default(),
            click_event: None,
            annotation: None,
            attributes: Vec::new(),
            methods: Vec::new(),
        };
        assert(r@.attributes =~= Seq::<ClassAttributeView>::empty());
        assert(r@.methods =~= Seq::<ClassMethodView>::empty());
        r
    }
}

impl ClassNodeBuilder {
    /// Sets the click event.
    pub fn click_event(self, click_event: ClickEvent) -> (r: Self)
        ensures
            r@ == (ClassNodeBuilderView { click_event: Some(click_event), ..self@ }),
    {
        ClassNodeBuilder { click_event: Some(click_event), ..self }
    }

    /// Sets the annotation, such as `interface`.
    pub fn annotation(self, annotation: &str) -> (r: Self)
        ensures
            r@ == (ClassNodeBuilderView { annotation: Some(annotation@), ..self@ }),
    {
        ClassNodeBuilder { annotation: Some(annotation.to_owned()), ..self }
    }

    /// Adds an attribute, after those already added.
    pub fn attribute(self, attribute: ClassAttribute) -> (r: Self)
        ensures
            r@ == (ClassNodeBuilderView { attributes: self@.attributes.push(attribute@), ..self@ }),
    {
        let mut attributes = self.attributes;
        attributes.push(attribute);
        proof {
            assert(attribute_views(attributes@) =~= attribute_views(self.attributes@).push(attribute@));
        }
        ClassNodeBuilder { attributes, ..self }
    }

    /// Adds a method, after those already added.
    pub fn method(self, method: ClassMethod) -> (r: Self)
        ensures
            r@ == (ClassNodeBuilderView { methods: self@.methods.push(method@), ..self@ }),
    {
        let mut methods = self.methods;
        methods.push(method);
        proof {
            assert(method_views(methods@) =~= method_views(self.methods@).push(method@));
        }
        ClassNodeBuilder { methods, ..self }
    }
}

impl NodeBuilder for ClassNodeBuilder {
    type Node = ClassNode;

    open spec fn base(&self) -> NodeBuilderView {
        self@.base
    }

    open spec fn extra_error(&self) -> Option<NodeError> {
        None
    }

    open spec fn same_extras(&self, other: &Self) -> bool {
        self@.click_event == other@.click_event && self@.annotation == other@.annotation
            && self@.attributes == other@.attributes && self@.methods == other@.methods
    }

    open spec fn keeps_extras(&self, n: &ClassNode) -> bool {
        n@.click_event == self@.click_event && n@.annotation == self@.annotation
            && n@.attributes == self@.attributes && n@.methods == self@.methods
    }

    closed spec fn spec_with_id(&self, id: u64) -> Self {
        ClassNodeBuilder { builder: self.builder.spec_with_id(id), ..*self }
    }

    closed spec fn spec_build(&self) -> Result<ClassNode, NodeError> {
        match self.builder.spec_build() {
            Ok(node) => Ok(
                ClassNode {
                    node,
                    click_event: self.click_event,
                    annotation: self.annotation,
                    attributes: self.attributes,
                    methods: self.methods,
                },
            ),
            Err(e) => Err(e),
        }
    }

    proof fn lemma_spec_with_id(&self, id: u64) {
        self.builder.lemma_spec_with_id(id);
    }

    proof fn lemma_spec_build(&self) {
        self.builder.lemma_spec_build();
    }

    fn build(self) -> (r: Result<ClassNode, NodeError>) {
        match self.builder.build() {
            Ok(node) => Ok(
                ClassNode {
                    node,
                    click_event: self.click_event,
                    annotation: self.annotation,
                    attributes: self.attributes,
                    methods: self.methods,
                },
            ),
            Err(e) => Err(e),
        }
    }

    fn id(self, id: u64) -> (r: Self) {
        ClassNodeBuilder { builder: self.builder.id(id), ..self }
    }

    fn get_id(&self) -> (r: Option<u64>) {
        self.builder.get_id()
    }

    fn label(self, label: &str) -> (r: Result<Self, NodeError>) {
        match self.builder.label(label) {
            Ok(builder) => Ok(ClassNodeBuilder { builder, ..self }),
            Err(e) => Err(e),
        }
    }

    fn get_label(&self) -> (r: Option<&String>) {
        self.builder.get_label()
    }

    fn style_class(self, style_class: Rc<StyleClass>) -> (r: Result<Self, StyleClassError>) {
        match self.builder.style_class(style_class) {
            Ok(builder) => Ok(ClassNodeBuilder { builder, ..self }),
            Err(e) => Err(e),
        }
    }

    fn style_property(self, property: StyleProperty) -> (r: Result<Self, StyleClassError>) {
        match self.builder.style_property(property) {
            Ok(builder) => Ok(ClassNodeBuilder { builder, ..self }),
            Err(e) => Err(e),
        }
    }

    fn style_properties(&self) -> (r: &Vec<StyleProperty>) {
        self.builder.style_properties()
    }
}

} // verus!
