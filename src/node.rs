//! The node capability, the node-builder capability, and the generic node
//! that concrete diagram nodes are built on.
use std::rc::Rc;
use vstd::prelude::*;

use crate::arrow::ArrowShape;
use crate::errors::{NodeError, StyleClassError};
use crate::style::{
    contains_kind, distinct_kinds, has_kind, lemma_push_distinct, StyleClass, StyleClassView,
    StyleProperty,
};

verus! {

/// The views of a sequence of shared style classes.
pub open spec fn class_views(classes: Seq<Rc<StyleClass>>) -> Seq<StyleClassView> {
    classes.map_values(|c: Rc<StyleClass>| c@)
}

/// Whether `classes` holds a class named `name`.
pub open spec fn has_class_named(classes: Seq<StyleClassView>, name: Seq<char>) -> bool {
    exists|i: int| 0 <= i < classes.len() && (#[trigger] classes[i]).name == name
}

/// Returns whether `classes` holds a class named `name`.
pub fn contains_class_named(classes: &Vec<Rc<StyleClass>>, name: &String) -> (r: bool)
    ensures
        r == has_class_named(class_views(classes@), name@),
{
    let mut i: usize = 0;
    while i < classes.len()
        invariant
            i <= classes.len(),
            forall|j: int| 0 <= j < i ==> (#[trigger] classes@[j])@.name != name@,
        decreases classes.len() - i,
    {
        if classes[i].has_name(name) {
            assert(class_views(classes@)[i as int].name == name@);
            return true;
        }
        i = i + 1;
    }
    assert forall|j: int| 0 <= j < class_views(classes@).len() implies (#[trigger] class_views(
        classes@,
    )[j]).name != name@ by {
        assert(class_views(classes@)[j] == classes@[j]@);
    }
    false
}

/// Returns whether the two sequences of classes have the same views.
pub fn same_classes(a: &Vec<Rc<StyleClass>>, b: &Vec<Rc<StyleClass>>) -> (r: bool)
    ensures
        r == (class_views(a@) == class_views(b@)),
{
    if a.len() != b.len() {
        assert(class_views(a@).len() != class_views(b@).len());
        return false;
    }
    let mut i: usize = 0;
    while i < a.len()
        invariant
            i <= a.len(),
            a.len() == b.len(),
            forall|j: int| 0 <= j < i ==> (#[trigger] a@[j])@ == b@[j]@,
        decreases a.len() - i,
    {
        if !a[i].same_as(&b[i]) {
            assert(class_views(a@)[i as int] != class_views(b@)[i as int]);
            return false;
        }
        i = i + 1;
    }
    assert(class_views(a@) =~= class_views(b@));
    true
}

/// Returns whether the two sequences of properties are equal.
pub fn same_properties(a: &Vec<StyleProperty>, b: &Vec<StyleProperty>) -> (r: bool)
    ensures
        r == (a@ == b@),
{
    if a.len() != b.len() {
        return false;
    }
    let mut i: usize = 0;
    while i < a.len()
        invariant
            i <= a.len(),
            a.len() == b.len(),
            forall|j: int| 0 <= j < i ==> a@[j] == b@[j],
        decreases a.len() - i,
    {
        if a[i] != b[i] {
            return false;
        }
        i = i + 1;
    }
    assert(a@ =~= b@);
    true
}

/// What the node capability exposes: identifier, label, style classes and
/// style properties.
pub struct NodeView {
    pub id: u64,
    pub label: Seq<char>,
    pub classes: Seq<StyleClassView>,
    pub styles: Seq<StyleProperty>,
}

/// A node of a diagram.
pub trait Node: Sized {
    /// What the node exposes; two nodes are the same node when their views
    /// are equal.
    spec fn node_view(&self) -> NodeView;

    /// Whether this node type accepts `shape` as an arrow head of an edge.
    spec fn accepts_shape(shape: ArrowShape) -> bool;

    /// Returns the identifier.
    fn id(&self) -> (r: u64)
        ensures
            r == self.node_view().id,
    ;

    /// Returns the label.
    fn label(&self) -> (r: &str)
        ensures
            r@ == self.node_view().label,
    ;

    /// Returns the style classes, in insertion order.
    fn classes(&self) -> (r: &Vec<Rc<StyleClass>>)
        ensures
            class_views(r@) == self.node_view().classes,
    ;

    /// Returns the style properties, in insertion order.
    fn styles(&self) -> (r: &Vec<StyleProperty>)
        ensures
            r@ == self.node_view().styles,
    ;

    /// Returns whether this node type accepts `shape` as an arrow head.
    fn is_compatible_arrow_shape(shape: ArrowShape) -> (r: bool)
        ensures
            r == Self::accepts_shape(shape),
    ;

    /// Whether `other` is the same node as `self`: equal in every field.
    spec fn is_same(&self, other: &Self) -> bool;

    /// Every node is the same node as itself, and the same node exposes the
    /// same view.
    proof fn lemma_is_same(&self, other: &Self)
        ensures
            self.is_same(self),
            self.is_same(other) ==> self.node_view() == other.node_view(),
    ;

    /// Returns whether `other` is the same node as `self`.
    fn same_node(&self, other: &Self) -> (r: bool)
        ensures
            r == self.is_same(other),
    ;
}

/// What a node builder holds of the fields common to every node.
pub struct NodeBuilderView {
    pub id: Option<u64>,
    pub label: Option<Seq<char>>,
    pub classes: Seq<StyleClassView>,
    pub styles: Seq<StyleProperty>,
}

/// Whether no two classes of `classes` share a name.
pub open spec fn distinct_names(classes: Seq<StyleClassView>) -> bool {
    forall|i: int, j: int|
        0 <= i < j < classes.len() ==> (#[trigger] classes[i]).name != (#[trigger] classes[j]).name
}

/// Attaching a class whose name is not attached yet keeps the names distinct.
proof fn lemma_push_distinct_name(classes: Seq<StyleClassView>, c: StyleClassView)
    requires
        distinct_names(classes),
        !has_class_named(classes, c.name),
    ensures
        distinct_names(classes.push(c)),
{
    let all = classes.push(c);
    assert forall|i: int, j: int| 0 <= i < j < all.len() implies (#[trigger] all[i]).name != (
    #[trigger] all[j]).name by {
        assert(all[i] == classes[i]);
        if j < classes.len() {
            assert(all[j] == classes[j]);
        } else {
            assert(all[j] == c);
        }
    }
}

impl NodeBuilderView {
    /// What a node builder keeps: a label, if set, is non-empty, the style
    /// classes have distinct names, and the style properties distinct kinds.
    pub open spec fn wf(self) -> bool {
        &&& self.label matches Some(l) ==> l.len() > 0
        &&& distinct_names(self.classes)
        &&& distinct_kinds(self.styles)
    }

    /// A builder with nothing set.
    pub open spec fn empty() -> NodeBuilderView {
        NodeBuilderView { id: None, label: None, classes: Seq::empty(), styles: Seq::empty() }
    }

    /// The error of building from the common fields alone, if any.
    pub open spec fn build_error(self) -> Option<NodeError> {
        if self.id is None {
            Some(NodeError::MissingId)
        } else if self.label is None {
            Some(NodeError::MissingLabel)
        } else {
            None
        }
    }

    /// The node view that building from these fields gives.
    pub open spec fn built(self) -> NodeView {
        NodeView {
            id: self.id.unwrap(),
            label: self.label.unwrap(),
            classes: self.classes,
            styles: self.styles,
        }
    }
}

/// The error of building: that of the kind-specific checks, made first, or
/// else that of the common fields.
pub open spec fn combined_error(extra: Option<NodeError>, base: NodeBuilderView) -> Option<
    NodeError,
> {
    match extra {
        Some(e) => Some(e),
        None => base.build_error(),
    }
}

/// Validating builder of a node.
pub trait NodeBuilder: Sized {
    /// The node that this builder makes.
    type Node: Node;

    /// The fields common to every node, as set so far.
    spec fn base(&self) -> NodeBuilderView;

    /// The error of the checks that this kind of node makes before the
    /// common fields, if any.
    spec fn extra_error(&self) -> Option<NodeError>;

    /// Whether `n` keeps what this builder holds beyond the common fields.
    spec fn keeps_extras(&self, n: &Self::Node) -> bool;

    /// Whether `other` holds what this builder holds beyond the common
    /// fields.
    spec fn same_extras(&self, other: &Self) -> bool;

    /// The builder with its identifier set.
    spec fn spec_with_id(&self, id: u64) -> Self;

    /// The outcome of building.
    spec fn spec_build(&self) -> Result<Self::Node, NodeError>;

    /// Setting the identifier changes only the identifier of the common
    /// fields.
    proof fn lemma_spec_with_id(&self, id: u64)
        ensures
            self.spec_with_id(id).base() == (NodeBuilderView { id: Some(id), ..self.base() }),
            self.spec_with_id(id).extra_error() == self.extra_error(),
    ;

    /// Building succeeds exactly when there is no build error, and gives the
    /// node of the common fields.
    proof fn lemma_spec_build(&self)
        ensures
            self.spec_build() is Ok <==> combined_error(self.extra_error(), self.base()) is None,
            self.spec_build() matches Ok(n) ==> n.node_view() == self.base().built(),
    ;

    /// Builds the node.
    fn build(self) -> (r: Result<Self::Node, NodeError>)
        ensures
            r == self.spec_build(),
            r is Ok <==> combined_error(self.extra_error(), self.base()) is None,
            r matches Err(e) ==> combined_error(self.extra_error(), self.base()) == Some(e),
            r matches Ok(n) ==> n.node_view() == self.base().built() && self.keeps_extras(&n),
    ;

    /// Sets the identifier.
    fn id(self, id: u64) -> (r: Self)
        ensures
            r == self.spec_with_id(id),
            r.base() == (NodeBuilderView { id: Some(id), ..self.base() }),
            r.extra_error() == self.extra_error(),
            r.same_extras(&self),
            self.base().wf() ==> r.base().wf(),
    ;

    /// Returns the identifier, if set.
    fn get_id(&self) -> (r: Option<u64>)
        ensures
            r == self.base().id,
    ;

    /// Sets the label, replacing any earlier one.
    ///
    /// Fails with `EmptyLabel` when `label` is empty.
    fn label(self, label: &str) -> (r: Result<Self, NodeError>)
        ensures
            self.base().wf() ==> (r matches Ok(b) ==> b.base().wf()),
            label@.len() == 0 ==> r == Err::<Self, NodeError>(NodeError::EmptyLabel),
            label@.len() > 0 ==> (r matches Ok(b) && b.base() == (NodeBuilderView {
                label: Some(label@),
                ..self.base()
            }) && b.extra_error() == self.extra_error() && b.same_extras(&self)),
    ;

    /// Returns the label, if set.
    fn get_label(&self) -> (r: Option<&String>)
        ensures
            match r {
                Some(l) => self.base().label == Some(l@),
                None => self.base().label is None,
            },
    ;

    /// Attaches a style class, after those already attached.
    ///
    /// Fails with `DuplicateClass` when a class of the same name is attached.
    fn style_class(self, style_class: Rc<StyleClass>) -> (r: Result<Self, StyleClassError>)
        ensures
            self.base().wf() ==> (r matches Ok(b) ==> b.base().wf()),
            has_class_named(self.base().classes, style_class@.name) ==> (r matches Err(
                StyleClassError::DuplicateClass(n),
            ) && n@ == style_class@.name),
            !has_class_named(self.base().classes, style_class@.name) ==> (r matches Ok(b)
                && b.base() == (NodeBuilderView {
                classes: self.base().classes.push(style_class@),
                ..self.base()
            }) && b.extra_error() == self.extra_error() && b.same_extras(&self)),
    ;

    /// Adds a style property, after those already added.
    ///
    /// Fails with `DuplicateProperty` when a property of the same kind is
    /// there.
    fn style_property(self, property: StyleProperty) -> (r: Result<Self, StyleClassError>)
        ensures
            self.base().wf() ==> (r matches Ok(b) ==> b.base().wf()),
            has_kind(self.base().styles, property) ==> r == Err::<Self, StyleClassError>(
                StyleClassError::DuplicateProperty(property),
            ),
            !has_kind(self.base().styles, property) ==> (r matches Ok(b) && b.base() == (
            NodeBuilderView { styles: self.base().styles.push(property), ..self.base() })
                && b.extra_error() == self.extra_error() && b.same_extras(&self)),
    ;

    /// Returns the style properties added so far.
    fn style_properties(&self) -> (r: &Vec<StyleProperty>)
        ensures
            r@ == self.base().styles,
    ;
}

/// The fields common to every node.
#[derive(Clone, Debug, PartialEq, Eq, Hash)]
pub struct GenericNode {
    id: u64,
    label: String,
    classes: Vec<Rc<StyleClass>>,
    style: Vec<StyleProperty>,
}

impl View for GenericNode {
    type V = NodeView;

    closed spec fn view(&self) -> NodeView {
        NodeView {
            id: self.id,
            label: self.label@,
            classes: class_views(self.classes@),
            styles: self.style@,
        }
    }
}

impl Node for GenericNode {
    open spec fn node_view(&self) -> NodeView {
        self@
    }

    /// The generic node accepts every shape.
    open spec fn accepts_shape(shape: ArrowShape) -> bool {
        true
    }

    fn id(&self) -> (r: u64) {
        self.id
    }

    fn label(&self) -> (r: &str) {
        self.label.as_str()
    }

    fn classes(&self) -> (r: &Vec<Rc<StyleClass>>) {
        &self.classes
    }

    fn styles(&self) -> (r: &Vec<StyleProperty>) {
        &self.style
    }

    fn is_compatible_arrow_shape(shape: ArrowShape) -> (r: bool) {
        true
    }

    open spec fn is_same(&self, other: &Self) -> bool {
        self@ == other@
    }

    proof fn lemma_is_same(&self, other: &Self) {
    }

    fn same_node(&self, other: &Self) -> (r: bool) {
        self.id == other.id && self.label == other.label && same_classes(
            &self.classes,
            &other.classes,
        ) && same_properties(&self.style, &other.style)
    }
}

/// Validating builder of a `GenericNode`.
#[derive(Clone, Debug, PartialEq, Eq, Hash)]
pub struct GenericNodeBuilder {
    id: Option<u64>,
    label: Option<String>,
    classes: Vec<Rc<StyleClass>>,
    style: Vec<StyleProperty>,
}

impl View for GenericNodeBuilder {
    type V = NodeBuilderView;

    closed spec fn view(&self) -> NodeBuilderView {
        NodeBuilderView {
            id: self.id,
            label: match self.label {
                Some(l) => Some(l@),
                None => None,
            },
            classes: class_views(self.classes@),
            styles: self.style@,
        }
    }
}

impl Default for GenericNodeBuilder {
    fn default() -> (r: Self)
        ensures
            r@ == NodeBuilderView::empty(),
            r@.wf(),
    {
        let r = GenericNodeBuilder {
            id: None,
            label: None,
            classes: Vec::new(),
            style: Vec::new(),
        };
        assert(r@.classes =~= Seq::<StyleClassView>::empty());
        assert(r@.styles =~= Seq::<StyleProperty>::empty());
        r
    }
}

impl NodeBuilder for GenericNodeBuilder {
    type Node = GenericNode;

    open spec fn base(&self) -> NodeBuilderView {
        self@
    }

    open spec fn extra_error(&self) -> Option<NodeError> {
        None
    }

    open spec fn keeps_extras(&self, n: &GenericNode) -> bool {
        true
    }

    open spec fn same_extras(&self, other: &Self) -> bool {
        true
    }

    closed spec fn spec_with_id(&self, id: u64) -> Self {
        GenericNodeBuilder { id: Some(id), ..*self }
    }

    closed spec fn spec_build(&self) -> Result<GenericNode, NodeError> {
        match self.id {
            None => Err(NodeError::MissingId),
            Some(id) => match self.label {
                None => Err(NodeError::MissingLabel),
                Some(label) => Ok(
                    GenericNode { id, label, classes: self.classes, style: self.style },
                ),
            },
        }
    }

    proof fn lemma_spec_with_id(&self, id: u64) {
    }

    proof fn lemma_spec_build(&self) {
    }

    fn build(self) -> (r: Result<GenericNode, NodeError>) {
        match self.id {
            None => Err(NodeError::MissingId),
            Some(id) => match self.label {
                None => Err(NodeError::MissingLabel),
                Some(label) => Ok(
                    GenericNode { id, label, classes: self.classes, style: self.style },
                ),
            },
        }
    }

    fn id(self, id: u64) -> (r: Self) {
        GenericNodeBuilder { id: Some(id), ..self }
    }

    fn get_id(&self) -> (r: Option<u64>) {
        self.id
    }

    fn label(self, label: &str) -> (r: Result<Self, NodeError>) {
        if label.is_empty() {
            return Err(NodeError::EmptyLabel);
        }
        Ok(GenericNodeBuilder { label: Some(label.to_owned()), ..self })
    }

    fn get_label(&self) -> (r: Option<&String>) {
        match &self.label {
            Some(l) => Some(l),
            None => None,
        }
    }

    fn style_class(self, style_class: Rc<StyleClass>) -> (r: Result<Self, StyleClassError>) {
        let name = style_class.name().to_owned();
        if contains_class_named(&self.classes, &name) {
            return Err(StyleClassError::DuplicateClass(name));
        }
        let mut classes = self.classes;
        classes.push(style_class);
        proof {
            assert(class_views(classes@) =~= class_views(self.classes@).push(style_class@));
            if self@.wf() {
                lemma_push_distinct_name(class_views(self.classes@), style_class@);
            }
        }
        Ok(GenericNodeBuilder { classes, ..self })
    }

    fn style_property(self, property: StyleProperty) -> (r: Result<Self, StyleClassError>) {
        if contains_kind(&self.style, property) {
            return Err(StyleClassError::DuplicateProperty(property));
        }
        proof {
            if self@.wf() {
                lemma_push_distinct(self.style@, property);
            }
        }
        let mut style = self.style;
        style.push(property);
        Ok(GenericNodeBuilder { style, ..self })
    }

    fn style_properties(&self) -> (r: &Vec<StyleProperty>) {
        &self.style
    }
}

} // verus!
