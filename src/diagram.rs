//! The generic diagram and its builder: collections of style classes, nodes
//! and edges with one configuration, kept consistent as they are added.
use std::rc::Rc;
use vstd::prelude::*;

use crate::config::{Configuration, ConfigurationBuilder};
use crate::edge::{combined_edge_error, Edge, EdgeBuilder};
use crate::errors::{EdgeError, Error, NodeError, StyleClassError};
use crate::node::{
    class_views, combined_error, contains_class_named, has_class_named, Node, NodeBuilder,
    NodeBuilderView,
};
use crate::style::{class_def_text, StyleClass, StyleClassBuilder, StyleClassView};
use crate::text::{child_depth, child_of, indent, push_indent};
use crate::TabbedDisplay;

verus! {

/// The nodes behind a sequence of shared nodes.
pub open spec fn node_seq<N>(nodes: Seq<Rc<N>>) -> Seq<N> {
    nodes.map_values(|n: Rc<N>| *n)
}

/// Whether `nodes` holds a node that is the same node as `n`.
pub open spec fn has_node<N: Node>(nodes: Seq<N>, n: N) -> bool {
    exists|i: int| 0 <= i < nodes.len() && (#[trigger] nodes[i]).is_same(&n)
}

/// The position of the first class of `classes`, from position `i` on, whose
/// name is not in `registry`.
pub open spec fn first_unregistered(
    classes: Seq<StyleClassView>,
    registry: Seq<StyleClassView>,
    i: int,
) -> Option<int>
    decreases classes.len() - i,
{
    if i < 0 || i >= classes.len() {
        None
    } else if !has_class_named(registry, classes[i].name) {
        Some(i)
    } else {
        first_unregistered(classes, registry, i + 1)
    }
}

/// The position of the first node of `nodes`, from position `i` on, with
/// identifier `id`.
pub open spec fn first_with_id<N: Node>(nodes: Seq<N>, id: u64, i: int) -> Option<int>
    decreases nodes.len() - i,
{
    if i < 0 || i >= nodes.len() {
        None
    } else if nodes[i].node_view().id == id {
        Some(i)
    } else {
        first_with_id(nodes, id, i + 1)
    }
}

/// The position of the first class of `classes`, from position `i` on, named
/// `name`.
pub open spec fn first_named(classes: Seq<StyleClassView>, name: Seq<char>, i: int) -> Option<int>
    decreases classes.len() - i,
{
    if i < 0 || i >= classes.len() {
        None
    } else if classes[i].name == name {
        Some(i)
    } else {
        first_named(classes, name, i + 1)
    }
}

/// The texts of `items`, in order, each at depth `depth`.
pub open spec fn all_tabbed<T: TabbedDisplay>(items: Seq<T>, depth: nat) -> Seq<char>
    decreases items.len(),
{
    if items.len() == 0 {
        Seq::empty()
    } else {
        all_tabbed(items.drop_last(), depth) + items.last().tabbed(depth)
    }
}

/// Appends the texts of `items`, in order, each at depth `depth`.
pub fn push_all_tabbed<T: TabbedDisplay>(out: &mut String, items: &Vec<Rc<T>>, depth: usize)
    ensures
        final(out)@ == old(out)@ + all_tabbed(node_seq(items@), depth as nat),
{
    let ghost start = out@;
    let ghost all = node_seq(items@);
    let mut i: usize = 0;
    while i < items.len()
        invariant
            i <= items.len(),
            all == node_seq(items@),
            out@ == start + all_tabbed(all.take(i as int), depth as nat),
        decreases items.len() - i,
    {
        items[i].fmt_tabbed(out, depth);
        assert(all.take(i + 1).drop_last() =~= all.take(i as int));
        assert(all[i as int] == *items@[i as int]);
        i = i + 1;
        assert(out@ =~= start + all_tabbed(all.take(i as int), depth as nat));
    }
    assert(all.take(i as int) =~= all);
}

/// The `classDef` lines of `classes`, in order, at depth `depth`.
pub open spec fn all_class_defs(classes: Seq<StyleClassView>, depth: nat) -> Seq<char>
    decreases classes.len(),
{
    if classes.len() == 0 {
        Seq::empty()
    } else {
        all_class_defs(classes.drop_last(), depth) + class_def_text(classes.last(), depth)
    }
}

/// The text of a class or entity-relationship diagram at depth `depth`: the
/// configuration header, the `keyword` line, the `direction` line, then every
/// style class, node and edge in insertion order, one level deeper.
pub open spec fn standard_text<N: TabbedDisplay, E: TabbedDisplay, C: Configuration>(
    d: DiagramView<N, E, C>,
    keyword: Seq<char>,
    depth: nat,
) -> Seq<char> {
    d.configuration.header() + indent(depth) + keyword + "\n"@ + indent(depth) + "  direction "@
        + d.configuration.config_view().direction.text() + "\n"@ + all_class_defs(
        d.style_classes,
        child_depth(depth),
    ) + all_tabbed(d.nodes, child_depth(depth)) + all_tabbed(d.edges, child_depth(depth))
}

/// What a diagram holds: its style classes, nodes and edges in insertion
/// order, and its configuration.
pub struct DiagramView<N, E, C> {
    pub style_classes: Seq<StyleClassView>,
    pub nodes: Seq<N>,
    pub edges: Seq<E>,
    pub configuration: C,
}

impl<N: Node, E: Edge<Node = N>, C> DiagramView<N, E, C> {
    /// The invariants that the builder keeps: style class names are unique,
    /// nodes opt only into registered style classes, and edges join only
    /// registered nodes.
    pub open spec fn wf(self) -> bool {
        &&& forall|i: int, j: int|
            0 <= i < j < self.style_classes.len() ==> (#[trigger] self.style_classes[i]).name
                != (#[trigger] self.style_classes[j]).name
        &&& forall|i: int, k: int|
            0 <= i < self.nodes.len() && 0 <= k < (#[trigger] self.nodes[i]).node_view().classes.len()
                ==> has_class_named(
                self.style_classes,
                #[trigger] self.nodes[i].node_view().classes[k].name,
            )
        &&& forall|i: int|
            0 <= i < self.edges.len() ==> has_node(
                self.nodes,
                (#[trigger] self.edges[i]).spec_source(),
            ) && has_node(self.nodes, self.edges[i].spec_destination())
    }

    /// The builder with its identifier set to the node count when it has none.
    pub open spec fn with_default_id<B: NodeBuilder<Node = N>>(self, b: B) -> B {
        if b.base().id is None {
            b.spec_with_id(self.nodes.len() as u64)
        } else {
            b
        }
    }

    /// The error that building `b` gives once it has its default identifier,
    /// if any.
    pub open spec fn node_build_error<B: NodeBuilder<Node = N>>(self, b: B) -> Option<NodeError> {
        combined_error(b.extra_error(), NodeBuilderView { id: Some(self.node_id(b)), ..b.base() })
    }

    /// The identifier that the node built from `b` gets.
    pub open spec fn node_id<B: NodeBuilder<Node = N>>(self, b: B) -> u64 {
        match b.base().id {
            Some(id) => id,
            None => self.nodes.len() as u64,
        }
    }

    /// The diagram after registering the node `n`, or `None` when one of its
    /// style classes is not registered.
    pub open spec fn with_node(self, n: N) -> Option<DiagramView<N, E, C>> {
        if first_unregistered(n.node_view().classes, self.style_classes, 0) is Some {
            None
        } else {
            Some(DiagramView { nodes: self.nodes.push(n), ..self })
        }
    }

    /// The diagram after adding the node that `b` builds, or `None` when
    /// that fails.
    pub open spec fn add_node<B: NodeBuilder<Node = N>>(self, b: B) -> Option<
        DiagramView<N, E, C>,
    > {
        match self.with_default_id(b).spec_build() {
            Ok(n) => self.with_node(n),
            Err(_) => None,
        }
    }

    /// The diagram after adding the nodes that `bs` build, in order, or
    /// `None` when one of them fails.
    pub open spec fn add_nodes<B: NodeBuilder<Node = N>>(self, bs: Seq<B>) -> Option<
        DiagramView<N, E, C>,
    >
        decreases bs.len(),
    {
        if bs.len() == 0 {
            Some(self)
        } else {
            match self.add_nodes(bs.drop_last()) {
                Some(d) => d.add_node(bs.last()),
                None => None,
            }
        }
    }

    /// The diagram after adding the edge `e`, or `None` when one of its ends
    /// is not a node of the diagram.
    pub open spec fn with_edge(self, e: E) -> Option<DiagramView<N, E, C>> {
        if !has_node(self.nodes, e.spec_source()) || !has_node(
            self.nodes,
            e.spec_destination(),
        ) {
            None
        } else {
            Some(DiagramView { edges: self.edges.push(e), ..self })
        }
    }
}

/// A diagram: style classes, nodes and edges, shared with whoever holds them,
/// and one configuration.
#[derive(Clone, Debug, PartialEq, Eq, Hash)]
pub struct GenericDiagram<N, E, C> {
    style_classes: Vec<Rc<StyleClass>>,
    nodes: Vec<Rc<N>>,
    edges: Vec<Rc<E>>,
    configuration: C,
}

impl<N, E, C> View for GenericDiagram<N, E, C> {
    type V = DiagramView<N, E, C>;

    closed spec fn view(&self) -> DiagramView<N, E, C> {
        DiagramView {
            style_classes: class_views(self.style_classes@),
            nodes: node_seq(self.nodes@),
            edges: node_seq(self.edges@),
            configuration: self.configuration,
        }
    }
}

/// Returns whether `nodes` holds a node that is the same node as `n`.
pub fn contains_node<N: Node>(nodes: &Vec<Rc<N>>, n: &N) -> (r: bool)
    ensures
        r == has_node(node_seq(nodes@), *n),
{
    let mut i: usize = 0;
    while i < nodes.len()
        invariant
            i <= nodes.len(),
            forall|j: int| 0 <= j < i ==> !(*#[trigger] nodes@[j]).is_same(&*n),
        decreases nodes.len() - i,
    {
        if nodes[i].same_node(n) {
            assert(node_seq(nodes@)[i as int] == *nodes@[i as int]);
            return true;
        }
        i = i + 1;
    }
    assert forall|j: int| 0 <= j < node_seq(nodes@).len() implies !(#[trigger] node_seq(
        nodes@,
    )[j]).is_same(&*n) by {
        assert(node_seq(nodes@)[j] == *nodes@[j]);
    }
    false
}

/// Returns the first node of `nodes` with identifier `id`.
pub fn find_node_by_id<N: Node>(nodes: &Vec<Rc<N>>, id: u64) -> (r: Option<Rc<N>>)
    ensures
        match first_with_id(node_seq(nodes@), id, 0) {
            Some(i) => r matches Some(n) && *n == node_seq(nodes@)[i],
            None => r is None,
        },
{
    let mut i: usize = 0;
    while i < nodes.len()
        invariant
            i <= nodes.len(),
            first_with_id(node_seq(nodes@), id, 0) == first_with_id(node_seq(nodes@), id, i as int),
        decreases nodes.len() - i,
    {
        assert(node_seq(nodes@)[i as int] == *nodes@[i as int]);
        if nodes[i].id() == id {
            return Some(nodes[i].clone());
        }
        i = i + 1;
    }
    None
}

/// Returns the first style class of `classes` named `name`.
pub fn find_class_by_name(classes: &Vec<Rc<StyleClass>>, name: &str) -> (r: Option<Rc<StyleClass>>)
    ensures
        match first_named(class_views(classes@), name@, 0) {
            Some(i) => r matches Some(c) && c@ == class_views(classes@)[i],
            None => r is None,
        },
{
    let owned = name.to_owned();
    let mut i: usize = 0;
    while i < classes.len()
        invariant
            i <= classes.len(),
            owned@ == name@,
            first_named(class_views(classes@), name@, 0) == first_named(
                class_views(classes@),
                name@,
                i as int,
            ),
        decreases classes.len() - i,
    {
        assert(class_views(classes@)[i as int] == classes@[i as int]@);
        if classes[i].has_name(&owned) {
            assert(first_named(class_views(classes@), name@, i as int) == Some(i as int));
            return Some(Rc::clone(&classes[i]));
        }
        i = i + 1;
    }
    None
}

impl<N: Node, E: Edge<Node = N>, C: Configuration> GenericDiagram<N, E, C> {
    /// Returns the configuration.
    pub fn configuration(&self) -> (r: &C)
        ensures
            *r == self@.configuration,
    {
        &self.configuration
    }

    /// Returns the nodes, in insertion order.
    pub fn nodes(&self) -> (r: &Vec<Rc<N>>)
        ensures
            node_seq(r@) == self@.nodes,
    {
        &self.nodes
    }

    /// Returns the edges, in insertion order.
    pub fn edges(&self) -> (r: &Vec<Rc<E>>)
        ensures
            node_seq(r@) == self@.edges,
    {
        &self.edges
    }

    /// Returns the style classes, in insertion order.
    pub fn style_classes(&self) -> (r: &Vec<Rc<StyleClass>>)
        ensures
            class_views(r@) == self@.style_classes,
    {
        &self.style_classes
    }

    /// Returns the first node with identifier `id`.
    pub fn get_node_by_id(&self, id: u64) -> (r: Option<Rc<N>>)
        ensures
            match first_with_id(self@.nodes, id, 0) {
                Some(i) => r matches Some(n) && *n == self@.nodes[i],
                None => r is None,
            },
    {
        find_node_by_id(&self.nodes, id)
    }

    /// Returns the style class named `name`.
    pub fn get_style_class_by_name(&self, name: &str) -> (r: Option<Rc<StyleClass>>)
        ensures
            match first_named(self@.style_classes, name@, 0) {
                Some(i) => r matches Some(c) && c@ == self@.style_classes[i],
                None => r is None,
            },
    {
        find_class_by_name(&self.style_classes, name)
    }
}

impl<
    N: Node + TabbedDisplay,
    E: Edge<Node = N> + TabbedDisplay,
    C: Configuration,
> GenericDiagram<N, E, C> {
    fn push_class_defs(&self, out: &mut String, depth: usize)
        ensures
            final(out)@ == old(out)@ + all_class_defs(self@.style_classes, depth as nat),
    {
        let ghost start = out@;
        let ghost all = class_views(self.style_classes@);
        let mut i: usize = 0;
        while i < self.style_classes.len()
            invariant
                i <= self.style_classes.len(),
                all == class_views(self.style_classes@),
                out@ == start + all_class_defs(all.take(i as int), depth as nat),
            decreases self.style_classes.len() - i,
        {
            self.style_classes[i].fmt_tabbed(out, depth);
            assert(all.take(i + 1).drop_last() =~= all.take(i as int));
            assert(all[i as int] == self.style_classes@[i as int]@);
            i = i + 1;
            assert(out@ =~= start + all_class_defs(all.take(i as int), depth as nat));
        }
        assert(all.take(i as int) =~= all);
    }

    /// Appends the text of the diagram, introduced by `keyword`.
    pub fn push_standard(&self, out: &mut String, keyword: &str, depth: usize)
        ensures
            final(out)@ == old(out)@ + standard_text(self@, keyword@, depth as nat),
    {
        self.configuration.push_header(out);
        push_indent(out, depth);
        out.append(keyword);
        out.append("\n");
        push_indent(out, depth);
        out.append("  direction ");
        out.append(self.configuration.direction().as_str());
        out.append("\n");
        let child = child_of(depth);
        self.push_class_defs(out, child);
        push_all_tabbed(out, &self.nodes, child);
        push_all_tabbed(out, &self.edges, child);
        assert(final(out)@ =~= old(out)@ + standard_text(self@, keyword@, depth as nat));
    }
}

/// Builder of a diagram, which checks each addition against what is already
/// there.
#[derive(Clone, Debug, PartialEq, Eq, Hash)]
pub struct GenericDiagramBuilder<N, E, C> {
    generic_diagram: GenericDiagram<N, E, C>,
}

impl<N, E, C> View for GenericDiagramBuilder<N, E, C> {
    type V = DiagramView<N, E, C>;

    closed spec fn view(&self) -> DiagramView<N, E, C> {
        self.generic_diagram@
    }
}

impl<N: Node, E: Edge<Node = N>, C: Default> Default for GenericDiagramBuilder<N, E, C> {
    fn default() -> (r: Self)
        ensures
            r@.wf(),
            C::default.ensures((), r@.configuration),
            r@.style_classes.len() == 0,
            r@.nodes.len() == 0,
            r@.edges.len() == 0,
    {
        GenericDiagramBuilder {
            generic_diagram: GenericDiagram {
                style_classes: Vec::new(),
                nodes: Vec::new(),
                edges: Vec::new(),
                configuration: C::default(),
            },
        }
    }
}

impl<N, E, C> From<GenericDiagramBuilder<N, E, C>> for GenericDiagram<N, E, C> {
    fn from(builder: GenericDiagramBuilder<N, E, C>) -> (r: GenericDiagram<N, E, C>) {
        builder.generic_diagram
    }
}

impl<N, E, C> vstd::std_specs::convert::FromSpecImpl<GenericDiagramBuilder<N, E, C>> for GenericDiagram<N, E, C> {
    open spec fn obeys_from_spec() -> bool {
        true
    }

    open spec fn from_spec(builder: GenericDiagramBuilder<N, E, C>) -> GenericDiagram<N, E, C> {
        builder.generic_diagram_spec()
    }
}

impl<N, E, C> GenericDiagramBuilder<N, E, C> {
    /// The diagram that finishing gives.
    pub closed spec fn generic_diagram_spec(self) -> GenericDiagram<N, E, C> {
        self.generic_diagram
    }

    /// The diagram that finishing gives holds what the builder gathered.
    pub proof fn lemma_generic_diagram_spec(self)
        ensures
            self.generic_diagram_spec()@ == self@,
    {
    }
}

impl<N: Node, E: Edge<Node = N>, C: Configuration> GenericDiagramBuilder<N, E, C> {
    /// Finishes the diagram: moves what was gathered, without further checks.
    pub fn finish(self) -> (r: GenericDiagram<N, E, C>)
        ensures
            r@ == self@,
            r == self.generic_diagram_spec(),
    {
        self.generic_diagram
    }

    /// Builds the configuration and puts it in place of the current one.
    ///
    /// Fails with the configuration builder's error, as `Error::Config`.
    pub fn configuration<B: ConfigurationBuilder<Configuration = C>>(self, configuration: B) -> (r:
        Result<Self, Error>)
        ensures
            self@.wf() ==> (r matches Ok(d) ==> d@.wf()),
            r matches Ok(d) && d@.configuration.config_view() == configuration.settings()
                && configuration.keeps_extras(&d@.configuration),
            match configuration.spec_build() {
                Ok(c) => r matches Ok(d) && d@ == (DiagramView { configuration: c, ..self@ }),
                Err(e) => r == Err::<Self, Error>(Error::Config(e)),
            },
    {
        proof {
            configuration.lemma_spec_build();
        }
        match configuration.build() {
            Ok(c) => {
                let mut d = self.generic_diagram;
                d.configuration = c;
                Ok(GenericDiagramBuilder { generic_diagram: d })
            },
            Err(e) => Err(Error::Config(e)),
        }
    }

    /// Builds the style class and registers it, after those already there.
    ///
    /// Fails with the style class builder's error, or with `DuplicateClass`
    /// when a class of that name is registered; the diagram is then
    /// unchanged.
    pub fn style_class(&mut self, style_class: StyleClassBuilder) -> (r: Result<
        Rc<StyleClass>,
        Error,
    >)
        ensures
            old(self)@.wf() ==> final(self)@.wf(),
            match style_class@.build() {
                Err(e) => r == Err::<Rc<StyleClass>, Error>(Error::StyleClass(e)) && final(self)@
                    == old(self)@,
                Ok(c) => if has_class_named(old(self)@.style_classes, c.name) {
                    r matches Err(Error::StyleClass(StyleClassError::DuplicateClass(n))) && n@
                        == c.name && final(self)@ == old(self)@
                } else {
                    r matches Ok(sc) && sc@ == c && final(self)@ == (DiagramView {
                        style_classes: old(self)@.style_classes.push(c),
                        ..old(self)@
                    })
                },
            },
    {
        let style_class = match style_class.build() {
            Ok(c) => c,
            Err(e) => return Err(Error::StyleClass(e)),
        };
        let name = style_class.name().to_owned();
        if contains_class_named(&self.generic_diagram.style_classes, &name) {
            return Err(Error::StyleClass(StyleClassError::DuplicateClass(name)));
        }
        proof {
            if old(self)@.wf() {
                lemma_wf_style_class(old(self)@, style_class@);
            }
        }
        let rc = Rc::new(style_class);
        self.generic_diagram.style_classes.push(rc.clone());
        proof {
            assert(class_views(self.generic_diagram.style_classes@) =~= class_views(
                old(self).generic_diagram.style_classes@,
            ).push(rc@));
        }
        Ok(rc)
    }

    /// Builds the node and registers it, after those already there. A node
    /// without identifier gets the number of nodes registered so far.
    ///
    /// Fails with the node builder's error, or with `UnknownClass` naming the
    /// first of its style classes that is not registered; the diagram is then
    /// unchanged.
    pub fn node<B: NodeBuilder<Node = N>>(&mut self, node: B) -> (r: Result<Rc<N>, Error>)
        ensures
            old(self)@.wf() ==> final(self)@.wf(),
            match old(self)@.with_default_id(node).spec_build() {
                Err(e) => r == Err::<Rc<N>, Error>(Error::Node(e)) && final(self)@ == old(self)@,
                Ok(n) => match first_unregistered(
                    n.node_view().classes,
                    old(self)@.style_classes,
                    0,
                ) {
                    Some(i) => r matches Err(Error::StyleClass(StyleClassError::UnknownClass(c)))
                        && c@ == n.node_view().classes[i] && final(self)@ == old(self)@,
                    None => r matches Ok(rc) && *rc == n && final(self)@ == (DiagramView {
                        nodes: old(self)@.nodes.push(n),
                        ..old(self)@
                    }),
                },
            },
            old(self)@.add_node(node) is None ==> r is Err && final(self)@ == old(self)@,
            old(self)@.add_node(node) matches Some(d) ==> r is Ok && final(self)@ == d,
            r is Ok <==> old(self)@.node_build_error(node) is None && first_unregistered(
                node.base().classes,
                old(self)@.style_classes,
                0,
            ) is None,
            r matches Ok(n) ==> n.node_view().id == old(self)@.node_id(node)
                && Some(n.node_view().label) == node.base().label && n.node_view().classes
                == node.base().classes && n.node_view().styles == node.base().styles,
    {
        let count = self.generic_diagram.nodes.len();
        proof {
            node.lemma_spec_build();
            if node.base().id is None {
                node.lemma_spec_with_id(count as u64);
                node.spec_with_id(count as u64).lemma_spec_build();
            }
        }
        let ghost requested = node;
        let builder = if node.get_id().is_none() {
            node.id(count as u64)
        } else {
            node
        };
        let built = match builder.build() {
            Ok(n) => n,
            Err(e) => return Err(Error::Node(e)),
        };
        let ghost registry = old(self)@.style_classes;
        let classes = built.classes();
        let ghost views = class_views(classes@);
        let mut i: usize = 0;
        while i < classes.len()
            invariant
                i <= classes.len(),
                views == class_views(classes@),
                views == built.node_view().classes,
                views == requested.base().classes,
                old(self)@.with_default_id(requested).spec_build() == Ok::<N, NodeError>(built),
                self@ == old(self)@,
                requested == node,
                registry == class_views(self.generic_diagram.style_classes@),
                first_unregistered(views, registry, 0) == first_unregistered(
                    views,
                    registry,
                    i as int,
                ),
            decreases classes.len() - i,
        {
            let name = classes[i].name().to_owned();
            assert(views[i as int] == classes@[i as int]@);
            if !contains_class_named(&self.generic_diagram.style_classes, &name) {
                assert(first_unregistered(views, registry, i as int) == Some(i as int));
                let c = classes[i].duplicate();
                return Err(Error::StyleClass(StyleClassError::UnknownClass(c)));
            }
            i = i + 1;
        }
        proof {
            if old(self)@.wf() {
                lemma_wf_node(old(self)@, built);
            }
        }
        let rc = Rc::new(built);
        self.generic_diagram.nodes.push(rc.clone());
        proof {
            assert(node_seq(self.generic_diagram.nodes@) =~= node_seq(
                old(self).generic_diagram.nodes@,
            ).push(*rc));
        }
        Ok(rc)
    }

    /// Builds the edge and registers it, after those already there.
    ///
    /// Fails with the edge builder's error, with `SourceNodeNotFound` when its
    /// source is not a registered node, else with `DestinationNodeNotFound`
    /// when its destination is not; each names the node by its label, and the
    /// diagram is then unchanged.
    pub fn edge<B: EdgeBuilder<Node = N, Edge = E>>(&mut self, edge: B) -> (r: Result<
        Rc<E>,
        Error,
    >)
        ensures
            old(self)@.wf() ==> final(self)@.wf(),
            match edge.spec_build() {
                Err(e) => r == Err::<Rc<E>, Error>(Error::Edge(e)) && final(self)@ == old(self)@,
                Ok(e) => if !has_node(old(self)@.nodes, e.spec_source()) {
                    r matches Err(Error::Edge(EdgeError::SourceNodeNotFound(l))) && l@
                        == e.spec_source().node_view().label && final(self)@ == old(self)@
                } else if !has_node(old(self)@.nodes, e.spec_destination()) {
                    r matches Err(Error::Edge(EdgeError::DestinationNodeNotFound(l))) && l@
                        == e.spec_destination().node_view().label && final(self)@ == old(self)@
                } else {
                    r matches Ok(rc) && *rc == e && old(self)@.with_edge(e) == Some(final(self)@)
                        && final(self)@ == (DiagramView {
                        edges: old(self)@.edges.push(e),
                        ..old(self)@
                    })
                },
            },
            r is Ok <==> combined_edge_error(edge.extra_error(), edge.base()) is None && has_node(
                old(self)@.nodes,
                edge.base().source.unwrap(),
            ) && has_node(old(self)@.nodes, edge.base().destination.unwrap()),
    {
        proof {
            edge.lemma_spec_build();
        }
        let edge = match edge.build() {
            Ok(e) => e,
            Err(e) => return Err(Error::Edge(e)),
        };
        let source = edge.source();
        if !contains_node(&self.generic_diagram.nodes, &**source) {
            return Err(Error::Edge(EdgeError::SourceNodeNotFound(source.label().to_owned())));
        }
        let destination = edge.destination();
        if !contains_node(&self.generic_diagram.nodes, &**destination) {
            return Err(
                Error::Edge(EdgeError::DestinationNodeNotFound(destination.label().to_owned())),
            );
        }
        proof {
            if old(self)@.wf() {
                lemma_wf_edge(old(self)@, edge);
            }
        }
        let rc = Rc::new(edge);
        self.generic_diagram.edges.push(rc.clone());
        proof {
            assert(node_seq(self.generic_diagram.edges@) =~= node_seq(
                old(self).generic_diagram.edges@,
            ).push(*rc));
        }
        Ok(rc)
    }

    /// Returns the nodes registered so far, in insertion order.
    pub fn nodes(&self) -> (r: &Vec<Rc<N>>)
        ensures
            node_seq(r@) == self@.nodes,
    {
        &self.generic_diagram.nodes
    }

    /// Returns the first registered node with identifier `id`.
    pub fn get_node_by_id(&self, id: u64) -> (r: Option<Rc<N>>)
        ensures
            match first_with_id(self@.nodes, id, 0) {
                Some(i) => r matches Some(n) && *n == self@.nodes[i],
                None => r is None,
            },
    {
        find_node_by_id(&self.generic_diagram.nodes, id)
    }

    /// Returns the registered style class named `name`.
    pub fn get_style_class_by_name(&self, name: &str) -> (r: Option<Rc<StyleClass>>)
        ensures
            match first_named(self@.style_classes, name@, 0) {
                Some(i) => r matches Some(c) && c@ == self@.style_classes[i],
                None => r is None,
            },
    {
        find_class_by_name(&self.generic_diagram.style_classes, name)
    }

    /// Returns the number of registered nodes.
    pub fn number_of_nodes(&self) -> (r: usize)
        ensures
            r == self@.nodes.len(),
    {
        self.generic_diagram.nodes.len()
    }

    /// Returns the number of registered edges.
    pub fn number_of_edges(&self) -> (r: usize)
        ensures
            r == self@.edges.len(),
    {
        self.generic_diagram.edges.len()
    }
}

} // verus!

verus! {

/// The first class of `classes`, from position `i` on, that `registry` lacks
/// exists when one such class exists.
proof fn lemma_first_unregistered_found(
    classes: Seq<StyleClassView>,
    registry: Seq<StyleClassView>,
    i: int,
    k: int,
)
    requires
        0 <= i <= k < classes.len(),
        !has_class_named(registry, classes[k].name),
    ensures
        first_unregistered(classes, registry, i) is Some,
    decreases k - i,
{
    if i < k && has_class_named(registry, classes[i].name) {
        lemma_first_unregistered_found(classes, registry, i + 1, k);
    }
}

/// When no class of `classes` from position `i` on lacks a registration, all
/// of them are registered.
proof fn lemma_none_unregistered(classes: Seq<StyleClassView>, registry: Seq<StyleClassView>, i: int)
    requires
        0 <= i <= classes.len(),
        first_unregistered(classes, registry, i) is None,
    ensures
        forall|k: int| i <= k < classes.len() ==> has_class_named(registry, #[trigger] classes[k].name),
    decreases classes.len() - i,
{
    if i < classes.len() {
        lemma_none_unregistered(classes, registry, i + 1);
    }
}

/// A name registered before a push stays registered after it.
proof fn lemma_named_after_push(classes: Seq<StyleClassView>, c: StyleClassView, name: Seq<char>)
    requires
        has_class_named(classes, name),
    ensures
        has_class_named(classes.push(c), name),
{
    let i = choose|i: int| 0 <= i < classes.len() && (#[trigger] classes[i]).name == name;
    assert(classes.push(c)[i] == classes[i]);
}

/// A node present before a push stays present after it.
proof fn lemma_node_after_push<N: Node>(nodes: Seq<N>, n: N, v: N)
    requires
        has_node(nodes, v),
    ensures
        has_node(nodes.push(n), v),
{
    let i = choose|i: int| 0 <= i < nodes.len() && (#[trigger] nodes[i]).is_same(&v);
    assert(nodes.push(n)[i] == nodes[i]);
}

/// Registering a style class whose name is not registered yet keeps the
/// invariants.
pub proof fn lemma_wf_style_class<N: Node, E: Edge<Node = N>, C>(d: DiagramView<N, E, C>, c: StyleClassView)
    requires
        d.wf(),
        !has_class_named(d.style_classes, c.name),
    ensures
        (DiagramView { style_classes: d.style_classes.push(c), ..d }).wf(),
{
    let e = DiagramView { style_classes: d.style_classes.push(c), ..d };
    assert forall|i: int, j: int| 0 <= i < j < e.style_classes.len() implies (
    #[trigger] e.style_classes[i]).name != (#[trigger] e.style_classes[j]).name by {
        if j == d.style_classes.len() {
            assert(e.style_classes[i] == d.style_classes[i]);
        } else {
            assert(e.style_classes[i] == d.style_classes[i]);
            assert(e.style_classes[j] == d.style_classes[j]);
        }
    }
    assert forall|i: int, k: int|
        0 <= i < e.nodes.len() && 0 <= k < (#[trigger] e.nodes[i]).node_view().classes.len()
        implies has_class_named(e.style_classes, #[trigger] e.nodes[i].node_view().classes[k].name) by {
        lemma_named_after_push(d.style_classes, c, d.nodes[i].node_view().classes[k].name);
    }
}

/// Registering a node all of whose style classes are registered keeps the
/// invariants.
pub proof fn lemma_wf_node<N: Node, E: Edge<Node = N>, C>(d: DiagramView<N, E, C>, n: N)
    requires
        d.wf(),
        first_unregistered(n.node_view().classes, d.style_classes, 0) is None,
    ensures
        (DiagramView { nodes: d.nodes.push(n), ..d }).wf(),
{
    let e = DiagramView { nodes: d.nodes.push(n), ..d };
    lemma_none_unregistered(n.node_view().classes, d.style_classes, 0);
    assert forall|i: int, k: int|
        0 <= i < e.nodes.len() && 0 <= k < (#[trigger] e.nodes[i]).node_view().classes.len()
        implies has_class_named(e.style_classes, #[trigger] e.nodes[i].node_view().classes[k].name) by {
        if i < d.nodes.len() {
            assert(e.nodes[i] == d.nodes[i]);
        } else {
            assert(e.nodes[i] == n);
        }
    }
    assert forall|i: int| 0 <= i < e.edges.len() implies has_node(
        e.nodes,
        (#[trigger] e.edges[i]).spec_source(),
    ) && has_node(e.nodes, e.edges[i].spec_destination()) by {
        lemma_node_after_push(d.nodes, n, d.edges[i].spec_source());
        lemma_node_after_push(d.nodes, n, d.edges[i].spec_destination());
    }
}

/// Adding an edge whose ends are registered nodes keeps the invariants.
pub proof fn lemma_wf_edge<N: Node, E: Edge<Node = N>, C>(d: DiagramView<N, E, C>, x: E)
    requires
        d.wf(),
        has_node(d.nodes, x.spec_source()),
        has_node(d.nodes, x.spec_destination()),
    ensures
        (DiagramView { edges: d.edges.push(x), ..d }).wf(),
{
    let e = DiagramView { edges: d.edges.push(x), ..d };
    assert forall|i: int| 0 <= i < e.edges.len() implies has_node(
        e.nodes,
        (#[trigger] e.edges[i]).spec_source(),
    ) && has_node(e.nodes, e.edges[i].spec_destination()) by {
        if i < d.edges.len() {
            assert(e.edges[i] == d.edges[i]);
        } else {
            assert(e.edges[i] == x);
        }
    }
}

/// A node that opts into a style class the diagram has not registered is
/// refused: no diagram follows from registering it, so `node` fails and
/// leaves the nodes as they were.
pub proof fn lemma_unknown_class_refused<N: Node, E: Edge<Node = N>, C>(
    d: DiagramView<N, E, C>,
    n: N,
    k: int,
)
    requires
        0 <= k < n.node_view().classes.len(),
        !has_class_named(d.style_classes, n.node_view().classes[k].name),
    ensures
        first_unregistered(n.node_view().classes, d.style_classes, 0) is Some,
        d.with_node(n) is None,
{
    lemma_first_unregistered_found(n.node_view().classes, d.style_classes, 0, k);
}

/// An edge whose source or destination is not a node of the diagram is
/// refused: no diagram follows from adding it, so `edge` fails and leaves
/// the edges as they were.
pub proof fn lemma_edge_needs_both_ends<N: Node, E: Edge<Node = N>, C>(d: DiagramView<N, E, C>, e: E)
    requires
        !has_node(d.nodes, e.spec_source()) || !has_node(
            d.nodes,
            e.spec_destination(),
        ),
    ensures
        d.with_edge(e) is None,
{
}

/// The text of a class or entity-relationship diagram depends on what the
/// diagram holds alone: rendering one diagram twice gives the same text.
pub proof fn lemma_standard_rendering_deterministic<
    N: TabbedDisplay,
    E: TabbedDisplay,
    C: Configuration,
>(a: DiagramView<N, E, C>, b: DiagramView<N, E, C>, keyword: Seq<char>, depth: nat)
    requires
        a == b,
    ensures
        standard_text(a, keyword, depth) == standard_text(b, keyword, depth),
{
}

/// Adding nodes that carry a label but no identifier and no style class, of
/// a kind whose own checks pass, one after the other, always succeeds,
/// whatever the labels.
pub proof fn lemma_auto_ids_succeed<N: Node, E: Edge<Node = N>, C, B: NodeBuilder<Node = N>>(
    d: DiagramView<N, E, C>,
    builders: Seq<B>,
)
    requires
        forall|i: int|
            0 <= i < builders.len() ==> (#[trigger] builders[i]).base().id is None
                && builders[i].base().label is Some && builders[i].base().classes.len() == 0
                && builders[i].extra_error() is None,
    ensures
        d.add_nodes(builders) is Some,
    decreases builders.len(),
{
    if builders.len() > 0 {
        let init = builders.drop_last();
        assert forall|i: int| 0 <= i < init.len() implies (#[trigger] init[i]).base().id is None
            && init[i].base().label is Some && init[i].base().classes.len() == 0
            && init[i].extra_error() is None by {
            assert(init[i] == builders[i]);
        }
        lemma_auto_ids_succeed(d, init);
        let partial = d.add_nodes(init)->Some_0;
        let b = builders.last();
        let count = partial.nodes.len() as u64;
        b.lemma_spec_with_id(count);
        b.spec_with_id(count).lemma_spec_build();
        let n = b.spec_with_id(count).spec_build()->Ok_0;
        assert(n.node_view().classes.len() == 0);
        assert(first_unregistered(n.node_view().classes, partial.style_classes, 0) is None);
    }
}

/// Adding nodes that carry no identifier, one after the other, to a diagram
/// with no nodes gives them the identifiers 0, 1, 2, ... in insertion order,
/// whatever their labels.
pub proof fn lemma_auto_ids<N: Node, E: Edge<Node = N>, C, B: NodeBuilder<Node = N>>(
    d: DiagramView<N, E, C>,
    builders: Seq<B>,
)
    requires
        d.nodes.len() == 0,
        builders.len() <= u64::MAX,
        forall|i: int| 0 <= i < builders.len() ==> (#[trigger] builders[i]).base().id is None,
    ensures
        d.add_nodes(builders) matches Some(full) ==> full.nodes.len() == builders.len() && forall|
            i: int,
        |
            0 <= i < builders.len() ==> (#[trigger] full.nodes[i]).node_view().id == i,
    decreases builders.len(),
{
    if builders.len() > 0 {
        let init = builders.drop_last();
        assert forall|i: int| 0 <= i < init.len() implies (#[trigger] init[i]).base().id is None by {
            assert(init[i] == builders[i]);
        }
        lemma_auto_ids(d, init);
        match d.add_nodes(init) {
            Some(partial) => {
                let b = builders.last();
                let count = partial.nodes.len() as u64;
                b.lemma_spec_with_id(count);
                b.spec_with_id(count).lemma_spec_build();
                match partial.add_node(b) {
                    Some(full) => {
                        assert(full.nodes == partial.nodes.push(
                            b.spec_with_id(count).spec_build()->Ok_0,
                        ));
                    },
                    None => {},
                }
            },
            None => {},
        }
    }
}

} // verus!
