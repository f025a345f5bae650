//! Flowcharts: the diagram, its rendering, and its builder.
use std::rc::Rc;
use vstd::prelude::*;

use crate::config::{ConfigView, Configuration, ConfigurationBuilder};
use crate::diagram::{
    all_tabbed, contains_node, first_named, first_unregistered, first_with_id, has_node, node_seq,
    push_all_tabbed, DiagramView, GenericDiagram, GenericDiagramBuilder,
};
use crate::edge::{Edge, EdgeBuilder};
use crate::errors::{EdgeError, Error, StyleClassError};
use crate::flowchart_config::{FlowchartConfiguration, FlowchartConfigurationBuilder, FlowchartConfigurationView};
use crate::flowchart_edge::{FlowchartEdge, FlowchartEdgeBuilder};
use crate::flowchart_node::{node_text_excluding, push_node_excluding, FlowchartNode, FlowchartNodeBuilder};
use crate::node::{class_views, has_class_named, Node, NodeBuilder};
use crate::style::{class_def_text, StyleClass, StyleClassBuilder, StyleClassView};
use crate::text::{child_depth, indent, push_indent};
use crate::TabbedDisplay;

verus! {

/// Whether some node or some edge opts into the style class `c`.
pub open spec fn class_used(c: StyleClassView, nodes: Seq<FlowchartNode>, edges: Seq<FlowchartEdge>) -> bool {
    (exists|i: int| 0 <= i < nodes.len() && (#[trigger] nodes[i]).node_view().classes.contains(c))
        || (exists|j: int| 0 <= j < edges.len() && (#[trigger] edges[j])@.classes.contains(c))
}

/// The `classDef` lines of the style classes that some node or edge uses,
/// in registration order.
pub open spec fn used_classes_text(
    classes: Seq<StyleClassView>,
    nodes: Seq<FlowchartNode>,
    edges: Seq<FlowchartEdge>,
    depth: nat,
) -> Seq<char>
    decreases classes.len(),
{
    if classes.len() == 0 {
        Seq::empty()
    } else {
        used_classes_text(classes.drop_last(), nodes, edges, depth) + if class_used(
            classes.last(),
            nodes,
            edges,
        ) {
            class_def_text(classes.last(), depth)
        } else {
            Seq::empty()
        }
    }
}

/// The nodes held as subgraph members once `n` is scanned, when `held` were
/// before: a node already held adds nothing, any other adds its subnodes.
pub open spec fn held_step(held: Seq<FlowchartNode>, n: FlowchartNode) -> Seq<FlowchartNode> {
    if has_node(held, n) {
        held
    } else {
        held + n@.subnodes
    }
}

/// The nodes that the first `k` nodes hold as subgraph members, scanning in
/// order.
pub open spec fn held_nodes(nodes: Seq<FlowchartNode>, k: int) -> Seq<FlowchartNode>
    decreases k,
{
    if k <= 0 || k > nodes.len() {
        Seq::empty()
    } else {
        held_step(held_nodes(nodes, k - 1), nodes[k - 1])
    }
}

/// The texts of the first `k` nodes that `held` does not hold, in order; a
/// subgraph leaves out the subnodes that a subgraph before it holds, so that
/// a node listed by several subgraphs is rendered once, in the first.
pub open spec fn top_nodes_text(nodes: Seq<FlowchartNode>, held: Seq<FlowchartNode>, depth: nat, k: int) -> Seq<char>
    decreases k,
{
    if k <= 0 || k > nodes.len() {
        Seq::empty()
    } else {
        top_nodes_text(nodes, held, depth, k - 1) + if has_node(held, nodes[k - 1]) {
            Seq::empty()
        } else {
            node_text_excluding(nodes[k - 1], depth, held_nodes(nodes, k - 1))
        }
    }
}

/// The text of a flowchart at depth `depth`: its configuration header, the
/// `flowchart` line, the classes that are used, the nodes that no subgraph
/// holds, and the edges, one level deeper.
pub open spec fn flowchart_text(
    d: DiagramView<FlowchartNode, FlowchartEdge, FlowchartConfiguration>,
    depth: nat,
) -> Seq<char> {
    d.configuration.header() + indent(depth) + "flowchart "@
        + d.configuration.config_view().direction.text() + "\n"@ + used_classes_text(
        d.style_classes,
        d.nodes,
        d.edges,
        child_depth(depth),
    ) + top_nodes_text(
        d.nodes,
        held_nodes(d.nodes, d.nodes.len() as int),
        child_depth(depth),
        d.nodes.len() as int,
    )
        + all_tabbed(d.edges, child_depth(depth))
}

/// The text of a flowchart depends on what the flowchart holds alone:
/// rendering one flowchart twice gives the same text.
pub proof fn lemma_flowchart_rendering_deterministic(a: &Flowchart, b: &Flowchart, depth: nat)
    requires
        a@ == b@,
    ensures
        a.tabbed(depth) == b.tabbed(depth),
{
}

fn contains_class(classes: &Vec<Rc<StyleClass>>, c: &StyleClass) -> (r: bool)
    ensures
        r == class_views(classes@).contains(c@),
{
    let mut i: usize = 0;
    while i < classes.len()
        invariant
            i <= classes.len(),
            forall|j: int| 0 <= j < i ==> (#[trigger] classes@[j])@ != c@,
        decreases classes.len() - i,
    {
        if classes[i].same_as(c) {
            assert(class_views(classes@)[i as int] == c@);
            return true;
        }
        i = i + 1;
    }
    assert forall|j: int| 0 <= j < class_views(classes@).len() implies class_views(classes@)[j]
        != c@ by {
        assert(class_views(classes@)[j] == classes@[j]@);
    }
    false
}

fn is_class_used(c: &StyleClass, nodes: &Vec<Rc<FlowchartNode>>, edges: &Vec<Rc<FlowchartEdge>>) -> (r: bool)
    ensures
        r == class_used(c@, node_seq(nodes@), node_seq(edges@)),
{
    let mut i: usize = 0;
    while i < nodes.len()
        invariant
            i <= nodes.len(),
            forall|j: int| 0 <= j < i ==> !(*#[trigger] nodes@[j]).node_view().classes.contains(c@),
        decreases nodes.len() - i,
    {
        if contains_class(nodes[i].classes(), c) {
            assert(node_seq(nodes@)[i as int] == *nodes@[i as int]);
            return true;
        }
        i = i + 1;
    }
    let mut k: usize = 0;
    while k < edges.len()
        invariant
            k <= edges.len(),
            forall|j: int| 0 <= j < nodes.len() ==> !(*#[trigger] nodes@[j]).node_view().classes.contains(c@),
            forall|j: int| 0 <= j < k ==> !(*#[trigger] edges@[j])@.classes.contains(c@),
        decreases edges.len() - k,
    {
        if contains_class(&edges[k].classes(), c) {
            assert(node_seq(edges@)[k as int] == *edges@[k as int]);
            return true;
        }
        k = k + 1;
    }
    assert forall|j: int| 0 <= j < node_seq(nodes@).len() implies !(#[trigger] node_seq(nodes@)[j]).node_view().classes.contains(c@) by {
        assert(node_seq(nodes@)[j] == *nodes@[j]);
    }
    assert forall|j: int| 0 <= j < node_seq(edges@).len() implies !(#[trigger] node_seq(edges@)[j])@.classes.contains(c@) by {
        assert(node_seq(edges@)[j] == *edges@[j]);
    }
    false
}

fn push_used_classes(
    out: &mut String,
    classes: &Vec<Rc<StyleClass>>,
    nodes: &Vec<Rc<FlowchartNode>>,
    edges: &Vec<Rc<FlowchartEdge>>,
    depth: usize,
)
    ensures
        final(out)@ == old(out)@ + used_classes_text(
            class_views(classes@),
            node_seq(nodes@),
            node_seq(edges@),
            depth as nat,
        ),
{
    let ghost start = out@;
    let ghost all = class_views(classes@);
    let mut i: usize = 0;
    while i < classes.len()
        invariant
            i <= classes.len(),
            all == class_views(classes@),
            out@ == start + used_classes_text(all.take(i as int), node_seq(nodes@), node_seq(edges@), depth as nat),
        decreases classes.len() - i,
    {
        assert(all[i as int] == classes@[i as int]@);
        if is_class_used(&classes[i], nodes, edges) {
            classes[i].fmt_tabbed(out, depth);
        }
        assert(all.take(i + 1).drop_last() =~= all.take(i as int));
        i = i + 1;
        assert(out@ =~= start + used_classes_text(all.take(i as int), node_seq(nodes@), node_seq(edges@), depth as nat));
    }
    assert(all.take(i as int) =~= all);
}

fn extend_held(held: &mut Vec<Rc<FlowchartNode>>, n: &FlowchartNode)
    ensures
        node_seq(final(held)@) == held_step(node_seq(old(held)@), *n),
{
    if contains_node(held, n) {
        return;
    }
    let subnodes = n.subnodes();
    let ghost before = node_seq(held@);
    let mut j: usize = 0;
    while j < subnodes.len()
        invariant
            j <= subnodes.len(),
            node_seq(held@) == before + node_seq(subnodes@).take(j as int),
        decreases subnodes.len() - j,
    {
        let member = Rc::clone(&subnodes[j]);
        assert(*member == node_seq(subnodes@)[j as int]);
        let ghost prev = held@;
        held.push(member);
        assert(node_seq(held@) =~= node_seq(prev).push(*member));
        assert(node_seq(subnodes@).take(j + 1) =~= node_seq(subnodes@).take(j as int).push(*member));
        j = j + 1;
    }
    assert(node_seq(subnodes@).take(j as int) =~= node_seq(subnodes@));
}

fn collect_held(nodes: &Vec<Rc<FlowchartNode>>) -> (r: Vec<Rc<FlowchartNode>>)
    ensures
        node_seq(r@) == held_nodes(node_seq(nodes@), nodes@.len() as int),
{
    let ghost all = node_seq(nodes@);
    let mut held: Vec<Rc<FlowchartNode>> = Vec::new();
    let mut i: usize = 0;
    assert(node_seq(held@) =~= held_nodes(all, 0));
    while i < nodes.len()
        invariant
            i <= nodes.len(),
            all == node_seq(nodes@),
            node_seq(held@) == held_nodes(all, i as int),
        decreases nodes.len() - i,
    {
        assert(all[i as int] == *nodes@[i as int]);
        extend_held(&mut held, &nodes[i]);
        i = i + 1;
    }
    held
}

fn push_top_nodes(out: &mut String, nodes: &Vec<Rc<FlowchartNode>>, held: &Vec<Rc<FlowchartNode>>, depth: usize)
    ensures
        final(out)@ == old(out)@ + top_nodes_text(
            node_seq(nodes@),
            node_seq(held@),
            depth as nat,
            nodes@.len() as int,
        ),
{
    let ghost start = out@;
    let ghost all = node_seq(nodes@);
    let mut claimed: Vec<Rc<FlowchartNode>> = Vec::new();
    assert(node_seq(claimed@) =~= held_nodes(all, 0));
    let mut i: usize = 0;
    while i < nodes.len()
        invariant
            i <= nodes.len(),
            all == node_seq(nodes@),
            node_seq(claimed@) == held_nodes(all, i as int),
            out@ == start + top_nodes_text(all, node_seq(held@), depth as nat, i as int),
        decreases nodes.len() - i,
    {
        assert(all[i as int] == *nodes@[i as int]);
        if !contains_node(held, &*nodes[i]) {
            push_node_excluding(&nodes[i], out, depth, &claimed);
        }
        extend_held(&mut claimed, &nodes[i]);
        i = i + 1;
    }
}

/// A flowchart.
#[derive(Clone, Debug, PartialEq, Eq, Hash)]
pub struct Flowchart {
    generic: GenericDiagram<FlowchartNode, FlowchartEdge, FlowchartConfiguration>,
}

impl View for Flowchart {
    type V = DiagramView<FlowchartNode, FlowchartEdge, FlowchartConfiguration>;

    closed spec fn view(&self) -> DiagramView<FlowchartNode, FlowchartEdge, FlowchartConfiguration> {
        self.generic@
    }
}

impl Flowchart {
    /// Returns the configuration.
    pub fn configuration(&self) -> (r: &FlowchartConfiguration)
        ensures
            *r == self@.configuration,
    {
        self.generic.configuration()
    }

    /// Returns the nodes, in insertion order.
    pub fn nodes(&self) -> (r: &Vec<Rc<FlowchartNode>>)
        ensures
            node_seq(r@) == self@.nodes,
    {
        self.generic.nodes()
    }

    /// Returns the edges, in insertion order.
    pub fn edges(&self) -> (r: &Vec<Rc<FlowchartEdge>>)
        ensures
            node_seq(r@) == self@.edges,
    {
        self.generic.edges()
    }

    /// Returns the style classes, in insertion order.
    pub fn style_classes(&self) -> (r: &Vec<Rc<StyleClass>>)
        ensures
            class_views(r@) == self@.style_classes,
    {
        self.generic.style_classes()
    }

    /// Returns the first node with identifier `id`.
    pub fn get_node_by_id(&self, id: u64) -> (r: Option<Rc<FlowchartNode>>)
        ensures
            match first_with_id(self@.nodes, id, 0) {
                Some(i) => r matches Some(n) && *n == self@.nodes[i],
                None => r is None,
            },
    {
        self.generic.get_node_by_id(id)
    }

    /// Returns the style class named `name`.
    pub fn get_style_class_by_name(&self, name: &str) -> (r: Option<Rc<StyleClass>>)
        ensures
            match first_named(self@.style_classes, name@, 0) {
                Some(i) => r matches Some(c) && c@ == self@.style_classes[i],
                None => r is None,
            },
    {
        self.generic.get_style_class_by_name(name)
    }

    /// Returns the text of the flowchart.
    pub fn to_string(&self) -> (r: String)
        ensures
            r@ == self.tabbed(0),
    {
        let mut out = String::new();
        self.fmt_tabbed(&mut out, 0);
        assert(out@ =~= self.tabbed(0));
        out
    }
}

impl TabbedDisplay for Flowchart {
    open spec fn tabbed(&self, depth: nat) -> Seq<char> {
        flowchart_text(self@, depth)
    }

    fn fmt_tabbed(&self, out: &mut String, depth: usize) {
        let configuration = self.generic.configuration();
        configuration.push_header(out);
        push_indent(out, depth);
        out.append("flowchart ");
        out.append(configuration.direction().as_str());
        out.append("\n");
        let child = if depth < usize::MAX {
            depth + 1
        } else {
            depth
        };
        push_used_classes(out, self.generic.style_classes(), self.generic.nodes(), self.generic.edges(), child);
        let held = collect_held(self.generic.nodes());
        push_top_nodes(out, self.generic.nodes(), &held, child);
        push_all_tabbed(out, self.generic.edges(), child);
        assert(final(out)@ =~= old(out)@ + self.tabbed(depth as nat));
    }
}

/// Builder of a flowchart; edges get the number of edges registered before
/// them as identifier.
#[derive(Clone, Debug, PartialEq, Eq, Hash)]
pub struct FlowchartBuilder {
    generic: GenericDiagramBuilder<FlowchartNode, FlowchartEdge, FlowchartConfiguration>,
}

impl View for FlowchartBuilder {
    type V = DiagramView<FlowchartNode, FlowchartEdge, FlowchartConfiguration>;

    closed spec fn view(&self) -> DiagramView<FlowchartNode, FlowchartEdge, FlowchartConfiguration> {
        self.generic@
    }
}

impl Default for FlowchartBuilder {
    fn default() -> (r: Self)
        ensures
            r@.wf(),
            r@.configuration@.generic == ConfigView::defaults(),
            r@.style_classes.len() == 0,
            r@.nodes.len() == 0,
            r@.edges.len() == 0,
    {
        FlowchartBuilder { generic: GenericDiagramBuilder::default() }
    }
}

impl From<FlowchartBuilder> for Flowchart {
    fn from(builder: FlowchartBuilder) -> (r: Flowchart) {
        Flowchart { generic: builder.generic.finish() }
    }
}

impl vstd::std_specs::convert::FromSpecImpl<FlowchartBuilder> for Flowchart {
    open spec fn obeys_from_spec() -> bool {
        true
    }

    closed spec fn from_spec(builder: FlowchartBuilder) -> Flowchart {
        Flowchart { generic: builder.generic.generic_diagram_spec() }
    }
}

/// `Flowchart::from` gives the flowchart of what the builder gathered.
pub proof fn lemma_flowchart_from(builder: FlowchartBuilder)
    ensures
        <Flowchart as vstd::std_specs::convert::FromSpec<FlowchartBuilder>>::from_spec(builder)@
            == builder@,
{
    builder.generic.lemma_generic_diagram_spec();
}

impl FlowchartBuilder {
    /// Finishes the flowchart: moves what was gathered, without further
    /// checks.
    pub fn finish(self) -> (r: Flowchart)
        ensures
            r@ == self@,
    {
        Flowchart { generic: self.generic.finish() }
    }

    /// Builds the configuration and puts it in place of the current one.
    pub fn configuration(self, configuration: FlowchartConfigurationBuilder) -> (r: Result<Self, Error>)
        ensures
            self@.wf() ==> (r matches Ok(d) ==> d@.wf()),
            r matches Ok(d) && d@.configuration@ == (FlowchartConfigurationView {
                generic: configuration@.generic,
                ..configuration@
            }),
            match configuration.spec_build() {
                Ok(c) => r matches Ok(d) && d@ == (DiagramView { configuration: c, ..self@ }),
                Err(e) => r == Err::<Self, Error>(Error::Config(e)),
            },
    {
        match self.generic.configuration(configuration) {
            Ok(generic) => Ok(FlowchartBuilder { generic }),
            Err(e) => Err(e),
        }
    }

    /// Builds the style class and registers it; see
    /// `GenericDiagramBuilder::style_class`.
    pub fn style_class(&mut self, style_class: StyleClassBuilder) -> (r: Result<Rc<StyleClass>, Error>)
        ensures
            old(self)@.wf() ==> final(self)@.wf(),
            match style_class@.build() {
                Err(e) => r == Err::<Rc<StyleClass>, Error>(Error::StyleClass(e)) && final(self)@
                    == old(self)@,
                Ok(c) => if has_class_named(old(self)@.style_classes, c.name) {
                    r matches Err(Error::StyleClass(StyleClassError::DuplicateClass(n))) && n@
                        == c.name && final(self)@ == old(self)@
                } else {
                    r matches Ok(sc) && sc@ == c && final(self)@ == (DiagramView {
                        style_classes: old(self)@.style_classes.push(c),
                        ..old(self)@
                    })
                },
            },
    {
        self.generic.style_class(style_class)
    }

    /// Builds the node and registers it; see `GenericDiagramBuilder::node`.
    pub fn node(&mut self, node: FlowchartNodeBuilder) -> (r: Result<Rc<FlowchartNode>, Error>)
        ensures
            old(self)@.wf() ==> final(self)@.wf(),
            match old(self)@.with_default_id(node).spec_build() {
                Err(e) => r == Err::<Rc<FlowchartNode>, Error>(Error::Node(e)) && final(self)@ == old(self)@,
                Ok(n) => match first_unregistered(
                    n.node_view().classes,
                    old(self)@.style_classes,
                    0,
                ) {
                    Some(i) => r matches Err(Error::StyleClass(StyleClassError::UnknownClass(c)))
                        && c@ == n.node_view().classes[i] && final(self)@ == old(self)@,
                    None => r matches Ok(rc) && *rc == n && final(self)@ == (DiagramView {
                        nodes: old(self)@.nodes.push(n),
                        ..old(self)@
                    }),
                },
            },
            r is Ok <==> old(self)@.node_build_error(node) is None && first_unregistered(
                node.base().classes,
                old(self)@.style_classes,
                0,
            ) is None,
            r matches Ok(n) ==> n.node_view().id == old(self)@.node_id(node)
                && Some(n.node_view().label) == node.base().label,
    {
        self.generic.node(node)
    }

    /// Builds the edge, with the number of edges registered so far as its
    /// identifier, and registers it; see `GenericDiagramBuilder::edge`.
    pub fn edge(&mut self, edge: FlowchartEdgeBuilder) -> (r: Result<Rc<FlowchartEdge>, Error>)
        ensures
            old(self)@.wf() ==> final(self)@.wf(),
            match edge.spec_with_id(old(self)@.edges.len() as usize).spec_build() {
                Err(e) => r == Err::<Rc<FlowchartEdge>, Error>(Error::Edge(e)) && final(self)@ == old(self)@,
                Ok(e) => if !has_node(old(self)@.nodes, e.spec_source()) {
                    r matches Err(Error::Edge(EdgeError::SourceNodeNotFound(l))) && l@
                        == e.spec_source().node_view().label && final(self)@ == old(self)@
                } else if !has_node(old(self)@.nodes, e.spec_destination()) {
                    r matches Err(Error::Edge(EdgeError::DestinationNodeNotFound(l))) && l@
                        == e.spec_destination().node_view().label && final(self)@ == old(self)@
                } else {
                    r matches Ok(rc) && *rc == e && final(self)@ == (DiagramView {
                        edges: old(self)@.edges.push(e),
                        ..old(self)@
                    })
                },
            },
            r is Ok <==> edge.extra_error() != Some(EdgeError::InvalidLength)
                && edge.base().build_error() is None && has_node(
                old(self)@.nodes,
                edge.base().source.unwrap(),
            ) && has_node(old(self)@.nodes, edge.base().destination.unwrap()),
            r matches Ok(e) ==> e@.id == old(self)@.edges.len(),
    {
        let count = self.generic.number_of_edges();
        let edge = edge.id(count);
        proof {
            edge.lemma_spec_build();
        }
        self.generic.edge(edge)
    }

    /// Returns the nodes registered so far, in insertion order.
    pub fn nodes(&self) -> (r: &Vec<Rc<FlowchartNode>>)
        ensures
            node_seq(r@) == self@.nodes,
    {
        self.generic.nodes()
    }

    /// Returns the first registered node with identifier `id`.
    pub fn get_node_by_id(&self, id: u64) -> (r: Option<Rc<FlowchartNode>>)
        ensures
            match first_with_id(self@.nodes, id, 0) {
                Some(i) => r matches Some(n) && *n == self@.nodes[i],
                None => r is None,
            },
    {
        self.generic.get_node_by_id(id)
    }

    /// Returns the registered style class named `name`.
    pub fn get_style_class_by_name(&self, name: &str) -> (r: Option<Rc<StyleClass>>)
        ensures
            match first_named(self@.style_classes, name@, 0) {
                Some(i) => r matches Some(c) && c@ == self@.style_classes[i],
                None => r is None,
            },
    {
        self.generic.get_style_class_by_name(name)
    }

    /// Returns the number of registered nodes.
    pub fn number_of_nodes(&self) -> (r: usize)
        ensures
            r == self@.nodes.len(),
    {
        self.generic.number_of_nodes()
    }

    /// Returns the number of registered edges.
    pub fn number_of_edges(&self) -> (r: usize)
        ensures
            r == self@.edges.len(),
    {
        self.generic.number_of_edges()
    }
}

} // verus!
