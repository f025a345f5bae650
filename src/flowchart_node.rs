//! Nodes of flowcharts: a shape, an optional click event, and, for a
//! subgraph, the nodes it holds and its direction.
use std::rc::Rc;
use vstd::prelude::*;

use crate::arrow::ArrowShape;
use crate::config::Direction;
use crate::diagram::{contains_node, has_node, node_seq};
use crate::errors::{NodeError, StyleClassError};
use crate::flowchart_shape::FlowchartNodeShape;
use crate::navigation::{click_line, click_view, same_click, ClickEvent};
use crate::node::{
    GenericNode, GenericNodeBuilder, Node, NodeBuilder, NodeBuilderView, NodeView,
};
use crate::style::{class_lines, push_class_lines, push_style_line, style_line, StyleClass, StyleProperty};
use crate::text::{child_depth, indent, node_ref, push_indent, push_node_ref};
use crate::TabbedDisplay;

verus! {

/// What a flowchart node holds.
pub struct FlowchartNodeView {
    pub node: NodeView,
    pub click_event: Option<ClickEvent>,
    pub shape: FlowchartNodeShape,
    pub subnodes: Seq<FlowchartNode>,
    pub direction: Option<Direction>,
}

/// A node of a flowchart; a subgraph when it holds subnodes.
#[derive(Clone, Debug, PartialEq, Eq, Hash)]
pub struct FlowchartNode {
    node: GenericNode,
    click_event: Option<ClickEvent>,
    shape: FlowchartNodeShape,
    subnodes: Vec<Rc<FlowchartNode>>,
    direction: Option<Direction>,
}

impl View for FlowchartNode {
    type V = FlowchartNodeView;

    closed spec fn view(&self) -> FlowchartNodeView {
        FlowchartNodeView {
            node: self.node.node_view(),
            click_event: self.click_event,
            shape: self.shape,
            subnodes: node_seq(self.subnodes@),
            direction: self.direction,
        }
    }
}

/// The `direction` line of a subgraph, if it has a direction.
pub open spec fn direction_line(prefix: Seq<char>, direction: Option<Direction>) -> Seq<char> {
    match direction {
        Some(d) => prefix + "    direction "@ + d.text() + "\n"@,
        None => Seq::empty(),
    }
}

/// The line of a node that is no subgraph, with its click and class lines.
pub open spec fn leaf_text(n: FlowchartNodeView, depth: nat) -> Seq<char> {
    let target = node_ref(n.node.id);
    indent(depth) + target + "@{shape: "@ + n.shape.text() + ", label: \""@ + n.node.label
        + "\"}\n"@ + click_line(indent(depth), target, n.click_event) + class_lines(
        indent(depth),
        "class "@,
        target,
        n.node.classes,
    )
}

/// The opening line of a subgraph, with its direction line.
pub open spec fn subgraph_open(n: FlowchartNodeView, depth: nat) -> Seq<char> {
    indent(depth) + "subgraph "@ + node_ref(n.node.id) + " [\"`"@ + n.node.label + "`\"]\n"@
        + direction_line(indent(depth), n.direction)
}

/// The text of a flowchart node at depth `depth`, leaving out of its
/// subgraph block the subnodes that `excluded` holds, stated over what the
/// node holds: a node line with its click and class lines when it has no
/// subnodes, else a subgraph block holding its other subnodes one level
/// deeper, each in full; then its style line.
pub open spec fn node_text_of(n: FlowchartNodeView, depth: nat, excluded: Seq<FlowchartNode>) -> Seq<
    char,
> {
    (if n.subnodes.len() == 0 {
        leaf_text(n, depth)
    } else {
        subgraph_open(n, depth) + subnodes_text_of(
            n.subnodes,
            child_depth(depth),
            excluded,
            n.subnodes.len() as int,
        ) + indent(depth) + "end\n"@
    }) + style_line(indent(depth), "style "@, node_ref(n.node.id), n.node.styles)
}

/// The texts of those of the first `k` of `subnodes` that `excluded` does not
/// hold, in order, each in full at depth `depth`.
pub open spec fn subnodes_text_of(
    subnodes: Seq<FlowchartNode>,
    depth: nat,
    excluded: Seq<FlowchartNode>,
    k: int,
) -> Seq<char>
    decreases k,
{
    if k <= 0 || k > subnodes.len() {
        Seq::empty()
    } else {
        subnodes_text_of(subnodes, depth, excluded, k - 1) + if has_node(
            excluded,
            subnodes[k - 1],
        ) {
            Seq::empty()
        } else {
            flowchart_node_text(subnodes[k - 1], depth)
        }
    }
}

/// The text of a flowchart node at depth `depth`, leaving out of its
/// subgraph block the subnodes that `excluded` holds: a node line with its
/// click and class lines, or a subgraph block holding its other subnodes one
/// level deeper, each in full; then its style line.
pub closed spec fn node_text_excluding(n: FlowchartNode, depth: nat, excluded: Seq<FlowchartNode>) -> Seq<char>
    decreases n,
{
    (if n.subnodes@.len() == 0 {
        leaf_text(n@, depth)
    } else {
        subgraph_open(n@, depth) + subnodes_text(
            n.subnodes@,
            child_depth(depth),
            n.subnodes@.len() as int,
            excluded,
        ) + indent(depth) + "end\n"@
    }) + style_line(indent(depth), "style "@, node_ref(n.node.node_view().id), n.node.node_view().styles)
}

/// The text of those of the first `k` subnodes that `excluded` does not hold,
/// in order, at depth `depth`.
pub closed spec fn subnodes_text(
    subnodes: Seq<Rc<FlowchartNode>>,
    depth: nat,
    k: int,
    excluded: Seq<FlowchartNode>,
) -> Seq<char>
    decreases subnodes, k,
{
    if k <= 0 || k > subnodes.len() {
        Seq::empty()
    } else {
        subnodes_text(subnodes, depth, k - 1, excluded) + if has_node(
            excluded,
            *subnodes[k - 1],
        ) {
            Seq::empty()
        } else {
            node_text_excluding(*subnodes[k - 1], depth, Seq::empty())
        }
    }
}

/// The text of a flowchart node at depth `depth`, with all its subnodes.
pub open spec fn flowchart_node_text(n: FlowchartNode, depth: nat) -> Seq<char> {
    node_text_excluding(n, depth, Seq::empty())
}

proof fn lemma_subnodes_text(
    subnodes: Seq<Rc<FlowchartNode>>,
    depth: nat,
    k: int,
    excluded: Seq<FlowchartNode>,
)
    requires
        0 <= k <= subnodes.len(),
    ensures
        subnodes_text(subnodes, depth, k, excluded) == subnodes_text_of(
            node_seq(subnodes),
            depth,
            excluded,
            k,
        ),
    decreases k,
{
    if k > 0 {
        lemma_subnodes_text(subnodes, depth, k - 1, excluded);
        assert(node_seq(subnodes)[k - 1] == *subnodes[k - 1]);
    }
}

/// The text of a flowchart node is that of what it holds: `node_text_of`
/// over its view.
pub proof fn lemma_node_text(n: FlowchartNode, depth: nat, excluded: Seq<FlowchartNode>)
    ensures
        node_text_excluding(n, depth, excluded) == node_text_of(n@, depth, excluded),
{
    lemma_subnodes_text(n.subnodes@, child_depth(depth), n.subnodes@.len() as int, excluded);
}

fn push_leaf(n: &FlowchartNode, out: &mut String, depth: usize, target: &str)
    requires
        target@ == node_ref(n.node.node_view().id),
    ensures
        final(out)@ == old(out)@ + leaf_text(n@, depth as nat),
{
    push_indent(out, depth);
    out.append(target);
    out.append("@{shape: ");
    out.append(n.shape.as_str());
    out.append(", label: \"");
    out.append(n.node.label());
    out.append("\"}\n");
    let ghost mid = out@;
    match &n.click_event {
        Some(e) => {
            push_indent(out, depth);
            out.append("click ");
            out.append(target);
            out.append(" ");
            e.push_text(out);
            out.append("\n");
        },
        None => {},
    }
    assert(out@ =~= mid + click_line(indent(depth as nat), target@, n.click_event));
    push_class_lines(out, depth, "class ", target, n.node.classes());
    assert(final(out)@ =~= old(out)@ + leaf_text(n@, depth as nat));
}

fn push_subgraph_open(n: &FlowchartNode, out: &mut String, depth: usize, target: &str)
    requires
        target@ == node_ref(n.node.node_view().id),
    ensures
        final(out)@ == old(out)@ + subgraph_open(n@, depth as nat),
{
    push_indent(out, depth);
    out.append("subgraph ");
    out.append(target);
    out.append(" [\"`");
    out.append(n.node.label());
    out.append("`\"]\n");
    match n.direction {
        Some(d) => {
            push_indent(out, depth);
            out.append("    direction ");
            out.append(d.as_str());
            out.append("\n");
        },
        None => {},
    }
    assert(final(out)@ =~= old(out)@ + subgraph_open(n@, depth as nat));
}

/// Appends the text of `n` at depth `depth`, leaving out of its subgraph
/// block the subnodes that `excluded` holds.
pub fn push_node_excluding(
    n: &FlowchartNode,
    out: &mut String,
    depth: usize,
    excluded: &Vec<Rc<FlowchartNode>>,
)
    ensures
        final(out)@ == old(out)@ + node_text_excluding(*n, depth as nat, node_seq(excluded@)),
    decreases *n,
{
    let id = n.node.id();
    let mut target = String::new();
    push_node_ref(&mut target, id);
    assert(target@ =~= node_ref(id));
    if n.subnodes.len() == 0 {
        push_leaf(n, out, depth, target.as_str());
    } else {
        push_subgraph_open(n, out, depth, target.as_str());
        let child = if depth < usize::MAX {
            depth + 1
        } else {
            depth
        };
        let none: Vec<Rc<FlowchartNode>> = Vec::new();
        assert(node_seq(none@) =~= Seq::<FlowchartNode>::empty());
        let ghost before = out@;
        let mut i: usize = 0;
        while i < n.subnodes.len()
            invariant
                i <= n.subnodes.len(),
                child as nat == child_depth(depth as nat),
                node_seq(none@) == Seq::<FlowchartNode>::empty(),
                out@ == before + subnodes_text(
                    n.subnodes@,
                    child as nat,
                    i as int,
                    node_seq(excluded@),
                ),
            decreases n.subnodes.len() - i,
        {
            assert(decreases_to!(*n => n.subnodes));
            if !contains_node(excluded, &*n.subnodes[i]) {
                push_node_excluding(&n.subnodes[i], out, child, &none);
            }
            i = i + 1;
            assert(out@ =~= before + subnodes_text(
                n.subnodes@,
                child as nat,
                i as int,
                node_seq(excluded@),
            ));
        }
        push_indent(out, depth);
        out.append("end\n");
    }
    push_style_line(out, depth, "style ", target.as_str(), n.node.styles());
    assert(final(out)@ =~= old(out)@ + node_text_excluding(*n, depth as nat, node_seq(excluded@)));
}

/// Whether two flowchart nodes are equal in every field, their subnodes
/// compared the same way, one for one.
pub closed spec fn same_tree(a: FlowchartNode, b: FlowchartNode) -> bool
    decreases a,
{
    a.node.node_view() == b.node.node_view() && click_view(a.click_event) == click_view(
        b.click_event,
    ) && a.shape == b.shape && a.direction == b.direction && a.subnodes@.len()
        == b.subnodes@.len() && same_subtrees(a.subnodes@, b.subnodes@, a.subnodes@.len() as int)
}

/// Whether the first `k` subnodes of `s` and `t` are the same, one for one.
pub closed spec fn same_subtrees(s: Seq<Rc<FlowchartNode>>, t: Seq<Rc<FlowchartNode>>, k: int) -> bool
    decreases s, k,
{
    if k <= 0 {
        true
    } else if k > s.len() || k > t.len() {
        false
    } else {
        same_subtrees(s, t, k - 1) && same_tree(*s[k - 1], *t[k - 1])
    }
}

proof fn lemma_same_tree_reflexive(a: &FlowchartNode)
    ensures
        same_tree(*a, *a),
    decreases *a,
{
    lemma_same_subtrees_reflexive(a.subnodes@, a.subnodes@.len() as int);
}

proof fn lemma_same_subtrees_reflexive(s: Seq<Rc<FlowchartNode>>, k: int)
    requires
        0 <= k <= s.len(),
    ensures
        same_subtrees(s, s, k),
    decreases s, k,
{
    if k > 0 {
        lemma_same_subtrees_reflexive(s, k - 1);
        lemma_same_tree_reflexive(&*s[k - 1]);
    }
}

proof fn lemma_same_subtrees_prefix(s: Seq<Rc<FlowchartNode>>, t: Seq<Rc<FlowchartNode>>, j: int, k: int)
    requires
        0 <= j <= k,
        same_subtrees(s, t, k),
    ensures
        same_subtrees(s, t, j),
    decreases k,
{
    if j < k {
        lemma_same_subtrees_prefix(s, t, j, k - 1);
    }
}

fn same_direction(a: Option<Direction>, b: Option<Direction>) -> (r: bool)
    ensures
        r == (a == b),
{
    match (a, b) {
        (Some(x), Some(y)) => x == y,
        (None, None) => true,
        _ => false,
    }
}

fn same_tree_exec(a: &FlowchartNode, b: &FlowchartNode) -> (r: bool)
    ensures
        r == same_tree(*a, *b),
    decreases *a,
{
    if !a.node.same_node(&b.node) || !same_click(&a.click_event, &b.click_event) || a.shape
        != b.shape || !same_direction(a.direction, b.direction) || a.subnodes.len()
        != b.subnodes.len() {
        return false;
    }
    let mut i: usize = 0;
    while i < a.subnodes.len()
        invariant
            i <= a.subnodes.len(),
            a.subnodes.len() == b.subnodes.len(),
            same_subtrees(a.subnodes@, b.subnodes@, i as int),
        decreases a.subnodes.len() - i,
    {
        assert(decreases_to!(*a => a.subnodes));
        if !same_tree_exec(&a.subnodes[i], &b.subnodes[i]) {
            proof {
                if same_subtrees(a.subnodes@, b.subnodes@, a.subnodes@.len() as int) {
                    lemma_same_subtrees_prefix(
                        a.subnodes@,
                        b.subnodes@,
                        i + 1,
                        a.subnodes@.len() as int,
                    );
                }
            }
            return false;
        }
        i = i + 1;
    }
    true
}

impl TabbedDisplay for FlowchartNode {
    open spec fn tabbed(&self, depth: nat) -> Seq<char> {
        flowchart_node_text(*self, depth)
    }

    fn fmt_tabbed(&self, out: &mut String, depth: usize) {
        let none: Vec<Rc<FlowchartNode>> = Vec::new();
        assert(node_seq(none@) =~= Seq::<FlowchartNode>::empty());
        push_node_excluding(self, out, depth, &none);
    }
}

impl FlowchartNode {
    /// Returns the subnodes, in insertion order.
    pub fn subnodes(&self) -> (r: &Vec<Rc<FlowchartNode>>)
        ensures
            node_seq(r@) == self@.subnodes,
    {
        &self.subnodes
    }

    /// Returns the shape.
    pub fn shape(&self) -> (r: FlowchartNodeShape)
        ensures
            r == self@.shape,
    {
        self.shape
    }

    /// Returns the click event, if any.
    pub fn click_event(&self) -> (r: &Option<ClickEvent>)
        ensures
            *r == self@.click_event,
    {
        &self.click_event
    }

    /// Returns the direction of the subgraph, if set.
    pub fn direction(&self) -> (r: Option<Direction>)
        ensures
            r == self@.direction,
    {
        self.direction
    }

    /// Returns the text of the node at depth 0.
    pub fn to_string(&self) -> (r: String)
        ensures
            r@ == self.tabbed(0),
    {
        let mut out = String::new();
        self.fmt_tabbed(&mut out, 0);
        assert(out@ =~= self.tabbed(0));
        out
    }
}

impl Node for FlowchartNode {
    open spec fn node_view(&self) -> NodeView {
        self@.node
    }

    /// Flowchart edges end in a normal arrow head, a circle or a cross.
    open spec fn accepts_shape(shape: ArrowShape) -> bool {
        shape == ArrowShape::Normal || shape == ArrowShape::Circle || shape == ArrowShape::X
    }

    fn id(&self) -> (r: u64) {
        self.node.id()
    }

    fn label(&self) -> (r: &str) {
        self.node.label()
    }

    fn classes(&self) -> (r: &Vec<Rc<StyleClass>>) {
        self.node.classes()
    }

    fn styles(&self) -> (r: &Vec<StyleProperty>) {
        self.node.styles()
    }

    fn is_compatible_arrow_shape(shape: ArrowShape) -> (r: bool) {
        shape == ArrowShape::Normal || shape == ArrowShape::Circle || shape == ArrowShape::X
    }

    /// The same node: equal common fields, click event, shape and
    /// direction, and subnodes that are the same, one for one.
    open spec fn is_same(&self, other: &Self) -> bool {
        same_tree(*self, *other)
    }

    proof fn lemma_is_same(&self, other: &Self) {
        lemma_same_tree_reflexive(self);
    }

    fn same_node(&self, other: &Self) -> (r: bool) {
        same_tree_exec(self, other)
    }
}

/// Whether the identifiers of `subnodes` never decrease.
pub open spec fn sorted_by_id(subnodes: Seq<FlowchartNode>) -> bool {
    forall|i: int, j: int|
        0 <= i < j < subnodes.len() ==> (#[trigger] subnodes[i]).node_view().id <= (
        #[trigger] subnodes[j]).node_view().id
}

/// The position, from `i` on, of the first of `subnodes` whose identifier is
/// greater than `id`, or the length when there is none: where a subnode with
/// identifier `id` goes, after those whose identifiers are not greater.
pub open spec fn insert_position(subnodes: Seq<FlowchartNode>, id: u64, i: nat) -> nat
    decreases subnodes.len() - i,
{
    if i >= subnodes.len() {
        subnodes.len()
    } else if subnodes[i as int].node_view().id > id {
        i
    } else {
        insert_position(subnodes, id, i + 1)
    }
}

proof fn lemma_insert_position(subnodes: Seq<FlowchartNode>, id: u64, i: nat)
    requires
        i <= subnodes.len(),
    ensures
        i <= insert_position(subnodes, id, i) <= subnodes.len(),
        forall|k: int|
            i <= k < insert_position(subnodes, id, i) ==> (#[trigger] subnodes[k]).node_view().id
                <= id,
        insert_position(subnodes, id, i) < subnodes.len() ==> subnodes[insert_position(
            subnodes,
            id,
            i,
        ) as int].node_view().id > id,
    decreases subnodes.len() - i,
{
    if i < subnodes.len() && subnodes[i as int].node_view().id <= id {
        lemma_insert_position(subnodes, id, i + 1);
    }
}

/// Inserting a subnode where `insert_position` says keeps the identifiers in
/// order.
proof fn lemma_insert_sorted(subnodes: Seq<FlowchartNode>, shared: Rc<FlowchartNode>)
    requires
        sorted_by_id(subnodes),
    ensures
        sorted_by_id(
            subnodes.insert(insert_position(subnodes, shared.node_view().id, 0) as int, *shared),
        ),
{
    let n = *shared;
    let id = n.node_view().id;
    let p = insert_position(subnodes, id, 0) as int;
    lemma_insert_position(subnodes, id, 0);
    let all = subnodes.insert(p, n);
    assert forall|i: int, j: int| 0 <= i < j < all.len() implies (#[trigger] all[i]).node_view().id
        <= (#[trigger] all[j]).node_view().id by {
        if j < p {
            assert(all[i] == subnodes[i] && all[j] == subnodes[j]);
        } else if j == p {
            assert(all[i] == subnodes[i]);
        } else if i < p {
            assert(all[i] == subnodes[i] && all[j] == subnodes[j - 1]);
        } else if i == p {
            assert(all[j] == subnodes[j - 1]);
            assert(subnodes[p].node_view().id > id);
        } else {
            assert(all[i] == subnodes[i - 1] && all[j] == subnodes[j - 1]);
        }
    }
}

/// What a flowchart node builder holds.
pub struct FlowchartNodeBuilderView {
    pub base: NodeBuilderView,
    pub click_event: Option<ClickEvent>,
    pub shape: FlowchartNodeShape,
    pub subnodes: Seq<FlowchartNode>,
    pub direction: Option<Direction>,
}

/// Validating builder of a `FlowchartNode`.
#[derive(Clone, Debug, PartialEq, Eq, Hash)]
pub struct FlowchartNodeBuilder {
    builder: GenericNodeBuilder,
    click_event: Option<ClickEvent>,
    shape: FlowchartNodeShape,
    subnodes: Vec<Rc<FlowchartNode>>,
    direction: Option<Direction>,
}

impl View for FlowchartNodeBuilder {
    type V = FlowchartNodeBuilderView;

    closed spec fn view(&self) -> FlowchartNodeBuilderView {
        FlowchartNodeBuilderView {
            base: self.builder.base(),
            click_event: self.click_event,
            shape: self.shape,
            subnodes: node_seq(self.subnodes@),
            direction: self.direction,
        }
    }
}

impl Default for FlowchartNodeBuilder {
    fn default() -> (r: Self)
        ensures
            r@ == (FlowchartNodeBuilderView {
                base: NodeBuilderView::empty(),
                click_event: None,
                shape: FlowchartNodeShape::Rectangle,
                subnodes: Seq::empty(),
                direction: None,
            }),
    {
        let r = FlowchartNodeBuilder {
            builder: GenericNodeBuilder::default(),
            click_event: None,
            shape: FlowchartNodeShape::Rectangle,
            subnodes: Vec::new(),
            direction: None,
        };
        assert(r@.subnodes =~= Seq::<FlowchartNode>::empty());
        r
    }
}

impl FlowchartNodeBuilder {
    /// Sets the click event.
    pub fn click_event(self, click_event: ClickEvent) -> (r: Self)
        ensures
            r@ == (FlowchartNodeBuilderView { click_event: Some(click_event), ..self@ }),
    {
        FlowchartNodeBuilder { click_event: Some(click_event), ..self }
    }

    /// Sets the shape.
    pub fn shape(self, shape: FlowchartNodeShape) -> (r: Self)
        ensures
            r@ == (FlowchartNodeBuilderView { shape, ..self@ }),
    {
        FlowchartNodeBuilder { shape, ..self }
    }

    /// Adds a subnode, after those whose identifiers are not greater and
    /// before the others.
    ///
    /// Fails with `DuplicateNode`, naming its label, when the same node is
    /// already a subnode.
    pub fn subnode(self, subnode: Rc<FlowchartNode>) -> (r: Result<Self, NodeError>)
        ensures
            has_node(self@.subnodes, *subnode) ==> (r matches Err(
                NodeError::DuplicateNode(l),
            ) && l@ == subnode.node_view().label),
            !has_node(self@.subnodes, *subnode) ==> (r matches Ok(b) && b@ == (
            FlowchartNodeBuilderView {
                subnodes: self@.subnodes.insert(
                    insert_position(self@.subnodes, subnode.node_view().id, 0) as int,
                    *subnode,
                ),
                ..self@
            })),
            sorted_by_id(self@.subnodes) ==> (r matches Ok(b) ==> sorted_by_id(b@.subnodes)),
    {
        if contains_node(&self.subnodes, &*subnode) {
            return Err(NodeError::DuplicateNode(subnode.label().to_owned()));
        }
        let id = subnode.id();
        let ghost all = node_seq(self.subnodes@);
        let ghost shared = subnode;
        proof {
            lemma_insert_position(all, id, 0);
        }
        let mut position: usize = 0;
        while position < self.subnodes.len() && self.subnodes[position].id() <= id
            invariant
                position <= self.subnodes.len(),
                all == node_seq(self.subnodes@),
                insert_position(all, id, 0) == insert_position(all, id, position as nat),
            decreases self.subnodes.len() - position,
        {
            assert(all[position as int] == *self.subnodes@[position as int]);
            position = position + 1;
        }
        proof {
            if position < self.subnodes.len() {
                assert(all[position as int] == *self.subnodes@[position as int]);
            }
            assert(insert_position(all, id, 0) == position);
            if sorted_by_id(all) {
                lemma_insert_sorted(all, shared);
            }
        }
        let mut subnodes = self.subnodes;
        subnodes.insert(position, subnode);
        proof {
            assert(node_seq(subnodes@) =~= all.insert(position as int, *subnode));
        }
        Ok(FlowchartNodeBuilder { subnodes, ..self })
    }

    /// Returns whether the node being built is a subgraph: it has subnodes.
    pub fn is_subgraph(&self) -> (r: bool)
        ensures
            r == (self@.subnodes.len() > 0),
    {
        self.subnodes.len() > 0
    }

    /// Sets the direction of the subgraph.
    pub fn direction(self, direction: Direction) -> (r: Self)
        ensures
            r@ == (FlowchartNodeBuilderView { direction: Some(direction), ..self@ }),
    {
        FlowchartNodeBuilder { direction: Some(direction), ..self }
    }

    /// Returns the direction of the subgraph, if set.
    pub fn get_direction(&self) -> (r: Option<Direction>)
        ensures
            r == self@.direction,
    {
        self.direction
    }

    /// Removes the direction of the subgraph.
    pub fn reset_direction(self) -> (r: Self)
        ensures
            r@ == (FlowchartNodeBuilderView { direction: None, ..self@ }),
    {
        FlowchartNodeBuilder { direction: None, ..self }
    }
}

impl NodeBuilder for FlowchartNodeBuilder {
    type Node = FlowchartNode;

    open spec fn base(&self) -> NodeBuilderView {
        self@.base
    }

    /// A direction without subnodes is refused before the common fields are
    /// looked at.
    open spec fn extra_error(&self) -> Option<NodeError> {
        if self@.direction is Some && self@.subnodes.len() == 0 {
            Some(NodeError::MissingSubnodes)
        } else {
            None
        }
    }

    open spec fn same_extras(&self, other: &Self) -> bool {
        self@.click_event == other@.click_event && self@.shape == other@.shape
            && self@.subnodes == other@.subnodes && self@.direction == other@.direction
    }

    open spec fn keeps_extras(&self, n: &FlowchartNode) -> bool {
        n@.click_event == self@.click_event && n@.shape == self@.shape && n@.subnodes
            == self@.subnodes && n@.direction == self@.direction
    }

    closed spec fn spec_with_id(&self, id: u64) -> Self {
        FlowchartNodeBuilder { builder: self.builder.spec_with_id(id), ..*self }
    }

    closed spec fn spec_build(&self) -> Result<FlowchartNode, NodeError> {
        if self.direction is Some && self.subnodes@.len() == 0 {
            Err(NodeError::MissingSubnodes)
        } else {
            match self.builder.spec_build() {
                Ok(node) => Ok(
                    FlowchartNode {
                        node,
                        click_event: self.click_event,
                        shape: self.shape,
                        subnodes: self.subnodes,
                        direction: self.direction,
                    },
                ),
                Err(e) => Err(e),
            }
        }
    }

    proof fn lemma_spec_with_id(&self, id: u64) {
        self.builder.lemma_spec_with_id(id);
    }

    proof fn lemma_spec_build(&self) {
        self.builder.lemma_spec_build();
    }

    fn build(self) -> (r: Result<FlowchartNode, NodeError>) {
        proof {
            self.builder.lemma_spec_build();
        }
        if self.direction.is_some() && self.subnodes.len() == 0 {
            return Err(NodeError::MissingSubnodes);
        }
        match self.builder.build() {
            Ok(node) => Ok(
                FlowchartNode {
                    node,
                    click_event: self.click_event,
                    shape: self.shape,
                    subnodes: self.subnodes,
                    direction: self.direction,
                },
            ),
            Err(e) => Err(e),
        }
    }

    fn id(self, id: u64) -> (r: Self) {
        FlowchartNodeBuilder { builder: self.builder.id(id), ..self }
    }

    fn get_id(&self) -> (r: Option<u64>) {
        self.builder.get_id()
    }

    fn label(self, label: &str) -> (r: Result<Self, NodeError>) {
        match self.builder.label(label) {
            Ok(builder) => Ok(FlowchartNodeBuilder { builder, ..self }),
            Err(e) => Err(e),
        }
    }

    fn get_label(&self) -> (r: Option<&String>) {
        self.builder.get_label()
    }

    fn style_class(self, style_class: Rc<StyleClass>) -> (r: Result<Self, StyleClassError>) {
        match self.builder.style_class(style_class) {
            Ok(builder) => Ok(FlowchartNodeBuilder { builder, ..self }),
            Err(e) => Err(e),
        }
    }

    fn style_property(self, property: StyleProperty) -> (r: Result<Self, StyleClassError>) {
        match self.builder.style_property(property) {
            Ok(builder) => Ok(FlowchartNodeBuilder { builder, ..self }),
            Err(e) => Err(e),
        }
    }

    fn style_properties(&self) -> (r: &Vec<StyleProperty>) {
        self.builder.style_properties()
    }
}

} // verus!
