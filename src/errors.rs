//! The errors that building a diagram can report, by category, and the
//! error that unifies them.
use vstd::prelude::*;

use crate::arrow::ArrowShape;
use crate::style::{StyleClass, StyleProperty};

verus! {

/// Errors on the nodes of a diagram.
#[derive(Clone, Debug, PartialEq, Eq, Hash)]
pub enum NodeError {
    /// The node label is empty.
    EmptyLabel,
    /// The node identifier is empty.
    EmptyId,
    /// The node identifier holds characters that are not allowed.
    InvalidId(String),
    /// The node, named by its label, is already present.
    DuplicateNode(String),
    /// No identifier was set.
    MissingId,
    /// No label was set.
    MissingLabel,
    /// A subgraph direction was set on a node without subnodes.
    MissingSubnodes,
}

/// Errors on the edges of a diagram.
#[derive(Clone, Debug, PartialEq, Eq, Hash)]
pub enum EdgeError {
    /// The edge label is empty.
    EmptyLabel,
    /// The node type does not accept this arrow shape on the left.
    IncompatibleLeftArrowShape(ArrowShape),
    /// The node type does not accept this arrow shape on the right.
    IncompatibleRightArrowShape(ArrowShape),
    /// The source node, named by its label, is not in the diagram.
    SourceNodeNotFound(String),
    /// The destination node, named by its label, is not in the diagram.
    DestinationNodeNotFound(String),
    /// No source node was set.
    MissingSource,
    /// No destination node was set.
    MissingDestination,
    /// No edge identifier was set.
    MissingId,
    /// The edge length is zero.
    InvalidLength,
}

/// Errors on the configuration of a diagram.
#[derive(Copy, Clone, Debug, PartialEq, Eq, Structural, Hash)]
pub enum ConfigError {
    /// The title is empty.
    EmptyTitle,
}

/// Errors on style classes.
#[derive(Clone, Debug, PartialEq, Eq, Hash)]
pub enum StyleClassError {
    /// The name of the style class is empty.
    EmptyName,
    /// A style class of this name is already present.
    DuplicateClass(String),
    /// A property of the same kind is already present.
    DuplicateProperty(StyleProperty),
    /// The style class is not registered in the diagram.
    UnknownClass(StyleClass),
    /// No name was set.
    MissingName,
    /// No property was added.
    MissingProperties,
}

/// Any error that building a diagram can report, by category.
#[derive(Clone, Debug, PartialEq, Eq, Hash)]
pub enum Error {
    /// An error on a node.
    Node(NodeError),
    /// An error on an edge.
    Edge(EdgeError),
    /// An error on the configuration.
    Config(ConfigError),
    /// An error on a style class.
    StyleClass(StyleClassError),
}

} // verus!
