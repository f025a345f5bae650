//! The shapes of flowchart nodes, their names in the text, and the names
//! they are recognised by.
use vstd::prelude::*;

use crate::text::{eq_ignore_case, matches_lower};

verus! {

/// The shape of a flowchart node.
#[derive(Copy, Clone, Debug, PartialEq, Eq, Structural, Hash)]
pub enum FlowchartNodeShape {
    /// Standard process shape.
    Rectangle,
    /// Represents an event.
    RoundEdges,
    /// Terminal point.
    StadiumShape,
    /// Subprocess.
    Subprocess,
    /// Database storage.
    Cylinder,
    /// Starting point.
    Circle,
    /// Odd shape.
    Odd,
    /// Decision-making step.
    Diamond,
    /// Preparation or condition step.
    Hexagon,
    /// Input or output (lean right parallelogram).
    LRParallelogram,
    /// Output or input (lean left parallelogram).
    LLParallelogram,
    /// Priority action (base bottom trapezoid).
    Trapezoid,
    /// Manual task (base top trapezoid).
    ReverseTrapezoid,
    /// Stop point.
    DoubleCircle,
    /// Card.
    NotchedRectangle,
    /// Lined or shaded process.
    Linedrectangle,
    /// Small starting point.
    SmallCircle,
    /// Stop point (framed circle).
    FramedCircle,
    /// Fork or join in a process flow.
    LongRectangle,
    /// Collate operation.
    Hourglass,
    /// Comment (left curly brace).
    LeftCurlyBrace,
    /// Comment (right curly brace).
    RightCurlyBrace,
    /// Comment (braces on both sides).
    CurlyBraces,
    /// Communication link.
    LightningBolt,
    /// Document.
    Document,
    /// Delay.
    HalfRoundedRectangle,
    /// Direct access storage.
    HorizontalCylinder,
    /// Disk storage.
    LinedCylinder,
    /// Display.
    CurvedTrapezoid,
    /// Divided process.
    DividedRectangle,
    /// Extraction process.
    SmallTriangle,
    /// Internal storage.
    WindowPane,
    /// Junction point.
    FilledCircle,
    /// Lined document.
    LinedDocument,
    /// Loop limit step.
    NotchedPentagon,
    /// Manual file operation.
    FlippedTriangle,
    /// Manual input step.
    SlopedRectangle,
    /// Multiple documents.
    StackedDocument,
    /// Multiple processes.
    StackedRectangle,
    /// Paper tape.
    Flag,
    /// Stored data.
    BowTieRectangle,
    /// Summary.
    CrossedCircle,
    /// Tagged document.
    TaggedDocument,
    /// Tagged process.
    TaggedRectangle,
    /// Framed rectangle.
    FramedRectangle,
    /// Text block.
    TextBlock,
}

impl Default for FlowchartNodeShape {
    fn default() -> (r: Self)
        ensures
            r == FlowchartNodeShape::Rectangle,
    {
        FlowchartNodeShape::Rectangle
    }
}

impl FlowchartNodeShape {
    /// The name of the shape in the text.
    pub open spec fn text(self) -> Seq<char> {
        match self {
            FlowchartNodeShape::Rectangle => "rect"@,
            FlowchartNodeShape::RoundEdges => "rounded"@,
            FlowchartNodeShape::StadiumShape => "stadium"@,
            FlowchartNodeShape::Subprocess => "subproc"@,
            FlowchartNodeShape::Cylinder => "cyl"@,
            FlowchartNodeShape::Circle => "circle"@,
            FlowchartNodeShape::Odd => "odd"@,
            FlowchartNodeShape::Diamond => "diamond"@,
            FlowchartNodeShape::Hexagon => "hex"@,
            FlowchartNodeShape::LRParallelogram => "lean-r"@,
            FlowchartNodeShape::LLParallelogram => "lean-l"@,
            FlowchartNodeShape::Trapezoid => "trap-b"@,
            FlowchartNodeShape::ReverseTrapezoid => "trap-t"@,
            FlowchartNodeShape::DoubleCircle => "dbl-circ"@,
            FlowchartNodeShape::NotchedRectangle => "notch-rect"@,
            FlowchartNodeShape::Linedrectangle => "lin-rect"@,
            FlowchartNodeShape::SmallCircle => "sm-circ"@,
            FlowchartNodeShape::FramedCircle => "framed-circle"@,
            FlowchartNodeShape::LongRectangle => "fork"@,
            FlowchartNodeShape::Hourglass => "hourglass"@,
            FlowchartNodeShape::LeftCurlyBrace => "comment"@,
            FlowchartNodeShape::RightCurlyBrace => "brace-r"@,
            FlowchartNodeShape::CurlyBraces => "braces"@,
            FlowchartNodeShape::LightningBolt => "bolt"@,
            FlowchartNodeShape::Document => "doc"@,
            FlowchartNodeShape::HalfRoundedRectangle => "delay"@,
            FlowchartNodeShape::HorizontalCylinder => "das"@,
            FlowchartNodeShape::LinedCylinder => "lin-cyl"@,
            FlowchartNodeShape::CurvedTrapezoid => "curv-trap"@,
            FlowchartNodeShape::DividedRectangle => "div-rect"@,
            FlowchartNodeShape::SmallTriangle => "tri"@,
            FlowchartNodeShape::WindowPane => "win-pane"@,
            FlowchartNodeShape::FilledCircle => "f-circ"@,
            FlowchartNodeShape::LinedDocument => "lin-doc"@,
            FlowchartNodeShape::NotchedPentagon => "notch-pent"@,
            FlowchartNodeShape::FlippedTriangle => "flip-tri"@,
            FlowchartNodeShape::SlopedRectangle => "sl-rect"@,
            FlowchartNodeShape::StackedDocument => "docs"@,
            FlowchartNodeShape::StackedRectangle => "processes"@,
            FlowchartNodeShape::Flag => "flag"@,
            FlowchartNodeShape::BowTieRectangle => "bow-rect"@,
            FlowchartNodeShape::CrossedCircle => "cross-circ"@,
            FlowchartNodeShape::TaggedDocument => "tag-doc"@,
            FlowchartNodeShape::TaggedRectangle => "tag-rect"@,
            FlowchartNodeShape::FramedRectangle => "fr-rect"@,
            FlowchartNodeShape::TextBlock => "text"@,
        }
    }

    /// Returns the name of the shape in the text.
    pub fn as_str(&self) -> (r: &'static str)
        ensures
            r@ == self.text(),
    {
        match self {
            FlowchartNodeShape::Rectangle => "rect",
            FlowchartNodeShape::RoundEdges => "rounded",
            FlowchartNodeShape::StadiumShape => "stadium",
            FlowchartNodeShape::Subprocess => "subproc",
            FlowchartNodeShape::Cylinder => "cyl",
            FlowchartNodeShape::Circle => "circle",
            FlowchartNodeShape::Odd => "odd",
            FlowchartNodeShape::Diamond => "diamond",
            FlowchartNodeShape::Hexagon => "hex",
            FlowchartNodeShape::LRParallelogram => "lean-r",
            FlowchartNodeShape::LLParallelogram => "lean-l",
            FlowchartNodeShape::Trapezoid => "trap-b",
            FlowchartNodeShape::ReverseTrapezoid => "trap-t",
            FlowchartNodeShape::DoubleCircle => "dbl-circ",
            FlowchartNodeShape::NotchedRectangle => "notch-rect",
            FlowchartNodeShape::Linedrectangle => "lin-rect",
            FlowchartNodeShape::SmallCircle => "sm-circ",
            FlowchartNodeShape::FramedCircle => "framed-circle",
            FlowchartNodeShape::LongRectangle => "fork",
            FlowchartNodeShape::Hourglass => "hourglass",
            FlowchartNodeShape::LeftCurlyBrace => "comment",
            FlowchartNodeShape::RightCurlyBrace => "brace-r",
            FlowchartNodeShape::CurlyBraces => "braces",
            FlowchartNodeShape::LightningBolt => "bolt",
            FlowchartNodeShape::Document => "doc",
            FlowchartNodeShape::HalfRoundedRectangle => "delay",
            FlowchartNodeShape::HorizontalCylinder => "das",
            FlowchartNodeShape::LinedCylinder => "lin-cyl",
            FlowchartNodeShape::CurvedTrapezoid => "curv-trap",
            FlowchartNodeShape::DividedRectangle => "div-rect",
            FlowchartNodeShape::SmallTriangle => "tri",
            FlowchartNodeShape::WindowPane => "win-pane",
            FlowchartNodeShape::FilledCircle => "f-circ",
            FlowchartNodeShape::LinedDocument => "lin-doc",
            FlowchartNodeShape::NotchedPentagon => "notch-pent",
            FlowchartNodeShape::FlippedTriangle => "flip-tri",
            FlowchartNodeShape::SlopedRectangle => "sl-rect",
            FlowchartNodeShape::StackedDocument => "docs",
            FlowchartNodeShape::StackedRectangle => "processes",
            FlowchartNodeShape::Flag => "flag",
            FlowchartNodeShape::BowTieRectangle => "bow-rect",
            FlowchartNodeShape::CrossedCircle => "cross-circ",
            FlowchartNodeShape::TaggedDocument => "tag-doc",
            FlowchartNodeShape::TaggedRectangle => "tag-rect",
            FlowchartNodeShape::FramedRectangle => "fr-rect",
            FlowchartNodeShape::TextBlock => "text",
        }
    }

    /// Returns the name of the shape in the text.
    pub fn to_string(&self) -> (r: String)
        ensures
            r@ == self.text(),
    {
        String::from_str(self.as_str())
    }
}

/// The shape that `name` names, ignoring ASCII case, if any.
pub open spec fn shape_named(name: Seq<char>) -> Option<FlowchartNodeShape> {
    if matches_lower(name, "rect"@) || matches_lower(name, "rectangle"@) || matches_lower(name, "proc"@) || matches_lower(name, "process"@) {
        Some(FlowchartNodeShape::Rectangle)
    } else if matches_lower(name, "rounded"@) || matches_lower(name, "event"@) {
        Some(FlowchartNodeShape::RoundEdges)
    } else if matches_lower(name, "stadium"@) || matches_lower(name, "pill"@) || matches_lower(name, "terminal"@) {
        Some(FlowchartNodeShape::StadiumShape)
    } else if matches_lower(name, "subproc"@) || matches_lower(name, "subprocess"@) || matches_lower(name, "subroutine"@) || matches_lower(name, "framed-rectangle"@) {
        Some(FlowchartNodeShape::Subprocess)
    } else if matches_lower(name, "cyl"@) || matches_lower(name, "cylinder"@) || matches_lower(name, "database"@) || matches_lower(name, "db"@) {
        Some(FlowchartNodeShape::Cylinder)
    } else if matches_lower(name, "circle"@) || matches_lower(name, "circ"@) {
        Some(FlowchartNodeShape::Circle)
    } else if matches_lower(name, "odd"@) {
        Some(FlowchartNodeShape::Odd)
    } else if matches_lower(name, "diamond"@) || matches_lower(name, "diam"@) || matches_lower(name, "decision"@) || matches_lower(name, "question"@) {
        Some(FlowchartNodeShape::Diamond)
    } else if matches_lower(name, "hex"@) || matches_lower(name, "hexagon"@) || matches_lower(name, "prepare"@) {
        Some(FlowchartNodeShape::Hexagon)
    } else if matches_lower(name, "lean-r"@) || matches_lower(name, "lean-right"@) || matches_lower(name, "in-out"@) {
        Some(FlowchartNodeShape::LRParallelogram)
    } else if matches_lower(name, "lean-l"@) || matches_lower(name, "lean-left"@) || matches_lower(name, "out-in"@) {
        Some(FlowchartNodeShape::LLParallelogram)
    } else if matches_lower(name, "trap-b"@) || matches_lower(name, "trapezoid"@) || matches_lower(name, "priority"@) || matches_lower(name, "trapezoid-bottom"@) {
        Some(FlowchartNodeShape::Trapezoid)
    } else if matches_lower(name, "trap-t"@) || matches_lower(name, "inv-trapezoid"@) || matches_lower(name, "manual"@) || matches_lower(name, "trapezoid-top"@) {
        Some(FlowchartNodeShape::ReverseTrapezoid)
    } else if matches_lower(name, "dbl-circ"@) || matches_lower(name, "double-circle"@) || matches_lower(name, "stop"@) {
        Some(FlowchartNodeShape::DoubleCircle)
    } else if matches_lower(name, "notch-rect"@) || matches_lower(name, "card"@) || matches_lower(name, "notched-rectangle"@) {
        Some(FlowchartNodeShape::NotchedRectangle)
    } else if matches_lower(name, "lin-rect"@) || matches_lower(name, "lin-proc"@) || matches_lower(name, "lined-process"@) || matches_lower(name, "lined-rectangle"@) || matches_lower(name, "shaded-process"@) {
        Some(FlowchartNodeShape::Linedrectangle)
    } else if matches_lower(name, "sm-circ"@) || matches_lower(name, "small-circle"@) || matches_lower(name, "start"@) {
        Some(FlowchartNodeShape::SmallCircle)
    } else if matches_lower(name, "framed-circle"@) || matches_lower(name, "fr-circ"@) {
        Some(FlowchartNodeShape::FramedCircle)
    } else if matches_lower(name, "fork"@) || matches_lower(name, "join"@) {
        Some(FlowchartNodeShape::LongRectangle)
    } else if matches_lower(name, "hourglass"@) || matches_lower(name, "collate"@) {
        Some(FlowchartNodeShape::Hourglass)
    } else if matches_lower(name, "comment"@) || matches_lower(name, "brace-l"@) {
        Some(FlowchartNodeShape::LeftCurlyBrace)
    } else if matches_lower(name, "brace-r"@) {
        Some(FlowchartNodeShape::RightCurlyBrace)
    } else if matches_lower(name, "braces"@) {
        Some(FlowchartNodeShape::CurlyBraces)
    } else if matches_lower(name, "bolt"@) || matches_lower(name, "com-link"@) || matches_lower(name, "lightning-bolt"@) {
        Some(FlowchartNodeShape::LightningBolt)
    } else if matches_lower(name, "doc"@) || matches_lower(name, "document"@) {
        Some(FlowchartNodeShape::Document)
    } else if matches_lower(name, "delay"@) || matches_lower(name, "half-rounded-rectangle"@) {
        Some(FlowchartNodeShape::HalfRoundedRectangle)
    } else if matches_lower(name, "das"@) || matches_lower(name, "h-cyl"@) || matches_lower(name, "horizontal-cylinder"@) {
        Some(FlowchartNodeShape::HorizontalCylinder)
    } else if matches_lower(name, "lin-cyl"@) || matches_lower(name, "disk"@) || matches_lower(name, "lined-cylinder"@) {
        Some(FlowchartNodeShape::LinedCylinder)
    } else if matches_lower(name, "curv-trap"@) || matches_lower(name, "curved-trapezoid"@) || matches_lower(name, "display"@) {
        Some(FlowchartNodeShape::CurvedTrapezoid)
    } else if matches_lower(name, "div-rect"@) || matches_lower(name, "div-proc"@) || matches_lower(name, "divided-process"@) || matches_lower(name, "divided-rectangle"@) {
        Some(FlowchartNodeShape::DividedRectangle)
    } else if matches_lower(name, "tri"@) || matches_lower(name, "extract"@) || matches_lower(name, "triangle"@) {
        Some(FlowchartNodeShape::SmallTriangle)
    } else if matches_lower(name, "win-pane"@) || matches_lower(name, "internal-storage"@) || matches_lower(name, "window-pane"@) {
        Some(FlowchartNodeShape::WindowPane)
    } else if matches_lower(name, "f-circ"@) || matches_lower(name, "filled-circle"@) || matches_lower(name, "junction"@) {
        Some(FlowchartNodeShape::FilledCircle)
    } else if matches_lower(name, "lin-doc"@) || matches_lower(name, "lined-document"@) {
        Some(FlowchartNodeShape::LinedDocument)
    } else if matches_lower(name, "notch-pent"@) || matches_lower(name, "loop-limit"@) || matches_lower(name, "notched-pentagon"@) {
        Some(FlowchartNodeShape::NotchedPentagon)
    } else if matches_lower(name, "flip-tri"@) || matches_lower(name, "flipped-triangle"@) || matches_lower(name, "manual-file"@) {
        Some(FlowchartNodeShape::FlippedTriangle)
    } else if matches_lower(name, "sl-rect"@) || matches_lower(name, "manual-input"@) || matches_lower(name, "sloped-rectangle"@) {
        Some(FlowchartNodeShape::SlopedRectangle)
    } else if matches_lower(name, "docs"@) || matches_lower(name, "documents"@) || matches_lower(name, "st-doc"@) || matches_lower(name, "stacked-document"@) {
        Some(FlowchartNodeShape::StackedDocument)
    } else if matches_lower(name, "processes"@) || matches_lower(name, "procs"@) || matches_lower(name, "st-rect"@) || matches_lower(name, "stacked-rectangle"@) {
        Some(FlowchartNodeShape::StackedRectangle)
    } else if matches_lower(name, "flag"@) || matches_lower(name, "paper-tape"@) {
        Some(FlowchartNodeShape::Flag)
    } else if matches_lower(name, "bow-rect"@) || matches_lower(name, "bow-tie-rectangle"@) || matches_lower(name, "stored-data"@) {
        Some(FlowchartNodeShape::BowTieRectangle)
    } else if matches_lower(name, "cross-circ"@) || matches_lower(name, "crossed-circle"@) || matches_lower(name, "summary"@) {
        Some(FlowchartNodeShape::CrossedCircle)
    } else if matches_lower(name, "tag-doc"@) || matches_lower(name, "tagged-document"@) {
        Some(FlowchartNodeShape::TaggedDocument)
    } else if matches_lower(name, "tag-rect"@) || matches_lower(name, "tag-proc"@) || matches_lower(name, "tagged-process"@) || matches_lower(name, "tagged-rectangle"@) {
        Some(FlowchartNodeShape::TaggedRectangle)
    } else if matches_lower(name, "fr-rect"@) {
        Some(FlowchartNodeShape::FramedRectangle)
    } else if matches_lower(name, "text"@) || matches_lower(name, "text-block"@) {
        Some(FlowchartNodeShape::TextBlock)
    } else {
        None
    }
}

impl FlowchartNodeShape {
    /// Parses the name of a shape or one of its aliases, ignoring ASCII case.
    ///
    /// Fails when `name` names no shape.
    pub fn from_str(name: &str) -> (r: Result<FlowchartNodeShape, ()>)
        ensures
            match shape_named(name@) {
                Some(shape) => r == Ok::<FlowchartNodeShape, ()>(shape),
                None => r is Err,
            },
    {
        if eq_ignore_case(name, "rect") || eq_ignore_case(name, "rectangle") || eq_ignore_case(name, "proc") || eq_ignore_case(name, "process") {
            Ok(FlowchartNodeShape::Rectangle)
        } else if eq_ignore_case(name, "rounded") || eq_ignore_case(name, "event") {
            Ok(FlowchartNodeShape::RoundEdges)
        } else if eq_ignore_case(name, "stadium") || eq_ignore_case(name, "pill") || eq_ignore_case(name, "terminal") {
            Ok(FlowchartNodeShape::StadiumShape)
        } else if eq_ignore_case(name, "subproc") || eq_ignore_case(name, "subprocess") || eq_ignore_case(name, "subroutine") || eq_ignore_case(name, "framed-rectangle") {
            Ok(FlowchartNodeShape::Subprocess)
        } else if eq_ignore_case(name, "cyl") || eq_ignore_case(name, "cylinder") || eq_ignore_case(name, "database") || eq_ignore_case(name, "db") {
            Ok(FlowchartNodeShape::Cylinder)
        } else if eq_ignore_case(name, "circle") || eq_ignore_case(name, "circ") {
            Ok(FlowchartNodeShape::Circle)
        } else if eq_ignore_case(name, "odd") {
            Ok(FlowchartNodeShape::Odd)
        } else if eq_ignore_case(name, "diamond") || eq_ignore_case(name, "diam") || eq_ignore_case(name, "decision") || eq_ignore_case(name, "question") {
            Ok(FlowchartNodeShape::Diamond)
        } else if eq_ignore_case(name, "hex") || eq_ignore_case(name, "hexagon") || eq_ignore_case(name, "prepare") {
            Ok(FlowchartNodeShape::Hexagon)
        } else if eq_ignore_case(name, "lean-r") || eq_ignore_case(name, "lean-right") || eq_ignore_case(name, "in-out") {
            Ok(FlowchartNodeShape::LRParallelogram)
        } else if eq_ignore_case(name, "lean-l") || eq_ignore_case(name, "lean-left") || eq_ignore_case(name, "out-in") {
            Ok(FlowchartNodeShape::LLParallelogram)
        } else if eq_ignore_case(name, "trap-b") || eq_ignore_case(name, "trapezoid") || eq_ignore_case(name, "priority") || eq_ignore_case(name, "trapezoid-bottom") {
            Ok(FlowchartNodeShape::Trapezoid)
        } else if eq_ignore_case(name, "trap-t") || eq_ignore_case(name, "inv-trapezoid") || eq_ignore_case(name, "manual") || eq_ignore_case(name, "trapezoid-top") {
            Ok(FlowchartNodeShape::ReverseTrapezoid)
        } else if eq_ignore_case(name, "dbl-circ") || eq_ignore_case(name, "double-circle") || eq_ignore_case(name, "stop") {
            Ok(FlowchartNodeShape::DoubleCircle)
        } else if eq_ignore_case(name, "notch-rect") || eq_ignore_case(name, "card") || eq_ignore_case(name, "notched-rectangle") {
            Ok(FlowchartNodeShape::NotchedRectangle)
        } else if eq_ignore_case(name, "lin-rect") || eq_ignore_case(name, "lin-proc") || eq_ignore_case(name, "lined-process") || eq_ignore_case(name, "lined-rectangle") || eq_ignore_case(name, "shaded-process") {
            Ok(FlowchartNodeShape::Linedrectangle)
        } else if eq_ignore_case(name, "sm-circ") || eq_ignore_case(name, "small-circle") || eq_ignore_case(name, "start") {
            Ok(FlowchartNodeShape::SmallCircle)
        } else if eq_ignore_case(name, "framed-circle") || eq_ignore_case(name, "fr-circ") {
            Ok(FlowchartNodeShape::FramedCircle)
        } else if eq_ignore_case(name, "fork") || eq_ignore_case(name, "join") {
            Ok(FlowchartNodeShape::LongRectangle)
        } else if eq_ignore_case(name, "hourglass") || eq_ignore_case(name, "collate") {
            Ok(FlowchartNodeShape::Hourglass)
        } else if eq_ignore_case(name, "comment") || eq_ignore_case(name, "brace-l") {
            Ok(FlowchartNodeShape::LeftCurlyBrace)
        } else if eq_ignore_case(name, "brace-r") {
            Ok(FlowchartNodeShape::RightCurlyBrace)
        } else if eq_ignore_case(name, "braces") {
            Ok(FlowchartNodeShape::CurlyBraces)
        } else if eq_ignore_case(name, "bolt") || eq_ignore_case(name, "com-link") || eq_ignore_case(name, "lightning-bolt") {
            Ok(FlowchartNodeShape::LightningBolt)
        } else if eq_ignore_case(name, "doc") || eq_ignore_case(name, "document") {
            Ok(FlowchartNodeShape::Document)
        } else if eq_ignore_case(name, "delay") || eq_ignore_case(name, "half-rounded-rectangle") {
            Ok(FlowchartNodeShape::HalfRoundedRectangle)
        } else if eq_ignore_case(name, "das") || eq_ignore_case(name, "h-cyl") || eq_ignore_case(name, "horizontal-cylinder") {
            Ok(FlowchartNodeShape::HorizontalCylinder)
        } else if eq_ignore_case(name, "lin-cyl") || eq_ignore_case(name, "disk") || eq_ignore_case(name, "lined-cylinder") {
            Ok(FlowchartNodeShape::LinedCylinder)
        } else if eq_ignore_case(name, "curv-trap") || eq_ignore_case(name, "curved-trapezoid") || eq_ignore_case(name, "display") {
            Ok(FlowchartNodeShape::CurvedTrapezoid)
        } else if eq_ignore_case(name, "div-rect") || eq_ignore_case(name, "div-proc") || eq_ignore_case(name, "divided-process") || eq_ignore_case(name, "divided-rectangle") {
            Ok(FlowchartNodeShape::DividedRectangle)
        } else if eq_ignore_case(name, "tri") || eq_ignore_case(name, "extract") || eq_ignore_case(name, "triangle") {
            Ok(FlowchartNodeShape::SmallTriangle)
        } else if eq_ignore_case(name, "win-pane") || eq_ignore_case(name, "internal-storage") || eq_ignore_case(name, "window-pane") {
            Ok(FlowchartNodeShape::WindowPane)
        } else if eq_ignore_case(name, "f-circ") || eq_ignore_case(name, "filled-circle") || eq_ignore_case(name, "junction") {
            Ok(FlowchartNodeShape::FilledCircle)
        } else if eq_ignore_case(name, "lin-doc") || eq_ignore_case(name, "lined-document") {
            Ok(FlowchartNodeShape::LinedDocument)
        } else if eq_ignore_case(name, "notch-pent") || eq_ignore_case(name, "loop-limit") || eq_ignore_case(name, "notched-pentagon") {
            Ok(FlowchartNodeShape::NotchedPentagon)
        } else if eq_ignore_case(name, "flip-tri") || eq_ignore_case(name, "flipped-triangle") || eq_ignore_case(name, "manual-file") {
            Ok(FlowchartNodeShape::FlippedTriangle)
        } else if eq_ignore_case(name, "sl-rect") || eq_ignore_case(name, "manual-input") || eq_ignore_case(name, "sloped-rectangle") {
            Ok(FlowchartNodeShape::SlopedRectangle)
        } else if eq_ignore_case(name, "docs") || eq_ignore_case(name, "documents") || eq_ignore_case(name, "st-doc") || eq_ignore_case(name, "stacked-document") {
            Ok(FlowchartNodeShape::StackedDocument)
        } else if eq_ignore_case(name, "processes") || eq_ignore_case(name, "procs") || eq_ignore_case(name, "st-rect") || eq_ignore_case(name, "stacked-rectangle") {
            Ok(FlowchartNodeShape::StackedRectangle)
        } else if eq_ignore_case(name, "flag") || eq_ignore_case(name, "paper-tape") {
            Ok(FlowchartNodeShape::Flag)
        } else if eq_ignore_case(name, "bow-rect") || eq_ignore_case(name, "bow-tie-rectangle") || eq_ignore_case(name, "stored-data") {
            Ok(FlowchartNodeShape::BowTieRectangle)
        } else if eq_ignore_case(name, "cross-circ") || eq_ignore_case(name, "crossed-circle") || eq_ignore_case(name, "summary") {
            Ok(FlowchartNodeShape::CrossedCircle)
        } else if eq_ignore_case(name, "tag-doc") || eq_ignore_case(name, "tagged-document") {
            Ok(FlowchartNodeShape::TaggedDocument)
        } else if eq_ignore_case(name, "tag-rect") || eq_ignore_case(name, "tag-proc") || eq_ignore_case(name, "tagged-process") || eq_ignore_case(name, "tagged-rectangle") {
            Ok(FlowchartNodeShape::TaggedRectangle)
        } else if eq_ignore_case(name, "fr-rect") {
            Ok(FlowchartNodeShape::FramedRectangle)
        } else if eq_ignore_case(name, "text") || eq_ignore_case(name, "text-block") {
            Ok(FlowchartNodeShape::TextBlock)
        } else {
            Err(())
        }
    }
}

} // verus!
