use mermaid_builder::FlowchartNodeShape;

#[test]
fn test_flowchart_node_shape_display() {
    assert_eq!(FlowchartNodeShape::Rectangle.to_string(), "rect");
    assert_eq!(FlowchartNodeShape::RoundEdges.to_string(), "rounded");
    assert_eq!(FlowchartNodeShape::StadiumShape.to_string(), "stadium");
    assert_eq!(FlowchartNodeShape::Subprocess.to_string(), "subproc");
    assert_eq!(FlowchartNodeShape::Cylinder.to_string(), "cyl");
    assert_eq!(FlowchartNodeShape::Circle.to_string(), "circle");
    assert_eq!(FlowchartNodeShape::Odd.to_string(), "odd");
    assert_eq!(FlowchartNodeShape::Diamond.to_string(), "diamond");
    assert_eq!(FlowchartNodeShape::Hexagon.to_string(), "hex");
    assert_eq!(FlowchartNodeShape::LRParallelogram.to_string(), "lean-r");
    assert_eq!(FlowchartNodeShape::LLParallelogram.to_string(), "lean-l");
    assert_eq!(FlowchartNodeShape::Trapezoid.to_string(), "trap-b");
    assert_eq!(FlowchartNodeShape::ReverseTrapezoid.to_string(), "trap-t");
    assert_eq!(FlowchartNodeShape::DoubleCircle.to_string(), "dbl-circ");
    assert_eq!(FlowchartNodeShape::NotchedRectangle.to_string(), "notch-rect");
    assert_eq!(FlowchartNodeShape::Linedrectangle.to_string(), "lin-rect");
    assert_eq!(FlowchartNodeShape::SmallCircle.to_string(), "sm-circ");
    assert_eq!(FlowchartNodeShape::FramedCircle.to_string(), "framed-circle");
    assert_eq!(FlowchartNodeShape::LongRectangle.to_string(), "fork");
    assert_eq!(FlowchartNodeShape::Hourglass.to_string(), "hourglass");
    assert_eq!(FlowchartNodeShape::LeftCurlyBrace.to_string(), "comment");
    assert_eq!(FlowchartNodeShape::RightCurlyBrace.to_string(), "brace-r");
    assert_eq!(FlowchartNodeShape::CurlyBraces.to_string(), "braces");
    assert_eq!(FlowchartNodeShape::LightningBolt.to_string(), "bolt");
    assert_eq!(FlowchartNodeShape::Document.to_string(), "doc");
    assert_eq!(FlowchartNodeShape::HalfRoundedRectangle.to_string(), "delay");
    assert_eq!(FlowchartNodeShape::HorizontalCylinder.to_string(), "das");
    assert_eq!(FlowchartNodeShape::LinedCylinder.to_string(), "lin-cyl");
    assert_eq!(FlowchartNodeShape::CurvedTrapezoid.to_string(), "curv-trap");
    assert_eq!(FlowchartNodeShape::DividedRectangle.to_string(), "div-rect");
    assert_eq!(FlowchartNodeShape::SmallTriangle.to_string(), "tri");
    assert_eq!(FlowchartNodeShape::WindowPane.to_string(), "win-pane");
    assert_eq!(FlowchartNodeShape::FilledCircle.to_string(), "f-circ");
    assert_eq!(FlowchartNodeShape::LinedDocument.to_string(), "lin-doc");
    assert_eq!(FlowchartNodeShape::NotchedPentagon.to_string(), "notch-pent");
    assert_eq!(FlowchartNodeShape::FlippedTriangle.to_string(), "flip-tri");
    assert_eq!(FlowchartNodeShape::SlopedRectangle.to_string(), "sl-rect");
    assert_eq!(FlowchartNodeShape::StackedDocument.to_string(), "docs");
    assert_eq!(FlowchartNodeShape::StackedRectangle.to_string(), "processes");
    assert_eq!(FlowchartNodeShape::Flag.to_string(), "flag");
    assert_eq!(FlowchartNodeShape::BowTieRectangle.to_string(), "bow-rect");
    assert_eq!(FlowchartNodeShape::CrossedCircle.to_string(), "cross-circ");
    assert_eq!(FlowchartNodeShape::TaggedDocument.to_string(), "tag-doc");
    assert_eq!(FlowchartNodeShape::TaggedRectangle.to_string(), "tag-rect");
    assert_eq!(FlowchartNodeShape::FramedRectangle.to_string(), "fr-rect");
    assert_eq!(FlowchartNodeShape::TextBlock.to_string(), "text");
}

#[test]
#[allow(clippy::too_many_lines)]
fn test_flowchart_node_shape_from_str() {
    assert_eq!(FlowchartNodeShape::from_str("rect").unwrap(), FlowchartNodeShape::Rectangle);
    assert_eq!(
        FlowchartNodeShape::from_str("rectangle").unwrap(),
        FlowchartNodeShape::Rectangle
    );
    assert_eq!(FlowchartNodeShape::from_str("proc").unwrap(), FlowchartNodeShape::Rectangle);
    assert_eq!(FlowchartNodeShape::from_str("process").unwrap(), FlowchartNodeShape::Rectangle);
    assert_eq!(
        FlowchartNodeShape::from_str("rounded").unwrap(),
        FlowchartNodeShape::RoundEdges
    );
    assert_eq!(FlowchartNodeShape::from_str("event").unwrap(), FlowchartNodeShape::RoundEdges);
    assert_eq!(
        FlowchartNodeShape::from_str("stadium").unwrap(),
        FlowchartNodeShape::StadiumShape
    );
    assert_eq!(FlowchartNodeShape::from_str("pill").unwrap(), FlowchartNodeShape::StadiumShape);
    assert_eq!(
        FlowchartNodeShape::from_str("terminal").unwrap(),
        FlowchartNodeShape::StadiumShape
    );
    assert_eq!(
        FlowchartNodeShape::from_str("subproc").unwrap(),
        FlowchartNodeShape::Subprocess
    );
    assert_eq!(
        FlowchartNodeShape::from_str("subprocess").unwrap(),
        FlowchartNodeShape::Subprocess
    );
    assert_eq!(
        FlowchartNodeShape::from_str("subroutine").unwrap(),
        FlowchartNodeShape::Subprocess
    );
    assert_eq!(
        FlowchartNodeShape::from_str("framed-rectangle").unwrap(),
        FlowchartNodeShape::Subprocess
    );
    assert_eq!(FlowchartNodeShape::from_str("cyl").unwrap(), FlowchartNodeShape::Cylinder);
    assert_eq!(FlowchartNodeShape::from_str("cylinder").unwrap(), FlowchartNodeShape::Cylinder);
    assert_eq!(FlowchartNodeShape::from_str("database").unwrap(), FlowchartNodeShape::Cylinder);
    assert_eq!(FlowchartNodeShape::from_str("db").unwrap(), FlowchartNodeShape::Cylinder);
    assert_eq!(FlowchartNodeShape::from_str("circle").unwrap(), FlowchartNodeShape::Circle);
    assert_eq!(FlowchartNodeShape::from_str("circ").unwrap(), FlowchartNodeShape::Circle);
    assert_eq!(FlowchartNodeShape::from_str("odd").unwrap(), FlowchartNodeShape::Odd);
    assert_eq!(FlowchartNodeShape::from_str("diamond").unwrap(), FlowchartNodeShape::Diamond);
    assert_eq!(FlowchartNodeShape::from_str("diam").unwrap(), FlowchartNodeShape::Diamond);
    assert_eq!(FlowchartNodeShape::from_str("decision").unwrap(), FlowchartNodeShape::Diamond);
    assert_eq!(FlowchartNodeShape::from_str("question").unwrap(), FlowchartNodeShape::Diamond);
    assert_eq!(FlowchartNodeShape::from_str("hex").unwrap(), FlowchartNodeShape::Hexagon);
    assert_eq!(FlowchartNodeShape::from_str("hexagon").unwrap(), FlowchartNodeShape::Hexagon);
    assert_eq!(FlowchartNodeShape::from_str("prepare").unwrap(), FlowchartNodeShape::Hexagon);
    assert_eq!(
        FlowchartNodeShape::from_str("lean-r").unwrap(),
        FlowchartNodeShape::LRParallelogram
    );
    assert_eq!(
        FlowchartNodeShape::from_str("lean-right").unwrap(),
        FlowchartNodeShape::LRParallelogram
    );
    assert_eq!(
        FlowchartNodeShape::from_str("in-out").unwrap(),
        FlowchartNodeShape::LRParallelogram
    );
    assert_eq!(
        FlowchartNodeShape::from_str("lean-l").unwrap(),
        FlowchartNodeShape::LLParallelogram
    );
    assert_eq!(
        FlowchartNodeShape::from_str("lean-left").unwrap(),
        FlowchartNodeShape::LLParallelogram
    );
    assert_eq!(
        FlowchartNodeShape::from_str("out-in").unwrap(),
        FlowchartNodeShape::LLParallelogram
    );
    assert_eq!(FlowchartNodeShape::from_str("trap-b").unwrap(), FlowchartNodeShape::Trapezoid);
    assert_eq!(
        FlowchartNodeShape::from_str("trapezoid").unwrap(),
        FlowchartNodeShape::Trapezoid
    );
    assert_eq!(
        FlowchartNodeShape::from_str("priority").unwrap(),
        FlowchartNodeShape::Trapezoid
    );
    assert_eq!(
        FlowchartNodeShape::from_str("trapezoid-bottom").unwrap(),
        FlowchartNodeShape::Trapezoid
    );
    assert_eq!(
        FlowchartNodeShape::from_str("trap-t").unwrap(),
        FlowchartNodeShape::ReverseTrapezoid
    );
    assert_eq!(
        FlowchartNodeShape::from_str("inv-trapezoid").unwrap(),
        FlowchartNodeShape::ReverseTrapezoid
    );
    assert_eq!(
        FlowchartNodeShape::from_str("manual").unwrap(),
        FlowchartNodeShape::ReverseTrapezoid
    );
    assert_eq!(
        FlowchartNodeShape::from_str("trapezoid-top").unwrap(),
        FlowchartNodeShape::ReverseTrapezoid
    );
    assert_eq!(
        FlowchartNodeShape::from_str("dbl-circ").unwrap(),
        FlowchartNodeShape::DoubleCircle
    );
    assert_eq!(
        FlowchartNodeShape::from_str("double-circle").unwrap(),
        FlowchartNodeShape::DoubleCircle
    );
    assert_eq!(FlowchartNodeShape::from_str("stop").unwrap(), FlowchartNodeShape::DoubleCircle);
    assert_eq!(
        FlowchartNodeShape::from_str("notch-rect").unwrap(),
        FlowchartNodeShape::NotchedRectangle
    );
    assert_eq!(
        FlowchartNodeShape::from_str("card").unwrap(),
        FlowchartNodeShape::NotchedRectangle
    );
    assert_eq!(
        FlowchartNodeShape::from_str("notched-rectangle").unwrap(),
        FlowchartNodeShape::NotchedRectangle
    );
    assert_eq!(
        FlowchartNodeShape::from_str("lin-rect").unwrap(),
        FlowchartNodeShape::Linedrectangle
    );
    assert_eq!(
        FlowchartNodeShape::from_str("lin-proc").unwrap(),
        FlowchartNodeShape::Linedrectangle
    );
    assert_eq!(
        FlowchartNodeShape::from_str("lined-process").unwrap(),
        FlowchartNodeShape::Linedrectangle
    );
    assert_eq!(
        FlowchartNodeShape::from_str("lined-rectangle").unwrap(),
        FlowchartNodeShape::Linedrectangle
    );
    assert_eq!(
        FlowchartNodeShape::from_str("shaded-process").unwrap(),
        FlowchartNodeShape::Linedrectangle
    );
    assert_eq!(
        FlowchartNodeShape::from_str("sm-circ").unwrap(),
        FlowchartNodeShape::SmallCircle
    );
    assert_eq!(
        FlowchartNodeShape::from_str("small-circle").unwrap(),
        FlowchartNodeShape::SmallCircle
    );
    assert_eq!(FlowchartNodeShape::from_str("start").unwrap(), FlowchartNodeShape::SmallCircle);
    assert_eq!(
        FlowchartNodeShape::from_str("framed-circle").unwrap(),
        FlowchartNodeShape::FramedCircle
    );
    assert_eq!(
        FlowchartNodeShape::from_str("fr-circ").unwrap(),
        FlowchartNodeShape::FramedCircle
    );
    assert_eq!(
        FlowchartNodeShape::from_str("fork").unwrap(),
        FlowchartNodeShape::LongRectangle
    );
    assert_eq!(
        FlowchartNodeShape::from_str("join").unwrap(),
        FlowchartNodeShape::LongRectangle
    );
    assert_eq!(
        FlowchartNodeShape::from_str("hourglass").unwrap(),
        FlowchartNodeShape::Hourglass
    );
    assert_eq!(FlowchartNodeShape::from_str("collate").unwrap(), FlowchartNodeShape::Hourglass);
    assert_eq!(
        FlowchartNodeShape::from_str("comment").unwrap(),
        FlowchartNodeShape::LeftCurlyBrace
    );
    assert_eq!(
        FlowchartNodeShape::from_str("brace-l").unwrap(),
        FlowchartNodeShape::LeftCurlyBrace
    );
    assert_eq!(
        FlowchartNodeShape::from_str("brace-r").unwrap(),
        FlowchartNodeShape::RightCurlyBrace
    );
    assert_eq!(
        FlowchartNodeShape::from_str("braces").unwrap(),
        FlowchartNodeShape::CurlyBraces
    );
    assert_eq!(
        FlowchartNodeShape::from_str("bolt").unwrap(),
        FlowchartNodeShape::LightningBolt
    );
    assert_eq!(
        FlowchartNodeShape::from_str("com-link").unwrap(),
        FlowchartNodeShape::LightningBolt
    );
    assert_eq!(
        FlowchartNodeShape::from_str("lightning-bolt").unwrap(),
        FlowchartNodeShape::LightningBolt
    );
    assert_eq!(FlowchartNodeShape::from_str("doc").unwrap(), FlowchartNodeShape::Document);
    assert_eq!(FlowchartNodeShape::from_str("document").unwrap(), FlowchartNodeShape::Document);
    assert_eq!(
        FlowchartNodeShape::from_str("delay").unwrap(),
        FlowchartNodeShape::HalfRoundedRectangle
    );
    assert_eq!(
        FlowchartNodeShape::from_str("half-rounded-rectangle").unwrap(),
        FlowchartNodeShape::HalfRoundedRectangle
    );
    assert_eq!(
        FlowchartNodeShape::from_str("das").unwrap(),
        FlowchartNodeShape::HorizontalCylinder
    );
    assert_eq!(
        FlowchartNodeShape::from_str("h-cyl").unwrap(),
        FlowchartNodeShape::HorizontalCylinder
    );
    assert_eq!(
        FlowchartNodeShape::from_str("horizontal-cylinder").unwrap(),
        FlowchartNodeShape::HorizontalCylinder
    );
    assert_eq!(
        FlowchartNodeShape::from_str("lin-cyl").unwrap(),
        FlowchartNodeShape::LinedCylinder
    );
    assert_eq!(
        FlowchartNodeShape::from_str("disk").unwrap(),
        FlowchartNodeShape::LinedCylinder
    );
    assert_eq!(
        FlowchartNodeShape::from_str("lined-cylinder").unwrap(),
        FlowchartNodeShape::LinedCylinder
    );
    assert_eq!(
        FlowchartNodeShape::from_str("curv-trap").unwrap(),
        FlowchartNodeShape::CurvedTrapezoid
    );
    assert_eq!(
        FlowchartNodeShape::from_str("curved-trapezoid").unwrap(),
        FlowchartNodeShape::CurvedTrapezoid
    );
    assert_eq!(
        FlowchartNodeShape::from_str("display").unwrap(),
        FlowchartNodeShape::CurvedTrapezoid
    );
    assert_eq!(
        FlowchartNodeShape::from_str("div-rect").unwrap(),
        FlowchartNodeShape::DividedRectangle
    );
    assert_eq!(
        FlowchartNodeShape::from_str("div-proc").unwrap(),
        FlowchartNodeShape::DividedRectangle
    );
    assert_eq!(
        FlowchartNodeShape::from_str("divided-process").unwrap(),
        FlowchartNodeShape::DividedRectangle
    );
    assert_eq!(
        FlowchartNodeShape::from_str("divided-rectangle").unwrap(),
        FlowchartNodeShape::DividedRectangle
    );
    assert_eq!(FlowchartNodeShape::from_str("tri").unwrap(), FlowchartNodeShape::SmallTriangle);
    assert_eq!(
        FlowchartNodeShape::from_str("extract").unwrap(),
        FlowchartNodeShape::SmallTriangle
    );
    assert_eq!(
        FlowchartNodeShape::from_str("triangle").unwrap(),
        FlowchartNodeShape::SmallTriangle
    );
    assert_eq!(
        FlowchartNodeShape::from_str("win-pane").unwrap(),
        FlowchartNodeShape::WindowPane
    );
    assert_eq!(
        FlowchartNodeShape::from_str("internal-storage").unwrap(),
        FlowchartNodeShape::WindowPane
    );
    assert_eq!(
        FlowchartNodeShape::from_str("window-pane").unwrap(),
        FlowchartNodeShape::WindowPane
    );
    assert_eq!(
        FlowchartNodeShape::from_str("f-circ").unwrap(),
        FlowchartNodeShape::FilledCircle
    );
    assert_eq!(
        FlowchartNodeShape::from_str("filled-circle").unwrap(),
        FlowchartNodeShape::FilledCircle
    );
    assert_eq!(
        FlowchartNodeShape::from_str("junction").unwrap(),
        FlowchartNodeShape::FilledCircle
    );
    assert_eq!(
        FlowchartNodeShape::from_str("lin-doc").unwrap(),
        FlowchartNodeShape::LinedDocument
    );
    assert_eq!(
        FlowchartNodeShape::from_str("lined-document").unwrap(),
        FlowchartNodeShape::LinedDocument
    );
    assert_eq!(
        FlowchartNodeShape::from_str("notch-pent").unwrap(),
        FlowchartNodeShape::NotchedPentagon
    );
    assert_eq!(
        FlowchartNodeShape::from_str("loop-limit").unwrap(),
        FlowchartNodeShape::NotchedPentagon
    );
    assert_eq!(
        FlowchartNodeShape::from_str("notched-pentagon").unwrap(),
        FlowchartNodeShape::NotchedPentagon
    );
    assert_eq!(
        FlowchartNodeShape::from_str("flip-tri").unwrap(),
        FlowchartNodeShape::FlippedTriangle
    );
    assert_eq!(
        FlowchartNodeShape::from_str("flipped-triangle").unwrap(),
        FlowchartNodeShape::FlippedTriangle
    );
    assert_eq!(
        FlowchartNodeShape::from_str("manual-file").unwrap(),
        FlowchartNodeShape::FlippedTriangle
    );
    assert_eq!(
        FlowchartNodeShape::from_str("sl-rect").unwrap(),
        FlowchartNodeShape::SlopedRectangle
    );
    assert_eq!(
        FlowchartNodeShape::from_str("manual-input").unwrap(),
        FlowchartNodeShape::SlopedRectangle
    );
    assert_eq!(
        FlowchartNodeShape::from_str("sloped-rectangle").unwrap(),
        FlowchartNodeShape::SlopedRectangle
    );
    assert_eq!(
        FlowchartNodeShape::from_str("docs").unwrap(),
        FlowchartNodeShape::StackedDocument
    );
    assert_eq!(
        FlowchartNodeShape::from_str("documents").unwrap(),
        FlowchartNodeShape::StackedDocument
    );
    assert_eq!(
        FlowchartNodeShape::from_str("st-doc").unwrap(),
        FlowchartNodeShape::StackedDocument
    );
    assert_eq!(
        FlowchartNodeShape::from_str("stacked-document").unwrap(),
        FlowchartNodeShape::StackedDocument
    );
    assert_eq!(
        FlowchartNodeShape::from_str("processes").unwrap(),
        FlowchartNodeShape::StackedRectangle
    );
    assert_eq!(
        FlowchartNodeShape::from_str("procs").unwrap(),
        FlowchartNodeShape::StackedRectangle
    );
    assert_eq!(
        FlowchartNodeShape::from_str("st-rect").unwrap(),
        FlowchartNodeShape::StackedRectangle
    );
    assert_eq!(
        FlowchartNodeShape::from_str("stacked-rectangle").unwrap(),
        FlowchartNodeShape::StackedRectangle
    );
    assert_eq!(FlowchartNodeShape::from_str("flag").unwrap(), FlowchartNodeShape::Flag);
    assert_eq!(FlowchartNodeShape::from_str("paper-tape").unwrap(), FlowchartNodeShape::Flag);
    assert_eq!(
        FlowchartNodeShape::from_str("bow-rect").unwrap(),
        FlowchartNodeShape::BowTieRectangle
    );
    assert_eq!(
        FlowchartNodeShape::from_str("bow-tie-rectangle").unwrap(),
        FlowchartNodeShape::BowTieRectangle
    );
    assert_eq!(
        FlowchartNodeShape::from_str("stored-data").unwrap(),
        FlowchartNodeShape::BowTieRectangle
    );
    assert_eq!(
        FlowchartNodeShape::from_str("cross-circ").unwrap(),
        FlowchartNodeShape::CrossedCircle
    );
    assert_eq!(
        FlowchartNodeShape::from_str("crossed-circle").unwrap(),
        FlowchartNodeShape::CrossedCircle
    );
    assert_eq!(
        FlowchartNodeShape::from_str("summary").unwrap(),
        FlowchartNodeShape::CrossedCircle
    );
    assert_eq!(
        FlowchartNodeShape::from_str("tag-doc").unwrap(),
        FlowchartNodeShape::TaggedDocument
    );
    assert_eq!(
        FlowchartNodeShape::from_str("tagged-document").unwrap(),
        FlowchartNodeShape::TaggedDocument
    );
    assert_eq!(
        FlowchartNodeShape::from_str("tag-rect").unwrap(),
        FlowchartNodeShape::TaggedRectangle
    );
    assert_eq!(
        FlowchartNodeShape::from_str("tag-proc").unwrap(),
        FlowchartNodeShape::TaggedRectangle
    );
    assert_eq!(
        FlowchartNodeShape::from_str("tagged-process").unwrap(),
        FlowchartNodeShape::TaggedRectangle
    );
    assert_eq!(
        FlowchartNodeShape::from_str("tagged-rectangle").unwrap(),
        FlowchartNodeShape::TaggedRectangle
    );
    assert_eq!(
        FlowchartNodeShape::from_str("fr-rect").unwrap(),
        FlowchartNodeShape::FramedRectangle
    );
    assert_eq!(FlowchartNodeShape::from_str("text").unwrap(), FlowchartNodeShape::TextBlock);
    assert_eq!(
        FlowchartNodeShape::from_str("text-block").unwrap(),
        FlowchartNodeShape::TextBlock
    );
    assert!(FlowchartNodeShape::from_str("invalid").is_err());
}

#[test]
fn shape_names_ignore_ascii_case() {
    assert_eq!(FlowchartNodeShape::from_str("RECT").unwrap(), FlowchartNodeShape::Rectangle);
    assert_eq!(FlowchartNodeShape::from_str("Lean-Right").unwrap(), FlowchartNodeShape::LRParallelogram);
    assert!(FlowchartNodeShape::from_str("").is_err());
    assert!(FlowchartNodeShape::from_str("rect ").is_err());
}
