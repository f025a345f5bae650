//! Arrow heads drawn at the ends of an edge, and the line styles of edges.
use vstd::prelude::*;

verus! {

/// The shape of an arrow head at one end of an edge.
#[derive(Copy, Clone, Debug, PartialEq, Eq, Structural, Hash)]
pub enum ArrowShape {
    /// A normal arrow head.
    Normal,
    /// A sharp arrow head.
    Sharp,
    /// A cross.
    X,
    /// A circle.
    Circle,
    /// A triangle (inheritance).
    Triangle,
    /// A star (composition).
    Star,
    /// Zero or one (entity-relationship cardinality).
    ZeroOrOne,
    /// Exactly one (entity-relationship cardinality).
    ExactlyOne,
    /// Zero or more (entity-relationship cardinality).
    ZeroOrMore,
    /// One or more (entity-relationship cardinality).
    OneOrMore,
}

impl ArrowShape {
    /// The glyph of this shape at the left end of an edge.
    pub open spec fn left_text(self) -> Seq<char> {
        match self {
            ArrowShape::Normal => "<"@,
            ArrowShape::Sharp => "("@,
            ArrowShape::X => "x"@,
            ArrowShape::Circle => "o"@,
            ArrowShape::Triangle => "<|"@,
            ArrowShape::Star => "*"@,
            ArrowShape::ZeroOrOne => "|o"@,
            ArrowShape::ExactlyOne => "||"@,
            ArrowShape::ZeroOrMore => "}o"@,
            ArrowShape::OneOrMore => "}|"@,
        }
    }

    /// The glyph of this shape at the right end of an edge.
    pub open spec fn right_text(self) -> Seq<char> {
        match self {
            ArrowShape::Normal => ">"@,
            ArrowShape::Sharp => ")"@,
            ArrowShape::X => "x"@,
            ArrowShape::Circle => "o"@,
            ArrowShape::Triangle => "|>"@,
            ArrowShape::Star => "*"@,
            ArrowShape::ZeroOrOne => "o|"@,
            ArrowShape::ExactlyOne => "||"@,
            ArrowShape::ZeroOrMore => "o{"@,
            ArrowShape::OneOrMore => "|{"@,
        }
    }

    /// Returns the left-oriented glyph of the arrow shape.
    pub fn left(&self) -> (r: &'static str)
        ensures
            r@ == self.left_text(),
    {
        match self {
            ArrowShape::Normal => "<",
            ArrowShape::Sharp => "(",
            ArrowShape::X => "x",
            ArrowShape::Circle => "o",
            ArrowShape::Triangle => "<|",
            ArrowShape::Star => "*",
            ArrowShape::ZeroOrOne => "|o",
            ArrowShape::ExactlyOne => "||",
            ArrowShape::ZeroOrMore => "}o",
            ArrowShape::OneOrMore => "}|",
        }
    }

    /// Returns the right-oriented glyph of the arrow shape.
    pub fn right(&self) -> (r: &'static str)
        ensures
            r@ == self.right_text(),
    {
        match self {
            ArrowShape::Normal => ">",
            ArrowShape::Sharp => ")",
            ArrowShape::X => "x",
            ArrowShape::Circle => "o",
            ArrowShape::Triangle => "|>",
            ArrowShape::Star => "*",
            ArrowShape::ZeroOrOne => "o|",
            ArrowShape::ExactlyOne => "||",
            ArrowShape::ZeroOrMore => "o{",
            ArrowShape::OneOrMore => "|{",
        }
    }
}

/// The left glyph of an optional arrow shape: nothing when there is none.
pub open spec fn left_glyph(shape: Option<ArrowShape>) -> Seq<char> {
    match shape {
        Some(s) => s.left_text(),
        None => Seq::empty(),
    }
}

/// The right glyph of an optional arrow shape: nothing when there is none.
pub open spec fn right_glyph(shape: Option<ArrowShape>) -> Seq<char> {
    match shape {
        Some(s) => s.right_text(),
        None => Seq::empty(),
    }
}

/// Appends the left glyph of an optional arrow shape.
pub fn push_left_glyph(out: &mut String, shape: Option<ArrowShape>)
    ensures
        final(out)@ == old(out)@ + left_glyph(shape),
{
    match shape {
        Some(s) => out.append(s.left()),
        None => {
            assert(old(out)@ + left_glyph(shape) =~= old(out)@);
        },
    }
}

/// Appends the right glyph of an optional arrow shape.
pub fn push_right_glyph(out: &mut String, shape: Option<ArrowShape>)
    ensures
        final(out)@ == old(out)@ + right_glyph(shape),
{
    match shape {
        Some(s) => out.append(s.right()),
        None => {
            assert(old(out)@ + right_glyph(shape) =~= old(out)@);
        },
    }
}

/// The style of the line of an edge.
#[derive(Copy, Clone, Debug, PartialEq, Eq, Structural, Hash)]
pub enum LineStyle {
    /// A solid line.
    Solid,
    /// A thick line.
    Thick,
    /// A dashed line.
    Dashed,
}

impl Default for LineStyle {
    fn default() -> (r: Self)
        ensures
            r == LineStyle::Solid,
    {
        LineStyle::Solid
    }
}

impl LineStyle {
    /// The two-character segment of this line style in class and
    /// entity-relationship diagrams.
    pub open spec fn segment_text(self) -> Seq<char> {
        match self {
            LineStyle::Solid => "--"@,
            LineStyle::Thick => "=="@,
            LineStyle::Dashed => ".."@,
        }
    }

    /// Returns the two-character segment of this line style.
    pub fn segment(&self) -> (r: &'static str)
        ensures
            r@ == self.segment_text(),
    {
        match self {
            LineStyle::Solid => "--",
            LineStyle::Thick => "==",
            LineStyle::Dashed => "..",
        }
    }
}

} // verus!
