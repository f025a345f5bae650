//! The style system: visual properties, named style classes, and the builder
//! that validates a style class.
use vstd::prelude::*;

use crate::errors::StyleClassError;
use crate::text::{decimal, digit_char, hex_byte, indent, push_decimal, push_hex_byte, push_indent};
use crate::TabbedDisplay;

verus! {

/// A colour given by its red, green and blue channels.
#[derive(Copy, Clone, Debug, PartialEq, Eq, Structural, Hash)]
pub struct Color {
    /// The red channel.
    pub red: u8,
    /// The green channel.
    pub green: u8,
    /// The blue channel.
    pub blue: u8,
}

impl Color {
    /// Creates a colour from its three channels.
    pub fn new(red: u8, green: u8, blue: u8) -> (r: Color)
        ensures
            r == (Color { red, green, blue }),
    {
        Color { red, green, blue }
    }

    /// The colour as `#rrggbb`.
    pub open spec fn hex_text(self) -> Seq<char> {
        seq!['#'] + hex_byte(self.red) + hex_byte(self.green) + hex_byte(self.blue)
    }

    /// Appends the colour as `#rrggbb`.
    pub fn push_hex(&self, out: &mut String)
        ensures
            final(out)@ == old(out)@ + self.hex_text(),
    {
        proof {
            reveal_strlit("#");
        }
        out.append("#");
        assert("#"@ =~= seq!['#']);
        push_hex_byte(out, self.red);
        push_hex_byte(out, self.green);
        push_hex_byte(out, self.blue);
        assert(final(out)@ =~= old(out)@ + self.hex_text());
    }

    /// Returns the colour as `#rrggbb`.
    pub fn to_hex(&self) -> (r: String)
        ensures
            r@ == self.hex_text(),
    {
        let mut out = String::new();
        self.push_hex(&mut out);
        assert(out@ =~= self.hex_text());
        out
    }
}

impl From<(u8, u8, u8)> for Color {
    fn from(rgb: (u8, u8, u8)) -> (r: Color) {
        Color { red: rgb.0, green: rgb.1, blue: rgb.2 }
    }
}

impl vstd::std_specs::convert::FromSpecImpl<(u8, u8, u8)> for Color {
    open spec fn obeys_from_spec() -> bool {
        true
    }

    open spec fn from_spec(rgb: (u8, u8, u8)) -> Color {
        Color { red: rgb.0, green: rgb.1, blue: rgb.2 }
    }
}

/// A length in pixels or in points.
#[derive(Copy, Clone, Debug, PartialEq, Eq, Structural, Hash)]
pub enum Unit {
    /// Pixels, written `px`.
    Pixel(u8),
    /// Points, written `pt`.
    Point(u8),
}

impl Unit {
    /// The length as text, such as `2px`.
    pub open spec fn text(self) -> Seq<char> {
        match self {
            Unit::Pixel(v) => decimal(v as nat) + "px"@,
            Unit::Point(v) => decimal(v as nat) + "pt"@,
        }
    }

    /// Appends the length as text.
    pub fn push_text(&self, out: &mut String)
        ensures
            final(out)@ == old(out)@ + self.text(),
    {
        match self {
            Unit::Pixel(v) => {
                push_decimal(out, *v as u64);
                out.append("px");
            },
            Unit::Point(v) => {
                push_decimal(out, *v as u64);
                out.append("pt");
            },
        }
        assert(final(out)@ =~= old(out)@ + self.text());
    }

    /// Returns the length as text, such as `2px`.
    pub fn to_string(&self) -> (r: String)
        ensures
            r@ == self.text(),
    {
        let mut out = String::new();
        self.push_text(&mut out);
        assert(out@ =~= self.text());
        out
    }
}

/// The weight of a font.
#[derive(Copy, Clone, Debug, PartialEq, Eq, Structural, Hash)]
pub enum FontWeight {
    /// Normal weight.
    Normal,
    /// Bold.
    Bold,
    /// Bolder than the parent.
    Bolder,
    /// Lighter than the parent.
    Lighter,
    /// A numeric weight (such as 100, 400 or 900).
    Number(u16),
}

impl Default for FontWeight {
    fn default() -> (r: Self)
        ensures
            r == FontWeight::Normal,
    {
        FontWeight::Normal
    }
}

impl FontWeight {
    /// The weight as text.
    pub open spec fn text(self) -> Seq<char> {
        match self {
            FontWeight::Normal => "normal"@,
            FontWeight::Bold => "bold"@,
            FontWeight::Bolder => "bolder"@,
            FontWeight::Lighter => "lighter"@,
            FontWeight::Number(v) => decimal(v as nat),
        }
    }

    /// Appends the weight as text.
    pub fn push_text(&self, out: &mut String)
        ensures
            final(out)@ == old(out)@ + self.text(),
    {
        match self {
            FontWeight::Normal => out.append("normal"),
            FontWeight::Bold => out.append("bold"),
            FontWeight::Bolder => out.append("bolder"),
            FontWeight::Lighter => out.append("lighter"),
            FontWeight::Number(v) => push_decimal(out, *v as u64),
        }
    }

    /// Returns the weight as text.
    pub fn to_string(&self) -> (r: String)
        ensures
            r@ == self.text(),
    {
        let mut out = String::new();
        self.push_text(&mut out);
        assert(out@ =~= self.text());
        out
    }
}

/// The style of a font.
#[derive(Copy, Clone, Debug, PartialEq, Eq, Structural, Hash)]
pub enum FontStyle {
    /// Upright.
    Normal,
    /// Italic.
    Italic,
    /// Oblique.
    Oblique,
}

impl Default for FontStyle {
    fn default() -> (r: Self)
        ensures
            r == FontStyle::Normal,
    {
        FontStyle::Normal
    }
}

impl FontStyle {
    /// The font style as text.
    pub open spec fn text(self) -> Seq<char> {
        match self {
            FontStyle::Normal => "normal"@,
            FontStyle::Italic => "italic"@,
            FontStyle::Oblique => "oblique"@,
        }
    }

    /// Returns the font style as text.
    pub fn as_str(&self) -> (r: &'static str)
        ensures
            r@ == self.text(),
    {
        match self {
            FontStyle::Normal => "normal",
            FontStyle::Italic => "italic",
            FontStyle::Oblique => "oblique",
        }
    }

    /// Returns the font style as text.
    pub fn to_string(&self) -> (r: String)
        ensures
            r@ == self.text(),
    {
        String::from_str(self.as_str())
    }
}

/// A visual attribute that a style class, a node or an edge may carry.
#[derive(Copy, Clone, Debug, PartialEq, Eq, Structural, Hash)]
pub enum StyleProperty {
    /// The fill colour (`fill: #ff0000`).
    Fill(Color),
    /// The border colour (`stroke: #000000`).
    Stroke(Color),
    /// The text colour (`color: #333333`).
    Color(Color),
    /// The border width (`stroke-width: 2px`).
    StrokeWidth(Unit),
    /// The font size (`font-size: 16px`).
    FontSize(Unit),
    /// The font weight (`font-weight: bold`).
    FontWeight(FontWeight),
    /// The font style (`font-style: italic`).
    FontStyle(FontStyle),
    /// The dash pattern of the border, as length and gap.
    StrokeDasharray(u8, u8),
    /// The dash offset of the border.
    StrokeDashoffset(u16),
    /// The opacity in hundredths: 50 is rendered as `0.50`.
    Opacity(u8),
    /// The radius of rounded corners.
    BorderRadius(Unit),
}

/// The two digits after the decimal point of `v` hundredths.
pub open spec fn hundredths(v: nat) -> Seq<char> {
    seq![digit_char((v % 100) / 10), digit_char(v % 10)]
}

impl StyleProperty {
    /// The kind of the property: its tag, whatever its payload.
    pub open spec fn kind(self) -> nat {
        match self {
            StyleProperty::Fill(_) => 0,
            StyleProperty::Stroke(_) => 1,
            StyleProperty::Color(_) => 2,
            StyleProperty::StrokeWidth(_) => 3,
            StyleProperty::FontSize(_) => 4,
            StyleProperty::FontWeight(_) => 5,
            StyleProperty::FontStyle(_) => 6,
            StyleProperty::StrokeDasharray(_, _) => 7,
            StyleProperty::StrokeDashoffset(_) => 8,
            StyleProperty::Opacity(_) => 9,
            StyleProperty::BorderRadius(_) => 10,
        }
    }

    fn kind_index(&self) -> (r: u8)
        ensures
            r as nat == self.kind(),
    {
        match self {
            StyleProperty::Fill(_) => 0,
            StyleProperty::Stroke(_) => 1,
            StyleProperty::Color(_) => 2,
            StyleProperty::StrokeWidth(_) => 3,
            StyleProperty::FontSize(_) => 4,
            StyleProperty::FontWeight(_) => 5,
            StyleProperty::FontStyle(_) => 6,
            StyleProperty::StrokeDasharray(_, _) => 7,
            StyleProperty::StrokeDashoffset(_) => 8,
            StyleProperty::Opacity(_) => 9,
            StyleProperty::BorderRadius(_) => 10,
        }
    }

    /// Returns whether `other` is of the same kind as `self`, whatever the
    /// payloads.
    pub fn is_same_type(self, other: StyleProperty) -> (r: bool)
        ensures
            r == (self.kind() == other.kind()),
    {
        self.kind_index() == other.kind_index()
    }

    /// The property as CSS-like text.
    pub open spec fn text(self) -> Seq<char> {
        match self {
            StyleProperty::Fill(c) => "fill: "@ + c.hex_text(),
            StyleProperty::Stroke(c) => "stroke: "@ + c.hex_text(),
            StyleProperty::Color(c) => "color: "@ + c.hex_text(),
            StyleProperty::StrokeWidth(u) => "stroke-width: "@ + u.text(),
            StyleProperty::FontSize(u) => "font-size: "@ + u.text(),
            StyleProperty::FontWeight(w) => "font-weight: "@ + w.text(),
            StyleProperty::FontStyle(s) => "font-style: "@ + s.text(),
            StyleProperty::StrokeDasharray(length, gap) => "stroke-dasharray: "@ + decimal(
                length as nat,
            ) + ", "@ + decimal(gap as nat),
            StyleProperty::StrokeDashoffset(offset) => "stroke-dashoffset: "@ + decimal(
                offset as nat,
            ),
            StyleProperty::Opacity(v) => "opacity: "@ + decimal(v as nat / 100) + "."@
                + hundredths(v as nat),
            StyleProperty::BorderRadius(u) => "rx: "@ + u.text() + ", ry: "@ + u.text(),
        }
    }

    /// Appends the property as CSS-like text.
    pub fn push_text(&self, out: &mut String)
        ensures
            final(out)@ == old(out)@ + self.text(),
    {
        match self {
            StyleProperty::Fill(c) => {
                out.append("fill: ");
                c.push_hex(out);
            },
            StyleProperty::Stroke(c) => {
                out.append("stroke: ");
                c.push_hex(out);
            },
            StyleProperty::Color(c) => {
                out.append("color: ");
                c.push_hex(out);
            },
            StyleProperty::StrokeWidth(u) => {
                out.append("stroke-width: ");
                u.push_text(out);
            },
            StyleProperty::FontSize(u) => {
                out.append("font-size: ");
                u.push_text(out);
            },
            StyleProperty::FontWeight(w) => {
                out.append("font-weight: ");
                w.push_text(out);
            },
            StyleProperty::FontStyle(s) => {
                out.append("font-style: ");
                out.append(s.as_str());
            },
            StyleProperty::StrokeDasharray(length, gap) => {
                out.append("stroke-dasharray: ");
                push_decimal(out, *length as u64);
                out.append(", ");
                push_decimal(out, *gap as u64);
            },
            StyleProperty::StrokeDashoffset(offset) => {
                out.append("stroke-dashoffset: ");
                push_decimal(out, *offset as u64);
            },
            StyleProperty::Opacity(v) => {
                out.append("opacity: ");
                push_decimal(out, (*v / 100) as u64);
                out.append(".");
                push_decimal(out, ((*v % 100) / 10) as u64);
                push_decimal(out, (*v % 10) as u64);
            },
            StyleProperty::BorderRadius(u) => {
                out.append("rx: ");
                u.push_text(out);
                out.append(", ry: ");
                u.push_text(out);
            },
        }
        assert(final(out)@ =~= old(out)@ + self.text());
    }

    /// Returns the property as CSS-like text.
    pub fn to_string(&self) -> (r: String)
        ensures
            r@ == self.text(),
    {
        let mut out = String::new();
        self.push_text(&mut out);
        assert(out@ =~= self.text());
        out
    }
}

/// Whether `props` holds a property of the same kind as `p`.
pub open spec fn has_kind(props: Seq<StyleProperty>, p: StyleProperty) -> bool {
    exists|i: int| 0 <= i < props.len() && (#[trigger] props[i]).kind() == p.kind()
}

/// Whether no two properties of `props` are of the same kind.
pub open spec fn distinct_kinds(props: Seq<StyleProperty>) -> bool {
    forall|i: int, j: int|
        0 <= i < j < props.len() ==> (#[trigger] props[i]).kind() != (#[trigger] props[j]).kind()
}

/// Returns whether `props` holds a property of the same kind as `p`.
pub fn contains_kind(props: &Vec<StyleProperty>, p: StyleProperty) -> (r: bool)
    ensures
        r == has_kind(props@, p),
{
    let mut i: usize = 0;
    while i < props.len()
        invariant
            i <= props.len(),
            forall|j: int| 0 <= j < i ==> (#[trigger] props@[j]).kind() != p.kind(),
        decreases props.len() - i,
    {
        if props[i].is_same_type(p) {
            return true;
        }
        i = i + 1;
    }
    false
}

/// The items of `props`, each as text followed by `suffix`, separated by `sep`.
pub open spec fn joined(props: Seq<StyleProperty>, sep: Seq<char>, suffix: Seq<char>) -> Seq<char>
    decreases props.len(),
{
    if props.len() == 0 {
        Seq::empty()
    } else if props.len() == 1 {
        props[0].text() + suffix
    } else {
        joined(props.drop_last(), sep, suffix) + sep + props.last().text() + suffix
    }
}

/// Appends the properties, each followed by `suffix`, separated by `sep`.
pub fn push_joined(out: &mut String, props: &Vec<StyleProperty>, sep: &str, suffix: &str)
    ensures
        final(out)@ == old(out)@ + joined(props@, sep@, suffix@),
{
    let ghost start = out@;
    let mut i: usize = 0;
    while i < props.len()
        invariant
            i <= props.len(),
            out@ == start + joined(props@.take(i as int), sep@, suffix@),
        decreases props.len() - i,
    {
        if i > 0 {
            out.append(sep);
        }
        props[i].push_text(out);
        out.append(suffix);
        assert(props@.take(i + 1).drop_last() =~= props@.take(i as int));
        i = i + 1;
        assert(out@ =~= start + joined(props@.take(i as int), sep@, suffix@));
    }
    assert(props@.take(i as int) =~= props@);
}

/// What a style class is: its name and its properties.
pub struct StyleClassView {
    pub name: Seq<char>,
    pub properties: Seq<StyleProperty>,
}

/// A named, non-empty set of properties of distinct kinds, which nodes and
/// edges may opt into.
#[derive(Clone, Debug, PartialEq, Eq, Hash)]
pub struct StyleClass {
    name: String,
    properties: Vec<StyleProperty>,
}

impl View for StyleClass {
    type V = StyleClassView;

    closed spec fn view(&self) -> StyleClassView {
        StyleClassView { name: self.name@, properties: self.properties@ }
    }
}

impl StyleClass {
    /// Returns the name of the style class.
    pub fn name(&self) -> (r: &str)
        ensures
            r@ == self@.name,
    {
        self.name.as_str()
    }

    /// Returns whether the style class is named `name`.
    pub fn has_name(&self, name: &String) -> (r: bool)
        ensures
            r == (self@.name == name@),
    {
        self.name == *name
    }

    /// Returns the properties of the style class, in insertion order.
    pub fn properties(&self) -> (r: &Vec<StyleProperty>)
        ensures
            r@ == self@.properties,
    {
        &self.properties
    }

    /// Returns a copy of the style class.
    pub fn duplicate(&self) -> (r: StyleClass)
        ensures
            r@ == self@,
    {
        let mut properties: Vec<StyleProperty> = Vec::new();
        let mut i: usize = 0;
        while i < self.properties.len()
            invariant
                i <= self.properties.len(),
                properties@ == self.properties@.take(i as int),
            decreases self.properties.len() - i,
        {
            properties.push(self.properties[i]);
            i = i + 1;
            assert(properties@ =~= self.properties@.take(i as int));
        }
        assert(properties@ =~= self.properties@);
        StyleClass { name: self.name.clone(), properties }
    }

    /// Returns whether `other` has the same name and the same properties.
    pub fn same_as(&self, other: &StyleClass) -> (r: bool)
        ensures
            r == (self@ == other@),
    {
        if self.name != other.name || self.properties.len() != other.properties.len() {
            return false;
        }
        let mut i: usize = 0;
        while i < self.properties.len()
            invariant
                i <= self.properties.len(),
                self.properties.len() == other.properties.len(),
                forall|j: int| 0 <= j < i ==> self.properties@[j] == other.properties@[j],
            decreases self.properties.len() - i,
        {
            if self.properties[i] != other.properties[i] {
                return false;
            }
            i = i + 1;
        }
        assert(self.properties@ =~= other.properties@);
        true
    }
}

/// The line `classDef <name> <property>,<property>...` of a style class at depth
/// `depth`.
pub open spec fn class_def_text(c: StyleClassView, depth: nat) -> Seq<char> {
    indent(depth) + "classDef "@ + c.name + " "@ + joined(c.properties, ","@, ""@) + "\n"@
}

impl TabbedDisplay for StyleClass {
    open spec fn tabbed(&self, depth: nat) -> Seq<char> {
        class_def_text(self@, depth)
    }

    fn fmt_tabbed(&self, out: &mut String, depth: usize) {
        push_indent(out, depth);
        out.append("classDef ");
        out.append(self.name.as_str());
        out.append(" ");
        push_joined(out, &self.properties, ",", "");
        out.append("\n");
        assert(final(out)@ =~= old(out)@ + self.tabbed(depth as nat));
    }
}

impl StyleClass {
    /// Returns the `classDef` line of the style class.
    pub fn to_string(&self) -> (r: String)
        ensures
            r@ == self.tabbed(0),
    {
        let mut out = String::new();
        self.fmt_tabbed(&mut out, 0);
        assert(out@ =~= self.tabbed(0));
        out
    }
}

/// What a style class builder holds so far.
pub struct StyleClassBuilderView {
    pub name: Option<Seq<char>>,
    pub properties: Seq<StyleProperty>,
}

impl StyleClassView {
    /// A valid style class: a non-empty name, and a non-empty sequence of
    /// properties of distinct kinds.
    pub open spec fn wf(self) -> bool {
        self.name.len() > 0 && self.properties.len() > 0 && distinct_kinds(self.properties)
    }
}

impl StyleClassBuilderView {
    /// What a builder keeps: a name, if set, is non-empty, and the properties
    /// are of distinct kinds.
    pub open spec fn wf(self) -> bool {
        distinct_kinds(self.properties) && (self.name matches Some(n) ==> n.len() > 0)
    }

    /// A builder with no name and no property.
    pub open spec fn empty() -> StyleClassBuilderView {
        StyleClassBuilderView { name: None, properties: Seq::empty() }
    }

    /// The outcome of setting the name.
    pub open spec fn with_name(self, name: Seq<char>) -> Result<
        StyleClassBuilderView,
        StyleClassError,
    > {
        if name.len() == 0 {
            Err(StyleClassError::EmptyName)
        } else {
            Ok(StyleClassBuilderView { name: Some(name), properties: self.properties })
        }
    }

    /// The outcome of adding a property.
    pub open spec fn with_property(self, p: StyleProperty) -> Result<
        StyleClassBuilderView,
        StyleClassError,
    > {
        if has_kind(self.properties, p) {
            Err(StyleClassError::DuplicateProperty(p))
        } else {
            Ok(StyleClassBuilderView { name: self.name, properties: self.properties.push(p) })
        }
    }

    /// The outcome of adding each of `props` in turn, stopping at the first
    /// failure.
    pub open spec fn with_properties(self, props: Seq<StyleProperty>) -> Result<
        StyleClassBuilderView,
        StyleClassError,
    >
        decreases props.len(),
    {
        if props.len() == 0 {
            Ok(self)
        } else {
            match self.with_properties(props.drop_last()) {
                Ok(b) => b.with_property(props.last()),
                Err(e) => Err(e),
            }
        }
    }

    /// The outcome of building.
    pub open spec fn build(self) -> Result<StyleClassView, StyleClassError> {
        if self.properties.len() == 0 {
            Err(StyleClassError::MissingProperties)
        } else {
            match self.name {
                Some(name) => Ok(StyleClassView { name, properties: self.properties }),
                None => Err(StyleClassError::MissingName),
            }
        }
    }
}

/// Validating builder of a style class.
#[derive(Clone, Debug, PartialEq, Eq, Hash)]
pub struct StyleClassBuilder {
    name: Option<String>,
    properties: Vec<StyleProperty>,
}

impl View for StyleClassBuilder {
    type V = StyleClassBuilderView;

    closed spec fn view(&self) -> StyleClassBuilderView {
        StyleClassBuilderView {
            name: match self.name {
                Some(n) => Some(n@),
                None => None,
            },
            properties: self.properties@,
        }
    }
}

/// Adding a property of a kind not yet present keeps the kinds distinct.
pub proof fn lemma_push_distinct(props: Seq<StyleProperty>, p: StyleProperty)
    requires
        distinct_kinds(props),
        !has_kind(props, p),
    ensures
        distinct_kinds(props.push(p)),
{
    let all = props.push(p);
    assert forall|i: int, j: int| 0 <= i < j < all.len() implies (#[trigger] all[i]).kind() != (
    #[trigger] all[j]).kind() by {
        assert(all[i] == props[i]);
        if j < props.len() {
            assert(all[j] == props[j]);
        } else {
            assert(all[j] == p);
        }
    }
}

impl Default for StyleClassBuilder {
    fn default() -> (r: Self)
        ensures
            r@ == StyleClassBuilderView::empty(),
            r@.wf(),
    {
        let r = StyleClassBuilder { name: None, properties: Vec::new() };
        assert(r@.properties =~= Seq::<StyleProperty>::empty());
        r
    }
}

impl StyleClassBuilder {
    /// Sets the name of the style class, replacing any earlier one.
    ///
    /// Fails with `EmptyName` when `name` is empty.
    pub fn name(self, name: &str) -> (r: Result<Self, StyleClassError>)
        ensures
            crate::view_result(r) == self@.with_name(name@),
            self@.wf() ==> (r matches Ok(b) ==> b@.wf()),
    {
        if name.is_empty() {
            return Err(StyleClassError::EmptyName);
        }
        let r = StyleClassBuilder { name: Some(name.to_owned()), properties: self.properties };
        Ok(r)
    }

    /// Adds a property to the style class, after those already there.
    ///
    /// Fails with `DuplicateProperty` when a property of the same kind is
    /// already there.
    pub fn property(self, property: StyleProperty) -> (r: Result<Self, StyleClassError>)
        ensures
            crate::view_result(r) == self@.with_property(property),
            self@.wf() ==> (r matches Ok(b) ==> b@.wf()),
    {
        if contains_kind(&self.properties, property) {
            return Err(StyleClassError::DuplicateProperty(property));
        }
        proof {
            if self@.wf() {
                lemma_push_distinct(self.properties@, property);
            }
        }
        let mut properties = self.properties;
        properties.push(property);
        Ok(StyleClassBuilder { name: self.name, properties })
    }

    /// Returns the properties added so far, in insertion order.
    pub fn get_properties(&self) -> (r: &Vec<StyleProperty>)
        ensures
            r@ == self@.properties,
    {
        &self.properties
    }

    /// Builds the style class.
    ///
    /// Fails with `MissingProperties` when no property was added, else with
    /// `MissingName` when no name was set.
    pub fn build(self) -> (r: Result<StyleClass, StyleClassError>)
        ensures
            crate::view_result(r) == self@.build(),
            self@.wf() ==> (r matches Ok(c) ==> c@.wf()),
    {
        if self.properties.len() == 0 {
            return Err(StyleClassError::MissingProperties);
        }
        match self.name {
            Some(name) => Ok(StyleClass { name, properties: self.properties }),
            None => Err(StyleClassError::MissingName),
        }
    }
}

} // verus!

verus! {

/// Adding properties of distinct kinds, in order, to a named builder with no
/// properties yet succeeds and keeps them in that order.
proof fn lemma_add_distinct(name: Seq<char>, props: Seq<StyleProperty>)
    requires
        distinct_kinds(props),
    ensures
        (StyleClassBuilderView { name: Some(name), properties: Seq::empty() }).with_properties(
            props,
        ) == Ok::<StyleClassBuilderView, StyleClassError>(
            StyleClassBuilderView { name: Some(name), properties: props },
        ),
    decreases props.len(),
{
    let b = StyleClassBuilderView { name: Some(name), properties: Seq::<StyleProperty>::empty() };
    if props.len() == 0 {
        assert(props =~= Seq::<StyleProperty>::empty());
    } else {
        let init = props.drop_last();
        assert(distinct_kinds(init)) by {
            assert forall|i: int, j: int| 0 <= i < j < init.len() implies (
            #[trigger] init[i]).kind() != (#[trigger] init[j]).kind() by {
                assert(init[i] == props[i] && init[j] == props[j]);
            }
        }
        lemma_add_distinct(name, init);
        assert(!has_kind(init, props.last())) by {
            if has_kind(init, props.last()) {
                let i = choose|i: int| 0 <= i < init.len() && (#[trigger] init[i]).kind()
                    == props.last().kind();
                assert(props[i] == init[i]);
                assert(props[i].kind() == props[props.len() - 1].kind());
            }
        }
        assert(init.push(props.last()) =~= props);
    }
}

/// A style class built from a non-empty name and a non-empty sequence of
/// properties of distinct kinds, added in order, has exactly that name and
/// those properties, in that order.
pub proof fn lemma_style_class_round_trip(name: Seq<char>, props: Seq<StyleProperty>)
    requires
        name.len() > 0,
        props.len() > 0,
        distinct_kinds(props),
    ensures
        StyleClassBuilderView::empty().with_name(name) matches Ok(named) && named.with_properties(
            props,
        ) matches Ok(full) && full.build() == Ok::<StyleClassView, StyleClassError>(
            StyleClassView { name, properties: props },
        ),
{
    lemma_add_distinct(name, props);
    assert(StyleClassBuilderView::empty().with_name(name) == Ok::<
        StyleClassBuilderView,
        StyleClassError,
    >(StyleClassBuilderView { name: Some(name), properties: Seq::empty() }));
}

} // verus!

verus! {

/// One line `<keyword><target> <name>` for each class, in order, at
/// indentation `prefix`.
pub open spec fn class_lines(
    prefix: Seq<char>,
    keyword: Seq<char>,
    target: Seq<char>,
    classes: Seq<StyleClassView>,
) -> Seq<char>
    decreases classes.len(),
{
    if classes.len() == 0 {
        Seq::empty()
    } else {
        class_lines(prefix, keyword, target, classes.drop_last()) + prefix + keyword + target
            + " "@ + classes.last().name + "\n"@
    }
}

/// Appends one line `<keyword><target> <name>` for each class, in order.
pub fn push_class_lines(
    out: &mut String,
    depth: usize,
    keyword: &str,
    target: &str,
    classes: &Vec<std::rc::Rc<StyleClass>>,
)
    ensures
        final(out)@ == old(out)@ + class_lines(
            crate::text::indent(depth as nat),
            keyword@,
            target@,
            crate::node::class_views(classes@),
        ),
{
    let ghost start = out@;
    let ghost views = crate::node::class_views(classes@);
    let mut i: usize = 0;
    while i < classes.len()
        invariant
            i <= classes.len(),
            views == crate::node::class_views(classes@),
            out@ == start + class_lines(indent(depth as nat), keyword@, target@, views.take(i as int)),
        decreases classes.len() - i,
    {
        push_indent(out, depth);
        out.append(keyword);
        out.append(target);
        out.append(" ");
        out.append(classes[i].name());
        assert(views.take(i + 1).drop_last() =~= views.take(i as int));
        assert(views[i as int] == classes@[i as int]@);
        i = i + 1;
        out.append("\n");
        assert(out@ =~= start + class_lines(indent(depth as nat), keyword@, target@, views.take(i as int)));
    }
    assert(views.take(i as int) =~= views);
}

/// The line `<keyword><target> <property> , <property> ...` of the properties, at
/// indentation `prefix`, or nothing when there are none.
pub open spec fn style_line(
    prefix: Seq<char>,
    keyword: Seq<char>,
    target: Seq<char>,
    props: Seq<StyleProperty>,
) -> Seq<char> {
    if props.len() == 0 {
        Seq::empty()
    } else {
        prefix + keyword + target + " "@ + joined(props, ", "@, " "@) + "\n"@
    }
}

/// Appends the line `<keyword><target> <property> , <property> ...` of the properties,
/// or nothing when there are none.
pub fn push_style_line(
    out: &mut String,
    depth: usize,
    keyword: &str,
    target: &str,
    props: &Vec<StyleProperty>,
)
    ensures
        final(out)@ == old(out)@ + style_line(indent(depth as nat), keyword@, target@, props@),
{
    if props.len() == 0 {
        assert(old(out)@ + style_line(indent(depth as nat), keyword@, target@, props@) =~= old(
            out,
        )@);
        return;
    }
    push_indent(out, depth);
    out.append(keyword);
    out.append(target);
    out.append(" ");
    push_joined(out, props, ", ", " ");
    out.append("\n");
    assert(final(out)@ =~= old(out)@ + style_line(indent(depth as nat), keyword@, target@, props@));
}

} // verus!

verus! {

/// Adding a property of a kind already present fails with
/// `DuplicateProperty`; and no addition, failed or not, changes the
/// properties already there.
pub proof fn lemma_duplicate_property_rejected(
    b: StyleClassBuilderView,
    p: StyleProperty,
    q: StyleProperty,
)
    requires
        has_kind(b.properties, p),
    ensures
        b.with_property(p) == Err::<StyleClassBuilderView, StyleClassError>(
            StyleClassError::DuplicateProperty(p),
        ),
        b.with_property(q) matches Ok(c) ==> c.properties.take(b.properties.len() as int)
            == b.properties && c.name == b.name,
{
    if let Ok(c) = b.with_property(q) {
        assert(c.properties.take(b.properties.len() as int) =~= b.properties);
    }
}

} // verus!
