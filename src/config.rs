//! Diagram-wide settings: title, direction, renderer, theme and look, the
//! configuration capabilities, and the generic configuration with its builder.
use vstd::prelude::*;

use crate::errors::ConfigError;

verus! {

/// The direction in which a diagram extends.
#[derive(Copy, Clone, Debug, PartialEq, Eq, Structural, Hash)]
pub enum Direction {
    /// Left to right (`LR`).
    LeftToRight,
    /// Top to bottom (`TB`).
    TopToBottom,
    /// Right to left (`RL`).
    RightToLeft,
    /// Bottom to top (`BT`).
    BottomToTop,
}

impl Default for Direction {
    fn default() -> (r: Self)
        ensures
            r == Direction::LeftToRight,
    {
        Direction::LeftToRight
    }
}

impl Direction {
    /// The direction as text.
    pub open spec fn text(self) -> Seq<char> {
        match self {
            Direction::LeftToRight => "LR"@,
            Direction::TopToBottom => "TB"@,
            Direction::RightToLeft => "RL"@,
            Direction::BottomToTop => "BT"@,
        }
    }

    /// Returns the direction as text.
    pub fn as_str(&self) -> (r: &'static str)
        ensures
            r@ == self.text(),
    {
        match self {
            Direction::LeftToRight => "LR",
            Direction::TopToBottom => "TB",
            Direction::RightToLeft => "RL",
            Direction::BottomToTop => "BT",
        }
    }

    /// Returns the direction as text.
    pub fn to_string(&self) -> (r: String)
        ensures
            r@ == self.text(),
    {
        String::from_str(self.as_str())
    }

    /// The direction turned from horizontal to vertical or back.
    pub open spec fn flipped(self) -> Direction {
        match self {
            Direction::LeftToRight => Direction::TopToBottom,
            Direction::TopToBottom => Direction::LeftToRight,
            Direction::RightToLeft => Direction::BottomToTop,
            Direction::BottomToTop => Direction::RightToLeft,
        }
    }

    /// Turns the direction from horizontal to vertical or back.
    pub fn flip(self) -> (r: Self)
        ensures
            r == self.flipped(),
    {
        match self {
            Direction::LeftToRight => Direction::TopToBottom,
            Direction::TopToBottom => Direction::LeftToRight,
            Direction::RightToLeft => Direction::BottomToTop,
            Direction::BottomToTop => Direction::RightToLeft,
        }
    }
}

/// The layout engine that draws the diagram.
#[derive(Copy, Clone, Debug, PartialEq, Eq, Structural, Hash)]
pub enum Renderer {
    /// The dagre layout, the default.
    Dagre,
    /// The Eclipse Layout Kernel.
    EclipseLayoutKernel,
}

impl Default for Renderer {
    fn default() -> (r: Self)
        ensures
            r == Renderer::Dagre,
    {
        Renderer::Dagre
    }
}

impl Renderer {
    /// The renderer as text.
    pub open spec fn text(self) -> Seq<char> {
        match self {
            Renderer::Dagre => "dagre"@,
            Renderer::EclipseLayoutKernel => "elk"@,
        }
    }

    /// Returns the renderer as text.
    pub fn as_str(&self) -> (r: &'static str)
        ensures
            r@ == self.text(),
    {
        match self {
            Renderer::Dagre => "dagre",
            Renderer::EclipseLayoutKernel => "elk",
        }
    }

    /// Returns the renderer as text.
    pub fn to_string(&self) -> (r: String)
        ensures
            r@ == self.text(),
    {
        String::from_str(self.as_str())
    }
}

/// The colour theme of the diagram.
#[derive(Copy, Clone, Debug, PartialEq, Eq, Structural, Hash)]
pub enum Theme {
    /// The Mermaid Chart theme.
    MermaidChart,
    /// A modern style.
    Neo,
    /// The dark variant of `Neo`.
    NeoDark,
    /// The default theme.
    Default,
    /// Green accents and natural tones.
    Forest,
    /// A minimal style.
    Base,
    /// For dark backgrounds.
    Dark,
    /// Muted colours.
    Neutral,
    /// A vibrant style.
    Redux,
    /// The dark variant of `Redux`.
    ReduxDark,
}

impl Default for Theme {
    fn default() -> (r: Self)
        ensures
            r == Theme::Default,
    {
        Theme::Default
    }
}

impl Theme {
    /// The theme as text.
    pub open spec fn text(self) -> Seq<char> {
        match self {
            Theme::MermaidChart => "mc"@,
            Theme::Neo => "neo"@,
            Theme::NeoDark => "neo-dark"@,
            Theme::Default => "default"@,
            Theme::Forest => "forest"@,
            Theme::Base => "base"@,
            Theme::Dark => "dark"@,
            Theme::Neutral => "neutral"@,
            Theme::Redux => "redux"@,
            Theme::ReduxDark => "redux-dark"@,
        }
    }

    /// Returns the theme as text.
    pub fn as_str(&self) -> (r: &'static str)
        ensures
            r@ == self.text(),
    {
        match self {
            Theme::MermaidChart => "mc",
            Theme::Neo => "neo",
            Theme::NeoDark => "neo-dark",
            Theme::Default => "default",
            Theme::Forest => "forest",
            Theme::Base => "base",
            Theme::Dark => "dark",
            Theme::Neutral => "neutral",
            Theme::Redux => "redux",
            Theme::ReduxDark => "redux-dark",
        }
    }

    /// Returns the theme as text.
    pub fn to_string(&self) -> (r: String)
        ensures
            r@ == self.text(),
    {
        String::from_str(self.as_str())
    }
}

/// The drawing style of the diagram.
#[derive(Copy, Clone, Debug, PartialEq, Eq, Structural, Hash)]
pub enum Look {
    /// A modern style.
    Neo,
    /// A sketch-like style.
    HandDrawn,
    /// The traditional style, the default.
    Classic,
}

impl Default for Look {
    fn default() -> (r: Self)
        ensures
            r == Look::Classic,
    {
        Look::Classic
    }
}

impl Look {
    /// The look as text.
    pub open spec fn text(self) -> Seq<char> {
        match self {
            Look::Neo => "neo"@,
            Look::HandDrawn => "handDrawn"@,
            Look::Classic => "classic"@,
        }
    }

    /// Returns the look as text.
    pub fn as_str(&self) -> (r: &'static str)
        ensures
            r@ == self.text(),
    {
        match self {
            Look::Neo => "neo",
            Look::HandDrawn => "handDrawn",
            Look::Classic => "classic",
        }
    }

    /// Returns the look as text.
    pub fn to_string(&self) -> (r: String)
        ensures
            r@ == self.text(),
    {
        String::from_str(self.as_str())
    }
}

/// The settings shared by every kind of diagram.
pub struct ConfigView {
    pub title: Option<Seq<char>>,
    pub renderer: Renderer,
    pub direction: Direction,
    pub theme: Theme,
    pub look: Look,
}

impl ConfigView {
    /// The settings of a configuration left at its defaults.
    pub open spec fn defaults() -> ConfigView {
        ConfigView {
            title: None,
            renderer: Renderer::Dagre,
            direction: Direction::LeftToRight,
            theme: Theme::Default,
            look: Look::Classic,
        }
    }

    /// Whether a diagram omits its configuration header: no title and the
    /// default renderer.
    pub open spec fn header_suppressed(self) -> bool {
        self.title is None && self.renderer == Renderer::Dagre
    }

    /// The generic front matter of these settings.
    pub open spec fn front_matter(self) -> Seq<char> {
        "---\n"@ + "config:\n"@ + "  layout: "@ + self.renderer.text() + "\n"@ + "  theme: "@
            + self.theme.text() + "\n"@ + "  look: "@ + self.look.text() + "\n"@ + title_line(
            self.title,
        ) + "---\n"@
    }
}

/// The `title:` line of a front matter, if there is a title.
pub open spec fn title_line(title: Option<Seq<char>>) -> Seq<char> {
    match title {
        Some(t) => "title: "@ + t + "\n"@,
        None => Seq::empty(),
    }
}

/// Appends the `title:` line of a front matter, if there is a title.
pub fn push_title_line(out: &mut String, title: &Option<String>)
    ensures
        final(out)@ == old(out)@ + title_line(match title {
            Some(t) => Some(t@),
            None => None,
        }),
{
    match title {
        Some(t) => {
            out.append("title: ");
            out.append(t.as_str());
            out.append("\n");
        },
        None => {},
    }
    assert(final(out)@ =~= old(out)@ + title_line(match title {
        Some(t) => Some(t@),
        None => None,
    }));
}

/// Returns whether the two optional strings are equal.
pub fn same_opt_string(a: &Option<String>, b: &Option<String>) -> (r: bool)
    ensures
        r == (opt_view(*a) == opt_view(*b)),
{
    match (a, b) {
        (Some(x), Some(y)) => *x == *y,
        (None, None) => true,
        _ => false,
    }
}

/// Diagram-wide settings.
pub trait Configuration: Sized {
    /// The settings shared by every kind of diagram.
    spec fn config_view(&self) -> ConfigView;

    /// The header that a diagram renders before its body.
    spec fn header(&self) -> Seq<char>;

    /// Returns the title, if any.
    fn title(&self) -> (r: Option<&str>)
        ensures
            match r {
                Some(t) => self.config_view().title == Some(t@),
                None => self.config_view().title is None,
            },
    ;

    /// Returns the renderer.
    fn renderer(&self) -> (r: Renderer)
        ensures
            r == self.config_view().renderer,
    ;

    /// Returns the direction.
    fn direction(&self) -> (r: Direction)
        ensures
            r == self.config_view().direction,
    ;

    /// Returns the theme.
    fn theme(&self) -> (r: Theme)
        ensures
            r == self.config_view().theme,
    ;

    /// Returns the look.
    fn look(&self) -> (r: Look)
        ensures
            r == self.config_view().look,
    ;

    /// Appends the header that a diagram renders before its body.
    fn push_header(&self, out: &mut String)
        ensures
            final(out)@ == old(out)@ + self.header(),
    ;
}

/// Validating builder of a configuration.
pub trait ConfigurationBuilder: Sized {
    /// The configuration that this builder makes.
    type Configuration: Configuration;

    /// The settings shared by every kind of diagram, as set so far.
    spec fn settings(&self) -> ConfigView;

    /// Whether `c` keeps what this builder holds beyond the common settings.
    spec fn keeps_extras(&self, c: &Self::Configuration) -> bool;

    /// Whether `other` holds what this builder holds beyond the common
    /// settings.
    spec fn same_extras(&self, other: &Self) -> bool;

    /// The outcome of building.
    spec fn spec_build(&self) -> Result<Self::Configuration, ConfigError>;

    /// Building always succeeds, with the settings and the extras of the
    /// builder.
    proof fn lemma_spec_build(&self)
        ensures
            self.spec_build() matches Ok(c) && c.config_view() == self.settings()
                && self.keeps_extras(&c),
    ;

    /// Builds the configuration; this always succeeds.
    fn build(self) -> (r: Result<Self::Configuration, ConfigError>)
        ensures
            r == self.spec_build(),
            r matches Ok(c) && c.config_view() == self.settings() && self.keeps_extras(&c),
    ;

    /// Sets the title, replacing any earlier one.
    ///
    /// Fails with `EmptyTitle` when `title` is empty.
    fn title(self, title: &str) -> (r: Result<Self, ConfigError>)
        ensures
            title@.len() == 0 ==> r == Err::<Self, ConfigError>(ConfigError::EmptyTitle),
            title@.len() > 0 ==> (r matches Ok(b) && b.settings() == (ConfigView {
                title: Some(title@),
                ..self.settings()
            }) && b.same_extras(&self)),
    ;

    /// Sets the renderer.
    fn renderer(self, renderer: Renderer) -> (r: Self)
        ensures
            r.settings() == (ConfigView { renderer, ..self.settings() }),
            r.same_extras(&self),
    ;

    /// Sets the direction.
    fn direction(self, direction: Direction) -> (r: Self)
        ensures
            r.settings() == (ConfigView { direction, ..self.settings() }),
            r.same_extras(&self),
    ;
}

/// The configuration shared by every kind of diagram.
#[derive(Clone, Debug, PartialEq, Eq, Hash)]
pub struct GenericConfiguration {
    title: Option<String>,
    renderer: Renderer,
    direction: Direction,
    theme: Theme,
    look: Look,
}

/// The view of an optional string.
pub open spec fn opt_view(s: Option<String>) -> Option<Seq<char>> {
    match s {
        Some(t) => Some(t@),
        None => None,
    }
}

impl View for GenericConfiguration {
    type V = ConfigView;

    closed spec fn view(&self) -> ConfigView {
        ConfigView {
            title: opt_view(self.title),
            renderer: self.renderer,
            direction: self.direction,
            theme: self.theme,
            look: self.look,
        }
    }
}

impl Default for GenericConfiguration {
    fn default() -> (r: Self)
        ensures
            r@ == ConfigView::defaults(),
    {
        GenericConfiguration {
            title: None,
            renderer: Renderer::Dagre,
            direction: Direction::LeftToRight,
            theme: Theme::Default,
            look: Look::Classic,
        }
    }
}

impl GenericConfiguration {
    /// Appends the front matter, whatever the settings.
    pub fn push_front_matter(&self, out: &mut String)
        ensures
            final(out)@ == old(out)@ + self@.front_matter(),
    {
        out.append("---\n");
        out.append("config:\n");
        out.append("  layout: ");
        out.append(self.renderer.as_str());
        out.append("\n");
        out.append("  theme: ");
        out.append(self.theme.as_str());
        out.append("\n");
        out.append("  look: ");
        out.append(self.look.as_str());
        out.append("\n");
        push_title_line(out, &self.title);
        out.append("---\n");
        assert(final(out)@ =~= old(out)@ + self@.front_matter());
    }

    /// Returns the front matter, whatever the settings.
    pub fn to_string(&self) -> (r: String)
        ensures
            r@ == self@.front_matter(),
    {
        let mut out = String::new();
        self.push_front_matter(&mut out);
        assert(out@ =~= self@.front_matter());
        out
    }
}

impl Configuration for GenericConfiguration {
    open spec fn config_view(&self) -> ConfigView {
        self@
    }

    /// The front matter, omitted when the settings ask for no header.
    open spec fn header(&self) -> Seq<char> {
        if self@.header_suppressed() {
            Seq::empty()
        } else {
            self@.front_matter()
        }
    }

    fn title(&self) -> (r: Option<&str>) {
        match &self.title {
            Some(t) => {
                assert(self@.title == Some(t@));
                assert(self.config_view() == self@);
                Some(t.as_str())
            },
            None => None,
        }
    }

    fn renderer(&self) -> (r: Renderer) {
        self.renderer
    }

    fn direction(&self) -> (r: Direction) {
        self.direction
    }

    fn theme(&self) -> (r: Theme) {
        self.theme
    }

    fn look(&self) -> (r: Look) {
        self.look
    }

    fn push_header(&self, out: &mut String) {
        if self.title.is_none() && self.renderer == Renderer::Dagre {
            assert(old(out)@ + self.header() =~= old(out)@);
        } else {
            self.push_front_matter(out);
        }
    }
}

/// Validating builder of a `GenericConfiguration`.
#[derive(Clone, Debug, PartialEq, Eq, Hash)]
pub struct GenericConfigurationBuilder {
    title: Option<String>,
    renderer: Renderer,
    direction: Direction,
    theme: Theme,
    look: Look,
}

impl View for GenericConfigurationBuilder {
    type V = ConfigView;

    closed spec fn view(&self) -> ConfigView {
        ConfigView {
            title: opt_view(self.title),
            renderer: self.renderer,
            direction: self.direction,
            theme: self.theme,
            look: self.look,
        }
    }
}

impl Default for GenericConfigurationBuilder {
    fn default() -> (r: Self)
        ensures
            r@ == ConfigView::defaults(),
    {
        GenericConfigurationBuilder {
            title: None,
            renderer: Renderer::Dagre,
            direction: Direction::LeftToRight,
            theme: Theme::Default,
            look: Look::Classic,
        }
    }
}

impl GenericConfigurationBuilder {
    /// Sets the theme.
    pub fn theme(self, theme: Theme) -> (r: Self)
        ensures
            r@ == (ConfigView { theme, ..self@ }),
    {
        GenericConfigurationBuilder { theme, ..self }
    }

    /// Sets the look.
    pub fn look(self, look: Look) -> (r: Self)
        ensures
            r@ == (ConfigView { look, ..self@ }),
    {
        GenericConfigurationBuilder { look, ..self }
    }
}

impl ConfigurationBuilder for GenericConfigurationBuilder {
    type Configuration = GenericConfiguration;

    open spec fn settings(&self) -> ConfigView {
        self@
    }

    open spec fn keeps_extras(&self, c: &GenericConfiguration) -> bool {
        true
    }

    open spec fn same_extras(&self, other: &Self) -> bool {
        true
    }

    proof fn lemma_spec_build(&self) {
        let c = self.spec_build()->Ok_0;
        assert(c@ == self@);
        assert(c.config_view() == c@);
        assert(self.settings() == self@);
        assert(self.keeps_extras(&c));
    }

    closed spec fn spec_build(&self) -> Result<GenericConfiguration, ConfigError> {
        Ok(
            GenericConfiguration {
                title: self.title,
                renderer: self.renderer,
                direction: self.direction,
                theme: self.theme,
                look: self.look,
            },
        )
    }

    fn build(self) -> (r: Result<GenericConfiguration, ConfigError>) {
        let c = GenericConfiguration {
            title: self.title,
            renderer: self.renderer,
            direction: self.direction,
            theme: self.theme,
            look: self.look,
        };
        assert(c@ == self@);
        assert(c.config_view() == c@);
        assert(self.settings() == self@);
        Ok(c)
    }

    fn title(self, title: &str) -> (r: Result<Self, ConfigError>) {
        if title.is_empty() {
            return Err(ConfigError::EmptyTitle);
        }
        Ok(GenericConfigurationBuilder { title: Some(title.to_owned()), ..self })
    }

    fn renderer(self, renderer: Renderer) -> (r: Self) {
        GenericConfigurationBuilder { renderer, ..self }
    }

    fn direction(self, direction: Direction) -> (r: Self) {
        GenericConfigurationBuilder { direction, ..self }
    }
}

} // verus!
