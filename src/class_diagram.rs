//! Class diagrams: their configuration, the diagram and builder types, and
//! their rendering.
use vstd::prelude::*;

use crate::class_edge::ClassEdge;
use crate::class_node::ClassNode;
use crate::config::{
    ConfigView, Configuration, ConfigurationBuilder, Direction, GenericConfiguration,
    GenericConfigurationBuilder, Look, Renderer, Theme,
};
use crate::diagram::{standard_text, GenericDiagram, GenericDiagramBuilder};
use crate::errors::ConfigError;
use crate::TabbedDisplay;

verus! {

/// What a class diagram configuration holds.
pub struct ClassDiagramConfigurationView {
    pub generic: ConfigView,
    pub hide_empty_members_box: bool,
}

/// The configuration of a class diagram.
#[derive(Clone, Debug, PartialEq, Eq, Hash)]
pub struct ClassDiagramConfiguration {
    generic: GenericConfiguration,
    hide_empty_members_box: bool,
}

impl View for ClassDiagramConfiguration {
    type V = ClassDiagramConfigurationView;

    closed spec fn view(&self) -> ClassDiagramConfigurationView {
        ClassDiagramConfigurationView {
            generic: self.generic@,
            hide_empty_members_box: self.hide_empty_members_box,
        }
    }
}

impl Default for ClassDiagramConfiguration {
    fn default() -> (r: Self)
        ensures
            r@ == (ClassDiagramConfigurationView {
                generic: ConfigView::defaults(),
                hide_empty_members_box: false,
            }),
    {
        ClassDiagramConfiguration {
            generic: GenericConfiguration::default(),
            hide_empty_members_box: false,
        }
    }
}

impl ClassDiagramConfiguration {
    /// Returns whether classes without members are drawn without the
    /// members box.
    pub fn hide_empty_members_box(&self) -> (r: bool)
        ensures
            r == self@.hide_empty_members_box,
    {
        self.hide_empty_members_box
    }
}

impl Configuration for ClassDiagramConfiguration {
    open spec fn config_view(&self) -> ConfigView {
        self@.generic
    }

    /// The generic front matter, omitted when the settings ask for no header.
    open spec fn header(&self) -> Seq<char> {
        if self@.generic.header_suppressed() {
            Seq::empty()
        } else {
            self@.generic.front_matter()
        }
    }

    fn title(&self) -> (r: Option<&str>) {
        self.generic.title()
    }

    fn renderer(&self) -> (r: Renderer) {
        self.generic.renderer()
    }

    fn direction(&self) -> (r: Direction) {
        self.generic.direction()
    }

    fn theme(&self) -> (r: Theme) {
        self.generic.theme()
    }

    fn look(&self) -> (r: Look) {
        self.generic.look()
    }

    fn push_header(&self, out: &mut String) {
        self.generic.push_header(out);
    }
}

/// Validating builder of a `ClassDiagramConfiguration`.
#[derive(Clone, Debug, PartialEq, Eq, Hash)]
pub struct ClassDiagramConfigurationBuilder {
    generic: GenericConfigurationBuilder,
    hide_empty_members_box: bool,
}

impl View for ClassDiagramConfigurationBuilder {
    type V = ClassDiagramConfigurationView;

    closed spec fn view(&self) -> ClassDiagramConfigurationView {
        ClassDiagramConfigurationView {
            generic: self.generic@,
            hide_empty_members_box: self.hide_empty_members_box,
        }
    }
}

impl Default for ClassDiagramConfigurationBuilder {
    fn default() -> (r: Self)
        ensures
            r@ == (ClassDiagramConfigurationView {
                generic: ConfigView::defaults(),
                hide_empty_members_box: false,
            }),
    {
        ClassDiagramConfigurationBuilder {
            generic: GenericConfigurationBuilder::default(),
            hide_empty_members_box: false,
        }
    }
}

impl ClassDiagramConfigurationBuilder {
    /// Sets whether classes without members are drawn without the members
    /// box.
    pub fn hide_empty_members_box(self, hide: bool) -> (r: Self)
        ensures
            r@ == (ClassDiagramConfigurationView { hide_empty_members_box: hide, ..self@ }),
    {
        ClassDiagramConfigurationBuilder { hide_empty_members_box: hide, ..self }
    }
}

impl ConfigurationBuilder for ClassDiagramConfigurationBuilder {
    type Configuration = ClassDiagramConfiguration;

    open spec fn settings(&self) -> ConfigView {
        self@.generic
    }

    open spec fn same_extras(&self, other: &Self) -> bool {
        self@.hide_empty_members_box == other@.hide_empty_members_box
    }

    /// Whether empty member boxes are hidden carries over.
    open spec fn keeps_extras(&self, c: &ClassDiagramConfiguration) -> bool {
        c@.hide_empty_members_box == self@.hide_empty_members_box
    }

    proof fn lemma_spec_build(&self) {
        self.generic.lemma_spec_build();
    }

    closed spec fn spec_build(&self) -> Result<ClassDiagramConfiguration, ConfigError> {
        match self.generic.spec_build() {
            Ok(generic) => Ok(
                ClassDiagramConfiguration {
                    generic,
                    hide_empty_members_box: self.hide_empty_members_box,
                },
            ),
            Err(e) => Err(e),
        }
    }

    fn build(self) -> (r: Result<ClassDiagramConfiguration, ConfigError>) {
        proof {
            self.generic.lemma_spec_build();
        }
        match self.generic.build() {
            Ok(generic) => Ok(
                ClassDiagramConfiguration {
                    generic,
                    hide_empty_members_box: self.hide_empty_members_box,
                },
            ),
            Err(e) => Err(e),
        }
    }

    fn title(self, title: &str) -> (r: Result<Self, ConfigError>) {
        match self.generic.title(title) {
            Ok(generic) => Ok(ClassDiagramConfigurationBuilder { generic, ..self }),
            Err(e) => Err(e),
        }
    }

    fn renderer(self, renderer: Renderer) -> (r: Self) {
        ClassDiagramConfigurationBuilder { generic: self.generic.renderer(renderer), ..self }
    }

    fn direction(self, direction: Direction) -> (r: Self) {
        ClassDiagramConfigurationBuilder { generic: self.generic.direction(direction), ..self }
    }
}

/// A class diagram.
pub type ClassDiagram = GenericDiagram<ClassNode, ClassEdge, ClassDiagramConfiguration>;

/// Builder of a class diagram.
pub type ClassDiagramBuilder = GenericDiagramBuilder<ClassNode, ClassEdge, ClassDiagramConfiguration>;

impl TabbedDisplay for GenericDiagram<ClassNode, ClassEdge, ClassDiagramConfiguration> {
    /// The `classDiagram` keyword, then the common layout.
    open spec fn tabbed(&self, depth: nat) -> Seq<char> {
        standard_text(self@, "classDiagram"@, depth)
    }

    fn fmt_tabbed(&self, out: &mut String, depth: usize) {
        self.push_standard(out, "classDiagram", depth);
    }
}

impl GenericDiagram<ClassNode, ClassEdge, ClassDiagramConfiguration> {
    /// Returns the text of the class diagram.
    pub fn to_string(&self) -> (r: String)
        ensures
            r@ == self.tabbed(0),
    {
        let mut out = String::new();
        self.fmt_tabbed(&mut out, 0);
        assert(out@ =~= self.tabbed(0));
        out
    }
}

} // verus!
