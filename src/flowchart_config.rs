//! Configuration of flowcharts: the common settings, plus label handling and
//! the curve of edges.
use vstd::prelude::*;

use crate::config::{
    title_line, ConfigView, Configuration, ConfigurationBuilder, Direction,
    GenericConfiguration, GenericConfigurationBuilder, Look, Renderer, Theme,
};
use crate::errors::ConfigError;
use crate::flowchart_edge::CurveStyle;

verus! {

/// What a flowchart configuration holds.
pub struct FlowchartConfigurationView {
    pub generic: ConfigView,
    pub markdown_auto_wrap: bool,
    pub html_labels: bool,
    pub curve_style: CurveStyle,
}

/// The `config:` block of the front matter of a flowchart.
pub open spec fn flowchart_config_block(c: ConfigView) -> Seq<char> {
    "config:\n"@ + "  theme: "@ + c.theme.text() + "\n"@ + "  look: "@ + c.look.text() + "\n"@
        + "  flowchart:\n"@ + "    defaultRenderer: \""@ + c.renderer.text() + "\"\n"@
}

/// The front matter of a flowchart with these settings.
pub open spec fn flowchart_front_matter(c: ConfigView) -> Seq<char> {
    "---\n"@ + flowchart_config_block(c) + title_line(c.title) + "---\n"@
}

fn push_flowchart_config_block(out: &mut String, theme: Theme, look: Look, renderer: Renderer)
    ensures
        final(out)@ == old(out)@ + "config:\n"@ + "  theme: "@ + theme.text() + "\n"@ + "  look: "@
            + look.text() + "\n"@ + "  flowchart:\n"@ + "    defaultRenderer: \""@ + renderer.text()
            + "\"\n"@,
{
    out.append("config:\n");
    out.append("  theme: ");
    out.append(theme.as_str());
    out.append("\n");
    out.append("  look: ");
    out.append(look.as_str());
    out.append("\n");
    out.append("  flowchart:\n");
    out.append("    defaultRenderer: \"");
    out.append(renderer.as_str());
    out.append("\"\n");
    assert(final(out)@ =~= old(out)@ + "config:\n"@ + "  theme: "@ + theme.text() + "\n"@
        + "  look: "@ + look.text() + "\n"@ + "  flowchart:\n"@ + "    defaultRenderer: \""@
        + renderer.text() + "\"\n"@);
}

/// The configuration of a flowchart.
#[derive(Clone, Debug, PartialEq, Eq, Hash)]
pub struct FlowchartConfiguration {
    generic: GenericConfiguration,
    markdown_auto_wrap: bool,
    html_labels: bool,
    curve_style: CurveStyle,
}

impl View for FlowchartConfiguration {
    type V = FlowchartConfigurationView;

    closed spec fn view(&self) -> FlowchartConfigurationView {
        FlowchartConfigurationView {
            generic: self.generic@,
            markdown_auto_wrap: self.markdown_auto_wrap,
            html_labels: self.html_labels,
            curve_style: self.curve_style,
        }
    }
}

impl Default for FlowchartConfiguration {
    fn default() -> (r: Self)
        ensures
            r@ == (FlowchartConfigurationView {
                generic: ConfigView::defaults(),
                markdown_auto_wrap: false,
                html_labels: false,
                curve_style: CurveStyle::Basis,
            }),
    {
        FlowchartConfiguration {
            generic: GenericConfiguration::default(),
            markdown_auto_wrap: false,
            html_labels: false,
            curve_style: CurveStyle::Basis,
        }
    }
}

impl FlowchartConfiguration {
    /// Returns whether markdown labels wrap automatically.
    pub fn markdown_auto_wrap(&self) -> (r: bool)
        ensures
            r == self@.markdown_auto_wrap,
    {
        self.markdown_auto_wrap
    }

    /// Returns whether html labels are enabled.
    pub fn html_labels(&self) -> (r: bool)
        ensures
            r == self@.html_labels,
    {
        self.html_labels
    }

    /// Returns the curve style of edges.
    pub fn curve_style(&self) -> (r: CurveStyle)
        ensures
            r == self@.curve_style,
    {
        self.curve_style
    }

    /// Returns the header: empty without title and with the default
    /// renderer, the front matter otherwise.
    pub fn to_string(&self) -> (r: String)
        ensures
            r@ == self.header(),
    {
        let mut out = String::new();
        self.push_header(&mut out);
        assert(out@ =~= self.header());
        out
    }
}

impl Configuration for FlowchartConfiguration {
    open spec fn config_view(&self) -> ConfigView {
        self@.generic
    }

    /// The front matter, omitted when the settings ask for no header.
    open spec fn header(&self) -> Seq<char> {
        if self@.generic.header_suppressed() {
            Seq::empty()
        } else {
            flowchart_front_matter(self@.generic)
        }
    }

    fn title(&self) -> (r: Option<&str>) {
        self.generic.title()
    }

    fn renderer(&self) -> (r: Renderer) {
        self.generic.renderer()
    }

    fn direction(&self) -> (r: Direction) {
        self.generic.direction()
    }

    fn theme(&self) -> (r: Theme) {
        self.generic.theme()
    }

    fn look(&self) -> (r: Look) {
        self.generic.look()
    }

    fn push_header(&self, out: &mut String) {
        let title = self.generic.title();
        if title.is_none() && self.generic.renderer() == Renderer::Dagre {
            assert(old(out)@ + self.header() =~= old(out)@);
            return;
        }
        out.append("---\n");
        push_flowchart_config_block(
            out,
            self.generic.theme(),
            self.generic.look(),
            self.generic.renderer(),
        );
        assert(out@ =~= old(out)@ + "---\n"@ + flowchart_config_block(self@.generic));
        let ghost before = out@;
        match title {
            Some(t) => {
                out.append("title: ");
                out.append(t);
                out.append("\n");
            },
            None => {},
        }
        assert(out@ =~= before + title_line(self@.generic.title));
        out.append("---\n");
        assert(final(out)@ =~= old(out)@ + self.header());
    }
}

/// Validating builder of a `FlowchartConfiguration`.
#[derive(Clone, Debug, PartialEq, Eq, Hash)]
pub struct FlowchartConfigurationBuilder {
    generic: GenericConfigurationBuilder,
    html_labels: bool,
    markdown_auto_wrap: bool,
    curve_style: CurveStyle,
}

impl View for FlowchartConfigurationBuilder {
    type V = FlowchartConfigurationView;

    closed spec fn view(&self) -> FlowchartConfigurationView {
        FlowchartConfigurationView {
            generic: self.generic@,
            markdown_auto_wrap: self.markdown_auto_wrap,
            html_labels: self.html_labels,
            curve_style: self.curve_style,
        }
    }
}

impl Default for FlowchartConfigurationBuilder {
    fn default() -> (r: Self)
        ensures
            r@ == (FlowchartConfigurationView {
                generic: ConfigView::defaults(),
                markdown_auto_wrap: false,
                html_labels: false,
                curve_style: CurveStyle::Basis,
            }),
    {
        FlowchartConfigurationBuilder {
            generic: GenericConfigurationBuilder::default(),
            html_labels: false,
            markdown_auto_wrap: false,
            curve_style: CurveStyle::Basis,
        }
    }
}

impl FlowchartConfigurationBuilder {
    /// Sets whether html labels are enabled.
    pub fn html_labels(self, enable: bool) -> (r: Self)
        ensures
            r@ == (FlowchartConfigurationView { html_labels: enable, ..self@ }),
    {
        FlowchartConfigurationBuilder { html_labels: enable, ..self }
    }

    /// Sets whether markdown labels wrap automatically.
    pub fn markdown_auto_wrap(self, auto_wrap: bool) -> (r: Self)
        ensures
            r@ == (FlowchartConfigurationView { markdown_auto_wrap: auto_wrap, ..self@ }),
    {
        FlowchartConfigurationBuilder { markdown_auto_wrap: auto_wrap, ..self }
    }

    /// Sets the curve style of edges.
    pub fn curve_style(self, style: CurveStyle) -> (r: Self)
        ensures
            r@ == (FlowchartConfigurationView { curve_style: style, ..self@ }),
    {
        FlowchartConfigurationBuilder { curve_style: style, ..self }
    }

    /// Sets the theme.
    pub fn theme(self, theme: Theme) -> (r: Self)
        ensures
            r@ == (FlowchartConfigurationView {
                generic: ConfigView { theme, ..self@.generic },
                ..self@
            }),
    {
        FlowchartConfigurationBuilder { generic: self.generic.theme(theme), ..self }
    }

    /// Sets the look.
    pub fn look(self, look: Look) -> (r: Self)
        ensures
            r@ == (FlowchartConfigurationView {
                generic: ConfigView { look, ..self@.generic },
                ..self@
            }),
    {
        FlowchartConfigurationBuilder { generic: self.generic.look(look), ..self }
    }
}

impl ConfigurationBuilder for FlowchartConfigurationBuilder {
    type Configuration = FlowchartConfiguration;

    open spec fn settings(&self) -> ConfigView {
        self@.generic
    }

    open spec fn same_extras(&self, other: &Self) -> bool {
        self@.markdown_auto_wrap == other@.markdown_auto_wrap && self@.html_labels
            == other@.html_labels && self@.curve_style == other@.curve_style
    }

    /// Label handling and the curve of edges carry over.
    open spec fn keeps_extras(&self, c: &FlowchartConfiguration) -> bool {
        c@.markdown_auto_wrap == self@.markdown_auto_wrap && c@.html_labels == self@.html_labels
            && c@.curve_style == self@.curve_style
    }

    proof fn lemma_spec_build(&self) {
        self.generic.lemma_spec_build();
    }

    closed spec fn spec_build(&self) -> Result<FlowchartConfiguration, ConfigError> {
        match self.generic.spec_build() {
            Ok(generic) => Ok(
                FlowchartConfiguration {
                    generic,
                    markdown_auto_wrap: self.markdown_auto_wrap,
                    html_labels: self.html_labels,
                    curve_style: self.curve_style,
                },
            ),
            Err(e) => Err(e),
        }
    }

    fn build(self) -> (r: Result<FlowchartConfiguration, ConfigError>) {
        proof {
            self.generic.lemma_spec_build();
        }
        match self.generic.build() {
            Ok(generic) => Ok(
                FlowchartConfiguration {
                    generic,
                    markdown_auto_wrap: self.markdown_auto_wrap,
                    html_labels: self.html_labels,
                    curve_style: self.curve_style,
                },
            ),
            Err(e) => Err(e),
        }
    }

    fn title(self, title: &str) -> (r: Result<Self, ConfigError>) {
        match self.generic.title(title) {
            Ok(generic) => Ok(FlowchartConfigurationBuilder { generic, ..self }),
            Err(e) => Err(e),
        }
    }

    fn renderer(self, renderer: Renderer) -> (r: Self) {
        FlowchartConfigurationBuilder { generic: self.generic.renderer(renderer), ..self }
    }

    fn direction(self, direction: Direction) -> (r: Self) {
        FlowchartConfigurationBuilder { generic: self.generic.direction(direction), ..self }
    }
}

} // verus!
