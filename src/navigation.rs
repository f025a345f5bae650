//! Click events of nodes: navigation to a URL, in this tab or a new one.
use vstd::prelude::*;

use crate::config::{opt_view, same_opt_string};

verus! {

/// What a navigation event holds.
pub struct NavigationView {
    pub url: Seq<char>,
    pub new_tab: bool,
    pub anchor: bool,
    pub tooltip: Option<Seq<char>>,
}

/// Navigation to a URL when a node is clicked.
#[derive(Clone, Debug, PartialEq, Eq, Hash)]
pub struct Navigation {
    url: String,
    new_tab: bool,
    anchor: bool,
    tooltip: Option<String>,
}

impl View for Navigation {
    type V = NavigationView;

    closed spec fn view(&self) -> NavigationView {
        NavigationView {
            url: self.url@,
            new_tab: self.new_tab,
            anchor: self.anchor,
            tooltip: opt_view(self.tooltip),
        }
    }
}

impl NavigationView {
    /// The event as it follows `click <node>`: `href` for an anchor-like
    /// link, the quoted URL, the quoted tooltip if any, and `_blank` for a
    /// new tab.
    pub open spec fn text(self) -> Seq<char> {
        (if self.anchor {
            "href"@
        } else {
            Seq::empty()
        }) + " \""@ + self.url + "\""@ + match self.tooltip {
            Some(t) => " \""@ + t + "\""@,
            None => Seq::empty(),
        } + if self.new_tab {
            " _blank"@
        } else {
            Seq::empty()
        }
    }
}

impl Navigation {
    /// Creates a navigation to `url`, in the same tab, through a function
    /// call, without tooltip.
    pub fn new(url: &str) -> (r: Self)
        ensures
            r@ == (NavigationView { url: url@, new_tab: false, anchor: false, tooltip: None }),
    {
        Navigation { url: url.to_owned(), new_tab: false, anchor: false, tooltip: None }
    }

    /// Sets whether the link opens in a new tab.
    pub fn new_tab(self, new_tab: bool) -> (r: Self)
        ensures
            r@ == (NavigationView { new_tab, ..self@ }),
    {
        Navigation { new_tab, ..self }
    }

    /// Sets whether the link is anchor-like rather than a function call.
    pub fn anchor(self, anchor: bool) -> (r: Self)
        ensures
            r@ == (NavigationView { anchor, ..self@ }),
    {
        Navigation { anchor, ..self }
    }

    /// Sets the tooltip.
    pub fn tooltip(self, tooltip: &str) -> (r: Self)
        ensures
            r@ == (NavigationView { tooltip: Some(tooltip@), ..self@ }),
    {
        Navigation { tooltip: Some(tooltip.to_owned()), ..self }
    }

    /// Returns whether `other` navigates the same way.
    pub fn same_as(&self, other: &Navigation) -> (r: bool)
        ensures
            r == (self@ == other@),
    {
        self.url == other.url && self.new_tab == other.new_tab && self.anchor == other.anchor
            && same_opt_string(&self.tooltip, &other.tooltip)
    }

    /// Appends the event as it follows `click <node>`.
    pub fn push_text(&self, out: &mut String)
        ensures
            final(out)@ == old(out)@ + self@.text(),
    {
        if self.anchor {
            out.append("href");
        }
        out.append(" \"");
        out.append(self.url.as_str());
        out.append("\"");
        match &self.tooltip {
            Some(t) => {
                out.append(" \"");
                out.append(t.as_str());
                out.append("\"");
            },
            None => {},
        }
        if self.new_tab {
            out.append(" _blank");
        }
        assert(final(out)@ =~= old(out)@ + self@.text());
    }

    /// Returns the event as it follows `click <node>`.
    pub fn to_string(&self) -> (r: String)
        ensures
            r@ == self@.text(),
    {
        let mut out = String::new();
        self.push_text(&mut out);
        assert(out@ =~= self@.text());
        out
    }
}

/// An event triggered by a click on a node.
#[derive(Clone, Debug, PartialEq, Eq, Hash)]
pub enum ClickEvent {
    /// Navigation to a URL.
    Navigation(Navigation),
}

impl ClickEvent {
    /// The event as it follows `click <node>`.
    pub open spec fn text(self) -> Seq<char> {
        match self {
            ClickEvent::Navigation(n) => n@.text(),
        }
    }

    /// Appends the event as it follows `click <node>`.
    pub fn push_text(&self, out: &mut String)
        ensures
            final(out)@ == old(out)@ + self.text(),
    {
        match self {
            ClickEvent::Navigation(n) => n.push_text(out),
        }
    }
}

/// What an optional click event does.
pub open spec fn click_view(event: Option<ClickEvent>) -> Option<NavigationView> {
    match event {
        Some(ClickEvent::Navigation(n)) => Some(n@),
        None => None,
    }
}

/// Returns whether the two optional click events do the same.
pub fn same_click(a: &Option<ClickEvent>, b: &Option<ClickEvent>) -> (r: bool)
    ensures
        r == (click_view(*a) == click_view(*b)),
{
    match (a, b) {
        (Some(ClickEvent::Navigation(x)), Some(ClickEvent::Navigation(y))) => x.same_as(y),
        (None, None) => true,
        _ => false,
    }
}

/// The `click <node> <event>` line of an optional click event, for the node
/// written `<node>`, at indentation `prefix`.
pub open spec fn click_line(prefix: Seq<char>, node: Seq<char>, event: Option<ClickEvent>) -> Seq<
    char,
> {
    match event {
        Some(e) => prefix + "click "@ + node + " "@ + e.text() + "\n"@,
        None => Seq::empty(),
    }
}

} // verus!
