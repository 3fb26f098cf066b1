//! The version-control status of a node, and the pure mapping from a status
//! to its highlight color under a given theme.

use vstd::prelude::*;

use crate::color::Color;

verus! {

/// The version control system status of a node.
#[derive(Debug, Copy, Clone, PartialEq, Eq, Structural)]
pub enum Status {
    /// The node has not been modified.
    Unchanged,
    /// The node was added.
    Added,
    /// The node was edited.
    Edited,
}

/// The theme entries the indicator reads: one highlight color per status.
///
/// The style service of the host editor resolves three fixed keys to colors;
/// a `Theme` value holds the result of those three lookups, so the mapping
/// from status to color is a total function over this record.
#[derive(Debug, Copy, Clone, PartialEq, Eq, Structural)]
pub struct Theme {
    /// Highlight color for an unchanged node.
    pub unchanged: Color,
    /// Highlight color for an added node.
    pub added: Color,
    /// Highlight color for an edited node.
    pub edited: Color,
}

/// The highlight color a theme assigns to a status.
pub open spec fn spec_highlight_color(status: Status, theme: Theme) -> Color {
    match status {
        Status::Unchanged => theme.unchanged,
        Status::Added => theme.added,
        Status::Edited => theme.edited,
    }
}

/// Whether a theme assigns a different highlight color to each status.
pub open spec fn theme_distinct(theme: Theme) -> bool {
    &&& theme.unchanged != theme.added
    &&& theme.unchanged != theme.edited
    &&& theme.added != theme.edited
}

impl Status {
    /// Resolves the highlight color of this status under the given theme.
    pub fn highlight_color(self, theme: &Theme) -> (c: Color)
        ensures
            c == spec_highlight_color(self, *theme),
    {
        match self {
            Status::Unchanged => theme.unchanged,
            Status::Added => theme.added,
            Status::Edited => theme.edited,
        }
    }
}

impl Default for Status {
    /// The status of a node nobody has touched.
    fn default() -> (s: Status)
        ensures
            s == Status::Unchanged,
    {
        Status::Unchanged
    }
}

/// Under a theme whose three entries differ, distinct statuses resolve to
/// distinct highlight colors: the color alone identifies the status.
pub proof fn lemma_highlight_color_distinct(theme: Theme, s1: Status, s2: Status)
    requires
        theme_distinct(theme),
        s1 != s2,
    ensures
        spec_highlight_color(s1, theme) != spec_highlight_color(s2, theme),
{
}

} // verus!
