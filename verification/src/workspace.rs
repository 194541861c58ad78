//! Workspace summaries as the remote service reports them, and the display
//! rule used when a user is asked to pick one.

use vstd::prelude::*;

verus! {

/// One workspace as listed by the remote metadata service.
///
/// `name` distinguishes a display name that is structurally present but null
/// (`Some(None)`) from one that is entirely absent (`None`); both render as
/// the bare slug.
#[derive(Clone, Debug, PartialEq)]
pub struct WorkspaceSummaryOption {
    pub slug: String,
    pub name: Option<Option<String>>,
    pub group_id: String,
}

/// Mathematical image of a [`WorkspaceSummaryOption`].
pub struct WorkspaceSummaryModel {
    pub slug: Seq<char>,
    pub name: Option<Option<Seq<char>>>,
    pub group_id: Seq<char>,
}

impl DeepView for WorkspaceSummaryOption {
    type V = WorkspaceSummaryModel;

    open spec fn deep_view(&self) -> WorkspaceSummaryModel {
        WorkspaceSummaryModel {
            slug: self.slug@,
            name: match self.name {
                Some(Some(ref n)) => Some(Some(n@)),
                Some(None) => Some(None),
                None => None,
            },
            group_id: self.group_id@,
        }
    }
}

/// The label under which a workspace is offered for selection: the display
/// name followed by the slug in parentheses when a name is present and
/// non-null, the bare slug otherwise.
pub open spec fn display_label_spec(w: WorkspaceSummaryModel) -> Seq<char> {
    match w.name {
        Some(Some(n)) => n + " ("@ + w.slug + ")"@,
        _ => w.slug,
    }
}

impl WorkspaceSummaryOption {
    /// Render the selection label for this workspace.
    pub fn display_label(&self) -> (r: String)
        ensures
            r@ == display_label_spec(self.deep_view()),
    {
        match &self.name {
            Some(Some(name)) => {
                let mut out = name.clone();
                out.append(" (");
                out.append(self.slug.as_str());
                out.append(")");
                out
            },
            _ => self.slug.clone(),
        }
    }
}

/// Why a workspace selection produced no workspace.
#[derive(Clone, Copy, Debug, PartialEq, Eq, Structural)]
pub enum SelectionError {
    /// The remote service reported zero workspaces, so there is nothing to
    /// choose from.
    EmptyWorkspaceList,
    /// The user abandoned the interactive choice.
    SelectionCancelled,
}

/// The line reported for a failed workspace selection.
pub open spec fn selection_error_message_spec(e: SelectionError) -> Seq<char> {
    match e {
        SelectionError::EmptyWorkspaceList => {
            "Error selecting workspace: no workspaces are available"@
        },
        SelectionError::SelectionCancelled => {
            "Error selecting workspace: the selection was cancelled"@
        },
    }
}

impl SelectionError {
    /// Render the line reported for this selection failure.
    pub fn message(&self) -> (r: String)
        ensures
            r@ == selection_error_message_spec(*self),
    {
        match self {
            SelectionError::EmptyWorkspaceList => {
                String::from_str("Error selecting workspace: no workspaces are available")
            },
            SelectionError::SelectionCancelled => {
                String::from_str("Error selecting workspace: the selection was cancelled")
            },
        }
    }
}

/// The display rule in both of its cases: a present-and-non-null name renders
/// as `"{name} ({slug})"`, and every other shape of `name` renders as the
/// slug alone.
pub proof fn lemma_display_rule(w: WorkspaceSummaryModel)
    ensures
        match w.name {
            Some(Some(n)) => display_label_spec(w) == n + " ("@ + w.slug + ")"@,
            _ => display_label_spec(w) == w.slug,
        },
{
}

} // verus!
