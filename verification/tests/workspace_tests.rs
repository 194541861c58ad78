use ginger_auth::{SelectionError, WorkspaceSummaryOption};

fn ws(slug: &str, name: Option<Option<&str>>, group_id: &str) -> WorkspaceSummaryOption {
    WorkspaceSummaryOption {
        slug: slug.to_string(),
        name: name.map(|inner| inner.map(|n| n.to_string())),
        group_id: group_id.to_string(),
    }
}

#[test]
fn present_name_renders_name_and_slug() {
    let w = ws("dev", Some(Some("Development")), "g1");
    assert_eq!(w.display_label(), "Development (dev)");
}

#[test]
fn null_name_renders_slug_alone() {
    let w = ws("dev", Some(None), "g1");
    assert_eq!(w.display_label(), "dev");
}

#[test]
fn absent_name_renders_slug_alone() {
    let w = ws("dev", None, "g1");
    assert_eq!(w.display_label(), "dev");
}

#[test]
fn empty_name_still_renders_with_slug() {
    let w = ws("dev", Some(Some("")), "g1");
    assert_eq!(w.display_label(), " (dev)");
}

#[test]
fn selection_error_messages() {
    assert_eq!(
        SelectionError::EmptyWorkspaceList.message(),
        "Error selecting workspace: no workspaces are available"
    );
    assert_eq!(
        SelectionError::SelectionCancelled.message(),
        "Error selecting workspace: the selection was cancelled"
    );
}
