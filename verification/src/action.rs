//! The vocabulary the command flows speak: the actions a flow asks its
//! driver to perform, and the events the driver reports back.
//!
//! A flow never performs terminal or network work itself.  Each step hands
//! back a list of actions — prompts to show, remote calls to make, lines to
//! print, a credential save to carry out, or the process outcome — and waits
//! for the event that the performed action produced.

use vstd::prelude::*;

use crate::store::StoreError;
use crate::store::StoreErrorModel;
use crate::workspace::WorkspaceSummaryModel;
use crate::workspace::WorkspaceSummaryOption;

verus! {

/// One thing the driver of a flow is asked to do next.
#[derive(Clone, Debug, PartialEq)]
pub enum Action {
    /// Ask the user for their email address (at least one character).
    PromptEmail,
    /// Ask the user for their password, masked.
    PromptPassword,
    /// Call the remote register operation.
    CallRegister { email: String, password: String },
    /// Call the remote login operation.
    CallLogin { email: String, password: String, client_id: String },
    /// Fetch the workspace list with the given access token.
    CallListWorkspaces { access_token: String },
    /// Ask the user to pick one workspace out of the given list, shown in
    /// this order.
    PromptSelectWorkspace { options: Vec<WorkspaceSummaryOption> },
    /// Exchange the selected workspace's group for an interactive session
    /// token.
    CallCreateInteractiveSessionToken { access_token: String, group_id: String },
    /// Exchange a pre-supplied API token for a session token.
    CallCreateApiSessionToken { api_token: String },
    /// Validate the ambient token and fetch the profile.
    CallValidateToken,
    /// Print one line of text.
    PrintLine { text: String },
    /// Persist the session token in the credential file.
    SaveCredential { token: String },
    /// End the process with a failure status.
    ExitFailure,
    /// End the process with a success status.
    ExitSuccess,
}

/// Mathematical image of an [`Action`].
pub enum ActionModel {
    PromptEmail,
    PromptPassword,
    CallRegister { email: Seq<char>, password: Seq<char> },
    CallLogin { email: Seq<char>, password: Seq<char>, client_id: Seq<char> },
    CallListWorkspaces { access_token: Seq<char> },
    PromptSelectWorkspace { options: Seq<WorkspaceSummaryModel> },
    CallCreateInteractiveSessionToken { access_token: Seq<char>, group_id: Seq<char> },
    CallCreateApiSessionToken { api_token: Seq<char> },
    CallValidateToken,
    PrintLine { text: Seq<char> },
    SaveCredential { token: Seq<char> },
    ExitFailure,
    ExitSuccess,
}

impl DeepView for Action {
    type V = ActionModel;

    open spec fn deep_view(&self) -> ActionModel {
        match self {
            Action::PromptEmail => ActionModel::PromptEmail,
            Action::PromptPassword => ActionModel::PromptPassword,
            Action::CallRegister { email, password } => ActionModel::CallRegister {
                email: email@,
                password: password@,
            },
            Action::CallLogin { email, password, client_id } => ActionModel::CallLogin {
                email: email@,
                password: password@,
                client_id: client_id@,
            },
            Action::CallListWorkspaces { access_token } => ActionModel::CallListWorkspaces {
                access_token: access_token@,
            },
            Action::PromptSelectWorkspace { options } => ActionModel::PromptSelectWorkspace {
                options: options.deep_view(),
            },
            Action::CallCreateInteractiveSessionToken { access_token, group_id } => {
                ActionModel::CallCreateInteractiveSessionToken {
                    access_token: access_token@,
                    group_id: group_id@,
                }
            },
            Action::CallCreateApiSessionToken { api_token } => {
                ActionModel::CallCreateApiSessionToken { api_token: api_token@ }
            },
            Action::CallValidateToken => ActionModel::CallValidateToken,
            Action::PrintLine { text } => ActionModel::PrintLine { text: text@ },
            Action::SaveCredential { token } => ActionModel::SaveCredential { token: token@ },
            Action::ExitFailure => ActionModel::ExitFailure,
            Action::ExitSuccess => ActionModel::ExitSuccess,
        }
    }
}

/// What the driver reports back after performing an action.
#[derive(Clone, Debug, PartialEq)]
pub enum Event {
    /// The user answered the email prompt.
    EmailEntered { email: String },
    /// The user answered the password prompt.
    PasswordEntered { password: String },
    /// The user cancelled a text or password prompt.
    PromptCancelled,
    /// A remote call succeeded; `detail` is the rendered response.
    RemoteSucceeded { detail: String },
    /// A remote call failed; `detail` is the rendered error.
    RemoteFailed { detail: String },
    /// The remote login succeeded with this access token.
    LoginSucceeded { access_token: String },
    /// The workspace list arrived.
    WorkspacesListed { workspaces: Vec<WorkspaceSummaryOption> },
    /// The user picked this workspace.
    WorkspaceChosen { workspace: WorkspaceSummaryOption },
    /// The user abandoned the workspace selection.
    SelectionCancelled,
    /// A session token was issued.
    SessionTokenIssued { session_token: String },
    /// The credential file was written at this path.
    CredentialSaved { path: String },
    /// The credential file could not be written.
    CredentialSaveFailed { error: StoreError },
}

/// Mathematical image of an [`Event`].
pub enum EventModel {
    EmailEntered { email: Seq<char> },
    PasswordEntered { password: Seq<char> },
    PromptCancelled,
    RemoteSucceeded { detail: Seq<char> },
    RemoteFailed { detail: Seq<char> },
    LoginSucceeded { access_token: Seq<char> },
    WorkspacesListed { workspaces: Seq<WorkspaceSummaryModel> },
    WorkspaceChosen { workspace: WorkspaceSummaryModel },
    SelectionCancelled,
    SessionTokenIssued { session_token: Seq<char> },
    CredentialSaved { path: Seq<char> },
    CredentialSaveFailed { error: StoreErrorModel },
}

impl DeepView for Event {
    type V = EventModel;

    open spec fn deep_view(&self) -> EventModel {
        match self {
            Event::EmailEntered { email } => EventModel::EmailEntered { email: email@ },
            Event::PasswordEntered { password } => EventModel::PasswordEntered {
                password: password@,
            },
            Event::PromptCancelled => EventModel::PromptCancelled,
            Event::RemoteSucceeded { detail } => EventModel::RemoteSucceeded { detail: detail@ },
            Event::RemoteFailed { detail } => EventModel::RemoteFailed { detail: detail@ },
            Event::LoginSucceeded { access_token } => EventModel::LoginSucceeded {
                access_token: access_token@,
            },
            Event::WorkspacesListed { workspaces } => EventModel::WorkspacesListed {
                workspaces: workspaces.deep_view(),
            },
            Event::WorkspaceChosen { workspace } => EventModel::WorkspaceChosen {
                workspace: workspace.deep_view(),
            },
            Event::SelectionCancelled => EventModel::SelectionCancelled,
            Event::SessionTokenIssued { session_token } => EventModel::SessionTokenIssued {
                session_token: session_token@,
            },
            Event::CredentialSaved { path } => EventModel::CredentialSaved { path: path@ },
            Event::CredentialSaveFailed { error } => EventModel::CredentialSaveFailed {
                error: error.deep_view(),
            },
        }
    }
}

} // verus!
