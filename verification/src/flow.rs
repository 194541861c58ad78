//! The four command flows — register, password login, token login, session
//! info — as explicit state machines.
//!
//! Each flow is a pure transition function from a state and an incoming
//! [`Event`] to the next state and the list of [`Action`]s to perform, in
//! order.  A driver owns the terminal and the network: it performs each
//! action, reports the resulting event, and repeats until the flow is
//! finished.  Every transition is stated exactly, so what each flow prints,
//! calls and saves — and what it never does — is proved rather than read off
//! the code.
//!
//! Exit policy: a cancelled interactive input (a prompt or the workspace
//! selection) and a failed credential save end the process with a failure
//! status, while a failed remote call is reported and ends it with a success
//! status.

use vstd::prelude::*;

use crate::action::Action;
use crate::action::ActionModel;
use crate::action::Event;
use crate::action::EventModel;
use crate::store::store_error_message_spec;
use crate::workspace::SelectionError;
use crate::workspace::selection_error_message_spec;

verus! {

/// Where the register flow stands.
#[derive(Clone, Debug, PartialEq)]
pub enum RegisterFlowState {
    AwaitEmail,
    AwaitPassword { email: String },
    AwaitOutcome,
    Finished,
}

/// Mathematical image of a [`RegisterFlowState`].
pub enum RegisterFlowModel {
    AwaitEmail,
    AwaitPassword { email: Seq<char> },
    AwaitOutcome,
    Finished,
}

impl DeepView for RegisterFlowState {
    type V = RegisterFlowModel;

    open spec fn deep_view(&self) -> RegisterFlowModel {
        match self {
            RegisterFlowState::AwaitEmail => RegisterFlowModel::AwaitEmail,
            RegisterFlowState::AwaitPassword { email } => RegisterFlowModel::AwaitPassword {
                email: email@,
            },
            RegisterFlowState::AwaitOutcome => RegisterFlowModel::AwaitOutcome,
            RegisterFlowState::Finished => RegisterFlowModel::Finished,
        }
    }
}

/// The first state and actions of the register flow.
pub open spec fn register_init_spec() -> (RegisterFlowModel, Seq<ActionModel>) {
    (RegisterFlowModel::AwaitEmail, seq![ActionModel::PromptEmail])
}

/// One step of the register flow: prompt email, prompt password, call the
/// remote register operation, report its outcome.  A cancelled prompt ends
/// the process with a failure status; the remote outcome, success or error,
/// is printed and ends it with a success status.  An event that does not
/// belong to the current state changes nothing.
pub open spec fn register_transition(s: RegisterFlowModel, e: EventModel) -> (
    RegisterFlowModel,
    Seq<ActionModel>,
) {
    match (s, e) {
        (RegisterFlowModel::AwaitEmail, EventModel::EmailEntered { email }) => (
            RegisterFlowModel::AwaitPassword { email },
            seq![ActionModel::PromptPassword],
        ),
        (RegisterFlowModel::AwaitEmail, EventModel::PromptCancelled) => (
            RegisterFlowModel::Finished,
            seq![
                ActionModel::PrintLine {
                    text:
                        "We can not proceed without your email ID, please try again if you change your mind"@,
                },
                ActionModel::ExitFailure,
            ],
        ),
        (
            RegisterFlowModel::AwaitPassword { email },
            EventModel::PasswordEntered { password },
        ) => (RegisterFlowModel::AwaitOutcome, seq![ActionModel::CallRegister { email, password }]),
        (RegisterFlowModel::AwaitPassword { .. }, EventModel::PromptCancelled) => (
            RegisterFlowModel::Finished,
            seq![
                ActionModel::PrintLine { text: "You cancelled, cant proceed without the password"@ },
                ActionModel::ExitFailure,
            ],
        ),
        (RegisterFlowModel::AwaitOutcome, EventModel::RemoteSucceeded { detail }) => (
            RegisterFlowModel::Finished,
            seq![ActionModel::PrintLine { text: detail }, ActionModel::ExitSuccess],
        ),
        (RegisterFlowModel::AwaitOutcome, EventModel::RemoteFailed { detail }) => (
            RegisterFlowModel::Finished,
            seq![ActionModel::PrintLine { text: detail }, ActionModel::ExitSuccess],
        ),
        (st, _) => (st, Seq::empty()),
    }
}

/// Starts the register flow.
pub fn register_init() -> (r: (RegisterFlowState, Vec<Action>))
    ensures
        r.0.deep_view() == register_init_spec().0,
        r.1.deep_view() == register_init_spec().1,
{
    let actions = vec![Action::PromptEmail];
    proof {
        assert(actions.deep_view() =~~= register_init_spec().1);
    }
    (RegisterFlowState::AwaitEmail, actions)
}

/// Performs one step of the register flow.
pub fn register_step(s: RegisterFlowState, e: Event) -> (r: (RegisterFlowState, Vec<Action>))
    ensures
        r.0.deep_view() == register_transition(s.deep_view(), e.deep_view()).0,
        r.1.deep_view() == register_transition(s.deep_view(), e.deep_view()).1,
{
    let ghost s0 = s.deep_view();
    let ghost e0 = e.deep_view();
    let r = match (s, e) {
        (RegisterFlowState::AwaitEmail, Event::EmailEntered { email }) => (
            RegisterFlowState::AwaitPassword { email },
            vec![Action::PromptPassword],
        ),
        (RegisterFlowState::AwaitEmail, Event::PromptCancelled) => (
            RegisterFlowState::Finished,
            vec![
                Action::PrintLine {
                    text: String::from_str(
                        "We can not proceed without your email ID, please try again if you change your mind",
                    ),
                },
                Action::ExitFailure,
            ],
        ),
        (RegisterFlowState::AwaitPassword { email }, Event::PasswordEntered { password }) => (
            RegisterFlowState::AwaitOutcome,
            vec![Action::CallRegister { email, password }],
        ),
        (RegisterFlowState::AwaitPassword { .. }, Event::PromptCancelled) => (
            RegisterFlowState::Finished,
            vec![
                Action::PrintLine {
                    text: String::from_str("You cancelled, cant proceed without the password"),
                },
                Action::ExitFailure,
            ],
        ),
        (RegisterFlowState::AwaitOutcome, Event::RemoteSucceeded { detail }) => (
            RegisterFlowState::Finished,
            vec![Action::PrintLine { text: detail }, Action::ExitSuccess],
        ),
        (RegisterFlowState::AwaitOutcome, Event::RemoteFailed { detail }) => (
            RegisterFlowState::Finished,
            vec![Action::PrintLine { text: detail }, Action::ExitSuccess],
        ),
        (st, _) => (st, Vec::new()),
    };
    proof {
        assert(r.0.deep_view() =~~= register_transition(s0, e0).0);
        assert(r.1.deep_view() =~~= register_transition(s0, e0).1);
    }
    r
}

/// Where the password-login flow stands.
#[derive(Clone, Debug, PartialEq)]
pub enum LoginFlowState {
    AwaitEmail,
    AwaitPassword { email: String },
    AwaitLogin,
    AwaitWorkspaces { access_token: String },
    AwaitSelection { access_token: String },
    AwaitSessionToken,
    AwaitSave,
    Finished,
}

/// Mathematical image of a [`LoginFlowState`].
pub enum LoginFlowModel {
    AwaitEmail,
    AwaitPassword { email: Seq<char> },
    AwaitLogin,
    AwaitWorkspaces { access_token: Seq<char> },
    AwaitSelection { access_token: Seq<char> },
    AwaitSessionToken,
    AwaitSave,
    Finished,
}

impl DeepView for LoginFlowState {
    type V = LoginFlowModel;

    open spec fn deep_view(&self) -> LoginFlowModel {
        match self {
            LoginFlowState::AwaitEmail => LoginFlowModel::AwaitEmail,
            LoginFlowState::AwaitPassword { email } => LoginFlowModel::AwaitPassword {
                email: email@,
            },
            LoginFlowState::AwaitLogin => LoginFlowModel::AwaitLogin,
            LoginFlowState::AwaitWorkspaces { access_token } => LoginFlowModel::AwaitWorkspaces {
                access_token: access_token@,
            },
            LoginFlowState::AwaitSelection { access_token } => LoginFlowModel::AwaitSelection {
                access_token: access_token@,
            },
            LoginFlowState::AwaitSessionToken => LoginFlowModel::AwaitSessionToken,
            LoginFlowState::AwaitSave => LoginFlowModel::AwaitSave,
            LoginFlowState::Finished => LoginFlowModel::Finished,
        }
    }
}

/// The first state and actions of the password-login flow.
pub open spec fn login_init_spec() -> (LoginFlowModel, Seq<ActionModel>) {
    (LoginFlowModel::AwaitEmail, seq![ActionModel::PromptEmail])
}

/// One step of the password-login flow: prompt email and password, log in
/// with the fixed client id, list the workspaces, have one selected, exchange
/// its group for a session token, and save it.  An empty workspace list is
/// reported as a selection error instead of offering an empty choice.  The
/// credential store is invoked in exactly one transition: when a session
/// token has been issued.
pub open spec fn login_transition(s: LoginFlowModel, e: EventModel) -> (
    LoginFlowModel,
    Seq<ActionModel>,
) {
    match (s, e) {
        (LoginFlowModel::AwaitEmail, EventModel::EmailEntered { email }) => (
            LoginFlowModel::AwaitPassword { email },
            seq![ActionModel::PromptPassword],
        ),
        (LoginFlowModel::AwaitEmail, EventModel::PromptCancelled) => (
            LoginFlowModel::Finished,
            seq![
                ActionModel::PrintLine {
                    text:
                        "We cannot proceed without your email ID, please try again if you change your mind."@,
                },
                ActionModel::ExitFailure,
            ],
        ),
        (LoginFlowModel::AwaitPassword { email }, EventModel::PasswordEntered { password }) => (
            LoginFlowModel::AwaitLogin,
            seq![ActionModel::CallLogin { email, password, client_id: "dev-machine"@ }],
        ),
        (LoginFlowModel::AwaitPassword { .. }, EventModel::PromptCancelled) => (
            LoginFlowModel::Finished,
            seq![
                ActionModel::PrintLine {
                    text: "You cancelled, can't proceed without the password"@,
                },
                ActionModel::ExitFailure,
            ],
        ),
        (LoginFlowModel::AwaitLogin, EventModel::LoginSucceeded { access_token }) => (
            LoginFlowModel::AwaitWorkspaces { access_token },
            seq![ActionModel::CallListWorkspaces { access_token }],
        ),
        (LoginFlowModel::AwaitLogin, EventModel::RemoteFailed { detail }) => (
            LoginFlowModel::Finished,
            seq![
                ActionModel::PrintLine {
                    text:
                        "An error occurred, please check your credentials and try again. You may try recovering your password if needed."@,
                },
                ActionModel::PrintLine { text: detail },
                ActionModel::ExitSuccess,
            ],
        ),
        (
            LoginFlowModel::AwaitWorkspaces { access_token },
            EventModel::WorkspacesListed { workspaces },
        ) => {
            if workspaces.len() == 0 {
                (
                    LoginFlowModel::Finished,
                    seq![
                        ActionModel::PrintLine {
                            text: selection_error_message_spec(
                                SelectionError::EmptyWorkspaceList,
                            ),
                        },
                        ActionModel::ExitSuccess,
                    ],
                )
            } else {
                (
                    LoginFlowModel::AwaitSelection { access_token },
                    seq![ActionModel::PromptSelectWorkspace { options: workspaces }],
                )
            }
        },
        (LoginFlowModel::AwaitWorkspaces { .. }, EventModel::RemoteFailed { detail }) => (
            LoginFlowModel::Finished,
            seq![
                ActionModel::PrintLine { text: "Error getting workspaces: "@ + detail },
                ActionModel::ExitSuccess,
            ],
        ),
        (
            LoginFlowModel::AwaitSelection { access_token },
            EventModel::WorkspaceChosen { workspace },
        ) => (
            LoginFlowModel::AwaitSessionToken,
            seq![
                ActionModel::CallCreateInteractiveSessionToken {
                    access_token,
                    group_id: workspace.group_id,
                },
            ],
        ),
        (LoginFlowModel::AwaitSelection { .. }, EventModel::SelectionCancelled) => (
            LoginFlowModel::Finished,
            seq![
                ActionModel::PrintLine {
                    text: selection_error_message_spec(SelectionError::SelectionCancelled),
                },
                ActionModel::ExitFailure,
            ],
        ),
        (LoginFlowModel::AwaitSessionToken, EventModel::SessionTokenIssued { session_token }) => (
            LoginFlowModel::AwaitSave,
            seq![ActionModel::SaveCredential { token: session_token }],
        ),
        (LoginFlowModel::AwaitSessionToken, EventModel::RemoteFailed { detail }) => (
            LoginFlowModel::Finished,
            seq![
                ActionModel::PrintLine { text: "Error creating API session token: "@ + detail },
                ActionModel::ExitSuccess,
            ],
        ),
        (LoginFlowModel::AwaitSave, EventModel::CredentialSaved { path }) => (
            LoginFlowModel::Finished,
            seq![
                ActionModel::PrintLine { text: "API token saved to "@ + path },
                ActionModel::ExitSuccess,
            ],
        ),
        (LoginFlowModel::AwaitSave, EventModel::CredentialSaveFailed { error }) => (
            LoginFlowModel::Finished,
            seq![
                ActionModel::PrintLine { text: store_error_message_spec(error) },
                ActionModel::ExitFailure,
            ],
        ),
        (st, _) => (st, Seq::empty()),
    }
}

/// Starts the password-login flow.
pub fn login_init() -> (r: (LoginFlowState, Vec<Action>))
    ensures
        r.0.deep_view() == login_init_spec().0,
        r.1.deep_view() == login_init_spec().1,
{
    let actions = vec![Action::PromptEmail];
    proof {
        assert(actions.deep_view() =~~= login_init_spec().1);
    }
    (LoginFlowState::AwaitEmail, actions)
}

/// Performs one step of the password-login flow.
pub fn login_step(s: LoginFlowState, e: Event) -> (r: (LoginFlowState, Vec<Action>))
    ensures
        r.0.deep_view() == login_transition(s.deep_view(), e.deep_view()).0,
        r.1.deep_view() == login_transition(s.deep_view(), e.deep_view()).1,
{
    let ghost s0 = s.deep_view();
    let ghost e0 = e.deep_view();
    let r = match (s, e) {
        (LoginFlowState::AwaitEmail, Event::EmailEntered { email }) => (
            LoginFlowState::AwaitPassword { email },
            vec![Action::PromptPassword],
        ),
        (LoginFlowState::AwaitEmail, Event::PromptCancelled) => (
            LoginFlowState::Finished,
            vec![
                Action::PrintLine {
                    text: String::from_str(
                        "We cannot proceed without your email ID, please try again if you change your mind.",
                    ),
                },
                Action::ExitFailure,
            ],
        ),
        (LoginFlowState::AwaitPassword { email }, Event::PasswordEntered { password }) => (
            LoginFlowState::AwaitLogin,
            vec![
                Action::CallLogin {
                    email,
                    password,
                    client_id: String::from_str("dev-machine"),
                },
            ],
        ),
        (LoginFlowState::AwaitPassword { .. }, Event::PromptCancelled) => (
            LoginFlowState::Finished,
            vec![
                Action::PrintLine {
                    text: String::from_str("You cancelled, can't proceed without the password"),
                },
                Action::ExitFailure,
            ],
        ),
        (LoginFlowState::AwaitLogin, Event::LoginSucceeded { access_token }) => {
            let listed = access_token.clone();
            (
                LoginFlowState::AwaitWorkspaces { access_token },
                vec![Action::CallListWorkspaces { access_token: listed }],
            )
        },
        (LoginFlowState::AwaitLogin, Event::RemoteFailed { detail }) => (
            LoginFlowState::Finished,
            vec![
                Action::PrintLine {
                    text: String::from_str(
                        "An error occurred, please check your credentials and try again. You may try recovering your password if needed.",
                    ),
                },
                Action::PrintLine { text: detail },
                Action::ExitSuccess,
            ],
        ),
        (LoginFlowState::AwaitWorkspaces { access_token }, Event::WorkspacesListed {
            workspaces,
        }) => {
            if workspaces.len() == 0 {
                (
                    LoginFlowState::Finished,
                    vec![
                        Action::PrintLine {
                            text: SelectionError::EmptyWorkspaceList.message(),
                        },
                        Action::ExitSuccess,
                    ],
                )
            } else {
                (
                    LoginFlowState::AwaitSelection { access_token },
                    vec![Action::PromptSelectWorkspace { options: workspaces }],
                )
            }
        },
        (LoginFlowState::AwaitWorkspaces { .. }, Event::RemoteFailed { detail }) => {
            let mut text = String::from_str("Error getting workspaces: ");
            text.append(detail.as_str());
            (
                LoginFlowState::Finished,
                vec![Action::PrintLine { text }, Action::ExitSuccess],
            )
        },
        (LoginFlowState::AwaitSelection { access_token }, Event::WorkspaceChosen {
            workspace,
        }) => (
            LoginFlowState::AwaitSessionToken,
            vec![
                Action::CallCreateInteractiveSessionToken {
                    access_token,
                    group_id: workspace.group_id,
                },
            ],
        ),
        (LoginFlowState::AwaitSelection { .. }, Event::SelectionCancelled) => (
            LoginFlowState::Finished,
            vec![
                Action::PrintLine { text: SelectionError::SelectionCancelled.message() },
                Action::ExitFailure,
            ],
        ),
        (LoginFlowState::AwaitSessionToken, Event::SessionTokenIssued { session_token }) => (
            LoginFlowState::AwaitSave,
            vec![Action::SaveCredential { token: session_token }],
        ),
        (LoginFlowState::AwaitSessionToken, Event::RemoteFailed { detail }) => {
            let mut text = String::from_str("Error creating API session token: ");
            text.append(detail.as_str());
            (
                LoginFlowState::Finished,
                vec![Action::PrintLine { text }, Action::ExitSuccess],
            )
        },
        (LoginFlowState::AwaitSave, Event::CredentialSaved { path }) => {
            let mut text = String::from_str("API token saved to ");
            text.append(path.as_str());
            (
                LoginFlowState::Finished,
                vec![Action::PrintLine { text }, Action::ExitSuccess],
            )
        },
        (LoginFlowState::AwaitSave, Event::CredentialSaveFailed { error }) => (
            LoginFlowState::Finished,
            vec![Action::PrintLine { text: error.message() }, Action::ExitFailure],
        ),
        (st, _) => (st, Vec::new()),
    };
    proof {
        assert(r.0.deep_view() =~~= login_transition(s0, e0).0);
        assert(r.1.deep_view() =~~= login_transition(s0, e0).1);
    }
    r
}

/// Where the token-login flow stands.
#[derive(Clone, Debug, PartialEq)]
pub enum TokenLoginFlowState {
    AwaitSessionToken,
    AwaitSave,
    Finished,
}

/// Mathematical image of a [`TokenLoginFlowState`].
pub enum TokenLoginFlowModel {
    AwaitSessionToken,
    AwaitSave,
    Finished,
}

impl DeepView for TokenLoginFlowState {
    type V = TokenLoginFlowModel;

    open spec fn deep_view(&self) -> TokenLoginFlowModel {
        match self {
            TokenLoginFlowState::AwaitSessionToken => TokenLoginFlowModel::AwaitSessionToken,
            TokenLoginFlowState::AwaitSave => TokenLoginFlowModel::AwaitSave,
            TokenLoginFlowState::Finished => TokenLoginFlowModel::Finished,
        }
    }
}

/// The first state and actions of the token-login flow: exchange the
/// pre-supplied token right away.
pub open spec fn token_login_init_spec(token_value: Seq<char>) -> (
    TokenLoginFlowModel,
    Seq<ActionModel>,
) {
    (
        TokenLoginFlowModel::AwaitSessionToken,
        seq![ActionModel::CallCreateApiSessionToken { api_token: token_value }],
    )
}

/// One step of the token-login flow: once a session token is issued, print
/// it in shell-exportable form and then save it — in that order.  A remote
/// failure is printed and ends the process with a success status.
pub open spec fn token_login_transition(s: TokenLoginFlowModel, e: EventModel) -> (
    TokenLoginFlowModel,
    Seq<ActionModel>,
) {
    match (s, e) {
        (
            TokenLoginFlowModel::AwaitSessionToken,
            EventModel::SessionTokenIssued { session_token },
        ) => (
            TokenLoginFlowModel::AwaitSave,
            seq![
                ActionModel::PrintLine { text: "export GINGER_API_TOKEN="@ + session_token },
                ActionModel::SaveCredential { token: session_token },
            ],
        ),
        (TokenLoginFlowModel::AwaitSessionToken, EventModel::RemoteFailed { detail }) => (
            TokenLoginFlowModel::Finished,
            seq![ActionModel::PrintLine { text: detail }, ActionModel::ExitSuccess],
        ),
        (TokenLoginFlowModel::AwaitSave, EventModel::CredentialSaved { path }) => (
            TokenLoginFlowModel::Finished,
            seq![
                ActionModel::PrintLine { text: "API token saved to "@ + path },
                ActionModel::ExitSuccess,
            ],
        ),
        (TokenLoginFlowModel::AwaitSave, EventModel::CredentialSaveFailed { error }) => (
            TokenLoginFlowModel::Finished,
            seq![
                ActionModel::PrintLine { text: store_error_message_spec(error) },
                ActionModel::ExitFailure,
            ],
        ),
        (st, _) => (st, Seq::empty()),
    }
}

/// Starts the token-login flow for a pre-supplied token value.
pub fn token_login_init(token_value: String) -> (r: (TokenLoginFlowState, Vec<Action>))
    ensures
        r.0.deep_view() == token_login_init_spec(token_value@).0,
        r.1.deep_view() == token_login_init_spec(token_value@).1,
{
    let actions = vec![Action::CallCreateApiSessionToken { api_token: token_value }];
    proof {
        assert(actions.deep_view() =~~= token_login_init_spec(token_value@).1);
    }
    (TokenLoginFlowState::AwaitSessionToken, actions)
}

/// Performs one step of the token-login flow.
pub fn token_login_step(s: TokenLoginFlowState, e: Event) -> (r: (
    TokenLoginFlowState,
    Vec<Action>,
))
    ensures
        r.0.deep_view() == token_login_transition(s.deep_view(), e.deep_view()).0,
        r.1.deep_view() == token_login_transition(s.deep_view(), e.deep_view()).1,
{
    let ghost s0 = s.deep_view();
    let ghost e0 = e.deep_view();
    let r = match (s, e) {
        (TokenLoginFlowState::AwaitSessionToken, Event::SessionTokenIssued { session_token }) => {
            let mut text = String::from_str("export GINGER_API_TOKEN=");
            text.append(session_token.as_str());
            (
                TokenLoginFlowState::AwaitSave,
                vec![
                    Action::PrintLine { text },
                    Action::SaveCredential { token: session_token },
                ],
            )
        },
        (TokenLoginFlowState::AwaitSessionToken, Event::RemoteFailed { detail }) => (
            TokenLoginFlowState::Finished,
            vec![Action::PrintLine { text: detail }, Action::ExitSuccess],
        ),
        (TokenLoginFlowState::AwaitSave, Event::CredentialSaved { path }) => {
            let mut text = String::from_str("API token saved to ");
            text.append(path.as_str());
            (
                TokenLoginFlowState::Finished,
                vec![Action::PrintLine { text }, Action::ExitSuccess],
            )
        },
        (TokenLoginFlowState::AwaitSave, Event::CredentialSaveFailed { error }) => (
            TokenLoginFlowState::Finished,
            vec![Action::PrintLine { text: error.message() }, Action::ExitFailure],
        ),
        (st, _) => (st, Vec::new()),
    };
    proof {
        assert(r.0.deep_view() =~~= token_login_transition(s0, e0).0);
        assert(r.1.deep_view() =~~= token_login_transition(s0, e0).1);
    }
    r
}

/// Where the session-info flow stands.
#[derive(Clone, Debug, PartialEq)]
pub enum InfoFlowState {
    AwaitValidation,
    Finished,
}

/// Mathematical image of an [`InfoFlowState`].
pub enum InfoFlowModel {
    AwaitValidation,
    Finished,
}

impl DeepView for InfoFlowState {
    type V = InfoFlowModel;

    open spec fn deep_view(&self) -> InfoFlowModel {
        match self {
            InfoFlowState::AwaitValidation => InfoFlowModel::AwaitValidation,
            InfoFlowState::Finished => InfoFlowModel::Finished,
        }
    }
}

/// The first state and actions of the session-info flow.
pub open spec fn info_init_spec() -> (InfoFlowModel, Seq<ActionModel>) {
    (InfoFlowModel::AwaitValidation, seq![ActionModel::CallValidateToken])
}

/// One step of the session-info flow: whatever the validation call answers
/// is printed, and the process ends with a success status.
pub open spec fn info_transition(s: InfoFlowModel, e: EventModel) -> (
    InfoFlowModel,
    Seq<ActionModel>,
) {
    match (s, e) {
        (InfoFlowModel::AwaitValidation, EventModel::RemoteSucceeded { detail }) => (
            InfoFlowModel::Finished,
            seq![ActionModel::PrintLine { text: detail }, ActionModel::ExitSuccess],
        ),
        (InfoFlowModel::AwaitValidation, EventModel::RemoteFailed { detail }) => (
            InfoFlowModel::Finished,
            seq![ActionModel::PrintLine { text: detail }, ActionModel::ExitSuccess],
        ),
        (st, _) => (st, Seq::empty()),
    }
}

/// Starts the session-info flow.
pub fn info_init() -> (r: (InfoFlowState, Vec<Action>))
    ensures
        r.0.deep_view() == info_init_spec().0,
        r.1.deep_view() == info_init_spec().1,
{
    let actions = vec![Action::CallValidateToken];
    proof {
        assert(actions.deep_view() =~~= info_init_spec().1);
    }
    (InfoFlowState::AwaitValidation, actions)
}

/// Performs one step of the session-info flow.
pub fn info_step(s: InfoFlowState, e: Event) -> (r: (InfoFlowState, Vec<Action>))
    ensures
        r.0.deep_view() == info_transition(s.deep_view(), e.deep_view()).0,
        r.1.deep_view() == info_transition(s.deep_view(), e.deep_view()).1,
{
    let ghost s0 = s.deep_view();
    let ghost e0 = e.deep_view();
    let r = match (s, e) {
        (InfoFlowState::AwaitValidation, Event::RemoteSucceeded { detail }) => (
            InfoFlowState::Finished,
            vec![Action::PrintLine { text: detail }, Action::ExitSuccess],
        ),
        (InfoFlowState::AwaitValidation, Event::RemoteFailed { detail }) => (
            InfoFlowState::Finished,
            vec![Action::PrintLine { text: detail }, Action::ExitSuccess],
        ),
        (st, _) => (st, Vec::new()),
    };
    proof {
        assert(r.0.deep_view() =~~= info_transition(s0, e0).0);
        assert(r.1.deep_view() =~~= info_transition(s0, e0).1);
    }
    r
}

/// No action in this list touches the credential file.
pub open spec fn saves_nothing(actions: Seq<ActionModel>) -> bool {
    forall|i: int| 0 <= i < actions.len() ==> !(#[trigger] actions[i] is SaveCredential)
}

/// The register flow never writes or modifies the credential file: no
/// reachable step of it, from its first actions on, emits a credential save,
/// whatever events arrive.
pub proof fn lemma_register_never_saves(s: RegisterFlowModel, e: EventModel)
    ensures
        saves_nothing(register_init_spec().1),
        saves_nothing(register_transition(s, e).1),
{
}

/// The session-info flow never writes or modifies the credential file: no
/// reachable step of it, from its first actions on, emits a credential save,
/// whatever events arrive.
pub proof fn lemma_info_never_saves(s: InfoFlowModel, e: EventModel)
    ensures
        saves_nothing(info_init_spec().1),
        saves_nothing(info_transition(s, e).1),
{
}

/// The password-login flow saves only an issued token: whenever a step of it
/// asks for a credential save, the flow was waiting for a session token, the
/// event was its issuance, and what is saved is exactly the issued token.
pub proof fn lemma_login_saves_only_issued_tokens(s: LoginFlowModel, e: EventModel, i: int)
    requires
        0 <= i < login_transition(s, e).1.len(),
        login_transition(s, e).1[i] is SaveCredential,
    ensures
        s is AwaitSessionToken,
        e is SessionTokenIssued,
        login_transition(s, e).1[i] matches ActionModel::SaveCredential { token } && e matches
            EventModel::SessionTokenIssued { session_token } && token == session_token,
{
}

/// The token-login flow saves only an issued token: whenever a step of it
/// asks for a credential save, the flow was waiting for a session token, the
/// event was its issuance, and what is saved is exactly the issued token.
pub proof fn lemma_token_login_saves_only_issued_tokens(
    s: TokenLoginFlowModel,
    e: EventModel,
    i: int,
)
    requires
        0 <= i < token_login_transition(s, e).1.len(),
        token_login_transition(s, e).1[i] is SaveCredential,
    ensures
        s is AwaitSessionToken,
        e is SessionTokenIssued,
        token_login_transition(s, e).1[i] matches ActionModel::SaveCredential { token }
            && e matches EventModel::SessionTokenIssued { session_token } && token
            == session_token,
{
}

/// An empty workspace list surfaces the empty-list selection error: the
/// login flow, told that zero workspaces exist, finishes by reporting
/// [`SelectionError::EmptyWorkspaceList`] — it neither offers a selection
/// nor saves anything.
pub proof fn lemma_login_empty_workspaces(access_token: Seq<char>)
    ensures
        login_transition(
            LoginFlowModel::AwaitWorkspaces { access_token },
            EventModel::WorkspacesListed { workspaces: Seq::empty() },
        ).0 is Finished,
        login_transition(
            LoginFlowModel::AwaitWorkspaces { access_token },
            EventModel::WorkspacesListed { workspaces: Seq::empty() },
        ).1 =~~= seq![
            ActionModel::PrintLine {
                text: selection_error_message_spec(SelectionError::EmptyWorkspaceList),
            },
            ActionModel::ExitSuccess,
        ],
{
}

} // verus!
