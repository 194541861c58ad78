use ginger_auth::{
    info_init, info_step, login_init, login_step, register_init, register_step, token_login_init,
    token_login_step, Action, Event, InfoFlowState, LoginFlowState, RegisterFlowState, StoreError,
    TokenLoginFlowState, WorkspaceSummaryOption,
};

fn ws(slug: &str, name: Option<Option<&str>>, group_id: &str) -> WorkspaceSummaryOption {
    WorkspaceSummaryOption {
        slug: slug.to_string(),
        name: name.map(|inner| inner.map(|n| n.to_string())),
        group_id: group_id.to_string(),
    }
}

fn no_save(actions: &[Action]) {
    for a in actions {
        assert!(!matches!(a, Action::SaveCredential { .. }));
    }
}

#[test]
fn token_login_prints_export_then_saves_in_that_order() {
    let (s, actions) = token_login_init("abc123".to_string());
    assert_eq!(s, TokenLoginFlowState::AwaitSessionToken);
    assert_eq!(
        actions,
        vec![Action::CallCreateApiSessionToken {
            api_token: "abc123".to_string()
        }]
    );

    let (s, actions) = token_login_step(
        s,
        Event::SessionTokenIssued {
            session_token: "xyz789".to_string(),
        },
    );
    assert_eq!(s, TokenLoginFlowState::AwaitSave);
    assert_eq!(
        actions,
        vec![
            Action::PrintLine {
                text: "export GINGER_API_TOKEN=xyz789".to_string()
            },
            Action::SaveCredential {
                token: "xyz789".to_string()
            },
        ]
    );

    let (s, actions) = token_login_step(
        s,
        Event::CredentialSaved {
            path: "/home/u/.ginger-society/auth.json".to_string(),
        },
    );
    assert_eq!(s, TokenLoginFlowState::Finished);
    assert_eq!(
        actions,
        vec![
            Action::PrintLine {
                text: "API token saved to /home/u/.ginger-society/auth.json".to_string()
            },
            Action::ExitSuccess,
        ]
    );
}

#[test]
fn token_login_reports_remote_failure_and_exits_successfully() {
    let (s, _) = token_login_init("abc123".to_string());
    let (s, actions) = token_login_step(
        s,
        Event::RemoteFailed {
            detail: "boom".to_string(),
        },
    );
    assert_eq!(s, TokenLoginFlowState::Finished);
    assert_eq!(
        actions,
        vec![
            Action::PrintLine {
                text: "boom".to_string()
            },
            Action::ExitSuccess,
        ]
    );
}

#[test]
fn token_login_save_failure_exits_with_failure() {
    let (s, _) = token_login_init("abc123".to_string());
    let (s, _) = token_login_step(
        s,
        Event::SessionTokenIssued {
            session_token: "xyz789".to_string(),
        },
    );
    let (s, actions) = token_login_step(
        s,
        Event::CredentialSaveFailed {
            error: StoreError::HomeDirectoryUnresolved,
        },
    );
    assert_eq!(s, TokenLoginFlowState::Finished);
    assert_eq!(
        actions,
        vec![
            Action::PrintLine {
                text: "Failed to locate home directory. Exiting.".to_string()
            },
            Action::ExitFailure,
        ]
    );
}

#[test]
fn login_happy_path_reaches_a_save() {
    let (s, actions) = login_init();
    assert_eq!(s, LoginFlowState::AwaitEmail);
    assert_eq!(actions, vec![Action::PromptEmail]);

    let (s, actions) = login_step(
        s,
        Event::EmailEntered {
            email: "a@b.c".to_string(),
        },
    );
    assert_eq!(actions, vec![Action::PromptPassword]);

    let (s, actions) = login_step(
        s,
        Event::PasswordEntered {
            password: "pw".to_string(),
        },
    );
    assert_eq!(
        actions,
        vec![Action::CallLogin {
            email: "a@b.c".to_string(),
            password: "pw".to_string(),
            client_id: "dev-machine".to_string(),
        }]
    );

    let (s, actions) = login_step(
        s,
        Event::LoginSucceeded {
            access_token: "at".to_string(),
        },
    );
    assert_eq!(
        actions,
        vec![Action::CallListWorkspaces {
            access_token: "at".to_string()
        }]
    );

    let list = vec![ws("dev", Some(Some("Development")), "g1"), ws("ops", None, "g2")];
    let (s, actions) = login_step(
        s,
        Event::WorkspacesListed {
            workspaces: list.clone(),
        },
    );
    assert_eq!(actions, vec![Action::PromptSelectWorkspace { options: list }]);

    let (s, actions) = login_step(
        s,
        Event::WorkspaceChosen {
            workspace: ws("ops", None, "g2"),
        },
    );
    assert_eq!(
        actions,
        vec![Action::CallCreateInteractiveSessionToken {
            access_token: "at".to_string(),
            group_id: "g2".to_string(),
        }]
    );

    let (s, actions) = login_step(
        s,
        Event::SessionTokenIssued {
            session_token: "st".to_string(),
        },
    );
    assert_eq!(s, LoginFlowState::AwaitSave);
    assert_eq!(
        actions,
        vec![Action::SaveCredential {
            token: "st".to_string()
        }]
    );

    let (s, actions) = login_step(
        s,
        Event::CredentialSaved {
            path: "/h/.ginger-society/auth.json".to_string(),
        },
    );
    assert_eq!(s, LoginFlowState::Finished);
    assert_eq!(
        actions,
        vec![
            Action::PrintLine {
                text: "API token saved to /h/.ginger-society/auth.json".to_string()
            },
            Action::ExitSuccess,
        ]
    );
}

#[test]
fn login_with_empty_workspace_list_surfaces_the_empty_list_error() {
    let (s, _) = login_init();
    let (s, _) = login_step(
        s,
        Event::EmailEntered {
            email: "a@b.c".to_string(),
        },
    );
    let (s, _) = login_step(
        s,
        Event::PasswordEntered {
            password: "pw".to_string(),
        },
    );
    let (s, _) = login_step(
        s,
        Event::LoginSucceeded {
            access_token: "at".to_string(),
        },
    );
    let (s, actions) = login_step(s, Event::WorkspacesListed { workspaces: vec![] });
    assert_eq!(s, LoginFlowState::Finished);
    assert_eq!(
        actions,
        vec![
            Action::PrintLine {
                text: "Error selecting workspace: no workspaces are available".to_string()
            },
            Action::ExitSuccess,
        ]
    );
}

#[test]
fn login_cancelled_email_prompt_exits_with_failure() {
    let (s, _) = login_init();
    let (s, actions) = login_step(s, Event::PromptCancelled);
    assert_eq!(s, LoginFlowState::Finished);
    assert_eq!(
        actions,
        vec![
            Action::PrintLine {
                text: "We cannot proceed without your email ID, please try again if you change your mind."
                    .to_string()
            },
            Action::ExitFailure,
        ]
    );
}

#[test]
fn login_failed_remote_login_is_reported_without_failure_status() {
    let (s, _) = login_init();
    let (s, _) = login_step(
        s,
        Event::EmailEntered {
            email: "a@b.c".to_string(),
        },
    );
    let (s, _) = login_step(
        s,
        Event::PasswordEntered {
            password: "pw".to_string(),
        },
    );
    let (s, actions) = login_step(
        s,
        Event::RemoteFailed {
            detail: "bad credentials".to_string(),
        },
    );
    assert_eq!(s, LoginFlowState::Finished);
    assert_eq!(
        actions,
        vec![
            Action::PrintLine {
                text: "An error occurred, please check your credentials and try again. You may try recovering your password if needed."
                    .to_string()
            },
            Action::PrintLine {
                text: "bad credentials".to_string()
            },
            Action::ExitSuccess,
        ]
    );
}

#[test]
fn login_cancelled_selection_exits_with_failure_and_never_saves() {
    let (s, _) = login_init();
    let (s, _) = login_step(
        s,
        Event::EmailEntered {
            email: "a@b.c".to_string(),
        },
    );
    let (s, _) = login_step(
        s,
        Event::PasswordEntered {
            password: "pw".to_string(),
        },
    );
    let (s, _) = login_step(
        s,
        Event::LoginSucceeded {
            access_token: "at".to_string(),
        },
    );
    let (s, _) = login_step(
        s,
        Event::WorkspacesListed {
            workspaces: vec![ws("dev", None, "g1")],
        },
    );
    let (s, actions) = login_step(s, Event::SelectionCancelled);
    assert_eq!(s, LoginFlowState::Finished);
    no_save(&actions);
    assert_eq!(
        actions,
        vec![
            Action::PrintLine {
                text: "Error selecting workspace: the selection was cancelled".to_string()
            },
            Action::ExitFailure,
        ]
    );
}

#[test]
fn register_flow_never_saves_whatever_happens() {
    let (s, actions) = register_init();
    assert_eq!(s, RegisterFlowState::AwaitEmail);
    no_save(&actions);

    let (s, actions) = register_step(
        s,
        Event::EmailEntered {
            email: "a@b.c".to_string(),
        },
    );
    no_save(&actions);
    assert_eq!(actions, vec![Action::PromptPassword]);

    let (s, actions) = register_step(
        s,
        Event::PasswordEntered {
            password: "pw".to_string(),
        },
    );
    no_save(&actions);
    assert_eq!(
        actions,
        vec![Action::CallRegister {
            email: "a@b.c".to_string(),
            password: "pw".to_string(),
        }]
    );

    let (s, actions) = register_step(
        s,
        Event::RemoteSucceeded {
            detail: "registered".to_string(),
        },
    );
    assert_eq!(s, RegisterFlowState::Finished);
    no_save(&actions);
    assert_eq!(
        actions,
        vec![
            Action::PrintLine {
                text: "registered".to_string()
            },
            Action::ExitSuccess,
        ]
    );
}

#[test]
fn register_cancelled_password_prompt_exits_with_failure() {
    let (s, _) = register_init();
    let (s, _) = register_step(
        s,
        Event::EmailEntered {
            email: "a@b.c".to_string(),
        },
    );
    let (s, actions) = register_step(s, Event::PromptCancelled);
    assert_eq!(s, RegisterFlowState::Finished);
    no_save(&actions);
    assert_eq!(
        actions,
        vec![
            Action::PrintLine {
                text: "You cancelled, cant proceed without the password".to_string()
            },
            Action::ExitFailure,
        ]
    );
}

#[test]
fn info_flow_prints_the_answer_and_never_saves() {
    let (s, actions) = info_init();
    assert_eq!(s, InfoFlowState::AwaitValidation);
    no_save(&actions);
    assert_eq!(actions, vec![Action::CallValidateToken]);

    let (s, actions) = info_step(
        s,
        Event::RemoteSucceeded {
            detail: "profile".to_string(),
        },
    );
    assert_eq!(s, InfoFlowState::Finished);
    no_save(&actions);
    assert_eq!(
        actions,
        vec![
            Action::PrintLine {
                text: "profile".to_string()
            },
            Action::ExitSuccess,
        ]
    );

    let (s2, actions) = info_step(
        InfoFlowState::AwaitValidation,
        Event::RemoteFailed {
            detail: "invalid token".to_string(),
        },
    );
    assert_eq!(s2, InfoFlowState::Finished);
    no_save(&actions);
    let _ = s;
}

#[test]
fn a_mismatched_event_changes_nothing() {
    let (s, actions) = info_step(
        InfoFlowState::AwaitValidation,
        Event::EmailEntered {
            email: "a@b.c".to_string(),
        },
    );
    assert_eq!(s, InfoFlowState::AwaitValidation);
    assert!(actions.is_empty());
}
