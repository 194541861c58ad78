//! Verified core of a command-line credential helper: it turns a successful
//! remote authentication into a durable local session-token file, and drives
//! the interactive flows (register, login, token login, session info) as
//! explicit state machines whose decisions are proved.

mod action;
mod flow;
mod store;
mod workspace;

pub use action::Action;
pub use action::ActionModel;
pub use action::Event;
pub use action::EventModel;
pub use flow::InfoFlowModel;
pub use flow::InfoFlowState;
pub use flow::LoginFlowModel;
pub use flow::LoginFlowState;
pub use flow::RegisterFlowModel;
pub use flow::RegisterFlowState;
pub use flow::TokenLoginFlowModel;
pub use flow::TokenLoginFlowState;
pub use flow::info_init;
pub use flow::info_init_spec;
pub use flow::info_step;
pub use flow::info_transition;
pub use flow::lemma_info_never_saves;
pub use flow::lemma_login_empty_workspaces;
pub use flow::lemma_login_saves_only_issued_tokens;
pub use flow::lemma_register_never_saves;
pub use flow::lemma_token_login_saves_only_issued_tokens;
pub use flow::login_init;
pub use flow::login_init_spec;
pub use flow::login_step;
pub use flow::login_transition;
pub use flow::register_init;
pub use flow::register_init_spec;
pub use flow::register_step;
pub use flow::register_transition;
pub use flow::saves_nothing;
pub use flow::token_login_init;
pub use flow::token_login_init_spec;
pub use flow::token_login_step;
pub use flow::token_login_transition;
pub use store::DiskModel;
pub use store::SavePlan;
pub use store::StoreError;
pub use store::StoreErrorModel;
pub use store::auth_dir_path;
pub use store::auth_dir_spec;
pub use store::auth_file_path;
pub use store::auth_file_spec;
pub use store::credential_content_spec;
pub use store::credential_file_content;
pub use store::json_escape;
pub use store::json_escape_char_spec;
pub use store::json_escape_spec;
pub use store::hex_digit_spec;
pub use store::lemma_save_directory_idempotent;
pub use store::lemma_save_overwrites;
pub use store::plan_is_for;
pub use store::plan_save;
pub use store::prepare_save;
pub use store::save_effect;
pub use store::store_error_message_spec;
pub use workspace::SelectionError;
pub use workspace::WorkspaceSummaryModel;
pub use workspace::WorkspaceSummaryOption;
pub use workspace::display_label_spec;
pub use workspace::lemma_display_rule;
pub use workspace::selection_error_message_spec;
