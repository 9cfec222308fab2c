//! One-time application setup and chat-template resolution, as decisions
//! over plain values with machine-checked contracts.
//!
//! The library decides; its caller talks to the secret store, the identity
//! provider and the hub, and hands their answers back.

pub mod chat_template;
pub mod redirect;
pub mod setup;
pub mod store;

pub use chat_template::{
    ChatTemplate, ChatTemplateType, HubDownloadable, IntoChatTemplate, ObjExtsError,
};
pub use setup::{
    app_info_handler, ping_handler, setup_handler, AppInfo, AppServiceError, PingResponse,
    SetupRequest, SetupResponse,
};
pub use store::{AppRegInfo, AppStatus, SecretStore};
