//! Conversation core of a desktop chat client: roles, the message log of one
//! conversation, the session shared between the redraw loop and a submission
//! task, and the reconciliation of the rendered view with that session.

pub mod chat;
pub mod conversation;
pub mod message;
pub mod session;
pub mod settings;

pub use chat::{is_worth_sending, ChatCore, Submission};
pub use conversation::{ConversationState, DEFAULT_ENGINE};
pub use message::{copy_log, Message, MessageRole, MessageView};
pub use session::{reconcile, SharedSession};
pub use settings::{Role, RoleView, Settings, DEFAULT_API_URL};
