//! Session logic for a chat assistant kept on a remote service: the
//! decisions that resolve an assistant by name, keep a local handle to a
//! conversation, and drive one message through a run until it finishes.
//! The remote calls, the files and the terminal are left to the caller,
//! which performs each action these machines ask for and reports back.

pub mod cmd;
pub mod config;
pub mod error;
pub mod files;
pub mod ids;
pub mod locks;
pub mod registry;
pub mod run;
pub mod store;
pub mod text;

pub use cmd::Cmd;
pub use config::{Config, FileBundle};
pub use error::{ContentProblem, SessionError};
pub use files::{bundle_header, keep_entry, walk_depth, DEEP_WALK, SHALLOW_WALK};
pub use ids::{AsstId, Conv, CreateConfig, FileId, RunId, ThreadId};
pub use locks::ConversationLocks;
pub use registry::{
    find_by_name, AssistantSummary, ResolveAction, ResolvePhase, Resolver, LIST_PAGE_LIMIT,
};
pub use run::{
    get_first_thread_msg_content, get_text_content, user_msg, Dispatch, DispatchAction,
    DispatchPhase, MessageContent, RunStatus, ThreadMessage, UserMessage, POLLING_DURATION,
    REPLY_FETCH_LIMIT,
};
pub use store::{ConvLoader, StoreAction, StorePhase};
pub use text::{format_reply, join_lines, REPLY_WIDTH};
