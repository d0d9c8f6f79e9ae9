//! Command dispatch for a chat bot: given a message, an edit or a deletion, decide
//! which registered command it invokes, whether the author may run it, and how the
//! bot's earlier answer follows edits of the message that asked for it.
//!
//! The functions here decide; they do not wait, lock or talk to the chat platform.
//! Those are the caller's business: a function says what to do next, and the caller
//! reports back what came of it. All that the functions themselves ask of the world
//! outside is the time of day and the match of a regular expression.

pub mod framework;
pub mod message;
pub mod prefix;
pub mod text;
pub mod time;

pub use framework::permissions::Permissions;
pub use framework::{Event, Framework, FrameworkOptions, Reaction, Session};
pub use message::{Message, MessageUpdateEvent, User};
pub use prefix::{
    say_prefix_reply, send_prefix_reply, BroadcastTypingBehavior, CreateReply, EditTracker, Hooks,
    NoHooks, Prefix, PrefixCommand, PrefixCommandErrorContext, PrefixCommandMeta, PrefixCommandOptions,
    PrefixContext, PrefixFrameworkOptions, ReplyPlan,
};
pub use time::Timestamp;
