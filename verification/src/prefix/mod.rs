//! Commands that are invoked by a message that starts with a prefix.

pub mod resolve;
pub mod route;
pub mod structs;
pub mod track_edits;

pub use structs::{
    BroadcastTypingBehavior, Hooks, NoHooks, Prefix, PrefixCommand, PrefixCommandErrorContext,
    PrefixCommandMeta, PrefixCommandOptions, PrefixContext, PrefixFrameworkOptions,
};
pub use track_edits::{say_prefix_reply, send_prefix_reply, CreateReply, EditTracker, ReplyPlan};
