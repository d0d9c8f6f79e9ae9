//! What a prefix command is, and the settings that decide how messages reach one.

use vstd::prelude::*;
use crate::framework::permissions::Permissions;
use crate::framework::Framework;
use crate::message::Message;

verus! {

/// The things that only the application can supply and only the application can run.
///
/// The dispatch logic stores them, chooses among them and hands them back; it never
/// looks inside one.
pub trait Hooks {
    /// The connection to the chat platform.
    type Platform;

    /// The application's own state, made once at start-up.
    type Data;

    /// What runs a command.
    type Action;

    /// What decides, beyond permissions, whether a command may run.
    type Check;

    /// What is told of a failure of one command.
    type CommandErrorHandler;

    /// What is told of every failure that no command takes care of.
    type ErrorHandler;

    /// What is shown every event.
    type Listener;

    /// What works out a prefix from the message at hand.
    type DynamicPrefix;

    /// What writes a command's long help text.
    type Help;

    /// Where the application keeps the bot's
    /// [`EditTracker`](crate::prefix::track_edits::EditTracker), in whatever it uses
    /// to share the tracker among its tasks.
    type TrackerCell;

    /// Which mentions in a message of the bot's may notify those mentioned.
    type AllowedMentions;
}

/// The hooks of a bot that keeps nothing of the application's in the framework: every
/// kind of hook is the unit type.
pub struct NoHooks;

impl Hooks for NoHooks {
    type Platform = ();

    type Data = ();

    type Action = ();

    type Check = ();

    type CommandErrorHandler = ();

    type ErrorHandler = ();

    type Listener = ();

    type DynamicPrefix = ();

    type Help = ();

    type TrackerCell = ();

    type AllowedMentions = ();
}

/// Whether, and when, to show that the bot is typing while a command runs.
pub enum BroadcastTypingBehavior {
    /// Don't broadcast typing
    Never,
    /// Broadcast typing after the command has been running for a certain time
    ///
    /// Set duration to zero for immediate typing broadcast
    WithDelay(core::time::Duration),
}

/// Optional settings for a [`PrefixCommand`].
pub struct PrefixCommandOptions<K: Hooks> {
    /// Short description of the command. Displayed inline in help menus and similar.
    pub inline_help: Option<&'static str>,
    /// Multiline description with detailed usage instructions.
    pub multiline_help: Option<K::Help>,
    /// Alternative triggers for the command
    pub aliases: Vec<&'static str>,
    /// Falls back to the framework-specified value on None.
    pub on_error: Option<K::CommandErrorHandler>,
    /// If this check turns the invocation down, the command will not be executed.
    /// Falls back to the framework-specified value on None.
    pub check: Option<K::Check>,
    /// Whether the bot's answers to this command follow edits of the invocation.
    ///
    /// This does nothing where the framework has no edit tracker.
    pub track_edits: bool,
    /// Falls back to the framework-specified value on None.
    pub broadcast_typing: Option<BroadcastTypingBehavior>,
    /// Whether to hide this command in help menus.
    pub hide_in_help: bool,
    /// Permissions which users must have to invoke this command.
    /// Falls back to the framework-specified value on None.
    pub required_permissions: Option<Permissions>,
    /// If true, only users from the owners list may use this command.
    /// Falls back to the framework-specified value on None.
    pub owners_only: Option<bool>,
}

impl<K: Hooks> Default for PrefixCommandOptions<K> {
    fn default() -> (options: Self)
        ensures
            options.inline_help is None,
            options.multiline_help is None,
            options.aliases@.len() == 0,
            options.on_error is None,
            options.check is None,
            !options.track_edits,
            options.broadcast_typing is None,
            !options.hide_in_help,
            options.required_permissions is None,
            options.owners_only is None,
    {
        Self {
            inline_help: None,
            multiline_help: None,
            aliases: Vec::new(),
            on_error: None,
            check: None,
            track_edits: false,
            broadcast_typing: None,
            hide_in_help: false,
            required_permissions: None,
            owners_only: None,
        }
    }
}

/// Definition of a single command, excluding metadata which doesn't affect the command
/// itself such as category.
pub struct PrefixCommand<K: Hooks> {
    /// Main name of the command. Aliases can be set in [`PrefixCommandOptions::aliases`].
    pub name: &'static str,
    /// What to run when this command is invoked.
    pub action: K::Action,
    /// Optional data to change this command's behavior.
    pub options: PrefixCommandOptions<K>,
}

/// Includes a command, plus metadata like associated sub-commands or category.
pub struct PrefixCommandMeta<K: Hooks> {
    /// Core command data
    pub command: PrefixCommand<K>,
    /// Identifier for the category that this command will be displayed in for help commands.
    pub category: Option<&'static str>,
    /// Possible subcommands
    pub subcommands: Vec<PrefixCommandMeta<K>>,
}

/// `regex::Regex` is used as it comes: a compiled pattern, of which this library knows
/// only what a search with it returns.
#[verifier::external_type_specification]
#[verifier::external_body]
pub struct ExRegex(regex::Regex);

/// One way a message can start in order to address the bot.
pub enum Prefix {
    /// A case-sensitive string literal prefix
    Literal(&'static str),
    /// Regular expression which matches the prefix
    Regex(regex::Regex),
}

/// The framework's settings for prefix commands.
pub struct PrefixFrameworkOptions<K: Hooks> {
    /// List of bot commands.
    pub commands: Vec<PrefixCommandMeta<K>>,
    /// List of additional bot prefixes
    pub additional_prefixes: Vec<Prefix>,
    /// Asked, where no other prefix fits, to strip a prefix off an incoming message.
    ///
    /// Set this for dynamic prefixes which change depending on guild or user.
    pub dynamic_prefix: Option<K::DynamicPrefix>,
    /// Treat a bot mention (a ping) like a prefix
    pub mention_as_prefix: bool,
    /// Asked before every command whose own options name no check. Where this is
    /// `None` too, such commands are admitted without asking.
    pub command_check: Option<K::Check>,
    /// If Some, the framework will react to message edits by editing the corresponding
    /// bot response with the new result.
    pub edit_tracker: Option<K::TrackerCell>,
    /// Whether to broadcast a typing indicator while executing a commmand's action.
    pub broadcast_typing: BroadcastTypingBehavior,
    /// Whether commands in messages emitted by the bot itself should be executed as well.
    pub execute_self_messages: bool,
    /// Whether command names should be compared case-insensitively.
    pub case_insensitive_commands: bool,
    /// Permissions which users must have to invoke a command whose own options name none.
    pub required_permissions: Permissions,
    /// Whether a command whose own options do not say is for owners only.
    pub owners_only: bool,
}

impl<K: Hooks> Default for PrefixFrameworkOptions<K> {
    fn default() -> (options: Self)
        ensures
            options.commands@.len() == 0,
            options.additional_prefixes@.len() == 0,
            options.dynamic_prefix is None,
            options.mention_as_prefix,
            options.command_check is None,
            options.edit_tracker is None,
            options.broadcast_typing is Never,
            !options.execute_self_messages,
            options.case_insensitive_commands,
            options.required_permissions.spec_is_empty(),
            !options.owners_only,
    {
        Self {
            commands: Vec::new(),
            additional_prefixes: Vec::new(),
            dynamic_prefix: None,
            mention_as_prefix: true,
            command_check: None,
            edit_tracker: None,
            broadcast_typing: BroadcastTypingBehavior::Never,
            execute_self_messages: false,
            case_insensitive_commands: true,
            required_permissions: Permissions::empty(),
            owners_only: false,
        }
    }
}

/// Passed to command invocations.
///
/// Contains the trigger message, the connection to the platform, and the user data.
pub struct PrefixContext<'a, K: Hooks> {
    pub discord: &'a K::Platform,
    pub msg: &'a Message,
    pub framework: &'a Framework<K>,
    /// `None` where the context is used without a command, as by a message listener.
    pub command: Option<&'a PrefixCommand<K>>,
    pub data: &'a K::Data,
}

impl<K: Hooks> Clone for PrefixContext<'_, K> {
    fn clone(&self) -> (copy: Self)
        ensures
            copy == *self,
    {
        *self
    }
}

impl<K: Hooks> Copy for PrefixContext<'_, K> {

}

/// Context passed alongside the error value to error handlers
pub struct PrefixCommandErrorContext<'a, K: Hooks> {
    /// Whether the error occured in a check
    pub while_checking: bool,
    /// Which command was being processed when the error occured
    pub command: &'a PrefixCommand<K>,
    /// Further context
    pub ctx: PrefixContext<'a, K>,
}

impl<K: Hooks> Clone for PrefixCommandErrorContext<'_, K> {
    fn clone(&self) -> (copy: Self)
        ensures
            copy == *self,
    {
        Self { while_checking: self.while_checking, command: self.command, ctx: self.ctx }
    }
}

} // verus!
