//! The framework: the settings of one bot, what the bot has learned since it started,
//! and what it makes of each event that the platform reports.

pub mod dispatch;
pub mod permissions;

use std::collections::HashSet;
use vstd::prelude::*;
use crate::message::{Message, MessageUpdateEvent};
use crate::prefix::structs::{Hooks, PrefixFrameworkOptions};

verus! {

/// The settings of a bot that do not belong to one kind of command.
pub struct FrameworkOptions<K: Hooks> {
    /// Told of every failure that no command's own handler takes.
    pub on_error: K::ErrorHandler,
    /// Shown every event, after the framework has dealt with it.
    pub listener: K::Listener,
    /// The users that owners-only commands are for.
    pub owners: HashSet<u64>,
    /// Which mentions in a new message of the bot's may notify those mentioned; `None`
    /// leaves it to the platform.
    pub allowed_mentions: Option<K::AllowedMentions>,
    /// The settings for prefix commands.
    pub prefix_options: PrefixFrameworkOptions<K>,
}

/// One bot: the prefix it is known by, and its settings.
pub struct Framework<K: Hooks> {
    prefix: String,
    options: FrameworkOptions<K>,
    application_id: u64,
}

impl<K: Hooks> Framework<K> {
    /// The prefix that the bot is known by, as its help texts show it. It is a name,
    /// not a rule: a message addresses the bot by the prefixes that the settings list.
    pub closed spec fn spec_prefix(&self) -> Seq<char> {
        self.prefix@
    }

    /// The bot's settings.
    pub closed spec fn spec_options(&self) -> FrameworkOptions<K> {
        self.options
    }

    /// The id under which the bot is registered as an application.
    pub closed spec fn spec_application_id(&self) -> u64 {
        self.application_id
    }

    /// A framework with the prefix that the bot is known by, and with settings.
    pub fn new(prefix: String, application_id: u64, options: FrameworkOptions<K>) -> (framework:
        Self)
        ensures
            framework.spec_prefix() == prefix@,
            framework.spec_application_id() == application_id,
            framework.spec_options() == options,
    {
        Self { prefix, options, application_id }
    }

    /// The bot's settings.
    pub fn options(&self) -> (options: &FrameworkOptions<K>)
        ensures
            *options == self.spec_options(),
    {
        &self.options
    }

    /// The id under which the bot is registered as an application.
    pub fn application_id(&self) -> (id: u64)
        ensures
            id == self.spec_application_id(),
    {
        self.application_id
    }

    /// The prefix that the bot is known by.
    pub fn prefix(&self) -> (prefix: &str)
        ensures
            prefix@ == self.spec_prefix(),
    {
        self.prefix.as_str()
    }
}

/// What a bot has learned from the platform since it started.
#[derive(Clone, Copy, Debug, PartialEq, Eq, Structural)]
pub struct Session {
    /// The bot's own user id, once the platform has told it.
    pub bot_id: Option<u64>,
    /// Whether the one-time setup of the application's state is still to be started.
    pub setup_pending: bool,
}

impl Session {
    /// The session of a bot that has not yet heard from the platform.
    pub fn new() -> (session: Session)
        ensures
            session == (Session { bot_id: None, setup_pending: true }),
    {
        Session { bot_id: None, setup_pending: true }
    }
}

/// What the platform reports.
pub enum Event {
    /// The connection stands; the bot has the user id `bot_id`. This comes once at
    /// the start and again after every reconnect.
    Ready { bot_id: u64 },
    /// A message was sent.
    Message { new_message: Message },
    /// A message was edited.
    MessageUpdate { event: MessageUpdateEvent },
    /// A message was deleted.
    MessageDelete { deleted_message_id: u64 },
    /// An application command was invoked through the platform's own interface.
    InteractionCreate { command_name: String },
    /// Anything else.
    Other,
}

/// What the framework itself has to do about an event, before the application's
/// listener is shown the event.
pub enum Reaction<'a> {
    /// Run the one-time setup of the application's state. Where it fails, the failure
    /// goes the way that [`dispatch::setup_failed`] says.
    RunSetup,
    /// Look for a command in the new message.
    Dispatch { message: &'a Message },
    /// Take note of the edit in the edit tracker, then look for a command in the
    /// message as it now stands, marked as brought about by an edit.
    ApplyEdit { update: &'a MessageUpdateEvent },
    /// Have the edit tracker forget what message `trigger` brought about and, if it
    /// had an answer to that message, try to delete the answer. A failure to delete is
    /// worth a warning and nothing more.
    ForgetResponse { trigger: u64 },
    /// Look up the application command named.
    DispatchInteraction { command_name: &'a str },
    /// Nothing.
    Nothing,
}

impl<K: Hooks> Framework<K> {
    /// Whether the bot keeps its answers in step with edits at all.
    pub open spec fn spec_follows_edits(&self) -> bool {
        self.spec_options().prefix_options.edit_tracker is Some
    }

    /// Takes in an event and says what the framework has to do about it.
    ///
    /// A `Ready` always tells the bot its user id; the setup is asked for at the first
    /// `Ready` only. Edits and deletions matter only to a bot that follows edits.
    /// Whatever the answer, the application's listener is to be shown the event
    /// afterwards.
    pub fn event<'a>(&self, event: &'a Event, session: &mut Session) -> (reaction: Reaction<'a>)
        ensures
            match *event {
                Event::Ready { bot_id } => {
                    &&& *final(session) == (Session { bot_id: Some(bot_id), setup_pending: false })
                    &&& if old(session).setup_pending {
                        reaction is RunSetup
                    } else {
                        reaction is Nothing
                    }
                },
                Event::Message { new_message } => {
                    &&& *final(session) == *old(session)
                    &&& reaction matches Reaction::Dispatch { message }
                    &&& *message == new_message
                },
                Event::MessageUpdate { event: edit } => {
                    &&& *final(session) == *old(session)
                    &&& if self.spec_follows_edits() {
                        reaction matches Reaction::ApplyEdit { update } && *update == edit
                    } else {
                        reaction is Nothing
                    }
                },
                Event::MessageDelete { deleted_message_id } => {
                    &&& *final(session) == *old(session)
                    &&& if self.spec_follows_edits() {
                        reaction matches Reaction::ForgetResponse { trigger } && trigger
                            == deleted_message_id
                    } else {
                        reaction is Nothing
                    }
                },
                Event::InteractionCreate { command_name } => {
                    &&& *final(session) == *old(session)
                    &&& reaction matches Reaction::DispatchInteraction { command_name: name }
                    &&& name@ == command_name@
                },
                Event::Other => *final(session) == *old(session) && reaction is Nothing,
            },
    {
        match event {
            Event::Ready { bot_id } => {
                let first = session.setup_pending;
                session.bot_id = Some(*bot_id);
                session.setup_pending = false;
                if first {
                    Reaction::RunSetup
                } else {
                    // a repeated ready event, as after a reconnect
                    Reaction::Nothing
                }
            },
            Event::Message { new_message } => Reaction::Dispatch { message: new_message },
            Event::MessageUpdate { event: edit } => {
                if self.options.prefix_options.edit_tracker.is_some() {
                    Reaction::ApplyEdit { update: edit }
                } else {
                    Reaction::Nothing
                }
            },
            Event::MessageDelete { deleted_message_id } => {
                if self.options.prefix_options.edit_tracker.is_some() {
                    Reaction::ForgetResponse { trigger: *deleted_message_id }
                } else {
                    Reaction::Nothing
                }
            },
            Event::InteractionCreate { command_name } => Reaction::DispatchInteraction {
                command_name: command_name.as_str(),
            },
            Event::Other => Reaction::Nothing,
        }
    }
}

} // verus!
