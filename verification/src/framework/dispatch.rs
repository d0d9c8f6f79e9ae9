//! From a message to the run of a command, step by step.
//!
//! A message is first looked at by the prefix rules, then by the command list; the
//! command found is then checked for access, put before the admission check, and at last
//! run. Each step here decides what comes next and leaves the doing to the caller,
//! who reports back what came of it.

use vstd::prelude::*;
use crate::framework::permissions::{
    check_required_permissions_and_owners_only, check_with_facts, denial, is_owner,
    permission_step, AccessStep, Denial, GuildFacts, Permissions, PlatformFacts,
};
use crate::framework::{Event, Framework};
use crate::message::Message;
use crate::prefix::resolve::{
    dynamic_prefix_answered, dynamic_resolution, resolution, strip_prefix, Resolution, Trigger,
};
use crate::prefix::resolve::{is_self_message, stripped_by};
use crate::prefix::route::{
    after_first_word, find_command, first_word, is_first_answering, lemma_first_answering,
    lemma_unknown_word_routes_nowhere, routed,
};
use crate::text::trim_start;
use crate::prefix::structs::{
    BroadcastTypingBehavior, Hooks, PrefixCommandErrorContext, PrefixCommandMeta, PrefixContext,
};

verus! {

/// How far an event has come on its way to the run of a command.
#[derive(Clone, Copy, Debug, PartialEq, Eq, Structural)]
pub enum Stage {
    /// The event has come in.
    Received,
    /// The event is known to bring a message that may hold a command.
    Classified,
    /// The message holds no command: no prefix fits, or no command answers.
    NotApplicable,
    /// A prefix fits, and what follows it names a command.
    TriggerResolved,
    /// The command and its arguments are found.
    Routed,
    /// The author may not run the command, or the admission check turned it down.
    Unauthorized,
    /// The author may run the command.
    Authorized,
    /// The command has run.
    Executed,
}

/// Whether an event can go from stage `from` to stage `to` in one step.
pub open spec fn follows(from: Stage, to: Stage) -> bool {
    match from {
        Stage::Received => to is Classified,
        Stage::Classified => to is NotApplicable || to is TriggerResolved,
        Stage::TriggerResolved => to is Routed,
        Stage::Routed => to is Unauthorized || to is Authorized,
        Stage::Authorized => to is Executed,
        Stage::NotApplicable => false,
        Stage::Unauthorized => false,
        Stage::Executed => false,
    }
}

/// How many steps lie between [`Stage::Received`] and `stage`.
pub open spec fn depth(stage: Stage) -> nat {
    match stage {
        Stage::Received => 0,
        Stage::Classified => 1,
        Stage::NotApplicable => 2,
        Stage::TriggerResolved => 2,
        Stage::Routed => 3,
        Stage::Unauthorized => 4,
        Stage::Authorized => 4,
        Stage::Executed => 5,
    }
}

/// Whether an event at stage `from` can come to stage `to` in any number of steps.
pub open spec fn reaches(from: Stage, to: Stage) -> bool {
    ||| from == to
    ||| depth(from) < depth(to) && !(from is NotApplicable) && !(from is Unauthorized) && !(from
        is TriggerResolved && to is NotApplicable)
}

/// [`reaches`] is what steps add up to: every step reaches, reaching goes on through
/// a step, and whatever is reached from elsewhere is reached by a first step.
pub proof fn lemma_reaches(from: Stage, mid: Stage, to: Stage)
    ensures
        reaches(from, from),
        follows(from, to) ==> reaches(from, to),
        reaches(from, mid) && follows(mid, to) ==> reaches(from, to),
        reaches(from, to) && from != to ==> exists|next: Stage|
            follows(from, next) && reaches(next, to),
        follows(from, to) ==> depth(to) == depth(from) + 1,
{
    if reaches(from, to) && from != to {
        let next = match from {
            Stage::Received => Stage::Classified,
            Stage::Classified => if to is NotApplicable {
                Stage::NotApplicable
            } else {
                Stage::TriggerResolved
            },
            Stage::TriggerResolved => Stage::Routed,
            Stage::Routed => if to is Unauthorized {
                Stage::Unauthorized
            } else {
                Stage::Authorized
            },
            _ => Stage::Executed,
        };
        assert(follows(from, next) && reaches(next, to));
    }
}

/// A command found for a message, with the arguments that the message gives it.
pub struct Invocation<'a, K: Hooks> {
    /// The context that the command runs in.
    pub ctx: PrefixContext<'a, K>,
    /// The command found.
    pub command: &'a PrefixCommandMeta<K>,
    /// What the message says after the command's name.
    pub args: &'a str,
    /// Whether it was an edit of the message that brought this about.
    pub triggered_by_edit: bool,
}

/// A message that no fixed prefix rule fits, for which the application's own prefix
/// rule is to be asked.
pub struct AwaitingPrefix<'a, K: Hooks> {
    /// The context of the message; there is no command in it yet.
    pub ctx: PrefixContext<'a, K>,
    /// Whether it was an edit of the message that brought this about.
    pub triggered_by_edit: bool,
    /// The rule to ask.
    pub rule: &'a K::DynamicPrefix,
}

/// What was found in a message.
pub enum Dispatched<'a, K: Hooks> {
    /// No command.
    NotApplicable,
    /// Nothing yet: ask the application's own prefix rule, and pass what it says to
    /// [`AwaitingPrefix::answered`].
    AskDynamic(AwaitingPrefix<'a, K>),
    /// A command.
    Routed(Invocation<'a, K>),
}

impl<'a, K: Hooks> Dispatched<'a, K> {
    /// The stage that the message has come to.
    pub open spec fn stage(self) -> Stage {
        match self {
            Dispatched::NotApplicable => Stage::NotApplicable,
            Dispatched::AskDynamic(_) => Stage::Classified,
            Dispatched::Routed(_) => Stage::Routed,
        }
    }
}

/// The command that `text` invokes in this framework, and its arguments.
pub open spec fn invoked<K: Hooks>(framework: &Framework<K>, text: Seq<char>) -> Option<
    (PrefixCommandMeta<K>, Seq<char>),
> {
    routed(
        framework.spec_options().prefix_options.commands@,
        text,
        framework.spec_options().prefix_options.case_insensitive_commands,
    )
}

/// Whether `found` is what routing `text` comes to in the context `ctx`: the command
/// that the text invokes, with its arguments and with the context pointing at it, or
/// no command where the text invokes none.
pub open spec fn is_routing_of<'a, K: Hooks>(
    found: Dispatched<'a, K>,
    ctx: PrefixContext<'a, K>,
    text: Seq<char>,
    triggered_by_edit: bool,
) -> bool {
    match invoked(ctx.framework, text) {
        Some((command, args)) => {
            &&& found matches Dispatched::Routed(invocation)
            &&& *invocation.command == command
            &&& invocation.args@ == args
            &&& invocation.triggered_by_edit == triggered_by_edit
            &&& invocation.ctx == (PrefixContext {
                command: Some(&invocation.command.command),
                ..ctx
            })
        },
        None => found is NotApplicable,
    }
}

/// Looks up the command that `text` names.
fn route<'a, K: Hooks>(ctx: PrefixContext<'a, K>, text: &'a str, triggered_by_edit: bool) -> (found:
    Dispatched<'a, K>)
    ensures
        is_routing_of(found, ctx, text@, triggered_by_edit),
{
    let options = &ctx.framework.options().prefix_options;
    match find_command(&options.commands, text, options.case_insensitive_commands) {
        Some((command, args)) => Dispatched::Routed(
            Invocation {
                ctx: PrefixContext {
                    discord: ctx.discord,
                    msg: ctx.msg,
                    framework: ctx.framework,
                    command: Some(&command.command),
                    data: ctx.data,
                },
                command,
                args,
                triggered_by_edit,
            },
        ),
        None => Dispatched::NotApplicable,
    }
}

/// Looks for a command in `msg`: tries the prefix rules on it and, where one fits,
/// looks up the command that the rest of the message names.
///
/// `bot_id` is the bot's own user id as far as it is known, and `triggered_by_edit`
/// says whether the message is here because it was edited.
pub fn dispatch_message<'a, K: Hooks>(
    framework: &'a Framework<K>,
    discord: &'a K::Platform,
    data: &'a K::Data,
    bot_id: Option<u64>,
    msg: &'a Message,
    triggered_by_edit: bool,
) -> (found: Dispatched<'a, K>)
    ensures
        match resolution(bot_id, framework.spec_options().prefix_options, msg@) {
            Resolution::Stripped(text) => is_routing_of(
                found,
                PrefixContext { discord, msg, framework, command: None, data },
                text,
                triggered_by_edit,
            ),
            Resolution::AskDynamic => {
                &&& found matches Dispatched::AskDynamic(waiting)
                &&& waiting.ctx == (PrefixContext { discord, msg, framework, command: None, data })
                &&& waiting.triggered_by_edit == triggered_by_edit
                &&& framework.spec_options().prefix_options.dynamic_prefix == Some(*waiting.rule)
            },
            Resolution::Unaddressed => found is NotApplicable,
        },
        reaches(Stage::Classified, found.stage()),
{
    let ctx = PrefixContext { discord, msg, framework, command: None, data };
    match strip_prefix(framework, bot_id, msg) {
        Trigger::Stripped(text) => route(ctx, text, triggered_by_edit),
        Trigger::AskDynamic => match &framework.options().prefix_options.dynamic_prefix {
            Some(rule) => Dispatched::AskDynamic(AwaitingPrefix { ctx, triggered_by_edit, rule }),
            None => Dispatched::NotApplicable,
        },
        Trigger::Unaddressed => Dispatched::NotApplicable,
    }
}

impl<'a, K: Hooks> AwaitingPrefix<'a, K> {
    /// Goes on with what the application's own prefix rule said of the message: the
    /// text after the prefix that it found, or `None`.
    pub fn answered(self, answer: Option<&'a str>) -> (found: Dispatched<'a, K>)
        ensures
            match answer {
                Some(text) => is_routing_of(
                    found,
                    self.ctx,
                    dynamic_resolution(Some(text@))->0,
                    self.triggered_by_edit,
                ),
                None => found is NotApplicable,
            },
            found is NotApplicable || found is Routed,
    {
        match dynamic_prefix_answered(answer) {
            Some(text) => route(self.ctx, text, self.triggered_by_edit),
            None => Dispatched::NotApplicable,
        }
    }
}

/// What an admission check said.
#[derive(Clone, Copy, Debug, PartialEq, Eq, Structural)]
pub enum CheckOutcome {
    /// The command may run.
    Passed,
    /// The command may not run; nothing went wrong.
    Refused,
    /// The check itself failed.
    Failed,
}

/// Context of an application command that failed.
pub struct SlashCommandErrorContext<'a> {
    /// Whether the error occured in a check
    pub while_checking: bool,
    /// The name of the command that was being processed when the error occured
    pub command_name: &'a str,
}

/// Which command failed, and how it had been invoked.
pub enum CommandErrorContext<'a, K: Hooks> {
    /// A command invoked by a message with a prefix.
    Prefix(PrefixCommandErrorContext<'a, K>),
    /// A command invoked through the platform's own interface.
    Slash(SlashCommandErrorContext<'a>),
}

/// What failed.
pub enum ErrorContext<'a, K: Hooks> {
    /// The one-time setup of the application's state.
    Setup,
    /// The application's listener, while it was shown this event.
    Listener(&'a Event),
    /// A command, or a check made for it.
    Command(CommandErrorContext<'a, K>),
}

/// Who is to be told of a failure, and what they are told.
pub enum ErrorRoute<'a, K: Hooks> {
    /// The failed command's own handler, and what it is told.
    Command(&'a K::CommandErrorHandler, PrefixCommandErrorContext<'a, K>),
    /// The framework's handler, and what it is told.
    Framework(&'a K::ErrorHandler, ErrorContext<'a, K>),
}

/// What comes after the access check.
pub enum Admission<'a, K: Hooks> {
    /// The author may not run the command. Nothing more is done.
    Unauthorized,
    /// The author may run the command if this check lets it pass: run the check, and
    /// pass what it says to [`Invocation::check_answered`].
    AskCheck(&'a K::Check),
    /// The author may run the command, and this is how.
    Authorized(Execution<'a, K>),
}

impl<'a, K: Hooks> Admission<'a, K> {
    /// The stage that the invocation has come to.
    pub open spec fn stage(self) -> Stage {
        match self {
            Admission::Unauthorized => Stage::Unauthorized,
            Admission::AskCheck(_) => Stage::Routed,
            Admission::Authorized(_) => Stage::Authorized,
        }
    }
}

/// What comes after the admission check.
pub enum Checked<'a, K: Hooks> {
    /// The check turned the invocation down. Nothing more is done.
    Unauthorized,
    /// The check failed. The command does not run, and the failure is to be reported
    /// as the route says.
    Failed(ErrorRoute<'a, K>),
    /// The command may run, and this is how.
    Authorized(Execution<'a, K>),
}

impl<'a, K: Hooks> Checked<'a, K> {
    /// The stage that the invocation has come to.
    pub open spec fn stage(self) -> Stage {
        match self {
            Checked::Unauthorized => Stage::Unauthorized,
            Checked::Failed(_) => Stage::Unauthorized,
            Checked::Authorized(_) => Stage::Authorized,
        }
    }
}

/// The run of a command that may run. There is no way to one but through the access
/// check and the admission check.
pub struct Execution<'a, K: Hooks> {
    invocation: Invocation<'a, K>,
}

impl<'a, K: Hooks> Clone for Invocation<'a, K> {
    fn clone(&self) -> (copy: Self)
        ensures
            copy == *self,
    {
        *self
    }
}

impl<'a, K: Hooks> Copy for Invocation<'a, K> {

}

impl<'a, K: Hooks> Invocation<'a, K> {
    /// The framework's settings for prefix commands.
    pub open spec fn framework_options(self) -> crate::prefix::structs::PrefixFrameworkOptions<K> {
        self.ctx.framework.spec_options().prefix_options
    }

    /// The permissions that the author must have: those that the command names, or,
    /// where it names none, those that the framework names.
    pub open spec fn spec_required_permissions(self) -> Permissions {
        match self.command.command.options.required_permissions {
            Some(required) => required,
            None => self.framework_options().required_permissions,
        }
    }

    /// Whether the command is for owners only: as the command says, or, where it does
    /// not say, as the framework says.
    pub open spec fn spec_owners_only(self) -> bool {
        match self.command.command.options.owners_only {
            Some(owners_only) => owners_only,
            None => self.framework_options().owners_only,
        }
    }

    /// The admission check to ask: the command's own, or, where it has none, the
    /// framework's; `None` where neither has one.
    pub open spec fn spec_check(self) -> Option<K::Check> {
        match self.command.command.options.check {
            Some(check) => Some(check),
            None => self.framework_options().command_check,
        }
    }

    /// Whether, and when, to show that the bot is typing: as the command says, or,
    /// where it does not say, as the framework says.
    pub open spec fn spec_broadcast_typing(self) -> BroadcastTypingBehavior {
        match self.command.command.options.broadcast_typing {
            Some(behavior) => behavior,
            None => self.framework_options().broadcast_typing,
        }
    }

    /// The permissions that the author must have.
    pub fn required_permissions(&self) -> (required: Permissions)
        ensures
            required == self.spec_required_permissions(),
    {
        match self.command.command.options.required_permissions {
            Some(required) => required,
            None => self.ctx.framework.options().prefix_options.required_permissions,
        }
    }

    /// Whether the command is for owners only.
    pub fn owners_only(&self) -> (owners_only: bool)
        ensures
            owners_only == self.spec_owners_only(),
    {
        match self.command.command.options.owners_only {
            Some(owners_only) => owners_only,
            None => self.ctx.framework.options().prefix_options.owners_only,
        }
    }

    /// The admission check to ask, if any.
    pub fn check(&self) -> (check: Option<&'a K::Check>)
        ensures
            match self.spec_check() {
                Some(ask) => check == Some(&ask),
                None => check is None,
            },
    {
        match &self.command.command.options.check {
            Some(check) => Some(check),
            None => match &self.ctx.framework.options().prefix_options.command_check {
                Some(check) => Some(check),
                None => None,
            },
        }
    }

    /// Whether, and when, to show that the bot is typing.
    pub fn broadcast_typing(&self) -> (behavior: &'a BroadcastTypingBehavior)
        ensures
            *behavior == self.spec_broadcast_typing(),
    {
        match &self.command.command.options.broadcast_typing {
            Some(behavior) => behavior,
            None => &self.ctx.framework.options().prefix_options.broadcast_typing,
        }
    }

    /// Starts the access check of the invocation, with what the cache says of the guild:
    /// the author must be an owner where the command is for owners, and must have
    /// the permissions that the command asks for.
    ///
    /// Where the answer is a question, the caller goes on with
    /// [`member_fetched`](crate::framework::permissions::member_fetched) and
    /// [`permissions_computed`](crate::framework::permissions::permissions_computed).
    pub fn access(&self, guild: Option<GuildFacts>) -> (step: AccessStep)
        ensures
            step == if self.spec_owners_only() && !is_owner(self.ctx) {
                AccessStep::Denied(Denial::NotOwner)
            } else {
                permission_step(self.spec_required_permissions(), self.ctx.msg.guild_id, guild)
            },
    {
        check_required_permissions_and_owners_only(
            self.ctx,
            self.required_permissions(),
            self.owners_only(),
            guild,
        )
    }

    /// Goes on after the access check, which ended at `step`. Only a check that ended
    /// allowed lets the invocation go on; one that was left at a question is as good
    /// as one that denied.
    pub fn access_decided(&self, step: AccessStep) -> (next: Admission<'a, K>)
        ensures
            !(step is Allowed) ==> next is Unauthorized,
            step is Allowed ==> match self.spec_check() {
                Some(ask) => next == Admission::<K>::AskCheck(&ask),
                None => next matches Admission::Authorized(run) && run.invocation() == *self,
            },
            follows(Stage::Routed, next.stage()) || next.stage() == Stage::Routed,
    {
        match step {
            AccessStep::Allowed => {},
            _ => {
                return Admission::Unauthorized;
            },
        }
        match self.check() {
            Some(check) => Admission::AskCheck(check),
            None => Admission::Authorized(Execution { invocation: *self }),
        }
    }

    /// Who is to be told of a failure of this invocation: the command's own handler
    /// where it has one, the framework's where it has none. Either is told which
    /// command failed and whether it failed while being checked.
    pub open spec fn spec_error_route(self, while_checking: bool) -> ErrorRoute<'a, K> {
        let context = PrefixCommandErrorContext {
            while_checking,
            command: &self.command.command,
            ctx: self.ctx,
        };
        match self.command.command.options.on_error {
            Some(handler) => ErrorRoute::Command(&handler, context),
            None => ErrorRoute::Framework(
                &self.ctx.framework.spec_options().on_error,
                ErrorContext::Command(CommandErrorContext::Prefix(context)),
            ),
        }
    }

    /// Who is to be told of a failure of this invocation.
    pub fn error_route(&self, while_checking: bool) -> (route: ErrorRoute<'a, K>)
        ensures
            route == self.spec_error_route(while_checking),
    {
        let context = PrefixCommandErrorContext {
            while_checking,
            command: &self.command.command,
            ctx: self.ctx,
        };
        match &self.command.command.options.on_error {
            Some(handler) => ErrorRoute::Command(handler, context),
            None => ErrorRoute::Framework(
                &self.ctx.framework.options().on_error,
                ErrorContext::Command(CommandErrorContext::Prefix(context)),
            ),
        }
    }

    /// Goes on after the admission check that [`Invocation::access_decided`] asked
    /// for.
    pub fn check_answered(&self, outcome: CheckOutcome) -> (next: Checked<'a, K>)
        ensures
            match outcome {
                CheckOutcome::Passed => next matches Checked::Authorized(run) && run.invocation()
                    == *self,
                CheckOutcome::Refused => next is Unauthorized,
                CheckOutcome::Failed => next == Checked::<K>::Failed(self.spec_error_route(true)),
            },
            follows(Stage::Routed, next.stage()),
    {
        match outcome {
            CheckOutcome::Passed => Checked::Authorized(Execution { invocation: *self }),
            CheckOutcome::Refused => Checked::Unauthorized,
            CheckOutcome::Failed => Checked::Failed(self.error_route(true)),
        }
    }
}

impl<'a, K: Hooks> Execution<'a, K> {
    /// The invocation that is run.
    pub closed spec fn invocation(self) -> Invocation<'a, K> {
        self.invocation
    }

    /// What runs the command.
    pub fn action(&self) -> (action: &'a K::Action)
        ensures
            *action == self.invocation().command.command.action,
    {
        &self.invocation.command.command.action
    }

    /// The context to run it in.
    pub fn ctx(&self) -> (ctx: PrefixContext<'a, K>)
        ensures
            ctx == self.invocation().ctx,
    {
        self.invocation.ctx
    }

    /// The arguments to run it with.
    pub fn args(&self) -> (args: &'a str)
        ensures
            args == self.invocation().args,
    {
        self.invocation.args
    }

    /// Whether the run was brought about by an edit of the message.
    pub fn triggered_by_edit(&self) -> (by_edit: bool)
        ensures
            by_edit == self.invocation().triggered_by_edit,
    {
        self.invocation.triggered_by_edit
    }

    /// Whether, and when, to show that the bot is typing while the command runs.
    pub fn broadcast_typing(&self) -> (behavior: &'a BroadcastTypingBehavior)
        ensures
            *behavior == self.invocation().spec_broadcast_typing(),
    {
        self.invocation.broadcast_typing()
    }

    /// Goes on after the run of the command: `failed` says whether it failed. A
    /// failure is to be reported as the route says; a success needs nothing more.
    pub fn finished(&self, failed: bool) -> (report: Option<ErrorRoute<'a, K>>)
        ensures
            failed ==> report == Some(self.invocation().spec_error_route(false)),
            !failed ==> report is None,
    {
        if failed {
            Some(self.invocation.error_route(false))
        } else {
            None
        }
    }
}

/// Everything that the world outside can say in the course of one dispatch.
pub struct Answers<'a> {
    /// What the application's own prefix rule says of the message.
    pub dynamic_prefix: Option<&'a str>,
    /// What the platform says to the access check.
    pub platform: PlatformFacts,
    /// What the admission check says.
    pub check: CheckOutcome,
    /// Whether the run of the command fails.
    pub failed: bool,
}

/// Where a dispatch ended.
pub enum Outcome<'a, K: Hooks> {
    /// The message holds no command.
    NotApplicable,
    /// The command was found and did not run: access was denied, or the admission
    /// check turned the invocation down.
    Unauthorized(Invocation<'a, K>),
    /// The command was found and did not run because the admission check failed; the
    /// failure is to be reported as the route says.
    CheckFailed(Invocation<'a, K>, ErrorRoute<'a, K>),
    /// The command ran; where the run failed, the failure is to be reported as the
    /// route says.
    Executed(Execution<'a, K>, Option<ErrorRoute<'a, K>>),
}

impl<'a, K: Hooks> Outcome<'a, K> {
    /// The stage that the message has come to.
    pub open spec fn stage(self) -> Stage {
        match self {
            Outcome::NotApplicable => Stage::NotApplicable,
            Outcome::Unauthorized(_) => Stage::Unauthorized,
            Outcome::CheckFailed(_, _) => Stage::Unauthorized,
            Outcome::Executed(_, _) => Stage::Executed,
        }
    }
}

/// What a message says to the bot once its address is taken off, given what the
/// application's own prefix rule says if it is asked; `None` where the message is not
/// addressed to the bot.
pub open spec fn addressed_text<K: Hooks>(
    framework: &Framework<K>,
    bot_id: Option<u64>,
    msg: crate::message::MessageView,
    dynamic_prefix: Option<Seq<char>>,
) -> Option<Seq<char>> {
    match resolution(bot_id, framework.spec_options().prefix_options, msg) {
        Resolution::Stripped(text) => Some(text),
        Resolution::AskDynamic => dynamic_resolution(dynamic_prefix),
        Resolution::Unaddressed => None,
    }
}

/// Whether `outcome` is where the invocation ends, given what the platform and the
/// admission check say and whether the run fails.
///
/// Access comes first: where it is denied, nothing else is asked. Then comes the
/// admission check, if the command or the framework has one: only a check that passes
/// lets the command run, and one that fails is reported as a failure while checking.
/// A command that runs and fails is reported as a failure of the run.
pub open spec fn ends_as<'a, K: Hooks>(
    outcome: Outcome<'a, K>,
    invocation: Invocation<'a, K>,
    platform: PlatformFacts,
    check: CheckOutcome,
    failed: bool,
) -> bool {
    let ran = {
        &&& outcome matches Outcome::Executed(run, report)
        &&& run.invocation() == invocation
        &&& report == if failed {
            Some(invocation.spec_error_route(false))
        } else {
            None
        }
    };
    if denial(
        is_owner(invocation.ctx),
        invocation.spec_owners_only(),
        invocation.spec_required_permissions(),
        invocation.ctx.msg.guild_id,
        platform,
    ) is Some {
        outcome == Outcome::Unauthorized(invocation)
    } else if invocation.spec_check() is None {
        ran
    } else {
        match check {
            CheckOutcome::Passed => ran,
            CheckOutcome::Refused => outcome == Outcome::Unauthorized(invocation),
            CheckOutcome::Failed => outcome == Outcome::CheckFailed(
                invocation,
                invocation.spec_error_route(true),
            ),
        }
    }
}

/// The invocation that an outcome is about, if it is about one.
pub open spec fn invocation_of<'a, K: Hooks>(outcome: Outcome<'a, K>) -> Option<Invocation<'a, K>> {
    match outcome {
        Outcome::NotApplicable => None,
        Outcome::Unauthorized(invocation) => Some(invocation),
        Outcome::CheckFailed(invocation, _) => Some(invocation),
        Outcome::Executed(run, _) => Some(run.invocation()),
    }
}

impl<'a, K: Hooks> Invocation<'a, K> {
    /// Takes the invocation through the access check, the admission check and the
    /// run, with every question answered from `answers`.
    pub fn proceed(&self, answers: &Answers<'a>) -> (outcome: Outcome<'a, K>)
        ensures
            ends_as(outcome, *self, answers.platform, answers.check, answers.failed),
            reaches(Stage::Routed, outcome.stage()),
    {
        let step = check_with_facts(
            self.ctx,
            self.required_permissions(),
            self.owners_only(),
            &answers.platform,
        );
        let run = match self.access_decided(step) {
            Admission::Unauthorized => {
                return Outcome::Unauthorized(*self);
            },
            Admission::Authorized(run) => run,
            Admission::AskCheck(_) => match self.check_answered(answers.check) {
                Checked::Unauthorized => {
                    return Outcome::Unauthorized(*self);
                },
                Checked::Failed(route) => {
                    return Outcome::CheckFailed(*self, route);
                },
                Checked::Authorized(run) => run,
            },
        };
        let report = run.finished(answers.failed);
        Outcome::Executed(run, report)
    }
}

/// Whether `outcome` is where the dispatch of the context's message ends, given all
/// that the world outside says.
///
/// A message that is not addressed to the bot, or names no command, ends as not
/// applicable. Any other ends as its invocation does: see [`ends_as`].
pub open spec fn is_outcome_of<'a, K: Hooks>(
    outcome: Outcome<'a, K>,
    ctx: PrefixContext<'a, K>,
    bot_id: Option<u64>,
    triggered_by_edit: bool,
    answers: Answers<'a>,
) -> bool {
    match addressed_text(
        ctx.framework,
        bot_id,
        ctx.msg@,
        match answers.dynamic_prefix {
            Some(text) => Some(text@),
            None => None,
        },
    ) {
        Some(text) => match invoked(ctx.framework, text) {
            Some(_) => {
                &&& invocation_of(outcome) matches Some(invocation)
                &&& is_routing_of(Dispatched::Routed(invocation), ctx, text, triggered_by_edit)
                &&& ends_as(outcome, invocation, answers.platform, answers.check, answers.failed)
            },
            None => outcome is NotApplicable,
        },
        None => outcome is NotApplicable,
    }
}

/// One whole dispatch, for a caller that has all the answers at hand: looks for a
/// command in `msg` and takes it through the access check, the admission check and
/// the run, with every question answered from `answers`.
pub fn dispatch_with_answers<'a, K: Hooks>(
    framework: &'a Framework<K>,
    discord: &'a K::Platform,
    data: &'a K::Data,
    bot_id: Option<u64>,
    msg: &'a Message,
    triggered_by_edit: bool,
    answers: &Answers<'a>,
) -> (outcome: Outcome<'a, K>)
    ensures
        is_outcome_of(
            outcome,
            PrefixContext { discord, msg, framework, command: None, data },
            bot_id,
            triggered_by_edit,
            *answers,
        ),
        reaches(Stage::Received, outcome.stage()),
        outcome.stage() is NotApplicable || outcome.stage() is Unauthorized || outcome.stage()
            is Executed,
{
    let found = match dispatch_message(framework, discord, data, bot_id, msg, triggered_by_edit) {
        Dispatched::AskDynamic(waiting) => waiting.answered(answers.dynamic_prefix),
        decided => decided,
    };
    match found {
        Dispatched::Routed(invocation) => invocation.proceed(answers),
        _ => Outcome::NotApplicable,
    }
}

/// Who is to be told that the one-time setup failed: the framework's handler, for
/// there is no other at that time.
pub fn setup_failed<'a, K: Hooks>(framework: &'a Framework<K>) -> (route: ErrorRoute<'a, K>)
    ensures
        route == ErrorRoute::<K>::Framework(&framework.spec_options().on_error, ErrorContext::Setup),
{
    ErrorRoute::Framework(&framework.options().on_error, ErrorContext::Setup)
}

/// Who is to be told that the application's listener failed on `event`: the
/// framework's handler.
pub fn listener_failed<'a, K: Hooks>(framework: &'a Framework<K>, event: &'a Event) -> (route:
    ErrorRoute<'a, K>)
    ensures
        route == ErrorRoute::<K>::Framework(
            &framework.spec_options().on_error,
            ErrorContext::Listener(event),
        ),
{
    ErrorRoute::Framework(&framework.options().on_error, ErrorContext::Listener(event))
}

/// Who is to be told of a failure of an application command that has no handler of
/// its own: the framework's handler.
pub fn interaction_failed<'a, K: Hooks>(
    framework: &'a Framework<K>,
    context: SlashCommandErrorContext<'a>,
) -> (route: ErrorRoute<'a, K>)
    ensures
        route == ErrorRoute::<K>::Framework(
            &framework.spec_options().on_error,
            ErrorContext::Command(CommandErrorContext::Slash(context)),
        ),
{
    ErrorRoute::Framework(
        &framework.options().on_error,
        ErrorContext::Command(CommandErrorContext::Slash(context)),
    )
}

/// The handler closest to a command is told of its failure: the command's own
/// whenever it has one, the framework's exactly when it has none. What they are told
/// says whether the failure came while checking.
pub proof fn lemma_closest_handler<'a, K: Hooks>(invocation: Invocation<'a, K>, while_checking: bool)
    ensures
        invocation.command.command.options.on_error is Some <==> invocation.spec_error_route(
            while_checking,
        ) is Command,
        invocation.command.command.options.on_error is None <==> invocation.spec_error_route(
            while_checking,
        ) is Framework,
        invocation.spec_error_route(while_checking) matches ErrorRoute::Command(_, context)
            ==> context.while_checking == while_checking,
        invocation.spec_error_route(while_checking) matches ErrorRoute::Framework(_, context)
            ==> context matches ErrorContext::Command(CommandErrorContext::Prefix(told))
            && told.while_checking == while_checking,
{
}

/// A setting that a command leaves open is what the framework says, and one that it
/// fixes is what the command says, whatever the framework says.
pub proof fn lemma_command_settings_override<'a, K: Hooks>(invocation: Invocation<'a, K>)
    ensures
        invocation.command.command.options.required_permissions matches Some(own)
            ==> invocation.spec_required_permissions() == own,
        invocation.command.command.options.required_permissions is None
            ==> invocation.spec_required_permissions()
            == invocation.framework_options().required_permissions,
        invocation.command.command.options.owners_only matches Some(own)
            ==> invocation.spec_owners_only() == own,
        invocation.command.command.options.owners_only is None ==> invocation.spec_owners_only()
            == invocation.framework_options().owners_only,
        invocation.command.command.options.check matches Some(own) ==> invocation.spec_check()
            == Some(own),
        invocation.command.command.options.check is None ==> invocation.spec_check()
            == invocation.framework_options().command_check,
        invocation.command.command.options.broadcast_typing matches Some(own)
            ==> invocation.spec_broadcast_typing() == own,
        invocation.command.command.options.broadcast_typing is None
            ==> invocation.spec_broadcast_typing()
            == invocation.framework_options().broadcast_typing,
{
}

/// What a message says after the prefix at `i` of the settings, without the white
/// space it begins with.
pub open spec fn said_after<K: Hooks>(
    framework: &Framework<K>,
    msg: crate::message::MessageView,
    i: int,
) -> Seq<char> {
    trim_start(
        stripped_by(framework.spec_options().prefix_options.additional_prefixes@[i], msg.content)->0,
    )
}

/// Whether the prefix at `i` of the settings is the first that the message starts
/// with, and the message is not shut out as the bot's own.
pub open spec fn addressed_by<K: Hooks>(
    framework: &Framework<K>,
    bot_id: Option<u64>,
    msg: crate::message::MessageView,
    i: int,
) -> bool {
    let options = framework.spec_options().prefix_options;
    &&& options.execute_self_messages || !is_self_message(bot_id, msg)
    &&& 0 <= i < options.additional_prefixes@.len()
    &&& stripped_by(options.additional_prefixes@[i], msg.content) is Some
    &&& forall|j: int|
        0 <= j < i ==> stripped_by(#[trigger] options.additional_prefixes@[j], msg.content)
            is None
}

/// A message that starts with a prefix of the settings is dispatched by what follows
/// that prefix, and by nothing else: whether it also starts with a mention of the
/// bot, whether mentions count, and what the application's own prefix rule would have
/// said make no difference. Where what follows names the command at `c` and nothing
/// below it, that command is what the dispatch is about: its arguments are the text
/// after its name, and its context has the message and points at the command.
pub proof fn lemma_prefixed_command<'a, K: Hooks>(
    outcome: Outcome<'a, K>,
    ctx: PrefixContext<'a, K>,
    bot_id: Option<u64>,
    triggered_by_edit: bool,
    answers: Answers<'a>,
    i: int,
    c: int,
)
    requires
        is_outcome_of(outcome, ctx, bot_id, triggered_by_edit, answers),
        addressed_by(ctx.framework, bot_id, ctx.msg@, i),
        first_word(said_after(ctx.framework, ctx.msg@, i)).len() > 0,
        is_first_answering(
            ctx.framework.spec_options().prefix_options.commands@,
            first_word(said_after(ctx.framework, ctx.msg@, i)),
            ctx.framework.spec_options().prefix_options.case_insensitive_commands,
            c,
        ),
        routed(
            ctx.framework.spec_options().prefix_options.commands@[c].subcommands@,
            after_first_word(said_after(ctx.framework, ctx.msg@, i)),
            ctx.framework.spec_options().prefix_options.case_insensitive_commands,
        ) is None,
    ensures
        invocation_of(outcome) matches Some(invocation) && {
            &&& *invocation.command == ctx.framework.spec_options().prefix_options.commands@[c]
            &&& invocation.args@ == after_first_word(said_after(ctx.framework, ctx.msg@, i))
            &&& invocation.ctx.msg == ctx.msg
            &&& invocation.ctx.framework == ctx.framework
            &&& invocation.ctx.command == Some(&invocation.command.command)
            &&& invocation.triggered_by_edit == triggered_by_edit
            &&& ends_as(outcome, invocation, answers.platform, answers.check, answers.failed)
        },
{
    let options = ctx.framework.spec_options().prefix_options;
    let text = said_after(ctx.framework, ctx.msg@, i);
    crate::prefix::resolve::lemma_prefix_before_mention(bot_id, options, ctx.msg@, i);
    lemma_first_answering(
        options.commands@,
        first_word(text),
        options.case_insensitive_commands,
        c,
    );
}

/// A message that starts with a prefix of the settings and goes on with a word that
/// no command answers to brings nothing about: no command runs, no check is asked,
/// and nobody is told of anything. The application's own prefix rule is not asked.
pub proof fn lemma_unknown_command<'a, K: Hooks>(
    outcome: Outcome<'a, K>,
    ctx: PrefixContext<'a, K>,
    bot_id: Option<u64>,
    triggered_by_edit: bool,
    answers: Answers<'a>,
    i: int,
)
    requires
        is_outcome_of(outcome, ctx, bot_id, triggered_by_edit, answers),
        addressed_by(ctx.framework, bot_id, ctx.msg@, i),
        forall|j: int|
            0 <= j < ctx.framework.spec_options().prefix_options.commands@.len() ==> !(
            crate::prefix::route::answers_to(
                (#[trigger] ctx.framework.spec_options().prefix_options.commands@[j]).command,
                first_word(said_after(ctx.framework, ctx.msg@, i)),
                ctx.framework.spec_options().prefix_options.case_insensitive_commands,
            )),
    ensures
        outcome is NotApplicable,
{
    let options = ctx.framework.spec_options().prefix_options;
    crate::prefix::resolve::lemma_prefix_before_mention(bot_id, options, ctx.msg@, i);
    lemma_unknown_word_routes_nowhere(
        options.commands@,
        said_after(ctx.framework, ctx.msg@, i),
        options.case_insensitive_commands,
    );
}

/// A message of the bot's own brings nothing about while the bot's own messages are
/// shut out, whatever it says and whatever any rule would make of it.
pub proof fn lemma_own_message_not_applicable<'a, K: Hooks>(
    outcome: Outcome<'a, K>,
    ctx: PrefixContext<'a, K>,
    bot_id: Option<u64>,
    triggered_by_edit: bool,
    answers: Answers<'a>,
)
    requires
        is_outcome_of(outcome, ctx, bot_id, triggered_by_edit, answers),
        !ctx.framework.spec_options().prefix_options.execute_self_messages,
        bot_id == Some(ctx.msg@.author.id),
    ensures
        outcome is NotApplicable,
{
}

/// An invocation that nothing stands against runs: where the command asks for no
/// permission and is not for owners only, and the admission check, if there is one,
/// passes, the command runs, once, as invoked. Somebody is told of it exactly if the
/// run fails.
pub proof fn lemma_open_command_runs<'a, K: Hooks>(
    outcome: Outcome<'a, K>,
    invocation: Invocation<'a, K>,
    platform: PlatformFacts,
    check: CheckOutcome,
    failed: bool,
)
    requires
        ends_as(outcome, invocation, platform, check, failed),
        invocation.spec_required_permissions().spec_is_empty(),
        !invocation.spec_owners_only(),
        invocation.spec_check() is None || check is Passed,
    ensures
        outcome matches Outcome::Executed(run, report) && run.invocation() == invocation && (
        report is Some <==> failed),
        outcome.stage() is Executed,
{
}

} // verus!
