//! Edit tracking: the bot keeps its answer in step with the message that asked for it.
//!
//! An [`EditTracker`] remembers, for a while, which answer the bot gave to which
//! message. When the message is edited the remembered copy of it is brought up to
//! date, so that the command can run again and the answer be edited in place; when
//! an entry has grown too old it is forgotten.

use vstd::prelude::*;
use crate::message::{merged, update_message, Message, MessageUpdateEvent, MessageView};
use crate::prefix::structs::{Hooks, PrefixContext};
use crate::time::{duration_nanos, wall_clock, Timestamp};

verus! {

/// How many seconds to let pass between one purge of an edit tracker and the next.
pub const PURGE_INTERVAL_SECS: u64 = 60;

/// One remembered exchange: the message that triggered a command, and the bot's answer.
pub type Exchange = (Message, Message);

/// Whether the exchange at `i` is the first in `entries` whose trigger is message `id`.
pub open spec fn is_first_for(entries: Seq<Exchange>, id: u64, i: int) -> bool {
    &&& 0 <= i < entries.len()
    &&& entries[i].0.id == id
    &&& forall|j: int| 0 <= j < i ==> (#[trigger] entries[j]).0.id != id
}

/// Whether some exchange in `entries` has message `id` as its trigger.
pub open spec fn tracks(entries: Seq<Exchange>, id: u64) -> bool {
    exists|i: int| 0 <= i < entries.len() && (#[trigger] entries[i]).0.id == id
}

/// Where the first exchange triggered by message `id` stands in `entries`.
pub open spec fn position(entries: Seq<Exchange>, id: u64) -> Option<int> {
    if exists|i: int| is_first_for(entries, id, i) {
        Some(choose|i: int| is_first_for(entries, id, i))
    } else {
        None
    }
}

/// Whether two lists of exchanges are of one length and have, place by place, the same
/// messages as triggers.
pub open spec fn same_triggers(a: Seq<Exchange>, b: Seq<Exchange>) -> bool {
    &&& a.len() == b.len()
    &&& forall|j: int| 0 <= j < a.len() ==> (#[trigger] a[j]).0.id == (#[trigger] b[j]).0.id
}

/// Whether no message is the trigger of two exchanges.
pub open spec fn one_per_trigger(entries: Seq<Exchange>) -> bool {
    forall|i: int, j: int|
        0 <= i < j < entries.len() ==> (#[trigger] entries[i]).0.id != (#[trigger] entries[j]).0.id
}

/// Whether an exchange is forgotten by a purge at `now` that allows an age of
/// `max_nanos`: its trigger was last touched at least that long ago, or its age cannot
/// be told because the trigger claims to be from the future.
pub open spec fn expired(entry: Exchange, now: Timestamp, max_nanos: nat) -> bool {
    now.spec_outlived(entry.0@.last_update(), max_nanos)
}

/// What a purge at `now` leaves of `entries`: the exchanges that are not expired, in the
/// order they had.
pub open spec fn retained(entries: Seq<Exchange>, now: Timestamp, max_nanos: nat) -> Seq<Exchange> {
    entries.filter(|entry: Exchange| !expired(entry, now, max_nanos))
}

/// The first exchange for an id is where [`position`] says, and only there.
pub proof fn lemma_position(entries: Seq<Exchange>, id: u64, i: int)
    ensures
        is_first_for(entries, id, i) <==> position(entries, id) == Some(i),
        position(entries, id) is Some <==> tracks(entries, id),
{
    if is_first_for(entries, id, i) {
        let k = choose|k: int| is_first_for(entries, id, k);
        assert(entries[i].0.id == id);
        assert(entries[k].0.id == id);
        assert(k == i);
    }
    if tracks(entries, id) {
        let w = choose|w: int| 0 <= w < entries.len() && (#[trigger] entries[w]).0.id == id;
        lemma_least_exists(entries, id, w);
    }
    if position(entries, id) is Some {
        let k = choose|k: int| is_first_for(entries, id, k);
        assert(entries[k].0.id == id);
    }
}

/// Below any exchange for an id there is a first one.
proof fn lemma_least_exists(entries: Seq<Exchange>, id: u64, w: int)
    requires
        0 <= w < entries.len(),
        entries[w].0.id == id,
    ensures
        exists|i: int| is_first_for(entries, id, i),
    decreases w,
{
    if exists|j: int| 0 <= j < w && (#[trigger] entries[j]).0.id == id {
        let j = choose|j: int| 0 <= j < w && (#[trigger] entries[j]).0.id == id;
        lemma_least_exists(entries, id, j);
    } else {
        assert(is_first_for(entries, id, w));
    }
}

/// Remembers which answer the bot gave to which message, for a limited time.
pub struct EditTracker {
    max_duration: core::time::Duration,
    cache: Vec<Exchange>,
}

/// What an [`EditTracker`] is, mathematically.
pub struct EditTrackerView {
    /// The remembered exchanges, oldest record first.
    pub entries: Seq<Exchange>,
    /// The age, in nanoseconds, at which an exchange is forgotten.
    pub max_age: nat,
}

impl View for EditTracker {
    type V = EditTrackerView;

    closed spec fn view(&self) -> EditTrackerView {
        EditTrackerView {
            entries: self.cache@,
            max_age: duration_nanos(self.max_duration) as nat,
        }
    }
}

impl EditTracker {
    /// The age, in nanoseconds, at which an exchange is forgotten.
    pub open spec fn max_age(&self) -> nat {
        self@.max_age
    }

    /// A tracker that remembers nothing yet and forgets what is older than `duration`.
    pub fn for_timespan(duration: core::time::Duration) -> (tracker: Self)
        ensures
            tracker@.entries == Seq::<Exchange>::empty(),
            tracker.max_age() == duration_nanos(duration),
    {
        EditTracker { max_duration: duration, cache: Vec::new() }
    }

    /// How many exchanges are remembered.
    pub fn len(&self) -> (n: usize)
        ensures
            n == self@.entries.len(),
    {
        self.cache.len()
    }

    /// Where the first exchange triggered by message `id` stands.
    fn index_of(&self, id: u64) -> (found: Option<usize>)
        ensures
            match found {
                Some(i) => position(self@.entries, id) == Some(i as int),
                None => position(self@.entries, id) is None,
            },
    {
        let mut i: usize = 0;
        while i < self.cache.len()
            invariant
                i <= self.cache.len(),
                forall|j: int| 0 <= j < i ==> (#[trigger] self.cache@[j]).0.id != id,
            decreases self.cache.len() - i,
        {
            if self.cache[i].0.id == id {
                proof {
                    assert(is_first_for(self@.entries, id, i as int));
                    lemma_position(self@.entries, id, i as int);
                }
                return Some(i);
            }
            i = i + 1;
        }
        proof {
            if position(self@.entries, id) is Some {
                let k = choose|k: int| is_first_for(self@.entries, id, k);
                assert(self@.entries[k].0.id == id);
            }
        }
        None
    }

    /// Remembers that the bot answered `user_msg` with `bot_response`.
    ///
    /// The new exchange goes to the end, whether or not `user_msg` is remembered
    /// already; lookups find the earliest exchange of a message.
    pub fn register_response(&mut self, user_msg: Message, bot_response: Message)
        ensures
            final(self)@.entries == old(self)@.entries.push((user_msg, bot_response)),
            final(self).max_age() == old(self).max_age(),
    {
        self.cache.push((user_msg, bot_response));
    }

    /// Takes note of an edit and returns the edited message as it now stands.
    ///
    /// Where the edited message is remembered, the edit is folded into the remembered
    /// copy, and a copy of the result is returned. Where it is not, nothing is
    /// remembered anew: the result is the edit folded into a blank message.
    pub fn process_message_update(&mut self, user_msg_update: &MessageUpdateEvent) -> (current:
        Message)
        ensures
            final(self).max_age() == old(self).max_age(),
            final(self)@.entries.len() == old(self)@.entries.len(),
            same_triggers(old(self)@.entries, final(self)@.entries),
            match position(old(self)@.entries, user_msg_update.id) {
                Some(i) => {
                    &&& current@ == merged(old(self)@.entries[i].0@, user_msg_update@)
                    &&& final(self)@.entries[i].0@ == current@
                    &&& final(self)@.entries[i].1 == old(self)@.entries[i].1
                    &&& forall|j: int|
                        0 <= j < old(self)@.entries.len() && j != i ==> final(self)@.entries[j] == old(self)@.entries[j]
                },
                None => {
                    &&& current@ == merged(MessageView::blank(), user_msg_update@)
                    &&& final(self)@.entries == old(self)@.entries
                },
            },
    {
        match self.index_of(user_msg_update.id) {
            Some(i) => {
                update_message(&mut self.cache[i].0, user_msg_update.clone());
                self.cache[i].0.clone()
            },
            None => {
                let mut user_msg = Message::blank();
                update_message(&mut user_msg, user_msg_update.clone());
                user_msg
            },
        }
    }

    /// The bot's answer to message `user_msg_id`, to read or to change in place.
    ///
    /// What the caller writes through the reference is what the tracker remembers
    /// afterwards; nothing else changes.
    pub fn find_bot_response(&mut self, user_msg_id: u64) -> (response: Option<&mut Message>)
        ensures
            final(self).max_age() == old(self).max_age(),
            match position(old(self)@.entries, user_msg_id) {
                Some(i) => {
                    &&& response is Some
                    &&& *response->0 == old(self)@.entries[i].1
                    &&& final(self)@.entries == old(self)@.entries.update(
                        i,
                        (old(self)@.entries[i].0, *final(response->0)),
                    )
                },
                None => response is None && final(self)@.entries == old(self)@.entries,
            },
    {
        match self.index_of(user_msg_id) {
            Some(i) => Some(&mut self.cache[i].1),
            None => None,
        }
    }

    /// The bot's answer to message `user_msg_id`, to read.
    pub fn response_to(&self, user_msg_id: u64) -> (response: Option<&Message>)
        ensures
            match position(self@.entries, user_msg_id) {
                Some(i) => response == Some(&self@.entries[i].1),
                None => response is None,
            },
    {
        match self.index_of(user_msg_id) {
            Some(i) => Some(&self.cache[i].1),
            None => None,
        }
    }

    /// Forgets the exchange that message `user_msg_id` triggered, and hands back the
    /// bot's answer in it. This is for a trigger that was deleted: the answer handed
    /// back is the one to delete with it.
    pub fn forget(&mut self, user_msg_id: u64) -> (response: Option<Message>)
        ensures
            final(self).max_age() == old(self).max_age(),
            match position(old(self)@.entries, user_msg_id) {
                Some(i) => response == Some(old(self)@.entries[i].1) && final(self)@.entries == old(self)@.entries.remove(i),
                None => response is None && final(self)@.entries == old(self)@.entries,
            },
    {
        match self.index_of(user_msg_id) {
            Some(i) => {
                proof {
                    lemma_position(self@.entries, user_msg_id, i as int);
                }
                let exchange = self.cache.remove(i);
                Some(exchange.1)
            },
            None => None,
        }
    }

    /// Puts `response` in the place of the bot's answer to message `user_msg_id`, if
    /// that message is still remembered; nothing is done if it is not.
    pub fn replace_response(&mut self, user_msg_id: u64, response: Message)
        ensures
            final(self).max_age() == old(self).max_age(),
            match position(old(self)@.entries, user_msg_id) {
                Some(i) => final(self)@.entries == old(self)@.entries.update(i, (old(self)@.entries[i].0, response)),
                None => final(self)@.entries == old(self)@.entries,
            },
    {
        match self.find_bot_response(user_msg_id) {
            Some(entry) => {
                *entry = response;
            },
            None => {},
        }
    }

    /// Forgets every exchange that, at time `now`, is as old as the tracker allows or
    /// older. The age of an exchange is counted from the last edit of its trigger, or
    /// from the trigger's creation if it was never edited. An exchange whose trigger is
    /// dated after `now` has no age that could be told, and is forgotten too.
    pub fn purge(&mut self, now: Timestamp)
        ensures
            final(self)@.entries == retained(old(self)@.entries, now, old(self).max_age()),
            final(self).max_age() == old(self).max_age(),
    {
        let max_nanos = self.max_duration.as_nanos();
        self.purge_older_than(now, max_nanos);
    }

    /// Forgets every exchange that, at time `now`, has reached the age of `max_nanos`
    /// nanoseconds, whatever age the tracker itself allows, and every exchange whose
    /// trigger is dated after `now`.
    pub fn purge_older_than(&mut self, now: Timestamp, max_nanos: u128)
        ensures
            final(self)@.entries == retained(old(self)@.entries, now, max_nanos as nat),
            final(self).max_age() == old(self).max_age(),
    {
        let mut pending: Vec<Exchange> = Vec::new();
        core::mem::swap(&mut self.cache, &mut pending);
        let ghost before = pending@;
        let ghost max = max_nanos as nat;
        proof {
            reveal(Seq::filter);
            assert(before.take(0) =~= Seq::<Exchange>::empty());
        }
        for entry in it: pending
            invariant
                it.seq() == before,
                self.max_duration == old(self).max_duration,
                max == max_nanos,
                self.cache@ == retained(before.take(it.index() as int), now, max),
        {
            proof {
                reveal(Seq::filter);
                let done = before.take(it.index() as int);
                let next = before.take(it.index() + 1);
                assert(next.drop_last() =~= done);
                assert(next.last() == entry);
            }
            if !now.outlived(&entry.0.last_update(), max_nanos) {
                self.cache.push(entry);
            }
        }
        assert(before.take(before.len() as int) =~= before);
    }

    /// Forgets what has grown too old by now: a [`purge`](Self::purge) at the time that
    /// the wall clock shows.
    pub fn purge_now(&mut self)
        ensures
            exists|now: Timestamp| final(self)@.entries == retained(old(self)@.entries, now, old(self).max_age()),
            final(self).max_age() == old(self).max_age(),
    {
        let now = wall_clock();
        self.purge(now);
    }
}

/// A purge forgets exactly the expired exchanges: what it leaves are the exchanges that
/// are not expired, each as often as it was there and in the old order, and nothing else.
pub proof fn lemma_purge_exact(entries: Seq<Exchange>, now: Timestamp, max_nanos: nat)
    ensures
        forall|i: int|
            0 <= i < retained(entries, now, max_nanos).len() ==> !expired(
                #[trigger] retained(entries, now, max_nanos)[i],
                now,
                max_nanos,
            ) && entries.contains(retained(entries, now, max_nanos)[i]),
        forall|i: int|
            0 <= i < entries.len() && !expired(entries[i], now, max_nanos) ==> retained(
                entries,
                now,
                max_nanos,
            ).contains(#[trigger] entries[i]),
        forall|i: int|
            0 <= i < entries.len() && expired(entries[i], now, max_nanos) ==> !retained(
                entries,
                now,
                max_nanos,
            ).contains(#[trigger] entries[i]),
        retained(entries, now, max_nanos).len() <= entries.len(),
{
    let keep = |entry: Exchange| !expired(entry, now, max_nanos);
    let left = retained(entries, now, max_nanos);
    broadcast use vstd::seq_lib::group_filter_ensures;
    assert forall|i: int| 0 <= i < left.len() implies entries.contains(#[trigger] left[i]) by {
        lemma_filter_subset(entries, keep, i);
    }
    assert forall|i: int| 0 <= i < entries.len() && expired(entries[i], now, max_nanos)
        implies !left.contains(#[trigger] entries[i]) by {
        if left.contains(entries[i]) {
            let k = choose|k: int| 0 <= k < left.len() && left[k] == entries[i];
            assert(keep(left[k]));
        }
    }
}

/// Whatever a filter lets through was there before.
proof fn lemma_filter_subset(s: Seq<Exchange>, keep: spec_fn(Exchange) -> bool, i: int)
    requires
        0 <= i < s.filter(keep).len(),
    ensures
        s.contains(s.filter(keep)[i]),
    decreases s.len(),
{
    reveal(Seq::filter);
    if s.len() > 0 {
        let rest = s.drop_last().filter(keep);
        if i < rest.len() {
            lemma_filter_subset(s.drop_last(), keep, i);
            let k = choose|k: int| 0 <= k < s.drop_last().len() && s.drop_last()[k] == rest[i];
            assert(s[k] == rest[i]);
        } else {
            assert(s.filter(keep)[i] == s.last());
            assert(s[s.len() - 1] == s.last());
        }
    }
}

/// Where nothing is expired a purge changes nothing; in particular it changes nothing
/// where nothing is remembered.
pub proof fn lemma_purge_noop(entries: Seq<Exchange>, now: Timestamp, max_nanos: nat)
    requires
        forall|i: int| 0 <= i < entries.len() ==> !expired(#[trigger] entries[i], now, max_nanos),
    ensures
        retained(entries, now, max_nanos) == entries,
    decreases entries.len(),
{
    reveal(Seq::filter);
    if entries.len() > 0 {
        lemma_purge_noop(entries.drop_last(), now, max_nanos);
        assert(entries.drop_last().push(entries.last()) =~= entries);
    }
}

/// An exchange whose trigger is dated after the time of the purge is always forgotten.
pub proof fn lemma_purge_forgets_future(entries: Seq<Exchange>, now: Timestamp, max_nanos: nat, i: int)
    requires
        0 <= i < entries.len(),
        now.instant() < entries[i].0@.last_update().instant(),
    ensures
        expired(entries[i], now, max_nanos),
        !retained(entries, now, max_nanos).contains(entries[i]),
{
    lemma_purge_exact(entries, now, max_nanos);
}

/// Lookups go by the triggers' ids alone: lists with the same triggers in the same
/// places answer every lookup with the same place.
pub proof fn lemma_same_triggers_same_position(a: Seq<Exchange>, b: Seq<Exchange>, id: u64)
    requires
        same_triggers(a, b),
    ensures
        position(a, id) == position(b, id),
        one_per_trigger(a) ==> one_per_trigger(b),
{
    assert forall|i: int| is_first_for(a, id, i) == is_first_for(b, id, i) by {
        if 0 <= i < a.len() {
            assert(a[i].0.id == b[i].0.id);
            assert forall|j: int| 0 <= j < i implies (a[j].0.id != id) == (b[j].0.id != id) by {
                assert(a[j].0.id == b[j].0.id);
            }
        }
    }
    match position(a, id) {
        Some(i) => {
            lemma_position(a, id, i);
            lemma_position(b, id, i);
        },
        None => {
            if position(b, id) is Some {
                let k = position(b, id)->0;
                lemma_position(b, id, k);
                lemma_position(a, id, k);
            }
        },
    }
    if one_per_trigger(a) {
        assert forall|i: int, j: int| 0 <= i < j < b.len() implies (#[trigger] b[i]).0.id != (
        #[trigger] b[j]).0.id by {
            assert(a[i].0.id == b[i].0.id);
            assert(a[j].0.id == b[j].0.id);
        }
    }
}

/// After an edit has been taken note of, a lookup of the edited message finds the
/// exchange it found before, with the answer it had before and a trigger that has
/// what the edit brought and, for the rest, what it had.
pub proof fn lemma_lookup_after_update(
    before: Seq<Exchange>,
    after: Seq<Exchange>,
    update: crate::message::MessageUpdateView,
    i: int,
)
    requires
        position(before, update.id) == Some(i),
        same_triggers(before, after),
        after[i].0@ == merged(before[i].0@, update),
        after[i].1 == before[i].1,
    ensures
        position(after, update.id) == Some(i),
        after[i].1 == before[i].1,
        after[i].0@.id == update.id,
        after[i].0@.content == crate::message::or_kept(update.content, before[i].0@.content),
        after[i].0@.embeds == before[i].0@.embeds,
{
    lemma_same_triggers_same_position(before, after, update.id);
}

/// Recording an answer to a message that is not yet a trigger keeps every message the
/// trigger of at most one exchange.
pub proof fn lemma_register_keeps_one_per_trigger(entries: Seq<Exchange>, entry: Exchange)
    requires
        one_per_trigger(entries),
        !tracks(entries, entry.0.id),
    ensures
        one_per_trigger(entries.push(entry)),
{
    let grown = entries.push(entry);
    assert forall|i: int, j: int| 0 <= i < j < grown.len() implies (#[trigger] grown[i]).0.id != (
    #[trigger] grown[j]).0.id by {
        if j < entries.len() {
            assert(entries[i].0.id != entries[j].0.id);
        } else {
            assert(entries[i].0.id != entry.0.id);
        }
    }
}

/// A purge keeps every message the trigger of at most one exchange.
pub proof fn lemma_purge_keeps_one_per_trigger(entries: Seq<Exchange>, now: Timestamp, max_nanos: nat)
    requires
        one_per_trigger(entries),
    ensures
        one_per_trigger(retained(entries, now, max_nanos)),
    decreases entries.len(),
{
    reveal(Seq::filter);
    if entries.len() > 0 {
        let front = entries.drop_last();
        let keep = |entry: Exchange| !expired(entry, now, max_nanos);
        assert forall|i: int, j: int| 0 <= i < j < front.len() implies (#[trigger] front[i]).0.id
            != (#[trigger] front[j]).0.id by {
            assert(entries[i].0.id != entries[j].0.id);
        }
        lemma_purge_keeps_one_per_trigger(front, now, max_nanos);
        let left = retained(front, now, max_nanos);
        let all = retained(entries, now, max_nanos);
        assert forall|i: int, j: int| 0 <= i < j < all.len() implies (#[trigger] all[i]).0.id != (
        #[trigger] all[j]).0.id by {
            if j < left.len() {
                assert(left[i].0.id != left[j].0.id);
            } else {
                lemma_filter_subset(front, keep, i);
                let k = choose|k: int| 0 <= k < front.len() && front[k] == left[i];
                assert(entries[k].0.id != entries[entries.len() - 1].0.id);
            }
        }
    }
}

/// What a command wants to answer.
pub struct CreateReply {
    /// The text of the answer.
    pub content: Option<String>,
    /// A rich embed to go with it, in its textual form.
    pub embed: Option<String>,
    /// Files to attach, by their paths.
    pub attachments: Vec<String>,
    /// Whether only the invoking user should see the answer. A prefix command's answer
    /// is seen by all in any case.
    pub ephemeral: bool,
}

impl Default for CreateReply {
    fn default() -> (reply: Self)
        ensures
            reply.content is None,
            reply.embed is None,
            reply.attachments@.len() == 0,
            !reply.ephemeral,
    {
        CreateReply { content: None, embed: None, attachments: Vec::new(), ephemeral: false }
    }
}

/// How an answer is to be brought to the platform.
#[allow(inconsistent_fields)]
pub enum ReplyPlan<'a, K: Hooks> {
    /// The bot has answered this message before: edit that answer. Its text becomes
    /// `content`, its embeds become `embed` alone or none, and its attachments are
    /// replaced by `attachments`.
    Edit { response: Message, content: String, embed: Option<String>, attachments: Vec<String> },
    /// Send a new message to the channel, with `content` and `embed` where there are
    /// any, with the attachments, and with the framework's rule for mentions where it
    /// has one.
    Send {
        channel_id: u64,
        content: Option<String>,
        embed: Option<String>,
        attachments: Vec<String>,
        allowed_mentions: Option<&'a K::AllowedMentions>,
    },
}

/// The framework's rule for mentions, if it has one.
pub open spec fn spec_allowed_mentions<'a, K: Hooks>(ctx: PrefixContext<'a, K>) -> Option<
    &'a K::AllowedMentions,
> {
    match ctx.framework.spec_options().allowed_mentions {
        Some(rule) => Some(&rule),
        None => None,
    }
}

/// Whether answers given in this context follow edits of the message: the framework
/// must have an edit tracker, and the command at hand, if there is one, must ask for
/// tracking.
pub open spec fn spec_tracks_edits<K: Hooks>(ctx: PrefixContext<'_, K>) -> bool {
    &&& ctx.framework.spec_options().prefix_options.edit_tracker is Some
    &&& match ctx.command {
        Some(command) => command.options.track_edits,
        None => true,
    }
}

/// Whether answers given in this context follow edits of the message.
pub fn tracks_edits<K: Hooks>(ctx: PrefixContext<'_, K>) -> (follows: bool)
    ensures
        follows == spec_tracks_edits(ctx),
{
    if let Some(command) = ctx.command {
        if !command.options.track_edits {
            return false;
        }
    }
    ctx.framework.options().prefix_options.edit_tracker.is_some()
}

/// The answer that the bot is known to have given to the context's message, where
/// answers in this context follow edits at all.
pub open spec fn earlier_answer<K: Hooks>(
    ctx: PrefixContext<'_, K>,
    tracker: Option<&EditTracker>,
) -> Option<Message> {
    if !spec_tracks_edits(ctx) {
        None
    } else {
        match tracker {
            Some(tracker) => match position(tracker@.entries, ctx.msg.id) {
                Some(i) => Some(tracker@.entries[i].1),
                None => None,
            },
            None => None,
        }
    }
}

/// Decides how `reply` is to be brought to the platform: as an edit of the answer that
/// the bot gave to the context's message before, if it is known to have given one and
/// answers in this context follow edits; as a new message otherwise.
///
/// `tracker` is the framework's edit tracker, if it has one. The caller carries the
/// plan out and reports with [`reply_edited`] or [`reply_sent`].
pub fn send_prefix_reply<'a, K: Hooks>(
    ctx: PrefixContext<'a, K>,
    tracker: Option<&EditTracker>,
    reply: CreateReply,
) -> (plan: ReplyPlan<'a, K>)
    ensures
        match earlier_answer(ctx, tracker) {
            Some(answer) => {
                &&& plan matches ReplyPlan::Edit { response, content, embed, attachments }
                &&& response@ == answer@
                &&& match reply.content {
                    Some(text) => content == text,
                    None => content@.len() == 0,
                }
                &&& embed == reply.embed
                &&& attachments == reply.attachments
            },
            None => {
                &&& plan matches ReplyPlan::Send {
                    channel_id,
                    content,
                    embed,
                    attachments,
                    allowed_mentions,
                }
                &&& channel_id == ctx.msg.channel_id
                &&& content == reply.content
                &&& embed == reply.embed
                &&& attachments == reply.attachments
                &&& allowed_mentions == spec_allowed_mentions(ctx)
            },
        },
{
    let CreateReply { content, embed, attachments, ephemeral: _ } = reply;
    let existing_response = if tracks_edits(ctx) {
        match tracker {
            Some(tracker) => tracker.response_to(ctx.msg.id),
            None => None,
        }
    } else {
        None
    };
    match existing_response {
        Some(response) => {
            // An empty text resets the content, as when text gives way to an embed.
            let content = match content {
                Some(text) => text,
                None => String::new(),
            };
            ReplyPlan::Edit { response: response.clone(), content, embed, attachments }
        },
        None => {
            let allowed_mentions = match &ctx.framework.options().allowed_mentions {
                Some(rule) => Some(rule),
                None => None,
            };
            ReplyPlan::Send {
                channel_id: ctx.msg.channel_id,
                content,
                embed,
                attachments,
                allowed_mentions,
            }
        },
    }
}

/// Decides how the plain text `text` is to be brought to the platform as an answer:
/// [`send_prefix_reply`] for a reply that has this text and nothing else.
pub fn say_prefix_reply<'a, K: Hooks>(
    ctx: PrefixContext<'a, K>,
    tracker: Option<&EditTracker>,
    text: String,
) -> (plan: ReplyPlan<'a, K>)
    ensures
        match earlier_answer(ctx, tracker) {
            Some(answer) => {
                &&& plan matches ReplyPlan::Edit { response, content, embed, attachments }
                &&& response@ == answer@
                &&& content == text
                &&& embed is None
                &&& attachments@.len() == 0
            },
            None => {
                &&& plan matches ReplyPlan::Send {
                    channel_id,
                    content,
                    embed,
                    attachments,
                    allowed_mentions,
                }
                &&& channel_id == ctx.msg.channel_id
                &&& content == Some(text)
                &&& embed is None
                &&& attachments@.len() == 0
                &&& allowed_mentions == spec_allowed_mentions(ctx)
            },
        },
{
    let reply = CreateReply {
        content: Some(text),
        embed: None,
        attachments: Vec::new(),
        ephemeral: false,
    };
    send_prefix_reply(ctx, tracker, reply)
}

/// Takes note that the bot's earlier answer to the context's message was edited on the
/// platform and now reads `response`. If the exchange is still remembered, the new
/// answer takes the place of the old; if it was forgotten in the meantime, nothing is
/// done.
pub fn reply_edited<K: Hooks>(ctx: PrefixContext<'_, K>, tracker: &mut EditTracker, response: Message)
    ensures
        final(tracker).max_age() == old(tracker).max_age(),
        match position(old(tracker)@.entries, ctx.msg.id) {
            Some(i) => final(tracker)@.entries == old(tracker)@.entries.update(i, (old(tracker)@.entries[i].0, response)),
            None => final(tracker)@.entries == old(tracker)@.entries,
        },
{
    tracker.replace_response(ctx.msg.id, response);
}

/// Takes note that the bot has answered the context's message with the new message
/// `response`. Where answers in this context follow edits, the exchange is remembered;
/// where they do not, nothing is done.
pub fn reply_sent<K: Hooks>(ctx: PrefixContext<'_, K>, tracker: &mut EditTracker, response: Message)
    ensures
        final(tracker).max_age() == old(tracker).max_age(),
        if spec_tracks_edits(ctx) {
            &&& final(tracker)@.entries.len() == old(tracker)@.entries.len() + 1
            &&& final(tracker)@.entries.drop_last() == old(tracker)@.entries
            &&& final(tracker)@.entries.last().0@ == ctx.msg@
            &&& final(tracker)@.entries.last().1 == response
        } else {
            final(tracker)@.entries == old(tracker)@.entries
        },
{
    if tracks_edits(ctx) {
        let ghost before = tracker@.entries;
        tracker.register_response(ctx.msg.clone(), response);
        assert(tracker@.entries.drop_last() =~= before);
    }
}

} // verus!
