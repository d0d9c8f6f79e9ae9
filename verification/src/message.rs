//! Messages as the dispatch logic sees them, and the partial updates that edits bring.
//!
//! A [`Message`] holds the fields that the platform reports of a message. An edit
//! arrives as a [`MessageUpdateEvent`] in which every field but id and channel may be
//! missing; [`update_message`] folds such an event into a message, field by field.

use vstd::prelude::*;
use crate::time::Timestamp;

verus! {

/// The kind of an ordinary message, as the platform numbers message kinds.
pub const REGULAR_MESSAGE: u8 = 0;

/// The author of a message.
pub struct User {
    pub id: u64,
    pub name: String,
    pub bot: bool,
}

/// What a [`User`] is, mathematically.
pub struct UserView {
    pub id: u64,
    pub name: Seq<char>,
    pub bot: bool,
}

impl View for User {
    type V = UserView;

    open spec fn view(&self) -> UserView {
        UserView { id: self.id, name: self.name@, bot: self.bot }
    }
}

impl Clone for User {
    fn clone(&self) -> (copy: Self)
        ensures
            copy@ == self@,
    {
        User { id: self.id, name: self.name.clone(), bot: self.bot }
    }
}

/// A message on the platform.
pub struct Message {
    pub id: u64,
    pub channel_id: u64,
    pub guild_id: Option<u64>,
    pub kind: u8,
    pub content: String,
    pub tts: bool,
    pub pinned: bool,
    pub timestamp: Timestamp,
    pub edited_timestamp: Option<Timestamp>,
    pub author: User,
    pub mention_everyone: bool,
    /// The ids of the users mentioned.
    pub mentions: Vec<u64>,
    /// The ids of the roles mentioned.
    pub mention_roles: Vec<u64>,
    /// The ids of the files attached.
    pub attachments: Vec<u64>,
    /// The rich embeds, each in its textual form.
    pub embeds: Vec<String>,
}

/// What a [`Message`] is, mathematically.
pub struct MessageView {
    pub id: u64,
    pub channel_id: u64,
    pub guild_id: Option<u64>,
    pub kind: u8,
    pub content: Seq<char>,
    pub tts: bool,
    pub pinned: bool,
    pub timestamp: Timestamp,
    pub edited_timestamp: Option<Timestamp>,
    pub author: UserView,
    pub mention_everyone: bool,
    pub mentions: Seq<u64>,
    pub mention_roles: Seq<u64>,
    pub attachments: Seq<u64>,
    pub embeds: Seq<Seq<char>>,
}

impl MessageView {
    /// The moment from which the message's age is counted: its latest edit, or its
    /// creation where it was never edited.
    pub open spec fn last_update(self) -> Timestamp {
        match self.edited_timestamp {
            Some(edited) => edited,
            None => self.timestamp,
        }
    }

    /// The message that holds nothing: all ids zero, no text, no author name, created
    /// at the epoch.
    pub open spec fn blank() -> MessageView {
        MessageView {
            id: 0,
            channel_id: 0,
            guild_id: None,
            kind: REGULAR_MESSAGE,
            content: Seq::empty(),
            tts: false,
            pinned: false,
            timestamp: Timestamp { secs: 0, nanos: 0 },
            edited_timestamp: None,
            author: UserView { id: 0, name: Seq::empty(), bot: false },
            mention_everyone: false,
            mentions: Seq::empty(),
            mention_roles: Seq::empty(),
            attachments: Seq::empty(),
            embeds: Seq::empty(),
        }
    }
}

/// The texts of a list of strings.
pub open spec fn texts(strings: Seq<String>) -> Seq<Seq<char>> {
    strings.map_values(|s: String| s@)
}

impl View for Message {
    type V = MessageView;

    open spec fn view(&self) -> MessageView {
        MessageView {
            id: self.id,
            channel_id: self.channel_id,
            guild_id: self.guild_id,
            kind: self.kind,
            content: self.content@,
            tts: self.tts,
            pinned: self.pinned,
            timestamp: self.timestamp,
            edited_timestamp: self.edited_timestamp,
            author: self.author@,
            mention_everyone: self.mention_everyone,
            mentions: self.mentions@,
            mention_roles: self.mention_roles@,
            attachments: self.attachments@,
            embeds: texts(self.embeds@),
        }
    }
}

/// A copy of a list of ids.
fn copy_ids(ids: &Vec<u64>) -> (copy: Vec<u64>)
    ensures
        copy@ == ids@,
{
    let mut copy: Vec<u64> = Vec::new();
    let mut i: usize = 0;
    while i < ids.len()
        invariant
            i <= ids.len(),
            copy@ == ids@.take(i as int),
        decreases ids.len() - i,
    {
        copy.push(ids[i]);
        assert(ids@.take(i + 1) =~= ids@.take(i as int).push(ids@[i as int]));
        i = i + 1;
    }
    assert(ids@.take(ids.len() as int) =~= ids@);
    copy
}

/// A copy of a list of strings.
fn copy_strings(strings: &Vec<String>) -> (copy: Vec<String>)
    ensures
        texts(copy@) == texts(strings@),
{
    let mut copy: Vec<String> = Vec::new();
    let mut i: usize = 0;
    while i < strings.len()
        invariant
            i <= strings.len(),
            copy@.len() == i,
            forall|j: int| 0 <= j < i ==> (#[trigger] copy@[j])@ == strings@[j]@,
        decreases strings.len() - i,
    {
        copy.push(strings[i].clone());
        i = i + 1;
    }
    assert(texts(copy@) =~= texts(strings@));
    copy
}

impl Message {
    /// The message that holds nothing.
    pub fn blank() -> (message: Message)
        ensures
            message@ == MessageView::blank(),
    {
        let message = Message {
            id: 0,
            channel_id: 0,
            guild_id: None,
            kind: REGULAR_MESSAGE,
            content: String::new(),
            tts: false,
            pinned: false,
            timestamp: Timestamp::epoch(),
            edited_timestamp: None,
            author: User { id: 0, name: String::new(), bot: false },
            mention_everyone: false,
            mentions: Vec::new(),
            mention_roles: Vec::new(),
            attachments: Vec::new(),
            embeds: Vec::new(),
        };
        assert(texts(message.embeds@) =~= Seq::empty());
        message
    }

    /// The moment from which the message's age is counted.
    pub fn last_update(&self) -> (at: Timestamp)
        ensures
            at == self@.last_update(),
    {
        match self.edited_timestamp {
            Some(edited) => edited,
            None => self.timestamp,
        }
    }
}

impl Clone for Message {
    fn clone(&self) -> (copy: Self)
        ensures
            copy@ == self@,
    {
        Message {
            id: self.id,
            channel_id: self.channel_id,
            guild_id: self.guild_id,
            kind: self.kind,
            content: self.content.clone(),
            tts: self.tts,
            pinned: self.pinned,
            timestamp: self.timestamp,
            edited_timestamp: self.edited_timestamp,
            author: self.author.clone(),
            mention_everyone: self.mention_everyone,
            mentions: copy_ids(&self.mentions),
            mention_roles: copy_ids(&self.mention_roles),
            attachments: copy_ids(&self.attachments),
            embeds: copy_strings(&self.embeds),
        }
    }
}

/// What an edit reports of a message. The message's id and its channel are always
/// there; any other field is there only if the edit brought it.
pub struct MessageUpdateEvent {
    pub id: u64,
    pub channel_id: u64,
    pub guild_id: Option<u64>,
    pub kind: Option<u8>,
    pub content: Option<String>,
    pub tts: Option<bool>,
    pub pinned: Option<bool>,
    pub timestamp: Option<Timestamp>,
    pub edited_timestamp: Option<Timestamp>,
    pub author: Option<User>,
    pub mention_everyone: Option<bool>,
    pub mentions: Option<Vec<u64>>,
    pub mention_roles: Option<Vec<u64>>,
    pub attachments: Option<Vec<u64>>,
    pub embeds: Option<Vec<String>>,
}

/// What a [`MessageUpdateEvent`] is, mathematically.
pub struct MessageUpdateView {
    pub id: u64,
    pub channel_id: u64,
    pub guild_id: Option<u64>,
    pub kind: Option<u8>,
    pub content: Option<Seq<char>>,
    pub tts: Option<bool>,
    pub pinned: Option<bool>,
    pub timestamp: Option<Timestamp>,
    pub edited_timestamp: Option<Timestamp>,
    pub author: Option<UserView>,
    pub mention_everyone: Option<bool>,
    pub mentions: Option<Seq<u64>>,
    pub mention_roles: Option<Seq<u64>>,
    pub attachments: Option<Seq<u64>>,
    pub embeds: Option<Seq<Seq<char>>>,
}

impl View for MessageUpdateEvent {
    type V = MessageUpdateView;

    open spec fn view(&self) -> MessageUpdateView {
        MessageUpdateView {
            id: self.id,
            channel_id: self.channel_id,
            guild_id: self.guild_id,
            kind: self.kind,
            content: match self.content {
                Some(text) => Some(text@),
                None => None,
            },
            tts: self.tts,
            pinned: self.pinned,
            timestamp: self.timestamp,
            edited_timestamp: self.edited_timestamp,
            author: match self.author {
                Some(user) => Some(user@),
                None => None,
            },
            mention_everyone: self.mention_everyone,
            mentions: match self.mentions {
                Some(ids) => Some(ids@),
                None => None,
            },
            mention_roles: match self.mention_roles {
                Some(ids) => Some(ids@),
                None => None,
            },
            attachments: match self.attachments {
                Some(ids) => Some(ids@),
                None => None,
            },
            embeds: match self.embeds {
                Some(all) => Some(texts(all@)),
                None => None,
            },
        }
    }
}

impl MessageUpdateEvent {
    /// An edit of message `id` in channel `channel_id` that touches nothing.
    pub fn new(id: u64, channel_id: u64, guild_id: Option<u64>) -> (update: MessageUpdateEvent)
        ensures
            update@ == MessageUpdateView::untouched(id, channel_id, guild_id),
    {
        MessageUpdateEvent {
            id,
            channel_id,
            guild_id,
            kind: None,
            content: None,
            tts: None,
            pinned: None,
            timestamp: None,
            edited_timestamp: None,
            author: None,
            mention_everyone: None,
            mentions: None,
            mention_roles: None,
            attachments: None,
            embeds: None,
        }
    }
}

impl MessageUpdateView {
    /// The edit that names the message and its channel, perhaps its guild, and brings
    /// nothing else.
    pub open spec fn untouched(id: u64, channel_id: u64, guild_id: Option<u64>) -> MessageUpdateView {
        MessageUpdateView {
            id,
            channel_id,
            guild_id,
            kind: None,
            content: None,
            tts: None,
            pinned: None,
            timestamp: None,
            edited_timestamp: None,
            author: None,
            mention_everyone: None,
            mentions: None,
            mention_roles: None,
            attachments: None,
            embeds: None,
        }
    }
}

impl Clone for MessageUpdateEvent {
    fn clone(&self) -> (copy: Self)
        ensures
            copy@ == self@,
    {
        MessageUpdateEvent {
            id: self.id,
            channel_id: self.channel_id,
            guild_id: self.guild_id,
            kind: self.kind,
            content: match &self.content {
                Some(text) => Some(text.clone()),
                None => None,
            },
            tts: self.tts,
            pinned: self.pinned,
            timestamp: self.timestamp,
            edited_timestamp: self.edited_timestamp,
            author: match &self.author {
                Some(user) => Some(user.clone()),
                None => None,
            },
            mention_everyone: self.mention_everyone,
            mentions: match &self.mentions {
                Some(ids) => Some(copy_ids(ids)),
                None => None,
            },
            mention_roles: match &self.mention_roles {
                Some(ids) => Some(copy_ids(ids)),
                None => None,
            },
            attachments: match &self.attachments {
                Some(ids) => Some(copy_ids(ids)),
                None => None,
            },
            embeds: match &self.embeds {
                Some(all) => Some(copy_strings(all)),
                None => None,
            },
        }
    }
}

/// The value of one field after an edit: what the edit brings, or else what was there.
pub open spec fn or_kept<T>(brought: Option<T>, kept: T) -> T {
    match brought {
        Some(value) => value,
        None => kept,
    }
}

/// The message that results from folding `update` into `message`.
///
/// The message's id and its channel are always taken from the edit. Every other
/// field, the guild among them, is taken from the edit where the edit has it and is
/// left alone where not. The embeds are left alone even where the edit has them.
pub open spec fn merged(message: MessageView, update: MessageUpdateView) -> MessageView {
    MessageView {
        id: update.id,
        channel_id: update.channel_id,
        guild_id: match update.guild_id {
            Some(guild) => Some(guild),
            None => message.guild_id,
        },
        kind: or_kept(update.kind, message.kind),
        content: or_kept(update.content, message.content),
        tts: or_kept(update.tts, message.tts),
        pinned: or_kept(update.pinned, message.pinned),
        timestamp: or_kept(update.timestamp, message.timestamp),
        edited_timestamp: match update.edited_timestamp {
            Some(edited) => Some(edited),
            None => message.edited_timestamp,
        },
        author: or_kept(update.author, message.author),
        mention_everyone: or_kept(update.mention_everyone, message.mention_everyone),
        mentions: or_kept(update.mentions, message.mentions),
        mention_roles: or_kept(update.mention_roles, message.mention_roles),
        attachments: or_kept(update.attachments, message.attachments),
        embeds: message.embeds,
    }
}

/// Puts `brought` into `slot` where there is something to put.
fn overwrite<T>(slot: &mut T, brought: Option<T>)
    ensures
        *final(slot) == or_kept(brought, *old(slot)),
{
    if let Some(value) = brought {
        *slot = value;
    }
}

/// Folds an edit into a message: the fields that the edit has replace the message's,
/// the others stay as they were.
pub fn update_message(message: &mut Message, update: MessageUpdateEvent)
    ensures
        final(message)@ == merged(old(message)@, update@),
{
    message.id = update.id;
    message.channel_id = update.channel_id;
    if let Some(guild) = update.guild_id {
        message.guild_id = Some(guild);
    }

    overwrite(&mut message.kind, update.kind);
    overwrite(&mut message.content, update.content);
    overwrite(&mut message.tts, update.tts);
    overwrite(&mut message.pinned, update.pinned);
    overwrite(&mut message.timestamp, update.timestamp);
    if let Some(edited_timestamp) = update.edited_timestamp {
        message.edited_timestamp = Some(edited_timestamp);
    }
    overwrite(&mut message.author, update.author);
    overwrite(&mut message.mention_everyone, update.mention_everyone);
    overwrite(&mut message.mentions, update.mentions);
    overwrite(&mut message.mention_roles, update.mention_roles);
    overwrite(&mut message.attachments, update.attachments);
}

/// A field that an edit has is, after the edit, what the edit says.
pub proof fn lemma_merged_reflects_present(message: MessageView, update: MessageUpdateView)
    ensures
        merged(message, update).id == update.id,
        merged(message, update).channel_id == update.channel_id,
        update.guild_id matches Some(v) ==> merged(message, update).guild_id == Some(v),
        update.kind matches Some(v) ==> merged(message, update).kind == v,
        update.content matches Some(v) ==> merged(message, update).content == v,
        update.tts matches Some(v) ==> merged(message, update).tts == v,
        update.pinned matches Some(v) ==> merged(message, update).pinned == v,
        update.timestamp matches Some(v) ==> merged(message, update).timestamp == v,
        update.edited_timestamp matches Some(v) ==> merged(message, update).edited_timestamp
            == Some(v),
        update.author matches Some(v) ==> merged(message, update).author == v,
        update.mention_everyone matches Some(v) ==> merged(message, update).mention_everyone
            == v,
        update.mentions matches Some(v) ==> merged(message, update).mentions == v,
        update.mention_roles matches Some(v) ==> merged(message, update).mention_roles == v,
        update.attachments matches Some(v) ==> merged(message, update).attachments == v,
{
}

/// A field that an edit lacks is, after the edit, what it was before; and the embeds are
/// what they were before in any case.
pub proof fn lemma_merged_preserves_absent(message: MessageView, update: MessageUpdateView)
    ensures
        update.guild_id is None ==> merged(message, update).guild_id == message.guild_id,
        update.kind is None ==> merged(message, update).kind == message.kind,
        update.content is None ==> merged(message, update).content == message.content,
        update.tts is None ==> merged(message, update).tts == message.tts,
        update.pinned is None ==> merged(message, update).pinned == message.pinned,
        update.timestamp is None ==> merged(message, update).timestamp == message.timestamp,
        update.edited_timestamp is None ==> merged(message, update).edited_timestamp
            == message.edited_timestamp,
        update.author is None ==> merged(message, update).author == message.author,
        update.mention_everyone is None ==> merged(message, update).mention_everyone
            == message.mention_everyone,
        update.mentions is None ==> merged(message, update).mentions == message.mentions,
        update.mention_roles is None ==> merged(message, update).mention_roles
            == message.mention_roles,
        update.attachments is None ==> merged(message, update).attachments
            == message.attachments,
        merged(message, update).embeds == message.embeds,
{
}

/// Folding the same edit in twice changes nothing more than folding it in once.
pub proof fn lemma_merged_idempotent(message: MessageView, update: MessageUpdateView)
    ensures
        merged(merged(message, update), update) == merged(message, update),
{
}

} // verus!
