//! The transcript builder: from the messages of a channel to the role-tagged
//! entries that the completion endpoint reads.

use vstd::prelude::*;
use crate::ids::{MessageId, UserId};
use crate::openai::{message_views, MessageView, OpenAIMessage};

verus! {

/// Who an entry of the transcript speaks for.
#[derive(Clone, Copy, Debug, PartialEq, Eq, Structural)]
pub enum Role {
    /// A human participant.
    User,
    /// The bot itself.
    Assistant,
}

impl Role {
    /// The word that the endpoint knows this role by.
    pub open spec fn text(self) -> Seq<char> {
        match self {
            Role::User => "user"@,
            Role::Assistant => "assistant"@,
        }
    }

    /// The word that the endpoint knows this role by.
    pub fn as_str(self) -> (word: &'static str)
        ensures
            word@ == self.text(),
    {
        match self {
            Role::User => "user",
            Role::Assistant => "assistant",
        }
    }
}

/// The message that another message replies to.
#[derive(Debug, PartialEq, Eq)]
pub struct ReferencedMessage {
    pub author: UserId,
    pub content: String,
}

/// A message as the platform hands it out.
#[derive(Debug, PartialEq, Eq)]
pub struct ChatMessage {
    /// The message's place in the order of the channel: its identity.
    pub id: MessageId,
    pub author: UserId,
    pub content: String,
    /// The message that this one replies to, if it replies to one.
    pub referenced: Option<ReferencedMessage>,
}

/// The role of an author: assistant for the bot, user for everyone else.
pub open spec fn role_of(bot: UserId, author: UserId) -> Role {
    if author == bot {
        Role::Assistant
    } else {
        Role::User
    }
}

/// Whether a message borrows its text from the message it replies to: it has
/// no text of its own and replies to one.
pub open spec fn borrows_parent(message: ChatMessage) -> bool {
    message.content@.len() == 0 && message.referenced is Some
}

/// Whose words an entry carries, where that is known: the parent's author
/// for a message that borrows its parent's text, the message's own author
/// for one with text, nobody for an empty message that replies to nothing.
pub open spec fn resolved_author(message: ChatMessage) -> Option<UserId> {
    if message.content@.len() > 0 {
        Some(message.author)
    } else {
        match message.referenced {
            Some(parent) => Some(parent.author),
            None => None,
        }
    }
}

/// The text of the entry for a message: the parent's text for a message that
/// borrows it, its own text otherwise.
pub open spec fn resolved_content(message: ChatMessage) -> Seq<char> {
    if borrows_parent(message) {
        message.referenced->0.content@
    } else {
        message.content@
    }
}

/// The role of the entry for a message: that of the author whose words it
/// carries, and user where nobody's.
pub open spec fn resolved_role(bot: UserId, message: ChatMessage) -> Role {
    match resolved_author(message) {
        Some(author) => role_of(bot, author),
        None => Role::User,
    }
}

/// The entry for one message.
pub open spec fn tagged(bot: UserId, message: ChatMessage) -> MessageView {
    MessageView { role: resolved_role(bot, message).text(), content: resolved_content(message) }
}

/// The transcript of `messages`: one entry for each, in the same order.
pub open spec fn transcript_of(bot: UserId, messages: Seq<ChatMessage>) -> Seq<MessageView> {
    Seq::new(messages.len(), |i: int| tagged(bot, messages[i]))
}

/// The role of an author.
pub fn determine_role(bot: UserId, author: UserId) -> (role: Role)
    ensures
        role == role_of(bot, author),
{
    if author.0 == bot.0 {
        Role::Assistant
    } else {
        Role::User
    }
}

/// The entry for one message.
pub fn tag_message(bot: UserId, message: &ChatMessage) -> (entry: OpenAIMessage)
    ensures
        entry@ == tagged(bot, *message),
{
    if message.content.as_str().is_empty() {
        match &message.referenced {
            Some(parent) => OpenAIMessage::new(
                determine_role(bot, parent.author).as_str(),
                parent.content.as_str(),
            ),
            None => OpenAIMessage::new(Role::User.as_str(), message.content.as_str()),
        }
    } else {
        OpenAIMessage::new(determine_role(bot, message.author).as_str(), message.content.as_str())
    }
}

/// Builds the transcript of `messages`, which are taken oldest first: one
/// entry for each message, none dropped, in the same order.
pub fn build_transcript(bot: UserId, messages: &Vec<ChatMessage>) -> (transcript: Vec<
    OpenAIMessage,
>)
    ensures
        message_views(transcript@) == transcript_of(bot, messages@),
{
    let mut transcript: Vec<OpenAIMessage> = Vec::new();
    let mut i: usize = 0;
    while i < messages.len()
        invariant
            i <= messages.len(),
            transcript.len() == i,
            forall|j: int| 0 <= j < i ==> (#[trigger] transcript[j])@ == tagged(bot, messages[j]),
        decreases messages.len() - i,
    {
        transcript.push(tag_message(bot, &messages[i]));
        i = i + 1;
    }
    proof {
        assert(message_views(transcript@) =~= transcript_of(bot, messages@));
    }
    transcript
}

/// How many messages of a channel's recent history go into a transcript.
pub const HISTORY_WINDOW: u8 = 10;

/// The messages in the opposite order: the platform hands history out newest
/// first, the transcript wants it oldest first.
pub open spec fn chronological(fetched: Seq<ChatMessage>) -> Seq<ChatMessage> {
    Seq::new(fetched.len(), |i: int| fetched[fetched.len() - 1 - i])
}

/// Whether the messages stand newest first: each one older than the one
/// before it.
pub open spec fn newest_first(messages: Seq<ChatMessage>) -> bool {
    forall|i: int, j: int| 0 <= i < j < messages.len() ==> messages[i].id.0 > messages[j].id.0
}

/// Whether the messages stand oldest first: each one newer than the one
/// before it.
pub open spec fn oldest_first(messages: Seq<ChatMessage>) -> bool {
    forall|i: int, j: int| 0 <= i < j < messages.len() ==> messages[i].id.0 < messages[j].id.0
}

/// Puts a history that was fetched newest first into chronological order.
pub fn to_chronological(fetched: Vec<ChatMessage>) -> (ordered: Vec<ChatMessage>)
    ensures
        ordered@ == chronological(fetched@),
{
    let ghost all = fetched@;
    let mut rest = fetched;
    let mut ordered: Vec<ChatMessage> = Vec::new();
    while rest.len() > 0
        invariant
            rest.len() + ordered.len() == all.len(),
            rest@ == all.take(rest.len() as int),
            forall|j: int| 0 <= j < ordered.len() ==> #[trigger] ordered[j] == all[all.len() - 1 - j],
        decreases rest.len(),
    {
        let last = rest.pop();
        match last {
            Some(message) => {
                ordered.push(message);
            },
            None => {},
        }
    }
    proof {
        assert(ordered@ =~= chronological(all));
    }
    ordered
}

/// The transcript of a history as the platform hands it out, newest first:
/// the history is put in chronological order, then every message is tagged.
pub fn transcript_of_history(bot: UserId, fetched: Vec<ChatMessage>) -> (transcript: Vec<
    OpenAIMessage,
>)
    ensures
        message_views(transcript@) == transcript_of(bot, chronological(fetched@)),
{
    let ordered = to_chronological(fetched);
    build_transcript(bot, &ordered)
}

/// An entry is tagged assistant exactly when the words it carries are the
/// bot's, and user otherwise, whether the words are the message's own or
/// borrowed from the message it replies to. (An empty message that replies
/// to nothing carries nobody's words and is tagged user.)
pub proof fn lemma_role_follows_resolved_author(bot: UserId, message: ChatMessage)
    requires
        resolved_author(message) is Some,
    ensures
        resolved_author(message) == Some(bot) ==> tagged(bot, message).role == "assistant"@,
        resolved_author(message) != Some(bot) ==> tagged(bot, message).role == "user"@,
        tagged(bot, message).role == "assistant"@ <==> resolved_author(message) == Some(bot),
{
    reveal_strlit("assistant");
    reveal_strlit("user");
    assert("assistant"@.len() != "user"@.len());
}

/// A message with text of its own is tagged by its own author and keeps its
/// text; one that borrows its parent's text is tagged by the parent's author
/// and carries the parent's text.
pub proof fn lemma_tagged_by_cases(bot: UserId, message: ChatMessage)
    ensures
        message.content@.len() > 0 ==> tagged(bot, message) == (MessageView {
            role: role_of(bot, message.author).text(),
            content: message.content@,
        }),
        borrows_parent(message) ==> tagged(bot, message) == (MessageView {
            role: role_of(bot, message.referenced->0.author).text(),
            content: message.referenced->0.content@,
        }),
        message.content@.len() == 0 && message.referenced is None ==> tagged(bot, message) == (
        MessageView { role: "user"@, content: Seq::<char>::empty() }),
{
    if message.content@.len() == 0 {
        assert(message.content@ =~= Seq::<char>::empty());
    }
}

/// A transcript has one entry for each message, in the order of the
/// messages: nothing is dropped, nothing moves.
pub proof fn lemma_transcript_keeps_length_and_order(bot: UserId, messages: Seq<ChatMessage>)
    ensures
        transcript_of(bot, messages).len() == messages.len(),
        forall|i: int|
            0 <= i < messages.len() ==> #[trigger] transcript_of(bot, messages)[i] == tagged(
                bot,
                messages[i],
            ),
{
}

/// A history that comes newest first leaves `chronological` oldest first,
/// with every message of it and no other: the transcript of a fetched history
/// has as many entries as the history has messages, and its entry `i` is that
/// of the message that is `i`-th in time.
pub proof fn lemma_history_becomes_chronological(bot: UserId, fetched: Seq<ChatMessage>)
    requires
        newest_first(fetched),
    ensures
        chronological(fetched).len() == fetched.len(),
        oldest_first(chronological(fetched)),
        transcript_of(bot, chronological(fetched)).len() == fetched.len(),
        forall|i: int|
            0 <= i < fetched.len() ==> #[trigger] transcript_of(bot, chronological(fetched))[i]
                == tagged(bot, fetched[fetched.len() - 1 - i]),
{
    let ordered = chronological(fetched);
    assert forall|i: int, j: int| 0 <= i < j < ordered.len() implies ordered[i].id.0
        < ordered[j].id.0 by {
        let a = fetched.len() - 1 - j;
        let b = fetched.len() - 1 - i;
        assert(0 <= a < b < fetched.len());
        assert(fetched[a].id.0 > fetched[b].id.0);
    }
}

} // verus!
