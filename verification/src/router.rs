//! The thread router: which channel the reply to a message belongs to.
//!
//! A message in a standard channel gets a thread of its own, named after the
//! message. A message in a thread is answered in that thread. Anywhere else
//! the reply goes where the message came from.
//!
//! The router keeps no memory. Routing the same message twice gives the same
//! route both times, and so asks for the same thread twice: a deployment that
//! may see a message more than once has to see to it that the second request
//! is not sent.

use vstd::prelude::*;
use crate::decimal::{decimal_text, lemma_decimal_text_injective, to_decimal};
use crate::ids::{ChannelId, MessageId, UserId};
use crate::transcript::ReferencedMessage;

verus! {

/// The kinds of conversation surface that the router tells apart.
#[derive(Clone, Copy, Debug, PartialEq, Eq, Structural)]
pub enum ChannelKind {
    /// A plain text channel of a persistent group space.
    StandardChannel,
    /// A thread that everyone in the channel can see.
    PublicThread,
    /// A thread for invited members.
    PrivateThread,
    /// Anything else: a direct message, a voice channel's text, an
    /// announcement channel, and so on.
    Other,
}

/// A message that has just arrived.
#[derive(Debug, PartialEq, Eq)]
pub struct InboundMessage {
    pub id: MessageId,
    pub channel_id: ChannelId,
    pub author: UserId,
    pub content: String,
    /// The users that the message mentions.
    pub mentions: Vec<UserId>,
    /// The message that this one replies to, if it replies to one.
    pub referenced: Option<ReferencedMessage>,
}

/// What the platform is asked for when a thread is made from a message.
#[derive(Debug, PartialEq, Eq)]
pub struct ThreadCreationParams {
    pub name: String,
    /// Minutes of silence after which the platform archives the thread;
    /// `None` leaves the platform's own choice in place.
    pub auto_archive_duration: Option<u16>,
    /// Seconds a user must wait between messages; `None` sets no limit.
    pub rate_limit_per_user: Option<u16>,
}

/// The mathematical value of [`ThreadCreationParams`].
pub struct ThreadCreationParamsView {
    pub name: Seq<char>,
    pub auto_archive_duration: Option<u16>,
    pub rate_limit_per_user: Option<u16>,
}

impl View for ThreadCreationParams {
    type V = ThreadCreationParamsView;

    open spec fn view(&self) -> ThreadCreationParamsView {
        ThreadCreationParamsView {
            name: self.name@,
            auto_archive_duration: self.auto_archive_duration,
            rate_limit_per_user: self.rate_limit_per_user,
        }
    }
}

/// Where the reply goes, as far as the kind of the origin decides it.
#[derive(Debug, PartialEq, Eq)]
pub enum Route {
    /// A new thread is made from the message, in the message's channel; the
    /// reply goes to that thread.
    NewThread { channel: ChannelId, message: MessageId, params: ThreadCreationParams },
    /// The reply goes to the origin, which is a thread already.
    SameThread { target: ChannelId },
    /// The reply goes to the origin, whose kind the router has no rule for.
    /// This is no error; the caller notes it.
    Unhandled { target: ChannelId },
}

/// The mathematical value of a [`Route`].
pub enum RouteView {
    NewThread { channel: ChannelId, message: MessageId, params: ThreadCreationParamsView },
    SameThread { target: ChannelId },
    Unhandled { target: ChannelId },
}

impl View for Route {
    type V = RouteView;

    open spec fn view(&self) -> RouteView {
        match self {
            Route::NewThread { channel, message, params } => RouteView::NewThread {
                channel: *channel,
                message: *message,
                params: params@,
            },
            Route::SameThread { target } => RouteView::SameThread { target: *target },
            Route::Unhandled { target } => RouteView::Unhandled { target: *target },
        }
    }
}

/// The name of the thread that is made from `message`.
pub open spec fn thread_name(message: MessageId) -> Seq<char> {
    "Conversation: "@ + decimal_text(message.0 as nat)
}

/// What the platform is asked for when a thread is made from `message`: the
/// thread's name, and no change to archiving or rate limit.
pub open spec fn thread_params(message: MessageId) -> ThreadCreationParamsView {
    ThreadCreationParamsView {
        name: thread_name(message),
        auto_archive_duration: None,
        rate_limit_per_user: None,
    }
}

/// The route for a message with identity `message` that arrived in `origin`,
/// a channel of kind `kind`.
pub open spec fn route_of(kind: ChannelKind, origin: ChannelId, message: MessageId) -> RouteView {
    match kind {
        ChannelKind::StandardChannel => RouteView::NewThread {
            channel: origin,
            message,
            params: thread_params(message),
        },
        ChannelKind::PublicThread | ChannelKind::PrivateThread => RouteView::SameThread {
            target: origin,
        },
        ChannelKind::Other => RouteView::Unhandled { target: origin },
    }
}

/// What the platform is asked for when a thread is made from `message`.
pub fn create_thread_params(message: MessageId) -> (params: ThreadCreationParams)
    ensures
        params@ == thread_params(message),
{
    let mut name = String::from_str("Conversation: ");
    let digits = to_decimal(message.0);
    name.append(digits.as_str());
    ThreadCreationParams { name, auto_archive_duration: None, rate_limit_per_user: None }
}

/// The route for the message with identity `message` that arrived in
/// `origin`, a channel of kind `kind`.
pub fn route_from(kind: ChannelKind, origin: ChannelId, message: MessageId) -> (route: Route)
    ensures
        route@ == route_of(kind, origin, message),
{
    match kind {
        ChannelKind::StandardChannel => Route::NewThread {
            channel: origin,
            message,
            params: create_thread_params(message),
        },
        ChannelKind::PublicThread => Route::SameThread { target: origin },
        ChannelKind::PrivateThread => Route::SameThread { target: origin },
        ChannelKind::Other => Route::Unhandled { target: origin },
    }
}

/// The route for `message`, which arrived in a channel of kind `kind`.
pub fn route(kind: ChannelKind, message: &InboundMessage) -> (route: Route)
    ensures
        route@ == route_of(kind, message.channel_id, message.id),
{
    route_from(kind, message.channel_id, message.id)
}

/// Whether `message` mentions `user`.
pub open spec fn mentions(message: InboundMessage, user: UserId) -> bool {
    exists|i: int| 0 <= i < message.mentions@.len() && message.mentions@[i] == user
}

impl InboundMessage {
    /// Whether this message mentions `user`.
    pub fn mentions_user_id(&self, user: UserId) -> (mentioned: bool)
        ensures
            mentioned == mentions(*self, user),
    {
        let mut i: usize = 0;
        while i < self.mentions.len()
            invariant
                i <= self.mentions.len(),
                forall|j: int| 0 <= j < i ==> self.mentions@[j] != user,
            decreases self.mentions.len() - i,
        {
            if self.mentions[i].0 == user.0 {
                return true;
            }
            i = i + 1;
        }
        false
    }
}

/// The route depends on the kind of the origin, on the origin and on the
/// identity of the message, and on nothing else: two messages that agree on
/// these are routed alike, whoever wrote them and whatever they say. Routing
/// the same message again gives the same route, and the same thread name.
pub proof fn lemma_route_is_function_of_kind_and_identity(
    kind: ChannelKind,
    first: InboundMessage,
    second: InboundMessage,
)
    requires
        first.id == second.id,
        first.channel_id == second.channel_id,
    ensures
        route_of(kind, first.channel_id, first.id) == route_of(
            kind,
            second.channel_id,
            second.id,
        ),
{
}

/// A new thread is asked for in a standard channel and nowhere else; in every
/// other kind of channel the reply goes to the origin.
pub proof fn lemma_route_by_kind(kind: ChannelKind, origin: ChannelId, message: MessageId)
    ensures
        route_of(kind, origin, message) is NewThread <==> kind == ChannelKind::StandardChannel,
        kind != ChannelKind::StandardChannel ==> route_of(kind, origin, message) == (
        RouteView::SameThread { target: origin }) || route_of(kind, origin, message) == (
        RouteView::Unhandled { target: origin }),
{
}

/// Threads made from different messages have different names.
pub proof fn lemma_thread_name_tells_messages_apart(first: MessageId, second: MessageId)
    requires
        thread_name(first) == thread_name(second),
    ensures
        first == second,
{
    let prefix = "Conversation: "@;
    let a = decimal_text(first.0 as nat);
    let b = decimal_text(second.0 as nat);
    assert((prefix + a).subrange(prefix.len() as int, (prefix + a).len() as int) =~= a);
    assert((prefix + b).subrange(prefix.len() as int, (prefix + b).len() as int) =~= b);
    lemma_decimal_text_injective(first.0 as nat, second.0 as nat);
}

} // verus!
