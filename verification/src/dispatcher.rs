//! The reply dispatcher: one inbound message from arrival to reply.
//!
//! Handling a message is a walk through the states of [`DispatchState`]. At
//! each state the driver performs the [`Action`] it was given and reports the
//! outcome as a [`DispatchEvent`]; [`Handler::step`] answers with the next
//! state and the next action. There is no way back: a failure at any stage
//! ends the walk in [`DispatchState::Failed`], and the message stays
//! unanswered.

use vstd::prelude::*;
use crate::ids::{ChannelId, MessageId, UserId};
use crate::openai::{
    completion_request, reply_of_outcome, CompletionRequest, CompletionRequestView, GatewayError,
    HttpOutcome, OpenAIClient,
};
use crate::router::{
    mentions, route_from, route_of, ChannelKind, InboundMessage, Route, RouteView,
    ThreadCreationParams, ThreadCreationParamsView,
};
use crate::transcript::{
    chronological, determine_role, role_of, transcript_of, transcript_of_history, ChatMessage,
    HISTORY_WINDOW,
};

verus! {

/// What every event handler reads and none changes: who the bot is, and the
/// gateway to the completion endpoint.
#[derive(Debug, PartialEq, Eq)]
pub struct Handler {
    pub bot_id: UserId,
    pub openai_client: OpenAIClient,
}

/// The message that set the handling off, and the channel it arrived in.
#[derive(Clone, Copy, Debug, PartialEq, Eq, Structural)]
pub struct Trigger {
    pub message: MessageId,
    pub origin: ChannelId,
}

/// Where the handling of one message stands.
#[derive(Debug, PartialEq, Eq)]
pub enum DispatchState {
    /// Nothing has arrived yet.
    ReceiveMessage,
    /// The reply channel is being resolved: the kind of the origin has been
    /// asked for or, with `creating_thread`, a thread is being made.
    RouteChannel { trigger: Trigger, creating_thread: bool },
    /// The recent history of the reply channel has been asked for.
    FetchHistory { trigger: Trigger, target: ChannelId },
    /// The history is here, newest first, and waits to be made a transcript.
    BuildTranscript { trigger: Trigger, target: ChannelId, history: Vec<ChatMessage> },
    /// The completion endpoint has been asked.
    RequestCompletion { trigger: Trigger, target: ChannelId },
    /// The reply is being posted.
    PostReply { trigger: Trigger, target: ChannelId },
    /// The handling has ended well: the reply is posted, or the message was
    /// not for the bot.
    Completed,
    /// The handling has ended in a failure; nothing was posted.
    Failed,
}

/// What the driver reports.
#[derive(Debug, PartialEq, Eq)]
pub enum DispatchEvent {
    /// A message has arrived.
    Inbound(InboundMessage),
    /// The kind of the origin, or `None` where it could not be had.
    ChannelResolved(Option<ChannelKind>),
    /// The new thread, or `None` where the platform made none.
    ThreadCreated(Option<ChannelId>),
    /// The recent history, newest first, or `None` where it could not be had.
    HistoryFetched(Option<Vec<ChatMessage>>),
    /// The driver had nothing to do and hands control back.
    Resumed,
    /// What came of the completion request.
    CompletionReturned(HttpOutcome),
    /// Whether the reply was posted.
    ReplyPosted(bool),
}

/// Why the handling of a message failed.
#[derive(Clone, Copy, Debug, PartialEq, Eq, Structural)]
pub enum Failure {
    /// The kind of the origin could not be had.
    ChannelLookup,
    /// The platform made no thread.
    ThreadCreation,
    /// The history could not be had.
    HistoryFetch,
    /// The completion endpoint brought no reply.
    Completion(GatewayError),
    /// The reply could not be posted.
    ReplyPost,
    /// The driver reported something that the state did not wait for.
    UnexpectedEvent,
}

/// What the driver does next.
#[derive(Debug, PartialEq, Eq)]
pub enum Action {
    /// Ask the platform for the kind of `channel`.
    LookupChannel { channel: ChannelId },
    /// Make a thread from `message` in `channel`.
    CreateThread { channel: ChannelId, message: MessageId, params: ThreadCreationParams },
    /// Fetch the `limit` most recent messages of `channel`.
    FetchHistory { channel: ChannelId, limit: u8 },
    /// Nothing outside: report [`DispatchEvent::Resumed`].
    Resume,
    /// Send `request` to the completion endpoint, once.
    RequestCompletion { request: CompletionRequest },
    /// Post `text` into `channel`.
    PostReply { channel: ChannelId, text: String },
    /// Log `failure` for the message of `trigger`, and stop.
    ReportFailure { trigger: Option<Trigger>, failure: Failure },
    /// Stop: there is nothing more to do.
    Stop,
}

/// The mathematical value of an [`Action`].
pub enum ActionView {
    LookupChannel { channel: ChannelId },
    CreateThread { channel: ChannelId, message: MessageId, params: ThreadCreationParamsView },
    FetchHistory { channel: ChannelId, limit: u8 },
    Resume,
    RequestCompletion { request: CompletionRequestView },
    PostReply { channel: ChannelId, text: Seq<char> },
    ReportFailure { trigger: Option<Trigger>, failure: Failure },
    Stop,
}

impl View for Action {
    type V = ActionView;

    open spec fn view(&self) -> ActionView {
        match self {
            Action::LookupChannel { channel } => ActionView::LookupChannel { channel: *channel },
            Action::CreateThread { channel, message, params } => ActionView::CreateThread {
                channel: *channel,
                message: *message,
                params: params@,
            },
            Action::FetchHistory { channel, limit } => ActionView::FetchHistory {
                channel: *channel,
                limit: *limit,
            },
            Action::Resume => ActionView::Resume,
            Action::RequestCompletion { request } => ActionView::RequestCompletion {
                request: request@,
            },
            Action::PostReply { channel, text } => ActionView::PostReply {
                channel: *channel,
                text: text@,
            },
            Action::ReportFailure { trigger, failure } => ActionView::ReportFailure {
                trigger: *trigger,
                failure: *failure,
            },
            Action::Stop => ActionView::Stop,
        }
    }
}

/// Something worth a line in the log that is no failure.
#[derive(Clone, Copy, Debug, PartialEq, Eq, Structural)]
pub enum Diagnostic {
    /// The router has no rule for the kind of `channel`; the reply goes there.
    UnhandledChannelKind { channel: ChannelId },
}

/// The answer of the dispatcher to one event.
#[derive(Debug, PartialEq, Eq)]
pub struct Step {
    pub state: DispatchState,
    pub action: Action,
    pub note: Option<Diagnostic>,
}

/// The mathematical value of a [`Step`].
pub struct StepView {
    pub state: DispatchState,
    pub action: ActionView,
    pub note: Option<Diagnostic>,
}

impl View for Step {
    type V = StepView;

    open spec fn view(&self) -> StepView {
        StepView { state: self.state, action: self.action@, note: self.note }
    }
}

/// The step that ends the handling in a failure.
pub open spec fn failed(trigger: Option<Trigger>, failure: Failure) -> StepView {
    StepView {
        state: DispatchState::Failed,
        action: ActionView::ReportFailure { trigger, failure },
        note: None,
    }
}

/// The step that ends the handling with nothing more to do.
pub open spec fn finished() -> StepView {
    StepView { state: DispatchState::Completed, action: ActionView::Stop, note: None }
}

/// The step that settles `target` as the reply channel and asks for its
/// recent history.
pub open spec fn fetch(trigger: Trigger, target: ChannelId, note: Option<Diagnostic>) -> StepView {
    StepView {
        state: DispatchState::FetchHistory { trigger, target },
        action: ActionView::FetchHistory { channel: target, limit: HISTORY_WINDOW },
        note,
    }
}

/// The step that follows the kind of the origin.
pub open spec fn routed(trigger: Trigger, kind: ChannelKind) -> StepView {
    match route_of(kind, trigger.origin, trigger.message) {
        RouteView::NewThread { channel, message, params } => StepView {
            state: DispatchState::RouteChannel { trigger, creating_thread: true },
            action: ActionView::CreateThread { channel, message, params },
            note: None,
        },
        RouteView::SameThread { target } => fetch(trigger, target, None),
        RouteView::Unhandled { target } => fetch(
            trigger,
            target,
            Some(Diagnostic::UnhandledChannelKind { channel: target }),
        ),
    }
}

/// The answer of the dispatcher of `handler` to `event` in `state`.
pub open spec fn next_step(handler: Handler, state: DispatchState, event: DispatchEvent) -> StepView {
    match state {
        DispatchState::ReceiveMessage => match event {
            DispatchEvent::Inbound(message) => if mentions(message, handler.bot_id) {
                StepView {
                    state: DispatchState::RouteChannel {
                        trigger: Trigger { message: message.id, origin: message.channel_id },
                        creating_thread: false,
                    },
                    action: ActionView::LookupChannel { channel: message.channel_id },
                    note: None,
                }
            } else {
                finished()
            },
            _ => failed(None, Failure::UnexpectedEvent),
        },
        DispatchState::RouteChannel { trigger, creating_thread } => match event {
            DispatchEvent::ChannelResolved(resolved) => if creating_thread {
                failed(Some(trigger), Failure::UnexpectedEvent)
            } else {
                match resolved {
                    Some(kind) => routed(trigger, kind),
                    None => failed(Some(trigger), Failure::ChannelLookup),
                }
            },
            DispatchEvent::ThreadCreated(created) => if !creating_thread {
                failed(Some(trigger), Failure::UnexpectedEvent)
            } else {
                match created {
                    Some(thread) => fetch(trigger, thread, None),
                    None => failed(Some(trigger), Failure::ThreadCreation),
                }
            },
            _ => failed(Some(trigger), Failure::UnexpectedEvent),
        },
        DispatchState::FetchHistory { trigger, target } => match event {
            DispatchEvent::HistoryFetched(Some(history)) => StepView {
                state: DispatchState::BuildTranscript { trigger, target, history },
                action: ActionView::Resume,
                note: None,
            },
            DispatchEvent::HistoryFetched(None) => failed(Some(trigger), Failure::HistoryFetch),
            _ => failed(Some(trigger), Failure::UnexpectedEvent),
        },
        DispatchState::BuildTranscript { trigger, target, history } => match event {
            DispatchEvent::Resumed => StepView {
                state: DispatchState::RequestCompletion { trigger, target },
                action: ActionView::RequestCompletion {
                    request: completion_request(
                        handler.openai_client.key(),
                        transcript_of(handler.bot_id, chronological(history@)),
                    ),
                },
                note: None,
            },
            _ => failed(Some(trigger), Failure::UnexpectedEvent),
        },
        DispatchState::RequestCompletion { trigger, target } => match event {
            DispatchEvent::CompletionReturned(outcome) => match reply_of_outcome(outcome) {
                Ok(text) => StepView {
                    state: DispatchState::PostReply { trigger, target },
                    action: ActionView::PostReply { channel: target, text },
                    note: None,
                },
                Err(error) => failed(Some(trigger), Failure::Completion(error)),
            },
            _ => failed(Some(trigger), Failure::UnexpectedEvent),
        },
        DispatchState::PostReply { trigger, target } => match event {
            DispatchEvent::ReplyPosted(posted) => if posted {
                finished()
            } else {
                failed(Some(trigger), Failure::ReplyPost)
            },
            _ => failed(Some(trigger), Failure::UnexpectedEvent),
        },
        DispatchState::Completed => finished(),
        DispatchState::Failed => StepView {
            state: DispatchState::Failed,
            action: ActionView::Stop,
            note: None,
        },
    }
}

fn fail(trigger: Option<Trigger>, failure: Failure) -> (step: Step)
    ensures
        step@ == failed(trigger, failure),
{
    Step {
        state: DispatchState::Failed,
        action: Action::ReportFailure { trigger, failure },
        note: None,
    }
}

fn finish() -> (step: Step)
    ensures
        step@ == finished(),
{
    Step { state: DispatchState::Completed, action: Action::Stop, note: None }
}

fn fetch_history(trigger: Trigger, target: ChannelId, note: Option<Diagnostic>) -> (step: Step)
    ensures
        step@ == fetch(trigger, target, note),
{
    Step {
        state: DispatchState::FetchHistory { trigger, target },
        action: Action::FetchHistory { channel: target, limit: HISTORY_WINDOW },
        note,
    }
}

fn follow_route(trigger: Trigger, kind: ChannelKind) -> (step: Step)
    ensures
        step@ == routed(trigger, kind),
{
    match route_from(kind, trigger.origin, trigger.message) {
        Route::NewThread { channel, message, params } => Step {
            state: DispatchState::RouteChannel { trigger, creating_thread: true },
            action: Action::CreateThread { channel, message, params },
            note: None,
        },
        Route::SameThread { target } => fetch_history(trigger, target, None),
        Route::Unhandled { target } => fetch_history(
            trigger,
            target,
            Some(Diagnostic::UnhandledChannelKind { channel: target }),
        ),
    }
}

impl Handler {
    /// A handler for the bot `bot_id` that asks through `openai_client`.
    pub fn new(bot_id: UserId, openai_client: OpenAIClient) -> (handler: Handler)
        ensures
            handler.bot_id == bot_id,
            handler.openai_client == openai_client,
    {
        Handler { bot_id, openai_client }
    }

    /// The role under which the words of `author_id` enter a transcript:
    /// `"assistant"` for the bot's own, `"user"` for everyone else's.
    pub fn determine_openai_role(&self, author_id: UserId) -> (role: &'static str)
        ensures
            role@ == role_of(self.bot_id, author_id).text(),
    {
        determine_role(self.bot_id, author_id).as_str()
    }

    /// Takes up a message that has just arrived: the first step of its
    /// handling. A message that mentions the bot sets the handling off, with
    /// the kind of its channel asked for first; any other message is left
    /// alone.
    pub fn message(&self, msg: InboundMessage) -> (step: Step)
        ensures
            step@ == next_step(*self, DispatchState::ReceiveMessage, DispatchEvent::Inbound(msg)),
            mentions(msg, self.bot_id) ==> step@.state == (DispatchState::RouteChannel {
                trigger: Trigger { message: msg.id, origin: msg.channel_id },
                creating_thread: false,
            }) && step@.action == (ActionView::LookupChannel { channel: msg.channel_id }),
            !mentions(msg, self.bot_id) ==> step@ == finished(),
    {
        self.step(DispatchState::ReceiveMessage, DispatchEvent::Inbound(msg))
    }

    /// The state in which the handling of every message begins.
    pub fn start() -> (state: DispatchState)
        ensures
            state == DispatchState::ReceiveMessage,
    {
        DispatchState::ReceiveMessage
    }

    /// Answers `event`, which the driver reports in `state`, with the next
    /// state, the next action and, where there is one, a note for the log.
    pub fn step(&self, state: DispatchState, event: DispatchEvent) -> (step: Step)
        ensures
            step@ == next_step(*self, state, event),
    {
        match state {
            DispatchState::ReceiveMessage => match event {
                DispatchEvent::Inbound(message) => if message.mentions_user_id(self.bot_id) {
                    Step {
                        state: DispatchState::RouteChannel {
                            trigger: Trigger { message: message.id, origin: message.channel_id },
                            creating_thread: false,
                        },
                        action: Action::LookupChannel { channel: message.channel_id },
                        note: None,
                    }
                } else {
                    finish()
                },
                _ => fail(None, Failure::UnexpectedEvent),
            },
            DispatchState::RouteChannel { trigger, creating_thread } => match event {
                DispatchEvent::ChannelResolved(resolved) => if creating_thread {
                    fail(Some(trigger), Failure::UnexpectedEvent)
                } else {
                    match resolved {
                        Some(kind) => follow_route(trigger, kind),
                        None => fail(Some(trigger), Failure::ChannelLookup),
                    }
                },
                DispatchEvent::ThreadCreated(created) => if !creating_thread {
                    fail(Some(trigger), Failure::UnexpectedEvent)
                } else {
                    match created {
                        Some(thread) => fetch_history(trigger, thread, None),
                        None => fail(Some(trigger), Failure::ThreadCreation),
                    }
                },
                _ => fail(Some(trigger), Failure::UnexpectedEvent),
            },
            DispatchState::FetchHistory { trigger, target } => match event {
                DispatchEvent::HistoryFetched(Some(history)) => Step {
                    state: DispatchState::BuildTranscript { trigger, target, history },
                    action: Action::Resume,
                    note: None,
                },
                DispatchEvent::HistoryFetched(None) => fail(Some(trigger), Failure::HistoryFetch),
                _ => fail(Some(trigger), Failure::UnexpectedEvent),
            },
            DispatchState::BuildTranscript { trigger, target, history } => match event {
                DispatchEvent::Resumed => {
                    let transcript = transcript_of_history(self.bot_id, history);
                    Step {
                        state: DispatchState::RequestCompletion { trigger, target },
                        action: Action::RequestCompletion {
                            request: self.openai_client.create_request(&transcript),
                        },
                        note: None,
                    }
                },
                _ => fail(Some(trigger), Failure::UnexpectedEvent),
            },
            DispatchState::RequestCompletion { trigger, target } => match event {
                DispatchEvent::CompletionReturned(outcome) => match self.openai_client.read_outcome(
                    &outcome,
                ) {
                    Ok(text) => Step {
                        state: DispatchState::PostReply { trigger, target },
                        action: Action::PostReply { channel: target, text },
                        note: None,
                    },
                    Err(error) => fail(Some(trigger), Failure::Completion(error)),
                },
                _ => fail(Some(trigger), Failure::UnexpectedEvent),
            },
            DispatchState::PostReply { trigger, target } => match event {
                DispatchEvent::ReplyPosted(posted) => if posted {
                    finish()
                } else {
                    fail(Some(trigger), Failure::ReplyPost)
                },
                _ => fail(Some(trigger), Failure::UnexpectedEvent),
            },
            DispatchState::Completed => finish(),
            DispatchState::Failed => Step {
                state: DispatchState::Failed,
                action: Action::Stop,
                note: None,
            },
        }
    }
}

/// How far the handling has come: each state's place on the one path from
/// arrival to the end.
pub open spec fn stage(state: DispatchState) -> nat {
    match state {
        DispatchState::ReceiveMessage => 0,
        DispatchState::RouteChannel { creating_thread, .. } => if creating_thread {
            2
        } else {
            1
        },
        DispatchState::FetchHistory { .. } => 3,
        DispatchState::BuildTranscript { .. } => 4,
        DispatchState::RequestCompletion { .. } => 5,
        DispatchState::PostReply { .. } => 6,
        DispatchState::Completed => 7,
        DispatchState::Failed => 7,
    }
}

/// Whether the handling has ended.
pub open spec fn is_terminal(state: DispatchState) -> bool {
    state is Completed || state is Failed
}

/// The reply channel, once it is resolved.
pub open spec fn target_of(state: DispatchState) -> Option<ChannelId> {
    match state {
        DispatchState::FetchHistory { target, .. } => Some(target),
        DispatchState::BuildTranscript { target, .. } => Some(target),
        DispatchState::RequestCompletion { target, .. } => Some(target),
        DispatchState::PostReply { target, .. } => Some(target),
        _ => None,
    }
}

/// The message that set the handling off, while it is under way.
pub open spec fn trigger_of(state: DispatchState) -> Option<Trigger> {
    match state {
        DispatchState::RouteChannel { trigger, .. } => Some(trigger),
        DispatchState::FetchHistory { trigger, .. } => Some(trigger),
        DispatchState::BuildTranscript { trigger, .. } => Some(trigger),
        DispatchState::RequestCompletion { trigger, .. } => Some(trigger),
        DispatchState::PostReply { trigger, .. } => Some(trigger),
        _ => None,
    }
}

/// An ended handling stays ended: whatever is reported, the state does not
/// change and the driver is told to stop. In particular nothing leads out of
/// `Failed`.
pub proof fn lemma_terminal_states_absorb(
    handler: Handler,
    state: DispatchState,
    event: DispatchEvent,
)
    requires
        is_terminal(state),
    ensures
        next_step(handler, state, event).state == state,
        next_step(handler, state, event).action == ActionView::Stop,
        next_step(handler, state, event).note is None,
{
}

/// There is no way back and no second attempt: every step from a state that
/// has not ended leads to a later stage, so no state is entered twice and the
/// handling ends after at most seven steps.
pub proof fn lemma_every_step_advances(handler: Handler, state: DispatchState, event: DispatchEvent)
    requires
        !is_terminal(state),
    ensures
        stage(next_step(handler, state, event).state) > stage(state),
        stage(next_step(handler, state, event).state) <= 7,
{
}

/// A failure at any stage ends the handling at once: the next state is
/// `Failed`, the driver is told to log the failure with the message that set
/// the handling off, and nothing is posted.
pub proof fn lemma_failure_is_reported_and_final(
    handler: Handler,
    state: DispatchState,
    event: DispatchEvent,
)
    requires
        !is_terminal(state),
        next_step(handler, state, event).state is Failed,
    ensures
        next_step(handler, state, event).action is ReportFailure,
        next_step(handler, state, event).action->ReportFailure_trigger == trigger_of(state),
{
}

/// One reply channel serves the whole handling: once it is resolved it never
/// changes, the history is fetched from it, and the reply is posted into it.
pub proof fn lemma_one_target(handler: Handler, state: DispatchState, event: DispatchEvent)
    ensures
        target_of(state) is Some && !is_terminal(next_step(handler, state, event).state)
            ==> target_of(next_step(handler, state, event).state) == target_of(state),
        next_step(handler, state, event).action matches ActionView::FetchHistory { channel, limit }
            ==> target_of(next_step(handler, state, event).state) == Some(channel) && limit
            == HISTORY_WINDOW,
        next_step(handler, state, event).action matches ActionView::PostReply { channel, .. }
            ==> target_of(state) == Some(channel),
{
}

/// The message that set the handling off stays the same to the end.
pub proof fn lemma_one_trigger(handler: Handler, state: DispatchState, event: DispatchEvent)
    requires
        trigger_of(state) is Some,
        !is_terminal(next_step(handler, state, event).state),
    ensures
        trigger_of(next_step(handler, state, event).state) == trigger_of(state),
{
}

/// A reply is posted only for an answer of the completion endpoint, and is
/// that answer's text: the driver is told to post exactly when it reports a
/// completion outcome that brings a reply while the dispatcher waits for one.
pub proof fn lemma_reply_is_the_completion(
    handler: Handler,
    state: DispatchState,
    event: DispatchEvent,
)
    ensures
        next_step(handler, state, event).action is PostReply <==> state is RequestCompletion
            && event is CompletionReturned && reply_of_outcome(event->CompletionReturned_0) is Ok,
        next_step(handler, state, event).action matches ActionView::PostReply { text, .. }
            ==> reply_of_outcome(event->CompletionReturned_0) == Ok::<Seq<char>, GatewayError>(
            text,
        ),
{
}

/// The completion endpoint is asked once, with the transcript of the fetched
/// history as it is: every message of the history has its entry, oldest
/// first, and nothing else is sent.
pub proof fn lemma_request_carries_the_transcript(
    handler: Handler,
    state: DispatchState,
    event: DispatchEvent,
)
    requires
        next_step(handler, state, event).action is RequestCompletion,
    ensures
        state is BuildTranscript,
        next_step(handler, state, event).action->RequestCompletion_request == completion_request(
            handler.openai_client.key(),
            transcript_of(handler.bot_id, chronological(state->BuildTranscript_history@)),
        ),
        transcript_of(handler.bot_id, chronological(state->BuildTranscript_history@)).len()
            == state->BuildTranscript_history@.len(),
{
}

} // verus!
