//! The completion gateway: the request that goes to the hosted completion
//! endpoint, and what its answer means.

use vstd::prelude::*;
use crate::json::{
    item_views, lemma_array_view, lemma_object_view, lookup, member_views, parsed_json, Json,
    JsonView, Member, MemberView,
};

verus! {

/// Where completion requests are sent.
pub const OPENAI_API_URL: &'static str = "https://api.openai.com/v1/chat/completions";

/// The model that every request names.
pub const OPENAI_MODEL: &'static str = "gpt-4o-mini";

/// The reply that stands in where an answer holds no text.
pub const FALLBACK_REPLY: &'static str = "I'm sorry, I couldn't understand that.";

/// One entry of a transcript: who spoke, and what was said.
#[derive(Debug, PartialEq, Eq)]
pub struct OpenAIMessage {
    role: String,
    content: String,
}

/// The mathematical value of an [`OpenAIMessage`].
pub struct MessageView {
    pub role: Seq<char>,
    pub content: Seq<char>,
}

impl View for OpenAIMessage {
    type V = MessageView;

    closed spec fn view(&self) -> MessageView {
        MessageView { role: self.role@, content: self.content@ }
    }
}

/// The views of the entries of a transcript, in order.
pub open spec fn message_views(messages: Seq<OpenAIMessage>) -> Seq<MessageView> {
    Seq::new(messages.len(), |i: int| messages[i]@)
}

impl OpenAIMessage {
    /// An entry with the given role and content.
    pub fn new(role: &str, content: &str) -> (message: OpenAIMessage)
        ensures
            message@ == (MessageView { role: role@, content: content@ }),
    {
        OpenAIMessage { role: role.to_owned(), content: content.to_owned() }
    }

    /// Who spoke.
    pub fn role(&self) -> (role: &str)
        ensures
            role@ == self@.role,
    {
        self.role.as_str()
    }

    /// What was said.
    pub fn content(&self) -> (content: &str)
        ensures
            content@ == self@.content,
    {
        self.content.as_str()
    }
}

/// A member whose value is a string.
pub open spec fn text_member(key: Seq<char>, value: Seq<char>) -> MemberView {
    MemberView { key, value: JsonView::Text(value) }
}

/// A member whose value is a number, given by its decimal text.
pub open spec fn number_member(key: Seq<char>, digits: Seq<char>) -> MemberView {
    MemberView { key, value: JsonView::Number(digits) }
}

/// One transcript entry as the endpoint wants it: `{role, content}`.
pub open spec fn message_json(message: MessageView) -> JsonView {
    JsonView::Object(
        seq![text_member("role"@, message.role), text_member("content"@, message.content)],
    )
}

/// The transcript as the endpoint wants it: every entry, in order.
pub open spec fn messages_json(messages: Seq<MessageView>) -> JsonView {
    JsonView::Array(Seq::new(messages.len(), |i: int| message_json(messages[i])))
}

/// The body of a completion request for `messages`: the fixed model, the
/// transcript as it is, and the fixed generation parameters.
pub open spec fn request_body(messages: Seq<MessageView>) -> JsonView {
    JsonView::Object(
        seq![
            text_member("model"@, OPENAI_MODEL@),
            MemberView { key: "messages"@, value: messages_json(messages) },
            number_member("max_tokens"@, "4096"@),
            number_member("temperature"@, "0.7"@),
            number_member("top_p"@, "1.0"@),
            number_member("frequency_penalty"@, "0.0"@),
            number_member("presence_penalty"@, "0.0"@),
        ],
    )
}

fn make_text_member(key: &str, value: &str) -> (member: Member)
    ensures
        member@ == text_member(key@, value@),
{
    Member { key: key.to_owned(), value: Json::Text(value.to_owned()) }
}

fn make_number_member(key: &str, digits: &str) -> (member: Member)
    ensures
        member@ == number_member(key@, digits@),
{
    Member { key: key.to_owned(), value: Json::Number(digits.to_owned()) }
}

fn make_message_json(message: &OpenAIMessage) -> (json: Json)
    ensures
        json@ == message_json(message@),
{
    let mut members: Vec<Member> = Vec::new();
    members.push(make_text_member("role", message.role()));
    members.push(make_text_member("content", message.content()));
    proof {
        lemma_object_view(members);
        assert(member_views(members@) =~= message_json(message@)->Object_0);
    }
    Json::Object(members)
}

fn make_messages_json(messages: &Vec<OpenAIMessage>) -> (json: Json)
    ensures
        json@ == messages_json(message_views(messages@)),
{
    let mut items: Vec<Json> = Vec::new();
    let mut i: usize = 0;
    while i < messages.len()
        invariant
            i <= messages.len(),
            items.len() == i,
            forall|j: int| 0 <= j < i ==> (#[trigger] items[j])@ == message_json(messages[j]@),
        decreases messages.len() - i,
    {
        items.push(make_message_json(&messages[i]));
        i = i + 1;
    }
    proof {
        lemma_array_view(items);
        assert(item_views(items@) =~= messages_json(message_views(messages@))->Array_0);
    }
    Json::Array(items)
}

/// The gateway's fixed configuration: the credential of the endpoint.
#[derive(Debug, PartialEq, Eq)]
pub struct OpenAIClient {
    api_key: String,
}

/// Why a completion request brought no reply.
#[derive(Clone, Copy, Debug, PartialEq, Eq, Structural)]
pub enum GatewayError {
    /// The endpoint was not reached, or its answer did not arrive in time or
    /// in full.
    Transport,
    /// The endpoint answered with a status that is no success.
    Status(u16),
}

/// What came of sending one request to the endpoint.
#[derive(Debug, PartialEq, Eq)]
pub enum HttpOutcome {
    /// No answer: the endpoint was not reached, or the wait ran out.
    Unreachable,
    /// An answer with its status and, where the status is a success, its body.
    Answered { status: u16, body: Vec<u8> },
}

/// A request, ready to be sent as one HTTP POST.
#[derive(Debug, PartialEq, Eq)]
pub struct CompletionRequest {
    /// Where to send it.
    pub url: String,
    /// The value of the `Content-Type` header.
    pub content_type: String,
    /// The value of the `Authorization` header.
    pub authorization: String,
    /// The JSON body.
    pub body: Json,
}

/// The mathematical value of a [`CompletionRequest`].
pub struct CompletionRequestView {
    pub url: Seq<char>,
    pub content_type: Seq<char>,
    pub authorization: Seq<char>,
    pub body: JsonView,
}

impl View for CompletionRequest {
    type V = CompletionRequestView;

    open spec fn view(&self) -> CompletionRequestView {
        CompletionRequestView {
            url: self.url@,
            content_type: self.content_type@,
            authorization: self.authorization@,
            body: self.body@,
        }
    }
}

/// Whether an HTTP status reports success: 200 to 299.
pub open spec fn status_is_success(status: u16) -> bool {
    200 <= status < 300
}

/// The header value that presents `api_key` as a bearer credential.
pub open spec fn bearer(api_key: Seq<char>) -> Seq<char> {
    "Bearer "@ + api_key
}

/// The request that asks for a completion of `messages` with `api_key`.
pub open spec fn completion_request(
    api_key: Seq<char>,
    messages: Seq<MessageView>,
) -> CompletionRequestView {
    CompletionRequestView {
        url: OPENAI_API_URL@,
        content_type: "application/json"@,
        authorization: bearer(api_key),
        body: request_body(messages),
    }
}

/// The text of the first choice of an answer, where the answer holds one:
/// the string at `choices[0].message.content`.
pub open spec fn first_choice_text(answer: JsonView) -> Option<Seq<char>> {
    match answer.member("choices"@) {
        None => None,
        Some(choices) => match choices.element(0) {
            None => None,
            Some(first) => match first.member("message"@) {
                None => None,
                Some(message) => match message.member("content"@) {
                    None => None,
                    Some(content) => content.as_text(),
                },
            },
        },
    }
}

/// The reply that an answer stands for: the text of its first choice, or the
/// fallback where that text is absent or no string.
pub open spec fn reply_of(answer: JsonView) -> Seq<char> {
    match first_choice_text(answer) {
        Some(text) => text,
        None => FALLBACK_REPLY@,
    }
}

/// What the body of a success answer means: the reply that the document in
/// it stands for, and the fallback where the body is no JSON document. A
/// success answer always brings a reply.
pub open spec fn reply_of_body(body: Seq<u8>) -> Result<Seq<char>, GatewayError> {
    match parsed_json(body) {
        Some(answer) => Ok(reply_of(answer)),
        None => Ok(FALLBACK_REPLY@),
    }
}

/// What the outcome of a request means.
pub open spec fn reply_of_outcome(outcome: HttpOutcome) -> Result<Seq<char>, GatewayError> {
    match outcome {
        HttpOutcome::Unreachable => Err(GatewayError::Transport),
        HttpOutcome::Answered { status, body } => if status_is_success(status) {
            reply_of_body(body@)
        } else {
            Err(GatewayError::Status(status))
        },
    }
}

/// A reply or an error, with the reply by its view.
pub open spec fn reply_view(reply: Result<String, GatewayError>) -> Result<Seq<char>, GatewayError> {
    match reply {
        Ok(text) => Ok(text@),
        Err(error) => Err(error),
    }
}

/// Whether an HTTP status reports success.
pub fn is_success(status: u16) -> (success: bool)
    ensures
        success == status_is_success(status),
{
    200 <= status && status < 300
}

/// The text of the first choice of `answer`, where the answer holds one.
pub fn first_choice(answer: &Json) -> (found: Option<&String>)
    ensures
        match found {
            Some(text) => first_choice_text(answer@) == Some(text@),
            None => first_choice_text(answer@) is None,
        },
{
    match answer.member("choices") {
        None => None,
        Some(choices) => match choices.element(0) {
            None => None,
            Some(first) => match first.member("message") {
                None => None,
                Some(message) => match message.member("content") {
                    None => None,
                    Some(content) => content.as_text(),
                },
            },
        },
    }
}

/// The reply that `answer` stands for: the text of its first choice, or the
/// fallback where it holds none.
pub fn extract_reply(answer: &Json) -> (reply: String)
    ensures
        reply@ == reply_of(answer@),
{
    match first_choice(answer) {
        Some(text) => text.clone(),
        None => FALLBACK_REPLY.to_owned(),
    }
}

impl OpenAIClient {
    /// A gateway that presents `api_key`.
    pub fn new(api_key: String) -> (client: OpenAIClient)
        ensures
            client.key() == api_key@,
    {
        OpenAIClient { api_key }
    }

    /// The credential that this gateway presents.
    pub closed spec fn key(&self) -> Seq<char> {
        self.api_key@
    }

    /// The body of the request for `messages`.
    pub fn create_request_body(&self, messages: &Vec<OpenAIMessage>) -> (body: Json)
        ensures
            body@ == request_body(message_views(messages@)),
    {
        let mut members: Vec<Member> = Vec::new();
        members.push(make_text_member("model", OPENAI_MODEL));
        members.push(Member { key: "messages".to_owned(), value: make_messages_json(messages) });
        members.push(make_number_member("max_tokens", "4096"));
        members.push(make_number_member("temperature", "0.7"));
        members.push(make_number_member("top_p", "1.0"));
        members.push(make_number_member("frequency_penalty", "0.0"));
        members.push(make_number_member("presence_penalty", "0.0"));
        proof {
            lemma_object_view(members);
            assert(member_views(members@) =~= request_body(message_views(messages@))->Object_0);
        }
        Json::Object(members)
    }

    /// The request for `messages`: one POST to the endpoint, with this
    /// gateway's credential as bearer.
    pub fn create_request(&self, messages: &Vec<OpenAIMessage>) -> (request: CompletionRequest)
        ensures
            request@ == completion_request(self.key(), message_views(messages@)),
    {
        let mut authorization = String::from_str("Bearer ");
        authorization.append(self.api_key.as_str());
        CompletionRequest {
            url: OPENAI_API_URL.to_owned(),
            content_type: "application/json".to_owned(),
            authorization,
            body: self.create_request_body(messages),
        }
    }

    /// The reply in the body of a success answer. It never fails: a body of
    /// any shape, or of none, degrades to the fallback.
    pub fn parse_response(&self, body: &[u8]) -> (reply: Result<String, GatewayError>)
        ensures
            reply_view(reply) == reply_of_body(body@),
            reply is Ok,
    {
        match Json::parse(body) {
            Some(answer) => Ok(extract_reply(&answer)),
            None => Ok(FALLBACK_REPLY.to_owned()),
        }
    }

    /// The reply that the outcome of a request brings: the answer's text, or
    /// the fallback, on a success status; an error with the status on any
    /// other; a transport error where no answer came.
    pub fn read_outcome(&self, outcome: &HttpOutcome) -> (reply: Result<String, GatewayError>)
        ensures
            reply_view(reply) == reply_of_outcome(*outcome),
    {
        match outcome {
            HttpOutcome::Unreachable => Err(GatewayError::Transport),
            HttpOutcome::Answered { status, body } => if is_success(*status) {
                self.parse_response(body.as_slice())
            } else {
                Err(GatewayError::Status(*status))
            },
        }
    }
}

/// In an object of two members with different keys, each key finds its own
/// member.
proof fn lemma_lookup_in_pair(first: MemberView, second: MemberView)
    requires
        first.key != second.key,
    ensures
        lookup(seq![first, second], first.key) == Some(first.value),
        lookup(seq![first, second], second.key) == Some(second.value),
{
    let both = seq![first, second];
    assert(both.drop_last() =~= seq![first]);
    assert(seq![first].drop_last() =~= Seq::<MemberView>::empty());
    reveal_with_fuel(lookup, 3);
}

/// An entry of the transcript is sent as an object that holds its role and
/// its content, each as a string.
pub proof fn lemma_message_json_members(message: MessageView)
    ensures
        message_json(message).member("role"@) == Some(JsonView::Text(message.role)),
        message_json(message).member("content"@) == Some(JsonView::Text(message.content)),
{
    reveal_strlit("role");
    reveal_strlit("content");
    assert("role"@.len() != "content"@.len());
    lemma_lookup_in_pair(
        text_member("role"@, message.role),
        text_member("content"@, message.content),
    );
}

/// The body of a request holds the transcript as it is: under `messages` an
/// array with one object for each entry, in the order of the transcript,
/// nothing cut and nothing added; and under `model` the fixed model.
pub proof fn lemma_request_body_holds_transcript(messages: Seq<MessageView>)
    ensures
        request_body(messages).member("messages"@) == Some(messages_json(messages)),
        request_body(messages).member("model"@) == Some(JsonView::Text(OPENAI_MODEL@)),
        messages_json(messages)->Array_0.len() == messages.len(),
        forall|i: int|
            0 <= i < messages.len() ==> #[trigger] messages_json(messages).element(i) == Some(
                message_json(messages[i]),
            ),
{
    reveal_strlit("model");
    reveal_strlit("messages");
    reveal_strlit("max_tokens");
    reveal_strlit("temperature");
    reveal_strlit("top_p");
    reveal_strlit("frequency_penalty");
    reveal_strlit("presence_penalty");
    let members = request_body(messages)->Object_0;
    let m6 = members.drop_last();
    let m5 = m6.drop_last();
    let m4 = m5.drop_last();
    let m3 = m4.drop_last();
    let m2 = m3.drop_last();
    let m1 = m2.drop_last();
    // No other key is as long as `messages`, and only `top_p` is as long as
    // `model`, and begins with another letter.
    assert("messages"@.len() == 8 && "model"@.len() == 5 && "top_p"@.len() == 5);
    assert("max_tokens"@.len() == 10 && "temperature"@.len() == 11);
    assert("frequency_penalty"@.len() == 17 && "presence_penalty"@.len() == 16);
    assert("model"@[0] == 'm' && "top_p"@[0] == 't');
    assert(lookup(m2, "messages"@) == Some(messages_json(messages)));
    assert(lookup(m3, "messages"@) == lookup(m2, "messages"@));
    assert(lookup(m4, "messages"@) == lookup(m3, "messages"@));
    assert(lookup(m5, "messages"@) == lookup(m4, "messages"@));
    assert(lookup(m6, "messages"@) == lookup(m5, "messages"@));
    assert(lookup(members, "messages"@) == lookup(m6, "messages"@));
    assert(lookup(m1, "model"@) == Some(JsonView::Text(OPENAI_MODEL@)));
    assert(lookup(m2, "model"@) == lookup(m1, "model"@));
    assert(lookup(m3, "model"@) == lookup(m2, "model"@));
    assert(lookup(m4, "model"@) == lookup(m3, "model"@));
    assert(lookup(m5, "model"@) == lookup(m4, "model"@));
    assert(lookup(m6, "model"@) == lookup(m5, "model"@));
    assert(lookup(members, "model"@) == lookup(m6, "model"@));
}

/// A request fails exactly when no answer came or the status is no success;
/// a success status always brings a reply, whatever the body holds.
pub proof fn lemma_success_status_always_replies(outcome: HttpOutcome)
    ensures
        reply_of_outcome(outcome) is Err <==> outcome is Unreachable || !status_is_success(
            outcome->Answered_status,
        ),
        outcome is Answered && !status_is_success(outcome->Answered_status) ==> reply_of_outcome(
            outcome,
        ) == Err::<Seq<char>, GatewayError>(GatewayError::Status(outcome->Answered_status)),
        outcome is Unreachable ==> reply_of_outcome(outcome) == Err::<Seq<char>, GatewayError>(
            GatewayError::Transport,
        ),
{
}

} // verus!
