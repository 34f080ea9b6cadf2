use vstd::prelude::*;

use crate::json::{compact_json, json_compact};
use crate::model::{ChatMessage, ChatMessagePayload, ChatRole, ChatTranscript, ToolCall};
use genai::chat::ChatMessage as GenAiChatMessage;
use genai::chat::ChatRequest;

verus! {

// ---------------------------------------------------------------------------
// The model of a chat request, over plain text.
// ---------------------------------------------------------------------------

/// One message of a chat request, as text.
pub enum RequestItem {
    System(Seq<char>),
    User(Seq<char>),
    Assistant(Seq<char>),
    Tool(Seq<char>),
    /// The response of the tool named by the first text, with the second as content.
    ToolResponse(Seq<char>, Seq<char>),
}

/// A chat request, as text: the system prompt and the ordered messages.
#[verifier::ext_equal]
pub struct RequestModel {
    pub system: Option<Seq<char>>,
    pub messages: Seq<RequestItem>,
}

/// The text of a plain or markdown payload.
pub open spec fn text_of(payload: ChatMessagePayload) -> Option<Seq<char>> {
    match payload {
        ChatMessagePayload::Text(content) => Some(content@),
        ChatMessagePayload::Markdown(content) => Some(content@),
        _ => None,
    }
}

/// How tool output written as text is forwarded.
pub open spec fn tool_output_text(content: Seq<char>) -> Seq<char> {
    "Tool output: "@ + content
}

/// How a requested tool call is forwarded to the model.
pub open spec fn tool_call_text(call: ToolCall) -> Seq<char> {
    "Tool call requested: "@ + call.name@ + " with "@ + json_compact(call.arguments)
}

/// Whether a payload is only shown and never forwarded to the model.
pub open spec fn is_display_only(payload: ChatMessagePayload) -> bool {
    match payload {
        ChatMessagePayload::Progress(_) => true,
        ChatMessagePayload::Reasoning(_) => true,
        ChatMessagePayload::Status(_) => true,
        ChatMessagePayload::Controls(_) => true,
        ChatMessagePayload::Diff(_) => true,
        ChatMessagePayload::Typing => true,
        _ => false,
    }
}

pub open spec fn append_item(acc: RequestModel, item: RequestItem) -> RequestModel {
    RequestModel { system: acc.system, messages: acc.messages.push(item) }
}

/// The request after one more transcript message: the first system text
/// becomes the system prompt, later ones become system messages; text of the
/// other roles keeps its role, tool text is prefixed; a tool result becomes a
/// tool response, a tool call and an error become assistant messages; what is
/// only shown is left out.
pub open spec fn request_step(acc: RequestModel, message: ChatMessage) -> RequestModel {
    match text_of(message.payload) {
        Some(content) => match message.role {
            ChatRole::System => if acc.system is None {
                RequestModel { system: Some(content), messages: acc.messages }
            } else {
                append_item(acc, RequestItem::System(content))
            },
            ChatRole::User => append_item(acc, RequestItem::User(content)),
            ChatRole::Assistant => append_item(acc, RequestItem::Assistant(content)),
            ChatRole::Tool => append_item(acc, RequestItem::Tool(tool_output_text(content))),
        },
        None => match message.payload {
            ChatMessagePayload::ToolResult { name, content } => append_item(
                acc,
                RequestItem::ToolResponse(name@, content@),
            ),
            ChatMessagePayload::ToolCall(call) => append_item(
                acc,
                RequestItem::Assistant(tool_call_text(call)),
            ),
            ChatMessagePayload::Error(content) => append_item(acc, RequestItem::Assistant(content@)),
            _ => acc,
        },
    }
}

/// The request that a sequence of transcript messages stands for.
pub open spec fn request_model(messages: Seq<ChatMessage>) -> RequestModel
    decreases messages.len(),
{
    if messages.len() == 0 {
        RequestModel { system: None, messages: Seq::empty() }
    } else {
        request_step(request_model(messages.drop_last()), messages.last())
    }
}

// ---------------------------------------------------------------------------
// The plan of a request, as plain values.
// ---------------------------------------------------------------------------

/// One message of a planned chat request.
#[derive(Debug, Clone, PartialEq, Eq)]
pub enum PlannedMessage {
    System(String),
    User(String),
    Assistant(String),
    Tool(String),
    ToolResponse { call_id: String, content: String },
}

impl View for PlannedMessage {
    type V = RequestItem;

    open spec fn view(&self) -> RequestItem {
        match self {
            PlannedMessage::System(content) => RequestItem::System(content@),
            PlannedMessage::User(content) => RequestItem::User(content@),
            PlannedMessage::Assistant(content) => RequestItem::Assistant(content@),
            PlannedMessage::Tool(content) => RequestItem::Tool(content@),
            PlannedMessage::ToolResponse { call_id, content } => RequestItem::ToolResponse(
                call_id@,
                content@,
            ),
        }
    }
}

/// A planned chat request: the system prompt and the ordered messages.
#[derive(Debug, Clone, PartialEq, Eq)]
pub struct RequestPlan {
    pub system: Option<String>,
    pub messages: Vec<PlannedMessage>,
}

pub open spec fn optional_text(text: Option<String>) -> Option<Seq<char>> {
    match text {
        Some(s) => Some(s@),
        None => None,
    }
}

pub open spec fn plan_view(system: Option<String>, messages: Seq<PlannedMessage>) -> RequestModel {
    RequestModel {
        system: optional_text(system),
        messages: messages.map_values(|m: PlannedMessage| m@),
    }
}

impl View for RequestPlan {
    type V = RequestModel;

    open spec fn view(&self) -> RequestModel {
        plan_view(self.system, self.messages@)
    }
}

fn tool_output(content: &String) -> (text: String)
    ensures
        text@ == tool_output_text(content@),
{
    let mut text = String::from_str("Tool output: ");
    text.append(content.as_str());
    text
}

fn tool_call_request(call: &ToolCall) -> (text: String)
    ensures
        text@ == tool_call_text(*call),
{
    let mut text = String::from_str("Tool call requested: ");
    text.append(call.name.as_str());
    text.append(" with ");
    let arguments = compact_json(&call.arguments);
    text.append(arguments.as_str());
    proof {
        assert(text@ =~= tool_call_text(*call));
    }
    text
}

impl ChatTranscript {
    /// The request that this transcript is sent as, in plain values.
    pub fn genai_plan(&self) -> (plan: RequestPlan)
        ensures
            plan@ == request_model(self.messages@),
    {
        let mut system: Option<String> = None;
        let mut messages: Vec<PlannedMessage> = Vec::new();
        let n = self.messages.len();
        let mut i: usize = 0;
        proof {
            assert(self.messages@.take(0) =~= Seq::<ChatMessage>::empty());
            assert(plan_view(system, messages@) =~= request_model(Seq::<ChatMessage>::empty()));
        }
        while i < n
            invariant
                i <= n,
                n == self.messages.len(),
                plan_view(system, messages@) == request_model(self.messages@.take(i as int)),
            decreases n - i,
        {
            let ghost before = plan_view(system, messages@);
            let message = &self.messages[i];
            match &message.payload {
                ChatMessagePayload::Text(content) | ChatMessagePayload::Markdown(content) => {
                    match message.role {
                        ChatRole::System => {
                            if system.is_none() {
                                system = Some(content.clone());
                            } else {
                                messages.push(PlannedMessage::System(content.clone()));
                            }
                        },
                        ChatRole::User => {
                            messages.push(PlannedMessage::User(content.clone()));
                        },
                        ChatRole::Assistant => {
                            messages.push(PlannedMessage::Assistant(content.clone()));
                        },
                        ChatRole::Tool => {
                            messages.push(PlannedMessage::Tool(tool_output(content)));
                        },
                    }
                },
                ChatMessagePayload::ToolResult { name, content } => {
                    messages.push(
                        PlannedMessage::ToolResponse { call_id: name.clone(), content: content.clone() },
                    );
                },
                ChatMessagePayload::ToolCall(call) => {
                    messages.push(PlannedMessage::Assistant(tool_call_request(call)));
                },
                ChatMessagePayload::Error(content) => {
                    messages.push(PlannedMessage::Assistant(content.clone()));
                },
                _ => {},
            }
            proof {
                let prefix = self.messages@.take(i as int);
                assert(self.messages@.take(i + 1).drop_last() =~= prefix);
                assert(self.messages@.take(i + 1).last() == self.messages@[i as int]);
                assert(plan_view(system, messages@) =~= request_step(before, self.messages@[i as int]));
            }
            i = i + 1;
        }
        proof {
            assert(self.messages@.take(n as int) =~= self.messages@);
        }
        RequestPlan { system, messages }
    }
}

// ---------------------------------------------------------------------------
// The `genai` request.
// ---------------------------------------------------------------------------

#[verifier::external_type_specification]
#[verifier::external_body]
pub struct ExGenAiChatMessage(GenAiChatMessage);

#[verifier::external_type_specification]
#[verifier::external_body]
pub struct ExGenAiChatRequest(ChatRequest);

/// What `genai::chat::ChatMessage::system` builds from the given text.
pub uninterp spec fn genai_system_message(content: Seq<char>) -> GenAiChatMessage;

/// What `genai::chat::ChatMessage::user` builds from the given text.
pub uninterp spec fn genai_user_message(content: Seq<char>) -> GenAiChatMessage;

/// What `genai::chat::ChatMessage::assistant` builds from the given text.
pub uninterp spec fn genai_assistant_message(content: Seq<char>) -> GenAiChatMessage;

/// What `genai::chat::ChatMessage::tool` builds from the given text.
pub uninterp spec fn genai_tool_message(content: Seq<char>) -> GenAiChatMessage;

/// The chat message made by two calls in sequence: `genai::chat::ToolResponse::new`
/// for a call id and a content, then `From<ToolResponse>` for `genai::chat::ChatMessage`.
pub uninterp spec fn genai_tool_response_message(call_id: Seq<char>, content: Seq<char>) -> GenAiChatMessage;

/// What `genai::chat::ChatRequest::new` builds from the given messages.
pub uninterp spec fn genai_request(messages: Seq<GenAiChatMessage>) -> ChatRequest;

/// What `genai::chat::ChatRequest::with_system` makes of a request and a system prompt.
pub uninterp spec fn genai_request_with_system(request: ChatRequest, system: Seq<char>) -> ChatRequest;

/// Calls `genai::chat::ChatMessage::system`; its result is named, nothing more is claimed.
#[verifier::external_body]
fn system_message(content: String) -> (message: GenAiChatMessage)
    ensures
        message == genai_system_message(content@),
{
    GenAiChatMessage::system(content)
}

/// Calls `genai::chat::ChatMessage::user`; its result is named, nothing more is claimed.
#[verifier::external_body]
fn user_message(content: String) -> (message: GenAiChatMessage)
    ensures
        message == genai_user_message(content@),
{
    GenAiChatMessage::user(content)
}

/// Calls `genai::chat::ChatMessage::assistant`; its result is named, nothing more is claimed.
#[verifier::external_body]
fn assistant_message(content: String) -> (message: GenAiChatMessage)
    ensures
        message == genai_assistant_message(content@),
{
    GenAiChatMessage::assistant(content)
}

/// Calls `genai::chat::ChatMessage::tool`; its result is named, nothing more is claimed.
#[verifier::external_body]
fn tool_message(content: String) -> (message: GenAiChatMessage)
    ensures
        message == genai_tool_message(content@),
{
    GenAiChatMessage::tool(content)
}

/// Calls `genai::chat::ToolResponse::new` and turns the response into a chat
/// message with `From<ToolResponse>`; the result is named, nothing more is claimed.
#[verifier::external_body]
fn tool_response_message(call_id: String, content: String) -> (message: GenAiChatMessage)
    ensures
        message == genai_tool_response_message(call_id@, content@),
{
    GenAiChatMessage::from(genai::chat::ToolResponse::new(call_id, content))
}

/// Calls `genai::chat::ChatRequest::new`; its result is named, nothing more is claimed.
#[verifier::external_body]
fn new_request(messages: Vec<GenAiChatMessage>) -> (request: ChatRequest)
    ensures
        request == genai_request(messages@),
{
    ChatRequest::new(messages)
}

/// Calls `genai::chat::ChatRequest::with_system`; its result is named, nothing more is claimed.
#[verifier::external_body]
fn request_with_system(request: ChatRequest, system: String) -> (with_system: ChatRequest)
    ensures
        with_system == genai_request_with_system(request, system@),
{
    request.with_system(system)
}

/// The `genai` message that a planned message is sent as.
pub open spec fn genai_message_of(item: RequestItem) -> GenAiChatMessage {
    match item {
        RequestItem::System(content) => genai_system_message(content),
        RequestItem::User(content) => genai_user_message(content),
        RequestItem::Assistant(content) => genai_assistant_message(content),
        RequestItem::Tool(content) => genai_tool_message(content),
        RequestItem::ToolResponse(call_id, content) => genai_tool_response_message(call_id, content),
    }
}

/// The `genai` messages that a request model's messages are sent as, in order.
pub open spec fn genai_messages_of(model: RequestModel) -> Seq<GenAiChatMessage> {
    model.messages.map_values(|item: RequestItem| genai_message_of(item))
}

/// The `genai` request that a request model is sent as: a request of its
/// messages, with its system prompt set where it has one.
pub open spec fn genai_request_of(model: RequestModel) -> ChatRequest {
    let base = genai_request(genai_messages_of(model));
    match model.system {
        Some(system) => genai_request_with_system(base, system),
        None => base,
    }
}

fn genai_message(planned: &PlannedMessage) -> (message: GenAiChatMessage)
    ensures
        message == genai_message_of(planned@),
{
    match planned {
        PlannedMessage::System(content) => system_message(content.clone()),
        PlannedMessage::User(content) => user_message(content.clone()),
        PlannedMessage::Assistant(content) => assistant_message(content.clone()),
        PlannedMessage::Tool(content) => tool_message(content.clone()),
        PlannedMessage::ToolResponse { call_id, content } => tool_response_message(
            call_id.clone(),
            content.clone(),
        ),
    }
}

impl ChatTranscript {
    /// Converts this transcript into a `genai` chat request.
    pub fn to_genai_request(&self) -> (request: ChatRequest)
        ensures
            request == genai_request_of(request_model(self.messages@)),
    {
        let plan = self.genai_plan();
        let ghost items = plan@.messages;
        let mut messages: Vec<GenAiChatMessage> = Vec::new();
        let n = plan.messages.len();
        let mut i: usize = 0;
        while i < n
            invariant
                i <= n,
                n == plan.messages.len(),
                items == plan.messages@.map_values(|m: PlannedMessage| m@),
                messages@ =~= items.take(i as int).map_values(
                    |item: RequestItem| genai_message_of(item),
                ),
            decreases n - i,
        {
            let message = genai_message(&plan.messages[i]);
            messages.push(message);
            proof {
                assert(items.take(i + 1) =~= items.take(i as int).push(items[i as int]));
            }
            i = i + 1;
        }
        proof {
            assert(items.take(n as int) =~= items);
        }
        let request = new_request(messages);
        match plan.system {
            Some(system) => request_with_system(request, system),
            None => request,
        }
    }
}

// ---------------------------------------------------------------------------
// Laws of the conversion.
// ---------------------------------------------------------------------------

/// Whether a message is a system message written as text.
pub open spec fn is_system_text(message: ChatMessage) -> bool {
    message.role == ChatRole::System && text_of(message.payload) is Some
}

/// How many messages of a sequence are forwarded to the model.
pub open spec fn forwarded_count(messages: Seq<ChatMessage>) -> nat
    decreases messages.len(),
{
    if messages.len() == 0 {
        0
    } else {
        forwarded_count(messages.drop_last()) + if is_display_only(messages.last().payload) {
            0nat
        } else {
            1nat
        }
    }
}

/// Pushing a message onto a transcript extends its request by exactly the
/// step of that message: the conversion can be done message by message.
pub proof fn lemma_push_extends_request(messages: Seq<ChatMessage>, message: ChatMessage)
    ensures
        request_model(messages.push(message)) == request_step(request_model(messages), message),
{
    assert(messages.push(message).drop_last() =~= messages);
}

/// A message that is only shown (progress, reasoning, status, controls,
/// diff, typing) changes nothing in the request.
pub proof fn lemma_display_only_is_not_sent(messages: Seq<ChatMessage>, message: ChatMessage)
    requires
        is_display_only(message.payload),
    ensures
        request_model(messages.push(message)) == request_model(messages),
{
    lemma_push_extends_request(messages, message);
}

/// Every forwarded message of a transcript is sent exactly once: as the
/// system prompt (the first system text) or as one request message.
pub proof fn lemma_forwarded_messages_are_counted(messages: Seq<ChatMessage>)
    ensures
        request_model(messages).messages.len() + (if request_model(messages).system is Some {
            1nat
        } else {
            0nat
        }) == forwarded_count(messages),
    decreases messages.len(),
{
    if messages.len() > 0 {
        lemma_forwarded_messages_are_counted(messages.drop_last());
    }
}

/// A request has a system prompt exactly when the transcript holds a system
/// text: no system text is dropped.
#[verifier::spinoff_prover]
pub proof fn lemma_system_prompt_iff_system_text(messages: Seq<ChatMessage>)
    ensures
        request_model(messages).system is None <==> (forall|i: int|
            0 <= i < messages.len() ==> !is_system_text(#[trigger] messages[i])),
    decreases messages.len(),
{
    if messages.len() > 0 {
        let prefix = messages.drop_last();
        lemma_system_prompt_iff_system_text(prefix);
        assert forall|i: int| 0 <= i < prefix.len() implies prefix[i] == messages[i] by {}
        if request_model(prefix).system is Some {
            let k = choose|k: int| 0 <= k < prefix.len() && is_system_text(#[trigger] prefix[k]);
            assert(is_system_text(messages[k]));
        }
    }
}

/// The system prompt of a request is the first system text of the transcript.
#[verifier::spinoff_prover]
pub proof fn lemma_system_prompt_is_first_system_text(messages: Seq<ChatMessage>, i: int)
    requires
        0 <= i < messages.len(),
        is_system_text(messages[i]),
        forall|j: int| 0 <= j < i ==> !is_system_text(#[trigger] messages[j]),
    ensures
        request_model(messages).system == text_of(messages[i].payload),
    decreases messages.len(),
{
    let prefix = messages.drop_last();
    assert forall|j: int| 0 <= j < prefix.len() implies prefix[j] == messages[j] by {}
    if i < messages.len() - 1 {
        lemma_system_prompt_is_first_system_text(prefix, i);
    } else {
        lemma_system_prompt_iff_system_text(prefix);
        assert forall|j: int| 0 <= j < prefix.len() implies !is_system_text(#[trigger] prefix[j]) by {
            assert(!is_system_text(messages[j]));
        }
    }
}

/// Appending messages to a transcript never rewrites what its request
/// already holds: earlier request messages stay in place, in order, and a
/// system prompt once set stays.
pub proof fn lemma_request_only_grows(earlier: Seq<ChatMessage>, later: Seq<ChatMessage>)
    ensures
        request_model(earlier).messages.is_prefix_of(request_model(earlier + later).messages),
        request_model(earlier).system is Some ==> request_model(earlier + later).system
            == request_model(earlier).system,
    decreases later.len(),
{
    if later.len() == 0 {
        assert(earlier + later =~= earlier);
    } else {
        let shorter = later.drop_last();
        lemma_request_only_grows(earlier, shorter);
        assert((earlier + later).drop_last() =~= earlier + shorter);
    }
}

/// A message that is not a system text adds the same request messages
/// whatever came before it, and leaves the system prompt as it was.
proof fn lemma_step_without_system_text(acc: RequestModel, message: ChatMessage)
    requires
        !is_system_text(message),
    ensures
        request_step(acc, message).system == acc.system,
        request_step(acc, message).messages == acc.messages + request_step(
            RequestModel { system: None, messages: Seq::empty() },
            message,
        ).messages,
{
    let empty = RequestModel { system: None, messages: Seq::<RequestItem>::empty() };
    assert(acc.messages + empty.messages =~= acc.messages);
    if request_step(empty, message).messages.len() > 0 {
        let item = request_step(empty, message).messages[0];
        assert(request_step(empty, message).messages =~= empty.messages.push(item));
        assert(acc.messages.push(item) =~= acc.messages + empty.messages.push(item));
    }
}

/// Joining two transcripts, the second without a system text, joins their
/// requests: the messages of the first come first, then those of the second,
/// in their order, nothing merged or reordered; the system prompt is the
/// first transcript's, and none at all when neither holds a system text.
pub proof fn lemma_request_of_joined_transcripts(earlier: Seq<ChatMessage>, later: Seq<ChatMessage>)
    requires
        forall|i: int| 0 <= i < later.len() ==> !is_system_text(#[trigger] later[i]),
    ensures
        request_model(earlier + later).system == request_model(earlier).system,
        request_model(earlier + later).messages == request_model(earlier).messages + request_model(
            later,
        ).messages,
        genai_messages_of(request_model(earlier + later)) == genai_messages_of(
            request_model(earlier),
        ) + genai_messages_of(request_model(later)),
        (forall|i: int| 0 <= i < earlier.len() ==> !is_system_text(#[trigger] earlier[i]))
            ==> request_model(earlier + later).system is None,
    decreases later.len(),
{
    if later.len() == 0 {
        assert(earlier + later =~= earlier);
        assert(request_model(earlier).messages + request_model(later).messages
            =~= request_model(earlier).messages);
    } else {
        let shorter = later.drop_last();
        let last = later.last();
        assert forall|i: int| 0 <= i < shorter.len() implies !is_system_text(#[trigger] shorter[i]) by {
            assert(shorter[i] == later[i]);
        }
        assert(!is_system_text(later[later.len() - 1]));
        lemma_request_of_joined_transcripts(earlier, shorter);
        assert((earlier + later).drop_last() =~= earlier + shorter);
        assert((earlier + later).last() == last);
        let joined = request_model(earlier + shorter);
        lemma_step_without_system_text(joined, last);
        lemma_step_without_system_text(request_model(shorter), last);
        let step_items = request_step(
            RequestModel { system: None, messages: Seq::empty() },
            last,
        ).messages;
        assert(request_model(earlier).messages + request_model(shorter).messages + step_items
            =~= request_model(earlier).messages + (request_model(shorter).messages + step_items));
    }
    let a = request_model(earlier).messages;
    let b = request_model(later).messages;
    assert((a + b).map_values(|item: RequestItem| genai_message_of(item)) =~= a.map_values(
        |item: RequestItem| genai_message_of(item),
    ) + b.map_values(|item: RequestItem| genai_message_of(item)));
    if forall|i: int| 0 <= i < earlier.len() ==> !is_system_text(#[trigger] earlier[i]) {
        lemma_system_prompt_iff_system_text(earlier);
    }
}

/// A message that is only shown may stand anywhere in a transcript: inserting
/// it at any position leaves the request as it was.
pub proof fn lemma_display_only_inserted_anywhere(
    messages: Seq<ChatMessage>,
    index: int,
    message: ChatMessage,
)
    requires
        0 <= index <= messages.len(),
        is_display_only(message.payload),
    ensures
        request_model(messages.insert(index, message)) == request_model(messages),
        genai_request_of(request_model(messages.insert(index, message))) == genai_request_of(
            request_model(messages),
        ),
    decreases messages.len(),
{
    if index == messages.len() {
        assert(messages.insert(index, message) =~= messages.push(message));
        lemma_display_only_is_not_sent(messages, message);
    } else {
        let shorter = messages.drop_last();
        lemma_display_only_inserted_anywhere(shorter, index, message);
        assert(messages.insert(index, message).drop_last() =~= shorter.insert(index, message));
        assert(messages.insert(index, message).last() == messages.last());
    }
}

/// Removing a message that is only shown, from any position, leaves the
/// request as it was.
pub proof fn lemma_display_only_removed_anywhere(messages: Seq<ChatMessage>, index: int)
    requires
        0 <= index < messages.len(),
        is_display_only(messages[index].payload),
    ensures
        request_model(messages.remove(index)) == request_model(messages),
        genai_request_of(request_model(messages.remove(index))) == genai_request_of(
            request_model(messages),
        ),
{
    let message = messages[index];
    assert(messages.remove(index).insert(index, message) =~= messages);
    lemma_display_only_inserted_anywhere(messages.remove(index), index, message);
}

/// The request `after` is `before` with exactly one more message, `item`, at
/// its end, and the same system prompt.
pub open spec fn adds_one_message(before: RequestModel, after: RequestModel, item: RequestItem) -> bool {
    after.system == before.system && after.messages == before.messages.push(item)
}

/// What one more transcript message adds to the request, over every message:
/// user and assistant text (plain or markdown) is sent unchanged under the
/// same role; tool text is sent as a tool message prefixed `Tool output: `;
/// the first system text becomes the system prompt and later ones are sent as
/// system messages; a tool result is sent as the response of the named tool;
/// a tool call is sent as an assistant message naming the tool and its
/// arguments; an error is sent as an assistant message; anything else adds
/// nothing.
pub proof fn lemma_each_message_is_sent_as_written(messages: Seq<ChatMessage>, message: ChatMessage)
    ensures
        ({
            let before = request_model(messages);
            let after = request_model(messages.push(message));
            match message.payload {
                ChatMessagePayload::Text(c) => match message.role {
                    ChatRole::User => adds_one_message(before, after, RequestItem::User(c@)),
                    ChatRole::Assistant => adds_one_message(before, after, RequestItem::Assistant(c@)),
                    ChatRole::Tool => adds_one_message(
                        before,
                        after,
                        RequestItem::Tool("Tool output: "@ + c@),
                    ),
                    ChatRole::System => if before.system is None {
                        after.system == Some(c@) && after.messages == before.messages
                    } else {
                        adds_one_message(before, after, RequestItem::System(c@))
                    },
                },
                ChatMessagePayload::Markdown(c) => match message.role {
                    ChatRole::User => adds_one_message(before, after, RequestItem::User(c@)),
                    ChatRole::Assistant => adds_one_message(before, after, RequestItem::Assistant(c@)),
                    ChatRole::Tool => adds_one_message(
                        before,
                        after,
                        RequestItem::Tool("Tool output: "@ + c@),
                    ),
                    ChatRole::System => if before.system is None {
                        after.system == Some(c@) && after.messages == before.messages
                    } else {
                        adds_one_message(before, after, RequestItem::System(c@))
                    },
                },
                ChatMessagePayload::ToolResult { name, content } => adds_one_message(
                    before,
                    after,
                    RequestItem::ToolResponse(name@, content@),
                ),
                ChatMessagePayload::ToolCall(call) => adds_one_message(
                    before,
                    after,
                    RequestItem::Assistant(
                        "Tool call requested: "@ + call.name@ + " with "@ + json_compact(call.arguments),
                    ),
                ),
                ChatMessagePayload::Error(c) => adds_one_message(before, after, RequestItem::Assistant(c@)),
                _ => after == before,
            }
        }),
{
    lemma_push_extends_request(messages, message);
}

} // verus!
