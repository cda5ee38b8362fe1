use vstd::prelude::*;

verus! {

/// The view of an optional string.
pub open spec fn ov(o: Option<String>) -> Option<Seq<char>> {
    match o {
        Some(s) => Some(s@),
        None => None,
    }
}

/// Copies an optional string.
pub fn clone_opt(o: &Option<String>) -> (r: Option<String>)
    ensures
        ov(r) == ov(*o),
{
    match o {
        Some(s) => Some(s.clone()),
        None => None,
    }
}

/// A request for one chat turn: the chat it belongs to and the new message.
pub struct ChatResponseInput {
    pub chat_id: u128,
    pub message: String,
}

/// A complete answer for a chat.
pub struct ChatResponse {
    pub chat_id: u128,
    pub response: String,
}

/// One incremental update of a streamed answer: the text added since the
/// previous chunk and the whole answer so far.
pub struct ChatResponseChunk {
    pub delta: String,
    pub message: String,
    pub message_id: Option<u128>,
    pub tool_calls: Option<Vec<ChatResponseToolCall>>,
}

/// A function call proposed by the model; its arguments are raw JSON text.
pub struct ChatResponseToolCall {
    pub id: Option<String>,
    /// The kind of call; always "function" when set.
    pub call_type: Option<String>,
    pub function: Option<ChatResponseFunctionCall>,
}

pub struct ChatResponseFunctionCall {
    pub name: Option<String>,
    pub arguments: Option<String>,
}

pub struct FunctionCallView {
    pub name: Option<Seq<char>>,
    pub arguments: Option<Seq<char>>,
}

pub struct ToolCallView {
    pub id: Option<Seq<char>>,
    pub call_type: Option<Seq<char>>,
    pub function: Option<FunctionCallView>,
}

impl View for ChatResponseFunctionCall {
    type V = FunctionCallView;

    open spec fn view(&self) -> FunctionCallView {
        FunctionCallView { name: ov(self.name), arguments: ov(self.arguments) }
    }
}

impl View for ChatResponseToolCall {
    type V = ToolCallView;

    open spec fn view(&self) -> ToolCallView {
        ToolCallView {
            id: ov(self.id),
            call_type: ov(self.call_type),
            function: match self.function {
                Some(f) => Some(f@),
                None => None,
            },
        }
    }
}

/// The views of a list of tool calls.
pub open spec fn calls_view(calls: Seq<ChatResponseToolCall>) -> Seq<ToolCallView> {
    calls.map_values(|c: ChatResponseToolCall| c@)
}

} // verus!
