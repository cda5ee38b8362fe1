use vstd::prelude::*;

use crate::error::CognitionError;
use crate::message::{adapted, message_to_chat_completion, Message, ProviderTurn, TurnView};
use crate::fingerprint::{TaskPriority, TaskStatus};

verus! {

/// The output budget of every provider request, in tokens.
pub const MAX_TOKENS: u16 = 1024;

/// Settings an engine is built with.
pub struct EngineConfig {
    pub llm_model_name: String,
}

/// Whether, and which, function the model may call.
pub enum FunctionCallPolicy {
    /// The model may call none.
    Never,
    /// The model chooses, and calls at most one.
    Auto,
    /// The model must call the named function.
    Force(String),
}

/// A function the model may call: its parameters are JSON Schema text.
pub struct FunctionDef {
    pub name: String,
    pub description: String,
    pub parameters: String,
}

/// A request to the provider.
pub struct ProviderRequest {
    pub model: String,
    pub max_tokens: u16,
    pub messages: Vec<ProviderTurn>,
    pub functions: Vec<FunctionDef>,
    pub function_call: Option<FunctionCallPolicy>,
}

/// The input shape of the task-creation function the model may call.
pub struct CreateTaskLLMFunctionInput {
    pub title: String,
    pub status: Option<TaskStatus>,
    pub priority: Option<TaskPriority>,
    pub description: Option<String>,
    pub due_date: Option<String>,
    pub project_id: Option<String>,
    pub lead_id: Option<String>,
    pub parent_id: Option<String>,
    pub labels: Option<Vec<String>>,
    pub assignees: Option<Vec<String>>,
}

pub open spec fn schema_head() -> Seq<char> {
    "{\"properties\":{\"input\":"@
}

pub open spec fn schema_tail() -> Seq<char> {
    "},\"required\":[\"input\"],\"type\":\"object\"}"@
}

/// The parameters object of a function whose single argument `input` has
/// the given schema, with its keys in sorted order.
pub fn function_parameters(input_schema: &str) -> (r: String)
    ensures
        r@ == schema_head() + input_schema@ + schema_tail(),
{
    let mut out = String::from_str("{\"properties\":{\"input\":");
    out.append(input_schema);
    out.append("},\"required\":[\"input\"],\"type\":\"object\"}");
    out
}

pub open spec fn create_task_name() -> Seq<char> {
    "create_task"@
}

pub open spec fn create_task_description() -> Seq<char> {
    "Create a task, complete the input object parameter inferred from the user's input."@
}

/// The task-creation function, offered to the model with the given schema
/// of its input.
pub fn create_task_function(input_schema: &str) -> (r: FunctionDef)
    ensures
        r.name@ == create_task_name(),
        r.description@ == create_task_description(),
        r.parameters@ == schema_head() + input_schema@ + schema_tail(),
{
    FunctionDef {
        name: String::from_str("create_task"),
        description: String::from_str(
            "Create a task, complete the input object parameter inferred from the user's input.",
        ),
        parameters: function_parameters(input_schema),
    }
}

/// A one-shot request: the system prompt and one plain user message, no
/// functions.
pub fn chat_completion(config: &EngineConfig, system_message: String, user_message: String) -> (r: ProviderRequest)
    ensures
        r.model@ == config.llm_model_name@,
        r.max_tokens == MAX_TOKENS,
        r.messages@.len() == 2,
        r.messages@[0]@ == TurnView::System(system_message@),
        r.messages@[1]@ == TurnView::UserText(user_message@),
        r.functions@.len() == 0,
        r.function_call is None,
{
    let mut messages: Vec<ProviderTurn> = Vec::new();
    messages.push(ProviderTurn::System(system_message));
    messages.push(ProviderTurn::UserText(user_message));
    ProviderRequest {
        model: config.llm_model_name.clone(),
        max_tokens: MAX_TOKENS,
        messages,
        functions: Vec::new(),
        function_call: None,
    }
}

/// Whether every message adapts.
pub open spec fn all_adapt(messages: Seq<Message>) -> bool {
    forall|i: int| 0 <= i < messages.len() ==> (#[trigger] adapted(messages[i].content@)) is Ok
}

/// The position of the first message that does not adapt, if any.
pub open spec fn first_failure(messages: Seq<Message>, i: int) -> bool {
    &&& 0 <= i < messages.len()
    &&& adapted(messages[i].content@) is Err
    &&& forall|j: int| 0 <= j < i ==> (#[trigger] adapted(messages[j].content@)) is Ok
}

/// The request for a streamed chat turn: the system prompt, then each stored
/// message adapted in order, with the task-creation function offered and
/// left to the model's choice. The first message that does not adapt makes
/// its error the result.
pub fn chat_response(
    config: &EngineConfig,
    system_message: String,
    messages: &Vec<Message>,
    create_task_schema: &str,
) -> (r: Result<ProviderRequest, CognitionError>)
    ensures
        r is Ok <==> all_adapt(messages@),
        match r {
            Ok(req) => {
                &&& req.model@ == config.llm_model_name@
                &&& req.max_tokens == MAX_TOKENS
                &&& req.messages@.len() == messages@.len() + 1
                &&& req.messages@[0]@ == TurnView::System(system_message@)
                &&& forall|i: int|
                    0 <= i < messages@.len() ==> adapted(#[trigger] messages@[i].content@) == Ok::<
                        TurnView,
                        CognitionError,
                    >(req.messages@[i + 1]@)
                &&& req.functions@.len() == 1
                &&& req.functions@[0].name@ == create_task_name()
                &&& req.functions@[0].description@ == create_task_description()
                &&& req.functions@[0].parameters@ == schema_head() + create_task_schema@ + schema_tail()
                &&& req.function_call == Some(FunctionCallPolicy::Auto)
            },
            Err(e) => exists|i: int| first_failure(messages@, i) && adapted(messages@[i].content@) == Err::<
                TurnView,
                CognitionError,
            >(e),
        },
{
    let mut turns: Vec<ProviderTurn> = Vec::new();
    turns.push(ProviderTurn::System(system_message));
    let mut i: usize = 0;
    while i < messages.len()
        invariant
            i <= messages@.len(),
            turns@.len() == i + 1,
            turns@[0]@ == TurnView::System(system_message@),
            forall|j: int|
                0 <= j < i ==> adapted(#[trigger] messages@[j].content@) == Ok::<TurnView, CognitionError>(
                    turns@[j + 1]@,
                ),
        decreases messages@.len() - i,
    {
        match message_to_chat_completion(&messages[i]) {
            Ok(t) => turns.push(t),
            Err(e) => {
                assert(first_failure(messages@, i as int));
                return Err(e);
            },
        }
        i = i + 1;
    }
    let mut functions: Vec<FunctionDef> = Vec::new();
    functions.push(create_task_function(create_task_schema));
    Ok(
        ProviderRequest {
            model: config.llm_model_name.clone(),
            max_tokens: MAX_TOKENS,
            messages: turns,
            functions,
            function_call: Some(FunctionCallPolicy::Auto),
        },
    )
}

/// The answer of a one-shot completion: the text of its first choice. A
/// completion without choices, or whose first choice has no text, is a
/// provider failure.
pub fn completion_text(choices: Vec<Option<String>>) -> (r: Result<String, CognitionError>)
    ensures
        choices@.len() > 0 && choices@[0] is Some ==> r is Ok && r->Ok_0@ == choices@[0]->0@,
        !(choices@.len() > 0 && choices@[0] is Some) ==> r == Err::<String, CognitionError>(
            CognitionError::ProviderFailure,
        ),
{
    if choices.len() == 0 {
        return Err(CognitionError::ProviderFailure);
    }
    match &choices[0] {
        Some(t) => Ok(t.clone()),
        None => Err(CognitionError::ProviderFailure),
    }
}

} // verus!
