use vstd::prelude::*;

use crate::error::CognitionError;

verus! {

/// A stored chat message. `content` is a serialized conversation turn whose
/// shape depends on the role it carries.
pub struct Message {
    pub id: u128,
    pub chat_id: u128,
    pub role: String,
    pub content: String,
}

/// One turn of a provider conversation. User and assistant turns adapted
/// from stored messages keep the stored JSON payload verbatim; system and
/// plain user turns hold text.
pub enum ProviderTurn {
    System(String),
    UserText(String),
    User(String),
    Assistant(String),
}

pub enum TurnView {
    System(Seq<char>),
    UserText(Seq<char>),
    User(Seq<char>),
    Assistant(Seq<char>),
}

impl View for ProviderTurn {
    type V = TurnView;

    open spec fn view(&self) -> TurnView {
        match self {
            ProviderTurn::System(s) => TurnView::System(s@),
            ProviderTurn::UserText(s) => TurnView::UserText(s@),
            ProviderTurn::User(s) => TurnView::User(s@),
            ProviderTurn::Assistant(s) => TurnView::Assistant(s@),
        }
    }
}

/// The string held under the `role` key of a JSON object, when the text
/// parses as such an object and that member is a string.
pub uninterp spec fn json_role(content: Seq<char>) -> Option<Seq<char>>;

/// Whether the text parses as a JSON value.
pub uninterp spec fn json_valid(text: Seq<char>) -> bool;

/// Relies on serde_json::from_str into serde_json::Value, then
/// Value::get("role") and Value::as_str: the role string of a JSON object.
#[verifier::external_body]
fn role_of_content(content: &str) -> (r: Option<String>)
    ensures
        match r {
            Some(s) => json_role(content@) == Some(s@) && json_valid(content@),
            None => json_role(content@) is None,
        },
{
    let v: serde_json::Value = serde_json::from_str(content).ok()?;
    v.get("role")?.as_str().map(|s| s.to_string())
}

/// The kind of value held under the `content` key of a JSON object.
#[derive(Debug, Clone, Copy, PartialEq, Eq, Structural)]
pub enum ContentShape {
    /// No such member, `null`, or no JSON object at all.
    Absent,
    /// A string.
    Text,
    /// An array of content parts.
    Parts,
    /// Any other value.
    Other,
}

/// What the `content` member of the text, read as JSON, is.
pub uninterp spec fn json_content_shape(content: Seq<char>) -> ContentShape;

/// Relies on serde_json::from_str into serde_json::Value and on
/// Value::get("content"): which kind of value the content member holds.
#[verifier::external_body]
fn content_shape(content: &str) -> (r: ContentShape)
    ensures
        r == json_content_shape(content@),
{
    let v: serde_json::Value = match serde_json::from_str(content) {
        Ok(v) => v,
        Err(_) => return ContentShape::Absent,
    };
    match v.get("content") {
        None | Some(serde_json::Value::Null) => ContentShape::Absent,
        Some(serde_json::Value::String(_)) => ContentShape::Text,
        Some(serde_json::Value::Array(_)) => ContentShape::Parts,
        Some(_) => ContentShape::Other,
    }
}

/// A user turn carries its content as text or as an array of parts.
pub open spec fn user_turn_ok(shape: ContentShape) -> bool {
    shape == ContentShape::Text || shape == ContentShape::Parts
}

/// An assistant turn carries its content as text, or none at all.
pub open spec fn assistant_turn_ok(shape: ContentShape) -> bool {
    shape == ContentShape::Text || shape == ContentShape::Absent
}

/// Relies on serde_json::from_str into serde_json::Value: true exactly when
/// the text is one well-formed JSON value.
#[verifier::external_body]
pub(crate) fn is_json(text: &str) -> (r: bool)
    ensures
        r == json_valid(text@),
{
    serde_json::from_str::<serde_json::Value>(text).is_ok()
}

/// The provider turn for a message whose content declares `role` and holds
/// a content member of the given shape, or why there is none. A turn whose
/// content does not fit its role is malformed.
pub open spec fn turn_for_role(role: Seq<char>, shape: ContentShape, content: Seq<char>) -> Result<TurnView, CognitionError> {
    if role == "user"@ {
        if user_turn_ok(shape) {
            Ok(TurnView::User(content))
        } else {
            Err(CognitionError::MalformedMessage)
        }
    } else if role == "assistant"@ {
        if assistant_turn_ok(shape) {
            Ok(TurnView::Assistant(content))
        } else {
            Err(CognitionError::MalformedMessage)
        }
    } else if role == "tool"@ || role == "function"@ {
        Err(CognitionError::UnsupportedRole)
    } else {
        Err(CognitionError::MalformedMessage)
    }
}

/// What adapting a message with this content yields.
pub open spec fn adapted(content: Seq<char>) -> Result<TurnView, CognitionError> {
    match json_role(content) {
        None => Err(CognitionError::MalformedMessage),
        Some(role) => turn_for_role(role, json_content_shape(content), content),
    }
}

pub open spec fn turn_result_view(r: Result<ProviderTurn, CognitionError>) -> Result<TurnView, CognitionError> {
    match r {
        Ok(t) => Ok(t@),
        Err(e) => Err(e),
    }
}

/// A user or assistant message whose content does not fit its role is
/// malformed, never coerced into a turn.
pub proof fn lemma_ill_formed_turns_fail(content: Seq<char>)
    requires
        json_role(content) == Some("user"@) && !user_turn_ok(json_content_shape(content))
            || json_role(content) == Some("assistant"@) && !assistant_turn_ok(json_content_shape(content)),
    ensures
        adapted(content) == Err::<TurnView, CognitionError>(CognitionError::MalformedMessage),
{
    reveal_strlit("user");
    reveal_strlit("assistant");
    assert("user"@[0] != "assistant"@[0]);
}

/// Picks the provider turn for a role and a content shape already read from
/// the content.
pub fn turn_from_role(role: &String, shape: ContentShape, content: &String) -> (r: Result<ProviderTurn, CognitionError>)
    ensures
        turn_result_view(r) == turn_for_role(role@, shape, content@),
{
    let user = String::from_str("user");
    let assistant = String::from_str("assistant");
    let tool = String::from_str("tool");
    let function = String::from_str("function");
    if *role == user {
        if shape == ContentShape::Text || shape == ContentShape::Parts {
            Ok(ProviderTurn::User(content.clone()))
        } else {
            Err(CognitionError::MalformedMessage)
        }
    } else if *role == assistant {
        if shape == ContentShape::Text || shape == ContentShape::Absent {
            Ok(ProviderTurn::Assistant(content.clone()))
        } else {
            Err(CognitionError::MalformedMessage)
        }
    } else if *role == tool || *role == function {
        Err(CognitionError::UnsupportedRole)
    } else {
        Err(CognitionError::MalformedMessage)
    }
}

/// Adapts one stored message into a provider turn. Well-formed user and
/// assistant messages keep their payload unchanged; every other message is
/// refused.
pub fn message_to_chat_completion(message: &Message) -> (r: Result<ProviderTurn, CognitionError>)
    ensures
        turn_result_view(r) == adapted(message.content@),
        r is Ok <==> (json_role(message.content@) == Some("user"@) && user_turn_ok(
            json_content_shape(message.content@),
        )) || (json_role(message.content@) == Some("assistant"@) && assistant_turn_ok(
            json_content_shape(message.content@),
        )),
{
    proof {
        reveal_strlit("user");
        reveal_strlit("assistant");
        reveal_strlit("tool");
        reveal_strlit("function");
        assert("user"@[0] != "assistant"@[0]);
    }
    match role_of_content(message.content.as_str()) {
        None => Err(CognitionError::MalformedMessage),
        Some(role) => {
            let shape = content_shape(message.content.as_str());
            turn_from_role(&role, shape, &message.content)
        },
    }
}

/// Adapting a well-formed user or assistant message keeps its role and its
/// payload.
pub proof fn lemma_adaptation_round_trip(content: Seq<char>, role: Seq<char>)
    requires
        json_role(content) == Some(role),
        role == "user"@ ==> user_turn_ok(json_content_shape(content)),
        role == "assistant"@ ==> assistant_turn_ok(json_content_shape(content)),
        role == "user"@ || role == "assistant"@,
    ensures
        role == "user"@ ==> adapted(content) == Ok::<TurnView, CognitionError>(TurnView::User(content)),
        role == "assistant"@ ==> adapted(content) == Ok::<TurnView, CognitionError>(TurnView::Assistant(content)),
{
    reveal_strlit("user");
    reveal_strlit("assistant");
    assert("user"@[0] != "assistant"@[0]);
}

/// A message of any role but user or assistant fails to adapt: tool and
/// function messages as unsupported, all the rest as malformed.
pub proof fn lemma_other_roles_fail(content: Seq<char>)
    requires
        json_role(content) != Some("user"@),
        json_role(content) != Some("assistant"@),
    ensures
        adapted(content) is Err,
        json_role(content) == Some("tool"@) || json_role(content) == Some("function"@) ==> adapted(content)
            == Err::<TurnView, CognitionError>(CognitionError::UnsupportedRole),
        !(json_role(content) == Some("tool"@) || json_role(content) == Some("function"@)) ==> adapted(content)
            == Err::<TurnView, CognitionError>(CognitionError::MalformedMessage),
{
}

} // verus!
