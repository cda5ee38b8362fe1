use plexo_cognition::chat::{ChatResponseChunk, ChatResponseFunctionCall, ChatResponseToolCall};
use plexo_cognition::error::CognitionError;
use plexo_cognition::processors::{AIProcessorGraphQLMutation, AIProcessorGraphQLSubscription};
use plexo_cognition::stream::{
    assemble, drain_to_last, last_chunk, tool_call_arguments, ChatAssembler, DeltaEvent, StepOutcome,
    ToolCallDelta,
};

fn text(s: &str) -> DeltaEvent {
    DeltaEvent::Content(s.to_string())
}

fn frag(index: u32, name: Option<&str>, arguments: Option<&str>) -> ToolCallDelta {
    ToolCallDelta {
        index,
        id: None,
        call_type: None,
        name: name.map(|s| s.to_string()),
        arguments: arguments.map(|s| s.to_string()),
    }
}

fn sure_events() -> Vec<DeltaEvent> {
    vec![text("Sure"), text(", "), text("I can help."), DeltaEvent::End]
}

#[test]
fn incremental_chunks_accumulate_the_message() {
    let turn = assemble(&sure_events(), Some(9)).unwrap();
    let got: Vec<(String, String)> = turn.chunks.iter().map(|c| (c.delta.clone(), c.message.clone())).collect();
    assert_eq!(
        got,
        vec![
            ("Sure".to_string(), "Sure".to_string()),
            (", ".to_string(), "Sure, ".to_string()),
            ("I can help.".to_string(), "Sure, I can help.".to_string()),
        ]
    );
    assert!(turn.chunks.iter().all(|c| c.message_id == Some(9) && c.tool_calls.is_none()));
}

#[test]
fn drain_returns_the_last_chunk() {
    let c = drain_to_last(&sure_events(), None).unwrap();
    assert_eq!(c.delta, "I can help.");
    assert_eq!(c.message, "Sure, I can help.");
}

#[test]
fn drain_of_an_empty_stream_fails() {
    let r = drain_to_last(&vec![DeltaEvent::End], None);
    assert!(matches!(r, Err(CognitionError::EmptyStream)));
    let r = drain_to_last(&vec![], None);
    assert!(matches!(r, Err(CognitionError::EmptyStream)));
}

#[test]
fn events_after_the_end_are_ignored() {
    let evs = vec![text("a"), DeltaEvent::End, text("b")];
    let turn = assemble(&evs, None).unwrap();
    assert_eq!(turn.chunks.len(), 1);
    assert_eq!(turn.chunks[0].message, "a");
}

#[test]
fn tool_call_fragments_are_joined() {
    let evs = vec![
        DeltaEvent::ToolCalls(vec![frag(0, Some("create_task"), None)]),
        DeltaEvent::ToolCalls(vec![frag(0, None, Some("{\"tit"))]),
        DeltaEvent::ToolCalls(vec![frag(0, None, Some("le\":\"Buy milk\"}"))]),
        DeltaEvent::End,
    ];
    let turn = assemble(&evs, None).unwrap();
    assert!(turn.chunks.is_empty());
    assert_eq!(turn.tool_calls.len(), 1);
    let f = turn.tool_calls[0].function.as_ref().unwrap();
    assert_eq!(f.name.as_deref(), Some("create_task"));
    let args = tool_call_arguments(&turn.tool_calls[0]).unwrap();
    let v: serde_json::Value = serde_json::from_str(&args).unwrap();
    assert_eq!(v["title"], "Buy milk");
    assert_eq!(v.as_object().unwrap().len(), 1);
}

#[test]
fn tool_calls_are_kept_by_position() {
    let evs = vec![
        DeltaEvent::ToolCalls(vec![ToolCallDelta {
            index: 1,
            id: Some("call_b".to_string()),
            call_type: Some("function".to_string()),
            name: Some("second".to_string()),
            arguments: Some("{}".to_string()),
        }]),
        DeltaEvent::ToolCalls(vec![frag(0, Some("first"), Some("[1]"))]),
        DeltaEvent::End,
    ];
    let turn = assemble(&evs, None).unwrap();
    assert_eq!(turn.tool_calls.len(), 2);
    assert_eq!(turn.tool_calls[0].function.as_ref().unwrap().name.as_deref(), Some("first"));
    assert_eq!(turn.tool_calls[1].id.as_deref(), Some("call_b"));
    assert_eq!(turn.tool_calls[1].call_type.as_deref(), Some("function"));
    assert_eq!(turn.tool_calls[1].function.as_ref().unwrap().arguments.as_deref(), Some("{}"));
}

#[test]
fn incomplete_tool_arguments_are_malformed() {
    let call = ChatResponseToolCall {
        id: None,
        call_type: None,
        function: Some(ChatResponseFunctionCall { name: Some("create_task".to_string()), arguments: Some("{\"tit".to_string()) }),
    };
    assert!(matches!(tool_call_arguments(&call), Err(CognitionError::MalformedToolArguments)));
    let bare = ChatResponseToolCall { id: None, call_type: None, function: None };
    assert!(matches!(tool_call_arguments(&bare), Err(CognitionError::MalformedToolArguments)));
}

#[test]
fn unrecognized_first_event_fails_the_turn() {
    let r = assemble(&vec![DeltaEvent::Unrecognized, text("x")], None);
    assert!(matches!(r, Err(CognitionError::ProviderFailure)));
}

#[test]
fn unrecognized_later_event_is_skipped() {
    let turn = assemble(&vec![text("x"), DeltaEvent::Unrecognized, text("y")], None).unwrap();
    assert_eq!(turn.chunks.len(), 2);
    assert_eq!(turn.chunks[1].message, "xy");
}

#[test]
fn cancelled_turn_yields_no_more_chunks() {
    let mut a = ChatAssembler::new(None);
    let mut forwarded: Vec<String> = Vec::new();
    for (k, ev) in sure_events().iter().enumerate() {
        if k == 2 {
            a.cancel();
        }
        match a.on_event(ev) {
            StepOutcome::Chunk(c) => forwarded.push(c.delta),
            StepOutcome::Continue => {}
            StepOutcome::Finished | StepOutcome::Failed(_) => break,
        }
    }
    assert_eq!(forwarded, vec!["Sure".to_string(), ", ".to_string()]);
    assert!(a.closed);
    assert!(matches!(a.on_event(&text("more")), StepOutcome::Finished));
    assert_eq!(a.message, "Sure, ");
}

#[test]
fn end_signal_closes_the_turn() {
    let mut a = ChatAssembler::new(Some(3));
    assert!(matches!(a.on_event(&text("hi")), StepOutcome::Chunk(_)));
    assert!(matches!(a.on_event(&DeltaEvent::End), StepOutcome::Finished));
    assert!(a.closed);
}

fn chunk(delta: &str, message: &str) -> ChatResponseChunk {
    ChatResponseChunk { delta: delta.to_string(), message: message.to_string(), message_id: None, tool_calls: None }
}

#[test]
fn last_chunk_of_a_list() {
    let c = last_chunk(vec![chunk("a", "a"), chunk("b", "ab")]).unwrap();
    assert_eq!(c.message, "ab");
    assert!(matches!(last_chunk(vec![]), Err(CognitionError::EmptyStream)));
}

#[test]
fn mutation_chat_drains_to_the_last_chunk() {
    let m = AIProcessorGraphQLMutation;
    let c = m.chat(vec![chunk("x", "x"), chunk("y", "xy")]).unwrap();
    assert_eq!(c.delta, "y");
    assert!(matches!(m.chat(vec![]), Err(CognitionError::EmptyStream)));
}

#[test]
fn provider_error_mid_stream_fails_the_turn() {
    let evs = vec![text("a"), DeltaEvent::ProviderError, text("b")];
    assert!(matches!(assemble(&evs, None), Err(CognitionError::ProviderFailure)));
    assert!(matches!(drain_to_last(&evs, None), Err(CognitionError::ProviderFailure)));
    let mut a = ChatAssembler::new(None);
    assert!(matches!(a.on_event(&text("a")), StepOutcome::Chunk(_)));
    assert!(matches!(a.on_event(&DeltaEvent::ProviderError), StepOutcome::Failed(CognitionError::ProviderFailure)));
    assert!(a.closed);
}

#[test]
fn provider_error_after_the_end_is_ignored() {
    let evs = vec![text("a"), DeltaEvent::End, DeltaEvent::ProviderError];
    assert_eq!(drain_to_last(&evs, None).unwrap().message, "a");
}

#[test]
fn drained_chunk_carries_the_tool_calls() {
    let evs = vec![
        text("On it."),
        DeltaEvent::ToolCalls(vec![frag(0, Some("create_task"), Some("{\"title\":"))]),
        DeltaEvent::ToolCalls(vec![frag(0, None, Some("\"Buy milk\"}"))]),
        DeltaEvent::End,
    ];
    let c = drain_to_last(&evs, Some(4)).unwrap();
    assert_eq!(c.delta, "On it.");
    assert_eq!(c.message, "On it.");
    assert_eq!(c.message_id, Some(4));
    let calls = c.tool_calls.unwrap();
    assert_eq!(calls.len(), 1);
    assert_eq!(tool_call_arguments(&calls[0]).unwrap(), "{\"title\":\"Buy milk\"}");
}

#[test]
fn tool_call_only_turn_drains_to_a_chunk() {
    let evs = vec![DeltaEvent::ToolCalls(vec![frag(0, Some("create_task"), Some("{}"))]), DeltaEvent::End];
    let c = drain_to_last(&evs, None).unwrap();
    assert_eq!(c.delta, "");
    assert_eq!(c.message, "");
    assert_eq!(c.tool_calls.unwrap()[0].function.as_ref().unwrap().name.as_deref(), Some("create_task"));
}

#[test]
fn text_only_drain_has_no_tool_calls() {
    assert!(drain_to_last(&sure_events(), None).unwrap().tool_calls.is_none());
}

#[test]
fn subscription_stops_after_cancellation() {
    let s = AIProcessorGraphQLSubscription;
    let mut turn = ChatAssembler::new(None);
    let mut delivered = 0;
    for ev in sure_events().iter() {
        match s.chat(&mut turn, ev) {
            StepOutcome::Chunk(_) => {
                delivered += 1;
                if delivered == 2 {
                    turn.cancel();
                }
            }
            StepOutcome::Continue => {}
            StepOutcome::Finished | StepOutcome::Failed(_) => break,
        }
    }
    assert_eq!(delivered, 2);
    assert!(matches!(s.chat(&mut turn, &text("late")), StepOutcome::Finished));
    assert_eq!(turn.message, "Sure, ");
}

#[test]
fn incremental_turn_closes_with_a_tool_call_chunk() {
    let mut a = ChatAssembler::new(Some(1));
    assert!(a.tool_call_chunk().is_none());
    a.on_event(&text("ok"));
    a.on_event(&DeltaEvent::ToolCalls(vec![frag(0, Some("create_task"), Some("{}"))]));
    a.on_event(&DeltaEvent::End);
    let c = a.tool_call_chunk().unwrap();
    assert_eq!(c.delta, "");
    assert_eq!(c.message, "ok");
    assert_eq!(c.message_id, Some(1));
    assert_eq!(c.tool_calls.unwrap()[0].function.as_ref().unwrap().arguments.as_deref(), Some("{}"));
}
