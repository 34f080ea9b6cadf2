use dioxus_genai_chat::{
    sample_transcript, ChatControls, ChatMessagePayload, ChatRole, ChatTranscript, PlannedMessage,
    ProgressState, ToolCall, ToolCallStatus,
};
use genai::chat::ChatRole as GenAiRole;

#[test]
fn chat_controls_default_to_enabled() {
    let controls = ChatControls::default();

    assert!(controls.show_input);
    assert!(controls.show_send_button);
    assert!(controls.show_stop_button);
    assert!(controls.show_retry_button);
    assert!(controls.show_clear_button);
    assert!(controls.input_enabled);
    assert_eq!(controls.placeholder, "Ask anything, or invoke a tool...");
}

#[test]
fn transcript_to_genai_request_maps_roles_and_tool_events() {
    let mut transcript = ChatTranscript::default();
    transcript.push(ChatRole::System, ChatMessagePayload::Text("Be concise".to_string()));
    transcript.push(ChatRole::User, ChatMessagePayload::Text("Hello".to_string()));
    transcript.push(ChatRole::Assistant, ChatMessagePayload::Text("Hi".to_string()));
    transcript.push(
        ChatRole::Assistant,
        ChatMessagePayload::ToolCall(ToolCall {
            name: "lookup".to_string(),
            arguments: serde_json::from_str("{\"q\":\"status\"}").unwrap(),
            status: ToolCallStatus::Completed,
        }),
    );
    transcript.push(
        ChatRole::Tool,
        ChatMessagePayload::ToolResult {
            name: "lookup".to_string(),
            content: "All systems healthy".to_string(),
        },
    );
    transcript.push(
        ChatRole::Tool,
        ChatMessagePayload::Progress(ProgressState {
            label: "Unused in request".to_string(),
            percent_bits: 50.0f32.to_bits(),
        }),
    );

    let request = transcript.to_genai_request();

    assert_eq!(request.system, Some("Be concise".to_string()));
    assert_eq!(request.messages.len(), 4);
    assert!(matches!(request.messages[0].role, GenAiRole::User));
    assert!(matches!(request.messages[1].role, GenAiRole::Assistant));
    assert!(matches!(request.messages[2].role, GenAiRole::Assistant));
    assert!(matches!(request.messages[3].role, GenAiRole::Tool));
}

#[test]
fn sample_transcript_includes_tooling_and_progress() {
    let transcript = sample_transcript();

    assert!(transcript
        .messages
        .iter()
        .any(|m| matches!(m.payload, ChatMessagePayload::ToolCall(_))));
    assert!(transcript
        .messages
        .iter()
        .any(|m| matches!(m.payload, ChatMessagePayload::Progress(_))));
    assert!(transcript
        .messages
        .iter()
        .any(|m| matches!(m.payload, ChatMessagePayload::ToolResult { .. })));
}

#[test]
fn request_text_of_each_message_is_forwarded() {
    let mut transcript = ChatTranscript::default();
    transcript.push(ChatRole::System, ChatMessagePayload::Markdown("first".to_string()));
    transcript.push(ChatRole::System, ChatMessagePayload::Text("second".to_string()));
    transcript.push(ChatRole::User, ChatMessagePayload::Markdown("question".to_string()));
    transcript.push(ChatRole::Tool, ChatMessagePayload::Text("42".to_string()));
    transcript.push(
        ChatRole::User,
        ChatMessagePayload::ToolCall(ToolCall {
            name: "lookup".to_string(),
            arguments: serde_json::from_str("{\"q\":\"status\"}").unwrap(),
            status: ToolCallStatus::Pending,
        }),
    );
    transcript.push(ChatRole::Tool, ChatMessagePayload::Error("boom".to_string()));
    transcript.push(
        ChatRole::Assistant,
        ChatMessagePayload::ToolResult { name: "lookup".to_string(), content: "ok".to_string() },
    );

    let request = transcript.to_genai_request();
    assert_eq!(request.system, Some("first".to_string()));
    assert_eq!(request.messages.len(), 6);
    let texts: Vec<Option<&str>> = request.messages.iter().map(|m| m.content.first_text()).collect();
    assert!(matches!(request.messages[0].role, GenAiRole::System));
    assert_eq!(texts[0], Some("second"));
    assert!(matches!(request.messages[1].role, GenAiRole::User));
    assert_eq!(texts[1], Some("question"));
    assert!(matches!(request.messages[2].role, GenAiRole::Tool));
    assert_eq!(texts[2], Some("Tool output: 42"));
    assert!(matches!(request.messages[3].role, GenAiRole::Assistant));
    assert_eq!(texts[3], Some("Tool call requested: lookup with {\"q\":\"status\"}"));
    assert!(matches!(request.messages[4].role, GenAiRole::Assistant));
    assert_eq!(texts[4], Some("boom"));
    assert!(matches!(request.messages[5].role, GenAiRole::Tool));
    let responses = request.messages[5].content.tool_responses();
    assert_eq!(responses.len(), 1);
    assert_eq!(responses[0].call_id, "lookup");
    assert_eq!(responses[0].content, "ok");
}

#[test]
fn request_without_system_text_has_no_system_prompt() {
    let mut transcript = ChatTranscript::default();
    transcript.push(ChatRole::User, ChatMessagePayload::Text("Hello".to_string()));
    transcript.push(ChatRole::Assistant, ChatMessagePayload::Typing);
    let request = transcript.to_genai_request();
    assert_eq!(request.system, None);
    assert_eq!(request.messages.len(), 1);
}

#[test]
fn plan_of_sample_transcript() {
    let plan = sample_transcript().genai_plan();
    assert_eq!(plan.system, Some("You are an expert Rust assistant.".to_string()));
    assert_eq!(
        plan.messages,
        vec![
            PlannedMessage::User("Summarize the latest telemetry report.".to_string()),
            PlannedMessage::Assistant(
                "Tool call requested: fetch_report with {\"source\":\"telemetry\",\"period\":\"24h\"}"
                    .to_string()
            ),
            PlannedMessage::ToolResponse {
                call_id: "fetch_report".to_string(),
                content: "Error rate dropped by 14% while latency remained stable.".to_string(),
            },
            PlannedMessage::Assistant(
                "### Summary\n- Error rate improved by **14%**\n- Latency remained stable".to_string()
            ),
        ]
    );
}

#[test]
fn display_only_messages_do_not_change_the_plan() {
    let mut transcript = ChatTranscript::default();
    transcript.push(ChatRole::User, ChatMessagePayload::Text("Hello".to_string()));
    let before = transcript.genai_plan();
    transcript.push(ChatRole::Tool, ChatMessagePayload::Status("working".to_string()));
    transcript.push(ChatRole::Assistant, ChatMessagePayload::Typing);
    transcript.push(ChatRole::Assistant, ChatMessagePayload::Controls(vec![]));
    assert_eq!(transcript.genai_plan(), before);
}

#[test]
fn forwarded_messages_are_counted_once() {
    let transcript = sample_transcript();
    let plan = transcript.genai_plan();
    let forwarded = transcript
        .messages
        .iter()
        .filter(|m| {
            !matches!(
                m.payload,
                ChatMessagePayload::Progress(_)
                    | ChatMessagePayload::Reasoning(_)
                    | ChatMessagePayload::Status(_)
                    | ChatMessagePayload::Controls(_)
                    | ChatMessagePayload::Diff(_)
                    | ChatMessagePayload::Typing
            )
        })
        .count();
    assert_eq!(plan.messages.len() + usize::from(plan.system.is_some()), forwarded);
}

#[test]
fn push_appends_at_the_end() {
    let mut transcript = sample_transcript();
    let before = transcript.messages.clone();
    transcript.push(ChatRole::User, ChatMessagePayload::Text("more".to_string()));
    assert_eq!(transcript.messages.len(), before.len() + 1);
    assert_eq!(&transcript.messages[..before.len()], &before[..]);
    assert_eq!(transcript.messages[before.len()].role, ChatRole::User);
    assert_eq!(
        transcript.messages[before.len()].payload,
        ChatMessagePayload::Text("more".to_string())
    );
}

#[test]
fn sample_transcript_contents() {
    let transcript = sample_transcript();
    assert_eq!(transcript.messages.len(), 10);
    match &transcript.messages[4].payload {
        ChatMessagePayload::Progress(p) => assert_eq!(f32::from_bits(p.percent_bits), 74.0),
        _ => panic!("expected progress"),
    }
    match &transcript.messages[3].payload {
        ChatMessagePayload::ToolCall(call) => {
            assert_eq!(call.name, "fetch_report");
            assert_eq!(call.status.as_label(), "running");
        }
        _ => panic!("expected a tool call"),
    }
}

#[test]
fn request_only_grows_when_messages_are_pushed() {
    let mut transcript = ChatTranscript::default();
    transcript.push(ChatRole::System, ChatMessagePayload::Text("rules".to_string()));
    transcript.push(ChatRole::User, ChatMessagePayload::Text("Hello".to_string()));
    let earlier = transcript.genai_plan();
    transcript.push(ChatRole::System, ChatMessagePayload::Text("more rules".to_string()));
    transcript.push(ChatRole::Assistant, ChatMessagePayload::Error("failed".to_string()));
    let later = transcript.genai_plan();
    assert_eq!(later.system, earlier.system);
    assert_eq!(&later.messages[..earlier.messages.len()], &earlier.messages[..]);
    assert_eq!(
        &later.messages[earlier.messages.len()..],
        &[
            PlannedMessage::System("more rules".to_string()),
            PlannedMessage::Assistant("failed".to_string()),
        ]
    );
}

#[test]
fn joined_transcripts_join_their_requests() {
    let mut first = ChatTranscript::default();
    first.push(ChatRole::User, ChatMessagePayload::Text("Hello".to_string()));
    first.push(ChatRole::Assistant, ChatMessagePayload::Markdown("Hi".to_string()));
    let mut second = ChatTranscript::default();
    second.push(ChatRole::Tool, ChatMessagePayload::Text("7".to_string()));
    second.push(ChatRole::User, ChatMessagePayload::Error("bad".to_string()));
    let mut joined = first.clone();
    joined.messages.extend(second.messages.clone());

    let plan = joined.genai_plan();
    let mut expected = first.genai_plan().messages;
    expected.extend(second.genai_plan().messages);
    assert_eq!(plan.messages, expected);
    assert_eq!(plan.system, None);

    let request = joined.to_genai_request();
    assert_eq!(request.system, None);
    assert_eq!(
        request.messages.len(),
        first.to_genai_request().messages.len() + second.to_genai_request().messages.len()
    );
}

#[test]
fn display_only_messages_may_stand_anywhere() {
    let base = sample_transcript();
    let plan = base.genai_plan();
    for index in 0..=base.messages.len() {
        let mut inserted = base.clone();
        inserted.messages.insert(
            index,
            dioxus_genai_chat::ChatMessage {
                role: ChatRole::User,
                payload: ChatMessagePayload::Status("busy".to_string()),
            },
        );
        assert_eq!(inserted.genai_plan(), plan);
    }
    // The sample's reasoning trace, progress, status, diff and controls can all go.
    let mut removed = base.clone();
    removed.messages.retain(|m| {
        !matches!(
            m.payload,
            ChatMessagePayload::Reasoning(_)
                | ChatMessagePayload::Progress(_)
                | ChatMessagePayload::Status(_)
                | ChatMessagePayload::Diff(_)
                | ChatMessagePayload::Controls(_)
        )
    });
    assert_eq!(removed.messages.len(), 5);
    assert_eq!(removed.genai_plan(), plan);
}
