use vstd::prelude::*;

use crate::json::{json_string_object, pair_texts, string_object};
use crate::model::{
    ChatMessage, ChatMessagePayload, ChatRole, ChatTranscript, ControlStyle, DiffKind, DiffLine,
    FileDiff, InlineControl, ProgressState, Reasoning, ReasoningStep, SelectOption, StepStatus,
    ToolCall, ToolCallStatus,
};

verus! {

/// Whether a message is spoken by `role` and carries exactly `text` as plain text.
pub open spec fn is_text(message: ChatMessage, role: ChatRole, text: Seq<char>) -> bool {
    message.role == role && (message.payload matches ChatMessagePayload::Text(c) && c@ == text)
}

pub open spec fn is_step(step: ReasoningStep, title: Seq<char>, detail: Option<Seq<char>>, status: StepStatus) -> bool {
    &&& step.title@ == title
    &&& step.status == status
    &&& match (step.detail, detail) {
        (Some(d), Some(t)) => d@ == t,
        (None, None) => true,
        _ => false,
    }
}

pub open spec fn is_diff_line(line: DiffLine, kind: DiffKind, content: Seq<char>) -> bool {
    line.kind == kind && line.content@ == content
}

pub open spec fn is_option(option: SelectOption, value: Seq<char>, label: Seq<char>) -> bool {
    option.value@ == value && option.label@ == label
}

pub open spec fn is_button(control: InlineControl, id: Seq<char>, label: Seq<char>, style: ControlStyle) -> bool {
    control matches InlineControl::Button { id: i, label: l, style: s, disabled }
        && i@ == id && l@ == label && s == style && !disabled
}

/// The reasoning trace of the sample.
pub open spec fn is_sample_reasoning(r: Reasoning) -> bool {
    &&& r.summary@ == "Worked through 3 steps"@
    &&& !r.collapsed
    &&& r.steps@.len() == 3
    &&& is_step(r.steps@[0], "Understood the request"@, Some("Summarize the last 24h of telemetry"@), StepStatus::Done)
    &&& is_step(r.steps@[1], "Decided to fetch the report"@, Some("Tool: fetch_report(source = telemetry)"@), StepStatus::Done)
    &&& is_step(r.steps@[2], "Waiting on tool output"@, None, StepStatus::Active)
}

/// The diff of the sample.
pub open spec fn is_sample_diff(d: FileDiff) -> bool {
    &&& d.path@ == "src/alerts.rs"@
    &&& d.animate
    &&& d.lines@.len() == 4
    &&& is_diff_line(d.lines@[0], DiffKind::Context, "fn alert_threshold() -> f32 {"@)
    &&& is_diff_line(d.lines@[1], DiffKind::Removed, "    0.20 // 20% error rate"@)
    &&& is_diff_line(d.lines@[2], DiffKind::Added, "    0.14 // tightened after telemetry review"@)
    &&& is_diff_line(d.lines@[3], DiffKind::Context, "}"@)
}

/// The detail selector of the sample.
pub open spec fn is_sample_select(control: InlineControl) -> bool {
    match control {
        InlineControl::Select { id, label, options, selected } => {
            &&& id@ == "detail"@
            &&& label matches Some(l) && l@ == "Detail"@
            &&& options@.len() == 3
            &&& is_option(options@[0], "brief"@, "Brief"@)
            &&& is_option(options@[1], "normal"@, "Normal"@)
            &&& is_option(options@[2], "verbose"@, "Verbose"@)
            &&& selected matches Some(s) && s@ == "normal"@
        },
        _ => false,
    }
}

/// The inline controls of the sample.
pub open spec fn is_sample_controls(controls: Seq<InlineControl>) -> bool {
    &&& controls.len() == 4
    &&& is_button(controls[0], "accept"@, "Keep summary"@, ControlStyle::Primary)
    &&& is_button(controls[1], "retry"@, "Regenerate"@, ControlStyle::Neutral)
    &&& is_sample_select(controls[2])
    &&& controls[3] matches InlineControl::Toggle { id, label, value }
        && id@ == "cite_sources"@ && label@ == "Cite sources"@ && value
}

/// The demo transcript: a system prompt, a question, a reasoning trace, a
/// running tool call with its progress and result, a status line, a markdown
/// answer, a diff and a row of inline controls.
pub open spec fn is_sample_transcript(messages: Seq<ChatMessage>) -> bool {
    &&& messages.len() == 10
    &&& is_text(messages[0], ChatRole::System, "You are an expert Rust assistant."@)
    &&& is_text(messages[1], ChatRole::User, "Summarize the latest telemetry report."@)
    &&& messages[2].role == ChatRole::Assistant
    &&& messages[2].payload matches ChatMessagePayload::Reasoning(r) && is_sample_reasoning(r)
    &&& messages[3].role == ChatRole::Assistant
    &&& messages[3].payload matches ChatMessagePayload::ToolCall(call)
        && call.name@ == "fetch_report"@
        && call.arguments == json_string_object(
            seq![("source"@, "telemetry"@), ("period"@, "24h"@)],
        )
        && call.status == ToolCallStatus::Running
    &&& messages[4].role == ChatRole::Tool
    &&& messages[4].payload matches ChatMessagePayload::Progress(p)
        && p.label@ == "Fetching report data"@
        && p.percent_bits == 0x4294_0000u32
    &&& messages[5].role == ChatRole::Tool
    &&& messages[5].payload matches ChatMessagePayload::ToolResult { name, content }
        && name@ == "fetch_report"@
        && content@ == "Error rate dropped by 14% while latency remained stable."@
    &&& messages[6].role == ChatRole::Tool
    &&& messages[6].payload matches ChatMessagePayload::Status(s) && s@ == "Generating summary…"@
    &&& messages[7].role == ChatRole::Assistant
    &&& messages[7].payload matches ChatMessagePayload::Markdown(md)
        && md@ == "### Summary\n- Error rate improved by **14%**\n- Latency remained stable"@
    &&& messages[8].role == ChatRole::Assistant
    &&& messages[8].payload matches ChatMessagePayload::Diff(d) && is_sample_diff(d)
    &&& messages[9].role == ChatRole::Assistant
    &&& messages[9].payload matches ChatMessagePayload::Controls(c) && is_sample_controls(c@)
}

/// A transcript that shows every kind of message the surface renders.
pub fn sample_transcript() -> (transcript: ChatTranscript)
    ensures
        is_sample_transcript(transcript.messages@),
{
    let mut transcript = ChatTranscript::default();

    transcript.push(
        ChatRole::System,
        ChatMessagePayload::Text(String::from_str("You are an expert Rust assistant.")),
    );
    transcript.push(
        ChatRole::User,
        ChatMessagePayload::Text(String::from_str("Summarize the latest telemetry report.")),
    );
    let steps = vec![
        ReasoningStep::new("Understood the request", StepStatus::Done).with_detail(
            "Summarize the last 24h of telemetry",
        ),
        ReasoningStep::new("Decided to fetch the report", StepStatus::Done).with_detail(
            "Tool: fetch_report(source = telemetry)",
        ),
        ReasoningStep::new("Waiting on tool output", StepStatus::Active),
    ];
    transcript.push(
        ChatRole::Assistant,
        ChatMessagePayload::Reasoning(
            Reasoning { summary: String::from_str("Worked through 3 steps"), collapsed: false, steps },
        ),
    );
    let pairs = vec![
        (String::from_str("source"), String::from_str("telemetry")),
        (String::from_str("period"), String::from_str("24h")),
    ];
    proof {
        assert(pair_texts(pairs@) =~= seq![("source"@, "telemetry"@), ("period"@, "24h"@)]);
    }
    let arguments = string_object(pairs);
    transcript.push(
        ChatRole::Assistant,
        ChatMessagePayload::ToolCall(
            ToolCall {
                name: String::from_str("fetch_report"),
                arguments,
                status: ToolCallStatus::Running,
            },
        ),
    );
    // 74 %, as single-precision bits.
    transcript.push(
        ChatRole::Tool,
        ChatMessagePayload::Progress(
            ProgressState { label: String::from_str("Fetching report data"), percent_bits: 0x4294_0000u32 },
        ),
    );
    transcript.push(
        ChatRole::Tool,
        ChatMessagePayload::ToolResult {
            name: String::from_str("fetch_report"),
            content: String::from_str("Error rate dropped by 14% while latency remained stable."),
        },
    );
    transcript.push(
        ChatRole::Tool,
        ChatMessagePayload::Status(String::from_str("Generating summary…")),
    );
    transcript.push(
        ChatRole::Assistant,
        ChatMessagePayload::Markdown(
            String::from_str(
                "### Summary\n- Error rate improved by **14%**\n- Latency remained stable",
            ),
        ),
    );
    let lines = vec![
        DiffLine::context("fn alert_threshold() -> f32 {"),
        DiffLine::removed("    0.20 // 20% error rate"),
        DiffLine::added("    0.14 // tightened after telemetry review"),
        DiffLine::context("}"),
    ];
    transcript.push(
        ChatRole::Assistant,
        ChatMessagePayload::Diff(FileDiff { path: String::from_str("src/alerts.rs"), animate: true, lines }),
    );
    let options = vec![
        SelectOption::new("brief", "Brief"),
        SelectOption::new("normal", "Normal"),
        SelectOption::new("verbose", "Verbose"),
    ];
    let controls = vec![
        InlineControl::Button {
            id: String::from_str("accept"),
            label: String::from_str("Keep summary"),
            style: ControlStyle::Primary,
            disabled: false,
        },
        InlineControl::Button {
            id: String::from_str("retry"),
            label: String::from_str("Regenerate"),
            style: ControlStyle::Neutral,
            disabled: false,
        },
        InlineControl::Select {
            id: String::from_str("detail"),
            label: Some(String::from_str("Detail")),
            options,
            selected: Some(String::from_str("normal")),
        },
        InlineControl::Toggle {
            id: String::from_str("cite_sources"),
            label: String::from_str("Cite sources"),
            value: true,
        },
    ];
    transcript.push(ChatRole::Assistant, ChatMessagePayload::Controls(controls));

    transcript
}

} // verus!
