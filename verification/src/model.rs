use vstd::prelude::*;

use serde_json::Value as JsonValue;

verus! {

/// Who speaks a message of a transcript.
#[derive(Debug, Clone, Copy, PartialEq, Eq, Structural)]
pub enum ChatRole {
    System,
    User,
    Assistant,
    Tool,
}

/// The lifecycle of a tool call shown in a transcript.
#[derive(Debug, Clone, Copy, PartialEq, Eq, Structural)]
pub enum ToolCallStatus {
    Pending,
    Running,
    Completed,
    Failed,
}

/// The label shown for a tool call status.
pub open spec fn tool_status_label(status: ToolCallStatus) -> Seq<char> {
    match status {
        ToolCallStatus::Pending => "pending"@,
        ToolCallStatus::Running => "running"@,
        ToolCallStatus::Completed => "completed"@,
        ToolCallStatus::Failed => "failed"@,
    }
}

impl ToolCallStatus {
    pub fn as_label(&self) -> (label: &'static str)
        ensures
            label@ == tool_status_label(*self),
    {
        match self {
            ToolCallStatus::Pending => "pending",
            ToolCallStatus::Running => "running",
            ToolCallStatus::Completed => "completed",
            ToolCallStatus::Failed => "failed",
        }
    }
}

/// A tool invocation requested by the assistant.
///
/// `arguments` holds the call's arguments as a JSON value.
#[derive(Debug, Clone, PartialEq, Eq)]
pub struct ToolCall {
    pub name: String,
    pub arguments: JsonValue,
    pub status: ToolCallStatus,
}

/// A labelled progress bar.
///
/// `percent_bits` holds the IEEE-754 single-precision bits of the percentage;
/// nothing in this crate computes with it, the renderer decodes and clamps it.
#[derive(Debug, Clone, PartialEq, Eq)]
pub struct ProgressState {
    pub label: String,
    pub percent_bits: u32,
}

/// Lifecycle of a single step inside a chained reasoning trace.
#[derive(Debug, Clone, Copy, PartialEq, Eq, Structural)]
pub enum StepStatus {
    /// Not started yet.
    Pending,
    /// Currently running.
    Active,
    /// Finished successfully.
    Done,
    /// Finished with an error.
    Failed,
}

/// A single phase in a chained "thinking" trace.
#[derive(Debug, Clone, PartialEq, Eq)]
pub struct ReasoningStep {
    pub title: String,
    /// Optional secondary line (e.g. a file path, a short result).
    pub detail: Option<String>,
    pub status: StepStatus,
}

impl ReasoningStep {
    pub fn new(title: &str, status: StepStatus) -> (step: Self)
        ensures
            step.title@ == title@,
            step.detail is None,
            step.status == status,
    {
        ReasoningStep { title: String::from_str(title), detail: None, status }
    }

    pub fn with_detail(self, detail: &str) -> (step: Self)
        ensures
            step.title == self.title,
            step.status == self.status,
            step.detail matches Some(d) && d@ == detail@,
    {
        let mut step = self;
        step.detail = Some(String::from_str(detail));
        step
    }
}

/// A collapsible group of chained reasoning steps shown as a connected timeline.
#[derive(Debug, Clone, PartialEq, Eq)]
pub struct Reasoning {
    /// One-line summary shown on the collapsed header (e.g. "Thought for 4s").
    pub summary: String,
    pub steps: Vec<ReasoningStep>,
    /// Whether the panel starts collapsed.
    pub collapsed: bool,
}

/// Visual emphasis for an inline control.
#[derive(Debug, Clone, Copy, PartialEq, Eq, Structural)]
pub enum ControlStyle {
    Primary,
    Neutral,
    Danger,
    /// A borderless, background-free button.
    Ghosted,
}

impl Default for ControlStyle {
    fn default() -> (style: Self)
        ensures
            style == ControlStyle::Neutral,
    {
        ControlStyle::Neutral
    }
}

/// An option of an inline select control.
#[derive(Debug, Clone, PartialEq, Eq)]
pub struct SelectOption {
    pub value: String,
    pub label: String,
}

impl SelectOption {
    pub fn new(value: &str, label: &str) -> (option: Self)
        ensures
            option.value@ == value@,
            option.label@ == label@,
    {
        SelectOption { value: String::from_str(value), label: String::from_str(label) }
    }
}

/// A small interactive element rendered inline inside a message.
///
/// The surface is "controlled": interactions are reported as
/// [`ControlEvent`]s and the caller updates the transcript in response.
#[derive(Debug, Clone, PartialEq, Eq)]
pub enum InlineControl {
    Button { id: String, label: String, style: ControlStyle, disabled: bool },
    Select {
        id: String,
        label: Option<String>,
        options: Vec<SelectOption>,
        selected: Option<String>,
    },
    Toggle { id: String, label: String, value: bool },
}

/// The kind of interaction that produced a [`ControlEvent`].
#[derive(Debug, Clone, PartialEq, Eq)]
pub enum ControlValue {
    /// A button was clicked.
    Clicked,
    /// A select changed to the given option value.
    Selected(String),
    /// A toggle changed to the given state.
    Toggled(bool),
}

/// Emitted when the user interacts with an [`InlineControl`].
#[derive(Debug, Clone, PartialEq, Eq)]
pub struct ControlEvent {
    /// The `id` of the control that was interacted with.
    pub id: String,
    pub value: ControlValue,
}

/// Whether a piece of attached context is a file or a directory.
#[derive(Debug, Clone, Copy, PartialEq, Eq, Structural)]
pub enum ContextKind {
    File,
    Directory,
}

/// A piece of context (a file or directory) attached to the next message.
#[derive(Debug, Clone, PartialEq, Eq)]
pub struct ContextItem {
    /// Stable id used when the user removes the item.
    pub id: String,
    /// Display label, e.g. a file name or directory path.
    pub label: String,
    pub kind: ContextKind,
}

impl ContextItem {
    pub fn file(id: &str, label: &str) -> (item: Self)
        ensures
            item.id@ == id@,
            item.label@ == label@,
            item.kind == ContextKind::File,
    {
        ContextItem { id: String::from_str(id), label: String::from_str(label), kind: ContextKind::File }
    }

    pub fn directory(id: &str, label: &str) -> (item: Self)
        ensures
            item.id@ == id@,
            item.label@ == label@,
            item.kind == ContextKind::Directory,
    {
        ContextItem {
            id: String::from_str(id),
            label: String::from_str(label),
            kind: ContextKind::Directory,
        }
    }
}

/// Emitted when the user adds or removes context via the input area.
#[derive(Debug, Clone, PartialEq, Eq)]
pub enum ContextEvent {
    /// The user asked to attach file(s).
    AddFilesRequested,
    /// The user asked to add a directory as context.
    AddDirectoryRequested,
    /// The user removed the attached item with this `id`.
    Remove(String),
}

/// The role of a single line in a [`FileDiff`].
#[derive(Debug, Clone, Copy, PartialEq, Eq, Structural)]
pub enum DiffKind {
    /// An added line (prefixed `+`).
    Added,
    /// A removed line (prefixed `-`).
    Removed,
    /// An unchanged context line.
    Context,
}

/// A single line within a unified [`FileDiff`].
#[derive(Debug, Clone, PartialEq, Eq)]
pub struct DiffLine {
    pub kind: DiffKind,
    pub content: String,
}

impl DiffLine {
    pub fn added(content: &str) -> (line: Self)
        ensures
            line.kind == DiffKind::Added,
            line.content@ == content@,
    {
        DiffLine { kind: DiffKind::Added, content: String::from_str(content) }
    }

    pub fn removed(content: &str) -> (line: Self)
        ensures
            line.kind == DiffKind::Removed,
            line.content@ == content@,
    {
        DiffLine { kind: DiffKind::Removed, content: String::from_str(content) }
    }

    pub fn context(content: &str) -> (line: Self)
        ensures
            line.kind == DiffKind::Context,
            line.content@ == content@,
    {
        DiffLine { kind: DiffKind::Context, content: String::from_str(content) }
    }
}

/// A unified diff for a single file, optionally animated as it is applied.
#[derive(Debug, Clone, PartialEq, Eq)]
pub struct FileDiff {
    /// File path shown in the diff header.
    pub path: String,
    pub lines: Vec<DiffLine>,
    /// When `true`, changed lines stream in and flash on apply.
    pub animate: bool,
}

/// What a single message of a transcript carries.
#[derive(Debug, Clone, PartialEq, Eq)]
pub enum ChatMessagePayload {
    Text(String),
    Markdown(String),
    /// A chained, collapsible reasoning trace.
    Reasoning(Reasoning),
    ToolCall(ToolCall),
    ToolResult { name: String, content: String },
    Progress(ProgressState),
    /// A spinning status line with a custom label.
    Status(String),
    /// A row of inline controls.
    Controls(Vec<InlineControl>),
    /// A unified file diff.
    Diff(FileDiff),
    Typing,
    Error(String),
}

#[derive(Debug, Clone, PartialEq, Eq)]
pub struct ChatMessage {
    pub role: ChatRole,
    pub payload: ChatMessagePayload,
}

/// An ordered conversation.
#[derive(Debug, Clone, PartialEq, Eq)]
pub struct ChatTranscript {
    pub messages: Vec<ChatMessage>,
}

impl Default for ChatTranscript {
    fn default() -> (transcript: Self)
        ensures
            transcript.messages@ == Seq::<ChatMessage>::empty(),
    {
        ChatTranscript { messages: Vec::new() }
    }
}

impl ChatTranscript {
    /// Appends a message at the end of the transcript.
    pub fn push(&mut self, role: ChatRole, payload: ChatMessagePayload)
        ensures
            final(self).messages@ == old(self).messages@.push((ChatMessage { role, payload })),
    {
        self.messages.push(ChatMessage { role, payload });
    }
}

/// Which parts of the chat surface are shown and enabled.
#[derive(Debug, Clone, PartialEq, Eq)]
pub struct ChatControls {
    pub show_input: bool,
    pub show_send_button: bool,
    pub show_stop_button: bool,
    pub show_retry_button: bool,
    pub show_clear_button: bool,
    pub input_enabled: bool,
    pub placeholder: String,
    /// Show the "attach files" affordance; off by default.
    pub allow_file_attachments: bool,
    /// Show the "add directory" affordance; off by default.
    pub allow_directory_context: bool,
    /// Label for the attach-files button.
    pub attach_files_label: String,
    /// Label for the add-directory button.
    pub add_directory_label: String,
}

impl Default for ChatControls {
    fn default() -> (controls: Self)
        ensures
            controls.show_input,
            controls.show_send_button,
            controls.show_stop_button,
            controls.show_retry_button,
            controls.show_clear_button,
            controls.input_enabled,
            controls.placeholder@ == "Ask anything, or invoke a tool..."@,
            !controls.allow_file_attachments,
            !controls.allow_directory_context,
            controls.attach_files_label@ == "📎 Add files"@,
            controls.add_directory_label@ == "📁 Add folder"@,
    {
        ChatControls {
            show_input: true,
            show_send_button: true,
            show_stop_button: true,
            show_retry_button: true,
            show_clear_button: true,
            input_enabled: true,
            placeholder: String::from_str("Ask anything, or invoke a tool..."),
            allow_file_attachments: false,
            allow_directory_context: false,
            attach_files_label: String::from_str("📎 Add files"),
            add_directory_label: String::from_str("📁 Add folder"),
        }
    }
}

} // verus!
