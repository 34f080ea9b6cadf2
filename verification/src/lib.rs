//! Data model and verified logic of a chat surface: transcripts of chat
//! messages, their conversion into a `genai` chat request, and the decisions
//! that the chat surface renders.

pub mod json;
pub mod model;
pub mod request;
pub mod sample;
pub mod surface;
pub mod text;

pub use model::{
    ChatControls, ChatMessage, ChatMessagePayload, ChatRole, ChatTranscript, ContextEvent,
    ContextItem, ContextKind, ControlEvent, ControlStyle, ControlValue, DiffKind, DiffLine,
    FileDiff, InlineControl, ProgressState, Reasoning, ReasoningStep, SelectOption, StepStatus,
    ToolCall, ToolCallStatus,
};
pub use request::{PlannedMessage, RequestPlan};
pub use sample::sample_transcript;
pub use surface::{
    context_kind_icon, control_button_class, control_style_class, count_lines_of_kind,
    describe_control_event, diff_kind_slug, error_text_class, shows_step_spinner,
    tool_result_chip_class, tool_result_chip_label, typing_label, diff_line_class, diff_line_style, diff_sign,
    message_class, option_is_selected, pretty_arguments, role_label, role_slug, shows_context_actions,
    shows_tool_spinner, step_class, step_marker, step_slug, surface_title, tool_chip_class,
    tool_step_status,
};
pub use text::decimal_string;
