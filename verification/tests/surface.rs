use dioxus_genai_chat::{
    context_kind_icon, control_button_class, control_style_class, count_lines_of_kind,
    decimal_string, describe_control_event, diff_kind_slug, diff_line_class, diff_line_style,
    diff_sign, message_class, option_is_selected, pretty_arguments, role_label, role_slug, shows_context_actions,
    shows_tool_spinner, step_class, step_marker, step_slug, surface_title, tool_chip_class,
    tool_step_status, ChatControls, ChatRole, ContextItem, ContextKind, ControlEvent, ControlStyle,
    ControlValue, DiffKind, DiffLine, ReasoningStep, SelectOption, StepStatus, ToolCallStatus,
};
use dioxus_genai_chat::{
    error_text_class, shows_step_spinner, tool_result_chip_class, tool_result_chip_label,
    typing_label,
};

#[test]
fn tool_status_labels() {
    assert_eq!(ToolCallStatus::Pending.as_label(), "pending");
    assert_eq!(ToolCallStatus::Running.as_label(), "running");
    assert_eq!(ToolCallStatus::Completed.as_label(), "completed");
    assert_eq!(ToolCallStatus::Failed.as_label(), "failed");
}

#[test]
fn constructors_fill_their_fields() {
    let step = ReasoningStep::new("Read", StepStatus::Active).with_detail("src/lib.rs");
    assert_eq!(step.title, "Read");
    assert_eq!(step.status, StepStatus::Active);
    assert_eq!(step.detail, Some("src/lib.rs".to_string()));
    assert_eq!(ReasoningStep::new("Plan", StepStatus::Pending).detail, None);

    let option = SelectOption::new("brief", "Brief");
    assert_eq!((option.value.as_str(), option.label.as_str()), ("brief", "Brief"));

    let file = ContextItem::file("f1", "main.rs");
    assert_eq!((file.id.as_str(), file.label.as_str(), file.kind), ("f1", "main.rs", ContextKind::File));
    let dir = ContextItem::directory("d1", "src/");
    assert_eq!((dir.id.as_str(), dir.label.as_str(), dir.kind), ("d1", "src/", ContextKind::Directory));

    assert_eq!(DiffLine::added("+x").kind, DiffKind::Added);
    assert_eq!(DiffLine::removed("y").content, "y");
    assert_eq!(DiffLine::context("z").kind, DiffKind::Context);
    assert_eq!(ControlStyle::default(), ControlStyle::Neutral);
}

#[test]
fn default_controls_keep_attachments_off() {
    let controls = ChatControls::default();
    assert!(!controls.allow_file_attachments);
    assert!(!controls.allow_directory_context);
    assert_eq!(controls.attach_files_label, "📎 Add files");
    assert_eq!(controls.add_directory_label, "📁 Add folder");
    assert!(!shows_context_actions(&controls));
    let mut with_files = controls.clone();
    with_files.allow_file_attachments = true;
    assert!(shows_context_actions(&with_files));
}

#[test]
fn names_and_markers() {
    assert_eq!(control_style_class(ControlStyle::Primary), "is-primary");
    assert_eq!(control_style_class(ControlStyle::Neutral), "");
    assert_eq!(control_style_class(ControlStyle::Danger), "is-danger is-light");
    assert_eq!(control_style_class(ControlStyle::Ghosted), "is-ghost");
    assert_eq!(diff_kind_slug(DiffKind::Removed), "removed");
    assert_eq!(diff_sign(DiffKind::Added), "+");
    assert_eq!(diff_sign(DiffKind::Context), " ");
    assert_eq!(context_kind_icon(ContextKind::Directory), "📁");
    assert_eq!(role_label(&ChatRole::Assistant), "Assistant");
    assert_eq!(role_slug(&ChatRole::Tool), "tool");
    assert_eq!(step_slug(StepStatus::Done), "done");
    assert_eq!(step_marker(StepStatus::Failed), "✕");
    assert_eq!(tool_step_status(&ToolCallStatus::Running), StepStatus::Active);
    assert_eq!(tool_step_status(&ToolCallStatus::Completed), StepStatus::Done);
}

#[test]
fn classes_of_rendered_parts() {
    assert_eq!(message_class(&ChatRole::User), "gc-msg gc-msg-user");
    assert_eq!(tool_chip_class(&ToolCallStatus::Running), "gc-chip gc-chip-active");
    assert_eq!(control_button_class(ControlStyle::Neutral), "button is-small ");
    assert_eq!(control_button_class(ControlStyle::Primary), "button is-small is-primary");
    assert_eq!(step_class(StepStatus::Pending), "gc-step gc-step-pending");
    assert_eq!(diff_line_class(DiffKind::Added, true), "gc-diff-line gc-diff-added gc-diff-animate");
    assert_eq!(diff_line_class(DiffKind::Context, false), "gc-diff-line gc-diff-context");
    assert!(shows_tool_spinner(&ToolCallStatus::Running));
    assert!(!shows_tool_spinner(&ToolCallStatus::Pending));
}

#[test]
fn tool_chips_tell_statuses_apart() {
    let all = [
        ToolCallStatus::Pending,
        ToolCallStatus::Running,
        ToolCallStatus::Completed,
        ToolCallStatus::Failed,
    ];
    for a in all {
        for b in all {
            assert_eq!(a == b, tool_chip_class(&a) == tool_chip_class(&b));
        }
    }
}

#[test]
fn diff_line_styles_stagger() {
    assert_eq!(diff_line_style(0, true), "animation-delay: 0ms");
    assert_eq!(diff_line_style(3, true), "animation-delay: 135ms");
    assert_eq!(diff_line_style(3, false), "");
    assert_eq!(decimal_string(0), "0");
    assert_eq!(decimal_string(1045), "1045");
    assert_eq!(decimal_string(usize::MAX), usize::MAX.to_string());
}

#[test]
fn diff_counts_partition_lines() {
    let lines = vec![
        DiffLine::context("a"),
        DiffLine::removed("b"),
        DiffLine::added("c"),
        DiffLine::added("d"),
        DiffLine::context("e"),
    ];
    let added = count_lines_of_kind(&lines, DiffKind::Added);
    let removed = count_lines_of_kind(&lines, DiffKind::Removed);
    let context = count_lines_of_kind(&lines, DiffKind::Context);
    assert_eq!((added, removed, context), (2, 1, 2));
    assert_eq!(added + removed + context, lines.len());
}

#[test]
fn titles_and_selection() {
    assert_eq!(surface_title(&None), "Dioxus GenAI Chat");
    assert_eq!(surface_title(&Some("Mine".to_string())), "Mine");
    assert!(option_is_selected(&Some("normal".to_string()), &"normal".to_string()));
    assert!(!option_is_selected(&Some("normal".to_string()), &"brief".to_string()));
    assert!(!option_is_selected(&None, &"brief".to_string()));
}

#[test]
fn control_events_are_described() {
    let clicked = ControlEvent { id: "accept".to_string(), value: ControlValue::Clicked };
    assert_eq!(describe_control_event(&clicked), "Last action: clicked `accept`");
    let selected = ControlEvent {
        id: "detail".to_string(),
        value: ControlValue::Selected("brief".to_string()),
    };
    assert_eq!(describe_control_event(&selected), "Last action: `detail` set to `brief`");
    let toggled = ControlEvent { id: "cite".to_string(), value: ControlValue::Toggled(false) };
    assert_eq!(describe_control_event(&toggled), "Last action: `cite` toggled off");
    let on = ControlEvent { id: "cite".to_string(), value: ControlValue::Toggled(true) };
    assert_eq!(describe_control_event(&on), "Last action: `cite` toggled on");
}

#[test]
fn tool_arguments_are_pretty_printed() {
    let arguments: serde_json::Value =
        serde_json::from_str("{\"source\":\"telemetry\",\"period\":\"24h\"}").unwrap();
    assert_eq!(
        pretty_arguments(&arguments),
        "{\n  \"source\": \"telemetry\",\n  \"period\": \"24h\"\n}"
    );
    // Values nested deeper than any parser limit are printed too.
    let mut deep = serde_json::Value::from(1);
    for _ in 0..300 {
        deep = serde_json::Value::Array(vec![deep]);
    }
    assert_eq!(pretty_arguments(&deep), serde_json::to_string_pretty(&deep).unwrap());
}

#[test]
fn small_marks_of_the_surface() {
    assert!(shows_step_spinner(StepStatus::Active));
    assert!(!shows_step_spinner(StepStatus::Done));
    assert_eq!(tool_result_chip_class(), "gc-chip gc-chip-done");
    assert_eq!(tool_result_chip_label(), "result");
    assert_eq!(error_text_class(), "has-text-danger has-text-weight-semibold");
    assert_eq!(typing_label(), "Thinking…");
}
