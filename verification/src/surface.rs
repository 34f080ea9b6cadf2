use vstd::prelude::*;

use crate::model::{
    ChatControls, ChatRole, ContextKind, ControlEvent, ControlStyle, ControlValue, DiffKind,
    DiffLine, StepStatus, ToolCallStatus, tool_status_label,
};
use crate::json::{compact_json, json_compact, json_pretty, pretty_json};
use serde_json::Value as JsonValue;
use crate::text::{decimal, decimal_string};

verus! {

// ---------------------------------------------------------------------------
// Names, classes and markers of the rendered parts.
// ---------------------------------------------------------------------------

pub open spec fn control_style_class_text(style: ControlStyle) -> Seq<char> {
    match style {
        ControlStyle::Primary => "is-primary"@,
        ControlStyle::Neutral => ""@,
        ControlStyle::Danger => "is-danger is-light"@,
        ControlStyle::Ghosted => "is-ghost"@,
    }
}

/// The Bulma modifier classes of an inline button of the given style.
pub fn control_style_class(style: ControlStyle) -> (class: &'static str)
    ensures
        class@ == control_style_class_text(style),
{
    match style {
        ControlStyle::Primary => "is-primary",
        ControlStyle::Neutral => "",
        ControlStyle::Danger => "is-danger is-light",
        ControlStyle::Ghosted => "is-ghost",
    }
}

pub open spec fn diff_kind_slug_text(kind: DiffKind) -> Seq<char> {
    match kind {
        DiffKind::Added => "added"@,
        DiffKind::Removed => "removed"@,
        DiffKind::Context => "context"@,
    }
}

/// The class suffix of a diff line of the given kind.
pub fn diff_kind_slug(kind: DiffKind) -> (slug: &'static str)
    ensures
        slug@ == diff_kind_slug_text(kind),
{
    match kind {
        DiffKind::Added => "added",
        DiffKind::Removed => "removed",
        DiffKind::Context => "context",
    }
}

pub open spec fn diff_sign_text(kind: DiffKind) -> Seq<char> {
    match kind {
        DiffKind::Added => "+"@,
        DiffKind::Removed => "-"@,
        DiffKind::Context => " "@,
    }
}

/// The gutter sign of a diff line of the given kind.
pub fn diff_sign(kind: DiffKind) -> (sign: &'static str)
    ensures
        sign@ == diff_sign_text(kind),
{
    match kind {
        DiffKind::Added => "+",
        DiffKind::Removed => "-",
        DiffKind::Context => " ",
    }
}

pub open spec fn context_kind_icon_text(kind: ContextKind) -> Seq<char> {
    match kind {
        ContextKind::File => "📄"@,
        ContextKind::Directory => "📁"@,
    }
}

/// The icon of an attached piece of context.
pub fn context_kind_icon(kind: ContextKind) -> (icon: &'static str)
    ensures
        icon@ == context_kind_icon_text(kind),
{
    match kind {
        ContextKind::File => "📄",
        ContextKind::Directory => "📁",
    }
}

pub open spec fn role_label_text(role: ChatRole) -> Seq<char> {
    match role {
        ChatRole::System => "System"@,
        ChatRole::User => "User"@,
        ChatRole::Assistant => "Assistant"@,
        ChatRole::Tool => "Tool"@,
    }
}

/// The caption shown above a message of the given role.
pub fn role_label(role: &ChatRole) -> (label: &'static str)
    ensures
        label@ == role_label_text(*role),
{
    match role {
        ChatRole::System => "System",
        ChatRole::User => "User",
        ChatRole::Assistant => "Assistant",
        ChatRole::Tool => "Tool",
    }
}

pub open spec fn role_slug_text(role: ChatRole) -> Seq<char> {
    match role {
        ChatRole::System => "system"@,
        ChatRole::User => "user"@,
        ChatRole::Assistant => "assistant"@,
        ChatRole::Tool => "tool"@,
    }
}

/// The class suffix of a message of the given role.
pub fn role_slug(role: &ChatRole) -> (slug: &'static str)
    ensures
        slug@ == role_slug_text(*role),
{
    match role {
        ChatRole::System => "system",
        ChatRole::User => "user",
        ChatRole::Assistant => "assistant",
        ChatRole::Tool => "tool",
    }
}

pub open spec fn step_slug_text(status: StepStatus) -> Seq<char> {
    match status {
        StepStatus::Pending => "pending"@,
        StepStatus::Active => "active"@,
        StepStatus::Done => "done"@,
        StepStatus::Failed => "failed"@,
    }
}

/// The class suffix of a reasoning step (and of a tool chip) of the given status.
pub fn step_slug(status: StepStatus) -> (slug: &'static str)
    ensures
        slug@ == step_slug_text(status),
{
    match status {
        StepStatus::Pending => "pending",
        StepStatus::Active => "active",
        StepStatus::Done => "done",
        StepStatus::Failed => "failed",
    }
}

pub open spec fn step_marker_text(status: StepStatus) -> Seq<char> {
    match status {
        StepStatus::Pending => "○"@,
        StepStatus::Active => "●"@,
        StepStatus::Done => "✓"@,
        StepStatus::Failed => "✕"@,
    }
}

/// The timeline marker of a reasoning step of the given status.
pub fn step_marker(status: StepStatus) -> (marker: &'static str)
    ensures
        marker@ == step_marker_text(status),
{
    match status {
        StepStatus::Pending => "○",
        StepStatus::Active => "●",
        StepStatus::Done => "✓",
        StepStatus::Failed => "✕",
    }
}

pub open spec fn tool_step(status: ToolCallStatus) -> StepStatus {
    match status {
        ToolCallStatus::Pending => StepStatus::Pending,
        ToolCallStatus::Running => StepStatus::Active,
        ToolCallStatus::Completed => StepStatus::Done,
        ToolCallStatus::Failed => StepStatus::Failed,
    }
}

/// The step status whose colours a tool call of the given status is shown in.
pub fn tool_step_status(status: &ToolCallStatus) -> (step: StepStatus)
    ensures
        step == tool_step(*status),
{
    match status {
        ToolCallStatus::Pending => StepStatus::Pending,
        ToolCallStatus::Running => StepStatus::Active,
        ToolCallStatus::Completed => StepStatus::Done,
        ToolCallStatus::Failed => StepStatus::Failed,
    }
}

// ---------------------------------------------------------------------------
// Decisions of the chat surface.
// ---------------------------------------------------------------------------

/// The title shown when the caller gives none.
pub open spec fn default_title() -> Seq<char> {
    "Dioxus GenAI Chat"@
}

/// The title of the surface: the given one, else the default.
pub fn surface_title(title: &Option<String>) -> (shown: String)
    ensures
        shown@ == (match title {
            Some(t) => t@,
            None => default_title(),
        }),
{
    match title {
        Some(t) => t.clone(),
        None => String::from_str("Dioxus GenAI Chat"),
    }
}

/// Whether the input area shows its row of context buttons.
pub fn shows_context_actions(controls: &ChatControls) -> (shown: bool)
    ensures
        shown == (controls.allow_file_attachments || controls.allow_directory_context),
{
    controls.allow_file_attachments || controls.allow_directory_context
}

fn concat(prefix: &str, suffix: &str) -> (joined: String)
    ensures
        joined@ == prefix@ + suffix@,
{
    let mut joined = String::from_str(prefix);
    joined.append(suffix);
    joined
}

/// The classes of a message of the given role.
pub fn message_class(role: &ChatRole) -> (class: String)
    ensures
        class@ == "gc-msg gc-msg-"@ + role_slug_text(*role),
{
    concat("gc-msg gc-msg-", role_slug(role))
}

/// The classes of the status chip of a tool call.
pub fn tool_chip_class(status: &ToolCallStatus) -> (class: String)
    ensures
        class@ == "gc-chip gc-chip-"@ + step_slug_text(tool_step(*status)),
{
    concat("gc-chip gc-chip-", step_slug(tool_step_status(status)))
}

/// The tool arguments as shown under a tool call: pretty-printed, or compact
/// where pretty-printing fails.
pub fn pretty_arguments(arguments: &JsonValue) -> (shown: String)
    ensures
        shown@ == (match json_pretty(*arguments) {
            Some(pretty) => pretty,
            None => json_compact(*arguments),
        }),
{
    match pretty_json(arguments) {
        Some(pretty) => pretty,
        None => compact_json(arguments),
    }
}

/// Whether a reasoning step shows a spinner in place of its marker: while it is active.
pub fn shows_step_spinner(status: StepStatus) -> (shown: bool)
    ensures
        shown == (status == StepStatus::Active),
{
    status == StepStatus::Active
}

/// The classes of the chip of a tool result: shown as a finished step.
pub fn tool_result_chip_class() -> (class: String)
    ensures
        class@ == "gc-chip gc-chip-"@ + step_slug_text(StepStatus::Done),
{
    concat("gc-chip gc-chip-", step_slug(StepStatus::Done))
}

/// The text of the chip of a tool result.
pub fn tool_result_chip_label() -> (label: &'static str)
    ensures
        label@ == "result"@,
{
    "result"
}

/// The classes of the paragraph that shows an error.
pub fn error_text_class() -> (class: &'static str)
    ensures
        class@ == "has-text-danger has-text-weight-semibold"@,
{
    "has-text-danger has-text-weight-semibold"
}

/// The text shown next to the spinner while the assistant is typing.
pub fn typing_label() -> (label: &'static str)
    ensures
        label@ == "Thinking…"@,
{
    "Thinking…"
}

/// Whether a tool call shows a spinner: while it runs.
pub fn shows_tool_spinner(status: &ToolCallStatus) -> (shown: bool)
    ensures
        shown == (*status == ToolCallStatus::Running),
{
    *status == ToolCallStatus::Running
}

/// The classes of an inline button of the given style.
pub fn control_button_class(style: ControlStyle) -> (class: String)
    ensures
        class@ == "button is-small "@ + control_style_class_text(style),
{
    concat("button is-small ", control_style_class(style))
}

/// Whether an option of a select is the selected one.
pub fn option_is_selected(selected: &Option<String>, value: &String) -> (is_selected: bool)
    ensures
        is_selected == (selected matches Some(s) && s@ == value@),
{
    match selected {
        Some(s) => *s == *value,
        None => false,
    }
}

/// The classes of a reasoning step of the given status.
pub fn step_class(status: StepStatus) -> (class: String)
    ensures
        class@ == "gc-step gc-step-"@ + step_slug_text(status),
{
    concat("gc-step gc-step-", step_slug(status))
}

/// How many lines of a diff are of the given kind.
pub open spec fn lines_of_kind(lines: Seq<DiffLine>, kind: DiffKind) -> nat
    decreases lines.len(),
{
    if lines.len() == 0 {
        0
    } else {
        lines_of_kind(lines.drop_last(), kind) + if lines.last().kind == kind {
            1nat
        } else {
            0nat
        }
    }
}

proof fn lemma_lines_of_kind_bounded(lines: Seq<DiffLine>, kind: DiffKind)
    ensures
        lines_of_kind(lines, kind) <= lines.len(),
    decreases lines.len(),
{
    if lines.len() > 0 {
        lemma_lines_of_kind_bounded(lines.drop_last(), kind);
    }
}

/// Counts the lines of a diff of the given kind (shown as `+n` and `-n`).
pub fn count_lines_of_kind(lines: &Vec<DiffLine>, kind: DiffKind) -> (count: usize)
    ensures
        count == lines_of_kind(lines@, kind),
        count == lines@.filter(has_kind(kind)).len(),
{
    proof {
        lemma_lines_of_kind_counts_matching_lines(lines@, kind);
    }
    let mut count: usize = 0;
    let mut i: usize = 0;
    while i < lines.len()
        invariant
            i <= lines.len(),
            count == lines_of_kind(lines@.take(i as int), kind),
        decreases lines.len() - i,
    {
        proof {
            assert(lines@.take(i + 1).drop_last() =~= lines@.take(i as int));
            lemma_lines_of_kind_bounded(lines@.take(i + 1), kind);
        }
        if lines[i].kind == kind {
            count = count + 1;
        }
        i = i + 1;
    }
    proof {
        assert(lines@.take(lines.len() as int) =~= lines@);
    }
    count
}

/// The classes of a diff line; animated lines also reveal and flash.
pub fn diff_line_class(kind: DiffKind, animate: bool) -> (class: String)
    ensures
        class@ == "gc-diff-line gc-diff-"@ + diff_kind_slug_text(kind) + if animate {
            " gc-diff-animate"@
        } else {
            ""@
        },
{
    let mut class = concat("gc-diff-line gc-diff-", diff_kind_slug(kind));
    if animate {
        class.append(" gc-diff-animate");
    }
    proof {
        reveal_strlit("");
    }
    class
}

/// How long each animated diff line waits after the one before it.
pub open spec fn diff_line_stagger_ms() -> nat {
    45
}

/// The inline style of the diff line at position `index`: animated lines are
/// revealed one after another, top to bottom.
pub fn diff_line_style(index: usize, animate: bool) -> (style: String)
    requires
        animate ==> index * diff_line_stagger_ms() <= usize::MAX,
    ensures
        style@ == if animate {
            "animation-delay: "@ + decimal((index * diff_line_stagger_ms()) as nat) + "ms"@
        } else {
            Seq::<char>::empty()
        },
{
    if animate {
        let mut style = String::from_str("animation-delay: ");
        let delay = decimal_string(index * 45);
        style.append(delay.as_str());
        style.append("ms");
        style
    } else {
        String::new()
    }
}

// ---------------------------------------------------------------------------
// The demo's echo of the last interaction.
// ---------------------------------------------------------------------------

/// The line that reports an interaction with an inline control.
pub open spec fn control_event_summary(event: ControlEvent) -> Seq<char> {
    "Last action: "@ + match event.value {
        ControlValue::Clicked => "clicked `"@ + event.id@ + "`"@,
        ControlValue::Selected(value) => "`"@ + event.id@ + "` set to `"@ + value@ + "`"@,
        ControlValue::Toggled(on) => "`"@ + event.id@ + "` toggled "@ + if on {
            "on"@
        } else {
            "off"@
        },
    }
}

/// Describes an interaction with an inline control.
pub fn describe_control_event(event: &ControlEvent) -> (summary: String)
    ensures
        summary@ == control_event_summary(*event),
{
    let mut summary = String::from_str("Last action: ");
    match &event.value {
        ControlValue::Clicked => {
            summary.append("clicked `");
            summary.append(event.id.as_str());
            summary.append("`");
        },
        ControlValue::Selected(value) => {
            summary.append("`");
            summary.append(event.id.as_str());
            summary.append("` set to `");
            summary.append(value.as_str());
            summary.append("`");
        },
        ControlValue::Toggled(on) => {
            summary.append("`");
            summary.append(event.id.as_str());
            summary.append("` toggled ");
            if *on {
                summary.append("on");
            } else {
                summary.append("off");
            }
        },
    }
    proof {
        assert(summary@ =~= control_event_summary(*event));
    }
    summary
}

// ---------------------------------------------------------------------------
// Laws of the rendered decisions.
// ---------------------------------------------------------------------------

/// Every line of a diff is counted once: as added, removed or context.
pub proof fn lemma_diff_kinds_partition_lines(lines: Seq<DiffLine>)
    ensures
        lines_of_kind(lines, DiffKind::Added) + lines_of_kind(lines, DiffKind::Removed)
            + lines_of_kind(lines, DiffKind::Context) == lines.len(),
    decreases lines.len(),
{
    if lines.len() > 0 {
        lemma_diff_kinds_partition_lines(lines.drop_last());
    }
}

/// Tool calls of different statuses are shown with different chips.
pub proof fn lemma_tool_chips_tell_statuses_apart(a: ToolCallStatus, b: ToolCallStatus)
    requires
        a != b,
    ensures
        step_slug_text(tool_step(a)) != step_slug_text(tool_step(b)),
{
    reveal_strlit("pending");
    reveal_strlit("active");
    reveal_strlit("done");
    reveal_strlit("failed");
    assert("pending"@[0] != "active"@[0]);
    assert("pending"@[0] != "done"@[0]);
    assert("active"@[0] != "done"@[0]);
    assert("done"@[0] != "failed"@[0]);
    assert("pending"@.len() != "failed"@.len());
    assert("active"@[0] != "failed"@[0]);
}

/// Whether a diff line is of the given kind.
pub open spec fn has_kind(kind: DiffKind) -> spec_fn(DiffLine) -> bool {
    |line: DiffLine| line.kind == kind
}

/// The count of a kind is the number of lines of that kind: the length of the
/// lines filtered by kind.
pub proof fn lemma_lines_of_kind_counts_matching_lines(lines: Seq<DiffLine>, kind: DiffKind)
    ensures
        lines_of_kind(lines, kind) == lines.filter(has_kind(kind)).len(),
    decreases lines.len(),
{
    reveal_with_fuel(Seq::<DiffLine>::filter, 1);
    if lines.len() > 0 {
        lemma_lines_of_kind_counts_matching_lines(lines.drop_last(), kind);
    }
}

/// A single line counts once for its own kind and not at all for the others,
/// and the counts of two runs of lines add up when the runs are joined.
pub proof fn lemma_lines_of_kind_adds_up(first: Seq<DiffLine>, second: Seq<DiffLine>, kind: DiffKind)
    ensures
        forall|line: DiffLine|
            #[trigger] lines_of_kind(seq![line], kind) == if line.kind == kind {
                1nat
            } else {
                0nat
            },
        lines_of_kind(first + second, kind) == lines_of_kind(first, kind) + lines_of_kind(
            second,
            kind,
        ),
    decreases second.len(),
{
    assert forall|line: DiffLine|
        #[trigger] lines_of_kind(seq![line], kind) == if line.kind == kind {
            1nat
        } else {
            0nat
        } by {
        assert(seq![line].drop_last() =~= Seq::<DiffLine>::empty());
        assert(lines_of_kind(Seq::<DiffLine>::empty(), kind) == 0);
        assert(seq![line].last() == line);
    }
    if second.len() == 0 {
        assert(first + second =~= first);
    } else {
        lemma_lines_of_kind_adds_up(first, second.drop_last(), kind);
        assert((first + second).drop_last() =~= first + second.drop_last());
    }
}

/// A tool call's chip shows its own status: pending calls as pending, running
/// calls as active, completed calls as done and failed calls as failed, and
/// no other status shows so; where a status and a step share a name, the chip
/// carries the status's own label.
pub proof fn lemma_tool_chip_names_the_status(status: ToolCallStatus)
    ensures
        (tool_step(status) == StepStatus::Pending) == (status == ToolCallStatus::Pending),
        (tool_step(status) == StepStatus::Active) == (status == ToolCallStatus::Running),
        (tool_step(status) == StepStatus::Done) == (status == ToolCallStatus::Completed),
        (tool_step(status) == StepStatus::Failed) == (status == ToolCallStatus::Failed),
        (status == ToolCallStatus::Pending || status == ToolCallStatus::Failed) ==> step_slug_text(
            tool_step(status),
        ) == tool_status_label(status),
{
}

/// The lower-case form of an ASCII letter; other characters are kept.
pub open spec fn ascii_lower(c: char) -> char {
    if 'A' <= c && c <= 'Z' {
        ((c as u32) + 32) as char
    } else {
        c
    }
}

/// A message's caption names its role: lower-cased, it is the role's class
/// suffix, and different roles get different captions and suffixes.
pub proof fn lemma_role_caption_names_the_role(role: ChatRole, other: ChatRole)
    ensures
        role_label_text(role).map_values(|c: char| ascii_lower(c)) == role_slug_text(role),
        role != other ==> role_label_text(role) != role_label_text(other),
        role != other ==> role_slug_text(role) != role_slug_text(other),
{
    reveal_strlit("System");
    reveal_strlit("User");
    reveal_strlit("Assistant");
    reveal_strlit("Tool");
    reveal_strlit("system");
    reveal_strlit("user");
    reveal_strlit("assistant");
    reveal_strlit("tool");
    assert(role_label_text(role).map_values(|c: char| ascii_lower(c)) =~= role_slug_text(role));
    assert("System"@[0] != "User"@[0] && "System"@[0] != "Assistant"@[0] && "System"@[0] != "Tool"@[0]);
    assert("User"@[0] != "Assistant"@[0] && "User"@[0] != "Tool"@[0] && "Assistant"@[0] != "Tool"@[0]);
    assert("system"@[0] != "user"@[0] && "system"@[0] != "assistant"@[0] && "system"@[0] != "tool"@[0]);
    assert("user"@[0] != "assistant"@[0] && "user"@[0] != "tool"@[0] && "assistant"@[0] != "tool"@[0]);
}

/// Each status, kind and style is shown in a mark of its own: different
/// step statuses get different classes and markers, different diff kinds
/// different classes and gutter signs, different context kinds different
/// icons, different control styles different classes, and different tool
/// statuses different labels.
pub proof fn lemma_marks_tell_apart(
    s1: StepStatus,
    s2: StepStatus,
    k1: DiffKind,
    k2: DiffKind,
    c1: ContextKind,
    c2: ContextKind,
    y1: ControlStyle,
    y2: ControlStyle,
    t1: ToolCallStatus,
    t2: ToolCallStatus,
)
    ensures
        s1 != s2 ==> step_slug_text(s1) != step_slug_text(s2),
        s1 != s2 ==> step_marker_text(s1) != step_marker_text(s2),
        k1 != k2 ==> diff_kind_slug_text(k1) != diff_kind_slug_text(k2),
        k1 != k2 ==> diff_sign_text(k1) != diff_sign_text(k2),
        c1 != c2 ==> context_kind_icon_text(c1) != context_kind_icon_text(c2),
        y1 != y2 ==> control_style_class_text(y1) != control_style_class_text(y2),
        t1 != t2 ==> tool_status_label(t1) != tool_status_label(t2),
{
    reveal_strlit("pending");
    reveal_strlit("active");
    reveal_strlit("done");
    reveal_strlit("failed");
    reveal_strlit("○");
    reveal_strlit("●");
    reveal_strlit("✓");
    reveal_strlit("✕");
    reveal_strlit("added");
    reveal_strlit("removed");
    reveal_strlit("context");
    reveal_strlit("+");
    reveal_strlit("-");
    reveal_strlit(" ");
    reveal_strlit("📄");
    reveal_strlit("📁");
    reveal_strlit("is-primary");
    reveal_strlit("");
    reveal_strlit("is-danger is-light");
    reveal_strlit("is-ghost");
    reveal_strlit("running");
    reveal_strlit("completed");
    if s1 != s2 {
        assert(step_slug_text(s1)[0] != step_slug_text(s2)[0] || step_slug_text(s1).len()
            != step_slug_text(s2).len());
        assert(step_marker_text(s1)[0] != step_marker_text(s2)[0]);
    }
    if k1 != k2 {
        assert(diff_kind_slug_text(k1)[0] != diff_kind_slug_text(k2)[0]);
        assert(diff_sign_text(k1)[0] != diff_sign_text(k2)[0]);
    }
    if c1 != c2 {
        assert(context_kind_icon_text(c1)[0] != context_kind_icon_text(c2)[0]);
    }
    if y1 != y2 {
        assert(control_style_class_text(y1).len() != control_style_class_text(y2).len()
            || control_style_class_text(y1)[3] != control_style_class_text(y2)[3]);
    }
    if t1 != t2 {
        assert(tool_status_label(t1)[0] != tool_status_label(t2)[0]);
    }
}

/// The echo of an interaction says what happened to which control: it
/// starts with `Last action: `, names the control's id between backticks, and
/// for a toggle ends with the state it was switched to.
pub proof fn lemma_event_summary_names_the_control(event: ControlEvent)
    ensures
        control_event_summary(event).subrange(0, 13) == "Last action: "@,
        exists|k: int|
            0 <= k && k + event.id@.len() + 2 <= control_event_summary(event).len()
                && #[trigger] control_event_summary(event).subrange(k, k + event.id@.len() + 2)
                == "`"@ + event.id@ + "`"@,
        event.value matches ControlValue::Toggled(on) ==> control_event_summary(event).subrange(
            control_event_summary(event).len() - (if on { 2int } else { 3int }),
            control_event_summary(event).len() as int,
        ) == if on {
            "on"@
        } else {
            "off"@
        },
{
    reveal_strlit("Last action: ");
    reveal_strlit("clicked `");
    reveal_strlit("`");
    reveal_strlit("` set to `");
    reveal_strlit("` toggled ");
    reveal_strlit("on");
    reveal_strlit("off");
    let summary = control_event_summary(event);
    let quoted = "`"@ + event.id@ + "`"@;
    let k: int = match event.value {
        ControlValue::Clicked => 21int,
        _ => 13int,
    };
    assert(summary.subrange(0, 13) =~= "Last action: "@);
    assert(summary.subrange(k, k + event.id@.len() + 2) =~= quoted);
    match event.value {
        ControlValue::Toggled(on) => {
            if on {
                assert(summary.subrange(summary.len() - 2, summary.len() as int) =~= "on"@);
            } else {
                assert(summary.subrange(summary.len() - 3, summary.len() as int) =~= "off"@);
            }
        },
        _ => {},
    }
}

} // verus!
