//! Agent workflow components: chat messages, tool calls and their output,
//! the composer, run timelines, context, artifacts, approvals, plans and
//! patch reviews.
use vstd::prelude::*;
use crate::foundation::Intent;
use crate::text::{
    chars_of, decimal, push_char, push_decimal, str_views, string_from_range, string_views, strings_from,
    trim_chars, trim_seq,
};

verus! {

/// Who wrote a chat message.
#[derive(Clone, Copy, Debug, PartialEq, Eq, Structural)]
pub enum ChatRole {
    User,
    Assistant,
    System,
    Tool,
}

impl Default for ChatRole {
    fn default() -> (r: Self)
        ensures
            r == ChatRole::Assistant,
    {
        ChatRole::Assistant
    }
}

pub open spec fn chat_role_label_spec(role: ChatRole) -> Seq<char> {
    match role {
        ChatRole::User => "You"@,
        ChatRole::Assistant => "Assistant"@,
        ChatRole::System => "System"@,
        ChatRole::Tool => "Tool"@,
    }
}

/// The default title of a message by `role`.
pub fn chat_role_label(role: ChatRole) -> (r: &'static str)
    ensures
        r@ == chat_role_label_spec(role),
{
    match role {
        ChatRole::User => "You",
        ChatRole::Assistant => "Assistant",
        ChatRole::System => "System",
        ChatRole::Tool => "Tool",
    }
}

pub open spec fn chat_role_intent_spec(role: ChatRole) -> Intent {
    match role {
        ChatRole::User => Intent::Primary,
        ChatRole::Assistant => Intent::Secondary,
        ChatRole::System => Intent::Neutral,
        ChatRole::Tool => Intent::Info,
    }
}

/// The default intent of a message by `role`.
pub fn chat_role_intent(role: ChatRole) -> (r: Intent)
    ensures
        r == chat_role_intent_spec(role),
{
    match role {
        ChatRole::User => Intent::Primary,
        ChatRole::Assistant => Intent::Secondary,
        ChatRole::System => Intent::Neutral,
        ChatRole::Tool => Intent::Info,
    }
}

/// One message of a conversation.
#[derive(Clone, Debug)]
pub struct ChatMessage {
    pub role: ChatRole,
    pub title: String,
    pub body: String,
    pub metadata: Option<String>,
    pub intent: Intent,
    pub streaming: bool,
}

impl ChatMessage {
    /// A message titled and tinted after its role, not streaming.
    pub fn new(role: ChatRole, body: &str) -> (r: Self)
        ensures
            r.role == role,
            r.title@ == chat_role_label_spec(role),
            r.body@ == body@,
            r.metadata is None,
            r.intent == chat_role_intent_spec(role),
            !r.streaming,
    {
        ChatMessage {
            role,
            title: String::from_str(chat_role_label(role)),
            body: String::from_str(body),
            metadata: None,
            intent: chat_role_intent(role),
            streaming: false,
        }
    }

    pub fn user(body: &str) -> (r: Self)
        ensures
            r.role == ChatRole::User,
            r.title@ == "You"@,
            r.body@ == body@,
            r.metadata is None,
            r.intent == Intent::Primary,
            !r.streaming,
    {
        Self::new(ChatRole::User, body)
    }

    pub fn assistant(body: &str) -> (r: Self)
        ensures
            r.role == ChatRole::Assistant,
            r.title@ == "Assistant"@,
            r.body@ == body@,
            r.metadata is None,
            r.intent == Intent::Secondary,
            !r.streaming,
    {
        Self::new(ChatRole::Assistant, body)
    }

    pub fn system(body: &str) -> (r: Self)
        ensures
            r.role == ChatRole::System,
            r.title@ == "System"@,
            r.body@ == body@,
            r.metadata is None,
            r.intent == Intent::Neutral,
            !r.streaming,
    {
        Self::new(ChatRole::System, body)
    }

    pub fn tool(body: &str) -> (r: Self)
        ensures
            r.role == ChatRole::Tool,
            r.title@ == "Tool"@,
            r.body@ == body@,
            r.metadata is None,
            r.intent == Intent::Info,
            !r.streaming,
    {
        Self::new(ChatRole::Tool, body)
    }

    pub fn title(self, title: &str) -> (r: Self)
        ensures
            r == (ChatMessage { title: r.title, ..self }),
            r.title@ == title@,
    {
        ChatMessage { title: String::from_str(title), ..self }
    }

    pub fn metadata(self, metadata: &str) -> (r: Self)
        ensures
            r == (ChatMessage { metadata: r.metadata, ..self }),
            r.metadata matches Some(m) && m@ == metadata@,
    {
        ChatMessage { metadata: Some(String::from_str(metadata)), ..self }
    }

    pub fn intent(self, intent: Intent) -> (r: Self)
        ensures
            r == (ChatMessage { intent, ..self }),
    {
        ChatMessage { intent, ..self }
    }

    pub fn streaming(self, streaming: bool) -> (r: Self)
        ensures
            r == (ChatMessage { streaming, ..self }),
    {
        ChatMessage { streaming, ..self }
    }
}

/// The state of a tool call.
#[derive(Clone, Copy, Debug, PartialEq, Eq, Structural)]
pub enum ToolCallStatus {
    Queued,
    Running,
    Succeeded,
    Failed,
}

impl Default for ToolCallStatus {
    fn default() -> (r: Self)
        ensures
            r == ToolCallStatus::Succeeded,
    {
        ToolCallStatus::Succeeded
    }
}

pub open spec fn tool_call_intent_spec(status: ToolCallStatus) -> Intent {
    match status {
        ToolCallStatus::Queued => Intent::Neutral,
        ToolCallStatus::Running => Intent::Info,
        ToolCallStatus::Succeeded => Intent::Success,
        ToolCallStatus::Failed => Intent::Danger,
    }
}

/// The intent a tool call is tinted with.
pub fn tool_call_intent(status: ToolCallStatus) -> (r: Intent)
    ensures
        r == tool_call_intent_spec(status),
{
    match status {
        ToolCallStatus::Queued => Intent::Neutral,
        ToolCallStatus::Running => Intent::Info,
        ToolCallStatus::Succeeded => Intent::Success,
        ToolCallStatus::Failed => Intent::Danger,
    }
}

pub open spec fn tool_call_status_label_spec(status: ToolCallStatus) -> Seq<char> {
    match status {
        ToolCallStatus::Queued => "Queued"@,
        ToolCallStatus::Running => "Running"@,
        ToolCallStatus::Succeeded => "Done"@,
        ToolCallStatus::Failed => "Failed"@,
    }
}

/// The badge text of a tool call.
pub fn tool_call_status_label(status: ToolCallStatus) -> (r: &'static str)
    ensures
        r@ == tool_call_status_label_spec(status),
{
    match status {
        ToolCallStatus::Queued => "Queued",
        ToolCallStatus::Running => "Running",
        ToolCallStatus::Succeeded => "Done",
        ToolCallStatus::Failed => "Failed",
    }
}

/// A summary line of one tool invocation.
#[derive(Clone, Debug)]
pub struct ToolCall {
    pub name: String,
    pub status: ToolCallStatus,
    pub body: Option<String>,
    pub metadata: Option<String>,
}

impl ToolCall {
    /// A succeeded call without body or metadata.
    pub fn new(name: &str) -> (r: Self)
        ensures
            r.name@ == name@,
            r.status == ToolCallStatus::Succeeded,
            r.body is None,
            r.metadata is None,
    {
        ToolCall { name: String::from_str(name), status: ToolCallStatus::Succeeded, body: None, metadata: None }
    }

    pub fn status(self, status: ToolCallStatus) -> (r: Self)
        ensures
            r == (ToolCall { status, ..self }),
    {
        ToolCall { status, ..self }
    }

    pub fn body(self, body: &str) -> (r: Self)
        ensures
            r == (ToolCall { body: r.body, ..self }),
            r.body matches Some(b) && b@ == body@,
    {
        ToolCall { body: Some(String::from_str(body)), ..self }
    }

    pub fn metadata(self, metadata: &str) -> (r: Self)
        ensures
            r == (ToolCall { metadata: r.metadata, ..self }),
            r.metadata matches Some(m) && m@ == metadata@,
    {
        ToolCall { metadata: Some(String::from_str(metadata)), ..self }
    }
}

/// What a tool printed.
#[derive(Clone, Copy, Debug, PartialEq, Eq, Structural)]
pub enum ToolOutputKind {
    Text,
    Code,
    Json,
    Log,
    Error,
}

impl Default for ToolOutputKind {
    fn default() -> (r: Self)
        ensures
            r == ToolOutputKind::Text,
    {
        ToolOutputKind::Text
    }
}

pub open spec fn tool_output_intent_spec(kind: ToolOutputKind) -> Intent {
    match kind {
        ToolOutputKind::Json => Intent::Info,
        ToolOutputKind::Error => Intent::Danger,
        _ => Intent::Neutral,
    }
}

/// The intent a tool output is tinted with: JSON is informational, errors
/// are dangerous, the rest neutral.
pub fn tool_output_intent(kind: ToolOutputKind) -> (r: Intent)
    ensures
        r == tool_output_intent_spec(kind),
{
    match kind {
        ToolOutputKind::Text | ToolOutputKind::Code | ToolOutputKind::Log => Intent::Neutral,
        ToolOutputKind::Json => Intent::Info,
        ToolOutputKind::Error => Intent::Danger,
    }
}

pub open spec fn tool_output_kind_label_spec(kind: ToolOutputKind) -> Seq<char> {
    match kind {
        ToolOutputKind::Text => "Text"@,
        ToolOutputKind::Code => "Code"@,
        ToolOutputKind::Json => "JSON"@,
        ToolOutputKind::Log => "Log"@,
        ToolOutputKind::Error => "Error"@,
    }
}

/// The badge text of an output kind.
pub fn tool_output_kind_label(kind: ToolOutputKind) -> (r: &'static str)
    ensures
        r@ == tool_output_kind_label_spec(kind),
{
    match kind {
        ToolOutputKind::Text => "Text",
        ToolOutputKind::Code => "Code",
        ToolOutputKind::Json => "JSON",
        ToolOutputKind::Log => "Log",
        ToolOutputKind::Error => "Error",
    }
}

/// A titled block of tool output.
#[derive(Clone, Debug)]
pub struct ToolOutput {
    pub title: String,
    pub body: String,
    pub kind: ToolOutputKind,
    pub metadata: Option<String>,
}

impl ToolOutput {
    pub fn new(title: &str, body: &str) -> (r: Self)
        ensures
            r.title@ == title@,
            r.body@ == body@,
            r.kind == ToolOutputKind::Text,
            r.metadata is None,
    {
        ToolOutput { title: String::from_str(title), body: String::from_str(body), kind: ToolOutputKind::Text, metadata: None }
    }

    pub fn kind(self, kind: ToolOutputKind) -> (r: Self)
        ensures
            r == (ToolOutput { kind, ..self }),
    {
        ToolOutput { kind, ..self }
    }

    pub fn metadata(self, metadata: &str) -> (r: Self)
        ensures
            r == (ToolOutput { metadata: r.metadata, ..self }),
            r.metadata matches Some(m) && m@ == metadata@,
    {
        ToolOutput { metadata: Some(String::from_str(metadata)), ..self }
    }
}

/// `text` without the line break that the Enter key that sent it typed:
/// one trailing "\n", and a "\r" before it.
pub open spec fn without_submit_newline(text: Seq<char>) -> Seq<char> {
    if text.len() > 0 && text.last() == '\n' {
        let t = text.drop_last();
        if t.len() > 0 && t.last() == '\r' {
            t.drop_last()
        } else {
            t
        }
    } else {
        text
    }
}

/// Removes the line break that submitting with Enter left in `text`.
pub fn trim_submitted_newline(text: &mut String)
    ensures
        final(text)@ == without_submit_newline(old(text)@),
{
    let cs = chars_of(text.as_str());
    let n = cs.len();
    if n > 0 && cs[n - 1] == '\n' {
        let keep = if n > 1 && cs[n - 2] == '\r' { n - 2 } else { n - 1 };
        let trimmed = string_from_range(&cs, 0, keep);
        proof {
            let t = cs@.drop_last();
            if n > 1 && cs@[n - 2] == '\r' {
                assert(trimmed@ =~= t.drop_last());
            } else {
                assert(trimmed@ =~= t);
            }
        }
        *text = trimmed;
    }
}

/// The composer's text holds something besides white space.
pub open spec fn has_text_spec(text: Seq<char>) -> bool {
    trim_seq(text).len() > 0
}

/// What the user did in a frame of the composer.
#[derive(Clone, Copy, Debug, PartialEq, Eq, Structural)]
pub struct ComposerInput {
    /// The text field has the keyboard focus.
    pub focused: bool,
    /// Enter went down with no Shift, Command or Ctrl held.
    pub plain_enter: bool,
    pub send_clicked: bool,
    pub stop_clicked: bool,
    pub attachment_clicked: bool,
    pub tool_clicked: bool,
    pub model_changed: bool,
}

/// What the composer reports for a frame.
#[derive(Clone, Copy, Debug, PartialEq, Eq, Structural)]
pub struct AgentComposerResponse {
    pub submitted: bool,
    pub stopped: bool,
    pub attachment_clicked: bool,
    pub tool_clicked: bool,
    pub model_changed: bool,
}

impl Default for AgentComposerResponse {
    fn default() -> (r: Self)
        ensures
            r == (AgentComposerResponse {
                submitted: false,
                stopped: false,
                attachment_clicked: false,
                tool_clicked: false,
                model_changed: false,
            }),
    {
        AgentComposerResponse { submitted: false, stopped: false, attachment_clicked: false, tool_clicked: false, model_changed: false }
    }
}

/// The prompt box of an agent: a multi-line text, a send or stop button
/// and optional attachment, tool and model controls.
#[derive(Debug)]
pub struct AgentComposer<'a> {
    pub text: &'a mut String,
    pub placeholder: String,
    pub send_label: String,
    pub stop_label: String,
    pub secondary_label: Option<String>,
    pub tool_label: Option<String>,
    pub model_label: Option<String>,
    pub model_options: Vec<String>,
    pub selected_model: Option<&'a mut usize>,
    pub rows: usize,
    pub enabled: bool,
    pub loading: bool,
}

impl<'a> AgentComposer<'a> {
    /// A composer of three rows, enabled, labelled "Send" and "Stop".
    pub fn new(text: &'a mut String) -> (r: Self)
        ensures
            *r.text == *old(text),
            *final(text) == *final(r.text),
            r.placeholder@ == "Ask the agent to do something..."@,
            r.send_label@ == "Send"@,
            r.stop_label@ == "Stop"@,
            r.secondary_label is None,
            r.tool_label is None,
            r.model_label is None,
            r.model_options@.len() == 0,
            r.selected_model is None,
            r.rows == 3,
            r.enabled,
            !r.loading,
    {
        AgentComposer {
            text,
            placeholder: String::from_str("Ask the agent to do something..."),
            send_label: String::from_str("Send"),
            stop_label: String::from_str("Stop"),
            secondary_label: None,
            tool_label: None,
            model_label: None,
            model_options: Vec::new(),
            selected_model: None,
            rows: 3,
            enabled: true,
            loading: false,
        }
    }

    pub fn placeholder(self, placeholder: &str) -> (r: Self)
        ensures
            r == (AgentComposer { placeholder: r.placeholder, ..self }),
            *final(r.text) == *final(self.text),
            r.placeholder@ == placeholder@,
    {
        AgentComposer { placeholder: String::from_str(placeholder), ..self }
    }

    pub fn send_label(self, label: &str) -> (r: Self)
        ensures
            r == (AgentComposer { send_label: r.send_label, ..self }),
            *final(r.text) == *final(self.text),
            r.send_label@ == label@,
    {
        AgentComposer { send_label: String::from_str(label), ..self }
    }

    pub fn stop_label(self, label: &str) -> (r: Self)
        ensures
            r == (AgentComposer { stop_label: r.stop_label, ..self }),
            *final(r.text) == *final(self.text),
            r.stop_label@ == label@,
    {
        AgentComposer { stop_label: String::from_str(label), ..self }
    }

    pub fn secondary_label(self, label: &str) -> (r: Self)
        ensures
            r == (AgentComposer { secondary_label: r.secondary_label, ..self }),
            *final(r.text) == *final(self.text),
            r.secondary_label matches Some(l) && l@ == label@,
    {
        AgentComposer { secondary_label: Some(String::from_str(label)), ..self }
    }

    /// Another name for `secondary_label`.
    pub fn attachment_label(self, label: &str) -> (r: Self)
        ensures
            r == (AgentComposer { secondary_label: r.secondary_label, ..self }),
            *final(r.text) == *final(self.text),
            r.secondary_label matches Some(l) && l@ == label@,
    {
        self.secondary_label(label)
    }

    pub fn tool_label(self, label: &str) -> (r: Self)
        ensures
            r == (AgentComposer { tool_label: r.tool_label, ..self }),
            *final(r.text) == *final(self.text),
            r.tool_label matches Some(l) && l@ == label@,
    {
        AgentComposer { tool_label: Some(String::from_str(label)), ..self }
    }

    /// Adds a model picker bound to `selected_model` over `options`.
    pub fn model_selector(self, selected_model: &'a mut usize, options: &[&str]) -> (r: Self)
        ensures
            r.text == self.text,
            *final(r.text) == *final(self.text),
            r.placeholder == self.placeholder,
            r.send_label == self.send_label,
            r.stop_label == self.stop_label,
            r.secondary_label == self.secondary_label,
            r.tool_label == self.tool_label,
            r.model_label == self.model_label,
            string_views(r.model_options@) == str_views(options@),
            r.selected_model matches Some(m) && *m == *old(selected_model) && *final(selected_model) == *final(m),
            r.rows == self.rows,
            r.enabled == self.enabled,
            r.loading == self.loading,
    {
        AgentComposer { selected_model: Some(selected_model), model_options: strings_from(options), ..self }
    }

    pub fn model_label(self, label: &str) -> (r: Self)
        ensures
            r == (AgentComposer { model_label: r.model_label, ..self }),
            *final(r.text) == *final(self.text),
            r.model_label matches Some(l) && l@ == label@,
    {
        AgentComposer { model_label: Some(String::from_str(label)), ..self }
    }

    /// The height in rows; at least two.
    pub fn rows(self, rows: usize) -> (r: Self)
        ensures
            r == (AgentComposer { rows: if rows < 2 { 2 } else { rows }, ..self }),
            *final(r.text) == *final(self.text),
    {
        AgentComposer { rows: if rows < 2 { 2 } else { rows }, ..self }
    }

    pub fn enabled(self, enabled: bool) -> (r: Self)
        ensures
            r == (AgentComposer { enabled, ..self }),
            *final(r.text) == *final(self.text),
    {
        AgentComposer { enabled, ..self }
    }

    pub fn disabled(self) -> (r: Self)
        ensures
            r == (AgentComposer { enabled: false, ..self }),
            *final(r.text) == *final(self.text),
    {
        AgentComposer { enabled: false, ..self }
    }

    pub fn loading(self, loading: bool) -> (r: Self)
        ensures
            r == (AgentComposer { loading, ..self }),
            *final(r.text) == *final(self.text),
    {
        AgentComposer { loading, ..self }
    }

    /// The text holds more than white space.
    pub fn has_text(&self) -> (r: bool)
        ensures
            r == has_text_spec(old(self.text)@),
    {
        trim_chars(self.text.as_str()).len() > 0
    }

    /// The send button takes clicks: enabled with text to send.
    pub fn can_send(&self) -> (r: bool)
        ensures
            r == (self.enabled && has_text_spec(old(self.text)@)),
    {
        self.enabled && self.has_text()
    }

    /// One frame of the composer. Enter in the focused field sends an
    /// enabled, idle composer that has text, and the line break it typed is
    /// removed; the send button sends while idle and clickable; the stop
    /// button, shown while loading, stops; the model picker is only shown
    /// with options.
    pub fn respond(self, input: ComposerInput) -> (r: AgentComposerResponse)
        ensures
            ({
                let shortcut = self.enabled && has_text_spec(old(self.text)@) && !self.loading
                    && input.focused && input.plain_enter;
                &&& r.submitted == (shortcut || (!self.loading && self.enabled && has_text_spec(old(self.text)@)
                    && input.send_clicked))
                &&& r.stopped == (self.loading && input.stop_clicked)
                &&& r.attachment_clicked == (self.secondary_label is Some && input.attachment_clicked)
                &&& r.tool_clicked == (self.tool_label is Some && input.tool_clicked)
                &&& r.model_changed == (self.selected_model is Some && self.model_options@.len() > 0
                    && input.model_changed)
                &&& final(self.text)@ == if shortcut {
                    without_submit_newline(old(self.text)@)
                } else {
                    old(self.text)@
                }
                &&& self.selected_model matches Some(m) ==> *final(m) == *m
            }),
    {
        let has_text = self.has_text();
        let shortcut = self.enabled && has_text && !self.loading && input.focused && input.plain_enter;
        if shortcut {
            trim_submitted_newline(self.text);
        }
        let send_clicked = !self.loading && self.enabled && has_text && input.send_clicked;
        let model_shown = match &self.selected_model {
            Some(_) => self.model_options.len() > 0,
            None => false,
        };
        AgentComposerResponse {
            submitted: shortcut || send_clicked,
            stopped: self.loading && input.stop_clicked,
            attachment_clicked: self.secondary_label.is_some() && input.attachment_clicked,
            tool_clicked: self.tool_label.is_some() && input.tool_clicked,
            model_changed: model_shown && input.model_changed,
        }
    }
}

/// A column of chat messages, spaced normally or compactly.
#[derive(Clone, Copy, Debug, PartialEq, Eq, Structural)]
pub struct MessageThread {
    pub compact: bool,
}

impl MessageThread {
    pub fn new() -> (r: Self)
        ensures
            !r.compact,
    {
        MessageThread { compact: false }
    }

    pub fn compact(self, compact: bool) -> (r: Self)
        ensures
            r.compact == compact,
    {
        MessageThread { compact }
    }
}

impl Default for MessageThread {
    fn default() -> (r: Self)
        ensures
            !r.compact,
    {
        MessageThread::new()
    }
}

/// A collapsible tool call with its arguments and a preview of its output.
#[derive(Debug)]
pub struct ToolCallBlock<'a> {
    pub name: String,
    pub status: ToolCallStatus,
    pub arguments: Option<String>,
    pub elapsed: Option<String>,
    pub preview: Option<String>,
    pub open: &'a mut bool,
}

impl<'a> ToolCallBlock<'a> {
    /// A queued call bound to the open flag `open`.
    pub fn new(name: &str, open: &'a mut bool) -> (r: Self)
        ensures
            r.name@ == name@,
            r.status == ToolCallStatus::Queued,
            r.arguments is None,
            r.elapsed is None,
            r.preview is None,
            *r.open == *old(open),
            *final(open) == *final(r.open),
    {
        ToolCallBlock { name: String::from_str(name), status: ToolCallStatus::Queued, arguments: None, elapsed: None, preview: None, open }
    }

    pub fn status(self, status: ToolCallStatus) -> (r: Self)
        ensures
            r == (ToolCallBlock { status, ..self }),
            *final(r.open) == *final(self.open),
    {
        ToolCallBlock { status, ..self }
    }

    pub fn arguments(self, arguments: &str) -> (r: Self)
        ensures
            r == (ToolCallBlock { arguments: r.arguments, ..self }),
            *final(r.open) == *final(self.open),
            r.arguments matches Some(a) && a@ == arguments@,
    {
        ToolCallBlock { arguments: Some(String::from_str(arguments)), ..self }
    }

    pub fn elapsed(self, elapsed: &str) -> (r: Self)
        ensures
            r == (ToolCallBlock { elapsed: r.elapsed, ..self }),
            *final(r.open) == *final(self.open),
            r.elapsed matches Some(e) && e@ == elapsed@,
    {
        ToolCallBlock { elapsed: Some(String::from_str(elapsed)), ..self }
    }

    pub fn preview(self, preview: &str) -> (r: Self)
        ensures
            r == (ToolCallBlock { preview: r.preview, ..self }),
            *final(r.open) == *final(self.open),
            r.preview matches Some(p) && p@ == preview@,
    {
        ToolCallBlock { preview: Some(String::from_str(preview)), ..self }
    }

    /// The caret before the name: "v" when open, ">" when closed.
    pub fn caret(&self) -> (r: &'static str)
        ensures
            r@ == if *old(self.open) { "v"@ } else { ">"@ },
    {
        if *self.open { "v" } else { ">" }
    }

    /// A click on the header opens a closed block and closes an open one.
    pub fn click_header(self)
        ensures
            *final(self.open) == !*old(self.open),
    {
        *self.open = !*self.open;
    }

    /// The preview is shown: the block is open and has one.
    pub fn shows_preview(&self) -> (r: bool)
        ensures
            r == (*old(self.open) && self.preview is Some),
    {
        *self.open && self.preview.is_some()
    }
}

/// The stage of an agent run that a timeline entry belongs to.
#[derive(Clone, Copy, Debug, PartialEq, Eq, Structural)]
pub enum RunPhase {
    Planning,
    ToolCall,
    Patch,
    Test,
    Review,
    FinalResponse,
}

impl Default for RunPhase {
    fn default() -> (r: Self)
        ensures
            r == RunPhase::Planning,
    {
        RunPhase::Planning
    }
}

pub open spec fn run_phase_label_spec(phase: RunPhase) -> Seq<char> {
    match phase {
        RunPhase::Planning => "Plan"@,
        RunPhase::ToolCall => "Tool"@,
        RunPhase::Patch => "Patch"@,
        RunPhase::Test => "Test"@,
        RunPhase::Review => "Review"@,
        RunPhase::FinalResponse => "Final"@,
    }
}

/// The short name of a phase.
pub fn run_phase_label(phase: RunPhase) -> (r: &'static str)
    ensures
        r@ == run_phase_label_spec(phase),
{
    match phase {
        RunPhase::Planning => "Plan",
        RunPhase::ToolCall => "Tool",
        RunPhase::Patch => "Patch",
        RunPhase::Test => "Test",
        RunPhase::Review => "Review",
        RunPhase::FinalResponse => "Final",
    }
}

/// One entry of a run timeline.
#[derive(Clone, Debug)]
pub struct RunTimelineItem {
    pub title: String,
    pub detail: Option<String>,
    pub phase: RunPhase,
    pub status: ToolCallStatus,
    pub metadata: Option<String>,
}

impl RunTimelineItem {
    pub fn new(phase: RunPhase, title: &str) -> (r: Self)
        ensures
            r.title@ == title@,
            r.detail is None,
            r.phase == phase,
            r.status == ToolCallStatus::Succeeded,
            r.metadata is None,
    {
        RunTimelineItem { title: String::from_str(title), detail: None, phase, status: ToolCallStatus::Succeeded, metadata: None }
    }

    pub fn detail(self, detail: &str) -> (r: Self)
        ensures
            r == (RunTimelineItem { detail: r.detail, ..self }),
            r.detail matches Some(d) && d@ == detail@,
    {
        RunTimelineItem { detail: Some(String::from_str(detail)), ..self }
    }

    pub fn status(self, status: ToolCallStatus) -> (r: Self)
        ensures
            r == (RunTimelineItem { status, ..self }),
    {
        RunTimelineItem { status, ..self }
    }

    pub fn metadata(self, metadata: &str) -> (r: Self)
        ensures
            r == (RunTimelineItem { metadata: r.metadata, ..self }),
            r.metadata matches Some(m) && m@ == metadata@,
    {
        RunTimelineItem { metadata: Some(String::from_str(metadata)), ..self }
    }
}

/// The entries of an agent run, in order.
#[derive(Clone, Debug)]
pub struct RunTimeline {
    pub items: Vec<RunTimelineItem>,
}

impl RunTimeline {
    pub fn new() -> (r: Self)
        ensures
            r.items@.len() == 0,
    {
        RunTimeline { items: Vec::new() }
    }

    /// Appends an entry.
    pub fn item(self, item: RunTimelineItem) -> (r: Self)
        ensures
            r.items@ == self.items@.push(item),
    {
        let mut items = self.items;
        items.push(item);
        RunTimeline { items }
    }
}

impl Default for RunTimeline {
    fn default() -> (r: Self)
        ensures
            r.items@.len() == 0,
    {
        RunTimeline::new()
    }
}

/// A panel of program output, wrapped or not, with a copy button or not.
#[derive(Clone, Debug)]
pub struct CodeOutputPanel {
    pub title: String,
    pub body: String,
    pub kind: ToolOutputKind,
    pub metadata: Option<String>,
    pub wrap: bool,
    pub copy: bool,
}

impl CodeOutputPanel {
    /// A wrapped log panel with a copy button.
    pub fn new(title: &str, body: &str) -> (r: Self)
        ensures
            r.title@ == title@,
            r.body@ == body@,
            r.kind == ToolOutputKind::Log,
            r.metadata is None,
            r.wrap,
            r.copy,
    {
        CodeOutputPanel { title: String::from_str(title), body: String::from_str(body), kind: ToolOutputKind::Log, metadata: None, wrap: true, copy: true }
    }

    pub fn kind(self, kind: ToolOutputKind) -> (r: Self)
        ensures
            r == (CodeOutputPanel { kind, ..self }),
    {
        CodeOutputPanel { kind, ..self }
    }

    pub fn metadata(self, metadata: &str) -> (r: Self)
        ensures
            r == (CodeOutputPanel { metadata: r.metadata, ..self }),
            r.metadata matches Some(m) && m@ == metadata@,
    {
        CodeOutputPanel { metadata: Some(String::from_str(metadata)), ..self }
    }

    pub fn wrap(self, wrap: bool) -> (r: Self)
        ensures
            r == (CodeOutputPanel { wrap, ..self }),
    {
        CodeOutputPanel { wrap, ..self }
    }

    pub fn copy(self, copy: bool) -> (r: Self)
        ensures
            r == (CodeOutputPanel { copy, ..self }),
    {
        CodeOutputPanel { copy, ..self }
    }
}

/// A number of tokens as a context panel shows it: whole millions with
/// "m", whole thousands with "k", smaller numbers in full.
pub open spec fn compact_number_spec(value: nat) -> Seq<char> {
    if value >= 1_000_000 {
        decimal(value / 1_000_000).push('m')
    } else if value >= 1_000 {
        decimal(value / 1_000).push('k')
    } else {
        decimal(value)
    }
}

pub fn compact_number(value: usize) -> (r: String)
    ensures
        r@ == compact_number_spec(value as nat),
{
    let mut out = String::new();
    if value >= 1_000_000 {
        push_decimal(&mut out, (value / 1_000_000) as u64);
        push_char(&mut out, 'm');
    } else if value >= 1_000 {
        push_decimal(&mut out, (value / 1_000) as u64);
        push_char(&mut out, 'k');
    } else {
        push_decimal(&mut out, value as u64);
    }
    out
}

/// One entry of a context panel.
#[derive(Clone, Debug)]
pub struct ContextItem {
    pub label: String,
    pub detail: String,
    pub tokens: Option<usize>,
    pub intent: Intent,
}

impl ContextItem {
    pub fn new(label: &str, detail: &str) -> (r: Self)
        ensures
            r.label@ == label@,
            r.detail@ == detail@,
            r.tokens is None,
            r.intent == Intent::Neutral,
    {
        ContextItem { label: String::from_str(label), detail: String::from_str(detail), tokens: None, intent: Intent::Neutral }
    }

    pub fn tokens(self, tokens: usize) -> (r: Self)
        ensures
            r == (ContextItem { tokens: Some(tokens), ..self }),
    {
        ContextItem { tokens: Some(tokens), ..self }
    }

    pub fn intent(self, intent: Intent) -> (r: Self)
        ensures
            r == (ContextItem { intent, ..self }),
    {
        ContextItem { intent, ..self }
    }
}

/// How much of a model's context window is in use, and by what.
#[derive(Clone, Debug)]
pub struct ContextPanel {
    pub title: String,
    pub used: usize,
    pub capacity: usize,
    pub window_count: Option<usize>,
    pub auto_compact_at: Option<usize>,
    pub items: Vec<ContextItem>,
}

impl ContextPanel {
    /// A panel titled "Context"; the capacity is at least one.
    pub fn new(used: usize, capacity: usize) -> (r: Self)
        ensures
            r.title@ == "Context"@,
            r.used == used,
            r.capacity == if capacity < 1 { 1 } else { capacity },
            r.window_count is None,
            r.auto_compact_at is None,
            r.items@.len() == 0,
    {
        ContextPanel {
            title: String::from_str("Context"),
            used,
            capacity: if capacity < 1 { 1 } else { capacity },
            window_count: None,
            auto_compact_at: None,
            items: Vec::new(),
        }
    }

    pub fn title(self, title: &str) -> (r: Self)
        ensures
            r == (ContextPanel { title: r.title, ..self }),
            r.title@ == title@,
    {
        ContextPanel { title: String::from_str(title), ..self }
    }

    pub fn window_count(self, count: usize) -> (r: Self)
        ensures
            r == (ContextPanel { window_count: Some(count), ..self }),
    {
        ContextPanel { window_count: Some(count), ..self }
    }

    pub fn auto_compact_at(self, count: usize) -> (r: Self)
        ensures
            r == (ContextPanel { auto_compact_at: Some(count), ..self }),
    {
        ContextPanel { auto_compact_at: Some(count), ..self }
    }

    /// Appends an entry.
    pub fn item(self, item: ContextItem) -> (r: Self)
        ensures
            r == (ContextPanel { items: r.items, ..self }),
            r.items@ == self.items@.push(item),
    {
        let ContextPanel { title, used, capacity, window_count, auto_compact_at, items } = self;
        let mut items = items;
        items.push(item);
        ContextPanel { title, used, capacity, window_count, auto_compact_at, items }
    }

    /// The usage badge: "<used> / <capacity>" in compact numbers.
    pub fn usage_label(&self) -> (r: String)
        ensures
            r@ == compact_number_spec(self.used as nat) + " / "@ + compact_number_spec(self.capacity as nat),
    {
        let mut out = compact_number(self.used);
        push_char(&mut out, ' ');
        push_char(&mut out, '/');
        push_char(&mut out, ' ');
        let cap = compact_number(self.capacity);
        out.append(cap.as_str());
        proof {
            reveal_strlit(" / ");
        }
        out
    }

    /// The footer note of how many items are in the window, when set.
    pub fn window_label(&self) -> (r: Option<String>)
        ensures
            match self.window_count {
                Some(n) => r matches Some(l) && l@ == decimal(n as nat) + " in window"@,
                None => r is None,
            },
    {
        match self.window_count {
            Some(n) => {
                let mut out = String::new();
                push_decimal(&mut out, n as u64);
                out.append(" in window");
                Some(out)
            },
            None => None,
        }
    }

    /// The footer note of when the context compacts itself, when set.
    pub fn auto_compact_label(&self) -> (r: Option<String>)
        ensures
            match self.auto_compact_at {
                Some(n) => r matches Some(l) && l@ == "Auto-compacts at "@ + decimal(n as nat),
                None => r is None,
            },
    {
        match self.auto_compact_at {
            Some(n) => {
                let mut out = String::from_str("Auto-compacts at ");
                push_decimal(&mut out, n as u64);
                Some(out)
            },
            None => None,
        }
    }
}

/// What the user did with an artifact card.
#[derive(Clone, Copy, Debug, PartialEq, Eq, Structural)]
pub struct ArtifactCardResponse {
    pub opened: bool,
    pub copied: bool,
    pub approved: bool,
    pub rejected: bool,
}

impl Default for ArtifactCardResponse {
    fn default() -> (r: Self)
        ensures
            r == (ArtifactCardResponse { opened: false, copied: false, approved: false, rejected: false }),
    {
        ArtifactCardResponse { opened: false, copied: false, approved: false, rejected: false }
    }
}

/// A produced document or file, with actions on it.
#[derive(Clone, Debug)]
pub struct ArtifactCard {
    pub title: String,
    pub description: Option<String>,
    pub kind: String,
    pub metadata: Option<String>,
    pub intent: Intent,
}

impl ArtifactCard {
    /// A neutral card of the kind "Artifact".
    pub fn new(title: &str) -> (r: Self)
        ensures
            r.title@ == title@,
            r.description is None,
            r.kind@ == "Artifact"@,
            r.metadata is None,
            r.intent == Intent::Neutral,
    {
        ArtifactCard { title: String::from_str(title), description: None, kind: String::from_str("Artifact"), metadata: None, intent: Intent::Neutral }
    }

    pub fn description(self, description: &str) -> (r: Self)
        ensures
            r == (ArtifactCard { description: r.description, ..self }),
            r.description matches Some(d) && d@ == description@,
    {
        ArtifactCard { description: Some(String::from_str(description)), ..self }
    }

    pub fn kind(self, kind: &str) -> (r: Self)
        ensures
            r == (ArtifactCard { kind: r.kind, ..self }),
            r.kind@ == kind@,
    {
        ArtifactCard { kind: String::from_str(kind), ..self }
    }

    pub fn metadata(self, metadata: &str) -> (r: Self)
        ensures
            r == (ArtifactCard { metadata: r.metadata, ..self }),
            r.metadata matches Some(m) && m@ == metadata@,
    {
        ArtifactCard { metadata: Some(String::from_str(metadata)), ..self }
    }

    pub fn intent(self, intent: Intent) -> (r: Self)
        ensures
            r == (ArtifactCard { intent, ..self }),
    {
        ArtifactCard { intent, ..self }
    }
}

/// What the user answered an approval panel.
#[derive(Clone, Copy, Debug, PartialEq, Eq, Structural)]
pub struct ApprovalPanelResponse {
    pub approved: bool,
    pub cancelled: bool,
}

impl Default for ApprovalPanelResponse {
    fn default() -> (r: Self)
        ensures
            r == (ApprovalPanelResponse { approved: false, cancelled: false }),
    {
        ApprovalPanelResponse { approved: false, cancelled: false }
    }
}

/// A request for the user's approval of an action, with its impact and
/// risk.
#[derive(Clone, Debug)]
pub struct ApprovalPanel {
    pub title: String,
    pub impact: String,
    pub risk: Option<String>,
    pub primary_label: String,
    pub secondary_label: String,
    pub intent: Intent,
}

impl ApprovalPanel {
    /// A primary panel with the buttons "Approve" and "Cancel".
    pub fn new(title: &str, impact: &str) -> (r: Self)
        ensures
            r.title@ == title@,
            r.impact@ == impact@,
            r.risk is None,
            r.primary_label@ == "Approve"@,
            r.secondary_label@ == "Cancel"@,
            r.intent == Intent::Primary,
    {
        ApprovalPanel {
            title: String::from_str(title),
            impact: String::from_str(impact),
            risk: None,
            primary_label: String::from_str("Approve"),
            secondary_label: String::from_str("Cancel"),
            intent: Intent::Primary,
        }
    }

    pub fn risk(self, risk: &str) -> (r: Self)
        ensures
            r == (ApprovalPanel { risk: r.risk, ..self }),
            r.risk matches Some(k) && k@ == risk@,
    {
        ApprovalPanel { risk: Some(String::from_str(risk)), ..self }
    }

    pub fn primary_label(self, label: &str) -> (r: Self)
        ensures
            r == (ApprovalPanel { primary_label: r.primary_label, ..self }),
            r.primary_label@ == label@,
    {
        ApprovalPanel { primary_label: String::from_str(label), ..self }
    }

    pub fn secondary_label(self, label: &str) -> (r: Self)
        ensures
            r == (ApprovalPanel { secondary_label: r.secondary_label, ..self }),
            r.secondary_label@ == label@,
    {
        ApprovalPanel { secondary_label: String::from_str(label), ..self }
    }

    pub fn intent(self, intent: Intent) -> (r: Self)
        ensures
            r == (ApprovalPanel { intent, ..self }),
    {
        ApprovalPanel { intent, ..self }
    }
}

/// The state of a plan step.
#[derive(Clone, Copy, Debug, PartialEq, Eq, Structural)]
pub enum PlanStepStatus {
    Pending,
    Active,
    Done,
    Blocked,
}

impl Default for PlanStepStatus {
    fn default() -> (r: Self)
        ensures
            r == PlanStepStatus::Pending,
    {
        PlanStepStatus::Pending
    }
}

pub open spec fn plan_status_label_spec(status: PlanStepStatus) -> Seq<char> {
    match status {
        PlanStepStatus::Pending => "Pending"@,
        PlanStepStatus::Active => "Active"@,
        PlanStepStatus::Done => "Done"@,
        PlanStepStatus::Blocked => "Blocked"@,
    }
}

/// The text shown beside a step.
pub fn plan_status_label(status: PlanStepStatus) -> (r: &'static str)
    ensures
        r@ == plan_status_label_spec(status),
{
    match status {
        PlanStepStatus::Pending => "Pending",
        PlanStepStatus::Active => "Active",
        PlanStepStatus::Done => "Done",
        PlanStepStatus::Blocked => "Blocked",
    }
}

pub open spec fn plan_status_intent_spec(status: PlanStepStatus) -> Intent {
    match status {
        PlanStepStatus::Pending => Intent::Neutral,
        PlanStepStatus::Active => Intent::Info,
        PlanStepStatus::Done => Intent::Success,
        PlanStepStatus::Blocked => Intent::Warning,
    }
}

/// The intent a step is tinted with.
pub fn plan_status_intent(status: PlanStepStatus) -> (r: Intent)
    ensures
        r == plan_status_intent_spec(status),
{
    match status {
        PlanStepStatus::Pending => Intent::Neutral,
        PlanStepStatus::Active => Intent::Info,
        PlanStepStatus::Done => Intent::Success,
        PlanStepStatus::Blocked => Intent::Warning,
    }
}

/// The deepest indentation a plan step takes.
pub const MAX_PLAN_DEPTH: usize = 3;

/// One step of a plan, indented by its depth.
#[derive(Clone, Debug)]
pub struct PlanStep {
    pub title: String,
    pub detail: Option<String>,
    pub status: PlanStepStatus,
    pub depth: usize,
}

impl PlanStep {
    pub fn new(title: &str) -> (r: Self)
        ensures
            r.title@ == title@,
            r.detail is None,
            r.status == PlanStepStatus::Pending,
            r.depth == 0,
    {
        PlanStep { title: String::from_str(title), detail: None, status: PlanStepStatus::Pending, depth: 0 }
    }

    pub fn detail(self, detail: &str) -> (r: Self)
        ensures
            r == (PlanStep { detail: r.detail, ..self }),
            r.detail matches Some(d) && d@ == detail@,
    {
        PlanStep { detail: Some(String::from_str(detail)), ..self }
    }

    pub fn status(self, status: PlanStepStatus) -> (r: Self)
        ensures
            r == (PlanStep { status, ..self }),
    {
        PlanStep { status, ..self }
    }

    /// The indentation level, capped at `MAX_PLAN_DEPTH`.
    pub fn depth(self, depth: usize) -> (r: Self)
        ensures
            r == (PlanStep { depth: if depth < MAX_PLAN_DEPTH { depth } else { MAX_PLAN_DEPTH }, ..self }),
    {
        PlanStep { depth: if depth < MAX_PLAN_DEPTH { depth } else { MAX_PLAN_DEPTH }, ..self }
    }
}

/// A titled list of plan steps.
#[derive(Clone, Debug)]
pub struct PlanList {
    pub title: String,
    pub summary: Option<String>,
    pub steps: Vec<PlanStep>,
}

impl PlanList {
    pub fn new(title: &str) -> (r: Self)
        ensures
            r.title@ == title@,
            r.summary is None,
            r.steps@.len() == 0,
    {
        PlanList { title: String::from_str(title), summary: None, steps: Vec::new() }
    }

    pub fn summary(self, summary: &str) -> (r: Self)
        ensures
            r.title == self.title,
            r.summary matches Some(s) && s@ == summary@,
            r.steps == self.steps,
    {
        PlanList { summary: Some(String::from_str(summary)), ..self }
    }

    /// Appends a step.
    pub fn step(self, step: PlanStep) -> (r: Self)
        ensures
            r.title == self.title,
            r.summary == self.summary,
            r.steps@ == self.steps@.push(step),
    {
        let PlanList { title, summary, steps } = self;
        let mut steps = steps;
        steps.push(step);
        PlanList { title, summary, steps }
    }
}

/// One file of a patch, with its line counts.
#[derive(Clone, Debug)]
pub struct PatchFile {
    pub path: String,
    pub additions: usize,
    pub deletions: usize,
    pub status: ToolCallStatus,
}

impl PatchFile {
    pub fn new(path: &str, additions: usize, deletions: usize) -> (r: Self)
        ensures
            r.path@ == path@,
            r.additions == additions,
            r.deletions == deletions,
            r.status == ToolCallStatus::Succeeded,
    {
        PatchFile { path: String::from_str(path), additions, deletions, status: ToolCallStatus::Succeeded }
    }

    pub fn status(self, status: ToolCallStatus) -> (r: Self)
        ensures
            r == (PatchFile { status, ..self }),
    {
        PatchFile { status, ..self }
    }

    /// The added-lines count as shown: "+<additions>".
    pub fn additions_label(&self) -> (r: String)
        ensures
            r@ == seq!['+'] + decimal(self.additions as nat),
    {
        let mut out = String::new();
        push_char(&mut out, '+');
        push_decimal(&mut out, self.additions as u64);
        out
    }

    /// The removed-lines count as shown: "-<deletions>".
    pub fn deletions_label(&self) -> (r: String)
        ensures
            r@ == seq!['-'] + decimal(self.deletions as nat),
    {
        let mut out = String::new();
        push_char(&mut out, '-');
        push_decimal(&mut out, self.deletions as u64);
        out
    }
}

/// What the user did with a patch review.
#[derive(Clone, Copy, Debug, PartialEq, Eq, Structural)]
pub struct PatchReviewResponse {
    pub approved: bool,
    pub rejected: bool,
    pub opened: bool,
}

impl Default for PatchReviewResponse {
    fn default() -> (r: Self)
        ensures
            r == (PatchReviewResponse { approved: false, rejected: false, opened: false }),
    {
        PatchReviewResponse { approved: false, rejected: false, opened: false }
    }
}

/// A patch put up for review: its files, test result and risk.
#[derive(Clone, Debug)]
pub struct PatchReviewPanel {
    pub title: String,
    pub summary: String,
    pub files: Vec<PatchFile>,
    pub tests: Option<String>,
    pub risk: Option<String>,
}

impl PatchReviewPanel {
    pub fn new(title: &str, summary: &str) -> (r: Self)
        ensures
            r.title@ == title@,
            r.summary@ == summary@,
            r.files@.len() == 0,
            r.tests is None,
            r.risk is None,
    {
        PatchReviewPanel { title: String::from_str(title), summary: String::from_str(summary), files: Vec::new(), tests: None, risk: None }
    }

    /// Appends a file.
    pub fn file(self, file: PatchFile) -> (r: Self)
        ensures
            r == (PatchReviewPanel { files: r.files, ..self }),
            r.files@ == self.files@.push(file),
    {
        let PatchReviewPanel { title, summary, files, tests, risk } = self;
        let mut files = files;
        files.push(file);
        PatchReviewPanel { title, summary, files, tests, risk }
    }

    pub fn tests(self, tests: &str) -> (r: Self)
        ensures
            r == (PatchReviewPanel { tests: r.tests, ..self }),
            r.tests matches Some(t) && t@ == tests@,
    {
        PatchReviewPanel { tests: Some(String::from_str(tests)), ..self }
    }

    pub fn risk(self, risk: &str) -> (r: Self)
        ensures
            r == (PatchReviewPanel { risk: r.risk, ..self }),
            r.risk matches Some(k) && k@ == risk@,
    {
        PatchReviewPanel { risk: Some(String::from_str(risk)), ..self }
    }

    /// The file-count badge: "<n> files".
    pub fn files_label(&self) -> (r: String)
        ensures
            r@ == decimal(self.files@.len()) + " files"@,
    {
        let mut out = String::new();
        push_decimal(&mut out, self.files.len() as u64);
        out.append(" files");
        out
    }
}

} // verus!
