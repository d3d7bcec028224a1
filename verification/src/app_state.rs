//! The state of the terminal interface, as far as its commands read and change it.
use vstd::prelude::*;
use vstd::string::*;
use vstd::utf8::encode_utf8;

use crate::chat::{ToolCall, ToolCallResult};
use crate::events::{ExistingPlanPrompt, Model, PlanMetadata};
use crate::usage::LLMTokenUsage;

verus! {

/// Where a command of the dropdown comes from. One with a prompt sends it to the
/// agent.
#[derive(Debug, PartialEq, Eq)]
pub enum CommandSource {
    BuiltIn,
    BuiltInWithPrompt { prompt_content: String },
    Custom { prompt_content: String },
}

/// A command of the dropdown.
#[derive(Debug, PartialEq, Eq)]
pub struct HelperCommand {
    pub command: String,
    pub description: String,
    pub source: CommandSource,
}

/// The field that the user types into.
#[derive(Debug, PartialEq, Eq)]
pub struct TextArea {
    pub text: String,
    /// Where the next character goes, in bytes.
    pub cursor: usize,
    pub shell_mode: bool,
}

#[derive(Debug, PartialEq, Eq)]
pub struct InputState {
    pub text_area: TextArea,
    pub show_helper_dropdown: bool,
    pub helpers: Vec<HelperCommand>,
}

#[derive(Debug, PartialEq, Eq)]
pub struct ModelSwitcherState {
    pub is_visible: bool,
    pub is_selected: usize,
    pub current_model: Option<Model>,
}

/// The colours that the theme gives a name.
#[derive(Debug, Clone, Copy, PartialEq, Eq, Structural)]
pub enum ThemeColor {
    Cyan,
    DarkGray,
    HighlightBackground,
    HighlightForeground,
    Magenta,
    Reset,
    Text,
    Yellow,
}

/// What a message on the screen says.
#[derive(Debug, PartialEq, Eq)]
pub enum MessageContent {
    /// Text in a colour; the usual one where there is none.
    Plain(String, Option<ThemeColor>),
    PlainText(String),
    UserMessage(String),
    /// Anything else that is drawn, as text.
    Block(String),
}

/// A message on the screen. It has an id from when it is first drawn.
#[derive(Debug, PartialEq, Eq)]
pub struct Message {
    pub id: Option<u128>,
    pub content: MessageContent,
}

#[derive(Debug, PartialEq, Eq)]
pub struct MessagesScrollingState {
    pub messages: Vec<Message>,
    pub scroll: usize,
    pub scroll_to_bottom: bool,
    pub stay_at_bottom: bool,
}

/// The number of a running shell command.
#[derive(Debug, Clone, Copy, PartialEq, Eq, Structural)]
pub struct ShellCommand {
    pub number: u64,
}

#[derive(Debug, PartialEq, Eq)]
pub struct ShellPopupState {
    pub active_shell_command: Option<ShellCommand>,
    pub active_shell_command_output: Option<String>,
    pub is_visible: bool,
    pub is_expanded: bool,
    pub waiting_for_shell_input: bool,
    pub pending_command_executed: bool,
    pub pending_command_value: Option<String>,
    pub pending_command_output: Option<String>,
    pub pending_command_output_count: usize,
    /// What the user's own shell commands gave, for the agent to see.
    pub shell_tool_calls: Option<Vec<ToolCallResult>>,
}

#[derive(Debug, PartialEq, Eq)]
pub struct ShellSessionState {
    pub interactive_shell_message_id: Option<u128>,
}

/// The bar on which tool calls wait for approval.
#[derive(Debug, PartialEq, Eq)]
pub struct ApprovalBar {
    pub actions: Vec<ToolCall>,
}

#[derive(Debug, PartialEq, Eq)]
pub struct DialogApprovalState {
    pub dialog_command: Option<ToolCall>,
    pub message_tool_calls: Option<Vec<ToolCall>>,
    pub message_approved_tools: Vec<ToolCall>,
    pub message_rejected_tools: Vec<ToolCall>,
    pub approval_bar: ApprovalBar,
    pub toggle_approved_message: bool,
}

/// How far a tool call has come.
#[derive(Debug, Clone, Copy, PartialEq, Eq, Structural)]
pub enum ToolCallStatus {
    Pending,
    Approved,
    Rejected,
    Executed,
}

/// A tool call in the order of the session.
#[derive(Debug, PartialEq, Eq)]
pub struct QueuedToolCall {
    pub id: String,
    pub status: ToolCallStatus,
}

#[derive(Debug, PartialEq, Eq)]
pub struct SessionToolCallsState {
    pub tool_call_execution_order: Vec<String>,
    pub session_tool_calls_queue: Vec<QueuedToolCall>,
}

/// The files that the session has changed.
#[derive(Debug, PartialEq, Eq)]
pub struct Changeset {
    pub files: Vec<String>,
}

#[derive(Debug, PartialEq, Eq)]
pub struct SidePanelState {
    pub changeset: Changeset,
    pub todos: Vec<String>,
    pub pending_editor_open: Option<String>,
}

#[derive(Debug, PartialEq, Eq)]
pub struct UsageTrackingState {
    pub total_session_usage: LLMTokenUsage,
    pub current_message_usage: LLMTokenUsage,
}

#[derive(Debug, PartialEq, Eq)]
pub struct PlanModeState {
    pub is_active: bool,
    pub metadata: Option<PlanMetadata>,
    pub content_hash: Option<String>,
    pub previous_status: Option<String>,
    pub review_auto_opened: bool,
    pub existing_prompt: Option<ExistingPlanPrompt>,
}

#[derive(Debug, PartialEq, Eq)]
pub struct PlanReviewState {
    pub is_visible: bool,
    pub content: String,
    pub lines: Vec<String>,
    pub comments: Option<String>,
    pub resolved_anchors: Vec<String>,
    pub show_comment_modal: bool,
    pub comment_input: String,
    pub selected_comment: Option<usize>,
    pub modal_kind: Option<String>,
}

/// What happens to a call of a tool.
#[derive(Debug, Clone, Copy, PartialEq, Eq, Structural)]
pub enum AutoApprovePolicy {
    Auto,
    Prompt,
    Never,
}

/// What happens to the calls of one tool.
#[derive(Debug, PartialEq, Eq)]
pub struct ToolPolicy {
    pub tool: String,
    pub policy: AutoApprovePolicy,
}

/// Which tools need no approval.
#[derive(Debug, PartialEq, Eq)]
pub struct AutoApproveManager {
    pub tools: Vec<ToolPolicy>,
    pub unsaved_changes: bool,
}

#[derive(Debug, PartialEq, Eq)]
pub struct ConfigurationState {
    pub latest_version: Option<String>,
    pub auto_approve_manager: AutoApproveManager,
    pub allowed_tools: Option<Vec<String>>,
    pub init_prompt_content: Option<String>,
    pub model: Model,
}

/// What the question about unsaved settings came up for.
#[derive(Debug, Clone, Copy, PartialEq, Eq, Structural)]
pub enum ApprovalSettingsPersistenceTrigger {
    NewSession,
    Quit,
}

#[derive(Debug, PartialEq, Eq)]
pub struct ApprovalSettingsPersistenceState {
    pub is_visible: bool,
    pub selected: usize,
    pub trigger: ApprovalSettingsPersistenceTrigger,
}

#[derive(Debug, PartialEq, Eq)]
pub struct ProfileSwitcherState {
    pub show_profile_switcher: bool,
    pub current_profile_name: String,
}

#[derive(Debug, PartialEq, Eq)]
pub struct CommandPaletteState {
    pub search: String,
    pub scroll: usize,
    pub is_selected: usize,
}

/// The state of the terminal interface.
#[derive(Debug, PartialEq, Eq)]
pub struct AppState {
    pub input_state: InputState,
    pub model_switcher_state: ModelSwitcherState,
    pub messages_scrolling_state: MessagesScrollingState,
    pub shell_popup_state: ShellPopupState,
    pub shell_session_state: ShellSessionState,
    pub dialog_approval_state: DialogApprovalState,
    pub session_tool_calls_state: SessionToolCallsState,
    pub side_panel_state: SidePanelState,
    pub usage_tracking_state: UsageTrackingState,
    pub plan_mode_state: PlanModeState,
    pub plan_review_state: PlanReviewState,
    pub configuration_state: ConfigurationState,
    pub approval_settings_persistence_state: ApprovalSettingsPersistenceState,
    pub profile_switcher_state: ProfileSwitcherState,
    pub command_palette_state: CommandPaletteState,
}

/// Something that the terminal does besides, in order.
#[derive(Debug, PartialEq, Eq)]
pub enum Effect {
    /// Show the help.
    ShowHelp,
    /// Clear the screen and show the welcome.
    ClearScreen,
    /// Show the account and the working directory.
    ShowStatus,
    /// Show the token usage.
    ShowUsage,
    /// Show where to report an issue.
    ShowIssue,
    /// Show where to find support.
    ShowSupport,
    /// Show the welcome, with the latest version of the program.
    ShowWelcome(Option<String>),
    /// Show a message of the program.
    ShowSystem(String),
    /// Show an error.
    ShowError(String),
    /// Show a text in a colour, behind a mark in a colour of its own.
    ShowStyled(String, ThemeColor, String, ThemeColor),
    /// Draw the lines of all messages anew.
    InvalidateLines,
    /// Stop a running shell command.
    KillShell(ShellCommand),
}

/// The model of an [`Effect`].
pub enum EffectView {
    ShowHelp,
    ClearScreen,
    ShowStatus,
    ShowUsage,
    ShowIssue,
    ShowSupport,
    ShowWelcome(Option<Seq<char>>),
    ShowSystem(Seq<char>),
    ShowError(Seq<char>),
    ShowStyled(Seq<char>, ThemeColor, Seq<char>, ThemeColor),
    InvalidateLines,
    KillShell(ShellCommand),
}

/// The model of a [`MessageContent`].
pub enum MessageContentView {
    Plain(Seq<char>, Option<ThemeColor>),
    PlainText(Seq<char>),
    UserMessage(Seq<char>),
    Block(Seq<char>),
}

/// The model of a [`Message`].
pub struct MessageView {
    pub id: Option<u128>,
    pub content: MessageContentView,
}

impl AutoApproveManager {
    /// Each tool occurs once.
    pub open spec fn well_formed(self) -> bool {
        forall|i: int, j: int|
            0 <= i < j < self.tools.len() ==> (#[trigger] self.tools[i]).tool@ != (
            #[trigger] self.tools[j]).tool@
    }
}

impl DeepView for Effect {
    type V = EffectView;

    open spec fn deep_view(&self) -> EffectView {
        match self {
            Effect::ShowHelp => EffectView::ShowHelp,
            Effect::ClearScreen => EffectView::ClearScreen,
            Effect::ShowStatus => EffectView::ShowStatus,
            Effect::ShowUsage => EffectView::ShowUsage,
            Effect::ShowIssue => EffectView::ShowIssue,
            Effect::ShowSupport => EffectView::ShowSupport,
            Effect::ShowWelcome(version) => EffectView::ShowWelcome(version.deep_view()),
            Effect::ShowSystem(text) => EffectView::ShowSystem(text@),
            Effect::ShowError(text) => EffectView::ShowError(text@),
            Effect::ShowStyled(text, color, mark, mark_color) => EffectView::ShowStyled(
                text@,
                *color,
                mark@,
                *mark_color,
            ),
            Effect::InvalidateLines => EffectView::InvalidateLines,
            Effect::KillShell(command) => EffectView::KillShell(*command),
        }
    }
}

impl DeepView for Message {
    type V = MessageView;

    open spec fn deep_view(&self) -> MessageView {
        MessageView {
            id: self.id,
            content: match self.content {
                MessageContent::Plain(text, color) => MessageContentView::Plain(text@, color),
                MessageContent::PlainText(text) => MessageContentView::PlainText(text@),
                MessageContent::UserMessage(text) => MessageContentView::UserMessage(text@),
                MessageContent::Block(text) => MessageContentView::Block(text@),
            },
        }
    }
}

/// A message that has not been drawn yet.
pub open spec fn fresh(content: MessageContentView) -> MessageView {
    MessageView { id: None, content }
}

/// The length of a text in bytes.
pub open spec fn byte_length(text: Seq<char>) -> usize {
    encode_utf8(text).len() as usize
}

/// The area holds `text`, with the cursor behind it.
pub open spec fn holds(before: TextArea, after: TextArea, text: Seq<char>) -> bool {
    &&& after.text@ == text
    &&& after.cursor == byte_length(text)
    &&& after.shell_mode == before.shell_mode
}

/// The user's input is replaced by `text`, and the dropdown is closed.
pub open spec fn input_becomes(before: InputState, after: InputState, text: Seq<char>) -> bool {
    &&& holds(before.text_area, after.text_area, text)
    &&& after == (InputState {
        text_area: after.text_area,
        show_helper_dropdown: false,
        ..before
    })
}

impl TextArea {
    /// Replaces the text and puts the cursor behind it.
    pub fn set_text(&mut self, text: &str)
        ensures
            holds(*old(self), *final(self), text@),
    {
        self.text = text.to_string();
        self.cursor = text.len();
    }

    /// Turns the mode on or off in which the text is a shell command.
    pub fn set_shell_mode(&mut self, on: bool)
        ensures
            *final(self) == (TextArea { shell_mode: on, ..*old(self) }),
    {
        self.shell_mode = on;
    }
}

impl InputState {
    /// Replaces the user's input and closes the dropdown.
    pub fn replace(&mut self, text: &str)
        ensures
            input_becomes(*old(self), *final(self), text@),
    {
        self.text_area.set_text(text);
        self.show_helper_dropdown = false;
    }
}

impl Message {
    /// A text in a colour.
    pub fn info(text: &str, color: Option<ThemeColor>) -> (res: Self)
        ensures
            res.deep_view() == fresh(MessageContentView::Plain(text@, color)),
    {
        Message { id: None, content: MessageContent::Plain(text.to_string(), color) }
    }

    /// A text as it is.
    pub fn plain_text(text: &str) -> (res: Self)
        ensures
            res.deep_view() == fresh(MessageContentView::PlainText(text@)),
    {
        Message { id: None, content: MessageContent::PlainText(text.to_string()) }
    }

    /// What the user said.
    pub fn user(text: String) -> (res: Self)
        ensures
            res.deep_view() == fresh(MessageContentView::UserMessage(text@)),
    {
        Message { id: None, content: MessageContent::UserMessage(text) }
    }
}

impl MessagesScrollingState {
    /// Puts a message behind the others.
    pub fn push(&mut self, message: Message)
        ensures
            final(self).messages.deep_view() == old(self).messages.deep_view().push(
                message.deep_view(),
            ),
            *final(self) == (MessagesScrollingState {
                messages: final(self).messages,
                ..*old(self)
            }),
    {
        self.messages.push(message);
        proof {
            assert(self.messages.deep_view() =~= old(self).messages.deep_view().push(
                message.deep_view(),
            ));
        }
    }

    /// Takes away the messages with the id `id`; the others stay in order.
    pub fn remove(&mut self, id: u128)
        ensures
            final(self).messages@ == old(self).messages@.filter(
                |message: Message| message.id != Some(id),
            ),
            *final(self) == (MessagesScrollingState {
                messages: final(self).messages,
                ..*old(self)
            }),
    {
        let ghost kept = |message: Message| message.id != Some(id);
        let ghost all = self.messages@;
        let mut i: usize = 0;
        proof {
            assert(all.take(0) =~= Seq::empty());
            assert(all.take(0).filter(kept) + all.skip(0) =~= all);
        }
        let ghost mut seen: int = 0;
        while i < self.messages.len()
            invariant
                kept == (|message: Message| message.id != Some(id)),
                0 <= seen <= all.len(),
                i == all.take(seen).filter(kept).len(),
                self.messages@ == all.take(seen).filter(kept) + all.skip(seen),
                *self == (MessagesScrollingState { messages: self.messages, ..*old(self) }),
            decreases all.len() - seen,
        {
            let ghost message = all[seen];
            proof {
                assert(self.messages@[i as int] == message);
                assert(all.take(seen + 1) =~= all.take(seen).push(message));
                all.take(seen).lemma_filter_push(message, kept);
            }
            let drawn = match self.messages[i].id {
                Some(other) => other == id,
                None => false,
            };
            if drawn {
                let _gone = self.messages.remove(i);
            } else {
                i = i + 1;
            }
            proof {
                assert(self.messages@ =~= all.take(seen + 1).filter(kept) + all.skip(seen + 1));
                seen = seen + 1;
            }
        }
        proof {
            assert(all.take(seen) =~= all);
        }
    }
}

/// Puts an effect behind the others.
pub(crate) fn push_effect(effects: &mut Vec<Effect>, effect: Effect)
    ensures
        final(effects).deep_view() == old(effects).deep_view().push(effect.deep_view()),
{
    effects.push(effect);
    proof {
        assert(effects.deep_view() =~= old(effects).deep_view().push(effect.deep_view()));
    }
}

} // verus!
