//! The commands that end one session in the interface and begin another.
use vstd::prelude::*;
use vstd::string::*;

use crate::app_state::{
    holds, push_effect, AppState, ApprovalSettingsPersistenceState,
    ApprovalSettingsPersistenceTrigger, Changeset, DialogApprovalState, Effect, EffectView,
    InputState, Message, MessagesScrollingState, PlanModeState, PlanReviewState,
    SessionToolCallsState, ShellPopupState, ShellSessionState, SidePanelState, TextArea,
    UsageTrackingState,
};
use crate::events::{OutputEvent, OutputEventView};
use crate::usage::{no_usage, LLMTokenUsage};

verus! {

/// The shell's part of the state after its command was stopped: all of it is reset,
/// but for what the user's own commands gave.
pub open spec fn idle_shell(before: ShellPopupState) -> ShellPopupState {
    ShellPopupState {
        active_shell_command: None,
        active_shell_command_output: None,
        is_visible: false,
        is_expanded: false,
        waiting_for_shell_input: false,
        pending_command_executed: false,
        pending_command_value: None,
        pending_command_output: None,
        pending_command_output_count: 0,
        shell_tool_calls: before.shell_tool_calls,
    }
}

/// The messages without the box of the interactive shell.
pub open spec fn without_shell_box(messages: Seq<Message>, shell_box: Option<u128>) -> Seq<Message> {
    match shell_box {
        Some(id) => messages.filter(|message: Message| message.id != Some(id)),
        None => messages,
    }
}

/// The state after the running shell command was stopped.
pub open spec fn shell_terminated(before: AppState, after: AppState) -> bool {
    &&& after.messages_scrolling_state.messages@ == without_shell_box(
        before.messages_scrolling_state.messages@,
        before.shell_session_state.interactive_shell_message_id,
    )
    &&& after == (AppState {
        messages_scrolling_state: MessagesScrollingState {
            messages: after.messages_scrolling_state.messages,
            ..before.messages_scrolling_state
        },
        shell_popup_state: idle_shell(before.shell_popup_state),
        shell_session_state: ShellSessionState { interactive_shell_message_id: None },
        dialog_approval_state: DialogApprovalState {
            dialog_command: None,
            ..before.dialog_approval_state
        },
        input_state: InputState {
            text_area: TextArea { shell_mode: false, ..before.input_state.text_area },
            ..before.input_state
        },
        ..before
    })
}

/// What stops the running shell command, where there is one.
pub open spec fn kills(before: AppState) -> Seq<EffectView> {
    match before.shell_popup_state.active_shell_command {
        Some(command) => seq![EffectView::KillShell(command)],
        None => Seq::empty(),
    }
}

/// Stops the running shell command and resets all that belongs to it.
pub fn terminate_active_shell(state: &mut AppState, effects: &mut Vec<Effect>)
    ensures
        shell_terminated(*old(state), *final(state)),
        final(effects).deep_view() == old(effects).deep_view() + kills(*old(state)),
{
    let ghost before = effects.deep_view();
    if let Some(command) = state.shell_popup_state.active_shell_command {
        push_effect(effects, Effect::KillShell(command));
    }
    proof {
        assert(effects.deep_view() =~= before + kills(*state));
    }
    if let Some(id) = state.shell_session_state.interactive_shell_message_id {
        state.messages_scrolling_state.remove(id);
    }
    state.shell_popup_state.active_shell_command = None;
    state.shell_popup_state.active_shell_command_output = None;
    state.shell_session_state.interactive_shell_message_id = None;
    state.shell_popup_state.is_visible = false;
    state.shell_popup_state.is_expanded = false;
    state.shell_popup_state.waiting_for_shell_input = false;
    state.shell_popup_state.pending_command_executed = false;
    state.shell_popup_state.pending_command_value = None;
    state.shell_popup_state.pending_command_output = None;
    state.shell_popup_state.pending_command_output_count = 0;
    state.dialog_approval_state.dialog_command = None;
    state.input_state.text_area.set_shell_mode(false);
}

/// The tool calls of the session before are forgotten.
pub open spec fn no_tool_calls(state: SessionToolCallsState) -> bool {
    state.tool_call_execution_order@.len() == 0 && state.session_tool_calls_queue@.len() == 0
}

/// Nothing waits for approval.
pub open spec fn nothing_to_approve(state: DialogApprovalState) -> bool {
    &&& state.dialog_command is None
    &&& state.message_tool_calls is None
    &&& state.message_approved_tools@.len() == 0
    &&& state.message_rejected_tools@.len() == 0
    &&& state.approval_bar.actions@.len() == 0
    &&& state.toggle_approved_message
}

/// No message, and the view at the bottom.
pub open spec fn emptied(state: MessagesScrollingState) -> bool {
    &&& state.messages@.len() == 0
    &&& state.scroll == 0
    &&& state.scroll_to_bottom
    &&& state.stay_at_bottom
}

/// The side panel without the changes and tasks of the session before.
pub open spec fn side_panel_emptied(before: SidePanelState, after: SidePanelState) -> bool {
    &&& after.changeset.files@.len() == 0
    &&& after.todos@.len() == 0
    &&& after.pending_editor_open == before.pending_editor_open
}

/// No token was used.
pub open spec fn usage_reset(state: UsageTrackingState) -> bool {
    state.total_session_usage@ == no_usage() && state.current_message_usage@ == no_usage()
}

/// Plan mode is off, whether or not a question about a plan is open.
pub open spec fn plan_mode_left(before: PlanModeState, after: PlanModeState) -> bool {
    after == (PlanModeState {
        is_active: false,
        metadata: None,
        content_hash: None,
        previous_status: None,
        review_auto_opened: false,
        existing_prompt: before.existing_prompt,
    })
}

/// The plan review is closed and holds nothing.
pub open spec fn plan_review_closed(state: PlanReviewState) -> bool {
    &&& !state.is_visible
    &&& state.content@.len() == 0
    &&& state.lines@.len() == 0
    &&& state.comments is None
    &&& state.resolved_anchors@.len() == 0
    &&& !state.show_comment_modal
    &&& state.comment_input@.len() == 0
    &&& state.selected_comment is None
    &&& state.modal_kind is None
}

/// The input is empty, the dropdown closed and the shell mode off.
pub open spec fn input_idle(before: InputState, after: InputState) -> bool {
    &&& holds(
        TextArea { shell_mode: false, ..before.text_area },
        after.text_area,
        ""@,
    )
    &&& after == (InputState {
        text_area: after.text_area,
        show_helper_dropdown: false,
        ..before
    })
}

/// The state in which the last session is about to be shown.
pub open spec fn ready_to_resume(before: AppState, after: AppState) -> bool {
    &&& nothing_to_approve(after.dialog_approval_state)
    &&& no_tool_calls(after.session_tool_calls_state)
    &&& emptied(after.messages_scrolling_state)
    &&& side_panel_emptied(before.side_panel_state, after.side_panel_state)
    &&& usage_reset(after.usage_tracking_state)
    &&& plan_mode_left(before.plan_mode_state, after.plan_mode_state)
    &&& plan_review_closed(after.plan_review_state)
    &&& input_idle(before.input_state, after.input_state)
    &&& after == (AppState {
        input_state: after.input_state,
        messages_scrolling_state: after.messages_scrolling_state,
        shell_popup_state: idle_shell(before.shell_popup_state),
        shell_session_state: ShellSessionState { interactive_shell_message_id: None },
        dialog_approval_state: after.dialog_approval_state,
        session_tool_calls_state: after.session_tool_calls_state,
        side_panel_state: after.side_panel_state,
        usage_tracking_state: after.usage_tracking_state,
        plan_mode_state: after.plan_mode_state,
        plan_review_state: after.plan_review_state,
        ..before
    })
}

/// What the screen shows at the beginning of a session.
pub open spec fn opening(before: AppState, text: Seq<char>) -> Seq<EffectView> {
    kills(before) + seq![
        EffectView::ShowWelcome(before.configuration_state.latest_version.deep_view()),
        EffectView::ShowSystem(text),
        EffectView::InvalidateLines,
    ]
}

/// Forgets the changes and tasks of the session before.
fn empty_side_panel(state: &mut SidePanelState)
    ensures
        side_panel_emptied(*old(state), *final(state)),
{
    state.changeset = Changeset { files: Vec::new() };
    state.todos.clear();
}

/// Shows the beginning of a session.
fn open_session(state: &mut AppState, effects: &mut Vec<Effect>, text: &str)
    ensures
        emptied(final(state).messages_scrolling_state),
        *final(state) == (AppState {
            messages_scrolling_state: final(state).messages_scrolling_state,
            ..*old(state)
        }),
        final(effects).deep_view() == old(effects).deep_view() + seq![
            EffectView::ShowWelcome(old(state).configuration_state.latest_version.deep_view()),
            EffectView::ShowSystem(text@),
            EffectView::InvalidateLines,
        ],
{
    let ghost before = effects.deep_view();
    state.messages_scrolling_state.messages.clear();
    push_effect(
        effects,
        Effect::ShowWelcome(state.configuration_state.latest_version.clone()),
    );
    push_effect(effects, Effect::ShowSystem(text.to_string()));
    state.messages_scrolling_state.scroll = 0;
    state.messages_scrolling_state.scroll_to_bottom = true;
    state.messages_scrolling_state.stay_at_bottom = true;
    push_effect(effects, Effect::InvalidateLines);
    proof {
        assert(effects.deep_view() =~= before + seq![
            EffectView::ShowWelcome(old(state).configuration_state.latest_version.deep_view()),
            EffectView::ShowSystem(text@),
            EffectView::InvalidateLines,
        ]);
    }
}

/// Puts an event for the agent behind the others.
pub(crate) fn send_output(output_tx: &mut Vec<OutputEvent>, event: OutputEvent)
    ensures
        final(output_tx).deep_view() == old(output_tx).deep_view().push(event.deep_view()),
{
    output_tx.push(event);
    proof {
        assert(output_tx.deep_view() =~= old(output_tx).deep_view().push(event.deep_view()));
    }
}

/// Clears the interface and asks the agent to resume the last session.
pub fn resume_session(
    state: &mut AppState,
    output_tx: &mut Vec<OutputEvent>,
    effects: &mut Vec<Effect>,
)
    ensures
        ready_to_resume(*old(state), *final(state)),
        final(output_tx).deep_view() == old(output_tx).deep_view().push(
            OutputEventView::ResumeSession,
        ),
        final(effects).deep_view() == old(effects).deep_view() + opening(
            *old(state),
            "Resuming last session."@,
        ),
{
    let ghost before = effects.deep_view();
    terminate_active_shell(state, effects);
    state.dialog_approval_state.message_tool_calls = None;
    state.dialog_approval_state.message_approved_tools.clear();
    state.dialog_approval_state.message_rejected_tools.clear();
    state.session_tool_calls_state.tool_call_execution_order.clear();
    state.session_tool_calls_state.session_tool_calls_queue.clear();
    state.dialog_approval_state.approval_bar.actions.clear();
    state.dialog_approval_state.toggle_approved_message = true;
    open_session(state, effects, "Resuming last session.");
    proof {
        assert(effects.deep_view() =~= before + opening(*old(state), "Resuming last session."@));
    }
    empty_side_panel(&mut state.side_panel_state);
    state.usage_tracking_state.total_session_usage = LLMTokenUsage::none();
    state.usage_tracking_state.current_message_usage = LLMTokenUsage::none();
    send_output(output_tx, OutputEvent::ResumeSession);
    state.input_state.replace("");
    state.plan_mode_state.is_active = false;
    state.plan_mode_state.metadata = None;
    state.plan_mode_state.content_hash = None;
    state.plan_mode_state.previous_status = None;
    state.plan_mode_state.review_auto_opened = false;
    state.plan_review_state.is_visible = false;
    state.plan_review_state.content = String::new();
    state.plan_review_state.lines.clear();
    state.plan_review_state.comments = None;
    state.plan_review_state.resolved_anchors.clear();
    state.plan_review_state.show_comment_modal = false;
    state.plan_review_state.comment_input = String::new();
    state.plan_review_state.selected_comment = None;
    state.plan_review_state.modal_kind = None;
}

/// The question about unsaved settings is open; nothing else changes.
pub open spec fn asks_about_settings(before: AppState) -> AppState {
    AppState {
        approval_settings_persistence_state: ApprovalSettingsPersistenceState {
            is_visible: true,
            selected: 0,
            trigger: ApprovalSettingsPersistenceTrigger::NewSession,
        },
        ..before
    }
}

/// The state at the beginning of a new session. What waits for approval and the plan
/// stay, but for the open approval dialog.
pub open spec fn ready_for_new(before: AppState, after: AppState) -> bool {
    &&& no_tool_calls(after.session_tool_calls_state)
    &&& emptied(after.messages_scrolling_state)
    &&& side_panel_emptied(before.side_panel_state, after.side_panel_state)
    &&& usage_reset(after.usage_tracking_state)
    &&& input_idle(before.input_state, after.input_state)
    &&& after == (AppState {
        input_state: after.input_state,
        messages_scrolling_state: after.messages_scrolling_state,
        shell_popup_state: idle_shell(before.shell_popup_state),
        shell_session_state: ShellSessionState { interactive_shell_message_id: None },
        dialog_approval_state: DialogApprovalState {
            dialog_command: None,
            ..before.dialog_approval_state
        },
        session_tool_calls_state: after.session_tool_calls_state,
        side_panel_state: after.side_panel_state,
        usage_tracking_state: after.usage_tracking_state,
        ..before
    })
}

/// Begins a new session; where settings are unsaved, asks about them instead.
pub fn new_session(
    state: &mut AppState,
    output_tx: &mut Vec<OutputEvent>,
    effects: &mut Vec<Effect>,
)
    ensures
        old(state).configuration_state.auto_approve_manager.unsaved_changes ==> {
            &&& *final(state) == asks_about_settings(*old(state))
            &&& final(output_tx).deep_view() == old(output_tx).deep_view()
            &&& final(effects).deep_view() == old(effects).deep_view()
        },
        !old(state).configuration_state.auto_approve_manager.unsaved_changes ==> {
            &&& ready_for_new(*old(state), *final(state))
            &&& final(output_tx).deep_view() == old(output_tx).deep_view().push(
                OutputEventView::NewSession,
            )
            &&& final(effects).deep_view() == old(effects).deep_view() + opening(
                *old(state),
                "New session started."@,
            )
        },
{
    if state.configuration_state.auto_approve_manager.unsaved_changes {
        state.approval_settings_persistence_state.is_visible = true;
        state.approval_settings_persistence_state.selected = 0;
        state.approval_settings_persistence_state.trigger =
            ApprovalSettingsPersistenceTrigger::NewSession;
        return ;
    }
    let ghost before = effects.deep_view();
    terminate_active_shell(state, effects);
    send_output(output_tx, OutputEvent::NewSession);
    state.input_state.text_area.set_text("");
    open_session(state, effects, "New session started.");
    proof {
        assert(effects.deep_view() =~= before + opening(*old(state), "New session started."@));
    }
    state.session_tool_calls_state = SessionToolCallsState {
        tool_call_execution_order: Vec::new(),
        session_tool_calls_queue: Vec::new(),
    };
    empty_side_panel(&mut state.side_panel_state);
    state.usage_tracking_state.total_session_usage = LLMTokenUsage::none();
    state.usage_tracking_state.current_message_usage = LLMTokenUsage::none();
    state.input_state.show_helper_dropdown = false;
}

} // verus!
