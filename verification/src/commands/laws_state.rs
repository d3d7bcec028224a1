//! What holds of the state that a command leaves behind: what it changes, what it tells,
//! and what stays as it was.
use vstd::prelude::*;
use vstd::string::*;
use vstd::utf8::encode_utf8;

use super::laws::lemma_names;
use crate::app_state::{
    input_becomes, AppState, ApprovalSettingsPersistenceTrigger, EffectView, InputState, Message,
    ShellPopupState,
};
use crate::commands::execute::{
    built_in, effects_of, executed, goes_on, inputs_of, outputs_of, path_taken, plan_checked, shows,
    state_after, step_of, tells_agent, tells_interface, typed, BuiltIn, CommandStepView,
};
use crate::commands::prompts::{argument, input_set, prompt_effects, prompt_requests, prompted};
use crate::commands::registry::{action_id, CommandAction};
use crate::commands::sessions::{
    opening, ready_for_new, ready_to_resume, shell_terminated, without_shell_box,
};
use crate::events::{InputEventView, OutputEventView, PlanMetadata};
use crate::text::trimmed;

verus! {

/// The user's input reads `text`, the cursor stands behind it and the dropdown is closed;
/// all else of the input is as before.
pub open spec fn reads(before: InputState, after: InputState, text: Seq<char>) -> bool {
    &&& after.text_area.text@ == text
    &&& after.text_area.cursor == encode_utf8(text).len() as usize
    &&& after.text_area.shell_mode == before.text_area.shell_mode
    &&& after.helpers == before.helpers
    &&& !after.show_helper_dropdown
}

/// Replacing the input replaces the text and closes the dropdown, and no more.
pub proof fn law_input_is_replaced(before: AppState, after: AppState, text: Seq<char>)
    ensures
        input_becomes(before.input_state, after.input_state, text) ==> reads(
            before.input_state,
            after.input_state,
            text,
        ),
        input_set(before, after, text) ==> reads(before.input_state, after.input_state, text)
            && only_input_differs(before, after),
{
}

/// Nothing but the user's input differs.
pub open spec fn only_input_differs(before: AppState, after: AppState) -> bool {
    &&& after.model_switcher_state == before.model_switcher_state
    &&& after.messages_scrolling_state == before.messages_scrolling_state
    &&& after.shell_popup_state == before.shell_popup_state
    &&& after.shell_session_state == before.shell_session_state
    &&& after.dialog_approval_state == before.dialog_approval_state
    &&& after.session_tool_calls_state == before.session_tool_calls_state
    &&& after.side_panel_state == before.side_panel_state
    &&& after.usage_tracking_state == before.usage_tracking_state
    &&& after.plan_mode_state == before.plan_mode_state
    &&& after.plan_review_state == before.plan_review_state
    &&& after.configuration_state == before.configuration_state
    &&& after.approval_settings_persistence_state == before.approval_settings_persistence_state
    &&& after.profile_switcher_state == before.profile_switcher_state
    &&& after.command_palette_state == before.command_palette_state
}

/// The command begins a session anew.
pub open spec fn opens_session(command: BuiltIn) -> bool {
    command == BuiltIn::Resume || command == BuiltIn::New
}

/// The settings and the palette stay whatever the command. A session's own state stays
/// unless the command begins another; each switcher, unless the command opens it; and the
/// messages, unless the command shows something among them.
pub proof fn law_command_changes_only_its_own(command: BuiltIn, before: AppState, after: AppState)
    requires
        state_after(command, before, after),
    ensures
        after.configuration_state == before.configuration_state,
        after.command_palette_state == before.command_palette_state,
        after.input_state.helpers == before.input_state.helpers,
        !opens_session(command) ==> {
            &&& after.usage_tracking_state == before.usage_tracking_state
            &&& after.plan_mode_state == before.plan_mode_state
            &&& after.plan_review_state == before.plan_review_state
            &&& after.side_panel_state == before.side_panel_state
            &&& after.session_tool_calls_state == before.session_tool_calls_state
            &&& after.shell_session_state == before.shell_session_state
            &&& after.dialog_approval_state == before.dialog_approval_state
        },
        command != BuiltIn::Model ==> after.model_switcher_state == before.model_switcher_state,
        command != BuiltIn::Profiles ==> after.profile_switcher_state
            == before.profile_switcher_state,
        command != BuiltIn::New ==> after.approval_settings_persistence_state
            == before.approval_settings_persistence_state,
        !opens_session(command) && command != BuiltIn::Init && command
            != BuiltIn::ListApprovedTools ==> after.messages_scrolling_state
            == before.messages_scrolling_state,
        !opens_session(command) && command != BuiltIn::Init ==> after.shell_popup_state
            == before.shell_popup_state,
{
}

/// A switcher opens at its first item, on what is current.
pub proof fn law_switchers_open(before: AppState, after: AppState)
    ensures
        state_after(BuiltIn::Model, before, after) ==> {
            &&& after.model_switcher_state.is_visible
            &&& after.model_switcher_state.is_selected == 0
            &&& after.model_switcher_state.current_model
                == before.model_switcher_state.current_model
            &&& reads(before.input_state, after.input_state, ""@)
        },
        state_after(BuiltIn::Profiles, before, after) ==> {
            &&& after.profile_switcher_state.show_profile_switcher
            &&& after.profile_switcher_state.current_profile_name
                == before.profile_switcher_state.current_profile_name
            &&& reads(before.input_state, after.input_state, ""@)
        },
{
}

/// A command empties the input. The two that take an argument put their own name there
/// where the argument is missing or the name was not typed out, and what goes on with the
/// input leaves it alone.
pub proof fn law_what_the_input_reads(command: BuiltIn, before: AppState, after: AppState)
    requires
        state_after(command, before, after),
    ensures
        command == BuiltIn::ToggleAutoApprove && trimmed(typed(before))
            != "/toggle_auto_approve"@ ==> reads(
            before.input_state,
            after.input_state,
            "/toggle_auto_approve "@,
        ),
        command == BuiltIn::Editor && argument(typed(before), "/editor "@) is None ==> reads(
            before.input_state,
            after.input_state,
            "/editor "@,
        ),
        command == BuiltIn::Editor && argument(typed(before), "/editor "@) is Some ==> after
            == before,
        command == BuiltIn::Summarize ==> after == before,
        command != BuiltIn::ToggleAutoApprove && command != BuiltIn::Editor && command
            != BuiltIn::Summarize && !opens_session(command) ==> reads(
            before.input_state,
            after.input_state,
            ""@,
        ),
        command == BuiltIn::ToggleAutoApprove && trimmed(typed(before))
            == "/toggle_auto_approve"@ ==> reads(before.input_state, after.input_state, ""@),
{
}

/// Stopping the shell takes what belongs to it away, and nothing else: what the user's own
/// commands gave stays, and so does what waits for approval besides the open dialog.
pub proof fn law_stopping_the_shell_keeps_the_rest(before: AppState, after: AppState)
    requires
        shell_terminated(before, after),
    ensures
        shell_is_idle(before.shell_popup_state, after.shell_popup_state),
        after.shell_session_state.interactive_shell_message_id is None,
        after.dialog_approval_state.dialog_command is None,
        after.dialog_approval_state.message_tool_calls
            == before.dialog_approval_state.message_tool_calls,
        after.dialog_approval_state.message_approved_tools
            == before.dialog_approval_state.message_approved_tools,
        after.dialog_approval_state.message_rejected_tools
            == before.dialog_approval_state.message_rejected_tools,
        after.dialog_approval_state.approval_bar == before.dialog_approval_state.approval_bar,
        after.dialog_approval_state.toggle_approved_message
            == before.dialog_approval_state.toggle_approved_message,
        !after.input_state.text_area.shell_mode,
        after.input_state.text_area.text == before.input_state.text_area.text,
        after.input_state.text_area.cursor == before.input_state.text_area.cursor,
        after.input_state.helpers == before.input_state.helpers,
        after.input_state.show_helper_dropdown == before.input_state.show_helper_dropdown,
        after.messages_scrolling_state.scroll == before.messages_scrolling_state.scroll,
        after.messages_scrolling_state.scroll_to_bottom
            == before.messages_scrolling_state.scroll_to_bottom,
        after.messages_scrolling_state.stay_at_bottom
            == before.messages_scrolling_state.stay_at_bottom,
        before.shell_session_state.interactive_shell_message_id is None
            ==> after.messages_scrolling_state.messages@
            == before.messages_scrolling_state.messages@,
        after.model_switcher_state == before.model_switcher_state,
        after.session_tool_calls_state == before.session_tool_calls_state,
        after.side_panel_state == before.side_panel_state,
        after.usage_tracking_state == before.usage_tracking_state,
        after.plan_mode_state == before.plan_mode_state,
        after.plan_review_state == before.plan_review_state,
        after.configuration_state == before.configuration_state,
        after.approval_settings_persistence_state == before.approval_settings_persistence_state,
        after.profile_switcher_state == before.profile_switcher_state,
        after.command_palette_state == before.command_palette_state,
{
}

/// No shell command runs or waits, and what the user's own commands gave is still there.
pub open spec fn shell_is_idle(before: ShellPopupState, after: ShellPopupState) -> bool {
    &&& after.active_shell_command is None
    &&& after.active_shell_command_output is None
    &&& !after.is_visible
    &&& !after.is_expanded
    &&& !after.waiting_for_shell_input
    &&& !after.pending_command_executed
    &&& after.pending_command_value is None
    &&& after.pending_command_output is None
    &&& after.pending_command_output_count == 0
    &&& after.shell_tool_calls == before.shell_tool_calls
}

/// The messages without the shell's box keep their order, wherever the list is cut in two.
pub proof fn law_shell_box_leaves_the_order(a: Seq<Message>, b: Seq<Message>, id: u128, message: Message)
    ensures
        without_shell_box(a + b, Some(id)) == without_shell_box(a, Some(id)) + without_shell_box(
            b,
            Some(id),
        ),
        without_shell_box(seq![message], Some(id)) == (if message.id == Some(id) {
            Seq::empty()
        } else {
            seq![message]
        }),
        without_shell_box(a, None) == a,
{
    let kept = |message: Message| message.id != Some(id);
    Seq::filter_distributes_over_add(a, b, kept);
    let empty = Seq::<Message>::empty();
    empty.lemma_filter_len(kept);
    assert(seq![message] =~= empty.push(message));
    empty.lemma_filter_push(message, kept);
    assert(without_shell_box(seq![message], Some(id)) =~= (if message.id == Some(id) {
        Seq::empty()
    } else {
        seq![message]
    }));
}

/// All that belongs to a session of the interface is gone: its messages, tool calls,
/// changes, tasks and figures, the running shell command and the user's input.
pub open spec fn session_is_gone(before: AppState, after: AppState) -> bool {
    &&& shell_is_idle(before.shell_popup_state, after.shell_popup_state)
    &&& after.shell_session_state.interactive_shell_message_id is None
    &&& after.dialog_approval_state.dialog_command is None
    &&& after.messages_scrolling_state.messages@.len() == 0
    &&& after.messages_scrolling_state.scroll == 0
    &&& after.messages_scrolling_state.scroll_to_bottom
    &&& after.messages_scrolling_state.stay_at_bottom
    &&& after.session_tool_calls_state.tool_call_execution_order@.len() == 0
    &&& after.session_tool_calls_state.session_tool_calls_queue@.len() == 0
    &&& after.side_panel_state.changeset.files@.len() == 0
    &&& after.side_panel_state.todos@.len() == 0
    &&& after.side_panel_state.pending_editor_open == before.side_panel_state.pending_editor_open
    &&& after.usage_tracking_state.total_session_usage@.total == 0
    &&& after.usage_tracking_state.total_session_usage@.prompt == 0
    &&& after.usage_tracking_state.total_session_usage@.completion == 0
    &&& after.usage_tracking_state.total_session_usage@.details is None
    &&& after.usage_tracking_state.current_message_usage@.total == 0
    &&& after.usage_tracking_state.current_message_usage@.prompt == 0
    &&& after.usage_tracking_state.current_message_usage@.completion == 0
    &&& after.usage_tracking_state.current_message_usage@.details is None
    &&& after.input_state.text_area.text@ == ""@
    &&& after.input_state.text_area.cursor == encode_utf8(""@).len() as usize
    &&& !after.input_state.text_area.shell_mode
    &&& !after.input_state.show_helper_dropdown
    &&& after.input_state.helpers == before.input_state.helpers
    &&& after.model_switcher_state == before.model_switcher_state
    &&& after.configuration_state == before.configuration_state
    &&& after.profile_switcher_state == before.profile_switcher_state
    &&& after.command_palette_state == before.command_palette_state
    &&& after.approval_settings_persistence_state == before.approval_settings_persistence_state
}

/// A new session leaves the plan and what waits for approval; resuming the last one leaves
/// neither, but for an open question about a plan.
pub proof fn law_sessions_begin_anew(before: AppState, after: AppState)
    ensures
        ready_for_new(before, after) ==> {
            &&& session_is_gone(before, after)
            &&& after.plan_mode_state == before.plan_mode_state
            &&& after.plan_review_state == before.plan_review_state
            &&& after.dialog_approval_state.message_tool_calls
                == before.dialog_approval_state.message_tool_calls
            &&& after.dialog_approval_state.message_approved_tools
                == before.dialog_approval_state.message_approved_tools
            &&& after.dialog_approval_state.message_rejected_tools
                == before.dialog_approval_state.message_rejected_tools
            &&& after.dialog_approval_state.approval_bar
                == before.dialog_approval_state.approval_bar
            &&& after.dialog_approval_state.toggle_approved_message
                == before.dialog_approval_state.toggle_approved_message
        },
        ready_to_resume(before, after) ==> {
            &&& session_is_gone(before, after)
            &&& after.dialog_approval_state.message_tool_calls is None
            &&& after.dialog_approval_state.message_approved_tools@.len() == 0
            &&& after.dialog_approval_state.message_rejected_tools@.len() == 0
            &&& after.dialog_approval_state.approval_bar.actions@.len() == 0
            &&& after.dialog_approval_state.toggle_approved_message
            &&& !after.plan_mode_state.is_active
            &&& after.plan_mode_state.metadata is None
            &&& after.plan_mode_state.content_hash is None
            &&& after.plan_mode_state.previous_status is None
            &&& !after.plan_mode_state.review_auto_opened
            &&& after.plan_mode_state.existing_prompt == before.plan_mode_state.existing_prompt
            &&& !after.plan_review_state.is_visible
            &&& after.plan_review_state.content@.len() == 0
            &&& after.plan_review_state.lines@.len() == 0
            &&& after.plan_review_state.comments is None
            &&& after.plan_review_state.resolved_anchors@.len() == 0
            &&& !after.plan_review_state.show_comment_modal
            &&& after.plan_review_state.comment_input@.len() == 0
            &&& after.plan_review_state.selected_comment is None
            &&& after.plan_review_state.modal_kind is None
        },
{
}

/// Where settings are unsaved, a new session only opens the question about them; it is
/// begun otherwise, and the agent is told of it.
pub proof fn law_unsaved_settings_are_asked_about(before: AppState, after: AppState)
    requires
        state_after(BuiltIn::New, before, after),
    ensures
        before.configuration_state.auto_approve_manager.unsaved_changes ==> {
            &&& after.approval_settings_persistence_state.is_visible
            &&& after.approval_settings_persistence_state.selected == 0
            &&& after.approval_settings_persistence_state.trigger
                == ApprovalSettingsPersistenceTrigger::NewSession
            &&& only_input_differs(
                before,
                (AppState {
                    approval_settings_persistence_state: before.approval_settings_persistence_state,
                    ..after
                }),
            )
            &&& after.input_state == before.input_state
            &&& tells_agent(BuiltIn::New, before).len() == 0
            &&& shows(BuiltIn::New, before).len() == 0
        },
        !before.configuration_state.auto_approve_manager.unsaved_changes ==> {
            &&& session_is_gone(before, after)
            &&& tells_agent(BuiltIn::New, before) == seq![OutputEventView::NewSession]
        },
{
}

/// A session opens with the running shell command stopped, where there is one, the welcome
/// with the latest version that is known, its text, and all lines drawn anew.
pub proof fn law_opening_of_a_session(before: AppState, text: Seq<char>)
    ensures
        ({
            let shown = opening(before, text);
            let from: int = if before.shell_popup_state.active_shell_command is Some {
                1
            } else {
                0
            };
            &&& shown.len() == from + 3
            &&& before.shell_popup_state.active_shell_command matches Some(command) ==> shown[0]
                == EffectView::KillShell(command)
            &&& before.configuration_state.latest_version matches Some(version) ==> shown[from]
                == EffectView::ShowWelcome(Some(version@))
            &&& before.configuration_state.latest_version is None ==> shown[from]
                == EffectView::ShowWelcome(None)
            &&& shown[from + 1] == EffectView::ShowSystem(text)
            &&& shown[from + 2] == EffectView::InvalidateLines
        }),
{
}

/// Outside work goes on with what the user typed behind the command.
pub proof fn law_work_goes_on_with_the_argument(before: AppState, path: Seq<char>)
    ensures
        goes_on(BuiltIn::Summarize, before) == CommandStepView::Summarize,
        argument(typed(before), "/editor "@) == Some(path) ==> goes_on(BuiltIn::Editor, before)
            == CommandStepView::ResolveEditorPath(path),
        argument(typed(before), "/editor "@) is None ==> goes_on(BuiltIn::Editor, before)
            == CommandStepView::Done,
        before.plan_mode_state.is_active ==> goes_on(BuiltIn::Plan, before)
            == CommandStepView::Done && shows(BuiltIn::Plan, before).len() == 1,
        !before.plan_mode_state.is_active ==> shows(BuiltIn::Plan, before).len() == 0 && goes_on(
            BuiltIn::Plan,
            before,
        ) == CommandStepView::CheckPlanFile(argument(typed(before), "/plan"@)),
        forall|command: BuiltIn|
            command != BuiltIn::Summarize && command != BuiltIn::Editor && command != BuiltIn::Plan
                ==> #[trigger] goes_on(command, before) == CommandStepView::Done,
{
}

/// A command of the interface does what it is for: the agent and the interface are told
/// that very thing, and nobody else is told anything.
pub proof fn law_commands_tell_their_own(command: BuiltIn, before: AppState)
    ensures
        tells_agent(BuiltIn::Model, before) == seq![OutputEventView::RequestAvailableModels],
        tells_agent(BuiltIn::Sessions, before) == seq![OutputEventView::ListSessions],
        tells_agent(BuiltIn::Resume, before) == seq![OutputEventView::ResumeSession],
        tells_agent(BuiltIn::Usage, before) == seq![OutputEventView::RequestTotalUsage],
        command != BuiltIn::Model && command != BuiltIn::Sessions && command != BuiltIn::Resume
            && command != BuiltIn::New && command != BuiltIn::Usage && command != BuiltIn::Init
            ==> tells_agent(command, before).len() == 0,
        tells_interface(BuiltIn::Quit, before) == seq![InputEventView::Quit],
        tells_interface(BuiltIn::Profiles, before) == seq![InputEventView::ShowProfileSwitcher],
        tells_interface(BuiltIn::MouseCapture, before) == seq![InputEventView::ToggleMouseCapture],
        tells_interface(BuiltIn::Shortcuts, before) == seq![InputEventView::ShowShortcuts],
        trimmed(typed(before)) == "/toggle_auto_approve"@ ==> tells_interface(
            BuiltIn::ToggleAutoApprove,
            before,
        ) == seq![InputEventView::ShowAutoApprovePopup],
        trimmed(typed(before)) != "/toggle_auto_approve"@ ==> tells_interface(
            BuiltIn::ToggleAutoApprove,
            before,
        ).len() == 0,
        command != BuiltIn::Quit && command != BuiltIn::Profiles && command
            != BuiltIn::MouseCapture && command != BuiltIn::Shortcuts && command
            != BuiltIn::ToggleAutoApprove ==> tells_interface(command, before).len() == 0,
        shows(BuiltIn::Help, before) == seq![EffectView::ShowHelp],
        shows(BuiltIn::Clear, before) == seq![EffectView::ClearScreen],
        shows(BuiltIn::Status, before) == seq![EffectView::ShowStatus],
        shows(BuiltIn::Usage, before) == seq![EffectView::ShowUsage],
        shows(BuiltIn::Issue, before) == seq![EffectView::ShowIssue],
        shows(BuiltIn::Support, before) == seq![EffectView::ShowSupport],
        shows(BuiltIn::Resume, before) == opening(before, "Resuming last session."@),
        !before.configuration_state.auto_approve_manager.unsaved_changes ==> shows(
            BuiltIn::New,
            before,
        ) == opening(before, "New session started."@),
{
}

/// A command is run under its name: one that the interface knows does what that command
/// does, and any other what the dropdown has for it.
pub proof fn law_command_runs_under_its_name(
    id: Seq<char>,
    command: BuiltIn,
    before: AppState,
    after: AppState,
)
    ensures
        executed(id, before, after) && built_in(id) == Some(command) ==> state_after(
            command,
            before,
            after,
        ),
        executed(id, before, after) && built_in(id) is None ==> prompted(before, after, id),
        outputs_of(id, before)[0] == OutputEventView::CommandCalled(id),
        built_in(id) == Some(command) ==> {
            &&& outputs_of(id, before).skip(1) == tells_agent(command, before)
            &&& inputs_of(id, before) == tells_interface(command, before)
            &&& effects_of(id, before) == shows(command, before)
            &&& step_of(id, before) == goes_on(command, before)
        },
        built_in(id) is None ==> {
            &&& outputs_of(id, before).skip(1) == prompt_requests(before, id)
            &&& inputs_of(id, before).len() == 0
            &&& effects_of(id, before) == prompt_effects(before, id)
            &&& step_of(id, before) == CommandStepView::Done
        },
{
    if let Some(command) = built_in(id) {
        assert(outputs_of(id, before).skip(1) =~= tells_agent(command, before));
    } else {
        assert(outputs_of(id, before).skip(1) =~= prompt_requests(before, id));
    }
}

/// An action of the palette runs its own command; the four that only open something have
/// none.
pub proof fn law_actions_run_their_commands(action: CommandAction)
    ensures
        action_id(action) is None <==> {
            ||| action == CommandAction::OpenProfileSwitcher
            ||| action == CommandAction::OpenRulebookSwitcher
            ||| action == CommandAction::OpenShortcuts
            ||| action == CommandAction::OpenShellMode
        },
        action_id(action) matches Some(id) ==> built_in(id) == (match action {
            CommandAction::OpenSessions => Some(BuiltIn::Sessions),
            CommandAction::ResumeSession => Some(BuiltIn::Resume),
            CommandAction::ShowStatus => Some(BuiltIn::Status),
            CommandAction::SubmitIssue => Some(BuiltIn::Issue),
            CommandAction::GetSupport => Some(BuiltIn::Support),
            CommandAction::NewSession => Some(BuiltIn::New),
            CommandAction::ShowUsage => Some(BuiltIn::Usage),
            CommandAction::SwitchModel => Some(BuiltIn::Model),
            CommandAction::PlanMode => Some(BuiltIn::Plan),
            _ => None,
        }),
{
    lemma_names();
}

/// The file that was looked up is opened where there is one, and whatever was to be opened
/// before is kept where there is none; the side panel stays besides.
pub proof fn law_editor_opens_what_exists(
    before: AppState,
    after: AppState,
    path: Seq<char>,
    exists_on_disk: bool,
)
    requires
        path_taken(before, after, path, exists_on_disk),
    ensures
        reads(before.input_state, after.input_state, ""@),
        exists_on_disk ==> (after.side_panel_state.pending_editor_open matches Some(opened)
            && opened@ == path),
        !exists_on_disk ==> after.side_panel_state == before.side_panel_state,
        after.side_panel_state.changeset == before.side_panel_state.changeset,
        after.side_panel_state.todos == before.side_panel_state.todos,
        only_input_differs(before, (AppState { side_panel_state: before.side_panel_state, ..after })),
{
}

/// A plan that is there is asked about, with the prompt that was given and all that is known
/// of the plan; nothing else changes, and nothing at all where there is none.
pub proof fn law_existing_plan_is_asked_about(
    before: AppState,
    after: AppState,
    prompt: Option<Seq<char>>,
    metadata: Option<PlanMetadata>,
)
    ensures
        plan_checked(before, after, prompt, None) ==> after == before,
        plan_checked(before, after, prompt, Some(metadata)) ==> {
            &&& after.plan_mode_state.existing_prompt matches Some(asked)
            &&& asked.metadata == metadata
            &&& prompt matches Some(text) ==> (asked.inline_prompt matches Some(given) && given@
                == text)
            &&& prompt is None ==> asked.inline_prompt is None
            &&& after.plan_mode_state.is_active == before.plan_mode_state.is_active
            &&& after.plan_mode_state.metadata == before.plan_mode_state.metadata
            &&& after.plan_mode_state.content_hash == before.plan_mode_state.content_hash
            &&& after.plan_mode_state.previous_status == before.plan_mode_state.previous_status
            &&& after.plan_mode_state.review_auto_opened
                == before.plan_mode_state.review_auto_opened
            &&& after.input_state == before.input_state
            &&& only_input_differs(
                before,
                (AppState { plan_mode_state: before.plan_mode_state, ..after }),
            )
        },
{
}

} // verus!
