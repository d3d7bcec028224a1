//! The one place that runs a command, wherever it was given.
use vstd::prelude::*;
use vstd::string::*;

use crate::app_state::{
    input_becomes, push_effect, AppState, Effect, EffectView, ModelSwitcherState, PlanModeState,
    ProfileSwitcherState, SidePanelState, ThemeColor,
};
use crate::commands::approvals::{list_auto_approved_tools, list_shown, list_spaced};
use crate::commands::prompts::{
    argument, argument_of, init_effects, init_requests, initialised, input_set, prompt_effects,
    prompt_requests, prompt_use, prompted, run_prompt_command, send_init_prompt,
};
use crate::commands::sessions::{
    asks_about_settings, new_session, opening, ready_for_new, ready_to_resume, resume_session,
    send_output,
};
use crate::events::{
    ExistingPlanPrompt, ExistingPlanPromptView, InputEvent, InputEventView, OutputEvent,
    OutputEventView, PlanMetadata,
};
use crate::text::{concat2, same_text, trim, trimmed};

verus! {

/// A slash command as it is typed, with its slash.
pub type CommandId<'a> = &'a str;

/// What a command reads and changes: the state of the interface, what is told to the
/// interface and to the agent, and what the terminal does besides.
pub struct CommandContext<'a> {
    pub state: &'a mut AppState,
    pub input_tx: &'a mut Vec<InputEvent>,
    pub output_tx: &'a mut Vec<OutputEvent>,
    pub effects: &'a mut Vec<Effect>,
}

/// The commands that the interface knows by itself.
#[derive(Debug, Clone, Copy, PartialEq, Eq, Structural)]
pub enum BuiltIn {
    Help,
    Model,
    Clear,
    Status,
    Sessions,
    Resume,
    New,
    Summarize,
    Usage,
    Issue,
    Support,
    Quit,
    ToggleAutoApprove,
    Profiles,
    ListApprovedTools,
    MouseCapture,
    Editor,
    Shortcuts,
    Plan,
    Init,
}

/// The command that goes by `id`; `None` where the interface knows none.
pub open spec fn built_in(id: Seq<char>) -> Option<BuiltIn> {
    if id == "/help"@ {
        Some(BuiltIn::Help)
    } else if id == "/model"@ {
        Some(BuiltIn::Model)
    } else if id == "/clear"@ {
        Some(BuiltIn::Clear)
    } else if id == "/status"@ {
        Some(BuiltIn::Status)
    } else if id == "/sessions"@ {
        Some(BuiltIn::Sessions)
    } else if id == "/resume"@ {
        Some(BuiltIn::Resume)
    } else if id == "/new"@ {
        Some(BuiltIn::New)
    } else if id == "/summarize"@ {
        Some(BuiltIn::Summarize)
    } else if id == "/usage"@ {
        Some(BuiltIn::Usage)
    } else if id == "/issue"@ {
        Some(BuiltIn::Issue)
    } else if id == "/support"@ {
        Some(BuiltIn::Support)
    } else if id == "/quit"@ {
        Some(BuiltIn::Quit)
    } else if id == "/toggle_auto_approve"@ {
        Some(BuiltIn::ToggleAutoApprove)
    } else if id == "/profiles"@ {
        Some(BuiltIn::Profiles)
    } else if id == "/list_approved_tools"@ {
        Some(BuiltIn::ListApprovedTools)
    } else if id == "/mouse_capture"@ {
        Some(BuiltIn::MouseCapture)
    } else if id == "/editor"@ {
        Some(BuiltIn::Editor)
    } else if id == "/shortcuts"@ {
        Some(BuiltIn::Shortcuts)
    } else if id == "/plan"@ {
        Some(BuiltIn::Plan)
    } else if id == "/init"@ {
        Some(BuiltIn::Init)
    } else {
        None
    }
}

/// The command that goes by `id`.
pub fn find_built_in(id: CommandId<'_>) -> (res: Option<BuiltIn>)
    ensures
        res == built_in(id@),
{
    if same_text(id, "/help") {
        Some(BuiltIn::Help)
    } else if same_text(id, "/model") {
        Some(BuiltIn::Model)
    } else if same_text(id, "/clear") {
        Some(BuiltIn::Clear)
    } else if same_text(id, "/status") {
        Some(BuiltIn::Status)
    } else if same_text(id, "/sessions") {
        Some(BuiltIn::Sessions)
    } else if same_text(id, "/resume") {
        Some(BuiltIn::Resume)
    } else if same_text(id, "/new") {
        Some(BuiltIn::New)
    } else if same_text(id, "/summarize") {
        Some(BuiltIn::Summarize)
    } else if same_text(id, "/usage") {
        Some(BuiltIn::Usage)
    } else if same_text(id, "/issue") {
        Some(BuiltIn::Issue)
    } else if same_text(id, "/support") {
        Some(BuiltIn::Support)
    } else if same_text(id, "/quit") {
        Some(BuiltIn::Quit)
    } else if same_text(id, "/toggle_auto_approve") {
        Some(BuiltIn::ToggleAutoApprove)
    } else if same_text(id, "/profiles") {
        Some(BuiltIn::Profiles)
    } else if same_text(id, "/list_approved_tools") {
        Some(BuiltIn::ListApprovedTools)
    } else if same_text(id, "/mouse_capture") {
        Some(BuiltIn::MouseCapture)
    } else if same_text(id, "/editor") {
        Some(BuiltIn::Editor)
    } else if same_text(id, "/shortcuts") {
        Some(BuiltIn::Shortcuts)
    } else if same_text(id, "/plan") {
        Some(BuiltIn::Plan)
    } else if same_text(id, "/init") {
        Some(BuiltIn::Init)
    } else {
        None
    }
}

/// How a command goes on.
#[derive(Debug, PartialEq, Eq)]
pub enum CommandStep {
    /// It is done.
    Done,
    /// The path is looked up, and [`open_editor_path`] goes on.
    ResolveEditorPath(String),
    /// The plan file is looked for, and [`enter_plan_mode`] goes on with this prompt.
    CheckPlanFile(Option<String>),
    /// The context usage is worked out, and
    /// [`summarize_session`](crate::commands::prompts::summarize_session) goes on.
    Summarize,
}

/// The model of a [`CommandStep`].
pub enum CommandStepView {
    Done,
    ResolveEditorPath(Seq<char>),
    CheckPlanFile(Option<Seq<char>>),
    Summarize,
}

impl DeepView for CommandStep {
    type V = CommandStepView;

    open spec fn deep_view(&self) -> CommandStepView {
        match self {
            CommandStep::Done => CommandStepView::Done,
            CommandStep::ResolveEditorPath(path) => CommandStepView::ResolveEditorPath(path@),
            CommandStep::CheckPlanFile(prompt) => CommandStepView::CheckPlanFile(
                prompt.deep_view(),
            ),
            CommandStep::Summarize => CommandStepView::Summarize,
        }
    }
}

/// What the user has typed.
pub open spec fn typed(state: AppState) -> Seq<char> {
    state.input_state.text_area.text@
}

/// The state after a command of the interface.
pub open spec fn state_after(command: BuiltIn, before: AppState, after: AppState) -> bool {
    match command {
        BuiltIn::Help
        | BuiltIn::Clear
        | BuiltIn::Status
        | BuiltIn::Sessions
        | BuiltIn::Usage
        | BuiltIn::Issue
        | BuiltIn::Support
        | BuiltIn::Quit
        | BuiltIn::MouseCapture
        | BuiltIn::Shortcuts
        | BuiltIn::Plan => input_set(before, after, ""@),
        BuiltIn::Model => input_set(
            AppState {
                model_switcher_state: ModelSwitcherState {
                    is_visible: true,
                    is_selected: 0,
                    ..before.model_switcher_state
                },
                ..before
            },
            after,
            ""@,
        ),
        BuiltIn::Resume => ready_to_resume(before, after),
        BuiltIn::New => if before.configuration_state.auto_approve_manager.unsaved_changes {
            after == asks_about_settings(before)
        } else {
            ready_for_new(before, after)
        },
        BuiltIn::Summarize => after == before,
        BuiltIn::ToggleAutoApprove => if trimmed(typed(before)) == "/toggle_auto_approve"@ {
            input_set(before, after, ""@)
        } else {
            input_set(before, after, "/toggle_auto_approve "@)
        },
        BuiltIn::Profiles => input_set(
            AppState {
                profile_switcher_state: ProfileSwitcherState {
                    show_profile_switcher: true,
                    ..before.profile_switcher_state
                },
                ..before
            },
            after,
            ""@,
        ),
        BuiltIn::ListApprovedTools => {
            &&& input_becomes(before.input_state, after.input_state, ""@)
            &&& list_spaced(before, (AppState { input_state: before.input_state, ..after }))
        },
        BuiltIn::Editor => match argument(typed(before), "/editor "@) {
            Some(_) => after == before,
            None => input_set(before, after, "/editor "@),
        },
        BuiltIn::Init => initialised(before, after),
    }
}

/// What a command of the interface tells the interface.
pub open spec fn tells_interface(command: BuiltIn, before: AppState) -> Seq<InputEventView> {
    match command {
        BuiltIn::Quit => seq![InputEventView::Quit],
        BuiltIn::ToggleAutoApprove => if trimmed(typed(before)) == "/toggle_auto_approve"@ {
            seq![InputEventView::ShowAutoApprovePopup]
        } else {
            Seq::empty()
        },
        BuiltIn::Profiles => seq![InputEventView::ShowProfileSwitcher],
        BuiltIn::MouseCapture => seq![InputEventView::ToggleMouseCapture],
        BuiltIn::Shortcuts => seq![InputEventView::ShowShortcuts],
        _ => Seq::empty(),
    }
}

/// What a command of the interface tells the agent.
pub open spec fn tells_agent(command: BuiltIn, before: AppState) -> Seq<OutputEventView> {
    match command {
        BuiltIn::Model => seq![OutputEventView::RequestAvailableModels],
        BuiltIn::Sessions => seq![OutputEventView::ListSessions],
        BuiltIn::Resume => seq![OutputEventView::ResumeSession],
        BuiltIn::New => if before.configuration_state.auto_approve_manager.unsaved_changes {
            Seq::empty()
        } else {
            seq![OutputEventView::NewSession]
        },
        BuiltIn::Usage => seq![OutputEventView::RequestTotalUsage],
        BuiltIn::Init => init_requests(before),
        _ => Seq::empty(),
    }
}

/// The warning where plan mode is on already.
pub open spec fn already_planning() -> EffectView {
    EffectView::ShowStyled(
        " Already in plan mode. Use ctrl+p to review the plan."@,
        ThemeColor::Yellow,
        "⚠ "@,
        ThemeColor::Yellow,
    )
}

/// What the terminal does for a command of the interface.
pub open spec fn shows(command: BuiltIn, before: AppState) -> Seq<EffectView> {
    match command {
        BuiltIn::Help => seq![EffectView::ShowHelp],
        BuiltIn::Clear => seq![EffectView::ClearScreen],
        BuiltIn::Status => seq![EffectView::ShowStatus],
        BuiltIn::Usage => seq![EffectView::ShowUsage],
        BuiltIn::Issue => seq![EffectView::ShowIssue],
        BuiltIn::Support => seq![EffectView::ShowSupport],
        BuiltIn::Resume => opening(before, "Resuming last session."@),
        BuiltIn::New => if before.configuration_state.auto_approve_manager.unsaved_changes {
            Seq::empty()
        } else {
            opening(before, "New session started."@)
        },
        BuiltIn::ListApprovedTools => seq![list_shown(before)],
        BuiltIn::Plan => if before.plan_mode_state.is_active {
            seq![already_planning()]
        } else {
            Seq::empty()
        },
        BuiltIn::Init => seq![init_effects(before)],
        _ => Seq::empty(),
    }
}

/// How a command of the interface goes on.
pub open spec fn goes_on(command: BuiltIn, before: AppState) -> CommandStepView {
    match command {
        BuiltIn::Editor => match argument(typed(before), "/editor "@) {
            Some(path) => CommandStepView::ResolveEditorPath(path),
            None => CommandStepView::Done,
        },
        BuiltIn::Plan => if before.plan_mode_state.is_active {
            CommandStepView::Done
        } else {
            CommandStepView::CheckPlanFile(argument(typed(before), "/plan"@))
        },
        BuiltIn::Summarize => CommandStepView::Summarize,
        _ => CommandStepView::Done,
    }
}

/// Puts an event for the interface behind the others.
fn send_input(input_tx: &mut Vec<InputEvent>, event: InputEvent)
    ensures
        final(input_tx).deep_view() == old(input_tx).deep_view().push(event.deep_view()),
{
    input_tx.push(event);
    proof {
        assert(input_tx.deep_view() =~= old(input_tx).deep_view().push(event.deep_view()));
    }
}

/// Runs a command that the interface knows by itself.
pub fn run_built_in(
    command: BuiltIn,
    state: &mut AppState,
    input_tx: &mut Vec<InputEvent>,
    output_tx: &mut Vec<OutputEvent>,
    effects: &mut Vec<Effect>,
) -> (res: CommandStep)
    ensures
        state_after(command, *old(state), *final(state)),
        final(input_tx).deep_view() == old(input_tx).deep_view() + tells_interface(
            command,
            *old(state),
        ),
        final(output_tx).deep_view() == old(output_tx).deep_view() + tells_agent(
            command,
            *old(state),
        ),
        final(effects).deep_view() == old(effects).deep_view() + shows(command, *old(state)),
        res.deep_view() == goes_on(command, *old(state)),
{
    let mut step = CommandStep::Done;
    match command {
        BuiltIn::Help => {
            push_effect(effects, Effect::ShowHelp);
            state.input_state.replace("");
        },
        BuiltIn::Model => {
            state.model_switcher_state.is_visible = true;
            state.model_switcher_state.is_selected = 0;
            state.input_state.replace("");
            send_output(output_tx, OutputEvent::RequestAvailableModels);
        },
        BuiltIn::Clear => {
            push_effect(effects, Effect::ClearScreen);
            state.input_state.replace("");
        },
        BuiltIn::Status => {
            push_effect(effects, Effect::ShowStatus);
            state.input_state.replace("");
        },
        BuiltIn::Sessions => {
            send_output(output_tx, OutputEvent::ListSessions);
            state.input_state.replace("");
        },
        BuiltIn::Resume => {
            resume_session(state, output_tx, effects);
        },
        BuiltIn::New => {
            new_session(state, output_tx, effects);
        },
        BuiltIn::Summarize => {
            step = CommandStep::Summarize;
        },
        BuiltIn::Usage => {
            push_effect(effects, Effect::ShowUsage);
            send_output(output_tx, OutputEvent::RequestTotalUsage);
            state.input_state.replace("");
        },
        BuiltIn::Issue => {
            push_effect(effects, Effect::ShowIssue);
            state.input_state.replace("");
        },
        BuiltIn::Support => {
            push_effect(effects, Effect::ShowSupport);
            state.input_state.replace("");
        },
        BuiltIn::Quit => {
            state.input_state.replace("");
            send_input(input_tx, InputEvent::Quit);
        },
        BuiltIn::ToggleAutoApprove => {
            if same_text(
                trim(state.input_state.text_area.text.as_str()),
                "/toggle_auto_approve",
            ) {
                send_input(input_tx, InputEvent::ShowAutoApprovePopup);
                state.input_state.replace("");
            } else {
                state.input_state.replace("/toggle_auto_approve ");
            }
        },
        BuiltIn::Profiles => {
            state.profile_switcher_state.show_profile_switcher = true;
            state.input_state.replace("");
            send_input(input_tx, InputEvent::ShowProfileSwitcher);
        },
        BuiltIn::ListApprovedTools => {
            list_auto_approved_tools(state, effects);
            state.input_state.replace("");
        },
        BuiltIn::MouseCapture => {
            state.input_state.replace("");
            send_input(input_tx, InputEvent::ToggleMouseCapture);
        },
        BuiltIn::Editor => {
            match argument_of(state.input_state.text_area.text.as_str(), "/editor ") {
                Some(path) => {
                    step = CommandStep::ResolveEditorPath(path);
                },
                None => {
                    state.input_state.replace("/editor ");
                },
            }
        },
        BuiltIn::Shortcuts => {
            state.input_state.replace("");
            send_input(input_tx, InputEvent::ShowShortcuts);
        },
        BuiltIn::Plan => {
            if state.plan_mode_state.is_active {
                push_effect(
                    effects,
                    Effect::ShowStyled(
                        " Already in plan mode. Use ctrl+p to review the plan.".to_string(),
                        ThemeColor::Yellow,
                        "⚠ ".to_string(),
                        ThemeColor::Yellow,
                    ),
                );
            } else {
                step =
                CommandStep::CheckPlanFile(
                    argument_of(state.input_state.text_area.text.as_str(), "/plan"),
                );
            }
            state.input_state.replace("");
        },
        BuiltIn::Init => {
            send_init_prompt(state, output_tx, effects);
        },
    }
    proof {
        assert(input_tx.deep_view() =~= old(input_tx).deep_view() + tells_interface(
            command,
            *old(state),
        ));
        assert(output_tx.deep_view() =~= old(output_tx).deep_view() + tells_agent(
            command,
            *old(state),
        ));
        assert(effects.deep_view() =~= old(effects).deep_view() + shows(command, *old(state)));
    }
    step
}

/// The state after a command.
pub open spec fn executed(id: Seq<char>, before: AppState, after: AppState) -> bool {
    match built_in(id) {
        Some(command) => state_after(command, before, after),
        None => prompted(before, after, id),
    }
}

/// What a command tells the interface.
pub open spec fn inputs_of(id: Seq<char>, before: AppState) -> Seq<InputEventView> {
    match built_in(id) {
        Some(command) => tells_interface(command, before),
        None => Seq::empty(),
    }
}

/// What a command tells the agent: first that it was called.
pub open spec fn outputs_of(id: Seq<char>, before: AppState) -> Seq<OutputEventView> {
    seq![OutputEventView::CommandCalled(id)] + match built_in(id) {
        Some(command) => tells_agent(command, before),
        None => prompt_requests(before, id),
    }
}

/// What the terminal does for a command.
pub open spec fn effects_of(id: Seq<char>, before: AppState) -> Seq<EffectView> {
    match built_in(id) {
        Some(command) => shows(command, before),
        None => prompt_effects(before, id),
    }
}

/// The command is neither known to the interface nor has it a prompt in the dropdown.
pub open spec fn is_unknown(id: Seq<char>, before: AppState) -> bool {
    built_in(id) is None && prompt_use(before, id) is Unknown
}

/// How a command that is known goes on.
pub open spec fn step_of(id: Seq<char>, before: AppState) -> CommandStepView {
    match built_in(id) {
        Some(command) => goes_on(command, before),
        None => CommandStepView::Done,
    }
}

/// Runs a command. An error says that nothing is known by that name.
pub fn execute_command(command_id: CommandId<'_>, ctx: CommandContext<'_>) -> (res: Result<
    CommandStep,
    String,
>)
    ensures
        executed(command_id@, *old(ctx.state), *final(ctx.state)),
        final(ctx.input_tx).deep_view() == old(ctx.input_tx).deep_view() + inputs_of(
            command_id@,
            *old(ctx.state),
        ),
        final(ctx.output_tx).deep_view() == old(ctx.output_tx).deep_view() + outputs_of(
            command_id@,
            *old(ctx.state),
        ),
        final(ctx.effects).deep_view() == old(ctx.effects).deep_view() + effects_of(
            command_id@,
            *old(ctx.state),
        ),
        match res {
            Ok(step) => {
                &&& !is_unknown(command_id@, *old(ctx.state))
                &&& step.deep_view() == step_of(command_id@, *old(ctx.state))
            },
            Err(text) => {
                &&& is_unknown(command_id@, *old(ctx.state))
                &&& text@ == "Unknown command: "@ + command_id@
            },
        },
{
    let ghost outputs = ctx.output_tx.deep_view();
    let ghost inputs = ctx.input_tx.deep_view();
    let ghost before = *ctx.state;
    send_output(ctx.output_tx, OutputEvent::CommandCalled(command_id.to_string()));
    match find_built_in(command_id) {
        Some(command) => {
            let step = run_built_in(command, ctx.state, ctx.input_tx, ctx.output_tx, ctx.effects);
            proof {
                assert(ctx.output_tx.deep_view() =~= outputs + outputs_of(command_id@, before));
            }
            Ok(step)
        },
        None => {
            let ran = run_prompt_command(command_id, ctx.state, ctx.output_tx, ctx.effects);
            proof {
                assert(ctx.output_tx.deep_view() =~= outputs + outputs_of(command_id@, before));
                assert(ctx.input_tx.deep_view() =~= inputs + inputs_of(command_id@, before));
            }
            match ran {
                Ok(_) => Ok(CommandStep::Done),
                Err(text) => Err(text),
            }
        },
    }
}

/// The state after the path of the editor was looked up: it is to be opened if there is
/// such a file, and the input is empty in any case.
pub open spec fn path_taken(
    before: AppState,
    after: AppState,
    path: Seq<char>,
    exists_on_disk: bool,
) -> bool {
    &&& input_becomes(before.input_state, after.input_state, ""@)
    &&& exists_on_disk ==> after.side_panel_state.pending_editor_open.deep_view() == Some(path)
    &&& !exists_on_disk ==> after.side_panel_state.pending_editor_open
        == before.side_panel_state.pending_editor_open
    &&& after == (AppState {
        input_state: after.input_state,
        side_panel_state: SidePanelState {
            pending_editor_open: after.side_panel_state.pending_editor_open,
            ..before.side_panel_state
        },
        ..before
    })
}

/// Goes on with the command for the editor once the path was looked up.
pub fn open_editor_path(
    state: &mut AppState,
    effects: &mut Vec<Effect>,
    path: String,
    exists_on_disk: bool,
)
    ensures
        path_taken(*old(state), *final(state), path@, exists_on_disk),
        final(effects).deep_view() == (if exists_on_disk {
            old(effects).deep_view()
        } else {
            old(effects).deep_view().push(EffectView::ShowError("File not found: "@ + path@))
        }),
{
    if exists_on_disk {
        state.side_panel_state.pending_editor_open = Some(path);
    } else {
        push_effect(effects, Effect::ShowError(concat2("File not found: ", path.as_str())));
    }
    state.input_state.replace("");
}

/// The state after the plan file was looked for: where there is one, the user is asked
/// what to do with it.
pub open spec fn plan_checked(
    before: AppState,
    after: AppState,
    inline_prompt: Option<Seq<char>>,
    existing: Option<Option<PlanMetadata>>,
) -> bool {
    match existing {
        Some(metadata) => {
            &&& after.plan_mode_state.existing_prompt.deep_view() == Some(
                ExistingPlanPromptView { inline_prompt, metadata },
            )
            &&& after == (AppState {
                plan_mode_state: PlanModeState {
                    existing_prompt: after.plan_mode_state.existing_prompt,
                    ..before.plan_mode_state
                },
                ..before
            })
        },
        None => after == before,
    }
}

/// Goes on with the command for plan mode once the plan file was looked for. `existing`
/// is its front matter, as far as it could be read, where there is such a file.
pub fn enter_plan_mode(
    state: &mut AppState,
    output_tx: &mut Vec<OutputEvent>,
    inline_prompt: Option<String>,
    existing: Option<Option<PlanMetadata>>,
)
    ensures
        plan_checked(*old(state), *final(state), inline_prompt.deep_view(), existing),
        final(output_tx).deep_view() == (if existing is Some {
            old(output_tx).deep_view()
        } else {
            old(output_tx).deep_view().push(
                OutputEventView::PlanModeActivated(inline_prompt.deep_view()),
            )
        }),
{
    match existing {
        Some(metadata) => {
            state.plan_mode_state.existing_prompt =
            Some(ExistingPlanPrompt { inline_prompt, metadata });
        },
        None => {
            send_output(output_tx, OutputEvent::PlanModeActivated(inline_prompt));
        },
    }
}

} // verus!
