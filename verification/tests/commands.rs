use stakpak_interactive::app_state::{
    AppState, ApprovalBar, ApprovalSettingsPersistenceState, ApprovalSettingsPersistenceTrigger,
    AutoApproveManager, AutoApprovePolicy, Changeset, CommandPaletteState, CommandSource,
    ConfigurationState, DialogApprovalState, Effect, HelperCommand, InputState, Message,
    MessageContent, MessagesScrollingState, ModelSwitcherState, PlanModeState, PlanReviewState,
    ProfileSwitcherState, QueuedToolCall, SessionToolCallsState, ShellCommand, ShellPopupState,
    ShellSessionState, SidePanelState, TextArea, ThemeColor, ToolCallStatus, ToolPolicy,
    UsageTrackingState,
};
use stakpak_interactive::chat::{FunctionCall, ToolCall, ToolCallResult, ToolCallResultStatus};
use stakpak_interactive::commands::approvals::{auto_approved_tools, list_auto_approved_tools};
use stakpak_interactive::commands::execute::{
    enter_plan_mode, execute_command, find_built_in, open_editor_path, run_built_in, BuiltIn,
    CommandContext, CommandStep,
};
use stakpak_interactive::commands::prompts::{
    argument_of, fill_prompt, find_prompt, summarize_session,
};
use stakpak_interactive::commands::registry::{
    commands_to_helper_commands, filter_commands, get_all_commands, is_found_by, Command,
    CommandAction,
};
use stakpak_interactive::commands::sessions::{
    new_session, resume_session, terminate_active_shell,
};
use stakpak_interactive::commands::summary::{
    build_summarize_prompt, collect_recent_user_inputs, context_figures,
};
use stakpak_interactive::events::{
    ExistingPlanPrompt, InputEvent, Model, ModelLimit, OutputEvent, PlanMetadata,
};
use stakpak_interactive::usage::LLMTokenUsage;

fn model_taking(context: u64) -> Model {
    Model {
        id: "m".to_string(),
        name: "M".to_string(),
        provider: "p".to_string(),
        limit: ModelLimit { context, output: 1 },
    }
}

fn idle_state() -> AppState {
    AppState {
        input_state: InputState {
            text_area: TextArea { text: String::new(), cursor: 0, shell_mode: false },
            show_helper_dropdown: true,
            helpers: commands_to_helper_commands(),
        },
        model_switcher_state: ModelSwitcherState {
            is_visible: false,
            is_selected: 3,
            current_model: None,
        },
        messages_scrolling_state: MessagesScrollingState {
            messages: vec![],
            scroll: 5,
            scroll_to_bottom: false,
            stay_at_bottom: false,
        },
        shell_popup_state: ShellPopupState {
            active_shell_command: None,
            active_shell_command_output: None,
            is_visible: false,
            is_expanded: false,
            waiting_for_shell_input: false,
            pending_command_executed: false,
            pending_command_value: None,
            pending_command_output: None,
            pending_command_output_count: 0,
            shell_tool_calls: None,
        },
        shell_session_state: ShellSessionState { interactive_shell_message_id: None },
        dialog_approval_state: DialogApprovalState {
            dialog_command: None,
            message_tool_calls: None,
            message_approved_tools: vec![],
            message_rejected_tools: vec![],
            approval_bar: ApprovalBar { actions: vec![] },
            toggle_approved_message: false,
        },
        session_tool_calls_state: SessionToolCallsState {
            tool_call_execution_order: vec![],
            session_tool_calls_queue: vec![],
        },
        side_panel_state: SidePanelState {
            changeset: Changeset { files: vec![] },
            todos: vec![],
            pending_editor_open: None,
        },
        usage_tracking_state: UsageTrackingState {
            total_session_usage: LLMTokenUsage::none(),
            current_message_usage: LLMTokenUsage::none(),
        },
        plan_mode_state: PlanModeState {
            is_active: false,
            metadata: None,
            content_hash: None,
            previous_status: None,
            review_auto_opened: false,
            existing_prompt: None,
        },
        plan_review_state: PlanReviewState {
            is_visible: false,
            content: String::new(),
            lines: vec![],
            comments: None,
            resolved_anchors: vec![],
            show_comment_modal: false,
            comment_input: String::new(),
            selected_comment: None,
            modal_kind: None,
        },
        configuration_state: ConfigurationState {
            latest_version: Some("v9".to_string()),
            auto_approve_manager: AutoApproveManager { tools: vec![], unsaved_changes: false },
            allowed_tools: None,
            init_prompt_content: Some("INIT".to_string()),
            model: model_taking(1000),
        },
        approval_settings_persistence_state: ApprovalSettingsPersistenceState {
            is_visible: false,
            selected: 1,
            trigger: ApprovalSettingsPersistenceTrigger::Quit,
        },
        profile_switcher_state: ProfileSwitcherState {
            show_profile_switcher: false,
            current_profile_name: "default".to_string(),
        },
        command_palette_state: CommandPaletteState {
            search: String::new(),
            scroll: 0,
            is_selected: 0,
        },
    }
}

fn state_with_input(text: &str) -> AppState {
    let mut state = idle_state();
    state.input_state.text_area.set_text(text);
    state
}

fn tool(id: &str) -> ToolCall {
    ToolCall {
        id: id.to_string(),
        kind: "function".to_string(),
        function: FunctionCall { name: "run".to_string(), arguments: "{}".to_string() },
        metadata: None,
    }
}

fn shell_result() -> ToolCallResult {
    ToolCallResult {
        call: tool("s"),
        result: "out".to_string(),
        status: ToolCallResultStatus::Success,
    }
}

/// What came of a command.
struct Ran {
    state: AppState,
    result: Result<CommandStep, String>,
    inputs: Vec<InputEvent>,
    outputs: Vec<OutputEvent>,
    effects: Vec<Effect>,
}

fn run(id: &str, state: AppState) -> Ran {
    let mut state = state;
    let mut inputs = vec![];
    let mut outputs = vec![];
    let mut effects = vec![];
    let result = execute_command(
        id,
        CommandContext {
            state: &mut state,
            input_tx: &mut inputs,
            output_tx: &mut outputs,
            effects: &mut effects,
        },
    );
    assert_eq!(outputs[0], OutputEvent::CommandCalled(id.to_string()));
    outputs.remove(0);
    Ran { state, result, inputs, outputs, effects }
}

fn assert_input(state: &AppState, text: &str) {
    assert_eq!(state.input_state.text_area.text, text);
    assert_eq!(state.input_state.text_area.cursor, text.len());
    assert!(!state.input_state.show_helper_dropdown);
}

#[test]
fn commands_that_show_something() {
    let cases = vec![
        ("/help", Effect::ShowHelp),
        ("/clear", Effect::ClearScreen),
        ("/status", Effect::ShowStatus),
        ("/issue", Effect::ShowIssue),
        ("/support", Effect::ShowSupport),
    ];
    for (id, effect) in cases {
        let ran = run(id, state_with_input(id));
        assert_eq!(ran.result, Ok(CommandStep::Done));
        assert_eq!(ran.effects, vec![effect]);
        assert_eq!(ran.inputs, vec![]);
        assert_eq!(ran.outputs, vec![]);
        assert_input(&ran.state, "");
    }
}

#[test]
fn commands_that_tell_the_interface() {
    let cases = vec![
        ("/quit", InputEvent::Quit),
        ("/profiles", InputEvent::ShowProfileSwitcher),
        ("/mouse_capture", InputEvent::ToggleMouseCapture),
        ("/shortcuts", InputEvent::ShowShortcuts),
    ];
    for (id, event) in cases {
        let ran = run(id, state_with_input(id));
        assert_eq!(ran.result, Ok(CommandStep::Done));
        assert_eq!(ran.inputs, vec![event]);
        assert_eq!(ran.effects, vec![]);
        assert_eq!(ran.outputs, vec![]);
        assert_eq!(ran.state.profile_switcher_state.show_profile_switcher, id == "/profiles");
        assert_input(&ran.state, "");
    }
}

#[test]
fn commands_that_ask_the_agent() {
    let ran = run("/model", state_with_input("/model"));
    assert!(ran.state.model_switcher_state.is_visible);
    assert_eq!(ran.state.model_switcher_state.is_selected, 0);
    assert_eq!(ran.outputs, vec![OutputEvent::RequestAvailableModels]);
    assert_input(&ran.state, "");
    let ran = run("/sessions", state_with_input("/sessions"));
    assert_eq!(ran.outputs, vec![OutputEvent::ListSessions]);
    assert_input(&ran.state, "");
    let ran = run("/usage", state_with_input("/usage"));
    assert_eq!(ran.outputs, vec![OutputEvent::RequestTotalUsage]);
    assert_eq!(ran.effects, vec![Effect::ShowUsage]);
    assert_input(&ran.state, "");
}

#[test]
fn approval_settings_open_for_the_bare_command() {
    let ran = run("/toggle_auto_approve", state_with_input(" /toggle_auto_approve "));
    assert_eq!(ran.inputs, vec![InputEvent::ShowAutoApprovePopup]);
    assert_input(&ran.state, "");
    let ran = run("/toggle_auto_approve", state_with_input("/tog"));
    assert_eq!(ran.inputs, vec![]);
    assert_input(&ran.state, "/toggle_auto_approve ");
}

#[test]
fn editor_looks_its_path_up() {
    let ran = run("/editor", state_with_input("/editor   src/main.rs "));
    assert_eq!(ran.result, Ok(CommandStep::ResolveEditorPath("src/main.rs".to_string())));
    assert_eq!(ran.state.input_state.text_area.text, "/editor   src/main.rs ");
    let mut state = ran.state;
    let mut effects = vec![];
    open_editor_path(&mut state, &mut effects, "/w/src/main.rs".to_string(), true);
    assert_eq!(state.side_panel_state.pending_editor_open, Some("/w/src/main.rs".to_string()));
    assert_eq!(effects, vec![]);
    assert_input(&state, "");
    let mut state = state_with_input("/editor gone");
    open_editor_path(&mut state, &mut effects, "/w/gone".to_string(), false);
    assert_eq!(state.side_panel_state.pending_editor_open, None);
    assert_eq!(effects, vec![Effect::ShowError("File not found: /w/gone".to_string())]);
    assert_input(&state, "");
    let ran = run("/editor", state_with_input("/editor "));
    assert_eq!(ran.result, Ok(CommandStep::Done));
    assert_input(&ran.state, "/editor ");
}

#[test]
fn plan_mode_looks_for_a_plan() {
    let ran = run("/plan", state_with_input("/plan deploy auth service"));
    let prompt = Some("deploy auth service".to_string());
    assert_eq!(ran.result, Ok(CommandStep::CheckPlanFile(prompt.clone())));
    assert_input(&ran.state, "");
    let mut state = ran.state;
    let mut outputs = vec![];
    enter_plan_mode(&mut state, &mut outputs, prompt.clone(), None);
    assert_eq!(outputs, vec![OutputEvent::PlanModeActivated(prompt.clone())]);
    assert_eq!(state.plan_mode_state.existing_prompt, None);
    let metadata = || Some(PlanMetadata { front_matter: "status: draft".to_string() });
    enter_plan_mode(&mut state, &mut outputs, prompt.clone(), Some(metadata()));
    assert_eq!(outputs.len(), 1);
    assert_eq!(
        state.plan_mode_state.existing_prompt,
        Some(ExistingPlanPrompt { inline_prompt: prompt, metadata: metadata() })
    );
    let ran = run("/plan", state_with_input("/plan"));
    assert_eq!(ran.result, Ok(CommandStep::CheckPlanFile(None)));
}

#[test]
fn plan_mode_is_entered_once() {
    let mut state = state_with_input("/plan more");
    state.plan_mode_state.is_active = true;
    let ran = run("/plan", state);
    assert_eq!(ran.result, Ok(CommandStep::Done));
    assert_eq!(
        ran.effects,
        vec![Effect::ShowStyled(
            " Already in plan mode. Use ctrl+p to review the plan.".to_string(),
            ThemeColor::Yellow,
            "⚠ ".to_string(),
            ThemeColor::Yellow,
        )]
    );
    assert_input(&ran.state, "");
}

fn user_prompt(text: &str, results: Option<Vec<ToolCallResult>>) -> OutputEvent {
    OutputEvent::UserMessage(text.to_string(), results, vec![], None)
}

#[test]
fn init_sends_its_prompt() {
    let mut state = state_with_input("/init");
    state.shell_popup_state.shell_tool_calls = Some(vec![shell_result()]);
    let ran = run("/init", state);
    assert_eq!(ran.outputs, vec![user_prompt("INIT", Some(vec![shell_result()]))]);
    assert_eq!(ran.effects, vec![Effect::InvalidateLines]);
    assert_eq!(
        ran.state.messages_scrolling_state.messages,
        vec![Message { id: None, content: MessageContent::UserMessage("INIT".to_string()) }]
    );
    assert_input(&ran.state, "");
    for missing in [None, Some(" \n".to_string())] {
        let mut state = state_with_input("/init");
        state.configuration_state.init_prompt_content = missing;
        let ran = run("/init", state);
        assert_eq!(ran.outputs, vec![]);
        assert_eq!(
            ran.effects,
            vec![Effect::ShowError("Internal error: init prompt not available".to_string())]
        );
        assert_input(&ran.state, "");
    }
}

#[test]
fn shell_results_go_with_one_prompt() {
    let mut state = state_with_input("/init");
    state.shell_popup_state.shell_tool_calls = Some(vec![shell_result()]);
    let first = run("/init", state);
    let second = run("/init", first.state);
    assert_eq!(second.outputs, vec![user_prompt("INIT", None)]);
}

fn state_with_prompt(input: &str, prompt: &str) -> AppState {
    let mut state = state_with_input(input);
    state.input_state.helpers.push(HelperCommand {
        command: "/review".to_string(),
        description: "Review".to_string(),
        source: CommandSource::BuiltInWithPrompt { prompt_content: prompt.to_string() },
    });
    state.input_state.helpers.push(HelperCommand {
        command: "/review".to_string(),
        description: "Another".to_string(),
        source: CommandSource::Custom { prompt_content: "never".to_string() },
    });
    state
}

#[test]
fn prompt_with_a_place_for_input() {
    let ran = run("/review", state_with_prompt("/review", "Review {input}, all of {input}."));
    assert_eq!(ran.result, Ok(CommandStep::Done));
    assert_eq!(ran.outputs, vec![]);
    assert_input(&ran.state, "/review ");
    for input in ["/review ", " /review"] {
        let ran = run("/review", state_with_prompt(input, "Review {input}."));
        let prompt = "Review (none — review all uncommitted changes).";
        assert_eq!(ran.result, Ok(CommandStep::Done));
        assert_eq!(ran.outputs, vec![user_prompt(prompt, None)]);
        assert_eq!(
            ran.state.messages_scrolling_state.messages,
            vec![Message { id: None, content: MessageContent::UserMessage(prompt.to_string()) }]
        );
        assert_input(&ran.state, "");
    }
    let ran = run("/review", state_with_prompt("/review main", "Review {input}, all of {input}."));
    assert_eq!(ran.outputs, vec![user_prompt("Review main, all of main.", None)]);
    assert_input(&ran.state, "");
    let ran = run("/review", state_with_prompt("", "Review {input}."));
    assert_eq!(
        ran.outputs,
        vec![user_prompt("Review (none — review all uncommitted changes).", None)]
    );
}

#[test]
fn prompt_without_a_place_for_input() {
    let ran = run("/review", state_with_prompt("/review", "Review."));
    assert_eq!(ran.outputs, vec![user_prompt("Review.", None)]);
    assert_eq!(ran.effects, vec![Effect::InvalidateLines]);
    let ran = run("/review", state_with_prompt("/review  main ", "Review."));
    assert_eq!(ran.outputs, vec![user_prompt("Review.\n\nmain", None)]);
}

#[test]
fn unknown_command_changes_nothing() {
    let ran = run("/nope", state_with_input("/nope"));
    assert_eq!(ran.result, Err("Unknown command: /nope".to_string()));
    assert_eq!(ran.state, state_with_input("/nope"));
    assert_eq!(ran.inputs, vec![]);
    assert_eq!(ran.outputs, vec![]);
    assert_eq!(ran.effects, vec![]);
    let mut state = state_with_input("x");
    state.input_state.helpers.push(HelperCommand {
        command: "/plain".to_string(),
        description: "No prompt".to_string(),
        source: CommandSource::BuiltIn,
    });
    assert_eq!(run("/plain", state).result, Err("Unknown command: /plain".to_string()));
}

#[test]
fn done_commands_leave_the_input_ready() {
    for helper in commands_to_helper_commands() {
        let id = helper.command.as_str();
        let ran = run(id, state_with_input(id));
        if ran.result == Ok(CommandStep::Done) {
            let text = ran.state.input_state.text_area.text.clone();
            assert!(text.is_empty() || text == format!("{} ", id));
            assert_input(&ran.state, &text);
        }
        assert!(ran.outputs.len() <= 1);
    }
}

#[test]
fn arguments_behind_a_command() {
    assert_eq!(argument_of(" /plan  x y ", "/plan"), Some("x y".to_string()));
    assert_eq!(argument_of("/planner", "/plan"), Some("ner".to_string()));
    assert_eq!(argument_of("/plan ", "/plan"), None);
    assert_eq!(argument_of("plan x", "/plan"), None);
    assert_eq!(fill_prompt("a", Some("b".to_string())), "a\n\nb");
    let helpers = state_with_prompt("", "P").input_state.helpers;
    assert_eq!(find_prompt(&helpers, "/review"), Some("P".to_string()));
    assert_eq!(find_prompt(&helpers, "/help"), None);
    assert_eq!(find_prompt(&helpers, "/none"), None);
}

fn shown(text: &str) -> Message {
    Message { id: None, content: MessageContent::PlainText(text.to_string()) }
}

fn colored(text: &str) -> Message {
    Message { id: None, content: MessageContent::Plain(text.to_string(), None) }
}

#[test]
fn recent_inputs_are_the_latest() {
    let mut state = idle_state();
    state.messages_scrolling_state.messages = vec![
        colored("→ one "),
        shown("  /two"),
        shown("three"),
        Message { id: Some(1), content: MessageContent::UserMessage("→ four".to_string()) },
        Message { id: Some(2), content: MessageContent::Block("/five".to_string()) },
        shown(" →  six "),
        shown("seven"),
    ];
    let list = |items: &[&str]| -> Vec<String> { items.iter().map(|i| i.to_string()).collect() };
    assert_eq!(collect_recent_user_inputs(&state, 9), list(&["one", "/two", "six"]));
    assert_eq!(collect_recent_user_inputs(&state, 2), list(&["/two", "six"]));
    assert_eq!(collect_recent_user_inputs(&state, 1), list(&["six"]));
    assert_eq!(collect_recent_user_inputs(&state, 0), list(&[]));
    state.messages_scrolling_state.messages.push(shown("/eight"));
    assert_eq!(collect_recent_user_inputs(&state, 0), list(&["/eight"]));
    assert_eq!(collect_recent_user_inputs(&idle_state(), 3), list(&[]));
}

#[test]
fn summary_prompt_gives_figures_and_inputs() {
    let mut state = idle_state();
    state.usage_tracking_state.total_session_usage = LLMTokenUsage {
        prompt_tokens: 100,
        completion_tokens: 23,
        total_tokens: 123,
        prompt_tokens_details: None,
    };
    assert_eq!(context_figures(&state), (123, 1000));
    let end = "\nBe precise, note outstanding TODOs or follow-ups, and reflect any cost or context considerations mentioned earlier.\nWhen ready, create or overwrite `summary.md` using the tool call and populate it with the markdown summary.\n";
    let figures = "\nSession snapshot:\n- Active profile: default\n- Total tokens used: 123 (prompt: 100, completion: 23)\n- Context window usage: 12.3% of 1000 tokens\n";
    assert_eq!(
        build_summarize_prompt(&state, "BASE", "12.3"),
        format!("BASE{}{}", figures, end)
    );
    state.messages_scrolling_state.messages = vec![shown("/a"), shown("→ b")];
    state.model_switcher_state.current_model = Some(model_taking(0x1_0000_0002));
    assert_eq!(context_figures(&state), (123, 2));
    assert_eq!(
        build_summarize_prompt(&state, "BASE", "100.0"),
        format!(
            "BASE{}\nRecent user inputs to emphasize:\n- /a\n- b\n{}",
            figures.replace("12.3% of 1000", "100.0% of 2"),
            end
        )
    );
}

#[test]
fn summary_is_asked_for() {
    let mut state = state_with_input("/summarize");
    state.shell_popup_state.shell_tool_calls = Some(vec![shell_result()]);
    let ran = run("/summarize", state);
    assert_eq!(ran.result, Ok(CommandStep::Summarize));
    let mut state = ran.state;
    assert_eq!(state.input_state.text_area.text, "/summarize");
    let prompt = build_summarize_prompt(&state, "BASE", "0.0");
    let mut outputs = vec![];
    summarize_session(&mut state, &mut outputs, "BASE", "0.0");
    assert_eq!(outputs, vec![user_prompt(&prompt, Some(vec![shell_result()]))]);
    assert_eq!(state.shell_popup_state.shell_tool_calls, None);
    assert_eq!(
        state.messages_scrolling_state.messages,
        vec![
            colored(""),
            Message {
                id: None,
                content: MessageContent::Plain(
                    "Requesting session summary (summary.md)...".to_string(),
                    Some(ThemeColor::Cyan),
                ),
            },
        ]
    );
    assert_input(&state, "");
}

fn busy_state() -> AppState {
    let mut state = state_with_input("typed");
    state.input_state.text_area.shell_mode = true;
    state.messages_scrolling_state.messages = vec![
        Message { id: Some(1), content: MessageContent::Block("one".to_string()) },
        Message { id: Some(2), content: MessageContent::Block("shell".to_string()) },
        shown("three"),
    ];
    state.shell_popup_state.active_shell_command = Some(ShellCommand { number: 4 });
    state.shell_popup_state.active_shell_command_output = Some("out".to_string());
    state.shell_popup_state.is_visible = true;
    state.shell_popup_state.is_expanded = true;
    state.shell_popup_state.waiting_for_shell_input = true;
    state.shell_popup_state.pending_command_executed = true;
    state.shell_popup_state.pending_command_value = Some("ls".to_string());
    state.shell_popup_state.pending_command_output = Some("a".to_string());
    state.shell_popup_state.pending_command_output_count = 7;
    state.shell_popup_state.shell_tool_calls = Some(vec![shell_result()]);
    state.shell_session_state.interactive_shell_message_id = Some(2);
    state.dialog_approval_state.dialog_command = Some(tool("d"));
    state.dialog_approval_state.message_tool_calls = Some(vec![tool("d")]);
    state.dialog_approval_state.message_approved_tools = vec![tool("e")];
    state.dialog_approval_state.message_rejected_tools = vec![tool("f")];
    state.dialog_approval_state.approval_bar.actions = vec![tool("d")];
    state.session_tool_calls_state.tool_call_execution_order = vec!["d".to_string()];
    state.session_tool_calls_state.session_tool_calls_queue =
        vec![QueuedToolCall { id: "d".to_string(), status: ToolCallStatus::Pending }];
    state.side_panel_state.changeset.files = vec!["f".to_string()];
    state.side_panel_state.todos = vec!["t".to_string()];
    state.usage_tracking_state.total_session_usage =
        LLMTokenUsage { total_tokens: 5, ..LLMTokenUsage::none() };
    state.usage_tracking_state.current_message_usage =
        LLMTokenUsage { total_tokens: 5, ..LLMTokenUsage::none() };
    state.plan_mode_state.is_active = true;
    state.plan_mode_state.content_hash = Some("h".to_string());
    state.plan_review_state.is_visible = true;
    state.plan_review_state.content = "plan".to_string();
    state.plan_review_state.selected_comment = Some(1);
    state
}

#[test]
fn shell_is_stopped_once() {
    let mut state = busy_state();
    let mut effects = vec![];
    terminate_active_shell(&mut state, &mut effects);
    assert_eq!(effects, vec![Effect::KillShell(ShellCommand { number: 4 })]);
    let ids: Vec<Option<u128>> =
        state.messages_scrolling_state.messages.iter().map(|m| m.id).collect();
    assert_eq!(ids, vec![Some(1), None]);
    let mut idle = idle_state().shell_popup_state;
    idle.shell_tool_calls = Some(vec![shell_result()]);
    assert_eq!(state.shell_popup_state, idle);
    assert_eq!(state.shell_session_state.interactive_shell_message_id, None);
    assert_eq!(state.dialog_approval_state.dialog_command, None);
    assert!(!state.input_state.text_area.shell_mode);
    assert_eq!(state.input_state.text_area.text, "typed");
    terminate_active_shell(&mut state, &mut effects);
    assert_eq!(effects.len(), 1);
    assert_eq!(state.messages_scrolling_state.messages.len(), 2);
}

#[test]
fn box_of_the_shell_goes_with_it() {
    let mut state = busy_state();
    let mut effects = vec![];
    terminate_active_shell(&mut state, &mut effects);
    assert_eq!(
        state.messages_scrolling_state.messages,
        vec![
            Message { id: Some(1), content: MessageContent::Block("one".to_string()) },
            shown("three"),
        ]
    );
}

#[test]
fn resumed_interface_is_clean() {
    let mut state = busy_state();
    let mut outputs = vec![];
    let mut effects = vec![];
    resume_session(&mut state, &mut outputs, &mut effects);
    assert_eq!(outputs, vec![OutputEvent::ResumeSession]);
    assert_eq!(
        effects,
        vec![
            Effect::KillShell(ShellCommand { number: 4 }),
            Effect::ShowWelcome(Some("v9".to_string())),
            Effect::ShowSystem("Resuming last session.".to_string()),
            Effect::InvalidateLines,
        ]
    );
    let mut clean = idle_state();
    clean.input_state.show_helper_dropdown = false;
    clean.messages_scrolling_state = MessagesScrollingState {
        messages: vec![],
        scroll: 0,
        scroll_to_bottom: true,
        stay_at_bottom: true,
    };
    clean.shell_popup_state.shell_tool_calls = Some(vec![shell_result()]);
    clean.dialog_approval_state.toggle_approved_message = true;
    assert_eq!(state, clean);
    let ran = run("/resume", busy_state());
    assert_eq!(ran.state, clean);
    assert_eq!(ran.effects, effects);
}

#[test]
fn new_session_keeps_approvals_and_plan() {
    let mut state = busy_state();
    let mut outputs = vec![];
    let mut effects = vec![];
    new_session(&mut state, &mut outputs, &mut effects);
    assert_eq!(outputs, vec![OutputEvent::NewSession]);
    assert_eq!(effects[2], Effect::ShowSystem("New session started.".to_string()));
    assert!(state.messages_scrolling_state.messages.is_empty());
    assert!(state.session_tool_calls_state.session_tool_calls_queue.is_empty());
    assert_eq!(state.usage_tracking_state.total_session_usage, LLMTokenUsage::none());
    assert!(state.plan_mode_state.is_active);
    assert_eq!(state.dialog_approval_state.message_approved_tools, vec![tool("e")]);
    assert_eq!(state.dialog_approval_state.dialog_command, None);
    assert_input(&state, "");
}

#[test]
fn unsaved_settings_come_first() {
    let mut state = busy_state();
    state.configuration_state.auto_approve_manager.unsaved_changes = true;
    let ran = run("/new", state);
    assert_eq!(ran.result, Ok(CommandStep::Done));
    let mut asking = busy_state();
    asking.configuration_state.auto_approve_manager.unsaved_changes = true;
    asking.approval_settings_persistence_state = ApprovalSettingsPersistenceState {
        is_visible: true,
        selected: 0,
        trigger: ApprovalSettingsPersistenceTrigger::NewSession,
    };
    assert_eq!(ran.state, asking);
    assert_eq!(ran.outputs, vec![]);
    assert_eq!(ran.effects, vec![]);
}

fn policy(tool: &str, policy: AutoApprovePolicy) -> ToolPolicy {
    ToolPolicy { tool: tool.to_string(), policy }
}

fn policies() -> Vec<ToolPolicy> {
    vec![
        policy("view", AutoApprovePolicy::Auto),
        policy("run", AutoApprovePolicy::Prompt),
        policy("search", AutoApprovePolicy::Auto),
        policy("delete", AutoApprovePolicy::Never),
    ]
}

#[test]
fn listed_tools_are_automatic_and_allowed() {
    assert_eq!(auto_approved_tools(&policies(), &None), vec!["view", "search"]);
    assert_eq!(auto_approved_tools(&policies(), &Some(vec![])), vec!["view", "search"]);
    let allowed = Some(vec!["search".to_string(), "run".to_string()]);
    assert_eq!(auto_approved_tools(&policies(), &allowed), vec!["search"]);
}

#[test]
fn listed_tools_are_distinct() {
    let listed = auto_approved_tools(&policies(), &None);
    for (i, tool) in listed.iter().enumerate() {
        assert!(!listed[i + 1..].contains(tool));
    }
    assert_eq!(listed.len(), 2);
}

fn styled(text: &str, color: ThemeColor) -> Effect {
    Effect::ShowStyled(text.to_string(), color, String::new(), color)
}

#[test]
fn approved_tools_are_listed() {
    let mut state = idle_state();
    state.configuration_state.auto_approve_manager.tools = policies();
    let ran = run("/list_approved_tools", state);
    assert_eq!(
        ran.effects,
        vec![styled("Tools currently set to auto-approve: view, search", ThemeColor::Yellow)]
    );
    assert_eq!(ran.state.messages_scrolling_state.messages, vec![shown("")]);
    assert_input(&ran.state, "");
    let mut state = idle_state();
    let mut effects = vec![];
    list_auto_approved_tools(&mut state, &mut effects);
    state.configuration_state.auto_approve_manager.tools = policies();
    state.configuration_state.allowed_tools = Some(vec!["run".to_string()]);
    list_auto_approved_tools(&mut state, &mut effects);
    assert_eq!(
        effects,
        vec![
            styled("No tools are currently set to auto-approve.", ThemeColor::Cyan),
            styled("No allowed tools are currently set to auto-approve.", ThemeColor::Cyan),
        ]
    );
    assert!(state.messages_scrolling_state.messages.is_empty());
}

#[test]
fn dropdown_commands_are_known_and_distinct() {
    let helpers = commands_to_helper_commands();
    assert_eq!(helpers.len(), 20);
    let mut found = vec![];
    for helper in &helpers {
        assert_eq!(helper.source, CommandSource::BuiltIn);
        let command = find_built_in(&helper.command).unwrap();
        assert!(!found.contains(&command));
        found.push(command);
    }
    assert_eq!(find_built_in("/Help"), None);
    assert_eq!(find_built_in("/quit"), Some(BuiltIn::Quit));
    assert_eq!(helpers[0].description, "Show help information and available commands");
    assert_eq!(
        helpers[13].description,
        "Open Tool Approval settings or enable auto-approval for a specific tool: /toggle_auto_approve <tool name>"
    );
}

#[test]
fn dropdown_holds_every_built_in() {
    for command in [BuiltIn::Editor, BuiltIn::Init, BuiltIn::ListApprovedTools] {
        assert!(commands_to_helper_commands()
            .iter()
            .any(|helper| find_built_in(&helper.command) == Some(command)));
    }
}

#[test]
fn palette_actions_and_shortcuts() {
    let commands = get_all_commands();
    assert_eq!(commands.len(), 14);
    for command in &commands {
        if let Some(id) = command.action.to_command_id() {
            assert!(find_built_in(id).is_some());
        }
        if command.shortcut.starts_with('/') {
            assert_eq!(command.action.to_command_id(), Some(command.shortcut.as_str()));
        }
    }
    assert_eq!(CommandAction::OpenShellMode.to_command_id(), None);
    assert_eq!(CommandAction::SwitchModel.to_command_id(), Some("/model"));
    assert_eq!(commands[13].clone(), Command::new(
        "Plan Mode",
        "Enter plan mode — research and draft before executing",
        "/plan",
        CommandAction::PlanMode,
    ));
}

#[test]
fn queries_leave_what_answers_them() {
    assert_eq!(filter_commands(""), get_all_commands());
    let names = |query: &str| -> Vec<String> {
        filter_commands(query).into_iter().map(|command| command.name).collect()
    };
    assert_eq!(names("RULEB"), vec!["Rulebooks"]);
    assert_eq!(names("session"), vec!["New Session", "Sessions", "Resume", "Usage"]);
    assert_eq!(names("no such thing"), Vec::<String>::new());
    for command in get_all_commands() {
        assert!(filter_commands(&command.name).contains(&command));
    }
    assert!(is_found_by("usage", "show", "sag"));
    assert!(is_found_by("usage", "show", "how"));
    assert!(!is_found_by("usage", "show", "esh"));
}

#[test]
fn built_in_commands_run_directly() {
    let mut state = state_with_input("/quit");
    let (mut inputs, mut outputs, mut effects) = (vec![], vec![], vec![]);
    let step =
        run_built_in(BuiltIn::Quit, &mut state, &mut inputs, &mut outputs, &mut effects);
    assert_eq!(step, CommandStep::Done);
    assert_eq!(inputs, vec![InputEvent::Quit]);
    assert_eq!(outputs, vec![]);
}
