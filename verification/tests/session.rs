use stakpak_interactive::chat::{
    ChatMessage, ContentPart, FunctionCall, ImageUrl, MessageContent, Role, ToolCall,
    ToolCallResult, ToolCallResultStatus,
};
use stakpak_interactive::conversation::{get_unresolved_tool_call_ids, has_pending_tool_calls};
use stakpak_interactive::events::{
    AskUserQuestion, ExistingPlanPrompt, InputEvent, LoadingOperation, Model, ModelLimit,
    OutputEvent, PlanMetadata, SessionInfo, Skill,
};
use stakpak_interactive::session::profile::{
    choose_skills, current_remote_uris, merge_skills, routes_through_stakpak, should_use_warden,
};
use stakpak_interactive::session::restore::{set_session_id, Restored};
use stakpak_interactive::session::stream::{describe_refusal, MAX_RETRY_ATTEMPTS};
use stakpak_interactive::session::tools::{is_ask_user, send_next_tool_from_queue, ToolRun};
use stakpak_interactive::session::turns::{compose_user_message, Enrichment};
use stakpak_interactive::session::{Directive, Next, Session, SessionSettings, Step};
use stakpak_interactive::telemetry::{TelemetryEvent, TelemetrySettings};
use stakpak_interactive::usage::LLMTokenUsage;

fn some_model() -> Model {
    Model {
        id: "m1".to_string(),
        name: "Model One".to_string(),
        provider: "anthropic".to_string(),
        limit: ModelLimit { context: 1000, output: 100 },
    }
}

fn empty_session() -> Session {
    Session::new(some_model())
}

fn local_settings() -> SessionSettings {
    SessionSettings {
        has_stakpak_key: false,
        telemetry: TelemetrySettings {
            anonymous_id: Some("anon".to_string()),
            machine_name: None,
            collect_telemetry: None,
        },
        plan_instructions: "PLAN".to_string(),
    }
}

fn call_of(id: &str, name: &str) -> ToolCall {
    ToolCall {
        id: id.to_string(),
        kind: "function".to_string(),
        function: FunctionCall { name: name.to_string(), arguments: "{}".to_string() },
        metadata: None,
    }
}

fn text_of(role: Role, text: &str) -> ChatMessage {
    ChatMessage {
        role,
        content: Some(MessageContent::String(text.to_string())),
        ..Default::default()
    }
}

fn result_of(id: &str, text: &str) -> ChatMessage {
    ChatMessage { tool_call_id: Some(id.to_string()), ..text_of(Role::Tool, text) }
}

fn asks_for(calls: Vec<ToolCall>) -> ChatMessage {
    ChatMessage { tool_calls: Some(calls), ..text_of(Role::Assistant, "assistant") }
}

fn outcome(id: &str, text: &str) -> ToolCallResult {
    ToolCallResult {
        call: call_of(id, "run"),
        result: text.to_string(),
        status: ToolCallResultStatus::Success,
    }
}

fn start(op: LoadingOperation) -> Directive {
    Directive::Send(InputEvent::StartLoadingOperation(op))
}

fn end(op: LoadingOperation) -> Directive {
    Directive::Send(InputEvent::EndLoadingOperation(op))
}

fn complaint(text: &str) -> Directive {
    Directive::Send(InputEvent::Error(text.to_string()))
}

fn waiting(directives: Vec<Directive>) -> Step {
    Step { directives, next: Next::AwaitEvent }
}

fn question(json: &str) -> AskUserQuestion {
    AskUserQuestion { json: json.to_string() }
}

/// A session in which the assistant asked for the calls `a`, `b` and `c`, with `a` put
/// before the user.
fn session_with_three_calls() -> Session {
    let mut session = empty_session();
    session.messages.push(text_of(Role::User, "go"));
    let calls = vec![call_of("a", "run"), call_of("b", "run"), call_of("c", "run")];
    let step = session.on_response(asks_for(calls), &None, &LLMTokenUsage::none());
    match step.next {
        Next::FinishResponse(calls) => {
            let step = session.finish_response(None, calls);
            assert_eq!(step.next, Next::AwaitEvent);
        }
        other => panic!("unexpected step: {:?}", other),
    }
    session
}

#[test]
fn new_session_is_empty() {
    let session = empty_session();
    assert_eq!(session.model, some_model());
    assert!(session.messages.is_empty());
    assert!(session.tools_queue.is_empty());
    assert!(!session.has_pending());
    assert_eq!(session.current_session_id, None);
    assert_eq!(session.total_session_usage, LLMTokenUsage::none());
}

#[test]
fn user_message_is_put_together() {
    let mut session = empty_session();
    let settings = local_settings();
    let step = session.on_output_event(
        &settings,
        OutputEvent::UserMessage("hello".to_string(), None, vec![], None),
    );
    assert_eq!(step.directives, vec![]);
    assert_eq!(step.next, Next::PrepareUserMessage("hello".to_string(), None, vec![]));
    let (text, enrichment) =
        session.begin_user_message("hello".to_string(), Some("$ ls".to_string()), true);
    assert_eq!(text, "$ ls\n\nhello");
    assert_eq!(enrichment, Some(Enrichment { is_first: true, force: false }));
    let text = session.add_plan_instructions("PLAN", text);
    assert_eq!(text, "$ ls\n\nhello");
    let step = session.finish_user_message(&settings, text, vec![]);
    assert_eq!(session.messages, vec![text_of(Role::User, "$ ls\n\nhello")]);
    assert_eq!(step.next, Next::CallModel);
    assert_eq!(step.directives.len(), 3);
    assert_eq!(step.directives[0], Directive::Send(InputEvent::HasUserMessage));
    match &step.directives[1] {
        Directive::Report(payload) => assert_eq!(payload.event, TelemetryEvent::UserPrompted),
        other => panic!("unexpected directive: {:?}", other),
    }
    assert_eq!(step.directives[2], start(LoadingOperation::StreamProcessing));
}

#[test]
fn prompts_are_not_reported_with_a_key() {
    let settings = SessionSettings { has_stakpak_key: true, ..local_settings() };
    let step = empty_session().finish_user_message(&settings, "hello".to_string(), vec![]);
    assert_eq!(
        step.directives,
        vec![Directive::Send(InputEvent::HasUserMessage), start(LoadingOperation::StreamProcessing)]
    );
}

#[test]
fn report_tells_nothing_of_the_message() {
    let settings = local_settings();
    let first = empty_session().finish_user_message(&settings, "secret".to_string(), vec![]);
    let mut other = session_with_three_calls();
    let second = other.finish_user_message(&settings, "another".to_string(), vec![]);
    assert_eq!(first.directives, second.directives);
}

fn picture() -> ContentPart {
    ContentPart {
        kind: "image_url".to_string(),
        text: None,
        image_url: Some(ImageUrl { url: "data:".to_string(), detail: None }),
    }
}

#[test]
fn pictures_come_behind_the_text() {
    let text =
        ContentPart { kind: "text".to_string(), text: Some("look".to_string()), image_url: None };
    assert_eq!(
        compose_user_message("look".to_string(), vec![picture()]).content,
        Some(MessageContent::Array(vec![text, picture()]))
    );
    let blank = compose_user_message(" \n".to_string(), vec![picture()]);
    assert_eq!(blank.content, Some(MessageContent::Array(vec![picture()])));
    assert_eq!(blank.role, Role::User);
    assert_eq!(
        compose_user_message("".to_string(), vec![]).content,
        Some(MessageContent::String("".to_string()))
    );
}

#[test]
fn user_message_follows_cancelled_results() {
    let mut session = session_with_three_calls();
    let step = session.finish_user_message(&local_settings(), "stop".to_string(), vec![]);
    assert_eq!(step.next, Next::CallModel);
    assert_eq!(
        session.messages[2..],
        [
            result_of("b", "TOOL_CALL_CANCELLED"),
            result_of("c", "TOOL_CALL_CANCELLED"),
            result_of("a", "TOOL_CALL_CANCELLED"),
            text_of(Role::User, "stop"),
        ]
    );
    assert!(!session.has_pending());
}

#[test]
fn cancelling_answers_all_calls() {
    let mut session = session_with_three_calls();
    session.cancel_tools();
    assert!(session.tools_queue.is_empty());
    assert!(get_unresolved_tool_call_ids(&session.messages).is_empty());
    let length = session.messages.len();
    session.cancel_tools();
    assert_eq!(session.messages.len(), length);
}

#[test]
fn revert_keeps_earlier_messages() {
    let mut session = empty_session();
    session.messages = vec![
        text_of(Role::User, "one"),
        text_of(Role::Assistant, "1"),
        text_of(Role::User, "two"),
        text_of(Role::Assistant, "2"),
    ];
    session.tools_queue = vec![call_of("a", "run")];
    session.revert_to(Some(3));
    assert_eq!(session.messages.len(), 4);
    assert_eq!(session.tools_queue.len(), 1);
    session.revert_to(Some(0));
    assert_eq!(session.messages.len(), 4);
    session.revert_to(None);
    assert_eq!(session.messages.len(), 4);
    let step = session.on_user_message("two again".to_string(), None, vec![], Some(2));
    assert_eq!(step.directives, vec![]);
    assert_eq!(session.messages, vec![text_of(Role::User, "one"), text_of(Role::Assistant, "1")]);
    assert!(session.tools_queue.is_empty());
}

#[test]
fn context_goes_with_first_message_and_after_change() {
    let mut session = empty_session();
    session.messages.push(text_of(Role::User, "one"));
    assert_eq!(session.begin_user_message("x".to_string(), None, true), ("x".to_string(), None));
    session.on_skills_changed();
    let (_, enrichment) = session.begin_user_message("x".to_string(), None, false);
    assert_eq!(enrichment, None);
    assert!(session.should_refresh_skills_on_next_message);
    let (_, enrichment) = session.begin_user_message("x".to_string(), None, true);
    assert_eq!(enrichment, Some(Enrichment { is_first: false, force: true }));
    let (_, enrichment) = session.begin_user_message("x".to_string(), None, true);
    assert_eq!(enrichment, None);
}

#[test]
fn plan_instructions_go_before_one_message() {
    let mut session = empty_session();
    assert_eq!(session.add_plan_instructions("PLAN", "x".to_string()), "x");
    let step = session.on_output_event(&local_settings(), OutputEvent::PlanModeActivated(None));
    assert_eq!(step, waiting(vec![Directive::Send(InputEvent::PlanModeChanged(true))]));
    assert_eq!(session.add_plan_instructions("PLAN", "x".to_string()), "PLAN x");
    assert_eq!(session.add_plan_instructions("PLAN", "y".to_string()), "y");
}

#[test]
fn plan_prompt_is_sent_at_once() {
    let mut session = empty_session();
    let step = session.on_output_event(
        &local_settings(),
        OutputEvent::PlanModeActivated(Some("deploy".to_string())),
    );
    assert_eq!(session.messages, vec![text_of(Role::User, "PLAN deploy")]);
    assert_eq!(step.next, Next::CallModel);
    assert_eq!(
        step.directives,
        vec![
            Directive::Send(InputEvent::PlanModeChanged(true)),
            Directive::Send(InputEvent::HasUserMessage),
            start(LoadingOperation::StreamProcessing),
        ]
    );
    assert_eq!(session.add_plan_instructions("PLAN", "x".to_string()), "x");
}

#[test]
fn plan_review_is_sent() {
    let mut session = empty_session();
    let step = session
        .on_output_event(&local_settings(), OutputEvent::PlanFeedback("shorter".to_string()));
    assert_eq!(step.next, Next::CallModel);
    assert_eq!(step.directives[1], Directive::Send(InputEvent::AddUserMessage("shorter".to_string())));
    let step = session.on_output_event(&local_settings(), OutputEvent::PlanApproved);
    assert_eq!(step.next, Next::CallModel);
    let approval = "Plan approved. Update the plan front matter status to `approved` and proceed with creating a new task board breaking down the plan.";
    assert_eq!(session.messages[1], text_of(Role::User, approval));
}

#[test]
fn plan_review_waits_for_tools() {
    let mut session = session_with_three_calls();
    let step = session
        .on_output_event(&local_settings(), OutputEvent::PlanFeedback("shorter".to_string()));
    assert_eq!(step.next, Next::AwaitEvent);
    assert_eq!(step.directives.len(), 2);
}

#[test]
fn plan_mode_at_the_start() {
    let mut session = empty_session();
    let meta = || PlanMetadata { front_matter: "status: draft".to_string() };
    let directives = session.start_plan_mode(Some(Some(meta())));
    assert!(!session.plan_mode_active);
    assert_eq!(
        directives,
        vec![Directive::Send(InputEvent::ExistingPlanFound(ExistingPlanPrompt {
            inline_prompt: None,
            metadata: Some(meta()),
        }))]
    );
    let directives = session.start_plan_mode(None);
    assert!(session.plan_mode_active);
    assert_eq!(directives, vec![Directive::Send(InputEvent::PlanModeChanged(true))]);
}

#[test]
fn response_accounts_for_tools() {
    let session = session_with_three_calls();
    assert_eq!(session.tools_queue, vec![call_of("b", "run"), call_of("c", "run")]);
    assert_eq!(get_unresolved_tool_call_ids(&session.messages), vec!["a", "b", "c"]);
}

#[test]
fn tools_are_taken_up_one_by_one() {
    let mut session = session_with_three_calls();
    let step = session.on_output_event(
        &local_settings(),
        OutputEvent::RejectTool(call_of("a", "run"), false),
    );
    assert_eq!(step, waiting(vec![Directive::Present(call_of("b", "run"))]));
    let step =
        session.on_output_event(&local_settings(), OutputEvent::AskUserResponse(outcome("b", "yes")));
    assert_eq!(
        step,
        waiting(vec![
            Directive::Send(InputEvent::ToolResult(outcome("b", "yes"))),
            Directive::Present(call_of("c", "run")),
        ])
    );
    let step = session.on_output_event(
        &local_settings(),
        OutputEvent::SendToolResult(outcome("c", "done"), false, vec![]),
    );
    assert_eq!(step.next, Next::CallModel);
    assert_eq!(
        step.directives,
        vec![
            start(LoadingOperation::ToolExecution),
            end(LoadingOperation::ToolExecution),
            start(LoadingOperation::StreamProcessing),
        ]
    );
    assert_eq!(
        session.messages[2..],
        [result_of("a", "TOOL_CALL_REJECTED"), result_of("b", "yes"), result_of("c", "done")]
    );
}

#[test]
fn rejecting_the_last_call_can_stop() {
    let mut session = empty_session();
    session.messages.push(asks_for(vec![call_of("a", "run")]));
    let step = session.on_reject_tool(call_of("a", "run"), true);
    assert_eq!(step, waiting(vec![]));
    assert!(!session.has_pending());
}

#[test]
fn stopped_result_hands_calls_back() {
    let mut session = empty_session();
    session.messages.push(asks_for(vec![call_of("a", "run"), call_of("b", "run")]));
    let step =
        session.on_send_tool_result(outcome("a", "x"), true, vec![call_of("b", "run")]);
    assert_eq!(step.next, Next::AwaitEvent);
    assert_eq!(step.directives[2], Directive::Present(call_of("b", "run")));
    assert!(session.tools_queue.is_empty());
    let mut other = empty_session();
    other.messages.push(asks_for(vec![call_of("a", "run"), call_of("b", "run")]));
    let step = other.on_send_tool_result(outcome("a", "x"), false, vec![call_of("b", "run")]);
    assert_eq!(step.next, Next::AwaitEvent);
    assert_eq!(step.directives.len(), 2);
}

fn finished(status: ToolCallResultStatus, parts: &[Option<&str>]) -> ToolRun {
    ToolRun {
        status,
        content: parts.iter().map(|part| part.map(|text| text.to_string())).collect(),
    }
}

#[test]
fn output_of_a_tool_as_text() {
    let parts = [Some("E1"), None, Some(""), Some("bad"), Some("very")];
    assert_eq!(finished(ToolCallResultStatus::Success, &parts).text(), "E1\nbad\nvery");
    assert_eq!(finished(ToolCallResultStatus::Error, &parts).text(), "[E1] bad: very");
    assert_eq!(finished(ToolCallResultStatus::Error, &[Some("E1")]).text(), "E1");
    assert_eq!(finished(ToolCallResultStatus::Success, &[]).text(), "");
}

#[test]
fn accepted_tool_is_run() {
    let mut session = session_with_three_calls();
    let step =
        session.on_output_event(&local_settings(), OutputEvent::AcceptTool(call_of("a", "run")));
    assert_eq!(step.directives, vec![start(LoadingOperation::ToolExecution)]);
    assert_eq!(step.next, Next::RunTool(call_of("a", "run")));
    let run = finished(ToolCallResultStatus::Success, &[Some("ok")]);
    let step = session.on_tool_finished(call_of("a", "run"), Some(run));
    assert_eq!(
        step,
        waiting(vec![
            Directive::Send(InputEvent::ToolResult(outcome("a", "ok"))),
            end(LoadingOperation::ToolExecution),
            Directive::Present(call_of("b", "run")),
        ])
    );
    assert_eq!(session.messages.last(), Some(&result_of("a", "ok")));
}

#[test]
fn last_finished_tool_calls_the_model() {
    let mut session = empty_session();
    session.messages.push(asks_for(vec![call_of("a", "run")]));
    let run = finished(ToolCallResultStatus::Success, &[Some("ok")]);
    let step = session.on_tool_finished(call_of("a", "run"), Some(run));
    assert_eq!(step.next, Next::CallModel);
    assert!(!has_pending_tool_calls(&session.messages, &session.tools_queue));
}

#[test]
fn answered_call_gets_no_second_result() {
    let mut session = empty_session();
    session.messages =
        vec![asks_for(vec![call_of("a", "run")]), result_of("a", "TOOL_CALL_CANCELLED")];
    let run = finished(ToolCallResultStatus::Success, &[Some("late")]);
    let step = session.on_tool_finished(call_of("a", "run"), Some(run));
    assert_eq!(session.messages.len(), 2);
    assert_eq!(
        step.directives,
        vec![end(LoadingOperation::ToolExecution), start(LoadingOperation::StreamProcessing)]
    );
}

#[test]
fn cancelled_run_leaves_result_only_before_others() {
    let mut session = session_with_three_calls();
    let cancelled = || Some(finished(ToolCallResultStatus::Cancelled, &[Some("x")]));
    let step = session.on_tool_finished(call_of("a", "run"), cancelled());
    assert_eq!(
        step,
        waiting(vec![
            end(LoadingOperation::ToolExecution),
            Directive::Present(call_of("b", "run")),
        ])
    );
    assert_eq!(session.messages.last(), Some(&result_of("a", "TOOL_CALL_CANCELLED")));
    let mut last = empty_session();
    last.messages.push(asks_for(vec![call_of("a", "run")]));
    let step = last.on_tool_finished(call_of("a", "run"), cancelled());
    assert_eq!(step, waiting(vec![end(LoadingOperation::ToolExecution)]));
    assert_eq!(last.messages.len(), 1);
}

#[test]
fn tool_without_a_runner_ends_loading() {
    let mut session = empty_session();
    session.messages.push(asks_for(vec![call_of("a", "run")]));
    let step = session.on_tool_finished(call_of("a", "run"), None);
    assert_eq!(step, waiting(vec![end(LoadingOperation::ToolExecution)]));
}

#[test]
fn calls_that_ask_the_user() {
    assert!(is_ask_user(&call_of("q", "ask_user")));
    assert!(is_ask_user(&call_of("q", "stakpak__ask_user")));
    assert!(!is_ask_user(&call_of("q", "other__ask_user")));
    assert!(!is_ask_user(&call_of("q", "stakpak__stakpak__ask_user")));
}

#[test]
fn questions_are_shown_without_approval() {
    let ask = || call_of("q", "stakpak__ask_user");
    assert_eq!(
        send_next_tool_from_queue(ask(), Some(vec![question("{}")])),
        InputEvent::ShowAskUserPopup(ask(), vec![question("{}")])
    );
    assert_eq!(send_next_tool_from_queue(ask(), Some(vec![])), InputEvent::RunToolCall(ask()));
    assert_eq!(send_next_tool_from_queue(ask(), None), InputEvent::RunToolCall(ask()));
    let run = || call_of("a", "run");
    assert_eq!(
        send_next_tool_from_queue(run(), Some(vec![question("{}")])),
        InputEvent::RunToolCall(run())
    );
}

#[test]
fn accepted_questions_are_shown_or_complained_about() {
    let ask = || call_of("q", "ask_user");
    let mut session = empty_session();
    session.messages.push(asks_for(vec![ask(), call_of("b", "run")]));
    session.tools_queue.push(call_of("b", "run"));
    let step = session.on_output_event(&local_settings(), OutputEvent::AcceptTool(ask()));
    assert_eq!(step, Step { directives: vec![], next: Next::ParseQuestions(ask()) });
    let step = session.on_questions_parsed(ask(), Ok(vec![question("{}")]));
    assert_eq!(
        step,
        waiting(vec![Directive::Send(InputEvent::ShowAskUserPopup(ask(), vec![question("{}")]))])
    );
    assert_eq!(session.messages.len(), 1);
    let step = session.on_questions_parsed(ask(), Err("EOF".to_string()));
    let text = "Failed to parse ask_user arguments: EOF";
    let shown = |text: &str| {
        Directive::Send(InputEvent::ToolResult(ToolCallResult {
            call: ask(),
            result: text.to_string(),
            status: ToolCallResultStatus::Error,
        }))
    };
    assert_eq!(step, waiting(vec![shown(text), Directive::Present(call_of("b", "run"))]));
    assert_eq!(session.messages.last(), Some(&result_of("q", text)));
    let mut other = empty_session();
    other.messages.push(asks_for(vec![ask()]));
    let step = other.on_questions_parsed(ask(), Ok(vec![]));
    let text = "ask_user tool was called with no questions";
    assert_eq!(
        step,
        Step {
            directives: vec![shown(text), start(LoadingOperation::StreamProcessing)],
            next: Next::CallModel,
        }
    );
    assert_eq!(other.messages.last(), Some(&result_of("q", text)));
    let mut waits = empty_session();
    waits.messages.push(asks_for(vec![ask(), call_of("b", "run")]));
    let step = waits.on_questions_parsed(ask(), Ok(vec![]));
    assert_eq!(step, waiting(vec![shown(text)]));
}

#[test]
fn refused_requests_are_described() {
    assert_eq!(describe_refusal("no such model: x"), "no such model: x");
    assert_eq!(
        describe_refusal("Server returned non-stream response: {\"a\": 1}"),
        "{\"a\": 1}"
    );
    assert_eq!(
        describe_refusal("Server returned non-stream response"),
        "Server returned non-stream response"
    );
    let step = empty_session().on_stream_refused("Server returned non-stream response: busy");
    assert_eq!(
        step,
        waiting(vec![end(LoadingOperation::StreamProcessing), complaint("busy")])
    );
}

#[test]
fn cancelled_stream_is_reported() {
    assert_eq!(
        empty_session().on_stream_cancelled(),
        waiting(vec![end(LoadingOperation::StreamProcessing), complaint("STREAM_CANCELLED")])
    );
}

#[test]
fn retries_are_bounded() {
    let mut session = empty_session();
    session.messages.push(text_of(Role::User, "go"));
    for attempt in 1..=MAX_RETRY_ATTEMPTS {
        let step = session.on_stream_failed(true, "x".to_string());
        assert_eq!(step.next, Next::RetryModel);
        assert_eq!(step.directives, vec![complaint(&format!("RETRY_ATTEMPT_{}", attempt))]);
    }
    assert_eq!(MAX_RETRY_ATTEMPTS, 2);
    let step = session.on_stream_failed(true, "x".to_string());
    assert_eq!(
        step,
        waiting(vec![end(LoadingOperation::StreamProcessing), complaint("MAX_RETRY_REACHED")])
    );
    session.on_response(text_of(Role::Assistant, "ok"), &None, &LLMTokenUsage::none());
    assert_eq!(session.on_stream_failed(true, "x".to_string()).next, Next::RetryModel);
}

#[test]
fn broken_stream_keeps_conversation() {
    let mut session = empty_session();
    session.messages.push(text_of(Role::User, "go"));
    let step = session.on_stream_failed(false, "Unknown(\"x\")".to_string());
    assert_eq!(
        step,
        waiting(vec![end(LoadingOperation::StreamProcessing), complaint("Unknown(\"x\")")])
    );
    session.on_stream_failed(true, "x".to_string());
    assert_eq!(session.messages, vec![text_of(Role::User, "go")]);
    assert!(session.tools_queue.is_empty());
}

fn metadata_with_session(id: &str) -> Option<serde_json::Value> {
    let mut map = serde_json::Map::new();
    map.insert("session_id".to_string(), serde_json::Value::from(id));
    map.insert("state_metadata".to_string(), serde_json::Value::from("state"));
    Some(serde_json::Value::Object(map))
}

#[test]
fn response_joins_the_session() {
    let mut session = empty_session();
    let id = "00000000-0000-0000-0000-000000000005";
    let usage = LLMTokenUsage {
        prompt_tokens: 3,
        completion_tokens: 4,
        total_tokens: 7,
        prompt_tokens_details: None,
    };
    let step =
        session.on_response(text_of(Role::Assistant, "hi"), &metadata_with_session(id), &usage);
    assert_eq!(
        step,
        Step {
            directives: vec![
                Directive::Send(InputEvent::SetSessionId(id.to_string())),
                Directive::Send(InputEvent::TotalUsage(usage)),
            ],
            next: Next::FinishResponse(None),
        }
    );
    assert_eq!(session.current_session_id, Some(5));
    assert_eq!(session.current_metadata, Some(serde_json::Value::from("state")));
    assert_eq!(session.messages, vec![text_of(Role::Assistant, "hi")]);
    let step = session.on_response(
        text_of(Role::Assistant, "again"),
        &metadata_with_session("00000000-0000-0000-0000-000000000006"),
        &LLMTokenUsage::none(),
    );
    assert_eq!(step.directives.len(), 1);
    assert_eq!(session.current_session_id, Some(6));
    assert_eq!(session.total_session_usage, usage);
}

#[test]
fn usage_of_a_session_is_the_sum() {
    let mut session = empty_session();
    for total in [5, 7, 30] {
        let usage = LLMTokenUsage { total_tokens: total, ..LLMTokenUsage::none() };
        session.on_response(text_of(Role::Assistant, "x"), &None, &usage);
    }
    assert_eq!(session.total_session_usage.total_tokens, 42);
}

#[test]
fn checkpoint_is_looked_up_without_a_session() {
    let mut session = empty_session();
    let name = "00000000-0000-0000-0000-000000000009";
    assert_eq!(session.checkpoint_to_look_up(Some(name)), Some(9));
    assert_eq!(session.checkpoint_to_look_up(Some("nine")), None);
    assert_eq!(session.checkpoint_to_look_up(None), None);
    let step = session.finish_response(Some(1), None);
    assert_eq!(
        step,
        waiting(vec![Directive::Send(InputEvent::SetSessionId(
            "00000000-0000-0000-0000-000000000001".to_string()
        ))])
    );
    assert_eq!(session.checkpoint_to_look_up(Some(name)), None);
    assert_eq!(session.finish_response(Some(2), None), waiting(vec![]));
    assert_eq!(session.current_session_id, Some(1));
}

#[test]
fn empty_list_of_calls_is_told() {
    let mut session = empty_session();
    let step = session.finish_response(None, Some(vec![]));
    assert_eq!(step, waiting(vec![Directive::Send(InputEvent::MessageToolCalls(vec![]))]));
}

#[test]
fn session_ids_are_written_in_hexadecimal() {
    assert_eq!(
        set_session_id(&mut None, 0x0123456789abcdef_fedcba9876543210),
        Some(InputEvent::SetSessionId("01234567-89ab-cdef-fedc-ba9876543210".to_string()))
    );
}

#[test]
fn interface_learns_of_the_session_once() {
    let mut current = None;
    let event = set_session_id(&mut current, 3);
    assert_eq!(
        event,
        Some(InputEvent::SetSessionId("00000000-0000-0000-0000-000000000003".to_string()))
    );
    assert_eq!(set_session_id(&mut current, 4), None);
    assert_eq!(current, Some(4));
}

fn saved() -> Restored {
    Restored {
        messages: vec![text_of(Role::User, "old"), asks_for(vec![call_of("x", "run")])],
        tool_calls: vec![call_of("x", "run"), call_of("y", "run")],
        session_id: 8,
        metadata: Some(serde_json::Value::from("saved")),
    }
}

#[test]
fn resumed_session_comes_behind() {
    let mut session = empty_session();
    session.messages.push(text_of(Role::User, "now"));
    session.total_session_usage = LLMTokenUsage { total_tokens: 9, ..LLMTokenUsage::none() };
    let step = session.on_resumed(Some(saved()));
    assert_eq!(
        step,
        waiting(vec![
            Directive::Send(InputEvent::SetSessionId(
                "00000000-0000-0000-0000-000000000008".to_string()
            )),
            Directive::Send(InputEvent::MessageToolCalls(vec![
                call_of("x", "run"),
                call_of("y", "run"),
            ])),
            Directive::Present(call_of("x", "run")),
            end(LoadingOperation::CheckpointResume),
        ])
    );
    assert_eq!(session.messages.len(), 3);
    assert_eq!(session.messages[0], text_of(Role::User, "now"));
    assert_eq!(session.tools_queue, vec![call_of("y", "run")]);
    assert_eq!(session.total_session_usage, LLMTokenUsage::none());
    assert_eq!(session.current_session_id, Some(8));
    assert_eq!(session.current_metadata, Some(serde_json::Value::from("saved")));
    assert!(session.should_refresh_skills_on_next_message);
    let before = session.messages.len();
    assert_eq!(session.on_resumed(None), waiting(vec![end(LoadingOperation::CheckpointResume)]));
    assert_eq!(session.messages.len(), before);
}

#[test]
fn session_named_at_the_start() {
    let mut session = empty_session();
    let directives = session.on_session_loaded(saved());
    assert_eq!(directives.len(), 3);
    assert_eq!(directives[2], Directive::Present(call_of("x", "run")));
    session.add_system_prompt(Some("be kind".to_string()));
    assert_eq!(session.messages[0], text_of(Role::System, "be kind"));
    assert_eq!(session.messages.len(), 3);
    session.add_system_prompt(None);
    assert_eq!(session.messages.len(), 3);
}

#[test]
fn checkpoint_named_at_the_start() {
    let mut session = empty_session();
    let directives =
        session.on_checkpoint_loaded(vec![text_of(Role::User, "old")], vec![], None);
    assert_eq!(directives, vec![]);
    assert_eq!(session.current_session_id, None);
    assert!(!session.should_refresh_skills_on_next_message);
    let directives = session.on_checkpoint_found(2);
    assert_eq!(
        directives,
        vec![Directive::Send(InputEvent::SetSessionId(
            "00000000-0000-0000-0000-000000000002".to_string()
        ))]
    );
    assert_eq!(session.on_checkpoint_found(3), vec![]);
    assert_eq!(session.current_session_id, Some(3));
    let directives = session.on_checkpoint_loaded(
        vec![],
        vec![call_of("x", "run")],
        Some(serde_json::Value::from("saved")),
    );
    assert_eq!(
        directives,
        vec![
            Directive::Send(InputEvent::MessageToolCalls(vec![call_of("x", "run")])),
            Directive::Present(call_of("x", "run")),
        ]
    );
    assert_eq!(session.current_metadata, Some(serde_json::Value::from("saved")));
    assert_eq!(session.messages, vec![text_of(Role::User, "old")]);
}

#[test]
fn current_or_newest_session_is_resumed() {
    let mut session = empty_session();
    let settings = local_settings();
    let step = session.on_output_event(&settings, OutputEvent::ResumeSession);
    assert_eq!(step, Step { directives: vec![], next: Next::FindSession });
    let info = |id: &str| SessionInfo { id: id.to_string(), title: "t".to_string() };
    let step = session.on_sessions_found(Some(vec![info("new"), info("old")]));
    assert_eq!(
        step,
        Step {
            directives: vec![start(LoadingOperation::CheckpointResume)],
            next: Next::Resume("new".to_string()),
        }
    );
    let nothing = waiting(vec![complaint("No active session to resume")]);
    assert_eq!(session.on_sessions_found(Some(vec![])), nothing);
    assert_eq!(session.on_sessions_found(None), nothing);
    session.current_session_id = Some(1);
    let step = session.on_output_event(&settings, OutputEvent::ResumeSession);
    assert_eq!(step.next, Next::Resume("00000000-0000-0000-0000-000000000001".to_string()));
    let step =
        session.on_output_event(&settings, OutputEvent::SwitchToSession("other".to_string()));
    assert_eq!(step.next, Next::Resume("other".to_string()));
}

#[test]
fn sessions_are_listed() {
    let mut session = empty_session();
    let step = session.on_output_event(&local_settings(), OutputEvent::ListSessions);
    assert_eq!(
        step,
        Step {
            directives: vec![start(LoadingOperation::SessionsList)],
            next: Next::ListSessions,
        }
    );
    let info = || SessionInfo { id: "1".to_string(), title: "t".to_string() };
    assert_eq!(
        session.on_sessions_listed(Ok(vec![info()])),
        waiting(vec![
            Directive::Send(InputEvent::SetSessions(vec![info()])),
            end(LoadingOperation::SessionsList),
        ])
    );
    assert_eq!(
        session.on_sessions_listed(Err("offline".to_string())),
        waiting(vec![complaint("offline"), end(LoadingOperation::SessionsList)])
    );
}

#[test]
fn new_session_twice_is_once() {
    let mut session = session_with_three_calls();
    session.current_session_id = Some(1);
    let settings = local_settings();
    assert_eq!(session.on_output_event(&settings, OutputEvent::NewSession), waiting(vec![]));
    assert!(session.messages.is_empty());
    assert_eq!(session.current_session_id, None);
    assert_eq!(session.tools_queue.len(), 2);
    assert_eq!(session.on_output_event(&settings, OutputEvent::NewSession), waiting(vec![]));
    assert!(session.messages.is_empty());
    assert_eq!(session.tools_queue.len(), 2);
}

#[test]
fn profile_switch_is_checked_first() {
    let mut session = empty_session();
    let progress =
        |text: &str| Directive::Send(InputEvent::ProfileSwitchProgress(text.to_string()));
    let step = session
        .on_output_event(&local_settings(), OutputEvent::RequestProfileSwitch("prod".to_string()));
    assert_eq!(
        step,
        Step {
            directives: vec![
                Directive::Send(InputEvent::ProfileSwitchRequested("prod".to_string())),
                progress("Validating API key..."),
            ],
            next: Next::ValidateProfile("prod".to_string()),
        }
    );
    assert_eq!(
        session.on_profile_checked("prod".to_string(), Some("no key".to_string())),
        waiting(vec![Directive::Send(InputEvent::ProfileSwitchFailed("no key".to_string()))])
    );
    assert_eq!(
        session.on_profile_checked("prod".to_string(), None),
        Step {
            directives: vec![
                progress("✓ API key validated"),
                progress("Shutting down current session..."),
                Directive::Send(InputEvent::ProfileSwitchComplete("prod".to_string())),
            ],
            next: Next::SwitchProfile("prod".to_string()),
        }
    );
}

#[test]
fn cloud_models_are_routed() {
    for provider in ["anthropic", "openai", "google", "gemini", "amazon-bedrock"] {
        assert!(routes_through_stakpak(true, false, provider));
        assert!(!routes_through_stakpak(true, true, provider));
        assert!(!routes_through_stakpak(false, false, provider));
    }
    assert!(!routes_through_stakpak(true, false, "stakpak"));
    assert!(!routes_through_stakpak(true, false, "ollama"));
}

fn skill(uri: &str) -> Skill {
    Skill { uri: uri.to_string(), name: "n".to_string(), description: "d".to_string() }
}

#[test]
fn skills_are_chosen_and_merged() {
    let remote = vec![skill("stakpak://a"), skill("stakpak://b")];
    let chosen = choose_skills(&remote, &vec!["stakpak://b".to_string()], vec![skill("local")]);
    assert_eq!(chosen, vec![skill("stakpak://b"), skill("local")]);
    assert_eq!(current_remote_uris(&chosen), vec!["stakpak://b".to_string()]);
    assert_eq!(merge_skills(vec![], vec![]), None);
    assert_eq!(
        merge_skills(vec![skill("stakpak://a")], vec![skill("local")]),
        Some(vec![skill("stakpak://a"), skill("local")])
    );
}

#[test]
fn warden_is_used_where_asked_for() {
    assert!(should_use_warden(Some(true), false));
    assert!(!should_use_warden(Some(true), true));
    assert!(!should_use_warden(Some(false), false));
    assert!(!should_use_warden(None, false));
}

#[test]
fn other_events_are_handed_over() {
    let mut session = empty_session();
    let settings = local_settings();
    let mut next = |event: OutputEvent| {
        let step = session.on_output_event(&settings, event);
        assert_eq!(step.directives, vec![]);
        step.next
    };
    assert_eq!(next(OutputEvent::SwitchToModel(some_model())), Next::SwitchModel(some_model()));
    assert_eq!(
        next(OutputEvent::SaveRecentModels(vec!["m".to_string()])),
        Next::SaveRecentModels(vec!["m".to_string()])
    );
    assert_eq!(next(OutputEvent::RequestAvailableModels), Next::ListModels);
    assert_eq!(
        next(OutputEvent::RequestRulebookUpdate(vec!["u".to_string()])),
        Next::SelectSkills(vec!["u".to_string()])
    );
    assert_eq!(next(OutputEvent::RequestCurrentRulebooks), Next::ReportRulebooks);
    assert_eq!(
        next(OutputEvent::SaveAutoApproveToProfile(vec!["t".to_string()])),
        Next::SaveAutoApprove(vec!["t".to_string()])
    );
    let other = Model { id: "m2".to_string(), ..some_model() };
    session.switch_model(other.clone());
    assert_eq!(session.model, other);
}

#[test]
fn usage_and_commands_are_reported() {
    let mut session = empty_session();
    let settings = local_settings();
    let step = session.on_output_event(&settings, OutputEvent::RequestTotalUsage);
    assert_eq!(
        step,
        waiting(vec![Directive::Send(InputEvent::TotalUsage(LLMTokenUsage::none()))])
    );
    let step =
        session.on_output_event(&settings, OutputEvent::CommandCalled("/help".to_string()));
    match &step.directives[..] {
        [Directive::Report(payload)] => {
            assert_eq!(payload.event, TelemetryEvent::CommandCalled("/help".to_string()));
            assert_eq!(payload.user_id, "anon");
        }
        other => panic!("unexpected directives: {:?}", other),
    }
}

#[test]
fn model_is_called_only_with_answers() {
    let mut session = session_with_three_calls();
    let settings = local_settings();
    let events = vec![
        OutputEvent::PlanApproved,
        OutputEvent::PlanModeActivated(Some("x".to_string())),
        OutputEvent::RejectTool(call_of("a", "run"), false),
        OutputEvent::RejectTool(call_of("b", "run"), false),
    ];
    for event in events {
        let step = session.on_output_event(&settings, event);
        assert_ne!(step.next, Next::CallModel);
    }
    let step =
        session.on_output_event(&settings, OutputEvent::RejectTool(call_of("c", "run"), false));
    assert_eq!(step.next, Next::CallModel);
    assert!(!session.has_pending());
}
