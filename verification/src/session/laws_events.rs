//! What holds of the steps that come from outside: sessions that are loaded, responses of
//! the model, profiles and skills that change.
use vstd::prelude::*;
use vstd::string::*;

use super::dispatch::{after_event, command_report};
use super::laws_tools::{takes_the_first, tells};
use super::profile::{
    chosen, is_remote, lemma_chosen, profile_checked, profile_requested, remote_uris, routed,
};
use super::restore::{
    announces, checkpoint_loaded, joined_by, loads, plan_at_start, renewed, resume_requested,
    resumed, sessions_found, sessions_listed, RestoredView,
};
use super::stream::{gives_up, refusal_text, response_finished, response_received, stream_failed};
use super::tools::{accepted, rejected, result_sent, user_answered};
use super::turns::{approval_text, message_received, plan_activated, review_sent};
use super::{DirectiveView, NextView, Session, SessionSettings, SessionView, StepView};
use crate::chat::{ChatMessageView, ContentPartView, ToolCall, ToolCallResultView};
use crate::events::{
    ExistingPlanPromptView, InputEventView, LoadingOperation, Model, OutputEventView, PlanMetadata,
    SessionInfo, Skill,
};
use crate::ids::uuid_text;
use crate::telemetry::{settings_payload, TelemetryEventView};
use crate::text::{decimal, occurs, split_first};
use crate::usage::{no_usage, usage_plus, UsageCounts};

verus! {

/// The interface learns of all tool calls of a response, before the first of those that
/// wait is put before the user; the others wait on. Nothing is said of a response without
/// tool calls. All but the queue, and the id of a session that had none, stays.
pub proof fn law_interface_learns_of_all_calls(
    session: SessionView,
    found: Option<u128>,
    calls: Seq<ToolCall>,
)
    ensures
        ({
            let (after, step) = response_finished(session, found, Some(calls));
            let queue = session.tools_queue + calls;
            let told = DirectiveView::Send(InputEventView::MessageToolCalls(calls));
            let count = step.directives.len();
            &&& step.next == NextView::AwaitEvent
            &&& queue.len() > 0 ==> takes_the_first(queue, after, step) && count >= 2
                && step.directives[count - 2] == told
            &&& queue.len() == 0 ==> after.tools_queue.len() == 0 && count >= 1
                && step.directives[count - 1] == told
            &&& count == (if queue.len() > 0 {
                2nat
            } else {
                1nat
            }) + (if session.session_id is None && found is Some {
                1nat
            } else {
                0nat
            })
            &&& after == (SessionView {
                tools_queue: after.tools_queue,
                session_id: after.session_id,
                ..session
            })
        }),
        ({
            let (after, step) = response_finished(session, found, None);
            &&& step.next == NextView::AwaitEvent
            &&& step.directives.len() == (if session.session_id is None && found is Some {
                1nat
            } else {
                0nat
            })
            &&& after == (SessionView { session_id: after.session_id, ..session })
        }),
{
}

/// A session without an id gets the one that its checkpoint belongs to, and the interface
/// is told; one with an id keeps it.
pub proof fn law_unknown_session_gets_the_id_found(
    session: SessionView,
    found: Option<u128>,
    calls: Option<Seq<ToolCall>>,
)
    ensures
        ({
            let (after, step) = response_finished(session, found, calls);
            &&& session.session_id is Some ==> after.session_id == session.session_id
            &&& session.session_id is None ==> after.session_id == found
            &&& session.session_id is None && found is Some ==> step.directives.len() > 0
                && step.directives[0] == DirectiveView::Send(
                InputEventView::SetSessionId(uuid_text(found->0)),
            )
        }),
{
}

/// A response is said behind all that was said before, word for word, and counted on top of
/// what was used; the retries begin anew. The interface is told the new usage.
pub proof fn law_response_is_said_and_counted(
    session: SessionView,
    message: ChatMessageView,
    named: Option<u128>,
    state: Option<serde_json::Value>,
    usage: UsageCounts,
)
    ensures
        ({
            let (after, step) = response_received(session, message, named, state, usage);
            &&& after.messages.len() == session.messages.len() + 1
            &&& session.messages.is_prefix_of(after.messages)
            &&& after.messages.last() == message
            &&& after.usage.total == session.usage.total + usage.total
            &&& after.usage.prompt == session.usage.prompt + usage.prompt
            &&& after.usage.completion == session.usage.completion + usage.completion
            &&& after.usage == usage_plus(session.usage, usage)
            &&& after.retry_attempts == 0
            &&& step.directives.len() > 0
            &&& step.directives.last() == DirectiveView::Send(
                InputEventView::TotalUsage(after.usage),
            )
            &&& step.next == NextView::FinishResponse(message.tool_calls)
            &&& after.tools_queue == session.tools_queue
            &&& after.model == session.model
            &&& after.plan_mode_active == session.plan_mode_active
            &&& after.plan_instructions_injected == session.plan_instructions_injected
            &&& after.refresh_skills == session.refresh_skills
        }),
{
}

/// What the metadata of a response names replaces what was known, and what it does not name
/// stays. The interface is told the session only where it knew of none.
pub proof fn law_response_names_session_and_state(
    session: SessionView,
    message: ChatMessageView,
    named: Option<u128>,
    state: Option<serde_json::Value>,
    usage: UsageCounts,
)
    ensures
        ({
            let (after, step) = response_received(session, message, named, state, usage);
            &&& named is Some ==> after.session_id == named
            &&& named is None ==> after.session_id == session.session_id
            &&& state is Some ==> after.metadata == state
            &&& state is None ==> after.metadata == session.metadata
            &&& session.session_id is None && named is Some ==> step.directives.len() == 2
                && step.directives[0] == DirectiveView::Send(
                InputEventView::SetSessionId(uuid_text(named->0)),
            )
            &&& session.session_id is Some || named is None ==> step.directives.len() == 1
        }),
{
}

/// Giving a request up ends the loading and says why, and nothing else; the session waits.
pub proof fn law_giving_up_says_why(text: Seq<char>)
    ensures
        gives_up(text).next == NextView::AwaitEvent,
        gives_up(text).directives == seq![
            DirectiveView::Send(
                InputEventView::EndLoadingOperation(LoadingOperation::StreamProcessing),
            ),
            DirectiveView::Send(InputEventView::Error(text)),
        ],
{
}

/// A refused request is described by what the server says behind the first colon, where it
/// answered without a stream, and by the error itself in every other case.
pub proof fn law_refusal_is_what_the_server_says(error: Seq<char>)
    ensures
        !occurs(error, "Server returned non-stream response"@) ==> refusal_text(error) == error,
        occurs(error, "Server returned non-stream response"@) ==> {
            &&& split_first(error, ": "@) is None ==> refusal_text(error) == error
            &&& split_first(error, ": "@) matches Some((_, said)) ==> refusal_text(error) == said
        },
{
}

/// A stream that made no sense is asked for again with the number of the attempt, until the
/// attempts are used up; any other error is told as it is.
pub proof fn law_broken_stream_is_told(session: SessionView, description: Seq<char>)
    ensures
        stream_failed(session, false, description) == (session, gives_up(description)),
        ({
            let (after, step) = stream_failed(session, true, description);
            if session.retry_attempts < 2 {
                &&& after == (SessionView {
                    retry_attempts: session.retry_attempts + 1,
                    ..session
                })
                &&& step.next == NextView::RetryModel
                &&& step.directives == seq![
                    DirectiveView::Send(
                        InputEventView::Error(
                            "RETRY_ATTEMPT_"@ + decimal(session.retry_attempts + 1),
                        ),
                    ),
                ]
            } else {
                after == session && step == gives_up("MAX_RETRY_REACHED"@)
            }
        }),
{
}

/// A checkpoint that joins the session brings all its messages, its tool calls, its
/// metadata and its id, and has the skills told anew. The interface learns of all tool
/// calls that wait, and the first is put before the user.
pub proof fn law_checkpoint_joins_whole(session: SessionView, restored: RestoredView)
    ensures
        ({
            let (after, directives) = joined_by(session, Seq::empty(), restored);
            let queue = session.tools_queue + restored.tool_calls;
            let own: int = if session.session_id is None {
                1
            } else {
                0
            };
            &&& after.messages == session.messages + restored.messages
            &&& after.session_id == Some(restored.session_id)
            &&& after.metadata == restored.metadata
            &&& after.refresh_skills
            &&& after.usage == session.usage
            &&& after.model == session.model
            &&& after.plan_mode_active == session.plan_mode_active
            &&& after.plan_instructions_injected == session.plan_instructions_injected
            &&& after.retry_attempts == session.retry_attempts
            &&& own == 1 ==> directives[0] == DirectiveView::Send(
                InputEventView::SetSessionId(uuid_text(restored.session_id)),
            )
            &&& queue.len() > 0 ==> directives.len() == own + 2 && directives[own]
                == DirectiveView::Send(InputEventView::MessageToolCalls(queue)) && directives[own
                + 1] == DirectiveView::Present(queue[0]) && after.tools_queue == queue.skip(1)
            &&& queue.len() == 0 ==> directives.len() == own && after.tools_queue.len() == 0
        }),
{
    let queue = session.tools_queue + restored.tool_calls;
    if queue.len() > 0 {
        assert(queue.drop_first() =~= queue.skip(1));
    }
}

/// Resuming is joining the checkpoint with nothing used yet, and ends the loading; where
/// nothing could be loaded, it only ends the loading.
pub proof fn law_resuming_joins_and_ends_loading(session: SessionView, restored: RestoredView)
    ensures
        ({
            let (after, step) = resumed(session, Some(restored));
            let fresh = SessionView { usage: no_usage(), ..session };
            let (joined, directives) = joined_by(fresh, Seq::empty(), restored);
            &&& after == joined
            &&& step.next == NextView::AwaitEvent
            &&& step.directives == directives.push(
                DirectiveView::Send(
                    InputEventView::EndLoadingOperation(LoadingOperation::CheckpointResume),
                ),
            )
        }),
        resumed(session, None) == (
            session,
            StepView {
                directives: seq![
                    DirectiveView::Send(
                        InputEventView::EndLoadingOperation(LoadingOperation::CheckpointResume),
                    ),
                ],
                next: NextView::AwaitEvent,
            },
        ),
{
}

/// The interface is told a session's id exactly where it knew of none.
pub proof fn law_id_is_told_once(current: Option<u128>, id: u128)
    ensures
        current is Some ==> announces(current, id).len() == 0,
        current is None ==> announces(current, id) == seq![
            DirectiveView::Send(InputEventView::SetSessionId(uuid_text(id))),
        ],
{
}

/// A checkpoint given at the start brings its messages, its tool calls and its metadata,
/// and changes nothing else.
pub proof fn law_checkpoint_at_the_start(
    session: SessionView,
    messages: Seq<ChatMessageView>,
    calls: Seq<ToolCall>,
    metadata: Option<serde_json::Value>,
)
    ensures
        ({
            let (after, directives) = checkpoint_loaded(session, messages, calls, metadata);
            let queue = session.tools_queue + calls;
            &&& after == (SessionView {
                messages: session.messages + messages,
                metadata,
                tools_queue: after.tools_queue,
                ..session
            })
            &&& queue.len() > 0 ==> after.tools_queue == queue.skip(1) && directives == seq![
                DirectiveView::Send(InputEventView::MessageToolCalls(queue)),
                DirectiveView::Present(queue[0]),
            ]
            &&& queue.len() == 0 ==> directives.len() == 0 && after.tools_queue.len() == 0
        }),
{
    let queue = session.tools_queue + calls;
    if queue.len() > 0 {
        assert(queue.drop_first() =~= queue.skip(1));
        assert(checkpoint_loaded(session, messages, calls, metadata).1 =~= seq![
            DirectiveView::Send(InputEventView::MessageToolCalls(queue)),
            DirectiveView::Present(queue[0]),
        ]);
    }
}

/// Plan mode at the start asks about a plan that is there, with all that is known of it,
/// and is switched on only where there is none.
pub proof fn law_plan_at_the_start(session: SessionView, metadata: Option<PlanMetadata>)
    ensures
        plan_at_start(session, Some(metadata)) == (
            session,
            seq![
                DirectiveView::Send(
                    InputEventView::ExistingPlanFound(
                        ExistingPlanPromptView { inline_prompt: None, metadata },
                    ),
                ),
            ],
        ),
        plan_at_start(session, None) == (
            SessionView { plan_mode_active: true, ..session },
            seq![DirectiveView::Send(InputEventView::PlanModeChanged(true))],
        ),
{
}

/// The session that is resumed is the current one, or else the first of those listed;
/// loading is told before it begins.
pub proof fn law_current_or_first_session_is_loaded(
    session: SessionView,
    sessions: Seq<SessionInfo>,
    id: Seq<char>,
)
    ensures
        loads(id).next == NextView::Resume(id),
        loads(id).directives == seq![
            DirectiveView::Send(
                InputEventView::StartLoadingOperation(LoadingOperation::CheckpointResume),
            ),
        ],
        session.session_id matches Some(current) ==> resume_requested(session) == loads(
            uuid_text(current),
        ),
        session.session_id is None ==> resume_requested(session).next == NextView::FindSession
            && resume_requested(session).directives.len() == 0,
        sessions.len() > 0 ==> sessions_found(Some(sessions)) == loads(sessions[0].id@),
        sessions.len() == 0 ==> sessions_found(Some(sessions)) == sessions_found(None),
        tells(sessions_found(None), InputEventView::Error("No active session to resume"@)),
        sessions_found(None).next == NextView::AwaitEvent,
        sessions_found(None).directives.len() == 1,
{
    assert(sessions_found(None).directives[0] == DirectiveView::Send(
        InputEventView::Error("No active session to resume"@),
    ));
}

/// All sessions that were listed are told, or the error is; then the loading has ended.
pub proof fn law_all_sessions_are_told(sessions: Seq<SessionInfo>, error: Seq<char>)
    ensures
        ({
            let ended = DirectiveView::Send(
                InputEventView::EndLoadingOperation(LoadingOperation::SessionsList),
            );
            &&& sessions_listed(Ok(sessions)).directives == seq![
                DirectiveView::Send(InputEventView::SetSessions(sessions)),
                ended,
            ]
            &&& sessions_listed(Err(error)).directives == seq![
                DirectiveView::Send(InputEventView::Error(error)),
                ended,
            ]
            &&& sessions_listed(Ok(sessions)).next == NextView::AwaitEvent
            &&& sessions_listed(Err(error)).next == NextView::AwaitEvent
        }),
{
}

/// A new session has no id, says nothing yet and has used nothing; the rest stays.
pub proof fn law_new_session_forgets_what_was_said(session: SessionView)
    ensures
        renewed(session).session_id is None,
        renewed(session).messages.len() == 0,
        renewed(session).usage.total == 0,
        renewed(session).usage.prompt == 0,
        renewed(session).usage.completion == 0,
        renewed(session).usage.details is None,
        renewed(session) == (SessionView {
            session_id: renewed(session).session_id,
            messages: renewed(session).messages,
            usage: renewed(session).usage,
            ..session
        }),
{
}

/// A change of profile names that very profile at each step, and happens only where the
/// check found no error; the error is told otherwise.
pub proof fn law_profile_is_switched_where_it_holds(name: Seq<char>, error: Seq<char>)
    ensures
        profile_requested(name).next == NextView::ValidateProfile(name),
        profile_requested(name).directives.len() == 2,
        profile_requested(name).directives[0] == DirectiveView::Send(
            InputEventView::ProfileSwitchRequested(name),
        ),
        profile_requested(name).directives[1] == DirectiveView::Send(
            InputEventView::ProfileSwitchProgress("Validating API key..."@),
        ),
        profile_checked(name, None).next == NextView::SwitchProfile(name),
        profile_checked(name, None).directives.len() == 3,
        profile_checked(name, None).directives[0] == DirectiveView::Send(
            InputEventView::ProfileSwitchProgress("✓ API key validated"@),
        ),
        profile_checked(name, None).directives[1] == DirectiveView::Send(
            InputEventView::ProfileSwitchProgress("Shutting down current session..."@),
        ),
        profile_checked(name, None).directives.last() == DirectiveView::Send(
            InputEventView::ProfileSwitchComplete(name),
        ),
        profile_checked(name, Some(error)).next == NextView::AwaitEvent,
        profile_checked(name, Some(error)).directives == seq![
            DirectiveView::Send(InputEventView::ProfileSwitchFailed(error)),
        ],
{
}

/// Requests go through this program's own provider for the five providers in the cloud and
/// no other, and only with a key for the former and none for the latter.
pub proof fn law_routing(has_key: bool, has_direct_key: bool, provider: Seq<char>)
    ensures
        routed(has_key, has_direct_key, provider) ==> has_key && !has_direct_key,
        has_key && !has_direct_key ==> (routed(has_key, has_direct_key, provider) <==> {
            ||| provider == "anthropic"@
            ||| provider == "openai"@
            ||| provider == "google"@
            ||| provider == "gemini"@
            ||| provider == "amazon-bedrock"@
        }),
{
    reveal_strlit("stakpak");
    reveal_strlit("anthropic");
    reveal_strlit("openai");
    reveal_strlit("google");
    reveal_strlit("gemini");
    reveal_strlit("amazon-bedrock");
    assert("stakpak"@.len() == 7);
    assert("anthropic"@.len() == 9);
    assert("openai"@.len() == 6);
    assert("google"@.len() == 6);
    assert("gemini"@.len() == 6);
    assert("amazon-bedrock"@.len() == 14);
}

/// A skill is chosen exactly where its URI is, and the chosen ones keep their order.
pub proof fn law_chosen_skills(a: Seq<Skill>, b: Seq<Skill>, uris: Seq<Seq<char>>, skill: Skill)
    ensures
        chosen(a, uris).contains(skill) <==> a.contains(skill) && uris.contains(skill.uri@),
        chosen(a + b, uris) == chosen(a, uris) + chosen(b, uris),
        chosen(seq![skill], uris).len() == (if uris.contains(skill.uri@) {
            1nat
        } else {
            0nat
        }),
{
    let wanted = |skill: Skill| uris.contains(skill.uri@);
    Seq::filter_distributes_over_add(a, b, wanted);
    lemma_chosen(a, uris, skill);
    let empty = Seq::<Skill>::empty();
    empty.lemma_filter_len(wanted);
    assert(seq![skill] =~= empty.push(skill));
    empty.lemma_filter_push(skill, wanted);
}

/// The URIs told are those of the skills that are kept on the server, each as often as
/// there is such a skill, in order.
pub proof fn law_remote_uris(a: Seq<Skill>, b: Seq<Skill>, skill: Skill)
    ensures
        remote_uris(a + b) == remote_uris(a) + remote_uris(b),
        crate::text::has_prefix(skill.uri@, "stakpak://"@) ==> remote_uris(seq![skill]) == seq![
            skill.uri@,
        ],
        !crate::text::has_prefix(skill.uri@, "stakpak://"@) ==> remote_uris(seq![skill]).len() == 0,
        remote_uris(Seq::empty()).len() == 0,
{
    let kept = |skill: Skill| is_remote(skill);
    let uri = |skill: Skill| skill.uri@;
    Seq::filter_distributes_over_add(a, b, kept);
    assert(remote_uris(a + b) =~= remote_uris(a) + remote_uris(b));
    let empty = Seq::<Skill>::empty();
    empty.lemma_filter_len(kept);
    assert(seq![skill] =~= empty.push(skill));
    empty.lemma_filter_push(skill, kept);
    if is_remote(skill) {
        assert(remote_uris(seq![skill]) =~= seq![skill.uri@]);
    }
}

/// What is only handed over is handed over whole, with nothing said and nothing changed.
pub proof fn law_requests_are_handed_over_whole(
    session: SessionView,
    settings: SessionSettings,
    model: Model,
    list: Seq<Seq<char>>,
)
    ensures
        after_event(session, settings, OutputEventView::SwitchToModel(model)) == (
            session,
            StepView { directives: Seq::empty(), next: NextView::SwitchModel(model) },
        ),
        after_event(session, settings, OutputEventView::SaveRecentModels(list)) == (
            session,
            StepView { directives: Seq::empty(), next: NextView::SaveRecentModels(list) },
        ),
        after_event(session, settings, OutputEventView::RequestRulebookUpdate(list)) == (
            session,
            StepView { directives: Seq::empty(), next: NextView::SelectSkills(list) },
        ),
        after_event(session, settings, OutputEventView::SaveAutoApproveToProfile(list)) == (
            session,
            StepView { directives: Seq::empty(), next: NextView::SaveAutoApprove(list) },
        ),
        after_event(session, settings, OutputEventView::RequestAvailableModels) == (
            session,
            StepView { directives: Seq::empty(), next: NextView::ListModels },
        ),
        after_event(session, settings, OutputEventView::RequestCurrentRulebooks) == (
            session,
            StepView { directives: Seq::empty(), next: NextView::ReportRulebooks },
        ),
        after_event(session, settings, OutputEventView::RequestTotalUsage) == (
            session,
            StepView {
                directives: seq![DirectiveView::Send(InputEventView::TotalUsage(session.usage))],
                next: NextView::AwaitEvent,
            },
        ),
        after_event(session, settings, OutputEventView::ListSessions) == (
            session,
            StepView {
                directives: seq![
                    DirectiveView::Send(
                        InputEventView::StartLoadingOperation(LoadingOperation::SessionsList),
                    ),
                ],
                next: NextView::ListSessions,
            },
        ),
{
}

/// What the user sends, decides or answers leads to the step for it, with all that came
/// with it.
pub proof fn law_events_lead_to_their_steps(
    session: SessionView,
    settings: SessionSettings,
    text: Seq<char>,
    results: Option<Seq<ToolCallResultView>>,
    images: Seq<ContentPartView>,
    target: Option<usize>,
    result: ToolCallResultView,
    stop: bool,
    waiting: Seq<ToolCall>,
)
    ensures
        after_event(session, settings, OutputEventView::UserMessage(text, results, images, target))
            == message_received(session, text, results, images, target),
        after_event(session, settings, OutputEventView::AcceptTool(result.call)) == accepted(
            session,
            result.call,
        ),
        after_event(session, settings, OutputEventView::RejectTool(result.call, stop)) == rejected(
            session,
            result.call,
            stop,
        ),
        after_event(session, settings, OutputEventView::SendToolResult(result, stop, waiting))
            == result_sent(session, result, stop, waiting),
        after_event(session, settings, OutputEventView::AskUserResponse(result)) == user_answered(
            session,
            result,
        ),
        after_event(session, settings, OutputEventView::NewSession).0 == renewed(session),
        after_event(session, settings, OutputEventView::NewSession).1.directives.len() == 0,
        after_event(session, settings, OutputEventView::NewSession).1.next == NextView::AwaitEvent,
        after_event(session, settings, OutputEventView::ResumeSession) == (
            session,
            resume_requested(session),
        ),
        after_event(session, settings, OutputEventView::SwitchToSession(text)) == (
            session,
            loads(text),
        ),
        after_event(session, settings, OutputEventView::RequestProfileSwitch(text)) == (
            session,
            profile_requested(text),
        ),
        after_event(session, settings, OutputEventView::PlanModeActivated(Some(text)))
            == plan_activated(session, settings.plan_instructions@, Some(text)),
        after_event(session, settings, OutputEventView::PlanModeActivated(None)) == plan_activated(
            session,
            settings.plan_instructions@,
            None,
        ),
        after_event(session, settings, OutputEventView::PlanFeedback(text)) == review_sent(
            session,
            text,
        ),
        after_event(session, settings, OutputEventView::PlanApproved) == review_sent(
            session,
            approval_text(),
        ),
{
}

/// A command that was called changes nothing; it is counted, under its own name, where
/// there is an anonymous id and counting was not declined.
pub proof fn law_called_command_is_counted(
    session: SessionView,
    settings: SessionSettings,
    name: Seq<char>,
)
    ensures
        ({
            let (after, step) = after_event(session, settings, OutputEventView::CommandCalled(name));
            &&& after == session
            &&& step.next == NextView::AwaitEvent
            &&& step.directives == command_report(settings, name)
        }),
        command_report(settings, name).len() <= 1,
        command_report(settings, name).len() == 1 <==> settings.telemetry.anonymous_id is Some
            && settings.telemetry.collect_telemetry != Some(false),
        command_report(settings, name).len() == 1 ==> (settings_payload(
            settings.telemetry,
            TelemetryEventView::CommandCalled(name),
        ) matches Some(payload) && payload.event == TelemetryEventView::CommandCalled(name)
            && command_report(settings, name)[0] == DirectiveView::Report(payload)),
{
}

/// The model of a session leaves nothing out that steps are decided by.
pub proof fn law_session_model_leaves_nothing_out(session: Session)
    ensures
        session.deep_view().model == session.model,
        session.deep_view().messages.len() == session.messages.len(),
        forall|i: int|
            0 <= i < session.messages.len() ==> session.deep_view().messages[i] == (
            #[trigger] session.messages[i]).deep_view(),
        session.deep_view().tools_queue == session.tools_queue@,
        session.deep_view().plan_mode_active == session.plan_mode_active,
        session.deep_view().plan_instructions_injected == session.plan_instructions_injected,
        session.deep_view().refresh_skills == session.should_refresh_skills_on_next_message,
        session.deep_view().usage == session.total_session_usage@,
        session.deep_view().session_id == session.current_session_id,
        session.deep_view().metadata == session.current_metadata,
        session.deep_view().retry_attempts == session.retry_attempts,
{
}

} // verus!
