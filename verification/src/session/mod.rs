//! The state of an agent session and the steps it takes: each event of the
//! interface, and each outcome of work done outside, changes the state and says
//! what to do next.
use vstd::prelude::*;
use vstd::string::*;

use crate::chat::{
    tool_result, tool_result_message, ChatMessage, ChatMessageView, ContentPart, ContentPartView,
    ToolCall, ToolCallResult, ToolCallResultView,
};
use crate::conversation::{has_pending_tool_calls, pending};
use crate::events::{InputEvent, InputEventView, LoadingOperation, Model};
use crate::telemetry::{TelemetryPayload, TelemetryPayloadView, TelemetrySettings};
use crate::usage::{LLMTokenUsage, UsageCounts};

pub mod dispatch;
pub mod laws;
pub mod laws_events;
pub mod laws_tools;
pub mod laws_turns;
pub mod profile;
pub mod restore;
pub mod stream;
pub mod tools;
pub mod turns;

verus! {

/// The state of an agent session.
#[derive(Debug, PartialEq, Eq)]
pub struct Session {
    pub model: Model,
    pub messages: Vec<ChatMessage>,
    /// Tool calls that wait for the one before them.
    pub tools_queue: Vec<ToolCall>,
    pub plan_mode_active: bool,
    pub plan_instructions_injected: bool,
    pub should_refresh_skills_on_next_message: bool,
    pub total_session_usage: LLMTokenUsage,
    pub current_session_id: Option<u128>,
    pub current_metadata: Option<serde_json::Value>,
    pub retry_attempts: u32,
}

/// What stays the same during a session.
#[derive(Debug, PartialEq, Eq)]
pub struct SessionSettings {
    pub has_stakpak_key: bool,
    pub telemetry: TelemetrySettings,
    pub plan_instructions: String,
}

/// The model of a [`Session`].
#[verifier::ext_equal]
pub struct SessionView {
    pub model: Model,
    pub messages: Seq<ChatMessageView>,
    pub tools_queue: Seq<ToolCall>,
    pub plan_mode_active: bool,
    pub plan_instructions_injected: bool,
    pub refresh_skills: bool,
    pub usage: UsageCounts,
    pub session_id: Option<u128>,
    pub metadata: Option<serde_json::Value>,
    pub retry_attempts: nat,
}

impl DeepView for Session {
    type V = SessionView;

    open spec fn deep_view(&self) -> SessionView {
        SessionView {
            model: self.model,
            messages: self.messages.deep_view(),
            tools_queue: self.tools_queue@,
            plan_mode_active: self.plan_mode_active,
            plan_instructions_injected: self.plan_instructions_injected,
            refresh_skills: self.should_refresh_skills_on_next_message,
            usage: self.total_session_usage@,
            session_id: self.current_session_id,
            metadata: self.current_metadata,
            retry_attempts: self.retry_attempts as nat,
        }
    }
}

/// Something to be done at once, in order.
#[derive(Debug, PartialEq, Eq)]
pub enum Directive {
    /// Tell the interface.
    Send(InputEvent),
    /// Put the tool call before the user.
    Present(ToolCall),
    /// Post to the telemetry endpoint.
    Report(TelemetryPayload),
}

/// The model of a [`Directive`].
pub enum DirectiveView {
    Send(InputEventView),
    Present(ToolCall),
    Report(TelemetryPayloadView),
}

impl DeepView for Directive {
    type V = DirectiveView;

    open spec fn deep_view(&self) -> DirectiveView {
        match self {
            Directive::Send(event) => DirectiveView::Send(event.deep_view()),
            Directive::Present(call) => DirectiveView::Present(*call),
            Directive::Report(payload) => DirectiveView::Report(payload.deep_view()),
        }
    }
}

/// What comes after the directives of a step.
#[derive(Debug, PartialEq, Eq)]
pub enum Next {
    /// Wait for the next event of the interface.
    AwaitEvent,
    /// Send the conversation to the model.
    CallModel,
    /// Send the conversation to the model once more.
    RetryModel,
    /// Put a message of the user together.
    PrepareUserMessage(String, Option<Vec<ToolCallResult>>, Vec<ContentPart>),
    /// Read the questions out of the call's arguments.
    ParseQuestions(ToolCall),
    /// Run the tool.
    RunTool(ToolCall),
    /// List the sessions.
    ListSessions,
    /// List the sessions to find the one to resume.
    FindSession,
    /// Load the last checkpoint of a session.
    Resume(String),
    /// Change to another model.
    SwitchModel(Model),
    /// Store the recently used models.
    SaveRecentModels(Vec<String>),
    /// List the models of the providers.
    ListModels,
    /// Check that a profile can be switched to.
    ValidateProfile(String),
    /// End this session and start one under the profile.
    SwitchProfile(String),
    /// Choose the remote skills with these URIs.
    SelectSkills(Vec<String>),
    /// Report which remote skills are chosen.
    ReportRulebooks,
    /// Store the tools that need no approval.
    SaveAutoApprove(Vec<String>),
    /// Refresh what depends on the response, then take up its tool calls.
    FinishResponse(Option<Vec<ToolCall>>),
}

/// The model of a [`Next`].
pub enum NextView {
    AwaitEvent,
    CallModel,
    RetryModel,
    PrepareUserMessage(Seq<char>, Option<Seq<ToolCallResultView>>, Seq<ContentPartView>),
    ParseQuestions(ToolCall),
    RunTool(ToolCall),
    ListSessions,
    FindSession,
    Resume(Seq<char>),
    SwitchModel(Model),
    SaveRecentModels(Seq<Seq<char>>),
    ListModels,
    ValidateProfile(Seq<char>),
    SwitchProfile(Seq<char>),
    SelectSkills(Seq<Seq<char>>),
    ReportRulebooks,
    SaveAutoApprove(Seq<Seq<char>>),
    FinishResponse(Option<Seq<ToolCall>>),
}

impl DeepView for Next {
    type V = NextView;

    open spec fn deep_view(&self) -> NextView {
        match self {
            Next::AwaitEvent => NextView::AwaitEvent,
            Next::CallModel => NextView::CallModel,
            Next::RetryModel => NextView::RetryModel,
            Next::PrepareUserMessage(text, results, images) => NextView::PrepareUserMessage(
                text@,
                results.deep_view(),
                images.deep_view(),
            ),
            Next::ParseQuestions(call) => NextView::ParseQuestions(*call),
            Next::RunTool(call) => NextView::RunTool(*call),
            Next::ListSessions => NextView::ListSessions,
            Next::FindSession => NextView::FindSession,
            Next::Resume(id) => NextView::Resume(id@),
            Next::SwitchModel(model) => NextView::SwitchModel(*model),
            Next::SaveRecentModels(models) => NextView::SaveRecentModels(models.deep_view()),
            Next::ListModels => NextView::ListModels,
            Next::ValidateProfile(name) => NextView::ValidateProfile(name@),
            Next::SwitchProfile(name) => NextView::SwitchProfile(name@),
            Next::SelectSkills(uris) => NextView::SelectSkills(uris.deep_view()),
            Next::ReportRulebooks => NextView::ReportRulebooks,
            Next::SaveAutoApprove(tools) => NextView::SaveAutoApprove(tools.deep_view()),
            Next::FinishResponse(calls) => NextView::FinishResponse(
                match calls {
                    Some(calls) => Some(calls@),
                    None => None,
                },
            ),
        }
    }
}

/// What a session does after an event.
#[derive(Debug, PartialEq, Eq)]
pub struct Step {
    pub directives: Vec<Directive>,
    pub next: Next,
}

/// The model of a [`Step`].
#[verifier::ext_equal]
pub struct StepView {
    pub directives: Seq<DirectiveView>,
    pub next: NextView,
}

impl DeepView for Step {
    type V = StepView;

    open spec fn deep_view(&self) -> StepView {
        StepView { directives: self.directives.deep_view(), next: self.next.deep_view() }
    }
}

/// Telling the interface that an operation starts.
pub open spec fn starts(op: LoadingOperation) -> DirectiveView {
    DirectiveView::Send(InputEventView::StartLoadingOperation(op))
}

/// Telling the interface that an operation has ended.
pub open spec fn ends(op: LoadingOperation) -> DirectiveView {
    DirectiveView::Send(InputEventView::EndLoadingOperation(op))
}

/// Telling the interface about an error.
pub open spec fn complains(text: Seq<char>) -> DirectiveView {
    DirectiveView::Send(InputEventView::Error(text))
}

/// After `directives`, wait for the next event.
pub open spec fn waits(directives: Seq<DirectiveView>) -> StepView {
    StepView { directives, next: NextView::AwaitEvent }
}

/// After `directives`, call the model, unless tool calls are pending.
pub open spec fn calls_model_unless_pending(
    session: SessionView,
    directives: Seq<DirectiveView>,
) -> StepView {
    if pending(session.messages, session.tools_queue) {
        waits(directives)
    } else {
        StepView {
            directives: directives.push(starts(LoadingOperation::StreamProcessing)),
            next: NextView::CallModel,
        }
    }
}

/// The session with the first tool call gone from its queue.
pub open spec fn without_first_tool(session: SessionView) -> SessionView {
    SessionView { tools_queue: session.tools_queue.drop_first(), ..session }
}

/// The session after a message that reports `text` as the result of the tool
/// call `id`.
pub open spec fn with_result(session: SessionView, id: Seq<char>, text: Seq<char>) -> SessionView {
    SessionView { messages: session.messages.push(tool_result_message(id, text)), ..session }
}

/// After `directives`, the next tool call of the queue is put before the user;
/// without one the model is called, unless the user wants to stop or tool calls
/// are pending.
pub open spec fn goes_on(
    session: SessionView,
    directives: Seq<DirectiveView>,
    stop: bool,
) -> (SessionView, StepView) {
    if session.tools_queue.len() > 0 {
        (
            without_first_tool(session),
            waits(directives.push(DirectiveView::Present(session.tools_queue[0]))),
        )
    } else if stop {
        (session, waits(directives))
    } else {
        (session, calls_model_unless_pending(session, directives))
    }
}

/// Puts a directive behind the others.
pub(crate) fn push(directives: &mut Vec<Directive>, directive: Directive)
    ensures
        final(directives).deep_view() == old(directives).deep_view().push(directive.deep_view()),
{
    directives.push(directive);
    proof {
        assert(directives.deep_view() =~= old(directives).deep_view().push(directive.deep_view()));
    }
}

/// No directive yet.
pub(crate) fn nothing() -> (res: Vec<Directive>)
    ensures
        res.deep_view() == Seq::<DirectiveView>::empty(),
{
    let directives: Vec<Directive> = Vec::new();
    assert(directives.deep_view() =~= Seq::<DirectiveView>::empty());
    directives
}

/// After `directives`, wait for the next event.
pub(crate) fn wait_after(directives: Vec<Directive>) -> (res: Step)
    ensures
        res.deep_view() == waits(directives.deep_view()),
{
    Step { directives, next: Next::AwaitEvent }
}

/// What the interface is told when a request to the model begins.
pub fn start_stream_processing_loading() -> (res: InputEvent)
    ensures
        res == InputEvent::StartLoadingOperation(LoadingOperation::StreamProcessing),
{
    InputEvent::StartLoadingOperation(LoadingOperation::StreamProcessing)
}

/// What the interface is told when a tool call has ended without a result; the
/// end of one with a result is told together with the result.
pub fn end_tool_execution_loading_if_none(has_result: bool) -> (res: Option<InputEvent>)
    ensures
        res == (if has_result {
            None::<InputEvent>
        } else {
            Some(InputEvent::EndLoadingOperation(LoadingOperation::ToolExecution))
        }),
{
    if has_result {
        None
    } else {
        Some(InputEvent::EndLoadingOperation(LoadingOperation::ToolExecution))
    }
}

impl Session {
    /// A session that has not begun.
    pub fn new(model: Model) -> (res: Self)
        ensures
            res.deep_view() == (SessionView {
                model,
                messages: Seq::empty(),
                tools_queue: Seq::empty(),
                plan_mode_active: false,
                plan_instructions_injected: false,
                refresh_skills: false,
                usage: crate::usage::no_usage(),
                session_id: None,
                metadata: None,
                retry_attempts: 0,
            }),
    {
        let session = Session {
            model,
            messages: Vec::new(),
            tools_queue: Vec::new(),
            plan_mode_active: false,
            plan_instructions_injected: false,
            should_refresh_skills_on_next_message: false,
            total_session_usage: LLMTokenUsage::none(),
            current_session_id: None,
            current_metadata: None,
            retry_attempts: 0,
        };
        assert(session.deep_view().messages =~= Seq::<ChatMessageView>::empty());
        session
    }

    /// Puts a message behind the conversation.
    pub(crate) fn push_message(&mut self, message: ChatMessage)
        ensures
            final(self).deep_view() == (SessionView {
                messages: old(self).deep_view().messages.push(message.deep_view()),
                ..old(self).deep_view()
            }),
    {
        self.messages.push(message);
        proof {
            assert(self.messages.deep_view() =~= old(self).messages.deep_view().push(
                message.deep_view(),
            ));
        }
    }

    /// Puts the result of a tool call behind the conversation.
    pub(crate) fn push_result(&mut self, id: String, text: String)
        ensures
            final(self).deep_view() == with_result(old(self).deep_view(), id@, text@),
    {
        self.push_message(tool_result(id, text));
    }

    /// Whether tool calls are pending.
    pub fn has_pending(&self) -> (res: bool)
        ensures
            res == pending(self.deep_view().messages, self.deep_view().tools_queue),
    {
        has_pending_tool_calls(self.messages.as_slice(), self.tools_queue.as_slice())
    }

    /// After `directives`, calls the model, unless tool calls are pending.
    pub(crate) fn call_model_unless_pending(&self, directives: Vec<Directive>) -> (res: Step)
        ensures
            res.deep_view() == calls_model_unless_pending(
                self.deep_view(),
                directives.deep_view(),
            ),
    {
        if self.has_pending() {
            wait_after(directives)
        } else {
            let mut directives = directives;
            push(&mut directives, Directive::Send(start_stream_processing_loading()));
            Step { directives, next: Next::CallModel }
        }
    }

    /// After `directives`, takes up the next tool call of the queue, or else calls
    /// the model.
    pub(crate) fn go_on(&mut self, directives: Vec<Directive>, stop: bool) -> (res: Step)
        ensures
            (final(self).deep_view(), res.deep_view()) == goes_on(
                old(self).deep_view(),
                directives.deep_view(),
                stop,
            ),
    {
        if self.tools_queue.len() > 0 {
            let mut directives = directives;
            let call = self.tools_queue.remove(0);
            proof {
                assert(self.tools_queue@ =~= old(self).tools_queue@.drop_first());
            }
            push(&mut directives, Directive::Present(call));
            wait_after(directives)
        } else if stop {
            wait_after(directives)
        } else {
            self.call_model_unless_pending(directives)
        }
    }
}

} // verus!
