//! The step that each event of the interface leads to.
use vstd::prelude::*;
use vstd::string::*;

use super::profile::profile_requested;
use super::restore::{loads, renewed, resume_requested};
use super::tools::{accepted, rejected, result_sent, user_answered};
use super::turns::{approval_text, message_received, plan_activated, review_sent};
use super::{
    nothing, push, starts, wait_after, waits, Directive, DirectiveView, Next, NextView, Session,
    SessionSettings, SessionView, Step, StepView,
};
use crate::events::{InputEvent, InputEventView, LoadingOperation, OutputEvent, OutputEventView};
use crate::telemetry::{settings_payload, TelemetryEvent, TelemetryEventView};

verus! {

/// Outside work with nothing to do before it.
pub open spec fn hands_over(next: NextView) -> StepView {
    StepView { directives: Seq::empty(), next }
}

/// What is reported about a command of the user.
pub open spec fn command_report(settings: SessionSettings, name: Seq<char>) -> Seq<DirectiveView> {
    match settings_payload(settings.telemetry, TelemetryEventView::CommandCalled(name)) {
        Some(payload) => seq![DirectiveView::Report(payload)],
        None => Seq::empty(),
    }
}

/// The state after an event of the interface, and the step that it leads to.
pub open spec fn after_event(
    session: SessionView,
    settings: SessionSettings,
    event: OutputEventView,
) -> (SessionView, StepView) {
    match event {
        OutputEventView::UserMessage(text, results, images, target) => message_received(
            session,
            text,
            results,
            images,
            target,
        ),
        OutputEventView::AcceptTool(call) => accepted(session, call),
        OutputEventView::RejectTool(call, stop) => rejected(session, call, stop),
        OutputEventView::SendToolResult(result, stop, waiting) => result_sent(
            session,
            result,
            stop,
            waiting,
        ),
        OutputEventView::AskUserResponse(result) => user_answered(session, result),
        OutputEventView::ListSessions => (
            session,
            StepView {
                directives: seq![starts(LoadingOperation::SessionsList)],
                next: NextView::ListSessions,
            },
        ),
        OutputEventView::NewSession => (renewed(session), waits(Seq::empty())),
        OutputEventView::ResumeSession => (session, resume_requested(session)),
        OutputEventView::SwitchToSession(id) => (session, loads(id)),
        OutputEventView::SwitchToModel(model) => (
            session,
            hands_over(NextView::SwitchModel(model)),
        ),
        OutputEventView::SaveRecentModels(models) => (
            session,
            hands_over(NextView::SaveRecentModels(models)),
        ),
        OutputEventView::RequestAvailableModels => (session, hands_over(NextView::ListModels)),
        OutputEventView::RequestTotalUsage => (
            session,
            waits(seq![DirectiveView::Send(InputEventView::TotalUsage(session.usage))]),
        ),
        OutputEventView::RequestProfileSwitch(name) => (session, profile_requested(name)),
        OutputEventView::RequestRulebookUpdate(uris) => (
            session,
            hands_over(NextView::SelectSkills(uris)),
        ),
        OutputEventView::RequestCurrentRulebooks => (
            session,
            hands_over(NextView::ReportRulebooks),
        ),
        OutputEventView::PlanModeActivated(prompt) => plan_activated(
            session,
            settings.plan_instructions@,
            prompt,
        ),
        OutputEventView::PlanFeedback(text) => review_sent(session, text),
        OutputEventView::PlanApproved => review_sent(session, approval_text()),
        OutputEventView::CommandCalled(name) => (session, waits(command_report(settings, name))),
        OutputEventView::SaveAutoApproveToProfile(tools) => (
            session,
            hands_over(NextView::SaveAutoApprove(tools)),
        ),
    }
}

/// Outside work with nothing to do before it.
fn hand_over(next: Next) -> (res: Step)
    ensures
        res.deep_view() == hands_over(next.deep_view()),
{
    Step { directives: nothing(), next }
}

impl Session {
    /// Takes the step that an event of the interface leads to.
    pub fn on_output_event(&mut self, settings: &SessionSettings, event: OutputEvent) -> (res: Step)
        ensures
            (final(self).deep_view(), res.deep_view()) == after_event(
                old(self).deep_view(),
                *settings,
                event.deep_view(),
            ),
    {
        match event {
            OutputEvent::UserMessage(text, results, images, target) => self.on_user_message(
                text,
                results,
                images,
                target,
            ),
            OutputEvent::AcceptTool(call) => self.on_accept_tool(call),
            OutputEvent::RejectTool(call, should_stop) => self.on_reject_tool(call, should_stop),
            OutputEvent::SendToolResult(result, should_stop, waiting) => self.on_send_tool_result(
                result,
                should_stop,
                waiting,
            ),
            OutputEvent::AskUserResponse(result) => self.on_ask_user_response(result),
            OutputEvent::ListSessions => self.on_list_sessions(),
            OutputEvent::NewSession => self.on_new_session(),
            OutputEvent::ResumeSession => self.on_resume_session(),
            OutputEvent::SwitchToSession(id) => self.on_switch_to_session(id),
            OutputEvent::SwitchToModel(model) => hand_over(Next::SwitchModel(model)),
            OutputEvent::SaveRecentModels(models) => hand_over(Next::SaveRecentModels(models)),
            OutputEvent::RequestAvailableModels => hand_over(Next::ListModels),
            OutputEvent::RequestTotalUsage => {
                let mut directives = nothing();
                push(
                    &mut directives,
                    Directive::Send(InputEvent::TotalUsage(self.total_session_usage)),
                );
                wait_after(directives)
            },
            OutputEvent::RequestProfileSwitch(name) => self.on_profile_requested(name),
            OutputEvent::RequestRulebookUpdate(uris) => hand_over(Next::SelectSkills(uris)),
            OutputEvent::RequestCurrentRulebooks => hand_over(Next::ReportRulebooks),
            OutputEvent::PlanModeActivated(prompt) => self.on_plan_mode_activated(settings, prompt),
            OutputEvent::PlanFeedback(text) => self.on_plan_feedback(text),
            OutputEvent::PlanApproved => self.on_plan_approved(),
            OutputEvent::CommandCalled(name) => {
                let mut directives = nothing();
                if let Some(payload) = settings.telemetry.capture(
                    TelemetryEvent::CommandCalled(name),
                ) {
                    push(&mut directives, Directive::Report(payload));
                }
                wait_after(directives)
            },
            OutputEvent::SaveAutoApproveToProfile(tools) => hand_over(Next::SaveAutoApprove(tools)),
        }
    }
}

} // verus!
