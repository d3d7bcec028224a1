//! What holds of the models that contracts speak of: they leave nothing of the values out.
use vstd::prelude::*;
use vstd::string::*;

use crate::app_state::{Effect, EffectView, Message, MessageContent, MessageContentView};
use crate::commands::execute::{CommandStep, CommandStepView};
use crate::events::{InputEvent, InputEventView, OutputEvent, OutputEventView};
use crate::session::restore::Restored;
use crate::session::{Directive, DirectiveView, Next, NextView, Step};

verus! {

/// The model holds the same texts in the same order.
pub open spec fn same_texts(texts: Vec<String>, model: Seq<Seq<char>>) -> bool {
    &&& model.len() == texts.len()
    &&& forall|i: int| 0 <= i < texts.len() ==> #[trigger] model[i] == texts[i]@
}

/// Whatever the interface is told of several things, it is told of all of them.
pub proof fn law_interface_event_models(event: InputEvent)
    ensures
        event matches InputEvent::MessageToolCalls(calls) ==> event.deep_view()
            == InputEventView::MessageToolCalls(calls@),
        event matches InputEvent::ShowAskUserPopup(call, questions) ==> event.deep_view()
            == InputEventView::ShowAskUserPopup(call, questions@),
        event matches InputEvent::RunToolCall(call) ==> event.deep_view()
            == InputEventView::RunToolCall(call),
        event matches InputEvent::ToolResult(result) ==> (
        event.deep_view() matches InputEventView::ToolResult(model) && model.call == result.call
            && model.result == result.result@ && model.status == result.status),
        event matches InputEvent::SetSessions(sessions) ==> event.deep_view()
            == InputEventView::SetSessions(sessions@),
        event matches InputEvent::RulebooksLoaded(skills) ==> event.deep_view()
            == InputEventView::RulebooksLoaded(skills@),
        event matches InputEvent::AvailableModelsLoaded(models) ==> event.deep_view()
            == InputEventView::AvailableModelsLoaded(models@),
        event matches InputEvent::ProfilesLoaded(names, current) ==> (
        event.deep_view() matches InputEventView::ProfilesLoaded(models, named) && same_texts(
            names,
            models,
        ) && named == current@),
        event matches InputEvent::CurrentRulebooksLoaded(uris) ==> (
        event.deep_view() matches InputEventView::CurrentRulebooksLoaded(models) && same_texts(
            uris,
            models,
        )),
        event matches InputEvent::RecentModelsUpdated(names) ==> (
        event.deep_view() matches InputEventView::RecentModelsUpdated(models) && same_texts(
            names,
            models,
        )),
        event matches InputEvent::TotalUsage(usage) ==> event.deep_view()
            == InputEventView::TotalUsage(usage@),
        event matches InputEvent::Error(text) ==> event.deep_view() == InputEventView::Error(text@),
        event matches InputEvent::AddUserMessage(text) ==> event.deep_view()
            == InputEventView::AddUserMessage(text@),
        event matches InputEvent::SetSessionId(id) ==> event.deep_view()
            == InputEventView::SetSessionId(id@),
        event matches InputEvent::StartLoadingOperation(op) ==> event.deep_view()
            == InputEventView::StartLoadingOperation(op),
        event matches InputEvent::EndLoadingOperation(op) ==> event.deep_view()
            == InputEventView::EndLoadingOperation(op),
        event matches InputEvent::PlanModeChanged(on) ==> event.deep_view()
            == InputEventView::PlanModeChanged(on),
        event matches InputEvent::ExistingPlanFound(prompt) ==> (
        event.deep_view() matches InputEventView::ExistingPlanFound(model) && model.metadata
            == prompt.metadata && model.inline_prompt == prompt.inline_prompt.deep_view()),
        event matches InputEvent::ProfileSwitchRequested(name) ==> event.deep_view()
            == InputEventView::ProfileSwitchRequested(name@),
        event matches InputEvent::ProfileSwitchProgress(text) ==> event.deep_view()
            == InputEventView::ProfileSwitchProgress(text@),
        event matches InputEvent::ProfileSwitchFailed(text) ==> event.deep_view()
            == InputEventView::ProfileSwitchFailed(text@),
        event matches InputEvent::ProfileSwitchComplete(name) ==> event.deep_view()
            == InputEventView::ProfileSwitchComplete(name@),
{
}

/// Whatever the agent is told of several things, it is told of all of them.
pub proof fn law_agent_event_models(event: OutputEvent)
    ensures
        event matches OutputEvent::UserMessage(text, results, images, revert) ==> (
        event.deep_view() matches OutputEventView::UserMessage(said, models, parts, target) && {
            &&& said == text@
            &&& target == revert
            &&& parts.len() == images.len()
            &&& forall|i: int|
                0 <= i < images.len() ==> #[trigger] parts[i] == images[i].deep_view()
            &&& results is None ==> models is None
            &&& results matches Some(given) ==> (models matches Some(models) && models.len()
                == given.len() && forall|i: int|
                0 <= i < given.len() ==> #[trigger] models[i] == given[i].deep_view())
        }),
        event matches OutputEvent::AcceptTool(call) ==> event.deep_view()
            == OutputEventView::AcceptTool(call),
        event matches OutputEvent::RejectTool(call, stop) ==> event.deep_view()
            == OutputEventView::RejectTool(call, stop),
        event matches OutputEvent::SendToolResult(result, stop, waiting) ==> event.deep_view()
            == OutputEventView::SendToolResult(result.deep_view(), stop, waiting@),
        event matches OutputEvent::AskUserResponse(result) ==> event.deep_view()
            == OutputEventView::AskUserResponse(result.deep_view()),
        event matches OutputEvent::SwitchToSession(id) ==> event.deep_view()
            == OutputEventView::SwitchToSession(id@),
        event matches OutputEvent::SwitchToModel(model) ==> event.deep_view()
            == OutputEventView::SwitchToModel(model),
        event matches OutputEvent::RequestProfileSwitch(name) ==> event.deep_view()
            == OutputEventView::RequestProfileSwitch(name@),
        event matches OutputEvent::PlanFeedback(text) ==> event.deep_view()
            == OutputEventView::PlanFeedback(text@),
        event matches OutputEvent::CommandCalled(name) ==> event.deep_view()
            == OutputEventView::CommandCalled(name@),
        event matches OutputEvent::PlanModeActivated(Some(prompt)) ==> event.deep_view()
            == OutputEventView::PlanModeActivated(Some(prompt@)),
        event matches OutputEvent::PlanModeActivated(None) ==> event.deep_view()
            == OutputEventView::PlanModeActivated(None),
        event matches OutputEvent::SaveRecentModels(names) ==> (
        event.deep_view() matches OutputEventView::SaveRecentModels(models) && same_texts(
            names,
            models,
        )),
        event matches OutputEvent::RequestRulebookUpdate(uris) ==> (
        event.deep_view() matches OutputEventView::RequestRulebookUpdate(models) && same_texts(
            uris,
            models,
        )),
        event matches OutputEvent::SaveAutoApproveToProfile(tools) ==> (
        event.deep_view() matches OutputEventView::SaveAutoApproveToProfile(models) && same_texts(
            tools,
            models,
        )),
{
}

/// What comes after a step is modelled with all that it carries, and each of its directives
/// is.
pub proof fn law_step_models(step: Step, i: int)
    ensures
        step.deep_view().directives.len() == step.directives.len(),
        0 <= i < step.directives.len() ==> step.deep_view().directives[i] == (
        match step.directives[i] {
            Directive::Send(event) => DirectiveView::Send(event.deep_view()),
            Directive::Present(call) => DirectiveView::Present(call),
            Directive::Report(payload) => DirectiveView::Report(payload.deep_view()),
        }),
        step.next matches Next::PrepareUserMessage(text, results, images) ==> (
        step.deep_view().next matches NextView::PrepareUserMessage(said, models, parts) && said
            == text@ && models == results.deep_view() && parts == images.deep_view()),
        step.next matches Next::ParseQuestions(call) ==> step.deep_view().next
            == NextView::ParseQuestions(call),
        step.next matches Next::RunTool(call) ==> step.deep_view().next == NextView::RunTool(call),
        step.next matches Next::Resume(id) ==> step.deep_view().next == NextView::Resume(id@),
        step.next matches Next::SwitchModel(model) ==> step.deep_view().next
            == NextView::SwitchModel(model),
        step.next matches Next::ValidateProfile(name) ==> step.deep_view().next
            == NextView::ValidateProfile(name@),
        step.next matches Next::SwitchProfile(name) ==> step.deep_view().next
            == NextView::SwitchProfile(name@),
        step.next matches Next::FinishResponse(Some(calls)) ==> step.deep_view().next
            == NextView::FinishResponse(Some(calls@)),
        step.next matches Next::FinishResponse(None) ==> step.deep_view().next
            == NextView::FinishResponse(None),
        step.next matches Next::SaveRecentModels(names) ==> (
        step.deep_view().next matches NextView::SaveRecentModels(models) && same_texts(
            names,
            models,
        )),
        step.next matches Next::SelectSkills(uris) ==> (
        step.deep_view().next matches NextView::SelectSkills(models) && same_texts(uris, models)),
        step.next matches Next::SaveAutoApprove(tools) ==> (
        step.deep_view().next matches NextView::SaveAutoApprove(models) && same_texts(
            tools,
            models,
        )),
        step.next is CallModel <==> step.deep_view().next is CallModel,
        step.next is RetryModel <==> step.deep_view().next is RetryModel,
        step.next is AwaitEvent <==> step.deep_view().next is AwaitEvent,
{
}

/// What a checkpoint holds is modelled with all its messages and tool calls.
pub proof fn law_checkpoint_model(restored: Restored, i: int)
    ensures
        restored.deep_view().messages.len() == restored.messages.len(),
        0 <= i < restored.messages.len() ==> restored.deep_view().messages[i]
            == restored.messages[i].deep_view(),
        restored.deep_view().tool_calls == restored.tool_calls@,
        restored.deep_view().session_id == restored.session_id,
        restored.deep_view().metadata == restored.metadata,
{
}

/// What the terminal does and shows, and how a command goes on, is modelled with its texts.
pub proof fn law_screen_event_models(effect: Effect, message: Message, step: CommandStep)
    ensures
        effect matches Effect::ShowWelcome(Some(version)) ==> effect.deep_view()
            == EffectView::ShowWelcome(Some(version@)),
        effect matches Effect::ShowWelcome(None) ==> effect.deep_view()
            == EffectView::ShowWelcome(None),
        effect matches Effect::ShowSystem(text) ==> effect.deep_view()
            == EffectView::ShowSystem(text@),
        effect matches Effect::ShowError(text) ==> effect.deep_view() == EffectView::ShowError(
            text@,
        ),
        effect matches Effect::ShowStyled(text, color, mark, mark_color) ==> effect.deep_view()
            == EffectView::ShowStyled(text@, color, mark@, mark_color),
        effect matches Effect::KillShell(command) ==> effect.deep_view() == EffectView::KillShell(
            command,
        ),
        message.deep_view().id == message.id,
        message.content matches MessageContent::Plain(text, color) ==> message.deep_view().content
            == MessageContentView::Plain(text@, color),
        message.content matches MessageContent::PlainText(text) ==> message.deep_view().content
            == MessageContentView::PlainText(text@),
        message.content matches MessageContent::UserMessage(text) ==> message.deep_view().content
            == MessageContentView::UserMessage(text@),
        message.content matches MessageContent::Block(text) ==> message.deep_view().content
            == MessageContentView::Block(text@),
        step matches CommandStep::ResolveEditorPath(path) ==> step.deep_view()
            == CommandStepView::ResolveEditorPath(path@),
        step matches CommandStep::CheckPlanFile(Some(prompt)) ==> step.deep_view()
            == CommandStepView::CheckPlanFile(Some(prompt@)),
        step matches CommandStep::CheckPlanFile(None) ==> step.deep_view()
            == CommandStepView::CheckPlanFile(None),
        step is Done <==> step.deep_view() is Done,
        step is Summarize <==> step.deep_view() is Summarize,
{
}

} // verus!
