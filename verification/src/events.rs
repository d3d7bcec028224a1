//! What the terminal interface and the agent tell each other.
use vstd::prelude::*;
use vstd::string::*;

use crate::chat::{ContentPart, ContentPartView, ToolCall, ToolCallResult, ToolCallResultView};
use crate::usage::{LLMTokenUsage, UsageCounts};

verus! {

/// Work during which the interface shows that it is busy.
#[derive(Debug, Clone, Copy, PartialEq, Eq, Structural)]
pub enum LoadingOperation {
    ToolExecution,
    StreamProcessing,
    SessionsList,
    CheckpointResume,
}

/// How many tokens a model takes and gives.
#[derive(Debug, Clone, Copy, PartialEq, Eq, Structural)]
pub struct ModelLimit {
    pub context: u64,
    pub output: u64,
}

/// A model that answers the conversation.
#[derive(Debug, PartialEq, Eq)]
pub struct Model {
    pub id: String,
    pub name: String,
    pub provider: String,
    pub limit: ModelLimit,
}

/// A session that can be resumed.
#[derive(Debug, PartialEq, Eq)]
pub struct SessionInfo {
    pub id: String,
    pub title: String,
}

/// A question that the assistant puts to the user, as the JSON text of one item
/// of the `questions` list.
#[derive(Debug, PartialEq, Eq)]
pub struct AskUserQuestion {
    pub json: String,
}

/// A skill that the agent can draw on, found by its URI.
#[derive(Debug, PartialEq, Eq)]
pub struct Skill {
    pub uri: String,
    pub name: String,
    pub description: String,
}

/// The front matter of a plan file.
#[derive(Debug, PartialEq, Eq)]
pub struct PlanMetadata {
    pub front_matter: String,
}

/// The question what to do with a plan that is already there.
#[derive(Debug, PartialEq, Eq)]
pub struct ExistingPlanPrompt {
    pub inline_prompt: Option<String>,
    pub metadata: Option<PlanMetadata>,
}

/// What the interface is told.
#[derive(Debug, PartialEq, Eq)]
pub enum InputEvent {
    HasUserMessage,
    AddUserMessage(String),
    StartLoadingOperation(LoadingOperation),
    EndLoadingOperation(LoadingOperation),
    SetSessionId(String),
    RunToolCall(ToolCall),
    ShowAskUserPopup(ToolCall, Vec<AskUserQuestion>),
    MessageToolCalls(Vec<ToolCall>),
    ToolResult(ToolCallResult),
    StreamToolResult(String),
    Error(String),
    GetStatus(String),
    SetSessions(Vec<SessionInfo>),
    ProfilesLoaded(Vec<String>, String),
    RulebooksLoaded(Vec<Skill>),
    CurrentRulebooksLoaded(Vec<String>),
    TotalUsage(LLMTokenUsage),
    AvailableModelsLoaded(Vec<Model>),
    RecentModelsUpdated(Vec<String>),
    PlanModeChanged(bool),
    ExistingPlanFound(ExistingPlanPrompt),
    ProfileSwitchRequested(String),
    ProfileSwitchProgress(String),
    ProfileSwitchFailed(String),
    ProfileSwitchComplete(String),
    ShowAutoApprovePopup,
    ShowProfileSwitcher,
    ShowShortcuts,
    ToggleMouseCapture,
    Quit,
}

/// What the agent is told.
#[derive(Debug, PartialEq, Eq)]
pub enum OutputEvent {
    UserMessage(String, Option<Vec<ToolCallResult>>, Vec<ContentPart>, Option<usize>),
    AcceptTool(ToolCall),
    RejectTool(ToolCall, bool),
    SendToolResult(ToolCallResult, bool, Vec<ToolCall>),
    AskUserResponse(ToolCallResult),
    ListSessions,
    NewSession,
    ResumeSession,
    SwitchToSession(String),
    SwitchToModel(Model),
    SaveRecentModels(Vec<String>),
    RequestAvailableModels,
    RequestTotalUsage,
    RequestProfileSwitch(String),
    RequestRulebookUpdate(Vec<String>),
    RequestCurrentRulebooks,
    PlanModeActivated(Option<String>),
    PlanFeedback(String),
    PlanApproved,
    CommandCalled(String),
    SaveAutoApproveToProfile(Vec<String>),
}

/// The model of an [`ExistingPlanPrompt`].
pub struct ExistingPlanPromptView {
    pub inline_prompt: Option<Seq<char>>,
    pub metadata: Option<PlanMetadata>,
}

/// The model of an [`InputEvent`].
pub enum InputEventView {
    HasUserMessage,
    AddUserMessage(Seq<char>),
    StartLoadingOperation(LoadingOperation),
    EndLoadingOperation(LoadingOperation),
    SetSessionId(Seq<char>),
    RunToolCall(ToolCall),
    ShowAskUserPopup(ToolCall, Seq<AskUserQuestion>),
    MessageToolCalls(Seq<ToolCall>),
    ToolResult(ToolCallResultView),
    StreamToolResult(Seq<char>),
    Error(Seq<char>),
    GetStatus(Seq<char>),
    SetSessions(Seq<SessionInfo>),
    ProfilesLoaded(Seq<Seq<char>>, Seq<char>),
    RulebooksLoaded(Seq<Skill>),
    CurrentRulebooksLoaded(Seq<Seq<char>>),
    TotalUsage(UsageCounts),
    AvailableModelsLoaded(Seq<Model>),
    RecentModelsUpdated(Seq<Seq<char>>),
    PlanModeChanged(bool),
    ExistingPlanFound(ExistingPlanPromptView),
    ProfileSwitchRequested(Seq<char>),
    ProfileSwitchProgress(Seq<char>),
    ProfileSwitchFailed(Seq<char>),
    ProfileSwitchComplete(Seq<char>),
    ShowAutoApprovePopup,
    ShowProfileSwitcher,
    ShowShortcuts,
    ToggleMouseCapture,
    Quit,
}

/// The model of an [`OutputEvent`].
pub enum OutputEventView {
    UserMessage(
        Seq<char>,
        Option<Seq<ToolCallResultView>>,
        Seq<ContentPartView>,
        Option<usize>,
    ),
    AcceptTool(ToolCall),
    RejectTool(ToolCall, bool),
    SendToolResult(ToolCallResultView, bool, Seq<ToolCall>),
    AskUserResponse(ToolCallResultView),
    ListSessions,
    NewSession,
    ResumeSession,
    SwitchToSession(Seq<char>),
    SwitchToModel(Model),
    SaveRecentModels(Seq<Seq<char>>),
    RequestAvailableModels,
    RequestTotalUsage,
    RequestProfileSwitch(Seq<char>),
    RequestRulebookUpdate(Seq<Seq<char>>),
    RequestCurrentRulebooks,
    PlanModeActivated(Option<Seq<char>>),
    PlanFeedback(Seq<char>),
    PlanApproved,
    CommandCalled(Seq<char>),
    SaveAutoApproveToProfile(Seq<Seq<char>>),
}

impl DeepView for ExistingPlanPrompt {
    type V = ExistingPlanPromptView;

    open spec fn deep_view(&self) -> ExistingPlanPromptView {
        ExistingPlanPromptView {
            inline_prompt: self.inline_prompt.deep_view(),
            metadata: self.metadata,
        }
    }
}

impl DeepView for InputEvent {
    type V = InputEventView;

    open spec fn deep_view(&self) -> InputEventView {
        match self {
            InputEvent::HasUserMessage => InputEventView::HasUserMessage,
            InputEvent::AddUserMessage(text) => InputEventView::AddUserMessage(text@),
            InputEvent::StartLoadingOperation(op) => InputEventView::StartLoadingOperation(*op),
            InputEvent::EndLoadingOperation(op) => InputEventView::EndLoadingOperation(*op),
            InputEvent::SetSessionId(id) => InputEventView::SetSessionId(id@),
            InputEvent::RunToolCall(call) => InputEventView::RunToolCall(*call),
            InputEvent::ShowAskUserPopup(call, questions) => InputEventView::ShowAskUserPopup(
                *call,
                questions@,
            ),
            InputEvent::MessageToolCalls(calls) => InputEventView::MessageToolCalls(calls@),
            InputEvent::ToolResult(result) => InputEventView::ToolResult(result.deep_view()),
            InputEvent::StreamToolResult(text) => InputEventView::StreamToolResult(text@),
            InputEvent::Error(text) => InputEventView::Error(text@),
            InputEvent::GetStatus(text) => InputEventView::GetStatus(text@),
            InputEvent::SetSessions(sessions) => InputEventView::SetSessions(sessions@),
            InputEvent::ProfilesLoaded(names, current) => InputEventView::ProfilesLoaded(
                names.deep_view(),
                current@,
            ),
            InputEvent::RulebooksLoaded(skills) => InputEventView::RulebooksLoaded(skills@),
            InputEvent::CurrentRulebooksLoaded(uris) => InputEventView::CurrentRulebooksLoaded(
                uris.deep_view(),
            ),
            InputEvent::TotalUsage(usage) => InputEventView::TotalUsage(usage@),
            InputEvent::AvailableModelsLoaded(models) => InputEventView::AvailableModelsLoaded(
                models@,
            ),
            InputEvent::RecentModelsUpdated(models) => InputEventView::RecentModelsUpdated(
                models.deep_view(),
            ),
            InputEvent::PlanModeChanged(on) => InputEventView::PlanModeChanged(*on),
            InputEvent::ExistingPlanFound(prompt) => InputEventView::ExistingPlanFound(
                prompt.deep_view(),
            ),
            InputEvent::ProfileSwitchRequested(name) => InputEventView::ProfileSwitchRequested(
                name@,
            ),
            InputEvent::ProfileSwitchProgress(text) => InputEventView::ProfileSwitchProgress(text@),
            InputEvent::ProfileSwitchFailed(text) => InputEventView::ProfileSwitchFailed(text@),
            InputEvent::ProfileSwitchComplete(name) => InputEventView::ProfileSwitchComplete(name@),
            InputEvent::ShowAutoApprovePopup => InputEventView::ShowAutoApprovePopup,
            InputEvent::ShowProfileSwitcher => InputEventView::ShowProfileSwitcher,
            InputEvent::ShowShortcuts => InputEventView::ShowShortcuts,
            InputEvent::ToggleMouseCapture => InputEventView::ToggleMouseCapture,
            InputEvent::Quit => InputEventView::Quit,
        }
    }
}

impl DeepView for OutputEvent {
    type V = OutputEventView;

    open spec fn deep_view(&self) -> OutputEventView {
        match self {
            OutputEvent::UserMessage(text, results, images, revert) => OutputEventView::UserMessage(
                text@,
                results.deep_view(),
                images.deep_view(),
                *revert,
            ),
            OutputEvent::AcceptTool(call) => OutputEventView::AcceptTool(*call),
            OutputEvent::RejectTool(call, stop) => OutputEventView::RejectTool(*call, *stop),
            OutputEvent::SendToolResult(result, stop, waiting) => OutputEventView::SendToolResult(
                result.deep_view(),
                *stop,
                waiting@,
            ),
            OutputEvent::AskUserResponse(result) => OutputEventView::AskUserResponse(
                result.deep_view(),
            ),
            OutputEvent::ListSessions => OutputEventView::ListSessions,
            OutputEvent::NewSession => OutputEventView::NewSession,
            OutputEvent::ResumeSession => OutputEventView::ResumeSession,
            OutputEvent::SwitchToSession(id) => OutputEventView::SwitchToSession(id@),
            OutputEvent::SwitchToModel(model) => OutputEventView::SwitchToModel(*model),
            OutputEvent::SaveRecentModels(models) => OutputEventView::SaveRecentModels(
                models.deep_view(),
            ),
            OutputEvent::RequestAvailableModels => OutputEventView::RequestAvailableModels,
            OutputEvent::RequestTotalUsage => OutputEventView::RequestTotalUsage,
            OutputEvent::RequestProfileSwitch(name) => OutputEventView::RequestProfileSwitch(name@),
            OutputEvent::RequestRulebookUpdate(uris) => OutputEventView::RequestRulebookUpdate(
                uris.deep_view(),
            ),
            OutputEvent::RequestCurrentRulebooks => OutputEventView::RequestCurrentRulebooks,
            OutputEvent::PlanModeActivated(prompt) => OutputEventView::PlanModeActivated(
                prompt.deep_view(),
            ),
            OutputEvent::PlanFeedback(text) => OutputEventView::PlanFeedback(text@),
            OutputEvent::PlanApproved => OutputEventView::PlanApproved,
            OutputEvent::CommandCalled(name) => OutputEventView::CommandCalled(name@),
            OutputEvent::SaveAutoApproveToProfile(tools)
                => OutputEventView::SaveAutoApproveToProfile(tools.deep_view()),
        }
    }
}

impl Clone for Model {
    fn clone(&self) -> (res: Self)
        ensures
            res == *self,
    {
        Model {
            id: self.id.clone(),
            name: self.name.clone(),
            provider: self.provider.clone(),
            limit: self.limit,
        }
    }
}

impl Clone for Skill {
    fn clone(&self) -> (res: Self)
        ensures
            res == *self,
    {
        Skill {
            uri: self.uri.clone(),
            name: self.name.clone(),
            description: self.description.clone(),
        }
    }
}

} // verus!
