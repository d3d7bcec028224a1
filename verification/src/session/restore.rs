//! Beginning, listing and resuming sessions.
use vstd::prelude::*;
use vstd::string::*;

use super::{
    complains, ends, nothing, push, starts, wait_after, waits, Directive, DirectiveView, Next,
    NextView, Session, SessionView, Step, StepView,
};
use crate::chat::{
    copy_calls, system_message, text_message, ChatMessage, ChatMessageView, ContentView, Role,
    ToolCall,
};
use crate::events::{
    ExistingPlanPrompt, ExistingPlanPromptView, InputEvent, InputEventView, LoadingOperation,
    PlanMetadata, SessionInfo,
};
use crate::ids::{format_uuid, uuid_of_text, uuid_text};
use crate::usage::{no_usage, LLMTokenUsage};

verus! {

/// What the last checkpoint of a session holds.
#[derive(Debug, PartialEq, Eq)]
pub struct Restored {
    pub messages: Vec<ChatMessage>,
    pub tool_calls: Vec<ToolCall>,
    pub session_id: u128,
    pub metadata: Option<serde_json::Value>,
}

/// The model of a [`Restored`].
pub struct RestoredView {
    pub messages: Seq<ChatMessageView>,
    pub tool_calls: Seq<ToolCall>,
    pub session_id: u128,
    pub metadata: Option<serde_json::Value>,
}

impl DeepView for Restored {
    type V = RestoredView;

    open spec fn deep_view(&self) -> RestoredView {
        RestoredView {
            messages: self.messages.deep_view(),
            tool_calls: self.tool_calls@,
            session_id: self.session_id,
            metadata: self.metadata,
        }
    }
}

/// Telling the interface which session this is: only where it did not know of any.
pub open spec fn announces(current: Option<u128>, id: u128) -> Seq<DirectiveView> {
    match current {
        Some(_) => Seq::empty(),
        None => seq![DirectiveView::Send(InputEventView::SetSessionId(uuid_text(id)))],
    }
}

/// Tool calls join the queue. The interface learns of all that wait there, and the
/// first is put before the user.
pub open spec fn takes_up(
    session: SessionView,
    directives: Seq<DirectiveView>,
    calls: Seq<ToolCall>,
) -> (SessionView, Seq<DirectiveView>) {
    let queue = session.tools_queue + calls;
    if queue.len() > 0 {
        (
            SessionView { tools_queue: queue.drop_first(), ..session },
            directives.push(
                DirectiveView::Send(InputEventView::MessageToolCalls(queue)),
            ).push(DirectiveView::Present(queue[0])),
        )
    } else {
        (session, directives)
    }
}

/// A checkpoint joins the session: its messages come behind those there are.
pub open spec fn joined_by(
    session: SessionView,
    directives: Seq<DirectiveView>,
    restored: RestoredView,
) -> (SessionView, Seq<DirectiveView>) {
    takes_up(
        SessionView {
            session_id: Some(restored.session_id),
            metadata: restored.metadata,
            refresh_skills: true,
            messages: session.messages + restored.messages,
            ..session
        },
        directives + announces(session.session_id, restored.session_id),
        restored.tool_calls,
    )
}

/// A session was loaded, or could not be.
pub open spec fn resumed(session: SessionView, restored: Option<RestoredView>) -> (
    SessionView,
    StepView,
) {
    match restored {
        Some(restored) => {
            let (after, directives) = joined_by(
                SessionView { usage: no_usage(), ..session },
                Seq::empty(),
                restored,
            );
            (after, waits(directives.push(ends(LoadingOperation::CheckpointResume))))
        },
        None => (session, waits(seq![ends(LoadingOperation::CheckpointResume)])),
    }
}

/// A session is loaded.
pub open spec fn loads(id: Seq<char>) -> StepView {
    StepView {
        directives: seq![starts(LoadingOperation::CheckpointResume)],
        next: NextView::Resume(id),
    }
}

/// The user wants to go on with the session they had: the current one, or else the
/// newest.
pub open spec fn resume_requested(session: SessionView) -> StepView {
    match session.session_id {
        Some(id) => loads(uuid_text(id)),
        None => StepView { directives: Seq::empty(), next: NextView::FindSession },
    }
}

/// The sessions were listed to find the one to resume, or could not be.
pub open spec fn sessions_found(sessions: Option<Seq<SessionInfo>>) -> StepView {
    match sessions {
        Some(sessions) => if sessions.len() > 0 {
            loads(sessions[0].id@)
        } else {
            waits(seq![complains("No active session to resume"@)])
        },
        None => waits(seq![complains("No active session to resume"@)]),
    }
}

/// The sessions were listed, or could not be.
pub open spec fn sessions_listed(sessions: Result<Seq<SessionInfo>, Seq<char>>) -> StepView {
    waits(
        seq![
            match sessions {
                Ok(sessions) => DirectiveView::Send(InputEventView::SetSessions(sessions)),
                Err(error) => complains(error),
            },
            ends(LoadingOperation::SessionsList),
        ],
    )
}

/// A new session: no id, no messages, no usage. All else stays.
pub open spec fn renewed(session: SessionView) -> SessionView {
    SessionView { session_id: None, messages: Seq::empty(), usage: no_usage(), ..session }
}

/// A checkpoint given at the start joins the session.
pub open spec fn checkpoint_loaded(
    session: SessionView,
    messages: Seq<ChatMessageView>,
    calls: Seq<ToolCall>,
    metadata: Option<serde_json::Value>,
) -> (SessionView, Seq<DirectiveView>) {
    takes_up(
        SessionView { metadata, messages: session.messages + messages, ..session },
        Seq::empty(),
        calls,
    )
}

/// Plan mode is asked for at the start: the user is asked about a plan that is
/// already there; otherwise the mode is on.
pub open spec fn plan_at_start(
    session: SessionView,
    existing: Option<Option<PlanMetadata>>,
) -> (SessionView, Seq<DirectiveView>) {
    match existing {
        Some(metadata) => (
            session,
            seq![
                DirectiveView::Send(
                    InputEventView::ExistingPlanFound(
                        ExistingPlanPromptView { inline_prompt: None, metadata },
                    ),
                ),
            ],
        ),
        None => (
            SessionView { plan_mode_active: true, ..session },
            seq![DirectiveView::Send(InputEventView::PlanModeChanged(true))],
        ),
    }
}

/// Sets the current session and says what to tell the interface, which is told only
/// where there was no session before. The text it is told names the session.
pub fn set_session_id(current_session_id: &mut Option<u128>, new_session_id: u128) -> (res: Option<
    InputEvent,
>)
    ensures
        *final(current_session_id) == Some(new_session_id),
        match res {
            Some(event) => *old(current_session_id) is None && event.deep_view()
                == InputEventView::SetSessionId(uuid_text(new_session_id)) && uuid_of_text(
                uuid_text(new_session_id),
            ) == Some(new_session_id),
            None => *old(current_session_id) is Some,
        },
{
    let was_none = current_session_id.is_none();
    *current_session_id = Some(new_session_id);
    if was_none {
        Some(InputEvent::SetSessionId(format_uuid(new_session_id)))
    } else {
        None
    }
}

impl Session {
    /// Sets the current session and tells the interface.
    pub(crate) fn enter_session(&mut self, id: u128, directives: &mut Vec<Directive>)
        ensures
            final(self).deep_view() == (SessionView {
                session_id: Some(id),
                ..old(self).deep_view()
            }),
            final(directives).deep_view() == old(directives).deep_view() + announces(
                old(self).deep_view().session_id,
                id,
            ),
    {
        let ghost before = directives.deep_view();
        if let Some(event) = set_session_id(&mut self.current_session_id, id) {
            push(directives, Directive::Send(event));
            proof {
                assert(directives.deep_view() =~= before + announces(None, id));
            }
        } else {
            proof {
                assert(directives.deep_view() =~= before + announces(
                    old(self).current_session_id,
                    id,
                ));
            }
        }
    }

    /// Takes tool calls into the queue and puts the first one before the user.
    fn take_up(&mut self, calls: Vec<ToolCall>, directives: &mut Vec<Directive>)
        ensures
            (final(self).deep_view(), final(directives).deep_view()) == takes_up(
                old(self).deep_view(),
                old(directives).deep_view(),
                calls@,
            ),
    {
        let mut calls = calls;
        let ghost queue = self.tools_queue@ + calls@;
        self.tools_queue.append(&mut calls);
        if self.tools_queue.len() > 0 {
            push(
                directives,
                Directive::Send(InputEvent::MessageToolCalls(copy_calls(&self.tools_queue))),
            );
            let first = self.tools_queue.remove(0);
            proof {
                assert(self.tools_queue@ =~= queue.drop_first());
            }
            push(directives, Directive::Present(first));
        } else {
            proof {
                assert(self.tools_queue@ =~= old(self).tools_queue@);
            }
        }
    }

    /// Puts messages behind the conversation.
    fn extend_messages(&mut self, messages: Vec<ChatMessage>)
        ensures
            final(self).deep_view() == (SessionView {
                messages: old(self).deep_view().messages + messages.deep_view(),
                ..old(self).deep_view()
            }),
    {
        let mut messages = messages;
        let ghost more = messages.deep_view();
        self.messages.append(&mut messages);
        proof {
            assert(self.messages.deep_view() =~= old(self).messages.deep_view() + more);
        }
    }

    /// Lets a checkpoint join the session.
    fn join(&mut self, restored: Restored, directives: &mut Vec<Directive>)
        ensures
            (final(self).deep_view(), final(directives).deep_view()) == joined_by(
                old(self).deep_view(),
                old(directives).deep_view(),
                restored.deep_view(),
            ),
    {
        self.enter_session(restored.session_id, directives);
        self.current_metadata = restored.metadata;
        self.should_refresh_skills_on_next_message = true;
        self.extend_messages(restored.messages);
        self.take_up(restored.tool_calls, directives);
    }

    /// The session named at the start was loaded.
    pub fn on_session_loaded(&mut self, restored: Restored) -> (res: Vec<Directive>)
        ensures
            (final(self).deep_view(), res.deep_view()) == joined_by(
                old(self).deep_view(),
                Seq::empty(),
                restored.deep_view(),
            ),
    {
        let mut directives = nothing();
        self.join(restored, &mut directives);
        directives
    }

    /// It was looked up which session the checkpoint named at the start belongs to.
    pub fn on_checkpoint_found(&mut self, id: u128) -> (res: Vec<Directive>)
        ensures
            final(self).deep_view() == (SessionView {
                session_id: Some(id),
                ..old(self).deep_view()
            }),
            res.deep_view() == announces(old(self).deep_view().session_id, id),
    {
        let mut directives = nothing();
        self.enter_session(id, &mut directives);
        proof {
            assert(directives.deep_view() =~= announces(old(self).current_session_id, id));
        }
        directives
    }

    /// The checkpoint named at the start was loaded.
    pub fn on_checkpoint_loaded(
        &mut self,
        messages: Vec<ChatMessage>,
        tool_calls: Vec<ToolCall>,
        metadata: Option<serde_json::Value>,
    ) -> (res: Vec<Directive>)
        ensures
            (final(self).deep_view(), res.deep_view()) == checkpoint_loaded(
                old(self).deep_view(),
                messages.deep_view(),
                tool_calls@,
                metadata,
            ),
    {
        let mut directives = nothing();
        self.current_metadata = metadata;
        self.extend_messages(messages);
        self.take_up(tool_calls, &mut directives);
        directives
    }

    /// Puts the system prompt before the conversation, where there is one.
    pub fn add_system_prompt(&mut self, system_prompt: Option<String>)
        ensures
            final(self).deep_view() == (SessionView {
                messages: match system_prompt {
                    Some(text) => old(self).deep_view().messages.insert(
                        0,
                        text_message(Role::System, text@),
                    ),
                    None => old(self).deep_view().messages,
                },
                ..old(self).deep_view()
            }),
            system_prompt is Some ==> final(self).deep_view().messages.len() == old(
                self,
            ).deep_view().messages.len() + 1 && final(self).deep_view().messages.skip(1) == old(
                self,
            ).deep_view().messages && final(self).deep_view().messages[0].role == Role::System
                && final(self).deep_view().messages[0].content == Some(
                ContentView::Text(system_prompt->0@),
            ),
    {
        if let Some(text) = system_prompt {
            let message = system_message(text);
            self.messages.insert(0, message);
            proof {
                assert(self.messages.deep_view() =~= old(self).messages.deep_view().insert(
                    0,
                    message.deep_view(),
                ));
                assert(self.deep_view().messages.skip(1) =~= old(self).deep_view().messages);
            }
        }
    }

    /// Plan mode was asked for at the start. `existing` holds the front matter of a
    /// plan that is already there, as far as it could be read.
    pub fn start_plan_mode(&mut self, existing: Option<Option<PlanMetadata>>) -> (res: Vec<Directive>)
        ensures
            (final(self).deep_view(), res.deep_view()) == plan_at_start(
                old(self).deep_view(),
                existing,
            ),
    {
        let mut directives = nothing();
        match existing {
            Some(metadata) => {
                push(
                    &mut directives,
                    Directive::Send(
                        InputEvent::ExistingPlanFound(
                            ExistingPlanPrompt { inline_prompt: None, metadata },
                        ),
                    ),
                );
            },
            None => {
                self.plan_mode_active = true;
                push(&mut directives, Directive::Send(InputEvent::PlanModeChanged(true)));
            },
        }
        directives
    }

    /// The user wants to go on with the session they had.
    pub fn on_resume_session(&self) -> (res: Step)
        ensures
            res.deep_view() == resume_requested(self.deep_view()),
    {
        match self.current_session_id {
            Some(id) => self.on_switch_to_session(format_uuid(id)),
            None => Step { directives: nothing(), next: Next::FindSession },
        }
    }

    /// The user wants another session.
    pub fn on_switch_to_session(&self, session_id: String) -> (res: Step)
        ensures
            res.deep_view() == loads(session_id@),
    {
        let mut directives = nothing();
        push(
            &mut directives,
            Directive::Send(InputEvent::StartLoadingOperation(LoadingOperation::CheckpointResume)),
        );
        Step { directives, next: Next::Resume(session_id) }
    }

    /// The sessions were listed to find the one to resume; `None` where they could
    /// not be.
    pub fn on_sessions_found(&self, sessions: Option<Vec<SessionInfo>>) -> (res: Step)
        ensures
            res.deep_view() == sessions_found(
                match sessions {
                    Some(sessions) => Some(sessions@),
                    None => None,
                },
            ),
    {
        if let Some(sessions) = &sessions {
            if sessions.len() > 0 {
                return self.on_switch_to_session(sessions[0].id.clone());
            }
        }
        let mut directives = nothing();
        push(
            &mut directives,
            Directive::Send(InputEvent::Error("No active session to resume".to_string())),
        );
        wait_after(directives)
    }

    /// A session was loaded; `None` where it could not be.
    pub fn on_resumed(&mut self, restored: Option<Restored>) -> (res: Step)
        ensures
            (final(self).deep_view(), res.deep_view()) == resumed(
                old(self).deep_view(),
                restored.deep_view(),
            ),
    {
        let mut directives = nothing();
        if let Some(restored) = restored {
            self.total_session_usage = LLMTokenUsage::none();
            self.join(restored, &mut directives);
        }
        push(
            &mut directives,
            Directive::Send(InputEvent::EndLoadingOperation(LoadingOperation::CheckpointResume)),
        );
        wait_after(directives)
    }

    /// The user wants to see their sessions.
    pub fn on_list_sessions(&self) -> (res: Step)
        ensures
            res.deep_view() == (StepView {
                directives: seq![starts(LoadingOperation::SessionsList)],
                next: NextView::ListSessions,
            }),
    {
        let mut directives = nothing();
        push(
            &mut directives,
            Directive::Send(InputEvent::StartLoadingOperation(LoadingOperation::SessionsList)),
        );
        Step { directives, next: Next::ListSessions }
    }

    /// The sessions were listed, or could not be.
    pub fn on_sessions_listed(&self, sessions: Result<Vec<SessionInfo>, String>) -> (res: Step)
        ensures
            res.deep_view() == sessions_listed(
                match sessions {
                    Ok(sessions) => Ok::<Seq<SessionInfo>, Seq<char>>(sessions@),
                    Err(error) => Err::<Seq<SessionInfo>, Seq<char>>(error@),
                },
            ),
    {
        let mut directives = nothing();
        match sessions {
            Ok(sessions) => {
                push(&mut directives, Directive::Send(InputEvent::SetSessions(sessions)));
            },
            Err(error) => {
                push(&mut directives, Directive::Send(InputEvent::Error(error)));
            },
        }
        push(
            &mut directives,
            Directive::Send(InputEvent::EndLoadingOperation(LoadingOperation::SessionsList)),
        );
        wait_after(directives)
    }

    /// The user wants a new session.
    pub fn on_new_session(&mut self) -> (res: Step)
        ensures
            final(self).deep_view() == renewed(old(self).deep_view()),
            res.deep_view() == waits(Seq::empty()),
    {
        self.current_session_id = None;
        self.messages.clear();
        self.total_session_usage = LLMTokenUsage::none();
        proof {
            assert(self.messages.deep_view() =~= Seq::<ChatMessageView>::empty());
        }
        wait_after(nothing())
    }
}

} // verus!
