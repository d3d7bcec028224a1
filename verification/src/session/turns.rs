//! The user's turns: messages typed, reverted to or sent from the plan review.
use vstd::prelude::*;
use vstd::string::*;

use super::{
    calls_model_unless_pending, nothing, push, wait_after, waits, Directive, DirectiveView, Next,
    NextView, Session, SessionSettings, SessionView, Step, StepView,
};
use crate::chat::{
    text_message, tool_result_message, user_message, ChatMessage, ChatMessageView, ContentPart,
    ContentPartView, ContentView, MessageContent, Role, ToolCallResult, ToolCallResultView,
};
use crate::conversation::{
    call_ids, find_nth_user_message_index, get_unresolved_tool_call_ids,
    is_first_non_system_message, law_nth_user_index, nth_user_index, only_system, unresolved_ids,
};
use crate::events::{InputEvent, InputEventView};
use crate::telemetry::{settings_payload, TelemetryEvent, TelemetryEventView};
use crate::text::{concat3, trim, trimmed};

verus! {

/// The session after going back to the `target`th message of the user: that
/// message and all behind it are gone, and so are the waiting tool calls. Without
/// such a message nothing changes.
pub open spec fn reverted(session: SessionView, target: Option<usize>) -> SessionView {
    match target {
        Some(n) => match nth_user_index(session.messages, n as nat) {
            Some(index) => SessionView {
                messages: session.messages.take(index),
                tools_queue: Seq::empty(),
                ..session
            },
            None => session,
        },
        None => session,
    }
}

/// The user sent a message.
pub open spec fn message_received(
    session: SessionView,
    text: Seq<char>,
    results: Option<Seq<ToolCallResultView>>,
    images: Seq<ContentPartView>,
    target: Option<usize>,
) -> (SessionView, StepView) {
    (
        reverted(session, target),
        StepView {
            directives: Seq::empty(),
            next: NextView::PrepareUserMessage(text, results, images),
        },
    )
}

/// The user's text with the history of their shell before it, where there is one.
pub open spec fn with_history(history: Option<Seq<char>>, text: Seq<char>) -> Seq<char> {
    match history {
        Some(history) => history + "\n\n"@ + text,
        None => text,
    }
}

/// How the text is to be enriched with the agent's context.
#[derive(Debug, Clone, Copy, PartialEq, Eq, Structural)]
pub struct Enrichment {
    pub is_first: bool,
    pub force: bool,
}

/// How a message to `session` is enriched: the first one, and one after the
/// chosen skills have changed.
pub open spec fn enrichment(session: SessionView, has_context: bool) -> Option<Enrichment> {
    let is_first = only_system(session.messages);
    if has_context && (is_first || session.refresh_skills) {
        Some(Enrichment { is_first, force: session.refresh_skills })
    } else {
        None
    }
}

/// The session after it was decided how its message is enriched.
pub open spec fn enriched(session: SessionView, has_context: bool) -> SessionView {
    if enrichment(session, has_context) is Some {
        SessionView { refresh_skills: false, ..session }
    } else {
        session
    }
}

/// Whether the instructions for plan mode go before the next message: before the
/// first one in plan mode.
pub open spec fn instructs(session: SessionView) -> bool {
    session.plan_mode_active && !session.plan_instructions_injected
}

/// The text with the instructions for plan mode before it, where they are due.
pub open spec fn with_instructions(
    session: SessionView,
    instructions: Seq<char>,
    text: Seq<char>,
) -> (SessionView, Seq<char>) {
    if instructs(session) {
        (
            SessionView { plan_instructions_injected: true, ..session },
            instructions + " "@ + text,
        )
    } else {
        (session, text)
    }
}

/// The text of a message as one of its parts.
pub open spec fn text_part(text: Seq<char>) -> ContentPartView {
    ContentPartView { kind: "text"@, text: Some(text), image_url: None }
}

/// The user's message: its text, or its parts where there are pictures. A blank
/// text beside pictures is left out.
pub open spec fn composed(text: Seq<char>, images: Seq<ContentPartView>) -> ChatMessageView {
    if images.len() == 0 {
        text_message(Role::User, text)
    } else {
        let parts = if trimmed(text).len() > 0 {
            seq![text_part(text)] + images
        } else {
            images
        };
        ChatMessageView {
            content: Some(ContentView::Parts(parts)),
            ..text_message(Role::User, Seq::empty())
        }
    }
}

/// The results of cancelled calls, one for each of the ids.
pub open spec fn cancelled(ids: Seq<Seq<char>>) -> Seq<ChatMessageView> {
    ids.map_values(|id: Seq<char>| tool_result_message(id, "TOOL_CALL_CANCELLED"@))
}

/// The session with all its tool calls answered: those that wait in the queue and
/// then those that still lack a result are cancelled.
pub open spec fn tools_cancelled(session: SessionView) -> SessionView {
    let dropped = session.messages + cancelled(call_ids(session.tools_queue));
    SessionView {
        messages: dropped + cancelled(unresolved_ids(dropped)),
        tools_queue: Seq::empty(),
        ..session
    }
}

/// What is reported about a message of the user: nothing where the provider of
/// this program is used.
pub open spec fn prompt_report(settings: SessionSettings) -> Seq<DirectiveView> {
    match settings_payload(settings.telemetry, TelemetryEventView::UserPrompted) {
        Some(payload) => if settings.has_stakpak_key {
            Seq::empty()
        } else {
            seq![DirectiveView::Report(payload)]
        },
        None => Seq::empty(),
    }
}

/// The user's message joins the conversation, behind a result for every tool call.
pub open spec fn message_joined(
    session: SessionView,
    settings: SessionSettings,
    text: Seq<char>,
    images: Seq<ContentPartView>,
) -> (SessionView, StepView) {
    let answered = tools_cancelled(session);
    let after = SessionView { messages: answered.messages.push(composed(text, images)), ..answered };
    (
        after,
        calls_model_unless_pending(
            after,
            seq![DirectiveView::Send(InputEventView::HasUserMessage)] + prompt_report(settings),
        ),
    )
}

/// Plan mode was switched on. A prompt given with it is sent at once, with the
/// instructions; otherwise they wait for the user's next message.
pub open spec fn plan_activated(
    session: SessionView,
    instructions: Seq<char>,
    prompt: Option<Seq<char>>,
) -> (SessionView, StepView) {
    let active = SessionView { plan_mode_active: true, ..session };
    let changed = DirectiveView::Send(InputEventView::PlanModeChanged(true));
    match prompt {
        Some(prompt) => {
            let after = SessionView {
                messages: active.messages.push(
                    text_message(Role::User, instructions + " "@ + prompt),
                ),
                plan_instructions_injected: true,
                ..active
            };
            (
                after,
                calls_model_unless_pending(
                    after,
                    seq![changed, DirectiveView::Send(InputEventView::HasUserMessage)],
                ),
            )
        },
        None => (active, waits(seq![changed])),
    }
}

/// A text from the plan review is sent as a message of the user.
pub open spec fn review_sent(session: SessionView, text: Seq<char>) -> (SessionView, StepView) {
    let after = SessionView {
        messages: session.messages.push(text_message(Role::User, text)),
        ..session
    };
    (
        after,
        calls_model_unless_pending(
            after,
            seq![
                DirectiveView::Send(InputEventView::HasUserMessage),
                DirectiveView::Send(InputEventView::AddUserMessage(text)),
            ],
        ),
    )
}

/// What the user's approval of a plan tells the agent.
pub open spec fn approval_text() -> Seq<char> {
    "Plan approved. Update the plan front matter status to `approved` and proceed with creating a new task board breaking down the plan."@
}

/// The user's message.
pub fn compose_user_message(text: String, image_parts: Vec<ContentPart>) -> (res: ChatMessage)
    ensures
        res.deep_view() == composed(text@, image_parts.deep_view()),
{
    if image_parts.len() == 0 {
        return user_message(text);
    }
    let mut parts: Vec<ContentPart> = Vec::new();
    let mut images = image_parts;
    let ghost blank = trimmed(text@).len() == 0;
    if !trim(text.as_str()).is_empty() {
        parts.push(
            ContentPart { kind: "text".to_string(), text: Some(text), image_url: None },
        );
    }
    parts.append(&mut images);
    proof {
        if blank {
            assert(parts.deep_view() =~= image_parts.deep_view());
        } else {
            assert(parts.deep_view() =~= seq![text_part(text@)] + image_parts.deep_view());
        }
    }
    ChatMessage {
        role: Role::User,
        content: Some(MessageContent::Array(parts)),
        ..Default::default()
    }
}

impl Session {
    /// Goes back to the `target`th message of the user, counted from one.
    pub fn revert_to(&mut self, target: Option<usize>)
        ensures
            final(self).deep_view() == reverted(old(self).deep_view(), target),
    {
        if let Some(n) = target {
            if let Some(index) = find_nth_user_message_index(self.messages.as_slice(), n) {
                proof {
                    law_nth_user_index(self.messages.deep_view(), n as nat);
                }
                self.messages.truncate(index);
                self.tools_queue.clear();
                proof {
                    assert(self.messages.deep_view() =~= old(self).messages.deep_view().take(
                        index as int,
                    ));
                }
            }
        }
    }

    /// The user sent a message; it has to be put together.
    pub fn on_user_message(
        &mut self,
        user_input: String,
        tool_calls_results: Option<Vec<ToolCallResult>>,
        image_parts: Vec<ContentPart>,
        revert_index: Option<usize>,
    ) -> (res: Step)
        ensures
            (final(self).deep_view(), res.deep_view()) == message_received(
                old(self).deep_view(),
                user_input@,
                tool_calls_results.deep_view(),
                image_parts.deep_view(),
                revert_index,
            ),
    {
        self.revert_to(revert_index);
        Step {
            directives: nothing(),
            next: Next::PrepareUserMessage(user_input, tool_calls_results, image_parts),
        }
    }

    /// Begins to put a message together: the text with the history of the user's
    /// shell, and how it is to be enriched with the agent's context.
    pub fn begin_user_message(
        &mut self,
        user_input: String,
        history: Option<String>,
        has_context: bool,
    ) -> (res: (String, Option<Enrichment>))
        ensures
            final(self).deep_view() == enriched(old(self).deep_view(), has_context),
            res.0@ == with_history(history.deep_view(), user_input@),
            res.1 == enrichment(old(self).deep_view(), has_context),
    {
        let text = match history {
            Some(history) => concat3(history.as_str(), "\n\n", user_input.as_str()),
            None => user_input,
        };
        if !has_context {
            return (text, None);
        }
        let is_first = is_first_non_system_message(self.messages.as_slice());
        let force = self.should_refresh_skills_on_next_message;
        if is_first || force {
            self.should_refresh_skills_on_next_message = false;
            (text, Some(Enrichment { is_first, force }))
        } else {
            (text, None)
        }
    }

    /// Puts the instructions for plan mode before the text, where they are due.
    pub fn add_plan_instructions(&mut self, instructions: &str, text: String) -> (res: String)
        ensures
            (final(self).deep_view(), res@) == with_instructions(
                old(self).deep_view(),
                instructions@,
                text@,
            ),
    {
        if self.plan_mode_active && !self.plan_instructions_injected {
            self.plan_instructions_injected = true;
            concat3(instructions, " ", text.as_str())
        } else {
            text
        }
    }

    /// Puts results of cancelled calls behind the conversation.
    fn push_cancelled(&mut self, ids: Vec<String>)
        ensures
            final(self).deep_view() == (SessionView {
                messages: old(self).deep_view().messages + cancelled(ids.deep_view()),
                ..old(self).deep_view()
            }),
    {
        let ghost start = self.deep_view();
        let ghost all = ids.deep_view();
        proof {
            assert(start.messages + cancelled(all.take(0)) =~= start.messages);
        }
        for i in 0..ids.len()
            invariant
                all == ids.deep_view(),
                self.deep_view() == (SessionView {
                    messages: start.messages + cancelled(all.take(i as int)),
                    ..start
                }),
        {
            self.push_result(ids[i].clone(), "TOOL_CALL_CANCELLED".to_string());
            proof {
                assert(start.messages + cancelled(all.take(i + 1)) =~= (start.messages + cancelled(
                    all.take(i as int),
                )).push(tool_result_message(all[i as int], "TOOL_CALL_CANCELLED"@)));
            }
        }
        proof {
            assert(all.take(ids.len() as int) =~= all);
        }
    }

    /// Answers every tool call that has no result yet as cancelled.
    pub fn cancel_tools(&mut self)
        ensures
            final(self).deep_view() == tools_cancelled(old(self).deep_view()),
    {
        let mut waiting: Vec<String> = Vec::new();
        proof {
            assert(waiting.deep_view() =~= call_ids(self.tools_queue@).take(0));
        }
        for i in 0..self.tools_queue.len()
            invariant
                self == old(self),
                waiting.deep_view() == call_ids(self.tools_queue@).take(i as int),
        {
            let ghost before = waiting.deep_view();
            waiting.push(self.tools_queue[i].id.clone());
            proof {
                assert(waiting.deep_view() =~= before.push(self.tools_queue[i as int].id@));
                assert(call_ids(self.tools_queue@).take(i + 1) =~= before.push(
                    self.tools_queue[i as int].id@,
                ));
            }
        }
        proof {
            assert(call_ids(self.tools_queue@).take(self.tools_queue.len() as int) =~= call_ids(
                self.tools_queue@,
            ));
        }
        self.push_cancelled(waiting);
        self.tools_queue.clear();
        let unresolved = get_unresolved_tool_call_ids(self.messages.as_slice());
        self.push_cancelled(unresolved);
    }

    /// The user's message, put together, enriched and free of secrets, joins the
    /// conversation.
    pub fn finish_user_message(
        &mut self,
        settings: &SessionSettings,
        redacted_user_input: String,
        image_parts: Vec<ContentPart>,
    ) -> (res: Step)
        ensures
            (final(self).deep_view(), res.deep_view()) == message_joined(
                old(self).deep_view(),
                *settings,
                redacted_user_input@,
                image_parts.deep_view(),
            ),
    {
        let message = compose_user_message(redacted_user_input, image_parts);
        let mut directives = nothing();
        push(&mut directives, Directive::Send(InputEvent::HasUserMessage));
        self.cancel_tools();
        self.push_message(message);
        if !settings.has_stakpak_key {
            if let Some(payload) = settings.telemetry.capture(TelemetryEvent::UserPrompted) {
                push(&mut directives, Directive::Report(payload));
            }
        }
        proof {
            assert(directives.deep_view() =~= seq![
                DirectiveView::Send(InputEventView::HasUserMessage),
            ] + prompt_report(*settings));
        }
        self.call_model_unless_pending(directives)
    }

    /// Plan mode was switched on.
    pub fn on_plan_mode_activated(
        &mut self,
        settings: &SessionSettings,
        inline_prompt: Option<String>,
    ) -> (res: Step)
        ensures
            (final(self).deep_view(), res.deep_view()) == plan_activated(
                old(self).deep_view(),
                settings.plan_instructions@,
                inline_prompt.deep_view(),
            ),
    {
        let mut directives = nothing();
        self.plan_mode_active = true;
        push(&mut directives, Directive::Send(InputEvent::PlanModeChanged(true)));
        match inline_prompt {
            Some(prompt) => {
                let text = concat3(settings.plan_instructions.as_str(), " ", prompt.as_str());
                self.plan_instructions_injected = true;
                push(&mut directives, Directive::Send(InputEvent::HasUserMessage));
                self.push_message(user_message(text));
                self.call_model_unless_pending(directives)
            },
            None => wait_after(directives),
        }
    }

    /// The user sent feedback on a plan.
    pub fn on_plan_feedback(&mut self, feedback: String) -> (res: Step)
        ensures
            (final(self).deep_view(), res.deep_view()) == review_sent(
                old(self).deep_view(),
                feedback@,
            ),
    {
        let mut directives = nothing();
        self.push_message(user_message(feedback.clone()));
        push(&mut directives, Directive::Send(InputEvent::HasUserMessage));
        push(&mut directives, Directive::Send(InputEvent::AddUserMessage(feedback)));
        self.call_model_unless_pending(directives)
    }

    /// The user approved a plan.
    pub fn on_plan_approved(&mut self) -> (res: Step)
        ensures
            (final(self).deep_view(), res.deep_view()) == review_sent(
                old(self).deep_view(),
                approval_text(),
            ),
    {
        self.on_plan_feedback(
            "Plan approved. Update the plan front matter status to `approved` and proceed with creating a new task board breaking down the plan.".to_string(),
        )
    }
}

} // verus!
