//! What holds of the user's turns: how a message is put together, what goes before it, and
//! what it leaves as it was.
use vstd::prelude::*;
use vstd::string::*;

use super::laws_tools::tells;
use super::turns::{
    cancelled, composed, enriched, enrichment, message_joined, message_received, plan_activated,
    prompt_report, review_sent, reverted, tools_cancelled, with_history, with_instructions,
};
use super::{DirectiveView, NextView, SessionSettings, SessionView};
use crate::chat::{ChatMessageView, ContentPartView, ContentView, Role, ToolCallResultView};
use crate::conversation::{nth_user_index, unresolved_ids};
use crate::events::{InputEventView, LoadingOperation};
use crate::telemetry::{settings_payload, TelemetryEventView};
use crate::text::trimmed;

verus! {

/// `message` comes from the user and holds nothing besides its content.
pub open spec fn is_plain_user_message(message: ChatMessageView) -> bool {
    &&& message.role == Role::User
    &&& message.name is None
    &&& message.tool_calls is None
    &&& message.tool_call_id is None
    &&& message.usage is None
}

/// A message with pictures ends with all of them, in their order. Before them stands the
/// text, as one part, where it is not blank, and nothing where it is.
pub proof fn law_message_carries_all_pictures(text: Seq<char>, images: Seq<ContentPartView>)
    requires
        images.len() > 0,
    ensures
        is_plain_user_message(composed(text, images)),
        composed(text, images).content matches Some(ContentView::Parts(parts)) && {
            let before: nat = if trimmed(text).len() > 0 {
                1
            } else {
                0
            };
            &&& parts.len() == before + images.len()
            &&& forall|i: int| 0 <= i < images.len() ==> parts[before + i] == #[trigger] images[i]
            &&& before == 1 ==> parts[0].text == Some(text) && parts[0].kind == "text"@
                && parts[0].image_url is None
        },
{
}

/// A message without pictures says its text, blank or not.
pub proof fn law_message_without_pictures_is_its_text(text: Seq<char>)
    ensures
        is_plain_user_message(composed(text, Seq::empty())),
        composed(text, Seq::empty()).content == Some(ContentView::Text(text)),
{
}

/// A message that was sent is handed on whole, to be put together; until then nothing is
/// said of it.
pub proof fn law_message_is_handed_on_whole(
    session: SessionView,
    text: Seq<char>,
    results: Option<Seq<ToolCallResultView>>,
    images: Seq<ContentPartView>,
    target: Option<usize>,
)
    ensures
        ({
            let (after, step) = message_received(session, text, results, images, target);
            &&& step.directives.len() == 0
            &&& step.next == NextView::PrepareUserMessage(text, results, images)
            &&& target is None ==> after == session
            &&& after == reverted(session, target)
        }),
{
}

/// Going back cuts the conversation at the chosen message of the user and empties the
/// queue; all else of the session stays.
pub proof fn law_revert_cuts_at_the_message(session: SessionView, n: usize)
    ensures
        ({
            let after = reverted(session, Some(n));
            &&& after == (SessionView {
                messages: after.messages,
                tools_queue: after.tools_queue,
                ..session
            })
            &&& nth_user_index(session.messages, n as nat) matches Some(index)
                ==> after.messages == session.messages.take(index) && after.tools_queue.len() == 0
            &&& nth_user_index(session.messages, n as nat) is None ==> after == session
        }),
        reverted(session, None) == session,
{
}

/// The user's text stays whole behind the history of their shell.
pub proof fn law_history_goes_before_the_text(history: Seq<char>, text: Seq<char>)
    ensures
        with_history(Some(history), text) == history + "\n\n"@ + text,
        with_history(None, text) == text,
{
}

/// The text is enriched where there is a context and it is the first one behind system
/// messages, or the skills have changed. That uses the change up, and touches nothing else.
pub proof fn law_enrichment_is_for_first_or_changed(session: SessionView, has_context: bool)
    ensures
        ({
            let first = forall|i: int|
                0 <= i < session.messages.len() ==> (#[trigger] session.messages[i]).role
                    == Role::System;
            &&& enrichment(session, has_context) is Some <==> has_context && (first
                || session.refresh_skills)
            &&& enrichment(session, has_context) matches Some(how) ==> how.is_first == first
                && how.force == session.refresh_skills
        }),
        enriched(session, has_context) == (SessionView {
            refresh_skills: session.refresh_skills && enrichment(session, has_context) is None,
            ..session
        }),
{
}

/// The instructions for plan mode go before the text exactly where plan mode is on and they
/// were not given yet; the text stays whole, and nothing else changes.
pub proof fn law_instructions_go_before_the_text(
    session: SessionView,
    instructions: Seq<char>,
    text: Seq<char>,
)
    ensures
        ({
            let (after, shown) = with_instructions(session, instructions, text);
            let due = session.plan_mode_active && !session.plan_instructions_injected;
            &&& due ==> shown == instructions + " "@ + text
            &&& !due ==> shown == text
            &&& after == (SessionView {
                plan_instructions_injected: session.plan_instructions_injected || due,
                ..session
            })
        }),
{
}

/// Cancelling keeps the conversation and puts one result behind it for each call that
/// waits, in order, and then one for each call that lacks its result still. Every one of
/// them says that the call was cancelled.
pub proof fn law_cancelling_puts_one_result_for_each(session: SessionView)
    ensures
        ({
            let after = tools_cancelled(session);
            let had = session.messages.len();
            let waiting = session.tools_queue.len();
            &&& session.messages.is_prefix_of(after.messages)
            &&& after.tools_queue.len() == 0
            &&& after.messages.len() >= had + waiting
            &&& after.messages.len() == had + waiting + unresolved_ids(
                after.messages.take((had + waiting) as int),
            ).len()
            &&& forall|i: int|
                0 <= i < waiting ==> (#[trigger] after.messages[had + i]).tool_call_id == Some(
                    session.tools_queue[i].id@,
                )
            &&& forall|i: int|
                had <= i < after.messages.len() ==> (#[trigger] after.messages[i]).role
                    == Role::Tool && after.messages[i].content == Some(
                    ContentView::Text("TOOL_CALL_CANCELLED"@),
                )
            &&& after == (SessionView {
                messages: after.messages,
                tools_queue: after.tools_queue,
                ..session
            })
        }),
{
    let after = tools_cancelled(session);
    let had = session.messages.len();
    let waiting = session.tools_queue.len();
    let dropped = session.messages + cancelled(crate::conversation::call_ids(session.tools_queue));
    assert(after.messages.take((had + waiting) as int) =~= dropped);
    assert(session.messages =~= after.messages.subrange(0, had as int));
}

/// A result for each of several cancelled calls names that call.
pub proof fn law_cancelled_results_name_their_calls(ids: Seq<Seq<char>>, i: int)
    requires
        0 <= i < ids.len(),
    ensures
        cancelled(ids).len() == ids.len(),
        cancelled(ids)[i].tool_call_id == Some(ids[i]),
        cancelled(ids)[i].role == Role::Tool,
        cancelled(ids)[i].content == Some(ContentView::Text("TOOL_CALL_CANCELLED"@)),
        cancelled(ids)[i].tool_calls is None,
{
}

/// A message of the user that joins the conversation is announced before anything else and
/// leaves all but the conversation and the queue as it was.
pub proof fn law_joined_message_leaves_the_rest(
    session: SessionView,
    settings: SessionSettings,
    text: Seq<char>,
    images: Seq<ContentPartView>,
)
    ensures
        ({
            let (after, step) = message_joined(session, settings, text, images);
            &&& after == (SessionView {
                messages: after.messages,
                tools_queue: after.tools_queue,
                ..session
            })
            &&& after.messages.len() > 0
            &&& after.messages.drop_last() == tools_cancelled(session).messages
            &&& after.messages.last() == composed(text, images)
            &&& step.directives[0] == DirectiveView::Send(InputEventView::HasUserMessage)
            &&& step.next == NextView::CallModel
            &&& step.directives.len() == 2 + prompt_report(settings).len()
            &&& prompt_report(settings).len() > 0 ==> step.directives[1] == prompt_report(
                settings,
            )[0]
            &&& step.directives.last() == DirectiveView::Send(
                InputEventView::StartLoadingOperation(LoadingOperation::StreamProcessing),
            )
        }),
{
    let (after, step) = message_joined(session, settings, text, images);
    super::laws::law_user_message_follows_results(session, settings, text, images);
    assert(after.messages.drop_last() =~= tools_cancelled(session).messages);
}

/// A message of the user is counted where the program's own provider is not used, there is
/// an anonymous id and counting was not declined; what is sent is then one report.
pub proof fn law_prompt_is_reported_once_or_not(settings: SessionSettings)
    ensures
        prompt_report(settings).len() <= 1,
        prompt_report(settings).len() == 1 <==> !settings.has_stakpak_key
            && settings.telemetry.anonymous_id is Some && settings.telemetry.collect_telemetry
            != Some(false),
        prompt_report(settings).len() == 1 ==> (settings_payload(
            settings.telemetry,
            TelemetryEventView::UserPrompted,
        ) matches Some(payload) && prompt_report(settings)[0] == DirectiveView::Report(payload)),
{
}

/// Switching plan mode on tells the interface so. A prompt given with it is said by the
/// user, behind the instructions, which are then given; without one nothing is said and the
/// instructions stay due as they were.
pub proof fn law_plan_mode_is_switched_on(
    session: SessionView,
    instructions: Seq<char>,
    prompt: Seq<char>,
)
    ensures
        ({
            let (after, step) = plan_activated(session, instructions, None);
            &&& after == (SessionView { plan_mode_active: true, ..session })
            &&& step.next == NextView::AwaitEvent
            &&& step.directives == seq![DirectiveView::Send(InputEventView::PlanModeChanged(true))]
        }),
        ({
            let (after, step) = plan_activated(session, instructions, Some(prompt));
            &&& after.messages.len() == session.messages.len() + 1
            &&& session.messages.is_prefix_of(after.messages)
            &&& is_plain_user_message(after.messages.last())
            &&& after.messages.last().content == Some(
                ContentView::Text(instructions + " "@ + prompt),
            )
            &&& after == (SessionView {
                plan_mode_active: true,
                plan_instructions_injected: true,
                messages: after.messages,
                ..session
            })
            &&& step.directives[0] == DirectiveView::Send(InputEventView::PlanModeChanged(true))
            &&& step.directives[1] == DirectiveView::Send(InputEventView::HasUserMessage)
            &&& step.next == NextView::CallModel <==> session.tools_queue.len() == 0
                && unresolved_ids(after.messages).len() == 0
            &&& step.directives.len() == (if step.next == NextView::CallModel {
                3nat
            } else {
                2nat
            })
        }),
{
}

/// What is sent from the plan review is said by the user, word for word, and shown on the
/// screen as well.
pub proof fn law_review_is_said_word_for_word(session: SessionView, text: Seq<char>)
    ensures
        ({
            let (after, step) = review_sent(session, text);
            &&& after.messages.len() == session.messages.len() + 1
            &&& session.messages.is_prefix_of(after.messages)
            &&& is_plain_user_message(after.messages.last())
            &&& after.messages.last().content == Some(ContentView::Text(text))
            &&& after == (SessionView { messages: after.messages, ..session })
            &&& step.directives[0] == DirectiveView::Send(InputEventView::HasUserMessage)
            &&& step.directives[1] == DirectiveView::Send(InputEventView::AddUserMessage(text))
            &&& step.next == NextView::CallModel <==> session.tools_queue.len() == 0
                && unresolved_ids(after.messages).len() == 0
            &&& step.next == NextView::CallModel ==> tells(
                step,
                InputEventView::StartLoadingOperation(LoadingOperation::StreamProcessing),
            )
            &&& step.directives.len() == (if step.next == NextView::CallModel {
                3nat
            } else {
                2nat
            })
        }),
{
    let step = review_sent(session, text).1;
    if step.next == NextView::CallModel {
        assert(step.directives[2] == DirectiveView::Send(
            InputEventView::StartLoadingOperation(LoadingOperation::StreamProcessing),
        ));
    }
}

} // verus!
