//! What holds of a session whatever happens in it.
use vstd::prelude::*;

use super::dispatch::after_event;
use super::restore::{renewed, resumed, RestoredView};
use super::stream::{response_finished, response_received, stream_failed, MAX_RETRY_ATTEMPTS};
use super::tools::{
    has_questions, question_complaint, questions_parsed, rejected, result_sent, run_text,
    tool_finished, user_answered, ToolRunView,
};
use super::turns::{
    cancelled, composed, enriched, enrichment, message_joined, prompt_report, reverted,
    tools_cancelled, with_instructions,
};
use super::{with_result, DirectiveView, NextView, SessionSettings, SessionView, StepView};
use crate::chat::{
    ChatMessageView, ContentPartView, Role, ToolCall, ToolCallResultView,
};
use crate::conversation::{
    call_ids, has_result, is_result_of, law_nth_user_index, lemma_requested_calls_append,
    lemma_unresolved_empty, nth_user_index, requested_calls, unresolved_ids, user_count,
};
use crate::events::{AskUserQuestion, OutputEventView};
use crate::usage::{usage_sum, UsageCounts};

verus! {

/// No tool call waits, and every tool call that the last message of the assistant
/// asks for has a result: a conversation that the model accepts.
pub open spec fn all_answered(session: SessionView) -> bool {
    session.tools_queue.len() == 0 && forall|i: int|
        0 <= i < requested_calls(session.messages).len() ==> has_result(
            session.messages,
            (#[trigger] requested_calls(session.messages)[i]).id@,
        )
}

/// A step that calls the model leaves a conversation that the model accepts.
pub open spec fn calls_only_when_answered(after: (SessionView, StepView)) -> bool {
    after.1.next == NextView::CallModel ==> all_answered(after.0)
}

/// Whatever the interface reports, the model is called only when no tool call waits
/// and every tool call of the last message of the assistant has a result.
pub proof fn law_event_calls_only_when_answered(
    session: SessionView,
    settings: SessionSettings,
    event: OutputEventView,
)
    ensures
        calls_only_when_answered(after_event(session, settings, event)),
{
    let (after, step) = after_event(session, settings, event);
    lemma_unresolved_empty(after.messages);
}

/// Whatever comes of a tool call, the model is called only when no tool call waits
/// and every tool call of the last message of the assistant has a result.
pub proof fn law_tools_call_only_when_answered(
    session: SessionView,
    call: ToolCall,
    run: Option<ToolRunView>,
    parsed: Result<Seq<AskUserQuestion>, Seq<char>>,
)
    ensures
        calls_only_when_answered(tool_finished(session, call, run)),
        calls_only_when_answered(questions_parsed(session, call, parsed)),
{
    lemma_unresolved_empty(tool_finished(session, call, run).0.messages);
    lemma_unresolved_empty(questions_parsed(session, call, parsed).0.messages);
}

/// A result that is there stays there when messages are put behind.
proof fn lemma_result_stays(
    messages: Seq<ChatMessageView>,
    more: Seq<ChatMessageView>,
    id: Seq<char>,
)
    ensures
        has_result(messages, id) || has_result(more, id) ==> has_result(messages + more, id),
{
    let all = messages + more;
    if has_result(messages, id) {
        let i = choose|i: int| 0 <= i < messages.len() && is_result_of(#[trigger] messages[i], id);
        assert(is_result_of(all[i], id));
    }
    if has_result(more, id) {
        let i = choose|i: int| 0 <= i < more.len() && is_result_of(#[trigger] more[i], id);
        assert(is_result_of(all[messages.len() + i], id));
    }
}

/// Cancelling answers each of the ids.
proof fn lemma_cancelled_answers(ids: Seq<Seq<char>>, i: int)
    requires
        0 <= i < ids.len(),
    ensures
        has_result(cancelled(ids), ids[i]),
{
    assert(is_result_of(cancelled(ids)[i], ids[i]));
}

/// Once its tools are cancelled, a session has all its tool calls answered: those
/// that waited, and those that the last message of the assistant asks for.
pub proof fn law_cancelling_answers_all(session: SessionView)
    ensures
        all_answered(tools_cancelled(session)),
        requested_calls(tools_cancelled(session).messages) == requested_calls(session.messages),
        forall|i: int|
            0 <= i < session.tools_queue.len() ==> has_result(
                tools_cancelled(session).messages,
                (#[trigger] session.tools_queue[i]).id@,
            ),
{
    let waiting = cancelled(call_ids(session.tools_queue));
    let dropped = session.messages + waiting;
    let missing = unresolved_ids(dropped);
    let after = tools_cancelled(session);
    lemma_requested_calls_append(session.messages, waiting);
    lemma_requested_calls_append(dropped, cancelled(missing));
    assert forall|i: int| 0 <= i < requested_calls(after.messages).len() implies has_result(
        after.messages,
        (#[trigger] requested_calls(after.messages)[i]).id@,
    ) by {
        let calls = requested_calls(dropped);
        let id = calls[i].id@;
        lemma_result_stays(dropped, cancelled(missing), id);
        if !has_result(dropped, id) {
            let unanswered = |id: Seq<char>| !has_result(dropped, id);
            assert(call_ids(calls)[i] == id);
            call_ids(calls).lemma_filter_contains(unanswered, i);
            assert(missing.contains(id));
            let at = choose|at: int| 0 <= at < missing.len() && missing[at] == id;
            lemma_cancelled_answers(missing, at);
        }
    }
    assert forall|i: int| 0 <= i < session.tools_queue.len() implies has_result(
        after.messages,
        (#[trigger] session.tools_queue[i]).id@,
    ) by {
        let id = session.tools_queue[i].id@;
        assert(call_ids(session.tools_queue)[i] == id);
        lemma_cancelled_answers(call_ids(session.tools_queue), i);
        lemma_result_stays(session.messages, waiting, id);
        lemma_result_stays(dropped, cancelled(missing), id);
    }
}

/// A message of the user is never put between a tool call and its result: when it
/// joins the conversation, all tool calls are answered, it comes last, and the
/// model is called.
pub proof fn law_user_message_follows_results(
    session: SessionView,
    settings: SessionSettings,
    text: Seq<char>,
    images: Seq<ContentPartView>,
)
    ensures
        ({
            let (after, step) = message_joined(session, settings, text, images);
            &&& all_answered(after)
            &&& after.messages == tools_cancelled(session).messages.push(composed(text, images))
            &&& composed(text, images).role == Role::User
            &&& step.next == NextView::CallModel
        }),
{
    let (after, step) = message_joined(session, settings, text, images);
    let answered = tools_cancelled(session);
    let message = seq![composed(text, images)];
    law_cancelling_answers_all(session);
    assert(after.messages =~= answered.messages + message);
    lemma_requested_calls_append(answered.messages, message);
    assert forall|i: int| 0 <= i < requested_calls(after.messages).len() implies has_result(
        after.messages,
        (#[trigger] requested_calls(after.messages)[i]).id@,
    ) by {
        let id = requested_calls(answered.messages)[i].id@;
        lemma_result_stays(answered.messages, message, id);
    }
    lemma_unresolved_empty(after.messages);
}

/// Going back to the `n`th message of the user leaves exactly the `n - 1` messages
/// of the user before it, as they were, and no waiting tool call.
pub proof fn law_revert_keeps_earlier_messages(session: SessionView, n: usize)
    requires
        1 <= n <= user_count(session.messages),
    ensures
        user_count(reverted(session, Some(n)).messages) == n - 1,
        reverted(session, Some(n)).messages.is_prefix_of(session.messages),
        reverted(session, Some(n)).tools_queue.len() == 0,
{
    law_nth_user_index(session.messages, n as nat);
    let index = nth_user_index(session.messages, n as nat)->0;
    let kept = session.messages.take(index);
    assert(reverted(session, Some(n)).messages == kept);
    assert(kept =~= session.messages.subrange(0, kept.len() as int));
}

/// Going back to a message that is not there changes nothing.
pub proof fn law_revert_without_target(session: SessionView, n: usize)
    requires
        n == 0 || n > user_count(session.messages),
    ensures
        reverted(session, Some(n)) == session,
{
    law_nth_user_index(session.messages, n as nat);
}

/// All tool calls that the last message of the assistant asks for have a result,
/// wait in the queue, or are the one before the user.
pub open spec fn accounted_for(session: SessionView, current: ToolCall) -> bool {
    forall|i: int|
        0 <= i < requested_calls(session.messages).len() ==> {
            let id = (#[trigger] requested_calls(session.messages)[i]).id@;
            ||| has_result(session.messages, id)
            ||| id == current.id@
            ||| call_ids(session.tools_queue).contains(id)
        }
}

/// The result of the current call keeps the others accounted for, and with the
/// queue empty answers them all.
pub(crate) proof fn lemma_result_accounts(session: SessionView, current: ToolCall, text: Seq<char>)
    requires
        accounted_for(session, current),
    ensures
        requested_calls(with_result(session, current.id@, text).messages) == requested_calls(
            session.messages,
        ),
        session.tools_queue.len() == 0 ==> all_answered(with_result(session, current.id@, text)),
        session.tools_queue.len() > 0 ==> accounted_for(
            super::without_first_tool(with_result(session, current.id@, text)),
            session.tools_queue[0],
        ),
{
    let after = with_result(session, current.id@, text);
    let result = seq![crate::chat::tool_result_message(current.id@, text)];
    assert(after.messages =~= session.messages + result);
    lemma_requested_calls_append(session.messages, result);
    assert(is_result_of(result[0], current.id@));
    assert forall|i: int| 0 <= i < requested_calls(after.messages).len() implies {
        let id = (#[trigger] requested_calls(after.messages)[i]).id@;
        ||| has_result(after.messages, id)
        ||| call_ids(session.tools_queue).contains(id)
    } by {
        let id = requested_calls(session.messages)[i].id@;
        lemma_result_stays(session.messages, result, id);
    }
    if session.tools_queue.len() > 0 {
        let rest = super::without_first_tool(after);
        let first = session.tools_queue[0];
        assert forall|i: int| 0 <= i < requested_calls(rest.messages).len() implies {
            let id = (#[trigger] requested_calls(rest.messages)[i]).id@;
            ||| has_result(rest.messages, id)
            ||| id == first.id@
            ||| call_ids(rest.tools_queue).contains(id)
        } by {
            let id = requested_calls(after.messages)[i].id@;
            if !has_result(after.messages, id) && id != first.id@ {
                let ids = call_ids(session.tools_queue);
                let at = choose|at: int| 0 <= at < ids.len() && ids[at] == id;
                assert(call_ids(rest.tools_queue)[at - 1] == id);
            }
        }
    }
}

/// A response puts its first tool call before the user and accounts for all the
/// others; no tool call of it is lost.
pub proof fn law_response_accounts_for_tools(
    session: SessionView,
    message: ChatMessageView,
    named: Option<u128>,
    state: Option<serde_json::Value>,
    usage: UsageCounts,
    found: Option<u128>,
)
    requires
        session.tools_queue.len() == 0,
        message.role == Role::Assistant,
        message.tool_calls is Some,
        message.tool_calls->0.len() > 0,
    ensures
        ({
            let received = response_received(session, message, named, state, usage).0;
            let (after, step) = response_finished(received, found, message.tool_calls);
            &&& step.next == NextView::AwaitEvent
            &&& step.directives.last() == DirectiveView::Present(message.tool_calls->0[0])
            &&& after.tools_queue == message.tool_calls->0.skip(1)
            &&& accounted_for(after, message.tool_calls->0[0])
        }),
{
    let calls = message.tool_calls->0;
    let received = response_received(session, message, named, state, usage).0;
    let (after, step) = response_finished(received, found, message.tool_calls);
    assert(received.tools_queue + calls =~= calls);
    assert(calls.drop_first() =~= calls.skip(1));
    assert(after.messages.last() == message);
    assert(requested_calls(after.messages) == calls);
    assert forall|i: int| 0 <= i < calls.len() implies {
        let id = (#[trigger] calls[i]).id@;
        ||| id == calls[0].id@
        ||| call_ids(after.tools_queue).contains(id)
    } by {
        if i > 0 {
            assert(call_ids(after.tools_queue)[i - 1] == calls[i].id@);
        }
    }
}

/// Rejecting or answering the tool call that is before the user takes up the next
/// one, with the others still accounted for; after the last one the model is called
/// with all of them answered, unless the user wanted to stop. A call whose questions
/// cannot be shown is answered with the complaint about them.
pub proof fn law_tools_taken_up_one_by_one(
    session: SessionView,
    result: ToolCallResultView,
    stop: bool,
    parsed: Result<Seq<AskUserQuestion>, Seq<char>>,
)
    requires
        accounted_for(session, result.call),
        !has_questions(parsed),
    ensures
        session.tools_queue.len() > 0 ==> {
            let next = session.tools_queue[0];
            let (after, step) = rejected(session, result.call, stop);
            let (answered, answer) = user_answered(session, result);
            let (sent, report) = result_sent(session, result, false, Seq::empty());
            let (refused, complaint) = questions_parsed(session, result.call, parsed);
            &&& complaint.directives.last() == DirectiveView::Present(next)
            &&& complaint.next == NextView::AwaitEvent
            &&& accounted_for(refused, next)
            &&& step.directives.last() == DirectiveView::Present(next)
            &&& answer.directives.last() == DirectiveView::Present(next)
            &&& report.directives.last() == DirectiveView::Present(next)
            &&& step.next == NextView::AwaitEvent
            &&& answer.next == NextView::AwaitEvent
            &&& report.next == NextView::AwaitEvent
            &&& accounted_for(after, next)
            &&& accounted_for(answered, next)
            &&& accounted_for(sent, next)
        },
        session.tools_queue.len() == 0 ==> {
            let (after, step) = rejected(session, result.call, stop);
            let (answered, answer) = user_answered(session, result);
            let (sent, report) = result_sent(session, result, false, Seq::empty());
            let (refused, complaint) = questions_parsed(session, result.call, parsed);
            &&& all_answered(refused)
            &&& complaint.next == NextView::CallModel
            &&& all_answered(after)
            &&& all_answered(answered)
            &&& all_answered(sent)
            &&& step.next == (if stop {
                NextView::AwaitEvent
            } else {
                NextView::CallModel
            })
            &&& answer.next == NextView::CallModel
            &&& report.next == NextView::CallModel
        },
{
    lemma_result_accounts(session, result.call, "TOOL_CALL_REJECTED"@);
    lemma_result_accounts(session, result.call, result.result);
    lemma_result_accounts(session, result.call, question_complaint(parsed));
    lemma_unresolved_empty(
        with_result(session, result.call.id@, "TOOL_CALL_REJECTED"@).messages,
    );
    lemma_unresolved_empty(
        with_result(session, result.call.id@, question_complaint(parsed)).messages,
    );
    lemma_unresolved_empty(with_result(session, result.call.id@, result.result).messages);
}

/// A tool that has run takes up the next tool call, with the others still accounted for;
/// after the last one the model is called with all of them answered. A run that was
/// cancelled as the last one waits for the user, with nothing changed.
pub proof fn law_finished_tool_takes_up_next(session: SessionView, call: ToolCall, run: ToolRunView)
    requires
        accounted_for(session, call),
    ensures
        ({
            let (after, step) = tool_finished(session, call, Some(run));
            let was_cancelled = run.status == crate::chat::ToolCallResultStatus::Cancelled;
            if session.tools_queue.len() > 0 {
                let next = session.tools_queue[0];
                &&& step.directives.last() == DirectiveView::Present(next)
                &&& step.next == NextView::AwaitEvent
                &&& accounted_for(after, next)
            } else if was_cancelled {
                step.next == NextView::AwaitEvent && after == session
            } else {
                step.next == NextView::CallModel && all_answered(after)
            }
        }),
{
    let id = call.id@;
    let text = run_text(run);
    lemma_result_accounts(session, call, "TOOL_CALL_CANCELLED"@);
    lemma_result_accounts(session, call, text);
    lemma_unresolved_empty(with_result(session, id, text).messages);
    lemma_unresolved_empty(session.messages);
    if has_result(session.messages, id) && session.tools_queue.len() > 0 {
        let first = session.tools_queue[0];
        let rest = super::without_first_tool(session);
        assert forall|i: int| 0 <= i < requested_calls(rest.messages).len() implies {
            let other = (#[trigger] requested_calls(rest.messages)[i]).id@;
            ||| has_result(rest.messages, other)
            ||| other == first.id@
            ||| call_ids(rest.tools_queue).contains(other)
        } by {
            let other = requested_calls(session.messages)[i].id@;
            if !has_result(session.messages, other) && other != first.id@ {
                let ids = call_ids(session.tools_queue);
                let at = choose|at: int| 0 <= at < ids.len() && ids[at] == other;
                assert(call_ids(rest.tools_queue)[at - 1] == other);
            }
        }
    }
}

/// A request that is repeated or given up leaves the conversation and the waiting tool
/// calls as they are, so that a repeated one is as acceptable as the first.
pub proof fn law_broken_stream_keeps_conversation(
    session: SessionView,
    invalid_response: bool,
    description: Seq<char>,
)
    ensures
        ({
            let after = stream_failed(session, invalid_response, description).0;
            &&& after.messages == session.messages
            &&& after.tools_queue == session.tools_queue
            &&& all_answered(session) ==> all_answered(after)
        }),
{
}

/// The reports among directives.
pub open spec fn reports(directives: Seq<DirectiveView>) -> Seq<DirectiveView> {
    directives.filter(|directive: DirectiveView| directive is Report)
}

/// What is reported about a message of the user tells nothing of the message or of the
/// session: it depends on the settings alone.
pub proof fn law_report_tells_nothing_of_the_message(
    settings: SessionSettings,
    session: SessionView,
    text: Seq<char>,
    images: Seq<ContentPartView>,
)
    ensures
        reports(message_joined(session, settings, text, images).1.directives) == prompt_report(
            settings,
        ),
{
    law_user_message_follows_results(session, settings, text, images);
    let directives = message_joined(session, settings, text, images).1.directives;
    let is_report = |directive: DirectiveView| directive is Report;
    let head = seq![
        DirectiveView::Send(crate::events::InputEventView::HasUserMessage),
    ];
    let told = head + prompt_report(settings);
    told.lemma_filter_push(directives.last(), is_report);
    assert(directives =~= told.push(directives.last()));
    let empty = Seq::<DirectiveView>::empty();
    assert(head =~= empty.push(head[0]));
    empty.lemma_filter_push(head[0], is_report);
    assert(empty.filter(is_report) =~= empty) by {
        empty.lemma_filter_len(is_report);
    }
    if prompt_report(settings).len() > 0 {
        let report = prompt_report(settings)[0];
        assert(told =~= head.push(report));
        head.lemma_filter_push(report, is_report);
        assert(empty.push(report) =~= prompt_report(settings));
    } else {
        assert(told =~= head);
        assert(prompt_report(settings) =~= empty);
    }
}

/// A tool call that was answered while its tool ran gets no second result.
pub proof fn law_no_second_result(session: SessionView, call: ToolCall, run: ToolRunView)
    requires
        has_result(session.messages, call.id@),
        run.status != crate::chat::ToolCallResultStatus::Cancelled,
    ensures
        tool_finished(session, call, Some(run)).0.messages == session.messages,
{
}

/// The instructions for plan mode go before one message only, and before none
/// outside plan mode.
pub proof fn law_plan_instructions_once(
    session: SessionView,
    instructions: Seq<char>,
    first: Seq<char>,
    second: Seq<char>,
)
    ensures
        ({
            let (after, text) = with_instructions(session, instructions, first);
            with_instructions(after, instructions, second) == (after, second)
        }),
        !session.plan_mode_active ==> with_instructions(session, instructions, first) == (
            session,
            first,
        ),
{
}

/// A change of skills is carried by the next message and by no later one, as long
/// as the session has one that is no system message.
pub proof fn law_refresh_once(session: SessionView)
    requires
        !crate::conversation::only_system(session.messages),
    ensures
        enrichment(session, true) is Some <==> session.refresh_skills,
        enrichment(enriched(session, true), true) is None,
{
}

/// A request is repeated at most [`MAX_RETRY_ATTEMPTS`] times between two responses:
/// every repetition counts, and none comes after that.
pub proof fn law_retries_bounded(session: SessionView, description: Seq<char>)
    ensures
        ({
            let (after, step) = stream_failed(session, true, description);
            &&& step.next == NextView::RetryModel ==> after.retry_attempts
                == session.retry_attempts + 1 && after.retry_attempts <= MAX_RETRY_ATTEMPTS
            &&& session.retry_attempts >= MAX_RETRY_ATTEMPTS ==> step.next == NextView::AwaitEvent
        }),
        stream_failed(session, false, description).1.next == NextView::AwaitEvent,
        stream_failed(session, false, description).0 == session,
{
}

/// Resuming keeps what was said before: the messages of the checkpoint come behind
/// those there are, its tool calls behind those that wait, the first of which is put
/// before the user, and the usage starts again from zero.
pub proof fn law_resume_appends(session: SessionView, restored: RestoredView)
    ensures
        resumed(session, Some(restored)).0.messages == session.messages + restored.messages,
        resumed(session, Some(restored)).0.usage == crate::usage::no_usage(),
        resumed(session, Some(restored)).0.session_id == Some(restored.session_id),
        ({
            let queue = session.tools_queue + restored.tool_calls;
            let (after, step) = resumed(session, Some(restored));
            queue.len() > 0 ==> after.tools_queue == queue.drop_first()
                && step.directives.contains(DirectiveView::Present(queue[0]))
        }),
        resumed(session, Some(restored)).1.next == NextView::AwaitEvent,
        resumed(session, None).0 == session,
{
    let queue = session.tools_queue + restored.tool_calls;
    let directives = resumed(session, Some(restored)).1.directives;
    if queue.len() > 0 {
        assert(directives[directives.len() - 2] == DirectiveView::Present(queue[0]));
    }
}

/// The usage of a session is the sum of that of its responses.
pub proof fn law_usage_is_the_sum(
    session: SessionView,
    earlier: Seq<UsageCounts>,
    message: ChatMessageView,
    named: Option<u128>,
    state: Option<serde_json::Value>,
    usage: UsageCounts,
)
    requires
        session.usage == usage_sum(earlier),
    ensures
        response_received(session, message, named, state, usage).0.usage == usage_sum(
            earlier.push(usage),
        ),
{
    assert(earlier.push(usage).drop_last() =~= earlier);
}

/// Beginning a new session twice is beginning it once.
pub proof fn law_new_session_idempotent(session: SessionView)
    ensures
        renewed(renewed(session)) == renewed(session),
{
}

} // verus!
