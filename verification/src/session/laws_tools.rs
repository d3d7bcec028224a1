//! What holds of the steps that a tool call takes: how it is put before the user, what is
//! recorded as its result, and what becomes of the calls that wait behind it.
use vstd::prelude::*;
use vstd::string::*;

use super::laws::{accounted_for, all_answered};
use super::tools::{
    accepted, asks_user, presentation, questions_parsed, rejected, result_sent, run_text, text_part,
    text_parts, tool_finished, user_answered, ToolRun, ToolRunView,
};
use super::{DirectiveView, NextView, SessionView, StepView};
use crate::chat::{
    ChatMessageView, ContentView, Role, ToolCall, ToolCallResultStatus, ToolCallResultView,
};
use crate::conversation::{has_result, lemma_unresolved_empty, unresolved_ids};
use crate::events::{AskUserQuestion, InputEventView, LoadingOperation};
use crate::text::{joined, law_joined_short};

verus! {

/// `after` is `before` with one message more at its end, which says that `text` came of
/// the tool call `id`.
pub open spec fn records(
    before: Seq<ChatMessageView>,
    after: Seq<ChatMessageView>,
    id: Seq<char>,
    text: Seq<char>,
) -> bool {
    &&& after.len() == before.len() + 1
    &&& before.is_prefix_of(after)
    &&& after.last().role == Role::Tool
    &&& after.last().tool_call_id == Some(id)
    &&& after.last().content == Some(ContentView::Text(text))
    &&& after.last().tool_calls is None
    &&& after.last().name is None
    &&& after.last().usage is None
}

/// Nothing but the conversation and the waiting tool calls differs.
pub open spec fn only_tools_differ(before: SessionView, after: SessionView) -> bool {
    after == (SessionView {
        messages: after.messages,
        tools_queue: after.tools_queue,
        ..before
    })
}

/// The first of the waiting calls is put before the user as the last thing that is done,
/// and the others wait on, in order.
pub open spec fn takes_the_first(
    waiting: Seq<ToolCall>,
    after: SessionView,
    step: StepView,
) -> bool {
    &&& step.next == NextView::AwaitEvent
    &&& step.directives.len() > 0
    &&& step.directives.last() == DirectiveView::Present(waiting[0])
    &&& after.tools_queue.len() == waiting.len() - 1
    &&& forall|i: int|
        0 <= i < after.tools_queue.len() ==> #[trigger] after.tools_queue[i] == waiting[i + 1]
}

/// What a step tells the interface before it goes on.
pub open spec fn tells(step: StepView, event: InputEventView) -> bool {
    step.directives.contains(DirectiveView::Send(event))
}

/// A call asks the user exactly where it names the tool for that, with or without the
/// prefix of this program's own tools.
pub proof fn law_user_is_asked_by_name(call: ToolCall)
    ensures
        asks_user(call) <==> call.function.name@ == "ask_user"@ || call.function.name@
            == "stakpak__"@ + "ask_user"@,
{
    reveal_strlit("ask_user");
    reveal_strlit("stakpak__");
    let name = call.function.name@;
    let prefix = "stakpak__"@;
    let whole = prefix + "ask_user"@;
    assert(whole.subrange(0, 9) =~= prefix);
    assert(whole.skip(9) =~= "ask_user"@);
    if name == "ask_user"@ {
        assert(name[0] == 'a');
        assert(prefix[0] == 's');
    }
    if name.len() >= 9 && name.subrange(0, 9) == prefix && name.skip(9) == "ask_user"@ {
        assert(name =~= name.subrange(0, 9) + name.skip(9));
    }
}

/// A call is put before the user as it is: as all of its questions, where it asks the user
/// and there are any that could be read, and for approval in every other case.
pub proof fn law_call_is_presented_whole(call: ToolCall, questions: Seq<AskUserQuestion>)
    ensures
        asks_user(call) && questions.len() > 0 ==> presentation(call, Some(questions))
            == InputEventView::ShowAskUserPopup(call, questions),
        !asks_user(call) || questions.len() == 0 ==> presentation(call, Some(questions))
            == InputEventView::RunToolCall(call),
        presentation(call, None) == InputEventView::RunToolCall(call),
{
}

/// The texts of two outputs, one behind the other, are those of each: no text is lost and
/// none changes its place.
pub proof fn law_texts_of_outputs_add_up(a: Seq<Option<Seq<char>>>, b: Seq<Option<Seq<char>>>)
    ensures
        text_parts(a + b) == text_parts(a) + text_parts(b),
    decreases b.len(),
{
    let keep = |part: Option<Seq<char>>| text_part(part);
    reveal(Seq::filter_map);
    if b.len() == 0 {
        assert(a + b =~= a);
        assert(b.filter_map(keep) =~= Seq::empty());
    } else {
        law_texts_of_outputs_add_up(a, b.drop_last());
        assert((a + b).drop_last() =~= a + b.drop_last());
        assert(text_parts(a + b) =~= text_parts(a) + text_parts(b));
    }
}

/// A part of an output is kept where it is a text that is not empty, and as it is.
pub proof fn law_texts_of_one_part(text: Seq<char>)
    ensures
        text.len() > 0 ==> text_parts(seq![Some(text)]) == seq![text],
        text.len() == 0 ==> text_parts(seq![Some(text)]).len() == 0,
        text_parts(seq![None::<Seq<char>>]).len() == 0,
{
    let keep = |part: Option<Seq<char>>| text_part(part);
    Seq::lemma_filter_map_singleton(Some(text), keep);
    Seq::lemma_filter_map_singleton(None::<Seq<char>>, keep);
}

/// An error with a name and a description, and empty parts or none besides, reads
/// `[name] description`; with more texts, the further ones follow behind a colon each.
pub proof fn law_error_reads_name_and_description(run: ToolRunView, name: Seq<char>, rest: Seq<Seq<char>>)
    requires
        run.status == ToolCallResultStatus::Error,
        rest.len() > 0,
        text_parts(run.content) == seq![name] + rest,
    ensures
        run_text(run) == "["@ + name + "] "@ + joined(rest, ": "@),
        rest.len() == 1 ==> run_text(run) == "["@ + name + "] "@ + rest[0],
{
    assert((seq![name] + rest).skip(1) =~= rest);
    if rest.len() == 1 {
        law_joined_short(rest[0], ": "@);
        assert(rest =~= seq![rest[0]]);
    }
}

/// Nothing of this part of an output is text.
pub open spec fn says_nothing(part: Option<Seq<char>>) -> bool {
    part matches Some(text) ==> text.len() == 0
}

/// An output whose parts say nothing has no texts.
proof fn lemma_no_texts(content: Seq<Option<Seq<char>>>)
    requires
        forall|i: int| 0 <= i < content.len() ==> says_nothing(#[trigger] content[i]),
    ensures
        text_parts(content).len() == 0,
    decreases content.len(),
{
    reveal(Seq::filter_map);
    if content.len() > 0 {
        let front = content.drop_last();
        assert(says_nothing(content[content.len() - 1]));
        assert forall|i: int| 0 <= i < front.len() implies says_nothing(#[trigger] front[i]) by {
            assert(front[i] == content[i]);
        }
        lemma_no_texts(front);
    }
}

/// An error whose output has two texts and, wherever they stand, nothing else that says
/// anything reads as the first one in brackets and the second one behind it.
pub proof fn law_error_with_two_texts(
    run: ToolRunView,
    i: int,
    j: int,
    name: Seq<char>,
    description: Seq<char>,
)
    requires
        run.status == ToolCallResultStatus::Error,
        0 <= i < j < run.content.len(),
        run.content[i] == Some(name),
        run.content[j] == Some(description),
        name.len() > 0,
        description.len() > 0,
        forall|k: int|
            0 <= k < run.content.len() && k != i && k != j ==> says_nothing(
                #[trigger] run.content[k],
            ),
    ensures
        run_text(run) == "["@ + name + "] "@ + description,
{
    let content = run.content;
    let front = content.take(i);
    let middle = content.subrange(i + 1, j);
    let back = content.skip(j + 1);
    let first = seq![Some(name)];
    let second = seq![Some(description)];
    assert(content =~= front + first + middle + second + back);
    assert forall|k: int| 0 <= k < front.len() implies says_nothing(#[trigger] front[k]) by {
        assert(front[k] == content[k]);
    }
    assert forall|k: int| 0 <= k < middle.len() implies says_nothing(#[trigger] middle[k]) by {
        assert(middle[k] == content[i + 1 + k]);
    }
    assert forall|k: int| 0 <= k < back.len() implies says_nothing(#[trigger] back[k]) by {
        assert(back[k] == content[j + 1 + k]);
    }
    lemma_no_texts(front);
    lemma_no_texts(middle);
    lemma_no_texts(back);
    law_texts_of_one_part(name);
    law_texts_of_one_part(description);
    law_texts_of_outputs_add_up(front, first);
    law_texts_of_outputs_add_up(front + first, middle);
    law_texts_of_outputs_add_up(front + first + middle, second);
    law_texts_of_outputs_add_up(front + first + middle + second, back);
    assert(text_parts(content) =~= seq![name] + seq![description]);
    law_error_reads_name_and_description(run, name, seq![description]);
}

/// Any other output reads as its texts, each on a line of its own; a single text reads as
/// it is.
pub proof fn law_output_reads_line_by_line(run: ToolRunView)
    requires
        run.status != ToolCallResultStatus::Error || text_parts(run.content).len() < 2,
    ensures
        run_text(run) == joined(text_parts(run.content), "\n"@),
        text_parts(run.content).len() == 1 ==> run_text(run) == text_parts(run.content)[0],
        text_parts(run.content).len() == 0 ==> run_text(run).len() == 0,
{
    let parts = text_parts(run.content);
    if parts.len() == 1 {
        law_joined_short(parts[0], "\n"@);
        assert(parts =~= seq![parts[0]]);
    }
}

/// The model of a run leaves nothing out: its status, and each part, as text or not.
pub proof fn law_run_model_leaves_nothing_out(run: ToolRun, i: int)
    requires
        0 <= i < run.content.len(),
    ensures
        run.deep_view().status == run.status,
        run.deep_view().content.len() == run.content.len(),
        run.deep_view().content[i] == (match run.content[i] {
            Some(text) => Some(text@),
            None => None,
        }),
{
}

/// An accepted call changes nothing by itself: it is handed on as it is, to be read for
/// its questions where it asks the user, and otherwise to be run.
pub proof fn law_accepted_call_is_handed_on(session: SessionView, call: ToolCall)
    ensures
        accepted(session, call).0 == session,
        asks_user(call) ==> accepted(session, call).1.next == NextView::ParseQuestions(call),
        !asks_user(call) ==> accepted(session, call).1.next == NextView::RunTool(call) && tells(
            accepted(session, call).1,
            InputEventView::StartLoadingOperation(LoadingOperation::ToolExecution),
        ),
{
    if !asks_user(call) {
        assert(accepted(session, call).1.directives[0] == DirectiveView::Send(
            InputEventView::StartLoadingOperation(LoadingOperation::ToolExecution),
        ));
    }
}

/// What the user decides or answers, and what the interface reports of a tool call, is
/// recorded as the result of that very call, with the very text.
pub proof fn law_answers_are_recorded(
    session: SessionView,
    result: ToolCallResultView,
    stop: bool,
    waiting: Seq<ToolCall>,
)
    ensures
        records(
            session.messages,
            rejected(session, result.call, stop).0.messages,
            result.call.id@,
            "TOOL_CALL_REJECTED"@,
        ),
        records(
            session.messages,
            user_answered(session, result).0.messages,
            result.call.id@,
            result.result,
        ),
        records(
            session.messages,
            result_sent(session, result, stop, waiting).0.messages,
            result.call.id@,
            result.result,
        ),
        tells(user_answered(session, result).1, InputEventView::ToolResult(result)),
        only_tools_differ(session, rejected(session, result.call, stop).0),
        only_tools_differ(session, user_answered(session, result).0),
        only_tools_differ(session, result_sent(session, result, stop, waiting).0),
{
    assert(user_answered(session, result).1.directives[0] == DirectiveView::Send(
        InputEventView::ToolResult(result),
    ));
}

/// Questions that can be shown are all shown, and nothing else happens. Where they cannot
/// be read, or there are none, the complaint about that is recorded as the result of the
/// call and shown as an error.
pub proof fn law_questions_are_shown_or_answered(
    session: SessionView,
    call: ToolCall,
    questions: Seq<AskUserQuestion>,
    error: Seq<char>,
)
    ensures
        questions.len() > 0 ==> {
            let (after, step) = questions_parsed(session, call, Ok(questions));
            &&& after == session
            &&& step.next == NextView::AwaitEvent
            &&& step.directives == seq![
                DirectiveView::Send(InputEventView::ShowAskUserPopup(call, questions)),
            ]
        },
        ({
            let (after, step) = questions_parsed(session, call, Err(error));
            let text = "Failed to parse ask_user arguments: "@ + error;
            &&& records(session.messages, after.messages, call.id@, text)
            &&& only_tools_differ(session, after)
            &&& tells(
                step,
                InputEventView::ToolResult(
                    ToolCallResultView { call, result: text, status: ToolCallResultStatus::Error },
                ),
            )
        }),
        ({
            let (after, step) = questions_parsed(session, call, Ok(Seq::empty()));
            let text = "ask_user tool was called with no questions"@;
            &&& records(session.messages, after.messages, call.id@, text)
            &&& only_tools_differ(session, after)
            &&& tells(
                step,
                InputEventView::ToolResult(
                    ToolCallResultView { call, result: text, status: ToolCallResultStatus::Error },
                ),
            )
        }),
{
    let unread = questions_parsed(session, call, Err(error)).1;
    assert(unread.directives[0] == DirectiveView::Send(
        InputEventView::ToolResult(
            ToolCallResultView {
                call,
                result: "Failed to parse ask_user arguments: "@ + error,
                status: ToolCallResultStatus::Error,
            },
        ),
    ));
    let none = questions_parsed(session, call, Ok(Seq::empty())).1;
    assert(none.directives[0] == DirectiveView::Send(
        InputEventView::ToolResult(
            ToolCallResultView {
                call,
                result: "ask_user tool was called with no questions"@,
                status: ToolCallResultStatus::Error,
            },
        ),
    ));
}

/// What a tool's run gave is recorded as the result of its call, and shown with the same
/// text and with the status of the run, unless the call was cancelled or answered already;
/// the interface learns that the run has ended in any case.
pub proof fn law_run_is_recorded_and_shown(session: SessionView, call: ToolCall, run: ToolRunView)
    ensures
        ({
            let (after, step) = tool_finished(session, call, Some(run));
            let text = run_text(run);
            let event = InputEventView::ToolResult(
                ToolCallResultView { call, result: text, status: run.status },
            );
            &&& run.status != ToolCallResultStatus::Cancelled && !has_result(
                session.messages,
                call.id@,
            ) ==> records(session.messages, after.messages, call.id@, text)
                && step.directives.len() >= 2 && step.directives[0] == DirectiveView::Send(event)
                && step.directives[1] == DirectiveView::Send(
                InputEventView::EndLoadingOperation(LoadingOperation::ToolExecution),
            )
            &&& run.status != ToolCallResultStatus::Cancelled && has_result(
                session.messages,
                call.id@,
            ) ==> after.messages == session.messages && !tells(step, event)
            &&& run.status == ToolCallResultStatus::Cancelled && session.tools_queue.len() > 0
                ==> records(session.messages, after.messages, call.id@, "TOOL_CALL_CANCELLED"@)
            &&& run.status == ToolCallResultStatus::Cancelled && session.tools_queue.len() == 0
                ==> after == session
            &&& only_tools_differ(session, after)
            &&& tells(
                step,
                InputEventView::EndLoadingOperation(LoadingOperation::ToolExecution),
            )
        }),
        tool_finished(session, call, None).0.messages == session.messages,
        only_tools_differ(session, tool_finished(session, call, None).0),
        tells(
            tool_finished(session, call, None).1,
            InputEventView::EndLoadingOperation(LoadingOperation::ToolExecution),
        ),
{
    let ended = DirectiveView::Send(
        InputEventView::EndLoadingOperation(LoadingOperation::ToolExecution),
    );
    let step = tool_finished(session, call, Some(run)).1;
    if run.status != ToolCallResultStatus::Cancelled && !has_result(session.messages, call.id@) {
        assert(step.directives[0] == DirectiveView::Send(
            InputEventView::ToolResult(
                ToolCallResultView { call, result: run_text(run), status: run.status },
            ),
        ));
        assert(step.directives[1] == ended);
    } else {
        assert(step.directives[0] == ended);
    }
    assert(tool_finished(session, call, None).1.directives[0] == ended);
}

/// Tool calls that the interface hands back where it stopped are all taken up, behind those
/// that wait already: the first of all is put before the user, the others wait. Where it
/// did not stop, only those that wait already are.
pub proof fn law_calls_handed_back_are_kept(
    session: SessionView,
    result: ToolCallResultView,
    waiting: Seq<ToolCall>,
)
    ensures
        ({
            let (after, step) = result_sent(session, result, true, waiting);
            session.tools_queue.len() + waiting.len() > 0 ==> takes_the_first(
                session.tools_queue + waiting,
                after,
                step,
            )
        }),
        ({
            let (after, step) = result_sent(session, result, false, waiting);
            &&& session.tools_queue.len() > 0 ==> takes_the_first(session.tools_queue, after, step)
            &&& session.tools_queue.len() == 0 ==> after.tools_queue.len() == 0
        }),
{
}

/// Where the interface stopped at a call and hands calls back, every call of the last
/// message of the assistant that was answered, waited or is handed back is accounted for:
/// it is the one before the user, waits, or has its result.
pub proof fn law_calls_handed_back_are_accounted_for(
    session: SessionView,
    result: ToolCallResultView,
    waiting: Seq<ToolCall>,
)
    requires
        accounted_for(
            SessionView { tools_queue: session.tools_queue + waiting, ..session },
            result.call,
        ),
    ensures
        ({
            let all = session.tools_queue + waiting;
            let (after, step) = result_sent(session, result, true, waiting);
            if all.len() > 0 {
                accounted_for(after, all[0])
            } else {
                all_answered(after) && step.next == NextView::CallModel
            }
        }),
{
    let all = session.tools_queue + waiting;
    let joined_up = SessionView { tools_queue: all, ..session };
    super::laws::lemma_result_accounts(joined_up, result.call, result.result);
    let (after, step) = result_sent(session, result, true, waiting);
    lemma_unresolved_empty(after.messages);
}

/// After any answer, the next of the waiting calls is taken up, and no call is lost or
/// taken twice; a call in the queue is never skipped.
pub proof fn law_waiting_calls_move_up(
    session: SessionView,
    result: ToolCallResultView,
    stop: bool,
    run: Option<ToolRunView>,
    error: Seq<char>,
)
    requires
        session.tools_queue.len() > 0,
    ensures
        ({
            let queue = session.tools_queue;
            let rejected = rejected(session, result.call, stop);
            let answered = user_answered(session, result);
            let finished = tool_finished(session, result.call, run);
            let unread = questions_parsed(session, result.call, Err(error));
            &&& takes_the_first(queue, rejected.0, rejected.1)
            &&& takes_the_first(queue, answered.0, answered.1)
            &&& takes_the_first(queue, finished.0, finished.1)
            &&& takes_the_first(queue, unread.0, unread.1)
        }),
{
}

/// With no call waiting, rejecting a call and wanting to stop ends the turn; every other
/// answer calls the model as soon as no call lacks its result, and tells the interface so.
pub proof fn law_last_answer_calls_the_model(
    session: SessionView,
    result: ToolCallResultView,
    error: Seq<char>,
    run: Option<ToolRunView>,
)
    requires
        session.tools_queue.len() == 0,
    ensures
        rejected(session, result.call, true).1.next == NextView::AwaitEvent,
        rejected(session, result.call, true).1.directives.len() == 0,
        ({
            let (after, step) = rejected(session, result.call, false);
            &&& step.next == NextView::CallModel <==> unresolved_ids(after.messages).len() == 0
            &&& step.next == NextView::CallModel ==> tells(
                step,
                InputEventView::StartLoadingOperation(LoadingOperation::StreamProcessing),
            )
        }),
        ({
            let (after, step) = user_answered(session, result);
            step.next == NextView::CallModel <==> unresolved_ids(after.messages).len() == 0
        }),
        ({
            let (after, step) = result_sent(session, result, false, Seq::empty());
            step.next == NextView::CallModel <==> unresolved_ids(after.messages).len() == 0
        }),
        ({
            let (after, step) = questions_parsed(session, result.call, Err(error));
            step.next == NextView::CallModel <==> unresolved_ids(after.messages).len() == 0
        }),
        ({
            let (after, step) = tool_finished(session, result.call, run);
            let cancelled = run matches Some(run) && run.status == ToolCallResultStatus::Cancelled;
            step.next == NextView::CallModel <==> !cancelled && unresolved_ids(
                after.messages,
            ).len() == 0
        }),
{
    let step = rejected(session, result.call, false).1;
    if step.next == NextView::CallModel {
        assert(step.directives[0] == DirectiveView::Send(
            InputEventView::StartLoadingOperation(LoadingOperation::StreamProcessing),
        ));
    }
}

/// How many directives follow those of a step's own: one, to put the next call before the
/// user or to say that the model is called, or none.
pub open spec fn following(session: SessionView, step: StepView) -> nat {
    if session.tools_queue.len() > 0 || step.next == NextView::CallModel {
        1
    } else {
        0
    }
}

/// The steps of a tool call do nothing besides what the laws above say of them.
pub proof fn law_tool_steps_do_nothing_else(
    session: SessionView,
    result: ToolCallResultView,
    stop: bool,
    waiting: Seq<ToolCall>,
    run: Option<ToolRunView>,
    error: Seq<char>,
)
    ensures
        accepted(session, result.call).1.directives.len() == (if asks_user(result.call) {
            0nat
        } else {
            1nat
        }),
        ({
            let step = rejected(session, result.call, stop).1;
            step.directives.len() == following(session, step)
        }),
        ({
            let step = user_answered(session, result).1;
            step.directives.len() == 1 + following(session, step)
        }),
        ({
            let step = result_sent(session, result, stop, waiting).1;
            &&& step.directives.len() == 2 + (if stop && waiting.len() > 0 {
                1
            } else {
                following(session, step)
            })
            &&& step.directives[0] == DirectiveView::Send(
                InputEventView::StartLoadingOperation(LoadingOperation::ToolExecution),
            )
            &&& step.directives[1] == DirectiveView::Send(
                InputEventView::EndLoadingOperation(LoadingOperation::ToolExecution),
            )
        }),
        ({
            let step = questions_parsed(session, result.call, Err(error)).1;
            step.directives.len() == 1 + following(session, step)
        }),
        ({
            let step = tool_finished(session, result.call, run).1;
            let shown = run matches Some(run) && run.status != ToolCallResultStatus::Cancelled
                && !has_result(session.messages, result.call.id@);
            step.directives.len() == (if shown {
                2nat
            } else {
                1nat
            }) + following(session, step)
        }),
{
}

} // verus!
