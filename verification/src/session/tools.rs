//! Tool calls: put before the user one at a time, run or rejected, and answered
//! in the conversation.
use vstd::prelude::*;
use vstd::string::*;

use super::{
    ends, goes_on, nothing, push, starts, wait_after, waits, with_result, Directive, DirectiveView,
    Next, NextView, Session, SessionView, Step, StepView,
};
use crate::chat::{ToolCall, ToolCallResult, ToolCallResultStatus, ToolCallResultView};
use crate::conversation::{has_result, is_resolved};
use crate::events::{AskUserQuestion, InputEvent, InputEventView, LoadingOperation};
use crate::text::{concat2, join, join_from, joined, same_text, strip_prefix, stripped};

verus! {

/// A tool's name without the prefix of this program's own tools.
pub open spec fn bare_tool_name(name: Seq<char>) -> Seq<char> {
    match stripped(name, "stakpak__"@) {
        Some(bare) => bare,
        None => name,
    }
}

/// The call asks the user instead of running a tool.
pub open spec fn asks_user(call: ToolCall) -> bool {
    bare_tool_name(call.function.name@) == "ask_user"@
}

/// How a tool call is put before the user: one that asks the user is shown as its
/// questions, where they could be read and there are any; any other waits for
/// approval.
pub open spec fn presentation(
    call: ToolCall,
    questions: Option<Seq<AskUserQuestion>>,
) -> InputEventView {
    match questions {
        Some(questions) => if asks_user(call) && questions.len() > 0 {
            InputEventView::ShowAskUserPopup(call, questions)
        } else {
            InputEventView::RunToolCall(call)
        },
        None => InputEventView::RunToolCall(call),
    }
}

/// How a tool's run ended, and the parts of its output; a part that is no text is
/// `None`.
#[derive(Debug, PartialEq, Eq)]
pub struct ToolRun {
    pub status: ToolCallResultStatus,
    pub content: Vec<Option<String>>,
}

/// The model of a [`ToolRun`].
pub struct ToolRunView {
    pub status: ToolCallResultStatus,
    pub content: Seq<Option<Seq<char>>>,
}

impl DeepView for ToolRun {
    type V = ToolRunView;

    open spec fn deep_view(&self) -> ToolRunView {
        ToolRunView { status: self.status, content: self.content.deep_view() }
    }
}

/// A part of the output that has text in it.
pub open spec fn text_part(part: Option<Seq<char>>) -> Option<Seq<char>> {
    match part {
        Some(text) => if text.len() > 0 {
            Some(text)
        } else {
            None
        },
        None => None,
    }
}

/// The texts of the output, without the empty ones.
pub open spec fn text_parts(content: Seq<Option<Seq<char>>>) -> Seq<Seq<char>> {
    content.filter_map(|part: Option<Seq<char>>| text_part(part))
}

/// What the output says: a line for each text, but for an error with a name and a
/// description, which are written `[name] description`.
pub open spec fn run_text(run: ToolRunView) -> Seq<char> {
    let parts = text_parts(run.content);
    if run.status == ToolCallResultStatus::Error && parts.len() >= 2 {
        "["@ + parts[0] + "] "@ + joined(parts.skip(1), ": "@)
    } else {
        joined(parts, "\n"@)
    }
}

/// Telling the interface what came of a tool call.
pub open spec fn shows_result(
    call: ToolCall,
    text: Seq<char>,
    status: ToolCallResultStatus,
) -> DirectiveView {
    DirectiveView::Send(
        InputEventView::ToolResult(ToolCallResultView { call, result: text, status }),
    )
}

/// The user accepted a tool call: its questions are read or the tool is run.
pub open spec fn accepted(session: SessionView, call: ToolCall) -> (SessionView, StepView) {
    if asks_user(call) {
        (
            session,
            StepView { directives: Seq::empty(), next: NextView::ParseQuestions(call) },
        )
    } else {
        (
            session,
            StepView {
                directives: seq![starts(LoadingOperation::ToolExecution)],
                next: NextView::RunTool(call),
            },
        )
    }
}

/// The complaint about a call whose questions could not be shown.
pub open spec fn question_complaint(parsed: Result<Seq<AskUserQuestion>, Seq<char>>) -> Seq<char> {
    match parsed {
        Ok(_) => "ask_user tool was called with no questions"@,
        Err(error) => "Failed to parse ask_user arguments: "@ + error,
    }
}

/// The call is one whose questions can be shown: they could be read, and there are any.
pub open spec fn has_questions(parsed: Result<Seq<AskUserQuestion>, Seq<char>>) -> bool {
    parsed is Ok && parsed->Ok_0.len() > 0
}

/// The questions of an accepted call were read: they are shown, or the call is
/// answered with the complaint about them. In place of running a tool, the next tool
/// call is then taken up, or the model is called so that it can try again.
pub open spec fn questions_parsed(
    session: SessionView,
    call: ToolCall,
    parsed: Result<Seq<AskUserQuestion>, Seq<char>>,
) -> (SessionView, StepView) {
    if has_questions(parsed) {
        (
            session,
            waits(
                seq![DirectiveView::Send(
                    InputEventView::ShowAskUserPopup(call, parsed->Ok_0),
                )],
            ),
        )
    } else {
        let text = question_complaint(parsed);
        goes_on(
            with_result(session, call.id@, text),
            seq![shows_result(call, text, ToolCallResultStatus::Error)],
            false,
        )
    }
}

/// A tool has run. Its output becomes the result of the call, unless the call has
/// one already: a cancelled one that a message of the user put there. A cancelled
/// run leaves a result only where further tool calls wait; otherwise the final one
/// comes later.
pub open spec fn tool_finished(
    session: SessionView,
    call: ToolCall,
    run: Option<ToolRunView>,
) -> (SessionView, StepView) {
    let ended = ends(LoadingOperation::ToolExecution);
    match run {
        None => goes_on(session, seq![ended], false),
        Some(run) => if run.status == ToolCallResultStatus::Cancelled {
            let after = if session.tools_queue.len() > 0 {
                with_result(session, call.id@, "TOOL_CALL_CANCELLED"@)
            } else {
                session
            };
            goes_on(after, seq![ended], true)
        } else if has_result(session.messages, call.id@) {
            goes_on(session, seq![ended], false)
        } else {
            goes_on(
                with_result(session, call.id@, run_text(run)),
                seq![shows_result(call, run_text(run), run.status), ended],
                false,
            )
        },
    }
}

/// The user rejected a tool call.
pub open spec fn rejected(session: SessionView, call: ToolCall, stop: bool) -> (
    SessionView,
    StepView,
) {
    goes_on(with_result(session, call.id@, "TOOL_CALL_REJECTED"@), Seq::empty(), stop)
}

/// The interface reports what came of a tool call, and hands back tool calls that
/// still wait where it stopped at this one.
pub open spec fn result_sent(
    session: SessionView,
    result: ToolCallResultView,
    stop: bool,
    waiting: Seq<ToolCall>,
) -> (SessionView, StepView) {
    let answered = with_result(session, result.call.id@, result.result);
    let after = if stop {
        SessionView { tools_queue: answered.tools_queue + waiting, ..answered }
    } else {
        answered
    };
    goes_on(
        after,
        seq![starts(LoadingOperation::ToolExecution), ends(LoadingOperation::ToolExecution)],
        false,
    )
}

/// The user answered the questions of a call.
pub open spec fn user_answered(session: SessionView, result: ToolCallResultView) -> (
    SessionView,
    StepView,
) {
    goes_on(
        with_result(session, result.call.id@, result.result),
        seq![DirectiveView::Send(InputEventView::ToolResult(result))],
        false,
    )
}

/// Whether the call asks the user instead of running a tool.
pub fn is_ask_user(call: &ToolCall) -> (res: bool)
    ensures
        res == asks_user(*call),
{
    let name = call.function.name.as_str();
    let bare = match strip_prefix(name, "stakpak__") {
        Some(bare) => bare,
        None => name,
    };
    same_text(bare, "ask_user")
}

/// What puts the next tool call before the user. `questions` holds what the
/// arguments of the call ask, where they could be read.
pub fn send_next_tool_from_queue(
    tool_call: ToolCall,
    questions: Option<Vec<AskUserQuestion>>,
) -> (res: InputEvent)
    ensures
        res.deep_view() == presentation(
            tool_call,
            match questions {
                Some(questions) => Some(questions@),
                None => None,
            },
        ),
{
    match questions {
        Some(questions) => {
            if is_ask_user(&tool_call) && questions.len() > 0 {
                InputEvent::ShowAskUserPopup(tool_call, questions)
            } else {
                InputEvent::RunToolCall(tool_call)
            }
        },
        None => InputEvent::RunToolCall(tool_call),
    }
}

impl ToolRun {
    /// The texts of the output, without the empty ones.
    fn texts(&self) -> (res: Vec<String>)
        ensures
            res.deep_view() == text_parts(self.deep_view().content),
    {
        let mut texts: Vec<String> = Vec::new();
        let ghost all = self.content.deep_view();
        let ghost keep = |part: Option<Seq<char>>| text_part(part);
        proof {
            assert(all.take(0) =~= Seq::empty());
            assert(texts.deep_view() =~= all.take(0).filter_map(keep));
        }
        for i in 0..self.content.len()
            invariant
                all == self.content.deep_view(),
                keep == (|part: Option<Seq<char>>| text_part(part)),
                texts.deep_view() == all.take(i as int).filter_map(keep),
        {
            let ghost before = texts.deep_view();
            proof {
                all.lemma_filter_map_take_succ(keep, i as int);
                assert(all[i as int] == self.content[i as int].deep_view());
            }
            if let Some(text) = &self.content[i] {
                if !text.as_str().is_empty() {
                    texts.push(text.clone());
                    proof {
                        assert(texts.deep_view() =~= before.push(text@));
                    }
                }
            }
            proof {
                assert(texts.deep_view() =~= all.take(i + 1).filter_map(keep));
            }
        }
        proof {
            assert(all.take(self.content.len() as int) =~= all);
        }
        texts
    }

    /// What the output says.
    pub fn text(&self) -> (res: String)
        ensures
            res@ == run_text(self.deep_view()),
    {
        let parts = self.texts();
        if self.status == ToolCallResultStatus::Error && parts.len() >= 2 {
            let mut text = concat2("[", parts[0].as_str());
            text.append("] ");
            text.append(join_from(&parts, 1, ": ").as_str());
            text
        } else {
            join(&parts, "\n")
        }
    }
}

impl Session {
    /// The user accepted a tool call.
    pub fn on_accept_tool(&mut self, call: ToolCall) -> (res: Step)
        ensures
            (final(self).deep_view(), res.deep_view()) == accepted(old(self).deep_view(), call),
    {
        let mut directives = nothing();
        if is_ask_user(&call) {
            Step { directives, next: Next::ParseQuestions(call) }
        } else {
            push(
                &mut directives,
                Directive::Send(InputEvent::StartLoadingOperation(LoadingOperation::ToolExecution)),
            );
            Step { directives, next: Next::RunTool(call) }
        }
    }

    /// The questions of an accepted call were read, or could not be.
    pub fn on_questions_parsed(
        &mut self,
        call: ToolCall,
        parsed: Result<Vec<AskUserQuestion>, String>,
    ) -> (res: Step)
        ensures
            (final(self).deep_view(), res.deep_view()) == questions_parsed(
                old(self).deep_view(),
                call,
                match parsed {
                    Ok(questions) => Ok::<Seq<AskUserQuestion>, Seq<char>>(questions@),
                    Err(error) => Err::<Seq<AskUserQuestion>, Seq<char>>(error@),
                },
            ),
    {
        let mut directives = nothing();
        let text = match parsed {
            Ok(questions) => {
                if questions.len() > 0 {
                    push(
                        &mut directives,
                        Directive::Send(InputEvent::ShowAskUserPopup(call, questions)),
                    );
                    return wait_after(directives);
                }
                "ask_user tool was called with no questions".to_string()
            },
            Err(error) => concat2("Failed to parse ask_user arguments: ", error.as_str()),
        };
        self.push_result(call.id.clone(), text.clone());
        push(
            &mut directives,
            Directive::Send(
                InputEvent::ToolResult(
                    ToolCallResult { call, result: text, status: ToolCallResultStatus::Error },
                ),
            ),
        );
        self.go_on(directives, false)
    }

    /// A tool has run; `None` where there was no tool to run it.
    pub fn on_tool_finished(&mut self, call: ToolCall, run: Option<ToolRun>) -> (res: Step)
        ensures
            (final(self).deep_view(), res.deep_view()) == tool_finished(
                old(self).deep_view(),
                call,
                run.deep_view(),
            ),
    {
        let mut directives = nothing();
        let mut stop = false;
        if let Some(run) = &run {
            if run.status == ToolCallResultStatus::Cancelled {
                stop = true;
                if self.tools_queue.len() > 0 {
                    self.push_result(call.id, "TOOL_CALL_CANCELLED".to_string());
                }
            } else if !is_resolved(self.messages.as_slice(), call.id.as_str()) {
                let text = run.text();
                self.push_result(call.id.clone(), text.clone());
                push(
                    &mut directives,
                    Directive::Send(
                        InputEvent::ToolResult(
                            ToolCallResult { call, result: text, status: run.status },
                        ),
                    ),
                );
            }
            push(
                &mut directives,
                Directive::Send(InputEvent::EndLoadingOperation(LoadingOperation::ToolExecution)),
            );
        }
        if let Some(event) = super::end_tool_execution_loading_if_none(run.is_some()) {
            push(&mut directives, Directive::Send(event));
        }
        self.go_on(directives, stop)
    }

    /// The user rejected a tool call.
    pub fn on_reject_tool(&mut self, call: ToolCall, should_stop: bool) -> (res: Step)
        ensures
            (final(self).deep_view(), res.deep_view()) == rejected(
                old(self).deep_view(),
                call,
                should_stop,
            ),
    {
        self.push_result(call.id, "TOOL_CALL_REJECTED".to_string());
        self.go_on(nothing(), should_stop)
    }

    /// The interface reports what came of a tool call.
    pub fn on_send_tool_result(
        &mut self,
        result: ToolCallResult,
        should_stop: bool,
        pending_tool_calls: Vec<ToolCall>,
    ) -> (res: Step)
        ensures
            (final(self).deep_view(), res.deep_view()) == result_sent(
                old(self).deep_view(),
                result.deep_view(),
                should_stop,
                pending_tool_calls@,
            ),
    {
        let mut directives = nothing();
        push(
            &mut directives,
            Directive::Send(InputEvent::StartLoadingOperation(LoadingOperation::ToolExecution)),
        );
        self.push_result(result.call.id, result.result);
        push(
            &mut directives,
            Directive::Send(InputEvent::EndLoadingOperation(LoadingOperation::ToolExecution)),
        );
        if should_stop {
            let mut waiting = pending_tool_calls;
            self.tools_queue.append(&mut waiting);
        }
        self.go_on(directives, false)
    }

    /// The user answered the questions of a call.
    pub fn on_ask_user_response(&mut self, result: ToolCallResult) -> (res: Step)
        ensures
            (final(self).deep_view(), res.deep_view()) == user_answered(
                old(self).deep_view(),
                result.deep_view(),
            ),
    {
        let mut directives = nothing();
        self.push_result(result.call.id.clone(), result.result.clone());
        push(&mut directives, Directive::Send(InputEvent::ToolResult(result)));
        self.go_on(directives, false)
    }
}

} // verus!
