//! Requests to the model: what a refused, broken or cancelled stream leads to,
//! and what a response changes.
use vstd::prelude::*;
use vstd::string::*;

use super::restore::announces;
use super::{
    complains, ends, nothing, push, wait_after, waits, Directive, DirectiveView, Next, NextView,
    Session, SessionView, Step, StepView,
};
use crate::chat::{copy_calls, ChatMessage, ChatMessageView, ToolCall};
use crate::events::{InputEvent, InputEventView, LoadingOperation};
use crate::ids::{parse_uuid, uuid_of_text};
use crate::json::{metadata_member, metadata_session, session_of_metadata, state_of_metadata};
use crate::text::{concat2, contains, decimal, decimal_text, occurs, split_first, split_once};
use crate::usage::{usage_fits, usage_plus, LLMTokenUsage, UsageCounts};

verus! {

/// How often a request is repeated after a response that makes no sense.
pub const MAX_RETRY_ATTEMPTS: u32 = 2;

/// What the user is told about a refused request: of a response that is no stream,
/// what the server says behind the first colon.
pub open spec fn refusal_text(error: Seq<char>) -> Seq<char> {
    if occurs(error, "Server returned non-stream response"@) {
        match split_first(error, ": "@) {
            Some((_, rest)) => rest,
            None => error,
        }
    } else {
        error
    }
}

/// The request ends without a response, with a complaint to the user.
pub open spec fn gives_up(text: Seq<char>) -> StepView {
    waits(seq![ends(LoadingOperation::StreamProcessing), complains(text)])
}

/// The stream broke. One that made no sense is asked for again, up to
/// [`MAX_RETRY_ATTEMPTS`] times since the last response.
pub open spec fn stream_failed(
    session: SessionView,
    invalid_response: bool,
    description: Seq<char>,
) -> (SessionView, StepView) {
    if !invalid_response {
        (session, gives_up(description))
    } else if session.retry_attempts < MAX_RETRY_ATTEMPTS {
        let attempt = session.retry_attempts + 1;
        (
            SessionView { retry_attempts: attempt, ..session },
            StepView {
                directives: seq![complains("RETRY_ATTEMPT_"@ + decimal(attempt))],
                next: NextView::RetryModel,
            },
        )
    } else {
        (session, gives_up("MAX_RETRY_REACHED"@))
    }
}

/// A response arrived. Its message joins the conversation, its usage that of the
/// session, and its metadata says which session this is and what its checkpoint
/// holds. `named` and `state` are what the metadata says.
pub open spec fn response_received(
    session: SessionView,
    message: ChatMessageView,
    named: Option<u128>,
    state: Option<serde_json::Value>,
    usage: UsageCounts,
) -> (SessionView, StepView) {
    let total = usage_plus(session.usage, usage);
    (
        SessionView {
            retry_attempts: 0,
            messages: session.messages.push(message),
            session_id: match named {
                Some(id) => Some(id),
                None => session.session_id,
            },
            metadata: match state {
                Some(state) => Some(state),
                None => session.metadata,
            },
            usage: total,
            ..session
        },
        StepView {
            directives: (match named {
                Some(id) => announces(session.session_id, id),
                None => Seq::empty(),
            }).push(DirectiveView::Send(InputEventView::TotalUsage(total))),
            next: NextView::FinishResponse(message.tool_calls),
        },
    )
}

/// The tool calls of a response are taken up: the interface learns of them, and the
/// first that waits is put before the user. A session without an id gets the one
/// that its checkpoint belongs to, where that was found.
pub open spec fn response_finished(
    session: SessionView,
    found: Option<u128>,
    calls: Option<Seq<ToolCall>>,
) -> (SessionView, StepView) {
    let (entered, announced) = match (session.session_id, found) {
        (None, Some(id)) => (
            SessionView { session_id: Some(id), ..session },
            announces(None, id),
        ),
        _ => (session, Seq::empty()),
    };
    match calls {
        Some(calls) => {
            let told = announced.push(DirectiveView::Send(InputEventView::MessageToolCalls(calls)));
            let queue = entered.tools_queue + calls;
            if queue.len() > 0 {
                (
                    SessionView { tools_queue: queue.drop_first(), ..entered },
                    waits(told.push(DirectiveView::Present(queue[0]))),
                )
            } else {
                (entered, waits(told))
            }
        },
        None => (entered, waits(announced)),
    }
}

/// What the user is told about a refused request.
pub fn describe_refusal(error: &str) -> (res: String)
    ensures
        res@ == refusal_text(error@),
{
    if contains(error, "Server returned non-stream response") {
        match split_once(error, ": ") {
            Some((_, rest)) => rest.to_string(),
            None => error.to_string(),
        }
    } else {
        error.to_string()
    }
}

/// The request ends without a response, with a complaint to the user.
fn give_up(text: String) -> (res: Step)
    ensures
        res.deep_view() == gives_up(text@),
{
    let mut directives = nothing();
    push(
        &mut directives,
        Directive::Send(InputEvent::EndLoadingOperation(LoadingOperation::StreamProcessing)),
    );
    push(&mut directives, Directive::Send(InputEvent::Error(text)));
    wait_after(directives)
}

impl Session {
    /// The model refused the request.
    pub fn on_stream_refused(&self, error: &str) -> (res: Step)
        ensures
            res.deep_view() == gives_up(refusal_text(error@)),
    {
        give_up(describe_refusal(error))
    }

    /// The user cancelled the stream.
    pub fn on_stream_cancelled(&self) -> (res: Step)
        ensures
            res.deep_view() == gives_up("STREAM_CANCELLED"@),
    {
        give_up("STREAM_CANCELLED".to_string())
    }

    /// The stream broke. `invalid_response` tells that it made no sense;
    /// `description` is what is known of any other error.
    pub fn on_stream_failed(&mut self, invalid_response: bool, description: String) -> (res: Step)
        ensures
            (final(self).deep_view(), res.deep_view()) == stream_failed(
                old(self).deep_view(),
                invalid_response,
                description@,
            ),
    {
        if !invalid_response {
            return give_up(description);
        }
        if self.retry_attempts < MAX_RETRY_ATTEMPTS {
            self.retry_attempts = self.retry_attempts + 1;
            let mut directives = nothing();
            let attempt = decimal_text(self.retry_attempts as u64);
            push(
                &mut directives,
                Directive::Send(InputEvent::Error(concat2("RETRY_ATTEMPT_", attempt.as_str()))),
            );
            Step { directives, next: Next::RetryModel }
        } else {
            give_up("MAX_RETRY_REACHED".to_string())
        }
    }

    /// A response arrived, of whose metadata it is known which session it names and
    /// which checkpoint state it carries.
    pub fn take_response(
        &mut self,
        message: ChatMessage,
        named: Option<u128>,
        state: Option<serde_json::Value>,
        usage: &LLMTokenUsage,
    ) -> (res: Step)
        requires
            usage_fits(usage_plus(old(self).total_session_usage@, usage@)),
        ensures
            (final(self).deep_view(), res.deep_view()) == response_received(
                old(self).deep_view(),
                message.deep_view(),
                named,
                state,
                usage@,
            ),
    {
        self.retry_attempts = 0;
        let calls = match &message.tool_calls {
            Some(calls) => Some(copy_calls(calls)),
            None => None,
        };
        self.push_message(message);
        let mut directives = nothing();
        if let Some(id) = named {
            self.enter_session(id, &mut directives);
            proof {
                assert(directives.deep_view() =~= announces(old(self).current_session_id, id));
            }
        }
        if let Some(state) = state {
            self.current_metadata = Some(state);
        }
        self.total_session_usage.accumulate(usage);
        push(&mut directives, Directive::Send(InputEvent::TotalUsage(self.total_session_usage)));
        Step { directives, next: Next::FinishResponse(calls) }
    }

    /// A response arrived.
    pub fn on_response(
        &mut self,
        message: ChatMessage,
        metadata: &Option<serde_json::Value>,
        usage: &LLMTokenUsage,
    ) -> (res: Step)
        requires
            usage_fits(usage_plus(old(self).total_session_usage@, usage@)),
        ensures
            (final(self).deep_view(), res.deep_view()) == response_received(
                old(self).deep_view(),
                message.deep_view(),
                metadata_session(*metadata),
                metadata_member(*metadata, "state_metadata"@),
                usage@,
            ),
    {
        let named = session_of_metadata(metadata);
        let state = state_of_metadata(metadata);
        self.take_response(message, named, state, usage)
    }

    /// The checkpoint to look up, to learn which session it belongs to: only where
    /// the session is not known and the conversation names a checkpoint.
    pub fn checkpoint_to_look_up(&self, named: Option<&str>) -> (res: Option<u128>)
        ensures
            res == (if self.current_session_id is None && named is Some {
                uuid_of_text(named->0@)
            } else {
                None
            }),
    {
        if self.current_session_id.is_some() {
            return None;
        }
        match named {
            Some(text) => parse_uuid(text),
            None => None,
        }
    }

    /// Takes up the tool calls of a response. `found` is the session that its
    /// checkpoint belongs to, where it was looked up.
    pub fn finish_response(
        &mut self,
        found: Option<u128>,
        tool_calls: Option<Vec<ToolCall>>,
    ) -> (res: Step)
        ensures
            (final(self).deep_view(), res.deep_view()) == response_finished(
                old(self).deep_view(),
                found,
                match tool_calls {
                    Some(calls) => Some(calls@),
                    None => None,
                },
            ),
    {
        let mut directives = nothing();
        if self.current_session_id.is_none() {
            if let Some(id) = found {
                self.enter_session(id, &mut directives);
                proof {
                    assert(directives.deep_view() =~= announces(None, id));
                }
            }
        }
        let ghost entered = self.deep_view();
        if let Some(calls) = tool_calls {
            let mut calls = calls;
            push(
                &mut directives,
                Directive::Send(InputEvent::MessageToolCalls(copy_calls(&calls))),
            );
            let ghost queue = self.tools_queue@ + calls@;
            self.tools_queue.append(&mut calls);
            if self.tools_queue.len() > 0 {
                let first = self.tools_queue.remove(0);
                proof {
                    assert(self.tools_queue@ =~= queue.drop_first());
                }
                push(&mut directives, Directive::Present(first));
            } else {
                proof {
                    assert(self.tools_queue@ =~= entered.tools_queue);
                }
            }
        }
        wait_after(directives)
    }
}

} // verus!
