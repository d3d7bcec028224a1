//! Questions about a conversation: which tool calls still lack a result, where
//! the user's messages stand, which checkpoint it reached.
use vstd::prelude::*;
use vstd::string::*;

use crate::chat::{
    tool_result_message, ChatMessage, ChatMessageView, ContentPart, ContentPartView, ContentView,
    MessageContent, Role, ToolCall,
};
use crate::ids::{is_hex_digit, law_uuid_text, parse_uuid, uuid_of_text, uuid_text};
use crate::text::{has_prefix, occurs, occurs_at, same_text, split_first, split_once};

verus! {

/// The ids of the calls, in order.
pub open spec fn call_ids(calls: Seq<ToolCall>) -> Seq<Seq<char>> {
    calls.map_values(|call: ToolCall| call.id@)
}

/// `message` reports the result of the tool call `id`.
pub open spec fn is_result_of(message: ChatMessageView, id: Seq<char>) -> bool {
    message.role == Role::Tool && message.tool_call_id == Some(id)
}

/// Some message reports the result of the tool call `id`.
pub open spec fn has_result(messages: Seq<ChatMessageView>, id: Seq<char>) -> bool {
    exists|i: int| 0 <= i < messages.len() && is_result_of(#[trigger] messages[i], id)
}

/// The last message of the assistant.
pub open spec fn last_assistant(messages: Seq<ChatMessageView>) -> Option<ChatMessageView>
    decreases messages.len(),
{
    if messages.len() == 0 {
        None
    } else if messages.last().role == Role::Assistant {
        Some(messages.last())
    } else {
        last_assistant(messages.drop_last())
    }
}

/// The tool calls that the last message of the assistant asks for.
pub open spec fn requested_calls(messages: Seq<ChatMessageView>) -> Seq<ToolCall> {
    match last_assistant(messages) {
        Some(message) => match message.tool_calls {
            Some(calls) => calls,
            None => Seq::empty(),
        },
        None => Seq::empty(),
    }
}

/// The ids of the requested tool calls that have no result yet, in order.
pub open spec fn unresolved_ids(messages: Seq<ChatMessageView>) -> Seq<Seq<char>> {
    call_ids(requested_calls(messages)).filter(|id: Seq<char>| !has_result(messages, id))
}

/// Tool calls are waiting in the queue or lack their result.
pub open spec fn pending(messages: Seq<ChatMessageView>, queue: Seq<ToolCall>) -> bool {
    queue.len() > 0 || unresolved_ids(messages).len() > 0
}

/// How many of the messages come from the user.
pub open spec fn user_count(messages: Seq<ChatMessageView>) -> nat
    decreases messages.len(),
{
    if messages.len() == 0 {
        0
    } else if messages.last().role == Role::User {
        user_count(messages.drop_last()) + 1
    } else {
        user_count(messages.drop_last())
    }
}

/// The position of the `n`th message of the user, counted from one.
pub open spec fn nth_user_index(messages: Seq<ChatMessageView>, n: nat) -> Option<int>
    decreases messages.len(),
{
    if messages.len() == 0 {
        None
    } else {
        match nth_user_index(messages.drop_last(), n) {
            Some(index) => Some(index),
            None => if messages.last().role == Role::User && user_count(messages) == n {
                Some(messages.len() - 1)
            } else {
                None
            },
        }
    }
}

/// All of the messages are system messages.
pub open spec fn only_system(messages: Seq<ChatMessageView>) -> bool {
    forall|i: int| 0 <= i < messages.len() ==> (#[trigger] messages[i]).role == Role::System
}

/// The text between the first checkpoint tag and the tag that closes it.
pub open spec fn tagged_checkpoint(text: Seq<char>) -> Option<Seq<char>> {
    match split_first(text, "<checkpoint_id>"@) {
        Some((_, rest)) => match split_first(rest, "</checkpoint_id>"@) {
            Some((tagged, _)) => Some(tagged),
            None => None,
        },
        None => None,
    }
}

/// The checkpoint that a text names.
pub open spec fn text_checkpoint(text: Seq<char>) -> Option<u128> {
    match tagged_checkpoint(text) {
        Some(tagged) => uuid_of_text(tagged),
        None => None,
    }
}

/// The checkpoint that the first of the parts to name one names.
pub open spec fn parts_checkpoint(parts: Seq<ContentPartView>) -> Option<u128>
    decreases parts.len(),
{
    if parts.len() == 0 {
        None
    } else {
        match parts_checkpoint(parts.drop_last()) {
            Some(id) => Some(id),
            None => match parts.last().text {
                Some(text) => text_checkpoint(text),
                None => None,
            },
        }
    }
}

/// The checkpoint that a message of the assistant names.
pub open spec fn message_checkpoint(message: ChatMessageView) -> Option<u128> {
    if message.role == Role::Assistant {
        match message.content {
            Some(ContentView::Text(text)) => text_checkpoint(text),
            Some(ContentView::Parts(parts)) => parts_checkpoint(parts),
            None => None,
        }
    } else {
        None
    }
}

/// The checkpoint that the newest message to name one names.
pub open spec fn last_checkpoint(messages: Seq<ChatMessageView>) -> Option<u128>
    decreases messages.len(),
{
    if messages.len() == 0 {
        None
    } else {
        match message_checkpoint(messages.last()) {
            Some(id) => Some(id),
            None => last_checkpoint(messages.drop_last()),
        }
    }
}

/// Whether some message reports the result of the tool call `id`.
pub fn is_resolved(messages: &[ChatMessage], id: &str) -> (res: bool)
    ensures
        res == has_result(messages.deep_view(), id@),
{
    for i in 0..messages.len()
        invariant
            forall|j: int|
                0 <= j < i ==> !is_result_of(#[trigger] messages.deep_view()[j], id@),
    {
        if messages[i].role == Role::Tool {
            if let Some(call_id) = &messages[i].tool_call_id {
                if same_text(call_id.as_str(), id) {
                    assert(is_result_of(messages.deep_view()[i as int], id@));
                    return true;
                }
            }
        }
        assert(!is_result_of(messages.deep_view()[i as int], id@));
    }
    false
}

/// The ids among those of `calls` that have no result in `messages`, in order.
fn ids_without_result(messages: &[ChatMessage], calls: &Vec<ToolCall>) -> (res: Vec<String>)
    ensures
        res.deep_view() == call_ids(calls@).filter(
            |id: Seq<char>| !has_result(messages.deep_view(), id),
        ),
{
    let mut ids: Vec<String> = Vec::new();
    let ghost unresolved = |id: Seq<char>| !has_result(messages.deep_view(), id);
    proof {
        assert(call_ids(calls@).take(0) =~= Seq::empty());
        assert(ids.deep_view() =~= call_ids(calls@).take(0).filter(unresolved));
    }
    for i in 0..calls.len()
        invariant
            unresolved == (|id: Seq<char>| !has_result(messages.deep_view(), id)),
            ids.deep_view() == call_ids(calls@).take(i as int).filter(unresolved),
    {
        proof {
            let all = call_ids(calls@);
            assert(all.take(i + 1) =~= all.take(i as int).push(all[i as int]));
            all.take(i as int).lemma_filter_push(all[i as int], unresolved);
        }
        let ghost before = ids.deep_view();
        if !is_resolved(messages, calls[i].id.as_str()) {
            ids.push(calls[i].id.clone());
            proof {
                assert(ids.deep_view() =~= before.push(calls[i as int].id@));
            }
        }
    }
    proof {
        assert(call_ids(calls@).take(calls.len() as int) =~= call_ids(calls@));
    }
    ids
}

/// The ids of the tool calls in the last message of the assistant that have no
/// result yet. Each gets the result of a cancelled call before a message of the
/// user is put behind them.
pub fn get_unresolved_tool_call_ids(messages: &[ChatMessage]) -> (res: Vec<String>)
    ensures
        res.deep_view() == unresolved_ids(messages.deep_view()),
{
    let ghost all = messages.deep_view();
    let mut end: usize = messages.len();
    proof {
        assert(all.take(end as int) =~= all);
    }
    while end > 0
        invariant
            end <= messages.len(),
            all == messages.deep_view(),
            last_assistant(all.take(end as int)) == last_assistant(all),
        decreases end,
    {
        let message = &messages[end - 1];
        proof {
            assert(all.take(end as int).last() == message.deep_view());
            assert(all.take(end as int).drop_last() =~= all.take(end - 1));
        }
        if message.role == Role::Assistant {
            return match &message.tool_calls {
                Some(calls) => ids_without_result(messages, calls),
                None => {
                    let none: Vec<String> = Vec::new();
                    proof {
                        assert(call_ids(Seq::empty()) =~= Seq::empty());
                        assert(none.deep_view() =~= unresolved_ids(all));
                    }
                    none
                },
            };
        }
        end = end - 1;
    }
    let none: Vec<String> = Vec::new();
    proof {
        assert(call_ids(Seq::empty()) =~= Seq::empty());
        assert(none.deep_view() =~= unresolved_ids(all));
    }
    none
}

/// Whether tool calls are waiting in the queue or lack their result. Nothing is
/// sent to the model then: it refuses a conversation with a tool call that has
/// no result.
pub fn has_pending_tool_calls(messages: &[ChatMessage], tools_queue: &[ToolCall]) -> (res: bool)
    ensures
        res == pending(messages.deep_view(), tools_queue@),
{
    if tools_queue.len() > 0 {
        return true;
    }
    let unresolved = get_unresolved_tool_call_ids(messages);
    assert(unresolved.deep_view().len() == unresolved.len());
    unresolved.len() > 0
}

/// The position of the `n`th message of the user, counted from one. The
/// conversation is cut there to go back to that message.
pub fn find_nth_user_message_index(messages: &[ChatMessage], n: usize) -> (res: Option<usize>)
    ensures
        match res {
            Some(index) => nth_user_index(messages.deep_view(), n as nat) == Some(index as int),
            None => nth_user_index(messages.deep_view(), n as nat) is None,
        },
{
    let ghost all = messages.deep_view();
    let mut count: usize = 0;
    proof {
        assert(all.take(0).len() == 0);
    }
    for i in 0..messages.len()
        invariant
            all == messages.deep_view(),
            count == user_count(all.take(i as int)),
            count <= i,
            nth_user_index(all.take(i as int), n as nat) is None,
    {
        proof {
            assert(all.take(i + 1).drop_last() =~= all.take(i as int));
            assert(all.take(i + 1).last() == messages[i as int].deep_view());
        }
        if messages[i].role == Role::User {
            count = count + 1;
            if count == n {
                proof {
                    lemma_nth_user_stays(all, i + 1, n as nat);
                }
                return Some(i);
            }
        }
    }
    proof {
        assert(all.take(messages.len() as int) =~= all);
    }
    None
}

/// Whether a message put at the end would be the first that is no system message.
pub fn is_first_non_system_message(messages: &[ChatMessage]) -> (res: bool)
    ensures
        res == only_system(messages.deep_view()),
{
    for i in 0..messages.len()
        invariant
            forall|j: int|
                0 <= j < i ==> (#[trigger] messages.deep_view()[j]).role == Role::System,
    {
        if messages[i].role != Role::System {
            assert(messages.deep_view()[i as int].role != Role::System);
            return false;
        }
        assert(messages.deep_view()[i as int].role == Role::System);
    }
    true
}

/// The text between the first checkpoint tag and the tag that closes it.
pub fn find_tagged_checkpoint(text: &str) -> (res: Option<&str>)
    ensures
        match res {
            Some(tagged) => tagged_checkpoint(text@) == Some(tagged@),
            None => tagged_checkpoint(text@) is None,
        },
{
    match split_once(text, "<checkpoint_id>") {
        Some((_, rest)) => match split_once(rest, "</checkpoint_id>") {
            Some((tagged, _)) => Some(tagged),
            None => None,
        },
        None => None,
    }
}

/// The checkpoint that a text names.
fn checkpoint_in_text(text: &str) -> (res: Option<u128>)
    ensures
        res == text_checkpoint(text@),
{
    match find_tagged_checkpoint(text) {
        Some(tagged) => parse_uuid(tagged),
        None => None,
    }
}

/// The checkpoint that the first of the parts to name one names.
fn checkpoint_in_parts(parts: &Vec<ContentPart>) -> (res: Option<u128>)
    ensures
        res == parts_checkpoint(parts.deep_view()),
{
    let ghost all = parts.deep_view();
    proof {
        assert(all.take(0).len() == 0);
    }
    for i in 0..parts.len()
        invariant
            all == parts.deep_view(),
            parts_checkpoint(all.take(i as int)) is None,
    {
        proof {
            assert(all.take(i + 1).drop_last() =~= all.take(i as int));
            assert(all.take(i + 1).last() == parts[i as int].deep_view());
        }
        if let Some(text) = &parts[i].text {
            let found = checkpoint_in_text(text.as_str());
            if found.is_some() {
                proof {
                    lemma_parts_checkpoint_stays(all, i + 1);
                }
                return found;
            }
        }
    }
    proof {
        assert(all.take(parts.len() as int) =~= all);
    }
    None
}

/// The checkpoint that a message of the assistant names.
fn checkpoint_in_message(message: &ChatMessage) -> (res: Option<u128>)
    ensures
        res == message_checkpoint(message.deep_view()),
{
    if message.role != Role::Assistant {
        return None;
    }
    match &message.content {
        Some(MessageContent::String(text)) => checkpoint_in_text(text.as_str()),
        Some(MessageContent::Array(parts)) => checkpoint_in_parts(parts),
        None => None,
    }
}

/// The checkpoint that the newest message of the assistant to name one names.
pub fn extract_last_checkpoint_id(messages: &[ChatMessage]) -> (res: Option<u128>)
    ensures
        res == last_checkpoint(messages.deep_view()),
{
    let ghost all = messages.deep_view();
    let mut end: usize = messages.len();
    proof {
        assert(all.take(end as int) =~= all);
    }
    while end > 0
        invariant
            end <= messages.len(),
            all == messages.deep_view(),
            last_checkpoint(all.take(end as int)) == last_checkpoint(all),
        decreases end,
    {
        proof {
            assert(all.take(end as int).last() == messages[end - 1].deep_view());
            assert(all.take(end as int).drop_last() =~= all.take(end - 1));
        }
        let found = checkpoint_in_message(&messages[end - 1]);
        if found.is_some() {
            return found;
        }
        end = end - 1;
    }
    None
}

/// The position found in the first messages is the one found in all of them.
proof fn lemma_nth_user_stays(messages: Seq<ChatMessageView>, end: int, n: nat)
    requires
        0 <= end <= messages.len(),
        nth_user_index(messages.take(end), n) is Some,
    ensures
        nth_user_index(messages, n) == nth_user_index(messages.take(end), n),
    decreases messages.len() - end,
{
    if end < messages.len() {
        assert(messages.take(end + 1).drop_last() =~= messages.take(end));
        lemma_nth_user_stays(messages, end + 1, n);
    } else {
        assert(messages.take(end) =~= messages);
    }
}

/// The checkpoint found in the first parts is the one found in all of them.
proof fn lemma_parts_checkpoint_stays(parts: Seq<ContentPartView>, end: int)
    requires
        0 <= end <= parts.len(),
        parts_checkpoint(parts.take(end)) is Some,
    ensures
        parts_checkpoint(parts) == parts_checkpoint(parts.take(end)),
    decreases parts.len() - end,
{
    if end < parts.len() {
        assert(parts.take(end + 1).drop_last() =~= parts.take(end));
        lemma_parts_checkpoint_stays(parts, end + 1);
    } else {
        assert(parts.take(end) =~= parts);
    }
}

/// The `n`th message of the user is a message of the user with `n - 1` others
/// before it, and it is found exactly where there are at least `n` of them; there
/// is no message number zero.
pub proof fn law_nth_user_index(messages: Seq<ChatMessageView>, n: nat)
    ensures
        nth_user_index(messages, n) is Some <==> 1 <= n <= user_count(messages),
        nth_user_index(messages, n) matches Some(index) ==> 0 <= index < messages.len()
            && messages[index].role == Role::User && user_count(messages.take(index)) == n - 1,
    decreases messages.len(),
{
    if messages.len() > 0 {
        let first = messages.drop_last();
        law_nth_user_index(first, n);
        match nth_user_index(first, n) {
            Some(index) => {
                assert(first.take(index) =~= messages.take(index));
            },
            None => {
                assert(messages.take(messages.len() - 1) =~= first);
            },
        }
    }
}

/// Putting messages behind the conversation that are not the assistant's leaves
/// the requested tool calls as they are.
pub proof fn lemma_requested_calls_append(messages: Seq<ChatMessageView>, more: Seq<ChatMessageView>)
    requires
        forall|i: int| 0 <= i < more.len() ==> (#[trigger] more[i]).role != Role::Assistant,
    ensures
        requested_calls(messages + more) == requested_calls(messages),
        last_assistant(messages + more) == last_assistant(messages),
    decreases more.len(),
{
    if more.len() == 0 {
        assert(messages + more =~= messages);
    } else {
        assert((messages + more).drop_last() =~= messages + more.drop_last());
        assert((messages + more).last() == more.last());
        assert forall|i: int| 0 <= i < more.drop_last().len() implies (#[trigger] more.drop_last()[i]).role
            != Role::Assistant by {
            assert(more.drop_last()[i] == more[i]);
        }
        lemma_requested_calls_append(messages, more.drop_last());
    }
}

/// Every requested tool call has a result exactly where none is unresolved.
pub proof fn lemma_unresolved_empty(messages: Seq<ChatMessageView>)
    ensures
        unresolved_ids(messages).len() == 0 <==> (forall|i: int|
            0 <= i < requested_calls(messages).len() ==> has_result(
                messages,
                (#[trigger] requested_calls(messages)[i]).id@,
            )),
{
    let ids = call_ids(requested_calls(messages));
    let missing = |id: Seq<char>| !has_result(messages, id);
    if unresolved_ids(messages).len() == 0 {
        assert forall|i: int| 0 <= i < requested_calls(messages).len() implies has_result(
            messages,
            (#[trigger] requested_calls(messages)[i]).id@,
        ) by {
            if missing(ids[i]) {
                ids.lemma_filter_contains(missing, i);
                assert(unresolved_ids(messages).contains(ids[i]));
            }
        }
    }
    if unresolved_ids(messages).len() > 0 {
        ids.lemma_filter_pred(missing, 0);
        ids.lemma_filter_contains_rev(missing, unresolved_ids(messages)[0]);
        let i = choose|i: int| 0 <= i < ids.len() && ids[i] == unresolved_ids(messages)[0];
        assert(requested_calls(messages)[i].id@ == ids[i]);
    }
}

/// Picking twice is picking what both want.
proof fn lemma_filter_twice(
    ids: Seq<Seq<char>>,
    first: spec_fn(Seq<char>) -> bool,
    second: spec_fn(Seq<char>) -> bool,
    both: spec_fn(Seq<char>) -> bool,
)
    requires
        forall|id: Seq<char>| #[trigger] both(id) <==> first(id) && second(id),
    ensures
        ids.filter(first).filter(second) == ids.filter(both),
    decreases ids.len(),
{
    if ids.len() == 0 {
        ids.lemma_filter_len(first);
        ids.lemma_filter_len(both);
        ids.filter(first).lemma_filter_len(second);
        assert(ids.filter(first).filter(second) =~= ids.filter(both));
    } else {
        let rest = ids.drop_last();
        let last = ids.last();
        lemma_filter_twice(rest, first, second, both);
        assert(ids =~= rest.push(last));
        rest.lemma_filter_push(last, first);
        rest.lemma_filter_push(last, both);
        rest.filter(first).lemma_filter_push(last, second);
        assert(both(last) <==> first(last) && second(last));
    }
}

/// Putting the result of a tool call behind the conversation resolves that call and no
/// other: exactly its id leaves the unresolved ones.
pub proof fn law_result_resolves_its_call(
    messages: Seq<ChatMessageView>,
    id: Seq<char>,
    text: Seq<char>,
)
    ensures
        unresolved_ids(messages.push(tool_result_message(id, text))) == unresolved_ids(
            messages,
        ).filter(|other: Seq<char>| other != id),
{
    let result = tool_result_message(id, text);
    let after = messages.push(result);
    let missing = |other: Seq<char>| !has_result(messages, other);
    let others = |other: Seq<char>| other != id;
    let still = |other: Seq<char>| !has_result(after, other);
    assert(after =~= messages + seq![result]);
    lemma_requested_calls_append(messages, seq![result]);
    assert forall|other: Seq<char>| #[trigger] still(other) <==> missing(other) && others(
        other,
    ) by {
        if has_result(messages, other) {
            let i = choose|i: int|
                0 <= i < messages.len() && is_result_of(#[trigger] messages[i], other);
            assert(is_result_of(after[i], other));
        }
        if other == id {
            assert(is_result_of(after[messages.len() as int], other));
        }
        if has_result(after, other) && other != id {
            let i = choose|i: int| 0 <= i < after.len() && is_result_of(#[trigger] after[i], other);
            assert(is_result_of(messages[i], other));
        }
    }
    lemma_filter_twice(call_ids(requested_calls(messages)), missing, others, still);
}

/// What stands before a tag is found where the tag does not stand in it already.
proof fn lemma_split_at_tag(before: Seq<char>, tag: Seq<char>, after: Seq<char>)
    requires
        tag.len() > 0,
        forall|k: int| 0 <= k < tag.len() ==> (#[trigger] tag[k] == '<' <==> k == 0),
        !occurs(before, tag),
    ensures
        split_first(before + tag + after, tag) == Some((before, after)),
    decreases before.len(),
{
    let text = before + tag + after;
    if before.len() == 0 {
        assert(text.subrange(0, tag.len() as int) =~= tag);
        assert(text.skip(tag.len() as int) =~= after);
        assert(before =~= Seq::empty());
    } else {
        if has_prefix(text, tag) {
            let front = text.subrange(0, tag.len() as int);
            if tag.len() <= before.len() {
                assert(before.subrange(0, tag.len() as int) =~= front);
                assert(occurs_at(before, tag, 0));
            } else {
                assert(front[before.len() as int] == tag[0]);
            }
        }
        let rest = before.drop_first();
        if occurs(rest, tag) {
            let at = choose|at: int| occurs_at(rest, tag, at);
            assert(before.subrange(at + 1, at + 1 + tag.len()) =~= rest.subrange(
                at,
                at + tag.len(),
            ));
            assert(occurs_at(before, tag, at + 1));
        }
        lemma_split_at_tag(rest, tag, after);
        assert(text.drop_first() =~= rest + tag + after);
        assert(before =~= seq![before[0]] + rest);
    }
}

/// The checkpoint that a text names between its first tags is the one that is read out of
/// it, whatever comes behind.
pub proof fn law_tagged_checkpoint_is_read(before: Seq<char>, id: u128, after: Seq<char>)
    requires
        !occurs(before, "<checkpoint_id>"@),
    ensures
        ({
            let text = before + "<checkpoint_id>"@ + (uuid_text(id) + "</checkpoint_id>"@ + after);
            &&& tagged_checkpoint(text) == Some(uuid_text(id))
            &&& text_checkpoint(text) == uuid_of_text(uuid_text(id))
        }),
{
    reveal_strlit("<checkpoint_id>");
    reveal_strlit("</checkpoint_id>");
    law_uuid_text(id);
    let name = uuid_text(id);
    let closing = "</checkpoint_id>"@;
    if occurs(name, closing) {
        let at = choose|at: int| occurs_at(name, closing, at);
        assert(name.subrange(at, at + closing.len())[0] == name[at]);
        assert(name[at] == '-' || is_hex_digit(name[at]));
    }
    lemma_split_at_tag(name, closing, after);
    lemma_split_at_tag(before, "<checkpoint_id>"@, name + closing + after);
}

/// The unresolved ids are among those of the requested calls, and none of them
/// has a result.
pub proof fn law_unresolved_are_requested(messages: Seq<ChatMessageView>, i: int)
    requires
        0 <= i < unresolved_ids(messages).len(),
    ensures
        call_ids(requested_calls(messages)).contains(unresolved_ids(messages)[i]),
        !has_result(messages, unresolved_ids(messages)[i]),
{
    let ids = call_ids(requested_calls(messages));
    let missing = |id: Seq<char>| !has_result(messages, id);
    ids.lemma_filter_pred(missing, i);
    ids.lemma_filter_contains_rev(missing, unresolved_ids(messages)[i]);
}

} // verus!
