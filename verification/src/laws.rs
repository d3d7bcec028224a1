//! What holds of conversations, reports and the texts at the start and the end: laws over
//! all inputs, in terms of the messages and texts themselves.
use vstd::prelude::*;
use vstd::string::*;

use crate::chat::{
    text_message, tool_result_message, ChatMessage, ChatMessageView, ContentPart, ContentPartView,
    ContentView, MessageContent, Role, ToolCall, ToolCallResult,
};
use crate::closing::{closing_texts, TerminalColors};
use crate::conversation::{
    call_ids, has_result, is_result_of, last_assistant, last_checkpoint, lemma_unresolved_empty,
    message_checkpoint, only_system, parts_checkpoint, pending, requested_calls, tagged_checkpoint,
    text_checkpoint, unresolved_ids, user_count,
};
use crate::ids::{uuid_of_text, uuid_text};
use crate::json::{json_members, json_string, metadata_member, metadata_session};
use crate::startup::init_prompt_text;
use crate::telemetry::{
    event_text, payload_of, settings_payload, TelemetryEvent, TelemetryEventView, TelemetryPayload,
    TelemetrySettings,
};
use crate::text::{has_prefix, occurs, occurs_at, split_first, trimmed};

verus! {

/// The model of a message leaves nothing of it out.
pub proof fn law_message_model_leaves_nothing_out(message: ChatMessage)
    ensures
        message.deep_view().role == message.role,
        message.deep_view().usage == message.usage,
        message.name matches Some(name) ==> message.deep_view().name == Some(name@),
        message.name is None ==> message.deep_view().name is None,
        message.tool_calls matches Some(calls) ==> message.deep_view().tool_calls == Some(calls@),
        message.tool_calls is None ==> message.deep_view().tool_calls is None,
        message.tool_call_id matches Some(id) ==> message.deep_view().tool_call_id == Some(id@),
        message.tool_call_id is None ==> message.deep_view().tool_call_id is None,
        message.content is None ==> message.deep_view().content is None,
        message.content matches Some(MessageContent::String(text)) ==> message.deep_view().content
            == Some(ContentView::Text(text@)),
        message.content matches Some(MessageContent::Array(parts)) ==> (
        message.deep_view().content matches Some(ContentView::Parts(views)) && views.len()
            == parts.len() && forall|i: int|
            0 <= i < parts.len() ==> #[trigger] views[i] == parts[i].deep_view()),
{
}

/// The models of a part and of a tool's result leave nothing of them out.
pub proof fn law_part_model_leaves_nothing_out(part: ContentPart, result: ToolCallResult)
    ensures
        part.deep_view().kind == part.kind@,
        part.deep_view().image_url == part.image_url,
        part.text matches Some(text) ==> part.deep_view().text == Some(text@),
        part.text is None ==> part.deep_view().text is None,
        result.deep_view().call == result.call,
        result.deep_view().result == result.result@,
        result.deep_view().status == result.status,
{
}

/// A plain message says its text under its role; a result names its call besides.
pub proof fn law_plain_messages(role: Role, id: Seq<char>, text: Seq<char>)
    ensures
        text_message(role, text).role == role,
        text_message(role, text).content == Some(ContentView::Text(text)),
        text_message(role, text).name is None,
        text_message(role, text).tool_calls is None,
        text_message(role, text).tool_call_id is None,
        text_message(role, text).usage is None,
        tool_result_message(id, text).role == Role::Tool,
        tool_result_message(id, text).content == Some(ContentView::Text(text)),
        tool_result_message(id, text).name is None,
        tool_result_message(id, text).tool_calls is None,
        tool_result_message(id, text).tool_call_id == Some(id),
        tool_result_message(id, text).usage is None,
{
}

/// The message at `i` is the last one of the assistant.
pub open spec fn is_last_of_assistant(messages: Seq<ChatMessageView>, i: int) -> bool {
    &&& 0 <= i < messages.len()
    &&& messages[i].role == Role::Assistant
    &&& forall|j: int| i < j < messages.len() ==> (#[trigger] messages[j]).role != Role::Assistant
}

/// The tool calls asked for are all of those, and only those, in the last message of the
/// assistant, whatever others have said since.
pub proof fn law_last_assistant_asks(messages: Seq<ChatMessageView>, i: int)
    requires
        is_last_of_assistant(messages, i),
    ensures
        last_assistant(messages) == Some(messages[i]),
        messages[i].tool_calls matches Some(calls) ==> requested_calls(messages) == calls,
        messages[i].tool_calls is None ==> requested_calls(messages).len() == 0,
    decreases messages.len(),
{
    if i < messages.len() - 1 {
        let first = messages.drop_last();
        assert forall|j: int| i < j < first.len() implies (#[trigger] first[j]).role
            != Role::Assistant by {
            assert(first[j] == messages[j]);
        }
        assert(messages[messages.len() - 1].role != Role::Assistant);
        law_last_assistant_asks(first, i);
    }
}

/// Without a message of the assistant nothing is asked for.
pub proof fn law_nobody_asks(messages: Seq<ChatMessageView>)
    requires
        forall|i: int| 0 <= i < messages.len() ==> (#[trigger] messages[i]).role != Role::Assistant,
    ensures
        last_assistant(messages) is None,
        requested_calls(messages).len() == 0,
        unresolved_ids(messages).len() == 0,
    decreases messages.len(),
{
    if messages.len() > 0 {
        let first = messages.drop_last();
        assert forall|j: int| 0 <= j < first.len() implies (#[trigger] first[j]).role
            != Role::Assistant by {
            assert(first[j] == messages[j]);
        }
        assert(messages[messages.len() - 1].role != Role::Assistant);
        law_nobody_asks(first);
    }
    lemma_unresolved_empty(messages);
}

/// The message is the result of the tool call `id`.
pub open spec fn answers_call(message: ChatMessageView, id: Seq<char>) -> bool {
    &&& message.role == Role::Tool
    &&& message.tool_call_id == Some(id)
}

/// A call is unresolved exactly where the last message of the assistant asks for it and no
/// message is its result.
pub proof fn law_unresolved_exactly(messages: Seq<ChatMessageView>, i: int, id: Seq<char>)
    requires
        is_last_of_assistant(messages, i),
    ensures
        unresolved_ids(messages).contains(id) <==> {
            &&& messages[i].tool_calls matches Some(calls)
            &&& exists|k: int| 0 <= k < calls.len() && (#[trigger] calls[k]).id@ == id
            &&& forall|j: int|
                0 <= j < messages.len() ==> !answers_call(#[trigger] messages[j], id)
        },
{
    law_last_assistant_asks(messages, i);
    let calls = requested_calls(messages);
    let ids = call_ids(calls);
    let missing = |id: Seq<char>| !has_result(messages, id);
    if unresolved_ids(messages).contains(id) {
        let at = choose|at: int|
            0 <= at < unresolved_ids(messages).len() && unresolved_ids(messages)[at] == id;
        ids.lemma_filter_pred(missing, at);
        ids.lemma_filter_contains_rev(missing, id);
        let k = choose|k: int| 0 <= k < ids.len() && ids[k] == id;
        assert(calls[k].id@ == id);
        assert forall|j: int| 0 <= j < messages.len() implies !answers_call(
            #[trigger] messages[j],
            id,
        ) by {
            assert(!is_result_of(messages[j], id));
        }
    }
    if messages[i].tool_calls is Some && (exists|k: int|
        0 <= k < calls.len() && (#[trigger] calls[k]).id@ == id) && (forall|j: int|
        0 <= j < messages.len() ==> !answers_call(#[trigger] messages[j], id)) {
        let k = choose|k: int| 0 <= k < calls.len() && (#[trigger] calls[k]).id@ == id;
        assert(ids[k] == id);
        if has_result(messages, id) {
            let j = choose|j: int| 0 <= j < messages.len() && is_result_of(
                #[trigger] messages[j],
                id,
            );
            assert(answers_call(messages[j], id));
        }
        ids.lemma_filter_contains(missing, k);
    }
}

/// As long as no call has its result, all of those asked for are unresolved, in the order
/// in which they were asked for.
pub proof fn law_nothing_is_resolved_before_results(messages: Seq<ChatMessageView>, i: int)
    requires
        is_last_of_assistant(messages, i),
        messages[i].tool_calls is Some,
        forall|j: int| 0 <= j < messages.len() ==> (#[trigger] messages[j]).role != Role::Tool,
    ensures
        unresolved_ids(messages).len() == messages[i].tool_calls->0.len(),
        forall|k: int|
            0 <= k < unresolved_ids(messages).len() ==> #[trigger] unresolved_ids(messages)[k]
                == messages[i].tool_calls->0[k].id@,
{
    law_last_assistant_asks(messages, i);
    let missing = |id: Seq<char>| !has_result(messages, id);
    assert forall|id: Seq<char>| #[trigger] missing(id) by {
        if has_result(messages, id) {
            let j = choose|j: int| 0 <= j < messages.len() && is_result_of(
                #[trigger] messages[j],
                id,
            );
            assert(messages[j].role != Role::Tool);
        }
    }
    lemma_filter_takes_all(call_ids(requested_calls(messages)), missing);
}

/// Picking out what everything is picks out everything.
proof fn lemma_filter_takes_all(ids: Seq<Seq<char>>, wanted: spec_fn(Seq<char>) -> bool)
    requires
        forall|id: Seq<char>| #[trigger] wanted(id),
    ensures
        ids.filter(wanted) == ids,
    decreases ids.len(),
{
    if ids.len() == 0 {
        ids.lemma_filter_len(wanted);
        assert(ids.filter(wanted) =~= ids);
    } else {
        let rest = ids.drop_last();
        lemma_filter_takes_all(rest, wanted);
        assert(ids =~= rest.push(ids.last()));
        rest.lemma_filter_push(ids.last(), wanted);
        assert(wanted(ids.last()));
    }
}

/// Something is pending exactly where a call waits or one that was asked for has no result.
pub proof fn law_pending_exactly(messages: Seq<ChatMessageView>, queue: Seq<ToolCall>)
    ensures
        queue.len() > 0 ==> pending(messages, queue),
        queue.len() == 0 ==> (pending(messages, queue) <==> exists|k: int|
            0 <= k < requested_calls(messages).len() && forall|j: int|
                0 <= j < messages.len() ==> !answers_call(
                    #[trigger] messages[j],
                    (#[trigger] requested_calls(messages)[k]).id@,
                )),
{
    lemma_unresolved_empty(messages);
    let calls = requested_calls(messages);
    if unresolved_ids(messages).len() > 0 {
        let k = choose|k: int|
            0 <= k < calls.len() && !has_result(messages, (#[trigger] calls[k]).id@);
        assert forall|j: int| 0 <= j < messages.len() implies !answers_call(
            #[trigger] messages[j],
            calls[k].id@,
        ) by {
            assert(!is_result_of(messages[j], calls[k].id@));
        }
    } else {
        assert forall|k: int| 0 <= k < calls.len() implies exists|j: int|
            0 <= j < messages.len() && answers_call(
                #[trigger] messages[j],
                (#[trigger] calls[k]).id@,
            ) by {
            assert(has_result(messages, calls[k].id@));
            let j = choose|j: int| 0 <= j < messages.len() && is_result_of(
                #[trigger] messages[j],
                calls[k].id@,
            );
            assert(answers_call(messages[j], calls[k].id@));
        }
    }
}

/// The user's messages in two conversations, one behind the other, are those of both.
pub proof fn law_user_count_adds_up(
    a: Seq<ChatMessageView>,
    b: Seq<ChatMessageView>,
    message: ChatMessageView,
)
    ensures
        user_count(a + b) == user_count(a) + user_count(b),
        user_count(seq![message]) == (if message.role == Role::User {
            1nat
        } else {
            0nat
        }),
    decreases b.len(),
{
    assert(seq![message].drop_last() =~= Seq::empty());
    assert(user_count(Seq::empty()) == 0);
    if b.len() == 0 {
        assert(a + b =~= a);
    } else {
        assert((a + b).drop_last() =~= a + b.drop_last());
        law_user_count_adds_up(a, b.drop_last(), message);
    }
}

/// A conversation holds system messages alone exactly where both its parts do, and one
/// other message ends that.
pub proof fn law_only_system(a: Seq<ChatMessageView>, b: Seq<ChatMessageView>, i: int)
    ensures
        only_system(a + b) <==> only_system(a) && only_system(b),
        only_system(Seq::empty()),
        0 <= i < a.len() && a[i].role != Role::System ==> !only_system(a),
{
    if only_system(a + b) {
        assert forall|j: int| 0 <= j < a.len() implies (#[trigger] a[j]).role == Role::System by {
            assert((a + b)[j] == a[j]);
        }
        assert forall|j: int| 0 <= j < b.len() implies (#[trigger] b[j]).role == Role::System by {
            assert((a + b)[a.len() + j] == b[j]);
        }
    }
}

/// The checkpoint reached is the one that the newest message to name any names.
pub proof fn law_newest_checkpoint_counts(messages: Seq<ChatMessageView>, i: int)
    requires
        0 <= i < messages.len(),
        message_checkpoint(messages[i]) is Some,
        forall|j: int|
            i < j < messages.len() ==> message_checkpoint(#[trigger] messages[j]) is None,
    ensures
        last_checkpoint(messages) == message_checkpoint(messages[i]),
    decreases messages.len(),
{
    if i < messages.len() - 1 {
        let first = messages.drop_last();
        assert forall|j: int| i < j < first.len() implies message_checkpoint(
            #[trigger] first[j],
        ) is None by {
            assert(first[j] == messages[j]);
        }
        assert(message_checkpoint(messages[messages.len() - 1]) is None);
        law_newest_checkpoint_counts(first, i);
    }
}

/// Where no message names a checkpoint, none was reached.
pub proof fn law_no_checkpoint_without_a_name(messages: Seq<ChatMessageView>)
    requires
        forall|j: int|
            0 <= j < messages.len() ==> message_checkpoint(#[trigger] messages[j]) is None,
    ensures
        last_checkpoint(messages) is None,
    decreases messages.len(),
{
    if messages.len() > 0 {
        let first = messages.drop_last();
        assert forall|j: int| 0 <= j < first.len() implies message_checkpoint(
            #[trigger] first[j],
        ) is None by {
            assert(first[j] == messages[j]);
        }
        assert(message_checkpoint(messages[messages.len() - 1]) is None);
        law_no_checkpoint_without_a_name(first);
    }
}

/// The checkpoint that a part names.
pub open spec fn part_checkpoint(part: ContentPartView) -> Option<u128> {
    match part.text {
        Some(text) => text_checkpoint(text),
        None => None,
    }
}

/// Of several parts the first to name a checkpoint counts; without one there is none.
pub proof fn law_first_part_counts(parts: Seq<ContentPartView>, i: int)
    requires
        0 <= i <= parts.len(),
        forall|j: int| 0 <= j < i ==> part_checkpoint(#[trigger] parts[j]) is None,
    ensures
        i == parts.len() ==> parts_checkpoint(parts) is None,
        i < parts.len() && part_checkpoint(parts[i]) is Some ==> parts_checkpoint(parts)
            == part_checkpoint(parts[i]),
    decreases parts.len(),
{
    if parts.len() > 0 {
        let first = parts.drop_last();
        if i < parts.len() {
            assert forall|j: int| 0 <= j < i implies part_checkpoint(#[trigger] first[j]) is None by {
                assert(first[j] == parts[j]);
            }
            law_first_part_counts(first, i);
        } else {
            assert forall|j: int| 0 <= j < first.len() implies part_checkpoint(
                #[trigger] first[j],
            ) is None by {
                assert(first[j] == parts[j]);
            }
            assert(part_checkpoint(parts[parts.len() - 1]) is None);
            law_first_part_counts(first, first.len() as int);
        }
    }
}

/// Only the assistant names checkpoints; where it does, its text or its parts decide.
pub proof fn law_assistant_names_checkpoints(message: ChatMessageView)
    ensures
        message.role != Role::Assistant ==> message_checkpoint(message) is None,
        message.content is None ==> message_checkpoint(message) is None,
        message.role == Role::Assistant ==> {
            &&& message.content matches Some(ContentView::Text(text)) ==> message_checkpoint(
                message,
            ) == text_checkpoint(text)
            &&& message.content matches Some(ContentView::Parts(parts)) ==> message_checkpoint(
                message,
            ) == parts_checkpoint(parts)
        },
{
}

/// What a text is split into gives the text back, with the delimiter between; a text
/// without the delimiter is not split, and one with it is.
pub proof fn law_split_gives_the_text_back(text: Seq<char>, delimiter: Seq<char>)
    ensures
        split_first(text, delimiter) is Some <==> occurs(text, delimiter),
        split_first(text, delimiter) matches Some((before, after)) ==> text == before + delimiter
            + after,
        forall|at: int|
            occurs_at(text, delimiter, at) ==> (split_first(text, delimiter) matches Some(
                (before, _),
            ) && before.len() <= at),
    decreases text.len(),
{
    if has_prefix(text, delimiter) {
        assert(occurs_at(text, delimiter, 0));
        assert(text =~= Seq::empty() + delimiter + text.skip(delimiter.len() as int));
    } else if text.len() > 0 {
        let rest = text.drop_first();
        law_split_gives_the_text_back(rest, delimiter);
        assert forall|at: int| occurs_at(text, delimiter, at) implies occurs_at(
            rest,
            delimiter,
            at - 1,
        ) by {
            assert(at > 0);
            assert(rest.subrange(at - 1, at - 1 + delimiter.len()) =~= text.subrange(
                at,
                at + delimiter.len(),
            ));
        }
        if let Some((before, after)) = split_first(rest, delimiter) {
            let at = choose|at: int| occurs_at(rest, delimiter, at);
            assert(text.subrange(at + 1, at + 1 + delimiter.len()) =~= rest.subrange(
                at,
                at + delimiter.len(),
            ));
            assert(occurs_at(text, delimiter, at + 1));
            assert(text =~= seq![text[0]] + rest);
            assert(seq![text[0]] + (before + delimiter + after) =~= (seq![text[0]] + before)
                + delimiter + after);
        }
    }
}

/// A text without the tag names no checkpoint, and what stands in the tag is read, where it
/// is read at all, out of that very text.
pub proof fn law_checkpoint_stands_in_its_tag(text: Seq<char>)
    ensures
        !occurs(text, "<checkpoint_id>"@) ==> text_checkpoint(text) is None,
        tagged_checkpoint(text) matches Some(tagged) ==> {
            &&& occurs(text, "<checkpoint_id>"@ + tagged + "</checkpoint_id>"@)
            &&& text_checkpoint(text) == uuid_of_text(tagged)
        },
        tagged_checkpoint(text) is None ==> text_checkpoint(text) is None,
{
    let opening = "<checkpoint_id>"@;
    let closing = "</checkpoint_id>"@;
    law_split_gives_the_text_back(text, opening);
    if let Some((before, rest)) = split_first(text, opening) {
        law_split_gives_the_text_back(rest, closing);
        if let Some((tagged, after)) = split_first(rest, closing) {
            let whole = opening + tagged + closing;
            assert(text =~= before + whole + after);
            let at = before.len() as int;
            assert(text.subrange(at, at + whole.len()) =~= whole);
            assert(occurs_at(text, whole, at));
        }
    }
}

/// What is sent about an event says what happened, on which machine and by whom, as far as
/// that is known, and nothing else varies.
pub proof fn law_report_says_what_happened(
    settings: TelemetrySettings,
    id: Seq<char>,
    machine: Option<Seq<char>>,
    event: TelemetryEventView,
)
    ensures
        payload_of(id, machine, true, event) matches Some(payload) && {
            &&& payload.event == event
            &&& payload.user_id == id
            &&& payload.provider == "Local"@
            &&& machine is Some ==> payload.machine_name == machine->0
            &&& machine is None ==> payload.machine_name.len() == 0
        },
        payload_of(id, machine, false, event) is None,
        settings_payload(settings, event) matches Some(payload) ==> {
            &&& payload.event == event
            &&& settings.anonymous_id is Some
            &&& payload.user_id == settings.anonymous_id->0@
            &&& payload.provider == "Local"@
            &&& settings.machine_name matches Some(name) ==> payload.machine_name == name@
            &&& settings.machine_name is None ==> payload.machine_name.len() == 0
        },
{
}

/// The model of a report leaves nothing of it out, and a command is written with its name
/// before the words that say it was called.
pub proof fn law_report_model_leaves_nothing_out(payload: TelemetryPayload, name: Seq<char>)
    ensures
        payload.deep_view().event == payload.event@,
        payload.deep_view().machine_name == payload.machine_name@,
        payload.deep_view().provider == payload.provider@,
        payload.deep_view().user_id == payload.user_id@,
        payload.event matches TelemetryEvent::CommandCalled(name) ==> payload.event@
            == TelemetryEventView::CommandCalled(name@),
        payload.event is FirstOpen <==> payload.event@ is FirstOpen,
        payload.event is UserPrompted <==> payload.event@ is UserPrompted,
        event_text(TelemetryEventView::CommandCalled(name)) == name + "_command_called"@,
        event_text(TelemetryEventView::FirstOpen) == "FirstOpen"@,
        event_text(TelemetryEventView::UserPrompted) == "UserPrompted"@,
{
}

/// The metadata names a session only through its member for that, which is a string; what
/// that string names is the session.
pub proof fn law_metadata_names_the_session(value: serde_json::Value, key: Seq<char>)
    ensures
        metadata_session(None) is None,
        metadata_member(None, key) is None,
        metadata_member(Some(value), key) is Some <==> json_members(value).contains_key(key),
        json_members(value).contains_key(key) ==> metadata_member(Some(value), key) == Some(
            json_members(value)[key],
        ),
        !json_members(value).contains_key("session_id"@) ==> metadata_session(Some(value)) is None,
        json_members(value).contains_key("session_id"@) ==> {
            let member = json_members(value)["session_id"@];
            &&& json_string(member) is None ==> metadata_session(Some(value)) is None
            &&& json_string(member) matches Some(text) ==> metadata_session(Some(value))
                == uuid_of_text(text)
        },
{
}

/// The prompt for a first look begins with its base text. What was found follows it in its
/// own tags, without the whitespace around it; nothing follows where nothing was found.
pub proof fn law_init_prompt_keeps_its_base(base: Seq<char>, discovery: Seq<char>)
    ensures
        has_prefix(init_prompt_text(base, discovery), base),
        discovery.len() == 0 ==> init_prompt_text(base, discovery) == base,
        discovery.len() > 0 ==> init_prompt_text(base, discovery).skip(base.len() as int)
            == "\n\n<discovery_results>\n"@ + trimmed(discovery) + "</discovery_results>"@,
{
    let text = init_prompt_text(base, discovery);
    assert(text.subrange(0, base.len() as int) =~= base);
    if discovery.len() > 0 {
        assert(text.skip(base.len() as int) =~= "\n\n<discovery_results>\n"@ + trimmed(discovery)
            + "</discovery_results>"@);
    }
}

/// At the end the user is told how to resume the session, where that is known, and where to
/// see it, where it has an id, in this order; then, between two empty lines, where to
/// complain.
pub proof fn law_closing_tells_what_is_known(
    command: Option<Seq<char>>,
    id: Option<u128>,
    username: Seq<char>,
    colors: TerminalColors,
)
    ensures
        ({
            let texts = closing_texts(command, id, username, colors);
            let resume: int = if command is Some {
                1
            } else {
                0
            };
            let browser: int = if id is Some {
                1
            } else {
                0
            };
            &&& texts.len() == resume + browser + 3
            &&& command matches Some(command) ==> texts[0] == "To resume, run:\n"@ + command + "\n"@
            &&& id matches Some(id) ==> texts[resume]
                == "To view full session in browser:\nhttps://stakpak.dev/"@ + username
                + "/agent-sessions/"@ + uuid_text(id)
            &&& texts[resume + browser] == ""@
            &&& texts[resume + browser + 1] == colors.magenta@ + "Feedback or bug report?"@
                + colors.reset@ + " "@ + colors.orange@ + "Join our Discord:"@ + colors.reset@
                + " "@ + colors.orange@ + "https://discord.gg/c4HUkDD45d"@ + colors.reset@
            &&& texts[resume + browser + 2] == ""@
        }),
{
}

} // verus!
