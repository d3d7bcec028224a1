//! The prompt that asks the agent for a summary of the session.
use vstd::prelude::*;
use vstd::string::*;

use crate::app_state::{AppState, Message, MessageContent, MessageContentView, MessageView};
use crate::events::Model;
use crate::text::{
    begins_with, decimal, decimal_text, has_prefix, strip_prefix, stripped, trim, trimmed,
};

verus! {

/// How many of the user's latest inputs the prompt repeats.
pub const RECENT_INPUTS: usize = 6;

/// What the user entered, as a message on the screen shows it: the text behind an arrow,
/// or a slash command.
pub open spec fn entered(text: Seq<char>) -> Option<Seq<char>> {
    match stripped(trimmed(text), "→ "@) {
        Some(rest) => Some(trimmed(rest)),
        None => if has_prefix(trimmed(text), "/"@) {
            Some(trimmed(text))
        } else {
            None
        },
    }
}

/// What the user entered, if the message shows such a thing.
pub open spec fn input_in(message: MessageView) -> Option<Seq<char>> {
    match message.content {
        MessageContentView::Plain(text, _) => entered(text),
        MessageContentView::PlainText(text) => entered(text),
        MessageContentView::UserMessage(_) => None,
        MessageContentView::Block(_) => None,
    }
}

/// A list of one or no item.
pub open spec fn listed(item: Option<Seq<char>>) -> Seq<Seq<char>> {
    match item {
        Some(text) => seq![text],
        None => Seq::empty(),
    }
}

/// What the user entered, oldest first.
pub open spec fn inputs_in(messages: Seq<MessageView>) -> Seq<Seq<char>>
    decreases messages.len(),
{
    if messages.len() == 0 {
        Seq::empty()
    } else {
        listed(input_in(messages[0])) + inputs_in(messages.drop_first())
    }
}

/// The last `count` items of a list; all of it where there are no more.
pub open spec fn last_of(items: Seq<Seq<char>>, count: nat) -> Seq<Seq<char>> {
    if items.len() <= count {
        items
    } else {
        items.skip(items.len() - count)
    }
}

/// The user's latest inputs, oldest first: at most `limit` of them. The newest message
/// is looked at in any case.
pub open spec fn recent_inputs(messages: Seq<MessageView>, limit: nat) -> Seq<Seq<char>> {
    if limit == 0 && messages.len() > 0 {
        listed(input_in(messages.last()))
    } else {
        last_of(inputs_in(messages), limit)
    }
}

/// The inputs of two lists of messages, one behind the other.
proof fn lemma_inputs_split(messages: Seq<MessageView>, at: int)
    requires
        0 <= at <= messages.len(),
    ensures
        inputs_in(messages) == inputs_in(messages.take(at)) + inputs_in(messages.skip(at)),
    decreases messages.len(),
{
    if at == 0 {
        assert(messages.skip(0) =~= messages);
        assert(inputs_in(messages.take(0)) =~= Seq::<Seq<char>>::empty());
        assert(inputs_in(messages) =~= Seq::<Seq<char>>::empty() + inputs_in(messages));
    } else {
        let rest = messages.drop_first();
        lemma_inputs_split(rest, at - 1);
        assert(messages.take(at)[0] == messages[0]);
        assert(messages.take(at).drop_first() =~= rest.take(at - 1));
        assert(messages.skip(at) =~= rest.skip(at - 1));
        assert(inputs_in(messages) =~= inputs_in(messages.take(at)) + inputs_in(messages.skip(at)));
    }
}

/// What the user entered in a text of the screen.
fn entered_in(text: &str) -> (res: Option<String>)
    ensures
        res.deep_view() == entered(text@),
{
    let shown = trim(text);
    match strip_prefix(shown, "→ ") {
        Some(rest) => Some(trim(rest).to_string()),
        None => if begins_with(shown, "/") {
            Some(shown.to_string())
        } else {
            None
        },
    }
}

/// What the user entered, if the message shows such a thing.
fn input_of(message: &Message) -> (res: Option<String>)
    ensures
        res.deep_view() == input_in(message.deep_view()),
{
    match &message.content {
        MessageContent::Plain(text, _) => entered_in(text.as_str()),
        MessageContent::PlainText(text) => entered_in(text.as_str()),
        MessageContent::UserMessage(_) => None,
        MessageContent::Block(_) => None,
    }
}

/// The user's latest inputs, oldest first.
pub fn collect_recent_user_inputs(state: &AppState, limit: usize) -> (res: Vec<String>)
    ensures
        res.deep_view() == recent_inputs(
            state.messages_scrolling_state.messages.deep_view(),
            limit as nat,
        ),
{
    let messages = &state.messages_scrolling_state.messages;
    let ghost all = messages.deep_view();
    let mut entries: Vec<String> = Vec::new();
    let mut i: usize = messages.len();
    proof {
        assert(all.skip(all.len() as int) =~= Seq::empty());
        assert(entries.deep_view() =~= inputs_in(all.skip(i as int)));
    }
    while i > 0
        invariant
            i <= messages.len(),
            all == state.messages_scrolling_state.messages.deep_view(),
            messages == &state.messages_scrolling_state.messages,
            entries.deep_view() == inputs_in(all.skip(i as int)),
            i < messages.len() ==> entries.len() < limit,
            i == messages.len() ==> entries.len() == 0,
        decreases i,
    {
        let ghost before = entries.deep_view();
        i = i - 1;
        proof {
            assert(all.skip(i as int)[0] == all[i as int]);
            assert(all.skip(i as int).drop_first() =~= all.skip(i + 1));
        }
        if let Some(text) = input_of(&messages[i]) {
            let ghost shown = text@;
            entries.insert(0, text);
            proof {
                assert(entries.deep_view() =~= seq![shown] + before);
            }
        } else {
            proof {
                assert(before =~= Seq::<Seq<char>>::empty() + before);
            }
        }
        if entries.len() >= limit {
            proof {
                lemma_inputs_split(all, i as int);
                let earlier = inputs_in(all.take(i as int));
                if limit == 0 {
                    assert(i == messages.len() - 1);
                    assert(all.skip(i + 1) =~= Seq::empty());
                    assert(entries.deep_view() =~= listed(input_in(all.last())));
                } else {
                    assert(entries.deep_view() =~= (earlier + entries.deep_view()).skip(
                        earlier.len() as int,
                    ));
                    assert(entries.deep_view() =~= last_of(inputs_in(all), limit as nat));
                }
            }
            return entries;
        }
    }
    proof {
        assert(all.skip(0) =~= all);
    }
    entries
}

/// The model that answers: the one of the stream, or else the configured one.
pub open spec fn active_model(state: AppState) -> Model {
    match state.model_switcher_state.current_model {
        Some(model) => model,
        None => state.configuration_state.model,
    }
}

/// The tokens of the session so far, and those that the model takes, as a 32-bit count.
pub fn context_figures(state: &AppState) -> (res: (u32, u32))
    ensures
        res.0 == state.usage_tracking_state.total_session_usage.total_tokens,
        res.1 == active_model(*state).limit.context as u32,
{
    let limit = match &state.model_switcher_state.current_model {
        Some(model) => model.limit.context,
        None => state.configuration_state.model.limit.context,
    };
    let takes: u32 = #[verifier::truncate]
    (limit as u32);
    (state.usage_tracking_state.total_session_usage.total_tokens, takes)
}

/// One line for each input.
pub open spec fn input_lines(inputs: Seq<Seq<char>>) -> Seq<char>
    decreases inputs.len(),
{
    if inputs.len() == 0 {
        Seq::empty()
    } else {
        input_lines(inputs.drop_last()) + "- "@ + inputs.last() + "\n"@
    }
}

/// The part of the prompt that repeats the user's inputs; nothing where there are none.
pub open spec fn input_section(inputs: Seq<Seq<char>>) -> Seq<char> {
    if inputs.len() == 0 {
        Seq::empty()
    } else {
        "\n"@ + "Recent user inputs to emphasize:\n"@ + input_lines(inputs)
    }
}

/// The part of the prompt that gives the figures of the session.
pub open spec fn snapshot(
    profile: Seq<char>,
    total: nat,
    prompt: nat,
    completion: nat,
    context_usage: Seq<char>,
    takes: nat,
) -> Seq<char> {
    "\n"@ + "Session snapshot:\n"@ + "- Active profile: "@ + profile + "\n"@
        + "- Total tokens used: "@ + decimal(total) + " (prompt: "@ + decimal(prompt)
        + ", completion: "@ + decimal(completion) + ")\n"@ + "- Context window usage: "@
        + context_usage + "% of "@ + decimal(takes) + " tokens\n"@
}

/// The prompt that asks for a summary: the instructions in `base`, the figures of the
/// session, the user's latest inputs and how to hand the summary in.
pub open spec fn summarize_prompt(
    state: AppState,
    base: Seq<char>,
    context_usage: Seq<char>,
) -> Seq<char> {
    let usage = state.usage_tracking_state.total_session_usage;
    base + snapshot(
        state.profile_switcher_state.current_profile_name@,
        usage.total_tokens as nat,
        usage.prompt_tokens as nat,
        usage.completion_tokens as nat,
        context_usage,
        (active_model(state).limit.context as u32) as nat,
    ) + input_section(
        recent_inputs(state.messages_scrolling_state.messages.deep_view(), RECENT_INPUTS as nat),
    ) + "\n"@
        + "Be precise, note outstanding TODOs or follow-ups, and reflect any cost or context considerations mentioned earlier.\n"@
        + "When ready, create or overwrite `summary.md` using the tool call and populate it with the markdown summary.\n"@
}

/// The figures of the session.
fn write_snapshot(state: &AppState, context_usage: &str) -> (res: String)
    ensures
        res@ == snapshot(
            state.profile_switcher_state.current_profile_name@,
            state.usage_tracking_state.total_session_usage.total_tokens as nat,
            state.usage_tracking_state.total_session_usage.prompt_tokens as nat,
            state.usage_tracking_state.total_session_usage.completion_tokens as nat,
            context_usage@,
            (active_model(*state).limit.context as u32) as nat,
        ),
{
    let usage = &state.usage_tracking_state.total_session_usage;
    let (total, takes) = context_figures(state);
    let mut text = "\n".to_string();
    text.append("Session snapshot:\n");
    text.append("- Active profile: ");
    text.append(state.profile_switcher_state.current_profile_name.as_str());
    text.append("\n");
    text.append("- Total tokens used: ");
    text.append(decimal_text(total as u64).as_str());
    text.append(" (prompt: ");
    text.append(decimal_text(usage.prompt_tokens as u64).as_str());
    text.append(", completion: ");
    text.append(decimal_text(usage.completion_tokens as u64).as_str());
    text.append(")\n");
    text.append("- Context window usage: ");
    text.append(context_usage);
    text.append("% of ");
    text.append(decimal_text(takes as u64).as_str());
    text.append(" tokens\n");
    text
}

/// The part of the prompt that repeats the user's inputs.
fn write_inputs(inputs: &Vec<String>) -> (res: String)
    ensures
        res@ == input_section(inputs.deep_view()),
{
    let mut text = String::new();
    if inputs.len() == 0 {
        return text;
    }
    text.append("\n");
    text.append("Recent user inputs to emphasize:\n");
    let ghost head = "\n"@ + "Recent user inputs to emphasize:\n"@;
    proof {
        assert(text@ =~= head + input_lines(inputs.deep_view().take(0)));
    }
    for i in 0..inputs.len()
        invariant
            text@ == head + input_lines(inputs.deep_view().take(i as int)),
    {
        proof {
            let shown = inputs.deep_view().take(i + 1);
            assert(shown.drop_last() =~= inputs.deep_view().take(i as int));
            assert(shown.last() == inputs[i as int]@);
        }
        text.append("- ");
        text.append(inputs[i].as_str());
        text.append("\n");
        proof {
            assert(text@ =~= head + input_lines(inputs.deep_view().take(i + 1)));
        }
    }
    proof {
        assert(inputs.deep_view().take(inputs.len() as int) =~= inputs.deep_view());
    }
    text
}

/// The prompt that asks for a summary. `context_usage` says how much of the model's
/// context is used, in percent.
pub fn build_summarize_prompt(state: &AppState, base: &str, context_usage: &str) -> (res: String)
    ensures
        res@ == summarize_prompt(*state, base@, context_usage@),
{
    let inputs = collect_recent_user_inputs(state, RECENT_INPUTS);
    let mut prompt = base.to_string();
    prompt.append(write_snapshot(state, context_usage).as_str());
    prompt.append(write_inputs(&inputs).as_str());
    prompt.append("\n");
    prompt.append(
        "Be precise, note outstanding TODOs or follow-ups, and reflect any cost or context considerations mentioned earlier.\n",
    );
    prompt.append(
        "When ready, create or overwrite `summary.md` using the tool call and populate it with the markdown summary.\n",
    );
    prompt
}

} // verus!
