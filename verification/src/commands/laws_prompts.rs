//! What holds of the prompts that commands send and of the lists that they show.
use vstd::prelude::*;
use vstd::string::*;

use super::laws_state::{only_input_differs, reads};
use crate::app_state::{
    AppState, AutoApprovePolicy, CommandSource, EffectView, HelperCommand, MessageContentView,
    MessageView, ShellPopupState, ToolPolicy,
};
use crate::commands::approvals::{allows, auto_approved, list_shown, list_spaced, needs_no_approval};
use crate::commands::prompts::{
    argument, filled, init_effects, init_requests, initialised, prompt_effects, prompt_of,
    prompt_requests, prompt_sent, prompted, request, shown_prompt,
};
use crate::commands::registry::{answers, left_by, palette, CommandView};
use crate::commands::summary::{
    active_model, entered, input_in, input_lines, input_section, inputs_in, recent_inputs, snapshot,
    summarize_prompt,
};
use crate::events::OutputEventView;
use crate::text::{
    decimal, has_prefix, joined, lowercase, occurs, occurs_at, replaced, split_first, trimmed,
};

verus! {

/// What a command takes as its argument stands behind its name in the input, without the
/// whitespace around it, and is never empty; whatever else the input is, there is none.
pub proof fn law_argument_stands_behind_the_command(
    input: Seq<char>,
    command: Seq<char>,
    rest: Seq<char>,
)
    ensures
        trimmed(input) == command + rest && trimmed(rest).len() > 0 ==> argument(input, command)
            == Some(trimmed(rest)),
        trimmed(input) == command + rest && trimmed(rest).len() == 0 ==> argument(
            input,
            command,
        ) is None,
        !has_prefix(trimmed(input), command) ==> argument(input, command) is None,
        argument(input, command) matches Some(text) ==> text.len() > 0,
{
    if trimmed(input) == command + rest {
        assert((command + rest).subrange(0, command.len() as int) =~= command);
        assert((command + rest).skip(command.len() as int) =~= rest);
    }
}

/// The prompt of a command is that of the first entry with its name; a name that no entry
/// has, and one whose entry has no prompt, have none.
pub proof fn law_first_entry_has_the_prompt(
    helpers: Seq<HelperCommand>,
    name: Seq<char>,
    i: int,
)
    requires
        0 <= i <= helpers.len(),
        forall|j: int| 0 <= j < i ==> (#[trigger] helpers[j]).command@ != name,
    ensures
        i == helpers.len() ==> prompt_of(helpers, name) is None,
        i < helpers.len() && helpers[i].command@ == name ==> match helpers[i].source {
            CommandSource::BuiltIn => prompt_of(helpers, name) is None,
            CommandSource::BuiltInWithPrompt { prompt_content } => prompt_of(helpers, name)
                == Some(prompt_content@),
            CommandSource::Custom { prompt_content } => prompt_of(helpers, name) == Some(
                prompt_content@,
            ),
        },
    decreases helpers.len(),
{
    if i > 0 {
        let rest = helpers.drop_first();
        assert(helpers[0].command@ != name);
        assert forall|j: int| 0 <= j < i - 1 implies (#[trigger] rest[j]).command@ != name by {
            assert(rest[j] == helpers[j + 1]);
        }
        law_first_entry_has_the_prompt(rest, name, i - 1);
    }
}

/// Replacing turns the first place into the new text and goes on behind it.
proof fn lemma_replaced_at_first(s: Seq<char>, from: Seq<char>, to: Seq<char>)
    requires
        from.len() > 0,
    ensures
        split_first(s, from) matches Some((before, after)) ==> replaced(s, from, to) == before + to
            + replaced(after, from, to),
        split_first(s, from) is None ==> replaced(s, from, to) == s,
    decreases s.len(),
{
    if s.len() == 0 {
        if has_prefix(s, from) {
            assert(from.len() == 0);
        }
    } else if has_prefix(s, from) {
        assert(Seq::<char>::empty() + to =~= to);
    } else {
        let rest = s.drop_first();
        lemma_replaced_at_first(rest, from, to);
        match split_first(rest, from) {
            Some((before, after)) => {
                assert(seq![s[0]] + (before + to + replaced(after, from, to)) =~= (seq![s[0]]
                    + before) + to + replaced(after, from, to));
            },
            None => {
                assert(seq![s[0]] + rest =~= s);
            },
        }
    }
}

/// What the user typed goes to the place for it in the prompt, or else behind the prompt,
/// and all of it does. Without anything typed, a prompt without a place stays as it is.
pub proof fn law_prompt_takes_what_was_typed(content: Seq<char>, text: Seq<char>)
    ensures
        !occurs(content, "{input}"@) ==> {
            &&& filled(content, Some(text)) == content + "\n\n"@ + text
            &&& filled(content, None) == content
        },
        occurs(content, "{input}"@) ==> (split_first(content, "{input}"@) matches Some(
            (before, after),
        ) && {
            &&& filled(content, Some(text)) == before + text + replaced(after, "{input}"@, text)
            &&& filled(content, None) == filled(
                content,
                Some("(none — review all uncommitted changes)"@),
            )
            &&& !occurs(after, "{input}"@) ==> filled(content, Some(text)) == before + text + after
        }),
{
    reveal_strlit("{input}");
    let place = "{input}"@;
    assert(place.len() > 0);
    crate::laws::law_split_gives_the_text_back(content, place);
    lemma_replaced_at_first(content, place, text);
    if let Some((before, after)) = split_first(content, place) {
        crate::laws::law_split_gives_the_text_back(after, place);
        lemma_replaced_at_first(after, place, text);
    }
}

/// A prompt goes to the agent word for word, with every result of the user's own shell
/// commands, in order, and with neither pictures nor a message to go back to.
pub proof fn law_request_carries_everything(before: AppState, prompt: Seq<char>)
    ensures
        request(before, prompt) matches OutputEventView::UserMessage(text, results, images, target)
            && {
            &&& text == prompt
            &&& images.len() == 0
            &&& target is None
            &&& before.shell_popup_state.shell_tool_calls is None ==> results is None
            &&& before.shell_popup_state.shell_tool_calls matches Some(given) ==> (
            results matches Some(sent) && sent.len() == given.len() && forall|i: int|
                0 <= i < sent.len() ==> (#[trigger] sent[i]).call == given[i].call
                    && sent[i].result == given[i].result@ && sent[i].status == given[i].status)
        },
{
}

/// A prompt that was sent stands behind the messages there were, with the input empty and
/// the shell's results handed over; nothing else changes.
pub proof fn law_sent_prompt_leaves_the_rest(
    before: AppState,
    after: AppState,
    shown: Seq<MessageView>,
    i: int,
)
    requires
        prompt_sent(before, after, shown),
    ensures
        ({
            let had = before.messages_scrolling_state.messages;
            let has = after.messages_scrolling_state.messages;
            &&& has.len() == had.len() + shown.len()
            &&& 0 <= i < had.len() ==> has[i].deep_view() == had[i].deep_view()
            &&& 0 <= i < shown.len() ==> has[had.len() + i].deep_view() == shown[i]
        }),
        after.messages_scrolling_state.scroll == before.messages_scrolling_state.scroll,
        after.messages_scrolling_state.scroll_to_bottom
            == before.messages_scrolling_state.scroll_to_bottom,
        after.messages_scrolling_state.stay_at_bottom
            == before.messages_scrolling_state.stay_at_bottom,
        after.shell_popup_state == (ShellPopupState {
            shell_tool_calls: None,
            ..before.shell_popup_state
        }),
        reads(before.input_state, after.input_state, ""@),
        only_input_differs(
            before,
            (AppState {
                messages_scrolling_state: before.messages_scrolling_state,
                shell_popup_state: before.shell_popup_state,
                ..after
            }),
        ),
{
    let had = before.messages_scrolling_state.messages;
    let has = after.messages_scrolling_state.messages;
    assert(has.deep_view().len() == has.len());
    assert(had.deep_view().len() == had.len());
    if 0 <= i < had.len() {
        assert(has.deep_view()[i] == had.deep_view()[i]);
    }
    if 0 <= i < shown.len() {
        assert(has.deep_view()[had.len() + i] == shown[i]);
    }
}

/// The user sees the prompt that is sent as a message of their own.
pub proof fn law_sent_prompt_is_shown(prompt: Seq<char>)
    ensures
        shown_prompt(prompt).len() == 1,
        shown_prompt(prompt)[0].content == MessageContentView::UserMessage(prompt),
        shown_prompt(prompt)[0].id is None,
{
}

/// A command with a prompt waits for its argument exactly where there is a place for one
/// and nothing but the command was typed; otherwise the prompt goes off, with the argument.
pub proof fn law_prompt_command_waits_or_sends(
    before: AppState,
    after: AppState,
    command: Seq<char>,
)
    ensures
        ({
            let typed = before.input_state.text_area.text@;
            match prompt_of(before.input_state.helpers@, command) {
                None => {
                    &&& prompted(before, after, command) ==> after == before
                    &&& prompt_requests(before, command).len() == 0
                    &&& prompt_effects(before, command).len() == 0
                },
                Some(content) => if occurs(content, "{input}"@) && typed == command {
                    &&& prompted(before, after, command) ==> reads(
                        before.input_state,
                        after.input_state,
                        command + " "@,
                    ) && only_input_differs(before, after)
                    &&& prompt_requests(before, command).len() == 0
                    &&& prompt_effects(before, command).len() == 0
                } else {
                    let prompt = filled(content, argument(typed, command));
                    &&& prompted(before, after, command) ==> prompt_sent(
                        before,
                        after,
                        shown_prompt(prompt),
                    )
                    &&& prompt_requests(before, command) == seq![request(before, prompt)]
                    &&& prompt_effects(before, command) == seq![EffectView::InvalidateLines]
                },
            }
        }),
{
}

/// The prompt that prepares the agent is sent and shown as it is, where it is not blank;
/// where it is, or is missing, an error is shown and only the input is emptied.
pub proof fn law_init_prompt_is_sent_as_it_is(before: AppState, after: AppState)
    ensures
        ({
            let usable = before.configuration_state.init_prompt_content matches Some(text)
                && trimmed(text@).len() > 0;
            let text = before.configuration_state.init_prompt_content->0@;
            &&& usable ==> {
                &&& init_requests(before) == seq![request(before, text)]
                &&& init_effects(before) == EffectView::InvalidateLines
                &&& initialised(before, after) ==> prompt_sent(before, after, shown_prompt(text))
            }
            &&& !usable ==> {
                &&& init_requests(before).len() == 0
                &&& init_effects(before) == EffectView::ShowError(
                    "Internal error: init prompt not available"@,
                )
                &&& initialised(before, after) ==> reads(
                    before.input_state,
                    after.input_state,
                    ""@,
                ) && only_input_differs(before, after)
            }
        }),
{
}

/// What the user entered reads, without the whitespace around it, as a slash command or
/// stands behind an arrow; no other text shows anything entered, and no other message does.
pub proof fn law_what_counts_as_entered(text: Seq<char>, rest: Seq<char>, message: MessageView)
    ensures
        trimmed(text) == "→ "@ + rest ==> entered(text) == Some(trimmed(rest)),
        !has_prefix(trimmed(text), "→ "@) ==> {
            &&& has_prefix(trimmed(text), "/"@) ==> entered(text) == Some(trimmed(text))
            &&& !has_prefix(trimmed(text), "/"@) ==> entered(text) is None
        },
        message.content matches MessageContentView::Plain(shown, _) ==> input_in(message)
            == entered(shown),
        message.content matches MessageContentView::PlainText(shown) ==> input_in(message)
            == entered(shown),
        message.content is UserMessage || message.content is Block ==> input_in(message) is None,
{
    let arrow = "→ "@;
    if trimmed(text) == arrow + rest {
        assert((arrow + rest).subrange(0, arrow.len() as int) =~= arrow);
        assert((arrow + rest).skip(arrow.len() as int) =~= rest);
    }
}

/// What was entered in two lists of messages, one behind the other, is what was entered in
/// the first and then in the second, with nothing left out.
pub proof fn law_inputs_follow_the_messages(
    a: Seq<MessageView>,
    b: Seq<MessageView>,
    message: MessageView,
)
    ensures
        inputs_in(a + b) == inputs_in(a) + inputs_in(b),
        input_in(message) matches Some(text) ==> inputs_in(seq![message]) == seq![text],
        input_in(message) is None ==> inputs_in(seq![message]).len() == 0,
        inputs_in(Seq::empty()).len() == 0,
    decreases a.len(),
{
    assert(seq![message].drop_first() =~= Seq::empty());
    assert(inputs_in(Seq::empty()) =~= Seq::<Seq<char>>::empty());
    if let Some(text) = input_in(message) {
        assert(inputs_in(seq![message]) =~= seq![text]);
    }
    if a.len() == 0 {
        assert(a + b =~= b);
        assert(inputs_in(a + b) =~= inputs_in(a) + inputs_in(b));
    } else {
        assert((a + b).drop_first() =~= a.drop_first() + b);
        law_inputs_follow_the_messages(a.drop_first(), b, message);
        assert(inputs_in(a + b) =~= inputs_in(a) + inputs_in(b));
    }
}

/// As many inputs are repeated as may be: all there are, or as many as the limit allows.
pub proof fn law_as_many_inputs_as_allowed(messages: Seq<MessageView>, limit: nat)
    requires
        limit > 0,
    ensures
        inputs_in(messages).len() <= limit ==> recent_inputs(messages, limit) == inputs_in(
            messages,
        ),
        inputs_in(messages).len() > limit ==> recent_inputs(messages, limit).len() == limit,
{
}

/// The inputs are repeated one to a line, in order, with nothing left out.
pub proof fn law_one_line_for_each_input(a: Seq<Seq<char>>, b: Seq<Seq<char>>, input: Seq<char>)
    ensures
        input_lines(a + b) == input_lines(a) + input_lines(b),
        input_lines(seq![input]) == "- "@ + input + "\n"@,
        input_lines(Seq::empty()).len() == 0,
    decreases b.len(),
{
    assert(seq![input].drop_last() =~= Seq::empty());
    assert(input_lines(Seq::empty()) =~= Seq::<char>::empty());
    assert(input_lines(seq![input]) =~= "- "@ + input + "\n"@);
    if b.len() == 0 {
        assert(a + b =~= a);
        assert(input_lines(a + b) =~= input_lines(a) + input_lines(b));
    } else {
        assert((a + b).drop_last() =~= a + b.drop_last());
        law_one_line_for_each_input(a, b.drop_last(), input);
        assert(input_lines(a + b) =~= input_lines(a) + input_lines(b));
    }
}

/// A text stands where it was put at the end.
proof fn lemma_stands_at_the_end(before: Seq<char>, text: Seq<char>)
    ensures
        occurs(before + text, text),
{
    let whole = before + text;
    let at = before.len() as int;
    assert(whole.subrange(at, at + text.len()) =~= text);
    assert(occurs_at(whole, text, at));
}

/// What stands in a text still does with more behind it or before it.
proof fn lemma_still_stands(before: Seq<char>, text: Seq<char>, after: Seq<char>, part: Seq<char>)
    requires
        occurs(text, part),
    ensures
        occurs(text + after, part),
        occurs(before + text, part),
{
    let at = choose|at: int| occurs_at(text, part, at);
    let moved = before.len() + at;
    assert((text + after).subrange(at, at + part.len()) =~= text.subrange(at, at + part.len()));
    assert(occurs_at(text + after, part, at));
    assert((before + text).subrange(moved, moved + part.len()) =~= text.subrange(
        at,
        at + part.len(),
    ));
    assert(occurs_at(before + text, part, moved));
}

/// What begins a text still does with more behind it.
proof fn lemma_still_begins(text: Seq<char>, after: Seq<char>, part: Seq<char>)
    requires
        has_prefix(text, part),
    ensures
        has_prefix(text + after, part),
{
    assert((text + after).subrange(0, part.len() as int) =~= text.subrange(0, part.len() as int));
}

/// Three texts put behind another one by one come to the same as all at once.
proof fn lemma_three_behind(s: Seq<char>, a: Seq<char>, b: Seq<char>, c: Seq<char>)
    ensures
        s + a + b + c == s + (a + b + c),
{
    assert(s + a + b + c =~= s + (a + b + c));
}

/// The figures of the session stand in the snapshot, each on its line.
proof fn lemma_snapshot_has_its_lines(
    profile: Seq<char>,
    total: nat,
    prompt: nat,
    completion: nat,
    context_usage: Seq<char>,
    takes: nat,
)
    ensures
        ({
            let text = snapshot(profile, total, prompt, completion, context_usage, takes);
            &&& occurs(text, "- Active profile: "@ + profile + "\n"@)
            &&& occurs(
                text,
                "- Total tokens used: "@ + decimal(total) + " (prompt: "@ + decimal(prompt)
                    + ", completion: "@ + decimal(completion) + ")\n"@,
            )
            &&& occurs(
                text,
                "- Context window usage: "@ + context_usage + "% of "@ + decimal(takes)
                    + " tokens\n"@,
            )
        }),
{
    let head = "\n"@ + "Session snapshot:\n"@;
    let first = "- Active profile: "@ + profile + "\n"@;
    let counted = "- Total tokens used: "@ + decimal(total) + " (prompt: "@;
    let asked = counted + decimal(prompt) + ", completion: "@;
    let second = asked + decimal(completion) + ")\n"@;
    let used = "- Context window usage: "@ + context_usage + "% of "@;
    let third = used + decimal(takes) + " tokens\n"@;
    let one = head + first;
    let two = one + second;
    let three = two + third;
    lemma_three_behind(head, "- Active profile: "@, profile, "\n"@);
    lemma_three_behind(one, "- Total tokens used: "@, decimal(total), " (prompt: "@);
    lemma_three_behind(one, counted, decimal(prompt), ", completion: "@);
    lemma_three_behind(one, asked, decimal(completion), ")\n"@);
    lemma_three_behind(two, "- Context window usage: "@, context_usage, "% of "@);
    lemma_three_behind(two, used, decimal(takes), " tokens\n"@);
    assert(snapshot(profile, total, prompt, completion, context_usage, takes) == three);
    lemma_stands_at_the_end(head, first);
    lemma_still_stands(head, one, second, first);
    lemma_still_stands(head, two, third, first);
    lemma_stands_at_the_end(one, second);
    lemma_still_stands(head, two, third, second);
    lemma_stands_at_the_end(two, third);
}

/// The prompt for a summary begins with its instructions. It names the profile, tells the
/// tokens of the session and how much of the model's context they take, and repeats the
/// latest six of the user's inputs, each on a line of its own.
pub proof fn law_summary_prompt_says_all(state: AppState, base: Seq<char>, context_usage: Seq<char>)
    ensures
        ({
            let prompt = summarize_prompt(state, base, context_usage);
            let usage = state.usage_tracking_state.total_session_usage;
            let inputs = recent_inputs(state.messages_scrolling_state.messages.deep_view(), 6);
            let model = match state.model_switcher_state.current_model {
                Some(model) => model,
                None => state.configuration_state.model,
            };
            &&& has_prefix(prompt, base)
            &&& occurs(
                prompt,
                "- Active profile: "@ + state.profile_switcher_state.current_profile_name@
                    + "\n"@,
            )
            &&& occurs(
                prompt,
                "- Total tokens used: "@ + decimal(usage.total_tokens as nat) + " (prompt: "@
                    + decimal(usage.prompt_tokens as nat) + ", completion: "@ + decimal(
                    usage.completion_tokens as nat,
                ) + ")\n"@,
            )
            &&& occurs(
                prompt,
                "- Context window usage: "@ + context_usage + "% of "@ + decimal(
                    (model.limit.context as u32) as nat,
                ) + " tokens\n"@,
            )
            &&& inputs.len() > 0 ==> occurs(
                prompt,
                "Recent user inputs to emphasize:\n"@ + input_lines(inputs),
            )
        }),
{
    let usage = state.usage_tracking_state.total_session_usage;
    let inputs = recent_inputs(state.messages_scrolling_state.messages.deep_view(), 6);
    let profile = state.profile_switcher_state.current_profile_name@;
    let total = usage.total_tokens as nat;
    let asked = usage.prompt_tokens as nat;
    let given = usage.completion_tokens as nat;
    let takes = (active_model(state).limit.context as u32) as nat;
    let figures = snapshot(profile, total, asked, given, context_usage, takes);
    let tail =
        "Be precise, note outstanding TODOs or follow-ups, and reflect any cost or context considerations mentioned earlier.\n"@;
    let last =
        "When ready, create or overwrite `summary.md` using the tool call and populate it with the markdown summary.\n"@;
    let section = input_section(inputs);
    let one = base + figures;
    let two = one + section;
    let three = two + "\n"@;
    let four = three + tail;
    assert(summarize_prompt(state, base, context_usage) == four + last);
    lemma_snapshot_has_its_lines(profile, total, asked, given, context_usage, takes);
    assert(base.subrange(0, base.len() as int) =~= base);
    assert forall|part: Seq<char>| #[trigger] occurs(two, part) implies occurs(four + last, part) by {
        lemma_still_stands(base, two, "\n"@, part);
        lemma_still_stands(base, three, tail, part);
        lemma_still_stands(base, four, last, part);
    }
    assert forall|part: Seq<char>| #[trigger] occurs(figures, part) implies occurs(two, part) by {
        lemma_still_stands(base, figures, section, part);
        lemma_still_stands(base, one, section, part);
    }
    lemma_still_begins(base, figures, base);
    lemma_still_begins(one, section, base);
    lemma_still_begins(two, "\n"@, base);
    lemma_still_begins(three, tail, base);
    lemma_still_begins(four, last, base);
    if inputs.len() > 0 {
        let repeated = "Recent user inputs to emphasize:\n"@ + input_lines(inputs);
        assert(section =~= "\n"@ + repeated);
        lemma_stands_at_the_end("\n"@, repeated);
        lemma_still_stands(one, section, section, repeated);
    }
}

/// A tool may be used where the configuration names none, or names that one.
pub proof fn law_allowed_tools(allowed: Option<Vec<String>>, tool: Seq<char>)
    ensures
        allowed is None ==> allows(allowed, tool),
        allowed matches Some(names) ==> {
            &&& names.len() == 0 ==> allows(allowed, tool)
            &&& names.len() > 0 ==> (allows(allowed, tool) <==> exists|i: int|
                0 <= i < names.len() && (#[trigger] names[i])@ == tool)
        },
{
    if let Some(names) = allowed {
        assert(names.deep_view().len() == names.len());
        if names.len() > 0 && allows(allowed, tool) {
            let i = choose|i: int|
                0 <= i < names.deep_view().len() && names.deep_view()[i] == tool;
            assert(names[i]@ == tool);
        }
        if exists|i: int| 0 <= i < names.len() && (#[trigger] names[i])@ == tool {
            let i = choose|i: int| 0 <= i < names.len() && (#[trigger] names[i])@ == tool;
            assert(names.deep_view()[i] == tool);
        }
    }
}

/// The tools listed keep the order of the settings: the settings may be cut in two anywhere.
pub proof fn law_listed_tools_keep_their_order(
    a: Seq<ToolPolicy>,
    b: Seq<ToolPolicy>,
    allowed: Option<Vec<String>>,
    policy: ToolPolicy,
)
    ensures
        auto_approved(a + b, allowed) == auto_approved(a, allowed) + auto_approved(b, allowed),
        policy.policy == AutoApprovePolicy::Auto && allows(allowed, policy.tool@)
            ==> auto_approved(seq![policy], allowed) == seq![policy.tool@],
        policy.policy != AutoApprovePolicy::Auto || !allows(allowed, policy.tool@)
            ==> auto_approved(seq![policy], allowed).len() == 0,
{
    let chosen = |policy: ToolPolicy| needs_no_approval(allowed, policy);
    Seq::filter_distributes_over_add(a, b, chosen);
    assert(auto_approved(a + b, allowed) =~= auto_approved(a, allowed) + auto_approved(b, allowed));
    let empty = Seq::<ToolPolicy>::empty();
    empty.lemma_filter_len(chosen);
    assert(seq![policy] =~= empty.push(policy));
    empty.lemma_filter_push(policy, chosen);
    if chosen(policy) {
        assert(auto_approved(seq![policy], allowed) =~= seq![policy.tool@]);
    }
}

/// The list names all tools that need no approval, one behind the other, below an empty
/// line; where there are none it says so, and whether that is among allowed tools only.
pub proof fn law_list_names_all_tools(before: AppState, after: AppState)
    requires
        list_spaced(before, after),
    ensures
        ({
            let allowed = before.configuration_state.allowed_tools;
            let tools = auto_approved(
                before.configuration_state.auto_approve_manager.tools@,
                allowed,
            );
            let restricted = allowed matches Some(names) && names.len() > 0;
            &&& tools.len() > 0 ==> {
                &&& list_shown(before) matches EffectView::ShowStyled(text, _, _, _)
                &&& text == "Tools currently set to auto-approve: "@ + joined(tools, ", "@)
                &&& after.messages_scrolling_state.messages.len()
                    == before.messages_scrolling_state.messages.len() + 1
            }
            &&& tools.len() == 0 ==> {
                &&& list_shown(before) matches EffectView::ShowStyled(text, _, _, _)
                &&& restricted ==> text == "No allowed tools are currently set to auto-approve."@
                &&& !restricted ==> text == "No tools are currently set to auto-approve."@
                &&& after == before
            }
            &&& after.input_state == before.input_state
            &&& only_input_differs(
                before,
                (AppState { messages_scrolling_state: before.messages_scrolling_state, ..after }),
            )
        }),
{
    let had = before.messages_scrolling_state.messages;
    let has = after.messages_scrolling_state.messages;
    assert(has.deep_view().len() == has.len());
    assert(had.deep_view().len() == had.len());
}

/// Where two of the items are picked out, the one that stands before the other does so
/// among the picked ones too.
proof fn lemma_filter_keeps_order(
    items: Seq<CommandView>,
    wanted: spec_fn(CommandView) -> bool,
    i: int,
    j: int,
)
    requires
        0 <= i < j < items.len(),
        wanted(items[i]),
        wanted(items[j]),
    ensures
        exists|p: int, q: int|
            0 <= p < q < items.filter(wanted).len() && #[trigger] items.filter(wanted)[p]
                == items[i] && #[trigger] items.filter(wanted)[q] == items[j],
{
    let front = items.take(j);
    let back = items.skip(j);
    assert(items =~= front + back);
    Seq::filter_distributes_over_add(front, back, wanted);
    assert(front[i] == items[i]);
    assert(back[0] == items[j]);
    front.lemma_filter_contains(wanted, i);
    back.lemma_filter_contains(wanted, 0);
    let kept = front.filter(wanted);
    let behind = back.filter(wanted);
    let p = choose|p: int| 0 <= p < kept.len() && kept[p] == items[i];
    let q = choose|q: int| 0 <= q < behind.len() && behind[q] == items[j];
    assert(items.filter(wanted)[p] == items[i]);
    assert(items.filter(wanted)[kept.len() + q] == items[j]);
}

/// A command answers a query that stands in its name or in what is said of it, in whatever
/// case. Without a query all commands are left; with one, those that answer it stay in
/// order.
pub proof fn law_search_looks_at_name_and_description(
    command: CommandView,
    query: Seq<char>,
    i: int,
    j: int,
)
    ensures
        answers(command, query) <==> {
            ||| occurs(lowercase(command.name), lowercase(query))
            ||| occurs(lowercase(command.description), lowercase(query))
        },
        left_by(Seq::empty()) == palette(),
        0 <= i < j < palette().len() && query.len() > 0 && answers(palette()[i], query) && answers(
            palette()[j],
            query,
        ) ==> exists|p: int, q: int|
            0 <= p < q < left_by(query).len() && #[trigger] left_by(query)[p] == palette()[i]
                && #[trigger] left_by(query)[q] == palette()[j],
{
    if 0 <= i < j < palette().len() && query.len() > 0 && answers(palette()[i], query) && answers(
        palette()[j],
        query,
    ) {
        let wanted = |command: CommandView| answers(command, query);
        assert(wanted(palette()[i]) && wanted(palette()[j]));
        lemma_filter_keeps_order(palette(), wanted, i, j);
        let (p, q) = choose|p: int, q: int|
            0 <= p < q < palette().filter(wanted).len() && #[trigger] palette().filter(wanted)[p]
                == palette()[i] && #[trigger] palette().filter(wanted)[q] == palette()[j];
        assert(left_by(query)[p] == palette()[i]);
        assert(left_by(query)[q] == palette()[j]);
    }
}

} // verus!
