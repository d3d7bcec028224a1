//! The commands that send the agent a prompt.
use vstd::prelude::*;
use vstd::string::*;

use crate::app_state::{
    fresh, input_becomes, push_effect, AppState, CommandSource, Effect, EffectView, HelperCommand,
    Message, MessageContentView, MessageView, MessagesScrollingState, ShellPopupState, ThemeColor,
};
use crate::commands::sessions::send_output;
use crate::commands::summary::{build_summarize_prompt, summarize_prompt};
use crate::events::{OutputEvent, OutputEventView};
use crate::text::{
    concat2, concat3, contains, occurs, replace, replaced, same_text, strip_prefix, stripped, trim,
    trimmed,
};

verus! {

/// What the user typed behind a command; `None` where there is nothing but whitespace.
pub open spec fn argument(input: Seq<char>, command: Seq<char>) -> Option<Seq<char>> {
    match stripped(trimmed(input), command) {
        Some(rest) => if trimmed(rest).len() > 0 {
            Some(trimmed(rest))
        } else {
            None
        },
        None => None,
    }
}

/// What the user typed behind a command.
pub fn argument_of(input: &str, command: &str) -> (res: Option<String>)
    ensures
        res.deep_view() == argument(input@, command@),
{
    match strip_prefix(trim(input), command) {
        Some(rest) => {
            let text = trim(rest);
            if text.is_empty() {
                None
            } else {
                Some(text.to_string())
            }
        },
        None => None,
    }
}

/// The prompt of a command, where it has one.
pub open spec fn prompt_in(source: CommandSource) -> Option<Seq<char>> {
    match source {
        CommandSource::BuiltIn => None,
        CommandSource::BuiltInWithPrompt { prompt_content } => Some(prompt_content@),
        CommandSource::Custom { prompt_content } => Some(prompt_content@),
    }
}

/// The prompt of the first command of the dropdown that has this name.
pub open spec fn prompt_of(helpers: Seq<HelperCommand>, name: Seq<char>) -> Option<Seq<char>>
    decreases helpers.len(),
{
    if helpers.len() == 0 {
        None
    } else if helpers[0].command@ == name {
        prompt_in(helpers[0].source)
    } else {
        prompt_of(helpers.drop_first(), name)
    }
}

/// The prompt of the first command of the dropdown that has this name.
pub fn find_prompt(helpers: &Vec<HelperCommand>, name: &str) -> (res: Option<String>)
    ensures
        res.deep_view() == prompt_of(helpers@, name@),
{
    proof {
        assert(helpers@.skip(0) =~= helpers@);
    }
    for i in 0..helpers.len()
        invariant
            prompt_of(helpers@, name@) == prompt_of(helpers@.skip(i as int), name@),
    {
        proof {
            assert(helpers@.skip(i as int)[0] == helpers@[i as int]);
            assert(helpers@.skip(i as int).drop_first() =~= helpers@.skip(i + 1));
        }
        if same_text(helpers[i].command.as_str(), name) {
            return match &helpers[i].source {
                CommandSource::BuiltIn => None,
                CommandSource::BuiltInWithPrompt { prompt_content } => Some(
                    prompt_content.clone(),
                ),
                CommandSource::Custom { prompt_content } => Some(prompt_content.clone()),
            };
        }
    }
    None
}

/// The command waits for the user to type an argument: its prompt has a place for one,
/// and the input is the command and not a character more. A space behind it sends the
/// prompt without an argument.
pub open spec fn waits_for_argument(
    content: Seq<char>,
    input: Seq<char>,
    command: Seq<char>,
) -> bool {
    occurs(content, "{input}"@) && input == command
}

/// The prompt with what the user typed: in the place for it, or else behind it.
pub open spec fn filled(content: Seq<char>, extra: Option<Seq<char>>) -> Seq<char> {
    if occurs(content, "{input}"@) {
        match extra {
            Some(text) => replaced(content, "{input}"@, text),
            None => replaced(content, "{input}"@, "(none — review all uncommitted changes)"@),
        }
    } else {
        match extra {
            Some(text) => content + "\n\n"@ + text,
            None => content,
        }
    }
}

/// The prompt with what the user typed.
pub fn fill_prompt(content: &str, extra: Option<String>) -> (res: String)
    ensures
        res@ == filled(content@, extra.deep_view()),
{
    if contains(content, "{input}") {
        proof {
            reveal_strlit("{input}");
        }
        match extra {
            Some(text) => replace(content, "{input}", text.as_str()),
            None => replace(content, "{input}", "(none — review all uncommitted changes)"),
        }
    } else {
        match extra {
            Some(text) => concat3(content, "\n\n", text.as_str()),
            None => content.to_string(),
        }
    }
}

/// The message that takes a prompt to the agent, with what the user's own shell commands
/// gave since the last one.
pub open spec fn request(before: AppState, prompt: Seq<char>) -> OutputEventView {
    OutputEventView::UserMessage(
        prompt,
        before.shell_popup_state.shell_tool_calls.deep_view(),
        Seq::empty(),
        None,
    )
}

/// The state after a prompt was sent: `shown` stands behind the messages, the shell's
/// results are handed over and the input is empty.
pub open spec fn prompt_sent(
    before: AppState,
    after: AppState,
    shown: Seq<MessageView>,
) -> bool {
    &&& after.messages_scrolling_state.messages.deep_view()
        == before.messages_scrolling_state.messages.deep_view() + shown
    &&& input_becomes(before.input_state, after.input_state, ""@)
    &&& after == (AppState {
        messages_scrolling_state: MessagesScrollingState {
            messages: after.messages_scrolling_state.messages,
            ..before.messages_scrolling_state
        },
        shell_popup_state: ShellPopupState { shell_tool_calls: None, ..before.shell_popup_state },
        input_state: after.input_state,
        ..before
    })
}

/// Sends a prompt and empties the input.
fn send_request(state: &mut AppState, output_tx: &mut Vec<OutputEvent>, prompt: String)
    ensures
        prompt_sent(*old(state), *final(state), Seq::empty()),
        final(output_tx).deep_view() == old(output_tx).deep_view().push(
            request(*old(state), prompt@),
        ),
{
    let results = state.shell_popup_state.shell_tool_calls.take();
    let images = Vec::new();
    proof {
        assert(images.deep_view() =~= Seq::empty());
    }
    send_output(output_tx, OutputEvent::UserMessage(prompt, results, images, None));
    state.input_state.replace("");
    proof {
        assert(state.messages_scrolling_state.messages.deep_view() =~= old(
            state,
        ).messages_scrolling_state.messages.deep_view() + Seq::empty());
    }
}

/// The prompt as the user's message.
pub open spec fn shown_prompt(prompt: Seq<char>) -> Seq<MessageView> {
    seq![fresh(MessageContentView::UserMessage(prompt))]
}

/// Shows a prompt as the user's message and sends it.
pub fn submit_prompt(
    state: &mut AppState,
    output_tx: &mut Vec<OutputEvent>,
    effects: &mut Vec<Effect>,
    prompt: String,
)
    ensures
        prompt_sent(*old(state), *final(state), shown_prompt(prompt@)),
        final(output_tx).deep_view() == old(output_tx).deep_view().push(
            request(*old(state), prompt@),
        ),
        final(effects).deep_view() == old(effects).deep_view().push(EffectView::InvalidateLines),
{
    let ghost text = prompt@;
    state.messages_scrolling_state.push(Message::user(prompt.clone()));
    send_request(state, output_tx, prompt);
    push_effect(effects, Effect::InvalidateLines);
    proof {
        assert(state.messages_scrolling_state.messages.deep_view() =~= old(
            state,
        ).messages_scrolling_state.messages.deep_view() + shown_prompt(text));
    }
}

/// What the screen shows while a summary is asked for.
pub open spec fn summary_notice() -> Seq<MessageView> {
    seq![
        fresh(MessageContentView::Plain(""@, None)),
        fresh(
            MessageContentView::Plain(
                "Requesting session summary (summary.md)..."@,
                Some(ThemeColor::Cyan),
            ),
        ),
    ]
}

/// Asks the agent for a summary of the session. `base` holds the instructions, and
/// `context_usage` says how much of the model's context is used, in percent.
pub fn summarize_session(
    state: &mut AppState,
    output_tx: &mut Vec<OutputEvent>,
    base: &str,
    context_usage: &str,
)
    ensures
        prompt_sent(*old(state), *final(state), summary_notice()),
        final(output_tx).deep_view() == old(output_tx).deep_view().push(
            request(*old(state), summarize_prompt(*old(state), base@, context_usage@)),
        ),
{
    let prompt = build_summarize_prompt(state, base, context_usage);
    state.messages_scrolling_state.push(Message::info("", None));
    state.messages_scrolling_state.push(
        Message::info("Requesting session summary (summary.md)...", Some(ThemeColor::Cyan)),
    );
    send_request(state, output_tx, prompt);
    proof {
        assert(state.messages_scrolling_state.messages.deep_view() =~= old(
            state,
        ).messages_scrolling_state.messages.deep_view() + summary_notice());
    }
}

/// The input is replaced by `text`; nothing else changes.
pub open spec fn input_set(before: AppState, after: AppState, text: Seq<char>) -> bool {
    &&& input_becomes(before.input_state, after.input_state, text)
    &&& after == (AppState { input_state: after.input_state, ..before })
}

/// The prompt that prepares the agent for a project, where there is one.
pub open spec fn usable_init_prompt(prompt: Option<Seq<char>>) -> Option<Seq<char>> {
    match prompt {
        Some(text) => if trimmed(text).len() > 0 {
            Some(text)
        } else {
            None
        },
        None => None,
    }
}

/// The state after the prompt that prepares the agent was sent, if there is one.
pub open spec fn initialised(before: AppState, after: AppState) -> bool {
    match usable_init_prompt(before.configuration_state.init_prompt_content.deep_view()) {
        Some(prompt) => prompt_sent(before, after, shown_prompt(prompt)),
        None => input_set(before, after, ""@),
    }
}

/// The message to the agent that comes with it.
pub open spec fn init_requests(before: AppState) -> Seq<OutputEventView> {
    match usable_init_prompt(before.configuration_state.init_prompt_content.deep_view()) {
        Some(prompt) => seq![request(before, prompt)],
        None => Seq::empty(),
    }
}

/// What the screen shows with it.
pub open spec fn init_effects(before: AppState) -> EffectView {
    match usable_init_prompt(before.configuration_state.init_prompt_content.deep_view()) {
        Some(_) => EffectView::InvalidateLines,
        None => EffectView::ShowError("Internal error: init prompt not available"@),
    }
}

/// Sends the prompt that prepares the agent for a project.
pub fn send_init_prompt(
    state: &mut AppState,
    output_tx: &mut Vec<OutputEvent>,
    effects: &mut Vec<Effect>,
)
    ensures
        initialised(*old(state), *final(state)),
        final(output_tx).deep_view() == old(output_tx).deep_view() + init_requests(*old(state)),
        final(effects).deep_view() == old(effects).deep_view().push(init_effects(*old(state))),
{
    let usable = match &state.configuration_state.init_prompt_content {
        Some(text) => if trim(text.as_str()).is_empty() {
            None
        } else {
            Some(text.clone())
        },
        None => None,
    };
    proof {
        assert(usable.deep_view() == usable_init_prompt(
            state.configuration_state.init_prompt_content.deep_view(),
        ));
    }
    match usable {
        Some(prompt) => {
            submit_prompt(state, output_tx, effects, prompt);
        },
        None => {
            push_effect(
                effects,
                Effect::ShowError("Internal error: init prompt not available".to_string()),
            );
            state.input_state.replace("");
        },
    }
    proof {
        assert(output_tx.deep_view() =~= old(output_tx).deep_view() + init_requests(*old(state)));
    }
}

/// What becomes of a command with a prompt.
pub enum PromptUse {
    /// No command of the dropdown with this name has a prompt.
    Unknown,
    /// The command waits for its argument.
    Waits,
    /// The prompt is sent.
    Sends(Seq<char>),
}

/// What becomes of a command, going by the dropdown and what the user typed.
pub open spec fn prompt_use(before: AppState, command: Seq<char>) -> PromptUse {
    let input = before.input_state.text_area.text@;
    match prompt_of(before.input_state.helpers@, command) {
        None => PromptUse::Unknown,
        Some(content) => if waits_for_argument(content, input, command) {
            PromptUse::Waits
        } else {
            PromptUse::Sends(filled(content, argument(input, command)))
        },
    }
}

/// The state after a command with a prompt.
pub open spec fn prompted(before: AppState, after: AppState, command: Seq<char>) -> bool {
    match prompt_use(before, command) {
        PromptUse::Unknown => after == before,
        PromptUse::Waits => input_set(before, after, command + " "@),
        PromptUse::Sends(prompt) => prompt_sent(before, after, shown_prompt(prompt)),
    }
}

/// The message to the agent that comes with it.
pub open spec fn prompt_requests(before: AppState, command: Seq<char>) -> Seq<OutputEventView> {
    match prompt_use(before, command) {
        PromptUse::Sends(prompt) => seq![request(before, prompt)],
        PromptUse::Unknown | PromptUse::Waits => Seq::empty(),
    }
}

/// What the screen shows with it.
pub open spec fn prompt_effects(before: AppState, command: Seq<char>) -> Seq<EffectView> {
    match prompt_use(before, command) {
        PromptUse::Sends(_) => seq![EffectView::InvalidateLines],
        PromptUse::Unknown | PromptUse::Waits => Seq::empty(),
    }
}

/// Runs a command that the dropdown has a prompt for. An error says that there is none.
pub fn run_prompt_command(
    command: &str,
    state: &mut AppState,
    output_tx: &mut Vec<OutputEvent>,
    effects: &mut Vec<Effect>,
) -> (res: Result<(), String>)
    ensures
        prompted(*old(state), *final(state), command@),
        final(output_tx).deep_view() == old(output_tx).deep_view() + prompt_requests(
            *old(state),
            command@,
        ),
        final(effects).deep_view() == old(effects).deep_view() + prompt_effects(
            *old(state),
            command@,
        ),
        match res {
            Ok(_) => !(prompt_use(*old(state), command@) is Unknown),
            Err(text) => {
                &&& prompt_use(*old(state), command@) is Unknown
                &&& text@ == "Unknown command: "@ + command@
            },
        },
{
    let ghost outputs = output_tx.deep_view();
    let ghost shown = effects.deep_view();
    let content = match find_prompt(&state.input_state.helpers, command) {
        Some(content) => content,
        None => {
            proof {
                assert(outputs =~= outputs + Seq::empty());
                assert(shown =~= shown + Seq::empty());
            }
            return Err(concat2("Unknown command: ", command));
        },
    };
    if contains(content.as_str(), "{input}") && same_text(
        state.input_state.text_area.text.as_str(),
        command,
    ) {
        let text = concat2(command, " ");
        state.input_state.replace(text.as_str());
    } else {
        let extra = argument_of(state.input_state.text_area.text.as_str(), command);
        let prompt = fill_prompt(content.as_str(), extra);
        submit_prompt(state, output_tx, effects, prompt);
    }
    proof {
        assert(output_tx.deep_view() =~= outputs + prompt_requests(*old(state), command@));
        assert(effects.deep_view() =~= shown + prompt_effects(*old(state), command@));
    }
    Ok(())
}

} // verus!
