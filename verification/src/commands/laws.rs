//! What holds of the commands as a whole.
use vstd::prelude::*;
use vstd::string::*;

use crate::app_state::{
    byte_length, AppState, AutoApproveManager, AutoApprovePolicy, Message, MessageView, ToolPolicy,
};
use crate::commands::approvals::{allows, auto_approved, needs_no_approval};
use crate::commands::execute::{
    built_in, effects_of, executed, inputs_of, is_unknown, outputs_of, step_of, BuiltIn,
    CommandStepView,
};
use crate::commands::palette::{
    asked, asked_at_least, command_line, fits, grants, has_border, indicator_line, inside,
    max_scroll, palette_rows, passed, row_top, scroll_at, splits, Area,
};
use crate::commands::prompts::{prompt_sent, request};
use crate::commands::registry::{
    action_id, answers, built_in_helpers, left_by, palette, CommandAction, CommandView,
};
use crate::commands::sessions::{
    kills, ready_for_new, ready_to_resume, shell_terminated, without_shell_box,
};
use crate::commands::summary::{inputs_in, last_of, recent_inputs};
use crate::events::OutputEventView;
use crate::text::{has_prefix, lowercase, occurs_at, padded};

verus! {

/// The command of the dropdown at each position.
pub open spec fn built_in_order() -> Seq<BuiltIn> {
    seq![
        BuiltIn::Help,
        BuiltIn::Model,
        BuiltIn::Clear,
        BuiltIn::Status,
        BuiltIn::Sessions,
        BuiltIn::Resume,
        BuiltIn::New,
        BuiltIn::Summarize,
        BuiltIn::Usage,
        BuiltIn::Issue,
        BuiltIn::Editor,
        BuiltIn::Support,
        BuiltIn::ListApprovedTools,
        BuiltIn::ToggleAutoApprove,
        BuiltIn::MouseCapture,
        BuiltIn::Profiles,
        BuiltIn::Quit,
        BuiltIn::Shortcuts,
        BuiltIn::Plan,
        BuiltIn::Init,
    ]
}

/// Each name goes to its own command, as no two names have the same letters.
pub(crate) proof fn lemma_names()
    ensures
        built_in("/help"@) == Some(BuiltIn::Help),
        built_in("/model"@) == Some(BuiltIn::Model),
        built_in("/clear"@) == Some(BuiltIn::Clear),
        built_in("/status"@) == Some(BuiltIn::Status),
        built_in("/sessions"@) == Some(BuiltIn::Sessions),
        built_in("/resume"@) == Some(BuiltIn::Resume),
        built_in("/new"@) == Some(BuiltIn::New),
        built_in("/summarize"@) == Some(BuiltIn::Summarize),
        built_in("/usage"@) == Some(BuiltIn::Usage),
        built_in("/issue"@) == Some(BuiltIn::Issue),
        built_in("/support"@) == Some(BuiltIn::Support),
        built_in("/quit"@) == Some(BuiltIn::Quit),
        built_in("/toggle_auto_approve"@) == Some(BuiltIn::ToggleAutoApprove),
        built_in("/profiles"@) == Some(BuiltIn::Profiles),
        built_in("/list_approved_tools"@) == Some(BuiltIn::ListApprovedTools),
        built_in("/mouse_capture"@) == Some(BuiltIn::MouseCapture),
        built_in("/editor"@) == Some(BuiltIn::Editor),
        built_in("/shortcuts"@) == Some(BuiltIn::Shortcuts),
        built_in("/plan"@) == Some(BuiltIn::Plan),
        built_in("/init"@) == Some(BuiltIn::Init),
{
    reveal_strlit("/help");
    reveal_strlit("/model");
    reveal_strlit("/clear");
    reveal_strlit("/status");
    reveal_strlit("/sessions");
    reveal_strlit("/resume");
    reveal_strlit("/new");
    reveal_strlit("/summarize");
    reveal_strlit("/usage");
    reveal_strlit("/issue");
    reveal_strlit("/support");
    reveal_strlit("/quit");
    reveal_strlit("/toggle_auto_approve");
    reveal_strlit("/profiles");
    reveal_strlit("/list_approved_tools");
    reveal_strlit("/mouse_capture");
    reveal_strlit("/editor");
    reveal_strlit("/shortcuts");
    reveal_strlit("/plan");
    reveal_strlit("/init");
    assert("/help"@.len() == 5 && "/help"@[1] == 'h');
    assert("/model"@.len() == 6 && "/model"@[1] == 'm');
    assert("/clear"@.len() == 6 && "/clear"@[1] == 'c');
    assert("/status"@.len() == 7 && "/status"@[1] == 's');
    assert("/sessions"@.len() == 9 && "/sessions"@[1] == 's');
    assert("/resume"@.len() == 7 && "/resume"@[1] == 'r');
    assert("/new"@.len() == 4 && "/new"@[1] == 'n');
    assert("/summarize"@.len() == 10 && "/summarize"@[2] == 'u');
    assert("/usage"@.len() == 6 && "/usage"@[1] == 'u');
    assert("/issue"@.len() == 6 && "/issue"@[1] == 'i');
    assert("/support"@.len() == 8 && "/support"@[1] == 's');
    assert("/quit"@.len() == 5 && "/quit"@[1] == 'q');
    assert("/toggle_auto_approve"@.len() == 20 && "/toggle_auto_approve"@[1] == 't');
    assert("/profiles"@.len() == 9 && "/profiles"@[1] == 'p');
    assert("/list_approved_tools"@.len() == 20 && "/list_approved_tools"@[1] == 'l');
    assert("/mouse_capture"@.len() == 14 && "/mouse_capture"@[1] == 'm');
    assert("/editor"@.len() == 7 && "/editor"@[1] == 'e');
    assert("/shortcuts"@.len() == 10 && "/shortcuts"@[2] == 'h');
    assert("/plan"@.len() == 5 && "/plan"@[1] == 'p');
    assert("/init"@.len() == 5 && "/init"@[1] == 'i');
}

/// Each command of the dropdown is one that the interface knows, and no two of them are
/// the same.
pub proof fn law_dropdown_commands_run(i: int)
    requires
        0 <= i < built_in_helpers().len(),
    ensures
        built_in(built_in_helpers()[i].command) == Some(built_in_order()[i]),
        forall|j: int|
            0 <= j < built_in_helpers().len() && i != j ==> built_in_helpers()[i].command != (
            #[trigger] built_in_helpers()[j]).command,
{
    lemma_names();
    assert forall|j: int|
        0 <= j < built_in_helpers().len() && i != j implies built_in_helpers()[i].command != (
    #[trigger] built_in_helpers()[j]).command by {
        assert(built_in(built_in_helpers()[j].command) == Some(built_in_order()[j]));
        assert(built_in_order()[i] != built_in_order()[j]);
    }
}

/// Each command that the interface knows stands in the dropdown.
pub proof fn law_dropdown_complete(command: BuiltIn)
    ensures
        exists|i: int|
            0 <= i < built_in_helpers().len() && built_in(
                (#[trigger] built_in_helpers()[i]).command,
            ) == Some(command),
{
    let order = built_in_order();
    let at: int = match command {
        BuiltIn::Help => 0,
        BuiltIn::Model => 1,
        BuiltIn::Clear => 2,
        BuiltIn::Status => 3,
        BuiltIn::Sessions => 4,
        BuiltIn::Resume => 5,
        BuiltIn::New => 6,
        BuiltIn::Summarize => 7,
        BuiltIn::Usage => 8,
        BuiltIn::Issue => 9,
        BuiltIn::Editor => 10,
        BuiltIn::Support => 11,
        BuiltIn::ListApprovedTools => 12,
        BuiltIn::ToggleAutoApprove => 13,
        BuiltIn::MouseCapture => 14,
        BuiltIn::Profiles => 15,
        BuiltIn::Quit => 16,
        BuiltIn::Shortcuts => 17,
        BuiltIn::Plan => 18,
        BuiltIn::Init => 19,
    };
    law_dropdown_commands_run(at);
    assert(order[at] == command);
    assert(built_in(built_in_helpers()[at].command) == Some(command));
}

/// The interface knows no command besides those of the dropdown: each name that it knows
/// stands there.
pub proof fn law_known_names_are_in_the_dropdown(id: Seq<char>)
    requires
        built_in(id) is Some,
    ensures
        exists|i: int|
            0 <= i < built_in_helpers().len() && (#[trigger] built_in_helpers()[i]).command == id,
{
    law_dropdown_complete(built_in(id)->0);
    let i = choose|i: int|
        0 <= i < built_in_helpers().len() && built_in((#[trigger] built_in_helpers()[i]).command)
            == built_in(id);
    lemma_names();
    assert(built_in_helpers()[i].command == id);
}

/// The slash command of each action of the palette is one that the interface knows.
pub proof fn law_palette_actions_run(action: CommandAction)
    ensures
        action_id(action) matches Some(id) ==> built_in(id) is Some,
{
    lemma_names();
}

/// A shortcut of the palette that begins with a slash is the slash command of its action.
pub proof fn law_palette_shortcuts_are_commands(i: int)
    requires
        0 <= i < palette().len(),
    ensures
        has_prefix(palette()[i].shortcut, "/"@) ==> action_id(palette()[i].action) == Some(
            palette()[i].shortcut,
        ),
{
    reveal_strlit("/");
    reveal_strlit("$");
    reveal_strlit("Ctrl+F");
    reveal_strlit("Ctrl+K");
    reveal_strlit("Ctrl+G");
    reveal_strlit("Ctrl+S");
    reveal_strlit("Ctrl+M");
    let shortcut = palette()[i].shortcut;
    if has_prefix(shortcut, "/"@) {
        assert(shortcut[0] == shortcut.subrange(0, 1)[0]);
        assert(shortcut[0] == '/');
    }
}

/// A command is found under its own name.
pub proof fn law_found_by_own_name(i: int)
    requires
        0 <= i < palette().len(),
    ensures
        left_by(palette()[i].name).contains(palette()[i]),
{
    let command = palette()[i];
    let wanted = |other: CommandView| answers(other, command.name);
    let name = lowercase(command.name);
    assert(name.subrange(0, name.len() as int) =~= name);
    assert(occurs_at(name, name, 0));
    assert(wanted(command));
    if command.name.len() > 0 {
        palette().lemma_filter_contains(wanted, i);
    } else {
        assert(palette()[i] == command);
    }
}

/// What a query leaves are commands of the palette that answer it, and all of those.
pub proof fn law_query_leaves_those_that_answer(query: Seq<char>, command: CommandView)
    requires
        query.len() > 0,
    ensures
        left_by(query).contains(command) <==> palette().contains(command) && answers(
            command,
            query,
        ),
        left_by(query).len() <= palette().len(),
{
    let wanted = |other: CommandView| answers(other, query);
    palette().lemma_filter_len(wanted);
    if left_by(query).contains(command) {
        let at = choose|at: int| 0 <= at < left_by(query).len() && left_by(query)[at] == command;
        palette().lemma_filter_pred(wanted, at);
        palette().lemma_filter_contains_rev(wanted, command);
    }
    if palette().contains(command) && answers(command, query) {
        let at = choose|at: int| 0 <= at < palette().len() && palette()[at] == command;
        assert(wanted(palette()[at]));
        palette().lemma_filter_contains(wanted, at);
    }
}

/// Whatever the command, the agent is told of the call first, and of at most one thing
/// more.
pub proof fn law_call_is_told_first(id: Seq<char>, before: AppState)
    ensures
        outputs_of(id, before).len() > 0,
        outputs_of(id, before)[0] == OutputEventView::CommandCalled(id),
        outputs_of(id, before).len() <= 2,
{
}

/// A command that nobody knows changes nothing; only the call itself is told.
pub proof fn law_unknown_changes_nothing(id: Seq<char>, before: AppState, after: AppState)
    requires
        is_unknown(id, before),
        executed(id, before, after),
    ensures
        after == before,
        inputs_of(id, before).len() == 0,
        outputs_of(id, before) == seq![OutputEventView::CommandCalled(id)],
        effects_of(id, before).len() == 0,
{
    assert(outputs_of(id, before) =~= seq![OutputEventView::CommandCalled(id)]);
}

/// A command that is known and done leaves the input empty or ready for an argument, with
/// the dropdown closed. The one that has to ask about unsaved settings first leaves it as
/// it is.
pub proof fn law_done_command_leaves_input(id: Seq<char>, before: AppState, after: AppState)
    requires
        executed(id, before, after),
        !is_unknown(id, before),
        step_of(id, before) == CommandStepView::Done,
        !(built_in(id) == Some(BuiltIn::New)
            && before.configuration_state.auto_approve_manager.unsaved_changes),
    ensures
        !after.input_state.show_helper_dropdown,
        after.input_state.text_area.text@ == ""@ || after.input_state.text_area.text@ == id + " "@,
        after.input_state.text_area.cursor == byte_length(after.input_state.text_area.text@),
{
    reveal_strlit("/toggle_auto_approve");
    reveal_strlit("/toggle_auto_approve ");
    reveal_strlit("/editor");
    reveal_strlit("/editor ");
    reveal_strlit(" ");
    assert("/toggle_auto_approve "@ =~= "/toggle_auto_approve"@ + " "@);
    assert("/editor "@ =~= "/editor"@ + " "@);
}

/// What the user's own shell commands gave goes to the agent with one prompt only: the
/// next one carries nothing of it.
pub proof fn law_shell_results_go_once(
    before: AppState,
    after: AppState,
    shown: Seq<MessageView>,
    prompt: Seq<char>,
)
    requires
        prompt_sent(before, after, shown),
    ensures
        request(after, prompt) == OutputEventView::UserMessage(prompt, None, Seq::empty(), None),
{
}

/// Once the shell was stopped there is nothing left to stop, and stopping it again
/// changes nothing.
pub proof fn law_shell_stops_once(before: AppState, after: AppState, again: AppState)
    requires
        shell_terminated(before, after),
        shell_terminated(after, again),
    ensures
        kills(after).len() == 0,
        again.messages_scrolling_state.messages@ == after.messages_scrolling_state.messages@,
        again.shell_popup_state == after.shell_popup_state,
        again.shell_session_state == after.shell_session_state,
        again.dialog_approval_state == after.dialog_approval_state,
        again.input_state == after.input_state,
{
}

/// The box of the interactive shell is gone once the shell was stopped; all other
/// messages stay.
pub proof fn law_shell_box_goes(before: AppState, after: AppState, i: int)
    requires
        shell_terminated(before, after),
        before.shell_session_state.interactive_shell_message_id is Some,
        0 <= i < before.messages_scrolling_state.messages.len(),
    ensures
        after.messages_scrolling_state.messages@.contains(
            before.messages_scrolling_state.messages[i],
        ) <==> before.messages_scrolling_state.messages[i].id
            != before.shell_session_state.interactive_shell_message_id,
{
    let id = before.shell_session_state.interactive_shell_message_id->0;
    let kept = |message: Message| message.id != Some(id);
    let messages = before.messages_scrolling_state.messages@;
    if kept(messages[i]) {
        messages.lemma_filter_contains(kept, i);
    }
    if messages.filter(kept).contains(messages[i]) {
        let at = choose|at: int|
            0 <= at < messages.filter(kept).len() && messages.filter(kept)[at] == messages[i];
        messages.lemma_filter_pred(kept, at);
    }
}

/// After a new session was begun or the last one is resumed, no shell command runs, no
/// message is left and nothing of the usage is.
pub proof fn law_fresh_session_is_clean(before: AppState, after: AppState)
    requires
        ready_for_new(before, after) || ready_to_resume(before, after),
    ensures
        kills(after).len() == 0,
        after.messages_scrolling_state.messages.len() == 0,
        after.session_tool_calls_state.session_tool_calls_queue.len() == 0,
        after.usage_tracking_state.total_session_usage@.total == 0,
        after.input_state.text_area.text@ == ""@,
        without_shell_box(
            after.messages_scrolling_state.messages@,
            after.shell_session_state.interactive_shell_message_id,
        ) == after.messages_scrolling_state.messages@,
{
}

/// The prompt for a summary repeats at most `limit` inputs, and they are the latest ones.
pub proof fn law_recent_inputs_are_the_latest(messages: Seq<MessageView>, limit: nat)
    requires
        limit > 0,
    ensures
        recent_inputs(messages, limit).len() <= limit,
        recent_inputs(messages, limit).len() <= inputs_in(messages).len(),
        recent_inputs(messages, limit) == inputs_in(messages).skip(
            inputs_in(messages).len() - recent_inputs(messages, limit).len(),
        ),
{
    let all = inputs_in(messages);
    assert(all.skip(0) =~= all);
    assert(recent_inputs(messages, limit) == last_of(all, limit));
}

/// A tool is listed if and only if it is set to need no approval and may be used at all.
pub proof fn law_listed_tools(
    tools: Seq<ToolPolicy>,
    allowed: Option<Vec<String>>,
    tool: Seq<char>,
)
    ensures
        auto_approved(tools, allowed).contains(tool) <==> exists|i: int|
            0 <= i < tools.len() && (#[trigger] tools[i]).tool@ == tool && tools[i].policy
                == AutoApprovePolicy::Auto && allows(allowed, tool),
{
    let chosen = |policy: ToolPolicy| needs_no_approval(allowed, policy);
    let kept = tools.filter(chosen);
    let listed = auto_approved(tools, allowed);
    if listed.contains(tool) {
        let at = choose|at: int| 0 <= at < listed.len() && listed[at] == tool;
        tools.lemma_filter_pred(chosen, at);
        assert(kept.contains(kept[at]));
        tools.lemma_filter_contains_rev(chosen, kept[at]);
        let i = choose|i: int| 0 <= i < tools.len() && tools[i] == kept[at];
        assert(tools[i].tool@ == tool);
    }
    if exists|i: int|
        0 <= i < tools.len() && (#[trigger] tools[i]).tool@ == tool && tools[i].policy
            == AutoApprovePolicy::Auto && allows(allowed, tool) {
        let i = choose|i: int|
            0 <= i < tools.len() && (#[trigger] tools[i]).tool@ == tool && tools[i].policy
                == AutoApprovePolicy::Auto && allows(allowed, tool);
        assert(chosen(tools[i]));
        tools.lemma_filter_contains(chosen, i);
        let at = choose|at: int| 0 <= at < kept.len() && kept[at] == tools[i];
        assert(listed[at] == tool);
    }
}

/// No tool is listed twice.
pub proof fn law_listed_tools_distinct(manager: AutoApproveManager, allowed: Option<Vec<String>>)
    requires
        manager.well_formed(),
    ensures
        auto_approved(manager.tools@, allowed).no_duplicates(),
{
    lemma_listed_distinct(manager.tools@, allowed);
}

/// No name occurs twice among the listed tools where none does among all of them.
proof fn lemma_listed_distinct(tools: Seq<ToolPolicy>, allowed: Option<Vec<String>>)
    requires
        forall|i: int, j: int|
            0 <= i < j < tools.len() ==> (#[trigger] tools[i]).tool@ != (
            #[trigger] tools[j]).tool@,
    ensures
        auto_approved(tools, allowed).no_duplicates(),
    decreases tools.len(),
{
    let chosen = |policy: ToolPolicy| needs_no_approval(allowed, policy);
    if tools.len() == 0 {
        tools.lemma_filter_len(chosen);
    } else {
        let rest = tools.drop_last();
        let last = tools.last();
        lemma_listed_distinct(rest, allowed);
        law_listed_tools(rest, allowed, last.tool@);
        assert(tools =~= rest.push(last));
        rest.lemma_filter_push(last, chosen);
        if chosen(last) {
            assert(auto_approved(tools, allowed) =~= auto_approved(rest, allowed).push(last.tool@));
        } else {
            assert(auto_approved(tools, allowed) =~= auto_approved(rest, allowed));
        }
    }
}

/// Where there is room, the list of the palette takes all the lines that the other rows
/// leave, and the scroll indicators and the help stand at the foot.
pub proof fn law_list_takes_the_rest(area: Area, parts: Seq<Area>)
    requires
        has_border(area),
        area.height >= 11,
        splits(inside(area), palette_rows(), parts),
    ensures
        parts[0].y == area.y + 1 && parts[0].height == 1,
        parts[1].y == area.y + 2 && parts[1].height == 3,
        parts[2].y == area.y + 5 && parts[2].height == area.height - 8,
        parts[3].y == area.y + area.height - 3 && parts[3].height == 1,
        parts[4].y == area.y + area.height - 2 && parts[4].height == 1,
{
    lemma_palette_asks();
    let rows = palette_rows();
    assert(rows[2] is Min);
    assert(grants(rows[0], parts[0]) && parts[0].y == row_top(inside(area), parts, 0));
    assert(grants(rows[1], parts[1]) && parts[1].y == row_top(inside(area), parts, 1));
    assert(grants(rows[2], parts[2]) && parts[2].y == row_top(inside(area), parts, 2));
    assert(grants(rows[3], parts[3]) && parts[3].y == row_top(inside(area), parts, 3));
    assert(grants(rows[4], parts[4]) && parts[4].y == row_top(inside(area), parts, 4));
}

/// However little room there is, the list of the palette has three lines where there are
/// three.
pub proof fn law_list_keeps_three_lines(area: Area, parts: Seq<Area>)
    requires
        has_border(area),
        area.height >= 5,
        splits(inside(area), palette_rows(), parts),
    ensures
        parts[2].height >= 3,
{
    lemma_palette_asks();
    assert(palette_rows()[2] is Min);
    assert(grants(palette_rows()[2], parts[2]));
}

/// What the rows of the palette ask for.
proof fn lemma_palette_asks()
    ensures
        asked(palette_rows()) == 9,
        asked_at_least(palette_rows()) == 3,
{
    reveal_with_fuel(asked, 6);
    reveal_with_fuel(asked_at_least, 6);
}

/// The line of a command fills the palette from border to border, as long as its name
/// leaves room for the shortcut.
pub proof fn law_line_fills_palette(width: nat, command: CommandView, selected: bool)
    requires
        fits(width, command),
        byte_length(command.shortcut) == command.shortcut.len(),
        command.name.len() + command.shortcut.len() + 4 <= width,
    ensures
        command_line(width, command, selected)[0].text.len() + command_line(
            width,
            command,
            selected,
        )[1].text.len() == width - 2,
{
    reveal_strlit(" ");
    let room = (width - 4 - byte_length(command.shortcut)) as nat;
    assert(padded(command.name, room).len() == room);
}

/// The counter never passes the number of commands, and reaches it where the list is
/// scrolled to its end.
pub proof fn law_counter_reaches_total(wanted: nat, total: nat, height: nat, buffer: nat)
    ensures
        ({
            let max = max_scroll(total, height, buffer);
            let scroll = scroll_at(wanted, max);
            &&& scroll <= max <= total
            &&& passed(scroll, height, total) <= total
            &&& scroll == max ==> passed(scroll, height, total) == total
        }),
{
}

/// Where all commands have room on the screen, the list does not scroll and no counter
/// is shown.
pub proof fn law_short_list_does_not_scroll(wanted: nat, total: nat, height: nat, buffer: nat)
    requires
        total + buffer <= height,
    ensures
        max_scroll(total, height, buffer) == 0,
        scroll_at(wanted, max_scroll(total, height, buffer)) == 0,
        indicator_line(0, max_scroll(total, height, buffer), height, total).len() == 0,
{
}

} // verus!
