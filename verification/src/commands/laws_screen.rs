//! What holds of the lines of the command palette.
use vstd::prelude::*;
use vstd::string::*;
use vstd::utf8::encode_utf8;

use crate::app_state::{CommandPaletteState, ThemeColor};
use crate::commands::palette::{
    command_line, content_lines, fits, has_border, indicator_line, inside, max_scroll,
    palette_shown, passed, scroll_at, search_line, Area, Piece,
};
use crate::commands::registry::{Command, CommandView};
use crate::text::{decimal, has_prefix};

verus! {

/// The line of a command shows all of its name on the left and all of its shortcut on the
/// right, both in front of the background that tells whether it is selected.
pub proof fn law_line_shows_name_and_shortcut(width: nat, command: CommandView, selected: bool)
    ensures
        ({
            let line = command_line(width, command, selected);
            &&& line.len() == 2
            &&& has_prefix(line[0].text, " "@ + command.name)
            &&& line[1].text == command.shortcut + " "@
            &&& selected ==> line[0].background == Some(ThemeColor::HighlightBackground)
                && line[1].background == Some(ThemeColor::HighlightBackground) && line[0].color
                == Some(ThemeColor::HighlightForeground) && line[1].color == Some(
                ThemeColor::HighlightForeground,
            )
            &&& !selected ==> line[0].background == Some(ThemeColor::Reset) && line[1].background
                == Some(ThemeColor::Reset) && line[0].color == Some(ThemeColor::Reset)
                && line[1].color == Some(ThemeColor::DarkGray)
            &&& !line[0].bold && !line[1].bold
        }),
{
    let text = command_line(width, command, selected)[0].text;
    let front = " "@ + command.name;
    assert(text.subrange(0, front.len() as int) =~= front);
}

/// The list shows the commands from the one it is scrolled to, one to a line, as many as
/// there is room for; lines behind the last command are empty, and only the selected one
/// is marked. A line above them says that there are others before, where there are.
pub proof fn law_list_shows_what_it_is_scrolled_to(
    width: nat,
    commands: Seq<CommandView>,
    selected: nat,
    scroll: nat,
    height: nat,
    i: int,
)
    requires
        0 <= i < height,
    ensures
        ({
            let lines = content_lines(width, commands, selected, scroll, height);
            let above: int = if scroll > 0 {
                1
            } else {
                0
            };
            &&& lines.len() == above + height
            &&& scroll > 0 ==> lines[0].len() == 1 && lines[0][0].text == " ▲"@
            &&& scroll + i < commands.len() ==> lines[above + i] == command_line(
                width,
                commands[scroll + i],
                scroll + i == selected,
            )
            &&& scroll + i >= commands.len() ==> lines[above + i].len() == 0
        }),
{
}

/// The line below the list is there where not all of it is shown. It counts what was passed
/// against all commands, and points down where more follow.
pub proof fn law_indicator_counts(scroll: nat, max: nat, height: nat, total: nat)
    requires
        scroll <= max,
    ensures
        ({
            let line = indicator_line(scroll, max, height, total);
            &&& max == 0 ==> line.len() == 0
            &&& max > 0 ==> line.len() >= 1 && line[0].text == " ("@ + decimal(
                passed(scroll, height, total),
            ) + "/"@ + decimal(total) + ")"@
            &&& max > 0 && scroll < max ==> line.len() == 2 && line[1].text == " ▼"@
            &&& max > 0 && scroll == max ==> line.len() == 1
        }),
{
}

/// What was passed grows by one with each line that the list is scrolled, up to all of the
/// commands, and is one more than what fits on the screen at first.
pub proof fn law_passed_grows_with_scrolling(scroll: nat, height: nat, total: nat)
    ensures
        height < total ==> passed(0, height, total) == height + 1,
        height >= total ==> passed(0, height, total) == total,
        passed(scroll, height, total) < total ==> passed(scroll + 1, height, total) == passed(
            scroll,
            height,
            total,
        ) + 1,
        passed(scroll, height, total) == total ==> passed(scroll + 1, height, total) == total,
{
}

/// The list can be scrolled until the empty lines asked for stand below it and no further,
/// and is scrolled as far as wanted within that.
pub proof fn law_scrolling_ends_at_the_buffer(wanted: nat, total: nat, height: nat, buffer: nat)
    ensures
        buffer <= height && total + buffer >= height ==> max_scroll(total, height, buffer) + height
            == total + buffer,
        buffer <= height && total + buffer < height ==> max_scroll(total, height, buffer) == 0,
        buffer > height ==> max_scroll(total, height, buffer) == total,
        wanted <= max_scroll(total, height, buffer) ==> scroll_at(
            wanted,
            max_scroll(total, height, buffer),
        ) == wanted,
        wanted > max_scroll(total, height, buffer) ==> scroll_at(
            wanted,
            max_scroll(total, height, buffer),
        ) == max_scroll(total, height, buffer),
{
}

/// The text that was typed stands in the search line, in bold, before the cursor; without
/// one a hint stands behind the cursor.
pub proof fn law_search_line_shows_the_search(search: Seq<char>)
    ensures
        search.len() > 0 ==> search_line(search).len() == 6 && search_line(search)[3].text == search
            && search_line(search)[3].bold && search_line(search)[4].text == "|"@,
        search.len() == 0 ==> search_line(search).len() == 6 && search_line(search)[3].text == "|"@
            && search_line(search)[4].text == "Type to filter"@,
{
}

/// The palette shows what its state and the commands say, exactly where each shortcut on
/// the screen has room beside the borders.
pub proof fn law_palette_shows_its_state(
    state: CommandPaletteState,
    commands: Seq<CommandView>,
    width: nat,
    height: nat,
    buffer: nat,
)
    ensures
        ({
            let max = max_scroll(commands.len(), height, buffer);
            let scroll = scroll_at(state.scroll as nat, max);
            let shown = palette_shown(state, commands, width, height, buffer);
            &&& shown is Some <==> forall|i: int|
                scroll <= i < scroll + height && i < commands.len() ==> (encode_utf8(
                    (#[trigger] commands[i]).shortcut,
                ).len() as usize) + 4 <= width
            &&& shown matches Some(text) ==> {
                &&& text.search == search_line(state.search@)
                &&& text.content == content_lines(
                    width,
                    commands,
                    state.is_selected as nat,
                    scroll,
                    height,
                )
                &&& text.indicator == indicator_line(scroll, max, height, commands.len())
                &&& text.title.len() == 1 && text.title[0].text == " Command Palette "@
                &&& text.help.len() == 8
            }
        }),
{
    let max = max_scroll(commands.len(), height, buffer);
    let scroll = scroll_at(state.scroll as nat, max);
    if palette_shown(state, commands, width, height, buffer) is Some {
        assert forall|i: int| scroll <= i < scroll + height && i < commands.len() implies (
        encode_utf8((#[trigger] commands[i]).shortcut).len() as usize) + 4 <= width by {
            assert(fits(width, commands[i]));
        }
    }
}

/// The inside of an area leaves one cell on each side.
pub proof fn law_inside_leaves_a_border(area: Area)
    requires
        has_border(area),
    ensures
        inside(area).x == area.x + 1,
        inside(area).y == area.y + 1,
        inside(area).x + inside(area).width == area.x + area.width - 1,
        inside(area).y + inside(area).height == area.y + area.height - 1,
{
}

/// The models of a command and of a piece of a line leave nothing of them out.
pub proof fn law_screen_models_leave_nothing_out(command: Command, piece: Piece)
    ensures
        command.deep_view().name == command.name@,
        command.deep_view().description == command.description@,
        command.deep_view().shortcut == command.shortcut@,
        command.deep_view().action == command.action,
        piece.deep_view().text == piece.text@,
        piece.deep_view().color == piece.color,
        piece.deep_view().background == piece.background,
        piece.deep_view().bold == piece.bold,
{
}

} // verus!
