//! What the command palette shows, line by line.
use ratatui::layout::{Constraint, Layout, Rect};
use vstd::prelude::*;
use vstd::string::*;

use crate::app_state::{byte_length, CommandPaletteState, ThemeColor};
use crate::commands::registry::{filter_commands, left_by, Command, CommandView};
use crate::text::{concat2, decimal, decimal_text, pad, padded};

verus! {

/// A rectangle of the screen, in cells.
#[derive(Debug, Clone, Copy, PartialEq, Eq, Structural)]
pub struct Area {
    pub x: u16,
    pub y: u16,
    pub width: u16,
    pub height: u16,
}

/// How high a row is to be.
#[derive(Debug, Clone, Copy, PartialEq, Eq, Structural)]
pub enum RowHeight {
    Length(u16),
    Min(u16),
}

/// The rows that an area is split into: each is as wide as the area and lies inside it.
/// Where there is room for what all of them ask for, each has the height it asks for, or
/// at least that, and they lie one below the other from the top of the area, without a
/// gap. The rows with a least height then take all that is left over. Where there is too
/// little room, those rows keep their least height as long as there is room for that.
pub open spec fn splits(area: Area, rows: Seq<RowHeight>, parts: Seq<Area>) -> bool {
    &&& parts.len() == rows.len()
    &&& forall|i: int| 0 <= i < parts.len() ==> (#[trigger] parts[i]).x == area.x
        && parts[i].width == area.width && area.y <= parts[i].y && parts[i].y + parts[i].height
        <= area.y + area.height
    &&& asked(rows) <= area.height ==> forall|i: int|
        0 <= i < parts.len() ==> grants(rows[i], #[trigger] parts[i]) && parts[i].y == row_top(
            area,
            parts,
            i,
        )
    &&& asked(rows) <= area.height && has_min(rows) ==> parts.last().y + parts.last().height
        == area.y + area.height
    &&& asked_at_least(rows) <= area.height ==> forall|i: int|
        0 <= i < parts.len() && rows[i] is Min ==> grants(rows[i], #[trigger] parts[i])
}

/// Some row has a least height.
pub open spec fn has_min(rows: Seq<RowHeight>) -> bool {
    exists|i: int| 0 <= i < rows.len() && (#[trigger] rows[i]) is Min
}

/// Where a row begins: at the top of the area, or below the row before it.
pub open spec fn row_top(area: Area, parts: Seq<Area>, i: int) -> int {
    if i == 0 {
        area.y as int
    } else {
        parts[i - 1].y + parts[i - 1].height
    }
}

/// The height that the rows ask for together.
pub open spec fn asked(rows: Seq<RowHeight>) -> nat
    decreases rows.len(),
{
    if rows.len() == 0 {
        0
    } else {
        asked(rows.drop_last()) + match rows.last() {
            RowHeight::Length(height) => height as nat,
            RowHeight::Min(height) => height as nat,
        }
    }
}

/// The height that the rows with a least height ask for together.
pub open spec fn asked_at_least(rows: Seq<RowHeight>) -> nat
    decreases rows.len(),
{
    if rows.len() == 0 {
        0
    } else {
        asked_at_least(rows.drop_last()) + match rows.last() {
            RowHeight::Length(_) => 0,
            RowHeight::Min(height) => height as nat,
        }
    }
}

/// The row has the height it asks for.
pub open spec fn grants(row: RowHeight, part: Area) -> bool {
    match row {
        RowHeight::Length(height) => part.height == height,
        RowHeight::Min(height) => part.height >= height,
    }
}

/// The heights are within what the layout solver takes without loss.
pub open spec fn plain_rows(rows: Seq<RowHeight>) -> bool {
    &&& rows.len() <= 16
    &&& forall|i: int|
        0 <= i < rows.len() ==> match #[trigger] rows[i] {
            RowHeight::Length(height) => height <= 0x7fff,
            RowHeight::Min(height) => height <= 0x7fff,
        }
}

/// `ratatui::layout::Layout::split`, from top to bottom: the rows are as wide as the area
/// and lie inside it. Where there is room for all of them, each has the height that it
/// asks for and begins where the one before it ends, and what is left over goes to the
/// rows with a least height: each of them is drawn to the height of the whole area, ten
/// times as strongly as the space behind the last row. A least height is ten times as
/// strong as a fixed one, so it is kept where there is too little room. How several rows
/// with a least height share what is left over, and which row of fixed height gives way,
/// is not stated.
#[verifier::external_body]
pub(crate) fn split_rows(area: Area, rows: &Vec<RowHeight>) -> (res: Vec<Area>)
    requires
        plain_rows(rows@),
        area.y + area.height <= 0xffff,
    ensures
        splits(area, rows@, res@),
{
    let heights = rows.iter().map(|row| match row {
        RowHeight::Length(height) => Constraint::Length(*height),
        RowHeight::Min(height) => Constraint::Min(*height),
    });
    let parts = Layout::vertical(heights).split(Rect {
        x: area.x,
        y: area.y,
        width: area.width,
        height: area.height,
    });
    parts
        .iter()
        .map(|part| Area { x: part.x, y: part.y, width: part.width, height: part.height })
        .collect()
}

/// The area inside a border of one cell.
pub open spec fn inside(area: Area) -> Area {
    Area {
        x: (area.x + 1) as u16,
        y: (area.y + 1) as u16,
        width: (area.width - 2) as u16,
        height: (area.height - 2) as u16,
    }
}

/// There is room for a border, and the area lies on the screen.
pub open spec fn has_border(area: Area) -> bool {
    &&& area.width >= 2
    &&& area.height >= 2
    &&& area.x + area.width <= 0xffff
    &&& area.y + area.height <= 0xffff
}

/// The rows of the palette: title, search, content, scroll indicators and help.
pub open spec fn palette_rows() -> Seq<RowHeight> {
    seq![
        RowHeight::Length(1),
        RowHeight::Length(3),
        RowHeight::Min(3),
        RowHeight::Length(1),
        RowHeight::Length(1),
    ]
}

/// The areas of the rows of the palette, inside its border.
pub fn palette_areas(area: Area) -> (res: Vec<Area>)
    requires
        has_border(area),
    ensures
        splits(inside(area), palette_rows(), res@),
{
    let inner = Area {
        x: area.x + 1,
        y: area.y + 1,
        width: area.width - 2,
        height: area.height - 2,
    };
    let rows = vec![
        RowHeight::Length(1),
        RowHeight::Length(3),
        RowHeight::Min(3),
        RowHeight::Length(1),
        RowHeight::Length(1),
    ];
    proof {
        assert(rows@ =~= palette_rows());
    }
    split_rows(inner, &rows)
}

/// A piece of a line, in its colours.
#[derive(Debug, PartialEq, Eq)]
pub struct Piece {
    pub text: String,
    pub color: Option<ThemeColor>,
    pub background: Option<ThemeColor>,
    pub bold: bool,
}

/// The model of a [`Piece`].
pub struct PieceView {
    pub text: Seq<char>,
    pub color: Option<ThemeColor>,
    pub background: Option<ThemeColor>,
    pub bold: bool,
}

impl DeepView for Piece {
    type V = PieceView;

    open spec fn deep_view(&self) -> PieceView {
        PieceView {
            text: self.text@,
            color: self.color,
            background: self.background,
            bold: self.bold,
        }
    }
}

/// A piece without colours.
pub open spec fn raw(text: Seq<char>) -> PieceView {
    PieceView { text, color: None, background: None, bold: false }
}

/// A piece in a colour.
pub open spec fn colored(text: Seq<char>, color: ThemeColor) -> PieceView {
    PieceView { text, color: Some(color), background: None, bold: false }
}

/// A piece in a colour, in bold.
pub open spec fn emphasized(text: Seq<char>, color: ThemeColor) -> PieceView {
    PieceView { text, color: Some(color), background: None, bold: true }
}

/// A piece in a colour on a background.
pub open spec fn filled(text: Seq<char>, color: ThemeColor, background: ThemeColor) -> PieceView {
    PieceView { text, color: Some(color), background: Some(background), bold: false }
}

impl Piece {
    fn raw(text: &str) -> (res: Self)
        ensures
            res.deep_view() == raw(text@),
    {
        Piece { text: text.to_string(), color: None, background: None, bold: false }
    }

    fn colored(text: &str, color: ThemeColor) -> (res: Self)
        ensures
            res.deep_view() == colored(text@, color),
    {
        Piece { text: text.to_string(), color: Some(color), background: None, bold: false }
    }

    fn emphasized(text: &str, color: ThemeColor) -> (res: Self)
        ensures
            res.deep_view() == emphasized(text@, color),
    {
        Piece { text: text.to_string(), color: Some(color), background: None, bold: true }
    }

    fn filled(text: String, color: ThemeColor, background: ThemeColor) -> (res: Self)
        ensures
            res.deep_view() == filled(text@, color, background),
    {
        Piece { text, color: Some(color), background: Some(background), bold: false }
    }
}

/// The title line.
pub open spec fn title_line() -> Seq<PieceView> {
    seq![emphasized(" Command Palette "@, ThemeColor::Yellow)]
}

/// The line with the search text, or with a hint where there is none.
pub open spec fn search_line(search: Seq<char>) -> Seq<PieceView> {
    if search.len() == 0 {
        seq![
            raw(" "@),
            colored(">"@, ThemeColor::Magenta),
            raw(" "@),
            colored("|"@, ThemeColor::Cyan),
            colored("Type to filter"@, ThemeColor::DarkGray),
            raw(" "@),
        ]
    } else {
        seq![
            raw(" "@),
            colored(">"@, ThemeColor::Magenta),
            raw(" "@),
            emphasized(search, ThemeColor::Text),
            colored("|"@, ThemeColor::Cyan),
            raw(" "@),
        ]
    }
}

/// The help line.
pub open spec fn help_line() -> Seq<PieceView> {
    seq![
        colored(" ↑/↓"@, ThemeColor::DarkGray),
        colored(" navigate"@, ThemeColor::Cyan),
        raw("  "@),
        colored("enter"@, ThemeColor::DarkGray),
        colored(" select"@, ThemeColor::Cyan),
        raw("  "@),
        colored("esc"@, ThemeColor::DarkGray),
        colored(" close"@, ThemeColor::Cyan),
    ]
}

/// The title line.
fn write_title() -> (res: Vec<Piece>)
    ensures
        res.deep_view() == title_line(),
{
    let line = vec![Piece::emphasized(" Command Palette ", ThemeColor::Yellow)];
    assert(line.deep_view() =~= title_line());
    line
}

/// The line with the search text.
fn write_search(search: &str) -> (res: Vec<Piece>)
    ensures
        res.deep_view() == search_line(search@),
{
    let line = if search.is_empty() {
        vec![
            Piece::raw(" "),
            Piece::colored(">", ThemeColor::Magenta),
            Piece::raw(" "),
            Piece::colored("|", ThemeColor::Cyan),
            Piece::colored("Type to filter", ThemeColor::DarkGray),
            Piece::raw(" "),
        ]
    } else {
        vec![
            Piece::raw(" "),
            Piece::colored(">", ThemeColor::Magenta),
            Piece::raw(" "),
            Piece::emphasized(search, ThemeColor::Text),
            Piece::colored("|", ThemeColor::Cyan),
            Piece::raw(" "),
        ]
    };
    assert(line.deep_view() =~= search_line(search@));
    line
}

/// The help line.
fn write_help() -> (res: Vec<Piece>)
    ensures
        res.deep_view() == help_line(),
{
    let line = vec![
        Piece::colored(" ↑/↓", ThemeColor::DarkGray),
        Piece::colored(" navigate", ThemeColor::Cyan),
        Piece::raw("  "),
        Piece::colored("enter", ThemeColor::DarkGray),
        Piece::colored(" select", ThemeColor::Cyan),
        Piece::raw("  "),
        Piece::colored("esc", ThemeColor::DarkGray),
        Piece::colored(" close", ThemeColor::Cyan),
    ];
    assert(line.deep_view() =~= help_line());
    line
}

/// `a - b`, or zero where that is less.
pub open spec fn minus_or_zero(a: nat, b: nat) -> nat {
    if a >= b {
        (a - b) as nat
    } else {
        0
    }
}

/// How far the list can be scrolled: until `buffer` lines stay empty below it.
pub open spec fn max_scroll(total: nat, height: nat, buffer: nat) -> nat {
    minus_or_zero(total, minus_or_zero(height, buffer))
}

/// How far the list is scrolled.
pub open spec fn scroll_at(wanted: nat, max: nat) -> nat {
    if wanted > max {
        max
    } else {
        wanted
    }
}

/// How many of the commands stand at or above the line behind the last one shown.
pub open spec fn passed(scroll: nat, height: nat, total: nat) -> nat {
    if scroll + height < total {
        scroll + height + 1
    } else {
        total
    }
}

/// There is room for the shortcut on a line of the palette.
pub open spec fn fits(width: nat, command: CommandView) -> bool {
    byte_length(command.shortcut) + 4 <= width
}

/// There is room for the shortcut of each command that is shown.
pub open spec fn rows_fit(
    width: nat,
    commands: Seq<CommandView>,
    scroll: nat,
    height: nat,
) -> bool {
    forall|i: int|
        scroll <= i < scroll + height && i < commands.len() ==> fits(width, #[trigger] commands[i])
}

/// The line of a command in a palette `width` cells wide: its name on the left and its
/// shortcut on the right.
pub open spec fn command_line(width: nat, command: CommandView, selected: bool) -> Seq<PieceView> {
    let background = if selected {
        ThemeColor::HighlightBackground
    } else {
        ThemeColor::Reset
    };
    seq![
        filled(
            " "@ + padded(
                command.name,
                (width - 4 - byte_length(command.shortcut)) as nat,
            ),
            if selected {
                ThemeColor::HighlightForeground
            } else {
                ThemeColor::Reset
            },
            background,
        ),
        filled(
            command.shortcut + " "@,
            if selected {
                ThemeColor::HighlightForeground
            } else {
                ThemeColor::DarkGray
            },
            background,
        ),
    ]
}

/// The line at position `index` of the list; an empty one behind its end.
pub open spec fn line_at(
    width: nat,
    commands: Seq<CommandView>,
    selected: nat,
    index: int,
) -> Seq<PieceView> {
    if index < commands.len() {
        command_line(width, commands[index], index == selected)
    } else {
        Seq::empty()
    }
}

/// The mark that something stands above.
pub open spec fn above_line(scroll: nat) -> Seq<Seq<PieceView>> {
    if scroll > 0 {
        seq![seq![colored(" ▲"@, ThemeColor::Reset)]]
    } else {
        Seq::empty()
    }
}

/// The lines of the list.
pub open spec fn content_lines(
    width: nat,
    commands: Seq<CommandView>,
    selected: nat,
    scroll: nat,
    height: nat,
) -> Seq<Seq<PieceView>> {
    above_line(scroll) + Seq::new(
        height,
        |i: int| line_at(width, commands, selected, scroll + i),
    )
}

/// The line below the list: how much of it was passed, where not all of it is shown.
pub open spec fn indicator_line(scroll: nat, max: nat, height: nat, total: nat) -> Seq<PieceView> {
    if scroll > 0 || scroll < max {
        let counter = colored(
            " ("@ + decimal(passed(scroll, height, total)) + "/"@ + decimal(total) + ")"@,
            ThemeColor::Reset,
        );
        if scroll < max {
            seq![counter, colored(" ▼"@, ThemeColor::DarkGray)]
        } else {
            seq![counter]
        }
    } else {
        Seq::empty()
    }
}

/// All that the palette shows.
#[derive(Debug, PartialEq, Eq)]
pub struct PaletteText {
    pub title: Vec<Piece>,
    pub search: Vec<Piece>,
    pub content: Vec<Vec<Piece>>,
    pub indicator: Vec<Piece>,
    pub help: Vec<Piece>,
}

/// The model of a [`PaletteText`].
pub struct PaletteTextView {
    pub title: Seq<PieceView>,
    pub search: Seq<PieceView>,
    pub content: Seq<Seq<PieceView>>,
    pub indicator: Seq<PieceView>,
    pub help: Seq<PieceView>,
}

impl DeepView for PaletteText {
    type V = PaletteTextView;

    open spec fn deep_view(&self) -> PaletteTextView {
        PaletteTextView {
            title: self.title.deep_view(),
            search: self.search.deep_view(),
            content: self.content.deep_view(),
            indicator: self.indicator.deep_view(),
            help: self.help.deep_view(),
        }
    }
}

/// What the palette shows of the given commands: `width` cells wide, with `height` lines
/// for the list and `buffer` empty lines at its end.
pub open spec fn palette_text(
    search: Seq<char>,
    commands: Seq<CommandView>,
    wanted: nat,
    selected: nat,
    width: nat,
    height: nat,
    buffer: nat,
) -> PaletteTextView {
    let max = max_scroll(commands.len(), height, buffer);
    let scroll = scroll_at(wanted, max);
    PaletteTextView {
        title: title_line(),
        search: search_line(search),
        content: content_lines(width, commands, selected, scroll, height),
        indicator: indicator_line(scroll, max, height, commands.len()),
        help: help_line(),
    }
}

/// The line of a command.
fn write_command(width: u16, command: &Command, selected: bool) -> (res: Vec<Piece>)
    requires
        fits(width as nat, command.deep_view()),
    ensures
        res.deep_view() == command_line(width as nat, command.deep_view(), selected),
{
    let length: usize = command.shortcut.as_str().len();
    let room: usize = width as usize - 4 - length;
    let background = if selected {
        ThemeColor::HighlightBackground
    } else {
        ThemeColor::Reset
    };
    let name_color = if selected {
        ThemeColor::HighlightForeground
    } else {
        ThemeColor::Reset
    };
    let shortcut_color = if selected {
        ThemeColor::HighlightForeground
    } else {
        ThemeColor::DarkGray
    };
    let name = concat2(" ", pad(command.name.as_str(), room).as_str());
    let shortcut = concat2(command.shortcut.as_str(), " ");
    let line = vec![
        Piece::filled(name, name_color, background),
        Piece::filled(shortcut, shortcut_color, background),
    ];
    assert(line.deep_view() =~= command_line(width as nat, command.deep_view(), selected));
    line
}

/// Whether there is room for the shortcut of each command that is shown.
pub fn rows_fit_in(width: u16, commands: &Vec<Command>, scroll: usize, height: u16) -> (res: bool)
    requires
        scroll <= commands.len(),
    ensures
        res == rows_fit(width as nat, commands.deep_view(), scroll as nat, height as nat),
{
    let mut i: usize = scroll;
    while i < commands.len() && i - scroll < height as usize
        invariant
            scroll <= i <= commands.len(),
            i - scroll <= height,
            forall|j: int|
                scroll <= j < i ==> fits(width as nat, #[trigger] commands.deep_view()[j]),
        decreases commands.len() - i,
    {
        let length: usize = commands[i].shortcut.as_str().len();
        if length > width as usize || width as usize - length < 4 {
            proof {
                assert(!fits(width as nat, commands.deep_view()[i as int]));
            }
            return false;
        }
        i = i + 1;
    }
    true
}

/// The lines of the list.
fn write_content(
    width: u16,
    commands: &Vec<Command>,
    selected: usize,
    scroll: usize,
    height: u16,
) -> (res: Vec<Vec<Piece>>)
    requires
        scroll <= commands.len(),
        rows_fit(width as nat, commands.deep_view(), scroll as nat, height as nat),
    ensures
        res.deep_view() == content_lines(
            width as nat,
            commands.deep_view(),
            selected as nat,
            scroll as nat,
            height as nat,
        ),
{
    let mut lines: Vec<Vec<Piece>> = Vec::new();
    if scroll > 0 {
        let mark = vec![Piece::colored(" ▲", ThemeColor::Reset)];
        proof {
            assert(mark.deep_view() =~= seq![colored(" ▲"@, ThemeColor::Reset)]);
        }
        lines.push(mark);
    }
    let ghost above = above_line(scroll as nat);
    let ghost list = Seq::new(
        height as nat,
        |i: int| line_at(width as nat, commands.deep_view(), selected as nat, scroll + i),
    );
    proof {
        assert(lines.deep_view() =~= above + list.take(0));
    }
    for i in 0..height
        invariant
            scroll <= commands.len(),
            rows_fit(width as nat, commands.deep_view(), scroll as nat, height as nat),
            list == Seq::new(
                height as nat,
                |i: int| line_at(width as nat, commands.deep_view(), selected as nat, scroll + i),
            ),
            lines.deep_view() == above + list.take(i as int),
    {
        let ghost before = lines.deep_view();
        let line = if (i as usize) < commands.len() - scroll {
            let index: usize = scroll + i as usize;
            proof {
                assert(fits(width as nat, commands.deep_view()[index as int]));
            }
            write_command(width, &commands[index], index == selected)
        } else {
            Vec::new()
        };
        proof {
            assert(line.deep_view() =~= list[i as int]);
        }
        lines.push(line);
        proof {
            assert(lines.deep_view() =~= before.push(list[i as int]));
            assert(list.take(i + 1) =~= list.take(i as int).push(list[i as int]));
            assert(lines.deep_view() =~= above + list.take(i + 1));
        }
    }
    proof {
        assert(list.take(height as int) =~= list);
    }
    lines
}

/// The line below the list.
fn write_indicator(scroll: usize, max: usize, height: u16, total: usize) -> (res: Vec<Piece>)
    requires
        scroll <= max <= total,
    ensures
        res.deep_view() == indicator_line(scroll as nat, max as nat, height as nat, total as nat),
{
    let mut line: Vec<Piece> = Vec::new();
    if scroll > 0 || scroll < max {
        let seen: usize = if (height as usize) < total - scroll {
            scroll + height as usize + 1
        } else {
            total
        };
        let mut text = " (".to_string();
        text.append(decimal_text(seen as u64).as_str());
        text.append("/");
        text.append(decimal_text(total as u64).as_str());
        text.append(")");
        line.push(Piece::colored(text.as_str(), ThemeColor::Reset));
        if scroll < max {
            line.push(Piece::colored(" ▼", ThemeColor::DarkGray));
        }
    }
    proof {
        assert(line.deep_view() =~= indicator_line(
            scroll as nat,
            max as nat,
            height as nat,
            total as nat,
        ));
    }
    line
}

/// What the palette shows of the given commands, where each shortcut that is shown has
/// room.
pub open spec fn palette_shown(
    palette: CommandPaletteState,
    commands: Seq<CommandView>,
    width: nat,
    height: nat,
    buffer: nat,
) -> Option<PaletteTextView> {
    let max = max_scroll(commands.len(), height, buffer);
    if rows_fit(width, commands, scroll_at(palette.scroll as nat, max), height) {
        Some(
            palette_text(
                palette.search@,
                commands,
                palette.scroll as nat,
                palette.is_selected as nat,
                width,
                height,
                buffer,
            ),
        )
    } else {
        None
    }
}

/// What the palette shows of the given commands. `None` where a shortcut has no room.
pub fn compose_palette(
    palette: &CommandPaletteState,
    commands: &Vec<Command>,
    width: u16,
    height: u16,
    buffer: usize,
) -> (res: Option<PaletteText>)
    ensures
        res.deep_view() == palette_shown(
            *palette,
            commands.deep_view(),
            width as nat,
            height as nat,
            buffer as nat,
        ),
{
    let total: usize = commands.len();
    let max: usize = total.saturating_sub((height as usize).saturating_sub(buffer));
    let scroll: usize = if palette.scroll > max {
        max
    } else {
        palette.scroll
    };
    proof {
        assert(commands.deep_view().len() == total);
    }
    if !rows_fit_in(width, commands, scroll, height) {
        return None;
    }
    Some(
        PaletteText {
            title: write_title(),
            search: write_search(palette.search.as_str()),
            content: write_content(width, commands, palette.is_selected, scroll, height),
            indicator: write_indicator(scroll, max, height, total),
            help: write_help(),
        },
    )
}

/// What the palette shows: the commands that its search text leaves. `None` where a
/// shortcut has no room.
pub fn palette_content(
    palette: &CommandPaletteState,
    width: u16,
    height: u16,
    buffer: usize,
) -> (res: Option<PaletteText>)
    ensures
        res.deep_view() == palette_shown(
            *palette,
            left_by(palette.search@),
            width as nat,
            height as nat,
            buffer as nat,
        ),
{
    let commands = filter_commands(palette.search.as_str());
    compose_palette(palette, &commands, width, height, buffer)
}

/// The palette in an area of the screen: where its rows lie, and what they show. The list
/// has as many lines as the third row is high. The text is `None` where a shortcut has no
/// room.
pub fn lay_out_palette(palette: &CommandPaletteState, area: Area, buffer: usize) -> (res: (
    Vec<Area>,
    Option<PaletteText>,
))
    requires
        has_border(area),
    ensures
        splits(inside(area), palette_rows(), res.0@),
        res.1.deep_view() == palette_shown(
            *palette,
            left_by(palette.search@),
            area.width as nat,
            res.0@[2].height as nat,
            buffer as nat,
        ),
{
    let rows = palette_areas(area);
    let text = palette_content(palette, area.width, rows[2].height, buffer);
    (rows, text)
}

} // verus!
