use stakpak_interactive::app_state::{CommandPaletteState, ThemeColor};
use stakpak_interactive::commands::palette::{
    compose_palette, lay_out_palette, palette_areas, palette_content, rows_fit_in, Area,
    PaletteText, Piece,
};
use stakpak_interactive::commands::registry::{filter_commands, get_all_commands};

fn palette(search: &str, scroll: usize, selected: usize) -> CommandPaletteState {
    CommandPaletteState { search: search.to_string(), scroll, is_selected: selected }
}

fn piece(text: &str, color: ThemeColor, background: Option<ThemeColor>, bold: bool) -> Piece {
    Piece { text: text.to_string(), color: Some(color), background, bold }
}

fn plain(text: &str) -> Piece {
    Piece { text: text.to_string(), color: None, background: None, bold: false }
}

fn line_text(line: &[Piece]) -> String {
    line.iter().map(|piece| piece.text.as_str()).collect()
}

fn whole(search: &str, scroll: usize, width: u16, height: u16) -> PaletteText {
    palette_content(&palette(search, scroll, 1), width, height, 2).unwrap()
}

#[test]
fn rows_of_the_palette() {
    let areas = palette_areas(Area { x: 3, y: 4, width: 40, height: 22 });
    let row = |y: u16, height: u16| Area { x: 4, y, width: 38, height };
    assert_eq!(areas, vec![row(5, 1), row(6, 3), row(9, 14), row(23, 1), row(24, 1)]);
}

#[test]
fn list_takes_the_lines_left_over() {
    for height in [11, 12, 30, 200] {
        let areas = palette_areas(Area { x: 0, y: 7, width: 20, height });
        assert_eq!(areas[2].height, height - 8);
        assert_eq!(areas[3].y, 7 + height - 3);
        assert_eq!(areas[4].y, 7 + height - 2);
    }
}

#[test]
fn rows_stay_inside_a_small_palette() {
    let areas = palette_areas(Area { x: 0, y: 0, width: 10, height: 6 });
    assert_eq!(areas.len(), 5);
    for area in areas {
        assert_eq!(area.x, 1);
        assert_eq!(area.width, 8);
        assert!(area.y >= 1 && area.y + area.height <= 5);
    }
    for height in 5..14 {
        let area = Area { x: 0, y: 0, width: 10, height };
        assert!(palette_areas(area)[2].height >= 3);
    }
}

#[test]
fn list_is_as_high_as_its_row() {
    let area = Area { x: 3, y: 4, width: 40, height: 22 };
    let (rows, text) = lay_out_palette(&palette("", 0, 1), area, 2);
    assert_eq!(rows, palette_areas(area));
    assert_eq!(text, palette_content(&palette("", 0, 1), 40, 14, 2));
    assert_eq!(text.unwrap().content.len(), rows[2].height as usize);
    let narrow = Area { width: 8, ..area };
    assert_eq!(lay_out_palette(&palette("", 0, 1), narrow, 2).1, None);
}

#[test]
fn title_search_and_help() {
    let text = whole("", 0, 40, 20);
    assert_eq!(text.title, vec![piece(" Command Palette ", ThemeColor::Yellow, None, true)]);
    assert_eq!(
        text.search,
        vec![
            plain(" "),
            piece(">", ThemeColor::Magenta, None, false),
            plain(" "),
            piece("|", ThemeColor::Cyan, None, false),
            piece("Type to filter", ThemeColor::DarkGray, None, false),
            plain(" "),
        ]
    );
    assert_eq!(line_text(&text.help), " ↑/↓ navigate  enter select  esc close");
    let searched = whole("usage", 0, 40, 20);
    assert_eq!(
        searched.search,
        vec![
            plain(" "),
            piece(">", ThemeColor::Magenta, None, false),
            plain(" "),
            piece("usage", ThemeColor::Text, None, true),
            piece("|", ThemeColor::Cyan, None, false),
            plain(" "),
        ]
    );
}

#[test]
fn short_list_does_not_scroll() {
    let text = whole("resume", 7, 40, 5);
    assert_eq!(text.content.len(), 5);
    assert_eq!(line_text(&text.content[0]), " Resume                       /resume ");
    assert_eq!(text.content[1], vec![]);
    assert_eq!(text.indicator, vec![]);
}

#[test]
fn lines_fill_the_palette() {
    for line in whole("", 0, 30, 14).content {
        assert_eq!(line_text(&line).chars().count(), 28);
    }
}

#[test]
fn selected_line_stands_out() {
    let text = whole("", 0, 40, 14);
    let reset = Some(ThemeColor::Reset);
    let lit = Some(ThemeColor::HighlightBackground);
    assert_eq!(
        text.content[0],
        vec![
            piece(&format!(" {:<30}", "Profiles"), ThemeColor::Reset, reset, false),
            piece("Ctrl+F ", ThemeColor::DarkGray, reset, false),
        ]
    );
    assert_eq!(
        text.content[1],
        vec![
            piece(&format!(" {:<30}", "Rulebooks"), ThemeColor::HighlightForeground, lit, false),
            piece("Ctrl+K ", ThemeColor::HighlightForeground, lit, false),
        ]
    );
}

#[test]
fn scrolled_list_counts_what_was_passed() {
    let start = whole("", 0, 40, 5);
    assert_eq!(start.content.len(), 5);
    assert_eq!(
        start.indicator,
        vec![
            piece(" (6/14)", ThemeColor::Reset, None, false),
            piece(" ▼", ThemeColor::DarkGray, None, false),
        ]
    );
    let middle = whole("", 3, 40, 5);
    assert_eq!(middle.content.len(), 6);
    assert_eq!(middle.content[0], vec![piece(" ▲", ThemeColor::Reset, None, false)]);
    assert_eq!(middle.content[1][1].text, "Ctrl+S ");
    assert_eq!(line_text(&middle.indicator), " (9/14) ▼");
}

#[test]
fn counter_reaches_the_total_at_the_end() {
    let end = whole("", 100, 40, 5);
    assert_eq!(line_text(&end.indicator), " (14/14)");
    assert_eq!(end.content.len(), 6);
    assert_eq!(end.content[1][1].text, "/support ");
    assert_eq!(end.content[3][1].text, "/plan ");
    assert_eq!(end.content[4], vec![]);
    assert_eq!(end.content[5], vec![]);
}

#[test]
fn narrow_palette_has_no_room() {
    assert!(palette_content(&palette("", 0, 0), 12, 14, 2).is_none());
    assert!(palette_content(&palette("", 0, 0), 13, 14, 2).is_some());
    assert!(palette_content(&palette("shell mode", 0, 0), 5, 14, 2).is_some());
    assert!(palette_content(&palette("shell mode", 0, 0), 4, 14, 2).is_none());
    assert!(palette_content(&palette("", 0, 0), 0, 0, 2).is_some());
    assert!(rows_fit_in(10, &get_all_commands(), 0, 1));
    assert!(!rows_fit_in(9, &get_all_commands(), 0, 1));
    assert!(rows_fit_in(0, &get_all_commands(), 14, 3));
}

#[test]
fn palette_of_given_commands() {
    let commands = filter_commands("usage");
    let given = compose_palette(&palette("usage", 0, 0), &commands, 40, 6, 0);
    assert_eq!(given, palette_content(&palette("usage", 0, 0), 40, 6, 0));
    let none = compose_palette(&palette("x", 0, 0), &vec![], 40, 2, 0).unwrap();
    assert_eq!(none.content, vec![vec![], vec![]]);
}
