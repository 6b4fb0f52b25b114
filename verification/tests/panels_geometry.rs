use filez::rect::{rect_contain, rect_hmargin, rect_hsplit, rect_inner, rect_vmargin, rect_vsplit, split_2d, Rect};
use filez::text::{StyledBlock, StyledLine, StyledRun, Style};
use filez::ui::{Event, InfoPanel, KeyCode, KeyEvent, KeyMods, Level, LogRecord, PopupPanel};
use filez::widgets::get_row_heights;

fn rect(x: u16, y: u16, width: u16, height: u16) -> Rect {
    Rect { x, y, width, height }
}

#[test]
fn splits_tile_the_region() {
    let r = rect(2, 3, 10, 8);
    let (top, bottom) = rect_vsplit(r, 3);
    assert_eq!((top.y, top.height), (3, 3));
    assert_eq!((bottom.y, bottom.height), (6, 5));
    let (left, right) = rect_hsplit(r, 4);
    assert_eq!((left.x, left.width), (2, 4));
    assert_eq!((right.x, right.width), (6, 6));
    // an oversized split saturates at the region
    let (top, bottom) = rect_vsplit(r, 100);
    assert_eq!(top.height, 8);
    assert_eq!(bottom.height, 0);
}

#[test]
fn margins_shrink_both_sides() {
    let r = rect(0, 0, 10, 10);
    let v = rect_vmargin(r, 2);
    assert_eq!((v.y, v.height), (2, 6));
    let h = rect_hmargin(r, 3);
    assert_eq!((h.x, h.width), (3, 4));
    let inner = rect_inner(r, 1, 2);
    assert_eq!((inner.x, inner.y, inner.width, inner.height), (1, 2, 8, 6));
    // a margin wider than the region empties it
    assert_eq!(rect_hmargin(r, 6).width, 0);
}

#[test]
fn quadrant_split_covers_the_region() {
    let r = rect(0, 0, 10, 8);
    let q = split_2d(r, 6, 3);
    assert_eq!((q.top_left.width, q.top_left.height), (6, 3));
    assert_eq!((q.top_right.width, q.top_right.height), (4, 3));
    assert_eq!((q.bottom_left.width, q.bottom_left.height), (6, 5));
    assert_eq!((q.bottom_right.x, q.bottom_right.y), (6, 3));
}

#[test]
fn exclusive_containment_stops_at_edges() {
    let r = rect(2, 2, 4, 4);
    assert!(rect_contain(r, 2, 2));
    assert!(rect_contain(r, 5, 5));
    assert!(!rect_contain(r, 6, 6));
}

#[test]
fn popup_windows_are_centred() {
    let popup = PopupPanel::new_exit();
    let want = popup.suit_in(rect(0, 0, 100, 30));
    // sixty by ten, centred in a hundred by thirty
    assert_eq!((want.x, want.y, want.width, want.height), (20, 10, 60, 10));
    let help = PopupPanel::new_help();
    let want = help.suit_in(rect(0, 0, 90, 24));
    // a third by five sixths, at least three cells in
    assert_eq!((want.x, want.y), (30, 3));
    assert_eq!((want.width, want.height), (30, 18));
}

#[test]
fn row_heights_round_up_when_wrapping() {
    let line = |s: &str| StyledLine::new(&vec![StyledRun::new(s.to_string(), Style::default())]);
    let block = StyledBlock { lines: vec![line("abcdefg"), line("abc"), line("")] };
    let heights = get_row_heights(&block, 3, true);
    assert_eq!(heights, vec![3, 1, 0]);
    let heights = get_row_heights(&block, 3, false);
    assert_eq!(heights, vec![1, 1, 1]);
}

#[test]
fn info_panel_forwards_logs_whatever_the_tab() {
    let mut info = InfoPanel::new();
    info.on_event(Event::Key(KeyEvent { code: KeyCode::Right, modifiers: KeyMods::Plain }));
    assert_eq!(info.tab, 1);
    info.on_event(Event::Log(LogRecord {
        level: Level::Warn,
        target: "t".to_string(),
        timestamp: "12:00".to_string(),
        msg: "m".to_string(),
    }));
    assert_eq!(info.p_logs.logs.len(), 1);
    // but scrolling only reaches the log tab
    info.on_event(Event::ScrollDown);
    assert_eq!(info.p_logs.offset, 0);
}

#[test]
fn log_panel_jumps_to_the_end() {
    let mut lp = filez::ui::LogPanel::new();
    for i in 0..5 {
        lp.on_event(Event::Log(LogRecord {
            level: Level::Info,
            target: "t".to_string(),
            timestamp: format!("{}", i),
            msg: format!("m{}", i),
        }));
    }
    lp.on_event(Event::Key(KeyEvent { code: KeyCode::Char('l'), modifiers: KeyMods::Control }));
    assert_eq!(lp.offset, 4);
}

#[test]
fn help_popup_closes_on_outside_click() {
    let mut popup = PopupPanel::new_help();
    if let PopupPanel::Help(h) = &mut popup {
        h.suit(rect(10, 10, 20, 10));
    }
    popup.on_event(Event::Click(15, 15));
    assert!(!popup.exit());
    popup.on_event(Event::Click(1, 1));
    assert!(popup.exit());
    assert!(popup.emit().is_none());
}

#[test]
fn dialog_buttons_answer_clicks() {
    let mut popup = PopupPanel::new_exit();
    if let PopupPanel::Exit(y) = &mut popup {
        y.set_regions(rect(10, 10, 40, 8), rect(12, 16, 10, 1), rect(28, 16, 10, 1));
    }
    popup.on_event(Event::Click(30, 16));
    assert!(popup.exit());
    assert!(popup.emit().is_none());

    let mut popup = PopupPanel::new_exit();
    if let PopupPanel::Exit(y) = &mut popup {
        y.set_regions(rect(10, 10, 40, 8), rect(12, 16, 10, 1), rect(28, 16, 10, 1));
    }
    popup.on_event(Event::Click(13, 16));
    assert!(popup.exit());
    assert!(matches!(popup.emit(), Some(Event::ExitConfirm)));
}
