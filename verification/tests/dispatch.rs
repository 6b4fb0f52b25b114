use filez::app::App;
use filez::explorer::{ExplorerPanel, Refresh, RowFile, SortKey};
use filez::files::{File, FileType, Mark, Metadata, Permissions};
use filez::listview::ListView;
use filez::rect::{Contain, Layout, Rect};
use filez::ui::{
    Event, InfoPanel, KeyCode, KeyEvent, KeyMods, Level, LogPanel, LogRecord, MouseEvent,
    MouseKind, PopupPanel, Status, Uid, Wait,
};
use filez::widgets::{FileTable, LogList, TimeOut};

fn key(code: KeyCode) -> Event {
    Event::Key(KeyEvent { code, modifiers: KeyMods::Plain })
}

fn shifted(c: char) -> Event {
    Event::Key(KeyEvent { code: KeyCode::Char(c), modifiers: KeyMods::Shift })
}

fn record(msg: &str) -> LogRecord {
    LogRecord {
        level: Level::Info,
        target: "test".to_string(),
        timestamp: "12:00".to_string(),
        msg: msg.to_string(),
    }
}

fn file_entry(name: &str, kind: FileType) -> File {
    File {
        path: format!("/tmp/{}", name),
        name: name.to_string(),
        ext: None,
        metadata: Metadata {
            accessed: None,
            created: None,
            modified: None,
            len: 0,
            permissions: Permissions::from_mode(0o644),
        },
        file_type: kind,
    }
}

fn row(name: &str, kind: FileType) -> RowFile {
    RowFile { file: file_entry(name, kind), matched: None, mark: Mark::Unmarked }
}

fn pane_with(names: &[&str]) -> ExplorerPanel {
    let mut p = ExplorerPanel::new("/tmp".to_string());
    let rows: Vec<RowFile> = names.iter().map(|n| row(n, FileType::File)).collect();
    p.accept_listing("/tmp".to_string(), rows);
    p.list.suit(Rect { x: 0, y: 0, width: 20, height: 10 });
    p
}

#[test]
fn log_panel_appends_and_scrolls() {
    let mut lp = LogPanel::new();
    lp.on_event(Event::Log(record("one")));
    lp.on_event(Event::Log(record("two")));
    assert_eq!(lp.logs.len(), 2);
    lp.on_event(Event::ScrollDown);
    assert_eq!(lp.offset, 1);
    lp.on_event(Event::ScrollUp);
    assert_eq!(lp.offset, 0);
}

#[test]
fn info_panel_switches_tabs_with_keys() {
    let mut info = InfoPanel::new();
    info.on_event(key(KeyCode::Right));
    assert_eq!(info.tab, 1);
    info.on_event(key(KeyCode::Char('l')));
    assert_eq!(info.tab, 2);
    info.on_event(key(KeyCode::Left));
    assert_eq!(info.tab, 1);
    info.on_event(key(KeyCode::Char('h')));
    assert_eq!(info.tab, 0);
}

#[test]
fn info_panel_routes_tab_clicks() {
    let mut info = InfoPanel::new();
    info.suit(Rect { x: 0, y: 0, width: 40, height: 10 });
    // tab strip: LOG is 5 wide plus a gap, Queue starts at column 6
    info.on_event(Event::Click(7, 0));
    assert_eq!(info.tab, 1);
    info.on_event(Event::Click(1, 0));
    assert_eq!(info.tab, 0);
    // a click below the strip changes nothing
    info.on_event(Event::Click(7, 3));
    assert_eq!(info.tab, 0);
}

#[test]
fn explorer_moves_cursor_and_marks() {
    let mut p = pane_with(&["a", "b", "c"]);
    assert!(p.on_event(key(KeyCode::Down)).is_none());
    assert_eq!(p.list.select, 1);
    assert!(p.on_event(shifted('D')).is_none());
    assert_eq!(p.list.rows[1].mark, Mark::Delete);
    assert!(p.on_event(shifted('C')).is_none());
    assert_eq!(p.list.rows[1].mark, Mark::Unmarked);
}

#[test]
fn explorer_enter_asks_for_a_directory() {
    let mut p = ExplorerPanel::new("/tmp".to_string());
    p.accept_listing(
        "/tmp".to_string(),
        vec![row("..", FileType::DotDot), row("sub", FileType::Dir), row("f", FileType::File)],
    );
    p.list.suit(Rect { x: 0, y: 0, width: 20, height: 10 });
    p.on_event(key(KeyCode::Down));
    let r = p.on_event(key(KeyCode::Enter));
    match r {
        Some(Refresh::Dir(d)) => assert_eq!(d, "/tmp/sub"),
        _ => panic!("expected a directory request"),
    }
    // a plain file asks for nothing
    p.on_event(key(KeyCode::Down));
    assert!(p.on_event(key(KeyCode::Enter)).is_none());
}

#[test]
fn explorer_backspace_asks_for_the_parent() {
    let mut p = pane_with(&["a"]);
    assert!(matches!(p.on_event(key(KeyCode::Backspace)), Some(Refresh::Parent)));
}

#[test]
fn explorer_search_paints_matches_and_seeks() {
    let mut p = pane_with(&["alpha", "beta", "gamma", "abble"]);
    p.on_event(Event::Search("a".to_string()));
    assert_eq!(p.list.rows[0].matched, Some((0, 1)));
    assert_eq!(p.list.rows[1].matched, Some((3, 4)));
    assert_eq!(p.list.rows[2].matched, Some((1, 2)));
    // hop to the next match below the cursor
    p.on_event(key(KeyCode::Char('n')));
    assert_eq!(p.list.select, 1);
    // clearing removes every match
    p.on_event(Event::Key(KeyEvent { code: KeyCode::Char('l'), modifiers: KeyMods::Control }));
    assert!(p.list.rows.iter().all(|r| r.matched.is_none()));
}

#[test]
fn popup_dialog_walks_buttons_and_emits() {
    let mut popup = PopupPanel::new_exit();
    popup.on_event(key(KeyCode::Right));
    popup.on_event(key(KeyCode::Left));
    popup.on_event(key(KeyCode::Enter));
    assert!(popup.exit());
    // the highlighted button is Ok, which confirms the exit
    assert!(matches!(popup.emit(), Some(Event::ExitConfirm)));
}

#[test]
fn popup_dialog_escape_dismisses() {
    let mut popup = PopupPanel::new_exit();
    popup.on_event(key(KeyCode::Esc));
    assert!(popup.exit());
    assert!(popup.emit().is_none());
}

#[test]
fn app_quits_through_the_exit_dialog() {
    let mut app = App::new("/a".to_string(), "/b".to_string());
    app.on_event(key(KeyCode::Char('q')), 0);
    assert_eq!(app.status, Status::Popup);
    let (synth, _) = app.on_event(key(KeyCode::Enter), 1);
    // the dialog hands back the confirmation, which the host feeds in again
    let confirm = synth.expect("the dialog confirms");
    app.on_event(confirm, 2);
    assert_eq!(app.status, Status::Exit);
}

#[test]
fn app_leader_keys_move_focus() {
    let mut app = App::new("/a".to_string(), "/b".to_string());
    assert_eq!(app.focus, Some(Uid::Local));
    app.on_event(key(KeyCode::Char(' ')), 0);
    app.on_event(key(KeyCode::Char('w')), 1);
    app.on_event(key(KeyCode::Char('l')), 2);
    assert_eq!(app.focus, Some(Uid::Remote));
    assert!(app.wait.is_none());
}

#[test]
fn app_waits_expire_after_five_seconds() {
    let mut app = App::new("/a".to_string(), "/b".to_string());
    app.on_event(key(KeyCode::Char('g')), 1000);
    assert!(matches!(app.wait, Some(Wait::WaitG)));
    app.on_event(Event::Tick, 7000);
    assert!(app.wait.is_none());
}

#[test]
fn app_second_g_jumps_to_top() {
    let mut app = App::new("/a".to_string(), "/b".to_string());
    app.on_event(key(KeyCode::Char('g')), 0);
    let (synth, _) = app.on_event(key(KeyCode::Char('g')), 1);
    assert!(matches!(synth, Some(Event::Keys_gg)));
}

#[test]
fn app_search_collects_keys_and_emits() {
    let mut app = App::new("/a".to_string(), "/b".to_string());
    app.on_event(key(KeyCode::Char('/')), 0);
    app.on_event(key(KeyCode::Char('a')), 1);
    app.on_event(key(KeyCode::Char('b')), 2);
    app.on_event(key(KeyCode::Backspace), 3);
    let (synth, _) = app.on_event(key(KeyCode::Enter), 4);
    match synth {
        Some(Event::Search(s)) => assert_eq!(s, "a"),
        _ => panic!("expected a search"),
    }
}

#[test]
fn app_click_release_focuses_the_panel_under_it() {
    let mut app = App::new("/a".to_string(), "/b".to_string());
    app.set_layout([20, 30, 31, 40, 80]);
    app.on_event(
        Event::Mouse(MouseEvent { kind: MouseKind::DownLeft, column: 50, row: 10 }),
        0,
    );
    let (synth, _) = app.on_event(
        Event::Mouse(MouseEvent { kind: MouseKind::UpLeft, column: 50, row: 10 }),
        1,
    );
    let click = synth.expect("a click is synthesized");
    app.on_event(click, 2);
    assert_eq!(app.focus, Some(Uid::Remote));
}

#[test]
fn layout_lookup_picks_first_region() {
    let regions: Vec<(Rect, u8)> = vec![
        (Rect { x: 0, y: 0, width: 10, height: 10 }, 1),
        (Rect { x: 0, y: 0, width: 40, height: 40 }, 2),
    ];
    assert_eq!(regions.locate(5, 5), Some(1));
    assert_eq!(regions.locate(20, 20), Some(2));
    assert_eq!(regions.locate(60, 60), None);
    let r = Rect { x: 2, y: 2, width: 4, height: 4 };
    assert!(r.contain(2, 2));
    assert!(r.contain(6, 6));
    assert!(!r.contain(7, 7));
}

#[test]
fn timeouts_and_demo_widgets() {
    let t = TimeOut { inner: 7u32, ins_ms: 1000, dur_ms: 500 };
    assert!(!t.timeout(1400));
    assert!(t.timeout(1501));
    let ft = FileTable::new();
    assert_eq!((ft.offset_x, ft.offset_y, ft.select), (4, 2, 3));
    let mut ll = LogList::new();
    ll.push(record("a"));
    assert_eq!((ll.items.len(), ll.offset), (1, 1));
    ll.on_event(key(KeyCode::Char('k')));
    assert_eq!(ll.offset, 0);
    ll.on_event(shifted('G'));
    assert_eq!(ll.offset, 1);
}

#[test]
fn list_view_of_rows_is_reusable() {
    let mut lv: ListView<RowFile> = ListView::new();
    lv.rows.push(row("x", FileType::File));
    lv.suit(Rect { x: 0, y: 0, width: 5, height: 5 });
    assert_eq!(lv.select_left(), 1);
}
