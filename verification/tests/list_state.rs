use filez::listview::ListView;
use filez::rect::Rect;

fn view_of(n: usize, height: u16) -> ListView<u32> {
    let mut lv: ListView<u32> = ListView::new();
    for i in 0..n {
        lv.rows.push(i as u32);
    }
    lv.suit(Rect { x: 0, y: 5, width: 10, height });
    lv
}

#[test]
fn fresh_view_is_empty() {
    let lv: ListView<u32> = ListView::new();
    assert_eq!(lv.rows.len(), 0);
    assert_eq!(lv.offset, 0);
    assert_eq!(lv.select, 0);
}

#[test]
fn select_left_is_window_or_remainder() {
    let lv = view_of(10, 4);
    assert_eq!(lv.select_left(), 4);
    let lv = view_of(3, 4);
    assert_eq!(lv.select_left(), 3);
}

#[test]
fn view_slices_visible_rows() {
    let mut lv = view_of(10, 4);
    lv.go_scroll_down();
    lv.go_scroll_down();
    let (rows, select) = lv.view();
    assert_eq!(rows, &[2, 3, 4, 5]);
    assert_eq!(select, 0);
}

#[test]
fn select_down_moves_then_scrolls() {
    let mut lv = view_of(5, 3);
    lv.go_select_down();
    assert_eq!((lv.offset, lv.select), (0, 1));
    lv.go_select_down();
    assert_eq!((lv.offset, lv.select), (0, 2));
    lv.go_select_down();
    assert_eq!((lv.offset, lv.select), (1, 2));
}

#[test]
fn select_up_moves_then_scrolls() {
    let mut lv = view_of(5, 3);
    lv.go_scroll_down();
    assert_eq!((lv.offset, lv.select), (1, 0));
    lv.go_select_up();
    assert_eq!((lv.offset, lv.select), (0, 0));
    lv.go_select_up();
    assert_eq!((lv.offset, lv.select), (0, 0));
}

#[test]
fn scroll_clamps_at_the_last_row() {
    let mut lv = view_of(3, 2);
    for _ in 0..10 {
        lv.go_scroll_down();
    }
    assert_eq!(lv.offset, 2);
    for _ in 0..10 {
        lv.go_scroll_up();
    }
    assert_eq!(lv.offset, 0);
}

#[test]
fn go_bottom_lands_on_last_window() {
    let mut lv = view_of(10, 4);
    lv.go_bottom();
    assert_eq!(lv.offset, 6);
    assert_eq!(lv.select, 3);
    lv.go_top();
    assert_eq!((lv.offset, lv.select), (0, 0));
}

#[test]
fn paging_scrolls_half_a_window() {
    let mut lv = view_of(20, 6);
    lv.go_scroll_down_page();
    assert_eq!(lv.offset, 3);
    lv.go_scroll_up_page();
    assert_eq!(lv.offset, 0);
}

#[test]
fn go_scroll_takes_signed_steps() {
    let mut lv = view_of(20, 6);
    lv.go_scroll(5);
    assert_eq!(lv.offset, 5);
    lv.go_scroll(-2);
    assert_eq!(lv.offset, 3);
}

#[test]
fn click_selects_the_row_under_the_cursor() {
    let mut lv = view_of(10, 4);
    lv.go_select((0, 7));
    assert_eq!(lv.select, 2);
    // below the list: nothing happens
    lv.go_select((0, 40));
    assert_eq!(lv.select, 2);
}

#[test]
fn adjust_clamps_after_shrinking() {
    let mut lv = view_of(10, 4);
    lv.go_bottom();
    lv.rows.truncate(2);
    lv.adjust();
    assert!(lv.offset <= 1);
    assert!(lv.select < 2);
}
