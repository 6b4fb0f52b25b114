use filez::explorer::{find_substring, prepare_listing, sort_rows, RowFile, SortKey};
use filez::files::{
    render_name, render_permission, render_type, File, FileType, Mark, Metadata, Permissions,
    Theme, COLOR_BLUE, COLOR_WHITE,
};
use filez::files::{FeStyles, PanelStyles};
use filez::ui::Uid;

fn entry(name: &str, kind: FileType, len: u64, modified: Option<i64>) -> File {
    File {
        path: format!("/tmp/{}", name),
        name: name.to_string(),
        ext: name.rfind('.').map(|i| name[i + 1..].to_string()),
        metadata: Metadata {
            accessed: None,
            created: None,
            modified,
            len,
            permissions: Permissions::from_mode(0o644),
        },
        file_type: kind,
    }
}

#[test]
fn permissions_decode_mode_bits() {
    let p = Permissions::from_mode(0o754);
    assert!(p.user_read && p.user_write && p.user_execute);
    assert!(p.group_read && !p.group_write && p.group_execute);
    assert!(p.other_read && !p.other_write && !p.other_execute);
}

#[test]
fn permission_column_renders_letters_and_dashes() {
    let theme = Theme::default();
    let p = Permissions::from_mode(0o754);
    let cells = render_permission(p, &theme, FileType::File);
    let texts: Vec<&str> = cells.iter().map(|r| r.content.as_str()).collect();
    assert_eq!(texts, vec![".", "r", "w", "x", "r", "-", "x", "r", "-", "-"]);
}

#[test]
fn permission_column_is_empty_for_the_parent_entry() {
    let theme = Theme::default();
    let p = Permissions::from_mode(0);
    assert_eq!(render_permission(p, &theme, FileType::DotDot).len(), 0);
}

#[test]
fn name_column_highlights_the_match() {
    let theme = Theme::default();
    let runs = render_name("hello", Some((1, 3)), &theme, FileType::File);
    assert_eq!(runs.len(), 3);
    assert_eq!(runs[0].content, "h");
    assert_eq!(runs[1].content, "el");
    assert_eq!(runs[2].content, "lo");
    assert_eq!(runs[1].style.fg, COLOR_WHITE);
}

#[test]
fn name_column_uses_the_kind_style() {
    let theme = Theme::default();
    let runs = render_name("src", None, &theme, FileType::Dir);
    assert_eq!(runs.len(), 1);
    assert_eq!(runs[0].content, "src");
    assert_eq!(runs[0].style.fg, COLOR_BLUE);
}

#[test]
fn type_column_shows_only_plain_file_extensions() {
    let theme = Theme::default();
    let ext = "rs".to_string();
    assert_eq!(render_type(FileType::File, Some(&ext), &theme).content, "rs");
    assert_eq!(render_type(FileType::Dir, Some(&ext), &theme).content, "");
    assert_eq!(render_type(FileType::File, None, &theme).content, "");
}

#[test]
fn marks_and_titles_have_their_words() {
    assert_eq!(Mark::Delete.symbol(), "Delete");
    assert_eq!(Mark::Upload.symbol(), "Upload");
    assert_eq!(Mark::Unmarked.symbol(), "");
    assert_eq!(Uid::Local.title(), "Local");
    assert_eq!(Uid::Status.title(), "Status");
}

#[test]
fn parent_entry_is_synthesized() {
    let f = File::new_dot_dot("/home".to_string());
    assert_eq!(f.name, "..");
    assert!(f.is_dot_dot());
    assert!(!f.is_file());
    assert_eq!(f.metadata.len, 0);
}

#[test]
fn substring_search_finds_first_occurrence() {
    assert_eq!(find_substring("hello world", "o w"), Some(4));
    assert_eq!(find_substring("hello world", "lo"), Some(3));
    assert_eq!(find_substring("hello", "xyz"), None);
    assert_eq!(find_substring("abc", ""), Some(0));
    assert_eq!(find_substring("", "a"), None);
}

#[test]
fn panel_styles_are_the_theme() {
    let theme = Theme::default();
    assert_eq!(theme.border_active().fg, filez::files::COLOR_GREEN);
    assert_eq!(theme.dashed().modifiers, filez::files::MOD_DIM);
}

fn names(rows: &[RowFile]) -> Vec<&str> {
    rows.iter().map(|r| r.file.name.as_str()).collect()
}

#[test]
fn listing_hides_dot_files_but_keeps_the_parent() {
    let files = vec![
        File::new_dot_dot("/".to_string()),
        entry("b.txt", FileType::File, 10, None),
        entry(".hidden", FileType::File, 1, None),
        entry("a.txt", FileType::File, 5, None),
    ];
    let rows = prepare_listing(files, false, SortKey::Name, false);
    assert_eq!(names(&rows), vec!["..", "a.txt", "b.txt"]);
    assert!(rows.iter().all(|r| r.matched.is_none() && r.mark == Mark::Unmarked));
}

#[test]
fn listing_shows_hidden_files_on_request() {
    let files = vec![
        File::new_dot_dot("/".to_string()),
        entry(".hidden", FileType::File, 1, None),
        entry("a.txt", FileType::File, 5, None),
    ];
    let rows = prepare_listing(files, true, SortKey::Name, false);
    assert_eq!(names(&rows), vec!["..", ".hidden", "a.txt"]);
}

#[test]
fn listing_orders_files_before_directories() {
    let files = vec![
        File::new_dot_dot("/".to_string()),
        entry("zdir", FileType::Dir, 0, None),
        entry("afile", FileType::File, 1, None),
        entry("link", FileType::SymLink, 0, None),
    ];
    let rows = prepare_listing(files, false, SortKey::Name, false);
    assert_eq!(names(&rows), vec!["..", "afile", "link", "zdir"]);
}

#[test]
fn listing_sorts_by_size_and_reverses() {
    let files = vec![
        File::new_dot_dot("/".to_string()),
        entry("big", FileType::File, 100, None),
        entry("small", FileType::File, 1, None),
        entry("mid", FileType::File, 50, None),
    ];
    let rows = prepare_listing(files, false, SortKey::Size, false);
    assert_eq!(names(&rows), vec!["..", "small", "mid", "big"]);
    let files = vec![
        File::new_dot_dot("/".to_string()),
        entry("big", FileType::File, 100, None),
        entry("small", FileType::File, 1, None),
        entry("mid", FileType::File, 50, None),
    ];
    let rows = prepare_listing(files, false, SortKey::Size, true);
    assert_eq!(names(&rows), vec!["..", "big", "mid", "small"]);
}

#[test]
fn listing_sorts_by_modified_with_missing_first() {
    let files = vec![
        File::new_dot_dot("/".to_string()),
        entry("new", FileType::File, 1, Some(200)),
        entry("unknown", FileType::File, 1, None),
        entry("old", FileType::File, 1, Some(100)),
    ];
    let rows = prepare_listing(files, false, SortKey::Modified, false);
    assert_eq!(names(&rows), vec!["..", "unknown", "old", "new"]);
}

#[test]
fn sorting_keeps_the_first_row_in_place() {
    let mut rows = vec![
        RowFile { file: File::new_dot_dot("/".to_string()), matched: None, mark: Mark::Unmarked },
        RowFile { file: entry("b", FileType::File, 2, None), matched: None, mark: Mark::Unmarked },
        RowFile { file: entry("a", FileType::File, 1, None), matched: None, mark: Mark::Unmarked },
    ];
    sort_rows(&mut rows, SortKey::Name, false);
    assert_eq!(names(&rows), vec!["..", "a", "b"]);
}
