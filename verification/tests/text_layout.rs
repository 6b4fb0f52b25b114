use filez::crop::{crop_left, crop_line};
use filez::text::{Style, StyledBlock, StyledLine, StyledRun};
use filez::wrap::{wrap_line, wrap_text};

fn plain() -> Style {
    Style::default()
}

fn styled(s: &str, style: Style) -> StyledLine {
    StyledLine::new(&vec![StyledRun::new(s.to_string(), style)])
}

fn line(s: &str) -> StyledLine {
    styled(s, plain())
}

fn text_of(l: &StyledLine) -> String {
    let mut out = String::new();
    for c in l.clusters.iter() {
        out.push_str(&c.text);
    }
    out
}

fn width_of(l: &StyledLine) -> usize {
    l.clusters.iter().map(|c| c.width).sum()
}

#[test]
fn segmentation_measures_ascii() {
    let l = line("abcdef");
    assert_eq!(l.clusters.len(), 6);
    assert_eq!(l.display_width(), 6);
    assert!(l.clusters.iter().all(|c| c.width == 1));
}

#[test]
fn segmentation_measures_wide() {
    let l = line("a😠b");
    assert_eq!(l.clusters.len(), 3);
    assert_eq!(l.clusters[1].text, "😠");
    assert_eq!(l.clusters[1].width, 2);
    assert_eq!(l.display_width(), 4);
}

#[test]
fn width_additivity_over_runs() {
    let l = StyledLine::new(&vec![
        StyledRun::new("ab".to_string(), plain()),
        StyledRun::new("😠".to_string(), plain()),
        StyledRun::new("cd".to_string(), plain()),
    ]);
    let total: usize = l.clusters.iter().map(|c| c.width).sum();
    assert_eq!(l.display_width(), total);
    assert_eq!(total, 6);
}

#[test]
fn wrap_scenario_abcdef_at_three() {
    let l = line("abcdef");
    let wrapped = wrap_line(&l, 3);
    assert_eq!(wrapped.len(), 2);
    assert_eq!(text_of(&wrapped[0]), "abc");
    assert_eq!(text_of(&wrapped[1]), "def");
}

#[test]
fn wrap_pads_every_line_but_the_last() {
    // 'ab' fits, the wide glyph must move to the next row, leaving one pad.
    let l = line("ab😠");
    let wrapped = wrap_line(&l, 3);
    assert_eq!(wrapped.len(), 2);
    assert_eq!(text_of(&wrapped[0]), "ab ");
    assert_eq!(width_of(&wrapped[0]), 3);
    assert_eq!(text_of(&wrapped[1]), "😠");
    assert_eq!(width_of(&wrapped[1]), 2);
}

#[test]
fn wrap_preserves_content_and_styles() {
    let red = Style { fg: 2, bg: 0, modifiers: 0 };
    let l = StyledLine::new(&vec![
        StyledRun::new("abc".to_string(), plain()),
        StyledRun::new("def".to_string(), red),
    ]);
    let wrapped = wrap_line(&l, 4);
    assert_eq!(wrapped.len(), 2);
    assert_eq!(text_of(&wrapped[0]), "abcd");
    assert_eq!(wrapped[0].clusters[3].style, red);
    assert_eq!(text_of(&wrapped[1]), "ef");
    assert_eq!(wrapped[1].clusters[0].style, red);
    let joined: String = format!("{}{}", text_of(&wrapped[0]), text_of(&wrapped[1]));
    assert_eq!(joined, "abcdef");
}

#[test]
fn wrap_replaces_overwide_cluster_with_space() {
    let l = line("😠");
    let wrapped = wrap_line(&l, 1);
    // The current line is flushed as a full-width blank, the wide glyph
    // becomes a single space on the next row.
    assert_eq!(wrapped.len(), 2);
    assert_eq!(text_of(&wrapped[0]), " ");
    assert_eq!(text_of(&wrapped[1]), " ");
}

#[test]
fn wrap_empty_line_yields_one_empty_row() {
    let l = line("");
    let wrapped = wrap_line(&l, 5);
    assert_eq!(wrapped.len(), 1);
    assert_eq!(wrapped[0].clusters.len(), 0);
}

#[test]
fn crop_scenario_abcdef_by_two() {
    let (residual, rest) = crop_left(line("abcdef"), 2);
    assert_eq!(residual, 0);
    assert_eq!(text_of(&rest), "cdef");
}

#[test]
fn crop_zero_is_identity() {
    let (residual, rest) = crop_left(line("a😠b"), 0);
    assert_eq!(residual, 0);
    assert_eq!(text_of(&rest), "a😠b");
    assert_eq!(width_of(&rest), 4);
}

#[test]
fn crop_inside_wide_cluster_reports_residual() {
    let (residual, rest) = crop_left(line("😠x"), 1);
    assert_eq!(residual, 1);
    assert_eq!(text_of(&rest), "x");
}

#[test]
fn crop_past_the_end_saturates() {
    let (residual, rest) = crop_left(line("ab"), 5);
    assert_eq!(residual, 3);
    assert_eq!(rest.clusters.len(), 0);
}

#[test]
fn crops_compose_on_cluster_boundaries() {
    let a = crop_left(line("abcdef"), 2);
    assert_eq!(a.0, 0);
    let b = crop_left(a.1, 1);
    let c = crop_left(line("abcdef"), 3);
    assert_eq!(b.0, c.0);
    assert_eq!(text_of(&b.1), text_of(&c.1));
}

#[test]
fn crop_line_pads_inside_wide_cluster() {
    let out = crop_line(&line("😠x"), 1);
    assert_eq!(text_of(&out), " x");
    assert_eq!(width_of(&out), 2);
}

#[test]
fn crop_line_keeps_style_of_split_cluster() {
    let red = Style { fg: 2, bg: 0, modifiers: 0 };
    let out = crop_line(&styled("😠x", red), 1);
    assert_eq!(out.clusters[0].text, " ");
    assert_eq!(out.clusters[0].style, red);
}

#[test]
fn layout_nowrap_marks_truncation_with_ellipsis() {
    let red = Style { fg: 2, bg: 0, modifiers: 0 };
    let block = StyledBlock { lines: vec![styled("abcdef", red)] };
    let out = wrap_text(block, 4, true, 0);
    assert_eq!(out.lines.len(), 1);
    let row = &out.lines[0];
    assert_eq!(width_of(row), 4);
    assert_eq!(text_of(row), "abc…");
    let last = row.clusters.last().unwrap();
    assert_eq!(last.text, "…");
    assert_eq!(last.style, red);
}

#[test]
fn layout_nowrap_keeps_short_lines_unmarked() {
    let block = StyledBlock { lines: vec![line("abc")] };
    let out = wrap_text(block, 4, true, 0);
    assert_eq!(out.lines.len(), 1);
    assert_eq!(text_of(&out.lines[0]), "abc");
}

#[test]
fn layout_wrap_mode_crops_each_row() {
    let block = StyledBlock { lines: vec![line("abcdef")] };
    let out = wrap_text(block, 3, false, 1);
    assert_eq!(out.lines.len(), 2);
    assert_eq!(text_of(&out.lines[0]), "bc");
    assert_eq!(text_of(&out.lines[1]), "ef");
}

#[test]
fn layout_keeps_source_line_count_in_nowrap() {
    let block = StyledBlock {
        lines: vec![line("abcdef"), line("x"), line("")],
    };
    let out = wrap_text(block, 3, true, 0);
    assert_eq!(out.lines.len(), 3);
    assert_eq!(out.display_height(), 3);
}
