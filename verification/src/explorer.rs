use vstd::prelude::*;

use crate::files::{File, FileType, Mark};
use crate::listview::{
    lemma_adjust_wf, lemma_ops_wf, lemma_scroll_n_wf, spec_go_bottom, spec_list_wf, spec_scroll_down,
    spec_scroll_down_n, spec_scroll_up, spec_scroll_up_n, spec_select_click, spec_select_down,
    spec_select_left, spec_select_up, ListView,
};
use crate::ui::{Event, KeyCode, KeyEvent, KeyMods};

verus! {

/// One row of the file listing: the entry, the span of the current search
/// match within its name (in character positions), and its pending mark.
#[derive(Debug)]
pub struct RowFile {
    pub file: File,
    pub matched: Option<(usize, usize)>,
    pub mark: Mark,
}

/// Which column the listing is ordered by.
#[derive(Debug, Clone, Copy, PartialEq, Eq, Structural)]
pub enum SortKey {
    Name,
    Size,
    Modified,
    Type,
}

/// What the panel asks its host to list anew: the same directory, its parent,
/// or another directory altogether.
#[derive(Debug)]
pub enum Refresh {
    Same,
    Parent,
    Dir(String),
}

/// One directory pane: the rows on show, the directory they came from, and
/// the display options.
#[derive(Debug)]
pub struct ExplorerPanel {
    pub list: ListView<RowFile>,
    pub dir: String,
    pub show_hidden: bool,
    pub sort_key: SortKey,
    pub sort_reverse: bool,
}

/// Whether the pattern occurs in `s` starting at character position `i`.
pub open spec fn matches_at(s: Seq<char>, pat: Seq<char>, i: int) -> bool {
    0 <= i && i + pat.len() <= s.len() && s.subrange(i, i + pat.len()) == pat
}

/// The first character position at or after `i` where the pattern occurs.
pub open spec fn first_match_from(s: Seq<char>, pat: Seq<char>, i: int) -> Option<int>
    decreases s.len() + 1 - i,
{
    if i + pat.len() > s.len() {
        None
    } else if s.subrange(i, i + pat.len()) == pat {
        Some(i)
    } else {
        first_match_from(s, pat, i + 1)
    }
}

/// A reported match is a real one: it lies at or after where the scan began
/// and the pattern fits the name there.
pub proof fn lemma_first_match_valid(s: Seq<char>, pat: Seq<char>, i: int)
    requires
        0 <= i,
    ensures
        match first_match_from(s, pat, i) {
            Some(j) => i <= j && matches_at(s, pat, j),
            None => true,
        },
    decreases s.len() + 1 - i,
{
    if i + pat.len() > s.len() {
    } else if s.subrange(i, i + pat.len()) == pat {
    } else {
        lemma_first_match_valid(s, pat, i + 1);
    }
}

/// The span the search paints in a name: the first occurrence of the pattern,
/// from its start to its end, in character positions.
pub open spec fn spec_match_span(name: Seq<char>, pat: Seq<char>) -> Option<(usize, usize)> {
    match first_match_from(name, pat, 0) {
        Some(i) => Some(((i as usize), ((i + pat.len()) as usize))),
        None => None,
    }
}

/// Finds the first occurrence of `pat` in `s`, by character position.
pub fn find_substring(s: &str, pat: &str) -> (r: Option<usize>)
    ensures
        match r {
            Some(i) => Some(i as int) == first_match_from(s@, pat@, 0),
            None => first_match_from(s@, pat@, 0) is None,
        },
{
    let n = s.unicode_len();
    let m = pat.unicode_len();
    if m > n {
        return None;
    }
    let mut i: usize = 0;
    while i <= n - m
        invariant
            n == s@.len(),
            m == pat@.len(),
            m <= n,
            i <= n - m + 1,
            first_match_from(s@, pat@, 0) == first_match_from(s@, pat@, i as int),
        decreases n - m + 1 - i,
    {
        let mut k: usize = 0;
        let mut ok = true;
        while k < m && ok
            invariant
                k <= m,
                n == s@.len(),
                m == pat@.len(),
                i + m <= n,
                ok ==> forall|j: int| 0 <= j < k ==> s@[i + j] == pat@[j],
                !ok ==> exists|j: int| 0 <= j < m && s@[i + j] != pat@[j],
            decreases m - k,
        {
            if s.get_char(i + k) != pat.get_char(k) {
                ok = false;
            }
            k += 1;
        }
        if ok {
            proof {
                assert(s@.subrange(i as int, i + m) =~= pat@);
            }
            return Some(i);
        }
        proof {
            let j = choose|j: int| 0 <= j < m && s@[i + j] != pat@[j];
            assert(s@.subrange(i as int, i + m)[j] == s@[i + j]);
            assert(s@.subrange(i as int, i + m) != pat@);
        }
        i += 1;
    }
    None
}

/// Walks the cursor down until it rests on a row with a search match, the
/// bottom of the list, or the top, taking at most `fuel` steps: the state
/// reached, and whether a match was found there.
pub open spec fn spec_seek_down(s: ListView<RowFile>, fuel: nat) -> (ListView<RowFile>, bool)
    decreases fuel,
{
    if fuel == 0 {
        (s, false)
    } else {
        let s2 = spec_select_down(s);
        if s2.select == 0 || s2.select + 1 >= spec_select_left(s2) {
            (s2, false)
        } else if s2.rows@[s2.offset + s2.select].matched is Some {
            (s2, true)
        } else {
            spec_seek_down(s2, (fuel - 1) as nat)
        }
    }
}

/// The mirror image of `spec_seek_down`, walking up.
pub open spec fn spec_seek_up(s: ListView<RowFile>, fuel: nat) -> (ListView<RowFile>, bool)
    decreases fuel,
{
    if fuel == 0 {
        (s, false)
    } else {
        let s2 = spec_select_up(s);
        if s2.select == 0 || s2.select + 1 >= spec_select_left(s2) {
            (s2, false)
        } else if s2.rows@[s2.offset + s2.select].matched is Some {
            (s2, true)
        } else {
            spec_seek_up(s2, (fuel - 1) as nat)
        }
    }
}

/// The seek budget: generous enough to cross the whole list and window.
pub open spec fn spec_seek_fuel(s: ListView<RowFile>) -> int {
    if s.rows@.len() + s.rect.height + 2 <= usize::MAX {
        s.rows@.len() + s.rect.height + 2
    } else {
        usize::MAX as int
    }
}

/// How the panel reacts to an event, relating the state before, the state
/// after, and the refresh request handed back to the host:
/// cursor and scroll keys drive the list; `.`, Enter on a directory and
/// Backspace ask for a new listing; shifted U, D and C mark the selected row;
/// a search paints each row's first match and `n`/`N` hop between matches,
/// falling back to where they started when none is found.
pub open spec fn explorer_steps(
    pre: ExplorerPanel,
    post: ExplorerPanel,
    e: Event,
    r: Option<Refresh>,
) -> bool {
    match e {
        Event::Key(KeyEvent { code: KeyCode::Up, modifiers: KeyMods::Plain }) => post
            == (ExplorerPanel { list: spec_select_up(pre.list), ..pre }) && r is None,
        Event::Key(KeyEvent { code: KeyCode::Char('k'), modifiers: KeyMods::Plain }) => post
            == (ExplorerPanel { list: spec_select_up(pre.list), ..pre }) && r is None,
        Event::Key(KeyEvent { code: KeyCode::Down, modifiers: KeyMods::Plain }) => post
            == (ExplorerPanel { list: spec_select_down(pre.list), ..pre }) && r is None,
        Event::Key(KeyEvent { code: KeyCode::Char('j'), modifiers: KeyMods::Plain }) => post
            == (ExplorerPanel { list: spec_select_down(pre.list), ..pre }) && r is None,
        Event::Key(KeyEvent { code: KeyCode::Char('.'), modifiers: KeyMods::Plain }) => post
            == (ExplorerPanel { list: spec_select_down(pre.list), ..pre }) && match r {
            Some(Refresh::Dir(d)) => d@ == "."@,
            _ => false,
        },
        Event::Key(KeyEvent { code: KeyCode::Enter, modifiers: KeyMods::Plain }) => {
            let sel = pre.list.offset + pre.list.select;
            if pre.list.select >= spec_select_left(pre.list) {
                post == pre && r is None
            } else {
                let ft = pre.list.rows@[sel].file.file_type;
                if ft == FileType::Dir || ft == FileType::DotDot {
                    post == pre && match r {
                        Some(Refresh::Dir(d)) => d == pre.list.rows@[sel].file.path,
                        _ => false,
                    }
                } else {
                    post == pre && r is None
                }
            }
        },
        Event::Key(KeyEvent { code: KeyCode::Backspace, modifiers: KeyMods::Plain }) => post == pre
            && r matches Some(Refresh::Parent),
        Event::Key(KeyEvent { code: KeyCode::Char('u'), modifiers: KeyMods::Control }) => post
            == (ExplorerPanel {
            list: spec_scroll_up_n(pre.list, (pre.list.rect.height / 2) as nat),
            ..pre
        }) && r is None,
        Event::Key(KeyEvent { code: KeyCode::Char('d'), modifiers: KeyMods::Control }) => post
            == (ExplorerPanel {
            list: spec_scroll_down_n(pre.list, (pre.list.rect.height / 2) as nat),
            ..pre
        }) && r is None,
        Event::Key(KeyEvent { code: KeyCode::Char('U'), modifiers: KeyMods::Shift }) => mark_steps(
            pre,
            post,
            Mark::Upload,
        ) && r is None,
        Event::Key(KeyEvent { code: KeyCode::Char('D'), modifiers: KeyMods::Shift }) => mark_steps(
            pre,
            post,
            Mark::Delete,
        ) && r is None,
        Event::Key(KeyEvent { code: KeyCode::Char('C'), modifiers: KeyMods::Shift }) => mark_steps(
            pre,
            post,
            Mark::Unmarked,
        ) && r is None,
        Event::ScrollDown => post == (ExplorerPanel { list: spec_scroll_down(pre.list), ..pre })
            && r is None,
        Event::ScrollUp => post == (ExplorerPanel { list: spec_scroll_up(pre.list), ..pre })
            && r is None,
        Event::Click(col, row) => post == (ExplorerPanel {
            list: spec_select_click(pre.list, row),
            ..pre
        }) && r is None,
        Event::Keys_gg => post == (ExplorerPanel {
            list: ListView { offset: 0, select: 0, ..pre.list },
            ..pre
        }) && r is None,
        Event::Keys_G => post == (ExplorerPanel { list: spec_go_bottom(pre.list), ..pre })
            && r is None,
        Event::Search(search) => {
            &&& r is None
            &&& post.dir == pre.dir
            &&& post.show_hidden == pre.show_hidden
            &&& post.sort_key == pre.sort_key
            &&& post.sort_reverse == pre.sort_reverse
            &&& post.list.offset == pre.list.offset
            &&& post.list.select == pre.list.select
            &&& post.list.rect == pre.list.rect
            &&& post.list.rows@.len() == pre.list.rows@.len()
            &&& forall|k: int|
                0 <= k < pre.list.rows@.len() ==> #[trigger] post.list.rows@[k] == (RowFile {
                    matched: spec_match_span(pre.list.rows@[k].file.name@, search@),
                    ..pre.list.rows@[k]
                })
        },
        Event::Key(KeyEvent { code: KeyCode::Char('l'), modifiers: KeyMods::Control }) => {
            &&& r is None
            &&& post.dir == pre.dir
            &&& post.show_hidden == pre.show_hidden
            &&& post.sort_key == pre.sort_key
            &&& post.sort_reverse == pre.sort_reverse
            &&& post.list.offset == pre.list.offset
            &&& post.list.select == pre.list.select
            &&& post.list.rect == pre.list.rect
            &&& post.list.rows@.len() == pre.list.rows@.len()
            &&& forall|k: int|
                0 <= k < pre.list.rows@.len() ==> #[trigger] post.list.rows@[k] == (RowFile {
                    matched: None,
                    ..pre.list.rows@[k]
                })
        },
        Event::Key(KeyEvent { code: KeyCode::Char('n'), modifiers: KeyMods::Plain }) => {
            let (s2, found) = spec_seek_down(pre.list, spec_seek_fuel(pre.list) as nat);
            post == (ExplorerPanel {
                list: if found {
                    s2
                } else {
                    ListView { offset: pre.list.offset, select: pre.list.select, ..s2 }
                },
                ..pre
            }) && r is None
        },
        Event::Key(KeyEvent { code: KeyCode::Char('N'), modifiers: KeyMods::Shift }) => {
            let (s2, found) = spec_seek_up(pre.list, spec_seek_fuel(pre.list) as nat);
            post == (ExplorerPanel {
                list: if found {
                    s2
                } else {
                    ListView { offset: pre.list.offset, select: pre.list.select, ..s2 }
                },
                ..pre
            }) && r is None
        },
        _ => post == pre && r is None,
    }
}

/// Marking changes exactly the selected row's mark, when the cursor rests on
/// a row.
pub open spec fn mark_steps(pre: ExplorerPanel, post: ExplorerPanel, m: Mark) -> bool {
    let sel = pre.list.offset + pre.list.select;
    if sel < pre.list.rows@.len() {
        &&& post.dir == pre.dir
        &&& post.show_hidden == pre.show_hidden
        &&& post.sort_key == pre.sort_key
        &&& post.sort_reverse == pre.sort_reverse
        &&& post.list.offset == pre.list.offset
        &&& post.list.select == pre.list.select
        &&& post.list.rect == pre.list.rect
        &&& post.list.rows@ == pre.list.rows@.update(
            sel as int,
            RowFile { mark: m, ..pre.list.rows@[sel as int] },
        )
    } else {
        post == pre
    }
}

impl ExplorerPanel {
    /// A pane over `dir`, empty until the host hands it a listing.
    pub fn new(dir: String) -> (r: ExplorerPanel)
        ensures
            r.dir == dir,
            r.list.rows@.len() == 0,
            r.list.offset == 0,
            r.list.select == 0,
            r.show_hidden == false,
            r.sort_key == SortKey::Name,
            r.sort_reverse == false,
            spec_list_wf(r.list),
    {
        ExplorerPanel {
            list: ListView::new(),
            dir,
            show_hidden: false,
            sort_key: SortKey::Name,
            sort_reverse: false,
        }
    }

    /// Adopts a freshly listed set of rows and the directory they came from.
    pub fn accept_listing(&mut self, dir: String, rows: Vec<RowFile>)
        ensures
            final (self).dir == dir,
            final (self).show_hidden == old(self).show_hidden,
            final (self).sort_key == old(self).sort_key,
            final (self).sort_reverse == old(self).sort_reverse,
            final (self).list == crate::listview::spec_adjust(
                ListView { rows, ..old(self).list },
            ),
            spec_list_wf(final (self).list),
    {
        self.dir = dir;
        self.list.rows = rows;
        self.list.adjust();
        proof {
            lemma_adjust_wf(ListView { rows: self.list.rows, ..old(self).list });
        }
    }

    /// Reacts to one event; the result is a request to list a directory anew,
    /// which the host performs and answers through `accept_listing`.
    pub fn on_event(&mut self, event: Event) -> (r: Option<Refresh>)
        requires
            spec_list_wf(old(self).list),
        ensures
            explorer_steps(*old(self), *final (self), event, r),
            spec_list_wf(final (self).list),
    {
        proof {
            lemma_ops_wf(old(self).list);
            lemma_scroll_n_wf(old(self).list, (old(self).list.rect.height / 2) as nat);
        }
        match event {
            Event::Key(KeyEvent { code: KeyCode::Up, modifiers: KeyMods::Plain })
            | Event::Key(KeyEvent { code: KeyCode::Char('k'), modifiers: KeyMods::Plain }) => {
                self.list.go_select_up();
                None
            },
            Event::Key(KeyEvent { code: KeyCode::Down, modifiers: KeyMods::Plain })
            | Event::Key(KeyEvent { code: KeyCode::Char('j'), modifiers: KeyMods::Plain }) => {
                self.list.go_select_down();
                None
            },
            Event::Key(KeyEvent { code: KeyCode::Char('.'), modifiers: KeyMods::Plain }) => {
                self.list.go_select_down();
                Some(Refresh::Dir(".".to_owned()))
            },
            Event::Key(KeyEvent { code: KeyCode::Enter, modifiers: KeyMods::Plain }) => {
                let (rfs, select) = self.list.view();
                if select >= rfs.len() {
                    return None;
                }
                let file_type = rfs[select].file.file_type;
                proof {
                    assert(rfs@[select as int] == self.list.rows@[self.list.offset + select]);
                }
                match file_type {
                    FileType::Dir | FileType::DotDot => {
                        let file_path = rfs[select].file.path.clone();
                        Some(Refresh::Dir(file_path))
                    },
                    _ => None,
                }
            },
            Event::Key(KeyEvent { code: KeyCode::Backspace, modifiers: KeyMods::Plain }) => {
                Some(Refresh::Parent)
            },
            Event::Key(KeyEvent { code: KeyCode::Char('u'), modifiers: KeyMods::Control }) => {
                self.list.go_scroll_up_page();
                None
            },
            Event::Key(KeyEvent { code: KeyCode::Char('d'), modifiers: KeyMods::Control }) => {
                self.list.go_scroll_down_page();
                None
            },
            Event::Key(KeyEvent { code: KeyCode::Char('U'), modifiers: KeyMods::Shift }) => {
                self.mark_selected(Mark::Upload);
                None
            },
            Event::Key(KeyEvent { code: KeyCode::Char('D'), modifiers: KeyMods::Shift }) => {
                self.mark_selected(Mark::Delete);
                None
            },
            Event::Key(KeyEvent { code: KeyCode::Char('C'), modifiers: KeyMods::Shift }) => {
                self.mark_selected(Mark::Unmarked);
                None
            },
            Event::ScrollDown => {
                self.list.go_scroll_down();
                None
            },
            Event::ScrollUp => {
                self.list.go_scroll_up();
                None
            },
            Event::Click(col, row) => {
                self.list.go_select((col, row));
                None
            },
            Event::Keys_gg => {
                self.list.go_top();
                None
            },
            Event::Keys_G => {
                self.list.go_bottom();
                None
            },
            Event::Search(search) => {
                let pat_len = search.as_str().unicode_len();
                let n = self.list.rows.len();
                let mut k: usize = 0;
                while k < n
                    invariant
                        k <= n,
                        n == self.list.rows@.len(),
                        pat_len == search@.len(),
                        self.dir == old(self).dir,
                        self.show_hidden == old(self).show_hidden,
                        self.sort_key == old(self).sort_key,
                        self.sort_reverse == old(self).sort_reverse,
                        self.list.offset == old(self).list.offset,
                        self.list.select == old(self).list.select,
                        self.list.rect == old(self).list.rect,
                        self.list.rows@.len() == old(self).list.rows@.len(),
                        forall|j: int|
                            0 <= j < k ==> #[trigger] self.list.rows@[j] == (RowFile {
                                matched: spec_match_span(
                                    old(self).list.rows@[j].file.name@,
                                    search@,
                                ),
                                ..old(self).list.rows@[j]
                            }),
                        forall|j: int|
                            k <= j < n ==> #[trigger] self.list.rows@[j] == old(self).list.rows@[j],
                    decreases n - k,
                {
                    let name_len = self.list.rows[k].file.name.as_str().unicode_len();
                    let found = find_substring(self.list.rows[k].file.name.as_str(), search.as_str());
                    proof {
                        lemma_first_match_valid(self.list.rows@[k as int].file.name@, search@, 0);
                    }
                    let span = match found {
                        Some(i) => Some((i, i + pat_len)),
                        None => None,
                    };
                    proof {
                        assert(span == spec_match_span(self.list.rows@[k as int].file.name@, search@));
                    }
                    self.list.rows[k].matched = span;
                    k += 1;
                }
                None
            },
            Event::Key(KeyEvent { code: KeyCode::Char('l'), modifiers: KeyMods::Control }) => {
                let n = self.list.rows.len();
                let mut k: usize = 0;
                while k < n
                    invariant
                        k <= n,
                        n == self.list.rows@.len(),
                        self.dir == old(self).dir,
                        self.show_hidden == old(self).show_hidden,
                        self.sort_key == old(self).sort_key,
                        self.sort_reverse == old(self).sort_reverse,
                        self.list.offset == old(self).list.offset,
                        self.list.select == old(self).list.select,
                        self.list.rect == old(self).list.rect,
                        self.list.rows@.len() == old(self).list.rows@.len(),
                        forall|j: int|
                            0 <= j < k ==> #[trigger] self.list.rows@[j] == (RowFile {
                                matched: None,
                                ..old(self).list.rows@[j]
                            }),
                        forall|j: int|
                            k <= j < n ==> #[trigger] self.list.rows@[j] == old(self).list.rows@[j],
                    decreases n - k,
                {
                    self.list.rows[k].matched = None;
                    k += 1;
                }
                None
            },
            Event::Key(KeyEvent { code: KeyCode::Char('n'), modifiers: KeyMods::Plain }) => {
                self.seek_down();
                None
            },
            Event::Key(KeyEvent { code: KeyCode::Char('N'), modifiers: KeyMods::Shift }) => {
                self.seek_up();
                None
            },
            _ => { None },
        }
    }

    /// Sets the selected row's mark, when the cursor rests on a row.
    fn mark_selected(&mut self, m: Mark)
        requires
            spec_list_wf(old(self).list),
        ensures
            mark_steps(*old(self), *final (self), m),
            spec_list_wf(final (self).list),
    {
        let sel = self.list.offset.saturating_add(self.list.select);
        if sel < self.list.rows.len() && self.list.select <= usize::MAX - self.list.offset {
            self.list.rows[sel].mark = m;
        }
    }

    /// Walks the cursor down to the next row with a search match, coming back
    /// when none is found before the bottom.
    fn seek_down(&mut self)
        requires
            spec_list_wf(old(self).list),
        ensures
            ({
                let (s2, found) = spec_seek_down(
                    old(self).list,
                    spec_seek_fuel(old(self).list) as nat,
                );
                *final (self) == (ExplorerPanel {
                    list: if found {
                        s2
                    } else {
                        ListView {
                            offset: old(self).list.offset,
                            select: old(self).list.select,
                            ..s2
                        }
                    },
                    ..*old(self)
                })
            }),
            spec_list_wf(final (self).list),
    {
        let offset_old = self.list.offset;
        let select_old = self.list.select;
        let ghost fuel0 = spec_seek_fuel(old(self).list) as nat;
        let mut fuel: usize = self.list.rows.len().saturating_add(
            self.list.rect.height as usize,
        ).saturating_add(2);
        let mut done = false;
        let mut found = false;
        while fuel > 0 && !done
            invariant
                spec_list_wf(self.list),
                self.dir == old(self).dir,
                self.show_hidden == old(self).show_hidden,
                self.sort_key == old(self).sort_key,
                self.sort_reverse == old(self).sort_reverse,
                self.list.rows@.len() == old(self).list.rows@.len(),
                !done ==> !found && spec_seek_down(old(self).list, fuel0) == spec_seek_down(
                    self.list,
                    fuel as nat,
                ),
                done ==> spec_seek_down(old(self).list, fuel0) == (self.list, found),
            decreases fuel, (if done { 0int } else { 1int }),
        {
            let ghost pre_step = self.list;
            self.list.go_select_down();
            proof {
                lemma_ops_wf(pre_step);
            }
            let left = self.list.select_left();
            if self.list.select == 0 || self.list.select.saturating_add(1) >= left {
                done = true;
            } else {
                let nrows = self.list.rows.len();
                proof {
                    assert(self.list.select + 1 < spec_select_left(self.list));
                    assert(self.list.offset + self.list.select < nrows);
                }
                let sel = self.list.offset + self.list.select;
                if self.list.rows[sel].matched.is_some() {
                    done = true;
                    found = true;
                } else {
                    fuel = fuel - 1;
                }
            }
        }
        if !found {
            self.list.offset = offset_old;
            self.list.select = select_old;
        }
    }

    /// The mirror image of `seek_down`, walking up.
    fn seek_up(&mut self)
        requires
            spec_list_wf(old(self).list),
        ensures
            ({
                let (s2, found) = spec_seek_up(
                    old(self).list,
                    spec_seek_fuel(old(self).list) as nat,
                );
                *final (self) == (ExplorerPanel {
                    list: if found {
                        s2
                    } else {
                        ListView {
                            offset: old(self).list.offset,
                            select: old(self).list.select,
                            ..s2
                        }
                    },
                    ..*old(self)
                })
            }),
            spec_list_wf(final (self).list),
    {
        let offset_old = self.list.offset;
        let select_old = self.list.select;
        let ghost fuel0 = spec_seek_fuel(old(self).list) as nat;
        let mut fuel: usize = self.list.rows.len().saturating_add(
            self.list.rect.height as usize,
        ).saturating_add(2);
        let mut done = false;
        let mut found = false;
        while fuel > 0 && !done
            invariant
                spec_list_wf(self.list),
                self.dir == old(self).dir,
                self.show_hidden == old(self).show_hidden,
                self.sort_key == old(self).sort_key,
                self.sort_reverse == old(self).sort_reverse,
                self.list.rows@.len() == old(self).list.rows@.len(),
                !done ==> !found && spec_seek_up(old(self).list, fuel0) == spec_seek_up(
                    self.list,
                    fuel as nat,
                ),
                done ==> spec_seek_up(old(self).list, fuel0) == (self.list, found),
            decreases fuel, (if done { 0int } else { 1int }),
        {
            let ghost pre_step = self.list;
            self.list.go_select_up();
            proof {
                lemma_ops_wf(pre_step);
            }
            let left = self.list.select_left();
            if self.list.select == 0 || self.list.select.saturating_add(1) >= left {
                done = true;
            } else {
                let nrows = self.list.rows.len();
                proof {
                    assert(self.list.select + 1 < spec_select_left(self.list));
                    assert(self.list.offset + self.list.select < nrows);
                }
                let sel = self.list.offset + self.list.select;
                if self.list.rows[sel].matched.is_some() {
                    done = true;
                    found = true;
                } else {
                    fuel = fuel - 1;
                }
            }
        }
        if !found {
            self.list.offset = offset_old;
            self.list.select = select_old;
        }
    }
}

} // verus!

use vstd::multiset::Multiset;

verus! {

/// Lexicographic order on character sequences, by code point.
pub open spec fn chars_lt(a: Seq<char>, b: Seq<char>) -> bool
    decreases a.len(),
{
    if b.len() == 0 {
        false
    } else if a.len() == 0 {
        true
    } else if a.first() != b.first() {
        a.first() < b.first()
    } else {
        chars_lt(a.drop_first(), b.drop_first())
    }
}

/// No sequence is below itself.
pub proof fn lemma_chars_lt_irrefl(a: Seq<char>)
    ensures
        !chars_lt(a, a),
    decreases a.len(),
{
    if a.len() > 0 {
        lemma_chars_lt_irrefl(a.drop_first());
    }
}

/// The order is transitive.
pub proof fn lemma_chars_lt_trans(a: Seq<char>, b: Seq<char>, c: Seq<char>)
    requires
        chars_lt(a, b),
        chars_lt(b, c),
    ensures
        chars_lt(a, c),
    decreases a.len(),
{
    if a.len() == 0 {
    } else if a.first() != b.first() {
    } else if b.first() != c.first() {
    } else {
        lemma_chars_lt_trans(a.drop_first(), b.drop_first(), c.drop_first());
    }
}

/// Order on optional timestamps: an absent one sorts first.
pub open spec fn opt_time_lt(a: Option<i64>, b: Option<i64>) -> bool {
    match (a, b) {
        (None, Some(_)) => true,
        (Some(x), Some(y)) => x < y,
        _ => false,
    }
}

/// The rank of an entry kind in a listing: plain files first, then links,
/// directories and the rest; the parent entry ranks last (it is kept in place
/// separately).
pub open spec fn type_rank(t: FileType) -> int {
    match t {
        FileType::File => 0,
        FileType::SymLink => 1,
        FileType::Dir => 2,
        FileType::Other => 3,
        FileType::DotDot => 4,
    }
}

/// The strict listing order between two entries: by kind rank first, then by
/// the chosen column.
pub open spec fn file_lt(key: SortKey, a: File, b: File) -> bool {
    let ra = type_rank(a.file_type);
    let rb = type_rank(b.file_type);
    if ra != rb {
        ra < rb
    } else {
        match key {
            SortKey::Name => chars_lt(a.name@, b.name@),
            SortKey::Size => a.metadata.len < b.metadata.len,
            SortKey::Modified => opt_time_lt(a.metadata.modified, b.metadata.modified),
            SortKey::Type => a.metadata.len < b.metadata.len,
        }
    }
}

/// The strict order between two rows, mirrored when the sort is reversed.
pub open spec fn row_lt(key: SortKey, rev: bool, a: RowFile, b: RowFile) -> bool {
    if rev {
        file_lt(key, b.file, a.file)
    } else {
        file_lt(key, a.file, b.file)
    }
}

/// The listing order: `a` may stand before `b` when `b` is not strictly below
/// `a`.
pub open spec fn row_le(key: SortKey, rev: bool, a: RowFile, b: RowFile) -> bool {
    !row_lt(key, rev, b, a)
}

/// No row is strictly below itself.
pub proof fn lemma_row_lt_irrefl(key: SortKey, rev: bool, a: RowFile)
    ensures
        !row_lt(key, rev, a, a),
{
    lemma_chars_lt_irrefl(a.file.name@);
}

/// The strict row order is transitive.
pub proof fn lemma_row_lt_trans(key: SortKey, rev: bool, a: RowFile, b: RowFile, c: RowFile)
    requires
        row_lt(key, rev, a, b),
        row_lt(key, rev, b, c),
    ensures
        row_lt(key, rev, a, c),
{
    if rev {
        if key == SortKey::Name && type_rank(c.file.file_type) == type_rank(b.file.file_type)
            && type_rank(b.file.file_type) == type_rank(a.file.file_type) {
            lemma_chars_lt_trans(c.file.name@, b.file.name@, a.file.name@);
        }
    } else {
        if key == SortKey::Name && type_rank(a.file.file_type) == type_rank(b.file.file_type)
            && type_rank(b.file.file_type) == type_rank(c.file.file_type) {
            lemma_chars_lt_trans(a.file.name@, b.file.name@, c.file.name@);
        }
    }
}

/// The rank of an entry kind, as `type_rank` gives it.
fn type_rank_exec(t: FileType) -> (r: u8)
    ensures
        r as int == type_rank(t),
{
    match t {
        FileType::File => 0,
        FileType::SymLink => 1,
        FileType::Dir => 2,
        FileType::Other => 3,
        FileType::DotDot => 4,
    }
}

/// Whether `a` comes strictly before `b` in code-point order.
fn str_lt(a: &str, b: &str) -> (r: bool)
    ensures
        r == chars_lt(a@, b@),
{
    let na = a.unicode_len();
    let nb = b.unicode_len();
    let mut i: usize = 0;
    proof {
        assert(a@.skip(0) =~= a@);
        assert(b@.skip(0) =~= b@);
    }
    while i < na && i < nb
        invariant
            na == a@.len(),
            nb == b@.len(),
            i <= na,
            i <= nb,
            chars_lt(a@, b@) == chars_lt(a@.skip(i as int), b@.skip(i as int)),
        decreases na - i,
    {
        proof {
            assert(a@.skip(i as int).first() == a@[i as int]);
            assert(b@.skip(i as int).first() == b@[i as int]);
            assert(a@.skip(i as int).drop_first() =~= a@.skip(i + 1));
            assert(b@.skip(i as int).drop_first() =~= b@.skip(i + 1));
        }
        let ca = a.get_char(i);
        let cb = b.get_char(i);
        if ca != cb {
            return ca < cb;
        }
        i += 1;
    }
    proof {
        if i == na {
            assert(a@.skip(i as int).len() == 0);
        } else {
            assert(b@.skip(i as int).len() == 0);
        }
    }
    na < nb
}

/// Whether `a` comes strictly before `b` in the listing order.
fn row_lt_exec(key: SortKey, rev: bool, a: &RowFile, b: &RowFile) -> (r: bool)
    ensures
        r == row_lt(key, rev, *a, *b),
{
    let (x, y) = if rev {
        (b, a)
    } else {
        (a, b)
    };
    let rx = type_rank_exec(x.file.file_type);
    let ry = type_rank_exec(y.file.file_type);
    if rx != ry {
        rx < ry
    } else {
        match key {
            SortKey::Name => str_lt(x.file.name.as_str(), y.file.name.as_str()),
            SortKey::Size => x.file.metadata.len < y.file.metadata.len,
            SortKey::Modified => {
                match (x.file.metadata.modified, y.file.metadata.modified) {
                    (None, Some(_)) => true,
                    (Some(mx), Some(my)) => mx < my,
                    _ => false,
                }
            },
            SortKey::Type => x.file.metadata.len < y.file.metadata.len,
        }
    }
}

/// Orders the rows below the first one (the parent entry keeps its place):
/// afterwards the rows hold the same entries, and from the second row on each
/// stands no later than the next in the listing order.
pub fn sort_rows(rows: &mut Vec<RowFile>, key: SortKey, rev: bool)
    ensures
        final (rows)@.len() == old(rows)@.len(),
        final (rows)@.to_multiset() == old(rows)@.to_multiset(),
        old(rows)@.len() >= 1 ==> final (rows)@[0] == old(rows)@[0],
        forall|i: int, j: int|
            1 <= i < j < final (rows)@.len() ==> row_le(
                key,
                rev,
                final (rows)@[i],
                final (rows)@[j],
            ),
{
    broadcast use vstd::seq_lib::group_to_multiset_ensures;
    broadcast use vstd::multiset::group_multiset_axioms;

    if rows.len() <= 1 {
        return ;
    }
    let ghost orig = rows@;
    let mut rest: Vec<RowFile> = Vec::new();
    while rows.len() > 1
        invariant
            1 <= rows@.len() <= orig.len(),
            rows@ == orig.take(rows@.len() as int),
            rows@.len() + rest@.len() == orig.len(),
            rows@.to_multiset().add(rest@.to_multiset()) =~= orig.to_multiset(),
        decreases rows@.len(),
    {
        let ghost pre = rows@;
        let x = match rows.pop() {
            Some(x) => x,
            None => {
                proof {
                    assert(false);
                }
                return ;
            },
        };
        proof {
            assert(pre.drop_last() =~= pre.remove(pre.len() - 1));
            vstd::seq_lib::to_multiset_remove(pre, pre.len() - 1);
            vstd::seq_lib::to_multiset_contains(pre, pre.last());
            assert(pre.contains(pre.last()));
            assert(rows@.to_multiset().insert(x).add(rest@.to_multiset()) =~= pre.to_multiset().add(
                rest@.to_multiset(),
            ));
            assert(rows@ =~= orig.take(rows@.len() as int));
        }
        let ghost rest_pre = rest@;
        rest.push(x);
        proof {
            vstd::seq_lib::to_multiset_build(rest_pre, x);
            assert(rows@.to_multiset().add(rest@.to_multiset()) =~= orig.to_multiset());
        }
    }
    while rest.len() > 0
        invariant
            1 <= rows@.len(),
            rows@[0] == orig[0],
            rows@.to_multiset().add(rest@.to_multiset()) =~= orig.to_multiset(),
            rows@.len() + rest@.len() == orig.len(),
            forall|i: int, j: int|
                1 <= i < j < rows@.len() ==> row_le(key, rev, rows@[i], rows@[j]),
            forall|k: int, y: int|
                1 <= k < rows@.len() && 0 <= y < rest@.len() ==> !row_lt(
                    key,
                    rev,
                    #[trigger] rest@[y],
                    #[trigger] rows@[k],
                ),
        decreases rest@.len(),
    {
        let mut mi: usize = 0;
        let mut j: usize = 1;
        proof {
            lemma_row_lt_irrefl(key, rev, rest@[0]);
        }
        while j < rest.len()
            invariant
                mi < j <= rest@.len(),
                rest@.len() > 0,
                forall|y: int| 0 <= y < j ==> !row_lt(key, rev, #[trigger] rest@[y], rest@[mi as int]),
            decreases rest@.len() - j,
        {
            if row_lt_exec(key, rev, &rest[j], &rest[mi]) {
                proof {
                    assert forall|y: int| 0 <= y < j + 1 implies !row_lt(
                        key,
                        rev,
                        #[trigger] rest@[y],
                        rest@[j as int],
                    ) by {
                        if y == j {
                            lemma_row_lt_irrefl(key, rev, rest@[y]);
                        } else if row_lt(key, rev, rest@[y], rest@[j as int]) {
                            lemma_row_lt_trans(
                                key,
                                rev,
                                rest@[y],
                                rest@[j as int],
                                rest@[mi as int],
                            );
                        }
                    }
                }
                mi = j;
            } else {
                proof {
                    lemma_row_lt_irrefl(key, rev, rest@[j as int]);
                }
            }
            j += 1;
        }
        let ghost pre_rest = rest@;
        let ghost pre_rows = rows@;
        let x = rest.remove(mi);
        rows.push(x);
        proof {
            vstd::seq_lib::to_multiset_remove(pre_rest, mi as int);
            vstd::seq_lib::to_multiset_contains(pre_rest, x);
            assert(pre_rest.contains(pre_rest[mi as int]));
            vstd::seq_lib::to_multiset_build(pre_rows, x);
            assert(rows@.to_multiset().add(rest@.to_multiset()) =~= orig.to_multiset()) by {
                assert(rows@.to_multiset() =~= pre_rows.to_multiset().insert(x));
                assert(rest@.to_multiset() =~= pre_rest.to_multiset().remove(x));
            }
            assert forall|i: int, j2: int|
                1 <= i < j2 < rows@.len() implies row_le(key, rev, rows@[i], rows@[j2]) by {
                if j2 == rows@.len() - 1 {
                    assert(rows@[j2] == x);
                    assert(!row_lt(key, rev, pre_rest[mi as int], pre_rows[i]));
                }
            }
            assert forall|k: int, y: int|
                1 <= k < rows@.len() && 0 <= y < rest@.len() implies !row_lt(
                key,
                rev,
                #[trigger] rest@[y],
                #[trigger] rows@[k],
            ) by {
                let prev_y = if y < mi {
                    y
                } else {
                    y + 1
                };
                assert(rest@[y] == pre_rest[prev_y]);
                if k == rows@.len() - 1 {
                    assert(rows@[k] == x);
                    if row_lt(key, rev, rest@[y], x) {
                        lemma_row_lt_trans(key, rev, rest@[y], x, x);
                    }
                } else {
                    assert(rows@[k] == pre_rows[k]);
                }
            }
        }
    }
    proof {
        assert(rest@.to_multiset() =~= Multiset::<RowFile>::empty());
        assert(rows@.to_multiset().add(rest@.to_multiset()) =~= rows@.to_multiset());
        assert(orig[0] == old(rows)@[0]);
    }
}

} // verus!

verus! {

/// Which entries a listing shows: everything when hidden entries are on show,
/// otherwise every entry whose name does not begin with a dot — except the
/// two directory entries "." and "..", which always show.
pub open spec fn spec_keep(f: File, show_hidden: bool) -> bool {
    show_hidden || f.name@.len() == 0 || f.name@[0] != '.' || f.name@ == ".."@ || f.name@ == "."@
}

/// The row a kept entry becomes: unmarked, with no search match.
pub open spec fn spec_fresh_row(f: File) -> RowFile {
    RowFile { file: f, matched: None, mark: Mark::Unmarked }
}

/// Whether the listing shows this entry.
fn keep_file(f: &File, show_hidden: bool) -> (r: bool)
    ensures
        r == spec_keep(*f, show_hidden),
{
    if show_hidden {
        return true;
    }
    let n = f.name.as_str().unicode_len();
    if n == 0 {
        return true;
    }
    let c0 = f.name.as_str().get_char(0);
    if c0 != '.' {
        return true;
    }
    if n == 2 && f.name.as_str().get_char(1) == '.' {
        proof {
            reveal_strlit("..");
            assert(f.name@ =~= ".."@);
        }
        return true;
    }
    if n == 1 {
        proof {
            reveal_strlit(".");
            assert(f.name@ =~= "."@);
        }
        return true;
    }
    proof {
        reveal_strlit("..");
        reveal_strlit(".");
        assert(f.name@ != ".."@) by {
            if f.name@.len() == 2 {
                assert(f.name@[1] != '.');
            }
        }
        assert(f.name@ != "."@);
    }
    false
}

/// Builds the rows of a listing from freshly read entries: entries hidden by
/// the dot convention are dropped (unless hidden entries are on show), each
/// kept entry becomes an unmarked row with no search match, and the rows
/// below the first — the parent entry — are put in the listing order.
pub fn prepare_listing(files: Vec<File>, show_hidden: bool, key: SortKey, rev: bool) -> (r: Vec<
    RowFile,
>)
    ensures
        ({
            let kept = files@.filter(|f: File| spec_keep(f, show_hidden));
            let rows0 = kept.map_values(|f: File| spec_fresh_row(f));
            &&& r@.len() == rows0.len()
            &&& r@.to_multiset() == rows0.to_multiset()
            &&& rows0.len() >= 1 ==> r@[0] == rows0[0]
            &&& forall|i: int, j: int| 1 <= i < j < r@.len() ==> row_le(key, rev, r@[i], r@[j])
        }),
{
    let ghost pred = |f: File| spec_keep(f, show_hidden);
    let ghost mk = |f: File| spec_fresh_row(f);
    let mut files = files;
    let ghost all = files@;
    let mut stack: Vec<File> = Vec::new();
    while files.len() > 0
        invariant
            files@.len() + stack@.len() == all.len(),
            files@ == all.take(files@.len() as int),
            forall|k: int| 0 <= k < stack@.len() ==> #[trigger] stack@[k] == all[all.len() - 1 - k],
        decreases files@.len(),
    {
        let ghost pre = files@;
        let x = match files.pop() {
            Some(x) => x,
            None => {
                proof {
                    assert(false);
                }
                return Vec::new();
            },
        };
        proof {
            assert(files@ =~= all.take(files@.len() as int));
        }
        stack.push(x);
    }
    let mut rows: Vec<RowFile> = Vec::new();
    while stack.len() > 0
        invariant
            pred == (|f: File| spec_keep(f, show_hidden)),
            mk == (|f: File| spec_fresh_row(f)),
            stack@.len() <= all.len(),
            forall|k: int| 0 <= k < stack@.len() ==> #[trigger] stack@[k] == all[all.len() - 1 - k],
            rows@ == all.take(all.len() - stack@.len()).filter(pred).map_values(mk),
        decreases stack@.len(),
    {
        let ghost processed = all.len() - stack@.len();
        let f = match stack.pop() {
            Some(f) => f,
            None => {
                proof {
                    assert(false);
                }
                return Vec::new();
            },
        };
        proof {
            assert(f == all[processed]);
        }
        let keep = keep_file(&f, show_hidden);
        proof {
            reveal(Seq::filter);
            assert(all.take(processed + 1).drop_last() =~= all.take(processed));
            assert(all.take(processed + 1).last() == all[processed]);
        }
        if keep {
            let ghost pre_rows = rows@;
            rows.push(RowFile { file: f, matched: None, mark: Mark::Unmarked });
            proof {
                let kept_new = all.take(processed + 1).filter(pred);
                assert(kept_new == all.take(processed).filter(pred).push(f));
                assert(kept_new.map_values(mk) =~= all.take(processed).filter(pred).map_values(
                    mk,
                ).push(mk(f)));
                assert(rows@ =~= kept_new.map_values(mk));
            }
        } else {
            proof {
                assert(all.take(processed + 1).filter(pred) == all.take(processed).filter(pred));
                assert(rows@ == all.take(processed + 1).filter(pred).map_values(mk));
            }
        }
    }
    proof {
        assert(all.take(all.len() as int) =~= all);
        assert(rows@ == all.filter(pred).map_values(mk));
    }
    sort_rows(&mut rows, key, rev);
    rows
}

} // verus!
