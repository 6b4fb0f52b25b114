use vstd::prelude::*;

use crate::listview::{min2, sat_sub};
use crate::text::{cells_width, StyledBlock};
use crate::ui::{Event, KeyCode, KeyEvent, KeyMods, LogRecord};

verus! {

/// The glyph that marks truncated content.
pub const ELLIPSES: char = '…';

/// A value together with the moment it was armed and how long it lives.
#[derive(Debug, Clone)]
pub struct TimeOut<T> {
    pub inner: T,
    pub ins_ms: u64,
    pub dur_ms: u64,
}

impl<T> TimeOut<T> {
    /// Whether the value has outlived its span at time `now_ms`.
    pub fn timeout(&self, now_ms: u64) -> (r: bool)
        ensures
            r == (sat_sub(now_ms as int, self.ins_ms as int) > self.dur_ms),
    {
        now_ms.saturating_sub(self.ins_ms) > self.dur_ms
    }
}

/// The demo file table's view state: scroll offsets and cursor.
#[derive(Debug, Clone, Copy, PartialEq, Eq, Structural)]
pub struct FileTable {
    pub offset_x: usize,
    pub offset_y: usize,
    pub select: usize,
}

impl FileTable {
    pub fn new() -> (r: FileTable)
        ensures
            r == (FileTable { offset_x: 4usize, offset_y: 2usize, select: 3usize }),
    {
        FileTable { offset_x: 4, offset_y: 2, select: 3 }
    }
}

/// A bottom-anchored log list: `offset` is how many records are on show, and
/// it rides along with the end while the view rests there.
#[derive(Debug)]
pub struct LogList {
    pub items: Vec<LogRecord>,
    pub offset: usize,
}

/// How the log list reacts to an event: j and k move the edge, `G` jumps to
/// the end, the double `g` to the start; the edge never passes the number of
/// records.
pub open spec fn log_list_steps(pre: LogList, post: LogList, e: Event) -> bool {
    let raw = match e {
        Event::Key(KeyEvent { code: KeyCode::Char('j'), modifiers: KeyMods::Plain }) => if pre.offset
            == usize::MAX {
            pre.offset as int
        } else {
            pre.offset + 1
        },
        Event::Key(KeyEvent { code: KeyCode::Char('k'), modifiers: KeyMods::Plain }) => sat_sub(
            pre.offset as int,
            1,
        ),
        Event::Keys_gg => 1int,
        Event::Key(KeyEvent { code: KeyCode::Char('G'), modifiers: KeyMods::Shift }) => pre.items@.len() as int,
        _ => pre.offset as int,
    };
    post.items == pre.items && post.offset == min2(raw, pre.items@.len() as int)
}

impl LogList {
    pub fn new() -> (r: LogList)
        ensures
            r.items@.len() == 0,
            r.offset == 0,
    {
        LogList { items: Vec::new(), offset: 0 }
    }

    /// Appends a record, scrolling along when the view rests at the end.
    pub fn push(&mut self, log_item: LogRecord)
        requires
            old(self).items@.len() < usize::MAX,
        ensures
            final (self).items@ == old(self).items@.push(log_item),
            final (self).offset == if old(self).offset == old(self).items@.len() {
                old(self).offset + 1
            } else {
                old(self).offset as int
            },
    {
        if self.offset == self.items.len() {
            self.offset = self.offset + 1;
        }
        self.items.push(log_item);
    }

    /// Reacts to one event.
    pub fn on_event(&mut self, event: Event)
        ensures
            log_list_steps(*old(self), *final (self), event),
    {
        match event {
            Event::Key(KeyEvent { code: KeyCode::Char('j'), modifiers: KeyMods::Plain }) => {
                self.offset = self.offset.saturating_add(1);
            },
            Event::Key(KeyEvent { code: KeyCode::Char('k'), modifiers: KeyMods::Plain }) => {
                self.offset = if self.offset >= 1 {
                    self.offset - 1
                } else {
                    0
                };
            },
            Event::Keys_gg => {
                self.offset = 1;
            },
            Event::Key(KeyEvent { code: KeyCode::Char('G'), modifiers: KeyMods::Shift }) => {
                self.offset = self.items.len();
            },
            _ => {},
        }
        let n = self.items.len();
        if self.offset > n {
            self.offset = n;
        }
    }
}

/// How many display rows each line of a block takes at a wrap width: the
/// line's width in columns divided by the wrap width, rounded up, or a single
/// row when wrapping is off.
pub fn get_row_heights(text: &StyledBlock, wrap: usize, is_wrap: bool) -> (r: Vec<usize>)
    requires
        wrap >= 1,
        forall|i: int| 0 <= i < text@.len() ==> cells_width(#[trigger] text@[i]) <= usize::MAX,
    ensures
        r@.len() == text@.len(),
        forall|i: int|
            0 <= i < r@.len() ==> #[trigger] r@[i] == if is_wrap {
                cells_width(text@[i]) as int / wrap as int + (if cells_width(text@[i]) as int % wrap as int > 0 {
                    1int
                } else {
                    0int
                })
            } else {
                1int
            },
{
    let mut r: Vec<usize> = Vec::new();
    let mut i: usize = 0;
    while i < text.lines.len()
        invariant
            wrap >= 1,
            i <= text@.len(),
            text@.len() == text.lines@.len(),
            forall|j: int| 0 <= j < text@.len() ==> cells_width(#[trigger] text@[j]) <= usize::MAX,
            r@.len() == i,
            forall|j: int|
                0 <= j < i ==> #[trigger] r@[j] == if is_wrap {
                    cells_width(text@[j]) as int / wrap as int + (if cells_width(text@[j]) as int % wrap as int
                        > 0 {
                        1int
                    } else {
                        0int
                    })
                } else {
                    1int
                },
        decreases text@.len() - i,
    {
        if is_wrap {
            proof {
                assert(text@[i as int] == text.lines@[i as int]@);
            }
            let w = text.lines[i].display_width();
            let q = w / wrap;
            let rem = w % wrap;
            proof {
                if rem > 0 {
                    assert(q * wrap + rem == w) by (nonlinear_arith)
                        requires
                            q == w as int / wrap as int,
                            rem == w as int % wrap as int,
                            wrap >= 1,
                    ;
                    assert(q < w) by (nonlinear_arith)
                        requires
                            q * wrap + rem == w,
                            rem > 0,
                            wrap >= 1,
                            q >= 0,
                    ;
                }
            }
            let h = if rem > 0 {
                q + 1
            } else {
                q
            };
            r.push(h);
        } else {
            r.push(1);
        }
        i += 1;
    }
    r
}

} // verus!
