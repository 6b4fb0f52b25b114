use vstd::prelude::*;

use crate::rect::Rect;

verus! {

/// `a - b`, floored at zero.
pub open spec fn sat_sub(a: int, b: int) -> int {
    if a >= b {
        a - b
    } else {
        0
    }
}

/// The smaller of two numbers.
pub open spec fn min2(a: int, b: int) -> int {
    if a <= b {
        a
    } else {
        b
    }
}

/// A scrollable list of rows with a cursor: `offset` is the index of the
/// first visible row, `select` the cursor's position within the visible rows,
/// and `rect` the region the list was last laid out in.
#[derive(Debug)]
pub struct ListView<T> {
    pub rows: Vec<T>,
    pub offset: usize,
    pub select: usize,
    pub rect: Rect,
}

/// How many rows are visible: the window height, or what is left of the list
/// below the scroll offset if that is less.
pub open spec fn spec_select_left<T>(s: ListView<T>) -> int {
    min2(s.rect.height as int, sat_sub(s.rows@.len() as int, s.offset as int))
}

/// Clamps the scroll offset to the last row.
pub open spec fn spec_adjust_scroll<T>(s: ListView<T>) -> ListView<T> {
    ListView {
        offset: min2(s.offset as int, sat_sub(s.rows@.len() as int, 1)) as usize,
        ..s
    }
}

/// Clamps the cursor to the last selectable visible row.
pub open spec fn spec_adjust_select<T>(s: ListView<T>) -> ListView<T> {
    let row_selectable = min2(sat_sub(s.rows@.len() as int, s.offset as int), s.rect.height as int);
    ListView { select: min2(s.select as int, sat_sub(row_selectable, 1)) as usize, ..s }
}

/// Clamps offset, then cursor.
pub open spec fn spec_adjust<T>(s: ListView<T>) -> ListView<T> {
    spec_adjust_select(spec_adjust_scroll(s))
}

/// One scroll step up: the offset falls by one (floored at zero), then the
/// view is clamped.
pub open spec fn spec_scroll_up<T>(s: ListView<T>) -> ListView<T> {
    spec_adjust(ListView { offset: sat_sub(s.offset as int, 1) as usize, ..s })
}

/// One scroll step down: the offset grows by one (saturating), then the view
/// is clamped.
pub open spec fn spec_scroll_down<T>(s: ListView<T>) -> ListView<T> {
    let bumped = if s.offset == usize::MAX {
        s.offset as int
    } else {
        s.offset + 1
    };
    spec_adjust(ListView { offset: bumped as usize, ..s })
}

/// `n` scroll steps up.
pub open spec fn spec_scroll_up_n<T>(s: ListView<T>, n: nat) -> ListView<T>
    decreases n,
{
    if n == 0 {
        s
    } else {
        spec_scroll_up_n(spec_scroll_up(s), (n - 1) as nat)
    }
}

/// `n` scroll steps down.
pub open spec fn spec_scroll_down_n<T>(s: ListView<T>, n: nat) -> ListView<T>
    decreases n,
{
    if n == 0 {
        s
    } else {
        spec_scroll_down_n(spec_scroll_down(s), (n - 1) as nat)
    }
}

/// Cursor up: the cursor moves up a row, or the view scrolls when the cursor
/// is already at the top.
pub open spec fn spec_select_up<T>(s: ListView<T>) -> ListView<T> {
    if s.select > 0 {
        ListView { select: (s.select - 1) as usize, ..s }
    } else {
        spec_scroll_up(s)
    }
}

/// Cursor down: the cursor moves down a row, or the view scrolls when the
/// cursor is already on the last visible row.
pub open spec fn spec_select_down<T>(s: ListView<T>) -> ListView<T> {
    if s.select + 1 == spec_select_left(s) {
        spec_scroll_down(s)
    } else {
        spec_adjust(
            ListView {
                select: if s.select == usize::MAX {
                    s.select as int
                } else {
                    s.select + 1
                } as usize,
                ..s
            },
        )
    }
}

/// Cursor to the row under screen row `y`, when a row is there.
pub open spec fn spec_select_click<T>(s: ListView<T>, y: u16) -> ListView<T> {
    if s.rect.y <= y <= s.rect.spec_bottom() && s.offset + sat_sub(y as int, s.rect.y as int)
        < s.rows@.len() {
        spec_adjust(ListView { select: sat_sub(y as int, s.rect.y as int) as usize, ..s })
    } else {
        s
    }
}

/// Jump to the bottom: the offset lands on the last full window, the cursor
/// on the last visible row.
pub open spec fn spec_go_bottom<T>(s: ListView<T>) -> ListView<T> {
    spec_adjust(
        ListView {
            offset: if s.offset < sat_sub(s.rows@.len() as int, s.rect.height as int) {
                sat_sub(s.rows@.len() as int, s.rect.height as int)
            } else {
                s.offset as int
            } as usize,
            select: sat_sub(s.rect.height as int, 1) as usize,
            ..s
        },
    )
}

/// The view is well formed: the scroll offset does not point past the rows.
/// Every operation below keeps it, and `view` relies on it.
pub open spec fn spec_list_wf<T>(s: ListView<T>) -> bool {
    s.offset <= s.rows@.len()
}

/// Clamping always leaves a well-formed view, whatever it started from.
pub proof fn lemma_adjust_wf<T>(s: ListView<T>)
    ensures
        spec_list_wf(spec_adjust(s)),
{
}

/// Every cursor and scroll operation keeps the view well formed.
pub proof fn lemma_ops_wf<T>(s: ListView<T>)
    requires
        spec_list_wf(s),
    ensures
        spec_list_wf(spec_select_up(s)),
        spec_list_wf(spec_select_down(s)),
        spec_list_wf(spec_scroll_up(s)),
        spec_list_wf(spec_scroll_down(s)),
        spec_list_wf(spec_go_bottom(s)),
        forall|y: u16| spec_list_wf(#[trigger] spec_select_click(s, y)),
{
}

/// Repeated scrolling keeps the view well formed.
pub proof fn lemma_scroll_n_wf<T>(s: ListView<T>, n: nat)
    requires
        spec_list_wf(s),
    ensures
        spec_list_wf(spec_scroll_up_n(s, n)),
        spec_list_wf(spec_scroll_down_n(s, n)),
    decreases n,
{
    if n > 0 {
        lemma_ops_wf(s);
        lemma_scroll_n_wf(spec_scroll_up(s), (n - 1) as nat);
        lemma_scroll_n_wf(spec_scroll_down(s), (n - 1) as nat);
    }
}

impl<T> ListView<T> {
    pub fn new() -> (r: Self)
        ensures
            r.rows@.len() == 0,
            r.offset == 0,
            r.select == 0,
            r.rect == (Rect { x: 0, y: 0, width: 0, height: 0 }),
    {
        Self { rows: Vec::new(), offset: 0, select: 0, rect: Rect { x: 0, y: 0, width: 0, height: 0 } }
    }

    /// How many rows are visible below the scroll offset.
    pub fn select_left(&self) -> (r: usize)
        ensures
            r == spec_select_left(*self),
    {
        let left = if self.rows.len() >= self.offset {
            self.rows.len() - self.offset
        } else {
            0
        };
        if (self.rect.height as usize) <= left {
            self.rect.height as usize
        } else {
            left
        }
    }

    /// The visible rows and the cursor position within them.
    pub fn view(&self) -> (r: (&[T], usize))
        requires
            self.offset <= self.rows@.len(),
        ensures
            r.0@ == self.rows@.subrange(
                self.offset as int,
                self.offset + spec_select_left(*self),
            ),
            r.1 == self.select,
    {
        let left = self.select_left();
        let n = self.rows.len();
        proof {
            assert(self.offset + left <= n);
        }
        let slice = &self.rows.as_slice()[self.offset..self.offset + left];
        (slice, self.select)
    }

    /// Adopts a new layout region and clamps the view to it.
    pub fn suit(&mut self, rect: Rect)
        ensures
            *final(self) == spec_adjust(ListView { rect, ..*old(self) }),
    {
        self.rect = rect;
        self.adjust();
    }

    /// Clamps the scroll offset and the cursor to the rows and the region.
    pub fn adjust(&mut self)
        ensures
            *final(self) == spec_adjust(*old(self)),
    {
        self.adjust_scroll();
        self.adjust_select();
    }

    fn adjust_scroll(&mut self)
        ensures
            *final(self) == spec_adjust_scroll(*old(self)),
    {
        let cap = if self.rows.len() >= 1 {
            self.rows.len() - 1
        } else {
            0
        };
        if self.offset > cap {
            self.offset = cap;
        }
    }

    fn adjust_select(&mut self)
        ensures
            *final(self) == spec_adjust_select(*old(self)),
    {
        let below = if self.rows.len() >= self.offset {
            self.rows.len() - self.offset
        } else {
            0
        };
        let row_selectable = if below <= (self.rect.height as usize) {
            below
        } else {
            self.rect.height as usize
        };
        let cap = if row_selectable >= 1 {
            row_selectable - 1
        } else {
            0
        };
        if self.select > cap {
            self.select = cap;
        }
    }

    /// Moves the cursor up one visible row, scrolling when it is already at
    /// the top.
    pub fn go_select_up(&mut self)
        ensures
            *final(self) == spec_select_up(*old(self)),
    {
        if self.select > 0 {
            self.select = self.select - 1;
        } else {
            self.go_scroll_up();
        }
    }

    /// Moves the cursor down one visible row, scrolling when it is already at
    /// the bottom.
    pub fn go_select_down(&mut self)
        ensures
            *final(self) == spec_select_down(*old(self)),
    {
        let left = self.select_left();
        if left > 0 && self.select == left - 1 {
            self.go_scroll_down();
        } else {
            self.select = self.select.saturating_add(1);
            self.adjust();
        }
    }

    /// Puts the cursor on the visible row at screen row `y`, when one is
    /// there.
    pub fn go_select(&mut self, click: (u16, u16))
        ensures
            *final(self) == spec_select_click(*old(self), click.1),
    {
        let y = click.1;
        if y >= self.rect.y && y <= self.rect.bottom() {
            let to_select = (y - self.rect.y) as usize;
            let n = self.rows.len();
            if to_select < n && self.offset < n - to_select {
                self.select = to_select;
                self.adjust();
            }
        }
    }

    /// Scrolls one row up.
    pub fn go_scroll_up(&mut self)
        ensures
            *final(self) == spec_scroll_up(*old(self)),
    {
        self.offset = if self.offset >= 1 {
            self.offset - 1
        } else {
            0
        };
        self.adjust();
    }

    /// Scrolls one row down.
    pub fn go_scroll_down(&mut self)
        ensures
            *final(self) == spec_scroll_down(*old(self)),
    {
        self.offset = self.offset.saturating_add(1);
        self.adjust();
    }

    /// Scrolls `scroll` rows: down when positive, up when negative.
    pub fn go_scroll(&mut self, scroll: isize)
        ensures
            scroll >= 0 ==> *final(self) == spec_scroll_down_n(*old(self), scroll as nat),
            scroll < 0 ==> *final(self) == spec_scroll_up_n(*old(self), (-(scroll as int)) as nat),
    {
        let ghost s0 = *self;
        if scroll >= 0 {
            let mut k = scroll;
            while k > 0
                invariant
                    0 <= k <= scroll,
                    spec_scroll_down_n(s0, scroll as nat) == spec_scroll_down_n(*self, k as nat),
                decreases k,
            {
                self.go_scroll_down();
                k = k - 1;
            }
        } else {
            let mut k = scroll;
            while k < 0
                invariant
                    scroll <= k <= 0,
                    spec_scroll_up_n(s0, (-(scroll as int)) as nat) == spec_scroll_up_n(
                        *self,
                        (-(k as int)) as nat,
                    ),
                decreases -k,
            {
                self.go_scroll_up();
                k = k + 1;
            }
        }
    }

    /// Jumps to the top of the list, cursor on the first row.
    pub fn go_top(&mut self)
        ensures
            *final(self) == (ListView { offset: 0, select: 0, ..*old(self) }),
    {
        self.offset = 0;
        self.select = 0;
    }

    /// Jumps to the bottom of the list, cursor on the last visible row.
    pub fn go_bottom(&mut self)
        ensures
            *final(self) == spec_go_bottom(*old(self)),
    {
        let bottom = if self.rows.len() >= (self.rect.height as usize) {
            self.rows.len() - (self.rect.height as usize)
        } else {
            0
        };
        if self.offset < bottom {
            self.offset = bottom;
        }
        self.select = if self.rect.height >= 1 {
            (self.rect.height - 1) as usize
        } else {
            0
        };
        self.adjust();
    }

    /// Scrolls half a window down.
    pub fn go_scroll_down_page(&mut self)
        ensures
            *final(self) == spec_scroll_down_n(*old(self), (old(self).rect.height / 2) as nat),
    {
        self.go_scroll((self.rect.height / 2) as isize);
    }

    /// Scrolls half a window up.
    pub fn go_scroll_up_page(&mut self)
        ensures
            *final(self) == spec_scroll_up_n(*old(self), (old(self).rect.height / 2) as nat),
    {
        let half = (self.rect.height / 2) as isize;
        self.go_scroll(-half);
    }
}

} // verus!
