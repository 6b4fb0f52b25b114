use vstd::prelude::*;

use crate::listview::sat_sub;
use crate::rect::{spec_hit, Contain, Rect};

verus! {

/// Severity of a log line.
#[derive(Debug, Clone, Copy, PartialEq, Eq, Structural)]
pub enum Level {
    Trace,
    Debug,
    Info,
    Warn,
    Error,
}

/// One line of the log scrollback.
#[derive(Debug, Clone)]
pub struct LogRecord {
    pub level: Level,
    pub target: String,
    pub timestamp: String,
    pub msg: String,
}

/// The keys the interface reacts to.
#[derive(Debug, Clone, Copy, PartialEq, Eq, Structural)]
pub enum KeyCode {
    Char(char),
    Up,
    Down,
    Left,
    Right,
    Enter,
    Esc,
    Backspace,
    Tab,
}

/// Which modifier was held with a key, where it matters.
#[derive(Debug, Clone, Copy, PartialEq, Eq, Structural)]
pub enum KeyMods {
    Plain,
    Shift,
    Control,
    Other,
}

/// A key press.
#[derive(Debug, Clone, Copy, PartialEq, Eq, Structural)]
pub struct KeyEvent {
    pub code: KeyCode,
    pub modifiers: KeyMods,
}

/// The mouse gestures the interface reacts to.
#[derive(Debug, Clone, Copy, PartialEq, Eq, Structural)]
pub enum MouseKind {
    DownLeft,
    UpLeft,
    DragLeft,
    Moved,
    ScrollUp,
    ScrollDown,
    OtherKind,
}

/// A mouse event at a screen cell.
#[derive(Debug, Clone, Copy, PartialEq, Eq, Structural)]
pub struct MouseEvent {
    pub kind: MouseKind,
    pub column: u16,
    pub row: u16,
}

/// Everything the interface is driven by: raw input, activity, and the
/// synthesized commands the dispatcher derives from them.
#[allow(non_camel_case_types)]
#[derive(Debug, Clone)]
pub enum Event {
    Key(KeyEvent),
    Mouse(MouseEvent),
    Log(LogRecord),
    Tick,
    Click(u16, u16),
    ScrollUp,
    ScrollDown,
    ExitConfirm,
    Keys_G,
    Keys_gg,
    Search(String),
}

/// What the dispatcher is waiting for after a prefix gesture: further leader
/// keys, search input, a click's release, or the second `g`.
#[derive(Debug, Clone)]
pub enum Wait {
    WaitLeader(Vec<char>),
    WaitSearch(Vec<char>),
    WaitClick(u16, u16),
    WaitClickEdge(u16, u16),
    WaitG,
}

/// The four fixed panels of the screen.
#[derive(Debug, Clone, Copy, PartialEq, Eq, Structural)]
pub enum Uid {
    Local,
    Remote,
    Info,
    Status,
}

/// Whether the program is running normally, showing a popup, or done.
#[derive(Debug, Clone, Copy, PartialEq, Eq, Structural)]
pub enum Status {
    Exit,
    Popup,
    Normal,
}

impl Uid {
    /// The panel's frame title.
    pub fn title(&self) -> (r: &'static str)
        ensures
            self == Uid::Local ==> r@ == "Local"@,
            self == Uid::Remote ==> r@ == "Remote"@,
            self == Uid::Info ==> r@ == "Info"@,
            self == Uid::Status ==> r@ == "Status"@,
    {
        match self {
            Uid::Local => "Local",
            Uid::Remote => "Remote",
            Uid::Info => "Info",
            Uid::Status => "Status",
        }
    }
}

/// The log scrollback panel: the records, the first visible one, and the
/// region it was last drawn in.
#[derive(Debug)]
pub struct LogPanel {
    pub logs: Vec<LogRecord>,
    pub offset: usize,
    pub rect: Rect,
}

/// How the log panel reacts to an event: new records append (scrolling along
/// when the view hangs at the bottom edge), scrolling moves the first visible
/// record, and control-l jumps to the end.
pub open spec fn log_panel_steps(pre: LogPanel, post: LogPanel, e: Event) -> bool {
    match e {
        Event::Log(record) => {
            &&& post.logs@ == pre.logs@.push(record)
            &&& post.offset == if pre.rect.height > 3 && pre.offset + pre.rect.height == pre.logs@.len() + 1 {
                pre.offset + 1
            } else {
                pre.offset as int
            }
            &&& post.rect == pre.rect
        },
        Event::ScrollDown => post == LogPanel {
            offset: min2u(pre.offset + 1, sat_sub(pre.logs@.len() as int, 1)) as usize,
            ..pre
        },
        Event::ScrollUp => post == LogPanel { offset: sat_sub(pre.offset as int, 1) as usize, ..pre },
        Event::Key(KeyEvent { code: KeyCode::Up, modifiers: KeyMods::Plain }) => post == LogPanel {
            offset: sat_sub(pre.offset as int, 1) as usize,
            ..pre
        },
        Event::Key(KeyEvent { code: KeyCode::Char('k'), modifiers: KeyMods::Plain }) => post
            == LogPanel { offset: sat_sub(pre.offset as int, 1) as usize, ..pre },
        Event::Key(KeyEvent { code: KeyCode::Down, modifiers: KeyMods::Plain }) => post == LogPanel {
            offset: min2u(pre.offset + 1, sat_sub(pre.logs@.len() as int, 1)) as usize,
            ..pre
        },
        Event::Key(KeyEvent { code: KeyCode::Char('j'), modifiers: KeyMods::Plain }) => post
            == LogPanel {
            offset: min2u(pre.offset + 1, sat_sub(pre.logs@.len() as int, 1)) as usize,
            ..pre
        },
        Event::Key(KeyEvent { code: KeyCode::Char('l'), modifiers: KeyMods::Control }) => post
            == LogPanel { offset: sat_sub(pre.logs@.len() as int, 1) as usize, ..pre },
        _ => post == pre,
    }
}

/// The smaller of two numbers, the first possibly one past `usize`.
pub open spec fn min2u(a: int, b: int) -> int {
    if a <= b {
        a
    } else {
        b
    }
}

impl LogPanel {
    pub fn new() -> (r: Self)
        ensures
            r.logs@.len() == 0,
            r.offset == 0,
            r.rect == (Rect { x: 0, y: 0, width: 0, height: 0 }),
    {
        LogPanel { logs: Vec::new(), offset: 0, rect: Rect { x: 0, y: 0, width: 0, height: 0 } }
    }

    /// Adopts the region the panel is drawn in.
    pub fn suit(&mut self, rect: Rect)
        ensures
            *final(self) == (LogPanel { rect, ..*old(self) }),
    {
        self.rect = rect;
    }

    /// Reacts to one event.
    pub fn on_event(&mut self, event: Event)
        ensures
            log_panel_steps(*old(self), *final(self), event),
    {
        match event {
            Event::Log(record) => {
                if self.rect.height > 3 && self.rect.height as usize - 1 <= self.logs.len()
                    && self.offset == self.logs.len() - (self.rect.height as usize - 1) {
                    self.offset = self.offset + 1;
                }
                self.logs.push(record);
            },
            Event::ScrollDown => {
                self.scroll_down_step();
            },
            Event::ScrollUp => {
                self.offset = if self.offset >= 1 {
                    self.offset - 1
                } else {
                    0
                };
            },
            Event::Key(KeyEvent { code: KeyCode::Up, modifiers: KeyMods::Plain })
            | Event::Key(KeyEvent { code: KeyCode::Char('k'), modifiers: KeyMods::Plain }) => {
                self.offset = if self.offset >= 1 {
                    self.offset - 1
                } else {
                    0
                };
            },
            Event::Key(KeyEvent { code: KeyCode::Down, modifiers: KeyMods::Plain })
            | Event::Key(KeyEvent { code: KeyCode::Char('j'), modifiers: KeyMods::Plain }) => {
                self.scroll_down_step();
            },
            Event::Key(KeyEvent { code: KeyCode::Char('l'), modifiers: KeyMods::Control }) => {
                self.offset = if self.logs.len() >= 1 {
                    self.logs.len() - 1
                } else {
                    0
                };
            },
            _ => {},
        }
    }

    fn scroll_down_step(&mut self)
        ensures
            *final(self) == (LogPanel {
                offset: min2u(old(self).offset + 1, sat_sub(old(self).logs@.len() as int, 1)) as usize,
                ..*old(self)
            }),
    {
        let cap = if self.logs.len() >= 1 {
            self.logs.len() - 1
        } else {
            0
        };
        let bumped = self.offset.saturating_add(1);
        self.offset = if bumped <= cap {
            bumped
        } else {
            cap
        };
        proof {
            assert(min2u(old(self).offset + 1, sat_sub(old(self).logs@.len() as int, 1))
                == self.offset as int);
        }
    }
}

/// The info panel's tab strip, in order.
pub open spec fn spec_tab_titles() -> Seq<Seq<char>> {
    seq!["LOG"@, "Queue"@, "Ok"@, "Err"@]
}

/// Which tab a click at `column` lands on, walking the tab strip from `left`:
/// each tab takes its title's width plus two, with one column between tabs;
/// edges count as hits on either side.
pub open spec fn spec_tab_hit(left: int, column: int, widths: Seq<int>, idx: int) -> Option<int>
    decreases widths.len(),
{
    if widths.len() == 0 {
        None
    } else {
        let w = widths.first() + 2;
        let right = if left + w <= u16::MAX {
            left + w
        } else {
            u16::MAX as int
        };
        if left <= column <= right {
            Some(idx)
        } else {
            let next_left = if left + w + 1 <= u16::MAX {
                left + w + 1
            } else {
                u16::MAX as int
            };
            spec_tab_hit(next_left, column, widths.drop_first(), idx + 1)
        }
    }
}

/// The widths of the tab titles, in characters.
pub open spec fn spec_title_widths() -> Seq<int> {
    spec_tab_titles().map_values(|t: Seq<char>| t.len() as int)
}

/// The activity panel: a tab strip over the log scrollback and the queues.
#[derive(Debug)]
pub struct InfoPanel {
    pub p_logs: LogPanel,
    pub tab: usize,
    pub rect: Rect,
}

/// How the info panel reacts to an event: log records always reach the
/// scrollback; a click on the tab row switches tabs; left and right (or h and
/// l) step through the tabs; anything else goes to the log scrollback while
/// its tab shows.
pub open spec fn info_panel_steps(pre: InfoPanel, post: InfoPanel, e: Event) -> bool {
    match e {
        Event::Log(_) => post.tab == pre.tab && post.rect == pre.rect && log_panel_steps(
            pre.p_logs,
            post.p_logs,
            e,
        ),
        Event::Click(column, row) => post == InfoPanel {
            tab: if row == pre.rect.y {
                match spec_tab_hit(pre.rect.x as int, column as int, spec_title_widths(), 0) {
                    Some(i) => i as usize,
                    None => pre.tab,
                }
            } else {
                pre.tab as usize
            },
            ..pre
        },
        Event::Key(KeyEvent { code: KeyCode::Right, modifiers: KeyMods::Plain }) => post
            == InfoPanel { tab: min2u(pre.tab + 1, 3) as usize, ..pre },
        Event::Key(KeyEvent { code: KeyCode::Char('l'), modifiers: KeyMods::Plain }) => post
            == InfoPanel { tab: min2u(pre.tab + 1, 3) as usize, ..pre },
        Event::Key(KeyEvent { code: KeyCode::Left, modifiers: KeyMods::Plain }) => post
            == InfoPanel { tab: min2u(sat_sub(pre.tab as int, 1), 3) as usize, ..pre },
        Event::Key(KeyEvent { code: KeyCode::Char('h'), modifiers: KeyMods::Plain }) => post
            == InfoPanel { tab: min2u(sat_sub(pre.tab as int, 1), 3) as usize, ..pre },
        _ => {
            if pre.tab == 0 || pre.tab >= 4 {
                post.tab == pre.tab && post.rect == pre.rect && log_panel_steps(
                    pre.p_logs,
                    post.p_logs,
                    e,
                )
            } else {
                post == pre
            }
        },
    }
}

impl InfoPanel {
    pub fn new() -> (r: Self)
        ensures
            r.p_logs.logs@.len() == 0,
            r.p_logs.offset == 0,
            r.tab == 0,
            r.rect == (Rect { x: 0, y: 0, width: 0, height: 0 }),
    {
        InfoPanel {
            p_logs: LogPanel::new(),
            tab: 0,
            rect: Rect { x: 0, y: 0, width: 0, height: 0 },
        }
    }

    /// Adopts the region the panel is drawn in.
    pub fn suit(&mut self, rect: Rect)
        ensures
            *final(self) == (InfoPanel { rect, ..*old(self) }),
    {
        self.rect = rect;
    }

    /// Reacts to one event.
    pub fn on_event(&mut self, event: Event)
        ensures
            info_panel_steps(*old(self), *final(self), event),
    {
        match event {
            Event::Log(_) => {
                self.p_logs.on_event(event);
            },
            Event::Click(column, row) => {
                if row == self.rect.y {
                    if let Some(idx) = tab_hit(self.rect.x, column) {
                        self.tab = idx;
                    }
                }
            },
            Event::Key(KeyEvent { code: KeyCode::Right, modifiers: KeyMods::Plain })
            | Event::Key(KeyEvent { code: KeyCode::Char('l'), modifiers: KeyMods::Plain }) => {
                let bumped = self.tab.saturating_add(1);
                self.tab = if bumped <= 3 {
                    bumped
                } else {
                    3
                };
            },
            Event::Key(KeyEvent { code: KeyCode::Left, modifiers: KeyMods::Plain })
            | Event::Key(KeyEvent { code: KeyCode::Char('h'), modifiers: KeyMods::Plain }) => {
                let lowered = if self.tab >= 1 {
                    self.tab - 1
                } else {
                    0
                };
                self.tab = if lowered <= 3 {
                    lowered
                } else {
                    3
                };
            },
            _ => {
                if self.tab == 0 || self.tab >= 4 {
                    self.p_logs.on_event(event);
                }
            },
        }
    }
}

/// Finds the tab under `column`, walking the tab strip from `x`.
fn tab_hit(x: u16, column: u16) -> (r: Option<usize>)
    ensures
        match r {
            Some(i) => Some(i as int) == spec_tab_hit(x as int, column as int, spec_title_widths(), 0),
            None => spec_tab_hit(x as int, column as int, spec_title_widths(), 0) is None,
        },
{
    let mut left: u16 = x;
    let mut idx: usize = 0;
    proof {
        assert(spec_title_widths() =~= seq![
            "LOG"@.len() as int,
            "Queue"@.len() as int,
            "Ok"@.len() as int,
            "Err"@.len() as int,
        ]);
        assert(spec_title_widths().skip(0) =~= spec_title_widths());
    }
    while idx < 4
        invariant
            idx <= 4,
            spec_tab_hit(x as int, column as int, spec_title_widths(), 0) == spec_tab_hit(
                left as int,
                column as int,
                spec_title_widths().skip(idx as int),
                idx as int,
            ),
            spec_title_widths() == seq![
                "LOG"@.len() as int,
                "Queue"@.len() as int,
                "Ok"@.len() as int,
                "Err"@.len() as int,
            ],
        decreases 4 - idx,
    {
        let title: &'static str = if idx == 0 {
            "LOG"
        } else if idx == 1 {
            "Queue"
        } else if idx == 2 {
            "Ok"
        } else {
            "Err"
        };
        proof {
            reveal_strlit("LOG");
            reveal_strlit("Queue");
            reveal_strlit("Ok");
            reveal_strlit("Err");
            assert(spec_title_widths().skip(idx as int).first() == spec_title_widths()[idx as int]);
            assert(spec_title_widths()[idx as int] == title@.len() as int);
            assert(spec_title_widths().skip(idx as int).drop_first() =~= spec_title_widths().skip(
                idx + 1,
            ));
        }
        let tw = title.unicode_len();
        proof {
            assert(tw <= 5);
        }
        let width: u16 = (tw as u16).saturating_add(2);
        let right: u16 = left.saturating_add(width);
        if left <= column && column <= right {
            return Some(idx);
        }
        left = left.saturating_add(width).saturating_add(1);
        idx += 1;
    }
    None
}

/// The one-line help bar at the bottom of the screen.
pub struct StatusPanel {}

impl StatusPanel {
    pub fn new() -> (r: Self) {
        StatusPanel {  }
    }
}

/// A yes-or-no dialog: a message, the highlighted button, and the event each
/// outcome hands back (confirm, decline, dismiss).
#[derive(Debug)]
pub struct YesOrNo {
    pub title: Option<String>,
    pub msg: String,
    pub exit: bool,
    pub state: usize,
    pub rtn: Vec<Option<Event>>,
    pub r_ok: Rect,
    pub r_no: Rect,
    pub r_wd: Rect,
}

/// How the dialog reacts to an event: Escape dismisses, Enter confirms the
/// highlighted button, arrows and h/l/Tab move the highlight, and a click
/// picks the button under it (or dismisses, outside the dialog).
pub open spec fn yes_or_no_steps(pre: YesOrNo, post: YesOrNo, e: Event) -> bool {
    match e {
        Event::Key(KeyEvent { code: KeyCode::Esc, .. }) => post == YesOrNo {
            state: 2usize,
            exit: true,
            ..pre
        },
        Event::Key(KeyEvent { code: KeyCode::Enter, .. }) => post == YesOrNo { exit: true, ..pre },
        Event::Key(KeyEvent { code: KeyCode::Right, .. }) => post == YesOrNo {
            state: min2u(pre.state + 1, 1) as usize,
            ..pre
        },
        Event::Key(KeyEvent { code: KeyCode::Char('l'), .. }) => post == YesOrNo {
            state: min2u(pre.state + 1, 1) as usize,
            ..pre
        },
        Event::Key(KeyEvent { code: KeyCode::Left, .. }) => post == YesOrNo {
            state: sat_sub(pre.state as int, 1) as usize,
            ..pre
        },
        Event::Key(KeyEvent { code: KeyCode::Char('h'), .. }) => post == YesOrNo {
            state: sat_sub(pre.state as int, 1) as usize,
            ..pre
        },
        Event::Key(KeyEvent { code: KeyCode::Tab, .. }) => post == YesOrNo {
            state: if pre.state + 1 > 1 {
                0int
            } else {
                pre.state + 1
            } as usize,
            ..pre
        },
        Event::Click(column, row) => {
            if spec_hit(pre.r_ok, column, row) {
                post == YesOrNo { state: 0usize, exit: true, ..pre }
            } else if spec_hit(pre.r_no, column, row) {
                post == YesOrNo { state: 1usize, exit: true, ..pre }
            } else if !spec_hit(pre.r_wd, column, row) {
                post == YesOrNo { state: 2usize, exit: true, ..pre }
            } else {
                post == pre
            }
        },
        _ => post == pre,
    }
}

/// The event a finished dialog hands back: what `rtn` holds for the
/// highlighted button.
pub open spec fn spec_yon_emit(s: YesOrNo) -> Option<Event> {
    let i = min2u(s.state as int, 2);
    if i < s.rtn@.len() {
        s.rtn@[i]
    } else {
        None
    }
}

impl YesOrNo {
    fn new(title: Option<String>, msg: String, rtn: Vec<Option<Event>>) -> (r: YesOrNo)
        ensures
            r == (YesOrNo {
                title,
                msg,
                exit: false,
                state: 0usize,
                rtn,
                r_ok: Rect { x: 0, y: 0, width: 0, height: 0 },
                r_no: Rect { x: 0, y: 0, width: 0, height: 0 },
                r_wd: Rect { x: 0, y: 0, width: 0, height: 0 },
            }),
    {
        YesOrNo {
            title,
            msg,
            exit: false,
            state: 0,
            rtn,
            r_ok: Rect { x: 0, y: 0, width: 0, height: 0 },
            r_no: Rect { x: 0, y: 0, width: 0, height: 0 },
            r_wd: Rect { x: 0, y: 0, width: 0, height: 0 },
        }
    }

    /// Where the dialog wants to sit within `rect`: a window of at most
    /// sixty columns by ten rows, centred.
    pub fn suit_in(&self, rect: Rect) -> (r: Rect)
        ensures
            r == crate::rect::spec_inner(
                rect,
                sat_sub(rect.width as int, 60) / 2,
                sat_sub(rect.height as int, 10) / 2,
            ),
    {
        let vm = rect.height.saturating_sub(10) / 2;
        let hm = rect.width.saturating_sub(60) / 2;
        crate::rect::rect_inner(rect, hm, vm)
    }

    /// Adopts the regions the dialog and its buttons were drawn in, for click
    /// routing.
    pub fn set_regions(&mut self, r_wd: Rect, r_ok: Rect, r_no: Rect)
        ensures
            *final (self) == (YesOrNo { r_wd, r_ok, r_no, ..*old(self) }),
    {
        self.r_wd = r_wd;
        self.r_ok = r_ok;
        self.r_no = r_no;
    }

    /// The event of the highlighted button.
    pub fn emit(self) -> (r: Option<Event>)
        ensures
            r == spec_yon_emit(self),
    {
        let i = if self.state <= 2 {
            self.state
        } else {
            2
        };
        let mut rtn = self.rtn;
        if i < rtn.len() {
            rtn.swap_remove(i)
        } else {
            None
        }
    }

    /// Whether the dialog is finished.
    pub fn exit(&self) -> (r: bool)
        ensures
            r == self.exit,
    {
        self.exit
    }

    /// Reacts to one event.
    pub fn on_event(&mut self, event: Event)
        ensures
            yes_or_no_steps(*old(self), *final (self), event),
    {
        match event {
            Event::Key(KeyEvent { code: KeyCode::Esc, .. }) => {
                self.state = 2;
                self.exit = true;
            },
            Event::Key(KeyEvent { code: KeyCode::Enter, .. }) => {
                self.exit = true;
            },
            Event::Key(KeyEvent { code: KeyCode::Right, .. })
            | Event::Key(KeyEvent { code: KeyCode::Char('l'), .. }) => {
                let bumped = self.state.saturating_add(1);
                self.state = if bumped <= 1 {
                    bumped
                } else {
                    1
                };
            },
            Event::Key(KeyEvent { code: KeyCode::Left, .. })
            | Event::Key(KeyEvent { code: KeyCode::Char('h'), .. }) => {
                self.state = if self.state >= 1 {
                    self.state - 1
                } else {
                    0
                };
            },
            Event::Key(KeyEvent { code: KeyCode::Tab, .. }) => {
                let bumped = self.state.saturating_add(1);
                self.state = if bumped > 1 {
                    0
                } else {
                    bumped
                };
            },
            Event::Click(column, row) => {
                if self.r_ok.contain(column, row) {
                    self.state = 0;
                    self.exit = true;
                } else if self.r_no.contain(column, row) {
                    self.state = 1;
                    self.exit = true;
                } else if !self.r_wd.contain(column, row) {
                    self.state = 2;
                    self.exit = true;
                }
            },
            _ => {},
        }
    }
}

/// The help popup: a key-binding table in a frame.
#[derive(Debug)]
pub struct HelpPanel {
    pub exit: bool,
    pub rect: Rect,
}

/// How the help popup reacts: Escape, or a click outside it, closes it.
pub open spec fn help_steps(pre: HelpPanel, post: HelpPanel, e: Event) -> bool {
    match e {
        Event::Key(KeyEvent { code: KeyCode::Esc, .. }) => post == HelpPanel { exit: true, ..pre },
        Event::Click(column, row) => {
            if !spec_hit(pre.rect, column, row) {
                post == HelpPanel { exit: true, ..pre }
            } else {
                post == pre
            }
        },
        _ => post == pre,
    }
}

impl HelpPanel {
    pub fn new() -> (r: HelpPanel)
        ensures
            r == (HelpPanel { exit: false, rect: Rect { x: 0, y: 0, width: 0, height: 0 } }),
    {
        HelpPanel { exit: false, rect: Rect { x: 0, y: 0, width: 0, height: 0 } }
    }

    /// Adopts the region the popup is drawn in.
    pub fn suit(&mut self, rect: Rect)
        ensures
            *final (self) == (HelpPanel { rect, ..*old(self) }),
    {
        self.rect = rect;
    }

    /// Where the popup wants to sit within `rect`: a third of the width by
    /// five sixths of the height, centred, at least three cells in from every
    /// edge.
    pub fn suit_in(&self, rect: Rect) -> (r: Rect)
        ensures
            r == crate::rect::spec_inner(
                rect,
                ({
                    let hm = sat_sub(rect.width as int, rect.width as int / 3) / 2;
                    if hm >= 3 {
                        hm
                    } else {
                        3
                    }
                }),
                ({
                    let vm = sat_sub(rect.height as int, rect.height as int * 5 / 6) / 2;
                    if vm >= 3 {
                        vm
                    } else {
                        3
                    }
                }),
            ),
    {
        let width = rect.width / 3;
        let height = (((rect.height as u32) * 5 / 6) as u16);
        let hm0 = rect.width.saturating_sub(width) / 2;
        let vm0 = rect.height.saturating_sub(height) / 2;
        let hm = if hm0 >= 3 {
            hm0
        } else {
            3
        };
        let vm = if vm0 >= 3 {
            vm0
        } else {
            3
        };
        crate::rect::rect_inner(rect, hm, vm)
    }

    /// Whether the popup is finished.
    pub fn exit(&self) -> (r: bool)
        ensures
            r == self.exit,
    {
        self.exit
    }

    /// Reacts to one event.
    pub fn on_event(&mut self, event: Event)
        ensures
            help_steps(*old(self), *final (self), event),
    {
        match event {
            Event::Key(KeyEvent { code: KeyCode::Esc, .. }) => {
                self.exit = true;
            },
            Event::Click(column, row) => {
                if !self.rect.contain(column, row) {
                    self.exit = true;
                }
            },
            _ => {},
        }
    }
}

/// A free-text input popup; a placeholder with no behaviour yet.
#[derive(Debug)]
pub struct InputPanel {}

/// The popup on show, if any: each kind carries its own state.
#[derive(Debug)]
pub enum PopupPanel {
    Exit(YesOrNo),
    Help(HelpPanel),
    Input(InputPanel),
}

/// How a popup reacts to an event: its own kind's rules; the input popup has
/// no behaviour yet.
pub open spec fn popup_steps(pre: PopupPanel, post: PopupPanel, e: Event) -> bool {
    match (pre, post) {
        (PopupPanel::Exit(a), PopupPanel::Exit(b)) => yes_or_no_steps(a, b, e),
        (PopupPanel::Help(a), PopupPanel::Help(b)) => help_steps(a, b, e),
        (PopupPanel::Input(_), PopupPanel::Input(_)) => true,
        _ => false,
    }
}

/// Whether a finished popup hands an event back, and which.
pub open spec fn spec_popup_emit(p: PopupPanel) -> Option<Event> {
    match p {
        PopupPanel::Exit(y) => spec_yon_emit(y),
        PopupPanel::Help(_) => None,
        PopupPanel::Input(_) => None,
    }
}

/// Whether a popup is finished.
pub open spec fn spec_popup_exit(p: PopupPanel) -> bool {
    match p {
        PopupPanel::Exit(y) => y.exit,
        PopupPanel::Help(h) => h.exit,
        PopupPanel::Input(_) => false,
    }
}

impl PopupPanel {
    /// The exit-confirmation dialog: Ok hands back the exit confirmation, No
    /// and dismissal hand back nothing.
    pub fn new_exit() -> (r: PopupPanel)
        ensures
            match r {
                PopupPanel::Exit(y) => {
                    &&& y.title is None
                    &&& y.msg@ == "exit filez?"@
                    &&& y.exit == false
                    &&& y.state == 0
                    &&& y.rtn@.len() == 3
                    &&& y.rtn@[0] matches Some(Event::ExitConfirm)
                    &&& y.rtn@[1] is None
                    &&& y.rtn@[2] is None
                },
                _ => false,
            },
    {
        let mut rtn: Vec<Option<Event>> = Vec::new();
        rtn.push(Some(Event::ExitConfirm));
        rtn.push(None);
        rtn.push(None);
        PopupPanel::Exit(YesOrNo::new(None, "exit filez?".to_owned(), rtn))
    }

    /// The help popup.
    pub fn new_help() -> (r: PopupPanel)
        ensures
            r matches PopupPanel::Help(h) && h == (HelpPanel {
                exit: false,
                rect: Rect { x: 0, y: 0, width: 0, height: 0 },
            }),
    {
        PopupPanel::Help(HelpPanel::new())
    }

    /// Where the popup wants to sit within `rect`.
    pub fn suit_in(&self, rect: Rect) -> (r: Rect)
        ensures
            match self {
                PopupPanel::Exit(y) => r == crate::rect::spec_inner(
                    rect,
                    sat_sub(rect.width as int, 60) / 2,
                    sat_sub(rect.height as int, 10) / 2,
                ),
                PopupPanel::Help(_) => true,
                PopupPanel::Input(_) => r == rect,
            },
    {
        match self {
            PopupPanel::Exit(y) => y.suit_in(rect),
            PopupPanel::Help(h) => h.suit_in(rect),
            PopupPanel::Input(_) => rect,
        }
    }

    /// Reacts to one event.
    pub fn on_event(&mut self, event: Event)
        ensures
            popup_steps(*old(self), *final (self), event),
    {
        match self {
            PopupPanel::Exit(y) => y.on_event(event),
            PopupPanel::Help(h) => h.on_event(event),
            PopupPanel::Input(_) => {},
        }
    }

    /// The event a finished popup hands back.
    pub fn emit(self) -> (r: Option<Event>)
        ensures
            r == spec_popup_emit(self),
    {
        match self {
            PopupPanel::Exit(y) => y.emit(),
            PopupPanel::Help(_) => None,
            PopupPanel::Input(_) => None,
        }
    }

    /// Whether the popup is finished.
    pub fn exit(&self) -> (r: bool)
        ensures
            r == spec_popup_exit(*self),
    {
        match self {
            PopupPanel::Exit(y) => y.exit(),
            PopupPanel::Help(h) => h.exit(),
            PopupPanel::Input(_) => false,
        }
    }
}

} // verus!
