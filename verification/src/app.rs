use vstd::prelude::*;

use crate::explorer::{explorer_steps, ExplorerPanel, Refresh};
use crate::listview::{sat_sub, spec_list_wf};
use crate::ui::{
    info_panel_steps, popup_steps, spec_popup_emit, spec_popup_exit, Event, InfoPanel, KeyCode,
    KeyEvent, KeyMods, MouseEvent, MouseKind, PopupPanel, Status, StatusPanel, Uid, Wait, YesOrNo,
};

verus! {

/// The whole program state outside the terminal: the four panels, the popup
/// on show, the dispatcher's mode, what it is waiting for and since when, the
/// last drawn layout edges, and the focused panel.
pub struct App {
    pub p_local: ExplorerPanel,
    pub p_remote: ExplorerPanel,
    pub p_info: InfoPanel,
    pub p_status: StatusPanel,
    pub p_popup: Option<PopupPanel>,
    pub status: Status,
    pub wait: Option<Wait>,
    pub wait_key: u64,
    pub layout: [u16; 5],
    pub focus: Option<Uid>,
}

/// The two file panes' lists are well formed.
pub open spec fn spec_app_wf(a: App) -> bool {
    spec_list_wf(a.p_local.list) && spec_list_wf(a.p_remote.list)
}

/// Focus one window to the left: from the remote pane to the local one;
/// nowhere and elsewhere land on the local pane; the info pane stays.
pub open spec fn spec_window_left(f: Option<Uid>) -> Option<Uid> {
    match f {
        Some(Uid::Remote) => Some(Uid::Local),
        Some(Uid::Info) => f,
        Some(Uid::Local) => f,
        _ => Some(Uid::Local),
    }
}

/// Focus one window to the right, mirror of `spec_window_left`.
pub open spec fn spec_window_right(f: Option<Uid>) -> Option<Uid> {
    match f {
        Some(Uid::Local) => Some(Uid::Remote),
        Some(Uid::Info) => f,
        Some(Uid::Remote) => f,
        _ => Some(Uid::Remote),
    }
}

/// Focus one window down: the panes land on the info panel, which stays.
pub open spec fn spec_window_down(f: Option<Uid>) -> Option<Uid> {
    match f {
        Some(Uid::Remote) => Some(Uid::Info),
        Some(Uid::Local) => Some(Uid::Info),
        Some(Uid::Info) => f,
        _ => Some(Uid::Info),
    }
}

/// Focus one window up: the info panel lands on the local pane; the panes
/// stay.
pub open spec fn spec_window_up(f: Option<Uid>) -> Option<Uid> {
    match f {
        Some(Uid::Remote) => f,
        Some(Uid::Local) => f,
        Some(Uid::Info) => Some(Uid::Local),
        _ => Some(Uid::Local),
    }
}

/// Which panel the cell at `(column, row)` lies in, going by the last drawn
/// layout edges `[panes bottom, info bottom, status bottom, local right,
/// remote right]`.
pub open spec fn spec_interact_layout(lay: Seq<u16>, column: u16, row: u16) -> Option<Uid> {
    if row <= lay[0] {
        if column <= lay[3] {
            Some(Uid::Local)
        } else if column <= lay[4] {
            Some(Uid::Remote)
        } else {
            None
        }
    } else if row <= lay[1] {
        Some(Uid::Info)
    } else if row <= lay[2] {
        Some(Uid::Status)
    } else {
        None
    }
}

/// Routing an event into one panel: that panel steps, every other part of the
/// state stays, and a file pane's refresh request is passed along tagged with
/// the pane.
pub open spec fn interact_steps(
    pre: App,
    post: App,
    uid: Uid,
    e: Event,
    req: Option<(Uid, Refresh)>,
) -> bool {
    match uid {
        Uid::Local => post == (App { p_local: post.p_local, ..pre }) && match req {
            None => explorer_steps(pre.p_local, post.p_local, e, None),
            Some((u, rf)) => u == Uid::Local && explorer_steps(
                pre.p_local,
                post.p_local,
                e,
                Some(rf),
            ),
        },
        Uid::Remote => post == (App { p_remote: post.p_remote, ..pre }) && match req {
            None => explorer_steps(pre.p_remote, post.p_remote, e, None),
            Some((u, rf)) => u == Uid::Remote && explorer_steps(
                pre.p_remote,
                post.p_remote,
                e,
                Some(rf),
            ),
        },
        Uid::Info => post == (App { p_info: post.p_info, ..pre }) && info_panel_steps(
            pre.p_info,
            post.p_info,
            e,
        ) && req is None,
        Uid::Status => post == pre && req is None,
    }
}

/// Routing an event into the focused panel, when one is focused.
pub open spec fn interact_focus_steps(
    pre: App,
    post: App,
    e: Event,
    req: Option<(Uid, Refresh)>,
) -> bool {
    match pre.focus {
        Some(uid) => interact_steps(pre, post, uid, e, req),
        None => post == pre && req is None,
    }
}

/// Routing an event into the popup while one shows: the popup steps; a
/// finished popup is dropped, the mode returns to normal, and whatever the
/// popup emits is handed back for dispatch.
pub open spec fn popup_interact_steps(pre: App, post: App, e: Event, synth: Option<Event>) -> bool {
    if pre.status != Status::Popup {
        post == pre && synth is None
    } else {
        match pre.p_popup {
            None => post == (App {
                status: Status::Normal,
                p_popup: None::<PopupPanel>,
                ..pre
            }) && synth is None,
            Some(p) => exists|p2: PopupPanel|
                #[trigger] popup_steps(p, p2, e) && if spec_popup_exit(p2) {
                    post == (App { status: Status::Normal, p_popup: None::<PopupPanel>, ..pre })
                        && synth == spec_popup_emit(p2)
                } else {
                    post == (App { p_popup: Some(p2), ..pre }) && synth is None
                },
        }
    }
}

/// The exit-confirmation dialog, as `PopupPanel::new_exit` builds it.
pub open spec fn is_exit_popup(p: PopupPanel) -> bool {
    match p {
        PopupPanel::Exit(y) => {
            &&& y.title is None
            &&& y.msg@ == "exit filez?"@
            &&& y.exit == false
            &&& y.state == 0
            &&& y.rtn@.len() == 3
            &&& y.rtn@[0] matches Some(Event::ExitConfirm)
            &&& y.rtn@[1] is None
            &&& y.rtn@[2] is None
        },
        _ => false,
    }
}

/// The help popup, fresh.
pub open spec fn is_help_popup(p: PopupPanel) -> bool {
    match p {
        PopupPanel::Help(h) => h.exit == false,
        _ => false,
    }
}

/// What a pending wait does with the next key or mouse event (the wait itself
/// has already been taken out of the state): a drag on the pressed cell
/// re-arms the click wait; a release synthesizes a click; leader keys collect
/// until they name a window move or run out; search keys collect until Enter
/// synthesizes the search; the second `g` synthesizes the jump.
pub open spec fn wait_steps(
    pre: App,
    post: App,
    wait: Wait,
    e: Event,
    now_ms: u64,
    synth: Option<Event>,
) -> bool {
    match (wait, e) {
        (
            Wait::WaitClick(column_old, row_old),
            Event::Mouse(MouseEvent { kind: MouseKind::DragLeft, column, row }),
        ) => {
            if column_old == column && row_old == row {
                post == (App {
                    wait: Some(Wait::WaitClick(column, row)),
                    wait_key: now_ms,
                    ..pre
                }) && synth is None
            } else {
                post == pre && synth is None
            }
        },
        (
            Wait::WaitClick(_, _),
            Event::Mouse(MouseEvent { kind: MouseKind::UpLeft, column, row }),
        ) => post == pre && synth == Some(Event::Click(column, row)),
        (
            Wait::WaitLeader(keys),
            Event::Key(KeyEvent { code: KeyCode::Char(code), modifiers: KeyMods::Plain }),
        ) => {
            let ks = keys@.push(code);
            if ks.len() >= 2 && ks[0] == 'w' && ks[1] == 'h' {
                post == (App {
                    focus: spec_window_left(pre.focus),
                    wait_key: now_ms,
                    ..pre
                }) && synth is None
            } else if ks.len() >= 2 && ks[0] == 'w' && ks[1] == 'l' {
                post == (App {
                    focus: spec_window_right(pre.focus),
                    wait_key: now_ms,
                    ..pre
                }) && synth is None
            } else if ks.len() >= 2 && ks[0] == 'w' && ks[1] == 'j' {
                post == (App {
                    focus: spec_window_down(pre.focus),
                    wait_key: now_ms,
                    ..pre
                }) && synth is None
            } else if ks.len() >= 2 && ks[0] == 'w' && ks[1] == 'k' {
                post == (App {
                    focus: spec_window_up(pre.focus),
                    wait_key: now_ms,
                    ..pre
                }) && synth is None
            } else if ks.len() < 5 {
                &&& post == (App { wait: post.wait, wait_key: now_ms, ..pre })
                &&& post.wait matches Some(Wait::WaitLeader(v)) && v@ == ks
                &&& synth is None
            } else {
                post == (App { wait_key: now_ms, ..pre }) && synth is None
            }
        },
        (
            Wait::WaitG,
            Event::Key(KeyEvent { code: KeyCode::Char('g'), modifiers: KeyMods::Plain }),
        ) => post == pre && synth == Some(Event::Keys_gg),
        (
            Wait::WaitSearch(keys),
            Event::Key(KeyEvent { code: KeyCode::Backspace, modifiers: KeyMods::Plain }),
        ) => {
            &&& post == (App { wait: post.wait, wait_key: now_ms, ..pre })
            &&& post.wait matches Some(Wait::WaitSearch(v)) && v@ == (if keys@.len() > 0 {
                keys@.drop_last()
            } else {
                keys@
            })
            &&& synth is None
        },
        (
            Wait::WaitSearch(keys),
            Event::Key(KeyEvent { code: KeyCode::Char(code), modifiers: KeyMods::Plain }),
        ) => {
            let ks = keys@.push(code);
            if ks.len() < 20 {
                &&& post == (App { wait: post.wait, wait_key: now_ms, ..pre })
                &&& post.wait matches Some(Wait::WaitSearch(v)) && v@ == ks
                &&& synth is None
            } else {
                post == pre && synth is None
            }
        },
        (
            Wait::WaitSearch(keys),
            Event::Key(KeyEvent { code: KeyCode::Enter, modifiers: KeyMods::Plain }),
        ) => post == pre && (synth matches Some(Event::Search(s)) && s@ == keys@),
        (_, Event::Key(_)) => post == pre && synth is None,
        (_, Event::Mouse(_)) => post == pre && synth is None,
        _ => false,
    }
}

/// How the dispatcher reacts to an event outside a pending wait, in its
/// current mode: ticks expire stale waits; logs land in the info panel; mouse
/// gestures arm clicks or scroll the panel under them; `q` and `?` raise
/// popups, which then swallow the input; everything else goes to the focused
/// panel.
pub open spec fn status_steps(
    pre: App,
    post: App,
    e: Event,
    now_ms: u64,
    synth: Option<Event>,
    req: Option<(Uid, Refresh)>,
) -> bool {
    match (pre.status, e) {
        (_, Event::Tick) => {
            &&& post == (App { wait: post.wait, ..pre })
            &&& post.wait == if pre.wait is Some && sat_sub(now_ms as int, pre.wait_key as int)
                > 5000 {
                None::<Wait>
            } else {
                pre.wait
            }
            &&& synth is None
            &&& req is None
        },
        (_, Event::Log(_)) => post == (App { p_info: post.p_info, ..pre }) && info_panel_steps(
            pre.p_info,
            post.p_info,
            e,
        ) && synth is None && req is None,
        (_, Event::Mouse(MouseEvent { kind: MouseKind::DownLeft, column, row })) => post == (App {
            wait: Some(Wait::WaitClick(column, row)),
            wait_key: now_ms,
            ..pre
        }) && synth is None && req is None,
        (_, Event::Mouse(MouseEvent { kind: MouseKind::ScrollUp, column, row })) => synth is None
            && match spec_interact_layout(pre.layout@, column, row) {
            Some(uid) => interact_steps(pre, post, uid, Event::ScrollUp, req),
            None => post == pre && req is None,
        },
        (_, Event::Mouse(MouseEvent { kind: MouseKind::ScrollDown, column, row })) => synth is None
            && match spec_interact_layout(pre.layout@, column, row) {
            Some(uid) => interact_steps(pre, post, uid, Event::ScrollDown, req),
            None => post == pre && req is None,
        },
        (_, Event::ExitConfirm) => post == (App { status: Status::Exit, ..pre }) && synth is None
            && req is None,
        (Status::Normal, Event::Key(KeyEvent { code: KeyCode::Esc, .. })) => post == (App {
            status: Status::Normal,
            focus: None::<Uid>,
            ..pre
        }) && synth is None && req is None,
        (Status::Normal, Event::Key(KeyEvent { code: KeyCode::Enter, modifiers: KeyMods::Plain }))
            => {
            if pre.focus != Some(Uid::Local) {
                post == (App { focus: Some(Uid::Local), ..pre }) && synth is None && req is None
            } else {
                interact_focus_steps(pre, post, e, req) && synth is None
            }
        },
        (Status::Normal, Event::Key(KeyEvent { code: KeyCode::Char('q'), .. })) => {
            &&& post == (App { p_popup: post.p_popup, status: Status::Popup, ..pre })
            &&& post.p_popup matches Some(p) && is_exit_popup(p)
            &&& synth is None
            &&& req is None
        },
        (Status::Normal, Event::Key(KeyEvent { code: KeyCode::Char('?'), .. })) => {
            &&& post == (App { p_popup: post.p_popup, status: Status::Popup, ..pre })
            &&& post.p_popup matches Some(p) && is_help_popup(p)
            &&& synth is None
            &&& req is None
        },
        (Status::Normal, Event::Key(KeyEvent { code: KeyCode::Char(' '), modifiers: KeyMods::Plain }))
            => {
            &&& post == (App { wait: post.wait, wait_key: now_ms, ..pre })
            &&& post.wait matches Some(Wait::WaitLeader(v)) && v@ == Seq::<char>::empty()
            &&& synth is None
            &&& req is None
        },
        (Status::Normal, Event::Key(KeyEvent { code: KeyCode::Char('/'), modifiers: KeyMods::Plain }))
            => {
            &&& post == (App { wait: post.wait, wait_key: now_ms, ..pre })
            &&& post.wait matches Some(Wait::WaitSearch(v)) && v@ == Seq::<char>::empty()
            &&& synth is None
            &&& req is None
        },
        (Status::Normal, Event::Key(KeyEvent { code: KeyCode::Char('G'), modifiers: KeyMods::Shift }))
            => post == pre && synth == Some(Event::Keys_G) && req is None,
        (Status::Normal, Event::Key(KeyEvent { code: KeyCode::Char('g'), modifiers: KeyMods::Plain }))
            => post == (App { wait: Some(Wait::WaitG), wait_key: now_ms, ..pre }) && synth is None
            && req is None,
        (Status::Popup, Event::Key(_)) => popup_interact_steps(pre, post, e, synth) && req is None,
        (Status::Popup, Event::Mouse(_)) => popup_interact_steps(pre, post, e, synth)
            && req is None,
        (Status::Popup, Event::Click(_, _)) => popup_interact_steps(pre, post, e, synth)
            && req is None,
        (Status::Popup, Event::ScrollDown) => popup_interact_steps(pre, post, e, synth)
            && req is None,
        (Status::Popup, Event::ScrollUp) => popup_interact_steps(pre, post, e, synth)
            && req is None,
        (Status::Normal, Event::Click(column, row)) => synth is None && match spec_interact_layout(
            pre.layout@,
            column,
            row,
        ) {
            Some(uid) => interact_steps(
                App { focus: Some(uid), ..pre },
                post,
                uid,
                e,
                req,
            ) && post.focus == Some(uid),
            None => post == pre && req is None,
        },
        _ => interact_focus_steps(pre, post, e, req) && synth is None,
    }
}

/// One dispatch round: with a wait pending, a key or mouse event settles it;
/// anything else follows the mode's rules. The first result is an event the
/// caller must feed back in; the second a directory the caller must list
/// anew for the named pane.
pub open spec fn app_steps(
    pre: App,
    post: App,
    e: Event,
    now_ms: u64,
    synth: Option<Event>,
    req: Option<(Uid, Refresh)>,
) -> bool {
    if pre.wait is Some && (e matches Event::Key(_) || e matches Event::Mouse(_)) {
        wait_steps(
            App { wait: None::<Wait>, ..pre },
            post,
            pre.wait->0,
            e,
            now_ms,
            synth,
        ) && req is None
    } else {
        status_steps(pre, post, e, now_ms, synth, req)
    }
}

impl App {
    /// A fresh program state over two directories, panes empty until the host
    /// hands them their listings.
    pub fn new(left: String, right: String) -> (r: App)
        ensures
            r.p_local.dir == left,
            r.p_remote.dir == right,
            r.p_local.list.rows@.len() == 0,
            r.p_remote.list.rows@.len() == 0,
            r.status == Status::Normal,
            r.wait is None,
            r.p_popup is None,
            r.focus == Some(Uid::Local),
            spec_app_wf(r),
    {
        App {
            p_local: ExplorerPanel::new(left),
            p_remote: ExplorerPanel::new(right),
            p_info: InfoPanel::new(),
            p_status: StatusPanel::new(),
            p_popup: None,
            status: Status::Normal,
            wait: None,
            wait_key: 0,
            layout: [0, 0, 0, 0, 0],
            focus: Some(Uid::Local),
        }
    }

    /// Adopts the layout edges of the last draw, for mouse routing.
    pub fn set_layout(&mut self, layout: [u16; 5])
        ensures
            *final (self) == (App { layout, ..*old(self) }),
    {
        self.layout = layout;
    }

    /// Which panel the cell at `(column, row)` lies in.
    pub fn interact_layout(&self, column: u16, row: u16) -> (r: Option<Uid>)
        ensures
            r == spec_interact_layout(self.layout@, column, row),
    {
        let y0 = self.layout[0];
        let y1 = self.layout[1];
        let y2 = self.layout[2];
        let x0 = self.layout[3];
        let x1 = self.layout[4];
        if row <= y0 {
            if column <= x0 {
                Some(Uid::Local)
            } else if column <= x1 {
                Some(Uid::Remote)
            } else {
                None
            }
        } else if row <= y1 {
            Some(Uid::Info)
        } else if row <= y2 {
            Some(Uid::Status)
        } else {
            None
        }
    }

    fn window_left(&mut self)
        ensures
            *final (self) == (App { focus: spec_window_left(old(self).focus), ..*old(self) }),
    {
        match self.focus {
            Some(Uid::Remote) => {
                self.focus = Some(Uid::Local);
            },
            Some(Uid::Info) => {},
            Some(Uid::Local) => {},
            _ => {
                self.focus = Some(Uid::Local);
            },
        }
    }

    fn window_right(&mut self)
        ensures
            *final (self) == (App { focus: spec_window_right(old(self).focus), ..*old(self) }),
    {
        match self.focus {
            Some(Uid::Local) => {
                self.focus = Some(Uid::Remote);
            },
            Some(Uid::Info) => {},
            Some(Uid::Remote) => {},
            _ => {
                self.focus = Some(Uid::Remote);
            },
        }
    }

    fn window_down(&mut self)
        ensures
            *final (self) == (App { focus: spec_window_down(old(self).focus), ..*old(self) }),
    {
        match self.focus {
            Some(Uid::Remote) => {
                self.focus = Some(Uid::Info);
            },
            Some(Uid::Local) => {
                self.focus = Some(Uid::Info);
            },
            Some(Uid::Info) => {},
            _ => {
                self.focus = Some(Uid::Info);
            },
        }
    }

    fn window_up(&mut self)
        ensures
            *final (self) == (App { focus: spec_window_up(old(self).focus), ..*old(self) }),
    {
        match self.focus {
            Some(Uid::Remote) => {},
            Some(Uid::Local) => {},
            Some(Uid::Info) => {
                self.focus = Some(Uid::Local);
            },
            _ => {
                self.focus = Some(Uid::Local);
            },
        }
    }

    fn start_wait(&mut self, wait: Wait, now_ms: u64)
        ensures
            *final (self) == (App { wait: Some(wait), wait_key: now_ms, ..*old(self) }),
    {
        self.wait = Some(wait);
        self.wait_key = now_ms;
    }

    /// Routes an event into one panel.
    fn interact(&mut self, uid: Uid, event: Event) -> (req: Option<(Uid, Refresh)>)
        requires
            spec_app_wf(*old(self)),
        ensures
            interact_steps(*old(self), *final (self), uid, event, req),
            spec_app_wf(*final (self)),
    {
        match uid {
            Uid::Local => {
                let rf = self.p_local.on_event(event);
                match rf {
                    Some(rf) => Some((Uid::Local, rf)),
                    None => None,
                }
            },
            Uid::Remote => {
                let rf = self.p_remote.on_event(event);
                match rf {
                    Some(rf) => Some((Uid::Remote, rf)),
                    None => None,
                }
            },
            Uid::Info => {
                self.p_info.on_event(event);
                None
            },
            Uid::Status => { None },
        }
    }

    /// Routes an event into the focused panel.
    fn interact_focus(&mut self, event: Event) -> (req: Option<(Uid, Refresh)>)
        requires
            spec_app_wf(*old(self)),
        ensures
            interact_focus_steps(*old(self), *final (self), event, req),
            spec_app_wf(*final (self)),
    {
        let focus = self.focus;
        match focus {
            Some(uid) => self.interact(uid, event),
            None => None,
        }
    }

    /// Routes an event into the popup while one shows.
    fn interact_popup(&mut self, event: Event) -> (synth: Option<Event>)
        ensures
            popup_interact_steps(*old(self), *final (self), event, synth),
    {
        if !matches!(self.status, Status::Popup) {
            return None;
        }
        let popup = self.p_popup.take();
        match popup {
            Some(mut popup) => {
                popup.on_event(event);
                let ghost p2 = popup;
                if popup.exit() {
                    self.status = Status::Normal;
                    let res = popup.emit();
                    proof {
                        assert(popup_steps(old(self).p_popup->0, p2, event));
                    }
                    res
                } else {
                    self.p_popup = Some(popup);
                    proof {
                        assert(popup_steps(old(self).p_popup->0, p2, event));
                    }
                    None
                }
            },
            None => {
                self.status = Status::Normal;
                None
            },
        }
    }

    /// Settles a pending wait with a key or mouse event.
    fn process_wait(&mut self, wait: Wait, event: Event, now_ms: u64) -> (synth: Option<Event>)
        requires
            event matches Event::Key(_) || event matches Event::Mouse(_),
        ensures
            wait_steps(*old(self), *final (self), wait, event, now_ms, synth),
    {
        match wait {
            Wait::WaitClick(column_old, row_old) => match event {
                Event::Mouse(MouseEvent { kind: MouseKind::DragLeft, column, row }) => {
                    if column_old == column && row_old == row {
                        self.start_wait(Wait::WaitClick(column, row), now_ms);
                    }
                    None
                },
                Event::Mouse(MouseEvent { kind: MouseKind::UpLeft, column, row }) => {
                    Some(Event::Click(column, row))
                },
                _ => { None },
            },
            Wait::WaitLeader(keys) => match event {
                Event::Key(KeyEvent { code: KeyCode::Char(code), modifiers: KeyMods::Plain }) => {
                    self.wait_key = now_ms;
                    let mut keys = keys;
                    keys.push(code);
                    if keys.len() >= 2 && keys[0] == 'w' && keys[1] == 'h' {
                        self.window_left();
                    } else if keys.len() >= 2 && keys[0] == 'w' && keys[1] == 'l' {
                        self.window_right();
                    } else if keys.len() >= 2 && keys[0] == 'w' && keys[1] == 'j' {
                        self.window_down();
                    } else if keys.len() >= 2 && keys[0] == 'w' && keys[1] == 'k' {
                        self.window_up();
                    } else if keys.len() < 5 {
                        self.start_wait(Wait::WaitLeader(keys), now_ms);
                    }
                    None
                },
                _ => { None },
            },
            Wait::WaitG => match event {
                Event::Key(KeyEvent { code: KeyCode::Char('g'), modifiers: KeyMods::Plain }) => {
                    Some(Event::Keys_gg)
                },
                _ => { None },
            },
            Wait::WaitSearch(keys) => match event {
                Event::Key(KeyEvent { code: KeyCode::Backspace, modifiers: KeyMods::Plain }) => {
                    let mut keys = keys;
                    if keys.len() > 0 {
                        let _ = keys.pop();
                    }
                    self.start_wait(Wait::WaitSearch(keys), now_ms);
                    None
                },
                Event::Key(KeyEvent { code: KeyCode::Char(code), modifiers: KeyMods::Plain }) => {
                    let mut keys = keys;
                    keys.push(code);
                    if keys.len() < 20 {
                        self.start_wait(Wait::WaitSearch(keys), now_ms);
                    }
                    None
                },
                Event::Key(KeyEvent { code: KeyCode::Enter, modifiers: KeyMods::Plain }) => {
                    let search = chars_to_string(&keys);
                    Some(Event::Search(search))
                },
                _ => { None },
            },
            Wait::WaitClickEdge(_, _) => { None },
        }
    }

    /// Follows the current mode's rules for one event.
    fn process_status(&mut self, event: Event, now_ms: u64) -> (r: (
        Option<Event>,
        Option<(Uid, Refresh)>,
    ))
        requires
            spec_app_wf(*old(self)),
        ensures
            status_steps(*old(self), *final (self), event, now_ms, r.0, r.1),
            spec_app_wf(*final (self)),
    {
        let status = self.status;
        match event {
            Event::Tick => {
                if self.wait.is_some() && now_ms.saturating_sub(self.wait_key) > 5000 {
                    self.wait = None;
                }
                (None, None)
            },
            Event::Log(_) => {
                self.p_info.on_event(event);
                (None, None)
            },
            Event::ExitConfirm => {
                self.status = Status::Exit;
                (None, None)
            },
            Event::Mouse(MouseEvent { kind, column, row }) => {
                match kind {
                    MouseKind::DownLeft => {
                        self.start_wait(Wait::WaitClick(column, row), now_ms);
                        (None, None)
                    },
                    MouseKind::ScrollUp => {
                        let hit = self.interact_layout(column, row);
                        match hit {
                            Some(uid) => (None, self.interact(uid, Event::ScrollUp)),
                            None => (None, None),
                        }
                    },
                    MouseKind::ScrollDown => {
                        let hit = self.interact_layout(column, row);
                        match hit {
                            Some(uid) => (None, self.interact(uid, Event::ScrollDown)),
                            None => (None, None),
                        }
                    },
                    _ => {
                        if matches!(status, Status::Popup) {
                            (self.interact_popup(event), None)
                        } else {
                            (None, self.interact_focus(event))
                        }
                    },
                }
            },
            Event::Key(KeyEvent { code, modifiers }) => {
                if matches!(status, Status::Popup) {
                    return (self.interact_popup(event), None);
                }
                if matches!(status, Status::Normal) {
                    match (code, modifiers) {
                        (KeyCode::Esc, _) => {
                            self.status = Status::Normal;
                            self.focus = None;
                            (None, None)
                        },
                        (KeyCode::Enter, KeyMods::Plain) => {
                            if !matches!(self.focus, Some(Uid::Local)) {
                                self.focus = Some(Uid::Local);
                                (None, None)
                            } else {
                                (None, self.interact_focus(event))
                            }
                        },
                        (KeyCode::Char('q'), _) => {
                            self.p_popup = Some(PopupPanel::new_exit());
                            self.status = Status::Popup;
                            (None, None)
                        },
                        (KeyCode::Char('?'), _) => {
                            self.p_popup = Some(PopupPanel::new_help());
                            self.status = Status::Popup;
                            (None, None)
                        },
                        (KeyCode::Char(' '), KeyMods::Plain) => {
                            self.start_wait(Wait::WaitLeader(Vec::new()), now_ms);
                            (None, None)
                        },
                        (KeyCode::Char('/'), KeyMods::Plain) => {
                            self.start_wait(Wait::WaitSearch(Vec::new()), now_ms);
                            (None, None)
                        },
                        (KeyCode::Char('G'), KeyMods::Shift) => { (Some(Event::Keys_G), None) },
                        (KeyCode::Char('g'), KeyMods::Plain) => {
                            self.start_wait(Wait::WaitG, now_ms);
                            (None, None)
                        },
                        _ => { (None, self.interact_focus(event)) },
                    }
                } else {
                    (None, self.interact_focus(event))
                }
            },
            Event::Click(column, row) => {
                if matches!(status, Status::Popup) {
                    (self.interact_popup(event), None)
                } else if matches!(status, Status::Normal) {
                    let hit = self.interact_layout(column, row);
                    match hit {
                        Some(uid) => {
                            self.focus = Some(uid);
                            (None, self.interact_focus(event))
                        },
                        None => (None, None),
                    }
                } else {
                    (None, self.interact_focus(event))
                }
            },
            Event::ScrollDown | Event::ScrollUp => {
                if matches!(status, Status::Popup) {
                    (self.interact_popup(event), None)
                } else {
                    (None, self.interact_focus(event))
                }
            },
            _ => { (None, self.interact_focus(event)) },
        }
    }

    /// One dispatch round, as `app_steps` describes it: the host feeds the
    /// synthesized event (if any) back in, and answers a refresh request by
    /// listing the named pane's directory anew.
    pub fn on_event(&mut self, event: Event, now_ms: u64) -> (r: (
        Option<Event>,
        Option<(Uid, Refresh)>,
    ))
        requires
            spec_app_wf(*old(self)),
        ensures
            app_steps(*old(self), *final (self), event, now_ms, r.0, r.1),
            spec_app_wf(*final (self)),
    {
        let is_input = matches!(event, Event::Key(_) | Event::Mouse(_));
        if self.wait.is_some() && is_input {
            let wait = self.wait.take().unwrap();
            let synth = self.process_wait(wait, event, now_ms);
            (synth, None)
        } else {
            self.process_status(event, now_ms)
        }
    }
}

/// Relies on String's `FromIterator` over characters: collecting yields the
/// string of exactly those characters in order.
#[verifier::external_body]
fn chars_to_string(cs: &Vec<char>) -> (r: String)
    ensures
        r@ == cs@,
{
    cs.iter().collect()
}

} // verus!
