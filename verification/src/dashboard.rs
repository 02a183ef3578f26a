use vstd::prelude::*;

use crate::errors::DashboardError;
use crate::kafka_client::TopicData;

verus! {

/// One operator keystroke, as the dashboard understands it.
#[derive(Clone, Copy, Debug, PartialEq, Eq, Structural)]
pub enum Key {
    Char(char),
    Down,
    Up,
    Other,
}

/// One event of the single, time-ordered stream the event scheduler
/// delivers: a keystroke, or a periodic redraw tick.  Events reach the one
/// consumer in production order; kinds are never reordered or coalesced.
#[derive(Clone, Copy, Debug, PartialEq, Eq, Structural)]
pub enum Event {
    Input(Key),
    Tick,
}

/// What the dashboard loop asks its caller to carry out after one step.
#[derive(Debug)]
pub enum Action {
    /// Redraw the screen from the (possibly updated) state.
    Redraw,
    /// Open a session for the named topic, pull one batch, commit it, and
    /// hand the result back through `apply_pull`.
    Pull(String),
    /// Release the console and exit.
    Quit,
}

/// The one screen of the menu.
#[derive(Clone, Copy, Debug, PartialEq, Eq, Structural)]
pub enum MenuItem {
    Topics,
}

impl MenuItem {
    /// The position of this menu entry in the tab row.
    pub fn tab_index(&self) -> (r: usize)
        ensures
            r == 0,
    {
        0
    }
}

/// The selection after one "down" keystroke on a list of `len` entries:
/// one past the current index, wrapping to 0 past the last.
pub open spec fn next_down(len: int, sel: int) -> int {
    if len == 0 {
        0
    } else if sel >= len - 1 {
        0
    } else {
        sel + 1
    }
}

/// The selection after one "up" keystroke: one before the current index,
/// wrapping to the last index at 0.
pub open spec fn next_up(len: int, sel: int) -> int {
    if len == 0 {
        0
    } else if sel > 0 {
        sel - 1
    } else {
        len - 1
    }
}

/// The mutable view-state owned solely by the dashboard loop: the catalog
/// of the last successful refresh, the selected topic index, the
/// accumulated message log (append-only until explicitly cleared) and the
/// active screen.  No other component mutates it; the renderer only ever
/// receives it as an immutable snapshot.
pub struct DashboardState {
    pub catalog: Vec<TopicData>,
    pub selected: usize,
    pub messages: Vec<String>,
    pub active_tab: MenuItem,
}

impl DashboardState {
    /// The selection always points into the catalog, and rests at 0 while
    /// the catalog is empty.
    pub open spec fn wf(self) -> bool {
        if self.catalog@.len() == 0 {
            self.selected == 0
        } else {
            (self.selected as int) < self.catalog@.len()
        }
    }

    /// The startup state: an empty catalog, the selection at 0, an empty
    /// message log, the topics screen.
    pub fn new() -> (s: DashboardState)
        ensures
            s.wf(),
            s.catalog@.len() == 0,
            s.selected == 0,
            s.messages@.len() == 0,
            s.active_tab == MenuItem::Topics,
    {
        DashboardState {
            catalog: Vec::new(),
            selected: 0,
            messages: Vec::new(),
            active_tab: MenuItem::Topics,
        }
    }

    /// Moves the selection one topic down, wrapping at the end.  A pure
    /// state update: no I/O, nothing else changes.
    pub fn navigate_down(&mut self)
        requires
            old(self).wf(),
        ensures
            final(self).wf(),
            final(self).selected == next_down(
                old(self).catalog@.len() as int,
                old(self).selected as int,
            ),
            final(self).catalog == old(self).catalog,
            final(self).messages == old(self).messages,
            final(self).active_tab == old(self).active_tab,
    {
        let len = self.catalog.len();
        if len == 0 {
        } else if self.selected >= len - 1 {
            self.selected = 0;
        } else {
            self.selected = self.selected + 1;
        }
    }

    /// Moves the selection one topic up, wrapping at the start.
    pub fn navigate_up(&mut self)
        requires
            old(self).wf(),
        ensures
            final(self).wf(),
            final(self).selected == next_up(
                old(self).catalog@.len() as int,
                old(self).selected as int,
            ),
            final(self).catalog == old(self).catalog,
            final(self).messages == old(self).messages,
            final(self).active_tab == old(self).active_tab,
    {
        let len = self.catalog.len();
        if len == 0 {
        } else if self.selected > 0 {
            self.selected = self.selected - 1;
        } else {
            self.selected = len - 1;
        }
    }

    /// Clears the accumulated message log and nothing else; broker state
    /// is not touched.
    pub fn clear_messages(&mut self)
        requires
            old(self).wf(),
        ensures
            final(self).wf(),
            final(self).messages@.len() == 0,
            final(self).catalog == old(self).catalog,
            final(self).selected == old(self).selected,
            final(self).active_tab == old(self).active_tab,
    {
        self.messages = Vec::new();
    }

    /// Installs the result of one metadata refresh.  All-or-nothing: a
    /// successful refresh replaces the catalog wholesale and keeps the
    /// selection when it still points into the new catalog (else it rests
    /// at 0); a failed refresh leaves the whole state untouched, so the
    /// previous catalog — or the empty one at first startup — stays
    /// displayed.
    pub fn apply_refresh(&mut self, r: Result<Vec<TopicData>, DashboardError>)
        requires
            old(self).wf(),
        ensures
            final(self).wf(),
            r matches Ok(cat) ==> {
                &&& final(self).catalog == cat
                &&& final(self).selected as int == (if (old(self).selected as int) < cat@.len() {
                    old(self).selected as int
                } else {
                    0
                })
                &&& final(self).messages == old(self).messages
                &&& final(self).active_tab == old(self).active_tab
            },
            r is Err ==> *final(self) == *old(self),
    {
        match r {
            Result::Ok(cat) => {
                if !(self.selected < cat.len()) {
                    self.selected = 0;
                }
                self.catalog = cat;
            },
            Result::Err(_) => {},
        }
    }

    /// Applies the result of one pull: a successful batch is appended to
    /// the message log in order; a failed pull leaves the log — and all the
    /// rest of the state — unchanged.
    pub fn apply_pull(&mut self, r: Result<Vec<String>, DashboardError>)
        requires
            old(self).wf(),
        ensures
            final(self).wf(),
            r matches Ok(msgs) ==> {
                &&& final(self).messages@ == old(self).messages@ + msgs@
                &&& final(self).catalog == old(self).catalog
                &&& final(self).selected == old(self).selected
                &&& final(self).active_tab == old(self).active_tab
            },
            r is Err ==> *final(self) == *old(self),
    {
        match r {
            Result::Ok(msgs) => {
                let mut batch = msgs;
                self.messages.append(&mut batch);
            },
            Result::Err(_) => {},
        }
    }

    /// The topic the selection currently points at.
    pub fn selected_topic(&self) -> (t: &TopicData)
        requires
            self.wf(),
            self.catalog@.len() > 0,
        ensures
            *t == self.catalog@[self.selected as int],
    {
        &self.catalog[self.selected]
    }

    /// The dashboard state machine, dispatching on the one tagged stream
    /// of events while idle.  A tick requests a redraw with unchanged state
    /// and never any network I/O; `q` quits; `t` selects the topics screen;
    /// `c` clears the log; `p` asks the caller to pull one batch for the
    /// selected topic (nothing happens on an empty catalog); the arrows
    /// move the selection with wrap-around.  Every other key is ignored.
    pub fn step(&mut self, ev: Event) -> (a: Action)
        requires
            old(self).wf(),
        ensures
            final(self).wf(),
            final(self).catalog == old(self).catalog,
            match ev {
                Event::Tick => *final(self) == *old(self) && (a matches Action::Redraw),
                Event::Input(k) => match k {
                    Key::Char(c) => {
                        if c == 'q' {
                            *final(self) == *old(self) && (a matches Action::Quit)
                        } else if c == 't' {
                            &&& final(self).active_tab == MenuItem::Topics
                            &&& final(self).selected == old(self).selected
                            &&& final(self).messages == old(self).messages
                            &&& (a matches Action::Redraw)
                        } else if c == 'c' {
                            &&& final(self).messages@.len() == 0
                            &&& final(self).selected == old(self).selected
                            &&& final(self).active_tab == old(self).active_tab
                            &&& (a matches Action::Redraw)
                        } else if c == 'p' {
                            *final(self) == *old(self) && (if old(self).catalog@.len() == 0 {
                                a matches Action::Redraw
                            } else {
                                a matches Action::Pull(t) && t@ == old(self).catalog@[old(
                                    self,
                                ).selected as int].name@
                            })
                        } else {
                            *final(self) == *old(self) && (a matches Action::Redraw)
                        }
                    },
                    Key::Down => {
                        &&& final(self).selected == next_down(
                            old(self).catalog@.len() as int,
                            old(self).selected as int,
                        )
                        &&& final(self).messages == old(self).messages
                        &&& final(self).active_tab == old(self).active_tab
                        &&& (a matches Action::Redraw)
                    },
                    Key::Up => {
                        &&& final(self).selected == next_up(
                            old(self).catalog@.len() as int,
                            old(self).selected as int,
                        )
                        &&& final(self).messages == old(self).messages
                        &&& final(self).active_tab == old(self).active_tab
                        &&& (a matches Action::Redraw)
                    },
                    Key::Other => *final(self) == *old(self) && (a matches Action::Redraw),
                },
            },
    {
        match ev {
            Event::Tick => Action::Redraw,
            Event::Input(k) => match k {
                Key::Char(c) => {
                    if c == 'q' {
                        Action::Quit
                    } else if c == 't' {
                        self.active_tab = MenuItem::Topics;
                        Action::Redraw
                    } else if c == 'c' {
                        self.clear_messages();
                        Action::Redraw
                    } else if c == 'p' {
                        if self.catalog.len() == 0 {
                            Action::Redraw
                        } else {
                            Action::Pull(self.selected_topic().name.clone())
                        }
                    } else {
                        Action::Redraw
                    }
                },
                Key::Down => {
                    self.navigate_down();
                    Action::Redraw
                },
                Key::Up => {
                    self.navigate_up();
                    Action::Redraw
                },
                Key::Other => Action::Redraw,
            },
        }
    }
}

} // verus!
