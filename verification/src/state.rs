//! The dashboard's state machine: the job list, the active filter mode, the
//! selection cursor, and the detail-view snapshot, with the input-driven and
//! refresh-driven transitions that the poll loop performs on them.
//!
//! The loop itself (terminal events, the periodic fetch, drawing) lives
//! outside the library; it hands discrete [`InputEvent`]s and freshly fetched
//! job lists to these methods and renders whatever state they leave behind.

use vstd::prelude::*;
use crate::filter::{spec_filtered, FilterMode};
use crate::jobs::{job_views, Job, JobView};
use crate::nav::{advance, retreat, spec_advance, spec_retreat};

verus! {

/// One discrete input, already decoded from a key press.
pub enum InputEvent {
    /// Terminate the dashboard (ignored while the detail view is open).
    Quit,
    /// Highlight the next filtered row.
    MoveNext,
    /// Highlight the previous filtered row.
    MovePrev,
    /// Open the detail view on the highlighted row, or close it if open.
    Confirm,
    /// Close the detail view; nothing happens while browsing.
    Back,
    /// Switch to the given filter mode.
    SetMode(FilterMode),
}

/// The whole client-side state. Job records are immutable snapshots owned
/// here between refreshes; a refresh replaces the collection atomically.
pub struct App {
    /// The full job list from the last successful refresh.
    pub commands: Vec<Job>,
    /// Index of the highlighted row in the *filtered* list, if any.
    pub cursor: Option<usize>,
    /// The active filter mode.
    pub filter_mode: FilterMode,
    /// The detached snapshot shown in the detail view, when it is open.
    pub selected_command: Option<Job>,
}

impl App {
    /// The filtered view of the current job list under the active mode.
    pub open spec fn filtered(self) -> Seq<JobView> {
        spec_filtered(job_views(self.commands@), self.filter_mode)
    }

    /// The cursor invariant: it is `None` or a valid index into the
    /// filtered list (so it is `None` whenever that list is empty).
    pub open spec fn cursor_in_bounds(self) -> bool {
        self.cursor is Some ==> (self.cursor.unwrap() as int) < self.filtered().len()
    }

    /// Whether the detail view is open (navigation and mode switches are
    /// suspended while it is).
    pub open spec fn detail_open(self) -> bool {
        self.selected_command is Some
    }

    /// A fresh dashboard: no jobs yet, the default filter, nothing selected.
    pub fn new() -> (r: App)
        ensures
            r.commands@.len() == 0,
            r.cursor is None,
            r.filter_mode == FilterMode::Default,
            r.selected_command is None,
            r.cursor_in_bounds(),
    {
        App {
            commands: Vec::new(),
            cursor: None,
            filter_mode: FilterMode::Default,
            selected_command: None,
        }
    }

    /// The jobs currently visible: the full list reduced by the active
    /// filter mode, in source order.
    pub fn filtered_commands(&self) -> (r: Vec<Job>)
        ensures
            job_views(r@) == self.filtered(),
    {
        crate::filter::filter_jobs(&self.commands, self.filter_mode)
    }

    /// Highlight the next filtered row, wrapping to the first past the end.
    pub fn next(&mut self)
        ensures
            final(self).commands@ == old(self).commands@,
            final(self).filter_mode == old(self).filter_mode,
            final(self).selected_command == old(self).selected_command,
            final(self).cursor == spec_advance(old(self).cursor, old(self).filtered().len()),
            final(self).cursor_in_bounds(),
    {
        let count = self.filtered_commands().len();
        self.cursor = advance(self.cursor, count);
    }

    /// Highlight the previous filtered row, wrapping to the last from `0`.
    pub fn previous(&mut self)
        requires
            old(self).cursor_in_bounds(),
        ensures
            final(self).commands@ == old(self).commands@,
            final(self).filter_mode == old(self).filter_mode,
            final(self).selected_command == old(self).selected_command,
            final(self).cursor == spec_retreat(old(self).cursor, old(self).filtered().len()),
            final(self).cursor_in_bounds(),
    {
        let count = self.filtered_commands().len();
        self.cursor = retreat(self.cursor, count);
    }

    /// Switch the filter mode and reset the cursor to the first row of the
    /// newly filtered view, or to `None` if that view is empty.
    pub fn set_filter_mode(&mut self, mode: FilterMode)
        ensures
            final(self).commands@ == old(self).commands@,
            final(self).selected_command == old(self).selected_command,
            final(self).filter_mode == mode,
            final(self).cursor == (if final(self).filtered().len() > 0 {
                Some(0usize)
            } else {
                None::<usize>
            }),
            final(self).cursor_in_bounds(),
    {
        self.filter_mode = mode;
        let count = self.filtered_commands().len();
        self.cursor = if count > 0 {
            Some(0)
        } else {
            None
        };
    }

    /// Replace the whole job collection with a freshly fetched list ("last
    /// poll wins"). The cursor keeps its position when it is still valid
    /// against the new filtered view; a shrunken view clamps it to the last
    /// row, and an empty one clears it.
    pub fn apply_refresh(&mut self, jobs: Vec<Job>)
        ensures
            final(self).commands@ == jobs@,
            final(self).filter_mode == old(self).filter_mode,
            final(self).selected_command == old(self).selected_command,
            final(self).cursor == (match old(self).cursor {
                None => None::<usize>,
                Some(i) => if (i as int) < final(self).filtered().len() {
                    Some(i)
                } else if final(self).filtered().len() > 0 {
                    Some((final(self).filtered().len() - 1) as usize)
                } else {
                    None::<usize>
                },
            }),
            final(self).cursor_in_bounds(),
    {
        self.commands = jobs;
        let count = self.filtered_commands().len();
        self.cursor = match self.cursor {
            None => None,
            Some(i) => if i < count {
                Some(i)
            } else if count > 0 {
                Some(count - 1)
            } else {
                None
            },
        };
    }

    /// Capture the highlighted job as a detached snapshot and open the
    /// detail view on it; with no highlight, nothing changes.
    pub fn open_detail(&mut self)
        requires
            old(self).cursor_in_bounds(),
        ensures
            final(self).commands@ == old(self).commands@,
            final(self).filter_mode == old(self).filter_mode,
            final(self).cursor == old(self).cursor,
            match old(self).cursor {
                Some(i) => final(self).selected_command is Some
                    && final(self).selected_command.unwrap()@ == old(self).filtered()[i as int],
                None => final(self).selected_command == old(self).selected_command,
            },
            final(self).cursor_in_bounds(),
    {
        let filtered = self.filtered_commands();
        match self.cursor {
            Some(i) => {
                self.selected_command = Some(filtered[i].clone());
                proof {
                    assert(job_views(filtered@)[self.cursor.unwrap() as int] == filtered@[
                        self.cursor.unwrap() as int
                    ]@);
                }
            },
            None => {},
        }
    }

    /// Discard the detail snapshot and return to browsing.
    pub fn close_detail(&mut self)
        ensures
            final(self).commands@ == old(self).commands@,
            final(self).filter_mode == old(self).filter_mode,
            final(self).cursor == old(self).cursor,
            final(self).selected_command is None,
    {
        self.selected_command = None;
    }

    /// One input-driven transition of the state machine. Returns `true`
    /// exactly when the dashboard should terminate.
    ///
    /// While the detail view is open, `Confirm` and `Back` close it and
    /// every other input is ignored. While browsing, `Quit` terminates,
    /// `MoveNext`/`MovePrev` move the cursor with wraparound, `Confirm`
    /// captures the highlighted job into the detail view, `Back` does
    /// nothing, and `SetMode` switches the filter and resets the cursor.
    pub fn handle_input(&mut self, ev: InputEvent) -> (quit: bool)
        requires
            old(self).cursor_in_bounds(),
        ensures
            final(self).cursor_in_bounds(),
            final(self).commands@ == old(self).commands@,
            quit ==> *final(self) == *old(self),
            quit == (!old(self).detail_open() && ev is Quit),
            old(self).detail_open() ==> match ev {
                InputEvent::Confirm | InputEvent::Back => {
                    &&& final(self).selected_command is None
                    &&& final(self).cursor == old(self).cursor
                    &&& final(self).filter_mode == old(self).filter_mode
                },
                _ => *final(self) == *old(self),
            },
            !old(self).detail_open() ==> match ev {
                InputEvent::Quit => *final(self) == *old(self),
                InputEvent::MoveNext => {
                    &&& final(self).cursor == spec_advance(
                        old(self).cursor,
                        old(self).filtered().len(),
                    )
                    &&& final(self).filter_mode == old(self).filter_mode
                    &&& final(self).selected_command == old(self).selected_command
                },
                InputEvent::MovePrev => {
                    &&& final(self).cursor == spec_retreat(
                        old(self).cursor,
                        old(self).filtered().len(),
                    )
                    &&& final(self).filter_mode == old(self).filter_mode
                    &&& final(self).selected_command == old(self).selected_command
                },
                InputEvent::Confirm => {
                    &&& final(self).cursor == old(self).cursor
                    &&& final(self).filter_mode == old(self).filter_mode
                    &&& match old(self).cursor {
                        Some(i) => final(self).selected_command is Some
                            && final(self).selected_command.unwrap()@ == old(self).filtered()[i as int],
                        None => final(self).selected_command is None,
                    }
                },
                InputEvent::Back => *final(self) == *old(self),
                InputEvent::SetMode(mode) => {
                    &&& final(self).filter_mode == mode
                    &&& final(self).selected_command == old(self).selected_command
                    &&& final(self).cursor == (if final(self).filtered().len() > 0 {
                        Some(0usize)
                    } else {
                        None::<usize>
                    })
                },
            },
    {
        if self.selected_command.is_some() {
            match ev {
                InputEvent::Confirm | InputEvent::Back => {
                    self.close_detail();
                },
                _ => {},
            }
            false
        } else {
            match ev {
                InputEvent::Quit => true,
                InputEvent::MoveNext => {
                    self.next();
                    false
                },
                InputEvent::MovePrev => {
                    self.previous();
                    false
                },
                InputEvent::Confirm => {
                    self.open_detail();
                    false
                },
                InputEvent::Back => false,
                InputEvent::SetMode(mode) => {
                    self.set_filter_mode(mode);
                    false
                },
            }
        }
    }
}

} // verus!
