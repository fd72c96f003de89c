//! The application state: the process table of the last snapshot, the
//! selection in it and the refresh schedule.

use crate::process::{ProcessRecord, ProcessTable};
use crate::scheduler::{RefreshScheduler, SchedulerView, DEFAULT_INTERVAL};
use crate::selection::{lemma_selection_stays_in_list, Selection, SelectionView};
use vstd::prelude::*;

verus! {

/// Mathematical model of the application state.
pub struct AppView {
    /// The rows of the last snapshot, in the order in which it gave them.
    pub table: Seq<ProcessRecord>,
    /// The selection in that table.
    pub selection: SelectionView,
    /// The refresh schedule.
    pub scheduler: SchedulerView,
}

impl AppView {
    /// The selection speaks of the table at hand, and a highlighted row is a
    /// row of it.
    pub open spec fn wf(self) -> bool {
        &&& self.selection.rows == self.table.len()
        &&& self.selection.wf()
    }

    /// The state right after the first snapshot, taken at `now`: nothing is
    /// highlighted.
    pub open spec fn initial(table: Seq<ProcessRecord>, interval: nat, now: nat) -> AppView {
        AppView {
            table,
            selection: SelectionView::unset(table.len()),
            scheduler: SchedulerView { interval, last_tick: now },
        }
    }

    /// The state after the selection has moved one row down.
    pub open spec fn next(self) -> AppView {
        AppView { selection: self.selection.advance(), ..self }
    }

    /// The state after the selection has moved one row up.
    pub open spec fn previous(self) -> AppView {
        AppView { selection: self.selection.retreat(), ..self }
    }

    /// The process that a kill is aimed at: the one in the highlighted row of
    /// the table at hand, and none where nothing is highlighted.
    pub open spec fn kill_target(self) -> Option<u32> {
        match self.selection.index {
            Some(i) => Some(self.table[i as int].pid),
            None => None,
        }
    }

    /// The state after a snapshot taken at `now`: the table is replaced as a
    /// whole, a highlighted row that the new table lacks is dropped, and the
    /// interval starts anew.
    pub open spec fn refresh(self, table: Seq<ProcessRecord>, now: nat) -> AppView {
        AppView {
            table,
            selection: self.selection.resize(table.len()),
            scheduler: self.scheduler.reset(now),
        }
    }
}

/// Every operation leaves the selection inside the table.
pub proof fn lemma_state_stays_wf(s: AppView, table: Seq<ProcessRecord>, now: nat)
    requires
        s.wf(),
    ensures
        s.next().wf(),
        s.previous().wf(),
        s.refresh(table, now).wf(),
{
    lemma_selection_stays_in_list(s.selection, table.len());
}

/// After a snapshot whose table is too short for the highlighted row, nothing
/// is highlighted; a row that the new table still has stays highlighted.
pub proof fn lemma_refresh_drops_stale_selection(s: AppView, table: Seq<ProcessRecord>, now: nat)
    requires
        s.wf(),
        s.selection.index is Some,
    ensures
        s.selection.index->0 >= table.len() ==> s.refresh(table, now).selection.index is None,
        s.selection.index->0 < table.len() ==> s.refresh(table, now).selection.index
            == s.selection.index,
{
}

/// A kill with nothing highlighted is aimed at no process, and one with a
/// highlighted row at the process of that row.
pub proof fn lemma_kill_needs_selection(s: AppView)
    requires
        s.wf(),
    ensures
        s.selection.index is None <==> s.kill_target() is None,
        s.selection.index matches Some(i) ==> s.kill_target() == Some(s.table[i as int].pid),
{
}

/// The one mutable entity of the program: the process table, the selection
/// and the time of the last snapshot.
pub struct App {
    table: ProcessTable,
    selection: Selection,
    scheduler: RefreshScheduler,
}

impl View for App {
    type V = AppView;

    closed spec fn view(&self) -> AppView {
        AppView { table: self.table@, selection: self.selection@, scheduler: self.scheduler@ }
    }
}

impl App {
    #[verifier::type_invariant]
    pub(crate) open spec fn inv(self) -> bool {
        self@.wf()
    }

    /// The state after the first snapshot, taken at `now`, with the default
    /// interval of one second.
    pub fn new(table: ProcessTable, now: u64) -> (app: App)
        ensures
            app@ == AppView::initial(table@, DEFAULT_INTERVAL as nat, now as nat),
            app@.wf(),
    {
        App::with_interval(table, DEFAULT_INTERVAL, now)
    }

    /// The state after the first snapshot, taken at `now`, with an interval of
    /// the caller's choice.
    pub fn with_interval(table: ProcessTable, interval: u64, now: u64) -> (app: App)
        ensures
            app@ == AppView::initial(table@, interval as nat, now as nat),
            app@.wf(),
    {
        let selection = Selection::new(table.len());
        App { table, selection, scheduler: RefreshScheduler::new(interval, now) }
    }

    /// The rows of the last snapshot.
    pub fn table(&self) -> (table: &ProcessTable)
        ensures
            table@ == self@.table,
    {
        &self.table
    }

    /// The highlighted row, which is always a row of the table.
    pub fn selected(&self) -> (row: Option<usize>)
        ensures
            match row {
                Some(i) => self@.selection.index == Some(i as nat) && i < self@.table.len(),
                None => self@.selection.index is None,
            },
    {
        proof {
            use_type_invariant(self);
        }
        self.selection.current()
    }

    /// Moves the selection one row down, wrapping to the first row.
    pub fn next(&mut self)
        ensures
            final(self)@ == old(self)@.next(),
            final(self)@.wf(),
            old(self)@.table.len() == 0 ==> final(self)@ == old(self)@,
        no_unwind
    {
        proof {
            use_type_invariant(&*self);
            lemma_selection_stays_in_list(self@.selection, 0);
        }
        self.selection.advance();
    }

    /// Moves the selection one row up, wrapping to the last row.
    pub fn previous(&mut self)
        ensures
            final(self)@ == old(self)@.previous(),
            final(self)@.wf(),
            old(self)@.table.len() == 0 ==> final(self)@ == old(self)@,
        no_unwind
    {
        proof {
            use_type_invariant(&*self);
            lemma_selection_stays_in_list(self@.selection, 0);
        }
        self.selection.retreat();
    }

    /// Resolves a kill: the id of the process in the highlighted row of the
    /// table at hand, which the caller asks the operating system to terminate.
    /// With nothing highlighted there is no such process and nothing to ask.
    pub fn kill(&self) -> (target: Option<u32>)
        ensures
            target == self@.kill_target(),
            self@.selection.index is None ==> target is None,
    {
        match self.selected() {
            Some(i) => Some(self.table[i].pid),
            None => None,
        }
    }

    /// Takes in the snapshot made at `now`: the table is replaced as a whole,
    /// the selection is dropped where its row is gone, and the interval starts
    /// anew.
    pub fn refresh(&mut self, table: ProcessTable, now: u64)
        ensures
            final(self)@ == old(self)@.refresh(table@, now as nat),
            final(self)@.wf(),
            old(self)@.selection.index matches Some(i) && i >= table@.len()
                ==> final(self)@.selection.index is None,
        no_unwind
    {
        proof {
            use_type_invariant(&*self);
            lemma_selection_stays_in_list(self@.selection, table@.len());
        }
        let mut selection = self.selection;
        selection.resize(table.len());
        let mut scheduler = self.scheduler;
        scheduler.reset(now);
        *self = App { table, selection, scheduler };
    }

    /// The longest that the loop may wait for a key at `now`: the time left
    /// until the next snapshot is due, floored at zero.
    pub fn timeout(&self, now: u64) -> (wait: u64)
        ensures
            wait == self@.scheduler.remaining(now as nat),
    {
        self.scheduler.remaining(now)
    }

    /// Whether the next snapshot is due at `now`.
    pub fn refresh_due(&self, now: u64) -> (due: bool)
        ensures
            due == self@.scheduler.due(now as nat),
    {
        self.scheduler.is_due(now)
    }
}

} // verus!
