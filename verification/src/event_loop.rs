//! The control loop as a state machine.
//!
//! The loop draws a frame, waits for a key until the next snapshot is due,
//! acts on the key, reads the process table again if it is time, and starts
//! over until the operator quits. Everything that touches the outside world is
//! done by the program that drives the machine: the machine hands it a
//! [`Request`], the program carries it out and answers with the matching
//! [`Event`] and the present reading of its clock.

use crate::input::{binding, command_for, Command, Key};
use crate::process::ProcessTable;
use crate::state::{lemma_state_stays_wf, App, AppView};
use vstd::prelude::*;

verus! {

/// The two states of the loop. There is no way back from `Terminating`.
#[derive(Clone, Copy, Debug, PartialEq, Eq, Structural)]
pub enum Mode {
    /// The loop goes round.
    Running,
    /// The operator has quit: the loop finishes its round and leaves.
    Terminating,
}

/// What the machine asks the driving program to do next.
#[derive(Clone, Copy, Debug, PartialEq, Eq, Structural)]
pub enum Request {
    /// Draw one frame from the present state.
    Draw,
    /// Wait for one key, for `timeout` nanoseconds at most.
    Poll { timeout: u64 },
    /// Ask the operating system to terminate the process `pid`.
    Terminate { pid: u32 },
    /// Read the process table.
    Snapshot,
    /// Give the terminal back.
    Release,
    /// Leave: nothing is left to do.
    Exit,
}

/// What the driving program reports back.
#[derive(Clone, Debug, PartialEq, Eq)]
pub enum Event {
    /// The frame was drawn.
    Drawn,
    /// A key arrived within the wait.
    Key(Key),
    /// The wait ended without a key.
    Idle,
    /// The termination was asked for; the flag says whether the operating
    /// system accepted it, which changes nothing for the loop.
    Terminated(bool),
    /// The process table as it was just read.
    Snapshot(ProcessTable),
    /// The terminal was given back.
    Released,
}

/// Mathematical model of the loop: the application state, the state of the
/// loop, and the request that the driving program is working on.
pub struct LoopView {
    pub app: AppView,
    pub mode: Mode,
    pub pending: Request,
}

impl LoopView {
    /// What holds of every state that the loop can reach.
    pub open spec fn wf(self) -> bool {
        &&& self.app.wf()
        &&& (self.pending is Release || self.pending is Exit) ==> self.mode is Terminating
        &&& self.pending matches Request::Terminate { pid } ==> self.app.kill_target() == Some(pid)
        &&& self.pending matches Request::Poll { timeout } ==> timeout <= self.app.scheduler.interval
    }

    /// The loop at its start: running, with the first frame to draw.
    pub open spec fn initial(app: AppView) -> LoopView {
        LoopView { app, mode: Mode::Running, pending: Request::Draw }
    }

    /// The end of a round: a terminating loop gives the terminal back, a
    /// running one draws the next frame.
    pub open spec fn next_round(self) -> LoopView {
        LoopView {
            pending: if self.mode is Terminating {
                Request::Release
            } else {
                Request::Draw
            },
            ..self
        }
    }

    /// The check of the clock that every round makes, key or no key: a
    /// snapshot if one is due, else the end of the round.
    pub open spec fn check_tick(self, now: nat) -> LoopView {
        if self.app.scheduler.due(now) {
            LoopView { pending: Request::Snapshot, ..self }
        } else {
            self.next_round()
        }
    }

    /// The effect of one key, by the command bound to it. A kill with a
    /// highlighted row asks for the termination of that row's process; every
    /// other command is carried out at once and followed by the check of the
    /// clock.
    pub open spec fn dispatch(self, key: Key, now: nat) -> LoopView {
        match binding(key) {
            Command::Quit => LoopView { mode: Mode::Terminating, ..self }.check_tick(now),
            Command::SelectNext => LoopView { app: self.app.next(), ..self }.check_tick(now),
            Command::SelectPrevious => LoopView { app: self.app.previous(), ..self }.check_tick(now),
            Command::Kill => match self.app.kill_target() {
                Some(pid) => LoopView { pending: Request::Terminate { pid }, ..self },
                None => self.check_tick(now),
            },
            Command::Ignore => self.check_tick(now),
        }
    }

    /// One transition: the state after `event` was reported at `now`. An event
    /// that does not answer the pending request changes nothing.
    pub open spec fn step(self, event: Event, now: nat) -> LoopView {
        match (self.pending, event) {
            (Request::Draw, Event::Drawn) => LoopView {
                pending: Request::Poll { timeout: self.app.scheduler.remaining(now) as u64 },
                ..self
            },
            (Request::Poll { .. }, Event::Key(key)) => self.dispatch(key, now),
            (Request::Poll { .. }, Event::Idle) => self.check_tick(now),
            (Request::Terminate { .. }, Event::Terminated(_)) => self.check_tick(now),
            (Request::Snapshot, Event::Snapshot(table)) => LoopView {
                app: self.app.refresh(table@, now),
                ..self
            }.next_round(),
            (Request::Release, Event::Released) => LoopView { pending: Request::Exit, ..self },
            _ => self,
        }
    }

    /// The state after a whole run of reports, each with the clock reading
    /// that came with it, taken in order.
    pub open spec fn run(self, reports: Seq<(Event, nat)>) -> LoopView
        decreases reports.len(),
    {
        if reports.len() == 0 {
            self
        } else {
            self.run(reports.drop_last()).step(reports.last().0, reports.last().1)
        }
    }

    /// How many times the run has asked for the terminal to be given back:
    /// the number of its steps that led from another request to `Release`.
    pub open spec fn releases(self, reports: Seq<(Event, nat)>) -> nat
        decreases reports.len(),
    {
        if reports.len() == 0 {
            0
        } else {
            let before = self.run(reports.drop_last());
            let after = before.step(reports.last().0, reports.last().1);
            let asked: nat = if after.pending is Release && !(before.pending is Release) {
                1
            } else {
                0
            };
            self.releases(reports.drop_last()) + asked
        }
    }
}

/// Whatever is reported and whenever, the loop stays in a state in which the
/// selection lies inside the table, a termination is only ever asked for the
/// process of the highlighted row, and the terminal is given back only by a
/// terminating loop.
pub proof fn lemma_step_stays_wf(s: LoopView, event: Event, now: nat)
    requires
        s.wf(),
    ensures
        s.step(event, now).wf(),
{
    lemma_state_stays_wf(s.app, Seq::empty(), now);
    if let Event::Snapshot(table) = event {
        lemma_state_stays_wf(s.app, table@, now);
    }
}

/// A terminating loop never runs again.
pub proof fn lemma_terminating_is_final(s: LoopView, event: Event, now: nat)
    requires
        s.mode is Terminating,
    ensures
        s.step(event, now).mode is Terminating,
{
}

/// Once the loop has asked to leave, nothing changes any more.
pub proof fn lemma_exit_is_final(s: LoopView, event: Event, now: nat)
    requires
        s.pending is Exit,
    ensures
        s.step(event, now) == s,
{
}

/// Every state of every run from the start is well-formed.
pub proof fn lemma_run_stays_wf(s: LoopView, reports: Seq<(Event, nat)>)
    requires
        s.wf(),
    ensures
        s.run(reports).wf(),
    decreases reports.len(),
{
    if reports.len() > 0 {
        lemma_run_stays_wf(s, reports.drop_last());
        lemma_step_stays_wf(s.run(reports.drop_last()), reports.last().0, reports.last().1);
    }
}

/// In every run of a loop that has not yet asked for the terminal back, the
/// terminal is asked back at most once: not at all while the loop still goes
/// round, and exactly once by the time the loop waits for the release or has
/// left.
pub proof fn lemma_terminal_released_once(s: LoopView, reports: Seq<(Event, nat)>)
    requires
        !(s.pending is Release),
        !(s.pending is Exit),
    ensures
        s.releases(reports) == if s.run(reports).pending is Release || s.run(reports).pending
            is Exit {
            1nat
        } else {
            0nat
        },
    decreases reports.len(),
{
    if reports.len() > 0 {
        lemma_terminal_released_once(s, reports.drop_last());
    }
}

/// The quit key, whenever the loop waits for a key, makes the loop
/// terminating and leaves the application state as it is.
pub proof fn lemma_quit_terminates(s: LoopView, now: nat)
    requires
        s.pending is Poll,
    ensures
        s.step(Event::Key(Key::Char('q')), now).mode is Terminating,
        s.step(Event::Key(Key::Char('q')), now).app == s.app,
{
}

/// After the quit key the loop finishes its round and leaves: it takes the
/// snapshot if one is due, asks for the terminal back, and asks to leave once
/// the terminal was given back.
pub proof fn lemma_quit_leads_to_exit(s: LoopView, now: nat, table: ProcessTable, later: nat)
    requires
        s.pending is Poll,
    ensures
        ({
            let quit = s.step(Event::Key(Key::Char('q')), now);
            let round_done = if s.app.scheduler.due(now) {
                quit.step(Event::Snapshot(table), later)
            } else {
                quit
            };
            &&& quit.pending == if s.app.scheduler.due(now) {
                Request::Snapshot
            } else {
                Request::Release
            }
            &&& round_done.pending is Release
            &&& round_done.step(Event::Released, later).pending is Exit
        }),
{
}

/// With nothing highlighted no step asks for a termination, whatever key or
/// other event is reported.
pub proof fn lemma_no_selection_no_termination(s: LoopView, event: Event, now: nat)
    requires
        s.wf(),
        s.app.selection.index is None,
    ensures
        !(s.step(event, now).pending is Terminate),
{
}

/// The kill key with a highlighted row asks for the termination of the process
/// in that row of the table at hand, and changes nothing else.
pub proof fn lemma_kill_targets_selected_row(s: LoopView, now: nat)
    requires
        s.wf(),
        s.pending is Poll,
        s.app.selection.index is Some,
    ensures
        s.step(Event::Key(Key::Char('k')), now) == (LoopView {
            pending: Request::Terminate { pid: s.app.table[s.app.selection.index->0 as int].pid },
            ..s
        }),
{
}

/// Whether the termination succeeded makes no difference to the loop.
pub proof fn lemma_kill_outcome_is_ignored(s: LoopView, now: nat)
    ensures
        s.step(Event::Terminated(true), now) == s.step(Event::Terminated(false), now),
        s.step(Event::Terminated(false), now).app == s.app,
        s.step(Event::Terminated(false), now).mode == s.mode,
{
}

/// A due snapshot is never skipped: when the wait for a key ends while a
/// snapshot is due, the next request is the snapshot, unless the key was a
/// kill that has a process to terminate first, after which the snapshot
/// follows.
pub proof fn lemma_due_snapshot_is_taken(s: LoopView, event: Event, now: nat)
    requires
        s.app.scheduler.due(now),
        (s.pending is Poll && (event is Key || event is Idle)) || (s.pending is Terminate
            && event is Terminated),
    ensures
        s.step(event, now).pending is Snapshot || s.step(event, now).pending is Terminate,
        s.pending is Terminate ==> s.step(event, now).pending is Snapshot,
        event is Idle ==> s.step(event, now).pending is Snapshot,
{
}

/// The control loop: the application state together with the state of the
/// loop and the request that is under way.
pub struct EventLoop {
    app: App,
    mode: Mode,
    pending: Request,
}

impl View for EventLoop {
    type V = LoopView;

    closed spec fn view(&self) -> LoopView {
        LoopView { app: self.app@, mode: self.mode, pending: self.pending }
    }
}

impl EventLoop {
    #[verifier::type_invariant]
    spec fn inv(self) -> bool {
        self@.wf()
    }

    /// The loop at its start, around the state that the first snapshot gave.
    /// The first request is to draw.
    pub fn new(app: App) -> (machine: EventLoop)
        ensures
            machine@ == LoopView::initial(app@),
            machine@.wf(),
    {
        proof {
            use_type_invariant(&app);
        }
        EventLoop { app, mode: Mode::Running, pending: Request::Draw }
    }

    /// The application state, for drawing.
    pub fn app(&self) -> (app: &App)
        ensures
            app@ == self@.app,
    {
        &self.app
    }

    /// The state of the loop.
    pub fn mode(&self) -> (mode: Mode)
        ensures
            mode == self@.mode,
    {
        self.mode
    }

    /// The request that the driving program has to carry out next.
    pub fn pending(&self) -> (request: Request)
        ensures
            request == self@.pending,
    {
        self.pending
    }

    fn next_round(&mut self)
        ensures
            final(self)@ == old(self)@.next_round(),
    {
        proof {
            use_type_invariant(&*self);
        }
        self.pending = match self.mode {
            Mode::Terminating => Request::Release,
            Mode::Running => Request::Draw,
        };
    }

    fn check_tick(&mut self, now: u64)
        ensures
            final(self)@ == old(self)@.check_tick(now as nat),
    {
        proof {
            use_type_invariant(&*self);
        }
        if self.app.refresh_due(now) {
            self.pending = Request::Snapshot;
        } else {
            self.next_round();
        }
    }

    fn dispatch(&mut self, key: Key, now: u64)
        requires
            old(self)@.pending is Poll,
        ensures
            final(self)@ == old(self)@.dispatch(key, now as nat),
    {
        proof {
            use_type_invariant(&*self);
        }
        match command_for(key) {
            Command::Quit => {
                self.mode = Mode::Terminating;
                self.check_tick(now);
            },
            Command::SelectNext => {
                self.app.next();
                self.check_tick(now);
            },
            Command::SelectPrevious => {
                self.app.previous();
                self.check_tick(now);
            },
            Command::Kill => match self.app.kill() {
                Some(pid) => {
                    self.pending = Request::Terminate { pid };
                },
                None => {
                    self.check_tick(now);
                },
            },
            Command::Ignore => {
                self.check_tick(now);
            },
        }
    }

    /// Takes the report of the driving program, made at `now`, and says what
    /// it has to do next. A report that does not answer the pending request
    /// is ignored, and the pending request is returned again.
    pub fn step(&mut self, event: Event, now: u64) -> (request: Request)
        ensures
            final(self)@ == old(self)@.step(event, now as nat),
            request == final(self)@.pending,
            final(self)@.wf(),
    {
        proof {
            use_type_invariant(&*self);
            lemma_step_stays_wf(self@, event, now as nat);
        }
        match self.pending {
            Request::Draw => match event {
                Event::Drawn => {
                    self.pending = Request::Poll { timeout: self.app.timeout(now) };
                },
                _ => {},
            },
            Request::Poll { .. } => match event {
                Event::Key(key) => {
                    self.dispatch(key, now);
                },
                Event::Idle => {
                    self.check_tick(now);
                },
                _ => {},
            },
            Request::Terminate { .. } => match event {
                Event::Terminated(_) => {
                    self.check_tick(now);
                },
                _ => {},
            },
            Request::Snapshot => match event {
                Event::Snapshot(table) => {
                    self.app.refresh(table, now);
                    self.next_round();
                },
                _ => {},
            },
            Request::Release => match event {
                Event::Released => {
                    self.pending = Request::Exit;
                },
                _ => {},
            },
            Request::Exit => {},
        }
        self.pending
    }
}

} // verus!
