//! The render loop and the terminal session around it.
//!
//! The loop is written as a machine that is told what happened and answers
//! what to do next. The caller owns the terminal and the keyboard: it performs
//! the action the machine asks for and reports the event that came of it. The
//! machine makes sure that a terminal that was acquired is released once, on
//! every way out, and that nothing is drawn outside an acquired terminal.

use crate::channel::{drain_latest, DrainReport};
use crate::snapshot::latest;
use vstd::prelude::*;

verus! {

/// The key that ends the render loop.
pub const QUIT_KEY: char = 'q';

/// How long one poll of the keyboard may wait, in milliseconds. It paces the
/// frames as well, so it is neither zero nor long.
pub const POLL_INTERVAL_MS: u64 = 16;

/// The two states of the render loop.
#[derive(Clone, Copy, Debug, PartialEq, Eq, Structural)]
pub enum LoopState {
    /// Frames are being drawn.
    Running,
    /// The loop is over; what is left is to give the terminal back.
    Quitting,
}

/// A failure of the drawing surface or of the keyboard. Either ends the loop.
#[derive(Clone, Copy, Debug, PartialEq, Eq, Structural)]
pub enum RenderError {
    /// A frame could not be drawn.
    Draw,
    /// The keyboard could not be polled or read.
    Input,
}

/// Why the render loop was left.
#[derive(Clone, Copy, Debug, PartialEq, Eq, Structural)]
pub enum ExitCause {
    /// The quit key was pressed.
    UserQuit,
    /// Drawing or input failed.
    Fatal(RenderError),
}

/// How the program ended.
#[derive(Clone, Copy, Debug, PartialEq, Eq, Structural)]
pub enum Outcome {
    /// The user quit and the terminal was given back.
    UserQuit,
    /// The terminal could not be put into raw mode on the alternate screen.
    /// Nothing was drawn.
    TerminalInit,
    /// Drawing or input failed while the loop ran.
    Render(RenderError),
    /// The user quit, but the terminal could not be given back.
    Restore,
}

/// A key, as far as the loop can tell keys apart.
#[derive(Clone, Copy, Debug, PartialEq, Eq, Structural)]
pub enum Key {
    /// A character key.
    Char(char),
    /// Any other key.
    Other,
}

/// What one bounded poll of the input device brought.
#[derive(Clone, Copy, Debug, PartialEq, Eq, Structural)]
pub enum Input {
    /// Nothing happened within the interval.
    Idle,
    /// A key event.
    Key(Key),
    /// An event that is no key event.
    Other,
    /// The input device failed.
    Failed,
}

/// Where the program stands.
#[derive(Clone, Copy, Debug, PartialEq, Eq, Structural)]
pub enum Phase {
    /// The terminal has not been acquired yet.
    Starting,
    /// In a frame, about to take what the channel holds.
    Draining,
    /// In a frame, about to redraw.
    Drawing,
    /// In a frame, about to poll the keyboard.
    Polling,
    /// The loop is over and the terminal is still held.
    Releasing(ExitCause),
    /// The terminal is not held and nothing is left to do.
    Finished(Outcome),
}

/// What the caller reports back.
#[derive(Clone, Copy, Debug, PartialEq, Eq, Structural)]
pub enum Event {
    /// Raw mode is on and the alternate screen is showing.
    Acquired,
    /// The terminal could not be acquired; it is in the mode it was found in.
    AcquireFailed,
    /// The channel was drained.
    Drained,
    /// A frame was drawn.
    Drawn,
    /// A frame could not be drawn.
    DrawFailed,
    /// The poll of the input device ended.
    Polled(Input),
    /// The terminal is back in the mode it was found in.
    Released,
    /// Giving the terminal back was tried and failed.
    ReleaseFailed,
}

/// What the caller is to do next.
#[derive(Clone, Copy, Debug, PartialEq, Eq, Structural)]
pub enum Action {
    /// Turn raw mode on and switch to the alternate screen.
    AcquireTerminal,
    /// Take what the channel holds, without waiting.
    DrainChannel,
    /// Redraw the whole frame from the held dataset.
    DrawFrame,
    /// Wait for one input event, `POLL_INTERVAL_MS` at most.
    PollInput,
    /// Turn raw mode off and go back to the primary screen.
    ReleaseTerminal,
    /// Leave the process with this exit code.
    Exit(u8),
}

/// Whether the input is a press of the quit key.
pub open spec fn is_quit(input: Input) -> bool {
    input == Input::Key(Key::Char(QUIT_KEY))
}

/// The phase after a poll in a running frame: the quit key and a failed
/// device end the loop, everything else starts the next frame.
pub open spec fn after_poll(input: Input) -> Phase {
    if is_quit(input) {
        Phase::Releasing(ExitCause::UserQuit)
    } else if input is Failed {
        Phase::Releasing(ExitCause::Fatal(RenderError::Input))
    } else {
        Phase::Draining
    }
}

/// How the program ends once the release of the terminal was tried.
pub open spec fn outcome_of(cause: ExitCause, released: bool) -> Outcome {
    match cause {
        ExitCause::Fatal(error) => Outcome::Render(error),
        ExitCause::UserQuit => if released {
            Outcome::UserQuit
        } else {
            Outcome::Restore
        },
    }
}

/// The phase that follows `phase` on `event`. An event that does not answer
/// the action of the phase changes nothing.
pub open spec fn next_phase(phase: Phase, event: Event) -> Phase {
    match (phase, event) {
        (Phase::Starting, Event::Acquired) => Phase::Draining,
        (Phase::Starting, Event::AcquireFailed) => Phase::Finished(Outcome::TerminalInit),
        (Phase::Draining, Event::Drained) => Phase::Drawing,
        (Phase::Drawing, Event::Drawn) => Phase::Polling,
        (Phase::Drawing, Event::DrawFailed) => Phase::Releasing(
            ExitCause::Fatal(RenderError::Draw),
        ),
        (Phase::Polling, Event::Polled(input)) => after_poll(input),
        (Phase::Releasing(cause), Event::Released) => Phase::Finished(outcome_of(cause, true)),
        (Phase::Releasing(cause), Event::ReleaseFailed) => Phase::Finished(
            outcome_of(cause, false),
        ),
        _ => phase,
    }
}

/// The exit code of an outcome: zero for a quit by the user, one otherwise.
pub open spec fn exit_code_of(outcome: Outcome) -> u8 {
    if outcome is UserQuit {
        0
    } else {
        1
    }
}

/// The action a phase asks for.
pub open spec fn action_of(phase: Phase) -> Action {
    match phase {
        Phase::Starting => Action::AcquireTerminal,
        Phase::Draining => Action::DrainChannel,
        Phase::Drawing => Action::DrawFrame,
        Phase::Polling => Action::PollInput,
        Phase::Releasing(_) => Action::ReleaseTerminal,
        Phase::Finished(outcome) => Action::Exit(exit_code_of(outcome)),
    }
}

/// The state of the render loop in a phase. The loop starts out running.
pub open spec fn state_of(phase: Phase) -> LoopState {
    match phase {
        Phase::Releasing(_) | Phase::Finished(_) => LoopState::Quitting,
        _ => LoopState::Running,
    }
}

/// Whether the terminal is in raw mode on the alternate screen.
pub open spec fn holds_terminal(phase: Phase) -> bool {
    phase is Draining || phase is Drawing || phase is Polling || phase is Releasing
}

/// The phase reached from `phase` after `events`, in order.
pub open spec fn run(phase: Phase, events: Seq<Event>) -> Phase
    decreases events.len(),
{
    if events.len() == 0 {
        phase
    } else {
        run(next_phase(phase, events[0]), events.skip(1))
    }
}

/// Whether `event`, arriving in `phase`, reports a release of the terminal
/// that the machine had asked for.
pub open spec fn release_reported(phase: Phase, event: Event) -> bool {
    phase is Releasing && (event is Released || event is ReleaseFailed)
}

/// How often the terminal was released on the way from `phase` through
/// `events`.
pub open spec fn releases(phase: Phase, events: Seq<Event>) -> nat
    decreases events.len(),
{
    if events.len() == 0 {
        0
    } else {
        let later = releases(next_phase(phase, events[0]), events.skip(1));
        if release_reported(phase, events[0]) {
            later + 1
        } else {
            later
        }
    }
}

/// The exit code of an outcome.
pub fn exit_code(outcome: Outcome) -> (code: u8)
    ensures
        code == exit_code_of(outcome),
        code == 0 <==> outcome is UserQuit,
{
    match outcome {
        Outcome::UserQuit => 0,
        _ => 1,
    }
}

/// The phase that follows `phase` on `event`.
pub fn advance(phase: Phase, event: Event) -> (next: Phase)
    ensures
        next == next_phase(phase, event),
{
    match (phase, event) {
        (Phase::Starting, Event::Acquired) => Phase::Draining,
        (Phase::Starting, Event::AcquireFailed) => Phase::Finished(Outcome::TerminalInit),
        (Phase::Draining, Event::Drained) => Phase::Drawing,
        (Phase::Drawing, Event::Drawn) => Phase::Polling,
        (Phase::Drawing, Event::DrawFailed) => Phase::Releasing(
            ExitCause::Fatal(RenderError::Draw),
        ),
        (Phase::Polling, Event::Polled(input)) => match input {
            Input::Key(Key::Char(key)) => if key == QUIT_KEY {
                Phase::Releasing(ExitCause::UserQuit)
            } else {
                Phase::Draining
            },
            Input::Failed => Phase::Releasing(ExitCause::Fatal(RenderError::Input)),
            _ => Phase::Draining,
        },
        (Phase::Releasing(cause), Event::Released) => match cause {
            ExitCause::UserQuit => Phase::Finished(Outcome::UserQuit),
            ExitCause::Fatal(error) => Phase::Finished(Outcome::Render(error)),
        },
        (Phase::Releasing(cause), Event::ReleaseFailed) => match cause {
            ExitCause::UserQuit => Phase::Finished(Outcome::Restore),
            ExitCause::Fatal(error) => Phase::Finished(Outcome::Render(error)),
        },
        _ => phase,
    }
}

/// The action a phase asks for.
pub fn action_for(phase: Phase) -> (action: Action)
    ensures
        action == action_of(phase),
{
    match phase {
        Phase::Starting => Action::AcquireTerminal,
        Phase::Draining => Action::DrainChannel,
        Phase::Drawing => Action::DrawFrame,
        Phase::Polling => Action::PollInput,
        Phase::Releasing(_) => Action::ReleaseTerminal,
        Phase::Finished(outcome) => Action::Exit(exit_code(outcome)),
    }
}

/// The state of the render loop in a phase.
pub fn loop_state(phase: Phase) -> (state: LoopState)
    ensures
        state == state_of(phase),
{
    match phase {
        Phase::Releasing(_) | Phase::Finished(_) => LoopState::Quitting,
        _ => LoopState::Running,
    }
}

/// Whether the terminal is held in a phase, and so has to be released before
/// the process is left.
pub fn terminal_held(phase: Phase) -> (held: bool)
    ensures
        held == holds_terminal(phase),
{
    match phase {
        Phase::Draining | Phase::Drawing | Phase::Polling | Phase::Releasing(_) => true,
        _ => false,
    }
}

/// The render loop: the phase it is in and the one dataset it holds.
pub struct RenderLoop<D> {
    held: D,
    phase: Phase,
}

impl<D> RenderLoop<D> {
    /// The dataset currently held.
    pub closed spec fn held_spec(&self) -> D {
        self.held
    }

    /// The phase the loop is in.
    pub closed spec fn phase_spec(&self) -> Phase {
        self.phase
    }

    /// A loop that has not started, holding `initial`.
    pub fn new(initial: D) -> (fresh: Self)
        ensures
            fresh.held_spec() == initial,
            fresh.phase_spec() == Phase::Starting,
    {
        RenderLoop { held: initial, phase: Phase::Starting }
    }

    /// The dataset to draw.
    pub fn held(&self) -> (held: &D)
        ensures
            *held == self.held_spec(),
    {
        &self.held
    }

    /// The phase the loop is in.
    pub fn phase(&self) -> (phase: Phase)
        ensures
            phase == self.phase_spec(),
    {
        self.phase
    }

    /// Whether the loop is running or quitting.
    pub fn state(&self) -> (state: LoopState)
        ensures
            state == state_of(self.phase_spec()),
    {
        loop_state(self.phase)
    }

    /// What the caller is to do next.
    pub fn action(&self) -> (action: Action)
        ensures
            action == action_of(self.phase_spec()),
    {
        action_for(self.phase)
    }

    /// Takes note of what the caller reports. The held dataset stays as it
    /// is.
    pub fn handle(&mut self, event: Event)
        ensures
            final(self).phase_spec() == next_phase(old(self).phase_spec(), event),
            final(self).held_spec() == old(self).held_spec(),
    {
        self.phase = advance(self.phase, event);
    }

    /// Takes in a burst of snapshots, oldest first, as the draining step of a
    /// frame: the newest replaces the held dataset. Outside the draining step
    /// the burst is dropped and nothing changes.
    pub fn adopt(&mut self, burst: Vec<D>)
        ensures
            old(self).phase_spec() is Draining ==> final(self).held_spec() == latest(
                old(self).held_spec(),
                burst@,
            ),
            !(old(self).phase_spec() is Draining) ==> final(self).held_spec() == old(
                self,
            ).held_spec(),
            final(self).phase_spec() == next_phase(old(self).phase_spec(), Event::Drained),
    {
        match self.phase {
            Phase::Draining => {
                let mut burst = burst;
                match burst.pop() {
                    Some(newest) => {
                        self.held = newest;
                    },
                    None => {},
                }
                self.phase = Phase::Drawing;
            },
            _ => {},
        }
    }

    /// The draining step of a frame: takes at most `limit` snapshots from the
    /// channel without waiting and holds the newest from then on. Outside the
    /// draining step the channel is left alone and `None` is returned.
    pub fn drain(&mut self, rx: &mut tokio::sync::mpsc::Receiver<D>, limit: usize) -> (report:
        Option<DrainReport<D>>)
        ensures
            report is Some <==> old(self).phase_spec() is Draining,
            final(self).phase_spec() == next_phase(old(self).phase_spec(), Event::Drained),
            match report {
                Some(report) => {
                    &&& final(self).held_spec() == latest(old(self).held_spec(), report.log@)
                    &&& report.taken == report.log@.len()
                    &&& report.taken <= limit
                    &&& report.end is Limit <==> report.taken == limit
                },
                None => final(self).held_spec() == old(self).held_spec(),
            },
    {
        match self.phase {
            Phase::Draining => {
                let report = drain_latest(rx, &mut self.held, limit);
                self.phase = Phase::Drawing;
                Some(report)
            },
            _ => None,
        }
    }
}

/// Once finished, always finished: no event leads anywhere else.
pub proof fn lemma_finished_stays(outcome: Outcome, events: Seq<Event>)
    ensures
        run(Phase::Finished(outcome), events) == Phase::Finished(outcome),
        releases(Phase::Finished(outcome), events) == 0,
    decreases events.len(),
{
    if events.len() > 0 {
        lemma_finished_stays(outcome, events.skip(1));
    }
}

/// Quitting is terminal: no event leads from `Quitting` back to `Running`.
pub proof fn lemma_quitting_is_terminal(phase: Phase, event: Event)
    requires
        state_of(phase) is Quitting,
    ensures
        state_of(next_phase(phase, event)) is Quitting,
{
}

/// The quit key, seen at the poll of a frame, ends the loop at once: the
/// state is `Quitting` and the next action is the release of the terminal.
pub proof fn lemma_quit_key_ends_loop()
    ensures
        state_of(Phase::Polling) is Running,
        next_phase(Phase::Polling, Event::Polled(Input::Key(Key::Char(QUIT_KEY))))
            == Phase::Releasing(ExitCause::UserQuit),
        state_of(next_phase(Phase::Polling, Event::Polled(Input::Key(Key::Char(QUIT_KEY)))))
            is Quitting,
        action_of(next_phase(Phase::Polling, Event::Polled(Input::Key(Key::Char(QUIT_KEY)))))
            == Action::ReleaseTerminal,
{
}

/// Any input but the quit key and a failure of the device is inert: the loop
/// goes on with the next frame.
pub proof fn lemma_other_input_is_inert(input: Input)
    requires
        !is_quit(input),
        !(input is Failed),
    ensures
        next_phase(Phase::Polling, Event::Polled(input)) == Phase::Draining,
{
}

/// The terminal is asked for only at the start, drawn on and polled only while
/// it is held, and the process is left only when it is not held.
pub proof fn lemma_actions_respect_terminal(phase: Phase)
    ensures
        action_of(phase) is AcquireTerminal ==> !holds_terminal(phase),
        action_of(phase) is DrainChannel || action_of(phase) is DrawFrame || action_of(phase)
            is PollInput || action_of(phase) is ReleaseTerminal ==> holds_terminal(phase),
        action_of(phase) is Exit ==> !holds_terminal(phase),
{
}

/// A program that fails to acquire the terminal asks for nothing but to be
/// left with a failure code, whatever is reported to it afterwards: it never
/// draws, polls or releases.
pub proof fn lemma_failed_acquire_only_exits(events: Seq<Event>)
    ensures
        next_phase(Phase::Starting, Event::AcquireFailed) == Phase::Finished(
            Outcome::TerminalInit,
        ),
        action_of(run(next_phase(Phase::Starting, Event::AcquireFailed), events)) == Action::Exit(
            1,
        ),
        releases(next_phase(Phase::Starting, Event::AcquireFailed), events) == 0,
{
    lemma_finished_stays(Outcome::TerminalInit, events);
}

/// A terminal that is held when the program finishes its run has been
/// released exactly once on the way, whichever way the loop was left.
pub proof fn lemma_held_terminal_released_once(phase: Phase, events: Seq<Event>)
    requires
        holds_terminal(phase),
        run(phase, events) is Finished,
    ensures
        releases(phase, events) == 1,
    decreases events.len(),
{
    if events.len() > 0 {
        let next = next_phase(phase, events[0]);
        match next {
            Phase::Finished(outcome) => {
                lemma_finished_stays(outcome, events.skip(1));
            },
            _ => {
                lemma_held_terminal_released_once(next, events.skip(1));
            },
        }
    }
}

/// Resource symmetry: a program that runs from the start to the end releases
/// the terminal exactly once if it acquired it, and never if acquiring
/// failed.
pub proof fn lemma_release_matches_acquire(events: Seq<Event>)
    requires
        run(Phase::Starting, events) is Finished,
    ensures
        run(Phase::Starting, events) == Phase::Finished(Outcome::TerminalInit) ==> releases(
            Phase::Starting,
            events,
        ) == 0,
        run(Phase::Starting, events) != Phase::Finished(Outcome::TerminalInit) ==> releases(
            Phase::Starting,
            events,
        ) == 1,
    decreases events.len(),
{
    if events.len() > 0 {
        let next = next_phase(Phase::Starting, events[0]);
        match next {
            Phase::Starting => {
                lemma_release_matches_acquire(events.skip(1));
            },
            Phase::Finished(outcome) => {
                lemma_finished_stays(outcome, events.skip(1));
            },
            _ => {
                lemma_held_terminal_released_once(next, events.skip(1));
                lemma_held_terminal_never_fails_init(next, events.skip(1));
            },
        }
    }
}

/// A program that holds the terminal cannot end as a failure to acquire it.
pub proof fn lemma_held_terminal_never_fails_init(phase: Phase, events: Seq<Event>)
    requires
        holds_terminal(phase),
    ensures
        run(phase, events) != Phase::Finished(Outcome::TerminalInit),
    decreases events.len(),
{
    if events.len() > 0 {
        let next = next_phase(phase, events[0]);
        match next {
            Phase::Finished(outcome) => {
                lemma_finished_stays(outcome, events.skip(1));
            },
            _ => {
                lemma_held_terminal_never_fails_init(next, events.skip(1));
            },
        }
    }
}

} // verus!
