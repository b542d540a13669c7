//! The supervisor of the encoder process as a state machine: spawn, stream,
//! and on any failure of the stream kill and spawn anew, without limit. Only
//! a failed spawn ends it.

use crate::pacing::{frame_budget, frame_budget_ms};
use crate::stream::{Action, Event, StreamLoop, StreamState};
use crate::watcher::{ImageState, Timestamp};
use vstd::prelude::*;

verus! {

/// Where the supervisor stands.
#[derive(Clone, Copy, Debug, PartialEq, Eq, Structural)]
pub enum Phase {
    /// No encoder runs; one is being spawned.
    Spawning,
    /// An encoder runs and is being fed.
    Streaming,
    /// The stream failed; the encoder is being killed.
    Killing,
    /// The encoder could not be spawned. The program ends.
    Halted,
}

/// What the driver is to do next.
#[derive(Clone, Copy, Debug, PartialEq, Eq, Structural)]
pub enum Command {
    /// Spawn the encoder with a pipe as its input.
    Spawn,
    /// Perform this action of the streaming loop on the encoder's input.
    Drive(Action),
    /// Kill the encoder. A failure to do so is logged and no more.
    Kill,
    /// End the program with the spawn error.
    Exit,
}

/// What came of the last command.
#[derive(Debug, PartialEq, Eq)]
pub enum Report {
    /// The encoder runs.
    Spawned,
    /// The encoder could not be started.
    SpawnFailed,
    /// What came of the streaming loop's action.
    Stream(Event),
    /// The encoder was killed.
    Killed,
    /// The encoder could not be killed.
    KillFailed,
}

/// The supervisor's state: the frame budget in milliseconds, the phase, and
/// the state of the streaming loop.
pub struct SupervisorState {
    pub budget_ms: u64,
    pub phase: Phase,
    pub stream: StreamState,
}

impl SupervisorState {
    /// The state a supervisor starts in for a frame rate: about to spawn the
    /// first encoder.
    pub open spec fn initial(fps: u16) -> SupervisorState
        recommends
            fps > 0,
    {
        let budget_ms = frame_budget(fps as int) as u64;
        SupervisorState { budget_ms, phase: Phase::Spawning, stream: StreamState::initial(budget_ms) }
    }

    /// The command that is pending in this state.
    pub open spec fn command(self) -> Command {
        match self.phase {
            Phase::Spawning => Command::Spawn,
            Phase::Streaming => Command::Drive(self.stream.action()),
            Phase::Killing => Command::Kill,
            Phase::Halted => Command::Exit,
        }
    }

    /// How many encoder processes the supervisor holds in this state: one
    /// from the report of its spawn to the report of its kill, and none
    /// else. An encoder whose kill failed is let go of all the same.
    pub open spec fn held(self) -> nat {
        match self.phase {
            Phase::Spawning => 0,
            Phase::Streaming => 1,
            Phase::Killing => 1,
            Phase::Halted => 0,
        }
    }

    /// What holds of every state that a supervisor can reach: the loop is
    /// consistent and has not failed while it is driven, and is a new one
    /// at every other time.
    pub open spec fn consistent(self) -> bool {
        &&& self.budget_ms <= 1000
        &&& self.stream.budget_ms == self.budget_ms
        &&& self.phase is Streaming ==> self.stream.consistent() && !(self.stream.pending is Failed)
        &&& !(self.phase is Streaming) ==> self.stream == StreamState::initial(self.budget_ms)
    }

    /// The state after `report`. A report that does not answer the pending
    /// command changes nothing. Every encoder starts with a streaming loop
    /// of its own, which has loaded nothing; a loop that failed is dropped
    /// at once.
    pub open spec fn next(self, report: Report) -> SupervisorState {
        match (self.phase, report) {
            (Phase::Spawning, Report::Spawned) => SupervisorState {
                phase: Phase::Streaming,
                ..self
            },
            (Phase::Spawning, Report::SpawnFailed) => SupervisorState {
                phase: Phase::Halted,
                ..self
            },
            (Phase::Streaming, Report::Stream(event)) => {
                if self.stream.next(event).pending is Failed {
                    SupervisorState {
                        phase: Phase::Killing,
                        stream: StreamState::initial(self.budget_ms),
                        ..self
                    }
                } else {
                    SupervisorState { stream: self.stream.next(event), ..self }
                }
            },
            (Phase::Killing, Report::Killed) => SupervisorState { phase: Phase::Spawning, ..self },
            (Phase::Killing, Report::KillFailed) => SupervisorState {
                phase: Phase::Spawning,
                ..self
            },
            _ => self,
        }
    }

    /// The commands that a run of reports leads to, one after each report.
    pub open spec fn commands(self, reports: Seq<Report>) -> Seq<Command>
        decreases reports.len(),
    {
        if reports.len() == 0 {
            Seq::empty()
        } else {
            let after = self.next(reports[0]);
            seq![after.command()] + after.commands(reports.drop_first())
        }
    }

    /// The state after a run of reports, taken in order.
    pub open spec fn run(self, reports: Seq<Report>) -> SupervisorState
        decreases reports.len(),
    {
        if reports.len() == 0 {
            self
        } else {
            self.next(reports[0]).run(reports.drop_first())
        }
    }
}

/// Owns the life of the encoder process and of the streaming loop that
/// feeds it.
pub struct Supervisor {
    budget_ms: u64,
    phase: Phase,
    stream: StreamLoop,
}

impl View for Supervisor {
    type V = SupervisorState;

    closed spec fn view(&self) -> SupervisorState {
        SupervisorState { budget_ms: self.budget_ms, phase: self.phase, stream: self.stream@ }
    }
}

impl Supervisor {
    /// A supervisor for `fps` frames per second, about to spawn the first
    /// encoder. The frame budget is computed here, once.
    pub fn new(fps: u16) -> (supervisor: Supervisor)
        requires
            fps > 0,
        ensures
            supervisor@ == SupervisorState::initial(fps),
            supervisor@.consistent(),
    {
        proof {
            lemma_new_supervisor_is_consistent(fps);
        }
        let budget_ms = frame_budget_ms(fps);
        Supervisor { budget_ms, phase: Phase::Spawning, stream: StreamLoop::new(budget_ms) }
    }

    /// Where the supervisor stands.
    pub fn phase(&self) -> (phase: Phase)
        ensures
            phase == self@.phase,
    {
        self.phase
    }

    /// The command that the driver is to perform now.
    pub fn command(&self) -> (command: Command)
        ensures
            command == self@.command(),
    {
        match self.phase {
            Phase::Spawning => Command::Spawn,
            Phase::Streaming => Command::Drive(self.stream.action()),
            Phase::Killing => Command::Kill,
            Phase::Halted => Command::Exit,
        }
    }

    /// The frame budget in milliseconds.
    pub fn budget_ms(&self) -> (ms: u64)
        ensures
            ms == self@.budget_ms,
    {
        self.budget_ms
    }

    /// The frame to write while streaming: the cached image.
    pub fn frame(&self) -> (bytes: &Vec<u8>)
        ensures
            bytes@ == self@.stream.image.cached,
    {
        self.stream.frame()
    }

    /// Takes in what came of the last command, and returns the next one.
    pub fn step(&mut self, report: Report) -> (command: Command)
        ensures
            final(self)@ == old(self)@.next(report),
            command == final(self)@.command(),
            old(self)@.consistent() ==> final(self)@.consistent(),
            old(self)@.consistent() ==> command != Command::Drive(Action::Stop),
    {
        proof {
            if self@.consistent() {
                lemma_consistency_is_invariant(self@, report);
                lemma_stopped_loop_is_never_driven(self@.next(report));
            }
        }
        match self.phase {
            Phase::Spawning => match report {
                Report::Spawned => {
                    self.phase = Phase::Streaming;
                },
                Report::SpawnFailed => {
                    self.phase = Phase::Halted;
                },
                _ => {},
            },
            Phase::Streaming => match report {
                Report::Stream(event) => {
                    let action = self.stream.step(event);
                    match action {
                        Action::Stop => {
                            self.stream = StreamLoop::new(self.budget_ms);
                            self.phase = Phase::Killing;
                        },
                        _ => {},
                    }
                },
                _ => {},
            },
            Phase::Killing => match report {
                Report::Killed => {
                    self.phase = Phase::Spawning;
                },
                Report::KillFailed => {
                    self.phase = Phase::Spawning;
                },
                _ => {},
            },
            Phase::Halted => {},
        }
        self.command()
    }
}

/// A new supervisor is consistent.
pub proof fn lemma_new_supervisor_is_consistent(fps: u16)
    requires
        fps > 0,
    ensures
        SupervisorState::initial(fps).consistent(),
{
    crate::pacing::lemma_budget_is_monotone(1, fps as int);
}

/// No report makes a consistent supervisor inconsistent.
pub proof fn lemma_consistency_is_invariant(state: SupervisorState, report: Report)
    requires
        state.consistent(),
    ensures
        state.next(report).consistent(),
{
    match report {
        Report::Stream(event) => {
            crate::stream::lemma_consistency_is_invariant(state.budget_ms, state.stream, event);
        },
        _ => {},
    }
}

/// A failed write is answered by exactly one kill, then exactly one spawn,
/// and only then does streaming resume, with a loop that has loaded nothing
/// and polls first. Whether the kill succeeded makes no difference.
pub proof fn lemma_failed_write_restarts_once(state: SupervisorState, killed: bool)
    requires
        state.phase is Streaming,
        state.stream.pending is Feed,
    ensures
        ({
            let kill = if killed {
                Report::Killed
            } else {
                Report::KillFailed
            };
            let reports = seq![Report::Stream(Event::FeedFailed), kill, Report::Spawned];
            &&& state.commands(reports) == seq![
                Command::Kill,
                Command::Spawn,
                Command::Drive(Action::Poll),
            ]
            &&& state.run(reports).phase is Streaming
            &&& state.run(reports).stream == StreamState::initial(state.budget_ms)
        }),
{
    let kill = if killed {
        Report::Killed
    } else {
        Report::KillFailed
    };
    let reports = seq![Report::Stream(Event::FeedFailed), kill, Report::Spawned];
    let failed = state.next(reports[0]);
    let dead = failed.next(reports[1]);
    let alive = dead.next(reports[2]);
    let tail1 = reports.drop_first();
    let tail2 = tail1.drop_first();
    let tail3 = tail2.drop_first();
    assert(tail1[0] == reports[1]);
    assert(tail2[0] == reports[2]);
    assert(tail3.len() == 0);
    assert(alive.commands(tail3) == Seq::<Command>::empty());
    assert(dead.commands(tail2) == seq![alive.command()] + alive.commands(tail3));
    assert(failed.commands(tail1) == seq![dead.command()] + dead.commands(tail2));
    assert(state.commands(reports) == seq![failed.command()] + failed.commands(tail1));
    assert(state.commands(reports) =~= seq![
        Command::Kill,
        Command::Spawn,
        Command::Drive(Action::Poll),
    ]);
    assert(alive.run(tail3) == alive);
    assert(dead.run(tail2) == alive);
    assert(failed.run(tail1) == alive);
}

/// An encoder is killed only after a write to it failed.
pub proof fn lemma_kill_follows_failed_write(state: SupervisorState, report: Report)
    requires
        state.consistent(),
        state.next(report).phase is Killing,
    ensures
        state.phase is Killing || (state.phase is Streaming && state.stream.pending is Feed
            && report == Report::Stream(Event::FeedFailed)),
{
    match report {
        Report::Stream(event) => {
            crate::stream::lemma_only_a_failed_write_ends_the_loop(state.stream, event);
        },
        _ => {},
    }
}

/// The supervisor never holds more than one encoder. One is spawned only
/// where it holds none: at the start, or once the kill of the one before
/// has been reported, as done or as failed.
pub proof fn lemma_one_encoder_at_a_time(state: SupervisorState, report: Report)
    ensures
        state.held() <= 1,
        state.command() is Spawn ==> state.held() == 0,
        state.next(report).held() > state.held() ==> state.phase is Spawning && report
            is Spawned,
        state.next(report).phase is Spawning ==> state.phase is Spawning || (state.phase is Killing
            && (report is Killed || report is KillFailed)),
{
}

/// Only a failed spawn ends the supervisor, and once ended it stays so.
/// Every other failure leads back to a spawn.
pub proof fn lemma_only_a_failed_spawn_halts(state: SupervisorState, report: Report)
    ensures
        state.next(report).phase is Halted <==> state.phase is Halted || (state.phase is Spawning
            && report is SpawnFailed),
        state.phase is Halted ==> state.next(report) == state,
        state.next(report).command() is Exit <==> state.next(report).phase is Halted,
{
}

/// The driver is never handed a loop that has stopped: a failed loop is
/// answered with a kill.
pub proof fn lemma_stopped_loop_is_never_driven(state: SupervisorState)
    requires
        state.consistent(),
    ensures
        state.command() != Command::Drive(Action::Stop),
{
}

/// After a restart the image is read before anything is written. Once a
/// write has failed and the encoder was killed and spawned anew, the first
/// poll leads to a read, whatever modification time it sees, and the first
/// frame for the new encoder is what that read brought.
pub proof fn lemma_restart_reads_the_image_first(
    state: SupervisorState,
    killed: bool,
    seen: Timestamp,
    bytes: Vec<u8>,
)
    requires
        state.phase is Streaming,
        state.stream.pending is Feed,
        bytes@.len() > 0,
    ensures
        ({
            let kill = if killed {
                Report::Killed
            } else {
                Report::KillFailed
            };
            let restart = seq![Report::Stream(Event::FeedFailed), kill, Report::Spawned];
            let cycle = seq![
                Report::Stream(Event::Modified(seen)),
                Report::Stream(Event::Loaded(bytes)),
            ];
            let restarted = state.run(restart);
            &&& restarted.commands(cycle) == seq![
                Command::Drive(Action::Load),
                Command::Drive(Action::Feed),
            ]
            &&& restarted.run(cycle).phase is Streaming
            &&& restarted.run(cycle).stream.image == (ImageState {
                last_modified: seen,
                cached: bytes@,
            })
        }),
{
    lemma_failed_write_restarts_once(state, killed);
    let kill = if killed {
        Report::Killed
    } else {
        Report::KillFailed
    };
    let restart = seq![Report::Stream(Event::FeedFailed), kill, Report::Spawned];
    let cycle = seq![Report::Stream(Event::Modified(seen)), Report::Stream(Event::Loaded(bytes))];
    let restarted = state.run(restart);
    let polled = restarted.next(cycle[0]);
    let loaded = polled.next(cycle[1]);
    let tail1 = cycle.drop_first();
    let tail2 = tail1.drop_first();
    assert(tail1[0] == cycle[1]);
    assert(tail2.len() == 0);
    assert(loaded.commands(tail2) == Seq::<Command>::empty());
    assert(polled.commands(tail1) == seq![loaded.command()] + loaded.commands(tail2));
    assert(restarted.commands(cycle) == seq![polled.command()] + polled.commands(tail1));
    assert(restarted.commands(cycle) =~= seq![
        Command::Drive(Action::Load),
        Command::Drive(Action::Feed),
    ]);
    assert(loaded.run(tail2) == loaded);
    assert(polled.run(tail1) == loaded);
}

} // verus!
