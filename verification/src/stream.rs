//! The streaming loop as a state machine: the watcher and the frame feeder
//! composed. The machine decides; its driver performs each action and hands
//! back the event that came of it.

use crate::pacing::{pacing_sleep, pacing_sleep_nanos};
use crate::pacing::{GUARD_MARGIN_NANOS, NANOS_PER_MS, RETRY_DELAY_NANOS};
use crate::watcher::{ImageState, ImageWatcher, Timestamp};
use vstd::prelude::*;

verus! {

/// What the loop has asked for and is waiting to hear of.
#[derive(Clone, Copy, Debug, PartialEq, Eq, Structural)]
pub enum Pending {
    /// The file's modification time.
    Stat,
    /// The file's content, for the modification time `observed`.
    Read { observed: Timestamp },
    /// The end of the retry delay after a failed stat.
    RetryStat,
    /// The end of the retry delay after a failed read.
    RetryRead,
    /// The outcome of writing the cached frame.
    Feed,
    /// The end of the pacing sleep.
    Pace { nanos: u128 },
    /// Nothing more: a write failed, and the loop is over.
    Failed,
}

/// What the driver is to do next.
#[derive(Clone, Copy, Debug, PartialEq, Eq, Structural)]
pub enum Action {
    /// Note the time as the start of a cycle, and read the file's
    /// modification time.
    Poll,
    /// Read the whole file.
    Load,
    /// Sleep for so many nanoseconds.
    Sleep { nanos: u128 },
    /// Write the cached frame to the encoder and flush.
    Feed,
    /// Give up and report the failure.
    Stop,
}

/// What came of the last action.
#[derive(Debug, PartialEq, Eq)]
pub enum Event {
    /// The file's modification time was read.
    Modified(Timestamp),
    /// The file's modification time could not be read.
    StatFailed,
    /// The file was read, and held these bytes.
    Loaded(Vec<u8>),
    /// The file could not be read.
    LoadFailed,
    /// A sleep came to its end.
    Woke,
    /// The frame was written; so much time has passed since the cycle's poll
    /// began.
    Fed { elapsed_nanos: u128 },
    /// The frame could not be written in full.
    FeedFailed,
}

/// The three states of the streaming loop.
#[derive(Clone, Copy, Debug, PartialEq, Eq, Structural)]
pub enum Mode {
    /// No image has been loaded yet; no frame is sent.
    WaitingForImage,
    /// An image is cached and is sent frame after frame.
    Streaming,
    /// A write failed. The loop has ended.
    Failed,
}

/// The loop's state: the watcher's, the frame budget, and what is pending.
pub struct StreamState {
    pub image: ImageState,
    pub budget_ms: u64,
    pub pending: Pending,
}

impl StreamState {
    /// The state a loop starts in for a frame budget: nothing loaded, about
    /// to poll.
    pub open spec fn initial(budget_ms: u64) -> StreamState {
        StreamState { image: ImageState::fresh(), budget_ms, pending: Pending::Stat }
    }

    /// The action that is pending in this state.
    pub open spec fn action(self) -> Action {
        match self.pending {
            Pending::Stat => Action::Poll,
            Pending::Read { .. } => Action::Load,
            Pending::RetryStat => Action::Sleep { nanos: RETRY_DELAY_NANOS },
            Pending::RetryRead => Action::Sleep { nanos: RETRY_DELAY_NANOS },
            Pending::Feed => Action::Feed,
            Pending::Pace { nanos } => Action::Sleep { nanos },
            Pending::Failed => Action::Stop,
        }
    }

    /// Which of the loop's three states this is.
    pub open spec fn mode(self) -> Mode {
        if self.pending is Failed {
            Mode::Failed
        } else if self.image.has_image() {
            Mode::Streaming
        } else {
            Mode::WaitingForImage
        }
    }

    /// What follows the retry delay of a failed read: the frame is sent if
    /// there is one, and the file is polled again if there is none.
    pub open spec fn settled(self) -> Pending {
        if self.image.has_image() {
            Pending::Feed
        } else {
            Pending::Stat
        }
    }

    /// What holds of every state that a loop can reach: the cache is empty
    /// only while nothing has been loaded, a read is pending only for a
    /// modification time that differs from the last one accepted, and a
    /// frame is written or paced only while an image is cached.
    pub open spec fn consistent(self) -> bool {
        &&& !self.image.has_image() ==> self.image == ImageState::fresh()
        &&& self.pending matches Pending::Read { observed } ==> self.image.is_stale(observed)
        &&& self.pending is Feed ==> self.image.has_image()
        &&& self.pending matches Pending::Pace { nanos } ==> self.image.has_image() && nanos
            <= self.budget_ms * NANOS_PER_MS
    }

    /// Whether `event` answers the action that is pending.
    pub open spec fn expects(self, event: Event) -> bool {
        match self.pending {
            Pending::Stat => event is Modified || event is StatFailed,
            Pending::Read { .. } => event is Loaded || event is LoadFailed,
            Pending::RetryStat => event is Woke,
            Pending::RetryRead => event is Woke,
            Pending::Feed => event is Fed || event is FeedFailed,
            Pending::Pace { .. } => event is Woke,
            Pending::Failed => false,
        }
    }

    /// The state after `event`. An event that does not answer the pending
    /// action changes nothing: the action stays pending.
    pub open spec fn next(self, event: Event) -> StreamState {
        match (self.pending, event) {
            (Pending::Stat, Event::Modified(observed)) => {
                if self.image.is_stale(observed) {
                    StreamState { pending: Pending::Read { observed }, ..self }
                } else {
                    StreamState { pending: Pending::Feed, ..self }
                }
            },
            (Pending::Stat, Event::StatFailed) => StreamState {
                pending: Pending::RetryStat,
                ..self
            },
            (Pending::Read { observed }, Event::Loaded(bytes)) => {
                if bytes@.len() > 0 {
                    StreamState {
                        image: self.image.reload(observed, bytes@),
                        pending: Pending::Feed,
                        ..self
                    }
                } else {
                    StreamState { pending: Pending::RetryRead, ..self }
                }
            },
            (Pending::Read { .. }, Event::LoadFailed) => StreamState {
                pending: Pending::RetryRead,
                ..self
            },
            (Pending::RetryStat, Event::Woke) => StreamState { pending: Pending::Stat, ..self },
            (Pending::RetryRead, Event::Woke) => StreamState { pending: self.settled(), ..self },
            (Pending::Feed, Event::Fed { elapsed_nanos }) => StreamState {
                pending: Pending::Pace {
                    nanos: pacing_sleep(self.budget_ms as int, elapsed_nanos as int) as u128,
                },
                ..self
            },
            (Pending::Feed, Event::FeedFailed) => StreamState { pending: Pending::Failed, ..self },
            (Pending::Pace { .. }, Event::Woke) => StreamState { pending: Pending::Stat, ..self },
            _ => self,
        }
    }

    /// The state after a run of events, taken in order.
    pub open spec fn run(self, events: Seq<Event>) -> StreamState
        decreases events.len(),
    {
        if events.len() == 0 {
            self
        } else {
            self.next(events[0]).run(events.drop_first())
        }
    }

    /// How often a run of events leads to the file being read.
    pub open spec fn loads(self, events: Seq<Event>) -> nat
        decreases events.len(),
    {
        if events.len() == 0 {
            0
        } else {
            let after = self.next(events[0]);
            let here: nat = if after.action() is Load {
                1
            } else {
                0
            };
            here + after.loads(events.drop_first())
        }
    }

    /// How often a run of events leads to a frame being written.
    pub open spec fn feeds(self, events: Seq<Event>) -> nat
        decreases events.len(),
    {
        if events.len() == 0 {
            0
        } else {
            let after = self.next(events[0]);
            let here: nat = if after.action() is Feed {
                1
            } else {
                0
            };
            here + after.feeds(events.drop_first())
        }
    }
}

/// Whether every modification time reported in `events` is `seen`.
pub open spec fn all_polls_see(events: Seq<Event>, seen: Timestamp) -> bool {
    forall|i: int|
        0 <= i < events.len() ==> (#[trigger] events[i] matches Event::Modified(t) ==> t == seen)
}

/// The events of steady cycles, one for each entry of `elapsed`: a poll that
/// sees `seen`, a write that took so long, and the end of the pacing sleep.
pub open spec fn steady_cycles(seen: Timestamp, elapsed: Seq<u128>) -> Seq<Event>
    decreases elapsed.len(),
{
    if elapsed.len() == 0 {
        Seq::empty()
    } else {
        seq![Event::Modified(seen), Event::Fed { elapsed_nanos: elapsed[0] }, Event::Woke]
            + steady_cycles(seen, elapsed.drop_first())
    }
}

/// The streaming loop: an image watcher, a frame budget, and the action that
/// is pending.
pub struct StreamLoop {
    watcher: ImageWatcher,
    budget_ms: u64,
    pending: Pending,
}

impl View for StreamLoop {
    type V = StreamState;

    closed spec fn view(&self) -> StreamState {
        StreamState { image: self.watcher@, budget_ms: self.budget_ms, pending: self.pending }
    }
}

impl StreamLoop {
    /// A loop with a budget of `budget_ms` milliseconds for each frame, with
    /// nothing loaded, about to poll.
    pub fn new(budget_ms: u64) -> (stream: StreamLoop)
        ensures
            stream@ == StreamState::initial(budget_ms),
            stream@.consistent(),
    {
        StreamLoop { watcher: ImageWatcher::new(), budget_ms, pending: Pending::Stat }
    }

    /// The frame budget in milliseconds.
    pub fn budget_ms(&self) -> (ms: u64)
        ensures
            ms == self@.budget_ms,
    {
        self.budget_ms
    }

    /// What the loop is waiting for.
    pub fn pending(&self) -> (pending: Pending)
        ensures
            pending == self@.pending,
    {
        self.pending
    }

    /// The action that the driver is to perform now.
    pub fn action(&self) -> (action: Action)
        ensures
            action == self@.action(),
    {
        match self.pending {
            Pending::Stat => Action::Poll,
            Pending::Read { .. } => Action::Load,
            Pending::RetryStat => Action::Sleep { nanos: RETRY_DELAY_NANOS },
            Pending::RetryRead => Action::Sleep { nanos: RETRY_DELAY_NANOS },
            Pending::Feed => Action::Feed,
            Pending::Pace { nanos } => Action::Sleep { nanos },
            Pending::Failed => Action::Stop,
        }
    }

    /// Which of the loop's three states it is in.
    pub fn mode(&self) -> (mode: Mode)
        ensures
            mode == self@.mode(),
    {
        match self.pending {
            Pending::Failed => Mode::Failed,
            _ => if self.watcher.has_image() {
                Mode::Streaming
            } else {
                Mode::WaitingForImage
            },
        }
    }

    /// The frame to write: the cached image.
    pub fn frame(&self) -> (bytes: &Vec<u8>)
        ensures
            bytes@ == self@.image.cached,
    {
        self.watcher.frame()
    }

    /// The modification time of the cached image.
    pub fn last_modified(&self) -> (t: Timestamp)
        ensures
            t == self@.image.last_modified,
    {
        self.watcher.last_modified()
    }

    /// Whether `event` answers the action that is pending.
    pub fn expects(&self, event: &Event) -> (expected: bool)
        ensures
            expected == self@.expects(*event),
    {
        match self.pending {
            Pending::Stat => match event {
                Event::Modified(_) => true,
                Event::StatFailed => true,
                _ => false,
            },
            Pending::Read { .. } => match event {
                Event::Loaded(_) => true,
                Event::LoadFailed => true,
                _ => false,
            },
            Pending::RetryStat => match event {
                Event::Woke => true,
                _ => false,
            },
            Pending::RetryRead => match event {
                Event::Woke => true,
                _ => false,
            },
            Pending::Feed => match event {
                Event::Fed { .. } => true,
                Event::FeedFailed => true,
                _ => false,
            },
            Pending::Pace { .. } => match event {
                Event::Woke => true,
                _ => false,
            },
            Pending::Failed => false,
        }
    }

    fn settled(&self) -> (pending: Pending)
        ensures
            pending == self@.settled(),
    {
        if self.watcher.has_image() {
            Pending::Feed
        } else {
            Pending::Stat
        }
    }

    /// Takes in what came of the last action, and returns the next one.
    pub fn step(&mut self, event: Event) -> (action: Action)
        ensures
            final(self)@ == old(self)@.next(event),
            action == final(self)@.action(),
            old(self)@.consistent() ==> final(self)@.consistent(),
            !old(self)@.expects(event) ==> final(self)@ == old(self)@,
    {
        proof {
            if self@.consistent() {
                lemma_consistency_is_invariant(self@.budget_ms, self@, event);
            }
            if !self@.expects(event) {
                lemma_unexpected_event_changes_nothing(self@, event);
            }
        }
        match self.pending {
            Pending::Stat => match event {
                Event::Modified(observed) => {
                    if self.watcher.is_stale(observed) {
                        self.pending = Pending::Read { observed };
                    } else {
                        self.pending = Pending::Feed;
                    }
                },
                Event::StatFailed => {
                    self.pending = Pending::RetryStat;
                },
                _ => {},
            },
            Pending::Read { observed } => match event {
                Event::Loaded(bytes) => {
                    if self.watcher.reload(observed, bytes) {
                        self.pending = Pending::Feed;
                    } else {
                        self.pending = Pending::RetryRead;
                    }
                },
                Event::LoadFailed => {
                    self.pending = Pending::RetryRead;
                },
                _ => {},
            },
            Pending::RetryStat => match event {
                Event::Woke => {
                    self.pending = Pending::Stat;
                },
                _ => {},
            },
            Pending::RetryRead => match event {
                Event::Woke => {
                    self.pending = self.settled();
                },
                _ => {},
            },
            Pending::Feed => match event {
                Event::Fed { elapsed_nanos } => {
                    self.pending = Pending::Pace {
                        nanos: pacing_sleep_nanos(self.budget_ms, elapsed_nanos),
                    };
                },
                Event::FeedFailed => {
                    self.pending = Pending::Failed;
                },
                _ => {},
            },
            Pending::Pace { .. } => match event {
                Event::Woke => {
                    self.pending = Pending::Stat;
                },
                _ => {},
            },
            Pending::Failed => {},
        }
        self.action()
    }
}

/// A new loop is consistent, and no event makes a consistent loop
/// inconsistent.
pub proof fn lemma_consistency_is_invariant(budget_ms: u64, state: StreamState, event: Event)
    requires
        state.consistent(),
    ensures
        StreamState::initial(budget_ms).consistent(),
        state.next(event).consistent(),
{
}

/// Once an image is cached, no event empties the cache: there is no way back
/// from streaming to waiting for an image.
pub proof fn lemma_image_is_never_lost(state: StreamState, event: Event)
    requires
        state.image.has_image(),
    ensures
        state.next(event).image.has_image(),
        state.next(event).mode() != Mode::WaitingForImage,
{
}

/// An event leaves modification time and cache as they were, or replaces
/// both with what a read brought: the pending read's time and the bytes
/// loaded, which are not empty.
pub proof fn lemma_image_changes_whole(state: StreamState, event: Event)
    ensures
        state.next(event).image == state.image || (state.pending matches Pending::Read { observed }
            && event matches Event::Loaded(bytes) && bytes@.len() > 0 && state.next(event).image
            == (ImageState { last_modified: observed, cached: bytes@ })),
{
}

/// A read that fails, or brings nothing, leaves cache and modification time
/// untouched and asks for the retry delay. Since the time was not taken
/// over, a later poll that sees it again asks for the same read again.
pub proof fn lemma_failed_read_changes_nothing(state: StreamState, event: Event, later: StreamState)
    requires
        state.pending is Read,
        state.consistent(),
        event is LoadFailed || (event matches Event::Loaded(bytes) && bytes@.len() == 0),
        later.image == state.next(event).image,
        later.pending is Stat,
    ensures
        state.next(event).image == state.image,
        state.next(event).pending == Pending::RetryRead,
        state.next(event).action() == (Action::Sleep { nanos: RETRY_DELAY_NANOS }),
        later.next(Event::Modified(state.pending->observed)).pending == state.pending,
{
}

/// Only a failed write ends the loop, and once ended it stays so.
pub proof fn lemma_only_a_failed_write_ends_the_loop(state: StreamState, event: Event)
    ensures
        state.next(event).pending is Failed <==> state.pending is Failed || (state.pending is Feed
            && event is FeedFailed),
        state.pending is Failed ==> state.next(event) == state,
{
}

/// The loop leaves waiting for an image only by a read that brought bytes.
pub proof fn lemma_streaming_starts_with_a_load(state: StreamState, event: Event)
    requires
        state.consistent(),
        state.mode() == Mode::WaitingForImage,
        state.next(event).mode() != Mode::WaitingForImage,
    ensures
        state.next(event).mode() == Mode::Streaming,
        state.pending is Read,
        event matches Event::Loaded(bytes) && bytes@.len() > 0,
{
}

/// After a frame is written the loop asks for a sleep of the budget less the
/// time taken and the guard margin. It is never negative, and exactly zero
/// once the time taken reaches the budget less the guard margin.
pub proof fn lemma_pause_is_clamped(state: StreamState, elapsed_nanos: u128)
    requires
        state.pending is Feed,
    ensures
        state.next(Event::Fed { elapsed_nanos }).action() == (Action::Sleep {
            nanos: pacing_sleep(state.budget_ms as int, elapsed_nanos as int) as u128,
        }),
        0 <= pacing_sleep(state.budget_ms as int, elapsed_nanos as int) <= state.budget_ms
            * NANOS_PER_MS,
        elapsed_nanos >= state.budget_ms * NANOS_PER_MS - GUARD_MARGIN_NANOS ==> state.next(
            Event::Fed { elapsed_nanos },
        ).action() == (Action::Sleep { nanos: 0 }),
{
}

/// Once an image is loaded, and while every poll sees the modification time
/// that it was loaded with, no run of events, however long, leads to the
/// file being read, and the cache stays as it is.
pub proof fn lemma_unchanged_polls_never_reload(state: StreamState, events: Seq<Event>)
    requires
        state.image.has_image(),
        !(state.pending is Read),
        all_polls_see(events, state.image.last_modified),
    ensures
        state.loads(events) == 0,
        state.run(events).image == state.image,
        !(state.run(events).pending is Read),
    decreases events.len(),
{
    if events.len() > 0 {
        let after = state.next(events[0]);
        let rest = events.drop_first();
        assert(events[0] matches Event::Modified(t) ==> t == state.image.last_modified);
        assert forall|i: int| 0 <= i < rest.len() implies (#[trigger] rest[i] matches Event::Modified(
            t,
        ) ==> t == after.image.last_modified) by {
            assert(rest[i] == events[i + 1]);
        }
        lemma_unchanged_polls_never_reload(after, rest);
    }
}

/// A file is read once for each modification time. From a poll that finds
/// the file due to be read, be it the first poll or one that sees a new
/// time, and a read that brings bytes, the file is read exactly one time,
/// however many polls follow that see the same time, and the cache holds
/// what that read brought.
pub proof fn lemma_one_load_per_change(
    state: StreamState,
    observed: Timestamp,
    bytes: Vec<u8>,
    rest: Seq<Event>,
)
    requires
        state.pending is Stat,
        state.image.is_stale(observed),
        bytes@.len() > 0,
        all_polls_see(rest, observed),
    ensures
        state.loads(seq![Event::Modified(observed), Event::Loaded(bytes)] + rest) == 1,
        state.run(seq![Event::Modified(observed), Event::Loaded(bytes)] + rest).image == (
        ImageState { last_modified: observed, cached: bytes@ }),
{
    let events = seq![Event::Modified(observed), Event::Loaded(bytes)] + rest;
    let polled = state.next(Event::Modified(observed));
    let loaded = polled.next(Event::Loaded(bytes));
    assert(events[0] == Event::Modified(observed));
    assert(events.drop_first()[0] == Event::Loaded(bytes));
    assert(events.drop_first().drop_first() =~= rest);
    lemma_unchanged_polls_never_reload(loaded, rest);
    assert(state.loads(events) == 1 + polled.loads(events.drop_first()));
    assert(polled.loads(events.drop_first()) == 0 + loaded.loads(rest));
    assert(state.run(events) == polled.run(events.drop_first()));
    assert(polled.run(events.drop_first()) == loaded.run(rest));
}

/// An event that does not answer the pending action changes nothing.
pub proof fn lemma_unexpected_event_changes_nothing(state: StreamState, event: Event)
    requires
        !state.expects(event),
    ensures
        state.next(event) == state,
{
}

/// A steady cycle sends one frame. With an image cached and the file
/// unchanged, a poll, the write and the pacing sleep lead to exactly one
/// frame and no read, and leave the loop where it was, ready for the next
/// cycle.
pub proof fn lemma_steady_cycle_sends_one_frame(state: StreamState, elapsed_nanos: u128)
    requires
        state.pending is Stat,
        state.image.has_image(),
    ensures
        ({
            let events = seq![
                Event::Modified(state.image.last_modified),
                Event::Fed { elapsed_nanos },
                Event::Woke,
            ];
            &&& state.feeds(events) == 1
            &&& state.loads(events) == 0
            &&& state.run(events) == state
        }),
{
    let events = seq![
        Event::Modified(state.image.last_modified),
        Event::Fed { elapsed_nanos },
        Event::Woke,
    ];
    let polled = state.next(events[0]);
    let fed = polled.next(events[1]);
    let woken = fed.next(events[2]);
    let tail1 = events.drop_first();
    let tail2 = tail1.drop_first();
    let tail3 = tail2.drop_first();
    assert(tail1[0] == events[1]);
    assert(tail2[0] == events[2]);
    assert(tail3.len() == 0);
    assert(woken == state);
    assert(woken.feeds(tail3) == 0 && woken.loads(tail3) == 0 && woken.run(tail3) == woken);
    assert(fed.feeds(tail2) == 0 && fed.loads(tail2) == 0 && fed.run(tail2) == woken);
    assert(polled.feeds(tail1) == 0 && polled.loads(tail1) == 0 && polled.run(tail1) == woken);
    assert(state.feeds(events) == 1 + polled.feeds(tail1));
    assert(state.loads(events) == 0 + polled.loads(tail1));
}

/// Two runs of events in a row come to the same as the one run of both: the
/// second starts where the first ends, and reads and frames add up.
pub proof fn lemma_runs_compose(state: StreamState, first: Seq<Event>, second: Seq<Event>)
    ensures
        state.run(first + second) == state.run(first).run(second),
        state.loads(first + second) == state.loads(first) + state.run(first).loads(second),
        state.feeds(first + second) == state.feeds(first) + state.run(first).feeds(second),
    decreases first.len(),
{
    if first.len() == 0 {
        assert(first + second =~= second);
    } else {
        let both = first + second;
        assert(both[0] == first[0]);
        assert(both.drop_first() =~= first.drop_first() + second);
        lemma_runs_compose(state.next(first[0]), first.drop_first(), second);
    }
}

/// Steady cycles send a frame each. With an image cached and the file
/// unchanged, any number of cycles leads to as many frames, to no read, and
/// back to where the loop was.
pub proof fn lemma_steady_cycles_send_a_frame_each(state: StreamState, elapsed: Seq<u128>)
    requires
        state.pending is Stat,
        state.image.has_image(),
    ensures
        state.feeds(steady_cycles(state.image.last_modified, elapsed)) == elapsed.len(),
        state.loads(steady_cycles(state.image.last_modified, elapsed)) == 0,
        state.run(steady_cycles(state.image.last_modified, elapsed)) == state,
    decreases elapsed.len(),
{
    if elapsed.len() > 0 {
        let seen = state.image.last_modified;
        let cycle = seq![Event::Modified(seen), Event::Fed { elapsed_nanos: elapsed[0] }, Event::Woke];
        lemma_steady_cycle_sends_one_frame(state, elapsed[0]);
        lemma_steady_cycles_send_a_frame_each(state, elapsed.drop_first());
        lemma_runs_compose(state, cycle, steady_cycles(seen, elapsed.drop_first()));
    }
}

/// A loop that has loaded nothing reads the file on its first poll, whatever
/// modification time that poll sees.
pub proof fn lemma_first_poll_reads(state: StreamState, observed: Timestamp)
    requires
        state.pending is Stat,
        !state.image.has_image(),
    ensures
        state.next(Event::Modified(observed)).pending == (Pending::Read { observed }),
        state.next(Event::Modified(observed)).action() == Action::Load,
{
}

/// A file that does not change is read once and sent in every cycle. A new
/// loop whose first poll sees any time at all, whose read brings bytes, and
/// whose later polls see the same time, reads the file one time and writes
/// one frame in the first cycle and one in each cycle after it, all of them
/// the bytes that were read.
pub proof fn lemma_unchanged_file_is_read_once_and_sent_each_cycle(
    budget_ms: u64,
    seen: Timestamp,
    bytes: Vec<u8>,
    first_elapsed: u128,
    elapsed: Seq<u128>,
)
    requires
        bytes@.len() > 0,
    ensures
        ({
            let first = seq![
                Event::Modified(seen),
                Event::Loaded(bytes),
                Event::Fed { elapsed_nanos: first_elapsed },
                Event::Woke,
            ];
            let events = first + steady_cycles(seen, elapsed);
            let start = StreamState::initial(budget_ms);
            &&& start.loads(events) == 1
            &&& start.feeds(events) == 1 + elapsed.len()
            &&& start.run(events).image == (ImageState { last_modified: seen, cached: bytes@ })
            &&& start.run(events).pending is Stat
        }),
{
    let first = seq![
        Event::Modified(seen),
        Event::Loaded(bytes),
        Event::Fed { elapsed_nanos: first_elapsed },
        Event::Woke,
    ];
    let start = StreamState::initial(budget_ms);
    let polled = start.next(first[0]);
    let loaded = polled.next(first[1]);
    let fed = loaded.next(first[2]);
    let woken = fed.next(first[3]);
    let tail1 = first.drop_first();
    let tail2 = tail1.drop_first();
    let tail3 = tail2.drop_first();
    let tail4 = tail3.drop_first();
    assert(tail1[0] == first[1]);
    assert(tail2[0] == first[2]);
    assert(tail3[0] == first[3]);
    assert(tail4.len() == 0);
    assert(woken.loads(tail4) == 0 && woken.feeds(tail4) == 0 && woken.run(tail4) == woken);
    assert(fed.loads(tail3) == 0 && fed.feeds(tail3) == 0 && fed.run(tail3) == woken);
    assert(loaded.loads(tail2) == 0 && loaded.feeds(tail2) == 0 && loaded.run(tail2) == woken);
    assert(polled.loads(tail1) == 0 && polled.feeds(tail1) == 1 && polled.run(tail1) == woken);
    assert(start.loads(first) == 1 && start.feeds(first) == 1 && start.run(first) == woken);
    lemma_steady_cycles_send_a_frame_each(woken, elapsed);
    lemma_runs_compose(start, first, steady_cycles(seen, elapsed));
}

} // verus!
