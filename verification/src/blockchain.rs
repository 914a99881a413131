//! The walk over the chain in windows of blocks.
//!
//! The walk waits and asks the endpoint between windows, which this library does not do
//! itself. [`BlockchainIter::step`] decides: it is told what happened and answers with
//! what to do next. Whoever drives it sleeps, asks, and reports back.

use vstd::prelude::*;

use crate::config::{Config, StartBlock};
use crate::error::Error;

verus! {

/// A range of blocks to scan, both ends included.
#[derive(Clone, Copy, Debug, PartialEq, Eq, Structural)]
pub struct BlockWindow {
    pub start: u64,
    pub stop: u64,
}

/// Where the walk stands.
#[derive(Clone, Copy, Debug, PartialEq, Eq, Structural)]
pub enum Phase {
    /// No window was handed out yet; the first one is ready.
    First,
    /// A window was handed out; the next one has not been asked for.
    Idle,
    /// Waiting for the chain to grow: the driver sleeps.
    Sleeping,
    /// Waiting for the chain to grow: the driver asks for the last block mined.
    Polling,
    /// The last query failed. The walk can be taken up again.
    Failed,
    /// The walk is over.
    Stopped,
}

/// What the driver reports.
#[derive(Clone, Copy, Debug, PartialEq, Eq, Structural)]
pub enum StepEvent {
    /// The next window is asked for.
    Next,
    /// The sleep is over, because the time is up or because the run was cancelled.
    Woke,
    /// The endpoint told the number of the last block mined.
    LastMined(u64),
    /// The endpoint could not be asked, or its answer could not be read.
    QueryFailed,
}

/// What the driver is to do.
#[derive(Clone, Copy, Debug, PartialEq, Eq, Structural)]
pub enum Action {
    /// Hand out this window.
    Emit(BlockWindow),
    /// Sleep for so many seconds, or until the run is cancelled, then report
    /// [`StepEvent::Woke`].
    Sleep(u64),
    /// Ask the endpoint for the last block mined, then report [`StepEvent::LastMined`] or
    /// [`StepEvent::QueryFailed`].
    Query,
    /// Hand out the error of the query that failed.
    Fail,
    /// End the walk: there are no more windows.
    Stop,
}

/// The walk's state. In phases `First` and `Idle`, `start_block` and `stop_block` are
/// the window that is ready or was handed out last. While the walk waits, `start_block`
/// is where the next window will begin and `stop_block` the last block that the
/// endpoint told of.
#[derive(Clone, Copy, Debug, PartialEq, Eq, Structural)]
pub struct IterState {
    pub start_block: u64,
    pub stop_block: u64,
    pub phase: Phase,
    pub block_time: u64,
}

impl IterState {
    /// A window that is ready or was handed out is not empty.
    pub open spec fn wf(self) -> bool {
        (self.phase == Phase::First || self.phase == Phase::Idle) ==> self.start_block
            <= self.stop_block
    }

    /// The state in another phase.
    pub open spec fn in_phase(self, phase: Phase) -> IterState {
        IterState {
            start_block: self.start_block,
            stop_block: self.stop_block,
            phase,
            block_time: self.block_time,
        }
    }

    /// The window between `start_block` and `stop_block`.
    pub open spec fn window(self) -> BlockWindow {
        BlockWindow { start: self.start_block, stop: self.stop_block }
    }
}

/// One step of the walk: the state after an event, and what the driver is to do.
/// `running` is false once the run was cancelled.
///
/// - The first window is handed out when it is asked for.
/// - Every later window begins one block after the last one handed out, and is handed
///   out once the endpoint tells of a block beyond its beginning; until then the driver
///   sleeps and asks in turn.
/// - A failed query is handed out as an error. The walk can go on afterwards, from where
///   it waited.
/// - Once the run is cancelled no window is handed out, and the walk ends at the next
///   step that is not a failed query. It also ends when the last window reached the
///   largest block number there is, and on an event that the phase does not expect.
pub open spec fn transition(s: IterState, event: StepEvent, running: bool) -> (IterState, Action) {
    let stopped = (s.in_phase(Phase::Stopped), Action::Stop);
    match (s.phase, event) {
        (Phase::Polling, StepEvent::QueryFailed) => (s.in_phase(Phase::Failed), Action::Fail),
        (Phase::First, StepEvent::Next) => if running {
            (s.in_phase(Phase::Idle), Action::Emit(s.window()))
        } else {
            stopped
        },
        (Phase::Idle, StepEvent::Next) => if running && s.stop_block < u64::MAX {
            (
                IterState {
                    start_block: (s.stop_block + 1) as u64,
                    stop_block: s.stop_block,
                    phase: Phase::Sleeping,
                    block_time: s.block_time,
                },
                Action::Sleep(s.block_time),
            )
        } else {
            stopped
        },
        (Phase::Failed, StepEvent::Next) => if running {
            (s.in_phase(Phase::Sleeping), Action::Sleep(s.block_time))
        } else {
            stopped
        },
        (Phase::Sleeping, StepEvent::Woke) => if running {
            (s.in_phase(Phase::Polling), Action::Query)
        } else {
            stopped
        },
        (Phase::Polling, StepEvent::LastMined(last_mined)) => if !running {
            stopped
        } else if s.start_block < last_mined {
            let next = IterState {
                start_block: s.start_block,
                stop_block: last_mined,
                phase: Phase::Idle,
                block_time: s.block_time,
            };
            (next, Action::Emit(next.window()))
        } else {
            (
                IterState {
                    start_block: s.start_block,
                    stop_block: last_mined,
                    phase: Phase::Sleeping,
                    block_time: s.block_time,
                },
                Action::Sleep(s.block_time),
            )
        },
        _ => stopped,
    }
}

/// The block that a walk begins at. A tail longer than the chain is
/// [`Error::TailExceedsLastBlockMined`]; a block beyond the last one mined is
/// [`Error::StartBlockExceedsLastBlockMined`].
pub open spec fn first_block(start_block: StartBlock, last_mined_block: u64) -> Result<u64, Error> {
    match start_block {
        StartBlock::Earliest => Ok(0),
        StartBlock::Latest => Ok(last_mined_block),
        StartBlock::Number(block_number) => if block_number > last_mined_block {
            Err(
                Error::StartBlockExceedsLastBlockMined {
                    start_block: block_number,
                    last_mined_block,
                },
            )
        } else {
            Ok(block_number)
        },
        StartBlock::Tail(tail) => if tail > last_mined_block {
            Err(Error::TailExceedsLastBlockMined { tail, last_mined_block })
        } else {
            Ok((last_mined_block - tail) as u64)
        },
    }
}

/// The walk over the chain, from a configured first block on, for as long as the run is
/// not cancelled. It is used once: to begin again, make another.
pub struct BlockchainIter {
    state: IterState,
}

impl View for BlockchainIter {
    type V = IterState;

    closed spec fn view(&self) -> IterState {
        self.state
    }
}

impl BlockchainIter {
    #[verifier::type_invariant]
    spec fn inv(self) -> bool {
        self.state.wf()
    }

    /// Begins a walk, given the last block mined at this moment. Its first window runs
    /// from the configured first block to that block.
    pub fn new(last_mined_block: u64, config: &Config) -> (r: Result<Self, Error>)
        ensures
            match first_block(config.start_block, last_mined_block) {
                Ok(start_block) => r matches Ok(iter) && iter@ == (IterState {
                    start_block,
                    stop_block: last_mined_block,
                    phase: Phase::First,
                    block_time: config.block_time,
                }) && iter@.wf(),
                Err(e) => r matches Err(actual) && actual == e,
            },
    {
        let start_block = match config.start_block {
            StartBlock::Earliest => 0,
            StartBlock::Latest => last_mined_block,
            StartBlock::Number(block_number) => block_number,
            StartBlock::Tail(tail) => {
                if tail > last_mined_block {
                    return Err(Error::TailExceedsLastBlockMined { tail, last_mined_block });
                }
                last_mined_block - tail
            },
        };
        if start_block > last_mined_block {
            return Err(
                Error::StartBlockExceedsLastBlockMined { start_block, last_mined_block },
            );
        }
        Ok(
            BlockchainIter {
                state: IterState {
                    start_block,
                    stop_block: last_mined_block,
                    phase: Phase::First,
                    block_time: config.block_time,
                },
            },
        )
    }

    /// The walk's state.
    pub fn state(&self) -> (r: IterState)
        ensures
            r == self@,
            r.wf(),
    {
        proof {
            use_type_invariant(self);
        }
        self.state
    }

    /// Takes one step: see [`transition`].
    pub fn step(&mut self, event: StepEvent, running: bool) -> (action: Action)
        ensures
            (final(self)@, action) == transition(old(self)@, event, running),
            final(self)@.wf(),
    {
        proof {
            use_type_invariant(&*self);
        }
        let s = self.state;
        let (next, action) = match (s.phase, event) {
            (Phase::Polling, StepEvent::QueryFailed) => (
                IterState {
                    start_block: s.start_block,
                    stop_block: s.stop_block,
                    phase: Phase::Failed,
                    block_time: s.block_time,
                },
                Action::Fail,
            ),
            (Phase::First, StepEvent::Next) if running => (
                IterState {
                    start_block: s.start_block,
                    stop_block: s.stop_block,
                    phase: Phase::Idle,
                    block_time: s.block_time,
                },
                Action::Emit(BlockWindow { start: s.start_block, stop: s.stop_block }),
            ),
            (Phase::Idle, StepEvent::Next) if running && s.stop_block < u64::MAX => (
                IterState {
                    start_block: s.stop_block + 1,
                    stop_block: s.stop_block,
                    phase: Phase::Sleeping,
                    block_time: s.block_time,
                },
                Action::Sleep(s.block_time),
            ),
            (Phase::Failed, StepEvent::Next) if running => (
                IterState {
                    start_block: s.start_block,
                    stop_block: s.stop_block,
                    phase: Phase::Sleeping,
                    block_time: s.block_time,
                },
                Action::Sleep(s.block_time),
            ),
            (Phase::Sleeping, StepEvent::Woke) if running => (
                IterState {
                    start_block: s.start_block,
                    stop_block: s.stop_block,
                    phase: Phase::Polling,
                    block_time: s.block_time,
                },
                Action::Query,
            ),
            (Phase::Polling, StepEvent::LastMined(last_mined)) if running => {
                if s.start_block < last_mined {
                    (
                        IterState {
                            start_block: s.start_block,
                            stop_block: last_mined,
                            phase: Phase::Idle,
                            block_time: s.block_time,
                        },
                        Action::Emit(BlockWindow { start: s.start_block, stop: last_mined }),
                    )
                } else {
                    (
                        IterState {
                            start_block: s.start_block,
                            stop_block: last_mined,
                            phase: Phase::Sleeping,
                            block_time: s.block_time,
                        },
                        Action::Sleep(s.block_time),
                    )
                }
            },
            _ => (
                IterState {
                    start_block: s.start_block,
                    stop_block: s.stop_block,
                    phase: Phase::Stopped,
                    block_time: s.block_time,
                },
                Action::Stop,
            ),
        };
        self.state = next;
        action
    }
}

/// The state of a walk after a series of reports, each an event and whether the run was
/// still on when it was made.
pub open spec fn state_after(s: IterState, reports: Seq<(StepEvent, bool)>) -> IterState
    decreases reports.len(),
{
    if reports.len() == 0 {
        s
    } else {
        transition(state_after(s, reports.drop_last()), reports.last().0, reports.last().1).0
    }
}

/// The windows that a walk hands out over a series of reports, in order.
pub open spec fn windows_emitted(s: IterState, reports: Seq<(StepEvent, bool)>) -> Seq<
    BlockWindow,
>
    decreases reports.len(),
{
    if reports.len() == 0 {
        Seq::empty()
    } else {
        let before = windows_emitted(s, reports.drop_last());
        match transition(
            state_after(s, reports.drop_last()),
            reports.last().0,
            reports.last().1,
        ).1 {
            Action::Emit(window) => before.push(window),
            _ => before,
        }
    }
}

/// Whether no window is empty, and each begins one block after the one before it ends.
pub open spec fn in_order(windows: Seq<BlockWindow>) -> bool {
    &&& forall|i: int| 0 <= i < windows.len() ==> (#[trigger] windows[i]).start <= windows[i].stop
    &&& forall|i: int|
        0 <= i < windows.len() - 1 ==> (#[trigger] windows[i + 1]).start == windows[i].stop + 1
}

/// How the state of a walk relates to the last window it handed out.
spec fn follows(s: IterState, windows: Seq<BlockWindow>) -> bool {
    &&& s.wf()
    &&& windows.len() > 0 ==> match s.phase {
        Phase::First => false,
        Phase::Idle => s.window() == windows.last(),
        Phase::Stopped => true,
        _ => s.start_block == windows.last().stop + 1,
    }
}

proof fn lemma_walk(s: IterState, reports: Seq<(StepEvent, bool)>)
    requires
        s.wf(),
    ensures
        in_order(windows_emitted(s, reports)),
        follows(state_after(s, reports), windows_emitted(s, reports)),
    decreases reports.len(),
{
    if reports.len() > 0 {
        lemma_walk(s, reports.drop_last());
        let before = windows_emitted(s, reports.drop_last());
        let state = state_after(s, reports.drop_last());
        let after = windows_emitted(s, reports);
        match transition(state, reports.last().0, reports.last().1).1 {
            Action::Emit(window) => {
                assert(after == before.push(window));
                assert forall|i: int| 0 <= i < after.len() implies (#[trigger] after[i]).start
                    <= after[i].stop by {
                    if i < before.len() {
                        assert(after[i] == before[i]);
                    }
                }
                assert forall|i: int| 0 <= i < after.len() - 1 implies (#[trigger] after[i
                    + 1]).start == after[i].stop + 1 by {
                    if i < before.len() - 1 {
                        assert(after[i + 1] == before[i + 1]);
                        assert(after[i] == before[i]);
                    } else {
                        assert(after[i] == before.last());
                    }
                }
            },
            _ => {},
        }
    }
}

/// The windows of a walk are contiguous: whatever is reported to a walk, and in whatever
/// order, no window that it hands out is empty, and each window begins one block after
/// the window before it ends.
pub proof fn lemma_windows_contiguous(s: IterState, reports: Seq<(StepEvent, bool)>)
    requires
        s.wf(),
    ensures
        in_order(windows_emitted(s, reports)),
{
    lemma_walk(s, reports);
}

/// The windows of a walk move forward: each ends at or after the end of the window
/// before it, and in fact after it.
pub proof fn lemma_windows_monotonic(s: IterState, reports: Seq<(StepEvent, bool)>, i: int)
    requires
        s.wf(),
        0 <= i < windows_emitted(s, reports).len() - 1,
    ensures
        windows_emitted(s, reports)[i].start <= windows_emitted(s, reports)[i].stop,
        windows_emitted(s, reports)[i].stop < windows_emitted(s, reports)[i + 1].stop,
{
    lemma_walk(s, reports);
    let windows = windows_emitted(s, reports);
    assert(windows[i + 1].start == windows[i].stop + 1);
    assert(windows[i + 1].start <= windows[i + 1].stop);
}

/// A cancelled run hands out nothing: a step that finds the run cancelled never hands
/// out a window, and ends the walk unless it reports a failed query.
pub proof fn lemma_cancelled_step(s: IterState, event: StepEvent)
    ensures
        !(transition(s, event, false).1 is Emit),
        event != StepEvent::QueryFailed ==> transition(s, event, false) == (
            s.in_phase(Phase::Stopped),
            Action::Stop,
        ),
{
}

/// A walk that is over stays over.
pub proof fn lemma_stopped_is_final(s: IterState, event: StepEvent, running: bool)
    requires
        s.phase == Phase::Stopped,
    ensures
        transition(s, event, running) == (s, Action::Stop),
{
}

/// Once the run is cancelled, no window follows: a series of reports that all find the
/// run cancelled hands out no window, whatever the state it begins in.
pub proof fn lemma_no_window_after_cancel(s: IterState, reports: Seq<(StepEvent, bool)>)
    requires
        forall|i: int| 0 <= i < reports.len() ==> !(#[trigger] reports[i]).1,
    ensures
        windows_emitted(s, reports).len() == 0,
    decreases reports.len(),
{
    if reports.len() > 0 {
        let rest = reports.drop_last();
        assert forall|i: int| 0 <= i < rest.len() implies !(#[trigger] rest[i]).1 by {
            assert(rest[i] == reports[i]);
        }
        lemma_no_window_after_cancel(s, rest);
        lemma_cancelled_step(state_after(s, rest), reports.last().0);
    }
}

/// A walk cannot begin in the future: a configured first block beyond the last block
/// mined is refused, so that no walk exists and no window is handed out.
pub proof fn lemma_start_beyond_chain_is_refused(block_number: u64, last_mined_block: u64)
    requires
        block_number > last_mined_block,
    ensures
        first_block(StartBlock::Number(block_number), last_mined_block) == Err::<u64, Error>(
            Error::StartBlockExceedsLastBlockMined { start_block: block_number, last_mined_block },
        ),
{
}

} // verus!
