//! The loop that walks the blocks of one network for a block handler.
//!
//! It paces itself as the event scan does, with the same events, but asks the
//! provider for nothing except the chain head: each window of blocks goes
//! straight to the handler. After `Spawn` the caller reports `Resume`, after
//! `Handle` it reports `Handled`.

use vstd::prelude::*;
use crate::handler::{BlockConfig, ExecutionMode};
use crate::latest_block_manager::{LatestBlockManager, HEAD_FRESHNESS_MILLIS};
use crate::process_logs::{clamped_end, next_window_end, window_end, Event, BACKOFF_MILLIS};

verus! {

/// Where a block walk stands between two events.
#[derive(Clone, Copy, Debug, PartialEq, Eq, Structural)]
pub enum BlockPhase {
    /// The next iteration begins when the caller resumes the walk.
    Idle,
    /// The provider has been asked for the chain head.
    AwaitingHead,
    /// The handler is running on the window up to `end_block` and the walk
    /// waits for it.
    Handling { end_block: u64 },
    /// The head query failed and the walk has ended.
    Failed,
}

/// What a block walk asks the caller to do.
#[derive(Clone, Copy, Debug, PartialEq, Eq, Structural)]
pub enum BlockAction {
    /// Ask the provider for the latest block number.
    FetchHead,
    /// Pause; the walk has caught up with the chain head.
    Sleep { millis: u64 },
    /// Start the handler on the window and do not wait for it.
    Spawn { from_block: u64, to_block: u64 },
    /// Run the handler on the window and wait for it.
    Handle { from_block: u64, to_block: u64 },
    /// End the task: the walk has failed.
    Exit,
    /// Nothing: the event is not one that the walk was waiting for.
    Ignore,
}

/// The state of one block walk.
#[derive(Debug, PartialEq, Eq)]
pub struct BlockScan {
    /// The source that is walked.
    pub config: BlockConfig,
    /// First block that has not been handed to the handler yet.
    pub current_block: u64,
    /// The walk's own view of the chain head.
    pub latest_block_manager: LatestBlockManager,
    /// Length of the pause taken when the walk has caught up.
    pub backoff: u64,
    /// Where the walk stands.
    pub phase: BlockPhase,
}

impl BlockScan {
    /// The window that the handler is running on ends after the current
    /// block, and only a serial handler is waited for.
    pub open spec fn wf(&self) -> bool {
        self.phase matches BlockPhase::Handling { end_block } ==> {
            &&& self.current_block < end_block
            &&& self.config.handler.execution_mode == ExecutionMode::Serial
        }
    }

    /// The walk in another phase.
    pub open spec fn in_phase(self, phase: BlockPhase) -> BlockScan {
        BlockScan { phase, ..self }
    }

    /// The walk once the window up to `end_block` is behind it.
    pub open spec fn advanced(self, end_block: u64) -> BlockScan {
        BlockScan { current_block: end_block, phase: BlockPhase::Idle, ..self }
    }

    /// The walk after the provider reported `block` as the chain head at
    /// `now`.
    pub open spec fn with_head(self, block: u64, now: u64) -> BlockScan {
        BlockScan { latest_block_manager: self.latest_block_manager.updated(block, now), ..self }
    }

    /// The pacing decision, taken once the chain head `latest` is known: pause
    /// where the window would be empty, else hand the window to the handler
    /// in the way that its execution mode asks for.
    pub open spec fn decide(self, latest: u64) -> (BlockScan, BlockAction) {
        match window_end(self.current_block, self.config.handler.step, latest) {
            Some(end_block) => match self.config.handler.execution_mode {
                ExecutionMode::Parallel => (
                    self.advanced(end_block),
                    BlockAction::Spawn { from_block: self.current_block, to_block: end_block },
                ),
                ExecutionMode::Serial => (
                    self.in_phase(BlockPhase::Handling { end_block }),
                    BlockAction::Handle { from_block: self.current_block, to_block: end_block },
                ),
            },
            None => (
                self.in_phase(BlockPhase::Idle),
                BlockAction::Sleep { millis: self.backoff },
            ),
        }
    }

    /// The start of an iteration at `now`: decide on the cached chain head
    /// while it is fresh, else ask the provider for it.
    pub open spec fn begin(self, now: u64) -> (BlockScan, BlockAction) {
        match self.latest_block_manager.lookup(now) {
            Some(latest) => self.decide(latest),
            None => (self.in_phase(BlockPhase::AwaitingHead), BlockAction::FetchHead),
        }
    }

    /// The transition of the walk: the state after `event` arrived at `now`,
    /// and the action that answers it.
    pub open spec fn step(self, event: Event, now: u64) -> (BlockScan, BlockAction) {
        match (self.phase, event) {
            (BlockPhase::Idle, Event::Resume) => self.begin(now),
            (BlockPhase::AwaitingHead, Event::Head { block }) => self.with_head(
                block,
                now,
            ).decide(block),
            (BlockPhase::AwaitingHead, Event::TransportError) => (
                self.in_phase(BlockPhase::Failed),
                BlockAction::Exit,
            ),
            (BlockPhase::Handling { end_block }, Event::Handled) => self.advanced(
                end_block,
            ).begin(now),
            (BlockPhase::Failed, _) => (self, BlockAction::Exit),
            _ => (self, BlockAction::Ignore),
        }
    }

    /// A walk at the start block of its handler, which pauses for five
    /// seconds when it has caught up and trusts a chain head for ten.
    pub fn new(config: BlockConfig) -> (scan: BlockScan)
        ensures
            scan.config == config,
            scan.current_block == config.handler.start_block,
            scan.latest_block_manager.value is None,
            scan.latest_block_manager.last_fetch == 0,
            scan.latest_block_manager.cache_duration == HEAD_FRESHNESS_MILLIS,
            scan.backoff == BACKOFF_MILLIS,
            scan.phase == BlockPhase::Idle,
            scan.wf(),
    {
        let current_block = config.handler.start_block;
        BlockScan {
            config,
            current_block,
            latest_block_manager: LatestBlockManager::new(HEAD_FRESHNESS_MILLIS),
            backoff: BACKOFF_MILLIS,
            phase: BlockPhase::Idle,
        }
    }

    fn run_decide(&mut self, latest: u64) -> (action: BlockAction)
        ensures
            (*final(self), action) == old(self).decide(latest),
    {
        let from_block = self.current_block;
        match next_window_end(from_block, self.config.handler.step, latest) {
            Some(end_block) => match self.config.handler.execution_mode {
                ExecutionMode::Parallel => {
                    self.current_block = end_block;
                    self.phase = BlockPhase::Idle;
                    BlockAction::Spawn { from_block, to_block: end_block }
                },
                ExecutionMode::Serial => {
                    self.phase = BlockPhase::Handling { end_block };
                    BlockAction::Handle { from_block, to_block: end_block }
                },
            },
            None => {
                self.phase = BlockPhase::Idle;
                BlockAction::Sleep { millis: self.backoff }
            },
        }
    }

    fn run_begin(&mut self, now: u64) -> (action: BlockAction)
        ensures
            (*final(self), action) == old(self).begin(now),
    {
        match self.latest_block_manager.get(now) {
            Some(latest) => self.run_decide(latest),
            None => {
                self.phase = BlockPhase::AwaitingHead;
                BlockAction::FetchHead
            },
        }
    }
}

/// Moves the walk of one block source forward by one event.
///
/// `now` is the caller's clock reading at the time of the event. The result is
/// what the caller has to do next; the walk records what it then waits for.
pub fn process_logs_block(scan: &mut BlockScan, event: Event, now: u64) -> (action: BlockAction)
    ensures
        (*final(scan), action) == old(scan).step(event, now),
        old(scan).wf() ==> final(scan).wf(),
        final(scan).config == old(scan).config,
        old(scan).wf() ==> final(scan).current_block >= old(scan).current_block,
{
    match (scan.phase, event) {
        (BlockPhase::Idle, Event::Resume) => scan.run_begin(now),
        (BlockPhase::AwaitingHead, Event::Head { block }) => {
            scan.latest_block_manager.update(block, now);
            scan.run_decide(block)
        },
        (BlockPhase::AwaitingHead, Event::TransportError) => {
            scan.phase = BlockPhase::Failed;
            BlockAction::Exit
        },
        (BlockPhase::Handling { end_block }, Event::Handled) => {
            scan.current_block = end_block;
            scan.phase = BlockPhase::Idle;
            scan.run_begin(now)
        },
        (BlockPhase::Failed, _) => BlockAction::Exit,
        _ => BlockAction::Ignore,
    }
}

/// The walk never moves backwards, and every window that it hands to the
/// handler is not empty, starts at the block that the walk stood at and ends
/// at the clamped end, which is no later than the chain head that the
/// decision was taken on.
pub proof fn lemma_windows_advance_below_head(scan: BlockScan, event: Event, now: u64)
    requires
        scan.wf(),
    ensures
        ({
            let (next, action) = scan.step(event, now);
            let handed = match action {
                BlockAction::Spawn { from_block, to_block } => Some((from_block, to_block)),
                BlockAction::Handle { from_block, to_block } => Some((from_block, to_block)),
                _ => None,
            };
            &&& next.wf()
            &&& next.config == scan.config
            &&& next.current_block >= scan.current_block
            &&& handed matches Some(window) ==> {
                &&& next.latest_block_manager.value matches Some(head)
                &&& window.0 < window.1 <= head
                &&& window.1 == clamped_end(window.0, scan.config.handler.step, head)
                &&& action is Spawn ==> window.0 == scan.current_block && next.current_block
                    == window.1 && next.phase == BlockPhase::Idle
                &&& action is Handle ==> window.0 == next.current_block && next.phase == (
                BlockPhase::Handling { end_block: window.1 })
            }
        }),
{
}

/// A serial walk waits for its handler: nothing is handed over while the
/// handler runs, and the next window begins where the finished one ended. A
/// parallel walk never waits.
pub proof fn lemma_serial_walk_waits(scan: BlockScan, event: Event, now: u64)
    requires
        scan.wf(),
    ensures
        ({
            let (next, action) = scan.step(event, now);
            &&& action is Handle ==> scan.config.handler.execution_mode == ExecutionMode::Serial
            &&& action is Spawn ==> scan.config.handler.execution_mode
                == ExecutionMode::Parallel
            &&& scan.phase matches BlockPhase::Handling { end_block } ==> {
                &&& event != Event::Handled ==> next == scan && action == BlockAction::Ignore
                &&& event == Event::Handled ==> next.current_block == end_block
                &&& action matches BlockAction::Handle { from_block, to_block } ==> from_block
                    == end_block
            }
        }),
{
}

/// The walk after a run of events, each with the clock reading at which it
/// arrived.
pub open spec fn after(scan: BlockScan, events: Seq<(Event, u64)>) -> BlockScan
    decreases events.len(),
{
    if events.len() == 0 {
        scan
    } else {
        after(scan.step(events[0].0, events[0].1).0, events.drop_first())
    }
}

/// Whatever happens to a walk, and in whatever order, its current block
/// never decreases and its source stays the same.
pub proof fn lemma_runs_never_move_backwards(scan: BlockScan, events: Seq<(Event, u64)>)
    requires
        scan.wf(),
    ensures
        after(scan, events).wf(),
        after(scan, events).current_block >= scan.current_block,
        after(scan, events).config == scan.config,
    decreases events.len(),
{
    if events.len() > 0 {
        lemma_windows_advance_below_head(scan, events[0].0, events[0].1);
        lemma_runs_never_move_backwards(
            scan.step(events[0].0, events[0].1).0,
            events.drop_first(),
        );
    }
}

/// A walk asks the provider for the chain head only when its snapshot is
/// not fresh, and it replaces the snapshot only by the answer to that
/// question.
pub proof fn lemma_head_is_asked_for_only_when_stale(scan: BlockScan, event: Event, now: u64)
    ensures
        ({
            let (next, action) = scan.step(event, now);
            &&& action is FetchHead ==> !next.latest_block_manager.is_fresh(now) && next.phase
                == BlockPhase::AwaitingHead
            &&& next.latest_block_manager != scan.latest_block_manager ==> {
                &&& scan.phase == BlockPhase::AwaitingHead
                &&& event matches Event::Head { block }
                &&& next.latest_block_manager == scan.latest_block_manager.updated(block, now)
            }
        }),
{
}

} // verus!
