//! The loop that scans one event source from its start block to the chain
//! head, written as a state machine.
//!
//! The caller owns the connection and the clock. It feeds the machine one
//! [`Event`] at a time, together with the current clock reading, and performs
//! the [`Action`] that comes back:
//!
//! | action      | what the caller does                     | next event              |
//! |-------------|------------------------------------------|-------------------------|
//! | `FetchHead` | asks the provider for the latest block   | `Head`, `TransportError` |
//! | `Sleep`     | pauses for the given time                | `Resume`                |
//! | `GetLogs`   | asks the provider for the logs           | `Logs`, `TransportError` |
//! | `SpawnAll`  | starts one task per log, waits for none  | `Resume`                |
//! | `Handle`    | runs the handler on one log and waits    | `Handled`               |
//! | `Exit`      | ends the task                            | none                    |
//!
//! The loop starts with `Resume`.

use vstd::prelude::*;
use crate::address::Address;
use crate::handler::{ExecutionMode, HandleInstance, HandlerConfig};
use crate::latest_block_manager::{LatestBlockManager, HEAD_FRESHNESS_MILLIS};

verus! {

/// How long a loop pauses once it has caught up with the chain head: five
/// seconds.
pub const BACKOFF_MILLIS: u64 = 5_000;

/// The end of the window that starts at `current`: `step` blocks further on,
/// but never past the chain head `latest`.
pub open spec fn clamped_end(current: u64, step: u64, latest: u64) -> int {
    if current + step > latest {
        latest as int
    } else {
        current + step
    }
}

/// The end of the next window to scan, or `None` where the source has caught
/// up with the chain head and the window would be empty.
pub open spec fn window_end(current: u64, step: u64, latest: u64) -> Option<u64> {
    if current < clamped_end(current, step, latest) {
        Some(clamped_end(current, step, latest) as u64)
    } else {
        None
    }
}

/// Computes [`window_end`]. The sum `current + step` is never formed in
/// machine arithmetic, so no pair of arguments overflows.
pub fn next_window_end(current: u64, step: u64, latest: u64) -> (end: Option<u64>)
    ensures
        end == window_end(current, step, latest),
        end matches Some(e) ==> current < e <= latest && e - current <= step,
        end is None <==> (step == 0 || latest <= current),
{
    if latest <= current || step == 0 {
        None
    } else if step < latest - current {
        Some(current + step)
    } else {
        Some(latest)
    }
}

/// Everything that one event scan is started from.
#[derive(Debug, PartialEq, Eq)]
pub struct ProcessEventsInput {
    /// Block at which the scan starts.
    pub start_block: u64,
    /// Contract whose logs are requested.
    pub address: Address,
    /// Largest number of blocks requested at once.
    pub step: u64,
    /// The handler that receives the logs.
    pub handler: HandleInstance,
}

impl ProcessEventsInput {
    /// The input that scans the source `config`.
    pub fn from_config(config: HandlerConfig) -> (input: ProcessEventsInput)
        ensures
            input.start_block == config.start_block,
            input.address == config.address,
            input.step == config.step,
            input.handler == config.handler,
    {
        ProcessEventsInput {
            start_block: config.start_block,
            address: config.address,
            step: config.step,
            handler: config.handler,
        }
    }
}

/// A request for the logs of one contract and one event in a block range.
#[derive(Debug, PartialEq, Eq)]
pub struct LogQuery {
    /// Contract that emitted the logs.
    pub address: Address,
    /// Signature of the event.
    pub event_signature: String,
    /// First block of the range.
    pub from_block: u64,
    /// Last block of the range.
    pub to_block: u64,
}

/// Where a scan stands between two events.
#[derive(Clone, Copy, Debug, PartialEq, Eq, Structural)]
pub enum Phase {
    /// The next iteration begins when the caller resumes the scan.
    Idle,
    /// The provider has been asked for the chain head.
    AwaitingHead,
    /// The provider has been asked for the logs up to `end_block`.
    AwaitingLogs { end_block: u64 },
    /// A serial batch of `total` logs is being handled; `done` of them are
    /// finished and the next one is running.
    Draining { end_block: u64, total: usize, done: usize },
    /// A query failed and the scan has ended.
    Failed,
}

/// What the caller reports to a scan.
#[derive(Clone, Copy, Debug, PartialEq, Eq, Structural)]
pub enum Event {
    /// The scan starts, the pause is over, or the batch has been handed off.
    Resume,
    /// The provider answered with the latest block number.
    Head { block: u64 },
    /// The provider answered with this many logs.
    Logs { count: usize },
    /// The handler invocation that the scan waited for has finished.
    Handled,
    /// The provider failed to answer.
    TransportError,
}

/// What a scan asks the caller to do.
#[derive(Debug, PartialEq, Eq)]
pub enum Action {
    /// Ask the provider for the latest block number.
    FetchHead,
    /// Pause; the source has caught up with the chain head.
    Sleep { millis: u64 },
    /// Ask the provider for the logs that match the query.
    GetLogs(LogQuery),
    /// Start one handler invocation for each of the `count` logs that the
    /// query returned, and wait for none of them.
    SpawnAll { count: usize },
    /// Run the handler on the log at `index` of the batch and wait for it.
    Handle { index: usize },
    /// End the task: the scan has failed.
    Exit,
    /// Nothing: the event is not one that the scan was waiting for.
    Ignore,
}

/// The state of one event scan.
#[derive(Debug, PartialEq, Eq)]
pub struct EventScan {
    /// What the scan was started from.
    pub input: ProcessEventsInput,
    /// First block that has not been scanned yet.
    pub current_block: u64,
    /// The scan's own view of the chain head.
    pub latest_block_manager: LatestBlockManager,
    /// Length of the pause taken when the source has caught up.
    pub backoff: u64,
    /// Where the scan stands.
    pub phase: Phase,
}

impl EventScan {
    /// The window that is being fetched or handled ends after the current
    /// block, and only a serial source drains a batch, which then has a log
    /// left to finish.
    pub open spec fn wf(&self) -> bool {
        match self.phase {
            Phase::AwaitingLogs { end_block } => self.current_block < end_block,
            Phase::Draining { end_block, total, done } => {
                &&& self.current_block < end_block
                &&& done < total
                &&& self.input.handler.execution_mode == ExecutionMode::Serial
            },
            _ => true,
        }
    }

    /// The query for the window that ends at `end_block`.
    pub open spec fn query(&self, end_block: u64) -> LogQuery {
        LogQuery {
            address: self.input.address,
            event_signature: self.input.handler.event_signature,
            from_block: self.current_block,
            to_block: end_block,
        }
    }

    /// The scan in another phase.
    pub open spec fn in_phase(self, phase: Phase) -> EventScan {
        EventScan { phase, ..self }
    }

    /// The scan once the window up to `end_block` is behind it.
    pub open spec fn advanced(self, end_block: u64) -> EventScan {
        EventScan { current_block: end_block, phase: Phase::Idle, ..self }
    }

    /// The scan after the provider reported `block` as the chain head at
    /// `now`.
    pub open spec fn with_head(self, block: u64, now: u64) -> EventScan {
        EventScan { latest_block_manager: self.latest_block_manager.updated(block, now), ..self }
    }

    /// The pacing decision, taken once the chain head `latest` is known: pause
    /// where the window would be empty, else ask for the window's logs.
    pub open spec fn decide(self, latest: u64) -> (EventScan, Action) {
        match window_end(self.current_block, self.input.step, latest) {
            Some(end_block) => (
                self.in_phase(Phase::AwaitingLogs { end_block }),
                Action::GetLogs(self.query(end_block)),
            ),
            None => (self.in_phase(Phase::Idle), Action::Sleep { millis: self.backoff }),
        }
    }

    /// The start of an iteration at `now`: decide on the cached chain head
    /// while it is fresh, else ask the provider for it.
    pub open spec fn begin(self, now: u64) -> (EventScan, Action) {
        match self.latest_block_manager.lookup(now) {
            Some(latest) => self.decide(latest),
            None => (self.in_phase(Phase::AwaitingHead), Action::FetchHead),
        }
    }

    /// What happens once the query for the window up to `end_block` returned
    /// `count` logs.
    pub open spec fn dispatch(self, end_block: u64, count: usize, now: u64) -> (
        EventScan,
        Action,
    ) {
        if count == 0 {
            self.advanced(end_block).begin(now)
        } else {
            match self.input.handler.execution_mode {
                ExecutionMode::Parallel => (
                    self.advanced(end_block),
                    Action::SpawnAll { count },
                ),
                ExecutionMode::Serial => (
                    self.in_phase(Phase::Draining { end_block, total: count, done: 0 }),
                    Action::Handle { index: 0 },
                ),
            }
        }
    }

    /// What happens once one more invocation of a serial batch has finished.
    pub open spec fn drain(self, end_block: u64, total: usize, done: usize, now: u64) -> (
        EventScan,
        Action,
    ) {
        if done + 1 < total {
            (
                self.in_phase(Phase::Draining { end_block, total, done: (done + 1) as usize }),
                Action::Handle { index: (done + 1) as usize },
            )
        } else {
            self.advanced(end_block).begin(now)
        }
    }

    /// The transition of the scan: the state after `event` arrived at `now`,
    /// and the action that answers it.
    pub open spec fn step(self, event: Event, now: u64) -> (EventScan, Action) {
        match (self.phase, event) {
            (Phase::Idle, Event::Resume) => self.begin(now),
            (Phase::AwaitingHead, Event::Head { block }) => self.with_head(block, now).decide(
                block,
            ),
            (Phase::AwaitingHead, Event::TransportError) => (
                self.in_phase(Phase::Failed),
                Action::Exit,
            ),
            (Phase::AwaitingLogs { end_block }, Event::Logs { count }) => self.dispatch(
                end_block,
                count,
                now,
            ),
            (Phase::AwaitingLogs { .. }, Event::TransportError) => (
                self.in_phase(Phase::Failed),
                Action::Exit,
            ),
            (Phase::Draining { end_block, total, done }, Event::Handled) => self.drain(
                end_block,
                total,
                done,
                now,
            ),
            (Phase::Failed, _) => (self, Action::Exit),
            _ => (self, Action::Ignore),
        }
    }

    /// A scan at the start of its source, which pauses for five seconds when
    /// it has caught up and trusts a chain head for ten.
    pub fn new(input: ProcessEventsInput) -> (scan: EventScan)
        ensures
            scan.input == input,
            scan.current_block == input.start_block,
            scan.latest_block_manager.value is None,
            scan.latest_block_manager.last_fetch == 0,
            scan.latest_block_manager.cache_duration == HEAD_FRESHNESS_MILLIS,
            scan.backoff == BACKOFF_MILLIS,
            scan.phase == Phase::Idle,
            scan.wf(),
    {
        let current_block = input.start_block;
        EventScan {
            input,
            current_block,
            latest_block_manager: LatestBlockManager::new(HEAD_FRESHNESS_MILLIS),
            backoff: BACKOFF_MILLIS,
            phase: Phase::Idle,
        }
    }

    fn run_decide(&mut self, latest: u64) -> (action: Action)
        ensures
            (*final(self), action) == old(self).decide(latest),
    {
        match next_window_end(self.current_block, self.input.step, latest) {
            Some(end_block) => {
                self.phase = Phase::AwaitingLogs { end_block };
                Action::GetLogs(
                    LogQuery {
                        address: self.input.address,
                        event_signature: self.input.handler.event_signature.clone(),
                        from_block: self.current_block,
                        to_block: end_block,
                    },
                )
            },
            None => {
                self.phase = Phase::Idle;
                Action::Sleep { millis: self.backoff }
            },
        }
    }

    fn run_begin(&mut self, now: u64) -> (action: Action)
        ensures
            (*final(self), action) == old(self).begin(now),
    {
        match self.latest_block_manager.get(now) {
            Some(latest) => self.run_decide(latest),
            None => {
                self.phase = Phase::AwaitingHead;
                Action::FetchHead
            },
        }
    }

    fn run_advance(&mut self, end_block: u64)
        ensures
            *final(self) == old(self).advanced(end_block),
    {
        self.current_block = end_block;
        self.phase = Phase::Idle;
    }
}

/// Moves the scan of one event source forward by one event.
///
/// `now` is the caller's clock reading at the time of the event. The result is
/// what the caller has to do next; the scan records what it then waits for.
pub fn process_logs(scan: &mut EventScan, event: Event, now: u64) -> (action: Action)
    ensures
        (*final(scan), action) == old(scan).step(event, now),
        old(scan).wf() ==> final(scan).wf(),
        final(scan).input == old(scan).input,
        old(scan).wf() ==> final(scan).current_block >= old(scan).current_block,
{
    match (scan.phase, event) {
        (Phase::Idle, Event::Resume) => scan.run_begin(now),
        (Phase::AwaitingHead, Event::Head { block }) => {
            scan.latest_block_manager.update(block, now);
            scan.run_decide(block)
        },
        (Phase::AwaitingHead, Event::TransportError) => {
            scan.phase = Phase::Failed;
            Action::Exit
        },
        (Phase::AwaitingLogs { end_block }, Event::Logs { count }) => {
            if count == 0 {
                scan.run_advance(end_block);
                scan.run_begin(now)
            } else {
                match scan.input.handler.execution_mode {
                    ExecutionMode::Parallel => {
                        scan.run_advance(end_block);
                        Action::SpawnAll { count }
                    },
                    ExecutionMode::Serial => {
                        scan.phase = Phase::Draining { end_block, total: count, done: 0 };
                        Action::Handle { index: 0 }
                    },
                }
            }
        },
        (Phase::AwaitingLogs { .. }, Event::TransportError) => {
            scan.phase = Phase::Failed;
            Action::Exit
        },
        (Phase::Draining { end_block, total, done }, Event::Handled) => {
            if done < total && total - done > 1 {
                scan.phase = Phase::Draining { end_block, total, done: done + 1 };
                Action::Handle { index: done + 1 }
            } else {
                scan.run_advance(end_block);
                scan.run_begin(now)
            }
        },
        (Phase::Failed, _) => Action::Exit,
        _ => Action::Ignore,
    }
}

/// The scan never moves backwards, and every range that it asks for is not
/// empty, starts at the current block and ends at the clamped end of the
/// window, which is no later than the chain head that the decision was taken
/// on.
pub proof fn lemma_ranges_advance_below_head(scan: EventScan, event: Event, now: u64)
    requires
        scan.wf(),
    ensures
        ({
            let (next, action) = scan.step(event, now);
            &&& next.wf()
            &&& next.input == scan.input
            &&& next.current_block >= scan.current_block
            &&& action matches Action::GetLogs(query) ==> {
                &&& next.latest_block_manager.value matches Some(head)
                &&& query.from_block == next.current_block
                &&& query.from_block < query.to_block <= head
                &&& query.to_block == clamped_end(next.current_block, next.input.step, head)
                &&& query.address == scan.input.address
                &&& query.event_signature == scan.input.handler.event_signature
                &&& next.phase == Phase::AwaitingLogs { end_block: query.to_block }
            }
        }),
{
}

/// A source that has caught up with the chain head pauses: where the clamped
/// end of the window is not past the current block the decision is to sleep
/// for the back-off time, nothing is asked of the provider, and the current
/// block stays where it is.
pub proof fn lemma_caught_up_pauses(scan: EventScan, latest: u64)
    requires
        scan.current_block >= clamped_end(scan.current_block, scan.input.step, latest),
    ensures
        scan.decide(latest).1 == (Action::Sleep { millis: scan.backoff }),
        scan.decide(latest).0 == scan.in_phase(Phase::Idle),
        scan.decide(latest).0.current_block == scan.current_block,
{
}

/// The clamped end of a window never exceeds the chain head, and it is the
/// chain head exactly when the candidate end is not below it.
pub proof fn lemma_end_is_clamped(current: u64, step: u64, latest: u64)
    ensures
        clamped_end(current, step, latest) <= latest,
        clamped_end(current, step, latest) <= current + step,
        current + step >= latest ==> clamped_end(current, step, latest) == latest,
        current + step <= latest ==> clamped_end(current, step, latest) == current + step,
{
}

/// A serial source handles one log at a time and in order. The first log of a
/// batch is started when the batch arrives. Every later log is started only
/// in answer to the report that the log before it has finished. While a batch
/// is being drained the current block does not move.
pub proof fn lemma_serial_batches_run_in_order(scan: EventScan, event: Event, now: u64)
    requires
        scan.wf(),
    ensures
        ({
            let (next, action) = scan.step(event, now);
            &&& action matches Action::Handle { index } ==> {
                &&& scan.input.handler.execution_mode == ExecutionMode::Serial
                &&& next.phase matches Phase::Draining { end_block, total, done }
                &&& done == index
                &&& index < total
                &&& index == 0 ==> scan.phase == (Phase::AwaitingLogs { end_block }) && event == (
                Event::Logs { count: total })
                &&& index > 0 ==> event == Event::Handled && scan.phase == (Phase::Draining {
                    end_block,
                    total,
                    done: (index - 1) as usize,
                })
            }
            &&& next.phase is Draining ==> next.current_block == scan.current_block
            &&& scan.phase matches Phase::Draining { end_block, total, done } ==> {
                &&& event == Event::Handled && done + 1 < total ==> action == (Action::Handle {
                    index: (done + 1) as usize,
                })
                &&& event == Event::Handled && done + 1 == total ==> next.current_block
                    == end_block
                &&& event != Event::Handled ==> next == scan && action == Action::Ignore
            }
        }),
{
}

/// A parallel source hands a whole batch off at once: every log of it may
/// run at the same time, the scan waits for none of them, and the window is
/// behind it as soon as the batch is handed off.
pub proof fn lemma_parallel_batches_start_together(scan: EventScan, count: usize, now: u64)
    requires
        scan.wf(),
        scan.phase is AwaitingLogs,
        scan.input.handler.execution_mode == ExecutionMode::Parallel,
        count > 0,
    ensures
        ({
            let (next, action) = scan.step(Event::Logs { count }, now);
            &&& action == Action::SpawnAll { count }
            &&& next.phase == Phase::Idle
            &&& next.current_block == scan.phase->AwaitingLogs_end_block
        }),
{
}

/// Only a parallel source ever hands off a batch without waiting, and only
/// when the batch arrives.
pub proof fn lemma_only_parallel_sources_spawn(scan: EventScan, event: Event, now: u64)
    requires
        scan.wf(),
    ensures
        scan.step(event, now).1 matches Action::SpawnAll { count } ==> {
            &&& scan.input.handler.execution_mode == ExecutionMode::Parallel
            &&& event == Event::Logs { count }
            &&& scan.phase is AwaitingLogs
        },
{
}

/// A scan asks the provider for the chain head only when its snapshot is
/// not fresh, and it replaces the snapshot only by the answer to that
/// question. So between two questions at least the freshness window passes,
/// however often the scan iterates.
pub proof fn lemma_head_is_asked_for_only_when_stale(scan: EventScan, event: Event, now: u64)
    ensures
        ({
            let (next, action) = scan.step(event, now);
            &&& action is FetchHead ==> !next.latest_block_manager.is_fresh(now) && next.phase
                == Phase::AwaitingHead
            &&& next.latest_block_manager != scan.latest_block_manager ==> {
                &&& scan.phase == Phase::AwaitingHead
                &&& event matches Event::Head { block }
                &&& next.latest_block_manager == scan.latest_block_manager.updated(block, now)
            }
        }),
{
}

/// The scan after a run of events, each with the clock reading at which it
/// arrived.
pub open spec fn after(scan: EventScan, events: Seq<(Event, u64)>) -> EventScan
    decreases events.len(),
{
    if events.len() == 0 {
        scan
    } else {
        after(scan.step(events[0].0, events[0].1).0, events.drop_first())
    }
}

/// Whatever happens to a scan, and in whatever order, its current block
/// never decreases and its source stays the same.
pub proof fn lemma_runs_never_move_backwards(scan: EventScan, events: Seq<(Event, u64)>)
    requires
        scan.wf(),
    ensures
        after(scan, events).wf(),
        after(scan, events).current_block >= scan.current_block,
        after(scan, events).input == scan.input,
    decreases events.len(),
{
    if events.len() > 0 {
        lemma_ranges_advance_below_head(scan, events[0].0, events[0].1);
        lemma_runs_never_move_backwards(
            scan.step(events[0].0, events[0].1).0,
            events.drop_first(),
        );
    }
}

/// While a serial batch has logs left, each report of a finished invocation
/// starts the next log and nothing else: after as many reports as `times`
/// holds, that many more logs are done, the one after them is running, and
/// the current block has not moved.
pub proof fn lemma_serial_batch_drains_in_order(scan: EventScan, times: Seq<u64>)
    requires
        scan.wf(),
        scan.phase matches Phase::Draining { total, done, .. } && done + times.len() < total,
    ensures
        ({
            let reports = times.map_values(|time: u64| (Event::Handled, time));
            &&& after(scan, reports).phase == (Phase::Draining {
                end_block: scan.phase->Draining_end_block,
                total: scan.phase->Draining_total,
                done: (scan.phase->Draining_done + times.len()) as usize,
            })
            &&& after(scan, reports).current_block == scan.current_block
            &&& after(scan, reports).wf()
        }),
    decreases times.len(),
{
    let reports = times.map_values(|time: u64| (Event::Handled, time));
    if times.len() > 0 {
        let next = scan.step(Event::Handled, times[0]).0;
        let rest = times.drop_first().map_values(|time: u64| (Event::Handled, time));
        assert(reports[0] == (Event::Handled, times[0]));
        assert(reports.drop_first() =~= rest);
        lemma_serial_batch_drains_in_order(next, times.drop_first());
    }
}

} // verus!
