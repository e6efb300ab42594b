use ghost_crab::address::Address;
use ghost_crab::handler::{ExecutionMode, HandleInstance};
use ghost_crab::latest_block_manager::HEAD_FRESHNESS_MILLIS;
use ghost_crab::process_logs::{
    next_window_end, process_logs, Action, Event, EventScan, LogQuery, Phase, ProcessEventsInput,
    BACKOFF_MILLIS,
};

const TRANSFER: &str = "Transfer(address,address,uint256)";

fn token() -> Address {
    Address { bytes: [0x11; 20] }
}

fn handler(mode: ExecutionMode) -> HandleInstance {
    HandleInstance {
        id: 7,
        source: String::from("Token"),
        network: String::from("mainnet"),
        event_signature: String::from(TRANSFER),
        address: token(),
        start_block: 100,
        is_template: false,
        execution_mode: mode,
    }
}

fn scan_from(start_block: u64, step: u64, mode: ExecutionMode) -> EventScan {
    EventScan::new(ProcessEventsInput { start_block, address: token(), step, handler: handler(mode) })
}

fn query(from_block: u64, to_block: u64) -> Action {
    Action::GetLogs(LogQuery {
        address: token(),
        event_signature: String::from(TRANSFER),
        from_block,
        to_block,
    })
}

#[test]
fn new_scan_starts_idle_at_start_block() {
    let scan = scan_from(100, 10_000, ExecutionMode::Parallel);
    assert_eq!(scan.current_block, 100);
    assert_eq!(scan.phase, Phase::Idle);
    assert_eq!(scan.backoff, 5_000);
    assert_eq!(BACKOFF_MILLIS, 5_000);
    assert_eq!(scan.latest_block_manager.cache_duration, 10_000);
    assert_eq!(HEAD_FRESHNESS_MILLIS, 10_000);
    assert_eq!(scan.latest_block_manager.value, None);
}

#[test]
fn first_iteration_scans_one_step() {
    let mut scan = scan_from(100, 10_000, ExecutionMode::Parallel);
    assert_eq!(process_logs(&mut scan, Event::Resume, 0), Action::FetchHead);
    assert_eq!(scan.phase, Phase::AwaitingHead);
    assert_eq!(process_logs(&mut scan, Event::Head { block: 50_000 }, 3), query(100, 10_100));
    assert_eq!(scan.phase, Phase::AwaitingLogs { end_block: 10_100 });
    assert_eq!(scan.current_block, 100);
    assert_eq!(
        process_logs(&mut scan, Event::Logs { count: 4 }, 9),
        Action::SpawnAll { count: 4 }
    );
    assert_eq!(scan.current_block, 10_100);
    assert_eq!(scan.phase, Phase::Idle);
}

#[test]
fn query_carries_address_and_signature_of_the_source() {
    let mut scan = scan_from(100, 10_000, ExecutionMode::Serial);
    process_logs(&mut scan, Event::Resume, 0);
    match process_logs(&mut scan, Event::Head { block: 50_000 }, 0) {
        Action::GetLogs(found) => {
            assert_eq!(found.address, token());
            assert_eq!(found.event_signature, TRANSFER);
            assert_eq!(found.from_block, 100);
            assert_eq!(found.to_block, 10_100);
        }
        other => panic!("expected a log query, got {:?}", other),
    }
}

#[test]
fn second_iteration_uses_the_cached_head() {
    let mut scan = scan_from(100, 10_000, ExecutionMode::Parallel);
    process_logs(&mut scan, Event::Resume, 0);
    process_logs(&mut scan, Event::Head { block: 50_000 }, 0);
    process_logs(&mut scan, Event::Logs { count: 1 }, 100);
    assert_eq!(process_logs(&mut scan, Event::Resume, 200), query(10_100, 20_100));
    assert_eq!(scan.latest_block_manager.value, Some(50_000));
    assert_eq!(scan.latest_block_manager.last_fetch, 0);
}

#[test]
fn stale_head_is_fetched_again() {
    let mut scan = scan_from(100, 10_000, ExecutionMode::Parallel);
    process_logs(&mut scan, Event::Resume, 0);
    process_logs(&mut scan, Event::Head { block: 50_000 }, 0);
    process_logs(&mut scan, Event::Logs { count: 1 }, 100);
    assert_eq!(process_logs(&mut scan, Event::Resume, 10_000), Action::FetchHead);
    assert_eq!(process_logs(&mut scan, Event::Head { block: 50_003 }, 10_050), query(10_100, 20_100));
    assert_eq!(scan.latest_block_manager.value, Some(50_003));
    assert_eq!(scan.latest_block_manager.last_fetch, 10_050);
}

#[test]
fn end_is_clamped_to_chain_head() {
    let mut scan = scan_from(45_000, 10_000, ExecutionMode::Parallel);
    process_logs(&mut scan, Event::Resume, 0);
    assert_eq!(process_logs(&mut scan, Event::Head { block: 50_000 }, 0), query(45_000, 50_000));
}

#[test]
fn caught_up_source_sleeps_and_rechecks_head() {
    let mut scan = scan_from(50_000, 10_000, ExecutionMode::Parallel);
    assert_eq!(process_logs(&mut scan, Event::Resume, 0), Action::FetchHead);
    assert_eq!(
        process_logs(&mut scan, Event::Head { block: 50_000 }, 0),
        Action::Sleep { millis: 5_000 }
    );
    assert_eq!(scan.current_block, 50_000);
    assert_eq!(scan.phase, Phase::Idle);
    // Five seconds later the snapshot is still fresh: no query, another pause.
    assert_eq!(process_logs(&mut scan, Event::Resume, 5_000), Action::Sleep { millis: 5_000 });
    assert_eq!(scan.current_block, 50_000);
    // Ten seconds after the fetch the head is asked for again.
    assert_eq!(process_logs(&mut scan, Event::Resume, 10_000), Action::FetchHead);
    assert_eq!(process_logs(&mut scan, Event::Head { block: 50_012 }, 10_020), query(50_000, 50_012));
}

#[test]
fn source_ahead_of_head_sleeps() {
    let mut scan = scan_from(60_000, 10_000, ExecutionMode::Serial);
    process_logs(&mut scan, Event::Resume, 0);
    assert_eq!(
        process_logs(&mut scan, Event::Head { block: 50_000 }, 0),
        Action::Sleep { millis: 5_000 }
    );
    assert_eq!(scan.current_block, 60_000);
}

#[test]
fn zero_step_never_queries() {
    let mut scan = scan_from(100, 0, ExecutionMode::Parallel);
    process_logs(&mut scan, Event::Resume, 0);
    assert_eq!(
        process_logs(&mut scan, Event::Head { block: 50_000 }, 0),
        Action::Sleep { millis: 5_000 }
    );
}

#[test]
fn window_near_the_largest_block_number_does_not_overflow() {
    let mut scan = scan_from(u64::MAX - 5, 10_000, ExecutionMode::Parallel);
    process_logs(&mut scan, Event::Resume, 0);
    assert_eq!(
        process_logs(&mut scan, Event::Head { block: u64::MAX }, 0),
        query(u64::MAX - 5, u64::MAX)
    );
}

#[test]
fn next_window_end_values() {
    assert_eq!(next_window_end(100, 10_000, 50_000), Some(10_100));
    assert_eq!(next_window_end(45_000, 10_000, 50_000), Some(50_000));
    assert_eq!(next_window_end(40_000, 10_000, 50_000), Some(50_000));
    assert_eq!(next_window_end(39_999, 10_000, 50_000), Some(49_999));
    assert_eq!(next_window_end(50_000, 10_000, 50_000), None);
    assert_eq!(next_window_end(50_001, 10_000, 50_000), None);
    assert_eq!(next_window_end(0, 0, 50_000), None);
    assert_eq!(next_window_end(0, 1, 1), Some(1));
    assert_eq!(next_window_end(u64::MAX - 1, u64::MAX, u64::MAX), Some(u64::MAX));
    assert_eq!(next_window_end(0, u64::MAX, 7), Some(7));
}

#[test]
fn current_block_never_decreases_and_ranges_stay_below_head() {
    let mut scan = scan_from(100, 10_000, ExecutionMode::Parallel);
    let heads = [50_000u64, 50_000, 50_000, 50_000, 50_000, 50_000, 50_004, 50_004];
    let mut now = 0u64;
    let mut last = scan.current_block;
    let mut action = process_logs(&mut scan, Event::Resume, now);
    let mut fetches = 0usize;
    let mut queries = 0usize;
    for _ in 0..60 {
        now += 2_500;
        let event = match &action {
            Action::FetchHead => {
                let head = heads[fetches.min(heads.len() - 1)];
                fetches += 1;
                Event::Head { block: head }
            }
            Action::GetLogs(found) => {
                queries += 1;
                let head = scan.latest_block_manager.value.unwrap();
                assert_eq!(found.from_block, scan.current_block);
                assert!(found.from_block < found.to_block);
                assert!(found.to_block <= head);
                assert!(found.to_block - found.from_block <= 10_000);
                Event::Logs { count: 2 }
            }
            Action::Sleep { millis } => {
                assert_eq!(*millis, 5_000);
                Event::Resume
            }
            Action::SpawnAll { count } => {
                assert_eq!(*count, 2);
                Event::Resume
            }
            other => panic!("unexpected action {:?}", other),
        };
        action = process_logs(&mut scan, event, now);
        assert!(scan.current_block >= last);
        last = scan.current_block;
    }
    assert_eq!(queries, 6);
    assert_eq!(scan.current_block, 50_004);
}

#[test]
fn serial_batch_is_handled_one_log_at_a_time() {
    let mut scan = scan_from(100, 10_000, ExecutionMode::Serial);
    process_logs(&mut scan, Event::Resume, 0);
    process_logs(&mut scan, Event::Head { block: 50_000 }, 0);
    assert_eq!(process_logs(&mut scan, Event::Logs { count: 3 }, 1), Action::Handle { index: 0 });
    assert_eq!(scan.phase, Phase::Draining { end_block: 10_100, total: 3, done: 0 });
    assert_eq!(scan.current_block, 100);
    assert_eq!(process_logs(&mut scan, Event::Handled, 2), Action::Handle { index: 1 });
    assert_eq!(scan.phase, Phase::Draining { end_block: 10_100, total: 3, done: 1 });
    assert_eq!(scan.current_block, 100);
    assert_eq!(process_logs(&mut scan, Event::Handled, 3), Action::Handle { index: 2 });
    assert_eq!(scan.current_block, 100);
    // Only when the last log is done does the scan move on to the next range.
    assert_eq!(process_logs(&mut scan, Event::Handled, 4), query(10_100, 20_100));
    assert_eq!(scan.current_block, 10_100);
}

#[test]
fn serial_scan_ignores_everything_but_completion_while_draining() {
    let mut scan = scan_from(100, 10_000, ExecutionMode::Serial);
    process_logs(&mut scan, Event::Resume, 0);
    process_logs(&mut scan, Event::Head { block: 50_000 }, 0);
    process_logs(&mut scan, Event::Logs { count: 2 }, 1);
    let before = scan.phase;
    for event in [
        Event::Resume,
        Event::Head { block: 60_000 },
        Event::Logs { count: 9 },
        Event::TransportError,
    ] {
        assert_eq!(process_logs(&mut scan, event, 2), Action::Ignore);
        assert_eq!(scan.phase, before);
        assert_eq!(scan.current_block, 100);
    }
}

#[test]
fn serial_batch_of_one_log() {
    let mut scan = scan_from(100, 10_000, ExecutionMode::Serial);
    process_logs(&mut scan, Event::Resume, 0);
    process_logs(&mut scan, Event::Head { block: 50_000 }, 0);
    assert_eq!(process_logs(&mut scan, Event::Logs { count: 1 }, 1), Action::Handle { index: 0 });
    assert_eq!(process_logs(&mut scan, Event::Handled, 2), query(10_100, 20_100));
}

#[test]
fn parallel_batch_is_spawned_at_once() {
    let mut scan = scan_from(100, 10_000, ExecutionMode::Parallel);
    process_logs(&mut scan, Event::Resume, 0);
    process_logs(&mut scan, Event::Head { block: 50_000 }, 0);
    assert_eq!(
        process_logs(&mut scan, Event::Logs { count: 250 }, 1),
        Action::SpawnAll { count: 250 }
    );
    assert_eq!(scan.phase, Phase::Idle);
    assert_eq!(scan.current_block, 10_100);
    // The scan does not wait for a completion report.
    assert_eq!(process_logs(&mut scan, Event::Handled, 2), Action::Ignore);
    assert_eq!(process_logs(&mut scan, Event::Resume, 3), query(10_100, 20_100));
}

#[test]
fn empty_batch_moves_straight_to_the_next_range() {
    for mode in [ExecutionMode::Parallel, ExecutionMode::Serial] {
        let mut scan = scan_from(100, 10_000, mode);
        process_logs(&mut scan, Event::Resume, 0);
        process_logs(&mut scan, Event::Head { block: 50_000 }, 0);
        assert_eq!(process_logs(&mut scan, Event::Logs { count: 0 }, 1), query(10_100, 20_100));
        assert_eq!(scan.current_block, 10_100);
    }
}

#[test]
fn failed_head_query_ends_the_scan() {
    let mut scan = scan_from(100, 10_000, ExecutionMode::Parallel);
    process_logs(&mut scan, Event::Resume, 0);
    assert_eq!(process_logs(&mut scan, Event::TransportError, 1), Action::Exit);
    assert_eq!(scan.phase, Phase::Failed);
    assert_eq!(scan.current_block, 100);
    assert_eq!(process_logs(&mut scan, Event::Resume, 2), Action::Exit);
    assert_eq!(process_logs(&mut scan, Event::Head { block: 5 }, 3), Action::Exit);
    assert_eq!(scan.phase, Phase::Failed);
}

#[test]
fn failed_log_query_ends_the_scan() {
    let mut scan = scan_from(100, 10_000, ExecutionMode::Serial);
    process_logs(&mut scan, Event::Resume, 0);
    process_logs(&mut scan, Event::Head { block: 50_000 }, 0);
    assert_eq!(process_logs(&mut scan, Event::TransportError, 1), Action::Exit);
    assert_eq!(scan.phase, Phase::Failed);
    assert_eq!(scan.current_block, 100);
}

#[test]
fn event_out_of_turn_is_ignored() {
    let mut scan = scan_from(100, 10_000, ExecutionMode::Parallel);
    assert_eq!(process_logs(&mut scan, Event::Head { block: 9 }, 0), Action::Ignore);
    assert_eq!(process_logs(&mut scan, Event::Logs { count: 1 }, 0), Action::Ignore);
    assert_eq!(process_logs(&mut scan, Event::TransportError, 0), Action::Ignore);
    assert_eq!(scan.phase, Phase::Idle);
    assert_eq!(scan.latest_block_manager.value, None);
    process_logs(&mut scan, Event::Resume, 0);
    assert_eq!(process_logs(&mut scan, Event::Resume, 0), Action::Ignore);
    assert_eq!(scan.phase, Phase::AwaitingHead);
}

#[test]
fn input_from_config_keeps_every_field() {
    let config = ghost_crab::handler::HandlerConfig {
        start_block: 12,
        address: token(),
        step: 500,
        handler: handler(ExecutionMode::Serial),
    };
    let input = ProcessEventsInput::from_config(config.clone());
    assert_eq!(input.start_block, 12);
    assert_eq!(input.address, token());
    assert_eq!(input.step, 500);
    assert_eq!(input.handler, config.handler);
}
