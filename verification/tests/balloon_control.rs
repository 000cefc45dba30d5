use std::collections::BTreeMap;
use std::collections::VecDeque;

use vmm_devices::balloon::Balloon;
use vmm_devices::balloon::BalloonMode;
use vmm_devices::balloon::BalloonStat;
use vmm_devices::balloon::BalloonState;
use vmm_devices::balloon::PausedQueues;
use vmm_devices::balloon::StoppedWorker;
use vmm_devices::balloon_control::adjusted_response;
use vmm_devices::balloon_control::config_bytes;
use vmm_devices::balloon_control::copy_config;
use vmm_devices::balloon_control::handle_command;
use vmm_devices::balloon_control::handle_ws_data;
use vmm_devices::balloon_control::next_adjusted_response;
use vmm_devices::balloon_control::pages_of;
use vmm_devices::balloon_control::parse_balloon_ws;
use vmm_devices::balloon_control::stat_records;
use vmm_devices::balloon_control::stats_response;
use vmm_devices::balloon_control::written_counts;
use vmm_devices::balloon_control::ws_bins_in_range;
use vmm_devices::balloon_control::ws_op_bytes;
use vmm_devices::balloon_control::ws_op_request;
use vmm_devices::balloon_control::BalloonTubeCommand;
use vmm_devices::balloon_control::BalloonTubeResult;
use vmm_devices::balloon_control::WSOp;
use vmm_devices::balloon_control::WsDataAction;
use vmm_devices::vm_control::BalloonWS;
use vmm_devices::vm_control::RegisteredEventWithData;
use vmm_devices::vm_control::WSBucket;

fn state(num_pages: u32, actual_pages: u32) -> BalloonState {
    BalloonState {
        num_pages,
        actual_pages,
        expecting_ws: false,
        failable_update: false,
        pending_adjusted_responses: VecDeque::new(),
    }
}

fn balloon(init_balloon_size: u64, ws_num_bins: u8) -> Balloon {
    Balloon::new(0, 3, None, init_balloon_size, BalloonMode::Relaxed, 0, None, ws_num_bins, Ok(9))
        .unwrap()
}

fn by_number<Q>(queues: Vec<Q>) -> BTreeMap<usize, Q> {
    queues.into_iter().enumerate().collect()
}

#[test]
fn pages_are_counted_in_32_bits() {
    assert_eq!(pages_of(0), 0);
    assert_eq!(pages_of(4095), 0);
    assert_eq!(pages_of(4096), 1);
    assert_eq!(pages_of(0x1234_5678), 0x1_2345);
    assert_eq!(pages_of((1 << 44) + 8192), 2);
    assert_eq!(pages_of(u64::MAX), 0xffff_ffff);
}

#[test]
fn a_resize_sets_the_target_and_tells_the_guest() {
    let mut s = state(1, 5);
    let effects =
        handle_command(&mut s, BalloonTubeCommand::Adjust { num_bytes: 0x7000, allow_failure: false });
    assert_eq!(s.num_pages, 7);
    assert!(!s.failable_update);
    assert!(effects.config_changed);
    assert_eq!(effects.adjusted, None);
    assert!(!effects.request_stats);
    assert!(effects.ws_op.is_none());
}

#[test]
fn a_resize_that_may_fail_is_answered_at_once_or_is_under_way() {
    let mut s = state(1, 5);
    let effects =
        handle_command(&mut s, BalloonTubeCommand::Adjust { num_bytes: 0x5000, allow_failure: true });
    assert_eq!(s.num_pages, 5);
    assert!(!s.failable_update);
    assert!(effects.config_changed);
    assert_eq!(effects.adjusted, Some(5));

    let effects =
        handle_command(&mut s, BalloonTubeCommand::Adjust { num_bytes: 0x9000, allow_failure: true });
    assert_eq!(s.num_pages, 9);
    assert!(s.failable_update);
    assert_eq!(effects.adjusted, None);

    // A later resize that may not fail leaves the first one under way.
    handle_command(&mut s, BalloonTubeCommand::Adjust { num_bytes: 0x9000, allow_failure: false });
    assert!(s.failable_update);
}

#[test]
fn other_commands_are_handed_on() {
    let mut s = state(1, 5);
    let effects = handle_command(&mut s, BalloonTubeCommand::Stats);
    assert!(effects.request_stats && !effects.config_changed && effects.ws_op.is_none());
    let effects = handle_command(&mut s, BalloonTubeCommand::WorkingSet);
    assert!(matches!(effects.ws_op, Some(WSOp::WSReport)));
    assert!(!effects.request_stats);
    let effects = handle_command(
        &mut s,
        BalloonTubeCommand::WorkingSetConfig {
            bins: vec![1, 2, 3],
            refresh_threshold: 4,
            report_threshold: 5,
        },
    );
    match effects.ws_op {
        Some(WSOp::WSConfig { bins, refresh_threshold, report_threshold }) => {
            assert_eq!((bins, refresh_threshold, report_threshold), (vec![1, 2, 3], 4, 5));
        }
        other => panic!("unexpected {:?}", other),
    }
    assert_eq!((s.num_pages, s.actual_pages, s.failable_update, s.expecting_ws), (1, 5, false, false));
}

#[test]
fn answers_to_resizes() {
    assert!(matches!(adjusted_response(3), BalloonTubeResult::Adjusted { num_bytes: 0x3000 }));
    assert!(matches!(
        adjusted_response(u32::MAX),
        BalloonTubeResult::Adjusted { num_bytes: 0xffff_ffff_000 }
    ));
    let mut s = state(0, 0);
    s.pending_adjusted_responses = VecDeque::from(vec![4, 5]);
    assert_eq!(next_adjusted_response(&mut s), Some(4));
    assert_eq!(next_adjusted_response(&mut s), Some(5));
    assert_eq!(next_adjusted_response(&mut s), None);
}

#[test]
fn statistics_are_read_from_bytes() {
    let mut bytes = Vec::new();
    bytes.extend_from_slice(&4u16.to_le_bytes());
    bytes.extend_from_slice(&0x1122_3344_5566_7788u64.to_le_bytes());
    bytes.extend_from_slice(&65535u16.to_le_bytes());
    bytes.extend_from_slice(&9u64.to_le_bytes());
    bytes.extend_from_slice(&[1, 2, 3]);
    let records = stat_records(&bytes);
    assert_eq!(
        records,
        vec![
            BalloonStat { tag: 4, val: 0x1122_3344_5566_7788 },
            BalloonStat { tag: 65535, val: 9 },
        ]
    );
    assert_eq!(stat_records(&bytes[..9]), vec![]);
    match stats_response(&state(0, 3), &records) {
        BalloonTubeResult::Stats { stats, balloon_actual } => {
            assert_eq!(balloon_actual, 3 * 4096);
            assert_eq!(stats.free_memory, Some(0x1122_3344_5566_7788));
            assert_eq!(stats.unevictable_memory, Some(9));
            assert_eq!(stats.swap_in, None);
        }
        other => panic!("unexpected {:?}", other),
    }
}

fn ws_record(age: u64, file: u64, anon: u64) -> Vec<u8> {
    let mut bytes = Vec::new();
    bytes.extend_from_slice(&7u16.to_le_bytes());
    bytes.extend_from_slice(&1u16.to_le_bytes());
    bytes.extend_from_slice(&[0xaa; 4]);
    bytes.extend_from_slice(&age.to_le_bytes());
    bytes.extend_from_slice(&file.to_le_bytes());
    bytes.extend_from_slice(&anon.to_le_bytes());
    bytes
}

#[test]
fn the_working_set_is_read_from_bytes() {
    let mut bytes = ws_record(100, 4096, 8192);
    bytes.extend(ws_record(u64::MAX, 1, 2));
    bytes.extend_from_slice(&[9; 31]);
    let ws = parse_balloon_ws(&bytes);
    assert_eq!(
        ws.ws,
        vec![
            WSBucket { age: 100, bytes: [4096, 8192] },
            WSBucket { age: u64::MAX, bytes: [1, 2] },
        ]
    );
    assert!(ws_bins_in_range(&ws));
    assert!(!ws_bins_in_range(&parse_balloon_ws(&bytes[..32])));
    assert!(!ws_bins_in_range(&parse_balloon_ws(&[])));
    let many = BalloonWS { ws: vec![WSBucket { age: 0, bytes: [0, 0] }; 17] };
    assert!(!ws_bins_in_range(&many));
    let most = BalloonWS { ws: vec![WSBucket { age: 0, bytes: [0, 0] }; 16] };
    assert!(ws_bins_in_range(&most));
}

#[test]
fn operations_on_the_working_set_in_bytes() {
    assert_eq!(ws_op_bytes(&WSOp::WSReport), vec![1, 0]);
    assert_eq!(
        ws_op_bytes(&WSOp::WSConfig {
            bins: vec![1, 0x0102_0304],
            refresh_threshold: 5,
            report_threshold: 0xffff_ffff,
        }),
        vec![2, 0, 1, 0, 0, 0, 4, 3, 2, 1, 5, 0, 0, 0, 255, 255, 255, 255]
    );
    assert_eq!(
        ws_op_bytes(&WSOp::WSConfig { bins: vec![], refresh_threshold: 0, report_threshold: 1 }),
        vec![2, 0, 0, 0, 0, 0, 1, 0, 0, 0]
    );
    let mut s = state(0, 0);
    let config = WSOp::WSConfig { bins: vec![], refresh_threshold: 0, report_threshold: 1 };
    assert_eq!(ws_op_request(&mut s, &config).len(), 10);
    assert!(!s.expecting_ws);
    assert_eq!(ws_op_request(&mut s, &WSOp::WSReport), vec![1, 0]);
    assert!(s.expecting_ws);
    ws_op_request(&mut s, &config);
    assert!(s.expecting_ws);
}

#[test]
fn a_report_goes_to_whoever_awaits_it() {
    let bucket = WSBucket { age: 1, bytes: [2, 3] };
    let mut s = state(0, 2);
    s.expecting_ws = true;
    match handle_ws_data(&mut s, BalloonWS { ws: vec![bucket] }, true) {
        WsDataAction::Respond(BalloonTubeResult::WorkingSet { ws, balloon_actual }) => {
            assert_eq!(ws.ws, vec![bucket]);
            assert_eq!(balloon_actual, 8192);
        }
        other => panic!("unexpected {:?}", other),
    }
    assert!(!s.expecting_ws);
    match handle_ws_data(&mut s, BalloonWS { ws: vec![bucket] }, true) {
        WsDataAction::Notify(RegisteredEventWithData::VirtioBalloonWsReport {
            ws_buckets,
            balloon_actual,
        }) => {
            assert_eq!(ws_buckets, vec![bucket]);
            assert_eq!(balloon_actual, 8192);
        }
        other => panic!("unexpected {:?}", other),
    }
    assert!(matches!(
        handle_ws_data(&mut s, BalloonWS { ws: vec![bucket] }, false),
        WsDataAction::Dropped
    ));
}

#[test]
fn the_configuration_in_bytes() {
    assert_eq!(
        config_bytes(0x0102_0304, 5, 6),
        vec![4, 3, 2, 1, 5, 0, 0, 0, 0, 0, 0, 0, 0, 0, 0, 0, 6, 0, 0, 0]
    );
    let b = balloon(0x3000, 4);
    let mut data = vec![0xee; 20];
    b.read_config(0, &mut data);
    assert_eq!(data, vec![3, 0, 0, 0, 0, 0, 0, 0, 0, 0, 0, 0, 0, 0, 0, 0, 4, 0, 0, 0]);
    let mut data = vec![0xee; 4];
    b.read_config(14, &mut data);
    assert_eq!(data, vec![0, 0, 4, 0]);
    // Past the end of the configuration nothing is read.
    let mut data = vec![0xee; 4];
    b.read_config(18, &mut data);
    assert_eq!(data, vec![0, 0, 0xee, 0xee]);
    let mut data = vec![0xee; 2];
    b.read_config(21, &mut data);
    assert_eq!(data, vec![0xee, 0xee]);
}

#[test]
fn copying_reaches_as_far_as_both_sides() {
    let mut dst = vec![0u8; 6];
    copy_config(&mut dst, 2, &[1, 2, 3, 4, 5, 6, 7], 3);
    assert_eq!(dst, vec![0, 0, 4, 5, 6, 7]);
    let mut dst = vec![0u8; 6];
    copy_config(&mut dst, 1, &[1, 2, 3], 1);
    assert_eq!(dst, vec![0, 2, 3, 0, 0, 0]);
    let mut dst = vec![9u8; 3];
    copy_config(&mut dst, 3, &[1, 2, 3], 0);
    assert_eq!(dst, vec![9, 9, 9]);
    copy_config(&mut dst, 4, &[1, 2, 3], 0);
    assert_eq!(dst, vec![9, 9, 9]);
    copy_config(&mut dst, 0, &[1, 2, 3], 4);
    assert_eq!(dst, vec![9, 9, 9]);
    copy_config(&mut dst, u64::MAX, &[1, 2, 3], u64::MAX);
    assert_eq!(dst, vec![9, 9, 9]);
}

#[test]
fn the_driver_writes_the_pages_that_the_balloon_holds() {
    assert_eq!(written_counts(3, 0, 0, 4, &7u32.to_le_bytes()), (3, 7));
    assert_eq!(written_counts(3, 0x0102_0304, 0, 5, &[0xff]), (3, 0x0102_ff04));
    assert_eq!(written_counts(3, 1, 0, 0, &[9, 0, 0, 0, 9, 0, 0, 0]), (9, 9));
    assert_eq!(written_counts(3, 1, 0, 8, &[9; 12]), (3, 1));

    let mut b = balloon(0x3000, 0);
    let effects = b.write_config(4, &2u32.to_le_bytes());
    assert!(!effects.target_reached);
    assert_eq!(effects.adjusted, None);
    let effects = b.write_config(4, &3u32.to_le_bytes());
    assert!(effects.target_reached);
    assert_eq!(effects.adjusted, None);
    let snap = b.virtio_snapshot();
    assert_eq!((snap.state.num_pages, snap.state.actual_pages), (3, 3));
    // What the driver writes over the target is not kept, but counts for the message.
    let effects = b.write_config(0, &[5, 0, 0, 0, 5, 0, 0, 0]);
    assert!(effects.target_reached);
    let snap = b.virtio_snapshot();
    assert_eq!((snap.state.num_pages, snap.state.actual_pages), (3, 5));
}

#[test]
fn a_balloon_sleeps_and_wakes_with_its_queues() {
    let mut paused = PausedQueues::new("i", "d");
    paused.stats = Some("s");
    assert_eq!(
        Balloon::virtio_sleep(StoppedWorker::WithQueues(paused)),
        Ok(Some(by_number(vec!["i", "d", "s"])))
    );
    assert_eq!(Balloon::virtio_sleep(StoppedWorker::<PausedQueues<u8>>::AlreadyStopped), Ok(None));
    assert_eq!(
        Balloon::virtio_sleep(StoppedWorker::<PausedQueues<u8>>::MissingQueues),
        Err("balloon queue workers did not stop cleanly.".to_string())
    );
    assert!(Balloon::reset(&StoppedWorker::WithQueues(1)));
    assert!(Balloon::reset(&StoppedWorker::<u8>::MissingQueues));
    assert!(!Balloon::reset(&StoppedWorker::<u8>::AlreadyStopped));

    let mut b = balloon(0, 0);
    b.ack_features(1 << 1);
    assert!(matches!(b.virtio_wake(None::<BTreeMap<usize, u8>>), Ok(None)));
    assert_eq!(
        b.virtio_wake(Some(by_number(vec!["i"]))).err(),
        Some("1 queues were found, but an activated balloon must have at least 2 active queues.".to_string())
    );
    assert_eq!(
        b.virtio_wake(Some(by_number(vec!["i", "d"]))).err(),
        Some("expected 3 queues, got 2".to_string())
    );
    let roles = b.virtio_wake(Some(by_number(vec!["i", "d", "s"]))).unwrap().unwrap();
    assert_eq!((roles.inflate, roles.deflate, roles.stats, roles.events), ("i", "d", Some("s"), None));
}
