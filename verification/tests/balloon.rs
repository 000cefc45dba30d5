use std::collections::BTreeMap;
use std::collections::VecDeque;

use vmm_devices::balloon::get_queues_from_map;
use vmm_devices::balloon::handle_address_chain;
use vmm_devices::balloon::pages_to_bytes;
use vmm_devices::balloon::parse_balloon_stats;
use vmm_devices::balloon::release_ranges;
use vmm_devices::balloon::unpin_ranges;
use vmm_devices::balloon::Balloon;
use vmm_devices::balloon::BalloonEffects;
use vmm_devices::balloon::BalloonQueues;
use vmm_devices::balloon::BalloonStat;
use vmm_devices::balloon::BalloonState;
use vmm_devices::balloon::BalloonStats;
use vmm_devices::balloon::PausedQueues;
use vmm_devices::balloon::UnpinResponse;
use vmm_devices::balloon::BalloonError;
use vmm_devices::balloon::BalloonFeatures;
use vmm_devices::balloon::BalloonMode;
use vmm_devices::balloon::VIRTIO_BALLOON_F_DEFLATE_ON_OOM;
use vmm_devices::balloon::VIRTIO_BALLOON_F_EVENTS_VQ;
use vmm_devices::balloon::VIRTIO_BALLOON_F_MUST_TELL_HOST;
use vmm_devices::balloon::VIRTIO_BALLOON_F_PAGE_REPORTING;
use vmm_devices::balloon::VIRTIO_BALLOON_F_RESPONSIVE_DEVICE;
use vmm_devices::balloon::VIRTIO_BALLOON_F_STATS_VQ;
use vmm_devices::balloon::VIRTIO_BALLOON_F_WS_REPORTING;
use vmm_devices::errno::Error;

/// The queues by their numbers, as the driver numbers them: from `first` on, without gaps.
fn by_number<Q>(first: usize, queues: Vec<Q>) -> BTreeMap<usize, Q> {
    queues.into_iter().enumerate().map(|(i, q)| (first + i, q)).collect()
}

#[test]
fn num_expected_queues() {
    let to_feature_bits =
        |features: &[u32]| -> u64 { features.iter().fold(0, |acc, f| acc | (1_u64 << f)) };

    assert_eq!(2, Balloon::num_expected_queues(0));
    assert_eq!(
        2,
        Balloon::num_expected_queues(to_feature_bits(&[VIRTIO_BALLOON_F_MUST_TELL_HOST]))
    );
    assert_eq!(
        3,
        Balloon::num_expected_queues(to_feature_bits(&[VIRTIO_BALLOON_F_STATS_VQ]))
    );
    assert_eq!(
        5,
        Balloon::num_expected_queues(to_feature_bits(&[
            VIRTIO_BALLOON_F_STATS_VQ,
            VIRTIO_BALLOON_F_EVENTS_VQ,
            VIRTIO_BALLOON_F_PAGE_REPORTING
        ]))
    );
    assert_eq!(
        7,
        Balloon::num_expected_queues(to_feature_bits(&[
            VIRTIO_BALLOON_F_STATS_VQ,
            VIRTIO_BALLOON_F_EVENTS_VQ,
            VIRTIO_BALLOON_F_PAGE_REPORTING,
            VIRTIO_BALLOON_F_WS_REPORTING
        ]))
    );
}

fn create_device(mode: BalloonMode, enabled: u64) -> Balloon {
    Balloon::new(0, 10, None, 1024, mode, enabled, None, 0, Ok(11)).unwrap()
}

#[test]
fn new_balloon_offers_features_of_its_mode() {
    let relaxed = create_device(BalloonMode::Relaxed, 0);
    assert_eq!(
        relaxed.features(),
        1 << VIRTIO_BALLOON_F_MUST_TELL_HOST
            | 1 << VIRTIO_BALLOON_F_STATS_VQ
            | 1 << VIRTIO_BALLOON_F_EVENTS_VQ
            | 1 << VIRTIO_BALLOON_F_DEFLATE_ON_OOM
    );
    assert_eq!(relaxed.features(), 0b1000_0111);
    let strict = create_device(
        BalloonMode::Strict,
        1 << BalloonFeatures::PageReporting.bit(),
    );
    assert_eq!(
        strict.features(),
        1 << VIRTIO_BALLOON_F_MUST_TELL_HOST
            | 1 << VIRTIO_BALLOON_F_STATS_VQ
            | 1 << VIRTIO_BALLOON_F_EVENTS_VQ
            | 1 << VIRTIO_BALLOON_F_RESPONSIVE_DEVICE
            | 1 << VIRTIO_BALLOON_F_PAGE_REPORTING
    );
    assert_eq!(strict.acked_features(), 0);
}

#[test]
fn new_balloon_fails_without_event() {
    let r = Balloon::new(
        0,
        10,
        None,
        1024,
        BalloonMode::Relaxed,
        0,
        None,
        0,
        Err(Error::new(24)),
    );
    assert!(matches!(r, Err(BalloonError::CreatingEvent(e)) if e == Error::new(24)));
}

#[test]
fn ack_features_keeps_only_what_is_offered() {
    let mut balloon = create_device(BalloonMode::Relaxed, 0);
    assert!(!balloon.ack_features(1 << VIRTIO_BALLOON_F_STATS_VQ));
    assert_eq!(balloon.acked_features(), 1 << VIRTIO_BALLOON_F_STATS_VQ);
    // Working-set reporting was not switched on.
    assert!(balloon.ack_features(
        1 << VIRTIO_BALLOON_F_WS_REPORTING | 1 << VIRTIO_BALLOON_F_EVENTS_VQ
    ));
    assert_eq!(
        balloon.acked_features(),
        1 << VIRTIO_BALLOON_F_STATS_VQ | 1 << VIRTIO_BALLOON_F_EVENTS_VQ
    );
    assert_eq!(Balloon::num_expected_queues(balloon.acked_features()), 4);
}

#[test]
fn balloon_names_its_descriptors() {
    let balloon =
        Balloon::new(0, 10, Some(12), 1024, BalloonMode::Relaxed, 0, Some(13), 0, Ok(11)).unwrap();
    assert_eq!(balloon.keep_rds(), vec![10, 12, 13, 11]);
    let balloon = create_device(BalloonMode::Relaxed, 0);
    assert_eq!(balloon.keep_rds(), vec![10, 11]);
}

#[test]
fn desc_parsing_inflate() {
    // Check that the page numbers are turned into the right addresses.
    let addrs = handle_address_chain(&vec![0x10, 0xaa55aa55]);
    assert_eq!(addrs.len(), 2);
    assert_eq!(addrs[0].0, 0x10u64 << 12);
    assert_eq!(addrs[1].0, 0xaa55aa55u64 << 12);
    assert_eq!(addrs[0].1, 4096);
    assert_eq!(addrs[1].1, 4096);
}

#[test]
fn neighbouring_pages_are_joined() {
    assert_eq!(handle_address_chain(&vec![]), vec![]);
    // Upwards.
    assert_eq!(handle_address_chain(&vec![5, 6, 7]), vec![(0x5000, 0x3000)]);
    // Downwards.
    assert_eq!(handle_address_chain(&vec![7, 6, 5]), vec![(0x5000, 0x3000)]);
    // Up, then down at the other end.
    assert_eq!(handle_address_chain(&vec![6, 7, 5, 4]), vec![(0x4000, 0x4000)]);
    // A gap closes the range.
    assert_eq!(
        handle_address_chain(&vec![1, 2, 9, 8, 20]),
        vec![(0x1000, 0x2000), (0x8000, 0x2000), (0x14000, 0x1000)]
    );
    // The same page twice is two ranges.
    assert_eq!(
        handle_address_chain(&vec![3, 3]),
        vec![(0x3000, 0x1000), (0x3000, 0x1000)]
    );
    // Page 0 first: it lies right behind the empty range at 0.
    assert_eq!(handle_address_chain(&vec![0, 1]), vec![(0, 0x2000)]);
    assert_eq!(
        handle_address_chain(&vec![u32::MAX]),
        vec![((u32::MAX as u64) << 12, 0x1000)]
    );
    let pfns = vec![9, 10, 3, 2, 1, 40, 41, 42, 7];
    let total: u64 = handle_address_chain(&pfns).iter().map(|r| r.1).sum();
    assert_eq!(total, pfns.len() as u64 * 4096);
}

#[test]
fn ranges_are_unpinned_by_page() {
    assert_eq!(
        unpin_ranges(&vec![(0x5000, 0x3000), (0x1234_5000, 0x1000)]),
        vec![(5, 3), (0x12345, 1)]
    );
    assert!(release_ranges(None));
    assert!(release_ranges(Some(Some(UnpinResponse::Success))));
    assert!(!release_ranges(Some(Some(UnpinResponse::Failed))));
    assert!(!release_ranges(Some(None)));
    assert_eq!(pages_to_bytes(3), 3 * 4096);
    assert_eq!(pages_to_bytes(u32::MAX), (u32::MAX as u64) << 12);
}

#[test]
fn statistics_are_gathered_by_tag() {
    let stats = parse_balloon_stats(&vec![
        BalloonStat { tag: 4, val: 100 },
        BalloonStat { tag: 5, val: 1000 },
        BalloonStat { tag: 77, val: 1 },
        BalloonStat { tag: 4, val: 200 },
        BalloonStat { tag: 65535, val: 9 },
        BalloonStat { tag: 0, val: 3 },
    ]);
    assert_eq!(
        stats,
        BalloonStats {
            swap_in: Some(3),
            free_memory: Some(200),
            total_memory: Some(1000),
            unevictable_memory: Some(9),
            ..Default::default()
        }
    );
    assert_eq!(parse_balloon_stats(&vec![]), BalloonStats::default());
}

fn state(num_pages: u32, actual_pages: u32, failable_update: bool) -> BalloonState {
    BalloonState {
        num_pages,
        actual_pages,
        expecting_ws: false,
        failable_update,
        pending_adjusted_responses: VecDeque::new(),
    }
}

#[test]
fn failed_inflation_ends_resize_that_may_fail() {
    let mut s = state(100, 40, true);
    let effects = s.handle_event(2);
    assert_eq!(
        effects,
        BalloonEffects {
            config_changed: true,
            target_reached: false,
            adjusted: Some(40)
        }
    );
    assert_eq!((s.num_pages, s.actual_pages, s.failable_update), (40, 40, false));
    // No resize under way, or another event: nothing happens.
    let mut s = state(100, 40, false);
    assert_eq!(s.handle_event(2).adjusted, None);
    assert_eq!(s.num_pages, 100);
    let mut s = state(100, 40, true);
    assert_eq!(s.handle_event(1).adjusted, None);
    assert!(s.failable_update);
}

#[test]
fn reaching_the_target_is_told() {
    let mut s = state(100, 40, true);
    let effects = s.write_actual(70);
    assert!(!effects.target_reached);
    assert_eq!(effects.adjusted, None);
    assert_eq!(s.actual_pages, 70);
    let effects = s.write_actual(100);
    assert!(effects.target_reached);
    assert_eq!(effects.adjusted, Some(100));
    assert!(!s.failable_update);
    assert_eq!(s.pending_adjusted_responses, VecDeque::from(vec![100]));
    let effects = s.write_actual(100);
    assert!(effects.target_reached);
    assert_eq!(effects.adjusted, None);
}

#[test]
fn queues_get_their_roles_by_order() {
    let f = |bits: &[u32]| -> u64 { bits.iter().fold(0, |acc, b| acc | (1_u64 << b)) };
    let roles = get_queues_from_map(0, by_number(0, vec!["i", "d"])).unwrap();
    assert_eq!((roles.inflate, roles.deflate), ("i", "d"));
    assert!(roles.stats.is_none() && roles.reporting.is_none() && roles.events.is_none());
    assert_eq!(roles.ws, (None, None));
    let roles = get_queues_from_map(
        f(&[
            VIRTIO_BALLOON_F_STATS_VQ,
            VIRTIO_BALLOON_F_EVENTS_VQ,
            VIRTIO_BALLOON_F_PAGE_REPORTING,
            VIRTIO_BALLOON_F_WS_REPORTING,
        ]),
        by_number(0, vec!["i", "d", "s", "r", "e", "w1", "w2"]),
    )
    .unwrap();
    assert_eq!((roles.inflate, roles.deflate), ("i", "d"));
    assert_eq!(roles.stats, Some("s"));
    assert_eq!(roles.reporting, Some("r"));
    assert_eq!(roles.events, Some("e"));
    assert_eq!(roles.ws, (Some("w1"), Some("w2")));
    // Without statistics the third queue is the next role that is there.
    let roles = get_queues_from_map(f(&[VIRTIO_BALLOON_F_EVENTS_VQ]), by_number(4, vec!["i", "d", "x"])).unwrap();
    assert_eq!(roles.stats, None);
    assert_eq!(roles.events, Some("x"));
    assert_eq!(
        get_queues_from_map(f(&[VIRTIO_BALLOON_F_STATS_VQ]), by_number(0, vec!["i", "d"])).err(),
        Some("expected 3 queues, got 2".to_owned())
    );
    assert_eq!(
        get_queues_from_map(0, BTreeMap::<usize, u8>::new()).err(),
        Some("expected 2 queues, got 0".to_owned())
    );
    let fresh = BalloonQueues::new(1, 2);
    assert_eq!((fresh.inflate, fresh.deflate, fresh.stats), (1, 2, None));
}

#[test]
fn paused_queues_are_numbered_in_order() {
    let mut paused = PausedQueues::new("i", "d");
    assert_eq!(PausedQueues::new("i", "d").into_queues(), by_number(0, vec!["i", "d"]));
    paused.reporting = Some("r");
    paused.ws = (Some("w1"), Some("w2"));
    assert_eq!(paused.into_queues(), by_number(0, vec!["i", "d", "r", "w1", "w2"]));
}

#[test]
fn balloon_is_saved_and_loaded() {
    let mut balloon = create_device(BalloonMode::Relaxed, 0);
    balloon.ack_features(1 << VIRTIO_BALLOON_F_STATS_VQ);
    assert!(!balloon.write_config(4, &100u32.to_le_bytes()).target_reached);
    let snap = balloon.virtio_snapshot();
    assert_eq!(snap.state.actual_pages, 100);
    assert_eq!(snap.state.num_pages, 0);
    assert_eq!(snap.acked_features, 2);
    let mut other = create_device(BalloonMode::Relaxed, 0);
    assert_eq!(other.virtio_restore(snap), Ok(()));
    assert_eq!(other.acked_features(), 2);
    assert_eq!(other.virtio_snapshot().state.actual_pages, 100);
    // A balloon with other features does not take the saved state.
    let mut strict = create_device(BalloonMode::Strict, 0);
    assert_eq!(
        strict.virtio_restore(balloon.virtio_snapshot()),
        Err("balloon: expected features to match, but they did not. Live: 195, snapshot 135".to_owned())
    );
    assert_eq!(strict.acked_features(), 0);
}
