//! The recording state machine: interval gating, death and crossing and
//! item edges, and session lifecycle.

use route_tracker::coordinate_transformer::WorldPositionTransformer;
use route_tracker::goods_events::GoodsEventsLoader;
use route_tracker::route::TorrentDebugInfo;
use route_tracker::tracker::RouteTracker;
use route_tracker::tracker::TickInput;
use route_tracker::tracker::FOG_WALL_ANIM_ID;

fn fresh_tracker() -> RouteTracker {
    RouteTracker::new(
        WorldPositionTransformer::empty(),
        GoodsEventsLoader::empty(),
        100,
        0,
        Some(3),
    )
}

fn tick(now_ms: u64, pose: Option<(i64, i64, i64)>, map_id: Option<u32>) -> TickInput {
    TickInput {
        now_ms,
        pose,
        map_id,
        death_count: None,
        anim: None,
        torrent_debug: TorrentDebugInfo::default(),
        flag_states: Vec::new(),
    }
}

#[test]
fn recorder_needs_start() {
    let mut t = fresh_tracker();
    assert!(!t.is_recording());
    let r = t.record_position(&tick(100, Some((1_000, 2_000, 3_000)), Some(0x3C282300)));
    assert!(r.is_none());
    assert_eq!(t.route().len(), 0);
}

#[test]
fn ticks_between_intervals_are_no_ops() {
    let mut t = fresh_tracker();
    t.start_recording(0, Some(3), None, Vec::new());
    assert!(t.is_recording());
    let pose = Some((10_000, 100_000, 20_000));
    let map = Some(0x3C282300u32);
    assert!(t.record_position(&tick(100, pose, map)).is_none());
    assert_eq!(t.route().len(), 1);
    // Faster than the 100 ms interval: sample count unchanged.
    assert!(t.record_position(&tick(150, pose, map)).is_none());
    assert_eq!(t.route().len(), 1);
    assert!(t.record_position(&tick(199, pose, map)).is_none());
    assert_eq!(t.route().len(), 1);
    // The interval has elapsed again.
    t.record_position(&tick(200, pose, map));
    assert_eq!(t.route().len(), 2);
}

#[test]
fn restart_discards_samples_and_events() {
    let mut t = fresh_tracker();
    t.start_recording(0, Some(3), None, Vec::new());
    let pose = Some((10_000, 100_000, 20_000));
    let map = Some(0x3C282300u32);
    let mut input = tick(100, pose, map);
    input.death_count = Some(4);
    t.record_position(&input);
    assert_eq!(t.route().len(), 1);
    assert_eq!(t.deaths().len(), 1);
    t.stop_recording();
    assert!(!t.is_recording());
    t.start_recording(1_000, Some(4), None, Vec::new());
    assert_eq!(t.route().len(), 0);
    assert_eq!(t.deaths().len(), 0);
    assert_eq!(t.fog_traversals().len(), 0);
    assert_eq!(t.item_events().len(), 0);
}

#[test]
fn unreadable_position_skips_the_tick() {
    let mut t = fresh_tracker();
    t.start_recording(0, Some(3), None, Vec::new());
    assert!(t.record_position(&tick(100, None, Some(0x3C282300))).is_none());
    assert!(t.record_position(&tick(200, Some((1_000, 2_000, 3_000)), None)).is_none());
    assert_eq!(t.route().len(), 0);
}

#[test]
fn death_edge_fires_once_with_pose_and_time() {
    // Death counter 3 -> 4 on a valid tick: exactly one death event with
    // that tick's global pose and timestamp.
    let mut t = fresh_tracker();
    t.start_recording(0, Some(3), None, Vec::new());
    let pose = Some((10_000, 100_000, 20_000));
    let map = Some(0x3C282300u32);
    let mut input = tick(100, pose, map);
    input.death_count = Some(4);
    t.record_position(&input);
    assert_eq!(t.deaths().len(), 1);
    let d = &t.deaths()[0];
    assert_eq!(d.global_x, 10_250_000);
    assert_eq!(d.global_y, 100_000);
    assert_eq!(d.global_z, 8_980_000);
    assert_eq!(d.map_id_str, "m60_40_35_00");
    assert_eq!(d.timestamp_ms, 100);
    // The counter stays at 4: no further event.
    let mut input2 = tick(200, pose, map);
    input2.death_count = Some(4);
    t.record_position(&input2);
    assert_eq!(t.deaths().len(), 1);
    assert_eq!(t.route().len(), 2);
}

#[test]
fn death_baseline_updates_only_on_successful_reads() {
    let mut t = fresh_tracker();
    t.start_recording(0, Some(3), None, Vec::new());
    let pose = Some((10_000, 100_000, 20_000));
    let map = Some(0x3C282300u32);
    // A failed counter read fires nothing and keeps the baseline at 3, so
    // a death during the read blackout is still caught by the next
    // successful read.
    t.record_position(&tick(100, pose, map));
    assert_eq!(t.deaths().len(), 0);
    let mut input = tick(200, pose, map);
    input.death_count = Some(4);
    t.record_position(&input);
    assert_eq!(t.deaths().len(), 1);
    assert_eq!(t.deaths()[0].timestamp_ms, 200);
    // The baseline is now 4: the same reading fires nothing further.
    let mut input2 = tick(300, pose, map);
    input2.death_count = Some(4);
    t.record_position(&input2);
    assert_eq!(t.deaths().len(), 1);
}

#[test]
fn crossing_pairs_entry_and_exit_across_invalid_ticks() {
    // [not-crossing, crossing(valid), invalid, invalid, not-crossing(valid)]
    // gives exactly one crossing, timed by the first and last valid ticks.
    let mut t = fresh_tracker();
    t.start_recording(0, Some(3), None, Vec::new());
    let pose = Some((10_000, 100_000, 20_000));
    let map = Some(0x3C2A2400u32); // m60_42_36, Limgrave
    let exit_map = Some(0x3C2A2700u32); // m60_42_39, Stormhill

    t.record_position(&tick(100, pose, map));
    let mut enter = tick(200, pose, map);
    enter.anim = Some(FOG_WALL_ANIM_ID);
    let r = t.record_position(&enter);
    assert!(r.is_none());
    assert!(t.has_pending_crossing());
    // Invalid ticks: sentinel tile and all-zero pose.
    let invalid1 = tick(300, Some((0, 0, 0)), Some(0xFFFFFFFF));
    t.record_position(&invalid1);
    let invalid2 = tick(400, Some((0, 0, 0)), Some(0xFFFFFFFF));
    t.record_position(&invalid2);
    assert!(t.has_pending_crossing());
    assert_eq!(t.fog_traversals().len(), 0);
    // A valid, not-crossing tick closes the pair and hands the discovery out.
    let exit = tick(500, pose, exit_map);
    let discovery = t.record_position(&exit);
    assert_eq!(
        discovery,
        Some(("Limgrave".to_string(), "Stormhill".to_string()))
    );
    assert!(!t.has_pending_crossing());
    assert_eq!(t.fog_traversals().len(), 1);
    let f = &t.fog_traversals()[0];
    assert_eq!(f.entry_zone_name, "Limgrave");
    assert_eq!(f.exit_zone_name, "Stormhill");
    assert_eq!(f.entry_timestamp_ms, 200);
    assert_eq!(f.exit_timestamp_ms, 500);
    assert_eq!(f.entry_map_id_str, "m60_42_36_00");
    assert_eq!(f.exit_map_id_str, "m60_42_39_00");
}

#[test]
fn crossing_without_valid_return_gives_no_event() {
    let mut t = fresh_tracker();
    t.start_recording(0, Some(3), None, Vec::new());
    let pose = Some((10_000, 100_000, 20_000));
    let map = Some(0x3C2A2400u32);
    t.record_position(&tick(100, pose, map));
    let mut enter = tick(200, pose, map);
    enter.anim = Some(FOG_WALL_ANIM_ID);
    t.record_position(&enter);
    // Only invalid ticks follow.
    t.record_position(&tick(300, Some((0, 0, 0)), Some(0xFFFFFFFF)));
    t.record_position(&tick(400, Some((0, 0, 0)), Some(0xFFFFFFFF)));
    assert_eq!(t.fog_traversals().len(), 0);
}

#[test]
fn crossing_needs_valid_pose_to_open() {
    let mut t = fresh_tracker();
    t.start_recording(0, Some(3), None, Vec::new());
    // The crossing animation on an invalid pose opens nothing.
    let mut enter = tick(100, Some((0, 0, 0)), Some(0x3C2A2400));
    enter.anim = Some(FOG_WALL_ANIM_ID);
    t.record_position(&enter);
    assert!(!t.has_pending_crossing());
}

#[test]
fn item_edge_fires_on_rising_flag() {
    let rows = vec![
        "EventID\tItemID\tName".to_string(),
        "60100\t1001\tGolden Seed".to_string(),
        "60110\t1002\tSacred Tear".to_string(),
    ];
    let goods = GoodsEventsLoader::from_rows(&rows);
    let mut t = RouteTracker::new(WorldPositionTransformer::empty(), goods, 100, 0, Some(0));
    t.start_recording(0, Some(0), None, vec![Some(false), Some(true)]);
    let pose = Some((10_000, 100_000, 20_000));
    let map = Some(0x3C282300u32);
    // First flag rises; the second stays true, which is no edge.
    let mut input = tick(100, pose, map);
    input.flag_states = vec![Some(true), Some(true)];
    t.record_position(&input);
    assert_eq!(t.item_events().len(), 1);
    let e = &t.item_events()[0];
    assert_eq!(e.event_id, 60100);
    assert_eq!(e.item_id, 1001);
    assert_eq!(e.item_name, "Golden Seed");
    assert_eq!(e.timestamp_ms, 100);
    // Held true: still no new edge.
    let mut input2 = tick(200, pose, map);
    input2.flag_states = vec![Some(true), Some(true)];
    t.record_position(&input2);
    assert_eq!(t.item_events().len(), 1);
}

#[test]
fn item_snapshot_keeps_failed_reads() {
    let rows = vec![
        "EventID\tItemID\tName".to_string(),
        "60100\t1001\tGolden Seed".to_string(),
    ];
    let goods = GoodsEventsLoader::from_rows(&rows);
    let mut t = RouteTracker::new(WorldPositionTransformer::empty(), goods, 100, 0, Some(0));
    t.start_recording(0, Some(0), None, vec![Some(true)]);
    let pose = Some((10_000, 100_000, 20_000));
    let map = Some(0x3C282300u32);
    // A failed read keeps the snapshot at true, so a later true is no edge.
    let mut input = tick(100, pose, map);
    input.flag_states = vec![None];
    t.record_position(&input);
    let mut input2 = tick(200, pose, map);
    input2.flag_states = vec![Some(true)];
    t.record_position(&input2);
    assert_eq!(t.item_events().len(), 0);
}

#[test]
fn sample_records_pose_and_fallback() {
    let mut t = fresh_tracker();
    t.start_recording(0, Some(3), None, Vec::new());
    // An unknown tile falls back to the local pose as global.
    let mut input = tick(100, Some((1_000, 2_000, 3_000)), Some(0x0A000000));
    input.anim = Some(42);
    t.record_position(&input);
    let p = &t.route()[0];
    assert_eq!((p.x, p.y, p.z), (1_000, 2_000, 3_000));
    assert_eq!((p.global_x, p.global_y, p.global_z), (1_000, 2_000, 3_000));
    assert_eq!(p.map_id, 0x0A000000);
    assert_eq!(p.map_id_str, "m10_00_00_00");
    assert_eq!(p.cur_anim, Some(42));
    assert_eq!(p.timestamp_ms, 100);
    assert!(!p.on_torrent);
}

#[test]
fn mounted_state_comes_from_the_mount_reading() {
    let mut t = fresh_tracker();
    t.start_recording(0, Some(3), None, Vec::new());
    let mut input = tick(100, Some((1_000, 2_000, 3_000)), Some(0x3C282300));
    input.torrent_debug = TorrentDebugInfo {
        horse_state: Some(5),
        ..TorrentDebugInfo::default()
    };
    t.record_position(&input);
    assert!(t.route()[0].on_torrent);
}

#[test]
fn status_message_expires() {
    let mut t = fresh_tracker();
    t.set_status("Saved".to_string(), 1_000);
    assert_eq!(t.get_status(1_000), Some("Saved"));
    assert_eq!(t.get_status(3_999), Some("Saved"));
    assert_eq!(t.get_status(4_000), None);
}

#[test]
fn clear_route_drops_samples_only() {
    let mut t = fresh_tracker();
    t.start_recording(0, Some(3), None, Vec::new());
    let mut input = tick(100, Some((10_000, 100_000, 20_000)), Some(0x3C282300));
    input.death_count = Some(4);
    t.record_position(&input);
    t.clear_route();
    assert_eq!(t.route().len(), 0);
    assert_eq!(t.deaths().len(), 1);
}

#[test]
fn current_position_reports_local_and_global() {
    let t = fresh_tracker();
    let r = t.get_current_position(Some((10_000, 100_000, 20_000)), Some(0x3C282300));
    assert_eq!(r, Some((10_000, 100_000, 20_000, 10_250_000, 100_000, 8_980_000, 0x3C282300)));
    assert_eq!(t.get_current_position(None, Some(1)), None);
}
