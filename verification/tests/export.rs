//! The export document and the timestamp text.

use route_tracker::coordinate_transformer::WorldPositionTransformer;
use route_tracker::goods_events::GoodsEventsLoader;
use route_tracker::numtext::parse_milli;
use route_tracker::numtext::parse_u32;
use route_tracker::route::generate_timestamp;
use route_tracker::tracker::RouteTracker;
use route_tracker::tracker::TickInput;
use route_tracker::route::TorrentDebugInfo;

#[test]
fn timestamp_text() {
    assert_eq!(generate_timestamp(0), "1970-01-01 00:00:00");
    // 2024-ish: 1717200000 seconds.
    let t = generate_timestamp(1_717_200_000);
    assert!(t.starts_with("20"));
    assert_eq!(t.len(), 19);
    assert_eq!(generate_timestamp(86_399), "1970-01-01 23:59:59");
}

#[test]
fn empty_session_cannot_be_exported() {
    let t = RouteTracker::new(
        WorldPositionTransformer::empty(),
        GoodsEventsLoader::empty(),
        100,
        0,
        None,
    );
    assert_eq!(t.save_route("2024-01-01 00:00:00").unwrap_err(), "No route data to save");
}

#[test]
fn export_round_trips_through_json() {
    let mut t = RouteTracker::new(
        WorldPositionTransformer::empty(),
        GoodsEventsLoader::empty(),
        100,
        0,
        Some(3),
    );
    t.start_recording(0, Some(3), None, Vec::new());
    let mut input = TickInput {
        now_ms: 100,
        pose: Some((10_000, 100_000, 20_000)),
        map_id: Some(0x3C282300),
        death_count: Some(4),
        anim: Some(7),
        torrent_debug: TorrentDebugInfo::default(),
        flag_states: Vec::new(),
    };
    t.record_position(&input);
    input.now_ms = 250;
    input.death_count = Some(4);
    t.record_position(&input);

    let json = t.save_route("2024-06-01 12:00:00").unwrap();
    let v: serde_json::Value = serde_json::from_str(&json).unwrap();
    assert_eq!(v["name"], "Route 2024-06-01 12:00:00");
    assert_eq!(v["recorded_at"], "2024-06-01 12:00:00");
    assert_eq!(v["interval_ms"], 100);
    assert_eq!(v["point_count"], 2);
    assert_eq!(v["duration_secs"], 0.25);
    let points = v["points"].as_array().unwrap();
    assert_eq!(points.len(), 2);
    assert_eq!(points[0]["x"], 10.0);
    assert_eq!(points[0]["global_x"], 10250.0);
    assert_eq!(points[0]["global_z"], 8980.0);
    assert_eq!(points[0]["map_id_str"], "m60_40_35_00");
    assert_eq!(points[0]["timestamp_ms"], 100);
    assert_eq!(points[0]["on_torrent"], false);
    assert_eq!(points[0]["cur_anim"], 7);
    assert_eq!(points[0]["torrent_debug"]["horse_state"], serde_json::Value::Null);
    let deaths = v["deaths"].as_array().unwrap();
    assert_eq!(deaths.len(), 1);
    assert_eq!(deaths[0]["global_x"], 10250.0);
    assert_eq!(deaths[0]["timestamp_ms"], 100);
    assert_eq!(v["fog_traversals"].as_array().unwrap().len(), 0);
    assert_eq!(v["item_events"].as_array().unwrap().len(), 0);
}

#[test]
fn number_text_parses() {
    assert_eq!(parse_u32("17"), Some(17));
    assert_eq!(parse_u32("+17"), Some(17));
    assert_eq!(parse_u32("4294967295"), Some(u32::MAX));
    assert_eq!(parse_u32("4294967296"), None);
    assert_eq!(parse_u32(""), None);
    assert_eq!(parse_u32("1x"), None);
    assert_eq!(parse_milli("1.5"), Some(1_500));
    assert_eq!(parse_milli("-1.5"), Some(-1_500));
    assert_eq!(parse_milli("10"), Some(10_000));
    assert_eq!(parse_milli("+0.125"), Some(125));
    assert_eq!(parse_milli("0.1259"), Some(125));
    assert_eq!(parse_milli("."), None);
    assert_eq!(parse_milli("1."), None);
    assert_eq!(parse_milli("e"), None);
}
