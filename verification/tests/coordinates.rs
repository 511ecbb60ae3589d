//! Coordinate conversion: tile identifiers, the overworld grid rule, and
//! the anchor path. Coordinates are thousandths of a world unit.

use route_tracker::coordinate_transformer::TransformError;
use route_tracker::coordinate_transformer::WorldPositionTransformer;

/// One table row mapping tile (a, gx, gz) through an anchor.
fn row(
    a: u32,
    gx: u32,
    gz: u32,
    src: (&str, &str, &str),
    da: u32,
    dgx: u32,
    dgz: u32,
    dst: (&str, &str, &str),
) -> String {
    // Columns 5..7 are the source tile, 9..11 the source position, 12..14
    // the destination tile, 15..17 the destination position.
    format!(
        "c0,c1,c2,c3,c4,{},{},{},c8,{},{},{},{},{},{},{},{},{}",
        a, gx, gz, src.0, src.1, src.2, da, dgx, dgz, dst.0, dst.1, dst.2
    )
}

#[test]
fn test_parse_map_id() {
    // m60_40_35_00 = 0x3C282300
    let map_id = 0x3C282300u32;
    let (ww, xx, yy, dd) = WorldPositionTransformer::parse_map_id(map_id);
    assert_eq!(ww, 60);
    assert_eq!(xx, 40);
    assert_eq!(yy, 35);
    assert_eq!(dd, 0);
}

#[test]
fn test_format_map_id() {
    let map_id = 0x3C282300u32;
    let formatted = WorldPositionTransformer::format_map_id(map_id);
    assert_eq!(formatted, "m60_40_35_00");
}

#[test]
fn test_overworld_conversion() {
    // Create empty transformer (no anchor table needed for overworld)
    let transformer = WorldPositionTransformer::empty();
    assert_eq!(transformer.anchor_count(), 0);
    assert_eq!(transformer.map_count(), 0);

    // m60_40_35_00
    let map_id = 0x3C282300u32;
    let (x, y, z) = (10_000i64, 100_000i64, 20_000i64);

    let (gx, gy, gz) = transformer.local_to_world_first(map_id, x, y, z).unwrap();
    // GX = x + 40 * 256 = 10 + 10240 = 10250
    assert_eq!(gx as f64 / 1000.0, 10.0 + 40.0 * 256.0);
    // GY = y (unchanged)
    assert_eq!(gy as f64 / 1000.0, 100.0);
    // GZ = z + 35 * 256 = 20 + 8960 = 8980
    assert_eq!(gz as f64 / 1000.0, 20.0 + 35.0 * 256.0);
}

#[test]
fn test_end_to_end_overworld_scenario() {
    // Tile m60_40_35_00, local pose (10, 100, 20) -> global (10250, 100, 8980).
    let transformer = WorldPositionTransformer::empty();
    let g = transformer
        .local_to_world_first(0x3C282300u32, 10_000, 100_000, 20_000)
        .unwrap();
    assert_eq!(g, (10_250_000, 100_000, 8_980_000));
}

#[test]
fn test_unknown_tile_is_reported_by_name() {
    let transformer = WorldPositionTransformer::empty();
    let err = transformer
        .local_to_world_first(0x0A000000u32, 0, 0, 0)
        .unwrap_err();
    match err {
        TransformError::UnknownMap(name) => assert_eq!(name, "m10_00_00_00"),
        TransformError::IoError(_) => panic!("wrong error kind"),
    }
}

#[test]
fn test_anchor_two_step_rule() {
    // One anchor for m10_00_00: src (5, 1, 7) -> m60 tile (40, 35) at (15, 2, 27).
    let rows = vec![
        "header".to_string(),
        row(10, 0, 0, ("5", "1", "7"), 60, 40, 35, ("15", "2", "27")),
    ];
    let t = WorldPositionTransformer::from_rows(&rows);
    assert_eq!(t.anchor_count(), 1);
    assert_eq!(t.map_count(), 1);
    // local (10, 100, 20): local_in_canonical = local - src + dst
    //   = (20, 101, 40); global = (20 + 40*256, 101, 40 + 35*256).
    let g = t
        .local_to_world_first(0x0A000000u32, 10_000, 100_000, 20_000)
        .unwrap();
    assert_eq!(g, (20_000 + 40 * 256_000, 101_000, 40_000 + 35 * 256_000));
}

#[test]
fn test_overworld_anchor_preferred_regardless_of_order() {
    // Two anchors for the same tile; only the second targets the overworld.
    let a_other = row(10, 0, 0, ("0", "0", "0"), 12, 1, 1, ("1", "1", "1"));
    let a_ow = row(10, 0, 0, ("5", "1", "7"), 60, 40, 35, ("15", "2", "27"));
    let expect = (20_000 + 40 * 256_000, 101_000, 40_000 + 35 * 256_000);

    let t1 = WorldPositionTransformer::from_rows(&vec![
        "header".to_string(),
        a_other.clone(),
        a_ow.clone(),
    ]);
    // Two anchors, one source tile.
    assert_eq!(t1.anchor_count(), 2);
    assert_eq!(t1.map_count(), 1);
    let g1 = t1
        .local_to_world_first(0x0A000000u32, 10_000, 100_000, 20_000)
        .unwrap();
    assert_eq!(g1, expect);

    let t2 = WorldPositionTransformer::from_rows(&vec!["header".to_string(), a_ow, a_other]);
    let g2 = t2
        .local_to_world_first(0x0A000000u32, 10_000, 100_000, 20_000)
        .unwrap();
    assert_eq!(g2, expect);
}

#[test]
fn test_bad_rows_are_skipped() {
    let rows = vec![
        "header".to_string(),
        "short,row".to_string(),
        "".to_string(),
        row(10, 0, 0, ("not-a-number", "1", "7"), 60, 40, 35, ("15", "2", "27")),
        row(10, 0, 0, ("5.5", "1", "7"), 60, 40, 35, ("15", "2", "27")),
    ];
    let t = WorldPositionTransformer::from_rows(&rows);
    assert_eq!(t.anchor_count(), 1);
    // The fractional source coordinate is kept, in thousandths.
    let g = t.local_to_world_first(0x0A000000u32, 5_500, 1_000, 7_000).unwrap();
    assert_eq!(g, (15_000 + 40 * 256_000, 2_000, 27_000 + 35 * 256_000));
}
