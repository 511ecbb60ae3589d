//! The goods-event table: loading, lookup, and the id list.

use route_tracker::goods_events::GoodsEventsLoader;

#[test]
fn loads_rows_and_sorts_ids() {
    let rows = vec![
        "EventID\tItemID\tName".to_string(),
        "60110\t1002\tSacred Tear".to_string(),
        "60100\t1001\tGolden Seed".to_string(),
    ];
    let g = GoodsEventsLoader::from_rows(&rows);
    assert_eq!(g.len(), 2);
    assert!(!g.is_empty());
    assert_eq!(g.event_ids(), &[60100, 60110]);
    let info = g.get(60100).unwrap();
    assert_eq!(info.event_id, 60100);
    assert_eq!(info.item_id, 1001);
    assert_eq!(info.name, "Golden Seed");
    assert!(g.get(1).is_none());
}

#[test]
fn later_rows_replace_earlier_ones() {
    let rows = vec![
        "EventID\tItemID\tName".to_string(),
        "60100\t1001\tGolden Seed".to_string(),
        "60100\t1003\tGolden Seed [1]".to_string(),
    ];
    let g = GoodsEventsLoader::from_rows(&rows);
    assert_eq!(g.len(), 1);
    assert_eq!(g.event_ids(), &[60100]);
    assert_eq!(g.get(60100).unwrap().item_id, 1003);
}

#[test]
fn bad_rows_and_null_names_are_skipped() {
    let rows = vec![
        "EventID\tItemID\tName".to_string(),
        "".to_string(),
        "  ".to_string(),
        "only-two\tfields".to_string(),
        "x\t1\tNope".to_string(),
        "60100\ty\tNope".to_string(),
        "60200\t1\t%null%".to_string(),
        "  60300\t2\tKept  ".to_string(),
    ];
    let g = GoodsEventsLoader::from_rows(&rows);
    assert_eq!(g.len(), 1);
    assert_eq!(g.get(60300).unwrap().name, "Kept");
}

#[test]
fn header_is_only_skipped_on_the_first_line() {
    let rows = vec![
        "60100\t1\tFirst".to_string(),
        "EventID\t2\tSecond".to_string(),
    ];
    let g = GoodsEventsLoader::from_rows(&rows);
    // The first line is data here; the second has a non-numeric id.
    assert_eq!(g.len(), 1);
    assert_eq!(g.get(60100).unwrap().name, "First");
}

#[test]
fn empty_loader_tracks_nothing() {
    let g = GoodsEventsLoader::empty();
    assert_eq!(g.len(), 0);
    assert!(g.is_empty());
    assert_eq!(g.event_ids().len(), 0);
    assert!(g.get(60100).is_none());
}
