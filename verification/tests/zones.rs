//! Zone name lookups for known tiles.

use route_tracker::zone_names::get_zone_name;
use route_tracker::zone_names::get_zone_name_from_str;

#[test]
fn test_limgrave() {
    // Church of Elleh area (m60_42_36_00)
    let map_id = 0x3C2A2400u32; // 60, 42, 36, 0
    assert_eq!(get_zone_name(map_id), "Limgrave");
}

#[test]
fn test_stormhill() {
    // Stormhill area (m60_42_39_00)
    let map_id = 0x3C2A2700u32; // 60, 42, 39, 0
    assert_eq!(get_zone_name(map_id), "Stormhill");
}

#[test]
fn test_stormveil() {
    // Stormveil Castle (m10_00_00_00)
    let map_id = 0x0A000000u32;
    assert_eq!(get_zone_name(map_id), "Stormveil Castle");
}

#[test]
fn test_leyndell_royal() {
    // Leyndell Royal Capital (m11_00_00_00)
    let map_id = 0x0B000000u32;
    assert_eq!(get_zone_name(map_id), "Leyndell, Royal Capital");
}

#[test]
fn test_leyndell_ashen() {
    // Leyndell Ashen Capital (m11_05_00_00)
    let map_id = 0x0B050000u32;
    assert_eq!(get_zone_name(map_id), "Leyndell, Ashen Capital");
}

#[test]
fn test_siofra() {
    // Siofra River (m12_08_00_00)
    let map_id = 0x0C080000u32;
    assert_eq!(get_zone_name(map_id), "Siofra River");
}

#[test]
fn test_mohgwyn() {
    // Mohgwyn Palace (m12_05_00_00)
    let map_id = 0x0C050000u32;
    assert_eq!(get_zone_name(map_id), "Mohgwyn Palace");
}

#[test]
fn test_stormfoot_catacombs() {
    // Stormfoot Catacombs (m30_02_00_00)
    let map_id = 0x1E020000u32; // 30, 2, 0, 0
    assert_eq!(get_zone_name(map_id), "Stormfoot Catacombs");
}

#[test]
fn test_murkwater_cave() {
    // Murkwater Cave (m31_00_00_00)
    let map_id = 0x1F000000u32; // 31, 0, 0, 0
    assert_eq!(get_zone_name(map_id), "Murkwater Cave");
}

#[test]
fn test_limgrave_tunnels() {
    // Limgrave Tunnels (m32_01_00_00)
    let map_id = 0x20010000u32; // 32, 1, 0, 0
    assert_eq!(get_zone_name(map_id), "Limgrave Tunnels");
}

#[test]
fn test_divine_tower_limgrave() {
    // Divine Tower of Limgrave (m34_10_00_00)
    let map_id = 0x220A0000u32; // 34, 10, 0, 0
    assert_eq!(get_zone_name(map_id), "Divine Tower of Limgrave");
}

#[test]
fn test_fog_rift_catacombs() {
    // Fog Rift Catacombs (m40_00_00_00)
    let map_id = 0x28000000u32; // 40, 0, 0, 0
    assert_eq!(get_zone_name(map_id), "Fog Rift Catacombs");
}

#[test]
fn test_dlc_gravesite_plain() {
    // Gravesite Plain (m61_45_41_00)
    let map_id = 0x3D2D2900u32; // 61, 45, 41, 0
    assert_eq!(get_zone_name(map_id), "Gravesite Plain");
}

#[test]
fn test_dlc_scadu_altus() {
    // Scadu Altus (m61_49_45_00)
    let map_id = 0x3D312D00u32; // 61, 49, 45, 0
    assert_eq!(get_zone_name(map_id), "Scadu Altus");
}

#[test]
fn test_from_string() {
    assert_eq!(get_zone_name_from_str("m60_42_36_00"), "Limgrave");
    assert_eq!(get_zone_name_from_str("m10_00_00_00"), "Stormveil Castle");
    assert_eq!(get_zone_name_from_str("m30_02_00_00"), "Stormfoot Catacombs");
}

#[test]
fn test_invalid_map_id() {
    assert_eq!(get_zone_name(0xFFFFFFFF), "Unknown");
}

#[test]
fn test_from_string_rejects_malformed_text() {
    assert_eq!(get_zone_name_from_str("60_42_36_00"), "Unknown");
    assert_eq!(get_zone_name_from_str("m60_42"), "Unknown");
    assert_eq!(get_zone_name_from_str(""), "Unknown");
}

#[test]
fn test_fallback_region_names() {
    // A tile outside the precise table but inside a region's bounds.
    assert_eq!(get_zone_name(0x3C287000u32), "Lands Between"); // m60_40_112
    assert_eq!(get_zone_name_from_str("m61_99_99_00"), "Shadow Realm");
}
