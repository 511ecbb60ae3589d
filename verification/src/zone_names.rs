//! Human-readable zone names for packed tile identifiers, as recorded for
//! boundary crossings: legacy dungeons by area number, overworld tiles by a
//! precise per-tile table with a region fallback.

use vstd::prelude::*;
use vstd::string::StrSliceExecFns;
use crate::coordinate_transformer::WorldPositionTransformer;
use crate::coordinate_transformer::spec_area;
use crate::coordinate_transformer::spec_grid_x;
use crate::coordinate_transformer::spec_grid_z;
use crate::coordinate_transformer::spec_reserved;
use crate::numtext::parse_u8_spec;
use crate::numtext::parse_u8;
use crate::strtext::split_char;
use crate::strtext::split_seq;

verus! {

/// View of an optional borrowed name as an optional character sequence.
pub open spec fn opt_str_view(o: Option<&'static str>) -> Option<Seq<char>> {
    match o {
        Some(s) => Some(s@),
        None => None,
    }
}

/// Name table for legacy dungeons and special areas, by area number and
/// grid X; areas outside the table have no name.
pub open spec fn legacy_zone_seq(area_no: u8, grid_x: u8) -> Option<Seq<char>> {
    if area_no == 10 {
        Some("Stormveil Castle"@)
    }
    else if area_no == 11 {
        if grid_x == 0 {
            Some("Leyndell, Royal Capital"@)
        }
        else if grid_x == 5 {
            Some("Leyndell, Ashen Capital"@)
        }
        else if grid_x == 10 {
            Some("Roundtable Hold"@)
        }
        else {
            Some("Leyndell"@)
        }
    }
    else if area_no == 13 {
        Some("Crumbling Farum Azula"@)
    }
    else if area_no == 14 {
        Some("Academy of Raya Lucaria"@)
    }
    else if area_no == 15 {
        Some("Miquella's Haligtree"@)
    }
    else if area_no == 16 {
        Some("Volcano Manor"@)
    }
    else if area_no == 18 {
        Some("Stranded Graveyard"@)
    }
    else if area_no == 19 {
        Some("Erdtree"@)
    }
    else if area_no == 12 {
        if grid_x == 1 {
            Some("Ainsel River"@)
        }
        else if grid_x == 2 {
            Some("Nokron, Eternal City"@)
        }
        else if grid_x == 3 {
            Some("Deeproot Depths"@)
        }
        else if grid_x == 4 {
            Some("Ainsel River"@)
        }
        else if grid_x == 5 {
            Some("Mohgwyn Palace"@)
        }
        else if grid_x == 7 {
            Some("Siofra River Bank"@)
        }
        else if grid_x == 8 {
            Some("Siofra River"@)
        }
        else if grid_x == 9 {
            Some("Nokron, Eternal City"@)
        }
        else {
            Some("Underground"@)
        }
    }
    else if area_no == 20 {
        if grid_x == 0 {
            Some("Belurat, Tower Settlement"@)
        }
        else if grid_x == 1 {
            Some("Enir-Ilim"@)
        }
        else {
            Some("Belurat"@)
        }
    }
    else if area_no == 21 {
        if grid_x == 0 {
            Some("Shadow Keep"@)
        }
        else if grid_x == 1 {
            Some("Specimen Storehouse"@)
        }
        else if grid_x == 2 {
            Some("Shadow Keep - West Rampart"@)
        }
        else {
            Some("Shadow Keep"@)
        }
    }
    else if area_no == 22 {
        Some("Stone Coffin Fissure"@)
    }
    else if area_no == 25 {
        Some("Finger Birthing Grounds"@)
    }
    else if area_no == 28 {
        Some("Midra's Manse"@)
    }
    else if area_no == 30 {
        if grid_x == 0 {
            Some("Tombsward Catacombs"@)
        }
        else if grid_x == 1 {
            Some("Impaler's Catacombs"@)
        }
        else if grid_x == 2 {
            Some("Stormfoot Catacombs"@)
        }
        else if grid_x == 3 {
            Some("Road's End Catacombs"@)
        }
        else if grid_x == 4 {
            Some("Murkwater Catacombs"@)
        }
        else if grid_x == 5 {
            Some("Black Knife Catacombs"@)
        }
        else if grid_x == 6 {
            Some("Cliffbottom Catacombs"@)
        }
        else if grid_x == 7 {
            Some("Wyndham Catacombs"@)
        }
        else if grid_x == 8 {
            Some("Sainted Hero's Grave"@)
        }
        else if grid_x == 9 {
            Some("Gelmir Hero's Grave"@)
        }
        else if grid_x == 10 {
            Some("Auriza Hero's Grave"@)
        }
        else if grid_x == 11 {
            Some("Deathtouched Catacombs"@)
        }
        else if grid_x == 12 {
            Some("Unsightly Catacombs"@)
        }
        else if grid_x == 13 {
            Some("Auriza Side Tomb"@)
        }
        else if grid_x == 14 {
            Some("Minor Erdtree Catacombs"@)
        }
        else if grid_x == 15 {
            Some("Caelid Catacombs"@)
        }
        else if grid_x == 16 {
            Some("War-Dead Catacombs"@)
        }
        else if grid_x == 17 {
            Some("Giant-Conquering Hero's Grave"@)
        }
        else if grid_x == 18 {
            Some("Giants' Mountaintop Catacombs"@)
        }
        else if grid_x == 19 {
            Some("Consecrated Snowfield Catacombs"@)
        }
        else if grid_x == 20 {
            Some("Hidden Path to the Haligtree"@)
        }
        else {
            Some("Catacombs"@)
        }
    }
    else if area_no == 31 {
        if grid_x == 0 {
            Some("Murkwater Cave"@)
        }
        else if grid_x == 1 {
            Some("Earthbore Cave"@)
        }
        else if grid_x == 2 {
            Some("Tombsward Cave"@)
        }
        else if grid_x == 3 {
            Some("Groveside Cave"@)
        }
        else if grid_x == 4 {
            Some("Stillwater Cave"@)
        }
        else if grid_x == 5 {
            Some("Lakeside Crystal Cave"@)
        }
        else if grid_x == 6 {
            Some("Academy Crystal Cave"@)
        }
        else if grid_x == 7 {
            Some("Seethewater Cave"@)
        }
        else if grid_x == 9 {
            Some("Volcano Cave"@)
        }
        else if grid_x == 10 {
            Some("Dragonbarrow Cave"@)
        }
        else if grid_x == 11 {
            Some("Sellia Hideaway"@)
        }
        else if grid_x == 12 {
            Some("Cave of the Forlorn"@)
        }
        else if grid_x == 15 {
            Some("Coastal Cave"@)
        }
        else if grid_x == 17 {
            Some("Highroad Cave"@)
        }
        else if grid_x == 18 {
            Some("Perfumer's Grotto"@)
        }
        else if grid_x == 19 {
            Some("Sage's Cave"@)
        }
        else if grid_x == 20 {
            Some("Abandoned Cave"@)
        }
        else if grid_x == 21 {
            Some("Gaol Cave"@)
        }
        else if grid_x == 22 {
            Some("Spiritcaller's Cave"@)
        }
        else {
            Some("Cave"@)
        }
    }
    else if area_no == 32 {
        if grid_x == 0 {
            Some("Morne Tunnel"@)
        }
        else if grid_x == 1 {
            Some("Limgrave Tunnels"@)
        }
        else if grid_x == 2 {
            Some("Raya Lucaria Crystal Tunnel"@)
        }
        else if grid_x == 4 {
            Some("Old Altus Tunnel"@)
        }
        else if grid_x == 5 {
            Some("Altus Tunnel"@)
        }
        else if grid_x == 7 {
            Some("Gael Tunnel"@)
        }
        else if grid_x == 8 {
            Some("Sellia Crystal Tunnel"@)
        }
        else if grid_x == 11 {
            Some("Yelough Anix Tunnel"@)
        }
        else {
            Some("Tunnel"@)
        }
    }
    else if area_no == 34 {
        if grid_x == 10 {
            Some("Divine Tower of Limgrave"@)
        }
        else if grid_x == 11 {
            Some("Divine Tower of Liurnia"@)
        }
        else if grid_x == 12 {
            Some("Divine Tower of West Altus"@)
        }
        else if grid_x == 13 {
            Some("Divine Tower of Caelid"@)
        }
        else if grid_x == 14 {
            Some("Divine Tower of East Altus"@)
        }
        else if grid_x == 15 {
            Some("Isolated Divine Tower"@)
        }
        else {
            Some("Divine Tower"@)
        }
    }
    else if area_no == 35 {
        Some("Subterranean Shunning-Grounds"@)
    }
    else if area_no == 39 {
        Some("Ruin-Strewn Precipice"@)
    }
    else if area_no == 40 {
        if grid_x == 0 {
            Some("Fog Rift Catacombs"@)
        }
        else if grid_x == 1 {
            Some("Scorpion River Catacombs"@)
        }
        else if grid_x == 2 {
            Some("Darklight Catacombs"@)
        }
        else {
            Some("Catacombs"@)
        }
    }
    else if area_no == 41 {
        if grid_x == 0 {
            Some("Belurat Gaol"@)
        }
        else if grid_x == 1 {
            Some("Bonny Gaol"@)
        }
        else if grid_x == 2 {
            Some("Lamenter's Gaol"@)
        }
        else {
            Some("Gaol"@)
        }
    }
    else if area_no == 42 {
        if grid_x == 0 {
            Some("Ruined Forge Lava Intake"@)
        }
        else if grid_x == 2 {
            Some("Ruined Forge of Starfall Past"@)
        }
        else if grid_x == 3 {
            Some("Taylew's Ruined Forge"@)
        }
        else {
            Some("Ruined Forge"@)
        }
    }
    else if area_no == 43 {
        if grid_x == 0 {
            Some("Rivermouth Cave"@)
        }
        else if grid_x == 1 {
            Some("Dragon's Pit"@)
        }
        else {
            Some("Dungeon"@)
        }
    }
    else if area_no == 45 {
        if grid_x == 0 {
            Some("Royal Colosseum"@)
        }
        else if grid_x == 1 {
            Some("Caelid Colosseum"@)
        }
        else if grid_x == 2 {
            Some("Limgrave Colosseum"@)
        }
        else {
            Some("Colosseum"@)
        }
    }
    else {
        None
    }
}

/// Zone name for legacy dungeons and special areas (non-overworld maps).
pub fn get_legacy_zone_name(area_no: u8, grid_x: u8) -> (r: Option<&'static str>)
    ensures
        opt_str_view(r) == legacy_zone_seq(area_no, grid_x),
{
    if area_no == 10 {
        Some("Stormveil Castle")
    }
    else if area_no == 11 {
        if grid_x == 0 {
            Some("Leyndell, Royal Capital")
        }
        else if grid_x == 5 {
            Some("Leyndell, Ashen Capital")
        }
        else if grid_x == 10 {
            Some("Roundtable Hold")
        }
        else {
            Some("Leyndell")
        }
    }
    else if area_no == 13 {
        Some("Crumbling Farum Azula")
    }
    else if area_no == 14 {
        Some("Academy of Raya Lucaria")
    }
    else if area_no == 15 {
        Some("Miquella's Haligtree")
    }
    else if area_no == 16 {
        Some("Volcano Manor")
    }
    else if area_no == 18 {
        Some("Stranded Graveyard")
    }
    else if area_no == 19 {
        Some("Erdtree")
    }
    else if area_no == 12 {
        if grid_x == 1 {
            Some("Ainsel River")
        }
        else if grid_x == 2 {
            Some("Nokron, Eternal City")
        }
        else if grid_x == 3 {
            Some("Deeproot Depths")
        }
        else if grid_x == 4 {
            Some("Ainsel River")
        }
        else if grid_x == 5 {
            Some("Mohgwyn Palace")
        }
        else if grid_x == 7 {
            Some("Siofra River Bank")
        }
        else if grid_x == 8 {
            Some("Siofra River")
        }
        else if grid_x == 9 {
            Some("Nokron, Eternal City")
        }
        else {
            Some("Underground")
        }
    }
    else if area_no == 20 {
        if grid_x == 0 {
            Some("Belurat, Tower Settlement")
        }
        else if grid_x == 1 {
            Some("Enir-Ilim")
        }
        else {
            Some("Belurat")
        }
    }
    else if area_no == 21 {
        if grid_x == 0 {
            Some("Shadow Keep")
        }
        else if grid_x == 1 {
            Some("Specimen Storehouse")
        }
        else if grid_x == 2 {
            Some("Shadow Keep - West Rampart")
        }
        else {
            Some("Shadow Keep")
        }
    }
    else if area_no == 22 {
        Some("Stone Coffin Fissure")
    }
    else if area_no == 25 {
        Some("Finger Birthing Grounds")
    }
    else if area_no == 28 {
        Some("Midra's Manse")
    }
    else if area_no == 30 {
        if grid_x == 0 {
            Some("Tombsward Catacombs")
        }
        else if grid_x == 1 {
            Some("Impaler's Catacombs")
        }
        else if grid_x == 2 {
            Some("Stormfoot Catacombs")
        }
        else if grid_x == 3 {
            Some("Road's End Catacombs")
        }
        else if grid_x == 4 {
            Some("Murkwater Catacombs")
        }
        else if grid_x == 5 {
            Some("Black Knife Catacombs")
        }
        else if grid_x == 6 {
            Some("Cliffbottom Catacombs")
        }
        else if grid_x == 7 {
            Some("Wyndham Catacombs")
        }
        else if grid_x == 8 {
            Some("Sainted Hero's Grave")
        }
        else if grid_x == 9 {
            Some("Gelmir Hero's Grave")
        }
        else if grid_x == 10 {
            Some("Auriza Hero's Grave")
        }
        else if grid_x == 11 {
            Some("Deathtouched Catacombs")
        }
        else if grid_x == 12 {
            Some("Unsightly Catacombs")
        }
        else if grid_x == 13 {
            Some("Auriza Side Tomb")
        }
        else if grid_x == 14 {
            Some("Minor Erdtree Catacombs")
        }
        else if grid_x == 15 {
            Some("Caelid Catacombs")
        }
        else if grid_x == 16 {
            Some("War-Dead Catacombs")
        }
        else if grid_x == 17 {
            Some("Giant-Conquering Hero's Grave")
        }
        else if grid_x == 18 {
            Some("Giants' Mountaintop Catacombs")
        }
        else if grid_x == 19 {
            Some("Consecrated Snowfield Catacombs")
        }
        else if grid_x == 20 {
            Some("Hidden Path to the Haligtree")
        }
        else {
            Some("Catacombs")
        }
    }
    else if area_no == 31 {
        if grid_x == 0 {
            Some("Murkwater Cave")
        }
        else if grid_x == 1 {
            Some("Earthbore Cave")
        }
        else if grid_x == 2 {
            Some("Tombsward Cave")
        }
        else if grid_x == 3 {
            Some("Groveside Cave")
        }
        else if grid_x == 4 {
            Some("Stillwater Cave")
        }
        else if grid_x == 5 {
            Some("Lakeside Crystal Cave")
        }
        else if grid_x == 6 {
            Some("Academy Crystal Cave")
        }
        else if grid_x == 7 {
            Some("Seethewater Cave")
        }
        else if grid_x == 9 {
            Some("Volcano Cave")
        }
        else if grid_x == 10 {
            Some("Dragonbarrow Cave")
        }
        else if grid_x == 11 {
            Some("Sellia Hideaway")
        }
        else if grid_x == 12 {
            Some("Cave of the Forlorn")
        }
        else if grid_x == 15 {
            Some("Coastal Cave")
        }
        else if grid_x == 17 {
            Some("Highroad Cave")
        }
        else if grid_x == 18 {
            Some("Perfumer's Grotto")
        }
        else if grid_x == 19 {
            Some("Sage's Cave")
        }
        else if grid_x == 20 {
            Some("Abandoned Cave")
        }
        else if grid_x == 21 {
            Some("Gaol Cave")
        }
        else if grid_x == 22 {
            Some("Spiritcaller's Cave")
        }
        else {
            Some("Cave")
        }
    }
    else if area_no == 32 {
        if grid_x == 0 {
            Some("Morne Tunnel")
        }
        else if grid_x == 1 {
            Some("Limgrave Tunnels")
        }
        else if grid_x == 2 {
            Some("Raya Lucaria Crystal Tunnel")
        }
        else if grid_x == 4 {
            Some("Old Altus Tunnel")
        }
        else if grid_x == 5 {
            Some("Altus Tunnel")
        }
        else if grid_x == 7 {
            Some("Gael Tunnel")
        }
        else if grid_x == 8 {
            Some("Sellia Crystal Tunnel")
        }
        else if grid_x == 11 {
            Some("Yelough Anix Tunnel")
        }
        else {
            Some("Tunnel")
        }
    }
    else if area_no == 34 {
        if grid_x == 10 {
            Some("Divine Tower of Limgrave")
        }
        else if grid_x == 11 {
            Some("Divine Tower of Liurnia")
        }
        else if grid_x == 12 {
            Some("Divine Tower of West Altus")
        }
        else if grid_x == 13 {
            Some("Divine Tower of Caelid")
        }
        else if grid_x == 14 {
            Some("Divine Tower of East Altus")
        }
        else if grid_x == 15 {
            Some("Isolated Divine Tower")
        }
        else {
            Some("Divine Tower")
        }
    }
    else if area_no == 35 {
        Some("Subterranean Shunning-Grounds")
    }
    else if area_no == 39 {
        Some("Ruin-Strewn Precipice")
    }
    else if area_no == 40 {
        if grid_x == 0 {
            Some("Fog Rift Catacombs")
        }
        else if grid_x == 1 {
            Some("Scorpion River Catacombs")
        }
        else if grid_x == 2 {
            Some("Darklight Catacombs")
        }
        else {
            Some("Catacombs")
        }
    }
    else if area_no == 41 {
        if grid_x == 0 {
            Some("Belurat Gaol")
        }
        else if grid_x == 1 {
            Some("Bonny Gaol")
        }
        else if grid_x == 2 {
            Some("Lamenter's Gaol")
        }
        else {
            Some("Gaol")
        }
    }
    else if area_no == 42 {
        if grid_x == 0 {
            Some("Ruined Forge Lava Intake")
        }
        else if grid_x == 2 {
            Some("Ruined Forge of Starfall Past")
        }
        else if grid_x == 3 {
            Some("Taylew's Ruined Forge")
        }
        else {
            Some("Ruined Forge")
        }
    }
    else if area_no == 43 {
        if grid_x == 0 {
            Some("Rivermouth Cave")
        }
        else if grid_x == 1 {
            Some("Dragon's Pit")
        }
        else {
            Some("Dungeon")
        }
    }
    else if area_no == 45 {
        if grid_x == 0 {
            Some("Royal Colosseum")
        }
        else if grid_x == 1 {
            Some("Caelid Colosseum")
        }
        else if grid_x == 2 {
            Some("Limgrave Colosseum")
        }
        else {
            Some("Colosseum")
        }
    }
    else {
        None
    }
}

/// Precise name table for overworld tiles; tiles outside the table have
/// no precise name.
pub open spec fn overworld_tile_seq(area_no: u8, grid_x: u8, grid_z: u8) -> Option<Seq<char>> {
    if area_no == 60 && grid_x == 33 && grid_z == 40 {
        Some("Moonlight Altar"@)
    }
    else if area_no == 60 && grid_x == 33 && grid_z == 41 {
        Some("Moonlight Altar"@)
    }
    else if area_no == 60 && grid_x == 33 && grid_z == 42 {
        Some("Moonlight Altar"@)
    }
    else if area_no == 60 && grid_x == 34 && grid_z == 41 {
        Some("Moonlight Altar"@)
    }
    else if area_no == 60 && grid_x == 34 && grid_z == 42 {
        Some("Moonlight Altar"@)
    }
    else if area_no == 60 && grid_x == 35 && grid_z == 41 {
        Some("Moonlight Altar"@)
    }
    else if area_no == 60 && grid_x == 35 && grid_z == 42 {
        Some("Moonlight Altar"@)
    }
    else if area_no == 60 && grid_x == 36 && grid_z == 41 {
        Some("Moonlight Altar"@)
    }
    else if area_no == 60 && grid_x == 36 && grid_z == 42 {
        Some("Moonlight Altar"@)
    }
    else if area_no == 60 && grid_x == 33 && 43 <= grid_z && grid_z <= 47 {
        Some("Liurnia"@)
    }
    else if area_no == 60 && grid_x == 34 && 43 <= grid_z && grid_z <= 50 {
        Some("Liurnia"@)
    }
    else if area_no == 60 && grid_x == 35 && 43 <= grid_z && grid_z <= 50 {
        Some("Liurnia"@)
    }
    else if area_no == 60 && grid_x == 36 && 43 <= grid_z && grid_z <= 50 {
        Some("Liurnia"@)
    }
    else if area_no == 60 && grid_x == 37 && 41 <= grid_z && grid_z <= 48 {
        Some("Liurnia"@)
    }
    else if area_no == 60 && grid_x == 37 && grid_z == 50 {
        Some("Liurnia"@)
    }
    else if area_no == 60 && grid_x == 38 && 39 <= grid_z && grid_z <= 48 {
        Some("Liurnia"@)
    }
    else if area_no == 60 && grid_x == 38 && grid_z == 50 {
        Some("Liurnia"@)
    }
    else if area_no == 60 && grid_x == 39 && 39 <= grid_z && grid_z <= 46 {
        Some("Liurnia"@)
    }
    else if area_no == 60 && grid_x == 39 && grid_z == 48 {
        Some("Liurnia"@)
    }
    else if area_no == 60 && grid_x == 40 && grid_z == 40 {
        Some("Liurnia"@)
    }
    else if area_no == 60 && grid_x == 34 && grid_z == 51 {
        Some("Liurnia Behind Caria Manor"@)
    }
    else if area_no == 60 && grid_x == 35 && grid_z == 51 {
        Some("Liurnia Behind Caria Manor"@)
    }
    else if area_no == 60 && grid_x == 36 && 47 <= grid_z && grid_z <= 49 {
        Some("Bellum Highway"@)
    }
    else if area_no == 60 && grid_x == 37 && grid_z == 49 {
        Some("Bellum Highway"@)
    }
    else if area_no == 60 && grid_x == 38 && grid_z == 49 {
        Some("Bellum Highway"@)
    }
    else if area_no == 60 && grid_x == 39 && grid_z == 49 {
        Some("Bellum Highway"@)
    }
    else if area_no == 60 && grid_x == 35 && 52 <= grid_z && grid_z <= 54 {
        Some("Mt. Gelmir"@)
    }
    else if area_no == 60 && grid_x == 36 && 53 <= grid_z && grid_z <= 54 {
        Some("Mt. Gelmir"@)
    }
    else if area_no == 60 && grid_x == 37 && 53 <= grid_z && grid_z <= 55 {
        Some("Mt. Gelmir"@)
    }
    else if area_no == 60 && grid_x == 38 && 53 <= grid_z && grid_z <= 54 {
        Some("Mt. Gelmir"@)
    }
    else if area_no == 60 && grid_x == 39 && 53 <= grid_z && grid_z <= 54 {
        Some("Mt. Gelmir"@)
    }
    else if area_no == 60 && grid_x == 36 && 51 <= grid_z && grid_z <= 52 {
        Some("Altus Plateau"@)
    }
    else if area_no == 60 && grid_x == 37 && 51 <= grid_z && grid_z <= 52 {
        Some("Altus Plateau"@)
    }
    else if area_no == 60 && grid_x == 38 && 51 <= grid_z && grid_z <= 52 {
        Some("Altus Plateau"@)
    }
    else if area_no == 60 && grid_x == 39 && 50 <= grid_z && grid_z <= 52 {
        Some("Altus Plateau"@)
    }
    else if area_no == 60 && grid_x == 40 && 50 <= grid_z && grid_z <= 55 {
        Some("Altus Plateau"@)
    }
    else if area_no == 60 && grid_x == 41 && 50 <= grid_z && grid_z <= 55 {
        Some("Altus Plateau"@)
    }
    else if area_no == 60 && grid_x == 42 && 52 <= grid_z && grid_z <= 55 {
        Some("Altus Plateau"@)
    }
    else if area_no == 60 && grid_x == 43 && 53 <= grid_z && grid_z <= 54 {
        Some("Altus Plateau"@)
    }
    else if area_no == 60 && grid_x == 42 && 50 <= grid_z && grid_z <= 51 {
        Some("Capital Outskirts"@)
    }
    else if area_no == 60 && grid_x == 43 && 50 <= grid_z && grid_z <= 52 {
        Some("Capital Outskirts"@)
    }
    else if area_no == 60 && grid_x == 44 && 52 <= grid_z && grid_z <= 53 {
        Some("Capital Outskirts"@)
    }
    else if area_no == 60 && grid_x == 45 && 51 <= grid_z && grid_z <= 53 {
        Some("Capital Outskirts"@)
    }
    else if area_no == 60 && grid_x == 40 && grid_z == 33 {
        Some("Weeping Peninsula"@)
    }
    else if area_no == 60 && grid_x == 41 && 32 <= grid_z && grid_z <= 34 {
        Some("Weeping Peninsula"@)
    }
    else if area_no == 60 && grid_x == 42 && 32 <= grid_z && grid_z <= 34 {
        Some("Weeping Peninsula"@)
    }
    else if area_no == 60 && grid_x == 43 && 30 <= grid_z && grid_z <= 33 {
        Some("Weeping Peninsula"@)
    }
    else if area_no == 60 && grid_x == 44 && 31 <= grid_z && grid_z <= 33 {
        Some("Weeping Peninsula"@)
    }
    else if area_no == 60 && grid_x == 45 && 32 <= grid_z && grid_z <= 34 {
        Some("Weeping Peninsula"@)
    }
    else if area_no == 60 && grid_x == 41 && grid_z == 35 {
        Some("Church of Dragon Communion"@)
    }
    else if area_no == 60 && grid_x == 41 && 36 <= grid_z && grid_z <= 37 {
        Some("Limgrave"@)
    }
    else if area_no == 60 && grid_x == 42 && 35 <= grid_z && grid_z <= 38 {
        Some("Limgrave"@)
    }
    else if area_no == 60 && grid_x == 43 && 34 <= grid_z && grid_z <= 40 {
        Some("Limgrave"@)
    }
    else if area_no == 60 && grid_x == 44 && 34 <= grid_z && grid_z <= 39 {
        Some("Limgrave"@)
    }
    else if area_no == 60 && grid_x == 45 && 35 <= grid_z && grid_z <= 40 {
        Some("Limgrave"@)
    }
    else if area_no == 60 && grid_x == 46 && 36 <= grid_z && grid_z <= 40 {
        Some("Limgrave"@)
    }
    else if area_no == 60 && grid_x == 40 && 38 <= grid_z && grid_z <= 39 {
        Some("Stormhill"@)
    }
    else if area_no == 60 && grid_x == 41 && 38 <= grid_z && grid_z <= 39 {
        Some("Stormhill"@)
    }
    else if area_no == 60 && grid_x == 42 && 39 <= grid_z && grid_z <= 40 {
        Some("Stormhill"@)
    }
    else if area_no == 60 && grid_x == 47 && 37 <= grid_z && grid_z <= 40 {
        Some("Caelid"@)
    }
    else if area_no == 60 && grid_x == 48 && 36 <= grid_z && grid_z <= 40 {
        Some("Caelid"@)
    }
    else if area_no == 60 && grid_x == 49 && 36 <= grid_z && grid_z <= 39 {
        Some("Caelid"@)
    }
    else if area_no == 60 && grid_x == 50 && 36 <= grid_z && grid_z <= 39 {
        Some("Caelid"@)
    }
    else if area_no == 60 && grid_x == 51 && 35 <= grid_z && grid_z <= 38 {
        Some("Caelid"@)
    }
    else if area_no == 60 && grid_x == 52 && 37 <= grid_z && grid_z <= 40 {
        Some("Caelid"@)
    }
    else if area_no == 60 && grid_x == 53 && 38 <= grid_z && grid_z <= 39 {
        Some("Caelid"@)
    }
    else if area_no == 60 && grid_x == 47 && 41 <= grid_z && grid_z <= 42 {
        Some("Caelid Greatjar"@)
    }
    else if area_no == 60 && grid_x == 49 && grid_z == 40 {
        Some("Caelid Greatjar"@)
    }
    else if area_no == 60 && grid_x == 48 && grid_z == 41 {
        Some("Dragonbarrow"@)
    }
    else if area_no == 60 && grid_x == 49 && grid_z == 41 {
        Some("Dragonbarrow"@)
    }
    else if area_no == 60 && grid_x == 50 && 40 <= grid_z && grid_z <= 41 {
        Some("Dragonbarrow"@)
    }
    else if area_no == 60 && grid_x == 51 && 39 <= grid_z && grid_z <= 43 {
        Some("Dragonbarrow"@)
    }
    else if area_no == 60 && grid_x == 52 && 41 <= grid_z && grid_z <= 43 {
        Some("Dragonbarrow"@)
    }
    else if area_no == 60 && grid_x == 47 && grid_z == 51 {
        Some("Forbidden Lands"@)
    }
    else if area_no == 60 && grid_x == 48 && grid_z == 51 {
        Some("Forbidden Lands"@)
    }
    else if area_no == 60 && grid_x == 49 && 52 <= grid_z && grid_z <= 53 {
        Some("Forbidden Lands"@)
    }
    else if area_no == 60 && grid_x == 46 && grid_z == 55 {
        Some("Consecrated Snowfield"@)
    }
    else if area_no == 60 && grid_x == 46 && grid_z == 57 {
        Some("Consecrated Snowfield"@)
    }
    else if area_no == 60 && grid_x == 47 && 55 <= grid_z && grid_z <= 58 {
        Some("Consecrated Snowfield"@)
    }
    else if area_no == 60 && grid_x == 48 && 54 <= grid_z && grid_z <= 58 {
        Some("Consecrated Snowfield"@)
    }
    else if area_no == 60 && grid_x == 49 && 54 <= grid_z && grid_z <= 57 {
        Some("Consecrated Snowfield"@)
    }
    else if area_no == 60 && grid_x == 50 && grid_z == 55 {
        Some("Consecrated Snowfield"@)
    }
    else if area_no == 60 && grid_x == 50 && 53 <= grid_z && grid_z <= 54 {
        Some("Mountaintops of the Giants"@)
    }
    else if area_no == 60 && grid_x == 50 && 56 <= grid_z && grid_z <= 57 {
        Some("Mountaintops of the Giants"@)
    }
    else if area_no == 60 && grid_x == 51 && 55 <= grid_z && grid_z <= 58 {
        Some("Mountaintops of the Giants"@)
    }
    else if area_no == 60 && grid_x == 52 && 55 <= grid_z && grid_z <= 58 {
        Some("Mountaintops of the Giants"@)
    }
    else if area_no == 60 && grid_x == 53 && 55 <= grid_z && grid_z <= 58 {
        Some("Mountaintops of the Giants"@)
    }
    else if area_no == 60 && grid_x == 54 && 55 <= grid_z && grid_z <= 57 {
        Some("Mountaintops of the Giants"@)
    }
    else if area_no == 60 && grid_x == 51 && 52 <= grid_z && grid_z <= 54 {
        Some("Flame Peak"@)
    }
    else if area_no == 60 && grid_x == 52 && 52 <= grid_z && grid_z <= 54 {
        Some("Flame Peak"@)
    }
    else if area_no == 60 && grid_x == 53 && 52 <= grid_z && grid_z <= 54 {
        Some("Flame Peak"@)
    }
    else if area_no == 60 && grid_x == 54 && grid_z == 53 {
        Some("Flame Peak"@)
    }
    else if area_no == 61 && grid_x == 44 && grid_z == 41 {
        Some("Gravesite Plain"@)
    }
    else if area_no == 61 && grid_x == 44 && grid_z == 43 {
        Some("Gravesite Plain"@)
    }
    else if area_no == 61 && grid_x == 45 && 40 <= grid_z && grid_z <= 44 {
        Some("Gravesite Plain"@)
    }
    else if area_no == 61 && grid_x == 46 && 40 <= grid_z && grid_z <= 44 {
        Some("Gravesite Plain"@)
    }
    else if area_no == 61 && grid_x == 47 && 40 <= grid_z && grid_z <= 45 {
        Some("Gravesite Plain"@)
    }
    else if area_no == 61 && grid_x == 48 && 40 <= grid_z && grid_z <= 43 {
        Some("Gravesite Plain"@)
    }
    else if area_no == 61 && grid_x == 49 && 42 <= grid_z && grid_z <= 43 {
        Some("Gravesite Plain"@)
    }
    else if area_no == 61 && grid_x == 46 && grid_z == 35 {
        Some("Cerulean Coast"@)
    }
    else if area_no == 61 && grid_x == 46 && 38 <= grid_z && grid_z <= 39 {
        Some("Cerulean Coast"@)
    }
    else if area_no == 61 && grid_x == 47 && 35 <= grid_z && grid_z <= 40 {
        Some("Cerulean Coast"@)
    }
    else if area_no == 61 && grid_x == 48 && 37 <= grid_z && grid_z <= 39 {
        Some("Cerulean Coast"@)
    }
    else if area_no == 61 && grid_x == 49 && 37 <= grid_z && grid_z <= 38 {
        Some("Cerulean Coast"@)
    }
    else if area_no == 61 && grid_x == 50 && grid_z == 37 {
        Some("Cerulean Coast"@)
    }
    else if area_no == 61 && grid_x == 45 && grid_z == 39 {
        Some("Charo's Hidden Grave"@)
    }
    else if area_no == 61 && grid_x == 46 && 39 <= grid_z && grid_z <= 40 {
        Some("Charo's Hidden Grave"@)
    }
    else if area_no == 61 && grid_x == 47 && 39 <= grid_z && grid_z <= 40 {
        Some("Charo's Hidden Grave"@)
    }
    else if area_no == 61 && grid_x == 48 && 38 <= grid_z && grid_z <= 40 {
        Some("Charo's Hidden Grave"@)
    }
    else if area_no == 61 && grid_x == 49 && 38 <= grid_z && grid_z <= 39 {
        Some("Charo's Hidden Grave"@)
    }
    else if area_no == 61 && grid_x == 46 && 43 <= grid_z && grid_z <= 45 {
        Some("Ellac River"@)
    }
    else if area_no == 61 && grid_x == 47 && 41 <= grid_z && grid_z <= 43 {
        Some("Ellac River"@)
    }
    else if area_no == 61 && grid_x == 48 && 40 <= grid_z && grid_z <= 41 {
        Some("Ellac River"@)
    }
    else if area_no == 61 && grid_x == 47 && grid_z == 44 {
        Some("Castle Ensis"@)
    }
    else if area_no == 61 && grid_x == 48 && grid_z == 44 {
        Some("Castle Ensis"@)
    }
    else if area_no == 61 && grid_x == 44 && 46 <= grid_z && grid_z <= 48 {
        Some("Rauh Base"@)
    }
    else if area_no == 61 && grid_x == 45 && 45 <= grid_z && grid_z <= 48 {
        Some("Rauh Base"@)
    }
    else if area_no == 61 && grid_x == 46 && 46 <= grid_z && grid_z <= 47 {
        Some("Rauh Base"@)
    }
    else if area_no == 61 && grid_x == 47 && 47 <= grid_z && grid_z <= 48 {
        Some("Rauh Base"@)
    }
    else if area_no == 61 && grid_x == 48 && grid_z == 48 {
        Some("Rauh Base"@)
    }
    else if area_no == 61 && grid_x == 44 && grid_z == 45 {
        Some("Ancient Ruins of Rauh"@)
    }
    else if area_no == 61 && grid_x == 45 && grid_z == 46 {
        Some("Ancient Ruins of Rauh"@)
    }
    else if area_no == 61 && grid_x == 46 && 46 <= grid_z && grid_z <= 48 {
        Some("Ancient Ruins of Rauh"@)
    }
    else if area_no == 61 && grid_x == 47 && 46 <= grid_z && grid_z <= 48 {
        Some("Ancient Ruins of Rauh"@)
    }
    else if area_no == 61 && grid_x == 47 && 44 <= grid_z && grid_z <= 46 {
        Some("Scadu Altus"@)
    }
    else if area_no == 61 && grid_x == 48 && 43 <= grid_z && grid_z <= 47 {
        Some("Scadu Altus"@)
    }
    else if area_no == 61 && grid_x == 49 && 43 <= grid_z && grid_z <= 47 {
        Some("Scadu Altus"@)
    }
    else if area_no == 61 && grid_x == 50 && 43 <= grid_z && grid_z <= 45 {
        Some("Scadu Altus"@)
    }
    else if area_no == 61 && grid_x == 49 && grid_z == 44 {
        Some("Scadu Altus"@)
    }
    else if area_no == 61 && grid_x == 50 && 44 <= grid_z && grid_z <= 47 {
        Some("Scadu Altus"@)
    }
    else if area_no == 61 && grid_x == 51 && 44 <= grid_z && grid_z <= 47 {
        Some("Scadu Altus"@)
    }
    else if area_no == 61 && grid_x == 52 && 45 <= grid_z && grid_z <= 47 {
        Some("Scadu Altus"@)
    }
    else if area_no == 61 && grid_x == 51 && grid_z == 43 {
        Some("Lower Scadu Altus"@)
    }
    else if area_no == 61 && grid_x == 48 && grid_z == 49 {
        Some("Scaduview"@)
    }
    else if area_no == 61 && grid_x == 49 && 48 <= grid_z && grid_z <= 49 {
        Some("Scaduview"@)
    }
    else if area_no == 61 && grid_x == 49 && grid_z == 48 {
        Some("Hinterland"@)
    }
    else if area_no == 61 && grid_x == 50 && 47 <= grid_z && grid_z <= 49 {
        Some("Hinterland"@)
    }
    else if area_no == 61 && grid_x == 51 && 47 <= grid_z && grid_z <= 49 {
        Some("Hinterland"@)
    }
    else if area_no == 61 && grid_x == 52 && 47 <= grid_z && grid_z <= 49 {
        Some("Hinterland"@)
    }
    else if area_no == 61 && grid_x == 53 && grid_z == 48 {
        Some("Hinterland"@)
    }
    else if area_no == 61 && grid_x == 54 && grid_z == 48 {
        Some("Hinterland"@)
    }
    else if area_no == 61 && grid_x == 49 && grid_z == 39 {
        Some("Finger Ruins of Rhia"@)
    }
    else if area_no == 61 && grid_x == 50 && 38 <= grid_z && grid_z <= 41 {
        Some("Finger Ruins of Rhia"@)
    }
    else if area_no == 61 && grid_x == 51 && 38 <= grid_z && grid_z <= 41 {
        Some("Finger Ruins of Rhia"@)
    }
    else if area_no == 61 && grid_x == 53 && 45 <= grid_z && grid_z <= 47 {
        Some("Finger Ruins of Dheo"@)
    }
    else if area_no == 61 && grid_x == 54 && 45 <= grid_z && grid_z <= 47 {
        Some("Finger Ruins of Dheo"@)
    }
    else if area_no == 61 && grid_x == 49 && 40 <= grid_z && grid_z <= 41 {
        Some("Abyssal Woods"@)
    }
    else if area_no == 61 && grid_x == 50 && grid_z == 42 {
        Some("Abyssal Woods"@)
    }
    else if area_no == 61 && grid_x == 51 && grid_z == 42 {
        Some("Abyssal Woods"@)
    }
    else if area_no == 61 && grid_x == 52 && 40 <= grid_z && grid_z <= 43 {
        Some("Abyssal Woods"@)
    }
    else if area_no == 61 && grid_x == 53 && 40 <= grid_z && grid_z <= 41 {
        Some("Abyssal Woods"@)
    }
    else if area_no == 61 && grid_x == 49 && 38 <= grid_z && grid_z <= 41 {
        Some("Foot of the Jagged Peak"@)
    }
    else if area_no == 61 && grid_x == 50 && 40 <= grid_z && grid_z <= 41 {
        Some("Foot of the Jagged Peak"@)
    }
    else if area_no == 61 && grid_x == 51 && 40 <= grid_z && grid_z <= 41 {
        Some("Foot of the Jagged Peak"@)
    }
    else if area_no == 61 && grid_x == 52 && 39 <= grid_z && grid_z <= 40 {
        Some("Foot of the Jagged Peak"@)
    }
    else if area_no == 61 && grid_x == 53 && 39 <= grid_z && grid_z <= 40 {
        Some("Jagged Peak"@)
    }
    else if area_no == 61 && grid_x == 54 && 39 <= grid_z && grid_z <= 40 {
        Some("Jagged Peak"@)
    }
    else if area_no == 61 && grid_x == 55 && grid_z == 39 {
        Some("Jagged Peak"@)
    }
    else {
        None
    }
}

/// Precise zone name for overworld tiles.
pub fn get_overworld_tile_name(area_no: u8, grid_x: u8, grid_z: u8) -> (r: Option<&'static str>)
    ensures
        opt_str_view(r) == overworld_tile_seq(area_no, grid_x, grid_z),
{
    if area_no == 60 && grid_x == 33 && grid_z == 40 {
        Some("Moonlight Altar")
    }
    else if area_no == 60 && grid_x == 33 && grid_z == 41 {
        Some("Moonlight Altar")
    }
    else if area_no == 60 && grid_x == 33 && grid_z == 42 {
        Some("Moonlight Altar")
    }
    else if area_no == 60 && grid_x == 34 && grid_z == 41 {
        Some("Moonlight Altar")
    }
    else if area_no == 60 && grid_x == 34 && grid_z == 42 {
        Some("Moonlight Altar")
    }
    else if area_no == 60 && grid_x == 35 && grid_z == 41 {
        Some("Moonlight Altar")
    }
    else if area_no == 60 && grid_x == 35 && grid_z == 42 {
        Some("Moonlight Altar")
    }
    else if area_no == 60 && grid_x == 36 && grid_z == 41 {
        Some("Moonlight Altar")
    }
    else if area_no == 60 && grid_x == 36 && grid_z == 42 {
        Some("Moonlight Altar")
    }
    else if area_no == 60 && grid_x == 33 && 43 <= grid_z && grid_z <= 47 {
        Some("Liurnia")
    }
    else if area_no == 60 && grid_x == 34 && 43 <= grid_z && grid_z <= 50 {
        Some("Liurnia")
    }
    else if area_no == 60 && grid_x == 35 && 43 <= grid_z && grid_z <= 50 {
        Some("Liurnia")
    }
    else if area_no == 60 && grid_x == 36 && 43 <= grid_z && grid_z <= 50 {
        Some("Liurnia")
    }
    else if area_no == 60 && grid_x == 37 && 41 <= grid_z && grid_z <= 48 {
        Some("Liurnia")
    }
    else if area_no == 60 && grid_x == 37 && grid_z == 50 {
        Some("Liurnia")
    }
    else if area_no == 60 && grid_x == 38 && 39 <= grid_z && grid_z <= 48 {
        Some("Liurnia")
    }
    else if area_no == 60 && grid_x == 38 && grid_z == 50 {
        Some("Liurnia")
    }
    else if area_no == 60 && grid_x == 39 && 39 <= grid_z && grid_z <= 46 {
        Some("Liurnia")
    }
    else if area_no == 60 && grid_x == 39 && grid_z == 48 {
        Some("Liurnia")
    }
    else if area_no == 60 && grid_x == 40 && grid_z == 40 {
        Some("Liurnia")
    }
    else if area_no == 60 && grid_x == 34 && grid_z == 51 {
        Some("Liurnia Behind Caria Manor")
    }
    else if area_no == 60 && grid_x == 35 && grid_z == 51 {
        Some("Liurnia Behind Caria Manor")
    }
    else if area_no == 60 && grid_x == 36 && 47 <= grid_z && grid_z <= 49 {
        Some("Bellum Highway")
    }
    else if area_no == 60 && grid_x == 37 && grid_z == 49 {
        Some("Bellum Highway")
    }
    else if area_no == 60 && grid_x == 38 && grid_z == 49 {
        Some("Bellum Highway")
    }
    else if area_no == 60 && grid_x == 39 && grid_z == 49 {
        Some("Bellum Highway")
    }
    else if area_no == 60 && grid_x == 35 && 52 <= grid_z && grid_z <= 54 {
        Some("Mt. Gelmir")
    }
    else if area_no == 60 && grid_x == 36 && 53 <= grid_z && grid_z <= 54 {
        Some("Mt. Gelmir")
    }
    else if area_no == 60 && grid_x == 37 && 53 <= grid_z && grid_z <= 55 {
        Some("Mt. Gelmir")
    }
    else if area_no == 60 && grid_x == 38 && 53 <= grid_z && grid_z <= 54 {
        Some("Mt. Gelmir")
    }
    else if area_no == 60 && grid_x == 39 && 53 <= grid_z && grid_z <= 54 {
        Some("Mt. Gelmir")
    }
    else if area_no == 60 && grid_x == 36 && 51 <= grid_z && grid_z <= 52 {
        Some("Altus Plateau")
    }
    else if area_no == 60 && grid_x == 37 && 51 <= grid_z && grid_z <= 52 {
        Some("Altus Plateau")
    }
    else if area_no == 60 && grid_x == 38 && 51 <= grid_z && grid_z <= 52 {
        Some("Altus Plateau")
    }
    else if area_no == 60 && grid_x == 39 && 50 <= grid_z && grid_z <= 52 {
        Some("Altus Plateau")
    }
    else if area_no == 60 && grid_x == 40 && 50 <= grid_z && grid_z <= 55 {
        Some("Altus Plateau")
    }
    else if area_no == 60 && grid_x == 41 && 50 <= grid_z && grid_z <= 55 {
        Some("Altus Plateau")
    }
    else if area_no == 60 && grid_x == 42 && 52 <= grid_z && grid_z <= 55 {
        Some("Altus Plateau")
    }
    else if area_no == 60 && grid_x == 43 && 53 <= grid_z && grid_z <= 54 {
        Some("Altus Plateau")
    }
    else if area_no == 60 && grid_x == 42 && 50 <= grid_z && grid_z <= 51 {
        Some("Capital Outskirts")
    }
    else if area_no == 60 && grid_x == 43 && 50 <= grid_z && grid_z <= 52 {
        Some("Capital Outskirts")
    }
    else if area_no == 60 && grid_x == 44 && 52 <= grid_z && grid_z <= 53 {
        Some("Capital Outskirts")
    }
    else if area_no == 60 && grid_x == 45 && 51 <= grid_z && grid_z <= 53 {
        Some("Capital Outskirts")
    }
    else if area_no == 60 && grid_x == 40 && grid_z == 33 {
        Some("Weeping Peninsula")
    }
    else if area_no == 60 && grid_x == 41 && 32 <= grid_z && grid_z <= 34 {
        Some("Weeping Peninsula")
    }
    else if area_no == 60 && grid_x == 42 && 32 <= grid_z && grid_z <= 34 {
        Some("Weeping Peninsula")
    }
    else if area_no == 60 && grid_x == 43 && 30 <= grid_z && grid_z <= 33 {
        Some("Weeping Peninsula")
    }
    else if area_no == 60 && grid_x == 44 && 31 <= grid_z && grid_z <= 33 {
        Some("Weeping Peninsula")
    }
    else if area_no == 60 && grid_x == 45 && 32 <= grid_z && grid_z <= 34 {
        Some("Weeping Peninsula")
    }
    else if area_no == 60 && grid_x == 41 && grid_z == 35 {
        Some("Church of Dragon Communion")
    }
    else if area_no == 60 && grid_x == 41 && 36 <= grid_z && grid_z <= 37 {
        Some("Limgrave")
    }
    else if area_no == 60 && grid_x == 42 && 35 <= grid_z && grid_z <= 38 {
        Some("Limgrave")
    }
    else if area_no == 60 && grid_x == 43 && 34 <= grid_z && grid_z <= 40 {
        Some("Limgrave")
    }
    else if area_no == 60 && grid_x == 44 && 34 <= grid_z && grid_z <= 39 {
        Some("Limgrave")
    }
    else if area_no == 60 && grid_x == 45 && 35 <= grid_z && grid_z <= 40 {
        Some("Limgrave")
    }
    else if area_no == 60 && grid_x == 46 && 36 <= grid_z && grid_z <= 40 {
        Some("Limgrave")
    }
    else if area_no == 60 && grid_x == 40 && 38 <= grid_z && grid_z <= 39 {
        Some("Stormhill")
    }
    else if area_no == 60 && grid_x == 41 && 38 <= grid_z && grid_z <= 39 {
        Some("Stormhill")
    }
    else if area_no == 60 && grid_x == 42 && 39 <= grid_z && grid_z <= 40 {
        Some("Stormhill")
    }
    else if area_no == 60 && grid_x == 47 && 37 <= grid_z && grid_z <= 40 {
        Some("Caelid")
    }
    else if area_no == 60 && grid_x == 48 && 36 <= grid_z && grid_z <= 40 {
        Some("Caelid")
    }
    else if area_no == 60 && grid_x == 49 && 36 <= grid_z && grid_z <= 39 {
        Some("Caelid")
    }
    else if area_no == 60 && grid_x == 50 && 36 <= grid_z && grid_z <= 39 {
        Some("Caelid")
    }
    else if area_no == 60 && grid_x == 51 && 35 <= grid_z && grid_z <= 38 {
        Some("Caelid")
    }
    else if area_no == 60 && grid_x == 52 && 37 <= grid_z && grid_z <= 40 {
        Some("Caelid")
    }
    else if area_no == 60 && grid_x == 53 && 38 <= grid_z && grid_z <= 39 {
        Some("Caelid")
    }
    else if area_no == 60 && grid_x == 47 && 41 <= grid_z && grid_z <= 42 {
        Some("Caelid Greatjar")
    }
    else if area_no == 60 && grid_x == 49 && grid_z == 40 {
        Some("Caelid Greatjar")
    }
    else if area_no == 60 && grid_x == 48 && grid_z == 41 {
        Some("Dragonbarrow")
    }
    else if area_no == 60 && grid_x == 49 && grid_z == 41 {
        Some("Dragonbarrow")
    }
    else if area_no == 60 && grid_x == 50 && 40 <= grid_z && grid_z <= 41 {
        Some("Dragonbarrow")
    }
    else if area_no == 60 && grid_x == 51 && 39 <= grid_z && grid_z <= 43 {
        Some("Dragonbarrow")
    }
    else if area_no == 60 && grid_x == 52 && 41 <= grid_z && grid_z <= 43 {
        Some("Dragonbarrow")
    }
    else if area_no == 60 && grid_x == 47 && grid_z == 51 {
        Some("Forbidden Lands")
    }
    else if area_no == 60 && grid_x == 48 && grid_z == 51 {
        Some("Forbidden Lands")
    }
    else if area_no == 60 && grid_x == 49 && 52 <= grid_z && grid_z <= 53 {
        Some("Forbidden Lands")
    }
    else if area_no == 60 && grid_x == 46 && grid_z == 55 {
        Some("Consecrated Snowfield")
    }
    else if area_no == 60 && grid_x == 46 && grid_z == 57 {
        Some("Consecrated Snowfield")
    }
    else if area_no == 60 && grid_x == 47 && 55 <= grid_z && grid_z <= 58 {
        Some("Consecrated Snowfield")
    }
    else if area_no == 60 && grid_x == 48 && 54 <= grid_z && grid_z <= 58 {
        Some("Consecrated Snowfield")
    }
    else if area_no == 60 && grid_x == 49 && 54 <= grid_z && grid_z <= 57 {
        Some("Consecrated Snowfield")
    }
    else if area_no == 60 && grid_x == 50 && grid_z == 55 {
        Some("Consecrated Snowfield")
    }
    else if area_no == 60 && grid_x == 50 && 53 <= grid_z && grid_z <= 54 {
        Some("Mountaintops of the Giants")
    }
    else if area_no == 60 && grid_x == 50 && 56 <= grid_z && grid_z <= 57 {
        Some("Mountaintops of the Giants")
    }
    else if area_no == 60 && grid_x == 51 && 55 <= grid_z && grid_z <= 58 {
        Some("Mountaintops of the Giants")
    }
    else if area_no == 60 && grid_x == 52 && 55 <= grid_z && grid_z <= 58 {
        Some("Mountaintops of the Giants")
    }
    else if area_no == 60 && grid_x == 53 && 55 <= grid_z && grid_z <= 58 {
        Some("Mountaintops of the Giants")
    }
    else if area_no == 60 && grid_x == 54 && 55 <= grid_z && grid_z <= 57 {
        Some("Mountaintops of the Giants")
    }
    else if area_no == 60 && grid_x == 51 && 52 <= grid_z && grid_z <= 54 {
        Some("Flame Peak")
    }
    else if area_no == 60 && grid_x == 52 && 52 <= grid_z && grid_z <= 54 {
        Some("Flame Peak")
    }
    else if area_no == 60 && grid_x == 53 && 52 <= grid_z && grid_z <= 54 {
        Some("Flame Peak")
    }
    else if area_no == 60 && grid_x == 54 && grid_z == 53 {
        Some("Flame Peak")
    }
    else if area_no == 61 && grid_x == 44 && grid_z == 41 {
        Some("Gravesite Plain")
    }
    else if area_no == 61 && grid_x == 44 && grid_z == 43 {
        Some("Gravesite Plain")
    }
    else if area_no == 61 && grid_x == 45 && 40 <= grid_z && grid_z <= 44 {
        Some("Gravesite Plain")
    }
    else if area_no == 61 && grid_x == 46 && 40 <= grid_z && grid_z <= 44 {
        Some("Gravesite Plain")
    }
    else if area_no == 61 && grid_x == 47 && 40 <= grid_z && grid_z <= 45 {
        Some("Gravesite Plain")
    }
    else if area_no == 61 && grid_x == 48 && 40 <= grid_z && grid_z <= 43 {
        Some("Gravesite Plain")
    }
    else if area_no == 61 && grid_x == 49 && 42 <= grid_z && grid_z <= 43 {
        Some("Gravesite Plain")
    }
    else if area_no == 61 && grid_x == 46 && grid_z == 35 {
        Some("Cerulean Coast")
    }
    else if area_no == 61 && grid_x == 46 && 38 <= grid_z && grid_z <= 39 {
        Some("Cerulean Coast")
    }
    else if area_no == 61 && grid_x == 47 && 35 <= grid_z && grid_z <= 40 {
        Some("Cerulean Coast")
    }
    else if area_no == 61 && grid_x == 48 && 37 <= grid_z && grid_z <= 39 {
        Some("Cerulean Coast")
    }
    else if area_no == 61 && grid_x == 49 && 37 <= grid_z && grid_z <= 38 {
        Some("Cerulean Coast")
    }
    else if area_no == 61 && grid_x == 50 && grid_z == 37 {
        Some("Cerulean Coast")
    }
    else if area_no == 61 && grid_x == 45 && grid_z == 39 {
        Some("Charo's Hidden Grave")
    }
    else if area_no == 61 && grid_x == 46 && 39 <= grid_z && grid_z <= 40 {
        Some("Charo's Hidden Grave")
    }
    else if area_no == 61 && grid_x == 47 && 39 <= grid_z && grid_z <= 40 {
        Some("Charo's Hidden Grave")
    }
    else if area_no == 61 && grid_x == 48 && 38 <= grid_z && grid_z <= 40 {
        Some("Charo's Hidden Grave")
    }
    else if area_no == 61 && grid_x == 49 && 38 <= grid_z && grid_z <= 39 {
        Some("Charo's Hidden Grave")
    }
    else if area_no == 61 && grid_x == 46 && 43 <= grid_z && grid_z <= 45 {
        Some("Ellac River")
    }
    else if area_no == 61 && grid_x == 47 && 41 <= grid_z && grid_z <= 43 {
        Some("Ellac River")
    }
    else if area_no == 61 && grid_x == 48 && 40 <= grid_z && grid_z <= 41 {
        Some("Ellac River")
    }
    else if area_no == 61 && grid_x == 47 && grid_z == 44 {
        Some("Castle Ensis")
    }
    else if area_no == 61 && grid_x == 48 && grid_z == 44 {
        Some("Castle Ensis")
    }
    else if area_no == 61 && grid_x == 44 && 46 <= grid_z && grid_z <= 48 {
        Some("Rauh Base")
    }
    else if area_no == 61 && grid_x == 45 && 45 <= grid_z && grid_z <= 48 {
        Some("Rauh Base")
    }
    else if area_no == 61 && grid_x == 46 && 46 <= grid_z && grid_z <= 47 {
        Some("Rauh Base")
    }
    else if area_no == 61 && grid_x == 47 && 47 <= grid_z && grid_z <= 48 {
        Some("Rauh Base")
    }
    else if area_no == 61 && grid_x == 48 && grid_z == 48 {
        Some("Rauh Base")
    }
    else if area_no == 61 && grid_x == 44 && grid_z == 45 {
        Some("Ancient Ruins of Rauh")
    }
    else if area_no == 61 && grid_x == 45 && grid_z == 46 {
        Some("Ancient Ruins of Rauh")
    }
    else if area_no == 61 && grid_x == 46 && 46 <= grid_z && grid_z <= 48 {
        Some("Ancient Ruins of Rauh")
    }
    else if area_no == 61 && grid_x == 47 && 46 <= grid_z && grid_z <= 48 {
        Some("Ancient Ruins of Rauh")
    }
    else if area_no == 61 && grid_x == 47 && 44 <= grid_z && grid_z <= 46 {
        Some("Scadu Altus")
    }
    else if area_no == 61 && grid_x == 48 && 43 <= grid_z && grid_z <= 47 {
        Some("Scadu Altus")
    }
    else if area_no == 61 && grid_x == 49 && 43 <= grid_z && grid_z <= 47 {
        Some("Scadu Altus")
    }
    else if area_no == 61 && grid_x == 50 && 43 <= grid_z && grid_z <= 45 {
        Some("Scadu Altus")
    }
    else if area_no == 61 && grid_x == 49 && grid_z == 44 {
        Some("Scadu Altus")
    }
    else if area_no == 61 && grid_x == 50 && 44 <= grid_z && grid_z <= 47 {
        Some("Scadu Altus")
    }
    else if area_no == 61 && grid_x == 51 && 44 <= grid_z && grid_z <= 47 {
        Some("Scadu Altus")
    }
    else if area_no == 61 && grid_x == 52 && 45 <= grid_z && grid_z <= 47 {
        Some("Scadu Altus")
    }
    else if area_no == 61 && grid_x == 51 && grid_z == 43 {
        Some("Lower Scadu Altus")
    }
    else if area_no == 61 && grid_x == 48 && grid_z == 49 {
        Some("Scaduview")
    }
    else if area_no == 61 && grid_x == 49 && 48 <= grid_z && grid_z <= 49 {
        Some("Scaduview")
    }
    else if area_no == 61 && grid_x == 49 && grid_z == 48 {
        Some("Hinterland")
    }
    else if area_no == 61 && grid_x == 50 && 47 <= grid_z && grid_z <= 49 {
        Some("Hinterland")
    }
    else if area_no == 61 && grid_x == 51 && 47 <= grid_z && grid_z <= 49 {
        Some("Hinterland")
    }
    else if area_no == 61 && grid_x == 52 && 47 <= grid_z && grid_z <= 49 {
        Some("Hinterland")
    }
    else if area_no == 61 && grid_x == 53 && grid_z == 48 {
        Some("Hinterland")
    }
    else if area_no == 61 && grid_x == 54 && grid_z == 48 {
        Some("Hinterland")
    }
    else if area_no == 61 && grid_x == 49 && grid_z == 39 {
        Some("Finger Ruins of Rhia")
    }
    else if area_no == 61 && grid_x == 50 && 38 <= grid_z && grid_z <= 41 {
        Some("Finger Ruins of Rhia")
    }
    else if area_no == 61 && grid_x == 51 && 38 <= grid_z && grid_z <= 41 {
        Some("Finger Ruins of Rhia")
    }
    else if area_no == 61 && grid_x == 53 && 45 <= grid_z && grid_z <= 47 {
        Some("Finger Ruins of Dheo")
    }
    else if area_no == 61 && grid_x == 54 && 45 <= grid_z && grid_z <= 47 {
        Some("Finger Ruins of Dheo")
    }
    else if area_no == 61 && grid_x == 49 && 40 <= grid_z && grid_z <= 41 {
        Some("Abyssal Woods")
    }
    else if area_no == 61 && grid_x == 50 && grid_z == 42 {
        Some("Abyssal Woods")
    }
    else if area_no == 61 && grid_x == 51 && grid_z == 42 {
        Some("Abyssal Woods")
    }
    else if area_no == 61 && grid_x == 52 && 40 <= grid_z && grid_z <= 43 {
        Some("Abyssal Woods")
    }
    else if area_no == 61 && grid_x == 53 && 40 <= grid_z && grid_z <= 41 {
        Some("Abyssal Woods")
    }
    else if area_no == 61 && grid_x == 49 && 38 <= grid_z && grid_z <= 41 {
        Some("Foot of the Jagged Peak")
    }
    else if area_no == 61 && grid_x == 50 && 40 <= grid_z && grid_z <= 41 {
        Some("Foot of the Jagged Peak")
    }
    else if area_no == 61 && grid_x == 51 && 40 <= grid_z && grid_z <= 41 {
        Some("Foot of the Jagged Peak")
    }
    else if area_no == 61 && grid_x == 52 && 39 <= grid_z && grid_z <= 40 {
        Some("Foot of the Jagged Peak")
    }
    else if area_no == 61 && grid_x == 53 && 39 <= grid_z && grid_z <= 40 {
        Some("Jagged Peak")
    }
    else if area_no == 61 && grid_x == 54 && 39 <= grid_z && grid_z <= 40 {
        Some("Jagged Peak")
    }
    else if area_no == 61 && grid_x == 55 && grid_z == 39 {
        Some("Jagged Peak")
    }
    else {
        None
    }
}

/// Region table used when a tile has no precise name.
pub open spec fn fallback_region_seq(area_no: u8, grid_x: u8, grid_z: u8) -> Seq<char> {
    if area_no == 60 {
        if 33 <= grid_x && grid_x <= 36 && 40 <= grid_z && grid_z <= 42 {
            "Moonlight Altar"@
        }
        else if 33 <= grid_x && grid_x <= 40 && 40 <= grid_z && grid_z <= 50 {
            "Liurnia"@
        }
        else if 35 <= grid_x && grid_x <= 40 && 52 <= grid_z && grid_z <= 56 {
            "Mt. Gelmir"@
        }
        else if 36 <= grid_x && grid_x <= 43 && 50 <= grid_z && grid_z <= 56 {
            "Altus Plateau"@
        }
        else if 42 <= grid_x && grid_x <= 46 && 50 <= grid_z && grid_z <= 54 {
            "Capital Outskirts"@
        }
        else if 40 <= grid_x && grid_x <= 45 && 30 <= grid_z && grid_z <= 35 {
            "Weeping Peninsula"@
        }
        else if 40 <= grid_x && grid_x <= 46 && 35 <= grid_z && grid_z <= 40 {
            "Limgrave"@
        }
        else if 40 <= grid_x && grid_x <= 43 && 36 <= grid_z && grid_z <= 40 {
            "Stormhill"@
        }
        else if 47 <= grid_x && grid_x <= 53 && 35 <= grid_z && grid_z <= 42 {
            "Caelid"@
        }
        else if 48 <= grid_x && grid_x <= 53 && 39 <= grid_z && grid_z <= 44 {
            "Dragonbarrow"@
        }
        else if 47 <= grid_x && grid_x <= 50 && 51 <= grid_z && grid_z <= 54 {
            "Forbidden Lands"@
        }
        else if 46 <= grid_x && grid_x <= 50 && 54 <= grid_z && grid_z <= 58 {
            "Consecrated Snowfield"@
        }
        else if 50 <= grid_x && grid_x <= 54 && 52 <= grid_z && grid_z <= 58 {
            "Mountaintops of the Giants"@
        }
        else if 51 <= grid_x && grid_x <= 54 && 52 <= grid_z && grid_z <= 55 {
            "Flame Peak"@
        }
        else {
            "Lands Between"@
        }
    }
    else if area_no == 61 {
        if 44 <= grid_x && grid_x <= 49 && 40 <= grid_z && grid_z <= 44 {
            "Gravesite Plain"@
        }
        else if 46 <= grid_x && grid_x <= 50 && 35 <= grid_z && grid_z <= 40 {
            "Cerulean Coast"@
        }
        else if 44 <= grid_x && grid_x <= 48 && 45 <= grid_z && grid_z <= 48 {
            "Rauh Base"@
        }
        else if 44 <= grid_x && grid_x <= 47 && 45 <= grid_z && grid_z <= 48 {
            "Ancient Ruins of Rauh"@
        }
        else if 47 <= grid_x && grid_x <= 52 && 43 <= grid_z && grid_z <= 47 {
            "Scadu Altus"@
        }
        else if 48 <= grid_x && grid_x <= 52 && 47 <= grid_z && grid_z <= 49 {
            "Hinterland"@
        }
        else if 49 <= grid_x && grid_x <= 54 && 38 <= grid_z && grid_z <= 43 {
            "Abyssal Woods"@
        }
        else if 49 <= grid_x && grid_x <= 52 && 38 <= grid_z && grid_z <= 41 {
            "Foot of the Jagged Peak"@
        }
        else if 53 <= grid_x && grid_x <= 55 && 39 <= grid_z && grid_z <= 40 {
            "Jagged Peak"@
        }
        else {
            "Shadow Realm"@
        }
    }
    else {
        "Unknown"@
    }
}

/// Fallback overworld region name from grid coordinates.
pub fn get_fallback_overworld_region(area_no: u8, grid_x: u8, grid_z: u8) -> (r: &'static str)
    ensures
        r@ == fallback_region_seq(area_no, grid_x, grid_z),
{
    if area_no == 60 {
        if 33 <= grid_x && grid_x <= 36 && 40 <= grid_z && grid_z <= 42 {
            "Moonlight Altar"
        }
        else if 33 <= grid_x && grid_x <= 40 && 40 <= grid_z && grid_z <= 50 {
            "Liurnia"
        }
        else if 35 <= grid_x && grid_x <= 40 && 52 <= grid_z && grid_z <= 56 {
            "Mt. Gelmir"
        }
        else if 36 <= grid_x && grid_x <= 43 && 50 <= grid_z && grid_z <= 56 {
            "Altus Plateau"
        }
        else if 42 <= grid_x && grid_x <= 46 && 50 <= grid_z && grid_z <= 54 {
            "Capital Outskirts"
        }
        else if 40 <= grid_x && grid_x <= 45 && 30 <= grid_z && grid_z <= 35 {
            "Weeping Peninsula"
        }
        else if 40 <= grid_x && grid_x <= 46 && 35 <= grid_z && grid_z <= 40 {
            "Limgrave"
        }
        else if 40 <= grid_x && grid_x <= 43 && 36 <= grid_z && grid_z <= 40 {
            "Stormhill"
        }
        else if 47 <= grid_x && grid_x <= 53 && 35 <= grid_z && grid_z <= 42 {
            "Caelid"
        }
        else if 48 <= grid_x && grid_x <= 53 && 39 <= grid_z && grid_z <= 44 {
            "Dragonbarrow"
        }
        else if 47 <= grid_x && grid_x <= 50 && 51 <= grid_z && grid_z <= 54 {
            "Forbidden Lands"
        }
        else if 46 <= grid_x && grid_x <= 50 && 54 <= grid_z && grid_z <= 58 {
            "Consecrated Snowfield"
        }
        else if 50 <= grid_x && grid_x <= 54 && 52 <= grid_z && grid_z <= 58 {
            "Mountaintops of the Giants"
        }
        else if 51 <= grid_x && grid_x <= 54 && 52 <= grid_z && grid_z <= 55 {
            "Flame Peak"
        }
        else {
            "Lands Between"
        }
    }
    else if area_no == 61 {
        if 44 <= grid_x && grid_x <= 49 && 40 <= grid_z && grid_z <= 44 {
            "Gravesite Plain"
        }
        else if 46 <= grid_x && grid_x <= 50 && 35 <= grid_z && grid_z <= 40 {
            "Cerulean Coast"
        }
        else if 44 <= grid_x && grid_x <= 48 && 45 <= grid_z && grid_z <= 48 {
            "Rauh Base"
        }
        else if 44 <= grid_x && grid_x <= 47 && 45 <= grid_z && grid_z <= 48 {
            "Ancient Ruins of Rauh"
        }
        else if 47 <= grid_x && grid_x <= 52 && 43 <= grid_z && grid_z <= 47 {
            "Scadu Altus"
        }
        else if 48 <= grid_x && grid_x <= 52 && 47 <= grid_z && grid_z <= 49 {
            "Hinterland"
        }
        else if 49 <= grid_x && grid_x <= 54 && 38 <= grid_z && grid_z <= 43 {
            "Abyssal Woods"
        }
        else if 49 <= grid_x && grid_x <= 52 && 38 <= grid_z && grid_z <= 41 {
            "Foot of the Jagged Peak"
        }
        else if 53 <= grid_x && grid_x <= 55 && 39 <= grid_z && grid_z <= 40 {
            "Jagged Peak"
        }
        else {
            "Shadow Realm"
        }
    }
    else {
        "Unknown"
    }
}

/// Zone name for a packed tile identifier: `Unknown` for the sentinel,
/// the precise overworld table with its region fallback for overworld
/// areas, and the legacy table otherwise.
pub open spec fn zone_name_seq(map_id: u32) -> Seq<char> {
    let area_no = spec_area(map_id);
    let gx = spec_grid_x(map_id);
    let gz = spec_grid_z(map_id);
    if map_id == 0xFFFFFFFF {
        "Unknown"@
    } else if area_no == 60 || area_no == 61 {
        match overworld_tile_seq(area_no, gx, gz) {
            Some(n) => n,
            None => fallback_region_seq(area_no, gx, gz),
        }
    } else {
        match legacy_zone_seq(area_no, gx) {
            Some(n) => n,
            None => "Unknown Area"@,
        }
    }
}

/// Get the zone name for a given packed tile identifier.
pub fn get_zone_name(map_id: u32) -> (r: String)
    ensures
        r@ == zone_name_seq(map_id),
{
    let (area_no, grid_x, grid_z, _dd) = WorldPositionTransformer::parse_map_id(map_id);
    if map_id == 0xFFFFFFFF {
        return "Unknown".to_owned();
    }
    if area_no == 60 || area_no == 61 {
        match get_overworld_tile_name(area_no, grid_x, grid_z) {
            Some(name) => name.to_owned(),
            None => get_fallback_overworld_region(area_no, grid_x, grid_z).to_owned(),
        }
    } else {
        match get_legacy_zone_name(area_no, grid_x) {
            Some(name) => name.to_owned(),
            None => "Unknown Area".to_owned(),
        }
    }
}

/// A packed tile identifier rebuilt from its four bytes.
pub open spec fn packed_map_id(a: u8, x: u8, z: u8, d: u8) -> u32 {
    ((a as u32) << 24) | ((x as u32) << 16) | ((z as u32) << 8) | (d as u32)
}

/// A tile byte read from text, with zero for anything unparsable.
pub open spec fn u8_or_zero(s: Seq<char>) -> u8 {
    match parse_u8_spec(s) {
        Some(v) => v,
        None => 0,
    }
}

/// Zone name for canonical tile-identifier text `mAA_XX_ZZ_RR`: the name of
/// the rebuilt identifier, or `Unknown` when the text is not in that shape.
pub open spec fn zone_name_from_str_seq(s: Seq<char>) -> Seq<char> {
    if !(s.len() >= 12 && s[0] == 'm') {
        "Unknown"@
    } else {
        let parts = split_seq(s.skip(1), '_');
        if parts.len() != 4 {
            "Unknown"@
        } else {
            zone_name_seq(
                packed_map_id(
                    u8_or_zero(parts[0]),
                    u8_or_zero(parts[1]),
                    u8_or_zero(parts[2]),
                    u8_or_zero(parts[3]),
                ),
            )
        }
    }
}

/// Get the zone name from canonical tile-identifier text.
pub fn get_zone_name_from_str(map_id_str: &str) -> (r: String)
    ensures
        r@ == zone_name_from_str_seq(map_id_str@),
{
    let n = map_id_str.unicode_len();
    if n < 12 || map_id_str.get_char(0) != 'm' {
        return "Unknown".to_owned();
    }
    let rest = map_id_str.substring_char(1, n);
    proof {
        assert(rest@ =~= map_id_str@.skip(1));
    }
    let parts = split_char(rest, '_');
    proof {
        assert(parts@.map_values(|t: String| t@) == split_seq(map_id_str@.skip(1), '_'));
        assert(parts@.len() == parts@.map_values(|t: String| t@).len());
    }
    if parts.len() != 4 {
        return "Unknown".to_owned();
    }
    let a = parse_u8_or_zero(&parts, 0);
    let x = parse_u8_or_zero(&parts, 1);
    let z = parse_u8_or_zero(&parts, 2);
    let d = parse_u8_or_zero(&parts, 3);
    let map_id = ((a as u32) << 24) | ((x as u32) << 16) | ((z as u32) << 8) | (d as u32);
    get_zone_name(map_id)
}

/// A tile byte from one field of the split text, zero when unparsable.
fn parse_u8_or_zero(parts: &Vec<String>, i: usize) -> (r: u8)
    requires
        i < parts@.len(),
    ensures
        r == u8_or_zero(parts@.map_values(|t: String| t@)[i as int]),
{
    match parse_u8(parts[i].as_str()) {
        Some(v) => v,
        None => 0,
    }
}

} // verus!
