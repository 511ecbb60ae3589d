//! Local-to-global coordinate conversion.
//!
//! The world is tiled; positions are reported local to a tile. Overworld
//! tiles convert by a closed-form grid rule; other tiles convert through a
//! table of measured anchor correspondences. Coordinates are carried as
//! `i64` thousandths of a world unit.

use vstd::prelude::*;
use vstd::string::StrSliceExecFns;
use vstd::string::StringExecFns;
use crate::numtext::append_two_digit;
use crate::numtext::parse_milli_spec;
use crate::numtext::parse_milli;
use crate::numtext::parse_u8_spec;
use crate::numtext::parse_u8;
use crate::numtext::parse_u32;
use crate::numtext::two_digit_seq;
use crate::strtext::split_char;
use crate::strtext::split_seq;
use crate::strtext::trim_seq;
use crate::strtext::trim;

verus! {

/// Side of a square tile, in thousandths of a world unit.
pub const TILE_SIZE_MILLI: i64 = 256000;

/// Area number of the canonical overworld tile grid.
pub const OVERWORLD_AREA: u8 = 60;

/// Largest coordinate magnitude the transformer accepts, in thousandths.
pub const COORD_LIMIT: i64 = 1000000000000000;

/// An anchor point for coordinate transformation: a measured correspondence
/// between a local position in a source tile and the equivalent position
/// local to an overworld destination tile.
#[derive(Debug, Clone, Copy)]
pub struct Anchor {
    /// Source tile: area number.
    pub src_area_no: u8,
    /// Source tile: grid X index.
    pub src_grid_x: u8,
    /// Source tile: grid Z index.
    pub src_grid_z: u8,
    /// Source position in local coordinates (thousandths).
    pub src_pos: (i64, i64, i64),
    /// Destination area number (the overworld area when usable directly).
    pub dst_area_no: u8,
    /// Destination grid X index.
    pub dst_grid_x: u8,
    /// Destination grid Z index.
    pub dst_grid_z: u8,
    /// Destination position, local to the destination tile (thousandths).
    pub dst_pos: (i64, i64, i64),
}

/// Error type for coordinate transformation.
#[derive(Debug, Clone)]
pub enum TransformError {
    /// The queried tile has no anchors; the payload is its canonical name.
    UnknownMap(String),
    /// Failure of the resource that the anchor table is loaded from.
    IoError(String),
}

/// Area byte of a packed tile identifier.
pub open spec fn spec_area(map_id: u32) -> u8 {
    ((map_id >> 24) & 0xFF) as u8
}

/// Grid X byte of a packed tile identifier.
pub open spec fn spec_grid_x(map_id: u32) -> u8 {
    ((map_id >> 16) & 0xFF) as u8
}

/// Grid Z byte of a packed tile identifier.
pub open spec fn spec_grid_z(map_id: u32) -> u8 {
    ((map_id >> 8) & 0xFF) as u8
}

/// Reserved low byte of a packed tile identifier.
pub open spec fn spec_reserved(map_id: u32) -> u8 {
    (map_id & 0xFF) as u8
}

/// Canonical text of a packed tile identifier: `mAA_XX_ZZ_RR` with each
/// byte printed as at least two decimal digits.
pub open spec fn map_id_seq(map_id: u32) -> Seq<char> {
    seq!['m'] + two_digit_seq(spec_area(map_id) as int) + seq!['_'] + two_digit_seq(
        spec_grid_x(map_id) as int,
    ) + seq!['_'] + two_digit_seq(spec_grid_z(map_id) as int) + seq!['_'] + two_digit_seq(
        spec_reserved(map_id) as int,
    )
}

/// Whether an anchor's source tile is the given tile.
pub open spec fn anchor_matches(a: Anchor, area: u8, gx: u8, gz: u8) -> bool {
    a.src_area_no == area && a.src_grid_x == gx && a.src_grid_z == gz
}

/// Least index of an anchor for the given tile, or -1.
pub open spec fn first_match_idx(anchors: Seq<Anchor>, area: u8, gx: u8, gz: u8) -> int
    decreases anchors.len(),
{
    if anchors.len() == 0 {
        -1
    } else if anchor_matches(anchors[0], area, gx, gz) {
        0
    } else {
        let r = first_match_idx(anchors.drop_first(), area, gx, gz);
        if r < 0 {
            -1
        } else {
            r + 1
        }
    }
}

/// Least index of an anchor for the given tile whose destination is the
/// overworld, or -1.
pub open spec fn first_overworld_idx(anchors: Seq<Anchor>, area: u8, gx: u8, gz: u8) -> int
    decreases anchors.len(),
{
    if anchors.len() == 0 {
        -1
    } else if anchor_matches(anchors[0], area, gx, gz) && anchors[0].dst_area_no
        == OVERWORLD_AREA {
        0
    } else {
        let r = first_overworld_idx(anchors.drop_first(), area, gx, gz);
        if r < 0 {
            -1
        } else {
            r + 1
        }
    }
}

/// Index of the anchor `convert` uses: the first overworld-targeting anchor
/// for the tile when one exists, otherwise the first anchor for the tile.
pub open spec fn selected_anchor_idx(anchors: Seq<Anchor>, area: u8, gx: u8, gz: u8) -> int {
    let ow = first_overworld_idx(anchors, area, gx, gz);
    if ow >= 0 {
        ow
    } else {
        first_match_idx(anchors, area, gx, gz)
    }
}

/// The documented two-step rule for a non-overworld position: re-express the
/// local position in the destination tile's frame, then apply the grid rule.
pub open spec fn two_step(a: Anchor, x: int, y: int, z: int) -> (int, int, int) {
    (
        x - a.src_pos.0 + a.dst_pos.0 + a.dst_grid_x * TILE_SIZE_MILLI,
        y - a.src_pos.1 + a.dst_pos.1,
        z - a.src_pos.2 + a.dst_pos.2 + a.dst_grid_z * TILE_SIZE_MILLI,
    )
}

/// Meaning of `local_to_world_first`: the overworld grid rule for overworld
/// tiles, the two-step rule through the selected anchor otherwise, and no
/// result for a tile without anchors.
pub open spec fn convert_spec(anchors: Seq<Anchor>, map_id: u32, x: int, y: int, z: int) -> Option<
    (int, int, int),
> {
    let area = spec_area(map_id);
    let gx = spec_grid_x(map_id);
    let gz = spec_grid_z(map_id);
    if area == OVERWORLD_AREA {
        Some((x + gx * TILE_SIZE_MILLI, y, z + gz * TILE_SIZE_MILLI))
    } else {
        let i = selected_anchor_idx(anchors, area, gx, gz);
        if i >= 0 {
            Some(two_step(anchors[i], x, y, z))
        } else {
            None
        }
    }
}

/// An anchor whose coordinates the arithmetic bounds admit.
pub open spec fn anchor_wf(a: Anchor) -> bool {
    -COORD_LIMIT <= a.src_pos.0 <= COORD_LIMIT && -COORD_LIMIT <= a.src_pos.1 <= COORD_LIMIT
        && -COORD_LIMIT <= a.src_pos.2 <= COORD_LIMIT && -COORD_LIMIT <= a.dst_pos.0
        <= COORD_LIMIT && -COORD_LIMIT <= a.dst_pos.1 <= COORD_LIMIT && -COORD_LIMIT
        <= a.dst_pos.2 <= COORD_LIMIT
}

/// Packed source-tile key of an anchor, for counting distinct tiles.
pub open spec fn spec_tile_key(area: u8, gx: u8, gz: u8) -> u32 {
    ((area as int) * 0x10000 + (gx as int) * 0x100 + (gz as int)) as u32
}

/// Packed source-tile key of an anchor.
pub open spec fn anchor_key(a: Anchor) -> u32 {
    spec_tile_key(a.src_area_no, a.src_grid_x, a.src_grid_z)
}

/// Whether some anchor of the table has the given source-tile key.
pub open spec fn table_has_key(anchors: Seq<Anchor>, key: u32) -> bool {
    exists|i: int| 0 <= i < anchors.len() && #[trigger] anchor_key(anchors[i]) == key
}

/// The number of distinct source tiles among the anchors: each anchor
/// counts when no earlier anchor shares its tile.
pub open spec fn distinct_tile_count(anchors: Seq<Anchor>) -> nat
    decreases anchors.len(),
{
    if anchors.len() == 0 {
        0
    } else {
        distinct_tile_count(anchors.drop_last()) + (if table_has_key(
            anchors.drop_last(),
            anchor_key(anchors.last()),
        ) {
            0nat
        } else {
            1nat
        })
    }
}

/// Transforms local coordinates to world coordinates through a table of
/// anchors, looked up by source tile.
pub struct WorldPositionTransformer {
    /// All loaded anchors, in load order.
    anchors: Vec<Anchor>,
    /// The distinct source-tile keys of the loaded anchors.
    tiles: Vec<u32>,
}

impl WorldPositionTransformer {
    /// The anchors, in load order.
    pub closed spec fn anchors_seq(self) -> Seq<Anchor> {
        self.anchors@
    }

    /// Well-formed: anchor coordinates are in range, and `tiles` holds
    /// exactly the distinct source-tile keys of the anchors.
    pub closed spec fn wf(self) -> bool {
        (forall|i: int|
            0 <= i < self.anchors@.len() ==> anchor_wf(#[trigger] self.anchors@[i]))
            && (forall|i: int, j: int|
            0 <= i < j < self.tiles@.len() ==> self.tiles@[i] != self.tiles@[j]) && (forall|
            k: int,
        |
            0 <= k < self.tiles@.len() ==> self.key_has_anchor(#[trigger] self.tiles@[k]))
            && (forall|i: int|
            0 <= i < self.anchors@.len() ==> self.tiles@.contains(
                anchor_key(#[trigger] self.anchors@[i]),
            )) && self.tiles@.len() == distinct_tile_count(self.anchors@)
    }

    /// Whether some loaded anchor has the given source-tile key.
    pub closed spec fn key_has_anchor(self, key: u32) -> bool {
        exists|i: int|
            0 <= i < self.anchors@.len() && key == #[trigger] anchor_key(self.anchors@[i])
    }

    /// Create an empty transformer; only overworld tiles will convert.
    pub fn empty() -> (r: Self)
        ensures
            r.wf(),
            r.anchors_seq() == Seq::<Anchor>::empty(),
            r.spec_map_count() == 0,
    {
        let r = Self { anchors: Vec::new(), tiles: Vec::new() };
        proof {
            assert(r.anchors@ =~= Seq::<Anchor>::empty());
            assert(r.tiles@ =~= Seq::<u32>::empty());
        }
        r
    }

    /// Unpack a packed tile identifier into (area, grid X, grid Z, reserved).
    pub fn parse_map_id(map_id: u32) -> (r: (u8, u8, u8, u8))
        ensures
            r.0 == spec_area(map_id),
            r.1 == spec_grid_x(map_id),
            r.2 == spec_grid_z(map_id),
            r.3 == spec_reserved(map_id),
    {
        let ww = ((map_id >> 24) & 0xFF) as u8;
        let xx = ((map_id >> 16) & 0xFF) as u8;
        let yy = ((map_id >> 8) & 0xFF) as u8;
        let dd = (map_id & 0xFF) as u8;
        (ww, xx, yy, dd)
    }

    /// Canonical text of a packed tile identifier, `mAA_XX_ZZ_RR`.
    pub fn format_map_id(map_id: u32) -> (r: String)
        ensures
            r@ == map_id_seq(map_id),
    {
        let (ww, xx, yy, dd) = Self::parse_map_id(map_id);
        let mut s = String::new();
        proof {
            reveal_strlit("m");
            reveal_strlit("_");
        }
        s.append("m");
        append_two_digit(&mut s, ww as u64);
        s.append("_");
        append_two_digit(&mut s, xx as u64);
        s.append("_");
        append_two_digit(&mut s, yy as u64);
        s.append("_");
        append_two_digit(&mut s, dd as u64);
        proof {
            assert(s@ =~= map_id_seq(map_id));
        }
        s
    }

    /// Index of the anchor to use for a tile, per the selection rule.
    fn find_anchor(&self, area: u8, gx: u8, gz: u8) -> (r: Option<usize>)
        ensures
            match r {
                Some(i) => 0 <= i < self.anchors_seq().len() && i == selected_anchor_idx(
                    self.anchors_seq(),
                    area,
                    gx,
                    gz,
                ),
                None => selected_anchor_idx(self.anchors_seq(), area, gx, gz) < 0,
            },
    {
        let n = self.anchors.len();
        let mut first_match: Option<usize> = None;
        let mut i: usize = 0;
        while i < n
            invariant
                0 <= i <= n,
                n == self.anchors@.len(),
                forall|j: int|
                    0 <= j < i ==> !(anchor_matches(#[trigger] self.anchors@[j], area, gx, gz)
                        && self.anchors@[j].dst_area_no == OVERWORLD_AREA),
                match first_match {
                    Some(k) => 0 <= k < i && anchor_matches(self.anchors@[k as int], area, gx, gz)
                        && forall|j: int|
                        0 <= j < k ==> !anchor_matches(#[trigger] self.anchors@[j], area, gx, gz),
                    None => forall|j: int|
                        0 <= j < i ==> !anchor_matches(#[trigger] self.anchors@[j], area, gx, gz),
                },
            decreases n - i,
        {
            let a = &self.anchors[i];
            let matches = a.src_area_no == area && a.src_grid_x == gx && a.src_grid_z == gz;
            if matches && a.dst_area_no == OVERWORLD_AREA {
                proof {
                    lemma_first_overworld_front(self.anchors@, area, gx, gz, i as int);
                }
                return Some(i);
            }
            if matches && first_match.is_none() {
                first_match = Some(i);
            }
            i = i + 1;
        }
        proof {
            lemma_first_overworld_front(self.anchors@, area, gx, gz, n as int);
            match first_match {
                Some(k) => {
                    lemma_first_match_front(self.anchors@, area, gx, gz, k as int);
                },
                None => {
                    lemma_first_match_front(self.anchors@, area, gx, gz, n as int);
                },
            }
        }
        first_match
    }

    /// Convert a local position to a global one.
    ///
    /// Overworld tiles use the grid rule directly. Other tiles go through
    /// the selected anchor's two-step rule; a tile without anchors is
    /// reported as unknown under its canonical name.
    pub fn local_to_world_first(&self, map_id: u32, x: i64, y: i64, z: i64) -> (r: Result<
        (i64, i64, i64),
        TransformError,
    >)
        requires
            self.wf(),
            -COORD_LIMIT <= x <= COORD_LIMIT,
            -COORD_LIMIT <= y <= COORD_LIMIT,
            -COORD_LIMIT <= z <= COORD_LIMIT,
        ensures
            match r {
                Ok(g) => convert_spec(self.anchors_seq(), map_id, x as int, y as int, z as int)
                    == Some((g.0 as int, g.1 as int, g.2 as int)),
                Err(e) => convert_spec(self.anchors_seq(), map_id, x as int, y as int, z as int)
                    is None && (e matches TransformError::UnknownMap(s) && s@ == map_id_seq(
                    map_id,
                )),
            },
    {
        let (area_no, grid_x, grid_z, _) = Self::parse_map_id(map_id);
        if area_no == OVERWORLD_AREA {
            let gx = x + (grid_x as i64) * TILE_SIZE_MILLI;
            let gy = y;
            let gz = z + (grid_z as i64) * TILE_SIZE_MILLI;
            return Ok((gx, gy, gz));
        }
        match self.find_anchor(area_no, grid_x, grid_z) {
            Some(i) => {
                let a = &self.anchors[i];
                let local_x = x - a.src_pos.0 + a.dst_pos.0;
                let local_y = y - a.src_pos.1 + a.dst_pos.1;
                let local_z = z - a.src_pos.2 + a.dst_pos.2;
                let gx = local_x + (a.dst_grid_x as i64) * TILE_SIZE_MILLI;
                let gy = local_y;
                let gz = local_z + (a.dst_grid_z as i64) * TILE_SIZE_MILLI;
                Ok((gx, gy, gz))
            },
            None => Err(TransformError::UnknownMap(Self::format_map_id(map_id))),
        }
    }

    /// The number of loaded anchors.
    pub fn anchor_count(&self) -> (r: usize)
        ensures
            r == self.anchors_seq().len(),
    {
        self.anchors.len()
    }

    /// The number of distinct source tiles with anchors.
    pub fn map_count(&self) -> (r: usize)
        ensures
            r == self.spec_map_count(),
    {
        self.tiles.len()
    }

    /// The number of distinct source tiles, as recorded by the loader.
    pub closed spec fn spec_map_count(self) -> nat {
        self.tiles@.len()
    }
}

/// Least-index characterisation for `first_match_idx`.
proof fn lemma_first_match_front(anchors: Seq<Anchor>, area: u8, gx: u8, gz: u8, pos: int)
    requires
        0 <= pos <= anchors.len(),
        forall|j: int| 0 <= j < pos ==> !anchor_matches(#[trigger] anchors[j], area, gx, gz),
        pos < anchors.len() ==> anchor_matches(anchors[pos], area, gx, gz),
    ensures
        pos < anchors.len() ==> first_match_idx(anchors, area, gx, gz) == pos,
        pos == anchors.len() ==> first_match_idx(anchors, area, gx, gz) < 0,
    decreases anchors.len(),
{
    if anchors.len() > 0 && !anchor_matches(anchors[0], area, gx, gz) {
        let t = anchors.drop_first();
        assert(forall|j: int| 0 <= j < anchors.len() - 1 ==> t[j] == anchors[j + 1]);
        lemma_first_match_front(t, area, gx, gz, pos - 1);
    }
}

/// Least-index characterisation for `first_overworld_idx`.
proof fn lemma_first_overworld_front(anchors: Seq<Anchor>, area: u8, gx: u8, gz: u8, pos: int)
    requires
        0 <= pos <= anchors.len(),
        forall|j: int|
            0 <= j < pos ==> !(anchor_matches(#[trigger] anchors[j], area, gx, gz) && anchors[j].dst_area_no
                == OVERWORLD_AREA),
        pos < anchors.len() ==> anchor_matches(anchors[pos], area, gx, gz)
            && anchors[pos].dst_area_no == OVERWORLD_AREA,
    ensures
        pos < anchors.len() ==> first_overworld_idx(anchors, area, gx, gz) == pos,
        pos == anchors.len() ==> first_overworld_idx(anchors, area, gx, gz) < 0,
    decreases anchors.len(),
{
    if anchors.len() > 0 && !(anchor_matches(anchors[0], area, gx, gz) && anchors[0].dst_area_no
        == OVERWORLD_AREA) {
        let t = anchors.drop_first();
        assert(forall|j: int| 0 <= j < anchors.len() - 1 ==> t[j] == anchors[j + 1]);
        lemma_first_overworld_front(t, area, gx, gz, pos - 1);
    }
}

/// For every overworld tile and local position, the conversion is exact,
/// and subtracting the same grid offsets recovers the local position.
pub proof fn lemma_overworld_exact_and_reversible(
    anchors: Seq<Anchor>,
    map_id: u32,
    x: int,
    y: int,
    z: int,
)
    requires
        spec_area(map_id) == OVERWORLD_AREA,
    ensures
        convert_spec(anchors, map_id, x, y, z) == Some(
            (
                x + spec_grid_x(map_id) * TILE_SIZE_MILLI,
                y,
                z + spec_grid_z(map_id) * TILE_SIZE_MILLI,
            ),
        ),
        convert_spec(anchors, map_id, x, y, z).unwrap().0 - spec_grid_x(map_id) * TILE_SIZE_MILLI
            == x,
        convert_spec(anchors, map_id, x, y, z).unwrap().1 == y,
        convert_spec(anchors, map_id, x, y, z).unwrap().2 - spec_grid_z(map_id) * TILE_SIZE_MILLI
            == z,
{
}

/// A non-overworld tile with exactly one anchor converts by the documented
/// two-step rule.
pub proof fn lemma_single_anchor_two_step(a: Anchor, map_id: u32, x: int, y: int, z: int)
    requires
        spec_area(map_id) != OVERWORLD_AREA,
        anchor_matches(a, spec_area(map_id), spec_grid_x(map_id), spec_grid_z(map_id)),
    ensures
        convert_spec(seq![a], map_id, x, y, z) == Some(two_step(a, x, y, z)),
{
    let area = spec_area(map_id);
    let gx = spec_grid_x(map_id);
    let gz = spec_grid_z(map_id);
    if a.dst_area_no == OVERWORLD_AREA {
        assert(first_overworld_idx(seq![a], area, gx, gz) == 0);
    } else {
        reveal_with_fuel(first_overworld_idx, 2);
        assert(seq![a].drop_first() =~= Seq::<Anchor>::empty());
        assert(first_overworld_idx(seq![a], area, gx, gz) < 0);
        assert(first_match_idx(seq![a], area, gx, gz) == 0);
    }
}

/// With two anchors for a tile of which exactly one targets the overworld,
/// that anchor is selected whatever the order of the table.
pub proof fn lemma_overworld_anchor_preferred(
    a: Anchor,
    b: Anchor,
    map_id: u32,
    x: int,
    y: int,
    z: int,
)
    requires
        spec_area(map_id) != OVERWORLD_AREA,
        anchor_matches(a, spec_area(map_id), spec_grid_x(map_id), spec_grid_z(map_id)),
        anchor_matches(b, spec_area(map_id), spec_grid_x(map_id), spec_grid_z(map_id)),
        a.dst_area_no == OVERWORLD_AREA,
        b.dst_area_no != OVERWORLD_AREA,
    ensures
        convert_spec(seq![a, b], map_id, x, y, z) == Some(two_step(a, x, y, z)),
        convert_spec(seq![b, a], map_id, x, y, z) == Some(two_step(a, x, y, z)),
{
    let area = spec_area(map_id);
    let gx = spec_grid_x(map_id);
    let gz = spec_grid_z(map_id);
    assert(first_overworld_idx(seq![a, b], area, gx, gz) == 0);
    assert(seq![a, b][0] == a);
    reveal_with_fuel(first_overworld_idx, 3);
    assert(seq![b, a].drop_first() =~= seq![a]);
    assert(first_overworld_idx(seq![b, a], area, gx, gz) == 1);
    assert(seq![b, a][1] == a);
}

/// Meaning of one table row: at least 18 comma-cut fields, of which fields
/// 5..7 and 12..14 are tile bytes and fields 9..11 and 15..17 are
/// fixed-point coordinates within the accepted range.
pub open spec fn row_anchor_spec(line: Seq<char>) -> Option<Anchor> {
    let fs = split_seq(line, ',');
    if fs.len() < 18 {
        None
    } else {
        let sa = parse_u8_spec(trim_seq(fs[5]));
        let sx = parse_u8_spec(trim_seq(fs[6]));
        let sz = parse_u8_spec(trim_seq(fs[7]));
        let px = parse_coord_spec(trim_seq(fs[9]));
        let py = parse_coord_spec(trim_seq(fs[10]));
        let pz = parse_coord_spec(trim_seq(fs[11]));
        let da = parse_u8_spec(trim_seq(fs[12]));
        let dx = parse_u8_spec(trim_seq(fs[13]));
        let dz = parse_u8_spec(trim_seq(fs[14]));
        let qx = parse_coord_spec(trim_seq(fs[15]));
        let qy = parse_coord_spec(trim_seq(fs[16]));
        let qz = parse_coord_spec(trim_seq(fs[17]));
        if sa is Some && sx is Some && sz is Some && px is Some && py is Some && pz is Some && da
            is Some && dx is Some && dz is Some && qx is Some && qy is Some && qz is Some {
            Some(
                Anchor {
                    src_area_no: sa.unwrap(),
                    src_grid_x: sx.unwrap(),
                    src_grid_z: sz.unwrap(),
                    src_pos: (px.unwrap(), py.unwrap(), pz.unwrap()),
                    dst_area_no: da.unwrap(),
                    dst_grid_x: dx.unwrap(),
                    dst_grid_z: dz.unwrap(),
                    dst_pos: (qx.unwrap(), qy.unwrap(), qz.unwrap()),
                },
            )
        } else {
            None
        }
    }
}

/// Parse a coordinate: fixed-point thousandths within the accepted range.
pub open spec fn parse_coord_spec(s: Seq<char>) -> Option<i64> {
    match parse_milli_spec(s) {
        Some(v) => if -COORD_LIMIT <= v <= COORD_LIMIT {
            Some(v)
        } else {
            None
        },
        None => None,
    }
}

/// The anchors of a run of table rows, in order, bad rows skipped.
pub open spec fn anchors_of_rows(rows: Seq<Seq<char>>) -> Seq<Anchor>
    decreases rows.len(),
{
    if rows.len() == 0 {
        Seq::<Anchor>::empty()
    } else {
        anchors_of_rows(rows.drop_last()) + match row_anchor_spec(rows.last()) {
            Some(a) => seq![a],
            None => Seq::<Anchor>::empty(),
        }
    }
}

/// The anchors of a whole table: every row but the header, bad rows skipped.
pub open spec fn table_anchors_spec(rows: Seq<Seq<char>>) -> Seq<Anchor> {
    if rows.len() == 0 {
        Seq::<Anchor>::empty()
    } else {
        anchors_of_rows(rows.drop_first())
    }
}

impl WorldPositionTransformer {
    /// Build the anchor table from the rows of the tabular resource. The
    /// first row is a header; rows that do not parse are skipped silently.
    pub fn from_rows(rows: &Vec<String>) -> (r: Self)
        ensures
            r.wf(),
            r.anchors_seq() == table_anchors_spec(rows@.map_values(|t: String| t@)),
            r.spec_map_count() == distinct_tile_count(r.anchors_seq()),
    {
        let mut out = Self { anchors: Vec::new(), tiles: Vec::new() };
        let n = rows.len();
        let mut i: usize = 1;
        proof {
            assert(out.anchors@ =~= Seq::<Anchor>::empty());
            if rows@.len() > 0 {
                assert(rows@.map_values(|t: String| t@).drop_first().take(0)
                    =~= Seq::<Seq<char>>::empty());
                assert(anchors_of_rows(Seq::<Seq<char>>::empty()) =~= Seq::<Anchor>::empty());
            }
        }
        if n == 0 {
            proof {
                assert(rows@.map_values(|t: String| t@).len() == 0);
            }
            return out;
        }
        while i < n
            invariant
                1 <= i <= n,
                n == rows@.len(),
                out.wf(),
                out.anchors@ =~= anchors_of_rows(
                    rows@.map_values(|t: String| t@).drop_first().take(i - 1),
                ),
            decreases n - i,
        {
            let ghost rows_view = rows@.map_values(|t: String| t@);
            let ghost prefix = rows_view.drop_first().take(i - 1);
            match Self::parse_row(&rows[i]) {
                Some(a) => {
                    out.push_anchor(a);
                },
                None => {},
            }
            proof {
                let next = rows_view.drop_first().take(i as int);
                assert(next.drop_last() =~= prefix);
                assert(next.last() == rows_view.drop_first()[i - 1]);
                assert(rows_view.drop_first()[i - 1] == rows_view[i as int]);
                assert(rows_view[i as int] == rows@[i as int]@);
                match row_anchor_spec(rows@[i as int]@) {
                    Some(a) => {
                        assert(out.anchors@ =~= anchors_of_rows(next));
                    },
                    None => {
                        assert(out.anchors@ =~= anchors_of_rows(next));
                    },
                }
            }
            i = i + 1;
        }
        proof {
            let rows_view = rows@.map_values(|t: String| t@);
            assert(rows_view.drop_first().take(n - 1) =~= rows_view.drop_first());
        }
        out
    }

    /// Parse one table row into an anchor, if it is well formed.
    fn parse_row(line: &String) -> (r: Option<Anchor>)
        ensures
            r == row_anchor_spec(line@),
            r matches Some(a) ==> anchor_wf(a),
    {
        let fields = split_char(line.as_str(), ',');
        proof {
            assert(fields@.map_values(|t: String| t@) == split_seq(line@, ','));
            assert(fields@.len() == fields@.map_values(|t: String| t@).len());
        }
        if fields.len() < 18 {
            return None;
        }
        let sa = match parse_u8_field(&fields, 5) {
            Some(v) => v,
            None => {
                return None;
            },
        };
        let sx = match parse_u8_field(&fields, 6) {
            Some(v) => v,
            None => {
                return None;
            },
        };
        let sz = match parse_u8_field(&fields, 7) {
            Some(v) => v,
            None => {
                return None;
            },
        };
        let px = match parse_coord_field(&fields, 9) {
            Some(v) => v,
            None => {
                return None;
            },
        };
        let py = match parse_coord_field(&fields, 10) {
            Some(v) => v,
            None => {
                return None;
            },
        };
        let pz = match parse_coord_field(&fields, 11) {
            Some(v) => v,
            None => {
                return None;
            },
        };
        let da = match parse_u8_field(&fields, 12) {
            Some(v) => v,
            None => {
                return None;
            },
        };
        let dx = match parse_u8_field(&fields, 13) {
            Some(v) => v,
            None => {
                return None;
            },
        };
        let dz = match parse_u8_field(&fields, 14) {
            Some(v) => v,
            None => {
                return None;
            },
        };
        let qx = match parse_coord_field(&fields, 15) {
            Some(v) => v,
            None => {
                return None;
            },
        };
        let qy = match parse_coord_field(&fields, 16) {
            Some(v) => v,
            None => {
                return None;
            },
        };
        let qz = match parse_coord_field(&fields, 17) {
            Some(v) => v,
            None => {
                return None;
            },
        };
        Some(
            Anchor {
                src_area_no: sa,
                src_grid_x: sx,
                src_grid_z: sz,
                src_pos: (px, py, pz),
                dst_area_no: da,
                dst_grid_x: dx,
                dst_grid_z: dz,
                dst_pos: (qx, qy, qz),
            },
        )
    }

    /// Append an anchor, keeping the distinct-tile list in step.
    fn push_anchor(&mut self, a: Anchor)
        requires
            old(self).wf(),
            anchor_wf(a),
        ensures
            final(self).wf(),
            final(self).anchors@ == old(self).anchors@.push(a),
            final(self).anchors_seq() == old(self).anchors_seq().push(a),
    {
        let key = tile_key(a.src_area_no, a.src_grid_x, a.src_grid_z);
        let mut seen = false;
        let n = self.tiles.len();
        let mut i: usize = 0;
        while i < n && !seen
            invariant
                0 <= i <= n,
                n == self.tiles@.len(),
                seen ==> self.tiles@.contains(key),
                !seen ==> forall|j: int| 0 <= j < i ==> self.tiles@[j] != key,
            decreases n - i + (if seen {
                0int
            } else {
                1int
            }),
        {
            if self.tiles[i] == key {
                seen = true;
                proof {
                    assert(self.tiles@[i as int] == key);
                }
            } else {
                i = i + 1;
            }
        }
        if !seen {
            self.tiles.push(key);
        }
        self.anchors.push(a);
        proof {
            let olda = old(self).anchors@;
            let olds = old(self).tiles@;
            let newa = self.anchors@;
            let news = self.tiles@;
            assert(newa =~= olda.push(a));
            if !seen {
                assert(news =~= olds.push(key));
            } else {
                assert(news =~= olds);
            }
            assert forall|i2: int| 0 <= i2 < newa.len() implies anchor_wf(#[trigger] newa[i2]) by {
                if i2 < olda.len() {
                    assert(newa[i2] == olda[i2]);
                } else {
                    assert(newa[i2] == a);
                }
            }
            assert forall|i2: int, j2: int| 0 <= i2 < j2 < news.len() implies news[i2] != news[j2]
                by {
                if j2 < olds.len() {
                    assert(news[i2] == olds[i2] && news[j2] == olds[j2]);
                } else {
                    assert(!seen && news[j2] == key);
                    assert(news[i2] == olds[i2]);
                    assert(olds[i2] != key);
                }
            }
            assert forall|k: int| 0 <= k < news.len() implies self.key_has_anchor(
                #[trigger] news[k],
            ) by {
                if k < olds.len() {
                    assert(news[k] == olds[k]);
                    assert(old(self).key_has_anchor(olds[k]));
                    let i0 = choose|i2: int|
                        0 <= i2 < olda.len() && olds[k] == #[trigger] anchor_key(olda[i2]);
                    assert(newa[i0] == olda[i0]);
                    assert(news[k] == anchor_key(newa[i0]));
                } else {
                    let ia = newa.len() - 1;
                    assert(newa[ia] == a);
                    assert(news[k] == key);
                    assert(anchor_key(a) == key);
                    assert(news[k] == anchor_key(newa[ia]));
                }
            }
            assert forall|i2: int| 0 <= i2 < newa.len() implies news.contains(
                anchor_key(#[trigger] newa[i2]),
            ) by {
                if i2 < olda.len() {
                    assert(newa[i2] == olda[i2]);
                    let kk = anchor_key(olda[i2]);
                    assert(olds.contains(kk));
                    let j0 = choose|j: int| 0 <= j < olds.len() && olds[j] == kk;
                    assert(news[j0] == kk);
                    assert(news.contains(kk));
                } else {
                    assert(newa[i2] == a);
                    assert(anchor_key(a) == key);
                    if seen {
                        assert(news.contains(key));
                    } else {
                        assert(news[news.len() - 1] == key);
                        assert(news.contains(key));
                    }
                }
            }
            // The distinct-tile count grows exactly when the key is new.
            assert(newa.drop_last() =~= olda);
            assert(newa.last() == a);
            assert(anchor_key(a) == key);
            if seen {
                assert(olds.contains(key));
                let j0 = choose|j: int| 0 <= j < olds.len() && olds[j] == key;
                assert(old(self).key_has_anchor(olds[j0]));
                let i0 = choose|i2: int|
                    0 <= i2 < olda.len() && anchor_key(olda[i2]) == olds[j0];
                assert(table_has_key(olda, key));
                assert(news.len() == olds.len());
            } else {
                if table_has_key(olda, key) {
                    let i0 = choose|i2: int|
                        0 <= i2 < olda.len() && #[trigger] anchor_key(olda[i2]) == key;
                    assert(olds.contains(anchor_key(olda[i0])));
                    let j0 = choose|j: int| 0 <= j < olds.len() && olds[j] == key;
                    assert(false);
                }
                assert(news.len() == olds.len() + 1);
            }
            assert(distinct_tile_count(newa) == distinct_tile_count(olda) + (if table_has_key(
                olda,
                key,
            ) {
                0nat
            } else {
                1nat
            }));
        }
    }
}

/// Packed source-tile key, as executable code.
fn tile_key(area: u8, gx: u8, gz: u8) -> (r: u32)
    ensures
        r == spec_tile_key(area, gx, gz),
{
    (area as u32) * 0x10000 + (gx as u32) * 0x100 + (gz as u32)
}

/// Parse a trimmed tile-byte field of a row.
fn parse_u8_field(fields: &Vec<String>, i: usize) -> (r: Option<u8>)
    requires
        i < fields@.len(),
    ensures
        r == parse_u8_spec(trim_seq(fields@.map_values(|t: String| t@)[i as int])),
{
    let t = trim(fields[i].as_str());
    match parse_u32(t) {
        Some(v) => {
            if v <= 255 {
                Some(v as u8)
            } else {
                None
            }
        },
        None => None,
    }
}

/// Parse a trimmed coordinate field of a row.
fn parse_coord_field(fields: &Vec<String>, i: usize) -> (r: Option<i64>)
    requires
        i < fields@.len(),
    ensures
        r == parse_coord_spec(trim_seq(fields@.map_values(|t: String| t@)[i as int])),
{
    let t = trim(fields[i].as_str());
    match parse_milli(t) {
        Some(v) => {
            if -COORD_LIMIT <= v && v <= COORD_LIMIT {
                Some(v)
            } else {
                None
            }
        },
        None => None,
    }
}

} // verus!
