//! Route data structures and the export payload.
//!
//! A recording session produces an ordered sequence of samples and three
//! ordered event sequences; the export is a single JSON document whose
//! field names and nesting are fixed here. Coordinates are `i64`
//! thousandths of a world unit; the duration is kept in milliseconds and
//! written as seconds with a fractional part.

use vstd::prelude::*;
use vstd::string::StrSliceExecFns;
use vstd::string::StringExecFns;
use crate::json::append_json_quoted;
use crate::json::json_string_seq;
use crate::numtext::append_dec_i64;
use crate::numtext::append_dec_u64;
use crate::numtext::append_milli;
use crate::numtext::append_milli_u64;
use crate::numtext::append_two_digit;
use crate::numtext::dec_seq;
use crate::numtext::int_dec_seq;
use crate::numtext::milli_seq;
use crate::numtext::two_digit_seq;

verus! {

/// Debug info for the mount/riding state, read alongside each sample; any
/// field may be unavailable on a given tick.
#[derive(Clone, Copy, Debug, Default)]
pub struct TorrentDebugInfo {
    /// Ride parameter id.
    pub ride_param_id: Option<i32>,
    /// Whether riding is enabled.
    pub is_riding_enabled: Option<u8>,
    /// Whether the player is riding.
    pub riding: Option<u8>,
    /// Whether the mount is a horse.
    pub is_it_a_horse: Option<u8>,
    /// Mount state machine value.
    pub horse_state: Option<i32>,
    /// Mount hit points.
    pub horse_hp: Option<i32>,
    /// Whether the position forbids riding.
    pub is_inside_no_ride_area: Option<u8>,
}

/// One recorded sample.
#[derive(Clone, Debug)]
pub struct RoutePoint {
    /// Local X coordinate (within tile), thousandths.
    pub x: i64,
    /// Local Y coordinate (altitude), thousandths.
    pub y: i64,
    /// Local Z coordinate (within tile), thousandths.
    pub z: i64,
    /// Global X coordinate (world space), thousandths.
    pub global_x: i64,
    /// Global Y coordinate (altitude, same as y), thousandths.
    pub global_y: i64,
    /// Global Z coordinate (world space), thousandths.
    pub global_z: i64,
    /// Packed tile identifier.
    pub map_id: u32,
    /// Tile identifier as canonical text.
    pub map_id_str: String,
    /// Milliseconds from the start of the recording.
    pub timestamp_ms: u64,
    /// Whether the player is mounted.
    pub on_torrent: bool,
    /// Current animation id, when available.
    pub cur_anim: Option<u32>,
    /// Mount state details for this sample.
    pub torrent_debug: TorrentDebugInfo,
}

/// A death at a position and time.
#[derive(Clone, Debug)]
pub struct DeathEvent {
    /// Global X coordinate where the death occurred, thousandths.
    pub global_x: i64,
    /// Global Y coordinate, thousandths.
    pub global_y: i64,
    /// Global Z coordinate, thousandths.
    pub global_z: i64,
    /// Tile identifier as canonical text.
    pub map_id_str: String,
    /// Milliseconds from the start of the recording.
    pub timestamp_ms: u64,
}

/// A completed boundary crossing: entry and exit poses, zones and times.
#[derive(Clone, Debug)]
pub struct FogEvent {
    /// Entry global X coordinate, thousandths.
    pub entry_x: i64,
    /// Entry global Y coordinate, thousandths.
    pub entry_y: i64,
    /// Entry global Z coordinate, thousandths.
    pub entry_z: i64,
    /// Entry tile identifier as canonical text.
    pub entry_map_id_str: String,
    /// Entry zone name.
    pub entry_zone_name: String,
    /// Exit global X coordinate, thousandths.
    pub exit_x: i64,
    /// Exit global Y coordinate, thousandths.
    pub exit_y: i64,
    /// Exit global Z coordinate, thousandths.
    pub exit_z: i64,
    /// Exit tile identifier as canonical text.
    pub exit_map_id_str: String,
    /// Exit zone name.
    pub exit_zone_name: String,
    /// Entry time, milliseconds from the start of the recording.
    pub entry_timestamp_ms: u64,
    /// Exit time, milliseconds from the start of the recording.
    pub exit_timestamp_ms: u64,
}

/// A crossing that has been entered but not yet exited.
#[derive(Clone, Debug)]
pub struct PendingFogEvent {
    /// Entry global X coordinate, thousandths.
    pub entry_x: i64,
    /// Entry global Y coordinate, thousandths.
    pub entry_y: i64,
    /// Entry global Z coordinate, thousandths.
    pub entry_z: i64,
    /// Entry tile identifier as canonical text.
    pub entry_map_id_str: String,
    /// Entry zone name.
    pub entry_zone_name: String,
    /// Entry time, milliseconds from the start of the recording.
    pub entry_timestamp_ms: u64,
}

/// An item acquisition detected through an event flag.
#[derive(Clone, Debug)]
pub struct ItemEvent {
    /// The event flag id that fired.
    pub event_id: u32,
    /// The item id behind the flag.
    pub item_id: u32,
    /// The item's display name.
    pub item_name: String,
    /// Global X coordinate at acquisition, thousandths.
    pub global_x: i64,
    /// Global Y coordinate, thousandths.
    pub global_y: i64,
    /// Global Z coordinate, thousandths.
    pub global_z: i64,
    /// Tile identifier as canonical text.
    pub map_id_str: String,
    /// Milliseconds from the start of the recording.
    pub timestamp_ms: u64,
}

/// The export payload of one recording session.
#[derive(Clone, Debug)]
pub struct SavedRoute {
    /// Route name.
    pub name: String,
    /// Recording date text.
    pub recorded_at: String,
    /// Total duration in milliseconds; written as seconds.
    pub duration_ms: u64,
    /// Recording interval in milliseconds.
    pub interval_ms: u64,
    /// Number of samples.
    pub point_count: usize,
    /// The samples, in order.
    pub points: Vec<RoutePoint>,
    /// Death events, in order.
    pub deaths: Vec<DeathEvent>,
    /// Boundary-crossing events, in order.
    pub fog_traversals: Vec<FogEvent>,
    /// Item events, in order.
    pub item_events: Vec<ItemEvent>,
}

/// Mathematical view of one sample.
pub ghost struct RoutePointV {
    /// Local coordinates, thousandths.
    pub x: int,
    /// Local Y coordinate.
    pub y: int,
    /// Local Z coordinate.
    pub z: int,
    /// Global X coordinate.
    pub global_x: int,
    /// Global Y coordinate.
    pub global_y: int,
    /// Global Z coordinate.
    pub global_z: int,
    /// Packed tile identifier.
    pub map_id: u32,
    /// Tile identifier text.
    pub map_id_str: Seq<char>,
    /// Milliseconds from the start of the recording.
    pub timestamp_ms: int,
    /// Whether the player is mounted.
    pub on_torrent: bool,
    /// Current animation id.
    pub cur_anim: Option<u32>,
    /// Mount state details.
    pub torrent_debug: TorrentDebugInfo,
}

/// Mathematical view of a death event.
pub ghost struct DeathEventV {
    /// Global coordinates, thousandths.
    pub global_x: int,
    /// Global Y coordinate.
    pub global_y: int,
    /// Global Z coordinate.
    pub global_z: int,
    /// Tile identifier text.
    pub map_id_str: Seq<char>,
    /// Milliseconds from the start of the recording.
    pub timestamp_ms: int,
}

/// Mathematical view of a boundary-crossing event.
pub ghost struct FogEventV {
    /// Entry global coordinates, thousandths.
    pub entry_x: int,
    /// Entry global Y coordinate.
    pub entry_y: int,
    /// Entry global Z coordinate.
    pub entry_z: int,
    /// Entry tile identifier text.
    pub entry_map_id_str: Seq<char>,
    /// Entry zone name text.
    pub entry_zone_name: Seq<char>,
    /// Exit global coordinates, thousandths.
    pub exit_x: int,
    /// Exit global Y coordinate.
    pub exit_y: int,
    /// Exit global Z coordinate.
    pub exit_z: int,
    /// Exit tile identifier text.
    pub exit_map_id_str: Seq<char>,
    /// Exit zone name text.
    pub exit_zone_name: Seq<char>,
    /// Entry time.
    pub entry_timestamp_ms: int,
    /// Exit time.
    pub exit_timestamp_ms: int,
}

/// Mathematical view of a pending crossing.
pub ghost struct PendingFogEventV {
    /// Entry global coordinates, thousandths.
    pub entry_x: int,
    /// Entry global Y coordinate.
    pub entry_y: int,
    /// Entry global Z coordinate.
    pub entry_z: int,
    /// Entry tile identifier text.
    pub entry_map_id_str: Seq<char>,
    /// Entry zone name text.
    pub entry_zone_name: Seq<char>,
    /// Entry time.
    pub entry_timestamp_ms: int,
}

/// Mathematical view of an item event.
pub ghost struct ItemEventV {
    /// The event flag id that fired.
    pub event_id: u32,
    /// The item id behind the flag.
    pub item_id: u32,
    /// The item's display name text.
    pub item_name: Seq<char>,
    /// Global coordinates, thousandths.
    pub global_x: int,
    /// Global Y coordinate.
    pub global_y: int,
    /// Global Z coordinate.
    pub global_z: int,
    /// Tile identifier text.
    pub map_id_str: Seq<char>,
    /// Milliseconds from the start of the recording.
    pub timestamp_ms: int,
}

/// View of one sample.
pub open spec fn point_view(p: RoutePoint) -> RoutePointV {
    RoutePointV {
        x: p.x as int,
        y: p.y as int,
        z: p.z as int,
        global_x: p.global_x as int,
        global_y: p.global_y as int,
        global_z: p.global_z as int,
        map_id: p.map_id,
        map_id_str: p.map_id_str@,
        timestamp_ms: p.timestamp_ms as int,
        on_torrent: p.on_torrent,
        cur_anim: p.cur_anim,
        torrent_debug: p.torrent_debug,
    }
}

/// View of a death event.
pub open spec fn death_view(d: DeathEvent) -> DeathEventV {
    DeathEventV {
        global_x: d.global_x as int,
        global_y: d.global_y as int,
        global_z: d.global_z as int,
        map_id_str: d.map_id_str@,
        timestamp_ms: d.timestamp_ms as int,
    }
}

/// View of a boundary-crossing event.
pub open spec fn fog_view(f: FogEvent) -> FogEventV {
    FogEventV {
        entry_x: f.entry_x as int,
        entry_y: f.entry_y as int,
        entry_z: f.entry_z as int,
        entry_map_id_str: f.entry_map_id_str@,
        entry_zone_name: f.entry_zone_name@,
        exit_x: f.exit_x as int,
        exit_y: f.exit_y as int,
        exit_z: f.exit_z as int,
        exit_map_id_str: f.exit_map_id_str@,
        exit_zone_name: f.exit_zone_name@,
        entry_timestamp_ms: f.entry_timestamp_ms as int,
        exit_timestamp_ms: f.exit_timestamp_ms as int,
    }
}

/// View of a pending crossing.
pub open spec fn pending_view(p: PendingFogEvent) -> PendingFogEventV {
    PendingFogEventV {
        entry_x: p.entry_x as int,
        entry_y: p.entry_y as int,
        entry_z: p.entry_z as int,
        entry_map_id_str: p.entry_map_id_str@,
        entry_zone_name: p.entry_zone_name@,
        entry_timestamp_ms: p.entry_timestamp_ms as int,
    }
}

/// View of an item event.
pub open spec fn item_view(e: ItemEvent) -> ItemEventV {
    ItemEventV {
        event_id: e.event_id,
        item_id: e.item_id,
        item_name: e.item_name@,
        global_x: e.global_x as int,
        global_y: e.global_y as int,
        global_z: e.global_z as int,
        map_id_str: e.map_id_str@,
        timestamp_ms: e.timestamp_ms as int,
    }
}

/// View of a sample sequence.
pub open spec fn points_view(s: Seq<RoutePoint>) -> Seq<RoutePointV> {
    s.map_values(|p: RoutePoint| point_view(p))
}

/// View of a death-event sequence.
pub open spec fn deaths_view(s: Seq<DeathEvent>) -> Seq<DeathEventV> {
    s.map_values(|d: DeathEvent| death_view(d))
}

/// View of a crossing-event sequence.
pub open spec fn fogs_view(s: Seq<FogEvent>) -> Seq<FogEventV> {
    s.map_values(|f: FogEvent| fog_view(f))
}

/// View of an item-event sequence.
pub open spec fn items_view(s: Seq<ItemEvent>) -> Seq<ItemEventV> {
    s.map_values(|e: ItemEvent| item_view(e))
}

/// View of an optional pending crossing.
pub open spec fn opt_pending_view(p: Option<PendingFogEvent>) -> Option<PendingFogEventV> {
    match p {
        Some(x) => Some(pending_view(x)),
        None => None,
    }
}

/// Date-and-time text from seconds since the epoch: an approximate
/// year-month-day clock good enough for naming an export.
pub open spec fn timestamp_seq(secs: int) -> Seq<char> {
    let days = secs / 86400;
    let years = 1970 + days / 365;
    let remaining_days = days % 365;
    let months = remaining_days / 30 + 1;
    let day = remaining_days % 30 + 1;
    let hours = (secs % 86400) / 3600;
    let minutes = (secs % 3600) / 60;
    let seconds = secs % 60;
    dec_seq(years) + seq!['-'] + two_digit_seq(months) + seq!['-'] + two_digit_seq(day) + seq![
        ' ',
    ] + two_digit_seq(hours) + seq![':'] + two_digit_seq(minutes) + seq![':'] + two_digit_seq(
        seconds,
    )
}

/// Date-and-time text for the given seconds since the epoch.
pub fn generate_timestamp(secs: u64) -> (r: String)
    ensures
        r@ == timestamp_seq(secs as int),
{
    let days = secs / 86400;
    let years = 1970 + days / 365;
    let remaining_days = days % 365;
    let months = remaining_days / 30 + 1;
    let day = remaining_days % 30 + 1;
    let hours = (secs % 86400) / 3600;
    let minutes = (secs % 3600) / 60;
    let seconds = secs % 60;
    let mut s = String::new();
    proof {
        reveal_strlit("-");
        reveal_strlit(" ");
        reveal_strlit(":");
    }
    append_dec_u64(&mut s, years);
    s.append("-");
    append_two_digit(&mut s, months);
    s.append("-");
    append_two_digit(&mut s, day);
    s.append(" ");
    append_two_digit(&mut s, hours);
    s.append(":");
    append_two_digit(&mut s, minutes);
    s.append(":");
    append_two_digit(&mut s, seconds);
    proof {
        assert(s@ =~= timestamp_seq(secs as int));
    }
    s
}

/// JSON text of an optional unsigned number: the number, or `null`.
pub open spec fn opt_u32_json(v: Option<u32>) -> Seq<char> {
    match v {
        Some(x) => dec_seq(x as int),
        None => "null"@,
    }
}

/// JSON text of an optional signed number: the number, or `null`.
pub open spec fn opt_i32_json(v: Option<i32>) -> Seq<char> {
    match v {
        Some(x) => int_dec_seq(x as int),
        None => "null"@,
    }
}

/// JSON text of an optional byte: the number, or `null`.
pub open spec fn opt_u8_json(v: Option<u8>) -> Seq<char> {
    match v {
        Some(x) => dec_seq(x as int),
        None => "null"@,
    }
}

/// JSON text of a boolean.
pub open spec fn bool_json(b: bool) -> Seq<char> {
    if b {
        "true"@
    } else {
        "false"@
    }
}

/// JSON text of the mount state details.
pub open spec fn torrent_json_seq(t: TorrentDebugInfo) -> Seq<char> {
    "{\"ride_param_id\":"@ + opt_i32_json(t.ride_param_id) + ",\"is_riding_enabled\":"@
        + opt_u8_json(t.is_riding_enabled) + ",\"riding\":"@ + opt_u8_json(t.riding)
        + ",\"is_it_a_horse\":"@ + opt_u8_json(t.is_it_a_horse) + ",\"horse_state\":"@
        + opt_i32_json(t.horse_state) + ",\"horse_hp\":"@ + opt_i32_json(t.horse_hp)
        + ",\"is_inside_no_ride_area\":"@ + opt_u8_json(t.is_inside_no_ride_area) + "}"@
}

/// JSON text of one sample.
pub open spec fn point_json_seq(p: RoutePoint) -> Seq<char> {
    "{\"x\":"@ + milli_seq(p.x as int) + ",\"y\":"@ + milli_seq(p.y as int) + ",\"z\":"@
        + milli_seq(p.z as int) + ",\"global_x\":"@ + milli_seq(p.global_x as int)
        + ",\"global_y\":"@ + milli_seq(p.global_y as int) + ",\"global_z\":"@ + milli_seq(
        p.global_z as int,
    ) + ",\"map_id\":"@ + dec_seq(p.map_id as int) + ",\"map_id_str\":"@ + json_string_seq(
        p.map_id_str@,
    ) + ",\"timestamp_ms\":"@ + dec_seq(p.timestamp_ms as int) + ",\"on_torrent\":"@ + bool_json(
        p.on_torrent,
    ) + ",\"cur_anim\":"@ + opt_u32_json(p.cur_anim) + ",\"torrent_debug\":"@ + torrent_json_seq(
        p.torrent_debug,
    ) + "}"@
}

/// JSON text of one death event.
pub open spec fn death_json_seq(d: DeathEvent) -> Seq<char> {
    "{\"global_x\":"@ + milli_seq(d.global_x as int) + ",\"global_y\":"@ + milli_seq(
        d.global_y as int,
    ) + ",\"global_z\":"@ + milli_seq(d.global_z as int) + ",\"map_id_str\":"@ + json_string_seq(
        d.map_id_str@,
    ) + ",\"timestamp_ms\":"@ + dec_seq(d.timestamp_ms as int) + "}"@
}

/// JSON text of one boundary-crossing event.
pub open spec fn fog_json_seq(f: FogEvent) -> Seq<char> {
    "{\"entry_x\":"@ + milli_seq(f.entry_x as int) + ",\"entry_y\":"@ + milli_seq(
        f.entry_y as int,
    ) + ",\"entry_z\":"@ + milli_seq(f.entry_z as int) + ",\"entry_map_id_str\":"@
        + json_string_seq(f.entry_map_id_str@) + ",\"entry_zone_name\":"@ + json_string_seq(
        f.entry_zone_name@,
    ) + ",\"exit_x\":"@ + milli_seq(f.exit_x as int) + ",\"exit_y\":"@ + milli_seq(
        f.exit_y as int,
    ) + ",\"exit_z\":"@ + milli_seq(f.exit_z as int) + ",\"exit_map_id_str\":"@ + json_string_seq(
        f.exit_map_id_str@,
    ) + ",\"exit_zone_name\":"@ + json_string_seq(f.exit_zone_name@) + ",\"entry_timestamp_ms\":"@
        + dec_seq(f.entry_timestamp_ms as int) + ",\"exit_timestamp_ms\":"@ + dec_seq(
        f.exit_timestamp_ms as int,
    ) + "}"@
}

/// JSON text of one item event.
pub open spec fn item_json_seq(e: ItemEvent) -> Seq<char> {
    "{\"event_id\":"@ + dec_seq(e.event_id as int) + ",\"item_id\":"@ + dec_seq(e.item_id as int)
        + ",\"item_name\":"@ + json_string_seq(e.item_name@) + ",\"global_x\":"@ + milli_seq(
        e.global_x as int,
    ) + ",\"global_y\":"@ + milli_seq(e.global_y as int) + ",\"global_z\":"@ + milli_seq(
        e.global_z as int,
    ) + ",\"map_id_str\":"@ + json_string_seq(e.map_id_str@) + ",\"timestamp_ms\":"@ + dec_seq(
        e.timestamp_ms as int,
    ) + "}"@
}

/// The members of a JSON array, separated by commas.
pub open spec fn join_comma(parts: Seq<Seq<char>>) -> Seq<char>
    decreases parts.len(),
{
    if parts.len() == 0 {
        Seq::<char>::empty()
    } else if parts.len() == 1 {
        parts[0]
    } else {
        join_comma(parts.drop_last()) + seq![','] + parts.last()
    }
}

/// Appending a member extends the joined text by a comma and the member,
/// or by the member alone when it is the first.
pub proof fn lemma_join_comma_push(parts: Seq<Seq<char>>, x: Seq<char>)
    ensures
        parts.len() == 0 ==> join_comma(parts.push(x)) == x,
        parts.len() > 0 ==> join_comma(parts.push(x)) == join_comma(parts) + seq![','] + x,
{
    assert(parts.push(x).drop_last() =~= parts);
    assert(parts.push(x).last() == x);
    if parts.len() == 0 {
        assert(parts.push(x)[0] == x);
    }
}

/// JSON text of the export document's scalar fields, up to the opening of
/// the samples array.
pub open spec fn export_header_seq(
    name: Seq<char>,
    recorded_at: Seq<char>,
    duration_ms: int,
    interval_ms: int,
    point_count: int,
) -> Seq<char> {
    "{\"name\":"@ + json_string_seq(name) + ",\"recorded_at\":"@ + json_string_seq(recorded_at)
        + ",\"duration_secs\":"@ + milli_seq(duration_ms) + ",\"interval_ms\":"@ + dec_seq(
        interval_ms,
    ) + ",\"point_count\":"@ + dec_seq(point_count) + ",\"points\":["@
}

/// JSON text of the export document's four arrays, from the members of the
/// samples array to the closing brace.
pub open spec fn export_arrays_seq(
    points: Seq<RoutePoint>,
    deaths: Seq<DeathEvent>,
    fog_traversals: Seq<FogEvent>,
    item_events: Seq<ItemEvent>,
) -> Seq<char> {
    join_comma(points.map_values(|p: RoutePoint| point_json_seq(p))) + "],\"deaths\":["@
        + join_comma(deaths.map_values(|d: DeathEvent| death_json_seq(d)))
        + "],\"fog_traversals\":["@ + join_comma(
        fog_traversals.map_values(|f: FogEvent| fog_json_seq(f)),
    ) + "],\"item_events\":["@ + join_comma(
        item_events.map_values(|e: ItemEvent| item_json_seq(e)),
    ) + "]}"@
}

/// JSON text of the whole export payload.
pub open spec fn saved_route_json_seq(r: SavedRoute) -> Seq<char> {
    export_header_seq(
        r.name@,
        r.recorded_at@,
        r.duration_ms as int,
        r.interval_ms as int,
        r.point_count as int,
    ) + export_arrays_seq(r.points@, r.deaths@, r.fog_traversals@, r.item_events@)
}

/// Append the export document's scalar fields.
#[verifier::rlimit(100)]
fn append_export_header(
    out: &mut String,
    name: &str,
    recorded_at: &str,
    duration_ms: u64,
    interval_ms: u64,
    point_count: u64,
)
    ensures
        final(out)@ == old(out)@ + export_header_seq(
            name@,
            recorded_at@,
            duration_ms as int,
            interval_ms as int,
            point_count as int,
        ),
{
    let ghost pre = out@;
    out.append("{\"name\":");
    append_json_quoted(out, name);
    out.append(",\"recorded_at\":");
    append_json_quoted(out, recorded_at);
    out.append(",\"duration_secs\":");
    append_milli_u64(out, duration_ms);
    out.append(",\"interval_ms\":");
    append_dec_u64(out, interval_ms);
    out.append(",\"point_count\":");
    append_dec_u64(out, point_count);
    out.append(",\"points\":[");
    proof {
        assert(out@ =~= pre + export_header_seq(
            name@,
            recorded_at@,
            duration_ms as int,
            interval_ms as int,
            point_count as int,
        ));
    }
}

/// Append the export document's four arrays and the closing brace.
#[verifier::rlimit(100)]
fn append_export_arrays(
    out: &mut String,
    points: &Vec<RoutePoint>,
    deaths: &Vec<DeathEvent>,
    fog_traversals: &Vec<FogEvent>,
    item_events: &Vec<ItemEvent>,
)
    ensures
        final(out)@ == old(out)@ + export_arrays_seq(
            points@,
            deaths@,
            fog_traversals@,
            item_events@,
        ),
{
    let ghost pre = out@;
    let ghost a1 = join_comma(points@.map_values(|p: RoutePoint| point_json_seq(p)));
    let ghost a2 = join_comma(deaths@.map_values(|d: DeathEvent| death_json_seq(d)));
    let ghost a3 = join_comma(fog_traversals@.map_values(|f: FogEvent| fog_json_seq(f)));
    let ghost a4 = join_comma(item_events@.map_values(|e: ItemEvent| item_json_seq(e)));
    append_points(out, points);
    proof {
        assert(out@ == pre + a1);
    }
    out.append("],\"deaths\":[");
    proof {
        vstd::seq_lib::lemma_concat_associative(pre, a1, "],\"deaths\":["@);
    }
    let ghost s2 = a1 + "],\"deaths\":["@;
    append_deaths(out, deaths);
    proof {
        vstd::seq_lib::lemma_concat_associative(pre, s2, a2);
    }
    let ghost s3 = s2 + a2;
    out.append("],\"fog_traversals\":[");
    proof {
        vstd::seq_lib::lemma_concat_associative(pre, s3, "],\"fog_traversals\":["@);
    }
    let ghost s4 = s3 + "],\"fog_traversals\":["@;
    append_fogs(out, fog_traversals);
    proof {
        vstd::seq_lib::lemma_concat_associative(pre, s4, a3);
    }
    let ghost s5 = s4 + a3;
    out.append("],\"item_events\":[");
    proof {
        vstd::seq_lib::lemma_concat_associative(pre, s5, "],\"item_events\":["@);
    }
    let ghost s6 = s5 + "],\"item_events\":["@;
    append_items(out, item_events);
    proof {
        vstd::seq_lib::lemma_concat_associative(pre, s6, a4);
    }
    let ghost s7 = s6 + a4;
    out.append("]}");
    proof {
        vstd::seq_lib::lemma_concat_associative(pre, s7, "]}"@);
        assert(out@ == pre + (s7 + "]}"@));
        assert(out@ == pre + export_arrays_seq(
            points@,
            deaths@,
            fog_traversals@,
            item_events@,
        ));
    }
}

/// Append an optional unsigned number.
fn append_opt_u32(out: &mut String, v: &Option<u32>)
    ensures
        final(out)@ == old(out)@ + opt_u32_json(*v),
{
    match v {
        Some(x) => append_dec_u64(out, *x as u64),
        None => out.append("null"),
    }
}

/// Append an optional signed number.
fn append_opt_i32(out: &mut String, v: &Option<i32>)
    ensures
        final(out)@ == old(out)@ + opt_i32_json(*v),
{
    match v {
        Some(x) => append_dec_i64(out, *x as i64),
        None => out.append("null"),
    }
}

/// Append an optional byte.
fn append_opt_u8(out: &mut String, v: &Option<u8>)
    ensures
        final(out)@ == old(out)@ + opt_u8_json(*v),
{
    match v {
        Some(x) => append_dec_u64(out, *x as u64),
        None => out.append("null"),
    }
}

/// Append a boolean.
fn append_bool(out: &mut String, b: bool)
    ensures
        final(out)@ == old(out)@ + bool_json(b),
{
    if b {
        out.append("true");
    } else {
        out.append("false");
    }
}

/// Append the mount state details.
#[verifier::rlimit(50)]
fn append_torrent(out: &mut String, t: &TorrentDebugInfo)
    ensures
        final(out)@ == old(out)@ + torrent_json_seq(*t),
{
    let mut piece = String::new();
    let b = &mut piece;
    b.append("{\"ride_param_id\":");
    proof {
        assert(b@ =~= "{\"ride_param_id\":"@);
    }
    append_opt_i32(b, &t.ride_param_id);
    b.append(",\"is_riding_enabled\":");
    append_opt_u8(b, &t.is_riding_enabled);
    b.append(",\"riding\":");
    append_opt_u8(b, &t.riding);
    b.append(",\"is_it_a_horse\":");
    append_opt_u8(b, &t.is_it_a_horse);
    b.append(",\"horse_state\":");
    append_opt_i32(b, &t.horse_state);
    b.append(",\"horse_hp\":");
    append_opt_i32(b, &t.horse_hp);
    b.append(",\"is_inside_no_ride_area\":");
    append_opt_u8(b, &t.is_inside_no_ride_area);
    b.append("}");
    proof {
        assert(b@ == torrent_json_seq(*t));
    }
    out.append(piece.as_str());
}

/// Append one sample.
#[verifier::rlimit(100)]
fn append_point(out: &mut String, p: &RoutePoint)
    ensures
        final(out)@ == old(out)@ + point_json_seq(*p),
{
    let mut piece = String::new();
    let b = &mut piece;
    b.append("{\"x\":");
    proof {
        assert(b@ =~= "{\"x\":"@);
    }
    append_milli(b, p.x);
    b.append(",\"y\":");
    append_milli(b, p.y);
    b.append(",\"z\":");
    append_milli(b, p.z);
    b.append(",\"global_x\":");
    append_milli(b, p.global_x);
    b.append(",\"global_y\":");
    append_milli(b, p.global_y);
    b.append(",\"global_z\":");
    append_milli(b, p.global_z);
    b.append(",\"map_id\":");
    append_dec_u64(b, p.map_id as u64);
    b.append(",\"map_id_str\":");
    append_json_quoted(b, p.map_id_str.as_str());
    b.append(",\"timestamp_ms\":");
    append_dec_u64(b, p.timestamp_ms);
    b.append(",\"on_torrent\":");
    append_bool(b, p.on_torrent);
    b.append(",\"cur_anim\":");
    append_opt_u32(b, &p.cur_anim);
    b.append(",\"torrent_debug\":");
    append_torrent(b, &p.torrent_debug);
    b.append("}");
    proof {
        assert(b@ == point_json_seq(*p));
    }
    out.append(piece.as_str());
}

/// Append one death event.
#[verifier::rlimit(50)]
fn append_death(out: &mut String, d: &DeathEvent)
    ensures
        final(out)@ == old(out)@ + death_json_seq(*d),
{
    let mut piece = String::new();
    let b = &mut piece;
    b.append("{\"global_x\":");
    proof {
        assert(b@ =~= "{\"global_x\":"@);
    }
    append_milli(b, d.global_x);
    b.append(",\"global_y\":");
    append_milli(b, d.global_y);
    b.append(",\"global_z\":");
    append_milli(b, d.global_z);
    b.append(",\"map_id_str\":");
    append_json_quoted(b, d.map_id_str.as_str());
    b.append(",\"timestamp_ms\":");
    append_dec_u64(b, d.timestamp_ms);
    b.append("}");
    proof {
        assert(b@ == death_json_seq(*d));
    }
    out.append(piece.as_str());
}

/// Append one boundary-crossing event.
#[verifier::rlimit(100)]
fn append_fog(out: &mut String, f: &FogEvent)
    ensures
        final(out)@ == old(out)@ + fog_json_seq(*f),
{
    let mut piece = String::new();
    let b = &mut piece;
    b.append("{\"entry_x\":");
    proof {
        assert(b@ =~= "{\"entry_x\":"@);
    }
    append_milli(b, f.entry_x);
    b.append(",\"entry_y\":");
    append_milli(b, f.entry_y);
    b.append(",\"entry_z\":");
    append_milli(b, f.entry_z);
    b.append(",\"entry_map_id_str\":");
    append_json_quoted(b, f.entry_map_id_str.as_str());
    b.append(",\"entry_zone_name\":");
    append_json_quoted(b, f.entry_zone_name.as_str());
    b.append(",\"exit_x\":");
    append_milli(b, f.exit_x);
    b.append(",\"exit_y\":");
    append_milli(b, f.exit_y);
    b.append(",\"exit_z\":");
    append_milli(b, f.exit_z);
    b.append(",\"exit_map_id_str\":");
    append_json_quoted(b, f.exit_map_id_str.as_str());
    b.append(",\"exit_zone_name\":");
    append_json_quoted(b, f.exit_zone_name.as_str());
    b.append(",\"entry_timestamp_ms\":");
    append_dec_u64(b, f.entry_timestamp_ms);
    b.append(",\"exit_timestamp_ms\":");
    append_dec_u64(b, f.exit_timestamp_ms);
    b.append("}");
    proof {
        assert(b@ == fog_json_seq(*f));
    }
    out.append(piece.as_str());
}

/// Append one item event.
#[verifier::rlimit(50)]
fn append_item(out: &mut String, e: &ItemEvent)
    ensures
        final(out)@ == old(out)@ + item_json_seq(*e),
{
    let mut piece = String::new();
    let b = &mut piece;
    b.append("{\"event_id\":");
    proof {
        assert(b@ =~= "{\"event_id\":"@);
    }
    append_dec_u64(b, e.event_id as u64);
    b.append(",\"item_id\":");
    append_dec_u64(b, e.item_id as u64);
    b.append(",\"item_name\":");
    append_json_quoted(b, e.item_name.as_str());
    b.append(",\"global_x\":");
    append_milli(b, e.global_x);
    b.append(",\"global_y\":");
    append_milli(b, e.global_y);
    b.append(",\"global_z\":");
    append_milli(b, e.global_z);
    b.append(",\"map_id_str\":");
    append_json_quoted(b, e.map_id_str.as_str());
    b.append(",\"timestamp_ms\":");
    append_dec_u64(b, e.timestamp_ms);
    b.append("}");
    proof {
        assert(b@ == item_json_seq(*e));
    }
    out.append(piece.as_str());
}

/// Append the members of the samples array.
#[verifier::loop_isolation(false)]
#[verifier::rlimit(100)]
fn append_points(out: &mut String, points: &Vec<RoutePoint>)
    ensures
        final(out)@ == old(out)@ + join_comma(
            points@.map_values(|p: RoutePoint| point_json_seq(p)),
        ),
{
    let ghost pre = out@;
    let n = points.len();
    let mut i: usize = 0;
    proof {
        assert(points@.take(0).map_values(|p: RoutePoint| point_json_seq(p))
            =~= Seq::<Seq<char>>::empty());
        assert(out@ =~= pre + join_comma(
            points@.take(0).map_values(|p: RoutePoint| point_json_seq(p)),
        ));
    }
    while i < n
        invariant
            0 <= i <= n,
            out@ == pre + join_comma(
                points@.take(i as int).map_values(|p: RoutePoint| point_json_seq(p)),
            ),
        decreases n - i,
    {
        if i > 0 {
            out.append(",");
        }
        append_point(out, &points[i]);
        proof {
            reveal_strlit(",");
            let f = |p: RoutePoint| point_json_seq(p);
            assert(points@.take(i as int + 1) =~= points@.take(i as int).push(
                points@[i as int],
            ));
            assert(points@.take(i as int + 1).map_values(f) =~= points@.take(i as int).map_values(
                f,
            ).push(point_json_seq(points@[i as int])));
            lemma_join_comma_push(points@.take(i as int).map_values(f), point_json_seq(
                points@[i as int],
            ));
            assert(points@.take(i as int).map_values(f).len() == i);
            assert(out@ =~= pre + join_comma(points@.take(i as int + 1).map_values(f)));
        }
        i = i + 1;
    }
    proof {
        assert(points@.take(n as int) =~= points@);
    }
}

/// Append the members of the deaths array.
#[verifier::loop_isolation(false)]
#[verifier::rlimit(50)]
fn append_deaths(out: &mut String, deaths: &Vec<DeathEvent>)
    ensures
        final(out)@ == old(out)@ + join_comma(
            deaths@.map_values(|d: DeathEvent| death_json_seq(d)),
        ),
{
    let ghost pre = out@;
    let n = deaths.len();
    let mut i: usize = 0;
    proof {
        assert(deaths@.take(0).map_values(|d: DeathEvent| death_json_seq(d))
            =~= Seq::<Seq<char>>::empty());
        assert(out@ =~= pre + join_comma(
            deaths@.take(0).map_values(|d: DeathEvent| death_json_seq(d)),
        ));
    }
    while i < n
        invariant
            0 <= i <= n,
            out@ == pre + join_comma(
                deaths@.take(i as int).map_values(|d: DeathEvent| death_json_seq(d)),
            ),
        decreases n - i,
    {
        if i > 0 {
            out.append(",");
        }
        append_death(out, &deaths[i]);
        proof {
            reveal_strlit(",");
            let f = |d: DeathEvent| death_json_seq(d);
            assert(deaths@.take(i as int + 1) =~= deaths@.take(i as int).push(
                deaths@[i as int],
            ));
            assert(deaths@.take(i as int + 1).map_values(f) =~= deaths@.take(i as int).map_values(
                f,
            ).push(death_json_seq(deaths@[i as int])));
            lemma_join_comma_push(deaths@.take(i as int).map_values(f), death_json_seq(
                deaths@[i as int],
            ));
            assert(deaths@.take(i as int).map_values(f).len() == i);
            assert(out@ =~= pre + join_comma(deaths@.take(i as int + 1).map_values(f)));
        }
        i = i + 1;
    }
    proof {
        assert(deaths@.take(n as int) =~= deaths@);
    }
}

/// Append the members of the boundary-crossings array.
#[verifier::loop_isolation(false)]
#[verifier::rlimit(100)]
fn append_fogs(out: &mut String, fogs: &Vec<FogEvent>)
    ensures
        final(out)@ == old(out)@ + join_comma(fogs@.map_values(|f: FogEvent| fog_json_seq(f))),
{
    let ghost pre = out@;
    let n = fogs.len();
    let mut i: usize = 0;
    proof {
        assert(fogs@.take(0).map_values(|f: FogEvent| fog_json_seq(f))
            =~= Seq::<Seq<char>>::empty());
        assert(out@ =~= pre + join_comma(fogs@.take(0).map_values(|f: FogEvent| fog_json_seq(f))));
    }
    while i < n
        invariant
            0 <= i <= n,
            out@ == pre + join_comma(fogs@.take(i as int).map_values(|f: FogEvent| fog_json_seq(f))),
        decreases n - i,
    {
        if i > 0 {
            out.append(",");
        }
        append_fog(out, &fogs[i]);
        proof {
            reveal_strlit(",");
            let g = |f: FogEvent| fog_json_seq(f);
            assert(fogs@.take(i as int + 1) =~= fogs@.take(i as int).push(fogs@[i as int]));
            assert(fogs@.take(i as int + 1).map_values(g) =~= fogs@.take(i as int).map_values(
                g,
            ).push(fog_json_seq(fogs@[i as int])));
            lemma_join_comma_push(fogs@.take(i as int).map_values(g), fog_json_seq(
                fogs@[i as int],
            ));
            assert(fogs@.take(i as int).map_values(g).len() == i);
            assert(out@ =~= pre + join_comma(fogs@.take(i as int + 1).map_values(g)));
        }
        i = i + 1;
    }
    proof {
        assert(fogs@.take(n as int) =~= fogs@);
    }
}

/// Append the members of the item-events array.
#[verifier::loop_isolation(false)]
#[verifier::rlimit(50)]
fn append_items(out: &mut String, items: &Vec<ItemEvent>)
    ensures
        final(out)@ == old(out)@ + join_comma(items@.map_values(|e: ItemEvent| item_json_seq(e))),
{
    let ghost pre = out@;
    let n = items.len();
    let mut i: usize = 0;
    proof {
        assert(items@.take(0).map_values(|e: ItemEvent| item_json_seq(e))
            =~= Seq::<Seq<char>>::empty());
        assert(out@ =~= pre + join_comma(
            items@.take(0).map_values(|e: ItemEvent| item_json_seq(e)),
        ));
    }
    while i < n
        invariant
            0 <= i <= n,
            out@ == pre + join_comma(
                items@.take(i as int).map_values(|e: ItemEvent| item_json_seq(e)),
            ),
        decreases n - i,
    {
        if i > 0 {
            out.append(",");
        }
        append_item(out, &items[i]);
        proof {
            reveal_strlit(",");
            let g = |e: ItemEvent| item_json_seq(e);
            assert(items@.take(i as int + 1) =~= items@.take(i as int).push(items@[i as int]));
            assert(items@.take(i as int + 1).map_values(g) =~= items@.take(i as int).map_values(
                g,
            ).push(item_json_seq(items@[i as int])));
            lemma_join_comma_push(items@.take(i as int).map_values(g), item_json_seq(
                items@[i as int],
            ));
            assert(items@.take(i as int).map_values(g).len() == i);
            assert(out@ =~= pre + join_comma(items@.take(i as int + 1).map_values(g)));
        }
        i = i + 1;
    }
    proof {
        assert(items@.take(n as int) =~= items@);
    }
}

impl SavedRoute {
    /// The whole export payload as JSON text.
    pub fn to_json(&self) -> (r: String)
        ensures
            r@ == saved_route_json_seq(*self),
    {
        let mut out = String::new();
        append_export_header(
            &mut out,
            self.name.as_str(),
            self.recorded_at.as_str(),
            self.duration_ms,
            self.interval_ms,
            self.point_count as u64,
        );
        append_export_arrays(
            &mut out,
            &self.points,
            &self.deaths,
            &self.fog_traversals,
            &self.item_events,
        );
        proof {
            assert(out@ =~= saved_route_json_seq(*self));
        }
        out
    }
}

/// JSON text of a whole session export: name and date from the timestamp
/// text, duration from the last sample, and the four sequences in order.
pub open spec fn route_export_json_seq(
    points: Seq<RoutePoint>,
    deaths: Seq<DeathEvent>,
    fog_traversals: Seq<FogEvent>,
    item_events: Seq<ItemEvent>,
    recorded_at: Seq<char>,
    interval_ms: int,
) -> Seq<char> {
    export_header_seq(
        "Route "@ + recorded_at,
        recorded_at,
        points.last().timestamp_ms as int,
        interval_ms,
        points.len() as int,
    ) + export_arrays_seq(points, deaths, fog_traversals, item_events)
}

/// Render a finished session as the export JSON document. A session
/// without samples cannot be exported.
#[verifier::rlimit(100)]
pub fn render_route_json(
    points: &Vec<RoutePoint>,
    deaths: &Vec<DeathEvent>,
    fog_traversals: &Vec<FogEvent>,
    item_events: &Vec<ItemEvent>,
    recorded_at: &str,
    interval_ms: u64,
) -> (r: Result<String, String>)
    ensures
        match r {
            Ok(s) => points@.len() > 0 && s@ == route_export_json_seq(
                points@,
                deaths@,
                fog_traversals@,
                item_events@,
                recorded_at@,
                interval_ms as int,
            ),
            Err(msg) => points@.len() == 0 && msg@ == "No route data to save"@,
        },
{
    if points.len() == 0 {
        proof {
            reveal_strlit("No route data to save");
        }
        return Err(String::from_str("No route data to save"));
    }
    let duration_ms = points[points.len() - 1].timestamp_ms;
    let mut name = String::from_str("Route ");
    name.append(recorded_at);
    proof {
        assert(name@ =~= "Route "@ + recorded_at@);
    }
    let mut out = String::new();
    append_export_header(
        &mut out,
        name.as_str(),
        recorded_at,
        duration_ms,
        interval_ms,
        points.len() as u64,
    );
    append_export_arrays(&mut out, points, deaths, fog_traversals, item_events);
    proof {
        assert(out@ =~= route_export_json_seq(
            points@,
            deaths@,
            fog_traversals@,
            item_events@,
            recorded_at@,
            interval_ms as int,
        ));
    }
    Ok(out)
}

} // verus!
