//! The recording state machine: once per interval it takes one tick of
//! raw readings (pose, tile, counters, animation, flag states), converts
//! the pose to global coordinates, detects death, boundary-crossing and
//! item edges, and appends one sample. What each tick does is fixed by
//! [`record_step`].

use vstd::prelude::*;
use vstd::slice::SliceAdditionalExecFns;
use vstd::string::StrSliceExecFns;
use vstd::string::StringExecFns;
use crate::coordinate_transformer::COORD_LIMIT;
use crate::coordinate_transformer::WorldPositionTransformer;
use crate::coordinate_transformer::convert_spec;
use crate::coordinate_transformer::map_id_seq;
use crate::goods_events::GoodsEventsLoader;
use crate::route::DeathEvent;
use crate::route::DeathEventV;
use crate::route::FogEvent;
use crate::route::FogEventV;
use crate::route::ItemEvent;
use crate::route::ItemEventV;
use crate::route::PendingFogEvent;
use crate::route::PendingFogEventV;
use crate::route::RoutePoint;
use crate::route::RoutePointV;
use crate::route::TorrentDebugInfo;
use crate::route::deaths_view;
use crate::route::fogs_view;
use crate::route::items_view;
use crate::route::opt_pending_view;
use crate::route::pending_view;
use crate::route::points_view;
use crate::route::render_route_json;
use crate::route::route_export_json_seq;
use crate::zone_names::get_zone_name;
use crate::zone_names::zone_name_seq;

verus! {

/// Animation id of the boundary-crossing (fog wall) traversal.
pub const FOG_WALL_ANIM_ID: u32 = 60060;

/// How long a status message stays visible, in milliseconds.
pub const STATUS_VISIBLE_MS: u64 = 3000;

/// One tick of raw readings, gathered by the caller from the position,
/// counter, animation and flag sources. A `None` means the read failed
/// this tick.
pub struct TickInput {
    /// The tick's time, in milliseconds of a monotonic clock.
    pub now_ms: u64,
    /// Local pose, in thousandths of a world unit.
    pub pose: Option<(i64, i64, i64)>,
    /// Packed tile identifier.
    pub map_id: Option<u32>,
    /// Death counter.
    pub death_count: Option<u32>,
    /// Current animation id.
    pub anim: Option<u32>,
    /// Mount state details.
    pub torrent_debug: TorrentDebugInfo,
    /// Flag states, one per tracked event id, in id order.
    pub flag_states: Vec<Option<bool>>,
}

/// Route tracking state: one recording session's samples and events, the
/// last-known values used for edge detection, and the lookup tables.
pub struct RouteTracker {
    goods_events: GoodsEventsLoader,
    transformer: WorldPositionTransformer,
    route: Vec<RoutePoint>,
    deaths: Vec<DeathEvent>,
    fog_traversals: Vec<FogEvent>,
    item_events: Vec<ItemEvent>,
    last_death_count: Option<u32>,
    last_anim: Option<u32>,
    pending_fog: Option<PendingFogEvent>,
    last_flag_states: Vec<Option<bool>>,
    is_recording: bool,
    start_ms: Option<u64>,
    last_record_ms: u64,
    record_interval_ms: u64,
    status_message: Option<(String, u64)>,
}

impl RouteTracker {
    /// The recorded samples, as views.
    pub closed spec fn routev(self) -> Seq<RoutePointV> {
        points_view(self.route@)
    }

    /// The recorded samples.
    pub closed spec fn route_raw(self) -> Seq<RoutePoint> {
        self.route@
    }

    /// The recorded death events.
    pub closed spec fn deaths_raw(self) -> Seq<DeathEvent> {
        self.deaths@
    }

    /// The recorded crossing events.
    pub closed spec fn fogs_raw(self) -> Seq<FogEvent> {
        self.fog_traversals@
    }

    /// The recorded item events.
    pub closed spec fn items_raw(self) -> Seq<ItemEvent> {
        self.item_events@
    }

    /// The recorded death events, as views.
    pub closed spec fn deathsv(self) -> Seq<DeathEventV> {
        deaths_view(self.deaths@)
    }

    /// The recorded crossing events, as views.
    pub closed spec fn fogsv(self) -> Seq<FogEventV> {
        fogs_view(self.fog_traversals@)
    }

    /// The recorded item events, as views.
    pub closed spec fn itemsv(self) -> Seq<ItemEventV> {
        items_view(self.item_events@)
    }

    /// The open crossing, if one is pending, as a view.
    pub closed spec fn pendingv(self) -> Option<PendingFogEventV> {
        opt_pending_view(self.pending_fog)
    }

    /// The last known death counter.
    pub closed spec fn last_death(self) -> Option<u32> {
        self.last_death_count
    }

    /// The last known animation id.
    pub closed spec fn last_animv(self) -> Option<u32> {
        self.last_anim
    }

    /// The last known flag states, one per tracked event id.
    pub closed spec fn flagsv(self) -> Seq<Option<bool>> {
        self.last_flag_states@
    }

    /// Whether a session is being recorded.
    pub closed spec fn recording(self) -> bool {
        self.is_recording
    }

    /// The session clock's start, when a session has been started.
    pub closed spec fn startv(self) -> Option<u64> {
        self.start_ms
    }

    /// The time of the last recorded sample.
    pub closed spec fn last_record(self) -> int {
        self.last_record_ms as int
    }

    /// The configured sampling interval, in milliseconds.
    pub closed spec fn interval(self) -> int {
        self.record_interval_ms as int
    }

    /// The status message and its time, as a view.
    pub closed spec fn statusv(self) -> Option<(Seq<char>, int)> {
        match self.status_message {
            Some(p) => Some((p.0@, p.1 as int)),
            None => None,
        }
    }

    /// The anchor table.
    pub closed spec fn anchors(self) -> Seq<crate::coordinate_transformer::Anchor> {
        self.transformer.anchors_seq()
    }

    /// The tracked goods events, as a mapping.
    pub closed spec fn goods_map(self) -> Map<u32, (u32, Seq<char>)> {
        self.goods_events.as_map()
    }

    /// The tracked event ids, ascending.
    pub closed spec fn goods_ids(self) -> Seq<u32> {
        self.goods_events.ids_seq()
    }

    /// Well-formed: the lookup tables are well-formed, the flag snapshot is
    /// aligned with the tracked ids, and a running session has a start.
    pub closed spec fn wf(self) -> bool {
        self.transformer.wf() && self.goods_events.wf() && self.last_flag_states@.len()
            == self.goods_events.ids_seq().len() && (self.is_recording ==> self.start_ms
            is Some)
    }

    /// The parts a tick never changes: configuration, tables, and status.
    pub open spec fn config_unchanged(pre: RouteTracker, post: RouteTracker) -> bool {
        post.interval() == pre.interval() && post.anchors() == pre.anchors() && post.goods_map()
            == pre.goods_map() && post.goods_ids() == pre.goods_ids() && post.statusv()
            == pre.statusv()
    }
}

/// Whether a tick is dropped without any effect: not recording, called
/// again before the interval elapsed, or the position read failed.
pub open spec fn tick_skipped(pre: RouteTracker, input: TickInput) -> bool {
    !pre.recording() || input.now_ms < pre.last_record() + pre.interval() || input.pose is None
        || input.map_id is None
}

/// The sample time of a tick: elapsed milliseconds on the session clock.
pub open spec fn tick_timestamp(pre: RouteTracker, input: TickInput) -> int {
    match pre.startv() {
        Some(s) => input.now_ms - s,
        None => 0,
    }
}

/// The global pose of a tick: the converted pose, or the local pose
/// verbatim when the tile is unknown.
pub open spec fn tick_global(pre: RouteTracker, input: TickInput) -> (int, int, int) {
    let p = input.pose.unwrap();
    match convert_spec(
        pre.anchors(),
        input.map_id.unwrap(),
        p.0 as int,
        p.1 as int,
        p.2 as int,
    ) {
        Some(g) => g,
        None => (p.0 as int, p.1 as int, p.2 as int),
    }
}

/// Whether the tick's position data is valid: the tile is not the sentinel
/// and the pose is not the all-zero sentinel.
pub open spec fn pose_valid(input: TickInput) -> bool {
    let p = input.pose.unwrap();
    input.map_id.unwrap() != 0xFFFFFFFF && !(p.0 == 0 && p.1 == 0 && p.2 == 0)
}

/// Whether the tick shows a fresh death: a fresh counter read strictly
/// above the last known one.
pub open spec fn death_fires(pre: RouteTracker, input: TickInput) -> bool {
    match (input.death_count, pre.last_death()) {
        (Some(c), Some(l)) => c > l,
        _ => false,
    }
}

/// Whether the tick's animation is the crossing animation.
pub open spec fn anim_is_fog(anim: Option<u32>) -> bool {
    anim == Some(FOG_WALL_ANIM_ID)
}

/// Whether the tick opens a crossing: the crossing animation starts while
/// the position is valid.
pub open spec fn opens_crossing(pre: RouteTracker, input: TickInput) -> bool {
    anim_is_fog(input.anim) && !anim_is_fog(pre.last_animv()) && pose_valid(input)
}

/// Whether the tick closes the open crossing: a crossing is pending, the
/// animation is no longer the crossing one, and the position is valid.
pub open spec fn closes_crossing(pre: RouteTracker, input: TickInput) -> bool {
    !opens_crossing(pre, input) && pre.pendingv() is Some && !anim_is_fog(input.anim)
        && pose_valid(input)
}

/// Whether a flag edge fires: the fresh read is true and the last known
/// state was false or never read.
pub open spec fn fires_item(last: Option<bool>, cur: Option<bool>) -> bool {
    cur == Some(true) && !(match last {
        Some(b) => b,
        None => false,
    })
}

/// The item events fired by the first `n` tracked flags of a tick, in id
/// order.
pub open spec fn fired_items_upto(
    ids: Seq<u32>,
    goods: Map<u32, (u32, Seq<char>)>,
    last: Seq<Option<bool>>,
    cur: Seq<Option<bool>>,
    g: (int, int, int),
    mstr: Seq<char>,
    ts: int,
    n: int,
) -> Seq<ItemEventV>
    decreases n,
{
    if n <= 0 {
        Seq::<ItemEventV>::empty()
    } else {
        let rest = fired_items_upto(ids, goods, last, cur, g, mstr, ts, n - 1);
        let k = n - 1;
        if fires_item(last[k], cur[k]) && goods.contains_key(ids[k]) {
            rest + seq![
                ItemEventV {
                    event_id: ids[k],
                    item_id: goods[ids[k]].0,
                    item_name: goods[ids[k]].1,
                    global_x: g.0,
                    global_y: g.1,
                    global_z: g.2,
                    map_id_str: mstr,
                    timestamp_ms: ts,
                },
            ]
        } else {
            rest
        }
    }
}

/// The flag snapshot after a tick: every successful read replaces the last
/// known state; failed reads keep it.
pub open spec fn updated_flags(last: Seq<Option<bool>>, cur: Seq<Option<bool>>) -> Seq<
    Option<bool>,
> {
    Seq::new(
        last.len(),
        |k: int| if cur[k] is Some {
            cur[k]
        } else {
            last[k]
        },
    )
}

/// View of the discovery a tick hands back for the streaming client.
pub open spec fn discovery_view(r: Option<(String, String)>) -> Option<(Seq<char>, Seq<char>)> {
    match r {
        Some(p) => Some((p.0@, p.1@)),
        None => None,
    }
}

/// What one call of `record_position` does, in full: a skipped tick
/// changes nothing; a recorded tick appends exactly one sample, fires the
/// death, crossing and item edges as defined above, refreshes each
/// baseline from its fresh read where that read succeeded, and hands back
/// the closed crossing's zones, if any.
pub open spec fn record_step(
    pre: RouteTracker,
    input: TickInput,
    post: RouteTracker,
    rv: Option<(Seq<char>, Seq<char>)>,
) -> bool {
    if tick_skipped(pre, input) {
        post == pre && rv is None
    } else {
        let p = input.pose.unwrap();
        let map_id = input.map_id.unwrap();
        let ts = tick_timestamp(pre, input);
        let g = tick_global(pre, input);
        let mstr = map_id_seq(map_id);
        let on_torrent = match input.torrent_debug.horse_state {
            Some(v) => v != 0,
            None => false,
        };
        RouteTracker::config_unchanged(pre, post) && post.recording() && post.startv()
            == pre.startv() && post.last_record() == input.now_ms && post.routev()
            == pre.routev().push(
            RoutePointV {
                x: p.0 as int,
                y: p.1 as int,
                z: p.2 as int,
                global_x: g.0,
                global_y: g.1,
                global_z: g.2,
                map_id,
                map_id_str: mstr,
                timestamp_ms: ts,
                on_torrent,
                cur_anim: input.anim,
                torrent_debug: input.torrent_debug,
            },
        ) && post.deathsv() == (if death_fires(pre, input) {
            pre.deathsv().push(
                DeathEventV {
                    global_x: g.0,
                    global_y: g.1,
                    global_z: g.2,
                    map_id_str: mstr,
                    timestamp_ms: ts,
                },
            )
        } else {
            pre.deathsv()
        }) && post.last_death() == (if input.death_count is Some {
            input.death_count
        } else {
            pre.last_death()
        }) && (if opens_crossing(pre, input) {
            post.pendingv() == Some(
                PendingFogEventV {
                    entry_x: g.0,
                    entry_y: g.1,
                    entry_z: g.2,
                    entry_map_id_str: mstr,
                    entry_zone_name: zone_name_seq(map_id),
                    entry_timestamp_ms: ts,
                },
            ) && post.fogsv() == pre.fogsv() && rv is None
        } else if closes_crossing(pre, input) {
            let pv = pre.pendingv().unwrap();
            post.pendingv() is None && post.fogsv() == pre.fogsv().push(
                FogEventV {
                    entry_x: pv.entry_x,
                    entry_y: pv.entry_y,
                    entry_z: pv.entry_z,
                    entry_map_id_str: pv.entry_map_id_str,
                    entry_zone_name: pv.entry_zone_name,
                    exit_x: g.0,
                    exit_y: g.1,
                    exit_z: g.2,
                    exit_map_id_str: mstr,
                    exit_zone_name: zone_name_seq(map_id),
                    entry_timestamp_ms: pv.entry_timestamp_ms,
                    exit_timestamp_ms: ts,
                },
            ) && rv == Some((pv.entry_zone_name, zone_name_seq(map_id)))
        } else {
            post.pendingv() == pre.pendingv() && post.fogsv() == pre.fogsv() && rv is None
        }) && post.last_animv() == input.anim && post.itemsv() == pre.itemsv()
            + fired_items_upto(
            pre.goods_ids(),
            pre.goods_map(),
            pre.flagsv(),
            input.flag_states@,
            g,
            mstr,
            ts,
            pre.goods_ids().len() as int,
        ) && post.flagsv() == updated_flags(pre.flagsv(), input.flag_states@)
    }
}

/// A tick between intervals is a no-op: while recording, a call earlier
/// than one interval after the last recorded sample leaves the whole
/// tracker untouched and forwards nothing.
pub proof fn lemma_early_tick_is_noop(
    pre: RouteTracker,
    input: TickInput,
    post: RouteTracker,
    rv: Option<(Seq<char>, Seq<char>)>,
)
    requires
        record_step(pre, input, post, rv),
        input.now_ms < pre.last_record() + pre.interval(),
    ensures
        post == pre,
        rv is None,
{
}

impl RouteTracker {
    /// Create a tracker over the given tables: no session yet, nothing
    /// recorded, the last-sample clock starting now.
    pub fn new(
        transformer: WorldPositionTransformer,
        goods_events: GoodsEventsLoader,
        record_interval_ms: u64,
        now_ms: u64,
        last_death_count: Option<u32>,
    ) -> (r: Self)
        requires
            transformer.wf(),
            goods_events.wf(),
        ensures
            r.wf(),
            r.routev() == Seq::<RoutePointV>::empty(),
            r.deathsv() == Seq::<DeathEventV>::empty(),
            r.fogsv() == Seq::<FogEventV>::empty(),
            r.itemsv() == Seq::<ItemEventV>::empty(),
            r.pendingv() is None,
            r.last_death() == last_death_count,
            r.last_animv() is None,
            r.flagsv() == Seq::new(goods_events.ids_seq().len(), |k: int| None::<bool>),
            !r.recording(),
            r.startv() is None,
            r.last_record() == now_ms,
            r.interval() == record_interval_ms,
            r.statusv() is None,
            r.anchors() == transformer.anchors_seq(),
            r.goods_map() == goods_events.as_map(),
            r.goods_ids() == goods_events.ids_seq(),
    {
        let n = goods_events.len();
        let mut flags: Vec<Option<bool>> = Vec::new();
        let ids_len = {
            let ids = goods_events.event_ids();
            ids.len()
        };
        let mut k: usize = 0;
        while k < ids_len
            invariant
                0 <= k <= ids_len,
                flags@.len() == k,
                forall|j: int| 0 <= j < k ==> flags@[j] is None,
            decreases ids_len - k,
        {
            flags.push(None);
            k = k + 1;
        }
        let r = Self {
            goods_events,
            transformer,
            route: Vec::new(),
            deaths: Vec::new(),
            fog_traversals: Vec::new(),
            item_events: Vec::new(),
            last_death_count,
            last_anim: None,
            pending_fog: None,
            last_flag_states: flags,
            is_recording: false,
            start_ms: None,
            last_record_ms: now_ms,
            record_interval_ms,
            status_message: None,
        };
        proof {
            assert(r.route@ =~= Seq::<RoutePoint>::empty());
            assert(r.routev() =~= Seq::<RoutePointV>::empty());
            assert(r.deathsv() =~= Seq::<DeathEventV>::empty());
            assert(r.fogsv() =~= Seq::<FogEventV>::empty());
            assert(r.itemsv() =~= Seq::<ItemEventV>::empty());
            assert(r.flagsv() =~= Seq::new(r.goods_events.ids_seq().len(), |j: int| None::<bool>));
        }
        r
    }

    /// Start recording: clear every session sequence, take the given
    /// baselines and flag snapshot, and start the session clock now.
    pub fn start_recording(
        &mut self,
        now_ms: u64,
        death_count: Option<u32>,
        anim: Option<u32>,
        flag_snapshot: Vec<Option<bool>>,
    )
        requires
            old(self).wf(),
            flag_snapshot@.len() == old(self).goods_ids().len(),
        ensures
            final(self).wf(),
            final(self).routev() == Seq::<RoutePointV>::empty(),
            final(self).deathsv() == Seq::<DeathEventV>::empty(),
            final(self).fogsv() == Seq::<FogEventV>::empty(),
            final(self).itemsv() == Seq::<ItemEventV>::empty(),
            final(self).pendingv() is None,
            final(self).last_death() == death_count,
            final(self).last_animv() == anim,
            final(self).flagsv() == flag_snapshot@,
            final(self).recording(),
            final(self).startv() == Some(now_ms),
            final(self).last_record() == old(self).last_record(),
            RouteTracker::config_unchanged(*old(self), *final(self)),
    {
        self.route.clear();
        self.deaths.clear();
        self.fog_traversals.clear();
        self.item_events.clear();
        self.pending_fog = None;
        self.last_death_count = death_count;
        self.last_anim = anim;
        self.last_flag_states = flag_snapshot;
        self.start_ms = Some(now_ms);
        self.is_recording = true;
        proof {
            assert(self.routev() =~= Seq::<RoutePointV>::empty());
            assert(self.deathsv() =~= Seq::<DeathEventV>::empty());
            assert(self.fogsv() =~= Seq::<FogEventV>::empty());
            assert(self.itemsv() =~= Seq::<ItemEventV>::empty());
        }
    }

    /// Stop recording: freeze the session; everything stays readable.
    pub fn stop_recording(&mut self)
        requires
            old(self).wf(),
        ensures
            final(self).wf(),
            !final(self).recording(),
            final(self).routev() == old(self).routev(),
            final(self).deathsv() == old(self).deathsv(),
            final(self).fogsv() == old(self).fogsv(),
            final(self).itemsv() == old(self).itemsv(),
            final(self).pendingv() == old(self).pendingv(),
            final(self).last_death() == old(self).last_death(),
            final(self).last_animv() == old(self).last_animv(),
            final(self).flagsv() == old(self).flagsv(),
            final(self).startv() == old(self).startv(),
            final(self).last_record() == old(self).last_record(),
            RouteTracker::config_unchanged(*old(self), *final(self)),
    {
        self.is_recording = false;
    }

    /// Discard the recorded samples; events and baselines stay.
    pub fn clear_route(&mut self)
        requires
            old(self).wf(),
        ensures
            final(self).wf(),
            final(self).routev() == Seq::<RoutePointV>::empty(),
            final(self).deathsv() == old(self).deathsv(),
            final(self).fogsv() == old(self).fogsv(),
            final(self).itemsv() == old(self).itemsv(),
            final(self).pendingv() == old(self).pendingv(),
            final(self).recording() == old(self).recording(),
            final(self).startv() == old(self).startv(),
            final(self).last_record() == old(self).last_record(),
            final(self).last_death() == old(self).last_death(),
            final(self).last_animv() == old(self).last_animv(),
            final(self).flagsv() == old(self).flagsv(),
            RouteTracker::config_unchanged(*old(self), *final(self)),
    {
        self.route.clear();
        proof {
            assert(self.routev() =~= Seq::<RoutePointV>::empty());
        }
    }

    /// Record one tick, as [`record_step`] says: a no-op between intervals
    /// or without a position; otherwise one sample and the fired edges. The
    /// result is the closed crossing's entry and exit zones, for the
    /// streaming client.
    #[verifier::loop_isolation(false)]
    #[verifier::rlimit(100)]
    pub fn record_position(&mut self, input: &TickInput) -> (r: Option<(String, String)>)
        requires
            old(self).wf(),
            input.flag_states@.len() == old(self).goods_ids().len(),
            input.now_ms >= old(self).last_record(),
            old(self).startv() matches Some(s) ==> input.now_ms >= s,
            input.pose matches Some(p) ==> -COORD_LIMIT <= p.0 <= COORD_LIMIT && -COORD_LIMIT
                <= p.1 <= COORD_LIMIT && -COORD_LIMIT <= p.2 <= COORD_LIMIT,
        ensures
            final(self).wf(),
            record_step(*old(self), *input, *final(self), discovery_view(r)),
    {
        if !self.is_recording {
            return None;
        }
        if input.now_ms - self.last_record_ms < self.record_interval_ms {
            return None;
        }
        let (x, y, z) = match input.pose {
            Some(p) => p,
            None => {
                return None;
            },
        };
        let map_id = match input.map_id {
            Some(m) => m,
            None => {
                return None;
            },
        };
        let timestamp_ms: u64 = match self.start_ms {
            Some(s) => input.now_ms - s,
            None => 0,
        };
        let (global_x, global_y, global_z) = match self.transformer.local_to_world_first(
            map_id,
            x,
            y,
            z,
        ) {
            Ok(g) => g,
            Err(_) => (x, y, z),
        };
        let map_id_str = WorldPositionTransformer::format_map_id(map_id);
        let on_torrent = match input.torrent_debug.horse_state {
            Some(v) => v != 0,
            None => false,
        };
        let ghost gv = tick_global(*old(self), *input);
        proof {
            assert(gv == (global_x as int, global_y as int, global_z as int));
        }
        // Death edge: a counter strictly above the last known value.
        let fires = match (input.death_count, self.last_death_count) {
            (Some(c), Some(l)) => c > l,
            _ => false,
        };
        if fires {
            let d = DeathEvent {
                global_x,
                global_y,
                global_z,
                map_id_str: map_id_str.clone(),
                timestamp_ms,
            };
            let ghost dv = crate::route::death_view(d);
            self.deaths.push(d);
            proof {
                assert(self.deathsv() =~= old(self).deathsv().push(dv));
            }
        }
        if input.death_count.is_some() {
            self.last_death_count = input.death_count;
        }
        // Crossing edges: open on the animation's rising edge, close on a
        // valid tick after it, tolerating invalid ticks in between.
        let is_fog = match input.anim {
            Some(a) => a == FOG_WALL_ANIM_ID,
            None => false,
        };
        let was_fog = match self.last_anim {
            Some(a) => a == FOG_WALL_ANIM_ID,
            None => false,
        };
        let valid = map_id != 0xFFFFFFFF && !(x == 0 && y == 0 && z == 0);
        let mut discovery: Option<(String, String)> = None;
        if is_fog && !was_fog && valid {
            let entry_zone = get_zone_name(map_id);
            let p = PendingFogEvent {
                entry_x: global_x,
                entry_y: global_y,
                entry_z: global_z,
                entry_map_id_str: map_id_str.clone(),
                entry_zone_name: entry_zone,
                entry_timestamp_ms: timestamp_ms,
            };
            self.pending_fog = Some(p);
        } else if self.pending_fog.is_some() && !is_fog && valid {
            let pending = match self.pending_fog.take() {
                Some(p) => p,
                None => {
                    proof {
                        assert(false);
                    }
                    return None;
                },
            };
            let ghost pv = pending_view(pending);
            let exit_zone = get_zone_name(map_id);
            discovery = Some((pending.entry_zone_name.clone(), exit_zone.clone()));
            let f = FogEvent {
                entry_x: pending.entry_x,
                entry_y: pending.entry_y,
                entry_z: pending.entry_z,
                entry_map_id_str: pending.entry_map_id_str,
                entry_zone_name: pending.entry_zone_name,
                exit_x: global_x,
                exit_y: global_y,
                exit_z: global_z,
                exit_map_id_str: map_id_str.clone(),
                exit_zone_name: exit_zone,
                entry_timestamp_ms: pending.entry_timestamp_ms,
                exit_timestamp_ms: timestamp_ms,
            };
            let ghost fv = crate::route::fog_view(f);
            self.fog_traversals.push(f);
            proof {
                assert(self.fogsv() =~= old(self).fogsv().push(fv));
            }
        }
        self.last_anim = input.anim;
        // Item edges: a tracked flag turning true; refresh the snapshot for
        // every successful read.
        let num = input.flag_states.len();
        let ghost pre_items = self.item_events@;
        let ghost pre_flags = self.last_flag_states@;
        let ghost pre_deaths = self.deaths@;
        let ghost pre_fogs = self.fog_traversals@;
        let ghost pre_pending = self.pending_fog;
        let ghost pre_route = self.route@;
        let ghost pre_status = self.status_message;
        let mut k: usize = 0;
        while k < num
            invariant
                0 <= k <= num,
                self.goods_events == old(self).goods_events,
                self.transformer == old(self).transformer,
                self.deaths@ == pre_deaths,
                self.fog_traversals@ == pre_fogs,
                self.pending_fog == pre_pending,
                self.route@ == pre_route,
                self.status_message == pre_status,
                self.last_death_count == (if input.death_count is Some {
                    input.death_count
                } else {
                    old(self).last_death_count
                }),
                self.last_anim == input.anim,
                self.is_recording == old(self).is_recording,
                self.start_ms == old(self).start_ms,
                self.last_record_ms == old(self).last_record_ms,
                self.record_interval_ms == old(self).record_interval_ms,
                self.last_flag_states@.len() == pre_flags.len(),
                num == pre_flags.len(),
                forall|j: int|
                    k <= j < pre_flags.len() ==> self.last_flag_states@[j] == pre_flags[j],
                forall|j: int|
                    0 <= j < k ==> self.last_flag_states@[j] == updated_flags(
                        pre_flags,
                        input.flag_states@,
                    )[j],
                items_view(self.item_events@) =~= items_view(pre_items) + fired_items_upto(
                    old(self).goods_ids(),
                    old(self).goods_map(),
                    pre_flags,
                    input.flag_states@,
                    gv,
                    map_id_str@,
                    timestamp_ms as int,
                    k as int,
                ),
            decreases num - k,
        {
            let cur = input.flag_states[k];
            let last = self.last_flag_states[k];
            let cur_true = match cur {
                Some(b) => b,
                None => false,
            };
            let last_true = match last {
                Some(b) => b,
                None => false,
            };
            let cur_some = match cur {
                Some(_) => true,
                None => false,
            };
            if cur_some && cur_true && !last_true {
                let event_id = {
                    let ids = self.goods_events.event_ids();
                    ids[k]
                };
                let meta: Option<(u32, String)> = match self.goods_events.get(event_id) {
                    Some(info) => Some((info.item_id, info.name.clone())),
                    None => None,
                };
                match meta {
                    Some((item_id, item_name)) => {
                        let e = ItemEvent {
                            event_id,
                            item_id,
                            item_name,
                            global_x,
                            global_y,
                            global_z,
                            map_id_str: map_id_str.clone(),
                            timestamp_ms,
                        };
                        let ghost ev = crate::route::item_view(e);
                        self.item_events.push(e);
                        proof {
                            assert(items_view(self.item_events@) =~= items_view(
                                self.item_events@.drop_last(),
                            ).push(ev));
                        }
                    },
                    None => {},
                }
            }
            if cur_some {
                self.last_flag_states.set(k, cur);
            }
            proof {
                let ids = old(self).goods_ids();
                let goods = old(self).goods_map();
                let fk = fired_items_upto(
                    ids,
                    goods,
                    pre_flags,
                    input.flag_states@,
                    gv,
                    map_id_str@,
                    timestamp_ms as int,
                    k as int,
                );
                let fk1 = fired_items_upto(
                    ids,
                    goods,
                    pre_flags,
                    input.flag_states@,
                    gv,
                    map_id_str@,
                    timestamp_ms as int,
                    k as int + 1,
                );
                if fires_item(pre_flags[k as int], input.flag_states@[k as int])
                    && goods.contains_key(ids[k as int]) {
                    let ev_k = ItemEventV {
                        event_id: ids[k as int],
                        item_id: goods[ids[k as int]].0,
                        item_name: goods[ids[k as int]].1,
                        global_x: gv.0,
                        global_y: gv.1,
                        global_z: gv.2,
                        map_id_str: map_id_str@,
                        timestamp_ms: timestamp_ms as int,
                    };
                    assert(fk1 == fk + seq![ev_k]);
                    assert(items_view(self.item_events@) =~= (items_view(pre_items) + fk).push(
                        ev_k,
                    ));
                    assert(items_view(self.item_events@) =~= items_view(pre_items) + fk1);
                } else {
                    assert(fk1 == fk);
                    assert(items_view(self.item_events@) =~= items_view(pre_items) + fk1);
                }
            }
            k = k + 1;
        }
        // The sample itself, and the clock of the last recorded sample.
        let p = RoutePoint {
            x,
            y,
            z,
            global_x,
            global_y,
            global_z,
            map_id,
            map_id_str,
            timestamp_ms,
            on_torrent,
            cur_anim: input.anim,
            torrent_debug: input.torrent_debug,
        };
        let ghost sample_v = crate::route::point_view(p);
        self.route.push(p);
        self.last_record_ms = input.now_ms;
        proof {
            assert(self.routev() =~= old(self).routev().push(sample_v));
            assert(self.flagsv() =~= updated_flags(old(self).flagsv(), input.flag_states@));
        }
        discovery
    }

    /// The recorded samples.
    pub fn route(&self) -> (r: &Vec<RoutePoint>)
        ensures
            r@ == self.route_raw(),
            points_view(r@) == self.routev(),
    {
        &self.route
    }

    /// The recorded death events.
    pub fn deaths(&self) -> (r: &Vec<DeathEvent>)
        ensures
            r@ == self.deaths_raw(),
            deaths_view(r@) == self.deathsv(),
    {
        &self.deaths
    }

    /// The recorded boundary-crossing events.
    pub fn fog_traversals(&self) -> (r: &Vec<FogEvent>)
        ensures
            r@ == self.fogs_raw(),
            fogs_view(r@) == self.fogsv(),
    {
        &self.fog_traversals
    }

    /// The recorded item events.
    pub fn item_events(&self) -> (r: &Vec<ItemEvent>)
        ensures
            r@ == self.items_raw(),
            items_view(r@) == self.itemsv(),
    {
        &self.item_events
    }

    /// Whether a session is being recorded.
    pub fn is_recording(&self) -> (r: bool)
        ensures
            r == self.recording(),
    {
        self.is_recording
    }

    /// Whether a crossing is open.
    pub fn has_pending_crossing(&self) -> (r: bool)
        ensures
            r == (self.pendingv() is Some),
    {
        self.pending_fog.is_some()
    }

    /// The configured sampling interval, in milliseconds.
    pub fn record_interval_ms(&self) -> (r: u64)
        ensures
            r == self.interval(),
    {
        self.record_interval_ms
    }

    /// How many event flags are tracked: the length every tick's flag
    /// reading must have.
    pub fn tracked_flag_count(&self) -> (r: usize)
        requires
            self.wf(),
        ensures
            r == self.goods_ids().len(),
    {
        let ids = self.goods_events.event_ids();
        ids.len()
    }

    /// Render the session as the export JSON document; fails when there
    /// are no samples.
    pub fn save_route(&self, recorded_at: &str) -> (r: Result<String, String>)
        ensures
            match r {
                Ok(s) => self.route_raw().len() > 0 && s@ == route_export_json_seq(
                    self.route_raw(),
                    self.deaths_raw(),
                    self.fogs_raw(),
                    self.items_raw(),
                    recorded_at@,
                    self.interval(),
                ),
                Err(msg) => self.route_raw().len() == 0 && msg@ == "No route data to save"@,
            },
    {
        render_route_json(
            &self.route,
            &self.deaths,
            &self.fog_traversals,
            &self.item_events,
            recorded_at,
            self.record_interval_ms,
        )
    }

    /// Set a status message, shown from now for a fixed while.
    pub fn set_status(&mut self, message: String, now_ms: u64)
        requires
            old(self).wf(),
        ensures
            final(self).wf(),
            final(self).statusv() == Some((message@, now_ms as int)),
            final(self).routev() == old(self).routev(),
            final(self).deathsv() == old(self).deathsv(),
            final(self).fogsv() == old(self).fogsv(),
            final(self).itemsv() == old(self).itemsv(),
            final(self).pendingv() == old(self).pendingv(),
            final(self).recording() == old(self).recording(),
            final(self).startv() == old(self).startv(),
            final(self).last_record() == old(self).last_record(),
            final(self).last_death() == old(self).last_death(),
            final(self).last_animv() == old(self).last_animv(),
            final(self).flagsv() == old(self).flagsv(),
            final(self).interval() == old(self).interval(),
            final(self).anchors() == old(self).anchors(),
            final(self).goods_map() == old(self).goods_map(),
            final(self).goods_ids() == old(self).goods_ids(),
    {
        self.status_message = Some((message, now_ms));
    }

    /// The status message, while it is still fresh.
    pub fn get_status(&self, now_ms: u64) -> (r: Option<&str>)
        ensures
            match r {
                Some(s) => self.statusv() matches Some(p) && p.1 <= now_ms && now_ms - p.1
                    < STATUS_VISIBLE_MS && s@ == p.0,
                None => !(self.statusv() matches Some(p) && p.1 <= now_ms && now_ms - p.1
                    < STATUS_VISIBLE_MS),
            },
    {
        match &self.status_message {
            Some(p) => {
                if now_ms >= p.1 && now_ms - p.1 < STATUS_VISIBLE_MS {
                    Some(p.0.as_str())
                } else {
                    None
                }
            },
            None => None,
        }
    }

    /// The current position, local and global, from one read of the
    /// position source: the local pose, its global conversion (the local
    /// pose verbatim when the tile is unknown), and the tile.
    pub fn get_current_position(&self, pose: Option<(i64, i64, i64)>, map_id: Option<u32>) -> (r:
        Option<(i64, i64, i64, i64, i64, i64, u32)>)
        requires
            self.wf(),
            pose matches Some(p) ==> -COORD_LIMIT <= p.0 <= COORD_LIMIT && -COORD_LIMIT <= p.1
                <= COORD_LIMIT && -COORD_LIMIT <= p.2 <= COORD_LIMIT,
        ensures
            match r {
                Some(t) => pose matches Some(p) && map_id matches Some(m) && t.0 == p.0 && t.1
                    == p.1 && t.2 == p.2 && t.6 == m && (t.3 as int, t.4 as int, t.5 as int)
                    == (match convert_spec(self.anchors(), m, p.0 as int, p.1 as int, p.2 as int) {
                    Some(g) => g,
                    None => (p.0 as int, p.1 as int, p.2 as int),
                }),
                None => pose is None || map_id is None,
            },
    {
        let (x, y, z) = match pose {
            Some(p) => p,
            None => {
                return None;
            },
        };
        let m = match map_id {
            Some(m) => m,
            None => {
                return None;
            },
        };
        let (gx, gy, gz) = match self.transformer.local_to_world_first(m, x, y, z) {
            Ok(g) => g,
            Err(_) => (x, y, z),
        };
        Some((x, y, z, gx, gy, gz, m))
    }
}

} // verus!
