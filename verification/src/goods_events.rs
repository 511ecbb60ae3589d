//! Item metadata keyed by event flag id, loaded from a tab-separated
//! table: which flag ids to watch, and the item id and name behind each.

use vstd::prelude::*;
use vstd::map::*;
use vstd::slice::SliceAdditionalExecFns;
use vstd::string::StrSliceExecFns;
use vstd::string::StringExecFns;
use crate::numtext::parse_u32_spec;
use crate::numtext::parse_u32;
use crate::strtext::split_char;
use crate::strtext::split_seq;
use crate::strtext::starts_with;
use crate::strtext::str_eq;
use crate::strtext::trim_seq;
use crate::strtext::trim;

verus! {

/// Information about an item event.
#[derive(Clone, Debug)]
pub struct GoodsEventInfo {
    /// The event flag id that marks the acquisition.
    pub event_id: u32,
    /// The item id behind the flag.
    pub item_id: u32,
    /// The item's display name.
    pub name: String,
}

/// Loader and lookup for goods events.
pub struct GoodsEventsLoader {
    /// The entries, in load order, one per event id.
    events: Vec<GoodsEventInfo>,
    /// All event ids, strictly ascending.
    event_ids: Vec<u32>,
}

/// First entry with the given event id, scanning from the front.
pub open spec fn seq_find(events: Seq<GoodsEventInfo>, id: u32) -> Option<GoodsEventInfo>
    decreases events.len(),
{
    if events.len() == 0 {
        None
    } else if events[0].event_id == id {
        Some(events[0])
    } else {
        seq_find(events.drop_first(), id)
    }
}

/// Meaning of one table row: after trimming, at least three tab-cut fields
/// of which the first two are numbers, and a name that is not the null
/// marker.
pub open spec fn row_goods_spec(line: Seq<char>) -> Option<(u32, u32, Seq<char>)> {
    let t = trim_seq(line);
    if t.len() == 0 {
        None
    } else {
        let ps = split_seq(t, '\t');
        if ps.len() < 3 {
            None
        } else {
            let id = parse_u32_spec(ps[0]);
            let item = parse_u32_spec(ps[1]);
            if id is Some && item is Some && ps[2] != "%null%"@ {
                Some((id.unwrap(), item.unwrap(), ps[2]))
            } else {
                None
            }
        }
    }
}

/// Whether a line is the header: the first line, beginning with `EventID`.
pub open spec fn is_header(line: Seq<char>) -> bool {
    line.len() >= "EventID"@.len() && line.take("EventID"@.len() as int) == "EventID"@
}

/// The mapping read from the first `n` lines: later rows replace earlier
/// ones with the same event id; bad rows change nothing.
pub open spec fn goods_map_prefix(lines: Seq<Seq<char>>, n: int) -> Map<u32, (u32, Seq<char>)>
    decreases n,
{
    if n <= 0 {
        Map::empty()
    } else {
        let m = goods_map_prefix(lines, n - 1);
        if n - 1 == 0 && is_header(lines[0]) {
            m
        } else {
            match row_goods_spec(lines[n - 1]) {
                Some(row) => m.insert(row.0, (row.1, row.2)),
                None => m,
            }
        }
    }
}

/// The mapping read from a whole table.
pub open spec fn goods_map_of(lines: Seq<Seq<char>>) -> Map<u32, (u32, Seq<char>)> {
    goods_map_prefix(lines, lines.len() as int)
}

/// Appending an entry with a fresh id leaves earlier searches alone and
/// makes the fresh id found.
proof fn lemma_seq_find_push(events: Seq<GoodsEventInfo>, e: GoodsEventInfo, id: u32)
    ensures
        seq_find(events, id) is Some ==> seq_find(events.push(e), id) == seq_find(events, id),
        seq_find(events, id) is None && e.event_id == id ==> seq_find(events.push(e), id)
            == Some(e),
        seq_find(events, id) is None && e.event_id != id ==> seq_find(events.push(e), id)
            is None,
    decreases events.len(),
{
    if events.len() == 0 {
        assert(events.push(e)[0] == e);
        assert(events.push(e).drop_first() =~= Seq::<GoodsEventInfo>::empty());
        if e.event_id != id {
            assert(seq_find(events.push(e).drop_first(), id) is None);
        }
    } else {
        assert(events.push(e)[0] == events[0]);
        lemma_seq_find_push(events.drop_first(), e, id);
        assert(events.push(e).drop_first() =~= events.drop_first().push(e));
        assert(seq_find(events.push(e), id) == if events.push(e)[0].event_id == id {
            Some(events.push(e)[0])
        } else {
            seq_find(events.push(e).drop_first(), id)
        });
    }
}

/// Replacing the entry at the first index holding `id` changes the search
/// for `id` to the new entry and leaves other ids alone.
proof fn lemma_seq_find_update(
    events: Seq<GoodsEventInfo>,
    j: int,
    e: GoodsEventInfo,
    id: u32,
)
    requires
        0 <= j < events.len(),
        events[j].event_id == e.event_id,
        forall|i: int| 0 <= i < j ==> (#[trigger] events[i]).event_id != e.event_id,
    ensures
        id == e.event_id ==> seq_find(events.update(j, e), id) == Some(e),
        id != e.event_id ==> seq_find(events.update(j, e), id) == seq_find(events, id),
    decreases events.len(),
{
    let u = events.update(j, e);
    if j == 0 {
        assert(u[0] == e);
        if id != e.event_id {
            assert(u.drop_first() =~= events.drop_first());
        }
    } else {
        assert(u[0] == events[0]);
        assert(events[0].event_id != e.event_id);
        assert(u.drop_first() =~= events.drop_first().update(j - 1, e));
        assert(forall|i: int|
            0 <= i < j - 1 ==> (#[trigger] events.drop_first()[i]) == events[i + 1]);
        lemma_seq_find_update(events.drop_first(), j - 1, e, id);
    }
}

impl GoodsEventsLoader {
    /// The entries, in load order.
    pub closed spec fn events_seq(self) -> Seq<GoodsEventInfo> {
        self.events@
    }

    /// The event ids, strictly ascending.
    pub closed spec fn ids_seq(self) -> Seq<u32> {
        self.event_ids@
    }

    /// The loader as a mapping from event id to item id and name.
    pub open spec fn as_map(self) -> Map<u32, (u32, Seq<char>)> {
        Map::new(
            |id: u32| seq_find(self.events_seq(), id) is Some,
            |id: u32| (seq_find(self.events_seq(), id).unwrap().item_id, seq_find(
                self.events_seq(),
                id,
            ).unwrap().name@),
        )
    }

    /// Well-formed: one entry per event id; the id list is strictly
    /// ascending and holds exactly the entries' ids.
    pub closed spec fn wf(self) -> bool {
        (forall|i: int, j: int|
            0 <= i < j < self.events@.len() ==> (#[trigger] self.events@[i]).event_id != (
            #[trigger] self.events@[j]).event_id) && (forall|i: int, j: int|
            0 <= i < j < self.event_ids@.len() ==> self.event_ids@[i] < self.event_ids@[j])
            && (forall|k: int|
            0 <= k < self.event_ids@.len() ==> seq_find(
                self.events@,
                #[trigger] self.event_ids@[k],
            ) is Some) && (forall|i: int|
            0 <= i < self.events@.len() ==> self.event_ids@.contains(
                (#[trigger] self.events@[i]).event_id,
            ))
    }

    /// Create an empty loader: nothing to track.
    pub fn empty() -> (r: Self)
        ensures
            r.wf(),
            r.as_map() == Map::<u32, (u32, Seq<char>)>::empty(),
            r.ids_seq() == Seq::<u32>::empty(),
    {
        let r = Self { events: Vec::new(), event_ids: Vec::new() };
        proof {
            assert(r.events@ =~= Seq::<GoodsEventInfo>::empty());
            assert(r.event_ids@ =~= Seq::<u32>::empty());
            assert(r.as_map() =~= Map::<u32, (u32, Seq<char>)>::empty());
        }
        r
    }

    /// Build the table from the lines of the tab-separated resource. The
    /// first line may be a header; rows that do not parse are skipped.
    #[verifier::loop_isolation(false)]
    pub fn from_rows(rows: &Vec<String>) -> (r: Self)
        ensures
            r.wf(),
            r.as_map() == goods_map_of(rows@.map_values(|t: String| t@)),
    {
        let mut out = Self::empty();
        let n = rows.len();
        let mut i: usize = 0;
        proof {
            assert(out.as_map() =~= goods_map_prefix(rows@.map_values(|t: String| t@), 0));
        }
        while i < n
            invariant
                0 <= i <= n,
                n == rows@.len(),
                out.wf(),
                out.as_map() =~= goods_map_prefix(rows@.map_values(|t: String| t@), i as int),
            decreases n - i,
        {
            let ghost lines = rows@.map_values(|t: String| t@);
            let ghost pre_map = out.as_map();
            let line = &rows[i];
            let mut skip = false;
            if i == 0 && starts_with(line.as_str(), "EventID") {
                skip = true;
            }
            if !skip {
                let t = trim(line.as_str());
                let parts = split_char(t, '\t');
                proof {
                    assert(parts@.map_values(|x: String| x@) == split_seq(trim_seq(line@), '\t'));
                    assert(parts@.len() == parts@.map_values(|x: String| x@).len());
                }
                if parts.len() >= 3 && t.unicode_len() > 0 {
                    let id_parsed = parse_u32(parts[0].as_str());
                    let item_parsed = parse_u32(parts[1].as_str());
                    proof {
                        assert(parts@.map_values(|x: String| x@)[0] == parts@[0]@);
                        assert(parts@.map_values(|x: String| x@)[1] == parts@[1]@);
                        assert(parts@.map_values(|x: String| x@)[2] == parts@[2]@);
                    }
                    match (id_parsed, item_parsed) {
                        (Some(event_id), Some(item_id)) => {
                            if !str_eq(parts[2].as_str(), "%null%") {
                                let name = parts[2].clone();
                                proof {
                                    assert(name@ == parts@[2]@);
                                }
                                out.upsert(GoodsEventInfo { event_id, item_id, name });
                            }
                        },
                        _ => {},
                    }
                }
            }
            proof {
                assert(lines[i as int] == rows@[i as int]@);
                let stepped = goods_map_prefix(lines, i as int + 1);
                assert(out.as_map() =~= stepped);
            }
            i = i + 1;
        }
        out
    }

    /// Insert an entry, replacing any earlier entry with the same id.
    #[verifier::loop_isolation(false)]
    fn upsert(&mut self, e: GoodsEventInfo)
        requires
            old(self).wf(),
        ensures
            final(self).wf(),
            final(self).as_map() == old(self).as_map().insert(e.event_id, (e.item_id, e.name@)),
    {
        let ghost olde = self.events@;
        let ghost olds = self.event_ids@;
        let n = self.events.len();
        let mut j: usize = 0;
        while j < n
            invariant
                0 <= j <= n,
                n == self.events@.len(),
                self.events@ == olde,
                self.event_ids@ == olds,
                forall|i: int|
                    0 <= i < j ==> (#[trigger] self.events@[i]).event_id != e.event_id,
            decreases n - j,
        {
            if self.events[j].event_id == e.event_id {
                let ghost eid = e.event_id;
                self.events.set(j, e);
                proof {
                    assert(self.events@ =~= olde.update(j as int, e));
                    assert forall|id: u32| true implies #[trigger] seq_find(self.events@, id)
                        == (if id == eid {
                        Some(e)
                    } else {
                        seq_find(olde, id)
                    }) by {
                        lemma_seq_find_update(olde, j as int, e, id);
                    }
                    assert(self.as_map() =~= old(self).as_map().insert(
                        e.event_id,
                        (e.item_id, e.name@),
                    ));
                    assert forall|i: int| 0 <= i < self.events@.len() implies olds.contains(
                        (#[trigger] self.events@[i]).event_id,
                    ) by {
                        if i == j {
                            assert(olde[i].event_id == e.event_id);
                            assert(olds.contains(olde[i].event_id));
                        } else {
                            assert(self.events@[i] == olde[i]);
                        }
                    }
                    assert forall|k: int| 0 <= k < olds.len() implies seq_find(
                        self.events@,
                        #[trigger] olds[k],
                    ) is Some by {
                        lemma_seq_find_update(olde, j as int, e, olds[k]);
                    }
                }
                return ;
            }
            j = j + 1;
        }
        // Fresh id: append the entry and place the id in ascending order.
        let ghost eid = e.event_id;
        let id = e.event_id;
        self.events.push(e);
        proof {
            assert forall|id2: u32| true implies #[trigger] seq_find(self.events@, id2) == (
            if id2 == eid {
                seq_find(self.events@, id2)
            } else {
                seq_find(olde, id2)
            }) by {
                lemma_seq_find_push(olde, self.events@[olde.len() as int], id2);
                lemma_seq_find_front_none(olde, id2);
            }
            lemma_seq_find_front_none(olde, eid);
            lemma_seq_find_push(olde, self.events@[olde.len() as int], eid);
            assert(seq_find(self.events@, eid) is Some);
        }
        let m = self.event_ids.len();
        let mut k: usize = 0;
        while k < m && self.event_ids[k] < id
            invariant
                0 <= k <= m,
                m == self.event_ids@.len(),
                self.event_ids@ == olds,
                forall|i: int| 0 <= i < k ==> self.event_ids@[i] < id,
            decreases m - k,
        {
            k = k + 1;
        }
        proof {
            if k < m && olds[k as int] == id {
                assert(seq_find(olde, olds[k as int]) is Some);
                lemma_seq_find_front_none(olde, id);
                assert(false);
            }
        }
        self.event_ids.insert(k, id);
        proof {
            let news = self.event_ids@;
            let newe = self.events@;
            assert(newe =~= olde.push(self.events@[olde.len() as int]));
            assert forall|i: int, j2: int| 0 <= i < j2 < news.len() implies news[i] < news[j2]
                by {
                if i < k && j2 < k {
                    assert(news[i] == olds[i] && news[j2] == olds[j2]);
                } else if i < k && j2 == k {
                    assert(news[i] == olds[i] && news[j2] == id);
                } else if i < k && j2 > k {
                    assert(news[i] == olds[i] && news[j2] == olds[j2 - 1]);
                    assert(olds[i] < id);
                    if k < olds.len() {
                        assert(olds[k as int] >= id);
                    }
                } else if i == k {
                    assert(news[i] == id && news[j2] == olds[j2 - 1]);
                    assert(olds[j2 - 1] >= id);
                    assert(olds[j2 - 1] != id);
                } else {
                    assert(news[i] == olds[i - 1] && news[j2] == olds[j2 - 1]);
                }
            }
            assert forall|kk: int| 0 <= kk < news.len() implies seq_find(
                newe,
                #[trigger] news[kk],
            ) is Some by {
                if kk == k {
                    assert(news[kk] == eid);
                } else {
                    let prev: int = if kk < k {
                        kk
                    } else {
                        kk - 1
                    };
                    assert(news[kk] == olds[prev]);
                    assert(seq_find(olde, olds[prev]) is Some);
                }
            }
            assert forall|i: int| 0 <= i < newe.len() implies news.contains(
                (#[trigger] newe[i]).event_id,
            ) by {
                if i < olde.len() {
                    assert(newe[i] == olde[i]);
                    assert(olds.contains(olde[i].event_id));
                    let w = choose|w: int| 0 <= w < olds.len() && olds[w] == olde[i].event_id;
                    let nw: int = if w < k {
                        w
                    } else {
                        w + 1
                    };
                    assert(news[nw] == olds[w]);
                } else {
                    assert(newe[i].event_id == eid);
                    assert(news[k as int] == eid);
                }
            }
            assert(self.as_map() =~= old(self).as_map().insert(eid, (
                newe[olde.len() as int].item_id,
                newe[olde.len() as int].name@,
            )));
        }
    }

    /// Get information about an event by its id.
    #[verifier::loop_isolation(false)]
    pub fn get(&self, event_id: u32) -> (r: Option<&GoodsEventInfo>)
        ensures
            match r {
                Some(info) => self.as_map().contains_key(event_id) && info.event_id == event_id
                    && self.as_map()[event_id] == (info.item_id, info.name@),
                None => !self.as_map().contains_key(event_id),
            },
    {
        let n = self.events.len();
        let mut i: usize = 0;
        while i < n
            invariant
                0 <= i <= n,
                n == self.events@.len(),
                forall|j: int|
                    0 <= j < i ==> (#[trigger] self.events@[j]).event_id != event_id,
            decreases n - i,
        {
            if self.events[i].event_id == event_id {
                proof {
                    lemma_seq_find_front_some(self.events@, event_id, i as int);
                }
                return Some(&self.events[i]);
            }
            i = i + 1;
        }
        proof {
            lemma_seq_find_front_none(self.events@, event_id);
        }
        None
    }

    /// All event ids to monitor, strictly ascending.
    pub fn event_ids(&self) -> (r: &[u32])
        requires
            self.wf(),
        ensures
            r@ == self.ids_seq(),
            forall|i: int, j: int| 0 <= i < j < r@.len() ==> r@[i] < r@[j],
            forall|k: int|
                0 <= k < r@.len() ==> self.as_map().contains_key(#[trigger] r@[k]),
    {
        self.event_ids.as_slice()
    }

    /// The number of events loaded.
    pub fn len(&self) -> (r: usize)
        ensures
            r == self.events_seq().len(),
    {
        self.events.len()
    }

    /// Whether no events are loaded.
    pub fn is_empty(&self) -> (r: bool)
        ensures
            r == (self.events_seq().len() == 0),
    {
        self.events.is_empty()
    }
}

/// A search that scanned past `pos` without a match and matched at `pos`
/// finds the entry at `pos`.
proof fn lemma_seq_find_front_some(events: Seq<GoodsEventInfo>, id: u32, pos: int)
    requires
        0 <= pos < events.len(),
        events[pos].event_id == id,
        forall|j: int| 0 <= j < pos ==> (#[trigger] events[j]).event_id != id,
    ensures
        seq_find(events, id) == Some(events[pos]),
    decreases events.len(),
{
    if events[0].event_id != id {
        let t = events.drop_first();
        assert(forall|j: int| 0 <= j < events.len() - 1 ==> t[j] == events[j + 1]);
        lemma_seq_find_front_some(t, id, pos - 1);
    }
}

/// A search over entries none of which hold `id` finds nothing.
proof fn lemma_seq_find_front_none(events: Seq<GoodsEventInfo>, id: u32)
    ensures
        (forall|j: int| 0 <= j < events.len() ==> (#[trigger] events[j]).event_id != id)
            ==> seq_find(events, id) is None,
        seq_find(events, id) is None ==> forall|j: int|
            0 <= j < events.len() ==> (#[trigger] events[j]).event_id != id,
    decreases events.len(),
{
    if events.len() > 0 {
        let t = events.drop_first();
        lemma_seq_find_front_none(t, id);
        if seq_find(events, id) is None {
            assert(events[0].event_id != id);
            assert(seq_find(t, id) is None);
            assert forall|j: int| 0 <= j < events.len() implies (#[trigger] events[j]).event_id
                != id by {
                if j > 0 {
                    assert(events[j] == t[j - 1]);
                }
            }
        }
        if forall|j: int| 0 <= j < events.len() ==> (#[trigger] events[j]).event_id != id {
            assert forall|j: int| 0 <= j < t.len() implies (#[trigger] t[j]).event_id != id by {
                assert(t[j] == events[j + 1]);
            }
            assert(seq_find(t, id) is None);
        }
    }
}

} // verus!
