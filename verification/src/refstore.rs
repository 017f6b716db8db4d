use vstd::prelude::*;
use crate::events::{EventBody, TimelineEvent};
use crate::strutil::str_eq;

verus! {

/// One authoritative ref: a ref name and the object id it points at.
pub struct RefRecord {
    pub name: String,
    pub object_id: String,
}

/// The mathematical shadow of a `RefRecord`.
pub ghost struct RefRec {
    pub name: Seq<char>,
    pub object_id: Seq<char>,
}

impl View for RefRecord {
    type V = RefRec;

    open spec fn view(&self) -> RefRec {
        RefRec { name: self.name@, object_id: self.object_id@ }
    }
}

pub open spec fn rec_views(rs: Seq<RefRecord>) -> Seq<RefRec> {
    rs.map_values(|r: RefRecord| r@)
}

/// A well-formed ref event: a state event whose body decoded as a ref update.
pub open spec fn is_ref_event(e: TimelineEvent) -> bool {
    e.state_key is Some && e.body is RefUpdate
}

pub open spec fn ref_event_name(e: TimelineEvent) -> Seq<char> {
    match e.state_key {
        Some(k) => k@,
        None => Seq::empty(),
    }
}

pub open spec fn ref_event_sha(e: TimelineEvent) -> Seq<char> {
    match e.body {
        EventBody::RefUpdate { sha } => sha@,
        _ => Seq::empty(),
    }
}

pub open spec fn model_contains_name(rs: Seq<RefRec>, n: Seq<char>) -> bool {
    exists|i: int| 0 <= i < rs.len() && rs[i].name == n
}

pub open spec fn names_distinct(rs: Seq<RefRec>) -> bool {
    forall|i: int, j: int| 0 <= i < j < rs.len() ==> rs[i].name != rs[j].name
}

/// The mapping a record sequence denotes (later records would win, but the
/// scans below only ever build sequences with distinct names).
pub open spec fn map_of(rs: Seq<RefRec>) -> Map<Seq<char>, Seq<char>>
    decreases rs.len(),
{
    if rs.len() == 0 {
        Map::empty()
    } else {
        map_of(rs.drop_last()).insert(rs.last().name, rs.last().object_id)
    }
}

/// The authoritative ref table of a timeline: every well-formed ref event
/// inserts its name, each one superseding any older value for that name.
/// The timeline is in arrival order, oldest first; malformed events are
/// skipped.
pub open spec fn resolved_map(events: Seq<TimelineEvent>) -> Map<Seq<char>, Seq<char>>
    decreases events.len(),
{
    if events.len() == 0 {
        Map::empty()
    } else {
        let rest = resolved_map(events.drop_last());
        let e = events.last();
        if is_ref_event(e) {
            rest.insert(ref_event_name(e), ref_event_sha(e))
        } else {
            rest
        }
    }
}

/// The reverse scan: walk the timeline newest first, keeping the first
/// record seen for each name on top of the accumulated records.
pub open spec fn scan_refs(events: Seq<TimelineEvent>, acc: Seq<RefRec>) -> Seq<RefRec>
    decreases events.len(),
{
    if events.len() == 0 {
        acc
    } else {
        let e = events.last();
        let acc2 = if is_ref_event(e) && !model_contains_name(acc, ref_event_name(e)) {
            acc.push(RefRec { name: ref_event_name(e), object_id: ref_event_sha(e) })
        } else {
            acc
        };
        scan_refs(events.drop_last(), acc2)
    }
}

/// A name stands in `map_of(rs)` exactly when some record carries it.
pub proof fn lemma_map_of_domain(rs: Seq<RefRec>)
    ensures
        forall|n: Seq<char>| #[trigger] map_of(rs).contains_key(n) <==> model_contains_name(rs, n),
    decreases rs.len(),
{
    if rs.len() > 0 {
        lemma_map_of_domain(rs.drop_last());
        assert forall|n: Seq<char>| #[trigger] map_of(rs).contains_key(n)
            implies model_contains_name(rs, n) by {
            if n == rs.last().name {
                assert(rs[rs.len() - 1].name == n);
            } else {
                assert(map_of(rs.drop_last()).contains_key(n));
                assert(model_contains_name(rs.drop_last(), n));
                let i = choose|i: int| 0 <= i < rs.drop_last().len() && rs.drop_last()[i].name == n;
                assert(rs.drop_last()[i] == rs[i]);
                assert(rs[i].name == n);
            }
        }
        assert forall|n: Seq<char>| model_contains_name(rs, n)
            implies #[trigger] map_of(rs).contains_key(n) by {
            let i = choose|i: int| 0 <= i < rs.len() && rs[i].name == n;
            if i < rs.len() - 1 {
                assert(rs.drop_last()[i] == rs[i]);
                assert(model_contains_name(rs.drop_last(), n));
                assert(map_of(rs.drop_last()).contains_key(n));
            } else {
                assert(n == rs.last().name);
            }
        }
    }
}

/// The reverse scan with first-seen-wins realizes last-writer-wins: the
/// resulting records carry distinct names and denote the timeline's
/// resolved mapping, overridden by whatever the accumulator already held.
pub proof fn lemma_scan_refs_resolves(events: Seq<TimelineEvent>, acc: Seq<RefRec>)
    requires
        names_distinct(acc),
    ensures
        names_distinct(scan_refs(events, acc)),
        map_of(scan_refs(events, acc)) == resolved_map(events).union_prefer_right(map_of(acc)),
    decreases events.len(),
{
    lemma_map_of_domain(acc);
    if events.len() == 0 {
        assert(resolved_map(events).union_prefer_right(map_of(acc)) =~= map_of(acc));
    } else {
        let e = events.last();
        let init = events.drop_last();
        let n = ref_event_name(e);
        let sha = ref_event_sha(e);
        if is_ref_event(e) && !model_contains_name(acc, n) {
            let acc2 = acc.push(RefRec { name: n, object_id: sha });
            assert(names_distinct(acc2)) by {
                assert forall|i: int, j: int| 0 <= i < j < acc2.len()
                    implies acc2[i].name != acc2[j].name by {
                    if j == acc2.len() - 1 {
                        assert(!(acc[i].name == n));
                    }
                }
            }
            lemma_scan_refs_resolves(init, acc2);
            assert(acc2.drop_last() =~= acc);
            assert(map_of(acc2) == map_of(acc).insert(n, sha));
            assert(resolved_map(init).union_prefer_right(map_of(acc).insert(n, sha))
                =~= resolved_map(init).insert(n, sha).union_prefer_right(map_of(acc)));
            assert(resolved_map(events) == resolved_map(init).insert(n, sha));
        } else if is_ref_event(e) {
            lemma_scan_refs_resolves(init, acc);
            assert(map_of(acc).contains_key(n));
            assert(resolved_map(init).union_prefer_right(map_of(acc))
                =~= resolved_map(init).insert(n, sha).union_prefer_right(map_of(acc)));
        } else {
            lemma_scan_refs_resolves(init, acc);
        }
    }
}

/// Law: for every timeline, the reverse scan from an empty table yields one
/// record per distinct name, and the table it denotes is the last-writer-wins
/// resolution of the timeline, however the events were batched in.
pub proof fn lemma_scan_from_empty(events: Seq<TimelineEvent>)
    ensures
        names_distinct(scan_refs(events, Seq::empty())),
        map_of(scan_refs(events, Seq::empty())) == resolved_map(events),
{
    lemma_scan_refs_resolves(events, Seq::empty());
    assert(map_of(Seq::<RefRec>::empty()) =~= Map::<Seq<char>, Seq<char>>::empty());
    assert(resolved_map(events).union_prefer_right(Map::empty()) =~= resolved_map(events));
}

/// The newest well-formed ref event for a name, walking from the end.
pub open spec fn last_write(events: Seq<TimelineEvent>, n: Seq<char>) -> Option<Seq<char>>
    decreases events.len(),
{
    if events.len() == 0 {
        None
    } else if is_ref_event(events.last()) && ref_event_name(events.last()) == n {
        Some(ref_event_sha(events.last()))
    } else {
        last_write(events.drop_last(), n)
    }
}

/// Law: a name resolves exactly when some well-formed event wrote it, and it
/// resolves to the value of the temporally last such event.
pub proof fn lemma_last_writer_wins(events: Seq<TimelineEvent>, n: Seq<char>)
    ensures
        resolved_map(events).contains_key(n) <==> last_write(events, n) is Some,
        last_write(events, n) matches Some(sha) ==> resolved_map(events)[n] == sha,
    decreases events.len(),
{
    if events.len() > 0 {
        lemma_last_writer_wins(events.drop_last(), n);
    }
}

/// Law: resolution is insensitive to how events were batched into the
/// timeline; resolving a concatenation resolves each part, the later part
/// winning on shared names.
pub proof fn lemma_resolve_batches(a: Seq<TimelineEvent>, b: Seq<TimelineEvent>)
    ensures
        resolved_map(a + b) == resolved_map(a).union_prefer_right(resolved_map(b)),
    decreases b.len(),
{
    if b.len() == 0 {
        assert(a + b =~= a);
        assert(resolved_map(a).union_prefer_right(Map::empty()) =~= resolved_map(a));
    } else {
        let e = b.last();
        let binit = b.drop_last();
        lemma_resolve_batches(a, binit);
        assert((a + b).drop_last() =~= a + binit);
        assert((a + b).last() == e);
        if is_ref_event(e) {
            assert(resolved_map(a).union_prefer_right(
                resolved_map(binit).insert(ref_event_name(e), ref_event_sha(e)))
                =~= resolved_map(a).union_prefer_right(resolved_map(binit))
                    .insert(ref_event_name(e), ref_event_sha(e)));
        }
    }
}

/// Law: a freshly appended well-formed ref event is what its name resolves
/// to immediately afterwards.
pub proof fn lemma_push_then_list(events: Seq<TimelineEvent>, e: TimelineEvent)
    requires
        is_ref_event(e),
    ensures
        resolved_map(events.push(e)).contains_key(ref_event_name(e)),
        resolved_map(events.push(e))[ref_event_name(e)] == ref_event_sha(e),
{
    assert(events.push(e).drop_last() =~= events);
    assert(events.push(e).last() == e);
}

/// Law: appending a malformed or non-ref event leaves resolution untouched;
/// one bad body never hides the well-formed events around it.
pub proof fn lemma_malformed_skipped(events: Seq<TimelineEvent>, e: TimelineEvent)
    requires
        !is_ref_event(e),
    ensures
        resolved_map(events.push(e)) == resolved_map(events),
{
    assert(events.push(e).drop_last() =~= events);
    assert(events.push(e).last() == e);
}

/// Law: resolution from an empty table yields exactly one record per
/// distinct name; a name is present exactly when some well-formed event
/// wrote it, and its record carries the value of the temporally last such
/// event, however the events were batched into the timeline.
pub proof fn lemma_resolution_law(events: Seq<TimelineEvent>, n: Seq<char>)
    ensures
        names_distinct(scan_refs(events, Seq::empty())),
        model_contains_name(scan_refs(events, Seq::empty()), n) <==> last_write(events, n)
            is Some,
        last_write(events, n) matches Some(sha) ==> map_of(scan_refs(events, Seq::empty()))[n]
            == sha,
{
    lemma_scan_from_empty(events);
    lemma_map_of_domain(scan_refs(events, Seq::empty()));
    lemma_last_writer_wins(events, n);
}

/// True when some record already carries `name`.
pub fn contains_name(records: &Vec<RefRecord>, name: &str) -> (r: bool)
    ensures
        r == model_contains_name(rec_views(records@), name@),
{
    let n = records.len();
    let mut i: usize = 0;
    while i < n
        invariant
            n == records@.len(),
            i <= n,
            forall|j: int| 0 <= j < i ==> rec_views(records@)[j].name != name@,
        decreases n - i,
    {
        if str_eq(records[i].name.as_str(), name) {
            assert(rec_views(records@)[i as int].name == name@);
            return true;
        }
        i += 1;
    }
    false
}

/// Derives the authoritative ref table from a timeline in arrival order:
/// iterate newest first, keep the first value seen per name.  The result has
/// one record per distinct name and denotes exactly the last-writer-wins
/// resolution of the timeline; malformed events are skipped, not fatal.
pub fn resolve(events: &Vec<TimelineEvent>) -> (r: Vec<RefRecord>)
    ensures
        rec_views(r@) == scan_refs(events@, Seq::empty()),
        names_distinct(rec_views(r@)),
        map_of(rec_views(r@)) == resolved_map(events@),
{
    let mut records: Vec<RefRecord> = Vec::new();
    let mut i: usize = events.len();
    proof {
        assert(events@.take(i as int) =~= events@);
        assert(rec_views(records@) =~= Seq::<RefRec>::empty());
    }
    while i > 0
        invariant
            i <= events@.len(),
            scan_refs(events@.take(i as int), rec_views(records@))
                == scan_refs(events@, Seq::empty()),
        decreases i,
    {
        i -= 1;
        let ghost acc_old = rec_views(records@);
        let ghost taken = events@.take(i as int + 1);
        let e = &events[i];
        match (&e.state_key, &e.body) {
            (Some(name), EventBody::RefUpdate { sha }) => {
                if !contains_name(&records, name.as_str()) {
                    records.push(RefRecord { name: name.clone(), object_id: sha.clone() });
                    proof {
                        assert(rec_views(records@) =~= acc_old.push(
                            RefRec { name: ref_event_name(events@[i as int]),
                                     object_id: ref_event_sha(events@[i as int]) }));
                    }
                }
            },
            _ => {},
        }
        proof {
            assert(taken.drop_last() =~= events@.take(i as int));
            assert(taken.last() == events@[i as int]);
            assert(scan_refs(taken, acc_old)
                == scan_refs(events@.take(i as int), rec_views(records@)));
        }
    }
    proof {
        assert(events@.take(0) =~= Seq::<TimelineEvent>::empty());
        lemma_scan_from_empty(events@);
    }
    records
}

} // verus!
