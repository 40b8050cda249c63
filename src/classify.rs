//! From what the controller and the resolver say to what must be done: the
//! cache rebuilt from a listing, and a change set sorted into creates,
//! updates and deletes.
use vstd::prelude::*;

use crate::cache::RecordCache;
use crate::endpoint::{
    contains_text, endpoint_of, has_target_in, record_for_zones, texts, Changes, Endpoint, EndpointView, Endpoints,
};
use crate::record::{entry_of, key_of, EntryView, HostOverrideRecord, HostOverrideView, KeyView, RecordError};
use crate::text::text_is;

verus! {

/// The views of a sequence of rows.
pub open spec fn row_views(rows: Seq<HostOverrideRecord>) -> Seq<HostOverrideView> {
    rows.map_values(|r: HostOverrideRecord| r@)
}

/// The rows whose domain is one of the zones, in order.
pub open spec fn rows_in_zones(rows: Seq<HostOverrideView>, zones: Seq<Seq<char>>) -> Seq<HostOverrideView>
    decreases rows.len(),
{
    if rows.len() == 0 {
        Seq::empty()
    } else {
        let rest = rows_in_zones(rows.drop_last(), zones);
        if zones.contains(rows.last().domain) {
            rest.push(rows.last())
        } else {
            rest
        }
    }
}

/// The cache that a listing builds from empty, row by row, and the error of
/// the first row that cannot be read, where the building stops.
pub open spec fn listed_records(rows: Seq<HostOverrideView>) -> (Map<KeyView, EntryView>, Option<RecordError>)
    decreases rows.len(),
{
    if rows.len() == 0 {
        (Map::empty(), None)
    } else {
        let (m, err) = listed_records(rows.drop_last());
        if err is Some {
            (m, err)
        } else {
            let r = rows.last();
            match key_of(r) {
                None => (m, Some(RecordError::UnknownRecordType)),
                Some(k) => match entry_of(r) {
                    None => (m, Some(RecordError::UnknownEnabledState)),
                    Some(e) => (m.insert(k, e), None),
                },
            }
        }
    }
}

/// The endpoints that list the enabled rows (flag exactly `1`), in order.
pub open spec fn enabled_endpoints(rows: Seq<HostOverrideView>) -> Seq<EndpointView>
    decreases rows.len(),
{
    if rows.len() == 0 {
        Seq::empty()
    } else {
        let rest = enabled_endpoints(rows.drop_last());
        if rows.last().enabled == "1"@ {
            rest.push(endpoint_of(rows.last()))
        } else {
            rest
        }
    }
}

proof fn lemma_listed_error_stays(views: Seq<HostOverrideView>, zones: Seq<Seq<char>>, n: int)
    requires
        0 <= n <= views.len(),
        listed_records(rows_in_zones(views.take(n), zones)).1 is Some,
    ensures
        listed_records(rows_in_zones(views, zones)) == listed_records(rows_in_zones(views.take(n), zones)),
    decreases views.len(),
{
    if n == views.len() {
        assert(views.take(n) =~= views);
    } else {
        let init = views.drop_last();
        assert(init.take(n) =~= views.take(n));
        lemma_listed_error_stays(init, zones, n);
        let s = rows_in_zones(init, zones);
        if zones.contains(views.last().domain) {
            assert(s.push(views.last()).drop_last() =~= s);
        }
    }
}

/// Rebuilds the cache from a listing of the resolver: it is cleared, then
/// each row in one of the zones is filed. Answers the endpoints of the
/// enabled rows among them, or the error of the first row that cannot be read.
pub fn refresh_records<R: RecordCache>(cache: &mut R, rows: &Vec<HostOverrideRecord>, zones: &Vec<String>) -> (r:
    Result<Endpoints, RecordError>)
    ensures
        ({
            let scoped = rows_in_zones(row_views(rows@), texts(zones@));
            &&& final(cache).records() == listed_records(scoped).0
            &&& match listed_records(scoped).1 {
                Some(e) => r == Err::<Endpoints, RecordError>(e),
                None => r is Ok && r->Ok_0@ == enabled_endpoints(scoped),
            }
        }),
{
    let ghost views = row_views(rows@);
    let ghost z = texts(zones@);
    cache.clear();
    proof {
        assert(rows_in_zones(views.take(0), z) =~= Seq::<HostOverrideView>::empty());
    }
    let mut listed: Vec<Endpoint> = Vec::new();
    let mut i: usize = 0;
    while i < rows.len()
        invariant
            i <= rows@.len(),
            views == row_views(rows@),
            z == texts(zones@),
            listed_records(rows_in_zones(views.take(i as int), z)).1 is None,
            cache.records() == listed_records(rows_in_zones(views.take(i as int), z)).0,
            listed@.map_values(|e: Endpoint| e@) == enabled_endpoints(rows_in_zones(views.take(i as int), z)),
        decreases rows@.len() - i,
    {
        let row = &rows[i];
        let ghost before = rows_in_zones(views.take(i as int), z);
        assert(views.take(i + 1).drop_last() =~= views.take(i as int));
        assert(views.take(i + 1).last() == row@);
        if contains_text(zones, &row.domain) {
            assert(rows_in_zones(views.take(i + 1), z) == before.push(row@));
            assert(before.push(row@).drop_last() =~= before);
            match cache.try_insert_record(row) {
                Ok(_) => {},
                Err(e) => {
                    proof {
                        lemma_listed_error_stays(views, z, i + 1);
                    }
                    return Err(e);
                },
            }
            if text_is(row.enabled.as_str(), "1") {
                listed.push(Endpoint::from_record(row));
            }
            assert(listed@.map_values(|e: Endpoint| e@) =~= enabled_endpoints(before.push(row@)));
        }
        i += 1;
    }
    assert(views.take(rows@.len() as int) =~= views);
    Ok(Endpoints(listed))
}

/// The rows that ask the resolver for the endpoints whose names lie in the
/// zones, in order; the others are dropped.
pub open spec fn rows_for(eps: Seq<EndpointView>, zones: Seq<Seq<char>>) -> Seq<HostOverrideView>
    decreases eps.len(),
{
    if eps.len() == 0 {
        Seq::empty()
    } else {
        let rest = rows_for(eps.drop_last(), zones);
        match record_for_zones(eps.last(), zones) {
            Some(r) => rest.push(r),
            None => rest,
        }
    }
}

/// How the rows wanted created are sorted by what the cache holds: a row
/// whose key is not cached is created; one cached as disabled is updated,
/// to enable it again; one cached as enabled is dropped, as it is there
/// already. Fails on the first row whose type is unknown.
pub open spec fn sort_creates(rows: Seq<HostOverrideView>, records: Map<KeyView, EntryView>) -> Result<
    (Seq<HostOverrideView>, Seq<HostOverrideView>),
    RecordError,
>
    decreases rows.len(),
{
    if rows.len() == 0 {
        Ok((Seq::empty(), Seq::empty()))
    } else {
        match sort_creates(rows.drop_last(), records) {
            Err(e) => Err(e),
            Ok((creates, updates)) => {
                let r = rows.last();
                match key_of(r) {
                    None => Err(RecordError::UnknownRecordType),
                    Some(k) => if !records.contains_key(k) {
                        Ok((creates.push(r), updates))
                    } else if records[k].1 {
                        Ok((creates, updates))
                    } else {
                        Ok((creates, updates.push(r)))
                    },
                }
            },
        }
    }
}

proof fn lemma_sort_error_stays(rows: Seq<HostOverrideView>, records: Map<KeyView, EntryView>, n: int)
    requires
        0 <= n <= rows.len(),
        sort_creates(rows.take(n), records) is Err,
    ensures
        sort_creates(rows, records) == sort_creates(rows.take(n), records),
    decreases rows.len(),
{
    if n == rows.len() {
        assert(rows.take(n) =~= rows);
    } else {
        let init = rows.drop_last();
        assert(init.take(n) =~= rows.take(n));
        lemma_sort_error_stays(init, records, n);
    }
}

/// The rows to create, update and delete for a change set.
#[derive(Debug)]
pub struct Plan {
    pub creates: Vec<HostOverrideRecord>,
    pub updates: Vec<HostOverrideRecord>,
    pub deletes: Vec<HostOverrideRecord>,
}

/// The view of a plan: the rows to create, update and delete.
pub type PlanView = (Seq<HostOverrideView>, Seq<HostOverrideView>, Seq<HostOverrideView>);

impl View for Plan {
    type V = PlanView;

    open spec fn view(&self) -> PlanView {
        (row_views(self.creates@), row_views(self.updates@), row_views(self.deletes@))
    }
}

/// What a change set asks of the resolver, given the zones and the cache:
/// the creates sorted by the cache, then the updates asked for followed by
/// the creates that re-enable a row, and the deletes asked for. Entries
/// outside the zones are dropped.
pub open spec fn classify(
    create: Seq<EndpointView>,
    update_new: Seq<EndpointView>,
    delete: Seq<EndpointView>,
    zones: Seq<Seq<char>>,
    records: Map<KeyView, EntryView>,
) -> Result<PlanView, RecordError> {
    match sort_creates(rows_for(create, zones), records) {
        Err(e) => Err(e),
        Ok((creates, reenabled)) => Ok((creates, rows_for(update_new, zones) + reenabled, rows_for(delete, zones))),
    }
}

/// Whether every endpoint of a list can be turned into a row for the zones.
pub open spec fn all_have_targets(eps: Seq<EndpointView>, zones: Seq<Seq<char>>) -> bool {
    forall|i: int| 0 <= i < eps.len() ==> has_target_in(#[trigger] eps[i], zones)
}

/// The rows for the endpoints that lie in the zones.
fn rows_for_zones(eps: &Endpoints, zones: &Vec<String>) -> (r: Vec<HostOverrideRecord>)
    requires
        all_have_targets(eps@, texts(zones@)),
    ensures
        row_views(r@) == rows_for(eps@, texts(zones@)),
{
    let ghost z = texts(zones@);
    let mut out: Vec<HostOverrideRecord> = Vec::new();
    let mut i: usize = 0;
    while i < eps.0.len()
        invariant
            i <= eps@.len(),
            z == texts(zones@),
            all_have_targets(eps@, z),
            row_views(out@) == rows_for(eps@.take(i as int), z),
        decreases eps@.len() - i,
    {
        let ep = &eps.0[i];
        assert(eps@.take(i + 1).drop_last() =~= eps@.take(i as int));
        assert(eps@.take(i + 1).last() == ep@);
        assert(has_target_in(eps@[i as int], z));
        match ep.get_record_for_zones(zones) {
            Some(row) => {
                out.push(row);
                assert(row_views(out@) =~= rows_for(eps@.take(i as int), z).push(
                    record_for_zones(ep@, z)->Some_0,
                ));
            },
            None => {},
        }
        i += 1;
    }
    assert(eps@.take(eps@.len() as int) =~= eps@);
    out
}

/// Sorts a change set into the rows to create, update and delete, by the
/// zones in scope and what the cache holds. Fails on the first create whose
/// type is unknown.
pub fn classify_changes<R: RecordCache>(cache: &R, changes: &Changes, zones: &Vec<String>) -> (r: Result<
    Plan,
    RecordError,
>)
    requires
        all_have_targets(changes.create@, texts(zones@)),
        all_have_targets(changes.update_new@, texts(zones@)),
        all_have_targets(changes.delete@, texts(zones@)),
    ensures
        match classify(changes.create@, changes.update_new@, changes.delete@, texts(zones@), cache.records()) {
            Err(e) => r == Err::<Plan, RecordError>(e),
            Ok(p) => r is Ok && r->Ok_0@ == p,
        },
{
    let ghost z = texts(zones@);
    let mut updates = rows_for_zones(&changes.update_new, zones);
    let deletes = rows_for_zones(&changes.delete, zones);
    let wanted = rows_for_zones(&changes.create, zones);
    let ghost asked_updates = row_views(updates@);
    let ghost rows = row_views(wanted@);
    let mut creates: Vec<HostOverrideRecord> = Vec::new();
    proof {
        assert(row_views(creates@) =~= Seq::<HostOverrideView>::empty());
        assert(rows.take(0) =~= Seq::<HostOverrideView>::empty());
        assert(asked_updates + Seq::<HostOverrideView>::empty() =~= asked_updates);
    }
    let mut i: usize = 0;
    while i < wanted.len()
        invariant
            i <= wanted@.len(),
            rows == row_views(wanted@),
            rows == rows_for(changes.create@, texts(zones@)),
            asked_updates == rows_for(changes.update_new@, texts(zones@)),
            row_views(deletes@) == rows_for(changes.delete@, texts(zones@)),
            sort_creates(rows.take(i as int), cache.records()) is Ok,
            row_views(creates@) == sort_creates(rows.take(i as int), cache.records())->Ok_0.0,
            row_views(updates@) == asked_updates + sort_creates(rows.take(i as int), cache.records())->Ok_0.1,
        decreases wanted@.len() - i,
    {
        let row = &wanted[i];
        assert(rows.take(i + 1).drop_last() =~= rows.take(i as int));
        assert(rows.take(i + 1).last() == row@);
        let ghost sorted = sort_creates(rows.take(i as int), cache.records())->Ok_0;
        match cache.try_get_record(row) {
            Err(e) => {
                proof {
                    assert(key_of(row@) is None);
                    assert(sort_creates(rows.take(i + 1), cache.records()) is Err);
                    lemma_sort_error_stays(rows, cache.records(), i + 1);
                }
                return Err(e);
            },
            Ok(None) => {
                creates.push(row.clone());
                assert(row_views(creates@) =~= sorted.0.push(row@));
            },
            Ok(Some(entry)) => {
                if !entry.enabled {
                    let ghost previous = updates@;
                    let copy = row.clone();
                    updates.push(copy);
                    assert(updates@ == previous.push(copy));
                    assert(row_views(updates@) =~= row_views(previous).push(row@));
                    assert(row_views(updates@) =~= asked_updates + sorted.1.push(row@));
                }
            },
        }
        i += 1;
    }
    assert(rows.take(wanted@.len() as int) =~= rows);
    Ok(Plan { creates, updates, deletes })
}

proof fn lemma_single_row(ep: EndpointView, zones: Seq<Seq<char>>)
    requires
        record_for_zones(ep, zones) is Some,
    ensures
        rows_for(seq![ep], zones) == seq![record_for_zones(ep, zones)->Some_0],
{
    assert(seq![ep].drop_last() =~= Seq::<EndpointView>::empty());
    assert(seq![ep].last() == ep);
    assert(rows_for(Seq::<EndpointView>::empty(), zones) == Seq::<HostOverrideView>::empty());
    assert(rows_for(seq![ep], zones) == rows_for(Seq::<EndpointView>::empty(), zones).push(
        record_for_zones(ep, zones)->Some_0,
    ));
    assert(Seq::<HostOverrideView>::empty().push(record_for_zones(ep, zones)->Some_0) =~= seq![
        record_for_zones(ep, zones)->Some_0,
    ]);
}

proof fn lemma_sort_single(row: HostOverrideView, records: Map<KeyView, EntryView>)
    requires
        key_of(row) is Some,
    ensures
        sort_creates(seq![row], records) == ({
            let k = key_of(row)->Some_0;
            if !records.contains_key(k) {
                Ok::<(Seq<HostOverrideView>, Seq<HostOverrideView>), RecordError>((seq![row], Seq::empty()))
            } else if records[k].1 {
                Ok((Seq::empty(), Seq::empty()))
            } else {
                Ok((Seq::empty(), seq![row]))
            }
        }),
{
    assert(seq![row].drop_last() =~= Seq::<HostOverrideView>::empty());
    assert(seq![row].last() == row);
    assert(sort_creates(Seq::<HostOverrideView>::empty(), records) == Ok::<
        (Seq<HostOverrideView>, Seq<HostOverrideView>),
        RecordError,
    >((Seq::empty(), Seq::empty())));
    assert(Seq::<HostOverrideView>::empty().push(row) =~= seq![row]);
}

/// A create whose key the cache holds as enabled is already satisfied: it
/// yields no create and no update.
pub proof fn lemma_enabled_create_dropped(ep: EndpointView, zones: Seq<Seq<char>>, records: Map<KeyView, EntryView>)
    requires
        record_for_zones(ep, zones) is Some,
        key_of(record_for_zones(ep, zones)->Some_0) is Some,
        records.contains_key(key_of(record_for_zones(ep, zones)->Some_0)->Some_0),
        records[key_of(record_for_zones(ep, zones)->Some_0)->Some_0].1,
    ensures
        classify(seq![ep], Seq::empty(), Seq::empty(), zones, records) == Ok::<PlanView, RecordError>(
            (Seq::empty(), Seq::empty(), Seq::empty()),
        ),
{
    lemma_single_row(ep, zones);
    lemma_sort_single(record_for_zones(ep, zones)->Some_0, records);
    assert(Seq::<HostOverrideView>::empty() + Seq::<HostOverrideView>::empty() =~= Seq::<HostOverrideView>::empty());
}

/// A create whose key the cache does not hold yields exactly one create, of
/// the row for it, and nothing else.
pub proof fn lemma_new_create_kept(ep: EndpointView, zones: Seq<Seq<char>>, records: Map<KeyView, EntryView>)
    requires
        record_for_zones(ep, zones) is Some,
        key_of(record_for_zones(ep, zones)->Some_0) is Some,
        !records.contains_key(key_of(record_for_zones(ep, zones)->Some_0)->Some_0),
    ensures
        classify(seq![ep], Seq::empty(), Seq::empty(), zones, records) == Ok::<PlanView, RecordError>(
            (seq![record_for_zones(ep, zones)->Some_0], Seq::empty(), Seq::empty()),
        ),
{
    lemma_single_row(ep, zones);
    lemma_sort_single(record_for_zones(ep, zones)->Some_0, records);
    assert(Seq::<HostOverrideView>::empty() + Seq::<HostOverrideView>::empty() =~= Seq::<HostOverrideView>::empty());
}

/// A create whose key the cache holds as disabled yields no create and one
/// update, of the row for it.
pub proof fn lemma_disabled_create_updates(ep: EndpointView, zones: Seq<Seq<char>>, records: Map<KeyView, EntryView>)
    requires
        record_for_zones(ep, zones) is Some,
        key_of(record_for_zones(ep, zones)->Some_0) is Some,
        records.contains_key(key_of(record_for_zones(ep, zones)->Some_0)->Some_0),
        !records[key_of(record_for_zones(ep, zones)->Some_0)->Some_0].1,
    ensures
        classify(seq![ep], Seq::empty(), Seq::empty(), zones, records) == Ok::<PlanView, RecordError>(
            (Seq::empty(), seq![record_for_zones(ep, zones)->Some_0], Seq::empty()),
        ),
{
    lemma_single_row(ep, zones);
    lemma_sort_single(record_for_zones(ep, zones)->Some_0, records);
    assert(Seq::<HostOverrideView>::empty() + seq![record_for_zones(ep, zones)->Some_0] =~= seq![
        record_for_zones(ep, zones)->Some_0,
    ]);
}

} // verus!
