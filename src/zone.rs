//! Zones in scope: which local zones of the resolver the webhook manages, and
//! the cache that keeps them once they are resolved.
use vstd::prelude::*;

use crate::endpoint::texts;
use crate::text::{
    ends_with_str, has_suffix, lower_of, strip_first, strip_last, strip_prefix_char, strip_suffix_char, text_is,
    to_lower, trim, trim_of,
};

verus! {

/// A local zone as the resolver lists it: its name and its type.
#[derive(Debug)]
pub struct Zone {
    pub zone: String,
    pub zone_type: String,
}

/// The view of a zone: its name and its type.
pub type ZoneView = (Seq<char>, Seq<char>);

impl View for Zone {
    type V = ZoneView;

    open spec fn view(&self) -> ZoneView {
        (self.zone@, self.zone_type@)
    }
}

/// Whether a trimmed, lower-cased zone type is the one that host overrides
/// live in.
pub open spec fn is_transparent_name(t: Seq<char>) -> bool {
    t == "transparent"@
}

/// Whether a zone type, in any case and with white space around it, is
/// `transparent`.
pub open spec fn is_allowed_type_of(zone_type: Seq<char>) -> bool {
    is_transparent_name(lower_of(trim_of(zone_type)))
}

/// Whether an already trimmed and lower-cased zone type is `transparent`.
pub fn is_transparent(t: &str) -> (r: bool)
    ensures
        r == is_transparent_name(t@),
{
    text_is(t, "transparent")
}

impl Zone {
    /// Whether the zone is of the type that holds host overrides.
    pub fn is_allowed_type(&self) -> (r: bool)
        ensures
            r == is_allowed_type_of(self.zone_type@),
    {
        let trimmed = trim(self.zone_type.as_str());
        let lower = to_lower(trimmed.as_str());
        is_transparent(lower.as_str())
    }
}

/// The reply of the resolver's zone listing.
#[derive(Debug)]
pub struct ListLocalZonesResponse {
    pub data: Vec<Zone>,
}

/// The suffix that a domain filter asks for: the filter without one leading dot.
pub open spec fn filter_suffix(f: Seq<char>) -> Seq<char> {
    match strip_first(f, '.') {
        Some(s) => s,
        None => f,
    }
}

/// Whether a zone name passes the domain filters: any name when there are
/// none, else a name that ends with one of them.
pub open spec fn passes_filters(name: Seq<char>, filters: Seq<Seq<char>>) -> bool {
    filters.len() == 0 || exists|i: int| 0 <= i < filters.len() && has_suffix(name, filter_suffix(#[trigger] filters[i]))
}

/// The name under which a listed zone is in scope, if it is: a transparent
/// zone whose name ends with the root dot, which is dropped, and whose name
/// passes the filters. A last stage then keeps only an empty name. That
/// stage is kept as the webhook has always had it, though it looks like a
/// slip: only the root zone `.` can come into scope, and then only when
/// there are no filters or one of them is empty or a lone dot.
pub open spec fn scoped_name(z: ZoneView, filters: Seq<Seq<char>>) -> Option<Seq<char>> {
    if !is_allowed_type_of(z.1) {
        None
    } else {
        match strip_last(z.0, '.') {
            None => None,
            Some(name) => if passes_filters(name, filters) && name.len() == 0 {
                Some(name)
            } else {
                None
            },
        }
    }
}

/// The names of the listed zones that are in scope, in listing order.
pub open spec fn scoped_names(zs: Seq<ZoneView>, filters: Seq<Seq<char>>) -> Seq<Seq<char>>
    decreases zs.len(),
{
    if zs.len() == 0 {
        Seq::empty()
    } else {
        let rest = scoped_names(zs.drop_last(), filters);
        match scoped_name(zs.last(), filters) {
            Some(n) => rest.push(n),
            None => rest,
        }
    }
}

/// `list` with each of `values` that it does not hold yet added at its end,
/// in order.
pub open spec fn add_new(list: Seq<Seq<char>>, values: Seq<Seq<char>>) -> Seq<Seq<char>>
    decreases values.len(),
{
    if values.len() == 0 {
        list
    } else {
        let l = add_new(list, values.drop_last());
        if l.contains(values.last()) {
            l
        } else {
            l.push(values.last())
        }
    }
}

/// A cache of the zones in scope.
pub trait ZoneCache: Sized {
    /// The cached zone names, each once.
    spec fn zones(&self) -> Seq<Seq<char>>;

    /// Adds the names that the cache does not hold yet.
    fn extend(&mut self, values: Vec<String>)
        ensures
            final(self).zones() == add_new(old(self).zones(), texts(values@)),
    ;

    /// The cached zone names.
    fn values(&self) -> (r: Vec<String>)
        ensures
            texts(r@) == self.zones(),
    ;
}

/// The zone cache kept in memory, in the order the names were added.
pub struct DefaultZoneCache {
    names: Vec<String>,
}

impl DefaultZoneCache {
    /// An empty cache.
    pub fn new() -> (r: Self)
        ensures
            r.zones() == Seq::<Seq<char>>::empty(),
    {
        let r = DefaultZoneCache { names: Vec::new() };
        assert(texts(r.names@) =~= Seq::<Seq<char>>::empty());
        r
    }
}

impl ZoneCache for DefaultZoneCache {
    closed spec fn zones(&self) -> Seq<Seq<char>> {
        texts(self.names@)
    }

    fn extend(&mut self, values: Vec<String>) {
        let mut i: usize = 0;
        while i < values.len()
            invariant
                i <= values@.len(),
                texts(self.names@) == add_new(texts(old(self).names@), texts(values@).take(i as int)),
            decreases values@.len() - i,
        {
            assert(texts(values@).take(i + 1).drop_last() =~= texts(values@).take(i as int));
            let v = values[i].clone();
            if !crate::endpoint::contains_text(&self.names, &v) {
                self.names.push(v);
                assert(texts(self.names@) =~= add_new(texts(old(self).names@), texts(values@).take(i as int)).push(
                    v@,
                ));
            }
            i += 1;
        }
        assert(texts(values@).take(values@.len() as int) =~= texts(values@));
    }

    fn values(&self) -> (r: Vec<String>) {
        let r = self.names.clone();
        assert(texts(r@) =~= texts(self.names@));
        r
    }
}

/// Whether a zone name passes the domain filters.
pub fn matches_filters(name: &String, filters: &Vec<String>) -> (r: bool)
    ensures
        r == passes_filters(name@, texts(filters@)),
{
    if filters.len() == 0 {
        return true;
    }
    let mut i: usize = 0;
    while i < filters.len()
        invariant
            i <= filters@.len(),
            forall|j: int| 0 <= j < i ==> !has_suffix(name@, filter_suffix(#[trigger] texts(filters@)[j])),
        decreases filters@.len() - i,
    {
        let suffix = match strip_prefix_char(filters[i].as_str(), '.') {
            Some(s) => s,
            None => filters[i].clone(),
        };
        assert(texts(filters@)[i as int] == filters@[i as int]@);
        if ends_with_str(name.as_str(), suffix.as_str()) {
            return true;
        }
        i += 1;
    }
    false
}

/// The names of the listed zones that are in scope, in listing order.
pub fn filter_zones(listing: &ListLocalZonesResponse, filters: &Vec<String>) -> (r: Vec<String>)
    ensures
        texts(r@) == scoped_names(listing.data@.map_values(|z: Zone| z@), texts(filters@)),
{
    let ghost zs = listing.data@.map_values(|z: Zone| z@);
    let mut out: Vec<String> = Vec::new();
    let mut i: usize = 0;
    while i < listing.data.len()
        invariant
            i <= listing.data@.len(),
            zs == listing.data@.map_values(|z: Zone| z@),
            texts(out@) == scoped_names(zs.take(i as int), texts(filters@)),
        decreases listing.data@.len() - i,
    {
        let z = &listing.data[i];
        assert(zs.take(i + 1).drop_last() =~= zs.take(i as int));
        assert(zs.take(i + 1).last() == z@);
        if z.is_allowed_type() {
            match strip_suffix_char(z.zone.as_str(), '.') {
                Some(name) => {
                    if matches_filters(&name, filters) && name.as_str().is_empty() {
                        out.push(name);
                        assert(texts(out@) =~= scoped_names(zs.take(i as int), texts(filters@)).push(
                            scoped_name(z@, texts(filters@))->Some_0,
                        ));
                    }
                },
                None => {},
            }
        }
        i += 1;
    }
    assert(zs.take(zs.len() as int) =~= zs);
    out
}

/// The zones in scope when the cache already holds some: then they are the
/// answer, and the resolver need not be asked.
pub fn cached_zones<Z: ZoneCache>(cache: &Z) -> (r: Option<Vec<String>>)
    ensures
        match r {
            Some(v) => cache.zones().len() > 0 && texts(v@) == cache.zones(),
            None => cache.zones().len() == 0,
        },
{
    let v = cache.values();
    if v.len() == 0 {
        None
    } else {
        Some(v)
    }
}

/// The zones in scope by a fresh listing of the resolver, which the cache
/// takes in.
pub fn resolve_listed_zones<Z: ZoneCache>(
    cache: &mut Z,
    listing: &ListLocalZonesResponse,
    filters: &Vec<String>,
) -> (r: Vec<String>)
    ensures
        texts(r@) == scoped_names(listing.data@.map_values(|z: Zone| z@), texts(filters@)),
        final(cache).zones() == add_new(old(cache).zones(), texts(r@)),
{
    let zones = filter_zones(listing, filters);
    let stored = zones.clone();
    assert(texts(stored@) =~= texts(zones@));
    cache.extend(stored);
    zones
}

/// What zone resolution answers, and what the cache then holds, given what
/// it held and what the resolver would list: the cached zones when there are
/// any, else the listing's zones in scope.
pub open spec fn resolution(cached: Seq<Seq<char>>, listed: Seq<ZoneView>, filters: Seq<Seq<char>>) -> (
    Seq<Seq<char>>,
    Seq<Seq<char>>,
) {
    if cached.len() > 0 {
        (cached, cached)
    } else {
        let names = scoped_names(listed, filters);
        (names, add_new(cached, names))
    }
}

proof fn lemma_add_new_distinct(values: Seq<Seq<char>>)
    requires
        values.no_duplicates(),
    ensures
        add_new(Seq::empty(), values) == values,
    decreases values.len(),
{
    if values.len() > 0 {
        let init = values.drop_last();
        assert(init.no_duplicates());
        lemma_add_new_distinct(init);
        assert(!init.contains(values.last()));
        assert(init.push(values.last()) =~= values);
    }
}

/// Zone resolution is idempotent: once a first resolution on an empty cache
/// has found zones (each once), a second one answers the same list and keeps
/// the same cache, whatever the resolver would list then, so only the first
/// can need the resolver.
pub proof fn lemma_resolution_idempotent(
    filters: Seq<Seq<char>>,
    first_listing: Seq<ZoneView>,
    second_listing: Seq<ZoneView>,
)
    requires
        scoped_names(first_listing, filters).len() > 0,
        scoped_names(first_listing, filters).no_duplicates(),
    ensures
        ({
            let (answer1, cache1) = resolution(Seq::empty(), first_listing, filters);
            let (answer2, cache2) = resolution(cache1, second_listing, filters);
            answer2 == answer1 && cache2 == cache1
        }),
{
    lemma_add_new_distinct(scoped_names(first_listing, filters));
}

} // verus!
