//! Endpoints: the records that the DNS controller wants, and how they map
//! onto host override rows of the resolver.
use vstd::prelude::*;

use crate::record::{HostOverrideRecord, HostOverrideView};
use crate::text::{dotted, first_word, first_word_of, split_first, split_once_char, text_is};

verus! {

/// The texts of a sequence of strings.
pub open spec fn texts(v: Seq<String>) -> Seq<Seq<char>> {
    v.map_values(|s: String| s@)
}

/// The target addresses of an endpoint.
#[derive(Debug)]
pub struct Targets(pub Vec<String>);

impl View for Targets {
    type V = Seq<Seq<char>>;

    open spec fn view(&self) -> Seq<Seq<char>> {
        texts(self.0@)
    }
}

impl Clone for Targets {
    fn clone(&self) -> (r: Self)
        ensures
            r@ == self@,
    {
        let v = self.0.clone();
        assert(texts(v@) =~= texts(self.0@));
        Targets(v)
    }
}

impl Targets {
    /// A single target.
    pub fn single(target: &String) -> (r: Targets)
        ensures
            r@ == seq![target@],
    {
        let mut v: Vec<String> = Vec::new();
        v.push(target.clone());
        assert(texts(v@) =~= seq![target@]);
        Targets(v)
    }

    /// The number of targets.
    pub fn len(&self) -> (r: usize)
        ensures
            r == self@.len(),
    {
        self.0.len()
    }
}

/// A provider specific property of an endpoint, carried through unchanged.
#[derive(Debug)]
pub struct ProviderSpecificProperty {
    pub name: String,
    pub value: String,
}

impl View for ProviderSpecificProperty {
    type V = (Seq<char>, Seq<char>);

    open spec fn view(&self) -> (Seq<char>, Seq<char>) {
        (self.name@, self.value@)
    }
}

impl Clone for ProviderSpecificProperty {
    fn clone(&self) -> (r: Self)
        ensures
            r == *self,
    {
        ProviderSpecificProperty { name: self.name.clone(), value: self.value.clone() }
    }
}

/// The zone filters that the webhook announces to the controller.
#[derive(Debug)]
pub struct DomainFilter {
    pub filters: Vec<String>,
}

/// One record that the controller wants.
#[derive(Debug)]
pub struct Endpoint {
    pub dns_name: String,
    pub targets: Targets,
    pub record_type: String,
    pub set_identifier: Option<String>,
    pub record_ttl: Option<u64>,
    pub provider_specific: Vec<ProviderSpecificProperty>,
}

/// The fields of an endpoint as plain values.
pub struct EndpointView {
    pub dns_name: Seq<char>,
    pub targets: Seq<Seq<char>>,
    pub record_type: Seq<char>,
    pub set_identifier: Option<Seq<char>>,
    pub record_ttl: Option<u64>,
    pub provider_specific: Seq<(Seq<char>, Seq<char>)>,
}

impl View for Endpoint {
    type V = EndpointView;

    open spec fn view(&self) -> EndpointView {
        EndpointView {
            dns_name: self.dns_name@,
            targets: self.targets@,
            record_type: self.record_type@,
            set_identifier: match self.set_identifier {
                Some(s) => Some(s@),
                None => None,
            },
            record_ttl: self.record_ttl,
            provider_specific: self.provider_specific@.map_values(|p: ProviderSpecificProperty| p@),
        }
    }
}

impl Clone for Endpoint {
    fn clone(&self) -> (r: Self)
        ensures
            r@ == self@,
    {
        let properties = self.provider_specific.clone();
        assert(properties@.map_values(|p: ProviderSpecificProperty| p@) =~= self.provider_specific@.map_values(
            |p: ProviderSpecificProperty| p@,
        ));
        Endpoint {
            dns_name: self.dns_name.clone(),
            targets: self.targets.clone(),
            record_type: self.record_type.clone(),
            set_identifier: match &self.set_identifier {
                Some(s) => Some(s.clone()),
                None => None,
            },
            record_ttl: self.record_ttl,
            provider_specific: properties,
        }
    }
}

/// The host part and the domain of a name, split at its first dot, when the
/// domain is one of the zones.
pub open spec fn host_and_domain(name: Seq<char>, zones: Seq<Seq<char>>) -> Option<(Seq<char>, Seq<char>)> {
    match split_first(name, '.') {
        Some(p) => if zones.contains(p.1) {
            Some(p)
        } else {
            None
        },
        None => None,
    }
}

/// The row that asks the resolver for an endpoint, when its name lies in
/// one of the zones: enabled, with the endpoint's first target as server and
/// its set identifier, if any, as identifier.
pub open spec fn record_for_zones(ep: EndpointView, zones: Seq<Seq<char>>) -> Option<HostOverrideView> {
    match host_and_domain(ep.dns_name, zones) {
        Some(p) => Some(
            HostOverrideView {
                uuid: match ep.set_identifier {
                    Some(s) => s,
                    None => Seq::empty(),
                },
                enabled: "1"@,
                domain: p.1,
                rr: ep.record_type,
                server: ep.targets[0],
                hostname: p.0,
                mx: Seq::empty(),
                mxprio: Seq::empty(),
                description: Seq::empty(),
            },
        ),
        None => None,
    }
}

/// Whether an endpoint can be turned into a row for the zones: a name
/// outside them needs nothing, one inside needs a target.
pub open spec fn has_target_in(ep: EndpointView, zones: Seq<Seq<char>>) -> bool {
    host_and_domain(ep.dns_name, zones) is Some ==> ep.targets.len() > 0
}

/// The endpoint that lists a row to the controller: `hostname.domain`, the
/// first word of `rr` as type (`A` when there is none), the server as the
/// one target.
pub open spec fn endpoint_of(r: HostOverrideView) -> EndpointView {
    EndpointView {
        dns_name: r.hostname + seq!['.'] + r.domain,
        targets: seq![r.server],
        record_type: match first_word_of(r.rr) {
            Some(w) => w,
            None => "A"@,
        },
        set_identifier: None,
        record_ttl: None,
        provider_specific: Seq::empty(),
    }
}

/// Whether a zone list holds a name.
pub fn contains_text(zones: &Vec<String>, name: &String) -> (r: bool)
    ensures
        r == texts(zones@).contains(name@),
{
    let mut i: usize = 0;
    while i < zones.len()
        invariant
            i <= zones@.len(),
            forall|j: int| 0 <= j < i ==> zones@[j]@ != name@,
        decreases zones@.len() - i,
    {
        if zones[i] == *name {
            assert(texts(zones@)[i as int] == name@);
            return true;
        }
        i += 1;
    }
    proof {
        if texts(zones@).contains(name@) {
            let j = choose|j: int| 0 <= j < texts(zones@).len() && texts(zones@)[j] == name@;
            assert(zones@[j]@ == name@);
        }
    }
    false
}

impl Endpoint {
    /// The host part and the domain of the endpoint's name, split at its
    /// first dot, when the domain is one of the zones.
    pub fn get_host_and_domain(&self, zones: &Vec<String>) -> (r: Option<(String, String)>)
        ensures
            match r {
                Some(p) => host_and_domain(self.dns_name@, texts(zones@)) == Some((p.0@, p.1@)),
                None => host_and_domain(self.dns_name@, texts(zones@)) is None,
            },
    {
        match split_once_char(self.dns_name.as_str(), '.') {
            Some(p) => {
                if contains_text(zones, &p.1) {
                    Some(p)
                } else {
                    None
                }
            },
            None => None,
        }
    }

    /// The row that asks the resolver for this endpoint, when its name lies
    /// in one of the zones.
    pub fn get_record_for_zones(&self, zones: &Vec<String>) -> (r: Option<HostOverrideRecord>)
        requires
            has_target_in(self@, texts(zones@)),
        ensures
            match r {
                Some(rec) => record_for_zones(self@, texts(zones@)) == Some(rec@),
                None => record_for_zones(self@, texts(zones@)) is None,
            },
    {
        let (host, domain) = match self.get_host_and_domain(zones) {
            Some(p) => p,
            None => return None,
        };
        let uuid = match &self.set_identifier {
            Some(s) => s.clone(),
            None => String::new(),
        };
        let enabled = "1".to_owned();
        let server = self.targets.0[0].clone();
        Some(
            HostOverrideRecord {
                uuid,
                enabled,
                domain,
                rr: self.record_type.clone(),
                server,
                hostname: host,
                mx: String::new(),
                mxprio: String::new(),
                description: String::new(),
            },
        )
    }

    /// The endpoint that lists a row to the controller.
    pub fn from_record(record: &HostOverrideRecord) -> (r: Endpoint)
        ensures
            r@ == endpoint_of(record@),
    {
        let word = first_word(record.rr.as_str());
        Endpoint::from_record_typed(record, word)
    }

    /// The endpoint that lists a row to the controller, given the first
    /// word of the row's `rr` field, if it has one.
    pub fn from_record_typed(record: &HostOverrideRecord, word: Option<String>) -> (r: Endpoint)
        ensures
            r@ == (EndpointView {
                record_type: match word {
                    Some(w) => w@,
                    None => "A"@,
                },
                ..endpoint_of(record@)
            }),
    {
        let record_type = match word {
            Some(w) => w,
            None => "A".to_owned(),
        };
        let r = Endpoint {
            dns_name: dotted(record.hostname.as_str(), record.domain.as_str()),
            targets: Targets::single(&record.server),
            record_type,
            set_identifier: None,
            record_ttl: None,
            provider_specific: Vec::new(),
        };
        assert(r@.provider_specific =~= Seq::<(Seq<char>, Seq<char>)>::empty());
        r
    }
}

/// A list of endpoints.
#[derive(Debug)]
pub struct Endpoints(pub Vec<Endpoint>);

impl View for Endpoints {
    type V = Seq<EndpointView>;

    open spec fn view(&self) -> Seq<EndpointView> {
        self.0@.map_values(|e: Endpoint| e@)
    }
}

/// A change set of the controller.
#[derive(Debug)]
pub struct Changes {
    pub create: Endpoints,
    pub update_old: Endpoints,
    pub update_new: Endpoints,
    pub delete: Endpoints,
}

/// Whether an endpoint's type is one that the resolver can hold.
pub open spec fn is_managed_type(record_type: Seq<char>) -> bool {
    record_type == "A"@ || record_type == "AAAA"@
}

/// What adjustment makes of one endpoint: no time to live, and only its
/// first target.
pub open spec fn adjusted(ep: EndpointView) -> EndpointView {
    EndpointView { record_ttl: None, targets: seq![ep.targets[0]], ..ep }
}

/// The endpoints of managed types, each adjusted, in their order.
pub open spec fn adjust_all(eps: Seq<EndpointView>) -> Seq<EndpointView>
    decreases eps.len(),
{
    if eps.len() == 0 {
        Seq::empty()
    } else {
        let rest = adjust_all(eps.drop_last());
        if is_managed_type(eps.last().record_type) {
            rest.push(adjusted(eps.last()))
        } else {
            rest
        }
    }
}

/// Keeps the endpoints whose type is `A` or `AAAA`, each without its time to
/// live and with its first target only; the others are dropped.
pub fn adjust_endpoints(endpoints: &Endpoints) -> (r: Endpoints)
    requires
        forall|i: int|
            0 <= i < endpoints@.len() && is_managed_type(#[trigger] endpoints@[i].record_type)
                ==> endpoints@[i].targets.len() > 0,
    ensures
        r@ == adjust_all(endpoints@),
{
    let mut out: Vec<Endpoint> = Vec::new();
    let mut i: usize = 0;
    while i < endpoints.0.len()
        invariant
            i <= endpoints@.len(),
            forall|j: int|
                0 <= j < endpoints@.len() && is_managed_type(#[trigger] endpoints@[j].record_type)
                    ==> endpoints@[j].targets.len() > 0,
            out@.map_values(|e: Endpoint| e@) == adjust_all(endpoints@.take(i as int)),
        decreases endpoints@.len() - i,
    {
        let ep = &endpoints.0[i];
        assert(endpoints@.take(i + 1).drop_last() =~= endpoints@.take(i as int));
        assert(endpoints@[i as int] == ep@);
        if text_is(ep.record_type.as_str(), "A") || text_is(ep.record_type.as_str(), "AAAA") {
            let first = Targets::single(&ep.targets.0[0]);
            let mut next = ep.clone();
            next.record_ttl = None;
            next.targets = first;
            assert(next@ == adjusted(ep@));
            out.push(next);
        }
        assert(out@.map_values(|e: Endpoint| e@) =~= adjust_all(endpoints@.take(i + 1)));
        i += 1;
    }
    assert(endpoints@.take(endpoints@.len() as int) =~= endpoints@);
    Endpoints(out)
}

/// Adjustment keeps only endpoints of type `A` or `AAAA`, each with no time
/// to live and exactly one target, the first it had.
pub proof fn lemma_adjusted_shape(eps: Seq<EndpointView>)
    requires
        forall|i: int| 0 <= i < eps.len() && is_managed_type(#[trigger] eps[i].record_type) ==> eps[i].targets.len() > 0,
    ensures
        forall|j: int|
            0 <= j < adjust_all(eps).len() ==> {
                let a = #[trigger] adjust_all(eps)[j];
                &&& is_managed_type(a.record_type)
                &&& a.record_ttl is None
                &&& a.targets.len() == 1
                &&& exists|i: int| 0 <= i < eps.len() && a.targets[0] == eps[i].targets[0] && a.record_type == eps[i].record_type && a.dns_name == eps[i].dns_name
            },
    decreases eps.len(),
{
    if eps.len() > 0 {
        let init = eps.drop_last();
        lemma_adjusted_shape(init);
        let rest = adjust_all(init);
        assert forall|j: int| 0 <= j < adjust_all(eps).len() implies {
            let a = #[trigger] adjust_all(eps)[j];
            &&& is_managed_type(a.record_type)
            &&& a.record_ttl is None
            &&& a.targets.len() == 1
            &&& exists|i: int| 0 <= i < eps.len() && a.targets[0] == eps[i].targets[0] && a.record_type == eps[i].record_type && a.dns_name == eps[i].dns_name
        } by {
            if j < rest.len() {
                let a = rest[j];
                let i = choose|i: int| 0 <= i < init.len() && a.targets[0] == init[i].targets[0] && a.record_type == init[i].record_type && a.dns_name == init[i].dns_name;
                assert(eps[i] == init[i]);
            } else {
                assert(eps[eps.len() - 1] == eps.last());
            }
        }
    }
}

} // verus!
