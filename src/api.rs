//! The replies of the resolver's API, as a closed set of shapes, and the
//! check that a call got the shape it expects.
use vstd::prelude::*;

use crate::endpoint::Endpoint;
use crate::record::{HostOverrideRecord, HostOverrideView};
use crate::classify::row_views;

verus! {

/// A reply that is not of the shape the call expects.
#[derive(Clone, Copy, Debug, PartialEq, Eq, Structural)]
pub enum ResponseError {
    InvalidResponseFormat,
}

/// The reply to adding a host override: the identifier it got.
#[derive(Debug)]
pub struct SettingsAddResponse {
    pub uuid: String,
}

/// The rows of a host override search.
#[derive(Debug)]
pub struct HostOverrideRecords(pub Vec<HostOverrideRecord>);

/// The reply to a host override search.
#[derive(Debug)]
pub struct SettingsListResponse {
    pub rows: HostOverrideRecords,
}

/// The reply to changing or deleting a host override.
#[derive(Debug)]
pub struct SettingsUpdateResponse {}

/// The replies of the settings calls, told apart by their shape.
#[derive(Debug)]
pub enum SettingsResponse {
    Add(SettingsAddResponse),
    List(SettingsListResponse),
    Update(SettingsUpdateResponse),
}

/// The reply to restarting the resolver.
#[derive(Debug)]
pub struct ServiceRestartResponse {}

/// The replies of the service calls.
#[derive(Debug)]
pub enum ServiceResponse {
    Restart(ServiceRestartResponse),
}

/// The identifier of an added host override, when the reply is of that shape.
pub fn expect_added(r: SettingsResponse) -> (out: Result<SettingsAddResponse, ResponseError>)
    ensures
        match r {
            SettingsResponse::Add(a) => out is Ok && out->Ok_0.uuid@ == a.uuid@,
            _ => out == Err::<SettingsAddResponse, ResponseError>(ResponseError::InvalidResponseFormat),
        },
{
    match r {
        SettingsResponse::Add(a) => Ok(a),
        _ => Err(ResponseError::InvalidResponseFormat),
    }
}

/// The rows of a search, when the reply is of that shape.
pub fn expect_listed(r: SettingsResponse) -> (out: Result<SettingsListResponse, ResponseError>)
    ensures
        match r {
            SettingsResponse::List(l) => out is Ok && row_views(out->Ok_0.rows.0@) == row_views(l.rows.0@),
            _ => out == Err::<SettingsListResponse, ResponseError>(ResponseError::InvalidResponseFormat),
        },
{
    match r {
        SettingsResponse::List(l) => Ok(l),
        _ => Err(ResponseError::InvalidResponseFormat),
    }
}

/// The acknowledgement of a change or delete, when the reply is of that shape.
pub fn expect_updated(r: SettingsResponse) -> (out: Result<SettingsUpdateResponse, ResponseError>)
    ensures
        out is Ok <==> r is Update,
        out is Err ==> out == Err::<SettingsUpdateResponse, ResponseError>(ResponseError::InvalidResponseFormat),
{
    match r {
        SettingsResponse::Update(u) => Ok(u),
        _ => Err(ResponseError::InvalidResponseFormat),
    }
}

/// The acknowledgement of a restart.
pub fn expect_restarted(r: ServiceResponse) -> (out: ServiceRestartResponse) {
    match r {
        ServiceResponse::Restart(res) => res,
    }
}

/// A row of a search reply, as the older search call gives it.
#[derive(Debug)]
pub struct OpnsenseSeachResultInner {
    pub uuid: String,
    pub enabled: String,
    pub domain: String,
    pub rr: String,
    pub server: String,
    pub hostname: String,
    pub mx: String,
    pub mxprio: String,
    pub description: String,
}

impl View for OpnsenseSeachResultInner {
    type V = HostOverrideView;

    open spec fn view(&self) -> HostOverrideView {
        HostOverrideView {
            uuid: self.uuid@,
            enabled: self.enabled@,
            domain: self.domain@,
            rr: self.rr@,
            server: self.server@,
            hostname: self.hostname@,
            mx: self.mx@,
            mxprio: self.mxprio@,
            description: self.description@,
        }
    }
}

/// The search reply of the older search call.
#[derive(Debug)]
pub struct OpnsenseSeachResult {
    pub rows: Vec<OpnsenseSeachResultInner>,
}

/// The reply of the older add call: the identifier the row got.
#[derive(Debug)]
pub struct OpnsenseResponse {
    pub uuid: String,
}

/// The row that the older calls send for an endpoint: the whole name as
/// domain, `*` as host name, enabled, the first target (or nothing) as
/// server, and the set identifier (or nothing) as identifier.
pub open spec fn wildcard_row_of(ep: crate::endpoint::EndpointView) -> HostOverrideView {
    HostOverrideView {
        uuid: match ep.set_identifier {
            Some(s) => s,
            None => Seq::empty(),
        },
        enabled: "1"@,
        domain: ep.dns_name,
        rr: ep.record_type,
        server: if ep.targets.len() > 0 {
            ep.targets[0]
        } else {
            Seq::empty()
        },
        hostname: "*"@,
        mx: Seq::empty(),
        mxprio: Seq::empty(),
        description: Seq::empty(),
    }
}

impl OpnsenseSeachResultInner {
    /// The row that the older calls send for an endpoint.
    pub fn from_endpoint(ep: &Endpoint) -> (r: OpnsenseSeachResultInner)
        ensures
            r@ == wildcard_row_of(ep@),
    {
        let server = if ep.targets.0.len() > 0 {
            ep.targets.0[0].clone()
        } else {
            String::new()
        };
        OpnsenseSeachResultInner {
            uuid: match &ep.set_identifier {
                Some(s) => s.clone(),
                None => String::new(),
            },
            enabled: "1".to_owned(),
            domain: ep.dns_name.clone(),
            rr: ep.record_type.clone(),
            server,
            hostname: "*".to_owned(),
            mx: String::new(),
            mxprio: String::new(),
            description: String::new(),
        }
    }
}

} // verus!
