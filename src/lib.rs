//! Reconciliation core of a webhook that keeps the host overrides of an
//! Unbound resolver in line with the records that an external DNS
//! controller asks for.
//!
//! - `record`: resolver rows, and the key and entry derived from each.
//! - `cache`: the record cache, one entry per key.
//! - `endpoint`: the controller's endpoints, their rows, and adjustment.
//! - `zone`: the zones in scope and their cache.
//! - `classify`: the cache rebuilt from a listing; change sets sorted into
//!   creates, updates and deletes.
//! - `sync`: the run that applies a plan, one resolver call at a time.
//! - `api`: the shapes of the resolver's replies.
//! - `text`: the std text operations the rest relies on.
use vstd::prelude::*;

pub mod api;
pub mod cache;
pub mod classify;
pub mod endpoint;
pub mod record;
pub mod sync;
pub mod text;
pub mod zone;

verus! {

/// The address the webhook listens on when none is configured.
pub fn default_bind() -> (r: String)
    ensures
        r@ == "127.0.0.1:8800"@,
{
    "127.0.0.1:8800".to_owned()
}

} // verus!
