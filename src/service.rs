use vstd::prelude::*;

verus! {

/// A registry record of one registered service instance, as the registry
/// reports it. The address `ip` is held as the text of its URL.
#[derive(Clone, Debug)]
pub struct Service {
    pub service_type: String,
    pub available: bool,
    pub healthcheck_endpoint: String,
    pub is_accepted: bool,
    pub identifier: String,
    pub ip: String,
}

} // verus!
