//! Plugin lifecycle: which records are listed, which are announced, and the
//! errors of loading.

use vstd::prelude::*;
use crate::error::ServiceError;
use crate::ids::{uuid_text, uuid_to_string};

verus! {

/// Capability a plugin declares.
#[derive(Debug, Clone, Copy, PartialEq, Eq, Structural)]
pub enum PluginCapability {
    MixnetBackend,
    TransportBackend,
    DnsFilter,
    Other,
}

/// What the service reads of a plugin record.
pub struct PluginSummary {
    pub id: u128,
    pub capabilities: Vec<PluginCapability>,
}

/// Whether a plugin declares the mixnet backend capability.
pub open spec fn is_mixnet_provider(p: PluginSummary) -> bool {
    p.capabilities@.contains(PluginCapability::MixnetBackend)
}

fn provides_mixnet(p: &PluginSummary) -> (r: bool)
    ensures
        r == is_mixnet_provider(*p),
{
    let mut i: usize = 0;
    while i < p.capabilities.len()
        invariant
            i <= p.capabilities@.len(),
            forall|j: int| 0 <= j < i ==> p.capabilities@[j] != PluginCapability::MixnetBackend,
        decreases p.capabilities@.len() - i,
    {
        if p.capabilities[i] == PluginCapability::MixnetBackend {
            assert(p.capabilities@[i as int] == PluginCapability::MixnetBackend);
            return true;
        }
        i += 1;
    }
    false
}

/// Indices of the plugins that are mixnet providers, in order.
pub fn mixnet_providers(plugins: &Vec<PluginSummary>) -> (r: Vec<usize>)
    ensures
        forall|k: int| 0 <= k < r@.len() ==> r@[k] < plugins@.len() && is_mixnet_provider(plugins@[r@[k] as int]),
        forall|k: int, l: int| 0 <= k < l < r@.len() ==> r@[k] < r@[l],
        forall|i: int| 0 <= i < plugins@.len() && is_mixnet_provider(#[trigger] plugins@[i]) ==> r@.contains(i as usize),
{
    let mut out: Vec<usize> = Vec::new();
    let mut i: usize = 0;
    while i < plugins.len()
        invariant
            i <= plugins@.len(),
            forall|k: int| 0 <= k < out@.len() ==> out@[k] < i && is_mixnet_provider(plugins@[out@[k] as int]),
            forall|k: int, l: int| 0 <= k < l < out@.len() ==> out@[k] < out@[l],
            forall|j: int| 0 <= j < i && is_mixnet_provider(#[trigger] plugins@[j]) ==> out@.contains(j as usize),
        decreases plugins@.len() - i,
    {
        if provides_mixnet(&plugins[i]) {
            let ghost before = out@;
            out.push(i);
            proof {
                assert(out@[out@.len() - 1] == i);
                assert forall|j: int| 0 <= j <= i && is_mixnet_provider(#[trigger] plugins@[j]) implies out@.contains(
                    j as usize,
                ) by {
                    if j < i {
                        let k = choose|k: int| 0 <= k < before.len() && before[k] == j as usize;
                        assert(out@[k] == j as usize);
                    } else {
                        assert(out@[out@.len() - 1] == j as usize);
                    }
                }
            }
        }
        i += 1;
    }
    out
}

/// Where the plugin listing comes from: the stored records when there are any,
/// else what the runtime knows.
pub fn list_from_storage(stored_count: usize) -> (r: bool)
    ensures
        r == (stored_count > 0),
{
    stored_count > 0
}

/// Error for a plugin that is not stored: `plugin not found: {id}`.
pub fn plugin_not_found(id: u128) -> (r: ServiceError)
    ensures
        r matches ServiceError::Other(m) && m@ == "plugin not found: "@ + uuid_text(id),
{
    let mut m = String::from_str("plugin not found: ");
    m.append(uuid_to_string(id).as_str());
    ServiceError::Other(m)
}

/// Error announced for a plugin that failed to load: its recorded message, or
/// empty.
pub fn plugin_failure_message(error_message: Option<String>) -> (r: String)
    ensures
        match error_message {
            Some(m) => r@ == m@,
            None => r@.len() == 0,
        },
{
    match error_message {
        Some(m) => m,
        None => String::new(),
    }
}

/// Reason announced for an unload through the API.
pub fn unload_reason() -> (r: &'static str)
    ensures
        r@ == "api unload"@,
{
    "api unload"
}

} // verus!
