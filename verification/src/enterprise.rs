//! Enterprise policy: locked settings keys and the policies pulled from a
//! controller.

use vstd::prelude::*;
use crate::cloud::{base_of, base_url, join3};
use crate::security_policy::texts;
use crate::text::{str_eq, to_owned_string};

verus! {

/// An enterprise policy; the policy document is kept as JSON text.
pub struct EnterprisePolicy {
    pub id: u128,
    pub version: u32,
    pub policy_json: String,
    pub locked_keys: Vec<String>,
    /// Milliseconds since the epoch.
    pub updated_at: i64,
}

/// The policy in force where none was ever stored: version 1, an empty
/// document, nothing locked.
pub fn default_policy(id: u128, now: i64) -> (r: EnterprisePolicy)
    ensures
        r.id == id,
        r.version == 1,
        r.policy_json@ == "{}"@,
        r.locked_keys@.len() == 0,
        r.updated_at == now,
{
    EnterprisePolicy {
        id,
        version: 1,
        policy_json: String::from_str("{}"),
        locked_keys: Vec::new(),
        updated_at: now,
    }
}

fn copy_strings(v: &Vec<String>) -> (r: Vec<String>)
    ensures
        texts(r@) == texts(v@),
{
    let mut out: Vec<String> = Vec::new();
    let mut i: usize = 0;
    while i < v.len()
        invariant
            i <= v@.len(),
            out@.len() == i,
            forall|j: int| 0 <= j < i ==> (#[trigger] out@[j])@ == v@[j]@,
        decreases v@.len() - i,
    {
        out.push(v[i].clone());
        i += 1;
    }
    assert(texts(out@) =~= texts(v@));
    out
}

/// The settings keys that an applied policy locks against local change.
pub struct LocalPolicyProvider {
    locked_keys: Vec<String>,
}

impl View for LocalPolicyProvider {
    type V = Seq<Seq<char>>;

    closed spec fn view(&self) -> Seq<Seq<char>> {
        texts(self.locked_keys@)
    }
}

impl LocalPolicyProvider {
    pub fn new() -> (r: LocalPolicyProvider)
        ensures
            r@ == Seq::<Seq<char>>::empty(),
    {
        let r = LocalPolicyProvider { locked_keys: Vec::new() };
        assert(r@ =~= Seq::<Seq<char>>::empty());
        r
    }

    /// Takes the locked keys of a policy that was loaded or applied.
    pub fn adopt(&mut self, policy: &EnterprisePolicy)
        ensures
            final(self)@ == texts(policy.locked_keys@),
    {
        self.locked_keys = copy_strings(&policy.locked_keys);
    }

    /// Whether `key` is locked by the policy in force.
    pub fn is_locked(&self, key: &str) -> (r: bool)
        ensures
            r == self@.contains(key@),
    {
        let mut i: usize = 0;
        while i < self.locked_keys.len()
            invariant
                i <= self.locked_keys@.len(),
                forall|j: int| 0 <= j < i ==> (#[trigger] self.locked_keys@[j])@ != key@,
            decreases self.locked_keys@.len() - i,
        {
            if str_eq(self.locked_keys[i].as_str(), key) {
                proof {
                    assert(self@[i as int] == key@);
                }
                return true;
            }
            i += 1;
        }
        proof {
            if self@.contains(key@) {
                let j = choose|j: int| 0 <= j < self@.len() && self@[j] == key@;
                assert(self.locked_keys@[j]@ == key@);
            }
        }
        false
    }
}

/// A policy as a controller sends it.
pub struct RemotePolicyBundle {
    pub device_id: String,
    pub policy_json: String,
    pub locked_keys: Vec<String>,
    pub version: u32,
}

/// Where a device's policy is pulled from.
pub struct RemotePolicyProvider {
    pub base_url: String,
    pub device_id: String,
}

impl RemotePolicyProvider {
    /// A provider for the controller at `base_url` (trailing slashes dropped).
    pub fn new(url: &str, device_id: String) -> (r: RemotePolicyProvider)
        ensures
            r.base_url@ == base_url(url@),
            r.device_id@ == device_id@,
    {
        RemotePolicyProvider { base_url: base_of(url), device_id }
    }

    /// `{base}/api/v1/policies/devices/{device_id}`.
    pub fn policy_url(&self) -> (r: String)
        ensures
            r@ == self.base_url@ + "/api/v1/policies/devices/"@ + self.device_id@,
    {
        join3(self.base_url.as_str(), "/api/v1/policies/devices/", self.device_id.as_str())
    }

    /// The policy a pulled bundle stands for: its document and locked keys, its
    /// version raised to at least 1, under a new id and the current time.
    pub fn policy_from_bundle(bundle: &RemotePolicyBundle, id: u128, now: i64) -> (r: EnterprisePolicy)
        ensures
            r.id == id,
            r.version == (if bundle.version < 1 {
                1
            } else {
                bundle.version
            }),
            r.policy_json@ == bundle.policy_json@,
            texts(r.locked_keys@) == texts(bundle.locked_keys@),
            r.updated_at == now,
    {
        EnterprisePolicy {
            id,
            version: if bundle.version < 1 {
                1
            } else {
                bundle.version
            },
            policy_json: to_owned_string(bundle.policy_json.as_str()),
            locked_keys: copy_strings(&bundle.locked_keys),
            updated_at: now,
        }
    }
}

} // verus!
