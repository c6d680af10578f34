//! Trust and credential policies for anonymity and mixnet providers.

use vstd::prelude::*;
use crate::text::str_eq;

verus! {

/// A policy refusal, published as a security-violation event.
pub struct PolicyViolation {
    pub profile_id: u128,
    pub violation_type: String,
    pub detail: String,
}

/// Anonymity provider of a profile.
#[derive(Debug, Clone, Copy, PartialEq, Eq, Structural)]
pub enum AnonymityProvider {
    Katzenpost,
    Loopix,
    FederatedMixnet,
    Plugin(u128),
}

pub struct KatzenpostProfile {
    pub id: u128,
    pub name: String,
    pub gateway_id: Option<String>,
    pub enabled: bool,
    pub active: bool,
    pub last_error: Option<String>,
    /// Milliseconds since the epoch.
    pub updated_at: i64,
}

pub struct LoopixProfile {
    pub id: u128,
    pub name: String,
    pub provider_id: Option<String>,
    pub enabled: bool,
    pub active: bool,
    pub last_error: Option<String>,
    /// Milliseconds since the epoch.
    pub updated_at: i64,
}

pub struct FederatedMixnetConfig {
    pub profile_id: u128,
    pub providers: Vec<String>,
}

/// Mixnet provider of a profile.
#[derive(Debug, Clone, Copy, PartialEq, Eq, Structural)]
pub enum MixnetProvider {
    Nym,
    Plugin(u128),
}

/// What the mixnet policy reads of a profile: its id, gateway, provider and,
/// when its configuration is a JSON object, the keys of that object.
pub struct MixnetProfile {
    pub id: u128,
    pub name: String,
    pub gateway_id: Option<String>,
    pub provider: MixnetProvider,
    pub config_keys: Option<Vec<String>>,
    pub enabled: bool,
    pub active: bool,
    pub last_error: Option<String>,
    pub latency_ms: Option<u64>,
    /// Milliseconds since the epoch.
    pub created_at: i64,
    pub updated_at: i64,
    pub last_health_at: Option<i64>,
}

/// Texts of a list of strings.
pub open spec fn texts(v: Seq<String>) -> Seq<Seq<char>> {
    v.map_values(|s: String| s@)
}

/// Detail of a refused gateway.
pub open spec fn gateway_detail(gateway_id: Seq<char>) -> Seq<char> {
    "gateway '"@ + gateway_id + "' is not in the trust list"@
}

/// Whether a gateway may be used: every gateway when no trust list is set.
pub open spec fn gateway_trusted(trusted: Set<Seq<char>>, gateway_id: Seq<char>) -> bool {
    trusted == Set::<Seq<char>>::empty() || trusted.contains(gateway_id)
}

fn contains_text(v: &Vec<String>, x: &str) -> (r: bool)
    ensures
        r == texts(v@).contains(x@),
{
    let mut i: usize = 0;
    while i < v.len()
        invariant
            i <= v@.len(),
            forall|j: int| 0 <= j < i ==> v@[j]@ != x@,
        decreases v@.len() - i,
    {
        if str_eq(v[i].as_str(), x) {
            assert(texts(v@)[i as int] == x@);
            return true;
        }
        i += 1;
    }
    assert forall|j: int| 0 <= j < texts(v@).len() implies texts(v@)[j] != x@ by {
        assert(texts(v@)[j] == v@[j]@);
    }
    false
}

fn copy_texts(v: &Vec<String>) -> (r: Vec<String>)
    ensures
        texts(r@) == texts(v@),
{
    let mut out: Vec<String> = Vec::new();
    let mut i: usize = 0;
    while i < v.len()
        invariant
            i <= v@.len(),
            out@.len() == i,
            forall|j: int| 0 <= j < i ==> (#[trigger] out@[j])@ == v@[j]@,
        decreases v@.len() - i,
    {
        out.push(v[i].clone());
        i += 1;
    }
    assert(texts(out@) =~= texts(v@));
    out
}

proof fn lemma_to_set_empty(s: Seq<Seq<char>>)
    ensures
        (s.to_set() == Set::<Seq<char>>::empty()) == (s.len() == 0),
{
    if s.len() == 0 {
        assert(s.to_set() =~= Set::<Seq<char>>::empty());
    } else {
        assert(s.contains(s[0]));
        assert(s.to_set().contains(s[0]));
    }
}

fn gateway_violation(profile_id: u128, gateway_id: &str) -> (r: PolicyViolation)
    ensures
        r.profile_id == profile_id,
        r.violation_type@ == "gateway_trust"@,
        r.detail@ == gateway_detail(gateway_id@),
{
    let mut detail = String::from_str("gateway '");
    detail.append(gateway_id);
    detail.append("' is not in the trust list");
    PolicyViolation { profile_id, violation_type: String::from_str("gateway_trust"), detail }
}

fn check_gateway(trusted: &Vec<String>, profile_id: u128, gateway_id: &str) -> (r: Result<(), PolicyViolation>)
    ensures
        gateway_trusted(texts(trusted@).to_set(), gateway_id@) ==> r is Ok,
        !gateway_trusted(texts(trusted@).to_set(), gateway_id@) ==> (r matches Err(v) && v.profile_id == profile_id
            && v.violation_type@ == "gateway_trust"@ && v.detail@ == gateway_detail(gateway_id@)),
{
    proof {
        lemma_to_set_empty(texts(trusted@));
    }
    if trusted.len() == 0 || contains_text(trusted, gateway_id) {
        return Ok(());
    }
    Err(gateway_violation(profile_id, gateway_id))
}

/// Gateway trust list and lab mode of the anonymity providers.
pub struct AnonymitySecurityPolicy {
    trusted_gateways: Vec<String>,
    lab_mode: bool,
}

impl AnonymitySecurityPolicy {
    /// Trusted gateways (every gateway is accepted while this is empty).
    pub closed spec fn trusted(&self) -> Set<Seq<char>> {
        texts(self.trusted_gateways@).to_set()
    }

    pub closed spec fn spec_lab_mode(&self) -> bool {
        self.lab_mode
    }

    pub fn new() -> (r: Self)
        ensures
            r.trusted() == Set::<Seq<char>>::empty(),
            !r.spec_lab_mode(),
    {
        let r = AnonymitySecurityPolicy { trusted_gateways: Vec::new(), lab_mode: false };
        proof {
            lemma_to_set_empty(texts(r.trusted_gateways@));
        }
        r
    }

    pub fn set_trusted_gateways(&mut self, gateways: Vec<String>)
        ensures
            final(self).trusted() == texts(gateways@).to_set(),
            final(self).spec_lab_mode() == old(self).spec_lab_mode(),
    {
        self.trusted_gateways = gateways;
    }

    pub fn set_lab_mode(&mut self, enabled: bool)
        ensures
            final(self).spec_lab_mode() == enabled,
            final(self).trusted() == old(self).trusted(),
    {
        self.lab_mode = enabled;
    }

    pub fn is_lab_mode(&self) -> (r: bool)
        ensures
            r == self.spec_lab_mode(),
    {
        self.lab_mode
    }

    /// A Katzenpost profile must use a trusted gateway, if it names one.
    pub fn validate_katzenpost(&self, profile: &KatzenpostProfile) -> (r: Result<(), PolicyViolation>)
        ensures
            match profile.gateway_id {
                Some(g) if !gateway_trusted(self.trusted(), g@) => r matches Err(v) && v.profile_id == profile.id
                    && v.violation_type@ == "gateway_trust"@ && v.detail@ == gateway_detail(g@),
                _ => r is Ok,
            },
    {
        match &profile.gateway_id {
            Some(g) => check_gateway(&self.trusted_gateways, profile.id, g.as_str()),
            None => Ok(()),
        }
    }

    /// An enabled Loopix profile must name its provider.
    pub fn validate_loopix(&self, profile: &LoopixProfile) -> (r: Result<(), PolicyViolation>)
        ensures
            ({
                let missing = match profile.provider_id {
                    Some(p) => p@.len() == 0,
                    None => true,
                };
                if missing && profile.enabled {
                    r matches Err(v) && v.profile_id == profile.id && v.violation_type@ == "provider"@
                        && v.detail@ == "loopix profile missing provider_id"@
                } else {
                    r is Ok
                }
            }),
    {
        let missing = match &profile.provider_id {
            Some(p) => p.as_str().unicode_len() == 0,
            None => true,
        };
        if missing && profile.enabled {
            return Err(
                PolicyViolation {
                    profile_id: profile.id,
                    violation_type: String::from_str("provider"),
                    detail: String::from_str("loopix profile missing provider_id"),
                },
            );
        }
        Ok(())
    }

    /// A federated mixnet needs at least one provider.
    pub fn validate_federation(&self, config: &FederatedMixnetConfig) -> (r: Result<(), PolicyViolation>)
        ensures
            config.providers@.len() == 0 ==> (r matches Err(v) && v.profile_id == config.profile_id
                && v.violation_type@ == "federation"@ && v.detail@
                == "federated mixnet requires at least one provider"@),
            config.providers@.len() > 0 ==> r is Ok,
    {
        if config.providers.len() == 0 {
            return Err(
                PolicyViolation {
                    profile_id: config.profile_id,
                    violation_type: String::from_str("federation"),
                    detail: String::from_str("federated mixnet requires at least one provider"),
                },
            );
        }
        Ok(())
    }

    /// A plugin provider must have a non-nil plugin id.
    pub fn validate_provider(&self, provider: AnonymityProvider, profile_id: u128) -> (r: Result<(), PolicyViolation>)
        ensures
            provider == AnonymityProvider::Plugin(0) ==> (r matches Err(v) && v.profile_id == profile_id
                && v.violation_type@ == "provider"@ && v.detail@ == "plugin anonymity provider has nil id"@),
            provider != AnonymityProvider::Plugin(0) ==> r is Ok,
    {
        match provider {
            AnonymityProvider::Plugin(id) => {
                if id == 0 {
                    return Err(
                        PolicyViolation {
                            profile_id,
                            violation_type: String::from_str("provider"),
                            detail: String::from_str("plugin anonymity provider has nil id"),
                        },
                    );
                }
                Ok(())
            },
            _ => Ok(()),
        }
    }
}

/// Mixnet core policy handed to the mixnet manager.
pub struct MixnetCorePolicy {
    pub require_binaries: bool,
    pub allowed_providers: Vec<String>,
    pub max_restarts: u32,
    pub loopback_only: bool,
}

/// Whether a mixnet profile carries the credentials its provider needs.
pub open spec fn spec_has_credentials(profile: MixnetProfile) -> bool {
    match profile.provider {
        MixnetProvider::Nym => match profile.config_keys {
            Some(keys) => texts(keys@).contains("mnemonic"@) || texts(keys@).contains("credential"@),
            None => false,
        },
        MixnetProvider::Plugin(id) => id != 0,
    }
}

/// Gateway trust list and credential requirement of mixnet profiles.
pub struct MixnetSecurityPolicy {
    trusted_gateways: Vec<String>,
    require_credentials: bool,
}

impl MixnetSecurityPolicy {
    pub closed spec fn trusted(&self) -> Set<Seq<char>> {
        texts(self.trusted_gateways@).to_set()
    }

    pub closed spec fn spec_require_credentials(&self) -> bool {
        self.require_credentials
    }

    pub fn new() -> (r: Self)
        ensures
            r.trusted() == Set::<Seq<char>>::empty(),
            !r.spec_require_credentials(),
    {
        let r = MixnetSecurityPolicy { trusted_gateways: Vec::new(), require_credentials: false };
        proof {
            lemma_to_set_empty(texts(r.trusted_gateways@));
        }
        r
    }

    pub fn set_trusted_gateways(&mut self, gateways: Vec<String>)
        ensures
            final(self).trusted() == texts(gateways@).to_set(),
            final(self).spec_require_credentials() == old(self).spec_require_credentials(),
    {
        self.trusted_gateways = gateways;
    }

    /// The trusted gateways.
    pub fn trusted_gateways(&self) -> (r: Vec<String>)
        ensures
            texts(r@).to_set() == self.trusted(),
    {
        copy_texts(&self.trusted_gateways)
    }

    pub fn set_require_credentials(&mut self, require: bool)
        ensures
            final(self).spec_require_credentials() == require,
            final(self).trusted() == old(self).trusted(),
    {
        self.require_credentials = require;
    }

    /// A profile must use a trusted gateway, if it names one, and then carry
    /// its credentials.
    pub fn validate_profile(&self, profile: &MixnetProfile) -> (r: Result<(), PolicyViolation>)
        ensures
            match profile.gateway_id {
                Some(g) if !gateway_trusted(self.trusted(), g@) => r matches Err(v) && v.profile_id == profile.id
                    && v.violation_type@ == "gateway_trust"@ && v.detail@ == gateway_detail(g@),
                _ => r is Ok <==> (!self.spec_require_credentials() || spec_has_credentials(*profile)),
            },
            r matches Err(v) ==> v.profile_id == profile.id,
    {
        if let Some(g) = &profile.gateway_id {
            self.validate_gateway(profile.id, g.as_str())?;
        }
        self.validate_credentials(profile)
    }

    /// A gateway must be on the trust list, unless the list is empty.
    pub fn validate_gateway(&self, profile_id: u128, gateway_id: &str) -> (r: Result<(), PolicyViolation>)
        ensures
            gateway_trusted(self.trusted(), gateway_id@) ==> r is Ok,
            !gateway_trusted(self.trusted(), gateway_id@) ==> (r matches Err(v) && v.profile_id == profile_id
                && v.violation_type@ == "gateway_trust"@ && v.detail@ == gateway_detail(gateway_id@)),
    {
        check_gateway(&self.trusted_gateways, profile_id, gateway_id)
    }

    /// When credentials are required, a Nym profile needs a `mnemonic` or a
    /// `credential` and a plugin profile a non-nil plugin id.
    pub fn validate_credentials(&self, profile: &MixnetProfile) -> (r: Result<(), PolicyViolation>)
        ensures
            r is Ok <==> (!self.spec_require_credentials() || spec_has_credentials(*profile)),
            r matches Err(v) ==> v.profile_id == profile.id && v.violation_type@ == "credential"@ && v.detail@
                == (match profile.provider {
                MixnetProvider::Nym => "nym profile missing mnemonic or credential"@,
                MixnetProvider::Plugin(_) => "plugin mixnet provider has nil plugin id"@,
            }),
    {
        if !self.require_credentials {
            return Ok(());
        }
        match profile.provider {
            MixnetProvider::Nym => {
                let has_creds = match &profile.config_keys {
                    Some(keys) => contains_text(keys, "mnemonic") || contains_text(keys, "credential"),
                    None => false,
                };
                if !has_creds {
                    return Err(
                        PolicyViolation {
                            profile_id: profile.id,
                            violation_type: String::from_str("credential"),
                            detail: String::from_str("nym profile missing mnemonic or credential"),
                        },
                    );
                }
            },
            MixnetProvider::Plugin(plugin_id) => {
                if plugin_id == 0 {
                    return Err(
                        PolicyViolation {
                            profile_id: profile.id,
                            violation_type: String::from_str("credential"),
                            detail: String::from_str("plugin mixnet provider has nil plugin id"),
                        },
                    );
                }
            },
        }
        Ok(())
    }

    /// Policy handed to the mixnet manager: loopback only, three restarts.
    pub fn to_core_policy(&self) -> (r: MixnetCorePolicy)
        ensures
            !r.require_binaries,
            r.allowed_providers@.len() == 0,
            r.max_restarts == 3,
            r.loopback_only,
    {
        MixnetCorePolicy { require_binaries: false, allowed_providers: Vec::new(), max_restarts: 3, loopback_only: true }
    }
}

/// Credentials of a mixnet profile: a Nym profile has them exactly when its
/// configuration holds a `mnemonic` key or a `credential` key (either one
/// suffices, and one without configuration has none); a plugin profile has
/// them exactly when its plugin id is not nil. More configuration keys never
/// take credentials away.
pub proof fn law_mixnet_credentials(profile: MixnetProfile, more: Seq<Seq<char>>)
    ensures
        profile.provider == MixnetProvider::Nym && profile.config_keys is None ==> !spec_has_credentials(profile),
        profile.provider == MixnetProvider::Nym && profile.config_keys is Some ==> (spec_has_credentials(profile)
            <==> (texts(profile.config_keys->Some_0@).contains("credential"@) || texts(
            profile.config_keys->Some_0@,
        ).contains("mnemonic"@))),
        profile.provider matches MixnetProvider::Plugin(id) ==> (spec_has_credentials(profile) <==> id != 0),
        profile.provider == MixnetProvider::Nym && profile.config_keys is Some && spec_has_credentials(profile)
            ==> ((texts(profile.config_keys->Some_0@) + more).contains("credential"@) || (texts(
            profile.config_keys->Some_0@,
        ) + more).contains("mnemonic"@)),
{
    if profile.provider == MixnetProvider::Nym && profile.config_keys is Some && spec_has_credentials(profile) {
        let t = texts(profile.config_keys->Some_0@);
        if t.contains("credential"@) {
            let k = choose|k: int| 0 <= k < t.len() && t[k] == "credential"@;
            assert((t + more)[k] == "credential"@);
        } else {
            let k = choose|k: int| 0 <= k < t.len() && t[k] == "mnemonic"@;
            assert((t + more)[k] == "mnemonic"@);
        }
    }
}

} // verus!
