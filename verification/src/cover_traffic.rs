//! Cover traffic: which settings start, which profile is active, and when the
//! adaptive engine runs.

use vstd::prelude::*;
use crate::error::ServiceError;
use crate::ids::{uuid_text, uuid_to_string};

verus! {

/// Intensity of generated cover traffic.
#[derive(Debug, Clone, Copy, PartialEq, Eq, Structural)]
pub enum CoverTrafficProfile {
    Disabled,
    Low,
    Medium,
    High,
    Maximum,
}

/// Stored cover traffic settings, as far as the service decides on them.
pub struct CoverTrafficSettings {
    pub id: u128,
    pub mixnet_profile_id: Option<u128>,
    pub profile: CoverTrafficProfile,
    pub enabled: bool,
    /// Milliseconds since the epoch.
    pub created_at: i64,
    pub updated_at: i64,
}

/// Settings shown where none are stored: a new id, no mixnet profile,
/// `Disabled`, not enabled.
pub fn default_settings(id: u128, now: i64) -> (r: CoverTrafficSettings)
    ensures
        r.id == id,
        r.mixnet_profile_id.is_none(),
        r.profile == CoverTrafficProfile::Disabled,
        !r.enabled,
        r.created_at == now,
        r.updated_at == now,
{
    CoverTrafficSettings {
        id,
        mixnet_profile_id: None,
        profile: CoverTrafficProfile::Disabled,
        enabled: false,
        created_at: now,
        updated_at: now,
    }
}

/// Index of the first settings that are enabled with a profile other than
/// `Disabled`.
pub open spec fn first_startable(s: Seq<CoverTrafficSettings>) -> Option<int> {
    if exists|i: int| 0 <= i < s.len() && #[trigger] s[i].enabled && s[i].profile != CoverTrafficProfile::Disabled {
        Some(
            choose|i: int|
                0 <= i < s.len() && #[trigger] s[i].enabled && s[i].profile != CoverTrafficProfile::Disabled
                    && forall|j: int| 0 <= j < i ==> !(#[trigger] s[j].enabled && s[j].profile
                        != CoverTrafficProfile::Disabled),
        )
    } else {
        None
    }
}

/// The settings started at service start: the first enabled ones with a
/// profile other than `Disabled`, if any.
pub fn start_if_enabled(settings: &Vec<CoverTrafficSettings>) -> (r: Option<u128>)
    ensures
        match first_startable(settings@) {
            Some(i) => r == Some(settings@[i].id),
            None => r.is_none(),
        },
{
    let mut i: usize = 0;
    while i < settings.len()
        invariant
            i <= settings@.len(),
            forall|j: int| 0 <= j < i ==> !(#[trigger] settings@[j].enabled && settings@[j].profile
                != CoverTrafficProfile::Disabled),
        decreases settings@.len() - i,
    {
        if settings[i].enabled && settings[i].profile != CoverTrafficProfile::Disabled {
            proof {
                let s = settings@;
                let k = choose|k: int|
                    0 <= k < s.len() && #[trigger] s[k].enabled && s[k].profile != CoverTrafficProfile::Disabled
                        && forall|j: int| 0 <= j < k ==> !(#[trigger] s[j].enabled && s[j].profile
                            != CoverTrafficProfile::Disabled);
                assert(s[i as int].enabled);
                if k < i {
                } else if k > i {
                    assert(!(s[i as int].enabled && s[i as int].profile != CoverTrafficProfile::Disabled));
                }
            }
            return Some(settings[i].id);
        }
        i += 1;
    }
    None
}

/// Settings before they are stored: new ones (nil id) get `fresh_id` and are
/// created now; every write stamps the update time.
pub fn prepare_upsert(settings: CoverTrafficSettings, fresh_id: u128, now: i64) -> (r: CoverTrafficSettings)
    ensures
        settings.id == 0 ==> r.id == fresh_id && r.created_at == now,
        settings.id != 0 ==> r.id == settings.id && r.created_at == settings.created_at,
        r.updated_at == now,
        r.mixnet_profile_id == settings.mixnet_profile_id,
        r.profile == settings.profile,
        r.enabled == settings.enabled,
{
    let mut s = settings;
    if s.id == 0 {
        s.id = fresh_id;
        s.created_at = now;
    }
    s.updated_at = now;
    s
}

/// Event of the cover traffic service.
pub enum CoverTrafficEvent {
    Started { profile_id: u128 },
    Stopped { profile_id: u128, reason: String },
    AdaptiveUpdated { adaptive: bool },
}

/// Profile announced when cover traffic starts for `settings_id`: the
/// settings' mixnet profile, else the settings' own id.
pub open spec fn started_profile(settings_id: u128, mixnet_profile_id: Option<u128>) -> u128 {
    match mixnet_profile_id {
        Some(p) => p,
        None => settings_id,
    }
}

/// Profile announced when cover traffic stops: the active one, else the
/// settings id given.
pub open spec fn stopped_profile(active: Option<u128>, settings_id: u128) -> u128 {
    match active {
        Some(p) => p,
        None => settings_id,
    }
}

/// The cover traffic state the service keeps besides its engines.
pub struct CoverTrafficState {
    pub adaptive_enabled: bool,
    pub active_profile_id: Option<u128>,
}

impl CoverTrafficState {
    pub fn new() -> (r: CoverTrafficState)
        ensures
            !r.adaptive_enabled,
            r.active_profile_id.is_none(),
    {
        CoverTrafficState { adaptive_enabled: false, active_profile_id: None }
    }

    /// Sets adaptive mode; the change is announced.
    pub fn set_adaptive_mode(&mut self, enabled: bool) -> (r: CoverTrafficEvent)
        ensures
            final(self).adaptive_enabled == enabled,
            final(self).active_profile_id == old(self).active_profile_id,
            r == (CoverTrafficEvent::AdaptiveUpdated { adaptive: enabled }),
    {
        self.adaptive_enabled = enabled;
        CoverTrafficEvent::AdaptiveUpdated { adaptive: enabled }
    }

    /// Flips adaptive mode, returns the new setting and its announcement.
    pub fn toggle_adaptive_mode(&mut self) -> (r: (bool, CoverTrafficEvent))
        ensures
            r.0 == !old(self).adaptive_enabled,
            final(self).adaptive_enabled == r.0,
            final(self).active_profile_id == old(self).active_profile_id,
            r.1 == (CoverTrafficEvent::AdaptiveUpdated { adaptive: r.0 }),
    {
        let enabled = !self.adaptive_enabled;
        let e = self.set_adaptive_mode(enabled);
        (enabled, e)
    }

    /// Whether the adaptive engine must run: adaptive mode is on and the cover
    /// engine runs (else it is stopped).
    pub fn adaptive_should_run(&self, engine_running: bool) -> (r: bool)
        ensures
            r == (self.adaptive_enabled && engine_running),
    {
        self.adaptive_enabled && engine_running
    }

    /// After the engine started for `settings_id`: the active profile is the
    /// settings' mixnet profile, else the settings' own id; it is announced.
    pub fn started(&mut self, settings_id: u128, mixnet_profile_id: Option<u128>) -> (r: CoverTrafficEvent)
        ensures
            final(self).active_profile_id == Some(started_profile(settings_id, mixnet_profile_id)),
            final(self).adaptive_enabled == old(self).adaptive_enabled,
            r == (CoverTrafficEvent::Started { profile_id: final(self).active_profile_id.unwrap() }),
    {
        let profile_id = match mixnet_profile_id {
            Some(p) => p,
            None => settings_id,
        };
        self.active_profile_id = Some(profile_id);
        CoverTrafficEvent::Started { profile_id }
    }

    /// After the engines stopped: the announced profile is the active one, else
    /// `settings_id`; nothing is active any more.
    pub fn stopped(&mut self, settings_id: u128, reason: &str) -> (r: CoverTrafficEvent)
        ensures
            final(self).active_profile_id.is_none(),
            final(self).adaptive_enabled == old(self).adaptive_enabled,
            r matches CoverTrafficEvent::Stopped { profile_id, reason: m } && profile_id == stopped_profile(
                old(self).active_profile_id,
                settings_id,
            ) && m@ == reason@,
    {
        let profile_id = match self.active_profile_id {
            Some(p) => p,
            None => settings_id,
        };
        self.active_profile_id = None;
        CoverTrafficEvent::Stopped { profile_id, reason: String::from_str(reason) }
    }
}

/// Stopping cover traffic announces the profile its start announced, whatever
/// settings id the stop names.
pub proof fn law_stop_announces_started_profile(settings_id: u128, mixnet_profile_id: Option<u128>, stop_id: u128)
    ensures
        stopped_profile(Some(started_profile(settings_id, mixnet_profile_id)), stop_id) == started_profile(
            settings_id,
            mixnet_profile_id,
        ),
{
}

/// Error for settings that are not stored: `cover traffic settings {id} not found`.
pub fn settings_not_found(settings_id: u128) -> (r: ServiceError)
    ensures
        r matches ServiceError::Other(m) && m@ == "cover traffic settings "@ + uuid_text(settings_id) + " not found"@,
{
    let mut m = String::from_str("cover traffic settings ");
    m.append(uuid_to_string(settings_id).as_str());
    m.append(" not found");
    ServiceError::Other(m)
}

} // verus!
