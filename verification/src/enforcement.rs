//! Enforcement backend selection and the driver mapping derived from it.

use vstd::prelude::*;
use crate::text::{lemma_trim_char_unchanged, str_eq, trim_char, trim_matches_char};
use crate::json::{decode_json_string, json_string_literal, json_string_value, may_open_json_string};

verus! {

/// Which enforcement stack the service drives.
#[derive(Debug, Clone, Copy, PartialEq, Eq, Structural)]
pub enum EnforcementBackend {
    /// Signed userspace stack: WFP, WinDivert and sing-box.
    Signed,
    /// Custom kernel drivers (Guardian WFP callout and NDIS filter).
    CustomKernel,
}

/// Guardian kernel mode.
#[derive(Debug, Clone, Copy, PartialEq, Eq, Structural)]
pub enum GuardianMode {
    Wfp,
    Hybrid,
    Ndis,
}

pub open spec fn backend_text(b: EnforcementBackend) -> Seq<char> {
    match b {
        EnforcementBackend::Signed => "signed"@,
        EnforcementBackend::CustomKernel => "custom_kernel"@,
    }
}

pub open spec fn spec_parse_backend(s: Seq<char>) -> EnforcementBackend {
    if s == "custom_kernel"@ {
        EnforcementBackend::CustomKernel
    } else {
        EnforcementBackend::Signed
    }
}

pub open spec fn guardian_text(m: GuardianMode) -> Seq<char> {
    match m {
        GuardianMode::Wfp => "wfp"@,
        GuardianMode::Hybrid => "hybrid"@,
        GuardianMode::Ndis => "ndis"@,
    }
}

pub open spec fn spec_parse_guardian(s: Seq<char>) -> GuardianMode {
    if s == "hybrid"@ {
        GuardianMode::Hybrid
    } else if s == "ndis"@ {
        GuardianMode::Ndis
    } else {
        GuardianMode::Wfp
    }
}

impl EnforcementBackend {
    pub fn as_str(&self) -> (r: &'static str)
        ensures
            r@ == backend_text(*self),
    {
        match self {
            EnforcementBackend::Signed => "signed",
            EnforcementBackend::CustomKernel => "custom_kernel",
        }
    }

    /// Parses a stored backend name; anything unknown is the signed stack.
    pub fn parse(s: &str) -> (r: EnforcementBackend)
        ensures
            r == spec_parse_backend(s@),
    {
        if str_eq(s, "custom_kernel") {
            EnforcementBackend::CustomKernel
        } else {
            EnforcementBackend::Signed
        }
    }
}

impl GuardianMode {
    pub fn as_str(&self) -> (r: &'static str)
        ensures
            r@ == guardian_text(*self),
    {
        match self {
            GuardianMode::Wfp => "wfp",
            GuardianMode::Hybrid => "hybrid",
            GuardianMode::Ndis => "ndis",
        }
    }

    /// Parses a stored guardian mode; anything unknown is plain WFP.
    pub fn parse(s: &str) -> (r: GuardianMode)
        ensures
            r == spec_parse_guardian(s@),
    {
        if str_eq(s, "hybrid") {
            GuardianMode::Hybrid
        } else if str_eq(s, "ndis") {
            GuardianMode::Ndis
        } else {
            GuardianMode::Wfp
        }
    }

    /// Whether the NDIS filter driver takes part in this mode.
    pub fn uses_ndis(&self) -> (r: bool)
        ensures
            r == (*self == GuardianMode::Hybrid || *self == GuardianMode::Ndis),
    {
        match self {
            GuardianMode::Wfp => false,
            _ => true,
        }
    }
}

/// Guardian mode derived from a backend.
pub open spec fn guardian_for(b: EnforcementBackend) -> GuardianMode {
    match b {
        EnforcementBackend::Signed => GuardianMode::Wfp,
        EnforcementBackend::CustomKernel => GuardianMode::Hybrid,
    }
}

/// WFP engine derived from a backend.
pub open spec fn engine_for(b: EnforcementBackend) -> Seq<char> {
    match b {
        EnforcementBackend::Signed => "userspace"@,
        EnforcementBackend::CustomKernel => "kernel"@,
    }
}

/// Low-level driver settings that follow from a backend.
pub struct EnforcementMapping {
    pub backend: EnforcementBackend,
    pub guardian_mode: GuardianMode,
    pub wfp_engine_impl: &'static str,
    pub use_windivert: bool,
}

impl EnforcementMapping {
    /// Signed: WFP guardian, userspace engine, WinDivert datapath. Custom kernel:
    /// hybrid guardian, kernel engine, no WinDivert.
    pub fn from_backend(backend: EnforcementBackend) -> (r: EnforcementMapping)
        ensures
            r.backend == backend,
            r.guardian_mode == guardian_for(backend),
            r.wfp_engine_impl@ == engine_for(backend),
            r.use_windivert == (backend == EnforcementBackend::Signed),
    {
        match backend {
            EnforcementBackend::Signed => EnforcementMapping {
                backend,
                guardian_mode: GuardianMode::Wfp,
                wfp_engine_impl: "userspace",
                use_windivert: true,
            },
            EnforcementBackend::CustomKernel => EnforcementMapping {
                backend,
                guardian_mode: GuardianMode::Hybrid,
                wfp_engine_impl: "kernel",
                use_windivert: false,
            },
        }
    }
}

/// Backend named by a persisted `enforcement_backend` setting: the setting is
/// JSON-decoded when it is a JSON string, stripped of quotes, then parsed.
pub open spec fn spec_stored_backend(raw: Seq<char>) -> EnforcementBackend {
    let decoded = match json_string_value(raw) {
        Some(v) => v,
        None => raw,
    };
    spec_parse_backend(trim_char(decoded, '"'))
}

/// Backend inferred on installs that predate the setting: the custom kernel
/// stack when the kernel engine or a hybrid/NDIS guardian mode was chosen.
pub open spec fn spec_legacy_backend(guardian: Seq<char>, engine: Seq<char>) -> EnforcementBackend {
    if engine == "kernel"@ || guardian == "hybrid"@ || guardian == "ndis"@ {
        EnforcementBackend::CustomKernel
    } else {
        EnforcementBackend::Signed
    }
}

/// The forms in which a backend choice may have been persisted: its name, or its
/// name as a JSON string literal.
pub open spec fn stored_form(raw: Seq<char>, b: EnforcementBackend) -> bool {
    raw == backend_text(b) || raw == json_string_literal(backend_text(b))
}

/// Backend of a persisted `enforcement_backend` setting. A backend persisted
/// by name, plain or as a JSON string, reads back as itself.
pub fn backend_from_stored(raw: &str) -> (r: EnforcementBackend)
    ensures
        r == spec_stored_backend(raw@),
        forall|b: EnforcementBackend| #[trigger] stored_form(raw@, b) ==> r == b,
{
    let decoded = match decode_json_string(raw) {
        Some(v) => v,
        None => String::from_str(raw),
    };
    proof {
        reveal_strlit("signed");
        reveal_strlit("custom_kernel");
        assert forall|b: EnforcementBackend| #[trigger] stored_form(raw@, b) implies decoded@ == backend_text(b) by {
            if raw@ == json_string_literal(backend_text(b)) {
            } else {
                assert(raw@ == backend_text(b));
                assert(!may_open_json_string(raw@[0]));
            }
        }
        assert forall|b: EnforcementBackend| #[trigger] stored_form(raw@, b) implies spec_parse_backend(
            trim_char(decoded@, '"'),
        ) == b by {
            lemma_trim_char_unchanged(backend_text(b), '"');
            assert("signed"@.len() != "custom_kernel"@.len());
        }
    }
    let trimmed = trim_matches_char(decoded.as_str(), '"');
    EnforcementBackend::parse(trimmed.as_str())
}

/// Backend inferred from the legacy `guardian_mode` and `wfp_engine_impl` settings.
pub fn backend_from_legacy(guardian_mode: &str, wfp_engine_impl: &str) -> (r: EnforcementBackend)
    ensures
        r == spec_legacy_backend(guardian_mode@, wfp_engine_impl@),
{
    if str_eq(wfp_engine_impl, "kernel") || str_eq(guardian_mode, "hybrid") || str_eq(guardian_mode, "ndis") {
        EnforcementBackend::CustomKernel
    } else {
        EnforcementBackend::Signed
    }
}

/// Mapping in force: from the persisted backend when there is one, else from the
/// legacy settings. `None` asks the caller for the legacy settings (read only
/// when no backend was persisted).
pub fn resolve_mapping(stored: Option<&str>, legacy: Option<(&str, &str)>) -> (r: Option<EnforcementMapping>)
    ensures
        match stored {
            Some(raw) => r matches Some(m) && m.backend == spec_stored_backend(raw@),
            None => match legacy {
                Some((g, e)) => r matches Some(m) && m.backend == spec_legacy_backend(g@, e@),
                None => r.is_none(),
            },
        },
        r matches Some(m) ==> m.guardian_mode == guardian_for(m.backend) && m.wfp_engine_impl@ == engine_for(
            m.backend,
        ) && m.use_windivert == (m.backend == EnforcementBackend::Signed),
        stored matches Some(raw) ==> forall|b: EnforcementBackend|
            #[trigger] stored_form(raw@, b) ==> (r matches Some(m) && m.backend == b),
{
    match stored {
        Some(raw) => Some(EnforcementMapping::from_backend(backend_from_stored(raw))),
        None => match legacy {
            Some((g, e)) => Some(EnforcementMapping::from_backend(backend_from_legacy(g, e))),
            None => None,
        },
    }
}

/// Setting values persisted for a backend choice: the backend name, the derived
/// guardian mode and the derived WFP engine.
pub struct BackendSettings {
    pub enforcement_backend: &'static str,
    pub guardian_mode: &'static str,
    pub wfp_engine_impl: &'static str,
}

pub fn apply_backend(backend: EnforcementBackend) -> (r: BackendSettings)
    ensures
        r.enforcement_backend@ == backend_text(backend),
        r.guardian_mode@ == guardian_text(guardian_for(backend)),
        r.wfp_engine_impl@ == engine_for(backend),
{
    let mapping = EnforcementMapping::from_backend(backend);
    BackendSettings {
        enforcement_backend: mapping.backend.as_str(),
        guardian_mode: mapping.guardian_mode.as_str(),
        wfp_engine_impl: mapping.wfp_engine_impl,
    }
}

/// Coordinates userspace WFP policy with the WinDivert datapath in signed mode.
pub struct SignedEnforcementCoordinator;

impl SignedEnforcementCoordinator {
    pub fn description() -> (r: &'static str)
        ensures
            r@ == "userspace WFP + WinDivert redirect/transform + sing-box TUN (subprocess)"@,
    {
        "userspace WFP + WinDivert redirect/transform + sing-box TUN (subprocess)"
    }
}

/// Health label of an enforcement component.
pub fn component_status(ok: bool, unused: bool) -> (r: String)
    ensures
        r@ == (if unused {
            "not_used"@
        } else if ok {
            "healthy"@
        } else {
            "unavailable"@
        }),
{
    if unused {
        String::from_str("not_used")
    } else if ok {
        String::from_str("healthy")
    } else {
        String::from_str("unavailable")
    }
}

/// Health of each enforcement component.
pub struct EnforcementComponentsHealth {
    pub wfp: String,
    pub wireguard: String,
    pub windivert: String,
    pub singbox: String,
    pub guardian: String,
    pub ndis: String,
}

pub struct EnforcementSettingsResponse {
    pub enforcement_backend: EnforcementBackend,
    pub guardian_mode: GuardianMode,
    pub wfp_engine_impl: String,
    pub components: EnforcementComponentsHealth,
    pub restart_required: bool,
}

/// Probed state of the enforcement components.
pub struct EnforcementProbe {
    pub wfp_driver_running: bool,
    pub ndis_available: bool,
    pub guardian_available: bool,
    pub windivert_available: bool,
    pub singbox_running: bool,
}

fn availability(ok: bool) -> (r: String)
    ensures
        r@ == (if ok { "healthy"@ } else { "unavailable"@ }),
{
    if ok {
        String::from_str("healthy")
    } else {
        String::from_str("unavailable")
    }
}

/// Current enforcement settings and component health. WinDivert only matters
/// to the signed stack and the Guardian driver only to the custom kernel stack.
pub fn enforcement_settings(mapping: &EnforcementMapping, wfp_engine: String, probe: &EnforcementProbe) -> (r:
    EnforcementSettingsResponse)
    ensures
        r.enforcement_backend == mapping.backend,
        r.guardian_mode == mapping.guardian_mode,
        r.wfp_engine_impl@ == wfp_engine@,
        r.components.wfp@ == (if probe.wfp_driver_running { "healthy"@ } else { "unavailable"@ }),
        r.components.wireguard@ == "healthy"@,
        r.components.windivert@ == (if mapping.backend == EnforcementBackend::Signed {
            if probe.windivert_available { "healthy"@ } else { "unavailable"@ }
        } else {
            "not_used"@
        }),
        r.components.singbox@ == (if probe.singbox_running { "running"@ } else { "stopped"@ }),
        r.components.guardian@ == (if mapping.backend == EnforcementBackend::Signed {
            "not_used"@
        } else if probe.guardian_available {
            "healthy"@
        } else {
            "unavailable"@
        }),
        r.components.ndis@ == (if probe.ndis_available { "healthy"@ } else { "unavailable"@ }),
        !r.restart_required,
{
    let signed = match mapping.backend {
        EnforcementBackend::Signed => true,
        EnforcementBackend::CustomKernel => false,
    };
    let components = EnforcementComponentsHealth {
        wfp: component_status(probe.wfp_driver_running, false),
        wireguard: component_status(true, false),
        windivert: if signed {
            availability(probe.windivert_available)
        } else {
            String::from_str("not_used")
        },
        singbox: if probe.singbox_running {
            String::from_str("running")
        } else {
            String::from_str("stopped")
        },
        guardian: if signed {
            String::from_str("not_used")
        } else {
            availability(probe.guardian_available)
        },
        ndis: availability(probe.ndis_available),
    };
    EnforcementSettingsResponse {
        enforcement_backend: mapping.backend,
        guardian_mode: mapping.guardian_mode,
        wfp_engine_impl: wfp_engine,
        components,
        restart_required: false,
    }
}

/// Answer to a backend change: the derived settings, every component pending
/// (WireGuard available) and a restart required.
pub fn enforcement_settings_after_change(backend: EnforcementBackend) -> (r: EnforcementSettingsResponse)
    ensures
        r.enforcement_backend == backend,
        r.guardian_mode == guardian_for(backend),
        r.wfp_engine_impl@ == engine_for(backend),
        r.components.wfp@ == "pending"@,
        r.components.wireguard@ == "available"@,
        r.components.windivert@ == "pending"@,
        r.components.singbox@ == "pending"@,
        r.components.guardian@ == "pending"@,
        r.components.ndis@ == "pending"@,
        r.restart_required,
{
    let mapping = EnforcementMapping::from_backend(backend);
    EnforcementSettingsResponse {
        enforcement_backend: backend,
        guardian_mode: mapping.guardian_mode,
        wfp_engine_impl: String::from_str(mapping.wfp_engine_impl),
        components: EnforcementComponentsHealth {
            wfp: String::from_str("pending"),
            wireguard: String::from_str("available"),
            windivert: String::from_str("pending"),
            singbox: String::from_str("pending"),
            guardian: String::from_str("pending"),
            ndis: String::from_str("pending"),
        },
        restart_required: true,
    }
}

/// A persisted backend reads back as itself.
pub proof fn law_backend_round_trip(b: EnforcementBackend)
    ensures
        spec_parse_backend(backend_text(b)) == b,
{
    reveal_strlit("signed");
    reveal_strlit("custom_kernel");
    assert("signed"@.len() != "custom_kernel"@.len());
}

/// A persisted guardian mode reads back as itself.
pub proof fn law_guardian_round_trip(m: GuardianMode)
    ensures
        spec_parse_guardian(guardian_text(m)) == m,
{
    reveal_strlit("wfp");
    reveal_strlit("hybrid");
    reveal_strlit("ndis");
    assert("wfp"@.len() != "hybrid"@.len());
    assert("wfp"@.len() != "ndis"@.len());
    assert("ndis"@.len() != "hybrid"@.len());
}

/// An install that predates the backend setting runs the custom kernel stack
/// exactly when its guardian mode uses NDIS (hybrid or NDIS mode) or its WFP
/// engine is the kernel engine; and the legacy settings that choosing a backend
/// writes read back as that backend.
pub proof fn law_legacy_backend(m: GuardianMode, engine: Seq<char>, b: EnforcementBackend)
    ensures
        spec_legacy_backend(guardian_text(m), engine) == EnforcementBackend::CustomKernel <==> (m
            == GuardianMode::Hybrid || m == GuardianMode::Ndis || engine == "kernel"@),
        spec_legacy_backend("ndis"@, engine) == EnforcementBackend::CustomKernel,
        spec_legacy_backend("hybrid"@, engine) == EnforcementBackend::CustomKernel,
        spec_legacy_backend(guardian_text(guardian_for(b)), engine_for(b)) == b,
{
    reveal_strlit("wfp");
    reveal_strlit("hybrid");
    reveal_strlit("ndis");
    reveal_strlit("kernel");
    reveal_strlit("userspace");
    assert("wfp"@.len() != "hybrid"@.len());
    assert("wfp"@.len() != "ndis"@.len());
    assert("userspace"@.len() != "kernel"@.len());
}

} // verus!
