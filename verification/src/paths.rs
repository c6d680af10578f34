//! Where the service finds its helper binaries and keeps its configuration.

use vstd::prelude::*;
use crate::ids::{uuid_text, uuid_to_string};
use crate::text::to_owned_string;

verus! {

/// A path component that `Path::join` appends as it is on every platform:
/// not empty, not `.` or `..`, and without `/`, `\` or `:`.
pub open spec fn plain_component(c: Seq<char>) -> bool {
    &&& c.len() > 0
    &&& !(c.len() == 1 && c[0] == '.')
    &&& !(c.len() == 2 && c[0] == '.' && c[1] == '.')
    &&& !c.contains('/')
    &&& !c.contains('\\')
    &&& !c.contains(':')
}

/// Whether `c` separates path components on some platform.
pub open spec fn is_separator(c: char) -> bool {
    c == '/' || c == '\\'
}

/// A base path to which `Path::join` appends a plain component as text: not
/// empty, not a bare drive such as `C:`, not a lone `\\` (a root on Windows,
/// a file name elsewhere), and not opening with two separators (a UNC,
/// device or verbatim prefix on Windows, which Windows rebuilds when joining).
pub open spec fn joinable_base(b: Seq<char>) -> bool {
    &&& b.len() > 0
    &&& !(b.len() == 2 && b[1] == ':')
    &&& !(b.len() == 1 && b[0] == '\\')
    &&& !(b.len() >= 2 && is_separator(b[0]) && is_separator(b[1]))
}

/// `part` joined to `base`: after a base ending in `/`, `part` directly; after
/// one ending in `\\`, `part` directly (Windows) or after a `/` (elsewhere);
/// otherwise a separator of the platform (`/` or `\\`), then `part`.
pub open spec fn joined(base: Seq<char>, part: Seq<char>, r: Seq<char>) -> bool {
    if base.len() > 0 && base.last() == '/' {
        r == base + part
    } else if base.len() > 0 && base.last() == '\\' {
        r == base + part || r == base + seq!['/'] + part
    } else {
        r == base + seq!['/'] + part || r == base + seq!['\\'] + part
    }
}

/// `std::path::Path::join`, as text. The separator it inserts, and whether
/// `\` already counts as one, is the platform's (`\` on Windows, `/`
/// elsewhere), so the contract states the result up to that choice (`joined`),
/// for a joinable base and a plain component; other inputs (absolute or
/// prefixed parts, UNC, device and verbatim bases, bare drives) are left
/// unsaid.
#[verifier::external_body]
pub(crate) fn path_join(base: &str, part: &str) -> (r: String)
    ensures
        joinable_base(base@) && plain_component(part@) ==> joined(base@, part@, r@),
{
    std::path::Path::new(base).join(part).to_string_lossy().into_owned()
}

proof fn lemma_joined_base(base: Seq<char>, part: Seq<char>, r: Seq<char>)
    requires
        joinable_base(base),
        joined(base, part, r),
        plain_component(part),
    ensures
        joinable_base(r),
        r.len() >= base.len() + part.len(),
        r.subrange(r.len() - part.len(), r.len() as int) == part,
        r.subrange(0, base.len() as int) == base,
{
    let sep_len: int = (r.len() - base.len() - part.len()) as int;
    assert(0 <= sep_len <= 1);
    assert(r.subrange(r.len() - part.len(), r.len() as int) =~= part);
    assert(r.subrange(0, base.len() as int) =~= base);
    assert(r[0] == base[0]);
    if base.len() >= 2 {
        assert(r[1] == base[1]);
    } else {
        if sep_len == 0 {
            assert(r[1] == part[0]);
            assert(part.contains(part[0]));
        } else {
            assert(base[0] != '\\');
            assert(base.last() == base[0]);
        }
    }
    if r.len() == 2 {
        assert(r[1] == part.last());
        assert(part.contains(part.last()));
    }
    assert(part.contains(part[0]));
}

/// Directory of the service executable: its parent directory, or `.` where it
/// cannot be found.
pub fn exe_dir(parent: Option<&str>) -> (r: String)
    ensures
        r@ == match parent {
            Some(p) => p@,
            None => "."@,
        },
{
    match parent {
        Some(p) => to_owned_string(p),
        None => String::from_str("."),
    }
}

/// `resources` below the executable's directory where that is a directory,
/// else the executable's directory.
pub fn resources_dir(exe_dir: &str, resources_is_dir: bool) -> (r: String)
    ensures
        !resources_is_dir ==> r@ == exe_dir@,
        resources_is_dir && joinable_base(exe_dir@) ==> joined(exe_dir@, "resources"@, r@),
{
    if resources_is_dir {
        proof {
            reveal_strlit("resources");
        }
        path_join(exe_dir, "resources")
    } else {
        to_owned_string(exe_dir)
    }
}

/// The filesystem facts a binary lookup depends on.
pub struct BinaryProbe {
    /// Directory of the service executable.
    pub exe_dir: String,
    /// Whether `resources` below it is a directory.
    pub resources_is_dir: bool,
    /// Whether the binary exists below the resources directory.
    pub in_resources_exists: bool,
    /// Whether the binary exists beside the executable.
    pub beside_exe_exists: bool,
    /// Whether the override path, where one is given, exists.
    pub override_exists: bool,
    /// Whether the path the environment variable names, where it is set, exists.
    pub env_exists: bool,
}

/// Where a binary is looked for: below the resources directory, and beside the
/// executable.
pub fn binary_candidates(name: &str, exe_dir: &str, resources_is_dir: bool) -> (r: (String, String))
    ensures
        joinable_base(exe_dir@) && plain_component(name@) ==> {
            &&& joined(exe_dir@, name@, r.1@)
            &&& in_resources_path(exe_dir@, resources_is_dir, name@, r.0@)
        },
{
    let dir = resources_dir(exe_dir, resources_is_dir);
    proof {
        reveal_strlit("resources");
        if joinable_base(exe_dir@) && resources_is_dir {
            lemma_joined_base(exe_dir@, "resources"@, dir@);
        }
    }
    (path_join(dir.as_str(), name), path_join(exe_dir, name))
}

/// `p` is binary `name` below the resources directory: `exe_dir/resources/name`
/// where `resources` is a directory, else `exe_dir/name`.
pub open spec fn in_resources_path(exe_dir: Seq<char>, resources_is_dir: bool, name: Seq<char>, p: Seq<char>) -> bool {
    if resources_is_dir {
        exists|d: Seq<char>| joined(exe_dir, "resources"@, d) && joined(d, name, p)
    } else {
        joined(exe_dir, name, p)
    }
}

/// The first existing path among the override, the environment variable's
/// path, the binary below the resources directory and the binary beside the
/// executable; where none exists, the path below the resources directory.
pub open spec fn spec_choose_binary(
    override_path: Option<Seq<char>>,
    override_exists: bool,
    env_value: Option<Seq<char>>,
    env_exists: bool,
    in_resources: Seq<char>,
    in_resources_exists: bool,
    beside_exe: Seq<char>,
    beside_exe_exists: bool,
) -> Seq<char> {
    if override_path is Some && override_exists {
        override_path->Some_0
    } else if env_value is Some && env_exists {
        env_value->Some_0
    } else if in_resources_exists {
        in_resources
    } else if beside_exe_exists {
        beside_exe
    } else {
        in_resources
    }
}

/// Text of an optional string slice.
pub open spec fn opt_text(o: Option<&str>) -> Option<Seq<char>> {
    match o {
        Some(s) => Some(s@),
        None => None,
    }
}

/// The first existing path among the override, the environment variable's
/// path, the binary below the resources directory and the binary beside the
/// executable; failing all, the path below the resources directory.
pub fn choose_binary(
    override_path: Option<&str>,
    override_exists: bool,
    env_value: Option<&str>,
    env_exists: bool,
    in_resources: String,
    in_resources_exists: bool,
    beside_exe: String,
    beside_exe_exists: bool,
) -> (r: String)
    ensures
        r@ == spec_choose_binary(
            opt_text(override_path),
            override_exists,
            opt_text(env_value),
            env_exists,
            in_resources@,
            in_resources_exists,
            beside_exe@,
            beside_exe_exists,
        ),
{
    if let Some(p) = override_path {
        if override_exists {
            return to_owned_string(p);
        }
    }
    if let Some(e) = env_value {
        if env_exists {
            return to_owned_string(e);
        }
    }
    if in_resources_exists {
        in_resources
    } else if beside_exe_exists {
        beside_exe
    } else {
        in_resources
    }
}

/// What a lookup of binary `name` gives, for the facts in `probe`: the first
/// existing path among the override, the environment variable's path, the
/// binary below the resources directory and the binary beside the executable;
/// failing all, the path below the resources directory. The two candidate
/// paths are stated for a joinable executable directory and a plain name.
pub open spec fn binary_resolution(
    name: Seq<char>,
    env_value: Option<Seq<char>>,
    override_path: Option<Seq<char>>,
    probe: BinaryProbe,
    r: Seq<char>,
) -> bool {
    if override_path is Some && probe.override_exists {
        r == override_path->Some_0
    } else if env_value is Some && probe.env_exists {
        r == env_value->Some_0
    } else if joinable_base(probe.exe_dir@) && plain_component(name) {
        if probe.in_resources_exists || !probe.beside_exe_exists {
            in_resources_path(probe.exe_dir@, probe.resources_is_dir, name, r)
        } else {
            joined(probe.exe_dir@, name, r)
        }
    } else {
        true
    }
}

/// Path of a helper binary `name`, whose location the environment variable
/// may set (`env_value` is its value).
pub fn resolve_binary(name: &str, env_value: Option<&str>, override_path: Option<&str>, probe: &BinaryProbe) -> (r:
    String)
    ensures
        binary_resolution(name@, opt_text(env_value), opt_text(override_path), *probe, r@),
{
    let (in_resources, beside_exe) = binary_candidates(name, probe.exe_dir.as_str(), probe.resources_is_dir);
    choose_binary(
        override_path,
        probe.override_exists,
        env_value,
        probe.env_exists,
        in_resources,
        probe.in_resources_exists,
        beside_exe,
        probe.beside_exe_exists,
    )
}

/// The sing-box binary: `resolve_binary` for `sing-box.exe`, whose environment
/// variable is `WIRESENTINEL_SINGBOX_EXE`.
pub fn resolve_singbox_exe(override_path: Option<&str>, env_value: Option<&str>, probe: &BinaryProbe) -> (r: String)
    ensures
        binary_resolution("sing-box.exe"@, opt_text(env_value), opt_text(override_path), *probe, r@),
        plain_component("sing-box.exe"@),
{
    proof {
        reveal_strlit("sing-box.exe");
        assert(plain_component("sing-box.exe"@));
    }
    resolve_binary("sing-box.exe", env_value, override_path, probe)
}

/// Environment variable that sets the sing-box binary.
pub fn singbox_env_var() -> (r: &'static str)
    ensures
        r@ == "WIRESENTINEL_SINGBOX_EXE"@,
{
    "WIRESENTINEL_SINGBOX_EXE"
}

/// The Tor binary: `resolve_binary` for `tor.exe`, whose environment variable
/// is `WIRESENTINEL_TOR_EXE`.
pub fn resolve_tor_exe(override_path: Option<&str>, env_value: Option<&str>, probe: &BinaryProbe) -> (r: String)
    ensures
        binary_resolution("tor.exe"@, opt_text(env_value), opt_text(override_path), *probe, r@),
        plain_component("tor.exe"@),
{
    proof {
        reveal_strlit("tor.exe");
        assert(plain_component("tor.exe"@));
    }
    resolve_binary("tor.exe", env_value, override_path, probe)
}

/// Environment variable that sets the Tor binary.
pub fn tor_env_var() -> (r: &'static str)
    ensures
        r@ == "WIRESENTINEL_TOR_EXE"@,
{
    "WIRESENTINEL_TOR_EXE"
}

pub(crate) proof fn lemma_uuid_text_plain(id: u128)
    ensures
        plain_component(uuid_text(id)),
{
    let t = uuid_text(id);
    assert forall|i: int| 0 <= i < 32 implies #[trigger] crate::ids::id_hex32(id)[i] != '/'
        && crate::ids::id_hex32(id)[i] != '\\' && crate::ids::id_hex32(id)[i] != ':' by {
        let n = crate::ids::id_nibble(id, i);
        assert(0 <= n < 16);
    }
    assert forall|c: char| c == '/' || c == '\\' || c == ':' implies !t.contains(c) by {
        if t.contains(c) {
            let j = choose|j: int| 0 <= j < t.len() && t[j] == c;
            let h = crate::ids::id_hex32(id);
            if j < 8 {
                assert(t[j] == h[j]);
            } else if j == 8 || j == 13 || j == 18 || j == 23 {
            } else if j < 13 {
                assert(t[j] == h[j - 1]);
            } else if j < 18 {
                assert(t[j] == h[j - 2]);
            } else if j < 23 {
                assert(t[j] == h[j - 3]);
            } else {
                assert(t[j] == h[j - 4]);
            }
        }
    }
}

/// Data directory of a Tor profile: below `%PROGRAMDATA%\WireSentinel\tor` on
/// Windows (`C:\ProgramData\WireSentinel\tor` where the variable is unset),
/// below `/tmp/WireSentinel/tor` elsewhere; the last component is the profile
/// id in hyphenated form.
pub fn default_tor_data_dir(profile_id: u128, is_windows: bool, program_data: Option<&str>) -> (r: String)
    ensures
        !is_windows ==> joined("/tmp/WireSentinel/tor"@, uuid_text(profile_id), r@),
        is_windows ==> match program_data {
            None => joined("C:\\ProgramData\\WireSentinel\\tor"@, uuid_text(profile_id), r@),
            Some(p) => joinable_base(p@) ==> exists|d: Seq<char>, e: Seq<char>|
                joined(p@, "WireSentinel"@, d) && joined(d, "tor"@, e) && joined(e, uuid_text(profile_id), r@),
        },
        (!is_windows || match program_data {
            Some(p) => joinable_base(p@),
            None => true,
        }) ==> r@.len() >= 36 && r@.subrange(r@.len() - 36, r@.len() as int) == uuid_text(profile_id),
{
    let id = uuid_to_string(profile_id);
    proof {
        lemma_uuid_text_plain(profile_id);
        reveal_strlit("/tmp/WireSentinel/tor");
        reveal_strlit("C:\\ProgramData\\WireSentinel\\tor");
        reveal_strlit("WireSentinel");
        reveal_strlit("tor");
        assert(plain_component("WireSentinel"@));
        assert(plain_component("tor"@));
    }
    if is_windows {
        match program_data {
            Some(p) => {
                let a = path_join(p, "WireSentinel");
                proof {
                    if joinable_base(p@) {
                        lemma_joined_base(p@, "WireSentinel"@, a@);
                    }
                }
                let b = path_join(a.as_str(), "tor");
                proof {
                    if joinable_base(p@) {
                        lemma_joined_base(a@, "tor"@, b@);
                    }
                }
                let r = path_join(b.as_str(), id.as_str());
                proof {
                    if joinable_base(p@) {
                        lemma_joined_base(b@, id@, r@);
                    }
                }
                r
            },
            None => {
                let r = path_join("C:\\ProgramData\\WireSentinel\\tor", id.as_str());
                proof {
                    lemma_joined_base("C:\\ProgramData\\WireSentinel\\tor"@, id@, r@);
                }
                r
            },
        }
    } else {
        let r = path_join("/tmp/WireSentinel/tor", id.as_str());
        proof {
            lemma_joined_base("/tmp/WireSentinel/tor"@, id@, r@);
        }
        r
    }
}

/// Configuration directory: `%PROGRAMDATA%\WireSentinel` on Windows
/// (`C:\ProgramData\WireSentinel` where the variable is unset),
/// `/tmp/WireSentinel` elsewhere.
pub fn config_dir(is_windows: bool, program_data: Option<&str>) -> (r: String)
    ensures
        !is_windows ==> r@ == "/tmp/WireSentinel"@,
        is_windows ==> match program_data {
            None => r@ == "C:\\ProgramData\\WireSentinel"@,
            Some(p) => joinable_base(p@) ==> joined(p@, "WireSentinel"@, r@),
        },
{
    if is_windows {
        match program_data {
            Some(p) => {
                proof {
                    reveal_strlit("WireSentinel");
                    assert(plain_component("WireSentinel"@));
                }
                path_join(p, "WireSentinel")
            },
            None => String::from_str("C:\\ProgramData\\WireSentinel"),
        }
    } else {
        String::from_str("/tmp/WireSentinel")
    }
}

/// `config.json` in the configuration directory.
pub fn config_path(config_dir: &str) -> (r: String)
    ensures
        joinable_base(config_dir@) ==> joined(config_dir@, "config.json"@, r@),
{
    proof {
        reveal_strlit("config.json");
        assert(plain_component("config.json"@));
    }
    path_join(config_dir, "config.json")
}

/// `tunnels` in the configuration directory.
pub fn tunnels_dir(config_dir: &str) -> (r: String)
    ensures
        joinable_base(config_dir@) ==> joined(config_dir@, "tunnels"@, r@),
{
    proof {
        reveal_strlit("tunnels");
        assert(plain_component("tunnels"@));
    }
    path_join(config_dir, "tunnels")
}

/// DPAPI-protected configuration storage.
pub struct ConfigStore;

impl ConfigStore {
    /// File name of a protected tunnel configuration: `{name}.conf.dpapi`.
    pub fn tunnel_file_name(name: &str) -> (r: String)
        ensures
            r@ == name@ + ".conf.dpapi"@,
    {
        let mut s = to_owned_string(name);
        s.append(".conf.dpapi");
        s
    }

    /// Path of a protected tunnel configuration in the tunnels directory.
    pub fn tunnel_config_path(tunnels_dir: &str, name: &str) -> (r: String)
        ensures
            joinable_base(tunnels_dir@) && plain_component(name@) ==> joined(
                tunnels_dir@,
                name@ + ".conf.dpapi"@,
                r@,
            ),
    {
        let file = Self::tunnel_file_name(name);
        proof {
            reveal_strlit(".conf.dpapi");
            if plain_component(name@) {
                assert(plain_component(file@)) by {
                    assert forall|c: char| c == '/' || c == '\\' || c == ':' implies !file@.contains(c) by {
                        if file@.contains(c) {
                            let j = choose|j: int| 0 <= j < file@.len() && file@[j] == c;
                            if j < name@.len() {
                                assert(name@[j] == c);
                            }
                        }
                    }
                }
            }
        }
        path_join(tunnels_dir, file.as_str())
    }
}

} // verus!
