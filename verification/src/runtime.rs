//! The runtime sidecar: the settings the program saves beside its
//! configuration file and lays over the configuration on the next start.
use vstd::prelude::*;
use crate::config::{ConfigError, ConnectionsUiConfig, ProxySetting};
use crate::connections_setting::{ConnectionsSetting, ui_config_of};
use crate::schema::{Config, Platform, UiConfig, config_outcome};
use crate::text::append_str;

verus! {

/// The sidecar format version this library reads and writes.
pub const RUNTIME_SCHEMA_VERSION: u16 = 1;

/// What `std::path::Path::file_name` gives for a path.
pub uninterp spec fn path_file_name(p: Seq<char>) -> Option<Seq<char>>;

/// What `std::path::Path::with_file_name` gives for a path and a file name.
pub uninterp spec fn path_with_file_name(p: Seq<char>, name: Seq<char>) -> Seq<char>;

/// What `std::path::Path::with_extension` gives for a path and an extension.
pub uninterp spec fn path_with_extension(p: Seq<char>, ext: Seq<char>) -> Seq<char>;

/// The view of an optional string.
pub open spec fn opt_view(o: Option<String>) -> Option<Seq<char>> {
    match o {
        Some(s) => Some(s@),
        None => None,
    }
}

/// Position of the last `.` in `s`, or -1.
pub open spec fn last_dot(s: Seq<char>) -> int
    decreases s.len(),
{
    if s.len() == 0 {
        -1
    } else if s.last() == '.' {
        s.len() - 1
    } else {
        last_dot(s.drop_last())
    }
}

/// The stem of a file name: the part before the last `.`, unless the only
/// `.` is the first character or there is none, where it is the whole name.
pub open spec fn stem_of(name: Seq<char>) -> Seq<char> {
    if last_dot(name) > 0 {
        name.take(last_dot(name))
    } else {
        name
    }
}

/// The extension of a file name: the part after the last `.`, under the same
/// exceptions as `stem_of`, where there is none.
pub open spec fn extension_of(name: Seq<char>) -> Option<Seq<char>> {
    if last_dot(name) > 0 {
        Some(name.skip(last_dot(name) + 1))
    } else {
        None
    }
}

/// Calls `std::path::Path::file_name`; the result is named `path_file_name`.
/// Path parsing is that of the platform the library is built for.
#[verifier::external_body]
fn file_name(p: &str) -> (r: Option<String>)
    ensures
        opt_view(r) == path_file_name(p@),
{
    match std::path::Path::new(p).file_name() {
        Some(n) => Some(n.to_string_lossy().into_owned()),
        None => None,
    }
}

/// Calls `std::path::Path::file_stem`. As its documentation states, the stem
/// is derived from the file name: none without one; the whole name when it
/// has no `.` or only a leading one; otherwise the part before the last `.`.
#[verifier::external_body]
fn file_stem(p: &str) -> (r: Option<String>)
    ensures
        opt_view(r) == match path_file_name(p@) {
            Some(n) => Some(stem_of(n)),
            None => None,
        },
{
    match std::path::Path::new(p).file_stem() {
        Some(n) => Some(n.to_string_lossy().into_owned()),
        None => None,
    }
}

/// Calls `std::path::Path::extension`. As its documentation states, the
/// extension is the part of the file name after the last `.`, and there is
/// none without a file name, without a `.` or with only a leading `.`.
#[verifier::external_body]
fn extension(p: &str) -> (r: Option<String>)
    ensures
        opt_view(r) == match path_file_name(p@) {
            Some(n) => extension_of(n),
            None => None,
        },
{
    match std::path::Path::new(p).extension() {
        Some(n) => Some(n.to_string_lossy().into_owned()),
        None => None,
    }
}

/// Calls `std::path::Path::with_file_name`; the result is named
/// `path_with_file_name`.
#[verifier::external_body]
fn with_file_name(p: &str, name: &str) -> (r: String)
    ensures
        r@ == path_with_file_name(p@, name@),
{
    std::path::Path::new(p).with_file_name(name).to_string_lossy().into_owned()
}

/// Calls `std::path::Path::with_extension`; the result is named
/// `path_with_extension`. The call panics when the extension holds a path
/// separator, so such extensions are left out.
#[verifier::external_body]
fn with_extension(p: &str, ext: &str) -> (r: String)
    requires
        !ext@.contains('/'),
        !ext@.contains('\\'),
    ensures
        r@ == path_with_extension(p@, ext@),
{
    std::path::Path::new(p).with_extension(ext).to_string_lossy().into_owned()
}

/// The sidecar path of a configuration file: `<stem>.runtime.<ext>` beside
/// it, or `<name>.runtime.yaml` when the name has no extension.
pub open spec fn runtime_path_spec(p: Seq<char>) -> Seq<char> {
    match path_file_name(p) {
        None => path_with_extension(p, "runtime.yaml"@),
        Some(name) => match extension_of(name) {
            Some(ext) => path_with_file_name(p, stem_of(name) + ".runtime."@ + ext),
            None => path_with_file_name(p, name + ".runtime.yaml"@),
        },
    }
}

/// The sidecar path of a configuration file.
pub fn runtime_path_for(config_path: &str) -> (r: String)
    ensures
        r@ == runtime_path_spec(config_path@),
{
    let name = match file_name(config_path) {
        Some(n) => n,
        None => {
            proof {
                reveal_strlit("runtime.yaml");
                assert(!"runtime.yaml"@.contains('/'));
                assert(!"runtime.yaml"@.contains('\\'));
            }
            return with_extension(config_path, "runtime.yaml");
        },
    };
    match (file_stem(config_path), extension(config_path)) {
        (Some(stem), Some(ext)) => {
            let mut s = stem;
            append_str(&mut s, ".runtime.");
            append_str(&mut s, ext.as_str());
            with_file_name(config_path, s.as_str())
        },
        _ => {
            let mut s = name;
            append_str(&mut s, ".runtime.yaml");
            with_file_name(config_path, s.as_str())
        },
    }
}

/// The settings kept in the sidecar.
#[derive(Debug)]
pub struct RuntimeConfig {
    pub schema_version: u16,
    pub ui: Option<UiConfig>,
    pub proxy_setting: Option<ProxySetting>,
}

impl RuntimeConfig {
    /// A snapshot of the connections settings and the proxy setting, in the
    /// current format.
    pub fn new(connections: &ConnectionsSetting, proxy_setting: &ProxySetting) -> (r: RuntimeConfig)
        ensures
            r.schema_version == RUNTIME_SCHEMA_VERSION,
            r.ui matches Some(ui) && ui.connections matches Some(c) && ui_config_of(*connections, c)
                && ui.proxy_detail is None && ui.proxy_provider_detail is None,
            r.proxy_setting == Some(*proxy_setting),
    {
        RuntimeConfig {
            schema_version: RUNTIME_SCHEMA_VERSION,
            ui: Some(
                UiConfig {
                    connections: Some(connections.to_ui_config()),
                    proxy_detail: None,
                    proxy_provider_detail: None,
                },
            ),
            proxy_setting: Some(proxy_setting.clone()),
        }
    }
}

/// Whether a connections UI configuration says nothing: no column list, no
/// sort and no alias.
pub open spec fn spec_is_empty_connections(c: ConnectionsUiConfig) -> bool {
    c.columns is None && c.sort is None && c.source_ip_alias@.len() == 0
}

/// Whether a connections UI configuration says nothing.
pub fn is_empty_connections(connections: &ConnectionsUiConfig) -> (r: bool)
    ensures
        r == spec_is_empty_connections(*connections),
{
    connections.columns.is_none() && connections.sort.is_none() && connections.source_ip_alias.len() == 0
}

/// The connections settings a sidecar lays over the configuration: its own,
/// unless it has none or they say nothing.
pub open spec fn sidecar_connections(rt: RuntimeConfig) -> Option<ConnectionsUiConfig> {
    match rt.ui {
        Some(ui) => match ui.connections {
            Some(c) => if spec_is_empty_connections(c) {
                None
            } else {
                Some(c)
            },
            None => None,
        },
        None => None,
    }
}

/// The configuration with a sidecar laid over it: its connections settings
/// replace those of the configuration (which gains a UI section if it had
/// none), and its proxy setting replaces that of the configuration.
pub open spec fn applied(c: Config, rt: RuntimeConfig) -> Config {
    let ui = match sidecar_connections(rt) {
        Some(conns) => Some(
            match c.ui {
                Some(u) => UiConfig { connections: Some(conns), ..u },
                None => UiConfig { connections: Some(conns), proxy_detail: None, proxy_provider_detail: None },
            },
        ),
        None => c.ui,
    };
    let proxy = match rt.proxy_setting {
        Some(p) => p,
        None => c.proxy_setting,
    };
    Config { ui: ui, proxy_setting: proxy, ..c }
}

/// The error for a sidecar of another format version.
pub open spec fn version_refusal(rt: RuntimeConfig) -> Result<(), ConfigError> {
    Err(ConfigError::UnsupportedSchemaVersion(rt.schema_version))
}

/// Lays the sidecar over the configuration; a sidecar of another format
/// version is refused and changes nothing.
pub fn apply(config: &mut Config, runtime: RuntimeConfig) -> (r: Result<(), ConfigError>)
    ensures
        runtime.schema_version != RUNTIME_SCHEMA_VERSION ==> r == version_refusal(runtime)
            && *final(config) == *old(config),
        runtime.schema_version == RUNTIME_SCHEMA_VERSION ==> r is Ok && *final(config) == applied(
            *old(config),
            runtime,
        ),
{
    if runtime.schema_version != RUNTIME_SCHEMA_VERSION {
        return Err(ConfigError::UnsupportedSchemaVersion(runtime.schema_version));
    }
    let ghost rt = runtime;
    let RuntimeConfig { schema_version: _, ui, proxy_setting } = runtime;
    let conns = sidecar_part(ui);
    assert(conns == sidecar_connections(rt));
    match conns {
        Some(c) => {
            let prev = config.ui.take();
            let next = match prev {
                Some(u) => UiConfig {
                    connections: Some(c),
                    proxy_detail: u.proxy_detail,
                    proxy_provider_detail: u.proxy_provider_detail,
                },
                None => UiConfig { connections: Some(c), proxy_detail: None, proxy_provider_detail: None },
            };
            config.ui = Some(next);
        },
        None => {},
    }
    match proxy_setting {
        Some(p) => {
            config.proxy_setting = p;
        },
        None => {},
    }
    Ok(())
}

/// The connections settings of a sidecar's UI section that say something.
fn sidecar_part(ui: Option<UiConfig>) -> (r: Option<ConnectionsUiConfig>)
    ensures
        r == (match ui {
            Some(u) => match u.connections {
                Some(c) => if spec_is_empty_connections(c) {
                    None
                } else {
                    Some(c)
                },
                None => None,
            },
            None => None,
        }),
{
    match ui {
        Some(u) => match u.connections {
            Some(c) => if is_empty_connections(&c) {
                None
            } else {
                Some(c)
            },
            None => None,
        },
        None => None,
    }
}

/// Lays the sidecar over the configuration and checks the result on
/// `platform`; on any refusal the configuration is left as it was.
pub fn load_and_apply(config: &mut Config, runtime: RuntimeConfig, platform: Platform) -> (r: Result<
    (),
    ConfigError,
>)
    requires
        old(config).proxy_setting.test_timeout >= 1,
        runtime.proxy_setting matches Some(p) ==> p.test_timeout >= 1,
    ensures
        runtime.schema_version != RUNTIME_SCHEMA_VERSION ==> r == version_refusal(runtime),
        runtime.schema_version == RUNTIME_SCHEMA_VERSION ==> config_outcome(
            applied(*old(config), runtime),
            platform,
            r,
        ),
        r is Ok ==> *final(config) == applied(*old(config), runtime),
        r is Err ==> *final(config) == *old(config),
{
    if runtime.schema_version != RUNTIME_SCHEMA_VERSION {
        return Err(ConfigError::UnsupportedSchemaVersion(runtime.schema_version));
    }
    let ghost rt = runtime;
    let ghost before = *config;
    let RuntimeConfig { schema_version: _, ui, proxy_setting } = runtime;
    let conns = sidecar_part(ui);
    assert(conns == sidecar_connections(rt));
    let mut saved_ui: Option<UiConfig> = None;
    let replaced = conns.is_some();
    match conns {
        Some(c) => {
            saved_ui = config.ui.take();
            let next = match &saved_ui {
                Some(u) => UiConfig {
                    connections: Some(c),
                    proxy_detail: u.proxy_detail,
                    proxy_provider_detail: u.proxy_provider_detail,
                },
                None => UiConfig { connections: Some(c), proxy_detail: None, proxy_provider_detail: None },
            };
            config.ui = Some(next);
        },
        None => {},
    }
    let mut saved_proxy: Option<ProxySetting> = None;
    match proxy_setting {
        Some(p) => {
            let mut p = p;
            std::mem::swap(&mut config.proxy_setting, &mut p);
            saved_proxy = Some(p);
        },
        None => {},
    }
    assert(*config == applied(before, rt));
    let result = config.validate(platform);
    match result {
        Ok(()) => Ok(()),
        Err(e) => {
            match saved_proxy {
                Some(p) => {
                    config.proxy_setting = p;
                },
                None => {},
            }
            if replaced {
                config.ui = saved_ui;
            }
            assert(*config == before);
            Err(e)
        },
    }
}

} // verus!
