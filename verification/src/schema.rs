//! The whole configuration: the mihomo endpoint, the UI settings and the
//! buffer sizes.
use vstd::prelude::*;
use crate::config::{
    ConfigError, ConnectionsUiConfig, ProxySetting, proxy_setting_ok, proxy_setting_outcome,
    ui_validate_outcome, first_zero_width, check_column_widths_positive,
};
use crate::sort::SortDir;
use crate::text::{chars_of, has_prefix, seq_starts_with, string_from_range};
use crate::url_support::{parse_url, url_error_text, url_has_host_of, url_parses, url_scheme_of};

verus! {

/// Where the mihomo API listens.
#[derive(Debug, Clone, PartialEq, Eq)]
pub enum MihomoApiEndpoint {
    Http(String),
    UnixSocket(String),
    WindowsNamedPipe(String),
}

/// The prefix that marks a Windows named pipe.
pub open spec fn pipe_prefix() -> Seq<char> {
    "\\\\.\\pipe\\"@
}

/// The prefix that marks a Unix socket path.
pub open spec fn unix_prefix() -> Seq<char> {
    "unix:"@
}

/// How an endpoint text is read, before any URL parsing.
pub open spec fn endpoint_kind(s: Seq<char>) -> u8 {
    if s.len() == 0 {
        0
    } else if has_prefix(s, pipe_prefix()) {
        if s.len() == pipe_prefix().len() { 1 } else { 2 }
    } else if has_prefix(s, unix_prefix()) {
        if s.len() == unix_prefix().len() { 3 } else { 4 }
    } else {
        5
    }
}

/// Whether a parsed URL with this scheme and host presence is an HTTP API URL.
pub open spec fn http_endpoint_ok(scheme: Seq<char>, has_host: bool) -> bool {
    (scheme == "http"@ || scheme == "https"@) && has_host
}

/// Decides whether a parsed URL may serve as the mihomo HTTP API.
pub fn http_endpoint_accepts(scheme: &str, has_host: bool) -> (r: bool)
    ensures
        r == http_endpoint_ok(scheme@, has_host),
{
    let s = chars_of(scheme);
    let http = chars_of("http");
    let https = chars_of("https");
    (seq_eq(&s, &http) || seq_eq(&s, &https)) && has_host
}

/// Whether two character vectors are equal.
pub fn seq_eq(a: &Vec<char>, b: &Vec<char>) -> (r: bool)
    ensures
        r == (a@ == b@),
{
    if a.len() != b.len() {
        return false;
    }
    let mut i: usize = 0;
    while i < a.len()
        invariant
            a@.len() == b@.len(),
            i <= a@.len(),
            forall|j: int| 0 <= j < i ==> a@[j] == b@[j],
        decreases a.len() - i,
    {
        if a[i] != b[i] {
            return false;
        }
        i = i + 1;
    }
    assert(a@ =~= b@);
    true
}

impl MihomoApiEndpoint {
    /// Reads an endpoint: `\\.\pipe\name`, `unix:path`, or an `http(s)` URL
    /// with a host.
    pub fn parse(value: &str) -> (r: Result<MihomoApiEndpoint, ConfigError>)
        ensures
            endpoint_kind(value@) == 0 ==> r == Err::<MihomoApiEndpoint, ConfigError>(ConfigError::EmptyEndpoint),
            endpoint_kind(value@) == 1 ==> r == Err::<MihomoApiEndpoint, ConfigError>(ConfigError::EmptyPipeName),
            endpoint_kind(value@) == 2 ==> (r matches Ok(MihomoApiEndpoint::WindowsNamedPipe(p)) && p@ == value@),
            endpoint_kind(value@) == 3 ==> r == Err::<MihomoApiEndpoint, ConfigError>(ConfigError::EmptySocketPath),
            endpoint_kind(value@) == 4 ==> (r matches Ok(MihomoApiEndpoint::UnixSocket(p))
                && p@ == value@.subrange(unix_prefix().len() as int, value@.len() as int)),
            endpoint_kind(value@) == 5 && !url_parses(value@) ==> (r matches Err(ConfigError::InvalidEndpointUrl(x))
                && x@ == url_error_text(value@)),
            endpoint_kind(value@) == 5 && url_parses(value@) && http_endpoint_ok(
                url_scheme_of(value@),
                url_has_host_of(value@),
            ) ==> (r matches Ok(MihomoApiEndpoint::Http(u)) && u@ == value@),
            endpoint_kind(value@) == 5 && url_parses(value@) && !http_endpoint_ok(
                url_scheme_of(value@),
                url_has_host_of(value@),
            ) ==> r == Err::<MihomoApiEndpoint, ConfigError>(ConfigError::EndpointNotHttp),
    {
        let v = chars_of(value);
        if v.len() == 0 {
            return Err(ConfigError::EmptyEndpoint);
        }
        let pipe = chars_of("\\\\.\\pipe\\");
        if seq_starts_with(&v, &pipe) {
            if v.len() == pipe.len() {
                return Err(ConfigError::EmptyPipeName);
            }
            return Ok(MihomoApiEndpoint::WindowsNamedPipe(value.to_string()));
        }
        let unix = chars_of("unix:");
        if seq_starts_with(&v, &unix) {
            if v.len() == unix.len() {
                return Err(ConfigError::EmptySocketPath);
            }
            return Ok(MihomoApiEndpoint::UnixSocket(string_from_range(&v, unix.len(), v.len())));
        }
        match parse_url(value) {
            Ok(u) => {
                if http_endpoint_accepts(u.scheme.as_str(), u.has_host) {
                    Ok(MihomoApiEndpoint::Http(value.to_string()))
                } else {
                    Err(ConfigError::EndpointNotHttp)
                }
            },
            Err(text) => Err(ConfigError::InvalidEndpointUrl(text)),
        }
    }
}

/// Fields the proxy detail view can sort by.
#[derive(Debug, Clone, Copy, PartialEq, Eq, Structural)]
pub enum ProxySortField {
    Latency,
    Name,
}

/// The sort of a proxy detail view as written in the configuration file.
#[derive(Debug, Clone, Copy, PartialEq, Eq, Structural)]
pub struct ProxySortConfig {
    pub field: ProxySortField,
    pub dir: SortDir,
}

/// A proxy detail view as written in the configuration file.
#[derive(Debug, Clone, Copy, PartialEq, Eq, Structural)]
pub struct ProxyDetailUiConfig {
    pub sort: Option<ProxySortConfig>,
}

/// The UI section of the configuration file.
#[derive(Debug, Clone)]
pub struct UiConfig {
    pub connections: Option<ConnectionsUiConfig>,
    pub proxy_detail: Option<ProxyDetailUiConfig>,
    pub proxy_provider_detail: Option<ProxyDetailUiConfig>,
}

/// Buffer sizes of the overview charts; never zero.
#[derive(Debug, Clone, Copy, PartialEq, Eq, Structural)]
pub struct OverviewBufferConfig {
    pub memory: usize,
    pub traffic: usize,
}

/// Buffer sizes; never zero.
#[derive(Debug, Clone, Copy, PartialEq, Eq, Structural)]
pub struct BufferConfig {
    pub overview: OverviewBufferConfig,
    pub connections: usize,
    pub logs: usize,
}

impl Default for OverviewBufferConfig {
    fn default() -> (r: Self)
        ensures
            r.memory == 100,
            r.traffic == 100,
    {
        OverviewBufferConfig { memory: 100, traffic: 100 }
    }
}

impl Default for BufferConfig {
    fn default() -> (r: Self)
        ensures
            r.overview.memory == 100,
            r.overview.traffic == 100,
            r.connections == 500,
            r.logs == 500,
    {
        BufferConfig { overview: OverviewBufferConfig::default(), connections: 500, logs: 500 }
    }
}

/// The sort direction of a proxy detail sort that names none.
pub fn default_proxy_detail_sort_dir() -> (r: SortDir)
    ensures
        r == SortDir::Asc,
{
    SortDir::Asc
}

/// The repository whose releases tell whether mihomo has an update.
pub fn default_mihomo_repo() -> (r: String)
    ensures
        r@ == "MetaCubeX/mihomo"@,
{
    "MetaCubeX/mihomo".to_string()
}

/// The platform the program runs on, as far as the endpoint kinds go.
#[derive(Debug, Clone, Copy, PartialEq, Eq, Structural)]
pub enum Platform {
    Unix,
    Windows,
    Other,
}

/// The whole configuration.
#[derive(Debug, Clone)]
pub struct Config {
    pub mihomo_api: MihomoApiEndpoint,
    pub mihomo_secret: Option<String>,
    pub mihomo_config_schema: Option<String>,
    pub mihomo_repo: String,
    pub log_file: Option<String>,
    /// Log filtering directives in the syntax of `RUST_LOG`.
    pub log_level: Option<String>,
    pub ui: Option<UiConfig>,
    pub proxy_setting: ProxySetting,
    pub buffer: BufferConfig,
}

/// Whether the endpoint kind is usable on the platform.
pub open spec fn endpoint_supported(e: MihomoApiEndpoint, p: Platform) -> bool {
    match e {
        MihomoApiEndpoint::UnixSocket(_) => p == Platform::Unix,
        MihomoApiEndpoint::WindowsNamedPipe(_) => p == Platform::Windows,
        MihomoApiEndpoint::Http(_) => true,
    }
}

/// Whether `r` is the outcome of checking `c` on `platform`: a zero column
/// width first (such a file does not read), then the endpoint kind, the
/// proxy setting and the connections UI settings.
pub open spec fn config_outcome(c: Config, platform: Platform, r: Result<(), ConfigError>) -> bool {
    if c.ui matches Some(ui) && ui.connections matches Some(conns) && first_zero_width(conns.column_widths@)
        < conns.column_widths@.len() {
        r matches Err(ConfigError::ZeroColumnWidth(x)) && x@ == c.ui->0.connections->0.column_widths@[first_zero_width(
            c.ui->0.connections->0.column_widths@,
        )].0@
    } else if !endpoint_supported(c.mihomo_api, platform) {
        match c.mihomo_api {
            MihomoApiEndpoint::UnixSocket(_) => r == Err::<(), ConfigError>(ConfigError::UnixSocketUnsupported),
            _ => r == Err::<(), ConfigError>(ConfigError::NamedPipeUnsupported),
        }
    } else if proxy_setting_ok(c.proxy_setting) {
        match c.ui {
            Some(ui) => match ui.connections {
                Some(conns) => ui_validate_outcome(&conns, r),
                None => r is Ok,
            },
            None => r is Ok,
        }
    } else {
        proxy_setting_outcome(c.proxy_setting, r)
    }
}

impl Config {
    /// Checks the endpoint against the platform, then the proxy setting, then
    /// the connections UI settings.
    pub fn validate(&self, platform: Platform) -> (r: Result<(), ConfigError>)
        requires
            self.proxy_setting.test_timeout >= 1,
        ensures
            config_outcome(*self, platform, r),
    {
        match &self.ui {
            Some(ui) => match &ui.connections {
                Some(c) => {
                    check_column_widths_positive(&c.column_widths)?;
                },
                None => {},
            },
            None => {},
        }
        match &self.mihomo_api {
            MihomoApiEndpoint::UnixSocket(_) => {
                if platform != Platform::Unix {
                    return Err(ConfigError::UnixSocketUnsupported);
                }
            },
            MihomoApiEndpoint::WindowsNamedPipe(_) => {
                if platform != Platform::Windows {
                    return Err(ConfigError::NamedPipeUnsupported);
                }
            },
            MihomoApiEndpoint::Http(_) => {},
        }
        self.proxy_setting.validate()?;
        match &self.ui {
            Some(ui) => match &ui.connections {
                Some(c) => c.validate(),
                None => Ok(()),
            },
            None => Ok(()),
        }
    }
}

} // verus!
