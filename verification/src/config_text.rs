//! The messages of configuration errors.
use vstd::prelude::*;
use crate::config::{ConfigError, ConnectionsUiConfig, configurable_cols, join_titles, sortable_cols};
use crate::text::{append_str, debug_quote, debug_quoted, decimal_text, u64_text};

verus! {

/// The list of allowed titles, in brackets.
pub open spec fn bracketed(items: Seq<(usize, &'static str)>) -> Seq<char> {
    "["@ + join_titles(items) + "]"@
}

/// The message of a configuration error.
pub open spec fn error_text(e: ConfigError) -> Seq<char> {
    match e {
        ConfigError::ColumnsEmpty => "`ui.connections.columns` cannot be empty, must be one of "@
            + bracketed(configurable_cols()),
        ConfigError::UnknownColumn(x) => "`ui.connections.columns` values must be one of "@ + bracketed(
            configurable_cols(),
        ) + ", got "@ + debug_quoted(x@),
        ConfigError::DuplicateColumn(x) => "duplicate `ui.connections.columns` value: "@ + debug_quoted(x@),
        ConfigError::UnknownSortField(x) => "`ui.connections.sort.field` must be one of "@ + bracketed(
            sortable_cols(),
        ) + ", got "@ + debug_quoted(x@),
        ConfigError::UnknownColumnWidthKey(x) => "`ui.connections.column-widths` keys must be one of "@
            + bracketed(configurable_cols()) + ", got "@ + debug_quoted(x@),
        ConfigError::DuplicateColumnWidthKey(x) => "duplicate `ui.connections.column-widths` key: "@
            + debug_quoted(x@),
        ConfigError::ZeroColumnWidth(x) => "`ui.connections.column-widths` values must be non-zero, got 0 for "@
            + debug_quoted(x@),
        ConfigError::EmptyUrl => "URL cannot be empty"@,
        ConfigError::UrlScheme => "URL must start with http:// or https://"@,
        ConfigError::InvalidUrl(x) => "Invalid URL: "@ + x@,
        ConfigError::TimeoutRange => "Timeout must be between 1 and 60000 milliseconds"@,
        ConfigError::ThresholdNotPositive => "Threshold values must be valid positive numbers"@,
        ConfigError::ThresholdOrder => "Threshold must satisfy medium < high"@,
        ConfigError::ThresholdShape => "Threshold must be two comma-separated numbers (e.g. 500,1000)"@,
        ConfigError::UnsupportedSchemaVersion(v) => "Unsupported runtime config schema version "@
            + decimal_text(v as nat) + ", expected 1"@,
        ConfigError::EmptyEndpoint => "`mihomo-api` cannot be empty"@,
        ConfigError::EmptyPipeName => "Windows named pipe name cannot be empty"@,
        ConfigError::EmptySocketPath => "Unix socket path cannot be empty"@,
        ConfigError::InvalidEndpointUrl(x) => "Invalid mihomo API URL: "@ + x@,
        ConfigError::EndpointNotHttp => "Mihomo HTTP API URL must use http:// or https:// and include a host"@,
        ConfigError::UnixSocketUnsupported => "Unix socket mihomo API is not supported on this platform"@,
        ConfigError::NamedPipeUnsupported => "Windows named pipe mihomo API is not supported on this platform"@,
    }
}

/// Appends the bracketed list of allowed titles.
fn push_bracketed(s: &mut String, items: &Vec<(usize, &'static str)>)
    ensures
        final(s)@ == old(s)@ + bracketed(items@),
{
    append_str(s, "[");
    let joined = ConnectionsUiConfig::join_connection_col_titles(items);
    append_str(s, joined.as_str());
    append_str(s, "]");
}

/// Appends `, got ` and the quoted value.
fn push_got(s: &mut String, x: &String)
    ensures
        final(s)@ == old(s)@ + ", got "@ + debug_quoted(x@),
{
    append_str(s, ", got ");
    let q = debug_quote(x.as_str());
    append_str(s, q.as_str());
}

/// The message after a fixed start.
fn with_start(start: &str) -> (r: String)
    ensures
        r@ == start@,
{
    let mut s = String::new();
    append_str(&mut s, start);
    s
}

impl ConfigError {
    /// The message of the error.
    pub fn to_string(&self) -> (r: String)
        ensures
            r@ == error_text(*self),
    {
        match self {
            ConfigError::ColumnsEmpty => {
                let mut s = with_start("`ui.connections.columns` cannot be empty, must be one of ");
                push_bracketed(&mut s, &ConnectionsUiConfig::configurable_connection_cols());
                s
            },
            ConfigError::UnknownColumn(x) => {
                let mut s = with_start("`ui.connections.columns` values must be one of ");
                push_bracketed(&mut s, &ConnectionsUiConfig::configurable_connection_cols());
                push_got(&mut s, x);
                s
            },
            ConfigError::DuplicateColumn(x) => {
                let mut s = with_start("duplicate `ui.connections.columns` value: ");
                let q = debug_quote(x.as_str());
                append_str(&mut s, q.as_str());
                s
            },
            ConfigError::UnknownSortField(x) => {
                let mut s = with_start("`ui.connections.sort.field` must be one of ");
                push_bracketed(&mut s, &ConnectionsUiConfig::sortable_connection_cols());
                push_got(&mut s, x);
                s
            },
            ConfigError::UnknownColumnWidthKey(x) => {
                let mut s = with_start("`ui.connections.column-widths` keys must be one of ");
                push_bracketed(&mut s, &ConnectionsUiConfig::configurable_connection_cols());
                push_got(&mut s, x);
                s
            },
            ConfigError::DuplicateColumnWidthKey(x) => {
                let mut s = with_start("duplicate `ui.connections.column-widths` key: ");
                let q = debug_quote(x.as_str());
                append_str(&mut s, q.as_str());
                s
            },
            ConfigError::ZeroColumnWidth(x) => {
                let mut s = with_start("`ui.connections.column-widths` values must be non-zero, got 0 for ");
                let q = debug_quote(x.as_str());
                append_str(&mut s, q.as_str());
                s
            },
            ConfigError::EmptyUrl => with_start("URL cannot be empty"),
            ConfigError::UrlScheme => with_start("URL must start with http:// or https://"),
            ConfigError::InvalidUrl(x) => {
                let mut s = with_start("Invalid URL: ");
                append_str(&mut s, x.as_str());
                s
            },
            ConfigError::TimeoutRange => with_start("Timeout must be between 1 and 60000 milliseconds"),
            ConfigError::ThresholdNotPositive => with_start("Threshold values must be valid positive numbers"),
            ConfigError::ThresholdOrder => with_start("Threshold must satisfy medium < high"),
            ConfigError::ThresholdShape => with_start(
                "Threshold must be two comma-separated numbers (e.g. 500,1000)",
            ),
            ConfigError::UnsupportedSchemaVersion(v) => {
                let mut s = with_start("Unsupported runtime config schema version ");
                let n = u64_text(*v as u64);
                append_str(&mut s, n.as_str());
                append_str(&mut s, ", expected 1");
                s
            },
            ConfigError::EmptyEndpoint => with_start("`mihomo-api` cannot be empty"),
            ConfigError::EmptyPipeName => with_start("Windows named pipe name cannot be empty"),
            ConfigError::EmptySocketPath => with_start("Unix socket path cannot be empty"),
            ConfigError::InvalidEndpointUrl(x) => {
                let mut s = with_start("Invalid mihomo API URL: ");
                append_str(&mut s, x.as_str());
                s
            },
            ConfigError::EndpointNotHttp => with_start(
                "Mihomo HTTP API URL must use http:// or https:// and include a host",
            ),
            ConfigError::UnixSocketUnsupported => with_start(
                "Unix socket mihomo API is not supported on this platform",
            ),
            ConfigError::NamedPipeUnsupported => with_start(
                "Windows named pipe mihomo API is not supported on this platform",
            ),
        }
    }
}

} // verus!
