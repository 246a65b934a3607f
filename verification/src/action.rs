//! What a component asks of the application after an event.
use vstd::prelude::*;
use crate::message::AppMessage;
use crate::shortcut::Shortcut;
use crate::tabs::ComponentId;

verus! {

/// A request from a component to the application loop.
#[derive(Debug, Clone)]
pub enum Action {
    Tick,
    Resize(u16, u16),
    Quit,
    Focus(ComponentId),
    Unfocus,
    Info(AppMessage),
    Error(AppMessage),
    AppUpdateRequest,
    SelfUpdate(bool),
    RefreshVersion,
    /// The core reported this version text.
    CoreVersionUpdated(String),
    /// Spawn an external editor: the editor command and the file path.
    SpawnExternalEditor(String, String),
    Help,
    TabSwitch(ComponentId),
    Shortcuts(Vec<Shortcut>),
    /// Show a connection: its details as text.
    ConnectionDetail(String),
    ConnectionsSetting(Vec<String>),
    ConnectionsSettingChanged,
    /// Connection layout settings changed without affecting the data view.
    ConnectionsLayoutChanged,
    /// The filter pattern was changed by the user.
    FilterChanged(Option<String>),
    /// Sets the filter placeholder for the current tab.
    FilterPlaceholder(Option<String>),
    /// Sets the filter pattern without raising `FilterChanged`.
    FilterSet(Option<String>),
    /// The search pattern was changed by the user.
    SearchInputChanged(Option<String>),
    /// Sets the search pattern without raising `SearchInputChanged`.
    SearchInputSet(Option<String>),
    /// Terminate the connection with this id.
    ConnectionTerminateRequest(String),
    ConnectionBatchTerminateRequest(Vec<String>),
    ProxyDetail(String),
    ProxySetting,
    ProxySettingChanged,
    ProxyProviderDetail(String),
    DnsQuery,
    DnsQueryResultReady,
}

} // verus!
