use mihomo_tui::root::{ConnectionStreamHub, RenderError, RenderHandle, TabRenderRequesters};
use mihomo_tui::tabs::ComponentId;

#[test]
fn stream_tab_requester_follows_tab_visibility() {
    let mut requesters = TabRenderRequesters::new();
    requesters.register();

    let logs = requesters.requester_for(ComponentId::Logs, ComponentId::Rules).expect("render requester is registered");
    assert!(!requesters.delivers(&logs));

    requesters.switch_tab(ComponentId::Rules, ComponentId::Logs);
    assert!(requesters.delivers(&logs));

    requesters.switch_tab(ComponentId::Logs, ComponentId::Rules);
    assert!(!requesters.delivers(&logs));
}

#[test]
fn non_stream_tab_requester_is_not_gated() {
    let mut requesters = TabRenderRequesters::new();
    requesters.register();

    let rules = requesters.requester_for(ComponentId::Rules, ComponentId::Logs).expect("render requester is registered");
    requesters.switch_tab(ComponentId::Logs, ComponentId::Overview);

    assert!(requesters.delivers(&rules));
    assert_eq!(rules, RenderHandle::Shared);
}

#[test]
fn requester_is_refused_before_registration() {
    let mut requesters = TabRenderRequesters::new();
    let r = requesters.requester_for(ComponentId::Logs, ComponentId::Logs);
    assert_eq!(r, Err(RenderError::NotInitialized));
    assert_eq!(RenderError::NotInitialized.to_string(), "render requester is not initialized");
}

#[test]
fn connection_streams_are_needed_by_overview_and_connections_tabs() {
    assert!(ConnectionStreamHub::needs_stream(ComponentId::Overview));
    assert!(ConnectionStreamHub::needs_stream(ComponentId::Connections));
    assert!(!ConnectionStreamHub::needs_stream(ComponentId::Logs));
    assert!(!ConnectionStreamHub::needs_stream(ComponentId::Rules));
}

#[test]
fn connection_stream_stops_only_without_current_or_idle_consumers() {
    let mut hub = ConnectionStreamHub::new();
    hub.stop_if_unused(ComponentId::Logs, false);
    assert!(!hub.is_active());

    hub.start_if_needed(ComponentId::Connections);
    hub.stop_if_unused(ComponentId::Connections, false);
    assert!(hub.is_active());

    hub.stop_if_unused(ComponentId::Logs, true);
    assert!(hub.is_active());

    hub.stop_if_unused(ComponentId::Logs, false);
    assert!(!hub.is_active());
}
