use mihomo_tui::card_views::{CardCommand, ProviderDetailCommand, ProxiesComponent, ProxyProviderDetailComponent, ProxyProvidersComponent};
use mihomo_tui::key::{Key, KeyInput};
use mihomo_tui::providers::{ProxyProvider, ProxyProviders, SubscriptionInfo, Usage};
use mihomo_tui::proxies::{LatencyQuality, Proxies, Proxy};

fn key(code: Key) -> KeyInput {
    KeyInput::plain(code)
}

fn proxy(name: &str, history: Vec<u64>) -> Proxy {
    Proxy { name: name.to_string(), hidden: None, children: None, selected: None, history, latency: None }
}

fn group(name: &str, children: &[&str], selected: Option<&str>) -> Proxy {
    Proxy {
        name: name.to_string(),
        hidden: None,
        children: Some(children.iter().map(|c| c.to_string()).collect()),
        selected: selected.map(str::to_string),
        history: Vec::new(),
        latency: None,
    }
}

fn sample() -> Vec<Proxy> {
    vec![
        proxy("a", vec![300, 120]),
        proxy("b", vec![900]),
        proxy("c", vec![]),
        group("Auto", &["a", "b", "c"], Some("a")),
        group("Select", &["Auto", "b"], Some("Auto")),
        group("GLOBAL", &["Select", "Auto"], Some("Select")),
    ]
}

#[test]
fn latency_quality_boundaries() {
    let t = (200, 800);
    assert_eq!(LatencyQuality::of(None, t), LatencyQuality::Unknown);
    assert_eq!(LatencyQuality::of(Some(0), t), LatencyQuality::Unknown);
    assert_eq!(LatencyQuality::of(Some(199), t), LatencyQuality::Good);
    assert_eq!(LatencyQuality::of(Some(200), t), LatencyQuality::Medium);
    assert_eq!(LatencyQuality::of(Some(800), t), LatencyQuality::Bad);
    assert_eq!(LatencyQuality::Bad.index(), 2);
}

#[test]
fn groups_show_selected_member_latency_in_global_order() {
    let mut p = Proxies::new();
    p.push(sample(), (200, 800));
    let names: Vec<String> = p.view().iter().map(|v| v.proxy.name.clone()).collect();
    assert_eq!(names, vec!["Select".to_string(), "Auto".to_string(), "GLOBAL".to_string()]);
    let auto = p.get(1).unwrap();
    assert_eq!(auto.proxy.latency, Some(120));
    assert_eq!(auto.quality_stats, vec![1, 0, 1, 1]);
    let select = p.get(0).unwrap();
    assert_eq!(select.proxy.latency, Some(120));
    assert!(p.get(9).is_none());
    let children = p.children(&select.proxy);
    assert_eq!(children.len(), 2);
    assert_eq!(children[0].name, "Auto");
}

#[test]
fn proxies_view_keys() {
    let mut p = Proxies::new();
    p.push(sample(), (200, 800));
    let mut v = ProxiesComponent::new();
    v.navigator.length(3, 10);
    assert_eq!(v.handle_key_event(key(Key::Enter), &p), CardCommand::Nothing);
    assert_eq!(v.handle_key_event(key(Key::Down), &p), CardCommand::Nothing);
    assert_eq!(v.handle_key_event(key(Key::Enter), &p), CardCommand::Detail("Select".to_string()));
    assert_eq!(v.handle_key_event(key(Key::Char('t')), &p), CardCommand::TestGroup("Select".to_string()));
    assert_eq!(v.pending_test, 1);
    v.test_finished();
    v.test_finished();
    assert_eq!(v.pending_test, 0);
    assert_eq!(v.handle_key_event(key(Key::Char('r')), &p), CardCommand::Reload);
    assert!(v.loading);
    assert_eq!(v.handle_key_event(key(Key::Char('s')), &p), CardCommand::OpenSetting);
    v.handle_key_event(key(Key::Esc), &p);
    assert_eq!(v.navigator.focused, None);
}

fn provider(name: &str, vehicle: &str, info: Option<SubscriptionInfo>) -> ProxyProvider {
    ProxyProvider {
        name: name.to_string(),
        vehicle_type: vehicle.to_string(),
        proxies: vec![proxy("x", vec![100, 50]), proxy("y", vec![])],
        subscription_info: info,
        updated_at: None,
    }
}

#[test]
fn providers_list_skips_default_and_compatible() {
    let mut p = ProxyProviders::new();
    p.push(
        vec![
            provider("default", "HTTP", None),
            provider("sub", "HTTP", Some(SubscriptionInfo { download: Some(30), upload: Some(10), total: Some(100) })),
            provider("compat", "Compatible", None),
            provider("file", "File", Some(SubscriptionInfo { download: Some(1), upload: None, total: Some(5) })),
        ],
        (200, 800),
    );
    let v = p.view();
    assert_eq!(v.len(), 2);
    assert_eq!(v[0].provider.name, "sub");
    assert_eq!(v[0].usage, Some(Usage::Share { used: 40, total: 100 }));
    assert_eq!(v[0].provider.proxies[0].latency, Some(50));
    assert_eq!(v[0].provider.proxies[1].latency, None);
    assert_eq!(v[0].quality_stats, vec![1, 0, 0, 1]);
    assert_eq!(v[1].usage, Some(Usage::Unknown));
    assert!(p.get(2).is_none());
}

#[test]
fn zero_quota_reports_unknown_usage() {
    let info = SubscriptionInfo { download: Some(1), upload: Some(1), total: Some(0) };
    assert_eq!(mihomo_tui::providers::usage_of(&info), Usage::Unknown);
}

#[test]
fn providers_view_keys() {
    let mut p = ProxyProviders::new();
    p.push(vec![provider("sub", "HTTP", None)], (200, 800));
    let mut v = ProxyProvidersComponent::new();
    v.navigator.length(1, 5);
    assert_eq!(v.handle_key_event(key(Key::Char('t')), &p), CardCommand::Nothing);
    v.handle_key_event(key(Key::Char('j')), &p);
    assert_eq!(v.handle_key_event(key(Key::Char('t')), &p), CardCommand::HealthCheck("sub".to_string()));
    assert_eq!(v.pending_test, 1);
    v.health_check_finished();
    v.health_check_finished();
    assert_eq!(v.pending_test, u16::MAX);
    assert_eq!(v.handle_key_event(key(Key::Char('u')), &p), CardCommand::UpdateProvider("sub".to_string()));
    assert!(v.loading);
    assert_eq!(v.handle_key_event(key(Key::Char('r')), &p), CardCommand::Nothing);
    v.loading_finished();
    assert_eq!(v.handle_key_event(key(Key::Char('r')), &p), CardCommand::Reload);
    assert_eq!(v.handle_key_event(key(Key::Enter), &p), CardCommand::Detail("sub".to_string()));
}

#[test]
fn provider_detail_finds_its_provider_by_name() {
    let mut ps = ProxyProviders::new();
    ps.push(
        vec![provider("one", "HTTP", None), provider("two", "File", None), provider("two", "HTTP", None)],
        (200, 800),
    );
    let mut d = ProxyProviderDetailComponent::new();
    assert!(d.get_provider(&ps).is_none());
    d.show("two".to_string());
    assert!(d.show);
    let v = d.get_provider(&ps).unwrap();
    assert_eq!(v.provider.name, "two");
    assert_eq!(v.provider.vehicle_type, "File");
    assert_eq!(d.provider_index, Some(1));
    d.show("nope".to_string());
    assert!(d.get_provider(&ps).is_none());
    assert_eq!(d.provider_index, Some(1));
    let (i, w) = ps.get_by_name(&"one".to_string()).unwrap();
    assert_eq!(i, 0);
    assert_eq!(w.provider.name, "one");
}

#[test]
fn provider_detail_keys() {
    let mut d = ProxyProviderDetailComponent::new();
    assert_eq!(d.handle_key_event(key(Key::Char('t'))), ProviderDetailCommand::Nothing);
    d.show("sub".to_string());
    assert_eq!(d.handle_key_event(key(Key::Char('t'))), ProviderDetailCommand::HealthCheck("sub".to_string()));
    assert!(d.health_checking);
    d.health_check_finished();
    assert!(!d.health_checking);
    assert_eq!(d.handle_key_event(key(Key::Char('u'))), ProviderDetailCommand::Update("sub".to_string()));
    assert!(d.loading);
    d.loading_finished();
    assert_eq!(d.handle_key_event(key(Key::Char('r'))), ProviderDetailCommand::Reload);
    assert_eq!(d.handle_key_event(key(Key::Char('s'))), ProviderDetailCommand::SwitchSortField);
    assert_eq!(d.handle_key_event(key(Key::Char('S'))), ProviderDetailCommand::ToggleSortDirection);
    assert_eq!(d.handle_key_event(key(Key::Esc)), ProviderDetailCommand::Unfocus);
    assert!(!d.show);
    assert_eq!(d.provider_name, None);
}
