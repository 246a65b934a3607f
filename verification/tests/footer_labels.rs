use mihomo_tui::card_views::{ProxiesComponent, ProxyProviderDetailComponent, ProxyProvidersComponent};
use mihomo_tui::columns_setting::ColumnsSettingPane;
use mihomo_tui::connections_view::ConnectionsView;
use mihomo_tui::detail::ConnectionDetailComponent;
use mihomo_tui::filter::{FilterComponent, SearchComponent};
use mihomo_tui::logs::LogsComponent;
use mihomo_tui::proxy_detail::ProxyDetailComponent;
use mihomo_tui::proxy_setting::ProxySettingComponent;
use mihomo_tui::settings_dialog::ConnectionsSettingComponent;
use mihomo_tui::shortcut::{Fragment, Shortcut};
use mihomo_tui::source_ip_alias::SourceIpAliasSettingPane;
use mihomo_tui::terminate::{ConnectionBatchTerminateComponent, ConnectionTerminateComponent};
use mihomo_tui::updates::UpdatesComponent;

fn parts(s: &Shortcut) -> Vec<(bool, String)> {
    s.parts
        .iter()
        .map(|f| match f {
            Fragment::Raw(t) => (false, t.clone()),
            Fragment::Hl(t) => (true, t.clone()),
        })
        .collect()
}

fn plain_text(s: &Shortcut) -> String {
    parts(s).into_iter().map(|(_, t)| t).collect()
}

fn texts(v: &[Shortcut]) -> Vec<String> {
    v.iter().map(plain_text).collect()
}

#[test]
fn proxy_views_share_navigation_labels() {
    let p = ProxiesComponent::new().shortcuts();
    let pp = ProxyProvidersComponent::new().shortcuts();
    let d = ProxyDetailComponent::new().shortcuts();
    assert_eq!(
        parts(&p[0]),
        vec![
            (true, "↑".to_string()),
            (false, "/".to_string()),
            (true, "←".to_string()),
            (false, " nav ".to_string()),
            (true, "→".to_string()),
            (false, "/".to_string()),
            (true, "↓".to_string()),
        ]
    );
    assert_eq!(p[0], pp[0]);
    assert_eq!(p[0], d[0]);
    assert_eq!(texts(&p), vec!["↑/← nav →/↓", "PgUp page PgDn", "g jump G", "detail ↵", "refresh", "setting", "test"]);
    assert_eq!(texts(&pp)[7], "update");
    assert_eq!(pp.len(), 8);
    assert_eq!(
        texts(&d),
        vec!["↑/← nav →/↓", "PgUp page PgDn", "g jump G", "[ layer ]", "cur", "sel ↵", "back Esc", "refresh", "test"]
    );
}

#[test]
fn words_highlight_their_first_letter() {
    let p = ProxiesComponent::new().shortcuts();
    assert_eq!(parts(&p[4]), vec![(true, "r".to_string()), (false, "efresh".to_string())]);
    assert_eq!(p[4], Shortcut::from("refresh", 0).unwrap());
    assert_eq!(p[5], Shortcut::from("setting", 0).unwrap());
    let c = ColumnsSettingPane::default().shortcuts();
    assert_eq!(c[3], Shortcut::from("all", 0).unwrap());
    assert_eq!(c[4], Shortcut::from("invert", 0).unwrap());
}

#[test]
fn dialog_labels() {
    assert_eq!(texts(&ConnectionTerminateComponent::new().shortcuts()), vec!["yes ↵", "no Esc"]);
    assert_eq!(texts(&ConnectionBatchTerminateComponent::new().shortcuts()), vec!["yes ↵", "no Esc"]);
    assert_eq!(texts(&ProxySettingComponent::new().shortcuts()), vec!["⇧⇤ nav ⇥", "confirm ↵"]);
    assert_eq!(texts(&UpdatesComponent::new().shortcuts()), vec!["⇧⇤ nav ⇥", "toggle Space", "update ↵", "refresh"]);
    assert_eq!(
        texts(&ConnectionsSettingComponent::new().shortcuts()),
        vec!["⇧⇤ pane nav ⇥", "apply ↵", "cancel Esc"]
    );
    assert_eq!(
        texts(&ConnectionDetailComponent::new().shortcuts()),
        vec!["esc Esc/Enter", "↑ scroll ↓", "Space/PgDn page PgUp"]
    );
}

#[test]
fn list_labels() {
    assert_eq!(texts(&LogsComponent::new().shortcuts()), vec!["↑ select ↓", "first g", "last G", "live Esc"]);
    assert_eq!(texts(&SourceIpAliasSettingPane::new().shortcuts()), vec!["↑/PgUp nav PgDn/↓"]);
    assert_eq!(
        texts(&ColumnsSettingPane::default().shortcuts())[..3].to_vec(),
        vec!["←/PgUp/g nav G/PgDn/→", "C-← move C-→", "toggle Space"]
    );
    let conns = texts(&ConnectionsView::new().shortcuts());
    assert_eq!(
        conns,
        vec![
            "↑/PgUp/g nav G/PgDn/↓",
            "←/→ sort r",
            "-/+ width",
            "Del reset",
            "t/Term",
            "capture",
            "detail ↵",
            "live Esc",
            "setting"
        ]
    );
}

#[test]
fn input_boxes_share_labels() {
    let f = FilterComponent::new().shortcuts();
    let s = SearchComponent::new().shortcuts();
    assert_eq!(f, s);
    assert_eq!(texts(&f), vec!["←/C-← move →/C-→", "Back/C-Back del Del/C-Del", "Yank C-Y", "Home jump End", "esc Esc/↵"]);
}

#[test]
fn provider_detail_labels() {
    let l = ProxyProviderDetailComponent::new().shortcuts();
    assert_eq!(
        texts(&l),
        vec!["↑/← nav →/↓", "PgUp page PgDn", "g jump G", "back Esc", "refresh", "test", "update", "sort"]
    );
    assert_eq!(l[7], Shortcut::from("sort", 0).unwrap());
}
