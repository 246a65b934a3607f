//! The keys of the proxy groups and proxy providers views, both lists of
//! cards with a selection.
use vstd::prelude::*;
use crate::key::{Key, KeyInput};
use crate::navigator::{is_navigation_key, nav_after, ScrollableNavigator};
use std::sync::Arc;
use crate::providers::{first_named, none_named, ProviderView, ProxyProviders};
use crate::proxies::Proxies;

use crate::shortcut::{fragment_view, parts_view, shortcuts_match, split_at_highlight, Fragment, Shortcut};
verus! {

/// What a key press on a list of cards asks of the application.
#[derive(Debug, Clone, PartialEq, Eq)]
pub enum CardCommand {
    Nothing,
    /// Load the list again.
    Reload,
    /// Open the proxy settings.
    OpenSetting,
    /// Show the detail of the named card.
    Detail(String),
    /// Test the latencies of the named group.
    TestGroup(String),
    /// Check the health of the named provider.
    HealthCheck(String),
    /// Update the named provider.
    UpdateProvider(String),
}

/// A count of running tests, one more, wrapping as an atomic add does.
pub open spec fn one_more(n: u16) -> u16 {
    if n == u16::MAX {
        0
    } else {
        (n + 1) as u16
    }
}

/// A count of running tests, one less, wrapping as an atomic sub does.
pub open spec fn one_less(n: u16) -> u16 {
    if n == 0 {
        u16::MAX
    } else {
        (n - 1) as u16
    }
}

/// The proxy groups view.
#[derive(Debug, Clone, Copy, PartialEq, Eq, Structural)]
pub struct ProxiesComponent {
    pub navigator: ScrollableNavigator,
    pub loading: bool,
    pub pending_test: u16,
}

impl ProxiesComponent {
    /// Nothing selected, nothing running.
    pub fn new() -> (r: Self)
        ensures
            r.navigator == ScrollableNavigator::new_spec(),
            !r.loading,
            r.pending_test == 0,
    {
        ProxiesComponent { navigator: ScrollableNavigator::new(), loading: false, pending_test: 0 }
    }

    /// Handles a key: the navigation keys move the selection; Esc clears it;
    /// r reloads; s opens the settings; Enter shows the selected group; t
    /// tests it.
    pub fn handle_key_event(&mut self, key: KeyInput, groups: &Proxies) -> (r: CardCommand)
        requires
            old(self).navigator.wf(),
        ensures
            final(self).navigator.wf(),
            is_navigation_key(key) && old(self).navigator.content_length > 0 ==> r == CardCommand::Nothing
                && *final(self) == (ProxiesComponent { navigator: nav_after(old(self).navigator, key), ..*old(self) }),
            !(is_navigation_key(key) && old(self).navigator.content_length > 0) ==> {
                let sel = match old(self).navigator.focused {
                    Some(i) => if i < groups.visible@.len() {
                        Some(groups.visible@[i as int].proxy.name)
                    } else {
                        None
                    },
                    None => None,
                };
                &&& final(self).navigator == if key.code == Key::Esc {
                    ScrollableNavigator { focused: None, ..old(self).navigator }
                } else {
                    old(self).navigator
                }
                &&& final(self).loading == (old(self).loading || key.code == Key::Char('r'))
                &&& final(self).pending_test == if key.code == Key::Char('t') && sel is Some {
                    one_more(old(self).pending_test)
                } else {
                    old(self).pending_test
                }
                &&& r == match key.code {
                    Key::Char('r') => CardCommand::Reload,
                    Key::Char('s') => CardCommand::OpenSetting,
                    Key::Enter => match sel {
                        Some(n) => CardCommand::Detail(n),
                        None => CardCommand::Nothing,
                    },
                    Key::Char('t') => match sel {
                        Some(n) => CardCommand::TestGroup(n),
                        None => CardCommand::Nothing,
                    },
                    _ => CardCommand::Nothing,
                }
            },
    {
        if self.navigator.handle_key_event(key) {
            return CardCommand::Nothing;
        }
        match key.code {
            Key::Esc => {
                self.navigator.focused = None;
                CardCommand::Nothing
            },
            Key::Char('r') => {
                self.loading = true;
                CardCommand::Reload
            },
            Key::Char('s') => CardCommand::OpenSetting,
            Key::Enter => match self.navigator.focused {
                Some(i) => match groups.get(i) {
                    Some(v) => CardCommand::Detail(v.proxy.name.clone()),
                    None => CardCommand::Nothing,
                },
                None => CardCommand::Nothing,
            },
            Key::Char('t') => match self.navigator.focused {
                Some(i) => match groups.get(i) {
                    Some(v) => {
                        self.pending_test = if self.pending_test == u16::MAX {
                            0
                        } else {
                            self.pending_test + 1
                        };
                        CardCommand::TestGroup(v.proxy.name.clone())
                    },
                    None => CardCommand::Nothing,
                },
                None => CardCommand::Nothing,
            },
            _ => CardCommand::Nothing,
        }
    }

    /// Loading ended.
    pub fn loading_finished(&mut self)
        ensures
            *final(self) == (ProxiesComponent { loading: false, ..*old(self) }),
    {
        self.loading = false;
    }

    /// A group test ended.
    pub fn test_finished(&mut self)
        ensures
            *final(self) == (ProxiesComponent {
                pending_test: if old(self).pending_test == 0 {
                    0
                } else {
                    (old(self).pending_test - 1) as u16
                },
                ..*old(self)
            }),
    {
        if self.pending_test > 0 {
            self.pending_test = self.pending_test - 1;
        }
    }
}

/// The proxy providers view.
#[derive(Debug, Clone, Copy, PartialEq, Eq, Structural)]
pub struct ProxyProvidersComponent {
    pub navigator: ScrollableNavigator,
    pub loading: bool,
    pub pending_test: u16,
}

impl ProxyProvidersComponent {
    /// Nothing selected, nothing running.
    pub fn new() -> (r: Self)
        ensures
            r.navigator == ScrollableNavigator::new_spec(),
            !r.loading,
            r.pending_test == 0,
    {
        ProxyProvidersComponent { navigator: ScrollableNavigator::new(), loading: false, pending_test: 0 }
    }

    /// Handles a key: the navigation keys move the selection; Esc clears it;
    /// r reloads unless loading; s opens the settings; Enter shows the
    /// selected provider; t checks its health; u updates it.
    pub fn handle_key_event(&mut self, key: KeyInput, providers: &ProxyProviders) -> (r: CardCommand)
        requires
            old(self).navigator.wf(),
        ensures
            final(self).navigator.wf(),
            is_navigation_key(key) && old(self).navigator.content_length > 0 ==> r == CardCommand::Nothing
                && *final(self) == (ProxyProvidersComponent {
                navigator: nav_after(old(self).navigator, key),
                ..*old(self)
            }),
            !(is_navigation_key(key) && old(self).navigator.content_length > 0) ==> {
                let sel = match old(self).navigator.focused {
                    Some(i) => if i < providers.providers@.len() {
                        Some(providers.providers@[i as int].provider.name)
                    } else {
                        None
                    },
                    None => None,
                };
                &&& final(self).navigator == if key.code == Key::Esc {
                    ScrollableNavigator { focused: None, ..old(self).navigator }
                } else {
                    old(self).navigator
                }
                &&& final(self).loading == (old(self).loading || key.code == Key::Char('r') || (key.code
                    == Key::Char('u') && sel is Some))
                &&& final(self).pending_test == if key.code == Key::Char('t') && sel is Some {
                    one_more(old(self).pending_test)
                } else {
                    old(self).pending_test
                }
                &&& r == match key.code {
                    Key::Char('r') => if old(self).loading {
                        CardCommand::Nothing
                    } else {
                        CardCommand::Reload
                    },
                    Key::Char('s') => CardCommand::OpenSetting,
                    Key::Enter => match sel {
                        Some(n) => CardCommand::Detail(n),
                        None => CardCommand::Nothing,
                    },
                    Key::Char('t') => match sel {
                        Some(n) => CardCommand::HealthCheck(n),
                        None => CardCommand::Nothing,
                    },
                    Key::Char('u') => match sel {
                        Some(n) => CardCommand::UpdateProvider(n),
                        None => CardCommand::Nothing,
                    },
                    _ => CardCommand::Nothing,
                }
            },
    {
        if self.navigator.handle_key_event(key) {
            return CardCommand::Nothing;
        }
        match key.code {
            Key::Esc => {
                self.navigator.focused = None;
                CardCommand::Nothing
            },
            Key::Char('r') => {
                if self.loading {
                    CardCommand::Nothing
                } else {
                    self.loading = true;
                    CardCommand::Reload
                }
            },
            Key::Char('s') => CardCommand::OpenSetting,
            Key::Enter => match self.navigator.focused {
                Some(i) => match providers.get(i) {
                    Some(v) => CardCommand::Detail(v.provider.name.clone()),
                    None => CardCommand::Nothing,
                },
                None => CardCommand::Nothing,
            },
            Key::Char('t') => match self.navigator.focused {
                Some(i) => match providers.get(i) {
                    Some(v) => {
                        self.pending_test = if self.pending_test == u16::MAX {
                            0
                        } else {
                            self.pending_test + 1
                        };
                        CardCommand::HealthCheck(v.provider.name.clone())
                    },
                    None => CardCommand::Nothing,
                },
                None => CardCommand::Nothing,
            },
            Key::Char('u') => match self.navigator.focused {
                Some(i) => match providers.get(i) {
                    Some(v) => {
                        self.loading = true;
                        CardCommand::UpdateProvider(v.provider.name.clone())
                    },
                    None => CardCommand::Nothing,
                },
                None => CardCommand::Nothing,
            },
            _ => CardCommand::Nothing,
        }
    }

    /// Loading or updating ended.
    pub fn loading_finished(&mut self)
        ensures
            *final(self) == (ProxyProvidersComponent { loading: false, ..*old(self) }),
    {
        self.loading = false;
    }

    /// A health check ended.
    pub fn health_check_finished(&mut self)
        ensures
            *final(self) == (ProxyProvidersComponent { pending_test: one_less(old(self).pending_test), ..*old(self) }),
    {
        self.pending_test = if self.pending_test == 0 {
            u16::MAX
        } else {
            self.pending_test - 1
        };
    }
}

/// The footer labels of the proxy groups view: navigation, paging, jumping, detail, refresh, setting and test.
pub open spec fn proxies_shortcut_labels() -> Seq<Seq<(bool, Seq<char>)>> {
    seq![
        seq![(true, "↑"@), (false, "/"@), (true, "←"@), (false, " nav "@), (true, "→"@), (false, "/"@), (true, "↓"@)],
        seq![(true, "PgUp"@), (false, " page "@), (true, "PgDn"@)],
        seq![(true, "g"@), (false, " jump "@), (true, "G"@)],
        seq![(false, "detail "@), (true, "↵"@)],
        split_at_highlight("refresh"@, 0),
        split_at_highlight("setting"@, 0),
        split_at_highlight("test"@, 0),
    ]
}

impl ProxiesComponent {
    /// The footer labels.
    pub fn shortcuts(&self) -> (r: Vec<Shortcut>)
        ensures
            shortcuts_match(r@, proxies_shortcut_labels()),
    {
        let s0 = Shortcut::new(vec![Fragment::hl("↑"), Fragment::raw("/"), Fragment::hl("←"), Fragment::raw(" nav "), Fragment::hl("→"), Fragment::raw("/"), Fragment::hl("↓")]);
        let s1 = Shortcut::new(vec![Fragment::hl("PgUp"), Fragment::raw(" page "), Fragment::hl("PgDn")]);
        let s2 = Shortcut::new(vec![Fragment::hl("g"), Fragment::raw(" jump "), Fragment::hl("G")]);
        let s3 = Shortcut::new(vec![Fragment::raw("detail "), Fragment::hl("↵")]);
        let s4 = Shortcut::new(vec![Fragment::hl("r"), Fragment::raw("efresh")]);
        let s5 = Shortcut::new(vec![Fragment::hl("s"), Fragment::raw("etting")]);
        let s6 = Shortcut::new(vec![Fragment::hl("t"), Fragment::raw("est")]);
        proof {
            assert(parts_view(s0.parts@) =~= seq![(true, "↑"@), (false, "/"@), (true, "←"@), (false, " nav "@), (true, "→"@), (false, "/"@), (true, "↓"@)]);
            assert(parts_view(s1.parts@) =~= seq![(true, "PgUp"@), (false, " page "@), (true, "PgDn"@)]);
            assert(parts_view(s2.parts@) =~= seq![(true, "g"@), (false, " jump "@), (true, "G"@)]);
            assert(parts_view(s3.parts@) =~= seq![(false, "detail "@), (true, "↵"@)]);
            reveal_strlit("refresh");
            reveal_strlit("r");
            reveal_strlit("efresh");
            assert("refresh"@.subrange(0, 1) =~= "r"@);
            assert("refresh"@.subrange(1, 7) =~= "efresh"@);
            assert(parts_view(s4.parts@) =~= seq![fragment_view(s4.parts@[0]), fragment_view(s4.parts@[1])]);
            assert(parts_view(s4.parts@) =~= split_at_highlight("refresh"@, 0));
            reveal_strlit("setting");
            reveal_strlit("s");
            reveal_strlit("etting");
            assert("setting"@.subrange(0, 1) =~= "s"@);
            assert("setting"@.subrange(1, 7) =~= "etting"@);
            assert(parts_view(s5.parts@) =~= seq![fragment_view(s5.parts@[0]), fragment_view(s5.parts@[1])]);
            assert(parts_view(s5.parts@) =~= split_at_highlight("setting"@, 0));
            reveal_strlit("test");
            reveal_strlit("t");
            reveal_strlit("est");
            assert("test"@.subrange(0, 1) =~= "t"@);
            assert("test"@.subrange(1, 4) =~= "est"@);
            assert(parts_view(s6.parts@) =~= seq![fragment_view(s6.parts@[0]), fragment_view(s6.parts@[1])]);
            assert(parts_view(s6.parts@) =~= split_at_highlight("test"@, 0));
        }
        let r = vec![s0, s1, s2, s3, s4, s5, s6];
        assert(shortcuts_match(r@, proxies_shortcut_labels()));
        r
    }
}

/// The footer labels of the proxy providers view: navigation, paging, jumping, detail, refresh, setting, test and update.
pub open spec fn proxy_providers_shortcut_labels() -> Seq<Seq<(bool, Seq<char>)>> {
    seq![
        seq![(true, "↑"@), (false, "/"@), (true, "←"@), (false, " nav "@), (true, "→"@), (false, "/"@), (true, "↓"@)],
        seq![(true, "PgUp"@), (false, " page "@), (true, "PgDn"@)],
        seq![(true, "g"@), (false, " jump "@), (true, "G"@)],
        seq![(false, "detail "@), (true, "↵"@)],
        split_at_highlight("refresh"@, 0),
        split_at_highlight("setting"@, 0),
        split_at_highlight("test"@, 0),
        split_at_highlight("update"@, 0),
    ]
}

impl ProxyProvidersComponent {
    /// The footer labels.
    pub fn shortcuts(&self) -> (r: Vec<Shortcut>)
        ensures
            shortcuts_match(r@, proxy_providers_shortcut_labels()),
    {
        let s0 = Shortcut::new(vec![Fragment::hl("↑"), Fragment::raw("/"), Fragment::hl("←"), Fragment::raw(" nav "), Fragment::hl("→"), Fragment::raw("/"), Fragment::hl("↓")]);
        let s1 = Shortcut::new(vec![Fragment::hl("PgUp"), Fragment::raw(" page "), Fragment::hl("PgDn")]);
        let s2 = Shortcut::new(vec![Fragment::hl("g"), Fragment::raw(" jump "), Fragment::hl("G")]);
        let s3 = Shortcut::new(vec![Fragment::raw("detail "), Fragment::hl("↵")]);
        let s4 = Shortcut::new(vec![Fragment::hl("r"), Fragment::raw("efresh")]);
        let s5 = Shortcut::new(vec![Fragment::hl("s"), Fragment::raw("etting")]);
        let s6 = Shortcut::new(vec![Fragment::hl("t"), Fragment::raw("est")]);
        let s7 = Shortcut::new(vec![Fragment::hl("u"), Fragment::raw("pdate")]);
        proof {
            assert(parts_view(s0.parts@) =~= seq![(true, "↑"@), (false, "/"@), (true, "←"@), (false, " nav "@), (true, "→"@), (false, "/"@), (true, "↓"@)]);
            assert(parts_view(s1.parts@) =~= seq![(true, "PgUp"@), (false, " page "@), (true, "PgDn"@)]);
            assert(parts_view(s2.parts@) =~= seq![(true, "g"@), (false, " jump "@), (true, "G"@)]);
            assert(parts_view(s3.parts@) =~= seq![(false, "detail "@), (true, "↵"@)]);
            reveal_strlit("refresh");
            reveal_strlit("r");
            reveal_strlit("efresh");
            assert("refresh"@.subrange(0, 1) =~= "r"@);
            assert("refresh"@.subrange(1, 7) =~= "efresh"@);
            assert(parts_view(s4.parts@) =~= seq![fragment_view(s4.parts@[0]), fragment_view(s4.parts@[1])]);
            assert(parts_view(s4.parts@) =~= split_at_highlight("refresh"@, 0));
            reveal_strlit("setting");
            reveal_strlit("s");
            reveal_strlit("etting");
            assert("setting"@.subrange(0, 1) =~= "s"@);
            assert("setting"@.subrange(1, 7) =~= "etting"@);
            assert(parts_view(s5.parts@) =~= seq![fragment_view(s5.parts@[0]), fragment_view(s5.parts@[1])]);
            assert(parts_view(s5.parts@) =~= split_at_highlight("setting"@, 0));
            reveal_strlit("test");
            reveal_strlit("t");
            reveal_strlit("est");
            assert("test"@.subrange(0, 1) =~= "t"@);
            assert("test"@.subrange(1, 4) =~= "est"@);
            assert(parts_view(s6.parts@) =~= seq![fragment_view(s6.parts@[0]), fragment_view(s6.parts@[1])]);
            assert(parts_view(s6.parts@) =~= split_at_highlight("test"@, 0));
            reveal_strlit("update");
            reveal_strlit("u");
            reveal_strlit("pdate");
            assert("update"@.subrange(0, 1) =~= "u"@);
            assert("update"@.subrange(1, 6) =~= "pdate"@);
            assert(parts_view(s7.parts@) =~= seq![fragment_view(s7.parts@[0]), fragment_view(s7.parts@[1])]);
            assert(parts_view(s7.parts@) =~= split_at_highlight("update"@, 0));
        }
        let r = vec![s0, s1, s2, s3, s4, s5, s6, s7];
        assert(shortcuts_match(r@, proxy_providers_shortcut_labels()));
        r
    }
}

/// What a key press in a provider's detail asks of the application.
#[derive(Debug, Clone, PartialEq, Eq)]
pub enum ProviderDetailCommand {
    Nothing,
    /// Give the focus back.
    Unfocus,
    /// Load the providers again.
    Reload,
    /// Check the health of the named provider.
    HealthCheck(String),
    /// Update the named provider.
    Update(String),
    /// Sort the proxies by the next field.
    SwitchSortField,
    /// Reverse the sort of the proxies.
    ToggleSortDirection,
}

/// The detail of a proxy provider: its proxies as cards.
#[derive(Debug, Clone)]
pub struct ProxyProviderDetailComponent {
    pub show: bool,
    pub loading: bool,
    pub health_checking: bool,
    pub provider_name: Option<String>,
    /// Where the provider was last found among the shown providers.
    pub provider_index: Option<usize>,
    pub navigator: ScrollableNavigator,
}

/// The detail after it is closed.
pub open spec fn provider_detail_closed(d: ProxyProviderDetailComponent) -> ProxyProviderDetailComponent {
    ProxyProviderDetailComponent { show: false, provider_name: None, provider_index: None, ..d }
}

impl ProxyProviderDetailComponent {
    /// Hidden, with no provider.
    pub fn new() -> (r: Self)
        ensures
            !r.show,
            !r.loading,
            !r.health_checking,
            r.provider_name is None,
            r.provider_index is None,
            r.navigator == ScrollableNavigator::new_spec(),
    {
        ProxyProviderDetailComponent {
            show: false,
            loading: false,
            health_checking: false,
            provider_name: None,
            provider_index: None,
            navigator: ScrollableNavigator::new(),
        }
    }

    /// Shows the named provider from its first card, with nothing focused.
    pub fn show(&mut self, provider_name: String)
        requires
            old(self).navigator.wf(),
        ensures
            final(self).navigator.wf(),
            *final(self) == (ProxyProviderDetailComponent {
                show: true,
                provider_name: Some(provider_name),
                navigator: ScrollableNavigator { focused: None, pos: 0, ..old(self).navigator },
                ..*old(self)
            }),
    {
        self.show = true;
        self.provider_name = Some(provider_name);
        self.navigator.focused = None;
        self.navigator.pos = 0;
    }

    /// Hides the detail and forgets the provider.
    pub fn close(&mut self)
        ensures
            *final(self) == provider_detail_closed(*old(self)),
    {
        self.show = false;
        self.provider_name = None;
        self.provider_index = None;
    }

    /// The provider shown: at the remembered position while the name there
    /// still matches, else the first of that name, whose position is then
    /// remembered.
    pub fn get_provider(&mut self, providers: &ProxyProviders) -> (r: Option<Arc<ProviderView>>)
        ensures
            match old(self).provider_name {
                None => r is None && *final(self) == *old(self),
                Some(n) => {
                    let ps = providers.providers@;
                    if old(self).provider_index matches Some(i) && i < ps.len() && ps[i as int].provider.name@
                        == n@ {
                        r == Some(ps[old(self).provider_index->0 as int]) && *final(self) == *old(self)
                    } else {
                        ||| exists|j: int|
                            #![trigger ps[j]]
                            first_named(ps, n@, j) && r == Some(ps[j]) && *final(self) == (
                            ProxyProviderDetailComponent { provider_index: Some(j as usize), ..*old(self) })
                        ||| none_named(ps, n@) && r is None && *final(self) == *old(self)
                    }
                },
            },
    {
        let name = match &self.provider_name {
            Some(n) => n,
            None => {
                return None;
            },
        };
        match self.provider_index {
            Some(i) => match providers.get(i) {
                Some(p) => {
                    if p.provider.name == *name {
                        return Some(p);
                    }
                },
                None => {},
            },
            None => {},
        }
        match providers.get_by_name(name) {
            Some((index, p)) => {
                self.provider_index = Some(index);
                Some(p)
            },
            None => None,
        }
    }

    /// Handles a key, when a provider is shown: the navigation keys move the
    /// focus; q or Esc closes; r reloads; t checks the provider's health; u
    /// updates it; s and S change the sort.
    pub fn handle_key_event(&mut self, key: KeyInput) -> (r: ProviderDetailCommand)
        requires
            old(self).navigator.wf(),
        ensures
            final(self).navigator.wf(),
            old(self).provider_name is None ==> r == ProviderDetailCommand::Nothing && *final(self) == *old(self),
            old(self).provider_name matches Some(n) ==> {
                if is_navigation_key(key) && old(self).navigator.content_length > 0 {
                    r == ProviderDetailCommand::Nothing && *final(self) == (ProxyProviderDetailComponent {
                        navigator: nav_after(old(self).navigator, key),
                        ..*old(self)
                    })
                } else {
                    match key.code {
                        Key::Char('q') | Key::Esc => r == ProviderDetailCommand::Unfocus && *final(self)
                            == provider_detail_closed(*old(self)),
                        Key::Char('r') => r == ProviderDetailCommand::Reload && *final(self) == (
                        ProxyProviderDetailComponent { loading: true, ..*old(self) }),
                        Key::Char('t') => r == ProviderDetailCommand::HealthCheck(n) && *final(self) == (
                        ProxyProviderDetailComponent { health_checking: true, ..*old(self) }),
                        Key::Char('u') => r == ProviderDetailCommand::Update(n) && *final(self) == (
                        ProxyProviderDetailComponent { loading: true, ..*old(self) }),
                        Key::Char('s') => r == ProviderDetailCommand::SwitchSortField && *final(self) == *old(
                            self,
                        ),
                        Key::Char('S') => r == ProviderDetailCommand::ToggleSortDirection && *final(self)
                            == *old(self),
                        _ => r == ProviderDetailCommand::Nothing && *final(self) == *old(self),
                    }
                }
            },
    {
        let name = match &self.provider_name {
            Some(n) => n.clone(),
            None => {
                return ProviderDetailCommand::Nothing;
            },
        };
        if self.navigator.handle_key_event(key) {
            return ProviderDetailCommand::Nothing;
        }
        match key.code {
            Key::Char('q') | Key::Esc => {
                self.close();
                ProviderDetailCommand::Unfocus
            },
            Key::Char('r') => {
                self.loading = true;
                ProviderDetailCommand::Reload
            },
            Key::Char('t') => {
                self.health_checking = true;
                ProviderDetailCommand::HealthCheck(name)
            },
            Key::Char('u') => {
                self.loading = true;
                ProviderDetailCommand::Update(name)
            },
            Key::Char('s') => ProviderDetailCommand::SwitchSortField,
            Key::Char('S') => ProviderDetailCommand::ToggleSortDirection,
            _ => ProviderDetailCommand::Nothing,
        }
    }

    /// Loading or updating ended.
    pub fn loading_finished(&mut self)
        ensures
            *final(self) == (ProxyProviderDetailComponent { loading: false, ..*old(self) }),
    {
        self.loading = false;
    }

    /// The health check ended.
    pub fn health_check_finished(&mut self)
        ensures
            *final(self) == (ProxyProviderDetailComponent { health_checking: false, ..*old(self) }),
    {
        self.health_checking = false;
    }
}

/// The footer labels of a provider's detail: navigation, paging, jumping, back, refresh, test, update and sort.
pub open spec fn provider_detail_shortcut_labels() -> Seq<Seq<(bool, Seq<char>)>> {
    seq![
        seq![(true, "↑"@), (false, "/"@), (true, "←"@), (false, " nav "@), (true, "→"@), (false, "/"@), (true, "↓"@)],
        seq![(true, "PgUp"@), (false, " page "@), (true, "PgDn"@)],
        seq![(true, "g"@), (false, " jump "@), (true, "G"@)],
        seq![(false, "back "@), (true, "Esc"@)],
        split_at_highlight("refresh"@, 0),
        split_at_highlight("test"@, 0),
        split_at_highlight("update"@, 0),
        split_at_highlight("sort"@, 0),
    ]
}

impl ProxyProviderDetailComponent {
    /// The footer labels.
    pub fn shortcuts(&self) -> (r: Vec<Shortcut>)
        ensures
            shortcuts_match(r@, provider_detail_shortcut_labels()),
    {
        let s0 = Shortcut::new(vec![Fragment::hl("↑"), Fragment::raw("/"), Fragment::hl("←"), Fragment::raw(" nav "), Fragment::hl("→"), Fragment::raw("/"), Fragment::hl("↓")]);
        let s1 = Shortcut::new(vec![Fragment::hl("PgUp"), Fragment::raw(" page "), Fragment::hl("PgDn")]);
        let s2 = Shortcut::new(vec![Fragment::hl("g"), Fragment::raw(" jump "), Fragment::hl("G")]);
        let s3 = Shortcut::new(vec![Fragment::raw("back "), Fragment::hl("Esc")]);
        let s4 = Shortcut::new(vec![Fragment::hl("r"), Fragment::raw("efresh")]);
        let s5 = Shortcut::new(vec![Fragment::hl("t"), Fragment::raw("est")]);
        let s6 = Shortcut::new(vec![Fragment::hl("u"), Fragment::raw("pdate")]);
        let s7 = Shortcut::new(vec![Fragment::hl("s"), Fragment::raw("ort")]);
        proof {
            assert(parts_view(s0.parts@) =~= seq![(true, "↑"@), (false, "/"@), (true, "←"@), (false, " nav "@), (true, "→"@), (false, "/"@), (true, "↓"@)]);
            assert(parts_view(s1.parts@) =~= seq![(true, "PgUp"@), (false, " page "@), (true, "PgDn"@)]);
            assert(parts_view(s2.parts@) =~= seq![(true, "g"@), (false, " jump "@), (true, "G"@)]);
            assert(parts_view(s3.parts@) =~= seq![(false, "back "@), (true, "Esc"@)]);
            reveal_strlit("refresh");
            reveal_strlit("r");
            reveal_strlit("efresh");
            assert("refresh"@.subrange(0, 1) =~= "r"@);
            assert("refresh"@.subrange(1, 7) =~= "efresh"@);
            assert(parts_view(s4.parts@) =~= seq![fragment_view(s4.parts@[0]), fragment_view(s4.parts@[1])]);
            assert(parts_view(s4.parts@) =~= split_at_highlight("refresh"@, 0));
            reveal_strlit("test");
            reveal_strlit("t");
            reveal_strlit("est");
            assert("test"@.subrange(0, 1) =~= "t"@);
            assert("test"@.subrange(1, 4) =~= "est"@);
            assert(parts_view(s5.parts@) =~= seq![fragment_view(s5.parts@[0]), fragment_view(s5.parts@[1])]);
            assert(parts_view(s5.parts@) =~= split_at_highlight("test"@, 0));
            reveal_strlit("update");
            reveal_strlit("u");
            reveal_strlit("pdate");
            assert("update"@.subrange(0, 1) =~= "u"@);
            assert("update"@.subrange(1, 6) =~= "pdate"@);
            assert(parts_view(s6.parts@) =~= seq![fragment_view(s6.parts@[0]), fragment_view(s6.parts@[1])]);
            assert(parts_view(s6.parts@) =~= split_at_highlight("update"@, 0));
            reveal_strlit("sort");
            reveal_strlit("s");
            reveal_strlit("ort");
            assert("sort"@.subrange(0, 1) =~= "s"@);
            assert("sort"@.subrange(1, 4) =~= "ort"@);
            assert(parts_view(s7.parts@) =~= seq![fragment_view(s7.parts@[0]), fragment_view(s7.parts@[1])]);
            assert(parts_view(s7.parts@) =~= split_at_highlight("sort"@, 0));
        }
        let r = vec![s0, s1, s2, s3, s4, s5, s6, s7];
        assert(shortcuts_match(r@, provider_detail_shortcut_labels()));
        r
    }
}

} // verus!
