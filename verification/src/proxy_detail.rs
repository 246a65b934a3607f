//! The proxy group detail: the members of a group as cards, with a trail of
//! the nested groups opened, each remembering where its selection was.
use vstd::prelude::*;
use crate::key::{Key, KeyInput, MOD_CONTROL};
use crate::navigator::{is_navigation_key, nav_after, pos_showing, ScrollableNavigator};
use crate::proxies::{find_name, find_proxy, lemma_find_name, Proxy};

use crate::shortcut::{fragment_view, parts_view, shortcuts_match, split_at_highlight, Fragment, Shortcut};
verus! {

/// A group opened in the trail, with the selection it had when left.
#[derive(Debug, Clone)]
pub struct Layer {
    pub name: String,
    pub navigator: ScrollableNavigator,
}

/// What a key press in the detail asks of the application.
#[derive(Debug, Clone)]
pub enum DetailCommand {
    Nothing,
    /// The detail closed: give the focus back.
    Close,
    /// Load the proxies again.
    Reload,
    /// Make `group` use the member `proxy`.
    Select { group: String, proxy: String },
    /// Test the latency of one proxy.
    TestProxy(String),
    /// Test the latency of every member of a group.
    TestGroup(String),
}

/// The detail view.
#[derive(Debug)]
pub struct ProxyDetailComponent {
    pub show: bool,
    /// The group shown.
    pub proxy_name: Option<String>,
    /// The trail of opened groups: the first is where it started, the last
    /// is the group shown.
    pub layers: Vec<Layer>,
    pub navigator: ScrollableNavigator,
    /// Proxies are being loaded.
    pub loading: bool,
    /// Latency tests running.
    pub pending_test: u16,
}

/// Whether a group of the trail has this name.
pub open spec fn has_layer(ls: Seq<Layer>, name: Seq<char>) -> bool {
    exists|i: int| 0 <= i < ls.len() && #[trigger] ls[i].name@ == name
}

/// The selection cleared and the window at the top.
pub open spec fn reset_nav(n: ScrollableNavigator) -> ScrollableNavigator {
    ScrollableNavigator { focused: None, pos: 0, ..n }
}

/// The trail after showing `name`: unchanged when the group is on it,
/// else with the group added.
pub open spec fn synced_layers(ls: Seq<Layer>, name: String) -> Seq<Layer> {
    if has_layer(ls, name@) {
        ls
    } else {
        ls.push(Layer { name, navigator: ScrollableNavigator::new_spec() })
    }
}

/// The selection after showing `name`: the one the last group of the trail
/// remembers when the group is on the trail, else a cleared one.
pub open spec fn synced_navigator(ls: Seq<Layer>, nav: ScrollableNavigator, name: String) -> ScrollableNavigator {
    if has_layer(ls, name@) {
        ls.last().navigator
    } else {
        reset_nav(nav)
    }
}

/// The trail with the last group remembering `nav`.
pub open spec fn backed_up(ls: Seq<Layer>, nav: ScrollableNavigator) -> Seq<Layer> {
    if ls.len() > 0 {
        ls.update(ls.len() - 1, Layer { name: ls.last().name, navigator: nav })
    } else {
        ls
    }
}

/// `a` is the view after showing `name` from a view with trail `ls`,
/// selection `nav`, and the flags `loading` and `pending`; `ok` tells
/// whether the group exists. A group that does not exist closes the view.
pub open spec fn show_effect(
    ls: Seq<Layer>,
    nav: ScrollableNavigator,
    loading: bool,
    pending: u16,
    a: ProxyDetailComponent,
    name: String,
    ps: Seq<Proxy>,
    ok: bool,
) -> bool {
    if find_name(ps, name@) is None {
        &&& !ok
        &&& !a.show
        &&& a.proxy_name is None
        &&& a.layers@.len() == 0
        &&& a.navigator == nav
        &&& a.loading == loading
        &&& a.pending_test == pending
    } else {
        &&& ok
        &&& a.show
        &&& a.proxy_name == Some(name)
        &&& !a.loading
        &&& a.pending_test == 0
        &&& a.layers@ == synced_layers(ls, name)
        &&& a.navigator == synced_navigator(ls, nav, name)
    }
}

/// The member of a group at `idx`.
pub open spec fn child_at(p: Proxy, idx: usize) -> Option<String> {
    match p.children {
        Some(c) => if idx < c@.len() {
            Some(c@[idx as int])
        } else {
            None
        },
        None => None,
    }
}

/// Position of the first text equal to `s`.
pub open spec fn index_of_text(c: Seq<String>, s: Seq<char>) -> Option<int>
    decreases c.len(),
{
    if c.len() == 0 {
        None
    } else if c[0]@ == s {
        Some(0)
    } else {
        match index_of_text(c.drop_first(), s) {
            Some(i) => Some(i + 1),
            None => None,
        }
    }
}

proof fn lemma_index_of_text(c: Seq<String>, s: Seq<char>)
    ensures
        index_of_text(c, s) matches Some(i) ==> 0 <= i < c.len() && c[i]@ == s && forall|j: int|
            0 <= j < i ==> #[trigger] c[j]@ != s,
        index_of_text(c, s) is None ==> forall|j: int| 0 <= j < c.len() ==> #[trigger] c[j]@ != s,
    decreases c.len(),
{
    if c.len() > 0 && c[0]@ != s {
        lemma_index_of_text(c.drop_first(), s);
        assert forall|j: int| 0 < j < c.len() implies #[trigger] c[j]@ == c.drop_first()[j - 1]@ by {}
    }
}

fn position_of_text(c: &Vec<String>, s: &String) -> (r: Option<usize>)
    ensures
        r matches Some(i) ==> index_of_text(c@, s@) == Some(i as int),
        r is None ==> index_of_text(c@, s@) is None,
{
    proof {
        lemma_index_of_text(c@, s@);
    }
    let mut i: usize = 0;
    while i < c.len()
        invariant
            i <= c@.len(),
            forall|j: int| 0 <= j < i ==> #[trigger] c@[j]@ != s@,
            index_of_text(c@, s@) matches Some(k) ==> i <= k,
        decreases c.len() - i,
    {
        proof {
            lemma_index_of_text(c@, s@);
        }
        if c[i] == *s {
            return Some(i);
        }
        i = i + 1;
    }
    proof {
        lemma_index_of_text(c@, s@);
    }
    None
}

/// The row `c` focuses: the member the group uses, when it is among the
/// rows shown.
pub open spec fn current_index(p: Proxy, content_length: usize) -> Option<usize> {
    match (p.selected, p.children) {
        (Some(s), Some(c)) => match index_of_text(c@, s@) {
            Some(i) => if i < content_length {
                Some(i as usize)
            } else {
                None
            },
            None => None,
        },
        _ => None,
    }
}

/// The selection after `c`.
pub open spec fn focus_current_nav(n: ScrollableNavigator, p: Proxy) -> ScrollableNavigator {
    match current_index(p, n.content_length) {
        Some(i) => ScrollableNavigator { focused: Some(i), pos: pos_showing(n.pos, n.viewport, i), ..n },
        None => n,
    }
}

/// The view with another selection.
pub open spec fn with_nav(s: ProxyDetailComponent, n: ScrollableNavigator) -> ProxyDetailComponent {
    ProxyDetailComponent { navigator: n, ..s }
}

/// `a` is `b` closed.
pub open spec fn closed(b: ProxyDetailComponent, a: ProxyDetailComponent) -> bool {
    &&& !a.show
    &&& a.proxy_name is None
    &&& a.layers@.len() == 0
    &&& a.navigator == b.navigator
    &&& a.loading == b.loading
    &&& a.pending_test == b.pending_test
}

/// The group `]` opens: the focused member, or else the member the group
/// uses, when it is itself a group with members.
pub open spec fn child_group(b: ProxyDetailComponent, g: Proxy, ps: Seq<Proxy>) -> Option<int> {
    let target = match b.navigator.focused {
        Some(idx) => child_at(g, idx),
        None => g.selected,
    };
    match target {
        Some(t) => match find_name(ps, t@) {
            Some(j) => if ps[j].children matches Some(c) && c@.len() > 0 {
                Some(j)
            } else {
                None
            },
            None => None,
        },
        None => None,
    }
}

/// What a key does to the view `b` showing group `g`, giving `a` and `r`.
pub open spec fn group_key_effect(
    b: ProxyDetailComponent,
    a: ProxyDetailComponent,
    key: KeyInput,
    g: Proxy,
    ps: Seq<Proxy>,
    r: DetailCommand,
) -> bool {
    if is_navigation_key(key) && b.navigator.content_length > 0 {
        a == with_nav(b, nav_after(b.navigator, key)) && r == DetailCommand::Nothing
    } else if key.code == Key::Char('c') && (key.mods.bits & MOD_CONTROL) != MOD_CONTROL {
        a == with_nav(b, focus_current_nav(b.navigator, g)) && r == DetailCommand::Nothing
    } else if key.code == Key::Char('q') {
        closed(b, a) && r == DetailCommand::Close
    } else if key.code == Key::Esc {
        if b.navigator.focused is Some {
            a == with_nav(b, ScrollableNavigator { focused: None, ..b.navigator }) && r == DetailCommand::Nothing
        } else {
            closed(b, a) && r == DetailCommand::Close
        }
    } else if key.code == Key::Char('r') {
        &&& a.layers@ == backed_up(b.layers@, b.navigator)
        &&& a.loading
        &&& a.show == b.show
        &&& a.proxy_name == b.proxy_name
        &&& a.navigator == b.navigator
        &&& a.pending_test == b.pending_test
        &&& r == DetailCommand::Reload
    } else if key.code == Key::Enter {
        match b.navigator.focused {
            Some(idx) => match child_at(g, idx) {
                Some(c) => {
                    &&& a.layers@ == backed_up(b.layers@, b.navigator)
                    &&& a.loading == b.loading
                    &&& a.show == b.show
                    &&& a.proxy_name == b.proxy_name
                    &&& a.navigator == b.navigator
                    &&& a.pending_test == b.pending_test
                    &&& r == DetailCommand::Select { group: g.name, proxy: c }
                },
                None => a == b && r == DetailCommand::Nothing,
            },
            None => a == b && r == DetailCommand::Nothing,
        }
    } else if key.code == Key::Char('t') {
        let tested = match b.navigator.focused {
            None => Some(DetailCommand::TestGroup(g.name)),
            Some(idx) => match child_at(g, idx) {
                Some(c) => Some(DetailCommand::TestProxy(c)),
                None => None,
            },
        };
        match tested {
            Some(cmd) => {
                &&& r == cmd
                &&& a == ProxyDetailComponent {
                    pending_test: if b.pending_test == u16::MAX {
                        0
                    } else {
                        (b.pending_test + 1) as u16
                    },
                    ..b
                }
            },
            None => a == b && r == DetailCommand::Nothing,
        }
    } else if key.code == Key::Char('[') && !b.loading && b.layers@.len() > 1 {
        let popped = b.layers@.drop_last();
        &&& show_effect(popped, b.navigator, b.loading, b.pending_test, a, popped.last().name, ps, r is Nothing)
        &&& (r is Nothing || r is Close)
    } else if key.code == Key::Char(']') && !b.loading {
        match child_group(b, g, ps) {
            Some(j) => {
                &&& show_effect(
                    backed_up(b.layers@, b.navigator),
                    b.navigator,
                    b.loading,
                    b.pending_test,
                    a,
                    ps[j].name,
                    ps,
                    true,
                )
                &&& r == DetailCommand::Nothing
            },
            None => a == b && r == DetailCommand::Nothing,
        }
    } else {
        a == b && r == DetailCommand::Nothing
    }
}

/// What a key does to the view `b`, giving `a` and `r`: nothing unless the
/// group shown exists.
pub open spec fn detail_key_effect(
    b: ProxyDetailComponent,
    a: ProxyDetailComponent,
    key: KeyInput,
    ps: Seq<Proxy>,
    r: DetailCommand,
) -> bool {
    match b.proxy_name {
        Some(n) => match find_name(ps, n@) {
            Some(i) => group_key_effect(b, a, key, ps[i], ps, r),
            None => a == b && r == DetailCommand::Nothing,
        },
        None => a == b && r == DetailCommand::Nothing,
    }
}

impl ProxyDetailComponent {
    /// Every selection is in range.
    pub open spec fn wf(&self) -> bool {
        &&& self.navigator.wf()
        &&& forall|i: int| 0 <= i < self.layers@.len() ==> (#[trigger] self.layers@[i]).navigator.wf()
    }

    /// A closed view.
    pub fn new() -> (r: Self)
        ensures
            r.wf(),
            !r.show,
            r.proxy_name is None,
            r.layers@.len() == 0,
            r.navigator == ScrollableNavigator::new_spec(),
            !r.loading,
            r.pending_test == 0,
    {
        ProxyDetailComponent {
            show: false,
            proxy_name: None,
            layers: Vec::new(),
            navigator: ScrollableNavigator::new(),
            loading: false,
            pending_test: 0,
        }
    }

    /// Closes the view and forgets the trail.
    pub fn close(&mut self)
        ensures
            closed(*old(self), *final(self)),
    {
        self.show = false;
        self.proxy_name = None;
        self.layers.clear();
    }

    /// Whether a group of the trail has this name.
    fn on_trail(&self, name: &String) -> (r: bool)
        ensures
            r == has_layer(self.layers@, name@),
    {
        let mut i: usize = 0;
        while i < self.layers.len()
            invariant
                i <= self.layers@.len(),
                forall|j: int| 0 <= j < i ==> #[trigger] self.layers@[j].name@ != name@,
            decreases self.layers.len() - i,
        {
            if self.layers[i].name == *name {
                return true;
            }
            i = i + 1;
        }
        false
    }

    /// Brings the trail and selection in line with showing `name`.
    fn sync_layer(&mut self, name: String)
        requires
            old(self).wf(),
        ensures
            final(self).wf(),
            final(self).layers@ == synced_layers(old(self).layers@, name),
            final(self).navigator == synced_navigator(old(self).layers@, old(self).navigator, name),
            final(self).show == old(self).show,
            final(self).proxy_name == old(self).proxy_name,
            final(self).loading == old(self).loading,
            final(self).pending_test == old(self).pending_test,
    {
        if self.on_trail(&name) {
            let n = self.layers.len();
            self.navigator = self.layers[n - 1].navigator;
        } else {
            self.layers.push(Layer { name, navigator: ScrollableNavigator::new() });
            self.navigator.focused = None;
            self.navigator.pos = 0;
        }
    }

    /// The last group of the trail remembers the current selection.
    fn backup_navigator(&mut self)
        requires
            old(self).wf(),
        ensures
            final(self).wf(),
            final(self).layers@ == backed_up(old(self).layers@, old(self).navigator),
            final(self).navigator == old(self).navigator,
            final(self).show == old(self).show,
            final(self).proxy_name == old(self).proxy_name,
            final(self).loading == old(self).loading,
            final(self).pending_test == old(self).pending_test,
    {
        if self.layers.len() > 0 {
            let mut l = self.layers.pop().unwrap();
            l.navigator = self.navigator;
            self.layers.push(l);
        }
    }

    /// Shows group `name` of `ps`; closes the view when there is no such
    /// group. True when it is shown.
    pub fn show(&mut self, name: String, ps: &Vec<Proxy>) -> (ok: bool)
        requires
            old(self).wf(),
        ensures
            final(self).wf(),
            show_effect(
                old(self).layers@,
                old(self).navigator,
                old(self).loading,
                old(self).pending_test,
                *final(self),
                name,
                ps@,
                ok,
            ),
    {
        if find_proxy(ps, &name).is_none() {
            self.close();
            return false;
        }
        self.proxy_name = Some(name.clone());
        self.loading = false;
        self.pending_test = 0;
        self.sync_layer(name);
        self.show = true;
        true
    }

    /// A test ended.
    pub fn test_finished(&mut self)
        ensures
            final(self).pending_test == if old(self).pending_test == 0 {
                0
            } else {
                (old(self).pending_test - 1) as u16
            },
            final(self).show == old(self).show,
            final(self).proxy_name == old(self).proxy_name,
            final(self).layers == old(self).layers,
            final(self).navigator == old(self).navigator,
            final(self).loading == old(self).loading,
    {
        if self.pending_test > 0 {
            self.pending_test = self.pending_test - 1;
        }
    }

    /// A group test ended: it covered every running test.
    pub fn group_test_finished(&mut self)
        ensures
            final(self).pending_test == 0,
            final(self).show == old(self).show,
            final(self).proxy_name == old(self).proxy_name,
            final(self).layers == old(self).layers,
            final(self).navigator == old(self).navigator,
            final(self).loading == old(self).loading,
    {
        self.pending_test = 0;
    }

    /// Loading the proxies ended.
    pub fn loading_finished(&mut self)
        ensures
            !final(self).loading,
            final(self).show == old(self).show,
            final(self).proxy_name == old(self).proxy_name,
            final(self).layers == old(self).layers,
            final(self).navigator == old(self).navigator,
            final(self).pending_test == old(self).pending_test,
    {
        self.loading = false;
    }

    /// Handles a key on the group shown, looked up in `ps`: the navigation
    /// keys move the selection; c focuses the member in use; q closes; Esc
    /// clears the selection or closes; r reloads; Enter selects the focused
    /// member; t tests the focused member or the whole group; `[` goes back
    /// along the trail and `]` opens the focused (or used) member group.
    pub fn handle_key_event(&mut self, key: KeyInput, ps: &Vec<Proxy>) -> (r: DetailCommand)
        requires
            old(self).wf(),
        ensures
            final(self).wf(),
            detail_key_effect(*old(self), *final(self), key, ps@, r),
    {
        let gi = match &self.proxy_name {
            Some(n) => match find_proxy(ps, n) {
                Some(i) => i,
                None => {
                    return DetailCommand::Nothing;
                },
            },
            None => {
                return DetailCommand::Nothing;
            },
        };
        let g = &ps[gi];
        if self.navigator.handle_key_event(key) {
            return DetailCommand::Nothing;
        }
        match key.code {
            Key::Char('c') => {
                if !key.mods.contains(MOD_CONTROL) {
                    self.focus_current(g);
                }
                DetailCommand::Nothing
            },
            Key::Char('q') => {
                self.close();
                DetailCommand::Close
            },
            Key::Esc => {
                if self.navigator.focused.is_some() {
                    self.navigator.focused = None;
                    DetailCommand::Nothing
                } else {
                    self.close();
                    DetailCommand::Close
                }
            },
            Key::Char('r') => {
                self.backup_navigator();
                self.loading = true;
                DetailCommand::Reload
            },
            Key::Enter => match self.navigator.focused {
                Some(idx) => match child_of(g, idx) {
                    Some(c) => {
                        self.backup_navigator();
                        DetailCommand::Select { group: g.name.clone(), proxy: c }
                    },
                    None => DetailCommand::Nothing,
                },
                None => DetailCommand::Nothing,
            },
            Key::Char('t') => {
                let cmd = match self.navigator.focused {
                    None => DetailCommand::TestGroup(g.name.clone()),
                    Some(idx) => match child_of(g, idx) {
                        Some(c) => DetailCommand::TestProxy(c),
                        None => {
                            return DetailCommand::Nothing;
                        },
                    },
                };
                self.pending_test = if self.pending_test == u16::MAX {
                    0
                } else {
                    self.pending_test + 1
                };
                cmd
            },
            Key::Char('[') => {
                if self.loading || self.layers.len() <= 1 {
                    return DetailCommand::Nothing;
                }
                self.layers.pop();
                let n = self.layers.len();
                let parent = self.layers[n - 1].name.clone();
                if self.show(parent, ps) {
                    DetailCommand::Nothing
                } else {
                    DetailCommand::Close
                }
            },
            Key::Char(']') => {
                if self.loading {
                    return DetailCommand::Nothing;
                }
                let target = match self.navigator.focused {
                    Some(idx) => child_of(g, idx),
                    None => match &g.selected {
                        Some(sel) => Some(sel.clone()),
                        None => None,
                    },
                };
                let t = match target {
                    Some(t) => t,
                    None => {
                        return DetailCommand::Nothing;
                    },
                };
                let j = match find_proxy(ps, &t) {
                    Some(j) => j,
                    None => {
                        return DetailCommand::Nothing;
                    },
                };
                let is_group = match &ps[j].children {
                    Some(c) => c.len() > 0,
                    None => false,
                };
                if !is_group {
                    return DetailCommand::Nothing;
                }
                proof {
                    lemma_find_name(ps@, t@);
                }
                self.backup_navigator();
                self.show(ps[j].name.clone(), ps);
                DetailCommand::Nothing
            },
            _ => DetailCommand::Nothing,
        }
    }

    /// Focuses the member the group uses, when it is among the rows.
    fn focus_current(&mut self, g: &Proxy)
        requires
            old(self).wf(),
        ensures
            final(self).wf(),
            *final(self) == with_nav(*old(self), focus_current_nav(old(self).navigator, *g)),
    {
        let sel = match &g.selected {
            Some(s) => s,
            None => {
                return;
            },
        };
        let c = match &g.children {
            Some(c) => c,
            None => {
                return;
            },
        };
        match position_of_text(c, sel) {
            Some(i) => {
                if i < self.navigator.content_length {
                    self.navigator.focus(i);
                }
            },
            None => {},
        }
    }
}

/// The member of a group at `idx`.
fn child_of(p: &Proxy, idx: usize) -> (r: Option<String>)
    ensures
        r == child_at(*p, idx),
{
    match &p.children {
        Some(c) => if idx < c.len() {
            Some(c[idx].clone())
        } else {
            None
        },
        None => None,
    }
}

/// Opening a member group with `]` and going back with `[` brings back the
/// selection the parent group had, when the member group is not already on
/// the trail and the parent is the last group of the trail.
pub proof fn law_open_then_back_restores_selection(
    s0: ProxyDetailComponent,
    s1: ProxyDetailComponent,
    s2: ProxyDetailComponent,
    open: KeyInput,
    back: KeyInput,
    ps: Seq<Proxy>,
    r1: DetailCommand,
    r2: DetailCommand,
)
    requires
        s0.wf(),
        open.code == Key::Char(']'),
        back.code == Key::Char('['),
        s0.proxy_name matches Some(n) && (find_name(ps, n@) matches Some(i) && (child_group(s0, ps[i], ps)
            matches Some(j) && !has_layer(s0.layers@, ps[j].name@))),
        s0.layers@.len() > 0,
        s0.proxy_name matches Some(n) && s0.layers@.last().name == n,
        !s0.loading,
        detail_key_effect(s0, s1, open, ps, r1),
        detail_key_effect(s1, s2, back, ps, r2),
    ensures
        s2.navigator == s0.navigator,
        s2.proxy_name == s0.proxy_name,
        s2.layers@ == backed_up(s0.layers@, s0.navigator),
        r1 is Nothing,
        r2 is Nothing,
{
    let n = s0.proxy_name->0;
    let i = find_name(ps, n@)->0;
    let j = child_group(s0, ps[i], ps)->0;
    let up = backed_up(s0.layers@, s0.navigator);
    assert(!is_navigation_key(open));
    assert(!is_navigation_key(back));
    assert(s1.layers@ == up.push(Layer { name: ps[j].name, navigator: ScrollableNavigator::new_spec() }));
    assert(s1.layers@.drop_last() == up);
    assert(up.last().name == n);
    assert(up.last().navigator == s0.navigator);
    assert(has_layer(up, n@)) by {
        assert(up[up.len() - 1].name@ == n@);
    }
}

/// The footer labels of a proxy group's detail: navigation, paging, jumping, layers, cur, select, back, refresh and test.
pub open spec fn proxy_detail_shortcut_labels() -> Seq<Seq<(bool, Seq<char>)>> {
    seq![
        seq![(true, "↑"@), (false, "/"@), (true, "←"@), (false, " nav "@), (true, "→"@), (false, "/"@), (true, "↓"@)],
        seq![(true, "PgUp"@), (false, " page "@), (true, "PgDn"@)],
        seq![(true, "g"@), (false, " jump "@), (true, "G"@)],
        seq![(true, "["@), (false, " layer "@), (true, "]"@)],
        split_at_highlight("cur"@, 0),
        seq![(false, "sel "@), (true, "↵"@)],
        seq![(false, "back "@), (true, "Esc"@)],
        split_at_highlight("refresh"@, 0),
        split_at_highlight("test"@, 0),
    ]
}

impl ProxyDetailComponent {
    /// The footer labels.
    pub fn shortcuts(&self) -> (r: Vec<Shortcut>)
        ensures
            shortcuts_match(r@, proxy_detail_shortcut_labels()),
    {
        let s0 = Shortcut::new(vec![Fragment::hl("↑"), Fragment::raw("/"), Fragment::hl("←"), Fragment::raw(" nav "), Fragment::hl("→"), Fragment::raw("/"), Fragment::hl("↓")]);
        let s1 = Shortcut::new(vec![Fragment::hl("PgUp"), Fragment::raw(" page "), Fragment::hl("PgDn")]);
        let s2 = Shortcut::new(vec![Fragment::hl("g"), Fragment::raw(" jump "), Fragment::hl("G")]);
        let s3 = Shortcut::new(vec![Fragment::hl("["), Fragment::raw(" layer "), Fragment::hl("]")]);
        let s4 = Shortcut::new(vec![Fragment::hl("c"), Fragment::raw("ur")]);
        let s5 = Shortcut::new(vec![Fragment::raw("sel "), Fragment::hl("↵")]);
        let s6 = Shortcut::new(vec![Fragment::raw("back "), Fragment::hl("Esc")]);
        let s7 = Shortcut::new(vec![Fragment::hl("r"), Fragment::raw("efresh")]);
        let s8 = Shortcut::new(vec![Fragment::hl("t"), Fragment::raw("est")]);
        proof {
            assert(parts_view(s0.parts@) =~= seq![(true, "↑"@), (false, "/"@), (true, "←"@), (false, " nav "@), (true, "→"@), (false, "/"@), (true, "↓"@)]);
            assert(parts_view(s1.parts@) =~= seq![(true, "PgUp"@), (false, " page "@), (true, "PgDn"@)]);
            assert(parts_view(s2.parts@) =~= seq![(true, "g"@), (false, " jump "@), (true, "G"@)]);
            assert(parts_view(s3.parts@) =~= seq![(true, "["@), (false, " layer "@), (true, "]"@)]);
            reveal_strlit("cur");
            reveal_strlit("c");
            reveal_strlit("ur");
            assert("cur"@.subrange(0, 1) =~= "c"@);
            assert("cur"@.subrange(1, 3) =~= "ur"@);
            assert(parts_view(s4.parts@) =~= seq![fragment_view(s4.parts@[0]), fragment_view(s4.parts@[1])]);
            assert(parts_view(s4.parts@) =~= split_at_highlight("cur"@, 0));
            assert(parts_view(s5.parts@) =~= seq![(false, "sel "@), (true, "↵"@)]);
            assert(parts_view(s6.parts@) =~= seq![(false, "back "@), (true, "Esc"@)]);
            reveal_strlit("refresh");
            reveal_strlit("r");
            reveal_strlit("efresh");
            assert("refresh"@.subrange(0, 1) =~= "r"@);
            assert("refresh"@.subrange(1, 7) =~= "efresh"@);
            assert(parts_view(s7.parts@) =~= seq![fragment_view(s7.parts@[0]), fragment_view(s7.parts@[1])]);
            assert(parts_view(s7.parts@) =~= split_at_highlight("refresh"@, 0));
            reveal_strlit("test");
            reveal_strlit("t");
            reveal_strlit("est");
            assert("test"@.subrange(0, 1) =~= "t"@);
            assert("test"@.subrange(1, 4) =~= "est"@);
            assert(parts_view(s8.parts@) =~= seq![fragment_view(s8.parts@[0]), fragment_view(s8.parts@[1])]);
            assert(parts_view(s8.parts@) =~= split_at_highlight("test"@, 0));
        }
        let r = vec![s0, s1, s2, s3, s4, s5, s6, s7, s8];
        assert(shortcuts_match(r@, proxy_detail_shortcut_labels()));
        r
    }
}

} // verus!
