//! The keys and actions of the rules and rule providers tables.
use vstd::prelude::*;
use crate::action::Action;
use crate::key::{Key, KeyInput};
use crate::navigator::{is_navigation_key, nav_after, ScrollableNavigator};
use crate::tabs::ComponentId;

use crate::shortcut::{fragment_view, parts_view, shortcuts_match, split_at_highlight, Fragment, Shortcut};
verus! {

/// What the application is to do after a table took an action.
#[derive(Debug)]
pub struct TableUpdate {
    /// Compute the rows shown again, with the current search pattern.
    pub recompute: bool,
    /// Load the table again.
    pub reload: bool,
    /// The action handed back.
    pub reply: Option<Action>,
}

/// The rules table.
#[derive(Debug)]
pub struct RulesComponent {
    pub navigator: ScrollableNavigator,
    pub filter_pattern: Option<String>,
    pub filter_pattern_changed: bool,
}

impl RulesComponent {
    /// Nothing selected, no search pattern.
    pub fn new() -> (r: Self)
        ensures
            r.navigator == ScrollableNavigator::new_spec(),
            r.filter_pattern is None,
            !r.filter_pattern_changed,
    {
        RulesComponent { navigator: ScrollableNavigator::new(), filter_pattern: None, filter_pattern_changed: false }
    }

    /// Handles a key: the navigation keys move the selection; f focuses the
    /// search box.
    pub fn handle_key_event(&mut self, key: KeyInput) -> (r: Option<Action>)
        requires
            old(self).navigator.wf(),
        ensures
            final(self).navigator.wf(),
            final(self).filter_pattern == old(self).filter_pattern,
            final(self).filter_pattern_changed == old(self).filter_pattern_changed,
            is_navigation_key(key) && old(self).navigator.content_length > 0 ==> r is None
                && final(self).navigator == nav_after(old(self).navigator, key),
            !(is_navigation_key(key) && old(self).navigator.content_length > 0) ==> final(self).navigator
                == old(self).navigator && r == if key.code == Key::Char('f') {
                Some(Action::Focus(ComponentId::Search))
            } else {
                None
            },
    {
        if self.navigator.handle_key_event(key) {
            return None;
        }
        match key.code {
            Key::Char('f') => Some(Action::Focus(ComponentId::Search)),
            _ => None,
        }
    }

    /// Takes an action: a tick recomputes the rows after a change of the
    /// search pattern; a changed search pattern is kept; switching to this
    /// tab hands the pattern back to the search box.
    pub fn update(&mut self, action: Action) -> (r: TableUpdate)
        ensures
            final(self).navigator == old(self).navigator,
            !r.reload,
            match action {
                Action::Tick => {
                    &&& r.recompute == old(self).filter_pattern_changed
                    &&& r.reply is None
                    &&& !final(self).filter_pattern_changed
                    &&& final(self).filter_pattern == old(self).filter_pattern
                },
                Action::SearchInputChanged(p) => {
                    &&& !r.recompute && r.reply is None
                    &&& final(self).filter_pattern == p
                    &&& final(self).filter_pattern_changed
                },
                Action::TabSwitch(to) => {
                    &&& !r.recompute
                    &&& r.reply == if to == ComponentId::Rules {
                        Some(Action::SearchInputSet(old(self).filter_pattern))
                    } else {
                        None
                    }
                    &&& final(self).filter_pattern == old(self).filter_pattern
                    &&& final(self).filter_pattern_changed == old(self).filter_pattern_changed
                },
                _ => {
                    &&& !r.recompute && r.reply is None
                    &&& final(self).filter_pattern == old(self).filter_pattern
                    &&& final(self).filter_pattern_changed == old(self).filter_pattern_changed
                },
            },
    {
        match action {
            Action::Tick => {
                let recompute = self.filter_pattern_changed;
                self.filter_pattern_changed = false;
                TableUpdate { recompute, reload: false, reply: None }
            },
            Action::SearchInputChanged(p) => {
                self.filter_pattern = p;
                self.filter_pattern_changed = true;
                TableUpdate { recompute: false, reload: false, reply: None }
            },
            Action::TabSwitch(to) => {
                if to == ComponentId::Rules {
                    let pattern = self.filter_pattern.clone();
                    TableUpdate { recompute: false, reload: false, reply: Some(Action::SearchInputSet(pattern)) }
                } else {
                    TableUpdate { recompute: false, reload: false, reply: None }
                }
            },
            _ => TableUpdate { recompute: false, reload: false, reply: None },
        }
    }
}

/// What a key press on the rule providers table asks of the application.
#[derive(Debug, Clone, PartialEq, Eq)]
pub enum RuleProvidersCommand {
    Nothing,
    /// Focus the search box.
    FocusSearch,
    /// Load the providers again.
    Reload,
    /// Update these providers, one after the other, then load them again.
    Update(Vec<String>),
}

/// The rule providers table: its selection, whether it is loading, and the
/// updates running, one entry per update of a provider.
#[derive(Debug)]
pub struct RuleProvidersComponent {
    pub navigator: ScrollableNavigator,
    pub filter_pattern: Option<String>,
    pub filter_pattern_changed: bool,
    pub loading: bool,
    pub pending_update: Vec<String>,
}

/// The names of the providers a press of `u` updates: the focused one, or
/// else those in view (none when the view reaches past the names).
pub open spec fn update_names(n: ScrollableNavigator, shown: Seq<String>) -> Seq<String> {
    match n.focused {
        Some(i) => seq![shown[i as int]],
        None => if n.spec_end_pos() <= shown.len() {
            shown.subrange(n.pos as int, n.spec_end_pos() as int)
        } else {
            Seq::empty()
        },
    }
}

/// `pending` with one update of `name` fewer, when one is running.
pub open spec fn without_one(pending: Seq<String>, name: Seq<char>) -> Seq<String>
    decreases pending.len(),
{
    if pending.len() == 0 {
        pending
    } else if pending[0]@ == name {
        pending.drop_first()
    } else {
        seq![pending[0]] + without_one(pending.drop_first(), name)
    }
}

impl RuleProvidersComponent {
    /// Nothing selected, nothing running.
    pub fn new() -> (r: Self)
        ensures
            r.navigator == ScrollableNavigator::new_spec(),
            r.filter_pattern is None,
            !r.filter_pattern_changed,
            !r.loading,
            r.pending_update@.len() == 0,
    {
        RuleProvidersComponent {
            navigator: ScrollableNavigator::new(),
            filter_pattern: None,
            filter_pattern_changed: false,
            loading: false,
            pending_update: Vec::new(),
        }
    }

    /// Whether a load or an update is running.
    pub fn is_busy(&self) -> (r: bool)
        ensures
            r == (self.loading || self.pending_update@.len() > 0),
    {
        self.loading || self.pending_update.len() > 0
    }

    /// The names of the providers a press of `u` updates, among the names
    /// `shown`.
    pub fn collect_update_names(&self, shown: &Vec<String>) -> (r: Vec<String>)
        requires
            self.navigator.wf(),
            self.navigator.focused matches Some(i) ==> i < shown@.len(),
        ensures
            r@ == update_names(self.navigator, shown@),
    {
        match self.navigator.focused {
            Some(i) => vec![shown[i].clone()],
            None => {
                let end = self.navigator.end_pos();
                let mut r: Vec<String> = Vec::new();
                if end <= shown.len() {
                    let mut j: usize = self.navigator.pos;
                    while j < end
                        invariant
                            self.navigator.pos <= j <= end <= shown@.len(),
                            end == self.navigator.spec_end_pos(),
                            r@ == shown@.subrange(self.navigator.pos as int, j as int),
                        decreases end - j,
                    {
                        r.push(shown[j].clone());
                        assert(shown@.subrange(self.navigator.pos as int, j + 1) =~= shown@.subrange(
                            self.navigator.pos as int,
                            j as int,
                        ).push(shown@[j as int]));
                        j = j + 1;
                    }
                }
                r
            },
        }
    }

    /// Handles a key: the navigation keys move the selection; Esc clears it;
    /// f focuses the search box; r reloads; u updates the focused provider,
    /// or those in view, and counts their updates as running.
    pub fn handle_key_event(&mut self, key: KeyInput, shown: &Vec<String>) -> (r: RuleProvidersCommand)
        requires
            old(self).navigator.wf(),
            key.code == Key::Char('u') ==> (old(self).navigator.focused matches Some(i) ==> i < shown@.len()),
        ensures
            final(self).navigator.wf(),
            final(self).filter_pattern == old(self).filter_pattern,
            final(self).filter_pattern_changed == old(self).filter_pattern_changed,
            is_navigation_key(key) && old(self).navigator.content_length > 0 ==> r == RuleProvidersCommand::Nothing
                && final(self).navigator == nav_after(old(self).navigator, key) && final(self).loading == old(
                self,
            ).loading && final(self).pending_update == old(self).pending_update,
            !(is_navigation_key(key) && old(self).navigator.content_length > 0) ==> {
                let names = update_names(old(self).navigator, shown@);
                &&& final(self).navigator == if key.code == Key::Esc {
                    ScrollableNavigator { focused: None, ..old(self).navigator }
                } else {
                    old(self).navigator
                }
                &&& final(self).loading == (old(self).loading || key.code == Key::Char('r'))
                &&& final(self).pending_update@ == if key.code == Key::Char('u') {
                    old(self).pending_update@ + names
                } else {
                    old(self).pending_update@
                }
                &&& match key.code {
                    Key::Char('f') => r == RuleProvidersCommand::FocusSearch,
                    Key::Char('r') => r == RuleProvidersCommand::Reload,
                    Key::Char('u') => if names.len() == 0 {
                        r == RuleProvidersCommand::Nothing
                    } else {
                        r matches RuleProvidersCommand::Update(v) && v@ == names
                    },
                    _ => r == RuleProvidersCommand::Nothing,
                }
            },
    {
        if self.navigator.handle_key_event(key) {
            return RuleProvidersCommand::Nothing;
        }
        match key.code {
            Key::Esc => {
                self.navigator.focused = None;
                RuleProvidersCommand::Nothing
            },
            Key::Char('f') => RuleProvidersCommand::FocusSearch,
            Key::Char('r') => {
                self.loading = true;
                RuleProvidersCommand::Reload
            },
            Key::Char('u') => {
                let names = self.collect_update_names(shown);
                if names.len() == 0 {
                    return RuleProvidersCommand::Nothing;
                }
                let mut i: usize = 0;
                let ghost before = self.pending_update@;
                while i < names.len()
                    invariant
                        i <= names@.len(),
                        self.pending_update@ == before + names@.subrange(0, i as int),
                        self.navigator == old(self).navigator,
                        self.filter_pattern == old(self).filter_pattern,
                        self.filter_pattern_changed == old(self).filter_pattern_changed,
                        self.loading == old(self).loading,
                        names@ == update_names(old(self).navigator, shown@),
                    decreases names.len() - i,
                {
                    self.pending_update.push(names[i].clone());
                    assert(names@.subrange(0, i + 1) =~= names@.subrange(0, i as int).push(names@[i as int]));
                    i = i + 1;
                }
                assert(names@.subrange(0, names@.len() as int) =~= names@);
                RuleProvidersCommand::Update(names)
            },
            _ => RuleProvidersCommand::Nothing,
        }
    }

    /// One update of provider `name` ended.
    pub fn update_finished(&mut self, name: &String)
        ensures
            final(self).pending_update@ == without_one(old(self).pending_update@, name@),
            final(self).loading == old(self).loading,
            final(self).navigator == old(self).navigator,
            final(self).filter_pattern == old(self).filter_pattern,
            final(self).filter_pattern_changed == old(self).filter_pattern_changed,
    {
        let mut i: usize = 0;
        while i < self.pending_update.len()
            invariant
                i <= self.pending_update@.len(),
                self.pending_update@ == old(self).pending_update@,
                forall|k: int| 0 <= k < i ==> #[trigger] self.pending_update@[k]@ != name@,
                self.loading == old(self).loading,
                self.navigator == old(self).navigator,
                self.filter_pattern == old(self).filter_pattern,
                self.filter_pattern_changed == old(self).filter_pattern_changed,
            decreases self.pending_update.len() - i,
        {
            if self.pending_update[i] == *name {
                proof {
                    lemma_without_one_at(self.pending_update@, name@, i as int);
                }
                self.pending_update.remove(i);
                return;
            }
            i = i + 1;
        }
        proof {
            lemma_without_one_absent(self.pending_update@, name@);
        }
    }

    /// Loading ended.
    pub fn loading_finished(&mut self)
        ensures
            final(self).loading == false,
            final(self).pending_update == old(self).pending_update,
            final(self).navigator == old(self).navigator,
            final(self).filter_pattern == old(self).filter_pattern,
            final(self).filter_pattern_changed == old(self).filter_pattern_changed,
    {
        self.loading = false;
    }

    /// Takes an action: a tick recomputes the rows after a change of the
    /// search pattern; a changed search pattern is kept; switching to this
    /// tab loads the providers again and hands the pattern back to the
    /// search box.
    pub fn update(&mut self, action: Action) -> (r: TableUpdate)
        ensures
            final(self).navigator == old(self).navigator,
            final(self).pending_update == old(self).pending_update,
            match action {
                Action::Tick => {
                    &&& r.recompute == old(self).filter_pattern_changed
                    &&& !r.reload && r.reply is None
                    &&& !final(self).filter_pattern_changed
                    &&& final(self).filter_pattern == old(self).filter_pattern
                    &&& final(self).loading == old(self).loading
                },
                Action::SearchInputChanged(p) => {
                    &&& !r.recompute && !r.reload && r.reply is None
                    &&& final(self).filter_pattern == p
                    &&& final(self).filter_pattern_changed
                    &&& final(self).loading == old(self).loading
                },
                Action::TabSwitch(to) => {
                    &&& !r.recompute
                    &&& r.reload == (to == ComponentId::RuleProviders)
                    &&& final(self).loading == (old(self).loading || to == ComponentId::RuleProviders)
                    &&& r.reply == if to == ComponentId::RuleProviders {
                        Some(Action::SearchInputSet(old(self).filter_pattern))
                    } else {
                        None
                    }
                    &&& final(self).filter_pattern == old(self).filter_pattern
                    &&& final(self).filter_pattern_changed == old(self).filter_pattern_changed
                },
                _ => {
                    &&& !r.recompute && !r.reload && r.reply is None
                    &&& final(self).filter_pattern == old(self).filter_pattern
                    &&& final(self).filter_pattern_changed == old(self).filter_pattern_changed
                    &&& final(self).loading == old(self).loading
                },
            },
    {
        match action {
            Action::Tick => {
                let recompute = self.filter_pattern_changed;
                self.filter_pattern_changed = false;
                TableUpdate { recompute, reload: false, reply: None }
            },
            Action::SearchInputChanged(p) => {
                self.filter_pattern = p;
                self.filter_pattern_changed = true;
                TableUpdate { recompute: false, reload: false, reply: None }
            },
            Action::TabSwitch(to) => {
                if to == ComponentId::RuleProviders {
                    self.loading = true;
                    let pattern = self.filter_pattern.clone();
                    TableUpdate { recompute: false, reload: true, reply: Some(Action::SearchInputSet(pattern)) }
                } else {
                    TableUpdate { recompute: false, reload: false, reply: None }
                }
            },
            _ => TableUpdate { recompute: false, reload: false, reply: None },
        }
    }
}

proof fn lemma_without_one_at(p: Seq<String>, name: Seq<char>, i: int)
    requires
        0 <= i < p.len(),
        p[i]@ == name,
        forall|k: int| 0 <= k < i ==> #[trigger] p[k]@ != name,
    ensures
        without_one(p, name) == p.remove(i),
    decreases i,
{
    if i == 0 {
        assert(p.remove(0) =~= p.drop_first());
    } else {
        let q = p.drop_first();
        assert forall|k: int| 0 <= k < i - 1 implies #[trigger] q[k]@ != name by {
            assert(q[k] == p[k + 1]);
        }
        lemma_without_one_at(q, name, i - 1);
        assert(seq![p[0]] + q.remove(i - 1) =~= p.remove(i));
    }
}

proof fn lemma_without_one_absent(p: Seq<String>, name: Seq<char>)
    requires
        forall|k: int| 0 <= k < p.len() ==> #[trigger] p[k]@ != name,
    ensures
        without_one(p, name) == p,
    decreases p.len(),
{
    if p.len() > 0 {
        let q = p.drop_first();
        assert forall|k: int| 0 <= k < q.len() implies #[trigger] q[k]@ != name by {
            assert(q[k] == p[k + 1]);
        }
        lemma_without_one_absent(q, name);
        assert(seq![p[0]] + q =~= p);
    }
}

/// The footer labels of the rules table: navigation, paging and jumping.
pub open spec fn rules_shortcut_labels() -> Seq<Seq<(bool, Seq<char>)>> {
    seq![
        seq![(true, "↑"@), (false, " nav "@), (true, "↓"@)],
        seq![(true, "PgUp"@), (false, " page "@), (true, "PgDn"@)],
        seq![(true, "g"@), (false, " jump "@), (true, "G"@)],
    ]
}

impl RulesComponent {
    /// The footer labels.
    pub fn shortcuts(&self) -> (r: Vec<Shortcut>)
        ensures
            shortcuts_match(r@, rules_shortcut_labels()),
    {
        let s0 = Shortcut::new(vec![Fragment::hl("↑"), Fragment::raw(" nav "), Fragment::hl("↓")]);
        let s1 = Shortcut::new(vec![Fragment::hl("PgUp"), Fragment::raw(" page "), Fragment::hl("PgDn")]);
        let s2 = Shortcut::new(vec![Fragment::hl("g"), Fragment::raw(" jump "), Fragment::hl("G")]);
        proof {
            assert(parts_view(s0.parts@) =~= seq![(true, "↑"@), (false, " nav "@), (true, "↓"@)]);
            assert(parts_view(s1.parts@) =~= seq![(true, "PgUp"@), (false, " page "@), (true, "PgDn"@)]);
            assert(parts_view(s2.parts@) =~= seq![(true, "g"@), (false, " jump "@), (true, "G"@)]);
        }
        let r = vec![s0, s1, s2];
        assert(shortcuts_match(r@, rules_shortcut_labels()));
        r
    }
}

/// The footer labels of the rule providers table: navigation, paging, jumping, refresh and update.
pub open spec fn rule_providers_shortcut_labels() -> Seq<Seq<(bool, Seq<char>)>> {
    seq![
        seq![(true, "↑"@), (false, "/"@), (true, "←"@), (false, " nav "@), (true, "→"@), (false, "/"@), (true, "↓"@)],
        seq![(true, "PgUp"@), (false, " page "@), (true, "PgDn"@)],
        seq![(true, "g"@), (false, " jump "@), (true, "G"@)],
        split_at_highlight("refresh"@, 0),
        split_at_highlight("update"@, 0),
    ]
}

impl RuleProvidersComponent {
    /// The footer labels.
    pub fn shortcuts(&self) -> (r: Vec<Shortcut>)
        ensures
            shortcuts_match(r@, rule_providers_shortcut_labels()),
    {
        let s0 = Shortcut::new(vec![Fragment::hl("↑"), Fragment::raw("/"), Fragment::hl("←"), Fragment::raw(" nav "), Fragment::hl("→"), Fragment::raw("/"), Fragment::hl("↓")]);
        let s1 = Shortcut::new(vec![Fragment::hl("PgUp"), Fragment::raw(" page "), Fragment::hl("PgDn")]);
        let s2 = Shortcut::new(vec![Fragment::hl("g"), Fragment::raw(" jump "), Fragment::hl("G")]);
        let s3 = Shortcut::new(vec![Fragment::hl("r"), Fragment::raw("efresh")]);
        let s4 = Shortcut::new(vec![Fragment::hl("u"), Fragment::raw("pdate")]);
        proof {
            assert(parts_view(s0.parts@) =~= seq![(true, "↑"@), (false, "/"@), (true, "←"@), (false, " nav "@), (true, "→"@), (false, "/"@), (true, "↓"@)]);
            assert(parts_view(s1.parts@) =~= seq![(true, "PgUp"@), (false, " page "@), (true, "PgDn"@)]);
            assert(parts_view(s2.parts@) =~= seq![(true, "g"@), (false, " jump "@), (true, "G"@)]);
            reveal_strlit("refresh");
            reveal_strlit("r");
            reveal_strlit("efresh");
            assert("refresh"@.subrange(0, 1) =~= "r"@);
            assert("refresh"@.subrange(1, 7) =~= "efresh"@);
            assert(parts_view(s3.parts@) =~= seq![fragment_view(s3.parts@[0]), fragment_view(s3.parts@[1])]);
            assert(parts_view(s3.parts@) =~= split_at_highlight("refresh"@, 0));
            reveal_strlit("update");
            reveal_strlit("u");
            reveal_strlit("pdate");
            assert("update"@.subrange(0, 1) =~= "u"@);
            assert("update"@.subrange(1, 6) =~= "pdate"@);
            assert(parts_view(s4.parts@) =~= seq![fragment_view(s4.parts@[0]), fragment_view(s4.parts@[1])]);
            assert(parts_view(s4.parts@) =~= split_at_highlight("update"@, 0));
        }
        let r = vec![s0, s1, s2, s3, s4];
        assert(shortcuts_match(r@, rule_providers_shortcut_labels()));
        r
    }
}

} // verus!
