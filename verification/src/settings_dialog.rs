//! The dialog that edits the connections table: its columns and the source
//! IP aliases.
use vstd::prelude::*;
use crate::action::Action;
use crate::columns::spec_with_alive_column;
use crate::columns_setting::{ColumnsSettingPane, focus_ok, handled_key, last_column_error, shown_indices};
use crate::input::spec_input_request;
use crate::navigator::is_navigation_key;
use crate::connections_setting::{ConnectionsSetting, remapped_sort};
use crate::key::{Key, KeyInput, KeyOutcome};
use crate::pairs::{keys_unique, pairs_lookup};
use crate::source_ip_alias::{SourceIpAliasSettingPane, saved_aliases_ok};
use crate::text::trim_spec;

use crate::shortcut::{parts_view, shortcuts_match, Fragment, Shortcut};
verus! {

/// The pane that has the keyboard.
#[derive(Debug, Clone, Copy, PartialEq, Eq, Structural)]
pub enum ActivePane {
    Columns,
    SourceIpAlias,
}

impl ActivePane {
    /// The other pane.
    pub fn next(self) -> (r: Self)
        ensures
            r == other_pane(self),
    {
        match self {
            ActivePane::Columns => ActivePane::SourceIpAlias,
            ActivePane::SourceIpAlias => ActivePane::Columns,
        }
    }

    /// The other pane (there are two).
    pub fn prev(self) -> (r: Self)
        ensures
            r == other_pane(self),
    {
        self.next()
    }
}

/// What the dialog asks of the caller after a key press.
#[derive(Debug, Clone, Copy, PartialEq, Eq, Structural)]
pub enum SettingsKey {
    /// Nothing more to do.
    Stay,
    /// The other pane has the keyboard: its shortcuts must be shown.
    PaneSwitched,
    /// The dialog closed without saving.
    Closed,
    /// The settings were saved and the dialog closed.
    Saved,
}

/// The connections settings dialog.
#[derive(Debug)]
pub struct ConnectionsSettingComponent {
    pub show: bool,
    pub active_pane: ActivePane,
    pub columns: ColumnsSettingPane,
    pub source_ip_alias: SourceIpAliasSettingPane,
}

/// The aliases `r` that the alias pane gives when saving, after storing the
/// alias being edited: those that trim to something, trimmed.
pub open spec fn saved_alias_table(pane: SourceIpAliasSettingPane, after: Seq<(String, String)>, r: Seq<(String, String)>) -> bool {
    &&& saved_aliases_ok(pane, after)
    &&& keys_unique(r)
    &&& forall|k: Seq<char>| #[trigger] pairs_lookup(r, k) == match pairs_lookup(after, k) {
        Some(a) => if trim_spec(a).len() > 0 {
            Some(trim_spec(a))
        } else {
            None
        },
        None => None,
    }
}

/// The other pane.
pub open spec fn other_pane(p: ActivePane) -> ActivePane {
    match p {
        ActivePane::Columns => ActivePane::SourceIpAlias,
        ActivePane::SourceIpAlias => ActivePane::Columns,
    }
}

/// Whether the active pane uses a key itself.
pub open spec fn pane_takes(d: ConnectionsSettingComponent, key: KeyInput) -> bool {
    match d.active_pane {
        ActivePane::Columns => handled_key(key),
        ActivePane::SourceIpAlias => key.code != Key::Tab && key.code != Key::BackTab && key.code != Key::Enter
            && d.source_ip_alias.source_ips@.len() > 0 && (spec_input_request(key) is Some || is_navigation_key(
            key,
        )),
    }
}

impl ConnectionsSettingComponent {
    /// What the dialog keeps true.
    pub open spec fn wf(&self) -> bool {
        &&& focus_ok(self.columns.items@.len(), self.columns.selected)
        &&& self.source_ip_alias.wf()
        &&& self.source_ip_alias.navigator.content_length == self.source_ip_alias.source_ips@.len()
    }

    /// A hidden dialog.
    pub fn new() -> (r: Self)
        ensures
            r.wf(),
            !r.show,
            r.active_pane == ActivePane::Columns,
    {
        ConnectionsSettingComponent {
            show: false,
            active_pane: ActivePane::Columns,
            columns: ColumnsSettingPane::default(),
            source_ip_alias: SourceIpAliasSettingPane::new(),
        }
    }

    /// Opens the dialog on the columns pane, loaded with the current
    /// settings and the source IPs of the current connections.
    pub fn show(&mut self, source_ips: Vec<String>, setting: &ConnectionsSetting)
        requires
            old(self).wf(),
            keys_unique(setting.source_ip_alias@),
        ensures
            final(self).wf(),
            final(self).show,
            final(self).active_pane == ActivePane::Columns,
            final(self).columns.items@ == crate::columns_setting::column_items(setting.columns@),
            final(self).source_ip_alias.aliases@ == setting.source_ip_alias@,
    {
        self.show = true;
        self.active_pane = ActivePane::Columns;
        self.columns.load(setting.columns.as_slice());
        self.source_ip_alias.load(source_ips, &setting.source_ip_alias);
    }

    /// Closes the dialog and clears both panes.
    pub fn close(&mut self)
        ensures
            final(self).wf(),
            !final(self).show,
            final(self).active_pane == old(self).active_pane,
            final(self).columns.items@.len() == 0,
            final(self).source_ip_alias.source_ips@.len() == 0,
            final(self).source_ip_alias.aliases@.len() == 0,
    {
        self.show = false;
        self.columns.reset();
        self.source_ip_alias.reset();
    }

    /// Gives the keyboard to pane `next`, clearing the error of the pane
    /// that gets it; tells whether the pane changed.
    pub fn switch_pane(&mut self, next: ActivePane) -> (r: bool)
        requires
            old(self).wf(),
        ensures
            final(self).wf(),
            r == (old(self).active_pane != next),
            final(self).active_pane == next,
            r && next == ActivePane::Columns ==> final(self).columns.error is None,
            final(self).columns.items == old(self).columns.items,
            final(self).columns.selected == old(self).columns.selected,
            !(r && next == ActivePane::Columns) ==> final(self).columns.error == old(self).columns.error,
            final(self).source_ip_alias == old(self).source_ip_alias,
            final(self).show == old(self).show,
    {
        if self.active_pane == next {
            return false;
        }
        self.active_pane = next;
        match next {
            ActivePane::Columns => self.columns.clear_error(),
            ActivePane::SourceIpAlias => {},
        }
        true
    }

    /// The error of the active pane, if any (only the columns pane has
    /// errors).
    pub fn active_error(&self) -> (r: Option<String>)
        ensures
            self.active_pane == ActivePane::Columns ==> (r is Some <==> self.columns.error is Some) && (r matches Some(
                e,
            ) ==> e@ == self.columns.error->0@),
            self.active_pane == ActivePane::SourceIpAlias ==> r is None,
    {
        match self.active_pane {
            ActivePane::Columns => match &self.columns.error {
                Some(e) => Some(e.clone()),
                None => None,
            },
            ActivePane::SourceIpAlias => None,
        }
    }

    /// Saves the dialog into the settings and closes it: the shown columns
    /// (behind `Alive`), the sort kept on its column, and the aliases. With no
    /// column shown, nothing is saved and the columns pane shows why. On
    /// saving it gives the focus back (`Unfocus`); the caller announces
    /// `ConnectionsSettingChanged`.
    pub fn save(&mut self, setting: &mut ConnectionsSetting) -> (r: Option<Action>)
        requires
            old(self).wf(),
        ensures
            final(self).wf(),
            r == if shown_indices(old(self).columns.items@).len() > 0 {
                Some(Action::Unfocus)
            } else {
                None
            },
            r is None ==> {
                &&& *final(setting) == *old(setting)
                &&& final(self).columns.error matches Some(e) && e@ == last_column_error()
                &&& final(self).columns.items == old(self).columns.items
                &&& final(self).show == old(self).show
            },
            r is Some ==> {
                &&& !final(self).show
                &&& final(setting).columns@ == spec_with_alive_column(shown_indices(old(self).columns.items@))
                &&& final(setting).query_state.sort == remapped_sort(
                    old(setting).query_state.sort,
                    old(setting).columns@,
                    final(setting).columns@,
                )
                &&& final(setting).query_state.max_cols == final(setting).columns@.len()
                &&& final(setting).query_state.pattern == old(setting).query_state.pattern
                &&& final(setting).column_widths == old(setting).column_widths
                &&& exists|after: Seq<(String, String)>| saved_alias_table(
                    old(self).source_ip_alias,
                    after,
                    final(setting).source_ip_alias@,
                )
            },
    {
        let columns = self.columns.selected_column_indices();
        if columns.len() == 0 {
            self.columns.set_error("At least one column must be selected");
            proof {
                reveal_strlit("At least one column must be selected");
            }
            return None;
        }
        let aliases = self.source_ip_alias.aliases();
        let ghost after = self.source_ip_alias.aliases@;
        let _ = setting.apply_settings(columns, aliases);
        assert(saved_alias_table(old(self).source_ip_alias, after, setting.source_ip_alias@));
        self.close();
        Some(Action::Unfocus)
    }

    /// Handles a key press: the active pane first; then `Esc` and `q` close
    /// the dialog, `Tab` and `BackTab` switch panes, `Enter` saves.
    pub fn handle_key_event(&mut self, key: KeyInput, setting: &mut ConnectionsSetting) -> (r: SettingsKey)
        requires
            old(self).wf(),
        ensures
            final(self).wf(),
            r == SettingsKey::Closed ==> !final(self).show && *final(setting) == *old(setting),
            r == SettingsKey::Saved ==> !final(self).show,
            r != SettingsKey::Saved ==> *final(setting) == *old(setting),
            pane_takes(*old(self), key) ==> r == SettingsKey::Stay && final(self).active_pane == old(
                self,
            ).active_pane && final(self).show == old(self).show,
            !pane_takes(*old(self), key) ==> r == match key.code {
                Key::Esc | Key::Char('q') => SettingsKey::Closed,
                Key::Tab | Key::BackTab => SettingsKey::PaneSwitched,
                Key::Enter => if shown_indices(old(self).columns.items@).len() > 0 {
                    SettingsKey::Saved
                } else {
                    SettingsKey::Stay
                },
                _ => SettingsKey::Stay,
            },
            !pane_takes(*old(self), key) && (key.code == Key::Tab || key.code == Key::BackTab)
                ==> final(self).active_pane == other_pane(old(self).active_pane),
            !pane_takes(*old(self), key) && key.code == Key::Enter && shown_indices(old(self).columns.items@).len()
                > 0 ==> {
                &&& final(setting).columns@ == spec_with_alive_column(shown_indices(old(self).columns.items@))
                &&& final(setting).query_state.sort == remapped_sort(
                    old(setting).query_state.sort,
                    old(setting).columns@,
                    final(setting).columns@,
                )
                &&& exists|after: Seq<(String, String)>| saved_alias_table(
                    old(self).source_ip_alias,
                    after,
                    final(setting).source_ip_alias@,
                )
            },
    {
        let outcome = match self.active_pane {
            ActivePane::Columns => self.columns.handle_key_event(key),
            ActivePane::SourceIpAlias => self.source_ip_alias.handle_key_event(key),
        };
        if outcome.is_consumed() {
            return SettingsKey::Stay;
        }
        match key.code {
            Key::Esc | Key::Char('q') => {
                self.close();
                SettingsKey::Closed
            },
            Key::Tab => {
                let next = self.active_pane.next();
                if self.switch_pane(next) {
                    SettingsKey::PaneSwitched
                } else {
                    SettingsKey::Stay
                }
            },
            Key::BackTab => {
                let prev = self.active_pane.prev();
                if self.switch_pane(prev) {
                    SettingsKey::PaneSwitched
                } else {
                    SettingsKey::Stay
                }
            },
            Key::Enter => {
                if self.save(setting).is_some() {
                    SettingsKey::Saved
                } else {
                    SettingsKey::Stay
                }
            },
            _ => SettingsKey::Stay,
        }
    }
}

/// The footer labels of the connections settings dialog: moving between panes, apply and cancel.
pub open spec fn settings_shortcut_labels() -> Seq<Seq<(bool, Seq<char>)>> {
    seq![
        seq![(true, "⇧⇤"@), (false, " pane nav "@), (true, "⇥"@)],
        seq![(false, "apply "@), (true, "↵"@)],
        seq![(false, "cancel "@), (true, "Esc"@)],
    ]
}

impl ConnectionsSettingComponent {
    /// The footer labels.
    pub fn shortcuts(&self) -> (r: Vec<Shortcut>)
        ensures
            shortcuts_match(r@, settings_shortcut_labels()),
    {
        let s0 = Shortcut::new(vec![Fragment::hl("⇧⇤"), Fragment::raw(" pane nav "), Fragment::hl("⇥")]);
        let s1 = Shortcut::new(vec![Fragment::raw("apply "), Fragment::hl("↵")]);
        let s2 = Shortcut::new(vec![Fragment::raw("cancel "), Fragment::hl("Esc")]);
        proof {
            assert(parts_view(s0.parts@) =~= seq![(true, "⇧⇤"@), (false, " pane nav "@), (true, "⇥"@)]);
            assert(parts_view(s1.parts@) =~= seq![(false, "apply "@), (true, "↵"@)]);
            assert(parts_view(s2.parts@) =~= seq![(false, "cancel "@), (true, "Esc"@)]);
        }
        let r = vec![s0, s1, s2];
        assert(shortcuts_match(r@, settings_shortcut_labels()));
        r
    }
}

} // verus!
