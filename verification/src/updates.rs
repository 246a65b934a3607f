//! The updates dialog: which of the dashboard and the core to update, and
//! the wait for an upgraded core to come back with a new version.
use vstd::prelude::*;
use crate::action::Action;
use crate::key::{Key, KeyInput};

use crate::shortcut::{fragment_view, parts_view, shortcuts_match, split_at_highlight, Fragment, Shortcut};
verus! {

/// How many times the core's version is asked for after an upgrade request.
pub const CORE_UPGRADE_POLL_COUNT: usize = 10;

/// What can be updated.
#[derive(Debug, Clone, Copy, PartialEq, Eq, Structural)]
pub enum UpdateTarget {
    /// The dashboard itself.
    App,
    /// The mihomo core.
    Core,
}

pub open spec fn other_target(t: UpdateTarget) -> UpdateTarget {
    match t {
        UpdateTarget::App => UpdateTarget::Core,
        UpdateTarget::Core => UpdateTarget::App,
    }
}

impl UpdateTarget {
    /// The other target.
    pub fn next(self) -> (r: Self)
        ensures
            r == other_target(self),
    {
        match self {
            UpdateTarget::App => UpdateTarget::Core,
            UpdateTarget::Core => UpdateTarget::App,
        }
    }
}

/// Switching the target twice selects the target it started from.
pub proof fn law_target_switch_is_involution(t: UpdateTarget)
    ensures
        other_target(other_target(t)) == t,
        other_target(t) != t,
{
}

/// What is known of a newer version of one target.
#[derive(Debug, Clone, PartialEq, Eq)]
pub enum VersionStatus {
    Unknown,
    Refreshing,
    UpToDate { current: String },
    Available { current: String, latest: String },
}

/// What a key press in the dialog asks of the application.
#[derive(Debug, Clone)]
pub enum UpdatesCommand {
    Nothing,
    /// Close the dialog.
    Close,
    /// Look up the versions again.
    Refresh,
    /// Update the dashboard, restarting it afterwards if the flag is set.
    SelfUpdate(bool),
    /// Ask the core to upgrade itself from the given version.
    UpgradeCore(String),
}

/// The updates dialog.
#[derive(Debug, Clone, Copy, PartialEq, Eq, Structural)]
pub struct UpdatesComponent {
    pub selected: UpdateTarget,
    pub auto_restart: bool,
}

/// The command Enter gives with the given selection and statuses.
pub open spec fn trigger_command(s: UpdatesComponent, app: VersionStatus, core: VersionStatus) -> UpdatesCommand {
    match s.selected {
        UpdateTarget::App => if app is Available {
            UpdatesCommand::SelfUpdate(s.auto_restart)
        } else {
            UpdatesCommand::Nothing
        },
        UpdateTarget::Core => match core {
            VersionStatus::Available { current, .. } => UpdatesCommand::UpgradeCore(current),
            _ => UpdatesCommand::Nothing,
        },
    }
}

impl UpdatesComponent {
    /// The dashboard selected, restarting after an update.
    pub fn new() -> (r: Self)
        ensures
            r == (UpdatesComponent { selected: UpdateTarget::App, auto_restart: true }),
    {
        UpdatesComponent { selected: UpdateTarget::App, auto_restart: true }
    }

    /// Opens the dialog afresh.
    pub fn show(&mut self)
        ensures
            *final(self) == (UpdatesComponent { selected: UpdateTarget::App, auto_restart: true }),
    {
        self.selected = UpdateTarget::App;
        self.auto_restart = true;
    }

    /// Flips whether the dashboard restarts after updating itself.
    pub fn toggle_auto_restart(&mut self)
        ensures
            final(self).auto_restart == !old(self).auto_restart,
            final(self).selected == old(self).selected,
    {
        self.auto_restart = !self.auto_restart;
    }

    /// The command for Enter: update the selected target when a newer
    /// version of it is available.
    pub fn trigger_selected(&self, app: &VersionStatus, core: &VersionStatus) -> (r: UpdatesCommand)
        ensures
            r == trigger_command(*self, *app, *core),
    {
        match self.selected {
            UpdateTarget::App => match app {
                VersionStatus::Available { .. } => UpdatesCommand::SelfUpdate(self.auto_restart),
                _ => UpdatesCommand::Nothing,
            },
            UpdateTarget::Core => match core {
                VersionStatus::Available { current, .. } => UpdatesCommand::UpgradeCore(current.clone()),
                _ => UpdatesCommand::Nothing,
            },
        }
    }

    /// Handles a key: Esc and q close, Tab and Shift+Tab switch the target,
    /// Space flips the restart flag, r refreshes, Enter updates.
    pub fn handle_key_event(&mut self, key: KeyInput, app: &VersionStatus, core: &VersionStatus) -> (r:
        UpdatesCommand)
        ensures
            final(self).selected == if key.code == Key::Tab || key.code == Key::BackTab {
                other_target(old(self).selected)
            } else {
                old(self).selected
            },
            final(self).auto_restart == if key.code == Key::Char(' ') {
                !old(self).auto_restart
            } else {
                old(self).auto_restart
            },
            r == if key.code == Key::Esc || key.code == Key::Char('q') {
                UpdatesCommand::Close
            } else if key.code == Key::Char('r') {
                UpdatesCommand::Refresh
            } else if key.code == Key::Enter {
                trigger_command(*old(self), *app, *core)
            } else {
                UpdatesCommand::Nothing
            },
    {
        match key.code {
            Key::Esc | Key::Char('q') => UpdatesCommand::Close,
            Key::Tab | Key::BackTab => {
                self.selected = self.selected.next();
                UpdatesCommand::Nothing
            },
            Key::Char(' ') => {
                self.toggle_auto_restart();
                UpdatesCommand::Nothing
            },
            Key::Char('r') => UpdatesCommand::Refresh,
            Key::Enter => self.trigger_selected(app, core),
            _ => UpdatesCommand::Nothing,
        }
    }
}

/// The next step of waiting for an upgraded core.
#[derive(Debug, Clone, PartialEq, Eq)]
pub enum UpgradePoll {
    /// The core came back with this version.
    Upgraded(String),
    /// Ask again after a pause.
    Wait,
    /// Give up: the version never changed.
    TimedOut,
}

/// The new version a poll found: the polled version when it could be read
/// and differs from `previous`.
pub open spec fn upgraded_version(previous: Seq<char>, polled: Option<Seq<char>>) -> Option<Seq<char>> {
    match polled {
        Some(v) => if v != previous {
            Some(v)
        } else {
            None
        },
        None => None,
    }
}

/// An optional text by its characters.
pub open spec fn text_option(o: Option<String>) -> Option<Seq<char>> {
    match o {
        Some(s) => Some(s@),
        None => None,
    }
}

/// Decides the next step after poll number `done` (counting from 1) of the
/// core's version answered `polled` (`None` when it could not be read):
/// upgraded when the version changed, waiting while polls are left, timed
/// out otherwise.
pub fn core_upgrade_poll(previous: &str, polled: Option<String>, done: usize) -> (r: UpgradePoll)
    ensures
        match upgraded_version(previous@, text_option(polled)) {
            Some(v) => r matches UpgradePoll::Upgraded(s) && s@ == v,
            None => r == if done < CORE_UPGRADE_POLL_COUNT {
                UpgradePoll::Wait
            } else {
                UpgradePoll::TimedOut
            },
        },
{
    match polled {
        Some(v) => {
            if !(v == previous.to_string()) {
                return UpgradePoll::Upgraded(v);
            }
        },
        None => {},
    }
    if done < CORE_UPGRADE_POLL_COUNT {
        UpgradePoll::Wait
    } else {
        UpgradePoll::TimedOut
    }
}

/// The message shown when the upgrade was requested.
pub fn upgrade_requested_message() -> (r: Action)
    ensures
        r matches Action::Info(m) && (m.title@ == "Update mihomo core"@
            && m.message@ == "Mihomo core upgrade requested, waiting for service to restart..."@
            && (m.msg_box_size matches Some(sz) && sz.percent_x == 45 && sz.percent_y == 30)),
{
    Action::Info(
        crate::message::AppMessage::from(
            ("Update mihomo core", "Mihomo core upgrade requested, waiting for service to restart..."),
        ).msg_box_size(45, 30),
    )
}

/// The footer labels of the updates dialog: moving the focus, toggle, update and refresh.
pub open spec fn updates_shortcut_labels() -> Seq<Seq<(bool, Seq<char>)>> {
    seq![
        seq![(true, "⇧⇤"@), (false, " nav "@), (true, "⇥"@)],
        seq![(false, "toggle "@), (true, "Space"@)],
        seq![(false, "update "@), (true, "↵"@)],
        split_at_highlight("refresh"@, 0),
    ]
}

impl UpdatesComponent {
    /// The footer labels.
    pub fn shortcuts(&self) -> (r: Vec<Shortcut>)
        ensures
            shortcuts_match(r@, updates_shortcut_labels()),
    {
        let s0 = Shortcut::new(vec![Fragment::hl("⇧⇤"), Fragment::raw(" nav "), Fragment::hl("⇥")]);
        let s1 = Shortcut::new(vec![Fragment::raw("toggle "), Fragment::hl("Space")]);
        let s2 = Shortcut::new(vec![Fragment::raw("update "), Fragment::hl("↵")]);
        let s3 = Shortcut::new(vec![Fragment::hl("r"), Fragment::raw("efresh")]);
        proof {
            assert(parts_view(s0.parts@) =~= seq![(true, "⇧⇤"@), (false, " nav "@), (true, "⇥"@)]);
            assert(parts_view(s1.parts@) =~= seq![(false, "toggle "@), (true, "Space"@)]);
            assert(parts_view(s2.parts@) =~= seq![(false, "update "@), (true, "↵"@)]);
            reveal_strlit("refresh");
            reveal_strlit("r");
            reveal_strlit("efresh");
            assert("refresh"@.subrange(0, 1) =~= "r"@);
            assert("refresh"@.subrange(1, 7) =~= "efresh"@);
            assert(parts_view(s3.parts@) =~= seq![fragment_view(s3.parts@[0]), fragment_view(s3.parts@[1])]);
            assert(parts_view(s3.parts@) =~= split_at_highlight("refresh"@, 0));
        }
        let r = vec![s0, s1, s2, s3];
        assert(shortcuts_match(r@, updates_shortcut_labels()));
        r
    }
}

} // verus!
