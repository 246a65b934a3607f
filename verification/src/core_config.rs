//! The core configuration view: a scrollable text that an external editor
//! changes, and a row of buttons that run actions on the core.
use vstd::prelude::*;
use vstd::string::*;
use crate::detail::{count_lines, line_count};
use crate::key::{Key, KeyInput};
use crate::scroller::{scroll_target, Scroller};
use crate::shortcut::{parts_view, split_at_highlight, Fragment, Shortcut};

verus! {

/// The part of the view that takes keys: the text, or the button at an index.
#[derive(Debug, Clone, Copy, PartialEq, Eq, Structural)]
pub enum ActivePane {
    Editor,
    Action(usize),
}

/// The pane after Tab, with `action_len` buttons.
pub open spec fn next_pane(p: ActivePane, action_len: usize) -> ActivePane {
    match p {
        ActivePane::Editor => ActivePane::Action(0),
        ActivePane::Action(i) => if i + 1 < action_len {
            ActivePane::Action((i + 1) as usize)
        } else {
            ActivePane::Editor
        },
    }
}

/// The pane after Shift+Tab, with `action_len` buttons.
pub open spec fn prev_pane(p: ActivePane, action_len: usize) -> ActivePane {
    match p {
        ActivePane::Editor => ActivePane::Action(if action_len > 0 { (action_len - 1) as usize } else { 0 }),
        ActivePane::Action(i) => if i == 0 {
            ActivePane::Editor
        } else {
            ActivePane::Action((i - 1) as usize)
        },
    }
}

/// The text, or a button that exists.
pub open spec fn pane_valid(p: ActivePane, action_len: usize) -> bool {
    match p {
        ActivePane::Editor => true,
        ActivePane::Action(i) => i < action_len,
    }
}

impl ActivePane {
    /// From the text to the first button, through the buttons, back to the text.
    pub fn next(self, action_len: usize) -> (r: Self)
        ensures
            r == next_pane(self, action_len),
    {
        match self {
            ActivePane::Editor => ActivePane::Action(0),
            ActivePane::Action(i) => if action_len > 0 && i < action_len - 1 {
                ActivePane::Action(i + 1)
            } else {
                ActivePane::Editor
            },
        }
    }

    /// From the text to the last button, back through the buttons, to the text.
    pub fn prev(self, action_len: usize) -> (r: Self)
        ensures
            r == prev_pane(self, action_len),
    {
        match self {
            ActivePane::Editor => ActivePane::Action(if action_len > 0 { action_len - 1 } else { 0 }),
            ActivePane::Action(i) => if i == 0 {
                ActivePane::Editor
            } else {
                ActivePane::Action(i - 1)
            },
        }
    }
}

/// Shift+Tab undoes Tab and Tab undoes Shift+Tab, from the text or from any
/// of the `action_len` buttons.
pub proof fn law_pane_switch_round_trip(p: ActivePane, action_len: usize)
    requires
        action_len > 0,
        pane_valid(p, action_len),
    ensures
        prev_pane(next_pane(p, action_len), action_len) == p,
        next_pane(prev_pane(p, action_len), action_len) == p,
        pane_valid(next_pane(p, action_len), action_len),
        pane_valid(prev_pane(p, action_len), action_len),
{
}

/// The actions the buttons run on the core, in button order.
#[derive(Debug, Clone, Copy, PartialEq, Eq, Structural)]
pub enum CoreAction {
    Reload,
    Restart,
    FlushFakeIp,
    FlushDns,
    UpdateGeo,
}

/// The number of buttons.
pub const ACTION_COUNT: usize = 5;

pub open spec fn core_action_at(i: nat) -> Option<CoreAction> {
    if i == 0 {
        Some(CoreAction::Reload)
    } else if i == 1 {
        Some(CoreAction::Restart)
    } else if i == 2 {
        Some(CoreAction::FlushFakeIp)
    } else if i == 3 {
        Some(CoreAction::FlushDns)
    } else if i == 4 {
        Some(CoreAction::UpdateGeo)
    } else {
        None
    }
}

pub open spec fn core_action_label(a: CoreAction) -> Seq<char> {
    match a {
        CoreAction::Reload => "Reload"@,
        CoreAction::Restart => "Restart"@,
        CoreAction::FlushFakeIp => "Flush FakeIP"@,
        CoreAction::FlushDns => "Flush DNS"@,
        CoreAction::UpdateGeo => "Update GEO"@,
    }
}

impl CoreAction {
    /// The action of the button at `i`, if there is one.
    pub fn at(i: usize) -> (r: Option<Self>)
        ensures
            r == core_action_at(i as nat),
    {
        if i == 0 {
            Some(CoreAction::Reload)
        } else if i == 1 {
            Some(CoreAction::Restart)
        } else if i == 2 {
            Some(CoreAction::FlushFakeIp)
        } else if i == 3 {
            Some(CoreAction::FlushDns)
        } else if i == 4 {
            Some(CoreAction::UpdateGeo)
        } else {
            None
        }
    }

    /// The button's label.
    pub fn label(&self) -> (r: &'static str)
        ensures
            r@ == core_action_label(*self),
    {
        match self {
            CoreAction::Reload => "Reload",
            CoreAction::Restart => "Restart",
            CoreAction::FlushFakeIp => "Flush FakeIP",
            CoreAction::FlushDns => "Flush DNS",
            CoreAction::UpdateGeo => "Update GEO",
        }
    }
}

/// Whether the text is out in an external editor.
#[derive(Debug, Clone, Copy, PartialEq, Eq, Structural)]
pub enum EditorState {
    Idle,
    Editing,
    SyncFailed,
}

/// What a key press asks of the application.
#[derive(Debug, Clone, Copy, PartialEq, Eq, Structural)]
pub enum CoreCommand {
    /// Nothing to do.
    Nothing,
    /// The focus moved between the text and the buttons: the shortcuts changed.
    Shortcuts,
    /// Open the text in an external editor.
    Edit,
    /// Discard changes and load the configuration again.
    Reload,
    /// Send the changed text to the core.
    Submit,
    /// Run the action on the core.
    Run(CoreAction),
}

/// The core configuration view.
#[derive(Debug)]
pub struct CoreConfigComponent {
    pub active_pane: ActivePane,
    /// The configuration as text.
    pub content: String,
    pub editor_state: EditorState,
    /// The text differs from what the core holds.
    pub modified: bool,
    pub line_count: usize,
    pub scroller: Scroller,
    /// A task on the core is running.
    pub loading: bool,
}

/// The command a key gives in a view with the given pane, flags and scroller,
/// after Tab and Shift+Tab (handled first).
pub open spec fn core_command(s: CoreConfigComponent, key: KeyInput) -> CoreCommand {
    match s.active_pane {
        ActivePane::Editor => if scroll_target(s.scroller, key.code) is Some {
            CoreCommand::Nothing
        } else if key.code == Key::Char('e') {
            CoreCommand::Edit
        } else if key.code == Key::Char('d') {
            CoreCommand::Reload
        } else if key.code == Key::Enter && !s.loading && s.modified {
            CoreCommand::Submit
        } else {
            CoreCommand::Nothing
        },
        ActivePane::Action(i) => if key.code == Key::Enter && !s.loading && core_action_at(i as nat) is Some {
            CoreCommand::Run(core_action_at(i as nat)->0)
        } else {
            CoreCommand::Nothing
        },
    }
}

impl CoreConfigComponent {
    pub open spec fn wf(&self) -> bool {
        self.scroller.wf()
    }

    /// An empty view with the text focused.
    pub fn new() -> (r: Self)
        ensures
            r.wf(),
            r.active_pane == ActivePane::Editor,
            r.content@ == Seq::<char>::empty(),
            r.editor_state == EditorState::Idle,
            !r.modified,
            r.line_count == 0,
            r.scroller == Scroller::new_spec(),
            !r.loading,
    {
        CoreConfigComponent {
            active_pane: ActivePane::Editor,
            content: String::new(),
            editor_state: EditorState::Idle,
            modified: false,
            line_count: 0,
            scroller: Scroller::new(),
            loading: false,
        }
    }

    /// Handles a key: Tab and Shift+Tab move between the text and the
    /// buttons; on the text the scroll keys, then e, d and Enter; on a
    /// button Enter runs its action unless a task is running. Starting an
    /// action marks a task as running.
    pub fn handle_key_event(&mut self, key: KeyInput) -> (r: CoreCommand)
        requires
            old(self).wf(),
        ensures
            final(self).wf(),
            final(self).content == old(self).content,
            final(self).editor_state == old(self).editor_state,
            final(self).modified == old(self).modified,
            final(self).line_count == old(self).line_count,
            final(self).scroller.content_length == old(self).scroller.content_length,
            final(self).scroller.viewport == old(self).scroller.viewport,
            key.code == Key::Tab || key.code == Key::BackTab ==> {
                let p = if key.code == Key::Tab {
                    next_pane(old(self).active_pane, ACTION_COUNT)
                } else {
                    prev_pane(old(self).active_pane, ACTION_COUNT)
                };
                &&& final(self).active_pane == p
                &&& r == if (old(self).active_pane == ActivePane::Editor) != (p == ActivePane::Editor) {
                    CoreCommand::Shortcuts
                } else {
                    CoreCommand::Nothing
                }
                &&& final(self).scroller == old(self).scroller
                &&& final(self).loading == old(self).loading
            },
            !(key.code == Key::Tab || key.code == Key::BackTab) ==> {
                &&& final(self).active_pane == old(self).active_pane
                &&& r == core_command(*old(self), key)
                &&& final(self).scroller.pos == if old(self).active_pane == ActivePane::Editor {
                    match scroll_target(old(self).scroller, key.code) {
                        Some(p) => p,
                        None => old(self).scroller.pos,
                    }
                } else {
                    old(self).scroller.pos
                }
                &&& final(self).loading == (old(self).loading || r is Run)
            },
    {
        let was_editor = self.active_pane == ActivePane::Editor;
        match key.code {
            Key::Tab | Key::BackTab => {
                self.active_pane = if key.code == Key::Tab {
                    self.active_pane.next(ACTION_COUNT)
                } else {
                    self.active_pane.prev(ACTION_COUNT)
                };
                let is_editor = self.active_pane == ActivePane::Editor;
                return if was_editor != is_editor {
                    CoreCommand::Shortcuts
                } else {
                    CoreCommand::Nothing
                };
            },
            _ => {},
        }
        match self.active_pane {
            ActivePane::Editor => {
                if self.scroller.handle_key_event(key) {
                    return CoreCommand::Nothing;
                }
                match key.code {
                    Key::Char('e') => CoreCommand::Edit,
                    Key::Char('d') => CoreCommand::Reload,
                    Key::Enter => if !self.loading && self.modified {
                        CoreCommand::Submit
                    } else {
                        CoreCommand::Nothing
                    },
                    _ => CoreCommand::Nothing,
                }
            },
            ActivePane::Action(i) => {
                if key.code == Key::Enter && !self.loading {
                    match CoreAction::at(i) {
                        Some(a) => {
                            self.loading = true;
                            CoreCommand::Run(a)
                        },
                        None => CoreCommand::Nothing,
                    }
                } else {
                    CoreCommand::Nothing
                }
            },
        }
    }

    /// A task on the core started.
    pub fn begin_task(&mut self)
        ensures
            final(self).loading,
            final(self).content == old(self).content,
            final(self).modified == old(self).modified,
            final(self).line_count == old(self).line_count,
            final(self).editor_state == old(self).editor_state,
            final(self).active_pane == old(self).active_pane,
            final(self).scroller == old(self).scroller,
    {
        self.loading = true;
    }

    /// A task on the core ended.
    pub fn end_task(&mut self)
        ensures
            !final(self).loading,
            final(self).content == old(self).content,
            final(self).modified == old(self).modified,
            final(self).line_count == old(self).line_count,
            final(self).editor_state == old(self).editor_state,
            final(self).active_pane == old(self).active_pane,
            final(self).scroller == old(self).scroller,
    {
        self.loading = false;
    }

    /// The text went out to an external editor.
    pub fn editing_started(&mut self)
        ensures
            final(self).editor_state == EditorState::Editing,
            final(self).content == old(self).content,
            final(self).modified == old(self).modified,
            final(self).line_count == old(self).line_count,
            final(self).loading == old(self).loading,
            final(self).active_pane == old(self).active_pane,
            final(self).scroller == old(self).scroller,
    {
        self.editor_state = EditorState::Editing;
    }

    /// The edited text could not be read back.
    pub fn sync_failed(&mut self)
        ensures
            final(self).editor_state == EditorState::SyncFailed,
            final(self).content == old(self).content,
            final(self).modified == old(self).modified,
            final(self).line_count == old(self).line_count,
            final(self).loading == old(self).loading,
            final(self).active_pane == old(self).active_pane,
            final(self).scroller == old(self).scroller,
    {
        self.editor_state = EditorState::SyncFailed;
    }

    /// Takes back the text from the external editor: a changed text replaces
    /// the view's text and scrolls to the top; the view is marked modified
    /// exactly when the text changed. Nothing happens unless an edit is out.
    pub fn sync_from_editor(&mut self, edited: String)
        requires
            old(self).wf(),
        ensures
            final(self).wf(),
            final(self).active_pane == old(self).active_pane,
            final(self).loading == old(self).loading,
            final(self).scroller.content_length == old(self).scroller.content_length,
            final(self).scroller.viewport == old(self).scroller.viewport,
            old(self).editor_state != EditorState::Editing ==> {
                &&& final(self).editor_state == old(self).editor_state
                &&& final(self).content == old(self).content
                &&& final(self).modified == old(self).modified
                &&& final(self).line_count == old(self).line_count
                &&& final(self).scroller.pos == old(self).scroller.pos
            },
            old(self).editor_state == EditorState::Editing ==> {
                &&& final(self).editor_state == EditorState::Idle
                &&& final(self).modified == (edited@ != old(self).content@)
                &&& final(self).content@ == edited@
                &&& final(self).line_count == if edited@ != old(self).content@ {
                    line_count(edited@)
                } else {
                    old(self).line_count as nat
                }
                &&& final(self).scroller.pos == if edited@ != old(self).content@ {
                    0
                } else {
                    old(self).scroller.pos
                }
            },
    {
        if self.editor_state != EditorState::Editing {
            return;
        }
        let modified = !(edited == self.content);
        if modified {
            self.line_count = count_lines(edited.as_str());
            self.scroller.position(0);
            self.content = edited;
        }
        self.modified = modified;
        self.editor_state = EditorState::Idle;
    }

    /// The configuration was loaded from the core as `text`.
    pub fn loaded(&mut self, text: String)
        ensures
            final(self).content == text,
            final(self).line_count == line_count(text@),
            !final(self).modified,
            !final(self).loading,
            final(self).editor_state == old(self).editor_state,
            final(self).active_pane == old(self).active_pane,
            final(self).scroller == old(self).scroller,
    {
        self.line_count = count_lines(text.as_str());
        self.modified = false;
        self.loading = false;
        self.content = text;
    }

    /// The core accepted the submitted text.
    pub fn submitted(&mut self)
        ensures
            !final(self).modified,
            final(self).content == old(self).content,
            final(self).line_count == old(self).line_count,
            final(self).loading == old(self).loading,
            final(self).editor_state == old(self).editor_state,
            final(self).active_pane == old(self).active_pane,
            final(self).scroller == old(self).scroller,
    {
        self.modified = false;
    }

    /// The footer shortcuts: for the text, moving the focus, scrolling,
    /// paging, edit, discard and submit; for the buttons, moving the focus
    /// and running the action.
    pub fn shortcuts(&self) -> (r: Vec<Shortcut>)
        ensures
            parts_view(r@[0].parts@) == seq![(true, "⇧⇤"@), (false, " nav "@), (true, "⇥"@)],
            self.active_pane == ActivePane::Editor ==> {
                &&& r@.len() == 6
                &&& parts_view(r@[1].parts@) == seq![(true, "↑"@), (false, " scroll "@), (true, "↓"@)]
                &&& parts_view(r@[2].parts@) == seq![(true, "PgUp"@), (false, " page "@), (true, "PgDn"@)]
                &&& parts_view(r@[3].parts@) == split_at_highlight("edit"@, 0)
                &&& parts_view(r@[4].parts@) == split_at_highlight("discard"@, 0)
                &&& parts_view(r@[5].parts@) == seq![(false, "submit "@), (true, "↵"@)]
            },
            self.active_pane != ActivePane::Editor ==> {
                &&& r@.len() == 2
                &&& parts_view(r@[1].parts@) == seq![(false, "execute "@), (true, "↵"@)]
            },
    {
        let nav = Shortcut::new(vec![Fragment::hl("⇧⇤"), Fragment::raw(" nav "), Fragment::hl("⇥")]);
        assert(parts_view(nav.parts@) =~= seq![(true, "⇧⇤"@), (false, " nav "@), (true, "⇥"@)]);
        match self.active_pane {
            ActivePane::Editor => {
                let scroll = Shortcut::new(vec![Fragment::hl("↑"), Fragment::raw(" scroll "), Fragment::hl("↓")]);
                let page = Shortcut::new(vec![Fragment::hl("PgUp"), Fragment::raw(" page "), Fragment::hl("PgDn")]);
                let edit = Shortcut::new(vec![Fragment::hl("e"), Fragment::raw("dit")]);
                let discard = Shortcut::new(vec![Fragment::hl("d"), Fragment::raw("iscard")]);
                let submit = Shortcut::new(vec![Fragment::raw("submit "), Fragment::hl("↵")]);
                proof {
                    reveal_strlit("edit");
                    reveal_strlit("e");
                    reveal_strlit("dit");
                    reveal_strlit("discard");
                    reveal_strlit("d");
                    reveal_strlit("iscard");
                    assert("edit"@.subrange(0, 1) =~= "e"@);
                    assert("edit"@.subrange(1, 4) =~= "dit"@);
                    assert("discard"@.subrange(0, 1) =~= "d"@);
                    assert("discard"@.subrange(1, 7) =~= "iscard"@);
                    assert(parts_view(scroll.parts@) =~= seq![(true, "↑"@), (false, " scroll "@), (true, "↓"@)]);
                    assert(parts_view(page.parts@) =~= seq![(true, "PgUp"@), (false, " page "@), (true, "PgDn"@)]);
                    assert(parts_view(edit.parts@) =~= split_at_highlight("edit"@, 0));
                    assert(parts_view(discard.parts@) =~= split_at_highlight("discard"@, 0));
                    assert(parts_view(submit.parts@) =~= seq![(false, "submit "@), (true, "↵"@)]);
                }
                vec![nav, scroll, page, edit, discard, submit]
            },
            ActivePane::Action(_) => {
                let execute = Shortcut::new(vec![Fragment::raw("execute "), Fragment::hl("↵")]);
                assert(parts_view(execute.parts@) =~= seq![(false, "execute "@), (true, "↵"@)]);
                vec![nav, execute]
            },
        }
    }
}

} // verus!
