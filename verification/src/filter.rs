//! The filter and search boxes: a pattern typed in, passed on to the views
//! on the next tick while the box has the focus.
use vstd::prelude::*;
use crate::action::Action;
use crate::input::{applied_edit, input_request, spec_input_request, InputBox};
use crate::key::{Key, KeyInput, MOD_CONTROL};
use crate::tabs::ComponentId;
use crate::text::{trim, trim_spec};

use crate::shortcut::{parts_view, shortcuts_match, Fragment, Shortcut};
verus! {

/// The pattern a box text gives: the text trimmed, or none when that is empty.
pub open spec fn pattern_of(t: Seq<char>) -> Option<Seq<char>> {
    let s = trim_spec(t);
    if s.len() == 0 {
        None
    } else {
        Some(s)
    }
}

/// An optional text by its characters.
pub open spec fn opt_text(o: Option<String>) -> Option<Seq<char>> {
    match o {
        Some(s) => Some(s@),
        None => None,
    }
}

/// A pattern box: its text, whether it has the focus, and whether the text
/// changed since it was last passed on.
#[derive(Debug)]
pub struct PatternInput {
    pub is_active: bool,
    pub should_send: bool,
    pub input: InputBox,
}

impl PatternInput {
    pub open spec fn wf(&self) -> bool {
        self.input.wf()
    }

    /// An empty box without the focus.
    pub fn new() -> (r: Self)
        ensures
            r.wf(),
            !r.is_active,
            !r.should_send,
            r.input.text().len() == 0,
    {
        PatternInput { is_active: false, should_send: false, input: InputBox::new(String::new()) }
    }

    /// The pattern to pass on, when the box has the focus and its text changed.
    pub fn send(&mut self) -> (r: Option<Option<String>>)
        requires
            old(self).wf(),
        ensures
            final(self).wf(),
            final(self).is_active == old(self).is_active,
            final(self).input == old(self).input,
            old(self).is_active && old(self).should_send ==> {
                &&& r matches Some(p) && opt_text(p) == pattern_of(old(self).input.text())
                &&& !final(self).should_send
            },
            !(old(self).is_active && old(self).should_send) ==> r is None && final(self).should_send == old(
                self,
            ).should_send,
    {
        if self.is_active && self.should_send {
            let value = self.input.value();
            let t = trim(value.as_str());
            let pattern = if t.unicode_len() == 0 {
                None
            } else {
                Some(t.to_string())
            };
            self.should_send = false;
            Some(pattern)
        } else {
            None
        }
    }

    /// Applies an edit key to the text; true when the key is one.
    pub fn edit(&mut self, key: KeyInput) -> (r: bool)
        requires
            old(self).wf(),
        ensures
            final(self).wf(),
            r == spec_input_request(key) is Some,
            final(self).is_active == old(self).is_active,
            r ==> final(self).should_send && applied_edit(old(self).input, final(self).input, spec_input_request(key)->0),
            !r ==> final(self).should_send == old(self).should_send && final(self).input == old(self).input,
    {
        match input_request(key) {
            Some(req) => {
                self.should_send = true;
                self.input.handle(req);
                true
            },
            None => false,
        }
    }

    /// Replaces the text.
    pub fn set(&mut self, pattern: Option<String>)
        ensures
            final(self).wf(),
            final(self).input.text() == match pattern {
                Some(p) => p@,
                None => Seq::<char>::empty(),
            },
            final(self).input.cursor() == final(self).input.text().len(),
            final(self).is_active == old(self).is_active,
            final(self).should_send == old(self).should_send,
    {
        let text = match pattern {
            Some(p) => p,
            None => String::new(),
        };
        self.input = InputBox::new(text);
    }
}

/// The filter box of the connections view.
#[derive(Debug)]
pub struct FilterComponent {
    pub pattern: PatternInput,
    pub placeholder: Option<String>,
}

impl FilterComponent {
    /// An empty box without the focus or placeholder.
    pub fn new() -> (r: Self)
        ensures
            r.pattern.wf(),
            !r.pattern.is_active,
            !r.pattern.should_send,
            r.pattern.input.text().len() == 0,
            r.placeholder is None,
    {
        FilterComponent { pattern: PatternInput::new(), placeholder: None }
    }

    /// Handles a key: Enter and Esc give up the focus; other keys edit.
    pub fn handle_key_event(&mut self, key: KeyInput) -> (r: Option<Action>)
        requires
            old(self).pattern.wf(),
        ensures
            final(self).pattern.wf(),
            final(self).placeholder == old(self).placeholder,
            key.code == Key::Enter || key.code == Key::Esc ==> {
                &&& r == Some(Action::Unfocus)
                &&& !final(self).pattern.is_active
                &&& final(self).pattern.input == old(self).pattern.input
                &&& final(self).pattern.should_send == old(self).pattern.should_send
            },
            !(key.code == Key::Enter || key.code == Key::Esc) ==> {
                &&& r is None
                &&& final(self).pattern.is_active == old(self).pattern.is_active
                &&& spec_input_request(key) is Some ==> final(self).pattern.should_send && applied_edit(
                    old(self).pattern.input,
                    final(self).pattern.input,
                    spec_input_request(key)->0,
                )
                &&& spec_input_request(key) is None ==> final(self).pattern.should_send == old(
                    self,
                ).pattern.should_send && final(self).pattern.input == old(self).pattern.input
            },
    {
        match key.code {
            Key::Enter | Key::Esc => {
                self.pattern.is_active = false;
                let sent = self.pattern.send();
                assert(sent is None);
                Some(Action::Unfocus)
            },
            _ => {
                self.pattern.edit(key);
                None
            },
        }
    }

    /// Takes an action: focusing the box activates it; a tick passes a
    /// changed pattern on (returned as `FilterChanged`); `FilterSet`
    /// replaces the text; `FilterPlaceholder` replaces the placeholder.
    pub fn update(&mut self, action: Action) -> (r: Option<Action>)
        requires
            old(self).pattern.wf(),
        ensures
            final(self).pattern.wf(),
            match action {
                Action::Focus(ComponentId::Filter) => {
                    &&& r is None
                    &&& final(self).pattern.is_active
                    &&& final(self).pattern.input == old(self).pattern.input
                    &&& final(self).pattern.should_send == old(self).pattern.should_send
                    &&& final(self).placeholder == old(self).placeholder
                },
                Action::Tick => {
                    &&& final(self).placeholder == old(self).placeholder
                    &&& final(self).pattern.input == old(self).pattern.input
                    &&& final(self).pattern.is_active == old(self).pattern.is_active
                    &&& if old(self).pattern.is_active && old(self).pattern.should_send {
                        &&& r matches Some(Action::FilterChanged(p)) && opt_text(p) == pattern_of(
                            old(self).pattern.input.text(),
                        )
                        &&& !final(self).pattern.should_send
                    } else {
                        r is None && final(self).pattern.should_send == old(self).pattern.should_send
                    }
                },
                Action::FilterSet(p) => {
                    &&& r is None
                    &&& final(self).pattern.input.text() == match p {
                        Some(t) => t@,
                        None => Seq::<char>::empty(),
                    }
                    &&& final(self).pattern.input.cursor() == final(self).pattern.input.text().len()
                    &&& final(self).pattern.is_active == old(self).pattern.is_active
                    &&& final(self).pattern.should_send == old(self).pattern.should_send
                    &&& final(self).placeholder == old(self).placeholder
                },
                Action::FilterPlaceholder(p) => {
                    &&& r is None
                    &&& final(self).placeholder == p
                    &&& final(self).pattern.input == old(self).pattern.input
                    &&& final(self).pattern.is_active == old(self).pattern.is_active
                    &&& final(self).pattern.should_send == old(self).pattern.should_send
                },
                _ => {
                    &&& r is None
                    &&& final(self).placeholder == old(self).placeholder
                    &&& final(self).pattern.input == old(self).pattern.input
                    &&& final(self).pattern.is_active == old(self).pattern.is_active
                    &&& final(self).pattern.should_send == old(self).pattern.should_send
                },
            },
    {
        match action {
            Action::Focus(ComponentId::Filter) => {
                self.pattern.is_active = true;
                None
            },
            Action::Tick => match self.pattern.send() {
                Some(p) => Some(Action::FilterChanged(p)),
                None => None,
            },
            Action::FilterSet(p) => {
                self.pattern.set(p);
                None
            },
            Action::FilterPlaceholder(p) => {
                self.placeholder = p;
                None
            },
            _ => None,
        }
    }
}

/// The search box of the log view.
#[derive(Debug)]
pub struct SearchComponent {
    pub pattern: PatternInput,
}

impl SearchComponent {
    /// An empty box without the focus.
    pub fn new() -> (r: Self)
        ensures
            r.pattern.wf(),
            !r.pattern.is_active,
            !r.pattern.should_send,
            r.pattern.input.text().len() == 0,
    {
        SearchComponent { pattern: PatternInput::new() }
    }

    /// Handles a key: Ctrl+c quits; Enter and Esc give up the focus; other
    /// keys edit.
    pub fn handle_key_event(&mut self, key: KeyInput) -> (r: Option<Action>)
        requires
            old(self).pattern.wf(),
        ensures
            final(self).pattern.wf(),
            key.code == Key::Char('c') && (key.mods.bits & MOD_CONTROL) == MOD_CONTROL ==> r == Some(
                Action::Quit,
            ) && final(self).pattern.input == old(self).pattern.input && final(self).pattern.is_active == old(
                self,
            ).pattern.is_active && final(self).pattern.should_send == old(self).pattern.should_send,
            !(key.code == Key::Char('c') && (key.mods.bits & MOD_CONTROL) == MOD_CONTROL) ==> {
                if key.code == Key::Enter || key.code == Key::Esc {
                    &&& r == Some(Action::Unfocus)
                    &&& !final(self).pattern.is_active
                    &&& final(self).pattern.input == old(self).pattern.input
                    &&& final(self).pattern.should_send == old(self).pattern.should_send
                } else {
                    &&& r is None
                    &&& final(self).pattern.is_active == old(self).pattern.is_active
                    &&& spec_input_request(key) is Some ==> final(self).pattern.should_send && applied_edit(
                        old(self).pattern.input,
                        final(self).pattern.input,
                        spec_input_request(key)->0,
                    )
                    &&& spec_input_request(key) is None ==> final(self).pattern.should_send == old(
                        self,
                    ).pattern.should_send && final(self).pattern.input == old(self).pattern.input
                }
            },
    {
        if key.code == Key::Char('c') && key.mods.contains(MOD_CONTROL) {
            return Some(Action::Quit);
        }
        match key.code {
            Key::Enter | Key::Esc => {
                self.pattern.is_active = false;
                let sent = self.pattern.send();
                assert(sent is None);
                Some(Action::Unfocus)
            },
            _ => {
                self.pattern.edit(key);
                None
            },
        }
    }

    /// Takes the focus.
    pub fn focus(&mut self)
        ensures
            final(self).pattern.is_active,
            final(self).pattern.input == old(self).pattern.input,
            final(self).pattern.should_send == old(self).pattern.should_send,
    {
        self.pattern.is_active = true;
    }

    /// A tick: the pattern to pass on to the log view, if it changed.
    pub fn tick(&mut self) -> (r: Option<Option<String>>)
        requires
            old(self).pattern.wf(),
        ensures
            final(self).pattern.wf(),
            final(self).pattern.input == old(self).pattern.input,
            final(self).pattern.is_active == old(self).pattern.is_active,
            old(self).pattern.is_active && old(self).pattern.should_send ==> {
                &&& r matches Some(p) && opt_text(p) == pattern_of(old(self).pattern.input.text())
                &&& !final(self).pattern.should_send
            },
            !(old(self).pattern.is_active && old(self).pattern.should_send) ==> r is None
                && final(self).pattern.should_send == old(self).pattern.should_send,
    {
        self.pattern.send()
    }

    /// Replaces the text.
    pub fn set(&mut self, pattern: Option<String>)
        ensures
            final(self).pattern.wf(),
            final(self).pattern.input.text() == match pattern {
                Some(p) => p@,
                None => Seq::<char>::empty(),
            },
            final(self).pattern.input.cursor() == final(self).pattern.input.text().len(),
            final(self).pattern.is_active == old(self).pattern.is_active,
            final(self).pattern.should_send == old(self).pattern.should_send,
    {
        self.pattern.set(pattern);
    }
}

/// The footer labels of an input box: moving the cursor, deleting, yanking, jumping and leaving.
pub open spec fn input_shortcut_labels() -> Seq<Seq<(bool, Seq<char>)>> {
    seq![
        seq![(true, "←/C-←"@), (false, " move "@), (true, "→/C-→"@)],
        seq![(true, "Back/C-Back"@), (false, " del "@), (true, "Del/C-Del"@)],
        seq![(false, "Yank "@), (true, "C-Y"@)],
        seq![(true, "Home"@), (false, " jump "@), (true, "End"@)],
        seq![(false, "esc "@), (true, "Esc"@), (false, "/"@), (true, "↵"@)],
    ]
}

impl FilterComponent {
    /// The footer labels.
    pub fn shortcuts(&self) -> (r: Vec<Shortcut>)
        ensures
            shortcuts_match(r@, input_shortcut_labels()),
    {
        let s0 = Shortcut::new(vec![Fragment::hl("←/C-←"), Fragment::raw(" move "), Fragment::hl("→/C-→")]);
        let s1 = Shortcut::new(vec![Fragment::hl("Back/C-Back"), Fragment::raw(" del "), Fragment::hl("Del/C-Del")]);
        let s2 = Shortcut::new(vec![Fragment::raw("Yank "), Fragment::hl("C-Y")]);
        let s3 = Shortcut::new(vec![Fragment::hl("Home"), Fragment::raw(" jump "), Fragment::hl("End")]);
        let s4 = Shortcut::new(vec![Fragment::raw("esc "), Fragment::hl("Esc"), Fragment::raw("/"), Fragment::hl("↵")]);
        proof {
            assert(parts_view(s0.parts@) =~= seq![(true, "←/C-←"@), (false, " move "@), (true, "→/C-→"@)]);
            assert(parts_view(s1.parts@) =~= seq![(true, "Back/C-Back"@), (false, " del "@), (true, "Del/C-Del"@)]);
            assert(parts_view(s2.parts@) =~= seq![(false, "Yank "@), (true, "C-Y"@)]);
            assert(parts_view(s3.parts@) =~= seq![(true, "Home"@), (false, " jump "@), (true, "End"@)]);
            assert(parts_view(s4.parts@) =~= seq![(false, "esc "@), (true, "Esc"@), (false, "/"@), (true, "↵"@)]);
        }
        let r = vec![s0, s1, s2, s3, s4];
        assert(shortcuts_match(r@, input_shortcut_labels()));
        r
    }
}

impl SearchComponent {
    /// The footer labels.
    pub fn shortcuts(&self) -> (r: Vec<Shortcut>)
        ensures
            shortcuts_match(r@, input_shortcut_labels()),
    {
        let s0 = Shortcut::new(vec![Fragment::hl("←/C-←"), Fragment::raw(" move "), Fragment::hl("→/C-→")]);
        let s1 = Shortcut::new(vec![Fragment::hl("Back/C-Back"), Fragment::raw(" del "), Fragment::hl("Del/C-Del")]);
        let s2 = Shortcut::new(vec![Fragment::raw("Yank "), Fragment::hl("C-Y")]);
        let s3 = Shortcut::new(vec![Fragment::hl("Home"), Fragment::raw(" jump "), Fragment::hl("End")]);
        let s4 = Shortcut::new(vec![Fragment::raw("esc "), Fragment::hl("Esc"), Fragment::raw("/"), Fragment::hl("↵")]);
        proof {
            assert(parts_view(s0.parts@) =~= seq![(true, "←/C-←"@), (false, " move "@), (true, "→/C-→"@)]);
            assert(parts_view(s1.parts@) =~= seq![(true, "Back/C-Back"@), (false, " del "@), (true, "Del/C-Del"@)]);
            assert(parts_view(s2.parts@) =~= seq![(false, "Yank "@), (true, "C-Y"@)]);
            assert(parts_view(s3.parts@) =~= seq![(true, "Home"@), (false, " jump "@), (true, "End"@)]);
            assert(parts_view(s4.parts@) =~= seq![(false, "esc "@), (true, "Esc"@), (false, "/"@), (true, "↵"@)]);
        }
        let r = vec![s0, s1, s2, s3, s4];
        assert(shortcuts_match(r@, input_shortcut_labels()));
        r
    }
}

} // verus!
