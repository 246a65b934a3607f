//! Confirming and tracking the termination of one connection, or of every
//! connection the filter shows.
use vstd::prelude::*;
use crate::key::{Key, KeyInput, MOD_CONTROL};
use crate::text::{append_str, decimal_text, u64_text};

use crate::shortcut::{fragment_view, parts_view, shortcuts_match, split_at_highlight, Fragment, Shortcut};
verus! {

/// Where the termination of one connection stands.
#[derive(Debug, Clone, PartialEq, Eq)]
pub enum TerminatePhase {
    Hidden,
    Confirm,
    Terminating,
    DoneOk,
    /// It failed with this message.
    DoneErr(String),
}

/// What a key press in a termination dialog asks of the application.
#[derive(Debug, Clone, PartialEq, Eq)]
pub enum TerminateCommand {
    Nothing,
    /// Stop the running request and quit.
    Quit,
    /// Stop the running request and give the focus back.
    Close,
    /// Terminate the connection with this id.
    Terminate(String),
    /// Terminate the connections with these ids.
    TerminateAll(Vec<String>),
}

/// The dialog for one connection.
#[derive(Debug)]
pub struct ConnectionTerminateComponent {
    pub phase: TerminatePhase,
    /// The id of the connection.
    pub target: Option<String>,
}

/// Whether a key is one of q, n and Esc.
pub open spec fn is_no_key(key: KeyInput) -> bool {
    key.code == Key::Char('q') || key.code == Key::Char('n') || key.code == Key::Esc
}

/// Whether a key is y or Enter.
pub open spec fn is_yes_key(key: KeyInput) -> bool {
    key.code == Key::Char('y') || key.code == Key::Enter
}

impl ConnectionTerminateComponent {
    /// A hidden dialog.
    pub fn new() -> (r: Self)
        ensures
            r.phase == TerminatePhase::Hidden,
            r.target is None,
    {
        ConnectionTerminateComponent { phase: TerminatePhase::Hidden, target: None }
    }

    /// Asks to confirm terminating the connection `id`.
    pub fn show(&mut self, id: String)
        ensures
            final(self).phase == TerminatePhase::Confirm,
            final(self).target == Some(id),
    {
        self.phase = TerminatePhase::Confirm;
        self.target = Some(id);
    }

    /// Handles a key: Ctrl+c quits; q, n and Esc close unless a request is
    /// running; y and Enter start the request unless one is running or it
    /// succeeded.
    pub fn handle_key_event(&mut self, key: KeyInput) -> (r: TerminateCommand)
        requires
            is_yes_key(key) && old(self).phase != TerminatePhase::Terminating
                && old(self).phase != TerminatePhase::DoneOk ==> old(self).target is Some,
        ensures
            final(self).target == old(self).target,
            key.code == Key::Char('c') && (key.mods.bits & MOD_CONTROL) == MOD_CONTROL ==> r
                == TerminateCommand::Quit && final(self).phase == old(self).phase,
            !(key.code == Key::Char('c') && (key.mods.bits & MOD_CONTROL) == MOD_CONTROL) ==> {
                if is_no_key(key) {
                    &&& final(self).phase == old(self).phase
                    &&& r == if old(self).phase != TerminatePhase::Terminating {
                        TerminateCommand::Close
                    } else {
                        TerminateCommand::Nothing
                    }
                } else if is_yes_key(key) && old(self).phase != TerminatePhase::Terminating && old(self).phase
                    != TerminatePhase::DoneOk {
                    &&& final(self).phase == TerminatePhase::Terminating
                    &&& r == TerminateCommand::Terminate(old(self).target->0)
                } else {
                    &&& final(self).phase == old(self).phase
                    &&& r == TerminateCommand::Nothing
                }
            },
    {
        if key.code == Key::Char('c') && key.mods.contains(MOD_CONTROL) {
            return TerminateCommand::Quit;
        }
        let terminating = match self.phase {
            TerminatePhase::Terminating => true,
            _ => false,
        };
        let done_ok = match self.phase {
            TerminatePhase::DoneOk => true,
            _ => false,
        };
        match key.code {
            Key::Char('q') | Key::Char('n') | Key::Esc => {
                if !terminating {
                    TerminateCommand::Close
                } else {
                    TerminateCommand::Nothing
                }
            },
            Key::Char('y') | Key::Enter => {
                if terminating || done_ok {
                    return TerminateCommand::Nothing;
                }
                let id = match &self.target {
                    Some(id) => id.clone(),
                    None => {
                        return TerminateCommand::Nothing;
                    },
                };
                self.phase = TerminatePhase::Terminating;
                TerminateCommand::Terminate(id)
            },
            _ => TerminateCommand::Nothing,
        }
    }

    /// The request ended: with success, or with an error message.
    pub fn finish(&mut self, result: Result<(), String>)
        ensures
            final(self).target == old(self).target,
            final(self).phase == match result {
                Ok(_) => TerminatePhase::DoneOk,
                Err(e) => TerminatePhase::DoneErr(e),
            },
    {
        self.phase = match result {
            Ok(_) => TerminatePhase::DoneOk,
            Err(e) => TerminatePhase::DoneErr(e),
        };
    }

    /// The status line of the dialog, if it shows one.
    pub fn status(&self) -> (r: Option<String>)
        ensures
            match self.phase {
                TerminatePhase::Terminating => r matches Some(s) && s@ == "Connection terminating..."@,
                TerminatePhase::DoneOk => r matches Some(s) && s@ == "Connection terminated successfully."@,
                TerminatePhase::DoneErr(e) => r == Some(e),
                _ => r is None,
            },
    {
        match &self.phase {
            TerminatePhase::Terminating => Some("Connection terminating...".to_string()),
            TerminatePhase::DoneOk => Some("Connection terminated successfully.".to_string()),
            TerminatePhase::DoneErr(e) => Some(e.clone()),
            _ => None,
        }
    }
}

/// Where the termination of many connections stands.
#[derive(Debug, Clone, Copy, PartialEq, Eq, Structural)]
pub enum BatchPhase {
    Hidden,
    Confirm,
    Terminating,
    /// Finished: how many requests succeeded and how many failed.
    Done { ok: usize, err: usize },
}

/// The number of `true` entries.
pub open spec fn count_true(s: Seq<bool>) -> nat
    decreases s.len(),
{
    if s.len() == 0 {
        0
    } else {
        count_true(s.drop_last()) + if s.last() { 1nat } else { 0nat }
    }
}

proof fn lemma_count_true_le(s: Seq<bool>)
    ensures
        count_true(s) <= s.len(),
    decreases s.len(),
{
    if s.len() > 0 {
        lemma_count_true_le(s.drop_last());
    }
}

/// The text shown when a batch is done.
pub open spec fn batch_done_text(ok: nat, err: nat) -> Seq<char> {
    "Terminated "@ + decimal_text(ok) + " connections, "@ + decimal_text(err) + " failed."@
}

/// The dialog for every connection the filter shows.
#[derive(Debug)]
pub struct ConnectionBatchTerminateComponent {
    pub phase: BatchPhase,
    /// The ids of the connections.
    pub targets: Vec<String>,
}

impl ConnectionBatchTerminateComponent {
    /// A hidden dialog.
    pub fn new() -> (r: Self)
        ensures
            r.phase == BatchPhase::Hidden,
            r.targets@.len() == 0,
    {
        ConnectionBatchTerminateComponent { phase: BatchPhase::Hidden, targets: Vec::new() }
    }

    /// Asks to confirm terminating the connections `ids`.
    pub fn show(&mut self, ids: Vec<String>)
        ensures
            final(self).phase == BatchPhase::Confirm,
            final(self).targets == ids,
    {
        self.phase = BatchPhase::Confirm;
        self.targets = ids;
    }

    /// Hides the dialog and forgets the connections.
    pub fn close(&mut self)
        ensures
            final(self).phase == BatchPhase::Hidden,
            final(self).targets@.len() == 0,
    {
        self.phase = BatchPhase::Hidden;
        self.targets.clear();
    }

    /// Handles a key: q, n and Esc close unless requests are running; y and
    /// Enter start them when confirming.
    pub fn handle_key_event(&mut self, key: KeyInput) -> (r: TerminateCommand)
        ensures
            is_no_key(key) && old(self).phase != BatchPhase::Terminating ==> {
                &&& r == TerminateCommand::Close
                &&& final(self).phase == BatchPhase::Hidden
                &&& final(self).targets@.len() == 0
            },
            !(is_no_key(key) && old(self).phase != BatchPhase::Terminating) && is_yes_key(key) && old(self).phase
                == BatchPhase::Confirm ==> {
                &&& r matches TerminateCommand::TerminateAll(ids) && ids@ == old(self).targets@
                &&& final(self).phase == BatchPhase::Terminating
                &&& final(self).targets@ == old(self).targets@
            },
            !(is_no_key(key) && old(self).phase != BatchPhase::Terminating) && !(is_yes_key(key)
                && old(self).phase == BatchPhase::Confirm) ==> {
                &&& r == TerminateCommand::Nothing
                &&& final(self).phase == old(self).phase
                &&& final(self).targets == old(self).targets
            },
    {
        match key.code {
            Key::Char('q') | Key::Char('n') | Key::Esc => {
                if self.phase != BatchPhase::Terminating {
                    self.close();
                    return TerminateCommand::Close;
                }
                TerminateCommand::Nothing
            },
            Key::Char('y') | Key::Enter => {
                if self.phase == BatchPhase::Confirm {
                    self.phase = BatchPhase::Terminating;
                    let ids = clone_ids(&self.targets);
                    return TerminateCommand::TerminateAll(ids);
                }
                TerminateCommand::Nothing
            },
            _ => TerminateCommand::Nothing,
        }
    }

    /// The requests ended, one result per connection (true for success).
    pub fn finish(&mut self, results: &Vec<bool>)
        ensures
            final(self).phase == (BatchPhase::Done {
                ok: count_true(results@) as usize,
                err: (results@.len() - count_true(results@)) as usize,
            }),
            final(self).targets == old(self).targets,
    {
        let mut ok: usize = 0;
        let mut i: usize = 0;
        while i < results.len()
            invariant
                i <= results@.len(),
                ok == count_true(results@.take(i as int)),
                ok <= i,
            decreases results.len() - i,
        {
            assert(results@.take(i + 1).drop_last() =~= results@.take(i as int));
            if results[i] {
                ok = ok + 1;
            }
            i = i + 1;
        }
        assert(results@.take(results@.len() as int) =~= results@);
        self.phase = BatchPhase::Done { ok, err: results.len() - ok };
    }

    /// The status line of the dialog, if it shows one.
    pub fn status(&self) -> (r: Option<String>)
        ensures
            match self.phase {
                BatchPhase::Terminating => r matches Some(s) && s@ == "Connections terminating..."@,
                BatchPhase::Done { ok, err } => r matches Some(s) && s@ == batch_done_text(ok as nat, err as nat),
                _ => r is None,
            },
    {
        match self.phase {
            BatchPhase::Terminating => Some("Connections terminating...".to_string()),
            BatchPhase::Done { ok, err } => {
                let mut s = "Terminated ".to_string();
                append_str(&mut s, u64_text(ok as u64).as_str());
                append_str(&mut s, " connections, ");
                append_str(&mut s, u64_text(err as u64).as_str());
                append_str(&mut s, " failed.");
                Some(s)
            },
            _ => None,
        }
    }
}

/// A copy of a list of ids.
fn clone_ids(v: &Vec<String>) -> (r: Vec<String>)
    ensures
        r@ == v@,
{
    let mut r: Vec<String> = Vec::new();
    let mut i: usize = 0;
    while i < v.len()
        invariant
            i <= v@.len(),
            r@ == v@.take(i as int),
        decreases v.len() - i,
    {
        r.push(v[i].clone());
        assert(v@.take(i + 1) =~= v@.take(i as int).push(v@[i as int]));
        i = i + 1;
    }
    assert(v@.take(v@.len() as int) =~= v@);
    r
}

/// The footer labels of both termination prompts: yes, no.
pub open spec fn terminate_shortcut_labels() -> Seq<Seq<(bool, Seq<char>)>> {
    seq![
        seq![(true, "y"@), (false, "es "@), (true, "↵"@)],
        seq![(true, "n"@), (false, "o "@), (true, "Esc"@)],
    ]
}

impl ConnectionTerminateComponent {
    /// The footer labels: yes with Enter, no with Esc.
    pub fn shortcuts(&self) -> (r: Vec<Shortcut>)
        ensures
            shortcuts_match(r@, terminate_shortcut_labels()),
    {
        let s0 = Shortcut::new(vec![Fragment::hl("y"), Fragment::raw("es "), Fragment::hl("↵")]);
        let s1 = Shortcut::new(vec![Fragment::hl("n"), Fragment::raw("o "), Fragment::hl("Esc")]);
        proof {
            assert(parts_view(s0.parts@) =~= seq![(true, "y"@), (false, "es "@), (true, "↵"@)]);
            assert(parts_view(s1.parts@) =~= seq![(true, "n"@), (false, "o "@), (true, "Esc"@)]);
        }
        let r = vec![s0, s1];
        assert(shortcuts_match(r@, terminate_shortcut_labels()));
        r
    }
}

impl ConnectionBatchTerminateComponent {
    /// The footer labels: yes with Enter, no with Esc.
    pub fn shortcuts(&self) -> (r: Vec<Shortcut>)
        ensures
            shortcuts_match(r@, terminate_shortcut_labels()),
    {
        let s0 = Shortcut::new(vec![Fragment::hl("y"), Fragment::raw("es "), Fragment::hl("↵")]);
        let s1 = Shortcut::new(vec![Fragment::hl("n"), Fragment::raw("o "), Fragment::hl("Esc")]);
        proof {
            assert(parts_view(s0.parts@) =~= seq![(true, "y"@), (false, "es "@), (true, "↵"@)]);
            assert(parts_view(s1.parts@) =~= seq![(true, "n"@), (false, "o "@), (true, "Esc"@)]);
        }
        let r = vec![s0, s1];
        assert(shortcuts_match(r@, terminate_shortcut_labels()));
        r
    }
}

} // verus!
