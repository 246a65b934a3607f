//! Shortcut labels: text with highlighted parts, such as the key letter of a
//! command in the footer.
use vstd::prelude::*;
use vstd::string::*;
use crate::text::{append_str, u64_text, decimal_text};

verus! {

/// A piece of a label: plain or highlighted text.
#[derive(Debug, Clone, PartialEq)]
pub enum Fragment {
    Raw(String),
    Hl(String),
}

/// A fragment as a pair: whether it is highlighted, and its text.
pub open spec fn fragment_view(f: Fragment) -> (bool, Seq<char>) {
    match f {
        Fragment::Raw(s) => (false, s@),
        Fragment::Hl(s) => (true, s@),
    }
}

/// The fragments of a label as pairs.
pub open spec fn parts_view(p: Seq<Fragment>) -> Seq<(bool, Seq<char>)> {
    p.map_values(|f: Fragment| fragment_view(f))
}

/// The parts of a label that highlights the character at `i` of `t`: the
/// text before it (if any), the character highlighted, the text after it
/// (if any).
pub open spec fn split_at_highlight(t: Seq<char>, i: int) -> Seq<(bool, Seq<char>)> {
    let before: Seq<(bool, Seq<char>)> = if i > 0 {
        seq![(false, t.subrange(0, i))]
    } else {
        Seq::empty()
    };
    let after: Seq<(bool, Seq<char>)> = if i + 1 < t.len() {
        seq![(false, t.subrange(i + 1, t.len() as int))]
    } else {
        Seq::empty()
    };
    before + seq![(true, t.subrange(i, i + 1))] + after
}

/// Whether the labels `s` have, one for one, the parts `labels`.
pub open spec fn shortcuts_match(s: Seq<Shortcut>, labels: Seq<Seq<(bool, Seq<char>)>>) -> bool {
    &&& s.len() == labels.len()
    &&& forall|i: int| 0 <= i < s.len() ==> parts_view(#[trigger] s[i].parts@) == labels[i]
}

/// The text of a label's parts, joined.
pub open spec fn text_of(parts: Seq<(bool, Seq<char>)>) -> Seq<char>
    decreases parts.len(),
{
    if parts.len() == 0 {
        Seq::empty()
    } else {
        text_of(parts.drop_last()) + parts.last().1
    }
}

/// The number of highlighted parts.
pub open spec fn highlighted_count(parts: Seq<(bool, Seq<char>)>) -> nat
    decreases parts.len(),
{
    if parts.len() == 0 {
        0
    } else {
        highlighted_count(parts.drop_last()) + if parts.last().0 {
            1nat
        } else {
            0nat
        }
    }
}

/// The parts of a label made from a text and a position spell the text,
/// and exactly one of them is highlighted: the character at that position.
pub proof fn law_highlight_split_spells_text(t: Seq<char>, i: int)
    requires
        0 <= i < t.len(),
    ensures
        text_of(split_at_highlight(t, i)) == t,
        highlighted_count(split_at_highlight(t, i)) == 1,
        split_at_highlight(t, i).contains((true, seq![t[i]])),
{
    let p = split_at_highlight(t, i);
    let mid = seq![(true, t.subrange(i, i + 1))];
    assert(t.subrange(i, i + 1) =~= seq![t[i]]);
    if i > 0 && i + 1 < t.len() {
        assert(p[1] == (true, seq![t[i]]));
        assert(p.drop_last().drop_last().drop_last() =~= Seq::<(bool, Seq<char>)>::empty());
        assert(t.subrange(0, i) + t.subrange(i, i + 1) + t.subrange(i + 1, t.len() as int) =~= t);
        assert(text_of(p) == text_of(p.drop_last()) + t.subrange(i + 1, t.len() as int));
        assert(text_of(p.drop_last()) == text_of(p.drop_last().drop_last()) + t.subrange(i, i + 1));
        assert(text_of(p.drop_last().drop_last()) == text_of(p.drop_last().drop_last().drop_last())
            + t.subrange(0, i));
        assert(highlighted_count(p.drop_last().drop_last().drop_last()) == 0);
        assert(highlighted_count(p.drop_last().drop_last()) == highlighted_count(
            p.drop_last().drop_last().drop_last(),
        ));
        assert(highlighted_count(p.drop_last()) == highlighted_count(p.drop_last().drop_last()) + 1);
        assert(highlighted_count(p) == highlighted_count(p.drop_last()));
        assert(text_of(p.drop_last().drop_last().drop_last()) =~= Seq::<char>::empty());
    } else if i > 0 {
        assert(p[1] == (true, seq![t[i]]));
        assert(p.drop_last().drop_last() =~= Seq::<(bool, Seq<char>)>::empty());
        assert(t.subrange(0, i) + t.subrange(i, i + 1) =~= t);
        assert(text_of(p) == text_of(p.drop_last()) + t.subrange(i, i + 1));
        assert(text_of(p.drop_last()) == text_of(p.drop_last().drop_last()) + t.subrange(0, i));
        assert(highlighted_count(p.drop_last().drop_last()) == 0);
        assert(highlighted_count(p.drop_last()) == highlighted_count(p.drop_last().drop_last()));
        assert(highlighted_count(p) == highlighted_count(p.drop_last()) + 1);
        assert(text_of(p.drop_last().drop_last()) =~= Seq::<char>::empty());
    } else if i + 1 < t.len() {
        assert(p[0] == (true, seq![t[i]]));
        assert(p.drop_last().drop_last() =~= Seq::<(bool, Seq<char>)>::empty());
        assert(t.subrange(0, 1) + t.subrange(1, t.len() as int) =~= t);
        assert(text_of(p) == text_of(p.drop_last()) + t.subrange(1, t.len() as int));
        assert(text_of(p.drop_last()) == text_of(p.drop_last().drop_last()) + t.subrange(0, 1));
        assert(highlighted_count(p.drop_last().drop_last()) == 0);
        assert(highlighted_count(p.drop_last()) == highlighted_count(p.drop_last().drop_last()) + 1);
        assert(highlighted_count(p) == highlighted_count(p.drop_last()));
        assert(text_of(p.drop_last().drop_last()) =~= Seq::<char>::empty());
    } else {
        assert(p[0] == (true, seq![t[i]]));
        assert(p.drop_last() =~= Seq::<(bool, Seq<char>)>::empty());
        assert(t.subrange(0, 1) =~= t);
        assert(text_of(p) == text_of(p.drop_last()) + t.subrange(0, 1));
        assert(highlighted_count(p.drop_last()) == 0);
        assert(highlighted_count(p) == highlighted_count(p.drop_last()) + 1);
        assert(text_of(p.drop_last()) =~= Seq::<char>::empty());
    }
}

impl Fragment {
    /// Plain text.
    pub fn raw(s: &str) -> (r: Self)
        ensures
            fragment_view(r) == (false, s@),
    {
        Fragment::Raw(s.to_string())
    }

    /// Highlighted text.
    pub fn hl(s: &str) -> (r: Self)
        ensures
            fragment_view(r) == (true, s@),
    {
        Fragment::Hl(s.to_string())
    }
}

/// A piece of a rendered label: its text and whether it is drawn in the
/// highlight style.
#[derive(Debug, Clone, PartialEq)]
pub struct SpanText {
    pub text: String,
    pub highlighted: bool,
}

/// How a part is drawn: highlighted only when it is highlighted and not
/// empty.
pub open spec fn rendered(p: (bool, Seq<char>), s: SpanText) -> bool {
    s.text@ == p.1 && s.highlighted == (p.0 && p.1.len() > 0)
}

/// Why a label could not be made.
#[derive(Debug, Clone, Copy, PartialEq, Eq, Structural)]
pub enum ShortcutError {
    /// The text is not ASCII.
    NotAscii,
    /// The position is not below the length: `(position, length)`.
    OutOfBounds(usize, usize),
}

impl ShortcutError {
    /// The message of the error, for a label kind named `kind`.
    pub fn message(&self, kind: &str) -> (r: String)
        ensures
            r@ == match *self {
                ShortcutError::NotAscii => kind@ + "::from expects ASCII text"@,
                ShortcutError::OutOfBounds(i, n) => "hl_index "@ + decimal_text(i as nat)
                    + " is out of bounds for string of length "@ + decimal_text(n as nat),
            },
    {
        match self {
            ShortcutError::NotAscii => {
                let mut s = kind.to_string();
                append_str(&mut s, "::from expects ASCII text");
                s
            },
            ShortcutError::OutOfBounds(i, n) => {
                let mut s = "hl_index ".to_string();
                let a = u64_text(*i as u64);
                append_str(&mut s, a.as_str());
                append_str(&mut s, " is out of bounds for string of length ");
                let b = u64_text(*n as u64);
                append_str(&mut s, b.as_str());
                s
            },
        }
    }

    /// The message of the error.
    pub fn to_string(&self) -> (r: String)
        ensures
            r@ == match *self {
                ShortcutError::NotAscii => "Shortcut::from expects ASCII text"@,
                ShortcutError::OutOfBounds(i, n) => "hl_index "@ + decimal_text(i as nat)
                    + " is out of bounds for string of length "@ + decimal_text(n as nat),
            },
    {
        proof {
            reveal_strlit("Shortcut");
            reveal_strlit("::from expects ASCII text");
            reveal_strlit("Shortcut::from expects ASCII text");
        }
        self.message("Shortcut")
    }
}

/// The outcome of making a label from `t` highlighting position `i`:
/// refused for non-ASCII text or a position past the end.
pub open spec fn highlight_outcome(t: &str, i: usize) -> Result<Seq<(bool, Seq<char>)>, ShortcutError> {
    if !is_ascii(t) {
        Err(ShortcutError::NotAscii)
    } else if i >= t@.len() {
        Err(ShortcutError::OutOfBounds(i, t@.len() as usize))
    } else {
        Ok(split_at_highlight(t@, i as int))
    }
}

/// A shortcut label.
#[derive(Debug, Clone, PartialEq)]
pub struct Shortcut {
    pub parts: Vec<Fragment>,
}

impl Shortcut {
    /// A label of the given parts.
    pub fn new(parts: Vec<Fragment>) -> (r: Self)
        ensures
            r.parts == parts,
    {
        Shortcut { parts }
    }

    /// The label of ASCII text `s` with the character at `hl_idx`
    /// highlighted.
    pub fn from(s: &str, hl_idx: usize) -> (r: Result<Shortcut, ShortcutError>)
        ensures
            match highlight_outcome(s, hl_idx) {
                Ok(p) => r matches Ok(x) && parts_view(x.parts@) == p,
                Err(e) => r == Err::<Shortcut, ShortcutError>(e),
            },
    {
        if !s.is_ascii() {
            return Err(ShortcutError::NotAscii);
        }
        // For ASCII text the length in bytes is the length in characters.
        let len = s.unicode_len();
        if hl_idx >= len {
            return Err(ShortcutError::OutOfBounds(hl_idx, len));
        }
        let pivot = hl_idx + 1;
        let ghost t = s@;
        let ghost i = hl_idx as int;
        let mid = Fragment::hl(s.substring_ascii(hl_idx, pivot));
        let parts = if hl_idx > 0 {
            let before = Fragment::raw(s.substring_ascii(0, hl_idx));
            if pivot < len {
                let after = Fragment::raw(s.substring_ascii(pivot, len));
                let v = vec![before, mid, after];
                assert(parts_view(v@) =~= seq![fragment_view(v@[0]), fragment_view(v@[1]), fragment_view(v@[2])]);
                assert(parts_view(v@) =~= split_at_highlight(t, i));
                v
            } else {
                let v = vec![before, mid];
                assert(parts_view(v@) =~= seq![fragment_view(v@[0]), fragment_view(v@[1])]);
                assert(parts_view(v@) =~= split_at_highlight(t, i));
                v
            }
        } else {
            if pivot < len {
                let after = Fragment::raw(s.substring_ascii(pivot, len));
                let v = vec![mid, after];
                assert(parts_view(v@) =~= seq![fragment_view(v@[0]), fragment_view(v@[1])]);
                assert(parts_view(v@) =~= split_at_highlight(t, i));
                v
            } else {
                let v = vec![mid];
                assert(parts_view(v@) =~= seq![fragment_view(v@[0])]);
                assert(parts_view(v@) =~= split_at_highlight(t, i));
                v
            }
        };
        assert(parts_view(parts@) =~= split_at_highlight(t, i));
        Ok(Shortcut::new(parts))
    }

    /// The pieces to draw: each part, highlighted when it is a non-empty
    /// highlighted part.
    pub fn spans(&self) -> (r: Vec<SpanText>)
        ensures
            r@.len() == self.parts@.len(),
            forall|i: int| 0 <= i < r@.len() ==> rendered(fragment_view(self.parts@[i]), #[trigger] r@[i]),
    {
        let mut r: Vec<SpanText> = Vec::new();
        let mut i: usize = 0;
        while i < self.parts.len()
            invariant
                i <= self.parts@.len(),
                r@.len() == i,
                forall|j: int| 0 <= j < i ==> rendered(fragment_view(self.parts@[j]), #[trigger] r@[j]),
            decreases self.parts.len() - i,
        {
            let piece = match &self.parts[i] {
                Fragment::Raw(s) => SpanText { text: s.clone(), highlighted: false },
                Fragment::Hl(s) => SpanText { text: s.clone(), highlighted: !s.as_str().is_empty() },
            };
            r.push(piece);
            i = i + 1;
        }
        r
    }

    /// The pieces to draw, consuming the label.
    pub fn into_spans(self) -> (r: Vec<SpanText>)
        ensures
            r@.len() == self.parts@.len(),
            forall|i: int| 0 <= i < r@.len() ==> rendered(fragment_view(self.parts@[i]), #[trigger] r@[i]),
    {
        self.spans()
    }
}

/// The footer's own labels, in front of those of the current view: `help`
/// and `quit`, each with its first letter highlighted.
pub fn default_shortcuts() -> (r: Vec<Shortcut>)
    ensures
        r@.len() == 2,
        parts_view(r@[0].parts@) == split_at_highlight("help"@, 0),
        parts_view(r@[1].parts@) == split_at_highlight("quit"@, 0),
{
    let help = Shortcut::new(vec![Fragment::hl("h"), Fragment::raw("elp")]);
    let quit = Shortcut::new(vec![Fragment::hl("q"), Fragment::raw("uit")]);
    proof {
        reveal_strlit("help");
        reveal_strlit("h");
        reveal_strlit("elp");
        reveal_strlit("quit");
        reveal_strlit("q");
        reveal_strlit("uit");
        assert("help"@.subrange(0, 1) =~= "h"@);
        assert("help"@.subrange(1, 4) =~= "elp"@);
        assert("quit"@.subrange(0, 1) =~= "q"@);
        assert("quit"@.subrange(1, 4) =~= "uit"@);
        assert(parts_view(help.parts@) =~= seq![fragment_view(help.parts@[0]), fragment_view(help.parts@[1])]);
        assert(parts_view(quit.parts@) =~= seq![fragment_view(quit.parts@[0]), fragment_view(quit.parts@[1])]);
        assert(parts_view(help.parts@) =~= split_at_highlight("help"@, 0));
        assert(parts_view(quit.parts@) =~= split_at_highlight("quit"@, 0));
    }
    vec![help, quit]
}

/// The footer: its own labels followed by those of the current view.
#[derive(Debug)]
pub struct FooterComponent {
    pub shortcuts: Vec<Shortcut>,
}

impl FooterComponent {
    /// A footer with only its own labels.
    pub fn new() -> (r: Self)
        ensures
            r.shortcuts@.len() == 2,
            parts_view(r.shortcuts@[0].parts@) == split_at_highlight("help"@, 0),
            parts_view(r.shortcuts@[1].parts@) == split_at_highlight("quit"@, 0),
    {
        FooterComponent { shortcuts: default_shortcuts() }
    }

    /// Shows the labels of a new view after the footer's own.
    pub fn set_shortcuts(&mut self, shortcuts: Vec<Shortcut>)
        ensures
            final(self).shortcuts@.len() == 2 + shortcuts@.len(),
            parts_view(final(self).shortcuts@[0].parts@) == split_at_highlight("help"@, 0),
            parts_view(final(self).shortcuts@[1].parts@) == split_at_highlight("quit"@, 0),
            final(self).shortcuts@.skip(2) == shortcuts@,
    {
        let mut sc = default_shortcuts();
        let mut rest = shortcuts;
        sc.append(&mut rest);
        assert(sc@.skip(2) =~= shortcuts@);
        self.shortcuts = sc;
    }
}

} // verus!
