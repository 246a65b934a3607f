//! Lines of text with highlighted parts that borrow their text where they
//! can.
use vstd::prelude::*;
use vstd::string::*;
use crate::shortcut::{ShortcutError, SpanText, rendered, split_at_highlight};

verus! {

/// A piece of a line: plain or highlighted, owned or borrowed text.
#[derive(Debug, Clone, PartialEq)]
pub enum Fragment<'a> {
    RawOwned(String),
    HlOwned(String),
    Raw(&'a str),
    Hl(&'a str),
}

/// A fragment as a pair: whether it is highlighted, and its text.
pub open spec fn fragment_view<'a>(f: Fragment<'a>) -> (bool, Seq<char>) {
    match f {
        Fragment::RawOwned(s) => (false, s@),
        Fragment::HlOwned(s) => (true, s@),
        Fragment::Raw(s) => (false, s@),
        Fragment::Hl(s) => (true, s@),
    }
}

/// The fragments of a line as pairs.
pub open spec fn line_view<'a>(p: Seq<Fragment<'a>>) -> Seq<(bool, Seq<char>)> {
    p.map_values(|f: Fragment<'a>| fragment_view(f))
}

/// Whether a fragment borrows its text.
pub open spec fn is_borrowed<'a>(f: Fragment<'a>) -> bool {
    f is Raw || f is Hl
}

/// Whether a fragment owns its text.
pub open spec fn is_owned<'a>(f: Fragment<'a>) -> bool {
    f is RawOwned || f is HlOwned
}

/// The outcome of highlighting position `i` of `t`: refused for non-ASCII
/// text or a position past the end.
pub open spec fn line_outcome(t: Seq<char>, ascii: bool, i: usize) -> Result<Seq<(bool, Seq<char>)>, ShortcutError> {
    if !ascii {
        Err(ShortcutError::NotAscii)
    } else if i >= t.len() {
        Err(ShortcutError::OutOfBounds(i, t.len() as usize))
    } else {
        Ok(split_at_highlight(t, i as int))
    }
}

/// A line with highlighted parts.
#[derive(Debug, Clone, PartialEq)]
pub struct HighlightedLine<'a> {
    pub parts: Vec<Fragment<'a>>,
}

impl<'a> HighlightedLine<'a> {
    /// A line of the given parts.
    pub fn new(parts: Vec<Fragment<'a>>) -> (r: Self)
        ensures
            r.parts == parts,
    {
        HighlightedLine { parts }
    }

    /// The line of ASCII text `s` with the character at `hl_idx`
    /// highlighted; its parts borrow `s`.
    pub fn from(s: &'a str, hl_idx: usize) -> (r: Result<HighlightedLine<'a>, ShortcutError>)
        ensures
            match line_outcome(s@, vstd::utf8::is_ascii_chars(s@), hl_idx) {
                Ok(p) => r matches Ok(x) && line_view(x.parts@) == p && forall|i: int|
                    0 <= i < x.parts@.len() ==> is_borrowed(#[trigger] x.parts@[i]),
                Err(e) => r == Err::<HighlightedLine<'a>, ShortcutError>(e),
            },
    {
        if !s.is_ascii() {
            return Err(ShortcutError::NotAscii);
        }
        // For ASCII text the length in bytes is the length in characters.
        let len = s.unicode_len();
        if hl_idx >= len {
            return Err(ShortcutError::OutOfBounds(hl_idx, len));
        }
        let pivot = hl_idx + 1;
        let ghost t = s@;
        let ghost i = hl_idx as int;
        let mid = Fragment::Hl(s.substring_ascii(hl_idx, pivot));
        let parts = if hl_idx > 0 {
            let before = Fragment::Raw(s.substring_ascii(0, hl_idx));
            if pivot < len {
                let after = Fragment::Raw(s.substring_ascii(pivot, len));
                let v = vec![before, mid, after];
                assert(line_view(v@) =~= seq![fragment_view(v@[0]), fragment_view(v@[1]), fragment_view(v@[2])]);
                assert(line_view(v@) =~= split_at_highlight(t, i));
                v
            } else {
                let v = vec![before, mid];
                assert(line_view(v@) =~= seq![fragment_view(v@[0]), fragment_view(v@[1])]);
                assert(line_view(v@) =~= split_at_highlight(t, i));
                v
            }
        } else {
            if pivot < len {
                let after = Fragment::Raw(s.substring_ascii(pivot, len));
                let v = vec![mid, after];
                assert(line_view(v@) =~= seq![fragment_view(v@[0]), fragment_view(v@[1])]);
                assert(line_view(v@) =~= split_at_highlight(t, i));
                v
            } else {
                let v = vec![mid];
                assert(line_view(v@) =~= seq![fragment_view(v@[0])]);
                assert(line_view(v@) =~= split_at_highlight(t, i));
                v
            }
        };
        Ok(HighlightedLine::new(parts))
    }

    /// The line of ASCII text `s` with the character at `hl_idx`
    /// highlighted; its parts own their text.
    pub fn from_owned(s: String, hl_idx: usize) -> (r: Result<HighlightedLine<'a>, ShortcutError>)
        ensures
            match line_outcome(s@, vstd::utf8::is_ascii_chars(s@), hl_idx) {
                Ok(p) => r matches Ok(x) && line_view(x.parts@) == p && forall|i: int|
                    0 <= i < x.parts@.len() ==> is_owned(#[trigger] x.parts@[i]),
                Err(e) => r == Err::<HighlightedLine<'a>, ShortcutError>(e),
            },
    {
        let text = s.as_str();
        if !text.is_ascii() {
            return Err(ShortcutError::NotAscii);
        }
        let len = text.unicode_len();
        if hl_idx >= len {
            return Err(ShortcutError::OutOfBounds(hl_idx, len));
        }
        let pivot = hl_idx + 1;
        let ghost t = s@;
        let ghost i = hl_idx as int;
        let mid = Fragment::HlOwned(text.substring_ascii(hl_idx, pivot).to_string());
        let parts = if hl_idx > 0 {
            let before = Fragment::RawOwned(text.substring_ascii(0, hl_idx).to_string());
            if pivot < len {
                let after = Fragment::RawOwned(text.substring_ascii(pivot, len).to_string());
                let v = vec![before, mid, after];
                assert(line_view(v@) =~= seq![fragment_view(v@[0]), fragment_view(v@[1]), fragment_view(v@[2])]);
                assert(line_view(v@) =~= split_at_highlight(t, i));
                v
            } else {
                let v = vec![before, mid];
                assert(line_view(v@) =~= seq![fragment_view(v@[0]), fragment_view(v@[1])]);
                assert(line_view(v@) =~= split_at_highlight(t, i));
                v
            }
        } else {
            if pivot < len {
                let after = Fragment::RawOwned(text.substring_ascii(pivot, len).to_string());
                let v = vec![mid, after];
                assert(line_view(v@) =~= seq![fragment_view(v@[0]), fragment_view(v@[1])]);
                assert(line_view(v@) =~= split_at_highlight(t, i));
                v
            } else {
                let v = vec![mid];
                assert(line_view(v@) =~= seq![fragment_view(v@[0])]);
                assert(line_view(v@) =~= split_at_highlight(t, i));
                v
            }
        };
        Ok(HighlightedLine::new(parts))
    }

    /// The pieces to draw: each part, highlighted when it is a non-empty
    /// highlighted part.
    pub fn into_spans(self) -> (r: Vec<SpanText>)
        ensures
            r@.len() == self.parts@.len(),
            forall|i: int| 0 <= i < r@.len() ==> rendered(fragment_view(self.parts@[i]), #[trigger] r@[i]),
    {
        let mut r: Vec<SpanText> = Vec::new();
        let mut i: usize = 0;
        while i < self.parts.len()
            invariant
                i <= self.parts@.len(),
                r@.len() == i,
                forall|j: int| 0 <= j < i ==> rendered(fragment_view(self.parts@[j]), #[trigger] r@[j]),
            decreases self.parts.len() - i,
        {
            let piece = match &self.parts[i] {
                Fragment::RawOwned(s) => SpanText { text: s.clone(), highlighted: false },
                Fragment::HlOwned(s) => SpanText { text: s.clone(), highlighted: !s.as_str().is_empty() },
                Fragment::Raw(s) => {
                    let t: &str = *s;
                    SpanText { text: t.to_owned(), highlighted: false }
                },
                Fragment::Hl(s) => {
                    let t: &str = *s;
                    SpanText { text: t.to_owned(), highlighted: !t.is_empty() }
                },
            };
            r.push(piece);
            i = i + 1;
        }
        r
    }
}

impl ShortcutError {
    /// The message of the error when making a highlighted line.
    pub fn line_message(&self) -> (r: String)
        ensures
            r@ == match *self {
                ShortcutError::NotAscii => "HighlightedLine::from expects ASCII text"@,
                ShortcutError::OutOfBounds(i, n) => "hl_index "@ + crate::text::decimal_text(i as nat)
                    + " is out of bounds for string of length "@ + crate::text::decimal_text(n as nat),
            },
    {
        proof {
            reveal_strlit("HighlightedLine");
            reveal_strlit("::from expects ASCII text");
            reveal_strlit("HighlightedLine::from expects ASCII text");
        }
        self.message("HighlightedLine")
    }
}

} // verus!
