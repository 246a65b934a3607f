//! Single-line text input boxes, kept by the `tui_input` crate.
use vstd::prelude::*;
use crate::key::{Key, KeyInput, MOD_ALT, MOD_CONTROL, MOD_META, MOD_NONE, MOD_SHIFT};

verus! {

#[verifier::external_type_specification]
#[verifier::external_body]
pub struct ExInput(tui_input::Input);

/// The text an input box holds.
pub uninterp spec fn input_text(i: tui_input::Input) -> Seq<char>;

/// The cursor of an input box: the number of characters before it.
pub uninterp spec fn input_cursor(i: tui_input::Input) -> nat;

/// An edit of an input box.
#[derive(Debug, Clone, Copy, PartialEq, Eq, Structural)]
pub enum InputRequest {
    DeletePrevChar,
    DeleteNextChar,
    GoToPrevChar,
    GoToPrevWord,
    GoToNextChar,
    GoToNextWord,
    DeletePrevWord,
    DeleteNextWord,
    GoToStart,
    GoToEnd,
    InsertChar(char),
}

/// The text after an edit that moves by characters or words, as
/// `tui_input::Input::handle` does it (by grapheme clusters and Unicode word
/// boundaries).
pub uninterp spec fn edited_text(t: Seq<char>, cursor: nat, req: InputRequest) -> Seq<char>;

/// The cursor after such an edit.
pub uninterp spec fn edited_cursor(t: Seq<char>, cursor: nat, req: InputRequest) -> nat;

/// Whether an edit moves or deletes by characters or words.
pub open spec fn is_segment_edit(req: InputRequest) -> bool {
    match req {
        InputRequest::GoToStart | InputRequest::GoToEnd | InputRequest::InsertChar(_) => false,
        _ => true,
    }
}

/// A box holding `s`, with the cursor at its end (`tui_input::Input::new`).
#[verifier::external_body]
pub(crate) fn input_new(s: String) -> (r: tui_input::Input)
    ensures
        input_text(r) == s@,
        input_cursor(r) == s@.len(),
{
    tui_input::Input::new(s)
}

/// The text of a box (`tui_input::Input::value`).
#[verifier::external_body]
pub(crate) fn input_value(i: &tui_input::Input) -> (r: String)
    ensures
        r@ == input_text(*i),
{
    i.value().to_string()
}

/// Empties a box (`tui_input::Input::reset`): no text, cursor at 0.
#[verifier::external_body]
pub(crate) fn input_reset(i: &mut tui_input::Input)
    ensures
        input_text(*final(i)) == Seq::<char>::empty(),
        input_cursor(*final(i)) == 0,
{
    i.reset()
}

/// Applies an edit (`tui_input::Input::handle`). As the crate's source
/// shows: a character is inserted at the cursor, which moves past it; going
/// to the start or the end moves the cursor there and keeps the text; the
/// other edits work by grapheme clusters and word boundaries, whose result is
/// named `edited_text` and `edited_cursor`. The cursor never passes the end of
/// the text.
#[verifier::external_body]
pub(crate) fn input_handle(i: &mut tui_input::Input, req: InputRequest)
    requires
        input_cursor(*old(i)) <= input_text(*old(i)).len(),
    ensures
        input_cursor(*final(i)) <= input_text(*final(i)).len(),
        req matches InputRequest::InsertChar(c) ==> input_text(*final(i)) == input_text(*old(i)).insert(
            input_cursor(*old(i)) as int,
            c,
        ) && input_cursor(*final(i)) == input_cursor(*old(i)) + 1,
        req == InputRequest::GoToStart ==> input_text(*final(i)) == input_text(*old(i)) && input_cursor(
            *final(i),
        ) == 0,
        req == InputRequest::GoToEnd ==> input_text(*final(i)) == input_text(*old(i)) && input_cursor(
            *final(i),
        ) == input_text(*old(i)).len(),
        is_segment_edit(req) ==> input_text(*final(i)) == edited_text(
            input_text(*old(i)),
            input_cursor(*old(i)),
            req,
        ) && input_cursor(*final(i)) == edited_cursor(input_text(*old(i)), input_cursor(*old(i)), req),
{
    let r = match req {
        InputRequest::DeletePrevChar => tui_input::InputRequest::DeletePrevChar,
        InputRequest::DeleteNextChar => tui_input::InputRequest::DeleteNextChar,
        InputRequest::GoToPrevChar => tui_input::InputRequest::GoToPrevChar,
        InputRequest::GoToPrevWord => tui_input::InputRequest::GoToPrevWord,
        InputRequest::GoToNextChar => tui_input::InputRequest::GoToNextChar,
        InputRequest::GoToNextWord => tui_input::InputRequest::GoToNextWord,
        InputRequest::DeletePrevWord => tui_input::InputRequest::DeletePrevWord,
        InputRequest::DeleteNextWord => tui_input::InputRequest::DeleteNextWord,
        InputRequest::GoToStart => tui_input::InputRequest::GoToStart,
        InputRequest::GoToEnd => tui_input::InputRequest::GoToEnd,
        InputRequest::InsertChar(c) => tui_input::InputRequest::InsertChar(c),
    };
    let _ = i.handle(r);
}

/// The edit a key press asks of an input box, if any.
pub open spec fn spec_input_request(key: KeyInput) -> Option<InputRequest> {
    let m = key.mods.bits;
    match key.code {
        Key::Backspace => if m == MOD_NONE {
            Some(InputRequest::DeletePrevChar)
        } else if m == MOD_META || m == MOD_ALT {
            Some(InputRequest::DeletePrevWord)
        } else {
            None
        },
        Key::Delete => if m == MOD_NONE {
            Some(InputRequest::DeleteNextChar)
        } else if m == MOD_CONTROL {
            Some(InputRequest::DeleteNextWord)
        } else {
            None
        },
        Key::Left => if m == MOD_NONE {
            Some(InputRequest::GoToPrevChar)
        } else if m == MOD_CONTROL {
            Some(InputRequest::GoToPrevWord)
        } else {
            None
        },
        Key::Right => if m == MOD_NONE {
            Some(InputRequest::GoToNextChar)
        } else if m == MOD_CONTROL {
            Some(InputRequest::GoToNextWord)
        } else {
            None
        },
        Key::Home => if m == MOD_NONE {
            Some(InputRequest::GoToStart)
        } else {
            None
        },
        Key::End => if m == MOD_NONE {
            Some(InputRequest::GoToEnd)
        } else {
            None
        },
        Key::Char(c) => if c == 'w' && m == MOD_CONTROL {
            Some(InputRequest::DeletePrevWord)
        } else if m == MOD_NONE || m == MOD_SHIFT {
            Some(InputRequest::InsertChar(c))
        } else {
            None
        },
        _ => None,
    }
}

/// The edit a key press asks of an input box, if any.
pub fn input_request(key: KeyInput) -> (r: Option<InputRequest>)
    ensures
        r == spec_input_request(key),
{
    let m = key.mods.bits;
    match key.code {
        Key::Backspace => if m == MOD_NONE {
            Some(InputRequest::DeletePrevChar)
        } else if m == MOD_META || m == MOD_ALT {
            Some(InputRequest::DeletePrevWord)
        } else {
            None
        },
        Key::Delete => if m == MOD_NONE {
            Some(InputRequest::DeleteNextChar)
        } else if m == MOD_CONTROL {
            Some(InputRequest::DeleteNextWord)
        } else {
            None
        },
        Key::Left => if m == MOD_NONE {
            Some(InputRequest::GoToPrevChar)
        } else if m == MOD_CONTROL {
            Some(InputRequest::GoToPrevWord)
        } else {
            None
        },
        Key::Right => if m == MOD_NONE {
            Some(InputRequest::GoToNextChar)
        } else if m == MOD_CONTROL {
            Some(InputRequest::GoToNextWord)
        } else {
            None
        },
        Key::Home => if m == MOD_NONE {
            Some(InputRequest::GoToStart)
        } else {
            None
        },
        Key::End => if m == MOD_NONE {
            Some(InputRequest::GoToEnd)
        } else {
            None
        },
        Key::Char(c) => if c == 'w' && m == MOD_CONTROL {
            Some(InputRequest::DeletePrevWord)
        } else if m == MOD_NONE || m == MOD_SHIFT {
            Some(InputRequest::InsertChar(c))
        } else {
            None
        },
        _ => None,
    }
}

/// An input box: its text and cursor are kept by `tui_input`.
#[derive(Debug)]
pub struct InputBox {
    pub inner: tui_input::Input,
}

/// Whether `after` is the box `before` with the edit `req` applied.
pub open spec fn applied_edit(before: InputBox, after: InputBox, req: InputRequest) -> bool {
    &&& after.wf()
    &&& req matches InputRequest::InsertChar(c) ==> after.text() == before.text().insert(
        before.cursor() as int,
        c,
    ) && after.cursor() == before.cursor() + 1
    &&& req == InputRequest::GoToStart ==> after.text() == before.text() && after.cursor() == 0
    &&& req == InputRequest::GoToEnd ==> after.text() == before.text() && after.cursor() == before.text().len()
    &&& is_segment_edit(req) ==> after.text() == edited_text(before.text(), before.cursor(), req)
        && after.cursor() == edited_cursor(before.text(), before.cursor(), req)
}

impl InputBox {
    /// The text of the box.
    pub open spec fn text(&self) -> Seq<char> {
        input_text(self.inner)
    }

    /// The cursor of the box.
    pub open spec fn cursor(&self) -> nat {
        input_cursor(self.inner)
    }

    /// The cursor is within the text.
    pub open spec fn wf(&self) -> bool {
        self.cursor() <= self.text().len()
    }

    /// A box holding `s`, with the cursor at its end.
    pub fn new(s: String) -> (r: Self)
        ensures
            r.wf(),
            r.text() == s@,
            r.cursor() == s@.len(),
    {
        InputBox { inner: input_new(s) }
    }

    /// The text of the box.
    pub fn value(&self) -> (r: String)
        ensures
            r@ == self.text(),
    {
        input_value(&self.inner)
    }

    /// Empties the box.
    pub fn reset(&mut self)
        ensures
            final(self).wf(),
            final(self).text() == Seq::<char>::empty(),
            final(self).cursor() == 0,
    {
        input_reset(&mut self.inner)
    }

    /// Applies an edit.
    pub fn handle(&mut self, req: InputRequest)
        requires
            old(self).wf(),
        ensures
            applied_edit(*old(self), *final(self), req),
    {
        input_handle(&mut self.inner, req)
    }
}

} // verus!
