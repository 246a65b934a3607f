//! The DNS query dialog: a record type selector, a name box, and the answers,
//! scrolled sideways by grapheme clusters.
use vstd::prelude::*;
use unicode_segmentation::UnicodeSegmentation;
use crate::action::Action;
use crate::input::{applied_edit, input_request, spec_input_request, InputBox};
use crate::key::{Key, KeyInput, KeyOutcome};
use crate::navigator::{is_navigation_key, nav_after, ScrollableNavigator};
use crate::shortcut::{parts_view, Fragment, Shortcut};
use crate::text::{append_str, trim, trim_spec};

verus! {

/// Columns the answers move sideways per key press.
pub const HORIZ_STEP: usize = 4;

/// The extended grapheme clusters of a text, in order
/// (`UnicodeSegmentation::graphemes` with `is_extended` set).
pub uninterp spec fn grapheme_clusters(s: Seq<char>) -> Seq<Seq<char>>;

/// The texts of `gs` one after another.
pub open spec fn flatten(gs: Seq<Seq<char>>) -> Seq<char>
    decreases gs.len(),
{
    if gs.len() == 0 {
        Seq::empty()
    } else {
        flatten(gs.drop_last()) + gs.last()
    }
}

/// Splits a text into its extended grapheme clusters
/// (`unicode_segmentation::UnicodeSegmentation::graphemes(s, true)`).
///
/// The clusters are consecutive, non-empty slices of `s` that together cover
/// it; where the boundaries fall (Unicode UAX #29) is named, not stated.
#[verifier::external_body]
fn graphemes(s: &str) -> (r: Vec<String>)
    ensures
        r@.map_values(|g: String| g@) == grapheme_clusters(s@),
        flatten(r@.map_values(|g: String| g@)) == s@,
        forall|i: int| 0 <= i < r@.len() ==> #[trigger] r@[i]@.len() > 0,
{
    s.graphemes(true).map(String::from).collect()
}

/// The text of an answer shown from its `offset`-th grapheme cluster on.
pub open spec fn scrolled_text(data: Seq<char>, offset: nat) -> Seq<char> {
    let gs = grapheme_clusters(data);
    if offset == 0 {
        data
    } else if offset >= gs.len() {
        Seq::empty()
    } else {
        flatten(gs.subrange(offset as int, gs.len() as int))
    }
}

proof fn lemma_flatten_step(gs: Seq<Seq<char>>, a: int, i: int)
    requires
        0 <= a <= i < gs.len(),
    ensures
        flatten(gs.subrange(a, i + 1)) == flatten(gs.subrange(a, i)) + gs[i],
{
    assert(gs.subrange(a, i + 1).drop_last() == gs.subrange(a, i));
}

/// The text of an answer, scrolled sideways by `offset` grapheme clusters.
pub fn scrolled_answer_data(offset: usize, data: &str) -> (r: String)
    ensures
        r@ == scrolled_text(data@, offset as nat),
{
    if offset == 0 {
        return data.to_string();
    }
    let gs = graphemes(data);
    let ghost view = gs@.map_values(|g: String| g@);
    let mut out = String::new();
    if offset >= gs.len() {
        return out;
    }
    let mut i = offset;
    assert(view.subrange(offset as int, offset as int) == Seq::<Seq<char>>::empty());
    while i < gs.len()
        invariant
            offset <= i <= gs@.len(),
            view == gs@.map_values(|g: String| g@),
            out@ == flatten(view.subrange(offset as int, i as int)),
        decreases gs.len() - i,
    {
        proof {
            lemma_flatten_step(view, offset as int, i as int);
        }
        append_str(&mut out, gs[i].as_str());
        i = i + 1;
    }
    out
}

/// The parts of the dialog that take keys.
#[derive(Debug, Clone, Copy, PartialEq, Eq, Structural)]
pub enum FocusedField {
    Type,
    Name,
    Answers,
}

pub open spec fn next_field(f: FocusedField) -> FocusedField {
    match f {
        FocusedField::Type => FocusedField::Name,
        FocusedField::Name => FocusedField::Answers,
        FocusedField::Answers => FocusedField::Type,
    }
}

pub open spec fn prev_field(f: FocusedField) -> FocusedField {
    match f {
        FocusedField::Type => FocusedField::Answers,
        FocusedField::Name => FocusedField::Type,
        FocusedField::Answers => FocusedField::Name,
    }
}

impl FocusedField {
    /// The next part, in a cycle.
    pub fn next(self) -> (r: Self)
        ensures
            r == next_field(self),
    {
        match self {
            FocusedField::Type => FocusedField::Name,
            FocusedField::Name => FocusedField::Answers,
            FocusedField::Answers => FocusedField::Type,
        }
    }

    /// The previous part, in a cycle.
    pub fn prev(self) -> (r: Self)
        ensures
            r == prev_field(self),
    {
        match self {
            FocusedField::Type => FocusedField::Answers,
            FocusedField::Name => FocusedField::Type,
            FocusedField::Answers => FocusedField::Name,
        }
    }
}

/// The record types the dialog offers, in the order it cycles through them.
#[derive(Debug, Clone, Copy, PartialEq, Eq, Structural)]
pub enum DnsRecordType {
    A,
    AAAA,
    CNAME,
    MX,
    NS,
    PTR,
    SOA,
    SRV,
    TXT,
}

/// The number of record types offered.
pub const RECORD_TYPE_COUNT: usize = 9;

pub open spec fn record_type_at(i: nat) -> DnsRecordType {
    if i == 1 {
        DnsRecordType::AAAA
    } else if i == 2 {
        DnsRecordType::CNAME
    } else if i == 3 {
        DnsRecordType::MX
    } else if i == 4 {
        DnsRecordType::NS
    } else if i == 5 {
        DnsRecordType::PTR
    } else if i == 6 {
        DnsRecordType::SOA
    } else if i == 7 {
        DnsRecordType::SRV
    } else if i == 8 {
        DnsRecordType::TXT
    } else {
        DnsRecordType::A
    }
}

/// The index after `i`, wrapping to the first type.
pub open spec fn next_type_index(i: nat) -> nat {
    (i + 1) % (RECORD_TYPE_COUNT as nat)
}

/// The index before `i`, wrapping to the last type.
pub open spec fn prev_type_index(i: nat) -> nat {
    if i > 0 {
        (i - 1) as nat
    } else {
        (RECORD_TYPE_COUNT - 1) as nat
    }
}

/// Moving to the next record type and back, or back and then forward,
/// returns to the type selected; the same holds of the focused part.
pub proof fn law_selection_cycles_are_undone(i: nat, f: FocusedField)
    requires
        i < RECORD_TYPE_COUNT,
    ensures
        prev_type_index(next_type_index(i)) == i,
        next_type_index(prev_type_index(i)) == i,
        next_type_index(i) < RECORD_TYPE_COUNT,
        prev_type_index(i) < RECORD_TYPE_COUNT,
        prev_field(next_field(f)) == f,
        next_field(prev_field(f)) == f,
{
}

impl DnsRecordType {
    /// The type at position `i` of the list; `A` past its end.
    pub fn at(i: usize) -> (r: Self)
        ensures
            r == record_type_at(i as nat),
    {
        if i == 1 {
            DnsRecordType::AAAA
        } else if i == 2 {
            DnsRecordType::CNAME
        } else if i == 3 {
            DnsRecordType::MX
        } else if i == 4 {
            DnsRecordType::NS
        } else if i == 5 {
            DnsRecordType::PTR
        } else if i == 6 {
            DnsRecordType::SOA
        } else if i == 7 {
            DnsRecordType::SRV
        } else if i == 8 {
            DnsRecordType::TXT
        } else {
            DnsRecordType::A
        }
    }

    /// The type's name as the query API spells it.
    pub fn as_str(&self) -> (r: &'static str)
        ensures
            r@ == record_type_name(*self),
    {
        match self {
            DnsRecordType::A => "A",
            DnsRecordType::AAAA => "AAAA",
            DnsRecordType::CNAME => "CNAME",
            DnsRecordType::MX => "MX",
            DnsRecordType::NS => "NS",
            DnsRecordType::PTR => "PTR",
            DnsRecordType::SOA => "SOA",
            DnsRecordType::SRV => "SRV",
            DnsRecordType::TXT => "TXT",
        }
    }
}

pub open spec fn record_type_name(t: DnsRecordType) -> Seq<char> {
    match t {
        DnsRecordType::A => "A"@,
        DnsRecordType::AAAA => "AAAA"@,
        DnsRecordType::CNAME => "CNAME"@,
        DnsRecordType::MX => "MX"@,
        DnsRecordType::NS => "NS"@,
        DnsRecordType::PTR => "PTR"@,
        DnsRecordType::SOA => "SOA"@,
        DnsRecordType::SRV => "SRV"@,
        DnsRecordType::TXT => "TXT"@,
    }
}

/// Each record type is asked for by its own name: two different types never
/// share a name.
pub proof fn law_record_type_names_distinct(a: DnsRecordType, b: DnsRecordType)
    ensures
        a != b ==> record_type_name(a) != record_type_name(b),
{
    reveal_strlit("A");
    reveal_strlit("AAAA");
    reveal_strlit("CNAME");
    reveal_strlit("MX");
    reveal_strlit("NS");
    reveal_strlit("PTR");
    reveal_strlit("SOA");
    reveal_strlit("SRV");
    reveal_strlit("TXT");
    if a != b && record_type_name(a) == record_type_name(b) {
        let n = record_type_name(a);
        assert(n.len() == record_type_name(b).len());
        assert(n[0] == record_type_name(b)[0]);
        if n.len() > 1 {
            assert(n[1] == record_type_name(b)[1]);
        }
    }
}

/// The name the query API gets for a record type is the type's mnemonic,
/// spelled as the type is named: `A`, `AAAA`, `CNAME`, `MX`, `NS`, `PTR`,
/// `SOA`, `SRV` and `TXT`.
pub proof fn law_record_type_name_is_its_mnemonic()
    ensures
        record_type_name(DnsRecordType::A) == "A"@,
        record_type_name(DnsRecordType::AAAA) == "AAAA"@,
        record_type_name(DnsRecordType::CNAME) == "CNAME"@,
        record_type_name(DnsRecordType::MX) == "MX"@,
        record_type_name(DnsRecordType::NS) == "NS"@,
        record_type_name(DnsRecordType::PTR) == "PTR"@,
        record_type_name(DnsRecordType::SOA) == "SOA"@,
        record_type_name(DnsRecordType::SRV) == "SRV"@,
        record_type_name(DnsRecordType::TXT) == "TXT"@,
{
}

/// A query to send: the name and the record type.
#[derive(Debug, Clone)]
pub struct DnsQueryRequest {
    pub name: String,
    pub record_type: DnsRecordType,
}

/// One answer record: its name and its data.
#[derive(Debug, Clone)]
pub struct DnsAnswer {
    pub name: String,
    pub data: String,
}

/// How a sent query ended.
#[derive(Debug, Clone)]
pub enum QueryOutcome {
    /// The server answered with these records.
    Answers(Vec<DnsAnswer>),
    /// The query failed with this message.
    Failed(String),
    /// The task running the query went away without a result.
    Stopped,
}

/// What a key press in the dialog asks of the application.
#[derive(Debug)]
pub struct DnsKeyResult {
    pub action: Option<Action>,
    /// A query to send, when one was started.
    pub request: Option<DnsQueryRequest>,
    /// The focus moved, so the footer's shortcuts changed.
    pub focus_changed: bool,
}

/// The DNS query dialog.
#[derive(Debug)]
pub struct DnsQueryComponent {
    pub show: bool,
    pub focused: FocusedField,
    pub input: InputBox,
    pub record_type_index: usize,
    pub error: Option<String>,
    pub answers: Vec<DnsAnswer>,
    pub navigator: ScrollableNavigator,
    pub answer_horiz_offset: usize,
    /// A query was sent and its result has not come back.
    pub loading: bool,
}

/// The shortcuts of the dialog's focused part.
pub open spec fn field_hint(f: FocusedField) -> Seq<(bool, Seq<char>)> {
    match f {
        FocusedField::Type => seq![(true, "←"@), (false, " type "@), (true, "→"@)],
        FocusedField::Name => seq![(true, "←"@), (false, " cursor "@), (true, "→"@)],
        FocusedField::Answers => seq![
            (true, "←"@),
            (false, "/"@),
            (true, "↑"@),
            (false, " nav "@),
            (true, "↓"@),
            (false, "/"@),
            (true, "→"@),
        ],
    }
}

/// Whether the focused part uses a key itself.
pub open spec fn focused_consumes(s: DnsQueryComponent, key: KeyInput) -> bool {
    match s.focused {
        FocusedField::Type => key.code == Key::Left || key.code == Key::Right,
        FocusedField::Name => spec_input_request(key) is Some,
        FocusedField::Answers => key.code == Key::Left || key.code == Key::Right || (is_navigation_key(key)
            && s.navigator.content_length > 0),
    }
}

/// `after` is `before` with the key handled by the focused part.
pub open spec fn focused_effect(before: DnsQueryComponent, after: DnsQueryComponent, key: KeyInput) -> bool {
    &&& after.show == before.show
    &&& after.focused == before.focused
    &&& after.error == before.error
    &&& after.answers@ == before.answers@
    &&& after.loading == before.loading
    &&& after.record_type_index == (if before.focused == FocusedField::Type && key.code == Key::Left {
        prev_type_index(before.record_type_index as nat)
    } else if before.focused == FocusedField::Type && key.code == Key::Right {
        next_type_index(before.record_type_index as nat)
    } else {
        before.record_type_index as nat
    })
    &&& before.focused == FocusedField::Name ==> applied_edit(
        before.input,
        after.input,
        spec_input_request(key)->0,
    )
    &&& before.focused != FocusedField::Name ==> after.input == before.input
    &&& after.answer_horiz_offset == (if before.focused == FocusedField::Answers && key.code == Key::Left {
        if before.answer_horiz_offset >= HORIZ_STEP {
            (before.answer_horiz_offset - HORIZ_STEP) as nat
        } else {
            0
        }
    } else if before.focused == FocusedField::Answers && key.code == Key::Right {
        if before.answer_horiz_offset + HORIZ_STEP <= usize::MAX {
            (before.answer_horiz_offset + HORIZ_STEP) as nat
        } else {
            usize::MAX as nat
        }
    } else {
        before.answer_horiz_offset as nat
    })
    &&& after.navigator == (if before.focused == FocusedField::Answers && key.code != Key::Left && key.code
        != Key::Right {
        nav_after(before.navigator, key)
    } else {
        before.navigator
    })
}

/// `after` is `before` with its answers and table position cleared.
pub open spec fn table_cleared(before: DnsQueryComponent, after: DnsQueryComponent) -> bool {
    &&& after.answers@.len() == 0
    &&& after.navigator == ScrollableNavigator::new_spec()
    &&& after.answer_horiz_offset == 0
    &&& after.input == before.input
    &&& after.focused == before.focused
    &&& after.record_type_index == before.record_type_index
}

/// `after` is `before` with its answers, error and table position cleared.
pub open spec fn answers_reset(before: DnsQueryComponent, after: DnsQueryComponent) -> bool {
    table_cleared(before, after) && after.error is None
}

/// Whether `e` holds exactly the text `t`.
pub open spec fn error_is(e: Option<String>, t: Seq<char>) -> bool {
    e matches Some(s) && s@ == t
}

/// `after` and the returned request are what asking for a query on
/// `before` gives, with `api_ready` telling whether the API is set up.
pub open spec fn query_effect(
    before: DnsQueryComponent,
    after: DnsQueryComponent,
    api_ready: bool,
    request: Option<DnsQueryRequest>,
) -> bool {
    let name = trim_spec(before.input.text());
    &&& after.show == before.show
    &&& if before.loading {
        &&& request is None
        &&& after.error == before.error
        &&& after.answers@ == before.answers@
        &&& after.navigator == before.navigator
        &&& after.answer_horiz_offset == before.answer_horiz_offset
        &&& after.loading
        &&& after.input == before.input
        &&& after.focused == before.focused
        &&& after.record_type_index == before.record_type_index
    } else if name.len() == 0 || !api_ready {
        &&& request is None
        &&& error_is(
            after.error,
            if name.len() == 0 {
                "Name is required"@
            } else {
                "API is not initialized"@
            },
        )
        &&& after.answers@ == before.answers@
        &&& after.navigator == before.navigator
        &&& after.answer_horiz_offset == before.answer_horiz_offset
        &&& !after.loading
        &&& after.input == before.input
        &&& after.focused == before.focused
        &&& after.record_type_index == before.record_type_index
    } else {
        &&& request matches Some(q) && q.name@ == name && q.record_type == record_type_at(
            before.record_type_index as nat,
        )
        &&& answers_reset(before, after)
        &&& after.loading
    }
}

impl DnsQueryComponent {
    pub open spec fn wf(&self) -> bool {
        &&& self.input.wf()
        &&& self.navigator.wf()
        &&& self.record_type_index < RECORD_TYPE_COUNT
    }

    /// A closed dialog, on the first record type, with an empty name.
    pub fn new() -> (r: Self)
        ensures
            r.wf(),
            !r.show,
            r.focused == FocusedField::Type,
            r.input.text().len() == 0,
            r.record_type_index == 0,
            r.error is None,
            r.answers@.len() == 0,
            r.navigator == ScrollableNavigator::new_spec(),
            r.answer_horiz_offset == 0,
            !r.loading,
    {
        DnsQueryComponent {
            show: false,
            focused: FocusedField::Type,
            input: InputBox::new(String::new()),
            record_type_index: 0,
            error: None,
            answers: Vec::new(),
            navigator: ScrollableNavigator::new(),
            answer_horiz_offset: 0,
            loading: false,
        }
    }

    /// Moves the focus; true when it moved.
    pub fn set_focused(&mut self, focused: FocusedField) -> (r: bool)
        ensures
            r == (old(self).focused != focused),
            final(self).focused == focused,
            final(self).show == old(self).show,
            final(self).input == old(self).input,
            final(self).record_type_index == old(self).record_type_index,
            final(self).error == old(self).error,
            final(self).answers == old(self).answers,
            final(self).navigator == old(self).navigator,
            final(self).answer_horiz_offset == old(self).answer_horiz_offset,
            final(self).loading == old(self).loading,
    {
        if self.focused == focused {
            return false;
        }
        self.focused = focused;
        true
    }

    /// Opens the dialog with the record type focused; true when the focus moved.
    pub fn show(&mut self) -> (r: bool)
        ensures
            final(self).show,
            r == (old(self).focused != FocusedField::Type),
            final(self).focused == FocusedField::Type,
            final(self).input == old(self).input,
            final(self).record_type_index == old(self).record_type_index,
            final(self).error == old(self).error,
            final(self).answers == old(self).answers,
            final(self).navigator == old(self).navigator,
            final(self).answer_horiz_offset == old(self).answer_horiz_offset,
            final(self).loading == old(self).loading,
    {
        self.show = true;
        self.set_focused(FocusedField::Type)
    }

    /// Clears the answers, the error and the table position.
    pub fn reset_answers(&mut self)
        requires
            old(self).wf(),
        ensures
            final(self).wf(),
            answers_reset(*old(self), *final(self)),
            final(self).show == old(self).show,
            final(self).loading == old(self).loading,
    {
        self.answers.clear();
        self.error = None;
        self.navigator = ScrollableNavigator::new();
        self.answer_horiz_offset = 0;
    }

    /// Closes the dialog, dropping a pending query and the answers.
    pub fn close(&mut self)
        requires
            old(self).wf(),
        ensures
            final(self).wf(),
            !final(self).show,
            !final(self).loading,
            answers_reset(*old(self), *final(self)),
    {
        self.show = false;
        self.loading = false;
        self.reset_answers();
    }

    /// The selected record type.
    pub fn current_record_type(&self) -> (r: DnsRecordType)
        ensures
            r == record_type_at(self.record_type_index as nat),
    {
        DnsRecordType::at(self.record_type_index)
    }

    /// Selects the next record type, wrapping to the first.
    pub fn next_record_type(&mut self)
        requires
            old(self).record_type_index < RECORD_TYPE_COUNT,
        ensures
            final(self).record_type_index == next_type_index(old(self).record_type_index as nat),
            final(self).record_type_index < RECORD_TYPE_COUNT,
            final(self).show == old(self).show,
            final(self).focused == old(self).focused,
            final(self).input == old(self).input,
            final(self).error == old(self).error,
            final(self).answers == old(self).answers,
            final(self).navigator == old(self).navigator,
            final(self).answer_horiz_offset == old(self).answer_horiz_offset,
            final(self).loading == old(self).loading,
    {
        self.record_type_index = (self.record_type_index + 1) % RECORD_TYPE_COUNT;
    }

    /// Selects the previous record type, wrapping to the last.
    pub fn prev_record_type(&mut self)
        requires
            old(self).record_type_index < RECORD_TYPE_COUNT,
        ensures
            final(self).record_type_index == prev_type_index(old(self).record_type_index as nat),
            final(self).record_type_index < RECORD_TYPE_COUNT,
            final(self).show == old(self).show,
            final(self).focused == old(self).focused,
            final(self).input == old(self).input,
            final(self).error == old(self).error,
            final(self).answers == old(self).answers,
            final(self).navigator == old(self).navigator,
            final(self).answer_horiz_offset == old(self).answer_horiz_offset,
            final(self).loading == old(self).loading,
    {
        self.record_type_index = if self.record_type_index > 0 {
            self.record_type_index - 1
        } else {
            RECORD_TYPE_COUNT - 1
        };
    }

    /// The answer text shown for `data` at the current sideways offset.
    pub fn scrolled_answer_data(&self, data: &str) -> (r: String)
        ensures
            r@ == scrolled_text(data@, self.answer_horiz_offset as nat),
    {
        scrolled_answer_data(self.answer_horiz_offset, data)
    }

    /// Starts a query for the trimmed name and the selected type; with an
    /// empty name, or the API not set up, records the error instead. Nothing
    /// happens while a query is pending.
    pub fn query(&mut self, api_ready: bool) -> (r: Option<DnsQueryRequest>)
        requires
            old(self).wf(),
        ensures
            final(self).wf(),
            query_effect(*old(self), *final(self), api_ready, r),
    {
        if self.loading {
            return None;
        }
        let value = self.input.value();
        let name = trim(value.as_str());
        if name.unicode_len() == 0 {
            self.error = Some("Name is required".to_string());
            return None;
        }
        if !api_ready {
            self.error = Some("API is not initialized".to_string());
            return None;
        }
        let req = DnsQueryRequest { name: name.to_string(), record_type: self.current_record_type() };
        self.reset_answers();
        self.loading = true;
        Some(req)
    }

    /// Takes the result of the pending query; does nothing when none is pending.
    pub fn receive(&mut self, outcome: QueryOutcome)
        requires
            old(self).wf(),
        ensures
            final(self).wf(),
            final(self).show == old(self).show,
            final(self).focused == old(self).focused,
            final(self).input == old(self).input,
            final(self).record_type_index == old(self).record_type_index,
            !final(self).loading,
            !old(self).loading ==> {
                &&& final(self).error == old(self).error
                &&& final(self).answers@ == old(self).answers@
                &&& final(self).navigator == old(self).navigator
                &&& final(self).answer_horiz_offset == old(self).answer_horiz_offset
            },
            old(self).loading ==> match outcome {
                QueryOutcome::Answers(a) => {
                    &&& final(self).answers@ == a@
                    &&& final(self).error is None
                    &&& final(self).navigator == ScrollableNavigator::new_spec()
                    &&& final(self).answer_horiz_offset == 0
                },
                QueryOutcome::Failed(e) => {
                    &&& table_cleared(*old(self), *final(self))
                    &&& final(self).error == Some(e)
                },
                QueryOutcome::Stopped => {
                    &&& error_is(final(self).error, "DNS query task stopped"@)
                    &&& final(self).answers@ == old(self).answers@
                    &&& final(self).navigator == old(self).navigator
                    &&& final(self).answer_horiz_offset == old(self).answer_horiz_offset
                },
            },
    {
        if !self.loading {
            return;
        }
        match outcome {
            QueryOutcome::Answers(a) => {
                self.answers = a;
                self.error = None;
                self.navigator = ScrollableNavigator::new();
                self.answer_horiz_offset = 0;
            },
            QueryOutcome::Failed(e) => {
                self.reset_answers();
                self.error = Some(e);
            },
            QueryOutcome::Stopped => {
                self.error = Some("DNS query task stopped".to_string());
            },
        }
        self.loading = false;
    }

    /// Lets the focused part handle a key: the type selector takes Left and
    /// Right, the name box its edit keys, the answers Left and Right to move
    /// sideways and the navigation keys.
    pub fn handle_focused_key_event(&mut self, key: KeyInput) -> (r: KeyOutcome)
        requires
            old(self).wf(),
        ensures
            final(self).wf(),
            (r == KeyOutcome::Consumed) == focused_consumes(*old(self), key),
            r == KeyOutcome::Consumed ==> focused_effect(*old(self), *final(self), key),
            r == KeyOutcome::Ignored ==> *final(self) == *old(self),
    {
        match self.focused {
            FocusedField::Type => match key.code {
                Key::Left => self.prev_record_type(),
                Key::Right => self.next_record_type(),
                _ => {
                    return KeyOutcome::Ignored;
                },
            },
            FocusedField::Name => {
                let req = match input_request(key) {
                    Some(req) => req,
                    None => {
                        return KeyOutcome::Ignored;
                    },
                };
                self.input.handle(req);
            },
            FocusedField::Answers => match key.code {
                Key::Left => {
                    self.answer_horiz_offset = if self.answer_horiz_offset >= HORIZ_STEP {
                        self.answer_horiz_offset - HORIZ_STEP
                    } else {
                        0
                    };
                },
                Key::Right => {
                    self.answer_horiz_offset = if self.answer_horiz_offset <= usize::MAX - HORIZ_STEP {
                        self.answer_horiz_offset + HORIZ_STEP
                    } else {
                        usize::MAX
                    };
                },
                _ => {
                    if self.navigator.handle_key_event(key) {
                        return KeyOutcome::Consumed;
                    } else {
                        return KeyOutcome::Ignored;
                    }
                },
            },
        }
        KeyOutcome::Consumed
    }

    /// Handles a key: first the focused part; then Esc and q close the
    /// dialog, Tab and Shift+Tab move the focus, Enter starts a query.
    pub fn handle_key_event(&mut self, key: KeyInput, api_ready: bool) -> (r: DnsKeyResult)
        requires
            old(self).wf(),
        ensures
            final(self).wf(),
            focused_consumes(*old(self), key) ==> {
                &&& focused_effect(*old(self), *final(self), key)
                &&& r.action is None
                &&& r.request is None
                &&& !r.focus_changed
            },
            !focused_consumes(*old(self), key) ==> if key.code == Key::Esc || key.code == Key::Char('q') {
                &&& !final(self).show
                &&& !final(self).loading
                &&& answers_reset(*old(self), *final(self))
                &&& r.action == Some(Action::Unfocus)
                &&& r.request is None
                &&& !r.focus_changed
            } else if key.code == Key::Tab || key.code == Key::BackTab {
                &&& *final(self) == with_focus(
                    *old(self),
                    if key.code == Key::Tab {
                        next_field(old(self).focused)
                    } else {
                        prev_field(old(self).focused)
                    },
                )
                &&& r.action is None
                &&& r.request is None
                &&& r.focus_changed
            } else if key.code == Key::Enter {
                &&& query_effect(*old(self), *final(self), api_ready, r.request)
                &&& final(self).focused == old(self).focused
                &&& r.action is None
                &&& !r.focus_changed
            } else {
                &&& *final(self) == *old(self)
                &&& r.action is None
                &&& r.request is None
                &&& !r.focus_changed
            },
    {
        if self.handle_focused_key_event(key).is_consumed() {
            return DnsKeyResult { action: None, request: None, focus_changed: false };
        }
        match key.code {
            Key::Esc | Key::Char('q') => {
                self.close();
                DnsKeyResult { action: Some(Action::Unfocus), request: None, focus_changed: false }
            },
            Key::Tab => {
                let next = self.focused.next();
                let changed = self.set_focused(next);
                DnsKeyResult { action: None, request: None, focus_changed: changed }
            },
            Key::BackTab => {
                let prev = self.focused.prev();
                let changed = self.set_focused(prev);
                DnsKeyResult { action: None, request: None, focus_changed: changed }
            },
            Key::Enter => {
                let request = self.query(api_ready);
                DnsKeyResult { action: None, request, focus_changed: false }
            },
            _ => DnsKeyResult { action: None, request: None, focus_changed: false },
        }
    }

    /// The footer shortcuts of the dialog: moving the focus, querying, and
    /// those of the focused part.
    pub fn shortcuts(&self) -> (r: Vec<Shortcut>)
        ensures
            r@.len() == 3,
            parts_view(r@[0].parts@) == seq![(true, "⇧⇤"@), (false, " focus "@), (true, "⇥"@)],
            parts_view(r@[1].parts@) == seq![(false, "query "@), (true, "↵"@)],
            parts_view(r@[2].parts@) == field_hint(self.focused),
    {
        let focus = Shortcut::new(vec![Fragment::hl("⇧⇤"), Fragment::raw(" focus "), Fragment::hl("⇥")]);
        let query = Shortcut::new(vec![Fragment::raw("query "), Fragment::hl("↵")]);
        let field = match self.focused {
            FocusedField::Type => Shortcut::new(
                vec![Fragment::hl("←"), Fragment::raw(" type "), Fragment::hl("→")],
            ),
            FocusedField::Name => Shortcut::new(
                vec![Fragment::hl("←"), Fragment::raw(" cursor "), Fragment::hl("→")],
            ),
            FocusedField::Answers => Shortcut::new(
                vec![
                    Fragment::hl("←"),
                    Fragment::raw("/"),
                    Fragment::hl("↑"),
                    Fragment::raw(" nav "),
                    Fragment::hl("↓"),
                    Fragment::raw("/"),
                    Fragment::hl("→"),
                ],
            ),
        };
        assert(parts_view(focus.parts@) =~= seq![(true, "⇧⇤"@), (false, " focus "@), (true, "⇥"@)]);
        assert(parts_view(query.parts@) =~= seq![(false, "query "@), (true, "↵"@)]);
        assert(parts_view(field.parts@) =~= field_hint(self.focused));
        vec![focus, query, field]
    }
}

/// The dialog with the focus on `f` and nothing else changed.
pub open spec fn with_focus(s: DnsQueryComponent, f: FocusedField) -> DnsQueryComponent {
    DnsQueryComponent { focused: f, ..s }
}

} // verus!
