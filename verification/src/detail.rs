//! Popups that show a scrollable text: the connection detail and the help page.
use vstd::prelude::*;
use crate::action::Action;
use crate::key::{Key, KeyInput, MOD_CONTROL};
use crate::scroller::{scroll_target, Scroller};
use crate::runtime::{runtime_path_for, runtime_path_spec};
use crate::text::{append_str, chars_of, count_char, count_of_char};

use crate::shortcut::{parts_view, shortcuts_match, Fragment, Shortcut};
verus! {

/// The number of lines of a text, as `str::lines` counts them: a final line
/// ending adds no empty line.
pub open spec fn line_count(s: Seq<char>) -> nat {
    if s.len() == 0 {
        0
    } else if s.last() == '\n' {
        count_char(s, '\n')
    } else {
        count_char(s, '\n') + 1
    }
}

proof fn lemma_count_char_le_len(s: Seq<char>, c: char)
    ensures
        count_char(s, c) <= s.len(),
    decreases s.len(),
{
    if s.len() > 0 {
        lemma_count_char_le_len(s.drop_last(), c);
    }
}

/// Counts the lines of a text.
pub fn count_lines(s: &str) -> (r: usize)
    ensures
        r == line_count(s@),
{
    let v = chars_of(s);
    let n = count_of_char(&v, '\n');
    if v.len() == 0 {
        0
    } else if v[v.len() - 1] == '\n' {
        n
    } else {
        proof {
            lemma_count_char_le_len(v@.drop_last(), '\n');
        }
        n + 1
    }
}

/// Whether a key is Ctrl+c.
pub open spec fn is_ctrl_c(key: KeyInput) -> bool {
    key.code == Key::Char('c') && (key.mods.bits & MOD_CONTROL) == MOD_CONTROL
}

/// A popup with the details of one connection.
#[derive(Debug)]
pub struct ConnectionDetailComponent {
    pub show: bool,
    pub total_lines: usize,
    pub data: String,
    pub scroller: Scroller,
}

impl ConnectionDetailComponent {
    pub open spec fn wf(&self) -> bool {
        self.scroller.wf()
    }

    /// A closed popup.
    pub fn new() -> (r: Self)
        ensures
            r.wf(),
            !r.show,
            r.total_lines == 0,
            r.data@ == Seq::<char>::empty(),
            r.scroller == Scroller::new_spec(),
    {
        ConnectionDetailComponent { show: false, total_lines: 0, data: String::new(), scroller: Scroller::new() }
    }

    /// Opens the popup on a connection's details, scrolled to the top.
    pub fn show(&mut self, pretty: String)
        requires
            old(self).wf(),
        ensures
            final(self).wf(),
            final(self).show,
            final(self).data == pretty,
            final(self).total_lines == line_count(pretty@),
            final(self).scroller.pos == 0,
            final(self).scroller.content_length == old(self).scroller.content_length,
            final(self).scroller.viewport == old(self).scroller.viewport,
    {
        self.show = true;
        self.total_lines = count_lines(pretty.as_str());
        self.data = pretty;
        self.scroller.position(0);
    }

    /// Closes the popup and drops its text.
    pub fn close(&mut self)
        ensures
            !final(self).show,
            final(self).data@ == Seq::<char>::empty(),
            final(self).total_lines == old(self).total_lines,
            final(self).scroller == old(self).scroller,
    {
        self.show = false;
        self.data = String::new();
    }

    /// Scrolls, quits on Ctrl+c, and closes on q, Esc or Enter.
    pub fn handle_key_event(&mut self, key: KeyInput) -> (r: Option<Action>)
        requires
            old(self).wf(),
        ensures
            final(self).wf(),
            final(self).scroller.pos == match scroll_target(old(self).scroller, key.code) {
                Some(p) => p,
                None => old(self).scroller.pos,
            },
            final(self).scroller.content_length == old(self).scroller.content_length,
            final(self).scroller.viewport == old(self).scroller.viewport,
            final(self).total_lines == old(self).total_lines,
            scroll_target(old(self).scroller, key.code) is Some ==> {
                &&& r is None
                &&& final(self).show == old(self).show
                &&& final(self).data == old(self).data
            },
            scroll_target(old(self).scroller, key.code) is None ==> if is_ctrl_c(key) {
                &&& r == Some(Action::Quit)
                &&& final(self).show == old(self).show
                &&& final(self).data == old(self).data
            } else if key.code == Key::Char('q') || key.code == Key::Esc || key.code == Key::Enter {
                &&& r == Some(Action::Unfocus)
                &&& !final(self).show
                &&& final(self).data@ == Seq::<char>::empty()
            } else {
                &&& r is None
                &&& final(self).show == old(self).show
                &&& final(self).data == old(self).data
            },
    {
        if self.scroller.handle_key_event(key) {
            return None;
        }
        if key.code == Key::Char('c') && key.mods.contains(MOD_CONTROL) {
            return Some(Action::Quit);
        }
        match key.code {
            Key::Char('q') | Key::Esc | Key::Enter => {
                self.close();
                Some(Action::Unfocus)
            },
            _ => None,
        }
    }
}

/// A row of the help page: blank, a section title, or a key with what it does.
#[derive(Debug, Clone)]
pub enum HelpRow {
    Empty,
    Title(String),
    Entry(String, String),
}

/// The number of rows of the key-binding table of the help page.
pub const KEY_ROW_COUNT: usize = 94;

/// Whether `row` is an entry with the texts `left` and `right`.
pub open spec fn is_entry(row: HelpRow, left: Seq<char>, right: Seq<char>) -> bool {
    row matches HelpRow::Entry(l, r) && l@ == left && r@ == right
}

/// `text` between single quotes.
pub open spec fn quoted(text: Seq<char>) -> Seq<char> {
    "'"@ + text + "'"@
}

fn quote(text: &str) -> (r: String)
    ensures
        r@ == quoted(text@),
{
    let mut s = "'".to_owned();
    append_str(&mut s, text);
    append_str(&mut s, "'");
    s
}

/// A row of the help page as texts.
pub enum HelpRowView {
    Empty,
    Title(Seq<char>),
    Entry(Seq<char>, Seq<char>),
}

/// The texts of a row.
pub open spec fn help_row_view(r: HelpRow) -> HelpRowView {
    match r {
        HelpRow::Empty => HelpRowView::Empty,
        HelpRow::Title(t) => HelpRowView::Title(t@),
        HelpRow::Entry(l, d) => HelpRowView::Entry(l@, d@),
    }
}

/// The texts of rows.
pub open spec fn rows_view(rows: Seq<HelpRow>) -> Seq<HelpRowView> {
    rows.map_values(|r: HelpRow| help_row_view(r))
}

fn push_row(v: &mut Vec<HelpRow>, row: HelpRow)
    ensures
        final(v)@ == old(v)@.push(row),
        rows_view(final(v)@) == rows_view(old(v)@).push(help_row_view(row)),
{
    v.push(row);
    assert(rows_view(v@) =~= rows_view(old(v)@).push(help_row_view(row)));
}

fn push_empty(v: &mut Vec<HelpRow>)
    ensures
        final(v)@ == old(v)@.push(HelpRow::Empty),
        rows_view(final(v)@) == rows_view(old(v)@).push(HelpRowView::Empty),
{
    push_row(v, HelpRow::Empty);
}

fn push_entry(v: &mut Vec<HelpRow>, left: &str, right: &str)
    ensures
        final(v)@.len() == old(v)@.len() + 1,
        forall|i: int| 0 <= i < old(v)@.len() ==> #[trigger] final(v)@[i] == old(v)@[i],
        is_entry(final(v)@.last(), left@, right@),
        rows_view(final(v)@) == rows_view(old(v)@).push(HelpRowView::Entry(left@, right@)),
{
    push_row(v, HelpRow::Entry(left.to_owned(), right.to_owned()));
}

fn push_title(v: &mut Vec<HelpRow>, title: &str)
    ensures
        rows_view(final(v)@) == rows_view(old(v)@).push(HelpRowView::Title(title@)),
{
    push_row(v, HelpRow::Title(title.to_owned()));
}

/// The key-binding table of the help page: a blank row, the column heads,
/// one titled section per view with its keys, and two blank rows.
pub open spec fn key_table_spec() -> Seq<HelpRowView> {
    heading_rows_spec()
        + common_rows_spec()
        + input_box_rows_spec()
        + filter_syntax_rows_spec()
        + connections_rows_spec()
        + connections_settings_rows_spec()
        + proxies_rows_spec()
        + proxy_detail_rows_spec()
        + proxy_providers_rows_spec()
        + logs_rows_spec()
        + rules_rows_spec()
        + rule_providers_rows_spec()
        + config_rows_spec()
        + dns_query_rows_spec()
}

/// The column heads of the key table, after a blank row.
pub open spec fn heading_rows_spec() -> Seq<HelpRowView> {
    seq![
        HelpRowView::Empty,
        HelpRowView::Entry("Key"@, "Description"@),
    ]
}

fn heading_rows() -> (r: Vec<HelpRow>)
    ensures
        rows_view(r@) == heading_rows_spec(),
{
    let mut v: Vec<HelpRow> = Vec::new();
    assert(rows_view(v@) =~= Seq::<HelpRowView>::empty());
    push_empty(&mut v);
    push_entry(&mut v, "Key", "Description");
    v
}

/// The "common" section of the key table.
pub open spec fn common_rows_spec() -> Seq<HelpRowView> {
    seq![
        HelpRowView::Title("common"@),
        HelpRowView::Entry("h"@, "Toggle help"@),
        HelpRowView::Entry("q / Ctrl+c"@, "Quits program"@),
        HelpRowView::Entry("Number"@, "switch to tab"@),
        HelpRowView::Entry("k / Up, j / Down"@, "navigation"@),
        HelpRowView::Entry("g, G"@, "go to first, last"@),
        HelpRowView::Entry("PageUp, Space / PageDown"@, "page up, down"@),
        HelpRowView::Entry("Esc"@, "cancel / back / live toggle"@),
        HelpRowView::Entry("Enter"@, "confirm / open detail"@),
        HelpRowView::Entry("Ctrl+l"@, "clear idle tabs"@),
        HelpRowView::Entry("Ctrl+u"@, "open updates"@),
        HelpRowView::Empty,
    ]
}

fn common_rows() -> (r: Vec<HelpRow>)
    ensures
        rows_view(r@) == common_rows_spec(),
{
    let mut v: Vec<HelpRow> = Vec::new();
    assert(rows_view(v@) =~= Seq::<HelpRowView>::empty());
    push_title(&mut v, "common");
    push_entry(&mut v, "h", "Toggle help");
    push_entry(&mut v, "q / Ctrl+c", "Quits program");
    push_entry(&mut v, "Number", "switch to tab");
    push_entry(&mut v, "k / Up, j / Down", "navigation");
    push_entry(&mut v, "g, G", "go to first, last");
    push_entry(&mut v, "PageUp, Space / PageDown", "page up, down");
    push_entry(&mut v, "Esc", "cancel / back / live toggle");
    push_entry(&mut v, "Enter", "confirm / open detail");
    push_entry(&mut v, "Ctrl+l", "clear idle tabs");
    push_entry(&mut v, "Ctrl+u", "open updates");
    push_empty(&mut v);
    v
}

/// The "input box" section of the key table.
pub open spec fn input_box_rows_spec() -> Seq<HelpRowView> {
    seq![
        HelpRowView::Title("input box"@),
        HelpRowView::Entry("Shift+Tab, Tab"@, "navigate fields"@),
        HelpRowView::Entry("Left, Right, Ctrl+Left, Ctrl+Right"@, "move cursor"@),
        HelpRowView::Entry("Back, Ctrl+Back, Del, Ctrl-Del"@, "delete"@),
        HelpRowView::Entry("Ctrl+y"@, "yank last deleted word"@),
        HelpRowView::Entry("Home, End"@, "jump to line start, end"@),
        HelpRowView::Empty,
    ]
}

fn input_box_rows() -> (r: Vec<HelpRow>)
    ensures
        rows_view(r@) == input_box_rows_spec(),
{
    let mut v: Vec<HelpRow> = Vec::new();
    assert(rows_view(v@) =~= Seq::<HelpRowView>::empty());
    push_title(&mut v, "input box");
    push_entry(&mut v, "Shift+Tab, Tab", "navigate fields");
    push_entry(&mut v, "Left, Right, Ctrl+Left, Ctrl+Right", "move cursor");
    push_entry(&mut v, "Back, Ctrl+Back, Del, Ctrl-Del", "delete");
    push_entry(&mut v, "Ctrl+y", "yank last deleted word");
    push_entry(&mut v, "Home, End", "jump to line start, end");
    push_empty(&mut v);
    v
}

/// The "filter syntax" section of the key table.
pub open spec fn filter_syntax_rows_spec() -> Seq<HelpRowView> {
    seq![
        HelpRowView::Title("filter syntax"@),
        HelpRowView::Entry("str"@, "match using fuzzy search for 'str'"@),
        HelpRowView::Entry("^str"@, "match if the value starts with 'str'"@),
        HelpRowView::Entry("str$"@, "match if the value ends with 'str'"@),
        HelpRowView::Entry("^str$"@, "match exactly 'str'"@),
        HelpRowView::Entry("'str"@, "match if the value contains substring 'str'"@),
        HelpRowView::Entry("!<pattern>"@, "negate the match of <pattern>, examples: !^str, !'str"@),
        HelpRowView::Entry("\"com:443\""@, "quote plain patterns containing spaces or colons"@),
        HelpRowView::Entry("field:pattern"@, "match <pattern> only in the named column; field is case-insensitive"@),
        HelpRowView::Entry("field:\"two words\""@, "quote values containing spaces"@),
        HelpRowView::Entry("field1:pat1 field2:pat2 pat3"@, "match named fields and remaining columns using AND"@),
        HelpRowView::Empty,
    ]
}

fn filter_syntax_rows() -> (r: Vec<HelpRow>)
    ensures
        rows_view(r@) == filter_syntax_rows_spec(),
{
    let mut v: Vec<HelpRow> = Vec::new();
    assert(rows_view(v@) =~= Seq::<HelpRowView>::empty());
    push_title(&mut v, "filter syntax");
    push_entry(&mut v, "str", "match using fuzzy search for 'str'");
    push_entry(&mut v, "^str", "match if the value starts with 'str'");
    push_entry(&mut v, "str$", "match if the value ends with 'str'");
    push_entry(&mut v, "^str$", "match exactly 'str'");
    push_entry(&mut v, "'str", "match if the value contains substring 'str'");
    push_entry(&mut v, "!<pattern>", "negate the match of <pattern>, examples: !^str, !'str");
    push_entry(&mut v, "\"com:443\"", "quote plain patterns containing spaces or colons");
    push_entry(&mut v, "field:pattern", "match <pattern> only in the named column; field is case-insensitive");
    push_entry(&mut v, "field:\"two words\"", "quote values containing spaces");
    push_entry(&mut v, "field1:pat1 field2:pat2 pat3", "match named fields and remaining columns using AND");
    push_empty(&mut v);
    v
}

/// The "# Connections (Conn)" section of the key table.
pub open spec fn connections_rows_spec() -> Seq<HelpRowView> {
    seq![
        HelpRowView::Title("# Connections (Conn)"@),
        HelpRowView::Entry("Left, Right"@, "select sort column"@),
        HelpRowView::Entry("t"@, "terminate selected connection"@),
        HelpRowView::Entry("T"@, "terminate filtered connections"@),
        HelpRowView::Entry("r"@, "reverse sort direction"@),
        HelpRowView::Entry("c"@, "capture mode"@),
        HelpRowView::Entry("s"@, "open connection settings"@),
        HelpRowView::Empty,
    ]
}

fn connections_rows() -> (r: Vec<HelpRow>)
    ensures
        rows_view(r@) == connections_rows_spec(),
{
    let mut v: Vec<HelpRow> = Vec::new();
    assert(rows_view(v@) =~= Seq::<HelpRowView>::empty());
    push_title(&mut v, "# Connections (Conn)");
    push_entry(&mut v, "Left, Right", "select sort column");
    push_entry(&mut v, "t", "terminate selected connection");
    push_entry(&mut v, "T", "terminate filtered connections");
    push_entry(&mut v, "r", "reverse sort direction");
    push_entry(&mut v, "c", "capture mode");
    push_entry(&mut v, "s", "open connection settings");
    push_empty(&mut v);
    v
}

/// The "## Connections Settings" section of the key table.
pub open spec fn connections_settings_rows_spec() -> Seq<HelpRowView> {
    seq![
        HelpRowView::Title("## Connections Settings"@),
        HelpRowView::Entry("Shift+Tab, Tab"@, "navigate settings panes"@),
        HelpRowView::Entry("Enter"@, "apply settings"@),
        HelpRowView::Entry("Esc"@, "cancel settings"@),
        HelpRowView::Entry("Left, Right"@, "Columns:          navigate columns"@),
        HelpRowView::Entry("Ctrl+Left, Ctrl+Right"@, "Columns:          move selected column"@),
        HelpRowView::Entry("Space"@, "Columns:          toggle selected column"@),
        HelpRowView::Entry("a"@, "Columns:          select all columns"@),
        HelpRowView::Entry("i"@, "Columns:          invert selected columns"@),
        HelpRowView::Entry("Up, Down"@, "Source IP Alias:  navigate source IP aliases"@),
        HelpRowView::Empty,
    ]
}

fn connections_settings_rows() -> (r: Vec<HelpRow>)
    ensures
        rows_view(r@) == connections_settings_rows_spec(),
{
    let mut v: Vec<HelpRow> = Vec::new();
    assert(rows_view(v@) =~= Seq::<HelpRowView>::empty());
    push_title(&mut v, "## Connections Settings");
    push_entry(&mut v, "Shift+Tab, Tab", "navigate settings panes");
    push_entry(&mut v, "Enter", "apply settings");
    push_entry(&mut v, "Esc", "cancel settings");
    push_entry(&mut v, "Left, Right", "Columns:          navigate columns");
    push_entry(&mut v, "Ctrl+Left, Ctrl+Right", "Columns:          move selected column");
    push_entry(&mut v, "Space", "Columns:          toggle selected column");
    push_entry(&mut v, "a", "Columns:          select all columns");
    push_entry(&mut v, "i", "Columns:          invert selected columns");
    push_entry(&mut v, "Up, Down", "Source IP Alias:  navigate source IP aliases");
    push_empty(&mut v);
    v
}

/// The "# Proxies (Pxy)" section of the key table.
pub open spec fn proxies_rows_spec() -> Seq<HelpRowView> {
    seq![
        HelpRowView::Title("# Proxies (Pxy)"@),
        HelpRowView::Entry("r"@, "refresh proxies"@),
        HelpRowView::Entry("s"@, "open proxy settings"@),
        HelpRowView::Entry("t"@, "test proxy"@),
        HelpRowView::Empty,
    ]
}

fn proxies_rows() -> (r: Vec<HelpRow>)
    ensures
        rows_view(r@) == proxies_rows_spec(),
{
    let mut v: Vec<HelpRow> = Vec::new();
    assert(rows_view(v@) =~= Seq::<HelpRowView>::empty());
    push_title(&mut v, "# Proxies (Pxy)");
    push_entry(&mut v, "r", "refresh proxies");
    push_entry(&mut v, "s", "open proxy settings");
    push_entry(&mut v, "t", "test proxy");
    push_empty(&mut v);
    v
}

/// The "## Proxy Detail" section of the key table.
pub open spec fn proxy_detail_rows_spec() -> Seq<HelpRowView> {
    seq![
        HelpRowView::Title("## Proxy Detail"@),
        HelpRowView::Entry("Enter"@, "update selected proxy"@),
        HelpRowView::Entry("c"@, "jump to current selected proxy"@),
        HelpRowView::Entry("[, ]"@, "navigate nested groups"@),
        HelpRowView::Entry("s"@, "switch sort by: none, latency, name"@),
        HelpRowView::Entry("S"@, "toggle sort direction"@),
        HelpRowView::Empty,
    ]
}

fn proxy_detail_rows() -> (r: Vec<HelpRow>)
    ensures
        rows_view(r@) == proxy_detail_rows_spec(),
{
    let mut v: Vec<HelpRow> = Vec::new();
    assert(rows_view(v@) =~= Seq::<HelpRowView>::empty());
    push_title(&mut v, "## Proxy Detail");
    push_entry(&mut v, "Enter", "update selected proxy");
    push_entry(&mut v, "c", "jump to current selected proxy");
    push_entry(&mut v, "[, ]", "navigate nested groups");
    push_entry(&mut v, "s", "switch sort by: none, latency, name");
    push_entry(&mut v, "S", "toggle sort direction");
    push_empty(&mut v);
    v
}

/// The "# ProxyProviders (Pxy-Pr)" section of the key table.
pub open spec fn proxy_providers_rows_spec() -> Seq<HelpRowView> {
    seq![
        HelpRowView::Title("# ProxyProviders (Pxy-Pr)"@),
        HelpRowView::Entry("Enter"@, "show provider detail"@),
        HelpRowView::Entry("u"@, "update providers"@),
        HelpRowView::Empty,
    ]
}

fn proxy_providers_rows() -> (r: Vec<HelpRow>)
    ensures
        rows_view(r@) == proxy_providers_rows_spec(),
{
    let mut v: Vec<HelpRow> = Vec::new();
    assert(rows_view(v@) =~= Seq::<HelpRowView>::empty());
    push_title(&mut v, "# ProxyProviders (Pxy-Pr)");
    push_entry(&mut v, "Enter", "show provider detail");
    push_entry(&mut v, "u", "update providers");
    push_empty(&mut v);
    v
}

/// The "# Logs (Log)" section of the key table.
pub open spec fn logs_rows_spec() -> Seq<HelpRowView> {
    seq![
        HelpRowView::Title("# Logs (Log)"@),
        HelpRowView::Entry("e, w, i, d"@, "filter log level: error, warn, info, debug"@),
        HelpRowView::Empty,
    ]
}

fn logs_rows() -> (r: Vec<HelpRow>)
    ensures
        rows_view(r@) == logs_rows_spec(),
{
    let mut v: Vec<HelpRow> = Vec::new();
    assert(rows_view(v@) =~= Seq::<HelpRowView>::empty());
    push_title(&mut v, "# Logs (Log)");
    push_entry(&mut v, "e, w, i, d", "filter log level: error, warn, info, debug");
    push_empty(&mut v);
    v
}

/// The "# Rules (Rule)" section of the key table.
pub open spec fn rules_rows_spec() -> Seq<HelpRowView> {
    seq![
        HelpRowView::Title("# Rules (Rule)"@),
        HelpRowView::Entry("r"@, "refresh rules"@),
        HelpRowView::Entry("t"@, "toggle disabled state (selected or all filtered)"@),
        HelpRowView::Entry("s"@, "submit disabled state changes"@),
        HelpRowView::Empty,
    ]
}

fn rules_rows() -> (r: Vec<HelpRow>)
    ensures
        rows_view(r@) == rules_rows_spec(),
{
    let mut v: Vec<HelpRow> = Vec::new();
    assert(rows_view(v@) =~= Seq::<HelpRowView>::empty());
    push_title(&mut v, "# Rules (Rule)");
    push_entry(&mut v, "r", "refresh rules");
    push_entry(&mut v, "t", "toggle disabled state (selected or all filtered)");
    push_entry(&mut v, "s", "submit disabled state changes");
    push_empty(&mut v);
    v
}

/// The "# RuleProviders (R-Pr)" section of the key table.
pub open spec fn rule_providers_rows_spec() -> Seq<HelpRowView> {
    seq![
        HelpRowView::Title("# RuleProviders (R-Pr)"@),
        HelpRowView::Entry("r"@, "refresh rule providers"@),
        HelpRowView::Entry("u"@, "update rule providers"@),
        HelpRowView::Empty,
    ]
}

fn rule_providers_rows() -> (r: Vec<HelpRow>)
    ensures
        rows_view(r@) == rule_providers_rows_spec(),
{
    let mut v: Vec<HelpRow> = Vec::new();
    assert(rows_view(v@) =~= Seq::<HelpRowView>::empty());
    push_title(&mut v, "# RuleProviders (R-Pr)");
    push_entry(&mut v, "r", "refresh rule providers");
    push_entry(&mut v, "u", "update rule providers");
    push_empty(&mut v);
    v
}

/// The "# Config (Cfg)" section of the key table.
pub open spec fn config_rows_spec() -> Seq<HelpRowView> {
    seq![
        HelpRowView::Title("# Config (Cfg)"@),
        HelpRowView::Entry("Shift+Tab, Tab"@, "move focus between editor and actions"@),
        HelpRowView::Entry("Enter"@, "execute focused action / confirm"@),
        HelpRowView::Entry("e"@, "open config in external editor ($EDITOR → vim → vi)"@),
        HelpRowView::Entry("d"@, "discard changes and reload config"@),
        HelpRowView::Entry("n"@, "open DNS query dialog"@),
        HelpRowView::Empty,
    ]
}

fn config_rows() -> (r: Vec<HelpRow>)
    ensures
        rows_view(r@) == config_rows_spec(),
{
    let mut v: Vec<HelpRow> = Vec::new();
    assert(rows_view(v@) =~= Seq::<HelpRowView>::empty());
    push_title(&mut v, "# Config (Cfg)");
    push_entry(&mut v, "Shift+Tab, Tab", "move focus between editor and actions");
    push_entry(&mut v, "Enter", "execute focused action / confirm");
    push_entry(&mut v, "e", "open config in external editor ($EDITOR → vim → vi)");
    push_entry(&mut v, "d", "discard changes and reload config");
    push_entry(&mut v, "n", "open DNS query dialog");
    push_empty(&mut v);
    v
}

/// The "## DNS Query" section of the key table.
pub open spec fn dns_query_rows_spec() -> Seq<HelpRowView> {
    seq![
        HelpRowView::Title("## DNS Query"@),
        HelpRowView::Entry("Shift+Tab, Tab"@, "navigate query fields"@),
        HelpRowView::Entry("Enter"@, "query DNS records"@),
        HelpRowView::Entry("Left, Right"@, "select DNS record type"@),
        HelpRowView::Entry("k / Up, j / Down"@, "scroll answers"@),
        HelpRowView::Empty,
        HelpRowView::Empty,
    ]
}

fn dns_query_rows() -> (r: Vec<HelpRow>)
    ensures
        rows_view(r@) == dns_query_rows_spec(),
{
    let mut v: Vec<HelpRow> = Vec::new();
    assert(rows_view(v@) =~= Seq::<HelpRowView>::empty());
    push_title(&mut v, "## DNS Query");
    push_entry(&mut v, "Shift+Tab, Tab", "navigate query fields");
    push_entry(&mut v, "Enter", "query DNS records");
    push_entry(&mut v, "Left, Right", "select DNS record type");
    push_entry(&mut v, "k / Up, j / Down", "scroll answers");
    push_empty(&mut v);
    push_empty(&mut v);
    v
}

fn append_rows(v: &mut Vec<HelpRow>, mut rows: Vec<HelpRow>)
    ensures
        rows_view(final(v)@) == rows_view(old(v)@) + rows_view(rows@),
{
    let ghost tail = rows@;
    v.append(&mut rows);
    assert(rows_view(v@) =~= rows_view(old(v)@) + rows_view(tail));
}

/// The key-binding table of the help page: a blank row, the column heads
/// "Key" and "Description", one titled section per view, and two blank rows.
pub fn key_binding_rows() -> (r: Vec<HelpRow>)
    ensures
        r@.len() == KEY_ROW_COUNT,
        rows_view(r@) == key_table_spec(),
{
    let mut v = heading_rows();
    append_rows(&mut v, common_rows());
    append_rows(&mut v, input_box_rows());
    append_rows(&mut v, filter_syntax_rows());
    append_rows(&mut v, connections_rows());
    append_rows(&mut v, connections_settings_rows());
    append_rows(&mut v, proxies_rows());
    append_rows(&mut v, proxy_detail_rows());
    append_rows(&mut v, proxy_providers_rows());
    append_rows(&mut v, logs_rows());
    append_rows(&mut v, rules_rows());
    append_rows(&mut v, rule_providers_rows());
    append_rows(&mut v, config_rows());
    append_rows(&mut v, dns_query_rows());
    assert(rows_view(v@).len() == v@.len());
    v
}

/// The help page.
#[derive(Debug)]
pub struct HelpComponent {
    pub scroller: Scroller,
}

impl HelpComponent {
    pub open spec fn wf(&self) -> bool {
        self.scroller.wf()
    }

    /// The help page at its top.
    pub fn new() -> (r: Self)
        ensures
            r.wf(),
            r.scroller == Scroller::new_spec(),
    {
        HelpComponent { scroller: Scroller::new() }
    }

    /// Scrolls, and leaves the page on q, Esc or h.
    pub fn handle_key_event(&mut self, key: KeyInput) -> (r: Option<Action>)
        requires
            old(self).wf(),
        ensures
            final(self).wf(),
            final(self).scroller.pos == match scroll_target(old(self).scroller, key.code) {
                Some(p) => p,
                None => old(self).scroller.pos,
            },
            final(self).scroller.content_length == old(self).scroller.content_length,
            final(self).scroller.viewport == old(self).scroller.viewport,
            r == if scroll_target(old(self).scroller, key.code) is None && (key.code == Key::Char('q')
                || key.code == Key::Esc || key.code == Key::Char('h')) {
                Some(Action::Unfocus)
            } else {
                None
            },
    {
        if self.scroller.handle_key_event(key) {
            return None;
        }
        match key.code {
            Key::Char('q') | Key::Esc | Key::Char('h') => Some(Action::Unfocus),
            _ => None,
        }
    }

    /// The rows of the help page: two blank rows, where the default
    /// configuration file and its sidecar are, the version's source, then
    /// the key-binding table.
    pub fn rows(config_path: &str, version_url: &str) -> (r: Vec<HelpRow>)
        ensures
            r@.len() == 5 + KEY_ROW_COUNT,
            r@[0] is Empty,
            r@[1] is Empty,
            is_entry(r@[2], "Default configuration"@, quoted(config_path@)),
            is_entry(r@[3], "Runtime configuration"@, quoted(runtime_path_spec(config_path@))),
            is_entry(r@[4], "Version"@, version_url@),
            rows_view(r@).subrange(5, r@.len() as int) == key_table_spec(),
    {
        let runtime_path = runtime_path_for(config_path);
        let mut v: Vec<HelpRow> = Vec::new();
        v.push(HelpRow::Empty);
        v.push(HelpRow::Empty);
        let c = quote(config_path);
        push_entry(&mut v, "Default configuration", c.as_str());
        let rt = quote(runtime_path.as_str());
        push_entry(&mut v, "Runtime configuration", rt.as_str());
        push_entry(&mut v, "Version", version_url);
        let mut keys = key_binding_rows();
        let ghost head = v@;
        let ghost tail = keys@;
        v.append(&mut keys);
        assert(rows_view(v@).subrange(5, v@.len() as int) =~= rows_view(tail));
        v
    }

    /// Blank columns before a title of `title_len` columns so that it centres on `center`.
    pub fn title_pad(center: u16, title_len: u16) -> (r: u16)
        ensures
            r == if center >= title_len / 2 { center - title_len / 2 } else { 0 },
    {
        center.saturating_sub(title_len / 2)
    }

    /// Blank columns before an entry's key of `left_len` columns so that its
    /// right edge ends half a gap before `center`.
    pub fn entry_pad(center: u16, left_len: u16, gap: u16) -> (r: u16)
        ensures
            r == if center >= left_len + gap / 2 { center - left_len - gap / 2 } else { 0 },
    {
        center.saturating_sub(left_len).saturating_sub(gap / 2)
    }
}

/// The footer labels of the connection detail: closing, scrolling and paging.
pub open spec fn connection_detail_shortcut_labels() -> Seq<Seq<(bool, Seq<char>)>> {
    seq![
        seq![(false, "esc "@), (true, "Esc"@), (false, "/"@), (true, "Enter"@)],
        seq![(true, "↑"@), (false, " scroll "@), (true, "↓"@)],
        seq![(true, "Space/PgDn"@), (false, " page "@), (true, "PgUp"@)],
    ]
}

impl ConnectionDetailComponent {
    /// The footer labels.
    pub fn shortcuts(&self) -> (r: Vec<Shortcut>)
        ensures
            shortcuts_match(r@, connection_detail_shortcut_labels()),
    {
        let s0 = Shortcut::new(vec![Fragment::raw("esc "), Fragment::hl("Esc"), Fragment::raw("/"), Fragment::hl("Enter")]);
        let s1 = Shortcut::new(vec![Fragment::hl("↑"), Fragment::raw(" scroll "), Fragment::hl("↓")]);
        let s2 = Shortcut::new(vec![Fragment::hl("Space/PgDn"), Fragment::raw(" page "), Fragment::hl("PgUp")]);
        proof {
            assert(parts_view(s0.parts@) =~= seq![(false, "esc "@), (true, "Esc"@), (false, "/"@), (true, "Enter"@)]);
            assert(parts_view(s1.parts@) =~= seq![(true, "↑"@), (false, " scroll "@), (true, "↓"@)]);
            assert(parts_view(s2.parts@) =~= seq![(true, "Space/PgDn"@), (false, " page "@), (true, "PgUp"@)]);
        }
        let r = vec![s0, s1, s2];
        assert(shortcuts_match(r@, connection_detail_shortcut_labels()));
        r
    }
}

} // verus!
