//! The components of the interface, the tab bar and which tabs fit in it.
use vstd::prelude::*;
use vstd::utf8::encode_utf8;
use std::ops::Range;

verus! {

/// The components of the interface.
#[derive(Debug, Clone, Copy, PartialEq, Eq, Hash, Structural)]
pub enum ComponentId {
    Help,
    Root,
    Header,
    Footer,
    Overview,
    ConnectionDetail,
    ConnectionTerminate,
    ConnectionBatchTerminate,
    Connections,
    ConnectionsSetting,
    Proxies,
    ProxyDetail,
    ProxySetting,
    ProxyProviders,
    ProxyProviderDetail,
    Logs,
    Rules,
    RuleProviders,
    Config,
    Updates,
    Filter,
    DnsQuery,
    Search,
}

impl Default for ComponentId {
    fn default() -> (r: Self)
        ensures
            r == ComponentId::Overview,
    {
        ComponentId::Overview
    }
}

/// Number of components.
pub const COMPONENT_COUNT: usize = 23;

/// The number of a component, in declaration order.
pub open spec fn spec_component_number(id: ComponentId) -> usize {
    match id {
        ComponentId::Help => 0,
        ComponentId::Root => 1,
        ComponentId::Header => 2,
        ComponentId::Footer => 3,
        ComponentId::Overview => 4,
        ComponentId::ConnectionDetail => 5,
        ComponentId::ConnectionTerminate => 6,
        ComponentId::ConnectionBatchTerminate => 7,
        ComponentId::Connections => 8,
        ComponentId::ConnectionsSetting => 9,
        ComponentId::Proxies => 10,
        ComponentId::ProxyDetail => 11,
        ComponentId::ProxySetting => 12,
        ComponentId::ProxyProviders => 13,
        ComponentId::ProxyProviderDetail => 14,
        ComponentId::Logs => 15,
        ComponentId::Rules => 16,
        ComponentId::RuleProviders => 17,
        ComponentId::Config => 18,
        ComponentId::Updates => 19,
        ComponentId::Filter => 20,
        ComponentId::DnsQuery => 21,
        ComponentId::Search => 22,
    }
}

/// The component with a number.
pub open spec fn spec_component_of(n: int) -> ComponentId {
    if n == 0 {
        ComponentId::Help
    } else if n == 1 {
        ComponentId::Root
    } else if n == 2 {
        ComponentId::Header
    } else if n == 3 {
        ComponentId::Footer
    } else if n == 4 {
        ComponentId::Overview
    } else if n == 5 {
        ComponentId::ConnectionDetail
    } else if n == 6 {
        ComponentId::ConnectionTerminate
    } else if n == 7 {
        ComponentId::ConnectionBatchTerminate
    } else if n == 8 {
        ComponentId::Connections
    } else if n == 9 {
        ComponentId::ConnectionsSetting
    } else if n == 10 {
        ComponentId::Proxies
    } else if n == 11 {
        ComponentId::ProxyDetail
    } else if n == 12 {
        ComponentId::ProxySetting
    } else if n == 13 {
        ComponentId::ProxyProviders
    } else if n == 14 {
        ComponentId::ProxyProviderDetail
    } else if n == 15 {
        ComponentId::Logs
    } else if n == 16 {
        ComponentId::Rules
    } else if n == 17 {
        ComponentId::RuleProviders
    } else if n == 18 {
        ComponentId::Config
    } else if n == 19 {
        ComponentId::Updates
    } else if n == 20 {
        ComponentId::Filter
    } else if n == 21 {
        ComponentId::DnsQuery
    } else {
        ComponentId::Search
    }
}

/// Numbers and components correspond one to one.
pub proof fn lemma_component_number(id: ComponentId)
    ensures
        spec_component_number(id) < COMPONENT_COUNT,
        spec_component_of(spec_component_number(id) as int) == id,
{
}

/// The number of a component.
pub fn component_number(id: ComponentId) -> (r: usize)
    ensures
        r == spec_component_number(id),
        r < COMPONENT_COUNT,
{
    match id {
        ComponentId::Help => 0,
        ComponentId::Root => 1,
        ComponentId::Header => 2,
        ComponentId::Footer => 3,
        ComponentId::Overview => 4,
        ComponentId::ConnectionDetail => 5,
        ComponentId::ConnectionTerminate => 6,
        ComponentId::ConnectionBatchTerminate => 7,
        ComponentId::Connections => 8,
        ComponentId::ConnectionsSetting => 9,
        ComponentId::Proxies => 10,
        ComponentId::ProxyDetail => 11,
        ComponentId::ProxySetting => 12,
        ComponentId::ProxyProviders => 13,
        ComponentId::ProxyProviderDetail => 14,
        ComponentId::Logs => 15,
        ComponentId::Rules => 16,
        ComponentId::RuleProviders => 17,
        ComponentId::Config => 18,
        ComponentId::Updates => 19,
        ComponentId::Filter => 20,
        ComponentId::DnsQuery => 21,
        ComponentId::Search => 22,
    }
}

/// The component with a number below `COMPONENT_COUNT`.
pub fn component_of(n: usize) -> (r: ComponentId)
    requires
        n < COMPONENT_COUNT,
    ensures
        r == spec_component_of(n as int),
        spec_component_number(r) == n,
{
    if n == 0 {
        ComponentId::Help
    } else if n == 1 {
        ComponentId::Root
    } else if n == 2 {
        ComponentId::Header
    } else if n == 3 {
        ComponentId::Footer
    } else if n == 4 {
        ComponentId::Overview
    } else if n == 5 {
        ComponentId::ConnectionDetail
    } else if n == 6 {
        ComponentId::ConnectionTerminate
    } else if n == 7 {
        ComponentId::ConnectionBatchTerminate
    } else if n == 8 {
        ComponentId::Connections
    } else if n == 9 {
        ComponentId::ConnectionsSetting
    } else if n == 10 {
        ComponentId::Proxies
    } else if n == 11 {
        ComponentId::ProxyDetail
    } else if n == 12 {
        ComponentId::ProxySetting
    } else if n == 13 {
        ComponentId::ProxyProviders
    } else if n == 14 {
        ComponentId::ProxyProviderDetail
    } else if n == 15 {
        ComponentId::Logs
    } else if n == 16 {
        ComponentId::Rules
    } else if n == 17 {
        ComponentId::RuleProviders
    } else if n == 18 {
        ComponentId::Config
    } else if n == 19 {
        ComponentId::Updates
    } else if n == 20 {
        ComponentId::Filter
    } else if n == 21 {
        ComponentId::DnsQuery
    } else {
        ComponentId::Search
    }
}

/// Number of tabs.
pub const TAB_COUNT: usize = 8;

/// The tabs, in the order of their number keys.
pub open spec fn spec_tabs() -> Seq<ComponentId> {
    seq![
        ComponentId::Overview,
        ComponentId::Connections,
        ComponentId::Proxies,
        ComponentId::ProxyProviders,
        ComponentId::Logs,
        ComponentId::Rules,
        ComponentId::RuleProviders,
        ComponentId::Config,
    ]
}

/// The tab at `index`, if there is one.
pub fn tab_at(index: usize) -> (r: Option<ComponentId>)
    ensures
        index < TAB_COUNT ==> r == Some(spec_tabs()[index as int]),
        index >= TAB_COUNT ==> r is None,
{
    if index == 0 {
        Some(ComponentId::Overview)
    } else if index == 1 {
        Some(ComponentId::Connections)
    } else if index == 2 {
        Some(ComponentId::Proxies)
    } else if index == 3 {
        Some(ComponentId::ProxyProviders)
    } else if index == 4 {
        Some(ComponentId::Logs)
    } else if index == 5 {
        Some(ComponentId::Rules)
    } else if index == 6 {
        Some(ComponentId::RuleProviders)
    } else if index == 7 {
        Some(ComponentId::Config)
    } else {
        None
    }
}

/// The tabs, in order.
pub fn tabs() -> (r: Vec<ComponentId>)
    ensures
        r@ == spec_tabs(),
{
    let r = vec![
        ComponentId::Overview,
        ComponentId::Connections,
        ComponentId::Proxies,
        ComponentId::ProxyProviders,
        ComponentId::Logs,
        ComponentId::Rules,
        ComponentId::RuleProviders,
        ComponentId::Config,
    ];
    assert(r@ =~= spec_tabs());
    r
}

/// The position of a component among the tabs, or 0 when it is no tab.
pub open spec fn spec_component_index(id: ComponentId) -> usize {
    match id {
        ComponentId::Connections => 1,
        ComponentId::Proxies => 2,
        ComponentId::ProxyProviders => 3,
        ComponentId::Logs => 4,
        ComponentId::Rules => 5,
        ComponentId::RuleProviders => 6,
        ComponentId::Config => 7,
        _ => 0,
    }
}

/// The position of a component among the tabs, or 0 when it is no tab.
pub fn component_index(id: ComponentId) -> (r: usize)
    ensures
        r == spec_component_index(id),
        r < TAB_COUNT,
        spec_tabs().contains(id) ==> spec_tabs()[r as int] == id,
{
    let t = tabs();
    let mut i: usize = 0;
    while i < t.len()
        invariant
            t@ == spec_tabs(),
            i <= t@.len(),
            forall|j: int| 0 <= j < i ==> t@[j] != id,
        decreases t.len() - i,
    {
        if t[i] == id {
            return i;
        }
        i = i + 1;
    }
    assert(!spec_tabs().contains(id));
    0
}

/// The name of a component on the tab bar and in the help.
pub open spec fn spec_full_name(id: ComponentId) -> &'static str {
    match id {
        ComponentId::Help => "Help",
        ComponentId::Root => "Root",
        ComponentId::Header => "Header",
        ComponentId::Footer => "Footer",
        ComponentId::Overview => "Overview",
        ComponentId::ConnectionDetail => "ConnectionDetail",
        ComponentId::ConnectionTerminate => "ConnectionTerminate",
        ComponentId::ConnectionBatchTerminate => "ConnectionBatchTerminate",
        ComponentId::Connections => "Connections",
        ComponentId::ConnectionsSetting => "ConnectionsSetting",
        ComponentId::Proxies => "Proxies",
        ComponentId::ProxyDetail => "ProxyDetail",
        ComponentId::ProxySetting => "ProxySetting",
        ComponentId::ProxyProviders => "ProxyProviders",
        ComponentId::ProxyProviderDetail => "ProxyProviderDetail",
        ComponentId::Logs => "Logs",
        ComponentId::Rules => "Rules",
        ComponentId::RuleProviders => "RuleProviders",
        ComponentId::Config => "Config",
        ComponentId::Updates => "Updates",
        ComponentId::Filter => "Filter",
        ComponentId::DnsQuery => "DnsQuery",
        ComponentId::Search => "Search",
    }
}

/// The short name a tab takes on a narrow tab bar, if it has one.
pub open spec fn spec_short_name(id: ComponentId) -> Option<&'static str> {
    match id {
        ComponentId::Connections => Some("Conn"),
        ComponentId::Proxies => Some("Pxy"),
        ComponentId::ProxyProviders => Some("Pxy-Pr"),
        ComponentId::Logs => Some("Log"),
        ComponentId::Rules => Some("Rule"),
        ComponentId::RuleProviders => Some("R-Pr"),
        ComponentId::Config => Some("Cfg"),
        _ => None,
    }
}

impl ComponentId {
    /// The name of the component.
    pub fn full_name(self) -> (r: &'static str)
        ensures
            r == spec_full_name(self),
    {
        match self {
            ComponentId::Help => "Help",
            ComponentId::Root => "Root",
            ComponentId::Header => "Header",
            ComponentId::Footer => "Footer",
            ComponentId::Overview => "Overview",
            ComponentId::ConnectionDetail => "ConnectionDetail",
            ComponentId::ConnectionTerminate => "ConnectionTerminate",
            ComponentId::ConnectionBatchTerminate => "ConnectionBatchTerminate",
            ComponentId::Connections => "Connections",
            ComponentId::ConnectionsSetting => "ConnectionsSetting",
            ComponentId::Proxies => "Proxies",
            ComponentId::ProxyDetail => "ProxyDetail",
            ComponentId::ProxySetting => "ProxySetting",
            ComponentId::ProxyProviders => "ProxyProviders",
            ComponentId::ProxyProviderDetail => "ProxyProviderDetail",
            ComponentId::Logs => "Logs",
            ComponentId::Rules => "Rules",
            ComponentId::RuleProviders => "RuleProviders",
            ComponentId::Config => "Config",
            ComponentId::Updates => "Updates",
            ComponentId::Filter => "Filter",
            ComponentId::DnsQuery => "DnsQuery",
            ComponentId::Search => "Search",
        }
    }

    /// The short name of the tab, if it has one.
    pub fn short_name(self) -> (r: Option<&'static str>)
        ensures
            r == spec_short_name(self),
    {
        match self {
            ComponentId::Connections => Some("Conn"),
            ComponentId::Proxies => Some("Pxy"),
            ComponentId::ProxyProviders => Some("Pxy-Pr"),
            ComponentId::Logs => Some("Log"),
            ComponentId::Rules => Some("Rule"),
            ComponentId::RuleProviders => Some("R-Pr"),
            ComponentId::Config => Some("Cfg"),
            _ => None,
        }
    }

    /// Whether the tab shows the filter box above its table.
    pub fn supports_filter(self) -> (r: bool)
        ensures
            r == (self == ComponentId::Connections),
    {
        match self {
            ComponentId::Connections => true,
            _ => false,
        }
    }
}

/// How tab names are written on the tab bar.
#[derive(Debug, Clone, Copy, PartialEq, Eq, Structural)]
pub enum TabNameMode {
    Full,
    Short,
}

/// The name a tab shows in a mode: its short name in short mode, where it
/// has one.
pub open spec fn spec_tab_name(id: ComponentId, mode: TabNameMode) -> &'static str {
    match mode {
        TabNameMode::Full => spec_full_name(id),
        TabNameMode::Short => match spec_short_name(id) {
            Some(s) => s,
            None => spec_full_name(id),
        },
    }
}

/// The name a tab shows in a mode.
pub fn tab_name(id: ComponentId, mode: TabNameMode) -> (r: &'static str)
    ensures
        r == spec_tab_name(id, mode),
{
    match mode {
        TabNameMode::Full => id.full_name(),
        TabNameMode::Short => match id.short_name() {
            Some(s) => s,
            None => id.full_name(),
        },
    }
}

/// Width of the superscript number in front of a tab name.
pub const TAB_SUPERSCRIPT_WIDTH: u16 = 1;

/// Width of the padding around a tab.
pub const TAB_PADDING_WIDTH: u16 = 2;

/// Width of the divider between two tabs.
pub const TAB_DIVIDER_WIDTH: u16 = 1;

/// Total width of the dividers between `n` tabs.
pub open spec fn spec_divider_width(n: int) -> int {
    if n > 0 {
        n - 1
    } else {
        0
    }
}

/// Total width of the dividers between `tab_count` tabs, kept to its low 16
/// bits as a cast to `u16` does.
pub fn divider_width(tab_count: usize) -> (r: u16)
    ensures
        r == spec_divider_width(tab_count as int) as u16,
{
    let n: usize = if tab_count > 0 {
        tab_count - 1
    } else {
        0
    };
    #[verifier::truncate]
    (n as u16) * TAB_DIVIDER_WIDTH
}

/// Width of a tab whose name takes `len` bytes.
pub open spec fn spec_tab_width(len: int) -> int {
    TAB_SUPERSCRIPT_WIDTH + len + TAB_PADDING_WIDTH
}

/// Width of the tab showing `name`: superscript number, name and padding.
pub fn tab_width(name: &str) -> (r: u16)
    requires
        name.len() + 3 <= u16::MAX,
    ensures
        r == spec_tab_width(name.len() as int),
{
    TAB_SUPERSCRIPT_WIDTH + name.len() as u16 + TAB_PADDING_WIDTH
}

proof fn lemma_encode_len(chars: Seq<char>)
    ensures
        encode_utf8(chars).len() <= 4 * chars.len(),
    decreases chars.len(),
{
    if chars.len() > 0 {
        lemma_encode_len(chars.drop_first());
    }
}

/// Every tab name takes at most 96 bytes.
proof fn lemma_tab_name_len(id: ComponentId, mode: TabNameMode)
    ensures
        spec_tab_name(id, mode).len() <= 96,
{
    let s = spec_tab_name(id, mode);
    lemma_encode_len(s@);
    reveal_strlit("Help");
    reveal_strlit("Root");
    reveal_strlit("Header");
    reveal_strlit("Footer");
    reveal_strlit("Overview");
    reveal_strlit("ConnectionDetail");
    reveal_strlit("ConnectionTerminate");
    reveal_strlit("ConnectionBatchTerminate");
    reveal_strlit("Connections");
    reveal_strlit("ConnectionsSetting");
    reveal_strlit("Proxies");
    reveal_strlit("ProxyDetail");
    reveal_strlit("ProxySetting");
    reveal_strlit("ProxyProviders");
    reveal_strlit("ProxyProviderDetail");
    reveal_strlit("Logs");
    reveal_strlit("Rules");
    reveal_strlit("RuleProviders");
    reveal_strlit("Config");
    reveal_strlit("Updates");
    reveal_strlit("Filter");
    reveal_strlit("DnsQuery");
    reveal_strlit("Search");
    reveal_strlit("Conn");
    reveal_strlit("Pxy");
    reveal_strlit("Pxy-Pr");
    reveal_strlit("Log");
    reveal_strlit("Rule");
    reveal_strlit("R-Pr");
    reveal_strlit("Cfg");
}

/// The widths of the tabs in a mode, in tab order.
pub open spec fn spec_tab_widths(mode: TabNameMode) -> Seq<u16> {
    spec_tabs().map_values(|id: ComponentId| spec_tab_width(spec_tab_name(id, mode).len() as int) as u16)
}

/// The widths of the tabs in a mode, in tab order.
pub fn tab_widths(mode: TabNameMode) -> (r: Vec<u16>)
    ensures
        r@ == spec_tab_widths(mode),
        forall|i: int| 0 <= i < r@.len() ==> #[trigger] r@[i] <= 99,
{
    let t = tabs();
    let mut r: Vec<u16> = Vec::new();
    let mut i: usize = 0;
    while i < t.len()
        invariant
            t@ == spec_tabs(),
            i <= t@.len(),
            r@ == spec_tab_widths(mode).take(i as int),
            forall|j: int| 0 <= j < r@.len() ==> #[trigger] r@[j] <= 99,
        decreases t.len() - i,
    {
        let name = tab_name(t[i], mode);
        proof {
            lemma_tab_name_len(t@[i as int], mode);
        }
        r.push(tab_width(name));
        assert(spec_tab_widths(mode).take(i + 1) =~= spec_tab_widths(mode).take(i as int).push(
            spec_tab_widths(mode)[i as int],
        ));
        i = i + 1;
    }
    assert(spec_tab_widths(mode).take(t@.len() as int) =~= spec_tab_widths(mode));
    r
}

/// The sum of a sequence of widths.
pub open spec fn seq_sum(s: Seq<u16>) -> int
    decreases s.len(),
{
    if s.len() == 0 {
        0
    } else {
        seq_sum(s.drop_last()) + s.last()
    }
}

/// The width of the tabs `start..end` with their dividers.
pub open spec fn row_width(widths: Seq<u16>, start: int, end: int) -> int {
    seq_sum(widths.subrange(start, end)) + spec_divider_width(end - start)
}

proof fn lemma_sum_first(s: Seq<u16>)
    requires
        s.len() > 0,
    ensures
        seq_sum(s) == s[0] + seq_sum(s.drop_first()),
    decreases s.len(),
{
    if s.len() > 1 {
        lemma_sum_first(s.drop_last());
        assert(s.drop_last().drop_first() =~= s.drop_first().drop_last());
        assert(s.drop_first().last() == s.last());
        assert(seq_sum(s.drop_first()) == seq_sum(s.drop_first().drop_last()) + s.drop_first().last());
        assert(seq_sum(s) == seq_sum(s.drop_last()) + s.last());
    } else {
        assert(seq_sum(s.drop_first()) == 0);
        assert(seq_sum(s.drop_last()) == 0);
        assert(s.last() == s[0]);
    }
}

/// Width of the whole tab row in a mode.
pub fn tabs_row_width(mode: TabNameMode) -> (r: u16)
    ensures
        r == row_width(spec_tab_widths(mode), 0, TAB_COUNT as int),
{
    let w = tab_widths(mode);
    let mut sum: u16 = 0;
    let mut i: usize = 0;
    while i < w.len()
        invariant
            w@ == spec_tab_widths(mode),
            w@.len() == TAB_COUNT,
            forall|j: int| 0 <= j < w@.len() ==> #[trigger] w@[j] <= 99,
            i <= w@.len(),
            sum == seq_sum(w@.take(i as int)),
            sum <= 99 * i,
        decreases w.len() - i,
    {
        assert(w@.take(i + 1).drop_last() =~= w@.take(i as int));
        sum = sum + w[i];
        i = i + 1;
    }
    assert(w@.subrange(0, TAB_COUNT as int) =~= w@.take(TAB_COUNT as int));
    sum + divider_width(w.len())
}

/// The tabs kept by trimming `start..end` around `selected`: while the row
/// is still `overflow` too wide and more than one tab is left, the tab at the
/// end with more tabs beyond the selected one is dropped (the left end on a
/// tie), and the overflow shrinks by its width and divider.
pub open spec fn trim_range(widths: Seq<u16>, selected: int, start: int, end: int, overflow: int) -> (int, int)
    decreases end - start,
{
    if overflow > 0 && end - start > 1 && (start < selected || end > selected + 1) {
        let left = if start < selected && end > selected + 1 {
            selected - start >= end - selected - 1
        } else {
            start < selected
        };
        if left {
            trim_range(widths, selected, start + 1, end, overflow - widths[start] - 1)
        } else {
            trim_range(widths, selected, start, end - 1, overflow - widths[end - 1] - 1)
        }
    } else {
        (start, end)
    }
}

/// Whether every tab that trimming `start..end` drops is narrower than
/// `u16::MAX`, so that its width and divider can be added.
pub open spec fn trim_safe(widths: Seq<u16>, selected: int, start: int, end: int, overflow: int) -> bool
    decreases end - start,
{
    if overflow > 0 && end - start > 1 && (start < selected || end > selected + 1) {
        let left = if start < selected && end > selected + 1 {
            selected - start >= end - selected - 1
        } else {
            start < selected
        };
        if left {
            widths[start] < u16::MAX && trim_safe(widths, selected, start + 1, end, overflow - widths[start] - 1)
        } else {
            widths[end - 1] < u16::MAX && trim_safe(widths, selected, start, end - 1, overflow - widths[end - 1] - 1)
        }
    } else {
        true
    }
}

proof fn lemma_trim_safe_when_narrow(widths: Seq<u16>, selected: int, start: int, end: int, overflow: int)
    requires
        0 <= start <= end <= widths.len(),
        forall|i: int| 0 <= i < widths.len() ==> #[trigger] widths[i] < u16::MAX,
    ensures
        trim_safe(widths, selected, start, end, overflow),
    decreases end - start,
{
    if overflow > 0 && end - start > 1 && (start < selected || end > selected + 1) {
        lemma_trim_safe_when_narrow(widths, selected, start + 1, end, overflow - widths[start] - 1);
        lemma_trim_safe_when_narrow(widths, selected, start, end - 1, overflow - widths[end - 1] - 1);
    }
}

proof fn lemma_row_width_trim(widths: Seq<u16>, start: int, end: int)
    requires
        0 <= start < end <= widths.len(),
        end - start > 1,
    ensures
        row_width(widths, start + 1, end) == row_width(widths, start, end) - widths[start] - 1,
        row_width(widths, start, end - 1) == row_width(widths, start, end) - widths[end - 1] - 1,
{
    let s = widths.subrange(start, end);
    lemma_sum_first(s);
    assert(s.drop_first() =~= widths.subrange(start + 1, end));
    assert(s.drop_last() =~= widths.subrange(start, end - 1));
}

/// The tabs `start..end` to show around `selected` when the full row is
/// `overflow_width` too wide; none when `selected` is out of range.
pub fn visible_tab_range(widths: &[u16], selected: usize, overflow_width: u16) -> (r: Range<usize>)
    requires
        selected < widths@.len() ==> trim_safe(widths@, selected as int, 0, widths@.len() as int, overflow_width as int),
    ensures
        selected >= widths@.len() ==> r.start == 0 && r.end == 0,
        selected < widths@.len() ==> {
            &&& (r.start as int, r.end as int) == trim_range(
                widths@,
                selected as int,
                0,
                widths@.len() as int,
                overflow_width as int,
            )
            &&& r.start <= selected < r.end <= widths@.len()
            &&& r.end - r.start > 1 ==> row_width(widths@, r.start as int, r.end as int) + overflow_width
                <= row_width(widths@, 0, widths@.len() as int)
        },
{
    if selected >= widths.len() {
        return 0..0;
    }
    let mut start: usize = 0;
    let mut end: usize = widths.len();
    let mut overflow: u16 = overflow_width;
    let ghost full = row_width(widths@, 0, widths@.len() as int);
    while overflow > 0 && end - start > 1
        invariant_except_break
            start <= selected < end <= widths@.len(),
            trim_safe(widths@, selected as int, start as int, end as int, overflow as int),
            trim_range(widths@, selected as int, start as int, end as int, overflow as int) == trim_range(
                widths@,
                selected as int,
                0,
                widths@.len() as int,
                overflow_width as int,
            ),
            row_width(widths@, start as int, end as int) + overflow_width <= full + overflow,
        ensures
            start <= selected < end <= widths@.len(),
            (start as int, end as int) == trim_range(
                widths@,
                selected as int,
                0,
                widths@.len() as int,
                overflow_width as int,
            ),
            end - start > 1 ==> row_width(widths@, start as int, end as int) + overflow_width <= full,
        decreases end - start,
    {
        let can_trim_left = start < selected;
        let can_trim_right = end > selected + 1;
        if !can_trim_left && !can_trim_right {
            break;
        }
        let trim_left = if can_trim_left && can_trim_right {
            selected - start >= end - selected - 1
        } else {
            can_trim_left
        };
        proof {
            lemma_row_width_trim(widths@, start as int, end as int);
        }
        let ghost old_overflow = overflow as int;
        let trimmed: u16 = if trim_left {
            start = start + 1;
            widths[start - 1] + TAB_DIVIDER_WIDTH
        } else {
            end = end - 1;
            widths[end] + TAB_DIVIDER_WIDTH
        };
        overflow = if overflow > trimmed {
            overflow - trimmed
        } else {
            0
        };
        assert(trim_range(widths@, selected as int, start as int, end as int, old_overflow - trimmed)
            == trim_range(widths@, selected as int, start as int, end as int, overflow as int));
        assert(trim_safe(widths@, selected as int, start as int, end as int, old_overflow - trimmed)
            == trim_safe(widths@, selected as int, start as int, end as int, overflow as int));
    }
    start..end
}

/// The mode and the tabs shown on a tab bar `available_width` wide with the
/// tab at `selected` selected: all full names when they fit, else all short
/// names when they fit, else short names trimmed around the selected tab.
pub fn visible_tabs(available_width: u16, selected: usize) -> (r: (TabNameMode, Range<usize>))
    ensures
        available_width >= row_width(spec_tab_widths(TabNameMode::Full), 0, TAB_COUNT as int) ==> r.0
            == TabNameMode::Full && r.1.start == 0 && r.1.end == TAB_COUNT,
        available_width < row_width(spec_tab_widths(TabNameMode::Full), 0, TAB_COUNT as int)
            && available_width >= row_width(spec_tab_widths(TabNameMode::Short), 0, TAB_COUNT as int)
            ==> r.0 == TabNameMode::Short && r.1.start == 0 && r.1.end == TAB_COUNT,
        available_width < row_width(spec_tab_widths(TabNameMode::Full), 0, TAB_COUNT as int)
            && available_width < row_width(spec_tab_widths(TabNameMode::Short), 0, TAB_COUNT as int)
            ==> {
            &&& r.0 == TabNameMode::Short
            &&& selected >= TAB_COUNT ==> r.1.start == 0 && r.1.end == 0
            &&& selected < TAB_COUNT ==> (r.1.start as int, r.1.end as int) == trim_range(
                spec_tab_widths(TabNameMode::Short),
                selected as int,
                0,
                TAB_COUNT as int,
                row_width(spec_tab_widths(TabNameMode::Short), 0, TAB_COUNT as int) - available_width,
            )
        },
        selected < TAB_COUNT ==> r.1.start <= selected < r.1.end <= TAB_COUNT,
        r.1.end - r.1.start > 1 ==> row_width(spec_tab_widths(r.0), r.1.start as int, r.1.end as int)
            <= available_width,
{
    let full = tabs_row_width(TabNameMode::Full);
    if available_width >= full {
        return (TabNameMode::Full, 0..TAB_COUNT);
    }
    let short = tabs_row_width(TabNameMode::Short);
    if available_width >= short {
        return (TabNameMode::Short, 0..TAB_COUNT);
    }
    let widths = tab_widths(TabNameMode::Short);
    proof {
        lemma_trim_safe_when_narrow(
            widths@,
            selected as int,
            0,
            widths@.len() as int,
            (short - available_width) as int,
        );
    }
    let range = visible_tab_range(widths.as_slice(), selected, short - available_width);
    (TabNameMode::Short, range)
}

} // verus!
