//! The configuration file's settings and their validation.
use vstd::prelude::*;
use vstd::string::*;
use crate::columns::{ALIVE_COLUMN_INDEX, CONNECTION_COL_COUNT, connection_col, spec_connection_col};
use crate::sort::{SortDir, SortSpec};
use crate::text::{
    chars_of, count_char, count_of_char, first_index_of, index_of_char, parse_u64, parse_u64_spec,
    str_starts_with, has_prefix, string_from_range, trim, trim_spec, eq_ignore_ascii_case,
    str_eq_ignore_ascii_case, u64_text, decimal_text, append_str, lemma_first_index_of,
    lemma_count_char_concat, all_whitespace, is_unicode_whitespace, lemma_trim_padded, lemma_decimal_text, lemma_first_index_after, lemma_parse_decimal,
};
use crate::url_support::{parse_url, url_error_text, url_parses};

verus! {

/// Why a setting was refused.
#[derive(Debug, Clone, PartialEq, Eq)]
pub enum ConfigError {
    ColumnsEmpty,
    UnknownColumn(String),
    DuplicateColumn(String),
    UnknownSortField(String),
    UnknownColumnWidthKey(String),
    DuplicateColumnWidthKey(String),
    /// A column width of zero, under this key.
    ZeroColumnWidth(String),
    EmptyUrl,
    UrlScheme,
    InvalidUrl(String),
    TimeoutRange,
    ThresholdNotPositive,
    ThresholdOrder,
    ThresholdShape,
    UnsupportedSchemaVersion(u16),
    EmptyEndpoint,
    EmptyPipeName,
    EmptySocketPath,
    InvalidEndpointUrl(String),
    EndpointNotHttp,
    UnixSocketUnsupported,
    NamedPipeUnsupported,
}

/// The result with its success value dropped.
pub open spec fn drop_ok<T>(r: Result<T, ConfigError>) -> Result<(), ConfigError> {
    match r {
        Ok(_) => Ok(()),
        Err(e) => Err(e),
    }
}

/// Latency bounds in milliseconds: below `medium` is good, below `high` is
/// medium, and the rest is bad.
#[derive(Debug, Clone, Copy, PartialEq, Eq, Structural)]
pub struct LatencyThreshold {
    pub medium: u64,
    pub high: u64,
}

impl LatencyThreshold {
    /// The bounds as a pair `(medium, high)`.
    pub fn as_tuple(self) -> (r: (u64, u64))
        ensures
            r == (self.medium, self.high),
    {
        (self.medium, self.high)
    }

    /// The text `medium,high`, in decimal.
    pub fn to_text(&self) -> (r: String)
        ensures
            r@ == decimal_text(self.medium as nat) + ","@ + decimal_text(self.high as nat),
    {
        let mut s = u64_text(self.medium);
        append_str(&mut s, ",");
        let h = u64_text(self.high);
        append_str(&mut s, h.as_str());
        s
    }

    /// Parses `medium,high`: two numbers around one comma, each trimmed.
    pub fn parse(value: &str) -> (r: Result<LatencyThreshold, ConfigError>)
        ensures
            r == spec_parse_threshold(value@),
    {
        let v = chars_of(value);
        if count_of_char(&v, ',') != 1 {
            return Err(ConfigError::ThresholdShape);
        }
        let k = index_of_char(&v, ',');
        proof {
            lemma_first_index_of(v@, ',');
            if k == v@.len() {
                lemma_no_char_count(v@, ',');
            }
        }
        let left = string_from_range(&v, 0, k);
        let right = string_from_range(&v, k + 1, v.len());
        let a = parse_u64(trim(left.as_str()));
        let b = parse_u64(trim(right.as_str()));
        match (a, b) {
            (Some(medium), Some(high)) => Ok(LatencyThreshold { medium, high }),
            _ => Err(ConfigError::ThresholdNotPositive),
        }
    }
}

pub proof fn lemma_no_char_count(s: Seq<char>, c: char)
    requires
        forall|j: int| 0 <= j < s.len() ==> s[j] != c,
    ensures
        count_char(s, c) == 0,
    decreases s.len(),
{
    if s.len() > 0 {
        lemma_no_char_count(s.drop_last(), c);
    }
}

/// Writing a threshold as text and parsing that text gives the threshold
/// back.
pub proof fn law_threshold_text_round_trip(t: LatencyThreshold)
    ensures
        spec_parse_threshold(decimal_text(t.medium as nat) + ","@ + decimal_text(t.high as nat)) == Ok::<
            LatencyThreshold,
            ConfigError,
        >(t),
{
    let x = decimal_text(t.medium as nat);
    let y = decimal_text(t.high as nat);
    reveal_strlit(",");
    let s = x + ","@ + y;
    assert(","@ =~= seq![',']);
    lemma_decimal_text(t.medium as nat);
    lemma_decimal_text(t.high as nat);
    lemma_parse_decimal(t.medium);
    lemma_parse_decimal(t.high);
    assert forall|j: int| 0 <= j < x.len() implies x[j] != ',' by {
        assert('0' <= x[j] <= '9');
    }
    assert forall|j: int| 0 <= j < y.len() implies y[j] != ',' by {
        assert('0' <= y[j] <= '9');
    }
    lemma_no_char_count(x, ',');
    lemma_no_char_count(y, ',');
    lemma_count_char_concat(x, seq![','], ',');
    lemma_count_char_concat(x + seq![','], y, ',');
    assert(count_char(seq![','], ',') == 1) by {
        let one = seq![','];
        assert(one.drop_last() =~= Seq::<char>::empty());
        assert(count_char(one.drop_last(), ',') == 0);
    }
    lemma_first_index_after(x, y, ',');
    assert(s.subrange(0, x.len() as int) =~= x);
    assert(s.subrange(x.len() as int + 1, s.len() as int) =~= y);
}

/// White space never holds a comma.
proof fn lemma_no_comma_in_whitespace(w: Seq<char>)
    requires
        all_whitespace(w),
    ensures
        forall|j: int| 0 <= j < w.len() ==> w[j] != ',',
{
    assert forall|j: int| 0 <= j < w.len() implies w[j] != ',' by {
        assert(is_unicode_whitespace(w[j]));
        assert((',' as u32) == 0x2c);
    }
}

/// A number padded with white space: `w1`, the number in decimal, `w2`; it
/// holds no comma, and trims to the number's digits.
proof fn lemma_padded_number(w1: Seq<char>, n: u64, w2: Seq<char>)
    requires
        all_whitespace(w1),
        all_whitespace(w2),
    ensures
        forall|j: int| 0 <= j < (w1 + decimal_text(n as nat) + w2).len() ==> (w1 + decimal_text(n as nat) + w2)[j]
            != ',',
        parse_u64_spec(trim_spec(w1 + decimal_text(n as nat) + w2)) == Some(n),
{
    let d = decimal_text(n as nat);
    lemma_decimal_text(n as nat);
    lemma_parse_decimal(n);
    assert('0' <= d[0] <= '9');
    assert('0' <= d.last() <= '9');
    lemma_trim_padded(w1, d, w2);
    lemma_no_comma_in_whitespace(w1);
    lemma_no_comma_in_whitespace(w2);
    let p = w1 + d + w2;
    assert forall|j: int| 0 <= j < p.len() implies p[j] != ',' by {
        if j < w1.len() {
            assert(p[j] == w1[j]);
        } else if j < w1.len() + d.len() {
            assert(p[j] == d[j - w1.len()]);
            assert('0' <= d[j - w1.len()] <= '9');
        } else {
            assert(p[j] == w2[j - w1.len() - d.len()]);
        }
    }
}

/// Parsing a threshold ignores white space around either number: `m` and
/// `h` written in decimal, each with any white space before and after, around
/// one comma, read back as the threshold `m,h`.
pub proof fn law_threshold_parse_ignores_spaces(
    m: u64,
    h: u64,
    w1: Seq<char>,
    w2: Seq<char>,
    w3: Seq<char>,
    w4: Seq<char>,
)
    requires
        all_whitespace(w1),
        all_whitespace(w2),
        all_whitespace(w3),
        all_whitespace(w4),
    ensures
        spec_parse_threshold(
            w1 + decimal_text(m as nat) + w2 + ","@ + w3 + decimal_text(h as nat) + w4,
        ) == Ok::<LatencyThreshold, ConfigError>(LatencyThreshold { medium: m, high: h }),
{
    let x = w1 + decimal_text(m as nat) + w2;
    let y = w3 + decimal_text(h as nat) + w4;
    reveal_strlit(",");
    assert(","@ =~= seq![',']);
    let s = w1 + decimal_text(m as nat) + w2 + ","@ + w3 + decimal_text(h as nat) + w4;
    assert(s =~= x + seq![','] + y);
    lemma_padded_number(w1, m, w2);
    lemma_padded_number(w3, h, w4);
    lemma_no_char_count(x, ',');
    lemma_no_char_count(y, ',');
    lemma_count_char_concat(x, seq![','], ',');
    lemma_count_char_concat(x + seq![','], y, ',');
    assert(count_char(seq![','], ',') == 1) by {
        let one = seq![','];
        assert(one.drop_last() =~= Seq::<char>::empty());
        assert(count_char(one.drop_last(), ',') == 0);
    }
    lemma_first_index_after(x, y, ',');
    assert(s.subrange(0, x.len() as int) =~= x);
    assert(s.subrange(x.len() as int + 1, s.len() as int) =~= y);
}

/// The result of parsing a latency threshold from text.
pub open spec fn spec_parse_threshold(s: Seq<char>) -> Result<LatencyThreshold, ConfigError> {
    if count_char(s, ',') != 1 {
        Err(ConfigError::ThresholdShape)
    } else {
        let k = first_index_of(s, ',');
        let a = parse_u64_spec(trim_spec(s.subrange(0, k)));
        let b = parse_u64_spec(trim_spec(s.subrange(k + 1, s.len() as int)));
        if a is Some && b is Some {
            Ok(LatencyThreshold { medium: a->0, high: b->0 })
        } else {
            Err(ConfigError::ThresholdNotPositive)
        }
    }
}

impl Default for LatencyThreshold {
    fn default() -> (r: Self)
        ensures
            r == (LatencyThreshold { medium: 500, high: 1000 }),
    {
        LatencyThreshold { medium: 500, high: 1000 }
    }
}

/// How latency tests are run and judged.
#[derive(Debug)]
pub struct ProxySetting {
    pub test_url: String,
    /// Test timeout in milliseconds; never zero.
    pub test_timeout: usize,
    pub latency_threshold: LatencyThreshold,
    pub auto_terminate_connections: bool,
}

impl Clone for ProxySetting {
    fn clone(&self) -> (r: Self)
        ensures
            r == *self,
    {
        ProxySetting {
            test_url: self.test_url.clone(),
            test_timeout: self.test_timeout,
            latency_threshold: self.latency_threshold,
            auto_terminate_connections: self.auto_terminate_connections,
        }
    }
}

impl Default for ProxySetting {
    fn default() -> (r: Self)
        ensures
            r.test_url@ == "https://www.gstatic.com/generate_204"@,
            r.test_timeout == 5000,
            r.latency_threshold == (LatencyThreshold { medium: 500, high: 1000 }),
            !r.auto_terminate_connections,
    {
        ProxySetting {
            test_url: "https://www.gstatic.com/generate_204".to_string(),
            test_timeout: 5000,
            latency_threshold: LatencyThreshold::default(),
            auto_terminate_connections: false,
        }
    }
}

/// Which check refuses a test URL, if any.
pub open spec fn test_url_refusal(s: Seq<char>) -> Option<u8> {
    if s.len() == 0 {
        Some(0)
    } else if !has_prefix(s, "http://"@) && !has_prefix(s, "https://"@) {
        Some(1)
    } else if !url_parses(s) {
        Some(2)
    } else {
        None
    }
}

/// Whether `r` is the outcome of the test-URL check for `s`.
pub open spec fn test_url_outcome(s: Seq<char>, r: Result<(), ConfigError>) -> bool {
    match test_url_refusal(s) {
        None => r is Ok,
        Some(0) => r == Err::<(), ConfigError>(ConfigError::EmptyUrl),
        Some(1) => r == Err::<(), ConfigError>(ConfigError::UrlScheme),
        Some(_) => r matches Err(ConfigError::InvalidUrl(x)) && x@ == url_error_text(s),
    }
}

/// Whether `r` is the outcome of checking the proxy setting `s`: the URL,
/// then the timeout, then the threshold; the first failure is reported.
pub open spec fn proxy_setting_outcome(s: ProxySetting, r: Result<(), ConfigError>) -> bool {
    if test_url_refusal(s.test_url@) is Some {
        r is Err && test_url_outcome(s.test_url@, r)
    } else if test_timeout_outcome(s.test_timeout) is Err {
        r == test_timeout_outcome(s.test_timeout)
    } else {
        r == threshold_outcome(s.latency_threshold)
    }
}

/// Whether the proxy setting passes its checks.
pub open spec fn proxy_setting_ok(s: ProxySetting) -> bool {
    test_url_refusal(s.test_url@) is None && test_timeout_outcome(s.test_timeout) is Ok
        && threshold_outcome(s.latency_threshold) is Ok
}

/// The outcome of the test-timeout check: at most one minute.
pub open spec fn test_timeout_outcome(value: usize) -> Result<(), ConfigError> {
    if value <= 60000 {
        Ok(())
    } else {
        Err(ConfigError::TimeoutRange)
    }
}

/// The outcome of the threshold check: both positive, `medium < high`.
pub open spec fn threshold_outcome(value: LatencyThreshold) -> Result<(), ConfigError> {
    if value.medium == 0 || value.high == 0 {
        Err(ConfigError::ThresholdNotPositive)
    } else if value.medium >= value.high {
        Err(ConfigError::ThresholdOrder)
    } else {
        Ok(())
    }
}

impl ProxySetting {
    /// Checks the URL, the timeout and the threshold, in that order.
    pub fn validate(&self) -> (r: Result<(), ConfigError>)
        requires
            self.test_timeout >= 1,
        ensures
            proxy_setting_outcome(*self, r),
    {
        Self::validate_test_url(self.test_url.as_str())?;
        Self::validate_test_timeout(self.test_timeout)?;
        Self::validate_latency_threshold(self.latency_threshold)?;
        Ok(())
    }

    /// A test URL must be non-empty, start with `http://` or `https://`, and
    /// parse as a URL.
    pub fn validate_test_url(value: &str) -> (r: Result<(), ConfigError>)
        ensures
            test_url_outcome(value@, r),
    {
        if chars_of(value).len() == 0 {
            return Err(ConfigError::EmptyUrl);
        }
        if !str_starts_with(value, "http://") && !str_starts_with(value, "https://") {
            return Err(ConfigError::UrlScheme);
        }
        match parse_url(value) {
            Ok(_) => Ok(()),
            Err(text) => Err(ConfigError::InvalidUrl(text)),
        }
    }

    /// A test timeout must be at most 60000 milliseconds.
    pub fn validate_test_timeout(value: usize) -> (r: Result<(), ConfigError>)
        requires
            value >= 1,
        ensures
            r == test_timeout_outcome(value),
    {
        if value <= 60000 {
            Ok(())
        } else {
            Err(ConfigError::TimeoutRange)
        }
    }

    /// Both thresholds must be positive and `medium < high`.
    pub fn validate_latency_threshold(value: LatencyThreshold) -> (r: Result<(), ConfigError>)
        ensures
            r == threshold_outcome(value),
    {
        if value.medium == 0 || value.high == 0 {
            return Err(ConfigError::ThresholdNotPositive);
        }
        if value.medium >= value.high {
            return Err(ConfigError::ThresholdOrder);
        }
        Ok(())
    }
}

/// The sort of the connections table as written in the configuration file.
#[derive(Debug, Clone)]
pub struct ConnectionsSortConfig {
    pub field: String,
    pub dir: SortDir,
}

/// The connections table as written in the configuration file.
#[derive(Debug, Clone)]
pub struct ConnectionsUiConfig {
    pub columns: Option<Vec<String>>,
    pub sort: Option<ConnectionsSortConfig>,
    /// Column widths by column title, in ascending order of the title.
    pub column_widths: Vec<(String, u16)>,
    /// Aliases by source IP; no source IP occurs twice.
    pub source_ip_alias: Vec<(String, String)>,
}

/// The columns that the configuration may name: every column but `Alive`,
/// with their titles; with `sortable_only`, only sortable ones.
pub open spec fn col_entries(n: nat, sortable_only: bool) -> Seq<(usize, &'static str)>
    decreases n,
{
    if n == 0 {
        Seq::empty()
    } else {
        let i = (n - 1) as usize;
        let prev = col_entries((n - 1) as nat, sortable_only);
        let c = spec_connection_col(i as int);
        if i != ALIVE_COLUMN_INDEX && c is Some && (!sortable_only || c->0.sortable) {
            prev.push((i, c->0.title))
        } else {
            prev
        }
    }
}

/// The columns a sort may name.
pub open spec fn sortable_cols() -> Seq<(usize, &'static str)> {
    col_entries(CONNECTION_COL_COUNT as nat, true)
}

/// The columns the column list and column widths may name.
pub open spec fn configurable_cols() -> Seq<(usize, &'static str)> {
    col_entries(CONNECTION_COL_COUNT as nat, false)
}

/// Position of the first entry whose title equals `name` ignoring ASCII case,
/// or the number of entries.
pub open spec fn first_title_match(items: Seq<(usize, &'static str)>, name: Seq<char>) -> int
    decreases items.len(),
{
    if items.len() == 0 {
        0
    } else if eq_ignore_ascii_case(items[0].1@, name) {
        0
    } else {
        1 + first_title_match(items.drop_first(), name)
    }
}

/// The column of the first entry whose title equals `name` ignoring ASCII case.
pub open spec fn find_col(items: Seq<(usize, &'static str)>, name: Seq<char>) -> Option<usize> {
    let k = first_title_match(items, name);
    if 0 <= k < items.len() {
        Some(items[k].0)
    } else {
        None
    }
}

pub proof fn lemma_first_title_match(items: Seq<(usize, &'static str)>, name: Seq<char>)
    ensures
        0 <= first_title_match(items, name) <= items.len(),
        forall|j: int|
            0 <= j < first_title_match(items, name) ==> !eq_ignore_ascii_case(#[trigger] items[j].1@, name),
        first_title_match(items, name) < items.len() ==> eq_ignore_ascii_case(
            items[first_title_match(items, name)].1@,
            name,
        ),
    decreases items.len(),
{
    if items.len() > 0 && !eq_ignore_ascii_case(items[0].1@, name) {
        lemma_first_title_match(items.drop_first(), name);
        assert forall|j: int| 0 <= j < first_title_match(items, name) implies !eq_ignore_ascii_case(
            #[trigger] items[j].1@,
            name,
        ) by {
            if j > 0 {
                assert(items[j] == items.drop_first()[j - 1]);
            }
        }
    }
}

/// Titles of the entries joined with `, `.
pub open spec fn join_titles(items: Seq<(usize, &'static str)>) -> Seq<char>
    decreases items.len(),
{
    if items.len() == 0 {
        Seq::empty()
    } else if items.len() == 1 {
        items[0].1@
    } else {
        join_titles(items.drop_last()) + ", "@ + items.last().1@
    }
}

/// Why a column list was refused: empty, or the entry at a position is
/// unknown or repeated.
#[derive(Debug, Clone, Copy, PartialEq, Eq)]
pub enum ColumnsFailure {
    Empty,
    Unknown(usize),
    Duplicate(usize),
}

/// The columns of the first `k` names of a column list, or why they fail.
pub open spec fn columns_prefix(raw: Seq<String>, k: nat) -> Result<Seq<usize>, ColumnsFailure>
    decreases k,
{
    if k == 0 {
        Ok(Seq::empty())
    } else {
        match columns_prefix(raw, (k - 1) as nat) {
            Err(e) => Err(e),
            Ok(cols) => match find_col(configurable_cols(), raw[k - 1]@) {
                None => Err(ColumnsFailure::Unknown((k - 1) as usize)),
                Some(c) => if cols.contains(c) {
                    Err(ColumnsFailure::Duplicate((k - 1) as usize))
                } else {
                    Ok(cols.push(c))
                },
            },
        }
    }
}

/// The columns of a column list, or why it fails.
pub open spec fn spec_parse_columns(raw: Seq<String>) -> Result<Seq<usize>, ColumnsFailure> {
    if raw.len() == 0 {
        Err(ColumnsFailure::Empty)
    } else {
        columns_prefix(raw, raw.len())
    }
}

/// Whether `e` is the error reported for the column-list failure `f`.
pub open spec fn columns_error(raw: Seq<String>, f: ColumnsFailure, e: ConfigError) -> bool {
    match f {
        ColumnsFailure::Empty => e == ConfigError::ColumnsEmpty,
        ColumnsFailure::Unknown(k) => e matches ConfigError::UnknownColumn(x) && x@ == raw[k as int]@,
        ColumnsFailure::Duplicate(k) => e matches ConfigError::DuplicateColumn(x) && x@ == raw[k as int]@,
    }
}

/// Whether `r` is the outcome of parsing the column list `raw`.
pub open spec fn columns_outcome(raw: Seq<String>, r: Result<Vec<usize>, ConfigError>) -> bool {
    match spec_parse_columns(raw) {
        Ok(cols) => r matches Ok(v) && v@ == cols,
        Err(f) => r matches Err(e) && columns_error(raw, f, e),
    }
}

/// Why a column-width table was refused: the key at a position is unknown or
/// names a column twice.
#[derive(Debug, Clone, Copy, PartialEq, Eq)]
pub enum WidthsFailure {
    Unknown(usize),
    Duplicate(usize),
}

/// Whether `e` is the error reported for the column-width failure `f`.
pub open spec fn widths_error(raw: Seq<(String, u16)>, f: WidthsFailure, e: ConfigError) -> bool {
    match f {
        WidthsFailure::Unknown(k) => e matches ConfigError::UnknownColumnWidthKey(x) && x@ == raw[k as int].0@,
        WidthsFailure::Duplicate(k) => e matches ConfigError::DuplicateColumnWidthKey(x) && x@ == raw[k as int].0@,
    }
}

/// The widths by column of the first `k` entries, or why they fail.
pub open spec fn widths_prefix(raw: Seq<(String, u16)>, k: nat) -> Result<Map<usize, u16>, WidthsFailure>
    decreases k,
{
    if k == 0 {
        Ok(Map::empty())
    } else {
        match widths_prefix(raw, (k - 1) as nat) {
            Err(e) => Err(e),
            Ok(m) => match find_col(configurable_cols(), raw[k - 1].0@) {
                None => Err(WidthsFailure::Unknown((k - 1) as usize)),
                Some(c) => if m.contains_key(c) {
                    Err(WidthsFailure::Duplicate((k - 1) as usize))
                } else {
                    Ok(m.insert(c, raw[k - 1].1))
                },
            },
        }
    }
}

/// Position of the first column width of zero, or the number of entries.
pub open spec fn first_zero_width(raw: Seq<(String, u16)>) -> int
    decreases raw.len(),
{
    if raw.len() == 0 {
        0
    } else if raw[0].1 == 0 {
        0
    } else {
        1 + first_zero_width(raw.drop_first())
    }
}

/// The outcome of checking that no column width is zero: column widths are
/// positive numbers, and a zero is refused before anything else is read.
pub open spec fn widths_positive_outcome(raw: Seq<(String, u16)>) -> Result<(), ConfigError> {
    if first_zero_width(raw) < raw.len() {
        Err(ConfigError::ZeroColumnWidth(raw[first_zero_width(raw)].0))
    } else {
        Ok(())
    }
}

proof fn lemma_first_zero_width(raw: Seq<(String, u16)>)
    ensures
        0 <= first_zero_width(raw) <= raw.len(),
        forall|j: int| 0 <= j < first_zero_width(raw) ==> #[trigger] raw[j].1 != 0,
        first_zero_width(raw) < raw.len() ==> raw[first_zero_width(raw)].1 == 0,
    decreases raw.len(),
{
    if raw.len() > 0 && raw[0].1 != 0 {
        lemma_first_zero_width(raw.drop_first());
        assert forall|j: int| 0 <= j < first_zero_width(raw) implies #[trigger] raw[j].1 != 0 by {
            if j > 0 {
                assert(raw[j] == raw.drop_first()[j - 1]);
            }
        }
    }
}

pub proof fn lemma_first_zero_width_none(raw: Seq<(String, u16)>)
    requires
        forall|i: int| 0 <= i < raw.len() ==> #[trigger] raw[i].1 != 0,
    ensures
        first_zero_width(raw) == raw.len(),
    decreases raw.len(),
{
    if raw.len() > 0 {
        let q = raw.drop_first();
        assert forall|i: int| 0 <= i < q.len() implies #[trigger] q[i].1 != 0 by {
            assert(q[i] == raw[i + 1]);
        }
        lemma_first_zero_width_none(q);
    }
}

/// Refuses the first column width of zero.
pub fn check_column_widths_positive(raw: &Vec<(String, u16)>) -> (r: Result<(), ConfigError>)
    ensures
        match widths_positive_outcome(raw@) {
            Ok(_) => r is Ok,
            Err(ConfigError::ZeroColumnWidth(k)) => r matches Err(ConfigError::ZeroColumnWidth(x)) && x@ == k@,
            Err(_) => false,
        },
{
    proof {
        lemma_first_zero_width(raw@);
    }
    let mut i: usize = 0;
    while i < raw.len()
        invariant
            i <= raw@.len(),
            i <= first_zero_width(raw@),
            0 <= first_zero_width(raw@) <= raw@.len(),
            first_zero_width(raw@) < raw@.len() ==> raw@[first_zero_width(raw@)].1 == 0,
            forall|j: int| 0 <= j < first_zero_width(raw@) ==> #[trigger] raw@[j].1 != 0,
        decreases raw.len() - i,
    {
        if raw[i].1 == 0 {
            return Err(ConfigError::ZeroColumnWidth(raw[i].0.clone()));
        }
        i = i + 1;
    }
    Ok(())
}

/// Whether `r` is the outcome of checking `c`: a zero column width first,
/// then the column list, the sort and the column widths; the first failure
/// is reported.
pub open spec fn ui_validate_outcome(c: &ConnectionsUiConfig, r: Result<(), ConfigError>) -> bool {
    if first_zero_width(c.column_widths@) < c.column_widths@.len() {
        r matches Err(ConfigError::ZeroColumnWidth(x)) && x@ == c.column_widths@[first_zero_width(
            c.column_widths@,
        )].0@
    } else {
    match (match c.columns {
        Some(cols) => spec_parse_columns(cols@),
        None => Ok(Seq::empty()),
    }) {
        Err(f) => r matches Err(e) && columns_error(c.columns->0@, f, e),
        Ok(_) => match (match c.sort {
            Some(s) => find_col(sortable_cols(), s.field@),
            None => Some(0usize),
        }) {
            None => r matches Err(ConfigError::UnknownSortField(x)) && x@ == c.sort->0.field@,
            Some(_) => match widths_prefix(c.column_widths@, c.column_widths@.len()) {
                Err(f) => r matches Err(e) && widths_error(c.column_widths@, f, e),
                Ok(_) => r is Ok,
            },
        },
    }}
}

impl ConnectionsUiConfig {
    /// Checks the column list, the sort and the column widths, in that order.
    pub fn validate(&self) -> (r: Result<(), ConfigError>)
        ensures
            ui_validate_outcome(self, r),
    {
        check_column_widths_positive(&self.column_widths)?;
        match &self.columns {
            Some(columns) => {
                let c = Self::parse_connections_columns(columns.as_slice());
                match c {
                    Ok(_) => {},
                    Err(e) => { return Err(e); },
                }
            },
            None => {},
        }
        match &self.sort {
            Some(sort) => {
                Self::parse_connections_sort(sort)?;
            },
            None => {},
        }
        Self::parse_connections_column_widths(&self.column_widths)?;
        Ok(())
    }

    /// The sort on the named column (as a column index), or an error naming
    /// the allowed fields.
    pub fn parse_connections_sort(raw: &ConnectionsSortConfig) -> (r: Result<SortSpec, ConfigError>)
        ensures
            match find_col(sortable_cols(), raw.field@) {
                Some(col) => r == Ok::<SortSpec, ConfigError>(SortSpec { col, dir: raw.dir }),
                None => r matches Err(ConfigError::UnknownSortField(f)) && f@ == raw.field@,
            },
    {
        let sortable = Self::sortable_connection_cols();
        match Self::find_index_ignore_case(&sortable, raw.field.as_str()) {
            Some(col) => Ok(SortSpec { col, dir: raw.dir }),
            None => Err(ConfigError::UnknownSortField(raw.field.clone())),
        }
    }

    /// The column indices of a column list, in order, or why it fails.
    pub fn parse_connections_columns(raw: &[String]) -> (r: Result<Vec<usize>, ConfigError>)
        ensures
            columns_outcome(raw@, r),
    {
        if raw.len() == 0 {
            return Err(ConfigError::ColumnsEmpty);
        }
        let configurable = Self::configurable_connection_cols();
        let mut cols: Vec<usize> = Vec::new();
        let mut i: usize = 0;
        while i < raw.len()
            invariant
                configurable@ == configurable_cols(),
                i <= raw@.len(),
                columns_prefix(raw@, i as nat) == Ok::<Seq<usize>, ColumnsFailure>(cols@),
            decreases raw.len() - i,
        {
            let field = &raw[i];
            let col = match Self::find_index_ignore_case(&configurable, field.as_str()) {
                Some(c) => c,
                None => {
                    proof {
                        lemma_columns_prefix_err_stays(raw@, (i + 1) as nat, raw@.len());
                    }
                    return Err(ConfigError::UnknownColumn(field.clone()));
                },
            };
            if vec_contains(&cols, col) {
                proof {
                    lemma_columns_prefix_err_stays(raw@, (i + 1) as nat, raw@.len());
                }
                return Err(ConfigError::DuplicateColumn(field.clone()));
            }
            cols.push(col);
            i = i + 1;
        }
        Ok(cols)
    }

    /// The widths by column index of a column-width table, or why it fails.
    pub fn parse_connections_column_widths(raw: &Vec<(String, u16)>) -> (r: Result<
        std::collections::HashMap<usize, u16>,
        ConfigError,
    >)
        ensures
            first_zero_width(raw@) < raw@.len() ==> (r matches Err(ConfigError::ZeroColumnWidth(x)) && x@
                == raw@[first_zero_width(raw@)].0@),
            first_zero_width(raw@) >= raw@.len() ==> match widths_prefix(raw@, raw@.len()) {
                Ok(m) => r matches Ok(h) && h@ == m,
                Err(f) => r matches Err(e) && widths_error(raw@, f, e),
            },
    {
        broadcast use vstd::std_specs::hash::group_hash_axioms;
        match check_column_widths_positive(raw) {
            Ok(_) => {},
            Err(e) => {
                return Err(e);
            },
        }
        let configurable = Self::configurable_connection_cols();
        let mut widths: std::collections::HashMap<usize, u16> = std::collections::HashMap::new();
        let mut i: usize = 0;
        while i < raw.len()
            invariant
                configurable@ == configurable_cols(),
                i <= raw@.len(),
                first_zero_width(raw@) >= raw@.len(),
                widths_prefix(raw@, i as nat) == Ok::<Map<usize, u16>, WidthsFailure>(widths@),
            decreases raw.len() - i,
        {
            let field = &raw[i].0;
            let col = match Self::find_index_ignore_case(&configurable, field.as_str()) {
                Some(c) => c,
                None => {
                    proof {
                        lemma_widths_prefix_err_stays(raw@, (i + 1) as nat, raw@.len());
                    }
                    return Err(ConfigError::UnknownColumnWidthKey(field.clone()));
                },
            };
            if widths.contains_key(&col) {
                proof {
                    lemma_widths_prefix_err_stays(raw@, (i + 1) as nat, raw@.len());
                }
                return Err(ConfigError::DuplicateColumnWidthKey(field.clone()));
            }
            widths.insert(col, raw[i].1);
            i = i + 1;
        }
        Ok(widths)
    }

    /// The column of the first entry whose title equals `name` ignoring ASCII case.
    pub fn find_index_ignore_case(items: &Vec<(usize, &'static str)>, name: &str) -> (r: Option<usize>)
        ensures
            r == find_col(items@, name@),
    {
        proof {
            lemma_first_title_match(items@, name@);
        }
        let mut i: usize = 0;
        while i < items.len()
            invariant
                i <= items@.len(),
                i <= first_title_match(items@, name@),
                0 <= first_title_match(items@, name@) <= items@.len(),
                forall|j: int|
                    0 <= j < first_title_match(items@, name@) ==> !eq_ignore_ascii_case(
                        #[trigger] items@[j].1@,
                        name@,
                    ),
                first_title_match(items@, name@) < items@.len() ==> eq_ignore_ascii_case(
                    items@[first_title_match(items@, name@)].1@,
                    name@,
                ),
            decreases items.len() - i,
        {
            if str_eq_ignore_ascii_case(items[i].1, name) {
                return Some(items[i].0);
            }
            i = i + 1;
        }
        None
    }

    /// The columns a sort may name, with their titles.
    pub fn sortable_connection_cols() -> (r: Vec<(usize, &'static str)>)
        ensures
            r@ == sortable_cols(),
    {
        col_entries_exec(true)
    }

    /// The columns the column list and widths may name, with their titles.
    pub fn configurable_connection_cols() -> (r: Vec<(usize, &'static str)>)
        ensures
            r@ == configurable_cols(),
    {
        col_entries_exec(false)
    }

    /// Titles joined with `, `.
    pub fn join_connection_col_titles(cols: &Vec<(usize, &'static str)>) -> (r: String)
        ensures
            r@ == join_titles(cols@),
    {
        let mut s = String::new();
        let mut i: usize = 0;
        while i < cols.len()
            invariant
                i <= cols@.len(),
                s@ == join_titles(cols@.take(i as int)),
            decreases cols.len() - i,
        {
            assert(cols@.take(i + 1).drop_last() == cols@.take(i as int));
            if i > 0 {
                append_str(&mut s, ", ");
            }
            append_str(&mut s, cols[i].1);
            proof {
                if i == 0 {
                    assert(s@ == cols@.take(1)[0].1@);
                }
            }
            i = i + 1;
        }
        assert(cols@.take(cols@.len() as int) == cols@);
        s
    }
}

proof fn lemma_columns_prefix_err_stays(raw: Seq<String>, k: nat, n: nat)
    requires
        k <= n,
        columns_prefix(raw, k) is Err,
    ensures
        columns_prefix(raw, n) == columns_prefix(raw, k),
    decreases n - k,
{
    if k < n {
        lemma_columns_prefix_err_stays(raw, k, (n - 1) as nat);
    }
}

proof fn lemma_widths_prefix_err_stays(raw: Seq<(String, u16)>, k: nat, n: nat)
    requires
        k <= n,
        widths_prefix(raw, k) is Err,
    ensures
        widths_prefix(raw, n) == widths_prefix(raw, k),
    decreases n - k,
{
    if k < n {
        lemma_widths_prefix_err_stays(raw, k, (n - 1) as nat);
    }
}

/// Whether `x` occurs in `v`.
pub fn vec_contains(v: &Vec<usize>, x: usize) -> (r: bool)
    ensures
        r == v@.contains(x),
{
    let mut i: usize = 0;
    while i < v.len()
        invariant
            i <= v@.len(),
            forall|j: int| 0 <= j < i ==> v@[j] != x,
        decreases v.len() - i,
    {
        if v[i] == x {
            assert(v@[i as int] == x);
            return true;
        }
        i = i + 1;
    }
    false
}

fn col_entries_exec(sortable_only: bool) -> (r: Vec<(usize, &'static str)>)
    ensures
        r@ == col_entries(CONNECTION_COL_COUNT as nat, sortable_only),
{
    let mut r: Vec<(usize, &'static str)> = Vec::new();
    let mut i: usize = 0;
    while i < CONNECTION_COL_COUNT
        invariant
            i <= CONNECTION_COL_COUNT,
            r@ == col_entries(i as nat, sortable_only),
        decreases CONNECTION_COL_COUNT - i,
    {
        match connection_col(i) {
            Some(c) => {
                if i != ALIVE_COLUMN_INDEX && (!sortable_only || c.sortable) {
                    r.push((i, c.title));
                }
            },
            None => {},
        }
        i = i + 1;
    }
    r
}

} // verus!
