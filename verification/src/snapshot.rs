//! What a saved snapshot of the connections settings gives back when the
//! configuration is read again.
use vstd::prelude::*;
use crate::columns::{
    ALIVE_COLUMN_INDEX, CONNECTION_COL_COUNT, spec_connection_col, spec_with_alive_column,
    without_alive,
};
use crate::config::{
    ColumnsFailure, ConnectionsUiConfig, WidthsFailure, col_entries, columns_prefix,
    configurable_cols, find_col, first_title_match, lemma_first_title_match, sortable_cols,
    spec_parse_columns, ui_validate_outcome, widths_prefix, lemma_first_zero_width_none,
};
use crate::connections_setting::{
    ConnectionsSetting, config_columns, config_sort, lemma_position_of, position_of, ui_config_of,
    visible_titles, width_entries, lemma_width_entries_positive,
};
use crate::sort::SortSpec;
use crate::text::{ascii_lower_code, eq_ignore_ascii_case};

verus! {

/// The title of a column, as a character sequence.
pub open spec fn title_of(c: int) -> Seq<char> {
    spec_connection_col(c)->0.title@
}

/// The configurable columns with their titles, in order.
pub open spec fn title_table() -> Seq<(usize, &'static str)> {
    seq![
        (1usize, "Host"),
        (2usize, "Rule"),
        (3usize, "Chains"),
        (4usize, "DownRate"),
        (5usize, "UpRate"),
        (6usize, "DownTotal"),
        (7usize, "UpTotal"),
        (8usize, "SourceIP"),
    ]
}

proof fn lemma_col_tables()
    ensures
        configurable_cols() == title_table(),
        sortable_cols() == title_table(),
{
    reveal_with_fuel(col_entries, 10);
    assert(configurable_cols() =~= title_table());
    assert(sortable_cols() =~= title_table());
}

/// Length of a configurable column's title.
spec fn title_len(c: int) -> int {
    if c == 1 || c == 2 {
        4
    } else if c == 3 || c == 5 {
        6
    } else if c == 4 || c == 8 {
        8
    } else if c == 6 {
        9
    } else {
        7
    }
}

/// Lower-cased first letter of a configurable column's title.
spec fn title_initial(c: int) -> u32 {
    if c == 1 {
        104
    } else if c == 2 {
        114
    } else if c == 3 {
        99
    } else if c == 4 || c == 6 {
        100
    } else if c == 5 || c == 7 {
        117
    } else {
        115
    }
}

proof fn lemma_title_shape(c: int)
    requires
        1 <= c < CONNECTION_COL_COUNT,
    ensures
        title_of(c).len() == title_len(c),
        ascii_lower_code(title_of(c)[0]) == title_initial(c),
{
    reveal_strlit("Host");
    reveal_strlit("Rule");
    reveal_strlit("Chains");
    reveal_strlit("DownRate");
    reveal_strlit("UpRate");
    reveal_strlit("DownTotal");
    reveal_strlit("UpTotal");
    reveal_strlit("SourceIP");
}

/// No two configurable columns have titles equal up to ASCII case.
proof fn lemma_titles_distinct(i: int, j: int)
    requires
        1 <= i < CONNECTION_COL_COUNT,
        1 <= j < CONNECTION_COL_COUNT,
        eq_ignore_ascii_case(title_of(i), title_of(j)),
    ensures
        i == j,
{
    lemma_title_shape(i);
    lemma_title_shape(j);
    assert(ascii_lower_code(title_of(i)[0]) == ascii_lower_code(title_of(j)[0]));
}

/// A configurable column is found by its own title, among the configurable
/// and among the sortable columns.
pub proof fn lemma_find_by_title(c: usize)
    requires
        1 <= c < CONNECTION_COL_COUNT,
    ensures
        find_col(configurable_cols(), title_of(c as int)) == Some(c),
        find_col(sortable_cols(), title_of(c as int)) == Some(c),
{
    lemma_col_tables();
    let t = title_table();
    let name = title_of(c as int);
    lemma_first_title_match(t, name);
    let k = first_title_match(t, name);
    assert forall|j: int| 0 <= j < t.len() implies t[j].0 == j + 1 && #[trigger] t[j].1@ == title_of(j + 1) by {}
    assert(eq_ignore_ascii_case(t[c - 1].1@, name));
    assert(k <= c - 1);
    assert(eq_ignore_ascii_case(t[k].1@, name));
    lemma_titles_distinct(k + 1, c as int);
}

proof fn lemma_visible_titles(rest: Seq<usize>)
    requires
        forall|i: int| 0 <= i < rest.len() ==> 1 <= #[trigger] rest[i] < CONNECTION_COL_COUNT,
    ensures
        visible_titles(seq![ALIVE_COLUMN_INDEX] + rest) == rest.map_values(|c: usize| title_of(c as int)),
    decreases rest.len(),
{
    let f = |c: usize| title_of(c as int);
    if rest.len() == 0 {
        reveal_with_fuel(visible_titles, 2);
        assert(seq![ALIVE_COLUMN_INDEX] + rest =~= seq![ALIVE_COLUMN_INDEX]);
        assert(seq![ALIVE_COLUMN_INDEX].drop_last() =~= Seq::<usize>::empty());
        assert(rest.map_values(f) =~= Seq::<Seq<char>>::empty());
    } else {
        lemma_visible_titles(rest.drop_last());
        assert(1 <= rest[rest.len() - 1] < CONNECTION_COL_COUNT);
        assert((seq![ALIVE_COLUMN_INDEX] + rest).drop_last() =~= seq![ALIVE_COLUMN_INDEX] + rest.drop_last());
        assert(rest.map_values(f) =~= rest.drop_last().map_values(f).push(title_of(rest.last() as int)));
    }
}

proof fn lemma_without_alive(rest: Seq<usize>)
    requires
        forall|i: int| 0 <= i < rest.len() ==> #[trigger] rest[i] != ALIVE_COLUMN_INDEX,
    ensures
        without_alive(rest) == rest,
    decreases rest.len(),
{
    if rest.len() > 0 {
        lemma_without_alive(rest.drop_last());
        assert(rest.drop_last().push(rest.last()) =~= rest);
    }
}

proof fn lemma_columns_prefix(raw: Seq<String>, rest: Seq<usize>, k: nat)
    requires
        raw.len() == rest.len(),
        k <= rest.len(),
        forall|i: int| 0 <= i < rest.len() ==> 1 <= #[trigger] rest[i] < CONNECTION_COL_COUNT,
        forall|i: int| 0 <= i < rest.len() ==> #[trigger] raw[i]@ == title_of(rest[i] as int),
        rest.no_duplicates(),
    ensures
        columns_prefix(raw, k) == Ok::<Seq<usize>, ColumnsFailure>(rest.take(k as int)),
    decreases k,
{
    if k > 0 {
        lemma_columns_prefix(raw, rest, (k - 1) as nat);
        let c = rest[k - 1];
        lemma_find_by_title(c);
        assert(raw[k - 1]@ == title_of(c as int));
        if rest.take(k - 1).contains(c) {
            let w = choose|w: int| 0 <= w < k - 1 && #[trigger] rest.take(k - 1)[w] == c;
            assert(rest[w] == rest[k - 1]);
        }
        assert(rest.take(k - 1).push(c) =~= rest.take(k as int));
    } else {
        assert(rest.take(0) =~= Seq::<usize>::empty());
    }
}

/// The width table restricted to the configurable columns below `n`.
spec fn widths_below(m: Map<usize, u16>, n: nat) -> Map<usize, u16> {
    Map::new(|k: usize| 1 <= k < n && m.contains_key(k), |k: usize| m[k])
}

proof fn lemma_width_entries_prefix(m: Map<usize, u16>, n: nat, n2: nat)
    requires
        n <= n2,
    ensures
        width_entries(m, n).len() <= width_entries(m, n2).len(),
        width_entries(m, n2).take(width_entries(m, n).len() as int) == width_entries(m, n),
    decreases n2,
{
    if n2 > n {
        lemma_width_entries_prefix(m, n, (n2 - 1) as nat);
        let a = width_entries(m, (n2 - 1) as nat);
        let l = width_entries(m, n).len() as int;
        if width_entries(m, n2) != a {
            assert(a.push(width_entries(m, n2).last()).take(l) =~= a.take(l));
        }
    } else {
        assert(width_entries(m, n2).take(width_entries(m, n).len() as int) =~= width_entries(m, n));
    }
}

proof fn lemma_widths_prefix(raw: Seq<(String, u16)>, m: Map<usize, u16>, n: nat)
    requires
        n <= CONNECTION_COL_COUNT,
        raw.map_values(|e: (String, u16)| (e.0@, e.1)) == width_entries(m, CONNECTION_COL_COUNT as nat),
    ensures
        widths_prefix(raw, width_entries(m, n).len()) == Ok::<Map<usize, u16>, WidthsFailure>(
            widths_below(m, n),
        ),
    decreases n,
{
    if n > 0 {
        lemma_widths_prefix(raw, m, (n - 1) as nat);
        let c = (n - 1) as usize;
        if c != ALIVE_COLUMN_INDEX && m.contains_key(c) {
            let l = width_entries(m, (n - 1) as nat).len();
            lemma_width_entries_prefix(m, n, CONNECTION_COL_COUNT as nat);
            let full = width_entries(m, CONNECTION_COL_COUNT as nat);
            assert(full.take(width_entries(m, n).len() as int)[l as int] == full[l as int]);
            assert(raw.map_values(|e: (String, u16)| (e.0@, e.1))[l as int] == (raw[l as int].0@, raw[l as int].1));
            lemma_find_by_title(c);
            assert(widths_below(m, (n - 1) as nat).insert(c, m[c]) =~= widths_below(m, n));
        } else {
            assert(widths_below(m, (n - 1) as nat) =~= widths_below(m, n));
        }
    } else {
        assert(widths_below(m, 0) =~= Map::<usize, u16>::empty());
    }
}

/// The settings a running connections table can hold: `Alive` first, then
/// at least one other column, all distinct; a sort on a visible column other
/// than `Alive`; positive widths, only for configurable columns.
pub open spec fn saved_settings_wf(s: ConnectionsSetting) -> bool {
    &&& s.columns@.len() >= 2
    &&& s.columns@[0] == ALIVE_COLUMN_INDEX
    &&& forall|i: int| 1 <= i < s.columns@.len() ==> 1 <= #[trigger] s.columns@[i] < CONNECTION_COL_COUNT
    &&& s.columns@.no_duplicates()
    &&& s.query_state.sort matches Some(x) ==> 1 <= x.col < s.columns@.len()
    &&& forall|k: usize| #[trigger] s.column_widths@.contains_key(k) ==> 1 <= k < CONNECTION_COL_COUNT
        && s.column_widths@[k] > 0
}

/// What the sidecar keeps of the connections settings is what the next
/// start restores: the snapshot passes the configuration checks and gives
/// back the same visible columns, sort, column widths and aliases.
pub proof fn law_snapshot_restores_settings(s: ConnectionsSetting, c: ConnectionsUiConfig)
    requires
        saved_settings_wf(s),
        ui_config_of(s, c),
    ensures
        ui_validate_outcome(&c, Ok(())),
        config_columns(&c) == s.columns@,
        config_sort(&c) == s.query_state.sort,
        widths_prefix(c.column_widths@, c.column_widths@.len()) == Ok::<Map<usize, u16>, WidthsFailure>(
            s.column_widths@,
        ),
        c.source_ip_alias@ == s.source_ip_alias@,
{
    let cols = s.columns@;
    let rest = cols.drop_first();
    assert(seq![ALIVE_COLUMN_INDEX] + rest =~= cols);
    assert forall|i: int| 0 <= i < rest.len() implies 1 <= #[trigger] rest[i] < CONNECTION_COL_COUNT by {
        assert(rest[i] == cols[i + 1]);
    }
    assert(rest.no_duplicates()) by {
        assert forall|i: int, j: int| 0 <= i < rest.len() && 0 <= j < rest.len() && i != j implies rest[i]
            != rest[j] by {
            assert(rest[i] == cols[i + 1] && rest[j] == cols[j + 1]);
        }
    }
    lemma_visible_titles(rest);
    lemma_without_alive(rest);
    let raw = c.columns->0@;
    assert(raw.map_values(|t: String| t@) == rest.map_values(|x: usize| title_of(x as int)));
    assert(raw.len() == rest.len()) by {
        assert(raw.map_values(|t: String| t@).len() == raw.len());
    }
    assert forall|i: int| 0 <= i < rest.len() implies #[trigger] raw[i]@ == title_of(rest[i] as int) by {
        assert(raw.map_values(|t: String| t@)[i] == raw[i]@);
        assert(rest.map_values(|x: usize| title_of(x as int))[i] == title_of(rest[i] as int));
    }
    lemma_columns_prefix(raw, rest, rest.len());
    assert(rest.take(rest.len() as int) =~= rest);
    assert(spec_parse_columns(raw) == Ok::<Seq<usize>, ColumnsFailure>(rest));
    assert(config_columns(&c) == cols);
    match s.query_state.sort {
        Some(x) => {
            let col = cols[x.col as int];
            assert(col == rest[x.col - 1]);
            lemma_find_by_title(col);
            assert(cols.len() == s.columns.len());
            lemma_position_of(cols, col);
            let p = position_of(cols, col)->0;
            assert(p == x.col);
            assert(config_sort(&c) == Some(SortSpec { col: x.col, dir: x.dir }));
        },
        None => {},
    }
    let m = s.column_widths@;
    lemma_width_entries_positive(m, CONNECTION_COL_COUNT as nat);
    let cw = c.column_widths@;
    assert forall|i: int| 0 <= i < cw.len() implies #[trigger] cw[i].1 != 0 by {
        assert(cw.map_values(|e: (String, u16)| (e.0@, e.1))[i] == (cw[i].0@, cw[i].1));
        assert(cw.map_values(|e: (String, u16)| (e.0@, e.1)).len() == cw.len());
        assert(width_entries(m, CONNECTION_COL_COUNT as nat)[i].1 > 0);
    }
    lemma_first_zero_width_none(cw);
    lemma_widths_prefix(c.column_widths@, m, CONNECTION_COL_COUNT as nat);
    assert(c.column_widths@.len() == width_entries(m, CONNECTION_COL_COUNT as nat).len()) by {
        assert(c.column_widths@.map_values(|e: (String, u16)| (e.0@, e.1)).len() == c.column_widths@.len());
    }
    assert(widths_below(m, CONNECTION_COL_COUNT as nat) =~= m);
}

} // verus!
