//! The columns of the connections table.
use vstd::prelude::*;

verus! {

/// A column of the connections table.
#[derive(Debug, Clone, Copy, PartialEq, Eq)]
pub struct ConnectionColumn {
    pub id: &'static str,
    pub title: &'static str,
    pub filterable: bool,
    pub sortable: bool,
}

/// Number of connection columns.
pub const CONNECTION_COL_COUNT: usize = 9;

/// Index of the `Alive` column, which the runtime always shows first and which
/// cannot be configured.
pub const ALIVE_COLUMN_INDEX: usize = 0;

/// The column at `index`, if there is one.
pub open spec fn spec_connection_col(index: int) -> Option<ConnectionColumn> {
    if index == 0 {
        Some(ConnectionColumn { id: "alive", title: "Alive", filterable: false, sortable: true })
    } else if index == 1 {
        Some(ConnectionColumn { id: "host", title: "Host", filterable: true, sortable: true })
    } else if index == 2 {
        Some(ConnectionColumn { id: "rule", title: "Rule", filterable: true, sortable: true })
    } else if index == 3 {
        Some(ConnectionColumn { id: "chains", title: "Chains", filterable: true, sortable: true })
    } else if index == 4 {
        Some(ConnectionColumn { id: "down_rate", title: "DownRate", filterable: false, sortable: true })
    } else if index == 5 {
        Some(ConnectionColumn { id: "up_rate", title: "UpRate", filterable: false, sortable: true })
    } else if index == 6 {
        Some(ConnectionColumn { id: "down_total", title: "DownTotal", filterable: false, sortable: true })
    } else if index == 7 {
        Some(ConnectionColumn { id: "up_total", title: "UpTotal", filterable: false, sortable: true })
    } else if index == 8 {
        Some(ConnectionColumn { id: "source_ip", title: "SourceIP", filterable: true, sortable: true })
    } else {
        None
    }
}

/// The title of the column at `index` (meaningful for `index < CONNECTION_COL_COUNT`).
pub open spec fn col_title(index: int) -> Seq<char> {
    spec_connection_col(index).unwrap().title@
}

/// The column at `index`, if there is one.
pub fn connection_col(index: usize) -> (r: Option<ConnectionColumn>)
    ensures
        r == spec_connection_col(index as int),
        r is Some <==> index < CONNECTION_COL_COUNT,
{
    if index == 0 {
        Some(ConnectionColumn { id: "alive", title: "Alive", filterable: false, sortable: true })
    } else if index == 1 {
        Some(ConnectionColumn { id: "host", title: "Host", filterable: true, sortable: true })
    } else if index == 2 {
        Some(ConnectionColumn { id: "rule", title: "Rule", filterable: true, sortable: true })
    } else if index == 3 {
        Some(ConnectionColumn { id: "chains", title: "Chains", filterable: true, sortable: true })
    } else if index == 4 {
        Some(ConnectionColumn { id: "down_rate", title: "DownRate", filterable: false, sortable: true })
    } else if index == 5 {
        Some(ConnectionColumn { id: "up_rate", title: "UpRate", filterable: false, sortable: true })
    } else if index == 6 {
        Some(ConnectionColumn { id: "down_total", title: "DownTotal", filterable: false, sortable: true })
    } else if index == 7 {
        Some(ConnectionColumn { id: "up_total", title: "UpTotal", filterable: false, sortable: true })
    } else if index == 8 {
        Some(ConnectionColumn { id: "source_ip", title: "SourceIP", filterable: true, sortable: true })
    } else {
        None
    }
}

/// The columns shown when none are configured: every column but `SourceIP`,
/// starting with `Alive`.
pub open spec fn spec_default_col_indices() -> Seq<usize> {
    seq![0usize, 1, 2, 3, 4, 5, 6, 7]
}

/// The columns shown when none are configured.
pub fn default_connection_col_indices() -> (r: Vec<usize>)
    ensures
        r@ == spec_default_col_indices(),
{
    let r = vec![0usize, 1, 2, 3, 4, 5, 6, 7];
    assert(r@ =~= spec_default_col_indices());
    r
}

/// `columns` without `Alive`.
pub open spec fn without_alive(columns: Seq<usize>) -> Seq<usize>
    decreases columns.len(),
{
    if columns.len() == 0 {
        columns
    } else {
        let prev = without_alive(columns.drop_last());
        if columns.last() == ALIVE_COLUMN_INDEX {
            prev
        } else {
            prev.push(columns.last())
        }
    }
}

/// The visible columns of the runtime table: `Alive` first, then the others in order.
pub open spec fn spec_with_alive_column(columns: Seq<usize>) -> Seq<usize> {
    seq![ALIVE_COLUMN_INDEX] + without_alive(columns)
}

/// Puts `Alive` in front of the user's columns (dropping any other `Alive`).
pub fn with_alive_column(columns: Vec<usize>) -> (r: Vec<usize>)
    ensures
        r@ == spec_with_alive_column(columns@),
{
    let mut r: Vec<usize> = Vec::new();
    r.push(ALIVE_COLUMN_INDEX);
    let mut i: usize = 0;
    while i < columns.len()
        invariant
            i <= columns@.len(),
            r@ == seq![ALIVE_COLUMN_INDEX] + without_alive(columns@.take(i as int)),
        decreases columns.len() - i,
    {
        assert(columns@.take(i + 1).drop_last() == columns@.take(i as int));
        if columns[i] != ALIVE_COLUMN_INDEX {
            r.push(columns[i]);
            assert(r@ == seq![ALIVE_COLUMN_INDEX] + without_alive(columns@.take(i + 1)));
        }
        i = i + 1;
    }
    assert(columns@.take(columns@.len() as int) == columns@);
    r
}

} // verus!
