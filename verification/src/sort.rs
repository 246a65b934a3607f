//! Sort direction and the search/sort state of a table view.
use vstd::prelude::*;

verus! {

/// Direction of a sort.
#[derive(Debug, Clone, Copy, PartialEq, Eq, Structural)]
pub enum SortDir {
    Asc,
    Desc,
}

impl SortDir {
    /// The opposite direction.
    pub fn toggle(self) -> (r: Self)
        ensures
            r != self,
    {
        match self {
            SortDir::Asc => SortDir::Desc,
            SortDir::Desc => SortDir::Asc,
        }
    }
}

impl Default for SortDir {
    fn default() -> (r: Self)
        ensures
            r == SortDir::Desc,
    {
        SortDir::Desc
    }
}

/// A sort on the column at position `col` of the visible columns.
#[derive(Debug, Clone, Copy, PartialEq, Eq, Structural)]
pub struct SortSpec {
    pub col: usize,
    pub dir: SortDir,
}

/// Filter pattern and sort of a table, with the number of columns that a
/// sort can be placed on.
#[derive(Debug, Clone, PartialEq)]
pub struct SearchState {
    pub pattern: Option<String>,
    pub sort: Option<SortSpec>,
    /// Maximum number of sortable columns, for column navigation
    pub max_cols: usize,
}

/// The sort after moving to the next column of `max_cols`.
pub open spec fn next_sort(sort: Option<SortSpec>, max_cols: usize) -> Option<SortSpec> {
    if max_cols == 0 {
        sort
    } else {
        match sort {
            Some(s) => Some(SortSpec { col: ((s.col + 1) % (max_cols as int)) as usize, dir: s.dir }),
            None => Some(SortSpec { col: 0, dir: SortDir::Desc }),
        }
    }
}

/// The sort after moving to the previous column of `max_cols`.
pub open spec fn prev_sort(sort: Option<SortSpec>, max_cols: usize) -> Option<SortSpec> {
    if max_cols == 0 {
        sort
    } else {
        match sort {
            Some(s) => Some(
                SortSpec { col: ((s.col + max_cols - 1) % (max_cols as int)) as usize, dir: s.dir },
            ),
            None => Some(SortSpec { col: (max_cols - 1) as usize, dir: SortDir::Asc }),
        }
    }
}

/// The sort with its direction reversed.
pub open spec fn reversed_sort(sort: Option<SortSpec>) -> Option<SortSpec> {
    match sort {
        Some(s) => Some(
            SortSpec { col: s.col, dir: if s.dir == SortDir::Asc { SortDir::Desc } else { SortDir::Asc } },
        ),
        None => None,
    }
}

/// Whether the sort, if any, is on one of the `max_cols` columns.
pub open spec fn sort_in_range(sort: Option<SortSpec>, max_cols: usize) -> bool {
    sort matches Some(s) ==> s.col < max_cols
}

impl SearchState {
    /// A state without pattern or sort.
    pub fn new(max_cols: usize) -> (r: Self)
        ensures
            r.pattern is None,
            r.sort is None,
            r.max_cols == max_cols,
    {
        Self { pattern: None, sort: None, max_cols }
    }

    /// Reverses the direction of the current sort, if any.
    pub fn sort_rev(&mut self)
        ensures
            final(self).pattern == old(self).pattern,
            final(self).max_cols == old(self).max_cols,
            final(self).sort == reversed_sort(old(self).sort),
    {
        match self.sort {
            Some(s) => {
                self.sort = Some(SortSpec { col: s.col, dir: s.dir.toggle() });
            },
            None => {},
        }
    }

    /// Moves the sort to the next column, wrapping around; starts at the
    /// first column, in the default direction, when there is no sort.
    pub fn sort_next(&mut self)
        requires
            old(self).max_cols > 0 ==> (old(self).sort matches Some(s) ==> s.col < usize::MAX),
        ensures
            final(self).pattern == old(self).pattern,
            final(self).max_cols == old(self).max_cols,
            final(self).sort == next_sort(old(self).sort, old(self).max_cols),
            old(self).max_cols > 0 ==> sort_in_range(final(self).sort, final(self).max_cols),
            sort_in_range(old(self).sort, old(self).max_cols) ==> sort_in_range(
                final(self).sort,
                final(self).max_cols,
            ),
    {
        if self.max_cols == 0 {
            return;
        }
        match self.sort {
            Some(s) => {
                proof {
                    vstd::arithmetic::div_mod::lemma_mod_bound((s.col + 1) as int, self.max_cols as int);
                }
                self.sort = Some(SortSpec { col: (s.col + 1) % self.max_cols, dir: s.dir });
            },
            None => {
                self.sort = Some(SortSpec { col: 0, dir: SortDir::default() });
            },
        }
    }

    /// Moves the sort to the previous column, wrapping around; starts at the
    /// last column, ascending, when there is no sort.
    pub fn sort_prev(&mut self)
        requires
            old(self).sort matches Some(s) ==> s.col + old(self).max_cols <= usize::MAX,
        ensures
            final(self).pattern == old(self).pattern,
            final(self).max_cols == old(self).max_cols,
            final(self).sort == prev_sort(old(self).sort, old(self).max_cols),
            old(self).max_cols > 0 ==> sort_in_range(final(self).sort, final(self).max_cols),
            sort_in_range(old(self).sort, old(self).max_cols) ==> sort_in_range(
                final(self).sort,
                final(self).max_cols,
            ),
    {
        if self.max_cols == 0 {
            return;
        }
        match self.sort {
            Some(s) => {
                proof {
                    vstd::arithmetic::div_mod::lemma_mod_bound(
                        (s.col + self.max_cols - 1) as int,
                        self.max_cols as int,
                    );
                }
                self.sort = Some(SortSpec { col: (s.col + self.max_cols - 1) % self.max_cols, dir: s.dir });
            },
            None => {
                self.sort = Some(SortSpec { col: self.max_cols - 1, dir: SortDir::Asc });
            },
        }
    }
}

/// Moving an existing sort to the next column and then to the previous one
/// restores it.
pub proof fn law_sort_next_then_prev(sort: SortSpec, max_cols: usize)
    requires
        sort.col < max_cols,
    ensures
        prev_sort(next_sort(Some(sort), max_cols), max_cols) == Some(sort),
{
    let m = max_cols as int;
    let c = sort.col as int;
    if c + 1 < m {
        vstd::arithmetic::div_mod::lemma_small_mod((c + 1) as nat, m as nat);
        vstd::arithmetic::div_mod::lemma_mod_add_multiples_vanish(c, m);
        vstd::arithmetic::div_mod::lemma_small_mod(c as nat, m as nat);
    } else {
        vstd::arithmetic::div_mod::lemma_mod_self_0(m);
        vstd::arithmetic::div_mod::lemma_small_mod((m - 1) as nat, m as nat);
    }
}

/// Moving an existing sort to the previous column and then to the next one
/// restores it.
pub proof fn law_sort_prev_then_next(sort: SortSpec, max_cols: usize)
    requires
        sort.col < max_cols,
    ensures
        next_sort(prev_sort(Some(sort), max_cols), max_cols) == Some(sort),
{
    let m = max_cols as int;
    let c = sort.col as int;
    if c > 0 {
        vstd::arithmetic::div_mod::lemma_mod_add_multiples_vanish(c - 1, m);
        vstd::arithmetic::div_mod::lemma_small_mod((c - 1) as nat, m as nat);
        vstd::arithmetic::div_mod::lemma_small_mod(c as nat, m as nat);
    } else {
        vstd::arithmetic::div_mod::lemma_small_mod((m - 1) as nat, m as nat);
        vstd::arithmetic::div_mod::lemma_mod_self_0(m);
    }
}

/// Reversing the sort direction twice restores the sort.
pub proof fn law_sort_rev_involution(sort: Option<SortSpec>)
    ensures
        reversed_sort(reversed_sort(sort)) == sort,
{
}

} // verus!
