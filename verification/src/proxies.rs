//! The proxy groups: their latencies, their members' latency qualities and
//! the order in which they are listed.
use vstd::prelude::*;
use std::sync::Arc;

verus! {

/// How a latency compares with the threshold `(good, bad)`.
#[derive(Debug, Clone, Copy, PartialEq, Eq, Structural)]
pub enum LatencyQuality {
    /// Below `good`.
    Good,
    /// From `good` up to below `bad`.
    Medium,
    /// At least `bad`.
    Bad,
    /// Not tested, or the test failed (a delay of 0).
    Unknown,
}

/// Number of latency qualities.
pub const QUALITY_COUNT: usize = 4;

/// The quality of a latency.
pub open spec fn spec_quality(latency: Option<u64>, threshold: (u64, u64)) -> LatencyQuality {
    match latency {
        None => LatencyQuality::Unknown,
        Some(d) => if d == 0 {
            LatencyQuality::Unknown
        } else if d < threshold.0 {
            LatencyQuality::Good
        } else if d < threshold.1 {
            LatencyQuality::Medium
        } else {
            LatencyQuality::Bad
        },
    }
}

/// The position of a quality in a table of counts.
pub open spec fn spec_quality_index(q: LatencyQuality) -> usize {
    match q {
        LatencyQuality::Good => 0,
        LatencyQuality::Medium => 1,
        LatencyQuality::Bad => 2,
        LatencyQuality::Unknown => 3,
    }
}

impl LatencyQuality {
    /// The quality of a latency.
    pub fn of(latency: Option<u64>, threshold: (u64, u64)) -> (r: Self)
        ensures
            r == spec_quality(latency, threshold),
    {
        match latency {
            None => LatencyQuality::Unknown,
            Some(d) => if d == 0 {
                LatencyQuality::Unknown
            } else if d < threshold.0 {
                LatencyQuality::Good
            } else if d < threshold.1 {
                LatencyQuality::Medium
            } else {
                LatencyQuality::Bad
            },
        }
    }

    /// The position of the quality in a table of counts.
    pub fn index(self) -> (r: usize)
        ensures
            r == spec_quality_index(self),
            r < QUALITY_COUNT,
    {
        match self {
            LatencyQuality::Good => 0,
            LatencyQuality::Medium => 1,
            LatencyQuality::Bad => 2,
            LatencyQuality::Unknown => 3,
        }
    }
}

/// A proxy or a proxy group, as the API lists it.
#[derive(Debug, Clone)]
pub struct Proxy {
    pub name: String,
    pub hidden: Option<bool>,
    /// The members of a group.
    pub children: Option<Vec<String>>,
    /// The member a group uses.
    pub selected: Option<String>,
    /// Delays of past tests, oldest first.
    pub history: Vec<u64>,
    pub latency: Option<u64>,
}

/// Position of the first proxy named `name`.
pub open spec fn find_name(ps: Seq<Proxy>, name: Seq<char>) -> Option<int>
    decreases ps.len(),
{
    if ps.len() == 0 {
        None
    } else if ps[0].name@ == name {
        Some(0)
    } else {
        match find_name(ps.drop_first(), name) {
            Some(i) => Some(i + 1),
            None => None,
        }
    }
}

/// Whether no two proxies share a name, as the keys of the API's map of
/// proxies by name never do.
pub open spec fn names_unique(ps: Seq<Proxy>) -> bool {
    forall|i: int, j: int| 0 <= i < j < ps.len() ==> #[trigger] ps[i].name@ != #[trigger] ps[j].name@
}

pub proof fn lemma_find_name(ps: Seq<Proxy>, name: Seq<char>)
    ensures
        find_name(ps, name) matches Some(i) ==> 0 <= i < ps.len() && ps[i].name@ == name && forall|j: int|
            0 <= j < i ==> #[trigger] ps[j].name@ != name,
        find_name(ps, name) is None ==> forall|j: int| 0 <= j < ps.len() ==> #[trigger] ps[j].name@ != name,
    decreases ps.len(),
{
    if ps.len() > 0 && ps[0].name@ != name {
        lemma_find_name(ps.drop_first(), name);
        assert forall|j: int| 0 < j < ps.len() implies #[trigger] ps[j].name@ == ps.drop_first()[j - 1].name@ by {}
    }
}

/// The delay of the last test, if any.
pub open spec fn last_delay(p: Proxy) -> Option<u64> {
    if p.history@.len() == 0 {
        None
    } else {
        Some(p.history@.last())
    }
}

/// Whether a proxy takes its latency from its selected member: a group with
/// a selection and no latency yet.
pub open spec fn follows_selection(p: Proxy) -> bool {
    p.latency is None && p.selected is Some && p.children is Some
}

/// The latency of proxy `i`: its own when it has one; for a group, that of
/// the member it uses (none when that member is not listed); otherwise the
/// delay of its last test. `fuel` bounds the chain of selections followed.
pub open spec fn resolved_latency(ps: Seq<Proxy>, i: int, fuel: nat) -> Option<u64>
    decreases fuel,
{
    let p = ps[i];
    if p.latency is Some {
        p.latency
    } else if follows_selection(p) {
        match find_name(ps, p.selected->0@) {
            Some(j) => if fuel == 0 {
                None
            } else {
                resolved_latency(ps, j, (fuel - 1) as nat)
            },
            None => None,
        }
    } else {
        last_delay(p)
    }
}

/// Whether the chain of selections from proxy `i` ends within `fuel` steps.
pub open spec fn settles(ps: Seq<Proxy>, i: int, fuel: nat) -> bool
    decreases fuel,
{
    let p = ps[i];
    if follows_selection(p) {
        match find_name(ps, p.selected->0@) {
            Some(j) => fuel > 0 && settles(ps, j, (fuel - 1) as nat),
            None => true,
        }
    } else {
        true
    }
}

/// No chain of selections runs in a circle.
pub open spec fn selections_settle(ps: Seq<Proxy>) -> bool {
    forall|i: int| 0 <= i < ps.len() ==> #[trigger] settles(ps, i, ps.len())
}

/// The proxy with its latency replaced.
pub open spec fn with_latency(p: Proxy, l: Option<u64>) -> Proxy {
    Proxy { latency: l, ..p }
}

/// Position of the first proxy named `name`.
pub fn find_proxy(ps: &Vec<Proxy>, name: &String) -> (r: Option<usize>)
    ensures
        r matches Some(i) ==> find_name(ps@, name@) == Some(i as int) && i < ps@.len(),
        r is None ==> find_name(ps@, name@) is None,
{
    proof {
        lemma_find_name(ps@, name@);
    }
    let mut i: usize = 0;
    while i < ps.len()
        invariant
            i <= ps@.len(),
            forall|j: int| 0 <= j < i ==> #[trigger] ps@[j].name@ != name@,
            find_name(ps@, name@) matches Some(k) ==> i <= k,
        decreases ps.len() - i,
    {
        proof {
            lemma_find_name(ps@, name@);
        }
        if ps[i].name == *name {
            return Some(i);
        }
        i = i + 1;
    }
    proof {
        lemma_find_name(ps@, name@);
    }
    None
}

/// The latency proxy `i` ends up with.
fn resolve(ps: &Vec<Proxy>, i: usize) -> (r: Option<u64>)
    requires
        i < ps@.len(),
        settles(ps@, i as int, ps@.len()),
    ensures
        r == resolved_latency(ps@, i as int, ps@.len()),
{
    let mut cur: usize = i;
    let mut fuel: usize = ps.len();
    loop
        invariant
            cur < ps@.len(),
            fuel <= ps@.len(),
            settles(ps@, cur as int, fuel as nat),
            resolved_latency(ps@, i as int, ps@.len()) == resolved_latency(ps@, cur as int, fuel as nat),
        decreases fuel,
    {
        let p = &ps[cur];
        if p.latency.is_some() {
            return p.latency;
        }
        match (&p.selected, p.children.is_some()) {
            (Some(sel), true) => {
                proof {
                    lemma_find_name(ps@, sel@);
                }
                match find_proxy(ps, sel) {
                    Some(j) => {
                        cur = j;
                        fuel = fuel - 1;
                    },
                    None => {
                        return None;
                    },
                }
            },
            _ => {
                let n = p.history.len();
                if n == 0 {
                    return None;
                } else {
                    return Some(p.history[n - 1]);
                }
            },
        }
    }
}

/// The proxies with their latencies resolved, as `update_delay` leaves them.
pub open spec fn resolved_all(ps: Seq<Proxy>) -> Seq<Proxy> {
    Seq::new(ps.len(), |i: int| with_latency(ps[i], resolved_latency(ps, i, ps.len())))
}

/// The proxies to list: groups with members that are not hidden.
pub open spec fn listed(p: Proxy) -> bool {
    !(p.hidden == Some(true) || p.children is None || p.children->0@.len() == 0)
}

/// A group with the count of its members of each latency quality.
#[derive(Debug)]
pub struct ProxyView {
    pub proxy: Arc<Proxy>,
    /// Counts by `LatencyQuality::index`.
    pub quality_stats: Vec<usize>,
}

/// The counts of each quality among the members `names`, looked up in `ps`
/// (a member that is not listed counts as untested).
pub open spec fn quality_counts(ps: Seq<Proxy>, names: Seq<String>, threshold: (u64, u64)) -> Seq<nat>
    decreases names.len(),
{
    if names.len() == 0 {
        seq![0nat, 0nat, 0nat, 0nat]
    } else {
        let prev = quality_counts(ps, names.drop_last(), threshold);
        let l = match find_name(ps, names.last()@) {
            Some(j) => ps[j].latency,
            None => None,
        };
        let k = spec_quality_index(spec_quality(l, threshold)) as int;
        prev.update(k, prev[k] + 1)
    }
}

/// The members of a group.
pub open spec fn members(p: Proxy) -> Seq<String> {
    match p.children {
        Some(c) => c@,
        None => Seq::empty(),
    }
}

proof fn lemma_quality_counts_len(ps: Seq<Proxy>, names: Seq<String>, threshold: (u64, u64))
    ensures
        quality_counts(ps, names, threshold).len() == QUALITY_COUNT,
        forall|k: int| 0 <= k < QUALITY_COUNT ==> #[trigger] quality_counts(ps, names, threshold)[k] <= names.len(),
    decreases names.len(),
{
    if names.len() > 0 {
        lemma_quality_counts_len(ps, names.drop_last(), threshold);
    }
}

/// The members named in `names` that are listed, in order.
pub open spec fn found_members(ps: Seq<Proxy>, names: Seq<String>) -> Seq<Proxy>
    decreases names.len(),
{
    if names.len() == 0 {
        Seq::empty()
    } else {
        let prev = found_members(ps, names.drop_last());
        match find_name(ps, names.last()@) {
            Some(j) => prev.push(ps[j]),
            None => prev,
        }
    }
}

/// The position by which a group is listed: the last place it holds among
/// the members of `GLOBAL`, or after all of them.
pub open spec fn list_key(order: Seq<String>, name: Seq<char>) -> int
    decreases order.len(),
{
    if order.len() == 0 {
        usize::MAX as int
    } else if order.last()@ == name {
        order.len() - 1
    } else {
        list_key(order.drop_last(), name)
    }
}

/// The members of `GLOBAL`, which give the listing order.
pub open spec fn global_order(ps: Seq<Proxy>) -> Seq<String> {
    match find_name(ps, "GLOBAL"@) {
        Some(g) => members(ps[g]),
        None => Seq::empty(),
    }
}

/// `s` with `x` put after every element whose key is not greater.
pub open spec fn sorted_insert(s: Seq<Proxy>, x: Proxy, order: Seq<String>) -> Seq<Proxy>
    decreases s.len(),
{
    if s.len() == 0 {
        seq![x]
    } else if list_key(order, s.last().name@) <= list_key(order, x.name@) {
        s.push(x)
    } else {
        sorted_insert(s.drop_last(), x, order).push(s.last())
    }
}

/// `s` sorted by key, keeping the order of equal keys.
pub open spec fn stable_sorted(s: Seq<Proxy>, order: Seq<String>) -> Seq<Proxy>
    decreases s.len(),
{
    if s.len() == 0 {
        s
    } else {
        sorted_insert(stable_sorted(s.drop_last(), order), s.last(), order)
    }
}

/// Whether the proxies are in ascending order of their keys.
pub open spec fn keys_sorted(s: Seq<Proxy>, order: Seq<String>) -> bool {
    forall|i: int, j: int|
        0 <= i < j < s.len() ==> list_key(order, #[trigger] s[i].name@) <= list_key(order, #[trigger] s[j].name@)
}

proof fn lemma_sorted_insert(s: Seq<Proxy>, x: Proxy, order: Seq<String>, p: int)
    requires
        0 <= p <= s.len(),
        forall|j: int| p <= j < s.len() ==> list_key(order, #[trigger] s[j].name@) > list_key(order, x.name@),
        p > 0 ==> list_key(order, s[p - 1].name@) <= list_key(order, x.name@),
    ensures
        sorted_insert(s, x, order) == s.insert(p, x),
    decreases s.len(),
{
    if s.len() == 0 {
        assert(s.insert(p, x) =~= seq![x]);
    } else if p == s.len() {
        assert(s.insert(p, x) =~= s.push(x));
    } else {
        let t = s.drop_last();
        assert forall|j: int| p <= j < t.len() implies list_key(order, #[trigger] t[j].name@) > list_key(
            order,
            x.name@,
        ) by {
            assert(t[j] == s[j]);
        }
        lemma_sorted_insert(t, x, order, p);
        assert(t.insert(p, x).push(s.last()) =~= s.insert(p, x));
    }
}

/// Every element of a sorted insertion is `x` or an element of `s`.
proof fn lemma_sorted_insert_members(s: Seq<Proxy>, x: Proxy, order: Seq<String>)
    ensures
        forall|i: int| 0 <= i < sorted_insert(s, x, order).len() ==> #[trigger] sorted_insert(s, x, order)[i]
            == x || exists|w: int| 0 <= w < s.len() && s[w] == sorted_insert(s, x, order)[i],
        sorted_insert(s, x, order).len() == s.len() + 1,
    decreases s.len(),
{
    if s.len() > 0 && list_key(order, s.last().name@) > list_key(order, x.name@) {
        let t = s.drop_last();
        lemma_sorted_insert_members(t, x, order);
        let u = sorted_insert(t, x, order);
        let r = u.push(s.last());
        assert forall|i: int| 0 <= i < r.len() implies #[trigger] r[i] == x || exists|w: int|
            0 <= w < s.len() && s[w] == r[i] by {
            if i == r.len() - 1 {
                assert(s[s.len() - 1] == r[i]);
            } else {
                assert(r[i] == u[i]);
                if u[i] != x {
                    let w = choose|w: int| 0 <= w < t.len() && t[w] == u[i];
                    assert(s[w] == r[i]);
                }
            }
        }
    } else if s.len() > 0 {
        let r = s.push(x);
        assert forall|i: int| 0 <= i < r.len() implies #[trigger] r[i] == x || exists|w: int|
            0 <= w < s.len() && s[w] == r[i] by {
            if i < s.len() {
                assert(s[i] == r[i]);
            }
        }
    }
}

/// Inserting into a sorted sequence keeps it sorted.
proof fn lemma_sorted_insert_sorted(s: Seq<Proxy>, x: Proxy, order: Seq<String>)
    requires
        keys_sorted(s, order),
    ensures
        keys_sorted(sorted_insert(s, x, order), order),
        sorted_insert(s, x, order).len() == s.len() + 1,
    decreases s.len(),
{
    lemma_sorted_insert_members(s, x, order);
    if s.len() > 0 && list_key(order, s.last().name@) > list_key(order, x.name@) {
        let t = s.drop_last();
        assert(keys_sorted(t, order)) by {
            assert forall|i: int, j: int| 0 <= i < j < t.len() implies list_key(order, #[trigger] t[i].name@)
                <= list_key(order, #[trigger] t[j].name@) by {
                assert(t[i] == s[i] && t[j] == s[j]);
            }
        }
        lemma_sorted_insert_sorted(t, x, order);
        let u = sorted_insert(t, x, order);
        lemma_sorted_insert_members(t, x, order);
        let r = u.push(s.last());
        assert forall|i: int, j: int| 0 <= i < j < r.len() implies list_key(order, #[trigger] r[i].name@)
            <= list_key(order, #[trigger] r[j].name@) by {
            if j == r.len() - 1 {
                let v = u[i];
                assert(r[i] == v);
                if v != x {
                    let w = choose|w: int| 0 <= w < t.len() && t[w] == v;
                    assert(s[w] == v);
                    assert(s[s.len() - 1] == s.last());
                }
            } else {
                assert(r[i] == u[i] && r[j] == u[j]);
            }
        }
    } else if s.len() > 0 {
        let r = s.push(x);
        assert forall|i: int, j: int| 0 <= i < j < r.len() implies list_key(order, #[trigger] r[i].name@)
            <= list_key(order, #[trigger] r[j].name@) by {
            if j == r.len() - 1 {
                assert(r[i] == s[i]);
                assert(s[s.len() - 1] == s.last());
                if i < s.len() - 1 {
                    assert(list_key(order, s[i].name@) <= list_key(order, s[s.len() - 1].name@));
                }
            } else {
                assert(r[i] == s[i] && r[j] == s[j]);
            }
        }
    }
}

/// A stable sort is sorted.
pub proof fn lemma_stable_sorted(s: Seq<Proxy>, order: Seq<String>)
    ensures
        keys_sorted(stable_sorted(s, order), order),
        stable_sorted(s, order).len() == s.len(),
    decreases s.len(),
{
    if s.len() > 0 {
        lemma_stable_sorted(s.drop_last(), order);
        lemma_sorted_insert_sorted(stable_sorted(s.drop_last(), order), s.last(), order);
    }
}

/// The proxies behind shared pointers, as values.
pub open spec fn values(ps: Seq<Arc<Proxy>>) -> Seq<Proxy> {
    ps.map_values(|a: Arc<Proxy>| *a)
}

/// The proxies to list, in their order.
pub open spec fn listed_only(s: Seq<Proxy>) -> Seq<Proxy>
    decreases s.len(),
{
    if s.len() == 0 {
        s
    } else {
        let p = listed_only(s.drop_last());
        if listed(s.last()) {
            p.push(s.last())
        } else {
            p
        }
    }
}

/// The groups shown, in the order `GLOBAL` lists them (groups it does not
/// list come last, in their order).
pub open spec fn visible_order(ps: Seq<Proxy>) -> Seq<Proxy> {
    stable_sorted(listed_only(ps), global_order(ps))
}

/// Whether `v` is the view of group `p` among the proxies `ps`.
pub open spec fn is_view_of(v: ProxyView, p: Proxy, ps: Seq<Proxy>, threshold: (u64, u64)) -> bool {
    &&& *v.proxy == p
    &&& v.quality_stats@.len() == QUALITY_COUNT
    &&& forall|k: int| 0 <= k < QUALITY_COUNT ==> #[trigger] v.quality_stats@[k] == quality_counts(
        ps,
        members(p),
        threshold,
    )[k]
}

/// Makes another pointer to the same value (`Arc::clone`).
#[verifier::external_body]
pub(crate) fn arc_clone<T>(a: &Arc<T>) -> (r: Arc<T>)
    ensures
        r == *a,
{
    Arc::clone(a)
}

/// Position of the first proxy named `name`.
fn find_arc(ps: &Vec<Arc<Proxy>>, name: &String) -> (r: Option<usize>)
    ensures
        r matches Some(i) ==> find_name(values(ps@), name@) == Some(i as int),
        r is None ==> find_name(values(ps@), name@) is None,
{
    let ghost vals = values(ps@);
    proof {
        lemma_find_name(vals, name@);
    }
    let mut i: usize = 0;
    while i < ps.len()
        invariant
            vals == values(ps@),
            i <= ps@.len(),
            forall|j: int| 0 <= j < i ==> #[trigger] vals[j].name@ != name@,
            find_name(vals, name@) matches Some(k) ==> i <= k,
        decreases ps.len() - i,
    {
        proof {
            lemma_find_name(vals, name@);
            assert(vals[i as int] == *ps@[i as int]);
        }
        if ps[i].name == *name {
            return Some(i);
        }
        i = i + 1;
    }
    proof {
        lemma_find_name(vals, name@);
    }
    None
}

/// The listing key of a group.
fn list_key_of(order: &Vec<String>, name: &String) -> (r: usize)
    ensures
        r == list_key(order@, name@),
{
    let mut i: usize = order.len();
    assert(order@.take(i as int) =~= order@);
    while i > 0
        invariant
            i <= order@.len(),
            list_key(order@, name@) == list_key(order@.take(i as int), name@),
        decreases i,
    {
        assert(order@.take(i as int).drop_last() =~= order@.take(i - 1));
        if order[i - 1] == *name {
            return i - 1;
        }
        i = i - 1;
    }
    usize::MAX
}

/// Whether a proxy is listed.
fn is_listed(p: &Proxy) -> (r: bool)
    ensures
        r == listed(*p),
{
    if p.hidden == Some(true) {
        return false;
    }
    match &p.children {
        Some(c) => c.len() > 0,
        None => false,
    }
}

/// The proxy groups, and the groups shown with their members' qualities.
#[derive(Debug)]
pub struct Proxies {
    pub proxies: Vec<Arc<Proxy>>,
    pub visible: Vec<Arc<ProxyView>>,
}

impl Proxies {
    /// No proxies.
    /// No two stored proxies share a name.
    pub open spec fn wf(&self) -> bool {
        names_unique(values(self.proxies@))
    }

    pub fn new() -> (r: Self)
        ensures
            r.wf(),
            r.proxies@.len() == 0,
            r.visible@.len() == 0,
    {
        Proxies { proxies: Vec::new(), visible: Vec::new() }
    }

    /// The sort index of the groups: the members of `GLOBAL`, a group's
    /// index being its position here.
    fn build_sort_index(&self) -> (r: Vec<String>)
        ensures
            r@ == global_order(values(self.proxies@)),
    {
        let name = "GLOBAL".to_string();
        proof {
            lemma_find_name(values(self.proxies@), name@);
        }
        match find_arc(&self.proxies, &name) {
            Some(g) => match &self.proxies[g].children {
                Some(c) => {
                    let mut r: Vec<String> = Vec::new();
                    let mut i: usize = 0;
                    while i < c.len()
                        invariant
                            i <= c@.len(),
                            r@ == c@.take(i as int),
                        decreases c.len() - i,
                    {
                        r.push(c[i].clone());
                        assert(c@.take(i + 1) =~= c@.take(i as int).push(c@[i as int]));
                        i = i + 1;
                    }
                    assert(c@.take(c@.len() as int) =~= c@);
                    r
                },
                None => Vec::new(),
            },
            None => Vec::new(),
        }
    }

    /// The view of a group: the count of its members of each latency
    /// quality.
    pub fn build_proxy_view(&self, proxy: &Arc<Proxy>, threshold: (u64, u64)) -> (r: Arc<ProxyView>)
        ensures
            is_view_of(*r, **proxy, values(self.proxies@), threshold),
    {
        let ghost vals = values(self.proxies@);
        let mut stats: Vec<usize> = vec![0, 0, 0, 0];
        match &proxy.children {
            Some(c) => {
                let mut i: usize = 0;
                while i < c.len()
                    invariant
                        vals == values(self.proxies@),
                        members(**proxy) == c@,
                        i <= c@.len(),
                        stats@.len() == QUALITY_COUNT,
                        forall|k: int| 0 <= k < QUALITY_COUNT ==> #[trigger] stats@[k] == quality_counts(
                            vals,
                            c@.take(i as int),
                            threshold,
                        )[k],
                    decreases c.len() - i,
                {
                    proof {
                        lemma_quality_counts_len(vals, c@.take(i as int), threshold);
                        assert(c@.take(i + 1).drop_last() =~= c@.take(i as int));
                        lemma_find_name(vals, c@[i as int]@);
                    }
                    let latency = match find_arc(&self.proxies, &c[i]) {
                        Some(j) => self.proxies[j].latency,
                        None => None,
                    };
                    let k = LatencyQuality::of(latency, threshold).index();
                    let v = stats[k];
                    stats.set(k, v + 1);
                    i = i + 1;
                }
                assert(c@.take(c@.len() as int) =~= c@);
            },
            None => {
                assert(members(**proxy).len() == 0);
            },
        }
        let p = arc_clone(proxy);
        Arc::new(ProxyView { proxy: p, quality_stats: stats })
    }

    /// Stores a new list of proxies: every latency resolved, then the groups
    /// to show, each with its members' qualities, in the order `GLOBAL`
    /// lists them. Chains of selections must not run in a circle.
    pub fn push(&mut self, proxies: Vec<Proxy>, threshold: (u64, u64))
        requires
            selections_settle(proxies@),
            names_unique(proxies@),
        ensures
            final(self).wf(),
            values(final(self).proxies@) == resolved_all(proxies@),
            final(self).visible@.len() == visible_order(resolved_all(proxies@)).len(),
            forall|i: int| 0 <= i < final(self).visible@.len() ==> is_view_of(
                *#[trigger] final(self).visible@[i],
                visible_order(resolved_all(proxies@))[i],
                resolved_all(proxies@),
                threshold,
            ),
            keys_sorted(visible_order(resolved_all(proxies@)), global_order(resolved_all(proxies@))),
            forall|i: int| 0 <= i < final(self).visible@.len() ==> (#[trigger] final(self).visible@[i]).proxy.hidden
                != Some(true),
    {
        let ghost input = proxies@;
        let resolved = Self::update_delay(proxies);
        self.proxies = resolved;
        let ghost rs = values(self.proxies@);
        let order = self.build_sort_index();
        let mut vis: Vec<Arc<ProxyView>> = Vec::new();
        let ghost mut shown: Seq<Proxy> = Seq::empty();
        let mut i: usize = 0;
        while i < self.proxies.len()
            invariant
                rs == values(self.proxies@),
                order@ == global_order(rs),
                i <= rs.len(),
                shown == listed_only(rs.take(i as int)),
                vis@.len() == stable_sorted(shown, order@).len(),
                forall|j: int| 0 <= j < vis@.len() ==> is_view_of(
                    *#[trigger] vis@[j],
                    stable_sorted(shown, order@)[j],
                    rs,
                    threshold,
                ),
            decreases self.proxies.len() - i,
        {
            proof {
                assert(rs.take(i + 1).drop_last() =~= rs.take(i as int));
            }
            if is_listed(&self.proxies[i]) {
                let view = self.build_proxy_view(&self.proxies[i], threshold);
                let ghost before = stable_sorted(shown, order@);
                let key = list_key_of(&order, &self.proxies[i].name);
                let mut p: usize = vis.len();
                while p > 0 && list_key_of(&order, &vis[p - 1].proxy.name) > key
                    invariant
                        p <= vis@.len(),
                        vis@.len() == before.len(),
                        key == list_key(order@, rs[i as int].name@),
                        forall|j: int| 0 <= j < vis@.len() ==> is_view_of(*#[trigger] vis@[j], before[j], rs, threshold),
                        forall|j: int| p <= j < before.len() ==> list_key(order@, #[trigger] before[j].name@)
                            > key,
                    decreases p,
                {
                    assert(*vis@[p - 1].proxy == before[p - 1]);
                    p = p - 1;
                }
                proof {
                    if p > 0 {
                        assert(*vis@[p - 1].proxy == before[p - 1]);
                    }
                    lemma_sorted_insert(before, rs[i as int], order@, p as int);
                    let old_shown = shown;
                    shown = shown.push(rs[i as int]);
                    assert(shown.drop_last() =~= old_shown);
                    assert(listed_only(rs.take(i + 1)) == shown);
                }
                let ghost vis_before = vis@;
                vis.insert(p, view);
                proof {
                    let after = stable_sorted(shown, order@);
                    assert(after == before.insert(p as int, rs[i as int]));
                    assert forall|j: int| 0 <= j < vis@.len() implies is_view_of(
                        *#[trigger] vis@[j],
                        after[j],
                        rs,
                        threshold,
                    ) by {
                        if j < p {
                            assert(vis@[j] == vis_before[j]);
                        } else if j > p {
                            assert(vis@[j] == vis_before[j - 1]);
                        }
                    }
                }
            } else {
                proof {
                    assert(listed_only(rs.take(i + 1)) == shown);
                }
            }
            i = i + 1;
        }
        proof {
            assert(rs.take(rs.len() as int) =~= rs);
            lemma_stable_sorted(listed_only(rs), global_order(rs));
        }
        self.visible = vis;
        proof {
            assert forall|i: int| 0 <= i < self.visible@.len() implies (#[trigger] self.visible@[i]).proxy.hidden
                != Some(true) by {
                law_view_shows_no_hidden_group(input, i);
            }
        }
    }

    /// Resolves every latency (see `resolved_latency`).
    pub fn update_delay(proxies: Vec<Proxy>) -> (r: Vec<Arc<Proxy>>)
        requires
            selections_settle(proxies@),
        ensures
            values(r@) == resolved_all(proxies@),
    {
        let ghost input = proxies@;
        let n = proxies.len();
        let mut lat: Vec<Option<u64>> = Vec::new();
        let mut i: usize = 0;
        while i < n
            invariant
                input == proxies@,
                n == input.len(),
                i <= n,
                lat@.len() == i,
                selections_settle(input),
                forall|j: int| 0 <= j < i ==> #[trigger] lat@[j] == resolved_latency(input, j, n as nat),
            decreases n - i,
        {
            assert(settles(input, i as int, n as nat));
            lat.push(resolve(&proxies, i));
            i = i + 1;
        }
        let mut rest = proxies;
        let mut rev: Vec<Arc<Proxy>> = Vec::new();
        while rest.len() > 0
            invariant
                n == input.len(),
                lat@.len() == n,
                rest@.len() <= n,
                rest@ == input.take(rest@.len() as int),
                rev@.len() == n - rest@.len(),
                forall|j: int| 0 <= j < rev@.len() ==> *#[trigger] rev@[j] == with_latency(
                    input[n - 1 - j],
                    lat@[n - 1 - j],
                ),
            decreases rest.len(),
        {
            let mut p = rest.pop().unwrap();
            let k = rest.len();
            p.latency = lat[k];
            rev.push(Arc::new(p));
            assert(input.take(k as int) =~= input.take(k + 1).drop_last());
        }
        let mut out: Vec<Arc<Proxy>> = Vec::new();
        while rev.len() > 0
            invariant
                n == input.len(),
                rev@.len() + out@.len() == n,
                forall|j: int| 0 <= j < rev@.len() ==> *#[trigger] rev@[j] == with_latency(
                    input[n - 1 - j],
                    lat@[n - 1 - j],
                ),
                forall|j: int| 0 <= j < out@.len() ==> *#[trigger] out@[j] == with_latency(input[j], lat@[j]),
            decreases rev.len(),
        {
            let a = rev.pop().unwrap();
            out.push(a);
        }
        assert(values(out@) =~= resolved_all(input));
        out
    }

    /// The groups shown.
    pub fn view(&self) -> (r: Vec<Arc<ProxyView>>)
        ensures
            r@ == self.visible@,
    {
        let mut r: Vec<Arc<ProxyView>> = Vec::new();
        let mut i: usize = 0;
        while i < self.visible.len()
            invariant
                i <= self.visible@.len(),
                r@ == self.visible@.take(i as int),
            decreases self.visible.len() - i,
        {
            r.push(arc_clone(&self.visible[i]));
            assert(self.visible@.take(i + 1) =~= self.visible@.take(i as int).push(self.visible@[i as int]));
            i = i + 1;
        }
        assert(self.visible@.take(self.visible@.len() as int) =~= self.visible@);
        r
    }

    /// The listed members of a group, in its order.
    pub fn children(&self, proxy: &Proxy) -> (r: Vec<Arc<Proxy>>)
        ensures
            values(r@) == found_members(values(self.proxies@), members(*proxy)),
    {
        let ghost vals = values(self.proxies@);
        let mut r: Vec<Arc<Proxy>> = Vec::new();
        match &proxy.children {
            Some(c) => {
                let mut i: usize = 0;
                while i < c.len()
                    invariant
                        vals == values(self.proxies@),
                        i <= c@.len(),
                        values(r@) == found_members(vals, c@.take(i as int)),
                    decreases c.len() - i,
                {
                    proof {
                        assert(c@.take(i + 1).drop_last() =~= c@.take(i as int));
                        lemma_find_name(vals, c@[i as int]@);
                    }
                    match find_arc(&self.proxies, &c[i]) {
                        Some(j) => {
                            let ghost before = r@;
                            r.push(arc_clone(&self.proxies[j]));
                            assert(values(r@) =~= values(before).push(vals[j as int]));
                        },
                        None => {},
                    }
                    i = i + 1;
                }
                assert(c@.take(c@.len() as int) =~= c@);
            },
            None => {
                assert(values(r@) =~= Seq::<Proxy>::empty());
            },
        }
        r
    }

    /// The shown group at `index`, if there is one.
    pub fn get(&self, index: usize) -> (r: Option<Arc<ProxyView>>)
        ensures
            index < self.visible@.len() ==> r == Some(self.visible@[index as int]),
            index >= self.visible@.len() ==> r is None,
    {
        if index < self.visible.len() {
            Some(arc_clone(&self.visible[index]))
        } else {
            None
        }
    }
}

proof fn lemma_resolved_fuel(ps: Seq<Proxy>, i: int, f: nat, g: nat)
    requires
        settles(ps, i, f),
        f <= g,
    ensures
        settles(ps, i, g),
        resolved_latency(ps, i, f) == resolved_latency(ps, i, g),
    decreases f,
{
    let p = ps[i];
    if p.latency is None && follows_selection(p) {
        match find_name(ps, p.selected->0@) {
            Some(j) => {
                lemma_resolved_fuel(ps, j, (f - 1) as nat, (g - 1) as nat);
            },
            None => {},
        }
    }
}

/// After new proxies are stored, a group without a latency of its own shows
/// the latency of the member it uses, when that member is listed.
pub proof fn law_group_shows_selected_latency(ps: Seq<Proxy>, g: int)
    requires
        selections_settle(ps),
        0 <= g < ps.len(),
        follows_selection(ps[g]),
        find_name(ps, ps[g].selected->0@) is Some,
    ensures
        resolved_all(ps)[g].latency == resolved_all(ps)[find_name(ps, ps[g].selected->0@)->0].latency,
{
    let m = find_name(ps, ps[g].selected->0@)->0;
    lemma_find_name(ps, ps[g].selected->0@);
    assert(settles(ps, g, ps.len()));
    lemma_resolved_fuel(ps, m, (ps.len() - 1) as nat, ps.len());
}

proof fn lemma_sorted_insert_keeps(s: Seq<Proxy>, x: Proxy, order: Seq<String>, y: Proxy)
    ensures
        sorted_insert(s, x, order).contains(x),
        s.contains(y) ==> sorted_insert(s, x, order).contains(y),
    decreases s.len(),
{
    let r = sorted_insert(s, x, order);
    if s.len() == 0 {
        assert(r[0] == x);
    } else if list_key(order, s.last().name@) <= list_key(order, x.name@) {
        assert(r[s.len() as int] == x);
        if s.contains(y) {
            let w = choose|w: int| 0 <= w < s.len() && s[w] == y;
            assert(r[w] == y);
        }
    } else {
        let t = s.drop_last();
        lemma_sorted_insert_keeps(t, x, order, y);
        let u = sorted_insert(t, x, order);
        let wx = choose|w: int| 0 <= w < u.len() && u[w] == x;
        assert(r[wx] == x);
        if s.contains(y) {
            let w = choose|w: int| 0 <= w < s.len() && s[w] == y;
            if w == s.len() - 1 {
                assert(r[r.len() - 1] == y);
            } else {
                assert(t[w] == y);
                let wu = choose|v: int| 0 <= v < u.len() && u[v] == y;
                assert(r[wu] == y);
            }
        }
    }
}

proof fn lemma_stable_sorted_keeps(s: Seq<Proxy>, order: Seq<String>, y: Proxy)
    ensures
        s.contains(y) ==> stable_sorted(s, order).contains(y),
    decreases s.len(),
{
    if s.len() > 0 {
        let t = s.drop_last();
        lemma_stable_sorted_keeps(t, order, y);
        lemma_sorted_insert_keeps(stable_sorted(t, order), s.last(), order, y);
        if s.contains(y) && y != s.last() {
            let w = choose|w: int| 0 <= w < s.len() && s[w] == y;
            assert(t[w] == y);
        }
    }
}

proof fn lemma_stable_sorted_listed(s: Seq<Proxy>, order: Seq<String>)
    requires
        forall|i: int| 0 <= i < s.len() ==> listed(#[trigger] s[i]),
    ensures
        forall|i: int| 0 <= i < stable_sorted(s, order).len() ==> listed(#[trigger] stable_sorted(s, order)[i]),
    decreases s.len(),
{
    if s.len() > 0 {
        let t = s.drop_last();
        assert forall|i: int| 0 <= i < t.len() implies listed(#[trigger] t[i]) by {
            assert(t[i] == s[i]);
        }
        lemma_stable_sorted_listed(t, order);
        let u = stable_sorted(t, order);
        lemma_sorted_insert_members(u, s.last(), order);
        let r = sorted_insert(u, s.last(), order);
        assert forall|i: int| 0 <= i < r.len() implies listed(#[trigger] r[i]) by {
            if r[i] != s.last() {
                let w = choose|w: int| 0 <= w < u.len() && u[w] == r[i];
                assert(listed(u[w]));
            }
        }
    }
}

proof fn lemma_listed_only(s: Seq<Proxy>, y: Proxy)
    ensures
        forall|i: int| 0 <= i < listed_only(s).len() ==> listed(#[trigger] listed_only(s)[i]),
        s.contains(y) && listed(y) ==> listed_only(s).contains(y),
    decreases s.len(),
{
    if s.len() > 0 {
        let t = s.drop_last();
        lemma_listed_only(t, y);
        let p = listed_only(t);
        if listed(s.last()) {
            assert forall|i: int| 0 <= i < p.push(s.last()).len() implies listed(#[trigger] p.push(s.last())[i]) by {
                if i < p.len() {
                    assert(p.push(s.last())[i] == p[i]);
                }
            }
            if s.contains(y) && listed(y) {
                if y == s.last() {
                    assert(p.push(s.last())[p.len() as int] == y);
                } else {
                    let w = choose|w: int| 0 <= w < s.len() && s[w] == y;
                    assert(t[w] == y);
                    let v = choose|v: int| 0 <= v < p.len() && p[v] == y;
                    assert(p.push(s.last())[v] == y);
                }
            }
        } else {
            if s.contains(y) && listed(y) {
                let w = choose|w: int| 0 <= w < s.len() && s[w] == y;
                assert(w != s.len() - 1);
                assert(t[w] == y);
            }
        }
    }
}

/// The groups view never shows a hidden group, nor one without members:
/// every group it lists has `hidden` other than `Some(true)` and at least
/// one member.
pub proof fn law_view_shows_no_hidden_group(ps: Seq<Proxy>, i: int)
    requires
        0 <= i < visible_order(resolved_all(ps)).len(),
    ensures
        visible_order(resolved_all(ps))[i].hidden != Some(true),
        visible_order(resolved_all(ps))[i].children matches Some(c) && c@.len() > 0,
{
    let rs = resolved_all(ps);
    lemma_listed_only(rs, rs[0]);
    lemma_stable_sorted_listed(listed_only(rs), global_order(rs));
    assert(listed(visible_order(rs)[i]));
}

/// The groups view shows every group that is not hidden and has members:
/// such a group of the proxies pushed stands in the view, with its latency
/// resolved.
pub proof fn law_view_shows_every_visible_group(ps: Seq<Proxy>, k: int)
    requires
        0 <= k < ps.len(),
        ps[k].hidden != Some(true),
        ps[k].children matches Some(c) && c@.len() > 0,
    ensures
        visible_order(resolved_all(ps)).contains(resolved_all(ps)[k]),
{
    let rs = resolved_all(ps);
    let y = rs[k];
    assert(rs.contains(y));
    assert(listed(y));
    lemma_listed_only(rs, y);
    lemma_stable_sorted_keeps(listed_only(rs), global_order(rs), y);
}

} // verus!
