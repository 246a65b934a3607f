//! The store of connections: the rows kept between updates, with each
//! connection's transfer rate since the last update.
use vstd::prelude::*;

verus! {

/// The number of connections kept; a new one beyond it pushes out the oldest.
pub const CONNS_BUFFER_SIZE: usize = 500;

/// A connection as the core reports it, with its byte counts and rates.
#[derive(Debug)]
pub struct ConnectionRecord {
    pub id: String,
    pub upload: u64,
    pub download: u64,
    pub upload_rate: u64,
    pub download_rate: u64,
}

/// The kept connections and the byte counts of the last update, by id.
#[derive(Debug)]
pub struct Connections {
    pub buffer: Vec<ConnectionRecord>,
    pub last_bytes: Vec<(String, u64, u64)>,
}

/// The byte counts last seen for `id`: those of its last entry.
pub open spec fn last_lookup(last: Seq<(String, u64, u64)>, id: Seq<char>) -> Option<(u64, u64)>
    decreases last.len(),
{
    if last.len() == 0 {
        None
    } else if last.last().0@ == id {
        Some((last.last().1, last.last().2))
    } else {
        last_lookup(last.drop_last(), id)
    }
}

/// `a - b`, or zero when `b` is larger.
pub open spec fn sat_sub(a: u64, b: u64) -> u64 {
    if a >= b {
        (a - b) as u64
    } else {
        0
    }
}

/// A record with its rates worked out from the counts last seen for it; a
/// connection not seen before keeps the rates it came with.
pub open spec fn with_rates(r: ConnectionRecord, last: Seq<(String, u64, u64)>) -> ConnectionRecord {
    match last_lookup(last, r.id@) {
        Some((up, down)) => ConnectionRecord {
            upload_rate: sat_sub(r.upload, up),
            download_rate: sat_sub(r.download, down),
            ..r
        },
        None => r,
    }
}

/// The buffer after `x` is pushed: the oldest entry leaves a full buffer.
pub open spec fn push_capped(s: Seq<ConnectionRecord>, x: ConnectionRecord) -> Seq<ConnectionRecord> {
    if s.len() >= CONNS_BUFFER_SIZE {
        s.drop_first().push(x)
    } else {
        s.push(x)
    }
}

/// The buffer after the records `xs`, each with its rates, are pushed in order.
pub open spec fn pushed_all(
    s: Seq<ConnectionRecord>,
    xs: Seq<ConnectionRecord>,
    last: Seq<(String, u64, u64)>,
) -> Seq<ConnectionRecord>
    decreases xs.len(),
{
    if xs.len() == 0 {
        s
    } else {
        push_capped(pushed_all(s, xs.drop_last(), last), with_rates(xs.last(), last))
    }
}

/// Whether `b` holds the byte counts of the records `xs`, in order.
pub open spec fn counts_of(b: Seq<(String, u64, u64)>, xs: Seq<ConnectionRecord>) -> bool {
    &&& b.len() == xs.len()
    &&& forall|i: int|
        0 <= i < xs.len() ==> (#[trigger] b[i]).0 == xs[i].id && b[i].1 == xs[i].upload && b[i].2
            == xs[i].download
}

impl Connections {
    /// No connections, no counts.
    pub fn new() -> (r: Self)
        ensures
            r.buffer@.len() == 0,
            r.last_bytes@.len() == 0,
    {
        Connections { buffer: Vec::new(), last_bytes: Vec::new() }
    }

    /// The counts last seen for `id`.
    fn lookup(&self, id: &String) -> (r: Option<(u64, u64)>)
        ensures
            r == last_lookup(self.last_bytes@, id@),
    {
        let mut i: usize = self.last_bytes.len();
        assert(self.last_bytes@.take(i as int) =~= self.last_bytes@);
        while i > 0
            invariant
                i <= self.last_bytes@.len(),
                last_lookup(self.last_bytes@, id@) == last_lookup(self.last_bytes@.take(i as int), id@),
            decreases i,
        {
            let e = &self.last_bytes[i - 1];
            assert(self.last_bytes@.take(i as int).drop_last() =~= self.last_bytes@.take(i - 1));
            if e.0 == *id {
                return Some((e.1, e.2));
            }
            i = i - 1;
        }
        None
    }

    /// Takes a new list of connections. Outside capture mode the kept rows
    /// are dropped first. Each connection's rates are its byte counts less
    /// those of the last update (never below zero); then it is kept, the
    /// oldest row leaving a full buffer. The counts of this update are kept
    /// for the next.
    pub fn push(&mut self, capture_mode: bool, records: Vec<ConnectionRecord>)
        requires
            old(self).buffer@.len() <= CONNS_BUFFER_SIZE,
        ensures
            final(self).buffer@.len() <= CONNS_BUFFER_SIZE,
            final(self).buffer@ == pushed_all(
                if capture_mode {
                    old(self).buffer@
                } else {
                    Seq::empty()
                },
                records@,
                old(self).last_bytes@,
            ),
            counts_of(final(self).last_bytes@, records@),
    {
        if !capture_mode {
            self.buffer.clear();
        }
        let ghost start = self.buffer@;
        let ghost last = self.last_bytes@;
        let mut counts: Vec<(String, u64, u64)> = Vec::new();
        let mut i: usize = 0;
        while i < records.len()
            invariant
                i <= records@.len(),
                self.last_bytes@ == last,
                start.len() <= CONNS_BUFFER_SIZE,
                self.buffer@.len() <= CONNS_BUFFER_SIZE,
                self.buffer@ == pushed_all(start, records@.take(i as int), last),
                counts_of(counts@, records@.take(i as int)),
            decreases records.len() - i,
        {
            let r = &records[i];
            assert(records@.take(i + 1).drop_last() =~= records@.take(i as int));
            assert(records@.take(i + 1).last() == records@[i as int]);
            let mut item = ConnectionRecord {
                id: r.id.clone(),
                upload: r.upload,
                download: r.download,
                upload_rate: r.upload_rate,
                download_rate: r.download_rate,
            };
            match self.lookup(&r.id) {
                Some((up, down)) => {
                    item.upload_rate = r.upload.saturating_sub(up);
                    item.download_rate = r.download.saturating_sub(down);
                },
                None => {},
            }
            assert(item == with_rates(records@[i as int], last));
            if self.buffer.len() >= CONNS_BUFFER_SIZE {
                self.buffer.remove(0);
            }
            self.buffer.push(item);
            counts.push((r.id.clone(), r.upload, r.download));
            assert(counts_of(counts@, records@.take(i + 1))) by {
                assert forall|k: int| 0 <= k < i + 1 implies (#[trigger] counts@[k]).0 == records@.take(
                    i + 1,
                )[k].id && counts@[k].1 == records@.take(i + 1)[k].upload && counts@[k].2 == records@.take(
                    i + 1,
                )[k].download by {
                    if k < i {
                        assert(records@.take(i + 1)[k] == records@.take(i as int)[k]);
                    }
                }
            }
            i = i + 1;
        }
        assert(records@.take(records@.len() as int) =~= records@);
        self.last_bytes = counts;
    }
}

/// Whether row `a` comes before row `b` when rows are sorted by `keys`:
/// by key (largest first when `desc`), and rows with equal keys in the order
/// they came, as a stable sort leaves them.
pub open spec fn sorts_before(keys: Seq<u64>, desc: bool, a: int, b: int) -> bool {
    if keys[a] != keys[b] {
        if desc {
            keys[a] > keys[b]
        } else {
            keys[a] < keys[b]
        }
    } else {
        a < b
    }
}

/// Whether `order` lists every row `0..n` once, sorted by `keys`.
pub open spec fn is_sorted_order(keys: Seq<u64>, desc: bool, order: Seq<usize>) -> bool {
    &&& order.len() == keys.len()
    &&& forall|i: int| 0 <= i < order.len() ==> (#[trigger] order[i]) < keys.len()
    &&& forall|i: int, j: int| 0 <= i < j < order.len() ==> sorts_before(keys, desc, #[trigger] order[i] as int, #[trigger] order[j] as int)
}

/// The order of the rows sorted by a numeric sort key: ascending, or
/// descending when `desc`; rows with equal keys keep their order.
pub fn sorted_order(keys: &Vec<u64>, desc: bool) -> (r: Vec<usize>)
    ensures
        is_sorted_order(keys@, desc, r@),
{
    let mut r: Vec<usize> = Vec::new();
    let mut i: usize = 0;
    while i < keys.len()
        invariant
            i <= keys@.len(),
            r@.len() == i,
            forall|k: int| 0 <= k < r@.len() ==> (#[trigger] r@[k]) < i,
            forall|a: int, b: int| 0 <= a < b < r@.len() ==> sorts_before(keys@, desc, #[trigger] r@[a] as int, #[trigger] r@[b] as int),
        decreases keys.len() - i,
    {
        let mut p: usize = 0;
        while p < r.len()
            invariant
                i < keys@.len(),
                p <= r@.len(),
                forall|k: int| 0 <= k < r@.len() ==> (#[trigger] r@[k]) < i,
                forall|k: int| 0 <= k < p ==> sorts_before(keys@, desc, #[trigger] r@[k] as int, i as int),
            ensures
                p <= r@.len(),
                forall|k: int| 0 <= k < p ==> sorts_before(keys@, desc, #[trigger] r@[k] as int, i as int),
                p < r@.len() ==> !sorts_before(keys@, desc, r@[p as int] as int, i as int),
            decreases r.len() - p,
        {
            let x = r[p];
            let before = if keys[x] != keys[i] {
                if desc {
                    keys[x] > keys[i]
                } else {
                    keys[x] < keys[i]
                }
            } else {
                true
            };
            if !before {
                break;
            }
            p = p + 1;
        }
        let ghost old_r = r@;
        proof {
            if p < old_r.len() {
                assert(!sorts_before(keys@, desc, old_r[p as int] as int, i as int));
                assert forall|k: int| p <= k < old_r.len() implies sorts_before(
                    keys@,
                    desc,
                    i as int,
                    #[trigger] old_r[k] as int,
                ) by {
                    if k > p {
                        assert(sorts_before(keys@, desc, old_r[p as int] as int, old_r[k] as int));
                    }
                }
            }
        }
        r.insert(p, i);
        assert forall|a: int, b: int| 0 <= a < b < r@.len() implies sorts_before(
            keys@,
            desc,
            #[trigger] r@[a] as int,
            #[trigger] r@[b] as int,
        ) by {
            if b < p {
                assert(r@[a] == old_r[a] && r@[b] == old_r[b]);
            } else if b == p {
                assert(r@[a] == old_r[a]);
            } else if a < p {
                assert(r@[a] == old_r[a] && r@[b] == old_r[b - 1]);
                if p < old_r.len() {
                    assert(sorts_before(keys@, desc, i as int, old_r[b - 1] as int));
                }
            } else if a == p {
                assert(r@[b] == old_r[b - 1]);
            } else {
                assert(r@[a] == old_r[a - 1] && r@[b] == old_r[b - 1]);
            }
        }
        i = i + 1;
    }
    r
}

} // verus!
