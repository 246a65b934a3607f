//! The pane of the connections settings that names source IPs.
use vstd::prelude::*;
use vstd::utf8::encode_utf8;
use crate::input::{InputBox, applied_edit, input_request, spec_input_request};
use crate::key::{Key, KeyInput, KeyOutcome};
use crate::navigator::{ScrollableNavigator, is_navigation_key};
use crate::pairs::{keys_unique, lemma_lookup_found, pairs_get, pairs_insert, pairs_lookup, pairs_remove};
use crate::text::{append_str, chars_of, trim, trim_spec};

use crate::shortcut::{parts_view, shortcuts_match, Fragment, Shortcut};
verus! {

broadcast use vstd::seq_lib::group_to_multiset_ensures;

/// Whether byte string `a` comes strictly before `b` in lexicographic order.
pub open spec fn bytes_lt(a: Seq<u8>, b: Seq<u8>) -> bool
    decreases a.len(),
{
    if a.len() == 0 {
        b.len() > 0
    } else if b.len() == 0 {
        false
    } else if a[0] != b[0] {
        a[0] < b[0]
    } else {
        bytes_lt(a.drop_first(), b.drop_first())
    }
}

/// The order of strings: lexicographic by their UTF-8 bytes.
pub open spec fn str_le(a: Seq<char>, b: Seq<char>) -> bool {
    encode_utf8(a) == encode_utf8(b) || bytes_lt(encode_utf8(a), encode_utf8(b))
}

/// The texts of a list of strings.
pub open spec fn views(v: Seq<String>) -> Seq<Seq<char>> {
    v.map_values(|s: String| s@)
}

/// Sorts strings in ascending order (`slice::sort_unstable`); `str` orders
/// strings lexicographically by their bytes, as its documentation states.
#[verifier::external_body]
fn sort_strings(v: &mut Vec<String>)
    ensures
        views(final(v)@).to_multiset() == views(old(v)@).to_multiset(),
        forall|i: int, j: int| 0 <= i < j < final(v)@.len() ==> str_le(#[trigger] final(v)@[i]@, #[trigger] final(v)@[j]@),
{
    v.sort_unstable()
}

/// Whether a string with the text of `s` is in `v`.
fn contains_text(v: &Vec<String>, s: &String) -> (r: bool)
    ensures
        r == views(v@).contains(s@),
{
    let mut i: usize = 0;
    while i < v.len()
        invariant
            i <= v@.len(),
            forall|j: int| 0 <= j < i ==> #[trigger] v@[j]@ != s@,
        decreases v.len() - i,
    {
        if v[i] == *s {
            assert(views(v@)[i as int] == s@);
            return true;
        }
        i = i + 1;
    }
    proof {
        if views(v@).contains(s@) {
            let w = choose|w: int| 0 <= w < views(v@).len() && views(v@)[w] == s@;
            assert(v@[w]@ == s@);
        }
    }
    false
}

/// Pads `value` with spaces on the right to `width` characters (std's
/// `{:<width$}` formatting).
pub fn pad(value: &str, width: usize) -> (r: String)
    ensures
        r@ == value@ + Seq::new(if width > value@.len() { (width - value@.len()) as nat } else { 0 }, |i: int| ' '),
{
    let n = chars_of(value).len();
    let mut r = value.to_string();
    let mut k: usize = n;
    while k < width
        invariant
            n == value@.len(),
            n <= k <= if width > n { width } else { n },
            r@ == value@ + Seq::new((k - n) as nat, |i: int| ' '),
        decreases width - k,
    {
        let ghost before = r@;
        append_str(&mut r, " ");
        proof {
            reveal_strlit(" ");
            assert(r@ =~= value@ + Seq::new((k + 1 - n) as nat, |i: int| ' '));
        }
        k = k + 1;
    }
    proof {
        if width <= n {
            assert(r@ =~= value@ + Seq::new(0, |i: int| ' '));
        }
    }
    r
}

/// The pane naming source IPs: the IPs of the current connections and of the
/// existing aliases, sorted, each with an alias being edited.
#[derive(Debug)]
pub struct SourceIpAliasSettingPane {
    pub alias_input: InputBox,
    /// Sorted, without duplicates.
    pub source_ips: Vec<String>,
    /// Aliases by source IP; no source IP occurs twice.
    pub aliases: Vec<(String, String)>,
    pub navigator: ScrollableNavigator,
}

/// The source IP focused, if any.
pub open spec fn selected_ip(p: SourceIpAliasSettingPane) -> Option<Seq<char>> {
    match p.navigator.focused {
        Some(i) => if i < p.source_ips@.len() {
            Some(p.source_ips@[i as int]@)
        } else {
            None
        },
        None => None,
    }
}

/// The aliases after storing the text being edited for the focused IP: a
/// text that trims to nothing removes the alias.
pub open spec fn saved_aliases_ok(
    before: SourceIpAliasSettingPane,
    after: Seq<(String, String)>,
) -> bool {
    match selected_ip(before) {
        Some(ip) => {
            &&& trim_spec(before.alias_input.text()).len() == 0 ==> pairs_lookup(after, ip) is None
            &&& trim_spec(before.alias_input.text()).len() > 0 ==> pairs_lookup(after, ip) == Some(
                trim_spec(before.alias_input.text()),
            )
            &&& forall|o: Seq<char>| o != ip ==> #[trigger] pairs_lookup(after, o) == pairs_lookup(
                before.aliases@,
                o,
            )
        },
        None => after == before.aliases@,
    }
}

/// The alias shown for the focused IP.
pub open spec fn shown_alias(p: SourceIpAliasSettingPane) -> Seq<char> {
    match selected_ip(p) {
        Some(ip) => match pairs_lookup(p.aliases@, ip) {
            Some(a) => a,
            None => Seq::empty(),
        },
        None => Seq::empty(),
    }
}

impl SourceIpAliasSettingPane {
    /// What the pane keeps true.
    pub open spec fn wf(&self) -> bool {
        &&& self.alias_input.wf()
        &&& self.navigator.wf()
        &&& keys_unique(self.aliases@)
    }

    /// An empty pane.
    pub fn new() -> (r: Self)
        ensures
            r.wf(),
            r.alias_input.text().len() == 0,
            r.source_ips@.len() == 0,
            r.aliases@.len() == 0,
            r.navigator == ScrollableNavigator::new_spec(),
    {
        SourceIpAliasSettingPane {
            alias_input: InputBox::new(String::new()),
            source_ips: Vec::new(),
            aliases: Vec::new(),
            navigator: ScrollableNavigator::new(),
        }
    }

    /// Loads the IPs of the current connections and the aliases: the IPs
    /// listed are those of both, sorted and without duplicates, and the alias
    /// of the focused IP is put in the input.
    pub fn load(&mut self, source_ips: Vec<String>, aliases: &Vec<(String, String)>)
        requires
            old(self).wf(),
            keys_unique(aliases@),
        ensures
            final(self).wf(),
            forall|x: Seq<char>| #[trigger] views(final(self).source_ips@).contains(x) <==> (views(
                source_ips@,
            ).contains(x) || exists|i: int| 0 <= i < aliases@.len() && #[trigger] aliases@[i].0@ == x),
            views(final(self).source_ips@).no_duplicates(),
            forall|i: int, j: int| 0 <= i < j < final(self).source_ips@.len() ==> str_le(
                #[trigger] final(self).source_ips@[i]@,
                #[trigger] final(self).source_ips@[j]@,
            ),
            final(self).aliases@ == aliases@,
            final(self).navigator.content_length == final(self).source_ips@.len(),
            final(self).source_ips@.len() > 0 && old(self).navigator.focused is None ==> final(self).navigator.focused
                == Some(0usize),
            final(self).alias_input.text() == shown_alias(*final(self)),
    {
        let ghost input = source_ips@;
        let mut ips = source_ips;
        let mut k: usize = 0;
        while k < aliases.len()
            invariant
                k <= aliases@.len(),
                forall|x: Seq<char>| #[trigger] views(ips@).contains(x) <==> (views(input).contains(x)
                    || exists|i: int| 0 <= i < k && #[trigger] aliases@[i].0@ == x),
            decreases aliases.len() - k,
        {
            let ghost before = ips@;
            ips.push(aliases[k].0.clone());
            proof {
                assert(views(ips@) =~= views(before).push(aliases@[k as int].0@));
                assert forall|x: Seq<char>| #[trigger] views(ips@).contains(x) <==> (views(input).contains(x)
                    || exists|i: int| 0 <= i < k + 1 && #[trigger] aliases@[i].0@ == x) by {
                    if views(ips@).contains(x) && x != aliases@[k as int].0@ {
                        let w = choose|w: int| 0 <= w < views(ips@).len() && views(ips@)[w] == x;
                        assert(views(before)[w] == x);
                    }
                    if views(before).contains(x) {
                        let w = choose|w: int| 0 <= w < views(before).len() && views(before)[w] == x;
                        assert(views(ips@)[w] == x);
                    }
                    if x == aliases@[k as int].0@ {
                        assert(views(ips@)[before.len() as int] == x);
                    }
                }
            }
            k = k + 1;
        }
        let ghost unsorted = ips@;
        sort_strings(&mut ips);
        let ghost sorted = ips@;
        proof {
            assert forall|x: Seq<char>| #[trigger] views(sorted).contains(x) <==> views(unsorted).contains(x) by {
                assert(views(sorted).to_multiset().count(x) == views(unsorted).to_multiset().count(x));
            }
        }
        let mut out: Vec<String> = Vec::new();
        let ghost mut idx: Seq<int> = Seq::empty();
        let mut i: usize = 0;
        while i < ips.len()
            invariant
                i <= ips@.len(),
                idx.len() == out@.len(),
                forall|a: int| 0 <= a < idx.len() ==> 0 <= #[trigger] idx[a] < i && out@[a]@ == ips@[idx[a]]@,
                forall|a: int, b: int| 0 <= a < b < idx.len() ==> #[trigger] idx[a] < #[trigger] idx[b],
                views(out@).no_duplicates(),
                forall|x: Seq<char>| #[trigger] views(out@).contains(x) <==> exists|j: int| 0 <= j < i && #[trigger] ips@[j]@
                    == x,
                forall|a: int, b: int| 0 <= a < b < ips@.len() ==> str_le(#[trigger] ips@[a]@, #[trigger] ips@[b]@),
                sorted == ips@,
                forall|x: Seq<char>| #[trigger] views(sorted).contains(x) <==> views(unsorted).contains(x),
            decreases ips.len() - i,
        {
            let ghost before = out@;
            if !contains_text(&out, &ips[i]) {
                out.push(ips[i].clone());
                proof {
                    idx = idx.push(i as int);
                    assert(views(out@) =~= views(before).push(ips@[i as int]@));
                    assert forall|a: int, b: int| 0 <= a < b < views(out@).len() implies views(out@)[a] != views(out@)[b] by {
                        if b == views(out@).len() - 1 {
                            assert(views(before)[a] == views(out@)[a]);
                        } else {
                            assert(views(before)[a] == views(out@)[a] && views(before)[b] == views(out@)[b]);
                        }
                    }
                }
            }
            proof {
                assert forall|x: Seq<char>| #[trigger] views(out@).contains(x) <==> exists|j: int| 0 <= j < i + 1
                    && #[trigger] ips@[j]@ == x by {
                    if views(out@).contains(x) {
                        let w = choose|w: int| 0 <= w < views(out@).len() && views(out@)[w] == x;
                        if w < before.len() {
                            assert(views(before)[w] == x);
                            assert(views(before).contains(x));
                        } else {
                            assert(ips@[i as int]@ == x);
                        }
                    }
                    if exists|j: int| 0 <= j < i + 1 && #[trigger] ips@[j]@ == x {
                        let j = choose|j: int| 0 <= j < i + 1 && #[trigger] ips@[j]@ == x;
                        if j < i {
                            assert(views(before).contains(x));
                            let w = choose|w: int| 0 <= w < views(before).len() && views(before)[w] == x;
                            assert(views(out@)[w] == x);
                        } else if views(before).contains(x) {
                            let w = choose|w: int| 0 <= w < views(before).len() && views(before)[w] == x;
                            assert(views(out@)[w] == x);
                        } else {
                            assert(views(out@)[before.len() as int] == x);
                        }
                    }
                }
            }
            i = i + 1;
        }
        proof {
            assert(i == ips@.len());
            assert forall|x: Seq<char>| #[trigger] views(out@).contains(x) <==> views(unsorted).contains(x) by {
                if views(out@).contains(x) {
                    let j = choose|j: int| 0 <= j < i && #[trigger] ips@[j]@ == x;
                    assert(views(ips@)[j] == x);
                    assert(views(ips@).contains(x));
                    assert(views(unsorted).contains(x));
                }
                if views(unsorted).contains(x) {
                    assert(views(ips@).contains(x));
                    let w = choose|w: int| 0 <= w < views(ips@).len() && views(ips@)[w] == x;
                    assert(ips@[w]@ == x);
                }
            }
            assert forall|a: int, b: int| 0 <= a < b < out@.len() implies str_le(#[trigger] out@[a]@, #[trigger] out@[b]@) by {
                assert(idx[a] < idx[b]);
                assert(str_le(ips@[idx[a]]@, ips@[idx[b]]@));
            }
        }
        self.source_ips = out;
        self.aliases = crate::connections_setting::clone_pairs(aliases);
        self.sync_navigator_length(0);
        self.load_selected_alias();
    }

    /// Clears the pane.
    pub fn reset(&mut self)
        ensures
            final(self).wf(),
            final(self).alias_input.text().len() == 0,
            final(self).source_ips@.len() == 0,
            final(self).aliases@.len() == 0,
            final(self).navigator == ScrollableNavigator::new_spec(),
    {
        self.alias_input.reset();
        self.source_ips = Vec::new();
        self.aliases = Vec::new();
        self.navigator = ScrollableNavigator::new();
    }

    /// The aliases to save: the text being edited is stored first, and
    /// aliases that trim to nothing are dropped; the others are trimmed.
    pub fn aliases(&mut self) -> (r: Vec<(String, String)>)
        requires
            old(self).wf(),
        ensures
            final(self).wf(),
            saved_aliases_ok(*old(self), final(self).aliases@),
            keys_unique(r@),
            forall|k: Seq<char>| #[trigger] pairs_lookup(r@, k) == match pairs_lookup(final(self).aliases@, k) {
                Some(a) => if trim_spec(a).len() > 0 {
                    Some(trim_spec(a))
                } else {
                    None
                },
                None => None,
            },
    {
        self.save_alias_input();
        let mut r: Vec<(String, String)> = Vec::new();
        let mut i: usize = 0;
        while i < self.aliases.len()
            invariant
                i <= self.aliases@.len(),
                keys_unique(self.aliases@),
                keys_unique(r@),
                forall|a: int| 0 <= a < r@.len() ==> exists|b: int| 0 <= b < i && #[trigger] r@[a].0@
                    == self.aliases@[b].0@,
                forall|k: Seq<char>| #[trigger] pairs_lookup(r@, k) == match pairs_lookup(self.aliases@.take(i as int), k) {
                    Some(a) => if trim_spec(a).len() > 0 {
                        Some(trim_spec(a))
                    } else {
                        None
                    },
                    None => None,
                },
            decreases self.aliases.len() - i,
        {
            let ghost before = r@;
            let ghost t = self.aliases@.take(i + 1);
            assert(t.drop_last() =~= self.aliases@.take(i as int));
            assert(t.last() == self.aliases@[i as int]);
            let alias = trim(self.aliases[i].1.as_str());
            let key = &self.aliases[i].0;
            proof {
                assert forall|a: int| 0 <= a < before.len() implies #[trigger] before[a].0@ != key@ by {
                    let b = choose|b: int| 0 <= b < i && #[trigger] before[a].0@ == self.aliases@[b].0@;
                    assert(self.aliases@[b].0@ != self.aliases@[i as int].0@);
                }
                crate::pairs::lemma_lookup_absent(before, key@);
                assert forall|j: int| 0 <= j < i implies #[trigger] self.aliases@.take(i as int)[j].0@ != key@ by {
                    assert(self.aliases@.take(i as int)[j] == self.aliases@[j]);
                }
                crate::pairs::lemma_lookup_absent(self.aliases@.take(i as int), key@);
            }
            if chars_of(alias).len() > 0 {
                r.push((key.clone(), alias.to_string()));
                proof {
                    assert(r@.drop_last() =~= before);
                    assert forall|a: int, b: int| 0 <= a < b < r@.len() implies #[trigger] r@[a].0@ != #[trigger] r@[b].0@ by {
                        if b == r@.len() - 1 {
                            assert(r@[a] == before[a]);
                        } else {
                            assert(r@[a] == before[a] && r@[b] == before[b]);
                        }
                    }
                    assert forall|a: int| 0 <= a < r@.len() implies exists|b: int| 0 <= b < i + 1 && #[trigger] r@[a].0@
                        == self.aliases@[b].0@ by {
                        if a == r@.len() - 1 {
                            assert(r@[a].0@ == self.aliases@[i as int].0@);
                        } else {
                            assert(r@[a] == before[a]);
                        }
                    }
                }
            }
            proof {
                assert forall|k: Seq<char>| #[trigger] pairs_lookup(r@, k) == match pairs_lookup(t, k) {
                    Some(a) => if trim_spec(a).len() > 0 {
                        Some(trim_spec(a))
                    } else {
                        None
                    },
                    None => None,
                } by {
                    if r@.len() > before.len() {
                        assert(r@.drop_last() == before);
                    }
                    assert(pairs_lookup(before, k) == match pairs_lookup(self.aliases@.take(i as int), k) {
                        Some(a) => if trim_spec(a).len() > 0 {
                            Some(trim_spec(a))
                        } else {
                            None
                        },
                        None => None,
                    });
                }
            }
            i = i + 1;
        }
        assert(self.aliases@.take(self.aliases@.len() as int) =~= self.aliases@);
        r
    }

    /// The source IP focused, if any.
    pub fn selected_source_ip(&self) -> (r: Option<String>)
        ensures
            r matches Some(s) ==> selected_ip(*self) == Some(s@),
            r is None ==> selected_ip(*self) is None,
    {
        match self.navigator.focused {
            Some(i) => if i < self.source_ips.len() {
                Some(self.source_ips[i].clone())
            } else {
                None
            },
            None => None,
        }
    }

    /// Stores the text being edited as the alias of the focused IP: a text
    /// that trims to nothing removes the alias.
    pub fn save_alias_input(&mut self)
        requires
            old(self).wf(),
        ensures
            final(self).wf(),
            saved_aliases_ok(*old(self), final(self).aliases@),
            final(self).alias_input == old(self).alias_input,
            final(self).source_ips == old(self).source_ips,
            final(self).navigator == old(self).navigator,
    {
        let source_ip = match self.selected_source_ip() {
            Some(s) => s,
            None => {
                return;
            },
        };
        let value = self.alias_input.value();
        let alias = trim(value.as_str());
        if chars_of(alias).len() == 0 {
            pairs_remove(&mut self.aliases, &source_ip);
        } else {
            pairs_insert(&mut self.aliases, source_ip, alias.to_string());
        }
    }

    /// Puts the alias of the focused IP in the input.
    pub fn load_selected_alias(&mut self)
        requires
            old(self).wf(),
        ensures
            final(self).wf(),
            final(self).alias_input.text() == shown_alias(*old(self)),
            final(self).alias_input.cursor() == shown_alias(*old(self)).len(),
            final(self).source_ips == old(self).source_ips,
            final(self).aliases == old(self).aliases,
            final(self).navigator == old(self).navigator,
    {
        let alias = match self.selected_source_ip() {
            Some(ip) => match pairs_get(&self.aliases, &ip) {
                Some(a) => a,
                None => String::new(),
            },
            None => String::new(),
        };
        self.alias_input = InputBox::new(alias);
    }

    /// Fits the navigator to the IPs and a window of `viewport` rows; with
    /// IPs and no focus, the first is focused.
    pub fn sync_navigator_length(&mut self, viewport: usize)
        requires
            old(self).wf(),
        ensures
            final(self).wf(),
            final(self).navigator.content_length == old(self).source_ips@.len(),
            final(self).navigator.viewport == viewport,
            old(self).source_ips@.len() == 0 ==> final(self).navigator.focused is None,
            old(self).source_ips@.len() > 0 && old(self).navigator.focused is None ==> final(self).navigator.focused
                == Some(0usize),
            old(self).source_ips@.len() > 0 ==> (old(self).navigator.focused matches Some(f)
                ==> final(self).navigator.focused == Some(
                if f < old(self).source_ips@.len() {
                    f
                } else {
                    (old(self).source_ips@.len() - 1) as usize
                },
            )),
            final(self).source_ips == old(self).source_ips,
            final(self).aliases == old(self).aliases,
            final(self).alias_input == old(self).alias_input,
    {
        let n = self.source_ips.len();
        let had_focus = self.navigator.focused.is_some();
        self.navigator.length(n, viewport);
        if n == 0 {
            self.navigator.focused = None;
        } else if !had_focus {
            self.navigator.focused = Some(0);
            if viewport > 0 {
                self.navigator.pos = 0;
            }
        }
    }

    /// The rows to draw in a window `height` rows high: the window is moved
    /// to show the focused IP.
    pub fn visible_range(&mut self, height: usize) -> (r: (usize, usize))
        requires
            old(self).wf(),
        ensures
            final(self).wf(),
            r.0 == final(self).navigator.pos,
            r.1 == final(self).navigator.spec_end_pos(),
            final(self).navigator.content_length == old(self).source_ips@.len(),
            final(self).navigator.focused matches Some(f) ==> r.0 <= f && (height > 0 ==> f < r.1),
            final(self).source_ips == old(self).source_ips,
            final(self).aliases == old(self).aliases,
            final(self).alias_input == old(self).alias_input,
    {
        self.sync_navigator_length(height);
        match self.navigator.focused {
            Some(selected) => {
                let start = self.navigator.pos();
                let end = self.navigator.end_pos();
                if !(start <= selected && selected < end) {
                    self.navigator.focus(selected);
                }
            },
            None => {},
        }
        (self.navigator.pos(), self.navigator.end_pos())
    }

    /// Sends a key to the input, when there are IPs and the key edits text.
    fn handle_input_key(&mut self, key: KeyInput) -> (r: KeyOutcome)
        requires
            old(self).wf(),
        ensures
            final(self).wf(),
            r == KeyOutcome::Consumed <==> (old(self).source_ips@.len() > 0 && spec_input_request(key) is Some),
            r == KeyOutcome::Ignored ==> *final(self) == *old(self),
            r == KeyOutcome::Consumed ==> {
                &&& applied_edit(old(self).alias_input, final(self).alias_input, spec_input_request(key)->0)
                &&& saved_aliases_ok(
                    SourceIpAliasSettingPane { alias_input: final(self).alias_input, ..*old(self) },
                    final(self).aliases@,
                )
                &&& final(self).navigator == old(self).navigator
                &&& final(self).source_ips == old(self).source_ips
            },
    {
        if self.source_ips.len() == 0 {
            return KeyOutcome::Ignored;
        }
        let req = match input_request(key) {
            Some(q) => q,
            None => {
                return KeyOutcome::Ignored;
            },
        };
        self.alias_input.handle(req);
        self.save_alias_input();
        KeyOutcome::Consumed
    }

    /// Moves the focus with the navigation keys, storing the alias being
    /// edited first and loading that of the newly focused IP.
    fn handle_navigation_key(&mut self, key: KeyInput) -> (r: KeyOutcome)
        requires
            old(self).wf(),
            old(self).navigator.content_length == old(self).source_ips@.len(),
        ensures
            final(self).wf(),
            final(self).navigator.content_length == final(self).source_ips@.len(),
            saved_aliases_ok(*old(self), final(self).aliases@),
            final(self).source_ips == old(self).source_ips,
            r == KeyOutcome::Consumed <==> (is_navigation_key(key) && old(self).source_ips@.len() > 0),
            r == KeyOutcome::Ignored ==> final(self).navigator == old(self).navigator
                && final(self).alias_input == old(self).alias_input,
            r == KeyOutcome::Consumed && final(self).navigator.focused != old(self).navigator.focused
                ==> final(self).alias_input.text() == shown_alias(*final(self)),
            r == KeyOutcome::Consumed && final(self).navigator.focused == old(self).navigator.focused
                ==> final(self).alias_input == old(self).alias_input,
    {
        let before = self.navigator.focused;
        self.save_alias_input();
        if !self.navigator.handle_key_event(key) {
            return KeyOutcome::Ignored;
        }
        if self.navigator.focused != before {
            self.load_selected_alias();
        }
        KeyOutcome::Consumed
    }

    /// Handles a key press: `Tab`, `BackTab` and `Enter` are left to the
    /// dialog; keys that edit text go to the input; the navigation keys move
    /// the focus.
    pub fn handle_key_event(&mut self, key: KeyInput) -> (r: KeyOutcome)
        requires
            old(self).wf(),
            old(self).navigator.content_length == old(self).source_ips@.len(),
        ensures
            final(self).wf(),
            final(self).navigator.content_length == final(self).source_ips@.len(),
            final(self).source_ips == old(self).source_ips,
            key.code == Key::Tab || key.code == Key::BackTab || key.code == Key::Enter ==> r == KeyOutcome::Ignored
                && *final(self) == *old(self),
            r == KeyOutcome::Consumed <==> (key.code != Key::Tab && key.code != Key::BackTab && key.code != Key::Enter
                && old(self).source_ips@.len() > 0 && (spec_input_request(key) is Some || is_navigation_key(key))),
    {
        match key.code {
            Key::Tab | Key::BackTab | Key::Enter => {
                return KeyOutcome::Ignored;
            },
            _ => {},
        }
        if self.handle_input_key(key).is_consumed() {
            return KeyOutcome::Consumed;
        }
        self.handle_navigation_key(key)
    }
}

/// The footer labels of the source IP alias pane: navigation.
pub open spec fn alias_shortcut_labels() -> Seq<Seq<(bool, Seq<char>)>> {
    seq![
        seq![(true, "↑"@), (false, "/"@), (true, "PgUp"@), (false, " nav "@), (true, "PgDn"@), (false, "/"@), (true, "↓"@)],
    ]
}

impl SourceIpAliasSettingPane {
    /// The footer labels.
    pub fn shortcuts(&self) -> (r: Vec<Shortcut>)
        ensures
            shortcuts_match(r@, alias_shortcut_labels()),
    {
        let s0 = Shortcut::new(vec![Fragment::hl("↑"), Fragment::raw("/"), Fragment::hl("PgUp"), Fragment::raw(" nav "), Fragment::hl("PgDn"), Fragment::raw("/"), Fragment::hl("↓")]);
        proof {
            assert(parts_view(s0.parts@) =~= seq![(true, "↑"@), (false, "/"@), (true, "PgUp"@), (false, " nav "@), (true, "PgDn"@), (false, "/"@), (true, "↓"@)]);
        }
        let r = vec![s0];
        assert(shortcuts_match(r@, alias_shortcut_labels()));
        r
    }
}

} // verus!
