//! Character-level helpers shared by the parsers and validators.
use vstd::prelude::*;

verus! {

broadcast use vstd::string::group_string_axioms;

/// The characters of a string slice, in order.
pub fn chars_of(s: &str) -> (v: Vec<char>)
    ensures
        v@ == s@,
{
    let mut v: Vec<char> = Vec::new();
    for c in it: s.chars()
        invariant
            v@ == it.seq().take(it.index() as int),
    {
        v.push(c);
    }
    v
}

/// Appends one character to a `String` (std's `String::push`).
#[verifier::external_body]
pub(crate) fn push_char(s: &mut String, c: char)
    ensures
        final(s)@ == old(s)@.push(c),
{
    s.push(c);
}

/// Builds a `String` holding the characters of `v@[from..to]`.
pub fn string_from_range(v: &Vec<char>, from: usize, to: usize) -> (s: String)
    requires
        from <= to <= v@.len(),
    ensures
        s@ == v@.subrange(from as int, to as int),
{
    let mut s = String::new();
    let mut i = from;
    while i < to
        invariant
            from <= i <= to <= v@.len(),
            s@ == v@.subrange(from as int, i as int),
        decreases to - i,
    {
        push_char(&mut s, v[i]);
        assert(v@.subrange(from as int, i + 1) == v@.subrange(from as int, i as int).push(v@[i as int]));
        i = i + 1;
    }
    s
}

/// Builds a `String` holding all characters of `v`.
pub fn string_from_chars(v: &Vec<char>) -> (s: String)
    ensures
        s@ == v@,
{
    let s = string_from_range(v, 0, v.len());
    assert(v@.subrange(0, v@.len() as int) == v@);
    s
}

/// Appends a string slice to a `String`.
pub fn append_str(s: &mut String, t: &str)
    ensures
        final(s)@ == old(s)@ + t@,
{
    s.append(t);
}

/// The code point of `c`, with ASCII upper-case letters mapped to lower case.
pub open spec fn ascii_lower_code(c: char) -> u32 {
    if 65 <= (c as u32) <= 90 {
        (c as u32 + 32) as u32
    } else {
        c as u32
    }
}

/// Whether two character sequences are equal when ASCII letters are compared
/// without regard to case (std's `eq_ignore_ascii_case`).
pub open spec fn eq_ignore_ascii_case(a: Seq<char>, b: Seq<char>) -> bool {
    &&& a.len() == b.len()
    &&& forall|i: int| 0 <= i < a.len() ==> ascii_lower_code(#[trigger] a[i]) == ascii_lower_code(b[i])
}

pub fn lower_code(c: char) -> (r: u32)
    ensures
        r == ascii_lower_code(c),
{
    let x = c as u32;
    if 65 <= x && x <= 90 {
        x + 32
    } else {
        x
    }
}

/// Compares two strings ignoring ASCII case.
pub fn str_eq_ignore_ascii_case(a: &str, b: &str) -> (r: bool)
    ensures
        r == eq_ignore_ascii_case(a@, b@),
{
    let va = chars_of(a);
    let vb = chars_of(b);
    if va.len() != vb.len() {
        return false;
    }
    let mut i: usize = 0;
    while i < va.len()
        invariant
            va@ == a@,
            vb@ == b@,
            va@.len() == vb@.len(),
            i <= va@.len(),
            forall|j: int| 0 <= j < i ==> ascii_lower_code(#[trigger] va@[j]) == ascii_lower_code(vb@[j]),
        decreases va.len() - i,
    {
        if lower_code(va[i]) != lower_code(vb[i]) {
            return false;
        }
        i = i + 1;
    }
    true
}

/// Whether `p` is a prefix of `s`.
pub open spec fn has_prefix(s: Seq<char>, p: Seq<char>) -> bool {
    p.len() <= s.len() && s.subrange(0, p.len() as int) == p
}

/// Whether `p` is a suffix of `s`.
pub open spec fn has_suffix(s: Seq<char>, p: Seq<char>) -> bool {
    p.len() <= s.len() && s.subrange(s.len() - p.len(), s.len() as int) == p
}

/// Whether the characters of `s` start with those of `p`.
pub fn seq_starts_with(s: &Vec<char>, p: &Vec<char>) -> (r: bool)
    ensures
        r == has_prefix(s@, p@),
{
    if p.len() > s.len() {
        return false;
    }
    let mut i: usize = 0;
    while i < p.len()
        invariant
            p@.len() <= s@.len(),
            i <= p@.len(),
            forall|j: int| 0 <= j < i ==> s@[j] == p@[j],
        decreases p.len() - i,
    {
        if s[i] != p[i] {
            assert(s@.subrange(0, p@.len() as int)[i as int] != p@[i as int]);
            return false;
        }
        i = i + 1;
    }
    assert(s@.subrange(0, p@.len() as int) =~= p@);
    true
}

/// Whether the characters of `s` end with those of `p`.
pub fn seq_ends_with(s: &Vec<char>, len: usize, p: &Vec<char>) -> (r: bool)
    requires
        len <= s@.len(),
    ensures
        r == has_suffix(s@.subrange(0, len as int), p@),
{
    let ghost t = s@.subrange(0, len as int);
    if p.len() > len {
        return false;
    }
    let off = len - p.len();
    let mut i: usize = 0;
    while i < p.len()
        invariant
            t == s@.subrange(0, len as int),
            len <= s@.len(),
            p@.len() <= len,
            off == len - p@.len(),
            i <= p@.len(),
            forall|j: int| 0 <= j < i ==> s@[off + j] == p@[j],
        decreases p.len() - i,
    {
        if s[off + i] != p[i] {
            assert(t.subrange(t.len() - p@.len(), t.len() as int)[i as int] != p@[i as int]);
            return false;
        }
        i = i + 1;
    }
    assert(t.subrange(t.len() - p@.len(), t.len() as int) =~= p@);
    true
}

/// Whether a string slice starts with another (std's `str::starts_with`).
pub fn str_starts_with(s: &str, p: &str) -> (r: bool)
    ensures
        r == has_prefix(s@, p@),
{
    let vs = chars_of(s);
    let vp = chars_of(p);
    seq_starts_with(&vs, &vp)
}

/// The Unicode `White_Space` property, which std's `char::is_whitespace` and
/// `str::trim` use.
pub open spec fn is_unicode_whitespace(c: char) -> bool {
    let x = c as u32;
    ||| 0x09 <= x <= 0x0d
    ||| x == 0x20
    ||| x == 0x85
    ||| x == 0xa0
    ||| x == 0x1680
    ||| 0x2000 <= x <= 0x200a
    ||| x == 0x2028
    ||| x == 0x2029
    ||| x == 0x202f
    ||| x == 0x205f
    ||| x == 0x3000
}

/// Number of leading white-space characters of `s`.
pub open spec fn leading_ws(s: Seq<char>) -> nat
    decreases s.len(),
{
    if s.len() > 0 && is_unicode_whitespace(s[0]) {
        1 + leading_ws(s.drop_first())
    } else {
        0
    }
}

/// Number of trailing white-space characters of `s`.
pub open spec fn trailing_ws(s: Seq<char>) -> nat
    decreases s.len(),
{
    if s.len() > 0 && is_unicode_whitespace(s.last()) {
        1 + trailing_ws(s.drop_last())
    } else {
        0
    }
}

/// `s` without leading and trailing white space.
pub open spec fn trim_spec(s: Seq<char>) -> Seq<char> {
    let t = s.subrange(leading_ws(s) as int, s.len() as int);
    t.subrange(0, t.len() - trailing_ws(t))
}

pub proof fn lemma_leading_ws_bound(s: Seq<char>)
    ensures
        leading_ws(s) <= s.len(),
    decreases s.len(),
{
    if s.len() > 0 && is_unicode_whitespace(s[0]) {
        lemma_leading_ws_bound(s.drop_first());
    }
}

pub proof fn lemma_trailing_ws_bound(s: Seq<char>)
    ensures
        trailing_ws(s) <= s.len(),
    decreases s.len(),
{
    if s.len() > 0 && is_unicode_whitespace(s.last()) {
        lemma_trailing_ws_bound(s.drop_last());
    }
}

/// Removes leading and trailing white space (std's `str::trim`).
///
/// The contract states std's documented behaviour: white space is the set of
/// characters with the Unicode `White_Space` property.
#[verifier::external_body]
pub(crate) fn trim(s: &str) -> (r: &str)
    ensures
        r@ == trim_spec(s@),
{
    s.trim()
}

/// The value of a run of ASCII decimal digits.
pub open spec fn digits_value(s: Seq<char>) -> nat
    decreases s.len(),
{
    if s.len() == 0 {
        0
    } else {
        digits_value(s.drop_last()) * 10 + ((s.last() as u32) - 48) as nat
    }
}

pub open spec fn all_digits(s: Seq<char>) -> bool {
    forall|i: int| 0 <= i < s.len() ==> '0' <= #[trigger] s[i] <= '9'
}

/// What std's `str::parse::<u64>` returns: an optional `+` sign followed by
/// at least one ASCII digit, whose value fits in a `u64`.
pub open spec fn parse_u64_spec(s: Seq<char>) -> Option<u64> {
    let d = if s.len() > 0 && s[0] == '+' { s.drop_first() } else { s };
    if d.len() > 0 && all_digits(d) && digits_value(d) <= u64::MAX {
        Some(digits_value(d) as u64)
    } else {
        None
    }
}

/// Parses a decimal `u64` (std's `str::parse::<u64>`).
///
/// The contract states std's documented grammar for unsigned integers: an
/// optional `+` followed by one or more ASCII digits, within range.
#[verifier::external_body]
pub(crate) fn parse_u64(s: &str) -> (r: Option<u64>)
    ensures
        r == parse_u64_spec(s@),
{
    s.parse::<u64>().ok()
}

/// Whether `c` occurs in `s`.
pub fn contains_char(s: &Vec<char>, c: char) -> (r: bool)
    ensures
        r == s@.contains(c),
{
    let mut i: usize = 0;
    while i < s.len()
        invariant
            i <= s@.len(),
            forall|j: int| 0 <= j < i ==> s@[j] != c,
        decreases s.len() - i,
    {
        if s[i] == c {
            assert(s@[i as int] == c);
            return true;
        }
        i = i + 1;
    }
    false
}

} // verus!

verus! {

/// Number of occurrences of `c` in `s`.
pub open spec fn count_char(s: Seq<char>, c: char) -> nat
    decreases s.len(),
{
    if s.len() == 0 {
        0
    } else {
        count_char(s.drop_last(), c) + if s.last() == c { 1nat } else { 0nat }
    }
}

/// Position of the first occurrence of `c` in `s`, or `s.len()` when there is none.
pub open spec fn first_index_of(s: Seq<char>, c: char) -> int
    decreases s.len(),
{
    if s.len() == 0 {
        0
    } else if s[0] == c {
        0
    } else {
        1 + first_index_of(s.drop_first(), c)
    }
}

pub proof fn lemma_count_char_prefix(s: Seq<char>, c: char, i: int)
    requires
        0 <= i < s.len(),
    ensures
        count_char(s.take(i + 1), c) == count_char(s.take(i), c) + if s[i] == c { 1nat } else { 0nat },
{
    assert(s.take(i + 1).drop_last() == s.take(i));
}

pub proof fn lemma_first_index_of(s: Seq<char>, c: char)
    ensures
        0 <= first_index_of(s, c) <= s.len(),
        forall|j: int| 0 <= j < first_index_of(s, c) ==> s[j] != c,
        first_index_of(s, c) < s.len() ==> s[first_index_of(s, c)] == c,
    decreases s.len(),
{
    if s.len() > 0 && s[0] != c {
        lemma_first_index_of(s.drop_first(), c);
        assert forall|j: int| 0 <= j < first_index_of(s, c) implies s[j] != c by {
            if j > 0 {
                assert(s[j] == s.drop_first()[j - 1]);
            }
        }
    }
}

/// Position of the first `c` in `s`, or its length.
pub fn index_of_char(s: &Vec<char>, c: char) -> (r: usize)
    ensures
        r == first_index_of(s@, c),
{
    proof {
        lemma_first_index_of(s@, c);
    }
    let mut i: usize = 0;
    while i < s.len()
        invariant
            i <= s@.len(),
            i <= first_index_of(s@, c),
            0 <= first_index_of(s@, c) <= s@.len(),
            forall|j: int| 0 <= j < first_index_of(s@, c) ==> s@[j] != c,
            first_index_of(s@, c) < s@.len() ==> s@[first_index_of(s@, c)] == c,
        decreases s.len() - i,
    {
        if s[i] == c {
            return i;
        }
        i = i + 1;
    }
    i
}

/// Counts the occurrences of `c` in `s`.
pub fn count_of_char(s: &Vec<char>, c: char) -> (r: usize)
    ensures
        r == count_char(s@, c),
{
    let mut n: usize = 0;
    let mut i: usize = 0;
    while i < s.len()
        invariant
            i <= s@.len(),
            n == count_char(s@.take(i as int), c),
            n <= i,
        decreases s.len() - i,
    {
        proof {
            lemma_count_char_prefix(s@, c, i as int);
        }
        if s[i] == c {
            n = n + 1;
        }
        i = i + 1;
    }
    assert(s@.take(s@.len() as int) == s@);
    n
}

/// The decimal digit character for `d < 10`.
pub open spec fn digit_char(d: nat) -> char {
    ((d + 48) as u32) as char
}

/// The decimal representation of `n`, without leading zeros.
pub open spec fn decimal_text(n: nat) -> Seq<char>
    decreases n,
{
    if n < 10 {
        seq![digit_char(n)]
    } else {
        decimal_text(n / 10).push(digit_char(n % 10))
    }
}

/// The decimal text of an integer (std's `Display` for `u64`).
///
/// The contract states what std's documentation gives: the decimal digits of
/// the value, without sign, padding or leading zeros.
#[verifier::external_body]
pub(crate) fn u64_text(n: u64) -> (r: String)
    ensures
        r@ == decimal_text(n as nat),
{
    n.to_string()
}

/// The text that std's `Debug` formatting gives for a string: the string in
/// double quotes, with escapes.
pub uninterp spec fn debug_quoted(s: Seq<char>) -> Seq<char>;

/// Formats a string with `Debug` (std's `{:?}` on `str`).
#[verifier::external_body]
pub(crate) fn debug_quote(s: &str) -> (r: String)
    ensures
        r@ == debug_quoted(s@),
{
    format!("{:?}", s)
}

} // verus!

verus! {

/// The decimal text of a number: non-empty digits whose value is the number.
pub proof fn lemma_decimal_text(n: nat)
    ensures
        decimal_text(n).len() > 0,
        all_digits(decimal_text(n)),
        digits_value(decimal_text(n)) == n,
        decimal_text(n)[0] != '+',
    decreases n,
{
    if n >= 10 {
        lemma_decimal_text(n / 10);
        let p = decimal_text(n / 10);
        let s = decimal_text(n);
        assert(s.drop_last() =~= p);
        assert(digit_char((n % 10) as nat) as u32 == n % 10 + 48);
        assert(s[0] == p[0]);
        assert(s.last() == digit_char((n % 10) as nat));
        assert(digits_value(s) == digits_value(p) * 10 + (n % 10));
    } else {
        let s = decimal_text(n);
        assert(digit_char(n) as u32 == n + 48);
        assert(s.drop_last().len() == 0);
        assert(digits_value(s.drop_last()) == 0);
        assert(digits_value(s) == digits_value(s.drop_last()) * 10 + n);
    }
}

/// Whether every character of `w` is white space.
pub open spec fn all_whitespace(w: Seq<char>) -> bool {
    forall|j: int| 0 <= j < w.len() ==> is_unicode_whitespace(#[trigger] w[j])
}

proof fn lemma_leading_ws_concat(w: Seq<char>, r: Seq<char>)
    requires
        all_whitespace(w),
        r.len() > 0,
        !is_unicode_whitespace(r[0]),
    ensures
        leading_ws(w + r) == w.len(),
    decreases w.len(),
{
    if w.len() == 0 {
        assert(w + r =~= r);
    } else {
        assert((w + r).drop_first() =~= w.drop_first() + r);
        assert((w + r)[0] == w[0]);
        assert forall|j: int| 0 <= j < w.drop_first().len() implies is_unicode_whitespace(
            #[trigger] w.drop_first()[j],
        ) by {
            assert(w.drop_first()[j] == w[j + 1]);
        }
        lemma_leading_ws_concat(w.drop_first(), r);
    }
}

proof fn lemma_trailing_ws_concat(r: Seq<char>, w: Seq<char>)
    requires
        all_whitespace(w),
        r.len() > 0,
        !is_unicode_whitespace(r.last()),
    ensures
        trailing_ws(r + w) == w.len(),
    decreases w.len(),
{
    if w.len() == 0 {
        assert(r + w =~= r);
    } else {
        assert((r + w).drop_last() =~= r + w.drop_last());
        assert((r + w).last() == w.last());
        assert forall|j: int| 0 <= j < w.drop_last().len() implies is_unicode_whitespace(
            #[trigger] w.drop_last()[j],
        ) by {
            assert(w.drop_last()[j] == w[j]);
        }
        lemma_trailing_ws_concat(r, w.drop_last());
    }
}

/// Trimming takes off exactly the white space around a text that neither
/// starts nor ends with white space.
pub proof fn lemma_trim_padded(w1: Seq<char>, d: Seq<char>, w2: Seq<char>)
    requires
        all_whitespace(w1),
        all_whitespace(w2),
        d.len() > 0,
        !is_unicode_whitespace(d[0]),
        !is_unicode_whitespace(d.last()),
    ensures
        trim_spec(w1 + d + w2) == d,
{
    let s = w1 + d + w2;
    assert(s =~= w1 + (d + w2));
    assert((d + w2)[0] == d[0]);
    lemma_leading_ws_concat(w1, d + w2);
    let t = s.subrange(w1.len() as int, s.len() as int);
    assert(t =~= d + w2);
    lemma_trailing_ws_concat(d, w2);
    assert(t.subrange(0, t.len() - w2.len()) =~= d);
}

/// Digits have no white space to trim.
pub proof fn lemma_trim_digits(s: Seq<char>)
    requires
        s.len() > 0,
        all_digits(s),
    ensures
        trim_spec(s) == s,
{
    assert(!is_unicode_whitespace(s[0]));
    assert(!is_unicode_whitespace(s.last()));
    assert(leading_ws(s) == 0);
    let t = s.subrange(0, s.len() as int);
    assert(t =~= s);
    assert(trailing_ws(t) == 0);
    assert(t.subrange(0, t.len() as int) =~= s);
}

/// The decimal text of a `u64` parses back to it, also after trimming.
pub proof fn lemma_parse_decimal(n: u64)
    ensures
        trim_spec(decimal_text(n as nat)) == decimal_text(n as nat),
        parse_u64_spec(decimal_text(n as nat)) == Some(n),
{
    lemma_decimal_text(n as nat);
    lemma_trim_digits(decimal_text(n as nat));
}

/// Occurrences of a character in a concatenation add up.
pub proof fn lemma_count_char_concat(x: Seq<char>, y: Seq<char>, c: char)
    ensures
        count_char(x + y, c) == count_char(x, c) + count_char(y, c),
    decreases y.len(),
{
    if y.len() == 0 {
        assert(x + y =~= x);
    } else {
        lemma_count_char_concat(x, y.drop_last(), c);
        assert((x + y).drop_last() =~= x + y.drop_last());
    }
}

/// In `a + [c] + b` where `a` has no `c`, the first `c` is right after `a`.
pub proof fn lemma_first_index_after(a: Seq<char>, b: Seq<char>, c: char)
    requires
        forall|j: int| 0 <= j < a.len() ==> a[j] != c,
    ensures
        first_index_of(a + seq![c] + b, c) == a.len(),
{
    let t = a + seq![c] + b;
    lemma_first_index_of(t, c);
    let k = first_index_of(t, c);
    assert(t[a.len() as int] == c);
    if k < a.len() {
        assert(t[k] == a[k]);
    }
}

} // verus!
