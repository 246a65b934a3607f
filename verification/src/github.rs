//! Mapping a GitHub repository reference to its "latest release" API URL.
use vstd::prelude::*;
use crate::text::{append_str, chars_of, has_prefix, has_suffix, push_char, seq_ends_with, seq_starts_with, string_from_range, trim, trim_spec};

verus! {

/// `s` with every trailing repetition of the non-empty pattern `p` removed
/// (std's `str::trim_end_matches`).
pub open spec fn strip_suffix_all(s: Seq<char>, p: Seq<char>) -> Seq<char>
    decreases s.len(),
{
    if p.len() > 0 && has_suffix(s, p) {
        strip_suffix_all(s.subrange(0, s.len() - p.len()), p)
    } else {
        s
    }
}

/// Number of `/` characters in `s`.
pub open spec fn slash_count(s: Seq<char>) -> nat
    decreases s.len(),
{
    if s.len() == 0 {
        0
    } else {
        slash_count(s.drop_last()) + if s.last() == '/' { 1nat } else { 0nat }
    }
}

/// The `owner/repo` part of a repository reference: trimmed, without trailing
/// `.git` and `/`, and without a leading `https://github.com/`.
pub open spec fn github_path(repository: Seq<char>) -> Seq<char> {
    let t = strip_suffix_all(strip_suffix_all(trim_spec(repository), ".git"@), "/"@);
    if has_prefix(t, "https://github.com/"@) {
        t.subrange("https://github.com/"@.len() as int, t.len() as int)
    } else {
        t
    }
}

/// Whether `p` has the shape `owner/repo` with both parts non-empty.
pub open spec fn is_owner_repo(p: Seq<char>) -> bool {
    &&& slash_count(p) == 1
    &&& p.len() > 0
    &&& p[0] != '/'
    &&& p.last() != '/'
}

/// The latest-release API URL of a repository reference, if it names a GitHub
/// repository.
pub open spec fn release_api_url(repository: Seq<char>) -> Option<Seq<char>> {
    let p = github_path(repository);
    if is_owner_repo(p) {
        Some("https://api.github.com/repos/"@ + p + "/releases/latest"@)
    } else {
        None
    }
}

/// Shortens `len` while `v@[..len]` ends with `p`.
fn strip_suffix_len(v: &Vec<char>, len: usize, p: &Vec<char>) -> (r: usize)
    requires
        len <= v@.len(),
        p@.len() > 0,
    ensures
        r <= len,
        v@.subrange(0, r as int) == strip_suffix_all(v@.subrange(0, len as int), p@),
{
    let mut n = len;
    while n >= p.len() && seq_ends_with(v, n, p)
        invariant
            n <= len <= v@.len(),
            p@.len() > 0,
            strip_suffix_all(v@.subrange(0, n as int), p@) == strip_suffix_all(
                v@.subrange(0, len as int),
                p@,
            ),
        decreases n,
    {
        let ghost t = v@.subrange(0, n as int);
        assert(t.subrange(0, t.len() - p@.len()) == v@.subrange(0, n - p.len()));
        n = n - p.len();
    }
    proof {
        let t = v@.subrange(0, n as int);
        if p@.len() <= t.len() && has_suffix(t, p@) {
            assert(n >= p@.len());
        }
    }
    n
}

proof fn lemma_slash_count_prefix(s: Seq<char>, i: int)
    requires
        0 <= i < s.len(),
    ensures
        slash_count(s.subrange(0, i + 1)) == slash_count(s.subrange(0, i)) + if s[i] == '/' {
            1nat
        } else {
            0nat
        },
{
    assert(s.subrange(0, i + 1).drop_last() == s.subrange(0, i));
}

/// Maps a repository reference such as `owner/repo` or
/// `https://github.com/owner/repo(.git)` to the GitHub API URL of its latest
/// release; `None` for anything else.
pub fn latest_release_api_url_from_repo(repository: &str) -> (r: Option<String>)
    ensures
        r matches Some(u) ==> release_api_url(repository@) == Some(u@),
        r is None ==> release_api_url(repository@) is None,
{
    proof {
        reveal_strlit(".git");
        reveal_strlit("/");
    }
    let trimmed = trim(repository);
    let v = chars_of(trimmed);
    let git = chars_of(".git");
    let slash = chars_of("/");
    let n1 = strip_suffix_len(&v, v.len(), &git);
    assert(v@.subrange(0, v@.len() as int) == v@);
    let n2 = strip_suffix_len(&v, n1, &slash);
    assert(v@.subrange(0, n1 as int).subrange(0, n2 as int) == v@.subrange(0, n2 as int));
    let ghost t = v@.subrange(0, n2 as int);
    assert(t == strip_suffix_all(strip_suffix_all(trim_spec(repository@), ".git"@), "/"@));
    let prefix = chars_of("https://github.com/");
    let tv = string_from_range(&v, 0, n2);
    let tc = chars_of(tv.as_str());
    let start = if seq_starts_with(&tc, &prefix) {
        prefix.len()
    } else {
        0
    };
    let ghost p = tc@.subrange(start as int, tc@.len() as int);
    assert(tc@.subrange(0, tc@.len() as int) == tc@);
    assert(p == github_path(repository@));
    // count slashes of the path
    let mut count: usize = 0;
    let mut i: usize = start;
    while i < tc.len()
        invariant
            start <= i <= tc@.len(),
            p == tc@.subrange(start as int, tc@.len() as int),
            count == slash_count(p.subrange(0, i - start)),
            count <= i - start,
        decreases tc.len() - i,
    {
        proof {
            lemma_slash_count_prefix(p, i - start);
        }
        if tc[i] == '/' {
            count = count + 1;
        }
        i = i + 1;
    }
    assert(p.subrange(0, p.len() as int) == p);
    if count == 1 && tc.len() > start && tc[start] != '/' && tc[tc.len() - 1] != '/' {
        let mut out = String::new();
        append_str(&mut out, "https://api.github.com/repos/");
        let mut j = start;
        while j < tc.len()
            invariant
                start <= j <= tc@.len(),
                p == tc@.subrange(start as int, tc@.len() as int),
                out@ == "https://api.github.com/repos/"@ + tc@.subrange(start as int, j as int),
            decreases tc.len() - j,
        {
            push_char(&mut out, tc[j]);
            assert(tc@.subrange(start as int, j + 1) == tc@.subrange(start as int, j as int).push(
                tc@[j as int],
            ));
            j = j + 1;
        }
        append_str(&mut out, "/releases/latest");
        Some(out)
    } else {
        None
    }
}

} // verus!
