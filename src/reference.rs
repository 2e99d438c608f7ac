//! Parsing of `name[:tag]` image references.
use vstd::prelude::*;
use vstd::string::StrSliceExecFns;
use vstd::string::StringExecFns;

verus! {

/// The tag used when a reference names none.
pub open spec fn default_tag() -> Seq<char> {
    seq!['l', 'a', 't', 'e', 's', 't']
}

/// The namespace that single-segment repository names live in.
pub open spec fn default_namespace() -> Seq<char> {
    seq!['l', 'i', 'b', 'r', 'a', 'r', 'y', '/']
}

pub open spec fn lacks(s: Seq<char>, c: char) -> bool {
    forall|k: int| 0 <= k < s.len() ==> s[k] != c
}

/// `s` holds `c` at two distinct places.
pub open spec fn holds_twice(s: Seq<char>, c: char) -> bool {
    exists|i: int, j: int| 0 <= i < j < s.len() && s[i] == c && s[j] == c
}

/// A reference that does not have the shape `name` or `name:tag` with a
/// non-empty name.
#[derive(Debug, Clone, Copy, PartialEq, Eq, Structural)]
pub enum ReferenceError {
    TooManySeparators,
    EmptyRepository,
}

/// The name part of `s` is empty: `s` is empty or starts with the separator.
pub open spec fn empty_name(s: Seq<char>) -> bool {
    s.len() == 0 || s[0] == ':'
}

#[derive(Debug, Clone)]
pub struct ImageReference {
    pub repository: String,
    pub tag: String,
}

/// The first index in `s@` at or after `from` that holds `c`, or the length.
fn find_char(s: &str, c: char, from: usize) -> (r: usize)
    requires
        from <= s@.len(),
    ensures
        from <= r <= s@.len(),
        forall|k: int| from <= k < r ==> s@[k] != c,
        r < s@.len() ==> s@[r as int] == c,
{
    let n = s.unicode_len();
    let mut i: usize = from;
    while i < n
        invariant
            n == s@.len(),
            from <= i <= n,
            forall|k: int| from <= k < i ==> s@[k] != c,
        decreases n - i,
    {
        if s.get_char(i) == c {
            return i;
        }
        i = i + 1;
    }
    i
}

/// Splits `name[:tag]` on the colon; a missing tag defaults to `latest`.
/// Two separators, or an empty name, are refused.
pub fn parse_reference(s: &str) -> (r: Result<ImageReference, ReferenceError>)
    ensures
        r is Err <==> holds_twice(s@, ':') || empty_name(s@),
        r is Err ==> r->Err_0 == (if holds_twice(s@, ':') {
            ReferenceError::TooManySeparators
        } else {
            ReferenceError::EmptyRepository
        }),
        r is Ok ==> r->Ok_0.repository@.len() > 0,
        r is Ok && lacks(s@, ':') ==> r->Ok_0.repository@ == s@ && r->Ok_0.tag@
            == default_tag(),
        r is Ok && !lacks(s@, ':') ==> r->Ok_0.repository@ + seq![':'] + r->Ok_0.tag@ == s@
            && lacks(r->Ok_0.repository@, ':') && lacks(r->Ok_0.tag@, ':'),
{
    let n = s.unicode_len();
    let p = find_char(s, ':', 0);
    if p < n {
        let q = find_char(s, ':', p + 1);
        if q < n {
            return Err(ReferenceError::TooManySeparators);
        }
    }
    if p == 0 {
        return Err(ReferenceError::EmptyRepository);
    }
    if p == n {
        let tag = String::from_str("latest");
        proof {
            reveal_strlit("latest");
            assert(tag@ =~= default_tag());
        }
        return Ok(ImageReference { repository: String::from_str(s), tag });
    }
    let repository = String::from_str(s.substring_char(0, p));
    let tag = String::from_str(s.substring_char(p + 1, n));
    assert(repository@ + seq![':'] + tag@ =~= s@);
    assert(!holds_twice(s@, ':'));
    Ok(ImageReference { repository, tag })
}

/// Prefixes a repository name that has no namespace segment with `library/`.
pub fn normalize_repository(repo: &str) -> (r: String)
    ensures
        lacks(repo@, '/') ==> r@ == default_namespace() + repo@,
        !lacks(repo@, '/') ==> r@ == repo@,
{
    let n = repo.unicode_len();
    if find_char(repo, '/', 0) < n {
        String::from_str(repo)
    } else {
        let prefix = String::from_str("library/");
        proof {
            reveal_strlit("library/");
            assert(prefix@ =~= default_namespace());
        }
        prefix.concat(repo)
    }
}

} // verus!
