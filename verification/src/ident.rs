//! The input parser: splitting an `owner/repo` identifier.
//!
//! An identifier is well formed exactly when it consists of two
//! non-empty segments joined by a single `/`. No normalization (case,
//! whitespace) is performed: the two segments are returned verbatim.

use vstd::prelude::*;
use vstd::string::StrSliceExecFns;
use crate::errors::AppError;
use crate::text::{count_char, lemma_count_char_append, lemma_count_char_zero};

verus! {

/// `owner` and `repo` are the two sides of `s`: both non-empty, neither
/// containing a separator, joined by a single `/`.
pub open spec fn is_ident_split(s: Seq<char>, owner: Seq<char>, repo: Seq<char>) -> bool {
    &&& owner.len() > 0
    &&& repo.len() > 0
    &&& !owner.contains('/')
    &&& !repo.contains('/')
    &&& s == owner + seq!['/'] + repo
}

/// `s` can be split into two non-empty `/`-free sides.
pub open spec fn well_formed_ident(s: Seq<char>) -> bool {
    exists|owner: Seq<char>, repo: Seq<char>| is_ident_split(s, owner, repo)
}

/// A split fixes the shape of the whole string: it holds exactly one
/// separator, sitting right after the owner segment.
proof fn lemma_split_shape(s: Seq<char>, owner: Seq<char>, repo: Seq<char>)
    requires
        is_ident_split(s, owner, repo),
    ensures
        count_char(s, '/') == 1,
        s.len() == owner.len() + 1 + repo.len(),
        s[owner.len() as int] == '/',
{
    lemma_count_char_zero(owner, '/');
    lemma_count_char_zero(repo, '/');
    assert(count_char(seq!['/'], '/') == 1) by {
        assert(seq!['/'].drop_last() =~= Seq::<char>::empty());
        assert(count_char(Seq::<char>::empty(), '/') == 0);
    }
    lemma_count_char_append(owner, seq!['/'], '/');
    lemma_count_char_append(owner + seq!['/'], repo, '/');
    assert(s =~= (owner + seq!['/']) + repo);
    assert(s[owner.len() as int] == '/');
}

/// Two splits of the same identifier agree: the parser's result is the
/// unique pair of sides.
pub proof fn lemma_ident_split_unique(
    s: Seq<char>,
    owner1: Seq<char>,
    repo1: Seq<char>,
    owner2: Seq<char>,
    repo2: Seq<char>,
)
    requires
        is_ident_split(s, owner1, repo1),
        is_ident_split(s, owner2, repo2),
    ensures
        owner1 == owner2,
        repo1 == repo2,
{
    lemma_split_shape(s, owner1, repo1);
    lemma_split_shape(s, owner2, repo2);
    if owner1.len() < owner2.len() {
        assert(owner2[owner1.len() as int] == s[owner1.len() as int]);
        assert(owner2.contains('/'));
        assert(false);
    }
    if owner2.len() < owner1.len() {
        assert(owner1[owner2.len() as int] == s[owner2.len() as int]);
        assert(owner1.contains('/'));
        assert(false);
    }
    assert(owner1 =~= owner2) by {
        assert(forall|i: int| 0 <= i < owner1.len() ==> owner1[i] == s[i] && owner2[i] == s[i]);
    }
    assert(repo1 =~= repo2) by {
        assert(forall|j: int| 0 <= j < repo1.len()
            ==> repo1[j] == s[owner1.len() + 1 + j] && repo2[j] == s[owner2.len() + 1 + j]);
    }
}

/// A string with other than one separator has no split.
proof fn lemma_reject_count(s: Seq<char>)
    requires
        count_char(s, '/') != 1,
    ensures
        !well_formed_ident(s),
{
    if well_formed_ident(s) {
        let (owner, repo) = choose|owner: Seq<char>, repo: Seq<char>| is_ident_split(s, owner, repo);
        lemma_split_shape(s, owner, repo);
    }
}

/// A string whose single separator sits at either end has an empty side,
/// so it has no split.
proof fn lemma_reject_edge(s: Seq<char>, fs: int)
    requires
        count_char(s, '/') == 1,
        0 <= fs < s.len(),
        s[fs] == '/',
        forall|j: int| 0 <= j < fs ==> s[j] != '/',
        fs == 0 || fs == s.len() - 1,
    ensures
        !well_formed_ident(s),
{
    if well_formed_ident(s) {
        let (owner, repo) = choose|owner: Seq<char>, repo: Seq<char>| is_ident_split(s, owner, repo);
        lemma_split_shape(s, owner, repo);
        let k = owner.len() as int;
        if k > fs {
            assert(owner[fs] == s[fs]);
            assert(owner.contains('/'));
            assert(false);
        }
        if k < fs {
            assert(s[k] == '/');
            assert(false);
        }
        assert(k == fs);
        if fs == 0 {
            assert(owner.len() == 0);
            assert(false);
        } else {
            assert(repo.len() == 0);
            assert(false);
        }
    }
}

/// A string with exactly one separator, strictly inside, splits at it.
proof fn lemma_accept(s: Seq<char>, fs: int)
    requires
        count_char(s, '/') == 1,
        0 < fs < s.len() - 1,
        s[fs] == '/',
        forall|j: int| 0 <= j < fs ==> s[j] != '/',
    ensures
        is_ident_split(s, s.subrange(0, fs), s.subrange(fs + 1, s.len() as int)),
{
    let owner = s.subrange(0, fs);
    let repo = s.subrange(fs + 1, s.len() as int);
    assert(!owner.contains('/')) by {
        if owner.contains('/') {
            let i = choose|i: int| 0 <= i < owner.len() && owner[i] == '/';
            assert(s[i] == '/');
        }
    }
    assert(count_char(seq![s[fs]], '/') == 1) by {
        assert(seq![s[fs]].drop_last() =~= Seq::<char>::empty());
        assert(count_char(Seq::<char>::empty(), '/') == 0);
    }
    assert(s =~= (owner + seq![s[fs]]) + repo);
    lemma_count_char_append(owner, seq![s[fs]], '/');
    lemma_count_char_append(owner + seq![s[fs]], repo, '/');
    lemma_count_char_zero(owner, '/');
    assert(count_char(repo, '/') == 0);
    lemma_count_char_zero(repo, '/');
    assert(s =~= owner + seq!['/'] + repo);
}

/// Split a combined identifier into its owner and repository name.
///
/// Succeeds exactly on well-formed identifiers — two non-empty segments
/// joined by a single `/` — and returns the two sides verbatim; on any
/// other shape it fails with `MalformedIdentifier`.
pub fn parse_repo_name(repo_name: &str) -> (res: Result<(&str, &str), AppError>)
    ensures
        match res {
            Ok(parts) => is_ident_split(repo_name@, parts.0@, parts.1@),
            Err(e) => e == AppError::MalformedIdentifier && !well_formed_ident(repo_name@),
        },
        res is Ok <==> well_formed_ident(repo_name@),
{
    let ghost s = repo_name@;
    let n = repo_name.unicode_len();
    let mut i: usize = 0;
    let mut slash_count: usize = 0;
    let mut first_slash: usize = 0;
    while i < n
        invariant
            n == s.len(),
            s == repo_name@,
            i <= n,
            slash_count <= i,
            slash_count as nat == count_char(s.take(i as int), '/'),
            slash_count > 0 ==> first_slash < i && s[first_slash as int] == '/'
                && (forall|j: int| 0 <= j < first_slash ==> s[j] != '/'),
            slash_count == 0 ==> forall|j: int| 0 <= j < i ==> s[j] != '/',
        decreases n - i,
    {
        let c = repo_name.get_char(i);
        proof {
            assert(s.take(i as int + 1).drop_last() =~= s.take(i as int));
            assert(s.take(i as int + 1).last() == s[i as int]);
        }
        if c == '/' {
            if slash_count == 0 {
                first_slash = i;
            }
            slash_count = slash_count + 1;
        }
        i = i + 1;
    }
    proof {
        assert(s.take(n as int) =~= s);
    }
    if slash_count == 1 && first_slash > 0 && first_slash + 1 < n {
        let owner = repo_name.substring_char(0, first_slash);
        let repo = repo_name.substring_char(first_slash + 1, n);
        proof {
            lemma_accept(s, first_slash as int);
        }
        Ok((owner, repo))
    } else {
        proof {
            if slash_count != 1 {
                lemma_reject_count(s);
            } else {
                lemma_reject_edge(s, first_slash as int);
            }
        }
        Err(AppError::MalformedIdentifier)
    }
}

} // verus!
