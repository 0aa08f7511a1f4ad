//! Verified text utilities: lexicographic ordering of character sequences,
//! directory-name sanitization, repository-name derivation from a remote
//! link, and path-segment arithmetic on `/`-separated path strings.

use vstd::prelude::*;
use vstd::string::StrSliceExecFns;
use vstd::string::StringExecFns;

verus! {

/// Case-sensitive lexicographic order on character sequences, comparing
/// characters by code point. `true` when `a` sorts at or before `b`.
pub open spec fn lex_leq(a: Seq<char>, b: Seq<char>) -> bool
    decreases a.len(),
{
    if a.len() == 0 {
        true
    } else if b.len() == 0 {
        false
    } else if a[0] != b[0] {
        (a[0] as int) < (b[0] as int)
    } else {
        lex_leq(a.drop_first(), b.drop_first())
    }
}

/// Any two sequences are comparable under `lex_leq`.
pub proof fn lemma_lex_leq_total(a: Seq<char>, b: Seq<char>)
    ensures
        lex_leq(a, b) || lex_leq(b, a),
    decreases a.len(),
{
    if a.len() == 0 || b.len() == 0 {
    } else if a[0] != b[0] {
        assert((a[0] as int) != (b[0] as int));
    } else {
        lemma_lex_leq_total(a.drop_first(), b.drop_first());
    }
}

/// `lex_leq` is transitive.
pub proof fn lemma_lex_leq_transitive(a: Seq<char>, b: Seq<char>, c: Seq<char>)
    requires
        lex_leq(a, b),
        lex_leq(b, c),
    ensures
        lex_leq(a, c),
    decreases a.len(),
{
    if a.len() == 0 {
    } else if b.len() == 0 {
    } else if c.len() == 0 {
    } else {
        if a[0] == b[0] && b[0] == c[0] {
            lemma_lex_leq_transitive(a.drop_first(), b.drop_first(), c.drop_first());
        }
    }
}

/// If `a` and `b` agree on their first `i` characters, comparing them is the
/// same as comparing their tails from position `i` on.
proof fn lemma_lex_leq_skip(a: Seq<char>, b: Seq<char>, i: int)
    requires
        0 <= i <= a.len(),
        0 <= i <= b.len(),
        forall|j: int| 0 <= j < i ==> a[j] == b[j],
    ensures
        lex_leq(a, b) == lex_leq(a.skip(i), b.skip(i)),
    decreases i,
{
    if i > 0 {
        assert(a.drop_first() =~= a.skip(1));
        assert(b.drop_first() =~= b.skip(1));
        lemma_lex_leq_skip(a.skip(1), b.skip(1), i - 1);
        assert(a.skip(1).skip(i - 1) =~= a.skip(i));
        assert(b.skip(1).skip(i - 1) =~= b.skip(i));
    } else {
        assert(a.skip(0) =~= a);
        assert(b.skip(0) =~= b);
    }
}

/// Decides `lex_leq` on two string slices.
pub fn str_leq(a: &str, b: &str) -> (r: bool)
    ensures
        r == lex_leq(a@, b@),
{
    let a_len = a.unicode_len();
    let b_len = b.unicode_len();
    let mut i: usize = 0;
    loop
        invariant
            i <= a_len,
            i <= b_len,
            a_len == a@.len(),
            b_len == b@.len(),
            forall|j: int| 0 <= j < i ==> a@[j] == b@[j],
        decreases a_len - i,
    {
        if i >= a_len {
            proof {
                lemma_lex_leq_skip(a@, b@, i as int);
            }
            return true;
        }
        if i >= b_len {
            proof {
                lemma_lex_leq_skip(a@, b@, i as int);
            }
            return false;
        }
        let ca = a.get_char(i);
        let cb = b.get_char(i);
        if ca != cb {
            proof {
                lemma_lex_leq_skip(a@, b@, i as int);
            }
            return (ca as u32) < (cb as u32);
        }
        i = i + 1;
    }
}

/// Replaces every `/` and `.` character with `_`; all others are kept.
pub open spec fn spec_sanitize(s: Seq<char>) -> Seq<char> {
    s.map(|_i: int, c: char| if c == '/' || c == '.' { '_' } else { c })
}

/// Sanitizing twice is the same as sanitizing once.
pub proof fn lemma_sanitize_idempotent(s: Seq<char>)
    ensures
        spec_sanitize(spec_sanitize(s)) == spec_sanitize(s),
{
    assert(spec_sanitize(spec_sanitize(s)) =~= spec_sanitize(s));
}

/// A sanitized sequence holds no `/` and no `.`.
pub proof fn lemma_sanitize_clean(s: Seq<char>)
    ensures
        forall|i: int|
            0 <= i < spec_sanitize(s).len() ==> #[trigger] spec_sanitize(s)[i] != '/'
                && spec_sanitize(s)[i] != '.',
{
}

/// Rewrites a requested directory name so that it is safe for the on-disk
/// layout this tool scans: every `/` and `.` becomes `_`.
pub fn sanitise_git_dir_name(s: &str) -> (r: String)
    ensures
        r@ == spec_sanitize(s@),
{
    let n = s.unicode_len();
    let mut r = String::new();
    let mut i: usize = 0;
    while i < n
        invariant
            i <= n,
            n == s@.len(),
            r@ == spec_sanitize(s@.subrange(0, i as int)),
        decreases n - i,
    {
        let c = s.get_char(i);
        if c == '/' || c == '.' {
            r.append("_");
            proof {
                reveal_strlit("_");
            }
        } else {
            let piece = s.substring_char(i, i + 1);
            r.append(piece);
        }
        proof {
            assert(spec_sanitize(s@.subrange(0, i + 1 as int)) =~= spec_sanitize(
                s@.subrange(0, i as int),
            ) + seq![
                if s@[i as int] == '/' || s@[i as int] == '.' {
                    '_'
                } else {
                    s@[i as int]
                },
            ]);
            assert(s@.subrange(i as int, i + 1 as int) =~= seq![s@[i as int]]);
        }
        i = i + 1;
    }
    proof {
        assert(s@.subrange(0, n as int) =~= s@);
    }
    r
}

/// Index of the last occurrence of `c` in `s`, or `-1` when `c` does not
/// occur.
pub open spec fn last_occurrence(s: Seq<char>, c: char) -> int
    decreases s.len(),
{
    if s.len() == 0 {
        -1
    } else if s[s.len() - 1] == c {
        s.len() - 1
    } else {
        last_occurrence(s.drop_last(), c)
    }
}

/// The defining properties of `last_occurrence`: it is a valid index of `c`
/// with nothing equal to `c` after it, or `-1` when `c` never occurs.
pub proof fn lemma_last_occurrence(s: Seq<char>, c: char)
    ensures
        -1 <= last_occurrence(s, c) < s.len(),
        last_occurrence(s, c) >= 0 ==> s[last_occurrence(s, c)] == c,
        forall|j: int| last_occurrence(s, c) < j < s.len() ==> s[j] != c,
        last_occurrence(s, c) == -1 ==> forall|j: int| 0 <= j < s.len() ==> s[j] != c,
    decreases s.len(),
{
    if s.len() > 0 && s[s.len() - 1] != c {
        lemma_last_occurrence(s.drop_last(), c);
        assert(forall|j: int| 0 <= j < s.len() - 1 ==> s.drop_last()[j] == s[j]);
    }
}

/// Finds the last occurrence of `c` in `s`, scanning from the end.
pub fn find_last(s: &str, c: char) -> (r: Option<usize>)
    ensures
        r is Some <==> last_occurrence(s@, c) >= 0,
        r is Some ==> r.unwrap() == last_occurrence(s@, c),
{
    let n = s.unicode_len();
    let mut i: usize = n;
    proof {
        lemma_last_occurrence(s@, c);
    }
    while i > 0
        invariant
            i <= n,
            n == s@.len(),
            forall|j: int| i <= j < n ==> s@[j] != c,
            -1 <= last_occurrence(s@, c) < s@.len(),
            last_occurrence(s@, c) >= 0 ==> s@[last_occurrence(s@, c)] == c,
            forall|j: int| last_occurrence(s@, c) < j < s@.len() ==> s@[j] != c,
            last_occurrence(s@, c) == -1 ==> forall|j: int| 0 <= j < s@.len() ==> s@[j] != c,
        decreases i,
    {
        let cur = s.get_char(i - 1);
        if cur == c {
            return Some(i - 1);
        }
        i = i - 1;
    }
    None
}

/// The text after the last `/` of `p`; all of `p` when it holds no `/`.
pub open spec fn spec_file_name(p: Seq<char>) -> Seq<char> {
    p.subrange(last_occurrence(p, '/') + 1, p.len() as int)
}

/// The text before the last `/` of `p`; `/` alone when the last `/` opens
/// the path, and empty when `p` holds no `/`.
pub open spec fn spec_parent(p: Seq<char>) -> Seq<char> {
    let sl = last_occurrence(p, '/');
    if sl < 0 {
        Seq::<char>::empty()
    } else if sl == 0 {
        p.subrange(0, 1)
    } else {
        p.subrange(0, sl)
    }
}

/// Final path segment of a `/`-separated path.
pub fn file_name_of(p: &str) -> (r: String)
    ensures
        r@ == spec_file_name(p@),
{
    proof {
        lemma_last_occurrence(p@, '/');
    }
    let n = p.unicode_len();
    match find_last(p, '/') {
        Some(sl) => {
            let piece = p.substring_char(sl + 1, n);
            piece.to_owned()
        },
        None => {
            proof {
                assert(p@.subrange(0, n as int) =~= p@);
            }
            p.to_owned()
        },
    }
}

/// Everything up to the final path segment of a `/`-separated path.
pub fn parent_of(p: &str) -> (r: String)
    ensures
        r@ == spec_parent(p@),
{
    proof {
        lemma_last_occurrence(p@, '/');
    }
    match find_last(p, '/') {
        Some(sl) => {
            if sl == 0 {
                let piece = p.substring_char(0, 1);
                piece.to_owned()
            } else {
                let piece = p.substring_char(0, sl);
                piece.to_owned()
            }
        },
        None => String::new(),
    }
}

/// The default repository name a remote link yields: the text after the
/// link's last `/` and before the last `.` that follows it. `None` when the
/// link holds no `/`, or no `.` after its last `/`.
pub open spec fn spec_repo_name(s: Seq<char>) -> Option<Seq<char>> {
    let sl = last_occurrence(s, '/');
    if sl < 0 {
        None
    } else {
        let after = s.skip(sl + 1);
        let dot = last_occurrence(after, '.');
        if dot < 0 {
            None
        } else {
            Some(after.subrange(0, dot))
        }
    }
}

/// The error line reported when no name can be derived from a link.
pub open spec fn spec_link_error(s: Seq<char>) -> Seq<char> {
    "Could not interpret '"@ + s + "' as git repository link."@
}

fn link_error(s: &str) -> (r: String)
    ensures
        r@ == spec_link_error(s@),
{
    let r = "Could not interpret '".to_owned().concat(s);
    r.concat("' as git repository link.")
}

/// Derives the default repository name from a remote link, or reports the
/// link as uninterpretable: `Ok` exactly when the link holds a `/` and a
/// `.` somewhere after its last `/`.
pub fn get_repo_name_from_git_link(s: &str) -> (r: Result<String, String>)
    ensures
        r is Ok <==> spec_repo_name(s@) is Some,
        r is Ok ==> r.unwrap()@ == spec_repo_name(s@).unwrap(),
        r is Err ==> r.unwrap_err()@ == spec_link_error(s@),
{
    proof {
        lemma_last_occurrence(s@, '/');
    }
    let n = s.unicode_len();
    match find_last(s, '/') {
        Some(sl) => {
            let after = s.substring_char(sl + 1, n);
            proof {
                assert(after@ =~= s@.skip(sl + 1));
                lemma_last_occurrence(after@, '.');
            }
            match find_last(after, '.') {
                Some(dot) => {
                    let name = after.substring_char(0, dot);
                    Ok(name.to_owned())
                },
                None => Err(link_error(s)),
            }
        },
        None => Err(link_error(s)),
    }
}

/// Joins a directory path and an entry name with a single `/`.
pub fn join_path(base: &str, name: &str) -> (r: String)
    ensures
        r@ == base@ + "/"@ + name@,
{
    let r = base.to_owned().concat("/");
    r.concat(name)
}

/// A configured path expanded against the home directory: a `~/` prefix is
/// replaced by the home directory, an absolute path is kept, and a relative
/// path is joined onto the home directory.
pub open spec fn spec_expand_home(home: Seq<char>, p: Seq<char>) -> Seq<char> {
    if p.len() >= 2 && p[0] == '~' && p[1] == '/' {
        home + "/"@ + p.skip(2)
    } else if p.len() >= 1 && p[0] == '/' {
        p
    } else {
        home + "/"@ + p
    }
}

/// Expands a configured path against the resolved home directory.
pub fn expand_home(home: &str, p: &str) -> (r: String)
    ensures
        r@ == spec_expand_home(home@, p@),
{
    let n = p.unicode_len();
    if n >= 2 && p.get_char(0) == '~' && p.get_char(1) == '/' {
        let rest = p.substring_char(2, n);
        let r = home.to_owned().concat("/");
        assert(p@.subrange(2, n as int) =~= p@.skip(2));
        r.concat(rest)
    } else if n >= 1 && p.get_char(0) == '/' {
        p.to_owned()
    } else {
        let r = home.to_owned().concat("/");
        r.concat(p)
    }
}

} // verus!
