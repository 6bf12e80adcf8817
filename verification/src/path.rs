//! Verified host/jail path arithmetic. Paths are plain strings; an *outer*
//! path is a host path and an *inner* path is one as the jailed VMM sees it
//! (absolute relative to its chroot).

use vstd::prelude::*;

verus! {

/// The given sequence with every leading '/' removed.
pub open spec fn strip_leading_slashes(s: Seq<char>) -> Seq<char>
    decreases s.len(),
{
    if s.len() > 0 && s[0] == '/' {
        strip_leading_slashes(s.skip(1))
    } else {
        s
    }
}

/// The host path corresponding to an absolute inner path: the inner path,
/// stripped of its leading slashes, appended to the outer root with a single
/// separator.
pub open spec fn jail_join_spec(outer: Seq<char>, inner: Seq<char>) -> Seq<char> {
    outer + seq!['/'] + strip_leading_slashes(inner)
}

proof fn lemma_strip_leading_slashes_skip(s: Seq<char>, i: int)
    requires
        0 <= i <= s.len(),
        forall|j: int| 0 <= j < i ==> s[j] == '/',
    ensures
        strip_leading_slashes(s) == strip_leading_slashes(s.skip(i)),
    decreases i,
{
    if i > 0 {
        assert(s.len() > 0 && s[0] == '/');
        assert(s.skip(1).skip(i - 1) =~= s.skip(i));
        lemma_strip_leading_slashes_skip(s.skip(1), i - 1);
    } else {
        assert(s.skip(0) =~= s);
    }
}

/// Joins two absolute paths: the outer jail root and an inner path.
pub fn jail_join(outer_path: &str, inner_path: &str) -> (r: String)
    ensures
        r@ == jail_join_spec(outer_path@, inner_path@),
{
    let len = inner_path.unicode_len();
    let mut i: usize = 0;
    while i < len && inner_path.get_char(i) == '/'
        invariant
            0 <= i <= len == inner_path@.len(),
            forall|j: int| 0 <= j < i ==> inner_path@[j] == '/',
        decreases len - i,
    {
        i = i + 1;
    }
    proof {
        lemma_strip_leading_slashes_skip(inner_path@, i as int);
        if i < len {
            assert(inner_path@.skip(i as int)[0] == inner_path@[i as int]);
        }
        assert(strip_leading_slashes(inner_path@.skip(i as int)) == inner_path@.skip(i as int));
        reveal_strlit("/");
    }
    let tail = inner_path.substring_char(i, len);
    let r = outer_path.to_owned().concat("/").concat(tail);
    proof {
        assert(inner_path@.subrange(i as int, len as int) =~= inner_path@.skip(i as int));
        assert(r@ =~= jail_join_spec(outer_path@, inner_path@));
    }
    r
}

/// The given sequence with every trailing '/' removed.
pub open spec fn strip_trailing_slashes(s: Seq<char>) -> Seq<char>
    decreases s.len(),
{
    if s.len() > 0 && s.last() == '/' {
        strip_trailing_slashes(s.drop_last())
    } else {
        s
    }
}

/// The maximal suffix that contains no '/'.
pub open spec fn after_last_slash(s: Seq<char>) -> Seq<char>
    decreases s.len(),
{
    if s.len() == 0 {
        s
    } else if s.last() == '/' {
        Seq::<char>::empty()
    } else {
        after_last_slash(s.drop_last()).push(s.last())
    }
}

/// The final path component: trailing separators are ignored; `None` when
/// nothing is left (the root, the empty path, or a path of separators only).
pub open spec fn file_name_spec(p: Seq<char>) -> Option<Seq<char>> {
    let trimmed = strip_trailing_slashes(p);
    if trimmed.len() == 0 {
        None
    } else {
        Some(after_last_slash(trimmed))
    }
}

proof fn lemma_strip_trailing_slashes_prefix(s: Seq<char>, j: int)
    requires
        0 <= j <= s.len(),
        forall|m: int| j <= m < s.len() ==> s[m] == '/',
    ensures
        strip_trailing_slashes(s) == strip_trailing_slashes(s.subrange(0, j)),
    decreases s.len() - j,
{
    if j == s.len() {
        assert(s.subrange(0, j) =~= s);
    } else {
        assert(s.last() == '/');
        assert(s.drop_last() =~= s.subrange(0, s.len() - 1));
        lemma_strip_trailing_slashes_prefix(s.subrange(0, s.len() - 1), j);
        assert(s.subrange(0, s.len() - 1).subrange(0, j) =~= s.subrange(0, j));
    }
}

proof fn lemma_after_last_slash_no_slash(t: Seq<char>)
    requires
        forall|m: int| 0 <= m < t.len() ==> t[m] != '/',
    ensures
        after_last_slash(t) == t,
    decreases t.len(),
{
    if t.len() > 0 {
        lemma_after_last_slash_no_slash(t.drop_last());
        assert(after_last_slash(t) =~= t);
    } else {
        assert(after_last_slash(t) =~= t);
    }
}

proof fn lemma_after_last_slash_suffix(t: Seq<char>, k: int)
    requires
        0 <= k < t.len(),
        t[k] == '/',
        forall|m: int| k < m < t.len() ==> t[m] != '/',
    ensures
        after_last_slash(t) == t.subrange(k + 1, t.len() as int),
    decreases t.len() - k,
{
    if k == t.len() - 1 {
        assert(t.last() == '/');
        assert(after_last_slash(t) =~= t.subrange(k + 1, t.len() as int));
    } else {
        assert(t.last() != '/');
        assert(t.drop_last() =~= t.subrange(0, t.len() - 1));
        lemma_after_last_slash_suffix(t.subrange(0, t.len() - 1), k);
        assert(t.subrange(0, t.len() - 1).subrange(k + 1, t.len() - 1) =~= t.subrange(
            k + 1,
            t.len() - 1,
        ));
        assert(after_last_slash(t) =~= t.subrange(k + 1, t.len() as int));
    }
}

/// The final path component of the given path, `None` when it has none.
pub fn file_name(path: &str) -> (r: Option<String>)
    ensures
        match r {
            Some(name) => file_name_spec(path@) == Some(name@),
            None => file_name_spec(path@) is None,
        },
{
    let len = path.unicode_len();
    // Index just past the last character that is not a '/'.
    let mut j: usize = len;
    while j > 0 && path.get_char(j - 1) == '/'
        invariant
            0 <= j <= len == path@.len(),
            forall|m: int| j <= m < len ==> path@[m] == '/',
        decreases j,
    {
        j = j - 1;
    }
    proof {
        lemma_strip_trailing_slashes_prefix(path@, j as int);
        if j > 0 {
            assert(path@.subrange(0, j as int).last() == path@[j - 1]);
        }
        assert(strip_trailing_slashes(path@.subrange(0, j as int)) == path@.subrange(0, j as int));
    }
    if j == 0 {
        assert(path@.subrange(0, 0) =~= Seq::<char>::empty());
        return None;
    }
    // Index of the first character of the final component.
    let mut k: usize = j;
    while k > 0 && path.get_char(k - 1) != '/'
        invariant
            0 <= k <= j <= path@.len(),
            forall|m: int| k <= m < j ==> path@[m] != '/',
        decreases k,
    {
        k = k - 1;
    }
    let trimmed = Ghost(path@.subrange(0, j as int));
    proof {
        if k == 0 {
            lemma_after_last_slash_no_slash(trimmed@);
            assert(trimmed@ =~= path@.subrange(0, j as int));
        } else {
            assert(path@[k - 1] == '/');
            assert(trimmed@[k - 1] == '/');
            lemma_after_last_slash_suffix(trimmed@, k - 1);
        }
    }
    let name = path.substring_char(k, j);
    proof {
        if k > 0 {
            assert(trimmed@.subrange(k as int, j as int) =~= path@.subrange(k as int, j as int));
        }
        assert(after_last_slash(trimmed@) =~= path@.subrange(k as int, j as int));
    }
    Some(name.to_owned())
}

/// The path of the directory that contains the given path, `None` for paths
/// without one (the root, the empty path). For a path directly under the
/// root the parent is "/".
pub open spec fn parent_dir_spec(p: Seq<char>) -> Option<Seq<char>> {
    let trimmed = strip_trailing_slashes(p);
    if trimmed.len() == 0 {
        None
    } else {
        let name_len = after_last_slash(trimmed).len();
        if name_len == trimmed.len() {
            None
        } else if name_len + 1 == trimmed.len() {
            Some(trimmed.subrange(0, 1))
        } else {
            Some(strip_trailing_slashes(trimmed.subrange(0, trimmed.len() - name_len as int - 1)))
        }
    }
}

/// The directory that contains the given path.
pub fn parent_dir(path: &str) -> (r: Option<String>)
    ensures
        match r {
            Some(parent) => parent_dir_spec(path@) == Some(parent@),
            None => parent_dir_spec(path@) is None,
        },
{
    let len = path.unicode_len();
    let mut j: usize = len;
    while j > 0 && path.get_char(j - 1) == '/'
        invariant
            0 <= j <= len == path@.len(),
            forall|m: int| j <= m < len ==> path@[m] == '/',
        decreases j,
    {
        j = j - 1;
    }
    proof {
        lemma_strip_trailing_slashes_prefix(path@, j as int);
        if j > 0 {
            assert(path@.subrange(0, j as int).last() == path@[j - 1]);
        }
        assert(strip_trailing_slashes(path@.subrange(0, j as int)) == path@.subrange(0, j as int));
    }
    if j == 0 {
        assert(path@.subrange(0, 0) =~= Seq::<char>::empty());
        return None;
    }
    let mut k: usize = j;
    while k > 0 && path.get_char(k - 1) != '/'
        invariant
            0 <= k <= j <= path@.len(),
            forall|m: int| k <= m < j ==> path@[m] != '/',
        decreases k,
    {
        k = k - 1;
    }
    let trimmed = Ghost(path@.subrange(0, j as int));
    proof {
        if k == 0 {
            lemma_after_last_slash_no_slash(trimmed@);
        } else {
            assert(trimmed@[k - 1] == '/');
            lemma_after_last_slash_suffix(trimmed@, k - 1);
            assert(after_last_slash(trimmed@) =~= trimmed@.subrange(k as int, j as int));
        }
    }
    if k == 0 {
        return None;
    }
    if k == 1 {
        let root = path.substring_char(0, 1);
        proof {
            assert(trimmed@.subrange(0, 1) =~= path@.subrange(0, 1));
        }
        return Some(root.to_owned());
    }
    // Drop the final component and its separator, then any further trailing
    // separators.
    let mut j2: usize = k - 1;
    while j2 > 0 && path.get_char(j2 - 1) == '/'
        invariant
            0 <= j2 <= k - 1,
            k >= 2,
            k <= j <= path@.len(),
            forall|m: int| j2 <= m < k - 1 ==> path@[m] == '/',
        decreases j2,
    {
        j2 = j2 - 1;
    }
    let prefix = Ghost(trimmed@.subrange(0, k - 1));
    proof {
        assert(prefix@ =~= path@.subrange(0, k - 1));
        lemma_strip_trailing_slashes_prefix(prefix@, j2 as int);
        if j2 > 0 {
            assert(prefix@.subrange(0, j2 as int).last() == path@[j2 - 1]);
        }
        assert(strip_trailing_slashes(prefix@.subrange(0, j2 as int)) == prefix@.subrange(
            0,
            j2 as int,
        ));
        assert(prefix@.subrange(0, j2 as int) =~= path@.subrange(0, j2 as int));
    }
    let parent = path.substring_char(0, j2);
    Some(parent.to_owned())
}

proof fn lemma_strip_trailing_slashes_is_prefix(s: Seq<char>)
    ensures
        strip_trailing_slashes(s).len() <= s.len(),
        strip_trailing_slashes(s) == s.subrange(0, strip_trailing_slashes(s).len() as int),
        strip_trailing_slashes(s).len() > 0 ==> strip_trailing_slashes(s).last() != '/',
    decreases s.len(),
{
    if s.len() > 0 && s.last() == '/' {
        lemma_strip_trailing_slashes_is_prefix(s.drop_last());
        let kept = strip_trailing_slashes(s).len() as int;
        assert(s.drop_last() =~= s.subrange(0, s.len() - 1));
        assert(s.subrange(0, s.len() - 1).subrange(0, kept) =~= s.subrange(0, kept));
    }
}

proof fn lemma_after_last_slash_shorter(t: Seq<char>)
    ensures
        after_last_slash(t).len() <= t.len(),
    decreases t.len(),
{
    if t.len() > 0 && t.last() != '/' {
        lemma_after_last_slash_shorter(t.drop_last());
    }
}

/// A path's parent directory is a strict prefix of the path: whatever lives
/// at the path lives inside the parent, so removing the parent recursively
/// removes the path too.
pub proof fn lemma_parent_dir_is_strict_prefix(p: Seq<char>, parent: Seq<char>)
    requires
        parent_dir_spec(p) == Some(parent),
    ensures
        parent.len() < p.len(),
        parent == p.subrange(0, parent.len() as int),
{
    let trimmed = strip_trailing_slashes(p);
    lemma_strip_trailing_slashes_is_prefix(p);
    lemma_after_last_slash_shorter(trimmed);
    let name_len = after_last_slash(trimmed).len();
    assert(trimmed.len() > 0);
    assert(trimmed.last() != '/');
    assert(name_len > 0) by {
        assert(after_last_slash(trimmed) == after_last_slash(trimmed.drop_last()).push(
            trimmed.last(),
        ));
    }
    if name_len + 1 == trimmed.len() {
        assert(trimmed.subrange(0, 1) =~= p.subrange(0, 1));
    } else {
        assert(name_len < trimmed.len());
        let prefix = trimmed.subrange(0, trimmed.len() - name_len as int - 1);
        lemma_strip_trailing_slashes_is_prefix(prefix);
        let kept = parent.len() as int;
        assert(prefix.subrange(0, kept) =~= trimmed.subrange(0, kept));
        assert(trimmed.subrange(0, kept) =~= p.subrange(0, kept));
    }
}

} // verus!
