//! Paths as text.
//!
//! The library builds and takes apart paths itself and never touches the file system, so a
//! path is a string here. Components are joined with `/`; both `/` and `\` are read as
//! separators.
use crate::text::chars_of;
use vstd::prelude::*;
use vstd::string::*;

verus! {

/// `c` separates the components of a path.
pub open spec fn is_separator(c: char) -> bool {
    c == '/' || c == '\\'
}

/// `base` followed by the component `name`: a `/` is put between them unless `base` is
/// empty or already ends with a separator.
pub open spec fn joined(base: Seq<char>, name: Seq<char>) -> Seq<char> {
    if base.len() == 0 || is_separator(base.last()) {
        base + name
    } else {
        base + seq!['/'] + name
    }
}

/// The position just after the last character of `s` that satisfies `p`; 0 where none does.
pub open spec fn after_last(s: Seq<char>, p: spec_fn(char) -> bool) -> int
    decreases s.len(),
{
    if s.len() == 0 {
        0
    } else if p(s.last()) {
        s.len() as int
    } else {
        after_last(s.drop_last(), p)
    }
}

/// `path` up to the end of its last component: without the separators and the `.`
/// components that follow it. They make no difference to what a path names.
pub open spec fn without_trailing(path: Seq<char>) -> Seq<char>
    decreases path.len(),
{
    if path.len() == 0 {
        path
    } else if is_separator(path.last()) {
        without_trailing(path.drop_last())
    } else if path.last() == '.' && path.len() >= 2 && is_separator(path[path.len() - 2]) {
        without_trailing(path.subrange(0, path.len() - 2))
    } else {
        path
    }
}

/// Where the last component of `path` starts, for a path that ends with its last
/// component.
pub open spec fn name_start(path: Seq<char>) -> int {
    after_last(path, |c: char| is_separator(c))
}

/// The last component of `path`: what follows the last separator before it. Separators
/// and `.` components behind it are passed over.
pub open spec fn file_name(path: Seq<char>) -> Seq<char> {
    let ended = without_trailing(path);
    ended.subrange(name_start(ended), ended.len() as int)
}

/// A file name without its extension: what precedes the last `.`, or the whole name where
/// it has no `.` or only a leading one.
pub open spec fn stem(name: Seq<char>) -> Seq<char> {
    let dot = after_last(name, |c: char| c == '.') - 1;
    if dot <= 0 {
        name
    } else {
        name.subrange(0, dot)
    }
}

/// `name` can name a file: it is not empty, `.` or `..`.
pub open spec fn is_plain_name(name: Seq<char>) -> bool {
    name.len() > 0 && name != seq!['.'] && name != seq!['.', '.']
}

/// The base name of the file that `path` names, without extension; `None` where `path`
/// has no last component that can name a file: where it is empty, only a root or `.`, or
/// ends with `..`.
pub open spec fn base_name(path: Seq<char>) -> Option<Seq<char>> {
    let name = file_name(path);
    if is_plain_name(name) {
        Some(stem(name))
    } else {
        None
    }
}

/// The directory that holds what `path` names: `path` without its last component and
/// without the separators before it. There is none where `path` has no last component: where
/// it is empty or only a root. A path of one component lies in the empty (current)
/// directory. One separator is kept where it is the path's root or follows a drive (`C:\`).
pub open spec fn containing_dir(path: Seq<char>) -> Option<Seq<char>> {
    let ended = without_trailing(path);
    let start = name_start(ended);
    let front = without_trailing(ended.subrange(0, start));
    if ended.len() == 0 {
        None
    } else if start == 0 {
        Some(Seq::<char>::empty())
    } else if front.len() == 0 {
        Some(ended.subrange(0, 1))
    } else if front.last() == ':' {
        Some(ended.subrange(0, front.len() as int + 1))
    } else {
        Some(front)
    }
}

/// `after_last` is the one position that follows a match, or is 0, and has no match behind it.
pub proof fn lemma_after_last(s: Seq<char>, p: spec_fn(char) -> bool, k: int)
    requires
        0 <= k <= s.len(),
        k == 0 || p(s[k - 1]),
        forall|j: int| k <= j < s.len() ==> !p(#[trigger] s[j]),
    ensures
        after_last(s, p) == k,
    decreases s.len(),
{
    if s.len() > k {
        let t = s.drop_last();
        assert(!p(s[s.len() - 1]));
        lemma_after_last(t, p, k);
    }
}

fn separator(c: char) -> (r: bool)
    ensures
        r == is_separator(c),
{
    c == '/' || c == '\\'
}

/// The end of the last component of the first `len` characters.
fn find_end(v: &Vec<char>, len: usize) -> (end: usize)
    requires
        len <= v.len(),
    ensures
        end <= len,
        v@.subrange(0, end as int) == without_trailing(v@.subrange(0, len as int)),
        len > 0 && is_separator(v@[len - 1]) ==> end < len,
{
    let mut end: usize = len;
    loop
        invariant
            end <= len <= v.len(),
            without_trailing(v@.subrange(0, end as int)) == without_trailing(
                v@.subrange(0, len as int),
            ),
        ensures
            end <= len,
            without_trailing(v@.subrange(0, end as int)) == v@.subrange(0, end as int),
            len > 0 && is_separator(v@[len - 1]) ==> end < len,
        decreases end,
    {
        let ghost here = v@.subrange(0, end as int);
        if end > 0 && separator(v[end - 1]) {
            assert(here.drop_last() =~= v@.subrange(0, end - 1));
            end = end - 1;
        } else if end >= 2 && v[end - 1] == '.' && separator(v[end - 2]) {
            assert(here.subrange(0, here.len() - 2) =~= v@.subrange(0, end - 2));
            end = end - 2;
        } else {
            break ;
        }
    }
    end
}

/// The start of the last component of the first `end` characters.
fn find_name_start(v: &Vec<char>, end: usize) -> (k: usize)
    requires
        end <= v.len(),
    ensures
        k == name_start(v@.subrange(0, end as int)),
        k <= end,
        k == 0 || is_separator(v@[k - 1]),
{
    let mut k: usize = end;
    while k > 0 && !separator(v[k - 1])
        invariant
            k <= end <= v.len(),
            forall|j: int| k <= j < end ==> !is_separator(#[trigger] v@[j]),
        decreases k,
    {
        k = k - 1;
    }
    proof {
        let p = |c: char| is_separator(c);
        let head = v@.subrange(0, end as int);
        assert forall|j: int| k <= j < head.len() implies !p(#[trigger] head[j]) by {
            assert(!is_separator(v@[j]));
        }
        if k > 0 {
            assert(head[k - 1] == v@[k - 1]);
        }
        lemma_after_last(head, p, k as int);
    }
    k
}

/// `base` followed by the component `name`.
pub fn join(base: &str, name: &str) -> (out: String)
    ensures
        out@ == joined(base@, name@),
{
    let b = chars_of(base);
    let mut out = String::from_str(base);
    if b.len() > 0 && !separator(b[b.len() - 1]) {
        proof {
            reveal_strlit("/");
            assert("/"@ =~= seq!['/']);
        }
        out.append("/");
    }
    out.append(name);
    out
}

/// The base name of the file that `path` names, without extension.
pub fn file_stem(path: &str) -> (out: Option<String>)
    ensures
        out is Some == base_name(path@) is Some,
        out matches Some(s) ==> s@ == base_name(path@)->0,
{
    let v = chars_of(path);
    assert(v@.subrange(0, v@.len() as int) =~= v@);
    let n: usize = find_end(&v, v.len());
    let k: usize = find_name_start(&v, n);
    let len: usize = n - k;
    let ghost name = file_name(path@);
    assert(name =~= v@.subrange(k as int, n as int));
    if len == 0 {
        return None;
    }
    if len == 1 && v[k] == '.' {
        assert(name =~= seq!['.']);
        return None;
    }
    if len == 2 && v[k] == '.' && v[k + 1] == '.' {
        assert(name =~= seq!['.', '.']);
        return None;
    }
    assert(is_plain_name(name)) by {
        if name == seq!['.'] {
            assert(name[0] == '.');
        }
        if name == seq!['.', '.'] {
            assert(name[0] == '.' && name[1] == '.');
        }
    }
    let mut d: usize = n;
    while d > k && v[d - 1] != '.'
        invariant
            k <= d <= n <= v.len(),
            forall|j: int| d <= j < n ==> v@[j] != '.',
        decreases d,
    {
        d = d - 1;
    }
    proof {
        let q = |c: char| c == '.';
        assert forall|j: int| d - k <= j < name.len() implies !q(#[trigger] name[j]) by {
            assert(name[j] == v@[k + j]);
        }
        if d > k {
            assert(name[d - k - 1] == v@[d - 1]);
        }
        lemma_after_last(name, q, d - k);
    }
    // `d - k - 1` is the place of the last dot within the name, where it has one.
    let end: usize = if d <= k + 1 {
        n
    } else {
        d - 1
    };
    proof {
        if d <= k + 1 {
            assert(stem(name) == name);
        } else {
            assert(stem(name) == name.subrange(0, d - k - 1));
            assert(name.subrange(0, d - k - 1) =~= v@.subrange(k as int, d - 1));
        }
    }
    Some(String::from_str(path.substring_char(k, end)))
}

/// The directory that holds what `path` names.
pub fn parent_dir(path: &str) -> (out: Option<String>)
    ensures
        out is Some == containing_dir(path@) is Some,
        out matches Some(s) ==> s@ == containing_dir(path@)->0,
{
    let v = chars_of(path);
    assert(v@.subrange(0, v@.len() as int) =~= v@);
    let n: usize = find_end(&v, v.len());
    let k: usize = find_name_start(&v, n);
    let ghost ended = v@.subrange(0, n as int);
    assert(ended.subrange(0, k as int) =~= v@.subrange(0, k as int));
    if n == 0 {
        None
    } else if k == 0 {
        Some(String::new())
    } else {
        let f: usize = find_end(&v, k);
        if f == 0 {
            assert(ended.subrange(0, 1) =~= v@.subrange(0, 1));
            Some(String::from_str(path.substring_char(0, 1)))
        } else if v[f - 1] == ':' {
            assert(ended.subrange(0, f + 1) =~= v@.subrange(0, f + 1));
            Some(String::from_str(path.substring_char(0, f + 1)))
        } else {
            Some(String::from_str(path.substring_char(0, f)))
        }
    }
}

} // verus!
