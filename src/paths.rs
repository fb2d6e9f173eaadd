//! Paths as character sequences, read by the component rules of the host's
//! operating-system family: `/` separates components everywhere, `\` too on
//! the Windows family, where a path may also start with a drive (`C:`).
//! Paths this crate builds use the family's main separator.
use vstd::prelude::*;
use crate::platform::OsFamily;

verus! {

pub open spec fn is_separator(os: OsFamily, c: char) -> bool {
    c == '/' || (os is Windows && c == '\\')
}

/// The separator that joins components on `os`.
pub open spec fn main_separator_of(os: OsFamily) -> Seq<char> {
    if os is Windows {
        "\\"@
    } else {
        "/"@
    }
}

pub open spec fn is_drive_letter(c: char) -> bool {
    ('a' <= c && c <= 'z') || ('A' <= c && c <= 'Z')
}

/// The length of the prefix and root that `p` starts with: `/` on every
/// family; on the Windows family also a drive (`C:`), with or without a
/// separator after it, or a lone leading separator.
pub open spec fn root_len(os: OsFamily, p: Seq<char>) -> int {
    if os is Windows && p.len() >= 2 && is_drive_letter(p[0]) && p[1] == ':' {
        if p.len() >= 3 && is_separator(os, p[2]) {
            3
        } else {
            2
        }
    } else if p.len() >= 1 && is_separator(os, p[0]) {
        1
    } else {
        0
    }
}

/// `p` starts at a root: on the Windows family a drive and a separator, or
/// two separators (a network share); elsewhere a `/`.
pub open spec fn is_absolute(os: OsFamily, p: Seq<char>) -> bool {
    if os is Windows {
        root_len(os, p) == 3 || (p.len() >= 2 && is_separator(os, p[0]) && is_separator(os, p[1]))
    } else {
        p.len() >= 1 && p[0] == '/'
    }
}

/// `p` without trailing separators and trailing `.` components, down to its
/// root.
pub open spec fn trimmed(os: OsFamily, p: Seq<char>) -> Seq<char>
    decreases p.len(),
{
    if p.len() > root_len(os, p) && is_separator(os, p.last()) {
        trimmed(os, p.drop_last())
    } else if p.len() >= 2 && p.len() - 1 > root_len(os, p) && p.last() == '.' && is_separator(
        os,
        p[p.len() - 2],
    ) {
        trimmed(os, p.drop_last())
    } else {
        p
    }
}

/// `base` extended by the relative path `segment`.
pub open spec fn join(os: OsFamily, base: Seq<char>, segment: Seq<char>) -> Seq<char> {
    if base.len() == 0 || is_separator(os, base.last()) {
        base + segment
    } else {
        base + main_separator_of(os) + segment
    }
}

/// The index of the last separator among the first `n` characters of `p`,
/// or -1 where there is none.
pub open spec fn last_separator(os: OsFamily, p: Seq<char>, n: int) -> int
    decreases n,
{
    if n <= 0 {
        -1
    } else if is_separator(os, p[n - 1]) {
        n - 1
    } else {
        last_separator(os, p, n - 1)
    }
}

/// The directory that contains `p`: None where `p` is empty or only a
/// root; its root where its one component follows the root; else what
/// precedes its last component, trimmed.
pub open spec fn parent(os: OsFamily, p: Seq<char>) -> Option<Seq<char>> {
    let t = trimmed(os, p);
    let r = root_len(os, t);
    if t.len() <= r {
        None
    } else {
        let i = last_separator(os, t, t.len() as int);
        if i < r {
            Some(t.subrange(0, r))
        } else {
            Some(trimmed(os, t.subrange(0, i)))
        }
    }
}

/// The last component of `p`: None where `p` is empty, only a root, or
/// ends in `..`.
pub open spec fn file_name(os: OsFamily, p: Seq<char>) -> Option<Seq<char>> {
    let t = trimmed(os, p);
    let r = root_len(os, t);
    if t.len() <= r {
        None
    } else {
        let i = last_separator(os, t, t.len() as int);
        let start = if i + 1 > r {
            i + 1
        } else {
            r
        };
        let name = t.subrange(start, t.len() as int);
        if name == ".."@ {
            None
        } else {
            Some(name)
        }
    }
}

proof fn lemma_last_separator_bounds(os: OsFamily, p: Seq<char>, n: int)
    ensures
        -1 <= last_separator(os, p, n),
        last_separator(os, p, n) < n || n <= 0,
    decreases n,
{
    if n > 0 {
        lemma_last_separator_bounds(os, p, n - 1);
    }
}

/// No separator stands among the characters `k..n` of `p`: the last
/// separator before `n` is the last one before `k`.
proof fn lemma_last_separator_skips(os: OsFamily, p: Seq<char>, k: int, n: int)
    requires
        0 <= k <= n <= p.len(),
        forall|j: int| k <= j < n ==> !is_separator(os, #[trigger] p[j]),
    ensures
        last_separator(os, p, n) == last_separator(os, p, k),
    decreases n - k,
{
    if n > k {
        lemma_last_separator_skips(os, p, k, n - 1);
    }
}

/// A component free of separators and not `.` or `..`.
pub open spec fn is_plain_name(os: OsFamily, name: Seq<char>) -> bool {
    &&& name.len() > 0
    &&& forall|j: int| 0 <= j < name.len() ==> !is_separator(os, #[trigger] name[j])
    &&& name != "."@
    &&& name != ".."@
}

/// Extending an absolute path keeps its root.
proof fn lemma_absolute_extended(os: OsFamily, dir: Seq<char>, s: Seq<char>)
    requires
        is_absolute(os, dir),
    ensures
        root_len(os, dir + s) == root_len(os, dir),
        root_len(os, dir) <= dir.len(),
        is_absolute(os, dir + s),
{
    let p = dir + s;
    assert(p[0] == dir[0]);
    if dir.len() >= 2 {
        assert(p[1] == dir[1]);
    }
    if dir.len() >= 3 {
        assert(p[2] == dir[2]);
    }
}

/// For `p` = `<dir>/<name>` with `dir` absolute: the last component of `p`
/// is `name`, and what contains it is `dir` without trailing separators.
pub proof fn lemma_parent_and_name_of_child(os: OsFamily, dir: Seq<char>, name: Seq<char>)
    requires
        is_absolute(os, dir),
        is_plain_name(os, name),
    ensures
        ({
            let p = dir + "/"@ + name;
            &&& parent(os, p) == Some(trimmed(os, dir))
            &&& file_name(os, p) == Some(name)
            &&& trimmed(os, p) == p
            &&& is_absolute(os, p)
        }),
{
    reveal_strlit("/");
    reveal_strlit(".");
    reveal_strlit("..");
    let p = dir + "/"@ + name;
    let d = dir.len() as int;
    assert(p =~= dir + ("/"@ + name));
    lemma_absolute_extended(os, dir, "/"@ + name);
    assert(p.len() == d + 1 + name.len());
    assert(p[d] == '/');
    assert forall|j: int| d + 1 <= j < p.len() implies !is_separator(os, #[trigger] p[j]) by {
        assert(p[j] == name[j - d - 1]);
    }
    assert(p.last() == name.last());
    if name.len() >= 2 {
        assert(p[p.len() - 2] == name[name.len() - 2]);
    } else {
        assert(p[p.len() - 2] == '/');
        assert("."@ =~= seq!['.']);
        assert(name[0] != '.') by {
            if name[0] == '.' {
                assert(name =~= "."@);
            }
        }
    }
    assert(trimmed(os, p) == p);
    lemma_last_separator_skips(os, p, d + 1, p.len() as int);
    assert(last_separator(os, p, d + 1) == d);
    assert(p.subrange(0, d) =~= dir);
    assert(p.subrange(d + 1, p.len() as int) =~= name);
}

proof fn lemma_root_len_of_prefix(os: OsFamily, p: Seq<char>, n: int)
    requires
        root_len(os, p) <= n <= p.len(),
    ensures
        root_len(os, p.subrange(0, n)) == root_len(os, p),
{
}

pub fn char_is_separator(os: OsFamily, c: char) -> (r: bool)
    ensures
        r == is_separator(os, c),
{
    c == '/' || (os == OsFamily::Windows && c == '\\')
}

fn root_len_of(os: OsFamily, p: &str) -> (r: usize)
    ensures
        r as int == root_len(os, p@),
{
    let n = p.unicode_len();
    if os == OsFamily::Windows && n >= 2 {
        let c = p.get_char(0);
        if (('a' <= c && c <= 'z') || ('A' <= c && c <= 'Z')) && p.get_char(1) == ':' {
            if n >= 3 && char_is_separator(os, p.get_char(2)) {
                return 3;
            } else {
                return 2;
            }
        }
    }
    if n >= 1 && char_is_separator(os, p.get_char(0)) {
        1
    } else {
        0
    }
}

/// `base` extended by the relative path `segment`.
pub fn join_path(os: OsFamily, base: &str, segment: &str) -> (r: String)
    ensures
        r@ == join(os, base@, segment@),
{
    let n = base.unicode_len();
    if n == 0 || char_is_separator(os, base.get_char(n - 1)) {
        base.to_owned().concat(segment)
    } else if os == OsFamily::Windows {
        base.to_owned().concat("\\").concat(segment)
    } else {
        base.to_owned().concat("/").concat(segment)
    }
}

/// The length of `trimmed(os, p)`.
fn trimmed_len(os: OsFamily, p: &str) -> (r: usize)
    ensures
        r <= p@.len(),
        trimmed(os, p@) == p@.subrange(0, r as int),
{
    let r0 = root_len_of(os, p);
    let mut n = p.unicode_len();
    proof {
        assert(p@.subrange(0, n as int) =~= p@);
    }
    loop
        invariant
            n <= p@.len(),
            trimmed(os, p@) == trimmed(os, p@.subrange(0, n as int)),
            root_len(os, p@) == r0,
            n >= r0 ==> root_len(os, p@.subrange(0, n as int)) == r0,
        decreases n,
    {
        let ghost q = p@.subrange(0, n as int);
        if n <= r0 {
            return n;
        }
        proof {
            assert(q.drop_last() =~= p@.subrange(0, n - 1));
            lemma_root_len_of_prefix(os, p@, n - 1);
        }
        if char_is_separator(os, p.get_char(n - 1)) {
            n = n - 1;
        } else if n >= 2 && n - 1 > r0 && p.get_char(n - 1) == '.' && char_is_separator(
            os,
            p.get_char(n - 2),
        ) {
            n = n - 1;
        } else {
            return n;
        }
    }
}

/// The index of the last separator among the first `n` characters of `p`.
fn last_separator_index(os: OsFamily, p: &str, n: usize) -> (r: Option<usize>)
    requires
        n <= p@.len(),
    ensures
        match r {
            Some(i) => last_separator(os, p@, n as int) == i as int && i < n,
            None => last_separator(os, p@, n as int) == -1,
        },
{
    let mut i: usize = n;
    while i > 0
        invariant
            i <= n <= p@.len(),
            last_separator(os, p@, n as int) == last_separator(os, p@, i as int),
        decreases i,
    {
        if char_is_separator(os, p.get_char(i - 1)) {
            return Some(i - 1);
        }
        i = i - 1;
    }
    None
}

/// The directory that contains `p`.
pub fn parent_of(os: OsFamily, p: &str) -> (r: Option<String>)
    ensures
        opt_view_eq(r, parent(os, p@)),
{
    let n = trimmed_len(os, p);
    let t = p.substring_char(0, n);
    proof {
        assert(t@ =~= trimmed(os, p@));
    }
    let r = root_len_of(os, t);
    if n <= r {
        return None;
    }
    match last_separator_index(os, t, n) {
        Some(i) if i >= r => {
            let head = t.substring_char(0, i);
            let k = trimmed_len(os, head);
            Some(head.substring_char(0, k).to_owned())
        },
        _ => {
            proof {
                lemma_last_separator_bounds(os, t@, n as int);
            }
            Some(t.substring_char(0, r).to_owned())
        },
    }
}

/// The last component of `p`.
pub fn file_name_of(os: OsFamily, p: &str) -> (r: Option<String>)
    ensures
        opt_view_eq(r, file_name(os, p@)),
{
    let n = trimmed_len(os, p);
    let t = p.substring_char(0, n);
    proof {
        assert(t@ =~= trimmed(os, p@));
    }
    let r = root_len_of(os, t);
    if n <= r {
        return None;
    }
    let start: usize = match last_separator_index(os, t, n) {
        Some(i) if i + 1 > r => i + 1,
        _ => r,
    };
    proof {
        lemma_last_separator_bounds(os, t@, n as int);
    }
    let name = t.substring_char(start, n);
    if name.to_owned() == "..".to_owned() {
        None
    } else {
        Some(name.to_owned())
    }
}

/// `r` holds the characters `s`, or both are None.
pub open spec fn opt_view_eq(r: Option<String>, s: Option<Seq<char>>) -> bool {
    match r {
        Some(x) => s == Some(x@),
        None => s is None,
    }
}

/// Whether `p` starts at a root.
pub fn path_is_absolute(os: OsFamily, p: &str) -> (r: bool)
    ensures
        r == is_absolute(os, p@),
{
    let n = p.unicode_len();
    if os == OsFamily::Windows {
        root_len_of(os, p) == 3 || (n >= 2 && char_is_separator(os, p.get_char(0))
            && char_is_separator(os, p.get_char(1)))
    } else {
        n >= 1 && p.get_char(0) == '/'
    }
}

} // verus!
