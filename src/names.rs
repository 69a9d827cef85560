//! Pure classification and splitting of kernel-facing names and paths.
use vstd::prelude::*;
use vstd::string::*;

verus! {

/// `p` is a prefix of `s`.
pub open spec fn has_prefix(s: Seq<char>, p: Seq<char>) -> bool {
    p.len() <= s.len() && s.subrange(0, p.len() as int) == p
}

/// `p` is a suffix of `s`.
pub open spec fn has_suffix(s: Seq<char>, p: Seq<char>) -> bool {
    p.len() <= s.len() && s.subrange(s.len() - p.len(), s.len() as int) == p
}

/// `p` occurs in `s` starting at index `i`.
pub open spec fn occurs_at(s: Seq<char>, p: Seq<char>, i: int) -> bool {
    0 <= i && i + p.len() <= s.len() && s.subrange(i, i + p.len()) == p
}

/// `p` occurs somewhere in `s`.
pub open spec fn has_infix(s: Seq<char>, p: Seq<char>) -> bool {
    exists|i: int| occurs_at(s, p, i)
}

/// Index of the last occurrence of `c` in `s`, or -1.
pub open spec fn last_index_of(s: Seq<char>, c: char) -> int
    decreases s.len(),
{
    if s.len() == 0 {
        -1
    } else if s.last() == c {
        s.len() - 1
    } else {
        last_index_of(s.drop_last(), c)
    }
}

pub proof fn lemma_last_index_of_bounds(s: Seq<char>, c: char)
    ensures
        -1 <= last_index_of(s, c) < s.len(),
        last_index_of(s, c) >= 0 ==> s[last_index_of(s, c)] == c,
        forall|j: int| last_index_of(s, c) < j < s.len() ==> s[j] != c,
    decreases s.len(),
{
    if s.len() > 0 && s.last() != c {
        lemma_last_index_of_bounds(s.drop_last(), c);
        assert forall|j: int| last_index_of(s, c) < j < s.len() implies s[j] != c by {
            if j < s.len() - 1 {
                assert(s.drop_last()[j] == s[j]);
            }
        }
    }
}

/// The root path of the mount.
pub open spec fn root_path() -> Seq<char> {
    seq!['/']
}

/// Kernel path of the entry `name` inside the folder at `parent`.
pub open spec fn child_path_spec(parent: Seq<char>, name: Seq<char>) -> Seq<char> {
    if parent == root_path() {
        root_path() + name
    } else {
        parent + root_path() + name
    }
}

/// Store path for a kernel path: the leading `/` is dropped, except for the root itself.
pub open spec fn store_path_spec(p: Seq<char>) -> Seq<char> {
    if p == root_path() {
        p
    } else if p.len() > 0 && p[0] == '/' {
        p.subrange(1, p.len() as int)
    } else {
        p
    }
}

/// Parent path and basename of a path, split at its last `/`.
pub open spec fn split_spec(p: Seq<char>) -> (Seq<char>, Seq<char>) {
    let i = last_index_of(p, '/');
    if i < 0 {
        (root_path(), p)
    } else if i == 0 {
        (root_path(), p.subrange(1, p.len() as int))
    } else {
        (p.subrange(0, i), p.subrange(i + 1, p.len() as int))
    }
}

/// Title and syntax of a note's file name, split at its last `.`; both parts must be non-empty.
pub open spec fn decompose_spec(name: Seq<char>) -> Option<(Seq<char>, Seq<char>)> {
    let i = last_index_of(name, '.');
    if i <= 0 || i == name.len() - 1 {
        None
    } else {
        Some((name.subrange(0, i), name.subrange(i + 1, name.len() as int)))
    }
}

/// A basename that editors and desktop tools create for their own bookkeeping.
pub open spec fn is_ignored_name(s: Seq<char>) -> bool {
    ||| has_prefix(s, "."@)
    ||| has_suffix(s, "~"@)
    ||| (has_prefix(s, "#"@) && has_suffix(s, "#"@))
    ||| has_prefix(s, ".#"@)
    ||| has_prefix(s, ".vscode"@)
    ||| has_infix(s, ".tmp."@)
    ||| has_suffix(s, ".tmp"@)
    ||| has_infix(s, ".temp."@)
    ||| has_suffix(s, ".temp"@)
}

/// Last component of a path (the whole path when it holds no `/`).
pub open spec fn last_component(p: Seq<char>) -> Seq<char> {
    p.subrange(last_index_of(p, '/') + 1, p.len() as int)
}

/// A file name that system tools probe for on every mounted volume.
pub open spec fn is_system_name(f: Seq<char>) -> bool {
    ||| has_suffix(f, ".so"@)
    ||| has_suffix(f, ".so.1"@)
    ||| has_suffix(f, ".so.6"@)
    ||| f == "glibc-hwcaps"@
    ||| (has_prefix(f, "lib"@) && has_infix(f, ".so"@))
    ||| f == ".Trash"@
    ||| has_prefix(f, ".Trash-"@)
    ||| f == "BDMV"@
    ||| f == ".xdg-volume-info"@
    ||| f == "autorun.inf"@
    ||| f == ".hidden"@
    ||| f == "System Volume Information"@
    ||| f == "$RECYCLE.BIN"@
}

/// The characters of `s`, in order.
pub fn chars_of(s: &str) -> (r: Vec<char>)
    ensures
        r@ == s@,
{
    let n = s.unicode_len();
    let mut r: Vec<char> = Vec::new();
    let mut i: usize = 0;
    while i < n
        invariant
            n == s@.len(),
            i <= n,
            r@ == s@.subrange(0, i as int),
        decreases n - i,
    {
        r.push(s.get_char(i));
        i = i + 1;
    }
    assert(r@ == s@);
    r
}

/// Whether `p` occurs in `s` at index `i`.
pub fn occurs_at_exec(s: &Vec<char>, p: &Vec<char>, i: usize) -> (r: bool)
    ensures
        r == occurs_at(s@, p@, i as int),
{
    let n = s.len();
    if i > n || p.len() > n - i {
        return false;
    }
    let mut k: usize = 0;
    while k < p.len()
        invariant
            n == s@.len(),
            i <= s@.len(),
            i + p@.len() <= s@.len(),
            k <= p@.len(),
            forall|j: int| 0 <= j < k ==> s@[i + j] == p@[j],
        decreases p@.len() - k,
    {
        assert(i + k < s@.len());
        if s[i + k] != p[k] {
            assert(s@.subrange(i as int, i + p@.len())[k as int] != p@[k as int]);
            return false;
        }
        k = k + 1;
    }
    assert(s@.subrange(i as int, i + p@.len()) =~= p@);
    true
}

/// Whether `s` begins with `p`.
pub fn starts_with(s: &Vec<char>, p: &str) -> (r: bool)
    ensures
        r == has_prefix(s@, p@),
{
    let pv = chars_of(p);
    occurs_at_exec(s, &pv, 0)
}

/// Whether `s` ends with `p`.
pub fn ends_with(s: &Vec<char>, p: &str) -> (r: bool)
    ensures
        r == has_suffix(s@, p@),
{
    let pv = chars_of(p);
    if pv.len() > s.len() {
        return false;
    }
    occurs_at_exec(s, &pv, s.len() - pv.len())
}

/// Whether `p` occurs anywhere in `s`.
pub fn contains(s: &Vec<char>, p: &str) -> (r: bool)
    ensures
        r == has_infix(s@, p@),
{
    let pv = chars_of(p);
    if pv.len() > s.len() {
        assert(forall|i: int| !occurs_at(s@, pv@, i));
        return false;
    }
    if pv.len() == 0 {
        assert(s@.subrange(0, 0) =~= pv@);
        assert(occurs_at(s@, pv@, 0));
        return true;
    }
    let n = s.len();
    let last = n - pv.len();
    let mut i: usize = 0;
    while i <= last
        invariant
            n == s@.len(),
            pv@.len() > 0,
            last == s@.len() - pv@.len(),
            last < s@.len(),
            pv@ == p@,
            forall|j: int| 0 <= j < i ==> !occurs_at(s@, pv@, j),
        decreases last + 1 - i,
    {
        if occurs_at_exec(s, &pv, i) {
            return true;
        }
        i = i + 1;
    }
    assert forall|j: int| !occurs_at(s@, pv@, j) by {
        if 0 <= j && j + pv@.len() <= s@.len() {
            assert(j < i);
        }
    }
    false
}

/// Whether `s` equals `t`.
pub fn same_chars(s: &Vec<char>, t: &str) -> (r: bool)
    ensures
        r == (s@ == t@),
{
    let tv = chars_of(t);
    if tv.len() != s.len() {
        return false;
    }
    let r = occurs_at_exec(s, &tv, 0);
    assert(s@.subrange(0, s@.len() as int) =~= s@);
    r
}

/// Index of the last `c` in `s`, if any.
pub fn last_index_exec(s: &Vec<char>, c: char) -> (r: Option<usize>)
    ensures
        match r {
            Some(i) => i as int == last_index_of(s@, c),
            None => last_index_of(s@, c) == -1,
        },
        -1 <= last_index_of(s@, c) < s@.len(),
{
    proof {
        lemma_last_index_of_bounds(s@, c);
    }
    assert(s@.subrange(0, s@.len() as int) =~= s@);
    let mut i: usize = s.len();
    while i > 0
        invariant
            i <= s@.len(),
            last_index_of(s@, c) == last_index_of(s@.subrange(0, i as int), c),
        decreases i,
    {
        let ghost pre = s@.subrange(0, i as int);
        assert(pre.drop_last() =~= s@.subrange(0, i - 1));
        if s[i - 1] == c {
            return Some(i - 1);
        }
        i = i - 1;
    }
    assert(s@.subrange(0, 0).len() == 0);
    None
}

/// Copy of the characters `s[from..to]` as a string.
pub fn string_of_range(s: &str, from: usize, to: usize) -> (r: String)
    requires
        from <= to <= s@.len(),
    ensures
        r@ == s@.subrange(from as int, to as int),
{
    String::from_str(s.substring_char(from, to))
}

/// Splits a path at its last `/` into its parent path and its basename.
pub fn split_parent_path_and_filename(path: &str) -> (r: (String, String))
    ensures
        (r.0@, r.1@) == split_spec(path@),
{
    let cs = chars_of(path);
    let n = path.unicode_len();
    proof {
        reveal_strlit("/");
    }
    match last_index_exec(&cs, '/') {
        None => (String::from_str("/"), String::from_str(path)),
        Some(i) => {
            let name = string_of_range(path, i + 1, n);
            if i == 0 {
                (String::from_str("/"), name)
            } else {
                (string_of_range(path, 0, i), name)
            }
        },
    }
}

/// Store path for a kernel path: drops the leading `/`, but keeps the root as `/`.
pub fn normalize_path_for_db(fuse_path: &str) -> (r: String)
    ensures
        r@ == store_path_spec(fuse_path@),
{
    let n = fuse_path.unicode_len();
    if n == 0 {
        return String::from_str(fuse_path);
    }
    let first = fuse_path.get_char(0);
    if n == 1 && first == '/' {
        assert(fuse_path@ =~= root_path());
        String::from_str(fuse_path)
    } else if first == '/' {
        assert(fuse_path@ != root_path());
        string_of_range(fuse_path, 1, n)
    } else {
        String::from_str(fuse_path)
    }
}

/// Whether a path is the root `/`.
pub fn is_root(p: &str) -> (r: bool)
    ensures
        r == (p@ == root_path()),
{
    let n = p.unicode_len();
    if n != 1 {
        return false;
    }
    let c = p.get_char(0);
    if c == '/' {
        assert(p@ =~= root_path());
    }
    c == '/'
}

/// Kernel path of the entry `name` inside the folder at `parent`.
pub fn child_path(parent: &str, name: &str) -> (r: String)
    ensures
        r@ == child_path_spec(parent@, name@),
{
    let slash = String::from_str("/");
    proof {
        reveal_strlit("/");
    }
    assert(slash@ =~= root_path());
    if is_root(parent) {
        slash.concat(name)
    } else {
        String::from_str(parent).concat("/").concat(name)
    }
}

/// Splits a note's file name into title and syntax at its last `.`.
pub fn decompose_filename(name: &str) -> (r: Option<(String, String)>)
    ensures
        match r {
            Some(p) => decompose_spec(name@) == Some((p.0@, p.1@)),
            None => decompose_spec(name@) is None,
        },
{
    let cs = chars_of(name);
    let n = name.unicode_len();
    match last_index_exec(&cs, '.') {
        None => None,
        Some(i) => {
            if i == 0 || i == n - 1 {
                None
            } else {
                Some((string_of_range(name, 0, i), string_of_range(name, i + 1, n)))
            }
        },
    }
}

/// Whether a basename belongs to editor swap, backup or temporary traffic
/// (or is any dotfile); such names are never stored.
pub fn is_editor_temp_file(filename: &str) -> (r: bool)
    ensures
        r == is_ignored_name(filename@),
{
    let s = chars_of(filename);
    starts_with(&s, ".") || ends_with(&s, "~") || (starts_with(&s, "#") && ends_with(&s, "#"))
        || starts_with(&s, ".#") || starts_with(&s, ".vscode") || contains(&s, ".tmp.")
        || ends_with(&s, ".tmp") || contains(&s, ".temp.") || ends_with(&s, ".temp")
}

/// Whether the last component of `path` is a file that system tools probe for.
pub fn is_system_file(path: &str) -> (r: bool)
    ensures
        r == is_system_name(last_component(path@)),
{
    let cs = chars_of(path);
    let n = path.unicode_len();
    let start: usize = match last_index_exec(&cs, '/') {
        Some(i) => i + 1,
        None => 0,
    };
    proof {
        lemma_last_index_of_bounds(path@, '/');
    }
    let f = chars_of(string_of_range(path, start, n).as_str());
    ends_with(&f, ".so") || ends_with(&f, ".so.1") || ends_with(&f, ".so.6") || same_chars(
        &f,
        "glibc-hwcaps",
    ) || (starts_with(&f, "lib") && contains(&f, ".so")) || same_chars(&f, ".Trash")
        || starts_with(&f, ".Trash-") || same_chars(&f, "BDMV") || same_chars(
        &f,
        ".xdg-volume-info",
    ) || same_chars(&f, "autorun.inf") || same_chars(&f, ".hidden") || same_chars(
        &f,
        "System Volume Information",
    ) || same_chars(&f, "$RECYCLE.BIN")
}

} // verus!
