//! The process-lifetime bijection between kernel inode numbers and canonical paths.
use crate::names::{chars_of, has_prefix, root_path, same_chars, starts_with};
use vstd::prelude::*;
use vstd::string::*;

verus! {

/// `p` is `q` or lies below it.
pub open spec fn is_under(p: Seq<char>, q: Seq<char>) -> bool {
    p == q || has_prefix(p, q + root_path())
}

/// Where a rename of `from` to `to` moves the path `p` (which lies under `from`).
pub open spec fn moved(p: Seq<char>, from: Seq<char>, to: Seq<char>) -> Seq<char> {
    to + p.subrange(from.len() as int, p.len() as int)
}

/// A proper path that a rename may name: non-empty and not the root.
pub open spec fn renamable(p: Seq<char>) -> bool {
    p.len() > 0 && p != root_path()
}

/// The mapping after renaming `from` to `to`: entries under `from` move under `to`
/// with their inode numbers; entries that the move replaces (under `to`) are retired.
pub open spec fn renamed_map(m: Map<u64, Seq<char>>, from: Seq<char>, to: Seq<char>) -> Map<
    u64,
    Seq<char>,
> {
    Map::new(
        |i: u64| m.contains_key(i) && (is_under(m[i], from) || !is_under(m[i], to)),
        |i: u64|
            if is_under(m[i], from) {
                moved(m[i], from, to)
            } else {
                m[i]
            },
    )
}

/// No two inodes of `m` share a path.
pub open spec fn injective(m: Map<u64, Seq<char>>) -> bool {
    forall|i: u64, j: u64|
        m.contains_key(i) && m.contains_key(j) && i != j ==> #[trigger] m[i] != #[trigger] m[j]
}

/// Inode table: slot `i` holds the path of inode `i` while that inode is live.
///
/// One arena indexed by inode number holds both directions of the mapping, so the
/// two directions cannot drift apart and `next` is the arena's length. A path keyed
/// map is not used: vstd proves nothing about lookups in a `HashMap` keyed by
/// `String`, while the path to inode direction must be exact for the rename and
/// lookup contracts.
pub struct InodeTable {
    slots: Vec<Option<String>>,
}

impl InodeTable {
    /// Live inodes and their paths.
    pub closed spec fn paths(&self) -> Map<u64, Seq<char>> {
        Map::new(
            |i: u64| (i as int) < self.slots@.len() && self.slots@[i as int] is Some,
            |i: u64| self.slots@[i as int]->Some_0@,
        )
    }

    /// The number the next allocation hands out.
    pub closed spec fn next(&self) -> nat {
        self.slots@.len()
    }

    /// The inode of path `p`, if one is live.
    pub open spec fn inode_of(&self, p: Seq<char>) -> Option<u64> {
        if exists|i: u64| self.paths().contains_key(i) && self.paths()[i] == p {
            Some(choose|i: u64| self.paths().contains_key(i) && self.paths()[i] == p)
        } else {
            None
        }
    }

    /// The table after `get_or_create_inode(p)`.
    pub open spec fn with_path(&self, p: Seq<char>) -> (Map<u64, Seq<char>>, nat) {
        if self.inode_of(p) is Some {
            (self.paths(), self.next())
        } else {
            (self.paths().insert(self.next() as u64, p), self.next() + 1)
        }
    }

    /// Well-formed: the root holds inode 1, inode 0 is never used, every live
    /// inode is below `next`, and the two directions are inverse.
    pub open spec fn wf(&self) -> bool {
        &&& 2 <= self.next() <= u64::MAX
        &&& self.paths().contains_key(1)
        &&& self.paths()[1] == root_path()
        &&& !self.paths().contains_key(0)
        &&& forall|i: u64| #[trigger] self.paths().contains_key(i) ==> (i as nat) < self.next()
        &&& injective(self.paths())
    }

    /// A table holding only the root, at inode 1.
    pub fn new() -> (r: Self)
        ensures
            r.wf(),
            r.paths() == map![1u64 => root_path()],
            r.next() == 2,
    {
        let mut slots: Vec<Option<String>> = Vec::new();
        slots.push(None);
        let root = String::from_str("/");
        proof {
            reveal_strlit("/");
        }
        assert(root@ =~= root_path());
        slots.push(Some(root));
        let r = InodeTable { slots };
        assert(r.paths() =~= map![1u64 => root_path()]);
        r
    }

    /// The path of inode `inode`.
    pub fn get_path_from_inode(&self, inode: u64) -> (r: Option<&String>)
        ensures
            match r {
                Some(p) => self.paths().contains_key(inode) && p@ == self.paths()[inode],
                None => !self.paths().contains_key(inode),
            },
    {
        if inode >= self.slots.len() as u64 {
            return None;
        }
        match &self.slots[inode as usize] {
            Some(p) => Some(p),
            None => None,
        }
    }

    /// The inode of `path`, if it is live.
    pub fn inode_of_path(&self, path: &str) -> (r: Option<u64>)
        requires
            self.wf(),
        ensures
            r == self.inode_of(path@),
    {
        let target = String::from_str(path);
        let n = self.slots.len();
        let mut i: usize = 0;
        while i < n
            invariant
                n == self.slots@.len(),
                self.wf(),
                target@ == path@,
                forall|k: u64| (k as int) < i && #[trigger] self.paths().contains_key(k) ==> self.paths()[k] != path@,
            decreases n - i,
        {
            match &self.slots[i] {
                Some(p) => {
                    if *p == target {
                        let r = i as u64;
                        assert(self.paths().contains_key(r) && self.paths()[r] == path@);
                        proof {
                            self.lemma_inode_of_unique(path@, r);
                        }
                        return Some(r);
                    }
                },
                None => {},
            }
            i = i + 1;
        }
        assert(!exists|k: u64| self.paths().contains_key(k) && self.paths()[k] == path@);
        None
    }

    /// With `wf`, the inode of a live path is the one that holds it.
    pub proof fn lemma_inode_of_unique(&self, p: Seq<char>, i: u64)
        requires
            self.wf(),
            self.paths().contains_key(i),
            self.paths()[i] == p,
        ensures
            self.inode_of(p) == Some(i),
    {
        let j = choose|j: u64| self.paths().contains_key(j) && self.paths()[j] == p;
        assert(j == i);
    }

    /// The inode of `path`, allocated from `next` when the path is new.
    pub fn get_or_create_inode(&mut self, path: &str) -> (r: u64)
        requires
            old(self).wf(),
        ensures
            final(self).wf(),
            (final(self).paths(), final(self).next()) == old(self).with_path(path@),
            final(self).paths().contains_key(r),
            final(self).paths()[r] == path@,
            final(self).inode_of(path@) == Some(r),
    {
        match self.inode_of_path(path) {
            Some(i) => {
                proof {
                    self.lemma_inode_of_unique(path@, i);
                }
                i
            },
            None => {
                let ghost before = self.paths();
                let r = self.slots.len() as u64;
                self.slots.push(Some(String::from_str(path)));
                let len = self.slots.len();
                assert(len as int == r + 1);
                assert(self.paths() =~= before.insert(r, path@));
                assert(injective(self.paths()));
                proof {
                    self.lemma_inode_of_unique(path@, r);
                }
                r
            },
        }
    }

    /// Retires the inode of `path`, if it is live.
    pub fn drop_path(&mut self, path: &str)
        requires
            old(self).wf(),
            path@ != root_path(),
        ensures
            final(self).wf(),
            final(self).next() == old(self).next(),
            final(self).paths() == match old(self).inode_of(path@) {
                Some(i) => old(self).paths().remove(i),
                None => old(self).paths(),
            },
    {
        match self.inode_of_path(path) {
            Some(i) => {
                let ghost before = self.paths();
                assert(self.paths().contains_key(i));
                assert((i as int) < self.slots@.len());
                let len = self.slots.len();
                let idx = i as usize;
                assert(idx < len);
                self.slots.set(idx, None);
                assert(self.paths() =~= before.remove(i));
            },
            None => {},
        }
    }

    /// Renames the subtree at `old_path` to `new_path`, keeping every inode number;
    /// entries that the move replaces are retired.
    pub fn update_inode_mappings(&mut self, old_path: &str, new_path: &str)
        requires
            old(self).wf(),
            renamable(old_path@),
            renamable(new_path@),
        ensures
            final(self).wf(),
            final(self).next() == old(self).next(),
            final(self).paths() == renamed_map(old(self).paths(), old_path@, new_path@),
    {
        let ghost before = self.paths();
        let ghost old_slots = self.slots@;
        let n = self.slots.len();
        let mut i: usize = 0;
        while i < n
            invariant
                n == self.slots@.len(),
                old_slots.len() == n,
                i <= n,
                forall|k: int| i <= k < n ==> self.slots@[k] == old_slots[k],
                forall|k: int|
                    0 <= k < i ==> view_slot(#[trigger] self.slots@[k]) == slot_after(
                        old_slots[k],
                        old_path@,
                        new_path@,
                    ),
            decreases n - i,
        {
            let next_slot: Option<String> = match &self.slots[i] {
                Some(p) => {
                    if is_under_exec(p.as_str(), old_path) {
                        let plen = p.as_str().unicode_len();
                        let olen = old_path.unicode_len();
                        let tail = p.as_str().substring_char(olen, plen);
                        Some(String::from_str(new_path).concat(tail))
                    } else if is_under_exec(p.as_str(), new_path) {
                        None
                    } else {
                        Some(p.clone())
                    }
                },
                None => None,
            };
            self.slots.set(i, next_slot);
            i = i + 1;
        }
        proof {
            assert forall|k: u64| #[trigger]
                self.paths().contains_key(k) == renamed_map(
                    before,
                    old_path@,
                    new_path@,
                ).contains_key(k) by {
                if (k as int) < n {
                    assert(view_slot(self.slots@[k as int]) == slot_after(
                        old_slots[k as int],
                        old_path@,
                        new_path@,
                    ));
                }
            }
            assert forall|k: u64| #[trigger] self.paths().contains_key(k) implies self.paths()[k]
                == renamed_map(before, old_path@, new_path@)[k] by {
                assert(view_slot(self.slots@[k as int]) == slot_after(
                    old_slots[k as int],
                    old_path@,
                    new_path@,
                ));
            }
            assert(self.paths() =~= renamed_map(before, old_path@, new_path@));
            lemma_renamed_wf(before, old_path@, new_path@);
        }
    }
}

/// The path a slot holds.
pub open spec fn view_slot(s: Option<String>) -> Option<Seq<char>> {
    match s {
        Some(p) => Some(p@),
        None => None,
    }
}

/// What a rename makes of one slot.
pub open spec fn slot_after(s: Option<String>, from: Seq<char>, to: Seq<char>) -> Option<Seq<char>> {
    match s {
        Some(p) => if is_under(p@, from) {
            Some(moved(p@, from, to))
        } else if is_under(p@, to) {
            None
        } else {
            Some(p@)
        },
        None => None,
    }
}

/// Whether `p` is `q` or lies below it.
pub fn is_under_exec(p: &str, q: &str) -> (r: bool)
    ensures
        r == is_under(p@, q@),
        r ==> p@.len() >= q@.len(),
{
    let pc = chars_of(p);
    let prefix = String::from_str(q).concat("/");
    proof {
        reveal_strlit("/");
    }
    assert(prefix@ =~= q@ + root_path());
    if same_chars(&pc, q) {
        return true;
    }
    starts_with(&pc, prefix.as_str())
}

/// For every live path `p`, the inode of the path of `p`'s inode is `p`'s inode,
/// and the table is a bijection between live inodes and their paths.
pub proof fn lemma_inode_path_round_trip(t: InodeTable, p: Seq<char>)
    requires
        t.wf(),
        t.inode_of(p) is Some,
    ensures
        t.paths().contains_key(t.inode_of(p)->Some_0),
        t.paths()[t.inode_of(p)->Some_0] == p,
        t.inode_of(t.paths()[t.inode_of(p)->Some_0]) == t.inode_of(p),
        forall|i: u64| #[trigger] t.paths().contains_key(i) ==> t.inode_of(t.paths()[i]) == Some(i),
{
    let i = t.inode_of(p)->Some_0;
    t.lemma_inode_of_unique(p, i);
    assert forall|j: u64| #[trigger] t.paths().contains_key(j) implies t.inode_of(t.paths()[j]) == Some(j) by {
        t.lemma_inode_of_unique(t.paths()[j], j);
    }
}

/// After a rename of `from` to `to`, an inode that named `from`, or a path below
/// it, is still live, with the same number, at the corresponding path under `to`.
pub proof fn lemma_rename_keeps_inode(m: Map<u64, Seq<char>>, from: Seq<char>, to: Seq<char>, i: u64)
    requires
        m.contains_key(i),
        is_under(m[i], from),
    ensures
        renamed_map(m, from, to).contains_key(i),
        renamed_map(m, from, to)[i] == moved(m[i], from, to),
        m[i] == from ==> renamed_map(m, from, to)[i] == to,
{
    if m[i] == from {
        assert(from.subrange(from.len() as int, from.len() as int) =~= Seq::<char>::empty());
        assert(moved(m[i], from, to) =~= to);
    }
}

/// Renaming keeps the table's inverse property and the root in place.
pub proof fn lemma_renamed_wf(m: Map<u64, Seq<char>>, from: Seq<char>, to: Seq<char>)
    requires
        injective(m),
        renamable(from),
        renamable(to),
        m.contains_key(1),
        m[1] == root_path(),
    ensures
        injective(renamed_map(m, from, to)),
        renamed_map(m, from, to).contains_key(1),
        renamed_map(m, from, to)[1] == root_path(),
        renamed_map(m, from, to).dom().subset_of(m.dom()),
{
    let r = renamed_map(m, from, to);
    assert(!is_under(root_path(), from)) by {
        if has_prefix(root_path(), from + root_path()) {
            assert((from + root_path()).len() > 1);
        }
    }
    assert(!is_under(root_path(), to)) by {
        if has_prefix(root_path(), to + root_path()) {
            assert((to + root_path()).len() > 1);
        }
    }
    assert forall|i: u64, j: u64|
        r.contains_key(i) && r.contains_key(j) && i != j implies #[trigger] r[i] != #[trigger] r[j] by {
        let pi = m[i];
        let pj = m[j];
        if is_under(pi, from) {
            lemma_moved_under(pi, from, to);
        }
        if is_under(pj, from) {
            lemma_moved_under(pj, from, to);
        }
        if is_under(pi, from) && is_under(pj, from) {
            if r[i] == r[j] {
                assert(pi =~= from + pi.subrange(from.len() as int, pi.len() as int)) by {
                    lemma_under_split(pi, from);
                }
                assert(pj =~= from + pj.subrange(from.len() as int, pj.len() as int)) by {
                    lemma_under_split(pj, from);
                }
                assert(pi.subrange(from.len() as int, pi.len() as int) =~= r[i].subrange(
                    to.len() as int,
                    r[i].len() as int,
                ));
                assert(pj.subrange(from.len() as int, pj.len() as int) =~= r[j].subrange(
                    to.len() as int,
                    r[j].len() as int,
                ));
            }
        }
    }
}

/// A path under `from` moves to a path under `to`.
pub proof fn lemma_moved_under(p: Seq<char>, from: Seq<char>, to: Seq<char>)
    requires
        is_under(p, from),
    ensures
        is_under(moved(p, from, to), to),
{
    lemma_under_split(p, from);
    let tail = p.subrange(from.len() as int, p.len() as int);
    let q = moved(p, from, to);
    if p != from {
        assert(tail.len() > 0 && tail[0] == '/') by {
            assert(p.subrange(0, (from.len() + 1) as int)[from.len() as int] == '/');
        }
        assert(q.subrange(0, (to.len() + 1) as int) =~= to + root_path());
    } else {
        assert(tail =~= Seq::<char>::empty());
        assert(q =~= to);
    }
}

/// A path under `q` is `q` followed by the rest.
pub proof fn lemma_under_split(p: Seq<char>, q: Seq<char>)
    requires
        is_under(p, q),
    ensures
        p.len() >= q.len(),
        p =~= q + p.subrange(q.len() as int, p.len() as int),
{
    if p != q {
        assert(p.subrange(0, q.len() as int) =~= (q + root_path()).subrange(0, q.len() as int));
        assert(p.subrange(0, q.len() as int) =~= q);
        assert(p =~= p.subrange(0, q.len() as int) + p.subrange(q.len() as int, p.len() as int));
    } else {
        assert(p.subrange(q.len() as int, p.len() as int) =~= Seq::<char>::empty());
    }
}

} // verus!
