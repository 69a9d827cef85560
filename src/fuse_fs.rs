//! Operation dispatcher: one method per kernel operation, deciding the reply and
//! the store mutation from the inode table and what the store reports.
use crate::attrs::{
    dir_attrs, file_attrs, folder_attr, note_attr, overridden, root_attr, shim_attr,
    with_overrides, FileAttrs, NodeKind,
};
use crate::content::{apply_write, read_tail, resize_content, resized, tail_from, written};
use crate::database::{is_issued_id, opt_str_view, opt_view, Database, Folder, Note, StoreWrite};
use crate::inode_table::{renamable, renamed_map, InodeTable};
use crate::names::{
    same_chars, chars_of, child_path, child_path_spec, decompose_filename, decompose_spec, is_editor_temp_file,
    is_ignored_name, is_root, last_index_exec, normalize_path_for_db, root_path, split_parent_path_and_filename, split_spec,
};
use crate::outside::{fresh_id, lossy_text, now_epoch, text_from_bytes};
use vstd::prelude::*;
use vstd::string::*;
use vstd::utf8::{encode_utf8, valid_utf8};

verus! {

/// Why an operation was refused; each maps to one POSIX error code.
#[derive(Debug, Clone, Copy, PartialEq, Eq, Structural)]
pub enum FsError {
    /// `ENOENT`: unknown inode or no such entry in the store.
    NotFound,
    /// `EISDIR`: the path names a folder where a note is needed.
    IsDirectory,
    /// `ENOTDIR`: the path names a note where a folder is needed.
    NotDirectory,
    /// `EEXIST`: the target path is taken.
    Exists,
    /// `ENOTEMPTY`: the folder still has children.
    NotEmpty,
    /// `EINVAL`: a malformed name.
    Invalid,
    /// `EIO`: the store failed.
    Io,
}

/// One directory entry with the offset of the entry after it.
#[derive(Debug, Clone)]
pub struct DirEntry {
    pub ino: u64,
    pub kind: NodeKind,
    pub name: String,
    pub next_offset: u64,
}

/// What the store holds at a path: a folder, a note, or nothing.
pub enum Found {
    Folder(Folder),
    Note(Note),
    Absent,
}

/// Reply to `lookup`/`getattr` for what the store holds at the path of inode `ino`.
pub open spec fn entry_reply_spec(found: Found, ino: u64) -> Result<FileAttrs, FsError> {
    match found {
        Found::Folder(f) => Ok(dir_attrs(ino, f.created_at, f.updated_at)),
        Found::Note(n) => Ok(
            file_attrs(ino, encode_utf8(n.content@).len() as u64, n.created_at, n.updated_at),
        ),
        Found::Absent => Err(FsError::NotFound),
    }
}

/// Reply to `read` at `offset` for what the store holds at the path.
pub open spec fn read_reply_spec(found: Found, offset: nat) -> Result<Seq<u8>, FsError> {
    match found {
        Found::Folder(_) => Err(FsError::IsDirectory),
        Found::Note(n) => Ok(tail_from(encode_utf8(n.content@), offset)),
        Found::Absent => Err(FsError::NotFound),
    }
}

/// Reply to `open` of inode `ino` for what the store holds at its path.
pub open spec fn open_reply_spec(found: Found, ino: u64) -> Result<u64, FsError> {
    match found {
        Found::Folder(_) => Err(FsError::IsDirectory),
        Found::Note(_) => Ok(ino),
        Found::Absent => Err(FsError::NotFound),
    }
}

/// Attributes of inode `ino` from what the store holds at its path.
pub fn entry_reply(found: &Found, ino: u64) -> (r: Result<FileAttrs, FsError>)
    ensures
        r == entry_reply_spec(*found, ino),
{
    match found {
        Found::Folder(f) => Ok(folder_attr(ino, f)),
        Found::Note(n) => Ok(note_attr(ino, n)),
        Found::Absent => Err(FsError::NotFound),
    }
}

/// Bytes a read at `offset` returns from what the store holds at the path.
pub fn read_reply(found: &Found, offset: usize) -> (r: Result<Vec<u8>, FsError>)
    ensures
        match r {
            Ok(b) => read_reply_spec(*found, offset as nat) == Ok::<Seq<u8>, FsError>(b@),
            Err(e) => read_reply_spec(*found, offset as nat) == Err::<Seq<u8>, FsError>(e),
        },
{
    match found {
        Found::Folder(_) => Err(FsError::IsDirectory),
        Found::Note(n) => Ok(read_tail(n.content.as_str().as_bytes(), offset)),
        Found::Absent => Err(FsError::NotFound),
    }
}

/// The handle for opening inode `ino`, from what the store holds at its path.
pub fn open_reply(found: &Found, ino: u64) -> (r: Result<u64, FsError>)
    ensures
        r == open_reply_spec(*found, ino),
{
    match found {
        Found::Folder(_) => Err(FsError::IsDirectory),
        Found::Note(_) => Ok(ino),
        Found::Absent => Err(FsError::NotFound),
    }
}

/// Whether `rmdir` may delete a folder with the given numbers of child folders
/// and child notes: only an empty folder goes.
pub fn rmdir_verdict(folder_count: usize, note_count: usize) -> (r: Result<(), FsError>)
    ensures
        r is Ok <==> folder_count == 0 && note_count == 0,
        r is Err ==> r == Err::<(), FsError>(FsError::NotEmpty),
{
    if folder_count != 0 || note_count != 0 {
        Err(FsError::NotEmpty)
    } else {
        Ok(())
    }
}

/// The note an operation on a file acts on, from what the store holds at its path.
pub open spec fn note_target_spec(found: Found) -> Result<Note, FsError> {
    match found {
        Found::Folder(_) => Err(FsError::IsDirectory),
        Found::Note(n) => Ok(n),
        Found::Absent => Err(FsError::NotFound),
    }
}

/// The folder an operation on a directory acts on, from what the store holds at its path.
pub open spec fn folder_target_spec(found: Found) -> Result<Folder, FsError> {
    match found {
        Found::Folder(f) => Ok(f),
        Found::Note(_) => Err(FsError::NotDirectory),
        Found::Absent => Err(FsError::NotFound),
    }
}

/// The note that `write`, `setattr` or `unlink` acts on: a folder is refused with
/// `IsDirectory`, nothing with `NotFound`.
pub fn note_target(found: Found) -> (r: Result<Note, FsError>)
    ensures
        r == note_target_spec(found),
{
    match found {
        Found::Folder(_) => Err(FsError::IsDirectory),
        Found::Note(n) => Ok(n),
        Found::Absent => Err(FsError::NotFound),
    }
}

/// The folder that `rmdir` or `readdir` acts on: a note is refused with
/// `NotDirectory`, nothing with `NotFound`.
pub fn folder_target(found: Found) -> (r: Result<Folder, FsError>)
    ensures
        r == folder_target_spec(found),
{
    match found {
        Found::Folder(f) => Ok(f),
        Found::Note(_) => Err(FsError::NotDirectory),
        Found::Absent => Err(FsError::NotFound),
    }
}

/// Whether a path that `mkdir`, `create` or `rename` wants to take is free.
pub fn vacant(found: &Found) -> (r: Result<(), FsError>)
    ensures
        r is Ok <==> found is Absent,
        r is Err ==> r == Err::<(), FsError>(FsError::Exists),
{
    match found {
        Found::Absent => Ok(()),
        _ => Err(FsError::Exists),
    }
}

/// What a rename does to the entry it moves.
pub enum Move {
    /// Retitle and reparent this folder.
    Folder(Folder),
    /// Retitle this note to the given title and syntax, and reparent it.
    Note(Note, String, String),
}

/// The move a rename to `new_name` makes of what the store holds at the old path:
/// a folder takes the new name as its title; a note takes the title and syntax
/// that the new name splits into, and a name without them is `Invalid`.
pub fn rename_plan(found: Found, new_name: &str) -> (r: Result<Move, FsError>)
    ensures
        match found {
            Found::Absent => r == Err::<Move, FsError>(FsError::NotFound),
            Found::Folder(f) => r == Ok::<Move, FsError>(Move::Folder(f)),
            Found::Note(n) => match decompose_spec(new_name@) {
                None => r == Err::<Move, FsError>(FsError::Invalid),
                Some(parts) => r matches Ok(Move::Note(m, t, x)) && m == n && t@ == parts.0 && x@ == parts.1,
            },
        },
{
    match found {
        Found::Absent => Err(FsError::NotFound),
        Found::Folder(f) => Ok(Move::Folder(f)),
        Found::Note(n) => match decompose_filename(new_name) {
            None => Err(FsError::Invalid),
            Some((title, syntax)) => Ok(Move::Note(n, title, syntax)),
        },
    }
}

/// Entry number `i` of the listing of folder `ino` whose parent is `parent_ino`:
/// `.`, `..`, then the children `ch` with inodes `inos`; it names its successor `i + 1`.
pub open spec fn entry_at(
    e: DirEntry,
    i: int,
    ino: u64,
    parent_ino: u64,
    ch: Seq<(String, NodeKind)>,
    inos: Seq<u64>,
) -> bool {
    e.next_offset == i + 1 && entry_core(e, i, ino, parent_ino, ch, inos)
}

/// Inode, kind and name of entry number `i` of a listing.
pub open spec fn entry_core(
    e: DirEntry,
    i: int,
    ino: u64,
    parent_ino: u64,
    ch: Seq<(String, NodeKind)>,
    inos: Seq<u64>,
) -> bool {
    if i == 0 {
        e.ino == ino && e.kind == NodeKind::Directory && e.name@ == "."@
    } else if i == 1 {
        e.ino == parent_ino && e.kind == NodeKind::Directory && e.name@ == ".."@
    } else {
        e.ino == inos[i - 2] && e.kind == ch[i - 2].1 && e.name@ == ch[i - 2].0@
    }
}

/// `es` is the listing of folder `ino` from entry `offset` on.
pub open spec fn is_window(
    es: Seq<DirEntry>,
    offset: nat,
    ino: u64,
    parent_ino: u64,
    ch: Seq<(String, NodeKind)>,
    inos: Seq<u64>,
) -> bool {
    &&& es.len() == (if offset <= ch.len() + 2 {
        ch.len() + 2 - offset
    } else {
        0
    })
    &&& forall|k: int| 0 <= k < es.len() ==> entry_at(#[trigger] es[k], offset + k, ino, parent_ino, ch, inos)
}

/// The entries of the listing of folder `ino` (parent `parent_ino`, children `ch`
/// with inodes `inos`) from entry `offset` on.
pub fn dir_entries(
    ino: u64,
    parent_ino: u64,
    ch: &Vec<(String, NodeKind)>,
    inos: &Vec<u64>,
    offset: usize,
) -> (r: Vec<DirEntry>)
    requires
        inos@.len() == ch@.len(),
    ensures
        is_window(r@, offset as nat, ino, parent_ino, ch@, inos@),
{
    let mut all: Vec<DirEntry> = Vec::new();
    let dot = String::from_str(".");
    let dotdot = String::from_str("..");
    all.push(DirEntry { ino, kind: NodeKind::Directory, name: dot, next_offset: 0 });
    all.push(DirEntry { ino: parent_ino, kind: NodeKind::Directory, name: dotdot, next_offset: 0 });
    let mut j: usize = 0;
    while j < ch.len()
        invariant
            inos@.len() == ch@.len(),
            j <= ch@.len(),
            all@.len() == j + 2,
            forall|k: int| 0 <= k < all@.len() ==> entry_core(#[trigger] all@[k], k, ino, parent_ino, ch@, inos@),
        decreases ch@.len() - j,
    {
        all.push(DirEntry { ino: inos[j], kind: ch[j].1, name: ch[j].0.clone(), next_offset: 0 });
        j = j + 1;
    }
    let total = all.len();
    let mut out: Vec<DirEntry> = Vec::new();
    let mut k: usize = offset;
    while k < total
        invariant
            total == all@.len(),
            total == ch@.len() + 2,
            forall|i: int| 0 <= i < all@.len() ==> entry_core(#[trigger] all@[i], i, ino, parent_ino, ch@, inos@),
            offset <= k,
            offset <= total ==> k <= total,
            k <= total || out@.len() == 0,
            out@.len() == (if k <= total { k - offset } else { 0 }),
            forall|i: int| 0 <= i < out@.len() ==> entry_at(#[trigger] out@[i], offset + i, ino, parent_ino, ch@, inos@),
        decreases total - k,
    {
        let e = &all[k];
        let next = (k + 1) as u64;
        assert(entry_core(all@[k as int], k as int, ino, parent_ino, ch@, inos@));
        out.push(DirEntry { ino: e.ino, kind: e.kind, name: e.name.clone(), next_offset: next });
        k = k + 1;
    }
    assert(out@.len() == (if offset <= ch@.len() + 2 { ch@.len() + 2 - offset } else { 0 }));
    out
}

/// A basename that can name an entry: non-empty and free of `/`.
pub open spec fn valid_name(s: Seq<char>) -> bool {
    s.len() > 0 && forall|i: int| 0 <= i < s.len() ==> s[i] != '/'
}

/// `t1` is `t0` after `get_or_create_inode(path)`, which gave `ino`.
pub open spec fn entered(t0: InodeTable, t1: InodeTable, path: Seq<char>, ino: u64) -> bool {
    &&& (t1.paths(), t1.next()) == t0.with_path(path)
    &&& t1.inode_of(path) == Some(ino)
}

/// `t1` maps the same inodes to the same paths as `t0`.
pub open spec fn same_table(t0: InodeTable, t1: InodeTable) -> bool {
    t0.paths() == t1.paths() && t0.next() == t1.next()
}

/// Kernel file name of a note.
pub open spec fn note_file_name(n: Note) -> Seq<char> {
    n.title@ + "."@ + n.syntax@
}

/// Some folder of `folders` has title `s`.
pub open spec fn folder_titled(folders: Seq<Folder>, s: Seq<char>) -> bool {
    exists|f: int| 0 <= f < folders.len() && (#[trigger] folders[f]).title@ == s
}

/// Some note of `notes` has file name `s`.
pub open spec fn note_named(notes: Seq<Note>, s: Seq<char>) -> bool {
    exists|n: int| 0 <= n < notes.len() && note_file_name(#[trigger] notes[n]) == s
}

/// `s` is one of `names`.
pub open spec fn named(names: Seq<Seq<char>>, s: Seq<char>) -> bool {
    exists|k: int| 0 <= k < names.len() && #[trigger] names[k] == s
}

/// `.` or `..`, the names a folder lists for itself and its parent.
pub open spec fn is_dot_name(s: Seq<char>) -> bool {
    s == "."@ || s == ".."@
}

/// `names` holds every folder title and note file name exactly once, and nothing
/// else; `.` and `..` are left out, as they name the folder and its parent.
pub open spec fn lists_exactly(names: Seq<Seq<char>>, folders: Seq<Folder>, notes: Seq<Note>) -> bool {
    &&& forall|a: int, b: int| 0 <= a < b < names.len() ==> #[trigger] names[a] != #[trigger] names[b]
    &&& forall|k: int|
        0 <= k < names.len() ==> !is_dot_name(#[trigger] names[k]) && (folder_titled(folders, names[k])
            || note_named(notes, names[k]))
    &&& forall|f: int|
        0 <= f < folders.len() && !is_dot_name((#[trigger] folders[f]).title@) ==> named(names, folders[f].title@)
    &&& forall|n: int|
        0 <= n < notes.len() && !is_dot_name(note_file_name(#[trigger] notes[n])) ==> named(
            names,
            note_file_name(notes[n]),
        )
}

/// Names of a run of directory entries.
pub open spec fn entry_names(es: Seq<DirEntry>) -> Seq<Seq<char>> {
    es.map_values(|e: DirEntry| e.name@)
}

/// A full listing of the folder at inode `ino`: `.`, `..`, then every child once,
/// no name twice.
pub open spec fn is_listing(es: Seq<DirEntry>, ino: u64) -> bool {
    &&& es.len() >= 2
    &&& es[0].name@ == "."@ && es[0].ino == ino && es[0].kind == NodeKind::Directory
    &&& es[1].name@ == ".."@ && es[1].kind == NodeKind::Directory
    &&& forall|a: int, b: int| 0 <= a < b < es.len() ==> (#[trigger] es[a]).name@ != (#[trigger] es[b]).name@
    &&& exists|folders: Seq<Folder>, notes: Seq<Note>|
        lists_exactly(entry_names(es.subrange(2, es.len() as int)), folders, notes)
}

fn opt_str(o: &Option<String>) -> (r: Option<&str>)
    ensures
        opt_str_view(r) == opt_view(*o),
{
    match o {
        Some(s) => Some(s.as_str()),
        None => None,
    }
}

/// Whether a basename can name an entry.
pub fn is_valid_name(name: &str) -> (r: bool)
    ensures
        r == valid_name(name@),
{
    let cs = chars_of(name);
    if cs.len() == 0 {
        return false;
    }
    match last_index_exec(&cs, '/') {
        Some(_) => {
            proof {
                crate::names::lemma_last_index_of_bounds(name@, '/');
            }
            false
        },
        None => {
            proof {
                crate::names::lemma_last_index_of_bounds(name@, '/');
            }
            true
        },
    }
}

/// The child path of a valid name is a proper path.
pub proof fn lemma_child_renamable(parent: Seq<char>, name: Seq<char>)
    requires
        valid_name(name),
    ensures
        renamable(child_path_spec(parent, name)),
        child_path_spec(parent, name) != root_path(),
{
    let c = child_path_spec(parent, name);
    if parent == root_path() {
        assert(c.len() == 1 + name.len());
    } else {
        assert(c.len() == parent.len() + 1 + name.len());
        if parent.len() == 0 {
            assert(c[0] == '/');
            assert(c[1] == name[0]);
        }
    }
}

/// Names of a run of listed children.
pub open spec fn child_names(cs: Seq<(String, NodeKind)>) -> Seq<Seq<char>> {
    cs.map_values(|c: (String, NodeKind)| c.0@)
}

/// Whether `name` is among the first names of `cs`.
fn has_child_name(cs: &Vec<(String, NodeKind)>, name: &String) -> (r: bool)
    ensures
        r == named(child_names(cs@), name@),
{
    let mut i: usize = 0;
    while i < cs.len()
        invariant
            i <= cs@.len(),
            forall|k: int| 0 <= k < i ==> child_names(cs@)[k] != name@,
        decreases cs@.len() - i,
    {
        if cs[i].0 == *name {
            assert(child_names(cs@)[i as int] == name@);
            return true;
        }
        i = i + 1;
    }
    false
}

/// Kernel file name `{title}.{syntax}` of a note.
pub fn file_name_of(note: &Note) -> (r: String)
    ensures
        r@ == note_file_name(*note),
{
    note.title.clone().concat(".").concat(note.syntax.as_str())
}

/// Whether `s` is `.` or `..`.
fn is_dot_exec(s: &String) -> (r: bool)
    ensures
        r == is_dot_name(s@),
{
    let cs = chars_of(s.as_str());
    same_chars(&cs, ".") || same_chars(&cs, "..")
}

/// The children of a folder in listing order: child folders by their title, then
/// child notes by their file name, each name kept once (its first occurrence wins);
/// a child named `.` or `..` is left out.
pub fn listing_names(folders: &Vec<Folder>, notes: &Vec<Note>) -> (r: Vec<(String, NodeKind)>)
    ensures
        lists_exactly(child_names(r@), folders@, notes@),
{
    let mut out: Vec<(String, NodeKind)> = Vec::new();
    let mut i: usize = 0;
    while i < folders.len()
        invariant
            i <= folders@.len(),
            forall|a: int, b: int|
                0 <= a < b < out@.len() ==> #[trigger] child_names(out@)[a] != #[trigger] child_names(out@)[b],
            forall|k: int|
                0 <= k < out@.len() ==> !is_dot_name(#[trigger] child_names(out@)[k]) && folder_titled(
                    folders@,
                    child_names(out@)[k],
                ),
            forall|f: int|
                0 <= f < i && !is_dot_name((#[trigger] folders@[f]).title@) ==> named(
                    child_names(out@),
                    folders@[f].title@,
                ),
        decreases folders@.len() - i,
    {
        let name = folders[i].title.clone();
        if !is_dot_exec(&name) && !has_child_name(&out, &name) {
            let ghost before = out@;
            out.push((name, NodeKind::Directory));
            assert(child_names(out@) =~= child_names(before).push(name@));
            assert(folder_titled(folders@, folders@[i as int].title@));
            assert forall|f: int| 0 <= f <= i && !is_dot_name((#[trigger] folders@[f]).title@) implies named(
                child_names(out@),
                folders@[f].title@,
            ) by {
                if f < i {
                    let k = choose|k: int|
                        0 <= k < child_names(before).len() && child_names(before)[k] == folders@[f].title@;
                    assert(child_names(out@)[k] == folders@[f].title@);
                } else {
                    assert(child_names(out@)[before.len() as int] == name@);
                }
            }
        }
        i = i + 1;
    }
    let mut j: usize = 0;
    while j < notes.len()
        invariant
            j <= notes@.len(),
            forall|a: int, b: int|
                0 <= a < b < out@.len() ==> #[trigger] child_names(out@)[a] != #[trigger] child_names(out@)[b],
            forall|k: int|
                0 <= k < out@.len() ==> !is_dot_name(#[trigger] child_names(out@)[k]) && (folder_titled(
                    folders@,
                    child_names(out@)[k],
                ) || note_named(notes@, child_names(out@)[k])),
            forall|f: int|
                0 <= f < folders@.len() && !is_dot_name((#[trigger] folders@[f]).title@) ==> named(
                    child_names(out@),
                    folders@[f].title@,
                ),
            forall|n: int|
                0 <= n < j && !is_dot_name(note_file_name(#[trigger] notes@[n])) ==> named(
                    child_names(out@),
                    note_file_name(notes@[n]),
                ),
        decreases notes@.len() - j,
    {
        let name = file_name_of(&notes[j]);
        if !is_dot_exec(&name) && !has_child_name(&out, &name) {
            let ghost before = out@;
            out.push((name, NodeKind::RegularFile));
            assert(child_names(out@) =~= child_names(before).push(name@));
            assert(note_named(notes@, note_file_name(notes@[j as int])));
            assert forall|f: int| 0 <= f < folders@.len() && !is_dot_name((#[trigger] folders@[f]).title@) implies named(
                child_names(out@),
                folders@[f].title@,
            ) by {
                let k = choose|k: int|
                    0 <= k < child_names(before).len() && child_names(before)[k] == folders@[f].title@;
                assert(child_names(out@)[k] == folders@[f].title@);
            }
            assert forall|n: int| 0 <= n <= j && !is_dot_name(note_file_name(#[trigger] notes@[n])) implies named(
                child_names(out@),
                note_file_name(notes@[n]),
            ) by {
                if n < j {
                    let k = choose|k: int|
                        0 <= k < child_names(before).len() && child_names(before)[k] == note_file_name(
                            notes@[n],
                        );
                    assert(child_names(out@)[k] == note_file_name(notes@[n]));
                } else {
                    assert(child_names(out@)[before.len() as int] == name@);
                }
            }
        }
        j = j + 1;
    }
    out
}

/// After `create(parent, name)` or `mkdir(parent, name)` succeeded with inode `a`,
/// a subsequent `lookup(parent, name)` that succeeds returns the same inode `a`.
pub proof fn lemma_lookup_after_create(
    t0: InodeTable,
    t1: InodeTable,
    t2: InodeTable,
    parent: u64,
    name: Seq<char>,
    a: u64,
    b: u64,
)
    requires
        t0.wf(),
        t0.paths().contains_key(parent),
        entered(t0, t1, child_path_spec(t0.paths()[parent], name), a),
        entered(t1, t2, child_path_spec(t1.paths()[parent], name), b),
    ensures
        b == a,
        same_table(t1, t2),
{
    let child = child_path_spec(t0.paths()[parent], name);
    assert((parent as nat) < t0.next());
    if t0.inode_of(child) is None {
        assert(t1.paths() == t0.paths().insert(t0.next() as u64, child));
        assert(parent != t0.next() as u64);
    }
    assert(t1.paths()[parent] == t0.paths()[parent]);
    assert(t1.inode_of(child) is Some);
    assert(t2.paths() == t1.paths() && t2.next() == t1.next());
}

/// A read from offset 0 of a note whose stored bytes are what a write of `d` at
/// offset 0 produced returns exactly `d`.
pub proof fn lemma_read_after_write_at_zero(n: Note, c: Seq<u8>, d: Seq<u8>)
    requires
        encode_utf8(n.content@) == written(c, 0, d),
    ensures
        read_reply_spec(Found::Note(n), 0) == Ok::<Seq<u8>, FsError>(d),
{
    crate::content::lemma_write_at_zero_reads_back(c, d);
}

/// The outcome of `create(parent, name)` (and of `mknod`) taking `s0` to `s1` with reply `r`.
pub open spec fn create_outcome(
    s0: ExampleFuseFs,
    s1: ExampleFuseFs,
    parent: u64,
    name: Seq<char>,
    r: Result<FileAttrs, FsError>,
) -> bool {
    let known = s0.table().paths().contains_key(parent);
    &&& s1.wf()
    &&& !known ==> r == Err::<FileAttrs, FsError>(FsError::NotFound)
    &&& known && !valid_name(name) ==> r == Err::<FileAttrs, FsError>(FsError::Invalid)
    &&& known && valid_name(name) && is_ignored_name(name) ==> r is Ok && s1.store_writes() == s0.store_writes()
    &&& known && valid_name(name) && !is_ignored_name(name) && decompose_spec(name) is None ==> r == Err::<
        FileAttrs,
        FsError,
    >(FsError::Invalid)
    &&& r is Err ==> s1.table() == s0.table()
    &&& r is Err && r != Err::<FileAttrs, FsError>(FsError::Io) ==> s1.store_writes() == s0.store_writes()
    &&& (r matches Ok(a) ==> a.kind == NodeKind::RegularFile && a.size == 0 && a.perm == 0o644 && entered(
        s0.table(),
        s1.table(),
        s0.child_of(parent, name),
        a.ino,
    ))
    &&& r is Ok && !is_ignored_name(name) ==> exists|id: Seq<char>, p: Option<Seq<char>>|
        is_issued_id(id) && (s0.table().paths()[parent] == root_path() ==> p is None) && s1.store_writes()
            == s0.store_writes().push(
            StoreWrite::CreateNote {
                id,
                title: decompose_spec(name)->Some_0.0,
                abstract_text: Some(""@),
                content: ""@,
                syntax: decompose_spec(name)->Some_0.1,
                parent: p,
                user: s0.principal(),
            },
        )
}

/// The request that replaces note `n`'s content with its first `size` bytes,
/// zero-extended, keeping title, abstract and syntax.
pub open spec fn note_update(n: Note, size: nat) -> StoreWrite {
    StoreWrite::UpdateNote {
        id: n.id@,
        title: n.title@,
        abstract_text: opt_view(n.abstract_text),
        content: lossy_text(resized(encode_utf8(n.content@), size)),
        syntax: n.syntax@,
    }
}

/// The size a reply reports after resizing note `n` to `size` bytes: that of the
/// stored text, which is exactly `size` when the resized bytes are valid UTF-8.
pub open spec fn resize_done(w: StoreWrite, n: Note, size: nat, reply_size: u64) -> bool {
    let bytes = resized(encode_utf8(n.content@), size);
    &&& reply_size == encode_utf8(lossy_text(bytes)).len()
    &&& valid_utf8(bytes) ==> reply_size == size && encode_utf8(lossy_text(bytes)) == bytes
}

/// The two requests a rename to `new_name` sends, in order: a folder is retitled
/// to `new_name` then reparented; a note is retitled to the title and syntax that
/// `new_name` splits into, then reparented; both for the same entry, and to no
/// parent when the target folder is the root.
pub open spec fn rename_pair(a: StoreWrite, b: StoreWrite, new_name: Seq<char>, user: Seq<char>, to_root: bool) -> bool {
    match (a, b) {
        (StoreWrite::RenameFolder { id, title, user: u1 }, StoreWrite::MoveFolder { id: id2, parent, user: u2 }) => {
            id == id2 && title == new_name && u1 == user && u2 == user && (to_root ==> parent is None)
        },
        (StoreWrite::UpdateNote { id, title, syntax, .. }, StoreWrite::MoveNote { id: id2, parent }) => {
            id == id2 && decompose_spec(new_name) == Some((title, syntax)) && (to_root ==> parent is None)
        },
        _ => false,
    }
}

/// `es` is the listing of the folder at `path` (inode `ino`) from entry `offset` on,
/// built from the children `ch` (with inodes `inos`) that the store's child
/// `folders` and `notes` give.
pub open spec fn listed(
    es: Seq<DirEntry>,
    offset: nat,
    ino: u64,
    parent_ino: u64,
    ch: Seq<(String, NodeKind)>,
    inos: Seq<u64>,
    folders: Seq<Folder>,
    notes: Seq<Note>,
) -> bool {
    &&& inos.len() == ch.len()
    &&& is_window(es, offset, ino, parent_ino, ch, inos)
    &&& lists_exactly(child_names(ch), folders, notes)
}

/// Table `t` holds the path of each child `ch[j]` of the folder at `path` at inode `inos[j]`.
pub open spec fn children_entered(t: InodeTable, path: Seq<char>, ch: Seq<(String, NodeKind)>, inos: Seq<u64>) -> bool {
    forall|j: int| 0 <= j < ch.len() ==> t.inode_of(child_path_spec(path, (#[trigger] ch[j]).0@)) == Some(inos[j])
}

/// `es` is what `readdir` of inode `ino` from entry `offset` returns when table `t0`
/// becomes `t1`: the listing built from the store's child folders and notes, each
/// child entered in `t1` at the inode its entry shows.
pub open spec fn lists_folder(es: Seq<DirEntry>, offset: nat, ino: u64, t0: InodeTable, t1: InodeTable) -> bool {
    exists|ch: Seq<(String, NodeKind)>, inos: Seq<u64>, folders: Seq<Folder>, notes: Seq<Note>|
        #[trigger] listed(es, offset, ino, parent_ino_of(t0, t0.paths()[ino]), ch, inos, folders, notes)
            && children_entered(t1, t0.paths()[ino], ch, inos)
}

/// The parent inode a listing of the folder at `path` shows for `..`.
pub open spec fn parent_ino_of(t: InodeTable, path: Seq<char>) -> u64 {
    if path == root_path() {
        1
    } else {
        match t.inode_of(split_spec(path).0) {
            Some(i) => i,
            None => 1,
        }
    }
}

/// A listing window that starts at entry 0 is a full listing: `.`, `..`, then each
/// child once, no name twice.
pub proof fn lemma_listing_of_window(
    es: Seq<DirEntry>,
    ino: u64,
    parent_ino: u64,
    ch: Seq<(String, NodeKind)>,
    inos: Seq<u64>,
    folders: Seq<Folder>,
    notes: Seq<Note>,
)
    requires
        is_window(es, 0, ino, parent_ino, ch, inos),
        lists_exactly(child_names(ch), folders, notes),
        "."@ != ".."@,
    ensures
        is_listing(es, ino),
{
    assert(entry_at(es[0], 0, ino, parent_ino, ch, inos));
    assert(entry_at(es[1], 1, ino, parent_ino, ch, inos));
    assert forall|k: int| 2 <= k < es.len() implies (#[trigger] es[k]).name@ == child_names(ch)[k - 2] by {
        assert(entry_at(es[k], k, ino, parent_ino, ch, inos));
    }
    assert forall|a: int, b: int| 0 <= a < b < es.len() implies (#[trigger] es[a]).name@ != (#[trigger] es[b]).name@ by {
        if b >= 2 {
            assert(!is_dot_name(child_names(ch)[b - 2]));
            if a >= 2 {
                assert(child_names(ch)[a - 2] != child_names(ch)[b - 2]);
            }
        }
    }
    assert(entry_names(es.subrange(2, es.len() as int)) =~= child_names(ch));
}

/// The filesystem: the inode table, the store gateway and the principal.
pub struct ExampleFuseFs {
    inodes: InodeTable,
    db: Database,
    user_id: String,
}

impl ExampleFuseFs {
    /// The inode table.
    pub closed spec fn table(&self) -> InodeTable {
        self.inodes
    }

    /// Every mutation requested from the store so far, oldest first.
    pub closed spec fn store_writes(&self) -> Seq<StoreWrite> {
        self.db.writes()
    }

    /// The principal whose folders and notes are shown.
    pub closed spec fn principal(&self) -> Seq<char> {
        self.user_id@
    }

    /// The inode table is well formed.
    pub open spec fn wf(&self) -> bool {
        self.table().wf()
    }

    /// The kernel path of the entry `name` inside the folder at inode `parent`.
    pub open spec fn child_of(&self, parent: u64, name: Seq<char>) -> Seq<char> {
        child_path_spec(self.table().paths()[parent], name)
    }

    /// A filesystem over `connection`, with timestamps in `timezone`, showing the
    /// folders and notes of `user_id`; only the root has an inode.
    pub fn new(connection: rusqlite::Connection, timezone: Option<chrono_tz::Tz>, user_id: String) -> (r:
        Self)
        ensures
            r.wf(),
            r.table().paths() == map![1u64 => root_path()],
            r.table().next() == 2,
            r.store_writes() == Seq::<StoreWrite>::empty(),
            r.principal() == user_id@,
    {
        ExampleFuseFs {
            inodes: InodeTable::new(),
            db: Database::new(connection, timezone),
            user_id,
        }
    }

    /// Kernel path of inode `ino`.
    fn path_of(&self, ino: u64) -> (r: Result<String, FsError>)
        ensures
            match r {
                Ok(p) => self.table().paths().contains_key(ino) && p@ == self.table().paths()[ino],
                Err(e) => !self.table().paths().contains_key(ino) && e == FsError::NotFound,
            },
    {
        match self.inodes.get_path_from_inode(ino) {
            Some(p) => Ok(p.clone()),
            None => Err(FsError::NotFound),
        }
    }

    /// Kernel path of `name` inside the folder at inode `parent`.
    fn child_path_of(&self, parent: u64, name: &str) -> (r: Result<String, FsError>)
        ensures
            match r {
                Ok(p) => self.table().paths().contains_key(parent) && p@ == self.child_of(parent, name@),
                Err(e) => !self.table().paths().contains_key(parent) && e == FsError::NotFound,
            },
    {
        let parent_path = self.path_of(parent)?;
        Ok(child_path(parent_path.as_str(), name))
    }

    /// What the store holds at kernel path `path`: folder first, then note.
    fn probe(&self, path: &str) -> (r: Result<Found, FsError>) {
        let db_path = normalize_path_for_db(path);
        match self.db.get_folder_id_by_path(db_path.as_str(), self.user_id.as_str()) {
            Err(_) => return Err(FsError::Io),
            Ok(Some(id)) => {
                return match self.db.get_folder_by_id(id.as_str(), self.user_id.as_str()) {
                    Ok(Some(f)) => Ok(Found::Folder(f)),
                    Ok(None) => Err(FsError::NotFound),
                    Err(_) => Err(FsError::Io),
                };
            },
            Ok(None) => {},
        }
        match self.db.get_note_id_by_path(db_path.as_str()) {
            Err(_) => Err(FsError::Io),
            Ok(Some(id)) => match self.db.get_note_by_id(id.as_str()) {
                Ok(Some(n)) => Ok(Found::Note(n)),
                Ok(None) => Err(FsError::NotFound),
                Err(_) => Err(FsError::Io),
            },
            Ok(None) => Ok(Found::Absent),
        }
    }

    /// Store id of the folder at kernel path `path`; `None` for the root.
    fn folder_id_of(&self, path: &str) -> (r: Result<Option<String>, FsError>)
        ensures
            path@ == root_path() ==> r matches Ok(None),
    {
        if is_root(path) {
            return Ok(None);
        }
        let db_path = normalize_path_for_db(path);
        match self.db.get_folder_id_by_path(db_path.as_str(), self.user_id.as_str()) {
            Ok(Some(id)) => Ok(Some(id)),
            Ok(None) => Err(FsError::NotFound),
            Err(_) => Err(FsError::Io),
        }
    }

    /// Looks up `name` inside the folder at inode `parent` and gives it an inode.
    pub fn lookup(&mut self, parent: u64, name: &str) -> (r: Result<FileAttrs, FsError>)
        requires
            old(self).wf(),
        ensures
            final(self).wf(),
            final(self).store_writes() == old(self).store_writes(),
            !old(self).table().paths().contains_key(parent) ==> r == Err::<FileAttrs, FsError>(
                FsError::NotFound,
            ),
            old(self).table().paths().contains_key(parent) && !valid_name(name@) ==> r == Err::<
                FileAttrs,
                FsError,
            >(FsError::Invalid),
            r is Err ==> final(self).table() == old(self).table(),
            r matches Ok(a) ==> entered(
                old(self).table(),
                final(self).table(),
                old(self).child_of(parent, name@),
                a.ino,
            ) && exists|f: Found| r == entry_reply_spec(f, a.ino),
    {
        let full_path = self.child_path_of(parent, name)?;
        if !is_valid_name(name) {
            return Err(FsError::Invalid);
        }
        let found = self.probe(full_path.as_str())?;
        if let Found::Absent = found {
            return Err(FsError::NotFound);
        }
        let ino = self.inodes.get_or_create_inode(full_path.as_str());
        entry_reply(&found, ino)
    }

    /// Attributes of inode `ino`.
    pub fn getattr(&self, ino: u64) -> (r: Result<FileAttrs, FsError>)
        requires
            self.wf(),
        ensures
            ino == 1 ==> r == Ok::<FileAttrs, FsError>(dir_attrs(1, 0, 0)),
            !self.table().paths().contains_key(ino) ==> r == Err::<FileAttrs, FsError>(FsError::NotFound),
            ino != 1 && r is Ok ==> exists|f: Found| r == entry_reply_spec(f, ino),
    {
        if ino == 1 {
            return Ok(root_attr());
        }
        let path = self.path_of(ino)?;
        let found = self.probe(path.as_str())?;
        entry_reply(&found, ino)
    }

    /// Content of the note at inode `ino` from byte `offset` on.
    pub fn read(&self, ino: u64, offset: usize) -> (r: Result<Vec<u8>, FsError>)
        requires
            self.wf(),
        ensures
            !self.table().paths().contains_key(ino) ==> r == Err::<Vec<u8>, FsError>(FsError::NotFound),
            r matches Ok(b) ==> exists|f: Found| read_reply_spec(f, offset as nat) == Ok::<Seq<u8>, FsError>(b@),
    {
        let path = self.path_of(ino)?;
        let found = self.probe(path.as_str())?;
        read_reply(&found, offset)
    }

    /// Accepts opening the note at inode `ino`; the handle is the inode itself.
    pub fn open(&self, ino: u64) -> (r: Result<u64, FsError>)
        requires
            self.wf(),
        ensures
            !self.table().paths().contains_key(ino) ==> r == Err::<u64, FsError>(FsError::NotFound),
            r matches Ok(fh) ==> fh == ino,
            r is Ok ==> exists|f: Found| r == open_reply_spec(f, ino),
    {
        let path = self.path_of(ino)?;
        let found = self.probe(path.as_str())?;
        open_reply(&found, ino)
    }

    /// Acknowledges a flush of inode `ino`; writes are already in the store.
    pub fn flush(&self, ino: u64) -> (r: Result<(), FsError>)
        ensures
            r is Ok <==> self.table().paths().contains_key(ino),
            r is Err ==> r == Err::<(), FsError>(FsError::NotFound),
    {
        match self.inodes.get_path_from_inode(ino) {
            Some(_) => Ok(()),
            None => Err(FsError::NotFound),
        }
    }

    /// Acknowledges the release of a handle on inode `ino`; nothing is held per handle.
    pub fn release(&self, ino: u64) -> (r: Result<(), FsError>)
        ensures
            r is Ok <==> self.table().paths().contains_key(ino),
            r is Err ==> r == Err::<(), FsError>(FsError::NotFound),
    {
        match self.inodes.get_path_from_inode(ino) {
            Some(_) => Ok(()),
            None => Err(FsError::NotFound),
        }
    }

    /// Writes `data` at byte `offset` of the note at inode `ino`; returns the
    /// number of bytes taken. The store keeps content as text: bytes that are not
    /// valid UTF-8 are stored with each invalid sequence replaced.
    pub fn write(&mut self, ino: u64, offset: usize, data: &[u8]) -> (r: Result<usize, FsError>)
        requires
            old(self).wf(),
            offset + data@.len() <= usize::MAX,
        ensures
            final(self).wf(),
            final(self).table() == old(self).table(),
            !old(self).table().paths().contains_key(ino) ==> r == Err::<usize, FsError>(FsError::NotFound),
            r is Err && r != Err::<usize, FsError>(FsError::Io) ==> final(self).store_writes() == old(
                self,
            ).store_writes(),
            r matches Ok(m) ==> m == data@.len() && exists|n: Note|
                final(self).store_writes() == old(self).store_writes().push(
                    StoreWrite::UpdateNote {
                        id: n.id@,
                        title: n.title@,
                        abstract_text: opt_view(n.abstract_text),
                        content: lossy_text(written(encode_utf8(n.content@), offset as nat, data@)),
                        syntax: n.syntax@,
                    },
                ),
            r is Ok && offset == 0 && valid_utf8(data@) ==> (final(self).store_writes().last() matches StoreWrite::UpdateNote {
                content,
                ..
            } && encode_utf8(content) == data@),
    {
        let path = self.path_of(ino)?;
        let found = self.probe(path.as_str())?;
        let note = note_target(found)?;
        let old_bytes = note.content.as_str().as_bytes();
        let new_bytes = apply_write(old_bytes, offset, data);
        let text = text_from_bytes(new_bytes.as_slice());
        let res = self.db.update_note(
            note.id.as_str(),
            note.title.as_str(),
            opt_str(&note.abstract_text),
            text.as_str(),
            note.syntax.as_str(),
        );
        assert(old_bytes@ == encode_utf8(note.content@));
        match res {
            Ok(_) => Ok(data.len()),
            Err(_) => Err(FsError::Io),
        }
    }

    /// Changes the attributes of inode `ino`: a new `size` truncates or zero-extends
    /// a note's content in the store; `mode`, `uid` and `gid` show in the reply only.
    pub fn setattr(
        &mut self,
        ino: u64,
        mode: Option<u32>,
        uid: Option<u32>,
        gid: Option<u32>,
        size: Option<usize>,
    ) -> (r: Result<FileAttrs, FsError>)
        requires
            old(self).wf(),
        ensures
            final(self).wf(),
            final(self).table() == old(self).table(),
            !old(self).table().paths().contains_key(ino) ==> r == Err::<FileAttrs, FsError>(
                FsError::NotFound,
            ),
            r is Err && r != Err::<FileAttrs, FsError>(FsError::Io) ==> final(self).store_writes() == old(
                self,
            ).store_writes(),
            r matches Ok(a) ==> a.ino == ino && a == overridden(a, mode, uid, gid),
            size is None ==> final(self).store_writes() == old(self).store_writes(),
            r matches Ok(a) ==> (a.kind == NodeKind::Directory ==> final(self).store_writes() == old(
                self,
            ).store_writes() && a.size == 0),
            r matches Ok(a) ==> (a.kind == NodeKind::RegularFile && size is Some ==> exists|n: Note|
                resize_done(#[trigger] note_update(n, size->Some_0 as nat), n, size->Some_0 as nat, a.size)
                    && final(self).store_writes() == old(self).store_writes().push(note_update(n, size->Some_0 as nat))),
    {
        let path = self.path_of(ino)?;
        match self.probe(path.as_str())? {
            Found::Folder(f) => Ok(with_overrides(folder_attr(ino, &f), mode, uid, gid)),
            Found::Absent => Err(FsError::NotFound),
            Found::Note(n) => {
                let mut note = n;
                match size {
                    None => {},
                    Some(s) => {
                        let ghost before = note;
                        let new_bytes = resize_content(note.content.as_str().as_bytes(), s);
                        let text = text_from_bytes(new_bytes.as_slice());
                        let res = self.db.update_note(
                            note.id.as_str(),
                            note.title.as_str(),
                            opt_str(&note.abstract_text),
                            text.as_str(),
                            note.syntax.as_str(),
                        );
                        if res.is_err() {
                            return Err(FsError::Io);
                        }
                        if let Ok(Some(m)) = self.db.get_note_by_id(note.id.as_str()) {
                            note.created_at = m.created_at;
                            note.updated_at = m.updated_at;
                        }
                        let blen = text.as_str().as_bytes().len();
                        assert(self.store_writes() == old(self).store_writes().push(note_update(before, s as nat)));
                        note.content = text;
                        let a = with_overrides(note_attr(ino, &note), mode, uid, gid);
                        assert(blen as int == encode_utf8(note.content@).len());
                        assert(resize_done(note_update(before, s as nat), before, s as nat, a.size));
                        return Ok(a);
                    },
                }
                Ok(with_overrides(note_attr(ino, &note), mode, uid, gid))
            },
        }
    }

    /// Creates folder `name` inside the folder at inode `parent`.
    pub fn mkdir(&mut self, parent: u64, name: &str) -> (r: Result<FileAttrs, FsError>)
        requires
            old(self).wf(),
        ensures
            final(self).wf(),
            !old(self).table().paths().contains_key(parent) ==> r == Err::<FileAttrs, FsError>(
                FsError::NotFound,
            ),
            old(self).table().paths().contains_key(parent) && !valid_name(name@) ==> r == Err::<
                FileAttrs,
                FsError,
            >(FsError::Invalid),
            r is Err ==> final(self).table() == old(self).table(),
            r is Err && r != Err::<FileAttrs, FsError>(FsError::Io) ==> final(self).store_writes() == old(
                self,
            ).store_writes(),
            r matches Ok(a) ==> a.kind == NodeKind::Directory && a.size == 0 && a.perm == 0o755 && entered(
                old(self).table(),
                final(self).table(),
                old(self).child_of(parent, name@),
                a.ino,
            ),
            r is Ok ==> exists|p: Option<Seq<char>>|
                (old(self).table().paths()[parent] == root_path() ==> p is None) && final(self).store_writes()
                    == old(self).store_writes().push(
                    StoreWrite::CreateFolder { title: name@, parent: p, user: old(self).principal() },
                ),
    {
        let full_path = self.child_path_of(parent, name)?;
        if !is_valid_name(name) {
            return Err(FsError::Invalid);
        }
        let found = self.probe(full_path.as_str())?;
        vacant(&found)?;
        let parent_path = self.path_of(parent)?;
        let parent_id = self.folder_id_of(parent_path.as_str())?;
        let res = self.db.create_folder(name, opt_str(&parent_id), self.user_id.as_str());
        assert(self.store_writes() == old(self).store_writes().push(
            StoreWrite::CreateFolder { title: name@, parent: opt_view(parent_id), user: old(self).principal() },
        ));
        match res {
            Err(_) => Err(FsError::Io),
            Ok(_) => {
                let ino = self.inodes.get_or_create_inode(full_path.as_str());
                let now = now_epoch();
                Ok(crate::attrs::directory_attr(ino, now, now))
            },
        }
    }

    /// Creates note `name` (`{title}.{syntax}`) inside the folder at inode `parent`;
    /// an editor temporary name gets an inode but is never stored.
    pub fn create(&mut self, parent: u64, name: &str) -> (r: Result<FileAttrs, FsError>)
        requires
            old(self).wf(),
        ensures
            create_outcome(*old(self), *final(self), parent, name@, r),
    {
        let full_path = self.child_path_of(parent, name)?;
        if !is_valid_name(name) {
            return Err(FsError::Invalid);
        }
        if is_editor_temp_file(name) {
            let ino = self.inodes.get_or_create_inode(full_path.as_str());
            return Ok(shim_attr(ino, now_epoch()));
        }
        let (title, syntax) = match decompose_filename(name) {
            Some(p) => p,
            None => return Err(FsError::Invalid),
        };
        let found = self.probe(full_path.as_str())?;
        vacant(&found)?;
        let parent_path = self.path_of(parent)?;
        let parent_id = self.folder_id_of(parent_path.as_str())?;
        let id = fresh_id();
        let res = self.db.create_note(
            id.as_str(),
            title.as_str(),
            Some(""),
            "",
            syntax.as_str(),
            opt_str(&parent_id),
            self.user_id.as_str(),
        );
        match res {
            Err(_) => Err(FsError::Io),
            Ok(_) => {
                let ino = self.inodes.get_or_create_inode(full_path.as_str());
                let now = now_epoch();
                Ok(crate::attrs::regular_file_attr(ino, 0, now, now))
            },
        }
    }

    /// Creates a regular file; the same operation as `create`.
    pub fn mknod(&mut self, parent: u64, name: &str) -> (r: Result<FileAttrs, FsError>)
        requires
            old(self).wf(),
        ensures
            create_outcome(*old(self), *final(self), parent, name@, r),
    {
        self.create(parent, name)
    }

    /// Deletes note `name` inside the folder at inode `parent`; an editor temporary
    /// name is acknowledged without touching anything.
    pub fn unlink(&mut self, parent: u64, name: &str) -> (r: Result<(), FsError>)
        requires
            old(self).wf(),
        ensures
            final(self).wf(),
            is_ignored_name(name@) ==> r is Ok && final(self).table() == old(self).table()
                && final(self).store_writes() == old(self).store_writes(),
            !is_ignored_name(name@) && !old(self).table().paths().contains_key(parent) ==> r == Err::<
                (),
                FsError,
            >(FsError::NotFound),
            !is_ignored_name(name@) && old(self).table().paths().contains_key(parent) && !valid_name(name@)
                ==> r == Err::<(), FsError>(FsError::Invalid),
            r is Err ==> final(self).table() == old(self).table(),
            r is Err && r != Err::<(), FsError>(FsError::Io) ==> final(self).store_writes() == old(
                self,
            ).store_writes(),
            r is Ok && !is_ignored_name(name@) ==> (exists|id: Seq<char>|
                final(self).store_writes() == old(self).store_writes().push(StoreWrite::DeleteNote { id }))
                && final(self).table().next() == old(self).table().next() && final(self).table().paths()
                == match old(self).table().inode_of(old(self).child_of(parent, name@)) {
                Some(i) => old(self).table().paths().remove(i),
                None => old(self).table().paths(),
            },
    {
        if is_editor_temp_file(name) {
            return Ok(());
        }
        let full_path = self.child_path_of(parent, name)?;
        if !is_valid_name(name) {
            return Err(FsError::Invalid);
        }
        let found = self.probe(full_path.as_str())?;
        let note = note_target(found)?;
        let res = self.db.delete_note(note.id.as_str());
        assert(self.store_writes() == old(self).store_writes().push(StoreWrite::DeleteNote { id: note.id@ }));
        match res {
            Err(_) => Err(FsError::Io),
            Ok(_) => {
                proof {
                    lemma_child_renamable(self.table().paths()[parent], name@);
                }
                self.inodes.drop_path(full_path.as_str());
                Ok(())
            },
        }
    }

    /// Deletes the empty folder `name` inside the folder at inode `parent`.
    pub fn rmdir(&mut self, parent: u64, name: &str) -> (r: Result<(), FsError>)
        requires
            old(self).wf(),
        ensures
            final(self).wf(),
            !old(self).table().paths().contains_key(parent) ==> r == Err::<(), FsError>(FsError::NotFound),
            old(self).table().paths().contains_key(parent) && !valid_name(name@) ==> r == Err::<(), FsError>(
                FsError::Invalid,
            ),
            r is Err ==> final(self).table() == old(self).table(),
            r is Err && r != Err::<(), FsError>(FsError::Io) && r != Err::<(), FsError>(FsError::NotFound)
                ==> final(self).store_writes() == old(self).store_writes(),
            r == Err::<(), FsError>(FsError::NotEmpty) ==> final(self).store_writes() == old(self).store_writes(),
            r is Ok ==> (exists|id: Seq<char>|
                final(self).store_writes() == old(self).store_writes().push(
                    StoreWrite::DeleteFolder { id, user: old(self).principal() },
                )) && final(self).table().next() == old(self).table().next() && final(self).table().paths()
                == match old(self).table().inode_of(old(self).child_of(parent, name@)) {
                Some(i) => old(self).table().paths().remove(i),
                None => old(self).table().paths(),
            },
    {
        let full_path = self.child_path_of(parent, name)?;
        if !is_valid_name(name) {
            return Err(FsError::Invalid);
        }
        let found = self.probe(full_path.as_str())?;
        let folder = folder_target(found)?;
        let (folder_count, note_count) = match self.db.get_child_count(
            Some(folder.id.as_str()),
            Some(self.user_id.as_str()),
        ) {
            Ok(c) => c,
            Err(_) => return Err(FsError::Io),
        };
        rmdir_verdict(folder_count, note_count)?;
        let res = self.db.delete_folder(folder.id.as_str(), self.user_id.as_str());
        assert(self.store_writes() == old(self).store_writes().push(
            StoreWrite::DeleteFolder { id: folder.id@, user: old(self).principal() },
        ));
        match res {
            Ok(true) => {
                proof {
                    lemma_child_renamable(self.table().paths()[parent], name@);
                }
                self.inodes.drop_path(full_path.as_str());
                Ok(())
            },
            Ok(false) => Err(FsError::NotFound),
            Err(_) => Err(FsError::Io),
        }
    }

    /// Renames or moves the entry `name` of folder `parent` to `new_name` in folder
    /// `new_parent`; every inode under it keeps its number.
    pub fn rename(&mut self, parent: u64, name: &str, new_parent: u64, new_name: &str) -> (r: Result<
        (),
        FsError,
    >)
        requires
            old(self).wf(),
        ensures
            final(self).wf(),
            !old(self).table().paths().contains_key(parent) || !old(self).table().paths().contains_key(
                new_parent,
            ) ==> r == Err::<(), FsError>(FsError::NotFound),
            old(self).table().paths().contains_key(parent) && old(self).table().paths().contains_key(new_parent)
                && (!valid_name(name@) || !valid_name(new_name@)) ==> r == Err::<(), FsError>(FsError::Invalid),
            r is Err ==> final(self).table() == old(self).table(),
            r is Err && r != Err::<(), FsError>(FsError::Io) ==> final(self).store_writes() == old(
                self,
            ).store_writes(),
            r is Ok ==> final(self).table().next() == old(self).table().next() && final(self).table().paths()
                == renamed_map(
                old(self).table().paths(),
                old(self).child_of(parent, name@),
                old(self).child_of(new_parent, new_name@),
            ),
            r is Ok ==> final(self).store_writes().len() == old(self).store_writes().len() + 2
                && final(self).store_writes().subrange(0, old(self).store_writes().len() as int) == old(
                self,
            ).store_writes() && rename_pair(
                final(self).store_writes()[old(self).store_writes().len() as int],
                final(self).store_writes()[old(self).store_writes().len() + 1 as int],
                new_name@,
                old(self).principal(),
                old(self).table().paths()[new_parent] == root_path(),
            ),
    {
        let old_path = self.child_path_of(parent, name)?;
        let new_path = self.child_path_of(new_parent, new_name)?;
        if !is_valid_name(name) || !is_valid_name(new_name) {
            return Err(FsError::Invalid);
        }
        let found = self.probe(old_path.as_str())?;
        let plan = rename_plan(found, new_name)?;
        if old_path != new_path {
            let target = self.probe(new_path.as_str())?;
            vacant(&target)?;
        }
        let new_parent_path = self.path_of(new_parent)?;
        let new_parent_id = self.folder_id_of(new_parent_path.as_str())?;
        match plan {
            Move::Folder(f) => {
                let res = self.db.update_folder(f.id.as_str(), new_name, self.user_id.as_str());
                if res.is_err() {
                    return Err(FsError::Io);
                }
                let res = self.db.update_folder_parent(
                    f.id.as_str(),
                    opt_str(&new_parent_id),
                    self.user_id.as_str(),
                );
                if res.is_err() {
                    return Err(FsError::Io);
                }
                assert(self.store_writes().subrange(0, old(self).store_writes().len() as int) =~= old(
                    self,
                ).store_writes());
            },
            Move::Note(n, title, syntax) => {
                let res = self.db.update_note(
                    n.id.as_str(),
                    title.as_str(),
                    opt_str(&n.abstract_text),
                    n.content.as_str(),
                    syntax.as_str(),
                );
                if res.is_err() {
                    return Err(FsError::Io);
                }
                let res = self.db.update_note_parent(n.id.as_str(), opt_str(&new_parent_id));
                if res.is_err() {
                    return Err(FsError::Io);
                }
                assert(self.store_writes().subrange(0, old(self).store_writes().len() as int) =~= old(
                    self,
                ).store_writes());
            },
        }
        proof {
            lemma_child_renamable(self.table().paths()[parent], name@);
            lemma_child_renamable(self.table().paths()[new_parent], new_name@);
        }
        self.inodes.update_inode_mappings(old_path.as_str(), new_path.as_str());
        Ok(())
    }

    /// Lists the folder at inode `ino` from entry `offset` on: `.`, `..`, then each
    /// child folder and child note once, each with the offset of the entry after it;
    /// every child gets an inode for its path.
    pub fn readdir(&mut self, ino: u64, offset: usize) -> (r: Result<Vec<DirEntry>, FsError>)
        requires
            old(self).wf(),
        ensures
            final(self).wf(),
            final(self).store_writes() == old(self).store_writes(),
            !old(self).table().paths().contains_key(ino) ==> r == Err::<Vec<DirEntry>, FsError>(
                FsError::NotFound,
            ),
            r is Err ==> final(self).table() == old(self).table(),
            r matches Ok(es) ==> lists_folder(es@, offset as nat, ino, old(self).table(), final(self).table()),
            offset == 0 ==> (r matches Ok(es) ==> is_listing(es@, ino)),
    {
        let path = self.path_of(ino)?;
        let root = is_root(path.as_str());
        let folder_id: Option<String> = if root {
            None
        } else {
            let found = self.probe(path.as_str())?;
            let f = folder_target(found)?;
            Some(f.id)
        };
        let parent_ino: u64 = if root {
            1
        } else {
            let (parent_path, _) = split_parent_path_and_filename(path.as_str());
            match self.inodes.inode_of_path(parent_path.as_str()) {
                Some(i) => i,
                None => 1,
            }
        };
        let folders = match self.db.list_folders_by_parent(opt_str(&folder_id), self.user_id.as_str()) {
            Ok(v) => v,
            Err(_) => return Err(FsError::Io),
        };
        let notes = match self.db.list_notes_by_parent(opt_str(&folder_id), self.user_id.as_str()) {
            Ok(v) => v,
            Err(_) => return Err(FsError::Io),
        };
        let children = listing_names(&folders, &notes);
        let ghost t0 = self.table();
        let mut inos: Vec<u64> = Vec::new();
        let mut i: usize = 0;
        while i < children.len()
            invariant
                self.wf(),
                self.store_writes() == old(self).store_writes(),
                t0 == old(self).table(),
                t0.paths().contains_key(ino),
                path@ == t0.paths()[ino],
                i <= children@.len(),
                inos@.len() == i,
                forall|j: int|
                    0 <= j < i ==> self.table().inode_of(child_path_spec(path@, (#[trigger] children@[j]).0@))
                        == Some(inos@[j]),
            decreases children@.len() - i,
        {
            let ghost t1 = self.table();
            let child = child_path(path.as_str(), children[i].0.as_str());
            let child_ino = self.inodes.get_or_create_inode(child.as_str());
            proof {
                assert forall|j: int| 0 <= j < i implies self.table().inode_of(
                    child_path_spec(path@, (#[trigger] children@[j]).0@),
                ) == Some(inos@[j]) by {
                    let q = child_path_spec(path@, children@[j].0@);
                    let k = inos@[j];
                    assert(t1.paths().contains_key(k) && t1.paths()[k] == q);
                    assert((k as nat) < t1.next());
                    assert(self.table().paths().contains_key(k) && self.table().paths()[k] == q);
                    self.table().lemma_inode_of_unique(q, k);
                }
            }
            inos.push(child_ino);
            i = i + 1;
        }
        let es = dir_entries(ino, parent_ino, &children, &inos, offset);
        proof {
            assert(parent_ino == parent_ino_of(old(self).table(), old(self).table().paths()[ino]));
            assert(lists_exactly(child_names(children@), folders@, notes@));
            assert(listed(
                es@,
                offset as nat,
                ino,
                parent_ino_of(old(self).table(), old(self).table().paths()[ino]),
                children@,
                inos@,
                folders@,
                notes@,
            ));
            assert(children_entered(self.table(), old(self).table().paths()[ino], children@, inos@));
            assert(lists_folder(es@, offset as nat, ino, old(self).table(), self.table()));
            if offset == 0 {
                reveal_strlit(".");
                reveal_strlit("..");
                assert("."@.len() == 1 && ".."@.len() == 2);
                lemma_listing_of_window(es@, ino, parent_ino, children@, inos@, folders@, notes@);
            }
        }
        Ok(es)
    }
}

} // verus!
