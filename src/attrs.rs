//! POSIX attribute records for folders, notes, the root and unstored shim files.
use crate::database::{Folder, Note};
use vstd::prelude::*;
use vstd::utf8::encode_utf8;

verus! {

/// Owner reported for every entry.
pub const OWNER_UID: u32 = 501;

/// Group reported for every entry.
pub const OWNER_GID: u32 = 20;

/// Block size used for `blocks` and `blksize`.
pub const BLOCK_SIZE: u32 = 512;

/// Permission bits of folders.
pub const DIR_PERM: u16 = 0o755;

/// Permission bits of notes.
pub const FILE_PERM: u16 = 0o644;

/// Kind of a filesystem entry.
#[derive(Debug, Clone, Copy, PartialEq, Eq, Structural)]
pub enum NodeKind {
    Directory,
    RegularFile,
}

/// Attributes of one entry; times are seconds since the UNIX epoch.
#[derive(Debug, Clone, Copy, PartialEq, Eq, Structural)]
pub struct FileAttrs {
    pub ino: u64,
    pub size: u64,
    pub blocks: u64,
    pub atime: i64,
    pub mtime: i64,
    pub ctime: i64,
    pub crtime: i64,
    pub kind: NodeKind,
    pub perm: u16,
    pub nlink: u32,
    pub uid: u32,
    pub gid: u32,
    pub blksize: u32,
}

/// Number of 512-byte blocks that `size` bytes occupy.
pub open spec fn blocks_for(size: nat) -> nat {
    ((size + 511) / 512) as nat
}

/// Attributes of a directory dated by `created` and `updated`.
pub open spec fn dir_attrs(ino: u64, created: i64, updated: i64) -> FileAttrs {
    FileAttrs {
        ino,
        size: 0,
        blocks: 0,
        atime: updated,
        mtime: updated,
        ctime: updated,
        crtime: created,
        kind: NodeKind::Directory,
        perm: 0o755,
        nlink: 2,
        uid: 501,
        gid: 20,
        blksize: 512,
    }
}

/// Attributes of a regular file of `size` bytes dated by `created` and `updated`.
pub open spec fn file_attrs(ino: u64, size: u64, created: i64, updated: i64) -> FileAttrs {
    FileAttrs {
        ino,
        size,
        blocks: blocks_for(size as nat) as u64,
        atime: updated,
        mtime: updated,
        ctime: updated,
        crtime: created,
        kind: NodeKind::RegularFile,
        perm: 0o644,
        nlink: 1,
        uid: 501,
        gid: 20,
        blksize: 512,
    }
}

/// `a` with permission bits, owner and group replaced where a value is given.
pub open spec fn overridden(a: FileAttrs, mode: Option<u32>, uid: Option<u32>, gid: Option<u32>) -> FileAttrs {
    FileAttrs {
        perm: match mode {
            Some(m) => (m % 4096) as u16,
            None => a.perm,
        },
        uid: match uid {
            Some(u) => u,
            None => a.uid,
        },
        gid: match gid {
            Some(g) => g,
            None => a.gid,
        },
        ..a
    }
}

/// Attributes of the mount root: a directory dated at the epoch.
pub fn root_attr() -> (r: FileAttrs)
    ensures
        r == dir_attrs(1, 0, 0),
{
    FileAttrs {
        ino: 1,
        size: 0,
        blocks: 0,
        atime: 0,
        mtime: 0,
        ctime: 0,
        crtime: 0,
        kind: NodeKind::Directory,
        perm: DIR_PERM,
        nlink: 2,
        uid: OWNER_UID,
        gid: OWNER_GID,
        blksize: BLOCK_SIZE,
    }
}

/// Attributes of a directory.
pub fn directory_attr(ino: u64, created: i64, updated: i64) -> (r: FileAttrs)
    ensures
        r == dir_attrs(ino, created, updated),
{
    FileAttrs {
        ino,
        size: 0,
        blocks: 0,
        atime: updated,
        mtime: updated,
        ctime: updated,
        crtime: created,
        kind: NodeKind::Directory,
        perm: DIR_PERM,
        nlink: 2,
        uid: OWNER_UID,
        gid: OWNER_GID,
        blksize: BLOCK_SIZE,
    }
}

/// Attributes of a regular file of `size` bytes.
pub fn regular_file_attr(ino: u64, size: usize, created: i64, updated: i64) -> (r: FileAttrs)
    ensures
        r == file_attrs(ino, size as u64, created, updated),
{
    let blocks = size / 512 + if size % 512 == 0 {
        0
    } else {
        1
    };
    assert(blocks as nat == blocks_for(size as nat)) by (nonlinear_arith)
        requires
            blocks == size / 512 + if size % 512 == 0 {
                0int
            } else {
                1int
            },
    ;
    FileAttrs {
        ino,
        size: size as u64,
        blocks: blocks as u64,
        atime: updated,
        mtime: updated,
        ctime: updated,
        crtime: created,
        kind: NodeKind::RegularFile,
        perm: FILE_PERM,
        nlink: 1,
        uid: OWNER_UID,
        gid: OWNER_GID,
        blksize: BLOCK_SIZE,
    }
}

/// Attributes of a folder at inode `ino`.
pub fn folder_attr(ino: u64, folder: &Folder) -> (r: FileAttrs)
    ensures
        r == dir_attrs(ino, folder.created_at, folder.updated_at),
{
    directory_attr(ino, folder.created_at, folder.updated_at)
}

/// Attributes of a note at inode `ino`, sized by the bytes of its content.
pub fn note_attr(ino: u64, note: &Note) -> (r: FileAttrs)
    ensures
        r == file_attrs(
            ino,
            encode_utf8(note.content@).len() as u64,
            note.created_at,
            note.updated_at,
        ),
{
    let size = note.content.as_str().as_bytes().len();
    regular_file_attr(ino, size, note.created_at, note.updated_at)
}

/// Attributes of an unstored shim file dated `now`.
pub fn shim_attr(ino: u64, now: i64) -> (r: FileAttrs)
    ensures
        r == file_attrs(ino, 0, now, now),
{
    regular_file_attr(ino, 0, now, now)
}

/// `attr` with permission bits, owner and group replaced where a value is given.
pub fn with_overrides(attr: FileAttrs, mode: Option<u32>, uid: Option<u32>, gid: Option<u32>) -> (r:
    FileAttrs)
    ensures
        r == overridden(attr, mode, uid, gid),
{
    let perm = match mode {
        Some(m) => (m % 4096) as u16,
        None => attr.perm,
    };
    let uid = match uid {
        Some(u) => u,
        None => attr.uid,
    };
    let gid = match gid {
        Some(g) => g,
        None => attr.gid,
    };
    FileAttrs { perm, uid, gid, ..attr }
}

} // verus!
