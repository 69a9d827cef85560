//! A notes store exposed as a POSIX filesystem: the inode table, the name
//! classifier, the attribute builder and the operation dispatcher, verified.
pub mod names;
pub mod content;
pub mod inode_table;
pub mod outside;
pub mod database;
pub mod attrs;
pub mod fuse_fs;
