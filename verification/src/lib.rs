//! Decision logic of the Kyde editor's views: tab bookkeeping, the commit and rollback
//! selections, file operations, find/replace, merge resolution bookkeeping and the
//! project/session switching, over plain values. The host application performs the I/O
//! that the returned effects describe.
use vstd::prelude::*;

pub mod bytes;
pub mod path;
pub mod names;
pub mod model;
pub mod browse;
pub mod tabs;
pub mod commit;
pub mod file_ops;
pub mod find;
pub mod diff;
pub mod compare;
pub mod local_history;
pub mod changelog;
pub mod merge;
pub mod projects;
pub mod notifications;
pub mod terminal;
pub mod branch;
pub mod branch_list;
pub mod finder;
pub mod git_ops;
pub mod panels;

verus! {

} // verus!
