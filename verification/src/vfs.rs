//! The table from absolute paths to file identifiers.
//!
//! The loader fills a `Vfs` while it reads the workspace. This module only
//! reads it: a path is either a file the workspace tracks, with its
//! identifier, or it is not.

use ra_ap_vfs::{AbsPathBuf, FileExcluded, Vfs, VfsPath};
use vstd::prelude::*;

use crate::error::{BatchError, ErrorKind};
use crate::paths::{path_is_absolute, AbsolutePath};

verus! {

/// The loader's path table, opaque to the verifier.
#[verifier::external_type_specification]
#[verifier::external_body]
pub struct ExVfs(Vfs);

/// What the table holds: for each absolute path whose file it knows and has
/// not seen deleted, the file's identifier and whether the file is excluded.
pub uninterp spec fn vfs_entries(vfs: Vfs) -> Map<Seq<char>, (u32, bool)>;

/// The largest raw value that a file identifier can have.
pub const MAX_FILE_ID: u32 = 0x7fff_ffff;

/// Calls `Vfs::file_id` on the path converted by `AbsPathBuf::assert` and
/// `VfsPath::from`. The method answers `None` for a path it never interned or
/// whose file is deleted, and otherwise the identifier with the excluded mark;
/// identifiers are positions in the interner, which refuses to grow past
/// `MAX_FILE_ID`. `AbsPathBuf::assert` panics on a relative path, hence the
/// `requires`.
#[verifier::external_body]
fn vfs_file_id(vfs: &Vfs, path: &str) -> (out: Option<(u32, bool)>)
    requires
        path_is_absolute(path@),
    ensures
        out is Some <==> vfs_entries(*vfs).dom().contains(path@),
        out is Some ==> out.unwrap() == vfs_entries(*vfs)[path@],
        out is Some ==> out.unwrap().0 <= MAX_FILE_ID,
{
    let path = VfsPath::from(AbsPathBuf::assert(path.into()));
    match vfs.file_id(&path) {
        Some((id, FileExcluded::Yes)) => Some((id.index(), true)),
        Some((id, FileExcluded::No)) => Some((id.index(), false)),
        None => None,
    }
}

/// The identifier of a tracked file.
#[derive(Clone, Copy, Debug)]
pub struct FileId {
    raw: u32,
}

impl FileId {
    #[verifier::type_invariant]
    spec fn in_range(self) -> bool {
        self.raw <= MAX_FILE_ID
    }

    /// The identifier as a number.
    pub closed spec fn view(&self) -> u32 {
        self.raw
    }

    /// The identifier as a number.
    pub fn index(&self) -> (out: u32)
        ensures
            out == self@,
            out <= MAX_FILE_ID,
    {
        proof {
            use_type_invariant(self);
        }
        self.raw
    }
}

/// Whether the table tracks `path`: it holds the path, and not as excluded.
pub open spec fn indexed(entries: Map<Seq<char>, (u32, bool)>, path: Seq<char>) -> bool {
    entries.dom().contains(path) && !entries[path].1
}

/// What `accept` makes of a table entry.
pub open spec fn accepted(entry: Option<(u32, bool)>, out: Result<FileId, BatchError>) -> bool {
    match entry {
        Some((raw, false)) => out is Ok && out->Ok_0@ == raw,
        _ => out is Err && out->Err_0.kind == ErrorKind::UntrackedPath && out->Err_0.detail@
            == "Missing path in analysis"@,
    }
}

/// Decides on what the table answered for a path: an entry that is not
/// excluded gives its identifier; an excluded entry and a missing one are both
/// an `UntrackedPath` failure.
pub fn accept(entry: Option<(u32, bool)>) -> (out: Result<FileId, BatchError>)
    requires
        entry is Some ==> entry.unwrap().0 <= MAX_FILE_ID,
    ensures
        accepted(entry, out),
{
    match entry {
        Some((raw, false)) => Ok(FileId { raw }),
        _ => Err(BatchError::new(ErrorKind::UntrackedPath, "Missing path in analysis")),
    }
}

/// What a lookup of `path` gives in a table that holds `entries`: the
/// identifier where the table tracks the path, an `UntrackedPath` failure
/// where it does not.
pub open spec fn looked_up(
    entries: Map<Seq<char>, (u32, bool)>,
    path: Seq<char>,
    out: Result<FileId, BatchError>,
) -> bool {
    if indexed(entries, path) {
        out is Ok && out->Ok_0@ == entries[path].0
    } else {
        out is Err && out->Err_0.kind == ErrorKind::UntrackedPath && out->Err_0.detail@
            == "Missing path in analysis"@
    }
}

/// Looks `path` up in the table. `Ok` with the identifier if the table
/// tracks the path, an `UntrackedPath` failure if it does not. The table is
/// only read.
pub fn lookup(vfs: &Vfs, path: &AbsolutePath) -> (out: Result<FileId, BatchError>)
    ensures
        looked_up(vfs_entries(*vfs), path@, out),
{
    accept(vfs_file_id(vfs, path.as_str()))
}

/// Lookups are stable: two lookups of one path in one table both succeed
/// with the same identifier, or both fail as untracked.
pub proof fn lookup_is_stable(
    entries: Map<Seq<char>, (u32, bool)>,
    path: Seq<char>,
    first: Result<FileId, BatchError>,
    second: Result<FileId, BatchError>,
)
    requires
        looked_up(entries, path, first),
        looked_up(entries, path, second),
    ensures
        first is Ok <==> second is Ok,
        first is Ok ==> first->Ok_0@ == second->Ok_0@,
        first is Err ==> first->Err_0.kind == second->Err_0.kind && first->Err_0.detail@
            == second->Err_0.detail@,
{
}

} // verus!
