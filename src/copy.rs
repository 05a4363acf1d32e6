//! Decisions behind copying files into a package: where each user-declared
//! file goes, when a copy is refused, and how each walked entry of a
//! directory tree is reproduced (symbolic links stay links).

use vstd::prelude::*;

verus! {

/// A package path with its leading separators removed, so that it names a
/// place under the package's data directory.
pub open spec fn relative_of(p: Seq<char>) -> Seq<char>
    decreases p.len(),
{
    if p.len() > 0 && p[0] == '/' {
        relative_of(p.drop_first())
    } else {
        p
    }
}

/// `dir` joined with the path `rel`: an absolute `rel` replaces `dir`;
/// otherwise a separator goes between them unless `dir` is empty or already
/// ends in one.
pub open spec fn joined(dir: Seq<char>, rel: Seq<char>) -> Seq<char> {
    if rel.len() > 0 && rel[0] == '/' {
        rel
    } else if dir.len() == 0 || dir.last() == '/' {
        dir + rel
    } else {
        dir + "/"@ + rel
    }
}

/// Strips the leading separators of a package path.
pub fn relative_path(p: &str) -> (r: String)
    ensures
        r@ == relative_of(p@),
{
    let n = p.unicode_len();
    let mut i: usize = 0;
    assert(p@.subrange(0, n as int) =~= p@);
    while i < n && p.get_char(i) == '/'
        invariant
            i <= n,
            n == p@.len(),
            relative_of(p@) == relative_of(p@.subrange(i as int, n as int)),
        decreases n - i,
    {
        assert(p@.subrange(i as int, n as int).drop_first() =~= p@.subrange(i + 1, n as int));
        i = i + 1;
    }
    String::from_str(p.substring_char(i, n))
}

/// Joins a directory and a path, as a path push does on Unix.
pub fn join_path(dir: &str, rel: &str) -> (r: String)
    ensures
        r@ == joined(dir@, rel@),
{
    if rel.unicode_len() > 0 && rel.get_char(0) == '/' {
        return String::from_str(rel);
    }
    let n = dir.unicode_len();
    let mut out = String::from_str(dir);
    if n > 0 && dir.get_char(n - 1) != '/' {
        proof {
            reveal_strlit("/");
        }
        out.append("/");
    }
    out.append(rel);
    out
}

/// A file that the configuration asks to place in the package: where it
/// goes inside the package, where it is now, and whether it is a regular
/// file (otherwise it is taken as a directory tree).
#[derive(Debug)]
pub struct CustomFile {
    pub package_path: String,
    pub source: String,
    pub source_is_file: bool,
}

#[derive(Clone, Copy, Debug, PartialEq, Eq, Structural)]
pub enum CopyKind {
    /// Copy one regular file, creating missing parent directories.
    File,
    /// Copy a directory tree, keeping symbolic links as links.
    Directory,
}

/// One copy to perform.
#[derive(Debug)]
pub struct CopyStep {
    pub kind: CopyKind,
    pub from: String,
    pub to: String,
}

/// `s` is the copy that places `f` under the data directory `dir`.
pub open spec fn planned(f: CustomFile, dir: Seq<char>, s: CopyStep) -> bool {
    &&& s.kind == (if f.source_is_file { CopyKind::File } else { CopyKind::Directory })
    &&& s.from@ == f.source@
    &&& s.to@ == joined(dir, relative_of(f.package_path@))
}

/// Lays out the copies that place user-declared files under `data_dir`:
/// one copy per file, in the given order. A package path that is absolute
/// is taken relative to `data_dir`.
pub fn copy_custom_files(files: &Vec<CustomFile>, data_dir: &str) -> (r: Vec<CopyStep>)
    ensures
        r.len() == files.len(),
        forall|i: int| 0 <= i < files.len() ==> planned(#[trigger] files[i], data_dir@, r[i]),
{
    let mut steps: Vec<CopyStep> = Vec::new();
    let mut i: usize = 0;
    while i < files.len()
        invariant
            i <= files.len(),
            steps.len() == i,
            forall|j: int| 0 <= j < i ==> planned(#[trigger] files[j], data_dir@, steps[j]),
        decreases files.len() - i,
    {
        let f = &files[i];
        let rel = relative_path(f.package_path.as_str());
        let to = join_path(data_dir, rel.as_str());
        let kind = if f.source_is_file {
            CopyKind::File
        } else {
            CopyKind::Directory
        };
        steps.push(CopyStep { kind, from: f.source.clone(), to });
        i = i + 1;
    }
    steps
}

/// Why a copy is refused before anything is written.
#[derive(Clone, Copy, Debug, PartialEq, Eq, Structural)]
pub enum CopyRefusal {
    /// The source does not exist.
    Missing,
    /// A file copy was asked of something that is no regular file.
    NotAFile,
    /// A tree copy was asked of something that is no directory.
    NotADirectory,
    /// The destination of a tree copy is already there.
    AlreadyExists,
}

/// Whether a single-file copy may go ahead.
pub fn check_file_copy(from_exists: bool, from_is_file: bool) -> (r: Result<(), CopyRefusal>)
    ensures
        !from_exists ==> r == Err::<(), CopyRefusal>(CopyRefusal::Missing),
        from_exists && !from_is_file ==> r == Err::<(), CopyRefusal>(CopyRefusal::NotAFile),
        from_exists && from_is_file ==> r is Ok,
{
    if !from_exists {
        Err(CopyRefusal::Missing)
    } else if !from_is_file {
        Err(CopyRefusal::NotAFile)
    } else {
        Ok(())
    }
}

/// Whether a directory-tree copy may go ahead.
pub fn check_dir_copy(from_exists: bool, from_is_dir: bool, to_exists: bool) -> (r: Result<
    (),
    CopyRefusal,
>)
    ensures
        !from_exists ==> r == Err::<(), CopyRefusal>(CopyRefusal::Missing),
        from_exists && !from_is_dir ==> r == Err::<(), CopyRefusal>(CopyRefusal::NotADirectory),
        from_exists && from_is_dir && to_exists ==> r == Err::<(), CopyRefusal>(
            CopyRefusal::AlreadyExists,
        ),
        from_exists && from_is_dir && !to_exists ==> r is Ok,
{
    if !from_exists {
        Err(CopyRefusal::Missing)
    } else if !from_is_dir {
        Err(CopyRefusal::NotADirectory)
    } else if to_exists {
        Err(CopyRefusal::AlreadyExists)
    } else {
        Ok(())
    }
}

/// How one entry of a walked directory tree is reproduced.
#[derive(Clone, Copy, Debug, PartialEq, Eq, Structural)]
pub enum EntryCopy {
    /// Make a symbolic link to a directory, with the same target.
    LinkToDirectory,
    /// Make a symbolic link to a file, with the same target.
    LinkToFile,
    /// Create the directory.
    CreateDirectory,
    /// Copy the file's contents.
    CopyContents,
}

/// The way to reproduce a walked entry: a link stays a link (to a directory
/// where what it points to is one), a directory is created, anything else
/// is copied.
pub fn entry_copy(is_symlink: bool, points_to_dir: bool, is_dir: bool) -> (r: EntryCopy)
    ensures
        r == (if is_symlink {
            if points_to_dir {
                EntryCopy::LinkToDirectory
            } else {
                EntryCopy::LinkToFile
            }
        } else if is_dir {
            EntryCopy::CreateDirectory
        } else {
            EntryCopy::CopyContents
        }),
{
    if is_symlink {
        if points_to_dir {
            EntryCopy::LinkToDirectory
        } else {
            EntryCopy::LinkToFile
        }
    } else if is_dir {
        EntryCopy::CreateDirectory
    } else {
        EntryCopy::CopyContents
    }
}

} // verus!
