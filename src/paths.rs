//! Which paths form a valid configuration, which directory entries are
//! regular files, and which source file feeds which module.
use vstd::prelude::*;
use crate::chars::{has_suffix, ends_with};

verus! {

/// The extension that marks a shader source.
pub open spec fn source_ext() -> Seq<char> {
    seq!['.', 'g', 'l', 's', 'l']
}

/// The extension of a generated module.
pub open spec fn module_ext() -> Seq<char> {
    seq!['.', 'j', 's']
}

const SOURCE_EXT: &'static str = ".glsl";

const MODULE_EXT: &'static str = ".js";

proof fn lemma_ext_literals()
    ensures
        SOURCE_EXT@ == source_ext(),
        MODULE_EXT@ == module_ext(),
{
    reveal_strlit(".glsl");
    reveal_strlit(".js");
    assert(SOURCE_EXT@ =~= source_ext());
    assert(MODULE_EXT@ =~= module_ext());
}

/// What the file system reports at a path.
#[derive(Clone, Copy, Debug, PartialEq, Eq, Structural)]
pub enum PathKind {
    Missing,
    File,
    Directory,
}

/// Whether one pair of files or two directories are watched.
#[derive(Clone, Copy, Debug, PartialEq, Eq, Structural)]
pub enum Mode {
    Single,
    Directory,
}

/// Why the watcher cannot run.
#[derive(Clone, Copy, Debug, PartialEq, Eq, Structural)]
pub enum WatchError {
    /// In single-file mode, the source does not end in `.glsl` or the
    /// destination does not end in `.js`.
    InvalidExtension,
    /// One path is a directory and the other is not.
    ModeMismatch,
    /// A path does not exist.
    PathNotFound,
    /// Reading or writing a file, or reading a directory, failed.
    IoError,
}

/// A validated configuration: the two paths and the mode they select.
#[derive(Debug)]
pub struct WatchTarget {
    pub mode: Mode,
    pub source: String,
    pub dest: String,
}

/// The outcome of validating a source and a destination path, given what
/// the file system reports at each.
pub open spec fn validation(
    src: Seq<char>,
    dest: Seq<char>,
    src_kind: PathKind,
    dest_kind: PathKind,
) -> Result<Mode, WatchError> {
    if src_kind == PathKind::Missing || dest_kind == PathKind::Missing {
        Err(WatchError::PathNotFound)
    } else if src_kind == PathKind::Directory && dest_kind == PathKind::Directory {
        Ok(Mode::Directory)
    } else if src_kind == PathKind::Directory || dest_kind == PathKind::Directory {
        Err(WatchError::ModeMismatch)
    } else if has_suffix(src, source_ext()) && has_suffix(dest, module_ext()) {
        Ok(Mode::Single)
    } else {
        Err(WatchError::InvalidExtension)
    }
}

/// Checks that `src` and `dest` form a valid configuration: two directories,
/// or a `.glsl` source file and a `.js` destination file, both existing.
pub fn validate_paths(src: &str, dest: &str, src_kind: PathKind, dest_kind: PathKind) -> (r: Result<
    WatchTarget,
    WatchError,
>)
    ensures
        match r {
            Ok(t) => validation(src@, dest@, src_kind, dest_kind) == Ok::<Mode, WatchError>(t.mode)
                && t.source@ == src@ && t.dest@ == dest@,
            Err(e) => validation(src@, dest@, src_kind, dest_kind) == Err::<Mode, WatchError>(e),
        },
{
    proof {
        lemma_ext_literals();
    }
    let mode = if src_kind == PathKind::Missing || dest_kind == PathKind::Missing {
        return Err(WatchError::PathNotFound);
    } else if src_kind == PathKind::Directory && dest_kind == PathKind::Directory {
        Mode::Directory
    } else if src_kind == PathKind::Directory || dest_kind == PathKind::Directory {
        return Err(WatchError::ModeMismatch);
    } else if ends_with(src, SOURCE_EXT) && ends_with(dest, MODULE_EXT) {
        Mode::Single
    } else {
        return Err(WatchError::InvalidExtension);
    };
    Ok(WatchTarget { mode, source: String::from_str(src), dest: String::from_str(dest) })
}

/// One entry of a directory listing.
#[derive(Clone, Debug)]
pub struct DirEntry {
    pub path: String,
    pub is_file: bool,
}

/// The views of a sequence of strings.
pub open spec fn views(v: Seq<String>) -> Seq<Seq<char>> {
    v.map_values(|s: String| s@)
}

/// The paths of the entries that are regular files, in listing order.
pub open spec fn file_paths(entries: Seq<DirEntry>) -> Seq<Seq<char>>
    decreases entries.len(),
{
    if entries.len() == 0 {
        Seq::empty()
    } else {
        let rest = file_paths(entries.drop_last());
        if entries.last().is_file {
            rest.push(entries.last().path@)
        } else {
            rest
        }
    }
}

/// Keeps the paths of the entries that are regular files, in listing order.
pub fn regular_files(entries: &Vec<DirEntry>) -> (r: Vec<String>)
    ensures
        views(r@) == file_paths(entries@),
{
    let mut out: Vec<String> = Vec::new();
    let mut i: usize = 0;
    while i < entries.len()
        invariant
            i <= entries@.len(),
            views(out@) == file_paths(entries@.subrange(0, i as int)),
        decreases entries@.len() - i,
    {
        let ghost before = out@;
        if entries[i].is_file {
            out.push(entries[i].path.clone());
            assert(views(out@) =~= views(before).push(entries@[i as int].path@));
        }
        assert(entries@.subrange(0, i + 1).drop_last() =~= entries@.subrange(0, i as int));
        i = i + 1;
    }
    assert(entries@.subrange(0, i as int) =~= entries@);
    out
}

/// The last component of a path: what follows its last `/`, or the whole
/// path where it holds none.
pub open spec fn file_name(p: Seq<char>) -> Seq<char>
    decreases p.len(),
{
    if p.len() == 0 {
        p
    } else if p.last() == '/' {
        Seq::empty()
    } else {
        file_name(p.drop_last()).push(p.last())
    }
}

/// Finds where the last component of `p` starts.
fn file_name_start(p: &str) -> (k: usize)
    ensures
        k <= p@.len(),
        file_name(p@) == p@.subrange(k as int, p@.len() as int),
{
    let n = p.unicode_len();
    let mut k: usize = 0;
    let mut i: usize = 0;
    while i < n
        invariant
            n == p@.len(),
            k <= i <= n,
            file_name(p@.subrange(0, i as int)) == p@.subrange(k as int, i as int),
        decreases n - i,
    {
        assert(p@.subrange(0, i + 1).drop_last() =~= p@.subrange(0, i as int));
        if p.get_char(i) == '/' {
            k = i + 1;
            assert(p@.subrange(k as int, i + 1) =~= Seq::<char>::empty());
        } else {
            assert(p@.subrange(k as int, i + 1) =~= p@.subrange(k as int, i as int).push(p@[i as int]));
        }
        i = i + 1;
    }
    assert(p@.subrange(0, n as int) =~= p@);
    k
}

/// Returns the last component of a path.
pub fn file_name_of(p: &str) -> (r: String)
    ensures
        r@ == file_name(p@),
{
    let k = file_name_start(p);
    let n = p.unicode_len();
    p.substring_char(k, n).to_owned()
}

/// A source file and the module generated from it.
#[derive(Clone, Debug)]
pub struct FilePair {
    pub source: String,
    pub dest: String,
}

/// The views of a sequence of pairs.
pub open spec fn pair_views(v: Seq<FilePair>) -> Seq<(Seq<char>, Seq<char>)> {
    v.map_values(|p: FilePair| (p.source@, p.dest@))
}

/// The module name that belongs to a source file name: the whole name, then `.js`.
pub open spec fn module_name_for(source_name: Seq<char>) -> Seq<char> {
    source_name + module_ext()
}

/// `dest` is a module generated from `src`.
pub open spec fn corresponds(src: Seq<char>, dest: Seq<char>) -> bool {
    file_name(dest) == module_name_for(file_name(src))
}

/// The pairs of `src` with each of `dests` that corresponds to it, in the
/// order of `dests`.
pub open spec fn matches_for(src: Seq<char>, dests: Seq<Seq<char>>) -> Seq<(Seq<char>, Seq<char>)>
    decreases dests.len(),
{
    if dests.len() == 0 {
        Seq::empty()
    } else {
        let rest = matches_for(src, dests.drop_last());
        if corresponds(src, dests.last()) {
            rest.push((src, dests.last()))
        } else {
            rest
        }
    }
}

/// All pairs of a `.glsl` file of `srcs` with a corresponding file of
/// `dests`: in the order of `srcs`, and for one source in the order of `dests`.
/// A source with several corresponding modules gives one pair for each.
pub open spec fn pairs_of(srcs: Seq<Seq<char>>, dests: Seq<Seq<char>>) -> Seq<
    (Seq<char>, Seq<char>),
>
    decreases srcs.len(),
{
    if srcs.len() == 0 {
        Seq::empty()
    } else {
        let rest = pairs_of(srcs.drop_last(), dests);
        if has_suffix(srcs.last(), source_ext()) {
            rest + matches_for(srcs.last(), dests)
        } else {
            rest
        }
    }
}

/// Pairs each `.glsl` file of `src_files` with every file of `dest_files`
/// whose name is the source's name followed by `.js`.
pub fn get_corresponding_files(src_files: &Vec<String>, dest_files: &Vec<String>) -> (r: Vec<
    FilePair,
>)
    ensures
        pair_views(r@) == pairs_of(views(src_files@), views(dest_files@)),
{
    proof {
        lemma_ext_literals();
    }
    let ghost dviews = views(dest_files@);
    let mut out: Vec<FilePair> = Vec::new();
    let mut i: usize = 0;
    while i < src_files.len()
        invariant
            i <= src_files@.len(),
            dviews == views(dest_files@),
            pair_views(out@) == pairs_of(views(src_files@.subrange(0, i as int)), dviews),
        decreases src_files@.len() - i,
    {
        proof {
            lemma_ext_literals();
        }
        let src = &src_files[i];
        let ghost before = pair_views(out@);
        assert(views(src_files@.subrange(0, i + 1)).drop_last() =~= views(
            src_files@.subrange(0, i as int),
        ));
        assert(views(src_files@.subrange(0, i + 1)).last() == src@);
        if ends_with(src.as_str(), SOURCE_EXT) {
            let mut wanted = file_name_of(src.as_str());
            wanted.append(MODULE_EXT);
            let mut j: usize = 0;
            while j < dest_files.len()
                invariant
                    i < src_files@.len(),
                    src == &src_files@[i as int],
                    j <= dest_files@.len(),
                    dviews == views(dest_files@),
                    wanted@ == module_name_for(file_name(src@)),
                    pair_views(out@) == before + matches_for(src@, dviews.subrange(0, j as int)),
                decreases dest_files@.len() - j,
            {
                let dest = &dest_files[j];
                let name = file_name_of(dest.as_str());
                let ghost mid = pair_views(out@);
                assert(dviews.subrange(0, j + 1).drop_last() =~= dviews.subrange(0, j as int));
                assert(dviews.subrange(0, j + 1).last() == dest@);
                if name == wanted {
                    out.push(FilePair { source: src.clone(), dest: dest.clone() });
                    assert(pair_views(out@) =~= mid.push((src@, dest@)));
                }
                j = j + 1;
            }
            assert(dviews.subrange(0, j as int) =~= dviews);
            assert(pairs_of(views(src_files@.subrange(0, i + 1)), dviews) == pairs_of(
                views(src_files@.subrange(0, i as int)),
                dviews,
            ) + matches_for(src@, dviews));
        } else {
            assert(before + Seq::empty() =~= before);
        }
        i = i + 1;
    }
    assert(src_files@.subrange(0, i as int) =~= src_files@);
    out
}

} // verus!
