//! Finding the project root: the nearest directory, from the starting one
//! upwards, that holds a manifest.

use crate::error::{BuildError, ErrorKind, Failure};
use crate::path::{PathView, ProjectPath};
use vstd::prelude::*;

verus! {

/// The name of the manifest file.
pub fn manifest_file_name() -> (name: &'static str)
    ensures
        name@ == "Cargo.toml"@,
{
    "Cargo.toml"
}

/// Where the manifest of the project rooted at `dir` lies.
pub open spec fn manifest_of(dir: PathView) -> PathView {
    dir.join("Cargo.toml"@)
}

/// Shown where no manifest was found: a project has to be made first.
pub const NO_MANIFEST: &'static str =
    "No Cargo.toml found from current dir or parent, you should init a project by `iroha_wasm_pack new` first";

/// The failure of a search that reached the top without finding a manifest.
pub open spec fn project_not_found() -> Failure {
    Failure { kind: ErrorKind::ProjectNotFound, message: NO_MANIFEST@ }
}

/// The state of a search after one directory has been probed.
#[derive(Debug, PartialEq, Eq)]
pub enum RootSearch {
    /// The probed directory holds a manifest: it is the project root.
    Found(ProjectPath),
    /// It holds none: probe this directory, its parent, next.
    Ascend(ProjectPath),
    /// It holds none and has no parent: there is no project.
    Missing(BuildError),
}

/// The mathematical content of a [`RootSearch`].
pub enum SearchView {
    Found(PathView),
    Ascend(PathView),
    Missing(Failure),
}

impl View for RootSearch {
    type V = SearchView;

    open spec fn view(&self) -> SearchView {
        match self {
            RootSearch::Found(p) => SearchView::Found(p@),
            RootSearch::Ascend(p) => SearchView::Ascend(p@),
            RootSearch::Missing(e) => SearchView::Missing(e@),
        }
    }
}

/// One move of the search: what follows from probing `cur` for a manifest.
pub open spec fn root_step(cur: PathView, manifest_present: bool) -> SearchView {
    if manifest_present {
        SearchView::Found(cur)
    } else {
        match cur.parent() {
            Some(dir) => SearchView::Ascend(dir),
            None => SearchView::Missing(project_not_found()),
        }
    }
}

/// The whole search from `start`, in a file system that holds exactly the
/// paths in `files`.
pub open spec fn locate(start: PathView, files: Set<PathView>) -> Result<PathView, Failure>
    decreases start.parts.len(),
{
    if files.contains(manifest_of(start)) {
        Ok(start)
    } else if start.parts.len() == 0 {
        Err(project_not_found())
    } else {
        locate(start.ancestor(start.parts.len() - 1), files)
    }
}

/// The file to probe in order to learn whether `dir` is a project root.
pub fn manifest_path(dir: &ProjectPath) -> (file: ProjectPath)
    ensures
        file@ == manifest_of(dir@),
{
    dir.join(manifest_file_name())
}

/// Find the project root directory, one probe at a time.
///
/// `cur` is the directory that was probed and `manifest_present` says whether
/// `manifest_path(&cur)` exists. The caller starts at the working directory and
/// goes on with the directory of each `Ascend` until the search ends.
pub fn root(cur: ProjectPath, manifest_present: bool) -> (next: RootSearch)
    ensures
        next@ == root_step(cur@, manifest_present),
{
    if manifest_present {
        return RootSearch::Found(cur);
    }
    match cur.parent() {
        Some(dir) => RootSearch::Ascend(dir),
        None => RootSearch::Missing(
            BuildError::new(ErrorKind::ProjectNotFound, String::from_str(NO_MANIFEST)),
        ),
    }
}

/// A search is its first move, followed by the search from the directory that
/// the move ascends to.
pub proof fn locate_follows_root_step(start: PathView, files: Set<PathView>)
    ensures
        locate(start, files) == match root_step(start, files.contains(manifest_of(start))) {
            SearchView::Found(dir) => Ok(dir),
            SearchView::Ascend(dir) => locate(dir, files),
            SearchView::Missing(e) => Err(e),
        },
{
}

/// Where no directory from `start` up to the top holds a manifest, the search
/// fails with `ProjectNotFound`.
pub proof fn locate_fails_without_manifest(start: PathView, files: Set<PathView>)
    requires
        forall|depth: int|
            0 <= depth <= start.parts.len() ==> !files.contains(
                #[trigger] manifest_of(start.ancestor(depth)),
            ),
    ensures
        locate(start, files) == Err::<PathView, Failure>(project_not_found()),
        project_not_found().kind == ErrorKind::ProjectNotFound,
    decreases start.parts.len(),
{
    let len = start.parts.len() as int;
    assert(start.ancestor(len) == start) by {
        assert(start.parts.take(len) =~= start.parts);
    }
    if len > 0 {
        let up = start.ancestor(len - 1);
        assert forall|depth: int| 0 <= depth <= up.parts.len() implies !files.contains(
            #[trigger] manifest_of(up.ancestor(depth)),
        ) by {
            assert(up.ancestor(depth) == start.ancestor(depth)) by {
                assert(up.parts.take(depth) =~= start.parts.take(depth));
            }
        }
        locate_fails_without_manifest(up, files);
    }
}

/// Where the directory `depth` parts deep holds a manifest and no directory
/// between it and `start` does, the search returns that directory, however far
/// above `start` it lies.
pub proof fn locate_finds_nearest_manifest(start: PathView, files: Set<PathView>, depth: int)
    requires
        0 <= depth <= start.parts.len(),
        files.contains(manifest_of(start.ancestor(depth))),
        forall|d: int|
            depth < d <= start.parts.len() ==> !files.contains(
                #[trigger] manifest_of(start.ancestor(d)),
            ),
    ensures
        locate(start, files) == Ok::<PathView, Failure>(start.ancestor(depth)),
        start.is_under(start.ancestor(depth)),
    decreases start.parts.len() - depth,
{
    let len = start.parts.len() as int;
    assert(start.ancestor(len) == start) by {
        assert(start.parts.take(len) =~= start.parts);
    }
    if depth < len {
        let up = start.ancestor(len - 1);
        assert(up.ancestor(depth) == start.ancestor(depth)) by {
            assert(up.parts.take(depth) =~= start.parts.take(depth));
        }
        assert forall|d: int| depth < d <= up.parts.len() implies !files.contains(
            #[trigger] manifest_of(up.ancestor(d)),
        ) by {
            assert(up.ancestor(d) == start.ancestor(d)) by {
                assert(up.parts.take(d) =~= start.parts.take(d));
            }
        }
        locate_finds_nearest_manifest(up, files, depth);
    }
}

} // verus!
