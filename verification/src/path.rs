//! Paths as the pipelines see them: an anchor that is never split, and the
//! components below it.

use vstd::prelude::*;

verus! {

/// A location in the file system.
///
/// The anchor is the text the path starts from (a file-system root, or a whole
/// directory reported by a tool); each part is pushed onto it in turn. The
/// library adds and drops parts and never looks inside the anchor.
#[derive(Debug, PartialEq, Eq)]
pub struct ProjectPath {
    pub anchor: String,
    pub parts: Vec<String>,
}

/// The mathematical content of a [`ProjectPath`].
pub struct PathView {
    pub anchor: Seq<char>,
    pub parts: Seq<Seq<char>>,
}

impl PathView {
    /// This path with one more part below it.
    pub open spec fn join(self, part: Seq<char>) -> PathView {
        PathView { anchor: self.anchor, parts: self.parts.push(part) }
    }

    /// This path cut down to its first `depth` parts.
    pub open spec fn ancestor(self, depth: int) -> PathView {
        PathView { anchor: self.anchor, parts: self.parts.take(depth) }
    }

    /// The directory that holds this path. A path without parts has none.
    pub open spec fn parent(self) -> Option<PathView> {
        if self.parts.len() == 0 {
            None
        } else {
            Some(self.ancestor(self.parts.len() - 1))
        }
    }

    /// `self` lies in `dir`, at any depth (or is `dir` itself).
    pub open spec fn is_under(self, dir: PathView) -> bool {
        &&& self.anchor == dir.anchor
        &&& dir.parts.len() <= self.parts.len()
        &&& self.parts.take(dir.parts.len() as int) == dir.parts
    }
}

impl View for ProjectPath {
    type V = PathView;

    open spec fn view(&self) -> PathView {
        PathView { anchor: self.anchor@, parts: self.parts.deep_view() }
    }
}

/// A copy of a list of texts.
pub fn clone_texts(texts: &Vec<String>) -> (copy: Vec<String>)
    ensures
        copy.deep_view() == texts.deep_view(),
{
    let mut copy: Vec<String> = Vec::new();
    let mut i: usize = 0;
    while i < texts.len()
        invariant
            i <= texts.len(),
            copy.len() == i,
            forall|j: int| 0 <= j < i ==> copy@[j]@ == texts@[j]@,
        decreases texts.len() - i,
    {
        copy.push(texts[i].clone());
        i += 1;
    }
    copy
}

impl ProjectPath {
    /// The path with the given anchor and parts.
    pub fn new(anchor: String, parts: Vec<String>) -> (p: ProjectPath)
        ensures
            p@ == (PathView { anchor: anchor@, parts: parts.deep_view() }),
    {
        ProjectPath { anchor, parts }
    }

    /// The path that consists of an anchor alone.
    pub fn from_anchor(anchor: &str) -> (p: ProjectPath)
        ensures
            p@ == (PathView { anchor: anchor@, parts: Seq::empty() }),
    {
        let p = ProjectPath { anchor: String::from_str(anchor), parts: Vec::new() };
        assert(p.parts.deep_view() =~= Seq::<Seq<char>>::empty());
        p
    }

    /// A copy of this path.
    pub fn duplicate(&self) -> (p: ProjectPath)
        ensures
            p@ == self@,
    {
        ProjectPath { anchor: self.anchor.clone(), parts: clone_texts(&self.parts) }
    }

    /// This path with `part` below it.
    pub fn join(&self, part: &str) -> (p: ProjectPath)
        ensures
            p@ == self@.join(part@),
    {
        let mut parts = clone_texts(&self.parts);
        parts.push(String::from_str(part));
        let p = ProjectPath { anchor: self.anchor.clone(), parts };
        assert(p.parts.deep_view() =~= self.parts.deep_view().push(part@));
        p
    }

    /// The directory that holds this path, or `None` for a path without parts.
    pub fn parent(&self) -> (p: Option<ProjectPath>)
        ensures
            p.is_some() == self@.parent().is_some(),
            p matches Some(dir) ==> Some(dir@) == self@.parent(),
    {
        if self.parts.len() == 0 {
            return None;
        }
        let mut parts = clone_texts(&self.parts);
        parts.pop();
        let p = ProjectPath { anchor: self.anchor.clone(), parts };
        assert(p.parts.deep_view() =~= self.parts.deep_view().take(self.parts.len() - 1));
        Some(p)
    }

    /// Whether two paths have the same anchor and the same parts.
    pub fn same_as(&self, other: &ProjectPath) -> (same: bool)
        ensures
            same == (self@ == other@),
    {
        if self.anchor != other.anchor {
            return false;
        }
        if self.parts.len() != other.parts.len() {
            assert(self.parts.deep_view().len() != other.parts.deep_view().len());
            return false;
        }
        let mut i: usize = 0;
        while i < self.parts.len()
            invariant
                i <= self.parts.len(),
                self.parts.len() == other.parts.len(),
                forall|j: int| 0 <= j < i ==> self.parts@[j]@ == other.parts@[j]@,
            decreases self.parts.len() - i,
        {
            if self.parts[i] != other.parts[i] {
                assert(self.parts.deep_view()[i as int] != other.parts.deep_view()[i as int]);
                return false;
            }
            i += 1;
        }
        assert(self.parts.deep_view() =~= other.parts.deep_view());
        true
    }
}

} // verus!
