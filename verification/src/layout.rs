//! The shape of a generated project on disk.
//!
//! A [`ProjectLayout`] names the project root and the four directories that
//! live under it. Directory names are taken as simple relative path segments
//! and joined to the root with a single separator; the filesystem itself is
//! the authority on whether a name is legal.

use vstd::prelude::*;

verus! {

/// Joins a path segment under a root with a single `/` separator.
pub open spec fn under_root(root: Seq<char>, segment: Seq<char>) -> Seq<char> {
    root + "/"@ + segment
}

/// Where a generated project and its four directories go, all relative to
/// the directory the tool is invoked from.
pub struct ProjectLayout {
    /// The project root; also the project's name in the build descriptor.
    pub project_name: String,
    /// Holds the starter source file.
    pub src_dir: String,
    /// Added to the compiler's header search path.
    pub include_dir: String,
    /// Where the build tool keeps its working files.
    pub build_dir: String,
    /// Where the built executable is placed and launched from.
    pub exec_dir: String,
}

impl ProjectLayout {
    /// The four directories scaffolding creates, in creation order:
    /// source, include, build, executable output.
    pub open spec fn directory_paths_spec(&self) -> Seq<Seq<char>> {
        seq![
            under_root(self.project_name@, self.src_dir@),
            under_root(self.project_name@, self.include_dir@),
            under_root(self.project_name@, self.build_dir@),
            under_root(self.project_name@, self.exec_dir@),
        ]
    }

    /// Produces the four directory paths to create, in creation order.
    pub fn directory_paths(&self) -> (r: Vec<String>)
        ensures
            r.deep_view() == self.directory_paths_spec(),
    {
        let mut r: Vec<String> = Vec::new();
        r.push(joined_path(self.project_name.as_str(), self.src_dir.as_str()));
        r.push(joined_path(self.project_name.as_str(), self.include_dir.as_str()));
        r.push(joined_path(self.project_name.as_str(), self.build_dir.as_str()));
        r.push(joined_path(self.project_name.as_str(), self.exec_dir.as_str()));
        proof {
            assert(r.deep_view() =~= self.directory_paths_spec());
        }
        r
    }
}

/// Joins one path segment under a root directory.
pub fn joined_path(root: &str, segment: &str) -> (r: String)
    ensures
        r@ == under_root(root@, segment@),
{
    let mut s = root.to_owned();
    s.append("/");
    s.append(segment);
    s
}

} // verus!
