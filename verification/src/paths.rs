//! Path safety: what a path is made of, and whether it stays where it should.

use vstd::prelude::*;

verus! {

/// The kind of one component of a path.
#[derive(Clone, Copy, Debug, PartialEq, Eq, Structural)]
pub enum PathPart {
    /// A drive or share prefix.
    Prefix,
    /// The root directory.
    RootDir,
    /// A reference to the current directory, `.`.
    CurDir,
    /// A reference to the parent directory, `..`.
    ParentDir,
    /// A file or directory name.
    Normal,
}

/// The kinds of the components that the platform's path parser finds in a
/// path, in order.
pub uninterp spec fn path_components(path: Seq<char>) -> Seq<PathPart>;

/// Calls `std::path::Path::components` and keeps the kind of each component.
/// The result is the parser's answer for this text, which the library does
/// not restate.
#[verifier::external_body]
fn split_components(path: &str) -> (parts: Vec<PathPart>)
    ensures
        parts@ == path_components(path@),
{
    let mut parts = Vec::new();
    for component in std::path::Path::new(path).components() {
        parts.push(
            match component {
                std::path::Component::Prefix(_) => PathPart::Prefix,
                std::path::Component::RootDir => PathPart::RootDir,
                std::path::Component::CurDir => PathPart::CurDir,
                std::path::Component::ParentDir => PathPart::ParentDir,
                std::path::Component::Normal(_) => PathPart::Normal,
            },
        );
    }
    parts
}

/// A path of exactly one component, which is a plain name.
pub open spec fn is_single_name(parts: Seq<PathPart>) -> bool {
    parts.len() == 1 && parts[0] == PathPart::Normal
}

/// How far below the starting directory a walk along `parts` ends: names go
/// one level down, `..` goes one level up.
pub open spec fn depth(parts: Seq<PathPart>) -> int
    decreases parts.len(),
{
    if parts.len() == 0 {
        0
    } else {
        depth(parts.drop_last()) + match parts.last() {
            PathPart::Normal => 1int,
            PathPart::ParentDir => -1int,
            _ => 0int,
        }
    }
}

/// A relative path that never leaves the directory it starts in: it has no
/// prefix and no root, and no beginning of it climbs above the start.
pub open spec fn stays_inside(parts: Seq<PathPart>) -> bool {
    &&& forall|i: int|
        0 <= i < parts.len() ==> parts[i] != PathPart::Prefix && parts[i] != PathPart::RootDir
    &&& forall|k: int| 0 <= k <= parts.len() ==> depth(#[trigger] parts.take(k)) >= 0
}

/// Whether the components are exactly one plain name.
pub fn single_name(parts: &Vec<PathPart>) -> (ok: bool)
    ensures
        ok == is_single_name(parts@),
{
    parts.len() == 1 && parts[0] == PathPart::Normal
}

/// Whether a walk along the components stays inside the starting directory.
pub fn inside_start(parts: &Vec<PathPart>) -> (ok: bool)
    ensures
        ok == stays_inside(parts@),
{
    let mut level: usize = 0;
    let mut i: usize = 0;
    assert(parts@.take(0) =~= Seq::<PathPart>::empty());
    while i < parts.len()
        invariant
            i <= parts.len(),
            level == depth(parts@.take(i as int)),
            level <= i,
            forall|j: int|
                0 <= j < i ==> parts@[j] != PathPart::Prefix && parts@[j] != PathPart::RootDir,
            forall|k: int| 0 <= k <= i ==> depth(#[trigger] parts@.take(k)) >= 0,
        decreases parts.len() - i,
    {
        let part = parts[i];
        proof {
            assert(parts@.take(i + 1).drop_last() =~= parts@.take(i as int));
            assert(parts@.take(i + 1).last() == part);
        }
        match part {
            PathPart::Prefix | PathPart::RootDir => {
                return false;
            },
            PathPart::ParentDir => {
                if level == 0 {
                    assert(depth(parts@.take(i + 1)) < 0);
                    return false;
                }
                level -= 1;
            },
            PathPart::Normal => {
                level += 1;
            },
            PathPart::CurDir => {},
        }
        i += 1;
    }
    true
}

/// Whether `path` is exactly one plain name: not empty, no separator that
/// leads elsewhere, not `.`, not `..`, not rooted. A name accepted here can be
/// joined to a directory without leaving it.
pub fn path_is_valid(path: &str) -> (ok: bool)
    ensures
        ok == is_single_name(path_components(path@)),
{
    let parts = split_components(path);
    single_name(&parts)
}

/// Whether the relative path `path` resolves to a place under the directory
/// it is joined to.
pub fn path_stays_inside(path: &str) -> (ok: bool)
    ensures
        ok == stays_inside(path_components(path@)),
{
    let parts = split_components(path);
    inside_start(&parts)
}

} // verus!
