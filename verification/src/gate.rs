//! The upload gate: how artifacts are named, when one is uploaded again, and
//! which stale artifacts may be deleted.

use crate::error::Error;
use crate::text::contains;
use crate::text::has_substring;
use crate::text::lemma_substring_survives_framing;
use crate::text::occurs_at;
use vstd::prelude::*;
use vstd::string::*;

verus! {

/// The name of the session descriptor, under the session directory.
pub const CONFIG_FILE: &'static str = "scribe.toml";

/// The session's private directory, under the session directory. Its name is
/// the marker that every path offered for deletion must hold.
pub const DATA_DIR: &'static str = ".scribe";

/// The file that holds the conversation record, under the session directory.
pub const CONV_FILE: &'static str = ".scribe/conv.json";

/// The directory of the bundle artifacts, under the session directory.
pub const FILES_DIR: &'static str = ".scribe/files";

/// The name of a bundle artifact:
/// `<session>-<bundle>-bundle-<assistant>.<extension>`.
pub open spec fn artifact_name(
    session: Seq<char>,
    bundle: Seq<char>,
    assistant: Seq<char>,
    ext: Seq<char>,
) -> Seq<char> {
    session + "-"@ + bundle + "-bundle-"@ + assistant + "."@ + ext
}

/// The place of a bundle artifact under the session directory.
pub open spec fn artifact_path(
    session: Seq<char>,
    bundle: Seq<char>,
    assistant: Seq<char>,
    ext: Seq<char>,
) -> Seq<char> {
    ".scribe"@ + "/files/"@ + artifact_name(session, bundle, assistant, ext)
}

/// The path holds the marker of the session's private directory.
pub open spec fn is_private(path: Seq<char>) -> bool {
    has_substring(path, ".scribe"@)
}

/// An artifact is stale when its path does not hold the identifier of the
/// session's current assistant.
pub open spec fn is_stale(path: Seq<char>, assistant: Seq<char>) -> bool {
    !has_substring(path, assistant)
}

/// The stale paths among `paths`, in their order.
pub open spec fn stale_paths(paths: Seq<Seq<char>>, assistant: Seq<char>) -> Seq<Seq<char>>
    decreases paths.len(),
{
    if paths.len() == 0 {
        Seq::empty()
    } else if is_stale(paths.last(), assistant) {
        stale_paths(paths.drop_last(), assistant).push(paths.last())
    } else {
        stale_paths(paths.drop_last(), assistant)
    }
}

/// Every stale path among `paths` is private.
pub open spec fn deletion_is_safe(paths: Seq<Seq<char>>, assistant: Seq<char>) -> bool {
    forall|i: int|
        0 <= i < paths.len() && is_stale(paths[i], assistant) ==> is_private(#[trigger] paths[i])
}

/// The texts of a list of strings.
pub open spec fn texts(strings: Seq<String>) -> Seq<Seq<char>> {
    strings.map_values(|s: String| s@)
}

/// The name of the artifact of a bundle.
pub fn bundle_file_name(session: &str, bundle: &str, assistant: &str, ext: &str) -> (name: String)
    ensures
        name@ == artifact_name(session@, bundle@, assistant@, ext@),
{
    let mut name = String::from_str(session);
    name.append("-");
    name.append(bundle);
    name.append("-bundle-");
    name.append(assistant);
    name.append(".");
    name.append(ext);
    name
}

/// The place of the artifact of a bundle under the session directory. It
/// lies in the session's private directory.
pub fn bundle_file_path(session: &str, bundle: &str, assistant: &str, ext: &str) -> (path: String)
    ensures
        path@ == artifact_path(session@, bundle@, assistant@, ext@),
        is_private(path@),
{
    let name = bundle_file_name(session, bundle, assistant, ext);
    let mut path = String::from_str(DATA_DIR);
    path.append("/files/");
    path.append(name.as_str());
    proof {
        lemma_artifact_path_is_private(session@, bundle@, assistant@, ext@);
    }
    path
}

/// Every artifact path holds the marker of the session's private directory,
/// so the deletion safeguard never trips on an artifact of the library's own
/// naming.
pub proof fn lemma_artifact_path_is_private(
    session: Seq<char>,
    bundle: Seq<char>,
    assistant: Seq<char>,
    ext: Seq<char>,
)
    ensures
        is_private(artifact_path(session, bundle, assistant, ext)),
{
    let marker = ".scribe"@;
    let rest = "/files/"@ + artifact_name(session, bundle, assistant, ext);
    assert(marker.subrange(0, marker.len() as int) =~= marker);
    assert(occurs_at(marker, marker, 0));
    lemma_substring_survives_framing(Seq::empty(), marker, rest, marker);
    assert(Seq::<char>::empty() + marker + rest =~= artifact_path(
        session,
        bundle,
        assistant,
        ext,
    ));
}

/// Whether a bundle is uploaded again: always when `recreate` is set, and
/// otherwise exactly when no artifact of its name exists yet. The content of
/// an existing artifact is not looked at.
pub fn should_reupload(artifact_exists: bool, recreate: bool) -> (again: bool)
    ensures
        again == (recreate || !artifact_exists),
{
    recreate || !artifact_exists
}

/// Picks the files to delete before an upload cycle. `candidates` are the
/// paths found in the artifact directory. Those that hold the identifier of
/// the current assistant are kept; the others are stale and are returned for
/// deletion, in their order. If one stale path does not hold the marker of
/// the session's private directory, nothing may be deleted: the result is
/// `UnsafeDeleteAttempted` with the first such path.
pub fn cleanup_stale(candidates: &Vec<String>, assistant: &str) -> (doomed: Result<
    Vec<String>,
    Error,
>)
    ensures
        doomed is Ok <==> deletion_is_safe(texts(candidates@), assistant@),
        doomed matches Ok(paths) ==> texts(paths@) == stale_paths(
            texts(candidates@),
            assistant@,
        ),
        doomed matches Err(e) ==> exists|i: int|
            {
                &&& 0 <= i < candidates@.len()
                &&& is_stale(candidates@[i]@, assistant@)
                &&& !is_private(candidates@[i]@)
                &&& forall|j: int|
                    0 <= j < i && is_stale(candidates@[j]@, assistant@) ==> is_private(
                        candidates@[j]@,
                    )
                &&& e == Error::UnsafeDeleteAttempted(candidates@[i])
            },
{
    let ghost all = texts(candidates@);
    let mut paths: Vec<String> = Vec::new();
    let mut i: usize = 0;
    assert(all.take(0) =~= Seq::<Seq<char>>::empty());
    assert(texts(paths@) =~= Seq::<Seq<char>>::empty());
    while i < candidates.len()
        invariant
            i <= candidates.len(),
            all == texts(candidates@),
            texts(paths@) == stale_paths(all.take(i as int), assistant@),
            forall|j: int|
                0 <= j < i && is_stale(all[j], assistant@) ==> is_private(#[trigger] all[j]),
        decreases candidates.len() - i,
    {
        let path = &candidates[i];
        proof {
            assert(all.take(i + 1).drop_last() =~= all.take(i as int));
            assert(all.take(i + 1).last() == path@);
            assert(all[i as int] == path@);
        }
        if !contains(path.as_str(), assistant) {
            if !contains(path.as_str(), DATA_DIR) {
                assert(is_stale(candidates@[i as int]@, assistant@) && !is_private(
                    candidates@[i as int]@,
                ));
                assert forall|j: int|
                    0 <= j < i && is_stale(candidates@[j]@, assistant@) implies is_private(
                    candidates@[j]@,
                ) by {
                    assert(all[j] == candidates@[j]@);
                }
                return Err(Error::UnsafeDeleteAttempted(path.clone()));
            }
            let ghost before = texts(paths@);
            paths.push(path.clone());
            assert(texts(paths@) =~= before.push(path@));
        }
        i += 1;
    }
    assert(all.take(i as int) =~= all);
    Ok(paths)
}

} // verus!
