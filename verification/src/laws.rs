//! What holds of a session across several of its steps.

use crate::gate::deletion_is_safe;
use crate::gate::is_private;
use crate::gate::is_stale;
use crate::gate::stale_paths;
use crate::scribe::plans_assistant;
use crate::scribe::plans_conversation;
use crate::scribe::AssistantPlan;
use crate::scribe::Conv;
use crate::scribe::ConvNext;
use crate::scribe::ConvPlan;
use vstd::prelude::*;

verus! {

/// Opening a session twice without recreating, while the remote store has an
/// assistant for it, gives the same assistant both times: each plan reuses
/// the one that was found, whatever the store would have created instead.
pub proof fn lemma_assistant_is_kept(
    found: String,
    first: AssistantPlan,
    second: AssistantPlan,
    fresh_first: Seq<char>,
    fresh_second: Seq<char>,
)
    requires
        plans_assistant(Some(found), false, first),
        plans_assistant(Some(found), false, second),
    ensures
        first == AssistantPlan::Reuse(found),
        second == first,
        first.identity(fresh_first) == found@,
        second.identity(fresh_second) == found@,
{
}

/// With recreation asked for, the assistant is always created anew.
pub proof fn lemma_assistant_is_recreated(found: Option<String>, plan: AssistantPlan)
    requires
        plans_assistant(found, true, plan),
    ensures
        plan == AssistantPlan::Create,
{
}

/// Loading the conversation again without recreating keeps its thread: once
/// a conversation is on record, the plan is to validate that very
/// conversation, and nothing is deleted.
pub proof fn lemma_conversation_is_kept(on_record: Conv, file_exists: bool, plan: ConvPlan)
    requires
        plans_conversation(false, file_exists, Some(on_record), plan),
    ensures
        plan == (ConvPlan { delete_local: false, next: ConvNext::Validate(on_record) }),
{
}

/// With recreation asked for, a record that exists is deleted and a thread
/// is created, whatever was on record.
pub proof fn lemma_conversation_is_recreated(
    file_exists: bool,
    stored: Option<Conv>,
    plan: ConvPlan,
)
    requires
        plans_conversation(true, file_exists, stored, plan),
    ensures
        plan == (ConvPlan { delete_local: file_exists, next: ConvNext::Create }),
{
}

/// Whatever is picked for deletion is stale and was among the candidates.
pub proof fn lemma_stale_paths_are_stale_candidates(
    paths: Seq<Seq<char>>,
    assistant: Seq<char>,
    k: int,
)
    requires
        0 <= k < stale_paths(paths, assistant).len(),
    ensures
        is_stale(stale_paths(paths, assistant)[k], assistant),
        paths.contains(stale_paths(paths, assistant)[k]),
    decreases paths.len(),
{
    let rest = stale_paths(paths.drop_last(), assistant);
    if is_stale(paths.last(), assistant) && k == rest.len() {
        assert(paths[paths.len() - 1] == paths.last());
    } else {
        lemma_stale_paths_are_stale_candidates(paths.drop_last(), assistant, k);
        let picked = rest[k];
        let i = choose|i: int| 0 <= i < paths.drop_last().len() && paths.drop_last()[i] == picked;
        assert(paths[i] == picked);
    }
}

/// Where deletion is safe, every path picked for deletion holds the marker
/// of the session's private directory: no path without it is ever deleted.
pub proof fn lemma_only_private_paths_are_deleted(
    paths: Seq<Seq<char>>,
    assistant: Seq<char>,
    k: int,
)
    requires
        deletion_is_safe(paths, assistant),
        0 <= k < stale_paths(paths, assistant).len(),
    ensures
        is_private(stale_paths(paths, assistant)[k]),
{
    lemma_stale_paths_are_stale_candidates(paths, assistant, k);
    let picked = stale_paths(paths, assistant)[k];
    let i = choose|i: int| 0 <= i < paths.len() && paths[i] == picked;
    assert(is_private(paths[i]));
}

} // verus!
