//! What holds of every walk: how the counts relate, what a listing can and
//! cannot contain, and that results depend on the walk alone.

use crate::directory::{
    entry_of, file_count, is_listed, item_count, latest, listed_entries, listing, skipped_count,
    stats_of, step_modified, subdir_count, total_bytes, visited_count, EntryView, StatsView,
};
use crate::walk::{is_readable, is_root_failure, is_skipped, root_unreadable, NodeKind, StepView};
use vstd::prelude::*;

verus! {

/// The counted items are the visited nodes less those that were skipped for
/// want of metadata.
pub proof fn lemma_items_are_visited_less_skipped(walk: Seq<StepView>)
    ensures
        item_count(walk) == visited_count(walk) - skipped_count(walk),
    decreases walk.len(),
{
    if walk.len() > 0 {
        lemma_items_are_visited_less_skipped(walk.drop_last());
    }
}

/// Files and directories are counted apart, so together they never exceed
/// the items.
pub proof fn lemma_files_and_dirs_within_items(walk: Seq<StepView>)
    ensures
        file_count(walk) + subdir_count(walk) <= item_count(walk),
    decreases walk.len(),
{
    if walk.len() > 0 {
        lemma_files_and_dirs_within_items(walk.drop_last());
    }
}

/// Where every counted node is a file or a directory, the items are the
/// files and the directories together. That is so in particular where every
/// visited node is one of the two.
pub proof fn lemma_items_are_files_and_dirs(walk: Seq<StepView>)
    requires
        forall|i: int|
            0 <= i < walk.len() && is_readable(#[trigger] walk[i]) ==> walk[i]->Node_0.kind
                != NodeKind::Other,
    ensures
        item_count(walk) == file_count(walk) + subdir_count(walk),
    decreases walk.len(),
{
    if walk.len() > 0 {
        let rest = walk.drop_last();
        assert forall|i: int| 0 <= i < rest.len() && is_readable(#[trigger] rest[i]) implies rest[i]->Node_0.kind
            != NodeKind::Other by {
            assert(rest[i] == walk[i]);
        }
        lemma_items_are_files_and_dirs(rest);
        assert(walk.last() == walk[walk.len() - 1]);
    }
}

/// Every entry of a listing is the entry of some step of the walk that
/// reached a readable node below the root.
pub proof fn lemma_entries_come_from_listed_steps(walk: Seq<StepView>)
    ensures
        forall|k: int|
            0 <= k < listed_entries(walk).len() ==> exists|j: int|
                0 <= j < walk.len() && is_listed(walk[j]) && #[trigger] listed_entries(walk)[k]
                    == entry_of(walk[j]->Node_0),
    decreases walk.len(),
{
    if walk.len() > 0 {
        let rest = walk.drop_last();
        lemma_entries_come_from_listed_steps(rest);
        assert forall|k: int| 0 <= k < listed_entries(walk).len() implies exists|j: int|
            0 <= j < walk.len() && is_listed(walk[j]) && #[trigger] listed_entries(walk)[k]
                == entry_of(walk[j]->Node_0) by {
            if k < listed_entries(rest).len() {
                let j = choose|j: int|
                    0 <= j < rest.len() && is_listed(rest[j]) && listed_entries(rest)[k]
                        == entry_of(rest[j]->Node_0);
                assert(rest[j] == walk[j]);
                assert(listed_entries(walk)[k] == listed_entries(rest)[k]);
            } else {
                let j = walk.len() - 1;
                assert(is_listed(walk[j]));
                assert(listed_entries(walk)[k] == entry_of(walk[j]->Node_0));
            }
        }
    }
}

/// Every step of the walk that reached a readable node below the root has
/// its entry among the listed entries.
pub proof fn lemma_listed_steps_have_entries(walk: Seq<StepView>)
    ensures
        forall|j: int|
            0 <= j < walk.len() && is_listed(#[trigger] walk[j]) ==> exists|k: int|
                0 <= k < listed_entries(walk).len() && listed_entries(walk)[k] == entry_of(
                    walk[j]->Node_0,
                ),
    decreases walk.len(),
{
    if walk.len() > 0 {
        let rest = walk.drop_last();
        let last = walk.len() - 1;
        lemma_listed_steps_have_entries(rest);
        assert forall|j: int| 0 <= j < walk.len() && is_listed(#[trigger] walk[j]) implies exists|
            k: int,
        |
            0 <= k < listed_entries(walk).len() && listed_entries(walk)[k] == entry_of(
                walk[j]->Node_0,
            ) by {
            if j < last {
                assert(rest[j] == walk[j]);
                let k = choose|k: int|
                    0 <= k < listed_entries(rest).len() && listed_entries(rest)[k] == entry_of(
                        rest[j]->Node_0,
                    );
                assert(listed_entries(walk)[k] == listed_entries(rest)[k]);
            } else {
                let k = listed_entries(walk).len() - 1;
                assert(listed_entries(walk)[k] == entry_of(walk[j]->Node_0));
            }
        }
    }
}

/// The listed entries come in the order of the walk: what the first `n`
/// steps yield is the beginning of what the whole walk yields.
pub proof fn lemma_entries_keep_walk_order(walk: Seq<StepView>, n: int)
    requires
        0 <= n <= walk.len(),
    ensures
        listed_entries(walk.take(n)).is_prefix_of(listed_entries(walk)),
    decreases walk.len(),
{
    if n == walk.len() {
        assert(walk.take(n) =~= walk);
    } else {
        lemma_entries_keep_walk_order(walk.drop_last(), n);
        assert(walk.drop_last().take(n) =~= walk.take(n));
    }
}

/// Where no two nodes of the walk share a path, no two listed entries do.
pub proof fn lemma_entries_have_distinct_paths(walk: Seq<StepView>)
    requires
        forall|i: int, j: int|
            0 <= i < walk.len() && 0 <= j < walk.len() && i != j && (#[trigger] walk[i]) is Node
                && (#[trigger] walk[j]) is Node ==> walk[i]->Node_0.path != walk[j]->Node_0.path,
    ensures
        forall|a: int, b: int|
            0 <= a < listed_entries(walk).len() && 0 <= b < listed_entries(walk).len() && a != b
                ==> (#[trigger] listed_entries(walk)[a]).path != (#[trigger] listed_entries(
                walk,
            )[b]).path,
    decreases walk.len(),
{
    if walk.len() > 0 {
        let rest = walk.drop_last();
        let last = walk.len() - 1;
        assert forall|i: int, j: int|
            0 <= i < rest.len() && 0 <= j < rest.len() && i != j && (#[trigger] rest[i]) is Node && (
            #[trigger] rest[j]) is Node implies rest[i]->Node_0.path != rest[j]->Node_0.path by {
            assert(rest[i] == walk[i] && rest[j] == walk[j]);
        }
        lemma_entries_have_distinct_paths(rest);
        lemma_entries_come_from_listed_steps(rest);
        if is_listed(walk[last]) {
            let end = listed_entries(walk).len() - 1;
            assert forall|a: int| 0 <= a < end implies (#[trigger] listed_entries(walk)[a]).path
                != walk[last]->Node_0.path by {
                let j = choose|j: int|
                    0 <= j < rest.len() && is_listed(rest[j]) && listed_entries(rest)[a]
                        == entry_of(rest[j]->Node_0);
                assert(rest[j] == walk[j]);
                assert(walk[j] is Node && walk[last] is Node);
                assert(listed_entries(walk)[a] == listed_entries(rest)[a]);
            }
            assert forall|a: int, b: int|
                0 <= a < listed_entries(walk).len() && 0 <= b < listed_entries(walk).len() && a
                    != b implies (#[trigger] listed_entries(walk)[a]).path != (
            #[trigger] listed_entries(walk)[b]).path by {
                if a < end && b < end {
                    assert(listed_entries(walk)[a] == listed_entries(rest)[a]);
                    assert(listed_entries(walk)[b] == listed_entries(rest)[b]);
                } else if a == end {
                    assert(listed_entries(walk)[b].path != walk[last]->Node_0.path);
                } else {
                    assert(listed_entries(walk)[a].path != walk[last]->Node_0.path);
                }
            }
        }
    }
}

/// No entry of a listing sits at the root's depth: every entry has a depth of
/// at least 1.
pub proof fn lemma_listing_lies_below_root(walk: Seq<StepView>)
    ensures
        forall|k: int| 0 <= k < listing(walk).len() ==> (#[trigger] listing(walk)[k]).depth >= 1,
{
    lemma_entries_come_from_listed_steps(walk);
    assert forall|k: int| 0 <= k < listing(walk).len() implies (#[trigger] listing(walk)[k]).depth
        >= 1 by {
        let j = choose|j: int|
            0 <= j < walk.len() && is_listed(walk[j]) && listed_entries(walk)[k] == entry_of(
                walk[j]->Node_0,
            );
        assert(listing(walk)[k] == listed_entries(walk)[k]);
    }
}

/// A listing never holds the root of its walk: where no two nodes of the walk
/// share a path, no entry has the path of a node at depth 0.
pub proof fn lemma_listing_omits_root(walk: Seq<StepView>, root: int)
    requires
        0 <= root < walk.len(),
        walk[root] is Node,
        walk[root]->Node_0.depth == 0,
        forall|i: int, j: int|
            0 <= i < walk.len() && 0 <= j < walk.len() && i != j && (#[trigger] walk[i]) is Node
                && (#[trigger] walk[j]) is Node ==> walk[i]->Node_0.path != walk[j]->Node_0.path,
    ensures
        forall|k: int|
            0 <= k < listing(walk).len() ==> (#[trigger] listing(walk)[k]).path
                != walk[root]->Node_0.path,
{
    lemma_entries_come_from_listed_steps(walk);
    assert forall|k: int| 0 <= k < listing(walk).len() implies (#[trigger] listing(walk)[k]).path
        != walk[root]->Node_0.path by {
        let j = choose|j: int|
            0 <= j < walk.len() && is_listed(walk[j]) && listed_entries(walk)[k] == entry_of(
                walk[j]->Node_0,
            );
        assert(listing(walk)[k] == listed_entries(walk)[k]);
        assert(j != root);
        assert(walk[j] is Node && walk[root] is Node);
    }
}

/// The latest modification time is one that some counted node has, and no
/// counted node was modified after it. It is missing only where no counted
/// node has a modification time.
pub proof fn lemma_latest_is_greatest(walk: Seq<StepView>)
    ensures
        match latest(walk) {
            Some(best) => (exists|i: int|
                0 <= i < walk.len() && step_modified(#[trigger] walk[i]) == Some(best)) && (forall|
                i: int,
            |
                0 <= i < walk.len() && step_modified(#[trigger] walk[i]) is Some ==> !step_modified(
                    walk[i],
                ).unwrap().is_after(best)),
            None => forall|i: int| 0 <= i < walk.len() ==> step_modified(#[trigger] walk[i]) is None,
        },
    decreases walk.len(),
{
    if walk.len() > 0 {
        let rest = walk.drop_last();
        let last = walk.len() - 1;
        lemma_latest_is_greatest(rest);
        assert(forall|i: int| 0 <= i < rest.len() ==> rest[i] == walk[i]);
        match latest(walk) {
            Some(best) => {
                if step_modified(walk[last]) == Some(best) {
                    assert(0 <= last < walk.len() && step_modified(walk[last]) == Some(best));
                } else {
                    let i = choose|i: int|
                        0 <= i < rest.len() && step_modified(#[trigger] rest[i]) == Some(best);
                    assert(0 <= i < walk.len() && step_modified(walk[i]) == Some(best));
                }
                assert forall|i: int|
                    0 <= i < walk.len() && step_modified(#[trigger] walk[i]) is Some implies !step_modified(
                    walk[i],
                ).unwrap().is_after(best) by {
                    if i < last {
                        assert(rest[i] == walk[i]);
                    }
                }
            },
            None => {
                assert forall|i: int| 0 <= i < walk.len() implies step_modified(
                    #[trigger] walk[i],
                ) is None by {
                    if i < last {
                        assert(rest[i] == walk[i]);
                    }
                }
            },
        }
    }
}

/// A node whose metadata could not be read leaves no trace: without its step
/// the walk has the same listing, the same counts, the same total and the
/// same latest modification time.
pub proof fn lemma_skipped_node_leaves_no_trace(walk: Seq<StepView>, at: int)
    requires
        0 <= at < walk.len(),
        is_skipped(walk[at]),
    ensures
        listing(walk.remove(at)) == listing(walk),
        item_count(walk.remove(at)) == item_count(walk),
        file_count(walk.remove(at)) == file_count(walk),
        subdir_count(walk.remove(at)) == subdir_count(walk),
        total_bytes(walk.remove(at)) == total_bytes(walk),
        latest(walk.remove(at)) == latest(walk),
        root_unreadable(walk.remove(at)) == root_unreadable(walk),
{
    let less = walk.remove(at);
    lemma_skipped_step_is_inert(walk, at);
    if root_unreadable(walk) {
        let i = choose|i: int| 0 <= i < walk.len() && is_root_failure(#[trigger] walk[i]);
        if i < at {
            assert(less[i] == walk[i]);
        } else {
            assert(less[i - 1] == walk[i]);
        }
    }
    if root_unreadable(less) {
        let i = choose|i: int| 0 <= i < less.len() && is_root_failure(#[trigger] less[i]);
        if i < at {
            assert(less[i] == walk[i]);
        } else {
            assert(less[i] == walk[i + 1]);
        }
    }
}

proof fn lemma_skipped_step_is_inert(walk: Seq<StepView>, at: int)
    requires
        0 <= at < walk.len(),
        is_skipped(walk[at]),
    ensures
        listed_entries(walk.remove(at)) == listed_entries(walk),
        item_count(walk.remove(at)) == item_count(walk),
        file_count(walk.remove(at)) == file_count(walk),
        subdir_count(walk.remove(at)) == subdir_count(walk),
        total_bytes(walk.remove(at)) == total_bytes(walk),
        latest(walk.remove(at)) == latest(walk),
    decreases walk.len(),
{
    if at == walk.len() - 1 {
        assert(walk.remove(at) =~= walk.drop_last());
        assert(walk.last() == walk[at]);
    } else {
        lemma_skipped_step_is_inert(walk.drop_last(), at);
        assert(walk.drop_last()[at] == walk[at]);
        assert(walk.remove(at).drop_last() =~= walk.drop_last().remove(at));
        assert(walk.remove(at).last() == walk.last());
    }
}

/// Scanning is repeatable: two listings of one walk are the same, entry for
/// entry and in the same order.
pub proof fn lemma_listing_repeatable(
    walk: Seq<StepView>,
    first: Seq<EntryView>,
    second: Seq<EntryView>,
)
    requires
        first == listing(walk),
        second == listing(walk),
    ensures
        first == second,
{
}

/// Summarising is repeatable: two summaries of one walk under one root name
/// are the same.
pub proof fn lemma_stats_repeatable(
    root_name: Option<Seq<char>>,
    walk: Seq<StepView>,
    first: StatsView,
    second: StatsView,
)
    requires
        first == stats_of(root_name, walk),
        second == stats_of(root_name, walk),
    ensures
        first == second,
{
}

} // verus!
