//! Keeping a listing that is held in memory in step with the file system.
//!
//! The engine never rescans on its own. Whoever holds a listing and deletes a
//! file tells the listing so, with the outcome of the deletion.

use crate::directory::{entries_view, EntryView, FileEntry};
use vstd::prelude::*;
use vstd::string::*;

verus! {

/// The entries of a listing whose path is not `path`, in their order.
pub open spec fn without_path(entries: Seq<EntryView>, path: Seq<char>) -> Seq<EntryView>
    decreases entries.len(),
{
    if entries.len() == 0 {
        Seq::empty()
    } else if entries.last().path == path {
        without_path(entries.drop_last(), path)
    } else {
        without_path(entries.drop_last(), path).push(entries.last())
    }
}

/// What is reported of a deletion that failed for the reason `reason`.
pub open spec fn delete_failure_text(reason: Seq<char>) -> Seq<char> {
    "Failed to delete file: "@ + reason
}

/// Leaving out a path is done entry by entry: what holds of two listings in a
/// row holds of each.
pub proof fn lemma_without_path_splits(a: Seq<EntryView>, b: Seq<EntryView>, path: Seq<char>)
    ensures
        without_path(a + b, path) == without_path(a, path) + without_path(b, path),
    decreases b.len(),
{
    if b.len() == 0 {
        assert(a + b =~= a);
        assert(without_path(a, path) + without_path(b, path) =~= without_path(a, path));
    } else {
        lemma_without_path_splits(a, b.drop_last(), path);
        assert((a + b).drop_last() =~= a + b.drop_last());
        assert((a + b).last() == b.last());
        if b.last().path != path {
            assert(without_path(a, path) + without_path(b.drop_last(), path).push(b.last())
                =~= (without_path(a, path) + without_path(b.drop_last(), path)).push(b.last()));
        }
    }
}

/// A listing that does not hold a path is left as it is.
pub proof fn lemma_without_absent_path(entries: Seq<EntryView>, path: Seq<char>)
    requires
        forall|i: int| 0 <= i < entries.len() ==> (#[trigger] entries[i]).path != path,
    ensures
        without_path(entries, path) == entries,
    decreases entries.len(),
{
    if entries.len() > 0 {
        let rest = entries.drop_last();
        assert forall|i: int| 0 <= i < rest.len() implies (#[trigger] rest[i]).path != path by {
            assert(rest[i] == entries[i]);
        }
        lemma_without_absent_path(rest, path);
        assert(entries.last() == entries[entries.len() - 1]);
        assert(rest.push(entries.last()) =~= entries);
    }
}

/// Deleting a listed file removes exactly its entry: where no two entries
/// share a path, leaving out the path of the entry at `at` gives the listing
/// without that one entry, all others untouched and in their order.
pub proof fn lemma_without_path_removes_one(entries: Seq<EntryView>, at: int)
    requires
        0 <= at < entries.len(),
        forall|i: int, j: int|
            0 <= i < entries.len() && 0 <= j < entries.len() && i != j ==> (
            #[trigger] entries[i]).path != (#[trigger] entries[j]).path,
    ensures
        without_path(entries, entries[at].path) == entries.remove(at),
{
    let path = entries[at].path;
    let before = entries.take(at);
    let one = seq![entries[at]];
    let after = entries.skip(at + 1);
    assert(entries =~= before + one + after);
    lemma_without_path_splits(before + one, after, path);
    lemma_without_path_splits(before, one, path);
    assert forall|i: int| 0 <= i < before.len() implies (#[trigger] before[i]).path != path by {
        assert(before[i] == entries[i]);
    }
    assert forall|i: int| 0 <= i < after.len() implies (#[trigger] after[i]).path != path by {
        assert(after[i] == entries[i + at + 1]);
    }
    lemma_without_absent_path(before, path);
    lemma_without_absent_path(after, path);
    assert(without_path(one, path) =~= Seq::<EntryView>::empty()) by {
        assert(one.drop_last() =~= Seq::<EntryView>::empty());
        assert(one.last() == entries[at]);
        assert(without_path(one.drop_last(), path) =~= Seq::<EntryView>::empty());
    }
    assert(before + Seq::<EntryView>::empty() + after =~= entries.remove(at));
}

/// Removes from the listing every entry whose path is `path`. The other
/// entries stay as they are, in their order.
pub fn remove_entry(listing: &mut Vec<FileEntry>, path: &str)
    ensures
        entries_view(final(listing)@) == without_path(entries_view(old(listing)@), path@),
{
    let target = path.to_owned();
    let ghost before = entries_view(listing@);
    let ghost seen: int = 0;
    let mut i: usize = 0;
    assert(before.take(0) =~= Seq::<EntryView>::empty());
    assert(entries_view(listing@).take(0) =~= Seq::<EntryView>::empty());
    assert(before.skip(0) =~= before);
    while i < listing.len()
        invariant
            target@ == path@,
            0 <= i <= listing.len(),
            i <= seen <= before.len(),
            before.len() - seen == listing.len() - i,
            entries_view(listing@).take(i as int) == without_path(before.take(seen), path@),
            entries_view(listing@).skip(i as int) == before.skip(seen),
        decreases listing.len() - i,
    {
        let ghost now = entries_view(listing@);
        proof {
            assert(now[i as int] == now.skip(i as int)[0]);
            assert(before[seen] == before.skip(seen)[0]);
            assert(before.take(seen + 1).drop_last() =~= before.take(seen));
            assert(before.take(seen + 1).last() == before[seen]);
        }
        if listing[i].path == target {
            listing.remove(i);
            proof {
                assert(entries_view(listing@) =~= now.remove(i as int));
                assert(entries_view(listing@).take(i as int) =~= now.take(i as int));
                assert(entries_view(listing@).skip(i as int) =~= now.skip(i as int).skip(1));
                assert(before.skip(seen).skip(1) =~= before.skip(seen + 1));
                seen = seen + 1;
            }
        } else {
            proof {
                assert(now.take(i + 1) =~= now.take(i as int).push(now[i as int]));
                assert(now.skip(i + 1) =~= now.skip(i as int).skip(1));
                assert(before.skip(seen).skip(1) =~= before.skip(seen + 1));
                seen = seen + 1;
            }
            i = i + 1;
        }
    }
    proof {
        assert(entries_view(listing@).take(i as int) =~= entries_view(listing@));
        assert(before.take(seen) =~= before);
    }
}

/// Brings the listing in step with a deletion that was tried on `path`.
///
/// After a deletion that succeeded the entries with that path are gone and
/// nothing is reported. After one that failed the listing is as it was, and
/// the report says that the deletion failed and why.
pub fn settle_delete(listing: &mut Vec<FileEntry>, path: &str, outcome: Result<(), String>) -> (report:
    Option<String>)
    ensures
        match outcome {
            Ok(_) => report is None && entries_view(final(listing)@) == without_path(
                entries_view(old(listing)@),
                path@,
            ),
            Err(reason) => *final(listing) == *old(listing) && report is Some
                && report.unwrap()@ == delete_failure_text(reason@),
        },
{
    match outcome {
        Ok(_) => {
            remove_entry(listing, path);
            None
        },
        Err(reason) => {
            let mut message = "Failed to delete file: ".to_owned();
            message.append(reason.as_str());
            Some(message)
        },
    }
}

} // verus!
