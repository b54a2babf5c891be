//! The listing and the aggregate summary of a walked directory tree.

use crate::clock::{later_of, modified_text, readable_modified, unknown_text, Timestamp};
use crate::utils::{human_readable_size, size_text};
use crate::walk::{
    is_readable, is_skipped, is_visit, lemma_tally_bound, root_unreadable, tally, walk_failed_at_root,
    walk_view, NodeKind, NodeMeta, NodeView, StepView, WalkNode, WalkStep,
};
use vstd::prelude::*;
use vstd::string::*;

verus! {

/// One node of a listing, as it is shown.
#[derive(Debug, Clone)]
pub struct FileEntry {
    /// The node's path.
    pub path: String,
    /// The last component of the path.
    pub name: String,
    /// The node's own size, rendered for display.
    pub size: String,
    /// The time of the last modification, rendered for display, or `Unknown`.
    pub modified: String,
    /// The distance from the root of the walk; its children have depth 1.
    pub depth: u32,
    /// Whether the node is a directory.
    pub is_folder: bool,
}

/// The summary of a whole tree, the root included.
#[derive(Debug)]
pub struct FolderStats {
    /// The root's name, or `Unknown` where it has none.
    pub file_name: String,
    /// The sum of the sizes of all counted nodes, rendered for display.
    pub total_size: String,
    /// The space taken on disk, rendered for display; the same figure as
    /// `total_size`, for want of a count of allocated blocks.
    pub allocated_size: String,
    /// The number of counted nodes.
    pub item_count: usize,
    /// The number of counted nodes that are files.
    pub file_count: usize,
    /// The number of counted nodes that are directories.
    pub subdir_count: usize,
    /// The latest modification time among the counted nodes, rendered for
    /// display, or `Unknown`.
    pub last_modified: String,
}

/// The mathematical content of a `FileEntry`.
pub struct EntryView {
    pub path: Seq<char>,
    pub name: Seq<char>,
    pub size: Seq<char>,
    pub modified: Seq<char>,
    pub depth: u32,
    pub is_folder: bool,
}

/// The mathematical content of a `FolderStats`.
pub struct StatsView {
    pub file_name: Seq<char>,
    pub total_size: Seq<char>,
    pub allocated_size: Seq<char>,
    pub item_count: nat,
    pub file_count: nat,
    pub subdir_count: nat,
    pub last_modified: Seq<char>,
}

impl View for FileEntry {
    type V = EntryView;

    open spec fn view(&self) -> EntryView {
        EntryView {
            path: self.path@,
            name: self.name@,
            size: self.size@,
            modified: self.modified@,
            depth: self.depth,
            is_folder: self.is_folder,
        }
    }
}

impl View for FolderStats {
    type V = StatsView;

    open spec fn view(&self) -> StatsView {
        StatsView {
            file_name: self.file_name@,
            total_size: self.total_size@,
            allocated_size: self.allocated_size@,
            item_count: self.item_count as nat,
            file_count: self.file_count as nat,
            subdir_count: self.subdir_count as nat,
            last_modified: self.last_modified@,
        }
    }
}

/// The content of a listing, entry by entry.
pub open spec fn entries_view(entries: Seq<FileEntry>) -> Seq<EntryView> {
    entries.map_values(|entry: FileEntry| entry@)
}

/// Whether the step yields an entry of the listing: a node below the root
/// whose metadata could be read.
pub open spec fn is_listed(step: StepView) -> bool {
    step matches StepView::Node(node) && node.meta is Some && node.depth >= 1
}

/// The entry shown for a node whose metadata could be read.
pub open spec fn entry_of(node: NodeView) -> EntryView
    recommends
        node.meta is Some,
{
    EntryView {
        path: node.path,
        name: node.name,
        size: size_text(node.meta.unwrap().len as nat),
        modified: modified_text(node.meta.unwrap().modified),
        depth: node.depth,
        is_folder: node.kind == NodeKind::Directory,
    }
}

/// The entries of the listed steps of `walk`, in the order of the walk.
pub open spec fn listed_entries(walk: Seq<StepView>) -> Seq<EntryView>
    decreases walk.len(),
{
    if walk.len() == 0 {
        Seq::empty()
    } else if is_listed(walk.last()) {
        listed_entries(walk.drop_last()).push(entry_of(walk.last()->Node_0))
    } else {
        listed_entries(walk.drop_last())
    }
}

/// The listing of a walk: nothing where the root could not be opened, and
/// otherwise one entry for each readable node below the root, in the order of
/// the walk.
pub open spec fn listing(walk: Seq<StepView>) -> Seq<EntryView> {
    if root_unreadable(walk) {
        Seq::empty()
    } else {
        listed_entries(walk)
    }
}

fn entry_for(node: &WalkNode, meta: &NodeMeta) -> (entry: FileEntry)
    requires
        node.meta == Some(*meta),
    ensures
        entry@ == entry_of(node@),
{
    FileEntry {
        path: node.path.clone(),
        name: node.name.clone(),
        size: human_readable_size(meta.len),
        modified: readable_modified(meta.modified),
        depth: node.depth,
        is_folder: match node.kind {
            NodeKind::Directory => true,
            _ => false,
        },
    }
}

/// Lists a walked tree: every node below the root whose metadata could be
/// read, in the order of the walk, with its size and modification time
/// rendered for display. Nodes without metadata and failed steps leave no
/// trace; the root itself is never listed. Where the root could not be opened
/// the listing is empty.
pub fn scan_directory(walk: &Vec<WalkStep>) -> (entries: Vec<FileEntry>)
    ensures
        entries_view(entries@) == listing(walk_view(walk@)),
{
    let mut files: Vec<FileEntry> = Vec::new();
    let ghost steps = walk_view(walk@);
    if walk_failed_at_root(walk) {
        assert(entries_view(files@) =~= Seq::<EntryView>::empty());
        return files;
    }
    let mut i: usize = 0;
    assert(steps.take(0) =~= Seq::<StepView>::empty());
    assert(entries_view(files@) =~= listed_entries(steps.take(0)));
    while i < walk.len()
        invariant
            i <= walk.len(),
            steps == walk_view(walk@),
            entries_view(files@) == listed_entries(steps.take(i as int)),
        decreases walk.len() - i,
    {
        let ghost before = files@;
        proof {
            assert(steps.take(i + 1).drop_last() =~= steps.take(i as int));
            assert(steps.take(i + 1).last() == steps[i as int]);
        }
        match &walk[i] {
            WalkStep::Node(node) => {
                match &node.meta {
                    Some(meta) => {
                        if node.depth >= 1 {
                            let entry = entry_for(node, meta);
                            files.push(entry);
                            assert(entries_view(files@) =~= entries_view(before).push(entry@));
                        }
                    },
                    None => {},
                }
            },
            WalkStep::Failure { .. } => {},
        }
        i = i + 1;
    }
    assert(steps.take(i as int) =~= steps);
    files
}

/// Whether the step reached a readable node that is a file.
pub open spec fn is_counted_file(step: StepView) -> bool {
    step matches StepView::Node(node) && node.meta is Some && node.kind == NodeKind::File
}

/// Whether the step reached a readable node that is a directory.
pub open spec fn is_counted_dir(step: StepView) -> bool {
    step matches StepView::Node(node) && node.meta is Some && node.kind == NodeKind::Directory
}

/// The bytes that a step adds to the total: the size of a readable node, and
/// nothing otherwise.
pub open spec fn step_bytes(step: StepView) -> nat {
    match step {
        StepView::Node(node) => match node.meta {
            Some(meta) => meta.len as nat,
            None => 0,
        },
        StepView::Failure { .. } => 0,
    }
}

/// The modification time that a step contributes: that of a readable node
/// which has one.
pub open spec fn step_modified(step: StepView) -> Option<Timestamp> {
    match step {
        StepView::Node(node) => match node.meta {
            Some(meta) => meta.modified,
            None => None,
        },
        StepView::Failure { .. } => None,
    }
}

/// The number of nodes that the walk reached.
pub open spec fn visited_count(walk: Seq<StepView>) -> nat {
    tally(walk, |step: StepView| is_visit(step))
}

/// The number of nodes that the walk reached but could not read.
pub open spec fn skipped_count(walk: Seq<StepView>) -> nat {
    tally(walk, |step: StepView| is_skipped(step))
}

/// The number of readable nodes of the walk.
pub open spec fn item_count(walk: Seq<StepView>) -> nat {
    tally(walk, |step: StepView| is_readable(step))
}

/// The number of readable nodes of the walk that are files.
pub open spec fn file_count(walk: Seq<StepView>) -> nat {
    tally(walk, |step: StepView| is_counted_file(step))
}

/// The number of readable nodes of the walk that are directories.
pub open spec fn subdir_count(walk: Seq<StepView>) -> nat {
    tally(walk, |step: StepView| is_counted_dir(step))
}

/// The sum of the sizes of all readable nodes of the walk.
pub open spec fn total_bytes(walk: Seq<StepView>) -> nat
    decreases walk.len(),
{
    if walk.len() == 0 {
        0
    } else {
        total_bytes(walk.drop_last()) + step_bytes(walk.last())
    }
}

/// The latest modification time among the readable nodes of the walk, or
/// `None` where no node has one.
pub open spec fn latest(walk: Seq<StepView>) -> Option<Timestamp>
    decreases walk.len(),
{
    if walk.len() == 0 {
        None
    } else {
        match (latest(walk.drop_last()), step_modified(walk.last())) {
            (Some(best), Some(time)) => Some(later_of(best, time)),
            (None, Some(time)) => Some(time),
            (earlier, None) => earlier,
        }
    }
}

/// The name shown for a root: its own, or `Unknown` where it has none.
pub open spec fn root_name_text(root_name: Option<Seq<char>>) -> Seq<char> {
    match root_name {
        Some(name) => name,
        None => unknown_text(),
    }
}

/// The summary of a walk whose root has the name `root_name`.
pub open spec fn stats_of(root_name: Option<Seq<char>>, walk: Seq<StepView>) -> StatsView {
    StatsView {
        file_name: root_name_text(root_name),
        total_size: size_text(total_bytes(walk)),
        allocated_size: size_text(total_bytes(walk)),
        item_count: item_count(walk),
        file_count: file_count(walk),
        subdir_count: subdir_count(walk),
        last_modified: modified_text(latest(walk)),
    }
}

/// The bytes of the first steps of a walk never exceed those of the whole.
pub proof fn lemma_total_bytes_prefix(walk: Seq<StepView>, n: int)
    requires
        0 <= n <= walk.len(),
    ensures
        total_bytes(walk.take(n)) <= total_bytes(walk),
    decreases walk.len(),
{
    if n == walk.len() {
        assert(walk.take(n) =~= walk);
    } else {
        lemma_total_bytes_prefix(walk.drop_last(), n);
        assert(walk.drop_last().take(n) =~= walk.take(n));
    }
}

/// Sums the sizes of all readable nodes of the walk. Returns `None` where the
/// sum does not fit in 64 bits.
pub fn checked_total_bytes(walk: &Vec<WalkStep>) -> (total: Option<u64>)
    ensures
        match total {
            Some(sum) => sum == total_bytes(walk_view(walk@)),
            None => total_bytes(walk_view(walk@)) > u64::MAX,
        },
{
    let ghost steps = walk_view(walk@);
    let mut sum: u64 = 0;
    let mut i: usize = 0;
    assert(steps.take(0) =~= Seq::<StepView>::empty());
    while i < walk.len()
        invariant
            i <= walk.len(),
            steps == walk_view(walk@),
            sum == total_bytes(steps.take(i as int)),
        decreases walk.len() - i,
    {
        proof {
            assert(steps.take(i + 1).drop_last() =~= steps.take(i as int));
            assert(steps.take(i + 1).last() == steps[i as int]);
            lemma_total_bytes_prefix(steps, i + 1);
        }
        match &walk[i] {
            WalkStep::Node(node) => {
                match node.meta {
                    Some(meta) => {
                        if meta.len > u64::MAX - sum {
                            return None;
                        }
                        sum = sum + meta.len;
                    },
                    None => {},
                }
            },
            WalkStep::Failure { .. } => {},
        }
        i = i + 1;
    }
    assert(steps.take(i as int) =~= steps);
    Some(sum)
}

/// Summarises a walked tree whose root has the name `root_name`.
///
/// Returns `None` exactly where the root could not be opened. Otherwise every
/// node whose metadata could be read is counted, the root included: its size
/// goes into the total, it counts as an item, and as a file or a directory
/// where it is one. Nodes without metadata and failed steps count for
/// nothing. The latest modification time is the greatest among the counted
/// nodes.
///
/// The sizes must add up to less than 2^64; `checked_total_bytes` tells.
pub fn compute_folder_stats(root_name: Option<&str>, walk: &Vec<WalkStep>) -> (stats: Option<
    FolderStats,
>)
    requires
        total_bytes(walk_view(walk@)) <= u64::MAX,
    ensures
        match stats {
            Some(found) => !root_unreadable(walk_view(walk@)) && found@ == stats_of(
                match root_name {
                    Some(name) => Some(name@),
                    None => None,
                },
                walk_view(walk@),
            ),
            None => root_unreadable(walk_view(walk@)),
        },
{
    if walk_failed_at_root(walk) {
        return None;
    }
    let ghost steps = walk_view(walk@);
    let total_size: u64 = match checked_total_bytes(walk) {
        Some(sum) => sum,
        None => 0,
    };
    let mut items: usize = 0;
    let mut files: usize = 0;
    let mut subdirs: usize = 0;
    let mut last_modified: Option<Timestamp> = None;
    let mut i: usize = 0;
    assert(steps.take(0) =~= Seq::<StepView>::empty());
    while i < walk.len()
        invariant
            i <= walk.len(),
            steps == walk_view(walk@),
            items == item_count(steps.take(i as int)),
            files == file_count(steps.take(i as int)),
            subdirs == subdir_count(steps.take(i as int)),
            last_modified == latest(steps.take(i as int)),
        decreases walk.len() - i,
    {
        proof {
            assert(steps.take(i + 1).drop_last() =~= steps.take(i as int));
            assert(steps.take(i + 1).last() == steps[i as int]);
            lemma_tally_bound(steps.take(i as int), |step: StepView| is_readable(step));
            lemma_tally_bound(steps.take(i as int), |step: StepView| is_counted_file(step));
            lemma_tally_bound(steps.take(i as int), |step: StepView| is_counted_dir(step));
        }
        match &walk[i] {
            WalkStep::Node(node) => {
                match node.meta {
                    Some(meta) => {
                        items = items + 1;
                        match node.kind {
                            NodeKind::File => {
                                files = files + 1;
                            },
                            NodeKind::Directory => {
                                subdirs = subdirs + 1;
                            },
                            NodeKind::Other => {},
                        }
                        match meta.modified {
                            Some(time) => {
                                let newer = match last_modified {
                                    Some(best) => time.after(&best),
                                    None => true,
                                };
                                if newer {
                                    last_modified = Some(time);
                                }
                            },
                            None => {},
                        }
                    },
                    None => {},
                }
            },
            WalkStep::Failure { .. } => {},
        }
        i = i + 1;
    }
    assert(steps.take(i as int) =~= steps);
    let file_name = match root_name {
        Some(name) => name.to_owned(),
        None => {
            proof {
                reveal_strlit("Unknown");
            }
            let unknown = "Unknown".to_owned();
            assert(unknown@ =~= unknown_text());
            unknown
        },
    };
    Some(
        FolderStats {
            file_name,
            total_size: human_readable_size(total_size),
            allocated_size: human_readable_size(total_size),
            item_count: items,
            file_count: files,
            subdir_count: subdirs,
            last_modified: readable_modified(last_modified),
        },
    )
}

} // verus!
