//! What one walk of a directory tree observed.
//!
//! A walk starts at a root and visits the root and everything below it, depth
//! first. Each step either reaches a node or fails. The caller performs the
//! walk and records it as a sequence of `WalkStep`s, in the order in which
//! the steps happened; the rest of the crate works on that record.

use crate::clock::Timestamp;
use vstd::prelude::*;

verus! {

/// How the walk classified a node.
#[derive(Clone, Copy, Debug, PartialEq, Eq, Structural)]
pub enum NodeKind {
    /// A regular file.
    File,
    /// A directory.
    Directory,
    /// Anything else: a symbolic link, a device, a socket.
    Other,
}

/// The metadata of a node that could be read.
#[derive(Clone, Copy, Debug)]
pub struct NodeMeta {
    /// The size that the file system reports for the node itself, in bytes.
    pub len: u64,
    /// When the node was last modified, where the platform tells.
    pub modified: Option<Timestamp>,
}

/// A node that the walk reached.
#[derive(Clone, Debug)]
pub struct WalkNode {
    /// The node's path.
    pub path: String,
    /// The last component of the path.
    pub name: String,
    /// The distance from the root: 0 for the root itself, 1 for its children.
    pub depth: u32,
    /// The node's kind.
    pub kind: NodeKind,
    /// The node's metadata, or `None` where reading it failed.
    pub meta: Option<NodeMeta>,
}

/// One step of a walk.
#[derive(Clone, Debug)]
pub enum WalkStep {
    /// The walk reached a node.
    Node(WalkNode),
    /// The walk could not open or read something. `depth` is 0 where that was
    /// the root itself, and otherwise the depth of the directory or entry
    /// that failed.
    Failure { depth: u32 },
}

/// The mathematical content of a `WalkNode`.
pub struct NodeView {
    pub path: Seq<char>,
    pub name: Seq<char>,
    pub depth: u32,
    pub kind: NodeKind,
    pub meta: Option<NodeMeta>,
}

/// The mathematical content of a `WalkStep`.
pub enum StepView {
    Node(NodeView),
    Failure { depth: u32 },
}

impl View for WalkNode {
    type V = NodeView;

    open spec fn view(&self) -> NodeView {
        NodeView {
            path: self.path@,
            name: self.name@,
            depth: self.depth,
            kind: self.kind,
            meta: self.meta,
        }
    }
}

impl View for WalkStep {
    type V = StepView;

    open spec fn view(&self) -> StepView {
        match *self {
            WalkStep::Node(node) => StepView::Node(node@),
            WalkStep::Failure { depth } => StepView::Failure { depth },
        }
    }
}

/// The content of a recorded walk, step by step.
pub open spec fn walk_view(walk: Seq<WalkStep>) -> Seq<StepView> {
    walk.map_values(|step: WalkStep| step@)
}

/// Whether the step reached a node.
pub open spec fn is_visit(step: StepView) -> bool {
    step is Node
}

/// Whether the step reached a node whose metadata could be read. Only such
/// nodes are listed and counted.
pub open spec fn is_readable(step: StepView) -> bool {
    step matches StepView::Node(node) && node.meta is Some
}

/// Whether the step reached a node whose metadata could not be read.
pub open spec fn is_skipped(step: StepView) -> bool {
    step matches StepView::Node(node) && node.meta is None
}

/// Whether the step is a failure at the root.
pub open spec fn is_root_failure(step: StepView) -> bool {
    step matches StepView::Failure { depth } && depth == 0
}

/// Whether the walk could not open its root: some step failed at depth 0.
pub open spec fn root_unreadable(walk: Seq<StepView>) -> bool {
    exists|i: int| 0 <= i < walk.len() && is_root_failure(#[trigger] walk[i])
}

/// The number of steps of `walk` that satisfy `pred`.
pub open spec fn tally(walk: Seq<StepView>, pred: spec_fn(StepView) -> bool) -> nat
    decreases walk.len(),
{
    if walk.len() == 0 {
        0
    } else {
        tally(walk.drop_last(), pred) + if pred(walk.last()) {
            1nat
        } else {
            0nat
        }
    }
}

/// A tally never exceeds the number of steps.
pub proof fn lemma_tally_bound(walk: Seq<StepView>, pred: spec_fn(StepView) -> bool)
    ensures
        tally(walk, pred) <= walk.len(),
    decreases walk.len(),
{
    if walk.len() > 0 {
        lemma_tally_bound(walk.drop_last(), pred);
    }
}

/// Whether the walk could not open its root.
pub fn walk_failed_at_root(walk: &Vec<WalkStep>) -> (failed: bool)
    ensures
        failed == root_unreadable(walk_view(walk@)),
{
    let ghost steps = walk_view(walk@);
    let mut i: usize = 0;
    while i < walk.len()
        invariant
            i <= walk.len(),
            steps == walk_view(walk@),
            forall|j: int| 0 <= j < i ==> !is_root_failure(#[trigger] steps[j]),
        decreases walk.len() - i,
    {
        match &walk[i] {
            WalkStep::Failure { depth } => {
                if *depth == 0 {
                    assert(is_root_failure(steps[i as int]));
                    return true;
                }
            },
            WalkStep::Node(_) => {},
        }
        i = i + 1;
    }
    false
}

} // verus!
