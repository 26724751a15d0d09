//! Taking in a plan: checking it, numbering its tasks and replacing the
//! task graph by it.

use super::model::{has_node, is_first_with_id, parents_present, valid, NodeView, WorkflowView};
use super::{node_views, TaskNode, Workflow, WorkflowError};
use crate::api::contracts::{
    doc_views, entry_views, EntryView, PlannerTaskDocContract, PlannerTaskEntryContract,
};
use crate::text::same_text;
use vstd::prelude::*;

verus! {

/// `i` is the first position in `entries` whose task has the id `key`.
pub open spec fn is_first_with_key(entries: Seq<EntryView>, key: Seq<char>, i: int) -> bool {
    &&& 0 <= i < entries.len()
    &&& entries[i].id == key
    &&& forall|j: int| 0 <= j < i ==> (#[trigger] entries[j]).id != key
}

/// Whether some task of `entries` has the id `key`.
pub open spec fn has_key(entries: Seq<EntryView>, key: Seq<char>) -> bool {
    exists|i: int| is_first_with_key(entries, key, i)
}

/// The first position in `entries` whose task has the id `key`.
pub open spec fn key_index(entries: Seq<EntryView>, key: Seq<char>) -> int {
    choose|i: int| is_first_with_key(entries, key, i)
}

/// No two tasks of `entries` have the same id.
pub open spec fn keys_distinct(entries: Seq<EntryView>) -> bool {
    forall|i: int, j: int|
        0 <= i < j < entries.len() ==> (#[trigger] entries[i]).id != (#[trigger] entries[j]).id
}

/// Where following the parents of a task ends.
pub enum Chain {
    /// At the top-level task at this position.
    Root(int),
    /// At a parent id that no task has.
    Missing,
    /// Nowhere: the steps allowed were used up.
    Cyclic,
}

/// Where following the parents of the task at `i` ends, taking at most
/// `fuel` steps.
pub open spec fn chain_end(entries: Seq<EntryView>, i: int, fuel: nat) -> Chain
    decreases fuel,
{
    match entries[i].parent_id {
        None => Chain::Root(i),
        Some(parent) => if !has_key(entries, parent) {
            Chain::Missing
        } else if fuel == 0 {
            Chain::Cyclic
        } else {
            chain_end(entries, key_index(entries, parent), (fuel - 1) as nat)
        },
    }
}

/// Where following the parents of the task at `i` ends. A chain without a
/// cycle ends within as many steps as there are tasks.
pub open spec fn root_of(entries: Seq<EntryView>, i: int) -> Chain {
    chain_end(entries, i, entries.len())
}

/// `i` is the first position whose chain of parents does not end at a
/// top-level task.
pub open spec fn is_first_broken(entries: Seq<EntryView>, i: int) -> bool {
    &&& 0 <= i < entries.len()
    &&& !(root_of(entries, i) is Root)
    &&& forall|j: int| 0 <= j < i ==> #[trigger] root_of(entries, j) is Root
}

/// What is wrong with a plan, if anything: an id that occurs twice, or
/// else, at the first task whose chain of parents does not end at a
/// top-level task, the missing parent or the cycle.
pub open spec fn plan_error(entries: Seq<EntryView>) -> Option<WorkflowError> {
    if !keys_distinct(entries) {
        Some(WorkflowError::DuplicateTaskId)
    } else if exists|i: int| is_first_broken(entries, i) {
        let i = choose|i: int| is_first_broken(entries, i);
        if root_of(entries, i) is Missing {
            Some(WorkflowError::UnknownParent)
        } else {
            Some(WorkflowError::CyclicParent)
        }
    } else {
        None
    }
}

/// `i` is the first position in `nodes` whose task has the plan id `key`.
pub open spec fn is_first_node_with_key(nodes: Seq<NodeView>, key: Seq<char>, i: int) -> bool {
    &&& 0 <= i < nodes.len()
    &&& nodes[i].entry.id == key
    &&& forall|j: int| 0 <= j < i ==> (#[trigger] nodes[j]).entry.id != key
}

/// The number under which the graph knows the task with the plan id `key`.
pub open spec fn known_id(nodes: Seq<NodeView>, key: Seq<char>) -> Option<u64> {
    if exists|i: int| is_first_node_with_key(nodes, key, i) {
        Some(nodes[choose|i: int| is_first_node_with_key(nodes, key, i)].id)
    } else {
        None
    }
}

/// How many of the first `n` tasks of `entries` the graph does not know.
pub open spec fn fresh_before(nodes: Seq<NodeView>, entries: Seq<EntryView>, n: nat) -> nat
    decreases n,
{
    if n == 0 {
        0
    } else {
        fresh_before(nodes, entries, (n - 1) as nat) + if known_id(nodes, entries[n - 1].id)
            is None {
            1nat
        } else {
            0nat
        }
    }
}

/// The number given to the task at `i`: the one it has in the graph
/// already, or else the next free number, counted up with each task that
/// the graph does not know.
pub open spec fn assigned_id(
    nodes: Seq<NodeView>,
    next: u64,
    entries: Seq<EntryView>,
    i: int,
) -> int {
    match known_id(nodes, entries[i].id) {
        Some(id) => id as int,
        None => next + fresh_before(nodes, entries, i as nat),
    }
}

/// Whether the engine has numbers left for all tasks it does not know.
pub open spec fn ids_fit(nodes: Seq<NodeView>, next: u64, entries: Seq<EntryView>) -> bool {
    next + fresh_before(nodes, entries, entries.len()) <= u64::MAX
}

/// The node that is built for the task at `i` of an accepted plan.
pub open spec fn built_node(
    nodes: Seq<NodeView>,
    next: u64,
    entries: Seq<EntryView>,
    i: int,
) -> NodeView {
    NodeView {
        id: assigned_id(nodes, next, entries, i) as u64,
        top_task_id: assigned_id(nodes, next, entries, root_of(entries, i)->Root_0) as u64,
        parent_id: match entries[i].parent_id {
            Some(parent) => Some(
                assigned_id(nodes, next, entries, key_index(entries, parent)) as u64,
            ),
            None => None,
        },
        entry: entries[i],
    }
}

/// The graph that is built for an accepted plan: one node per task, in
/// the order of the plan.
pub open spec fn built_nodes(nodes: Seq<NodeView>, next: u64, entries: Seq<EntryView>) -> Seq<
    NodeView,
> {
    Seq::new(entries.len(), |i: int| built_node(nodes, next, entries, i))
}

/// Whether `id` is the number of a top-level task of `nodes`.
pub open spec fn is_top_id(nodes: Seq<NodeView>, id: u64) -> bool {
    exists|i: int| 0 <= i < nodes.len() && (#[trigger] nodes[i]).id == id && nodes[i].parent_id is None
}

/// Whether two graphs have the same top-level tasks.
pub open spec fn same_tops(a: Seq<NodeView>, b: Seq<NodeView>) -> bool {
    forall|id: u64| is_top_id(a, id) == is_top_id(b, id)
}

/// Why a plan is refused, if it is: for what is wrong with it, or because
/// the engine would run out of numbers.
pub open spec fn sync_error(w: WorkflowView, entries: Seq<EntryView>) -> Option<WorkflowError> {
    match plan_error(entries) {
        Some(error) => Some(error),
        None => if ids_fit(w.nodes, w.next_task_id, entries) {
            None
        } else {
            Some(WorkflowError::TaskIdsExhausted)
        },
    }
}

/// The state after an accepted plan has been taken in: the graph is
/// replaced; the queue, the active job and the focus are kept where the
/// top-level tasks are the same as before and dropped where they are not.
pub open spec fn synced(w: WorkflowView, entries: Seq<EntryView>) -> WorkflowView {
    let nodes = built_nodes(w.nodes, w.next_task_id, entries);
    let next_task_id = (w.next_task_id + fresh_before(w.nodes, entries, entries.len())) as u64;
    if same_tops(w.nodes, nodes) {
        WorkflowView { nodes, next_task_id, ..w }
    } else {
        WorkflowView { nodes, next_task_id, queue: Seq::empty(), active: None, focus: None, ..w }
    }
}

proof fn lemma_first_with_key_unique(entries: Seq<EntryView>, key: Seq<char>, i: int)
    requires
        is_first_with_key(entries, key, i),
    ensures
        has_key(entries, key),
        key_index(entries, key) == i,
{
    let k = key_index(entries, key);
    assert(is_first_with_key(entries, key, k));
    if k < i {
        assert(entries[k].id != key);
    }
    if i < k {
        assert(entries[i].id != key);
    }
}

proof fn lemma_no_key(entries: Seq<EntryView>, key: Seq<char>)
    requires
        forall|j: int| 0 <= j < entries.len() ==> (#[trigger] entries[j]).id != key,
    ensures
        !has_key(entries, key),
{
    if has_key(entries, key) {
        let k = key_index(entries, key);
        assert(entries[k].id != key);
    }
}

proof fn lemma_first_node_with_key_unique(nodes: Seq<NodeView>, key: Seq<char>, i: int)
    requires
        is_first_node_with_key(nodes, key, i),
    ensures
        known_id(nodes, key) == Some(nodes[i].id),
{
    let k = choose|k: int| is_first_node_with_key(nodes, key, k);
    assert(is_first_node_with_key(nodes, key, k));
    if k < i {
        assert(nodes[k].entry.id != key);
    }
    if i < k {
        assert(nodes[i].entry.id != key);
    }
}

proof fn lemma_no_node_with_key(nodes: Seq<NodeView>, key: Seq<char>)
    requires
        forall|j: int| 0 <= j < nodes.len() ==> (#[trigger] nodes[j]).entry.id != key,
    ensures
        known_id(nodes, key) is None,
{
    if exists|i: int| is_first_node_with_key(nodes, key, i) {
        let k = choose|k: int| is_first_node_with_key(nodes, key, k);
        assert(nodes[k].entry.id != key);
    }
}

proof fn lemma_first_broken_unique(entries: Seq<EntryView>, i: int)
    requires
        is_first_broken(entries, i),
    ensures
        (choose|k: int| is_first_broken(entries, k)) == i,
{
    let k = choose|k: int| is_first_broken(entries, k);
    assert(is_first_broken(entries, k));
    if k < i {
        assert(root_of(entries, k) is Root);
    }
    if i < k {
        assert(root_of(entries, i) is Root);
    }
}

/// A node that holds an id makes some node the first to hold it.
pub proof fn lemma_has_node_at(nodes: Seq<NodeView>, id: u64, j: int)
    requires
        0 <= j < nodes.len(),
        nodes[j].id == id,
    ensures
        has_node(nodes, id),
    decreases j,
{
    if exists|k: int| 0 <= k < j && nodes[k].id == id {
        let k = choose|k: int| 0 <= k < j && nodes[k].id == id;
        lemma_has_node_at(nodes, id, k);
    } else {
        assert(is_first_with_id(nodes, id, j));
    }
}

/// Where a chain of parents ends at a top-level task, it ends at a
/// position of the plan.
proof fn lemma_chain_root_in_range(entries: Seq<EntryView>, i: int, fuel: nat)
    requires
        0 <= i < entries.len(),
        chain_end(entries, i, fuel) is Root,
    ensures
        0 <= chain_end(entries, i, fuel)->Root_0 < entries.len(),
        entries[chain_end(entries, i, fuel)->Root_0].parent_id is None,
    decreases fuel,
{
    match entries[i].parent_id {
        None => {},
        Some(parent) => {
            let k = key_index(entries, parent);
            assert(is_first_with_key(entries, parent, k));
            lemma_chain_root_in_range(entries, k, (fuel - 1) as nat);
        },
    }
}

/// In the graph built for an accepted plan every task has either no
/// parent or a parent in the graph.
pub proof fn lemma_built_nodes_parents_present(
    nodes: Seq<NodeView>,
    next: u64,
    entries: Seq<EntryView>,
)
    requires
        plan_error(entries) is None,
    ensures
        parents_present(built_nodes(nodes, next, entries)),
{
    let built = built_nodes(nodes, next, entries);
    assert forall|i: int| 0 <= i < built.len() implies match (#[trigger] built[i]).parent_id {
        Some(parent) => has_node(built, parent),
        None => true,
    } by {
        match entries[i].parent_id {
            Some(parent) => {
                if !has_key(entries, parent) {
                    assert(root_of(entries, i) is Missing);
                    lemma_some_broken(entries, i);
                }
                let k = key_index(entries, parent);
                assert(is_first_with_key(entries, parent, k));
                lemma_has_node_at(built, built[k].id, k);
            },
            None => {},
        }
    }
}

/// A chain that does not end at a top-level task makes some chain the
/// first that does not.
proof fn lemma_some_broken(entries: Seq<EntryView>, i: int)
    requires
        0 <= i < entries.len(),
        !(root_of(entries, i) is Root),
    ensures
        exists|k: int| is_first_broken(entries, k),
    decreases i,
{
    if exists|k: int| 0 <= k < i && !(root_of(entries, k) is Root) {
        let k = choose|k: int| 0 <= k < i && !(root_of(entries, k) is Root);
        lemma_some_broken(entries, k);
    } else {
        assert(is_first_broken(entries, i));
    }
}

/// The count of unknown tasks never goes down along the plan.
proof fn lemma_fresh_before_monotone(nodes: Seq<NodeView>, entries: Seq<EntryView>, a: nat, b: nat)
    requires
        a <= b,
    ensures
        fresh_before(nodes, entries, a) <= fresh_before(nodes, entries, b),
    decreases b,
{
    if a < b {
        lemma_fresh_before_monotone(nodes, entries, a, (b - 1) as nat);
    }
}

/// Two graphs have the same top-level tasks exactly when each top-level
/// task of either is one of the other.
proof fn lemma_same_tops(a: Seq<NodeView>, b: Seq<NodeView>)
    ensures
        same_tops(a, b) == (tops_within(a, b) && tops_within(b, a)),
{
    if tops_within(a, b) && tops_within(b, a) {
        assert forall|id: u64| is_top_id(a, id) == is_top_id(b, id) by {
            if is_top_id(a, id) {
                let i = choose|i: int| 0 <= i < a.len() && (#[trigger] a[i]).id == id && a[i].parent_id is None;
                assert(is_top_id(b, a[i].id));
            }
            if is_top_id(b, id) {
                let i = choose|i: int| 0 <= i < b.len() && (#[trigger] b[i]).id == id && b[i].parent_id is None;
                assert(is_top_id(a, b[i].id));
            }
        }
    }
    if same_tops(a, b) {
        assert forall|i: int| 0 <= i < a.len() && (#[trigger] a[i]).parent_id is None implies is_top_id(
            b,
            a[i].id,
        ) by {
            assert(is_top_id(a, a[i].id));
        }
        assert forall|i: int| 0 <= i < b.len() && (#[trigger] b[i]).parent_id is None implies is_top_id(
            a,
            b[i].id,
        ) by {
            assert(is_top_id(b, b[i].id));
        }
    }
}

/// Every top-level task of `a` is one of `b`.
pub open spec fn tops_within(a: Seq<NodeView>, b: Seq<NodeView>) -> bool {
    forall|i: int| 0 <= i < a.len() && (#[trigger] a[i]).parent_id is None ==> is_top_id(b, a[i].id)
}

/// Whether every top-level task of `a` is one of `b`.
fn all_tops_within(a: &Vec<TaskNode>, b: &Vec<TaskNode>) -> (within: bool)
    ensures
        within == tops_within(node_views(a@), node_views(b@)),
{
    let mut i: usize = 0;
    while i < a.len()
        invariant
            i <= a.len(),
            forall|k: int|
                0 <= k < i && (#[trigger] node_views(a@)[k]).parent_id is None ==> is_top_id(
                    node_views(b@),
                    node_views(a@)[k].id,
                ),
        decreases a.len() - i,
    {
        if a[i].parent_id.is_none() {
            let mut found = false;
            let mut j: usize = 0;
            while j < b.len() && !found
                invariant
                    j <= b.len(),
                    i < a.len(),
                    found ==> is_top_id(node_views(b@), node_views(a@)[i as int].id),
                    !found ==> forall|k: int|
                        0 <= k < j ==> !((#[trigger] node_views(b@)[k]).id == a[i as int].id
                            && node_views(b@)[k].parent_id is None),
                decreases b.len() - j + if found { 0int } else { 1int },
            {
                if b[j].id == a[i].id && b[j].parent_id.is_none() {
                    assert(node_views(b@)[j as int].id == node_views(a@)[i as int].id);
                    found = true;
                } else {
                    j += 1;
                }
            }
            if !found {
                assert(!is_top_id(node_views(b@), node_views(a@)[i as int].id));
                return false;
            }
        }
        i += 1;
    }
    true
}

/// In the graph built for a plan without repeated ids, each task of the
/// plan is known under the number of its node.
proof fn lemma_built_nodes_known(nodes: Seq<NodeView>, next: u64, entries: Seq<EntryView>, i: int)
    requires
        keys_distinct(entries),
        0 <= i < entries.len(),
    ensures
        known_id(built_nodes(nodes, next, entries), entries[i].id) == Some(
            built_nodes(nodes, next, entries)[i].id,
        ),
{
    let built = built_nodes(nodes, next, entries);
    assert(is_first_node_with_key(built, entries[i].id, i)) by {
        assert forall|j: int| 0 <= j < i implies (#[trigger] built[j]).entry.id != entries[i].id by {
            assert(entries[j].id != entries[i].id);
        }
    }
    lemma_first_node_with_key_unique(built, entries[i].id, i);
}

/// Against the graph built for a plan, no task of that plan is unknown.
proof fn lemma_nothing_fresh_after_sync(
    nodes: Seq<NodeView>,
    next: u64,
    entries: Seq<EntryView>,
    n: nat,
)
    requires
        keys_distinct(entries),
        n <= entries.len(),
    ensures
        fresh_before(built_nodes(nodes, next, entries), entries, n) == 0,
    decreases n,
{
    if n > 0 {
        lemma_nothing_fresh_after_sync(nodes, next, entries, (n - 1) as nat);
        lemma_built_nodes_known(nodes, next, entries, n - 1);
    }
}

/// Against the graph built for a plan, each task of that plan is given
/// the number of its node again.
proof fn lemma_assigned_again(
    nodes: Seq<NodeView>,
    next: u64,
    later: u64,
    entries: Seq<EntryView>,
    k: int,
)
    requires
        keys_distinct(entries),
        0 <= k < entries.len(),
    ensures
        assigned_id(built_nodes(nodes, next, entries), later, entries, k) == built_nodes(
            nodes,
            next,
            entries,
        )[k].id,
{
    lemma_built_nodes_known(nodes, next, entries, k);
}

/// In an accepted plan the parent that a task names is a task of the plan.
proof fn lemma_parent_in_plan(entries: Seq<EntryView>, i: int)
    requires
        plan_error(entries) is None,
        0 <= i < entries.len(),
        entries[i].parent_id is Some,
    ensures
        is_first_with_key(
            entries,
            entries[i].parent_id->0,
            key_index(entries, entries[i].parent_id->0),
        ),
{
    let parent = entries[i].parent_id->0;
    if !has_key(entries, parent) {
        assert(root_of(entries, i) is Missing);
        lemma_some_broken(entries, i);
    }
}

/// In an accepted plan the chain of parents of every task ends at a
/// top-level task of the plan.
proof fn lemma_root_in_plan(entries: Seq<EntryView>, i: int)
    requires
        plan_error(entries) is None,
        0 <= i < entries.len(),
    ensures
        root_of(entries, i) is Root,
        0 <= root_of(entries, i)->Root_0 < entries.len(),
{
    if !(root_of(entries, i) is Root) {
        lemma_some_broken(entries, i);
    }
    lemma_chain_root_in_range(entries, i, entries.len());
}

/// Building the graph for a plan against the graph built for that same
/// plan gives each node again.
proof fn lemma_built_again(
    nodes: Seq<NodeView>,
    next: u64,
    later: u64,
    entries: Seq<EntryView>,
    i: int,
)
    requires
        plan_error(entries) is None,
        0 <= i < entries.len(),
    ensures
        built_node(built_nodes(nodes, next, entries), later, entries, i) == built_nodes(
            nodes,
            next,
            entries,
        )[i],
{
    let built = built_nodes(nodes, next, entries);
    lemma_assigned_again(nodes, next, later, entries, i);
    lemma_root_in_plan(entries, i);
    lemma_assigned_again(nodes, next, later, entries, root_of(entries, i)->Root_0);
    if entries[i].parent_id is Some {
        lemma_parent_in_plan(entries, i);
        lemma_assigned_again(
            nodes,
            next,
            later,
            entries,
            key_index(entries, entries[i].parent_id->0),
        );
    }
}

/// Taking in the same plan a second time changes nothing: the plan is
/// accepted again and leaves the state that the first time left.
pub proof fn lemma_sync_idempotent(w: WorkflowView, entries: Seq<EntryView>)
    requires
        sync_error(w, entries) is None,
    ensures
        sync_error(synced(w, entries), entries) is None,
        synced(synced(w, entries), entries) == synced(w, entries),
{
    let once = synced(w, entries);
    let built = built_nodes(w.nodes, w.next_task_id, entries);
    lemma_nothing_fresh_after_sync(w.nodes, w.next_task_id, entries, entries.len());
    let again = built_nodes(built, once.next_task_id, entries);
    assert forall|i: int| 0 <= i < entries.len() implies #[trigger] again[i] == built[i] by {
        lemma_built_again(w.nodes, w.next_task_id, once.next_task_id, entries, i);
    }
    assert(again =~= built);
    assert(same_tops(built, built));
}

/// How following the parents of a task ended.
enum ChainFound {
    Root(usize),
    Missing,
    Cyclic,
}

impl ChainFound {
    spec fn value(self) -> Chain {
        match self {
            ChainFound::Root(i) => Chain::Root(i as int),
            ChainFound::Missing => Chain::Missing,
            ChainFound::Cyclic => Chain::Cyclic,
        }
    }
}

/// The first position in `entries` whose task has the id `key`.
fn find_key(entries: &Vec<PlannerTaskEntryContract>, key: &str) -> (found: Option<usize>)
    ensures
        found is Some == has_key(entry_views(entries@), key@),
        found matches Some(i) ==> i == key_index(entry_views(entries@), key@) && i < entries.len(),
{
    let mut i: usize = 0;
    while i < entries.len()
        invariant
            i <= entries.len(),
            forall|j: int| 0 <= j < i ==> (#[trigger] entry_views(entries@)[j]).id != key@,
        decreases entries.len() - i,
    {
        if same_text(entries[i].id.as_str(), key) {
            proof {
                lemma_first_with_key_unique(entry_views(entries@), key@, i as int);
            }
            return Some(i);
        }
        i += 1;
    }
    proof {
        lemma_no_key(entry_views(entries@), key@);
    }
    None
}

/// Whether no two tasks of `entries` have the same id.
fn keys_are_distinct(entries: &Vec<PlannerTaskEntryContract>) -> (distinct: bool)
    ensures
        distinct == keys_distinct(entry_views(entries@)),
{
    let mut j: usize = 0;
    while j < entries.len()
        invariant
            j <= entries.len(),
            forall|a: int, b: int|
                0 <= a < b < j ==> (#[trigger] entry_views(entries@)[a]).id != (
                #[trigger] entry_views(entries@)[b]).id,
        decreases entries.len() - j,
    {
        let mut i: usize = 0;
        while i < j
            invariant
                i <= j < entries.len(),
                forall|a: int|
                    0 <= a < i ==> (#[trigger] entry_views(entries@)[a]).id != entry_views(
                        entries@,
                    )[j as int].id,
            decreases j - i,
        {
            if same_text(entries[i].id.as_str(), entries[j].id.as_str()) {
                assert(entry_views(entries@)[i as int].id == entry_views(entries@)[j as int].id);
                return false;
            }
            i += 1;
        }
        j += 1;
    }
    true
}

/// Follows the parents of the task at `i`.
fn follow_chain(entries: &Vec<PlannerTaskEntryContract>, i: usize) -> (end: ChainFound)
    requires
        i < entries.len(),
    ensures
        end.value() == root_of(entry_views(entries@), i as int),
        end matches ChainFound::Root(r) ==> r < entries.len(),
{
    let mut current: usize = i;
    let mut fuel: usize = entries.len();
    loop
        invariant
            current < entries.len(),
            fuel <= entries.len(),
            chain_end(entry_views(entries@), current as int, fuel as nat) == root_of(
                entry_views(entries@),
                i as int,
            ),
        decreases fuel,
    {
        match &entries[current].parent_id {
            None => {
                return ChainFound::Root(current);
            },
            Some(parent) => {
                match find_key(entries, parent.as_str()) {
                    None => {
                        return ChainFound::Missing;
                    },
                    Some(next) => {
                        if fuel == 0 {
                            return ChainFound::Cyclic;
                        }
                        current = next;
                        fuel -= 1;
                    },
                }
            },
        }
    }
}

/// A copy of a plan entry.
pub fn clone_entry(entry: &PlannerTaskEntryContract) -> (copy: PlannerTaskEntryContract)
    ensures
        copy@ == entry@,
{
    let mut docs: Vec<PlannerTaskDocContract> = Vec::new();
    let mut i: usize = 0;
    while i < entry.docs.len()
        invariant
            i <= entry.docs.len(),
            docs@.len() == i,
            forall|j: int| 0 <= j < i ==> (#[trigger] docs@[j])@ == entry.docs@[j]@,
        decreases entry.docs.len() - i,
    {
        docs.push(
            PlannerTaskDocContract {
                title: entry.docs[i].title.clone(),
                url: entry.docs[i].url.clone(),
                summary: entry.docs[i].summary.clone(),
            },
        );
        i += 1;
    }
    assert(doc_views(docs@) =~= doc_views(entry.docs@));
    PlannerTaskEntryContract {
        id: entry.id.clone(),
        title: entry.title.clone(),
        details: entry.details.clone(),
        docs,
        kind: entry.kind,
        status: entry.status,
        parent_id: match &entry.parent_id {
            Some(parent) => Some(parent.clone()),
            None => None,
        },
        order: entry.order,
    }
}

impl Workflow {
    /// The number under which the graph knows the task with the plan id `key`.
    pub fn find_known_id(&self, key: &str) -> (id: Option<u64>)
        ensures
            id == known_id(self.state().nodes, key@),
    {
        let mut i: usize = 0;
        while i < self.nodes.len()
            invariant
                i <= self.nodes.len(),
                forall|j: int| 0 <= j < i ==> (#[trigger] self.state().nodes[j]).entry.id != key@,
            decreases self.nodes.len() - i,
        {
            if same_text(self.nodes[i].entry.id.as_str(), key) {
                proof {
                    lemma_first_node_with_key_unique(self.state().nodes, key@, i as int);
                }
                return Some(self.nodes[i].id);
            }
            i += 1;
        }
        proof {
            lemma_no_node_with_key(self.state().nodes, key@);
        }
        None
    }

    /// Takes in a plan and replaces the task graph by it.
    ///
    /// The plan is refused, and nothing changes, where two of its tasks
    /// have the same id, where a chain of parents meets an id that no
    /// task has or runs in a cycle, or where the engine has no numbers
    /// left. Else every task keeps the number it has in the graph, going
    /// by its id, or is given the next free one; its parent and its
    /// top-level task are named by their numbers; and its status is the
    /// one the plan states. The queue, the active job and the focus are
    /// dropped unless the top-level tasks are the same as before.
    pub fn sync_planner_tasks(&mut self, entries: Vec<PlannerTaskEntryContract>) -> (result: Result<
        (),
        WorkflowError,
    >)
        ensures
            match result {
                Ok(_) => sync_error(old(self).state(), entry_views(entries@)) is None
                    && final(self).state() == synced(old(self).state(), entry_views(entries@)),
                Err(error) => sync_error(old(self).state(), entry_views(entries@)) == Some(error)
                    && final(self).state() == old(self).state(),
            },
            valid(old(self).state()) ==> valid(final(self).state()),
    {
        let ghost plan = entry_views(entries@);
        let ghost before = self.state();
        if !keys_are_distinct(&entries) {
            return Err(WorkflowError::DuplicateTaskId);
        }
        let n: usize = entries.len();
        let mut roots: Vec<usize> = Vec::new();
        let mut i: usize = 0;
        while i < n
            invariant
                i <= n == entries.len(),
                plan == entry_views(entries@),
                keys_distinct(plan),
                self.state() == before,
                before == old(self).state(),
                roots@.len() == i,
                forall|j: int|
                    0 <= j < i ==> #[trigger] root_of(plan, j) == Chain::Root(roots@[j] as int)
                        && roots@[j] < n,
            decreases n - i,
        {
            match follow_chain(&entries, i) {
                ChainFound::Root(root) => {
                    roots.push(root);
                },
                ChainFound::Missing => {
                    proof {
                        assert(is_first_broken(plan, i as int));
                        lemma_first_broken_unique(plan, i as int);
                    }
                    return Err(WorkflowError::UnknownParent);
                },
                ChainFound::Cyclic => {
                    proof {
                        assert(is_first_broken(plan, i as int));
                        lemma_first_broken_unique(plan, i as int);
                    }
                    return Err(WorkflowError::CyclicParent);
                },
            }
            i += 1;
        }
        proof {
            if exists|k: int| is_first_broken(plan, k) {
                let k = choose|k: int| is_first_broken(plan, k);
                assert(root_of(plan, k) is Root);
            }
            assert(plan_error(plan) is None);
        }
        let next: u64 = self.next_task_id;
        let mut ids: Vec<u64> = Vec::new();
        let mut fresh: u64 = 0;
        let mut i: usize = 0;
        while i < n
            invariant
                i <= n == entries.len(),
                plan == entry_views(entries@),
                plan_error(plan) is None,
                self.state() == before,
                before == old(self).state(),
                next == before.next_task_id,
                ids@.len() == i,
                fresh == fresh_before(before.nodes, plan, i as nat),
                next + fresh <= u64::MAX,
                forall|j: int|
                    0 <= j < i ==> (#[trigger] ids@[j]) == assigned_id(before.nodes, next, plan, j),
            decreases n - i,
        {
            match self.find_known_id(entries[i].id.as_str()) {
                Some(id) => {
                    ids.push(id);
                },
                None => {
                    if fresh >= u64::MAX - next {
                        proof {
                            lemma_fresh_before_monotone(
                                before.nodes,
                                plan,
                                (i + 1) as nat,
                                plan.len(),
                            );
                        }
                        return Err(WorkflowError::TaskIdsExhausted);
                    }
                    ids.push(next + fresh);
                    fresh += 1;
                },
            }
            i += 1;
        }
        assert(ids_fit(before.nodes, next, plan));
        let mut nodes: Vec<TaskNode> = Vec::new();
        let mut i: usize = 0;
        while i < n
            invariant
                i <= n == entries.len(),
                plan == entry_views(entries@),
                plan_error(plan) is None,
                roots@.len() == n,
                ids@.len() == n,
                forall|j: int|
                    0 <= j < n ==> #[trigger] root_of(plan, j) == Chain::Root(roots@[j] as int)
                        && roots@[j] < n,
                forall|j: int|
                    0 <= j < n ==> (#[trigger] ids@[j]) == assigned_id(before.nodes, next, plan, j),
                nodes@.len() == i,
                forall|j: int|
                    0 <= j < i ==> (#[trigger] nodes@[j])@ == built_node(
                        before.nodes,
                        next,
                        plan,
                        j,
                    ),
            decreases n - i,
        {
            let parent_id = match &entries[i].parent_id {
                Some(parent) => match find_key(&entries, parent.as_str()) {
                    Some(k) => Some(ids[k]),
                    None => {
                        proof {
                            assert(root_of(plan, i as int) is Missing);
                        }
                        None
                    },
                },
                None => None,
            };
            proof {
                assert(root_of(plan, i as int) == Chain::Root(roots@[i as int] as int));
            }
            nodes.push(
                TaskNode {
                    id: ids[i],
                    top_task_id: ids[roots[i]],
                    parent_id,
                    entry: clone_entry(&entries[i]),
                },
            );
            i += 1;
        }
        assert(node_views(nodes@) =~= built_nodes(before.nodes, next, plan));
        let same = all_tops_within(&self.nodes, &nodes) && all_tops_within(&nodes, &self.nodes);
        proof {
            lemma_same_tops(before.nodes, node_views(nodes@));
            lemma_built_nodes_parents_present(before.nodes, next, plan);
        }
        self.nodes = nodes;
        self.next_task_id = next + fresh;
        if !same {
            self.queue.clear();
            self.active = None;
            self.focus = None;
            assert(self.state().queue =~= Seq::empty());
        }
        Ok(())
    }

    /// The plan as the graph holds it now: every task with its current status.
    pub fn planner_tasks_for_file(&self) -> (entries: Vec<PlannerTaskEntryContract>)
        ensures
            entries@.len() == self.state().nodes.len(),
            forall|i: int|
                0 <= i < entries@.len() ==> (#[trigger] entries@[i])@ == self.state().nodes[i].entry,
    {
        let mut entries: Vec<PlannerTaskEntryContract> = Vec::new();
        let mut i: usize = 0;
        while i < self.nodes.len()
            invariant
                i <= self.nodes.len(),
                entries@.len() == i,
                forall|j: int|
                    0 <= j < i ==> (#[trigger] entries@[j])@ == self.state().nodes[j].entry,
            decreases self.nodes.len() - i,
        {
            entries.push(clone_entry(&self.nodes[i].entry));
            i += 1;
        }
        entries
    }
}

} // verus!
