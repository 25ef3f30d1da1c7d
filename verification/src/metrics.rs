//! Summary counters of an executed plan: the counters that each node of a
//! plan tree recorded are added up over the whole tree.

use vstd::prelude::*;
use vstd::string::StringExecFns;

verus! {

/// Name of the counter of I/O operations.
pub const IOPS_METRIC: &'static str = "iops";

/// Name of the counter of I/O requests.
pub const REQUESTS_METRIC: &'static str = "requests";

/// Name of the counter of bytes read.
pub const BYTES_READ_METRIC: &'static str = "bytes_read";

/// Name of the counter of indices loaded.
pub const INDICES_LOADED_METRIC: &'static str = "indices_loaded";

/// Name of the counter of index partitions loaded.
pub const PARTS_LOADED_METRIC: &'static str = "parts_loaded";

/// Name of the counter of comparisons made inside an index.
pub const INDEX_COMPARISONS_METRIC: &'static str = "index_comparisons";

/// The six counters of a summary as mathematical integers.
pub struct CountTotals {
    pub iops: int,
    pub requests: int,
    pub bytes_read: int,
    pub indices_loaded: int,
    pub parts_loaded: int,
    pub index_comparisons: int,
}

impl CountTotals {
    /// All six counters at zero.
    pub open spec fn zero() -> CountTotals {
        CountTotals {
            iops: 0,
            requests: 0,
            bytes_read: 0,
            indices_loaded: 0,
            parts_loaded: 0,
            index_comparisons: 0,
        }
    }

    /// Counter by counter, the sum of two sets of counters.
    pub open spec fn plus(self, other: CountTotals) -> CountTotals {
        CountTotals {
            iops: self.iops + other.iops,
            requests: self.requests + other.requests,
            bytes_read: self.bytes_read + other.bytes_read,
            indices_loaded: self.indices_loaded + other.indices_loaded,
            parts_loaded: self.parts_loaded + other.parts_loaded,
            index_comparisons: self.index_comparisons + other.index_comparisons,
        }
    }

    /// Whether no counter is negative.
    pub open spec fn non_negative(self) -> bool {
        &&& 0 <= self.iops
        &&& 0 <= self.requests
        &&& 0 <= self.bytes_read
        &&& 0 <= self.indices_loaded
        &&& 0 <= self.parts_loaded
        &&& 0 <= self.index_comparisons
    }

    /// Whether every counter can be held in a `usize`.
    pub open spec fn fits(self) -> bool {
        &&& self.iops <= usize::MAX
        &&& self.requests <= usize::MAX
        &&& self.bytes_read <= usize::MAX
        &&& self.indices_loaded <= usize::MAX
        &&& self.parts_loaded <= usize::MAX
        &&& self.index_comparisons <= usize::MAX
    }
}

/// The counters that summarise one run of a plan.
#[derive(Debug, Clone, Copy, PartialEq, Eq, Structural)]
pub struct ExecutionSummaryCounts {
    pub iops: usize,
    pub requests: usize,
    pub bytes_read: usize,
    pub indices_loaded: usize,
    pub parts_loaded: usize,
    pub index_comparisons: usize,
}

impl View for ExecutionSummaryCounts {
    type V = CountTotals;

    open spec fn view(&self) -> CountTotals {
        CountTotals {
            iops: self.iops as int,
            requests: self.requests as int,
            bytes_read: self.bytes_read as int,
            indices_loaded: self.indices_loaded as int,
            parts_loaded: self.parts_loaded as int,
            index_comparisons: self.index_comparisons as int,
        }
    }
}

impl Default for ExecutionSummaryCounts {
    fn default() -> (counts: Self)
        ensures
            counts@ == CountTotals::zero(),
    {
        ExecutionSummaryCounts {
            iops: 0,
            requests: 0,
            bytes_read: 0,
            indices_loaded: 0,
            parts_loaded: 0,
            index_comparisons: 0,
        }
    }
}

/// A counter that a plan node recorded under a name.
#[derive(Debug)]
pub struct CountMetric {
    pub name: String,
    pub value: usize,
}

/// What a plan node recorded while it ran: the number of rows it produced,
/// where known, and its named counters in the order in which it lists them.
#[derive(Debug)]
pub struct NodeMetrics {
    pub output_rows: Option<usize>,
    pub counts: Vec<CountMetric>,
}

/// A node of an executed plan tree with what it recorded and its inputs.
#[derive(Debug)]
pub struct PlanNode {
    pub metrics: Option<NodeMetrics>,
    pub children: Vec<PlanNode>,
}

/// The value of the first counter called `name`, if there is one.
pub open spec fn find_count(counts: Seq<CountMetric>, name: Seq<char>) -> Option<usize>
    decreases counts.len(),
{
    if counts.len() == 0 {
        None
    } else if counts[0].name@ == name {
        Some(counts[0].value)
    } else {
        find_count(counts.drop_first(), name)
    }
}

/// The value of the first counter called `name`, zero where there is none.
pub open spec fn count_or_zero(counts: Seq<CountMetric>, name: Seq<char>) -> int {
    match find_count(counts, name) {
        Some(value) => value as int,
        None => 0,
    }
}

/// The six summary counters of one node alone; a node without metrics, and a
/// counter that the node does not list, count as zero.
pub open spec fn own_totals(metrics: Option<NodeMetrics>) -> CountTotals {
    match metrics {
        None => CountTotals::zero(),
        Some(m) => CountTotals {
            iops: count_or_zero(m.counts@, IOPS_METRIC@),
            requests: count_or_zero(m.counts@, REQUESTS_METRIC@),
            bytes_read: count_or_zero(m.counts@, BYTES_READ_METRIC@),
            indices_loaded: count_or_zero(m.counts@, INDICES_LOADED_METRIC@),
            parts_loaded: count_or_zero(m.counts@, PARTS_LOADED_METRIC@),
            index_comparisons: count_or_zero(m.counts@, INDEX_COMPARISONS_METRIC@),
        },
    }
}

/// The counters of `node` itself plus those of the whole trees below its
/// first `upto` children.
pub open spec fn partial_totals(node: PlanNode, upto: nat) -> CountTotals
    decreases node, upto,
{
    if upto == 0 || upto > node.children.len() {
        own_totals(node.metrics)
    } else {
        partial_totals(node, (upto - 1) as nat).plus(
            partial_totals(node.children[upto - 1], node.children[upto - 1].children.len() as nat),
        )
    }
}

/// The sum of the counters of every node of the tree below and at `node`.
pub open spec fn tree_totals(node: PlanNode) -> CountTotals {
    partial_totals(node, node.children.len() as nat)
}

/// Looks up the first counter called `name`.
pub fn find_count_value(counts: &Vec<CountMetric>, name: &str) -> (found: Option<usize>)
    ensures
        found == find_count(counts@, name@),
{
    let wanted = String::from_str(name);
    let mut i: usize = 0;
    proof {
        assert(counts@.skip(0) == counts@);
    }
    while i < counts.len()
        invariant
            i <= counts.len(),
            wanted@ == name@,
            find_count(counts@, name@) == find_count(counts@.skip(i as int), name@),
        decreases counts.len() - i,
    {
        proof {
            assert(counts@.skip(i as int).drop_first() == counts@.skip(i + 1));
        }
        if counts[i].name == wanted {
            return Some(counts[i].value);
        }
        i = i + 1;
    }
    None
}

/// The value of the first counter called `name`, zero where there is none.
fn count_value_or_zero(counts: &Vec<CountMetric>, name: &str) -> (value: usize)
    ensures
        value == count_or_zero(counts@, name@),
{
    match find_count_value(counts, name) {
        Some(value) => value,
        None => 0,
    }
}

/// Reads the six summary counters of one node.
pub fn own_counts(metrics: &Option<NodeMetrics>) -> (counts: ExecutionSummaryCounts)
    ensures
        counts@ == own_totals(*metrics),
{
    match metrics {
        None => ExecutionSummaryCounts::default(),
        Some(m) => ExecutionSummaryCounts {
            iops: count_value_or_zero(&m.counts, IOPS_METRIC),
            requests: count_value_or_zero(&m.counts, REQUESTS_METRIC),
            bytes_read: count_value_or_zero(&m.counts, BYTES_READ_METRIC),
            indices_loaded: count_value_or_zero(&m.counts, INDICES_LOADED_METRIC),
            parts_loaded: count_value_or_zero(&m.counts, PARTS_LOADED_METRIC),
            index_comparisons: count_value_or_zero(&m.counts, INDEX_COMPARISONS_METRIC),
        },
    }
}

/// Counter by counter, the sum of `a` and `b`, unless a sum is too large for
/// a `usize`.
fn checked_plus(a: ExecutionSummaryCounts, b: ExecutionSummaryCounts) -> (sum: Option<
    ExecutionSummaryCounts,
>)
    ensures
        a@.plus(b@).fits() ==> sum is Some && sum->Some_0@ == a@.plus(b@),
        !a@.plus(b@).fits() ==> sum is None,
{
    let iops = a.iops.checked_add(b.iops);
    let requests = a.requests.checked_add(b.requests);
    let bytes_read = a.bytes_read.checked_add(b.bytes_read);
    let indices_loaded = a.indices_loaded.checked_add(b.indices_loaded);
    let parts_loaded = a.parts_loaded.checked_add(b.parts_loaded);
    let index_comparisons = a.index_comparisons.checked_add(b.index_comparisons);
    match (iops, requests, bytes_read, indices_loaded, parts_loaded, index_comparisons) {
        (
            Some(iops),
            Some(requests),
            Some(bytes_read),
            Some(indices_loaded),
            Some(parts_loaded),
            Some(index_comparisons),
        ) => Some(
            ExecutionSummaryCounts {
                iops,
                requests,
                bytes_read,
                indices_loaded,
                parts_loaded,
                index_comparisons,
            },
        ),
        _ => None,
    }
}

/// No counter of a tree is negative, and the totals only grow with each
/// further child that is counted in.
proof fn lemma_totals_grow(node: PlanNode, upto: nat)
    ensures
        own_totals(node.metrics).non_negative(),
        partial_totals(node, upto).non_negative(),
        upto < node.children.len() ==> partial_totals(node, upto + 1) == partial_totals(
            node,
            upto,
        ).plus(tree_totals(node.children[upto as int])),
        upto < node.children.len() ==> tree_totals(node.children[upto as int]).non_negative(),
    decreases node, upto,
{
    if upto == 0 || upto > node.children.len() {
    } else {
        lemma_totals_grow(node, (upto - 1) as nat);
        lemma_totals_grow(
            node.children[upto - 1],
            node.children[upto - 1].children.len() as nat,
        );
    }
    if upto < node.children.len() {
        lemma_totals_grow(
            node.children[upto as int],
            node.children[upto as int].children.len() as nat,
        );
    }
}

/// Adds the counters of every node of the tree at `node` to `counts`, node
/// first and then its children in order; gives nothing where a sum is too
/// large for a `usize`.
pub fn checked_visit_node(node: &PlanNode, counts: ExecutionSummaryCounts) -> (sum: Option<
    ExecutionSummaryCounts,
>)
    ensures
        counts@.plus(tree_totals(*node)).fits() ==> sum is Some && sum->Some_0@ == counts@.plus(
            tree_totals(*node),
        ),
        !counts@.plus(tree_totals(*node)).fits() ==> sum is None,
    decreases node,
{
    proof {
        lemma_totals_grow(*node, 0);
    }
    let mut running = match checked_plus(counts, own_counts(&node.metrics)) {
        Some(sum) => sum,
        None => {
            proof {
                lemma_totals_reach(*node, 0);
            }
            return None;
        },
    };
    let mut i: usize = 0;
    while i < node.children.len()
        invariant
            i <= node.children.len(),
            running@ == counts@.plus(partial_totals(*node, i as nat)),
        decreases node.children.len() - i,
    {
        proof {
            lemma_totals_grow(*node, i as nat);
        }
        match checked_visit_node(&node.children[i], running) {
            Some(sum) => {
                running = sum;
            },
            None => {
                proof {
                    lemma_totals_reach(*node, (i + 1) as nat);
                }
                return None;
            },
        }
        i = i + 1;
    }
    Some(running)
}

/// What has been counted after some children is never more than the totals
/// of the whole tree.
proof fn lemma_totals_reach(node: PlanNode, upto: nat)
    requires
        upto <= node.children.len(),
    ensures
        partial_totals(node, upto).iops <= tree_totals(node).iops,
        partial_totals(node, upto).requests <= tree_totals(node).requests,
        partial_totals(node, upto).bytes_read <= tree_totals(node).bytes_read,
        partial_totals(node, upto).indices_loaded <= tree_totals(node).indices_loaded,
        partial_totals(node, upto).parts_loaded <= tree_totals(node).parts_loaded,
        partial_totals(node, upto).index_comparisons <= tree_totals(node).index_comparisons,
    decreases node.children.len() - upto,
{
    if upto < node.children.len() {
        lemma_totals_grow(node, upto);
        lemma_totals_reach(node, upto + 1);
    }
}

/// Adds the counters of every node of the tree at `node` to `counts`.
pub fn visit_node(node: &PlanNode, counts: &mut ExecutionSummaryCounts)
    requires
        old(counts)@.plus(tree_totals(*node)).fits(),
    ensures
        final(counts)@ == old(counts)@.plus(tree_totals(*node)),
{
    match checked_visit_node(node, *counts) {
        Some(sum) => {
            *counts = sum;
        },
        None => {},
    }
}

/// The summary of one run of a plan: the rows that its root produced and
/// the counters of all its nodes.
#[derive(Debug, Clone, Copy, PartialEq, Eq, Structural)]
pub struct PlanSummary {
    pub output_rows: usize,
    pub counts: ExecutionSummaryCounts,
}

/// The number of rows that the root of a plan reported, zero where it
/// reported none.
pub open spec fn root_output_rows(plan: PlanNode) -> usize {
    match plan.metrics {
        Some(m) => match m.output_rows {
            Some(rows) => rows,
            None => 0,
        },
        None => 0,
    }
}

/// Summarises an executed plan: the output rows of its root, zero where
/// unknown, and the sum of the counters of every node. Gives nothing where
/// a sum is too large for a `usize`.
pub fn report_plan_summary_metrics(plan: &PlanNode) -> (summary: Option<PlanSummary>)
    ensures
        tree_totals(*plan).fits() ==> summary is Some && summary->Some_0.output_rows
            == root_output_rows(*plan) && summary->Some_0.counts@ == tree_totals(*plan),
        !tree_totals(*plan).fits() ==> summary is None,
{
    let output_rows = match &plan.metrics {
        Some(m) => match m.output_rows {
            Some(rows) => rows,
            None => 0,
        },
        None => 0,
    };
    match checked_visit_node(plan, ExecutionSummaryCounts::default()) {
        Some(counts) => Some(PlanSummary { output_rows, counts }),
        None => None,
    }
}

/// The nodes that a depth-first walk meets: `node` first, then the whole
/// trees below its first `upto` children, in order.
pub open spec fn visited_nodes(node: PlanNode, upto: nat) -> Seq<PlanNode>
    decreases node, upto,
{
    if upto == 0 || upto > node.children.len() {
        seq![node]
    } else {
        visited_nodes(node, (upto - 1) as nat) + visited_nodes(
            node.children[upto - 1],
            node.children[upto - 1].children.len() as nat,
        )
    }
}

/// Every node of the tree at `node`, each one before its children.
pub open spec fn tree_nodes(node: PlanNode) -> Seq<PlanNode> {
    visited_nodes(node, node.children.len() as nat)
}

/// The sum of the counters that the nodes of a list hold themselves.
pub open spec fn sum_of_own_totals(nodes: Seq<PlanNode>) -> CountTotals
    decreases nodes.len(),
{
    if nodes.len() == 0 {
        CountTotals::zero()
    } else {
        sum_of_own_totals(nodes.drop_last()).plus(own_totals(nodes.last().metrics))
    }
}

/// The sum over two lists of nodes, one after the other, is the sum of
/// their sums.
proof fn lemma_sum_of_concatenation(front: Seq<PlanNode>, back: Seq<PlanNode>)
    ensures
        sum_of_own_totals(front + back) == sum_of_own_totals(front).plus(sum_of_own_totals(back)),
    decreases back.len(),
{
    if back.len() == 0 {
        assert(front + back == front);
    } else {
        assert((front + back).drop_last() == front + back.drop_last());
        assert((front + back).last() == back.last());
        lemma_sum_of_concatenation(front, back.drop_last());
    }
}

/// The totals of a tree are the sum of what each of its nodes holds itself:
/// every node is counted, and counted once.
pub proof fn lemma_totals_sum_every_node(node: PlanNode)
    ensures
        tree_totals(node) == sum_of_own_totals(tree_nodes(node)),
{
    lemma_partial_totals_sum_visited(node, node.children.len() as nat);
}

/// What has been counted after some children is the sum over the nodes
/// visited so far.
proof fn lemma_partial_totals_sum_visited(node: PlanNode, upto: nat)
    ensures
        partial_totals(node, upto) == sum_of_own_totals(visited_nodes(node, upto)),
    decreases node, upto,
{
    if upto == 0 || upto > node.children.len() {
        assert(seq![node].drop_last() == Seq::<PlanNode>::empty());
        assert(sum_of_own_totals(seq![node].drop_last()) == CountTotals::zero());
        assert(seq![node].last() == node);
    } else {
        let child = node.children[upto - 1];
        lemma_partial_totals_sum_visited(node, (upto - 1) as nat);
        lemma_partial_totals_sum_visited(child, child.children.len() as nat);
        lemma_sum_of_concatenation(
            visited_nodes(node, (upto - 1) as nat),
            visited_nodes(child, child.children.len() as nat),
        );
    }
}

} // verus!
