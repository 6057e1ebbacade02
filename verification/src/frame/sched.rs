//! The scheduler: consumes a finished frame graph and produces a linear
//! execution order that honors every dependency edge. Ties between ready
//! tasks are broken deterministically toward the smallest task id, so runs
//! are reproducible; both optimization profiles use this order.

use vstd::prelude::*;

use crate::frame::graph::DependencyEdge;
use crate::frame::graph::FrameGraph;
use crate::frame::graph::TaskId;

verus! {

/// The optimization goal handed to the scheduler.
#[derive(Copy, Clone, Debug, PartialEq, Eq, Structural)]
pub enum ScheduleOptimizationProfile {
    /// No particular bias.
    Standard,
    /// Bias the order toward short, non-overlapping lifetimes of transient
    /// resources, so that more of them can share backing memory.
    MaximizeAliasing,
}

impl Default for ScheduleOptimizationProfile {
    /// The default profile applies no particular bias.
    fn default() -> (r: Self)
        ensures
            r == ScheduleOptimizationProfile::Standard,
    {
        ScheduleOptimizationProfile::Standard
    }
}

/// Every edge endpoint names a task below `n`.
pub open spec fn spec_edges_bounded(n: int, es: Seq<DependencyEdge>) -> bool {
    forall|k: int| 0 <= k < es.len() ==> (#[trigger] es[k]).src < n && es[k].dst < n
}

/// For every edge, the source task stands strictly before the destination
/// task in the order.
pub open spec fn spec_dependencies_respected(es: Seq<DependencyEdge>, order: Seq<TaskId>) -> bool {
    forall|i: int, j: int, k: int|
        #![trigger order[i], order[j], es[k]]
        0 <= i < order.len() && 0 <= j < order.len() && 0 <= k < es.len() && order[i] == es[k].src
            && order[j] == es[k].dst ==> i < j
}

/// `order` is a valid execution order for `n` tasks under the edges `es`:
/// it lists every task exactly once, and places the source of every edge
/// strictly before its destination.
pub open spec fn spec_valid_schedule(n: int, es: Seq<DependencyEdge>, order: Seq<TaskId>) -> bool {
    &&& order.len() == n
    &&& forall|i: int| 0 <= i < order.len() ==> (#[trigger] order[i]) < n
    &&& forall|i: int, j: int|
        #![trigger order[i], order[j]]
        0 <= i < j < order.len() ==> order[i] != order[j]
    &&& forall|t: TaskId| t < n ==> #[trigger] order.contains(t)
    &&& spec_dependencies_respected(es, order)
}

/// Some valid execution order exists: the graph is acyclic.
pub open spec fn spec_schedulable(n: int, es: Seq<DependencyEdge>) -> bool {
    exists|order: Seq<TaskId>| spec_valid_schedule(n, es, order)
}

/// Task `t` is ready under the marks `sch`: the source of every edge into
/// `t` is already marked.
pub open spec fn spec_ready(es: Seq<DependencyEdge>, sch: Seq<bool>, t: int) -> bool {
    forall|m: int|
        0 <= m < es.len() && (#[trigger] es[m]).dst == t ==> sch[es[m].src as int]
}

/// The deterministic tie-break: whenever a task smaller than the one
/// scheduled at step `k` was still unscheduled, some edge into it had an
/// unscheduled source.
pub open spec fn spec_greedy_minimal(es: Seq<DependencyEdge>, order: Seq<TaskId>) -> bool {
    forall|k: int, t: TaskId|
        #![trigger order[k], order.take(k).contains(t)]
        0 <= k < order.len() && t < order[k] && !order.take(k).contains(t) ==> exists|m: int|
            0 <= m < es.len() && (#[trigger] es[m]).dst == t && !order.take(k).contains(es[m].src)
}

/// How many entries of `s` are true.
pub open spec fn count_true(s: Seq<bool>) -> int
    decreases s.len(),
{
    if s.len() == 0 {
        0
    } else {
        count_true(s.drop_last()) + if s.last() {
            1int
        } else {
            0int
        }
    }
}

proof fn lemma_count_true_bounds(s: Seq<bool>)
    ensures
        0 <= count_true(s) <= s.len(),
    decreases s.len(),
{
    if s.len() > 0 {
        lemma_count_true_bounds(s.drop_last());
    }
}

/// Marking one unmarked entry raises the count by one.
proof fn lemma_count_true_update(s: Seq<bool>, i: int)
    requires
        0 <= i < s.len(),
        !s[i],
    ensures
        count_true(s.update(i, true)) == count_true(s) + 1,
    decreases s.len(),
{
    if i == s.len() - 1 {
        assert(s.update(i, true).drop_last() =~= s.drop_last());
    } else {
        assert(s.update(i, true).drop_last() =~= s.drop_last().update(i, true));
        lemma_count_true_update(s.drop_last(), i);
    }
}

/// When every entry counts, every entry is true.
proof fn lemma_count_true_full(s: Seq<bool>)
    requires
        count_true(s) == s.len(),
    ensures
        forall|i: int| 0 <= i < s.len() ==> s[i],
    decreases s.len(),
{
    if s.len() > 0 {
        lemma_count_true_bounds(s.drop_last());
        lemma_count_true_full(s.drop_last());
        assert forall|i: int| 0 <= i < s.len() implies s[i] by {
            if i < s.len() - 1 {
                assert(s.drop_last()[i]);
            }
        }
    }
}

/// The least position at or before `p` whose task is unmarked.
proof fn lemma_first_unmarked(o: Seq<TaskId>, sch: Seq<bool>, p: int) -> (i: int)
    requires
        0 <= p < o.len(),
        forall|q: int| 0 <= q < o.len() ==> (#[trigger] o[q]) < sch.len(),
        !sch[o[p] as int],
    ensures
        0 <= i <= p,
        !sch[o[i] as int],
        forall|j: int| 0 <= j < i ==> sch[#[trigger] o[j] as int],
    decreases p,
{
    if exists|q: int| 0 <= q < p && !sch[#[trigger] o[q] as int] {
        let q = choose|q: int| 0 <= q < p && !sch[#[trigger] o[q] as int];
        lemma_first_unmarked(o, sch, q)
    } else {
        p
    }
}

/// When the scheduler is stuck — some task is unmarked, and every unmarked
/// task has an edge into it from an unmarked task — no valid execution
/// order exists: take a valid order, look at its earliest unmarked task;
/// the unmarked source of some edge into it would have to stand both
/// before and not before it.
proof fn lemma_stuck_unschedulable(
    n: int,
    es: Seq<DependencyEdge>,
    sch: Seq<bool>,
    o: Seq<TaskId>,
)
    requires
        sch.len() == n,
        spec_edges_bounded(n, es),
        exists|t: int| 0 <= t < n && !sch[t],
        forall|t: int| 0 <= t < n && !(#[trigger] sch[t]) ==> !spec_ready(es, sch, t),
    ensures
        !spec_valid_schedule(n, es, o),
{
    if spec_valid_schedule(n, es, o) {
        let t0 = choose|t: int| 0 <= t < n && !sch[t];
        assert(o.contains(t0 as usize));
        let p0 = choose|p: int| 0 <= p < o.len() && o[p] == t0 as usize;
        let i = lemma_first_unmarked(o, sch, p0);
        let t = o[i];
        assert(!spec_ready(es, sch, t as int));
        assert(exists|m: int|
            0 <= m < es.len() && (#[trigger] es[m]).dst == t as int && !sch[es[m].src as int]);
        let m = choose|m: int|
            0 <= m < es.len() && (#[trigger] es[m]).dst == t as int && !sch[es[m].src as int];
        let s = es[m].src;
        assert(o.contains(s));
        let j = choose|j: int| 0 <= j < o.len() && o[j] == s;
        assert(j < i);
        assert(sch[o[j] as int]);
        assert(false);
    }
}

impl FrameGraph {
    fn task_ready(&self, sch: &Vec<bool>, t: TaskId) -> (r: bool)
        requires
            self.wf(),
            sch@.len() == self.spec_tasks().len(),
            t < self.spec_tasks().len(),
        ensures
            r == spec_ready(self.spec_edges(), sch@, t as int),
    {
        let m = self.edge_count();
        let mut k: usize = 0;
        while k < m
            invariant
                self.wf(),
                sch@.len() == self.spec_tasks().len(),
                m == self.spec_edges().len(),
                0 <= k <= m,
                forall|q: int|
                    0 <= q < k && (#[trigger] self.spec_edges()[q]).dst == t as int ==> sch@[self.spec_edges()[q].src as int],
            decreases m - k,
        {
            let e = self.edge(k);
            if e.dst == t {
                if !sch[e.src] {
                    return false;
                }
            }
            k = k + 1;
        }
        true
    }

    fn find_ready(&self, sch: &Vec<bool>) -> (r: Option<TaskId>)
        requires
            self.wf(),
            sch@.len() == self.spec_tasks().len(),
        ensures
            match r {
                Some(f) => f < self.spec_tasks().len() && !sch@[f as int] && spec_ready(
                    self.spec_edges(),
                    sch@,
                    f as int,
                ) && forall|u: int|
                    0 <= u < f ==> sch@[u] || !spec_ready(self.spec_edges(), sch@, u),
                None => forall|u: int|
                    0 <= u < self.spec_tasks().len() ==> sch@[u] || !spec_ready(
                        self.spec_edges(),
                        sch@,
                        u,
                    ),
            },
    {
        let n = self.task_count();
        let mut t: usize = 0;
        while t < n
            invariant
                self.wf(),
                sch@.len() == self.spec_tasks().len(),
                n == self.spec_tasks().len(),
                0 <= t <= n,
                forall|u: int| 0 <= u < t ==> sch@[u] || !spec_ready(self.spec_edges(), sch@, u),
            decreases n - t,
        {
            if !sch[t] {
                if self.task_ready(sch, t) {
                    return Some(t);
                }
            }
            t = t + 1;
        }
        None
    }

    /// Produces a linear execution order for the graph, or `None` when the
    /// dependencies are cyclic and no such order exists.
    ///
    /// The returned order is a valid topological order: every task appears
    /// exactly once, and for every edge the source task comes strictly
    /// before the destination task. Among the tasks that are ready at each
    /// step the one with the smallest id runs first, so the order is
    /// deterministic; both optimization profiles share it.
    pub fn schedule(&self, _profile: ScheduleOptimizationProfile) -> (r: Option<Vec<TaskId>>)
        requires
            self.wf(),
        ensures
            r is Some <==> spec_schedulable(
                self.spec_tasks().len() as int,
                self.spec_edges(),
            ),
            r is Some ==> spec_valid_schedule(
                self.spec_tasks().len() as int,
                self.spec_edges(),
                r->Some_0@,
            ) && spec_greedy_minimal(self.spec_edges(), r->Some_0@),
    {
        let ghost es = self.spec_edges();
        let n = self.task_count();
        let mut sch: Vec<bool> = Vec::new();
        while sch.len() < n
            invariant
                sch@.len() <= n,
                forall|i: int| 0 <= i < sch@.len() ==> !(#[trigger] sch@[i]),
            decreases n - sch@.len(),
        {
            sch.push(false);
        }
        proof {
            lemma_count_true_all_false(sch@);
        }
        let mut order: Vec<TaskId> = Vec::new();
        while order.len() < n
            invariant
                self.wf(),
                es == self.spec_edges(),
                n == self.spec_tasks().len(),
                sch@.len() == n,
                order@.len() <= n,
                count_true(sch@) == order@.len(),
                forall|t: TaskId| t < n ==> ((#[trigger] sch@[t as int]) <==> order@.contains(t)),
                forall|j: int| 0 <= j < order@.len() ==> (#[trigger] order@[j]) < n,
                forall|i: int, j: int|
                    #![trigger order@[i], order@[j]]
                    0 <= i < j < order@.len() ==> order@[i] != order@[j],
                forall|j: int, k: int|
                    #![trigger order@[j], es[k]]
                    0 <= j < order@.len() && 0 <= k < es.len() && es[k].dst == order@[j]
                        ==> exists|i: int| 0 <= i < j && order@[i] == es[k].src,
                spec_greedy_minimal(es, order@),
            decreases n - order@.len(),
        {
            match self.find_ready(&sch) {
                Some(t) => {
                    let ghost sch0 = sch@;
                    let ghost order0 = order@;
                    sch[t] = true;
                    order.push(t);
                    proof {
                        lemma_count_true_update(sch0, t as int);
                        assert(order@.drop_last() =~= order0);
                        // Marks still mirror membership.
                        assert forall|u: TaskId| u < n implies ((#[trigger] sch@[u as int])
                            <==> order@.contains(u)) by {
                            if sch@[u as int] {
                                if u == t {
                                    assert(order@[order0.len() as int] == t);
                                } else {
                                    assert(sch0[u as int]);
                                    let w = choose|w: int| 0 <= w < order0.len() && order0[w] == u;
                                    assert(order@[w] == u);
                                }
                            }
                            if order@.contains(u) {
                                let w = choose|w: int| 0 <= w < order@.len() && order@[w] == u;
                                if w < order0.len() {
                                    assert(order0[w] == u);
                                    assert(order0.contains(u));
                                }
                            }
                        }
                        // Earlier prefixes are unchanged by the push.
                        assert forall|k: int| 0 <= k <= order0.len() implies order@.take(k)
                            =~= order0.take(k) by {}
                        // Every predecessor of the new task is already placed.
                        assert forall|k: int|
                            0 <= k < es.len() && es[k].dst == order@[order0.len() as int]
                                implies exists|i: int|
                                0 <= i < order0.len() && order@[i] == es[k].src by {
                            assert(sch0[es[k].src as int]);
                            assert(order0.contains(es[k].src));
                            let w = choose|w: int|
                                0 <= w < order0.len() && order0[w] == es[k].src;
                            assert(order@[w] == es[k].src);
                        }
                        // Every step, the old ones and the new one, obeys
                        // the greedy tie-break.
                        assert(order@[order0.len() as int] == t);
                        assert forall|k: int, u: TaskId|
                            0 <= k < order@.len() && u < order@[k] && !order@.take(k).contains(u)
                                implies exists|m: int|
                                0 <= m < es.len() && (#[trigger] es[m]).dst == u && !order@.take(
                                    k,
                                ).contains(es[m].src) by {
                            if k < order0.len() {
                                assert(order@[k] == order0[k]);
                                assert(order@.take(k) =~= order0.take(k));
                                assert(!order0.take(k).contains(u));
                                let m = choose|m: int|
                                    0 <= m < es.len() && (#[trigger] es[m]).dst == u && !order0
                                        .take(k).contains(es[m].src);
                                assert(!order@.take(k).contains(es[m].src));
                            } else {
                                assert(order@.take(k) =~= order0);
                                assert(!order0.contains(u));
                                assert(!sch0[u as int]);
                                assert(!spec_ready(es, sch0, u as int));
                                let m = choose|m: int|
                                    0 <= m < es.len() && (#[trigger] es[m]).dst == u as int
                                        && !sch0[es[m].src as int];
                                assert(es[m].dst == u);
                                assert(!order0.contains(es[m].src));
                                assert(!order@.take(k).contains(es[m].src));
                            }
                        }
                    }
                },
                None => {
                    proof {
                        lemma_count_true_bounds(sch@);
                        // Some task is still unmarked.
                        assert(exists|t: int| 0 <= t < n && !sch@[t]) by {
                            if forall|t: int| 0 <= t < n ==> #[trigger] sch@[t] {
                                lemma_count_true_all_marked(sch@);
                            }
                        }
                        assert forall|o: Seq<TaskId>| !spec_valid_schedule(
                            n as int,
                            es,
                            o,
                        ) by {
                            lemma_stuck_unschedulable(n as int, es, sch@, o);
                        }
                    }
                    return None;
                },
            }
        }
        proof {
            lemma_count_true_full(sch@);
            assert forall|t: TaskId| t < n implies #[trigger] order@.contains(t) by {
                assert(sch@[t as int]);
            }
            assert(order@.len() == n);
            // Dependency edges are respected: the source's placement found
            // by the prefix invariant is the source's unique position.
            assert forall|i: int, j: int, k: int|
                #![trigger order@[i], order@[j], es[k]]
                0 <= i < order@.len() && 0 <= j < order@.len() && 0 <= k < es.len() && order@[i]
                    == es[k].src && order@[j] == es[k].dst implies i < j by {
                let w = choose|w: int| 0 <= w < j && order@[w] == es[k].src;
                assert(order@[w] == order@[i]);
                if i != w {
                    assert(order@[i] != order@[w]);
                }
            }
            assert(spec_valid_schedule(n as int, es, order@));
        }
        Some(order)
    }
}

/// A freshly initialized mark vector counts zero.
proof fn lemma_count_true_all_false(s: Seq<bool>)
    requires
        forall|i: int| 0 <= i < s.len() ==> !(#[trigger] s[i]),
    ensures
        count_true(s) == 0,
    decreases s.len(),
{
    if s.len() > 0 {
        assert forall|i: int| 0 <= i < s.drop_last().len() implies !(
        #[trigger] s.drop_last()[i]) by {
            assert(!s[i]);
        }
        lemma_count_true_all_false(s.drop_last());
    }
}

/// A fully marked vector counts its whole length.
proof fn lemma_count_true_all_marked(s: Seq<bool>)
    requires
        forall|i: int| 0 <= i < s.len() ==> #[trigger] s[i],
    ensures
        count_true(s) == s.len(),
    decreases s.len(),
{
    if s.len() > 0 {
        assert forall|i: int| 0 <= i < s.drop_last().len() implies #[trigger] s.drop_last()[i] by {
            assert(s[i]);
        }
        lemma_count_true_all_marked(s.drop_last());
    }
}

} // verus!
