//! A directed dependency graph over a requested stage subset, layered by
//! Kahn-style topological sorting with whole-stranded-set cycle reporting.

use vstd::prelude::*;
use vstd::set_lib::lemma_set_subset_finite;
use vstd::set_lib::lemma_len_subset;

use crate::stage::{Stage, STAGE_COUNT, stage_index, stage_of_index, stage_at_index};
use crate::stage::{spec_default_dependencies, lemma_stage_index_bijective};

verus! {

broadcast use vstd::seq_lib::group_seq_properties;

/// Errors raised by graph construction and sorting.
#[derive(Debug, Clone, PartialEq, Eq)]
pub enum GraphError {
    /// The stages that never reached zero in-degree, in index order.
    CircularDependency(Vec<Stage>),
    /// A stage was asked about that was never registered.
    StageNotFound(Stage),
}

/// How many times `x` occurs in `s`.
spec fn occurrences(s: Seq<Stage>, x: Stage) -> nat
    decreases s.len(),
{
    if s.len() == 0 {
        0
    } else {
        occurrences(s.drop_last(), x) + if s.last() == x {
            1nat
        } else {
            0nat
        }
    }
}

proof fn lemma_occurrences_push(s: Seq<Stage>, v: Stage, x: Stage)
    ensures
        occurrences(s.push(v), x) == occurrences(s, x) + if v == x {
            1nat
        } else {
            0nat
        },
{
    assert(s.push(v).drop_last() =~= s);
}

/// A stage sequence that is strictly ascending under the fixed numbering
/// (and therefore free of duplicates).
pub open spec fn stage_seq_ordered(s: Seq<Stage>) -> bool {
    forall|i: int, j: int| 0 <= i < j < s.len() ==> stage_index(s[i]) < stage_index(s[j])
}

/// Adjacency (stage to its dependents), in-degree count per stage, and the
/// set of registered stages, each held as a table indexed by `stage_index`.
pub struct StageDependencyGraph {
    adjacency: Vec<Vec<Stage>>,
    in_degree: Vec<usize>,
    stages: Vec<bool>,
}

impl StageDependencyGraph {
    /// Whether `s` has been registered.
    pub closed spec fn spec_registered(self, s: Stage) -> bool {
        self.stages@[stage_index(s)]
    }

    /// The registered stages.
    pub open spec fn stage_set(self) -> Set<Stage> {
        Set::new(|s: Stage| self.spec_registered(s))
    }

    /// Whether an edge `from -> to` has been recorded ("`to` runs after `from`").
    pub closed spec fn has_edge(self, from: Stage, to: Stage) -> bool {
        self.adjacency@[stage_index(from)]@.contains(to)
    }

    /// The recorded in-degree count of `s`.
    pub closed spec fn spec_in_degree(self, s: Stage) -> nat {
        self.in_degree@[stage_index(s)] as nat
    }

    /// How many recorded edges point into `to` from sources numbered below `n`.
    spec fn edges_into_upto(self, to: Stage, n: int) -> nat
        decreases n,
    {
        if n <= 0 {
            0
        } else {
            self.edges_into_upto(to, n - 1) + occurrences(self.adjacency@[n - 1]@, to)
        }
    }

    /// How many recorded edges point into `to`, duplicates counted.
    spec fn edges_into(self, to: Stage) -> nat {
        self.edges_into_upto(to, STAGE_COUNT as int)
    }

    /// The tables are fully sized, mention only registered stages, and the
    /// in-degree counts agree with the recorded edges.
    pub closed spec fn wf(self) -> bool {
        &&& self.adjacency@.len() == STAGE_COUNT
        &&& self.in_degree@.len() == STAGE_COUNT
        &&& self.stages@.len() == STAGE_COUNT
        &&& forall|i: int| 0 <= i < STAGE_COUNT && self.adjacency@[i]@.len() > 0 ==> self.stages@[i]
        &&& forall|i: int, j: int|
            0 <= i < STAGE_COUNT && 0 <= j < self.adjacency@[i]@.len()
                ==> self.spec_registered(#[trigger] self.adjacency@[i]@[j])
        &&& forall|i: int|
            0 <= i < STAGE_COUNT ==> self.in_degree@[i] == self.edges_into(stage_of_index(i))
    }

    /// An empty graph: nothing registered, no edges, all in-degrees zero.
    pub fn new() -> (g: Self)
        ensures
            g.wf(),
            forall|s: Stage| !g.spec_registered(s),
            forall|u: Stage, v: Stage| !g.has_edge(u, v),
            forall|s: Stage| g.spec_in_degree(s) == 0,
    {
        let mut adjacency: Vec<Vec<Stage>> = Vec::new();
        let mut in_degree: Vec<usize> = Vec::new();
        let mut stages: Vec<bool> = Vec::new();
        let mut i: usize = 0;
        while i < STAGE_COUNT
            invariant
                i <= STAGE_COUNT,
                adjacency@.len() == i,
                in_degree@.len() == i,
                stages@.len() == i,
                forall|k: int| 0 <= k < i ==> adjacency@[k]@.len() == 0,
                forall|k: int| 0 <= k < i ==> in_degree@[k] == 0,
                forall|k: int| 0 <= k < i ==> !stages@[k],
            decreases STAGE_COUNT - i,
        {
            adjacency.push(Vec::new());
            in_degree.push(0);
            stages.push(false);
            i = i + 1;
        }
        let g = StageDependencyGraph { adjacency, in_degree, stages };
        proof {
            assert forall|k: int| 0 <= k < STAGE_COUNT implies g.in_degree@[k] == g.edges_into(
                stage_of_index(k),
            ) by {
                g.lemma_edges_into_empty(stage_of_index(k), STAGE_COUNT as int);
            }
        }
        g
    }

    proof fn lemma_edges_into_empty(self, to: Stage, n: int)
        requires
            n <= self.adjacency@.len(),
            forall|k: int| 0 <= k < self.adjacency@.len() ==> self.adjacency@[k]@.len() == 0,
        ensures
            self.edges_into_upto(to, n) == 0,
        decreases n,
    {
        if n > 0 {
            self.lemma_edges_into_empty(to, n - 1);
        }
    }

    proof fn lemma_edges_into_same(self, other: Self, to: Stage, n: int)
        requires
            forall|k: int| 0 <= k < n ==> self.adjacency@[k]@ == other.adjacency@[k]@,
        ensures
            self.edges_into_upto(to, n) == other.edges_into_upto(to, n),
        decreases n,
    {
        if n > 0 {
            self.lemma_edges_into_same(other, to, n - 1);
        }
    }

    proof fn lemma_edges_into_push(self, other: Self, u: int, v: Stage, to: Stage, n: int)
        requires
            0 <= u < self.adjacency@.len(),
            n <= self.adjacency@.len(),
            other.adjacency@ == self.adjacency@.update(u, other.adjacency@[u]),
            other.adjacency@[u]@ == self.adjacency@[u]@.push(v),
        ensures
            other.edges_into_upto(to, n) == self.edges_into_upto(to, n) + if u < n && v == to {
                1nat
            } else {
                0nat
            },
        decreases n,
    {
        if n > 0 {
            self.lemma_edges_into_push(other, u, v, to, n - 1);
            if u == n - 1 {
                lemma_occurrences_push(self.adjacency@[u]@, v, to);
            }
        }
    }

    /// Idempotent registration of a stage with zero initial in-degree.
    pub fn add_stage(&mut self, stage: Stage)
        requires
            old(self).wf(),
        ensures
            final(self).wf(),
            forall|s: Stage|
                final(self).spec_registered(s) <==> old(self).spec_registered(s) || s == stage,
            forall|u: Stage, v: Stage| final(self).has_edge(u, v) <==> old(self).has_edge(u, v),
            forall|s: Stage| final(self).spec_in_degree(s) == old(self).spec_in_degree(s),
    {
        let i = stage.index_of();
        self.stages[i] = true;
        proof {
            lemma_stage_index_bijective();
            assert forall|k: int| 0 <= k < STAGE_COUNT implies self.in_degree@[k]
                == self.edges_into(stage_of_index(k)) by {
                old(self).lemma_edges_into_same(*self, stage_of_index(k), STAGE_COUNT as int);
            }
        }
    }

    /// Records that `to` must run after `from`, registering both; each call
    /// appends to the adjacency list and accumulates `to`'s in-degree.
    pub fn add_dependency(&mut self, from: Stage, to: Stage)
        requires
            old(self).wf(),
            old(self).spec_in_degree(to) < usize::MAX,
        ensures
            final(self).wf(),
            forall|s: Stage|
                final(self).spec_registered(s) <==> old(self).spec_registered(s) || s == from || s
                    == to,
            forall|u: Stage, v: Stage|
                final(self).has_edge(u, v) <==> old(self).has_edge(u, v) || (u == from && v == to),
            final(self).spec_in_degree(to) == old(self).spec_in_degree(to) + 1,
            forall|s: Stage|
                s != to ==> final(self).spec_in_degree(s) == old(self).spec_in_degree(s),
    {
        broadcast use vstd::seq_lib::lemma_seq_contains_after_push;

        proof {
            lemma_stage_index_bijective();
        }
        self.add_stage(from);
        self.add_stage(to);
        let ghost pre = *self;
        let fi = from.index_of();
        let ti = to.index_of();

        let mut list: Vec<Stage> = Vec::new();
        let n = self.adjacency[fi].len();
        let mut k: usize = 0;
        while k < n
            invariant
                k <= n,
                *self == pre,
                fi == stage_index(from),
                n == self.adjacency@[fi as int]@.len(),
                fi < self.adjacency@.len(),
                list@ == self.adjacency@[fi as int]@.take(k as int),
            decreases n - k,
        {
            list.push(self.adjacency[fi][k]);
            proof {
                assert(self.adjacency@[fi as int]@.take(k + 1) =~= self.adjacency@[fi as int]@.take(
                    k as int,
                ).push(self.adjacency@[fi as int]@[k as int]));
            }
            k = k + 1;
        }
        proof {
            assert(self.adjacency@[fi as int]@.take(n as int) =~= self.adjacency@[fi as int]@);
        }
        list.push(to);
        self.adjacency[fi] = list;
        let d = self.in_degree[ti];
        self.in_degree[ti] = d + 1;

        proof {
            let mid = StageDependencyGraph {
                adjacency: self.adjacency,
                in_degree: pre.in_degree,
                stages: pre.stages,
            };
            assert(self.adjacency@ == pre.adjacency@.update(
                fi as int,
                self.adjacency@[fi as int],
            ));
            assert(self.adjacency@[fi as int]@ == pre.adjacency@[fi as int]@.push(to));
            assert forall|k: int| 0 <= k < STAGE_COUNT implies self.edges_into(stage_of_index(k))
                == pre.edges_into(stage_of_index(k)) + if stage_of_index(k) == to {
                1nat
            } else {
                0nat
            } by {
                pre.lemma_edges_into_push(
                    mid,
                    stage_index(from),
                    to,
                    stage_of_index(k),
                    STAGE_COUNT as int,
                );
                mid.lemma_edges_into_same(*self, stage_of_index(k), STAGE_COUNT as int);
            }
            assert forall|k: int|
                0 <= k < STAGE_COUNT implies self.in_degree@[k] == self.edges_into(
                stage_of_index(k),
            ) by {
                if k == ti as int {
                    assert(stage_of_index(k) == to);
                } else {
                    assert(stage_of_index(k) != to);
                }
            }
            assert forall|u: Stage, v: Stage|
                self.has_edge(u, v) <==> pre.has_edge(u, v) || (u == from && v == to) by {
                let ui = stage_index(u);
                if ui == stage_index(from) {
                    assert(self.adjacency@[ui]@ == pre.adjacency@[ui]@.push(to));
                } else {
                    assert(self.adjacency@[ui]@ == pre.adjacency@[ui]@);
                }
            }
            assert(self.spec_in_degree(to) == pre.spec_in_degree(to) + 1);
            assert(self.stages@ == pre.stages@);
            assert(forall|s: Stage| self.spec_registered(s) <==> pre.spec_registered(s));
            assert(forall|s: Stage|
                pre.spec_registered(s) <==> old(self).spec_registered(s) || s == from || s == to);
            assert forall|i: int|
                0 <= i < STAGE_COUNT && self.adjacency@[i]@.len() > 0 implies self.stages@[i] by {
                if i == fi as int {
                    assert(pre.spec_registered(from));
                } else {
                    assert(self.adjacency@[i]@ == pre.adjacency@[i]@);
                }
            }
            assert forall|i: int, j: int|
                0 <= i < STAGE_COUNT && 0 <= j < self.adjacency@[i]@.len() implies self.spec_registered(
                #[trigger] self.adjacency@[i]@[j],
            ) by {
                if i == fi as int {
                    if j < pre.adjacency@[i]@.len() {
                        assert(self.adjacency@[i]@[j] == pre.adjacency@[i]@[j]);
                        assert(pre.spec_registered(pre.adjacency@[i]@[j]));
                    } else {
                        assert(self.adjacency@[i]@[j] == to);
                        assert(pre.spec_registered(to));
                    }
                } else {
                    assert(self.adjacency@[i]@ == pre.adjacency@[i]@);
                    assert(forall|j2: int|
                        0 <= j2 < pre.adjacency@[i]@.len() ==> pre.spec_registered(
                            #[trigger] pre.adjacency@[i]@[j2],
                        ));
                }
            }
        }
    }

    /// A stage of `remaining` is blocked while some stage of `remaining`
    /// still has an edge into it (its in-degree has not reached zero).
    pub open spec fn blocked(self, remaining: Set<Stage>, v: Stage) -> bool {
        exists|u: Stage| remaining.contains(u) && self.has_edge(u, v)
    }

    /// The stages of `remaining` whose in-degree within `remaining` is zero.
    pub open spec fn layer_of(self, remaining: Set<Stage>) -> Set<Stage> {
        Set::new(|v: Stage| remaining.contains(v) && !self.blocked(remaining, v))
    }

    /// Kahn layering: repeatedly peel off all currently unblocked stages as
    /// one layer; succeed when nothing remains, fail with the stranded set
    /// when no progress can be made.
    #[verifier::opaque]
    pub open spec fn kahn(self, remaining: Set<Stage>) -> Result<Seq<Set<Stage>>, Set<Stage>>
        decreases remaining.len()
            when remaining.finite()
            via Self::kahn_decreases
    {
        if remaining.is_empty() {
            Ok(Seq::empty())
        } else {
            let layer = self.layer_of(remaining);
            if layer.is_empty() {
                Err(remaining)
            } else {
                match self.kahn(remaining.difference(layer)) {
                    Ok(rest) => Ok(seq![layer] + rest),
                    Err(stranded) => Err(stranded),
                }
            }
        }
    }

    #[via_fn]
    proof fn kahn_decreases(self, remaining: Set<Stage>) {
        if !remaining.is_empty() && !self.layer_of(remaining).is_empty() {
            self.lemma_layer_shrinks(remaining);
        }
    }

    proof fn lemma_layer_shrinks(self, remaining: Set<Stage>)
        requires
            remaining.finite(),
            !remaining.is_empty(),
            !self.layer_of(remaining).is_empty(),
        ensures
            remaining.difference(self.layer_of(remaining)).finite(),
            remaining.difference(self.layer_of(remaining)).len() < remaining.len(),
    {
        let layer = self.layer_of(remaining);
        let rest = remaining.difference(layer);
        assert(rest.subset_of(remaining));
        lemma_set_subset_finite(remaining, rest);
        assert(exists|x: Stage| layer.contains(x)) by {
            assert(!(layer =~= Set::<Stage>::empty()));
        }
        let v = choose|x: Stage| layer.contains(x);
        assert(remaining.contains(v));
        assert(!rest.contains(v));
        assert(rest.insert(v).subset_of(remaining));
        lemma_len_subset(rest.insert(v), remaining);
    }

    /// Builds a graph over exactly `stages`, wiring each stage's default
    /// dependencies and keeping only edges whose source is also requested.
    pub fn from_stages(stages: Vec<Stage>) -> (g: Self)
        requires
            // Machine limit: every requested stage wires at most two dependency
            // edges, and each accumulated in-degree must fit in a usize.
            2 * stages@.len() + 2 < usize::MAX,
        ensures
            g.wf(),
            forall|s: Stage| g.spec_registered(s) <==> stages@.contains(s),
            forall|u: Stage, v: Stage|
                g.has_edge(u, v) <==> stages@.contains(u) && stages@.contains(v)
                    && spec_default_dependencies(v).contains(u),
    {
        broadcast use vstd::seq_lib::lemma_seq_contains_after_push;
        broadcast use vstd::seq_lib::lemma_seq_take_contains;
        broadcast use vstd::seq_lib::lemma_seq_take_index;
        broadcast use vstd::seq_lib::lemma_seq_take_len;

        let mut g = Self::new();

        let mut i: usize = 0;
        while i < stages.len()
            invariant
                i <= stages.len(),
                g.wf(),
                forall|s: Stage| g.spec_registered(s) <==> stages@.take(i as int).contains(s),
                forall|u: Stage, v: Stage| !g.has_edge(u, v),
                forall|s: Stage| g.spec_in_degree(s) == 0,
            decreases stages.len() - i,
        {
            let ghost pre = g;
            g.add_stage(stages[i]);
            proof {
                assert forall|s: Stage|
                    g.spec_registered(s) <==> stages@.take(i + 1).contains(s) by {
                    assert(stages@.take(i + 1) =~= stages@.take(i as int).push(stages@[i as int]));
                }
            }
            i = i + 1;
        }
        proof {
            assert(stages@.take(stages@.len() as int) =~= stages@);
        }

        let mut i: usize = 0;
        while i < stages.len()
            invariant
                i <= stages.len(),
                g.wf(),
                forall|s: Stage| g.spec_registered(s) <==> stages@.contains(s),
                forall|s: Stage| g.spec_in_degree(s) <= 2 * i,
                2 * stages@.len() + 2 < usize::MAX,
                forall|u: Stage, v: Stage|
                    g.has_edge(u, v) <==> stages@.take(i as int).contains(v) && stages@.contains(u)
                        && spec_default_dependencies(v).contains(u),
            decreases stages.len() - i,
        {
            let stage = stages[i];
            let deps = stage.default_dependencies();
            let mut j: usize = 0;
            while j < deps.len()
                invariant
                    j <= deps.len(),
                    deps@.len() <= 2,
                    g.wf(),
                    deps@ == spec_default_dependencies(stage),
                    stage == stages@[i as int],
                    0 <= i < stages@.len(),
                    2 * stages@.len() + 2 < usize::MAX,
                    forall|s: Stage| g.spec_registered(s) <==> stages@.contains(s),
                    forall|s: Stage| g.spec_in_degree(s) <= 2 * i + j,
                    forall|u: Stage, v: Stage|
                        g.has_edge(u, v) <==> (stages@.take(i as int).contains(v)
                            && stages@.contains(u) && spec_default_dependencies(v).contains(u)) || (
                        v == stage && stages@.contains(u) && spec_default_dependencies(
                            stage,
                        ).take(j as int).contains(u)),
                decreases deps.len() - j,
            {
                let dep = deps[j];
                if contains_stage(&stages, dep) {
                    g.add_dependency(dep, stage);
                }
                proof {
                    assert(spec_default_dependencies(stage).take(j + 1) =~= spec_default_dependencies(
                        stage,
                    ).take(j as int).push(deps@[j as int]));
                }
                j = j + 1;
            }
            proof {
                assert(spec_default_dependencies(stage).take(deps@.len() as int)
                    =~= spec_default_dependencies(stage));
                assert forall|u: Stage, v: Stage|
                    g.has_edge(u, v) <==> stages@.take(i + 1).contains(v) && stages@.contains(u)
                        && spec_default_dependencies(v).contains(u) by {
                    assert(stages@.take(i + 1) =~= stages@.take(i as int).push(stages@[i as int]));
                }
            }
            i = i + 1;
        }
        proof {
            assert(stages@.take(stages@.len() as int) =~= stages@);
        }
        g
    }

}

/// The index of the first layer of `layers` that holds `s`
/// (`layers.len()` when none does).
pub open spec fn first_layer_with(layers: Seq<Set<Stage>>, s: Stage) -> int
    decreases layers.len(),
{
    if layers.len() == 0 {
        0
    } else if layers[0].contains(s) {
        0
    } else {
        1 + first_layer_with(layers.skip(1), s)
    }
}

proof fn lemma_first_layer_with(layers: Seq<Set<Stage>>, s: Stage)
    requires
        exists|k: int| 0 <= k < layers.len() && (#[trigger] layers[k]).contains(s),
    ensures
        0 <= first_layer_with(layers, s) < layers.len(),
        layers[first_layer_with(layers, s)].contains(s),
    decreases layers.len(),
{
    if !layers[0].contains(s) {
        let k = choose|k: int| 0 <= k < layers.len() && (#[trigger] layers[k]).contains(s);
        assert(layers.skip(1)[k - 1].contains(s));
        lemma_first_layer_with(layers.skip(1), s);
    }
}

impl StageDependencyGraph {
    /// Law: a successful sort partitions the sorted set. Every layer is a
    /// nonempty subset of the set, every stage of the set lies in some layer,
    /// and no stage lies in two layers.
    pub proof fn lemma_kahn_partition(self, remaining: Set<Stage>, layers: Seq<Set<Stage>>)
        requires
            remaining.finite(),
            self.kahn(remaining) == Ok::<Seq<Set<Stage>>, Set<Stage>>(layers),
        ensures
            forall|k: int, x: Stage|
                #![trigger layers[k].contains(x)]
                0 <= k < layers.len() && layers[k].contains(x) ==> remaining.contains(x),
            forall|s: Stage|
                #[trigger] remaining.contains(s) ==> exists|k: int|
                    0 <= k < layers.len() && (#[trigger] layers[k]).contains(s),
        decreases remaining.len(),
    {
        reveal(StageDependencyGraph::kahn);
        if remaining.is_empty() {
            assert(layers.len() == 0);
        } else {
            let layer = self.layer_of(remaining);
            let rest_set = remaining.difference(layer);
            lemma_set_subset_finite(remaining, rest_set);
            self.lemma_layer_shrinks(remaining);
            let rest = self.kahn(rest_set)->Ok_0;
            assert(self.kahn(rest_set) == Ok::<Seq<Set<Stage>>, Set<Stage>>(rest));
            self.lemma_kahn_partition(rest_set, rest);
            assert(layers.len() == 1 + rest.len());
            assert forall|k: int| 1 <= k < layers.len() implies layers[k] == rest[k - 1] by {
                assert(layers[k] == (seq![layer] + rest)[k]);
            }
            assert(layers[0] == layer);
            assert forall|k: int, x: Stage|
                0 <= k < layers.len() && #[trigger] layers[k].contains(x) implies remaining.contains(
                x,
            ) by {
                if k > 0 {
                    assert(rest[k - 1].contains(x));
                    assert(rest_set.contains(x));
                }
            }
            assert forall|s: Stage| remaining.contains(s) implies exists|k: int|
                0 <= k < layers.len() && (#[trigger] layers[k]).contains(s) by {
                if layer.contains(s) {
                    assert(layers[0].contains(s));
                } else {
                    assert(rest_set.contains(s));
                    let k = choose|k: int| 0 <= k < rest.len() && (#[trigger] rest[k]).contains(s);
                    assert(layers[k + 1].contains(s));
                }
            }
        }
    }

    /// Law: no stage lies in two layers of a successful sort.
    pub proof fn lemma_kahn_disjoint(self, remaining: Set<Stage>, layers: Seq<Set<Stage>>)
        requires
            remaining.finite(),
            self.kahn(remaining) == Ok::<Seq<Set<Stage>>, Set<Stage>>(layers),
        ensures
            forall|k1: int, k2: int, s: Stage|
                #![trigger layers[k1].contains(s), layers[k2].contains(s)]
                0 <= k1 < k2 < layers.len() && layers[k1].contains(s) ==> !layers[k2].contains(s),
        decreases remaining.len(),
    {
        reveal(StageDependencyGraph::kahn);
        if remaining.is_empty() {
            assert(layers.len() == 0);
        } else {
            let layer = self.layer_of(remaining);
            let rest_set = remaining.difference(layer);
            lemma_set_subset_finite(remaining, rest_set);
            self.lemma_layer_shrinks(remaining);
            let rest = self.kahn(rest_set)->Ok_0;
            assert(self.kahn(rest_set) == Ok::<Seq<Set<Stage>>, Set<Stage>>(rest));
            self.lemma_kahn_disjoint(rest_set, rest);
            self.lemma_kahn_partition(rest_set, rest);
            assert(layers.len() == 1 + rest.len());
            assert forall|k: int| 1 <= k < layers.len() implies layers[k] == rest[k - 1] by {
                assert(layers[k] == (seq![layer] + rest)[k]);
            }
            assert(layers[0] == layer);
            assert forall|k1: int, k2: int, s: Stage|
                0 <= k1 < k2 < layers.len() && #[trigger] layers[k1].contains(s) implies !(
            #[trigger] layers[k2].contains(s)) by {
                if layers[k2].contains(s) {
                    assert(layers[k2] == rest[k2 - 1]);
                    assert(rest[k2 - 1].contains(s));
                    assert(rest_set.contains(s));
                    if k1 == 0 {
                        assert(!layer.contains(s));
                    } else {
                        assert(layers[k1] == rest[k1 - 1]);
                    }
                }
            }
        }
    }

    /// Law: a successful sort puts the source of every dependency edge in a
    /// strictly earlier layer than its target.
    pub proof fn lemma_kahn_respects_edges(
        self,
        remaining: Set<Stage>,
        layers: Seq<Set<Stage>>,
        u: Stage,
        v: Stage,
    )
        requires
            remaining.finite(),
            self.kahn(remaining) == Ok::<Seq<Set<Stage>>, Set<Stage>>(layers),
            remaining.contains(u),
            remaining.contains(v),
            self.has_edge(u, v),
        ensures
            0 <= first_layer_with(layers, u) < first_layer_with(layers, v) < layers.len(),
            layers[first_layer_with(layers, u)].contains(u),
            layers[first_layer_with(layers, v)].contains(v),
        decreases remaining.len(),
    {
        reveal(StageDependencyGraph::kahn);
        let layer = self.layer_of(remaining);
        let rest_set = remaining.difference(layer);
        lemma_set_subset_finite(remaining, rest_set);
        self.lemma_layer_shrinks(remaining);
        self.lemma_kahn_partition(remaining, layers);
        assert(exists|k: int| 0 <= k < layers.len() && (#[trigger] layers[k]).contains(u));
        assert(exists|k: int| 0 <= k < layers.len() && (#[trigger] layers[k]).contains(v));
        lemma_first_layer_with(layers, u);
        lemma_first_layer_with(layers, v);
        let rest = self.kahn(rest_set)->Ok_0;
        assert(self.kahn(rest_set) == Ok::<Seq<Set<Stage>>, Set<Stage>>(rest));
        assert(layers =~= seq![layer] + rest);
        assert(layers[0] == layer);
        assert(self.blocked(remaining, v));
        assert(!layer.contains(v));
        if layer.contains(u) {
            assert(first_layer_with(layers, u) == 0);
            assert(first_layer_with(layers, v) != 0);
        } else {
            assert(rest_set.contains(u));
            assert(rest_set.contains(v));
            self.lemma_kahn_respects_edges(rest_set, rest, u, v);
            assert(layers.skip(1) =~= rest);
            assert(first_layer_with(layers, u) == 1 + first_layer_with(rest, u));
            assert(first_layer_with(layers, v) == 1 + first_layer_with(rest, v));
            assert(layers[first_layer_with(layers, u)] == rest[first_layer_with(rest, u)]);
            assert(layers[first_layer_with(layers, v)] == rest[first_layer_with(rest, v)]);
        }
    }

    /// Law: when sorting fails, the reported stranded set is nonempty, lies
    /// within the sorted set, and every stranded stage keeps an incoming edge
    /// from the stranded set, so its in-degree never reaches zero.
    pub proof fn lemma_kahn_stranded_blocked(self, remaining: Set<Stage>, stranded: Set<Stage>)
        requires
            remaining.finite(),
            self.kahn(remaining) == Err::<Seq<Set<Stage>>, Set<Stage>>(stranded),
        ensures
            stranded.subset_of(remaining),
            !stranded.is_empty(),
            forall|v: Stage|
                #[trigger] stranded.contains(v) ==> exists|u: Stage|
                    #[trigger] stranded.contains(u) && self.has_edge(u, v),
        decreases remaining.len(),
    {
        reveal(StageDependencyGraph::kahn);
        let layer = self.layer_of(remaining);
        if layer.is_empty() {
            assert(stranded == remaining);
            assert forall|v: Stage| stranded.contains(v) implies exists|u: Stage|
                #[trigger] stranded.contains(u) && self.has_edge(u, v) by {
                assert(!layer.contains(v));
            }
        } else {
            let rest_set = remaining.difference(layer);
            lemma_set_subset_finite(remaining, rest_set);
            self.lemma_layer_shrinks(remaining);
            self.lemma_kahn_stranded_blocked(rest_set, stranded);
        }
    }

    /// Law: any nonempty set of stages that mutually keep each other's
    /// in-degree above zero (a cycle in particular) makes the sort fail, and
    /// every such stage is reported in the stranded set.
    pub proof fn lemma_kahn_stranded_complete(self, remaining: Set<Stage>, c: Set<Stage>)
        requires
            remaining.finite(),
            c.subset_of(remaining),
            !c.is_empty(),
            forall|v: Stage|
                #[trigger] c.contains(v) ==> exists|u: Stage|
                    #[trigger] c.contains(u) && self.has_edge(u, v),
        ensures
            self.kahn(remaining) is Err,
            c.subset_of(self.kahn(remaining)->Err_0),
        decreases remaining.len(),
    {
        reveal(StageDependencyGraph::kahn);
        assert(exists|x: Stage| c.contains(x)) by {
            assert(!(c =~= Set::<Stage>::empty()));
        }
        let w = choose|x: Stage| c.contains(x);
        assert(remaining.contains(w));
        assert(!remaining.is_empty());
        let layer = self.layer_of(remaining);
        assert forall|v: Stage| c.contains(v) implies !layer.contains(v) by {
            let u = choose|u: Stage| #[trigger] c.contains(u) && self.has_edge(u, v);
            assert(remaining.contains(u));
            assert(self.blocked(remaining, v));
        }
        if layer.is_empty() {
        } else {
            let rest_set = remaining.difference(layer);
            lemma_set_subset_finite(remaining, rest_set);
            self.lemma_layer_shrinks(remaining);
            assert(c.subset_of(rest_set));
            self.lemma_kahn_stranded_complete(rest_set, c);
        }
    }
}

/// Whether `v` holds `x`, by linear scan.
pub(crate) fn contains_stage(v: &Vec<Stage>, x: Stage) -> (r: bool)
    ensures
        r == v@.contains(x),
{
    let mut i: usize = 0;
    while i < v.len()
        invariant
            i <= v.len(),
            forall|k: int| 0 <= k < i ==> v@[k] != x,
        decreases v.len() - i,
    {
        if v[i] == x {
            return true;
        }
        i = i + 1;
    }
    false
}

/// The set of stages that a length-`STAGE_COUNT` mask marks true.
pub open spec fn mask_set(m: Seq<bool>) -> Set<Stage> {
    Set::new(|s: Stage| 0 <= stage_index(s) < m.len() && m[stage_index(s)])
}

/// Every set of stages is finite: there are only `STAGE_COUNT` variants.
pub proof fn lemma_stage_set_finite(s: Set<Stage>)
    ensures
        s.finite(),
{
    let all = set![
        Stage::PreValidation,
        Stage::Configure,
        Stage::Build,
        Stage::Install,
        Stage::Clean,
        Stage::PostBuild,
        Stage::Test,
        Stage::Exec,
    ];
    assert forall|x: Stage| s.contains(x) implies all.contains(x) by {
        match x {
            Stage::PreValidation => assert(all.contains(Stage::PreValidation)),
            Stage::Configure => assert(all.contains(Stage::Configure)),
            Stage::Build => assert(all.contains(Stage::Build)),
            Stage::Install => assert(all.contains(Stage::Install)),
            Stage::Clean => assert(all.contains(Stage::Clean)),
            Stage::PostBuild => assert(all.contains(Stage::PostBuild)),
            Stage::Test => assert(all.contains(Stage::Test)),
            Stage::Exec => assert(all.contains(Stage::Exec)),
        }
    }
    assert(s.subset_of(all));
    lemma_set_subset_finite(all, s);
}

impl StageDependencyGraph {
    /// The sets that the layer vectors of a sort result stand for.
    pub open spec fn layer_sets(layers: Seq<Vec<Stage>>) -> Seq<Set<Stage>> {
        layers.map_values(|l: Vec<Stage>| l@.to_set())
    }

    /// The registered stages numbered below `n`, ascending.
    pub open spec fn stage_list_upto(self, n: int) -> Seq<Stage>
        decreases n,
    {
        if n <= 0 {
            Seq::empty()
        } else {
            self.stage_list_upto(n - 1) + if self.spec_registered(stage_of_index(n - 1)) {
                seq![stage_of_index(n - 1)]
            } else {
                Seq::empty()
            }
        }
    }

    /// The registered stages, ascending under the fixed numbering.
    pub open spec fn spec_stages(self) -> Seq<Stage> {
        self.stage_list_upto(STAGE_COUNT as int)
    }

    /// The registered stages.
    pub fn stages(&self) -> (r: Vec<Stage>)
        requires
            self.wf(),
        ensures
            r@ == self.spec_stages(),
    {
        let mut r: Vec<Stage> = Vec::new();
        let mut i: usize = 0;
        while i < STAGE_COUNT
            invariant
                i <= STAGE_COUNT,
                self.wf(),
                r@ == self.stage_list_upto(i as int),
            decreases STAGE_COUNT - i,
        {
            proof {
                lemma_stage_index_bijective();
            }
            if self.stages[i] {
                r.push(stage_at_index(i));
                proof {
                    assert(self.stage_list_upto(i + 1) =~= self.stage_list_upto(i as int) + seq![
                        stage_of_index(i as int),
                    ]);
                }
            } else {
                proof {
                    assert(self.stage_list_upto(i + 1) =~= self.stage_list_upto(i as int));
                }
            }
            i = i + 1;
        }
        r
    }

    /// The sources of the recorded edges into `s` (the stages `s` depends
    /// on) numbered below `n`, ascending.
    pub open spec fn deps_list_upto(self, s: Stage, n: int) -> Seq<Stage>
        decreases n,
    {
        if n <= 0 {
            Seq::empty()
        } else {
            self.deps_list_upto(s, n - 1) + if self.has_edge(stage_of_index(n - 1), s) {
                seq![stage_of_index(n - 1)]
            } else {
                Seq::empty()
            }
        }
    }

    /// The stages that `s` depends on, ascending under the fixed numbering.
    /// This is a function of the graph and the stage alone, so repeated
    /// lookups with no mutation in between return identical results.
    pub open spec fn spec_dependencies(self, s: Stage) -> Seq<Stage> {
        self.deps_list_upto(s, STAGE_COUNT as int)
    }

    /// Reverse lookup: all stages with an edge into `stage`, by linear scan.
    pub fn get_dependencies(&self, stage: Stage) -> (r: Vec<Stage>)
        requires
            self.wf(),
        ensures
            r@ == self.spec_dependencies(stage),
    {
        let mut r: Vec<Stage> = Vec::new();
        let mut i: usize = 0;
        while i < STAGE_COUNT
            invariant
                i <= STAGE_COUNT,
                self.wf(),
                r@ == self.deps_list_upto(stage, i as int),
            decreases STAGE_COUNT - i,
        {
            proof {
                lemma_stage_index_bijective();
            }
            if contains_stage(&self.adjacency[i], stage) {
                r.push(stage_at_index(i));
                proof {
                    assert(self.deps_list_upto(stage, i + 1) =~= self.deps_list_upto(
                        stage,
                        i as int,
                    ) + seq![stage_of_index(i as int)]);
                }
            } else {
                proof {
                    assert(self.deps_list_upto(stage, i + 1) =~= self.deps_list_upto(
                        stage,
                        i as int,
                    ));
                }
            }
            i = i + 1;
        }
        r
    }

    /// Whether any stage of `remaining` still has an edge into the stage
    /// numbered `vi`.
    fn blocked_exec(&self, remaining: &Vec<bool>, vi: usize) -> (r: bool)
        requires
            self.wf(),
            remaining@.len() == STAGE_COUNT,
            vi < STAGE_COUNT,
        ensures
            r == self.blocked(mask_set(remaining@), stage_of_index(vi as int)),
    {
        proof {
            lemma_stage_index_bijective();
        }
        let v = stage_at_index(vi);
        let mut u: usize = 0;
        while u < STAGE_COUNT
            invariant
                u <= STAGE_COUNT,
                self.wf(),
                remaining@.len() == STAGE_COUNT,
                vi < STAGE_COUNT,
                v == stage_of_index(vi as int),
                forall|j: int|
                    0 <= j < u ==> !(remaining@[j] && self.has_edge(stage_of_index(j), v)),
            decreases STAGE_COUNT - u,
        {
            if remaining[u] && contains_stage(&self.adjacency[u], v) {
                proof {
                    lemma_stage_index_bijective();
                    assert(mask_set(remaining@).contains(stage_of_index(u as int)));
                    assert(self.has_edge(stage_of_index(u as int), v));
                }
                return true;
            }
            proof {
                lemma_stage_index_bijective();
                assert(self.adjacency@[u as int] == self.adjacency@[stage_index(stage_of_index(
                    u as int,
                ))]);
            }
            u = u + 1;
        }
        proof {
            lemma_stage_index_bijective();
            assert forall|w: Stage|
                !(mask_set(remaining@).contains(w) && self.has_edge(w, v)) by {
                assert(0 <= stage_index(w) < STAGE_COUNT);
            }
        }
        false
    }
}

impl StageDependencyGraph {
    /// Collects, ascending, the stages of the mask with no incoming edge
    /// from the mask; also reports whether the mask marks anything at all.
    fn collect_unblocked(&self, remaining: &Vec<bool>) -> (r: (Vec<Stage>, bool))
        requires
            self.wf(),
            remaining@.len() == STAGE_COUNT,
        ensures
            r.0@.to_set() == self.layer_of(mask_set(remaining@)),
            stage_seq_ordered(r.0@),
            r.1 <==> !mask_set(remaining@).is_empty(),
    {
        proof {
            lemma_stage_index_bijective();
        }
        let ghost rem_set = mask_set(remaining@);
        let mut layer: Vec<Stage> = Vec::new();
        let mut any_remaining = false;
        let mut j: usize = 0;
        while j < STAGE_COUNT
            invariant
                j <= STAGE_COUNT,
                self.wf(),
                remaining@.len() == STAGE_COUNT,
                rem_set == mask_set(remaining@),
                any_remaining <==> exists|q: int| 0 <= q < j && remaining@[q],
                forall|k: int| 0 <= k < layer@.len() ==> stage_index(#[trigger] layer@[k]) < j,
                stage_seq_ordered(layer@),
                forall|k: int|
                    0 <= k < layer@.len() ==> rem_set.contains(#[trigger] layer@[k])
                        && !self.blocked(rem_set, layer@[k]),
                forall|q: int|
                    0 <= q < j && remaining@[q] && !self.blocked(rem_set, stage_of_index(q))
                        ==> layer@.contains(stage_of_index(q)),
            decreases STAGE_COUNT - j,
        {
            proof {
                lemma_stage_index_bijective();
            }
            if remaining[j] {
                any_remaining = true;
                if !self.blocked_exec(&remaining, j) {
                    let ghost old_layer = layer@;
                    layer.push(stage_at_index(j));
                    proof {
                        assert(rem_set.contains(stage_of_index(j as int)));
                        assert forall|q: int|
                            0 <= q < j + 1 && remaining@[q] && !self.blocked(
                                rem_set,
                                stage_of_index(q),
                            ) implies layer@.contains(stage_of_index(q)) by {
                            if q < j {
                                assert(old_layer.contains(stage_of_index(q)));
                                let k = choose|k: int|
                                    0 <= k < old_layer.len() && old_layer[k] == stage_of_index(q);
                                assert(layer@[k] == stage_of_index(q));
                            } else {
                                assert(layer@[layer@.len() - 1] == stage_of_index(q));
                            }
                        }
                    }
                }
            }
            j = j + 1;
        }
        proof {
            assert forall|w: Stage| #[trigger]
                layer@.to_set().contains(w) <==> self.layer_of(rem_set).contains(w) by {
                if layer@.to_set().contains(w) {
                    assert(layer@.contains(w));
                }
                if self.layer_of(rem_set).contains(w) {
                    assert(rem_set.contains(w));
                    assert(remaining@[stage_index(w)]);
                    assert(layer@.contains(stage_of_index(stage_index(w))));
                }
            }
            assert(layer@.to_set() =~= self.layer_of(rem_set));
            if any_remaining {
                let q = choose|q: int| 0 <= q < STAGE_COUNT && remaining@[q];
                assert(rem_set.contains(stage_of_index(q)));
                assert(!rem_set.is_empty());
            } else {
                assert forall|w: Stage| !rem_set.contains(w) by {
                    assert(!remaining@[stage_index(w)]);
                }
                assert(rem_set =~= Set::<Stage>::empty());
            }
        }
        (layer, any_remaining)
    }

    /// Collects the stages the mask marks, ascending.
    fn collect_marked(remaining: &Vec<bool>) -> (r: Vec<Stage>)
        requires
            remaining@.len() == STAGE_COUNT,
        ensures
            r@.to_set() == mask_set(remaining@),
            stage_seq_ordered(r@),
    {
        proof {
            lemma_stage_index_bijective();
        }
        let ghost rem_set = mask_set(remaining@);
        let mut marked: Vec<Stage> = Vec::new();
        let mut q: usize = 0;
        while q < STAGE_COUNT
            invariant
                q <= STAGE_COUNT,
                remaining@.len() == STAGE_COUNT,
                rem_set == mask_set(remaining@),
                forall|k: int| 0 <= k < marked@.len() ==> stage_index(#[trigger] marked@[k]) < q,
                stage_seq_ordered(marked@),
                forall|k: int| 0 <= k < marked@.len() ==> rem_set.contains(#[trigger] marked@[k]),
                forall|p: int| 0 <= p < q && remaining@[p] ==> marked@.contains(stage_of_index(p)),
            decreases STAGE_COUNT - q,
        {
            proof {
                lemma_stage_index_bijective();
            }
            if remaining[q] {
                let ghost old_marked = marked@;
                marked.push(stage_at_index(q));
                proof {
                    assert forall|p: int|
                        0 <= p < q + 1 && remaining@[p] implies marked@.contains(
                        stage_of_index(p),
                    ) by {
                        if p < q {
                            assert(old_marked.contains(stage_of_index(p)));
                            let k = choose|k: int|
                                0 <= k < old_marked.len() && old_marked[k] == stage_of_index(p);
                            assert(marked@[k] == stage_of_index(p));
                        } else {
                            assert(marked@[marked@.len() - 1] == stage_of_index(p));
                        }
                    }
                }
            }
            q = q + 1;
        }
        proof {
            assert forall|w: Stage| #[trigger]
                marked@.to_set().contains(w) <==> rem_set.contains(w) by {
                if marked@.to_set().contains(w) {
                    assert(marked@.contains(w));
                }
                if rem_set.contains(w) {
                    assert(remaining@[stage_index(w)]);
                    assert(marked@.contains(stage_of_index(stage_index(w))));
                }
            }
            assert(marked@.to_set() =~= rem_set);
        }
        marked
    }

    /// The mask `m` equals `base` with the stages of `cleared` unmarked.
    spec fn mask_cleared(m: Seq<bool>, base: Seq<bool>, cleared: Seq<Stage>) -> bool {
        forall|p: int|
            0 <= p < STAGE_COUNT ==> (m[p] <==> base[p] && !cleared.contains(stage_of_index(p)))
    }

    /// Unmarks every stage of `layer` in the mask.
    fn clear_marked(remaining: &mut Vec<bool>, layer: &Vec<Stage>)
        requires
            old(remaining)@.len() == STAGE_COUNT,
        ensures
            final(remaining)@.len() == STAGE_COUNT,
            mask_set(final(remaining)@) == mask_set(old(remaining)@).difference(layer@.to_set()),
    {
        proof {
            lemma_stage_index_bijective();
        }
        let ghost old_mask = remaining@;
        let mut t: usize = 0;
        while t < layer.len()
            invariant
                t <= layer@.len(),
                remaining@.len() == STAGE_COUNT,
                old_mask.len() == STAGE_COUNT,
                Self::mask_cleared(remaining@, old_mask, layer@.take(t as int)),
            decreases layer@.len() - t,
        {
            proof {
                lemma_stage_index_bijective();
            }
            let ghost pre_mask = remaining@;
            let ti = layer[t].index_of();
            remaining[ti] = false;
            let ghost tn: int = t + 1;
            proof {
                assert(remaining@ == pre_mask.update(ti as int, false));
                assert(layer@.take(tn) =~= layer@.take(t as int).push(layer@[t as int]));
                assert forall|p: int|
                    0 <= p < STAGE_COUNT implies (remaining@[p] <==> old_mask[p] && !layer@.take(
                        tn,
                    ).contains(stage_of_index(p))) by {
                    assert(Self::mask_cleared(pre_mask, old_mask, layer@.take(t as int)));
                    assert(pre_mask[p] <==> old_mask[p] && !layer@.take(t as int).contains(
                        stage_of_index(p),
                    ));
                    assert(layer@.take(tn).contains(stage_of_index(p)) <==> (stage_of_index(p)
                        == layer@[t as int] || layer@.take(t as int).contains(stage_of_index(p))));
                    if p == ti as int {
                        assert(stage_of_index(p) == layer@[t as int]);
                        assert(layer@.take(tn).contains(stage_of_index(p)));
                        assert(!remaining@[p]);
                    } else {
                        assert(stage_of_index(p) != layer@[t as int]);
                        assert(remaining@[p] == pre_mask[p]);
                    }
                }
            }
            proof {
                assert(Self::mask_cleared(remaining@, old_mask, layer@.take(tn)));
            }
            t = t + 1;
            proof {
                assert(t as int == tn);
                assert(layer@.take(t as int) == layer@.take(tn));
            }
        }
        proof {
            lemma_stage_index_bijective();
            assert(layer@.take(layer@.len() as int) =~= layer@);
            assert(Self::mask_cleared(remaining@, old_mask, layer@));
            assert forall|w: Stage| #[trigger]
                mask_set(remaining@).contains(w) <==> mask_set(old_mask).difference(
                layer@.to_set(),
            ).contains(w) by {
                assert(remaining@[stage_index(w)] <==> old_mask[stage_index(w)] && !layer@.contains(
                    w,
                ));
                assert(layer@.contains(w) <==> layer@.to_set().contains(w));
            }
            assert(mask_set(remaining@) =~= mask_set(old_mask).difference(layer@.to_set()));
        }
    }

    /// Kahn-style topological sort into maximally parallel layers. Succeeds
    /// with the exact layering of the `kahn` specification (each layer held
    /// ascending under the fixed numbering); fails with the entire stranded
    /// set when any stage's in-degree never reaches zero.
    pub fn topological_sort(&self) -> (r: Result<Vec<Vec<Stage>>, GraphError>)
        requires
            self.wf(),
        ensures
            match r {
                Ok(layers) => self.kahn(self.stage_set()) == Ok::<Seq<Set<Stage>>, Set<Stage>>(
                    Self::layer_sets(layers@),
                ) && forall|k: int|
                    0 <= k < layers@.len() ==> stage_seq_ordered(#[trigger] layers@[k]@),
                Err(e) => match e {
                    GraphError::CircularDependency(stranded) => self.kahn(self.stage_set())
                        == Err::<Seq<Set<Stage>>, Set<Stage>>(stranded@.to_set())
                        && stage_seq_ordered(stranded@),
                    GraphError::StageNotFound(_) => false,
                },
            },
    {
        proof {
            lemma_stage_index_bijective();
        }
        let mut remaining: Vec<bool> = Vec::new();
        let mut i: usize = 0;
        while i < STAGE_COUNT
            invariant
                i <= STAGE_COUNT,
                self.wf(),
                remaining@ == self.stages@.take(i as int),
            decreases STAGE_COUNT - i,
        {
            remaining.push(self.stages[i]);
            proof {
                assert(self.stages@.take(i + 1) =~= self.stages@.take(i as int).push(
                    self.stages@[i as int],
                ));
            }
            i = i + 1;
        }
        proof {
            assert(self.stages@.take(STAGE_COUNT as int) =~= self.stages@);
            assert(mask_set(remaining@) =~= self.stage_set());
        }

        let mut layers: Vec<Vec<Stage>> = Vec::new();
        loop
            invariant
                self.wf(),
                remaining@.len() == STAGE_COUNT,
                forall|k: int| 0 <= k < layers@.len() ==> stage_seq_ordered(#[trigger] layers@[k]@),
                (match self.kahn(mask_set(remaining@)) {
                    Ok(rest) => self.kahn(self.stage_set()) == Ok::<Seq<Set<Stage>>, Set<Stage>>(
                        Self::layer_sets(layers@) + rest,
                    ),
                    Err(e) => self.kahn(self.stage_set()) == Err::<Seq<Set<Stage>>, Set<Stage>>(e),
                }),
            decreases mask_set(remaining@).len(),
        {
            let ghost rem_set = mask_set(remaining@);
            proof {
                lemma_stage_set_finite(rem_set);
            }
            let (layer, any_remaining) = self.collect_unblocked(&remaining);

            if !any_remaining {
                proof {
                    reveal(StageDependencyGraph::kahn);
                    assert(self.kahn(rem_set) == Ok::<Seq<Set<Stage>>, Set<Stage>>(Seq::empty()));
                    assert(Self::layer_sets(layers@) + Seq::<Set<Stage>>::empty()
                        =~= Self::layer_sets(layers@));
                }
                return Ok(layers);
            }

            if layer.len() == 0 {
                let stranded = Self::collect_marked(&remaining);
                proof {
                    assert(self.layer_of(rem_set) =~= Set::<Stage>::empty()) by {
                        assert(layer@.to_set() =~= Set::<Stage>::empty());
                    }
                    reveal(StageDependencyGraph::kahn);
                    assert(self.kahn(rem_set) == Err::<Seq<Set<Stage>>, Set<Stage>>(rem_set));
                }
                return Err(GraphError::CircularDependency(stranded));
            }

            let ghost old_layers = layers@;
            Self::clear_marked(&mut remaining, &layer);
            let ghost layer_set = layer@.to_set();
            layers.push(layer);

            proof {
                assert(!layer_set.is_empty()) by {
                    assert(layer@.to_set().contains(layer@[0]));
                }
                assert(!rem_set.is_empty()) by {
                    assert(self.layer_of(rem_set).contains(layer@[0]));
                }
                lemma_stage_set_finite(rem_set);
                self.lemma_layer_shrinks(rem_set);
                let new_set = mask_set(remaining@);
                assert(new_set == rem_set.difference(layer_set));
                reveal(StageDependencyGraph::kahn);
                assert(self.kahn(rem_set) == (match self.kahn(new_set) {
                    Ok(rest) => Ok::<Seq<Set<Stage>>, Set<Stage>>(seq![layer_set] + rest),
                    Err(e) => Err::<Seq<Set<Stage>>, Set<Stage>>(e),
                }));
                assert(Self::layer_sets(layers@) =~= Self::layer_sets(old_layers).push(layer_set));
                match self.kahn(new_set) {
                    Ok(rest) => {
                        assert(Self::layer_sets(old_layers) + (seq![layer_set] + rest)
                            =~= Self::layer_sets(layers@) + rest);
                    },
                    Err(_) => {},
                }
            }
        }
    }
}

} // verus!
