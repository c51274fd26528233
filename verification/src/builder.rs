//! The worklist traversal that constructs a provenance graph.
//!
//! [`GraphBuilder`] is the traversal state — the worklist, the visited nodes
//! and the recorded edges — together with the three decisions the algorithm
//! makes: which node to fetch next ([`GraphBuilder::next_request`]), what a
//! fetched node and its events contribute ([`GraphBuilder::supply`]), and
//! when the traversal is complete ([`GraphBuilder::finish`]).  A driver only
//! moves data between the builder and a store; [`build`] is the driver for an
//! in-memory [`Store`] image, verified to return exactly [`spec_build`] of
//! that image.

use vstd::prelude::*;

use crate::artifact::Artifact;
use crate::event::{count_input_events, count_output_events, events_view, Event, EventV};
use crate::execution::Execution;
use crate::graph::{
    contains_node_id, edges_for_events, edges_of, edges_view, nodes_view, pushes_for_events,
    pushes_of, spec_build, spec_build_loop, spec_node_for, spec_resolve_artifact,
    spec_resolve_execution, Edge, EdgeV, Graph, GraphError, GraphErrorV, GraphV, Node, NodeId,
    NodeV, NODE_CAP,
};
use crate::store::{
    events_about, lemma_find_artifact_id, lemma_find_execution_id, Store, StoreV,
};

verus! {

/// The state of one graph build: the seed, the worklist, and the nodes and
/// edges collected so far.
#[derive(Debug)]
pub struct GraphBuilder {
    seed: NodeId,
    stack: Vec<NodeId>,
    nodes: Vec<Node>,
    edges: Vec<Edge>,
}

/// The mathematical value of a [`GraphBuilder`].
#[verifier::ext_equal]
pub ghost struct BuilderV {
    pub seed: NodeId,
    pub stack: Seq<NodeId>,
    pub nodes: Seq<NodeV>,
    pub edges: Seq<EdgeV>,
}

impl View for GraphBuilder {
    type V = BuilderV;

    closed spec fn view(&self) -> BuilderV {
        BuilderV {
            seed: self.seed,
            stack: self.stack@,
            nodes: nodes_view(self.nodes@),
            edges: edges_view(self.edges@),
        }
    }
}

impl BuilderV {
    /// The state after a node and its events have been supplied: the node is
    /// appended with its counters set, and the events' neighbor pushes and
    /// lineage edges are appended in event order.
    pub open spec fn supplied(self, node: NodeV, evs: Seq<EventV>) -> BuilderV {
        BuilderV {
            seed: self.seed,
            stack: self.stack + pushes_for_events(self.seed, node.id(), evs),
            nodes: self.nodes.push(
                node.with_counts(
                    count_input_events(evs) as int,
                    count_output_events(evs) as int,
                ),
            ),
            edges: self.edges + edges_for_events(self.seed, node.id(), evs),
        }
    }
}

impl GraphBuilder {
    /// Starts a build: the worklist holds the seed alone, nothing is visited
    /// and nothing is recorded.
    pub fn new(seed: NodeId) -> (b: GraphBuilder)
        ensures
            b@.seed == seed,
            b@.stack =~= seq![seed],
            b@.nodes =~= Seq::<NodeV>::empty(),
            b@.edges =~= Seq::<EdgeV>::empty(),
    {
        let b = GraphBuilder { seed, stack: vec![seed], nodes: Vec::new(), edges: Vec::new() };
        proof {
            assert(b@.nodes =~= Seq::<NodeV>::empty());
            assert(b@.edges =~= Seq::<EdgeV>::empty());
        }
        b
    }

    /// Whether a node with this identity has already been visited.
    pub fn has_node(&self, id: NodeId) -> (r: bool)
        ensures
            r == contains_node_id(self@.nodes, id),
    {
        let mut i: usize = 0;
        while i < self.nodes.len()
            invariant
                i <= self.nodes@.len(),
                self@.nodes.len() == self.nodes@.len(),
                forall|j: int| 0 <= j < i ==> (#[trigger] self@.nodes[j]).id() != id,
            decreases self.nodes@.len() - i,
        {
            if self.nodes[i].id() == id {
                proof {
                    assert(self@.nodes[i as int] == self.nodes@[i as int]@);
                }
                return true;
            }
            proof {
                assert(self@.nodes[i as int] == self.nodes@[i as int]@);
            }
            i = i + 1;
        }
        false
    }

    /// Pops worklist entries until one names an unvisited node and returns
    /// it, or returns `None` once the worklist is exhausted.  Everything
    /// discarded on the way was already visited.
    pub fn next_request(&mut self) -> (r: Option<NodeId>)
        ensures
            final(self)@.seed == old(self)@.seed,
            final(self)@.nodes == old(self)@.nodes,
            final(self)@.edges == old(self)@.edges,
            match r {
                Option::None => {
                    &&& final(self)@.stack.len() == 0
                    &&& forall|j: int|
                        0 <= j < old(self)@.stack.len() ==> contains_node_id(
                            old(self)@.nodes,
                            #[trigger] old(self)@.stack[j],
                        )
                },
                Option::Some(id) => {
                    &&& !contains_node_id(old(self)@.nodes, id)
                    &&& exists|i: int|
                        {
                            &&& 0 <= i < old(self)@.stack.len()
                            &&& #[trigger] old(self)@.stack[i] == id
                            &&& final(self)@.stack == old(self)@.stack.take(i)
                            &&& forall|j: int|
                                i < j < old(self)@.stack.len() ==> contains_node_id(
                                    old(self)@.nodes,
                                    #[trigger] old(self)@.stack[j],
                                )
                        }
                },
            },
    {
        loop
            invariant
                self.seed == old(self).seed,
                self.nodes@ == old(self).nodes@,
                self.edges@ == old(self).edges@,
                self.stack@.len() <= old(self)@.stack.len(),
                self.stack@ == old(self)@.stack.take(self.stack@.len() as int),
                forall|j: int|
                    self.stack@.len() <= j < old(self)@.stack.len() ==> contains_node_id(
                        old(self)@.nodes,
                        #[trigger] old(self)@.stack[j],
                    ),
            decreases self.stack@.len(),
        {
            match self.stack.pop() {
                Option::None => {
                    return Option::None;
                },
                Option::Some(id) => {
                    proof {
                        assert(self.stack@ =~= old(self)@.stack.take(self.stack@.len() as int));
                    }
                    if !self.has_node(id) {
                        proof {
                            let i = self.stack@.len() as int;
                            assert(old(self)@.stack[i] == id);
                        }
                        return Option::Some(id);
                    }
                },
            }
        }
    }

    /// Records the completed node for an unvisited identity: sets the node's
    /// counters from its events, appends it, and enqueues and records what
    /// each event dictates.  Fails with `TooManyNodes` when the node would
    /// be the `NODE_CAP + 1`-th distinct node; the state is then unchanged.
    pub fn supply(&mut self, node: Node, events: &Vec<Event>) -> (r: Result<(), GraphError>)
        requires
            !contains_node_id(old(self)@.nodes, node@.id()),
        ensures
            match r {
                Result::Ok(_) => {
                    &&& old(self)@.nodes.len() < NODE_CAP
                    &&& final(self)@ == old(self)@.supplied(node@, events_view(events@))
                },
                Result::Err(e) => {
                    &&& old(self)@.nodes.len() >= NODE_CAP
                    &&& e@ == GraphErrorV::TooManyNodes
                    &&& final(self)@ == old(self)@
                },
            },
    {
        if self.nodes.len() >= NODE_CAP {
            return Result::Err(GraphError::TooManyNodes);
        }
        let ghost evs = events_view(events@);
        let ghost seedv = self.seed;
        let mut node = node;
        node.set_in_out(events);
        let curr = node.id();
        self.nodes.push(node);
        let mut i: usize = 0;
        proof {
            assert(self.stack@ =~= old(self)@.stack + pushes_for_events(
                seedv,
                curr,
                evs.take(0),
            ));
            assert(edges_view(self.edges@) =~= old(self)@.edges + edges_for_events(
                seedv,
                curr,
                evs.take(0),
            ));
        }
        while i < events.len()
            invariant
                i <= events@.len(),
                evs == events_view(events@),
                evs.len() == events@.len(),
                self.seed == seedv,
                self.nodes@ == old(self).nodes@.push(node),
                self.stack@ == old(self)@.stack + pushes_for_events(seedv, curr, evs.take(i as int)),
                edges_view(self.edges@) =~= old(self)@.edges + edges_for_events(
                    seedv,
                    curr,
                    evs.take(i as int),
                ),
            decreases events@.len() - i,
        {
            proof {
                assert(evs.take(i + 1).drop_last() =~= evs.take(i as int));
                assert(evs.take(i + 1).last() == evs[i as int]);
                assert(evs[i as int] == events@[i as int]@);
            }
            let ghost stack_pre = self.stack@;
            let ghost edges_pre = self.edges@;
            let ghost evi = evs[i as int];
            let ev = &events[i];
            match curr {
                NodeId::Artifact(_) => {
                    let seed_hit = match self.seed {
                        NodeId::Artifact(s) => ev.artifact_id == s,
                        NodeId::Execution(_) => false,
                    };
                    let out = ev.ty.is_output();
                    if out || seed_hit {
                        let nid = NodeId::Execution(ev.execution_id);
                        self.stack.push(nid);
                        proof {
                            assert(pushes_of(seedv, curr, evi) =~= seq![nid]);
                            assert(self.stack@ =~= stack_pre + pushes_of(seedv, curr, evi));
                        }
                        if out {
                            let e = Edge { source: nid, target: curr, event: ev.clone() };
                            proof {
                                assert(e@ == EdgeV { source: nid, target: curr, event: evi });
                                assert(edges_of(seedv, curr, evi) =~= seq![e@]);
                            }
                            self.edges.push(e);
                            proof {
                                assert(edges_view(self.edges@) =~= edges_view(edges_pre)
                                    + edges_of(seedv, curr, evi));
                            }
                        } else {
                            proof {
                                assert(edges_of(seedv, curr, evi) =~= Seq::<EdgeV>::empty());
                                assert(edges_view(self.edges@) =~= edges_view(edges_pre)
                                    + edges_of(seedv, curr, evi));
                            }
                        }
                    } else {
                        proof {
                            assert(pushes_of(seedv, curr, evi) =~= Seq::<NodeId>::empty());
                            assert(self.stack@ =~= stack_pre + pushes_of(seedv, curr, evi));
                            assert(edges_of(seedv, curr, evi) =~= Seq::<EdgeV>::empty());
                            assert(edges_view(self.edges@) =~= edges_view(edges_pre) + edges_of(
                                seedv,
                                curr,
                                evi,
                            ));
                        }
                    }
                },
                NodeId::Execution(_) => {
                    let seed_hit = match self.seed {
                        NodeId::Execution(s) => ev.execution_id == s,
                        NodeId::Artifact(_) => false,
                    };
                    let inp = ev.ty.is_input();
                    if inp || seed_hit {
                        let nid = NodeId::Artifact(ev.artifact_id);
                        self.stack.push(nid);
                        proof {
                            assert(pushes_of(seedv, curr, evi) =~= seq![nid]);
                            assert(self.stack@ =~= stack_pre + pushes_of(seedv, curr, evi));
                        }
                        if inp {
                            let e = Edge { source: nid, target: curr, event: ev.clone() };
                            proof {
                                assert(e@ == EdgeV { source: nid, target: curr, event: evi });
                                assert(edges_of(seedv, curr, evi) =~= seq![e@]);
                            }
                            self.edges.push(e);
                            proof {
                                assert(edges_view(self.edges@) =~= edges_view(edges_pre)
                                    + edges_of(seedv, curr, evi));
                            }
                        } else {
                            proof {
                                assert(edges_of(seedv, curr, evi) =~= Seq::<EdgeV>::empty());
                                assert(edges_view(self.edges@) =~= edges_view(edges_pre)
                                    + edges_of(seedv, curr, evi));
                            }
                        }
                    } else {
                        proof {
                            assert(pushes_of(seedv, curr, evi) =~= Seq::<NodeId>::empty());
                            assert(self.stack@ =~= stack_pre + pushes_of(seedv, curr, evi));
                            assert(edges_of(seedv, curr, evi) =~= Seq::<EdgeV>::empty());
                            assert(edges_view(self.edges@) =~= edges_view(edges_pre) + edges_of(
                                seedv,
                                curr,
                                evi,
                            ));
                        }
                    }
                },
            }
            proof {
                assert(self.stack@ =~= old(self)@.stack + pushes_for_events(
                    seedv,
                    curr,
                    evs.take(i + 1),
                ));
                assert(edges_view(self.edges@) =~= old(self)@.edges + edges_for_events(
                    seedv,
                    curr,
                    evs.take(i + 1),
                ));
            }
            i = i + 1;
        }
        proof {
            assert(evs.take(evs.len() as int) =~= evs);
            assert(nodes_view(self.nodes@) =~= old(self)@.nodes.push(
                node@,
            ));
            assert(self@ =~= old(self)@.supplied(
                Node::view(&node).with_counts(
                    count_input_events(evs) as int,
                    count_output_events(evs) as int,
                ),
                evs,
            ));
        }
        Result::Ok(())
    }

    /// Finishes the build once the worklist is empty.
    pub fn finish(self) -> (g: Graph)
        requires
            self@.stack.len() == 0,
        ensures
            g@.nodes == self@.nodes,
            g@.edges == self@.edges,
    {
        Graph { nodes: self.nodes, edges: self.edges }
    }
}

/// Resolves an artifact id to its display-ready entity: the record lookup,
/// then the type lookup, then the combination — the entity fetcher.
pub fn resolve_artifact(store: &Store, id: i32) -> (r: Result<Artifact, GraphError>)
    ensures
        match (r, spec_resolve_artifact(store@, id as int)) {
            (Result::Ok(a), Result::Ok(av)) => a@ == av,
            (Result::Err(e), Result::Err(ev)) => e@ == ev,
            _ => false,
        },
{
    let rec = match store.artifact_by_id(id) {
        Option::None => {
            return Result::Err(GraphError::NotFound { id: NodeId::Artifact(id) });
        },
        Option::Some(rec) => rec,
    };
    let ty = match store.artifact_type_by_id(rec.type_id) {
        Option::None => {
            return Result::Err(
                GraphError::TypeMissing { id: NodeId::Artifact(id), type_id: rec.type_id },
            );
        },
        Option::Some(ty) => ty,
    };
    Result::Ok(Artifact::from_parts(ty, rec))
}

/// Resolves an execution id to its display-ready entity — the entity fetcher
/// for the execution role.
pub fn resolve_execution(store: &Store, id: i32) -> (r: Result<Execution, GraphError>)
    ensures
        match (r, spec_resolve_execution(store@, id as int)) {
            (Result::Ok(e), Result::Ok(ev)) => e@ == ev,
            (Result::Err(e), Result::Err(ev)) => e@ == ev,
            _ => false,
        },
{
    let rec = match store.execution_by_id(id) {
        Option::None => {
            return Result::Err(GraphError::NotFound { id: NodeId::Execution(id) });
        },
        Option::Some(rec) => rec,
    };
    let ty = match store.execution_type_by_id(rec.type_id) {
        Option::None => {
            return Result::Err(
                GraphError::TypeMissing { id: NodeId::Execution(id), type_id: rec.type_id },
            );
        },
        Option::Some(ty) => ty,
    };
    Result::Ok(Execution::from_parts(ty, rec))
}

/// Discarding already-visited worklist entries does not change what the
/// traversal yields.
proof fn lemma_drop_visited(
    s: StoreV,
    seed: NodeId,
    stack: Seq<NodeId>,
    nodes: Seq<NodeV>,
    edges: Seq<EdgeV>,
    n: int,
)
    requires
        nodes.len() <= NODE_CAP,
        0 <= n <= stack.len(),
        forall|j: int| n <= j < stack.len() ==> contains_node_id(nodes, #[trigger] stack[j]),
    ensures
        spec_build_loop(s, seed, stack, nodes, edges) == spec_build_loop(
            s,
            seed,
            stack.take(n),
            nodes,
            edges,
        ),
    decreases stack.len() - n,
{
    if n < stack.len() {
        assert(contains_node_id(nodes, stack[stack.len() - 1]));
        assert(stack.drop_last() =~= stack.take(stack.len() - 1));
        lemma_drop_visited(s, seed, stack.take(stack.len() - 1), nodes, edges, n);
        assert(stack.take(stack.len() - 1).take(n) =~= stack.take(n));
    } else {
        assert(stack.take(n) =~= stack);
    }
}

/// Builds the provenance graph seeded at `seed` against the in-memory store
/// image `store`.  The result — graph or error — is exactly what
/// [`spec_build`] prescribes.
pub fn build(store: &Store, seed: NodeId) -> (r: Result<Graph, GraphError>)
    ensures
        match (r, spec_build(store@, seed)) {
            (Result::Ok(g), Result::Ok(gv)) => g@ == gv,
            (Result::Err(e), Result::Err(ev)) => e@ == ev,
            _ => false,
        },
        r matches Result::Ok(g) ==> {
            &&& g@.wf()
            &&& contains_node_id(g@.nodes, seed)
            &&& forall|k: int|
                0 <= k < g@.edges.len() ==> events_about(
                    store@.events,
                    (#[trigger] g@.edges[k]).target,
                ).contains(g@.edges[k].event)
        },
        events_about(store@.events, seed).len() == 0 ==> (r matches Result::Ok(g) ==> g@.nodes.len()
            == 1 && g@.edges.len() == 0),
{
    let mut b = GraphBuilder::new(seed);
    proof {
        assert(spec_build_loop(store@, seed, b@.stack, b@.nodes, b@.edges) == spec_build(
            store@,
            seed,
        ));
    }
    loop
        invariant
            b@.seed == seed,
            b@.nodes.len() <= NODE_CAP,
            spec_build_loop(store@, seed, b@.stack, b@.nodes, b@.edges) == spec_build(
                store@,
                seed,
            ),
        decreases NODE_CAP + 1 - b@.nodes.len(),
    {
        let ghost pre = b@;
        match b.next_request() {
            Option::None => {
                proof {
                    lemma_drop_visited(store@, seed, pre.stack, pre.nodes, pre.edges, 0);
                    assert(pre.stack.take(0) =~= Seq::<NodeId>::empty());
                    assert(spec_build_loop(store@, seed, b@.stack, b@.nodes, b@.edges)
                        == Result::<GraphV, GraphErrorV>::Ok(GraphV { nodes: b@.nodes, edges: b@.edges }));
                }
                let g = b.finish();
                proof {
                    assert(g@ =~= GraphV { nodes: g@.nodes, edges: g@.edges });
                    crate::laws::lemma_store_events_in_range(store);
                    crate::laws::lemma_build_properties(store@, seed);
                    if events_about(store@.events, seed).len() == 0 {
                        crate::laws::lemma_build_seed_without_events(store@, seed);
                    }
                }
                return Result::Ok(g);
            },
            Option::Some(curr) => {
                proof {
                    let i = choose|i: int|
                        {
                            &&& 0 <= i < pre.stack.len()
                            &&& #[trigger] pre.stack[i] == curr
                            &&& b@.stack == pre.stack.take(i)
                            &&& forall|j: int|
                                i < j < pre.stack.len() ==> contains_node_id(
                                    pre.nodes,
                                    #[trigger] pre.stack[j],
                                )
                        };
                    lemma_drop_visited(store@, seed, pre.stack, pre.nodes, pre.edges, i + 1);
                    assert(pre.stack.take(i + 1).last() == curr);
                    assert(pre.stack.take(i + 1).drop_last() =~= pre.stack.take(i));
                }
                // The spec loop now stands at the branch for the unvisited
                // node `curr`: resolve it, fail, or supply it.
                let node = match curr {
                    NodeId::Artifact(id) => {
                        match resolve_artifact(store, id) {
                            Result::Ok(a) => Node::Artifact { node: a, inputs: 0, outputs: 0 },
                            Result::Err(e) => {
                                return Result::Err(e);
                            },
                        }
                    },
                    NodeId::Execution(id) => {
                        match resolve_execution(store, id) {
                            Result::Ok(x) => Node::Execution { node: x, inputs: 0, outputs: 0 },
                            Result::Err(e) => {
                                return Result::Err(e);
                            },
                        }
                    },
                };
                let events = store.events_for(curr);
                proof {
                    match curr {
                        NodeId::Artifact(id) => lemma_find_artifact_id(store@.artifacts, id as int),
                        NodeId::Execution(id) => lemma_find_execution_id(
                            store@.executions,
                            id as int,
                        ),
                    }
                    assert(node@.id() == curr);
                    assert(events_view(events@) == events_about(store@.events, curr));
                }
                match b.supply(node, &events) {
                    Result::Ok(_) => {
                        proof {
                            let evs = events_about(store@.events, curr);
                            let specnode = spec_node_for(store@, curr)->Ok_0;
                            assert(node@.with_counts(
                                count_input_events(evs) as int,
                                count_output_events(evs) as int,
                            ) == specnode);
                        }
                    },
                    Result::Err(e) => {
                        return Result::Err(e);
                    },
                }
            },
        }
    }
}

} // verus!
