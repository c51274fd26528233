//! What every completed build guarantees, proved once and for all over the
//! traversal's specification: the node ceiling, node deduplication, edge
//! closure, edge well-formedness, the correspondence of every edge to a real
//! stored event, and the shape of a build whose seed has no events.

use vstd::prelude::*;

use crate::event::EventV;
use crate::graph::{
    contains_node_id, edge_wf, edges_for_events, pushes_for_events, spec_build, spec_build_loop,
    spec_node_for, GraphErrorV, NodeId, NodeV, NODE_CAP,
};
use crate::store::{
    event_is_about, events_about, lemma_find_artifact_id, lemma_find_execution_id, StoreV,
};

verus! {

impl StoreV {
    /// Every event names its endpoints with ids representable as `i32`;
    /// this holds of any store image built from real records.
    pub open spec fn events_in_range(self) -> bool {
        forall|k: int|
            0 <= k < self.events.len() ==> {
                &&& i32::MIN <= (#[trigger] self.events[k]).artifact_id <= i32::MAX
                &&& i32::MIN <= self.events[k].execution_id <= i32::MAX
            }
    }
}

/// Membership in a node sequence survives appending a node, and membership
/// in the extended sequence comes from the old nodes or the new one.
proof fn lemma_contains_push(nodes: Seq<NodeV>, node: NodeV, id: NodeId)
    ensures
        contains_node_id(nodes.push(node), id) <==> (contains_node_id(nodes, id) || node.id()
            == id),
{
    if contains_node_id(nodes, id) {
        let i = choose|i: int| 0 <= i < nodes.len() && nodes[i].id() == id;
        assert(nodes.push(node)[i].id() == id);
    }
    if node.id() == id {
        assert(nodes.push(node)[nodes.len() as int].id() == id);
    }
    if contains_node_id(nodes.push(node), id) {
        let i = choose|i: int| 0 <= i < nodes.len() + 1 && nodes.push(node)[i].id() == id;
        if i < nodes.len() {
            assert(nodes[i].id() == id);
        }
    }
}

/// Every event selected for a node is one of the store's events and is
/// about that node.
proof fn lemma_events_about_elems(evs: Seq<EventV>, id: NodeId)
    ensures
        forall|k: int|
            0 <= k < events_about(evs, id).len() ==> evs.contains(
                #[trigger] events_about(evs, id)[k],
            ) && event_is_about(events_about(evs, id)[k], id),
    decreases evs.len(),
{
    if evs.len() > 0 {
        lemma_events_about_elems(evs.drop_last(), id);
        assert forall|x: EventV| evs.drop_last().contains(x) implies evs.contains(x) by {
            let i = choose|i: int| 0 <= i < evs.drop_last().len() && evs.drop_last()[i] == x;
            assert(evs[i] == x);
        }
        if event_is_about(evs.last(), id) {
            assert(evs.contains(evs.last()));
            let sel = events_about(evs, id);
            assert(sel == events_about(evs.drop_last(), id).push(evs.last()));
            assert forall|k: int| 0 <= k < sel.len() implies evs.contains(#[trigger] sel[k])
                && event_is_about(sel[k], id) by {
                if k < sel.len() - 1 {
                    assert(sel[k] == events_about(evs.drop_last(), id)[k]);
                } else {
                    assert(sel[k] == evs.last());
                }
            }
        }
    }
}

/// What the classification of a node's events yields: every recorded edge
/// points into the node, is well formed, carries one of the classified
/// events, and has its source among the enqueued neighbor ids.
proof fn lemma_classified_events(seed: NodeId, curr: NodeId, evs: Seq<EventV>)
    requires
        forall|k: int|
            0 <= k < evs.len() ==> {
                &&& event_is_about(#[trigger] evs[k], curr)
                &&& i32::MIN <= evs[k].artifact_id <= i32::MAX
                &&& i32::MIN <= evs[k].execution_id <= i32::MAX
            },
    ensures
        forall|k: int|
            0 <= k < edges_for_events(seed, curr, evs).len() ==> {
                let e = #[trigger] edges_for_events(seed, curr, evs)[k];
                &&& e.target == curr
                &&& edge_wf(e)
                &&& evs.contains(e.event)
                &&& pushes_for_events(seed, curr, evs).contains(e.source)
            },
    decreases evs.len(),
{
    if evs.len() > 0 {
        let prev = evs.drop_last();
        lemma_classified_events(seed, curr, prev);
        let e_prev = edges_for_events(seed, curr, prev);
        let p_prev = pushes_for_events(seed, curr, prev);
        let e_all = edges_for_events(seed, curr, evs);
        let p_all = pushes_for_events(seed, curr, evs);
        assert forall|x: EventV| prev.contains(x) implies evs.contains(x) by {
            let i = choose|i: int| 0 <= i < prev.len() && prev[i] == x;
            assert(evs[i] == x);
        }
        assert forall|x: NodeId| p_prev.contains(x) implies p_all.contains(x) by {
            let i = choose|i: int| 0 <= i < p_prev.len() && p_prev[i] == x;
            assert(p_all[i] == x);
        }
        assert(evs.contains(evs.last()));
        assert forall|k: int| 0 <= k < e_all.len() implies {
            let e = #[trigger] e_all[k];
            &&& e.target == curr
            &&& edge_wf(e)
            &&& evs.contains(e.event)
            &&& p_all.contains(e.source)
        } by {
            if k < e_prev.len() {
                assert(e_all[k] == e_prev[k]);
            } else {
                let last = evs.last();
                assert(event_is_about(last, curr) && i32::MIN <= last.artifact_id <= i32::MAX
                    && i32::MIN <= last.execution_id <= i32::MAX);
                assert(e_all[k] == edges_for_events(seed, curr, evs)[k]);
                assert(p_all.contains(e_all[k].source)) by {
                    assert(p_all[p_prev.len() as int] == e_all[k].source);
                }
            }
        }
    }
}

/// The inductive invariant of the worklist traversal: starting from a state
/// whose nodes are few enough, deduplicated, and whose edges are well
/// formed, closed under the nodes and worklist, and backed by stored
/// events, a completed traversal yields a well-formed graph that extends
/// the nodes, resolves every worklist entry, and keeps every edge backed
/// by a stored event about its target.
proof fn lemma_build_loop_props(
    s: StoreV,
    seed: NodeId,
    stack: Seq<NodeId>,
    nodes: Seq<NodeV>,
    edges: Seq<crate::graph::EdgeV>,
)
    requires
        s.events_in_range(),
        nodes.len() <= NODE_CAP,
        forall|i: int, j: int| 0 <= i < j < nodes.len() ==> nodes[i].id() != nodes[j].id(),
        forall|k: int|
            0 <= k < edges.len() ==> contains_node_id(nodes, (#[trigger] edges[k]).target),
        forall|k: int|
            0 <= k < edges.len() ==> contains_node_id(nodes, (#[trigger] edges[k]).source)
                || stack.contains(edges[k].source),
        forall|k: int| 0 <= k < edges.len() ==> edge_wf(#[trigger] edges[k]),
        forall|k: int|
            0 <= k < edges.len() ==> events_about(
                s.events,
                (#[trigger] edges[k]).target,
            ).contains(edges[k].event),
    ensures
        spec_build_loop(s, seed, stack, nodes, edges) matches Result::Ok(gv) ==> {
            &&& gv.wf()
            &&& nodes.len() <= gv.nodes.len()
            &&& forall|i: int| 0 <= i < nodes.len() ==> gv.nodes[i] == nodes[i]
            &&& forall|j: int|
                0 <= j < stack.len() ==> contains_node_id(gv.nodes, #[trigger] stack[j])
            &&& forall|k: int|
                0 <= k < gv.edges.len() ==> events_about(
                    s.events,
                    (#[trigger] gv.edges[k]).target,
                ).contains(gv.edges[k].event)
        },
    decreases NODE_CAP + 1 - nodes.len(), stack.len(),
{
    if stack.len() == 0 {
        assert forall|k: int| 0 <= k < edges.len() implies contains_node_id(
            nodes,
            (#[trigger] edges[k]).source,
        ) by {
            assert(!stack.contains(edges[k].source));
        }
    } else {
        let curr = stack.last();
        let rest = stack.drop_last();
        assert forall|x: NodeId| rest.contains(x) implies stack.contains(x) by {
            let i = choose|i: int| 0 <= i < rest.len() && rest[i] == x;
            assert(stack[i] == x);
        }
        if contains_node_id(nodes, curr) {
            assert forall|k: int| 0 <= k < edges.len() implies contains_node_id(
                nodes,
                (#[trigger] edges[k]).source,
            ) || rest.contains(edges[k].source) by {
                if stack.contains(edges[k].source) {
                    let i = choose|i: int| 0 <= i < stack.len() && stack[i] == edges[k].source;
                    if i < stack.len() - 1 {
                        assert(rest[i] == edges[k].source);
                    } else {
                        assert(edges[k].source == curr);
                    }
                }
            }
            lemma_build_loop_props(s, seed, rest, nodes, edges);
            match spec_build_loop(s, seed, rest, nodes, edges) {
                Result::Ok(gv) => {
                    assert forall|j: int| 0 <= j < stack.len() implies contains_node_id(
                        gv.nodes,
                        #[trigger] stack[j],
                    ) by {
                        if j < stack.len() - 1 {
                            assert(rest[j] == stack[j]);
                        } else {
                            assert(stack[j] == curr);
                            let i = choose|i: int|
                                0 <= i < nodes.len() && nodes[i].id() == curr;
                            assert(gv.nodes[i] == nodes[i]);
                        }
                    }
                },
                Result::Err(_) => {},
            }
        } else {
            match spec_node_for(s, curr) {
                Result::Err(_) => {},
                Result::Ok(node) => {
                    if nodes.len() >= NODE_CAP {
                    } else {
                        let evs = events_about(s.events, curr);
                        let new_stack = rest + pushes_for_events(seed, curr, evs);
                        let new_nodes = nodes.push(node);
                        let new_edges = edges + edges_for_events(seed, curr, evs);
                        let pushes = pushes_for_events(seed, curr, evs);
                        let added = edges_for_events(seed, curr, evs);

                        // The completed node carries the identity it was
                        // looked up by.
                        match curr {
                            NodeId::Artifact(a) => {
                                lemma_find_artifact_id(s.artifacts, a as int);
                            },
                            NodeId::Execution(x) => {
                                lemma_find_execution_id(s.executions, x as int);
                            },
                        }
                        assert(node.id() == curr);

                        lemma_events_about_elems(s.events, curr);
                        assert forall|k: int| 0 <= k < evs.len() implies {
                            &&& event_is_about(#[trigger] evs[k], curr)
                            &&& i32::MIN <= evs[k].artifact_id <= i32::MAX
                            &&& i32::MIN <= evs[k].execution_id <= i32::MAX
                        } by {
                            assert(s.events.contains(evs[k]));
                            let i = choose|i: int|
                                0 <= i < s.events.len() && s.events[i] == evs[k];
                            assert(s.events[i] == evs[k]);
                        }
                        lemma_classified_events(seed, curr, evs);

                        // The preconditions hold of the extended state.
                        assert forall|i: int, j: int|
                            0 <= i < j < new_nodes.len() implies new_nodes[i].id()
                            != new_nodes[j].id() by {
                            if j == nodes.len() {
                                if new_nodes[i].id() == curr {
                                    assert(nodes[i].id() == curr);
                                    assert(contains_node_id(nodes, curr));
                                }
                            }
                        }
                        assert forall|k: int| 0 <= k < new_edges.len() implies {
                            &&& contains_node_id(new_nodes, (#[trigger] new_edges[k]).target)
                            &&& contains_node_id(new_nodes, new_edges[k].source)
                                || new_stack.contains(new_edges[k].source)
                            &&& edge_wf(new_edges[k])
                            &&& events_about(s.events, new_edges[k].target).contains(
                                new_edges[k].event,
                            )
                        } by {
                            lemma_contains_push(nodes, node, new_edges[k].target);
                            lemma_contains_push(nodes, node, new_edges[k].source);
                            if k < edges.len() {
                                assert(new_edges[k] == edges[k]);
                                if stack.contains(edges[k].source) {
                                    let i = choose|i: int|
                                        0 <= i < stack.len() && stack[i] == edges[k].source;
                                    if i < stack.len() - 1 {
                                        assert(rest[i] == edges[k].source);
                                        assert(new_stack[i] == edges[k].source);
                                    } else {
                                        assert(edges[k].source == curr);
                                    }
                                }
                            } else {
                                let e = added[k - edges.len()];
                                assert(new_edges[k] == e);
                                assert(e.target == curr);
                                assert(pushes.contains(e.source));
                                let i = choose|i: int|
                                    0 <= i < pushes.len() && pushes[i] == e.source;
                                assert(new_stack[rest.len() + i] == e.source);
                                assert(evs.contains(e.event));
                            }
                        }
                        lemma_build_loop_props(s, seed, new_stack, new_nodes, new_edges);

                        match spec_build_loop(s, seed, new_stack, new_nodes, new_edges) {
                            Result::Ok(gv) => {
                                assert forall|j: int| 0 <= j < stack.len() implies
                                    contains_node_id(gv.nodes, #[trigger] stack[j]) by {
                                    if j < stack.len() - 1 {
                                        assert(rest[j] == stack[j]);
                                        assert(new_stack[j] == stack[j]);
                                    } else {
                                        assert(stack[j] == curr);
                                        assert(new_nodes.len() <= gv.nodes.len());
                                        assert(new_nodes[nodes.len() as int] == node);
                                        assert(gv.nodes[nodes.len() as int] == new_nodes[
                                            nodes.len() as int
                                        ]);
                                        assert(gv.nodes[nodes.len() as int].id() == curr);
                                    }
                                }
                                assert forall|i: int| 0 <= i < nodes.len() implies gv.nodes[i]
                                    == nodes[i] by {
                                    assert(gv.nodes[i] == new_nodes[i]);
                                }
                            },
                            Result::Err(_) => {},
                        }
                    }
                },
            }
        }
    }
}

/// Any store image taken of real records has its event ids in range.
pub proof fn lemma_store_events_in_range(store: &crate::store::Store)
    ensures
        store@.events_in_range(),
{
    assert forall|k: int| 0 <= k < store@.events.len() implies {
        &&& i32::MIN <= (#[trigger] store@.events[k]).artifact_id <= i32::MAX
        &&& i32::MIN <= store@.events[k].execution_id <= i32::MAX
    } by {
        assert(store@.events[k] == store.events@[k]@);
    }
}

/// Every completed build yields a well-formed graph — at most [`NODE_CAP`]
/// nodes, each identity present once, every edge well formed with both
/// endpoints in the node set — that contains the seed, and every edge
/// carries an event the store really holds about the edge's target.
pub proof fn lemma_build_properties(s: StoreV, seed: NodeId)
    requires
        s.events_in_range(),
    ensures
        spec_build(s, seed) matches Result::Ok(gv) ==> {
            &&& gv.wf()
            &&& contains_node_id(gv.nodes, seed)
            &&& forall|k: int|
                0 <= k < gv.edges.len() ==> events_about(
                    s.events,
                    (#[trigger] gv.edges[k]).target,
                ).contains(gv.edges[k].event)
        },
{
    lemma_build_loop_props(s, seed, seq![seed], Seq::empty(), Seq::empty());
    match spec_build(s, seed) {
        Result::Ok(gv) => {
            assert(seq![seed][0] == seed);
        },
        Result::Err(_) => {},
    }
}

/// A seed with no associated events yields a graph of exactly one node and
/// no edges; such a build can only fail because the seed itself does not
/// resolve.
pub proof fn lemma_build_seed_without_events(s: StoreV, seed: NodeId)
    requires
        events_about(s.events, seed).len() == 0,
    ensures
        spec_build(s, seed) matches Result::Ok(gv) ==> gv.nodes.len() == 1 && gv.edges.len()
            == 0,
        spec_build(s, seed) matches Result::Err(e) ==> spec_node_for(s, seed) matches
            Result::Err(e2) && e == e2,
{
    let stack0 = seq![seed];
    let nodes0 = Seq::<NodeV>::empty();
    let edges0 = Seq::<crate::graph::EdgeV>::empty();
    assert(stack0.last() == seed);
    assert(!contains_node_id(nodes0, seed));
    match spec_node_for(s, seed) {
        Result::Err(_) => {},
        Result::Ok(node) => {
            let evs = events_about(s.events, seed);
            assert(pushes_for_events(seed, seed, evs) =~= Seq::<NodeId>::empty());
            assert(edges_for_events(seed, seed, evs) =~= Seq::<crate::graph::EdgeV>::empty());
            assert(stack0.drop_last() =~= Seq::<NodeId>::empty());
            let new_stack = stack0.drop_last() + pushes_for_events(seed, seed, evs);
            assert(new_stack.len() == 0);
            let new_nodes = nodes0.push(node);
            let new_edges = edges0 + edges_for_events(seed, seed, evs);
            assert(new_edges =~= edges0);
            assert(spec_build_loop(s, seed, new_stack, new_nodes, new_edges)
                == Result::<crate::graph::GraphV, GraphErrorV>::Ok(
                crate::graph::GraphV { nodes: new_nodes, edges: new_edges },
            ));
        },
    }
}

} // verus!
