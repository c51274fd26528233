//! The provenance graph subsystem: a bounded, deduplicated directed graph of
//! artifacts and executions, discovered from one seed node by following the
//! events recorded in the metadata store.
//!
//! The traversal is a worklist algorithm.  [`GraphBuilder`] holds the
//! traversal state and makes every decision: which node to fetch next, how to
//! classify a node's events, which neighbors to enqueue and which lineage
//! edges to record.  A driver — [`build`] against an in-memory [`Store`], or
//! an outer loop that queries a remote store — only moves data between the
//! builder and the store.  The whole traversal is pinned down by the
//! specification functions [`spec_build`] and [`spec_build_loop`].

use vstd::prelude::*;

use crate::artifact::{Artifact, ArtifactV};
use crate::event::{
    count_input_events, count_output_events, events_view, is_input_type, is_output_type,
    lemma_counts_bounded, Event, EventV,
};
use crate::execution::{Execution, ExecutionV};
use crate::store::{
    events_about, find_artifact, find_execution, find_type, Store, StoreV,
};
use crate::text::{dec_str_signed, push_i32};

verus! {

/// The ceiling on distinct nodes explored per graph build.
pub const NODE_CAP: usize = 100;

/// The identity of a graph node: a role tag plus the entity's numeric id.
/// Two node ids are equal exactly when both the tag and the id agree.
#[derive(Debug, Clone, Copy, PartialEq, Eq, Structural, Hash)]
pub enum NodeId {
    Execution(i32),
    Artifact(i32),
}

impl NodeId {
    /// Whether this id names an artifact.
    pub open spec fn is_artifact_id(self) -> bool {
        match self {
            NodeId::Artifact(_) => true,
            NodeId::Execution(_) => false,
        }
    }
}

/// A node of the provenance graph: the fetched entity plus the two counters
/// derived from the entity's own events.
#[derive(Debug)]
#[allow(inconsistent_fields)]
pub enum Node {
    Execution { node: Execution, inputs: usize, outputs: usize },
    Artifact { node: Artifact, inputs: usize, outputs: usize },
}

/// The mathematical value of a [`Node`].
#[allow(inconsistent_fields)]
pub ghost enum NodeV {
    Execution { node: ExecutionV, inputs: int, outputs: int },
    Artifact { node: ArtifactV, inputs: int, outputs: int },
}

impl NodeV {
    /// The node's identity.
    pub open spec fn id(self) -> NodeId {
        match self {
            NodeV::Execution { node, .. } => NodeId::Execution(node.id as i32),
            NodeV::Artifact { node, .. } => NodeId::Artifact(node.id as i32),
        }
    }

    /// The same node with its event counters replaced.
    pub open spec fn with_counts(self, n_in: int, n_out: int) -> NodeV {
        match self {
            NodeV::Execution { node, .. } => NodeV::Execution {
                node,
                inputs: n_in,
                outputs: n_out,
            },
            NodeV::Artifact { node, .. } => NodeV::Artifact {
                node,
                inputs: n_in,
                outputs: n_out,
            },
        }
    }
}

impl View for Node {
    type V = NodeV;

    open spec fn view(&self) -> NodeV {
        match self {
            Node::Execution { node, inputs, outputs } => NodeV::Execution {
                node: node@,
                inputs: *inputs as int,
                outputs: *outputs as int,
            },
            Node::Artifact { node, inputs, outputs } => NodeV::Artifact {
                node: node@,
                inputs: *inputs as int,
                outputs: *outputs as int,
            },
        }
    }
}

impl Node {
    /// The node's identity.
    pub fn id(&self) -> (r: NodeId)
        ensures
            r == self@.id(),
    {
        match self {
            Node::Execution { node, .. } => NodeId::Execution(node.id),
            Node::Artifact { node, .. } => NodeId::Artifact(node.id),
        }
    }

    /// Replaces the node's counters with the number of input-typed and
    /// output-typed events among `events` (the node's own events).
    pub fn set_in_out(&mut self, events: &Vec<Event>)
        ensures
            final(self)@ == old(self)@.with_counts(
                count_input_events(events_view(events@)) as int,
                count_output_events(events_view(events@)) as int,
            ),
    {
        proof {
            lemma_counts_bounded(events_view(events@));
        }
        let n_in = crate::event::count_inputs(events);
        let n_out = crate::event::count_outputs(events);
        match self {
            Node::Execution { inputs, outputs, .. } => {
                *inputs = n_in;
                *outputs = n_out;
            },
            Node::Artifact { inputs, outputs, .. } => {
                *inputs = n_in;
                *outputs = n_out;
            },
        }
    }
}

/// A directed lineage edge: `source` produced or supplied `target`, as
/// witnessed by `event`.
#[derive(Debug)]
pub struct Edge {
    pub source: NodeId,
    pub target: NodeId,
    pub event: Event,
}

/// The mathematical value of an [`Edge`].
pub ghost struct EdgeV {
    pub source: NodeId,
    pub target: NodeId,
    pub event: EventV,
}

impl View for Edge {
    type V = EdgeV;

    open spec fn view(&self) -> EdgeV {
        EdgeV { source: self.source, target: self.target, event: self.event@ }
    }
}

/// The mathematical value of a sequence of nodes.
pub open spec fn nodes_view(s: Seq<Node>) -> Seq<NodeV> {
    s.map_values(|n: Node| n@)
}

/// The mathematical value of a sequence of edges.
pub open spec fn edges_view(s: Seq<Edge>) -> Seq<EdgeV> {
    s.map_values(|e: Edge| e@)
}

/// Whether some node in `nodes` has the identity `id`.
pub open spec fn contains_node_id(nodes: Seq<NodeV>, id: NodeId) -> bool {
    exists|i: int| 0 <= i < nodes.len() && nodes[i].id() == id
}

/// A lineage edge is well formed when its endpoints have opposite roles, its
/// event names exactly the two endpoints, and the event's type points the
/// right way: output-typed into an artifact, input-typed into an execution.
pub open spec fn edge_wf(e: EdgeV) -> bool {
    match e.target {
        NodeId::Artifact(a) => match e.source {
            NodeId::Execution(x) => e.event.artifact_id == a as int && e.event.execution_id
                == x as int && is_output_type(e.event.ty),
            NodeId::Artifact(_) => false,
        },
        NodeId::Execution(x) => match e.source {
            NodeId::Artifact(a) => e.event.artifact_id == a as int && e.event.execution_id
                == x as int && is_input_type(e.event.ty),
            NodeId::Execution(_) => false,
        },
    }
}

/// The finished provenance graph: a deduplicated set of nodes, in the order
/// they were visited, and the recorded lineage edges.
#[derive(Debug)]
pub struct Graph {
    pub nodes: Vec<Node>,
    pub edges: Vec<Edge>,
}

/// The mathematical value of a [`Graph`].
pub ghost struct GraphV {
    pub nodes: Seq<NodeV>,
    pub edges: Seq<EdgeV>,
}

impl View for Graph {
    type V = GraphV;

    open spec fn view(&self) -> GraphV {
        GraphV { nodes: nodes_view(self.nodes@), edges: edges_view(self.edges@) }
    }
}

impl GraphV {
    /// The graph invariant: no more nodes than the ceiling, no two nodes with
    /// the same identity, and every edge well formed with both endpoints
    /// present in the node set.
    pub open spec fn wf(self) -> bool {
        &&& self.nodes.len() <= NODE_CAP
        &&& forall|i: int, j: int|
            0 <= i < j < self.nodes.len() ==> self.nodes[i].id() != self.nodes[j].id()
        &&& forall|k: int|
            0 <= k < self.edges.len() ==> contains_node_id(
                self.nodes,
                (#[trigger] self.edges[k]).source,
            ) && contains_node_id(self.nodes, self.edges[k].target)
        &&& forall|k: int| 0 <= k < self.edges.len() ==> edge_wf(#[trigger] self.edges[k])
    }
}

/// Why a graph build failed.
#[derive(Debug)]
pub enum GraphError {
    /// The seed or a transitively reached entity does not exist in the store.
    NotFound { id: NodeId },
    /// An entity names a type id that the store does not know: an internal
    /// inconsistency of the store.
    TypeMissing { id: NodeId, type_id: i32 },
    /// The traversal would have needed more distinct nodes than [`NODE_CAP`];
    /// no partial graph is returned.
    TooManyNodes,
    /// Any other failure reported by the store collaborator.
    StoreFailure(String),
}

/// The mathematical value of a [`GraphError`].
pub ghost enum GraphErrorV {
    NotFound { id: NodeId },
    TypeMissing { id: NodeId, type_id: int },
    TooManyNodes,
    StoreFailure(Seq<char>),
}

impl View for GraphError {
    type V = GraphErrorV;

    open spec fn view(&self) -> GraphErrorV {
        match self {
            GraphError::NotFound { id } => GraphErrorV::NotFound { id: *id },
            GraphError::TypeMissing { id, type_id } => GraphErrorV::TypeMissing {
                id: *id,
                type_id: *type_id as int,
            },
            GraphError::TooManyNodes => GraphErrorV::TooManyNodes,
            GraphError::StoreFailure(s) => GraphErrorV::StoreFailure(s@),
        }
    }
}

/// The message a failed build reports.
pub open spec fn error_message(e: GraphErrorV) -> Seq<char> {
    match e {
        GraphErrorV::NotFound { id } => match id {
            NodeId::Artifact(a) => "no such artifact: "@ + dec_str_signed(a as int),
            NodeId::Execution(x) => "no such execution: "@ + dec_str_signed(x as int),
        },
        GraphErrorV::TypeMissing { id, type_id } => match id {
            NodeId::Artifact(_) => "no such artifact type: "@ + dec_str_signed(type_id),
            NodeId::Execution(_) => "no such execution type: "@ + dec_str_signed(type_id),
        },
        GraphErrorV::TooManyNodes => "Too many executions and artifact to visualize"@,
        GraphErrorV::StoreFailure(s) => s,
    }
}

impl GraphError {
    /// Renders the error's message.
    pub fn message(&self) -> (r: String)
        ensures
            r@ == error_message(self@),
    {
        match self {
            GraphError::NotFound { id } => {
                let mut s = match id {
                    NodeId::Artifact(_) => String::from_str("no such artifact: "),
                    NodeId::Execution(_) => String::from_str("no such execution: "),
                };
                match id {
                    NodeId::Artifact(a) => push_i32(&mut s, *a),
                    NodeId::Execution(x) => push_i32(&mut s, *x),
                }
                s
            },
            GraphError::TypeMissing { id, type_id } => {
                let mut s = match id {
                    NodeId::Artifact(_) => String::from_str("no such artifact type: "),
                    NodeId::Execution(_) => String::from_str("no such execution type: "),
                };
                push_i32(&mut s, *type_id);
                s
            },
            GraphError::TooManyNodes => String::from_str(
                "Too many executions and artifact to visualize",
            ),
            GraphError::StoreFailure(s) => s.clone(),
        }
    }
}

/// The neighbor ids a single event enqueues, given the seed and the node
/// whose events are being classified.
///
/// For an artifact node, an output-typed event enqueues the producing
/// execution; when the node is itself an artifact seed, any event naming the
/// seed also enqueues its execution, without recording an edge.  For an
/// execution node the rule is the mirror image: input-typed events enqueue
/// the consumed artifact, and an execution seed additionally follows every
/// event naming itself.
pub open spec fn pushes_of(seed: NodeId, curr: NodeId, ev: EventV) -> Seq<NodeId> {
    match curr {
        NodeId::Artifact(_) => {
            let seed_hit = match seed {
                NodeId::Artifact(s) => ev.artifact_id == s as int,
                NodeId::Execution(_) => false,
            };
            if is_output_type(ev.ty) || seed_hit {
                seq![NodeId::Execution(ev.execution_id as i32)]
            } else {
                Seq::empty()
            }
        },
        NodeId::Execution(_) => {
            let seed_hit = match seed {
                NodeId::Execution(s) => ev.execution_id == s as int,
                NodeId::Artifact(_) => false,
            };
            if is_input_type(ev.ty) || seed_hit {
                seq![NodeId::Artifact(ev.artifact_id as i32)]
            } else {
                Seq::empty()
            }
        },
    }
}

/// The lineage edges a single event records: an edge into an artifact node
/// for an output-typed event, an edge into an execution node for an
/// input-typed event, nothing otherwise.
pub open spec fn edges_of(seed: NodeId, curr: NodeId, ev: EventV) -> Seq<EdgeV> {
    match curr {
        NodeId::Artifact(_) => {
            if is_output_type(ev.ty) {
                seq![
                    EdgeV { source: NodeId::Execution(ev.execution_id as i32), target: curr, event: ev },
                ]
            } else {
                Seq::empty()
            }
        },
        NodeId::Execution(_) => {
            if is_input_type(ev.ty) {
                seq![
                    EdgeV { source: NodeId::Artifact(ev.artifact_id as i32), target: curr, event: ev },
                ]
            } else {
                Seq::empty()
            }
        },
    }
}

/// All neighbor ids enqueued by a sequence of events, in event order.
pub open spec fn pushes_for_events(seed: NodeId, curr: NodeId, evs: Seq<EventV>) -> Seq<NodeId>
    decreases evs.len(),
{
    if evs.len() == 0 {
        Seq::empty()
    } else {
        pushes_for_events(seed, curr, evs.drop_last()) + pushes_of(seed, curr, evs.last())
    }
}

/// All lineage edges recorded by a sequence of events, in event order.
pub open spec fn edges_for_events(seed: NodeId, curr: NodeId, evs: Seq<EventV>) -> Seq<EdgeV>
    decreases evs.len(),
{
    if evs.len() == 0 {
        Seq::empty()
    } else {
        edges_for_events(seed, curr, evs.drop_last()) + edges_of(seed, curr, evs.last())
    }
}

/// What the entity fetcher yields for an artifact id: the record combined
/// with its type, or the error for the lookup that came up empty.
pub open spec fn spec_resolve_artifact(s: StoreV, id: int) -> Result<ArtifactV, GraphErrorV> {
    match find_artifact(s.artifacts, id) {
        Option::None => Result::Err(
            GraphErrorV::NotFound { id: NodeId::Artifact(id as i32) },
        ),
        Option::Some(rec) => match find_type(s.artifact_types, rec.type_id) {
            Option::None => Result::Err(
                GraphErrorV::TypeMissing {
                    id: NodeId::Artifact(id as i32),
                    type_id: rec.type_id,
                },
            ),
            Option::Some(ty) => Result::Ok(crate::artifact::artifact_of(ty, rec)),
        },
    }
}

/// What the entity fetcher yields for an execution id.
pub open spec fn spec_resolve_execution(s: StoreV, id: int) -> Result<ExecutionV, GraphErrorV> {
    match find_execution(s.executions, id) {
        Option::None => Result::Err(
            GraphErrorV::NotFound { id: NodeId::Execution(id as i32) },
        ),
        Option::Some(rec) => match find_type(s.execution_types, rec.type_id) {
            Option::None => Result::Err(
                GraphErrorV::TypeMissing {
                    id: NodeId::Execution(id as i32),
                    type_id: rec.type_id,
                },
            ),
            Option::Some(ty) => Result::Ok(crate::execution::execution_of(ty, rec)),
        },
    }
}

/// The completed node for `id`: the fetched entity, with its counters set
/// from the node's own events.
pub open spec fn spec_node_for(s: StoreV, id: NodeId) -> Result<NodeV, GraphErrorV> {
    let evs = events_about(s.events, id);
    match id {
        NodeId::Artifact(a) => match spec_resolve_artifact(s, a as int) {
            Result::Err(e) => Result::Err(e),
            Result::Ok(av) => Result::Ok(
                NodeV::Artifact {
                    node: av,
                    inputs: count_input_events(evs) as int,
                    outputs: count_output_events(evs) as int,
                },
            ),
        },
        NodeId::Execution(x) => match spec_resolve_execution(s, x as int) {
            Result::Err(e) => Result::Err(e),
            Result::Ok(ev) => Result::Ok(
                NodeV::Execution {
                    node: ev,
                    inputs: count_input_events(evs) as int,
                    outputs: count_output_events(evs) as int,
                },
            ),
        },
    }
}

/// One run of the worklist algorithm, written as a function of the store
/// image and the traversal state.  Pops the top of the worklist; discards it
/// if already visited; otherwise completes its node, fails if that would
/// exceed the node ceiling, and enqueues and records what the node's events
/// dictate.
pub open spec fn spec_build_loop(
    s: StoreV,
    seed: NodeId,
    stack: Seq<NodeId>,
    nodes: Seq<NodeV>,
    edges: Seq<EdgeV>,
) -> Result<GraphV, GraphErrorV>
    decreases NODE_CAP + 1 - nodes.len(), stack.len()
        when nodes.len() <= NODE_CAP
{
    if stack.len() == 0 {
        Result::Ok(GraphV { nodes, edges })
    } else {
        let curr = stack.last();
        let rest = stack.drop_last();
        if contains_node_id(nodes, curr) {
            spec_build_loop(s, seed, rest, nodes, edges)
        } else {
            match spec_node_for(s, curr) {
                Result::Err(e) => Result::Err(e),
                Result::Ok(node) => {
                    if nodes.len() >= NODE_CAP {
                        Result::Err(GraphErrorV::TooManyNodes)
                    } else {
                        let evs = events_about(s.events, curr);
                        spec_build_loop(
                            s,
                            seed,
                            rest + pushes_for_events(seed, curr, evs),
                            nodes.push(node),
                            edges + edges_for_events(seed, curr, evs),
                        )
                    }
                },
            }
        }
    }
}

/// The graph (or error) a build from `seed` yields against the store image
/// `s`.
pub open spec fn spec_build(s: StoreV, seed: NodeId) -> Result<GraphV, GraphErrorV> {
    spec_build_loop(s, seed, seq![seed], Seq::empty(), Seq::empty())
}

} // verus!
