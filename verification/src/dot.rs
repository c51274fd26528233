//! The renderer: serializes a provenance graph into a directed-graph text
//! description, one declaration line per node and per edge.  Rendering is a
//! pure function of the graph and cannot fail; its output is specified
//! character by character.

use vstd::prelude::*;

use crate::event::{EventStepV, EventType, EventV};
use crate::graph::{EdgeV, Graph, GraphV, Node, NodeId, NodeV};
use crate::text::{
    dec_str, dec_str_signed, escape_seq, push_char, push_escaped, push_i32, push_usize,
};

verus! {

/// The display form of a node identity: `E` or `A` followed by the id.
pub open spec fn node_id_text(id: NodeId) -> Seq<char> {
    match id {
        NodeId::Execution(x) => seq!['E'] + dec_str_signed(x as int),
        NodeId::Artifact(x) => seq!['A'] + dec_str_signed(x as int),
    }
}

impl NodeId {
    /// Renders the display form, `E42` or `A7`.
    pub fn to_text(&self) -> (r: String)
        ensures
            r@ == node_id_text(*self),
    {
        let mut s = String::new();
        match self {
            NodeId::Execution(x) => {
                push_char(&mut s, 'E');
                push_i32(&mut s, *x);
            },
            NodeId::Artifact(x) => {
                push_char(&mut s, 'A');
                push_i32(&mut s, *x);
            },
        }
        proof {
            assert(s@ =~= node_id_text(*self));
        }
        s
    }
}

/// A string as it stands inside double quotes in the description: quoted and
/// escaped.
pub open spec fn quoted(s: Seq<char>) -> Seq<char> {
    seq!['"'] + escape_seq(s) + seq!['"']
}

/// Appends `t` to `s` in quoted, escaped form.
pub fn push_quoted(s: &mut String, t: &str)
    ensures
        final(s)@ == old(s)@ + quoted(t@),
{
    push_char(s, '"');
    push_escaped(s, t);
    push_char(s, '"');
    proof {
        assert(s@ =~= old(s)@ + quoted(t@));
    }
}

/// The label of a node: three lines — the id, the type name, and the two
/// event counters.
pub open spec fn node_label_text(n: NodeV) -> Seq<char> {
    match n {
        NodeV::Execution { node, inputs, outputs } => dec_str_signed(node.id) + seq!['\n']
            + node.type_label + seq!['\n'] + "in="@ + dec_str(inputs as nat) + ",out="@ + dec_str(
            outputs as nat,
        ),
        NodeV::Artifact { node, inputs, outputs } => dec_str_signed(node.id) + seq!['\n']
            + node.type_label + seq!['\n'] + "in="@ + dec_str(inputs as nat) + ",out="@ + dec_str(
            outputs as nat,
        ),
    }
}

/// The shape attribute of a node: a box for an execution, an ellipse for an
/// artifact.
pub open spec fn node_shape_text(n: NodeV) -> Seq<char> {
    match n {
        NodeV::Execution { .. } => "box"@,
        NodeV::Artifact { .. } => "ellipse"@,
    }
}

/// The deep link from a node back to the entity's detail view.
pub open spec fn node_url_text(n: NodeV) -> Seq<char> {
    match n {
        NodeV::Execution { node, .. } => "/executions/"@ + dec_str_signed(node.id),
        NodeV::Artifact { node, .. } => "/artifacts/"@ + dec_str_signed(node.id),
    }
}

impl Node {
    /// Renders the node's label attribute value.
    pub fn label(&self) -> (r: String)
        ensures
            r@ == node_label_text(self@),
    {
        let mut s = String::new();
        match self {
            Node::Execution { node, inputs, outputs } => {
                push_i32(&mut s, node.id);
                push_char(&mut s, '\n');
                s.append(node.type_label.as_str());
                push_char(&mut s, '\n');
                s.append("in=");
                push_usize(&mut s, *inputs);
                s.append(",out=");
                push_usize(&mut s, *outputs);
            },
            Node::Artifact { node, inputs, outputs } => {
                push_i32(&mut s, node.id);
                push_char(&mut s, '\n');
                s.append(node.type_label.as_str());
                push_char(&mut s, '\n');
                s.append("in=");
                push_usize(&mut s, *inputs);
                s.append(",out=");
                push_usize(&mut s, *outputs);
            },
        }
        proof {
            assert(s@ =~= node_label_text(self@));
        }
        s
    }

    /// Renders the node's URL attribute value.
    pub fn url(&self) -> (r: String)
        ensures
            r@ == node_url_text(self@),
    {
        let mut s = String::new();
        match self {
            Node::Execution { node, .. } => {
                s.append("/executions/");
                push_i32(&mut s, node.id);
            },
            Node::Artifact { node, .. } => {
                s.append("/artifacts/");
                push_i32(&mut s, node.id);
            },
        }
        proof {
            assert(s@ =~= node_url_text(self@));
        }
        s
    }

    /// Renders the node's shape attribute value.
    pub fn shape(&self) -> (r: String)
        ensures
            r@ == node_shape_text(self@),
    {
        match self {
            Node::Execution { .. } => String::from_str("box"),
            Node::Artifact { .. } => String::from_str("ellipse"),
        }
    }

    /// The node's three display attributes, each rendered as `name="value"`.
    pub fn attrs(&self) -> (r: Vec<String>)
        ensures
            r@.len() == 3,
            r@[0]@ == "label="@ + quoted(node_label_text(self@)),
            r@[1]@ == "shape="@ + quoted(node_shape_text(self@)),
            r@[2]@ == "URL="@ + quoted(node_url_text(self@)),
    {
        let mut a: Vec<String> = Vec::new();
        let mut s = String::from_str("label=");
        let label = self.label();
        push_quoted(&mut s, label.as_str());
        a.push(s);
        let mut s = String::from_str("shape=");
        let shape = self.shape();
        push_quoted(&mut s, shape.as_str());
        a.push(s);
        let mut s = String::from_str("URL=");
        let url = self.url();
        push_quoted(&mut s, url.as_str());
        a.push(s);
        a
    }
}

/// The declaration line of a node.
pub open spec fn node_line(n: NodeV) -> Seq<char> {
    node_id_text(n.id()) + "[label="@ + quoted(node_label_text(n)) + ",shape="@ + quoted(
        node_shape_text(n),
    ) + ",URL="@ + quoted(node_url_text(n)) + "]"@ + seq!['\n']
}

/// The name under which an event type appears in an edge label.
pub open spec fn event_type_text(t: EventType) -> Seq<char> {
    match t {
        EventType::Unknown => "Unknown"@,
        EventType::DeclaredOutput => "DeclaredOutput"@,
        EventType::DeclaredInput => "DeclaredInput"@,
        EventType::Input => "Input"@,
        EventType::Output => "Output"@,
        EventType::InternalInput => "InternalInput"@,
        EventType::InternalOutput => "InternalOutput"@,
    }
}

/// Appends the event type's name to `s`.
pub fn push_event_type(s: &mut String, t: EventType)
    ensures
        final(s)@ == old(s)@ + event_type_text(t),
{
    match t {
        EventType::Unknown => s.append("Unknown"),
        EventType::DeclaredOutput => s.append("DeclaredOutput"),
        EventType::DeclaredInput => s.append("DeclaredInput"),
        EventType::Input => s.append("Input"),
        EventType::Output => s.append("Output"),
        EventType::InternalInput => s.append("InternalInput"),
        EventType::InternalOutput => s.append("InternalOutput"),
    }
}

/// One step of an event path as it appears in an edge label.
pub open spec fn step_text(s: EventStepV) -> Seq<char> {
    match s {
        EventStepV::Index(x) => "Index("@ + dec_str_signed(x) + seq![')'],
        EventStepV::Key(k) => "Key("@ + quoted(k) + seq![')'],
    }
}

/// The steps of an event path, separated by `", "`.
pub open spec fn path_items(p: Seq<EventStepV>) -> Seq<char>
    decreases p.len(),
{
    if p.len() == 0 {
        Seq::empty()
    } else if p.len() == 1 {
        step_text(p.last())
    } else {
        path_items(p.drop_last()) + ", "@ + step_text(p.last())
    }
}

/// An event path as it appears in an edge label: the bracketed step list.
pub open spec fn path_text(p: Seq<EventStepV>) -> Seq<char> {
    seq!['['] + path_items(p) + seq![']']
}

/// The label of an edge: the event's type and its structural path.
pub open spec fn edge_label_text(e: EventV) -> Seq<char> {
    event_type_text(e.ty) + seq![':'] + path_text(e.path)
}

/// The declaration line of an edge.
pub open spec fn edge_line(e: EdgeV) -> Seq<char> {
    node_id_text(e.source) + " -> "@ + node_id_text(e.target) + " [label="@ + quoted(
        edge_label_text(e.event),
    ) + "];"@ + seq!['\n']
}

/// All node declaration lines, in node order.
pub open spec fn nodes_text(ns: Seq<NodeV>) -> Seq<char>
    decreases ns.len(),
{
    if ns.len() == 0 {
        Seq::empty()
    } else {
        nodes_text(ns.drop_last()) + node_line(ns.last())
    }
}

/// All edge declaration lines, in edge order.
pub open spec fn edges_text(es: Seq<EdgeV>) -> Seq<char>
    decreases es.len(),
{
    if es.len() == 0 {
        Seq::empty()
    } else {
        edges_text(es.drop_last()) + edge_line(es.last())
    }
}

/// The whole description: header, node lines, edge lines, footer.
pub open spec fn render_text(g: GraphV) -> Seq<char> {
    "digraph execution_graph {"@ + seq!['\n'] + nodes_text(g.nodes) + edges_text(g.edges) + "}"@
        + seq!['\n']
}

/// Appends an edge's label value (unquoted) to `s`.
fn push_edge_label(s: &mut String, e: &crate::graph::Edge)
    ensures
        final(s)@ == old(s)@ + edge_label_text(e.event@),
{
    push_event_type(s, e.event.ty);
    push_char(s, ':');
    push_char(s, '[');
    let ghost head = s@;
    proof {
        assert(head =~= old(s)@ + event_type_text(e.event.ty) + seq![':'] + seq!['[']);
    }
    let ghost pv = crate::event::path_view(e.event.path@);
    let mut j: usize = 0;
    while j < e.event.path.len()
        invariant
            j <= e.event.path@.len(),
            pv == crate::event::path_view(e.event.path@),
            pv.len() == e.event.path@.len(),
            s@ == head + path_items(pv.take(j as int)),
        decreases e.event.path@.len() - j,
    {
        proof {
            assert(pv.take(j + 1).drop_last() =~= pv.take(j as int));
            assert(pv.take(j + 1).last() == pv[j as int]);
            assert(pv[j as int] == e.event.path@[j as int]@);
        }
        let ghost s_pre = s@;
        if j > 0 {
            s.append(", ");
        }
        let step = &e.event.path[j];
        proof {
            assert(*step == e.event.path@[j as int]);
            assert(step@ == pv[j as int]);
        }
        match step {
            crate::event::EventStep::Index(x) => {
                s.append("Index(");
                push_i32(s, *x);
                push_char(s, ')');
            },
            crate::event::EventStep::Key(k) => {
                s.append("Key(");
                push_quoted(s, k.as_str());
                push_char(s, ')');
            },
        }
        proof {
            if j == 0 {
                assert(path_items(pv.take(1)) == step_text(pv[0]));
                assert(s@ =~= s_pre + step_text(pv[0]));
            } else {
                assert(path_items(pv.take(j + 1)) == path_items(pv.take(j as int)) + ", "@
                    + step_text(pv[j as int]));
                assert(s@ =~= s_pre + ", "@ + step_text(pv[j as int]));
            }
            assert(s@ =~= head + path_items(pv.take(j + 1)));
        }
        j = j + 1;
    }
    proof {
        assert(pv.take(pv.len() as int) =~= pv);
    }
    push_char(s, ']');
    proof {
        assert(s@ =~= old(s)@ + edge_label_text(e.event@));
    }
}

impl Graph {
    /// Serializes the graph into the directed-graph text description.
    /// Rendering performs no input or output and cannot fail.
    pub fn render(&self) -> (r: String)
        ensures
            r@ == render_text(self@),
    {
        let ghost nv = crate::graph::nodes_view(self.nodes@);
        let ghost ev = crate::graph::edges_view(self.edges@);
        let mut out = String::from_str("digraph execution_graph {");
        push_char(&mut out, '\n');
        let ghost header = out@;
        let mut i: usize = 0;
        while i < self.nodes.len()
            invariant
                i <= self.nodes@.len(),
                nv == crate::graph::nodes_view(self.nodes@),
                nv.len() == self.nodes@.len(),
                header == "digraph execution_graph {"@ + seq!['\n'],
                out@ == header + nodes_text(nv.take(i as int)),
            decreases self.nodes@.len() - i,
        {
            proof {
                assert(nv.take(i + 1).drop_last() =~= nv.take(i as int));
                assert(nv.take(i + 1).last() == nv[i as int]);
                assert(nv[i as int] == self.nodes@[i as int]@);
            }
            let node = &self.nodes[i];
            let idt = node.id().to_text();
            out.append(idt.as_str());
            out.append("[label=");
            let label = node.label();
            push_quoted(&mut out, label.as_str());
            out.append(",shape=");
            let shape = node.shape();
            push_quoted(&mut out, shape.as_str());
            out.append(",URL=");
            let url = node.url();
            push_quoted(&mut out, url.as_str());
            out.append("]");
            push_char(&mut out, '\n');
            proof {
                assert(node@.id() == self.nodes@[i as int]@.id());
                assert(out@ =~= header + nodes_text(nv.take(i + 1)));
            }
            i = i + 1;
        }
        proof {
            assert(nv.take(nv.len() as int) =~= nv);
        }
        let ghost with_nodes = out@;
        let mut k: usize = 0;
        while k < self.edges.len()
            invariant
                k <= self.edges@.len(),
                ev == crate::graph::edges_view(self.edges@),
                ev.len() == self.edges@.len(),
                with_nodes == header + nodes_text(nv),
                header == "digraph execution_graph {"@ + seq!['\n'],
                out@ == with_nodes + edges_text(ev.take(k as int)),
            decreases self.edges@.len() - k,
        {
            proof {
                assert(ev.take(k + 1).drop_last() =~= ev.take(k as int));
                assert(ev.take(k + 1).last() == ev[k as int]);
                assert(ev[k as int] == self.edges@[k as int]@);
            }
            let edge = &self.edges[k];
            let st = edge.source.to_text();
            out.append(st.as_str());
            out.append(" -> ");
            let tt = edge.target.to_text();
            out.append(tt.as_str());
            out.append(" [label=");
            let mut label = String::new();
            push_edge_label(&mut label, edge);
            push_quoted(&mut out, label.as_str());
            out.append("];");
            push_char(&mut out, '\n');
            proof {
                assert(out@ =~= with_nodes + edges_text(ev.take(k + 1)));
            }
            k = k + 1;
        }
        proof {
            assert(ev.take(ev.len() as int) =~= ev);
        }
        out.append("}");
        push_char(&mut out, '\n');
        proof {
            assert(out@ =~= render_text(self@));
        }
        out
    }
}

} // verus!
