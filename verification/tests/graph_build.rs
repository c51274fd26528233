use weih::artifact::{Artifact, ArtifactRecord, ArtifactState, ArtifactTypeSummary};
use weih::builder::{build, resolve_artifact, GraphBuilder};
use weih::event::{Event, EventStep, EventType};
use weih::execution::{ExecutionRecord, ExecutionState};
use weih::export::{export_outcome, RenderedOutput};
use weih::graph::{Edge, Graph, GraphError, Node, NodeId};
use weih::property::{PropertyValue, TypeRecord};
use weih::store::Store;

fn artifact_record(id: i32, type_id: i32) -> ArtifactRecord {
    ArtifactRecord {
        id,
        type_id,
        name: None,
        uri: None,
        state: ArtifactState::Live,
        ctime: 0,
        mtime: 0,
        properties: Vec::new(),
        custom_properties: Vec::new(),
    }
}

fn execution_record(id: i32, type_id: i32) -> ExecutionRecord {
    ExecutionRecord {
        id,
        type_id,
        name: None,
        state: ExecutionState::Complete,
        ctime: 0,
        mtime: 0,
        properties: Vec::new(),
        custom_properties: Vec::new(),
    }
}

fn type_record(id: i32, name: &str) -> TypeRecord {
    TypeRecord { id, name: name.to_string(), properties: Vec::new() }
}

fn event(artifact_id: i32, execution_id: i32, ty: EventType) -> Event {
    Event { artifact_id, execution_id, ty, path: Vec::new(), time: 0 }
}

fn empty_store() -> Store {
    Store {
        artifacts: Vec::new(),
        executions: Vec::new(),
        artifact_types: Vec::new(),
        execution_types: Vec::new(),
        events: Vec::new(),
    }
}

fn node_ids(g: &Graph) -> Vec<NodeId> {
    g.nodes.iter().map(|n| n.id()).collect()
}

#[test]
fn seed_without_events_yields_single_node() {
    let mut store = empty_store();
    store.artifacts.push(artifact_record(1, 5));
    store.artifact_types.push(type_record(5, "DataSet"));
    let g = build(&store, NodeId::Artifact(1)).unwrap();
    assert_eq!(g.nodes.len(), 1);
    assert_eq!(g.edges.len(), 0);
    assert_eq!(g.nodes[0].id(), NodeId::Artifact(1));
}

#[test]
fn execution_seed_without_events_yields_single_node() {
    let mut store = empty_store();
    store.executions.push(execution_record(4, 9));
    store.execution_types.push(type_record(9, "Train"));
    let g = build(&store, NodeId::Execution(4)).unwrap();
    assert_eq!(g.nodes.len(), 1);
    assert_eq!(g.edges.len(), 0);
    assert_eq!(g.nodes[0].id(), NodeId::Execution(4));
}

#[test]
fn missing_seed_fails_with_not_found() {
    let store = empty_store();
    let r = build(&store, NodeId::Artifact(7));
    match r {
        Err(GraphError::NotFound { id }) => assert_eq!(id, NodeId::Artifact(7)),
        other => panic!("unexpected result: {:?}", other),
    }
}

#[test]
fn missing_type_fails_with_type_missing() {
    let mut store = empty_store();
    store.artifacts.push(artifact_record(1, 5));
    let r = build(&store, NodeId::Artifact(1));
    match r {
        Err(GraphError::TypeMissing { id, type_id }) => {
            assert_eq!(id, NodeId::Artifact(1));
            assert_eq!(type_id, 5);
        },
        other => panic!("unexpected result: {:?}", other),
    }
}

#[test]
fn missing_neighbor_fails_with_not_found() {
    let mut store = empty_store();
    store.artifacts.push(artifact_record(1, 5));
    store.artifact_types.push(type_record(5, "DataSet"));
    store.events.push(event(1, 2, EventType::Output));
    let r = build(&store, NodeId::Artifact(1));
    match r {
        Err(GraphError::NotFound { id }) => assert_eq!(id, NodeId::Execution(2)),
        other => panic!("unexpected result: {:?}", other),
    }
}

/// A build that fits exactly inside the node ceiling succeeds with all
/// nodes present.
#[test]
fn hundred_nodes_succeed() {
    let mut store = empty_store();
    store.artifacts.push(artifact_record(1, 5));
    store.artifact_types.push(type_record(5, "DataSet"));
    store.execution_types.push(type_record(9, "Train"));
    for e in 1..=99 {
        store.executions.push(execution_record(e, 9));
        store.events.push(event(1, e, EventType::Output));
    }
    let g = build(&store, NodeId::Artifact(1)).unwrap();
    assert_eq!(g.nodes.len(), 100);
    assert_eq!(g.edges.len(), 99);
}

/// A build that would need a 101st distinct node fails, and no partial
/// graph comes back.
#[test]
fn too_many_nodes_fails() {
    let mut store = empty_store();
    store.artifacts.push(artifact_record(1, 5));
    store.artifact_types.push(type_record(5, "DataSet"));
    store.execution_types.push(type_record(9, "Train"));
    for e in 1..=100 {
        store.executions.push(execution_record(e, 9));
        store.events.push(event(1, e, EventType::Output));
    }
    let r = build(&store, NodeId::Artifact(1));
    match r {
        Err(GraphError::TooManyNodes) => {},
        other => panic!("unexpected result: {:?}", other),
    }
}

/// An execution that produces an artifact and, through a separately
/// recorded event, also consumes it must not loop the traversal.
#[test]
fn cyclic_events_terminate() {
    let mut store = empty_store();
    store.artifacts.push(artifact_record(1, 5));
    store.executions.push(execution_record(1, 9));
    store.artifact_types.push(type_record(5, "DataSet"));
    store.execution_types.push(type_record(9, "Train"));
    store.events.push(event(1, 1, EventType::Output));
    store.events.push(event(1, 1, EventType::Input));
    let g = build(&store, NodeId::Artifact(1)).unwrap();
    let mut ids = node_ids(&g);
    ids.sort_by_key(|id| match id {
        NodeId::Execution(x) => (0, *x),
        NodeId::Artifact(x) => (1, *x),
    });
    assert_eq!(ids, vec![NodeId::Execution(1), NodeId::Artifact(1)]);
    assert_eq!(g.edges.len(), 2);
}

/// The three-node lineage scenario: the seed artifact, its producer, and
/// the artifact the producer consumed.
#[test]
fn artifact_seed_lineage() {
    let mut store = empty_store();
    store.artifacts.push(artifact_record(1, 5));
    store.artifacts.push(artifact_record(10, 5));
    store.executions.push(execution_record(1, 9));
    store.artifact_types.push(type_record(5, "Data"));
    store.execution_types.push(type_record(9, "Train"));
    store.events.push(event(1, 1, EventType::Output));
    store.events.push(event(10, 1, EventType::Input));

    let g = build(&store, NodeId::Artifact(1)).unwrap();

    assert_eq!(node_ids(&g), vec![NodeId::Artifact(1), NodeId::Execution(1), NodeId::Artifact(10)]);

    assert_eq!(g.edges.len(), 2);
    assert_eq!(g.edges[0].source, NodeId::Execution(1));
    assert_eq!(g.edges[0].target, NodeId::Artifact(1));
    assert_eq!(g.edges[0].event.ty, EventType::Output);
    assert_eq!(g.edges[1].source, NodeId::Artifact(10));
    assert_eq!(g.edges[1].target, NodeId::Execution(1));
    assert_eq!(g.edges[1].event.ty, EventType::Input);

    // Counters, taken from each node's own events.
    match &g.nodes[0] {
        Node::Artifact { node, inputs, outputs } => {
            assert_eq!(node.id, 1);
            assert_eq!((*inputs, *outputs), (0, 1));
        },
        other => panic!("unexpected node: {:?}", other),
    }
    match &g.nodes[1] {
        Node::Execution { node, inputs, outputs } => {
            assert_eq!(node.id, 1);
            assert_eq!((*inputs, *outputs), (1, 1));
        },
        other => panic!("unexpected node: {:?}", other),
    }
    match &g.nodes[2] {
        Node::Artifact { node, inputs, outputs } => {
            assert_eq!(node.id, 10);
            assert_eq!((*inputs, *outputs), (1, 0));
        },
        other => panic!("unexpected node: {:?}", other),
    }
}

/// Every edge's endpoints are nodes of the graph, and each node id appears
/// only once however often the traversal reaches it.
#[test]
fn edges_closed_and_nodes_deduplicated() {
    let mut store = empty_store();
    store.artifacts.push(artifact_record(1, 5));
    store.artifacts.push(artifact_record(2, 5));
    store.executions.push(execution_record(1, 9));
    store.executions.push(execution_record(2, 9));
    store.artifact_types.push(type_record(5, "Data"));
    store.execution_types.push(type_record(9, "Train"));
    // Both executions produced the seed; both consumed artifact 2.
    store.events.push(event(1, 1, EventType::Output));
    store.events.push(event(1, 2, EventType::DeclaredOutput));
    store.events.push(event(2, 1, EventType::Input));
    store.events.push(event(2, 2, EventType::InternalInput));

    let g = build(&store, NodeId::Artifact(1)).unwrap();
    let ids = node_ids(&g);
    for (i, a) in ids.iter().enumerate() {
        for (j, b) in ids.iter().enumerate() {
            if i != j {
                assert_ne!(a, b);
            }
        }
    }
    for edge in &g.edges {
        assert!(ids.contains(&edge.source));
        assert!(ids.contains(&edge.target));
    }
    assert_eq!(ids.len(), 4);
    assert_eq!(g.edges.len(), 4);
}

/// A consuming execution of the seed artifact is explored even though the
/// seed's own visit records no edge for it; the consumption edge appears
/// only once the execution itself is visited.
#[test]
fn seed_consumers_explored_without_edge() {
    let mut store = empty_store();
    store.artifacts.push(artifact_record(1, 5));
    store.executions.push(execution_record(3, 9));
    store.artifact_types.push(type_record(5, "Data"));
    store.execution_types.push(type_record(9, "Eval"));
    store.events.push(event(1, 3, EventType::Input));
    let g = build(&store, NodeId::Artifact(1)).unwrap();
    let ids = node_ids(&g);
    assert!(ids.contains(&NodeId::Execution(3)));
    assert_eq!(g.edges.len(), 1);
    assert_eq!(g.edges[0].source, NodeId::Artifact(1));
    assert_eq!(g.edges[0].target, NodeId::Execution(3));
    assert_eq!(g.edges[0].event.ty, EventType::Input);
}

/// A non-seed artifact does not follow the executions that merely consumed
/// it.
#[test]
fn non_seed_artifact_keeps_only_producers() {
    let mut store = empty_store();
    store.artifacts.push(artifact_record(1, 5));
    store.artifacts.push(artifact_record(2, 5));
    store.executions.push(execution_record(1, 9));
    store.executions.push(execution_record(7, 9));
    store.artifact_types.push(type_record(5, "Data"));
    store.execution_types.push(type_record(9, "Train"));
    store.events.push(event(1, 1, EventType::Output));
    store.events.push(event(2, 1, EventType::Input));
    // Execution 7 consumed artifact 2; from an artifact-1 seed this must
    // stay invisible.
    store.events.push(event(2, 7, EventType::Input));
    let g = build(&store, NodeId::Artifact(1)).unwrap();
    assert!(!node_ids(&g).contains(&NodeId::Execution(7)));
}

/// The mirror rule of an execution seed: output events push the produced
/// artifact without an edge; input events record edges.
#[test]
fn execution_seed_lineage() {
    let mut store = empty_store();
    store.artifacts.push(artifact_record(1, 5));
    store.artifacts.push(artifact_record(2, 5));
    store.executions.push(execution_record(1, 9));
    store.artifact_types.push(type_record(5, "Data"));
    store.execution_types.push(type_record(9, "Train"));
    store.events.push(event(1, 1, EventType::Output));
    store.events.push(event(2, 1, EventType::Input));
    let g = build(&store, NodeId::Execution(1)).unwrap();
    let ids = node_ids(&g);
    assert!(ids.contains(&NodeId::Artifact(1)));
    assert!(ids.contains(&NodeId::Artifact(2)));
    assert_eq!(g.edges.len(), 2);
    // The produced artifact's edge comes from its own visit.
    assert!(g.edges.iter().any(|e| e.source == NodeId::Execution(1)
        && e.target == NodeId::Artifact(1)));
    assert!(g.edges.iter().any(|e| e.source == NodeId::Artifact(2)
        && e.target == NodeId::Execution(1)));
}

#[test]
fn unknown_events_are_ignored() {
    let mut store = empty_store();
    store.artifacts.push(artifact_record(1, 5));
    store.artifact_types.push(type_record(5, "Data"));
    store.events.push(event(1, 9, EventType::Unknown));
    // The unknown event names the seed artifact, so its execution is still
    // explored — but executions must exist to resolve.
    store.executions.push(execution_record(9, 7));
    store.execution_types.push(type_record(7, "Train"));
    let g = build(&store, NodeId::Artifact(1)).unwrap();
    // Counters ignore the unknown event.
    match &g.nodes[0] {
        Node::Artifact { inputs, outputs, .. } => assert_eq!((*inputs, *outputs), (0, 0)),
        other => panic!("unexpected node: {:?}", other),
    }
    assert_eq!(g.edges.len(), 0);
}

#[test]
fn resolve_artifact_combines_record_and_type() {
    let mut store = empty_store();
    let mut rec = artifact_record(3, 5);
    rec.name = Some("model".to_string());
    rec.uri = Some("s3://m".to_string());
    rec.properties.push(("acc".to_string(), PropertyValue::Int(4)));
    store.artifacts.push(rec);
    store.artifact_types.push(type_record(5, "Model"));
    let a: Artifact = resolve_artifact(&store, 3).unwrap();
    assert_eq!(a.id, 3);
    assert_eq!(a.type_label, "Model");
    assert_eq!(a.name.as_deref(), Some("model"));
    assert_eq!(a.uri.as_deref(), Some("s3://m"));
    assert!(a.extra_properties.is_empty());
    assert!(a.summary.is_none());
    assert_eq!(a.properties.len(), 1);
}

#[test]
fn builder_steps_by_hand() {
    let mut b = GraphBuilder::new(NodeId::Artifact(1));
    assert_eq!(b.next_request(), Some(NodeId::Artifact(1)));
    assert!(!b.has_node(NodeId::Artifact(1)));
    let node = Node::Artifact {
        node: Artifact {
            id: 1,
            name: None,
            type_label: "Data".to_string(),
            uri: None,
            state: ArtifactState::Live,
            ctime: 0,
            mtime: 0,
            properties: Vec::new(),
            custom_properties: Vec::new(),
            extra_properties: Vec::new(),
            summary: None,
        },
        inputs: 0,
        outputs: 0,
    };
    b.supply(node, &vec![event(1, 2, EventType::Output)]).unwrap();
    assert!(b.has_node(NodeId::Artifact(1)));
    assert_eq!(b.next_request(), Some(NodeId::Execution(2)));
}

#[test]
fn error_messages() {
    assert_eq!(
        GraphError::NotFound { id: NodeId::Artifact(5) }.message(),
        "no such artifact: 5"
    );
    assert_eq!(
        GraphError::NotFound { id: NodeId::Execution(8) }.message(),
        "no such execution: 8"
    );
    assert_eq!(
        GraphError::TypeMissing { id: NodeId::Artifact(5), type_id: 3 }.message(),
        "no such artifact type: 3"
    );
    assert_eq!(
        GraphError::TypeMissing { id: NodeId::Execution(5), type_id: -2 }.message(),
        "no such execution type: -2"
    );
    assert_eq!(
        GraphError::TooManyNodes.message(),
        "Too many executions and artifact to visualize"
    );
    assert_eq!(GraphError::StoreFailure("boom".to_string()).message(), "boom");
}

#[test]
fn render_exact_output() {
    let artifact = Artifact {
        id: 7,
        name: None,
        type_label: "DataSet".to_string(),
        uri: None,
        state: ArtifactState::Live,
        ctime: 0,
        mtime: 0,
        properties: Vec::new(),
        custom_properties: Vec::new(),
        extra_properties: Vec::new(),
        summary: None,
    };
    let execution = ExecutionRecord {
        id: 1,
        type_id: 9,
        name: None,
        state: ExecutionState::Complete,
        ctime: 0,
        mtime: 0,
        properties: Vec::new(),
        custom_properties: Vec::new(),
    };
    let ty = type_record(9, "Train");
    let exec_entity = weih::execution::Execution::from_parts(&ty, &execution);
    let g = Graph {
        nodes: vec![
            Node::Artifact { node: artifact, inputs: 0, outputs: 1 },
            Node::Execution { node: exec_entity, inputs: 1, outputs: 1 },
        ],
        edges: vec![Edge {
            source: NodeId::Execution(1),
            target: NodeId::Artifact(7),
            event: Event {
                artifact_id: 7,
                execution_id: 1,
                ty: EventType::Output,
                path: vec![EventStep::Index(0), EventStep::Key("k".to_string())],
                time: 0,
            },
        }],
    };
    let expected = "digraph execution_graph {\n\
        A7[label=\"7\\nDataSet\\nin=0,out=1\",shape=\"ellipse\",URL=\"/artifacts/7\"]\n\
        E1[label=\"1\\nTrain\\nin=1,out=1\",shape=\"box\",URL=\"/executions/1\"]\n\
        E1 -> A7 [label=\"Output:[Index(0), Key(\\\"k\\\")]\"];\n\
        }\n";
    assert_eq!(g.render(), expected);
}

#[test]
fn render_escapes_type_names() {
    let artifact = Artifact {
        id: 1,
        name: None,
        type_label: "we\"ird\\na\nme".to_string(),
        uri: None,
        state: ArtifactState::Unknown,
        ctime: 0,
        mtime: 0,
        properties: Vec::new(),
        custom_properties: Vec::new(),
        extra_properties: Vec::new(),
        summary: None,
    };
    let g = Graph {
        nodes: vec![Node::Artifact { node: artifact, inputs: 0, outputs: 0 }],
        edges: Vec::new(),
    };
    let expected = "digraph execution_graph {\n\
        A1[label=\"1\\nwe\\\"ird\\\\na\\nme\\nin=0,out=0\",shape=\"ellipse\",URL=\"/artifacts/1\"]\n\
        }\n";
    assert_eq!(g.render(), expected);
}

#[test]
fn node_display_attributes() {
    let ty = type_record(9, "Train");
    let rec = execution_record(2, 9);
    let node = Node::Execution {
        node: weih::execution::Execution::from_parts(&ty, &rec),
        inputs: 3,
        outputs: 4,
    };
    assert_eq!(node.label(), "2\nTrain\nin=3,out=4");
    assert_eq!(node.shape(), "box");
    assert_eq!(node.url(), "/executions/2");
    let attrs = node.attrs();
    assert_eq!(attrs, vec![
        "label=\"2\\nTrain\\nin=3,out=4\"".to_string(),
        "shape=\"box\"".to_string(),
        "URL=\"/executions/2\"".to_string(),
    ]);
}

#[test]
fn attrs_escape_tab_and_return() {
    let ty = type_record(5, "a\tb\rc");
    let rec = artifact_record(5, 5);
    let node = Node::Artifact {
        node: weih::artifact::Artifact::from_parts(&ty, &rec),
        inputs: 0,
        outputs: 0,
    };
    let attrs = node.attrs();
    assert_eq!(attrs[0], "label=\"5\\na\\tb\\rc\\nin=0,out=0\"");
}

#[test]
fn node_id_text_forms() {
    assert_eq!(NodeId::Artifact(7).to_text(), "A7");
    assert_eq!(NodeId::Execution(42).to_text(), "E42");
    assert_eq!(NodeId::Artifact(-5).to_text(), "A-5");
    assert_eq!(NodeId::Execution(0).to_text(), "E0");
    assert_eq!(NodeId::Artifact(i32::MIN).to_text(), "A-2147483648");
    assert_eq!(NodeId::Execution(i32::MAX).to_text(), "E2147483647");
}

/// When the layout tool is absent the response body is the renderer's
/// output, byte for byte.
#[test]
fn export_falls_back_to_text() {
    let mut store = empty_store();
    store.artifacts.push(artifact_record(1, 5));
    store.artifact_types.push(type_record(5, "Data"));
    let g = build(&store, NodeId::Artifact(1)).unwrap();
    let dot = g.render();
    match export_outcome(dot.clone(), None) {
        RenderedOutput::Text(t) => assert_eq!(t.as_bytes(), dot.as_bytes()),
        other => panic!("unexpected output: {:?}", other),
    }
}

#[test]
fn export_prefers_image() {
    match export_outcome("digraph {}".to_string(), Some(vec![1, 2, 3])) {
        RenderedOutput::Image(bytes) => assert_eq!(bytes, vec![1, 2, 3]),
        other => panic!("unexpected output: {:?}", other),
    }
}

#[test]
fn type_summary_keeps_property_names() {
    let ty = TypeRecord {
        id: 5,
        name: "Model".to_string(),
        properties: vec![
            ("acc".to_string(), weih::property::PropertyType::Double),
            ("name".to_string(), weih::property::PropertyType::String),
        ],
    };
    let s = ArtifactTypeSummary::from_record(&ty);
    assert_eq!(s.id, 5);
    assert_eq!(s.name, "Model");
    assert_eq!(s.properties, vec!["acc".to_string(), "name".to_string()]);
}
