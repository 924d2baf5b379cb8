use prepass::graph::{Edge, NodeLabel, PassGraph, RenderGraphError, SlotInfo, SlotType};
use prepass::node::PrepassNode;
use prepass::plugin::{
    App, PrepassNodePlugin, RenderApp, WiringError, CORE_3D, MAIN_PASS, PREPASS, VIEW_ENTITY,
};
use prepass::schedule::pass_order;

fn slot(name: &str, slot_type: SlotType) -> SlotInfo {
    SlotInfo::new(name, slot_type)
}

/// A graph laid out like the 3D graph of the host: an input node that hands
/// on the view, and the main pass, tonemapping and upscaling after it.
fn core_3d() -> PassGraph {
    let mut graph = PassGraph::new();
    graph.set_input(vec![slot("view_entity", SlotType::Entity)]).unwrap();
    for name in ["main_pass", "tonemapping", "upscaling"] {
        graph.add_node(name, vec![slot("view", SlotType::Entity)], Vec::new()).unwrap();
        graph
            .add_slot_edge(NodeLabel::Id(0), "view_entity", NodeLabel::Name(name), "view")
            .unwrap();
    }
    graph.add_node_edge(NodeLabel::Name("main_pass"), NodeLabel::Name("tonemapping")).unwrap();
    graph.add_node_edge(NodeLabel::Name("tonemapping"), NodeLabel::Name("upscaling")).unwrap();
    graph
}

fn app(graph: PassGraph) -> App {
    App { render_app: Some(RenderApp { core_3d: Some(graph) }) }
}

fn position(order: &[usize], node: usize) -> usize {
    order.iter().position(|n| *n == node).unwrap()
}

#[test]
fn names_are_those_of_the_host() {
    assert_eq!(CORE_3D, "core_3d");
    assert_eq!(VIEW_ENTITY, "view_entity");
    assert_eq!(MAIN_PASS, "main_pass");
    assert_eq!(PREPASS, "PREPASS");
    assert_eq!(PassGraph::INPUT_NODE_NAME, "GraphInputNode");
    let names = PrepassNodePlugin::wiring();
    assert_eq!(names.sub_graph, "core_3d");
    assert_eq!(names.node, "PREPASS");
    assert_eq!(names.node_input, "view");
    assert_eq!(names.graph_input, "view_entity");
    assert_eq!(names.runs_before, "main_pass");
}

#[test]
fn nodes_are_found_by_name_and_by_index() {
    let graph = core_3d();
    assert_eq!(graph.node_count(), 4);
    assert_eq!(graph.edge_count(), 5);
    assert_eq!(graph.input_node(), Some(0));
    assert_eq!(graph.get_node_id(NodeLabel::Name("GraphInputNode")), Some(0));
    assert_eq!(graph.get_node_id(NodeLabel::Name("main_pass")), Some(1));
    assert_eq!(graph.get_node_id(NodeLabel::Name("upscaling")), Some(3));
    assert_eq!(graph.get_node_id(NodeLabel::Name("PREPASS")), None);
    assert_eq!(graph.get_node_id(NodeLabel::Id(3)), Some(3));
    assert_eq!(graph.get_node_id(NodeLabel::Id(4)), None);
    let main = graph.node(1).unwrap();
    assert_eq!(main.name, "main_pass");
    assert_eq!(main.input_slots.len(), 1);
    assert_eq!(main.input_slots[0].name, "view");
    assert_eq!(main.output_slots.len(), 0);
    let input = graph.node(0).unwrap();
    assert_eq!(input.input_slots.len(), 0);
    assert_eq!(input.output_slots[0].name, "view_entity");
    assert!(graph.node(4).is_none());
}

#[test]
fn a_node_name_is_taken_once() {
    let mut graph = PassGraph::new();
    assert_eq!(graph.add_node("a", Vec::new(), Vec::new()), Ok(0));
    assert_eq!(graph.add_node("b", Vec::new(), Vec::new()), Ok(1));
    assert_eq!(graph.add_node("a", Vec::new(), Vec::new()), Err(RenderGraphError::NodeAlreadyExists));
    assert_eq!(graph.node_count(), 2);
    assert_eq!(graph.set_input(Vec::new()), Ok(2));
    assert_eq!(graph.set_input(Vec::new()), Err(RenderGraphError::NodeAlreadyExists));
    assert_eq!(graph.input_node(), Some(2));
}

#[test]
fn node_edges_join_existing_nodes_once() {
    let mut graph = PassGraph::new();
    graph.add_node("a", Vec::new(), Vec::new()).unwrap();
    graph.add_node("b", Vec::new(), Vec::new()).unwrap();
    let edge = Edge::NodeEdge { output_node: 0, input_node: 1 };
    assert!(!graph.has_edge(&edge));
    assert_eq!(graph.add_node_edge(NodeLabel::Name("a"), NodeLabel::Name("b")), Ok(()));
    assert!(graph.has_edge(&edge));
    assert_eq!(edge.get_output_node(), 0);
    assert_eq!(edge.get_input_node(), 1);
    assert_eq!(
        graph.add_node_edge(NodeLabel::Id(0), NodeLabel::Name("b")),
        Err(RenderGraphError::EdgeAlreadyExists)
    );
    assert_eq!(
        graph.add_node_edge(NodeLabel::Name("a"), NodeLabel::Name("c")),
        Err(RenderGraphError::InvalidNode)
    );
    assert_eq!(
        graph.add_node_edge(NodeLabel::Id(2), NodeLabel::Name("a")),
        Err(RenderGraphError::InvalidNode)
    );
    assert_eq!(graph.edge_count(), 1);
    assert_eq!(graph.add_node_edge(NodeLabel::Name("b"), NodeLabel::Name("a")), Ok(()));
    assert_eq!(graph.edge_count(), 2);
}

#[test]
fn slot_edges_are_checked_in_a_fixed_order() {
    let mut graph = PassGraph::new();
    graph
        .add_node("source", Vec::new(), vec![slot("view", SlotType::Entity), slot("color", SlotType::TextureView)])
        .unwrap();
    graph.add_node("other", Vec::new(), vec![slot("view", SlotType::Entity)]).unwrap();
    graph
        .add_node("sink", vec![slot("view", SlotType::Entity), slot("color", SlotType::TextureView)], Vec::new())
        .unwrap();
    let source = NodeLabel::Name("source");
    let other = NodeLabel::Name("other");
    let sink = NodeLabel::Name("sink");
    assert_eq!(
        graph.add_slot_edge(NodeLabel::Name("nobody"), "x", sink, "y"),
        Err(RenderGraphError::InvalidNode)
    );
    assert_eq!(
        graph.add_slot_edge(source, "x", NodeLabel::Id(9), "y"),
        Err(RenderGraphError::InvalidNode)
    );
    assert_eq!(
        graph.add_slot_edge(source, "depth", sink, "depth"),
        Err(RenderGraphError::InvalidOutputNodeSlot)
    );
    assert_eq!(
        graph.add_slot_edge(source, "view", sink, "depth"),
        Err(RenderGraphError::InvalidInputNodeSlot)
    );
    assert_eq!(
        graph.add_slot_edge(source, "view", sink, "color"),
        Err(RenderGraphError::MismatchedNodeSlots)
    );
    assert_eq!(graph.edge_count(), 0);
    assert_eq!(graph.add_slot_edge(source, "view", sink, "view"), Ok(()));
    assert!(graph.has_edge(&Edge::SlotEdge {
        output_node: 0,
        output_index: 0,
        input_node: 2,
        input_index: 0,
    }));
    assert_eq!(
        graph.add_slot_edge(source, "view", sink, "view"),
        Err(RenderGraphError::EdgeAlreadyExists)
    );
    assert_eq!(
        graph.add_slot_edge(other, "view", sink, "view"),
        Err(RenderGraphError::NodeInputSlotAlreadyOccupied)
    );
    assert_eq!(
        graph.add_slot_edge(source, "color", sink, "view"),
        Err(RenderGraphError::NodeInputSlotAlreadyOccupied)
    );
    assert_eq!(graph.add_slot_edge(source, "color", sink, "color"), Ok(()));
    assert_eq!(graph.edge_count(), 2);
}

#[test]
fn schedule_runs_every_edge_forward_and_prefers_low_indices() {
    let graph = core_3d();
    assert_eq!(graph.schedule(), Ok(vec![0, 1, 2, 3]));

    let edges = vec![
        Edge::NodeEdge { output_node: 3, input_node: 0 },
        Edge::NodeEdge { output_node: 2, input_node: 1 },
        Edge::SlotEdge { output_node: 3, output_index: 0, input_node: 2, input_index: 0 },
    ];
    assert_eq!(pass_order(5, &edges), Ok(vec![3, 0, 2, 1, 4]));
    assert_eq!(pass_order(0, &Vec::new()), Ok(Vec::new()));
    assert_eq!(pass_order(3, &Vec::new()), Ok(vec![0, 1, 2]));
}

#[test]
fn schedule_reports_a_cycle() {
    let mut graph = PassGraph::new();
    for name in ["a", "b", "c"] {
        graph.add_node(name, Vec::new(), Vec::new()).unwrap();
    }
    graph.add_node_edge(NodeLabel::Name("a"), NodeLabel::Name("b")).unwrap();
    graph.add_node_edge(NodeLabel::Name("b"), NodeLabel::Name("c")).unwrap();
    assert_eq!(graph.schedule(), Ok(vec![0, 1, 2]));
    graph.add_node_edge(NodeLabel::Name("c"), NodeLabel::Name("b")).unwrap();
    assert_eq!(graph.schedule(), Err(RenderGraphError::Cycle));

    let own = vec![Edge::NodeEdge { output_node: 0, input_node: 0 }];
    assert_eq!(pass_order(1, &own), Err(RenderGraphError::Cycle));
}

#[test]
fn prepass_is_scheduled_before_the_main_pass() {
    let mut app = app(core_3d());
    assert_eq!(PrepassNodePlugin.build(&mut app), Ok(()));
    let graph = app.render_app.unwrap().core_3d.unwrap();
    assert_eq!(graph.node_count(), 5);
    assert_eq!(graph.edge_count(), 7);
    let prepass = graph.get_node_id(NodeLabel::Name("PREPASS")).unwrap();
    let main = graph.get_node_id(NodeLabel::Name("main_pass")).unwrap();
    assert_eq!((prepass, main), (4, 1));
    let node = graph.node(prepass).unwrap();
    assert_eq!(node.input_slots.len(), 1);
    assert_eq!(node.input_slots[0].name, "view");
    assert_eq!(node.input_slots[0].slot_type, SlotType::Entity);
    assert_eq!(node.output_slots.len(), 0);
    assert!(graph.has_edge(&Edge::SlotEdge {
        output_node: 0,
        output_index: 0,
        input_node: prepass,
        input_index: 0,
    }));
    assert!(graph.has_edge(&Edge::NodeEdge { output_node: prepass, input_node: main }));
    let order = graph.schedule().unwrap();
    assert_eq!(order, vec![0, 4, 1, 2, 3]);
    assert!(position(&order, prepass) < position(&order, main));
    assert!(position(&order, 0) < position(&order, prepass));
}

#[test]
fn wiring_happens_once() {
    let mut graph = core_3d();
    let node = PrepassNode::new();
    assert_eq!(PrepassNodePlugin::wire(&mut graph, &node), Ok(()));
    assert_eq!(
        PrepassNodePlugin::wire(&mut graph, &node),
        Err(WiringError::Graph(RenderGraphError::NodeAlreadyExists))
    );
    assert_eq!(graph.node_count(), 5);
    assert_eq!(graph.edge_count(), 7);
}

#[test]
fn wiring_fails_without_a_render_application_or_its_graph() {
    let mut bare = App { render_app: None };
    assert_eq!(PrepassNodePlugin.build(&mut bare), Err(WiringError::MissingRenderApp));
    assert!(bare.render_app.is_none());
    let mut empty = App { render_app: Some(RenderApp { core_3d: None }) };
    assert_eq!(PrepassNodePlugin.build(&mut empty), Err(WiringError::MissingSubGraph));
    assert!(empty.render_app.unwrap().core_3d.is_none());
}

#[test]
fn wiring_fails_where_the_graph_lacks_what_it_expects() {
    let mut no_input = PassGraph::new();
    no_input.add_node("main_pass", Vec::new(), Vec::new()).unwrap();
    let mut app_without_input = app(no_input);
    assert_eq!(PrepassNodePlugin.build(&mut app_without_input), Err(WiringError::MissingGraphInput));

    let mut no_slot = PassGraph::new();
    no_slot.set_input(vec![slot("camera", SlotType::Entity)]).unwrap();
    no_slot.add_node("main_pass", Vec::new(), Vec::new()).unwrap();
    assert_eq!(
        PrepassNodePlugin.build(&mut app(no_slot)),
        Err(WiringError::Graph(RenderGraphError::InvalidOutputNodeSlot))
    );

    let mut wrong_type = PassGraph::new();
    wrong_type.set_input(vec![slot("view_entity", SlotType::TextureView)]).unwrap();
    wrong_type.add_node("main_pass", Vec::new(), Vec::new()).unwrap();
    assert_eq!(
        PrepassNodePlugin.build(&mut app(wrong_type)),
        Err(WiringError::Graph(RenderGraphError::MismatchedNodeSlots))
    );

    let mut no_main = PassGraph::new();
    no_main.set_input(vec![slot("view_entity", SlotType::Entity)]).unwrap();
    let mut app_without_main = app(no_main);
    assert_eq!(
        PrepassNodePlugin.build(&mut app_without_main),
        Err(WiringError::Graph(RenderGraphError::InvalidNode))
    );
    let left = app_without_main.render_app.unwrap().core_3d.unwrap();
    assert_eq!(left.node_count(), 2);
    assert_eq!(left.edge_count(), 1);
}
