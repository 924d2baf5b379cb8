//! One-time wiring of the prepass node into the 3D pass graph.

use vstd::prelude::*;
use crate::graph::{
    Edge, GraphModel, NodeLabel, NodeModel, PassGraph, RenderGraphError, SlotInfo, SlotModel,
    SlotType,
};
use crate::node::PrepassNode;
use crate::schedule::{lemma_edges_run_forward, valid_schedule};

verus! {

/// Name of the 3D pass graph among the sub-graphs of the render application.
pub const CORE_3D: &'static str = "core_3d";

/// Name of the slot through which the 3D pass graph receives its view.
pub const VIEW_ENTITY: &'static str = "view_entity";

/// Name of the main color pass in the 3D pass graph.
pub const MAIN_PASS: &'static str = "main_pass";

/// Name under which the prepass node enters the graph.
pub const PREPASS: &'static str = "PREPASS";

/// Why the prepass could not be wired into the graph. Each of these means
/// that the host is not the one this subsystem was written for.
#[derive(Clone, Copy, Debug, PartialEq, Eq, Structural)]
pub enum WiringError {
    /// The application has no render sub-application yet.
    MissingRenderApp,
    /// The render sub-application has no 3D pass graph.
    MissingSubGraph,
    /// The 3D pass graph has no input node.
    MissingGraphInput,
    /// The graph refused the node or one of its edges.
    Graph(RenderGraphError),
}

/// The render sub-application, as far as the wiring reads it.
pub struct RenderApp {
    pub core_3d: Option<PassGraph>,
}

/// The application, as far as the wiring reads it.
pub struct App {
    pub render_app: Option<RenderApp>,
}

impl App {
    /// The 3D pass graph of the application, where it has one.
    pub open spec fn graph(self) -> Option<PassGraph> {
        match self.render_app {
            Some(render_app) => render_app.core_3d,
            None => None,
        }
    }

    pub open spec fn wf(self) -> bool {
        self.graph() matches Some(graph) ==> graph@.wf()
    }
}

/// The names that the wiring goes by, for a host that repeats it on a graph
/// of its own.
#[derive(Clone, Copy, Debug)]
pub struct Wiring {
    pub sub_graph: &'static str,
    pub node: &'static str,
    pub node_input: &'static str,
    pub graph_input: &'static str,
    pub runs_before: &'static str,
}

/// The prepass node as the graph holds it: one input slot for the view, and
/// no output slot.
pub open spec fn prepass_node_model() -> NodeModel {
    NodeModel {
        name: PREPASS@,
        input_slots: seq![SlotModel { name: PrepassNode::IN_VIEW@, slot_type: SlotType::Entity }],
        output_slots: Seq::empty(),
    }
}

/// The slot edge that hands the view of the graph to the prepass node.
pub open spec fn view_edge(graph: GraphModel) -> Result<Edge, RenderGraphError> {
    graph.slot_edge(
        NodeLabel::Id(graph.input_node.unwrap()),
        VIEW_ENTITY@,
        NodeLabel::Name(PREPASS),
        PrepassNode::IN_VIEW@,
    )
}

/// The ordering edge from the prepass node to the main color pass.
pub open spec fn order_edge(graph: GraphModel) -> Result<Edge, RenderGraphError> {
    graph.node_edge(NodeLabel::Name(PREPASS), NodeLabel::Name(MAIN_PASS))
}

/// What the wiring does to a graph, step by step: it adds the prepass node,
/// connects the view slot of the graph's input node to the node's view slot,
/// and orders the node before the main color pass. The first step that fails
/// ends the wiring, and the steps before it stay.
pub open spec fn wired(graph: GraphModel) -> (Result<(), WiringError>, GraphModel) {
    if graph.node_check(PREPASS@) is Err {
        (Err(WiringError::Graph(graph.node_check(PREPASS@)->Err_0)), graph)
    } else {
        let with_node = graph.with_node(prepass_node_model());
        if with_node.input_node.is_none() {
            (Err(WiringError::MissingGraphInput), with_node)
        } else if view_edge(with_node) is Err {
            (Err(WiringError::Graph(view_edge(with_node)->Err_0)), with_node)
        } else {
            let with_view = with_node.with_edge(view_edge(with_node)->Ok_0);
            if order_edge(with_view) is Err {
                (Err(WiringError::Graph(order_edge(with_view)->Err_0)), with_view)
            } else {
                (Ok(()), with_view.with_edge(order_edge(with_view)->Ok_0))
            }
        }
    }
}

/// Inserts the prepass node into the 3D pass graph, before the main color
/// pass and on the same view.
pub struct PrepassNodePlugin;

impl PrepassNodePlugin {
    /// The names that the wiring goes by.
    pub fn wiring() -> (names: Wiring)
        ensures
            names.sub_graph@ == CORE_3D@,
            names.node@ == PREPASS@,
            names.node_input@ == PrepassNode::IN_VIEW@,
            names.graph_input@ == VIEW_ENTITY@,
            names.runs_before@ == MAIN_PASS@,
    {
        Wiring {
            sub_graph: CORE_3D,
            node: PREPASS,
            node_input: PrepassNode::IN_VIEW,
            graph_input: VIEW_ENTITY,
            runs_before: MAIN_PASS,
        }
    }

    /// Wires the prepass node into a graph.
    pub fn wire(graph: &mut PassGraph, node: &PrepassNode) -> (r: Result<(), WiringError>)
        requires
            old(graph)@.wf(),
        ensures
            final(graph)@.wf(),
            (r, final(graph)@) == wired(old(graph)@),
    {
        let inputs = node.input();
        match graph.add_node(PREPASS, inputs, Vec::new()) {
            Ok(_) => {},
            Err(e) => {
                return Err(WiringError::Graph(e));
            },
        }
        proof {
            let none: Seq<SlotInfo> = Seq::empty();
            assert(crate::graph::slot_models(none) =~= Seq::empty());
            assert(crate::graph::slot_models(inputs@) =~= prepass_node_model().input_slots);
        }
        let input = match graph.input_node() {
            Some(id) => id,
            None => {
                return Err(WiringError::MissingGraphInput);
            },
        };
        match graph.add_slot_edge(
            NodeLabel::Id(input),
            VIEW_ENTITY,
            NodeLabel::Name(PREPASS),
            PrepassNode::IN_VIEW,
        ) {
            Ok(()) => {},
            Err(e) => {
                return Err(WiringError::Graph(e));
            },
        }
        match graph.add_node_edge(NodeLabel::Name(PREPASS), NodeLabel::Name(MAIN_PASS)) {
            Ok(()) => {},
            Err(e) => {
                return Err(WiringError::Graph(e));
            },
        }
        Ok(())
    }

    /// Wires the prepass node into the 3D pass graph of the application.
    ///
    /// Fails, and changes nothing, where the application has no render
    /// sub-application or that has no 3D pass graph; else fails where the
    /// graph stops the wiring.
    pub fn build(&self, app: &mut App) -> (r: Result<(), WiringError>)
        requires
            old(app).wf(),
        ensures
            final(app).wf(),
            match old(app).render_app {
                None => r == Err::<(), WiringError>(WiringError::MissingRenderApp) && *final(app)
                    == *old(app),
                Some(render_app) => match render_app.core_3d {
                    None => r == Err::<(), WiringError>(WiringError::MissingSubGraph) && *final(app) == *old(app),
                    Some(graph) => {
                        &&& final(app).graph() is Some
                        &&& (r, final(app).graph().unwrap()@) == wired(graph@)
                    },
                },
            },
    {
        let mut render_app = match app.render_app.take() {
            Some(render_app) => render_app,
            None => {
                return Err(WiringError::MissingRenderApp);
            },
        };
        let mut graph = match render_app.core_3d.take() {
            Some(graph) => graph,
            None => {
                app.render_app = Some(render_app);
                return Err(WiringError::MissingSubGraph);
            },
        };
        let node = PrepassNode::new();
        let r = Self::wire(&mut graph, &node);
        render_app.core_3d = Some(graph);
        app.render_app = Some(render_app);
        r
    }
}

/// In every pass order of a graph that the wiring has gone through, the
/// prepass node stands before the main color pass: what the prepass writes is
/// written before the main pass reads it.
pub proof fn lemma_prepass_precedes_main_pass(
    graph: GraphModel,
    order: Seq<usize>,
    prepass_at: int,
    main_pass_at: int,
)
    requires
        graph.wf(),
        wired(graph).0 is Ok,
        valid_schedule(wired(graph).1.nodes.len(), wired(graph).1.edges, order),
        0 <= prepass_at < order.len(),
        0 <= main_pass_at < order.len(),
        wired(graph).1.node_id(NodeLabel::Name(PREPASS)) == Some(order[prepass_at] as int),
        wired(graph).1.node_id(NodeLabel::Name(MAIN_PASS)) == Some(order[main_pass_at] as int),
    ensures
        prepass_at < main_pass_at,
{
    let with_node = graph.with_node(prepass_node_model());
    let with_view = with_node.with_edge(view_edge(with_node)->Ok_0);
    let edge = order_edge(with_view)->Ok_0;
    let after = wired(graph).1;
    assert(after == with_view.with_edge(edge));
    assert(after.edges[after.edges.len() - 1] == edge);
    assert(after.edges.contains(edge));
    lemma_edges_run_forward(after.nodes.len(), after.edges, order, edge, prepass_at, main_pass_at);
}

/// The wiring gives the prepass node the view of the graph: a slot edge runs
/// from the view slot of the graph's input node to the view slot of the
/// prepass node. This holds of every graph whose nodes can be indexed.
pub proof fn lemma_prepass_receives_view(graph: GraphModel)
    requires
        graph.wf(),
        graph.nodes.len() < usize::MAX,
        wired(graph).0 is Ok,
    ensures
        ({
            let after = wired(graph).1;
            let edge = view_edge(graph.with_node(prepass_node_model()))->Ok_0;
            &&& after.edges.contains(edge)
            &&& edge is SlotEdge
            &&& Some(edge.before()) == graph.input_node
            &&& edge.after() == graph.nodes.len()
            &&& after.nodes[edge.after() as int] == prepass_node_model()
        }),
{
    lemma_new_node_is_named(graph, prepass_node_model());
    let with_node = graph.with_node(prepass_node_model());
    let edge = view_edge(with_node)->Ok_0;
    let with_view = with_node.with_edge(edge);
    let after = wired(graph).1;
    assert(with_node.node_id(NodeLabel::Name(PREPASS)) == Some(graph.nodes.len() as int));
    assert(after.edges[after.edges.len() - 2] == edge);
}

/// The wiring happens once: on a graph that it has gone through, it is
/// refused, and it changes nothing.
pub proof fn lemma_wiring_happens_once(graph: GraphModel)
    requires
        graph.wf(),
        wired(graph).0 is Ok,
    ensures
        wired(wired(graph).1) == (
            Err::<(), WiringError>(WiringError::Graph(RenderGraphError::NodeAlreadyExists)),
            wired(graph).1,
        ),
{
    lemma_new_node_is_named(graph, prepass_node_model());
    let with_node = graph.with_node(prepass_node_model());
    let after = wired(graph).1;
    assert(after.nodes == with_node.nodes);
}

/// A name that no node of a graph goes by names the node that is added
/// under it.
pub proof fn lemma_new_node_is_named(graph: GraphModel, node: NodeModel)
    requires
        graph.node_check(node.name) is Ok,
    ensures
        graph.with_node(node).nodes.len() == graph.nodes.len() + 1,
        crate::graph::node_named(graph.with_node(node).nodes, node.name, 0) == Some(
            graph.nodes.len() as int,
        ),
{
    lemma_named_from(graph, node, 0);
}

proof fn lemma_named_from(graph: GraphModel, node: NodeModel, start: int)
    requires
        0 <= start <= graph.nodes.len(),
        crate::graph::node_named(graph.nodes, node.name, start).is_none(),
    ensures
        crate::graph::node_named(graph.with_node(node).nodes, node.name, start) == Some(
            graph.nodes.len() as int,
        ),
    decreases graph.nodes.len() - start,
{
    if start < graph.nodes.len() {
        assert(graph.with_node(node).nodes[start] == graph.nodes[start]);
        lemma_named_from(graph, node, start + 1);
    }
}

} // verus!
