//! The pass graph: named nodes with typed slots, data edges between slots,
//! and ordering edges between nodes.

use vstd::prelude::*;
use crate::schedule::{least_first, pass_order, valid_schedule};

verus! {

/// What a slot carries.
#[derive(Clone, Copy, Debug, PartialEq, Eq, Structural)]
pub enum SlotType {
    Buffer,
    TextureView,
    Sampler,
    Entity,
}

/// A slot as a mathematical value.
pub struct SlotModel {
    pub name: Seq<char>,
    pub slot_type: SlotType,
}

/// A named, typed slot of a node.
pub struct SlotInfo {
    pub name: String,
    pub slot_type: SlotType,
}

impl View for SlotInfo {
    type V = SlotModel;

    open spec fn view(&self) -> SlotModel {
        SlotModel { name: self.name@, slot_type: self.slot_type }
    }
}

impl SlotInfo {
    pub fn new(name: &str, slot_type: SlotType) -> (slot: SlotInfo)
        ensures
            slot@ == (SlotModel { name: name@, slot_type }),
    {
        SlotInfo { name: name.to_owned(), slot_type }
    }
}

/// The slots of a list as mathematical values.
pub open spec fn slot_models(slots: Seq<SlotInfo>) -> Seq<SlotModel> {
    slots.map_values(|slot: SlotInfo| slot@)
}

/// A node as a mathematical value.
pub struct NodeModel {
    pub name: Seq<char>,
    pub input_slots: Seq<SlotModel>,
    pub output_slots: Seq<SlotModel>,
}

/// A node of the graph with its slots.
pub struct NodeState {
    pub name: String,
    pub input_slots: Vec<SlotInfo>,
    pub output_slots: Vec<SlotInfo>,
}

impl View for NodeState {
    type V = NodeModel;

    open spec fn view(&self) -> NodeModel {
        NodeModel {
            name: self.name@,
            input_slots: slot_models(self.input_slots@),
            output_slots: slot_models(self.output_slots@),
        }
    }
}

/// The nodes of a list as mathematical values.
pub open spec fn node_models(nodes: Seq<NodeState>) -> Seq<NodeModel> {
    nodes.map_values(|node: NodeState| node@)
}

/// A way to name a node: by its index in the graph or by its name.
#[derive(Clone, Copy, Debug)]
pub enum NodeLabel<'a> {
    Id(usize),
    Name(&'a str),
}

/// An edge of the graph. Its output node runs before its input node.
#[derive(Clone, Copy, Debug, PartialEq, Eq, Structural)]
pub enum Edge {
    /// Hands the value of an output slot to an input slot.
    SlotEdge { output_node: usize, output_index: usize, input_node: usize, input_index: usize },
    /// Orders two nodes and carries nothing.
    NodeEdge { output_node: usize, input_node: usize },
}

impl Edge {
    /// The node that the edge leaves: it runs first.
    pub open spec fn before(self) -> usize {
        match self {
            Edge::SlotEdge { output_node, .. } => output_node,
            Edge::NodeEdge { output_node, .. } => output_node,
        }
    }

    /// The node that the edge enters: it runs second.
    pub open spec fn after(self) -> usize {
        match self {
            Edge::SlotEdge { input_node, .. } => input_node,
            Edge::NodeEdge { input_node, .. } => input_node,
        }
    }

    /// The edge is a slot edge into the given input slot.
    pub open spec fn enters_slot(self, node: usize, index: usize) -> bool {
        match self {
            Edge::SlotEdge { input_node, input_index, .. } => input_node == node && input_index
                == index,
            Edge::NodeEdge { .. } => false,
        }
    }

    pub fn get_output_node(&self) -> (node: usize)
        ensures
            node == self.before(),
    {
        match self {
            Edge::SlotEdge { output_node, .. } => *output_node,
            Edge::NodeEdge { output_node, .. } => *output_node,
        }
    }

    pub fn get_input_node(&self) -> (node: usize)
        ensures
            node == self.after(),
    {
        match self {
            Edge::SlotEdge { input_node, .. } => *input_node,
            Edge::NodeEdge { input_node, .. } => *input_node,
        }
    }
}

/// Why the graph refused a change, or could not be scheduled.
#[derive(Clone, Copy, Debug, PartialEq, Eq, Structural)]
pub enum RenderGraphError {
    /// A node of that name is in the graph already.
    NodeAlreadyExists,
    /// No node goes by that label.
    InvalidNode,
    /// The output node has no output slot of that name.
    InvalidOutputNodeSlot,
    /// The input node has no input slot of that name.
    InvalidInputNodeSlot,
    /// The very same edge is in the graph already.
    EdgeAlreadyExists,
    /// Another slot edge enters the input slot already.
    NodeInputSlotAlreadyOccupied,
    /// The two slots carry different types.
    MismatchedNodeSlots,
    /// The edges order some node before itself: no pass order exists.
    Cycle,
}

/// Index of the first slot of the given name, from `start` on.
pub open spec fn slot_named(slots: Seq<SlotModel>, name: Seq<char>, start: int) -> Option<int>
    decreases slots.len() - start,
{
    if start < 0 || start >= slots.len() {
        None
    } else if slots[start].name == name {
        Some(start)
    } else {
        slot_named(slots, name, start + 1)
    }
}

/// Index of the first node of the given name, from `start` on.
pub open spec fn node_named(nodes: Seq<NodeModel>, name: Seq<char>, start: int) -> Option<int>
    decreases nodes.len() - start,
{
    if start < 0 || start >= nodes.len() {
        None
    } else if nodes[start].name == name {
        Some(start)
    } else {
        node_named(nodes, name, start + 1)
    }
}

/// A graph as a mathematical value.
pub struct GraphModel {
    pub nodes: Seq<NodeModel>,
    pub edges: Seq<Edge>,
    /// The node through which the inputs of the graph enter, if it has one.
    pub input_node: Option<usize>,
}

impl GraphModel {
    pub open spec fn empty() -> GraphModel {
        GraphModel { nodes: Seq::empty(), edges: Seq::empty(), input_node: None }
    }

    /// The index of the node that a label names.
    pub open spec fn node_id(self, label: NodeLabel) -> Option<int> {
        match label {
            NodeLabel::Id(id) => if id < self.nodes.len() {
                Some(id as int)
            } else {
                None
            },
            NodeLabel::Name(name) => node_named(self.nodes, name@, 0),
        }
    }

    /// The edge joins nodes and slots of the graph, and a slot edge joins
    /// slots of one type.
    pub open spec fn admits(self, edge: Edge) -> bool {
        match edge {
            Edge::SlotEdge { output_node, output_index, input_node, input_index } => {
                &&& output_node < self.nodes.len()
                &&& input_node < self.nodes.len()
                &&& output_index < self.nodes[output_node as int].output_slots.len()
                &&& input_index < self.nodes[input_node as int].input_slots.len()
                &&& self.nodes[output_node as int].output_slots[output_index as int].slot_type
                    == self.nodes[input_node as int].input_slots[input_index as int].slot_type
            },
            Edge::NodeEdge { output_node, input_node } => {
                &&& output_node < self.nodes.len()
                &&& input_node < self.nodes.len()
            },
        }
    }

    /// Every edge joins nodes and slots of the graph, and the input node is
    /// one of its nodes.
    pub open spec fn wf(self) -> bool {
        &&& forall|e: int| 0 <= e < self.edges.len() ==> self.admits(#[trigger] self.edges[e])
        &&& self.input_node matches Some(id) ==> id < self.nodes.len()
    }

    /// Some slot edge enters the given input slot.
    pub open spec fn occupied(self, node: usize, index: usize) -> bool {
        exists|e: int| 0 <= e < self.edges.len() && (#[trigger] self.edges[e]).enters_slot(node, index)
    }

    /// Whether a node of that name can be added.
    pub open spec fn node_check(self, name: Seq<char>) -> Result<(), RenderGraphError> {
        if node_named(self.nodes, name, 0).is_some() {
            Err(RenderGraphError::NodeAlreadyExists)
        } else {
            Ok(())
        }
    }

    /// The graph with one more node.
    pub open spec fn with_node(self, node: NodeModel) -> GraphModel {
        GraphModel { nodes: self.nodes.push(node), ..self }
    }

    /// The graph with one more edge.
    pub open spec fn with_edge(self, edge: Edge) -> GraphModel {
        GraphModel { edges: self.edges.push(edge), ..self }
    }

    /// The ordering edge between two labelled nodes, or why there cannot be
    /// one: a label names no node, or the edge exists.
    pub open spec fn node_edge(self, output_node: NodeLabel, input_node: NodeLabel) -> Result<
        Edge,
        RenderGraphError,
    > {
        if self.node_id(output_node).is_none() || self.node_id(input_node).is_none() {
            Err(RenderGraphError::InvalidNode)
        } else {
            let edge = Edge::NodeEdge {
                output_node: self.node_id(output_node).unwrap() as usize,
                input_node: self.node_id(input_node).unwrap() as usize,
            };
            if self.edges.contains(edge) {
                Err(RenderGraphError::EdgeAlreadyExists)
            } else {
                Ok(edge)
            }
        }
    }

    /// The slot edge between two slots named by node and slot, or why there
    /// cannot be one. The checks are made in this order: both nodes exist;
    /// the output slot exists; the input slot exists; the edge is new; the
    /// input slot is free; the two slots carry one type.
    pub open spec fn slot_edge(
        self,
        output_node: NodeLabel,
        output_slot: Seq<char>,
        input_node: NodeLabel,
        input_slot: Seq<char>,
    ) -> Result<Edge, RenderGraphError> {
        if self.node_id(output_node).is_none() || self.node_id(input_node).is_none() {
            Err(RenderGraphError::InvalidNode)
        } else {
            let source = self.node_id(output_node).unwrap();
            let target = self.node_id(input_node).unwrap();
            let outputs = self.nodes[source].output_slots;
            let inputs = self.nodes[target].input_slots;
            if slot_named(outputs, output_slot, 0).is_none() {
                Err(RenderGraphError::InvalidOutputNodeSlot)
            } else if slot_named(inputs, input_slot, 0).is_none() {
                Err(RenderGraphError::InvalidInputNodeSlot)
            } else {
                let output_index = slot_named(outputs, output_slot, 0).unwrap();
                let input_index = slot_named(inputs, input_slot, 0).unwrap();
                let edge = Edge::SlotEdge {
                    output_node: source as usize,
                    output_index: output_index as usize,
                    input_node: target as usize,
                    input_index: input_index as usize,
                };
                if self.edges.contains(edge) {
                    Err(RenderGraphError::EdgeAlreadyExists)
                } else if self.occupied(target as usize, input_index as usize) {
                    Err(RenderGraphError::NodeInputSlotAlreadyOccupied)
                } else if outputs[output_index].slot_type != inputs[input_index].slot_type {
                    Err(RenderGraphError::MismatchedNodeSlots)
                } else {
                    Ok(edge)
                }
            }
        }
    }
}

/// Index of the first slot of the given name.
fn find_slot(slots: &Vec<SlotInfo>, name: &str) -> (found: Option<usize>)
    ensures
        match found {
            Some(i) => i < slots@.len() && slot_named(slot_models(slots@), name@, 0) == Some(
                i as int,
            ),
            None => slot_named(slot_models(slots@), name@, 0).is_none(),
        },
{
    let wanted = name.to_owned();
    let mut i: usize = 0;
    while i < slots.len()
        invariant
            i <= slots@.len(),
            wanted@ == name@,
            slot_named(slot_models(slots@), name@, 0) == slot_named(
                slot_models(slots@),
                name@,
                i as int,
            ),
        decreases slots@.len() - i,
    {
        if slots[i].name == wanted {
            return Some(i);
        }
        i += 1;
    }
    None
}

/// A graph of render passes.
pub struct PassGraph {
    nodes: Vec<NodeState>,
    edges: Vec<Edge>,
    input_node: Option<usize>,
}

impl View for PassGraph {
    type V = GraphModel;

    closed spec fn view(&self) -> GraphModel {
        GraphModel {
            nodes: node_models(self.nodes@),
            edges: self.edges@,
            input_node: self.input_node,
        }
    }
}

impl PassGraph {
    /// Name of the node through which the inputs of a graph enter.
    pub const INPUT_NODE_NAME: &'static str = "GraphInputNode";

    pub fn new() -> (graph: PassGraph)
        ensures
            graph@ == GraphModel::empty(),
            graph@.wf(),
    {
        let graph = PassGraph { nodes: Vec::new(), edges: Vec::new(), input_node: None };
        assert(graph@.nodes =~= Seq::empty());
        graph
    }

    /// Adds a node with the given slots and returns its index.
    ///
    /// Fails, and changes nothing, exactly when a node of that name exists.
    pub fn add_node(
        &mut self,
        name: &str,
        input_slots: Vec<SlotInfo>,
        output_slots: Vec<SlotInfo>,
    ) -> (r: Result<usize, RenderGraphError>)
        requires
            old(self)@.wf(),
        ensures
            final(self)@.wf(),
            match r {
                Ok(id) => {
                    &&& old(self)@.node_check(name@) is Ok
                    &&& id == old(self)@.nodes.len()
                    &&& final(self)@ == old(self)@.with_node(
                        NodeModel {
                            name: name@,
                            input_slots: slot_models(input_slots@),
                            output_slots: slot_models(output_slots@),
                        },
                    )
                },
                Err(e) => {
                    &&& old(self)@.node_check(name@) == Err::<(), RenderGraphError>(e)
                    &&& final(self)@ == old(self)@
                },
            },
    {
        if self.find_node(name).is_some() {
            return Err(RenderGraphError::NodeAlreadyExists);
        }
        let id = self.nodes.len();
        let node = NodeState { name: name.to_owned(), input_slots, output_slots };
        self.nodes.push(node);
        proof {
            assert(self@.nodes =~= old(self)@.nodes.push(node@));
        }
        Ok(id)
    }

    /// Makes a node of the given output slots the input node of the graph.
    ///
    /// Fails, and changes nothing, exactly when a node of the input node's
    /// name exists.
    pub fn set_input(&mut self, slots: Vec<SlotInfo>) -> (r: Result<usize, RenderGraphError>)
        requires
            old(self)@.wf(),
        ensures
            final(self)@.wf(),
            match r {
                Ok(id) => {
                    &&& old(self)@.node_check(Self::INPUT_NODE_NAME@) is Ok
                    &&& id == old(self)@.nodes.len()
                    &&& final(self)@ == (GraphModel {
                        input_node: Some(id),
                        ..old(self)@.with_node(
                            NodeModel {
                                name: Self::INPUT_NODE_NAME@,
                                input_slots: Seq::empty(),
                                output_slots: slot_models(slots@),
                            },
                        )
                    })
                },
                Err(e) => {
                    &&& old(self)@.node_check(Self::INPUT_NODE_NAME@) == Err::<
                        (),
                        RenderGraphError,
                    >(e)
                    &&& final(self)@ == old(self)@
                },
            },
    {
        let no_inputs: Vec<SlotInfo> = Vec::new();
        assert(slot_models(no_inputs@) =~= Seq::empty());
        match self.add_node(Self::INPUT_NODE_NAME, no_inputs, slots) {
            Ok(id) => {
                self.input_node = Some(id);
                Ok(id)
            },
            Err(e) => Err(e),
        }
    }

    /// Index of the first node of the given name.
    fn find_node(&self, name: &str) -> (found: Option<usize>)
        ensures
            match found {
                Some(i) => i < self@.nodes.len() && node_named(self@.nodes, name@, 0) == Some(
                    i as int,
                ),
                None => node_named(self@.nodes, name@, 0).is_none(),
            },
    {
        let wanted = name.to_owned();
        let mut i: usize = 0;
        while i < self.nodes.len()
            invariant
                i <= self.nodes@.len(),
                wanted@ == name@,
                node_named(self@.nodes, name@, 0) == node_named(self@.nodes, name@, i as int),
            decreases self.nodes@.len() - i,
        {
            if self.nodes[i].name == wanted {
                return Some(i);
            }
            i += 1;
        }
        None
    }

    /// The index of the node that a label names.
    pub fn get_node_id(&self, label: NodeLabel) -> (id: Option<usize>)
        ensures
            match id {
                Some(i) => i < self@.nodes.len() && self@.node_id(label) == Some(i as int),
                None => self@.node_id(label).is_none(),
            },
    {
        match label {
            NodeLabel::Id(id) => if id < self.nodes.len() {
                Some(id)
            } else {
                None
            },
            NodeLabel::Name(name) => self.find_node(name),
        }
    }

    /// The index of the input node, if the graph has one.
    pub fn input_node(&self) -> (id: Option<usize>)
        ensures
            id == self@.input_node,
    {
        self.input_node
    }

    pub fn node_count(&self) -> (n: usize)
        ensures
            n == self@.nodes.len(),
    {
        self.nodes.len()
    }

    pub fn edge_count(&self) -> (n: usize)
        ensures
            n == self@.edges.len(),
    {
        self.edges.len()
    }

    /// The node at `id`, where there is one.
    pub fn node(&self, id: usize) -> (node: Option<&NodeState>)
        ensures
            match node {
                Some(n) => id < self@.nodes.len() && n@ == self@.nodes[id as int],
                None => id >= self@.nodes.len(),
            },
    {
        if id < self.nodes.len() {
            Some(&self.nodes[id])
        } else {
            None
        }
    }

    /// Whether the edge is in the graph.
    pub fn has_edge(&self, edge: &Edge) -> (found: bool)
        ensures
            found == self@.edges.contains(*edge),
    {
        let mut i: usize = 0;
        while i < self.edges.len()
            invariant
                i <= self.edges@.len(),
                forall|k: int| 0 <= k < i ==> self@.edges[k] != *edge,
            decreases self.edges@.len() - i,
        {
            if self.edges[i] == *edge {
                return true;
            }
            i += 1;
        }
        false
    }

    /// Whether some slot edge enters the given input slot.
    fn is_occupied(&self, node: usize, index: usize) -> (found: bool)
        ensures
            found == self@.occupied(node, index),
    {
        let mut i: usize = 0;
        while i < self.edges.len()
            invariant
                i <= self.edges@.len(),
                forall|k: int| 0 <= k < i ==> !(#[trigger] self@.edges[k]).enters_slot(node, index),
            decreases self.edges@.len() - i,
        {
            match self.edges[i] {
                Edge::SlotEdge { input_node, input_index, .. } => {
                    if input_node == node && input_index == index {
                        assert(self@.edges[i as int].enters_slot(node, index));
                        return true;
                    }
                },
                Edge::NodeEdge { .. } => {},
            }
            i += 1;
        }
        false
    }

    /// The order in which the nodes run: every edge runs forward, and at each
    /// position stands the node of least index that may run there.
    ///
    /// Fails exactly when the edges admit no order.
    pub fn schedule(&self) -> (r: Result<Vec<usize>, RenderGraphError>)
        requires
            self@.wf(),
        ensures
            match r {
                Ok(order) => {
                    &&& valid_schedule(self@.nodes.len(), self@.edges, order@)
                    &&& least_first(self@.edges, order@)
                },
                Err(e) => {
                    &&& e == RenderGraphError::Cycle
                    &&& forall|s: Seq<usize>| !valid_schedule(self@.nodes.len(), self@.edges, s)
                },
            },
    {
        proof {
            assert forall|e: int| 0 <= e < self@.edges.len() implies (
            #[trigger] self@.edges[e]).before() < self@.nodes.len() && self@.edges[e].after()
                < self@.nodes.len() by {
                assert(self@.admits(self@.edges[e]));
            }
        }
        pass_order(self.nodes.len(), &self.edges)
    }

    /// Orders `output_node` before `input_node`.
    ///
    /// Fails, and changes nothing, exactly when a label names no node or the
    /// edge exists.
    pub fn add_node_edge(&mut self, output_node: NodeLabel, input_node: NodeLabel) -> (r: Result<
        (),
        RenderGraphError,
    >)
        requires
            old(self)@.wf(),
        ensures
            final(self)@.wf(),
            match old(self)@.node_edge(output_node, input_node) {
                Ok(edge) => r == Ok::<(), RenderGraphError>(()) && final(self)@ == old(self)@.with_edge(edge),
                Err(e) => r == Err::<(), RenderGraphError>(e) && final(self)@ == old(self)@,
            },
    {
        let source = match self.get_node_id(output_node) {
            Some(id) => id,
            None => {
                return Err(RenderGraphError::InvalidNode);
            },
        };
        let target = match self.get_node_id(input_node) {
            Some(id) => id,
            None => {
                return Err(RenderGraphError::InvalidNode);
            },
        };
        let edge = Edge::NodeEdge { output_node: source, input_node: target };
        if self.has_edge(&edge) {
            return Err(RenderGraphError::EdgeAlreadyExists);
        }
        self.edges.push(edge);
        Ok(())
    }

    /// Connects an output slot to an input slot, which also orders the output
    /// node before the input node.
    ///
    /// Fails, and changes nothing, exactly when the model gives an error for
    /// the edge.
    pub fn add_slot_edge(
        &mut self,
        output_node: NodeLabel,
        output_slot: &str,
        input_node: NodeLabel,
        input_slot: &str,
    ) -> (r: Result<(), RenderGraphError>)
        requires
            old(self)@.wf(),
        ensures
            final(self)@.wf(),
            match old(self)@.slot_edge(output_node, output_slot@, input_node, input_slot@) {
                Ok(edge) => r == Ok::<(), RenderGraphError>(()) && final(self)@ == old(self)@.with_edge(edge),
                Err(e) => r == Err::<(), RenderGraphError>(e) && final(self)@ == old(self)@,
            },
    {
        let source = match self.get_node_id(output_node) {
            Some(id) => id,
            None => {
                return Err(RenderGraphError::InvalidNode);
            },
        };
        let target = match self.get_node_id(input_node) {
            Some(id) => id,
            None => {
                return Err(RenderGraphError::InvalidNode);
            },
        };
        let output_index = match find_slot(&self.nodes[source].output_slots, output_slot) {
            Some(index) => index,
            None => {
                return Err(RenderGraphError::InvalidOutputNodeSlot);
            },
        };
        let input_index = match find_slot(&self.nodes[target].input_slots, input_slot) {
            Some(index) => index,
            None => {
                return Err(RenderGraphError::InvalidInputNodeSlot);
            },
        };
        let edge = Edge::SlotEdge {
            output_node: source,
            output_index,
            input_node: target,
            input_index,
        };
        if self.has_edge(&edge) {
            return Err(RenderGraphError::EdgeAlreadyExists);
        }
        if self.is_occupied(target, input_index) {
            return Err(RenderGraphError::NodeInputSlotAlreadyOccupied);
        }
        if !slot_types_match(
            self.nodes[source].output_slots[output_index].slot_type,
            self.nodes[target].input_slots[input_index].slot_type,
        ) {
            return Err(RenderGraphError::MismatchedNodeSlots);
        }
        self.edges.push(edge);
        Ok(())
    }
}

/// Whether two slots carry one type.
fn slot_types_match(a: SlotType, b: SlotType) -> (same: bool)
    ensures
        same == (a == b),
{
    a == b
}

} // verus!
