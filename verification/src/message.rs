//! The plain records that describe graph objects and that travel between the
//! thread that owns the PipeWire connection and the thread that presents the
//! graph.

use vstd::prelude::*;

verus! {

/// The kind of media that a node and its ports carry.
#[derive(Debug, Copy, Clone, PartialEq, Eq, Structural)]
pub enum MediaType {
    Audio,
    Video,
    Midi,
}

/// The role of a node: a consumer of media or a producer of it.
#[derive(Debug, Copy, Clone, PartialEq, Eq, Structural)]
pub enum NodeType {
    Input,
    Output,
}

/// The side of a node that a port sits on.
#[derive(Debug, Copy, Clone, PartialEq, Eq, Structural)]
pub enum Direction {
    Input,
    Output,
}

/// The four identifiers that place a link in the graph: it leaves the node
/// `node_from` through `port_from` and enters `node_to` through `port_to`.
#[derive(Debug, Copy, Clone, PartialEq, Eq, Structural)]
pub struct PipewireLink {
    pub node_from: u32,
    pub port_from: u32,
    pub node_to: u32,
    pub port_to: u32,
}

/// Messages sent by the GTK thread to notify the pipewire thread.
#[derive(Debug, Copy, Clone, PartialEq, Eq, Structural)]
pub enum GtkMessage {
    /// Toggle a link between the two specified ports.
    ToggleLink { port_from: u32, port_to: u32 },
    /// Quit the event loop and let the thread finish.
    Terminate,
}

/// Messages sent by the pipewire thread to notify the GTK thread.
#[derive(Debug, Clone, PartialEq, Eq)]
pub enum PipewireMessage {
    NodeAdded { id: u32, name: String, media_type: Option<MediaType>, node_type: Option<NodeType> },
    PortAdded {
        id: u32,
        node_id: u32,
        name: String,
        direction: Direction,
        media_type: Option<MediaType>,
    },
    LinkAdded { id: u32, node_from: u32, port_from: u32, node_to: u32, port_to: u32, active: bool },
    LinkStateChanged { id: u32, active: bool },
    NodeRemoved { id: u32 },
    PortRemoved { id: u32, node_id: u32 },
    LinkRemoved { id: u32 },
}

/// What a [`PipewireMessage`] says, with the name as a text value.
pub enum MessageView {
    NodeAdded { id: u32, name: Seq<char>, media_type: Option<MediaType>, node_type: Option<NodeType> },
    PortAdded {
        id: u32,
        node_id: u32,
        name: Seq<char>,
        direction: Direction,
        media_type: Option<MediaType>,
    },
    LinkAdded { id: u32, node_from: u32, port_from: u32, node_to: u32, port_to: u32, active: bool },
    LinkStateChanged { id: u32, active: bool },
    NodeRemoved { id: u32 },
    PortRemoved { id: u32, node_id: u32 },
    LinkRemoved { id: u32 },
}

impl PipewireMessage {
    /// What the message says.
    pub open spec fn view(&self) -> MessageView {
        match *self {
            PipewireMessage::NodeAdded { id, name, media_type, node_type } => MessageView::NodeAdded {
                id,
                name: name@,
                media_type,
                node_type,
            },
            PipewireMessage::PortAdded {
                id,
                node_id,
                name,
                direction,
                media_type,
            } => MessageView::PortAdded { id, node_id, name: name@, direction, media_type },
            PipewireMessage::LinkAdded {
                id,
                node_from,
                port_from,
                node_to,
                port_to,
                active,
            } => MessageView::LinkAdded { id, node_from, port_from, node_to, port_to, active },
            PipewireMessage::LinkStateChanged { id, active } => MessageView::LinkStateChanged {
                id,
                active,
            },
            PipewireMessage::NodeRemoved { id } => MessageView::NodeRemoved { id },
            PipewireMessage::PortRemoved { id, node_id } => MessageView::PortRemoved { id, node_id },
            PipewireMessage::LinkRemoved { id } => MessageView::LinkRemoved { id },
        }
    }
}

} // verus!
