//! The calls by which the graph is shown. The view itself draws and lays
//! out; here is only what it is asked to do.

use crate::diagnostic::Diagnostic;
use crate::message::{
    Direction, GtkMessage, MediaType, MessageView, PipewireLink, PipewireMessage,
};
use vstd::prelude::*;

verus! {

/// One call to the view.
#[derive(Debug, Clone, PartialEq, Eq)]
pub enum ViewCall {
    /// Add a new node to the view.
    AddNode { id: u32, name: String },
    /// Add a new port to the view, on the node `node_id`.
    AddPort {
        node_id: u32,
        port_id: u32,
        port_name: String,
        port_direction: Direction,
        port_media_type: Option<MediaType>,
    },
    /// Add a new link to the view.
    AddLink { id: u32, link: PipewireLink, active: bool },
    /// Show the link `id` as active or not.
    SetLinkState { id: u32, active: bool },
    /// Remove the node with the specified id from the view.
    RemoveNode { id: u32 },
    /// Remove the port with the id `id` from the node with the id `node_id`
    /// from the view.
    RemovePort { id: u32, node_id: u32 },
    /// Remove the link with the specified id from the view.
    RemoveLink { id: u32 },
}

/// What a [`ViewCall`] asks for, with the names as text values.
pub enum ViewCallView {
    AddNode { id: u32, name: Seq<char> },
    AddPort {
        node_id: u32,
        port_id: u32,
        port_name: Seq<char>,
        port_direction: Direction,
        port_media_type: Option<MediaType>,
    },
    AddLink { id: u32, link: PipewireLink, active: bool },
    SetLinkState { id: u32, active: bool },
    RemoveNode { id: u32 },
    RemovePort { id: u32, node_id: u32 },
    RemoveLink { id: u32 },
}

impl ViewCall {
    /// What the call asks for.
    pub open spec fn view(&self) -> ViewCallView {
        match *self {
            ViewCall::AddNode { id, name } => ViewCallView::AddNode { id, name: name@ },
            ViewCall::AddPort {
                node_id,
                port_id,
                port_name,
                port_direction,
                port_media_type,
            } => ViewCallView::AddPort {
                node_id,
                port_id,
                port_name: port_name@,
                port_direction,
                port_media_type,
            },
            ViewCall::AddLink { id, link, active } => ViewCallView::AddLink { id, link, active },
            ViewCall::SetLinkState { id, active } => ViewCallView::SetLinkState { id, active },
            ViewCall::RemoveNode { id } => ViewCallView::RemoveNode { id },
            ViewCall::RemovePort { id, node_id } => ViewCallView::RemovePort { id, node_id },
            ViewCall::RemoveLink { id } => ViewCallView::RemoveLink { id },
        }
    }
}

/// What is to be shown, and what is to be noted in the log.
#[derive(Debug, Clone, PartialEq, Eq)]
pub struct Update {
    pub call: Option<ViewCall>,
    pub diagnostic: Option<Diagnostic>,
}

impl Update {
    /// The update asks for exactly the call `call`, or for none if `call` is
    /// none, and notes exactly `diagnostic`.
    pub open spec fn is(self, call: Option<ViewCallView>, diagnostic: Option<Diagnostic>) -> bool {
        &&& match call {
            Some(expected) => self.call matches Some(asked) && asked@ == expected,
            None => self.call is None,
        }
        &&& self.diagnostic == diagnostic
    }
}

/// The call that shows what a message tells: each message of the pipewire
/// thread stands for one call to the view.
pub open spec fn view_call_of(message: MessageView) -> ViewCallView {
    match message {
        MessageView::NodeAdded { id, name, .. } => ViewCallView::AddNode { id, name },
        MessageView::PortAdded {
            id,
            node_id,
            name,
            direction,
            media_type,
        } => ViewCallView::AddPort {
            node_id,
            port_id: id,
            port_name: name,
            port_direction: direction,
            port_media_type: media_type,
        },
        MessageView::LinkAdded {
            id,
            node_from,
            port_from,
            node_to,
            port_to,
            active,
        } => ViewCallView::AddLink {
            id,
            link: PipewireLink { node_from, port_from, node_to, port_to },
            active,
        },
        MessageView::LinkStateChanged { id, active } => ViewCallView::SetLinkState { id, active },
        MessageView::NodeRemoved { id } => ViewCallView::RemoveNode { id },
        MessageView::PortRemoved { id, node_id } => ViewCallView::RemovePort { id, node_id },
        MessageView::LinkRemoved { id } => ViewCallView::RemoveLink { id },
    }
}

/// Turns a message of the pipewire thread into the call that shows it.
pub fn view_call(message: PipewireMessage) -> (call: ViewCall)
    ensures
        call@ == view_call_of(message@),
{
    match message {
        PipewireMessage::NodeAdded { id, name, .. } => ViewCall::AddNode { id, name },
        PipewireMessage::PortAdded { id, node_id, name, direction, media_type } => ViewCall::AddPort {
            node_id,
            port_id: id,
            port_name: name,
            port_direction: direction,
            port_media_type: media_type,
        },
        PipewireMessage::LinkAdded {
            id,
            node_from,
            port_from,
            node_to,
            port_to,
            active,
        } => ViewCall::AddLink {
            id,
            link: PipewireLink { node_from, port_from, node_to, port_to },
            active,
        },
        PipewireMessage::LinkStateChanged { id, active } => ViewCall::SetLinkState { id, active },
        PipewireMessage::NodeRemoved { id } => ViewCall::RemoveNode { id },
        PipewireMessage::PortRemoved { id, node_id } => ViewCall::RemovePort { id, node_id },
        PipewireMessage::LinkRemoved { id } => ViewCall::RemoveLink { id },
    }
}

/// The message that a drop of one port on another calls for.
///
/// A link always leaves an output port and enters an input port, so the
/// output port of the two is named first, whichever of them was dragged.
/// Two ports of the same direction cannot be linked: the drop calls for
/// nothing.
pub open spec fn toggle_for_drop(
    dragged: u32,
    dragged_direction: Direction,
    target: u32,
    target_direction: Direction,
) -> Option<GtkMessage> {
    match (dragged_direction, target_direction) {
        (Direction::Output, Direction::Input) => Some(
            GtkMessage::ToggleLink { port_from: dragged, port_to: target },
        ),
        (Direction::Input, Direction::Output) => Some(
            GtkMessage::ToggleLink { port_from: target, port_to: dragged },
        ),
        _ => None,
    }
}

/// It makes no difference to the link asked for which of the two ports was
/// dragged and which was the target.
pub proof fn lemma_drop_is_symmetric(a: u32, a_direction: Direction, b: u32, b_direction: Direction)
    ensures
        toggle_for_drop(a, a_direction, b, b_direction) == toggle_for_drop(
            b,
            b_direction,
            a,
            a_direction,
        ),
{
}

/// Decides what to ask of the pipewire thread when the port `dragged` was
/// dropped on the port `target`.
pub fn port_dropped(
    dragged: u32,
    dragged_direction: Direction,
    target: u32,
    target_direction: Direction,
) -> (message: Option<GtkMessage>)
    ensures
        message == toggle_for_drop(dragged, dragged_direction, target, target_direction),
{
    match (dragged_direction, target_direction) {
        (Direction::Output, Direction::Input) => Some(
            GtkMessage::ToggleLink { port_from: dragged, port_to: target },
        ),
        (Direction::Input, Direction::Output) => Some(
            GtkMessage::ToggleLink { port_from: target, port_to: dragged },
        ),
        _ => None,
    }
}

} // verus!
