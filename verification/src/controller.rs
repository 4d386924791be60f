//! The mediator between the pipewire thread and the view.

use crate::diagnostic::Diagnostic;
pub use crate::message::MediaType;
use crate::message::{Direction, MessageView, PipewireLink, PipewireMessage};
use crate::pipewire_connection::state::{Graph, Item, State};
use crate::pipewire_connection::{
    action_for, diagnostic_for, graph_after, graph_after_all, handle_global_remove,
    removal_message, ActionView, Event,
};
use crate::view::{view_call, view_call_of, Update, ViewCall, ViewCallView};
use vstd::prelude::*;

verus! {

/// The call that shows what `message` tells, when the controller holds
/// `graph`. A port is coloured by the media type of its node as the
/// controller has it, and a withdrawn object is taken away by the kind under
/// which the controller has it.
pub open spec fn call_for_message(graph: Graph, message: MessageView) -> Option<ViewCallView> {
    match message {
        MessageView::PortAdded { id, node_id, name, direction, .. } => Some(
            ViewCallView::AddPort {
                node_id,
                port_id: id,
                port_name: name,
                port_direction: direction,
                port_media_type: graph.media_type_of_node(node_id),
            },
        ),
        MessageView::NodeRemoved { id }
        | MessageView::PortRemoved { id, .. }
        | MessageView::LinkRemoved { id } => match removal_message(graph, id) {
            Some(removal) => Some(view_call_of(removal)),
            None => None,
        },
        _ => Some(view_call_of(message)),
    }
}

/// What is to be noted about `message` when the controller holds `graph`.
pub open spec fn diagnostic_for_message(graph: Graph, message: MessageView) -> Option<Diagnostic> {
    match message {
        MessageView::PortAdded { id, node_id, .. } => if graph.has_node(node_id) {
            None
        } else {
            Some(Diagnostic::NodeNotFound { port: id })
        },
        MessageView::NodeRemoved { id }
        | MessageView::PortRemoved { id, .. }
        | MessageView::LinkRemoved { id } => if graph.items.contains_key(id) {
            None
        } else {
            Some(Diagnostic::UnknownRemoval { id })
        },
        _ => None,
    }
}

/// What the controller holds after `message`, when it held `graph` before.
pub open spec fn graph_after_message(graph: Graph, message: MessageView) -> Graph {
    match message {
        MessageView::NodeAdded { id, media_type, .. } => graph.insert(id, Item::Node { media_type }),
        MessageView::PortAdded { id, node_id, .. } => graph.insert(id, Item::Port { node_id }),
        MessageView::LinkAdded { id, port_from, port_to, active, .. } => graph.insert(
            id,
            Item::Link { port_from, port_to, active },
        ),
        MessageView::LinkStateChanged { id, active } => graph.set_active(id, active),
        MessageView::NodeRemoved { id }
        | MessageView::PortRemoved { id, .. }
        | MessageView::LinkRemoved { id } => graph.remove(id),
    }
}

/// What the controller holds once the action that answers an event has
/// been carried out: a message that was sent has been received, and nothing
/// else reaches the controller.
pub open spec fn graph_after_action(graph: Graph, action: ActionView) -> Graph {
    match action {
        ActionView::Send { message } => graph_after_message(graph, message),
        _ => graph,
    }
}

/// What the controller holds after the pipewire thread has answered a
/// sequence of events, the first one first, and the controller has received
/// the messages in the order in which they were sent. Both start out
/// holding `graph`.
pub open spec fn mirror_after_all(graph: Graph, events: Seq<Event>) -> Graph
    decreases events.len(),
{
    if events.len() == 0 {
        graph
    } else {
        graph_after_action(
            mirror_after_all(graph, events.drop_last()),
            action_for(graph_after_all(graph, events.drop_last()), events.last()),
        )
    }
}

/// A controller that holds what the store of the pipewire thread holds
/// still does so after any event: the message that the event calls for, if
/// any, makes of the controller's graph what the event makes of the store.
/// The controller then shows exactly what the message tells, and notes
/// nothing that the pipewire thread has not noted.
pub proof fn lemma_controller_follows(graph: Graph, event: Event)
    ensures
        graph_after_action(graph, action_for(graph, event)) == graph_after(graph, event),
        action_for(graph, event) matches ActionView::Send { message } ==> {
            &&& call_for_message(graph, message) == Some(view_call_of(message))
            &&& diagnostic_for_message(graph, message) == diagnostic_for(graph, event)
        },
{
    if let Event::GlobalRemove { id } = event {
        if !graph.items.contains_key(id) {
            assert(graph.items.remove(id) =~= graph.items);
        }
    }
}

/// As long as the messages reach the controller in the order in which the
/// pipewire thread sent them, the controller holds what the store of the
/// pipewire thread holds, whatever the events were.
pub proof fn lemma_controller_mirrors(graph: Graph, events: Seq<Event>)
    ensures
        mirror_after_all(graph, events) == graph_after_all(graph, events),
    decreases events.len(),
{
    if events.len() > 0 {
        lemma_controller_mirrors(graph, events.drop_last());
        lemma_controller_follows(graph_after_all(graph, events.drop_last()), events.last());
    }
}

/// Mediator between the pipewire connection and the view.
///
/// The Controller is the central piece of the architecture.
/// It receives updates from the pipewire connection and says how the view
/// is to follow.
///
/// It also keeps and manages a state object that contains the current state
/// of objects present on the remote.
pub struct Controller {
    state: State,
}

impl Controller {
    /// What the controller holds, as a [`Graph`].
    pub closed spec fn view(&self) -> Graph {
        self.state@
    }

    /// Create a new controller.
    pub fn new() -> (result: Self)
        ensures
            result@ == Graph::empty(),
    {
        Controller { state: State::new() }
    }

    /// React to a message received from the pipewire thread.
    pub fn receive(&mut self, message: PipewireMessage) -> (update: Update)
        ensures
            update.is(
                call_for_message(old(self)@, message@),
                diagnostic_for_message(old(self)@, message@),
            ),
            final(self)@ == graph_after_message(old(self)@, message@),
            old(self)@.sound() ==> final(self)@.sound(),
    {
        match message {
            PipewireMessage::NodeAdded { id, name, media_type, .. } => Update {
                call: Some(self.add_node(id, name, media_type)),
                diagnostic: None,
            },
            PipewireMessage::PortAdded { id, node_id, name, direction, .. } => self.add_port(
                id,
                node_id,
                name,
                direction,
            ),
            PipewireMessage::LinkAdded { id, node_from, port_from, node_to, port_to, active } => {
                let link = PipewireLink { node_from, port_from, node_to, port_to };
                Update { call: Some(self.add_link(id, link, active)), diagnostic: None }
            },
            PipewireMessage::LinkStateChanged { id, active } => {
                self.state.set_link_active(id, active);
                Update { call: Some(ViewCall::SetLinkState { id, active }), diagnostic: None }
            },
            PipewireMessage::NodeRemoved { id } => self.remove_global(id),
            PipewireMessage::PortRemoved { id, .. } => self.remove_global(id),
            PipewireMessage::LinkRemoved { id } => self.remove_global(id),
        }
    }

    /// Handle a node object being added.
    pub fn add_node(&mut self, id: u32, name: String, media_type: Option<MediaType>) -> (call:
        ViewCall)
        ensures
            call@ == (ViewCallView::AddNode { id, name: name@ }),
            final(self)@ == old(self)@.insert(id, Item::Node { media_type }),
            old(self)@.sound() ==> final(self)@.sound(),
    {
        self.state.insert(id, Item::Node { media_type });
        ViewCall::AddNode { id, name }
    }

    /// Handle a port object being added.
    ///
    /// The port is shown with the media type of its node. If the
    /// controller does not hold the node, the port has no media type and
    /// the fact is noted.
    pub fn add_port(&mut self, id: u32, node_id: u32, name: String, direction: Direction) -> (update:
        Update)
        ensures
            update.is(
                Some(
                    ViewCallView::AddPort {
                        node_id,
                        port_id: id,
                        port_name: name@,
                        port_direction: direction,
                        port_media_type: old(self)@.media_type_of_node(node_id),
                    },
                ),
                if old(self)@.has_node(node_id) {
                    None
                } else {
                    Some(Diagnostic::NodeNotFound { port: id })
                },
            ),
            final(self)@ == old(self)@.insert(id, Item::Port { node_id }),
            old(self)@.sound() ==> final(self)@.sound(),
    {
        // Find out the nodes media type so that the port can be colored.
        let (media_type, diagnostic) = match self.state.get(node_id) {
            Some(Item::Node { media_type }) => (*media_type, None),
            _ => (None, Some(Diagnostic::NodeNotFound { port: id })),
        };
        // Save node_id so we can delete this port easily.
        self.state.insert(id, Item::Port { node_id });
        Update {
            call: Some(
                ViewCall::AddPort {
                    node_id,
                    port_id: id,
                    port_name: name,
                    port_direction: direction,
                    port_media_type: media_type,
                },
            ),
            diagnostic,
        }
    }

    /// Handle a link object being added.
    pub fn add_link(&mut self, id: u32, link: PipewireLink, active: bool) -> (call: ViewCall)
        ensures
            call@ == (ViewCallView::AddLink { id, link, active }),
            final(self)@ == old(self)@.insert(
                id,
                Item::Link { port_from: link.port_from, port_to: link.port_to, active },
            ),
            old(self)@.sound() ==> final(self)@.sound(),
    {
        self.state.insert(
            id,
            Item::Link { port_from: link.port_from, port_to: link.port_to, active },
        );
        ViewCall::AddLink { id, link, active }
    }

    /// Handle a globalobject being removed.
    /// Relevant objects are removed from the view and the state.
    pub fn remove_global(&mut self, id: u32) -> (update: Update)
        ensures
            match removal_message(old(self)@, id) {
                Some(message) => update.is(Some(view_call_of(message)), None),
                None => update.is(None, Some(Diagnostic::UnknownRemoval { id })),
            },
            final(self)@ == old(self)@.remove(id),
            old(self)@.sound() ==> final(self)@.sound(),
            old(self)@.consistent() ==> final(self)@.consistent(),
    {
        match handle_global_remove(id, &mut self.state) {
            Some(message) => Update { call: Some(view_call(message)), diagnostic: None },
            None => Update { call: None, diagnostic: Some(Diagnostic::UnknownRemoval { id }) },
        }
    }
}

} // verus!
