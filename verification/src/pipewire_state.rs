//! The mirror for a program that talks to the server and shows the graph on
//! one and the same thread: each announcement of the registry is turned
//! into a call to the view at once.
//!
//! Here a link is taken from the properties it is announced with; no report
//! is waited for.

use crate::classify::{media_type, media_type_of, node_name, node_name_of};
use crate::diagnostic::Diagnostic;
use crate::pipewire_connection::state::{Graph, Item, State};
use crate::pipewire_connection::{
    announced_link, announced_link_message, graph_after_link, graph_after_port,
    handle_global_remove, handle_link, handle_port, port_diagnostic, port_message,
    removal_message,
};
use crate::registry::{GlobalObject, ObjectType};
use crate::view::{view_call, view_call_of, Update, ViewCall, ViewCallView};
use vstd::prelude::*;

verus! {

/// The properties of an announced object; none at all if it came without a
/// dictionary.
pub open spec fn props_or_empty(global: GlobalObject) -> Map<Seq<char>, Seq<char>> {
    match global.props {
        Some(props) => props@,
        None => Map::empty(),
    }
}

/// The call that shows an announced object, if it is shown.
///
/// A node is always shown, under the nicest name that its properties offer
/// or under no name. A port and a link are shown unless they are turned
/// away; a link is shown as not active. Objects of other kinds are not
/// shown.
pub open spec fn call_for_global(graph: Graph, global: GlobalObject) -> Option<ViewCallView> {
    match global.type_ {
        ObjectType::Node => Some(
            ViewCallView::AddNode { id: global.id, name: node_name_of(props_or_empty(global)) },
        ),
        ObjectType::Port => match port_message(graph, global) {
            Ok(message) => Some(view_call_of(message)),
            Err(_) => None,
        },
        ObjectType::Link => match announced_link_message(global) {
            Ok(message) => Some(view_call_of(message)),
            Err(_) => None,
        },
        ObjectType::Other => None,
    }
}

/// What is to be noted about an announced object.
pub open spec fn diagnostic_for_global(graph: Graph, global: GlobalObject) -> Option<Diagnostic> {
    match global.type_ {
        ObjectType::Node => None,
        ObjectType::Port => match port_message(graph, global) {
            Ok(_) => port_diagnostic(graph, global),
            Err(error) => Some(Diagnostic::Rejected { id: global.id, error }),
        },
        ObjectType::Link => match announced_link(global) {
            Ok(_) => None,
            Err(error) => Some(Diagnostic::Rejected { id: global.id, error }),
        },
        ObjectType::Other => None,
    }
}

/// The store after an object was announced. An object that is turned away,
/// or is of another kind, leaves it as it was.
pub open spec fn graph_after_global(graph: Graph, global: GlobalObject) -> Graph {
    match global.type_ {
        ObjectType::Node => graph.insert(
            global.id,
            Item::Node { media_type: media_type_of(props_or_empty(global)) },
        ),
        ObjectType::Port => graph_after_port(graph, global),
        ObjectType::Link => graph_after_link(graph, global),
        ObjectType::Other => graph,
    }
}

/// This struct stores the state of the pipewire graph.
///
/// It receives updates from the connection responsible for updating it and
/// applies them to its internal state.
///
/// For each update it says how the view is to follow, so that the view
/// always reflects this internal state.
pub struct PipewireState {
    state: State,
}

impl PipewireState {
    /// What the state holds, as a [`Graph`].
    pub closed spec fn view(&self) -> Graph {
        self.state@
    }

    /// Creates a state without objects.
    pub fn new() -> (result: Self)
        ensures
            result@ == Graph::empty(),
    {
        PipewireState { state: State::new() }
    }

    /// This function is called for each object that the registry announces.
    pub fn global(&mut self, global: GlobalObject) -> (update: Update)
        ensures
            update.is(
                call_for_global(old(self)@, global),
                diagnostic_for_global(old(self)@, global),
            ),
            final(self)@ == graph_after_global(old(self)@, global),
            old(self)@.sound() ==> final(self)@.sound(),
    {
        match global.type_ {
            ObjectType::Node => self.add_node(&global),
            ObjectType::Port => self.add_port(&global),
            ObjectType::Link => self.add_link(&global),
            ObjectType::Other => Update { call: None, diagnostic: None },
        }
    }

    /// Stores a node and shows it. A node needs no property: without a
    /// name it is shown under the empty name, and without a media class it
    /// has no media type.
    fn add_node(&mut self, node: &GlobalObject) -> (update: Update)
        ensures
            update.is(
                Some(ViewCallView::AddNode { id: node.id, name: node_name_of(props_or_empty(*node)) }),
                None,
            ),
            final(self)@ == old(self)@.insert(
                node.id,
                Item::Node { media_type: media_type_of(props_or_empty(*node)) },
            ),
            old(self)@.sound() ==> final(self)@.sound(),
    {
        let (name, media_type) = match &node.props {
            Some(props) => (node_name(props), media_type(props)),
            None => (String::new(), None),
        };
        // Save the node so that its ports can be coloured.
        self.state.insert(node.id, Item::Node { media_type });
        Update { call: Some(ViewCall::AddNode { id: node.id, name }), diagnostic: None }
    }

    /// Stores a port and shows it on its node, coloured by the media type
    /// of that node.
    fn add_port(&mut self, port: &GlobalObject) -> (update: Update)
        ensures
            match port_message(old(self)@, *port) {
                Ok(message) => update.is(
                    Some(view_call_of(message)),
                    port_diagnostic(old(self)@, *port),
                ),
                Err(error) => update.is(None, Some(Diagnostic::Rejected { id: port.id, error })),
            },
            final(self)@ == graph_after_port(old(self)@, *port),
            old(self)@.sound() ==> final(self)@.sound(),
    {
        match handle_port(port, &mut self.state) {
            Ok((message, diagnostic)) => Update { call: Some(view_call(message)), diagnostic },
            Err(error) => Update {
                call: None,
                diagnostic: Some(Diagnostic::Rejected { id: port.id, error }),
            },
        }
    }

    /// Stores a link as its properties describe it, and shows it. A link
    /// that lacks one of the four identifiers is turned away.
    fn add_link(&mut self, link: &GlobalObject) -> (update: Update)
        ensures
            match announced_link_message(*link) {
                Ok(message) => update.is(Some(view_call_of(message)), None),
                Err(error) => update.is(None, Some(Diagnostic::Rejected { id: link.id, error })),
            },
            final(self)@ == graph_after_link(old(self)@, *link),
            old(self)@.sound() ==> final(self)@.sound(),
    {
        match handle_link(link, &mut self.state) {
            Ok(message) => Update { call: Some(view_call(message)), diagnostic: None },
            Err(error) => Update {
                call: None,
                diagnostic: Some(Diagnostic::Rejected { id: link.id, error }),
            },
        }
    }

    /// This function is called for each object that the registry withdraws.
    ///
    /// The object leaves the state, and the view is told to take it away,
    /// by its kind. For an object that the state does not hold, nothing
    /// changes and the fact is noted.
    pub fn global_remove(&mut self, id: u32) -> (update: Update)
        ensures
            match removal_message(old(self)@, id) {
                Some(message) => update.is(Some(view_call_of(message)), None),
                None => update.is(None, Some(Diagnostic::UnknownRemoval { id })),
            },
            final(self)@ == old(self)@.remove(id),
            old(self)@.sound() ==> final(self)@.sound(),
            old(self)@.consistent() ==> final(self)@.consistent(),
    {
        match handle_global_remove(id, &mut self.state) {
            Some(message) => Update { call: Some(view_call(message)), diagnostic: None },
            None => Update { call: None, diagnostic: Some(Diagnostic::UnknownRemoval { id }) },
        }
    }
}

} // verus!
