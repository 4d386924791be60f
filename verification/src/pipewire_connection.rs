//! The connection side of the mirror: what the thread that owns the PipeWire
//! connection does with each event that reaches it.
//!
//! Events come from two sides. The registry announces objects, withdraws
//! them, and reports on the links that were bound; the GTK thread sends
//! [`GtkMessage`]s. For each event the functions here update the [`State`]
//! and say what is to be done: a message to send to the GTK thread, a request
//! to make of the server, or nothing. They perform none of it themselves, and
//! they never fail as a whole: an object that cannot be represented is turned
//! away alone.

pub mod state;

use crate::classify::{
    direction_of, id_of, id_property, media_type, media_type_of, node_name, node_name_of,
    node_type, node_type_of, port_direction, port_name, port_name_of, IdKey, ProtocolError,
};
use crate::diagnostic::Diagnostic;
use crate::message::{GtkMessage, MessageView, PipewireLink, PipewireMessage};
use crate::registry::{
    link_from_properties, link_of, Command, GlobalObject, LinkInfo, ObjectType,
};
use state::{
    lemma_insert_consistent, lemma_insert_sound, lemma_remove_consistent, lemma_remove_sound,
    lemma_set_active_consistent, Graph, Item, State,
};
use vstd::prelude::*;

verus! {

/// Why a link cannot be toggled.
#[derive(Debug, Copy, Clone, PartialEq, Eq, Structural)]
pub enum ToggleError {
    /// No port is stored under `port`: what the user saw was out of date.
    PortNotFound { port: u32 },
}

/// The message that announces a node, or why the node is turned away.
pub open spec fn node_message(node: GlobalObject) -> Result<MessageView, ProtocolError> {
    match node.props {
        None => Err(ProtocolError::NoProperties),
        Some(props) => Ok(
            MessageView::NodeAdded {
                id: node.id,
                name: node_name_of(props@),
                media_type: media_type_of(props@),
                node_type: node_type_of(props@),
            },
        ),
    }
}

/// The store after a node was announced: it holds the node with its media
/// type, unless the node is turned away.
pub open spec fn graph_after_node(graph: Graph, node: GlobalObject) -> Graph {
    match node.props {
        None => graph,
        Some(props) => graph.insert(node.id, Item::Node { media_type: media_type_of(props@) }),
    }
}

/// The node that an announced port names as its owner, or why the port is
/// turned away.
pub open spec fn port_owner(port: GlobalObject) -> Result<u32, ProtocolError> {
    match port.props {
        None => Err(ProtocolError::NoProperties),
        Some(props) => id_of(props@, IdKey::NodeId),
    }
}

/// The message that announces a port, or why the port is turned away. The
/// media type is that of the owning node as the store has it; none if the
/// node is not there.
pub open spec fn port_message(graph: Graph, port: GlobalObject) -> Result<
    MessageView,
    ProtocolError,
> {
    match port_owner(port) {
        Err(error) => Err(error),
        Ok(node_id) => Ok(
            MessageView::PortAdded {
                id: port.id,
                node_id,
                name: port_name_of(port.props->0@),
                direction: direction_of(port.props->0@),
                media_type: graph.media_type_of_node(node_id),
            },
        ),
    }
}

/// What is to be noted when a port is announced: that its node is not in
/// the store, if the port is accepted and that is so.
pub open spec fn port_diagnostic(graph: Graph, port: GlobalObject) -> Option<Diagnostic> {
    match port_owner(port) {
        Ok(node_id) if !graph.has_node(node_id) => Some(Diagnostic::NodeNotFound { port: port.id }),
        _ => None,
    }
}

/// The store after a port was announced: it holds the port with its owner,
/// unless the port is turned away.
pub open spec fn graph_after_port(graph: Graph, port: GlobalObject) -> Graph {
    match port_owner(port) {
        Err(_) => graph,
        Ok(node_id) => graph.insert(port.id, Item::Port { node_id }),
    }
}

/// The link that an announced object describes by its properties, or why it
/// is turned away.
pub open spec fn announced_link(link: GlobalObject) -> Result<PipewireLink, ProtocolError> {
    match link.props {
        None => Err(ProtocolError::NoProperties),
        Some(props) => link_of(props@),
    }
}

/// The message that announces a link which came with its ends among its
/// properties, or why the link is turned away. Nothing is known of its state
/// yet, so it is announced as not active.
pub open spec fn announced_link_message(link: GlobalObject) -> Result<MessageView, ProtocolError> {
    match announced_link(link) {
        Err(error) => Err(error),
        Ok(ends) => Ok(
            MessageView::LinkAdded {
                id: link.id,
                node_from: ends.node_from,
                port_from: ends.port_from,
                node_to: ends.node_to,
                port_to: ends.port_to,
                active: false,
            },
        ),
    }
}

/// The store after a link was announced with its ends among its
/// properties: it holds the link, not active, unless the link is turned
/// away.
pub open spec fn graph_after_link(graph: Graph, link: GlobalObject) -> Graph {
    match announced_link(link) {
        Err(_) => graph,
        Ok(ends) => graph.insert(
            link.id,
            Item::Link { port_from: ends.port_from, port_to: ends.port_to, active: false },
        ),
    }
}

/// The link that the store holds once `info` has been taken as the first
/// report on its link.
pub open spec fn link_item(info: LinkInfo) -> Item {
    Item::Link { port_from: info.output_port_id, port_to: info.input_port_id, active: info.active }
}

/// The store holds an entry under the identifier that `info` reports on.
/// The report is then a later one; it is the first one otherwise.
pub open spec fn link_known(graph: Graph, info: LinkInfo) -> bool {
    graph.items.contains_key(info.id)
}

/// The report tells that the link has turned active, or has ceased to be:
/// it says that the state has changed, and the store holds the link as
/// active where the report has it as not active, or the other way round.
pub open spec fn link_turned(graph: Graph, info: LinkInfo) -> bool {
    &&& info.state_changed
    &&& graph.items.get(info.id) matches Some(Item::Link { active, .. })
    &&& active != info.active
}

/// The message that a report on a link calls for. The first report
/// announces the link. A later one tells of its state if the link has
/// turned active or has ceased to be, and calls for nothing otherwise: not
/// where the state has changed between two states of which neither or both
/// are active, and not where the entry in the store is no link.
pub open spec fn link_message(graph: Graph, info: LinkInfo) -> Option<MessageView> {
    if !link_known(graph, info) {
        Some(
            MessageView::LinkAdded {
                id: info.id,
                node_from: info.output_node_id,
                port_from: info.output_port_id,
                node_to: info.input_node_id,
                port_to: info.input_port_id,
                active: info.active,
            },
        )
    } else if link_turned(graph, info) {
        Some(MessageView::LinkStateChanged { id: info.id, active: info.active })
    } else {
        None
    }
}

/// The store after a report on a link. The first report puts the link into
/// the store and the index. A later one changes whether the link is active
/// if the link has turned active or has ceased to be, and nothing else; any
/// other later report leaves the store as it was.
pub open spec fn graph_after_link_info(graph: Graph, info: LinkInfo) -> Graph {
    if !link_known(graph, info) {
        graph.insert(info.id, link_item(info))
    } else if link_turned(graph, info) {
        graph.set_active(info.id, info.active)
    } else {
        graph
    }
}

/// The message that tells of the withdrawal of the object under `id`, by
/// its kind; none if the store holds no such object.
pub open spec fn removal_message(graph: Graph, id: u32) -> Option<MessageView> {
    match graph.items.get(id) {
        Some(Item::Node { .. }) => Some(MessageView::NodeRemoved { id }),
        Some(Item::Port { node_id }) => Some(MessageView::PortRemoved { id, node_id }),
        Some(Item::Link { .. }) => Some(MessageView::LinkRemoved { id }),
        None => None,
    }
}

/// The request that toggles the link from `port_from` to `port_to`.
///
/// If the index holds a link for the pair, that link is to be destroyed.
/// If not, a link is to be created between the two ports and the nodes that
/// own them; where a port is not in the store, the toggle is given up, and
/// the first such port is named.
pub open spec fn toggle_command(graph: Graph, port_from: u32, port_to: u32) -> Result<
    Command,
    ToggleError,
> {
    match graph.link_id(port_from, port_to) {
        Some(id) => Ok(Command::DestroyGlobal { id }),
        None => match graph.node_of_port(port_from) {
            None => Err(ToggleError::PortNotFound { port: port_from }),
            Some(node_from) => match graph.node_of_port(port_to) {
                None => Err(ToggleError::PortNotFound { port: port_to }),
                Some(node_to) => Ok(
                    Command::CreateLink {
                        link: PipewireLink { node_from, port_from, node_to, port_to },
                    },
                ),
            },
        },
    }
}

/// Handle a new node being added.
///
/// The node is stored with its media type, and announced with the nicest
/// name its properties offer. A node without properties is turned away and
/// the store is left as it was.
pub fn handle_node(node: &GlobalObject, state: &mut State) -> (sent: Result<
    PipewireMessage,
    ProtocolError,
>)
    ensures
        match node_message(*node) {
            Ok(message) => sent matches Ok(m) && m@ == message,
            Err(error) => sent matches Err(e) && e == error,
        },
        final(state)@ == graph_after_node(old(state)@, *node),
        old(state)@.sound() ==> final(state)@.sound(),
        old(state)@.consistent() ==> final(state)@.consistent(),
{
    match &node.props {
        None => Err(ProtocolError::NoProperties),
        Some(props) => {
            let name = node_name(props);
            let media_type = media_type(props);
            let node_type = node_type(props);
            state.insert(node.id, Item::Node { media_type });
            Ok(PipewireMessage::NodeAdded { id: node.id, name, media_type, node_type })
        },
    }
}

/// Handle a new port being added.
///
/// The port is stored with the node it names as its owner, and announced
/// with the media type of that node. If the node is not in the store yet,
/// the port is announced without a media type and the fact is noted. A port
/// without properties, or without a readable `node.id`, is turned away and
/// the store is left as it was.
pub fn handle_port(port: &GlobalObject, state: &mut State) -> (sent: Result<
    (PipewireMessage, Option<Diagnostic>),
    ProtocolError,
>)
    ensures
        match port_message(old(state)@, *port) {
            Ok(message) => sent matches Ok(pair) && pair.0@ == message && pair.1
                == port_diagnostic(old(state)@, *port),
            Err(error) => sent matches Err(e) && e == error,
        },
        final(state)@ == graph_after_port(old(state)@, *port),
        old(state)@.sound() ==> final(state)@.sound(),
        old(state)@.consistent() ==> final(state)@.consistent(),
{
    match &port.props {
        None => Err(ProtocolError::NoProperties),
        Some(props) => {
            let name = port_name(props);
            let node_id = match id_property(props, IdKey::NodeId) {
                Ok(id) => id,
                Err(error) => {
                    return Err(error);
                },
            };
            let direction = port_direction(props);
            // Find out the nodes media type so that the port can be colored.
            let (media_type, diagnostic) = match state.get(node_id) {
                Some(Item::Node { media_type }) => (*media_type, None),
                _ => (None, Some(Diagnostic::NodeNotFound { port: port.id })),
            };
            // Save node_id so we can delete this port easily.
            state.insert(port.id, Item::Port { node_id });
            Ok(
                (
                    PipewireMessage::PortAdded { id: port.id, node_id, name, direction, media_type },
                    diagnostic,
                ),
            )
        },
    }
}

/// Handle a new link being added, for a link that is announced with its
/// ends among its properties.
///
/// The link is stored and entered into the index at once, and announced
/// as not active. A link without properties, or without one of the four
/// identifiers in readable form, is turned away and the store is left as it
/// was.
///
/// Where the ends are not among the properties, the link is bound instead
/// and [`handle_link_info`] takes its first report.
pub fn handle_link(link: &GlobalObject, state: &mut State) -> (sent: Result<
    PipewireMessage,
    ProtocolError,
>)
    ensures
        match announced_link_message(*link) {
            Ok(message) => sent matches Ok(m) && m@ == message,
            Err(error) => sent matches Err(e) && e == error,
        },
        final(state)@ == graph_after_link(old(state)@, *link),
        old(state)@.sound() ==> final(state)@.sound(),
{
    let ends = match &link.props {
        None => Err(ProtocolError::NoProperties),
        Some(props) => link_from_properties(props),
    };
    match ends {
        Err(error) => Err(error),
        Ok(ends) => {
            state.insert(
                link.id,
                Item::Link { port_from: ends.port_from, port_to: ends.port_to, active: false },
            );
            Ok(
                PipewireMessage::LinkAdded {
                    id: link.id,
                    node_from: ends.node_from,
                    port_from: ends.port_from,
                    node_to: ends.node_to,
                    port_to: ends.port_to,
                    active: false,
                },
            )
        },
    }
}

/// Handle a report on a link that was bound.
///
/// The first report on a link puts it into the store and announces it. A
/// later report by which the link turns active, or ceases to be, updates
/// whether the link is active and tells so; any other later report changes
/// nothing and calls for no message. Which of the two a report is depends
/// on the store alone: on whether it holds an entry under the reported
/// identifier.
pub fn handle_link_info(info: &LinkInfo, state: &mut State) -> (sent: Option<PipewireMessage>)
    ensures
        match link_message(old(state)@, *info) {
            Some(message) => sent matches Some(m) && m@ == message,
            None => sent is None,
        },
        final(state)@ == graph_after_link_info(old(state)@, *info),
        link_known(old(state)@, *info) && !link_turned(old(state)@, *info) ==> sent is None
            && final(state)@ == old(state)@,
        old(state)@.sound() ==> final(state)@.sound(),
        old(state)@.consistent() && (link_known(old(state)@, *info) || old(state)@.admits(
            info.id,
            link_item(*info),
        )) ==> final(state)@.consistent(),
{
    let id = info.id;
    let (known, turned) = match state.get(id) {
        None => (false, false),
        Some(Item::Link { active, .. }) => (true, info.state_changed && *active != info.active),
        Some(_) => (true, false),
    };
    if known {
        // Info was an update - figure out if we should notify the gtk thread
        if turned {
            state.set_link_active(id, info.active);
            Some(PipewireMessage::LinkStateChanged { id, active: info.active })
        } else {
            None
        }
    } else {
        // First time we get info. We can now notify the gtk thread of a new link.
        state.insert(
            id,
            Item::Link {
                port_from: info.output_port_id,
                port_to: info.input_port_id,
                active: info.active,
            },
        );
        Some(
            PipewireMessage::LinkAdded {
                id,
                node_from: info.output_node_id,
                port_from: info.output_port_id,
                node_to: info.input_node_id,
                port_to: info.input_port_id,
                active: info.active,
            },
        )
    }
}

/// Handle an object being withdrawn.
///
/// The object leaves the store, and with it what the index held for it; the
/// message tells of the withdrawal by the kind of the object. Where the
/// store holds nothing under `id`, nothing changes and nothing is to be
/// sent.
pub fn handle_global_remove(id: u32, state: &mut State) -> (sent: Option<PipewireMessage>)
    ensures
        match removal_message(old(state)@, id) {
            Some(message) => sent matches Some(m) && m@ == message,
            None => sent is None,
        },
        final(state)@ == old(state)@.remove(id),
        old(state)@.sound() ==> final(state)@.sound(),
        old(state)@.consistent() ==> final(state)@.consistent(),
{
    match state.remove(id) {
        Some(Item::Node { .. }) => Some(PipewireMessage::NodeRemoved { id }),
        Some(Item::Port { node_id }) => Some(PipewireMessage::PortRemoved { id, node_id }),
        Some(Item::Link { .. }) => Some(PipewireMessage::LinkRemoved { id }),
        None => None,
    }
}

/// Toggle a link between the two specified ports: decide whether the link
/// from the output port `port_from` to the input port `port_to` is to be
/// destroyed or created.
///
/// The store is only read. What the request brings about becomes known
/// when the server announces or withdraws the link.
pub fn toggle_link(port_from: u32, port_to: u32, state: &State) -> (command: Result<
    Command,
    ToggleError,
>)
    ensures
        command == toggle_command(state@, port_from, port_to),
        state@.sound() ==> (command matches Ok(Command::DestroyGlobal { id }) ==> state@.is_link(
            id,
            port_from,
            port_to,
        )),
{
    if let Some(id) = state.get_link_id(port_from, port_to) {
        Ok(Command::DestroyGlobal { id })
    } else {
        let node_from = match state.get_node_of_port(port_from) {
            Some(node) => node,
            None => {
                return Err(ToggleError::PortNotFound { port: port_from });
            },
        };
        let node_to = match state.get_node_of_port(port_to) {
            Some(node) => node,
            None => {
                return Err(ToggleError::PortNotFound { port: port_to });
            },
        };
        Ok(Command::CreateLink { link: PipewireLink { node_from, port_from, node_to, port_to } })
    }
}

/// What reaches the thread that owns the connection.
#[derive(Debug)]
pub enum Event {
    /// The registry announces an object.
    Global(GlobalObject),
    /// The registry withdraws the object `id`.
    GlobalRemove { id: u32 },
    /// A bound link reports on itself.
    LinkInfo(LinkInfo),
    /// The GTK thread sends a message.
    Message(GtkMessage),
}

/// What is to be done about an event.
#[derive(Debug, Clone, PartialEq, Eq)]
pub enum Action {
    /// Nothing.
    Nothing,
    /// Send `message` to the GTK thread.
    Send { message: PipewireMessage },
    /// Bind the link `id` and listen to its reports for as long as it lives.
    Bind { id: u32 },
    /// Make the request `command` of the server.
    Issue { command: Command },
    /// Leave the event loop and let the thread finish.
    Quit,
}

/// What an [`Action`] says, with the message as a value.
pub enum ActionView {
    Nothing,
    Send { message: MessageView },
    Bind { id: u32 },
    Issue { command: Command },
    Quit,
}

impl Action {
    /// What the action says.
    pub open spec fn view(&self) -> ActionView {
        match *self {
            Action::Nothing => ActionView::Nothing,
            Action::Send { message } => ActionView::Send { message: message@ },
            Action::Bind { id } => ActionView::Bind { id },
            Action::Issue { command } => ActionView::Issue { command },
            Action::Quit => ActionView::Quit,
        }
    }
}

/// The answer to an event: what is to be done, and what is to be noted in
/// the log.
#[derive(Debug, Clone, PartialEq, Eq)]
pub struct Reaction {
    pub action: Action,
    pub diagnostic: Option<Diagnostic>,
}

/// What is to be done about `event` when the store holds `graph`.
///
/// An announced node or port is announced to the GTK thread, unless it is
/// turned away; an announced link is bound, and announced when it first
/// reports on itself; any other object is passed over. A withdrawn object
/// that the store holds is reported as withdrawn. A toggle becomes a request
/// to the server unless it is given up.
pub open spec fn action_for(graph: Graph, event: Event) -> ActionView {
    match event {
        Event::Global(global) => match global.type_ {
            ObjectType::Node => match node_message(global) {
                Ok(message) => ActionView::Send { message },
                Err(_) => ActionView::Nothing,
            },
            ObjectType::Port => match port_message(graph, global) {
                Ok(message) => ActionView::Send { message },
                Err(_) => ActionView::Nothing,
            },
            ObjectType::Link => ActionView::Bind { id: global.id },
            ObjectType::Other => ActionView::Nothing,
        },
        Event::GlobalRemove { id } => match removal_message(graph, id) {
            Some(message) => ActionView::Send { message },
            None => ActionView::Nothing,
        },
        Event::LinkInfo(info) => match link_message(graph, info) {
            Some(message) => ActionView::Send { message },
            None => ActionView::Nothing,
        },
        Event::Message(GtkMessage::ToggleLink { port_from, port_to }) => match toggle_command(
            graph,
            port_from,
            port_to,
        ) {
            Ok(command) => ActionView::Issue { command },
            Err(_) => ActionView::Nothing,
        },
        Event::Message(GtkMessage::Terminate) => ActionView::Quit,
    }
}

/// What is to be noted about `event` when the store holds `graph`.
pub open spec fn diagnostic_for(graph: Graph, event: Event) -> Option<Diagnostic> {
    match event {
        Event::Global(global) => match global.type_ {
            ObjectType::Node => match node_message(global) {
                Ok(_) => None,
                Err(error) => Some(Diagnostic::Rejected { id: global.id, error }),
            },
            ObjectType::Port => match port_message(graph, global) {
                Ok(_) => port_diagnostic(graph, global),
                Err(error) => Some(Diagnostic::Rejected { id: global.id, error }),
            },
            _ => None,
        },
        Event::GlobalRemove { id } => if graph.items.contains_key(id) {
            None
        } else {
            Some(Diagnostic::UnknownRemoval { id })
        },
        Event::LinkInfo(_) => None,
        Event::Message(GtkMessage::ToggleLink { port_from, port_to }) => match toggle_command(
            graph,
            port_from,
            port_to,
        ) {
            Ok(_) => None,
            Err(ToggleError::PortNotFound { port }) => Some(Diagnostic::PortNotFound { port }),
        },
        Event::Message(GtkMessage::Terminate) => None,
    }
}

/// The store after `event`, when it held `graph` before. Only what the
/// registry says changes the store: a message of the GTK thread never does.
pub open spec fn graph_after(graph: Graph, event: Event) -> Graph {
    match event {
        Event::Global(global) => match global.type_ {
            ObjectType::Node => graph_after_node(graph, global),
            ObjectType::Port => graph_after_port(graph, global),
            _ => graph,
        },
        Event::GlobalRemove { id } => graph.remove(id),
        Event::LinkInfo(info) => graph_after_link_info(graph, info),
        Event::Message(_) => graph,
    }
}

/// The store after a sequence of events, the first one first.
pub open spec fn graph_after_all(graph: Graph, events: Seq<Event>) -> Graph
    decreases events.len(),
{
    if events.len() == 0 {
        graph
    } else {
        graph_after(graph_after_all(graph, events.drop_last()), events.last())
    }
}

/// `event` does not report for the first time on a link whose pair of ports
/// the link under another identifier holds.
pub open spec fn no_rival_link(graph: Graph, event: Event) -> bool {
    event matches Event::LinkInfo(info) ==> link_known(graph, info) || graph.admits(
        info.id,
        link_item(info),
    )
}

/// Whatever the event, an index that only points at live links of the right
/// pair of ports still does so afterwards.
pub proof fn lemma_event_keeps_sound(graph: Graph, event: Event)
    requires
        graph.sound(),
    ensures
        graph_after(graph, event).sound(),
{
    match event {
        Event::Global(global) => match global.type_ {
            ObjectType::Node => if let Some(props) = global.props {
                lemma_insert_sound(graph, global.id, Item::Node { media_type: media_type_of(props@) });
            },
            ObjectType::Port => if let Ok(node_id) = port_owner(global) {
                lemma_insert_sound(graph, global.id, Item::Port { node_id });
            },
            _ => {},
        },
        Event::GlobalRemove { id } => lemma_remove_sound(graph, id),
        Event::LinkInfo(info) => if !link_known(graph, info) {
            lemma_insert_sound(graph, info.id, link_item(info));
        } else if link_turned(graph, info) {
            lemma_set_active_consistent(graph, info.id, info.active);
        },
        Event::Message(_) => {},
    }
}

/// Index and objects still agree after an event, unless it reports for the
/// first time on a link whose pair of ports the link under another
/// identifier holds.
pub proof fn lemma_event_keeps_consistent(graph: Graph, event: Event)
    requires
        graph.consistent(),
        no_rival_link(graph, event),
    ensures
        graph_after(graph, event).consistent(),
{
    match event {
        Event::Global(global) => match global.type_ {
            ObjectType::Node => if let Some(props) = global.props {
                lemma_insert_consistent(
                    graph,
                    global.id,
                    Item::Node { media_type: media_type_of(props@) },
                );
            },
            ObjectType::Port => if let Ok(node_id) = port_owner(global) {
                lemma_insert_consistent(graph, global.id, Item::Port { node_id });
            },
            _ => {},
        },
        Event::GlobalRemove { id } => lemma_remove_consistent(graph, id),
        Event::LinkInfo(info) => if !link_known(graph, info) {
            lemma_insert_consistent(graph, info.id, link_item(info));
        } else if link_turned(graph, info) {
            lemma_set_active_consistent(graph, info.id, info.active);
        },
        Event::Message(_) => {},
    }
}

/// Whatever events follow one another, in whatever order, an index that
/// only points at live links of the right pair of ports still does so after
/// all of them. In particular the index of a store that started empty never
/// names an object that is gone, or one that is not the link of that pair.
pub proof fn lemma_events_keep_sound(graph: Graph, events: Seq<Event>)
    requires
        graph.sound(),
    ensures
        graph_after_all(graph, events).sound(),
    decreases events.len(),
{
    if events.len() > 0 {
        lemma_events_keep_sound(graph, events.drop_last());
        lemma_event_keeps_sound(graph_after_all(graph, events.drop_last()), events.last());
    }
}

/// Asking twice in a row for the same toggle, with no word from the server
/// in between, leaves the store as it was and asks the same of the server
/// both times.
pub proof fn lemma_toggle_twice(graph: Graph, port_from: u32, port_to: u32)
    ensures
        ({
            let toggle = Event::Message(GtkMessage::ToggleLink { port_from, port_to });
            let once = graph_after(graph, toggle);
            let twice = graph_after(once, toggle);
            &&& once == graph
            &&& twice == graph
            &&& action_for(once, toggle) == action_for(graph, toggle)
            &&& diagnostic_for(once, toggle) == diagnostic_for(graph, toggle)
        }),
{
}

/// Once the server has withdrawn a link that the store and the index
/// agreed on, neither holds it any more, and a toggle of its two ports asks
/// for a link to be created or is given up: it never asks for the withdrawn
/// link to be destroyed again.
pub proof fn lemma_withdrawn_link_is_forgotten(graph: Graph, id: u32, port_from: u32, port_to: u32)
    requires
        graph.consistent(),
        graph.is_link(id, port_from, port_to),
    ensures
        !graph.remove(id).items.contains_key(id),
        graph.remove(id).link_id(port_from, port_to) is None,
        !(toggle_command(graph.remove(id), port_from, port_to) matches Ok(
            Command::DestroyGlobal { .. },
        )),
{
}

/// Answers one event: updates the store and says what is to be done and
/// what is to be noted. The caller does both and comes back with the next
/// event.
pub fn react(state: &mut State, event: &Event) -> (reaction: Reaction)
    ensures
        reaction.action@ == action_for(old(state)@, *event),
        reaction.diagnostic == diagnostic_for(old(state)@, *event),
        final(state)@ == graph_after(old(state)@, *event),
        old(state)@.sound() ==> final(state)@.sound(),
        old(state)@.consistent() && no_rival_link(old(state)@, *event) ==> final(state)@.consistent(),
{
    proof {
        if old(state)@.sound() {
            lemma_event_keeps_sound(old(state)@, *event);
        }
        if old(state)@.consistent() && no_rival_link(old(state)@, *event) {
            lemma_event_keeps_consistent(old(state)@, *event);
        }
    }
    match event {
        Event::Global(global) => match global.type_ {
            ObjectType::Node => match handle_node(global, state) {
                Ok(message) => Reaction { action: Action::Send { message }, diagnostic: None },
                Err(error) => Reaction {
                    action: Action::Nothing,
                    diagnostic: Some(Diagnostic::Rejected { id: global.id, error }),
                },
            },
            ObjectType::Port => match handle_port(global, state) {
                Ok((message, diagnostic)) => Reaction { action: Action::Send { message }, diagnostic },
                Err(error) => Reaction {
                    action: Action::Nothing,
                    diagnostic: Some(Diagnostic::Rejected { id: global.id, error }),
                },
            },
            ObjectType::Link => Reaction { action: Action::Bind { id: global.id }, diagnostic: None },
            ObjectType::Other => {
                // Other objects are not interesting to us
                Reaction { action: Action::Nothing, diagnostic: None }
            },
        },
        Event::GlobalRemove { id } => match handle_global_remove(*id, state) {
            Some(message) => Reaction { action: Action::Send { message }, diagnostic: None },
            None => Reaction {
                action: Action::Nothing,
                diagnostic: Some(Diagnostic::UnknownRemoval { id: *id }),
            },
        },
        Event::LinkInfo(info) => match handle_link_info(info, state) {
            Some(message) => Reaction { action: Action::Send { message }, diagnostic: None },
            None => Reaction { action: Action::Nothing, diagnostic: None },
        },
        Event::Message(GtkMessage::ToggleLink { port_from, port_to }) => match toggle_link(
            *port_from,
            *port_to,
            state,
        ) {
            Ok(command) => Reaction { action: Action::Issue { command }, diagnostic: None },
            Err(ToggleError::PortNotFound { port }) => Reaction {
                action: Action::Nothing,
                diagnostic: Some(Diagnostic::PortNotFound { port }),
            },
        },
        Event::Message(GtkMessage::Terminate) => Reaction {
            action: Action::Quit,
            diagnostic: None,
        },
    }
}

} // verus!
