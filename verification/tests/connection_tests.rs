use helvum::classify::{IdKey, ProtocolError};
use helvum::diagnostic::Diagnostic;
use helvum::pipewire_connection::state::{Item, State};
use helvum::pipewire_connection::{
    handle_global_remove, handle_link, handle_link_info, handle_node, handle_port, react,
    toggle_link, Action, Event, Reaction, ToggleError,
};
use helvum::properties::Properties;
use helvum::registry::{Command, GlobalObject, LinkInfo, ObjectType};
use helvum::{Direction, GtkMessage, MediaType, NodeType, PipewireLink, PipewireMessage};

fn dict(pairs: &[(&str, &str)]) -> Properties {
    let mut props = Properties::new();
    for (key, value) in pairs {
        props.insert(key, value);
    }
    props
}

fn global(id: u32, type_: ObjectType, pairs: &[(&str, &str)]) -> GlobalObject {
    GlobalObject { id, type_, props: Some(dict(pairs)) }
}

fn bare(id: u32, type_: ObjectType) -> GlobalObject {
    GlobalObject { id, type_, props: None }
}

fn info(id: u32, ports: (u32, u32), state_changed: bool, active: bool) -> LinkInfo {
    LinkInfo {
        id,
        output_node_id: 1,
        output_port_id: ports.0,
        input_node_id: 5,
        input_port_id: ports.1,
        state_changed,
        active,
    }
}

fn send(message: PipewireMessage) -> Reaction {
    Reaction { action: Action::Send { message }, diagnostic: None }
}

fn toggle(port_from: u32, port_to: u32) -> Event {
    Event::Message(GtkMessage::ToggleLink { port_from, port_to })
}

/// A store with the nodes 1 and 5 and their ports 2 (out) and 4 (in).
fn two_nodes() -> State {
    let mut state = State::new();
    state.insert(1, Item::Node { media_type: Some(MediaType::Audio) });
    state.insert(5, Item::Node { media_type: Some(MediaType::Audio) });
    state.insert(2, Item::Port { node_id: 1 });
    state.insert(4, Item::Port { node_id: 5 });
    state
}

#[test]
fn node_appears() {
    let mut state = State::new();
    let node = global(1, ObjectType::Node, &[("node.name", "mic")]);
    let sent = handle_node(&node, &mut state);
    assert_eq!(
        sent,
        Ok(PipewireMessage::NodeAdded {
            id: 1,
            name: "mic".to_string(),
            media_type: None,
            node_type: None
        })
    );
    assert_eq!(state.get(1), Some(&Item::Node { media_type: None }));
}

#[test]
fn port_appears_after_its_node() {
    let mut state = State::new();
    handle_node(&global(1, ObjectType::Node, &[("node.name", "mic")]), &mut state).unwrap();
    let port = global(2, ObjectType::Port, &[("node.id", "1"), ("port.direction", "out")]);
    let sent = handle_port(&port, &mut state);
    assert_eq!(
        sent,
        Ok((
            PipewireMessage::PortAdded {
                id: 2,
                node_id: 1,
                name: String::new(),
                direction: Direction::Output,
                media_type: None
            },
            None
        ))
    );
    assert_eq!(state.get(2), Some(&Item::Port { node_id: 1 }));
    assert_eq!(state.get_node_of_port(2), Some(1));
}

#[test]
fn port_appears_before_its_node() {
    let mut state = State::new();
    let port = global(3, ObjectType::Port, &[("node.id", "99")]);
    let sent = handle_port(&port, &mut state);
    assert_eq!(
        sent,
        Ok((
            PipewireMessage::PortAdded {
                id: 3,
                node_id: 99,
                name: String::new(),
                direction: Direction::Output,
                media_type: None
            },
            Some(Diagnostic::NodeNotFound { port: 3 })
        ))
    );
    assert_eq!(state.get(3), Some(&Item::Port { node_id: 99 }));
    assert_eq!(state.get(99), None);
}

#[test]
fn toggle_without_link_asks_for_creation() {
    let state = two_nodes();
    let command = toggle_link(2, 4, &state);
    assert_eq!(
        command,
        Ok(Command::CreateLink {
            link: PipewireLink { node_from: 1, port_from: 2, node_to: 5, port_to: 4 }
        })
    );
    // Nothing is stored until the server announces the link.
    assert_eq!(state.get_link_id(2, 4), None);
    assert_eq!(state.get(10), None);
}

#[test]
fn store_is_unchanged_by_the_toggle_event() {
    let mut state = two_nodes();
    let reaction = react(&mut state, &toggle(2, 4));
    assert_eq!(
        reaction,
        Reaction {
            action: Action::Issue {
                command: Command::CreateLink {
                    link: PipewireLink { node_from: 1, port_from: 2, node_to: 5, port_to: 4 }
                }
            },
            diagnostic: None
        }
    );
    assert_eq!(state.get_link_id(2, 4), None);
    assert_eq!(state.get(1), Some(&Item::Node { media_type: Some(MediaType::Audio) }));
    assert_eq!(state.get(2), Some(&Item::Port { node_id: 1 }));
    assert_eq!(state.get(4), Some(&Item::Port { node_id: 5 }));
    assert_eq!(state.get(5), Some(&Item::Node { media_type: Some(MediaType::Audio) }));
    // The link becomes known when it is announced.
    react(&mut state, &Event::LinkInfo(info(10, (2, 4), false, false)));
    assert_eq!(state.get_link_id(2, 4), Some(10));
}

#[test]
fn link_appears_then_becomes_active() {
    let mut state = two_nodes();
    let first = handle_link_info(&info(10, (2, 4), false, false), &mut state);
    assert_eq!(
        first,
        Some(PipewireMessage::LinkAdded {
            id: 10,
            node_from: 1,
            port_from: 2,
            node_to: 5,
            port_to: 4,
            active: false
        })
    );
    assert_eq!(state.get(10), Some(&Item::Link { port_from: 2, port_to: 4, active: false }));
    assert_eq!(state.get_link_id(2, 4), Some(10));

    let second = handle_link_info(&info(10, (2, 4), true, true), &mut state);
    assert_eq!(second, Some(PipewireMessage::LinkStateChanged { id: 10, active: true }));
    assert_eq!(state.get(10), Some(&Item::Link { port_from: 2, port_to: 4, active: true }));
    assert_eq!(state.get_link_id(2, 4), Some(10));
}

#[test]
fn toggle_with_link_asks_for_destruction() {
    let mut state = two_nodes();
    handle_link_info(&info(10, (2, 4), false, true), &mut state);
    assert_eq!(toggle_link(2, 4, &state), Ok(Command::DestroyGlobal { id: 10 }));
    // The store is unchanged until the removal is announced.
    assert_eq!(state.get(10), Some(&Item::Link { port_from: 2, port_to: 4, active: true }));
    assert_eq!(state.get_link_id(2, 4), Some(10));

    let sent = handle_global_remove(10, &mut state);
    assert_eq!(sent, Some(PipewireMessage::LinkRemoved { id: 10 }));
    assert_eq!(state.get(10), None);
    assert_eq!(state.get_link_id(2, 4), None);
}

#[test]
fn node_is_classified_by_media_class() {
    let mut state = State::new();
    let node = global(
        7,
        ObjectType::Node,
        &[
            ("node.name", "alsa_output.pci"),
            ("node.description", "Built-in Audio"),
            ("media.class", "Audio/Sink"),
        ],
    );
    assert_eq!(
        handle_node(&node, &mut state),
        Ok(PipewireMessage::NodeAdded {
            id: 7,
            name: "Built-in Audio".to_string(),
            media_type: Some(MediaType::Audio),
            node_type: Some(NodeType::Input)
        })
    );
    assert_eq!(state.get(7), Some(&Item::Node { media_type: Some(MediaType::Audio) }));
}

#[test]
fn node_without_properties_is_turned_away() {
    let mut state = State::new();
    assert_eq!(
        handle_node(&bare(1, ObjectType::Node), &mut state),
        Err(ProtocolError::NoProperties)
    );
    assert_eq!(state.get(1), None);
}

#[test]
fn port_takes_media_type_of_its_node() {
    let mut state = State::new();
    state.insert(1, Item::Node { media_type: Some(MediaType::Midi) });
    let port = global(
        2,
        ObjectType::Port,
        &[("node.id", "1"), ("port.name", "in_0"), ("port.direction", "in")],
    );
    assert_eq!(
        handle_port(&port, &mut state),
        Ok((
            PipewireMessage::PortAdded {
                id: 2,
                node_id: 1,
                name: "in_0".to_string(),
                direction: Direction::Input,
                media_type: Some(MediaType::Midi)
            },
            None
        ))
    );
}

#[test]
fn port_whose_owner_is_no_node_is_noted() {
    let mut state = State::new();
    state.insert(1, Item::Port { node_id: 9 });
    let port = global(2, ObjectType::Port, &[("node.id", "1")]);
    let (message, diagnostic) = handle_port(&port, &mut state).unwrap();
    assert_eq!(diagnostic, Some(Diagnostic::NodeNotFound { port: 2 }));
    assert_eq!(
        message,
        PipewireMessage::PortAdded {
            id: 2,
            node_id: 1,
            name: String::new(),
            direction: Direction::Output,
            media_type: None
        }
    );
}

#[test]
fn port_without_properties_is_turned_away() {
    let mut state = State::new();
    assert_eq!(
        handle_port(&bare(2, ObjectType::Port), &mut state),
        Err(ProtocolError::NoProperties)
    );
    assert_eq!(state.get(2), None);
}

#[test]
fn port_without_node_id_is_turned_away() {
    let mut state = State::new();
    let port = global(2, ObjectType::Port, &[("port.name", "in_0")]);
    assert_eq!(
        handle_port(&port, &mut state),
        Err(ProtocolError::Missing { key: IdKey::NodeId })
    );
    assert_eq!(state.get(2), None);
}

#[test]
fn port_with_unreadable_node_id_is_turned_away() {
    let mut state = State::new();
    state.insert(2, Item::Node { media_type: None });
    let port = global(2, ObjectType::Port, &[("node.id", "one")]);
    assert_eq!(
        handle_port(&port, &mut state),
        Err(ProtocolError::Unparseable { key: IdKey::NodeId })
    );
    // What was stored under the identifier stays.
    assert_eq!(state.get(2), Some(&Item::Node { media_type: None }));
}

#[test]
fn ingestion_goes_on_after_an_object_was_turned_away() {
    let mut state = State::new();
    let bad = react(&mut state, &Event::Global(global(2, ObjectType::Port, &[])));
    assert_eq!(
        bad,
        Reaction {
            action: Action::Nothing,
            diagnostic: Some(Diagnostic::Rejected {
                id: 2,
                error: ProtocolError::Missing { key: IdKey::NodeId }
            })
        }
    );
    let good = react(&mut state, &Event::Global(global(3, ObjectType::Port, &[("node.id", "1")])));
    assert!(matches!(
        good.action,
        Action::Send { message: PipewireMessage::PortAdded { id: 3, node_id: 1, .. } }
    ));
    assert_eq!(state.get(2), None);
    assert_eq!(state.get(3), Some(&Item::Port { node_id: 1 }));
}

#[test]
fn later_link_info_without_state_change_is_silent() {
    let mut state = State::new();
    handle_link_info(&info(10, (2, 4), false, false), &mut state);
    assert_eq!(handle_link_info(&info(10, (2, 4), false, true), &mut state), None);
    assert_eq!(state.get(10), Some(&Item::Link { port_from: 2, port_to: 4, active: false }));
}

#[test]
fn later_link_info_tells_when_the_link_turns() {
    let mut state = State::new();
    handle_link_info(&info(10, (2, 4), true, true), &mut state);
    assert_eq!(
        handle_link_info(&info(10, (2, 4), true, false), &mut state),
        Some(PipewireMessage::LinkStateChanged { id: 10, active: false })
    );
    assert_eq!(state.get(10), Some(&Item::Link { port_from: 2, port_to: 4, active: false }));
    assert_eq!(
        handle_link_info(&info(10, (2, 4), true, true), &mut state),
        Some(PipewireMessage::LinkStateChanged { id: 10, active: true })
    );
    assert_eq!(state.get(10), Some(&Item::Link { port_from: 2, port_to: 4, active: true }));
}

#[test]
fn later_link_info_is_silent_where_the_link_stays_as_it_is() {
    let mut state = State::new();
    handle_link_info(&info(10, (2, 4), false, false), &mut state);
    // The state has changed between two states of which neither is active.
    assert_eq!(handle_link_info(&info(10, (2, 4), true, false), &mut state), None);
    assert_eq!(state.get(10), Some(&Item::Link { port_from: 2, port_to: 4, active: false }));
    assert_eq!(state.get_link_id(2, 4), Some(10));

    assert_eq!(
        handle_link_info(&info(10, (2, 4), true, true), &mut state),
        Some(PipewireMessage::LinkStateChanged { id: 10, active: true })
    );
    // Told once: the same report again calls for nothing.
    assert_eq!(handle_link_info(&info(10, (2, 4), true, true), &mut state), None);
    assert_eq!(
        react(&mut state, &Event::LinkInfo(info(10, (2, 4), true, true))),
        Reaction { action: Action::Nothing, diagnostic: None }
    );
    assert_eq!(state.get(10), Some(&Item::Link { port_from: 2, port_to: 4, active: true }));
}

#[test]
fn later_link_info_keeps_the_ports() {
    let mut state = State::new();
    handle_link_info(&info(10, (2, 4), false, false), &mut state);
    handle_link_info(&info(10, (6, 8), true, true), &mut state);
    assert_eq!(state.get(10), Some(&Item::Link { port_from: 2, port_to: 4, active: true }));
    assert_eq!(state.get_link_id(2, 4), Some(10));
    assert_eq!(state.get_link_id(6, 8), None);
}

#[test]
fn first_link_info_is_told_by_the_store_alone() {
    let mut state = State::new();
    // The store holds nothing under 10, so this is the first report, whatever it says
    // of a change.
    assert_eq!(
        handle_link_info(&info(10, (2, 4), true, true), &mut state),
        Some(PipewireMessage::LinkAdded {
            id: 10,
            node_from: 1,
            port_from: 2,
            node_to: 5,
            port_to: 4,
            active: true
        })
    );
    assert_eq!(state.get(10), Some(&Item::Link { port_from: 2, port_to: 4, active: true }));
    // Once the link is withdrawn, the next report is a first one again.
    handle_global_remove(10, &mut state);
    assert_eq!(
        handle_link_info(&info(10, (2, 4), false, false), &mut state),
        Some(PipewireMessage::LinkAdded {
            id: 10,
            node_from: 1,
            port_from: 2,
            node_to: 5,
            port_to: 4,
            active: false
        })
    );
}

#[test]
fn link_info_on_an_entry_that_is_no_link_changes_nothing() {
    let mut state = State::new();
    state.insert(10, Item::Node { media_type: None });
    state.insert(11, Item::Port { node_id: 10 });
    // The store holds an entry under each identifier, so these are later reports.
    assert_eq!(handle_link_info(&info(10, (2, 4), true, true), &mut state), None);
    assert_eq!(handle_link_info(&info(11, (2, 4), false, false), &mut state), None);
    assert_eq!(state.get(10), Some(&Item::Node { media_type: None }));
    assert_eq!(state.get(11), Some(&Item::Port { node_id: 10 }));
    assert_eq!(state.get_link_id(2, 4), None);
}

#[test]
fn removal_is_told_by_kind() {
    let mut state = two_nodes();
    state.insert(10, Item::Link { port_from: 2, port_to: 4, active: false });
    assert_eq!(
        handle_global_remove(2, &mut state),
        Some(PipewireMessage::PortRemoved { id: 2, node_id: 1 })
    );
    assert_eq!(handle_global_remove(1, &mut state), Some(PipewireMessage::NodeRemoved { id: 1 }));
    assert_eq!(handle_global_remove(10, &mut state), Some(PipewireMessage::LinkRemoved { id: 10 }));
    assert_eq!(state.get(1), None);
    assert_eq!(state.get(2), None);
    assert_eq!(state.get(10), None);
    assert_eq!(state.get(4), Some(&Item::Port { node_id: 5 }));
}

#[test]
fn removal_of_unknown_object_is_tolerated() {
    let mut state = two_nodes();
    assert_eq!(handle_global_remove(77, &mut state), None);
    assert_eq!(
        react(&mut state, &Event::GlobalRemove { id: 77 }),
        Reaction { action: Action::Nothing, diagnostic: Some(Diagnostic::UnknownRemoval { id: 77 }) }
    );
    assert_eq!(state.get(1), Some(&Item::Node { media_type: Some(MediaType::Audio) }));
}

#[test]
fn toggle_with_unknown_port_is_given_up() {
    let state = two_nodes();
    assert_eq!(toggle_link(3, 4, &state), Err(ToggleError::PortNotFound { port: 3 }));
    assert_eq!(toggle_link(2, 6, &state), Err(ToggleError::PortNotFound { port: 6 }));
    assert_eq!(toggle_link(3, 6, &state), Err(ToggleError::PortNotFound { port: 3 }));
    // A node is no port.
    assert_eq!(toggle_link(1, 4, &state), Err(ToggleError::PortNotFound { port: 1 }));
}

#[test]
fn toggle_given_up_is_noted() {
    let mut state = two_nodes();
    assert_eq!(
        react(&mut state, &toggle(2, 6)),
        Reaction { action: Action::Nothing, diagnostic: Some(Diagnostic::PortNotFound { port: 6 }) }
    );
}

#[test]
fn toggle_is_directed() {
    let mut state = two_nodes();
    handle_link_info(&info(10, (2, 4), false, false), &mut state);
    assert_eq!(toggle_link(2, 4, &state), Ok(Command::DestroyGlobal { id: 10 }));
    assert_eq!(
        toggle_link(4, 2, &state),
        Ok(Command::CreateLink {
            link: PipewireLink { node_from: 5, port_from: 4, node_to: 1, port_to: 2 }
        })
    );
}

#[test]
fn toggle_destroys_even_if_the_ports_are_gone() {
    let mut state = State::new();
    handle_link_info(&info(10, (2, 4), false, false), &mut state);
    assert_eq!(toggle_link(2, 4, &state), Ok(Command::DestroyGlobal { id: 10 }));
}

#[test]
fn toggle_twice_asks_the_same_and_changes_nothing() {
    let mut state = two_nodes();
    let first = react(&mut state, &toggle(2, 4));
    let second = react(&mut state, &toggle(2, 4));
    assert_eq!(first, second);
    assert_eq!(state.get_link_id(2, 4), None);
    assert_eq!(state.get(2), Some(&Item::Port { node_id: 1 }));

    react(&mut state, &Event::LinkInfo(info(10, (2, 4), false, false)));
    let first = react(&mut state, &toggle(2, 4));
    let second = react(&mut state, &toggle(2, 4));
    assert_eq!(first, second);
    assert_eq!(
        first.action,
        Action::Issue { command: Command::DestroyGlobal { id: 10 } }
    );
    assert_eq!(state.get_link_id(2, 4), Some(10));
}

#[test]
fn whichever_command_wins_the_store_follows_the_server() {
    let mut state = two_nodes();
    react(&mut state, &toggle(2, 4));
    react(&mut state, &toggle(2, 4));
    // The server creates one link and refuses the second request.
    react(&mut state, &Event::LinkInfo(info(10, (2, 4), false, false)));
    assert_eq!(state.get_link_id(2, 4), Some(10));
    react(&mut state, &toggle(2, 4));
    react(&mut state, &toggle(2, 4));
    // The server destroys it once.
    react(&mut state, &Event::GlobalRemove { id: 10 });
    assert_eq!(state.get(10), None);
    assert_eq!(state.get_link_id(2, 4), None);
    // The second removal meets nothing.
    assert_eq!(
        react(&mut state, &Event::GlobalRemove { id: 10 }).diagnostic,
        Some(Diagnostic::UnknownRemoval { id: 10 })
    );
}

#[test]
fn react_announces_nodes_and_ports() {
    let mut state = State::new();
    let node = Event::Global(global(
        1,
        ObjectType::Node,
        &[("node.nick", "Mic"), ("media.class", "Audio/Source")],
    ));
    assert_eq!(
        react(&mut state, &node),
        send(PipewireMessage::NodeAdded {
            id: 1,
            name: "Mic".to_string(),
            media_type: Some(MediaType::Audio),
            node_type: Some(NodeType::Output)
        })
    );
    let port = Event::Global(global(
        2,
        ObjectType::Port,
        &[("node.id", "1"), ("port.name", "capture_FL"), ("port.direction", "out")],
    ));
    assert_eq!(
        react(&mut state, &port),
        send(PipewireMessage::PortAdded {
            id: 2,
            node_id: 1,
            name: "capture_FL".to_string(),
            direction: Direction::Output,
            media_type: Some(MediaType::Audio)
        })
    );
}

#[test]
fn react_binds_links_and_waits_for_their_report() {
    let mut state = State::new();
    let link = Event::Global(global(10, ObjectType::Link, &[("link.output.port", "2")]));
    assert_eq!(
        react(&mut state, &link),
        Reaction { action: Action::Bind { id: 10 }, diagnostic: None }
    );
    assert_eq!(state.get(10), None);
    assert_eq!(
        react(&mut state, &Event::Global(bare(11, ObjectType::Link))),
        Reaction { action: Action::Bind { id: 11 }, diagnostic: None }
    );
    assert_eq!(
        react(&mut state, &Event::LinkInfo(info(10, (2, 4), false, false))),
        send(PipewireMessage::LinkAdded {
            id: 10,
            node_from: 1,
            port_from: 2,
            node_to: 5,
            port_to: 4,
            active: false
        })
    );
}

#[test]
fn react_passes_over_other_objects() {
    let mut state = State::new();
    let other = Event::Global(global(20, ObjectType::Other, &[("node.id", "1")]));
    assert_eq!(
        react(&mut state, &other),
        Reaction { action: Action::Nothing, diagnostic: None }
    );
    assert_eq!(state.get(20), None);
}

#[test]
fn react_rejects_node_without_properties() {
    let mut state = State::new();
    assert_eq!(
        react(&mut state, &Event::Global(bare(1, ObjectType::Node))),
        Reaction {
            action: Action::Nothing,
            diagnostic: Some(Diagnostic::Rejected { id: 1, error: ProtocolError::NoProperties })
        }
    );
}

#[test]
fn react_quits_on_terminate() {
    let mut state = two_nodes();
    assert_eq!(
        react(&mut state, &Event::Message(GtkMessage::Terminate)),
        Reaction { action: Action::Quit, diagnostic: None }
    );
    assert_eq!(state.get(2), Some(&Item::Port { node_id: 1 }));
}

#[test]
fn messages_come_in_the_order_of_the_events() {
    let mut state = State::new();
    let events = vec![
        Event::Global(global(1, ObjectType::Node, &[("node.name", "a")])),
        Event::Global(global(2, ObjectType::Port, &[("node.id", "1")])),
        Event::Global(global(5, ObjectType::Node, &[("node.name", "b")])),
        Event::Global(global(4, ObjectType::Port, &[("node.id", "5"), ("port.direction", "in")])),
        Event::LinkInfo(info(10, (2, 4), false, false)),
        Event::GlobalRemove { id: 10 },
        Event::GlobalRemove { id: 2 },
        Event::GlobalRemove { id: 1 },
    ];
    let mut kinds = Vec::new();
    for event in &events {
        if let Action::Send { message } = react(&mut state, event).action {
            kinds.push(match message {
                PipewireMessage::NodeAdded { id, .. } => ("node+", id),
                PipewireMessage::PortAdded { id, .. } => ("port+", id),
                PipewireMessage::LinkAdded { id, .. } => ("link+", id),
                PipewireMessage::LinkStateChanged { id, .. } => ("link~", id),
                PipewireMessage::NodeRemoved { id } => ("node-", id),
                PipewireMessage::PortRemoved { id, .. } => ("port-", id),
                PipewireMessage::LinkRemoved { id } => ("link-", id),
            });
        }
    }
    assert_eq!(
        kinds,
        vec![
            ("node+", 1),
            ("port+", 2),
            ("node+", 5),
            ("port+", 4),
            ("link+", 10),
            ("link-", 10),
            ("port-", 2),
            ("node-", 1)
        ]
    );
}

#[test]
fn link_announced_with_its_ends_is_stored_at_once() {
    let mut state = State::new();
    let link = global(
        10,
        ObjectType::Link,
        &[
            ("link.output.node", "1"),
            ("link.output.port", "2"),
            ("link.input.node", "5"),
            ("link.input.port", "4"),
        ],
    );
    assert_eq!(
        handle_link(&link, &mut state),
        Ok(PipewireMessage::LinkAdded {
            id: 10,
            node_from: 1,
            port_from: 2,
            node_to: 5,
            port_to: 4,
            active: false
        })
    );
    assert_eq!(state.get(10), Some(&Item::Link { port_from: 2, port_to: 4, active: false }));
    assert_eq!(state.get_link_id(2, 4), Some(10));
    // A later report on the link only tells of its state.
    assert_eq!(
        handle_link_info(&info(10, (2, 4), true, true), &mut state),
        Some(PipewireMessage::LinkStateChanged { id: 10, active: true })
    );
}

#[test]
fn link_announced_without_its_ends_is_turned_away() {
    let mut state = State::new();
    assert_eq!(
        handle_link(&bare(10, ObjectType::Link), &mut state),
        Err(ProtocolError::NoProperties)
    );
    let link = global(
        10,
        ObjectType::Link,
        &[("link.output.node", "1"), ("link.output.port", "2"), ("link.input.node", "5")],
    );
    assert_eq!(
        handle_link(&link, &mut state),
        Err(ProtocolError::Missing { key: IdKey::LinkInputPort })
    );
    let link = global(
        10,
        ObjectType::Link,
        &[
            ("link.output.node", "1"),
            ("link.output.port", "two"),
            ("link.input.node", "5"),
            ("link.input.port", "4"),
        ],
    );
    assert_eq!(
        handle_link(&link, &mut state),
        Err(ProtocolError::Unparseable { key: IdKey::LinkOutputPort })
    );
    assert_eq!(state.get(10), None);
    assert_eq!(state.get_link_id(2, 4), None);
}

#[test]
fn link_asked_for_is_read_back_when_announced() {
    let mut state = two_nodes();
    let asked = match toggle_link(2, 4, &state) {
        Ok(Command::CreateLink { link }) => link,
        other => panic!("unexpected answer {other:?}"),
    };
    let announced = GlobalObject {
        id: 10,
        type_: ObjectType::Link,
        props: Some(helvum::registry::link_properties(&asked)),
    };
    assert_eq!(
        handle_link(&announced, &mut state),
        Ok(PipewireMessage::LinkAdded {
            id: 10,
            node_from: 1,
            port_from: 2,
            node_to: 5,
            port_to: 4,
            active: false
        })
    );
    assert_eq!(toggle_link(2, 4, &state), Ok(Command::DestroyGlobal { id: 10 }));
}

#[test]
fn identifiers_at_the_limits_are_identifiers_like_any_other() {
    let mut state = State::new();
    let node = global(0, ObjectType::Node, &[("node.name", "zero")]);
    assert!(handle_node(&node, &mut state).is_ok());
    let port = global(u32::MAX, ObjectType::Port, &[("node.id", "0")]);
    assert_eq!(
        handle_port(&port, &mut state),
        Ok((
            PipewireMessage::PortAdded {
                id: u32::MAX,
                node_id: 0,
                name: String::new(),
                direction: Direction::Output,
                media_type: None
            },
            None
        ))
    );
    let port = global(7, ObjectType::Port, &[("node.id", "4294967295")]);
    let (message, diagnostic) = handle_port(&port, &mut state).unwrap();
    assert!(matches!(message, PipewireMessage::PortAdded { node_id: u32::MAX, .. }));
    assert_eq!(diagnostic, Some(Diagnostic::NodeNotFound { port: 7 }));
    assert_eq!(
        toggle_link(u32::MAX, 7, &state),
        Ok(Command::CreateLink {
            link: PipewireLink { node_from: 0, port_from: u32::MAX, node_to: u32::MAX, port_to: 7 }
        })
    );
}

#[test]
fn a_reused_identifier_replaces_what_was_stored() {
    let mut state = two_nodes();
    handle_link_info(&info(10, (2, 4), false, false), &mut state);
    // The server withdrew the link unseen and gives its identifier to a node.
    let node = global(10, ObjectType::Node, &[("node.name", "late")]);
    assert!(handle_node(&node, &mut state).is_ok());
    assert_eq!(state.get(10), Some(&Item::Node { media_type: None }));
    assert_eq!(state.get_link_id(2, 4), None);
    assert_eq!(
        toggle_link(2, 4, &state),
        Ok(Command::CreateLink {
            link: PipewireLink { node_from: 1, port_from: 2, node_to: 5, port_to: 4 }
        })
    );
}

#[test]
fn a_link_from_a_port_to_itself_is_kept_like_any_other() {
    let mut state = State::new();
    state.insert(2, Item::Port { node_id: 1 });
    assert_eq!(
        toggle_link(2, 2, &state),
        Ok(Command::CreateLink {
            link: PipewireLink { node_from: 1, port_from: 2, node_to: 1, port_to: 2 }
        })
    );
    handle_link_info(&info(10, (2, 2), false, false), &mut state);
    assert_eq!(toggle_link(2, 2, &state), Ok(Command::DestroyGlobal { id: 10 }));
}
