//! What the properties of a graph object say about it: the name to show, the
//! kind of media, the role of a node, the side of a port, and the identifiers
//! of the objects it refers to.
//!
//! Each reading is stated as a function on the dictionary alone, and computed
//! by a function of the same content on [`Properties`].

use crate::message::{Direction, MediaType, NodeType};
use crate::properties::Properties;
use crate::text::{contains, parse_u32, parse_u32_spec, str_contains, str_eq};
use vstd::prelude::*;
use vstd::string::StringExecFns;

verus! {

/// The properties that name another object by its identifier.
#[derive(Debug, Copy, Clone, PartialEq, Eq, Structural)]
pub enum IdKey {
    /// `node.id`: the node that a port belongs to.
    NodeId,
    /// `link.input.node`: the node that a link enters.
    LinkInputNode,
    /// `link.input.port`: the port through which a link enters.
    LinkInputPort,
    /// `link.output.node`: the node that a link leaves.
    LinkOutputNode,
    /// `link.output.port`: the port through which a link leaves.
    LinkOutputPort,
}

impl IdKey {
    /// The key as the server writes it.
    pub open spec fn text(self) -> Seq<char> {
        match self {
            IdKey::NodeId => "node.id"@,
            IdKey::LinkInputNode => "link.input.node"@,
            IdKey::LinkInputPort => "link.input.port"@,
            IdKey::LinkOutputNode => "link.output.node"@,
            IdKey::LinkOutputPort => "link.output.port"@,
        }
    }

    /// The key as the server writes it.
    pub fn as_str(self) -> (key: &'static str)
        ensures
            key@ == self.text(),
    {
        match self {
            IdKey::NodeId => "node.id",
            IdKey::LinkInputNode => "link.input.node",
            IdKey::LinkInputPort => "link.input.port",
            IdKey::LinkOutputNode => "link.output.node",
            IdKey::LinkOutputPort => "link.output.port",
        }
    }
}

/// Why an announced object cannot be represented. Only that one object is
/// turned away; nothing else is affected.
#[derive(Debug, Copy, Clone, PartialEq, Eq, Structural)]
pub enum ProtocolError {
    /// The object came without a property dictionary.
    NoProperties,
    /// A property that must be there is not.
    Missing { key: IdKey },
    /// A property that must hold an identifier holds something else.
    Unparseable { key: IdKey },
}

/// The name to show for a node: its nick, else its description, else its
/// name, else the empty text.
pub open spec fn node_name_of(props: Map<Seq<char>, Seq<char>>) -> Seq<char> {
    if props.contains_key("node.nick"@) {
        props["node.nick"@]
    } else if props.contains_key("node.description"@) {
        props["node.description"@]
    } else if props.contains_key("node.name"@) {
        props["node.name"@]
    } else {
        Seq::empty()
    }
}

/// The kind of media that a media class names: the first of `Audio`, `Video`
/// and `Midi` that stands in it, with regard to case.
pub open spec fn media_type_of_class(class: Seq<char>) -> Option<MediaType> {
    if contains(class, "Audio"@) {
        Some(MediaType::Audio)
    } else if contains(class, "Video"@) {
        Some(MediaType::Video)
    } else if contains(class, "Midi"@) {
        Some(MediaType::Midi)
    } else {
        None
    }
}

/// The kind of media of a node, read from its `media.class`; none if the
/// property is absent or names no kind.
pub open spec fn media_type_of(props: Map<Seq<char>, Seq<char>>) -> Option<MediaType> {
    match props.get("media.class"@) {
        Some(class) => media_type_of_class(class),
        None => None,
    }
}

/// The role that a media class names: an input if `Sink` or `Input` stands
/// in it, else an output if `Source` or `Output` does.
pub open spec fn node_type_of_class(class: Seq<char>) -> Option<NodeType> {
    if contains(class, "Sink"@) || contains(class, "Input"@) {
        Some(NodeType::Input)
    } else if contains(class, "Source"@) || contains(class, "Output"@) {
        Some(NodeType::Output)
    } else {
        None
    }
}

/// The role of a node. It is read from `media.class` alone: `media.category`
/// takes no part in it, whatever it holds.
pub open spec fn node_type_of(props: Map<Seq<char>, Seq<char>>) -> Option<NodeType> {
    match props.get("media.class"@) {
        Some(class) => node_type_of_class(class),
        None => None,
    }
}

/// The name to show for a port: its `port.name`, else the empty text.
pub open spec fn port_name_of(props: Map<Seq<char>, Seq<char>>) -> Seq<char> {
    match props.get("port.name"@) {
        Some(name) => name,
        None => Seq::empty(),
    }
}

/// The side of a port: an input if `port.direction` is exactly `in`, an
/// output in every other case.
pub open spec fn direction_of(props: Map<Seq<char>, Seq<char>>) -> Direction {
    if props.get("port.direction"@) == Some("in"@) {
        Direction::Input
    } else {
        Direction::Output
    }
}

/// The identifier that the property `key` holds.
pub open spec fn id_of(props: Map<Seq<char>, Seq<char>>, key: IdKey) -> Result<
    u32,
    ProtocolError,
> {
    match props.get(key.text()) {
        None => Err(ProtocolError::Missing { key }),
        Some(value) => match parse_u32_spec(value) {
            Some(id) => Ok(id),
            None => Err(ProtocolError::Unparseable { key }),
        },
    }
}

/// The role of a node does not depend on its `media.category`.
pub proof fn lemma_node_type_ignores_category(props: Map<Seq<char>, Seq<char>>, category: Seq<char>)
    ensures
        node_type_of(props.insert("media.category"@, category)) == node_type_of(props),
        node_type_of(props.remove("media.category"@)) == node_type_of(props),
{
    reveal_strlit("media.category");
    reveal_strlit("media.class");
    assert("media.category"@.len() != "media.class"@.len());
}

/// Get the nicest possible name for the node, using a fallback chain of
/// possible name attributes.
pub fn node_name(props: &Properties) -> (name: String)
    ensures
        name@ == node_name_of(props@),
{
    let found = match props.get("node.nick") {
        Some(nick) => nick,
        None => match props.get("node.description") {
            Some(description) => description,
            None => match props.get("node.name") {
                Some(name) => name,
                None => "",
            },
        },
    };
    proof {
        reveal_strlit("");
    }
    String::from_str(found)
}

/// Classifies a media class by the kind of media it names.
pub fn media_type_from_class(class: &str) -> (media_type: Option<MediaType>)
    ensures
        media_type == media_type_of_class(class@),
{
    if str_contains(class, "Audio") {
        Some(MediaType::Audio)
    } else if str_contains(class, "Video") {
        Some(MediaType::Video)
    } else if str_contains(class, "Midi") {
        Some(MediaType::Midi)
    } else {
        None
    }
}

/// Finds out the kind of media of a node.
pub fn media_type(props: &Properties) -> (media_type: Option<MediaType>)
    ensures
        media_type == media_type_of(props@),
{
    match props.get("media.class") {
        Some(class) => media_type_from_class(class),
        None => None,
    }
}

/// Classifies a media class by the role it names.
pub fn node_type_from_class(class: &str) -> (node_type: Option<NodeType>)
    ensures
        node_type == node_type_of_class(class@),
{
    if str_contains(class, "Sink") || str_contains(class, "Input") {
        Some(NodeType::Input)
    } else if str_contains(class, "Source") || str_contains(class, "Output") {
        Some(NodeType::Output)
    } else {
        None
    }
}

/// Finds out the role of a node.
pub fn node_type(props: &Properties) -> (node_type: Option<NodeType>)
    ensures
        node_type == node_type_of(props@),
{
    match props.get("media.class") {
        Some(class) => node_type_from_class(class),
        None => None,
    }
}

/// Gets the name to show for a port.
pub fn port_name(props: &Properties) -> (name: String)
    ensures
        name@ == port_name_of(props@),
{
    let found = match props.get("port.name") {
        Some(name) => name,
        None => "",
    };
    proof {
        reveal_strlit("");
    }
    String::from_str(found)
}

/// Finds out on which side of its node a port sits.
pub fn port_direction(props: &Properties) -> (direction: Direction)
    ensures
        direction == direction_of(props@),
{
    match props.get("port.direction") {
        Some(value) => if str_eq(value, "in") {
            Direction::Input
        } else {
            Direction::Output
        },
        None => Direction::Output,
    }
}

/// Reads the identifier that the property `key` holds.
///
/// Fails with [`ProtocolError::Missing`] exactly when the property is
/// absent, and with [`ProtocolError::Unparseable`] exactly when it is there
/// and does not denote an identifier.
pub fn id_property(props: &Properties, key: IdKey) -> (id: Result<u32, ProtocolError>)
    ensures
        id == id_of(props@, key),
{
    match props.get(key.as_str()) {
        None => Err(ProtocolError::Missing { key }),
        Some(value) => match parse_u32(value) {
            Some(id) => Ok(id),
            None => Err(ProtocolError::Unparseable { key }),
        },
    }
}

} // verus!
