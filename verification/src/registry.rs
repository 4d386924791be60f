//! What the registry of the server announces, and what can be asked of it,
//! as plain records.

use crate::classify::{id_of, id_property, IdKey, ProtocolError};
use crate::message::PipewireLink;
use crate::properties::Properties;
use crate::text::{decimal_digits, decimal_string, lemma_parse_decimal_digits};
use vstd::prelude::*;

verus! {

/// The kinds of object that the mirror tells apart. Every kind that it does
/// not track is `Other`.
#[derive(Debug, Copy, Clone, PartialEq, Eq, Structural)]
pub enum ObjectType {
    Node,
    Port,
    Link,
    Other,
}

/// An object as the registry announces it: its identifier, its kind, and
/// the properties that came with it.
#[derive(Debug)]
pub struct GlobalObject {
    pub id: u32,
    pub type_: ObjectType,
    pub props: Option<Properties>,
}

/// What an info event of a bound link reports.
#[derive(Debug, Copy, Clone, PartialEq, Eq, Structural)]
pub struct LinkInfo {
    pub id: u32,
    pub output_node_id: u32,
    pub output_port_id: u32,
    pub input_node_id: u32,
    pub input_port_id: u32,
    /// The event says that the state of the link has changed.
    pub state_changed: bool,
    /// The link is in the active state.
    pub active: bool,
}

/// A request to the server. None of them changes the mirror: the server
/// answers by announcing or withdrawing objects.
#[derive(Debug, Copy, Clone, PartialEq, Eq, Structural)]
pub enum Command {
    /// Destroy the global object `id`.
    DestroyGlobal { id: u32 },
    /// Create a link, with the properties of [`link_properties`].
    CreateLink { link: PipewireLink },
}

/// The dictionary that asks the link factory for `link`: the four
/// identifiers in decimal notation, and `object.linger` set, so that the
/// link outlives the client that asked for it.
pub open spec fn link_properties_of(link: PipewireLink) -> Map<Seq<char>, Seq<char>> {
    Map::<Seq<char>, Seq<char>>::empty().insert(
        "link.output.node"@,
        decimal_digits(link.node_from as nat),
    ).insert("link.output.port"@, decimal_digits(link.port_from as nat)).insert(
        "link.input.node"@,
        decimal_digits(link.node_to as nat),
    ).insert("link.input.port"@, decimal_digits(link.port_to as nat)).insert(
        "object.linger"@,
        "1"@,
    )
}

/// The link that a dictionary describes by the four properties
/// `link.input.node`, `link.input.port`, `link.output.node` and
/// `link.output.port`, read in that order; the first that is missing or
/// holds no identifier decides the error.
pub open spec fn link_of(props: Map<Seq<char>, Seq<char>>) -> Result<
    PipewireLink,
    ProtocolError,
> {
    match id_of(props, IdKey::LinkInputNode) {
        Err(error) => Err(error),
        Ok(node_to) => match id_of(props, IdKey::LinkInputPort) {
            Err(error) => Err(error),
            Ok(port_to) => match id_of(props, IdKey::LinkOutputNode) {
                Err(error) => Err(error),
                Ok(node_from) => match id_of(props, IdKey::LinkOutputPort) {
                    Err(error) => Err(error),
                    Ok(port_from) => Ok(PipewireLink { node_from, port_from, node_to, port_to }),
                },
            },
        },
    }
}

/// The name of the factory that creates links.
pub fn link_factory() -> (name: &'static str)
    ensures
        name@ == "link-factory"@,
{
    "link-factory"
}

/// Builds the properties with which a link is asked of the link factory.
pub fn link_properties(link: &PipewireLink) -> (props: Properties)
    ensures
        props@ == link_properties_of(*link),
{
    let mut props = Properties::new();
    props.insert("link.output.node", decimal_string(link.node_from).as_str());
    props.insert("link.output.port", decimal_string(link.port_from).as_str());
    props.insert("link.input.node", decimal_string(link.node_to).as_str());
    props.insert("link.input.port", decimal_string(link.port_to).as_str());
    props.insert("object.linger", "1");
    props
}

/// Reads the link that a dictionary describes.
pub fn link_from_properties(props: &Properties) -> (link: Result<PipewireLink, ProtocolError>)
    ensures
        link == link_of(props@),
{
    let node_to = match id_property(props, IdKey::LinkInputNode) {
        Ok(id) => id,
        Err(error) => { return Err(error); },
    };
    let port_to = match id_property(props, IdKey::LinkInputPort) {
        Ok(id) => id,
        Err(error) => { return Err(error); },
    };
    let node_from = match id_property(props, IdKey::LinkOutputNode) {
        Ok(id) => id,
        Err(error) => { return Err(error); },
    };
    let port_from = match id_property(props, IdKey::LinkOutputPort) {
        Ok(id) => id,
        Err(error) => { return Err(error); },
    };
    Ok(PipewireLink { node_from, port_from, node_to, port_to })
}

/// A link that is announced with the properties it was asked for is read
/// back as the link that was asked for.
pub proof fn lemma_link_properties_read_back(link: PipewireLink)
    ensures
        link_of(link_properties_of(link)) == Ok::<PipewireLink, ProtocolError>(
            link,
        ),
{
    reveal_strlit("link.output.node");
    reveal_strlit("link.output.port");
    reveal_strlit("link.input.node");
    reveal_strlit("link.input.port");
    reveal_strlit("object.linger");
    let output_node = "link.output.node"@;
    let output_port = "link.output.port"@;
    let input_node = "link.input.node"@;
    let input_port = "link.input.port"@;
    assert(output_node[12] != output_port[12]);
    assert(input_node[11] != input_port[11]);
    lemma_parse_decimal_digits(link.node_from);
    lemma_parse_decimal_digits(link.port_from);
    lemma_parse_decimal_digits(link.node_to);
    lemma_parse_decimal_digits(link.port_to);
}

} // verus!
