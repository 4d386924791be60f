//! A mirror of the object graph of a PipeWire server: its nodes, their
//! ports, and the links between ports.
//!
//! The server announces and withdraws objects one by one, in no particular
//! order, and reports on its links as they change. The library keeps what it
//! has been told in a store that is indexed by identifier and by pair of
//! ports ([`pipewire_connection::state`]), reads the properties of each
//! object ([`properties`], [`classify`]), and decides for every event what is
//! to be told to the thread that shows the graph and what is to be asked of
//! the server ([`pipewire_connection`]). It talks to nobody itself: events
//! come in as plain records ([`registry`], [`message`]) and decisions go out
//! as plain records, so that every decision is a function of the store and
//! the event alone.
//!
//! [`pipewire_state`] and [`controller`] hold the same mirror for a program
//! that shows the graph on the thread of the connection, and for the thread
//! that shows it; [`view`] names the calls by which it is shown.

pub mod classify;
pub mod controller;
pub mod diagnostic;
pub mod message;
pub mod pipewire_connection;
pub mod pipewire_state;
pub mod properties;
pub mod registry;
pub mod text;
pub mod view;

pub use message::{Direction, GtkMessage, MediaType, NodeType, PipewireLink, PipewireMessage};
