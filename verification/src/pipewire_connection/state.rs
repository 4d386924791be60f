//! The object store: every graph object that the server has announced, under
//! its identifier, and an index from pairs of ports to the link between them.

use crate::message::MediaType;
use std::collections::HashMap;
use vstd::prelude::*;

verus! {

broadcast use vstd::std_specs::hash::group_hash_axioms;

/// Any pipewire item we need to keep track of.
/// These are saved in the [`State`] under their id.
#[derive(Debug, Copy, Clone, PartialEq, Eq)]
pub enum Item {
    Node {
        /// The media type of the node, by which its ports are coloured.
        media_type: Option<MediaType>,
    },
    Port {
        /// The id of the node this port is on.
        node_id: u32,
    },
    Link {
        /// The output port the link leaves.
        port_from: u32,
        /// The input port the link enters.
        port_to: u32,
        /// Whether media is flowing through the link.
        active: bool,
    },
}

/// The mathematical content of a [`State`]: the objects by identifier, and
/// the index that maps `(output port, input port)` to the identifier of a
/// link.
pub struct Graph {
    pub items: Map<u32, Item>,
    pub links: Map<(u32, u32), u32>,
}

impl Graph {
    /// The graph without objects.
    pub open spec fn empty() -> Graph {
        Graph { items: Map::empty(), links: Map::empty() }
    }

    /// The index without the entry that belongs to the object under `id`:
    /// if that object is a link whose pair of ports the index maps to `id`,
    /// that entry is gone; everything else stays.
    pub open spec fn links_without(self, id: u32) -> Map<(u32, u32), u32> {
        match self.items.get(id) {
            Some(Item::Link { port_from, port_to, .. }) => if self.links.get((port_from, port_to))
                == Some(id) {
                self.links.remove((port_from, port_to))
            } else {
                self.links
            },
            _ => self.links,
        }
    }

    /// The graph after `item` was put under `id`. An object that was there
    /// before is replaced, and what the index held for it is forgotten; a
    /// link is entered into the index under its pair of ports.
    pub open spec fn insert(self, id: u32, item: Item) -> Graph {
        let links = self.links_without(id);
        Graph {
            items: self.items.insert(id, item),
            links: match item {
                Item::Link { port_from, port_to, .. } => links.insert((port_from, port_to), id),
                _ => links,
            },
        }
    }

    /// The graph after the object under `id` was taken away, together with
    /// what the index held for it.
    pub open spec fn remove(self, id: u32) -> Graph {
        Graph { items: self.items.remove(id), links: self.links_without(id) }
    }

    /// The graph after the link under `id` was marked active or not. Where
    /// `id` is no link, nothing changes; the index stays in either case.
    pub open spec fn set_active(self, id: u32, active: bool) -> Graph {
        match self.items.get(id) {
            Some(Item::Link { port_from, port_to, .. }) => Graph {
                items: self.items.insert(id, Item::Link { port_from, port_to, active }),
                links: self.links,
            },
            _ => self,
        }
    }

    /// The media type of the node under `node`; none if it has none, or if
    /// no node is stored under that identifier.
    pub open spec fn media_type_of_node(self, node: u32) -> Option<MediaType> {
        match self.items.get(node) {
            Some(Item::Node { media_type }) => media_type,
            _ => None,
        }
    }

    /// A node is stored under `node`.
    pub open spec fn has_node(self, node: u32) -> bool {
        self.items.get(node) matches Some(Item::Node { .. })
    }

    /// The identifier that the index holds for the pair of ports.
    pub open spec fn link_id(self, output_port: u32, input_port: u32) -> Option<u32> {
        self.links.get((output_port, input_port))
    }

    /// The node that owns `port`, if `port` is the identifier of a port.
    pub open spec fn node_of_port(self, port: u32) -> Option<u32> {
        match self.items.get(port) {
            Some(Item::Port { node_id }) => Some(node_id),
            _ => None,
        }
    }

    /// The object under `id` is a link from `output_port` to `input_port`.
    pub open spec fn is_link(self, id: u32, output_port: u32, input_port: u32) -> bool {
        self.items.get(id) matches Some(Item::Link { port_from, port_to, .. })
            && port_from == output_port && port_to == input_port
    }

    /// Every entry of the index points at a link that is in the graph and
    /// connects exactly that pair of ports.
    pub open spec fn sound(self) -> bool {
        forall|output_port: u32, input_port: u32| #[trigger]
            self.links.contains_key((output_port, input_port)) ==> self.is_link(
                self.links[(output_port, input_port)],
                output_port,
                input_port,
            )
    }

    /// Every link in the graph is found in the index under its pair of
    /// ports.
    pub open spec fn complete(self) -> bool {
        forall|id: u32, output_port: u32, input_port: u32| #[trigger]
            self.is_link(id, output_port, input_port) ==> self.link_id(output_port, input_port)
                == Some(id)
    }

    /// The index and the objects agree: a link is in the graph exactly when
    /// the index holds its pair of ports, and then it holds the link's own
    /// identifier.
    pub open spec fn consistent(self) -> bool {
        self.sound() && self.complete()
    }

    /// Putting `item` under `id` takes no pair of ports away from a link
    /// that lives under another identifier.
    pub open spec fn admits(self, id: u32, item: Item) -> bool {
        item matches Item::Link { port_from, port_to, .. } ==> (self.links.contains_key(
            (port_from, port_to),
        ) ==> self.links[(port_from, port_to)] == id)
    }

    /// The graph after one operation.
    pub open spec fn apply(self, op: Operation) -> Graph {
        match op {
            Operation::Insert { id, item } => self.insert(id, item),
            Operation::Remove { id } => self.remove(id),
        }
    }

    /// The graph after a sequence of operations, the first one first.
    pub open spec fn run(self, ops: Seq<Operation>) -> Graph
        decreases ops.len(),
    {
        if ops.len() == 0 {
            self
        } else {
            self.run(ops.drop_last()).apply(ops.last())
        }
    }

    /// No insert of `ops`, made in its turn, gives a link a pair of ports
    /// that the link under another identifier holds at that moment.
    pub open spec fn admits_all(self, ops: Seq<Operation>) -> bool {
        forall|n: int|
            0 <= n < ops.len() ==> (#[trigger] ops[n] matches Operation::Insert { id, item }
                ==> self.run(ops.take(n)).admits(id, item))
    }
}

/// One change to the store.
pub enum Operation {
    Insert { id: u32, item: Item },
    Remove { id: u32 },
}

/// The key under which the index files a pair of ports: the output port in
/// the upper half of the word, the input port in the lower.
spec fn pair_key(output_port: u32, input_port: u32) -> u64 {
    (output_port as u64 * 0x1_0000_0000 + input_port as u64) as u64
}

/// Computes the key under which the index files a pair of ports.
fn key_of(output_port: u32, input_port: u32) -> (key: u64)
    ensures
        key == pair_key(output_port, input_port),
{
    output_port as u64 * 0x1_0000_0000 + input_port as u64
}

/// Two pairs of ports are filed under one key only if they are one pair.
proof fn lemma_pair_key_injective(a: (u32, u32), b: (u32, u32))
    ensures
        pair_key(a.0, a.1) == pair_key(b.0, b.1) <==> a == b,
{
}

/// This struct keeps track of any relevant items and stores them under their IDs.
///
/// Given two port ids, it can also efficiently find the id of the link that connects them.
pub struct State {
    /// Map pipewire ids to items.
    items: HashMap<u32, Item>,
    /// Map `(output port id, input port id)` pairs, by their key, to the id
    /// of the link that connects them.
    links: HashMap<u64, u32>,
}

impl State {
    /// What the state holds, as a [`Graph`].
    pub closed spec fn view(&self) -> Graph {
        Graph {
            items: self.items@,
            links: Map::new(
                |pair: (u32, u32)| self.links@.contains_key(pair_key(pair.0, pair.1)),
                |pair: (u32, u32)| self.links@[pair_key(pair.0, pair.1)],
            ),
        }
    }

    /// Create a new, empty state.
    pub fn new() -> (state: Self)
        ensures
            state@ == Graph::empty(),
            state@.consistent(),
    {
        let state = State { items: HashMap::new(), links: HashMap::new() };
        assert(state@.links =~= Map::empty());
        state
    }

    /// Add a new item under the specified id.
    ///
    /// An item that was stored under `id` is overwritten; if it was a link,
    /// the index forgets it. If `item` is a link, the index then maps its
    /// pair of ports to `id`.
    pub fn insert(&mut self, id: u32, item: Item)
        ensures
            final(self)@ == old(self)@.insert(id, item),
            old(self)@.sound() ==> final(self)@.sound(),
            old(self)@.consistent() && old(self)@.admits(id, item) ==> final(self)@.consistent(),
    {
        self.forget_link(id);
        if let Item::Link { port_from, port_to, .. } = item {
            self.links.insert(key_of(port_from, port_to), id);
            proof {
                assert forall|pair: (u32, u32)|
                    pair_key(pair.0, pair.1) == pair_key(port_from, port_to) implies pair == (
                    port_from,
                    port_to,
                ) by {
                    lemma_pair_key_injective(pair, (port_from, port_to));
                }
            }
        }
        self.items.insert(id, item);
        proof {
            assert(self@.links =~= old(self)@.insert(id, item).links);
            if old(self)@.sound() {
                lemma_insert_sound(old(self)@, id, item);
            }
            if old(self)@.consistent() && old(self)@.admits(id, item) {
                lemma_insert_consistent(old(self)@, id, item);
            }
        }
    }

    /// Get the item that has the specified id.
    pub fn get(&self, id: u32) -> (item: Option<&Item>)
        ensures
            match item {
                Some(found) => self@.items.get(id) == Some(*found),
                None => !self@.items.contains_key(id),
            },
    {
        self.items.get(&id)
    }

    /// Get the id of the link that links the two specified ports.
    pub fn get_link_id(&self, output_port: u32, input_port: u32) -> (id: Option<u32>)
        ensures
            id == self@.link_id(output_port, input_port),
            self@.sound() ==> (id matches Some(link) ==> self@.is_link(
                link,
                output_port,
                input_port,
            )),
            self@.complete() ==> (id is None ==> forall|link: u32|
                !#[trigger] self@.is_link(link, output_port, input_port)),
    {
        let found = self.links.get(&key_of(output_port, input_port));
        proof {
            if self@.links.contains_key((output_port, input_port)) {
                assert(self@.sound() ==> self@.is_link(
                    self@.links[(output_port, input_port)],
                    output_port,
                    input_port,
                ));
            }
        }
        match found {
            Some(id) => Some(*id),
            None => None,
        }
    }

    /// Remove the item with the specified id, returning it if it exists.
    ///
    /// If the item was a link, the index forgets it in the same step.
    pub fn remove(&mut self, id: u32) -> (removed: Option<Item>)
        ensures
            removed == old(self)@.items.get(id),
            final(self)@ == old(self)@.remove(id),
            old(self)@.sound() ==> final(self)@.sound(),
            old(self)@.consistent() ==> final(self)@.consistent(),
    {
        self.forget_link(id);
        let removed = self.items.remove(&id);
        proof {
            if old(self)@.sound() {
                lemma_remove_sound(old(self)@, id);
            }
            if old(self)@.consistent() {
                lemma_remove_consistent(old(self)@, id);
            }
        }
        removed
    }

    /// Marks the link under `id` as active or not, and tells whether there
    /// is a link under `id`. Its ports, the other items and the index stay
    /// as they are.
    pub fn set_link_active(&mut self, id: u32, active: bool) -> (found: bool)
        ensures
            found == (old(self)@.items.get(id) matches Some(Item::Link { .. })),
            final(self)@ == old(self)@.set_active(id, active),
            old(self)@.sound() ==> final(self)@.sound(),
            old(self)@.consistent() ==> final(self)@.consistent(),
    {
        let pair: Option<(u32, u32)> = match self.items.get(&id) {
            Some(Item::Link { port_from, port_to, .. }) => Some((*port_from, *port_to)),
            _ => None,
        };
        proof {
            lemma_set_active_consistent(old(self)@, id, active);
        }
        match pair {
            Some((port_from, port_to)) => {
                self.items.insert(id, Item::Link { port_from, port_to, active });
                true
            },
            None => false,
        }
    }

    /// Convenience function: Get the id of the node a port is on.
    ///
    /// The answer is `Some(node)` exactly when a port owned by `node` is
    /// stored under `port`.
    pub fn get_node_of_port(&self, port: u32) -> (node: Option<u32>)
        ensures
            node == self@.node_of_port(port),
            forall|owner: u32|
                node == Some(owner) <==> self@.items.get(port) == Some(
                    Item::Port { node_id: owner },
                ),
    {
        match self.get(port) {
            Some(Item::Port { node_id }) => Some(*node_id),
            _ => None,
        }
    }

    /// Takes out of the index what it holds for the item under `id`; the
    /// items themselves stay as they are.
    fn forget_link(&mut self, id: u32)
        ensures
            final(self).items@ == old(self).items@,
            final(self)@.items == old(self)@.items,
            final(self)@.links == old(self)@.links_without(id),
    {
        let pair: Option<(u32, u32)> = match self.items.get(&id) {
            Some(Item::Link { port_from, port_to, .. }) => Some((*port_from, *port_to)),
            _ => None,
        };
        if let Some((port_from, port_to)) = pair {
            let key = key_of(port_from, port_to);
            let indexed: bool = match self.links.get(&key) {
                Some(link) => *link == id,
                None => false,
            };
            if indexed {
                self.links.remove(&key);
                proof {
                    assert forall|other: (u32, u32)|
                        pair_key(other.0, other.1) == key implies other == (port_from, port_to) by {
                        lemma_pair_key_injective(other, (port_from, port_to));
                    }
                }
            }
        }
    }
}

impl Default for State {
    fn default() -> (state: Self)
        ensures
            state@ == Graph::empty(),
    {
        State::new()
    }
}

/// What it means that index and objects agree: the link under `id` connects
/// the pair of ports exactly when the index holds `id` for the pair.
pub proof fn lemma_consistent_means(graph: Graph, id: u32, output_port: u32, input_port: u32)
    requires
        graph.consistent(),
    ensures
        graph.is_link(id, output_port, input_port) <==> graph.link_id(output_port, input_port)
            == Some(id),
{
    if graph.link_id(output_port, input_port) == Some(id) {
        assert(graph.links.contains_key((output_port, input_port)));
    }
}

/// An index that only points at live links still does so after any insert.
pub proof fn lemma_insert_sound(graph: Graph, id: u32, item: Item)
    requires
        graph.sound(),
    ensures
        graph.insert(id, item).sound(),
{
    let after = graph.insert(id, item);
    assert forall|output_port: u32, input_port: u32| #[trigger]
        after.links.contains_key((output_port, input_port)) implies after.is_link(
        after.links[(output_port, input_port)],
        output_port,
        input_port,
    ) by {
        if graph.links.contains_key((output_port, input_port)) {
            assert(graph.is_link(graph.links[(output_port, input_port)], output_port, input_port));
        }
    }
}

/// An index that only points at live links still does so after any remove.
pub proof fn lemma_remove_sound(graph: Graph, id: u32)
    requires
        graph.sound(),
    ensures
        graph.remove(id).sound(),
{
    let after = graph.remove(id);
    assert forall|output_port: u32, input_port: u32| #[trigger]
        after.links.contains_key((output_port, input_port)) implies after.is_link(
        after.links[(output_port, input_port)],
        output_port,
        input_port,
    ) by {
        assert(graph.is_link(graph.links[(output_port, input_port)], output_port, input_port));
    }
}

/// Index and objects still agree after an insert, unless it gives a link a
/// pair of ports that the link under another identifier holds.
pub proof fn lemma_insert_consistent(graph: Graph, id: u32, item: Item)
    requires
        graph.consistent(),
        graph.admits(id, item),
    ensures
        graph.insert(id, item).consistent(),
{
    lemma_insert_sound(graph, id, item);
    let after = graph.insert(id, item);
    assert forall|other: u32, output_port: u32, input_port: u32| #[trigger]
        after.is_link(other, output_port, input_port) implies after.link_id(
        output_port,
        input_port,
    ) == Some(other) by {
        if other != id {
            assert(graph.is_link(other, output_port, input_port));
        }
    }
}

/// Index and objects still agree after any remove.
pub proof fn lemma_remove_consistent(graph: Graph, id: u32)
    requires
        graph.consistent(),
    ensures
        graph.remove(id).consistent(),
{
    lemma_remove_sound(graph, id);
    let after = graph.remove(id);
    assert forall|other: u32, output_port: u32, input_port: u32| #[trigger]
        after.is_link(other, output_port, input_port) implies after.link_id(
        output_port,
        input_port,
    ) == Some(other) by {
        assert(graph.is_link(other, output_port, input_port));
    }
}

/// Marking a link active or not keeps the agreement of index and objects.
pub proof fn lemma_set_active_consistent(graph: Graph, id: u32, active: bool)
    ensures
        graph.sound() ==> graph.set_active(id, active).sound(),
        graph.complete() ==> graph.set_active(id, active).complete(),
{
    let after = graph.set_active(id, active);
    if graph.sound() {
        assert forall|output_port: u32, input_port: u32| #[trigger]
            after.links.contains_key((output_port, input_port)) implies after.is_link(
            after.links[(output_port, input_port)],
            output_port,
            input_port,
        ) by {
            assert(graph.is_link(graph.links[(output_port, input_port)], output_port, input_port));
        }
    }
    if graph.complete() {
        assert forall|other: u32, output_port: u32, input_port: u32| #[trigger]
            after.is_link(other, output_port, input_port) implies after.link_id(
            output_port,
            input_port,
        ) == Some(other) by {
            assert(graph.is_link(other, output_port, input_port));
        }
    }
}

/// Whatever sequence of inserts and removes is made on an empty store, the
/// index points only at live links of the right pair of ports after each of
/// them.
pub proof fn lemma_sound_after_each(ops: Seq<Operation>, n: int)
    requires
        0 <= n <= ops.len(),
    ensures
        Graph::empty().run(ops.take(n)).sound(),
    decreases n,
{
    if n > 0 {
        lemma_sound_after_each(ops, n - 1);
        assert(ops.take(n).drop_last() == ops.take(n - 1));
        let before = Graph::empty().run(ops.take(n - 1));
        match ops[n - 1] {
            Operation::Insert { id, item } => lemma_insert_sound(before, id, item),
            Operation::Remove { id } => lemma_remove_sound(before, id),
        }
    }
}

/// After each operation of a sequence of inserts and removes made on an
/// empty store, a link is among the objects exactly when the index holds its
/// pair of ports, and then under the link's own identifier; provided that no
/// insert gives a link a pair of ports that the link under another
/// identifier holds at that moment.
pub proof fn lemma_consistent_after_each(ops: Seq<Operation>, n: int)
    requires
        Graph::empty().admits_all(ops),
        0 <= n <= ops.len(),
    ensures
        Graph::empty().run(ops.take(n)).consistent(),
    decreases n,
{
    if n > 0 {
        lemma_consistent_after_each(ops, n - 1);
        assert(ops.take(n).drop_last() == ops.take(n - 1));
        let before = Graph::empty().run(ops.take(n - 1));
        match ops[n - 1] {
            Operation::Insert { id, item } => lemma_insert_consistent(before, id, item),
            Operation::Remove { id } => lemma_remove_consistent(before, id),
        }
    }
}

} // verus!
