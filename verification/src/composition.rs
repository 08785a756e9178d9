//! The composition as boot code builds it: one arena per node, and the pin
//! table.

use vstd::prelude::*;
use crate::arena::Arena;
use crate::wiring::{
    lemma_client_stands_on_producer, Interrupt, Node, Singleton, Wiring, MAX_DEPTH, NODE_COUNT,
    NUM_PINS,
};

verus! {

/// The composition graph under construction.
///
/// Each node has an arena of its own, so each is placed at most once, and
/// a node's callback client lives in its singleton. The pins are hardware:
/// each is there from the start with room for one callback client, and the
/// pin table refers to them slot by slot once it has been placed. The
/// composition holds all of this in place, without heap storage.
pub struct Composition {
    nodes: [Arena<Singleton>; NODE_COUNT],
    pins: [Option<Node>; NUM_PINS],
}

impl Composition {
    /// What the arena of `node` hosts.
    spec fn hosted(&self, node: Node) -> Option<Singleton> {
        self.nodes[node.index() as int]@
    }

    /// The record of what has been built so far.
    pub closed spec fn view(&self) -> Wiring {
        Wiring {
            placed: Set::new(|node: Node| self.hosted(node) is Some),
            clients: Map::new(
                |node: Node| self.hosted(node) is Some && self.hosted(node)->0.client is Some,
                |node: Node| self.hosted(node)->0.client->0,
            ),
            pins: if self.hosted(Node::PinTable) is Some {
                self.pins@
            } else {
                Seq::empty()
            },
        }
    }

    /// Each arena hosts the singleton of its own node, no pin has an owner
    /// before the pin table exists, and the record is one that boot code can
    /// reach.
    pub closed spec fn wf(&self) -> bool {
        &&& forall|node: Node| #[trigger]
            self.hosted(node) matches Some(singleton) ==> singleton.node == node
        &&& self.hosted(Node::PinTable) is None ==> forall|slot: int|
            0 <= slot < NUM_PINS ==> #[trigger] self.pins[slot] is None
        &&& self@.wf()
    }

    /// A composition that is consistent has a record that boot code can
    /// reach: what [`Wiring::wf`] says of such records holds of it.
    pub proof fn lemma_view_wf(&self)
        requires
            self.wf(),
        ensures
            self@.wf(),
    {
    }

    /// A composition in which nothing has been placed.
    pub fn new() -> (composition: Self)
        ensures
            composition.wf(),
            composition@ == Wiring::empty(),
    {
        let composition = Composition {
            nodes: [
                Arena::new(),
                Arena::new(),
                Arena::new(),
                Arena::new(),
                Arena::new(),
                Arena::new(),
                Arena::new(),
            ],
            pins: [None; NUM_PINS],
        };
        composition
    }

    /// Whether the singleton of `node` has been placed.
    pub fn is_placed(&self, node: Node) -> (placed: bool)
        requires
            self.wf(),
        ensures
            placed == self@.placed.contains(node),
    {
        !self.nodes[node.index()].is_vacant()
    }

    /// The singleton of `node`, if it has been placed: the node itself with
    /// the client it has been given.
    pub fn singleton(&self, node: Node) -> (found: Option<&Singleton>)
        requires
            self.wf(),
        ensures
            found == self@.singleton(node),
    {
        self.nodes[node.index()].get()
    }

    /// The callback client of `node`, if one has been set.
    pub fn client_of(&self, node: Node) -> (client: Option<Node>)
        requires
            self.wf(),
        ensures
            client == self@.client_of(node),
    {
        match self.nodes[node.index()].get() {
            Some(singleton) => singleton.client,
            None => None,
        }
    }

    /// Number of populated slots in the pin table: none before the table is
    /// placed, all of them from then on.
    pub fn pin_count(&self) -> (count: usize)
        requires
            self.wf(),
        ensures
            count == self@.pins.len(),
            count == 0 || count == NUM_PINS,
    {
        if self.nodes[Node::PinTable.index()].is_vacant() {
            0
        } else {
            NUM_PINS
        }
    }

    /// The owner of the pin in `slot`, if the slot exists and is owned.
    pub fn pin_client(&self, slot: usize) -> (client: Option<Node>)
        requires
            self.wf(),
        ensures
            client == if slot < self@.pins.len() {
                self@.pins[slot as int]
            } else {
                None
            },
    {
        if slot < NUM_PINS && !self.nodes[Node::PinTable.index()].is_vacant() {
            self.pins[slot]
        } else {
            None
        }
    }

    /// Whether `node` may be placed now.
    pub fn can_place(&self, node: Node) -> (allowed: bool)
        requires
            self.wf(),
        ensures
            allowed == self@.can_place(node),
    {
        if self.is_placed(node) {
            false
        } else {
            match node.upstream() {
                Some(under) => self.is_placed(under),
                None => true,
            }
        }
    }

    /// Whether `client` may be made the callback client of `producer` now.
    pub fn can_connect(&self, producer: Node, client: Node) -> (allowed: bool)
        requires
            self.wf(),
        ensures
            allowed == self@.can_connect(producer, client),
    {
        let fits = match producer.downstream() {
            Some(expected) => expected == client,
            None => false,
        };
        fits && self.is_placed(producer) && self.is_placed(client)
    }

    /// Whether the pin in `slot` may be given to the GPIO controller now.
    pub fn can_assign_pin(&self, slot: usize) -> (allowed: bool)
        requires
            self.wf(),
        ensures
            allowed == self@.can_assign_pin(slot as int),
    {
        slot < self.pin_count() && self.is_placed(Node::GpioController)
    }

    /// Places the singleton of `node` in its arena, with no client yet.
    /// Placing the pin table populates every slot of it.
    pub fn place(&mut self, node: Node)
        requires
            old(self).wf(),
            old(self)@.can_place(node),
        ensures
            final(self).wf(),
            final(self)@ == old(self)@.place(node),
    {
        let slot = node.index();
        self.nodes[slot].init(Singleton { node, client: None });
        assert(forall|other: Node| other != node ==> self.hosted(other) == old(self).hosted(other));
        assert(self@ =~= old(self)@.place(node));
    }

    /// Makes `client` the callback client of `producer`.
    pub fn connect(&mut self, producer: Node, client: Node)
        requires
            old(self).wf(),
            old(self)@.can_connect(producer, client),
        ensures
            final(self).wf(),
            final(self)@ == old(self)@.connect(producer, client),
    {
        let slot = producer.index();
        match self.nodes[slot].get_mut() {
            Some(singleton) => {
                singleton.client = Some(client);
            },
            None => {},
        }
        assert(forall|other: Node|
            other != producer ==> self.hosted(other) == old(self).hosted(other));
        assert(self@ =~= old(self)@.connect(producer, client));
    }

    /// Gives the pin in `slot` to the GPIO controller: from now on the
    /// controller is the pin's callback client.
    pub fn assign_pin(&mut self, slot: usize)
        requires
            old(self).wf(),
            old(self)@.can_assign_pin(slot as int),
        ensures
            final(self).wf(),
            final(self)@ == old(self)@.assign_pin(slot as int),
    {
        self.pins[slot] = Some(Node::GpioController);
        assert(forall|node: Node| self.hosted(node) == old(self).hosted(node));
        assert(self@ =~= old(self)@.assign_pin(slot as int));
    }

    /// The nodes that receive a callback when `irq` is serviced, in the
    /// order in which the callback reaches them.
    pub fn route(&self, irq: Interrupt) -> (receivers: Vec<Node>)
        requires
            self.wf(),
        ensures
            receivers@ == self@.path(irq),
    {
        let mut receivers: Vec<Node> = Vec::new();
        let mut at: Node = Node::TimeSource;
        match irq {
            Interrupt::Alarm => {},
            Interrupt::Pin(slot) => {
                match self.pin_client(slot) {
                    Some(owner) => {
                        receivers.push(owner);
                        at = owner;
                    },
                    None => {
                        return receivers;
                    },
                }
            },
        }
        loop
            invariant
                self.wf(),
                receivers@ + self@.chain(at) == self@.path(irq),
            ensures
                receivers@ == self@.path(irq),
            decreases MAX_DEPTH - at.depth(),
        {
            match self.client_of(at) {
                Some(client) => {
                    proof {
                        lemma_client_stands_on_producer(at, client);
                    }
                    receivers.push(client);
                    at = client;
                },
                None => {
                    break;
                },
            }
        }
        receivers
    }
}

} // verus!
