//! The composition graph: which singletons exist and who is notified by whom.
//!
//! The shape of the graph is fixed by the board. The hardware time source
//! feeds an arbiter, the arbiter a virtual alarm, the virtual alarm an
//! alarm-to-timer adapter, and the adapter the timer driver that processes
//! talk to. Beside that chain stands the pin table with the GPIO controller
//! built over it, which every pin notifies.
//!
//! What changes during boot is how much of that shape has been built.
//! [`Wiring`] is the mathematical record of it; [`Composition`] is the value
//! that boot code fills step by step.

use vstd::prelude::*;

verus! {

/// Number of pins on the GPIO port, and of slots in the pin table.
pub const NUM_PINS: usize = 32;

/// Number of kinds of node in the composition graph.
pub const NODE_COUNT: usize = 7;

/// A node of the composition graph.
#[derive(Clone, Copy, Debug, PartialEq, Eq, Structural)]
pub enum Node {
    /// The one hardware time source. It exists before boot; placing it
    /// records that the platform has taken hold of it.
    TimeSource,
    /// The layer that shares the time source among virtual alarms.
    Arbiter,
    /// One logical alarm multiplexed over the arbiter.
    VirtualAlarm,
    /// The adapter that turns alarm semantics into countdown-timer semantics.
    AlarmTimer,
    /// The timer driver that processes reach through the dispatch table.
    TimerDriver,
    /// The table of references to the pins of the GPIO port.
    PinTable,
    /// The GPIO controller built over the pin table.
    GpioController,
}

impl Node {
    /// Position of the node's arena among the composition's arenas.
    pub open spec fn spec_index(self) -> usize {
        match self {
            Node::TimeSource => 0,
            Node::Arbiter => 1,
            Node::VirtualAlarm => 2,
            Node::AlarmTimer => 3,
            Node::TimerDriver => 4,
            Node::PinTable => 5,
            Node::GpioController => 6,
        }
    }

    /// Position of the node's arena among the composition's arenas.
    #[verifier::when_used_as_spec(spec_index)]
    pub fn index(self) -> (i: usize)
        ensures
            i == self.spec_index(),
            i < NODE_COUNT,
    {
        match self {
            Node::TimeSource => 0,
            Node::Arbiter => 1,
            Node::VirtualAlarm => 2,
            Node::AlarmTimer => 3,
            Node::TimerDriver => 4,
            Node::PinTable => 5,
            Node::GpioController => 6,
        }
    }

    /// The node that this one is built over and forwards to, if any. These
    /// edges are the ownership direction of the graph and have no cycle.
    pub open spec fn spec_upstream(self) -> Option<Node> {
        match self {
            Node::TimeSource => None,
            Node::Arbiter => Some(Node::TimeSource),
            Node::VirtualAlarm => Some(Node::Arbiter),
            Node::AlarmTimer => Some(Node::VirtualAlarm),
            Node::TimerDriver => Some(Node::AlarmTimer),
            Node::PinTable => None,
            Node::GpioController => Some(Node::PinTable),
        }
    }

    /// The node that this one is built over and forwards to, if any.
    #[verifier::when_used_as_spec(spec_upstream)]
    pub fn upstream(self) -> (under: Option<Node>)
        ensures
            under == self.spec_upstream(),
    {
        match self {
            Node::TimeSource => None,
            Node::Arbiter => Some(Node::TimeSource),
            Node::VirtualAlarm => Some(Node::Arbiter),
            Node::AlarmTimer => Some(Node::VirtualAlarm),
            Node::TimerDriver => Some(Node::AlarmTimer),
            Node::PinTable => None,
            Node::GpioController => Some(Node::PinTable),
        }
    }

    /// The one node that may be this node's callback client: the node built
    /// over it that it notifies. The timer driver and the GPIO controller
    /// end their chains; the pin table notifies nobody, its pins do.
    pub open spec fn spec_downstream(self) -> Option<Node> {
        match self {
            Node::TimeSource => Some(Node::Arbiter),
            Node::Arbiter => Some(Node::VirtualAlarm),
            Node::VirtualAlarm => Some(Node::AlarmTimer),
            Node::AlarmTimer => Some(Node::TimerDriver),
            Node::TimerDriver => None,
            Node::PinTable => None,
            Node::GpioController => None,
        }
    }

    /// The one node that may be this node's callback client.
    #[verifier::when_used_as_spec(spec_downstream)]
    pub fn downstream(self) -> (client: Option<Node>)
        ensures
            client == self.spec_downstream(),
    {
        match self {
            Node::TimeSource => Some(Node::Arbiter),
            Node::Arbiter => Some(Node::VirtualAlarm),
            Node::VirtualAlarm => Some(Node::AlarmTimer),
            Node::AlarmTimer => Some(Node::TimerDriver),
            Node::TimerDriver => None,
            Node::PinTable => None,
            Node::GpioController => None,
        }
    }

    /// How many nodes lie under this one.
    pub open spec fn depth(self) -> nat {
        match self {
            Node::TimeSource => 0,
            Node::Arbiter => 1,
            Node::VirtualAlarm => 2,
            Node::AlarmTimer => 3,
            Node::TimerDriver => 4,
            Node::PinTable => 0,
            Node::GpioController => 1,
        }
    }
}

/// The greatest depth of any node.
pub const MAX_DEPTH: usize = 4;

/// The singleton behind a node of the graph: which node it is, and whom it
/// notifies.
pub struct Singleton {
    /// The node that this singleton stands for.
    pub node: Node,
    /// The node that it calls back, once one has been set.
    pub client: Option<Node>,
}

/// A hardware event that the chip holds until it is serviced.
#[derive(Clone, Copy, Debug, PartialEq, Eq, Structural)]
pub enum Interrupt {
    /// The time source has reached its compare value.
    Alarm,
    /// The pin in the given slot of the pin table has changed.
    Pin(usize),
}

/// How much of the composition graph has been built.
#[verifier::ext_equal]
pub struct Wiring {
    /// The nodes whose singleton has been placed.
    pub placed: Set<Node>,
    /// The callback client of each node that has one.
    pub clients: Map<Node, Node>,
    /// The callback client of each slot of the pin table. The sequence is
    /// empty until the table is placed.
    pub pins: Seq<Option<Node>>,
}

impl Wiring {
    /// Nothing placed, nothing connected.
    pub open spec fn empty() -> Wiring {
        Wiring { placed: Set::empty(), clients: Map::empty(), pins: Seq::empty() }
    }

    /// Every node placed, every client slot filled.
    pub open spec fn complete() -> Wiring {
        Wiring {
            placed: Set::full(),
            clients: Map::new(
                |producer: Node| producer.downstream() is Some,
                |producer: Node| producer.downstream()->0,
            ),
            pins: Seq::new(NUM_PINS as nat, |slot: int| Some(Node::GpioController)),
        }
    }

    /// The callback client of `node`, if one has been set.
    pub open spec fn client_of(self, node: Node) -> Option<Node> {
        if self.clients.dom().contains(node) {
            Some(self.clients[node])
        } else {
            None
        }
    }

    /// The singleton of `node` as the graph knows it, if it has been placed.
    pub open spec fn singleton(&self, node: Node) -> Option<&Singleton> {
        if self.placed.contains(node) {
            Some(&Singleton { node, client: self.client_of(node) })
        } else {
            None
        }
    }

    /// What holds of every composition that boot code can reach: a placed
    /// node stands on a placed node, a callback edge joins two placed nodes
    /// along the fixed shape, the pin table is fully populated from the
    /// moment it exists, and a pin is owned by the GPIO controller or by
    /// nobody.
    pub open spec fn wf(self) -> bool {
        &&& forall|node: Node| #[trigger]
            self.placed.contains(node) ==> (node.upstream() matches Some(under)
                ==> self.placed.contains(under))
        &&& forall|producer: Node| #[trigger]
            self.clients.dom().contains(producer) ==> self.can_connect(
                producer,
                self.clients[producer],
            )
        &&& self.pins.len() == if self.placed.contains(Node::PinTable) {
            NUM_PINS as nat
        } else {
            0
        }
        &&& forall|slot: int|
            0 <= slot < self.pins.len() ==> (#[trigger] self.pins[slot] matches Some(owner)
                ==> owner == Node::GpioController && self.placed.contains(Node::GpioController))
    }

    /// Whether `node` may be placed now: it has not been placed before, and
    /// what it is built over already exists.
    pub open spec fn can_place(self, node: Node) -> bool {
        &&& !self.placed.contains(node)
        &&& node.upstream() matches Some(under) ==> self.placed.contains(under)
    }

    /// The composition after `node` has been placed. Placing the pin table
    /// populates all of its slots, none of them owned yet.
    pub open spec fn place(self, node: Node) -> Wiring {
        Wiring {
            placed: self.placed.insert(node),
            clients: self.clients,
            pins: if node == Node::PinTable {
                Seq::new(NUM_PINS as nat, |slot: int| None::<Node>)
            } else {
                self.pins
            },
        }
    }

    /// Whether `client` may be made the callback client of `producer`: both
    /// exist, and the fixed shape has `client` built over `producer`.
    pub open spec fn can_connect(self, producer: Node, client: Node) -> bool {
        &&& self.placed.contains(producer)
        &&& self.placed.contains(client)
        &&& producer.downstream() == Some(client)
    }

    /// The composition after `client` has become the callback client of
    /// `producer`.
    pub open spec fn connect(self, producer: Node, client: Node) -> Wiring {
        Wiring {
            placed: self.placed,
            clients: self.clients.insert(producer, client),
            pins: self.pins,
        }
    }

    /// Whether the pin in `slot` may be given to the GPIO controller: the
    /// slot and the controller exist.
    pub open spec fn can_assign_pin(self, slot: int) -> bool {
        &&& 0 <= slot < self.pins.len()
        &&& self.placed.contains(Node::GpioController)
    }

    /// The composition after the pin in `slot` has been given to the GPIO
    /// controller.
    pub open spec fn assign_pin(self, slot: int) -> Wiring {
        Wiring {
            placed: self.placed,
            clients: self.clients,
            pins: self.pins.update(slot, Some(Node::GpioController)),
        }
    }

    /// The nodes that a callback leaving `node` reaches, in the order in
    /// which it reaches them: the node's client, that client's client, and
    /// so on until a node without client. Each client lies further from the
    /// hardware than its producer, so the chain ends.
    pub open spec fn chain(self, node: Node) -> Seq<Node>
        decreases MAX_DEPTH - node.depth(),
    {
        match self.client_of(node) {
            Some(client) => if client.depth() > node.depth() {
                seq![client] + self.chain(client)
            } else {
                Seq::empty()
            },
            None => Seq::empty(),
        }
    }

    /// The nodes that receive a callback when `irq` is serviced, in order.
    /// An interrupt from a pin slot that does not exist, or that nobody
    /// owns, reaches nobody.
    pub open spec fn path(self, irq: Interrupt) -> Seq<Node> {
        match irq {
            Interrupt::Alarm => self.chain(Node::TimeSource),
            Interrupt::Pin(slot) => if slot < self.pins.len() {
                match self.pins[slot as int] {
                    Some(owner) => seq![owner] + self.chain(owner),
                    None => Seq::empty(),
                }
            } else {
                Seq::empty()
            },
        }
    }

    /// The callbacks delivered when the interrupts in `pending` are serviced
    /// one after the other.
    pub open spec fn deliveries(self, pending: Seq<Interrupt>) -> Seq<Node>
        decreases pending.len(),
    {
        if pending.len() == 0 {
            Seq::empty()
        } else {
            self.deliveries(pending.drop_last()) + self.path(pending.last())
        }
    }
}

/// Callbacks run against ownership: the client that a node notifies is the
/// node built directly over it, one level further from the hardware.
pub proof fn lemma_client_stands_on_producer(producer: Node, client: Node)
    requires
        producer.downstream() == Some(client),
    ensures
        client.upstream() == Some(producer),
        client.depth() == producer.depth() + 1,
        client.depth() <= MAX_DEPTH,
{
}

/// In a composition that boot code can reach, a GPIO controller stands on a
/// pin table that is fully populated, and a pin that has an owner is owned
/// by that controller.
pub proof fn lemma_controller_owns_full_table(wiring: Wiring, slot: int)
    requires
        wiring.wf(),
    ensures
        wiring.placed.contains(Node::GpioController) ==> wiring.placed.contains(Node::PinTable)
            && wiring.pins.len() == NUM_PINS,
        0 <= slot < wiring.pins.len() && wiring.pins[slot] is Some ==> wiring.pins[slot] == Some(
            Node::GpioController,
        ) && wiring.placed.contains(Node::GpioController),
{
}

/// In the complete composition an expiry of the time source travels through
/// the arbiter, the virtual alarm and the alarm-to-timer adapter, and ends
/// at the timer driver.
pub proof fn lemma_alarm_reaches_timer_driver()
    ensures
        Wiring::complete().path(Interrupt::Alarm) == seq![
            Node::Arbiter,
            Node::VirtualAlarm,
            Node::AlarmTimer,
            Node::TimerDriver,
        ],
{
    let w = Wiring::complete();
    assert(w.chain(Node::TimerDriver) == Seq::<Node>::empty());
    assert(w.chain(Node::AlarmTimer) == seq![Node::TimerDriver]);
    assert(w.chain(Node::VirtualAlarm) == seq![Node::AlarmTimer, Node::TimerDriver]);
    assert(w.chain(Node::Arbiter) == seq![Node::VirtualAlarm, Node::AlarmTimer, Node::TimerDriver]);
}

/// In the complete composition every pin of the GPIO port is owned by the GPIO
/// controller, and an event on it reaches the controller and nobody else.
pub proof fn lemma_pins_reach_gpio_controller(slot: usize)
    requires
        slot < NUM_PINS,
    ensures
        Wiring::complete().pins.len() == NUM_PINS,
        Wiring::complete().pins[slot as int] == Some(Node::GpioController),
        Wiring::complete().path(Interrupt::Pin(slot)) == seq![Node::GpioController],
{
}

} // verus!
