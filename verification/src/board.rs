//! The platform: boot, the driver table, and interrupt servicing.

use vstd::prelude::*;
use crate::arena::Arena;
use crate::chip::Chip;
use crate::composition::Composition;
use crate::wiring::{Interrupt, Node, Singleton, Wiring, NUM_PINS};

verus! {

/// The number by which a system call names the GPIO driver.
pub const GPIO_DRIVER: usize = 1;

/// The number by which a system call names the timer driver.
pub const TIMER_DRIVER: usize = 3;

/// What a platform is, apart from how it is stored.
#[verifier::ext_equal]
pub struct Platform {
    /// The interrupts that the chip holds, oldest first.
    pub pending: Seq<Interrupt>,
    /// The node that answers for the GPIO driver.
    pub gpio: Node,
    /// The node that answers for the timer driver.
    pub timer: Node,
    /// The composition graph.
    pub wiring: Wiring,
}

impl Platform {
    /// The platform as boot leaves it: nothing pending, the whole graph
    /// built, the two drivers bound to their nodes.
    pub open spec fn booted() -> Platform {
        Platform {
            pending: Seq::empty(),
            gpio: Node::GpioController,
            timer: Node::TimerDriver,
            wiring: Wiring::complete(),
        }
    }

    /// What holds of a platform from boot on: only its pending interrupts
    /// ever differ from [`Platform::booted`].
    pub open spec fn wf(self) -> bool {
        &&& self.gpio == Node::GpioController
        &&& self.timer == Node::TimerDriver
        &&& self.wiring == Wiring::complete()
    }

    /// The capability that the driver table holds under `driver_num`, or
    /// `None` where the number names no driver.
    pub open spec fn driver(&self, driver_num: usize) -> Option<&Singleton> {
        if driver_num == GPIO_DRIVER {
            self.wiring.singleton(self.gpio)
        } else if driver_num == TIMER_DRIVER {
            self.wiring.singleton(self.timer)
        } else {
            None
        }
    }

    /// Whether the chip holds an interrupt that has not been serviced.
    pub open spec fn has_pending(self) -> bool {
        self.pending.len() > 0
    }

    /// The platform after the hardware has raised `irq`.
    pub open spec fn raise(self, irq: Interrupt) -> Platform {
        Platform { pending: self.pending.push(irq), ..self }
    }

    /// The callbacks that servicing delivers, in order: for each pending
    /// interrupt, oldest first, the nodes on its path through the graph.
    pub open spec fn delivered(self) -> Seq<Node> {
        self.wiring.deliveries(self.pending)
    }

    /// The platform after servicing: nothing is pending any more.
    pub open spec fn serviced(self) -> Platform {
        Platform { pending: Seq::empty(), ..self }
    }
}

/// The top-level handle of the board: the chip controller, the two drivers
/// that system calls can reach, and the graph that stands behind them.
pub struct Firestorm {
    chip: Chip,
    gpio: Node,
    timer: Node,
    wiring: Composition,
}

impl Firestorm {
    /// What the platform is, apart from how it is stored.
    pub closed spec fn view(&self) -> Platform {
        Platform {
            pending: self.chip@,
            gpio: self.gpio,
            timer: self.timer,
            wiring: self.wiring@,
        }
    }

    /// Holds of every platform that exists: its graph is stored
    /// consistently, and it is in a state that follows boot.
    #[verifier::type_invariant]
    spec fn inv(&self) -> bool {
        &&& self.wiring.wf()
        &&& self@.wf()
    }

    /// Looks `driver_num` up in the driver table and calls `f` with the
    /// capability found there, or with `None` where the number names no
    /// driver. The platform is left as it was; what `f` returns is returned.
    pub fn with_driver<F, R>(&mut self, driver_num: usize, f: F) -> (r: R) where
        F: FnOnce(Option<&Singleton>) -> R,

        requires
            f.requires((old(self)@.driver(driver_num),)),
        ensures
            f.ensures((old(self)@.driver(driver_num),), r),
            *final(self) == *old(self),
            final(self)@.wf(),
    {
        proof {
            use_type_invariant(&*self);
        }
        if driver_num == GPIO_DRIVER {
            f(self.wiring.singleton(self.gpio))
        } else if driver_num == TIMER_DRIVER {
            f(self.wiring.singleton(self.timer))
        } else {
            f(None)
        }
    }

    /// Whether the chip holds an interrupt that has not been serviced.
    /// Asking does not service anything: the platform is left as it was, so
    /// the answer is as true after the call as before it, and asking again
    /// gives it again.
    pub fn has_pending_interrupts(&mut self) -> (pending: bool)
        ensures
            pending == old(self)@.has_pending(),
            pending == final(self)@.has_pending(),
            *final(self) == *old(self),
            final(self)@.wf(),
    {
        proof {
            use_type_invariant(&*self);
        }
        self.chip.has_pending_interrupts()
    }

    /// Has the chip service its pending interrupts: each is taken off the
    /// chip, oldest first, and dispatched along its path through the graph.
    /// Returns the nodes that received a callback, in the order of delivery.
    pub fn service_pending_interrupts(&mut self) -> (delivered: Vec<Node>)
        ensures
            final(self)@ == old(self)@.serviced(),
            final(self)@.wf(),
            delivered@ == old(self)@.delivered(),
    {
        proof {
            use_type_invariant(&*self);
        }
        let mut chip = Chip::new();
        core::mem::swap(&mut chip, &mut self.chip);
        let delivered = chip.service_pending_interrupts(&self.wiring);
        self.chip = chip;
        delivered
    }

    /// The callback client of `node` in the graph behind the platform. No
    /// client slot dangles: a node that notifies anyone has its client.
    pub fn client_of(&self, node: Node) -> (client: Option<Node>)
        ensures
            client == self@.wiring.client_of(node),
            client == node.downstream(),
            self@.wf(),
    {
        proof {
            use_type_invariant(self);
        }
        self.wiring.client_of(node)
    }

    /// The owner of the pin in `slot` of the pin table, or `None` where the
    /// table has no such slot.
    pub fn pin_client(&self, slot: usize) -> (client: Option<Node>)
        ensures
            client == if slot < NUM_PINS {
                Some(self@.gpio)
            } else {
                None
            },
            self@.wf(),
    {
        proof {
            use_type_invariant(self);
        }
        self.wiring.pin_client(slot)
    }

    /// Records that the hardware has raised `irq`. It stays pending until
    /// the next servicing.
    pub fn raise(&mut self, irq: Interrupt)
        ensures
            final(self)@ == old(self)@.raise(irq),
            final(self)@.wf(),
    {
        proof {
            use_type_invariant(&*self);
        }
        let mut chip = Chip::new();
        core::mem::swap(&mut chip, &mut self.chip);
        chip.raise(irq);
        self.chip = chip;
    }
}

/// Builds the platform and places it in `arena`.
///
/// The graph is built in dependency order: the pin table, the GPIO
/// controller over it, the controller as owner of every pin; then the time
/// source, the arbiter over it, the virtual alarm, the alarm-to-timer
/// adapter and the timer driver, each made the callback client of the node
/// under it. The handle that comes back is the only one, and the arena
/// holds the platform from then on.
pub fn init<'a>(arena: &'a mut Arena<Firestorm>) -> (board: &'a mut Firestorm)
    requires
        old(arena)@ is None,
    ensures
        board@ == Platform::booted(),
        board@.wiring.pins.len() == NUM_PINS,
        forall|slot: int| 0 <= slot < NUM_PINS ==> board@.wiring.pins[slot] == Some(board@.gpio),
        board@.wiring.path(Interrupt::Alarm) == seq![
            Node::Arbiter,
            Node::VirtualAlarm,
            Node::AlarmTimer,
            Node::TimerDriver,
        ],
        final(arena)@ == Some(*final(board)),
{
    let mut wiring = Composition::new();

    wiring.place(Node::PinTable);
    wiring.place(Node::GpioController);
    let mut slot: usize = 0;
    while slot < NUM_PINS
        invariant
            slot <= NUM_PINS,
            wiring.wf(),
            wiring@.placed == Set::<Node>::empty().insert(Node::PinTable).insert(
                Node::GpioController,
            ),
            wiring@.clients == Map::<Node, Node>::empty(),
            wiring@.pins.len() == NUM_PINS,
            forall|i: int| 0 <= i < slot ==> wiring@.pins[i] == Some(Node::GpioController),
            forall|i: int| slot <= i < NUM_PINS ==> wiring@.pins[i] == None::<Node>,
        decreases NUM_PINS - slot,
    {
        wiring.assign_pin(slot);
        slot += 1;
    }

    wiring.place(Node::TimeSource);
    wiring.place(Node::Arbiter);
    wiring.connect(Node::TimeSource, Node::Arbiter);

    wiring.place(Node::VirtualAlarm);
    wiring.connect(Node::Arbiter, Node::VirtualAlarm);
    wiring.place(Node::AlarmTimer);
    wiring.connect(Node::VirtualAlarm, Node::AlarmTimer);

    wiring.place(Node::TimerDriver);
    wiring.connect(Node::AlarmTimer, Node::TimerDriver);

    proof {
        assert(wiring@ =~= Wiring::complete());
        crate::wiring::lemma_alarm_reaches_timer_driver();
    }
    arena.init(
        Firestorm {
            chip: Chip::new(),
            gpio: Node::GpioController,
            timer: Node::TimerDriver,
            wiring,
        },
    )
}

/// The two drivers that boot binds are in the table from boot on, each under
/// its number and each as one and the same singleton, whatever interrupts
/// come and go: the capability found does not depend on what is pending.
pub proof fn lemma_bound_drivers_are_present(platform: Platform, irq: Interrupt)
    requires
        platform.wf(),
    ensures
        platform.driver(GPIO_DRIVER) == Some(
            &Singleton { node: Node::GpioController, client: None },
        ),
        platform.driver(TIMER_DRIVER) == Some(&Singleton { node: Node::TimerDriver, client: None }),
        forall|driver_num: usize| #[trigger]
            platform.raise(irq).driver(driver_num) == platform.driver(driver_num),
        forall|driver_num: usize| #[trigger]
            platform.serviced().driver(driver_num) == platform.driver(driver_num),
{
}

/// A number other than those of the two drivers names no driver: the table
/// answers with `None`, in every state of the platform.
pub proof fn lemma_other_numbers_are_absent(platform: Platform, driver_num: usize)
    requires
        driver_num != GPIO_DRIVER,
        driver_num != TIMER_DRIVER,
    ensures
        platform.driver(driver_num) is None,
{
}

/// An expiry of the time source is delivered, at the next servicing, to the
/// arbiter, the virtual alarm, the alarm-to-timer adapter and the timer
/// driver, in that order and after everything that was pending before it.
pub proof fn lemma_expiry_reaches_timer_driver(platform: Platform)
    requires
        platform.wf(),
    ensures
        platform.raise(Interrupt::Alarm).delivered() == platform.delivered() + seq![
            Node::Arbiter,
            Node::VirtualAlarm,
            Node::AlarmTimer,
            Node::TimerDriver,
        ],
        platform.raise(Interrupt::Alarm).delivered().last() == Node::TimerDriver,
        !platform.raise(Interrupt::Alarm).serviced().has_pending(),
{
    let raised = platform.raise(Interrupt::Alarm);
    assert(raised.pending.drop_last() == platform.pending);
    crate::wiring::lemma_alarm_reaches_timer_driver();
}

} // verus!
