use platform::{init, Arena, Firestorm, Interrupt, Node, Singleton, GPIO_DRIVER, NUM_PINS, TIMER_DRIVER};

fn node_of(capability: Option<&Singleton>) -> Option<Node> {
    capability.map(|singleton| singleton.node)
}

#[test]
fn driver_numbers() {
    assert_eq!(GPIO_DRIVER, 1);
    assert_eq!(TIMER_DRIVER, 3);
}

#[test]
fn boot_fills_the_arena() {
    let mut arena: Arena<Firestorm> = Arena::new();
    assert!(arena.is_vacant());
    init(&mut arena);
    assert!(!arena.is_vacant());
}

#[test]
fn dispatch_on_a_fresh_board() {
    let mut arena: Arena<Firestorm> = Arena::new();
    let board = init(&mut arena);
    assert_eq!(board.with_driver(1, node_of), Some(Node::GpioController));
    assert_eq!(board.with_driver(3, node_of), Some(Node::TimerDriver));
    assert_eq!(board.with_driver(99, node_of), None);
}

#[test]
fn dispatch_hands_out_the_same_singleton_every_time() {
    let mut arena: Arena<Firestorm> = Arena::new();
    let board = init(&mut arena);
    let address =
        |capability: Option<&Singleton>| capability.map(|singleton| format!("{:p}", singleton));
    let first = board.with_driver(GPIO_DRIVER, address);
    let second = board.with_driver(GPIO_DRIVER, address);
    assert!(first.is_some());
    assert_eq!(first, second);

    let timer_first = board.with_driver(TIMER_DRIVER, address);
    board.raise(Interrupt::Alarm);
    board.service_pending_interrupts();
    let timer_second = board.with_driver(TIMER_DRIVER, address);
    assert!(timer_first.is_some());
    assert_eq!(timer_first, timer_second);
    assert_ne!(first, timer_first);
}

#[test]
fn dispatch_of_unknown_numbers_is_absent() {
    let mut arena: Arena<Firestorm> = Arena::new();
    let board = init(&mut arena);
    for driver_num in [0usize, 2, 4, 5, 31, 32, 255, 1 << 16, usize::MAX] {
        assert!(board.with_driver(driver_num, |capability| capability.is_none()));
    }
}

#[test]
fn dispatch_returns_what_the_continuation_returns() {
    let mut arena: Arena<Firestorm> = Arena::new();
    let board = init(&mut arena);
    let label = board.with_driver(3, |capability| match capability {
        Some(singleton) if singleton.node == Node::TimerDriver => "timer",
        Some(_) => "other",
        None => "absent",
    });
    assert_eq!(label, "timer");
    let moved = String::from("kept");
    let back = board.with_driver(7, move |capability| (capability.is_some(), moved));
    assert_eq!(back, (false, String::from("kept")));
}

#[test]
fn drivers_end_their_chains() {
    let mut arena: Arena<Firestorm> = Arena::new();
    let board = init(&mut arena);
    assert_eq!(board.with_driver(1, |c| c.map(|s| s.client)), Some(None));
    assert_eq!(board.with_driver(3, |c| c.map(|s| s.client)), Some(None));
}

#[test]
fn boot_gives_every_pin_to_the_gpio_controller() {
    let mut arena: Arena<Firestorm> = Arena::new();
    let board = init(&mut arena);
    assert_eq!(NUM_PINS, 32);
    let controller = board.with_driver(GPIO_DRIVER, node_of);
    assert_eq!(controller, Some(Node::GpioController));
    for slot in 0..NUM_PINS {
        assert_eq!(board.pin_client(slot), controller);
    }
    assert_eq!(board.pin_client(NUM_PINS), None);
    assert_eq!(board.pin_client(usize::MAX), None);
}

#[test]
fn boot_closes_the_callback_graph() {
    let mut arena: Arena<Firestorm> = Arena::new();
    let board = init(&mut arena);
    assert_eq!(board.client_of(Node::TimeSource), Some(Node::Arbiter));
    assert_eq!(board.client_of(Node::Arbiter), Some(Node::VirtualAlarm));
    assert_eq!(board.client_of(Node::VirtualAlarm), Some(Node::AlarmTimer));
    assert_eq!(board.client_of(Node::AlarmTimer), Some(Node::TimerDriver));
    assert_eq!(board.client_of(Node::TimerDriver), None);
    assert_eq!(board.client_of(Node::PinTable), None);
    assert_eq!(board.client_of(Node::GpioController), None);
}

#[test]
fn fresh_board_has_nothing_pending() {
    let mut arena: Arena<Firestorm> = Arena::new();
    let board = init(&mut arena);
    assert!(!board.has_pending_interrupts());
    assert_eq!(board.service_pending_interrupts(), Vec::<Node>::new());
    assert!(!board.has_pending_interrupts());
}

#[test]
fn expiry_travels_to_the_timer_driver() {
    let mut arena: Arena<Firestorm> = Arena::new();
    let board = init(&mut arena);
    board.raise(Interrupt::Alarm);
    assert!(board.has_pending_interrupts());
    let delivered = board.service_pending_interrupts();
    assert_eq!(
        delivered,
        vec![Node::Arbiter, Node::VirtualAlarm, Node::AlarmTimer, Node::TimerDriver]
    );
    assert_eq!(delivered.last(), Some(&Node::TimerDriver));
    assert!(!board.has_pending_interrupts());
}

#[test]
fn asking_for_pending_interrupts_clears_nothing() {
    let mut arena: Arena<Firestorm> = Arena::new();
    let board = init(&mut arena);
    assert_eq!(board.has_pending_interrupts(), board.has_pending_interrupts());
    board.raise(Interrupt::Pin(3));
    let first = board.has_pending_interrupts();
    let second = board.has_pending_interrupts();
    assert!(first);
    assert_eq!(first, second);
    assert_eq!(board.service_pending_interrupts(), vec![Node::GpioController]);
    let third = board.has_pending_interrupts();
    let fourth = board.has_pending_interrupts();
    assert!(!third);
    assert_eq!(third, fourth);
}

#[test]
fn servicing_drains_in_the_order_raised() {
    let mut arena: Arena<Firestorm> = Arena::new();
    let board = init(&mut arena);
    board.raise(Interrupt::Pin(0));
    board.raise(Interrupt::Alarm);
    board.raise(Interrupt::Pin(31));
    assert_eq!(
        board.service_pending_interrupts(),
        vec![
            Node::GpioController,
            Node::Arbiter,
            Node::VirtualAlarm,
            Node::AlarmTimer,
            Node::TimerDriver,
            Node::GpioController,
        ]
    );
    assert_eq!(board.service_pending_interrupts(), Vec::<Node>::new());
}

#[test]
fn interrupt_from_a_missing_pin_reaches_nobody() {
    let mut arena: Arena<Firestorm> = Arena::new();
    let board = init(&mut arena);
    board.raise(Interrupt::Pin(32));
    assert!(board.has_pending_interrupts());
    assert_eq!(board.service_pending_interrupts(), Vec::<Node>::new());
    assert!(!board.has_pending_interrupts());
}

#[test]
fn the_arena_holds_the_board_that_was_booted() {
    let mut arena: Arena<Firestorm> = Arena::new();
    {
        let board = init(&mut arena);
        board.raise(Interrupt::Alarm);
    }
    let board = arena.get_mut().expect("booted");
    assert!(board.has_pending_interrupts());
    assert_eq!(board.with_driver(1, node_of), Some(Node::GpioController));
}
