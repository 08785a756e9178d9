use platform::wiring::{MAX_DEPTH, NODE_COUNT};
use platform::{Interrupt, Node, NUM_PINS};

const ALL: [Node; 7] = [
    Node::TimeSource,
    Node::Arbiter,
    Node::VirtualAlarm,
    Node::AlarmTimer,
    Node::TimerDriver,
    Node::PinTable,
    Node::GpioController,
];

#[test]
fn board_constants() {
    assert_eq!(NUM_PINS, 32);
    assert_eq!(NODE_COUNT, 7);
    assert_eq!(MAX_DEPTH, 4);
}

#[test]
fn every_node_has_its_own_index() {
    assert_eq!(ALL.len(), NODE_COUNT);
    for (expected, node) in ALL.iter().enumerate() {
        assert_eq!(node.index(), expected);
    }
}

#[test]
fn alarm_chain_is_built_bottom_up() {
    assert_eq!(Node::TimeSource.upstream(), None);
    assert_eq!(Node::Arbiter.upstream(), Some(Node::TimeSource));
    assert_eq!(Node::VirtualAlarm.upstream(), Some(Node::Arbiter));
    assert_eq!(Node::AlarmTimer.upstream(), Some(Node::VirtualAlarm));
    assert_eq!(Node::TimerDriver.upstream(), Some(Node::AlarmTimer));
}

#[test]
fn gpio_controller_stands_on_the_pin_table() {
    assert_eq!(Node::PinTable.upstream(), None);
    assert_eq!(Node::GpioController.upstream(), Some(Node::PinTable));
}

#[test]
fn callbacks_run_up_the_alarm_chain() {
    assert_eq!(Node::TimeSource.downstream(), Some(Node::Arbiter));
    assert_eq!(Node::Arbiter.downstream(), Some(Node::VirtualAlarm));
    assert_eq!(Node::VirtualAlarm.downstream(), Some(Node::AlarmTimer));
    assert_eq!(Node::AlarmTimer.downstream(), Some(Node::TimerDriver));
}

#[test]
fn drivers_and_pin_table_notify_no_node() {
    assert_eq!(Node::TimerDriver.downstream(), None);
    assert_eq!(Node::GpioController.downstream(), None);
    assert_eq!(Node::PinTable.downstream(), None);
}

#[test]
fn a_client_is_built_over_its_producer() {
    for producer in ALL.iter() {
        if let Some(client) = producer.downstream() {
            assert_eq!(client.upstream(), Some(*producer));
        }
    }
}

#[test]
fn interrupts_compare_by_source() {
    assert_eq!(Interrupt::Alarm, Interrupt::Alarm);
    assert_eq!(Interrupt::Pin(3), Interrupt::Pin(3));
    assert_ne!(Interrupt::Pin(3), Interrupt::Pin(4));
    assert_ne!(Interrupt::Alarm, Interrupt::Pin(0));
}
