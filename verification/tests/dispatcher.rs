use shoe_tightener::{
    BatteryCell, Calibration, Characteristic, CommandChannel, Dispatcher, GattEvent, HandleTable,
    Lifecycle, Outcome, Reply,
};

const TIGHTENING_HANDLE: u16 = 0x0012;
const BATTERY_HANDLE: u16 = 0x0016;

fn fresh_dispatcher() -> Dispatcher {
    Dispatcher::new(HandleTable::new(TIGHTENING_HANDLE, BATTERY_HANDLE).unwrap())
}

fn write_of(payload: &[u8]) -> GattEvent {
    GattEvent::Write { handle: TIGHTENING_HANDLE, data: payload.to_vec() }
}

#[test]
fn handle_table_refuses_equal_handles() {
    assert!(HandleTable::new(5, 5).is_none());
    assert!(HandleTable::new(0, 0).is_none());
    assert!(HandleTable::new(5, 6).is_some());
}

#[test]
fn handle_table_maps_both_ways() {
    let table = HandleTable::new(TIGHTENING_HANDLE, BATTERY_HANDLE).unwrap();
    assert_eq!(table.handle_of(Characteristic::Tightening), TIGHTENING_HANDLE);
    assert_eq!(table.handle_of(Characteristic::BatteryLevel), BATTERY_HANDLE);
    assert_eq!(table.lookup(TIGHTENING_HANDLE), Some(Characteristic::Tightening));
    assert_eq!(table.lookup(BATTERY_HANDLE), Some(Characteristic::BatteryLevel));
    assert_eq!(table.lookup(0), None);
    assert_eq!(table.lookup(TIGHTENING_HANDLE + 1), None);
    assert_eq!(table.lookup(u16::MAX), None);
}

#[test]
fn new_dispatcher_is_active_with_zeroed_values() {
    let dispatcher = fresh_dispatcher();
    assert!(dispatcher.is_active());
    assert_eq!(dispatcher.lifecycle(), Lifecycle::Active);
    assert_eq!(dispatcher.tightening(), 0);
    assert_eq!(dispatcher.battery_level(), 0);
    assert_eq!(dispatcher.handles().lookup(BATTERY_HANDLE), Some(Characteristic::BatteryLevel));
}

#[test]
fn read_of_tightening_echoes_the_stored_value() {
    let mut dispatcher = fresh_dispatcher();
    let read = GattEvent::Read { handle: TIGHTENING_HANDLE };
    assert_eq!(
        dispatcher.handle_event(&read, 80),
        Outcome { forward: None, reply: Reply::Tightening(0) }
    );
    dispatcher.handle_event(&write_of(&[1]), 80);
    assert_eq!(
        dispatcher.handle_event(&read, 80),
        Outcome { forward: None, reply: Reply::Tightening(1) }
    );
    assert_eq!(dispatcher.tightening(), 1);
    assert_eq!(dispatcher.battery_level(), 0);
}

#[test]
fn read_of_battery_returns_and_stores_the_current_level() {
    let mut dispatcher = fresh_dispatcher();
    let read = GattEvent::Read { handle: BATTERY_HANDLE };
    assert_eq!(
        dispatcher.handle_event(&read, 73),
        Outcome { forward: None, reply: Reply::BatteryLevel(73) }
    );
    assert_eq!(dispatcher.battery_level(), 73);
    assert_eq!(
        dispatcher.handle_event(&read, 12),
        Outcome { forward: None, reply: Reply::BatteryLevel(12) }
    );
    assert_eq!(dispatcher.battery_level(), 12);
}

#[test]
fn read_of_an_unknown_handle_is_left_to_the_server() {
    let mut dispatcher = fresh_dispatcher();
    assert_eq!(
        dispatcher.handle_event(&GattEvent::Read { handle: 3 }, 50),
        Outcome { forward: None, reply: Reply::Stored }
    );
    assert_eq!(dispatcher.battery_level(), 0);
}

#[test]
fn write_of_one_octet_is_forwarded_as_a_signed_command() {
    let mut dispatcher = fresh_dispatcher();
    assert_eq!(
        dispatcher.handle_event(&write_of(&[0xff]), 50),
        Outcome { forward: Some(-1), reply: Reply::WriteAck }
    );
    assert_eq!(dispatcher.tightening(), -1);
    assert_eq!(
        dispatcher.handle_event(&write_of(&[0x00]), 50),
        Outcome { forward: Some(0), reply: Reply::WriteAck }
    );
    assert_eq!(
        dispatcher.handle_event(&write_of(&[0x01]), 50),
        Outcome { forward: Some(1), reply: Reply::WriteAck }
    );
    assert_eq!(
        dispatcher.handle_event(&write_of(&[0x7f]), 50),
        Outcome { forward: Some(127), reply: Reply::WriteAck }
    );
    assert_eq!(
        dispatcher.handle_event(&write_of(&[0x80]), 50),
        Outcome { forward: Some(-128), reply: Reply::WriteAck }
    );
    assert_eq!(dispatcher.tightening(), -128);
}

#[test]
fn write_of_every_octet_matches_its_signed_reading() {
    let mut dispatcher = fresh_dispatcher();
    for octet in 0..=u8::MAX {
        let outcome = dispatcher.handle_event(&write_of(&[octet]), 50);
        assert_eq!(outcome.forward, Some(i8::from_le_bytes([octet])));
        assert_eq!(outcome.reply, Reply::WriteAck);
    }
}

#[test]
fn write_of_a_wrong_length_is_dropped_but_acknowledged() {
    let mut dispatcher = fresh_dispatcher();
    dispatcher.handle_event(&write_of(&[1]), 50);
    assert_eq!(
        dispatcher.handle_event(&write_of(&[]), 50),
        Outcome { forward: None, reply: Reply::WriteAck }
    );
    assert_eq!(
        dispatcher.handle_event(&write_of(&[0xff, 0x00]), 50),
        Outcome { forward: None, reply: Reply::WriteAck }
    );
    assert_eq!(
        dispatcher.handle_event(&write_of(&[1, 2, 3, 4]), 50),
        Outcome { forward: None, reply: Reply::WriteAck }
    );
    assert_eq!(dispatcher.tightening(), 1);
}

#[test]
fn write_to_another_handle_is_not_forwarded() {
    let mut dispatcher = fresh_dispatcher();
    let to_battery = GattEvent::Write { handle: BATTERY_HANDLE, data: vec![1] };
    assert_eq!(
        dispatcher.handle_event(&to_battery, 50),
        Outcome { forward: None, reply: Reply::WriteAck }
    );
    let to_unknown = GattEvent::Write { handle: 99, data: vec![1] };
    assert_eq!(
        dispatcher.handle_event(&to_unknown, 50),
        Outcome { forward: None, reply: Reply::WriteAck }
    );
    assert_eq!(dispatcher.tightening(), 0);
    assert_eq!(dispatcher.battery_level(), 0);
}

#[test]
fn malformed_and_other_events_are_absorbed() {
    let mut dispatcher = fresh_dispatcher();
    dispatcher.handle_event(&write_of(&[1]), 50);
    for event in [GattEvent::Malformed, GattEvent::Other] {
        assert_eq!(
            dispatcher.handle_event(&event, 50),
            Outcome { forward: None, reply: Reply::Nothing }
        );
        assert!(dispatcher.is_active());
        assert_eq!(dispatcher.tightening(), 1);
    }
}

#[test]
fn disconnect_terminates_and_forwards_stop() {
    let mut dispatcher = fresh_dispatcher();
    dispatcher.handle_event(&write_of(&[1]), 50);
    assert_eq!(
        dispatcher.handle_event(&GattEvent::Disconnected { reason: 0x13 }, 50),
        Outcome { forward: Some(0), reply: Reply::Nothing }
    );
    assert!(!dispatcher.is_active());
    assert_eq!(dispatcher.lifecycle(), Lifecycle::Terminated { reason: 0x13 });
    assert_eq!(dispatcher.tightening(), 1);
}

#[test]
fn terminated_dispatcher_ignores_requests() {
    let mut dispatcher = fresh_dispatcher();
    dispatcher.handle_event(&GattEvent::Disconnected { reason: 0x08 }, 50);
    for event in [
        write_of(&[1]),
        GattEvent::Read { handle: TIGHTENING_HANDLE },
        GattEvent::Read { handle: BATTERY_HANDLE },
        GattEvent::Malformed,
        GattEvent::Other,
    ] {
        assert_eq!(
            dispatcher.handle_event(&event, 50),
            Outcome { forward: None, reply: Reply::Nothing }
        );
    }
    assert_eq!(dispatcher.tightening(), 0);
    assert_eq!(dispatcher.battery_level(), 0);
    assert_eq!(dispatcher.lifecycle(), Lifecycle::Terminated { reason: 0x08 });
}

#[test]
fn second_disconnect_keeps_the_first_reason_and_stops_again() {
    let mut dispatcher = fresh_dispatcher();
    dispatcher.handle_event(&GattEvent::Disconnected { reason: 0x08 }, 50);
    assert_eq!(
        dispatcher.handle_event(&GattEvent::Disconnected { reason: 0x13 }, 50),
        Outcome { forward: Some(0), reply: Reply::Nothing }
    );
    assert_eq!(dispatcher.lifecycle(), Lifecycle::Terminated { reason: 0x08 });
}

#[test]
fn reconnect_keeps_the_characteristic_values() {
    let mut dispatcher = fresh_dispatcher();
    dispatcher.handle_event(&write_of(&[0xff]), 50);
    dispatcher.handle_event(&GattEvent::Read { handle: BATTERY_HANDLE }, 41);
    dispatcher.handle_event(&GattEvent::Disconnected { reason: 0x13 }, 50);
    dispatcher.reconnect();
    assert!(dispatcher.is_active());
    assert_eq!(dispatcher.tightening(), -1);
    assert_eq!(dispatcher.battery_level(), 41);
    assert_eq!(
        dispatcher.handle_event(&GattEvent::Read { handle: TIGHTENING_HANDLE }, 50),
        Outcome { forward: None, reply: Reply::Tightening(-1) }
    );
}

#[test]
fn dispatch_puts_the_command_into_the_channel() {
    let mut dispatcher = fresh_dispatcher();
    let mut channel = CommandChannel::new();
    let cell = BatteryCell::new();
    assert_eq!(dispatcher.dispatch(&write_of(&[0xff]), &cell, &mut channel), Reply::WriteAck);
    assert_eq!(channel.try_take(), Some(-1));
    assert_eq!(dispatcher.dispatch(&write_of(&[1, 2]), &cell, &mut channel), Reply::WriteAck);
    assert_eq!(channel.try_take(), None);
}

#[test]
fn dispatch_leaves_a_pending_command_when_nothing_is_forwarded() {
    let mut dispatcher = fresh_dispatcher();
    let mut channel = CommandChannel::new();
    let cell = BatteryCell::new();
    dispatcher.dispatch(&write_of(&[1]), &cell, &mut channel);
    dispatcher.dispatch(&GattEvent::Read { handle: BATTERY_HANDLE }, &cell, &mut channel);
    dispatcher.dispatch(&GattEvent::Malformed, &cell, &mut channel);
    dispatcher.dispatch(&write_of(&[]), &cell, &mut channel);
    assert_eq!(channel.try_take(), Some(1));
}

#[test]
fn dispatch_reads_the_battery_cell() {
    let mut dispatcher = fresh_dispatcher();
    let mut channel = CommandChannel::new();
    let mut cell = BatteryCell::new();
    let read = GattEvent::Read { handle: BATTERY_HANDLE };
    assert_eq!(dispatcher.dispatch(&read, &cell, &mut channel), Reply::BatteryLevel(100));
    cell.publish_sample(3030, &Calibration::stock());
    assert_eq!(dispatcher.dispatch(&read, &cell, &mut channel), Reply::BatteryLevel(50));
    assert_eq!(dispatcher.battery_level(), 50);
    cell.publish_sample(100, &Calibration::stock());
    assert_eq!(dispatcher.dispatch(&read, &cell, &mut channel), Reply::BatteryLevel(0));
    assert_eq!(channel.try_take(), None);
}

#[test]
fn dispatch_of_disconnect_replaces_a_pending_command_with_stop() {
    let mut dispatcher = fresh_dispatcher();
    let mut channel = CommandChannel::new();
    let cell = BatteryCell::new();
    dispatcher.dispatch(&write_of(&[1]), &cell, &mut channel);
    assert_eq!(
        dispatcher.dispatch(&GattEvent::Disconnected { reason: 0x13 }, &cell, &mut channel),
        Reply::Nothing
    );
    assert_eq!(channel.try_take(), Some(0));
}

#[test]
fn serve_answers_in_order_of_arrival() {
    let mut dispatcher = fresh_dispatcher();
    let mut channel = CommandChannel::new();
    let cell = BatteryCell::new();
    let events = vec![
        GattEvent::Read { handle: TIGHTENING_HANDLE },
        write_of(&[0xff]),
        GattEvent::Read { handle: TIGHTENING_HANDLE },
        GattEvent::Malformed,
        GattEvent::Read { handle: BATTERY_HANDLE },
        write_of(&[9, 9]),
        GattEvent::Read { handle: 77 },
        GattEvent::Other,
        write_of(&[1]),
        GattEvent::Disconnected { reason: 0x13 },
        write_of(&[1]),
    ];
    let replies = dispatcher.serve(&events, &cell, &mut channel);
    assert_eq!(
        replies,
        vec![
            Reply::Tightening(0),
            Reply::WriteAck,
            Reply::Tightening(-1),
            Reply::Nothing,
            Reply::BatteryLevel(100),
            Reply::WriteAck,
            Reply::Stored,
            Reply::Nothing,
            Reply::WriteAck,
            Reply::Nothing,
            Reply::Nothing,
        ]
    );
    assert_eq!(channel.try_take(), Some(0));
    assert_eq!(dispatcher.lifecycle(), Lifecycle::Terminated { reason: 0x13 });
    assert_eq!(dispatcher.tightening(), 1);
    assert_eq!(dispatcher.battery_level(), 100);
}

#[test]
fn serve_of_nothing_changes_nothing() {
    let mut dispatcher = fresh_dispatcher();
    let mut channel = CommandChannel::new();
    let cell = BatteryCell::new();
    channel.signal(1);
    assert_eq!(dispatcher.serve(&Vec::new(), &cell, &mut channel), Vec::new());
    assert!(dispatcher.is_active());
    assert_eq!(channel.try_take(), Some(1));
}

#[test]
fn serve_of_a_burst_leaves_the_last_command() {
    let mut dispatcher = fresh_dispatcher();
    let mut channel = CommandChannel::new();
    let cell = BatteryCell::new();
    let events = vec![write_of(&[0xff]), write_of(&[1]), write_of(&[0])];
    assert_eq!(
        dispatcher.serve(&events, &cell, &mut channel),
        vec![Reply::WriteAck, Reply::WriteAck, Reply::WriteAck]
    );
    assert_eq!(channel.try_take(), Some(0));
    assert_eq!(channel.try_take(), None);
    assert_eq!(dispatcher.tightening(), 0);
}
