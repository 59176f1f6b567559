use mio_egal::slots::{EventRoute, WakerSlots, WAKER_TOKEN};
use mio_egal::stream::{ReadStep, StreamRegistration};

#[test]
fn stores_fill_slots_in_order() {
    let mut slots: WakerSlots<&str> = WakerSlots::new();
    assert!(slots.can_store());
    assert_eq!(slots.store("a"), 0);
    assert_eq!(slots.store("b"), 1);
    assert_eq!(slots.store("c"), 2);
}

#[test]
fn removed_slot_is_reused() {
    let mut slots: WakerSlots<&str> = WakerSlots::new();
    slots.store("a");
    slots.store("b");
    slots.store("c");
    assert_eq!(slots.remove(1), "b");
    assert!(slots.get(1).is_none());
    assert_eq!(slots.store("d"), 1);
    assert_eq!(slots.get(1), Some(&"d"));
    assert_eq!(slots.store("e"), 3);
}

#[test]
fn lowest_free_slot_is_taken_first() {
    let mut slots: WakerSlots<u8> = WakerSlots::new();
    for i in 0..5u8 {
        slots.store(i);
    }
    assert_eq!(slots.remove(3), 3);
    assert_eq!(slots.remove(1), 1);
    assert_eq!(slots.store(10), 1);
    assert_eq!(slots.store(11), 3);
    assert_eq!(slots.store(12), 5);
}

#[test]
fn get_out_of_range_is_none() {
    let slots: WakerSlots<u8> = WakerSlots::new();
    assert!(slots.get(0).is_none());
    assert!(slots.get(usize::MAX).is_none());
}

#[test]
fn reactor_token_routes_to_reactor() {
    let mut slots: WakerSlots<u8> = WakerSlots::new();
    slots.store(1);
    assert!(matches!(slots.route_event(WAKER_TOKEN), EventRoute::ReactorWaker));
    assert_eq!(WAKER_TOKEN, usize::MAX);
}

#[test]
fn event_wakes_the_stored_waker() {
    let mut slots: WakerSlots<u8> = WakerSlots::new();
    let t = slots.store(42);
    assert!(matches!(slots.route_event(t), EventRoute::Wake(&42)));
    slots.remove(t);
    assert!(matches!(slots.route_event(t), EventRoute::Unknown));
    assert!(matches!(slots.route_event(17), EventRoute::Unknown));
}

#[test]
fn blocked_read_registers_once() {
    let mut reg = StreamRegistration::new();
    assert_eq!(reg.token(), None);
    assert_eq!(reg.after_read(false), ReadStep::Register);
    assert_eq!(reg.token(), None);
    reg.registered(7);
    assert_eq!(reg.token(), Some(7));
    assert_eq!(reg.after_read(false), ReadStep::Keep);
    assert_eq!(reg.token(), Some(7));
}

#[test]
fn finished_read_deregisters_its_token() {
    let mut reg = StreamRegistration::new();
    reg.after_read(false);
    reg.registered(3);
    assert_eq!(reg.after_read(true), ReadStep::Deregister(3));
    assert_eq!(reg.token(), None);
    assert_eq!(reg.after_read(true), ReadStep::Keep);
    assert_eq!(reg.token(), None);
}

#[test]
fn finished_read_without_registration_keeps() {
    let mut reg = StreamRegistration::new();
    assert_eq!(reg.after_read(true), ReadStep::Keep);
    assert_eq!(reg.token(), None);
}
