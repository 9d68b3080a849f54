use lamp::common::{EventBus, Events, EVENT_BUS_CAPACITY};

#[test]
fn bus_delivers_in_send_order() {
    let mut bus = EventBus::new();
    assert!(bus.try_send(Events::ButtonPress(false)));
    assert!(bus.try_send(Events::EncoderTurn(true)));
    assert!(bus.try_send(Events::ModeTimeout));
    assert_eq!(bus.try_receive(), Some(Events::ButtonPress(false)));
    assert_eq!(bus.try_receive(), Some(Events::EncoderTurn(true)));
    assert_eq!(bus.try_receive(), Some(Events::ModeTimeout));
    assert_eq!(bus.try_receive(), None);
}

#[test]
fn bus_refuses_beyond_capacity_without_dropping() {
    let mut bus = EventBus::new();
    for _ in 0..EVENT_BUS_CAPACITY {
        assert!(bus.try_send(Events::SaveStore));
    }
    assert_eq!(bus.len(), EVENT_BUS_CAPACITY);
    // a full bus refuses the event instead of dropping one already queued
    assert!(!bus.try_send(Events::ModeTimeout));
    assert_eq!(bus.len(), EVENT_BUS_CAPACITY);
    assert_eq!(bus.try_receive(), Some(Events::SaveStore));
    assert!(bus.try_send(Events::ModeTimeout));
}

#[test]
fn empty_bus_reports_nothing() {
    let mut bus = EventBus::new();
    assert_eq!(bus.len(), 0);
    assert_eq!(bus.try_receive(), None);
}
