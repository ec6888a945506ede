use mesh_actor::bus::EventBus;
use mesh_actor::system::{ActorSystem, SystemEvent};

#[derive(Debug, Clone, PartialEq)]
enum TestSystemEvent {
    Started,
    Tick(u32),
}

impl SystemEvent for TestSystemEvent {}

#[test]
fn create_system() {
    let bus = EventBus::new(200);
    let system: ActorSystem<TestSystemEvent> = ActorSystem::new(bus);
    let events = system.events().into_receiver();
    system.publish(TestSystemEvent::Started);
    assert_eq!(1, events.len());
}

#[test]
fn publish_without_listeners_drops_event() {
    let system: ActorSystem<TestSystemEvent> = ActorSystem::new(EventBus::new(4));
    system.publish(TestSystemEvent::Started);
    let mut events = system.events().into_receiver();
    assert_eq!(0, events.len());
    system.publish(TestSystemEvent::Tick(3));
    assert_eq!(events.try_recv().unwrap(), TestSystemEvent::Tick(3));
}

#[test]
fn publish_outcome_counts_listeners() {
    assert_eq!(ActorSystem::<TestSystemEvent>::publish_outcome(Ok(3)), 3);
    assert_eq!(ActorSystem::<TestSystemEvent>::publish_outcome(Err(TestSystemEvent::Started)), 0);
}

#[test]
fn bus_send_reports_subscribers() {
    let bus: EventBus<TestSystemEvent> = EventBus::new(8);
    assert_eq!(bus.send(TestSystemEvent::Tick(1)), Err(TestSystemEvent::Tick(1)));
    let _a = bus.subscribe();
    let _b = bus.clone().subscribe();
    assert_eq!(bus.send(TestSystemEvent::Tick(2)), Ok(2));
}

#[test]
fn system_clones_share_bus() {
    let system: ActorSystem<TestSystemEvent> = ActorSystem::new(EventBus::new(8));
    let copy = system.clone();
    let events = system.events().into_receiver();
    copy.publish(TestSystemEvent::Tick(9));
    assert_eq!(events.len(), 1);
}

#[test]
fn bus_keeps_capacity_events() {
    // capacity 3 is rounded up to 4
    let bus: EventBus<TestSystemEvent> = EventBus::new(3);
    let mut rx = bus.subscribe().into_receiver();
    for i in 0..5 {
        assert_eq!(bus.send(TestSystemEvent::Tick(i)), Ok(1));
    }
    assert_eq!(rx.len(), 5);
    // the oldest event was overwritten: the receiver lags by one
    assert!(rx.try_recv().is_err());
    assert_eq!(rx.try_recv().unwrap(), TestSystemEvent::Tick(1));
}
