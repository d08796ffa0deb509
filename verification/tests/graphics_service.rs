use engine_core::graphics_service::Construct;
use engine_core::graphics_service::copy_under;
use engine_core::graphics_service::store_under;
use engine_core::graphics_service::GraphicsService;
use engine_core::handoff::Slot;
use engine_core::service::Service;
use engine_core::service::ServiceError;
use engine_core::sync::Poisoned;
use std::sync::Arc;
use std::sync::Mutex;

#[derive(Clone, Debug, PartialEq)]
struct Frame {
    id: u32,
}

impl Construct for Frame {
    fn initial() -> Self {
        Frame { id: 0 }
    }
}

#[test]
fn service_starts_with_constructed_slots() {
    let service = <GraphicsService<Frame> as Service>::init();
    assert_eq!(*service.slot(Slot::First).lock().unwrap(), Frame { id: 0 });
    assert_eq!(*service.slot(Slot::Second).lock().unwrap(), Frame { id: 0 });
    assert_eq!(service.consume(), Ok(Frame { id: 0 }));
}

#[test]
fn unit_payload_constructs() {
    let service = <GraphicsService<()> as Service>::init();
    assert_eq!(service.publish(()), Ok(()));
    assert_eq!(service.consume(), Ok(()));
}

#[test]
fn write_next_observes_without_flipping() {
    let service = GraphicsService::with_slots(1u32, 2u32);
    let first = service.write_next();
    let second = service.write_next();
    assert!(Arc::ptr_eq(&first, &second));
    assert!(Arc::ptr_eq(&first, &service.slot(Slot::Second)));
}

#[test]
fn read_next_returns_old_write_target() {
    let service = GraphicsService::with_slots(1u32, 2u32);
    let written = service.write_next();
    let read = service.read_next();
    assert!(Arc::ptr_eq(&written, &read));
    let now_written = service.write_next();
    assert!(!Arc::ptr_eq(&now_written, &read));
    assert!(Arc::ptr_eq(&now_written, &service.slot(Slot::First)));
}

#[test]
fn shared_publish_then_consume() {
    let service = GraphicsService::with_slots(0u32, 0u32);
    assert_eq!(service.publish(11), Ok(()));
    assert_eq!(service.publish(12), Ok(()));
    assert_eq!(service.consume(), Ok(12));
    // The next consume reads the other slot, which no publish has reached.
    assert_eq!(service.consume(), Ok(0));
}

#[test]
fn shared_consume_before_publish() {
    let service = GraphicsService::with_slots(3u32, 4u32);
    assert_eq!(service.consume(), Ok(4));
}

#[test]
fn publish_overwrites_only_the_write_target() {
    let service = GraphicsService::with_slots(1u32, 2u32);
    assert_eq!(service.publish(9), Ok(()));
    assert_eq!(*service.slot(Slot::First).lock().unwrap(), 1);
    assert_eq!(*service.slot(Slot::Second).lock().unwrap(), 9);
}

#[test]
fn producer_and_consumer_hold_separate_handles() {
    let service = Arc::new(GraphicsService::with_slots(0u32, 0u32));
    let producer = Arc::clone(&service);
    let mut value: u32 = 1;
    while value <= 100 {
        assert_eq!(producer.publish(value), Ok(()));
        value += 1;
    }
    assert_eq!(service.consume(), Ok(100));
    assert_eq!(producer.publish(101), Ok(()));
    assert_eq!(service.consume(), Ok(101));
}

#[test]
fn store_under_a_guard_overwrites_and_releases() {
    let slot = Mutex::new(1u32);
    assert_eq!(store_under(Ok(slot.lock().unwrap()), 5), Ok(()));
    assert_eq!(*slot.try_lock().unwrap(), 5);
}

#[test]
fn store_under_a_poisoned_lock_is_reported() {
    assert_eq!(store_under::<u32>(Err(Poisoned), 6), Err(ServiceError::ServicePoisoned));
}

#[test]
fn copy_under_a_guard_copies_and_releases() {
    let slot = Mutex::new(Frame { id: 7 });
    assert_eq!(copy_under(Ok(slot.lock().unwrap())), Ok(Frame { id: 7 }));
    assert_eq!(*slot.try_lock().unwrap(), Frame { id: 7 });
}

#[test]
fn copy_under_a_poisoned_lock_is_reported() {
    assert_eq!(copy_under::<Frame>(Err(Poisoned)), Err(ServiceError::ServicePoisoned));
}
