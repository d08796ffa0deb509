use engine_core::example_service::ExampleService;
use engine_core::graphics_service::GraphicsService;
use engine_core::registry::complete_init;
use engine_core::registry::complete_resolved;
use engine_core::registry::complete_under;
use engine_core::registry::found_or_missing;
use engine_core::registry::register_under;
use engine_core::registry::resolve_under;
use engine_core::registry::ServiceManager;
use engine_core::registry::SharedRegistry;
use engine_core::service::Service;
use engine_core::service::ServiceError;
use engine_core::sync::Poisoned;
use std::any::TypeId;
use std::sync::Arc;
use std::sync::RwLock;

struct Counter {
    value: u32,
}

impl Service for Counter {
    fn init() -> Self {
        Counter { value: 0 }
    }

    fn post_init(&mut self) {}
}

struct Warmup {
    ready: u32,
}

impl Service for Warmup {
    fn init() -> Self {
        Warmup { ready: 0 }
    }

    fn post_init(&mut self) {
        self.ready += 1;
    }
}

fn read_increment(handle: &Arc<RwLock<Box<Counter>>>) -> u32 {
    let mut guard = handle.write().unwrap();
    let seen = guard.value;
    guard.value = seen + 1;
    seen
}

#[test]
fn new_registry_is_empty() {
    let registry = ServiceManager::new();
    assert_eq!(registry.len(), 0);
    assert!(!registry.contains(&TypeId::of::<Counter>()));
}

#[test]
fn unregistered_type_is_not_found() {
    let mut registry = ServiceManager::new();
    assert!(registry.get_service::<Counter>().is_none());
    assert_eq!(registry.init_service::<Warmup>(), Ok(()));
    assert!(registry.get_service::<Counter>().is_none());
    assert_eq!(
        registry.resolve(&TypeId::of::<Counter>()).err(),
        Some(ServiceError::ServiceNotFound)
    );
    assert_eq!(registry.len(), 1);
}

#[test]
fn registered_type_resolves() {
    let mut registry = ServiceManager::new();
    assert_eq!(registry.init_service::<Counter>(), Ok(()));
    assert!(registry.contains(&TypeId::of::<Counter>()));
    let handle = registry.get_service::<Counter>().unwrap();
    assert_eq!(handle.read().unwrap().value, 0);
}

#[test]
fn second_registration_is_rejected() {
    let mut registry = ServiceManager::new();
    assert_eq!(registry.init_service::<Counter>(), Ok(()));
    let held = registry.get_service::<Counter>().unwrap();
    assert_eq!(read_increment(&held), 0);
    assert_eq!(registry.init_service::<Counter>(), Err(ServiceError::ServiceAlreadyRegistered));
    assert_eq!(registry.len(), 1);
    let after = registry.get_service::<Counter>().unwrap();
    assert!(Arc::ptr_eq(&held, &after));
    assert_eq!(after.read().unwrap().value, 1);
}

#[test]
fn keyed_registration_rejects_a_present_key() {
    let mut source = ServiceManager::new();
    assert_eq!(source.init_service::<Counter>(), Ok(()));
    assert_eq!(source.init_service::<Warmup>(), Ok(()));
    let counter_key = TypeId::of::<Counter>();
    let first = source.get_service::<Counter>().unwrap();

    let mut registry = ServiceManager::new();
    let handle = source.resolve(&counter_key).ok().unwrap();
    assert_eq!(registry.register(counter_key, handle), Ok(()));
    let other = source.resolve(&TypeId::of::<Warmup>()).ok().unwrap();
    assert_eq!(
        registry.register(counter_key, other),
        Err(ServiceError::ServiceAlreadyRegistered)
    );
    assert_eq!(registry.len(), 1);
    let found = registry.get_service::<Counter>().unwrap();
    assert!(Arc::ptr_eq(&found, &first));
}

#[test]
fn lookup_tells_keys_apart() {
    let mut registry = ServiceManager::new();
    assert_eq!(registry.init_service::<Counter>(), Ok(()));
    assert!(registry.contains(&TypeId::of::<Counter>()));
    assert!(!registry.contains(&TypeId::of::<Warmup>()));
    assert!(registry.resolve(&TypeId::of::<Counter>()).is_ok());
    assert_eq!(
        registry.resolve(&TypeId::of::<Warmup>()).err(),
        Some(ServiceError::ServiceNotFound)
    );
}

#[test]
fn different_types_do_not_collide() {
    let mut registry = ServiceManager::new();
    assert_eq!(registry.init_service::<Counter>(), Ok(()));
    assert_eq!(registry.init_service::<Warmup>(), Ok(()));
    assert_eq!(registry.init_service::<ExampleService>(), Ok(()));
    assert_eq!(registry.init_service::<GraphicsService<()>>(), Ok(()));
    assert_eq!(registry.len(), 4);
    assert_eq!(registry.get_service::<Warmup>().unwrap().read().unwrap().ready, 0);
    assert_eq!(registry.get_service::<Counter>().unwrap().read().unwrap().value, 0);
}

#[test]
fn mismatched_type_is_never_recovered() {
    let mut source = ServiceManager::new();
    assert_eq!(source.init_service::<Counter>(), Ok(()));
    let handle = source.resolve(&TypeId::of::<Counter>()).ok().unwrap();
    let mut registry = ServiceManager::new();
    assert_eq!(registry.register(TypeId::of::<Warmup>(), handle), Ok(()));
    assert!(registry.get_service::<Warmup>().is_none());
    assert!(registry.get_service::<Counter>().is_none());
}

#[test]
fn two_readers_lose_no_increment() {
    let mut registry = ServiceManager::new();
    assert_eq!(registry.init_service::<Counter>(), Ok(()));
    let first = registry.get_service::<Counter>().unwrap();
    let second = registry.get_service::<Counter>().unwrap();
    assert_eq!(read_increment(&first), 0);
    assert_eq!(read_increment(&second), 1);
    assert_eq!(registry.get_service::<Counter>().unwrap().read().unwrap().value, 2);
}

#[test]
fn example_service_counts_every_call() {
    let mut registry = ServiceManager::new();
    assert_eq!(registry.init_service::<ExampleService>(), Ok(()));
    let first = registry.get_service::<ExampleService>().unwrap();
    let second = registry.get_service::<ExampleService>().unwrap();
    assert_eq!(first.read().unwrap().count(), 0);
    assert_eq!(second.read().unwrap().count(), 1);
    assert_eq!(first.read().unwrap().count(), 2);
}

#[test]
fn post_init_runs_the_hook_once_per_call() {
    let mut registry = ServiceManager::new();
    assert_eq!(registry.init_service::<Warmup>(), Ok(()));
    assert_eq!(registry.post_init_service::<Warmup>(), Ok(()));
    let handle = registry.get_service::<Warmup>().unwrap();
    assert_eq!(handle.read().unwrap().ready, 1);
    assert_eq!(complete_init(&handle), Ok(()));
    assert_eq!(handle.read().unwrap().ready, 2);
}

#[test]
fn post_init_of_unregistered_type_is_not_found() {
    let mut registry = ServiceManager::new();
    assert_eq!(registry.post_init_service::<Warmup>(), Err(ServiceError::ServiceNotFound));
    assert_eq!(registry.init_service::<Counter>(), Ok(()));
    assert_eq!(registry.post_init_service::<Warmup>(), Err(ServiceError::ServiceNotFound));
}

#[test]
fn found_or_missing_maps_both_outcomes() {
    assert_eq!(found_or_missing(Some(3u8)), Ok(3u8));
    assert_eq!(found_or_missing::<u8>(None), Err(ServiceError::ServiceNotFound));
}

#[test]
fn shared_registry_resolves_what_was_registered() {
    let registry = SharedRegistry::new();
    assert_eq!(registry.resolve::<Counter>().err(), Some(ServiceError::ServiceNotFound));
    assert_eq!(registry.register::<Counter>(), Ok(()));
    let handle = registry.resolve::<Counter>().ok().unwrap();
    assert_eq!(read_increment(&handle), 0);
    let again = registry.resolve::<Counter>().ok().unwrap();
    assert!(Arc::ptr_eq(&handle, &again));
    assert_eq!(again.read().unwrap().value, 1);
}

#[test]
fn shared_registry_rejects_second_registration() {
    let registry = SharedRegistry::new();
    assert_eq!(registry.register::<Counter>(), Ok(()));
    let held = registry.resolve::<Counter>().ok().unwrap();
    assert_eq!(read_increment(&held), 0);
    assert_eq!(registry.register::<Counter>(), Err(ServiceError::ServiceAlreadyRegistered));
    assert_eq!(registry.resolve::<Counter>().ok().unwrap().read().unwrap().value, 1);
}

#[test]
fn shared_registry_completes_init() {
    let registry = SharedRegistry::new();
    assert_eq!(registry.complete_init::<Warmup>(), Err(ServiceError::ServiceNotFound));
    assert_eq!(registry.register::<Warmup>(), Ok(()));
    assert_eq!(registry.complete_init::<Warmup>(), Ok(()));
    assert_eq!(registry.resolve::<Warmup>().ok().unwrap().read().unwrap().ready, 1);
}

#[test]
fn shared_registry_is_usable_through_a_shared_reference() {
    let registry = Arc::new(SharedRegistry::new());
    let other = Arc::clone(&registry);
    assert_eq!(other.register::<ExampleService>(), Ok(()));
    let handle = registry.resolve::<ExampleService>().ok().unwrap();
    assert_eq!(handle.read().unwrap().count(), 0);
    assert_eq!(other.resolve::<ExampleService>().ok().unwrap().read().unwrap().count(), 1);
}

#[test]
fn complete_under_a_guard_runs_the_hook() {
    let service = RwLock::new(Box::new(Warmup { ready: 0 }));
    assert_eq!(complete_under(Ok(service.write().unwrap())), Ok(()));
    assert_eq!(service.try_read().unwrap().ready, 1);
}

#[test]
fn complete_under_a_poisoned_lock_is_reported() {
    assert_eq!(complete_under::<Warmup>(Err(Poisoned)), Err(ServiceError::ServicePoisoned));
}

#[test]
fn register_under_a_guard_registers_once() {
    let registry = RwLock::new(ServiceManager::new());
    assert_eq!(register_under::<Counter>(Ok(registry.write().unwrap())), Ok(()));
    assert_eq!(
        register_under::<Counter>(Ok(registry.write().unwrap())),
        Err(ServiceError::ServiceAlreadyRegistered)
    );
    assert_eq!(registry.try_read().unwrap().len(), 1);
}

#[test]
fn register_under_a_poisoned_lock_is_reported() {
    assert_eq!(register_under::<Counter>(Err(Poisoned)), Err(ServiceError::RegistryPoisoned));
}

#[test]
fn resolve_under_a_guard_looks_the_type_up() {
    let registry = RwLock::new(ServiceManager::new());
    assert_eq!(
        resolve_under::<Counter>(Ok(registry.write().unwrap())).err(),
        Some(ServiceError::ServiceNotFound)
    );
    assert_eq!(register_under::<Counter>(Ok(registry.write().unwrap())), Ok(()));
    let handle = resolve_under::<Counter>(Ok(registry.write().unwrap())).ok().unwrap();
    assert_eq!(handle.read().unwrap().value, 0);
    assert!(registry.try_write().is_ok());
}

#[test]
fn resolve_under_a_poisoned_lock_is_reported() {
    assert_eq!(
        resolve_under::<Counter>(Err(Poisoned)).err(),
        Some(ServiceError::RegistryPoisoned)
    );
}

#[test]
fn complete_resolved_hands_a_failed_lookup_on() {
    assert_eq!(
        complete_resolved::<Warmup>(Err(ServiceError::ServiceNotFound)),
        Err(ServiceError::ServiceNotFound)
    );
    assert_eq!(
        complete_resolved::<Warmup>(Err(ServiceError::RegistryPoisoned)),
        Err(ServiceError::RegistryPoisoned)
    );
}

#[test]
fn complete_resolved_completes_a_handle() {
    let handle = Arc::new(RwLock::new(Box::new(Warmup { ready: 0 })));
    assert_eq!(complete_resolved(Ok(handle.clone())), Ok(()));
    assert_eq!(handle.read().unwrap().ready, 1);
}
