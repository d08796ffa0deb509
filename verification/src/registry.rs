//! The type-keyed registry of singleton services.
//!
//! Every entry pairs the key of a service's type with a shared handle to the
//! one instance of that service. Keys are unique, and an entry, once
//! present, is neither removed nor replaced.

use crate::service::Service;
use crate::service::ServiceError;
use crate::sync::lock_exclusive;
use crate::sync::locked_value;
use crate::sync::Poisoned;
use std::any::Any;
use std::any::TypeId;
use std::sync::Arc;
use std::sync::RwLock;
use std::sync::RwLockWriteGuard;
use vstd::prelude::*;

verus! {

/// `std::any::TypeId`, carried as an opaque value and used as a service's key.
#[verifier::external_type_specification]
#[verifier::external_body]
pub struct ExTypeId(TypeId);

/// `TypeId::of`: the identifier of the type `T`. Nothing is claimed of it
/// here; what the registry needs is that equal identifiers compare equal.
pub assume_specification<T: ?Sized + 'static>[ TypeId::of::<T> ]() -> (key: TypeId)
;

/// `==` on `TypeId`: true exactly when the two identifiers are the same.
#[verifier::external_body]
fn same_key(a: &TypeId, b: &TypeId) -> (r: bool)
    ensures
        r == (*a == *b),
{
    a == b
}

/// A shared handle to a service whose concrete type is no longer written in
/// the handle's type. The field is a reference-counted pointer to a value of
/// any thread-safe type. The verifier accepts no trait object of several
/// traits, so the struct is hidden from it as a whole and its values are
/// opaque.
#[verifier::external_body]
pub struct ErasedHandle {
    inner: Arc<dyn Any + Send + Sync>,
}

/// `Arc::new` on a locked service, with the new pointer's type forgotten:
/// the first handle to the service. Nothing is claimed of it.
#[verifier::external_body]
fn erase<T: Service>(service: RwLock<Box<T>>) -> (r: ErasedHandle) {
    ErasedHandle { inner: Arc::new(service) }
}

/// `Arc::clone` on an erased handle: the new handle designates the same
/// service as the one it was cloned from.
#[verifier::external_body]
fn share(handle: &ErasedHandle) -> (r: ErasedHandle)
    ensures
        r == *handle,
{
    ErasedHandle { inner: Arc::clone(&handle.inner) }
}

/// `Arc::downcast`: gives the typed handle back if the service behind
/// `handle` has type `T`, and nothing otherwise. Which of the two happens is
/// not claimed.
#[verifier::external_body]
fn recover<T: Service>(handle: ErasedHandle) -> (r: Option<Arc<RwLock<Box<T>>>>) {
    handle.inner.downcast::<RwLock<Box<T>>>().ok()
}

/// One entry of the registry.
pub struct ServiceEntry {
    pub key: TypeId,
    pub handle: ErasedHandle,
}

/// Some entry of `entries` is filed under `key`.
pub open spec fn has_key(entries: Seq<ServiceEntry>, key: TypeId) -> bool {
    exists|i: int| 0 <= i < entries.len() && (#[trigger] entries[i]).key == key
}

/// Some entry of `entries` files `handle` under `key`.
pub open spec fn filed_under(entries: Seq<ServiceEntry>, key: TypeId, handle: ErasedHandle) -> bool {
    exists|i: int|
        0 <= i < entries.len() && (#[trigger] entries[i]).key == key && entries[i].handle == handle
}

/// Every entry of `before` is still in its place in `after`: nothing was
/// removed and nothing was replaced.
pub open spec fn keeps_entries(before: Seq<ServiceEntry>, after: Seq<ServiceEntry>) -> bool {
    &&& before.len() <= after.len()
    &&& forall|i: int| 0 <= i < before.len() ==> #[trigger] after[i] == before[i]
}

/// The entries after one request to register `request`: a key that is
/// present keeps its entry and the request is dropped; a new key is appended.
pub open spec fn register_step(entries: Seq<ServiceEntry>, request: ServiceEntry) -> Seq<
    ServiceEntry,
> {
    if has_key(entries, request.key) {
        entries
    } else {
        entries.push(request)
    }
}

/// The entries of a registry that started empty and was asked to register
/// each of `requests`, in order.
pub open spec fn after_requests(requests: Seq<ServiceEntry>) -> Seq<ServiceEntry>
    decreases requests.len(),
{
    if requests.len() == 0 {
        Seq::empty()
    } else {
        register_step(after_requests(requests.drop_last()), requests.last())
    }
}

/// No two entries of `entries` share a key.
pub open spec fn distinct_keys(entries: Seq<ServiceEntry>) -> bool {
    forall|i: int, j: int|
        0 <= i < entries.len() && 0 <= j < entries.len() && i != j ==> (#[trigger] entries[i]).key
            != (#[trigger] entries[j]).key
}

/// The registry: its entries in the order of registration.
pub struct ServiceManager {
    entries: Vec<ServiceEntry>,
}

impl View for ServiceManager {
    type V = Seq<ServiceEntry>;

    closed spec fn view(&self) -> Seq<ServiceEntry> {
        self.entries@
    }
}

impl ServiceManager {
    #[verifier::type_invariant]
    closed spec fn unique_keys(&self) -> bool {
        distinct_keys(self.entries@)
    }

    /// The registry's invariant, which every registry meets: keys are
    /// unique.
    pub open spec fn wf(&self) -> bool {
        distinct_keys(self@)
    }

    /// An empty registry.
    pub fn new() -> (r: Self)
        ensures
            r@ == Seq::<ServiceEntry>::empty(),
            r.wf(),
    {
        ServiceManager { entries: Vec::new() }
    }

    /// How many services are registered.
    pub fn len(&self) -> (n: usize)
        ensures
            n == self@.len(),
            self.wf(),
    {
        proof {
            use_type_invariant(self);
        }
        self.entries.len()
    }

    /// The position of the entry filed under `key`, if there is one.
    fn position(&self, key: &TypeId) -> (r: Option<usize>)
        ensures
            match r {
                Some(i) => i < self@.len() && self@[i as int].key == *key,
                None => !has_key(self@, *key),
            },
    {
        let mut i: usize = 0;
        while i < self.entries.len()
            invariant
                i <= self.entries.len(),
                forall|j: int| 0 <= j < i ==> (#[trigger] self.entries@[j]).key != *key,
            decreases self.entries.len() - i,
        {
            if same_key(&self.entries[i].key, key) {
                return Some(i);
            }
            i = i + 1;
        }
        None
    }

    /// Whether a service is filed under `key`.
    pub fn contains(&self, key: &TypeId) -> (r: bool)
        ensures
            r == has_key(self@, *key),
            self.wf(),
    {
        proof {
            use_type_invariant(self);
        }
        self.position(key).is_some()
    }

    /// Files `handle` under `key`. A key that is already present is
    /// rejected and the registry stays as it was: the live entry is never
    /// replaced. Otherwise the new entry is appended and every earlier entry
    /// stays in place.
    pub fn register(&mut self, key: TypeId, handle: ErasedHandle) -> (r: Result<(), ServiceError>)
        ensures
            final(self).wf(),
            has_key(old(self)@, key) ==> r == Err::<(), ServiceError>(
                ServiceError::ServiceAlreadyRegistered,
            ) && final(self)@ == old(self)@,
            !has_key(old(self)@, key) ==> r == Ok::<(), ServiceError>(()) && final(self)@ == old(
                self,
            )@.push(ServiceEntry { key, handle }) && filed_under(final(self)@, key, handle),
            final(self)@ == register_step(old(self)@, ServiceEntry { key, handle }),
            has_key(final(self)@, key),
            keeps_entries(old(self)@, final(self)@),
    {
        proof {
            use_type_invariant(&*self);
            lemma_register_then_present(old(self)@, ServiceEntry { key, handle });
        }
        match self.position(&key) {
            Some(_) => Err(ServiceError::ServiceAlreadyRegistered),
            None => {
                let mut entries: Vec<ServiceEntry> = Vec::new();
                std::mem::swap(&mut entries, &mut self.entries);
                entries.push(ServiceEntry { key, handle });
                self.entries = entries;
                Ok(())
            },
        }
    }

    /// Looks `key` up and hands out a new handle to the entry found there.
    /// A key that was never registered gives `ServiceNotFound`.
    pub fn resolve(&self, key: &TypeId) -> (r: Result<ErasedHandle, ServiceError>)
        ensures
            self.wf(),
            !has_key(self@, *key) ==> r == Err::<ErasedHandle, ServiceError>(
                ServiceError::ServiceNotFound,
            ),
            has_key(self@, *key) ==> r is Ok,
            r matches Ok(handle) ==> filed_under(self@, *key, handle),
    {
        proof {
            use_type_invariant(self);
        }
        match self.position(key) {
            Some(i) => Ok(share(&self.entries[i].handle)),
            None => Err(ServiceError::ServiceNotFound),
        }
    }

    /// Builds the service `T` with its `init`, wraps it in a lock of its own
    /// and files it under the key of `T`. If `T` is already registered the
    /// call is rejected, no service is built, and the registry stays as it
    /// was.
    pub fn init_service<T: Service>(&mut self) -> (r: Result<(), ServiceError>)
        ensures
            final(self).wf(),
            r is Ok ==> final(self)@.len() == old(self)@.len() + 1 && final(self)@.drop_last()
                == old(self)@ && !has_key(old(self)@, final(self)@.last().key),
            r matches Err(e) ==> e == ServiceError::ServiceAlreadyRegistered && final(self)@
                == old(self)@,
            old(self)@.len() == 0 ==> r is Ok,
            keeps_entries(old(self)@, final(self)@),
    {
        let key = TypeId::of::<T>();
        if self.contains(&key) {
            Err(ServiceError::ServiceAlreadyRegistered)
        } else {
            let service: T = T::init();
            let handle = erase(RwLock::new(Box::new(service)));
            let r = self.register(key, handle);
            assert(final(self)@.drop_last() =~= old(self)@);
            r
        }
    }

    /// Hands out a shared handle to the service `T`, or `None` if `T` was
    /// never registered. The registry is borrowed only for the lookup and is
    /// left as it was; the handle gives access to the service without
    /// touching the registry again.
    pub fn get_service<T: Service>(&mut self) -> (r: Option<Arc<RwLock<Box<T>>>>)
        ensures
            final(self)@ == old(self)@,
            old(self)@.len() == 0 ==> r is None,
    {
        let key = TypeId::of::<T>();
        match self.resolve(&key) {
            Ok(handle) => recover::<T>(handle),
            Err(_) => None,
        }
    }

    /// Resolves `T`, takes exclusive access to it, runs its `post_init` and
    /// releases. The registry itself is left as it was.
    pub fn post_init_service<T: Service>(&mut self) -> (r: Result<(), ServiceError>)
        ensures
            final(self)@ == old(self)@,
            r matches Err(e) ==> e == ServiceError::ServiceNotFound || e
                == ServiceError::ServicePoisoned,
            old(self)@.len() == 0 ==> r == Err::<(), ServiceError>(ServiceError::ServiceNotFound),
    {
        match found_or_missing(self.get_service::<T>()) {
            Ok(handle) => complete_init(&handle),
            Err(e) => Err(e),
        }
    }
}

/// Takes exclusive access to the service behind `handle`, runs its
/// `post_init` and releases. A poisoned lock is reported and the hook is not
/// run.
pub fn complete_init<T: Service>(handle: &Arc<RwLock<Box<T>>>) -> (r: Result<(), ServiceError>)
    ensures
        r matches Err(e) ==> e == ServiceError::ServicePoisoned,
{
    let r = complete_under(lock_exclusive(handle));
    r
}

/// A registry that several holders can share: the structure sits behind a
/// lock of its own, apart from the locks of the services. Every call holds
/// the structure lock for one lookup or one insertion and has released it
/// before it touches a service's own lock.
pub struct SharedRegistry {
    services: RwLock<ServiceManager>,
}

impl SharedRegistry {
    /// An empty shared registry.
    pub fn new() -> (r: Self) {
        SharedRegistry { services: RwLock::new(ServiceManager::new()) }
    }

    /// Registers the service `T` under the structure lock. A type that is
    /// already registered is rejected and its live entry stays.
    pub fn register<T: Service>(&self) -> (r: Result<(), ServiceError>)
        ensures
            r matches Err(e) ==> e == ServiceError::ServiceAlreadyRegistered || e
                == ServiceError::RegistryPoisoned,
    {
        let r = register_under::<T>(lock_exclusive(&self.services));
        r
    }

    /// Looks the service `T` up under the structure lock and hands out a
    /// shared handle to it; the lock is released before the call returns.
    pub fn resolve<T: Service>(&self) -> (r: Result<Arc<RwLock<Box<T>>>, ServiceError>)
        ensures
            r matches Err(e) ==> e == ServiceError::ServiceNotFound || e
                == ServiceError::RegistryPoisoned,
    {
        let r = resolve_under::<T>(lock_exclusive(&self.services));
        r
    }

    /// Resolves the service `T`, then, with the structure lock released,
    /// takes exclusive access to the service and runs its `post_init`.
    pub fn complete_init<T: Service>(&self) -> (r: Result<(), ServiceError>)
        ensures
            r matches Err(e) ==> e == ServiceError::ServiceNotFound || e
                == ServiceError::RegistryPoisoned || e == ServiceError::ServicePoisoned,
    {
        complete_resolved(self.resolve::<T>())
    }
}

/// What `complete_init` does once the service's lock has answered. With the
/// guard it runs the service's `post_init` and releases the lock; a poisoned
/// lock is reported and the hook is not run.
pub fn complete_under<T: Service>(locked: Result<RwLockWriteGuard<'_, Box<T>>, Poisoned>) -> (r:
    Result<(), ServiceError>)
    ensures
        locked is Ok ==> r == Ok::<(), ServiceError>(()),
        locked is Err ==> r == Err::<(), ServiceError>(ServiceError::ServicePoisoned),
{
    match locked {
        Ok(mut guard) => {
            let service = locked_value(&mut guard);
            service.post_init();
            Ok(())
        },
        Err(_) => Err(ServiceError::ServicePoisoned),
    }
}

/// What a shared registration does once the structure lock has answered.
/// With the guard it registers `T` in the registry behind it, which rejects
/// a type that is present; a poisoned lock is reported and nothing is
/// registered.
pub fn register_under<T: Service>(
    locked: Result<RwLockWriteGuard<'_, ServiceManager>, Poisoned>,
) -> (r: Result<(), ServiceError>)
    ensures
        locked is Ok ==> r is Ok || r == Err::<(), ServiceError>(
            ServiceError::ServiceAlreadyRegistered,
        ),
        locked is Err ==> r == Err::<(), ServiceError>(ServiceError::RegistryPoisoned),
{
    match locked {
        Ok(mut guard) => {
            let manager = locked_value(&mut guard);
            manager.init_service::<T>()
        },
        Err(_) => Err(ServiceError::RegistryPoisoned),
    }
}

/// What a shared lookup does once the structure lock has answered. With the
/// guard it looks `T` up in the registry behind it, where a missing service
/// is `ServiceNotFound`; a poisoned lock is reported.
pub fn resolve_under<T: Service>(
    locked: Result<RwLockWriteGuard<'_, ServiceManager>, Poisoned>,
) -> (r: Result<Arc<RwLock<Box<T>>>, ServiceError>)
    ensures
        locked is Ok ==> r is Ok || r == Err::<Arc<RwLock<Box<T>>>, ServiceError>(
            ServiceError::ServiceNotFound,
        ),
        locked is Err ==> r == Err::<Arc<RwLock<Box<T>>>, ServiceError>(
            ServiceError::RegistryPoisoned,
        ),
{
    match locked {
        Ok(mut guard) => {
            let manager = locked_value(&mut guard);
            found_or_missing(manager.get_service::<T>())
        },
        Err(_) => Err(ServiceError::RegistryPoisoned),
    }
}

/// What the shared `complete_init` does with the outcome of its lookup: a
/// failed lookup is handed on as it is; a handle is completed under the
/// service's own lock.
pub fn complete_resolved<T: Service>(resolved: Result<Arc<RwLock<Box<T>>>, ServiceError>) -> (r:
    Result<(), ServiceError>)
    ensures
        resolved matches Err(e) ==> r == Err::<(), ServiceError>(e),
        resolved is Ok ==> r is Ok || r == Err::<(), ServiceError>(
            ServiceError::ServicePoisoned,
        ),
{
    match resolved {
        Ok(handle) => complete_init(&handle),
        Err(e) => Err(e),
    }
}

/// Turns the outcome of a lookup into a result: a missing service is
/// `ServiceNotFound`.
pub fn found_or_missing<H>(found: Option<H>) -> (r: Result<H, ServiceError>)
    ensures
        match found {
            Some(handle) => r == Ok::<H, ServiceError>(handle),
            None => r == Err::<H, ServiceError>(ServiceError::ServiceNotFound),
        },
{
    match found {
        Some(handle) => Ok(handle),
        None => Err(ServiceError::ServiceNotFound),
    }
}

/// Registration makes a key present and files the handle under it; keys stay
/// unique and every earlier entry stays in its place. So a second
/// registration under the same key finds the key present and is rejected.
pub proof fn lemma_register_then_present(entries: Seq<ServiceEntry>, entry: ServiceEntry)
    ensures
        has_key(entries.push(entry), entry.key),
        filed_under(entries.push(entry), entry.key, entry.handle),
        keeps_entries(entries, entries.push(entry)),
        forall|key: TypeId| has_key(entries, key) ==> has_key(entries.push(entry), key),
        distinct_keys(entries) && !has_key(entries, entry.key) ==> distinct_keys(
            entries.push(entry),
        ),
{
    let after = entries.push(entry);
    assert(after[entries.len() as int] == entry);
    assert forall|key: TypeId| has_key(entries, key) implies has_key(after, key) by {
        let i = choose|i: int| 0 <= i < entries.len() && (#[trigger] entries[i]).key == key;
        assert(after[i].key == key);
    }
    if distinct_keys(entries) && !has_key(entries, entry.key) {
        assert forall|i: int, j: int|
            0 <= i < after.len() && 0 <= j < after.len() && i != j implies (#[trigger] after[i]).key
            != (#[trigger] after[j]).key by {
            if i < entries.len() {
                assert(entries[i].key == after[i].key);
            }
            if j < entries.len() {
                assert(entries[j].key == after[j].key);
            }
        }
    }
}

/// While keys are unique, a key has one handle: whatever is resolved under
/// it is the handle that was registered under it.
pub proof fn lemma_one_handle_per_key(
    entries: Seq<ServiceEntry>,
    key: TypeId,
    first: ErasedHandle,
    second: ErasedHandle,
)
    requires
        distinct_keys(entries),
        filed_under(entries, key, first),
        filed_under(entries, key, second),
    ensures
        first == second,
{
    let i = choose|i: int|
        0 <= i < entries.len() && (#[trigger] entries[i]).key == key && entries[i].handle == first;
    let j = choose|j: int|
        0 <= j < entries.len() && (#[trigger] entries[j]).key == key && entries[j].handle == second;
    assert(i == j);
}

/// Entries that are kept keep what is filed in them.
pub proof fn lemma_kept_entries_stay_filed(
    before: Seq<ServiceEntry>,
    after: Seq<ServiceEntry>,
    key: TypeId,
    handle: ErasedHandle,
)
    requires
        keeps_entries(before, after),
        filed_under(before, key, handle),
    ensures
        filed_under(after, key, handle),
{
    let i = choose|i: int|
        0 <= i < before.len() && (#[trigger] before[i]).key == key && before[i].handle == handle;
    assert(after[i] == before[i]);
}

/// Whatever was requested, the registry's keys are unique.
pub proof fn lemma_requests_keep_keys_unique(requests: Seq<ServiceEntry>)
    ensures
        distinct_keys(after_requests(requests)),
    decreases requests.len(),
{
    if requests.len() > 0 {
        lemma_requests_keep_keys_unique(requests.drop_last());
        lemma_register_then_present(after_requests(requests.drop_last()), requests.last());
    }
}

/// A key that no request named is not present, so resolving it gives
/// `ServiceNotFound`.
pub proof fn lemma_never_requested_is_absent(requests: Seq<ServiceEntry>, key: TypeId)
    requires
        forall|i: int| 0 <= i < requests.len() ==> (#[trigger] requests[i]).key != key,
    ensures
        !has_key(after_requests(requests), key),
    decreases requests.len(),
{
    if requests.len() > 0 {
        let earlier = requests.drop_last();
        assert forall|i: int| 0 <= i < earlier.len() implies (#[trigger] earlier[i]).key != key by {
            assert(earlier[i] == requests[i]);
        }
        lemma_never_requested_is_absent(earlier, key);
        let before = after_requests(earlier);
        let after = after_requests(requests);
        assert(requests.last() == requests[requests.len() - 1]);
        if has_key(after, key) {
            let i = choose|i: int| 0 <= i < after.len() && (#[trigger] after[i]).key == key;
            if i < before.len() {
                assert(before[i] == after[i]);
            }
        }
    }
}

/// The first request under a key wins for good: its handle is filed under
/// the key after all later requests, whatever they name. With unique keys it
/// is the only handle there, so no later registration replaces it.
pub proof fn lemma_first_request_stays(requests: Seq<ServiceEntry>, first: int)
    requires
        0 <= first < requests.len(),
        forall|j: int| 0 <= j < first ==> (#[trigger] requests[j]).key != requests[first].key,
    ensures
        filed_under(after_requests(requests), requests[first].key, requests[first].handle),
    decreases requests.len(),
{
    let earlier = requests.drop_last();
    let before = after_requests(earlier);
    let request = requests.last();
    lemma_register_then_present(before, request);
    if first == requests.len() - 1 {
        assert forall|i: int| 0 <= i < earlier.len() implies (#[trigger] earlier[i]).key
            != request.key by {
            assert(earlier[i] == requests[i]);
        }
        lemma_never_requested_is_absent(earlier, request.key);
    } else {
        assert(earlier[first] == requests[first]);
        assert forall|j: int| 0 <= j < first implies (#[trigger] earlier[j]).key
            != earlier[first].key by {
            assert(earlier[j] == requests[j]);
        }
        lemma_first_request_stays(earlier, first);
        lemma_kept_entries_stay_filed(
            before,
            after_requests(requests),
            requests[first].key,
            requests[first].handle,
        );
    }
}

} // verus!
