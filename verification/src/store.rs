//! The subscription store and the persistence operation.
//!
//! `SubscriptionStore` is an insert-only log of subscription records together
//! with a reachability flag, standing for the durable store the service
//! writes to. The flag makes an unreachable store injectable, so persistence
//! failure handling can be exercised without a live dependency. The store
//! enforces the uniqueness constraint on record identities: a write whose
//! identity is already taken is rejected, never silently deduplicated.

use vstd::prelude::*;
use vstd::string::*;
use crate::domain::NewSubscriber;

verus! {

/// Why a write to the subscription store failed.
#[derive(Debug, Clone, Copy, PartialEq, Eq, Structural)]
pub enum PersistenceError {
    /// The store could not be reached.
    StoreUnreachable,
    /// The store's uniqueness constraint on identities rejected the write.
    DuplicateId,
}

/// One durable subscription record. The identity and the timestamp are
/// assigned by the persistence operation, never by its caller.
#[derive(Debug)]
pub struct StoredSubscription {
    /// Identity, unique across all records of one store.
    pub id: u128,
    pub email: String,
    pub name: String,
    /// UTC subscription time, in milliseconds since the Unix epoch.
    pub subscribed_at: i64,
}

/// The subscription store: an insert-only log of records, plus whether the
/// store can currently be reached.
pub struct SubscriptionStore {
    records: Vec<StoredSubscription>,
    reachable: bool,
}

impl SubscriptionStore {
    /// The records written so far, in insertion order.
    pub closed spec fn records_view(&self) -> Seq<StoredSubscription> {
        self.records@
    }

    /// Whether the store can currently be reached.
    pub closed spec fn spec_reachable(&self) -> bool {
        self.reachable
    }

    /// The store's invariant: record identities are unique.
    pub open spec fn wf(&self) -> bool {
        forall|i: int, j: int|
            0 <= i < j < self.records_view().len() ==> self.records_view()[i].id
                != self.records_view()[j].id
    }

    /// Whether some record already carries the identity `id`.
    pub open spec fn spec_has_id(&self, id: u128) -> bool {
        exists|i: int| 0 <= i < self.records_view().len() && self.records_view()[i].id == id
    }

    /// An empty, reachable store.
    pub fn new() -> (s: SubscriptionStore)
        ensures
            s.wf(),
            s.records_view().len() == 0,
            s.spec_reachable(),
    {
        SubscriptionStore { records: Vec::new(), reachable: true }
    }

    /// Makes the store reachable or unreachable; the records are untouched.
    pub fn set_reachable(&mut self, up: bool)
        ensures
            final(self).records_view() == old(self).records_view(),
            final(self).spec_reachable() == up,
            old(self).wf() ==> final(self).wf(),
    {
        self.reachable = up;
    }

    pub fn is_reachable(&self) -> (r: bool)
        ensures
            r == self.spec_reachable(),
    {
        self.reachable
    }

    /// How many records have been written.
    pub fn record_count(&self) -> (n: usize)
        ensures
            n == self.records_view().len(),
    {
        self.records.len()
    }

    /// Read access to the record at position `i`.
    pub fn record_at(&self, i: usize) -> (r: &StoredSubscription)
        requires
            i < self.records_view().len(),
        ensures
            *r == self.records_view()[i as int],
    {
        &self.records[i]
    }

    /// Decides whether some record already carries the identity `id`.
    fn contains_id(&self, id: u128) -> (r: bool)
        ensures
            r == self.spec_has_id(id),
    {
        let n = self.records.len();
        let mut i: usize = 0;
        while i < n
            invariant
                i <= n,
                n == self.records_view().len(),
                forall|j: int| 0 <= j < i ==> self.records_view()[j].id != id,
            decreases n - i,
        {
            if self.records[i].id == id {
                return true;
            }
            i += 1;
        }
        false
    }
}

/// Appends one record for `subscriber` under the given identity and
/// timestamp. The write succeeds if and only if the store is reachable and
/// the identity is not already taken; on failure the store is unchanged and
/// the error names the cause.
pub fn insert_record(
    store: &mut SubscriptionStore,
    subscriber: &NewSubscriber,
    id: u128,
    subscribed_at: i64,
) -> (r: Result<(), PersistenceError>)
    requires
        old(store).wf(),
    ensures
        final(store).wf(),
        final(store).spec_reachable() == old(store).spec_reachable(),
        r is Ok <==> old(store).spec_reachable() && !old(store).spec_has_id(id),
        !old(store).spec_reachable() ==> r == Err::<(), PersistenceError>(
            PersistenceError::StoreUnreachable,
        ),
        old(store).spec_reachable() && old(store).spec_has_id(id) ==> r == Err::<(),
            PersistenceError,
        >(PersistenceError::DuplicateId),
        r is Err ==> final(store).records_view() == old(store).records_view(),
        r is Ok ==> final(store).records_view().len() == old(store).records_view().len() + 1
            && final(store).records_view().drop_last() =~= old(store).records_view()
            && final(store).records_view().last().id == id
            && final(store).records_view().last().email@ == subscriber.email@
            && final(store).records_view().last().name@ == subscriber.name@
            && final(store).records_view().last().subscribed_at == subscribed_at,
{
    if !store.is_reachable() {
        return Err(PersistenceError::StoreUnreachable);
    }
    if store.contains_id(id) {
        return Err(PersistenceError::DuplicateId);
    }
    let record = StoredSubscription {
        id,
        email: String::from_str(subscriber.email.as_ref()),
        name: String::from_str(subscriber.name.as_ref()),
        subscribed_at,
    };
    store.records.push(record);
    proof {
        assert(store.records_view().drop_last() =~= old(store).records_view());
    }
    Ok(())
}

/// Relies on uuid's `Uuid::new_v4` (read out with `Uuid::as_u128`): a freshly
/// generated random version-4 identifier. Nothing is promised of the value;
/// it is random.
#[verifier::external_body]
fn generate_id() -> u128 {
    uuid::Uuid::new_v4().as_u128()
}

/// Relies on chrono's `Utc::now` (read out with `DateTime::timestamp_millis`):
/// the current UTC time in milliseconds since the Unix epoch. Nothing is
/// promised of the value; it depends on the clock.
#[verifier::external_body]
fn current_timestamp_millis() -> i64 {
    chrono::Utc::now().timestamp_millis()
}

/// Persists `subscriber` as one new record, generating the record's unique
/// identity and UTC timestamp itself: the caller supplies neither, so it can
/// spoof neither. Whatever identity the generator returned, an unreachable
/// store or a taken identity leaves the store unchanged and reports the
/// failure; success appends exactly one record carrying the subscriber's
/// text and a fresh identity. Against a reachable store holding no record
/// yet no identity can collide, so there the write always succeeds; the
/// unreachable-store error is reported on an unreachable store and nowhere
/// else.
pub fn insert_subscriber(store: &mut SubscriptionStore, subscriber: &NewSubscriber) -> (r: Result<
    (),
    PersistenceError,
>)
    requires
        old(store).wf(),
    ensures
        final(store).wf(),
        final(store).spec_reachable() == old(store).spec_reachable(),
        !old(store).spec_reachable() ==> r == Err::<(), PersistenceError>(
            PersistenceError::StoreUnreachable,
        ),
        r == Err::<(), PersistenceError>(PersistenceError::StoreUnreachable)
            ==> !old(store).spec_reachable(),
        old(store).spec_reachable() && old(store).records_view().len() == 0 ==> r is Ok,
        r is Err ==> final(store).records_view() == old(store).records_view(),
        r is Ok ==> old(store).spec_reachable()
            && final(store).records_view().len() == old(store).records_view().len() + 1
            && final(store).records_view().drop_last() =~= old(store).records_view()
            && final(store).records_view().last().email@ == subscriber.email@
            && final(store).records_view().last().name@ == subscriber.name@
            && !old(store).spec_has_id(final(store).records_view().last().id),
{
    let id = generate_id();
    let subscribed_at = current_timestamp_millis();
    insert_record(store, subscriber, id, subscribed_at)
}

} // verus!
