//! The requests on one kind of record: create, read, update, delete.
//!
//! What each request does is first said on a model, a `Shelf`: the next id
//! and the records by id. The functions that serve the requests are proved
//! to do to the durable state what the model says.

use crate::error::{Error, ErrorView, Fatal};
use crate::ids::IdAllocator;
use crate::record::{lists, Record, Table};
use crate::storage::MAX_RECORD_SIZE;
use vstd::prelude::*;

verus! {

/// A kind of record that requests create and update from a payload.
///
/// `P` is what a request to create or update carries: the fields that a
/// caller may set.
pub trait Entity<P: View>: Record {
    /// Whether a payload is accepted.
    spec fn accepts(payload: P::V) -> bool;

    /// What a refused payload is answered with.
    spec fn refusal() -> Seq<char>;

    /// Whether the records made from a payload are within what a table
    /// accepts.
    spec fn roomy(payload: P::V) -> bool;

    /// The record that a payload creates under `id` at the time `now`.
    spec fn created(id: u64, payload: P::V, now: u64) -> Self::V;

    /// The record that `before` becomes when a payload updates it at the
    /// time `now`.
    spec fn revised(before: Self::V, payload: P::V, now: u64) -> Self::V;

    /// When a record was created.
    spec fn created_at(model: Self::V) -> u64;

    /// When a record was last updated, if ever.
    spec fn updated_at(model: Self::V) -> Option<u64>;

    /// A created record carries its id and the time, and no update time. A
    /// revised one keeps id and creation time and carries the time as its
    /// update time. Both are within what a table accepts where the payload
    /// is roomy.
    proof fn stamped(id: u64, before: Self::V, payload: P::V, now: u64)
        ensures
            Self::id_of(Self::created(id, payload, now)) == id,
            Self::created_at(Self::created(id, payload, now)) == now,
            Self::updated_at(Self::created(id, payload, now)) is None,
            Self::id_of(Self::revised(before, payload, now)) == Self::id_of(before),
            Self::created_at(Self::revised(before, payload, now)) == Self::created_at(before),
            Self::updated_at(Self::revised(before, payload, now)) == Some(now),
            Self::roomy(payload) ==> Self::encoding(Self::created(id, payload, now)).len()
                <= MAX_RECORD_SIZE,
            Self::roomy(payload) ==> Self::encoding(Self::revised(before, payload, now)).len()
                <= MAX_RECORD_SIZE,
    ;

    /// Tests a payload.
    fn check(payload: &P) -> (ok: bool)
        ensures
            ok == Self::accepts(payload@),
    ;

    /// Tests whether the records made from a payload are within what a
    /// table accepts.
    fn has_room(payload: &P) -> (ok: bool)
        ensures
            ok == Self::roomy(payload@),
    ;

    /// The answer to a refused payload.
    fn refuse() -> (msg: String)
        ensures
            msg@ == Self::refusal(),
    ;

    /// Makes the record that a payload creates.
    fn create(id: u64, payload: P, now: u64) -> (record: Self)
        ensures
            record@ == Self::created(id, payload@, now),
    ;

    /// Makes the record that a payload updates `self` to.
    fn revise(self, payload: P, now: u64) -> (record: Self)
        ensures
            record@ == Self::revised(self@, payload@, now),
    ;
}

/// The state that the requests on one kind of record see and change.
#[verifier::ext_equal]
pub struct Shelf<V> {
    /// The id that the next created record gets.
    pub next_id: u64,
    /// The records, by id.
    pub records: Map<u64, V>,
}

/// What a request returns.
pub type Outcome<V> = Result<V, ErrorView>;

/// The state behind an allocator and a table.
pub open spec fn shelf<E: Record>(ids: &IdAllocator, table: &Table<E>) -> Shelf<E::V> {
    Shelf { next_id: ids.next(), records: table@ }
}

/// What an executable result says, in the model's terms.
pub open spec fn outcome<E: Record>(result: Result<E, Error>) -> Outcome<E::V> {
    match result {
        Ok(record) => Ok(record@),
        Err(error) => Err(error@),
    }
}

/// Every record stands under its own id, and every id in use was handed out.
pub open spec fn shelf_wf<E: Record>(s: Shelf<E::V>) -> bool {
    forall|id: u64| #[trigger]
        s.records.contains_key(id) ==> id < s.next_id && E::id_of(s.records[id]) == id
}

/// Where every record stands under its own id, a shelf is well formed
/// exactly where every id in use is below the counter.
pub proof fn shelf_wf_is_below<E: Record>(s: Shelf<E::V>)
    requires
        forall|id: u64| #[trigger] s.records.contains_key(id) ==> E::id_of(s.records[id]) == id,
    ensures
        shelf_wf::<E>(s) <==> (forall|id: u64| #[trigger]
            s.records.contains_key(id) ==> id < s.next_id),
{
}

/// A well-formed shelf stays so when ids are handed out elsewhere.
pub proof fn shelf_wf_grows<E: Record>(s: Shelf<E::V>, next_id: u64)
    requires
        shelf_wf::<E>(s),
        s.next_id <= next_id,
    ensures
        shelf_wf::<E>(Shelf { next_id, records: s.records }),
{
    let grown = Shelf { next_id, records: s.records };
    assert forall|id: u64| #[trigger] grown.records.contains_key(id) implies id < grown.next_id
        && E::id_of(grown.records[id]) == id by {
        assert(s.records.contains_key(id));
    }
}

/// A well-formed shelf stays so when a record is stored under its own id,
/// one that was handed out.
pub proof fn shelf_wf_insert<E: Record>(s: Shelf<E::V>, record: E::V)
    requires
        shelf_wf::<E>(s),
        E::id_of(record) < s.next_id,
    ensures
        shelf_wf::<E>(after_insert::<E>(s, record)),
{
    let stored = after_insert::<E>(s, record);
    assert forall|id: u64| #[trigger] stored.records.contains_key(id) implies id < stored.next_id
        && E::id_of(stored.records[id]) == id by {
        if id != E::id_of(record) {
            assert(s.records.contains_key(id));
        }
    }
}

/// The answer to a request for the record under `id`.
pub open spec fn get_outcome<E: Record>(s: Shelf<E::V>, id: u64) -> Outcome<E::V> {
    if s.records.contains_key(id) {
        Ok(s.records[id])
    } else {
        Err(ErrorView::NotFound { id })
    }
}

/// The state after a request to create.
pub open spec fn after_create<P: View, E: Entity<P>>(
    s: Shelf<E::V>,
    payload: P::V,
    now: u64,
) -> Shelf<E::V> {
    if E::accepts(payload) {
        Shelf {
            next_id: (s.next_id + 1) as u64,
            records: s.records.insert(s.next_id, E::created(s.next_id, payload, now)),
        }
    } else {
        s
    }
}

/// The answer to a request to create.
pub open spec fn create_outcome<P: View, E: Entity<P>>(
    s: Shelf<E::V>,
    payload: P::V,
    now: u64,
) -> Outcome<E::V> {
    if E::accepts(payload) {
        Ok(E::created(s.next_id, payload, now))
    } else {
        Err(ErrorView::InvalidInput { msg: E::refusal() })
    }
}

/// The state after a request to update the record under `id`.
pub open spec fn after_update<P: View, E: Entity<P>>(
    s: Shelf<E::V>,
    id: u64,
    payload: P::V,
    now: u64,
) -> Shelf<E::V> {
    if E::accepts(payload) && s.records.contains_key(id) {
        Shelf {
            next_id: s.next_id,
            records: s.records.insert(id, E::revised(s.records[id], payload, now)),
        }
    } else {
        s
    }
}

/// The answer to a request to update the record under `id`.
pub open spec fn update_outcome<P: View, E: Entity<P>>(
    s: Shelf<E::V>,
    id: u64,
    payload: P::V,
    now: u64,
) -> Outcome<E::V> {
    if !E::accepts(payload) {
        Err(ErrorView::InvalidInput { msg: E::refusal() })
    } else if !s.records.contains_key(id) {
        Err(ErrorView::NotFound { id })
    } else {
        Ok(E::revised(s.records[id], payload, now))
    }
}

/// The state after a request to delete the record under `id`.
pub open spec fn after_delete<E: Record>(s: Shelf<E::V>, id: u64) -> Shelf<E::V> {
    Shelf { next_id: s.next_id, records: s.records.remove(id) }
}

/// The answer to a request to delete the record under `id`: the record
/// that was there.
pub open spec fn delete_outcome<E: Record>(s: Shelf<E::V>, id: u64) -> Outcome<E::V> {
    get_outcome::<E>(s, id)
}

/// The state after a record is stored as it is, under its id and in place
/// of what was there.
pub open spec fn after_insert<E: Record>(s: Shelf<E::V>, record: E::V) -> Shelf<E::V> {
    Shelf { next_id: s.next_id, records: s.records.insert(E::id_of(record), record) }
}

/// What stands in the way of a request to create, if anything: an accepted
/// payload needs an id, and room for its record.
pub open spec fn create_obstacle<P: View, E: Entity<P>>(s: Shelf<E::V>, payload: P::V) -> Option<
    Fatal,
> {
    if !E::accepts(payload) {
        None
    } else if s.next_id == u64::MAX {
        Some(Fatal::OutOfIds)
    } else if !E::roomy(payload) {
        Some(Fatal::RecordTooLarge)
    } else {
        None
    }
}

/// What stands in the way of a request to update, if anything: an accepted
/// payload for a record that is there needs room for the revised record.
pub open spec fn update_obstacle<P: View, E: Entity<P>>(
    s: Shelf<E::V>,
    id: u64,
    payload: P::V,
) -> Option<Fatal> {
    if E::accepts(payload) && s.records.contains_key(id) && !E::roomy(payload) {
        Some(Fatal::RecordTooLarge)
    } else {
        None
    }
}

/// Serves a request for all records: every record, in ascending order of
/// id.
pub fn get_all<E: Record>(table: &Table<E>) -> (records: Vec<E>)
    requires
        table.wf(),
    ensures
        lists(records@, table@),
{
    table.list()
}

/// Serves a request to create a record. A refused payload is answered with
/// `InvalidInput` and changes nothing. An accepted one takes the next id
/// and stores the new record under it.
pub fn create<P: View, E: Entity<P>>(
    ids: &mut IdAllocator,
    table: &mut Table<E>,
    payload: P,
    now: u64,
) -> (result: Result<E, Error>)
    requires
        old(table).wf(),
        create_obstacle::<P, E>(shelf(old(ids), old(table)), payload@) is None,
    ensures
        final(table).wf(),
        final(table).tag() == old(table).tag(),
        final(ids).tag() == old(ids).tag(),
        shelf(final(ids), final(table)).next_id == after_create::<P, E>(
            shelf(old(ids), old(table)),
            payload@,
            now,
        ).next_id,
        shelf(final(ids), final(table)).records == after_create::<P, E>(
            shelf(old(ids), old(table)),
            payload@,
            now,
        ).records,
        outcome(result) == create_outcome::<P, E>(shelf(old(ids), old(table)), payload@, now),
{
    if !E::check(&payload) {
        return Err(Error::InvalidInput { msg: E::refuse() });
    }
    let id = ids.next_id();
    let ghost model = E::created(id, payload@, now);
    proof {
        E::stamped(id, model, payload@, now);
    }
    let record = E::create(id, payload, now);
    table.insert(&record);
    Ok(record)
}

/// Serves a request to update the record under `id`. A refused payload is
/// answered with `InvalidInput`, a missing record with `NotFound`; neither
/// changes anything. Else the revised record takes the place of the old.
pub fn update<P: View, E: Entity<P>>(
    table: &mut Table<E>,
    id: u64,
    payload: P,
    now: u64,
) -> (result: Result<E, Error>)
    requires
        old(table).wf(),
        E::accepts(payload@) && old(table)@.contains_key(id) ==> E::roomy(payload@),
    ensures
        final(table).wf(),
        final(table).tag() == old(table).tag(),
        forall|next_id: u64|
            final(table)@ == after_update::<P, E>(
                Shelf { next_id, records: old(table)@ },
                id,
                payload@,
                now,
            ).records,
        forall|next_id: u64|
            outcome(result) == update_outcome::<P, E>(
                Shelf { next_id, records: old(table)@ },
                id,
                payload@,
                now,
            ),
{
    if !E::check(&payload) {
        return Err(Error::InvalidInput { msg: E::refuse() });
    }
    match table.get(id) {
        Some(before) => {
            proof {
                table.keyed();
                E::stamped(id, before@, payload@, now);
            }
            let record = before.revise(payload, now);
            table.insert(&record);
            Ok(record)
        },
        None => Err(Error::NotFound { id }),
    }
}

/// Serves a request to create a record where nothing stands in its way,
/// and says what does where something does. The state is then as before.
pub fn try_create<P: View, E: Entity<P>>(
    ids: &mut IdAllocator,
    table: &mut Table<E>,
    payload: P,
    now: u64,
) -> (result: Result<Result<E, Error>, Fatal>)
    requires
        old(table).wf(),
    ensures
        final(table).wf(),
        final(table).tag() == old(table).tag(),
        final(ids).tag() == old(ids).tag(),
        match create_obstacle::<P, E>(shelf(old(ids), old(table)), payload@) {
            Some(fatal) => {
                &&& result == Err::<Result<E, Error>, Fatal>(fatal)
                &&& final(ids).next() == old(ids).next()
                &&& final(table)@ == old(table)@
            },
            None => {
                &&& result matches Ok(served)
                &&& outcome(served) == create_outcome::<P, E>(
                    shelf(old(ids), old(table)),
                    payload@,
                    now,
                )
                &&& shelf(final(ids), final(table)).next_id == after_create::<P, E>(
                    shelf(old(ids), old(table)),
                    payload@,
                    now,
                ).next_id
                &&& shelf(final(ids), final(table)).records == after_create::<P, E>(
                    shelf(old(ids), old(table)),
                    payload@,
                    now,
                ).records
            },
        },
{
    if E::check(&payload) {
        if ids.peek() == u64::MAX {
            return Err(Fatal::OutOfIds);
        }
        if !E::has_room(&payload) {
            return Err(Fatal::RecordTooLarge);
        }
    }
    Ok(create(ids, table, payload, now))
}

/// Serves a request to update the record under `id` where nothing stands
/// in its way, and says what does where something does. The state is then
/// as before.
pub fn try_update<P: View, E: Entity<P>>(
    table: &mut Table<E>,
    id: u64,
    payload: P,
    now: u64,
) -> (result: Result<Result<E, Error>, Fatal>)
    requires
        old(table).wf(),
    ensures
        final(table).wf(),
        final(table).tag() == old(table).tag(),
        forall|next_id: u64|
            match #[trigger] update_obstacle::<P, E>(
                Shelf { next_id, records: old(table)@ },
                id,
                payload@,
            ) {
                Some(fatal) => {
                    &&& result == Err::<Result<E, Error>, Fatal>(fatal)
                    &&& final(table)@ == old(table)@
                },
                None => {
                    &&& result matches Ok(served)
                    &&& outcome(served) == update_outcome::<P, E>(
                        Shelf { next_id, records: old(table)@ },
                        id,
                        payload@,
                        now,
                    )
                    &&& final(table)@ == after_update::<P, E>(
                        Shelf { next_id, records: old(table)@ },
                        id,
                        payload@,
                        now,
                    ).records
                },
            },
{
    if E::check(&payload) && !E::has_room(&payload) {
        if table.get(id).is_some() {
            return Err(Fatal::RecordTooLarge);
        }
    }
    Ok(update(table, id, payload, now))
}

/// Serves a request to delete the record under `id`: removes and returns
/// it. A missing record is answered with `NotFound`.
pub fn delete<E: Record>(table: &mut Table<E>, id: u64) -> (result: Result<E, Error>)
    requires
        old(table).wf(),
    ensures
        final(table).wf(),
        final(table).tag() == old(table).tag(),
        forall|next_id: u64|
            final(table)@ == after_delete::<E>(Shelf { next_id, records: old(table)@ }, id).records,
        forall|next_id: u64|
            outcome(result) == delete_outcome::<E>(Shelf { next_id, records: old(table)@ }, id),
{
    match table.remove(id) {
        Some(record) => Ok(record),
        None => Err(Error::NotFound { id }),
    }
}

} // verus!
