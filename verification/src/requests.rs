//! What holds of the requests, whatever the kind of record.
//!
//! The statements are about the model of `service`: the functions that
//! serve the requests are proved to follow it, so what holds of the model
//! holds of them.

use crate::error::ErrorView;
use crate::record::{fits, lists, Record};
use crate::service::{
    after_create, after_delete, after_insert, after_update, create_obstacle, create_outcome,
    delete_outcome, get_outcome, shelf_wf, update_obstacle, update_outcome, Entity, Shelf,
};
use vstd::prelude::*;

verus! {

/// A request that changes the state of one kind of record, or the one
/// thing that changes it from outside: an id that goes to another kind.
pub enum Request<Payload, Stored> {
    Create { payload: Payload, now: u64 },
    Update { id: u64, payload: Payload, now: u64 },
    Delete { id: u64 },
    /// A record is stored as it is, under its id.
    Insert { record: Stored },
    IdTakenElsewhere,
}

/// Whether a request can be served: nothing stands in its way. An id can
/// go elsewhere while the counter is below its last value.
pub open spec fn possible<P: View, E: Entity<P>>(
    s: Shelf<E::V>,
    request: Request<P::V, E::V>,
) -> bool {
    match request {
        Request::Create { payload, now } => create_obstacle::<P, E>(s, payload) is None,
        Request::Update { id, payload, now } => update_obstacle::<P, E>(s, id, payload) is None,
        Request::Delete { id } => true,
        Request::Insert { record } => E::id_of(record) < s.next_id && fits::<E>(record),
        Request::IdTakenElsewhere => s.next_id < u64::MAX,
    }
}

/// The state after a request.
pub open spec fn after<P: View, E: Entity<P>>(
    s: Shelf<E::V>,
    request: Request<P::V, E::V>,
) -> Shelf<E::V> {
    match request {
        Request::Create { payload, now } => after_create::<P, E>(s, payload, now),
        Request::Update { id, payload, now } => after_update::<P, E>(s, id, payload, now),
        Request::Delete { id } => after_delete::<E>(s, id),
        Request::Insert { record } => after_insert::<E>(s, record),
        Request::IdTakenElsewhere => Shelf { next_id: (s.next_id + 1) as u64, records: s.records },
    }
}

/// Whether a sequence of requests can be served, one after the other.
pub open spec fn all_possible<P: View, E: Entity<P>>(
    s: Shelf<E::V>,
    requests: Seq<Request<P::V, E::V>>,
) -> bool
    decreases requests.len(),
{
    requests.len() > 0 ==> possible::<P, E>(s, requests[0]) && all_possible::<P, E>(
        after::<P, E>(s, requests[0]),
        requests.drop_first(),
    )
}

/// The state after a sequence of requests.
pub open spec fn after_all<P: View, E: Entity<P>>(
    s: Shelf<E::V>,
    requests: Seq<Request<P::V, E::V>>,
) -> Shelf<E::V>
    decreases requests.len(),
{
    if requests.len() == 0 {
        s
    } else {
        after_all::<P, E>(after::<P, E>(s, requests[0]), requests.drop_first())
    }
}

/// The id was handed out and no record stands under it.
pub open spec fn retired<V>(s: Shelf<V>, id: u64) -> bool {
    id < s.next_id && !s.records.contains_key(id)
}

/// Whether a request stores a record as it is under `id`.
pub open spec fn stores_under<P: View, E: Entity<P>>(
    request: Request<P::V, E::V>,
    id: u64,
) -> bool {
    request matches Request::Insert { record } && E::id_of(record) == id
}

/// Whether none of the requests stores a record as it is under `id`.
pub open spec fn none_stores_under<P: View, E: Entity<P>>(
    requests: Seq<Request<P::V, E::V>>,
    id: u64,
) -> bool {
    forall|i: int| 0 <= i < requests.len() ==> !stores_under::<P, E>(#[trigger] requests[i], id)
}

/// A request keeps a well-formed state well formed and never lowers the
/// counter. It puts no record under a retired id, unless it is the request
/// that stores a record as it is under that id.
pub proof fn request_keeps_order<P: View, E: Entity<P>>(
    s: Shelf<E::V>,
    request: Request<P::V, E::V>,
)
    requires
        shelf_wf::<E>(s),
        possible::<P, E>(s, request),
    ensures
        shelf_wf::<E>(after::<P, E>(s, request)),
        s.next_id <= after::<P, E>(s, request).next_id,
        forall|id: u64|
            retired(s, id) && !stores_under::<P, E>(request, id) ==> retired(
                after::<P, E>(s, request),
                id,
            ),
{
    let t = after::<P, E>(s, request);
    match request {
        Request::Create { payload, now } => {
            E::stamped(s.next_id, E::created(s.next_id, payload, now), payload, now);
        },
        Request::Update { id, payload, now } => {
            if s.records.contains_key(id) {
                E::stamped(id, s.records[id], payload, now);
            }
        },
        _ => {},
    }
    assert forall|id: u64| #[trigger] t.records.contains_key(id) implies id < t.next_id
        && E::id_of(t.records[id]) == id by {
        assert(s.records.contains_key(id) ==> id < s.next_id);
    }
}

/// A record that a request creates is what a request for its id returns
/// next.
pub proof fn created_is_found<P: View, E: Entity<P>>(s: Shelf<E::V>, payload: P::V, now: u64)
    requires
        E::accepts(payload),
    ensures
        create_outcome::<P, E>(s, payload, now) matches Ok(record) && get_outcome::<E>(
            after_create::<P, E>(s, payload, now),
            E::id_of(record),
        ) == Ok::<E::V, ErrorView>(record),
{
    E::stamped(s.next_id, E::created(s.next_id, payload, now), payload, now);
}

/// After a request to delete the record under an id, a request for that id
/// is answered with `NotFound`.
pub proof fn deleted_is_not_found<E: Record>(s: Shelf<E::V>, id: u64)
    ensures
        get_outcome::<E>(after_delete::<E>(s, id), id) == Err::<E::V, ErrorView>(
            ErrorView::NotFound { id },
        ),
{
}

/// The id of a deleted record is never given again: whatever requests
/// follow, no record stands under it and no listing shows it, unless one
/// of them stores a record as it is under that id.
pub proof fn deleted_stays_gone<P: View, E: Entity<P>>(
    s: Shelf<E::V>,
    id: u64,
    requests: Seq<Request<P::V, E::V>>,
)
    requires
        shelf_wf::<E>(s),
        s.records.contains_key(id),
        all_possible::<P, E>(after_delete::<E>(s, id), requests),
        none_stores_under::<P, E>(requests, id),
    ensures
        !after_all::<P, E>(after_delete::<E>(s, id), requests).records.contains_key(id),
        forall|listing: Seq<E>, i: int|
            lists(listing, after_all::<P, E>(after_delete::<E>(s, id), requests).records) && 0 <= i
                < listing.len() ==> E::id_of(#[trigger] listing[i]@) != id,
{
    let gone = after_delete::<E>(s, id);
    assert(shelf_wf::<E>(gone)) by {
        assert forall|k: u64| #[trigger] gone.records.contains_key(k) implies k < gone.next_id
            && E::id_of(gone.records[k]) == k by {
            assert(s.records.contains_key(k));
        }
    }
    retired_stays_retired::<P, E>(gone, id, requests);
}

/// A retired id stays retired, whatever requests follow, unless one of
/// them stores a record as it is under that id.
pub proof fn retired_stays_retired<P: View, E: Entity<P>>(
    s: Shelf<E::V>,
    id: u64,
    requests: Seq<Request<P::V, E::V>>,
)
    requires
        shelf_wf::<E>(s),
        retired(s, id),
        all_possible::<P, E>(s, requests),
        none_stores_under::<P, E>(requests, id),
    ensures
        shelf_wf::<E>(after_all::<P, E>(s, requests)),
        retired(after_all::<P, E>(s, requests), id),
    decreases requests.len(),
{
    if requests.len() > 0 {
        let rest = requests.drop_first();
        request_keeps_order::<P, E>(s, requests[0]);
        assert(none_stores_under::<P, E>(rest, id)) by {
            assert forall|i: int| 0 <= i < rest.len() implies !stores_under::<P, E>(
                #[trigger] rest[i],
                id,
            ) by {
                assert(rest[i] == requests[i + 1]);
            }
        }
        retired_stays_retired::<P, E>(after::<P, E>(s, requests[0]), id, rest);
    }
}

/// A record that is stored as it is is what a request for its id returns
/// next, whether a record stood under that id or the id was retired.
pub proof fn stored_is_found<E: Record>(s: Shelf<E::V>, record: E::V)
    ensures
        get_outcome::<E>(after_insert::<E>(s, record), E::id_of(record)) == Ok::<E::V, ErrorView>(
            record,
        ),
{
}

/// An id that was never handed out has no record: requests to read and
/// to delete are answered with `NotFound`, and the latter changes nothing.
pub proof fn unknown_is_not_found<E: Record>(s: Shelf<E::V>, id: u64)
    requires
        shelf_wf::<E>(s),
        s.next_id <= id,
    ensures
        get_outcome::<E>(s, id) == Err::<E::V, ErrorView>(ErrorView::NotFound { id }),
        delete_outcome::<E>(s, id) == Err::<E::V, ErrorView>(ErrorView::NotFound { id }),
        after_delete::<E>(s, id) == s,
{
    assert(!s.records.contains_key(id));
    assert(after_delete::<E>(s, id) =~= s);
}

/// A request to update under an id that was never handed out is answered
/// with `NotFound` and changes nothing, where its payload is accepted. A
/// refused payload is answered as such before the id is looked at.
pub proof fn unknown_is_not_updated<P: View, E: Entity<P>>(
    s: Shelf<E::V>,
    id: u64,
    payload: P::V,
    now: u64,
)
    requires
        shelf_wf::<E>(s),
        s.next_id <= id,
    ensures
        E::accepts(payload) ==> update_outcome::<P, E>(s, id, payload, now) == Err::<
            E::V,
            ErrorView,
        >(ErrorView::NotFound { id }),
        !E::accepts(payload) ==> update_outcome::<P, E>(s, id, payload, now) == Err::<
            E::V,
            ErrorView,
        >(ErrorView::InvalidInput { msg: E::refusal() }),
        after_update::<P, E>(s, id, payload, now) == s,
{
    assert(!s.records.contains_key(id));
}

/// An update keeps id and creation time, and sets the update time to the
/// time of the request. Where that time is not before the creation time,
/// the update time is not before it either.
pub proof fn update_keeps_origin<P: View, E: Entity<P>>(
    s: Shelf<E::V>,
    id: u64,
    payload: P::V,
    now: u64,
)
    requires
        shelf_wf::<E>(s),
        s.records.contains_key(id),
        E::accepts(payload),
    ensures
        update_outcome::<P, E>(s, id, payload, now) matches Ok(record) && {
            &&& E::id_of(record) == id
            &&& E::created_at(record) == E::created_at(s.records[id])
            &&& E::updated_at(record) == Some(now)
            &&& E::created_at(s.records[id]) <= now ==> E::updated_at(record)->0 >= E::created_at(
                record,
            )
            &&& get_outcome::<E>(after_update::<P, E>(s, id, payload, now), id) == Ok::<
                E::V,
                ErrorView,
            >(record)
        },
{
    E::stamped(id, s.records[id], payload, now);
}

/// Of two updates of one record, the later leaves the later update time:
/// update times follow the clock.
pub proof fn updates_follow_the_clock<P: View, E: Entity<P>>(
    s: Shelf<E::V>,
    id: u64,
    first: P::V,
    at_first: u64,
    second: P::V,
    at_second: u64,
)
    requires
        shelf_wf::<E>(s),
        s.records.contains_key(id),
        E::accepts(first),
        E::accepts(second),
        at_first <= at_second,
    ensures
        update_outcome::<P, E>(s, id, first, at_first) matches Ok(earlier) && update_outcome::<
            P,
            E,
        >(after_update::<P, E>(s, id, first, at_first), id, second, at_second) matches Ok(later)
            && E::updated_at(earlier) is Some && E::updated_at(later) is Some && E::updated_at(
            earlier,
        )->0 <= E::updated_at(later)->0 && E::created_at(later) == E::created_at(s.records[id])
            && E::id_of(later) == id,
{
    let middle = after_update::<P, E>(s, id, first, at_first);
    E::stamped(id, s.records[id], first, at_first);
    E::stamped(id, middle.records[id], second, at_second);
}

/// A refused payload creates nothing: the answer is `InvalidInput`, and the
/// state is as before, the next id included.
pub proof fn refused_changes_nothing<P: View, E: Entity<P>>(s: Shelf<E::V>, payload: P::V, now: u64)
    requires
        !E::accepts(payload),
    ensures
        create_outcome::<P, E>(s, payload, now) == Err::<E::V, ErrorView>(
            ErrorView::InvalidInput { msg: E::refusal() },
        ),
        after_create::<P, E>(s, payload, now) == s,
{
}

/// A listing is as long as the table has records.
pub proof fn listing_counts<E: Record>(listing: Seq<E>, table: Map<u64, E::V>)
    requires
        lists(listing, table),
    ensures
        table.dom().finite(),
        listing.len() == table.dom().len(),
        table.dom().len() == 0 ==> listing.len() == 0,
{
    let ids = listing.map_values(|record: E| E::id_of(record@));
    assert(ids.no_duplicates()) by {
        assert forall|i: int, j: int|
            0 <= i < ids.len() && 0 <= j < ids.len() && i != j implies ids[i] != ids[j] by {
            if i < j {
                assert(E::id_of(listing[i]@) < E::id_of(listing[j]@));
            } else {
                assert(E::id_of(listing[j]@) < E::id_of(listing[i]@));
            }
        }
    }
    assert(ids.to_set() =~= table.dom()) by {
        assert forall|id: u64| ids.to_set().contains(id) <==> table.dom().contains(id) by {
            if ids.to_set().contains(id) {
                let i = choose|i: int| 0 <= i < ids.len() && ids[i] == id;
                assert(table.contains_key(E::id_of(listing[i]@)));
            }
            if table.contains_key(id) {
                let i = choose|i: int|
                    0 <= i < listing.len() && E::id_of(#[trigger] listing[i]@) == id;
                assert(ids[i] == id);
            }
        }
    }
    ids.unique_seq_to_set();
    vstd::seq_lib::seq_to_set_is_finite(ids);
}

/// The listing of an empty table is empty.
pub proof fn nothing_lists_nothing<E: Record>(listing: Seq<E>)
    requires
        lists(listing, Map::<u64, E::V>::empty()),
    ensures
        listing.len() == 0,
{
    if listing.len() > 0 {
        assert(Map::<u64, E::V>::empty().contains_key(E::id_of(listing[0]@)));
    }
}

/// Whether every request is one to create, with a payload that is
/// accepted.
pub open spec fn all_create<P: View, E: Entity<P>>(requests: Seq<Request<P::V, E::V>>) -> bool {
    forall|i: int|
        0 <= i < requests.len() ==> (#[trigger] requests[i] matches Request::Create { payload, now }
            && E::accepts(payload))
}

/// Each accepted request to create adds one record.
pub proof fn creates_add_up<P: View, E: Entity<P>>(
    s: Shelf<E::V>,
    requests: Seq<Request<P::V, E::V>>,
)
    requires
        shelf_wf::<E>(s),
        s.records.dom().finite(),
        all_possible::<P, E>(s, requests),
        all_create::<P, E>(requests),
    ensures
        shelf_wf::<E>(after_all::<P, E>(s, requests)),
        after_all::<P, E>(s, requests).records.dom().finite(),
        after_all::<P, E>(s, requests).records.dom().len() == s.records.dom().len()
            + requests.len(),
    decreases requests.len(),
{
    if requests.len() > 0 {
        let next = after::<P, E>(s, requests[0]);
        let rest = requests.drop_first();
        request_keeps_order::<P, E>(s, requests[0]);
        assert(!s.records.contains_key(s.next_id));
        assert(next.records.dom() =~= s.records.dom().insert(s.next_id));
        assert(all_create::<P, E>(rest)) by {
            assert forall|i: int| 0 <= i < rest.len() implies (#[trigger] rest[i] matches
            Request::Create { payload, now } && E::accepts(payload)) by {
                assert(rest[i] == requests[i + 1]);
            }
        }
        creates_add_up::<P, E>(next, rest);
    }
}

/// On an empty table, after any number of accepted requests to create,
/// the listing has exactly that many records, in ascending order of id, so
/// no two with one id.
pub proof fn creates_are_all_listed<P: View, E: Entity<P>>(
    s: Shelf<E::V>,
    requests: Seq<Request<P::V, E::V>>,
    listing: Seq<E>,
)
    requires
        s.records == Map::<u64, E::V>::empty(),
        all_possible::<P, E>(s, requests),
        all_create::<P, E>(requests),
        lists(listing, after_all::<P, E>(s, requests).records),
    ensures
        listing.len() == requests.len(),
        forall|i: int, j: int|
            0 <= i < j < listing.len() ==> E::id_of(#[trigger] listing[i]@) < E::id_of(
                #[trigger] listing[j]@,
            ),
        forall|i: int, j: int|
            0 <= i < listing.len() && 0 <= j < listing.len() && i != j ==> E::id_of(
                #[trigger] listing[i]@,
            ) != E::id_of(#[trigger] listing[j]@),
{
    creates_add_up::<P, E>(s, requests);
    listing_counts::<E>(listing, after_all::<P, E>(s, requests).records);
    assert forall|i: int, j: int|
        0 <= i < listing.len() && 0 <= j < listing.len() && i != j implies E::id_of(
        #[trigger] listing[i]@,
    ) != E::id_of(#[trigger] listing[j]@) by {
        if i < j {
            assert(E::id_of(listing[i]@) < E::id_of(listing[j]@));
        } else {
            assert(E::id_of(listing[j]@) < E::id_of(listing[i]@));
        }
    }
}

} // verus!
