//! Records and the tables that keep them.
//!
//! A record type commits to a byte form: an encoding, a decoding that undoes
//! it, and nothing longer than a table accepts. A table keeps such records
//! under their ids in durable memory.

use crate::storage::{
    reload_table, table_entries, table_get, table_insert, table_list, table_remove, table_tag,
    ByteTable, MAX_RECORD_SIZE,
};
use std::marker::PhantomData;
use vstd::prelude::*;

verus! {

/// A type of record that a table can keep.
pub trait Record: View + Sized {
    /// The id under which a record is kept.
    spec fn id_of(model: Self::V) -> u64;

    /// The byte form of a record.
    spec fn encoding(model: Self::V) -> Seq<u8>;

    /// The record that bytes spell, if they spell one.
    spec fn decoding(bytes: Seq<u8>) -> Option<Self::V>;

    /// Decoding undoes encoding.
    proof fn round_trip(model: Self::V)
        requires
            Self::encoding(model).len() <= MAX_RECORD_SIZE,
        ensures
            Self::decoding(Self::encoding(model)) == Some(model),
    ;

    /// The record's id.
    fn id(&self) -> (id: u64)
        ensures
            id == Self::id_of(self@),
    ;

    /// How long the record's byte form is, or nothing where it is longer
    /// than a table accepts.
    fn encoded_len(&self) -> (len: Option<usize>)
        ensures
            len is Some <==> Self::encoding(self@).len() <= MAX_RECORD_SIZE,
            len matches Some(n) ==> n == Self::encoding(self@).len(),
    ;

    /// Writes the record.
    fn to_bytes(&self) -> (bytes: Vec<u8>)
        ensures
            bytes@ == Self::encoding(self@),
    ;

    /// Reads a record, if `bytes` spell one.
    fn try_from_bytes(bytes: &[u8]) -> (record: Option<Self>)
        ensures
            match record {
                Some(r) => Self::decoding(bytes@) == Some(r@),
                None => Self::decoding(bytes@) is None,
            },
    ;

    /// Reads a record from bytes that spell one.
    fn from_bytes(bytes: &[u8]) -> (record: Self)
        requires
            Self::decoding(bytes@) is Some,
        ensures
            Self::decoding(bytes@) == Some(record@),
    ;
}

/// Whether a record's byte form is within what a table accepts.
pub open spec fn fits<R: Record>(model: R::V) -> bool {
    R::encoding(model).len() <= MAX_RECORD_SIZE
}

/// Whether `bytes` may stand under `id` in a table of `R`: they are no
/// longer than a table accepts, they spell a record, and its id is `id`.
pub open spec fn sound_entry<R: Record>(id: u64, bytes: Seq<u8>) -> bool {
    &&& bytes.len() <= MAX_RECORD_SIZE
    &&& R::decoding(bytes) matches Some(model) && R::id_of(model) == id
}

/// Whether every entry may stand where it does in a table of `R`.
pub open spec fn all_sound<R: Record>(entries: Map<u64, Seq<u8>>) -> bool {
    forall|id: u64| #[trigger] entries.contains_key(id) ==> sound_entry::<R>(id, entries[id])
}

/// The records that the entries of a table spell, by id.
pub open spec fn records_of<R: Record>(entries: Map<u64, Seq<u8>>) -> Map<u64, R::V> {
    Map::new(|id: u64| entries.contains_key(id), |id: u64| R::decoding(entries[id])->0)
}

/// The records that entries spell stand under the ids of the entries: the
/// ones are all below a bound exactly where the others are.
pub proof fn records_below<R: Record>(entries: Map<u64, Seq<u8>>, bound: u64)
    ensures
        (forall|id: u64| #[trigger] records_of::<R>(entries).contains_key(id) ==> id < bound)
            <==> (forall|id: u64| #[trigger] entries.contains_key(id) ==> id < bound),
{
    let records = records_of::<R>(entries);
    if forall|id: u64| #[trigger] records.contains_key(id) ==> id < bound {
        assert forall|id: u64| #[trigger] entries.contains_key(id) implies id < bound by {
            assert(records.contains_key(id));
        }
    }
    if forall|id: u64| #[trigger] entries.contains_key(id) ==> id < bound {
        assert forall|id: u64| #[trigger] records.contains_key(id) implies id < bound by {
            assert(entries.contains_key(id));
        }
    }
}

/// A durable table of records of one type, each under its id.
pub struct Table<R: Record> {
    raw: ByteTable,
    kind: PhantomData<R>,
}

impl<R: Record> Table<R> {
    /// The stored bytes.
    pub closed spec fn bytes(&self) -> Map<u64, Seq<u8>> {
        table_entries(self.raw)
    }

    /// The tag of the segment that the table stands on.
    pub closed spec fn tag(&self) -> u8 {
        table_tag(self.raw)
    }

    /// Every entry is within what a table accepts and spells a record that
    /// carries the id it stands under.
    pub closed spec fn wf(&self) -> bool {
        all_sound::<R>(self.bytes())
    }
}

impl<R: Record> View for Table<R> {
    type V = Map<u64, R::V>;

    /// The records of the table, by id.
    closed spec fn view(&self) -> Map<u64, R::V> {
        records_of::<R>(self.bytes())
    }
}

/// Whether `records` is the listing of `table`: every record of it, once,
/// in ascending order of id.
pub open spec fn lists<R: Record>(records: Seq<R>, table: Map<u64, R::V>) -> bool {
    &&& forall|i: int, j: int|
        0 <= i < j < records.len() ==> R::id_of(#[trigger] records[i]@) < R::id_of(
            #[trigger] records[j]@,
        )
    &&& forall|i: int|
        0 <= i < records.len() ==> table.contains_key(R::id_of(#[trigger] records[i]@))
            && table[R::id_of(records[i]@)] == records[i]@
    &&& forall|id: u64| #[trigger]
        table.contains_key(id) ==> exists|i: int|
            0 <= i < records.len() && R::id_of(#[trigger] records[i]@) == id
}

impl<R: Record> Table<R> {
    /// Takes over an opened table, if every entry of it is sound. The
    /// table then holds the records that the entries spell, on the segment
    /// that the opened table stands on.
    pub fn adopt(raw: ByteTable) -> (table: Option<Self>)
        ensures
            table is Some <==> all_sound::<R>(table_entries(raw)),
            table matches Some(t) ==> {
                &&& t.wf()
                &&& t@ == records_of::<R>(table_entries(raw))
                &&& t.tag() == table_tag(raw)
            },
    {
        let pairs = table_list(&raw);
        let mut i: usize = 0;
        while i < pairs.len()
            invariant
                0 <= i <= pairs@.len(),
                forall|k: int|
                    0 <= k < i ==> sound_entry::<R>((#[trigger] pairs@[k]).0, pairs@[k].1@),
                forall|k: int|
                    0 <= k < pairs@.len() ==> table_entries(raw).contains_key(
                        (#[trigger] pairs@[k]).0,
                    ) && pairs@[k].1@ == table_entries(raw)[pairs@[k].0],
            decreases pairs@.len() - i,
        {
            let sound = pairs[i].1.len() <= MAX_RECORD_SIZE && match R::try_from_bytes(
                pairs[i].1.as_slice(),
            ) {
                Some(record) => record.id() == pairs[i].0,
                None => false,
            };
            if !sound {
                proof {
                    let id = pairs@[i as int].0;
                    assert(table_entries(raw).contains_key(id));
                    assert(!sound_entry::<R>(id, table_entries(raw)[id]));
                }
                return None;
            }
            i += 1;
        }
        Some(Table { raw, kind: PhantomData })
    }

    /// Lets go of the table and loads it again from its memory, as a
    /// restart of the process does. A well-formed table comes back with
    /// the records it had; one that is not does not come back.
    pub fn reload(self) -> (table: Option<Self>)
        ensures
            table is Some <==> self.wf(),
            table matches Some(t) ==> t.wf() && t@ == self@ && t.tag() == self.tag(),
    {
        let ghost before = self.bytes();
        let loaded = reload_table(self.raw);
        let ghost after = table_entries(loaded);
        let table = Self::adopt(loaded);
        proof {
            assert(after == before);
            if self.wf() {
                assert forall|id: u64| #[trigger] after.contains_key(id) implies sound_entry::<R>(
                    id,
                    after[id],
                ) by {
                    assert(self.bytes().contains_key(id));
                }
            }
            if table is Some {
                assert forall|id: u64| #[trigger]
                    self.bytes().contains_key(id) implies sound_entry::<R>(
                    id,
                    self.bytes()[id],
                ) by {
                    assert(after.contains_key(id));
                }
                assert(table->0@ =~= self@);
            }
        }
        table
    }

    /// In a well-formed table every record stands under its own id.
    pub proof fn keyed(&self)
        requires
            self.wf(),
        ensures
            forall|id: u64| #[trigger] self@.contains_key(id) ==> R::id_of(self@[id]) == id,
    {
        assert forall|id: u64| #[trigger] self@.contains_key(id) implies R::id_of(self@[id])
            == id by {
            assert(self.bytes().contains_key(id));
        }
    }

    /// The record under `id`, if there is one.
    pub fn get(&self, id: u64) -> (found: Option<R>)
        requires
            self.wf(),
        ensures
            found is Some <==> self@.contains_key(id),
            found matches Some(record) ==> record@ == self@[id],
    {
        match table_get(&self.raw, id) {
            Some(bytes) => {
                assert(sound_entry::<R>(id, self.bytes()[id]));
                Some(R::from_bytes(bytes.as_slice()))
            },
            None => None,
        }
    }

    /// Stores a record under its id, in place of what was there.
    pub fn insert(&mut self, record: &R)
        requires
            old(self).wf(),
            fits::<R>(record@),
        ensures
            final(self).wf(),
            final(self)@ == old(self)@.insert(R::id_of(record@), record@),
            final(self).tag() == old(self).tag(),
    {
        let id = record.id();
        let bytes = record.to_bytes();
        proof {
            R::round_trip(record@);
        }
        table_insert(&mut self.raw, id, bytes);
        proof {
            assert forall|k: u64| #[trigger] self.bytes().contains_key(k) implies sound_entry::<R>(
                k,
                self.bytes()[k],
            ) by {
                if k != id {
                    assert(old(self).bytes().contains_key(k));
                }
            }
            assert(self@ =~= old(self)@.insert(id, record@));
        }
    }

    /// Removes the record under `id` and returns it, if there is one.
    pub fn remove(&mut self, id: u64) -> (removed: Option<R>)
        requires
            old(self).wf(),
        ensures
            final(self).wf(),
            final(self)@ == old(self)@.remove(id),
            final(self).tag() == old(self).tag(),
            removed is Some <==> old(self)@.contains_key(id),
            removed matches Some(record) ==> record@ == old(self)@[id],
    {
        proof {
            assert(old(self).bytes().contains_key(id) ==> sound_entry::<R>(
                id,
                old(self).bytes()[id],
            ));
        }
        let removed = table_remove(&mut self.raw, id);
        proof {
            assert forall|k: u64| #[trigger] self.bytes().contains_key(k) implies sound_entry::<R>(
                k,
                self.bytes()[k],
            ) by {
                assert(old(self).bytes().contains_key(k));
            }
            assert(self@ =~= old(self)@.remove(id));
        }
        match removed {
            Some(bytes) => Some(R::from_bytes(bytes.as_slice())),
            None => None,
        }
    }

    /// Whether every id of the table is below `bound`.
    pub fn all_below(&self, bound: u64) -> (below: bool)
        requires
            self.wf(),
        ensures
            below == (forall|id: u64| #[trigger] self@.contains_key(id) ==> id < bound),
    {
        let pairs = table_list(&self.raw);
        let count = pairs.len();
        if count == 0 {
            return true;
        }
        let last = pairs[count - 1].0;
        proof {
            assert(self@.contains_key(last));
            if last < bound {
                assert forall|id: u64| #[trigger] self@.contains_key(id) implies id < bound by {
                    let k = choose|k: int| 0 <= k < pairs@.len() && #[trigger] pairs@[k].0 == id;
                    assert(k == count - 1 || pairs@[k].0 < pairs@[count - 1].0);
                }
            }
        }
        last < bound
    }

    /// Every record of the table, in ascending order of id.
    pub fn list(&self) -> (records: Vec<R>)
        requires
            self.wf(),
        ensures
            lists(records@, self@),
    {
        let pairs = table_list(&self.raw);
        let mut records: Vec<R> = Vec::new();
        let mut i: usize = 0;
        while i < pairs.len()
            invariant
                self.wf(),
                0 <= i <= pairs@.len(),
                records@.len() == i,
                forall|k: int|
                    0 <= k < pairs@.len() ==> self.bytes().contains_key((#[trigger] pairs@[k]).0)
                        && pairs@[k].1@ == self.bytes()[pairs@[k].0],
                forall|k: int|
                    0 <= k < i ==> R::id_of((#[trigger] records@[k])@) == pairs@[k].0
                        && records@[k]@ == self@[pairs@[k].0],
            decreases pairs@.len() - i,
        {
            proof {
                let id = pairs@[i as int].0;
                assert(self.bytes().contains_key(id));
                assert(sound_entry::<R>(id, self.bytes()[id]));
            }
            let record = R::from_bytes(pairs[i].1.as_slice());
            records.push(record);
            i += 1;
        }
        proof {
            assert forall|id: u64| #[trigger] self@.contains_key(id) implies exists|k: int|
                0 <= k < records@.len() && R::id_of(#[trigger] records@[k]@) == id by {
                let k = choose|k: int| 0 <= k < pairs@.len() && #[trigger] pairs@[k].0 == id;
                assert(R::id_of(records@[k]@) == id);
            }
        }
        records
    }
}

} // verus!
