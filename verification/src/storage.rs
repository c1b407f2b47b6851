//! The boundary to the stable-memory structures.
//!
//! Everything in this file is believed, not proved: the structures live in a
//! crate that the verifier does not read. Each item says which function it
//! stands for and what it claims of it. The rest of the crate is proved
//! against these claims.
//!
//! The verifier cannot take the types of that crate into a signature, since
//! their headers are bounded by the crate's own traits. The handles below
//! therefore keep each value in a private field and hide it.

use ic_stable_structures::memory_manager::{MemoryId, MemoryManager, VirtualMemory};
use ic_stable_structures::{Cell, DefaultMemoryImpl, StableBTreeMap};
use vstd::prelude::*;

verus! {

/// The largest encoded record a table accepts, in bytes.
pub const MAX_RECORD_SIZE: usize = 1024;

/// The tag that the memory manager keeps for itself.
pub const RESERVED_TAG: u8 = 255;

/// The durable memory, split into independent segments by tag.
/// Holds a `MemoryManager` over the default memory.
#[verifier::external_body]
pub struct Segments {
    manager: MemoryManager<DefaultMemoryImpl>,
}

/// One segment of the durable memory. Holds a `VirtualMemory`.
#[verifier::external_body]
pub struct Segment {
    memory: VirtualMemory<DefaultMemoryImpl>,
}

/// A durable ordered map from id to encoded record.
/// Holds a `StableBTreeMap<u64, Vec<u8>, _>`.
#[verifier::external_body]
pub struct ByteTable {
    map: StableBTreeMap<u64, Vec<u8>, VirtualMemory<DefaultMemoryImpl>>,
}

/// A durable cell holding one `u64`. Holds a `Cell<u64, _>`.
#[verifier::external_body]
pub struct CounterCell {
    cell: Cell<u64, VirtualMemory<DefaultMemoryImpl>>,
}

/// What a table holds: the stored bytes under each id.
pub uninterp spec fn table_entries(table: ByteTable) -> Map<u64, Seq<u8>>;

/// The number a cell holds.
pub uninterp spec fn cell_value(cell: CounterCell) -> u64;

/// The tag of a segment: which part of the durable memory it is.
pub uninterp spec fn segment_tag(segment: Segment) -> u8;

/// The tag of the segment that a table stands on.
pub uninterp spec fn table_tag(table: ByteTable) -> u8;

/// The tag of the segment that a cell stands on.
pub uninterp spec fn cell_tag(cell: CounterCell) -> u8;

/// `MemoryManager::init` on `DefaultMemoryImpl::default()`.
/// Nothing is claimed of the result.
#[verifier::external_body]
pub(crate) fn open_segments() -> Segments {
    Segments { manager: MemoryManager::init(DefaultMemoryImpl::default()) }
}

/// `MemoryManager::get` with `MemoryId::new(tag)`: the segment of that tag.
/// `MemoryId::new` panics on the reserved tag, which `requires` leaves out.
/// Nothing is claimed of what the segment holds. Two handles taken for one
/// tag address the same bytes: the claims below hold of a structure only
/// while no other structure is opened on its segment.
#[verifier::external_body]
pub(crate) fn take_segment(segments: &Segments, tag: u8) -> (segment: Segment)
    requires
        tag != RESERVED_TAG,
    ensures
        segment_tag(segment) == tag,
{
    Segment { memory: segments.manager.get(MemoryId::new(tag)) }
}

/// `StableBTreeMap::init`: loads the map that the segment holds, or starts an
/// empty one, and keeps the segment as the map's memory. What the map holds
/// depends on what was stored before, so nothing is claimed of it. The call
/// aborts on a segment that holds a map of an unknown layout version.
#[verifier::external_body]
pub(crate) fn open_table(segment: Segment) -> (table: ByteTable)
    ensures
        table_tag(table) == segment_tag(segment),
{
    ByteTable { map: StableBTreeMap::init(segment.memory) }
}

/// `StableBTreeMap::init` on the memory that `StableBTreeMap::into_memory`
/// gives back: lets go of the map and loads it again from its memory. The
/// map keeps all that it holds in its memory, so the loaded map holds what
/// the map held, on the same segment.
#[verifier::external_body]
pub(crate) fn reload_table(table: ByteTable) -> (loaded: ByteTable)
    ensures
        table_entries(loaded) == table_entries(table),
        table_tag(loaded) == table_tag(table),
{
    ByteTable { map: StableBTreeMap::init(table.map.into_memory()) }
}

/// `StableBTreeMap::get`: the bytes stored under `id`, if any.
#[verifier::external_body]
pub(crate) fn table_get(table: &ByteTable, id: u64) -> (found: Option<Vec<u8>>)
    ensures
        found is Some <==> table_entries(*table).contains_key(id),
        found matches Some(bytes) ==> bytes@ == table_entries(*table)[id],
{
    table.map.get(&id)
}

/// `StableBTreeMap::insert`: stores `bytes` under `id`, in place of what
/// was there. All other entries stay, and the map stays on its segment. The
/// map writes the length of a value as 32 bits; the bound keeps far below
/// that. The call aborts when the memory cannot grow.
#[verifier::external_body]
pub(crate) fn table_insert(table: &mut ByteTable, id: u64, bytes: Vec<u8>)
    requires
        bytes@.len() <= MAX_RECORD_SIZE,
    ensures
        table_entries(*final(table)) == table_entries(*old(table)).insert(id, bytes@),
        table_tag(*final(table)) == table_tag(*old(table)),
{
    table.map.insert(id, bytes);
}

/// `StableBTreeMap::remove`: deletes the entry under `id` and returns its
/// bytes, if there was one. All other entries stay, and the map stays on
/// its segment.
#[verifier::external_body]
pub(crate) fn table_remove(table: &mut ByteTable, id: u64) -> (removed: Option<Vec<u8>>)
    ensures
        table_entries(*final(table)) == table_entries(*old(table)).remove(id),
        table_tag(*final(table)) == table_tag(*old(table)),
        removed is Some <==> table_entries(*old(table)).contains_key(id),
        removed matches Some(b) ==> b@ == table_entries(*old(table))[id],
{
    table.map.remove(&id)
}

/// `StableBTreeMap::iter`, each entry turned into its pair: every entry of
/// the map, once, in ascending order of id.
#[verifier::external_body]
pub(crate) fn table_list(table: &ByteTable) -> (pairs: Vec<(u64, Vec<u8>)>)
    ensures
        forall|i: int, j: int| 0 <= i < j < pairs@.len() ==> pairs@[i].0 < pairs@[j].0,
        forall|i: int|
            0 <= i < pairs@.len() ==> table_entries(*table).contains_key(#[trigger] pairs@[i].0)
                && pairs@[i].1@ == table_entries(*table)[pairs@[i].0],
        forall|id: u64|
            table_entries(*table).contains_key(id) ==> exists|i: int|
                0 <= i < pairs@.len() && #[trigger] pairs@[i].0 == id,
{
    table.map.iter().map(|entry| entry.into_pair()).collect()
}

/// `Cell::init`: loads the number that the segment holds, or stores `first`
/// where it holds none, and keeps the segment as the cell's memory. Which
/// number it is depends on what was stored before, so nothing is claimed of
/// it. The call aborts on a segment that holds a cell of an unknown layout
/// version or of another type of value.
#[verifier::external_body]
pub(crate) fn open_cell(segment: Segment, first: u64) -> (cell: CounterCell)
    ensures
        cell_tag(cell) == segment_tag(segment),
{
    CounterCell { cell: Cell::init(segment.memory, first) }
}

/// `Cell::init` on the memory that `Cell::into_memory` gives back: lets go
/// of the cell and loads it again from its memory. The cell writes its
/// number to its memory whenever it is set, so the loaded cell holds the
/// number that the cell held, whatever `first` is, on the same segment.
#[verifier::external_body]
pub(crate) fn reload_cell(cell: CounterCell, first: u64) -> (loaded: CounterCell)
    ensures
        cell_value(loaded) == cell_value(cell),
        cell_tag(loaded) == cell_tag(cell),
{
    CounterCell { cell: Cell::init(cell.cell.into_memory(), first) }
}

/// `Cell::get`: the number in the cell.
#[verifier::external_body]
pub(crate) fn cell_get(cell: &CounterCell) -> (value: u64)
    ensures
        value == cell_value(*cell),
{
    *cell.cell.get()
}

/// `Cell::set`: stores `value` and returns the number that was there. The
/// cell stays on its segment. The call aborts when the memory cannot grow.
#[verifier::external_body]
pub(crate) fn cell_set(cell: &mut CounterCell, value: u64) -> (previous: u64)
    ensures
        cell_value(*final(cell)) == value,
        previous == cell_value(*old(cell)),
        cell_tag(*final(cell)) == cell_tag(*old(cell)),
{
    cell.cell.set(value)
}

} // verus!
