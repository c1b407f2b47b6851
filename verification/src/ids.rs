//! The allocator of ids: one durable counter.

use crate::storage::{cell_get, cell_set, cell_tag, cell_value, reload_cell, CounterCell};
use vstd::prelude::*;

verus! {

/// Hands out ids in ascending order, each once. The counter is durable: an
/// id that was handed out is never handed out again.
pub struct IdAllocator {
    cell: CounterCell,
}

impl IdAllocator {
    /// The id that is handed out next.
    pub closed spec fn next(&self) -> u64 {
        cell_value(self.cell)
    }

    /// The tag of the segment that the counter stands on.
    pub closed spec fn tag(&self) -> u8 {
        cell_tag(self.cell)
    }

    /// Takes over an opened cell: the next id is the number that it holds.
    pub fn adopt(cell: CounterCell) -> (ids: Self)
        ensures
            ids.next() == cell_value(cell),
            ids.tag() == cell_tag(cell),
    {
        IdAllocator { cell }
    }

    /// Lets go of the counter and loads it again from its memory, as a
    /// restart of the process does. The next id is as before, on the same
    /// segment.
    pub fn reload(self) -> (ids: Self)
        ensures
            ids.next() == self.next(),
            ids.tag() == self.tag(),
    {
        let first = cell_get(&self.cell);
        Self::adopt(reload_cell(self.cell, first))
    }

    /// The id that is handed out next, without taking it.
    pub fn peek(&self) -> (id: u64)
        ensures
            id == self.next(),
    {
        cell_get(&self.cell)
    }

    /// Takes the next id: stores its successor, then returns it.
    pub fn next_id(&mut self) -> (id: u64)
        requires
            old(self).next() < u64::MAX,
        ensures
            id == old(self).next(),
            final(self).next() == id + 1,
            final(self).tag() == old(self).tag(),
    {
        let current = cell_get(&self.cell);
        cell_set(&mut self.cell, current + 1)
    }
}

} // verus!
