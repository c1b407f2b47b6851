//! The library: one allocator of ids and a table for each kind of record,
//! each on a segment of its own.

use crate::book::{Book, BookView};
use crate::ids::IdAllocator;
use crate::loan::{Loan, LoanView};
use crate::record::{all_sound, records_below, records_of, Table};
use crate::service::{shelf_wf, shelf_wf_is_below, Shelf};
use crate::storage::{
    cell_tag, cell_value, open_cell, open_segments, open_table, table_entries, table_tag,
    take_segment, ByteTable, CounterCell, Segments,
};
use crate::student::{Student, StudentView};
use vstd::prelude::*;

verus! {

/// The segment of the counter of ids.
pub const IDS_TAG: u8 = 0;

/// The segment of the table of students.
pub const STUDENTS_TAG: u8 = 1;

/// The segment of the table of books.
pub const BOOKS_TAG: u8 = 2;

/// The segment of the table of loans.
pub const LOANS_TAG: u8 = 3;

/// The id of the first record of a library that starts from nothing.
pub const FIRST_ID: u64 = 1;

/// The durable state of the library. The three kinds of record draw their
/// ids from one counter, so no two records of the library share an id.
/// The counter and each table stand on a segment of their own.
pub struct Library {
    pub(crate) ids: IdAllocator,
    pub(crate) students: Table<Student>,
    pub(crate) books: Table<Book>,
    pub(crate) loans: Table<Loan>,
}

impl Library {
    /// The id that the next created record gets, of whatever kind.
    pub closed spec fn next_id(&self) -> u64 {
        self.ids.next()
    }

    /// The students, by id.
    pub closed spec fn students(&self) -> Map<u64, StudentView> {
        self.students@
    }

    /// The books, by id.
    pub closed spec fn books(&self) -> Map<u64, BookView> {
        self.books@
    }

    /// The loans, by id.
    pub closed spec fn loans(&self) -> Map<u64, LoanView> {
        self.loans@
    }

    /// The tags of the segments that the counter and the tables of
    /// students, of books and of loans stand on, in that order.
    pub closed spec fn tags(&self) -> (u8, u8, u8, u8) {
        (self.ids.tag(), self.students.tag(), self.books.tag(), self.loans.tag())
    }

    /// The tags that a library keeps its parts on: four different ones.
    pub open spec fn own_tags() -> (u8, u8, u8, u8) {
        (IDS_TAG, STUDENTS_TAG, BOOKS_TAG, LOANS_TAG)
    }

    /// What the requests on students see.
    pub open spec fn student_shelf(&self) -> Shelf<StudentView> {
        Shelf { next_id: self.next_id(), records: self.students() }
    }

    /// What the requests on books see.
    pub open spec fn book_shelf(&self) -> Shelf<BookView> {
        Shelf { next_id: self.next_id(), records: self.books() }
    }

    /// What the requests on loans see.
    pub open spec fn loan_shelf(&self) -> Shelf<LoanView> {
        Shelf { next_id: self.next_id(), records: self.loans() }
    }

    /// The counter and the tables stand each on its own segment, every
    /// table is well formed, every record stands under its own id, and
    /// every id in use was handed out.
    pub closed spec fn wf(&self) -> bool {
        &&& self.tags() == Self::own_tags()
        &&& self.students.wf()
        &&& self.books.wf()
        &&& self.loans.wf()
        &&& shelf_wf::<Student>(self.student_shelf())
        &&& shelf_wf::<Book>(self.book_shelf())
        &&& shelf_wf::<Loan>(self.loan_shelf())
    }

    /// What the library's state is made of, for the modules of the kinds.
    pub(crate) proof fn unfold(&self)
        ensures
            self.next_id() == self.ids.next(),
            self.students() == self.students@,
            self.books() == self.books@,
            self.loans() == self.loans@,
            self.tags() == (
                self.ids.tag(),
                self.students.tag(),
                self.books.tag(),
                self.loans.tag(),
            ),
            self.wf() <==> {
                &&& self.tags() == Self::own_tags()
                &&& self.students.wf()
                &&& self.books.wf()
                &&& self.loans.wf()
                &&& shelf_wf::<Student>(self.student_shelf())
                &&& shelf_wf::<Book>(self.book_shelf())
                &&& shelf_wf::<Loan>(self.loan_shelf())
            },
    {
    }

    /// In a well-formed library every shelf is well formed, and the parts
    /// stand on the library's own four segments.
    pub proof fn shelves_wf(&self)
        requires
            self.wf(),
        ensures
            shelf_wf::<Student>(self.student_shelf()),
            shelf_wf::<Book>(self.book_shelf()),
            shelf_wf::<Loan>(self.loan_shelf()),
            self.tags() == Self::own_tags(),
    {
    }

    /// Puts a library together from its parts, each on its own segment, if
    /// every id in use is below the counter.
    pub fn assemble(
        ids: IdAllocator,
        students: Table<Student>,
        books: Table<Book>,
        loans: Table<Loan>,
    ) -> (lib: Option<Library>)
        requires
            (ids.tag(), students.tag(), books.tag(), loans.tag()) == Self::own_tags(),
            students.wf(),
            books.wf(),
            loans.wf(),
        ensures
            lib is Some <==> {
                &&& forall|id: u64| #[trigger] students@.contains_key(id) ==> id < ids.next()
                &&& forall|id: u64| #[trigger] books@.contains_key(id) ==> id < ids.next()
                &&& forall|id: u64| #[trigger] loans@.contains_key(id) ==> id < ids.next()
            },
            lib matches Some(l) ==> {
                &&& l.wf()
                &&& l.next_id() == ids.next()
                &&& l.students() == students@
                &&& l.books() == books@
                &&& l.loans() == loans@
            },
    {
        let next = ids.peek();
        if students.all_below(next) && books.all_below(next) && loans.all_below(next) {
            proof {
                students.keyed();
                books.keyed();
                loans.keyed();
            }
            Some(Library { ids, students, books, loans })
        } else {
            None
        }
    }

    /// Whether what was opened makes a library: every entry of each table
    /// is sound for its kind, and every id in use is below the counter.
    pub open spec fn makes_library(
        next_id: u64,
        students: Map<u64, Seq<u8>>,
        books: Map<u64, Seq<u8>>,
        loans: Map<u64, Seq<u8>>,
    ) -> bool {
        &&& all_sound::<Student>(students)
        &&& all_sound::<Book>(books)
        &&& all_sound::<Loan>(loans)
        &&& forall|id: u64| #[trigger] students.contains_key(id) ==> id < next_id
        &&& forall|id: u64| #[trigger] books.contains_key(id) ==> id < next_id
        &&& forall|id: u64| #[trigger] loans.contains_key(id) ==> id < next_id
    }

    /// Takes over what was opened on the library's four segments: the
    /// counter and the three tables. Gives the library exactly where they
    /// make one; it then holds the counter's number as its next id and the
    /// records that the entries spell.
    pub fn adopt(
        cell: CounterCell,
        students: ByteTable,
        books: ByteTable,
        loans: ByteTable,
    ) -> (lib: Option<Library>)
        requires
            (cell_tag(cell), table_tag(students), table_tag(books), table_tag(loans))
                == Self::own_tags(),
        ensures
            lib is Some <==> Self::makes_library(
                cell_value(cell),
                table_entries(students),
                table_entries(books),
                table_entries(loans),
            ),
            lib matches Some(l) ==> {
                &&& l.wf()
                &&& l.next_id() == cell_value(cell)
                &&& l.students() == records_of::<Student>(table_entries(students))
                &&& l.books() == records_of::<Book>(table_entries(books))
                &&& l.loans() == records_of::<Loan>(table_entries(loans))
            },
    {
        let ghost stored = (table_entries(students), table_entries(books), table_entries(loans));
        let ids = IdAllocator::adopt(cell);
        let students = Table::<Student>::adopt(students);
        let books = Table::<Book>::adopt(books);
        let loans = Table::<Loan>::adopt(loans);
        match (students, books, loans) {
            (Some(students), Some(books), Some(loans)) => {
                proof {
                    records_below::<Student>(stored.0, ids.next());
                    records_below::<Book>(stored.1, ids.next());
                    records_below::<Loan>(stored.2, ids.next());
                }
                Library::assemble(ids, students, books, loans)
            },
            _ => None,
        }
    }

    /// Opens the counter and the tables on the library's four segments of a
    /// memory and takes them over.
    fn open_on(segments: Segments, first_id: u64) -> (lib: Option<Library>)
        ensures
            lib matches Some(l) ==> l.wf() && l.tags() == Self::own_tags(),
    {
        let cell = open_cell(take_segment(&segments, IDS_TAG), first_id);
        let students = open_table(take_segment(&segments, STUDENTS_TAG));
        let books = open_table(take_segment(&segments, BOOKS_TAG));
        let loans = open_table(take_segment(&segments, LOANS_TAG));
        Library::adopt(cell, students, books, loans)
    }

    /// Opens the library that the durable memory holds: the counter on the
    /// segment `IDS_TAG`, the tables on `STUDENTS_TAG`, `BOOKS_TAG` and
    /// `LOANS_TAG`. Where the memory is fresh the library is empty and the
    /// first id is `first_id`. Fails where the memory holds an entry that
    /// is no record of its table, or one under an id that was not handed
    /// out: every entry is read once to see that.
    ///
    /// The memory belongs to the library that was opened on it: open one
    /// per process.
    pub fn open(first_id: u64) -> (lib: Option<Library>)
        ensures
            lib matches Some(l) ==> l.wf() && l.tags() == Self::own_tags(),
    {
        Library::open_on(open_segments(), first_id)
    }

    /// Takes the library apart: its allocator and its tables.
    fn close(self) -> (parts: (IdAllocator, Table<Student>, Table<Book>, Table<Loan>))
        ensures
            parts.0 == self.ids,
            parts.1 == self.students,
            parts.2 == self.books,
            parts.3 == self.loans,
    {
        (self.ids, self.students, self.books, self.loans)
    }

    /// Lets go of the library and opens it again from its memory, as a
    /// restart of the process does: the counter and each table are loaded
    /// from what they wrote, every entry is read once, and the parts are
    /// put together. The library comes back as it was: the next id is the
    /// one that was next, the records are those that were there, and the
    /// parts stand on the segments they stood on.
    pub fn reopen(self) -> (lib: Option<Library>)
        requires
            self.wf(),
        ensures
            lib matches Some(l) && {
                &&& l.wf()
                &&& l.tags() == self.tags()
                &&& l.next_id() == self.next_id()
                &&& l.students() == self.students()
                &&& l.books() == self.books()
                &&& l.loans() == self.loans()
            },
    {
        let (ids, students, books, loans) = self.close();
        let ids = ids.reload();
        let students = students.reload();
        let books = books.reload();
        let loans = loans.reload();
        match (students, books, loans) {
            (Some(students), Some(books), Some(loans)) => {
                proof {
                    students.keyed();
                    books.keyed();
                    loans.keyed();
                    assert(self.student_shelf().records == students@);
                    assert(self.book_shelf().records == books@);
                    assert(self.loan_shelf().records == loans@);
                    shelf_wf_is_below::<Student>(self.student_shelf());
                    shelf_wf_is_below::<Book>(self.book_shelf());
                    shelf_wf_is_below::<Loan>(self.loan_shelf());
                }
                Library::assemble(ids, students, books, loans)
            },
            _ => None,
        }
    }

    /// The id that the next created record gets.
    pub fn peek_next_id(&self) -> (id: u64)
        ensures
            id == self.next_id(),
    {
        self.ids.peek()
    }
}

} // verus!
