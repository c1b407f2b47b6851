//! Books.

use crate::codec::{
    decode_text_record, encode_text_record, text_record_bytes, text_record_len, text_record_len_is,
    text_record_of, text_record_round_trip, TextFields, TEXT_HEADER,
};
use crate::error::{Error, ErrorView, Fatal};
use crate::library::Library;
use crate::loan::Loan;
use crate::student::Student;
use crate::record::{fits, lists, Record};
use crate::service::{
    after_create, after_delete, after_insert, after_update, create, create_obstacle, create_outcome,
    delete, delete_outcome, get_all, get_outcome, outcome, shelf_wf_grows, shelf_wf_insert,
    try_create, try_update, update, update_obstacle, update_outcome, Entity, Shelf,
};
use crate::storage::MAX_RECORD_SIZE;
use crate::text::{blank, is_blank};
use vstd::prelude::*;
use vstd::string::*;

verus! {

/// A book of the library.
#[derive(Debug, Clone, PartialEq, Eq)]
pub struct Book {
    pub id: u64,
    pub title: String,
    pub author: String,
    pub created_at: u64,
    pub updated_at: Option<u64>,
}

/// What a request to create or update a book carries.
#[derive(Debug, Clone, Default, PartialEq, Eq)]
pub struct BookPayload {
    pub title: String,
    pub author: String,
}

/// A `Book`, as contracts speak of it.
pub struct BookView {
    pub id: u64,
    pub title: Seq<char>,
    pub author: Seq<char>,
    pub created_at: u64,
    pub updated_at: Option<u64>,
}

/// A `BookPayload`, as contracts speak of it.
pub struct BookPayloadView {
    pub title: Seq<char>,
    pub author: Seq<char>,
}

impl View for Book {
    type V = BookView;

    open spec fn view(&self) -> BookView {
        BookView {
            id: self.id,
            title: self.title@,
            author: self.author@,
            created_at: self.created_at,
            updated_at: self.updated_at,
        }
    }
}

impl View for BookPayload {
    type V = BookPayloadView;

    open spec fn view(&self) -> BookPayloadView {
        BookPayloadView { title: self.title@, author: self.author@ }
    }
}

/// The fields of a book, as its byte form holds them.
pub open spec fn book_fields(book: BookView) -> TextFields {
    TextFields {
        id: book.id,
        created_at: book.created_at,
        updated_at: book.updated_at,
        first: book.title,
        second: book.author,
    }
}

/// The book that the fields of a byte form make.
pub open spec fn book_of(fields: TextFields) -> BookView {
    BookView {
        id: fields.id,
        title: fields.first,
        author: fields.second,
        created_at: fields.created_at,
        updated_at: fields.updated_at,
    }
}

/// What a payload with a blank title or author is answered with.
pub open spec fn book_refusal() -> Seq<char> {
    "Title and author cannot be empty."@
}

impl Record for Book {
    open spec fn id_of(model: BookView) -> u64 {
        model.id
    }

    open spec fn encoding(model: BookView) -> Seq<u8> {
        text_record_bytes(book_fields(model))
    }

    open spec fn decoding(bytes: Seq<u8>) -> Option<BookView> {
        match text_record_of(bytes) {
            Some(fields) => Some(book_of(fields)),
            None => None,
        }
    }

    proof fn round_trip(model: BookView) {
        text_record_len_is(book_fields(model));
        text_record_round_trip(book_fields(model));
    }

    fn id(&self) -> (id: u64) {
        self.id
    }

    fn encoded_len(&self) -> (len: Option<usize>) {
        proof {
            text_record_len_is(book_fields(self@));
        }
        let title = self.title.as_str().as_bytes().len();
        let author = self.author.as_str().as_bytes().len();
        if title > MAX_RECORD_SIZE - TEXT_HEADER || author > MAX_RECORD_SIZE - TEXT_HEADER - title {
            None
        } else {
            Some(TEXT_HEADER + title + author)
        }
    }

    fn to_bytes(&self) -> (bytes: Vec<u8>) {
        encode_text_record(
            self.id,
            self.created_at,
            self.updated_at,
            self.title.as_str(),
            self.author.as_str(),
        )
    }

    fn try_from_bytes(bytes: &[u8]) -> (record: Option<Self>) {
        match decode_text_record(bytes) {
            Some((id, created_at, updated_at, title, author)) => Some(
                Book { id, title, author, created_at, updated_at },
            ),
            None => None,
        }
    }

    fn from_bytes(bytes: &[u8]) -> (record: Self) {
        Self::try_from_bytes(bytes).unwrap()
    }
}

impl Entity<BookPayload> for Book {
    /// A payload is accepted where neither title nor author is blank.
    open spec fn accepts(payload: BookPayloadView) -> bool {
        !is_blank(payload.title) && !is_blank(payload.author)
    }

    open spec fn refusal() -> Seq<char> {
        book_refusal()
    }

    open spec fn roomy(payload: BookPayloadView) -> bool {
        text_record_len(payload.title, payload.author) <= MAX_RECORD_SIZE
    }

    open spec fn created(id: u64, payload: BookPayloadView, now: u64) -> BookView {
        BookView {
            id,
            title: payload.title,
            author: payload.author,
            created_at: now,
            updated_at: None,
        }
    }

    open spec fn revised(before: BookView, payload: BookPayloadView, now: u64) -> BookView {
        BookView {
            id: before.id,
            title: payload.title,
            author: payload.author,
            created_at: before.created_at,
            updated_at: Some(now),
        }
    }

    open spec fn created_at(model: BookView) -> u64 {
        model.created_at
    }

    open spec fn updated_at(model: BookView) -> Option<u64> {
        model.updated_at
    }

    proof fn stamped(id: u64, before: BookView, payload: BookPayloadView, now: u64) {
        text_record_len_is(book_fields(Self::created(id, payload, now)));
        text_record_len_is(book_fields(Self::revised(before, payload, now)));
    }

    fn check(payload: &BookPayload) -> (ok: bool) {
        !blank(payload.title.as_str()) && !blank(payload.author.as_str())
    }

    fn has_room(payload: &BookPayload) -> (ok: bool) {
        let title = payload.title.as_str().as_bytes().len();
        let author = payload.author.as_str().as_bytes().len();
        title <= MAX_RECORD_SIZE - TEXT_HEADER && author <= MAX_RECORD_SIZE - TEXT_HEADER - title
    }

    fn refuse() -> (msg: String) {
        "Title and author cannot be empty.".to_owned()
    }

    fn create(id: u64, payload: BookPayload, now: u64) -> (record: Book) {
        Book {
            id,
            title: payload.title,
            author: payload.author,
            created_at: now,
            updated_at: None,
        }
    }

    fn revise(self, payload: BookPayload, now: u64) -> (record: Book) {
        let mut book = self;
        book.title = payload.title;
        book.author = payload.author;
        book.updated_at = Some(now);
        book
    }
}

/// Every book, in ascending order of id. Never fails.
pub fn get_all_books(lib: &Library) -> (result: Result<Vec<Book>, Error>)
    requires
        lib.wf(),
    ensures
        result matches Ok(books) && lists(books@, lib.books()),
{
    let books = _get_all_books(lib);
    Ok(books)
}

/// Every book, in ascending order of id.
pub fn _get_all_books(lib: &Library) -> (books: Vec<Book>)
    requires
        lib.wf(),
    ensures
        lists(books@, lib.books()),
{
    proof {
        lib.unfold();
    }
    get_all(&lib.books)
}

/// The book under `id`, or `NotFound`.
pub fn get_book(lib: &Library, id: u64) -> (result: Result<Book, Error>)
    requires
        lib.wf(),
    ensures
        outcome(result) == get_outcome::<Book>(lib.book_shelf(), id),
{
    match _get_book(lib, &id) {
        Some(book) => Ok(book),
        None => Err(Error::NotFound { id }),
    }
}

/// The book under `id`, if there is one.
pub fn _get_book(lib: &Library, id: &u64) -> (found: Option<Book>)
    requires
        lib.wf(),
    ensures
        found is Some <==> lib.books().contains_key(*id),
        found matches Some(book) ==> book@ == lib.books()[*id],
{
    proof {
        lib.unfold();
    }
    lib.books.get(*id)
}

/// Adds a book. A payload with a blank title or author is answered with
/// `InvalidInput` and changes nothing: no id is taken. Else the book gets
/// the next id and the time `now` as its creation time, is stored, and is
/// returned. Asks that nothing stands in the way; `try_add_book` tests that.
pub fn add_book(lib: &mut Library, payload: BookPayload, now: u64) -> (result: Result<
    Book,
    Error,
>)
    requires
        old(lib).wf(),
        create_obstacle::<BookPayload, Book>(old(lib).book_shelf(), payload@) is None,
    ensures
        final(lib).wf(),
        final(lib).book_shelf() == after_create::<BookPayload, Book>(
            old(lib).book_shelf(),
            payload@,
            now,
        ),
        outcome(result) == create_outcome::<BookPayload, Book>(
            old(lib).book_shelf(),
            payload@,
            now,
        ),
        final(lib).loans() == old(lib).loans(),
        final(lib).students() == old(lib).students(),
{
    proof {
        lib.unfold();
    }
    let result = create(&mut lib.ids, &mut lib.books, payload, now);
    proof {
        lib.unfold();
        Book::stamped(old(lib).next_id(), Book::created(0, payload@, now), payload@, now);
        assert(lib.book_shelf() =~= after_create::<BookPayload, Book>(
            old(lib).book_shelf(),
            payload@,
            now,
        ));
        shelf_wf_grows::<Loan>(old(lib).loan_shelf(), lib.next_id());
        shelf_wf_grows::<Student>(old(lib).student_shelf(), lib.next_id());
    }
    result
}

/// Adds a book as `add_book` does where nothing stands in the way, and says
/// what does where something does: no id is left, or the book would be
/// longer than a table accepts. The library is then as before.
pub fn try_add_book(lib: &mut Library, payload: BookPayload, now: u64) -> (result: Result<
    Result<Book, Error>,
    Fatal,
>)
    requires
        old(lib).wf(),
    ensures
        final(lib).wf(),
        match create_obstacle::<BookPayload, Book>(old(lib).book_shelf(), payload@) {
            Some(fatal) => {
                &&& result == Err::<Result<Book, Error>, Fatal>(fatal)
                &&& final(lib).book_shelf() == old(lib).book_shelf()
            },
            None => {
                &&& result matches Ok(served)
                &&& outcome(served) == create_outcome::<BookPayload, Book>(
                    old(lib).book_shelf(),
                    payload@,
                    now,
                )
                &&& final(lib).book_shelf() == after_create::<BookPayload, Book>(
                    old(lib).book_shelf(),
                    payload@,
                    now,
                )
            },
        },
        final(lib).loans() == old(lib).loans(),
        final(lib).students() == old(lib).students(),
{
    proof {
        lib.unfold();
    }
    let result = try_create(&mut lib.ids, &mut lib.books, payload, now);
    proof {
        lib.unfold();
        Book::stamped(old(lib).next_id(), Book::created(0, payload@, now), payload@, now);
        if result is Ok {
            assert(lib.book_shelf() =~= after_create::<BookPayload, Book>(
                old(lib).book_shelf(),
                payload@,
                now,
            ));
        } else {
            assert(lib.book_shelf() =~= old(lib).book_shelf());
        }
        shelf_wf_grows::<Loan>(old(lib).loan_shelf(), lib.next_id());
        shelf_wf_grows::<Student>(old(lib).student_shelf(), lib.next_id());
    }
    result
}

/// Stores a book as it is under its id, in place of what was there. The
/// id is one that the library handed out, in use or not: this is the one
/// request that can put a record under the id of a deleted one.
pub fn do_insert(lib: &mut Library, book: &Book)
    requires
        old(lib).wf(),
        fits::<Book>(book@),
        book.id < old(lib).next_id(),
    ensures
        final(lib).wf(),
        final(lib).book_shelf() == after_insert::<Book>(old(lib).book_shelf(), book@),
        final(lib).loans() == old(lib).loans(),
        final(lib).students() == old(lib).students(),
{
    proof {
        lib.unfold();
    }
    lib.books.insert(book);
    proof {
        lib.unfold();
        shelf_wf_insert::<Book>(old(lib).book_shelf(), book@);
        assert(lib.book_shelf() =~= after_insert::<Book>(old(lib).book_shelf(), book@));
    }
}

/// Updates the book under `id`. A payload with a blank title or author is
/// answered with `InvalidInput`, a missing book with `NotFound`; neither
/// changes anything. Else title and author are replaced, the update time
/// becomes `now`, id and creation time stay, and the book is stored and
/// returned. Asks that nothing stands in the way; `try_update_book` tests
/// that.
pub fn update_book(lib: &mut Library, id: u64, payload: BookPayload, now: u64) -> (result: Result<
    Book,
    Error,
>)
    requires
        old(lib).wf(),
        update_obstacle::<BookPayload, Book>(old(lib).book_shelf(), id, payload@) is None,
    ensures
        final(lib).wf(),
        final(lib).book_shelf() == after_update::<BookPayload, Book>(
            old(lib).book_shelf(),
            id,
            payload@,
            now,
        ),
        outcome(result) == update_outcome::<BookPayload, Book>(
            old(lib).book_shelf(),
            id,
            payload@,
            now,
        ),
        final(lib).loans() == old(lib).loans(),
        final(lib).students() == old(lib).students(),
{
    proof {
        lib.unfold();
    }
    let result = update(&mut lib.books, id, payload, now);
    proof {
        lib.unfold();
        assert(lib.book_shelf() =~= after_update::<BookPayload, Book>(
            old(lib).book_shelf(),
            id,
            payload@,
            now,
        ));
    }
    result
}

/// Updates the book under `id` as `update_book` does where nothing stands
/// in the way, and says what does where something does: the book would
/// be longer than a table accepts. The library is then as before.
pub fn try_update_book(
    lib: &mut Library,
    id: u64,
    payload: BookPayload,
    now: u64,
) -> (result: Result<Result<Book, Error>, Fatal>)
    requires
        old(lib).wf(),
    ensures
        final(lib).wf(),
        match update_obstacle::<BookPayload, Book>(old(lib).book_shelf(), id, payload@) {
            Some(fatal) => {
                &&& result == Err::<Result<Book, Error>, Fatal>(fatal)
                &&& final(lib).book_shelf() == old(lib).book_shelf()
            },
            None => {
                &&& result matches Ok(served)
                &&& outcome(served) == update_outcome::<BookPayload, Book>(
                    old(lib).book_shelf(),
                    id,
                    payload@,
                    now,
                )
                &&& final(lib).book_shelf() == after_update::<BookPayload, Book>(
                    old(lib).book_shelf(),
                    id,
                    payload@,
                    now,
                )
            },
        },
        final(lib).loans() == old(lib).loans(),
        final(lib).students() == old(lib).students(),
{
    proof {
        lib.unfold();
    }
    let result = try_update(&mut lib.books, id, payload, now);
    proof {
        lib.unfold();
        let before = old(lib).book_shelf();
        assert(update_obstacle::<BookPayload, Book>(before, id, payload@)
            == update_obstacle::<BookPayload, Book>(
            Shelf { next_id: before.next_id, records: old(lib).books@ },
            id,
            payload@,
        ));
        if result is Ok {
            assert(lib.book_shelf() =~= after_update::<BookPayload, Book>(
                before,
                id,
                payload@,
                now,
            ));
        } else {
            assert(lib.book_shelf() =~= before);
        }
    }
    result
}

/// Deletes the book under `id` and returns it. A missing book is answered
/// with `NotFound`.
pub fn delete_book(lib: &mut Library, id: u64) -> (result: Result<Book, Error>)
    requires
        old(lib).wf(),
    ensures
        final(lib).wf(),
        final(lib).book_shelf() == after_delete::<Book>(old(lib).book_shelf(), id),
        outcome(result) == delete_outcome::<Book>(old(lib).book_shelf(), id),
        final(lib).loans() == old(lib).loans(),
        final(lib).students() == old(lib).students(),
{
    proof {
        lib.unfold();
    }
    let result = delete(&mut lib.books, id);
    proof {
        lib.unfold();
        assert(lib.book_shelf() =~= after_delete::<Book>(old(lib).book_shelf(), id));
    }
    result
}

/// A payload with a blank title or author creates nothing: the answer is
/// `InvalidInput`, no id is taken, and no record is stored.
pub proof fn blank_text_creates_nothing(s: Shelf<BookView>, payload: BookPayloadView, now: u64)
    requires
        is_blank(payload.title) || is_blank(payload.author),
    ensures
        create_outcome::<BookPayload, Book>(s, payload, now) == Err::<BookView, ErrorView>(
            ErrorView::InvalidInput { msg: book_refusal() },
        ),
        after_create::<BookPayload, Book>(s, payload, now) == s,
{
}

} // verus!
