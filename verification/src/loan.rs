//! Loans.

use crate::book::Book;
use crate::codec::{
    decode_loan_record, encode_loan_record, loan_record_bytes, loan_record_of,
    loan_record_round_trip, LoanFields, LOAN_LEN,
};
use crate::error::{Error, ErrorView, Fatal};
use crate::library::Library;
use crate::record::{lists, Record};
use crate::service::{
    after_create, after_delete, after_insert, after_update, create, create_obstacle, create_outcome,
    delete, delete_outcome, get_all, get_outcome, outcome, shelf_wf_grows, shelf_wf_insert,
    try_create, update, update_outcome, Entity, Shelf,
};
use crate::student::Student;
use vstd::prelude::*;
use vstd::string::*;

verus! {

/// A loan of a book to a student. Neither id is held against the tables
/// of students and books.
#[derive(Debug, Clone, PartialEq, Eq)]
pub struct Loan {
    pub id: u64,
    pub student_id: u64,
    pub book_id: u64,
    pub loan_date: u64,
    pub created_at: u64,
    pub updated_at: Option<u64>,
}

/// What a request to create or update a loan carries.
#[derive(Debug, Clone, Default, PartialEq, Eq)]
pub struct LoanPayload {
    pub student_id: u64,
    pub book_id: u64,
    pub loan_date: u64,
}

/// A `Loan`, as contracts speak of it.
pub struct LoanView {
    pub id: u64,
    pub student_id: u64,
    pub book_id: u64,
    pub loan_date: u64,
    pub created_at: u64,
    pub updated_at: Option<u64>,
}

/// A `LoanPayload`, as contracts speak of it.
pub struct LoanPayloadView {
    pub student_id: u64,
    pub book_id: u64,
    pub loan_date: u64,
}

impl View for Loan {
    type V = LoanView;

    open spec fn view(&self) -> LoanView {
        LoanView {
            id: self.id,
            student_id: self.student_id,
            book_id: self.book_id,
            loan_date: self.loan_date,
            created_at: self.created_at,
            updated_at: self.updated_at,
        }
    }
}

impl View for LoanPayload {
    type V = LoanPayloadView;

    open spec fn view(&self) -> LoanPayloadView {
        LoanPayloadView {
            student_id: self.student_id,
            book_id: self.book_id,
            loan_date: self.loan_date,
        }
    }
}

/// The fields of a loan, as its byte form holds them.
pub open spec fn loan_fields(loan: LoanView) -> LoanFields {
    LoanFields {
        id: loan.id,
        student_id: loan.student_id,
        book_id: loan.book_id,
        loan_date: loan.loan_date,
        created_at: loan.created_at,
        updated_at: loan.updated_at,
    }
}

/// The loan that the fields of a byte form make.
pub open spec fn loan_of(fields: LoanFields) -> LoanView {
    LoanView {
        id: fields.id,
        student_id: fields.student_id,
        book_id: fields.book_id,
        loan_date: fields.loan_date,
        created_at: fields.created_at,
        updated_at: fields.updated_at,
    }
}

/// What a payload with a zero in it is answered with.
pub open spec fn loan_refusal() -> Seq<char> {
    "Student ID, Book ID, and Loan Date must be non-zero."@
}

impl Record for Loan {
    open spec fn id_of(model: LoanView) -> u64 {
        model.id
    }

    open spec fn encoding(model: LoanView) -> Seq<u8> {
        loan_record_bytes(loan_fields(model))
    }

    open spec fn decoding(bytes: Seq<u8>) -> Option<LoanView> {
        match loan_record_of(bytes) {
            Some(fields) => Some(loan_of(fields)),
            None => None,
        }
    }

    proof fn round_trip(model: LoanView) {
        loan_record_round_trip(loan_fields(model));
    }

    fn id(&self) -> (id: u64) {
        self.id
    }

    fn encoded_len(&self) -> (len: Option<usize>) {
        proof {
            loan_record_round_trip(loan_fields(self@));
        }
        Some(LOAN_LEN)
    }

    fn to_bytes(&self) -> (bytes: Vec<u8>) {
        encode_loan_record(
            self.id,
            self.student_id,
            self.book_id,
            self.loan_date,
            self.created_at,
            self.updated_at,
        )
    }

    fn try_from_bytes(bytes: &[u8]) -> (record: Option<Self>) {
        match decode_loan_record(bytes) {
            Some((id, student_id, book_id, loan_date, created_at, updated_at)) => Some(
                Loan { id, student_id, book_id, loan_date, created_at, updated_at },
            ),
            None => None,
        }
    }

    fn from_bytes(bytes: &[u8]) -> (record: Self) {
        Self::try_from_bytes(bytes).unwrap()
    }
}

impl Entity<LoanPayload> for Loan {
    /// A payload is accepted where none of its numbers is zero.
    open spec fn accepts(payload: LoanPayloadView) -> bool {
        payload.student_id != 0 && payload.book_id != 0 && payload.loan_date != 0
    }

    open spec fn refusal() -> Seq<char> {
        loan_refusal()
    }

    /// Every loan has the same length.
    open spec fn roomy(payload: LoanPayloadView) -> bool {
        true
    }

    open spec fn created(id: u64, payload: LoanPayloadView, now: u64) -> LoanView {
        LoanView {
            id,
            student_id: payload.student_id,
            book_id: payload.book_id,
            loan_date: payload.loan_date,
            created_at: now,
            updated_at: None,
        }
    }

    open spec fn revised(before: LoanView, payload: LoanPayloadView, now: u64) -> LoanView {
        LoanView {
            id: before.id,
            student_id: payload.student_id,
            book_id: payload.book_id,
            loan_date: payload.loan_date,
            created_at: before.created_at,
            updated_at: Some(now),
        }
    }

    open spec fn created_at(model: LoanView) -> u64 {
        model.created_at
    }

    open spec fn updated_at(model: LoanView) -> Option<u64> {
        model.updated_at
    }

    proof fn stamped(id: u64, before: LoanView, payload: LoanPayloadView, now: u64) {
        loan_record_round_trip(loan_fields(Self::created(id, payload, now)));
        loan_record_round_trip(loan_fields(Self::revised(before, payload, now)));
    }

    fn check(payload: &LoanPayload) -> (ok: bool) {
        !(payload.student_id == 0 || payload.book_id == 0 || payload.loan_date == 0)
    }

    fn has_room(payload: &LoanPayload) -> (ok: bool) {
        true
    }

    fn refuse() -> (msg: String) {
        "Student ID, Book ID, and Loan Date must be non-zero.".to_owned()
    }

    fn create(id: u64, payload: LoanPayload, now: u64) -> (record: Loan) {
        Loan {
            id,
            student_id: payload.student_id,
            book_id: payload.book_id,
            loan_date: payload.loan_date,
            created_at: now,
            updated_at: None,
        }
    }

    fn revise(self, payload: LoanPayload, now: u64) -> (record: Loan) {
        let mut loan = self;
        loan.student_id = payload.student_id;
        loan.book_id = payload.book_id;
        loan.loan_date = payload.loan_date;
        loan.updated_at = Some(now);
        loan
    }
}

/// Every loan, in ascending order of id. Never fails.
pub fn get_all_loans(lib: &Library) -> (result: Result<Vec<Loan>, Error>)
    requires
        lib.wf(),
    ensures
        result matches Ok(loans) && lists(loans@, lib.loans()),
{
    let loans = _get_all_loans(lib);
    Ok(loans)
}

/// Every loan, in ascending order of id.
pub fn _get_all_loans(lib: &Library) -> (loans: Vec<Loan>)
    requires
        lib.wf(),
    ensures
        lists(loans@, lib.loans()),
{
    proof {
        lib.unfold();
    }
    get_all(&lib.loans)
}

/// The loan under `id`, or `NotFound`.
pub fn get_loan(lib: &Library, id: u64) -> (result: Result<Loan, Error>)
    requires
        lib.wf(),
    ensures
        outcome(result) == get_outcome::<Loan>(lib.loan_shelf(), id),
{
    match _get_loan(lib, &id) {
        Some(loan) => Ok(loan),
        None => Err(Error::NotFound { id }),
    }
}

/// The loan under `id`, if there is one.
pub fn _get_loan(lib: &Library, id: &u64) -> (found: Option<Loan>)
    requires
        lib.wf(),
    ensures
        found is Some <==> lib.loans().contains_key(*id),
        found matches Some(loan) ==> loan@ == lib.loans()[*id],
{
    proof {
        lib.unfold();
    }
    lib.loans.get(*id)
}

/// Adds a loan. A payload with a zero in it is answered with
/// `InvalidInput` and changes nothing: no id is taken. Else the loan gets
/// the next id and the time `now` as its creation time, is stored, and is
/// returned. Asks that nothing stands in the way; `try_add_loan` tests that.
pub fn add_loan(lib: &mut Library, payload: LoanPayload, now: u64) -> (result: Result<
    Loan,
    Error,
>)
    requires
        old(lib).wf(),
        create_obstacle::<LoanPayload, Loan>(old(lib).loan_shelf(), payload@) is None,
    ensures
        final(lib).wf(),
        final(lib).loan_shelf() == after_create::<LoanPayload, Loan>(
            old(lib).loan_shelf(),
            payload@,
            now,
        ),
        outcome(result) == create_outcome::<LoanPayload, Loan>(
            old(lib).loan_shelf(),
            payload@,
            now,
        ),
        final(lib).books() == old(lib).books(),
        final(lib).students() == old(lib).students(),
{
    proof {
        lib.unfold();
    }
    let result = create(&mut lib.ids, &mut lib.loans, payload, now);
    proof {
        lib.unfold();
        Loan::stamped(old(lib).next_id(), Loan::created(0, payload@, now), payload@, now);
        assert(lib.loan_shelf() =~= after_create::<LoanPayload, Loan>(
            old(lib).loan_shelf(),
            payload@,
            now,
        ));
        shelf_wf_grows::<Book>(old(lib).book_shelf(), lib.next_id());
        shelf_wf_grows::<Student>(old(lib).student_shelf(), lib.next_id());
    }
    result
}

/// Adds a loan as `add_loan` does where nothing stands in the way, and says
/// what does where something does: no id is left, or the loan would be
/// longer than a table accepts. The library is then as before.
pub fn try_add_loan(lib: &mut Library, payload: LoanPayload, now: u64) -> (result: Result<
    Result<Loan, Error>,
    Fatal,
>)
    requires
        old(lib).wf(),
    ensures
        final(lib).wf(),
        match create_obstacle::<LoanPayload, Loan>(old(lib).loan_shelf(), payload@) {
            Some(fatal) => {
                &&& result == Err::<Result<Loan, Error>, Fatal>(fatal)
                &&& final(lib).loan_shelf() == old(lib).loan_shelf()
            },
            None => {
                &&& result matches Ok(served)
                &&& outcome(served) == create_outcome::<LoanPayload, Loan>(
                    old(lib).loan_shelf(),
                    payload@,
                    now,
                )
                &&& final(lib).loan_shelf() == after_create::<LoanPayload, Loan>(
                    old(lib).loan_shelf(),
                    payload@,
                    now,
                )
            },
        },
        final(lib).books() == old(lib).books(),
        final(lib).students() == old(lib).students(),
{
    proof {
        lib.unfold();
    }
    let result = try_create(&mut lib.ids, &mut lib.loans, payload, now);
    proof {
        lib.unfold();
        Loan::stamped(old(lib).next_id(), Loan::created(0, payload@, now), payload@, now);
        if result is Ok {
            assert(lib.loan_shelf() =~= after_create::<LoanPayload, Loan>(
                old(lib).loan_shelf(),
                payload@,
                now,
            ));
        } else {
            assert(lib.loan_shelf() =~= old(lib).loan_shelf());
        }
        shelf_wf_grows::<Book>(old(lib).book_shelf(), lib.next_id());
        shelf_wf_grows::<Student>(old(lib).student_shelf(), lib.next_id());
    }
    result
}

/// Stores a loan as it is under its id, in place of what was there. The
/// id is one that the library handed out, in use or not: this is the one
/// request that can put a record under the id of a deleted one.
pub fn do_insert(lib: &mut Library, loan: &Loan)
    requires
        old(lib).wf(),
        loan.id < old(lib).next_id(),
    ensures
        final(lib).wf(),
        final(lib).loan_shelf() == after_insert::<Loan>(old(lib).loan_shelf(), loan@),
        final(lib).books() == old(lib).books(),
        final(lib).students() == old(lib).students(),
{
    proof {
        lib.unfold();
        loan_record_round_trip(loan_fields(loan@));
    }
    lib.loans.insert(loan);
    proof {
        lib.unfold();
        shelf_wf_insert::<Loan>(old(lib).loan_shelf(), loan@);
        assert(lib.loan_shelf() =~= after_insert::<Loan>(old(lib).loan_shelf(), loan@));
    }
}

/// Updates the loan under `id`. A payload with a zero in it is
/// answered with `InvalidInput`, a missing loan with `NotFound`; neither
/// changes anything. Else the three numbers are replaced, the update time
/// becomes `now`, id and creation time stay, and the loan is stored and
/// returned.
pub fn update_loan(lib: &mut Library, id: u64, payload: LoanPayload, now: u64) -> (result: Result<
    Loan,
    Error,
>)
    requires
        old(lib).wf(),
    ensures
        final(lib).wf(),
        final(lib).loan_shelf() == after_update::<LoanPayload, Loan>(
            old(lib).loan_shelf(),
            id,
            payload@,
            now,
        ),
        outcome(result) == update_outcome::<LoanPayload, Loan>(
            old(lib).loan_shelf(),
            id,
            payload@,
            now,
        ),
        final(lib).books() == old(lib).books(),
        final(lib).students() == old(lib).students(),
{
    proof {
        lib.unfold();
    }
    let result = update(&mut lib.loans, id, payload, now);
    proof {
        lib.unfold();
        assert(lib.loan_shelf() =~= after_update::<LoanPayload, Loan>(
            old(lib).loan_shelf(),
            id,
            payload@,
            now,
        ));
    }
    result
}

/// Deletes the loan under `id` and returns it. A missing loan is answered
/// with `NotFound`.
pub fn delete_loan(lib: &mut Library, id: u64) -> (result: Result<Loan, Error>)
    requires
        old(lib).wf(),
    ensures
        final(lib).wf(),
        final(lib).loan_shelf() == after_delete::<Loan>(old(lib).loan_shelf(), id),
        outcome(result) == delete_outcome::<Loan>(old(lib).loan_shelf(), id),
        final(lib).books() == old(lib).books(),
        final(lib).students() == old(lib).students(),
{
    proof {
        lib.unfold();
    }
    let result = delete(&mut lib.loans, id);
    proof {
        lib.unfold();
        assert(lib.loan_shelf() =~= after_delete::<Loan>(old(lib).loan_shelf(), id));
    }
    result
}

/// A payload with a zero in it creates nothing: the answer is
/// `InvalidInput`, no id is taken, and no record is stored.
pub proof fn zero_creates_nothing(s: Shelf<LoanView>, payload: LoanPayloadView, now: u64)
    requires
        payload.student_id == 0 || payload.book_id == 0 || payload.loan_date == 0,
    ensures
        create_outcome::<LoanPayload, Loan>(s, payload, now) == Err::<LoanView, ErrorView>(
            ErrorView::InvalidInput { msg: loan_refusal() },
        ),
        after_create::<LoanPayload, Loan>(s, payload, now) == s,
{
}

} // verus!
