//! Students.

use crate::codec::{
    decode_text_record, encode_text_record, text_record_bytes, text_record_len, text_record_len_is,
    text_record_of, text_record_round_trip, TextFields, TEXT_HEADER,
};
use crate::error::{Error, ErrorView, Fatal};
use crate::library::Library;
use crate::book::Book;
use crate::loan::Loan;
use crate::record::{fits, lists, Record};
use crate::service::{
    after_create, after_delete, after_insert, after_update, create, create_obstacle, create_outcome,
    delete, delete_outcome, get_all, get_outcome, outcome, shelf_wf_grows, shelf_wf_insert,
    try_create, try_update, update, update_obstacle, update_outcome, Entity, Shelf,
};
use crate::storage::MAX_RECORD_SIZE;
use crate::text::{blank, is_blank};
use vstd::prelude::*;
use vstd::string::*;

verus! {

/// A student of the library.
#[derive(Debug, Clone, Default, PartialEq, Eq)]
pub struct Student {
    pub id: u64,
    pub name: String,
    pub email: String,
    pub created_at: u64,
    pub updated_at: Option<u64>,
}

/// What a request to create or update a student carries.
#[derive(Debug, Clone, Default, PartialEq, Eq)]
pub struct StudentPayload {
    pub name: String,
    pub email: String,
}

/// A `Student`, as contracts speak of it.
pub struct StudentView {
    pub id: u64,
    pub name: Seq<char>,
    pub email: Seq<char>,
    pub created_at: u64,
    pub updated_at: Option<u64>,
}

/// A `StudentPayload`, as contracts speak of it.
pub struct StudentPayloadView {
    pub name: Seq<char>,
    pub email: Seq<char>,
}

impl View for Student {
    type V = StudentView;

    open spec fn view(&self) -> StudentView {
        StudentView {
            id: self.id,
            name: self.name@,
            email: self.email@,
            created_at: self.created_at,
            updated_at: self.updated_at,
        }
    }
}

impl View for StudentPayload {
    type V = StudentPayloadView;

    open spec fn view(&self) -> StudentPayloadView {
        StudentPayloadView { name: self.name@, email: self.email@ }
    }
}

/// The fields of a student, as its byte form holds them.
pub open spec fn student_fields(student: StudentView) -> TextFields {
    TextFields {
        id: student.id,
        created_at: student.created_at,
        updated_at: student.updated_at,
        first: student.name,
        second: student.email,
    }
}

/// The student that the fields of a byte form make.
pub open spec fn student_of(fields: TextFields) -> StudentView {
    StudentView {
        id: fields.id,
        name: fields.first,
        email: fields.second,
        created_at: fields.created_at,
        updated_at: fields.updated_at,
    }
}

/// What a payload with a blank name or email is answered with.
pub open spec fn student_refusal() -> Seq<char> {
    "Name and email cannot be empty."@
}

impl Record for Student {
    open spec fn id_of(model: StudentView) -> u64 {
        model.id
    }

    open spec fn encoding(model: StudentView) -> Seq<u8> {
        text_record_bytes(student_fields(model))
    }

    open spec fn decoding(bytes: Seq<u8>) -> Option<StudentView> {
        match text_record_of(bytes) {
            Some(fields) => Some(student_of(fields)),
            None => None,
        }
    }

    proof fn round_trip(model: StudentView) {
        text_record_len_is(student_fields(model));
        text_record_round_trip(student_fields(model));
    }

    fn id(&self) -> (id: u64) {
        self.id
    }

    fn encoded_len(&self) -> (len: Option<usize>) {
        proof {
            text_record_len_is(student_fields(self@));
        }
        let name = self.name.as_str().as_bytes().len();
        let email = self.email.as_str().as_bytes().len();
        if name > MAX_RECORD_SIZE - TEXT_HEADER || email > MAX_RECORD_SIZE - TEXT_HEADER - name {
            None
        } else {
            Some(TEXT_HEADER + name + email)
        }
    }

    fn to_bytes(&self) -> (bytes: Vec<u8>) {
        encode_text_record(
            self.id,
            self.created_at,
            self.updated_at,
            self.name.as_str(),
            self.email.as_str(),
        )
    }

    fn try_from_bytes(bytes: &[u8]) -> (record: Option<Self>) {
        match decode_text_record(bytes) {
            Some((id, created_at, updated_at, name, email)) => Some(
                Student { id, name, email, created_at, updated_at },
            ),
            None => None,
        }
    }

    fn from_bytes(bytes: &[u8]) -> (record: Self) {
        Self::try_from_bytes(bytes).unwrap()
    }
}

impl Entity<StudentPayload> for Student {
    /// A payload is accepted where neither name nor email is blank.
    open spec fn accepts(payload: StudentPayloadView) -> bool {
        !is_blank(payload.name) && !is_blank(payload.email)
    }

    open spec fn refusal() -> Seq<char> {
        student_refusal()
    }

    open spec fn roomy(payload: StudentPayloadView) -> bool {
        text_record_len(payload.name, payload.email) <= MAX_RECORD_SIZE
    }

    open spec fn created(id: u64, payload: StudentPayloadView, now: u64) -> StudentView {
        StudentView {
            id,
            name: payload.name,
            email: payload.email,
            created_at: now,
            updated_at: None,
        }
    }

    open spec fn revised(
        before: StudentView,
        payload: StudentPayloadView,
        now: u64,
    ) -> StudentView {
        StudentView {
            id: before.id,
            name: payload.name,
            email: payload.email,
            created_at: before.created_at,
            updated_at: Some(now),
        }
    }

    open spec fn created_at(model: StudentView) -> u64 {
        model.created_at
    }

    open spec fn updated_at(model: StudentView) -> Option<u64> {
        model.updated_at
    }

    proof fn stamped(id: u64, before: StudentView, payload: StudentPayloadView, now: u64) {
        text_record_len_is(student_fields(Self::created(id, payload, now)));
        text_record_len_is(student_fields(Self::revised(before, payload, now)));
    }

    fn check(payload: &StudentPayload) -> (ok: bool) {
        !blank(payload.name.as_str()) && !blank(payload.email.as_str())
    }

    fn has_room(payload: &StudentPayload) -> (ok: bool) {
        let name = payload.name.as_str().as_bytes().len();
        let email = payload.email.as_str().as_bytes().len();
        name <= MAX_RECORD_SIZE - TEXT_HEADER && email <= MAX_RECORD_SIZE - TEXT_HEADER - name
    }

    fn refuse() -> (msg: String) {
        "Name and email cannot be empty.".to_owned()
    }

    fn create(id: u64, payload: StudentPayload, now: u64) -> (record: Student) {
        Student {
            id,
            name: payload.name,
            email: payload.email,
            created_at: now,
            updated_at: None,
        }
    }

    fn revise(self, payload: StudentPayload, now: u64) -> (record: Student) {
        let mut student = self;
        student.name = payload.name;
        student.email = payload.email;
        student.updated_at = Some(now);
        student
    }
}

/// Every student, in ascending order of id. Never fails.
pub fn get_all_students(lib: &Library) -> (result: Result<Vec<Student>, Error>)
    requires
        lib.wf(),
    ensures
        result matches Ok(students) && lists(students@, lib.students()),
{
    let students = _get_all_students(lib);
    Ok(students)
}

/// Every student, in ascending order of id.
pub fn _get_all_students(lib: &Library) -> (students: Vec<Student>)
    requires
        lib.wf(),
    ensures
        lists(students@, lib.students()),
{
    proof {
        lib.unfold();
    }
    get_all(&lib.students)
}

/// The student under `id`, or `NotFound`.
pub fn get_student(lib: &Library, id: u64) -> (result: Result<Student, Error>)
    requires
        lib.wf(),
    ensures
        outcome(result) == get_outcome::<Student>(lib.student_shelf(), id),
{
    match _get_student(lib, &id) {
        Some(student) => Ok(student),
        None => Err(Error::NotFound { id }),
    }
}

/// The student under `id`, if there is one.
pub fn _get_student(lib: &Library, id: &u64) -> (found: Option<Student>)
    requires
        lib.wf(),
    ensures
        found is Some <==> lib.students().contains_key(*id),
        found matches Some(student) ==> student@ == lib.students()[*id],
{
    proof {
        lib.unfold();
    }
    lib.students.get(*id)
}

/// Adds a student. A payload with a blank name or email is answered with
/// `InvalidInput` and changes nothing: no id is taken. Else the student gets
/// the next id and the time `now` as its creation time, is stored, and is
/// returned. Asks that nothing stands in the way; `try_add_student` tests that.
pub fn add_student(lib: &mut Library, payload: StudentPayload, now: u64) -> (result: Result<
    Student,
    Error,
>)
    requires
        old(lib).wf(),
        create_obstacle::<StudentPayload, Student>(old(lib).student_shelf(), payload@) is None,
    ensures
        final(lib).wf(),
        final(lib).student_shelf() == after_create::<StudentPayload, Student>(
            old(lib).student_shelf(),
            payload@,
            now,
        ),
        outcome(result) == create_outcome::<StudentPayload, Student>(
            old(lib).student_shelf(),
            payload@,
            now,
        ),
        final(lib).books() == old(lib).books(),
        final(lib).loans() == old(lib).loans(),
{
    proof {
        lib.unfold();
    }
    let result = create(&mut lib.ids, &mut lib.students, payload, now);
    proof {
        lib.unfold();
        Student::stamped(old(lib).next_id(), Student::created(0, payload@, now), payload@, now);
        assert(lib.student_shelf() =~= after_create::<StudentPayload, Student>(
            old(lib).student_shelf(),
            payload@,
            now,
        ));
        shelf_wf_grows::<Book>(old(lib).book_shelf(), lib.next_id());
        shelf_wf_grows::<Loan>(old(lib).loan_shelf(), lib.next_id());
    }
    result
}

/// Adds a student as `add_student` does where nothing stands in the way, and says
/// what does where something does: no id is left, or the student would be
/// longer than a table accepts. The library is then as before.
pub fn try_add_student(lib: &mut Library, payload: StudentPayload, now: u64) -> (result: Result<
    Result<Student, Error>,
    Fatal,
>)
    requires
        old(lib).wf(),
    ensures
        final(lib).wf(),
        match create_obstacle::<StudentPayload, Student>(old(lib).student_shelf(), payload@) {
            Some(fatal) => {
                &&& result == Err::<Result<Student, Error>, Fatal>(fatal)
                &&& final(lib).student_shelf() == old(lib).student_shelf()
            },
            None => {
                &&& result matches Ok(served)
                &&& outcome(served) == create_outcome::<StudentPayload, Student>(
                    old(lib).student_shelf(),
                    payload@,
                    now,
                )
                &&& final(lib).student_shelf() == after_create::<StudentPayload, Student>(
                    old(lib).student_shelf(),
                    payload@,
                    now,
                )
            },
        },
        final(lib).books() == old(lib).books(),
        final(lib).loans() == old(lib).loans(),
{
    proof {
        lib.unfold();
    }
    let result = try_create(&mut lib.ids, &mut lib.students, payload, now);
    proof {
        lib.unfold();
        Student::stamped(old(lib).next_id(), Student::created(0, payload@, now), payload@, now);
        if result is Ok {
            assert(lib.student_shelf() =~= after_create::<StudentPayload, Student>(
                old(lib).student_shelf(),
                payload@,
                now,
            ));
        } else {
            assert(lib.student_shelf() =~= old(lib).student_shelf());
        }
        shelf_wf_grows::<Book>(old(lib).book_shelf(), lib.next_id());
        shelf_wf_grows::<Loan>(old(lib).loan_shelf(), lib.next_id());
    }
    result
}

/// Stores a student as it is under its id, in place of what was there. The
/// id is one that the library handed out, in use or not: this is the one
/// request that can put a record under the id of a deleted one.
pub fn do_insert(lib: &mut Library, student: &Student)
    requires
        old(lib).wf(),
        fits::<Student>(student@),
        student.id < old(lib).next_id(),
    ensures
        final(lib).wf(),
        final(lib).student_shelf() == after_insert::<Student>(old(lib).student_shelf(), student@),
        final(lib).books() == old(lib).books(),
        final(lib).loans() == old(lib).loans(),
{
    proof {
        lib.unfold();
    }
    lib.students.insert(student);
    proof {
        lib.unfold();
        shelf_wf_insert::<Student>(old(lib).student_shelf(), student@);
        assert(lib.student_shelf() =~= after_insert::<Student>(old(lib).student_shelf(), student@));
    }
}

/// Updates the student under `id`. A payload with a blank name or email is
/// answered with `InvalidInput`, a missing student with `NotFound`; neither
/// changes anything. Else name and email are replaced, the update time
/// becomes `now`, id and creation time stay, and the student is stored and
/// returned. Asks that nothing stands in the way; `try_update_student` tests
/// that.
pub fn update_student(
    lib: &mut Library,
    id: u64,
    payload: StudentPayload,
    now: u64,
) -> (result: Result<Student, Error>)
    requires
        old(lib).wf(),
        update_obstacle::<StudentPayload, Student>(old(lib).student_shelf(), id, payload@) is None,
    ensures
        final(lib).wf(),
        final(lib).student_shelf() == after_update::<StudentPayload, Student>(
            old(lib).student_shelf(),
            id,
            payload@,
            now,
        ),
        outcome(result) == update_outcome::<StudentPayload, Student>(
            old(lib).student_shelf(),
            id,
            payload@,
            now,
        ),
        final(lib).books() == old(lib).books(),
        final(lib).loans() == old(lib).loans(),
{
    proof {
        lib.unfold();
    }
    let result = update(&mut lib.students, id, payload, now);
    proof {
        lib.unfold();
        assert(lib.student_shelf() =~= after_update::<StudentPayload, Student>(
            old(lib).student_shelf(),
            id,
            payload@,
            now,
        ));
    }
    result
}

/// Updates the student under `id` as `update_student` does where nothing stands
/// in the way, and says what does where something does: the student would
/// be longer than a table accepts. The library is then as before.
pub fn try_update_student(
    lib: &mut Library,
    id: u64,
    payload: StudentPayload,
    now: u64,
) -> (result: Result<Result<Student, Error>, Fatal>)
    requires
        old(lib).wf(),
    ensures
        final(lib).wf(),
        match update_obstacle::<StudentPayload, Student>(old(lib).student_shelf(), id, payload@) {
            Some(fatal) => {
                &&& result == Err::<Result<Student, Error>, Fatal>(fatal)
                &&& final(lib).student_shelf() == old(lib).student_shelf()
            },
            None => {
                &&& result matches Ok(served)
                &&& outcome(served) == update_outcome::<StudentPayload, Student>(
                    old(lib).student_shelf(),
                    id,
                    payload@,
                    now,
                )
                &&& final(lib).student_shelf() == after_update::<StudentPayload, Student>(
                    old(lib).student_shelf(),
                    id,
                    payload@,
                    now,
                )
            },
        },
        final(lib).books() == old(lib).books(),
        final(lib).loans() == old(lib).loans(),
{
    proof {
        lib.unfold();
    }
    let result = try_update(&mut lib.students, id, payload, now);
    proof {
        lib.unfold();
        let before = old(lib).student_shelf();
        assert(update_obstacle::<StudentPayload, Student>(before, id, payload@)
            == update_obstacle::<StudentPayload, Student>(
            Shelf { next_id: before.next_id, records: old(lib).students@ },
            id,
            payload@,
        ));
        if result is Ok {
            assert(lib.student_shelf() =~= after_update::<StudentPayload, Student>(
                before,
                id,
                payload@,
                now,
            ));
        } else {
            assert(lib.student_shelf() =~= before);
        }
    }
    result
}

/// Deletes the student under `id` and returns it. A missing student is answered
/// with `NotFound`.
pub fn delete_student(lib: &mut Library, id: u64) -> (result: Result<Student, Error>)
    requires
        old(lib).wf(),
    ensures
        final(lib).wf(),
        final(lib).student_shelf() == after_delete::<Student>(old(lib).student_shelf(), id),
        outcome(result) == delete_outcome::<Student>(old(lib).student_shelf(), id),
        final(lib).books() == old(lib).books(),
        final(lib).loans() == old(lib).loans(),
{
    proof {
        lib.unfold();
    }
    let result = delete(&mut lib.students, id);
    proof {
        lib.unfold();
        assert(lib.student_shelf() =~= after_delete::<Student>(old(lib).student_shelf(), id));
    }
    result
}

/// A payload with a blank name or email creates nothing: the answer is
/// `InvalidInput`, no id is taken, and no record is stored.
pub proof fn blank_text_creates_nothing(
    s: Shelf<StudentView>,
    payload: StudentPayloadView,
    now: u64,
)
    requires
        is_blank(payload.name) || is_blank(payload.email),
    ensures
        create_outcome::<StudentPayload, Student>(s, payload, now) == Err::<StudentView, ErrorView>(
            ErrorView::InvalidInput { msg: student_refusal() },
        ),
        after_create::<StudentPayload, Student>(s, payload, now) == s,
{
}

} // verus!
