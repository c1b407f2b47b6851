use library_store::book::{
    _get_all_books, add_book, delete_book, get_book, try_add_book, try_update_book, update_book,
    BookPayload,
};
use library_store::error::{Error, Fatal};
use library_store::library::Library;
use library_store::loan::{_get_all_loans, add_loan, try_add_loan, LoanPayload};
use library_store::student::{
    _get_all_students, try_add_student, try_update_student, StudentPayload,
};

fn book(title: &str, author: &str) -> BookPayload {
    BookPayload { title: title.to_string(), author: author.to_string() }
}

#[test]
fn a_book_at_the_size_limit_is_stored_and_found() {
    let mut lib = Library::open(0).unwrap();
    let large = BookPayload { title: "t".repeat(500), author: "a".repeat(491) };
    let created = add_book(&mut lib, large, 1).unwrap();
    let found = get_book(&lib, created.id).unwrap();
    assert_eq!(found.title.len(), 500);
    assert_eq!(found.author.len(), 491);
    let shrunk = update_book(&mut lib, created.id, book("t", "a"), 2).unwrap();
    assert_eq!(get_book(&lib, created.id), Ok(shrunk));
}

#[test]
fn the_last_id_but_one_can_still_be_given() {
    let mut lib = Library::open(u64::MAX - 1).unwrap();
    let loan =
        add_loan(&mut lib, LoanPayload { student_id: 1, book_id: 1, loan_date: 1 }, 1).unwrap();
    assert_eq!(loan.id, u64::MAX - 1);
    assert_eq!(lib.peek_next_id(), u64::MAX);
}

#[test]
fn with_no_id_left_nothing_is_created_and_nothing_changes() {
    let mut lib = Library::open(u64::MAX).unwrap();
    assert_eq!(try_add_book(&mut lib, book("Dune", "Herbert"), 1), Err(Fatal::OutOfIds));
    assert_eq!(
        try_add_student(
            &mut lib,
            StudentPayload { name: "Ada".to_string(), email: "a@b".to_string() },
            1
        ),
        Err(Fatal::OutOfIds)
    );
    assert_eq!(
        try_add_loan(&mut lib, LoanPayload { student_id: 1, book_id: 1, loan_date: 1 }, 1),
        Err(Fatal::OutOfIds)
    );
    assert_eq!(lib.peek_next_id(), u64::MAX);
    assert_eq!(_get_all_books(&lib), vec![]);
    assert_eq!(_get_all_students(&lib), vec![]);
    assert_eq!(_get_all_loans(&lib), vec![]);
    assert_eq!(
        try_add_book(&mut lib, book(" ", "Herbert"), 1),
        Ok(Err(Error::InvalidInput { msg: "Title and author cannot be empty.".to_string() }))
    );
}

#[test]
fn a_record_beyond_the_size_limit_is_not_stored() {
    let mut lib = Library::open(0).unwrap();
    let too_large = || BookPayload { title: "t".repeat(900), author: "a".repeat(92) };
    assert_eq!(try_add_book(&mut lib, too_large(), 1), Err(Fatal::RecordTooLarge));
    assert_eq!(lib.peek_next_id(), 0);
    assert_eq!(_get_all_books(&lib), vec![]);

    assert_eq!(try_update_book(&mut lib, 0, too_large(), 2), Ok(Err(Error::NotFound { id: 0 })));
    let created = try_add_book(&mut lib, book("Dune", "Herbert"), 3).unwrap().unwrap();
    assert_eq!(created.id, 0);
    assert_eq!(try_update_book(&mut lib, 0, too_large(), 4), Err(Fatal::RecordTooLarge));
    assert_eq!(get_book(&lib, 0), Ok(created.clone()));
    let updated = try_update_book(&mut lib, 0, book("Dune", "F. Herbert"), 5).unwrap().unwrap();
    assert_eq!(updated.author, "F. Herbert");
    assert_eq!(updated.updated_at, Some(5));
    assert_eq!(
        try_update_book(&mut lib, 0, BookPayload { title: String::new(), ..too_large() }, 6),
        Ok(Err(Error::InvalidInput { msg: "Title and author cannot be empty.".to_string() }))
    );

    let wide = StudentPayload { name: "é".repeat(400), email: "é".repeat(96) };
    assert_eq!(try_add_student(&mut lib, wide, 7), Err(Fatal::RecordTooLarge));
    let fits = StudentPayload { name: "é".repeat(400), email: "é".repeat(95) };
    let student = try_add_student(&mut lib, fits, 8).unwrap().unwrap();
    assert_eq!(student.id, 1);
    let wide = StudentPayload { name: "é".repeat(400), email: "é".repeat(96) };
    assert_eq!(try_update_student(&mut lib, 1, wide, 9), Err(Fatal::RecordTooLarge));
    assert_eq!(_get_all_students(&lib), vec![student]);
}

#[test]
fn many_records_of_all_sizes_come_back_in_order() {
    let mut lib = Library::open(0).unwrap();
    let mut expected = vec![];
    for n in 0..300usize {
        let payload =
            BookPayload { title: "t".repeat(1 + n % 400), author: "a".repeat(1 + n % 300) };
        expected.push(add_book(&mut lib, payload, n as u64).unwrap());
    }
    for n in (0..300u64).step_by(3) {
        delete_book(&mut lib, n).unwrap();
    }
    expected.retain(|book| book.id % 3 != 0);
    assert_eq!(_get_all_books(&lib), expected);
}
