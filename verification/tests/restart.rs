use library_store::book::{_get_all_books, add_book, delete_book, get_book, BookPayload};
use library_store::error::Error;
use library_store::library::{Library, BOOKS_TAG, IDS_TAG, LOANS_TAG, STUDENTS_TAG};
use library_store::loan::{_get_all_loans, add_loan, LoanPayload};
use library_store::student::{_get_all_students, add_student, StudentPayload};

fn book(title: &str) -> BookPayload {
    BookPayload { title: title.to_string(), author: "Anon".to_string() }
}

#[test]
fn a_restart_keeps_the_records_and_the_counter() {
    let mut lib = Library::open(0).unwrap();
    let first = add_book(&mut lib, book("One"), 1).unwrap();
    let second = add_book(&mut lib, book("Two"), 2).unwrap();
    let student = add_student(
        &mut lib,
        StudentPayload { name: "Ada".to_string(), email: "ada@example.org".to_string() },
        3,
    )
    .unwrap();
    let loan = add_loan(
        &mut lib,
        LoanPayload { student_id: student.id, book_id: second.id, loan_date: 9 },
        4,
    )
    .unwrap();
    delete_book(&mut lib, first.id).unwrap();

    let mut lib = lib.reopen().expect("what the library wrote opens again");
    assert_eq!(lib.peek_next_id(), 4);
    assert_eq!(_get_all_books(&lib), vec![second.clone()]);
    assert_eq!(_get_all_students(&lib), vec![student]);
    assert_eq!(_get_all_loans(&lib), vec![loan]);
    assert_eq!(get_book(&lib, first.id), Err(Error::NotFound { id: first.id }));

    let third = add_book(&mut lib, book("Three"), 5).unwrap();
    assert_eq!(third.id, 4);
    assert_eq!(_get_all_books(&lib), vec![second, third]);
}

#[test]
fn a_restart_of_an_empty_library_keeps_its_first_id() {
    let lib = Library::open(12).unwrap();
    let mut lib = lib.reopen().unwrap();
    assert_eq!(lib.peek_next_id(), 12);
    assert_eq!(add_book(&mut lib, book("One"), 1).unwrap().id, 12);
}

#[test]
fn a_library_can_be_restarted_again_and_again() {
    let mut lib = Library::open(3).unwrap();
    let mut expected = vec![];
    for round in 0..5u64 {
        expected.push(add_book(&mut lib, book("Round"), round).unwrap());
        lib = lib.reopen().expect("what the library wrote opens again");
        assert_eq!(lib.peek_next_id(), 4 + round);
        assert_eq!(_get_all_books(&lib), expected);
    }
}

#[test]
fn the_counter_and_the_tables_stand_on_four_different_segments() {
    let tags = [IDS_TAG, STUDENTS_TAG, BOOKS_TAG, LOANS_TAG];
    for (i, a) in tags.iter().enumerate() {
        assert_ne!(*a, 255);
        for b in &tags[i + 1..] {
            assert_ne!(a, b);
        }
    }
}

#[test]
fn records_of_one_kind_do_not_show_among_those_of_another() {
    let mut lib = Library::open(0).unwrap();
    let first = add_book(&mut lib, book("One"), 1).unwrap();
    let student = add_student(
        &mut lib,
        StudentPayload { name: "Ada".to_string(), email: "ada@example.org".to_string() },
        2,
    )
    .unwrap();
    assert_eq!(_get_all_books(&lib), vec![first.clone()]);
    assert_eq!(_get_all_students(&lib), vec![student.clone()]);
    assert_eq!(_get_all_loans(&lib), vec![]);
    let lib = lib.reopen().unwrap();
    assert_eq!(_get_all_books(&lib), vec![first]);
    assert_eq!(_get_all_students(&lib), vec![student]);
    assert_eq!(_get_all_loans(&lib), vec![]);
}
