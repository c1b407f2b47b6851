use library_store::error::Error;
use library_store::library::Library;
use library_store::loan::{
    _get_all_loans, _get_loan, add_loan, delete_loan, do_insert, get_all_loans, get_loan,
    update_loan, Loan, LoanPayload,
};

fn payload(student_id: u64, book_id: u64, loan_date: u64) -> LoanPayload {
    LoanPayload { student_id, book_id, loan_date }
}

#[test]
fn a_loan_goes_through_the_whole_cycle() {
    let mut lib = Library::open(0).unwrap();
    assert_eq!(get_all_loans(&lib), Ok(vec![]));

    let loan = add_loan(&mut lib, payload(3, 4, 20240101), 50).unwrap();
    assert_eq!(
        loan,
        Loan {
            id: 0,
            student_id: 3,
            book_id: 4,
            loan_date: 20240101,
            created_at: 50,
            updated_at: None,
        }
    );
    assert_eq!(get_loan(&lib, 0), Ok(loan.clone()));
    assert_eq!(_get_loan(&lib, &0), Some(loan));

    let later = update_loan(&mut lib, 0, payload(3, 5, 20240202), 60).unwrap();
    assert_eq!(
        later,
        Loan {
            id: 0,
            student_id: 3,
            book_id: 5,
            loan_date: 20240202,
            created_at: 50,
            updated_at: Some(60),
        }
    );
    assert_eq!(_get_all_loans(&lib), vec![later.clone()]);

    assert_eq!(delete_loan(&mut lib, 0), Ok(later));
    assert_eq!(get_loan(&lib, 0), Err(Error::NotFound { id: 0 }));
    assert_eq!(update_loan(&mut lib, 0, payload(1, 1, 1), 70), Err(Error::NotFound { id: 0 }));
}

#[test]
fn a_zero_in_the_payload_is_refused() {
    let mut lib = Library::open(0).unwrap();
    let refused = Err(Error::InvalidInput {
        msg: "Student ID, Book ID, and Loan Date must be non-zero.".to_string(),
    });
    assert_eq!(add_loan(&mut lib, payload(0, 4, 5), 1), refused);
    assert_eq!(add_loan(&mut lib, payload(3, 0, 5), 1), refused);
    assert_eq!(add_loan(&mut lib, payload(3, 4, 0), 1), refused);
    assert_eq!(add_loan(&mut lib, LoanPayload::default(), 1), refused);
    assert_eq!(update_loan(&mut lib, 0, payload(0, 4, 5), 1), refused);
    assert_eq!(lib.peek_next_id(), 0);
    assert_eq!(_get_all_loans(&lib), vec![]);
}

#[test]
fn a_loan_may_name_a_student_and_a_book_that_do_not_exist() {
    let mut lib = Library::open(0).unwrap();
    let loan = add_loan(&mut lib, payload(999, u64::MAX, 1), 1).unwrap();
    assert_eq!(loan.student_id, 999);
    assert_eq!(loan.book_id, u64::MAX);
    assert_eq!(get_loan(&lib, loan.id), Ok(loan));
}

#[test]
fn an_inserted_loan_replaces_the_one_under_its_id() {
    let mut lib = Library::open(0).unwrap();
    add_loan(&mut lib, payload(1, 2, 3), 1).unwrap();
    let replacement =
        Loan { id: 0, student_id: 7, book_id: 8, loan_date: 9, created_at: 1, updated_at: Some(2) };
    do_insert(&mut lib, &replacement);
    assert_eq!(_get_all_loans(&lib), vec![replacement]);
}
