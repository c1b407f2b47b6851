use library_store::error::Error;
use library_store::library::Library;
use library_store::student::{
    _get_all_students, _get_student, add_student, delete_student, do_insert, get_all_students,
    get_student, update_student, Student, StudentPayload,
};

fn payload(name: &str, email: &str) -> StudentPayload {
    StudentPayload { name: name.to_string(), email: email.to_string() }
}

#[test]
fn a_student_goes_through_the_whole_cycle() {
    let mut lib = Library::open(0).unwrap();
    assert_eq!(get_all_students(&lib), Ok(vec![]));

    let ada = add_student(&mut lib, payload("Ada", "ada@example.org"), 5).unwrap();
    assert_eq!(
        ada,
        Student {
            id: 0,
            name: "Ada".to_string(),
            email: "ada@example.org".to_string(),
            created_at: 5,
            updated_at: None,
        }
    );
    assert_eq!(get_student(&lib, 0), Ok(ada.clone()));
    assert_eq!(_get_student(&lib, &0), Some(ada.clone()));

    let moved = update_student(&mut lib, 0, payload("Ada L.", "ada@example.com"), 8).unwrap();
    assert_eq!(moved.id, 0);
    assert_eq!(moved.name, "Ada L.");
    assert_eq!(moved.email, "ada@example.com");
    assert_eq!(moved.created_at, 5);
    assert_eq!(moved.updated_at, Some(8));
    assert_eq!(_get_all_students(&lib), vec![moved.clone()]);

    assert_eq!(delete_student(&mut lib, 0), Ok(moved));
    assert_eq!(get_student(&lib, 0), Err(Error::NotFound { id: 0 }));
    assert_eq!(delete_student(&mut lib, 0), Err(Error::NotFound { id: 0 }));
    assert_eq!(_get_all_students(&lib), vec![]);
}

#[test]
fn a_blank_name_or_email_is_refused() {
    let mut lib = Library::open(0).unwrap();
    let refused = Err(Error::InvalidInput { msg: "Name and email cannot be empty.".to_string() });
    assert_eq!(add_student(&mut lib, payload(" ", "ada@example.org"), 1), refused);
    assert_eq!(add_student(&mut lib, payload("Ada", "\n"), 1), refused);
    assert_eq!(add_student(&mut lib, StudentPayload::default(), 1), refused);
    assert_eq!(update_student(&mut lib, 0, payload("", ""), 1), refused);
    assert_eq!(lib.peek_next_id(), 0);
}

#[test]
fn an_inserted_student_is_stored_under_its_id() {
    let mut lib = Library::open(0).unwrap();
    add_student(&mut lib, payload("Ada", "ada@example.org"), 1).unwrap();
    add_student(&mut lib, payload("Bob", "bob@example.org"), 2).unwrap();
    delete_student(&mut lib, 0).unwrap();
    let back = Student {
        id: 0,
        name: "Ada".to_string(),
        email: "ada@example.net".to_string(),
        created_at: 1,
        updated_at: Some(3),
    };
    do_insert(&mut lib, &back);
    let listed = _get_all_students(&lib);
    assert_eq!(listed.len(), 2);
    assert_eq!(listed[0], back);
    assert_eq!(listed[1].name, "Bob");
}
