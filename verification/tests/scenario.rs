use library_store::book::{add_book, delete_book, get_book, update_book, Book, BookPayload};
use library_store::error::Error;
use library_store::library::{Library, FIRST_ID};

fn payload(title: &str, author: &str) -> BookPayload {
    BookPayload { title: title.to_string(), author: author.to_string() }
}

#[test]
fn a_book_is_created_updated_deleted_and_gone() {
    assert_eq!(FIRST_ID, 1);
    let mut lib = Library::open(FIRST_ID).expect("a fresh memory opens");

    let created = add_book(&mut lib, payload("Dune", "Herbert"), 1_000).unwrap();
    assert_eq!(
        created,
        Book {
            id: 1,
            title: "Dune".to_string(),
            author: "Herbert".to_string(),
            created_at: 1_000,
            updated_at: None,
        }
    );

    let updated = update_book(&mut lib, 1, payload("Dune", "F. Herbert"), 2_000).unwrap();
    assert_eq!(
        updated,
        Book {
            id: 1,
            title: "Dune".to_string(),
            author: "F. Herbert".to_string(),
            created_at: 1_000,
            updated_at: Some(2_000),
        }
    );
    assert!(updated.updated_at.unwrap() >= updated.created_at);

    let deleted = delete_book(&mut lib, 1).unwrap();
    assert_eq!(deleted, updated);

    assert_eq!(get_book(&lib, 1), Err(Error::NotFound { id: 1 }));
}
