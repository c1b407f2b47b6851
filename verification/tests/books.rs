use library_store::book::{
    _get_all_books, _get_book, add_book, delete_book, do_insert, get_all_books, get_book,
    update_book, Book, BookPayload,
};
use library_store::error::Error;
use library_store::library::Library;
use library_store::student::{add_student, StudentPayload};

fn payload(title: &str, author: &str) -> BookPayload {
    BookPayload { title: title.to_string(), author: author.to_string() }
}

fn fresh() -> Library {
    Library::open(0).expect("a fresh memory opens")
}

#[test]
fn a_fresh_library_lists_no_books() {
    let lib = fresh();
    assert_eq!(get_all_books(&lib), Ok(vec![]));
    assert_eq!(_get_all_books(&lib), vec![]);
    assert_eq!(lib.peek_next_id(), 0);
}

#[test]
fn the_first_id_is_the_one_asked_for() {
    let mut lib = Library::open(41).unwrap();
    assert_eq!(lib.peek_next_id(), 41);
    let book = add_book(&mut lib, payload("Emma", "Austen"), 7).unwrap();
    assert_eq!(book.id, 41);
    assert_eq!(lib.peek_next_id(), 42);
}

#[test]
fn a_created_book_is_found_as_returned() {
    let mut lib = fresh();
    let created = add_book(&mut lib, payload("Dune", "Herbert"), 10).unwrap();
    assert_eq!(created.id, 0);
    assert_eq!(created.created_at, 10);
    assert_eq!(created.updated_at, None);
    assert_eq!(get_book(&lib, created.id), Ok(created.clone()));
    assert_eq!(_get_book(&lib, &created.id), Some(created));
}

#[test]
fn text_beyond_ascii_comes_back_unchanged() {
    let mut lib = fresh();
    let created = add_book(&mut lib, payload("Война и мир", "Лев Толстой 📚"), 10).unwrap();
    let found = get_book(&lib, created.id).unwrap();
    assert_eq!(found.title, "Война и мир");
    assert_eq!(found.author, "Лев Толстой 📚");
}

#[test]
fn a_blank_title_or_author_is_refused_and_takes_no_id() {
    let mut lib = fresh();
    let refused =
        Err(Error::InvalidInput { msg: "Title and author cannot be empty.".to_string() });
    assert_eq!(add_book(&mut lib, payload("", "Herbert"), 1), refused);
    assert_eq!(add_book(&mut lib, payload("Dune", ""), 1), refused);
    assert_eq!(add_book(&mut lib, payload("  \t\n", "Herbert"), 1), refused);
    assert_eq!(add_book(&mut lib, payload("Dune", "\u{a0}\u{3000}"), 1), refused);
    assert_eq!(lib.peek_next_id(), 0);
    assert_eq!(_get_all_books(&lib), vec![]);
    let next = add_book(&mut lib, payload(" Dune ", "Herbert"), 1).unwrap();
    assert_eq!(next.id, 0);
    assert_eq!(next.title, " Dune ");
}

#[test]
fn an_update_replaces_the_text_and_keeps_id_and_creation_time() {
    let mut lib = fresh();
    let created = add_book(&mut lib, payload("Dune", "Herbert"), 100).unwrap();
    let updated = update_book(&mut lib, created.id, payload("Dune", "F. Herbert"), 250).unwrap();
    assert_eq!(
        updated,
        Book {
            id: created.id,
            title: "Dune".to_string(),
            author: "F. Herbert".to_string(),
            created_at: 100,
            updated_at: Some(250),
        }
    );
    assert_eq!(get_book(&lib, created.id), Ok(updated.clone()));
    let again =
        update_book(&mut lib, created.id, payload("Dune Messiah", "F. Herbert"), 300).unwrap();
    assert_eq!(again.created_at, 100);
    assert_eq!(again.id, created.id);
    assert!(again.updated_at >= updated.updated_at);
    assert_eq!(again.updated_at, Some(300));
    assert_eq!(lib.peek_next_id(), 1);
    assert_eq!(_get_all_books(&lib), vec![again]);
}

#[test]
fn an_update_is_checked_before_the_book_is_looked_up() {
    let mut lib = fresh();
    assert_eq!(
        update_book(&mut lib, 9, payload(" ", "x"), 1),
        Err(Error::InvalidInput { msg: "Title and author cannot be empty.".to_string() })
    );
    assert_eq!(update_book(&mut lib, 9, payload("x", "y"), 1), Err(Error::NotFound { id: 9 }));
    let created = add_book(&mut lib, payload("Dune", "Herbert"), 100).unwrap();
    assert_eq!(
        update_book(&mut lib, created.id, payload("Dune", " "), 1),
        Err(Error::InvalidInput { msg: "Title and author cannot be empty.".to_string() })
    );
    assert_eq!(get_book(&lib, created.id), Ok(created));
}

#[test]
fn an_id_that_was_never_given_is_not_found() {
    let mut lib = fresh();
    add_book(&mut lib, payload("Dune", "Herbert"), 100).unwrap();
    for id in [1u64, 2, 77, u64::MAX] {
        assert_eq!(get_book(&lib, id), Err(Error::NotFound { id }));
        assert_eq!(_get_book(&lib, &id), None);
        assert_eq!(update_book(&mut lib, id, payload("a", "b"), 5), Err(Error::NotFound { id }));
        assert_eq!(delete_book(&mut lib, id), Err(Error::NotFound { id }));
    }
    assert_eq!(_get_all_books(&lib).len(), 1);
}

#[test]
fn a_deleted_book_is_returned_and_its_id_is_never_used_again() {
    let mut lib = fresh();
    let first = add_book(&mut lib, payload("Dune", "Herbert"), 1).unwrap();
    let second = add_book(&mut lib, payload("Emma", "Austen"), 2).unwrap();
    assert_eq!(delete_book(&mut lib, first.id), Ok(first.clone()));
    assert_eq!(get_book(&lib, first.id), Err(Error::NotFound { id: first.id }));
    assert_eq!(delete_book(&mut lib, first.id), Err(Error::NotFound { id: first.id }));
    let third = add_book(&mut lib, payload("Ulysses", "Joyce"), 3).unwrap();
    assert_eq!(third.id, 2);
    let listed = _get_all_books(&lib);
    assert_eq!(listed, vec![second, third]);
    assert!(listed.iter().all(|book| book.id != first.id));
}

#[test]
fn books_are_listed_in_ascending_order_of_id_each_once() {
    let mut lib = fresh();
    let count = 40u64;
    for n in 0..count {
        add_book(&mut lib, payload(&format!("Volume {}", n), "Anon"), n).unwrap();
    }
    let listed = get_all_books(&lib).unwrap();
    assert_eq!(listed.len(), count as usize);
    for (n, book) in listed.iter().enumerate() {
        assert_eq!(book.id, n as u64);
        assert_eq!(book.title, format!("Volume {}", n));
    }
    for pair in listed.windows(2) {
        assert!(pair[0].id < pair[1].id);
    }
}

#[test]
fn the_kinds_draw_their_ids_from_one_counter() {
    let mut lib = fresh();
    let book = add_book(&mut lib, payload("Dune", "Herbert"), 1).unwrap();
    let student = add_student(
        &mut lib,
        StudentPayload { name: "Ada".to_string(), email: "ada@example.org".to_string() },
        2,
    )
    .unwrap();
    let other = add_book(&mut lib, payload("Emma", "Austen"), 3).unwrap();
    assert_eq!((book.id, student.id, other.id), (0, 1, 2));
    assert_eq!(get_book(&lib, student.id), Err(Error::NotFound { id: 1 }));
    assert_eq!(_get_all_books(&lib), vec![book, other]);
}

#[test]
fn an_inserted_book_replaces_the_one_under_its_id() {
    let mut lib = fresh();
    let created = add_book(&mut lib, payload("Dune", "Herbert"), 1).unwrap();
    add_book(&mut lib, payload("Emma", "Austen"), 2).unwrap();
    let replacement = Book {
        id: created.id,
        title: "Dune".to_string(),
        author: "Frank Herbert".to_string(),
        created_at: 1,
        updated_at: Some(9),
    };
    do_insert(&mut lib, &replacement);
    assert_eq!(get_book(&lib, created.id), Ok(replacement));
    assert_eq!(_get_all_books(&lib).len(), 2);
    assert_eq!(lib.peek_next_id(), 2);
}

#[test]
fn an_inserted_book_can_stand_under_the_id_of_a_deleted_one() {
    let mut lib = fresh();
    let created = add_book(&mut lib, payload("Dune", "Herbert"), 1).unwrap();
    delete_book(&mut lib, created.id).unwrap();
    assert_eq!(get_book(&lib, created.id), Err(Error::NotFound { id: created.id }));
    do_insert(&mut lib, &created);
    assert_eq!(get_book(&lib, created.id), Ok(created.clone()));
    assert_eq!(_get_all_books(&lib), vec![created]);
    assert_eq!(lib.peek_next_id(), 1);
    let next = add_book(&mut lib, payload("Emma", "Austen"), 2).unwrap();
    assert_eq!(next.id, 1);
}
