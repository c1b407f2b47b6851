use library_store::book::{Book, BookPayload};
use library_store::codec::{decode_loan_record, decode_text_record, get_text};
use library_store::loan::Loan;
use library_store::record::Record;
use library_store::service::Entity;
use library_store::storage::MAX_RECORD_SIZE;
use library_store::student::Student;

fn book() -> Book {
    Book {
        id: 0x0102,
        title: "é".to_string(),
        author: "Zo".to_string(),
        created_at: 3,
        updated_at: Some(4),
    }
}

#[test]
fn a_book_is_written_field_by_field() {
    let mut expected: Vec<u8> = vec![];
    expected.extend([0x02, 0x01, 0, 0, 0, 0, 0, 0]);
    expected.extend([3, 0, 0, 0, 0, 0, 0, 0]);
    expected.push(1);
    expected.extend([4, 0, 0, 0, 0, 0, 0, 0]);
    expected.extend([2, 0, 0, 0, 0, 0, 0, 0]);
    expected.extend([0xC3, 0xA9]);
    expected.extend([b'Z', b'o']);
    assert_eq!(book().to_bytes(), expected);
    assert_eq!(book().encoded_len(), Some(37));
    assert_eq!(book().id(), 0x0102);
}

#[test]
fn a_record_read_back_is_the_record_written() {
    let b = book();
    assert_eq!(Book::try_from_bytes(&b.to_bytes()), Some(b.clone()));
    assert_eq!(Book::from_bytes(&b.to_bytes()), b);
    let never = Book { updated_at: None, ..book() };
    assert_eq!(Book::try_from_bytes(&never.to_bytes()), Some(never));
    let s = Student {
        id: u64::MAX,
        name: "".to_string(),
        email: "a@b".to_string(),
        created_at: u64::MAX,
        updated_at: Some(0),
    };
    assert_eq!(Student::try_from_bytes(&s.to_bytes()), Some(s.clone()));
    assert_eq!(s.encoded_len(), Some(36));
    let l =
        Loan { id: 1, student_id: 2, book_id: 3, loan_date: 4, created_at: 5, updated_at: None };
    assert_eq!(l.to_bytes().len(), 49);
    assert_eq!(l.encoded_len(), Some(49));
    assert_eq!(Loan::try_from_bytes(&l.to_bytes()), Some(l));
}

#[test]
fn bytes_that_spell_no_record_are_refused() {
    let good = book().to_bytes();
    assert_eq!(Book::try_from_bytes(&[]), None);
    assert_eq!(Book::try_from_bytes(&good[..32]), None);
    let mut flag = good.clone();
    flag[16] = 2;
    assert_eq!(Book::try_from_bytes(&flag), None);
    let mut split = good.clone();
    split[25] = 5;
    assert_eq!(Book::try_from_bytes(&split), None);
    let mut torn = good.clone();
    torn[25] = 1;
    assert_eq!(Book::try_from_bytes(&torn), None);
    let mut not_text = good.clone();
    not_text[35] = 0xFF;
    assert_eq!(Book::try_from_bytes(&not_text), None);
    assert_eq!(decode_text_record(&good[..33]).map(|f| (f.3, f.4)), None);
    assert_eq!(decode_loan_record(&good), None);
    assert_eq!(decode_loan_record(&[0u8; 48]), None);
    assert_eq!(decode_loan_record(&[0u8; 49]), Some((0, 0, 0, 0, 0, None)));
    let mut loan = [0u8; 49];
    loan[40] = 7;
    assert_eq!(decode_loan_record(&loan), None);
}

#[test]
fn text_is_read_as_utf8_or_not_at_all() {
    assert_eq!(get_text(&[b'a', 0xC3, 0xA9, b'b'], 1, 3), Some("é".to_string()));
    assert_eq!(get_text(&[b'a', 0xC3, 0xA9, b'b'], 0, 4), Some("aéb".to_string()));
    assert_eq!(get_text(&[b'a', 0xC3, 0xA9, b'b'], 2, 2), Some(String::new()));
    assert_eq!(get_text(&[b'a', 0xC3, 0xA9, b'b'], 1, 2), None);
    assert_eq!(get_text(&[0xED, 0xA0, 0x80], 0, 3), None);
    assert_eq!(get_text(&[0xC0, 0x80], 0, 2), None);
}

#[test]
fn a_record_has_room_up_to_the_limit_and_no_further() {
    assert_eq!(MAX_RECORD_SIZE, 1024);
    let fill = |n: usize| "x".repeat(n);
    let at_limit = BookPayload { title: fill(900), author: fill(91) };
    let beyond = BookPayload { title: fill(900), author: fill(92) };
    assert!(<Book as Entity<BookPayload>>::has_room(&at_limit));
    assert!(!<Book as Entity<BookPayload>>::has_room(&beyond));
    let big = Book { id: 1, title: fill(900), author: fill(91), created_at: 0, updated_at: None };
    assert_eq!(big.encoded_len(), Some(1024));
    assert_eq!(big.to_bytes().len(), 1024);
    let too_big = Book { author: fill(92), ..big };
    assert_eq!(too_big.encoded_len(), None);
    let wide = BookPayload { title: "é".repeat(496), author: String::new() };
    assert!(!<Book as Entity<BookPayload>>::has_room(&wide));
}
