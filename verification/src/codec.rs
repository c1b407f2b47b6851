//! The byte layouts of the records.
//!
//! Numbers are eight bytes, little end first. An optional time is a flag
//! byte, 1 or 0, and eight bytes of number. Text is UTF-8.

use vstd::bytes::*;
use vstd::prelude::*;
use vstd::slice::*;
use vstd::string::*;
use vstd::utf8::*;

verus! {

/// The bytes of an optional time.
pub open spec fn stamp_bytes(stamp: Option<u64>) -> Seq<u8> {
    match stamp {
        Some(at) => seq![1u8] + spec_u64_to_le_bytes(at),
        None => seq![0u8] + spec_u64_to_le_bytes(0),
    }
}

/// The optional time that nine bytes spell, if they spell one.
pub open spec fn stamp_of(bytes: Seq<u8>) -> Option<Option<u64>> {
    if bytes.len() != 9 {
        None
    } else if bytes[0] == 0 {
        Some(None)
    } else if bytes[0] == 1 {
        Some(Some(spec_u64_from_le_bytes(bytes.subrange(1, 9))))
    } else {
        None
    }
}

/// A time read back is the time written.
pub proof fn stamp_round_trip(stamp: Option<u64>)
    ensures
        stamp_bytes(stamp).len() == 9,
        stamp_of(stamp_bytes(stamp)) == Some(stamp),
{
    lemma_auto_spec_u64_to_from_le_bytes();
    match stamp {
        Some(at) => {
            assert(stamp_bytes(stamp).subrange(1, 9) == spec_u64_to_le_bytes(at));
        },
        None => {},
    }
}

/// `String::from_utf8`: the text whose UTF-8 form is `bytes`, or nothing
/// where `bytes` are no UTF-8.
#[verifier::external_body]
fn text_from_utf8(bytes: Vec<u8>) -> (text: Option<String>)
    ensures
        text is Some <==> valid_utf8(bytes@),
        text matches Some(t) ==> encode_utf8(t@) == bytes@,
{
    String::from_utf8(bytes).ok()
}

/// Appends the bytes of a number.
pub fn put_u64(out: &mut Vec<u8>, value: u64)
    ensures
        final(out)@ == old(out)@ + spec_u64_to_le_bytes(value),
{
    let bytes = u64_to_le_bytes(value);
    out.extend_from_slice(bytes.as_slice());
    assert(out@ =~= old(out)@ + spec_u64_to_le_bytes(value));
}

/// Appends the bytes of an optional time.
pub fn put_stamp(out: &mut Vec<u8>, stamp: Option<u64>)
    ensures
        final(out)@ == old(out)@ + stamp_bytes(stamp),
{
    match stamp {
        Some(at) => {
            out.push(1u8);
            put_u64(out, at);
        },
        None => {
            out.push(0u8);
            put_u64(out, 0);
        },
    }
    assert(out@ =~= old(out)@ + stamp_bytes(stamp));
}

/// Appends the UTF-8 form of a text.
pub fn put_text(out: &mut Vec<u8>, text: &str)
    ensures
        final(out)@ == old(out)@ + encode_utf8(text@),
{
    out.extend_from_slice(text.as_bytes());
    assert(out@ =~= old(out)@ + encode_utf8(text@));
}

/// Reads the number at `at`.
pub fn get_u64(bytes: &[u8], at: usize) -> (value: u64)
    requires
        at + 8 <= bytes@.len(),
    ensures
        value == spec_u64_from_le_bytes(bytes@.subrange(at as int, at + 8)),
{
    let len = bytes.len();
    assert(at + 8 <= len);
    u64_from_le_bytes(slice_subrange(bytes, at, at + 8))
}

/// Reads the optional time at `at`.
pub fn get_stamp(bytes: &[u8], at: usize) -> (stamp: Option<Option<u64>>)
    requires
        at + 9 <= bytes@.len(),
    ensures
        stamp == stamp_of(bytes@.subrange(at as int, at + 9)),
{
    let len = bytes.len();
    assert(at + 9 <= len);
    let flag = bytes[at];
    let field = Ghost(bytes@.subrange(at as int, at + 9));
    assert(field@[0] == flag);
    assert(field@.subrange(1, 9) == bytes@.subrange(at + 1, at + 9));
    if flag == 0 {
        Some(None)
    } else if flag == 1 {
        Some(Some(get_u64(bytes, at + 1)))
    } else {
        None
    }
}

/// Reads the text between `from` and `to`, if those bytes are UTF-8.
pub fn get_text(bytes: &[u8], from: usize, to: usize) -> (text: Option<String>)
    requires
        from <= to <= bytes@.len(),
    ensures
        text is Some <==> valid_utf8(bytes@.subrange(from as int, to as int)),
        text matches Some(t) ==> t@ == decode_utf8(bytes@.subrange(from as int, to as int)),
{
    let text = text_from_utf8(slice_to_vec(slice_subrange(bytes, from, to)));
    proof {
        if text is Some {
            encode_utf8_decode_utf8(text->0@);
        }
    }
    text
}

/// What a record of two texts holds: a student or a book.
pub struct TextFields {
    pub id: u64,
    pub created_at: u64,
    pub updated_at: Option<u64>,
    pub first: Seq<char>,
    pub second: Seq<char>,
}

/// The bytes before the texts of such a record: id, creation time, update
/// time, and the length of the first text.
pub const TEXT_HEADER: usize = 33;

/// The bytes of a record of two texts.
pub open spec fn text_record_bytes(fields: TextFields) -> Seq<u8> {
    spec_u64_to_le_bytes(fields.id) + spec_u64_to_le_bytes(fields.created_at) + stamp_bytes(
        fields.updated_at,
    ) + spec_u64_to_le_bytes(encode_utf8(fields.first).len() as u64) + encode_utf8(fields.first)
        + encode_utf8(fields.second)
}

/// How long those bytes are.
pub open spec fn text_record_len(first: Seq<char>, second: Seq<char>) -> nat {
    TEXT_HEADER as nat + encode_utf8(first).len() + encode_utf8(second).len()
}

/// The record of two texts that `bytes` spell, if they spell one.
pub open spec fn text_record_of(bytes: Seq<u8>) -> Option<TextFields> {
    if bytes.len() < TEXT_HEADER {
        None
    } else {
        let stamp = stamp_of(bytes.subrange(16, 25));
        let split = spec_u64_from_le_bytes(bytes.subrange(25, 33));
        let first = bytes.subrange(33, 33 + split);
        let second = bytes.subrange(33 + split, bytes.len() as int);
        if stamp is None || split > bytes.len() - 33 || !valid_utf8(first) || !valid_utf8(second) {
            None
        } else {
            Some(
                TextFields {
                    id: spec_u64_from_le_bytes(bytes.subrange(0, 8)),
                    created_at: spec_u64_from_le_bytes(bytes.subrange(8, 16)),
                    updated_at: stamp->0,
                    first: decode_utf8(first),
                    second: decode_utf8(second),
                },
            )
        }
    }
}

/// How long the bytes of a record of two texts are.
pub proof fn text_record_len_is(fields: TextFields)
    ensures
        text_record_bytes(fields).len() == text_record_len(fields.first, fields.second),
{
    lemma_auto_spec_u64_to_from_le_bytes();
    stamp_round_trip(fields.updated_at);
}

/// A record of two texts read back is the record written.
pub proof fn text_record_round_trip(fields: TextFields)
    requires
        encode_utf8(fields.first).len() <= u64::MAX,
    ensures
        text_record_bytes(fields).len() == text_record_len(fields.first, fields.second),
        text_record_of(text_record_bytes(fields)) == Some(fields),
{
    lemma_auto_spec_u64_to_from_le_bytes();
    stamp_round_trip(fields.updated_at);
    encode_utf8_valid_utf8(fields.first);
    encode_utf8_valid_utf8(fields.second);
    encode_utf8_decode_utf8(fields.first);
    encode_utf8_decode_utf8(fields.second);
    let bytes = text_record_bytes(fields);
    let first = encode_utf8(fields.first);
    let second = encode_utf8(fields.second);
    let split = first.len() as u64;
    assert(bytes.subrange(0, 8) == spec_u64_to_le_bytes(fields.id));
    assert(bytes.subrange(8, 16) == spec_u64_to_le_bytes(fields.created_at));
    assert(bytes.subrange(16, 25) == stamp_bytes(fields.updated_at));
    assert(bytes.subrange(25, 33) == spec_u64_to_le_bytes(split));
    assert(bytes.subrange(33, 33 + split) == first);
    assert(bytes.subrange(33 + split, bytes.len() as int) == second);
}

/// Writes a record of two texts.
pub fn encode_text_record(
    id: u64,
    created_at: u64,
    updated_at: Option<u64>,
    first: &str,
    second: &str,
) -> (bytes: Vec<u8>)
    ensures
        bytes@ == text_record_bytes(
            TextFields { id, created_at, updated_at, first: first@, second: second@ },
        ),
        bytes@.len() == text_record_len(first@, second@),
{
    let ghost fields = TextFields { id, created_at, updated_at, first: first@, second: second@ };
    let mut bytes: Vec<u8> = Vec::new();
    put_u64(&mut bytes, id);
    put_u64(&mut bytes, created_at);
    put_stamp(&mut bytes, updated_at);
    let split = first.as_bytes().len();
    put_u64(&mut bytes, split as u64);
    put_text(&mut bytes, first);
    put_text(&mut bytes, second);
    proof {
        text_record_round_trip(fields);
        assert(bytes@ =~= text_record_bytes(fields));
    }
    bytes
}

/// Reads a record of two texts.
pub fn decode_text_record(bytes: &[u8]) -> (fields: Option<(u64, u64, Option<u64>, String, String)>)
    ensures
        match fields {
            Some(f) => text_record_of(bytes@) == Some(
                TextFields {
                    id: f.0,
                    created_at: f.1,
                    updated_at: f.2,
                    first: f.3@,
                    second: f.4@,
                },
            ),
            None => text_record_of(bytes@) is None,
        },
{
    let len = bytes.len();
    if len < TEXT_HEADER {
        return None;
    }
    let id = get_u64(bytes, 0);
    let created_at = get_u64(bytes, 8);
    let stamp = get_stamp(bytes, 16);
    let split = get_u64(bytes, 25);
    if split > (len - TEXT_HEADER) as u64 {
        return None;
    }
    let middle = TEXT_HEADER + split as usize;
    let first = get_text(bytes, TEXT_HEADER, middle);
    let second = get_text(bytes, middle, len);
    match (stamp, first, second) {
        (Some(updated_at), Some(first), Some(second)) => Some(
            (id, created_at, updated_at, first, second),
        ),
        _ => None,
    }
}

/// What a loan record holds.
pub struct LoanFields {
    pub id: u64,
    pub student_id: u64,
    pub book_id: u64,
    pub loan_date: u64,
    pub created_at: u64,
    pub updated_at: Option<u64>,
}

/// The length of every loan record.
pub const LOAN_LEN: usize = 49;

/// The bytes of a loan record.
pub open spec fn loan_record_bytes(fields: LoanFields) -> Seq<u8> {
    spec_u64_to_le_bytes(fields.id) + spec_u64_to_le_bytes(fields.student_id)
        + spec_u64_to_le_bytes(fields.book_id) + spec_u64_to_le_bytes(fields.loan_date)
        + spec_u64_to_le_bytes(fields.created_at) + stamp_bytes(fields.updated_at)
}

/// The loan record that `bytes` spell, if they spell one.
pub open spec fn loan_record_of(bytes: Seq<u8>) -> Option<LoanFields> {
    if bytes.len() != LOAN_LEN {
        None
    } else {
        match stamp_of(bytes.subrange(40, 49)) {
            Some(updated_at) => Some(
                LoanFields {
                    id: spec_u64_from_le_bytes(bytes.subrange(0, 8)),
                    student_id: spec_u64_from_le_bytes(bytes.subrange(8, 16)),
                    book_id: spec_u64_from_le_bytes(bytes.subrange(16, 24)),
                    loan_date: spec_u64_from_le_bytes(bytes.subrange(24, 32)),
                    created_at: spec_u64_from_le_bytes(bytes.subrange(32, 40)),
                    updated_at,
                },
            ),
            None => None,
        }
    }
}

/// A loan record read back is the record written.
pub proof fn loan_record_round_trip(fields: LoanFields)
    ensures
        loan_record_bytes(fields).len() == LOAN_LEN,
        loan_record_of(loan_record_bytes(fields)) == Some(fields),
{
    lemma_auto_spec_u64_to_from_le_bytes();
    stamp_round_trip(fields.updated_at);
    let bytes = loan_record_bytes(fields);
    assert(bytes.subrange(0, 8) == spec_u64_to_le_bytes(fields.id));
    assert(bytes.subrange(8, 16) == spec_u64_to_le_bytes(fields.student_id));
    assert(bytes.subrange(16, 24) == spec_u64_to_le_bytes(fields.book_id));
    assert(bytes.subrange(24, 32) == spec_u64_to_le_bytes(fields.loan_date));
    assert(bytes.subrange(32, 40) == spec_u64_to_le_bytes(fields.created_at));
    assert(bytes.subrange(40, 49) == stamp_bytes(fields.updated_at));
}

/// Writes a loan record.
pub fn encode_loan_record(
    id: u64,
    student_id: u64,
    book_id: u64,
    loan_date: u64,
    created_at: u64,
    updated_at: Option<u64>,
) -> (bytes: Vec<u8>)
    ensures
        bytes@ == loan_record_bytes(
            LoanFields { id, student_id, book_id, loan_date, created_at, updated_at },
        ),
        bytes@.len() == LOAN_LEN,
{
    let ghost fields = LoanFields { id, student_id, book_id, loan_date, created_at, updated_at };
    let mut bytes: Vec<u8> = Vec::new();
    put_u64(&mut bytes, id);
    put_u64(&mut bytes, student_id);
    put_u64(&mut bytes, book_id);
    put_u64(&mut bytes, loan_date);
    put_u64(&mut bytes, created_at);
    put_stamp(&mut bytes, updated_at);
    proof {
        loan_record_round_trip(fields);
        assert(bytes@ =~= loan_record_bytes(fields));
    }
    bytes
}

/// Reads a loan record.
pub fn decode_loan_record(bytes: &[u8]) -> (fields: Option<(u64, u64, u64, u64, u64, Option<u64>)>)
    ensures
        match fields {
            Some(f) => loan_record_of(bytes@) == Some(
                LoanFields {
                    id: f.0,
                    student_id: f.1,
                    book_id: f.2,
                    loan_date: f.3,
                    created_at: f.4,
                    updated_at: f.5,
                },
            ),
            None => loan_record_of(bytes@) is None,
        },
{
    if bytes.len() != LOAN_LEN {
        return None;
    }
    match get_stamp(bytes, 40) {
        Some(updated_at) => Some(
            (
                get_u64(bytes, 0),
                get_u64(bytes, 8),
                get_u64(bytes, 16),
                get_u64(bytes, 24),
                get_u64(bytes, 32),
                updated_at,
            ),
        ),
        None => None,
    }
}

} // verus!
