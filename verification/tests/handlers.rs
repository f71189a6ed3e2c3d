use quotes::handlers::{
    create_quote, create_quote_reply, delete_quote, delete_quote_reply, handler_404, health,
    read_quotes, update_quote, update_quote_reply, CreateQuote, Quote, ReadStep, NOT_FOUND_BODY,
};
use quotes::object_id::{InvalidObjectId, ObjectId};
use quotes::quote::{StoredQuote, Timestamp};
use quotes::status::StatusCode;
use quotes::store::{CursorEvent, DeleteOne, DeleteResult, StoreError, UpdateOne, UpdateResult};

const HEX: &str = "507f1f77bcf86cd799439011";
const BYTES: [u8; 12] = [0x50, 0x7f, 0x1f, 0x77, 0xbc, 0xf8, 0x6c, 0xd7, 0x99, 0x43, 0x90, 0x11];

fn stored(n: u8, book: &str, text: &str) -> StoredQuote {
    StoredQuote {
        id: ObjectId::from_bytes([n; 12]),
        quote: Quote::at(book.to_string(), text.to_string(), Timestamp { secs: 1_700_000_000, nanos: 5 }),
    }
}

#[test]
fn status_codes_have_their_numbers() {
    assert_eq!(StatusCode::Okay.as_u16(), 200);
    assert_eq!(StatusCode::Created.as_u16(), 201);
    assert_eq!(StatusCode::NotModified.as_u16(), 304);
    assert_eq!(StatusCode::BadRequest.as_u16(), 400);
    assert_eq!(StatusCode::NotFound.as_u16(), 404);
    assert_eq!(StatusCode::InternalServerError.as_u16(), 500);
}

#[test]
fn health_is_ok() {
    assert_eq!(health(), StatusCode::Okay);
}

#[test]
fn fallback_is_404_with_fixed_body() {
    assert_eq!(handler_404(), (StatusCode::NotFound, "nothing to see here"));
    assert_eq!(NOT_FOUND_BODY, "nothing to see here");
}

#[test]
fn object_id_reads_lower_case_hex() {
    let id = ObjectId::parse_str(HEX).unwrap();
    assert_eq!(id.bytes(), BYTES);
    assert_eq!(id, ObjectId::from_bytes(BYTES));
}

#[test]
fn object_id_reads_upper_and_mixed_case_hex() {
    assert_eq!(ObjectId::parse_str("507F1F77BCF86CD799439011").unwrap().bytes(), BYTES);
    assert_eq!(ObjectId::parse_str("507f1F77bcF86cd799439011").unwrap().bytes(), BYTES);
}

#[test]
fn object_id_reads_extreme_digits() {
    assert_eq!(ObjectId::parse_str("000000000000000000000000").unwrap().bytes(), [0u8; 12]);
    assert_eq!(ObjectId::parse_str("ffffffffffffffffffffffff").unwrap().bytes(), [0xffu8; 12]);
    assert_eq!(
        ObjectId::parse_str("0123456789abcdefABCDEF09").unwrap().bytes(),
        [0x01, 0x23, 0x45, 0x67, 0x89, 0xab, 0xcd, 0xef, 0xab, 0xcd, 0xef, 0x09]
    );
}

#[test]
fn object_id_refuses_wrong_lengths() {
    assert_eq!(ObjectId::parse_str(""), Err(InvalidObjectId {}));
    assert_eq!(ObjectId::parse_str("507f1f77bcf86cd79943901"), Err(InvalidObjectId {}));
    assert_eq!(ObjectId::parse_str("507f1f77bcf86cd7994390112"), Err(InvalidObjectId {}));
    assert_eq!(ObjectId::parse_str("507f1f77bcf86cd79943901122"), Err(InvalidObjectId {}));
    assert_eq!(ObjectId::parse_str("507f1f77bcf86cd7994390"), Err(InvalidObjectId {}));
}

#[test]
fn object_id_refuses_other_characters() {
    assert_eq!(ObjectId::parse_str("507f1f77bcf86cd79943901g"), Err(InvalidObjectId {}));
    assert_eq!(ObjectId::parse_str("x07f1f77bcf86cd799439011"), Err(InvalidObjectId {}));
    assert_eq!(ObjectId::parse_str("507f1f77bcf8 6cd79943901"), Err(InvalidObjectId {}));
    assert_eq!(ObjectId::parse_str("+07f1f77bcf86cd799439011"), Err(InvalidObjectId {}));
    // twenty-four characters, one of them outside ASCII
    assert_eq!(ObjectId::parse_str("507f1f77bcf86cd79943901é"), Err(InvalidObjectId {}));
    // twenty-four bytes, but fewer characters
    assert_eq!(ObjectId::parse_str("507f1f77bcf86cd7994390éé"), Err(InvalidObjectId {}));
}

#[test]
fn quote_at_stamps_both_times() {
    let now = Timestamp { secs: 1_700_000_000, nanos: 123_456_789 };
    let q = Quote::at("Dune".to_string(), "Fear is the mind-killer.".to_string(), now);
    assert_eq!(q.book, "Dune");
    assert_eq!(q.quote, "Fear is the mind-killer.");
    assert_eq!(q.created_at, now);
    assert_eq!(q.updated_at, now);
}

#[test]
fn quote_new_reads_the_clock_once() {
    let q = Quote::new("Dune".to_string(), "Fear is the mind-killer.".to_string());
    assert_eq!(q.book, "Dune");
    assert_eq!(q.quote, "Fear is the mind-killer.");
    assert_eq!(q.created_at, q.updated_at);
    // later than 2020-09-13, and a whole number of nanoseconds below a second
    assert!(q.created_at.secs > 1_600_000_000);
    assert!(q.created_at.nanos < 1_000_000_000);
}

#[test]
fn create_builds_the_quote_of_the_request() {
    let q = create_quote(CreateQuote::new("Emma".to_string(), "Badly done!".to_string()));
    assert_eq!(q.book, "Emma");
    assert_eq!(q.quote, "Badly done!");
    assert_eq!(q.created_at, q.updated_at);
}

#[test]
fn create_keeps_empty_fields_as_they_are() {
    let q = create_quote(CreateQuote { book: String::new(), quote: String::new() });
    assert_eq!(q.book, "");
    assert_eq!(q.quote, "");
    assert_eq!(q.created_at, q.updated_at);
}

#[test]
fn create_replies_201_with_the_stored_quote() {
    let q = create_quote(CreateQuote::new("Emma".to_string(), "Badly done!".to_string()));
    let id = ObjectId::from_bytes(BYTES);
    let reply = create_quote_reply(q.clone(), Ok(id));
    assert_eq!(reply, Ok((StatusCode::Created, StoredQuote { id, quote: q })));
    let (status, body) = reply.unwrap();
    assert_eq!(status.as_u16(), 201);
    assert_eq!(body.id.bytes().len(), 12);
    assert_eq!(body.quote.created_at, body.quote.updated_at);
}

#[test]
fn create_replies_500_when_the_store_fails() {
    let q = create_quote(CreateQuote::new("Emma".to_string(), "Badly done!".to_string()));
    assert_eq!(create_quote_reply(q, Err(StoreError {})), Err(StatusCode::InternalServerError));
}

#[test]
fn read_of_an_empty_collection_replies_with_no_quotes() {
    assert_eq!(read_quotes(Vec::new(), CursorEvent::End), ReadStep::Reply(Ok(Vec::new())));
}

#[test]
fn read_adds_each_document_after_those_before() {
    let a = stored(1, "A", "a");
    let b = stored(2, "B", "b");
    let step = read_quotes(Vec::new(), CursorEvent::Document(a.clone()));
    assert_eq!(step, ReadStep::Continue(vec![a.clone()]));
    let step = read_quotes(vec![a.clone()], CursorEvent::Document(b.clone()));
    assert_eq!(step, ReadStep::Continue(vec![a.clone(), b.clone()]));
    let step = read_quotes(vec![a.clone(), b.clone()], CursorEvent::End);
    assert_eq!(step, ReadStep::Reply(Ok(vec![a, b])));
}

#[test]
fn read_replies_500_on_a_failure() {
    assert_eq!(
        read_quotes(Vec::new(), CursorEvent::Failed),
        ReadStep::Reply(Err(StatusCode::InternalServerError))
    );
    assert_eq!(
        read_quotes(vec![stored(1, "A", "a")], CursorEvent::Failed),
        ReadStep::Reply(Err(StatusCode::InternalServerError))
    );
}

#[test]
fn update_asks_the_store_with_the_parsed_id() {
    let r = update_quote(HEX, CreateQuote::new("Emma".to_string(), "Badly done!".to_string()));
    assert_eq!(
        r,
        Ok(UpdateOne {
            id: ObjectId::from_bytes(BYTES),
            book: "Emma".to_string(),
            quote: "Badly done!".to_string(),
        })
    );
}

#[test]
fn update_refuses_a_malformed_id_with_400() {
    let payload = CreateQuote::new("Emma".to_string(), "Badly done!".to_string());
    assert_eq!(update_quote("not-an-id", payload.clone()), Err(StatusCode::BadRequest));
    assert_eq!(update_quote("", payload.clone()), Err(StatusCode::BadRequest));
    assert_eq!(update_quote("507f1f77bcf86cd79943901", payload), Err(StatusCode::BadRequest));
}

fn answered(matched_count: u64, modified_count: Option<u64>) -> StatusCode {
    update_quote_reply(Ok(UpdateResult { matched_count, modified_count }))
}

#[test]
fn update_status_is_200_where_a_document_matched() {
    assert_eq!(answered(1, Some(1)), StatusCode::Okay);
    assert_eq!(answered(7, Some(7)), StatusCode::Okay);
    assert_eq!(answered(u64::MAX, Some(u64::MAX)), StatusCode::Okay);
}

#[test]
fn update_status_is_200_where_the_match_was_left_unchanged() {
    assert_eq!(answered(1, Some(0)), StatusCode::Okay);
}

#[test]
fn update_status_is_404_where_no_document_matched() {
    assert_eq!(answered(0, Some(0)), StatusCode::NotFound);
}

#[test]
fn update_status_is_500_without_a_count_or_a_store() {
    assert_eq!(answered(1, None), StatusCode::InternalServerError);
    assert_eq!(answered(0, None), StatusCode::InternalServerError);
    assert_eq!(update_quote_reply(Err(StoreError {})), StatusCode::InternalServerError);
}

#[test]
fn delete_asks_the_store_with_the_parsed_id() {
    assert_eq!(delete_quote(HEX), Ok(DeleteOne { id: ObjectId::from_bytes(BYTES) }));
}

#[test]
fn delete_refuses_a_malformed_id_with_400() {
    assert_eq!(delete_quote("zz7f1f77bcf86cd799439011"), Err(StatusCode::BadRequest));
    assert_eq!(delete_quote("507f1f77bcf86cd7994390111"), Err(StatusCode::BadRequest));
}

#[test]
fn delete_status_follows_the_deleted_count() {
    assert_eq!(delete_quote_reply(Ok(DeleteResult { deleted_count: 0 })), StatusCode::NotModified);
    assert_eq!(delete_quote_reply(Ok(DeleteResult { deleted_count: 1 })), StatusCode::Okay);
    assert_eq!(delete_quote_reply(Ok(DeleteResult { deleted_count: 2 })), StatusCode::Okay);
    assert_eq!(delete_quote_reply(Err(StoreError {})), StatusCode::InternalServerError);
}
