//! The handlers of the service.
//!
//! A handler that needs the store is written in two halves around the
//! store's work. The first half takes what came with the request and says
//! what to ask of the store, or answers at once where the request cannot be
//! served. The second half takes what the store answered and gives the reply.
//! The caller does the asking in between.

pub use crate::quote::{CreateQuote, Quote};

use crate::object_id::{is_object_id_text, object_id_bytes, ObjectId};
use crate::quote::{QuoteView, StoredQuote};
use crate::status::StatusCode;
use crate::store::{CursorEvent, DeleteOne, DeleteResult, StoreError, UpdateOne, UpdateResult};
use vstd::prelude::*;

verus! {

/// The body of the reply to a request that no route serves.
pub const NOT_FOUND_BODY: &'static str = "nothing to see here";

/// What reading the collection does next.
#[derive(Debug, PartialEq, Eq)]
pub enum ReadStep {
    /// Go on reading; these are the quotes read so far.
    Continue(Vec<StoredQuote>),
    /// Reading is over, with this reply.
    Reply(Result<Vec<StoredQuote>, StatusCode>),
}

/// What a [`ReadStep`] holds, as mathematical values.
pub enum ReadStepView {
    Continue(Seq<StoredQuote>),
    Reply(Result<Seq<StoredQuote>, StatusCode>),
}

impl View for ReadStep {
    type V = ReadStepView;

    open spec fn view(&self) -> ReadStepView {
        match *self {
            ReadStep::Continue(quotes) => ReadStepView::Continue(quotes@),
            ReadStep::Reply(Ok(quotes)) => ReadStepView::Reply(Ok(quotes@)),
            ReadStep::Reply(Err(status)) => ReadStepView::Reply(Err(status)),
        }
    }
}

/// What listing does on one event of the cursor, after `quotes` were read.
///
/// A document is added after those read so far, and reading goes on. At the
/// end the reply is all that was read, in the order it was read. A failure
/// gives 500, whatever was read before it.
pub open spec fn read_step(quotes: Seq<StoredQuote>, event: CursorEvent) -> ReadStepView {
    match event {
        CursorEvent::Document(quote) => ReadStepView::Continue(quotes.push(quote)),
        CursorEvent::End => ReadStepView::Reply(Ok(quotes)),
        CursorEvent::Failed => ReadStepView::Reply(Err(StatusCode::InternalServerError)),
    }
}

/// The reply to creating a quote, given the quote that was sent to the store
/// and the identifier the store gave it.
///
/// 201 with the quote under its identifier where the store took it; 500
/// where the store failed.
pub open spec fn create_reply(quote: Quote, outcome: Result<ObjectId, StoreError>) -> Result<
    (StatusCode, StoredQuote),
    StatusCode,
> {
    match outcome {
        Ok(id) => Ok((StatusCode::Created, (StoredQuote { id, quote }))),
        Err(_) => Err(StatusCode::InternalServerError),
    }
}

/// The status that answers an update, given what the store said of it.
///
/// 200 where a document had the identifier, whether or not the update
/// changed it; 404 where none had; 500 where the store did not say how many
/// it changed, or failed.
pub open spec fn update_status(outcome: Result<UpdateResult, StoreError>) -> StatusCode {
    match outcome {
        Ok(UpdateResult { matched_count, modified_count: Some(_) }) => if matched_count > 0 {
            StatusCode::Okay
        } else {
            StatusCode::NotFound
        },
        Ok(UpdateResult { modified_count: None, .. }) => StatusCode::InternalServerError,
        Err(_) => StatusCode::InternalServerError,
    }
}

/// The status that answers a removal, given what the store said of it.
///
/// 304 where the store removed nothing; 200 where it removed a document; 500
/// where it failed.
pub open spec fn delete_status(outcome: Result<DeleteResult, StoreError>) -> StatusCode {
    match outcome {
        Ok(DeleteResult { deleted_count }) => if deleted_count == 0 {
            StatusCode::NotModified
        } else {
            StatusCode::Okay
        },
        Err(_) => StatusCode::InternalServerError,
    }
}

/// Answers the health check: 200, with no body.
pub fn health() -> (status: StatusCode)
    ensures
        status == StatusCode::Okay,
{
    StatusCode::Okay
}

/// Answers a request that no route serves: 404, with a fixed body.
pub fn handler_404() -> (reply: (StatusCode, &'static str))
    ensures
        reply.0 == StatusCode::NotFound,
        reply.1 == NOT_FOUND_BODY,
{
    (StatusCode::NotFound, NOT_FOUND_BODY)
}

/// First half of creating a quote: builds the quote to insert, stamped with
/// the current time.
///
/// The quote holds the book and the text of the request as they came, and
/// its two times are the same.
pub fn create_quote(payload: CreateQuote) -> (quote: Quote)
    ensures
        quote.book == payload.book,
        quote.quote == payload.quote,
        quote.created_at == quote.updated_at,
        quote@ == QuoteView::stamped(payload.book@, payload.quote@, quote.created_at),
{
    Quote::new(payload.book, payload.quote)
}

/// Second half of creating a quote: the reply, given the quote that was sent
/// to the store and the identifier the store gave it.
pub fn create_quote_reply(quote: Quote, outcome: Result<ObjectId, StoreError>) -> (reply: Result<
    (StatusCode, StoredQuote),
    StatusCode,
>)
    ensures
        reply == create_reply(quote, outcome),
{
    match outcome {
        Ok(id) => Ok((StatusCode::Created, StoredQuote { id, quote })),
        Err(_) => Err(StatusCode::InternalServerError),
    }
}

/// One step of listing the quotes: given the quotes read so far and what the
/// cursor did next, says whether to go on or what to reply.
///
/// Listing starts with no quotes read, and a reply that holds quotes goes
/// out with 200.
pub fn read_quotes(quotes: Vec<StoredQuote>, event: CursorEvent) -> (step: ReadStep)
    ensures
        step@ == read_step(quotes@, event),
{
    match event {
        CursorEvent::Document(quote) => {
            let mut quotes = quotes;
            quotes.push(quote);
            ReadStep::Continue(quotes)
        },
        CursorEvent::End => ReadStep::Reply(Ok(quotes)),
        CursorEvent::Failed => ReadStep::Reply(Err(StatusCode::InternalServerError)),
    }
}

/// First half of updating a quote: reads the identifier from the path and
/// says what to ask of the store.
///
/// Where `id` is the written form of an identifier, the store is asked to
/// set the request's book and text on the document with that identifier.
/// Any other `id` is answered with 400 and the store is not asked.
pub fn update_quote(id: &str, payload: CreateQuote) -> (r: Result<UpdateOne, StatusCode>)
    ensures
        match r {
            Ok(update) => is_object_id_text(id@) && update.id@ == object_id_bytes(id@)
                && update.book == payload.book && update.quote == payload.quote,
            Err(status) => !is_object_id_text(id@) && status == StatusCode::BadRequest,
        },
{
    match ObjectId::parse_str(id) {
        Ok(id) => Ok(UpdateOne { id, book: payload.book, quote: payload.quote }),
        Err(_) => Err(StatusCode::BadRequest),
    }
}

/// Second half of updating a quote: the status, given the store's answer.
pub fn update_quote_reply(outcome: Result<UpdateResult, StoreError>) -> (status: StatusCode)
    ensures
        status == update_status(outcome),
{
    match outcome {
        Ok(result) => match result.modified_count {
            Some(_) => {
                if result.matched_count > 0 {
                    StatusCode::Okay
                } else {
                    StatusCode::NotFound
                }
            },
            None => StatusCode::InternalServerError,
        },
        Err(_) => StatusCode::InternalServerError,
    }
}

/// First half of deleting a quote: reads the identifier from the path and
/// says what to ask of the store.
///
/// Where `id` is the written form of an identifier, the store is asked to
/// remove the document with that identifier. Any other `id` is answered with
/// 400 and the store is not asked.
pub fn delete_quote(id: &str) -> (r: Result<DeleteOne, StatusCode>)
    ensures
        match r {
            Ok(delete) => is_object_id_text(id@) && delete.id@ == object_id_bytes(id@),
            Err(status) => !is_object_id_text(id@) && status == StatusCode::BadRequest,
        },
{
    match ObjectId::parse_str(id) {
        Ok(id) => Ok(DeleteOne { id }),
        Err(_) => Err(StatusCode::BadRequest),
    }
}

/// Second half of deleting a quote: the status, given the store's answer.
pub fn delete_quote_reply(outcome: Result<DeleteResult, StoreError>) -> (status: StatusCode)
    ensures
        status == delete_status(outcome),
{
    match outcome {
        Ok(result) => match result.deleted_count {
            0 => StatusCode::NotModified,
            _ => StatusCode::Okay,
        },
        Err(_) => StatusCode::InternalServerError,
    }
}

} // verus!
