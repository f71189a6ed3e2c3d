//! The quote: the one entity that the service keeps.

use crate::object_id::ObjectId;
use vstd::prelude::*;

verus! {

/// A point in time in UTC: whole seconds since 1970-01-01 00:00:00, and the
/// nanoseconds into that second.
#[derive(Clone, Copy, Debug, PartialEq, Eq, Structural)]
pub struct Timestamp {
    pub secs: i64,
    pub nanos: u32,
}

/// The body of a request that creates or replaces a quote.
#[derive(Clone, Debug, PartialEq, Eq)]
pub struct CreateQuote {
    pub book: String,
    pub quote: String,
}

/// A quote as it is built for the store: the book it is from, its text, and
/// the two times stamped on it when it was made.
#[derive(Clone, Debug, PartialEq, Eq)]
pub struct Quote {
    pub book: String,
    pub quote: String,
    pub created_at: Timestamp,
    pub updated_at: Timestamp,
}

/// A quote as the store holds it, under the identifier the store gave it.
#[derive(Clone, Debug, PartialEq, Eq)]
pub struct StoredQuote {
    pub id: ObjectId,
    pub quote: Quote,
}

/// What a [`Quote`] holds, as mathematical values.
pub struct QuoteView {
    pub book: Seq<char>,
    pub quote: Seq<char>,
    pub created_at: Timestamp,
    pub updated_at: Timestamp,
}

/// What a [`StoredQuote`] holds, as mathematical values.
pub struct StoredQuoteView {
    pub id: Seq<u8>,
    pub quote: QuoteView,
}

impl View for Quote {
    type V = QuoteView;

    open spec fn view(&self) -> QuoteView {
        QuoteView {
            book: self.book@,
            quote: self.quote@,
            created_at: self.created_at,
            updated_at: self.updated_at,
        }
    }
}

impl View for StoredQuote {
    type V = StoredQuoteView;

    open spec fn view(&self) -> StoredQuoteView {
        StoredQuoteView { id: self.id@, quote: self.quote@ }
    }
}

impl QuoteView {
    /// The quote that is made of `book` and `quote` at the time `now`: both of
    /// its times are `now`.
    pub open spec fn stamped(book: Seq<char>, quote: Seq<char>, now: Timestamp) -> QuoteView {
        QuoteView { book, quote, created_at: now, updated_at: now }
    }

    /// This quote with its book and text replaced. The two times stay as they
    /// are: replacing the fields does not touch `updated_at`.
    pub open spec fn with_fields(self, book: Seq<char>, quote: Seq<char>) -> QuoteView {
        QuoteView { book, quote, ..self }
    }
}

/// Reads the clock through `chrono::Utc::now`, and takes the time apart into
/// seconds and nanoseconds with `DateTime::timestamp` and
/// `DateTime::timestamp_subsec_nanos`.
///
/// Trusted, and nothing is claimed of the time that comes back. The call
/// aborts if the machine's clock stands before 1970.
#[verifier::external_body]
fn now() -> Timestamp {
    let now = chrono::Utc::now();
    Timestamp { secs: now.timestamp(), nanos: now.timestamp_subsec_nanos() }
}

impl CreateQuote {
    /// The body that asks for a quote of `book` and `quote`.
    pub fn new(book: String, quote: String) -> (payload: CreateQuote)
        ensures
            payload.book == book,
            payload.quote == quote,
    {
        CreateQuote { book, quote }
    }
}

impl Quote {
    /// A quote of `book` and `quote`, stamped with the time `now`.
    pub fn at(book: String, quote: String, now: Timestamp) -> (q: Quote)
        ensures
            q.book == book,
            q.quote == quote,
            q.created_at == now,
            q.updated_at == now,
            q@ == QuoteView::stamped(book@, quote@, now),
    {
        Quote { book, quote, created_at: now, updated_at: now }
    }

    /// A quote of `book` and `quote`, stamped with the current time.
    ///
    /// Whatever the clock says, the fields are the ones given and the two
    /// times are the same.
    pub fn new(book: String, quote: String) -> (q: Quote)
        ensures
            q.book == book,
            q.quote == quote,
            q.created_at == q.updated_at,
            q@ == QuoteView::stamped(book@, quote@, q.created_at),
    {
        Quote::at(book, quote, now())
    }
}

} // verus!
