//! What passes between the handlers and the document store, and a model of
//! the store's collection of quotes.
//!
//! The handlers never reach the store themselves. They hand out what is to be
//! asked of it ([`UpdateOne`], [`DeleteOne`], a quote to insert) and are
//! handed back what it answered ([`UpdateResult`], [`DeleteResult`], a
//! [`CursorEvent`], or a [`StoreError`]).
//!
//! [`Collection`] says, as mathematics, what the store is taken to do with
//! each of these. Nothing here runs it; the laws of the service are stated
//! against it.

use crate::object_id::ObjectId;
use crate::quote::{QuoteView, StoredQuote, StoredQuoteView};
use vstd::prelude::*;

verus! {

/// The store could not be reached, or could not carry out what was asked.
#[derive(Clone, Copy, Debug, PartialEq, Eq, Structural)]
pub struct StoreError {}

/// Asks the store to set `book` and `quote` on the document with the
/// identifier `id`.
#[derive(Debug, PartialEq, Eq)]
pub struct UpdateOne {
    pub id: ObjectId,
    pub book: String,
    pub quote: String,
}

/// Asks the store to remove the document with the identifier `id`.
#[derive(Clone, Copy, Debug, PartialEq, Eq)]
pub struct DeleteOne {
    pub id: ObjectId,
}

/// The store's answer to an [`UpdateOne`]: how many documents had the
/// identifier, and how many of them it changed, if it said so. A document
/// that already holds what was to be set is matched and not changed.
#[derive(Clone, Copy, Debug, PartialEq, Eq, Structural)]
pub struct UpdateResult {
    pub matched_count: u64,
    pub modified_count: Option<u64>,
}

/// The store's answer to a [`DeleteOne`]: how many documents it removed.
#[derive(Clone, Copy, Debug, PartialEq, Eq, Structural)]
pub struct DeleteResult {
    pub deleted_count: u64,
}

/// One step of reading the collection through a cursor.
#[derive(Debug, PartialEq, Eq)]
pub enum CursorEvent {
    /// The cursor moved on to this document.
    Document(StoredQuote),
    /// The cursor is past the last document.
    End,
    /// The query, the cursor or the decoding of a document failed.
    Failed,
}

/// The collection of quotes as the store is taken to hold it: the documents
/// in the store's own order, and every identifier the store has ever given
/// out.
pub struct Collection {
    pub documents: Seq<StoredQuoteView>,
    pub issued: Set<Seq<u8>>,
}

impl Collection {
    /// The collection before anything was stored.
    pub open spec fn empty() -> Collection {
        Collection { documents: Seq::empty(), issued: Set::empty() }
    }

    /// No two documents share an identifier, and every document's identifier
    /// was given out by the store.
    pub open spec fn wf(self) -> bool {
        &&& forall|i: int, j: int|
            0 <= i < j < self.documents.len() ==> (#[trigger] self.documents[i]).id != (
            #[trigger] self.documents[j]).id
        &&& forall|i: int|
            0 <= i < self.documents.len() ==> self.issued.contains(
                (#[trigger] self.documents[i]).id,
            )
    }

    /// Whether a document with the identifier `id` is in the collection.
    pub open spec fn holds(self, id: Seq<u8>) -> bool {
        exists|i: int| 0 <= i < self.documents.len() && (#[trigger] self.documents[i]).id == id
    }

    /// Where the document with the identifier `id` stands.
    pub open spec fn position(self, id: Seq<u8>) -> int
        recommends
            self.holds(id),
    {
        choose|i: int| 0 <= i < self.documents.len() && (#[trigger] self.documents[i]).id == id
    }

    /// The collection after `quote` was inserted and the store gave it the
    /// identifier `id`: the new document comes last.
    pub open spec fn insert_one(self, id: Seq<u8>, quote: QuoteView) -> Collection
        recommends
            !self.issued.contains(id),
    {
        Collection {
            documents: self.documents.push(StoredQuoteView { id, quote }),
            issued: self.issued.insert(id),
        }
    }

    /// Whether setting `book` and `quote` on the document with the identifier
    /// `id` changes it: the document is there and holds something else.
    pub open spec fn modifies(self, id: Seq<u8>, book: Seq<char>, quote: Seq<char>) -> bool {
        &&& self.holds(id)
        &&& {
            let held = self.documents[self.position(id)].quote;
            held.book != book || held.quote != quote
        }
    }

    /// The collection after `book` and `quote` were set on the document with
    /// the identifier `id`. The document keeps its place, its identifier and
    /// its two times. Without such a document nothing changes.
    pub open spec fn update_one(self, id: Seq<u8>, book: Seq<char>, quote: Seq<char>) -> Collection {
        if self.holds(id) {
            let at = self.position(id);
            Collection {
                documents: self.documents.update(
                    at,
                    StoredQuoteView { id, quote: self.documents[at].quote.with_fields(book, quote) },
                ),
                ..self
            }
        } else {
            self
        }
    }

    /// The store's answer to that update: one document matched if it holds
    /// one with that identifier, and one changed if that document held
    /// other fields.
    pub open spec fn update_result(self, id: Seq<u8>, book: Seq<char>, quote: Seq<char>) -> UpdateResult {
        UpdateResult {
            matched_count: if self.holds(id) {
                1u64
            } else {
                0u64
            },
            modified_count: Some(
                if self.modifies(id, book, quote) {
                    1u64
                } else {
                    0u64
                },
            ),
        }
    }

    /// The collection after the document with the identifier `id` was
    /// removed. The others keep their order. Without such a document nothing
    /// changes.
    pub open spec fn delete_one(self, id: Seq<u8>) -> Collection {
        if self.holds(id) {
            Collection { documents: self.documents.remove(self.position(id)), ..self }
        } else {
            self
        }
    }

    /// The store's answer to that removal: one document removed if it holds
    /// one with that identifier, none otherwise.
    pub open spec fn delete_result(self, id: Seq<u8>) -> DeleteResult {
        DeleteResult {
            deleted_count: if self.holds(id) {
                1u64
            } else {
                0u64
            },
        }
    }
}

/// The views of a sequence of stored quotes, in the same order.
pub open spec fn views(quotes: Seq<StoredQuote>) -> Seq<StoredQuoteView> {
    quotes.map_values(|q: StoredQuote| q@)
}

} // verus!
