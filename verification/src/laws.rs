//! What holds of the service as a whole, for a store that behaves as
//! [`Collection`] says.
//!
//! Each law is a proof about the statuses that the handlers give
//! ([`update_status`], [`delete_status`], [`read_step`]) and the changes that
//! the model of the store makes.

use crate::handlers::{create_reply, delete_status, read_step, update_status, ReadStepView};
use crate::object_id::{lemma_object_id_len, ObjectId};
use crate::quote::{Quote, QuoteView, StoredQuote, StoredQuoteView, Timestamp};
use crate::status::StatusCode;
use crate::store::{views, Collection, CursorEvent};
use vstd::prelude::*;

verus! {

/// One request that reached the store and was carried out.
pub enum Operation {
    /// A quote of `book` and `quote` was stamped with `now` and inserted; the
    /// store gave it the identifier `id`.
    Create { book: Seq<char>, quote: Seq<char>, now: Timestamp, id: Seq<u8> },
    /// The document with the identifier `id` was to get `book` and `quote`.
    Update { id: Seq<u8>, book: Seq<char>, quote: Seq<char> },
    /// The document with the identifier `id` was to be removed.
    Delete { id: Seq<u8> },
}

impl Collection {
    /// Whether the store can carry out `op`: the identifier it gives to a new
    /// document is one it never gave out before.
    pub open spec fn accepts(self, op: Operation) -> bool {
        op matches Operation::Create { id, .. } ==> !self.issued.contains(id)
    }

    /// The collection after `op`.
    pub open spec fn apply(self, op: Operation) -> Collection {
        match op {
            Operation::Create { book, quote, now, id } => self.insert_one(
                id,
                QuoteView::stamped(book, quote, now),
            ),
            Operation::Update { id, book, quote } => self.update_one(id, book, quote),
            Operation::Delete { id } => self.delete_one(id),
        }
    }

    /// Whether `op` is a removal that is answered with 200.
    pub open spec fn removes(self, op: Operation) -> bool {
        op matches Operation::Delete { id } && delete_status(Ok(self.delete_result(id)))
            == StatusCode::Okay
    }
}

/// The collection after the operations `ops`, in turn, on an empty store.
pub open spec fn run(ops: Seq<Operation>) -> Collection
    decreases ops.len(),
{
    if ops.len() == 0 {
        Collection::empty()
    } else {
        run(ops.drop_last()).apply(ops.last())
    }
}

/// Whether the store can carry out `ops` in turn, starting empty.
pub open spec fn admissible(ops: Seq<Operation>) -> bool
    decreases ops.len(),
{
    ops.len() == 0 || (admissible(ops.drop_last()) && run(ops.drop_last()).accepts(ops.last()))
}

/// How many of `ops` create a quote.
pub open spec fn creations(ops: Seq<Operation>) -> nat
    decreases ops.len(),
{
    if ops.len() == 0 {
        0
    } else {
        creations(ops.drop_last()) + if ops.last() is Create {
            1nat
        } else {
            0nat
        }
    }
}

/// How many of `ops` are removals answered with 200.
pub open spec fn removals(ops: Seq<Operation>) -> nat
    decreases ops.len(),
{
    if ops.len() == 0 {
        0
    } else {
        removals(ops.drop_last()) + if run(ops.drop_last()).removes(ops.last()) {
            1nat
        } else {
            0nat
        }
    }
}

/// Whether `op` is an update of the document with the identifier `id`.
pub open spec fn is_update_of(op: Operation, id: Seq<u8>) -> bool {
    op matches Operation::Update { id: target, .. } && target == id
}

/// Whether `op` is a removal of the document with the identifier `id`.
pub open spec fn is_removal_of(op: Operation, id: Seq<u8>) -> bool {
    op matches Operation::Delete { id: target } && target == id
}

/// Whether the document `held` is what the operations `ops` leave of the
/// quote that `ops[created]` created, with `ops[set]` the last to set its
/// book and text:
/// - `ops[created]` created a quote under the document's identifier, and the
///   document's two times are those of that creation;
/// - no later operation removes that identifier;
/// - `set` is `created` where no later operation updates that identifier,
///   and is the last such update otherwise;
/// - the document's book and text are those that `ops[set]` gave.
pub open spec fn traces_back(ops: Seq<Operation>, held: StoredQuoteView, created: int, set: int) -> bool {
    &&& 0 <= created <= set < ops.len()
    &&& ops[created] matches Operation::Create { book, quote, now, id }
    &&& id == held.id
    &&& held.quote.created_at == now
    &&& held.quote.updated_at == now
    &&& if set == created {
        held.quote.book == book && held.quote.quote == quote
    } else {
        ops[set] == (Operation::Update {
            id: held.id,
            book: held.quote.book,
            quote: held.quote.quote,
        })
    }
    &&& forall|m: int| created < m < ops.len() ==> !is_removal_of(#[trigger] ops[m], held.id)
    &&& forall|m: int| set < m < ops.len() ==> !is_update_of(#[trigger] ops[m], held.id)
}

/// Whether the document `held` goes back to the operations `ops`: one of
/// them created it and none removed it since, and its book and text are
/// those of the last update of it, or of its creation where none followed.
pub open spec fn originates(ops: Seq<Operation>, held: StoredQuoteView) -> bool {
    exists|created: int, set: int| #[trigger] traces_back(ops, held, created, set)
}

/// The events of a cursor that walks over `quotes` without failing: each
/// document in turn, then the end.
pub open spec fn scan(quotes: Seq<StoredQuote>) -> Seq<CursorEvent> {
    quotes.map_values(|q: StoredQuote| CursorEvent::Document(q)).push(CursorEvent::End)
}

/// Where listing stands after the events `events`, in turn, with `quotes`
/// read before them. Events after the reply are not looked at.
pub open spec fn read_all(quotes: Seq<StoredQuote>, events: Seq<CursorEvent>) -> ReadStepView
    decreases events.len(),
{
    if events.len() == 0 {
        ReadStepView::Continue(quotes)
    } else {
        match read_step(quotes, events.first()) {
            ReadStepView::Continue(read) => read_all(read, events.drop_first()),
            ReadStepView::Reply(reply) => ReadStepView::Reply(reply),
        }
    }
}

/// A quote that was stamped for a request and taken by the store comes back
/// with 201, under the twelve bytes of the identifier the store gave it,
/// with the book and the text of the request, and with two equal times.
pub proof fn lemma_created_quote(book: Seq<char>, quote: Seq<char>, made: Quote, id: ObjectId)
    requires
        made@ == QuoteView::stamped(book, quote, made.created_at),
    ensures
        create_reply(made, Ok(id)) matches Ok((status, stored)) && status == StatusCode::Created
            && stored.id == id && stored.id@.len() == 12 && stored.quote@.book == book
            && stored.quote@.quote == quote && stored.quote.created_at
            == stored.quote.updated_at,
{
    lemma_object_id_len(id);
}

/// Inserting under a fresh identifier keeps the collection well-formed, adds
/// one document, and puts it last.
pub proof fn lemma_insert_one(c: Collection, id: Seq<u8>, quote: QuoteView)
    requires
        c.wf(),
        !c.issued.contains(id),
    ensures
        c.insert_one(id, quote).wf(),
        c.insert_one(id, quote).documents.len() == c.documents.len() + 1,
        c.insert_one(id, quote).documents.last() == (StoredQuoteView { id, quote }),
        c.insert_one(id, quote).holds(id),
{
    let after = c.insert_one(id, quote);
    assert(after.documents[c.documents.len() as int].id == id);
}

/// An update keeps the collection well-formed and keeps every document's
/// place and identifier.
pub proof fn lemma_update_one(c: Collection, id: Seq<u8>, book: Seq<char>, quote: Seq<char>)
    requires
        c.wf(),
    ensures
        c.update_one(id, book, quote).wf(),
        c.update_one(id, book, quote).documents.len() == c.documents.len(),
        forall|i: int|
            0 <= i < c.documents.len() ==> (#[trigger] c.update_one(id, book, quote).documents[i]).id
                == c.documents[i].id,
        c.holds(id) ==> c.update_one(id, book, quote).holds(id) && c.update_one(
            id,
            book,
            quote,
        ).position(id) == c.position(id),
{
    if c.holds(id) {
        let at = c.position(id);
        let after = c.update_one(id, book, quote);
        assert forall|i: int| 0 <= i < c.documents.len() implies (#[trigger] after.documents[i]).id
            == c.documents[i].id by {}
        assert(after.documents[at].id == id);
        assert(after.holds(id));
        let found = after.position(id);
        assert(after.documents[found].id == id);
        assert(c.documents[found].id == c.documents[at].id);
        assert(found == at);
    }
}

/// An update with an identifier that the store never gave out is answered
/// with 404 and leaves the collection as it was.
pub proof fn lemma_update_unknown(c: Collection, id: Seq<u8>, book: Seq<char>, quote: Seq<char>)
    requires
        c.wf(),
        !c.issued.contains(id),
    ensures
        update_status(Ok(c.update_result(id, book, quote))) == StatusCode::NotFound,
        c.update_one(id, book, quote) == c,
{
}

/// An update of a document that is there is answered with 200, whatever
/// the document held before. Afterwards the document stands where it stood,
/// with the new book and text and with its identifier and its two times
/// unchanged; every other document is as it was.
pub proof fn lemma_update_existing(c: Collection, id: Seq<u8>, book: Seq<char>, quote: Seq<char>)
    requires
        c.wf(),
        c.holds(id),
    ensures
        update_status(Ok(c.update_result(id, book, quote))) == StatusCode::Okay,
        c.update_one(id, book, quote).wf(),
        c.update_one(id, book, quote).documents.len() == c.documents.len(),
        c.update_one(id, book, quote).holds(id),
        c.update_one(id, book, quote).position(id) == c.position(id),
        c.update_one(id, book, quote).documents[c.position(id)] == (StoredQuoteView {
            id,
            quote: QuoteView {
                book,
                quote,
                created_at: c.documents[c.position(id)].quote.created_at,
                updated_at: c.documents[c.position(id)].quote.updated_at,
            },
        }),
        forall|i: int|
            0 <= i < c.documents.len() && i != c.position(id) ==> #[trigger] c.update_one(
                id,
                book,
                quote,
            ).documents[i] == c.documents[i],
{
    lemma_update_one(c, id, book, quote);
}

/// The same update made again is answered with 200 again and leaves the
/// collection as the first one left it.
pub proof fn lemma_update_again(c: Collection, id: Seq<u8>, book: Seq<char>, quote: Seq<char>)
    requires
        c.wf(),
        c.holds(id),
    ensures
        update_status(Ok(c.update_result(id, book, quote))) == StatusCode::Okay,
        update_status(Ok(c.update_one(id, book, quote).update_result(id, book, quote)))
            == StatusCode::Okay,
        c.update_one(id, book, quote).update_one(id, book, quote) == c.update_one(id, book, quote),
{
    let once = c.update_one(id, book, quote);
    let twice = once.update_one(id, book, quote);
    lemma_update_existing(c, id, book, quote);
    lemma_update_existing(once, id, book, quote);
    assert(twice.documents =~= once.documents);
}

/// A removal with an identifier that no document has is answered with 304
/// and leaves the collection as it was.
pub proof fn lemma_delete_missing(c: Collection, id: Seq<u8>)
    requires
        !c.holds(id),
    ensures
        delete_status(Ok(c.delete_result(id))) == StatusCode::NotModified,
        c.delete_one(id) == c,
{
}

/// A removal of a document that is there is answered with 200. Afterwards
/// no document has that identifier, and the others are there as before, in
/// their order.
pub proof fn lemma_delete_existing(c: Collection, id: Seq<u8>)
    requires
        c.wf(),
        c.holds(id),
    ensures
        delete_status(Ok(c.delete_result(id))) == StatusCode::Okay,
        c.delete_one(id).wf(),
        c.delete_one(id).documents == c.documents.remove(c.position(id)),
        c.delete_one(id).documents.len() == c.documents.len() - 1,
        !c.delete_one(id).holds(id),
        forall|other: Seq<u8>| other != id ==> (c.delete_one(id).holds(other) <==> c.holds(other)),
{
    let at = c.position(id);
    let after = c.delete_one(id);
    assert(c.documents[at].id == id);
    assert forall|i: int| 0 <= i < after.documents.len() implies (#[trigger] after.documents[i])
        == c.documents[if i < at {
        i
    } else {
        i + 1
    }] by {}
    assert forall|i: int, j: int| 0 <= i < j < after.documents.len() implies (
    #[trigger] after.documents[i]).id != (#[trigger] after.documents[j]).id by {
        let a = if i < at { i } else { i + 1 };
        let b = if j < at { j } else { j + 1 };
        assert(c.documents[a].id != c.documents[b].id);
    }
    assert forall|i: int| 0 <= i < after.documents.len() implies after.issued.contains(
        (#[trigger] after.documents[i]).id,
    ) by {
        let a = if i < at { i } else { i + 1 };
        assert(c.issued.contains(c.documents[a].id));
    }
    if after.holds(id) {
        let i = after.position(id);
        let a = if i < at { i } else { i + 1 };
        assert(c.documents[a].id == c.documents[at].id);
        assert(false);
    }
    assert forall|other: Seq<u8>| other != id implies (after.holds(other) <==> c.holds(other)) by {
        if after.holds(other) {
            let i = after.position(other);
            let a = if i < at { i } else { i + 1 };
            assert(c.documents[a].id == other);
        }
        if c.holds(other) {
            let a = c.position(other);
            let i = if a < at { a } else { a - 1 };
            assert(after.documents[i].id == other);
        }
    }
}

/// Whatever operations the store carried out, its collection is
/// well-formed, so that no two documents share an identifier, and it holds
/// as many documents as quotes were created, less the removals that were
/// answered with 200.
pub proof fn lemma_run(ops: Seq<Operation>)
    requires
        admissible(ops),
    ensures
        run(ops).wf(),
        removals(ops) <= creations(ops),
        run(ops).documents.len() == creations(ops) - removals(ops),
    decreases ops.len(),
{
    if ops.len() > 0 {
        lemma_run(ops.drop_last());
        let before = run(ops.drop_last());
        match ops.last() {
            Operation::Create { book, quote, now, id } => {
                lemma_insert_one(before, id, QuoteView::stamped(book, quote, now));
            },
            Operation::Update { id, book, quote } => {
                lemma_update_one(before, id, book, quote);
            },
            Operation::Delete { id } => {
                if before.holds(id) {
                    lemma_delete_existing(before, id);
                }
            },
        }
    }
}

/// A document that traces back through some operations still does when one
/// more operation follows that neither updates nor removes it.
proof fn lemma_traces_back_extends(ops: Seq<Operation>, held: StoredQuoteView)
    requires
        ops.len() > 0,
        originates(ops.drop_last(), held),
        !is_update_of(ops.last(), held.id),
        !is_removal_of(ops.last(), held.id),
    ensures
        originates(ops, held),
{
    let short = ops.drop_last();
    let (created, set) = choose|created: int, set: int| #[trigger]
        traces_back(short, held, created, set);
    assert forall|m: int| 0 <= m < short.len() implies short[m] == ops[m] by {}
    assert(traces_back(ops, held, created, set));
}

/// After any operations, every document in the collection goes back to
/// them: one of them created it and none removed it since, and it holds
/// what the last update of it gave, or its creation where none followed.
pub proof fn lemma_run_origin(ops: Seq<Operation>, i: int)
    requires
        admissible(ops),
        0 <= i < run(ops).documents.len(),
    ensures
        originates(ops, run(ops).documents[i]),
    decreases ops.len(),
{
    if ops.len() > 0 {
        let short = ops.drop_last();
        let before = run(short);
        let after = run(ops);
        let held = after.documents[i];
        let last = ops.len() - 1;
        lemma_run(short);
        match ops.last() {
            Operation::Create { book, quote, now, id } => {
                if i < before.documents.len() {
                    assert(held == before.documents[i]);
                    assert(before.issued.contains(before.documents[i].id));
                    lemma_run_origin(short, i);
                    lemma_traces_back_extends(ops, held);
                } else {
                    assert(traces_back(ops, held, last, last));
                }
            },
            Operation::Update { id, book, quote } => {
                lemma_update_one(before, id, book, quote);
                lemma_run_origin(short, i);
                if before.holds(id) && i == before.position(id) {
                    let was = before.documents[i];
                    let (created, set) = choose|created: int, set: int| #[trigger]
                        traces_back(short, was, created, set);
                    assert forall|m: int| 0 <= m < short.len() implies short[m] == ops[m] by {}
                    assert(traces_back(ops, held, created, last));
                } else {
                    assert(held == before.documents[i]);
                    if before.holds(id) {
                        assert(before.documents[before.position(id)].id == id);
                    }
                    assert(held.id != id);
                    lemma_traces_back_extends(ops, held);
                }
            },
            Operation::Delete { id } => {
                if before.holds(id) {
                    lemma_delete_existing(before, id);
                    let at = before.position(id);
                    let a = if i < at { i } else { i + 1 };
                    assert(held == before.documents[a]);
                    assert(before.documents[at].id == id);
                    assert(held.id != id);
                    lemma_run_origin(short, a);
                } else {
                    assert(held == before.documents[i]);
                    assert(held.id != id);
                    lemma_run_origin(short, i);
                }
                lemma_traces_back_extends(ops, held);
            },
        }
    }
}

/// Reading on from `read` over a cursor that walks `quotes` without failing
/// replies with `read` followed by `quotes`.
pub proof fn lemma_read_all_from(read: Seq<StoredQuote>, quotes: Seq<StoredQuote>)
    ensures
        read_all(read, scan(quotes)) == ReadStepView::Reply(Ok(read + quotes)),
    decreases quotes.len(),
{
    let events = scan(quotes);
    if quotes.len() == 0 {
        assert(events.first() == CursorEvent::End);
        assert(read + quotes =~= read);
    } else {
        assert(events.first() == CursorEvent::Document(quotes.first()));
        assert(events.drop_first() =~= scan(quotes.drop_first()));
        lemma_read_all_from(read.push(quotes.first()), quotes.drop_first());
        assert(read.push(quotes.first()) + quotes.drop_first() =~= read + quotes);
    }
}

/// Listing over a cursor that walks the collection without failing replies
/// with every document, in the store's order; with none where the
/// collection is empty.
pub proof fn lemma_read_all(quotes: Seq<StoredQuote>)
    ensures
        read_all(Seq::empty(), scan(quotes)) == ReadStepView::Reply(Ok(quotes)),
{
    lemma_read_all_from(Seq::empty(), quotes);
    assert(Seq::<StoredQuote>::empty() + quotes =~= quotes);
}

/// A list that follows any operations replies with as many quotes as were
/// created, less the removals that were answered with 200. No two of them
/// have the same identifier, and each goes back to the operations: it was
/// created and not removed since, and holds what the last update of it
/// gave, or its creation where none followed.
pub proof fn lemma_list_after(ops: Seq<Operation>, quotes: Seq<StoredQuote>)
    requires
        admissible(ops),
        views(quotes) == run(ops).documents,
    ensures
        read_all(Seq::empty(), scan(quotes)) == ReadStepView::Reply(Ok(quotes)),
        quotes.len() == creations(ops) - removals(ops),
        forall|i: int, j: int|
            0 <= i < j < quotes.len() ==> (#[trigger] quotes[i]).id@ != (#[trigger] quotes[j]).id@,
        forall|i: int| 0 <= i < quotes.len() ==> originates(ops, (#[trigger] quotes[i])@),
{
    lemma_read_all(quotes);
    lemma_run(ops);
    assert forall|i: int| 0 <= i < quotes.len() implies originates(ops, (#[trigger] quotes[i])@) by {
        assert(views(quotes)[i] == quotes[i]@);
        lemma_run_origin(ops, i);
    }
    assert forall|i: int, j: int| 0 <= i < j < quotes.len() implies (#[trigger] quotes[i]).id@ != (
    #[trigger] quotes[j]).id@ by {
        assert(views(quotes)[i] == quotes[i]@);
        assert(views(quotes)[j] == quotes[j]@);
    }
}

/// Creating the same quote twice stores it twice: the store gives each its
/// own identifier, and nothing tells the second from a new quote.
pub proof fn lemma_create_twice(
    c: Collection,
    book: Seq<char>,
    quote: Seq<char>,
    now: Timestamp,
    first: Seq<u8>,
    second: Seq<u8>,
)
    requires
        c.wf(),
        !c.issued.contains(first),
        !c.insert_one(first, QuoteView::stamped(book, quote, now)).issued.contains(second),
    ensures
        first != second,
        c.insert_one(first, QuoteView::stamped(book, quote, now)).insert_one(
            second,
            QuoteView::stamped(book, quote, now),
        ).documents.len() == c.documents.len() + 2,
        c.insert_one(first, QuoteView::stamped(book, quote, now)).insert_one(
            second,
            QuoteView::stamped(book, quote, now),
        ).wf(),
{
    let made = QuoteView::stamped(book, quote, now);
    lemma_insert_one(c, first, made);
    lemma_insert_one(c.insert_one(first, made), second, made);
}

} // verus!
