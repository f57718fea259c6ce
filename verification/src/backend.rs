//! What the requests mean: a model of the backend's contents, and what
//! holds of the operations under it.
//!
//! The backend addresses a record only by its attributes, so the model keeps
//! of each record the index that holds it and the two attributes that the
//! deletion queries ask for.

use vstd::prelude::*;
use crate::collection::{Collection, lemma_all_is_complete, lemma_collections_differ};
use crate::document::DocumentView;
use crate::document_set::DocumentIdSet;
use crate::store::{DeleteRequestView, IndexRequestView};

verus! {

/// One record of the backend, as far as deletion is concerned.
pub struct Record {
    /// Name of the index that holds the record.
    pub index: Seq<char>,
    pub account_id: u32,
    pub document_id: u32,
}

impl IndexRequestView {
    /// The record that the request adds.
    pub open spec fn record(self) -> Record {
        Record {
            index: self.index,
            account_id: self.document.account_id,
            document_id: self.document.document_id,
        }
    }

    /// The backend's records after the request: one more record, whatever
    /// was there before.
    pub open spec fn apply(self, records: Seq<Record>) -> Seq<Record> {
        records.push(self.record())
    }
}

impl DeleteRequestView {
    /// Whether the request deletes `record`: the record lies in one of the
    /// indices named and the query selects it.
    pub open spec fn deletes(self, record: Record) -> bool {
        self.indices.contains(record.index) && self.query.selects(
            record.account_id,
            record.document_id,
        )
    }

    /// The backend's records after the request: those it does not delete,
    /// in their order.
    pub open spec fn apply(self, records: Seq<Record>) -> Seq<Record> {
        records.filter(|record: Record| !self.deletes(record))
    }
}

/// A deletion that deletes none of the records leaves them as they are.
pub proof fn lemma_delete_nothing(request: DeleteRequestView, records: Seq<Record>)
    requires
        forall|i: int| 0 <= i < records.len() ==> !request.deletes(#[trigger] records[i]),
    ensures
        request.apply(records) == records,
    decreases records.len(),
{
    reveal(Seq::filter);
    if records.len() > 0 {
        lemma_delete_nothing(request, records.drop_last());
    }
}

/// After a deletion, the records left are exactly the earlier records that
/// the request does not delete.
pub proof fn lemma_delete_keeps_the_rest(
    request: DeleteRequestView,
    records: Seq<Record>,
    record: Record,
)
    ensures
        request.apply(records).contains(record) <==> records.contains(record) && !request.deletes(
            record,
        ),
{
    let keep = |record: Record| !request.deletes(record);
    if request.apply(records).contains(record) {
        records.lemma_filter_contains_rev(keep, record);
        let i = choose|i: int|
            0 <= i < records.filter(keep).len() && records.filter(keep)[i] == record;
        records.lemma_filter_pred(keep, i);
    }
    if records.contains(record) && !request.deletes(record) {
        let i = choose|i: int| 0 <= i < records.len() && records[i] == record;
        records.lemma_filter_contains(keep, i);
    }
}

/// Removing the empty set of documents deletes nothing, whatever the
/// backend holds.
pub proof fn lemma_remove_of_no_document(
    account_id: u32,
    collection: Collection,
    document_ids: DocumentIdSet,
    records: Seq<Record>,
)
    requires
        document_ids@ == Set::<u32>::empty(),
    ensures
        DeleteRequestView::documents(account_id, collection, document_ids.enumeration()).apply(
            records,
        ) == records,
{
    let request = DeleteRequestView::documents(
        account_id,
        collection,
        document_ids.enumeration(),
    );
    assert forall|i: int| 0 <= i < records.len() implies !request.deletes(
        #[trigger] records[i],
    ) by {
        if document_ids.enumeration().contains(records[i].document_id) {
            assert(document_ids@.contains(records[i].document_id));
        }
    }
    lemma_delete_nothing(request, records);
}

/// Removing documents of an account deletes exactly the records of that
/// account in the collection's index whose document is one of those listed.
pub proof fn lemma_remove_deletes(
    account_id: u32,
    collection: Collection,
    document_ids: Seq<u32>,
    record: Record,
)
    ensures
        DeleteRequestView::documents(account_id, collection, document_ids).deletes(record) <==> ({
            &&& record.index == collection.index()
            &&& record.account_id == account_id
            &&& document_ids.contains(record.document_id)
        }),
{
    let indices = seq![collection.index()];
    assert(indices[0] == collection.index());
}

/// Removing documents from one collection deletes nothing in the index of
/// another.
pub proof fn lemma_remove_spares_other_collections(
    account_id: u32,
    collection: Collection,
    document_ids: Seq<u32>,
    other: Collection,
    record: Record,
)
    requires
        other != collection,
        record.index == other.index(),
    ensures
        !DeleteRequestView::documents(account_id, collection, document_ids).deletes(record),
{
    lemma_remove_deletes(account_id, collection, document_ids, record);
    lemma_collections_differ(other, collection);
}

/// Removing an account leaves no record of it in the index of any
/// collection, and leaves every other record in place.
pub proof fn lemma_remove_all_clears_account(account_id: u32, records: Seq<Record>, record: Record)
    ensures
        DeleteRequestView::account(account_id).apply(records).contains(record) <==> ({
            &&& records.contains(record)
            &&& !(record.account_id == account_id && Collection::all_indices().contains(
                record.index,
            ))
        }),
{
    lemma_delete_keeps_the_rest(DeleteRequestView::account(account_id), records, record);
}

/// Once an account has been removed, removing documents of that account
/// deletes nothing more.
pub proof fn lemma_remove_after_remove_all(
    account_id: u32,
    collection: Collection,
    document_ids: Seq<u32>,
    records: Seq<Record>,
)
    ensures
        ({
            let cleared = DeleteRequestView::account(account_id).apply(records);
            DeleteRequestView::documents(account_id, collection, document_ids).apply(cleared)
                == cleared
        }),
{
    let cleared = DeleteRequestView::account(account_id).apply(records);
    let again = DeleteRequestView::documents(account_id, collection, document_ids);
    assert forall|i: int| 0 <= i < cleared.len() implies !again.deletes(#[trigger] cleared[i]) by {
        let record = cleared[i];
        lemma_remove_all_clears_account(account_id, records, record);
        lemma_remove_deletes(account_id, collection, document_ids, record);
        lemma_all_is_complete(collection);
    }
    lemma_delete_nothing(again, cleared);
}

/// A document that was indexed in a collection is deleted by a removal from
/// that collection exactly when the removal names its account and lists its
/// identifier: the two attributes are all that a removal goes by.
pub proof fn lemma_remove_finds_what_was_indexed(
    document: DocumentView,
    indexed_in: Collection,
    account_id: u32,
    collection: Collection,
    document_ids: Seq<u32>,
)
    ensures
        DeleteRequestView::documents(account_id, collection, document_ids).deletes(
            IndexRequestView::of(document, indexed_in).record(),
        ) <==> ({
            &&& indexed_in == collection
            &&& document.account_id == account_id
            &&& document_ids.contains(document.document_id)
        }),
{
    lemma_remove_deletes(
        account_id,
        collection,
        document_ids,
        IndexRequestView::of(document, indexed_in).record(),
    );
    if indexed_in != collection {
        lemma_collections_differ(indexed_in, collection);
    }
}

/// A document that was indexed, in whatever collection, is deleted by the
/// removal of an account exactly when it belongs to that account.
pub proof fn lemma_remove_all_finds_what_was_indexed(
    document: DocumentView,
    indexed_in: Collection,
    account_id: u32,
)
    ensures
        DeleteRequestView::account(account_id).deletes(
            IndexRequestView::of(document, indexed_in).record(),
        ) <==> document.account_id == account_id,
{
    lemma_all_is_complete(indexed_in);
}

/// Indexing adds a record even where an equal one is there already: the
/// backend keys its records itself, so a document indexed twice is held
/// twice until it is removed.
pub proof fn lemma_index_always_adds(request: IndexRequestView, records: Seq<Record>)
    ensures
        request.apply(records).len() == records.len() + 1,
        request.apply(records).last() == request.record(),
        request.apply(records).drop_last() == records,
{
}

} // verus!
