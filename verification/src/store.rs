//! The three operations against the backend, each as the request to send
//! and the judgement of what came back.
//!
//! Nothing here talks to the network. A caller sends the request that an
//! operation plans, reports the reply as a [`BackendReply`], and gets the
//! operation's result from the matching `*_outcome` function.

use vstd::prelude::*;
use vstd::string::StringExecFns;
use elasticsearch::http::StatusCode;
use crate::collection::{Collection, index_name_views};
use crate::document::{DocumentView, IndexableDocument};
use crate::document_set::DocumentIdSet;
use crate::query::{DeleteQuery, QueryView};

verus! {

/// A request to add one record to one index.
///
/// The request names no key for the record: the backend gives it one of its
/// own, and the record is found again only by its attributes.
#[derive(Debug, Clone, PartialEq, Eq)]
pub struct IndexRequest {
    /// Name of the index that receives the record.
    pub index: &'static str,
    /// The record to add.
    pub document: IndexableDocument,
}

/// Mathematical value of an [`IndexRequest`].
pub struct IndexRequestView {
    pub index: Seq<char>,
    pub document: DocumentView,
}

impl View for IndexRequest {
    type V = IndexRequestView;

    open spec fn view(&self) -> IndexRequestView {
        IndexRequestView { index: self.index@, document: self.document@ }
    }
}

/// A request to delete, from the named indices, every record that the query
/// selects.
#[derive(Debug, Clone, PartialEq, Eq)]
pub struct DeleteRequest {
    /// Names of the indices to delete from.
    pub indices: Vec<&'static str>,
    /// Which records to delete.
    pub query: DeleteQuery,
}

/// Mathematical value of a [`DeleteRequest`].
pub struct DeleteRequestView {
    pub indices: Seq<Seq<char>>,
    pub query: QueryView,
}

impl View for DeleteRequest {
    type V = DeleteRequestView;

    open spec fn view(&self) -> DeleteRequestView {
        DeleteRequestView { indices: index_name_views(self.indices@), query: self.query@ }
    }
}

impl IndexRequestView {
    /// The request that indexes `document` as a member of `collection`.
    pub open spec fn of(document: DocumentView, collection: Collection) -> IndexRequestView {
        IndexRequestView { index: collection.index(), document }
    }
}

impl DeleteRequestView {
    /// The request that removes the listed documents of an account from the
    /// index of one collection.
    pub open spec fn documents(
        account_id: u32,
        collection: Collection,
        document_ids: Seq<u32>,
    ) -> DeleteRequestView {
        DeleteRequestView {
            indices: seq![collection.index()],
            query: QueryView::documents(account_id, document_ids),
        }
    }

    /// The request that removes every document of an account from the
    /// indices of all collections at once.
    pub open spec fn account(account_id: u32) -> DeleteRequestView {
        DeleteRequestView {
            indices: Collection::all_indices(),
            query: QueryView::account(account_id),
        }
    }
}

/// What came back for a request.
#[derive(Debug, Clone, PartialEq, Eq)]
pub enum BackendReply {
    /// The backend answered.
    Status {
        /// The status code of the answer.
        code: u16,
        /// The answer, formatted for diagnostics.
        debug: String,
    },
    /// No answer arrived.
    TransportFailure {
        /// What the transport says went wrong.
        description: String,
    },
}

/// Mathematical value of a [`BackendReply`].
pub enum ReplyView {
    Status { code: u16, debug: Seq<char> },
    TransportFailure { description: Seq<char> },
}

impl View for BackendReply {
    type V = ReplyView;

    open spec fn view(&self) -> ReplyView {
        match self {
            BackendReply::Status { code, debug } => ReplyView::Status {
                code: *code,
                debug: debug@,
            },
            BackendReply::TransportFailure { description } => ReplyView::TransportFailure {
                description: description@,
            },
        }
    }
}

/// Whether a status code reports success: the codes from 200 to 299 do.
pub open spec fn is_success(code: u16) -> bool {
    200 <= code <= 299
}

impl ReplyView {
    /// The request succeeded: the backend answered with a success status.
    pub open spec fn succeeded(self) -> bool {
        self matches ReplyView::Status { code, .. } && is_success(code)
    }

    /// What the error of a failed request says: the answer after `prefix`
    /// where the backend answered, the transport's words where it did not.
    pub open spec fn failure_detail(self, prefix: Seq<char>) -> Seq<char> {
        match self {
            ReplyView::Status { debug, .. } => prefix + debug,
            ReplyView::TransportFailure { description } => description,
        }
    }
}

/// Indexing a document failed.
#[derive(Debug, Clone, PartialEq, Eq)]
pub struct IndexError {
    /// What came back, for diagnostics.
    pub detail: String,
}

/// A removal failed.
#[derive(Debug, Clone, PartialEq, Eq)]
pub struct RemovalError {
    /// What came back, for diagnostics.
    pub detail: String,
}

/// How the detail of an [`IndexError`] begins where the backend answered.
pub open spec fn index_failure_prefix() -> Seq<char> {
    "Failed to index document: "@
}

/// How the detail of a [`RemovalError`] begins where the backend answered.
pub open spec fn removal_failure_prefix() -> Seq<char> {
    "Failed to remove document: "@
}

/// The adapter between the mail store and the search backend.
#[derive(Debug, Clone, Copy)]
pub struct ElasticSearchStore {}

impl ElasticSearchStore {
    /// The adapter. It keeps no state.
    pub fn new() -> ElasticSearchStore {
        ElasticSearchStore {  }
    }

    /// Plans the indexing of one document: the request adds the document,
    /// unchanged, to the index of its collection.
    pub fn fts_index(&self, document: IndexableDocument, collection: Collection) -> (request:
        IndexRequest)
        ensures
            request.document == document,
            request@ == IndexRequestView::of(document@, collection),
    {
        IndexRequest { index: collection.index_name(), document }
    }

    /// Plans the removal of a set of documents of one account from one
    /// collection. A request is planned for the empty set too.
    pub fn fts_remove(
        &self,
        account_id: u32,
        collection: Collection,
        document_ids: &DocumentIdSet,
    ) -> (request: DeleteRequest)
        ensures
            request@ == DeleteRequestView::documents(
                account_id,
                collection,
                document_ids.enumeration(),
            ),
            request@.indices == seq![collection.index()],
            forall|account: u32, document: u32|
                #[trigger] request@.query.selects(account, document) <==> account == account_id
                    && document_ids@.contains(document),
    {
        let mut indices: Vec<&'static str> = Vec::new();
        indices.push(collection.index_name());
        let request = DeleteRequest {
            indices,
            query: DeleteQuery { account_id, document_ids: Some(document_ids.iterate()) },
        };
        assert(request@.indices =~= seq![collection.index()]);
        request
    }

    /// Plans the removal of every document of one account, whatever its
    /// collection, as a single request.
    pub fn fts_remove_all(&self, account_id: u32) -> (request: DeleteRequest)
        ensures
            request@ == DeleteRequestView::account(account_id),
            request@.indices == Collection::all_indices(),
            forall|account: u32, document: u32|
                #[trigger] request@.query.selects(account, document) <==> account == account_id,
    {
        DeleteRequest {
            indices: Collection::index_names(),
            query: DeleteQuery { account_id, document_ids: None },
        }
    }

    /// The result of an indexing request, given what came back for it.
    pub fn index_outcome(&self, reply: BackendReply) -> (outcome: Result<(), IndexError>)
        ensures
            outcome is Ok <==> reply@.succeeded(),
            outcome matches Err(error) ==> error.detail@ == reply@.failure_detail(
                index_failure_prefix(),
            ),
    {
        match failure_detail("Failed to index document: ", reply) {
            None => Ok(()),
            Some(detail) => Err(IndexError { detail }),
        }
    }

    /// The result of a removal request, given what came back for it.
    pub fn removal_outcome(&self, reply: BackendReply) -> (outcome: Result<(), RemovalError>)
        ensures
            outcome is Ok <==> reply@.succeeded(),
            outcome matches Err(error) ==> error.detail@ == reply@.failure_detail(
                removal_failure_prefix(),
            ),
    {
        match failure_detail("Failed to remove document: ", reply) {
            None => Ok(()),
            Some(detail) => Err(RemovalError { detail }),
        }
    }
}

/// What the error of a request says, if the reply shows that it failed.
fn failure_detail(prefix: &str, reply: BackendReply) -> (detail: Option<String>)
    ensures
        detail is None <==> reply@.succeeded(),
        detail matches Some(text) ==> text@ == reply@.failure_detail(prefix@),
{
    match reply {
        BackendReply::Status { code, debug } => {
            if status_is_success(code) {
                None
            } else {
                Some(String::from_str(prefix).concat(debug.as_str()))
            }
        },
        BackendReply::TransportFailure { description } => Some(description),
    }
}

/// `StatusCode::is_success` of the `http` crate, on the status that
/// `StatusCode::from_u16` makes of `code`: true for the codes from 200 to
/// 299. A number that is no status code at all is no success.
#[verifier::external_body]
fn status_is_success(code: u16) -> (success: bool)
    ensures
        success == is_success(code),
{
    match StatusCode::from_u16(code) {
        Ok(status) => status.is_success(),
        Err(_) => false,
    }
}

} // verus!
