//! Full-text indexing adapter between a mail store and a search backend.
//!
//! The mail store hands over the text of one mail object as classified
//! fragments. [`project`] folds them into an [`IndexableDocument`], the record
//! that the backend indexes. [`ElasticSearchStore`] plans the three
//! operations on the backend: indexing one record, removing a set of
//! documents of an account from one collection, and removing an account from
//! every collection. An operation is a request to send and a judgement of
//! what came back; this crate makes both and leaves the sending to its
//! caller.
//!
//! The module [`backend`] says what the requests mean, over a model of the
//! backend's contents, and proves what the operations promise of it.

pub mod backend;
pub mod collection;
pub mod document;
pub mod document_set;
pub mod fragment;
pub mod json;
pub mod query;
pub mod store;

pub use collection::Collection;
pub use document::{project, Header, IndexableDocument};
pub use document_set::DocumentIdSet;
pub use fragment::{Field, TextFragment};
pub use query::DeleteQuery;
pub use store::{
    BackendReply, DeleteRequest, ElasticSearchStore, IndexError, IndexRequest, RemovalError,
};
