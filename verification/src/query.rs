//! Queries that say which records a deletion removes.

use vstd::prelude::*;
use serde_json::Value;
use crate::json::{Json, json_entry, json_list, json_number, json_numbers, json_tree, json_trees};

verus! {

/// A conjunction of clauses: a record is selected when its account is the
/// given one and, where a list of document identifiers is given, its
/// document identifier is in that list.
#[derive(Debug, Clone, PartialEq, Eq)]
pub struct DeleteQuery {
    pub account_id: u32,
    pub document_ids: Option<Vec<u32>>,
}

/// Mathematical value of a [`DeleteQuery`].
pub struct QueryView {
    pub account_id: u32,
    pub document_ids: Option<Seq<u32>>,
}

impl View for DeleteQuery {
    type V = QueryView;

    open spec fn view(&self) -> QueryView {
        QueryView {
            account_id: self.account_id,
            document_ids: match self.document_ids {
                Some(ids) => Some(ids@),
                None => None,
            },
        }
    }
}

impl QueryView {
    /// The query for the given documents of an account.
    pub open spec fn documents(account_id: u32, document_ids: Seq<u32>) -> QueryView {
        QueryView { account_id, document_ids: Some(document_ids) }
    }

    /// The query for every document of an account.
    pub open spec fn account(account_id: u32) -> QueryView {
        QueryView { account_id, document_ids: None }
    }

    /// Whether the query selects a record with these two attributes. A list
    /// without identifiers selects nothing.
    pub open spec fn selects(self, account_id: u32, document_id: u32) -> bool {
        &&& account_id == self.account_id
        &&& match self.document_ids {
            Some(ids) => ids.contains(document_id),
            None => true,
        }
    }

    /// The clause that asks for the account: `{"match": {"account_id": ..}}`.
    pub open spec fn account_clause(self) -> Json {
        Json::entry(
            "match"@,
            Json::entry("account_id"@, Json::Number(self.account_id as nat)),
        )
    }

    /// The clauses of the query, in the order in which they are sent: the
    /// account clause, then `{"terms": {"document_id": [..]}}` where a list
    /// of identifiers is given.
    pub open spec fn clauses(self) -> Seq<Json> {
        match self.document_ids {
            Some(ids) => seq![
                self.account_clause(),
                Json::entry("terms"@, Json::entry("document_id"@, Json::numbers(ids))),
            ],
            None => seq![self.account_clause()],
        }
    }

    /// The request body that states the query:
    /// `{"query": {"bool": {"must": [..]}}}` around the clauses.
    pub open spec fn body(self) -> Json {
        Json::entry(
            "query"@,
            Json::entry("bool"@, Json::entry("must"@, Json::List(self.clauses()))),
        )
    }
}

impl DeleteQuery {
    /// Whether the query selects a record with these two attributes.
    pub fn selects(&self, account_id: u32, document_id: u32) -> (selected: bool)
        ensures
            selected == self@.selects(account_id, document_id),
    {
        if account_id != self.account_id {
            return false;
        }
        match &self.document_ids {
            None => true,
            Some(ids) => {
                let mut at: usize = 0;
                while at < ids.len()
                    invariant
                        at <= ids@.len(),
                        account_id == self.account_id,
                        self@.document_ids == Some(ids@),
                        forall|i: int| 0 <= i < at ==> ids@[i] != document_id,
                    decreases ids@.len() - at,
                {
                    if ids[at] == document_id {
                        return true;
                    }
                    at += 1;
                }
                false
            },
        }
    }

    /// The request body that states the query to the backend.
    pub fn to_json(&self) -> (body: Value)
        ensures
            json_tree(body) == self@.body(),
    {
        let mut clauses: Vec<Value> = Vec::new();
        let account = json_entry(
            "match",
            json_entry("account_id", json_number(self.account_id)),
        );
        clauses.push(account);
        match &self.document_ids {
            Some(ids) => {
                let terms = json_entry("terms", json_entry("document_id", json_numbers(ids)));
                clauses.push(terms);
            },
            None => {},
        }
        assert(json_trees(clauses@) =~= self@.clauses());
        json_entry("query", json_entry("bool", json_entry("must", json_list(clauses))))
    }
}

} // verus!
