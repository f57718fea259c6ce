use elastic_fts::{
    project, BackendReply, Collection, DeleteQuery, DeleteRequest, DocumentIdSet,
    ElasticSearchStore, Field, IndexError, IndexableDocument, RemovalError, TextFragment,
};
use serde_json::Value;

fn parse(text: &str) -> Value {
    serde_json::from_str(text).unwrap()
}

fn set_of(ids: &[u32]) -> DocumentIdSet {
    let mut set = DocumentIdSet::new();
    for id in ids {
        set.insert(*id);
    }
    set
}

/// A record of a pretended backend: index name, account, document.
type Record = (&'static str, u32, u32);

/// What a pretended backend holds after a deletion.
fn after(request: &DeleteRequest, records: &[Record]) -> Vec<Record> {
    records
        .iter()
        .filter(|(index, account_id, document_id)| {
            !(request.indices.contains(index) && request.query.selects(*account_id, *document_id))
        })
        .cloned()
        .collect()
}

fn some_records() -> Vec<Record> {
    vec![
        ("mail", 3, 5),
        ("mail", 3, 9),
        ("mail", 3, 9),
        ("mail", 3, 10),
        ("mail", 4, 5),
        ("contact", 3, 5),
        ("event", 3, 1),
        ("event", 7, 9),
        ("archive", 3, 5),
    ]
}

fn answered(code: u16) -> BackendReply {
    BackendReply::Status { code, debug: format!("Response {{ status_code: {} }}", code) }
}

#[test]
fn remove_builds_the_account_and_terms_query() {
    let store = ElasticSearchStore::new();
    let request = store.fts_remove(3, Collection::Mail, &set_of(&[5, 9]));
    assert_eq!(request.indices, vec!["mail"]);
    assert_eq!(request.query, DeleteQuery { account_id: 3, document_ids: Some(vec![5, 9]) });
    assert_eq!(
        request.query.to_json(),
        parse(
            r#"{"query":{"bool":{"must":[{"match":{"account_id":3}},{"terms":{"document_id":[5,9]}}]}}}"#
        )
    );
    assert_eq!(store.removal_outcome(answered(200)), Ok(()));
}

#[test]
fn remove_query_text_on_the_wire() {
    let request = ElasticSearchStore::new().fts_remove(3, Collection::Mail, &set_of(&[5, 9]));
    assert_eq!(
        request.query.to_json().to_string(),
        r#"{"query":{"bool":{"must":[{"match":{"account_id":3}},{"terms":{"document_id":[5,9]}}]}}}"#
    );
}

#[test]
fn remove_of_the_empty_set_still_plans_a_request() {
    let request = ElasticSearchStore::new().fts_remove(3, Collection::Contact, &DocumentIdSet::new());
    assert_eq!(request.indices, vec!["contact"]);
    assert_eq!(request.query, DeleteQuery { account_id: 3, document_ids: Some(vec![]) });
    assert_eq!(
        request.query.to_json(),
        parse(
            r#"{"query":{"bool":{"must":[{"match":{"account_id":3}},{"terms":{"document_id":[]}}]}}}"#
        )
    );
}

#[test]
fn remove_targets_the_index_of_its_collection_only() {
    let store = ElasticSearchStore::new();
    let ids = set_of(&[1]);
    assert_eq!(store.fts_remove(1, Collection::Mail, &ids).indices, vec!["mail"]);
    assert_eq!(store.fts_remove(1, Collection::Contact, &ids).indices, vec!["contact"]);
    assert_eq!(store.fts_remove(1, Collection::Event, &ids).indices, vec!["event"]);
}

#[test]
fn remove_lists_each_member_once_in_increasing_order() {
    let request =
        ElasticSearchStore::new().fts_remove(8, Collection::Mail, &set_of(&[9, 5, 9, 4000000000, 5]));
    assert_eq!(request.query.document_ids, Some(vec![5, 9, 4000000000]));
    assert_eq!(
        request.query.to_json(),
        parse(
            r#"{"query":{"bool":{"must":[{"match":{"account_id":8}},{"terms":{"document_id":[5,9,4000000000]}}]}}}"#
        )
    );
}

#[test]
fn remove_all_spans_every_index_and_asks_for_the_account_only() {
    let request = ElasticSearchStore::new().fts_remove_all(11);
    assert_eq!(request.indices, vec!["mail", "contact", "event"]);
    assert_eq!(request.query, DeleteQuery { account_id: 11, document_ids: None });
    assert_eq!(
        request.query.to_json(),
        parse(r#"{"query":{"bool":{"must":[{"match":{"account_id":11}}]}}}"#)
    );
    assert_eq!(
        request.query.to_json().to_string(),
        r#"{"query":{"bool":{"must":[{"match":{"account_id":11}}]}}}"#
    );
}

#[test]
fn remove_all_then_remove_plans_two_independent_requests() {
    let store = ElasticSearchStore::new();
    let all = store.fts_remove_all(4);
    let some = store.fts_remove(4, Collection::Event, &set_of(&[1, 2]));
    assert!(all.indices.contains(&some.indices[0]));
    assert_eq!(all.query.account_id, some.query.account_id);
    assert_eq!(store.removal_outcome(answered(200)), Ok(()));
    assert_eq!(store.removal_outcome(answered(200)), Ok(()));
}

#[test]
fn account_id_limits_reach_the_query() {
    let request = ElasticSearchStore::new().fts_remove_all(u32::MAX);
    assert_eq!(
        request.query.to_json(),
        parse(r#"{"query":{"bool":{"must":[{"match":{"account_id":4294967295}}]}}}"#)
    );
    let request = ElasticSearchStore::new().fts_remove_all(0);
    assert_eq!(
        request.query.to_json(),
        parse(r#"{"query":{"bool":{"must":[{"match":{"account_id":0}}]}}}"#)
    );
}

#[test]
fn index_targets_the_collection_and_keeps_the_document() {
    let document = project(
        7,
        42,
        vec![
            TextFragment { field: Field::Header("Subject".to_string()), text: "Hello".to_string() },
            TextFragment { field: Field::Body, text: "world".to_string() },
            TextFragment { field: Field::Keyword, text: "urgent".to_string() },
        ],
    );
    let request = ElasticSearchStore::new().fts_index(document.clone(), Collection::Mail);
    assert_eq!(request.index, "mail");
    assert_eq!(request.document, document);
    let request = ElasticSearchStore::new().fts_index(document.clone(), Collection::Event);
    assert_eq!(request.index, "event");
}

#[test]
fn document_on_the_wire() {
    let document = project(
        7,
        42,
        vec![
            TextFragment { field: Field::Header("Subject".to_string()), text: "Hello".to_string() },
            TextFragment { field: Field::Body, text: "world".to_string() },
            TextFragment { field: Field::Keyword, text: "urgent".to_string() },
            TextFragment { field: Field::Header("To".to_string()), text: "\"Ann\" <a@b.c>".to_string() },
            TextFragment { field: Field::Attachment, text: "line one\nline two".to_string() },
        ],
    );
    assert_eq!(
        document.to_json(),
        parse(
            r#"{
                "document_id": 42,
                "account_id": 7,
                "body": ["world"],
                "attachments": ["line one\nline two"],
                "keywords": ["urgent"],
                "header": [
                    {"name": "Subject", "value": "Hello"},
                    {"name": "To", "value": "\"Ann\" <a@b.c>"}
                ]
            }"#
        )
    );
}

#[test]
fn empty_document_on_the_wire() {
    assert_eq!(
        IndexableDocument::new(1, 2).to_json(),
        parse(
            r#"{"document_id":2,"account_id":1,"body":[],"attachments":[],"keywords":[],"header":[]}"#
        )
    );
}

#[test]
fn index_succeeds_on_a_success_status() {
    let store = ElasticSearchStore::new();
    assert_eq!(store.index_outcome(answered(200)), Ok(()));
    assert_eq!(store.index_outcome(answered(201)), Ok(()));
    assert_eq!(store.index_outcome(answered(299)), Ok(()));
}

#[test]
fn index_fails_on_a_non_success_status() {
    let store = ElasticSearchStore::new();
    let reply = BackendReply::Status { code: 500, debug: "Response { status_code: 500 }".to_string() };
    assert_eq!(
        store.index_outcome(reply),
        Err(IndexError { detail: "Failed to index document: Response { status_code: 500 }".to_string() })
    );
    for code in [100, 199, 300, 301, 400, 404, 429, 503, 999] {
        assert!(store.index_outcome(answered(code)).is_err(), "status {}", code);
    }
}

#[test]
fn numbers_that_are_no_status_are_no_success() {
    let store = ElasticSearchStore::new();
    for code in [0, 1, 99, 1000, 2000, u16::MAX] {
        assert!(store.index_outcome(answered(code)).is_err(), "status {}", code);
        assert!(store.removal_outcome(answered(code)).is_err(), "status {}", code);
    }
}

#[test]
fn index_fails_when_no_answer_arrives() {
    let reply = BackendReply::TransportFailure { description: "connection refused".to_string() };
    assert_eq!(
        ElasticSearchStore::new().index_outcome(reply),
        Err(IndexError { detail: "connection refused".to_string() })
    );
}

#[test]
fn removal_fails_on_a_non_success_status() {
    let store = ElasticSearchStore::new();
    let reply = BackendReply::Status { code: 404, debug: "Response { status_code: 404 }".to_string() };
    assert_eq!(
        store.removal_outcome(reply),
        Err(RemovalError {
            detail: "Failed to remove document: Response { status_code: 404 }".to_string()
        })
    );
    assert!(store.removal_outcome(answered(199)).is_err());
    assert!(store.removal_outcome(answered(300)).is_err());
    assert_eq!(store.removal_outcome(answered(204)), Ok(()));
}

#[test]
fn removal_fails_when_no_answer_arrives() {
    let reply = BackendReply::TransportFailure { description: "timed out".to_string() };
    assert_eq!(
        ElasticSearchStore::new().removal_outcome(reply),
        Err(RemovalError { detail: "timed out".to_string() })
    );
}

#[test]
fn a_failure_with_an_empty_answer_keeps_the_prefix() {
    let store = ElasticSearchStore::new();
    let reply = BackendReply::Status { code: 500, debug: String::new() };
    assert_eq!(
        store.index_outcome(reply.clone()),
        Err(IndexError { detail: "Failed to index document: ".to_string() })
    );
    assert_eq!(
        store.removal_outcome(reply),
        Err(RemovalError { detail: "Failed to remove document: ".to_string() })
    );
}

#[test]
fn collections_map_to_codes_and_indices() {
    assert_eq!(Collection::from_u8(0), Some(Collection::Mail));
    assert_eq!(Collection::from_u8(1), Some(Collection::Contact));
    assert_eq!(Collection::from_u8(2), Some(Collection::Event));
    assert_eq!(Collection::from_u8(3), None);
    assert_eq!(Collection::from_u8(u8::MAX), None);
    for collection in [Collection::Mail, Collection::Contact, Collection::Event] {
        assert_eq!(Collection::from_u8(collection.as_u8()), Some(collection));
    }
    assert_eq!(Collection::Mail.index_name(), "mail");
    assert_eq!(Collection::Contact.index_name(), "contact");
    assert_eq!(Collection::Event.index_name(), "event");
    assert_eq!(Collection::index_names(), vec!["mail", "contact", "event"]);
}

#[test]
fn document_id_set_holds_each_member_once() {
    let mut set = DocumentIdSet::new();
    assert!(set.is_empty());
    assert_eq!(set.len(), 0);
    assert!(!set.contains(5));
    assert!(set.insert(5));
    assert!(set.insert(9));
    assert!(!set.insert(5));
    assert!(set.insert(0));
    assert!(set.insert(u32::MAX));
    assert_eq!(set.len(), 4);
    assert!(!set.is_empty());
    assert!(set.contains(5) && set.contains(9) && set.contains(0) && set.contains(u32::MAX));
    assert!(!set.contains(6));
    assert_eq!(set.iterate(), vec![0, 5, 9, u32::MAX]);
}

#[test]
fn document_id_set_lists_in_increasing_order_whatever_the_insertion_order() {
    let inserted = [7, 3, 9, 1, 8, 2, 6, 4, 5, 0, 5, 9, 0];
    let mut set = DocumentIdSet::new();
    for id in inserted {
        set.insert(id);
    }
    assert_eq!(set.iterate(), vec![0, 1, 2, 3, 4, 5, 6, 7, 8, 9]);
    assert_eq!(set.len(), 10);
    for id in 0..10 {
        assert!(set.contains(id));
    }
    assert!(!set.contains(10));
    let mut descending = DocumentIdSet::new();
    for id in (0..200u32).rev() {
        assert!(descending.insert(id * 3));
    }
    assert_eq!(descending.iterate(), (0..200u32).map(|id| id * 3).collect::<Vec<u32>>());
    assert!(descending.contains(597) && !descending.contains(598));
}

#[test]
fn query_selects_by_account_and_membership() {
    let some = DeleteQuery { account_id: 3, document_ids: Some(vec![5, 9]) };
    assert!(some.selects(3, 5));
    assert!(some.selects(3, 9));
    assert!(!some.selects(3, 6));
    assert!(!some.selects(4, 5));
    let all = DeleteQuery { account_id: 3, document_ids: None };
    assert!(all.selects(3, 0));
    assert!(all.selects(3, u32::MAX));
    assert!(!all.selects(2, 0));
    let none = DeleteQuery { account_id: 3, document_ids: Some(vec![]) };
    assert!(!none.selects(3, 0));
    assert!(!none.selects(3, 5));
}

#[test]
fn remove_deletes_the_listed_documents_of_the_account_in_its_index() {
    let request = ElasticSearchStore::new().fts_remove(3, Collection::Mail, &set_of(&[5, 9]));
    assert_eq!(
        after(&request, &some_records()),
        vec![
            ("mail", 3, 10),
            ("mail", 4, 5),
            ("contact", 3, 5),
            ("event", 3, 1),
            ("event", 7, 9),
            ("archive", 3, 5),
        ]
    );
}

#[test]
fn remove_of_the_empty_set_deletes_nothing() {
    let store = ElasticSearchStore::new();
    for collection in [Collection::Mail, Collection::Contact, Collection::Event] {
        let request = store.fts_remove(3, collection, &DocumentIdSet::new());
        assert_eq!(after(&request, &some_records()), some_records());
    }
}

#[test]
fn remove_all_deletes_the_account_from_every_index_of_the_table() {
    let request = ElasticSearchStore::new().fts_remove_all(3);
    assert_eq!(
        after(&request, &some_records()),
        vec![("mail", 4, 5), ("event", 7, 9), ("archive", 3, 5)]
    );
}

#[test]
fn remove_after_remove_all_deletes_nothing_more() {
    let store = ElasticSearchStore::new();
    let cleared = after(&store.fts_remove_all(3), &some_records());
    for collection in [Collection::Mail, Collection::Contact, Collection::Event] {
        let again = store.fts_remove(3, collection, &set_of(&[1, 5, 9, 10]));
        assert_eq!(after(&again, &cleared), cleared);
    }
    assert_eq!(store.removal_outcome(answered(200)), Ok(()));
}
