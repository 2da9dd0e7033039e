use loregui::errors::LoreGuiError;
use loregui::store::{
    get_content, get_description, mutate, query_days, query_descriptors, query_labels,
    query_relationships, query_timestamps, query_years, LabelMatch, Store, StoreMutation,
    StoreQuery, StoreReply, StoreRequest,
};
use loregui::types::EntityRelationship;

fn labels(filter: Option<&str>) -> StoreRequest {
    StoreRequest::Query(StoreQuery::Labels { name_contains: filter.map(str::to_string) })
}

#[test]
fn without_a_store_every_query_is_empty() {
    let db: Option<Store> = None;
    assert_eq!(query_labels(&db, None), Ok(vec![]));
    assert_eq!(query_labels(&db, Some("a".into())), Ok(vec![]));
    assert_eq!(query_descriptors(&db, "a".into(), None), Ok(vec![]));
    assert_eq!(get_description(&db, "a".into(), "b".into()), Ok(None));
    assert_eq!(query_years(&db, Some(1)), Ok(vec![]));
    assert_eq!(query_days(&db, 1, None), Ok(vec![]));
    assert_eq!(query_timestamps(&db, 1, Some(None)), Ok(vec![]));
    assert_eq!(get_content(&db, 5), Ok(None));
    assert_eq!(query_relationships(&db, None, None), Ok(vec![]));
}

#[test]
fn without_a_store_every_mutation_fails_with_no_database() {
    let db: Option<Store> = None;
    assert_eq!(
        mutate(&db, StoreMutation::CreateEntity { label: "a".into() }),
        Err(LoreGuiError::NoDatabase)
    );
    assert_eq!(
        mutate(&db, StoreMutation::DeleteHistoryItem { timestamp: 1 }),
        Err(LoreGuiError::NoDatabase)
    );
    assert_eq!(
        mutate(&db, StoreMutation::ChangeRole { parent: "a".into(), child: "b".into(), role: None }),
        Err(LoreGuiError::NoDatabase)
    );
}

#[test]
fn a_new_store_has_answered_nothing() {
    let store = Store::new();
    assert_eq!(store.len(), 0);
    assert_eq!(store.reply_to(&labels(None)), None);
    let db = Some(store);
    assert_eq!(query_labels(&db, None), Err(LoreGuiError::Unanswered(labels(None))));
    assert_eq!(
        mutate(&db, StoreMutation::DeleteEntity { label: "a".into() }),
        Err(LoreGuiError::Unanswered(StoreRequest::Mutation(StoreMutation::DeleteEntity {
            label: "a".into(),
        })))
    );
}

#[test]
fn a_recorded_reply_is_given_to_the_same_request_only() {
    let mut store = Store::new();
    store.record(labels(Some("a")), StoreReply::Labels(vec!["ab".into(), "ca".into()]));
    assert_eq!(store.len(), 1);
    let db = Some(store);
    assert_eq!(query_labels(&db, Some("a".into())), Ok(vec!["ab".to_string(), "ca".to_string()]));
    assert_eq!(query_labels(&db, None), Err(LoreGuiError::Unanswered(labels(None))));
    assert_eq!(
        query_labels(&db, Some("b".into())),
        Err(LoreGuiError::Unanswered(labels(Some("b"))))
    );
    assert_eq!(
        query_descriptors(&db, "a".into(), None),
        Err(LoreGuiError::Unanswered(StoreRequest::Query(StoreQuery::Descriptors {
            label: "a".into(),
            name_contains: None,
        })))
    );
}

#[test]
fn the_latest_reply_to_a_request_counts() {
    let mut store = Store::new();
    store.record(labels(None), StoreReply::Labels(vec!["old".into()]));
    store.record(labels(Some("x")), StoreReply::Labels(vec!["x".into()]));
    store.record(labels(None), StoreReply::Labels(vec!["new".into()]));
    assert_eq!(store.reply_to(&labels(None)), Some(&StoreReply::Labels(vec!["new".into()])));
    assert_eq!(store.reply_to(&labels(Some("x"))), Some(&StoreReply::Labels(vec!["x".into()])));
    store.clear();
    assert_eq!(store.len(), 0);
    assert_eq!(store.reply_to(&labels(None)), None);
}

#[test]
fn a_refusal_of_the_store_is_handed_on_with_its_text() {
    let mut store = Store::new();
    store.record(labels(None), StoreReply::Failed("no such table".into()));
    let request = StoreRequest::Mutation(StoreMutation::CreateEntity { label: "a".into() });
    store.record(request, StoreReply::Failed("constraint".into()));
    let db = Some(store);
    assert_eq!(query_labels(&db, None), Err(LoreGuiError::StoreError("no such table".into())));
    assert_eq!(
        mutate(&db, StoreMutation::CreateEntity { label: "a".into() }),
        Err(LoreGuiError::StoreError("constraint".into()))
    );
}

#[test]
fn a_mutation_that_was_carried_out_succeeds() {
    let mut store = Store::new();
    let mutation = StoreMutation::RedateHistoryItem { timestamp: 4, year: 2, day: None };
    store.record(StoreRequest::Mutation(mutation.clone()), StoreReply::Done);
    let db = Some(store);
    assert_eq!(mutate(&db, mutation), Ok(()));
    let other = StoreMutation::RedateHistoryItem { timestamp: 4, year: 2, day: Some(0) };
    assert_eq!(
        mutate(&db, other.clone()),
        Err(LoreGuiError::Unanswered(StoreRequest::Mutation(other)))
    );
}

#[test]
fn a_reply_of_the_wrong_kind_is_no_reply() {
    let mut store = Store::new();
    store.record(labels(None), StoreReply::Done);
    let request = StoreRequest::Mutation(StoreMutation::DeleteHistoryItem { timestamp: 1 });
    store.record(request.clone(), StoreReply::Labels(vec![]));
    let db = Some(store);
    assert_eq!(query_labels(&db, None), Err(LoreGuiError::Unanswered(labels(None))));
    assert_eq!(
        mutate(&db, StoreMutation::DeleteHistoryItem { timestamp: 1 }),
        Err(LoreGuiError::Unanswered(request))
    );
}

#[test]
fn the_content_of_a_timestamp_is_one_text_at_most() {
    let request = StoreRequest::Query(StoreQuery::Content { timestamp: 7 });
    let mut store = Store::new();
    store.record(request.clone(), StoreReply::Contents(vec![]));
    assert_eq!(get_content(&Some(store), 7), Ok(None));
    let mut store = Store::new();
    store.record(request.clone(), StoreReply::Contents(vec!["one".into()]));
    assert_eq!(get_content(&Some(store), 7), Ok(Some("one".to_string())));
    let mut store = Store::new();
    store.record(request, StoreReply::Contents(vec!["one".into(), "two".into()]));
    assert_eq!(get_content(&Some(store), 7), Err(LoreGuiError::MultipleResults));
}

#[test]
fn every_kind_of_query_gets_its_rows() {
    let mut store = Store::new();
    store.record(
        StoreRequest::Query(StoreQuery::Descriptors { label: "a".into(), name_contains: None }),
        StoreReply::Descriptors(vec!["d".into()]),
    );
    store.record(
        StoreRequest::Query(StoreQuery::Description { label: "a".into(), descriptor: "d".into() }),
        StoreReply::Description(Some("text".into())),
    );
    store.record(
        StoreRequest::Query(StoreQuery::Years { filter: None }),
        StoreReply::Years(vec![1, 2]),
    );
    store.record(
        StoreRequest::Query(StoreQuery::Days { year: 1, day_filter: Some(3) }),
        StoreReply::Days(vec![Some(3)]),
    );
    store.record(
        StoreRequest::Query(StoreQuery::Timestamps { year: 1, day: Some(None) }),
        StoreReply::Timestamps(vec![10]),
    );
    let relationship =
        EntityRelationship { parent: "p".into(), child: "c".into(), role: Some("r".into()) };
    store.record(
        StoreRequest::Query(StoreQuery::Relationships {
            parent: Some(LabelMatch { label: "p".into(), exact: true }),
            child: None,
        }),
        StoreReply::Relationships(vec![relationship.clone()]),
    );
    let db = Some(store);
    assert_eq!(query_descriptors(&db, "a".into(), None), Ok(vec!["d".to_string()]));
    assert_eq!(get_description(&db, "a".into(), "d".into()), Ok(Some("text".to_string())));
    assert_eq!(query_years(&db, None), Ok(vec![1, 2]));
    assert_eq!(query_days(&db, 1, Some(3)), Ok(vec![Some(3)]));
    assert_eq!(query_timestamps(&db, 1, Some(None)), Ok(vec![10]));
    assert!(matches!(query_timestamps(&db, 1, None), Err(LoreGuiError::Unanswered(_))));
    assert_eq!(
        query_relationships(&db, Some(LabelMatch { label: "p".into(), exact: true }), None),
        Ok(vec![relationship])
    );
    assert!(matches!(
        query_relationships(&db, Some(LabelMatch { label: "p".into(), exact: false }), None),
        Err(LoreGuiError::Unanswered(_))
    ));
}

#[test]
fn requests_are_the_same_when_they_ask_the_same() {
    let a = labels(Some("x"));
    assert!(a.same(&labels(Some("x"))));
    assert!(!a.same(&labels(Some("y"))));
    assert!(!a.same(&labels(None)));
    let create = StoreRequest::Mutation(StoreMutation::CreateEntity { label: "x".into() });
    let delete = StoreRequest::Mutation(StoreMutation::DeleteEntity { label: "x".into() });
    assert!(create.same(&create.clone()));
    assert!(!create.same(&delete));
    assert!(!create.same(&a));
    let with_role = StoreMutation::CreateRelationship {
        parent: "p".into(),
        child: "c".into(),
        role: Some("r".into()),
    };
    let without = StoreMutation::CreateRelationship { parent: "p".into(), child: "c".into(), role: None };
    assert!(with_role.same(&with_role.clone()));
    assert!(!with_role.same(&without));
    let exact = LabelMatch { label: "p".into(), exact: true };
    let part = LabelMatch { label: "p".into(), exact: false };
    assert!(exact.same(&exact.clone()));
    assert!(!exact.same(&part));
}

#[test]
fn the_words_of_an_error_name_its_kind() {
    assert_eq!(LoreGuiError::NoDatabase.message(), "no database is connected");
    assert_eq!(LoreGuiError::InputError("bad year".into()).message(), "input error: bad year");
    assert_eq!(
        LoreGuiError::MultipleResults.message(),
        "more than one result where at most one was expected"
    );
    assert_eq!(LoreGuiError::StoreError("locked".into()).message(), "the database failed: locked");
    assert_eq!(
        LoreGuiError::Unanswered(labels(None)).message(),
        "the database has not been asked yet"
    );
    let error = LoreGuiError::StoreError("x".into());
    assert_eq!(error.clone(), error);
}
