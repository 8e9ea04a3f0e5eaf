use qdrant_embedded::operations::{
    collection_exists_in, plan, Operation, Route, UpdateCategory, WriteOrdering,
};

#[test]
fn writes_wait_strongly_on_all_shards() {
    for (op, cat, reason) in [
        (Operation::UpsertPoints, UpdateCategory::Points, "upsert_points"),
        (Operation::DeletePoints, UpdateCategory::Points, "delete_points"),
        (Operation::SetPayload, UpdateCategory::Payload, "set_payload"),
        (Operation::DeletePayload, UpdateCategory::Payload, "delete_payload"),
        (Operation::ClearPayload, UpdateCategory::Payload, "clear_payload"),
        (Operation::UpdateVectors, UpdateCategory::Vectors, "update_vectors"),
        (Operation::DeleteVectors, UpdateCategory::Vectors, "delete_vectors"),
    ] {
        let p = plan(op);
        assert_eq!(p.access_reason, reason);
        assert_eq!(p.route, Route::Update { category: cat, wait: true, ordering: WriteOrdering::Strong });
        assert!(p.all_shards);
    }
}

#[test]
fn reads_and_meta_operations() {
    let p = plan(Operation::SearchPoints);
    assert_eq!(p.access_reason, "search");
    assert_eq!(p.route, Route::Read);
    assert!(p.all_shards);
    let p = plan(Operation::QueryPoints);
    assert_eq!(p.access_reason, "query");
    assert_eq!(p.route, Route::Read);
    assert!(!p.all_shards);
    let p = plan(Operation::CreateCollection);
    assert_eq!(p.access_reason, "create_collection");
    assert_eq!(p.route, Route::Meta);
    let p = plan(Operation::UpdateAliases);
    assert_eq!(p.access_reason, "update_aliases");
    assert_eq!(p.route, Route::Meta);
    let p = plan(Operation::CreateSnapshot);
    assert_eq!(p.route, Route::CollectionAccess { manage: true });
    let p = plan(Operation::ListSnapshots);
    assert_eq!(p.route, Route::CollectionAccess { manage: false });
    let p = plan(Operation::GetCollectionInfo);
    assert_eq!(p.access_reason, "get_collection_info");
    assert!(p.all_shards);
    let p = plan(Operation::CollectionExists);
    assert_eq!(p.access_reason, "collection_exists");
    assert_eq!(p.route, Route::Listing);
    let p = plan(Operation::RecoverFromSnapshot);
    assert_eq!(p.access_reason, "recover_from_snapshot");
    assert_eq!(p.route, Route::Snapshot);
}

#[test]
fn collection_exists_checks_listed_names() {
    let names = vec!["test".to_string(), "my_collection".to_string()];
    assert!(collection_exists_in(&names, "test"));
    assert!(collection_exists_in(&names, "my_collection"));
    assert!(!collection_exists_in(&names, "missing"));
    assert!(!collection_exists_in(&names, "tes"));
    assert!(!collection_exists_in(&Vec::new(), "test"));
}
