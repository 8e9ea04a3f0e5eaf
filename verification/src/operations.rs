//! How each client operation is carried out against the storage engine: under which
//! access reason it runs, through which entry point, and with which write guarantees.
use vstd::prelude::*;
use vstd::string::*;

verus! {

/// The operations of the embedded client.
#[derive(Debug, Clone, Copy, PartialEq, Eq, Structural)]
pub enum Operation {
    ListCollections,
    CreateCollection,
    DeleteCollection,
    UpsertPoints,
    DeletePoints,
    SearchPoints,
    QueryPoints,
    ScrollPoints,
    SetPayload,
    DeletePayload,
    ClearPayload,
    UpdateVectors,
    DeleteVectors,
    GetPoints,
    CountPoints,
    RecommendPoints,
    DiscoverPoints,
    Facet,
    SearchPointsMatrix,
    GroupPoints,
    GetCollectionInfo,
    UpdateCollection,
    CollectionExists,
    ListAliases,
    ListCollectionAliases,
    UpdateAliases,
    CreateSnapshot,
    ListSnapshots,
    DeleteSnapshot,
    RecoverFromSnapshot,
}

/// Ordering guarantee of a write.
#[derive(Debug, Clone, Copy, PartialEq, Eq, Structural)]
pub enum WriteOrdering {
    Weak,
    Medium,
    Strong,
}

/// What a write changes.
#[derive(Debug, Clone, Copy, PartialEq, Eq, Structural)]
pub enum UpdateCategory {
    Points,
    Payload,
    Vectors,
}

/// The entry point of the storage engine that carries out an operation.
#[derive(Debug, Clone, Copy, PartialEq, Eq, Structural)]
pub enum Route {
    /// A write through the table of contents.
    Update { category: UpdateCategory, wait: bool, ordering: WriteOrdering },
    /// A collection meta-operation submitted through the dispatcher, with no wait timeout.
    Meta,
    /// A read through the table of contents.
    Read,
    /// A collection looked up after an access check; `manage` asks for manage rights.
    CollectionAccess { manage: bool },
    /// A listing over all collections or aliases.
    Listing,
    /// A snapshot helper working through the dispatcher.
    Snapshot,
}

/// How one operation is carried out.
#[derive(Debug, Clone, Copy)]
pub struct OperationPlan {
    /// Reason recorded with the full access the operation runs under.
    pub access_reason: &'static str,
    pub route: Route,
    /// Whether the operation addresses all shards of the collection.
    pub all_shards: bool,
}

/// The access reason of each operation.
pub open spec fn access_reason_of(op: Operation) -> Seq<char> {
    match op {
        Operation::ListCollections => "list_collections"@,
        Operation::CreateCollection => "create_collection"@,
        Operation::DeleteCollection => "delete_collection"@,
        Operation::UpsertPoints => "upsert_points"@,
        Operation::DeletePoints => "delete_points"@,
        Operation::SearchPoints => "search"@,
        Operation::QueryPoints => "query"@,
        Operation::ScrollPoints => "scroll"@,
        Operation::SetPayload => "set_payload"@,
        Operation::DeletePayload => "delete_payload"@,
        Operation::ClearPayload => "clear_payload"@,
        Operation::UpdateVectors => "update_vectors"@,
        Operation::DeleteVectors => "delete_vectors"@,
        Operation::GetPoints => "get_points"@,
        Operation::CountPoints => "count_points"@,
        Operation::RecommendPoints => "recommend_points"@,
        Operation::DiscoverPoints => "discover_points"@,
        Operation::Facet => "facet"@,
        Operation::SearchPointsMatrix => "search_points_matrix"@,
        Operation::GroupPoints => "group_points"@,
        Operation::GetCollectionInfo => "get_collection_info"@,
        Operation::UpdateCollection => "update_collection"@,
        Operation::CollectionExists => "collection_exists"@,
        Operation::ListAliases => "list_aliases"@,
        Operation::ListCollectionAliases => "list_collection_aliases"@,
        Operation::UpdateAliases => "update_aliases"@,
        Operation::CreateSnapshot => "create_snapshot"@,
        Operation::ListSnapshots => "list_snapshots"@,
        Operation::DeleteSnapshot => "delete_snapshot"@,
        Operation::RecoverFromSnapshot => "recover_from_snapshot"@,
    }
}

/// A write of the given category: waited for, strongly ordered.
pub open spec fn strong_write(category: UpdateCategory) -> Route {
    Route::Update { category, wait: true, ordering: WriteOrdering::Strong }
}

/// The entry point of each operation.
pub open spec fn route_of(op: Operation) -> Route {
    match op {
        Operation::UpsertPoints | Operation::DeletePoints => strong_write(UpdateCategory::Points),
        Operation::SetPayload | Operation::DeletePayload | Operation::ClearPayload => strong_write(
            UpdateCategory::Payload,
        ),
        Operation::UpdateVectors | Operation::DeleteVectors => strong_write(UpdateCategory::Vectors),
        Operation::CreateCollection | Operation::DeleteCollection | Operation::UpdateCollection
        | Operation::UpdateAliases => Route::Meta,
        Operation::SearchPoints | Operation::QueryPoints | Operation::ScrollPoints
        | Operation::GetPoints | Operation::CountPoints | Operation::RecommendPoints
        | Operation::DiscoverPoints | Operation::Facet | Operation::SearchPointsMatrix
        | Operation::GroupPoints => Route::Read,
        Operation::CreateSnapshot => Route::CollectionAccess { manage: true },
        Operation::GetCollectionInfo | Operation::ListCollectionAliases
        | Operation::ListSnapshots => Route::CollectionAccess { manage: false },
        Operation::ListCollections | Operation::CollectionExists | Operation::ListAliases => Route::Listing,
        Operation::DeleteSnapshot | Operation::RecoverFromSnapshot => Route::Snapshot,
    }
}

/// Whether the operation addresses all shards: every write and read except the
/// query, whose requests carry their own shard selection, and the collection info.
pub open spec fn all_shards_of(op: Operation) -> bool {
    match route_of(op) {
        Route::Update { .. } => true,
        Route::Read => op != Operation::QueryPoints,
        _ => op == Operation::GetCollectionInfo,
    }
}

/// How `op` is carried out.
pub fn plan(op: Operation) -> (res: OperationPlan)
    ensures
        res.access_reason@ == access_reason_of(op),
        res.route == route_of(op),
        res.all_shards == all_shards_of(op),
{
    let points = Route::Update { category: UpdateCategory::Points, wait: true, ordering: WriteOrdering::Strong };
    let payload = Route::Update { category: UpdateCategory::Payload, wait: true, ordering: WriteOrdering::Strong };
    let vectors = Route::Update { category: UpdateCategory::Vectors, wait: true, ordering: WriteOrdering::Strong };
    let (access_reason, route, all_shards): (&'static str, Route, bool) = match op {
        Operation::ListCollections => ("list_collections", Route::Listing, false),
        Operation::CreateCollection => ("create_collection", Route::Meta, false),
        Operation::DeleteCollection => ("delete_collection", Route::Meta, false),
        Operation::UpsertPoints => ("upsert_points", points, true),
        Operation::DeletePoints => ("delete_points", points, true),
        Operation::SearchPoints => ("search", Route::Read, true),
        Operation::QueryPoints => ("query", Route::Read, false),
        Operation::ScrollPoints => ("scroll", Route::Read, true),
        Operation::SetPayload => ("set_payload", payload, true),
        Operation::DeletePayload => ("delete_payload", payload, true),
        Operation::ClearPayload => ("clear_payload", payload, true),
        Operation::UpdateVectors => ("update_vectors", vectors, true),
        Operation::DeleteVectors => ("delete_vectors", vectors, true),
        Operation::GetPoints => ("get_points", Route::Read, true),
        Operation::CountPoints => ("count_points", Route::Read, true),
        Operation::RecommendPoints => ("recommend_points", Route::Read, true),
        Operation::DiscoverPoints => ("discover_points", Route::Read, true),
        Operation::Facet => ("facet", Route::Read, true),
        Operation::SearchPointsMatrix => ("search_points_matrix", Route::Read, true),
        Operation::GroupPoints => ("group_points", Route::Read, true),
        Operation::GetCollectionInfo => (
            "get_collection_info",
            Route::CollectionAccess { manage: false },
            true,
        ),
        Operation::UpdateCollection => ("update_collection", Route::Meta, false),
        Operation::CollectionExists => ("collection_exists", Route::Listing, false),
        Operation::ListAliases => ("list_aliases", Route::Listing, false),
        Operation::ListCollectionAliases => (
            "list_collection_aliases",
            Route::CollectionAccess { manage: false },
            false,
        ),
        Operation::UpdateAliases => ("update_aliases", Route::Meta, false),
        Operation::CreateSnapshot => ("create_snapshot", Route::CollectionAccess { manage: true }, false),
        Operation::ListSnapshots => ("list_snapshots", Route::CollectionAccess { manage: false }, false),
        Operation::DeleteSnapshot => ("delete_snapshot", Route::Snapshot, false),
        Operation::RecoverFromSnapshot => ("recover_from_snapshot", Route::Snapshot, false),
    };
    OperationPlan { access_reason, route, all_shards }
}

/// Whether `name` is among the collection names `names`.
pub open spec fn names_contain(names: Seq<String>, name: Seq<char>) -> bool {
    exists|i: int| 0 <= i < names.len() && #[trigger] names[i]@ == name
}

/// Whether a collection called `name` is among `names`, the names that listing the
/// collections returns.
pub fn collection_exists_in(names: &Vec<String>, name: &str) -> (res: bool)
    ensures
        res == names_contain(names@, name@),
{
    let target = String::from_str(name);
    let mut i: usize = 0;
    while i < names.len()
        invariant
            i <= names.len(),
            target@ == name@,
            forall|j: int| 0 <= j < i ==> #[trigger] names@[j]@ != name@,
        decreases names.len() - i,
    {
        if names[i] == target {
            assert(names@[i as int]@ == name@);
            return true;
        }
        i += 1;
    }
    false
}

/// Every write is waited for, strongly ordered, and addresses all shards.
pub proof fn lemma_writes_are_strong(op: Operation)
    requires
        route_of(op) is Update,
    ensures
        route_of(op) matches Route::Update { wait, ordering, .. } && wait && ordering
            == WriteOrdering::Strong,
        all_shards_of(op),
{
}

/// Only snapshot creation asks for manage rights on the collection.
pub proof fn lemma_only_snapshot_creation_manages(op: Operation)
    ensures
        (route_of(op) == Route::CollectionAccess { manage: true }) <==> op
            == Operation::CreateSnapshot,
{
}

/// Which entry point each operation goes through: point, payload and vector writes
/// are waited-for, strongly ordered writes of their category; collection creation,
/// deletion and update and alias changes are meta-operations; the searches, queries,
/// scrolls, retrievals, counts, recommendations, discoveries, facets, distance
/// matrices and groupings are reads; collection info, collection aliases and the
/// snapshot listing and creation look the collection up; the listings and the
/// existence check go over all collections or aliases; snapshot deletion and recovery
/// use the snapshot helpers.
pub proof fn lemma_operation_routes(op: Operation)
    ensures
        (route_of(op) == Route::Update { category: UpdateCategory::Points, wait: true, ordering: WriteOrdering::Strong }) <==> (op == Operation::UpsertPoints || op == Operation::DeletePoints),
        (route_of(op) == Route::Update { category: UpdateCategory::Payload, wait: true, ordering: WriteOrdering::Strong }) <==> (op == Operation::SetPayload || op == Operation::DeletePayload || op == Operation::ClearPayload),
        (route_of(op) == Route::Update { category: UpdateCategory::Vectors, wait: true, ordering: WriteOrdering::Strong }) <==> (op == Operation::UpdateVectors || op == Operation::DeleteVectors),
        (route_of(op) is Update) <==> (op == Operation::UpsertPoints || op == Operation::DeletePoints || op == Operation::SetPayload || op == Operation::DeletePayload || op == Operation::ClearPayload || op == Operation::UpdateVectors || op == Operation::DeleteVectors),
        (route_of(op) == Route::Meta) <==> (op == Operation::CreateCollection || op == Operation::DeleteCollection || op == Operation::UpdateCollection || op == Operation::UpdateAliases),
        (route_of(op) == Route::Read) <==> (op == Operation::SearchPoints || op == Operation::QueryPoints || op == Operation::ScrollPoints || op == Operation::GetPoints || op == Operation::CountPoints || op == Operation::RecommendPoints || op == Operation::DiscoverPoints || op == Operation::Facet || op == Operation::SearchPointsMatrix || op == Operation::GroupPoints),
        (route_of(op) == Route::CollectionAccess { manage: false }) <==> (op == Operation::GetCollectionInfo || op == Operation::ListCollectionAliases || op == Operation::ListSnapshots),
        (route_of(op) == Route::Listing) <==> (op == Operation::ListCollections || op == Operation::CollectionExists || op == Operation::ListAliases),
        (route_of(op) == Route::Snapshot) <==> (op == Operation::DeleteSnapshot || op == Operation::RecoverFromSnapshot),
{
}

/// The operations that address all shards of the collection: every write, every read
/// except the query (whose requests carry their own shard selection), and the
/// collection info.
pub proof fn lemma_all_shards_operations(op: Operation)
    ensures
        all_shards_of(op) <==> (op == Operation::UpsertPoints || op == Operation::DeletePoints || op == Operation::SetPayload || op == Operation::DeletePayload || op == Operation::ClearPayload || op == Operation::UpdateVectors || op == Operation::DeleteVectors || op == Operation::SearchPoints || op == Operation::ScrollPoints || op == Operation::GetPoints || op == Operation::CountPoints || op == Operation::RecommendPoints || op == Operation::DiscoverPoints || op == Operation::Facet || op == Operation::SearchPointsMatrix || op == Operation::GroupPoints || op == Operation::GetCollectionInfo),
{
}

/// Different operations run under different access reasons.
pub proof fn lemma_access_reasons_distinct(a: Operation, b: Operation)
    requires
        a != b,
    ensures
        access_reason_of(a) != access_reason_of(b),
{
    reveal_strlit("list_collections");
    reveal_strlit("create_collection");
    reveal_strlit("delete_collection");
    reveal_strlit("upsert_points");
    reveal_strlit("delete_points");
    reveal_strlit("search");
    reveal_strlit("query");
    reveal_strlit("scroll");
    reveal_strlit("set_payload");
    reveal_strlit("delete_payload");
    reveal_strlit("clear_payload");
    reveal_strlit("update_vectors");
    reveal_strlit("delete_vectors");
    reveal_strlit("get_points");
    reveal_strlit("count_points");
    reveal_strlit("recommend_points");
    reveal_strlit("discover_points");
    reveal_strlit("facet");
    reveal_strlit("search_points_matrix");
    reveal_strlit("group_points");
    reveal_strlit("get_collection_info");
    reveal_strlit("update_collection");
    reveal_strlit("collection_exists");
    reveal_strlit("list_aliases");
    reveal_strlit("list_collection_aliases");
    reveal_strlit("update_aliases");
    reveal_strlit("create_snapshot");
    reveal_strlit("list_snapshots");
    reveal_strlit("delete_snapshot");
    reveal_strlit("recover_from_snapshot");
    let ra = access_reason_of(a);
    let rb = access_reason_of(b);
    if ra == rb {
        assert(ra.len() == rb.len());
        assert(ra[1] == rb[1]);
        if ra.len() > 7 {
            assert(ra[7] == rb[7]);
        }
    }
}

} // verus!
