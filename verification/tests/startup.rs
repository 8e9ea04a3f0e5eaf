use qdrant_embedded::startup::{
    default_optimizers_config, join_path_component, resolve_cpu_budget, resolve_io_budget,
    wrap_to_isize, MmapAdvice, NodeType, StartupPlan, DEFAULT_DELETED_THRESHOLD_BITS,
};
use qdrant_embedded::{EmbeddedConfig, OptimizersConfig};

type Config = EmbeddedConfig<u32, u64, String>;

type Plan = StartupPlan<u32, u64, String, u8, u16>;

fn plan_on(c: Config, cpus: usize) -> Plan {
    c.startup_plan(cpus)
}

fn plan(c: Config) -> Plan {
    plan_on(c, 8)
}

#[test]
fn default_config_starts_with_documented_defaults() {
    let p = plan(Config::default());
    assert_eq!(p.storage.storage_path, "./qdrant_storage");
    assert_eq!(p.storage.snapshots_path, "./qdrant_storage/snapshots");
    assert_eq!(p.storage.temp_path, None);
    assert_eq!(p.search_runtime_threads, 4);
    assert_eq!(p.update_runtime_threads, 2);
    assert_eq!(p.search_thread_name, "search");
    assert_eq!(p.update_thread_name, "update");
    assert_eq!(p.storage.performance.max_search_threads, 4);
    assert_eq!(p.storage.performance.max_optimization_runtime_threads, 2);
    assert_eq!(p.storage.performance.optimizer_cpu_budget, 0);
    assert_eq!(p.storage.performance.optimizer_io_budget, 0);
    assert_eq!(p.storage.performance.async_scorer, None);
    assert_eq!(p.storage.performance.incoming_shard_transfers_limit, None);
    assert_eq!(p.optimizer_cpu_budget, 7);
    assert_eq!(p.optimizer_io_budget, 7);
    assert!(!p.storage.on_disk_payload);
    assert_eq!(p.storage.snapshots_config, 0);
    assert_eq!(p.storage.hnsw_global_config, 0);
    assert!(!p.storage.optimizers_overwrite);
    assert_eq!(p.storage.mmap_advice, MmapAdvice::Random);
    assert_eq!(p.storage.node_type, NodeType::Normal);
    assert_eq!(p.storage.update_concurrency, None);
    assert_eq!(p.storage.shard_transfer_method, None);
    assert_eq!(p.storage.wal, 0);
    assert_eq!(p.storage.hnsw_index, 0);
    assert_eq!(p.storage.collection, None);
    assert!(!p.storage.handle_collection_load_errors);
    assert_eq!(p.storage.recovery_mode, None);
    assert_eq!(p.channel_http_port, 1000);
    assert_eq!(p.this_peer_id, 0);
    assert_eq!(p.storage.optimizers, default_optimizers_config());
}

#[test]
fn default_optimizers_values() {
    let o = default_optimizers_config();
    assert_eq!(f64::from_bits(o.deleted_threshold), 0.1);
    assert_eq!(o.deleted_threshold, DEFAULT_DELETED_THRESHOLD_BITS);
    assert_eq!(o.vacuum_min_vector_number, 1000);
    assert_eq!(o.default_segment_number, 0);
    assert_eq!(o.max_segment_size, None);
    assert_eq!(o.memmap_threshold, None);
    assert_eq!(o.indexing_threshold, Some(100_000));
    assert_eq!(o.flush_interval_sec, 60);
    assert_eq!(o.max_optimization_threads, None);
}

#[test]
fn configured_values_are_taken() {
    let opt = OptimizersConfig {
        deleted_threshold: 0.2f64.to_bits(),
        vacuum_min_vector_number: 10,
        default_segment_number: 5,
        max_segment_size: Some(7),
        memmap_threshold: None,
        indexing_threshold: Some(50_000),
        flush_interval_sec: 30,
        max_optimization_threads: Some(3),
    };
    let c = Config::builder()
        .storage_path("/data/qdrant")
        .snapshots_path("/backup/snaps")
        .temp_path("/tmp/qdrant")
        .search_threads(8)
        .optimizer_threads(3)
        .io_limit(16)
        .cpu_limit(6)
        .update_rate_limit(1000)
        .search_timeout_sec(30)
        .async_scorer(true)
        .on_disk_payload(true)
        .optimizers_config(opt)
        .wal_config(64)
        .hnsw_config(48)
        .collection_defaults("d".to_string())
        .max_collections(100)
        .update_queue_size(500)
        .build();
    let p = plan(c);
    assert_eq!(p.storage.storage_path, "/data/qdrant");
    assert_eq!(p.storage.snapshots_path, "/backup/snaps");
    assert_eq!(p.storage.temp_path.as_deref(), Some("/tmp/qdrant"));
    assert_eq!(p.search_runtime_threads, 8);
    assert_eq!(p.update_runtime_threads, 3);
    assert_eq!(p.storage.performance.max_search_threads, 8);
    assert_eq!(p.storage.performance.max_optimization_runtime_threads, 3);
    assert_eq!(p.storage.performance.optimizer_cpu_budget, 6);
    assert_eq!(p.storage.performance.optimizer_io_budget, 16);
    assert_eq!(p.storage.performance.update_rate_limit, Some(1000));
    assert_eq!(p.storage.performance.search_timeout_sec, Some(30));
    assert_eq!(p.storage.performance.async_scorer, Some(true));
    assert_eq!(p.optimizer_cpu_budget, 6);
    assert_eq!(p.optimizer_io_budget, 16);
    assert!(p.storage.on_disk_payload);
    assert_eq!(p.storage.optimizers, opt);
    assert_eq!(p.storage.wal, 64);
    assert_eq!(p.storage.hnsw_index, 48);
    assert_eq!(p.storage.collection.as_deref(), Some("d"));
    assert_eq!(p.storage.max_collections, Some(100));
    assert_eq!(p.storage.update_queue_size, Some(500));
}

#[test]
fn snapshots_default_under_storage_path() {
    let p = plan(Config::builder().storage_path("/data/qdrant").build());
    assert_eq!(p.storage.snapshots_path, "/data/qdrant/snapshots");
    let p = plan(Config::builder().storage_path("/data/").build());
    assert_eq!(p.storage.snapshots_path, "/data/snapshots");
    let p = plan(Config::builder().storage_path("").build());
    assert_eq!(p.storage.snapshots_path, "snapshots");
}

#[test]
fn join_path_component_cases() {
    assert_eq!(join_path_component("a", "b"), "a/b");
    assert_eq!(join_path_component("a/", "b"), "a/b");
    assert_eq!(join_path_component("", "b"), "b");
    assert_eq!(join_path_component("/", "b"), "/b");
    assert_eq!(join_path_component("dé", "x"), "dé/x");
    assert_eq!(join_path_component("/data", "/abs"), "/abs");
    assert_eq!(join_path_component("a", ""), "a/");
}

#[test]
fn cpu_limit_wraps_like_as_isize() {
    assert_eq!(wrap_to_isize(0), 0);
    assert_eq!(wrap_to_isize(6), 6);
    assert_eq!(wrap_to_isize(isize::MAX as usize), isize::MAX);
    assert_eq!(wrap_to_isize(usize::MAX), -1);
    assert_eq!(wrap_to_isize(isize::MAX as usize + 1), isize::MIN);
    for v in [0usize, 1, 7, isize::MAX as usize, isize::MAX as usize + 5, usize::MAX - 3] {
        assert_eq!(wrap_to_isize(v), v as isize);
    }
}

#[test]
fn zero_or_unset_limits_are_automatic() {
    let p = plan_on(Config::builder().cpu_limit(0).io_limit(0).build(), 16);
    assert_eq!(p.storage.performance.optimizer_cpu_budget, 0);
    assert_eq!(p.storage.performance.optimizer_io_budget, 0);
    assert_eq!(p.optimizer_cpu_budget, 15);
    assert_eq!(p.optimizer_io_budget, 15);
    assert_eq!(plan_on(Config::default(), 1).optimizer_cpu_budget, 1);
    assert_eq!(plan_on(Config::default(), 2).optimizer_cpu_budget, 1);
    assert_eq!(plan_on(Config::default(), 3).optimizer_cpu_budget, 2);
    assert_eq!(plan_on(Config::default(), 32).optimizer_cpu_budget, 31);
    assert_eq!(plan_on(Config::default(), 64).optimizer_cpu_budget, 62);
    assert_eq!(plan_on(Config::default(), 0).optimizer_io_budget, 1);
    let p = plan_on(Config::builder().cpu_limit(3).build(), 16);
    assert_eq!(p.optimizer_cpu_budget, 3);
    assert_eq!(p.optimizer_io_budget, 3);
}

#[test]
fn huge_cpu_limit_is_automatic() {
    let p = plan_on(Config::builder().cpu_limit(usize::MAX).build(), 8);
    assert_eq!(p.storage.performance.optimizer_cpu_budget, -1);
    assert_eq!(p.optimizer_cpu_budget, 7);
    let p = plan_on(Config::builder().cpu_limit(usize::MAX - 2).build(), 8);
    assert_eq!(p.storage.performance.optimizer_cpu_budget, -3);
    assert_eq!(p.optimizer_cpu_budget, 7);
    assert_eq!(p.optimizer_io_budget, 7);
    let p = plan_on(Config::builder().cpu_limit(isize::MAX as usize + 1).build(), 8);
    assert_eq!(p.storage.performance.optimizer_cpu_budget, isize::MIN);
    assert_eq!(p.optimizer_cpu_budget, 7);
    let p = plan_on(Config::builder().cpu_limit(isize::MAX as usize).build(), 8);
    assert_eq!(p.optimizer_cpu_budget, isize::MAX as usize);
}

#[test]
fn budget_resolution() {
    assert_eq!(resolve_cpu_budget(5, 2), 5);
    assert_eq!(resolve_cpu_budget(0, 4), 3);
    assert_eq!(resolve_cpu_budget(-2, 8), 7);
    assert_eq!(resolve_cpu_budget(-8, 2), 1);
    assert_eq!(resolve_cpu_budget(isize::MIN, 40), 38);
    assert_eq!(resolve_io_budget(0, 6), 6);
    assert_eq!(resolve_io_budget(4, 6), 4);
}

#[test]
fn runtime_sizes_match_limits() {
    let p = plan(Config::builder().search_threads(1).optimizer_threads(9).io_limit(2).build());
    assert_eq!(p.search_runtime_threads, p.storage.performance.max_search_threads);
    assert_eq!(p.update_runtime_threads, p.storage.performance.max_optimization_runtime_threads);
    assert_eq!(p.optimizer_io_budget, 2);
    assert_eq!(p.update_runtime_threads, 9);
}
