use qdrant_embedded::{EmbeddedConfig, OptimizersConfig};

type Config = EmbeddedConfig<u32, u64, String>;

#[test]
fn default_config_uses_qdrant_storage() {
    let c = Config::default();
    assert_eq!(c.storage_path, "./qdrant_storage");
    assert_eq!(c.snapshots_path, None);
    assert_eq!(c.search_threads, None);
    assert_eq!(c.wal_config, None);
    assert_eq!(c.max_collections, None);
}

#[test]
fn builder_starts_from_default() {
    let c = Config::builder().build();
    assert_eq!(c.storage_path, "./qdrant_storage");
    assert_eq!(c.temp_path, None);
    assert_eq!(c.update_queue_size, None);
}

#[test]
fn builder_sets_each_field() {
    let opt = OptimizersConfig {
        deleted_threshold: 0.2f64.to_bits(),
        vacuum_min_vector_number: 1000,
        default_segment_number: 5,
        max_segment_size: None,
        memmap_threshold: None,
        indexing_threshold: Some(50_000),
        flush_interval_sec: 30,
        max_optimization_threads: None,
    };
    let c = Config::builder()
        .storage_path("/data/qdrant")
        .snapshots_path("/backup/qdrant-snapshots")
        .temp_path("/tmp/qdrant")
        .search_threads(8)
        .optimizer_threads(4)
        .io_limit(8)
        .cpu_limit(6)
        .update_rate_limit(1000)
        .search_timeout_sec(30)
        .async_scorer(true)
        .on_disk_payload(false)
        .optimizers_config(opt)
        .wal_config(64)
        .hnsw_config(48)
        .collection_defaults("defaults".to_string())
        .max_collections(100)
        .update_queue_size(1000)
        .build();
    assert_eq!(c.storage_path, "/data/qdrant");
    assert_eq!(c.snapshots_path.as_deref(), Some("/backup/qdrant-snapshots"));
    assert_eq!(c.temp_path.as_deref(), Some("/tmp/qdrant"));
    assert_eq!(c.search_threads, Some(8));
    assert_eq!(c.optimizer_threads, Some(4));
    assert_eq!(c.io_limit, Some(8));
    assert_eq!(c.cpu_limit, Some(6));
    assert_eq!(c.update_rate_limit, Some(1000));
    assert_eq!(c.search_timeout_sec, Some(30));
    assert_eq!(c.async_scorer, Some(true));
    assert_eq!(c.on_disk_payload, Some(false));
    assert_eq!(c.optimizers_config, Some(opt));
    assert_eq!(c.wal_config, Some(64));
    assert_eq!(c.hnsw_config, Some(48));
    assert_eq!(c.collection_defaults.as_deref(), Some("defaults"));
    assert_eq!(c.max_collections, Some(100));
    assert_eq!(c.update_queue_size, Some(1000));
}

#[test]
fn later_setting_of_a_field_wins() {
    let c = Config::builder().search_threads(2).search_threads(16).build();
    assert_eq!(c.search_threads, Some(16));
    let c = Config::builder().storage_path("/a").storage_path("/b").build();
    assert_eq!(c.storage_path, "/b");
}

#[test]
fn settings_of_different_fields_commute() {
    let a = Config::builder().io_limit(3).cpu_limit(5).build();
    let b = Config::builder().cpu_limit(5).io_limit(3).build();
    assert_eq!(a.io_limit, b.io_limit);
    assert_eq!(a.cpu_limit, b.cpu_limit);
    assert_eq!(a.storage_path, b.storage_path);
}
