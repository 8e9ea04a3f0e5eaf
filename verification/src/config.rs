//! The embedded instance's configuration and its builder.
//!
//! Paths are held as strings. The write-ahead-log, HNSW and collection-default
//! settings belong to the storage engine and are carried through unchanged, so
//! the configuration is generic over their types (`W`, `H`, `C`).
use vstd::prelude::*;
use vstd::string::*;

verus! {

/// Optimizer settings of the storage engine.
#[derive(Debug, Clone, Copy, PartialEq, Eq, Structural)]
pub struct OptimizersConfig {
    /// Bit pattern (`f64::to_bits`) of the fraction of deleted vectors that triggers vacuuming.
    pub deleted_threshold: u64,
    pub vacuum_min_vector_number: usize,
    pub default_segment_number: usize,
    pub max_segment_size: Option<usize>,
    pub memmap_threshold: Option<usize>,
    pub indexing_threshold: Option<usize>,
    pub flush_interval_sec: u64,
    pub max_optimization_threads: Option<usize>,
}

/// Embedded library configuration.
#[derive(Debug, Clone)]
pub struct EmbeddedConfig<W, H, C> {
    /// Storage path.
    pub storage_path: String,
    /// Snapshot path (optional).
    pub snapshots_path: Option<String>,
    /// Temporary file path (optional).
    pub temp_path: Option<String>,
    /// Number of search threads.
    pub search_threads: Option<usize>,
    /// Number of optimizer threads.
    pub optimizer_threads: Option<usize>,
    /// IO limit (optional).
    pub io_limit: Option<usize>,
    /// CPU limit (optional).
    pub cpu_limit: Option<usize>,
    /// Update rate limit (optional).
    pub update_rate_limit: Option<usize>,
    /// Search timeout in seconds (optional).
    pub search_timeout_sec: Option<usize>,
    /// Whether to use an asynchronous scorer (optional).
    pub async_scorer: Option<bool>,
    /// Whether to store payloads on disk.
    pub on_disk_payload: Option<bool>,
    /// Optimizer configuration (optional).
    pub optimizers_config: Option<OptimizersConfig>,
    /// Write-ahead-log configuration (optional).
    pub wal_config: Option<W>,
    /// HNSW index configuration (optional).
    pub hnsw_config: Option<H>,
    /// Defaults for new collections (optional).
    pub collection_defaults: Option<C>,
    /// Maximum number of collections (optional).
    pub max_collections: Option<usize>,
    /// Update queue size (optional).
    pub update_queue_size: Option<usize>,
}

/// One setting that the builder can make, with its value.
pub enum ConfigSetting<W, H, C> {
    StoragePath(String),
    SnapshotsPath(String),
    TempPath(String),
    SearchThreads(usize),
    OptimizerThreads(usize),
    IoLimit(usize),
    CpuLimit(usize),
    UpdateRateLimit(usize),
    SearchTimeoutSec(usize),
    AsyncScorer(bool),
    OnDiskPayload(bool),
    Optimizers(OptimizersConfig),
    Wal(W),
    Hnsw(H),
    CollectionDefaults(C),
    MaxCollections(usize),
    UpdateQueueSize(usize),
}

impl<W, H, C> ConfigSetting<W, H, C> {
    /// The field of the configuration that this setting writes.
    pub open spec fn field(self) -> nat {
        match self {
            ConfigSetting::StoragePath(_) => 0,
            ConfigSetting::SnapshotsPath(_) => 1,
            ConfigSetting::TempPath(_) => 2,
            ConfigSetting::SearchThreads(_) => 3,
            ConfigSetting::OptimizerThreads(_) => 4,
            ConfigSetting::IoLimit(_) => 5,
            ConfigSetting::CpuLimit(_) => 6,
            ConfigSetting::UpdateRateLimit(_) => 7,
            ConfigSetting::SearchTimeoutSec(_) => 8,
            ConfigSetting::AsyncScorer(_) => 9,
            ConfigSetting::OnDiskPayload(_) => 10,
            ConfigSetting::Optimizers(_) => 11,
            ConfigSetting::Wal(_) => 12,
            ConfigSetting::Hnsw(_) => 13,
            ConfigSetting::CollectionDefaults(_) => 14,
            ConfigSetting::MaxCollections(_) => 15,
            ConfigSetting::UpdateQueueSize(_) => 16,
        }
    }
}

impl<W, H, C> EmbeddedConfig<W, H, C> {
    /// The configuration after `s` is made: its field takes the value, every other field stays.
    pub open spec fn apply(self, s: ConfigSetting<W, H, C>) -> Self {
        match s {
            ConfigSetting::StoragePath(p) => EmbeddedConfig { storage_path: p, ..self },
            ConfigSetting::SnapshotsPath(p) => EmbeddedConfig { snapshots_path: Some(p), ..self },
            ConfigSetting::TempPath(p) => EmbeddedConfig { temp_path: Some(p), ..self },
            ConfigSetting::SearchThreads(v) => EmbeddedConfig { search_threads: Some(v), ..self },
            ConfigSetting::OptimizerThreads(v) => EmbeddedConfig {
                optimizer_threads: Some(v),
                ..self
            },
            ConfigSetting::IoLimit(v) => EmbeddedConfig { io_limit: Some(v), ..self },
            ConfigSetting::CpuLimit(v) => EmbeddedConfig { cpu_limit: Some(v), ..self },
            ConfigSetting::UpdateRateLimit(v) => EmbeddedConfig {
                update_rate_limit: Some(v),
                ..self
            },
            ConfigSetting::SearchTimeoutSec(v) => EmbeddedConfig {
                search_timeout_sec: Some(v),
                ..self
            },
            ConfigSetting::AsyncScorer(b) => EmbeddedConfig { async_scorer: Some(b), ..self },
            ConfigSetting::OnDiskPayload(b) => EmbeddedConfig { on_disk_payload: Some(b), ..self },
            ConfigSetting::Optimizers(o) => EmbeddedConfig { optimizers_config: Some(o), ..self },
            ConfigSetting::Wal(w) => EmbeddedConfig { wal_config: Some(w), ..self },
            ConfigSetting::Hnsw(h) => EmbeddedConfig { hnsw_config: Some(h), ..self },
            ConfigSetting::CollectionDefaults(c) => EmbeddedConfig {
                collection_defaults: Some(c),
                ..self
            },
            ConfigSetting::MaxCollections(v) => EmbeddedConfig { max_collections: Some(v), ..self },
            ConfigSetting::UpdateQueueSize(v) => EmbeddedConfig {
                update_queue_size: Some(v),
                ..self
            },
        }
    }

    /// The default configuration: storage under `./qdrant_storage`, nothing else set.
    pub open spec fn is_default(self) -> bool {
        &&& self.storage_path@ == "./qdrant_storage"@
        &&& self.snapshots_path is None
        &&& self.temp_path is None
        &&& self.search_threads is None
        &&& self.optimizer_threads is None
        &&& self.io_limit is None
        &&& self.cpu_limit is None
        &&& self.update_rate_limit is None
        &&& self.search_timeout_sec is None
        &&& self.async_scorer is None
        &&& self.on_disk_payload is None
        &&& self.optimizers_config is None
        &&& self.wal_config is None
        &&& self.hnsw_config is None
        &&& self.collection_defaults is None
        &&& self.max_collections is None
        &&& self.update_queue_size is None
    }

    /// Starts a builder from the default configuration.
    pub fn builder() -> (res: EmbeddedConfigBuilder<W, H, C>)
        ensures
            res@.is_default(),
    {
        EmbeddedConfigBuilder::default()
    }
}

impl<W, H, C> Default for EmbeddedConfig<W, H, C> {
    fn default() -> (res: Self)
        ensures
            res.is_default(),
    {
        EmbeddedConfig {
            storage_path: String::from_str("./qdrant_storage"),
            snapshots_path: None,
            temp_path: None,
            search_threads: None,
            optimizer_threads: None,
            io_limit: None,
            cpu_limit: None,
            update_rate_limit: None,
            search_timeout_sec: None,
            async_scorer: None,
            on_disk_payload: None,
            optimizers_config: None,
            wal_config: None,
            hnsw_config: None,
            collection_defaults: None,
            max_collections: None,
            update_queue_size: None,
        }
    }
}

/// Builder of an [`EmbeddedConfig`]; each method makes one setting.
#[derive(Debug, Clone)]
pub struct EmbeddedConfigBuilder<W, H, C> {
    config: EmbeddedConfig<W, H, C>,
}

impl<W, H, C> View for EmbeddedConfigBuilder<W, H, C> {
    type V = EmbeddedConfig<W, H, C>;

    closed spec fn view(&self) -> EmbeddedConfig<W, H, C> {
        self.config
    }
}

impl<W, H, C> Default for EmbeddedConfigBuilder<W, H, C> {
    fn default() -> (res: Self)
        ensures
            res@.is_default(),
    {
        EmbeddedConfigBuilder { config: EmbeddedConfig::default() }
    }
}

impl<W, H, C> EmbeddedConfigBuilder<W, H, C> {
    pub fn storage_path(self, path: &str) -> (res: Self)
        ensures
            res@.storage_path@ == path@,
            res@ == self@.apply(ConfigSetting::StoragePath(res@.storage_path)),
    {
        let mut b = self;
        b.config.storage_path = String::from_str(path);
        b
    }

    pub fn snapshots_path(self, path: &str) -> (res: Self)
        ensures
            res@.snapshots_path matches Some(p) && p@ == path@,
            res@ == self@.apply(ConfigSetting::SnapshotsPath(res@.snapshots_path->0)),
    {
        let mut b = self;
        b.config.snapshots_path = Some(String::from_str(path));
        b
    }

    pub fn temp_path(self, path: &str) -> (res: Self)
        ensures
            res@.temp_path matches Some(p) && p@ == path@,
            res@ == self@.apply(ConfigSetting::TempPath(res@.temp_path->0)),
    {
        let mut b = self;
        b.config.temp_path = Some(String::from_str(path));
        b
    }

    pub fn search_threads(self, threads: usize) -> (res: Self)
        ensures
            res@ == self@.apply(ConfigSetting::SearchThreads(threads)),
            res@.search_threads == Some(threads),
    {
        let mut b = self;
        b.config.search_threads = Some(threads);
        b
    }

    pub fn optimizer_threads(self, threads: usize) -> (res: Self)
        ensures
            res@ == self@.apply(ConfigSetting::OptimizerThreads(threads)),
            res@.optimizer_threads == Some(threads),
    {
        let mut b = self;
        b.config.optimizer_threads = Some(threads);
        b
    }

    pub fn io_limit(self, limit: usize) -> (res: Self)
        ensures
            res@ == self@.apply(ConfigSetting::IoLimit(limit)),
            res@.io_limit == Some(limit),
    {
        let mut b = self;
        b.config.io_limit = Some(limit);
        b
    }

    pub fn cpu_limit(self, limit: usize) -> (res: Self)
        ensures
            res@ == self@.apply(ConfigSetting::CpuLimit(limit)),
            res@.cpu_limit == Some(limit),
    {
        let mut b = self;
        b.config.cpu_limit = Some(limit);
        b
    }

    pub fn update_rate_limit(self, limit: usize) -> (res: Self)
        ensures
            res@ == self@.apply(ConfigSetting::UpdateRateLimit(limit)),
            res@.update_rate_limit == Some(limit),
    {
        let mut b = self;
        b.config.update_rate_limit = Some(limit);
        b
    }

    pub fn search_timeout_sec(self, timeout: usize) -> (res: Self)
        ensures
            res@ == self@.apply(ConfigSetting::SearchTimeoutSec(timeout)),
            res@.search_timeout_sec == Some(timeout),
    {
        let mut b = self;
        b.config.search_timeout_sec = Some(timeout);
        b
    }

    pub fn async_scorer(self, enabled: bool) -> (res: Self)
        ensures
            res@ == self@.apply(ConfigSetting::AsyncScorer(enabled)),
            res@.async_scorer == Some(enabled),
    {
        let mut b = self;
        b.config.async_scorer = Some(enabled);
        b
    }

    pub fn on_disk_payload(self, enabled: bool) -> (res: Self)
        ensures
            res@ == self@.apply(ConfigSetting::OnDiskPayload(enabled)),
            res@.on_disk_payload == Some(enabled),
    {
        let mut b = self;
        b.config.on_disk_payload = Some(enabled);
        b
    }

    pub fn optimizers_config(self, config: OptimizersConfig) -> (res: Self)
        ensures
            res@ == self@.apply(ConfigSetting::Optimizers(config)),
            res@.optimizers_config == Some(config),
    {
        let mut b = self;
        b.config.optimizers_config = Some(config);
        b
    }

    pub fn wal_config(self, config: W) -> (res: Self)
        ensures
            res@ == self@.apply(ConfigSetting::Wal(config)),
            res@.wal_config == Some(config),
    {
        let mut b = self;
        b.config.wal_config = Some(config);
        b
    }

    pub fn hnsw_config(self, config: H) -> (res: Self)
        ensures
            res@ == self@.apply(ConfigSetting::Hnsw(config)),
            res@.hnsw_config == Some(config),
    {
        let mut b = self;
        b.config.hnsw_config = Some(config);
        b
    }

    pub fn collection_defaults(self, defaults: C) -> (res: Self)
        ensures
            res@ == self@.apply(ConfigSetting::CollectionDefaults(defaults)),
            res@.collection_defaults == Some(defaults),
    {
        let mut b = self;
        b.config.collection_defaults = Some(defaults);
        b
    }

    pub fn max_collections(self, max: usize) -> (res: Self)
        ensures
            res@ == self@.apply(ConfigSetting::MaxCollections(max)),
            res@.max_collections == Some(max),
    {
        let mut b = self;
        b.config.max_collections = Some(max);
        b
    }

    pub fn update_queue_size(self, size: usize) -> (res: Self)
        ensures
            res@ == self@.apply(ConfigSetting::UpdateQueueSize(size)),
            res@.update_queue_size == Some(size),
    {
        let mut b = self;
        b.config.update_queue_size = Some(size);
        b
    }

    /// The configuration built so far.
    pub fn build(self) -> (res: EmbeddedConfig<W, H, C>)
        ensures
            res == self@,
    {
        self.config
    }
}

/// A setting writes exactly the value it carries into its own field and leaves every
/// other field as it was.
pub proof fn lemma_setting_writes_only_its_field<W, H, C>(
    cfg: EmbeddedConfig<W, H, C>,
    s: ConfigSetting<W, H, C>,
)
    ensures
        match s {
            ConfigSetting::StoragePath(p) => cfg.apply(s).storage_path == p,
            ConfigSetting::SnapshotsPath(p) => cfg.apply(s).snapshots_path == Some(p),
            ConfigSetting::TempPath(p) => cfg.apply(s).temp_path == Some(p),
            ConfigSetting::SearchThreads(v) => cfg.apply(s).search_threads == Some(v),
            ConfigSetting::OptimizerThreads(v) => cfg.apply(s).optimizer_threads == Some(v),
            ConfigSetting::IoLimit(v) => cfg.apply(s).io_limit == Some(v),
            ConfigSetting::CpuLimit(v) => cfg.apply(s).cpu_limit == Some(v),
            ConfigSetting::UpdateRateLimit(v) => cfg.apply(s).update_rate_limit == Some(v),
            ConfigSetting::SearchTimeoutSec(v) => cfg.apply(s).search_timeout_sec == Some(v),
            ConfigSetting::AsyncScorer(v) => cfg.apply(s).async_scorer == Some(v),
            ConfigSetting::OnDiskPayload(v) => cfg.apply(s).on_disk_payload == Some(v),
            ConfigSetting::Optimizers(v) => cfg.apply(s).optimizers_config == Some(v),
            ConfigSetting::Wal(v) => cfg.apply(s).wal_config == Some(v),
            ConfigSetting::Hnsw(v) => cfg.apply(s).hnsw_config == Some(v),
            ConfigSetting::CollectionDefaults(v) => cfg.apply(s).collection_defaults == Some(v),
            ConfigSetting::MaxCollections(v) => cfg.apply(s).max_collections == Some(v),
            ConfigSetting::UpdateQueueSize(v) => cfg.apply(s).update_queue_size == Some(v),
        },
        s.field() != 0 ==> cfg.apply(s).storage_path == cfg.storage_path,
        s.field() != 1 ==> cfg.apply(s).snapshots_path == cfg.snapshots_path,
        s.field() != 2 ==> cfg.apply(s).temp_path == cfg.temp_path,
        s.field() != 3 ==> cfg.apply(s).search_threads == cfg.search_threads,
        s.field() != 4 ==> cfg.apply(s).optimizer_threads == cfg.optimizer_threads,
        s.field() != 5 ==> cfg.apply(s).io_limit == cfg.io_limit,
        s.field() != 6 ==> cfg.apply(s).cpu_limit == cfg.cpu_limit,
        s.field() != 7 ==> cfg.apply(s).update_rate_limit == cfg.update_rate_limit,
        s.field() != 8 ==> cfg.apply(s).search_timeout_sec == cfg.search_timeout_sec,
        s.field() != 9 ==> cfg.apply(s).async_scorer == cfg.async_scorer,
        s.field() != 10 ==> cfg.apply(s).on_disk_payload == cfg.on_disk_payload,
        s.field() != 11 ==> cfg.apply(s).optimizers_config == cfg.optimizers_config,
        s.field() != 12 ==> cfg.apply(s).wal_config == cfg.wal_config,
        s.field() != 13 ==> cfg.apply(s).hnsw_config == cfg.hnsw_config,
        s.field() != 14 ==> cfg.apply(s).collection_defaults == cfg.collection_defaults,
        s.field() != 15 ==> cfg.apply(s).max_collections == cfg.max_collections,
        s.field() != 16 ==> cfg.apply(s).update_queue_size == cfg.update_queue_size,
{
}

/// Settings of two different fields can be made in either order with the same result.
pub proof fn lemma_settings_commute<W, H, C>(
    cfg: EmbeddedConfig<W, H, C>,
    s: ConfigSetting<W, H, C>,
    t: ConfigSetting<W, H, C>,
)
    requires
        s.field() != t.field(),
    ensures
        cfg.apply(s).apply(t) == cfg.apply(t).apply(s),
{
}

/// Of two settings of the same field, the later one wins.
pub proof fn lemma_later_setting_wins<W, H, C>(
    cfg: EmbeddedConfig<W, H, C>,
    s: ConfigSetting<W, H, C>,
    t: ConfigSetting<W, H, C>,
)
    requires
        s.field() == t.field(),
    ensures
        cfg.apply(s).apply(t) == cfg.apply(t),
{
}

} // verus!
