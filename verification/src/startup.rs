//! Turning an [`EmbeddedConfig`] into everything needed to start the storage engine:
//! the storage settings, the sizes of the worker pools and the optimizer budget.
//!
//! Besides the configuration's own setting types, the storage settings hold two more
//! settings of the engine that start from their type's default: the snapshot storage
//! settings (`S`) and the global HNSW settings (`G`).
use vstd::prelude::*;
use vstd::string::*;

use crate::config::{EmbeddedConfig, OptimizersConfig};

verus! {

/// Search threads used when the configuration sets none.
pub const DEFAULT_SEARCH_THREADS: usize = 4;

/// Optimizer threads used when the configuration sets none.
pub const DEFAULT_OPTIMIZER_THREADS: usize = 2;

/// Bit pattern of the `f64` value 0.1, the default deleted-vector threshold.
pub const DEFAULT_DELETED_THRESHOLD_BITS: u64 = 0x3FB9_9999_9999_999Au64;

/// Port handed to the inter-node channel service.
pub const CHANNEL_HTTP_PORT: u16 = 1000;

/// Identifier of this (single) peer.
pub const THIS_PEER_ID: u64 = 0;

/// Performance settings of the storage engine.
#[derive(Debug, Clone, Copy, PartialEq, Eq, Structural)]
pub struct PerformanceSettings {
    pub max_search_threads: usize,
    pub max_optimization_runtime_threads: usize,
    pub optimizer_cpu_budget: isize,
    pub optimizer_io_budget: usize,
    pub update_rate_limit: Option<usize>,
    pub search_timeout_sec: Option<usize>,
    pub incoming_shard_transfers_limit: Option<usize>,
    pub outgoing_shard_transfers_limit: Option<usize>,
    pub async_scorer: Option<bool>,
}

/// How the engine advises the kernel about its memory-mapped files.
#[derive(Debug, Clone, Copy, PartialEq, Eq, Structural)]
pub enum MmapAdvice {
    Normal,
    Random,
    Sequential,
}

/// The role of this node.
#[derive(Debug, Clone, Copy, PartialEq, Eq, Structural)]
pub enum NodeType {
    Normal,
    Listener,
}

/// How shards are moved between peers.
#[derive(Debug, Clone, Copy, PartialEq, Eq, Structural)]
pub enum ShardTransferMethod {
    StreamRecords,
    Snapshot,
    WalDelta,
}

/// The storage engine's configuration as the embedded instance sets it.
#[derive(Debug, Clone)]
pub struct StorageSettings<W, H, C, S, G> {
    pub storage_path: String,
    pub snapshots_path: String,
    pub temp_path: Option<String>,
    pub performance: PerformanceSettings,
    /// Snapshot storage settings.
    pub snapshots_config: S,
    pub optimizers: OptimizersConfig,
    /// Whether the storage's optimizer settings override those of the collections.
    pub optimizers_overwrite: bool,
    pub on_disk_payload: bool,
    pub wal: W,
    pub hnsw_index: H,
    /// Global HNSW settings.
    pub hnsw_global_config: G,
    pub mmap_advice: MmapAdvice,
    pub node_type: NodeType,
    pub update_queue_size: Option<usize>,
    pub handle_collection_load_errors: bool,
    pub recovery_mode: Option<String>,
    /// Limit on concurrent updates, if any.
    pub update_concurrency: Option<usize>,
    pub shard_transfer_method: Option<ShardTransferMethod>,
    pub collection: Option<C>,
    pub max_collections: Option<usize>,
}

/// Everything needed to start the storage engine.
#[derive(Debug, Clone)]
pub struct StartupPlan<W, H, C, S, G> {
    pub storage: StorageSettings<W, H, C, S, G>,
    /// Worker threads of the search runtime.
    pub search_runtime_threads: usize,
    /// Thread name of the search runtime.
    pub search_thread_name: &'static str,
    /// Worker threads of the update (optimizer) runtime.
    pub update_runtime_threads: usize,
    /// Thread name of the update runtime.
    pub update_thread_name: &'static str,
    /// CPU budget of the optimizers' resource budget.
    pub optimizer_cpu_budget: usize,
    /// IO budget of the optimizers' resource budget.
    pub optimizer_io_budget: usize,
    /// Port handed to the channel service.
    pub channel_http_port: u16,
    /// Identifier of this peer.
    pub this_peer_id: u64,
}

/// `base` joined with the path `comp`: an absolute `comp` (one that starts with `/`)
/// replaces `base`; otherwise a separator `/` is put between them unless `base` is
/// empty or already ends with one.
pub open spec fn join_path(base: Seq<char>, comp: Seq<char>) -> Seq<char> {
    if comp.len() > 0 && comp[0] == '/' {
        comp
    } else if base.len() == 0 {
        comp
    } else if base.last() == '/' {
        base + comp
    } else {
        base + seq!['/'] + comp
    }
}

/// `v` read as a two's-complement `isize` of the same width.
pub open spec fn usize_as_isize(v: usize) -> int {
    if v <= isize::MAX {
        v as int
    } else {
        v - usize::MAX - 1
    }
}

/// The engine's CPU budget setting that the configuration's CPU limit stands for:
/// 0 ("automatic") when unset; a limit above `isize::MAX` wraps to a negative number.
pub open spec fn cpu_budget_of(limit: Option<usize>) -> int {
    match limit {
        None => 0,
        Some(v) => if v == 0 {
            0
        } else {
            usize_as_isize(v)
        },
    }
}

/// The automatic CPU budget on a machine with `cpus` CPUs: one CPU is left free
/// (two above 32 CPUs), and at least one CPU is used. This is the storage engine's
/// convention for a budget of 0 ("automatic"); the embedded library's own
/// documentation only says that 0 means automatic.
pub open spec fn auto_cpu_budget(cpus: int) -> int {
    if cpus <= 2 {
        1
    } else if cpus <= 32 {
        cpus - 1
    } else {
        cpus - 2
    }
}

/// The optimizers' CPU budget for the engine's budget setting `setting` on a machine
/// with `cpus` CPUs: a positive setting is the number of CPUs to use; a setting that
/// is not positive is taken as 0, which means automatic.
pub open spec fn resolved_cpu_budget(setting: int, cpus: int) -> int {
    if setting > 0 {
        setting
    } else {
        auto_cpu_budget(cpus)
    }
}

/// The optimizers' IO budget for the IO setting `setting`: 0 means automatic, which
/// (by the storage engine's convention) is the CPU budget.
pub open spec fn resolved_io_budget(setting: int, cpu_budget: int) -> int {
    if setting == 0 {
        cpu_budget
    } else {
        setting
    }
}

/// The optimizer settings used when the configuration sets none.
pub open spec fn is_default_optimizers(o: OptimizersConfig) -> bool {
    o == OptimizersConfig {
        deleted_threshold: DEFAULT_DELETED_THRESHOLD_BITS,
        vacuum_min_vector_number: 1000,
        default_segment_number: 0,
        max_segment_size: None,
        memmap_threshold: None,
        indexing_threshold: Some(100_000),
        flush_interval_sec: 60,
        max_optimization_threads: None,
    }
}

/// Whether `opt` is `Some(v)` with `v` equal to `x` by view, or `None` like `x`.
pub open spec fn same_opt_string(opt: Option<String>, x: Option<String>) -> bool {
    match (opt, x) {
        (Some(a), Some(b)) => a@ == b@,
        (None, None) => true,
        _ => false,
    }
}

/// `plan` is what `cfg` starts on a machine with `cpus` CPUs: every setting taken
/// from the configuration where it is set, and otherwise from the defaults: those of
/// the embedded library's documentation, the engine's automatic optimizer budgets,
/// and the defaults of the engine's own setting types.
pub open spec fn is_startup_plan<W, H, C, S, G>(
    cfg: EmbeddedConfig<W, H, C>,
    cpus: usize,
    plan: StartupPlan<W, H, C, S, G>,
) -> bool where W: Default, H: Default, S: Default, G: Default {
    let s = plan.storage;
    let p = s.performance;
    let search = match cfg.search_threads {
        Some(v) => v,
        None => DEFAULT_SEARCH_THREADS,
    };
    let optimizer = match cfg.optimizer_threads {
        Some(v) => v,
        None => DEFAULT_OPTIMIZER_THREADS,
    };
    &&& s.storage_path@ == cfg.storage_path@
    &&& s.snapshots_path@ == match cfg.snapshots_path {
        Some(path) => path@,
        None => join_path(cfg.storage_path@, "snapshots"@),
    }
    &&& same_opt_string(s.temp_path, cfg.temp_path)
    &&& p.max_search_threads == search
    &&& p.max_optimization_runtime_threads == optimizer
    &&& p.optimizer_cpu_budget == cpu_budget_of(cfg.cpu_limit)
    &&& p.optimizer_io_budget == match cfg.io_limit {
        Some(v) => v,
        None => 0,
    }
    &&& p.update_rate_limit == cfg.update_rate_limit
    &&& p.search_timeout_sec == cfg.search_timeout_sec
    &&& p.incoming_shard_transfers_limit is None
    &&& p.outgoing_shard_transfers_limit is None
    &&& p.async_scorer == cfg.async_scorer
    &&& call_ensures(S::default, (), s.snapshots_config)
    &&& match cfg.optimizers_config {
        Some(o) => s.optimizers == o,
        None => is_default_optimizers(s.optimizers),
    }
    &&& !s.optimizers_overwrite
    &&& s.on_disk_payload == match cfg.on_disk_payload {
        Some(b) => b,
        None => false,
    }
    &&& match cfg.wal_config {
        Some(w) => s.wal == w,
        None => call_ensures(W::default, (), s.wal),
    }
    &&& match cfg.hnsw_config {
        Some(h) => s.hnsw_index == h,
        None => call_ensures(H::default, (), s.hnsw_index),
    }
    &&& call_ensures(G::default, (), s.hnsw_global_config)
    &&& s.mmap_advice == MmapAdvice::Random
    &&& s.node_type == NodeType::Normal
    &&& s.update_queue_size == cfg.update_queue_size
    &&& !s.handle_collection_load_errors
    &&& s.recovery_mode is None
    &&& s.update_concurrency is None
    &&& s.shard_transfer_method is None
    &&& s.collection == cfg.collection_defaults
    &&& s.max_collections == cfg.max_collections
    &&& plan.search_runtime_threads == search
    &&& plan.search_thread_name@ == "search"@
    &&& plan.update_runtime_threads == optimizer
    &&& plan.update_thread_name@ == "update"@
    &&& plan.optimizer_cpu_budget == resolved_cpu_budget(p.optimizer_cpu_budget as int, cpus as int)
    &&& plan.optimizer_io_budget == resolved_io_budget(
        p.optimizer_io_budget as int,
        plan.optimizer_cpu_budget as int,
    )
    &&& plan.channel_http_port == CHANNEL_HTTP_PORT
    &&& plan.this_peer_id == THIS_PEER_ID
}

/// Joins the path `comp` onto `base`, as `Path::join` does on Unix.
pub fn join_path_component(base: &str, comp: &str) -> (res: String)
    ensures
        res@ == join_path(base@, comp@),
{
    let n = base.unicode_len();
    if comp.unicode_len() > 0 && comp.get_char(0) == '/' {
        String::from_str(comp)
    } else if n == 0 {
        String::from_str(comp)
    } else if base.get_char(n - 1) == '/' {
        String::from_str(base).concat(comp)
    } else {
        let res = String::from_str(base).concat("/").concat(comp);
        proof {
            reveal_strlit("/");
        }
        assert(res@ =~= join_path(base@, comp@));
        res
    }
}

/// Converts `v` to `isize` the way `v as isize` does: values above `isize::MAX`
/// wrap around to negative numbers.
pub fn wrap_to_isize(v: usize) -> (res: isize)
    ensures
        res == usize_as_isize(v),
{
    if v <= isize::MAX as usize {
        v as isize
    } else {
        let d: usize = v - (isize::MAX as usize) - 1;
        assert(usize::MAX == 2 * isize::MAX + 1) by {
            assert(usize::BITS == 32 || usize::BITS == 64);
        }
        isize::MIN + (d as isize)
    }
}

/// The optimizers' CPU budget for the engine's budget setting `setting` on a machine
/// with `available_cpus` CPUs.
pub fn resolve_cpu_budget(setting: isize, available_cpus: usize) -> (res: usize)
    ensures
        res == resolved_cpu_budget(setting as int, available_cpus as int),
{
    if setting > 0 {
        setting as usize
    } else if available_cpus <= 2 {
        1
    } else if available_cpus <= 32 {
        available_cpus - 1
    } else {
        available_cpus - 2
    }
}

/// The optimizers' IO budget for the IO setting `setting` and the CPU budget `cpu_budget`.
pub fn resolve_io_budget(setting: usize, cpu_budget: usize) -> (res: usize)
    ensures
        res == resolved_io_budget(setting as int, cpu_budget as int),
{
    if setting == 0 {
        cpu_budget
    } else {
        setting
    }
}

/// The optimizer settings used when the configuration sets none.
pub fn default_optimizers_config() -> (res: OptimizersConfig)
    ensures
        is_default_optimizers(res),
{
    OptimizersConfig {
        deleted_threshold: DEFAULT_DELETED_THRESHOLD_BITS,
        vacuum_min_vector_number: 1000,
        default_segment_number: 0,
        max_segment_size: None,
        memmap_threshold: None,
        indexing_threshold: Some(100_000),
        flush_interval_sec: 60,
        max_optimization_threads: None,
    }
}

impl<W: Default, H: Default, C> EmbeddedConfig<W, H, C> {
    /// The storage settings, worker pools and optimizer budget that this configuration
    /// starts on a machine with `available_cpus` CPUs. A worker pool cannot have zero
    /// threads, so neither thread count may be set to 0.
    pub fn startup_plan<S: Default, G: Default>(self, available_cpus: usize) -> (res: StartupPlan<
        W,
        H,
        C,
        S,
        G,
    >)
        requires
            self.search_threads != Some(0usize),
            self.optimizer_threads != Some(0usize),
        ensures
            is_startup_plan(self, available_cpus, res),
    {
        let search_threads = match self.search_threads {
            Some(v) => v,
            None => DEFAULT_SEARCH_THREADS,
        };
        let optimizer_threads = match self.optimizer_threads {
            Some(v) => v,
            None => DEFAULT_OPTIMIZER_THREADS,
        };
        let snapshots_path = match self.snapshots_path {
            Some(p) => p,
            None => join_path_component(self.storage_path.as_str(), "snapshots"),
        };
        let optimizer_cpu_budget: isize = match self.cpu_limit {
            None => 0,
            Some(v) => if v == 0 {
                0
            } else {
                wrap_to_isize(v)
            },
        };
        let optimizer_io_budget = match self.io_limit {
            Some(v) => v,
            None => 0,
        };
        let optimizers = match self.optimizers_config {
            Some(o) => o,
            None => default_optimizers_config(),
        };
        let on_disk_payload = match self.on_disk_payload {
            Some(b) => b,
            None => false,
        };
        let wal = match self.wal_config {
            Some(w) => w,
            None => W::default(),
        };
        let hnsw_index = match self.hnsw_config {
            Some(h) => h,
            None => H::default(),
        };
        let performance = PerformanceSettings {
            max_search_threads: search_threads,
            max_optimization_runtime_threads: optimizer_threads,
            optimizer_cpu_budget,
            optimizer_io_budget,
            update_rate_limit: self.update_rate_limit,
            search_timeout_sec: self.search_timeout_sec,
            incoming_shard_transfers_limit: None,
            outgoing_shard_transfers_limit: None,
            async_scorer: self.async_scorer,
        };
        let resource_cpu_budget = resolve_cpu_budget(optimizer_cpu_budget, available_cpus);
        let resource_io_budget = resolve_io_budget(optimizer_io_budget, resource_cpu_budget);
        let storage = StorageSettings {
            storage_path: self.storage_path,
            snapshots_path,
            temp_path: self.temp_path,
            performance,
            snapshots_config: S::default(),
            optimizers,
            optimizers_overwrite: false,
            on_disk_payload,
            wal,
            hnsw_index,
            hnsw_global_config: G::default(),
            mmap_advice: MmapAdvice::Random,
            node_type: NodeType::Normal,
            update_queue_size: self.update_queue_size,
            handle_collection_load_errors: false,
            recovery_mode: None,
            update_concurrency: None,
            shard_transfer_method: None,
            collection: self.collection_defaults,
            max_collections: self.max_collections,
        };
        StartupPlan {
            storage,
            search_runtime_threads: search_threads,
            search_thread_name: "search",
            update_runtime_threads: optimizer_threads,
            update_thread_name: "update",
            optimizer_cpu_budget: resource_cpu_budget,
            optimizer_io_budget: resource_io_budget,
            channel_http_port: CHANNEL_HTTP_PORT,
            this_peer_id: THIS_PEER_ID,
        }
    }
}

/// With nothing configured, the engine starts with the defaults that the library's
/// documentation gives: storage under `./qdrant_storage`, snapshots under
/// `./qdrant_storage/snapshots`, four search threads, two optimizer threads, payloads
/// in memory and the default optimizer settings; the optimizer budgets are automatic,
/// which by the storage engine's convention is [`auto_cpu_budget`] for both CPU and IO.
pub proof fn lemma_default_config_starts_with_defaults<W: Default, H: Default, C, S: Default, G: Default>(
    cfg: EmbeddedConfig<W, H, C>,
    cpus: usize,
    plan: StartupPlan<W, H, C, S, G>,
)
    requires
        cfg.is_default(),
        is_startup_plan(cfg, cpus, plan),
    ensures
        plan.storage.storage_path@ == "./qdrant_storage"@,
        plan.storage.snapshots_path@ == "./qdrant_storage/snapshots"@,
        plan.search_runtime_threads == 4,
        plan.update_runtime_threads == 2,
        plan.storage.performance.max_search_threads == 4,
        plan.storage.performance.max_optimization_runtime_threads == 2,
        plan.storage.performance.optimizer_cpu_budget == 0,
        plan.storage.performance.optimizer_io_budget == 0,
        plan.optimizer_cpu_budget == auto_cpu_budget(cpus as int),
        plan.optimizer_io_budget == auto_cpu_budget(cpus as int),
        !plan.storage.on_disk_payload,
        is_default_optimizers(plan.storage.optimizers),
        plan.storage.collection is None,
        plan.storage.temp_path is None,
{
    reveal_strlit("./qdrant_storage");
    reveal_strlit("snapshots");
    reveal_strlit("./qdrant_storage/snapshots");
    assert(join_path("./qdrant_storage"@, "snapshots"@) =~= "./qdrant_storage/snapshots"@);
}

/// The worker pools are as large as the thread limits handed to the storage engine,
/// and neither is empty.
pub proof fn lemma_runtime_sizes_match_limits<W: Default, H: Default, C, S: Default, G: Default>(
    cfg: EmbeddedConfig<W, H, C>,
    cpus: usize,
    plan: StartupPlan<W, H, C, S, G>,
)
    requires
        cfg.search_threads != Some(0usize),
        cfg.optimizer_threads != Some(0usize),
        is_startup_plan(cfg, cpus, plan),
    ensures
        plan.search_runtime_threads == plan.storage.performance.max_search_threads,
        plan.update_runtime_threads == plan.storage.performance.max_optimization_runtime_threads,
        plan.search_runtime_threads >= 1,
        plan.update_runtime_threads >= 1,
{
}

/// The optimizers always get at least one CPU and one IO unit. A CPU limit that fits
/// in an `isize` and is not 0 gives exactly that many CPUs; an unset or zero limit,
/// and a larger one (which wraps to a negative setting and is taken as 0), gives the
/// automatic budget. An unset or zero IO limit follows the CPU budget; any other IO
/// limit is taken as it is.
pub proof fn lemma_optimizer_budgets<W: Default, H: Default, C, S: Default, G: Default>(
    cfg: EmbeddedConfig<W, H, C>,
    cpus: usize,
    plan: StartupPlan<W, H, C, S, G>,
)
    requires
        is_startup_plan(cfg, cpus, plan),
    ensures
        plan.optimizer_cpu_budget >= 1,
        plan.optimizer_io_budget >= 1,
        match cfg.cpu_limit {
            Some(v) => if v == 0 {
                plan.optimizer_cpu_budget == auto_cpu_budget(cpus as int)
            } else if v <= isize::MAX {
                plan.optimizer_cpu_budget == v
            } else {
                plan.optimizer_cpu_budget == auto_cpu_budget(cpus as int)
            },
            None => plan.optimizer_cpu_budget == auto_cpu_budget(cpus as int),
        },
        match cfg.io_limit {
            Some(v) => if v == 0 {
                plan.optimizer_io_budget == plan.optimizer_cpu_budget
            } else {
                plan.optimizer_io_budget == v
            },
            None => plan.optimizer_io_budget == plan.optimizer_cpu_budget,
        },
{
}

/// Every setting that the configuration makes reaches the engine with the value set:
/// a configured value is taken as it is (not merely noted as present), and an unset
/// one gets its default.
pub proof fn lemma_startup_takes_configured_values<W: Default, H: Default, C, S: Default, G: Default>(
    cfg: EmbeddedConfig<W, H, C>,
    cpus: usize,
    plan: StartupPlan<W, H, C, S, G>,
)
    requires
        is_startup_plan(cfg, cpus, plan),
    ensures
        plan.storage.storage_path@ == cfg.storage_path@,
        cfg.snapshots_path matches Some(p) ==> plan.storage.snapshots_path@ == p@,
        cfg.temp_path matches Some(p) ==> plan.storage.temp_path matches Some(t) && t@ == p@,
        cfg.temp_path is None ==> plan.storage.temp_path is None,
        cfg.search_threads matches Some(v) ==> plan.search_runtime_threads == v
            && plan.storage.performance.max_search_threads == v,
        cfg.search_threads is None ==> plan.search_runtime_threads == 4
            && plan.storage.performance.max_search_threads == 4,
        cfg.optimizer_threads matches Some(v) ==> plan.update_runtime_threads == v
            && plan.storage.performance.max_optimization_runtime_threads == v,
        cfg.optimizer_threads is None ==> plan.update_runtime_threads == 2
            && plan.storage.performance.max_optimization_runtime_threads == 2,
        cfg.cpu_limit matches Some(v) ==> (v <= isize::MAX ==> plan.storage.performance.optimizer_cpu_budget == v),
        cfg.cpu_limit is None ==> plan.storage.performance.optimizer_cpu_budget == 0,
        cfg.io_limit matches Some(v) ==> plan.storage.performance.optimizer_io_budget == v,
        cfg.io_limit is None ==> plan.storage.performance.optimizer_io_budget == 0,
        plan.storage.performance.update_rate_limit == cfg.update_rate_limit,
        plan.storage.performance.search_timeout_sec == cfg.search_timeout_sec,
        plan.storage.performance.async_scorer == cfg.async_scorer,
        cfg.optimizers_config matches Some(o) ==> plan.storage.optimizers == o,
        cfg.on_disk_payload matches Some(b) ==> plan.storage.on_disk_payload == b,
        cfg.on_disk_payload is None ==> !plan.storage.on_disk_payload,
        cfg.wal_config matches Some(w) ==> plan.storage.wal == w,
        cfg.hnsw_config matches Some(h) ==> plan.storage.hnsw_index == h,
        plan.storage.collection == cfg.collection_defaults,
        plan.storage.max_collections == cfg.max_collections,
        plan.storage.update_queue_size == cfg.update_queue_size,
{
}

/// Joining a relative component keeps the base as a prefix and the component as a
/// suffix, and adds at most one separator.
pub proof fn lemma_join_path_parts(base: Seq<char>, comp: Seq<char>)
    requires
        comp.len() == 0 || comp[0] != '/',
    ensures
        join_path(base, comp).len() == base.len() + comp.len() || join_path(base, comp).len()
            == base.len() + comp.len() + 1,
        join_path(base, comp).subrange(0, base.len() as int) =~= base,
        join_path(base, comp).subrange(
            join_path(base, comp).len() - comp.len(),
            join_path(base, comp).len() as int,
        ) =~= comp,
{
}

} // verus!
