use vstd::prelude::*;

verus! {

/// `num_cpus::get`: the number of CPUs this process may use, which its
/// documentation says is always at least 1. Nothing else is stated: it
/// depends on the machine.
pub assume_specification[ num_cpus::get ]() -> (r: usize)
    ensures
        r >= 1,
;

/// The kinds of runtime the edge layer can find itself in.
#[derive(PartialEq, Eq, Structural, Clone, Copy, Debug)]
pub enum RuntimeType {
    Workerd,
    Deno,
    Bun,
    Node,
    BareMetal,
    Unknown,
}

/// What the runtime supports.
pub struct RuntimeFeatures {
    pub supports_webassembly: bool,
    pub supports_wasi: bool,
    pub supports_threads: bool,
    pub supports_shared_memory: bool,
    pub supports_simd: bool,
    pub max_memory_mb: Option<u64>,
    pub cpu_count: Option<u32>,
}

impl Default for RuntimeFeatures {
    fn default() -> (r: Self)
        ensures
            !r.supports_webassembly,
            !r.supports_wasi,
            !r.supports_threads,
            !r.supports_shared_memory,
            !r.supports_simd,
            r.max_memory_mb.is_none(),
            r.cpu_count.is_none(),
    {
        RuntimeFeatures {
            supports_webassembly: false,
            supports_wasi: false,
            supports_threads: false,
            supports_shared_memory: false,
            supports_simd: false,
            max_memory_mb: None,
            cpu_count: None,
        }
    }
}

/// The runtime found: its kind, version and features.
pub struct RuntimeInfo {
    pub runtime_type: RuntimeType,
    pub version: Option<String>,
    pub features: RuntimeFeatures,
}

/// The features of a WebAssembly host: WebAssembly and WASI, shared
/// memory, neither threads nor SIMD (this build enables neither), 512 MB
/// of memory and no CPU count.
pub open spec fn wasm_features(f: RuntimeFeatures) -> bool {
    &&& f.supports_webassembly
    &&& f.supports_wasi
    &&& !f.supports_threads
    &&& f.supports_shared_memory
    &&& !f.supports_simd
    &&& f.max_memory_mb == Some(512u64)
    &&& f.cpu_count.is_none()
}

impl RuntimeInfo {
    /// The runtime this process runs in: a native build, so bare metal (see
    /// `detect_native`).
    pub fn detect() -> (r: Self)
        ensures
            r.runtime_type == RuntimeType::BareMetal,
            r.version matches Some(v) && v@ == "native"@,
            r.features.supports_webassembly,
            !r.features.supports_wasi,
            r.features.supports_threads,
            r.features.supports_shared_memory,
            r.features.supports_simd,
            r.features.max_memory_mb.is_none(),
            exists|n: usize| n >= 1 && r.features.cpu_count == Some(#[trigger] (n as u32)),
    {
        Self::detect_native()
    }

    /// What a WebAssembly build finds: the host named by `detect_wasm_runtime`
    /// with the features of `wasm_features`.
    pub fn detect_wasm() -> (r: Self)
        ensures
            r.runtime_type == RuntimeType::Unknown,
            r.version.is_none(),
            wasm_features(r.features),
    {
        let (runtime_type, version) = Self::detect_wasm_runtime();
        let features = RuntimeFeatures {
            supports_webassembly: true,
            supports_wasi: true,
            supports_threads: Self::has_threads_support(),
            supports_shared_memory: Self::has_shared_memory(),
            supports_simd: Self::has_simd_support(),
            max_memory_mb: Self::get_wasm_memory_limit(),
            cpu_count: None,
        };
        RuntimeInfo { runtime_type, version, features }
    }

    /// The WebAssembly host, tested in the order workerd, Deno, Bun, Node.
    /// No marker is ever found (see `has_js_builtin`), so it is `Unknown`
    /// without a version.
    pub fn detect_wasm_runtime() -> (r: (RuntimeType, Option<String>))
        ensures
            r.0 == RuntimeType::Unknown,
            r.1.is_none(),
    {
        if Self::is_workerd() {
            (RuntimeType::Workerd, Some(String::from_str("workerd")))
        } else if Self::is_deno() {
            (RuntimeType::Deno, Some(String::from_str("deno")))
        } else if Self::is_bun() {
            (RuntimeType::Bun, Some(String::from_str("bun")))
        } else if Self::is_node() {
            (RuntimeType::Node, Self::get_node_version())
        } else {
            (RuntimeType::Unknown, None)
        }
    }

    /// Whether the host is workerd (its marker is present).
    pub fn is_workerd() -> (r: bool)
        ensures
            !r,
    {
        Self::has_js_builtin("__workerd__")
    }

    /// Whether the host is Deno (its marker is present).
    pub fn is_deno() -> (r: bool)
        ensures
            !r,
    {
        Self::has_js_builtin("__deno__")
    }

    /// Whether the host is Bun (its marker is present).
    pub fn is_bun() -> (r: bool)
        ensures
            !r,
    {
        Self::has_js_builtin("__bun__")
    }

    /// Whether the host is Node (its marker is present).
    pub fn is_node() -> (r: bool)
        ensures
            !r,
    {
        Self::has_js_builtin("__nodejs__")
    }

    /// Whether the host exposes the named marker; no host is asked, so never.
    pub fn has_js_builtin(name: &str) -> (r: bool)
        ensures
            !r,
    {
        false
    }

    /// The Node version, which a WebAssembly build cannot read.
    pub fn get_node_version() -> (r: Option<String>)
        ensures
            r.is_none(),
    {
        None
    }

    /// Whether WebAssembly threads are enabled in this build: they are not.
    pub fn has_threads_support() -> (r: bool)
        ensures
            !r,
    {
        false
    }

    /// Whether shared memory is available: always.
    pub fn has_shared_memory() -> (r: bool)
        ensures
            r,
    {
        true
    }

    /// Whether WebAssembly SIMD is enabled in this build: it is not.
    pub fn has_simd_support() -> (r: bool)
        ensures
            !r,
    {
        false
    }

    /// The memory a WebAssembly host allows, in MB.
    pub fn get_wasm_memory_limit() -> (r: Option<u64>)
        ensures
            r == Some(512u64),
    {
        Some(512)
    }

    /// A native host: bare metal, version "native", WebAssembly, threads,
    /// shared memory and SIMD but no WASI, no memory limit, and the number
    /// of CPUs this process may use (at least one; kept in 32 bits).
    pub fn detect_native() -> (r: Self)
        ensures
            r.runtime_type == RuntimeType::BareMetal,
            r.version matches Some(v) && v@ == "native"@,
            r.features.supports_webassembly,
            !r.features.supports_wasi,
            r.features.supports_threads,
            r.features.supports_shared_memory,
            r.features.supports_simd,
            r.features.max_memory_mb.is_none(),
            exists|n: usize| n >= 1 && r.features.cpu_count == Some(#[trigger] (n as u32)),
    {
        let cpus = num_cpus::get();
        RuntimeInfo {
            runtime_type: RuntimeType::BareMetal,
            version: Some(String::from_str("native")),
            features: RuntimeFeatures {
                supports_webassembly: true,
                supports_wasi: false,
                supports_threads: true,
                supports_shared_memory: true,
                supports_simd: true,
                max_memory_mb: None,
                cpu_count: Some(cpus as u32),
            },
        }
    }
}

/// How the edge layer runs in a given runtime.
pub struct RuntimeConfig {
    pub runtime_type: RuntimeType,
    pub max_concurrent_jobs: usize,
    pub memory_limit_mb: u64,
    pub enable_assertions_in_wasm: bool,
    pub grid_proxy_url: Option<String>,
}

impl Default for RuntimeConfig {
    fn default() -> (r: Self)
        ensures
            r.runtime_type == RuntimeType::Unknown,
            r.max_concurrent_jobs == 10,
            r.memory_limit_mb == 256,
            r.enable_assertions_in_wasm,
            r.grid_proxy_url.is_none(),
    {
        RuntimeConfig {
            runtime_type: RuntimeType::Unknown,
            max_concurrent_jobs: 10,
            memory_limit_mb: 256,
            enable_assertions_in_wasm: true,
            grid_proxy_url: None,
        }
    }
}

impl RuntimeConfig {
    /// workerd: 5 jobs, 128 MB, assertions run in WebAssembly.
    pub fn for_workerd() -> (r: Self)
        ensures
            r.runtime_type == RuntimeType::Workerd,
            r.max_concurrent_jobs == 5,
            r.memory_limit_mb == 128,
            r.enable_assertions_in_wasm,
            r.grid_proxy_url.is_none(),
    {
        RuntimeConfig {
            runtime_type: RuntimeType::Workerd,
            max_concurrent_jobs: 5,
            memory_limit_mb: 128,
            enable_assertions_in_wasm: true,
            grid_proxy_url: None,
        }
    }

    /// Deno: 10 jobs, 512 MB, assertions run in WebAssembly.
    pub fn for_deno() -> (r: Self)
        ensures
            r.runtime_type == RuntimeType::Deno,
            r.max_concurrent_jobs == 10,
            r.memory_limit_mb == 512,
            r.enable_assertions_in_wasm,
            r.grid_proxy_url.is_none(),
    {
        RuntimeConfig {
            runtime_type: RuntimeType::Deno,
            max_concurrent_jobs: 10,
            memory_limit_mb: 512,
            enable_assertions_in_wasm: true,
            grid_proxy_url: None,
        }
    }

    /// Bare metal: 50 jobs, 1024 MB, assertions not run in WebAssembly.
    pub fn for_bare_metal() -> (r: Self)
        ensures
            r.runtime_type == RuntimeType::BareMetal,
            r.max_concurrent_jobs == 50,
            r.memory_limit_mb == 1024,
            !r.enable_assertions_in_wasm,
            r.grid_proxy_url.is_none(),
    {
        RuntimeConfig {
            runtime_type: RuntimeType::BareMetal,
            max_concurrent_jobs: 50,
            memory_limit_mb: 1024,
            enable_assertions_in_wasm: false,
            grid_proxy_url: None,
        }
    }
}

/// The runtime found at start-up together with the configuration.
pub struct EdgeRuntime {
    info: RuntimeInfo,
    config: RuntimeConfig,
}

/// The number of jobs to run at once: the configured maximum, but no more
/// than one job per 64 MB of the memory limit.
pub open spec fn recommended_jobs_spec(max_jobs: usize, memory_mb: u64) -> usize {
    let by_memory = (memory_mb / 64) as usize;
    if max_jobs <= by_memory { max_jobs } else { by_memory }
}

/// Whether a runtime should hand its work to the grid: a JavaScript edge
/// host (workerd, Deno or Bun) that does not run assertions itself.
pub open spec fn proxy_spec(t: RuntimeType, assertions_in_wasm: bool) -> bool {
    (t == RuntimeType::Workerd || t == RuntimeType::Deno || t == RuntimeType::Bun) && !assertions_in_wasm
}

impl EdgeRuntime {
    /// The runtime with the given configuration, its info detected.
    pub fn new(config: RuntimeConfig) -> (r: Self)
        ensures
            r.config_spec() == config,
            r.info_spec().runtime_type == RuntimeType::BareMetal,
            r.info_spec().features.supports_webassembly,
    {
        EdgeRuntime { info: RuntimeInfo::detect(), config }
    }

    /// The detected runtime.
    pub closed spec fn info_spec(&self) -> RuntimeInfo {
        self.info
    }

    /// The configuration.
    pub closed spec fn config_spec(&self) -> RuntimeConfig {
        self.config
    }

    /// The detected runtime.
    pub fn info(&self) -> (r: &RuntimeInfo)
        ensures
            *r == self.info_spec(),
    {
        &self.info
    }

    /// The configuration.
    pub fn config(&self) -> (r: &RuntimeConfig)
        ensures
            *r == self.config_spec(),
    {
        &self.config
    }

    /// Whether assertions can run here: enabled in the configuration and the
    /// runtime supports WebAssembly.
    pub fn can_run_assertions(&self) -> (r: bool)
        ensures
            r == (self.config_spec().enable_assertions_in_wasm && self.info_spec().features.supports_webassembly),
    {
        self.config.enable_assertions_in_wasm && self.info.features.supports_webassembly
    }

    /// See `recommended_jobs_spec`.
    pub fn recommended_max_jobs(&self) -> (r: usize)
        ensures
            r == recommended_jobs_spec(self.config_spec().max_concurrent_jobs, self.config_spec().memory_limit_mb),
    {
        let base = self.config.max_concurrent_jobs;
        let memory_factor = (self.config.memory_limit_mb / 64) as usize;
        if base <= memory_factor {
            base
        } else {
            memory_factor
        }
    }

    /// See `proxy_spec`.
    pub fn should_proxy_to_grid(&self) -> (r: bool)
        ensures
            r == proxy_spec(self.info_spec().runtime_type, self.config_spec().enable_assertions_in_wasm),
    {
        let t = self.info.runtime_type;
        let js_host = match t {
            RuntimeType::Workerd => true,
            RuntimeType::Deno => true,
            RuntimeType::Bun => true,
            _ => false,
        };
        js_host && !self.config.enable_assertions_in_wasm
    }
}

} // verus!
