//! Startup validation and process-wide planning.
//!
//! Every incompatible or unsupported flag combination is rejected here,
//! before the listening socket opens, so no connection is ever accepted
//! that the server cannot serve. The validated configuration is immutable
//! for the life of the process and fixes the engine's allocator strategy,
//! its epoch-interruption setting, and the capability surface linked into
//! every sandbox.
use vstd::prelude::*;

verus! {

/// Default port of the listening socket.
pub const DEFAULT_PORT: u16 = 8080;

/// Backlog of pending connections the listener keeps.
pub const ACCEPT_BACKLOG: u32 = 100;

/// Bit-width of the virtual address space that one pre-reserved memory
/// pool of the pooling allocator commits.
pub const PROBE_ADDRESS_BITS: u64 = 42;

/// Bit-width of one linear-memory page: maximum sizes are given to the
/// probe in pages rather than bytes.
pub const WASM_PAGE_BITS: u64 = 16;

/// Resource ceilings attached to every sandbox; growth beyond a ceiling
/// fails the growing operation inside the sandbox, never the host.
#[derive(PartialEq, Eq, Structural, Clone, Copy, Debug)]
pub struct LimitPolicy {
    pub max_memory_bytes: Option<u64>,
    pub max_table_elements: Option<u64>,
}

/// The capability-enablement flags and budgets the server is started
/// with, before validation. `nn_supported` says whether machine-learning
/// capability support was compiled into this build; `guest_profiler` says
/// whether in-sandbox profiling was requested.
pub struct ServeOptions {
    pub nn: Option<bool>,
    pub threads: Option<bool>,
    pub http: Option<bool>,
    pub cli: Option<bool>,
    pub common: Option<bool>,
    pub component_model: Option<bool>,
    pub guest_profiler: bool,
    pub nn_supported: bool,
    pub timeout: Option<u64>,
    pub fuel: Option<u64>,
    pub limits: LimitPolicy,
}

/// A startup failure, fatal before the socket binds.
#[derive(PartialEq, Eq, Structural, Clone, Copy, Debug)]
pub enum StartupError {
    /// Machine-learning capability requested but not compiled in.
    NnNotSupported,
    /// The in-sandbox profiler cannot be used with components.
    GuestProfilerUnsupported,
    /// Shared-memory threading is not available with components.
    ThreadsUnsupported,
    /// The request/response capability is required and must not be
    /// disabled.
    HttpDisabled,
    /// Component instantiation is required and must not be disabled.
    ComponentModelDisabled,
    /// The deprecated capability alias was given together with its
    /// replacement.
    CommonWithCli,
}

/// Which capability surface is linked into every sandbox: the full host
/// surface, or only the minimal request/response surface.
#[derive(PartialEq, Eq, Structural, Clone, Copy, Debug)]
pub enum LinkerPlan {
    FullCli,
    ProxyOnly,
}

/// The flag that decides the capability surface: the current flag wins,
/// and the deprecated alias fills in when the current one is absent.
pub open spec fn spec_effective_cli(o: ServeOptions) -> Option<bool> {
    if o.cli is Some {
        o.cli
    } else {
        o.common
    }
}

/// The first startup error the given options run into, in the order the
/// flags are checked, or `None` when the options are serveable.
pub open spec fn startup_error_of(o: ServeOptions) -> Option<StartupError> {
    if o.nn == Some(true) && !o.nn_supported {
        Some(StartupError::NnNotSupported)
    } else if o.guest_profiler {
        Some(StartupError::GuestProfilerUnsupported)
    } else if o.threads == Some(true) {
        Some(StartupError::ThreadsUnsupported)
    } else if o.http == Some(false) {
        Some(StartupError::HttpDisabled)
    } else if o.component_model == Some(false) {
        Some(StartupError::ComponentModelDisabled)
    } else if o.common is Some && o.cli is Some {
        Some(StartupError::CommonWithCli)
    } else {
        None
    }
}

/// A validated, immutable server configuration: what every request's
/// sandbox is built from.
#[derive(PartialEq, Eq, Structural, Clone, Copy, Debug)]
pub struct ValidatedServe {
    pub linker: LinkerPlan,
    pub nn: bool,
    pub epoch_interruption: bool,
    pub timeout: Option<u64>,
    pub fuel: Option<u64>,
    pub limits: LimitPolicy,
}

/// Validates the startup flags, rejecting every incompatible or
/// unsupported combination with the first error it runs into, and fixes
/// the process-wide plan: the capability surface, whether epoch
/// interruption is active (exactly when a deadline is configured), and
/// the per-sandbox budgets.
pub fn validate(o: ServeOptions) -> (r: Result<ValidatedServe, StartupError>)
    ensures
        r is Ok <==> startup_error_of(o) is None,
        match r {
            Ok(v) => {
                &&& v.linker == (if spec_effective_cli(o) == Some(true) {
                    LinkerPlan::FullCli
                } else {
                    LinkerPlan::ProxyOnly
                })
                &&& v.nn == (o.nn == Some(true))
                &&& v.epoch_interruption == (o.timeout is Some)
                &&& v.timeout == o.timeout
                &&& v.fuel == o.fuel
                &&& v.limits == o.limits
            },
            Err(e) => Some(e) == startup_error_of(o),
        },
{
    if o.nn == Some(true) && !o.nn_supported {
        return Err(StartupError::NnNotSupported);
    }
    if o.guest_profiler {
        return Err(StartupError::GuestProfilerUnsupported);
    }
    if o.threads == Some(true) {
        return Err(StartupError::ThreadsUnsupported);
    }
    if o.http == Some(false) {
        return Err(StartupError::HttpDisabled);
    }
    if o.component_model == Some(false) {
        return Err(StartupError::ComponentModelDisabled);
    }
    let effective_cli = if o.cli.is_some() {
        if o.common.is_some() {
            return Err(StartupError::CommonWithCli);
        }
        o.cli
    } else {
        o.common
    };
    Ok(
        ValidatedServe {
            linker: if effective_cli == Some(true) {
                LinkerPlan::FullCli
            } else {
                LinkerPlan::ProxyOnly
            },
            nn: o.nn == Some(true),
            epoch_interruption: o.timeout.is_some(),
            timeout: o.timeout,
            fuel: o.fuel,
            limits: o.limits,
        },
    )
}

/// Memory-allocation strategy of the engine: pre-reserved fixed-capacity
/// pools, or on-demand allocation.
#[derive(PartialEq, Eq, Structural, Clone, Copy, Debug)]
pub enum AllocatorStrategy {
    Pooling,
    OnDemand,
}

/// The maximum size, in linear-memory pages, of the zero-sized probe
/// memory: a reservation that commits the address space one pool of the
/// pooling allocator needs.
pub fn probe_memory_pages() -> (p: u64)
    ensures
        p == 1u64 << (PROBE_ADDRESS_BITS - WASM_PAGE_BITS),
{
    1u64 << (PROBE_ADDRESS_BITS - WASM_PAGE_BITS)
}

/// The address-space commitment, in bytes, that the probe requests.
pub fn probe_memory_max_size() -> (s: u64)
    ensures
        s == 1u64 << PROBE_ADDRESS_BITS,
{
    1u64 << PROBE_ADDRESS_BITS
}

/// The probe's page count times the page size is exactly its byte-sized
/// address-space commitment: asking for the reservation in pages takes
/// the page bits out of the requested bit-width.
pub proof fn lemma_probe_reservation_bytes()
    ensures
        (1u64 << (PROBE_ADDRESS_BITS - WASM_PAGE_BITS)) as nat * 0x10000 == (1u64
            << PROBE_ADDRESS_BITS) as nat,
{
    assert((1u64 << 26) * 0x10000 == (1u64 << 42)) by (bit_vector);
    assert((1u64 << 26) as nat * 0x10000 == ((1u64 << 26) * 0x10000) as nat) by {
        assert((1u64 << 26) <= 0x4000000) by (bit_vector);
    }
}

/// Selects the allocation strategy from the probe's outcome: the pooling
/// strategy exactly when the host satisfied the probe reservation, and
/// the on-demand fallback otherwise.
pub fn choose_allocator(probe_ok: bool) -> (s: AllocatorStrategy)
    ensures
        s == AllocatorStrategy::Pooling <==> probe_ok,
{
    if probe_ok {
        AllocatorStrategy::Pooling
    } else {
        AllocatorStrategy::OnDemand
    }
}

/// Process-wide engine settings, fixed before the first connection.
#[derive(PartialEq, Eq, Structural, Clone, Copy, Debug)]
pub struct EnginePlan {
    pub allocator: AllocatorStrategy,
    pub epoch_interruption: bool,
    pub component_model: bool,
    pub async_support: bool,
}

/// The engine settings that a validated configuration and a probe
/// outcome determine.
pub open spec fn spec_plan_engine(epoch_interruption: bool, probe_ok: bool) -> EnginePlan {
    EnginePlan {
        allocator: if probe_ok {
            AllocatorStrategy::Pooling
        } else {
            AllocatorStrategy::OnDemand
        },
        epoch_interruption: epoch_interruption,
        component_model: true,
        async_support: true,
    }
}

/// Fixes the engine settings. Total in the probe's outcome: a failed
/// probe reservation selects the fallback strategy and is never an error.
pub fn plan_engine(v: &ValidatedServe, probe_ok: bool) -> (p: EnginePlan)
    ensures
        p == spec_plan_engine(v.epoch_interruption, probe_ok),
{
    EnginePlan {
        allocator: choose_allocator(probe_ok),
        epoch_interruption: v.epoch_interruption,
        component_model: true,
        async_support: true,
    }
}

/// Law: a failed probe reservation alone never prevents startup. Whatever
/// the probe's outcome, a validated configuration yields an engine plan,
/// and on failure the plan holds the on-demand fallback strategy.
pub proof fn lemma_probe_failure_uses_fallback(epoch_interruption: bool)
    ensures
        spec_plan_engine(epoch_interruption, false).allocator == AllocatorStrategy::OnDemand,
        spec_plan_engine(epoch_interruption, true).allocator == AllocatorStrategy::Pooling,
{
}

/// How the listening socket is opened. Address reuse is enabled exactly
/// where it only allows rebinding a recently closed port; on platforms
/// where the same flag would let unrelated processes share the port it
/// stays off.
#[derive(PartialEq, Eq, Structural, Clone, Copy, Debug)]
pub struct ListenerPlan {
    pub ipv6: bool,
    pub reuse_addr: bool,
    pub backlog: u32,
    pub keep_alive: bool,
}

/// Plans the listener for the configured address family and platform.
/// Connections are persistent: one connection may carry many sequential
/// requests.
pub fn plan_listener(ipv6: bool, windows: bool) -> (l: ListenerPlan)
    ensures
        l.ipv6 == ipv6,
        l.reuse_addr == !windows,
        l.backlog == ACCEPT_BACKLOG,
        l.keep_alive,
{
    ListenerPlan { ipv6, reuse_addr: !windows, backlog: ACCEPT_BACKLOG, keep_alive: true }
}

} // verus!
