//! Per-request sandbox construction and resource-limit enforcement.
//!
//! Every request gets a fresh execution context: its own captured-output
//! writers tagged with the request identity, the identity exposed to the
//! program through an environment variable, an epoch budget when a
//! deadline is configured, an optional fuel budget, and its own resource
//! ceilings. Nothing in a sandbox is shared with any other request.
use vstd::prelude::*;

verus! {

use crate::EPOCH_PRECISION;
use crate::config::LimitPolicy;
use crate::config::ValidatedServe;
use crate::decimal::dec_digits;
use crate::decimal::u64_to_decimal;
use crate::logstream::LogWriter;
use crate::logstream::StreamKind;
use crate::logstream::stream_prefix_spec;

/// One request's isolated execution context, as planned from the
/// validated configuration: exclusively owned by the task serving that
/// request and discarded with it.
pub struct SandboxSpec {
    pub request_id: u64,
    pub env_request_id: Vec<u8>,
    pub stdout: LogWriter,
    pub stderr: LogWriter,
    pub epoch_deadline: Option<u64>,
    pub fuel: Option<u64>,
    pub limits: LimitPolicy,
}

/// What a sandbox built for request `id` under configuration `v` holds:
/// the identity in decimal for the environment, fresh writers whose
/// prefixes carry the identity, an epoch budget of one precision's worth
/// of ticks plus one tick of slack exactly when a deadline is configured,
/// and the configured fuel and ceilings.
pub open spec fn is_sandbox_for(s: SandboxSpec, v: ValidatedServe, id: u64) -> bool {
    &&& s.request_id == id
    &&& s.env_request_id@ == dec_digits(id as nat)
    &&& s.stdout.prefix() == stream_prefix_spec(StreamKind::Stdout, id as nat)
    &&& s.stdout.pending() == Seq::<u8>::empty()
    &&& s.stderr.prefix() == stream_prefix_spec(StreamKind::Stderr, id as nat)
    &&& s.stderr.pending() == Seq::<u8>::empty()
    &&& s.epoch_deadline == (if v.epoch_interruption {
        Some((EPOCH_PRECISION + 1) as u64)
    } else {
        None::<u64>
    })
    &&& s.fuel == v.fuel
    &&& s.limits == v.limits
}

/// Builds the fresh execution context of one request. The epoch budget is
/// `EPOCH_PRECISION + 1` ticks: a sandbox may be created at any point
/// within a tick, and the extra tick bounds the worst-case overshoot to
/// one tick while never expiring a request early.
pub fn build_sandbox(v: &ValidatedServe, request_id: u64) -> (s: SandboxSpec)
    ensures
        is_sandbox_for(s, *v, request_id),
{
    SandboxSpec {
        request_id,
        env_request_id: u64_to_decimal(request_id),
        stdout: LogWriter::new(StreamKind::Stdout, request_id),
        stderr: LogWriter::new(StreamKind::Stderr, request_id),
        epoch_deadline: if v.epoch_interruption {
            Some(EPOCH_PRECISION + 1)
        } else {
            None
        },
        fuel: v.fuel,
        limits: v.limits,
    }
}

/// Law: the captured-output prefixes of every sandbox are free of the
/// line separator, so a prefixed line always names the one request whose
/// writer produced it, whole.
pub proof fn lemma_sandbox_prefixes_clean(s: SandboxSpec, v: ValidatedServe, id: u64)
    requires
        is_sandbox_for(s, v, id),
    ensures
        crate::logstream::no_newline(s.stdout.prefix()),
        crate::logstream::no_newline(s.stderr.prefix()),
{
    crate::logstream::lemma_prefix_no_newline(StreamKind::Stdout, id as nat);
    crate::logstream::lemma_prefix_no_newline(StreamKind::Stderr, id as nat);
}

/// Whether growing to `desired` stays within a configured ceiling.
pub open spec fn growth_allowed(ceiling: Option<u64>, desired: u64) -> bool {
    match ceiling {
        Some(m) => desired <= m,
        None => true,
    }
}

/// The resource accounting of one in-flight sandbox, owned by that
/// sandbox alone.
#[derive(PartialEq, Eq, Structural, Clone, Copy, Debug)]
pub struct SandboxUsage {
    pub policy: LimitPolicy,
    pub memory_size: u64,
    pub table_elements: u64,
}

/// The accounting after a request to grow linear memory to `desired`
/// bytes: the growth happens exactly when it stays within the ceiling,
/// and a refused growth leaves the sandbox as it was.
pub open spec fn spec_memory_grow(u: SandboxUsage, desired: u64) -> SandboxUsage {
    if growth_allowed(u.policy.max_memory_bytes, desired) {
        SandboxUsage { memory_size: desired, ..u }
    } else {
        u
    }
}

/// The accounting after a request to grow a table to `desired` elements.
pub open spec fn spec_table_grow(u: SandboxUsage, desired: u64) -> SandboxUsage {
    if growth_allowed(u.policy.max_table_elements, desired) {
        SandboxUsage { table_elements: desired, ..u }
    } else {
        u
    }
}

/// Decides a linear-memory growth inside one sandbox. A growth beyond the
/// ceiling fails this one operation — the function returns `false` to the
/// sandbox — and nothing else: the host keeps running.
pub fn memory_growing(u: &mut SandboxUsage, desired: u64) -> (ok: bool)
    ensures
        ok == growth_allowed(old(u).policy.max_memory_bytes, desired),
        *final(u) == spec_memory_grow(*old(u), desired),
{
    let allowed = match u.policy.max_memory_bytes {
        Some(m) => desired <= m,
        None => true,
    };
    if allowed {
        u.memory_size = desired;
    }
    allowed
}

/// Decides a table growth inside one sandbox, as [`memory_growing`] does
/// for linear memory.
pub fn table_growing(u: &mut SandboxUsage, desired: u64) -> (ok: bool)
    ensures
        ok == growth_allowed(old(u).policy.max_table_elements, desired),
        *final(u) == spec_table_grow(*old(u), desired),
{
    let allowed = match u.policy.max_table_elements {
        Some(m) => desired <= m,
        None => true,
    };
    if allowed {
        u.table_elements = desired;
    }
    allowed
}

/// Law: resource-limit violations in different sandboxes are independent.
/// Over the accounting of all in-flight sandboxes, a growth decided in
/// sandbox `a` — allowed or refused — leaves every other sandbox exactly
/// as it was, and the host keeps every sandbox.
pub proof fn lemma_limit_violations_independent(
    host: Map<u64, SandboxUsage>,
    a: u64,
    b: u64,
    desired: u64,
)
    requires
        host.contains_key(a),
        host.contains_key(b),
        a != b,
    ensures
        host.insert(a, spec_memory_grow(host[a], desired)).contains_key(b),
        host.insert(a, spec_memory_grow(host[a], desired))[b] == host[b],
        host.insert(a, spec_table_grow(host[a], desired)).contains_key(b),
        host.insert(a, spec_table_grow(host[a], desired))[b] == host[b],
{
}

} // verus!
