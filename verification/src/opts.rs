//! The configuration record, its compiled-in defaults, and the bulk
//! resolver that fills it from an environment snapshot in one pass.
//!
//! Every tunable resolves independently of the others: the variable is
//! looked up, decoded into the field's type, and on absence or decode
//! failure the compiled-in default is kept silently.

use vstd::prelude::*;
use crate::parse::is_numeral;
use crate::parse::numeral_val;
use crate::parse::parse_bool;
use crate::parse::parse_u16;
use crate::parse::parse_u32;
use crate::parse::parse_u64;
use crate::parse::parse_usize;
use crate::parse::spec_parse_bool;
use crate::parse::spec_parse_u16;
use crate::parse::spec_parse_u32;
use crate::parse::spec_parse_u64;
use crate::parse::spec_parse_usize;
use crate::parse::str_eq;
use crate::snapshot::lookup;
use crate::snapshot::EnvSnapshot;
use crate::snapshot::EnvValue;

verus! {

/// The view of an environment snapshot: a sequence of (name, value) pairs.
pub type EnvEntries = Seq<(Seq<char>, Option<Seq<char>>)>;

/// What decoding a present variable as a boolean yields. A present value
/// always decodes: `1` and `true` mean true, anything else — a non-text
/// value included — means false.
pub open spec fn decoded_bool(v: Option<Seq<char>>) -> bool {
    match v {
        Some(s) => spec_parse_bool(s),
        None => false,
    }
}

/// What decoding a present variable as a `u16` yields.
pub open spec fn decoded_u16(v: Option<Seq<char>>) -> Option<u16> {
    match v {
        Some(s) => spec_parse_u16(s),
        None => None,
    }
}

/// What decoding a present variable as a `u32` yields.
pub open spec fn decoded_u32(v: Option<Seq<char>>) -> Option<u32> {
    match v {
        Some(s) => spec_parse_u32(s),
        None => None,
    }
}

/// What decoding a present variable as a `u64` yields.
pub open spec fn decoded_u64(v: Option<Seq<char>>) -> Option<u64> {
    match v {
        Some(s) => spec_parse_u64(s),
        None => None,
    }
}

/// What decoding a present variable as a `usize` yields.
pub open spec fn decoded_usize(v: Option<Seq<char>>) -> Option<usize> {
    match v {
        Some(s) => spec_parse_usize(s),
        None => None,
    }
}

/// The boolean a variable resolves to: its decoded value when present,
/// the default when absent.
pub open spec fn effective_bool(env: EnvEntries, name: Seq<char>, default: bool) -> bool {
    match lookup(env, name) {
        Some(v) => decoded_bool(v),
        None => default,
    }
}

/// The `u16` a variable resolves to: its decoded value when that decoding
/// succeeds, the default otherwise.
pub open spec fn effective_u16(env: EnvEntries, name: Seq<char>, default: u16) -> u16 {
    match lookup(env, name) {
        Some(v) => match decoded_u16(v) {
            Some(x) => x,
            None => default,
        },
        None => default,
    }
}

/// The `u64` a variable resolves to.
pub open spec fn effective_u64(env: EnvEntries, name: Seq<char>, default: u64) -> u64 {
    match lookup(env, name) {
        Some(v) => match decoded_u64(v) {
            Some(x) => x,
            None => default,
        },
        None => default,
    }
}

/// The `usize` a variable resolves to.
pub open spec fn effective_usize(env: EnvEntries, name: Seq<char>, default: usize) -> usize {
    match lookup(env, name) {
        Some(v) => match decoded_usize(v) {
            Some(x) => x,
            None => default,
        },
        None => default,
    }
}

/// The optional `u32` a variable resolves to. The field is only ever
/// updated to a present value: a failed decode keeps the default rather
/// than resetting the field.
pub open spec fn effective_opt_u32(
    env: EnvEntries,
    name: Seq<char>,
    default: Option<u32>,
) -> Option<u32> {
    match lookup(env, name) {
        Some(v) => match decoded_u32(v) {
            Some(x) => Some(x),
            None => default,
        },
        None => default,
    }
}

/// The optional `usize` a variable resolves to.
pub open spec fn effective_opt_usize(
    env: EnvEntries,
    name: Seq<char>,
    default: Option<usize>,
) -> Option<usize> {
    match lookup(env, name) {
        Some(v) => match decoded_usize(v) {
            Some(x) => Some(x),
            None => default,
        },
        None => default,
    }
}

/// The string a variable resolves to: the text itself when the value is
/// text, the default otherwise.
pub open spec fn effective_string(env: EnvEntries, name: Seq<char>, default: Seq<char>) -> Seq<
    char,
> {
    match lookup(env, name) {
        Some(v) => match v {
            Some(s) => s,
            None => default,
        },
        None => default,
    }
}

/// The optional string a variable resolves to.
pub open spec fn effective_opt_string(
    env: EnvEntries,
    name: Seq<char>,
    default: Option<Seq<char>>,
) -> Option<Seq<char>> {
    match lookup(env, name) {
        Some(v) => match v {
            Some(s) => Some(s),
            None => default,
        },
        None => default,
    }
}

fn resolve_bool(env: &EnvSnapshot, name: &str, default: bool) -> (r: bool)
    ensures
        r == effective_bool(env@, name@, default),
{
    match env.get_var(name) {
        Some(EnvValue::Text(s)) => parse_bool(s.as_str()),
        Some(EnvValue::NonText) => false,
        None => default,
    }
}

fn resolve_u16(env: &EnvSnapshot, name: &str, default: u16) -> (r: u16)
    ensures
        r == effective_u16(env@, name@, default),
{
    match env.get_var(name) {
        Some(EnvValue::Text(s)) => match parse_u16(s.as_str()) {
            Some(v) => v,
            None => default,
        },
        Some(EnvValue::NonText) => default,
        None => default,
    }
}

fn resolve_u64(env: &EnvSnapshot, name: &str, default: u64) -> (r: u64)
    ensures
        r == effective_u64(env@, name@, default),
{
    match env.get_var(name) {
        Some(EnvValue::Text(s)) => match parse_u64(s.as_str()) {
            Some(v) => v,
            None => default,
        },
        Some(EnvValue::NonText) => default,
        None => default,
    }
}

fn resolve_usize(env: &EnvSnapshot, name: &str, default: usize) -> (r: usize)
    ensures
        r == effective_usize(env@, name@, default),
{
    match env.get_var(name) {
        Some(EnvValue::Text(s)) => match parse_usize(s.as_str()) {
            Some(v) => v,
            None => default,
        },
        Some(EnvValue::NonText) => default,
        None => default,
    }
}

fn resolve_opt_u32(env: &EnvSnapshot, name: &str, default: Option<u32>) -> (r: Option<u32>)
    ensures
        r == effective_opt_u32(env@, name@, default),
{
    match env.get_var(name) {
        Some(EnvValue::Text(s)) => match parse_u32(s.as_str()) {
            Some(v) => Some(v),
            None => default,
        },
        Some(EnvValue::NonText) => default,
        None => default,
    }
}

fn resolve_opt_usize(env: &EnvSnapshot, name: &str, default: Option<usize>) -> (r: Option<usize>)
    ensures
        r == effective_opt_usize(env@, name@, default),
{
    match env.get_var(name) {
        Some(EnvValue::Text(s)) => match parse_usize(s.as_str()) {
            Some(v) => Some(v),
            None => default,
        },
        Some(EnvValue::NonText) => default,
        None => default,
    }
}

fn resolve_string(env: &EnvSnapshot, name: &str, default: &str) -> (r: String)
    ensures
        r@ == effective_string(env@, name@, default@),
{
    match env.get_var(name) {
        Some(EnvValue::Text(s)) => s.clone(),
        Some(EnvValue::NonText) => default.to_owned(),
        None => default.to_owned(),
    }
}

fn resolve_opt_string(env: &EnvSnapshot, name: &str, default: Option<String>) -> (r: Option<
    String,
>)
    ensures
        r.deep_view() == effective_opt_string(env@, name@, default.deep_view()),
{
    match env.get_var(name) {
        Some(EnvValue::Text(s)) => Some(s.clone()),
        Some(EnvValue::NonText) => default,
        None => default,
    }
}

/// The configuration record: every tunable of the agent, plus the marker
/// that resolution has run.
#[derive(Debug)]
pub struct Opts {
    /// The initialization marker: set by the bulk resolver, checked by the
    /// accessor's debug assertion. Not a tunable.
    pub is_initialized: bool,
    pub base_server_port: u16,
    pub chown_output_to: Option<u32>,
    pub disabled_by_default: bool,
    pub enable_broadcasts: bool,
    pub enable_server: bool,
    pub enable_shadow_stack: bool,
    pub grab_backtraces_on_free: bool,
    pub include_file: Option<String>,
    pub output_path_pattern: String,
    pub register_sigusr1: bool,
    pub register_sigusr2: bool,
    pub use_perf_event_open: bool,
    pub write_binaries_to_output: bool,
    pub zero_memory: bool,
    pub gather_mmap_calls: bool,
    pub backtrace_cache_size_level_1: usize,
    pub backtrace_cache_size_level_2: usize,
    pub cull_temporary_allocations: bool,
    pub temporary_allocation_lifetime_threshold: u64,
    pub temporary_allocation_pending_threshold: Option<usize>,
}

impl Opts {
    /// True once the bulk resolver has produced this record.
    pub open spec fn ready(&self) -> bool {
        self.is_initialized
    }

    /// Every field holds its compiled-in default.
    pub open spec fn holds_defaults(&self) -> bool {
        &&& self.base_server_port == 8100u16
        &&& self.chown_output_to is None
        &&& self.disabled_by_default == false
        &&& self.enable_broadcasts == false
        &&& self.enable_server == false
        &&& self.enable_shadow_stack == true
        &&& self.grab_backtraces_on_free == true
        &&& self.include_file is None
        &&& self.output_path_pattern@ == "memory-profiling_%e_%t_%p.dat"@
        &&& self.register_sigusr1 == true
        &&& self.register_sigusr2 == true
        &&& self.use_perf_event_open == true
        &&& self.write_binaries_to_output == true
        &&& self.zero_memory == false
        &&& self.gather_mmap_calls == false
        &&& self.backtrace_cache_size_level_1 == 16384usize
        &&& self.backtrace_cache_size_level_2 == 327680usize
        &&& self.cull_temporary_allocations == false
        &&& self.temporary_allocation_lifetime_threshold == 10000u64
        &&& self.temporary_allocation_pending_threshold is None
    }

    /// Whether resolution has run; the debug assertion in the accessor
    /// checks this.
    pub fn is_ready(&self) -> (r: bool)
        ensures
            r == self.ready(),
    {
        self.is_initialized
    }
}

impl Default for Opts {
    /// The record as it stands before resolution: every field at its
    /// compiled-in default, the ready marker unset.
    fn default() -> (r: Opts)
        ensures
            r.holds_defaults(),
            !r.ready(),
    {
        Opts {
            is_initialized: false,
            base_server_port: 8100,
            chown_output_to: None,
            disabled_by_default: false,
            enable_broadcasts: false,
            enable_server: false,
            enable_shadow_stack: true,
            grab_backtraces_on_free: true,
            include_file: None,
            output_path_pattern: "memory-profiling_%e_%t_%p.dat".to_owned(),
            register_sigusr1: true,
            register_sigusr2: true,
            use_perf_event_open: true,
            write_binaries_to_output: true,
            zero_memory: false,
            gather_mmap_calls: false,
            backtrace_cache_size_level_1: 16384,
            backtrace_cache_size_level_2: 327680,
            cull_temporary_allocations: false,
            temporary_allocation_lifetime_threshold: 10000,
            temporary_allocation_pending_threshold: None,
        }
    }
}

/// Every field of `opts` is what its environment variable resolves to over
/// `env`: the decoded override when one is present and decodes, the
/// compiled-in default otherwise.
pub open spec fn resolved_from(opts: Opts, env: EnvEntries) -> bool {
    &&& opts.base_server_port == effective_u16(env, "MEMORY_PROFILER_BASE_SERVER_PORT"@, 8100u16)
    &&& opts.chown_output_to == effective_opt_u32(
        env,
        "MEMORY_PROFILER_CHOWN_OUTPUT_TO"@,
        Option::<u32>::None,
    )
    &&& opts.disabled_by_default == effective_bool(
        env,
        "MEMORY_PROFILER_DISABLE_BY_DEFAULT"@,
        false,
    )
    &&& opts.enable_broadcasts == effective_bool(env, "MEMORY_PROFILER_ENABLE_BROADCAST"@, false)
    &&& opts.enable_server == effective_bool(env, "MEMORY_PROFILER_ENABLE_SERVER"@, false)
    &&& opts.enable_shadow_stack == effective_bool(env, "MEMORY_PROFILER_USE_SHADOW_STACK"@, true)
    &&& opts.grab_backtraces_on_free == effective_bool(
        env,
        "MEMORY_PROFILER_GRAB_BACKTRACES_ON_FREE"@,
        true,
    )
    &&& opts.include_file.deep_view() == effective_opt_string(
        env,
        "MEMORY_PROFILER_INCLUDE_FILE"@,
        Option::<Seq<char>>::None,
    )
    &&& opts.output_path_pattern@ == effective_string(
        env,
        "MEMORY_PROFILER_OUTPUT"@,
        "memory-profiling_%e_%t_%p.dat"@,
    )
    &&& opts.register_sigusr1 == effective_bool(env, "MEMORY_PROFILER_REGISTER_SIGUSR1"@, true)
    &&& opts.register_sigusr2 == effective_bool(env, "MEMORY_PROFILER_REGISTER_SIGUSR2"@, true)
    &&& opts.use_perf_event_open == effective_bool(
        env,
        "MEMORY_PROFILER_USE_PERF_EVENT_OPEN"@,
        true,
    )
    &&& opts.write_binaries_to_output == effective_bool(
        env,
        "MEMORY_PROFILER_WRITE_BINARIES_TO_OUTPUT"@,
        true,
    )
    &&& opts.zero_memory == effective_bool(env, "MEMORY_PROFILER_ZERO_MEMORY"@, false)
    &&& opts.gather_mmap_calls == effective_bool(env, "MEMORY_PROFILER_GATHER_MMAP_CALLS"@, false)
    &&& opts.backtrace_cache_size_level_1 == effective_usize(
        env,
        "MEMORY_PROFILER_BACKTRACE_CACHE_SIZE_LEVEL_1"@,
        16384usize,
    )
    &&& opts.backtrace_cache_size_level_2 == effective_usize(
        env,
        "MEMORY_PROFILER_BACKTRACE_CACHE_SIZE_LEVEL_2"@,
        327680usize,
    )
    &&& opts.cull_temporary_allocations == effective_bool(
        env,
        "MEMORY_PROFILER_CULL_TEMPORARY_ALLOCATIONS"@,
        false,
    )
    &&& opts.temporary_allocation_lifetime_threshold == effective_u64(
        env,
        "MEMORY_PROFILER_TEMPORARY_ALLOCATION_LIFETIME_THRESHOLD"@,
        10000u64,
    )
    &&& opts.temporary_allocation_pending_threshold == effective_opt_usize(
        env,
        "MEMORY_PROFILER_TEMPORARY_ALLOCATION_PENDING_THRESHOLD"@,
        Option::<usize>::None,
    )
}

/// The bulk resolver: decodes every variable of the schema against the
/// given environment snapshot, in one pass, and returns the record marked
/// ready. Absent or malformed variables silently leave their field at the
/// compiled-in default.
pub fn initialize(env: &EnvSnapshot) -> (opts: Opts)
    ensures
        opts.ready(),
        resolved_from(opts, env@),
{
    Opts {
        is_initialized: true,
        base_server_port: resolve_u16(env, "MEMORY_PROFILER_BASE_SERVER_PORT", 8100),
        chown_output_to: resolve_opt_u32(env, "MEMORY_PROFILER_CHOWN_OUTPUT_TO", None),
        disabled_by_default: resolve_bool(env, "MEMORY_PROFILER_DISABLE_BY_DEFAULT", false),
        enable_broadcasts: resolve_bool(env, "MEMORY_PROFILER_ENABLE_BROADCAST", false),
        enable_server: resolve_bool(env, "MEMORY_PROFILER_ENABLE_SERVER", false),
        enable_shadow_stack: resolve_bool(env, "MEMORY_PROFILER_USE_SHADOW_STACK", true),
        grab_backtraces_on_free: resolve_bool(env, "MEMORY_PROFILER_GRAB_BACKTRACES_ON_FREE", true),
        include_file: resolve_opt_string(env, "MEMORY_PROFILER_INCLUDE_FILE", None),
        output_path_pattern: resolve_string(
            env,
            "MEMORY_PROFILER_OUTPUT",
            "memory-profiling_%e_%t_%p.dat",
        ),
        register_sigusr1: resolve_bool(env, "MEMORY_PROFILER_REGISTER_SIGUSR1", true),
        register_sigusr2: resolve_bool(env, "MEMORY_PROFILER_REGISTER_SIGUSR2", true),
        use_perf_event_open: resolve_bool(env, "MEMORY_PROFILER_USE_PERF_EVENT_OPEN", true),
        write_binaries_to_output: resolve_bool(
            env,
            "MEMORY_PROFILER_WRITE_BINARIES_TO_OUTPUT",
            true,
        ),
        zero_memory: resolve_bool(env, "MEMORY_PROFILER_ZERO_MEMORY", false),
        gather_mmap_calls: resolve_bool(env, "MEMORY_PROFILER_GATHER_MMAP_CALLS", false),
        backtrace_cache_size_level_1: resolve_usize(
            env,
            "MEMORY_PROFILER_BACKTRACE_CACHE_SIZE_LEVEL_1",
            16384,
        ),
        backtrace_cache_size_level_2: resolve_usize(
            env,
            "MEMORY_PROFILER_BACKTRACE_CACHE_SIZE_LEVEL_2",
            327680,
        ),
        cull_temporary_allocations: resolve_bool(
            env,
            "MEMORY_PROFILER_CULL_TEMPORARY_ALLOCATIONS",
            false,
        ),
        temporary_allocation_lifetime_threshold: resolve_u64(
            env,
            "MEMORY_PROFILER_TEMPORARY_ALLOCATION_LIFETIME_THRESHOLD",
            10000,
        ),
        temporary_allocation_pending_threshold: resolve_opt_usize(
            env,
            "MEMORY_PROFILER_TEMPORARY_ALLOCATION_PENDING_THRESHOLD",
            None,
        ),
    }
}

/// How a boolean tunable resolves: `1` and `true` yield true, any other
/// present value — a non-text one included — yields false, and absence
/// keeps the default.
pub proof fn lemma_bool_resolution(env: EnvEntries, name: Seq<char>, default: bool)
    ensures
        match lookup(env, name) {
            Some(Some(s)) => effective_bool(env, name, default) == (s == "1"@ || s == "true"@),
            Some(None) => effective_bool(env, name, default) == false,
            None => effective_bool(env, name, default) == default,
        },
{
}

/// How a `u64` tunable resolves: a well-formed numeral within range yields
/// its value; anything else — absence, non-text, a malformed numeral, or
/// one out of range — keeps the default.
pub proof fn lemma_u64_resolution(env: EnvEntries, name: Seq<char>, default: u64)
    ensures
        match lookup(env, name) {
            Some(Some(s)) => effective_u64(env, name, default) == (
            if is_numeral(s) && numeral_val(s) <= u64::MAX {
                numeral_val(s) as u64
            } else {
                default
            }),
            Some(None) => effective_u64(env, name, default) == default,
            None => effective_u64(env, name, default) == default,
        },
{
}

/// How a `u16` tunable resolves; out-of-range numerals keep the default.
pub proof fn lemma_u16_resolution(env: EnvEntries, name: Seq<char>, default: u16)
    ensures
        match lookup(env, name) {
            Some(Some(s)) => effective_u16(env, name, default) == (
            if is_numeral(s) && numeral_val(s) <= u16::MAX {
                numeral_val(s) as u16
            } else {
                default
            }),
            Some(None) => effective_u16(env, name, default) == default,
            None => effective_u16(env, name, default) == default,
        },
{
}

/// How a size tunable resolves; out-of-range numerals keep the default.
pub proof fn lemma_usize_resolution(env: EnvEntries, name: Seq<char>, default: usize)
    ensures
        match lookup(env, name) {
            Some(Some(s)) => effective_usize(env, name, default) == (
            if is_numeral(s) && numeral_val(s) <= usize::MAX {
                numeral_val(s) as usize
            } else {
                default
            }),
            Some(None) => effective_usize(env, name, default) == default,
            None => effective_usize(env, name, default) == default,
        },
{
}

/// How an optional `u32` tunable with default "none" resolves: absence
/// yields none, a valid numeral yields that value, and a failed decode
/// yields none — never "present with the default".
pub proof fn lemma_opt_u32_resolution(env: EnvEntries, name: Seq<char>)
    ensures
        match lookup(env, name) {
            Some(Some(s)) => effective_opt_u32(env, name, Option::<u32>::None) == (
            if is_numeral(s) && numeral_val(s) <= u32::MAX {
                Some(numeral_val(s) as u32)
            } else {
                Option::<u32>::None
            }),
            Some(None) => effective_opt_u32(env, name, Option::<u32>::None) is None,
            None => effective_opt_u32(env, name, Option::<u32>::None) is None,
        },
{
}

/// How an optional size tunable with default "none" resolves.
pub proof fn lemma_opt_usize_resolution(env: EnvEntries, name: Seq<char>)
    ensures
        match lookup(env, name) {
            Some(Some(s)) => effective_opt_usize(env, name, Option::<usize>::None) == (
            if is_numeral(s) && numeral_val(s) <= usize::MAX {
                Some(numeral_val(s) as usize)
            } else {
                Option::<usize>::None
            }),
            Some(None) => effective_opt_usize(env, name, Option::<usize>::None) is None,
            None => effective_opt_usize(env, name, Option::<usize>::None) is None,
        },
{
}

/// Resolution is deterministic and order-independent: any two records
/// resolved from the same environment snapshot agree on every tunable,
/// however the fields were filled in.
pub proof fn lemma_resolution_deterministic(a: Opts, b: Opts, env: EnvEntries)
    requires
        resolved_from(a, env),
        resolved_from(b, env),
    ensures
        a.base_server_port == b.base_server_port,
        a.chown_output_to == b.chown_output_to,
        a.disabled_by_default == b.disabled_by_default,
        a.enable_broadcasts == b.enable_broadcasts,
        a.enable_server == b.enable_server,
        a.enable_shadow_stack == b.enable_shadow_stack,
        a.grab_backtraces_on_free == b.grab_backtraces_on_free,
        a.include_file.deep_view() == b.include_file.deep_view(),
        a.output_path_pattern@ == b.output_path_pattern@,
        a.register_sigusr1 == b.register_sigusr1,
        a.register_sigusr2 == b.register_sigusr2,
        a.use_perf_event_open == b.use_perf_event_open,
        a.write_binaries_to_output == b.write_binaries_to_output,
        a.zero_memory == b.zero_memory,
        a.gather_mmap_calls == b.gather_mmap_calls,
        a.backtrace_cache_size_level_1 == b.backtrace_cache_size_level_1,
        a.backtrace_cache_size_level_2 == b.backtrace_cache_size_level_2,
        a.cull_temporary_allocations == b.cull_temporary_allocations,
        a.temporary_allocation_lifetime_threshold == b.temporary_allocation_lifetime_threshold,
        a.temporary_allocation_pending_threshold == b.temporary_allocation_pending_threshold,
{
}

/// A record resolved from an environment that sets no variable at all holds
/// exactly the compiled-in defaults.
pub proof fn lemma_empty_env_gives_defaults(opts: Opts, env: EnvEntries)
    requires
        resolved_from(opts, env),
        env.len() == 0,
    ensures
        opts.holds_defaults(),
{
}

/// The decision behind the emit-partial-backtraces flag, from the value of
/// its dedicated environment variable: absence means true, the text `1`
/// means true, any other present value means false.
pub open spec fn partial_backtraces_decision(v: Option<Option<Seq<char>>>) -> bool {
    match v {
        Some(Some(s)) => s == "1"@,
        Some(None) => false,
        None => true,
    }
}

/// The view of an optional raw environment value.
pub open spec fn view_opt_value(v: Option<&EnvValue>) -> Option<Option<Seq<char>>> {
    match v {
        Some(ev) => Some(ev@),
        None => None,
    }
}

/// Decides the emit-partial-backtraces flag from the raw value of its
/// dedicated environment variable. The result is a function of that value
/// alone, so two queries against an unchanged environment agree.
pub fn emit_partial_backtraces(value: Option<&EnvValue>) -> (r: bool)
    ensures
        r == partial_backtraces_decision(view_opt_value(value)),
{
    match value {
        Some(EnvValue::Text(s)) => str_eq(s.as_str(), "1"),
        Some(EnvValue::NonText) => false,
        None => true,
    }
}

/// Whether backtraces captured by the agent should be cross-checked against
/// an independent unwinder. Always off in this build configuration; the
/// cross-checking code path is not compiled in.
pub fn crosscheck_unwind_results_with_libunwind() -> (r: bool)
    ensures
        r == false,
{
    false
}

} // verus!

