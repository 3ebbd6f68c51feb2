//! The outside items the library calls: `std::path::PathBuf`, `serde_json::Value`
//! and the configuration builders of `tla_connect`. Everything here is trusted:
//! each contract restates what the outside source shows.
use vstd::prelude::*;

verus! {

// ---------------------------------------------------------------------------
// Outside types
// ---------------------------------------------------------------------------

/// A file-system path, carried through opaquely.
#[verifier::external_type_specification]
#[verifier::external_body]
pub struct ExPathBuf(std::path::PathBuf);

/// A JSON value, carried through opaquely.
#[verifier::external_type_specification]
#[verifier::external_body]
pub struct ExJsonValue(serde_json::Value);

/// A JSON object's map from keys to values, carried through opaquely.
#[verifier::external_type_specification]
#[verifier::external_body]
#[verifier::reject_recursive_types(K)]
#[verifier::reject_recursive_types(V)]
pub struct ExJsonMap<K, V>(serde_json::Map<K, V>);

/// Apalache's execution mode: a public enum of two unit variants, `Check` and
/// `Simulate`, whose variants Verus reads.
#[verifier::external_type_specification]
pub struct ExApalacheMode(tla_connect::ApalacheMode);

/// The trace-generation configuration; all its fields are public.
#[verifier::external_type_specification]
pub struct ExApalacheConfig(tla_connect::ApalacheConfig);

/// The interactive-testing configuration; all its fields are public.
#[verifier::external_type_specification]
pub struct ExInteractiveConfig(tla_connect::InteractiveConfig);

/// Builder of an `ApalacheConfig`; its fields are private.
#[verifier::external_type_specification]
#[verifier::external_body]
pub struct ExApalacheConfigBuilder(tla_connect::ApalacheConfigBuilder);

/// Builder of an `InteractiveConfig`; its fields are private.
#[verifier::external_type_specification]
#[verifier::external_body]
pub struct ExInteractiveConfigBuilder(tla_connect::InteractiveConfigBuilder);

/// The error a builder returns when a required field was not set.
#[verifier::external_type_specification]
#[verifier::external_body]
pub struct ExBuilderError(tla_connect::BuilderError);

// ---------------------------------------------------------------------------
// Paths
// ---------------------------------------------------------------------------

/// Calls `PathBuf::clone`, which copies the path.
#[verifier::external_body]
pub(crate) fn path_clone(p: &std::path::PathBuf) -> (r: std::path::PathBuf)
    ensures
        r == *p,
{
    p.clone()
}

// ---------------------------------------------------------------------------
// JSON values
// ---------------------------------------------------------------------------

/// The keys of a JSON value when it is an object (`Value::Object`), and
/// `None` for every other kind of JSON value.
pub uninterp spec fn json_object_keys(v: serde_json::Value) -> Option<Set<Seq<char>>>;

/// Makes `Value::Object(Map::new())`, an object without keys.
#[verifier::external_body]
pub(crate) fn json_empty_object() -> (v: serde_json::Value)
    ensures
        json_object_keys(v) == Some(Set::<Seq<char>>::empty()),
{
    serde_json::Value::Object(serde_json::Map::new())
}

/// The keys of a JSON object's map. A `Map` holds each key once.
pub uninterp spec fn json_map_keys(m: serde_json::Map<String, serde_json::Value>) -> Set<Seq<char>>;

/// Calls `Value::as_object`: the map of an object, `None` for any other JSON
/// value.
#[verifier::external_body]
pub(crate) fn json_as_object(v: &serde_json::Value) -> (r: Option<
    &serde_json::Map<String, serde_json::Value>,
>)
    ensures
        match r {
            Some(m) => json_map_keys(*m).finite() && json_object_keys(*v) == Some(json_map_keys(*m)),
            None => json_object_keys(*v) is None,
        },
{
    v.as_object()
}

/// Calls `Map::len`: the number of entries, which is the number of keys.
#[verifier::external_body]
pub(crate) fn json_map_len(m: &serde_json::Map<String, serde_json::Value>) -> (r: usize)
    ensures
        r == json_map_keys(*m).len(),
{
    m.len()
}

/// Calls `Value::clone`, which copies the whole value.
#[verifier::external_body]
pub(crate) fn json_clone(v: &serde_json::Value) -> (r: serde_json::Value)
    ensures
        r == *v,
{
    v.clone()
}

// ---------------------------------------------------------------------------
// The trace-generation configuration builder
// ---------------------------------------------------------------------------

/// What an `ApalacheConfigBuilder` holds: one entry per field of the
/// configuration, `None` where its setter was not called.
pub struct ApalacheSettings {
    pub spec: Option<std::path::PathBuf>,
    pub inv: Option<Seq<char>>,
    pub max_traces: Option<usize>,
    pub max_length: Option<usize>,
    pub mode: Option<tla_connect::ApalacheMode>,
    pub apalache_bin: Option<Seq<char>>,
    pub keep_outputs: Option<bool>,
    pub view: Option<Seq<char>>,
    pub cinit: Option<Seq<char>>,
    pub out_dir: Option<std::path::PathBuf>,
    pub timeout: Option<core::time::Duration>,
}

/// The settings that an `ApalacheConfigBuilder` holds.
pub uninterp spec fn apalache_builder_settings(b: tla_connect::ApalacheConfigBuilder) -> ApalacheSettings;

/// Nothing set.
pub open spec fn apalache_settings_unset() -> ApalacheSettings {
    ApalacheSettings {
        spec: None,
        inv: None,
        max_traces: None,
        max_length: None,
        mode: None,
        apalache_bin: None,
        keep_outputs: None,
        view: None,
        cinit: None,
        out_dir: None,
        timeout: None,
    }
}

/// Calls `ApalacheConfig::builder`, which starts from a builder with nothing set.
#[verifier::external_body]
pub(crate) fn apalache_builder() -> (b: tla_connect::ApalacheConfigBuilder)
    ensures
        apalache_builder_settings(b) == apalache_settings_unset(),
{
    tla_connect::ApalacheConfig::builder()
}

/// Calls `ApalacheConfigBuilder::spec`, which records the spec path.
#[verifier::external_body]
pub(crate) fn apalache_builder_spec(
    b: tla_connect::ApalacheConfigBuilder,
    spec: std::path::PathBuf,
) -> (r: tla_connect::ApalacheConfigBuilder)
    ensures
        apalache_builder_settings(r) == (ApalacheSettings {
            spec: Some(spec),
            ..apalache_builder_settings(b)
        }),
{
    b.spec(spec)
}

/// Calls `ApalacheConfigBuilder::inv`, which records the invariant.
#[verifier::external_body]
pub(crate) fn apalache_builder_inv(b: tla_connect::ApalacheConfigBuilder, inv: &String) -> (r:
    tla_connect::ApalacheConfigBuilder)
    ensures
        apalache_builder_settings(r) == (ApalacheSettings {
            inv: Some(inv@),
            ..apalache_builder_settings(b)
        }),
{
    b.inv(inv)
}

/// Calls `ApalacheConfigBuilder::max_traces`, which records the trace count.
#[verifier::external_body]
pub(crate) fn apalache_builder_max_traces(b: tla_connect::ApalacheConfigBuilder, n: usize) -> (r:
    tla_connect::ApalacheConfigBuilder)
    ensures
        apalache_builder_settings(r) == (ApalacheSettings {
            max_traces: Some(n),
            ..apalache_builder_settings(b)
        }),
{
    b.max_traces(n)
}

/// Calls `ApalacheConfigBuilder::max_length`, which records the trace length.
#[verifier::external_body]
pub(crate) fn apalache_builder_max_length(b: tla_connect::ApalacheConfigBuilder, n: usize) -> (r:
    tla_connect::ApalacheConfigBuilder)
    ensures
        apalache_builder_settings(r) == (ApalacheSettings {
            max_length: Some(n),
            ..apalache_builder_settings(b)
        }),
{
    b.max_length(n)
}

/// Calls `ApalacheConfigBuilder::mode`, which records the mode.
#[verifier::external_body]
pub(crate) fn apalache_builder_mode(
    b: tla_connect::ApalacheConfigBuilder,
    mode: tla_connect::ApalacheMode,
) -> (r: tla_connect::ApalacheConfigBuilder)
    ensures
        apalache_builder_settings(r) == (ApalacheSettings {
            mode: Some(mode),
            ..apalache_builder_settings(b)
        }),
{
    b.mode(mode)
}

/// Calls `ApalacheConfigBuilder::cinit`, which records the constant predicate.
#[verifier::external_body]
pub(crate) fn apalache_builder_cinit(b: tla_connect::ApalacheConfigBuilder, cinit: &String) -> (r:
    tla_connect::ApalacheConfigBuilder)
    ensures
        apalache_builder_settings(r) == (ApalacheSettings {
            cinit: Some(cinit@),
            ..apalache_builder_settings(b)
        }),
{
    b.cinit(cinit)
}

/// Calls `ApalacheConfigBuilder::view`, which records the view operator.
#[verifier::external_body]
pub(crate) fn apalache_builder_view(b: tla_connect::ApalacheConfigBuilder, view: &String) -> (r:
    tla_connect::ApalacheConfigBuilder)
    ensures
        apalache_builder_settings(r) == (ApalacheSettings {
            view: Some(view@),
            ..apalache_builder_settings(b)
        }),
{
    b.view(view)
}

/// The view of an optional text.
pub open spec fn opt_text(o: Option<String>) -> Option<Seq<char>> {
    match o {
        Some(s) => Some(s@),
        None => None,
    }
}

/// Calls `ApalacheConfigBuilder::build`. It fails exactly when no spec was
/// set; otherwise each field of the configuration is what was set, or else
/// the value that `ApalacheConfig::default` gives it.
#[verifier::external_body]
pub(crate) fn apalache_build(b: tla_connect::ApalacheConfigBuilder) -> (r: Result<
    tla_connect::ApalacheConfig,
    tla_connect::BuilderError,
>)
    ensures
        ({
            let s = apalache_builder_settings(b);
            match r {
                Ok(c) => {
                    &&& s.spec == Some(c.spec)
                    &&& c.inv@ == (match s.inv {
                        Some(v) => v,
                        None => "TraceComplete"@,
                    })
                    &&& c.max_traces == (match s.max_traces {
                        Some(v) => v,
                        None => 100usize,
                    })
                    &&& c.max_length == (match s.max_length {
                        Some(v) => v,
                        None => 50usize,
                    })
                    &&& c.mode == (match s.mode {
                        Some(v) => v,
                        None => tla_connect::ApalacheMode::Simulate,
                    })
                    &&& c.apalache_bin@ == (match s.apalache_bin {
                        Some(v) => v,
                        None => "apalache-mc"@,
                    })
                    &&& c.keep_outputs == (match s.keep_outputs {
                        Some(v) => v,
                        None => false,
                    })
                    &&& opt_text(c.view) == s.view
                    &&& opt_text(c.cinit) == s.cinit
                    &&& c.out_dir == s.out_dir
                    &&& c.timeout == s.timeout
                },
                Err(_) => s.spec is None,
            }
        }),
{
    b.build()
}

// ---------------------------------------------------------------------------
// The interactive-testing configuration builder
// ---------------------------------------------------------------------------

/// What an `InteractiveConfigBuilder` holds: one entry per field of the
/// configuration, `None` where its setter was not called.
pub struct InteractiveSettings {
    pub spec: Option<std::path::PathBuf>,
    pub aux_files: Option<Seq<std::path::PathBuf>>,
    pub init: Option<Seq<char>>,
    pub next: Option<Seq<char>>,
    pub max_steps: Option<usize>,
    pub num_runs: Option<usize>,
    pub constants: Option<serde_json::Value>,
    pub seed: Option<u64>,
}

/// The settings that an `InteractiveConfigBuilder` holds.
pub uninterp spec fn interactive_builder_settings(b: tla_connect::InteractiveConfigBuilder) -> InteractiveSettings;

/// Nothing set.
pub open spec fn interactive_settings_unset() -> InteractiveSettings {
    InteractiveSettings {
        spec: None,
        aux_files: None,
        init: None,
        next: None,
        max_steps: None,
        num_runs: None,
        constants: None,
        seed: None,
    }
}

/// Calls `InteractiveConfig::builder`, which starts from a builder with nothing set.
#[verifier::external_body]
pub(crate) fn interactive_builder() -> (b: tla_connect::InteractiveConfigBuilder)
    ensures
        interactive_builder_settings(b) == interactive_settings_unset(),
{
    tla_connect::InteractiveConfig::builder()
}

/// Calls `InteractiveConfigBuilder::spec`, which records the spec path.
#[verifier::external_body]
pub(crate) fn interactive_builder_spec(
    b: tla_connect::InteractiveConfigBuilder,
    spec: std::path::PathBuf,
) -> (r: tla_connect::InteractiveConfigBuilder)
    ensures
        interactive_builder_settings(r) == (InteractiveSettings {
            spec: Some(spec),
            ..interactive_builder_settings(b)
        }),
{
    b.spec(spec)
}

/// Calls `InteractiveConfigBuilder::init`, which records the Init predicate's name.
#[verifier::external_body]
pub(crate) fn interactive_builder_init(b: tla_connect::InteractiveConfigBuilder, init: &String) -> (r:
    tla_connect::InteractiveConfigBuilder)
    ensures
        interactive_builder_settings(r) == (InteractiveSettings {
            init: Some(init@),
            ..interactive_builder_settings(b)
        }),
{
    b.init(init)
}

/// Calls `InteractiveConfigBuilder::next`, which records the Next relation's name.
#[verifier::external_body]
pub(crate) fn interactive_builder_next(b: tla_connect::InteractiveConfigBuilder, next: &String) -> (r:
    tla_connect::InteractiveConfigBuilder)
    ensures
        interactive_builder_settings(r) == (InteractiveSettings {
            next: Some(next@),
            ..interactive_builder_settings(b)
        }),
{
    b.next(next)
}

/// Calls `InteractiveConfigBuilder::max_steps`, which records the steps per run.
#[verifier::external_body]
pub(crate) fn interactive_builder_max_steps(b: tla_connect::InteractiveConfigBuilder, n: usize) -> (r:
    tla_connect::InteractiveConfigBuilder)
    ensures
        interactive_builder_settings(r) == (InteractiveSettings {
            max_steps: Some(n),
            ..interactive_builder_settings(b)
        }),
{
    b.max_steps(n)
}

/// Calls `InteractiveConfigBuilder::num_runs`, which records the number of runs.
#[verifier::external_body]
pub(crate) fn interactive_builder_num_runs(b: tla_connect::InteractiveConfigBuilder, n: usize) -> (r:
    tla_connect::InteractiveConfigBuilder)
    ensures
        interactive_builder_settings(r) == (InteractiveSettings {
            num_runs: Some(n),
            ..interactive_builder_settings(b)
        }),
{
    b.num_runs(n)
}

/// Calls `InteractiveConfigBuilder::constants`, which records the constants.
#[verifier::external_body]
pub(crate) fn interactive_builder_constants(
    b: tla_connect::InteractiveConfigBuilder,
    constants: serde_json::Value,
) -> (r: tla_connect::InteractiveConfigBuilder)
    ensures
        interactive_builder_settings(r) == (InteractiveSettings {
            constants: Some(constants),
            ..interactive_builder_settings(b)
        }),
{
    b.constants(constants)
}

/// Calls `InteractiveConfigBuilder::seed`, which records the random seed.
#[verifier::external_body]
pub(crate) fn interactive_builder_seed(b: tla_connect::InteractiveConfigBuilder, seed: u64) -> (r:
    tla_connect::InteractiveConfigBuilder)
    ensures
        interactive_builder_settings(r) == (InteractiveSettings {
            seed: Some(seed),
            ..interactive_builder_settings(b)
        }),
{
    b.seed(seed)
}

/// Calls `InteractiveConfigBuilder::build`. It fails exactly when no spec
/// was set; otherwise each field of the configuration is what was set, or
/// else the value that `InteractiveConfig::default` gives it. Of the default
/// constants, `Value::Object(Map::new())`, the contract says that they are
/// an object without keys.
#[verifier::external_body]
pub(crate) fn interactive_build(b: tla_connect::InteractiveConfigBuilder) -> (r: Result<
    tla_connect::InteractiveConfig,
    tla_connect::BuilderError,
>)
    ensures
        ({
            let s = interactive_builder_settings(b);
            match r {
                Ok(c) => {
                    &&& s.spec == Some(c.spec)
                    &&& c.aux_files@ == (match s.aux_files {
                        Some(v) => v,
                        None => Seq::<std::path::PathBuf>::empty(),
                    })
                    &&& c.init@ == (match s.init {
                        Some(v) => v,
                        None => "Init"@,
                    })
                    &&& c.next@ == (match s.next {
                        Some(v) => v,
                        None => "Next"@,
                    })
                    &&& c.max_steps == (match s.max_steps {
                        Some(v) => v,
                        None => 100usize,
                    })
                    &&& c.num_runs == (match s.num_runs {
                        Some(v) => v,
                        None => 50usize,
                    })
                    &&& (match s.constants {
                        Some(v) => c.constants == v,
                        None => json_object_keys(c.constants) == Some(Set::<Seq<char>>::empty()),
                    })
                    &&& c.seed == s.seed
                },
                Err(_) => s.spec is None,
            }
        }),
{
    b.build()
}

} // verus!
