//! Model-based testing set-ups for TLA+ specifications checked by Apalache:
//! batch trace generation and replay (`ApalacheMBT`), and interactive
//! symbolic testing against an Apalache explorer server (`InteractiveMBT`).
//!
//! Each set-up is a builder of plain settings. The configuration that
//! `tla_connect` runs is derived from those settings by `to_config`.
use vstd::prelude::*;

use crate::bindings::{
    apalache_build, apalache_builder, apalache_builder_cinit, apalache_builder_inv,
    apalache_builder_max_length, apalache_builder_max_traces, apalache_builder_mode,
    apalache_builder_spec, apalache_builder_view, interactive_build, interactive_builder,
    interactive_builder_constants, interactive_builder_init, interactive_builder_max_steps,
    interactive_builder_next, interactive_builder_num_runs, interactive_builder_seed,
    interactive_builder_spec, json_clone, json_empty_object, json_object_keys, json_as_object, json_map_len,
    opt_text, path_clone,
};

verus! {

// ---------------------------------------------------------------------------
// Batch trace generation and replay
// ---------------------------------------------------------------------------

/// Settings for generating traces with Apalache and replaying them.
pub struct ApalacheMBT {
    spec: std::path::PathBuf,
    max_traces: u32,
    max_length: u32,
    invariant: String,
    mode: tla_connect::ApalacheMode,
    cinit: Option<String>,
    view: Option<String>,
}

/// The settings of an `ApalacheMBT`, as mathematical values.
pub struct ApalacheModel {
    /// Path of the TLA+ specification.
    pub spec: std::path::PathBuf,
    /// Number of traces to generate.
    pub max_traces: u32,
    /// Number of steps of each trace.
    pub max_length: u32,
    /// Invariant whose violations become traces.
    pub invariant: Seq<char>,
    /// Apalache's execution mode.
    pub mode: tla_connect::ApalacheMode,
    /// Constant initialisation predicate, if any.
    pub cinit: Option<Seq<char>>,
    /// View operator, if any.
    pub view: Option<Seq<char>>,
}

/// One setting of an `ApalacheMBT`, as its setters make it.
pub enum ApalacheSetting {
    MaxTraces(u32),
    MaxLength(u32),
    Inv(Seq<char>),
    Mode(tla_connect::ApalacheMode),
    Cinit(Seq<char>),
    View(Seq<char>),
}

impl ApalacheSetting {
    /// Which setting it is: settings of one kind overwrite each other.
    pub open spec fn kind(self) -> int {
        match self {
            ApalacheSetting::MaxTraces(_) => 0,
            ApalacheSetting::MaxLength(_) => 1,
            ApalacheSetting::Inv(_) => 2,
            ApalacheSetting::Mode(_) => 3,
            ApalacheSetting::Cinit(_) => 4,
            ApalacheSetting::View(_) => 5,
        }
    }
}

impl ApalacheModel {
    /// These settings with one of them replaced.
    pub open spec fn with(self, setting: ApalacheSetting) -> ApalacheModel {
        match setting {
            ApalacheSetting::MaxTraces(n) => ApalacheModel { max_traces: n, ..self },
            ApalacheSetting::MaxLength(n) => ApalacheModel { max_length: n, ..self },
            ApalacheSetting::Inv(inv) => ApalacheModel { invariant: inv, ..self },
            ApalacheSetting::Mode(mode) => ApalacheModel { mode: mode, ..self },
            ApalacheSetting::Cinit(cinit) => ApalacheModel { cinit: Some(cinit), ..self },
            ApalacheSetting::View(view) => ApalacheModel { view: Some(view), ..self },
        }
    }
}

/// Of two settings of one kind, the later one is what remains.
pub proof fn lemma_apalache_last_setting_wins(
    m: ApalacheModel,
    first: ApalacheSetting,
    second: ApalacheSetting,
)
    requires
        first.kind() == second.kind(),
    ensures
        m.with(first).with(second) == m.with(second),
{
}

/// Settings of different kinds do not touch each other: in either order
/// they give the same settings.
pub proof fn lemma_apalache_settings_commute(
    m: ApalacheModel,
    first: ApalacheSetting,
    second: ApalacheSetting,
)
    requires
        first.kind() != second.kind(),
    ensures
        m.with(first).with(second) == m.with(second).with(first),
{
}

/// A setting replaces exactly its own entry: that entry becomes the given
/// value and every other entry stays as it was.
pub proof fn lemma_apalache_setting_replaces_its_entry(m: ApalacheModel, s: ApalacheSetting)
    ensures
        s matches ApalacheSetting::MaxTraces(n) ==> m.with(s).max_traces == n,
        s matches ApalacheSetting::MaxLength(n) ==> m.with(s).max_length == n,
        s matches ApalacheSetting::Inv(inv) ==> m.with(s).invariant == inv,
        s matches ApalacheSetting::Mode(mode) ==> m.with(s).mode == mode,
        s matches ApalacheSetting::Cinit(cinit) ==> m.with(s).cinit == Some(cinit),
        s matches ApalacheSetting::View(view) ==> m.with(s).view == Some(view),
        m.with(s).spec == m.spec,
        !(s is MaxTraces) ==> m.with(s).max_traces == m.max_traces,
        !(s is MaxLength) ==> m.with(s).max_length == m.max_length,
        !(s is Inv) ==> m.with(s).invariant == m.invariant,
        !(s is Mode) ==> m.with(s).mode == m.mode,
        !(s is Cinit) ==> m.with(s).cinit == m.cinit,
        !(s is View) ==> m.with(s).view == m.view,
{
}

/// A trace-generation configuration made from the settings `m`: each
/// setting as it stands (the counts widened to `usize`), and for the rest
/// `tla_connect`'s defaults: binary `apalache-mc`, a temporary output
/// directory that is not kept, no timeout.
pub open spec fn apalache_config_reflects(c: tla_connect::ApalacheConfig, m: ApalacheModel) -> bool {
    &&& c.spec == m.spec
    &&& c.inv@ == m.invariant
    &&& c.max_traces == m.max_traces as usize
    &&& c.max_length == m.max_length as usize
    &&& c.mode == m.mode
    &&& opt_text(c.cinit) == m.cinit
    &&& opt_text(c.view) == m.view
    &&& c.apalache_bin@ == "apalache-mc"@
    &&& c.out_dir is None
    &&& !c.keep_outputs
    &&& c.timeout is None
}

/// Two trace-generation configurations that agree on every field (texts by
/// their contents).
pub open spec fn apalache_configs_agree(a: tla_connect::ApalacheConfig, b: tla_connect::ApalacheConfig) -> bool {
    &&& a.spec == b.spec
    &&& a.inv@ == b.inv@
    &&& a.max_traces == b.max_traces
    &&& a.max_length == b.max_length
    &&& a.mode == b.mode
    &&& opt_text(a.cinit) == opt_text(b.cinit)
    &&& opt_text(a.view) == opt_text(b.view)
    &&& a.apalache_bin@ == b.apalache_bin@
    &&& a.out_dir == b.out_dir
    &&& a.keep_outputs == b.keep_outputs
    &&& a.timeout == b.timeout
}

/// Setters of different settings, called in either order, lead to
/// configurations that agree on every field.
pub proof fn lemma_apalache_config_setters_commute(
    m: ApalacheModel,
    first: ApalacheSetting,
    second: ApalacheSetting,
    a: tla_connect::ApalacheConfig,
    b: tla_connect::ApalacheConfig,
)
    requires
        first.kind() != second.kind(),
        apalache_config_reflects(a, m.with(first).with(second)),
        apalache_config_reflects(b, m.with(second).with(first)),
    ensures
        apalache_configs_agree(a, b),
{
    lemma_apalache_settings_commute(m, first, second);
}

/// Of two calls of one setter, the later one alone decides the
/// configuration.
pub proof fn lemma_apalache_config_last_setting_wins(
    m: ApalacheModel,
    first: ApalacheSetting,
    second: ApalacheSetting,
    a: tla_connect::ApalacheConfig,
    b: tla_connect::ApalacheConfig,
)
    requires
        first.kind() == second.kind(),
        apalache_config_reflects(a, m.with(first).with(second)),
        apalache_config_reflects(b, m.with(second)),
    ensures
        apalache_configs_agree(a, b),
{
    lemma_apalache_last_setting_wins(m, first, second);
}

/// After one setting, the configuration carries the given value in its
/// field (a count widened to `usize`, a text by its contents), and every
/// other field is as in the configuration made before it.
pub proof fn lemma_apalache_config_after_setting(
    m: ApalacheModel,
    s: ApalacheSetting,
    before: tla_connect::ApalacheConfig,
    after: tla_connect::ApalacheConfig,
)
    requires
        apalache_config_reflects(before, m),
        apalache_config_reflects(after, m.with(s)),
    ensures
        s matches ApalacheSetting::MaxTraces(n) ==> after.max_traces == n as usize,
        s matches ApalacheSetting::MaxLength(n) ==> after.max_length == n as usize,
        s matches ApalacheSetting::Inv(inv) ==> after.inv@ == inv,
        s matches ApalacheSetting::Mode(mode) ==> after.mode == mode,
        s matches ApalacheSetting::Cinit(cinit) ==> opt_text(after.cinit) == Some(cinit),
        s matches ApalacheSetting::View(view) ==> opt_text(after.view) == Some(view),
        after.spec == before.spec,
        !(s is MaxTraces) ==> after.max_traces == before.max_traces,
        !(s is MaxLength) ==> after.max_length == before.max_length,
        !(s is Inv) ==> after.inv@ == before.inv@,
        !(s is Mode) ==> after.mode == before.mode,
        !(s is Cinit) ==> opt_text(after.cinit) == opt_text(before.cinit),
        !(s is View) ==> opt_text(after.view) == opt_text(before.view),
        after.apalache_bin@ == before.apalache_bin@,
        after.out_dir == before.out_dir,
        after.keep_outputs == before.keep_outputs,
        after.timeout == before.timeout,
{
    lemma_apalache_setting_replaces_its_entry(m, s);
}

impl ApalacheMBT {
    /// The settings held.
    pub closed spec fn model(&self) -> ApalacheModel {
        ApalacheModel {
            spec: self.spec,
            max_traces: self.max_traces,
            max_length: self.max_length,
            invariant: self.invariant@,
            mode: self.mode,
            cinit: opt_text(self.cinit),
            view: opt_text(self.view),
        }
    }

    /// Settings for the specification at `spec`: 100 traces of 50 steps,
    /// invariant `TraceComplete`, simulation mode, no constant predicate and
    /// no view.
    pub fn new(spec: std::path::PathBuf) -> (r: Self)
        ensures
            r.model() == (ApalacheModel {
                spec: spec,
                max_traces: 100,
                max_length: 50,
                invariant: "TraceComplete"@,
                mode: tla_connect::ApalacheMode::Simulate,
                cinit: None,
                view: None,
            }),
    {
        ApalacheMBT {
            spec: spec,
            max_traces: 100,
            max_length: 50,
            invariant: "TraceComplete".to_owned(),
            mode: tla_connect::ApalacheMode::Simulate,
            cinit: None,
            view: None,
        }
    }

    /// Sets the number of traces; nothing else changes.
    pub fn max_traces(self, n: u32) -> (r: Self)
        ensures
            r.model().max_traces == n,
            r.model() == self.model().with(ApalacheSetting::MaxTraces(n)),
    {
        let mut s = self;
        s.max_traces = n;
        s
    }

    /// Sets the number of steps of each trace; nothing else changes.
    pub fn max_length(self, n: u32) -> (r: Self)
        ensures
            r.model().max_length == n,
            r.model() == self.model().with(ApalacheSetting::MaxLength(n)),
    {
        let mut s = self;
        s.max_length = n;
        s
    }

    /// Sets the invariant; nothing else changes.
    pub fn inv(self, inv: &str) -> (r: Self)
        ensures
            r.model().invariant == inv@,
            r.model() == self.model().with(ApalacheSetting::Inv(inv@)),
    {
        let mut s = self;
        s.invariant = inv.to_owned();
        s
    }

    /// Sets the execution mode; nothing else changes.
    pub fn mode(self, mode: tla_connect::ApalacheMode) -> (r: Self)
        ensures
            r.model().mode == mode,
            r.model() == self.model().with(ApalacheSetting::Mode(mode)),
    {
        let mut s = self;
        s.mode = mode;
        s
    }

    /// Sets the constant initialisation predicate; nothing else changes.
    pub fn cinit(self, cinit: &str) -> (r: Self)
        ensures
            r.model().cinit == Some(cinit@),
            r.model() == self.model().with(ApalacheSetting::Cinit(cinit@)),
    {
        let mut s = self;
        s.cinit = Some(cinit.to_owned());
        s
    }

    /// Sets the view operator; nothing else changes.
    pub fn view(self, view: &str) -> (r: Self)
        ensures
            r.model().view == Some(view@),
            r.model() == self.model().with(ApalacheSetting::View(view@)),
    {
        let mut s = self;
        s.view = Some(view.to_owned());
        s
    }

    /// The trace-generation configuration: each setting is handed over as
    /// it stands (the counts widened to `usize`), the rest is
    /// `tla_connect`'s default: binary `apalache-mc`, a temporary output
    /// directory that is not kept, no timeout.
    pub fn to_config(&self) -> (c: tla_connect::ApalacheConfig)
        ensures
            apalache_config_reflects(c, self.model()),
    {
        let mut builder = apalache_builder();
        builder = apalache_builder_spec(builder, path_clone(&self.spec));
        builder = apalache_builder_inv(builder, &self.invariant);
        builder = apalache_builder_max_traces(builder, self.max_traces as usize);
        builder = apalache_builder_max_length(builder, self.max_length as usize);
        builder = apalache_builder_mode(builder, self.mode);
        if let Some(cinit) = &self.cinit {
            builder = apalache_builder_cinit(builder, cinit);
        }
        if let Some(view) = &self.view {
            builder = apalache_builder_view(builder, view);
        }
        apalache_build(builder).unwrap()
    }
}


// ---------------------------------------------------------------------------
// Interactive symbolic testing
// ---------------------------------------------------------------------------

/// Settings for interactive symbolic testing against an Apalache explorer
/// server.
pub struct InteractiveMBT {
    spec: std::path::PathBuf,
    init: String,
    next: String,
    max_steps: usize,
    num_runs: usize,
    seed: Option<u64>,
    server_url: String,
    constants: serde_json::Value,
}

/// The settings of an `InteractiveMBT`, as mathematical values.
pub struct InteractiveModel {
    /// Path of the TLA+ specification.
    pub spec: std::path::PathBuf,
    /// Name of the Init predicate.
    pub init: Seq<char>,
    /// Name of the Next relation.
    pub next: Seq<char>,
    /// Steps of each run.
    pub max_steps: usize,
    /// Number of runs.
    pub num_runs: usize,
    /// Random seed, if any.
    pub seed: Option<u64>,
    /// Address of the explorer server.
    pub server_url: Seq<char>,
    /// Values for the specification's constants.
    pub constants: serde_json::Value,
}

/// Whether constants are handed to the run: only a JSON object with at least
/// one key is; any other value, and an empty object, leave the constants to
/// the specification.
pub open spec fn passes_constants(constants: serde_json::Value) -> bool {
    match json_object_keys(constants) {
        Some(keys) => keys.len() > 0,
        None => false,
    }
}

/// Constants are handed over exactly when they are a JSON object with at
/// least one key: not for a value of any other kind, not for an object
/// without keys, and always for an object with a key.
pub proof fn lemma_passes_constants(v: serde_json::Value, key: Seq<char>)
    ensures
        json_object_keys(v) is None ==> !passes_constants(v),
        json_object_keys(v) == Some(Set::<Seq<char>>::empty()) ==> !passes_constants(v),
        (json_object_keys(v) matches Some(keys) && keys.finite() && keys.contains(key))
            ==> passes_constants(v),
{
    if let Some(keys) = json_object_keys(v) {
        if keys.finite() && keys.contains(key) {
            vstd::set_lib::lemma_set_empty_equivalency_len(keys);
        }
    }
}

/// One setting of an `InteractiveMBT`, as its setters make it.
pub enum InteractiveSetting {
    Init(Seq<char>),
    Next(Seq<char>),
    MaxSteps(usize),
    NumRuns(usize),
    Seed(u64),
    ServerUrl(Seq<char>),
    Constants(serde_json::Value),
}

impl InteractiveSetting {
    /// Which setting it is: settings of one kind overwrite each other.
    pub open spec fn kind(self) -> int {
        match self {
            InteractiveSetting::Init(_) => 0,
            InteractiveSetting::Next(_) => 1,
            InteractiveSetting::MaxSteps(_) => 2,
            InteractiveSetting::NumRuns(_) => 3,
            InteractiveSetting::Seed(_) => 4,
            InteractiveSetting::ServerUrl(_) => 5,
            InteractiveSetting::Constants(_) => 6,
        }
    }
}

impl InteractiveModel {
    /// These settings with one of them replaced.
    pub open spec fn with(self, setting: InteractiveSetting) -> InteractiveModel {
        match setting {
            InteractiveSetting::Init(init) => InteractiveModel { init: init, ..self },
            InteractiveSetting::Next(next) => InteractiveModel { next: next, ..self },
            InteractiveSetting::MaxSteps(n) => InteractiveModel { max_steps: n, ..self },
            InteractiveSetting::NumRuns(n) => InteractiveModel { num_runs: n, ..self },
            InteractiveSetting::Seed(seed) => InteractiveModel { seed: Some(seed), ..self },
            InteractiveSetting::ServerUrl(url) => InteractiveModel { server_url: url, ..self },
            InteractiveSetting::Constants(c) => InteractiveModel { constants: c, ..self },
        }
    }
}

/// Of two settings of one kind, the later one is what remains.
pub proof fn lemma_interactive_last_setting_wins(
    m: InteractiveModel,
    first: InteractiveSetting,
    second: InteractiveSetting,
)
    requires
        first.kind() == second.kind(),
    ensures
        m.with(first).with(second) == m.with(second),
{
}

/// Settings of different kinds do not touch each other: in either order
/// they give the same settings.
pub proof fn lemma_interactive_settings_commute(
    m: InteractiveModel,
    first: InteractiveSetting,
    second: InteractiveSetting,
)
    requires
        first.kind() != second.kind(),
    ensures
        m.with(first).with(second) == m.with(second).with(first),
{
}

/// A setting replaces exactly its own entry: that entry becomes the given
/// value and every other entry stays as it was.
pub proof fn lemma_interactive_setting_replaces_its_entry(m: InteractiveModel, s: InteractiveSetting)
    ensures
        s matches InteractiveSetting::Init(init) ==> m.with(s).init == init,
        s matches InteractiveSetting::Next(next) ==> m.with(s).next == next,
        s matches InteractiveSetting::MaxSteps(n) ==> m.with(s).max_steps == n,
        s matches InteractiveSetting::NumRuns(n) ==> m.with(s).num_runs == n,
        s matches InteractiveSetting::Seed(seed) ==> m.with(s).seed == Some(seed),
        s matches InteractiveSetting::ServerUrl(url) ==> m.with(s).server_url == url,
        s matches InteractiveSetting::Constants(c) ==> m.with(s).constants == c,
        m.with(s).spec == m.spec,
        !(s is Init) ==> m.with(s).init == m.init,
        !(s is Next) ==> m.with(s).next == m.next,
        !(s is MaxSteps) ==> m.with(s).max_steps == m.max_steps,
        !(s is NumRuns) ==> m.with(s).num_runs == m.num_runs,
        !(s is Seed) ==> m.with(s).seed == m.seed,
        !(s is ServerUrl) ==> m.with(s).server_url == m.server_url,
        !(s is Constants) ==> m.with(s).constants == m.constants,
{
}

/// An interactive-testing configuration made from the settings `m`: the
/// spec, the predicates, the counts and the seed as they stand, no auxiliary
/// files, and the constants only when they are a JSON object with at least
/// one key (otherwise the configuration keeps its own object without keys).
pub open spec fn interactive_config_reflects(c: tla_connect::InteractiveConfig, m: InteractiveModel) -> bool {
    &&& c.spec == m.spec
    &&& c.aux_files@ == Seq::<std::path::PathBuf>::empty()
    &&& c.init@ == m.init
    &&& c.next@ == m.next
    &&& c.max_steps == m.max_steps
    &&& c.num_runs == m.num_runs
    &&& c.seed == m.seed
    &&& passes_constants(m.constants) ==> c.constants == m.constants
    &&& !passes_constants(m.constants) ==> json_object_keys(c.constants) == Some(Set::<Seq<char>>::empty())
}

/// Two interactive-testing configurations that agree on every field (texts
/// by their contents; constants equal, or both an object without keys).
pub open spec fn interactive_configs_agree(a: tla_connect::InteractiveConfig, b: tla_connect::InteractiveConfig) -> bool {
    &&& a.spec == b.spec
    &&& a.aux_files@ == b.aux_files@
    &&& a.init@ == b.init@
    &&& a.next@ == b.next@
    &&& a.max_steps == b.max_steps
    &&& a.num_runs == b.num_runs
    &&& a.seed == b.seed
    &&& (a.constants == b.constants || (json_object_keys(a.constants) == Some(Set::<Seq<char>>::empty())
        && json_object_keys(b.constants) == Some(Set::<Seq<char>>::empty())))
}

/// Setters of different settings, called in either order, lead to
/// configurations that agree on every field.
pub proof fn lemma_interactive_config_setters_commute(
    m: InteractiveModel,
    first: InteractiveSetting,
    second: InteractiveSetting,
    a: tla_connect::InteractiveConfig,
    b: tla_connect::InteractiveConfig,
)
    requires
        first.kind() != second.kind(),
        interactive_config_reflects(a, m.with(first).with(second)),
        interactive_config_reflects(b, m.with(second).with(first)),
    ensures
        interactive_configs_agree(a, b),
{
    lemma_interactive_settings_commute(m, first, second);
}

/// Of two calls of one setter, the later one alone decides the
/// configuration.
pub proof fn lemma_interactive_config_last_setting_wins(
    m: InteractiveModel,
    first: InteractiveSetting,
    second: InteractiveSetting,
    a: tla_connect::InteractiveConfig,
    b: tla_connect::InteractiveConfig,
)
    requires
        first.kind() == second.kind(),
        interactive_config_reflects(a, m.with(first).with(second)),
        interactive_config_reflects(b, m.with(second)),
    ensures
        interactive_configs_agree(a, b),
{
    lemma_interactive_last_setting_wins(m, first, second);
}

/// After one setting, the configuration carries the given value in its
/// field (constants only when they are an object with at least one key,
/// else an object without keys), and every other field is as in the
/// configuration made before it. The server address is not part of the
/// configuration.
pub proof fn lemma_interactive_config_after_setting(
    m: InteractiveModel,
    s: InteractiveSetting,
    before: tla_connect::InteractiveConfig,
    after: tla_connect::InteractiveConfig,
)
    requires
        interactive_config_reflects(before, m),
        interactive_config_reflects(after, m.with(s)),
    ensures
        s matches InteractiveSetting::Init(init) ==> after.init@ == init,
        s matches InteractiveSetting::Next(next) ==> after.next@ == next,
        s matches InteractiveSetting::MaxSteps(n) ==> after.max_steps == n,
        s matches InteractiveSetting::NumRuns(n) ==> after.num_runs == n,
        s matches InteractiveSetting::Seed(seed) ==> after.seed == Some(seed),
        s matches InteractiveSetting::Constants(c) ==> (passes_constants(c) ==> after.constants == c),
        s matches InteractiveSetting::Constants(c) ==> (!passes_constants(c) ==> json_object_keys(
            after.constants,
        ) == Some(Set::<Seq<char>>::empty())),
        after.spec == before.spec,
        after.aux_files@ == before.aux_files@,
        !(s is Init) ==> after.init@ == before.init@,
        !(s is Next) ==> after.next@ == before.next@,
        !(s is MaxSteps) ==> after.max_steps == before.max_steps,
        !(s is NumRuns) ==> after.num_runs == before.num_runs,
        !(s is Seed) ==> after.seed == before.seed,
        !(s is Constants) ==> (after.constants == before.constants || (json_object_keys(
            after.constants,
        ) == Some(Set::<Seq<char>>::empty()) && json_object_keys(before.constants) == Some(
            Set::<Seq<char>>::empty(),
        ))),
{
    lemma_interactive_setting_replaces_its_entry(m, s);
}

impl InteractiveMBT {
    /// The settings held.
    pub closed spec fn model(&self) -> InteractiveModel {
        InteractiveModel {
            spec: self.spec,
            init: self.init@,
            next: self.next@,
            max_steps: self.max_steps,
            num_runs: self.num_runs,
            seed: self.seed,
            server_url: self.server_url@,
            constants: self.constants,
        }
    }

    /// Settings for the specification at `spec`: predicates `Init` and
    /// `Next`, 10 runs of at most 10 steps, no seed, the server at
    /// `http://localhost:8822`, and the constants an empty JSON object.
    pub fn new(spec: std::path::PathBuf) -> (r: Self)
        ensures
            r.model().spec == spec,
            r.model().init == "Init"@,
            r.model().next == "Next"@,
            r.model().max_steps == 10,
            r.model().num_runs == 10,
            r.model().seed is None,
            r.model().server_url == "http://localhost:8822"@,
            json_object_keys(r.model().constants) == Some(Set::<Seq<char>>::empty()),
    {
        InteractiveMBT {
            spec: spec,
            init: "Init".to_owned(),
            next: "Next".to_owned(),
            max_steps: 10,
            num_runs: 10,
            seed: None,
            server_url: "http://localhost:8822".to_owned(),
            constants: json_empty_object(),
        }
    }

    /// Sets the name of the Init predicate; nothing else changes.
    pub fn init(self, init: &str) -> (r: Self)
        ensures
            r.model().init == init@,
            r.model() == self.model().with(InteractiveSetting::Init(init@)),
    {
        let mut s = self;
        s.init = init.to_owned();
        s
    }

    /// Sets the name of the Next relation; nothing else changes.
    pub fn next(self, next: &str) -> (r: Self)
        ensures
            r.model().next == next@,
            r.model() == self.model().with(InteractiveSetting::Next(next@)),
    {
        let mut s = self;
        s.next = next.to_owned();
        s
    }

    /// Sets the number of steps of each run; nothing else changes.
    pub fn max_steps(self, n: usize) -> (r: Self)
        ensures
            r.model().max_steps == n,
            r.model() == self.model().with(InteractiveSetting::MaxSteps(n)),
    {
        let mut s = self;
        s.max_steps = n;
        s
    }

    /// Sets the number of runs; nothing else changes.
    pub fn num_runs(self, n: usize) -> (r: Self)
        ensures
            r.model().num_runs == n,
            r.model() == self.model().with(InteractiveSetting::NumRuns(n)),
    {
        let mut s = self;
        s.num_runs = n;
        s
    }

    /// Sets the random seed; nothing else changes.
    pub fn seed(self, seed: u64) -> (r: Self)
        ensures
            r.model().seed == Some(seed),
            r.model() == self.model().with(InteractiveSetting::Seed(seed)),
    {
        let mut s = self;
        s.seed = Some(seed);
        s
    }

    /// Sets the address of the explorer server; nothing else changes.
    pub fn server_url(self, url: &str) -> (r: Self)
        ensures
            r.model().server_url == url@,
            r.model() == self.model().with(InteractiveSetting::ServerUrl(url@)),
    {
        let mut s = self;
        s.server_url = url.to_owned();
        s
    }

    /// Sets the constants; nothing else changes.
    pub fn constants(self, constants: serde_json::Value) -> (r: Self)
        ensures
            r.model().constants == constants,
            r.model() == self.model().with(InteractiveSetting::Constants(constants)),
    {
        let mut s = self;
        s.constants = constants;
        s
    }

    /// The address of the explorer server.
    pub fn server(&self) -> (r: &str)
        ensures
            r@ == self.model().server_url,
    {
        self.server_url.as_str()
    }

    /// The interactive-testing configuration: the spec, the predicates and
    /// the counts are handed over as they stand, the seed if one is set, and
    /// the constants only when they are a JSON object with at least one key
    /// (otherwise the configuration keeps its own empty object). No
    /// auxiliary files are named.
    pub fn to_config(&self) -> (c: tla_connect::InteractiveConfig)
        ensures
            interactive_config_reflects(c, self.model()),
    {
        let mut builder = interactive_builder();
        builder = interactive_builder_spec(builder, path_clone(&self.spec));
        builder = interactive_builder_init(builder, &self.init);
        builder = interactive_builder_next(builder, &self.next);
        builder = interactive_builder_max_steps(builder, self.max_steps);
        builder = interactive_builder_num_runs(builder, self.num_runs);
        let pass = match json_as_object(&self.constants) {
            Some(map) => json_map_len(map) > 0,
            None => false,
        };
        if pass {
            builder = interactive_builder_constants(builder, json_clone(&self.constants));
        }
        if let Some(seed) = self.seed {
            builder = interactive_builder_seed(builder, seed);
        }
        interactive_build(builder).unwrap()
    }
}

// ---------------------------------------------------------------------------
// Counting generated states
// ---------------------------------------------------------------------------

/// The sum of a sequence of counts.
pub open spec fn sum_of(counts: Seq<usize>) -> int
    decreases counts.len(),
{
    if counts.len() == 0 {
        0
    } else {
        sum_of(counts.drop_last()) + counts.last()
    }
}

/// A prefix sums to no more than the whole.
proof fn lemma_sum_of_prefix(counts: Seq<usize>, i: int)
    requires
        0 <= i <= counts.len(),
    ensures
        0 <= sum_of(counts.take(i)) <= sum_of(counts),
    decreases counts.len() - i,
{
    if i < counts.len() {
        lemma_sum_of_prefix(counts, i + 1);
        assert(counts.take(i + 1).drop_last() =~= counts.take(i));
        lemma_sum_of_nonneg(counts.take(i));
    } else {
        assert(counts.take(i) =~= counts);
        lemma_sum_of_nonneg(counts);
    }
}

/// Counts sum to a non-negative number.
proof fn lemma_sum_of_nonneg(counts: Seq<usize>)
    ensures
        sum_of(counts) >= 0,
    decreases counts.len(),
{
    if counts.len() > 0 {
        lemma_sum_of_nonneg(counts.drop_last());
    }
}

/// Appending a count adds it to the sum.
pub proof fn lemma_sum_of_push(counts: Seq<usize>, x: usize)
    ensures
        sum_of(counts.push(x)) == sum_of(counts) + x,
{
    assert(counts.push(x).drop_last() =~= counts);
}

/// The sum of two sequences of counts, one after the other, is the sum of
/// their sums.
pub proof fn lemma_sum_of_concat(a: Seq<usize>, b: Seq<usize>)
    ensures
        sum_of(a + b) == sum_of(a) + sum_of(b),
    decreases b.len(),
{
    if b.len() == 0 {
        assert(a + b =~= a);
    } else {
        lemma_sum_of_concat(a, b.drop_last());
        assert((a + b).drop_last() =~= a + b.drop_last());
    }
}

/// No counts sum to nothing, and a single count sums to itself.
pub proof fn lemma_sum_of_small(x: usize)
    ensures
        sum_of(Seq::<usize>::empty()) == 0,
        sum_of(seq![x]) == x,
{
    assert(seq![x].drop_last() =~= Seq::<usize>::empty());
}

/// `n` counts of `k` states each sum to `n * k`.
pub proof fn lemma_sum_of_uniform(n: nat, k: usize)
    ensures
        sum_of(Seq::new(n, |i: int| k)) == n * k,
    decreases n,
{
    let whole = Seq::new(n, |i: int| k);
    if n == 0 {
        assert(whole.len() == 0);
    } else {
        let shorter = Seq::new((n - 1) as nat, |i: int| k);
        lemma_sum_of_uniform((n - 1) as nat, k);
        assert(whole.drop_last() =~= shorter);
        assert(sum_of(whole) == sum_of(shorter) + k);
        assert(n * k == (n - 1) * k + k) by (nonlinear_arith);
    }
}

/// The total number of states over all generated traces, given the number
/// of states of each; `None` when the total does not fit in a `usize`.
pub fn total_states(state_counts: &[usize]) -> (r: Option<usize>)
    ensures
        r is Some <==> sum_of(state_counts@) <= usize::MAX,
        r matches Some(t) ==> t == sum_of(state_counts@),
{
    let mut total: usize = 0;
    let mut i: usize = 0;
    while i < state_counts.len()
        invariant
            i <= state_counts@.len(),
            total == sum_of(state_counts@.take(i as int)),
        decreases state_counts@.len() - i,
    {
        proof {
            assert(state_counts@.take(i + 1).drop_last() =~= state_counts@.take(i as int));
            lemma_sum_of_prefix(state_counts@, i + 1);
        }
        match total.checked_add(state_counts[i]) {
            Some(t) => total = t,
            None => return None,
        }
        i = i + 1;
    }
    proof {
        assert(state_counts@.take(i as int) =~= state_counts@);
    }
    Some(total)
}

} // verus!
