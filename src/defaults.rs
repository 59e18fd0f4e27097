use vstd::prelude::*;

use crate::cascade::{source_ok, ConfigSource, SourceConfig, ToolSource};
use crate::config::{
    all_accepted, cascade_of, config_ok, default_name, load_order, NextestConfig,
};
use crate::profile::{default_matches, is_complete, layer, lookup_profile, CustomProfile, JunitSettings, NamedProfile};
use crate::settings::{
    FinalStatusLevel, RetryPolicy, SlowTimeout, StatusLevel, TestOutputDisplay, TestThreads,
    ThreadsRequired,
};

verus! {

/// A source that gives the store directory and a complete default profile.
pub open spec fn is_base_source(s: ConfigSource) -> bool {
    &&& s.config.store_dir is Some
    &&& lookup_profile(s.config.profiles@, default_name()) matches Some(p)
    &&& is_complete(p)
}

/// A source that declares nothing.
pub open spec fn is_empty_source(s: ConfigSource) -> bool {
    &&& s.config.store_dir is None
    &&& s.config.test_groups@.len() == 0
    &&& s.config.profiles@.len() == 0
    &&& s.config.overrides@.len() == 0
    &&& s.config.unknown_keys@.len() == 0
}

/// The values of the built-in default profile: no retries, one test per CPU, one thread slot
/// per test, `pass` and `flaky` status levels, failure output at once and no success output,
/// fail-fast, a 60 s slow timeout, a 100 ms leak timeout, and a JUnit report named `nextest-run`
/// (off, for want of a path) that keeps failure output only.
pub open spec fn is_builtin_profile(p: CustomProfile) -> bool {
    &&& p.retries == Some(RetryPolicy::Fixed { count: 0, delay_ms: 0, jitter: false })
    &&& p.test_threads == Some(TestThreads::NumCpus)
    &&& p.threads_required == Some(ThreadsRequired::Count(1))
    &&& p.status_level == Some(StatusLevel::Pass)
    &&& p.final_status_level == Some(FinalStatusLevel::Flaky)
    &&& p.failure_output == Some(TestOutputDisplay::Immediate)
    &&& p.success_output == Some(TestOutputDisplay::Never)
    &&& p.fail_fast == Some(true)
    &&& p.slow_timeout == Some(SlowTimeout { period_ms: 60000, terminate_after: None })
    &&& p.leak_timeout_ms == Some(100u64)
    &&& p.junit.path is None
    &&& p.junit.report_name matches Some(n) && n@ == "nextest-run"@
    &&& p.junit.store_success_output == Some(false)
    &&& p.junit.store_failure_output == Some(true)
}

/// The built-in source: the store under `target/nextest` and one declaration, of the default
/// profile with the built-in values; nothing else.
pub open spec fn is_builtin_source(s: ConfigSource) -> bool {
    &&& s.config.store_dir matches Some(d) && d@ == "target/nextest"@
    &&& s.config.profiles@.len() == 1
    &&& s.config.profiles@[0].name@ == default_name()
    &&& is_builtin_profile(s.config.profiles@[0].settings)
    &&& s.config.test_groups@.len() == 0
    &&& s.config.overrides@.len() == 0
    &&& s.config.unknown_keys@.len() == 0
}

/// The built-in defaults: the store under `target/nextest` and a default profile that sets
/// every field.
pub fn default_config_source() -> (r: ConfigSource)
    ensures
        is_builtin_source(r),
        is_base_source(r),
        r.config.test_groups@.len() == 0,
        r.config.overrides@.len() == 0,
        r.config.unknown_keys@.len() == 0,
{
    let settings = CustomProfile {
        retries: Some(RetryPolicy::Fixed { count: 0, delay_ms: 0, jitter: false }),
        test_threads: Some(TestThreads::NumCpus),
        threads_required: Some(ThreadsRequired::Count(1)),
        status_level: Some(StatusLevel::Pass),
        final_status_level: Some(FinalStatusLevel::Flaky),
        failure_output: Some(TestOutputDisplay::Immediate),
        success_output: Some(TestOutputDisplay::Never),
        fail_fast: Some(true),
        slow_timeout: Some(SlowTimeout { period_ms: 60000, terminate_after: None }),
        leak_timeout_ms: Some(100),
        junit: JunitSettings {
            path: None,
            report_name: Some(String::from_str("nextest-run")),
            store_success_output: Some(false),
            store_failure_output: Some(true),
        },
    };
    proof {
        reveal_strlit("default");
    }
    let name = String::from_str("default");
    assert(name@ =~= default_name());
    let mut profiles: Vec<NamedProfile> = Vec::new();
    profiles.push(NamedProfile { name, settings });
    assert(profiles@.drop_last().len() == 0);
    let r = ConfigSource {
        config_file: String::from_str("<built-in defaults>"),
        config: SourceConfig {
            store_dir: Some(String::from_str("target/nextest")),
            test_groups: Vec::new(),
            profiles,
            overrides: Vec::new(),
            unknown_keys: Vec::new(),
        },
    };
    r
}

/// A source that declares nothing, read from `config_file`: what a missing file amounts to.
pub fn empty_source(config_file: &str) -> (r: ConfigSource)
    ensures
        is_empty_source(r),
        r.config_file@ == config_file@,
{
    ConfigSource {
        config_file: String::from_str(config_file),
        config: SourceConfig {
            store_dir: None,
            test_groups: Vec::new(),
            profiles: Vec::new(),
            overrides: Vec::new(),
            unknown_keys: Vec::new(),
        },
    }
}

proof fn lemma_layer_keeps_complete(base: CustomProfile, top: CustomProfile)
    requires
        is_complete(base),
    ensures
        is_complete(layer(base, top)),
{
}

proof fn lemma_lookup_stays_complete(ps: Seq<NamedProfile>, qs: Seq<NamedProfile>, name: Seq<char>)
    requires
        lookup_profile(ps, name) matches Some(p) && is_complete(p),
    ensures
        lookup_profile(ps + qs, name) matches Some(p) && is_complete(p),
    decreases qs.len(),
{
    if qs.len() > 0 {
        lemma_lookup_stays_complete(ps, qs.drop_last(), name);
        assert((ps + qs).drop_last() == ps + qs.drop_last());
        assert((ps + qs).last() == qs.last());
        let prev = lookup_profile(ps + qs.drop_last(), name);
        lemma_layer_keeps_complete(prev.unwrap(), qs.last().settings);
    }
}

proof fn lemma_base_persists(layers: Seq<(ConfigSource, Option<String>)>, k: int)
    requires
        1 <= k <= layers.len(),
        is_base_source(layers[0].0),
    ensures
        cascade_of(layers.subrange(0, k)).store_dir is Some,
        lookup_profile(cascade_of(layers.subrange(0, k)).profiles, default_name()) matches Some(p)
            && is_complete(p),
    decreases k,
{
    let s = layers.subrange(0, k);
    assert(s.drop_last() == layers.subrange(0, k - 1));
    if k == 1 {
        assert(s.drop_last().len() == 0);
        assert(cascade_of(s.drop_last()) == crate::cascade::empty_cascade());
        assert(s.last() == layers[0]);
        assert(cascade_of(s).profiles =~= layers[0].0.config.profiles@);
    } else {
        lemma_base_persists(layers, k - 1);
        let prev = cascade_of(layers.subrange(0, k - 1));
        lemma_lookup_stays_complete(prev.profiles, s.last().0.config.profiles@, default_name());
    }
}

/// Over a base that gives the store directory and a complete default profile, every layering
/// of accepted sources gives a configuration whose default profile sets every field: loading
/// such sources always succeeds.
pub proof fn law_default_profile_complete(
    default: ConfigSource,
    tools: Seq<ToolSource>,
    workspace: ConfigSource,
)
    requires
        is_base_source(default),
        all_accepted(load_order(default, tools, workspace)),
    ensures
        config_ok(load_order(default, tools, workspace)),
{
    let layers = load_order(default, tools, workspace);
    assert(layers[0] == (default, None::<String>));
    lemma_base_persists(layers, layers.len() as int);
    assert(layers.subrange(0, layers.len() as int) == layers);
}

impl NextestConfig {
    /// The configuration made of the built-in defaults alone.
    pub fn default_config(workspace_root: &str) -> (r: NextestConfig)
        ensures
            r.workspace_root@ == workspace_root@,
            r.store_dir@ == "target/nextest"@,
            r.test_groups@.len() == 0,
            r.profiles@.len() == 1,
            r.profiles@[0].name@ == default_name(),
            is_builtin_profile(r.profiles@[0].settings),
            default_matches(r.default_profile, r.profiles@[0].settings),
            r.overrides@.len() == 0,
    {
        let default = default_config_source();
        let tools: Vec<ToolSource> = Vec::new();
        let workspace = empty_source("<built-in defaults>");
        proof {
            let layers = load_order(default, tools@, workspace);
            assert(layers.len() == 2);
            let s1 = layers.subrange(0, 1);
            assert(layers.drop_last() == s1);
            assert(s1.drop_last().len() == 0);
            assert(cascade_of(s1.drop_last()) == crate::cascade::empty_cascade());
            assert(s1.last() == layers[0]);
            assert(all_accepted(s1.drop_last()));
            assert(source_ok(cascade_of(s1.drop_last()).known, default.config, None));
            assert(all_accepted(s1));
            assert(layers.last() == (workspace, None::<String>));
            assert(source_ok(cascade_of(s1).known, workspace.config, None));
            assert(all_accepted(layers));
            law_default_profile_complete(default, tools@, workspace);
            assert(cascade_of(s1).chain =~= Seq::empty());
            assert(cascade_of(layers).chain =~= Seq::empty());
            assert(cascade_of(layers).profiles =~= default.config.profiles@);
            assert(cascade_of(layers).groups =~= Seq::empty());
            let ps = default.config.profiles@;
            assert(ps.drop_last().len() == 0);
            assert(lookup_profile(ps.drop_last(), default_name()) is None);
            assert(ps.last() == ps[0]);
            assert(lookup_profile(ps, default_name()) == Some(ps[0].settings));
        }
        match NextestConfig::from_sources(workspace_root, &default, &tools, &workspace) {
            Ok((config, _unknown)) => config,
            Err(_) => vstd::pervasive::unreached(),
        }
    }
}

} // verus!
