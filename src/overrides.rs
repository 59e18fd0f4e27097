use vstd::prelude::*;

use crate::settings::{
    BuildPlatform, OverrideData, RetryPolicy, SlowTimeout, TestGroup, TestSettings, ThreadsRequired,
};

verus! {

/// The state of overrides before the build platforms are known.
#[derive(Clone, Copy, Debug, PartialEq, Eq, Structural)]
pub struct PreBuildPlatform {}

/// The state of overrides once the build platforms are known: whether the override's platform
/// predicate holds for the host and for the target.
#[derive(Clone, Copy, Debug, PartialEq, Eq, Structural)]
pub struct FinalConfig {
    pub host_eval: bool,
    pub target_eval: bool,
}

/// An override as a source declares it, under the profile it belongs to.
#[derive(Debug)]
pub struct DeserializedOverride {
    pub profile: String,
    pub filter: Option<String>,
    pub platform: Option<String>,
    pub data: OverrideData,
}

/// An override in the cascade, in evaluation state `S`.
#[derive(Debug)]
pub struct CompiledOverride<S> {
    pub profile: String,
    pub filter: Option<String>,
    pub platform: Option<String>,
    pub state: S,
    pub data: OverrideData,
}

impl<S: Copy> Clone for CompiledOverride<S> {
    fn clone(&self) -> (r: Self)
        ensures
            r == *self,
    {
        CompiledOverride {
            profile: self.profile.clone(),
            filter: crate::profile::copy_opt_string(&self.filter),
            platform: crate::profile::copy_opt_string(&self.platform),
            state: self.state,
            data: self.data.clone(),
        }
    }
}

/// The override that a declaration compiles to.
pub open spec fn compiled(d: DeserializedOverride) -> CompiledOverride<PreBuildPlatform> {
    CompiledOverride {
        profile: d.profile,
        filter: d.filter,
        platform: d.platform,
        state: PreBuildPlatform {  },
        data: d.data,
    }
}

impl DeserializedOverride {
    /// Compiles a declared override into its unbound form.
    pub fn compile(&self) -> (r: CompiledOverride<PreBuildPlatform>)
        ensures
            r == compiled(*self),
    {
        CompiledOverride {
            profile: self.profile.clone(),
            filter: crate::profile::copy_opt_string(&self.filter),
            platform: crate::profile::copy_opt_string(&self.platform),
            state: PreBuildPlatform {  },
            data: self.data.clone(),
        }
    }
}

/// The target triples of a build. With no target given, the build is for the host.
#[derive(Debug)]
pub struct BuildPlatforms {
    pub host: String,
    pub target: Option<String>,
}

impl BuildPlatforms {
    pub open spec fn target_triple(self) -> Seq<char> {
        match self.target {
            Some(t) => t@,
            None => self.host@,
        }
    }
}

/// What evaluating platform predicate `spec` (a triple or a `cfg(...)` expression) against
/// target `triple` gives: `Some` with a definite answer, `None` where it cannot be decided.
pub uninterp spec fn platform_eval(spec: Seq<char>, triple: Seq<char>) -> Option<bool>;

/// Relies on target_spec::eval: evaluates the predicate against the triple with target features
/// unknown; a predicate or triple that target-spec cannot read gives no answer.
#[verifier::external_body]
fn eval_platform(spec: &str, triple: &str) -> (r: Option<bool>)
    ensures
        r == platform_eval(spec@, triple@),
{
    match target_spec::eval(spec, triple) {
        Ok(answer) => answer,
        Err(_) => None,
    }
}

/// Whether `spec` reads as a platform predicate: a `cfg(...)` expression or a target triple.
pub uninterp spec fn platform_spec_parses(spec: Seq<char>) -> bool;

/// Relies on target_spec::TargetSpec::new: whether the text parses as a platform predicate.
#[verifier::external_body]
pub(crate) fn platform_spec_ok(spec: &str) -> (r: bool)
    ensures
        r == platform_spec_parses(spec@),
{
    target_spec::TargetSpec::new(spec.to_owned()).is_ok()
}

/// An override applies on a side of the build unless its platform predicate is known not to
/// hold there; one without a predicate applies everywhere.
pub open spec fn platform_holds(platform: Option<String>, triple: Seq<char>) -> bool {
    match platform {
        Some(p) => match platform_eval(p@, triple) {
            Some(b) => b,
            None => true,
        },
        None => true,
    }
}

/// An override with its platform predicate evaluated against both sides of a build.
pub open spec fn bound(
    o: CompiledOverride<PreBuildPlatform>,
    platforms: BuildPlatforms,
) -> CompiledOverride<FinalConfig> {
    CompiledOverride {
        profile: o.profile,
        filter: o.filter,
        platform: o.platform,
        state: FinalConfig {
            host_eval: platform_holds(o.platform, platforms.host@),
            target_eval: platform_holds(o.platform, platforms.target_triple()),
        },
        data: o.data,
    }
}

fn platform_holds_exec(platform: &Option<String>, triple: &str) -> (r: bool)
    ensures
        r == platform_holds(*platform, triple@),
{
    match platform {
        Some(p) => match eval_platform(p.as_str(), triple) {
            Some(b) => b,
            None => true,
        },
        None => true,
    }
}

impl CompiledOverride<PreBuildPlatform> {
    /// Evaluates the platform predicate for the host and the target.
    pub fn apply_build_platforms(&self, platforms: &BuildPlatforms) -> (r: CompiledOverride<
        FinalConfig,
    >)
        ensures
            r == bound(*self, *platforms),
    {
        let host_eval = platform_holds_exec(&self.platform, platforms.host.as_str());
        let target_eval = match &platforms.target {
            Some(t) => platform_holds_exec(&self.platform, t.as_str()),
            None => host_eval,
        };
        CompiledOverride {
            profile: self.profile.clone(),
            filter: crate::profile::copy_opt_string(&self.filter),
            platform: crate::profile::copy_opt_string(&self.platform),
            state: FinalConfig { host_eval, target_eval },
            data: self.data.clone(),
        }
    }
}

/// Binds every override of a chain, keeping the order.
pub fn bind_all(chain: &Vec<CompiledOverride<PreBuildPlatform>>, platforms: &BuildPlatforms) -> (r:
    Vec<CompiledOverride<FinalConfig>>)
    ensures
        r@ == chain@.map_values(|o: CompiledOverride<PreBuildPlatform>| bound(o, *platforms)),
{
    let mut out: Vec<CompiledOverride<FinalConfig>> = Vec::new();
    let mut i: usize = 0;
    while i < chain.len()
        invariant
            i <= chain@.len(),
            out@ == chain@.subrange(0, i as int).map_values(
                |o: CompiledOverride<PreBuildPlatform>| bound(o, *platforms),
            ),
        decreases chain@.len() - i,
    {
        let b = chain[i].apply_build_platforms(platforms);
        out.push(b);
        i = i + 1;
        assert(out@ =~= chain@.subrange(0, i as int).map_values(
            |o: CompiledOverride<PreBuildPlatform>| bound(o, *platforms),
        ));
    }
    assert(chain@.subrange(0, chain@.len() as int) == chain@);
    out
}

/// A bound override takes part in resolving a test on `side` when its filter matched the test
/// (`verdict`) and its platform predicate holds on that side.
pub open spec fn takes_part(o: CompiledOverride<FinalConfig>, side: BuildPlatform, verdict: bool) -> bool {
    verdict && match side {
        BuildPlatform::Host => o.state.host_eval,
        BuildPlatform::Target => o.state.target_eval,
    }
}

/// The value that the first `n` overrides of a chain give one field: that of the earliest one
/// that takes part and sets the field.
pub open spec fn first_set<T>(
    chain: Seq<CompiledOverride<FinalConfig>>,
    verdicts: Seq<bool>,
    side: BuildPlatform,
    get: spec_fn(OverrideData) -> Option<T>,
    n: int,
) -> Option<T>
    decreases n,
{
    if n <= 0 {
        None
    } else {
        let prev = first_set(chain, verdicts, side, get, n - 1);
        if prev is Some {
            prev
        } else if takes_part(chain[n - 1], side, verdicts[n - 1]) {
            get(chain[n - 1].data)
        } else {
            None
        }
    }
}

pub open spec fn get_retries() -> spec_fn(OverrideData) -> Option<RetryPolicy> {
    |d: OverrideData| d.retries
}

pub open spec fn get_threads_required() -> spec_fn(OverrideData) -> Option<ThreadsRequired> {
    |d: OverrideData| d.threads_required
}

pub open spec fn get_test_group() -> spec_fn(OverrideData) -> Option<TestGroup> {
    |d: OverrideData| d.test_group
}

pub open spec fn get_slow_timeout() -> spec_fn(OverrideData) -> Option<SlowTimeout> {
    |d: OverrideData| d.slow_timeout
}

pub open spec fn get_leak_timeout() -> spec_fn(OverrideData) -> Option<u64> {
    |d: OverrideData| d.leak_timeout_ms
}

/// What a whole chain gives one field, or `fallback` where no override of it does.
pub open spec fn chain_value<T>(
    chain: Seq<CompiledOverride<FinalConfig>>,
    verdicts: Seq<bool>,
    side: BuildPlatform,
    get: spec_fn(OverrideData) -> Option<T>,
    fallback: T,
) -> T {
    match first_set(chain, verdicts, side, get, chain.len() as int) {
        Some(v) => v,
        None => fallback,
    }
}

/// The scalar values that a test falls back on where no override sets a field.
#[derive(Clone, Copy, Debug, PartialEq, Eq, Structural)]
pub struct FieldDefaults {
    pub retries: RetryPolicy,
    pub threads_required: ThreadsRequired,
    pub slow_timeout: SlowTimeout,
    pub leak_timeout_ms: u64,
}

/// The settings of a test: each field on its own from the first override that takes part and
/// sets it, else from the profile; the test group defaults to the global group.
pub open spec fn resolved(
    chain: Seq<CompiledOverride<FinalConfig>>,
    verdicts: Seq<bool>,
    side: BuildPlatform,
    defaults: FieldDefaults,
) -> TestSettings {
    TestSettings {
        retries: chain_value(chain, verdicts, side, get_retries(), defaults.retries),
        threads_required: chain_value(
            chain,
            verdicts,
            side,
            get_threads_required(),
            defaults.threads_required,
        ),
        test_group: chain_value(chain, verdicts, side, get_test_group(), TestGroup::Global),
        slow_timeout: chain_value(chain, verdicts, side, get_slow_timeout(), defaults.slow_timeout),
        leak_timeout_ms: chain_value(
            chain,
            verdicts,
            side,
            get_leak_timeout(),
            defaults.leak_timeout_ms,
        ),
    }
}

fn takes_part_exec(o: &CompiledOverride<FinalConfig>, side: BuildPlatform, verdict: bool) -> (r:
    bool)
    ensures
        r == takes_part(*o, side, verdict),
{
    verdict && match side {
        BuildPlatform::Host => o.state.host_eval,
        BuildPlatform::Target => o.state.target_eval,
    }
}

/// Resolves the settings of one test from a bound chain, given for each override whether its
/// filter matched the test.
pub fn resolve_settings(
    chain: &Vec<CompiledOverride<FinalConfig>>,
    verdicts: &Vec<bool>,
    side: BuildPlatform,
    defaults: FieldDefaults,
) -> (r: TestSettings)
    requires
        verdicts@.len() == chain@.len(),
    ensures
        r == resolved(chain@, verdicts@, side, defaults),
{
    let mut retries: Option<RetryPolicy> = None;
    let mut threads_required: Option<ThreadsRequired> = None;
    let mut test_group: Option<TestGroup> = None;
    let mut slow_timeout: Option<SlowTimeout> = None;
    let mut leak_timeout_ms: Option<u64> = None;
    let mut i: usize = 0;
    while i < chain.len()
        invariant
            i <= chain@.len(),
            verdicts@.len() == chain@.len(),
            retries == first_set(chain@, verdicts@, side, get_retries(), i as int),
            threads_required == first_set(
                chain@,
                verdicts@,
                side,
                get_threads_required(),
                i as int,
            ),
            test_group == first_set(chain@, verdicts@, side, get_test_group(), i as int),
            slow_timeout == first_set(chain@, verdicts@, side, get_slow_timeout(), i as int),
            leak_timeout_ms == first_set(chain@, verdicts@, side, get_leak_timeout(), i as int),
        decreases chain@.len() - i,
    {
        let o = &chain[i];
        if takes_part_exec(o, side, verdicts[i]) {
            if retries.is_none() {
                retries = o.data.retries;
            }
            if threads_required.is_none() {
                threads_required = o.data.threads_required;
            }
            if test_group.is_none() {
                test_group = match &o.data.test_group {
                    Some(g) => Some(g.clone()),
                    None => None,
                };
            }
            if slow_timeout.is_none() {
                slow_timeout = o.data.slow_timeout;
            }
            if leak_timeout_ms.is_none() {
                leak_timeout_ms = o.data.leak_timeout_ms;
            }
        }
        i = i + 1;
    }
    TestSettings {
        retries: match retries {
            Some(v) => v,
            None => defaults.retries,
        },
        threads_required: match threads_required {
            Some(v) => v,
            None => defaults.threads_required,
        },
        test_group: match test_group {
            Some(v) => v,
            None => TestGroup::Global,
        },
        slow_timeout: match slow_timeout {
            Some(v) => v,
            None => defaults.slow_timeout,
        },
        leak_timeout_ms: match leak_timeout_ms {
            Some(v) => v,
            None => defaults.leak_timeout_ms,
        },
    }
}

/// The position of the first of the first `n` overrides of a chain that takes part and sets a
/// field.
pub open spec fn first_index<T>(
    chain: Seq<CompiledOverride<FinalConfig>>,
    verdicts: Seq<bool>,
    side: BuildPlatform,
    get: spec_fn(OverrideData) -> Option<T>,
    n: int,
) -> Option<int>
    decreases n,
{
    if n <= 0 {
        None
    } else {
        let prev = first_index(chain, verdicts, side, get, n - 1);
        if prev is Some {
            prev
        } else if takes_part(chain[n - 1], side, verdicts[n - 1]) && get(chain[n - 1].data) is Some {
            Some(n - 1)
        } else {
            None
        }
    }
}

/// For each field of a test's settings, the position in the chain of the override that
/// supplied it, or `None` where no override did.
#[derive(Clone, Copy, Debug, PartialEq, Eq, Structural)]
pub struct OverrideIndices {
    pub retries: Option<usize>,
    pub threads_required: Option<usize>,
    pub test_group: Option<usize>,
    pub slow_timeout: Option<usize>,
    pub leak_timeout: Option<usize>,
}

pub open spec fn as_int(i: Option<usize>) -> Option<int> {
    match i {
        Some(k) => Some(k as int),
        None => None,
    }
}

/// Finds, for each field, the override of a bound chain that supplies it to a test.
pub fn supplying_overrides(
    chain: &Vec<CompiledOverride<FinalConfig>>,
    verdicts: &Vec<bool>,
    side: BuildPlatform,
) -> (r: OverrideIndices)
    requires
        verdicts@.len() == chain@.len(),
    ensures
        as_int(r.retries) == first_index(chain@, verdicts@, side, get_retries(), chain@.len() as int),
        as_int(r.threads_required) == first_index(
            chain@,
            verdicts@,
            side,
            get_threads_required(),
            chain@.len() as int,
        ),
        as_int(r.test_group) == first_index(
            chain@,
            verdicts@,
            side,
            get_test_group(),
            chain@.len() as int,
        ),
        as_int(r.slow_timeout) == first_index(
            chain@,
            verdicts@,
            side,
            get_slow_timeout(),
            chain@.len() as int,
        ),
        as_int(r.leak_timeout) == first_index(
            chain@,
            verdicts@,
            side,
            get_leak_timeout(),
            chain@.len() as int,
        ),
{
    let mut r = OverrideIndices {
        retries: None,
        threads_required: None,
        test_group: None,
        slow_timeout: None,
        leak_timeout: None,
    };
    let mut i: usize = 0;
    while i < chain.len()
        invariant
            i <= chain@.len(),
            verdicts@.len() == chain@.len(),
            as_int(r.retries) == first_index(chain@, verdicts@, side, get_retries(), i as int),
            as_int(r.threads_required) == first_index(
                chain@,
                verdicts@,
                side,
                get_threads_required(),
                i as int,
            ),
            as_int(r.test_group) == first_index(chain@, verdicts@, side, get_test_group(), i as int),
            as_int(r.slow_timeout) == first_index(
                chain@,
                verdicts@,
                side,
                get_slow_timeout(),
                i as int,
            ),
            as_int(r.leak_timeout) == first_index(
                chain@,
                verdicts@,
                side,
                get_leak_timeout(),
                i as int,
            ),
        decreases chain@.len() - i,
    {
        let o = &chain[i];
        if takes_part_exec(o, side, verdicts[i]) {
            if r.retries.is_none() && o.data.retries.is_some() {
                r.retries = Some(i);
            }
            if r.threads_required.is_none() && o.data.threads_required.is_some() {
                r.threads_required = Some(i);
            }
            if r.test_group.is_none() && o.data.test_group.is_some() {
                r.test_group = Some(i);
            }
            if r.slow_timeout.is_none() && o.data.slow_timeout.is_some() {
                r.slow_timeout = Some(i);
            }
            if r.leak_timeout.is_none() && o.data.leak_timeout_ms.is_some() {
                r.leak_timeout = Some(i);
            }
        }
        i = i + 1;
    }
    r
}

} // verus!
