use vstd::prelude::*;

use crate::cascade::{
    empty_cascade, names_contain, refusal, source_ok, step, Cascade, CascadeView, ConfigSource, GroupDecl,
    ToolSource, UnknownKeys, report_view,
};
use crate::errors::{ConfigParseError, ConfigParseErrorKind, ProfileNotFound};
use crate::group::str_equal;
use crate::overrides::{
    as_int, bind_all, bound, first_index, get_leak_timeout, get_retries, get_slow_timeout, get_test_group,
    get_threads_required, resolve_settings, resolved, supplying_overrides, BuildPlatforms,
    CompiledOverride, FieldDefaults, FinalConfig, PreBuildPlatform,
};
use crate::profile::{
    default_matches, is_complete, lacks, lookup_profile, CustomProfile, DefaultProfile, JunitSettings,
    NamedProfile,
};
use crate::settings::{
    BuildPlatform, FinalStatusLevel, RetryPolicy, SlowTimeout, StatusLevel, TestGroupConfig,
    TestOutputDisplay, TestSettings, TestThreads, ThreadsRequired,
};

verus! {

/// The result of adjoining path `rel` to path `base`.
pub uninterp spec fn joined_path(base: Seq<char>, rel: Seq<char>) -> Seq<char>;

/// Relies on camino's `Utf8Path::join`: adjoins `rel` to `base` (an absolute `rel` replaces it).
#[verifier::external_body]
fn join_path(base: &str, rel: &str) -> (r: String)
    ensures
        r@ == joined_path(base@, rel@),
{
    camino::Utf8Path::new(base).join(rel).into_string()
}

/// The name of the profile that every other profile falls back on.
pub open spec fn default_name() -> Seq<char> {
    seq!['d', 'e', 'f', 'a', 'u', 'l', 't']
}

/// The tool sources in the order they are loaded: the lowest priority (last listed) first.
pub open spec fn tool_layers(tools: Seq<ToolSource>) -> Seq<(ConfigSource, Option<String>)> {
    Seq::new(
        tools.len(),
        |k: int| (tools[tools.len() - 1 - k].source, Some(tools[tools.len() - 1 - k].tool)),
    )
}

/// Every source in the order it is loaded: the built-in defaults, the tool sources from the
/// lowest priority up, and the workspace source last.
pub open spec fn load_order(
    default: ConfigSource,
    tools: Seq<ToolSource>,
    workspace: ConfigSource,
) -> Seq<(ConfigSource, Option<String>)> {
    seq![(default, None::<String>)] + tool_layers(tools) + seq![(workspace, None::<String>)]
}

/// What the sources add up to, taken in load order.
pub open spec fn cascade_of(layers: Seq<(ConfigSource, Option<String>)>) -> CascadeView
    decreases layers.len(),
{
    if layers.len() == 0 {
        empty_cascade()
    } else {
        step(cascade_of(layers.drop_last()), layers.last().0, layers.last().1)
    }
}

/// Every source is accepted, given the groups declared before it.
pub open spec fn all_accepted(layers: Seq<(ConfigSource, Option<String>)>) -> bool
    decreases layers.len(),
{
    layers.len() == 0 || (all_accepted(layers.drop_last()) && source_ok(
        cascade_of(layers.drop_last()).known,
        layers.last().0.config,
        layers.last().1,
    ))
}

/// The sources are accepted and, together, give the store directory and a complete default
/// profile.
pub open spec fn config_ok(layers: Seq<(ConfigSource, Option<String>)>) -> bool {
    &&& all_accepted(layers)
    &&& cascade_of(layers).store_dir is Some
    &&& lookup_profile(cascade_of(layers).profiles, default_name()) matches Some(p)
    &&& is_complete(p)
}

/// The error names the first source that was refused: its file, its tool and why.
pub open spec fn refused_at(layers: Seq<(ConfigSource, Option<String>)>, e: ConfigParseError) -> bool {
    exists|k: int|
        0 <= k < layers.len() && all_accepted(layers.subrange(0, k)) && !all_accepted(
            #[trigger] layers.subrange(0, k + 1),
        ) && e.config_file@ == layers[k].0.config_file@ && e.tool == layers[k].1 && refusal(
            cascade_of(layers.subrange(0, k)).known,
            layers[k].0.config,
            layers[k].1,
            e.kind,
        )
}

proof fn lemma_accepted_prefix(layers: Seq<(ConfigSource, Option<String>)>, m: int)
    requires
        all_accepted(layers),
        0 <= m <= layers.len(),
    ensures
        all_accepted(layers.subrange(0, m)),
    decreases layers.len(),
{
    if m == layers.len() {
        assert(layers.subrange(0, m) == layers);
    } else {
        assert(layers.subrange(0, m) == layers.drop_last().subrange(0, m));
        lemma_accepted_prefix(layers.drop_last(), m);
    }
}

/// The overrides of the named profile: `o.profile` reads `name`.
pub open spec fn for_profile(name: Seq<char>) -> spec_fn(CompiledOverride<PreBuildPlatform>) -> bool {
    |o: CompiledOverride<PreBuildPlatform>| o.profile@ == name
}

/// The chain a profile is resolved against: its own overrides, then those of the default
/// profile, each in cascade order.
pub open spec fn profile_chain(all: Seq<CompiledOverride<PreBuildPlatform>>, name: Seq<char>) -> Seq<
    CompiledOverride<PreBuildPlatform>,
> {
    (if name == default_name() {
        Seq::empty()
    } else {
        all.filter(for_profile(name))
    }) + all.filter(for_profile(default_name()))
}

/// Folds the declarations of profile `name` in order.
fn find_profile(ps: &Vec<NamedProfile>, name: &str) -> (r: Option<CustomProfile>)
    ensures
        r == lookup_profile(ps@, name@),
{
    let mut acc: Option<CustomProfile> = None;
    let mut i: usize = 0;
    while i < ps.len()
        invariant
            i <= ps@.len(),
            acc == lookup_profile(ps@.subrange(0, i as int), name@),
        decreases ps@.len() - i,
    {
        assert(ps@.subrange(0, i + 1).drop_last() == ps@.subrange(0, i as int));
        let p = &ps[i];
        if str_equal(p.name.as_str(), name) {
            acc = match acc {
                Some(prev) => Some(prev.layered(&p.settings)),
                None => Some(p.settings.clone()),
            };
        }
        i = i + 1;
    }
    assert(ps@.subrange(0, ps@.len() as int) == ps@);
    acc
}

/// Keeps the overrides declared under profile `name`, in order.
fn select_overrides(all: &Vec<CompiledOverride<PreBuildPlatform>>, name: &str) -> (r: Vec<
    CompiledOverride<PreBuildPlatform>,
>)
    ensures
        r@ == all@.filter(for_profile(name@)),
{
    let mut out: Vec<CompiledOverride<PreBuildPlatform>> = Vec::new();
    let mut i: usize = 0;
    while i < all.len()
        invariant
            i <= all@.len(),
            out@ == all@.subrange(0, i as int).filter(for_profile(name@)),
        decreases all@.len() - i,
    {
        proof {
            assert(all@.subrange(0, i + 1) == all@.subrange(0, i as int).push(all@[i as int]));
            all@.subrange(0, i as int).lemma_filter_push(all@[i as int], for_profile(name@));
        }
        let keep = str_equal(all[i].profile.as_str(), name);
        assert(keep == for_profile(name@)(all@[i as int]));
        if keep {
            out.push(all[i].clone());
        }
        i = i + 1;
    }
    assert(all@.subrange(0, all@.len() as int) == all@);
    out
}

/// `names` lists `default` and every declared profile name, each once, and nothing else.
pub open spec fn lists_profiles(names: Seq<String>, ps: Seq<NamedProfile>) -> bool {
    &&& names_contain(names, default_name())
    &&& forall|i: int| 0 <= i < ps.len() ==> names_contain(names, #[trigger] ps[i].name@)
    &&& forall|j: int|
        0 <= j < names.len() ==> (names[j]@ == default_name() || exists|i: int|
            0 <= i < ps.len() && ps[i].name@ == #[trigger] names[j]@)
    &&& forall|i: int, j: int| 0 <= i < j < names.len() ==> names[i]@ != names[j]@
}

/// Overall configuration: the merged profile settings and the assembled override cascade.
#[derive(Debug)]
pub struct NextestConfig {
    pub workspace_root: String,
    /// The store directory, relative to the workspace root.
    pub store_dir: String,
    pub test_groups: Vec<GroupDecl>,
    pub default_profile: DefaultProfile,
    /// Every profile declaration, in load order.
    pub profiles: Vec<NamedProfile>,
    /// Every override, highest precedence first.
    pub overrides: Vec<CompiledOverride<PreBuildPlatform>>,
}

impl NextestConfig {
    /// Assembles the configuration from the built-in defaults, the tool sources (listed from the
    /// highest priority down) and the workspace source. Returns it with one report for each
    /// source that holds unknown keys.
    pub fn from_sources(
        workspace_root: &str,
        default_config: &ConfigSource,
        tool_configs: &Vec<ToolSource>,
        workspace_config: &ConfigSource,
    ) -> (r: Result<(NextestConfig, Vec<UnknownKeys>), ConfigParseError>)
        ensures
            ({
                let layers = load_order(*default_config, tool_configs@, *workspace_config);
                let c = cascade_of(layers);
                &&& r is Ok <==> config_ok(layers)
                &&& r matches Err(e) ==> refused_at(layers, e) || (all_accepted(layers)
                    && e.config_file@ == workspace_config.config_file@ && e.tool is None)
                &&& (all_accepted(layers) && c.store_dir is None) ==> (r matches Err(e)
                    && e.kind is MissingStoreDir)
                &&& (all_accepted(layers) && c.store_dir is Some && lookup_profile(
                    c.profiles,
                    default_name(),
                ) is None) ==> (r matches Err(e) && e.kind is MissingDefaultProfile)
                &&& (all_accepted(layers) && c.store_dir is Some && lookup_profile(
                    c.profiles,
                    default_name(),
                ) is Some && !is_complete(lookup_profile(c.profiles, default_name()).unwrap()))
                    ==> (r matches Err(e) && (e.kind matches ConfigParseErrorKind::IncompleteDefaultProfile(f)
                    && lacks(lookup_profile(c.profiles, default_name()).unwrap(), f)))
                &&& r matches Ok((cfg, unknown)) ==> {
                    &&& cfg.workspace_root@ == workspace_root@
                    &&& cfg.store_dir == c.store_dir.unwrap()
                    &&& cfg.test_groups@ == c.groups
                    &&& cfg.profiles@ == c.profiles
                    &&& cfg.overrides@ == c.chain
                    &&& default_matches(
                        cfg.default_profile,
                        lookup_profile(c.profiles, default_name()).unwrap(),
                    )
                    &&& unknown@.map_values(|u: UnknownKeys| report_view(u)) == c.unknown
                }
            }),
    {
        let ghost layers = load_order(*default_config, tool_configs@, *workspace_config);
        let ghost n = tool_configs@.len();
        let mut acc = Cascade::new();
        proof {
            assert(layers.subrange(0, 0) =~= Seq::<(ConfigSource, Option<String>)>::empty());
            assert(layers.subrange(0, 1).drop_last() == layers.subrange(0, 0));
            assert(layers[0] == (*default_config, None::<String>));
        }
        let none: Option<String> = None;
        match acc.add_source(default_config, &none) {
            Ok(()) => {},
            Err(e) => {
                proof {
                    if all_accepted(layers) {
                        lemma_accepted_prefix(layers, 1);
                    }
                    assert(layers.subrange(0, 1).drop_last() == layers.subrange(0, 0));
                    assert(layers.subrange(0, 1).last() == layers[0]);
                    assert(!all_accepted(layers.subrange(0, 1)));
                    assert(all_accepted(layers.subrange(0, 0)));
                    assert(refused_at(layers, e));
                }
                return Err(e);
            },
        }
        assert(acc@ == cascade_of(layers.subrange(0, 1)));
        assert(all_accepted(layers.subrange(0, 1))) by {
            let s1 = layers.subrange(0, 1);
            assert(s1.drop_last().len() == 0);
            assert(cascade_of(s1.drop_last()) == empty_cascade());
            assert(s1.last() == layers[0]);
            assert(all_accepted(s1.drop_last()));
            assert(source_ok(cascade_of(s1.drop_last()).known, s1.last().0.config, s1.last().1));
        }
        let mut k: usize = tool_configs.len();
        while k > 0
            invariant
                k <= tool_configs@.len(),
                n == tool_configs@.len(),
                layers == load_order(*default_config, tool_configs@, *workspace_config),
                acc@ == cascade_of(layers.subrange(0, (n - k + 1) as int)),
                all_accepted(layers.subrange(0, (n - k + 1) as int)),
            decreases k,
        {
            k = k - 1;
            let t = &tool_configs[k];
            let tool: Option<String> = Some(t.tool.clone());
            let ghost m = (n - k) as int;
            proof {
                assert(layers.subrange(0, m + 1).drop_last() == layers.subrange(0, m));
                assert(layers[m] == (t.source, tool));
                assert(layers.subrange(0, m + 1).last() == layers[m]);
            }
            match acc.add_source(&t.source, &tool) {
                Ok(()) => {},
                Err(e) => {
                    proof {
                        if all_accepted(layers) {
                            lemma_accepted_prefix(layers, m + 1);
                        }
                        assert(!all_accepted(layers.subrange(0, m + 1)));
                        assert(refused_at(layers, e));
                    }
                    return Err(e);
                },
            }
        }
        let ghost m = (n + 1) as int;
        proof {
            assert(layers.subrange(0, m + 1).drop_last() == layers.subrange(0, m));
            assert(layers[m] == (*workspace_config, None::<String>));
            assert(layers.subrange(0, m + 1) == layers);
        }
        match acc.add_source(workspace_config, &none) {
            Ok(()) => {},
            Err(e) => {
                proof {
                    assert(!all_accepted(layers.subrange(0, m + 1)));
                    assert(refused_at(layers, e));
                }
                return Err(e);
            },
        }
        assert(acc@ == cascade_of(layers));
        let store_dir = match &acc.store_dir {
            Some(d) => d.clone(),
            None => {
                return Err(
                    ConfigParseError {
                        config_file: workspace_config.config_file.clone(),
                        tool: None,
                        kind: ConfigParseErrorKind::MissingStoreDir,
                    },
                );
            },
        };
        proof {
            reveal_strlit("default");
        }
        let default_str = "default";
        assert(default_str@ =~= default_name());
        let merged_default = match find_profile(&acc.profiles, default_str) {
            Some(p) => p,
            None => {
                return Err(
                    ConfigParseError {
                        config_file: workspace_config.config_file.clone(),
                        tool: None,
                        kind: ConfigParseErrorKind::MissingDefaultProfile,
                    },
                );
            },
        };
        let default_profile = match DefaultProfile::new(&merged_default) {
            Ok(d) => d,
            Err(field) => {
                return Err(
                    ConfigParseError {
                        config_file: workspace_config.config_file.clone(),
                        tool: None,
                        kind: ConfigParseErrorKind::IncompleteDefaultProfile(field),
                    },
                );
            },
        };
        let Cascade { known: _, chain, profiles, groups, store_dir: _, unknown } = acc;
        let cfg = NextestConfig {
            workspace_root: String::from_str(workspace_root),
            store_dir,
            test_groups: groups,
            default_profile,
            profiles,
            overrides: chain,
        };
        Ok((cfg, unknown))
    }

    /// The names of the profiles that can be asked for, each once.
    pub fn profile_names(&self) -> (r: Vec<String>)
        ensures
            lists_profiles(r@, self.profiles@),
    {
        proof {
            reveal_strlit("default");
        }
        let mut out: Vec<String> = Vec::new();
        out.push(String::from_str("default"));
        assert(out@[0]@ =~= default_name());
        let mut i: usize = 0;
        while i < self.profiles.len()
            invariant
                i <= self.profiles@.len(),
                names_contain(out@, default_name()),
                forall|k: int| 0 <= k < i ==> names_contain(out@, #[trigger] self.profiles@[k].name@),
                forall|j: int|
                    0 <= j < out@.len() ==> (out@[j]@ == default_name() || exists|k: int|
                        0 <= k < self.profiles@.len() && self.profiles@[k].name@ == #[trigger] out@[j]@),
                forall|a: int, b: int| 0 <= a < b < out@.len() ==> out@[a]@ != out@[b]@,
            decreases self.profiles@.len() - i,
        {
            let name = &self.profiles[i].name;
            let mut seen = false;
            let mut j: usize = 0;
            while j < out.len()
                invariant
                    j <= out@.len(),
                    seen ==> names_contain(out@, name@),
                    !seen ==> forall|k: int| 0 <= k < j ==> out@[k]@ != name@,
                decreases out@.len() - j,
            {
                if str_equal(out[j].as_str(), name.as_str()) {
                    seen = true;
                }
                j = j + 1;
            }
            if !seen {
                let ghost before = out@;
                out.push(name.clone());
                assert(out@[out@.len() - 1] == *name);
                assert forall|k: int| 0 <= k < i implies names_contain(
                    out@,
                    #[trigger] self.profiles@[k].name@,
                ) by {
                    let w = choose|w: int| 0 <= w < before.len() && before[w]@ == self.profiles@[k].name@;
                    assert(out@[w] == before[w]);
                }
                assert(names_contain(out@, default_name())) by {
                    let w = choose|w: int| 0 <= w < before.len() && before[w]@ == default_name();
                    assert(out@[w] == before[w]);
                }
            }
            assert(names_contain(out@, self.profiles@[i as int].name@));
            i = i + 1;
        }
        out
    }

    /// Returns the profile with the given name, or an error that lists the profiles there are.
    pub fn profile(&self, name: &str) -> (r: Result<NextestProfile<'_, PreBuildPlatform>, ProfileNotFound>)
        ensures
            name@ == default_name() ==> r is Ok,
            name@ != default_name() ==> (r is Ok <==> lookup_profile(self.profiles@, name@) is Some),
            r matches Ok(p) ==> {
                &&& p.store_dir@ == joined_path(joined_path(self.workspace_root@, self.store_dir@), name@)
                &&& *p.default_profile == self.default_profile
                &&& p.custom_profile == (if name@ == default_name() {
                    None
                } else {
                    lookup_profile(self.profiles@, name@)
                })
                &&& *p.test_groups == self.test_groups
                &&& p.overrides@ == profile_chain(self.overrides@, name@)
            },
            r matches Err(e) ==> e.profile@ == name@ && lists_profiles(
                e.all_profiles@,
                self.profiles@,
            ),
    {
        proof {
            reveal_strlit("default");
        }
        let default_str = "default";
        assert(default_str@ =~= default_name());
        let is_default = str_equal(name, default_str);
        let custom_profile = if is_default {
            None
        } else {
            match find_profile(&self.profiles, name) {
                Some(p) => Some(p),
                None => {
                    return Err(
                        ProfileNotFound {
                            profile: String::from_str(name),
                            all_profiles: self.profile_names(),
                        },
                    );
                },
            }
        };
        let root = join_path(self.workspace_root.as_str(), self.store_dir.as_str());
        let store_dir = join_path(root.as_str(), name);
        let mut overrides = if is_default {
            Vec::new()
        } else {
            select_overrides(&self.overrides, name)
        };
        let mut defaults = select_overrides(&self.overrides, default_str);
        overrides.append(&mut defaults);
        assert(overrides@ =~= profile_chain(self.overrides@, name@));
        Ok(
            NextestProfile {
                store_dir,
                default_profile: &self.default_profile,
                custom_profile,
                test_groups: &self.test_groups,
                overrides,
            },
        )
    }
}

/// A profile with every field unset.
pub open spec fn unset_profile() -> CustomProfile {
    CustomProfile {
        retries: None,
        test_threads: None,
        threads_required: None,
        status_level: None,
        final_status_level: None,
        failure_output: None,
        success_output: None,
        fail_fast: None,
        slow_timeout: None,
        leak_timeout_ms: None,
        junit: JunitSettings {
            path: None,
            report_name: None,
            store_success_output: None,
            store_failure_output: None,
        },
    }
}

/// The value a profile gives where it sets one, else the default profile's.
pub open spec fn value_or<T>(custom: Option<T>, default: T) -> T {
    match custom {
        Some(v) => v,
        None => default,
    }
}

/// A configuration profile, with its overrides in evaluation state `S`.
#[derive(Debug)]
pub struct NextestProfile<'cfg, S> {
    pub store_dir: String,
    pub default_profile: &'cfg DefaultProfile,
    pub custom_profile: Option<CustomProfile>,
    pub test_groups: &'cfg Vec<GroupDecl>,
    pub overrides: Vec<CompiledOverride<S>>,
}

/// The JUnit report settings of a profile that writes one.
#[derive(Debug)]
pub struct NextestJunitConfig {
    pub path: String,
    pub report_name: String,
    pub store_success_output: bool,
    pub store_failure_output: bool,
}

impl NextestJunitConfig {
    /// Returns the absolute path of the report.
    pub fn path(&self) -> (r: &str)
        ensures
            r@ == self.path@,
    {
        self.path.as_str()
    }

    /// Returns the name of the report.
    pub fn report_name(&self) -> (r: &str)
        ensures
            r@ == self.report_name@,
    {
        self.report_name.as_str()
    }

    /// Returns true if the output of passing tests is stored.
    pub fn store_success_output(&self) -> (r: bool)
        ensures
            r == self.store_success_output,
    {
        self.store_success_output
    }

    /// Returns true if the output of failing tests is stored.
    pub fn store_failure_output(&self) -> (r: bool)
        ensures
            r == self.store_failure_output,
    {
        self.store_failure_output
    }
}

impl<'cfg, S> NextestProfile<'cfg, S> {
    /// The profile's own settings, with every field unset for the default profile.
    pub open spec fn sparse(&self) -> CustomProfile {
        match self.custom_profile {
            Some(p) => p,
            None => unset_profile(),
        }
    }

    /// Returns the absolute store directory of the profile.
    pub fn store_dir(&self) -> (r: &str)
        ensures
            r@ == self.store_dir@,
    {
        self.store_dir.as_str()
    }

    /// Returns the declared test groups.
    pub fn test_group_config(&self) -> (r: &'cfg Vec<GroupDecl>)
        ensures
            *r == *self.test_groups,
    {
        self.test_groups
    }
}

impl<'cfg> NextestProfile<'cfg, PreBuildPlatform> {
    /// Evaluates the platform predicate of every override against the build platforms. The
    /// rest of the profile is unchanged.
    pub fn apply_build_platforms(self, build_platforms: &BuildPlatforms) -> (r: NextestProfile<
        'cfg,
        FinalConfig,
    >)
        ensures
            r.overrides@ == self.overrides@.map_values(
                |o: CompiledOverride<PreBuildPlatform>| bound(o, *build_platforms),
            ),
            r.store_dir == self.store_dir,
            r.default_profile == self.default_profile,
            r.custom_profile == self.custom_profile,
            r.test_groups == self.test_groups,
    {
        let overrides = bind_all(&self.overrides, build_platforms);
        NextestProfile {
            store_dir: self.store_dir,
            default_profile: self.default_profile,
            custom_profile: self.custom_profile,
            test_groups: self.test_groups,
            overrides,
        }
    }
}

impl<'cfg> NextestProfile<'cfg, FinalConfig> {
    /// Returns the retry policy of the profile.
    pub fn retries(&self) -> (r: RetryPolicy)
        ensures
            r == value_or(self.sparse().retries, self.default_profile.retries),
    {
        match &self.custom_profile {
            Some(p) => match p.retries {
                Some(v) => v,
                None => self.default_profile.retries,
            },
            None => self.default_profile.retries,
        }
    }

    /// Returns the number of tests that may run at once.
    pub fn test_threads(&self) -> (r: TestThreads)
        ensures
            r == value_or(self.sparse().test_threads, self.default_profile.test_threads),
    {
        match &self.custom_profile {
            Some(p) => match p.test_threads {
                Some(v) => v,
                None => self.default_profile.test_threads,
            },
            None => self.default_profile.test_threads,
        }
    }

    /// Returns the number of thread slots each test occupies.
    pub fn threads_required(&self) -> (r: ThreadsRequired)
        ensures
            r == value_or(self.sparse().threads_required, self.default_profile.threads_required),
    {
        match &self.custom_profile {
            Some(p) => match p.threads_required {
                Some(v) => v,
                None => self.default_profile.threads_required,
            },
            None => self.default_profile.threads_required,
        }
    }

    /// Returns the slow timeout of the profile.
    pub fn slow_timeout(&self) -> (r: SlowTimeout)
        ensures
            r == value_or(self.sparse().slow_timeout, self.default_profile.slow_timeout),
    {
        match &self.custom_profile {
            Some(p) => match p.slow_timeout {
                Some(v) => v,
                None => self.default_profile.slow_timeout,
            },
            None => self.default_profile.slow_timeout,
        }
    }

    /// Returns the leak timeout of the profile, in milliseconds.
    pub fn leak_timeout(&self) -> (r: u64)
        ensures
            r == value_or(self.sparse().leak_timeout_ms, self.default_profile.leak_timeout_ms),
    {
        match &self.custom_profile {
            Some(p) => match p.leak_timeout_ms {
                Some(v) => v,
                None => self.default_profile.leak_timeout_ms,
            },
            None => self.default_profile.leak_timeout_ms,
        }
    }

    /// Returns the status level shown during a run.
    pub fn status_level(&self) -> (r: StatusLevel)
        ensures
            r == value_or(self.sparse().status_level, self.default_profile.status_level),
    {
        match &self.custom_profile {
            Some(p) => match p.status_level {
                Some(v) => v,
                None => self.default_profile.status_level,
            },
            None => self.default_profile.status_level,
        }
    }

    /// Returns the status level shown at the end of a run.
    pub fn final_status_level(&self) -> (r: FinalStatusLevel)
        ensures
            r == value_or(self.sparse().final_status_level, self.default_profile.final_status_level),
    {
        match &self.custom_profile {
            Some(p) => match p.final_status_level {
                Some(v) => v,
                None => self.default_profile.final_status_level,
            },
            None => self.default_profile.final_status_level,
        }
    }

    /// Returns when the output of failing tests is shown.
    pub fn failure_output(&self) -> (r: TestOutputDisplay)
        ensures
            r == value_or(self.sparse().failure_output, self.default_profile.failure_output),
    {
        match &self.custom_profile {
            Some(p) => match p.failure_output {
                Some(v) => v,
                None => self.default_profile.failure_output,
            },
            None => self.default_profile.failure_output,
        }
    }

    /// Returns when the output of passing tests is shown.
    pub fn success_output(&self) -> (r: TestOutputDisplay)
        ensures
            r == value_or(self.sparse().success_output, self.default_profile.success_output),
    {
        match &self.custom_profile {
            Some(p) => match p.success_output {
                Some(v) => v,
                None => self.default_profile.success_output,
            },
            None => self.default_profile.success_output,
        }
    }

    /// Returns whether the run stops at the first failure.
    pub fn fail_fast(&self) -> (r: bool)
        ensures
            r == value_or(self.sparse().fail_fast, self.default_profile.fail_fast),
    {
        match &self.custom_profile {
            Some(p) => match p.fail_fast {
                Some(v) => v,
                None => self.default_profile.fail_fast,
            },
            None => self.default_profile.fail_fast,
        }
    }

    /// The values a test falls back on where no override sets a field.
    pub open spec fn field_defaults(&self) -> FieldDefaults {
        FieldDefaults {
            retries: value_or(self.sparse().retries, self.default_profile.retries),
            threads_required: value_or(
                self.sparse().threads_required,
                self.default_profile.threads_required,
            ),
            slow_timeout: value_or(self.sparse().slow_timeout, self.default_profile.slow_timeout),
            leak_timeout_ms: value_or(
                self.sparse().leak_timeout_ms,
                self.default_profile.leak_timeout_ms,
            ),
        }
    }

    /// Returns the settings of one test on the given side of the build, given for each
    /// override of the profile, in order, whether its filter matches the test.
    pub fn settings_for(&self, side: BuildPlatform, verdicts: &Vec<bool>) -> (r: TestSettings)
        requires
            verdicts@.len() == self.overrides@.len(),
        ensures
            r == resolved(self.overrides@, verdicts@, side, self.field_defaults()),
    {
        let defaults = FieldDefaults {
            retries: self.retries(),
            threads_required: self.threads_required(),
            slow_timeout: self.slow_timeout(),
            leak_timeout_ms: self.leak_timeout(),
        };
        resolve_settings(&self.overrides, verdicts, side, defaults)
    }

    /// Returns the JUnit settings of the profile, or `None` where neither it nor the default
    /// profile gives a report path.
    pub fn junit(&self) -> (r: Option<NextestJunitConfig>)
        ensures
            ({
                let path = crate::profile::or_else(
                    self.sparse().junit.path,
                    self.default_profile.junit.path,
                );
                &&& r is Some <==> path is Some
                &&& r matches Some(j) ==> {
                    &&& j.path@ == joined_path(self.store_dir@, path.unwrap()@)
                    &&& j.report_name == value_or(
                        self.sparse().junit.report_name,
                        self.default_profile.junit.report_name,
                    )
                    &&& j.store_success_output == value_or(
                        self.sparse().junit.store_success_output,
                        self.default_profile.junit.store_success_output,
                    )
                    &&& j.store_failure_output == value_or(
                        self.sparse().junit.store_failure_output,
                        self.default_profile.junit.store_failure_output,
                    )
                }
            }),
    {
        let path = match &self.custom_profile {
            Some(p) => match &p.junit.path {
                Some(_) => &p.junit.path,
                None => &self.default_profile.junit.path,
            },
            None => &self.default_profile.junit.path,
        };
        match path {
            None => None,
            Some(rel) => {
                let path = join_path(self.store_dir.as_str(), rel.as_str());
                let (report_name, store_success_output, store_failure_output) = match &self.custom_profile {
                    Some(p) => (
                        match &p.junit.report_name {
                            Some(n) => n.clone(),
                            None => self.default_profile.junit.report_name.clone(),
                        },
                        match p.junit.store_success_output {
                            Some(b) => b,
                            None => self.default_profile.junit.store_success_output,
                        },
                        match p.junit.store_failure_output {
                            Some(b) => b,
                            None => self.default_profile.junit.store_failure_output,
                        },
                    ),
                    None => (
                        self.default_profile.junit.report_name.clone(),
                        self.default_profile.junit.store_success_output,
                        self.default_profile.junit.store_failure_output,
                    ),
                };
                Some(
                    NextestJunitConfig {
                        path,
                        report_name,
                        store_success_output,
                        store_failure_output,
                    },
                )
            },
        }
    }
}

/// Where one field of a test's settings came from.
#[derive(Clone, Copy, Debug, PartialEq, Eq, Structural)]
pub enum SettingSource {
    /// The override at this position of the profile's chain.
    Override(usize),
    /// The profile's own value.
    Profile,
    /// The default profile's value (for the test group: the global group).
    Default,
}

/// Where each field of a test's settings came from.
#[derive(Clone, Copy, Debug, PartialEq, Eq, Structural)]
pub struct SettingSources {
    pub retries: SettingSource,
    pub threads_required: SettingSource,
    pub test_group: SettingSource,
    pub slow_timeout: SettingSource,
    pub leak_timeout: SettingSource,
}

/// The source of a field: the override that supplies it, else the profile where it sets the
/// field, else the default.
pub open spec fn source_kind(index: Option<int>, profile_sets: bool) -> SettingSource {
    match index {
        Some(i) => SettingSource::Override(i as usize),
        None => if profile_sets {
            SettingSource::Profile
        } else {
            SettingSource::Default
        },
    }
}

fn source_kind_exec(index: Option<usize>, profile_sets: bool) -> (r: SettingSource)
    ensures
        r == source_kind(as_int(index), profile_sets),
{
    match index {
        Some(i) => SettingSource::Override(i),
        None => if profile_sets {
            SettingSource::Profile
        } else {
            SettingSource::Default
        },
    }
}

impl<'cfg> NextestProfile<'cfg, FinalConfig> {
    /// Returns where each field of a test's settings comes from, given for each override of the
    /// profile, in order, whether its filter matches the test.
    pub fn setting_sources_for(&self, side: BuildPlatform, verdicts: &Vec<bool>) -> (r:
        SettingSources)
        requires
            verdicts@.len() == self.overrides@.len(),
        ensures
            ({
                let chain = self.overrides@;
                let n = chain.len() as int;
                &&& r.retries == source_kind(
                    (first_index(chain, verdicts@, side, get_retries(), n)),
                    self.sparse().retries is Some,
                )
                &&& r.threads_required == source_kind(
                    (first_index(chain, verdicts@, side, get_threads_required(), n)),
                    self.sparse().threads_required is Some,
                )
                &&& r.test_group == source_kind(
                    (first_index(chain, verdicts@, side, get_test_group(), n)),
                    false,
                )
                &&& r.slow_timeout == source_kind(
                    (first_index(chain, verdicts@, side, get_slow_timeout(), n)),
                    self.sparse().slow_timeout is Some,
                )
                &&& r.leak_timeout == source_kind(
                    (first_index(chain, verdicts@, side, get_leak_timeout(), n)),
                    self.sparse().leak_timeout_ms is Some,
                )
            }),
    {
        let idx = supplying_overrides(&self.overrides, verdicts, side);
        let (retries, threads_required, slow_timeout, leak_timeout) = match &self.custom_profile {
            Some(p) => (
                p.retries.is_some(),
                p.threads_required.is_some(),
                p.slow_timeout.is_some(),
                p.leak_timeout_ms.is_some(),
            ),
            None => (false, false, false, false),
        };
        SettingSources {
            retries: source_kind_exec(idx.retries, retries),
            threads_required: source_kind_exec(idx.threads_required, threads_required),
            test_group: source_kind_exec(idx.test_group, false),
            slow_timeout: source_kind_exec(idx.slow_timeout, slow_timeout),
            leak_timeout: source_kind_exec(idx.leak_timeout, leak_timeout),
        }
    }
}

/// The settings that the declarations `gs`, taken in order, give group `name`: the latest
/// declaration of it wins.
pub open spec fn lookup_group(gs: Seq<GroupDecl>, name: Seq<char>) -> Option<TestGroupConfig>
    decreases gs.len(),
{
    if gs.len() == 0 {
        None
    } else if gs.last().name@ == name {
        Some(gs.last().config)
    } else {
        lookup_group(gs.drop_last(), name)
    }
}

impl<'cfg, S> NextestProfile<'cfg, S> {
    /// Returns the settings of a declared test group, as the latest source to declare it gives
    /// them.
    pub fn group_config(&self, name: &str) -> (r: Option<TestGroupConfig>)
        ensures
            r == lookup_group(self.test_groups@, name@),
    {
        let gs = self.test_groups;
        let mut i: usize = gs.len();
        assert(gs@.subrange(0, gs@.len() as int) == gs@);
        while i > 0
            invariant
                i <= gs@.len(),
                gs@ == self.test_groups@,
                lookup_group(gs@, name@) == lookup_group(gs@.subrange(0, i as int), name@),
            decreases i,
        {
            let ghost prefix = gs@.subrange(0, i as int);
            assert(prefix.drop_last() == gs@.subrange(0, i - 1));
            assert(prefix.last() == gs@[i - 1]);
            if str_equal(gs[i - 1].name.as_str(), name) {
                assert(lookup_group(prefix, name@) == Some(gs@[i - 1].config));
                return Some(gs[i - 1].config);
            }
            i = i - 1;
        }
        assert(gs@.subrange(0, 0).len() == 0);
        None
    }
}

} // verus!
