use vstd::prelude::*;

use crate::errors::{ConfigParseError, ConfigParseErrorKind, UnknownTestGroupError};
use crate::group::{group_valid_for, opt_str_view, partition_groups, refused_by, str_equal};
use crate::overrides::{compiled, platform_spec_ok, platform_spec_parses, CompiledOverride, DeserializedOverride, PreBuildPlatform};
use crate::profile::{copy_opt_string, or_else, NamedProfile};
use crate::settings::{TestGroup, TestGroupConfig};

verus! {

/// A test group as a source declares it.
#[derive(Debug)]
pub struct GroupDecl {
    pub name: String,
    pub config: TestGroupConfig,
}

impl Clone for GroupDecl {
    fn clone(&self) -> (r: Self)
        ensures
            r == *self,
    {
        GroupDecl { name: self.name.clone(), config: self.config }
    }
}

/// What one configuration source declares, as read from its text.
#[derive(Debug)]
pub struct SourceConfig {
    /// The store directory, relative to the workspace root.
    pub store_dir: Option<String>,
    /// The declared test groups, in order.
    pub test_groups: Vec<GroupDecl>,
    /// The scalar settings of each profile the source names.
    pub profiles: Vec<NamedProfile>,
    /// The overrides of every profile, in the order the source declares them.
    pub overrides: Vec<DeserializedOverride>,
    /// The full paths of the keys in the text that the schema does not know.
    pub unknown_keys: Vec<String>,
}

/// A configuration source and the file it was read from.
#[derive(Debug)]
pub struct ConfigSource {
    pub config_file: String,
    pub config: SourceConfig,
}

/// A configuration source supplied by a tool.
#[derive(Debug)]
pub struct ToolSource {
    pub tool: String,
    pub source: ConfigSource,
}

/// Keys that one source holds and the schema does not know.
#[derive(Debug)]
pub struct UnknownKeys {
    pub config_file: String,
    pub tool: Option<String>,
    pub keys: Vec<String>,
}

pub open spec fn opt_string_view(t: Option<String>) -> Option<Seq<char>> {
    match t {
        Some(s) => Some(s@),
        None => None,
    }
}

/// A report of unknown keys as plain values: file, tool and keys.
pub open spec fn report_view(u: UnknownKeys) -> (Seq<char>, Option<Seq<char>>, Seq<String>) {
    (u.config_file@, opt_string_view(u.tool), u.keys@)
}

/// What the sources taken so far add up to.
pub struct CascadeView {
    /// The names of every declared group.
    pub known: Seq<String>,
    /// The overrides of every source, the latest source first.
    pub chain: Seq<CompiledOverride<PreBuildPlatform>>,
    /// The profile declarations of every source, the earliest source first.
    pub profiles: Seq<NamedProfile>,
    /// The group declarations of every source, the earliest source first.
    pub groups: Seq<GroupDecl>,
    /// The store directory given by the latest source that gives one.
    pub store_dir: Option<String>,
    /// One report for each source that holds unknown keys.
    pub unknown: Seq<(Seq<char>, Option<Seq<char>>, Seq<String>)>,
}

pub open spec fn empty_cascade() -> CascadeView {
    CascadeView {
        known: Seq::empty(),
        chain: Seq::empty(),
        profiles: Seq::empty(),
        groups: Seq::empty(),
        store_dir: None,
        unknown: Seq::empty(),
    }
}

pub open spec fn group_names(gs: Seq<GroupDecl>) -> Seq<String> {
    gs.map_values(|g: GroupDecl| g.name)
}

pub open spec fn compiled_all(ds: Seq<DeserializedOverride>) -> Seq<CompiledOverride<PreBuildPlatform>> {
    ds.map_values(|d: DeserializedOverride| compiled(d))
}

/// Some name among `known` reads `g`.
pub open spec fn names_contain(known: Seq<String>, g: Seq<char>) -> bool {
    exists|i: int| 0 <= i < known.len() && known[i]@ == g
}

/// The override names a custom group that is not among `known`.
pub open spec fn refs_unknown(known: Seq<String>, d: DeserializedOverride) -> bool {
    match d.data.test_group {
        Some(TestGroup::Custom(g)) => !names_contain(known, g@),
        _ => false,
    }
}

pub open spec fn refs_unknown_in(known: Seq<String>) -> spec_fn(DeserializedOverride) -> bool {
    |d: DeserializedOverride| refs_unknown(known, d)
}

/// The error entry for an override that names an unknown group.
pub open spec fn unknown_entry(d: DeserializedOverride) -> (Seq<char>, TestGroup) {
    (d.profile@, d.data.test_group.unwrap())
}

pub open spec fn entry_view(e: UnknownTestGroupError) -> (Seq<char>, TestGroup) {
    (e.profile_name@, e.name)
}

/// The override gives a platform predicate that cannot be read.
pub open spec fn bad_platform(d: DeserializedOverride) -> bool {
    match d.platform {
        Some(p) => !platform_spec_parses(p@),
        None => false,
    }
}

pub open spec fn bad_platform_pred() -> spec_fn(DeserializedOverride) -> bool {
    |d: DeserializedOverride| bad_platform(d)
}

/// Every group that can be named: the global group, then each custom group in `names`.
pub open spec fn all_groups(names: Seq<String>) -> Seq<TestGroup> {
    seq![TestGroup::Global] + names.map_values(|g: String| TestGroup::Custom(g))
}

/// Why a source is refused, given the groups declared before it: the groups it declares that
/// are invalid for its owner, all listed; or, its groups being valid, every override that names
/// an undeclared group, listed with every group that is known.
pub open spec fn refusal(
    known: Seq<String>,
    src: SourceConfig,
    tool: Option<String>,
    kind: ConfigParseErrorKind,
) -> bool {
    match kind {
        ConfigParseErrorKind::InvalidTestGroupsDefined(g) => {
            &&& tool is None
            &&& g@.len() > 0
            &&& g@ == group_names(src.test_groups@).filter(refused_by(opt_string_view(tool)))
        },
        ConfigParseErrorKind::InvalidTestGroupsDefinedByTool(g) => {
            &&& tool is Some
            &&& g@.len() > 0
            &&& g@ == group_names(src.test_groups@).filter(refused_by(opt_string_view(tool)))
        },
        ConfigParseErrorKind::InvalidPlatformSpecs(specs) => {
            &&& forall|i: int|
                0 <= i < src.test_groups@.len() ==> group_valid_for(
                    opt_string_view(tool),
                    #[trigger] src.test_groups@[i].name@,
                )
            &&& specs@.len() > 0
            &&& specs@ == src.overrides@.filter(bad_platform_pred()).map_values(
                |d: DeserializedOverride| d.platform.unwrap(),
            )
        },
        ConfigParseErrorKind::UnknownTestGroups { errors, known_groups } => {
            &&& forall|i: int|
                0 <= i < src.test_groups@.len() ==> group_valid_for(
                    opt_string_view(tool),
                    #[trigger] src.test_groups@[i].name@,
                )
            &&& forall|i: int| 0 <= i < src.overrides@.len() ==> !bad_platform(#[trigger] src.overrides@[i])
            &&& known_groups@ == all_groups(known + group_names(src.test_groups@))
            &&& errors@.len() > 0
            &&& errors@.map_values(|e: UnknownTestGroupError| entry_view(e)) == src.overrides@.filter(
                refs_unknown_in(known + group_names(src.test_groups@)),
            ).map_values(|d: DeserializedOverride| unknown_entry(d))
        },
        _ => false,
    }
}

fn all_groups_of(names: &Vec<String>) -> (r: Vec<TestGroup>)
    ensures
        r@ == all_groups(names@),
{
    let mut out: Vec<TestGroup> = Vec::new();
    out.push(TestGroup::Global);
    let mut i: usize = 0;
    while i < names.len()
        invariant
            i <= names@.len(),
            out@ == all_groups(names@.subrange(0, i as int)),
        decreases names@.len() - i,
    {
        out.push(TestGroup::Custom(names[i].clone()));
        i = i + 1;
        assert(out@ =~= all_groups(names@.subrange(0, i as int)));
    }
    assert(names@.subrange(0, names@.len() as int) == names@);
    out
}

/// A source is accepted, given the groups declared before it, when each group it declares is
/// valid for its owner and each group its overrides name is declared by it or before it.
pub open spec fn source_ok(known: Seq<String>, src: SourceConfig, tool: Option<String>) -> bool {
    &&& forall|i: int|
        0 <= i < src.test_groups@.len() ==> group_valid_for(
            opt_string_view(tool),
            #[trigger] src.test_groups@[i].name@,
        )
    &&& forall|i: int| 0 <= i < src.overrides@.len() ==> !bad_platform(#[trigger] src.overrides@[i])
    &&& forall|i: int|
        0 <= i < src.overrides@.len() ==> !refs_unknown(
            known + group_names(src.test_groups@),
            #[trigger] src.overrides@[i],
        )
}

/// What a cascade becomes once an accepted source is added.
pub open spec fn step(c: CascadeView, src: ConfigSource, tool: Option<String>) -> CascadeView {
    CascadeView {
        known: c.known + group_names(src.config.test_groups@),
        chain: compiled_all(src.config.overrides@) + c.chain,
        profiles: c.profiles + src.config.profiles@,
        groups: c.groups + src.config.test_groups@,
        store_dir: or_else(src.config.store_dir, c.store_dir),
        unknown: if src.config.unknown_keys@.len() == 0 {
            c.unknown
        } else {
            c.unknown.push((src.config_file@, opt_string_view(tool), src.config.unknown_keys@))
        },
    }
}

/// The running state of a configuration being assembled from its sources.
pub struct Cascade {
    pub known: Vec<String>,
    pub chain: Vec<CompiledOverride<PreBuildPlatform>>,
    pub profiles: Vec<NamedProfile>,
    pub groups: Vec<GroupDecl>,
    pub store_dir: Option<String>,
    pub unknown: Vec<UnknownKeys>,
}

impl View for Cascade {
    type V = CascadeView;

    open spec fn view(&self) -> CascadeView {
        CascadeView {
            known: self.known@,
            chain: self.chain@,
            profiles: self.profiles@,
            groups: self.groups@,
            store_dir: self.store_dir,
            unknown: self.unknown@.map_values(|u: UnknownKeys| report_view(u)),
        }
    }
}

fn copy_strings(v: &Vec<String>) -> (r: Vec<String>)
    ensures
        r@ == v@,
{
    let mut out: Vec<String> = Vec::new();
    let mut i: usize = 0;
    while i < v.len()
        invariant
            i <= v@.len(),
            out@ == v@.subrange(0, i as int),
        decreases v@.len() - i,
    {
        out.push(v[i].clone());
        i = i + 1;
        assert(out@ =~= v@.subrange(0, i as int));
    }
    assert(v@.subrange(0, v@.len() as int) == v@);
    out
}

fn copy_groups(v: &Vec<GroupDecl>) -> (r: Vec<GroupDecl>)
    ensures
        r@ == v@,
{
    let mut out: Vec<GroupDecl> = Vec::new();
    let mut i: usize = 0;
    while i < v.len()
        invariant
            i <= v@.len(),
            out@ == v@.subrange(0, i as int),
        decreases v@.len() - i,
    {
        out.push(v[i].clone());
        i = i + 1;
        assert(out@ =~= v@.subrange(0, i as int));
    }
    assert(v@.subrange(0, v@.len() as int) == v@);
    out
}

fn copy_profiles(v: &Vec<NamedProfile>) -> (r: Vec<NamedProfile>)
    ensures
        r@ == v@,
{
    let mut out: Vec<NamedProfile> = Vec::new();
    let mut i: usize = 0;
    while i < v.len()
        invariant
            i <= v@.len(),
            out@ == v@.subrange(0, i as int),
        decreases v@.len() - i,
    {
        out.push(v[i].clone());
        i = i + 1;
        assert(out@ =~= v@.subrange(0, i as int));
    }
    assert(v@.subrange(0, v@.len() as int) == v@);
    out
}

fn names_of(v: &Vec<GroupDecl>) -> (r: Vec<String>)
    ensures
        r@ == group_names(v@),
{
    let mut out: Vec<String> = Vec::new();
    let mut i: usize = 0;
    while i < v.len()
        invariant
            i <= v@.len(),
            out@ == group_names(v@.subrange(0, i as int)),
        decreases v@.len() - i,
    {
        out.push(v[i].name.clone());
        i = i + 1;
        assert(out@ =~= group_names(v@.subrange(0, i as int)));
    }
    assert(v@.subrange(0, v@.len() as int) == v@);
    out
}

fn compile_all(v: &Vec<DeserializedOverride>) -> (r: Vec<CompiledOverride<PreBuildPlatform>>)
    ensures
        r@ == compiled_all(v@),
{
    let mut out: Vec<CompiledOverride<PreBuildPlatform>> = Vec::new();
    let mut i: usize = 0;
    while i < v.len()
        invariant
            i <= v@.len(),
            out@ == compiled_all(v@.subrange(0, i as int)),
        decreases v@.len() - i,
    {
        out.push(v[i].compile());
        i = i + 1;
        assert(out@ =~= compiled_all(v@.subrange(0, i as int)));
    }
    assert(v@.subrange(0, v@.len() as int) == v@);
    out
}

/// Tells whether some name among `known` reads `g`.
fn contains_name(known: &Vec<String>, g: &String) -> (r: bool)
    ensures
        r == names_contain(known@, g@),
{
    let mut i: usize = 0;
    while i < known.len()
        invariant
            i <= known@.len(),
            forall|k: int| 0 <= k < i ==> known@[k]@ != g@,
        decreases known@.len() - i,
    {
        if str_equal(known[i].as_str(), g.as_str()) {
            return true;
        }
        i = i + 1;
    }
    false
}

/// Lists every override that names a custom group missing from `known`, in order.
pub fn unknown_group_refs(overrides: &Vec<DeserializedOverride>, known: &Vec<String>) -> (r: Vec<
    UnknownTestGroupError,
>)
    ensures
        r@.map_values(|e: UnknownTestGroupError| entry_view(e)) == overrides@.filter(
            refs_unknown_in(known@),
        ).map_values(|d: DeserializedOverride| unknown_entry(d)),
        r@.len() == 0 <==> forall|i: int|
            0 <= i < overrides@.len() ==> !refs_unknown(known@, #[trigger] overrides@[i]),
{
    let mut out: Vec<UnknownTestGroupError> = Vec::new();
    let mut i: usize = 0;
    while i < overrides.len()
        invariant
            i <= overrides@.len(),
            out@.map_values(|e: UnknownTestGroupError| entry_view(e)) == overrides@.subrange(
                0,
                i as int,
            ).filter(refs_unknown_in(known@)).map_values(
                |d: DeserializedOverride| unknown_entry(d),
            ),
            out@.len() == 0 <==> forall|k: int|
                0 <= k < i ==> !refs_unknown(known@, #[trigger] overrides@[k]),
        decreases overrides@.len() - i,
    {
        let d = &overrides[i];
        proof {
            assert(overrides@.subrange(0, i + 1) == overrides@.subrange(0, i as int).push(
                overrides@[i as int],
            ));
            overrides@.subrange(0, i as int).lemma_filter_push(
                overrides@[i as int],
                refs_unknown_in(known@),
            );
        }
        let missing = match &d.data.test_group {
            Some(TestGroup::Custom(g)) => !contains_name(known, g),
            _ => false,
        };
        assert(missing == refs_unknown_in(known@)(overrides@[i as int]));
        if missing {
            let name = match &d.data.test_group {
                Some(g) => g.clone(),
                None => TestGroup::Global,
            };
            let e = UnknownTestGroupError { profile_name: d.profile.clone(), name };
            assert(entry_view(e) == unknown_entry(overrides@[i as int]));
            let ghost prev = out@;
            out.push(e);
            assert(out@.map_values(|e: UnknownTestGroupError| entry_view(e)) =~= prev.map_values(
                |e: UnknownTestGroupError| entry_view(e),
            ).push(entry_view(e)));
        }
        i = i + 1;
        assert(out@.map_values(|e: UnknownTestGroupError| entry_view(e)) =~= overrides@.subrange(
            0,
            i as int,
        ).filter(refs_unknown_in(known@)).map_values(|d: DeserializedOverride| unknown_entry(d)));
    }
    assert(overrides@.subrange(0, overrides@.len() as int) == overrides@);
    out
}

/// Lists, in order, the platform predicates of overrides that cannot be read.
pub fn unreadable_platforms(overrides: &Vec<DeserializedOverride>) -> (r: Vec<String>)
    ensures
        r@ == overrides@.filter(bad_platform_pred()).map_values(
            |d: DeserializedOverride| d.platform.unwrap(),
        ),
        r@.len() == 0 <==> forall|i: int|
            0 <= i < overrides@.len() ==> !bad_platform(#[trigger] overrides@[i]),
{
    let mut out: Vec<String> = Vec::new();
    let mut i: usize = 0;
    while i < overrides.len()
        invariant
            i <= overrides@.len(),
            out@ == overrides@.subrange(0, i as int).filter(bad_platform_pred()).map_values(
                |d: DeserializedOverride| d.platform.unwrap(),
            ),
            out@.len() == 0 <==> forall|k: int|
                0 <= k < i ==> !bad_platform(#[trigger] overrides@[k]),
        decreases overrides@.len() - i,
    {
        proof {
            assert(overrides@.subrange(0, i + 1) == overrides@.subrange(0, i as int).push(
                overrides@[i as int],
            ));
            overrides@.subrange(0, i as int).lemma_filter_push(
                overrides@[i as int],
                bad_platform_pred(),
            );
        }
        let ghost prev = out@;
        match &overrides[i].platform {
            Some(p) => {
                if !platform_spec_ok(p.as_str()) {
                    out.push(p.clone());
                    assert(out@ =~= prev.push(overrides@[i as int].platform.unwrap()));
                }
            },
            None => {},
        }
        i = i + 1;
        assert(out@ =~= overrides@.subrange(0, i as int).filter(bad_platform_pred()).map_values(
            |d: DeserializedOverride| d.platform.unwrap(),
        ));
    }
    assert(overrides@.subrange(0, overrides@.len() as int) == overrides@);
    out
}

impl Cascade {
    /// A cascade that no source has been added to.
    pub fn new() -> (r: Cascade)
        ensures
            r@ == empty_cascade(),
    {
        let r = Cascade {
            known: Vec::new(),
            chain: Vec::new(),
            profiles: Vec::new(),
            groups: Vec::new(),
            store_dir: None,
            unknown: Vec::new(),
        };
        assert(r@.unknown =~= Seq::empty());
        r
    }

    /// Checks one source against what came before it and, if it is accepted, adds it: its
    /// groups become known, its overrides go ahead of all earlier ones (keeping their own
    /// order), and its scalar settings are laid over the earlier ones. A refused source leaves
    /// the cascade as it was.
    pub fn add_source(&mut self, src: &ConfigSource, tool: &Option<String>) -> (r: Result<
        (),
        ConfigParseError,
    >)
        ensures
            r is Ok <==> source_ok(old(self)@.known, src.config, *tool),
            r is Ok ==> final(self)@ == step(old(self)@, *src, *tool),
            r is Err ==> final(self)@ == old(self)@,
            r matches Err(e) ==> e.config_file@ == src.config_file@ && e.tool == *tool,
            r matches Err(e) ==> refusal(old(self)@.known, src.config, *tool, e.kind),
    {
        let names = names_of(&src.config.test_groups);
        let tool_str: Option<&str> = match tool {
            Some(t) => Some(t.as_str()),
            None => None,
        };
        assert(opt_str_view(tool_str) == opt_string_view(*tool));
        let (_valid, invalid) = partition_groups(tool_str, &names);
        if invalid.len() > 0 {
            proof {
                let pred = crate::group::refused_by(opt_str_view(tool_str));
                names@.filter_lemma(pred);
                let x = invalid@[0];
                assert(names@.filter(pred).contains(x));
                names@.lemma_filter_contains_rev(pred, x);
                let j = choose|j: int| 0 <= j < names@.len() && names@[j] == x;
                assert(names@[j] == src.config.test_groups@[j].name);
                assert(!group_valid_for(opt_string_view(*tool), src.config.test_groups@[j].name@));
            }
            let kind = match tool {
                Some(_) => ConfigParseErrorKind::InvalidTestGroupsDefinedByTool(invalid),
                None => ConfigParseErrorKind::InvalidTestGroupsDefined(invalid),
            };
            return Err(
                ConfigParseError {
                    config_file: src.config_file.clone(),
                    tool: copy_opt_string(tool),
                    kind,
                },
            );
        }
        proof {
            let pred = crate::group::refused_by(opt_str_view(tool_str));
            assert forall|i: int| 0 <= i < src.config.test_groups@.len() implies group_valid_for(
                opt_string_view(*tool),
                #[trigger] src.config.test_groups@[i].name@,
            ) by {
                names@.filter_lemma(pred);
                assert(names@[i] == src.config.test_groups@[i].name);
                if !group_valid_for(opt_string_view(*tool), names@[i]@) {
                    assert(names@.filter(pred).contains(names@[i]));
                }
            }
        }
        let bad = unreadable_platforms(&src.config.overrides);
        if bad.len() > 0 {
            return Err(
                ConfigParseError {
                    config_file: src.config_file.clone(),
                    tool: copy_opt_string(tool),
                    kind: ConfigParseErrorKind::InvalidPlatformSpecs(bad),
                },
            );
        }
        let mut known = copy_strings(&self.known);
        let mut more = copy_strings(&names);
        known.append(&mut more);
        let errors = unknown_group_refs(&src.config.overrides, &known);
        if errors.len() > 0 {
            return Err(
                ConfigParseError {
                    config_file: src.config_file.clone(),
                    tool: copy_opt_string(tool),
                    kind: ConfigParseErrorKind::UnknownTestGroups {
                        errors,
                        known_groups: all_groups_of(&known),
                    },
                },
            );
        }
        self.known = known;
        let mut chain = compile_all(&src.config.overrides);
        chain.append(&mut self.chain);
        self.chain = chain;
        let mut profiles = copy_profiles(&src.config.profiles);
        self.profiles.append(&mut profiles);
        let mut groups = copy_groups(&src.config.test_groups);
        self.groups.append(&mut groups);
        match &src.config.store_dir {
            Some(d) => {
                self.store_dir = Some(d.clone());
            },
            None => {},
        }
        if src.config.unknown_keys.len() > 0 {
            let report = UnknownKeys {
                config_file: src.config_file.clone(),
                tool: copy_opt_string(tool),
                keys: copy_strings(&src.config.unknown_keys),
            };
            let ghost prev = self.unknown@;
            self.unknown.push(report);
            assert(self.unknown@.map_values(|u: UnknownKeys| report_view(u)) =~= prev.map_values(
                |u: UnknownKeys| report_view(u),
            ).push(report_view(report)));
        }
        assert(self@.known =~= step(old(self)@, *src, *tool).known);
        Ok(())
    }
}

/// The reserved prefix of built-in profile names: `default-`.
pub open spec fn reserved_prefix() -> Seq<char> {
    seq!['d', 'e', 'f', 'a', 'u', 'l', 't', '-']
}

/// The one built-in profile in the reserved namespace: `default-miri`.
pub open spec fn miri_profile_name() -> Seq<char> {
    reserved_prefix() + seq!['m', 'i', 'r', 'i']
}

/// A profile name in the reserved namespace that names no built-in profile.
pub open spec fn is_unknown_reserved(name: Seq<char>) -> bool {
    &&& name.len() >= 8
    &&& name.subrange(0, 8) == reserved_prefix()
    &&& name != miri_profile_name()
}

pub open spec fn unknown_reserved_name() -> spec_fn(String) -> bool {
    |n: String| is_unknown_reserved(n@)
}

/// Lists, in order, the profiles a source names in the reserved `default-` namespace that are
/// not built in; they deserve a warning, not an error.
pub fn unknown_reserved_profiles(src: &SourceConfig) -> (r: Vec<String>)
    ensures
        r@ == src.profiles@.map_values(|p: NamedProfile| p.name).filter(unknown_reserved_name()),
{
    proof {
        reveal_strlit("default-");
        reveal_strlit("default-miri");
    }
    let prefix = "default-";
    let miri = "default-miri";
    assert(prefix@ =~= reserved_prefix());
    assert(miri@ =~= miri_profile_name());
    let ghost names = src.profiles@.map_values(|p: NamedProfile| p.name);
    let mut out: Vec<String> = Vec::new();
    let mut i: usize = 0;
    while i < src.profiles.len()
        invariant
            i <= src.profiles@.len(),
            names == src.profiles@.map_values(|p: NamedProfile| p.name),
            prefix@ == reserved_prefix(),
            miri@ == miri_profile_name(),
            out@ == names.subrange(0, i as int).filter(unknown_reserved_name()),
        decreases src.profiles@.len() - i,
    {
        let name = &src.profiles[i].name;
        proof {
            assert(names.subrange(0, i + 1) == names.subrange(0, i as int).push(names[i as int]));
            names.subrange(0, i as int).lemma_filter_push(names[i as int], unknown_reserved_name());
        }
        let flagged = crate::group::str_starts_with(name.as_str(), prefix) && !str_equal(
            name.as_str(),
            miri,
        );
        assert(flagged == unknown_reserved_name()(names[i as int]));
        if flagged {
            out.push(name.clone());
        }
        i = i + 1;
    }
    assert(names.subrange(0, names.len() as int) == names);
    out
}

} // verus!
