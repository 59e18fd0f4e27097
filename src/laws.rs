use vstd::prelude::*;

use crate::cascade::{compiled_all, opt_string_view, ConfigSource, ToolSource};
use crate::config::{cascade_of, default_name, for_profile, load_order, profile_chain, tool_layers};
use crate::overrides::{
    bound, chain_value, first_index, first_set, takes_part, BuildPlatforms, CompiledOverride, FinalConfig,
    PreBuildPlatform,
};
use crate::profile::or_else;
use crate::settings::{BuildPlatform, OverrideData};

verus! {

/// The overrides of the tool sources, in the order the tools are listed.
pub open spec fn tools_chain(tools: Seq<ToolSource>) -> Seq<CompiledOverride<PreBuildPlatform>>
    decreases tools.len(),
{
    if tools.len() == 0 {
        Seq::empty()
    } else {
        compiled_all(tools[0].source.config.overrides@) + tools_chain(tools.drop_first())
    }
}

proof fn lemma_tools_prefix(
    default: ConfigSource,
    tools: Seq<ToolSource>,
    workspace: ConfigSource,
    j: int,
)
    requires
        0 <= j <= tools.len(),
    ensures
        cascade_of(load_order(default, tools, workspace).subrange(0, j + 1)).chain == tools_chain(
            tools.subrange(tools.len() - j, tools.len() as int),
        ) + compiled_all(default.config.overrides@),
    decreases j,
{
    let layers = load_order(default, tools, workspace);
    let n = tools.len() as int;
    if j == 0 {
        let s1 = layers.subrange(0, 1);
        assert(s1.drop_last().len() == 0);
        assert(cascade_of(s1.drop_last()) == crate::cascade::empty_cascade());
        assert(s1.last() == layers[0]);
        assert(tools.subrange(n, n).len() == 0);
        assert(cascade_of(s1).chain =~= compiled_all(default.config.overrides@));
        assert(tools_chain(tools.subrange(n, n)) == Seq::<CompiledOverride<PreBuildPlatform>>::empty());
        assert(compiled_all(default.config.overrides@) + Seq::empty() =~= compiled_all(
            default.config.overrides@,
        ));
        assert(Seq::<CompiledOverride<PreBuildPlatform>>::empty() + compiled_all(
            default.config.overrides@,
        ) =~= compiled_all(default.config.overrides@));
    } else {
        lemma_tools_prefix(default, tools, workspace, j - 1);
        let s = layers.subrange(0, j + 1);
        assert(s.drop_last() == layers.subrange(0, j));
        assert(s.last() == layers[j]);
        assert(layers[j] == tool_layers(tools)[j - 1]);
        let t = tools[n - j];
        let sub = tools.subrange(n - j, n);
        assert(sub[0] == t);
        assert(sub.drop_first() == tools.subrange(n - j + 1, n));
        assert(tools_chain(sub) == compiled_all(t.source.config.overrides@) + tools_chain(
            tools.subrange(n - j + 1, n),
        ));
        assert(cascade_of(s).chain =~= tools_chain(sub) + compiled_all(default.config.overrides@));
    }
}

/// Overrides are assembled in precedence order: those of the workspace source first, then those
/// of each tool source in the order the tools are listed, then those of the built-in defaults;
/// within each source they keep the order in which the source declares them.
pub proof fn law_cascade_order(
    default: ConfigSource,
    tools: Seq<ToolSource>,
    workspace: ConfigSource,
)
    ensures
        cascade_of(load_order(default, tools, workspace)).chain == compiled_all(
            workspace.config.overrides@,
        ) + tools_chain(tools) + compiled_all(default.config.overrides@),
{
    let layers = load_order(default, tools, workspace);
    let n = tools.len() as int;
    lemma_tools_prefix(default, tools, workspace, n);
    assert(tools.subrange(0, n) == tools);
    assert(layers.subrange(0, n + 2) == layers);
    assert(layers.drop_last() == layers.subrange(0, n + 1));
    assert(layers.last() == (workspace, None::<String>));
    assert(cascade_of(layers).chain =~= compiled_all(workspace.config.overrides@) + (tools_chain(
        tools,
    ) + compiled_all(default.config.overrides@)));
}

proof fn lemma_first_set_prefix<T>(
    a: Seq<CompiledOverride<FinalConfig>>,
    b: Seq<CompiledOverride<FinalConfig>>,
    va: Seq<bool>,
    vb: Seq<bool>,
    side: BuildPlatform,
    get: spec_fn(OverrideData) -> Option<T>,
    k: int,
)
    requires
        va.len() == a.len(),
        0 <= k <= a.len(),
    ensures
        first_set(a + b, va + vb, side, get, k) == first_set(a, va, side, get, k),
    decreases k,
{
    if k > 0 {
        lemma_first_set_prefix(a, b, va, vb, side, get, k - 1);
        assert((a + b)[k - 1] == a[k - 1]);
        assert((va + vb)[k - 1] == va[k - 1]);
    }
}

proof fn lemma_first_set_concat<T>(
    a: Seq<CompiledOverride<FinalConfig>>,
    b: Seq<CompiledOverride<FinalConfig>>,
    va: Seq<bool>,
    vb: Seq<bool>,
    side: BuildPlatform,
    get: spec_fn(OverrideData) -> Option<T>,
    k: int,
)
    requires
        va.len() == a.len(),
        vb.len() == b.len(),
        0 <= k <= b.len(),
    ensures
        first_set(a + b, va + vb, side, get, a.len() + k) == or_else(
            first_set(a, va, side, get, a.len() as int),
            first_set(b, vb, side, get, k),
        ),
    decreases k,
{
    if k == 0 {
        lemma_first_set_prefix(a, b, va, vb, side, get, a.len() as int);
    } else {
        lemma_first_set_concat(a, b, va, vb, side, get, k - 1);
        assert((a + b)[a.len() + k - 1] == b[k - 1]);
        assert((va + vb)[a.len() + k - 1] == vb[k - 1]);
    }
}

/// In a chain made of an earlier part followed by a later part, a field is given by the
/// earlier part wherever one of its overrides takes part and sets the field; only otherwise
/// does the later part (and after it the fallback) decide.
pub proof fn law_earlier_overrides_win<T>(
    earlier: Seq<CompiledOverride<FinalConfig>>,
    later: Seq<CompiledOverride<FinalConfig>>,
    earlier_verdicts: Seq<bool>,
    later_verdicts: Seq<bool>,
    side: BuildPlatform,
    get: spec_fn(OverrideData) -> Option<T>,
    fallback: T,
)
    requires
        earlier_verdicts.len() == earlier.len(),
        later_verdicts.len() == later.len(),
    ensures
        chain_value(earlier + later, earlier_verdicts + later_verdicts, side, get, fallback) == match first_set(
            earlier,
            earlier_verdicts,
            side,
            get,
            earlier.len() as int,
        ) {
            Some(v) => v,
            None => chain_value(later, later_verdicts, side, get, fallback),
        },
{
    lemma_first_set_concat(
        earlier,
        later,
        earlier_verdicts,
        later_verdicts,
        side,
        get,
        later.len() as int,
    );
    assert((earlier + later).len() == earlier.len() + later.len());
}

/// An override that takes part and sets a field decides it when no override before it does.
pub proof fn law_first_match_decides<T>(
    chain: Seq<CompiledOverride<FinalConfig>>,
    verdicts: Seq<bool>,
    side: BuildPlatform,
    get: spec_fn(OverrideData) -> Option<T>,
    fallback: T,
    i: int,
)
    requires
        verdicts.len() == chain.len(),
        0 <= i < chain.len(),
        takes_part(chain[i], side, verdicts[i]),
        get(chain[i].data) is Some,
        forall|j: int|
            0 <= j < i ==> !(takes_part(chain[j], side, verdicts[j]) && (get(chain[j].data) is Some)),
    ensures
        chain_value(chain, verdicts, side, get, fallback) == get(chain[i].data).unwrap(),
{
    assert forall|k: int| 0 <= k <= i implies first_set(chain, verdicts, side, get, k) is None by {
        lemma_nothing_before(chain, verdicts, side, get, i, k);
    }
    assert(first_set(chain, verdicts, side, get, i) is None);
    assert(first_set(chain, verdicts, side, get, i + 1) == get(chain[i].data));
    lemma_settled(chain, verdicts, side, get, i + 1, chain.len() as int);
}

proof fn lemma_nothing_before<T>(
    chain: Seq<CompiledOverride<FinalConfig>>,
    verdicts: Seq<bool>,
    side: BuildPlatform,
    get: spec_fn(OverrideData) -> Option<T>,
    i: int,
    k: int,
)
    requires
        0 <= k <= i,
        i <= chain.len(),
        forall|j: int|
            0 <= j < i ==> !(takes_part(chain[j], side, verdicts[j]) && (get(chain[j].data) is Some)),
    ensures
        first_set(chain, verdicts, side, get, k) is None,
    decreases k,
{
    if k > 0 {
        lemma_nothing_before(chain, verdicts, side, get, i, k - 1);
    }
}

proof fn lemma_settled<T>(
    chain: Seq<CompiledOverride<FinalConfig>>,
    verdicts: Seq<bool>,
    side: BuildPlatform,
    get: spec_fn(OverrideData) -> Option<T>,
    k: int,
    m: int,
)
    requires
        1 <= k <= m,
        first_set(chain, verdicts, side, get, k) is Some,
    ensures
        first_set(chain, verdicts, side, get, m) == first_set(chain, verdicts, side, get, k),
    decreases m - k,
{
    if m > k {
        lemma_settled(chain, verdicts, side, get, k, m - 1);
    }
}

/// One report for each source that holds unknown keys, in load order: its file, its tool and
/// its keys.
pub open spec fn expected_reports(layers: Seq<(ConfigSource, Option<String>)>) -> Seq<
    (Seq<char>, Option<Seq<char>>, Seq<String>),
>
    decreases layers.len(),
{
    if layers.len() == 0 {
        Seq::empty()
    } else {
        let prev = expected_reports(layers.drop_last());
        let (src, tool) = layers.last();
        if src.config.unknown_keys@.len() == 0 {
            prev
        } else {
            prev.push((src.config_file@, opt_string_view(tool), src.config.unknown_keys@))
        }
    }
}

/// Unknown keys are reported per source, each report carrying the file and tool of the source
/// that holds the keys, and no report for a source without unknown keys.
pub proof fn law_unknown_keys_attributed(layers: Seq<(ConfigSource, Option<String>)>)
    ensures
        cascade_of(layers).unknown == expected_reports(layers),
    decreases layers.len(),
{
    if layers.len() > 0 {
        law_unknown_keys_attributed(layers.drop_last());
    }
}

/// Binding is a function of the platform identity: binding the same overrides against two
/// descriptions of the same host and target triples gives the same result.
pub proof fn law_binding_deterministic(
    overrides: Seq<CompiledOverride<PreBuildPlatform>>,
    a: BuildPlatforms,
    b: BuildPlatforms,
)
    requires
        a.host@ == b.host@,
        a.target_triple() == b.target_triple(),
    ensures
        overrides.map_values(|o: CompiledOverride<PreBuildPlatform>| bound(o, a)) == overrides.map_values(
            |o: CompiledOverride<PreBuildPlatform>| bound(o, b),
        ),
{
    assert(overrides.map_values(|o: CompiledOverride<PreBuildPlatform>| bound(o, a)) =~= overrides.map_values(
        |o: CompiledOverride<PreBuildPlatform>| bound(o, b),
    ));
}

/// The override named as the source of a field is the one whose value the field takes.
pub proof fn law_source_supplies_value<T>(
    chain: Seq<CompiledOverride<FinalConfig>>,
    verdicts: Seq<bool>,
    side: BuildPlatform,
    get: spec_fn(OverrideData) -> Option<T>,
    n: int,
)
    requires
        verdicts.len() == chain.len(),
        0 <= n <= chain.len(),
    ensures
        first_set(chain, verdicts, side, get, n) == match first_index(chain, verdicts, side, get, n) {
            Some(i) => get(chain[i].data),
            None => None,
        },
        first_index(chain, verdicts, side, get, n) matches Some(i) ==> 0 <= i < n && get(
            chain[i].data,
        ) is Some,
    decreases n,
{
    if n > 0 {
        law_source_supplies_value(chain, verdicts, side, get, n - 1);
    }
}

/// Binding distributes over a chain made of two parts.
proof fn lemma_bind_concat(
    a: Seq<CompiledOverride<PreBuildPlatform>>,
    b: Seq<CompiledOverride<PreBuildPlatform>>,
    platforms: BuildPlatforms,
)
    ensures
        (a + b).map_values(|o: CompiledOverride<PreBuildPlatform>| bound(o, platforms)) == a.map_values(
            |o: CompiledOverride<PreBuildPlatform>| bound(o, platforms),
        ) + b.map_values(|o: CompiledOverride<PreBuildPlatform>| bound(o, platforms)),
{
    assert((a + b).map_values(|o: CompiledOverride<PreBuildPlatform>| bound(o, platforms)) =~= a.map_values(
        |o: CompiledOverride<PreBuildPlatform>| bound(o, platforms),
    ) + b.map_values(|o: CompiledOverride<PreBuildPlatform>| bound(o, platforms)));
}

/// The default profile, once bound, sees the workspace source's overrides ahead of those of
/// every tool source and of the built-in defaults, and the overrides of each tool source ahead
/// of those of the tools listed after it: with the earlier-wins law, a field that an override of
/// a higher-priority source supplies to a test is the one resolved.
pub proof fn law_source_precedence(
    default: ConfigSource,
    tools: Seq<ToolSource>,
    workspace: ConfigSource,
    platforms: BuildPlatforms,
)
    ensures
        profile_chain(cascade_of(load_order(default, tools, workspace)).chain, default_name()).map_values(
            |o: CompiledOverride<PreBuildPlatform>| bound(o, platforms),
        ) == compiled_all(workspace.config.overrides@).filter(for_profile(default_name())).map_values(
            |o: CompiledOverride<PreBuildPlatform>| bound(o, platforms),
        ) + (tools_chain(tools) + compiled_all(default.config.overrides@)).filter(
            for_profile(default_name()),
        ).map_values(|o: CompiledOverride<PreBuildPlatform>| bound(o, platforms)),
        tools.len() > 0 ==> tools_chain(tools) == compiled_all(tools[0].source.config.overrides@)
            + tools_chain(tools.drop_first()),
{
    law_cascade_order(default, tools, workspace);
    let w = compiled_all(workspace.config.overrides@);
    let rest = tools_chain(tools) + compiled_all(default.config.overrides@);
    assert(w + tools_chain(tools) + compiled_all(default.config.overrides@) == w + rest);
    let all = cascade_of(load_order(default, tools, workspace)).chain;
    let pred = for_profile(default_name());
    Seq::filter_distributes_over_add(w, rest, pred);
    assert(profile_chain(all, default_name()) =~= all.filter(pred));
    lemma_bind_concat(w.filter(pred), rest.filter(pred), platforms);
}

/// The default profile's chain once bound, as `profile` and `apply_build_platforms` give it for
/// a configuration loaded from these sources.
pub open spec fn bound_default_chain(
    default: ConfigSource,
    tools: Seq<ToolSource>,
    workspace: ConfigSource,
    platforms: BuildPlatforms,
) -> Seq<CompiledOverride<FinalConfig>> {
    profile_chain(cascade_of(load_order(default, tools, workspace)).chain, default_name()).map_values(
        |o: CompiledOverride<PreBuildPlatform>| bound(o, platforms),
    )
}

/// The workspace source's overrides of the default profile, bound.
pub open spec fn bound_workspace_part(
    workspace: ConfigSource,
    platforms: BuildPlatforms,
) -> Seq<CompiledOverride<FinalConfig>> {
    compiled_all(workspace.config.overrides@).filter(for_profile(default_name())).map_values(
        |o: CompiledOverride<PreBuildPlatform>| bound(o, platforms),
    )
}

/// Whatever the tool sources declare: when an override of the workspace source takes part in
/// resolving a test and sets a field, the default profile resolves that field to the value of the
/// first such workspace override, ahead of every tool override and the profile's own value.
pub proof fn law_workspace_override_wins<T>(
    default: ConfigSource,
    tools: Seq<ToolSource>,
    workspace: ConfigSource,
    platforms: BuildPlatforms,
    verdicts: Seq<bool>,
    side: BuildPlatform,
    get: spec_fn(OverrideData) -> Option<T>,
    fallback: T,
)
    requires
        verdicts.len() == bound_default_chain(default, tools, workspace, platforms).len(),
        first_set(
            bound_workspace_part(workspace, platforms),
            verdicts.subrange(0, bound_workspace_part(workspace, platforms).len() as int),
            side,
            get,
            bound_workspace_part(workspace, platforms).len() as int,
        ) is Some,
    ensures
        chain_value(bound_default_chain(default, tools, workspace, platforms), verdicts, side, get, fallback)
            == first_set(
            bound_workspace_part(workspace, platforms),
            verdicts.subrange(0, bound_workspace_part(workspace, platforms).len() as int),
            side,
            get,
            bound_workspace_part(workspace, platforms).len() as int,
        ).unwrap(),
{
    law_source_precedence(default, tools, workspace, platforms);
    let w = bound_workspace_part(workspace, platforms);
    let chain = bound_default_chain(default, tools, workspace, platforms);
    let rest = chain.subrange(w.len() as int, chain.len() as int);
    assert(chain == w + rest);
    let vw = verdicts.subrange(0, w.len() as int);
    let vr = verdicts.subrange(w.len() as int, verdicts.len() as int);
    assert(verdicts == vw + vr);
    law_earlier_overrides_win(w, rest, vw, vr, side, get, fallback);
}

} // verus!
