use nextest_config::{
    default_config_source, empty_source, BuildPlatform, BuildPlatforms, ConfigParseErrorKind,
    ConfigSource, CustomProfile, DeserializedOverride, FinalStatusLevel, GroupDecl, JunitSettings,
    MissingField, NamedProfile, NextestConfig, OverrideData, RetryPolicy, SlowTimeout,
    SourceConfig, StatusLevel, TestGroup, TestGroupConfig, TestThreads, ThreadsRequired,
    ToolSource,
};

fn fixed(count: u32) -> RetryPolicy {
    RetryPolicy::Fixed { count, delay_ms: 0, jitter: false }
}

fn unset() -> CustomProfile {
    CustomProfile {
        retries: None,
        test_threads: None,
        threads_required: None,
        status_level: None,
        final_status_level: None,
        failure_output: None,
        success_output: None,
        fail_fast: None,
        slow_timeout: None,
        leak_timeout_ms: None,
        junit: JunitSettings {
            path: None,
            report_name: None,
            store_success_output: None,
            store_failure_output: None,
        },
    }
}

fn with_retries(count: u32) -> CustomProfile {
    let mut p = unset();
    p.retries = Some(fixed(count));
    p
}

fn data() -> OverrideData {
    OverrideData {
        retries: None,
        threads_required: None,
        test_group: None,
        slow_timeout: None,
        leak_timeout_ms: None,
    }
}

fn retries_override(profile: &str, filter: &str, count: u32) -> DeserializedOverride {
    let mut d = data();
    d.retries = Some(fixed(count));
    DeserializedOverride {
        profile: profile.to_owned(),
        filter: Some(filter.to_owned()),
        platform: None,
        data: d,
    }
}

fn group_override(profile: &str, filter: &str, group: &str) -> DeserializedOverride {
    let mut d = data();
    d.test_group = Some(TestGroup::Custom(group.to_owned()));
    DeserializedOverride {
        profile: profile.to_owned(),
        filter: Some(filter.to_owned()),
        platform: None,
        data: d,
    }
}

fn source(file: &str) -> SourceConfig {
    empty_source(file).config
}

fn config_source(file: &str, config: SourceConfig) -> ConfigSource {
    ConfigSource { config_file: file.to_owned(), config }
}

fn tool(name: &str, file: &str, config: SourceConfig) -> ToolSource {
    ToolSource { tool: name.to_owned(), source: config_source(file, config) }
}

fn named(name: &str, settings: CustomProfile) -> NamedProfile {
    NamedProfile { name: name.to_owned(), settings }
}

fn group(name: &str) -> GroupDecl {
    GroupDecl { name: name.to_owned(), config: TestGroupConfig { max_threads: TestThreads::Count(1) } }
}

fn platforms() -> BuildPlatforms {
    BuildPlatforms { host: "x86_64-unknown-linux-gnu".to_owned(), target: None }
}

fn load(tools: Vec<ToolSource>, workspace: SourceConfig) -> NextestConfig {
    let ws = config_source(".config/nextest.toml", workspace);
    NextestConfig::from_sources("/ws", &default_config_source(), &tools, &ws)
        .expect("config is valid")
        .0
}

fn retries_of(config: &NextestConfig, profile: &str, verdicts: &[bool]) -> RetryPolicy {
    let p = config.profile(profile).expect("profile exists").apply_build_platforms(&platforms());
    p.settings_for(BuildPlatform::Target, &verdicts.to_vec()).retries
}

#[test]
fn default_config_is_valid() {
    let default_config = NextestConfig::default_config("foo");
    default_config.profile("default").expect("default profile should exist");
}

#[test]
fn ignored_keys() {
    let mut ws = source(".config/nextest.toml");
    ws.profiles.push(named("default", with_retries(3)));
    ws.overrides.push(retries_override("default", "test(test_foo)", 20));
    ws.unknown_keys = vec![
        "ignored1".to_owned(),
        "profile.default.ignored2".to_owned(),
        "profile.default.overrides.0.ignored3".to_owned(),
    ];

    let mut tool_config = source(".config/tool.toml");
    tool_config.profiles.push(named("default", with_retries(4)));
    tool_config.profiles.push(named("tool", with_retries(12)));
    tool_config.overrides.push(retries_override("tool", "test(test_baz)", 22));
    tool_config.unknown_keys = vec![
        "store.ignored4".to_owned(),
        "profile.default.ignored5".to_owned(),
        "profile.tool.overrides.0.ignored6".to_owned(),
    ];

    let tools = vec![tool("my-tool", ".config/tool.toml", tool_config)];
    let ws = config_source(".config/nextest.toml", ws);
    let (_, unknown) = NextestConfig::from_sources("/ws", &default_config_source(), &tools, &ws)
        .expect("config is valid");

    assert_eq!(unknown.len(), 2, "there are two files with unknown keys");

    let ws_report = unknown.iter().find(|u| u.tool.is_none()).expect("unknown keys for .config/nextest.toml");
    assert_eq!(ws_report.config_file, ".config/nextest.toml");
    assert_eq!(
        ws_report.keys,
        vec![
            "ignored1".to_owned(),
            "profile.default.ignored2".to_owned(),
            "profile.default.overrides.0.ignored3".to_owned(),
        ]
    );

    let tool_report = unknown
        .iter()
        .find(|u| u.tool.as_deref() == Some("my-tool"))
        .expect("unknown keys for my-tool");
    assert_eq!(tool_report.config_file, ".config/tool.toml");
    assert_eq!(
        tool_report.keys,
        vec![
            "store.ignored4".to_owned(),
            "profile.default.ignored5".to_owned(),
            "profile.tool.overrides.0.ignored6".to_owned(),
        ]
    );
}

#[test]
fn no_report_for_sources_without_unknown_keys() {
    let tools = vec![tool("my-tool", ".config/tool.toml", source(".config/tool.toml"))];
    let ws = config_source(".config/nextest.toml", source(".config/nextest.toml"));
    let (_, unknown) =
        NextestConfig::from_sources("/ws", &default_config_source(), &tools, &ws).unwrap();
    assert!(unknown.is_empty());
}

#[test]
fn workspace_override_applies_to_matching_test_only() {
    let mut ws = source(".config/nextest.toml");
    ws.profiles.push(named("default", with_retries(3)));
    ws.overrides.push(retries_override("default", "test(test_foo)", 20));
    let config = load(vec![], ws);
    // test_foo matches the filter, test_bar does not.
    assert_eq!(retries_of(&config, "default", &[true]), fixed(20));
    assert_eq!(retries_of(&config, "default", &[false]), fixed(3));
}

#[test]
fn tool_value_fills_gap_left_by_workspace() {
    let mut tool_config = source(".config/tool.toml");
    tool_config.profiles.push(named("default", with_retries(4)));
    let mut ws = source(".config/nextest.toml");
    ws.profiles.push(named("default", unset()));
    let config = load(vec![tool("my-tool", ".config/tool.toml", tool_config)], ws);
    let p = config.profile("default").unwrap().apply_build_platforms(&platforms());
    assert_eq!(p.retries(), fixed(4));
}

#[test]
fn workspace_value_beats_tool_value() {
    let mut tool_config = source(".config/tool.toml");
    tool_config.profiles.push(named("default", with_retries(4)));
    let mut ws = source(".config/nextest.toml");
    ws.profiles.push(named("default", with_retries(7)));
    let config = load(vec![tool("my-tool", ".config/tool.toml", tool_config)], ws);
    let p = config.profile("default").unwrap().apply_build_platforms(&platforms());
    assert_eq!(p.retries(), fixed(7));
}

fn precedence_config(with_ws: bool, with_t1: bool, with_t2: bool) -> NextestConfig {
    let mut t1 = source("t1.toml");
    if with_t1 {
        t1.overrides.push(retries_override("default", "all()", 11));
    }
    let mut t2 = source("t2.toml");
    if with_t2 {
        t2.overrides.push(retries_override("default", "all()", 12));
    }
    let mut ws = source(".config/nextest.toml");
    if with_ws {
        ws.overrides.push(retries_override("default", "all()", 10));
    }
    load(vec![tool("t1", "t1.toml", t1), tool("t2", "t2.toml", t2)], ws)
}

#[test]
fn precedence_across_sources() {
    let c = precedence_config(true, true, true);
    assert_eq!(retries_of(&c, "default", &[true, true, true]), fixed(10));
    let c = precedence_config(false, true, true);
    assert_eq!(retries_of(&c, "default", &[true, true]), fixed(11));
    let c = precedence_config(false, false, true);
    assert_eq!(retries_of(&c, "default", &[true]), fixed(12));
    let c = precedence_config(true, true, true);
    assert_eq!(retries_of(&c, "default", &[false, false, false]), fixed(0));
}

#[test]
fn cascade_order_is_workspace_then_tools_in_listed_order() {
    let c = precedence_config(true, true, true);
    let filters: Vec<_> = c.overrides.iter().map(|o| o.data.retries).collect();
    assert_eq!(filters, vec![Some(fixed(10)), Some(fixed(11)), Some(fixed(12))]);
}

#[test]
fn earlier_override_in_same_source_wins() {
    let mut ws = source(".config/nextest.toml");
    ws.overrides.push(retries_override("default", "test(a)", 1));
    ws.overrides.push(retries_override("default", "test(b)", 2));
    let config = load(vec![], ws);
    assert_eq!(retries_of(&config, "default", &[true, true]), fixed(1));
    assert_eq!(retries_of(&config, "default", &[false, true]), fixed(2));
}

#[test]
fn fields_resolve_independently() {
    let mut ws = source(".config/nextest.toml");
    let mut d = data();
    d.threads_required = Some(ThreadsRequired::Count(4));
    ws.overrides.push(DeserializedOverride {
        profile: "default".to_owned(),
        filter: Some("test(a)".to_owned()),
        platform: None,
        data: d,
    });
    ws.overrides.push(retries_override("default", "test(a)", 5));
    let config = load(vec![], ws);
    let p = config.profile("default").unwrap().apply_build_platforms(&platforms());
    let s = p.settings_for(BuildPlatform::Target, &vec![true, true]);
    assert_eq!(s.threads_required, ThreadsRequired::Count(4));
    assert_eq!(s.retries, fixed(5));
    assert_eq!(s.slow_timeout, SlowTimeout { period_ms: 60000, terminate_after: None });
    assert_eq!(s.leak_timeout_ms, 100);
    assert!(matches!(s.test_group, TestGroup::Global));
}

#[test]
fn profile_overrides_come_before_default_overrides() {
    let mut ws = source(".config/nextest.toml");
    ws.profiles.push(named("ci", with_retries(2)));
    ws.overrides.push(retries_override("default", "all()", 8));
    ws.overrides.push(retries_override("ci", "all()", 9));
    let config = load(vec![], ws);
    assert_eq!(retries_of(&config, "ci", &[true, true]), fixed(9));
    assert_eq!(retries_of(&config, "ci", &[false, true]), fixed(8));
    assert_eq!(retries_of(&config, "ci", &[false, false]), fixed(2));
    assert_eq!(retries_of(&config, "default", &[true]), fixed(8));
}

#[test]
fn tool_group_without_prefix_is_rejected() {
    let mut t = source("t.toml");
    t.test_groups.push(group("serial"));
    let tools = vec![tool("my-tool", "t.toml", t)];
    let ws = config_source(".config/nextest.toml", source(".config/nextest.toml"));
    let err = NextestConfig::from_sources("/ws", &default_config_source(), &tools, &ws).unwrap_err();
    assert_eq!(err.config_file, "t.toml");
    assert_eq!(err.tool.as_deref(), Some("my-tool"));
    match err.kind {
        ConfigParseErrorKind::InvalidTestGroupsDefinedByTool(g) => assert_eq!(g, vec!["serial".to_owned()]),
        other => panic!("unexpected error {:?}", other),
    }
}

#[test]
fn tool_group_of_another_tool_is_rejected() {
    let mut t = source("t.toml");
    t.test_groups.push(group("@tool:other-tool:serial"));
    t.test_groups.push(group("@tool:my-tool:ok"));
    let tools = vec![tool("my-tool", "t.toml", t)];
    let ws = config_source(".config/nextest.toml", source(".config/nextest.toml"));
    let err = NextestConfig::from_sources("/ws", &default_config_source(), &tools, &ws).unwrap_err();
    match err.kind {
        ConfigParseErrorKind::InvalidTestGroupsDefinedByTool(g) => {
            assert_eq!(g, vec!["@tool:other-tool:serial".to_owned()])
        }
        other => panic!("unexpected error {:?}", other),
    }
}

#[test]
fn workspace_tool_group_is_rejected() {
    let mut ws = source(".config/nextest.toml");
    ws.test_groups.push(group("@tool:my-tool:serial"));
    ws.test_groups.push(group("plain"));
    let ws = config_source(".config/nextest.toml", ws);
    let err = NextestConfig::from_sources("/ws", &default_config_source(), &vec![], &ws).unwrap_err();
    assert_eq!(err.config_file, ".config/nextest.toml");
    assert!(err.tool.is_none());
    match err.kind {
        ConfigParseErrorKind::InvalidTestGroupsDefined(g) => {
            assert_eq!(g, vec!["@tool:my-tool:serial".to_owned()])
        }
        other => panic!("unexpected error {:?}", other),
    }
}

#[test]
fn namespaced_tool_group_is_accepted_and_usable_by_workspace() {
    let mut t = source("t.toml");
    t.test_groups.push(group("@tool:my-tool:serial"));
    let mut ws = source(".config/nextest.toml");
    ws.test_groups.push(group("plain"));
    ws.overrides.push(group_override("default", "test(a)", "@tool:my-tool:serial"));
    ws.overrides.push(group_override("default", "test(b)", "plain"));
    let config = load(vec![tool("my-tool", "t.toml", t)], ws);
    assert_eq!(config.test_groups.len(), 2);
    let p = config.profile("default").unwrap().apply_build_platforms(&platforms());
    let s = p.settings_for(BuildPlatform::Target, &vec![true, false]);
    match s.test_group {
        TestGroup::Custom(name) => assert_eq!(name, "@tool:my-tool:serial"),
        TestGroup::Global => panic!("expected a custom group"),
    }
}

#[test]
fn unknown_groups_are_all_reported() {
    let mut ws = source(".config/nextest.toml");
    ws.test_groups.push(group("known"));
    ws.profiles.push(named("ci", unset()));
    ws.overrides.push(group_override("default", "test(a)", "missing1"));
    ws.overrides.push(group_override("default", "test(b)", "known"));
    ws.overrides.push(group_override("ci", "test(c)", "missing2"));
    let ws = config_source(".config/nextest.toml", ws);
    let err = NextestConfig::from_sources("/ws", &default_config_source(), &vec![], &ws).unwrap_err();
    match err.kind {
        ConfigParseErrorKind::UnknownTestGroups { errors, known_groups } => {
            assert_eq!(known_groups.len(), 2);
            assert!(matches!(&known_groups[0], TestGroup::Global));
            assert!(matches!(&known_groups[1], TestGroup::Custom(n) if n == "known"));
            assert_eq!(errors.len(), 2);
            assert_eq!(errors[0].profile_name, "default");
            assert!(matches!(&errors[0].name, TestGroup::Custom(n) if n == "missing1"));
            assert_eq!(errors[1].profile_name, "ci");
            assert!(matches!(&errors[1].name, TestGroup::Custom(n) if n == "missing2"));
        }
        other => panic!("unexpected error {:?}", other),
    }
}

#[test]
fn workspace_group_is_not_visible_to_earlier_tool() {
    let mut t = source("t.toml");
    t.overrides.push(group_override("default", "all()", "plain"));
    let mut ws = source(".config/nextest.toml");
    ws.test_groups.push(group("plain"));
    let tools = vec![tool("my-tool", "t.toml", t)];
    let ws = config_source(".config/nextest.toml", ws);
    let err = NextestConfig::from_sources("/ws", &default_config_source(), &tools, &ws).unwrap_err();
    assert_eq!(err.tool.as_deref(), Some("my-tool"));
    assert!(matches!(err.kind, ConfigParseErrorKind::UnknownTestGroups { .. }));
}

#[test]
fn binding_twice_gives_same_result() {
    let mut ws = source(".config/nextest.toml");
    let mut o = retries_override("default", "all()", 6);
    o.platform = Some("aarch64-apple-darwin".to_owned());
    ws.overrides.push(o);
    ws.overrides.push(retries_override("default", "all()", 1));
    let config = load(vec![], ws);
    let bp = BuildPlatforms {
        host: "x86_64-unknown-linux-gnu".to_owned(),
        target: Some("aarch64-apple-darwin".to_owned()),
    };
    let a = config.profile("default").unwrap().apply_build_platforms(&bp);
    let b = config.profile("default").unwrap().apply_build_platforms(&bp);
    let sa: Vec<_> = a.overrides.iter().map(|o| (o.state.host_eval, o.state.target_eval)).collect();
    let sb: Vec<_> = b.overrides.iter().map(|o| (o.state.host_eval, o.state.target_eval)).collect();
    assert_eq!(sa, sb);
    assert_eq!(sa, vec![(false, true), (true, true)]);
    // The platform-bound override applies to target binaries only.
    assert_eq!(a.settings_for(BuildPlatform::Target, &vec![true, true]).retries, fixed(6));
    assert_eq!(a.settings_for(BuildPlatform::Host, &vec![true, true]).retries, fixed(1));
}

#[test]
fn missing_profile_lists_known_profiles() {
    let mut ws = source(".config/nextest.toml");
    ws.profiles.push(named("ci", unset()));
    let config = load(vec![], ws);
    let err = config.profile("nope").unwrap_err();
    assert_eq!(err.profile, "nope");
    assert_eq!(err.all_profiles, vec!["default".to_owned(), "ci".to_owned()]);
}

#[test]
fn custom_profile_falls_back_on_default() {
    let mut ci = unset();
    ci.status_level = Some(StatusLevel::All);
    ci.fail_fast = Some(false);
    let mut ws = source(".config/nextest.toml");
    ws.profiles.push(named("ci", ci));
    let config = load(vec![], ws);
    let p = config.profile("ci").unwrap().apply_build_platforms(&platforms());
    assert_eq!(p.status_level(), StatusLevel::All);
    assert!(!p.fail_fast());
    assert_eq!(p.final_status_level(), FinalStatusLevel::Flaky);
    assert_eq!(p.retries(), fixed(0));
    assert_eq!(p.test_threads(), TestThreads::NumCpus);
    assert_eq!(p.threads_required(), ThreadsRequired::Count(1));
    assert_eq!(p.leak_timeout(), 100);
}

#[test]
fn store_dir_joins_root_store_and_profile() {
    let config = NextestConfig::default_config("/ws");
    let p = config.profile("default").unwrap();
    assert_eq!(p.store_dir(), "/ws/target/nextest/default");
}

#[test]
fn junit_is_off_without_a_path() {
    let config = NextestConfig::default_config("/ws");
    let p = config.profile("default").unwrap().apply_build_platforms(&platforms());
    assert!(p.junit().is_none());
}

#[test]
fn junit_path_is_under_the_store_dir() {
    let mut ci = unset();
    ci.junit.path = Some("junit.xml".to_owned());
    ci.junit.store_success_output = Some(true);
    let mut ws = source(".config/nextest.toml");
    ws.profiles.push(named("ci", ci));
    let config = load(vec![], ws);
    let p = config.profile("ci").unwrap().apply_build_platforms(&platforms());
    let j = p.junit().expect("junit is configured");
    assert_eq!(j.path(), "/ws/target/nextest/ci/junit.xml");
    assert_eq!(j.report_name(), "nextest-run");
    assert!(j.store_success_output());
    assert!(j.store_failure_output());
}

#[test]
fn incomplete_default_profile_is_an_error() {
    let mut base = default_config_source();
    base.config.profiles[0].settings.fail_fast = None;
    let ws = config_source(".config/nextest.toml", source(".config/nextest.toml"));
    let err = NextestConfig::from_sources("/ws", &base, &vec![], &ws).unwrap_err();
    assert!(matches!(err.kind, ConfigParseErrorKind::IncompleteDefaultProfile(MissingField::FailFast)));
}

#[test]
fn missing_store_dir_is_an_error() {
    let mut base = default_config_source();
    base.config.store_dir = None;
    let ws = config_source(".config/nextest.toml", source(".config/nextest.toml"));
    let err = NextestConfig::from_sources("/ws", &base, &vec![], &ws).unwrap_err();
    assert!(matches!(err.kind, ConfigParseErrorKind::MissingStoreDir));
}

#[test]
fn missing_default_profile_is_an_error() {
    let mut base = default_config_source();
    base.config.profiles.clear();
    let ws = config_source(".config/nextest.toml", source(".config/nextest.toml"));
    let err = NextestConfig::from_sources("/ws", &base, &vec![], &ws).unwrap_err();
    assert!(matches!(err.kind, ConfigParseErrorKind::MissingDefaultProfile));
}

#[test]
fn tool_name_is_the_first_component() {
    assert_eq!(nextest_config::group::tool_name("@tool:my-tool:serial"), Some("my-tool"));
    assert_eq!(nextest_config::group::tool_name("@tool:my-tool"), None);
    assert_eq!(nextest_config::group::tool_name("serial"), None);
    assert!(nextest_config::group::is_tool_ident("@tool:x:y"));
    assert!(!nextest_config::group::is_tool_ident("tool:x:y"));
}

#[test]
fn reserved_profile_names_are_flagged() {
    let mut ws = source(".config/nextest.toml");
    ws.profiles.push(named("default", unset()));
    ws.profiles.push(named("default-miri", unset()));
    ws.profiles.push(named("default-foo", unset()));
    ws.profiles.push(named("ci", unset()));
    ws.profiles.push(named("default-", unset()));
    assert_eq!(
        nextest_config::unknown_reserved_profiles(&ws),
        vec!["default-foo".to_owned(), "default-".to_owned()]
    );
}

#[test]
fn cpu_count_falls_back_to_one() {
    assert_eq!(nextest_config::num_cpus_or_one(None), 1);
    assert_eq!(nextest_config::num_cpus_or_one(Some(0)), 1);
    assert_eq!(nextest_config::num_cpus_or_one(Some(8)), 8);
}

#[test]
fn cfg_platform_predicates_are_evaluated_per_side() {
    let mut ws = source(".config/nextest.toml");
    let mut o = retries_override("default", "all()", 9);
    o.platform = Some("cfg(windows)".to_owned());
    ws.overrides.push(o);
    let config = load(vec![], ws);
    let bp = BuildPlatforms {
        host: "x86_64-unknown-linux-gnu".to_owned(),
        target: Some("x86_64-pc-windows-msvc".to_owned()),
    };
    let p = config.profile("default").unwrap().apply_build_platforms(&bp);
    assert!(!p.overrides[0].state.host_eval);
    assert!(p.overrides[0].state.target_eval);
    assert_eq!(p.settings_for(BuildPlatform::Target, &vec![true]).retries, fixed(9));
    assert_eq!(p.settings_for(BuildPlatform::Host, &vec![true]).retries, fixed(0));
}

#[test]
fn setting_sources_name_override_profile_or_default() {
    let mut ci = unset();
    ci.slow_timeout = Some(SlowTimeout { period_ms: 5000, terminate_after: Some(2) });
    let mut ws = source(".config/nextest.toml");
    ws.profiles.push(named("ci", ci));
    ws.overrides.push(retries_override("ci", "test(a)", 1));
    ws.overrides.push(retries_override("default", "test(b)", 2));
    let config = load(vec![], ws);
    let p = config.profile("ci").unwrap().apply_build_platforms(&platforms());
    let s = p.setting_sources_for(BuildPlatform::Target, &vec![false, true]);
    assert_eq!(s.retries, nextest_config::SettingSource::Override(1));
    assert_eq!(s.slow_timeout, nextest_config::SettingSource::Profile);
    assert_eq!(s.leak_timeout, nextest_config::SettingSource::Default);
    assert_eq!(s.test_group, nextest_config::SettingSource::Default);
    let settings = p.settings_for(BuildPlatform::Target, &vec![false, true]);
    assert_eq!(settings.retries, fixed(2));
    assert_eq!(settings.slow_timeout, SlowTimeout { period_ms: 5000, terminate_after: Some(2) });
}

#[test]
fn later_group_declaration_wins() {
    let mut t = source("t.toml");
    t.test_groups.push(group("@tool:my-tool:serial"));
    let mut ws = source(".config/nextest.toml");
    ws.test_groups.push(GroupDecl {
        name: "plain".to_owned(),
        config: TestGroupConfig { max_threads: TestThreads::Count(4) },
    });
    let config = load(vec![tool("my-tool", "t.toml", t)], ws);
    let p = config.profile("default").unwrap();
    assert_eq!(p.group_config("plain"), Some(TestGroupConfig { max_threads: TestThreads::Count(4) }));
    assert_eq!(
        p.group_config("@tool:my-tool:serial"),
        Some(TestGroupConfig { max_threads: TestThreads::Count(1) })
    );
    assert_eq!(p.group_config("other"), None);
}

#[test]
fn junit_path_falls_back_on_default_profile() {
    let mut default = unset();
    default.junit.path = Some("report.xml".to_owned());
    let mut ci = unset();
    ci.junit.report_name = Some("ci-run".to_owned());
    let mut ws = source(".config/nextest.toml");
    ws.profiles.push(named("default", default));
    ws.profiles.push(named("ci", ci));
    let config = load(vec![], ws);
    let p = config.profile("ci").unwrap().apply_build_platforms(&platforms());
    let j = p.junit().expect("the default profile's report path applies");
    assert_eq!(j.path(), "/ws/target/nextest/ci/report.xml");
    assert_eq!(j.report_name(), "ci-run");
    assert!(!j.store_success_output());
}

#[test]
fn default_config_holds_builtin_values() {
    let config = NextestConfig::default_config("/ws");
    assert_eq!(config.store_dir, "target/nextest");
    assert!(config.test_groups.is_empty());
    assert_eq!(config.profiles.len(), 1);
    assert_eq!(config.profiles[0].name, "default");
    let d = &config.default_profile;
    assert_eq!(d.retries, fixed(0));
    assert_eq!(d.test_threads, TestThreads::NumCpus);
    assert_eq!(d.slow_timeout, SlowTimeout { period_ms: 60000, terminate_after: None });
    assert_eq!(d.leak_timeout_ms, 100);
    assert_eq!(d.junit.report_name, "nextest-run");
    assert!(d.junit.path.is_none());
}

#[test]
fn profile_error_lists_each_name_once() {
    let mut t = source("t.toml");
    t.profiles.push(named("ci", unset()));
    let mut ws = source(".config/nextest.toml");
    ws.profiles.push(named("ci", unset()));
    ws.profiles.push(named("default", unset()));
    let config = load(vec![tool("my-tool", "t.toml", t)], ws);
    let err = config.profile("missing").unwrap_err();
    assert_eq!(err.all_profiles, vec!["default".to_owned(), "ci".to_owned()]);
}

#[test]
fn unreadable_platform_predicate_is_rejected_at_load() {
    let mut ws = source(".config/nextest.toml");
    let mut bad = retries_override("default", "all()", 3);
    bad.platform = Some("cfg(unix".to_owned());
    let mut good = retries_override("default", "all()", 4);
    good.platform = Some("cfg(unix)".to_owned());
    ws.overrides.push(good);
    ws.overrides.push(bad);
    let ws = config_source(".config/nextest.toml", ws);
    let err = NextestConfig::from_sources("/ws", &default_config_source(), &vec![], &ws).unwrap_err();
    assert_eq!(err.config_file, ".config/nextest.toml");
    match err.kind {
        ConfigParseErrorKind::InvalidPlatformSpecs(specs) => assert_eq!(specs, vec!["cfg(unix".to_owned()]),
        other => panic!("unexpected error {:?}", other),
    }
}
