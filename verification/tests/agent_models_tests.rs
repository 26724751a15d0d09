use metaagent::agent_models::{
    parse_config, CodexAgentKind, CodexAgentModelRouting, ConfigError, DEFAULT_PROFILE_LABEL,
};

#[test]
fn defaults_use_large_smart_for_all_agent_slots() {
    let routing = CodexAgentModelRouting::default();

    let master = routing.profile_for(CodexAgentKind::Master);
    let auditor = routing.profile_for(CodexAgentKind::WorkerAuditor);
    let docs = routing.profile_for(CodexAgentKind::DocsAttach);

    assert_eq!(master.model, "gpt-5.3-codex");
    assert_eq!(master.thinking_effort.as_deref(), Some("medium"));
    assert_eq!(auditor.model, "gpt-5.3-codex");
    assert_eq!(docs.model, "gpt-5.3-codex");
}

#[test]
fn empty_toml_still_uses_embedded_defaults() {
    let routing = CodexAgentModelRouting::from_toml_str("").expect("parse should succeed");
    let master = routing.profile_for(CodexAgentKind::Master);
    assert_eq!(master.model, "gpt-5.3-codex");
    assert_eq!(master.thinking_effort.as_deref(), Some("medium"));
}

#[test]
fn defaults_include_supergenious_alias_labels() {
    let routing = CodexAgentModelRouting::default();
    let parsed = CodexAgentModelRouting::from_toml_str(
        r#"
        [codex.agent_profiles]
        worker_implementor = "small-supergenious"
        "#,
    )
    .expect("parse should succeed");

    let baseline = routing.profile_for(CodexAgentKind::WorkerImplementor);
    let aliased = parsed.profile_for(CodexAgentKind::WorkerImplementor);
    assert_eq!(aliased.model, "gpt-5.1-codex-mini");
    assert_eq!(aliased.thinking_effort.as_deref(), Some("xhigh"));
    assert_ne!(aliased, baseline);
}

#[test]
fn toml_overrides_profiles_and_agent_assignments() {
    let routing = CodexAgentModelRouting::from_toml_str(
        r#"
        [codex.model_profiles.custom-max]
        model = "gpt-5.3-codex"
        thinking_effort = "xhigh"

        [codex.agent_profiles]
        master = "CUSTOM-max"
        worker_implementor = "custom-max"
        "#,
    )
    .expect("parse should succeed");

    let master = routing.profile_for(CodexAgentKind::Master);
    let implementor = routing.profile_for(CodexAgentKind::WorkerImplementor);
    let task_check = routing.profile_for(CodexAgentKind::TaskCheck);

    assert_eq!(master.model, "gpt-5.3-codex");
    assert_eq!(master.thinking_effort.as_deref(), Some("xhigh"));
    assert_eq!(implementor.thinking_effort.as_deref(), Some("xhigh"));
    assert_eq!(task_check.model, "gpt-5.3-codex");
    assert_eq!(task_check.thinking_effort.as_deref(), Some("medium"));
}

#[test]
fn unknown_profile_assignment_falls_back_to_large_smart() {
    let routing = CodexAgentModelRouting::from_toml_str(
        r#"
        [codex.agent_profiles]
        master = "does-not-exist"
        "#,
    )
    .expect("parse should succeed");

    let master = routing.profile_for(CodexAgentKind::Master);
    assert_eq!(master.model, "gpt-5.3-codex");
    assert_eq!(master.thinking_effort.as_deref(), Some("medium"));
}

#[test]
fn malformed_text_is_a_syntax_error() {
    let err = CodexAgentModelRouting::from_toml_str("[codex.model_profiles.bad\n")
        .expect_err("malformed config should fail");
    assert!(matches!(err, ConfigError::Syntax(_)));
    assert_eq!(err.code(), metaagent::api::ApiErrorCode::ValidationFailed);
    assert_eq!(ConfigError::Shape.code(), metaagent::api::ApiErrorCode::ValidationFailed);
}

#[test]
fn misplaced_values_are_a_shape_error() {
    for text in [
        "codex = 3\n",
        "[codex]\nmodel_profiles = \"x\"\n",
        "[codex]\nagent_profiles = [1, 2]\n",
        "[codex.model_profiles.a]\nmodel = 5\n",
        "[codex.model_profiles]\na = \"not a table\"\n",
        "[codex.model_profiles.a]\nmodel = \"m\"\nthinking_effort = true\n",
        "[codex.agent_profiles]\ntask_check = 1\n",
    ] {
        let err = CodexAgentModelRouting::from_toml_str(text).expect_err("shape should fail");
        assert!(matches!(err, ConfigError::Shape), "for {text:?}");
    }
}

#[test]
fn unrelated_sections_are_passed_over() {
    let routing = CodexAgentModelRouting::from_toml_str(
        "[storage]\nroot_dir = 7\n[backend]\nselected = \"other\"\n[codex]\nextra = [1]\n",
    )
    .expect("parse should succeed");
    assert_eq!(routing.profile_for(CodexAgentKind::Master).model, "gpt-5.3-codex");
}

#[test]
fn labels_are_trimmed_and_compared_without_case() {
    let routing = CodexAgentModelRouting::from_toml_str(
        r#"
        [codex.model_profiles."  Shouty-Label "]
        model = "  model-a  "
        thinking_effort = "  low "

        [codex.agent_profiles]
        docs_attach = "   SHOUTY-label"
        task_check = "   "
        "#,
    )
    .expect("parse should succeed");
    let docs = routing.profile_for(CodexAgentKind::DocsAttach);
    assert_eq!(docs.model, "model-a");
    assert_eq!(docs.thinking_effort.as_deref(), Some("low"));
    let task_check = routing.profile_for(CodexAgentKind::TaskCheck);
    assert_eq!(task_check.model, "gpt-5.3-codex");
}

#[test]
fn blank_model_is_no_profile_and_blank_effort_is_no_effort() {
    let routing = CodexAgentModelRouting::from_toml_str(
        r#"
        [codex.model_profiles.hollow]
        model = "   "

        [codex.model_profiles.plain]
        model = "model-b"
        thinking_effort = " "

        [codex.agent_profiles]
        master = "hollow"
        master_report = "plain"
        "#,
    )
    .expect("parse should succeed");
    let master = routing.profile_for(CodexAgentKind::Master);
    assert_eq!(master.model, "gpt-5.3-codex");
    let report = routing.profile_for(CodexAgentKind::MasterReport);
    assert_eq!(report.model, "model-b");
    assert_eq!(report.thinking_effort, None);
}

#[test]
fn overlay_replaces_default_profile_of_same_label() {
    let routing = CodexAgentModelRouting::from_toml_str(
        "[codex.model_profiles.large-smart]\nmodel = \"other-model\"\n",
    )
    .expect("parse should succeed");
    let master = routing.profile_for(CodexAgentKind::Master);
    assert_eq!(master.model, "other-model");
    assert_eq!(master.thinking_effort, None);
}

#[test]
fn profile_for_never_returns_an_empty_model() {
    let kinds = [
        CodexAgentKind::Master,
        CodexAgentKind::MasterReport,
        CodexAgentKind::ProjectInfo,
        CodexAgentKind::DocsAttach,
        CodexAgentKind::TaskCheck,
        CodexAgentKind::WorkerImplementor,
        CodexAgentKind::WorkerAuditor,
        CodexAgentKind::WorkerTestWriter,
        CodexAgentKind::WorkerFinalAudit,
    ];
    let routings = [
        CodexAgentModelRouting::default(),
        CodexAgentModelRouting::emergency_fallback(),
        CodexAgentModelRouting::from_toml_str(
            "[codex.model_profiles.large-smart]\nmodel = \"\"\n[codex.agent_profiles]\nmaster = \"x\"\n",
        )
        .expect("parse should succeed"),
    ];
    for routing in &routings {
        for kind in kinds {
            assert!(!routing.profile_for(kind).model.is_empty());
        }
    }
    assert_eq!(DEFAULT_PROFILE_LABEL, "large-smart");
}

#[test]
fn laying_the_same_overlay_twice_changes_nothing() {
    let overlay = "[codex.model_profiles.fast]\nmodel = \"m1\"\n[codex.agent_profiles]\nmaster = \"fast\"\n";
    let base = parse_config("[codex.model_profiles.slow]\nmodel = \"m0\"\n").expect("base");
    let once = base.codex.clone().merged_with(parse_config(overlay).expect("overlay").codex);
    let twice = once.clone().merged_with(parse_config(overlay).expect("overlay").codex);
    let r1 = CodexAgentModelRouting::from_codex_config(once);
    let r2 = CodexAgentModelRouting::from_codex_config(twice);
    for kind in [CodexAgentKind::Master, CodexAgentKind::TaskCheck] {
        assert_eq!(r1.profile_for(kind), r2.profile_for(kind));
    }
    assert_eq!(r1.profile_for(CodexAgentKind::Master).model, "m1");
}

#[test]
fn overlay_with_blank_model_leaves_the_label_without_a_profile() {
    let routing = CodexAgentModelRouting::from_toml_str(
        "[codex.model_profiles.small-smart]\nmodel = \"\"\n[codex.agent_profiles]\nmaster = \"small-smart\"\ntask_check = \"small-genious\"\n",
    )
    .expect("parse should succeed");
    let master = routing.profile_for(CodexAgentKind::Master);
    assert_eq!(master.model, "gpt-5.3-codex");
    assert_eq!(master.thinking_effort.as_deref(), Some("medium"));
    let check = routing.profile_for(CodexAgentKind::TaskCheck);
    assert_eq!(check.model, "gpt-5.1-codex-mini");
    assert_eq!(check.thinking_effort.as_deref(), Some("high"));
}

#[test]
fn blank_overlay_replaces_by_normalized_label() {
    let routing = CodexAgentModelRouting::from_toml_str(
        "[codex.model_profiles.\" Small-SMART \"]\nmodel = \"  \"\n[codex.agent_profiles]\nmaster = \"small-smart\"\n",
    )
    .expect("parse should succeed");
    assert_eq!(routing.profile_for(CodexAgentKind::Master).model, "gpt-5.3-codex");
}

#[test]
fn blank_default_label_falls_back_to_the_hard_wired_profile() {
    let routing = CodexAgentModelRouting::from_toml_str(
        "[codex.model_profiles.large-smart]\nmodel = \"\"\nthinking_effort = \"low\"\n",
    )
    .expect("parse should succeed");
    let master = routing.profile_for(CodexAgentKind::Master);
    assert_eq!(master.model, "gpt-5.3-codex");
    assert_eq!(master.thinking_effort.as_deref(), Some("medium"));
}

#[test]
fn a_later_usable_statement_gives_the_label_a_profile_again() {
    let base = parse_config("[codex.model_profiles.fast]\nmodel = \"m0\"\n").expect("base");
    let blank = parse_config("[codex.model_profiles.FAST]\nmodel = \"\"\n[codex.agent_profiles]\nmaster = \"fast\"\n")
        .expect("blank");
    let again = parse_config("[codex.model_profiles.fast]\nmodel = \"m2\"\n").expect("again");
    let emptied = base.codex.clone().merged_with(blank.codex.clone());
    let hollow = CodexAgentModelRouting::from_codex_config(emptied.clone());
    assert_eq!(hollow.profile_for(CodexAgentKind::Master).model, "gpt-5.3-codex");
    let restored = CodexAgentModelRouting::from_codex_config(emptied.merged_with(again.codex));
    assert_eq!(restored.profile_for(CodexAgentKind::Master).model, "m2");
}
