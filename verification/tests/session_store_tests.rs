use metaagent::agent_models::ConfigError;
use metaagent::api::{ApiErrorCode, PlannerTaskEntryContract};
use metaagent::default_config::DEFAULT_CONFIG_TOML;
use metaagent::session_store::{
    append_task_fails, configured_root_dir, docs_from_legacy_text, expand_home, opened_metadata,
    parse_task_entry, read_markdown, read_rolling_context, read_session_meta_file,
    read_session_metadata_file, read_task_fails, read_tasks, session_dir_name,
    session_list_entry, session_metadata_text, snapshot, sort_sessions, tasks_file_text,
    text_stands_before, workspace_slug, write_rolling_context, PlannerTaskFileEntry,
    PlannerTaskKindFile, PlannerTaskStatusFile, SessionMetaFile, SessionMetadata, StoreError,
    TaskFailFileEntry,
};

#[test]
fn expands_home_paths() {
    let expanded =
        expand_home("~/.metaagent/sessions", Some("/home/user")).expect("home path should expand");
    assert!(std::path::Path::new(&expanded).is_absolute());
    assert_eq!(expanded, "/home/user/.metaagent/sessions");
}

#[test]
fn embedded_default_config_includes_storage_section() {
    let root_dir = configured_root_dir(DEFAULT_CONFIG_TOML)
        .expect("embedded default config should parse");
    assert_eq!(root_dir.as_deref(), Some("~/.metaagent/sessions"));
}

#[test]
fn planner_task_status_defaults_to_pending() {
    let parsed: PlannerTaskFileEntry =
        parse_task_entry("{\"id\":\"a\",\"title\":\"Task A\",\"parent_id\":null,\"order\":0}")
            .expect("json should parse");
    assert!(parsed.details.is_empty());
    assert!(parsed.docs.is_empty());
    assert!(matches!(parsed.status, PlannerTaskStatusFile::Pending));
    assert!(matches!(parsed.kind, PlannerTaskKindFile::Task));
}

#[test]
fn planner_task_accepts_numeric_or_string_ids() {
    let numeric: PlannerTaskFileEntry =
        parse_task_entry("{\"id\":1,\"title\":\"Task\",\"parent_id\":2,\"order\":0}")
            .expect("numeric ids should parse");
    assert_eq!(numeric.id, "1");
    assert_eq!(numeric.parent_id.as_deref(), Some("2"));

    let stringy: PlannerTaskFileEntry =
        parse_task_entry("{\"id\":\"a\",\"title\":\"Task\",\"parent_id\":\"b\",\"order\":0}")
            .expect("string ids should parse");
    assert_eq!(stringy.id, "a");
    assert_eq!(stringy.parent_id.as_deref(), Some("b"));
}

#[test]
fn planner_task_parses_details_field() {
    let parsed: PlannerTaskFileEntry = parse_task_entry(
            "{\"id\":\"a\",\"title\":\"Task\",\"details\":\"More context\",\"parent_id\":null,\"order\":0}",
        )
        .expect("json should parse");
    assert_eq!(parsed.details, "More context");
}

#[test]
fn planner_task_parses_docs_field() {
    let parsed: PlannerTaskFileEntry = parse_task_entry(
            "{\"id\":\"a\",\"title\":\"Task\",\"details\":\"ctx\",\"docs\":[{\"title\":\"Ratatui docs\",\"url\":\"https://docs.rs/ratatui/latest/ratatui/\",\"summary\":\"widgets and rendering\"}],\"parent_id\":null,\"order\":0}",
        )
        .expect("json should parse");
    assert_eq!(parsed.docs.len(), 1);
    assert_eq!(parsed.docs[0].title, "Ratatui docs");
}

#[test]
fn planner_task_parses_legacy_docs_string_field() {
    let parsed: PlannerTaskFileEntry = parse_task_entry(
            "{\"id\":\"a\",\"title\":\"Task\",\"details\":\"ctx\",\"docs\":\"src/app.rs, src/main.rs\",\"parent_id\":null,\"order\":0}",
        )
        .expect("json should parse");
    assert_eq!(parsed.docs.len(), 2);
    assert_eq!(parsed.docs[0].title, "src/app.rs");
    assert_eq!(parsed.docs[1].title, "src/main.rs");
}

#[test]
fn planner_task_parses_empty_legacy_docs_string_as_empty_docs() {
    let parsed: PlannerTaskFileEntry = parse_task_entry(
            "{\"id\":\"a\",\"title\":\"Task\",\"details\":\"ctx\",\"docs\":\"\",\"parent_id\":null,\"order\":0}",
        )
        .expect("json should parse");
    assert!(parsed.docs.is_empty());
}

#[test]
fn list_sessions_in_root_orders_by_last_used_desc() {
    let s1 = session_list_entry(
        "/base/s1",
        &SessionMetadata {
            workspace: "/tmp/w1".to_string(),
            created_at_epoch_secs: 10,
            last_used_epoch_secs: 20,
        },
        None,
    );
    let meta = SessionMetaFile {
        title: "Planner Session".to_string(),
        created_at: "2026-02-16T12:00:00Z".to_string(),
        stack_description: "Rust + Ratatui terminal UI app".to_string(),
        test_command: Some("cargo test".to_string()),
    };
    let s2 = session_list_entry(
        "/base/s2",
        &SessionMetadata {
            workspace: "/tmp/w2".to_string(),
            created_at_epoch_secs: 15,
            last_used_epoch_secs: 30,
        },
        Some(&meta),
    );

    let listed = sort_sessions(vec![s1, s2]);
    assert_eq!(listed.len(), 2);
    assert_eq!(listed[0].session_dir, "/base/s2");
    assert_eq!(listed[1].session_dir, "/base/s1");
    assert_eq!(listed[0].title.as_deref(), Some("Planner Session"));
    assert_eq!(
        listed[0].created_at_label.as_deref(),
        Some("2026-02-16T12:00:00Z")
    );
    assert_eq!(listed[1].title, None);
}

#[test]
fn open_existing_supports_rolling_context_round_trip() {
    let text = write_rolling_context(vec!["one".to_string(), "two".to_string()]);
    let read_back = read_rolling_context(Some(&text)).expect("read context");
    assert_eq!(read_back, vec!["one".to_string(), "two".to_string()]);
    assert_eq!(text, "{\"entries\":[\"one\",\"two\"]}");
}

#[test]
fn create_unique_session_dir_avoids_same_second_workspace_collision() {
    let first = session_dir_name(42, "workspace", 0);
    let second = session_dir_name(42, "workspace", 1);

    assert_ne!(first, second);
    assert!(first.ends_with("42-workspace"));
    assert!(second.ends_with("42-workspace-1"));
    assert_eq!(session_dir_name(1700000000, "my-app", 12), "1700000000-my-app-12");
}

#[test]
fn task_fails_round_trip_append() {
    let entry = TaskFailFileEntry {
        kind: "audit".to_string(),
        top_task_id: 1,
        top_task_title: "Task A".to_string(),
        attempts: 4,
        reason: "Critical blocker".to_string(),
        action_taken: "Continued".to_string(),
        created_at_epoch_secs: 123,
    };
    let text = append_task_fails(None, vec![entry.clone()]).expect("append fails");
    let read_back = read_task_fails(Some(&text)).expect("read fails");
    assert_eq!(read_back.len(), 1);
    assert_eq!(read_back[0].kind, "audit");
    assert_eq!(read_back[0].top_task_id, 1);

    let mut second = entry.clone();
    second.kind = "test".to_string();
    let text = append_task_fails(Some(&text), vec![second.clone()]).expect("append fails");
    assert_eq!(read_task_fails(Some(&text)), Ok(vec![entry, second]));
    assert_eq!(append_task_fails(Some("{broken"), Vec::new()), Err(StoreError::InvalidData));
}

#[test]
fn session_meta_file_defaults_stack_description_when_missing() {
    let parsed: SessionMetaFile = read_session_meta_file(Some(
        "{\"title\":\"Planner Session\",\"created_at\":\"2026-02-16T12:00:00Z\"}",
    ))
    .expect("session meta should parse");
    assert_eq!(parsed.title, "Planner Session");
    assert_eq!(parsed.created_at, "2026-02-16T12:00:00Z");
    assert!(parsed.stack_description.is_empty());
    assert!(parsed.test_command.is_none());
}

#[test]
fn session_meta_file_parses_test_command_as_string_or_null() {
    let with_command: SessionMetaFile = read_session_meta_file(Some(
            "{\"title\":\"Planner Session\",\"created_at\":\"2026-02-16T12:00:00Z\",\"stack_description\":\"Rust\",\"test_command\":\"cargo test\"}",
        ))
        .expect("session meta with command should parse");
    assert_eq!(with_command.test_command.as_deref(), Some("cargo test"));

    let without_tests: SessionMetaFile = read_session_meta_file(Some(
            "{\"title\":\"Planner Session\",\"created_at\":\"2026-02-16T12:00:00Z\",\"stack_description\":\"Rust\",\"test_command\":null}",
        ))
        .expect("session meta with null command should parse");
    assert!(without_tests.test_command.is_none());
}

#[test]
fn missing_files_read_as_empty_except_the_session_meta() {
    assert_eq!(read_tasks(None), Ok(Vec::new()));
    assert_eq!(read_rolling_context(None), Ok(Vec::new()));
    assert_eq!(read_task_fails(None), Ok(Vec::new()));
    assert_eq!(read_markdown(None), "");
    assert_eq!(read_markdown(Some("# plan")), "# plan");
    assert_eq!(read_session_meta_file(None), Err(StoreError::NotFound));
    assert_eq!(StoreError::NotFound.code(), ApiErrorCode::NotFound);
    assert_eq!(StoreError::InvalidData.code(), ApiErrorCode::ValidationFailed);
}

#[test]
fn files_that_hold_something_else_are_invalid() {
    assert_eq!(read_tasks(Some("{}")), Err(StoreError::InvalidData));
    assert_eq!(read_tasks(Some("[{\"id\":\"a\"}]")), Err(StoreError::InvalidData));
    assert_eq!(read_tasks(Some("[{\"id\":1.5,\"title\":\"t\"}]")), Err(StoreError::InvalidData));
    assert_eq!(read_tasks(Some("[{\"id\":\"a\",\"title\":\"t\",\"docs\":7}]")), Err(StoreError::InvalidData));
    assert_eq!(read_rolling_context(Some("[1]")), Err(StoreError::InvalidData));
    assert_eq!(read_rolling_context(Some("{\"entries\":[1]}")), Err(StoreError::InvalidData));
    assert_eq!(read_rolling_context(Some("{}")), Ok(Vec::new()));
    assert_eq!(read_task_fails(Some("not json")), Err(StoreError::InvalidData));
    assert_eq!(read_session_meta_file(Some("{\"title\":\"t\"}")), Err(StoreError::InvalidData));
    assert_eq!(read_session_metadata_file("{\"workspace\":\"/w\"}"), Err(StoreError::InvalidData));
}

#[test]
fn tasks_file_reads_back_what_the_engine_writes() {
    let text = "[{\"id\":7,\"title\":\"T\",\"docs\":\" a ,, b\",\"kind\":\"implementor\",\"status\":\"done\",\"parent_id\":-3}]";
    let tasks = read_tasks(Some(text)).expect("tasks should parse");
    assert_eq!(tasks.len(), 1);
    assert_eq!(tasks[0].id, "7");
    assert_eq!(tasks[0].parent_id.as_deref(), Some("-3"));
    assert_eq!(tasks[0].order, None);
    let titles: Vec<&str> = tasks[0].docs.iter().map(|d| d.title.as_str()).collect();
    assert_eq!(titles, vec!["a", "b"]);
    assert!(tasks[0].docs.iter().all(|d| d.url.is_empty() && d.summary.is_empty()));
    let written = tasks_file_text(&tasks);
    assert_eq!(read_tasks(Some(&written)), Ok(tasks));
    let big = read_tasks(Some("[{\"id\":18446744073709551615,\"title\":\"T\"}]")).expect("big id");
    assert_eq!(big[0].id, "18446744073709551615");
}

#[test]
fn legacy_docs_are_the_titles_between_commas() {
    let titles = |text: &str| -> Vec<String> {
        docs_from_legacy_text(text).into_iter().map(|d| d.title).collect()
    };
    assert_eq!(titles("src/app.rs, src/main.rs"), vec!["src/app.rs", "src/main.rs"]);
    assert_eq!(titles(""), Vec::<String>::new());
    assert_eq!(titles(" , ,"), Vec::<String>::new());
    assert_eq!(titles("one"), vec!["one"]);
    assert_eq!(titles(",one,,two words ,"), vec!["one", "two words"]);
}

#[test]
fn sessions_used_at_the_same_time_are_listed_by_directory() {
    let entry = |dir: &str, used: u64| {
        session_list_entry(
            dir,
            &SessionMetadata {
                workspace: "/w".to_string(),
                created_at_epoch_secs: 1,
                last_used_epoch_secs: used,
            },
            None,
        )
    };
    let listed = sort_sessions(vec![
        entry("b", 5),
        entry("a", 5),
        entry("z", 9),
        entry("ab", 5),
        entry("c", 1),
        entry("a", 5),
    ]);
    let order: Vec<(&str, u64)> =
        listed.iter().map(|e| (e.session_dir.as_str(), e.last_used_epoch_secs)).collect();
    assert_eq!(order, vec![("z", 9), ("a", 5), ("a", 5), ("ab", 5), ("b", 5), ("c", 1)]);
    assert!(sort_sessions(Vec::new()).is_empty());
    assert!(text_stands_before("", "a"));
    assert!(text_stands_before("a", "a"));
    assert!(text_stands_before("a", "ab"));
    assert!(!text_stands_before("ab", "a"));
    assert!(text_stands_before("Z", "a"));
    assert!(!text_stands_before("é", "z"));
}

#[test]
fn workspace_slug_is_the_last_part_of_the_path_made_safe() {
    assert_eq!(workspace_slug("/home/user/my project"), "my-project");
    assert_eq!(workspace_slug("/home/user/app///"), "app");
    assert_eq!(workspace_slug("app_v1.2"), "app_v1.2");
    assert_eq!(workspace_slug("/"), "workspace");
    assert_eq!(workspace_slug(""), "workspace");
    assert_eq!(workspace_slug("/a/ü"), "-");
}

#[test]
fn home_is_put_in_only_for_a_leading_tilde() {
    assert_eq!(expand_home("~", Some("/h")), Ok("/h".to_string()));
    assert_eq!(expand_home("~/", Some("/h")), Ok("/h/".to_string()));
    assert_eq!(expand_home("~/a/b", Some("/h/")), Ok("/h/a/b".to_string()));
    assert_eq!(expand_home("/abs/~/x", None), Ok("/abs/~/x".to_string()));
    assert_eq!(expand_home("~user/x", None), Ok("~user/x".to_string()));
    assert_eq!(expand_home("~/x", None), Err(StoreError::NotFound));
    assert_eq!(expand_home("~", None), Err(StoreError::NotFound));
}

#[test]
fn opening_a_session_keeps_where_and_when_it_was_made() {
    let held = SessionMetadata {
        workspace: "/old".to_string(),
        created_at_epoch_secs: 10,
        last_used_epoch_secs: 20,
    };
    assert_eq!(
        opened_metadata(Some(held), "/new", 99),
        SessionMetadata {
            workspace: "/old".to_string(),
            created_at_epoch_secs: 10,
            last_used_epoch_secs: 99
        }
    );
    let fresh = opened_metadata(None, "/new", 99);
    assert_eq!(
        fresh,
        SessionMetadata {
            workspace: "/new".to_string(),
            created_at_epoch_secs: 99,
            last_used_epoch_secs: 99
        }
    );
    let text = session_metadata_text(&fresh);
    assert_eq!(read_session_metadata_file(&text), Ok(fresh));
}

#[test]
fn snapshot_names_the_files_of_a_session() {
    let files = snapshot("/s/1-app");
    assert_eq!(files.session_dir, "/s/1-app");
    assert_eq!(files.tasks_file, "/s/1-app/tasks.json");
    assert_eq!(files.planner_file, "/s/1-app/planner.md");
    assert_eq!(files.task_fails_file, "/s/1-app/task_fails.json");
    assert_eq!(files.project_info_file, "/s/1-app/project_info.md");
    assert_eq!(files.session_meta_file, "/s/1-app/meta.json");
}

#[test]
fn root_dir_of_a_configuration_is_optional_but_has_to_be_a_text() {
    assert_eq!(configured_root_dir("").expect("empty config"), None);
    assert_eq!(configured_root_dir("[storage]\n").expect("empty table"), None);
    assert_eq!(
        configured_root_dir("[storage]\nroot_dir = \"/data\"\n").expect("stated").as_deref(),
        Some("/data")
    );
    assert!(matches!(configured_root_dir("storage = 1"), Err(ConfigError::Shape)));
    assert!(matches!(configured_root_dir("[storage]\nroot_dir = 1"), Err(ConfigError::Shape)));
    assert!(matches!(configured_root_dir("[storage"), Err(ConfigError::Syntax(_))));
}

#[test]
fn engine_plan_entries_are_file_entries() {
    let entry: PlannerTaskEntryContract =
        parse_task_entry("{\"id\":\"a\",\"title\":\"T\"}").expect("entry");
    assert_eq!(entry.title, "T");
}
