use metaagent::artifact_io::{
    ensure_default_metaagent_config, home_dir, join_path, metaagent_config_file_path,
    runtime_storage_root, ArtifactError, HomeLayout, StorageRoot,
};

const NOTHING: HomeLayout =
    HomeLayout { bob_dir: false, bob_config: false, legacy_dir: false, legacy_config: false };

#[test]
fn ensure_default_metaagent_config_prefers_bob_when_both_configs_exist() {
    let layout =
        HomeLayout { bob_dir: true, bob_config: true, legacy_dir: true, legacy_config: true };
    let plan = ensure_default_metaagent_config(Some("/home/u"), layout).expect("resolve active config");
    assert_eq!(plan.config_file, "/home/u/.bob/config.toml");
    assert_eq!(plan.storage_dir, "/home/u/.bob");
    assert!(!plan.write_config);
    assert!(!plan.write_legacy_copy);
}

#[test]
fn ensure_default_metaagent_config_falls_back_to_legacy_when_only_legacy_config_exists() {
    let layout = HomeLayout { legacy_dir: true, legacy_config: true, ..NOTHING };
    let plan = ensure_default_metaagent_config(Some("/home/u"), layout).expect("resolve active config");
    assert_eq!(plan.config_file, "/home/u/.metaagent/config.toml");
    assert_eq!(plan.storage_dir, "/home/u/.metaagent");
    assert!(!plan.write_config);
    assert!(!plan.write_legacy_copy);
}

#[test]
fn ensure_default_metaagent_config_initializes_fresh_home_under_bob() {
    let plan = ensure_default_metaagent_config(Some("/home/u"), NOTHING).expect("initialize default config");
    assert_eq!(plan.config_file, "/home/u/.bob/config.toml");
    assert_eq!(plan.storage_dir, "/home/u/.bob");
    assert!(plan.write_config);
    assert!(metaagent::default_config::DEFAULT_CONFIG_TOML.contains("[storage]"));
}

#[test]
fn ensure_default_metaagent_config_writes_legacy_compat_file_when_missing() {
    let plan = ensure_default_metaagent_config(Some("/home/u"), NOTHING).expect("initialize default config");
    assert!(plan.write_config);
    assert!(plan.write_legacy_copy);
    assert_eq!(plan.legacy_config_file, "/home/u/.metaagent/config.toml");
}

#[test]
fn ensure_default_metaagent_config_keeps_existing_legacy_compat_file() {
    let both = HomeLayout { bob_dir: true, bob_config: true, legacy_dir: true, legacy_config: true };
    let plan = ensure_default_metaagent_config(Some("/home/u"), both).expect("merge config");
    assert!(!plan.write_legacy_copy);
    let bob_dir_only = HomeLayout { bob_dir: true, legacy_dir: true, legacy_config: true, ..NOTHING };
    let plan = ensure_default_metaagent_config(Some("/home/u"), bob_dir_only).expect("merge config");
    assert!(plan.write_config);
    assert!(!plan.write_legacy_copy);
}

#[test]
fn runtime_storage_dir_prefers_bob_when_both_dirs_exist_without_configs() {
    let layout = HomeLayout { bob_dir: true, legacy_dir: true, ..NOTHING };
    assert_eq!(runtime_storage_root(layout), StorageRoot::Bob);
    assert_eq!(runtime_storage_root(HomeLayout { legacy_dir: true, ..NOTHING }), StorageRoot::Legacy);
    assert_eq!(runtime_storage_root(HomeLayout { bob_config: true, legacy_dir: true, ..NOTHING }), StorageRoot::Bob);
    assert_eq!(runtime_storage_root(NOTHING), StorageRoot::Bob);
}

#[test]
fn without_home_there_are_no_paths() {
    assert_eq!(home_dir(None), Err(ArtifactError::HomeNotSet));
    assert_eq!(ArtifactError::HomeNotSet.code(), metaagent::api::ApiErrorCode::NotFound);
    assert_eq!(home_dir(Some("/root")), Ok("/root".to_string()));
    assert_eq!(ensure_default_metaagent_config(None, NOTHING), Err(ArtifactError::HomeNotSet));
}

#[test]
fn paths_are_joined_with_one_separator() {
    assert_eq!(join_path("/home/u", ".bob"), "/home/u/.bob");
    assert_eq!(join_path("/home/u/", ".bob"), "/home/u/.bob");
    assert_eq!(join_path("", ".bob"), ".bob");
    assert_eq!(join_path("/", ".bob"), "/.bob");
    assert_eq!(metaagent_config_file_path("/home/é"), "/home/é/.metaagent/config.toml");
}

#[test]
fn a_second_plan_leaves_nothing_to_write() {
    let choices = [false, true];
    for bob_dir in choices {
        for bob_config in choices {
            for legacy_dir in choices {
                for legacy_config in choices {
                    let layout = HomeLayout { bob_dir, bob_config, legacy_dir, legacy_config };
                    let plan = ensure_default_metaagent_config(Some("/h"), layout).expect("plan");
                    let in_bob = plan.storage_dir == "/h/.bob";
                    let after = HomeLayout {
                        bob_dir: bob_dir || in_bob,
                        bob_config: bob_config || (in_bob && plan.write_config),
                        legacy_dir: legacy_dir || !in_bob || plan.write_legacy_copy,
                        legacy_config: legacy_config
                            || (!in_bob && plan.write_config)
                            || plan.write_legacy_copy,
                    };
                    let again = ensure_default_metaagent_config(Some("/h"), after).expect("plan");
                    assert_eq!(again.config_file, plan.config_file);
                    assert!(!again.write_config && !again.write_legacy_copy);
                }
            }
        }
    }
}
