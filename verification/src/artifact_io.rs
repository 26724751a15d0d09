//! Where the configuration and the sessions of a user live.
//!
//! Reading the environment and the disk is left to the caller, who
//! reports what is there; what follows from it is decided here. Paths are
//! texts with `/` between their parts.

use crate::api::envelope::ApiErrorCode;
use vstd::prelude::*;
use vstd::string::StringExecFns;

verus! {

/// Why a path could not be determined.
#[derive(Debug, Clone, Copy, PartialEq, Eq, Structural)]
pub enum ArtifactError {
    /// The environment does not say where the home directory is.
    HomeNotSet,
}

impl ArtifactError {
    /// The error code under which this error travels.
    pub fn code(&self) -> (code: ApiErrorCode)
        ensures
            code == ApiErrorCode::NotFound,
    {
        ApiErrorCode::NotFound
    }
}

/// What of the two storage directories is on disk.
#[derive(Debug, Clone, Copy, PartialEq, Eq, Structural)]
pub struct HomeLayout {
    /// `~/.bob` exists.
    pub bob_dir: bool,
    /// `~/.bob/config.toml` exists.
    pub bob_config: bool,
    /// `~/.metaagent` exists.
    pub legacy_dir: bool,
    /// `~/.metaagent/config.toml` exists.
    pub legacy_config: bool,
}

/// The two places a storage directory can be in.
#[derive(Debug, Clone, Copy, PartialEq, Eq, Structural)]
pub enum StorageRoot {
    /// `~/.bob`, the place that is preferred.
    Bob,
    /// `~/.metaagent`, the place of earlier installations.
    Legacy,
}

/// What is to be done so that a configuration file is in place.
#[derive(Debug, Clone, PartialEq, Eq)]
pub struct ConfigPlan {
    /// The storage directory in use.
    pub storage_dir: String,
    /// The configuration file in use.
    pub config_file: String,
    /// Whether the default configuration is to be written to `config_file`.
    pub write_config: bool,
    /// The configuration file of earlier installations.
    pub legacy_config_file: String,
    /// Whether the default configuration is to be written to
    /// `legacy_config_file` as well.
    pub write_legacy_copy: bool,
}

/// Mathematical value of a [`ConfigPlan`].
pub struct PlanView {
    pub storage_dir: Seq<char>,
    pub config_file: Seq<char>,
    pub write_config: bool,
    pub legacy_config_file: Seq<char>,
    pub write_legacy_copy: bool,
}

impl View for ConfigPlan {
    type V = PlanView;

    open spec fn view(&self) -> PlanView {
        PlanView {
            storage_dir: self.storage_dir@,
            config_file: self.config_file@,
            write_config: self.write_config,
            legacy_config_file: self.legacy_config_file@,
            write_legacy_copy: self.write_legacy_copy,
        }
    }
}

/// `name` inside the directory `base`: the two with one `/` between them,
/// and `name` alone where `base` is empty.
pub open spec fn joined_path(base: Seq<char>, name: Seq<char>) -> Seq<char> {
    if base.len() == 0 {
        name
    } else if base.last() == '/' {
        base + name
    } else {
        base + "/"@ + name
    }
}

/// The storage directory in use: `~/.bob` where it or its configuration
/// file exists; else `~/.metaagent` where that or its configuration file
/// exists; else `~/.bob`, which is then to be created.
pub open spec fn storage_root(layout: HomeLayout) -> StorageRoot {
    if layout.bob_dir || layout.bob_config {
        StorageRoot::Bob
    } else if layout.legacy_dir || layout.legacy_config {
        StorageRoot::Legacy
    } else {
        StorageRoot::Bob
    }
}

/// The name of a storage directory inside the home directory.
pub open spec fn root_name(root: StorageRoot) -> Seq<char> {
    match root {
        StorageRoot::Bob => ".bob"@,
        StorageRoot::Legacy => ".metaagent"@,
    }
}

/// Whether the configuration file of `root` exists.
pub open spec fn has_config(layout: HomeLayout, root: StorageRoot) -> bool {
    match root {
        StorageRoot::Bob => layout.bob_config,
        StorageRoot::Legacy => layout.legacy_config,
    }
}

/// The plan that puts a configuration file in place below `home`.
///
/// The configuration file in use is `config.toml` in the storage
/// directory in use. It is written only where it is missing. Where it is
/// written to `~/.bob`, a copy goes to `~/.metaagent`, unless a
/// configuration file is there already.
pub open spec fn config_plan(home: Seq<char>, layout: HomeLayout) -> PlanView {
    let root = storage_root(layout);
    let storage_dir = joined_path(home, root_name(root));
    let write_config = !has_config(layout, root);
    PlanView {
        storage_dir,
        config_file: joined_path(storage_dir, "config.toml"@),
        write_config,
        legacy_config_file: joined_path(
            joined_path(home, root_name(StorageRoot::Legacy)),
            "config.toml"@,
        ),
        write_legacy_copy: write_config && root == StorageRoot::Bob && !layout.legacy_config,
    }
}

/// `name` inside the directory `base`.
pub fn join_path(base: &str, name: &str) -> (path: String)
    ensures
        path@ == joined_path(base@, name@),
{
    let n: usize = base.unicode_len();
    if n == 0 {
        return String::from_str(name);
    }
    let mut path = String::from_str(base);
    if base.get_char(n - 1) != '/' {
        path.append("/");
    }
    path.append(name);
    path
}

/// The home directory, given what the environment says under `HOME`.
pub fn home_dir(home: Option<&str>) -> (dir: Result<String, ArtifactError>)
    ensures
        match home {
            Some(h) => dir matches Ok(d) && d@ == h@,
            None => dir == Err::<String, ArtifactError>(ArtifactError::HomeNotSet),
        },
{
    match home {
        Some(h) => Ok(String::from_str(h)),
        None => Err(ArtifactError::HomeNotSet),
    }
}

/// The storage directory in use.
pub fn runtime_storage_root(layout: HomeLayout) -> (root: StorageRoot)
    ensures
        root == storage_root(layout),
{
    if layout.bob_dir || layout.bob_config {
        StorageRoot::Bob
    } else if layout.legacy_dir || layout.legacy_config {
        StorageRoot::Legacy
    } else {
        StorageRoot::Bob
    }
}

/// The configuration file of earlier installations below `home`.
pub fn metaagent_config_file_path(home: &str) -> (path: String)
    ensures
        path@ == joined_path(joined_path(home@, ".metaagent"@), "config.toml"@),
{
    join_path(join_path(home, ".metaagent").as_str(), "config.toml")
}

/// Plans what is to be done so that a configuration file is in place,
/// given what the environment says under `HOME` and what is on disk.
/// Without a home directory there is no plan.
pub fn ensure_default_metaagent_config(home: Option<&str>, layout: HomeLayout) -> (plan: Result<
    ConfigPlan,
    ArtifactError,
>)
    ensures
        match home {
            Some(h) => plan matches Ok(p) && p@ == config_plan(h@, layout),
            None => plan == Err::<ConfigPlan, ArtifactError>(ArtifactError::HomeNotSet),
        },
{
    let home = match home {
        Some(h) => h,
        None => {
            return Err(ArtifactError::HomeNotSet);
        },
    };
    let root = runtime_storage_root(layout);
    let (storage_dir, exists) = match root {
        StorageRoot::Bob => (join_path(home, ".bob"), layout.bob_config),
        StorageRoot::Legacy => (join_path(home, ".metaagent"), layout.legacy_config),
    };
    let config_file = join_path(storage_dir.as_str(), "config.toml");
    let write_config = !exists;
    let write_legacy_copy = match root {
        StorageRoot::Bob => write_config && !layout.legacy_config,
        StorageRoot::Legacy => false,
    };
    Ok(
        ConfigPlan {
            storage_dir,
            config_file,
            write_config,
            legacy_config_file: metaagent_config_file_path(home),
            write_legacy_copy,
        },
    )
}

/// What is on disk once the plan for `layout` has been carried out: the
/// storage directory in use exists and holds a configuration file, and so
/// does the directory of earlier installations where a copy went there.
pub open spec fn carried_out(layout: HomeLayout) -> HomeLayout {
    let root = storage_root(layout);
    let copied = !has_config(layout, root) && root == StorageRoot::Bob && !layout.legacy_config;
    HomeLayout {
        bob_dir: layout.bob_dir || root == StorageRoot::Bob,
        bob_config: layout.bob_config || root == StorageRoot::Bob,
        legacy_dir: layout.legacy_dir || root == StorageRoot::Legacy || copied,
        legacy_config: layout.legacy_config || root == StorageRoot::Legacy || copied,
    }
}

/// Carrying out the plan settles things: the same storage directory is
/// in use afterwards, and a second plan leaves nothing to write.
pub proof fn lemma_plan_settles(home: Seq<char>, layout: HomeLayout)
    ensures
        storage_root(carried_out(layout)) == storage_root(layout),
        config_plan(home, carried_out(layout)).config_file == config_plan(home, layout).config_file,
        !config_plan(home, carried_out(layout)).write_config,
        !config_plan(home, carried_out(layout)).write_legacy_copy,
{
}

} // verus!
