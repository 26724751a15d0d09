//! Which model each agent role runs on.
//!
//! A configuration names model profiles by label and assigns a label to
//! each role. The embedded default configuration is read first and the
//! user's configuration is laid over it. Labels are compared after
//! trimming and lowering their letters.

use crate::api::envelope::ApiErrorCode;
use crate::default_config::DEFAULT_CONFIG_TOML;
use crate::text::{
    as_deref, ascii_lowercase, clone_optional, is_whitespace_spec, lemma_lowercase_trim_commute,
    lemma_trimmed_idempotent, lemma_trimmed_shape, optional_text, same_text, to_ascii_lowercase,
    trim, trimmed,
};
use crate::toml_document::{
    entries, entries_of, entry, get, parse_document, parsed_document, toml_of, Toml,
};
use vstd::prelude::*;
use vstd::string::StringExecFns;

verus! {

/// The label every role falls back to.
pub const DEFAULT_PROFILE_LABEL: &'static str = "large-smart";

/// A model and how hard it is asked to think.
#[derive(Debug, Clone, PartialEq, Eq)]
pub struct CodexModelProfile {
    pub model: String,
    pub thinking_effort: Option<String>,
}

/// Mathematical value of a model profile.
pub struct ProfileView {
    pub model: Seq<char>,
    pub thinking_effort: Option<Seq<char>>,
}

impl View for CodexModelProfile {
    type V = ProfileView;

    open spec fn view(&self) -> ProfileView {
        ProfileView { model: self.model@, thinking_effort: optional_text(self.thinking_effort) }
    }
}

/// The roles an agent can run in.
#[derive(Debug, Clone, Copy, PartialEq, Eq, Structural)]
pub enum CodexAgentKind {
    Master,
    MasterReport,
    ProjectInfo,
    DocsAttach,
    TaskCheck,
    WorkerImplementor,
    WorkerAuditor,
    WorkerTestWriter,
    WorkerFinalAudit,
}

/// A model profile as a configuration file states it.
#[derive(Debug, Clone, PartialEq, Eq)]
pub struct CodexModelProfileConfig {
    pub model: String,
    pub thinking_effort: Option<String>,
}

impl View for CodexModelProfileConfig {
    type V = ProfileView;

    open spec fn view(&self) -> ProfileView {
        ProfileView { model: self.model@, thinking_effort: optional_text(self.thinking_effort) }
    }
}

/// The label of each role as a configuration file states it, absent where
/// the file does not mention the role.
#[derive(Debug, Clone, PartialEq, Eq)]
pub struct AgentProfileAssignmentsConfig {
    pub master: Option<String>,
    pub master_report: Option<String>,
    pub project_info: Option<String>,
    pub docs_attach: Option<String>,
    pub task_check: Option<String>,
    pub worker_implementor: Option<String>,
    pub worker_auditor: Option<String>,
    pub worker_test_writer: Option<String>,
    pub worker_final_audit: Option<String>,
}

/// Mathematical value of [`AgentProfileAssignmentsConfig`].
pub struct AssignmentsView {
    pub master: Option<Seq<char>>,
    pub master_report: Option<Seq<char>>,
    pub project_info: Option<Seq<char>>,
    pub docs_attach: Option<Seq<char>>,
    pub task_check: Option<Seq<char>>,
    pub worker_implementor: Option<Seq<char>>,
    pub worker_auditor: Option<Seq<char>>,
    pub worker_test_writer: Option<Seq<char>>,
    pub worker_final_audit: Option<Seq<char>>,
}

impl AssignmentsView {
    /// The label stated for `kind`.
    pub open spec fn get(self, kind: CodexAgentKind) -> Option<Seq<char>> {
        match kind {
            CodexAgentKind::Master => self.master,
            CodexAgentKind::MasterReport => self.master_report,
            CodexAgentKind::ProjectInfo => self.project_info,
            CodexAgentKind::DocsAttach => self.docs_attach,
            CodexAgentKind::TaskCheck => self.task_check,
            CodexAgentKind::WorkerImplementor => self.worker_implementor,
            CodexAgentKind::WorkerAuditor => self.worker_auditor,
            CodexAgentKind::WorkerTestWriter => self.worker_test_writer,
            CodexAgentKind::WorkerFinalAudit => self.worker_final_audit,
        }
    }
}

impl View for AgentProfileAssignmentsConfig {
    type V = AssignmentsView;

    open spec fn view(&self) -> AssignmentsView {
        AssignmentsView {
            master: optional_text(self.master),
            master_report: optional_text(self.master_report),
            project_info: optional_text(self.project_info),
            docs_attach: optional_text(self.docs_attach),
            task_check: optional_text(self.task_check),
            worker_implementor: optional_text(self.worker_implementor),
            worker_auditor: optional_text(self.worker_auditor),
            worker_test_writer: optional_text(self.worker_test_writer),
            worker_final_audit: optional_text(self.worker_final_audit),
        }
    }
}

/// The label of each role once a configuration is in force.
#[derive(Debug, Clone, PartialEq, Eq)]
pub struct AgentProfileAssignments {
    pub master: String,
    pub master_report: String,
    pub project_info: String,
    pub docs_attach: String,
    pub task_check: String,
    pub worker_implementor: String,
    pub worker_auditor: String,
    pub worker_test_writer: String,
    pub worker_final_audit: String,
}

/// Mathematical value of [`AgentProfileAssignments`].
pub struct LabelsView {
    pub master: Seq<char>,
    pub master_report: Seq<char>,
    pub project_info: Seq<char>,
    pub docs_attach: Seq<char>,
    pub task_check: Seq<char>,
    pub worker_implementor: Seq<char>,
    pub worker_auditor: Seq<char>,
    pub worker_test_writer: Seq<char>,
    pub worker_final_audit: Seq<char>,
}

impl LabelsView {
    /// The label in force for `kind`.
    pub open spec fn get(self, kind: CodexAgentKind) -> Seq<char> {
        match kind {
            CodexAgentKind::Master => self.master,
            CodexAgentKind::MasterReport => self.master_report,
            CodexAgentKind::ProjectInfo => self.project_info,
            CodexAgentKind::DocsAttach => self.docs_attach,
            CodexAgentKind::TaskCheck => self.task_check,
            CodexAgentKind::WorkerImplementor => self.worker_implementor,
            CodexAgentKind::WorkerAuditor => self.worker_auditor,
            CodexAgentKind::WorkerTestWriter => self.worker_test_writer,
            CodexAgentKind::WorkerFinalAudit => self.worker_final_audit,
        }
    }
}

impl View for AgentProfileAssignments {
    type V = LabelsView;

    open spec fn view(&self) -> LabelsView {
        LabelsView {
            master: self.master@,
            master_report: self.master_report@,
            project_info: self.project_info@,
            docs_attach: self.docs_attach@,
            task_check: self.task_check@,
            worker_implementor: self.worker_implementor@,
            worker_auditor: self.worker_auditor@,
            worker_test_writer: self.worker_test_writer@,
            worker_final_audit: self.worker_final_audit@,
        }
    }
}

/// The model section of a configuration file: profiles by label, in the
/// order in which they are stated, and the label of each role. Where a
/// label is stated twice the later statement counts, also where it names
/// no model.
#[derive(Debug, Clone, PartialEq, Eq)]
pub struct CodexModelConfigFile {
    pub model_profiles: Vec<(String, CodexModelProfileConfig)>,
    pub agent_profiles: AgentProfileAssignmentsConfig,
}

/// The values of a list of labelled profiles.
pub open spec fn profile_list(list: Seq<(String, CodexModelProfileConfig)>) -> Seq<
    (Seq<char>, ProfileView),
> {
    Seq::new(list.len(), |i: int| (list[i].0@, list[i].1@))
}

/// Mathematical value of [`CodexModelConfigFile`].
pub struct ConfigView {
    pub profiles: Seq<(Seq<char>, ProfileView)>,
    pub assignments: AssignmentsView,
}

impl View for CodexModelConfigFile {
    type V = ConfigView;

    open spec fn view(&self) -> ConfigView {
        ConfigView {
            profiles: profile_list(self.model_profiles@),
            assignments: self.agent_profiles@,
        }
    }
}

/// A configuration file, as far as model routing reads it.
#[derive(Debug, Clone, PartialEq, Eq)]
pub struct MetaAgentConfigFile {
    pub codex: CodexModelConfigFile,
}

impl View for MetaAgentConfigFile {
    type V = ConfigView;

    open spec fn view(&self) -> ConfigView {
        self.codex@
    }
}

/// Why a configuration text was not accepted. Either way its data is invalid.
#[derive(Debug)]
pub enum ConfigError {
    /// The text is not a TOML document.
    Syntax(toml::de::Error),
    /// The text is a TOML document, but a value that model routing reads
    /// is not of the kind that belongs in its place.
    Shape,
}

impl ConfigError {
    /// The error code under which a refused configuration travels: its
    /// data is invalid, whichever way it was refused.
    pub fn code(&self) -> (code: ApiErrorCode)
        ensures
            code == ApiErrorCode::ValidationFailed,
    {
        ApiErrorCode::ValidationFailed
    }
}

// ---------------------------------------------------------------------------
// Labels
// ---------------------------------------------------------------------------

/// A label as it is compared: trimmed, with its ASCII letters made small.
pub open spec fn normalized_label(label: Seq<char>) -> Seq<char> {
    ascii_lowercase(trimmed(label))
}

/// The label in force for a role: the stated one, normalized; the default
/// label where none is stated or the stated one is blank.
pub open spec fn assignment_label(raw: Option<Seq<char>>) -> Seq<char> {
    let stated = match raw {
        Some(label) => label,
        None => DEFAULT_PROFILE_LABEL@,
    };
    if normalized_label(stated).len() == 0 {
        DEFAULT_PROFILE_LABEL@
    } else {
        normalized_label(stated)
    }
}

/// Normalizes a label: trims it and makes its ASCII letters small.
pub fn normalize_profile_label(label: &str) -> (normalized: String)
    ensures
        normalized@ == normalized_label(label@),
{
    to_ascii_lowercase(trim(label).as_str())
}

/// The label in force for a role of which `raw` is stated.
pub fn normalize_assignment(raw: Option<&str>) -> (label: String)
    ensures
        label@ == assignment_label(
            match raw {
                Some(r) => Some(r@),
                None => None,
            },
        ),
{
    let normalized = normalize_profile_label(
        match raw {
            Some(r) => r,
            None => DEFAULT_PROFILE_LABEL,
        },
    );
    if normalized.as_str().is_empty() {
        return String::from_str(DEFAULT_PROFILE_LABEL);
    }
    normalized
}

/// Normalizing a label a second time changes nothing.
pub proof fn lemma_normalized_label_idempotent(label: Seq<char>)
    ensures
        normalized_label(normalized_label(label)) == normalized_label(label),
{
    let t = trimmed(label);
    lemma_lowercase_trim_commute(t);
    lemma_trimmed_idempotent(label);
}

/// Labels that differ only in the case of their ASCII letters are the same
/// label once normalized.
pub proof fn lemma_normalized_label_ignores_case(a: Seq<char>, b: Seq<char>)
    requires
        ascii_lowercase(a) == ascii_lowercase(b),
    ensures
        normalized_label(a) == normalized_label(b),
{
    lemma_lowercase_trim_commute(a);
    lemma_lowercase_trim_commute(b);
}

/// A normalized label neither starts nor ends with white space, and the
/// label itself and its trimming normalize alike.
pub proof fn lemma_normalized_label_is_trimmed(label: Seq<char>)
    ensures
        trimmed(normalized_label(label)) == normalized_label(label),
        normalized_label(trimmed(label)) == normalized_label(label),
        normalized_label(label).len() > 0 ==> !is_whitespace_spec(normalized_label(label)[0])
            && !is_whitespace_spec(normalized_label(label).last()),
{
    lemma_lowercase_trim_commute(trimmed(label));
    lemma_trimmed_idempotent(label);
    lemma_trimmed_shape(normalized_label(label));
}

// ---------------------------------------------------------------------------
// From configuration to routing
// ---------------------------------------------------------------------------

/// The profile that is hard-wired for the case that no configuration names one.
pub open spec fn fallback_profile() -> ProfileView {
    ProfileView { model: "gpt-5.3-codex"@, thinking_effort: Some("medium"@) }
}

/// The profile a stated profile amounts to: none where its model is
/// blank; else the trimmed model, with the trimmed thinking effort unless
/// that is absent or blank.
pub open spec fn runtime_profile(stated: ProfileView) -> Option<ProfileView> {
    if trimmed(stated.model).len() == 0 {
        None
    } else {
        Some(
            ProfileView {
                model: trimmed(stated.model),
                thinking_effort: match stated.thinking_effort {
                    Some(effort) => if trimmed(effort).len() == 0 {
                        None
                    } else {
                        Some(trimmed(effort))
                    },
                    None => None,
                },
            },
        )
    }
}

/// The usable profiles of a list of stated ones, by normalized label.
/// A later statement replaces the earlier ones of the same normalized
/// label; where its model is blank, the label is left without a profile.
pub open spec fn routing_profiles(list: Seq<(Seq<char>, ProfileView)>) -> Map<
    Seq<char>,
    ProfileView,
>
    decreases list.len(),
{
    if list.len() == 0 {
        Map::empty()
    } else {
        let earlier = routing_profiles(list.drop_last());
        match runtime_profile(list.last().1) {
            Some(profile) => earlier.insert(normalized_label(list.last().0), profile),
            None => earlier.remove(normalized_label(list.last().0)),
        }
    }
}

/// The profile stated last under a label that normalizes to `label`.
pub open spec fn stated_under(list: Seq<(Seq<char>, ProfileView)>, label: Seq<char>) -> Option<
    ProfileView,
>
    decreases list.len(),
{
    if list.len() == 0 {
        None
    } else if normalized_label(list.last().0) == label {
        Some(list.last().1)
    } else {
        stated_under(list.drop_last(), label)
    }
}

/// The profile that a map holds under `label`, if it holds one.
pub open spec fn profile_at(profiles: Map<Seq<char>, ProfileView>, label: Seq<char>) -> Option<
    ProfileView,
> {
    if profiles.contains_key(label) {
        Some(profiles[label])
    } else {
        None
    }
}

/// The labels in force under the stated assignments.
pub open spec fn runtime_labels(stated: AssignmentsView) -> LabelsView {
    LabelsView {
        master: assignment_label(stated.master),
        master_report: assignment_label(stated.master_report),
        project_info: assignment_label(stated.project_info),
        docs_attach: assignment_label(stated.docs_attach),
        task_check: assignment_label(stated.task_check),
        worker_implementor: assignment_label(stated.worker_implementor),
        worker_auditor: assignment_label(stated.worker_auditor),
        worker_test_writer: assignment_label(stated.worker_test_writer),
        worker_final_audit: assignment_label(stated.worker_final_audit),
    }
}

/// Mathematical value of a routing: the usable profiles by normalized
/// label, and the label of each role.
pub struct RoutingView {
    pub profiles: Map<Seq<char>, ProfileView>,
    pub labels: LabelsView,
}

/// The routing that a configuration amounts to.
pub open spec fn routing_of(config: ConfigView) -> RoutingView {
    RoutingView {
        profiles: routing_profiles(config.profiles),
        labels: runtime_labels(config.assignments),
    }
}

/// The stated assignments of `base` with those of `over` laid over them.
pub open spec fn merged_assignments(
    base: AssignmentsView,
    over: AssignmentsView,
) -> AssignmentsView {
    AssignmentsView {
        master: if over.master is Some {
            over.master
        } else {
            base.master
        },
        master_report: if over.master_report is Some {
            over.master_report
        } else {
            base.master_report
        },
        project_info: if over.project_info is Some {
            over.project_info
        } else {
            base.project_info
        },
        docs_attach: if over.docs_attach is Some {
            over.docs_attach
        } else {
            base.docs_attach
        },
        task_check: if over.task_check is Some {
            over.task_check
        } else {
            base.task_check
        },
        worker_implementor: if over.worker_implementor is Some {
            over.worker_implementor
        } else {
            base.worker_implementor
        },
        worker_auditor: if over.worker_auditor is Some {
            over.worker_auditor
        } else {
            base.worker_auditor
        },
        worker_test_writer: if over.worker_test_writer is Some {
            over.worker_test_writer
        } else {
            base.worker_test_writer
        },
        worker_final_audit: if over.worker_final_audit is Some {
            over.worker_final_audit
        } else {
            base.worker_final_audit
        },
    }
}

/// The configuration `base` with `over` laid over it: the profiles of
/// `over` are stated after those of `base`, and a role keeps the label of
/// `base` only where `over` states none.
pub open spec fn merged(base: ConfigView, over: ConfigView) -> ConfigView {
    ConfigView {
        profiles: base.profiles + over.profiles,
        assignments: merged_assignments(base.assignments, over.assignments),
    }
}

/// A configuration that states nothing.
pub open spec fn empty_config() -> ConfigView {
    ConfigView {
        profiles: Seq::empty(),
        assignments: AssignmentsView {
            master: None,
            master_report: None,
            project_info: None,
            docs_attach: None,
            task_check: None,
            worker_implementor: None,
            worker_auditor: None,
            worker_test_writer: None,
            worker_final_audit: None,
        },
    }
}

/// The profile a routing gives a role: the one under the role's label,
/// else the one under the default label, else the hard-wired one.
pub open spec fn routed_profile(routing: RoutingView, kind: CodexAgentKind) -> ProfileView {
    if routing.profiles.contains_key(routing.labels.get(kind)) {
        routing.profiles[routing.labels.get(kind)]
    } else if routing.profiles.contains_key(DEFAULT_PROFILE_LABEL@) {
        routing.profiles[DEFAULT_PROFILE_LABEL@]
    } else {
        fallback_profile()
    }
}

/// The profile stated last under exactly `label`.
pub open spec fn stated_profile(list: Seq<(Seq<char>, ProfileView)>, label: Seq<char>) -> Option<
    ProfileView,
>
    decreases list.len(),
{
    if list.len() == 0 {
        None
    } else if list.last().0 == label {
        Some(list.last().1)
    } else {
        stated_profile(list.drop_last(), label)
    }
}

impl CodexModelProfile {
    /// The profile a stated profile amounts to, none where its model is blank.
    pub fn from_config(config: &CodexModelProfileConfig) -> (profile: Option<Self>)
        ensures
            match profile {
                Some(p) => runtime_profile(config@) == Some(p@),
                None => runtime_profile(config@) is None,
            },
    {
        let model = trim(config.model.as_str());
        if model.as_str().is_empty() {
            return None;
        }
        let thinking_effort = match &config.thinking_effort {
            Some(value) => {
                let effort = trim(value.as_str());
                if effort.as_str().is_empty() {
                    None
                } else {
                    Some(effort)
                }
            },
            None => None,
        };
        Some(CodexModelProfile { model, thinking_effort })
    }
}

/// The hard-wired profile.
pub fn default_large_smart_profile() -> (profile: CodexModelProfile)
    ensures
        profile@ == fallback_profile(),
{
    CodexModelProfile {
        model: String::from_str("gpt-5.3-codex"),
        thinking_effort: Some(String::from_str("medium")),
    }
}

/// `over` where it states something, else `base`.
fn or_else(over: Option<String>, base: Option<String>) -> (chosen: Option<String>)
    ensures
        chosen == if over is Some {
            over
        } else {
            base
        },
{
    match over {
        Some(label) => Some(label),
        None => base,
    }
}

impl AgentProfileAssignmentsConfig {
    /// Assignments that state nothing.
    pub fn empty() -> (config: Self)
        ensures
            config@ == empty_config().assignments,
    {
        AgentProfileAssignmentsConfig {
            master: None,
            master_report: None,
            project_info: None,
            docs_attach: None,
            task_check: None,
            worker_implementor: None,
            worker_auditor: None,
            worker_test_writer: None,
            worker_final_audit: None,
        }
    }

    /// These assignments with `override_cfg` laid over them.
    pub fn merged_with(self, override_cfg: Self) -> (merged: Self)
        ensures
            merged@ == merged_assignments(self@, override_cfg@),
    {
        AgentProfileAssignmentsConfig {
            master: or_else(override_cfg.master, self.master),
            master_report: or_else(override_cfg.master_report, self.master_report),
            project_info: or_else(override_cfg.project_info, self.project_info),
            docs_attach: or_else(override_cfg.docs_attach, self.docs_attach),
            task_check: or_else(override_cfg.task_check, self.task_check),
            worker_implementor: or_else(override_cfg.worker_implementor, self.worker_implementor),
            worker_auditor: or_else(override_cfg.worker_auditor, self.worker_auditor),
            worker_test_writer: or_else(override_cfg.worker_test_writer, self.worker_test_writer),
            worker_final_audit: or_else(override_cfg.worker_final_audit, self.worker_final_audit),
        }
    }

    /// The labels in force under these assignments.
    pub fn into_runtime(self) -> (labels: AgentProfileAssignments)
        ensures
            labels@ == runtime_labels(self@),
    {
        AgentProfileAssignments {
            master: normalize_assignment(as_deref(&self.master)),
            master_report: normalize_assignment(as_deref(&self.master_report)),
            project_info: normalize_assignment(as_deref(&self.project_info)),
            docs_attach: normalize_assignment(as_deref(&self.docs_attach)),
            task_check: normalize_assignment(as_deref(&self.task_check)),
            worker_implementor: normalize_assignment(as_deref(&self.worker_implementor)),
            worker_auditor: normalize_assignment(as_deref(&self.worker_auditor)),
            worker_test_writer: normalize_assignment(as_deref(&self.worker_test_writer)),
            worker_final_audit: normalize_assignment(as_deref(&self.worker_final_audit)),
        }
    }
}

impl Default for AgentProfileAssignments {
    /// Every role on the default label.
    fn default() -> (labels: Self)
        ensures
            forall|kind: CodexAgentKind| labels@.get(kind) == DEFAULT_PROFILE_LABEL@,
    {
        AgentProfileAssignments {
            master: String::from_str(DEFAULT_PROFILE_LABEL),
            master_report: String::from_str(DEFAULT_PROFILE_LABEL),
            project_info: String::from_str(DEFAULT_PROFILE_LABEL),
            docs_attach: String::from_str(DEFAULT_PROFILE_LABEL),
            task_check: String::from_str(DEFAULT_PROFILE_LABEL),
            worker_implementor: String::from_str(DEFAULT_PROFILE_LABEL),
            worker_auditor: String::from_str(DEFAULT_PROFILE_LABEL),
            worker_test_writer: String::from_str(DEFAULT_PROFILE_LABEL),
            worker_final_audit: String::from_str(DEFAULT_PROFILE_LABEL),
        }
    }
}

impl AgentProfileAssignments {
    /// The label in force for `kind`.
    pub fn label_for(&self, kind: CodexAgentKind) -> (label: &str)
        ensures
            label@ == self@.get(kind),
    {
        match kind {
            CodexAgentKind::Master => self.master.as_str(),
            CodexAgentKind::MasterReport => self.master_report.as_str(),
            CodexAgentKind::ProjectInfo => self.project_info.as_str(),
            CodexAgentKind::DocsAttach => self.docs_attach.as_str(),
            CodexAgentKind::TaskCheck => self.task_check.as_str(),
            CodexAgentKind::WorkerImplementor => self.worker_implementor.as_str(),
            CodexAgentKind::WorkerAuditor => self.worker_auditor.as_str(),
            CodexAgentKind::WorkerTestWriter => self.worker_test_writer.as_str(),
            CodexAgentKind::WorkerFinalAudit => self.worker_final_audit.as_str(),
        }
    }
}

impl CodexModelConfigFile {
    /// A model section that states nothing.
    pub fn empty() -> (config: Self)
        ensures
            config@ == empty_config(),
    {
        let config = CodexModelConfigFile {
            model_profiles: Vec::new(),
            agent_profiles: AgentProfileAssignmentsConfig::empty(),
        };
        assert(config@.profiles =~= Seq::empty());
        config
    }

    /// This model section with `override_cfg` laid over it.
    pub fn merged_with(self, override_cfg: Self) -> (merged_config: Self)
        ensures
            merged_config@ == merged(self@, override_cfg@),
    {
        let mut model_profiles = self.model_profiles;
        let mut additions = override_cfg.model_profiles;
        let ghost base = profile_list(model_profiles@);
        let ghost over = profile_list(additions@);
        model_profiles.append(&mut additions);
        assert(profile_list(model_profiles@) =~= base + over);
        CodexModelConfigFile {
            model_profiles,
            agent_profiles: self.agent_profiles.merged_with(override_cfg.agent_profiles),
        }
    }
}

// ---------------------------------------------------------------------------
// Reading a configuration document
// ---------------------------------------------------------------------------

/// What a table states under `key` where a string belongs: nothing, a
/// string, or (the outer none) a value that is no string.
pub open spec fn string_field(table: Toml, key: Seq<char>) -> Option<Option<Seq<char>>> {
    match entry(table, key) {
        None => Some(None),
        Some(Toml::Text(text)) => Some(Some(text)),
        Some(_) => None,
    }
}

/// What a table states under `key` where a table belongs: nothing, a
/// table, or (the outer none) a value that is no table.
pub open spec fn table_field(table: Toml, key: Seq<char>) -> Option<Option<Toml>> {
    match entry(table, key) {
        None => Some(None),
        Some(value) => if value is Table {
            Some(Some(value))
        } else {
            None
        },
    }
}

/// The profile that a table states: its `model`, empty where it states
/// none, and its `thinking_effort`. None where either is no string.
pub open spec fn document_profile(table: Toml) -> Option<ProfileView> {
    match (string_field(table, "model"@), string_field(table, "thinking_effort"@)) {
        (Some(model), Some(thinking_effort)) => Some(
            ProfileView {
                model: match model {
                    Some(m) => m,
                    None => Seq::empty(),
                },
                thinking_effort,
            },
        ),
        _ => None,
    }
}

/// The profiles that the entries of a table state, each under its label,
/// in the order of the entries. None where one of the entries is no
/// table or states no profile.
pub open spec fn document_profiles(entries: Seq<(Seq<char>, Toml)>) -> Option<
    Seq<(Seq<char>, ProfileView)>,
>
    decreases entries.len(),
{
    if entries.len() == 0 {
        Some(Seq::empty())
    } else {
        match document_profiles(entries.drop_last()) {
            Some(earlier) => if entries.last().1 is Table {
                match document_profile(entries.last().1) {
                    Some(profile) => Some(earlier.push((entries.last().0, profile))),
                    None => None,
                }
            } else {
                None
            },
            None => None,
        }
    }
}

/// The assignments that a table states. None where one of them is no string.
pub open spec fn document_assignments(table: Toml) -> Option<AssignmentsView> {
    if string_field(table, "master"@) is Some
        && string_field(table, "master_report"@) is Some
        && string_field(table, "project_info"@) is Some
        && string_field(table, "docs_attach"@) is Some
        && string_field(table, "task_check"@) is Some
        && string_field(table, "worker_implementor"@) is Some
        && string_field(table, "worker_auditor"@) is Some
        && string_field(table, "worker_test_writer"@) is Some
        && string_field(table, "worker_final_audit"@) is Some {
        Some(
            AssignmentsView {
                master: string_field(table, "master"@)->0,
                master_report: string_field(table, "master_report"@)->0,
                project_info: string_field(table, "project_info"@)->0,
                docs_attach: string_field(table, "docs_attach"@)->0,
                task_check: string_field(table, "task_check"@)->0,
                worker_implementor: string_field(table, "worker_implementor"@)->0,
                worker_auditor: string_field(table, "worker_auditor"@)->0,
                worker_test_writer: string_field(table, "worker_test_writer"@)->0,
                worker_final_audit: string_field(table, "worker_final_audit"@)->0,
            },
        )
    } else {
        None
    }
}

/// The model section that the table `codex` states. None where
/// `model_profiles` or `agent_profiles` is stated but is no table, or
/// where what they state is none.
pub open spec fn document_codex(codex: Toml) -> Option<ConfigView> {
    match (table_field(codex, "model_profiles"@), table_field(codex, "agent_profiles"@)) {
        (Some(profiles), Some(assignments)) => {
            let profiles = match profiles {
                Some(table) => document_profiles(entries_of(table)),
                None => Some(Seq::empty()),
            };
            let assignments = match assignments {
                Some(table) => document_assignments(table),
                None => Some(empty_config().assignments),
            };
            match (profiles, assignments) {
                (Some(profiles), Some(assignments)) => Some(ConfigView { profiles, assignments }),
                _ => None,
            }
        },
        _ => None,
    }
}

/// The configuration that a document states: that of its table `codex`,
/// nothing where it has none.
pub open spec fn document_config(document: Toml) -> Option<ConfigView> {
    match table_field(document, "codex"@) {
        Some(Some(codex)) => document_codex(codex),
        Some(None) => Some(empty_config()),
        None => None,
    }
}

/// The configuration that a text states. None where the text is no TOML
/// document or the document states none.
pub open spec fn text_config(text: Seq<char>) -> Option<ConfigView> {
    match parsed_document(text) {
        Some(document) => document_config(document),
        None => None,
    }
}

/// The view of an optional optional string.
pub open spec fn field_text(field: Option<Option<String>>) -> Option<Option<Seq<char>>> {
    match field {
        Some(stated) => Some(optional_text(stated)),
        None => None,
    }
}

fn read_string_field(table: &toml::Value, key: &str) -> (field: Option<Option<String>>)
    ensures
        field_text(field) == string_field(toml_of(*table), key@),
{
    match get(table, key) {
        None => Some(None),
        Some(value) => match value.as_str() {
            Some(text) => Some(Some(String::from_str(text))),
            None => None,
        },
    }
}

fn read_table_field<'a>(table: &'a toml::Value, key: &str) -> (field: Option<
    Option<&'a toml::Value>,
>)
    ensures
        match field {
            Some(Some(value)) => table_field(toml_of(*table), key@) == Some(Some(toml_of(*value))),
            Some(None) => table_field(toml_of(*table), key@) == Some(None::<Toml>),
            None => table_field(toml_of(*table), key@) is None,
        },
{
    match get(table, key) {
        None => Some(None),
        Some(value) => {
            if value.is_table() {
                Some(Some(value))
            } else {
                None
            }
        },
    }
}

fn read_profile(table: &toml::Value) -> (profile: Option<CodexModelProfileConfig>)
    ensures
        match profile {
            Some(p) => document_profile(toml_of(*table)) == Some(p@),
            None => document_profile(toml_of(*table)) is None,
        },
{
    let model = match read_string_field(table, "model") {
        Some(Some(model)) => model,
        Some(None) => String::new(),
        None => {
            return None;
        },
    };
    let thinking_effort = match read_string_field(table, "thinking_effort") {
        Some(stated) => stated,
        None => {
            return None;
        },
    };
    Some(CodexModelProfileConfig { model, thinking_effort })
}

fn read_profiles(table: &toml::Value) -> (profiles: Option<Vec<(String, CodexModelProfileConfig)>>)
    ensures
        match profiles {
            Some(list) => document_profiles(entries_of(toml_of(*table))) == Some(
                profile_list(list@),
            ),
            None => document_profiles(entries_of(toml_of(*table))) is None,
        },
{
    let stated = entries(table);
    let ghost all = entries_of(toml_of(*table));
    let mut list: Vec<(String, CodexModelProfileConfig)> = Vec::new();
    let mut i: usize = 0;
    assert(all.take(0) =~= Seq::empty());
    assert(profile_list(list@) =~= Seq::empty());
    while i < stated.len()
        invariant
            i <= stated.len() == all.len(),
            all == entries_of(toml_of(*table)),
            forall|j: int|
                0 <= j < stated@.len() ==> (#[trigger] stated@[j]).0@ == all[j].0 && toml_of(
                    *stated@[j].1,
                ) == all[j].1,
            document_profiles(all.take(i as int)) == Some(profile_list(list@)),
        decreases stated.len() - i,
    {
        proof {
            assert(all.take(i + 1).drop_last() == all.take(i as int));
            assert(all.take(i + 1).last() == all[i as int]);
        }
        let value: &toml::Value = stated[i].1;
        let profile = if value.is_table() {
            read_profile(value)
        } else {
            None
        };
        match profile {
            Some(profile) => {
                let ghost earlier = profile_list(list@);
                list.push((stated[i].0.clone(), profile));
                assert(profile_list(list@) =~= earlier.push((all[i as int].0, profile@)));
            },
            None => {
                proof {
                    lemma_profiles_stay_none(all, i + 1);
                }
                return None;
            },
        }
        i += 1;
    }
    assert(all.take(i as int) == all);
    Some(list)
}

/// Once an entry fails, the table as a whole fails.
proof fn lemma_profiles_stay_none(entries: Seq<(Seq<char>, Toml)>, n: int)
    requires
        0 <= n <= entries.len(),
        document_profiles(entries.take(n)) is None,
    ensures
        document_profiles(entries) is None,
    decreases entries.len() - n,
{
    if n < entries.len() {
        assert(entries.take(n + 1).drop_last() == entries.take(n));
        lemma_profiles_stay_none(entries, n + 1);
    } else {
        assert(entries.take(n) == entries);
    }
}

fn read_assignments(table: &toml::Value) -> (assignments: Option<AgentProfileAssignmentsConfig>)
    ensures
        match assignments {
            Some(a) => document_assignments(toml_of(*table)) == Some(a@),
            None => document_assignments(toml_of(*table)) is None,
        },
{
    let master = match read_string_field(table, "master") {
        Some(stated) => stated,
        None => {
            return None;
        },
    };
    let master_report = match read_string_field(table, "master_report") {
        Some(stated) => stated,
        None => {
            return None;
        },
    };
    let project_info = match read_string_field(table, "project_info") {
        Some(stated) => stated,
        None => {
            return None;
        },
    };
    let docs_attach = match read_string_field(table, "docs_attach") {
        Some(stated) => stated,
        None => {
            return None;
        },
    };
    let task_check = match read_string_field(table, "task_check") {
        Some(stated) => stated,
        None => {
            return None;
        },
    };
    let worker_implementor = match read_string_field(table, "worker_implementor") {
        Some(stated) => stated,
        None => {
            return None;
        },
    };
    let worker_auditor = match read_string_field(table, "worker_auditor") {
        Some(stated) => stated,
        None => {
            return None;
        },
    };
    let worker_test_writer = match read_string_field(table, "worker_test_writer") {
        Some(stated) => stated,
        None => {
            return None;
        },
    };
    let worker_final_audit = match read_string_field(table, "worker_final_audit") {
        Some(stated) => stated,
        None => {
            return None;
        },
    };
    Some(
        AgentProfileAssignmentsConfig {
            master,
            master_report,
            project_info,
            docs_attach,
            task_check,
            worker_implementor,
            worker_auditor,
            worker_test_writer,
            worker_final_audit,
        },
    )
}

fn read_codex(codex: &toml::Value) -> (config: Option<CodexModelConfigFile>)
    ensures
        match config {
            Some(c) => document_codex(toml_of(*codex)) == Some(c@),
            None => document_codex(toml_of(*codex)) is None,
        },
{
    let profiles = match read_table_field(codex, "model_profiles") {
        Some(profiles) => profiles,
        None => {
            return None;
        },
    };
    let assignments = match read_table_field(codex, "agent_profiles") {
        Some(assignments) => assignments,
        None => {
            return None;
        },
    };
    let model_profiles = match profiles {
        Some(table) => match read_profiles(table) {
            Some(list) => list,
            None => {
                return None;
            },
        },
        None => {
            let list: Vec<(String, CodexModelProfileConfig)> = Vec::new();
            assert(profile_list(list@) =~= Seq::empty());
            list
        },
    };
    let agent_profiles = match assignments {
        Some(table) => match read_assignments(table) {
            Some(stated) => stated,
            None => {
                return None;
            },
        },
        None => AgentProfileAssignmentsConfig::empty(),
    };
    Some(CodexModelConfigFile { model_profiles, agent_profiles })
}

/// Reads the configuration that `text` states.
///
/// The text has to be a TOML document. In it `codex`, `codex.model_profiles`,
/// each entry of that, and `codex.agent_profiles` have to be tables where
/// they are present, and `model`, `thinking_effort` and the label of each
/// role have to be strings where they are present. Whatever else the
/// document holds is passed over.
pub fn parse_config(text: &str) -> (config: Result<MetaAgentConfigFile, ConfigError>)
    ensures
        match config {
            Ok(c) => text_config(text@) == Some(c@),
            Err(ConfigError::Syntax(_)) => parsed_document(text@) is None,
            Err(ConfigError::Shape) => parsed_document(text@) is Some && text_config(text@) is None,
        },
{
    let document = match parse_document(text) {
        Ok(document) => document,
        Err(error) => {
            return Err(ConfigError::Syntax(error));
        },
    };
    let codex = match read_table_field(&document, "codex") {
        Some(Some(codex)) => read_codex(codex),
        Some(None) => Some(CodexModelConfigFile::empty()),
        None => None,
    };
    match codex {
        Some(codex) => Ok(MetaAgentConfigFile { codex }),
        None => Err(ConfigError::Shape),
    }
}

// ---------------------------------------------------------------------------
// Routing
// ---------------------------------------------------------------------------

/// The map that a list of labelled profiles stands for. Where a label
/// occurs twice the later profile counts.
pub open spec fn labelled(pairs: Seq<(String, CodexModelProfile)>) -> Map<Seq<char>, ProfileView>
    decreases pairs.len(),
{
    if pairs.len() == 0 {
        Map::empty()
    } else {
        labelled(pairs.drop_last()).insert(pairs.last().0@, pairs.last().1@)
    }
}

proof fn lemma_labelled_found(pairs: Seq<(String, CodexModelProfile)>, label: Seq<char>, j: int)
    requires
        0 <= j < pairs.len(),
        pairs[j].0@ == label,
        forall|i: int| j < i < pairs.len() ==> (#[trigger] pairs[i]).0@ != label,
    ensures
        labelled(pairs).contains_key(label),
        labelled(pairs)[label] == pairs[j].1@,
    decreases pairs.len(),
{
    if j < pairs.len() - 1 {
        assert(pairs.last().0@ != label);
        lemma_labelled_found(pairs.drop_last(), label, j);
    }
}

proof fn lemma_labelled_missing(pairs: Seq<(String, CodexModelProfile)>, label: Seq<char>)
    requires
        forall|i: int| 0 <= i < pairs.len() ==> (#[trigger] pairs[i]).0@ != label,
    ensures
        !labelled(pairs).contains_key(label),
    decreases pairs.len(),
{
    if pairs.len() > 0 {
        assert(pairs.last().0@ != label);
        lemma_labelled_missing(pairs.drop_last(), label);
    }
}

proof fn lemma_labelled_alike(
    a: Seq<(String, CodexModelProfile)>,
    b: Seq<(String, CodexModelProfile)>,
)
    requires
        a.len() == b.len(),
        forall|j: int| 0 <= j < a.len() ==> (#[trigger] a[j]).0@ == b[j].0@ && a[j].1@ == b[j].1@,
    ensures
        labelled(a) == labelled(b),
    decreases a.len(),
{
    if a.len() > 0 {
        lemma_labelled_alike(a.drop_last(), b.drop_last());
    }
}

/// Every profile of the map names a model.
pub open spec fn names_models(profiles: Map<Seq<char>, ProfileView>) -> bool {
    forall|label: Seq<char>| profiles.contains_key(label) ==>
        (#[trigger] profiles[label]).model.len() > 0
}

proof fn lemma_labelled_names_models(pairs: Seq<(String, CodexModelProfile)>)
    requires
        forall|i: int| 0 <= i < pairs.len() ==> (#[trigger] pairs[i]).1.model@.len() > 0,
    ensures
        names_models(labelled(pairs)),
    decreases pairs.len(),
{
    if pairs.len() > 0 {
        lemma_labelled_names_models(pairs.drop_last());
    }
}

/// The pairs whose label is not `label`, in their order.
fn without_label(pairs: &Vec<(String, CodexModelProfile)>, label: &str) -> (rest: Vec<
    (String, CodexModelProfile),
>)
    requires
        forall|j: int| 0 <= j < pairs@.len() ==> (#[trigger] pairs@[j]).1.model@.len() > 0,
    ensures
        labelled(rest@) == labelled(pairs@).remove(label@),
        forall|j: int| 0 <= j < rest@.len() ==> (#[trigger] rest@[j]).1.model@.len() > 0,
{
    let mut rest: Vec<(String, CodexModelProfile)> = Vec::new();
    let mut i: usize = 0;
    assert(labelled(rest@) =~= labelled(pairs@.take(0)).remove(label@));
    while i < pairs.len()
        invariant
            i <= pairs.len(),
            labelled(rest@) == labelled(pairs@.take(i as int)).remove(label@),
            forall|j: int| 0 <= j < pairs@.len() ==> (#[trigger] pairs@[j]).1.model@.len() > 0,
            forall|j: int| 0 <= j < rest@.len() ==> (#[trigger] rest@[j]).1.model@.len() > 0,
        decreases pairs.len() - i,
    {
        proof {
            assert(pairs@.take(i + 1).drop_last() == pairs@.take(i as int));
            assert(pairs@.take(i + 1).last() == pairs@[i as int]);
        }
        let ghost held = labelled(pairs@.take(i as int));
        if same_text(pairs[i].0.as_str(), label) {
            assert(held.insert(label@, pairs@[i as int].1@).remove(label@) =~= held.remove(label@));
        } else {
            let ghost earlier = rest@;
            rest.push((pairs[i].0.clone(), clone_profile(&pairs[i].1)));
            assert(rest@.drop_last() == earlier);
            assert(held.remove(label@).insert(pairs@[i as int].0@, pairs@[i as int].1@)
                =~= held.insert(pairs@[i as int].0@, pairs@[i as int].1@).remove(label@));
        }
        i += 1;
    }
    assert(pairs@.take(i as int) == pairs@);
    rest
}

/// Which model profile each agent role runs on.
#[derive(Debug)]
pub struct CodexAgentModelRouting {
    profiles: Vec<(String, CodexModelProfile)>,
    agent_profiles: AgentProfileAssignments,
}

impl View for CodexAgentModelRouting {
    type V = RoutingView;

    closed spec fn view(&self) -> RoutingView {
        RoutingView { profiles: labelled(self.profiles@), labels: self.agent_profiles@ }
    }
}

/// A copy of a profile.
fn clone_profile(profile: &CodexModelProfile) -> (copy: CodexModelProfile)
    ensures
        copy@ == profile@,
{
    CodexModelProfile {
        model: profile.model.clone(),
        thinking_effort: clone_optional(&profile.thinking_effort),
    }
}

/// The routing used where even the embedded configuration cannot be
/// read: the hard-wired profile under the default label, for every role.
pub open spec fn emergency_routing() -> RoutingView {
    RoutingView {
        profiles: Map::<Seq<char>, ProfileView>::empty().insert(
            DEFAULT_PROFILE_LABEL@,
            fallback_profile(),
        ),
        labels: LabelsView {
            master: DEFAULT_PROFILE_LABEL@,
            master_report: DEFAULT_PROFILE_LABEL@,
            project_info: DEFAULT_PROFILE_LABEL@,
            docs_attach: DEFAULT_PROFILE_LABEL@,
            task_check: DEFAULT_PROFILE_LABEL@,
            worker_implementor: DEFAULT_PROFILE_LABEL@,
            worker_auditor: DEFAULT_PROFILE_LABEL@,
            worker_test_writer: DEFAULT_PROFILE_LABEL@,
            worker_final_audit: DEFAULT_PROFILE_LABEL@,
        },
    }
}

impl CodexAgentModelRouting {
    #[verifier::type_invariant]
    spec fn every_profile_names_a_model(self) -> bool {
        forall|i: int| 0 <= i < self.profiles@.len() ==>
            (#[trigger] self.profiles@[i]).1.model@.len() > 0
    }

    /// The profile stated last under `label`.
    fn lookup(&self, label: &str) -> (found: Option<&CodexModelProfile>)
        ensures
            match found {
                Some(profile) => self@.profiles.contains_key(label@) && self@.profiles[label@]
                    == profile@,
                None => !self@.profiles.contains_key(label@),
            },
    {
        let mut i: usize = self.profiles.len();
        while i > 0
            invariant
                i <= self.profiles.len(),
                forall|j: int| i <= j < self.profiles.len() ==>
                    (#[trigger] self.profiles@[j]).0@ != label@,
            decreases i,
        {
            i -= 1;
            if same_text(self.profiles[i].0.as_str(), label) {
                proof {
                    lemma_labelled_found(self.profiles@, label@, i as int);
                }
                return Some(&self.profiles[i].1);
            }
        }
        proof {
            lemma_labelled_missing(self.profiles@, label@);
        }
        None
    }

    /// The routing that the embedded configuration with the configuration
    /// `text` laid over it amounts to. Fails where either of the two is
    /// no TOML document or states no configuration; the embedded
    /// configuration is read first, so its failure is the one reported.
    pub fn from_toml_str(text: &str) -> (routing: Result<Self, ConfigError>)
        ensures
            match routing {
                Ok(r) => text_config(DEFAULT_CONFIG_TOML@) is Some && text_config(text@) is Some
                    && r@ == routing_of(
                    merged(text_config(DEFAULT_CONFIG_TOML@)->0, text_config(text@)->0),
                ),
                Err(ConfigError::Syntax(_)) => parsed_document(DEFAULT_CONFIG_TOML@) is None || (
                text_config(DEFAULT_CONFIG_TOML@) is Some && parsed_document(text@) is None),
                Err(ConfigError::Shape) => (parsed_document(DEFAULT_CONFIG_TOML@) is Some
                    && text_config(DEFAULT_CONFIG_TOML@) is None) || (text_config(
                    DEFAULT_CONFIG_TOML@,
                ) is Some && parsed_document(text@) is Some && text_config(text@) is None),
            },
    {
        let default_config = match parse_config(DEFAULT_CONFIG_TOML) {
            Ok(config) => config,
            Err(error) => {
                return Err(error);
            },
        };
        let override_config = match parse_config(text) {
            Ok(config) => config,
            Err(error) => {
                return Err(error);
            },
        };
        Ok(Self::from_merged_config(default_config, override_config))
    }

    /// The profile for the role `kind`: the one under the role's label,
    /// else the one under the default label, else the hard-wired one. Its
    /// model is never empty.
    pub fn profile_for(&self, kind: CodexAgentKind) -> (profile: CodexModelProfile)
        ensures
            profile@ == routed_profile(self@, kind),
            profile.model@.len() > 0,
    {
        proof {
            use_type_invariant(self);
            lemma_labelled_names_models(self.profiles@);
            reveal_strlit("gpt-5.3-codex");
        }
        let label = self.agent_profiles.label_for(kind);
        match self.lookup(label) {
            Some(profile) => clone_profile(profile),
            None => match self.lookup(DEFAULT_PROFILE_LABEL) {
                Some(profile) => clone_profile(profile),
                None => default_large_smart_profile(),
            },
        }
    }

    /// The routing that `config` amounts to.
    pub fn from_config(config: MetaAgentConfigFile) -> (routing: Self)
        ensures
            routing@ == routing_of(config@),
    {
        Self::from_codex_config(config.codex)
    }

    /// The routing that `base` with `override_cfg` laid over it amounts to.
    pub fn from_merged_config(
        base: MetaAgentConfigFile,
        override_cfg: MetaAgentConfigFile,
    ) -> (routing: Self)
        ensures
            routing@ == routing_of(merged(base@, override_cfg@)),
    {
        let merged_codex = base.codex.merged_with(override_cfg.codex);
        Self::from_codex_config(merged_codex)
    }

    /// The routing that the model section `config` amounts to.
    pub fn from_codex_config(config: CodexModelConfigFile) -> (routing: Self)
        ensures
            routing@ == routing_of(config@),
    {
        let mut profiles: Vec<(String, CodexModelProfile)> = Vec::new();
        let ghost stated = profile_list(config.model_profiles@);
        let mut i: usize = 0;
        while i < config.model_profiles.len()
            invariant
                i <= config.model_profiles.len(),
                stated == profile_list(config.model_profiles@),
                labelled(profiles@) == routing_profiles(stated.take(i as int)),
                forall|j: int|
                    0 <= j < profiles@.len() ==> (#[trigger] profiles@[j]).1.model@.len() > 0,
            decreases config.model_profiles.len() - i,
        {
            proof {
                assert(stated.take(i + 1).drop_last() == stated.take(i as int));
                assert(stated.take(i + 1).last() == stated[i as int]);
            }
            let label = normalize_profile_label(config.model_profiles[i].0.as_str());
            match CodexModelProfile::from_config(&config.model_profiles[i].1) {
                Some(parsed_profile) => {
                    let ghost earlier = profiles@;
                    profiles.push((label, parsed_profile));
                    assert(profiles@.drop_last() == earlier);
                },
                None => {
                    profiles = without_label(&profiles, label.as_str());
                },
            }
            i += 1;
        }
        assert(stated.take(i as int) == stated);
        CodexAgentModelRouting { profiles, agent_profiles: config.agent_profiles.into_runtime() }
    }

    /// The routing used where even the embedded configuration cannot be read.
    pub fn emergency_fallback() -> (routing: Self)
        ensures
            routing@ == emergency_routing(),
    {
        let mut profiles: Vec<(String, CodexModelProfile)> = Vec::new();
        profiles.push((String::from_str(DEFAULT_PROFILE_LABEL), default_large_smart_profile()));
        proof {
            reveal_strlit("gpt-5.3-codex");
            assert(profiles@.drop_last() == Seq::<(String, CodexModelProfile)>::empty());
            assert(labelled(profiles@.drop_last()) == Map::<Seq<char>, ProfileView>::empty());
            assert(profiles@.last().0@ == DEFAULT_PROFILE_LABEL@);
            assert(profiles@.last().1@ == fallback_profile());
            assert(labelled(profiles@) =~= emergency_routing().profiles);
        }
        let agent_profiles = AgentProfileAssignments::default();
        proof {
            assert(agent_profiles@.get(CodexAgentKind::Master) == DEFAULT_PROFILE_LABEL@);
            assert(agent_profiles@.get(CodexAgentKind::MasterReport) == DEFAULT_PROFILE_LABEL@);
            assert(agent_profiles@.get(CodexAgentKind::ProjectInfo) == DEFAULT_PROFILE_LABEL@);
            assert(agent_profiles@.get(CodexAgentKind::DocsAttach) == DEFAULT_PROFILE_LABEL@);
            assert(agent_profiles@.get(CodexAgentKind::TaskCheck) == DEFAULT_PROFILE_LABEL@);
            assert(agent_profiles@.get(CodexAgentKind::WorkerImplementor) == DEFAULT_PROFILE_LABEL@);
            assert(agent_profiles@.get(CodexAgentKind::WorkerAuditor) == DEFAULT_PROFILE_LABEL@);
            assert(agent_profiles@.get(CodexAgentKind::WorkerTestWriter) == DEFAULT_PROFILE_LABEL@);
            assert(agent_profiles@.get(CodexAgentKind::WorkerFinalAudit) == DEFAULT_PROFILE_LABEL@);
        }
        CodexAgentModelRouting { profiles, agent_profiles }
    }
}

impl Clone for CodexAgentModelRouting {
    fn clone(&self) -> (copy: Self)
        ensures
            copy@ == self@,
    {
        proof {
            use_type_invariant(self);
        }
        let mut profiles: Vec<(String, CodexModelProfile)> = Vec::new();
        let mut i: usize = 0;
        while i < self.profiles.len()
            invariant
                i <= self.profiles.len(),
                profiles@.len() == i,
                forall|j: int|
                    0 <= j < i ==> (#[trigger] profiles@[j]).0@ == self.profiles@[j].0@
                        && profiles@[j].1@ == self.profiles@[j].1@,
                forall|j: int|
                    0 <= j < self.profiles@.len() ==> (#[trigger] self.profiles@[j]).1.model@.len()
                        > 0,
            decreases self.profiles.len() - i,
        {
            profiles.push((self.profiles[i].0.clone(), clone_profile(&self.profiles[i].1)));
            i += 1;
        }
        proof {
            lemma_labelled_alike(profiles@, self.profiles@);
        }
        let agent_profiles = AgentProfileAssignments {
            master: self.agent_profiles.master.clone(),
            master_report: self.agent_profiles.master_report.clone(),
            project_info: self.agent_profiles.project_info.clone(),
            docs_attach: self.agent_profiles.docs_attach.clone(),
            task_check: self.agent_profiles.task_check.clone(),
            worker_implementor: self.agent_profiles.worker_implementor.clone(),
            worker_auditor: self.agent_profiles.worker_auditor.clone(),
            worker_test_writer: self.agent_profiles.worker_test_writer.clone(),
            worker_final_audit: self.agent_profiles.worker_final_audit.clone(),
        };
        CodexAgentModelRouting { profiles, agent_profiles }
    }
}

impl Default for CodexAgentModelRouting {
    /// The routing of the embedded configuration alone; the emergency
    /// routing where that cannot be read.
    fn default() -> (routing: Self)
        ensures
            routing@ == match (text_config(DEFAULT_CONFIG_TOML@), text_config(""@)) {
                (Some(base), Some(over)) => routing_of(merged(base, over)),
                _ => emergency_routing(),
            },
    {
        match Self::from_toml_str("") {
            Ok(routing) => routing,
            Err(_) => Self::emergency_fallback(),
        }
    }
}

// ---------------------------------------------------------------------------
// Laws of merging
// ---------------------------------------------------------------------------

/// The usable profiles of two lists stated one after the other: under a
/// label that the second list states, what the second list makes of it,
/// be that a profile or none; under any other label, what the first list
/// makes of it.
pub proof fn lemma_routing_profiles_of_concat(
    base: Seq<(Seq<char>, ProfileView)>,
    over: Seq<(Seq<char>, ProfileView)>,
    label: Seq<char>,
)
    ensures
        profile_at(routing_profiles(base + over), label) == if stated_under(over, label) is Some {
            profile_at(routing_profiles(over), label)
        } else {
            profile_at(routing_profiles(base), label)
        },
    decreases over.len(),
{
    if over.len() == 0 {
        assert(base + over == base);
    } else {
        assert((base + over).drop_last() == base + over.drop_last());
        assert((base + over).last() == over.last());
        lemma_routing_profiles_of_concat(base, over.drop_last(), label);
    }
}

/// What a list makes of a label is what it makes of the statement that
/// comes last under it: the profile that the statement amounts to, and
/// none where the statement names no model or the label is not stated.
pub proof fn lemma_routing_profiles_follow_last_statement(
    list: Seq<(Seq<char>, ProfileView)>,
    label: Seq<char>,
)
    ensures
        profile_at(routing_profiles(list), label) == match stated_under(list, label) {
            Some(stated) => runtime_profile(stated),
            None => None,
        },
    decreases list.len(),
{
    if list.len() > 0 {
        lemma_routing_profiles_follow_last_statement(list.drop_last(), label);
    }
}

proof fn lemma_stated_profile_of_concat(
    base: Seq<(Seq<char>, ProfileView)>,
    over: Seq<(Seq<char>, ProfileView)>,
    label: Seq<char>,
)
    ensures
        stated_profile(base + over, label) == if stated_profile(over, label) is Some {
            stated_profile(over, label)
        } else {
            stated_profile(base, label)
        },
    decreases over.len(),
{
    if over.len() == 0 {
        assert(base + over == base);
    } else {
        assert((base + over).drop_last() == base + over.drop_last());
        assert((base + over).last() == over.last());
        lemma_stated_profile_of_concat(base, over.drop_last(), label);
    }
}

/// Merging is right-biased: whatever the overlay states, counts; the base
/// counts where the overlay is silent. This holds of the profile stated
/// under each label, of the label stated for each role, and of the usable
/// profile of the routing under each normalized label: a label that the
/// overlay states has the profile that the overlay gives it, and none
/// where the overlay names no model for it.
pub proof fn lemma_merge_right_biased(
    base: ConfigView,
    over: ConfigView,
    label: Seq<char>,
    kind: CodexAgentKind,
)
    ensures
        stated_profile(merged(base, over).profiles, label) == if stated_profile(
            over.profiles,
            label,
        ) is Some {
            stated_profile(over.profiles, label)
        } else {
            stated_profile(base.profiles, label)
        },
        merged(base, over).assignments.get(kind) == if over.assignments.get(kind) is Some {
            over.assignments.get(kind)
        } else {
            base.assignments.get(kind)
        },
        profile_at(routing_of(merged(base, over)).profiles, label) == if stated_under(
            over.profiles,
            label,
        ) is Some {
            profile_at(routing_of(over).profiles, label)
        } else {
            profile_at(routing_of(base).profiles, label)
        },
{
    lemma_stated_profile_of_concat(base.profiles, over.profiles, label);
    lemma_routing_profiles_of_concat(base.profiles, over.profiles, label);
}

/// Laying a configuration that states nothing over a base leaves the base
/// as it is.
pub proof fn lemma_merge_identity(base: ConfigView)
    ensures
        merged(base, empty_config()) == base,
{
    assert(base.profiles + Seq::<(Seq<char>, ProfileView)>::empty() == base.profiles);
}

/// Laying the same configuration over a base a second time changes
/// nothing that can be observed: not the profile stated under any label,
/// not the label stated for any role, and not the routing.
pub proof fn lemma_merge_idempotent(
    base: ConfigView,
    over: ConfigView,
    label: Seq<char>,
    kind: CodexAgentKind,
)
    ensures
        stated_profile(merged(merged(base, over), over).profiles, label) == stated_profile(
            merged(base, over).profiles,
            label,
        ),
        merged(merged(base, over), over).assignments == merged(base, over).assignments,
        routing_of(merged(merged(base, over), over)) == routing_of(merged(base, over)),
{
    let once = merged(base, over);
    lemma_stated_profile_of_concat(once.profiles, over.profiles, label);
    lemma_stated_profile_of_concat(base.profiles, over.profiles, label);
    assert forall|l: Seq<char>|
        profile_at(routing_profiles(once.profiles + over.profiles), l) == profile_at(
            routing_profiles(once.profiles),
            l,
        ) by {
        lemma_routing_profiles_of_concat(once.profiles, over.profiles, l);
        lemma_routing_profiles_of_concat(base.profiles, over.profiles, l);
    }
    assert(routing_profiles(once.profiles + over.profiles) =~= routing_profiles(once.profiles)) by {
        assert forall|l: Seq<char>|
            routing_profiles(once.profiles + over.profiles).contains_key(l) == routing_profiles(
                once.profiles,
            ).contains_key(l) by {
            assert(profile_at(routing_profiles(once.profiles + over.profiles), l) == profile_at(
                routing_profiles(once.profiles),
                l,
            ));
        }
        assert forall|l: Seq<char>|
            routing_profiles(once.profiles).contains_key(l) implies routing_profiles(
                once.profiles + over.profiles,
            )[l] == routing_profiles(once.profiles)[l] by {
            assert(profile_at(routing_profiles(once.profiles + over.profiles), l) == profile_at(
                routing_profiles(once.profiles),
                l,
            ));
        }
    }
}

} // verus!
