//! The configuration every installation starts from.

use vstd::prelude::*;

verus! {

/// The embedded default configuration. A user's configuration file is laid
/// over it.
pub const DEFAULT_CONFIG_TOML: &'static str = "\
[storage]
root_dir = \"~/.metaagent/sessions\"

[backend]
selected = \"codex\"

[codex.model_profiles.large-smart]
model = \"gpt-5.3-codex\"
thinking_effort = \"medium\"

[codex.model_profiles.large-genious]
model = \"gpt-5.3-codex\"
thinking_effort = \"high\"

[codex.model_profiles.large-supergenious]
model = \"gpt-5.3-codex\"
thinking_effort = \"xhigh\"

[codex.model_profiles.small-smart]
model = \"gpt-5.1-codex-mini\"
thinking_effort = \"medium\"

[codex.model_profiles.small-genious]
model = \"gpt-5.1-codex-mini\"
thinking_effort = \"high\"

[codex.model_profiles.small-supergenious]
model = \"gpt-5.1-codex-mini\"
thinking_effort = \"xhigh\"

[codex.agent_profiles]
master = \"large-smart\"
master_report = \"large-smart\"
project_info = \"large-smart\"
docs_attach = \"large-smart\"
task_check = \"large-smart\"
worker_implementor = \"large-smart\"
worker_auditor = \"large-smart\"
worker_test_writer = \"large-smart\"
worker_final_audit = \"large-smart\"
";

} // verus!
