//! Configuration model. Key-to-value tables are held as association lists in
//! which a later entry overrides an earlier one, so appending merges.

use vstd::prelude::*;

use crate::target::TargetKind;
use crate::text::str_eq;

verus! {

/// History retention settings.
#[derive(Debug, Clone)]
pub struct HistoryConfig {
    pub max_builds: usize,
    pub storage_path: String,
}

/// Log persistence settings.
#[derive(Debug, Clone)]
pub struct LogsConfig {
    pub auto_save: bool,
    pub save_directory: String,
}

/// Editor integration settings.
#[derive(Debug, Clone)]
pub struct EditorConfig {
    pub command: String,
    pub vscode_integration: bool,
}

/// Console display settings.
#[derive(Debug, Clone)]
pub struct DisplayConfig {
    pub max_log_lines: usize,
    pub show_timestamps: bool,
    pub theme: String,
}

/// Key binding settings.
#[derive(Debug, Clone)]
pub struct KeybindingsConfig {
    pub leader_key: String,
    pub sequence_timeout_ms: u64,
    pub leader_bindings: Vec<(String, String)>,
    pub vim_sequences: Vec<(String, String)>,
    pub enable_leader: bool,
}

/// Per-target build settings.
#[derive(Debug, Clone)]
pub struct BuildConfig {
    pub kind: Option<String>,
    pub name: Option<String>,
}

/// Stage selection settings.
#[derive(Debug, Clone)]
pub struct StagesConfig {
    pub enabled_stages: Vec<String>,
    pub auto_build_on_start: bool,
    pub stage_dependencies: Vec<(String, Vec<String>)>,
}

/// The full configuration of one target.
#[derive(Debug, Clone)]
pub struct Config {
    pub history: HistoryConfig,
    pub logs: LogsConfig,
    pub editor: EditorConfig,
    pub display: DisplayConfig,
    pub keybindings: KeybindingsConfig,
    pub build: BuildConfig,
    pub stages: StagesConfig,
}

pub fn default_max_builds() -> (r: usize)
    ensures
        r == 50,
{
    50
}

pub fn default_storage_path() -> (r: String)
    ensures
        r@ == "~/.astralix/build_history.json"@,
{
    "~/.astralix/build_history.json".to_owned()
}

pub fn default_save_directory() -> (r: String)
    ensures
        r@ == "~/.cache/astralix/logs"@,
{
    "~/.cache/astralix/logs".to_owned()
}

pub fn default_editor_command() -> (r: String)
    ensures
        r@ == "${EDITOR}"@,
{
    "${EDITOR}".to_owned()
}

pub fn default_max_log_lines() -> (r: usize)
    ensures
        r == 10000,
{
    10000
}

pub fn default_theme() -> (r: String)
    ensures
        r@ == "dark"@,
{
    "dark".to_owned()
}

pub fn default_true() -> (r: bool)
    ensures
        r,
{
    true
}

pub fn default_leader_key() -> (r: String)
    ensures
        r@ == "Space"@,
{
    "Space".to_owned()
}

pub fn default_sequence_timeout() -> (r: u64)
    ensures
        r == 1000,
{
    1000
}

pub fn default_enable_leader() -> (r: bool)
    ensures
        r,
{
    true
}

/// The stage names enabled when the configuration names none.
pub open spec fn spec_default_enabled_stages() -> Seq<Seq<char>> {
    seq!["PreValidation"@, "Configure"@, "Build"@, "Install"@]
}

pub fn default_enabled_stages() -> (r: Vec<String>)
    ensures
        r.deep_view() == spec_default_enabled_stages(),
{
    let mut r: Vec<String> = Vec::new();
    r.push("PreValidation".to_owned());
    r.push("Configure".to_owned());
    r.push("Build".to_owned());
    r.push("Install".to_owned());
    proof {
        assert(r.deep_view() =~~= spec_default_enabled_stages());
    }
    r
}

pub fn default_auto_build_on_start() -> (r: bool)
    ensures
        !r,
{
    false
}

/// What every `Default` instance of each configuration section holds.
pub open spec fn spec_default_history(c: HistoryConfig) -> bool {
    c.max_builds == 50 && c.storage_path@ == "~/.astralix/build_history.json"@
}

pub open spec fn spec_default_logs(c: LogsConfig) -> bool {
    !c.auto_save && c.save_directory@ == "~/.cache/astralix/logs"@
}

pub open spec fn spec_default_editor(c: EditorConfig) -> bool {
    c.command@ == "${EDITOR}"@ && c.vscode_integration
}

pub open spec fn spec_default_display(c: DisplayConfig) -> bool {
    c.max_log_lines == 10000 && c.show_timestamps && c.theme@ == "dark"@
}

pub open spec fn spec_default_keybindings(c: KeybindingsConfig) -> bool {
    &&& c.leader_key@ == "Space"@
    &&& c.sequence_timeout_ms == 1000
    &&& c.leader_bindings@.len() == 0
    &&& c.vim_sequences@.len() == 0
    &&& c.enable_leader
}

pub open spec fn spec_default_build(c: BuildConfig) -> bool {
    c.kind is None && c.name is None
}

pub open spec fn spec_default_stages(c: StagesConfig) -> bool {
    &&& c.enabled_stages.deep_view() == spec_default_enabled_stages()
    &&& !c.auto_build_on_start
    &&& c.stage_dependencies@.len() == 0
}

pub open spec fn spec_default_config(c: Config) -> bool {
    &&& spec_default_history(c.history)
    &&& spec_default_logs(c.logs)
    &&& spec_default_editor(c.editor)
    &&& spec_default_display(c.display)
    &&& spec_default_keybindings(c.keybindings)
    &&& spec_default_build(c.build)
    &&& spec_default_stages(c.stages)
}

impl Default for HistoryConfig {
    fn default() -> (r: Self)
        ensures
            spec_default_history(r),
    {
        HistoryConfig { max_builds: default_max_builds(), storage_path: default_storage_path() }
    }
}

impl Default for LogsConfig {
    fn default() -> (r: Self)
        ensures
            spec_default_logs(r),
    {
        LogsConfig { auto_save: false, save_directory: default_save_directory() }
    }
}

impl Default for EditorConfig {
    fn default() -> (r: Self)
        ensures
            spec_default_editor(r),
    {
        EditorConfig { command: default_editor_command(), vscode_integration: true }
    }
}

impl Default for DisplayConfig {
    fn default() -> (r: Self)
        ensures
            spec_default_display(r),
    {
        DisplayConfig {
            max_log_lines: default_max_log_lines(),
            show_timestamps: true,
            theme: default_theme(),
        }
    }
}

impl Default for KeybindingsConfig {
    fn default() -> (r: Self)
        ensures
            spec_default_keybindings(r),
    {
        KeybindingsConfig {
            leader_key: default_leader_key(),
            sequence_timeout_ms: default_sequence_timeout(),
            leader_bindings: Vec::new(),
            vim_sequences: Vec::new(),
            enable_leader: default_enable_leader(),
        }
    }
}

impl Default for BuildConfig {
    fn default() -> (r: Self)
        ensures
            spec_default_build(r),
    {
        BuildConfig { kind: None, name: None }
    }
}

impl Default for StagesConfig {
    fn default() -> (r: Self)
        ensures
            spec_default_stages(r),
    {
        StagesConfig {
            enabled_stages: default_enabled_stages(),
            auto_build_on_start: default_auto_build_on_start(),
            stage_dependencies: Vec::new(),
        }
    }
}

impl Default for Config {
    fn default() -> (r: Self)
        ensures
            spec_default_config(r),
    {
        Config {
            history: HistoryConfig::default(),
            logs: LogsConfig::default(),
            editor: EditorConfig::default(),
            display: DisplayConfig::default(),
            keybindings: KeybindingsConfig::default(),
            build: BuildConfig::default(),
            stages: StagesConfig::default(),
        }
    }
}

/// A build kind string names a target kind.
pub open spec fn spec_kind_of(kind: Seq<char>) -> TargetKind {
    if kind == "installer"@ {
        TargetKind::Installer
    } else if kind == "root"@ {
        TargetKind::Root
    } else {
        TargetKind::Executable
    }
}

impl BuildConfig {
    /// The target kind this section names. A missing or unrecognized kind is
    /// a configuration the caller must reject before asking.
    pub fn target_kind(&self) -> (r: TargetKind)
        requires
            self.kind matches Some(k) && (k@ == "installer"@ || k@ == "root"@ || k@
                == "executable"@),
        ensures
            self.kind matches Some(k) && r == spec_kind_of(k@),
    {
        let k = match &self.kind {
            Some(k) => k,
            None => unreached(),
        };
        if str_eq(k.as_str(), "installer") {
            TargetKind::Installer
        } else if str_eq(k.as_str(), "root") {
            TargetKind::Root
        } else {
            TargetKind::Executable
        }
    }
}

impl Config {
    /// Overlays `other`'s key bindings onto this configuration. Appending
    /// keeps the override discipline: a later entry wins a key lookup.
    pub fn merge_with(self, other: Config) -> (r: Config)
        ensures
            r.keybindings.leader_bindings@ == if other.keybindings.leader_bindings@.len() == 0 {
                self.keybindings.leader_bindings@
            } else {
                self.keybindings.leader_bindings@ + other.keybindings.leader_bindings@
            },
            r.keybindings.vim_sequences@ == if other.keybindings.vim_sequences@.len() == 0 {
                self.keybindings.vim_sequences@
            } else {
                self.keybindings.vim_sequences@ + other.keybindings.vim_sequences@
            },
            r.keybindings.leader_key == self.keybindings.leader_key,
            r.keybindings.sequence_timeout_ms == self.keybindings.sequence_timeout_ms,
            r.keybindings.enable_leader == self.keybindings.enable_leader,
            r.history == self.history,
            r.logs == self.logs,
            r.editor == self.editor,
            r.display == self.display,
            r.build == self.build,
            r.stages == self.stages,
    {
        let mut merged = self;
        let mut other = other;
        if other.keybindings.leader_bindings.len() > 0 {
            merged.keybindings.leader_bindings.append(&mut other.keybindings.leader_bindings);
        }
        if other.keybindings.vim_sequences.len() > 0 {
            merged.keybindings.vim_sequences.append(&mut other.keybindings.vim_sequences);
        }
        merged
    }

    /// Relies on shellexpand::tilde: only a leading `~` is rewritten, so any
    /// other path comes back unchanged; the home lookup itself depends on the
    /// environment.
    #[verifier::external_body]
    pub fn expand_path(path: &str) -> (r: String)
        ensures
            path@.len() == 0 ==> r@ == path@,
            path@.len() > 0 && path@[0] != '~' ==> r@ == path@,
    {
        shellexpand::tilde(path).into_owned()
    }

    /// Where build history is stored, tilde-expanded.
    pub fn storage_path(&self) -> (r: String)
        ensures
            self.history.storage_path@.len() > 0 && self.history.storage_path@[0] != '~' ==> r@
                == self.history.storage_path@,
    {
        Self::expand_path(self.history.storage_path.as_str())
    }

    /// Where logs are saved, tilde-expanded.
    pub fn log_directory(&self) -> (r: String)
        ensures
            self.logs.save_directory@.len() > 0 && self.logs.save_directory@[0] != '~' ==> r@
                == self.logs.save_directory@,
    {
        Self::expand_path(self.logs.save_directory.as_str())
    }
}

} // verus!
