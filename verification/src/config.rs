use vstd::prelude::*;

verus! {

/// The required `[main]` table: where the guest's kernel and user
/// trees live. Both may contain the `$(devroot)` token and are
/// expanded before use.
#[derive(Debug, Clone)]
pub struct MainConfig {
    pub kern_root: String,
    pub user_root: String,
}

/// The `[bin]` table: three optional switches. A present field becomes
/// a `--allow-<name>` flag followed by the boolean's canonical string;
/// an absent field emits nothing.
#[derive(Debug, Clone)]
pub struct BinSettings {
    pub allow_32bit: Option<bool>,
    pub allow_universal: Option<bool>,
    pub allow_64bit: Option<bool>,
}

/// A validated configuration, loaded once per run and immutable
/// thereafter. `bootargs` keeps the pairs in the order the file
/// declared them, so argument lists are reproducible.
#[derive(Debug, Clone)]
pub struct Configuration {
    pub main: MainConfig,
    pub bootargs: Vec<(String, String)>,
    pub bin: BinSettings,
}

/// What the process invocation asked for, constructed once at startup
/// and read-only afterward.
#[derive(Debug, Clone)]
pub struct RuntimeOptions {
    pub config_path_override: Option<String>,
    pub verbose: bool,
    pub debug: bool,
    pub boot_string: Option<String>,
}

} // verus!
