use vstd::prelude::*;

verus! {

/// The staging root used when nothing else is configured.
pub open spec fn default_base_path() -> Seq<char> {
    "c:\\b"@
}

/// Project paths strictly shorter than this many characters are built in
/// place; longer ones are redirected through the staging directory.
pub open spec fn default_path_length_limit() -> nat {
    10
}

/// Process-wide configuration: the staging root that project trees are
/// mirrored into, and the path-length threshold at or above which the
/// redirection happens. Built once at startup and passed into each step.
pub struct Config {
    /// The staging root directory, a short fixed path.
    pub base_path: String,
    /// The threshold, compared against the raw character count of the
    /// project directory's path.
    pub path_length_limit: usize,
}

impl Config {
    /// The default configuration.
    pub fn new() -> (c: Config)
        ensures
            c.base_path@ == default_base_path(),
            c.path_length_limit == default_path_length_limit(),
    {
        Config { base_path: String::from_str("c:\\b"), path_length_limit: 10 }
    }
}

/// The program that every delegated command is handed to.
pub fn build_tool() -> (r: &'static str)
    ensures
        r@ == "cargo"@,
{
    "cargo"
}

/// Name of the environment variable that, when set to `"true"`, skips the
/// mirror step and reuses whatever already sits in the staging directory.
pub fn skip_copy_env_var() -> (r: &'static str)
    ensures
        r@ == "SKIP_PROJECT_COPY"@,
{
    "SKIP_PROJECT_COPY"
}

/// Name of the environment variable that asks to keep the staging directory
/// after the run, for inspection.
pub fn preserve_env_var() -> (r: &'static str)
    ensures
        r@ == "CARGO_WIN_REDIRECT_PRESERVE"@,
{
    "CARGO_WIN_REDIRECT_PRESERVE"
}

} // verus!
