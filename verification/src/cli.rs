//! The command line: its arguments and the help text of the config option.
use vstd::prelude::*;
use crate::runtime::runtime_path_for;
use crate::text::append_str;

verus! {

/// The command line arguments.
#[derive(Debug, Clone)]
pub struct Args {
    /// Path to the config file; the default path when absent.
    pub config: Option<String>,
    /// Update the program before starting.
    pub update: bool,
}

/// The help text of the config option for a default config path `def`
/// whose sidecar is at `runtime`.
pub open spec fn config_help_text(def: Seq<char>, runtime: Seq<char>) -> Seq<char> {
    "Path to config file (default: "@ + def
        + "). Runtime UI/proxy settings are saved to the sidecar file next to it (default: "@ + runtime
        + ")"@
}

/// The help text of the config option, naming the default config file and
/// its sidecar.
pub fn config_help(default_config_path: &str) -> (r: String)
    ensures
        r@ == config_help_text(default_config_path@, crate::runtime::runtime_path_spec(default_config_path@)),
{
    let runtime = runtime_path_for(default_config_path);
    let mut s = "Path to config file (default: ".to_string();
    append_str(&mut s, default_config_path);
    append_str(&mut s, "). Runtime UI/proxy settings are saved to the sidecar file next to it (default: ");
    append_str(&mut s, runtime.as_str());
    append_str(&mut s, ")");
    s
}

} // verus!
