//! Location of the agent's configuration file. Reading and writing the
//! file is the caller's I/O; the library fixes where it lives: the
//! `.bambooclaw` directory under the user's home, holding `config.toml`.

use vstd::prelude::*;
use vstd::string::StringExecFns;

verus! {

/// Returns the agent's configuration directory under the given home
/// directory: `<home>/.bambooclaw`.
pub fn get_bambooclaw_config_dir(home: &String) -> (dir: String)
    ensures
        dir@ == home@ + "/.bambooclaw"@,
{
    home.clone().concat("/.bambooclaw")
}

/// Returns the path of the agent's configuration file under the given
/// home directory: `<home>/.bambooclaw/config.toml`.
pub fn get_bambooclaw_config_path(home: &String) -> (path: String)
    ensures
        path@ == home@ + "/.bambooclaw"@ + "/config.toml"@,
{
    get_bambooclaw_config_dir(home).concat("/config.toml")
}

} // verus!
