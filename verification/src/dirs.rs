//! The directories: which variable names each of them, and where it lies
//! below the home directory when the variable does not.

use vstd::prelude::*;
use vstd::string::*;
use crate::environment::{Environment, Snapshot};
use crate::path::{join, joined};

verus! {

/// The variable that names the cache directory.
pub const CACHE_VARIABLE: &'static str = "XDG_CACHE_HOME";

/// The variable that names the configuration directory.
pub const CONFIG_VARIABLE: &'static str = "XDG_CONFIG_HOME";

/// The variable that names the directory of executables.
pub const BIN_VARIABLE: &'static str = "XDG_BIN_HOME";

/// The variable that names the data directory.
pub const DATA_VARIABLE: &'static str = "XDG_DATA_HOME";

/// The variable that names the state directory.
pub const STATE_VARIABLE: &'static str = "XDG_STATE_HOME";

/// The variable that names the runtime directory.
pub const RUNTIME_VARIABLE: &'static str = "XDG_RUNTIME_DIR";

/// Where the cache directory lies below the home directory.
pub const CACHE_DEFAULT: &'static str = ".cache";

/// Where the configuration directory lies below the home directory.
pub const CONFIG_DEFAULT: &'static str = ".config";

/// Where the directory of executables lies below the home directory.
pub const BIN_DEFAULT: &'static str = ".local/bin";

/// Where the data directory lies below the home directory.
pub const DATA_DEFAULT: &'static str = ".local/share";

/// Where the state directory lies below the home directory.
pub const STATE_DEFAULT: &'static str = ".local/state";

/// The names of the variables that the directories are read from, the
/// runtime directory's last.
pub open spec fn variable_names() -> Seq<Seq<char>> {
    seq![
        CACHE_VARIABLE@,
        CONFIG_VARIABLE@,
        BIN_VARIABLE@,
        DATA_VARIABLE@,
        STATE_VARIABLE@,
        RUNTIME_VARIABLE@,
    ]
}

/// Returns the names of the variables that the directories are read from:
/// what a snapshot of the environment has to hold of the variables.
pub fn variables() -> (names: Vec<&'static str>)
    ensures
        names@.len() == variable_names().len(),
        forall|i: int| 0 <= i < names@.len() ==> (#[trigger] names@[i])@ == variable_names()[i],
{
    vec![
        CACHE_VARIABLE,
        CONFIG_VARIABLE,
        BIN_VARIABLE,
        DATA_VARIABLE,
        STATE_VARIABLE,
        RUNTIME_VARIABLE,
    ]
}

impl Snapshot {
    /// The directory that the variable `variable` names, or else the one
    /// that lies at `default` below the home directory. There is none when
    /// the variable is not set and no home directory is known.
    pub open spec fn located(self, variable: Seq<char>, default: Seq<char>) -> Option<Seq<char>> {
        match self.setting(variable) {
            Some(path) => Some(path),
            None => match self.home {
                Some(home) => Some(joined(home, default)),
                None => None,
            },
        }
    }
}

/// Returns the value of the variable `name` if it is set, that is present
/// and not empty.
pub fn setting(env: &Environment, name: &str) -> (value: Option<String>)
    ensures
        value.deep_view() == env@.setting(name@),
{
    match env.get(name) {
        Some(text) => if text.is_empty() {
            None
        } else {
            Some(String::from_str(text))
        },
        None => None,
    }
}

/// Returns the directory that the variable `variable` names if it is set,
/// and else the one at `default` below the home directory.
pub fn locate(env: &Environment, variable: &str, default: &str) -> (dir: Option<String>)
    ensures
        dir.deep_view() == env@.located(variable@, default@),
{
    match setting(env, variable) {
        Some(path) => Some(path),
        None => match env.home() {
            Some(home) => Some(join(home, default)),
            None => None,
        },
    }
}

/// Returns the path to the user's home directory.
pub fn home(env: &Environment) -> (dir: Option<String>)
    ensures
        dir.deep_view() == env@.home,
{
    match env.home() {
        Some(path) => Some(String::from_str(path)),
        None => None,
    }
}

/// Returns the path to the user's executable directory.
pub fn bin(env: &Environment) -> (dir: Option<String>)
    ensures
        dir.deep_view() == env@.located(BIN_VARIABLE@, BIN_DEFAULT@),
{
    locate(env, BIN_VARIABLE, BIN_DEFAULT)
}

/// Returns the path to the user's cache directory.
pub fn cache(env: &Environment) -> (dir: Option<String>)
    ensures
        dir.deep_view() == env@.located(CACHE_VARIABLE@, CACHE_DEFAULT@),
{
    locate(env, CACHE_VARIABLE, CACHE_DEFAULT)
}

/// Returns the path to the user's config directory.
pub fn config(env: &Environment) -> (dir: Option<String>)
    ensures
        dir.deep_view() == env@.located(CONFIG_VARIABLE@, CONFIG_DEFAULT@),
{
    locate(env, CONFIG_VARIABLE, CONFIG_DEFAULT)
}

/// Returns the path to the user's data directory.
pub fn data(env: &Environment) -> (dir: Option<String>)
    ensures
        dir.deep_view() == env@.located(DATA_VARIABLE@, DATA_DEFAULT@),
{
    locate(env, DATA_VARIABLE, DATA_DEFAULT)
}

/// Returns the path to the user's runtime directory. It has no place below
/// the home directory: only its variable can name it.
pub fn runtime(env: &Environment) -> (dir: Option<String>)
    ensures
        dir.deep_view() == env@.setting(RUNTIME_VARIABLE@),
{
    setting(env, RUNTIME_VARIABLE)
}

/// Returns the path to the user's state directory.
pub fn state(env: &Environment) -> (dir: Option<String>)
    ensures
        dir.deep_view() == env@.located(STATE_VARIABLE@, STATE_DEFAULT@),
{
    locate(env, STATE_VARIABLE, STATE_DEFAULT)
}

} // verus!
