//! Platform-agnostic standard directory locations.
//!
//! Every query is a function of an [`Environment`]: a snapshot of the
//! variables that matter and of the user's home directory. A variable that
//! is set to a non-empty value names the directory outright; otherwise the
//! directory lies at a fixed place below the home directory.
//!
//! | Directory   | Variable           | Default              |
//! |-------------|--------------------|----------------------|
//! | [`home`]    |                    | the snapshot's home  |
//! | [`cache`]   | `XDG_CACHE_HOME`   | `$HOME/.cache`       |
//! | [`config`]  | `XDG_CONFIG_HOME`  | `$HOME/.config`      |
//! | [`bin`]     | `XDG_BIN_HOME`     | `$HOME/.local/bin`   |
//! | [`data`]    | `XDG_DATA_HOME`    | `$HOME/.local/share` |
//! | [`state`]   | `XDG_STATE_HOME`   | `$HOME/.local/state` |
//! | [`runtime`] | `XDG_RUNTIME_DIR`  |                      |

pub mod dirs;
pub mod environment;
pub mod laws;
pub mod path;

pub use dirs::{
    bin, cache, config, data, home, locate, runtime, setting, state, variables, BIN_DEFAULT,
    BIN_VARIABLE, CACHE_DEFAULT, CACHE_VARIABLE, CONFIG_DEFAULT, CONFIG_VARIABLE, DATA_DEFAULT,
    DATA_VARIABLE, RUNTIME_VARIABLE, STATE_DEFAULT, STATE_VARIABLE,
};
pub use environment::Environment;
pub use path::join;
