//! What holds of every environment, whichever directory is asked for. Each
//! directory but the runtime directory is `located` by its variable and its
//! place below the home directory; the runtime directory is the `setting`
//! of its variable.

use vstd::prelude::*;
use crate::dirs::{
    BIN_DEFAULT, CACHE_DEFAULT, CONFIG_DEFAULT, DATA_DEFAULT, STATE_DEFAULT,
};
use crate::environment::Snapshot;
use crate::path::{joined, needs_separator};

verus! {

/// A variable that is present with a value that is not empty names the
/// directory: the directory is that value, letter for letter, whatever the
/// home directory is.
pub proof fn lemma_variable_names_directory(
    env: Snapshot,
    variable: Seq<char>,
    default: Seq<char>,
    value: Seq<char>,
)
    requires
        env.vars.contains_key(variable),
        env.vars[variable] == value,
        value.len() > 0,
    ensures
        env.setting(variable) == Some(value),
        env.located(variable, default) == Some(value),
{
}

/// A variable that is present and empty counts for as much as one that is
/// absent.
pub proof fn lemma_empty_is_unset(env: Snapshot, variable: Seq<char>, default: Seq<char>)
    ensures
        env.with(variable, Seq::empty()).setting(variable) is None,
        env.without(variable).setting(variable) is None,
        env.with(variable, Seq::empty()).located(variable, default) == env.without(
            variable,
        ).located(variable, default),
{
}

/// Where the variable is not set and the home directory is known, the
/// directory is the default joined to the home directory.
pub proof fn lemma_default_below_home(
    env: Snapshot,
    variable: Seq<char>,
    default: Seq<char>,
    home: Seq<char>,
)
    requires
        env.setting(variable) is None,
        env.home == Some(home),
    ensures
        env.located(variable, default) == Some(joined(home, default)),
{
}

/// The five defaults, letter for letter. Below a home directory that is
/// not empty and does not end in a separator they are the home directory
/// followed by `/.cache`, `/.config`, `/.local/bin`, `/.local/share` and
/// `/.local/state`; below any other the same without the leading
/// separator.
pub proof fn lemma_default_paths(home: Seq<char>)
    ensures
        needs_separator(home) ==> {
            &&& joined(home, CACHE_DEFAULT@) == home + "/.cache"@
            &&& joined(home, CONFIG_DEFAULT@) == home + "/.config"@
            &&& joined(home, BIN_DEFAULT@) == home + "/.local/bin"@
            &&& joined(home, DATA_DEFAULT@) == home + "/.local/share"@
            &&& joined(home, STATE_DEFAULT@) == home + "/.local/state"@
        },
        !needs_separator(home) ==> {
            &&& joined(home, CACHE_DEFAULT@) == home + ".cache"@
            &&& joined(home, CONFIG_DEFAULT@) == home + ".config"@
            &&& joined(home, BIN_DEFAULT@) == home + ".local/bin"@
            &&& joined(home, DATA_DEFAULT@) == home + ".local/share"@
            &&& joined(home, STATE_DEFAULT@) == home + ".local/state"@
        },
{
    reveal_strlit(".cache");
    reveal_strlit("/.cache");
    reveal_strlit(".config");
    reveal_strlit("/.config");
    reveal_strlit(".local/bin");
    reveal_strlit("/.local/bin");
    reveal_strlit(".local/share");
    reveal_strlit("/.local/share");
    reveal_strlit(".local/state");
    reveal_strlit("/.local/state");
    if needs_separator(home) {
        assert(joined(home, CACHE_DEFAULT@) =~= home + "/.cache"@);
        assert(joined(home, CONFIG_DEFAULT@) =~= home + "/.config"@);
        assert(joined(home, BIN_DEFAULT@) =~= home + "/.local/bin"@);
        assert(joined(home, DATA_DEFAULT@) =~= home + "/.local/share"@);
        assert(joined(home, STATE_DEFAULT@) =~= home + "/.local/state"@);
    }
}

/// Where the variable is not set and no home directory is known, there is
/// no directory.
pub proof fn lemma_nothing_without_home(env: Snapshot, variable: Seq<char>, default: Seq<char>)
    requires
        env.setting(variable) is None,
        env.home is None,
    ensures
        env.located(variable, default) is None,
{
}

/// The setting of a variable is its value where that is present and not
/// empty, and nothing otherwise; the home directory has no part in it.
pub proof fn lemma_setting_mirrors_variable(
    env: Snapshot,
    variable: Seq<char>,
    home: Option<Seq<char>>,
)
    ensures
        env.vars.contains_key(variable) && env.vars[variable].len() > 0 ==> env.setting(variable)
            == Some(env.vars[variable]),
        !env.vars.contains_key(variable) || env.vars[variable].len() == 0 ==> env.setting(
            variable,
        ) is None,
        (Snapshot { home, vars: env.vars }).setting(variable) == env.setting(variable),
{
}

/// A directory depends on the home directory and on its own variable
/// alone: two environments that agree on both give the same directory, and
/// so does one environment asked twice.
pub proof fn lemma_same_environment_same_directory(
    first: Snapshot,
    second: Snapshot,
    variable: Seq<char>,
    default: Seq<char>,
)
    requires
        first.home == second.home,
        first.setting(variable) == second.setting(variable),
    ensures
        first.located(variable, default) == second.located(variable, default),
{
}

} // verus!
