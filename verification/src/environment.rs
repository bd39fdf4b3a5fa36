//! The environment that the directories are resolved in: the variables that
//! are set, and the user's home directory.

use vstd::prelude::*;
use vstd::string::*;

verus! {

/// What an [`Environment`] stands for.
pub struct Snapshot {
    /// The user's home directory, where one is known.
    pub home: Option<Seq<char>>,
    /// The value of each variable that is present.
    pub vars: Map<Seq<char>, Seq<char>>,
}

impl Snapshot {
    /// The value of the variable `name`, if it is set. A variable is set
    /// when it is present and its value is not empty.
    pub open spec fn setting(self, name: Seq<char>) -> Option<Seq<char>> {
        if self.vars.contains_key(name) && self.vars[name].len() > 0 {
            Some(self.vars[name])
        } else {
            None
        }
    }

    /// This snapshot with the variable `name` present and equal to `value`.
    pub open spec fn with(self, name: Seq<char>, value: Seq<char>) -> Snapshot {
        Snapshot { home: self.home, vars: self.vars.insert(name, value) }
    }

    /// This snapshot with the variable `name` absent.
    pub open spec fn without(self, name: Seq<char>) -> Snapshot {
        Snapshot { home: self.home, vars: self.vars.remove(name) }
    }
}

/// The variables that a list of assignments leaves behind: a later
/// assignment to a name replaces an earlier one.
spec fn bindings(assignments: Seq<(String, String)>) -> Map<Seq<char>, Seq<char>>
    decreases assignments.len(),
{
    if assignments.len() == 0 {
        Map::empty()
    } else {
        bindings(assignments.drop_last()).insert(
            assignments.last().0@,
            assignments.last().1@,
        )
    }
}

/// One assignment more is one insertion more.
proof fn lemma_bindings_step(assignments: Seq<(String, String)>, i: int)
    requires
        0 <= i < assignments.len(),
    ensures
        bindings(assignments.take(i + 1)) == bindings(assignments.take(i)).insert(
            assignments[i].0@,
            assignments[i].1@,
        ),
{
    assert(assignments.take(i + 1).drop_last() =~= assignments.take(i));
}

/// A snapshot of the environment. It is taken once and does not change
/// behind the caller's back: every query on it is a function of what it
/// holds.
#[derive(Debug)]
pub struct Environment {
    home: Option<String>,
    assignments: Vec<(String, String)>,
}

impl View for Environment {
    type V = Snapshot;

    closed spec fn view(&self) -> Snapshot {
        Snapshot { home: self.home.deep_view(), vars: bindings(self.assignments@) }
    }
}

impl Clone for Environment {
    /// A copy that stands for the same snapshot.
    fn clone(&self) -> (copy: Self)
        ensures
            copy@ == self@,
    {
        let mut assignments: Vec<(String, String)> = Vec::new();
        let mut i: usize = 0;
        while i < self.assignments.len()
            invariant
                i <= self.assignments.len(),
                assignments@ =~= self.assignments@.take(i as int),
            decreases self.assignments.len() - i,
        {
            assignments.push((self.assignments[i].0.clone(), self.assignments[i].1.clone()));
            i = i + 1;
        }
        proof {
            assert(self.assignments@.take(i as int) =~= self.assignments@);
        }
        let home = match &self.home {
            Some(path) => Some(path.clone()),
            None => None,
        };
        Environment { home, assignments }
    }
}

/// Asks the `home` crate for the current user's home directory
/// (`home::home_dir`) and hands it on as text. Nothing is claimed of the
/// answer: it depends on the process and the platform. A home directory
/// whose name is not valid Unicode counts as unknown.
#[verifier::external_body]
fn home_dir() -> (dir: Option<String>) {
    match home::home_dir() {
        Some(path) => path.into_os_string().into_string().ok(),
        None => None,
    }
}

impl Environment {
    /// An environment with the given home directory and no variable.
    pub fn new(home: Option<String>) -> (env: Self)
        ensures
            env@.home == home.deep_view(),
            env@.vars == Map::<Seq<char>, Seq<char>>::empty(),
    {
        Environment { home, assignments: Vec::new() }
    }

    /// An environment with the home directory that the platform reports for
    /// the current user, if it reports one, and no variable.
    pub fn detect() -> (env: Self)
        ensures
            env@.vars == Map::<Seq<char>, Seq<char>>::empty(),
    {
        Environment::new(home_dir())
    }

    /// Sets the variable `name` to `value`, in place of any value it had.
    pub fn set(&mut self, name: &str, value: &str)
        ensures
            final(self)@ == old(self)@.with(name@, value@),
    {
        let ghost before = self.assignments@;
        self.assignments.push((String::from_str(name), String::from_str(value)));
        proof {
            assert(self.assignments@.drop_last() =~= before);
        }
    }

    /// The value of the variable `name`, if it is present.
    pub fn get(&self, name: &str) -> (value: Option<&str>)
        ensures
            value.deep_view() == (if self@.vars.contains_key(name@) {
                Some(self@.vars[name@])
            } else {
                None
            }),
    {
        let wanted = String::from_str(name);
        let mut i: usize = self.assignments.len();
        proof {
            assert(self.assignments@.take(i as int) =~= self.assignments@);
        }
        while i > 0
            invariant
                i <= self.assignments.len(),
                wanted@ == name@,
                bindings(self.assignments@).contains_key(name@) == bindings(
                    self.assignments@.take(i as int),
                ).contains_key(name@),
                bindings(self.assignments@).contains_key(name@) ==> bindings(
                    self.assignments@,
                )[name@] == bindings(self.assignments@.take(i as int))[name@],
            decreases i,
        {
            i = i - 1;
            proof {
                lemma_bindings_step(self.assignments@, i as int);
            }
            if self.assignments[i].0 == wanted {
                return Some(self.assignments[i].1.as_str());
            }
        }
        None
    }

    /// The home directory, where one is known.
    pub fn home(&self) -> (dir: Option<&str>)
        ensures
            dir.deep_view() == self@.home,
    {
        match &self.home {
            Some(path) => Some(path.as_str()),
            None => None,
        }
    }
}

} // verus!
