//! Cleanup of the environment inherited from a POSIX-compatibility shell
//! layer. When the layer's marker variable `MSYSTEM` is set, `HOME` and
//! `SHELL` hold compatibility-layer paths that confuse native programs, so
//! all three are removed before the launch; when the marker is absent the
//! environment is left untouched.
//!
//! The mutation itself is process state and happens outside the library;
//! here it is a pure function from an environment snapshot to the snapshot
//! to restore, so that the pre/post relation can be stated and proved.

use vstd::prelude::*;

verus! {

/// The slice of the process environment that the cleanup reads and writes:
/// the compatibility-shell marker variable and the two variables that
/// depend on it. `None` means the variable is unset.
#[derive(Clone, Debug, PartialEq, Eq)]
pub struct EnvSnapshot {
    /// The marker variable `MSYSTEM`, set by the compatibility shell.
    pub msystem: Option<String>,
    /// The `HOME` variable, which the shell points at its own home directory.
    pub home: Option<String>,
    /// The `SHELL` variable, which names the shell by its own path.
    pub shell: Option<String>,
}

impl EnvSnapshot {
    /// Whether all three variables are unset.
    pub open spec fn is_cleared(self) -> bool {
        self.msystem is None && self.home is None && self.shell is None
    }
}

/// Decide what the environment should look like before the launch: when the
/// marker variable is present, it and the two dependent variables are
/// removed regardless of their prior values; when it is absent, everything
/// is left exactly as it was.
pub fn clean_environment(env: EnvSnapshot) -> (r: EnvSnapshot)
    ensures
        env.msystem is Some ==> r.is_cleared(),
        env.msystem is None ==> r == env,
{
    if env.msystem.is_some() {
        EnvSnapshot { msystem: None, home: None, shell: None }
    } else {
        env
    }
}

} // verus!
