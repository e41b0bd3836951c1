//! An in-memory simulated environment provider: a test pre-loads exactly the
//! facts it needs, and a read of a fact that was never configured is a
//! contract violation rather than a silently defaulted value.

use vstd::pervasive::unreached;
use vstd::prelude::*;

use crate::env::Env;
use crate::env::EnvState;
use crate::env::EnvironmentError;

verus! {

/// Provides inspection and manipulation of a simulated process's environment.
///
/// Every fact starts unconfigured; each setter configures exactly its own
/// fact. The abstract state is [`EnvState`], reached through
/// [`Env::env_state`].
pub struct SimulatedEnv {
    args: Option<Vec<String>>,
    args_os: Option<Vec<Vec<u8>>>,
    current_dir: Option<String>,
    current_exe: Option<String>,
}

/// Copies a vector of text strings, preserving contents and order.
fn clone_text_args(v: &Vec<String>) -> (r: Vec<String>)
    ensures
        r.deep_view() == v.deep_view(),
{
    let mut r: Vec<String> = Vec::new();
    let mut i: usize = 0;
    while i < v.len()
        invariant
            i <= v.len(),
            r@.len() == i as int,
            forall|j: int| 0 <= j < i as int ==> #[trigger] r@[j]@ == v@[j]@,
        decreases v.len() - i,
    {
        r.push(v[i].clone());
        i = i + 1;
    }
    proof {
        assert forall|j: int| 0 <= j < r@.len() implies r.deep_view()[j] == v.deep_view()[j] by {
            assert(r@[j]@ == v@[j]@);
        }
        assert(r.deep_view() =~= v.deep_view());
    }
    r
}

/// Copies one byte string.
fn clone_byte_string(v: &Vec<u8>) -> (r: Vec<u8>)
    ensures
        r@ == v@,
{
    let mut r: Vec<u8> = Vec::new();
    let mut i: usize = 0;
    while i < v.len()
        invariant
            i <= v.len(),
            r@ == v@.subrange(0, i as int),
        decreases v.len() - i,
    {
        r.push(v[i]);
        i = i + 1;
        proof {
            assert(r@ =~= v@.subrange(0, i as int));
        }
    }
    proof {
        assert(r@ =~= v@);
    }
    r
}

/// Copies a vector of raw byte-string arguments, preserving contents and
/// order.
fn clone_raw_args(v: &Vec<Vec<u8>>) -> (r: Vec<Vec<u8>>)
    ensures
        r.deep_view() == v.deep_view(),
{
    let mut r: Vec<Vec<u8>> = Vec::new();
    let mut i: usize = 0;
    while i < v.len()
        invariant
            i <= v.len(),
            r@.len() == i as int,
            forall|j: int| 0 <= j < i as int ==> #[trigger] r@[j]@ == v@[j]@,
        decreases v.len() - i,
    {
        r.push(clone_byte_string(&v[i]));
        i = i + 1;
    }
    proof {
        assert forall|j: int| 0 <= j < r@.len() implies r.deep_view()[j] == v.deep_view()[j] by {
            assert(r@[j].deep_view() =~= r@[j]@);
            assert(v@[j].deep_view() =~= v@[j]@);
            assert(r@[j]@ == v@[j]@);
        }
        assert(r.deep_view() =~= v.deep_view());
    }
    r
}

impl SimulatedEnv {
    /// Creates a new virtual environment with every fact unconfigured.
    pub fn new() -> (r: SimulatedEnv)
        ensures
            r.env_state() == EnvState::unset(),
    {
        SimulatedEnv { args: None, args_os: None, current_dir: None, current_exe: None }
    }

    /// Sets the arguments which this program was started with (normally
    /// passed via the command line). No other fact is touched.
    pub fn set_args(&mut self, args: Vec<String>)
        ensures
            final(self).env_state() == old(self).env_state().with_args(args.deep_view()),
    {
        self.args = Some(args);
    }

    /// Sets the raw byte-string arguments which this program was started with
    /// (normally passed via the command line). No other fact is touched.
    pub fn set_args_os(&mut self, args: Vec<Vec<u8>>)
        ensures
            final(self).env_state() == old(self).env_state().with_args_os(args.deep_view()),
    {
        self.args_os = Some(args);
    }

    /// Sets the path to be returned by [`Env::current_exe`]. The working
    /// directory and every other fact are untouched: the executable path is
    /// an independent fact of its own.
    pub fn set_current_exe(&mut self, path: String)
        ensures
            final(self).env_state() == old(self).env_state().with_current_exe(path@),
    {
        self.current_exe = Some(path);
    }

    /// Whether the text arguments have been configured.
    pub fn has_args(&self) -> (r: bool)
        ensures
            r == (self.env_state().args is Some),
    {
        self.args.is_some()
    }

    /// Whether the raw byte-string arguments have been configured.
    pub fn has_args_os(&self) -> (r: bool)
        ensures
            r == (self.env_state().args_os is Some),
    {
        self.args_os.is_some()
    }

    /// Whether the working directory has been configured.
    pub fn has_current_dir(&self) -> (r: bool)
        ensures
            r == (self.env_state().current_dir is Some),
    {
        self.current_dir.is_some()
    }

    /// Whether the executable path has been configured.
    pub fn has_current_exe(&self) -> (r: bool)
        ensures
            r == (self.env_state().current_exe is Some),
    {
        self.current_exe.is_some()
    }
}

impl Env for SimulatedEnv {
    closed spec fn env_state(&self) -> EnvState {
        EnvState {
            args: self.args.deep_view(),
            args_os: self.args_os.deep_view(),
            current_dir: match self.current_dir {
                Some(ref p) => Some(p@),
                None => None,
            },
            current_exe: match self.current_exe {
                Some(ref p) => Some(p@),
                None => None,
            },
        }
    }

    fn args(&self) -> (r: Vec<String>) {
        match &self.args {
            Some(v) => clone_text_args(v),
            None => unreached(),
        }
    }

    fn args_os(&self) -> (r: Vec<Vec<u8>>) {
        match &self.args_os {
            Some(v) => clone_raw_args(v),
            None => unreached(),
        }
    }

    fn current_dir(&self) -> (r: Result<String, EnvironmentError>)
        ensures
            r is Ok,
    {
        match &self.current_dir {
            Some(p) => Ok(p.clone()),
            None => unreached(),
        }
    }

    fn current_exe(&self) -> (r: Result<String, EnvironmentError>)
        ensures
            r is Ok,
    {
        match &self.current_exe {
            Some(p) => Ok(p.clone()),
            None => unreached(),
        }
    }

    fn set_current_dir(&mut self, path: String) -> (r: Result<(), EnvironmentError>)
        ensures
            r is Ok,
    {
        self.current_dir = Some(path);
        Ok(())
    }
}

impl Default for SimulatedEnv {
    /// The default simulated environment has every fact unconfigured, the
    /// same as [`SimulatedEnv::new`].
    fn default() -> (r: SimulatedEnv)
        ensures
            r.env_state() == EnvState::unset(),
    {
        SimulatedEnv::new()
    }
}

} // verus!
