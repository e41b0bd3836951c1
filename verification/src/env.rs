//! The environment capability interface: the operations an environment
//! provider offers, specified against an abstract record of which facts are
//! configured and what their values are.

use vstd::prelude::*;

pub mod simulated;

verus! {

/// The abstract state of an environment provider. Each fact is independently
/// optional: `None` means the fact is not configured, `Some` holds the
/// recorded value.
#[verifier::ext_equal]
pub struct EnvState {
    /// The process arguments as text strings, in invocation order.
    pub args: Option<Seq<Seq<char>>>,
    /// The process arguments as raw platform byte strings, in invocation
    /// order; a representation independent of `args`.
    pub args_os: Option<Seq<Seq<u8>>>,
    /// The current working directory.
    pub current_dir: Option<Seq<char>>,
    /// The path of the running executable.
    pub current_exe: Option<Seq<char>>,
}

impl EnvState {
    /// The state of a freshly constructed provider: nothing is configured.
    pub open spec fn unset() -> EnvState {
        EnvState { args: None, args_os: None, current_dir: None, current_exe: None }
    }

    /// The state after recording `args` as the text arguments.
    pub open spec fn with_args(self, args: Seq<Seq<char>>) -> EnvState {
        EnvState { args: Some(args), ..self }
    }

    /// The state after recording `args` as the raw byte-string arguments.
    pub open spec fn with_args_os(self, args: Seq<Seq<u8>>) -> EnvState {
        EnvState { args_os: Some(args), ..self }
    }

    /// The state after recording `path` as the current working directory.
    pub open spec fn with_current_dir(self, path: Seq<char>) -> EnvState {
        EnvState { current_dir: Some(path), ..self }
    }

    /// The state after recording `path` as the executable path.
    pub open spec fn with_current_exe(self, path: Seq<char>) -> EnvState {
        EnvState { current_exe: Some(path), ..self }
    }
}

/// A recoverable failure of an environment provider, reserved for conditions
/// a real, operating-system-backed provider might hit, such as failing to
/// resolve the working directory. The simulated provider never produces it.
#[derive(Clone, Copy, Debug, PartialEq, Eq)]
pub struct EnvironmentError;

/// The capability interface for environment queries. Consumer code is written
/// against this trait, so that a real provider and the simulated one are
/// interchangeable.
///
/// Reading a fact is only permitted when the provider has it configured
/// (`requires` on each reader): for the simulated provider an unconfigured
/// read is a broken test invariant, not a recoverable condition.
pub trait Env {
    /// The abstract state this provider currently holds.
    spec fn env_state(&self) -> EnvState;

    /// The arguments the process was started with, as text, in order.
    fn args(&self) -> (r: Vec<String>)
        requires
            self.env_state().args is Some,
        ensures
            r.deep_view() == self.env_state().args->Some_0,
    ;

    /// The arguments the process was started with, as raw platform byte
    /// strings, in order.
    fn args_os(&self) -> (r: Vec<Vec<u8>>)
        requires
            self.env_state().args_os is Some,
        ensures
            r.deep_view() == self.env_state().args_os->Some_0,
    ;

    /// The current working directory, or an error when the provider cannot
    /// determine it.
    fn current_dir(&self) -> (r: Result<String, EnvironmentError>)
        requires
            self.env_state().current_dir is Some,
        ensures
            r matches Ok(p) ==> p@ == self.env_state().current_dir->Some_0,
    ;

    /// The path of the running executable, or an error when the provider
    /// cannot determine it.
    fn current_exe(&self) -> (r: Result<String, EnvironmentError>)
        requires
            self.env_state().current_exe is Some,
        ensures
            r matches Ok(p) ==> p@ == self.env_state().current_exe->Some_0,
    ;

    /// Changes the current working directory. On success exactly the
    /// working-directory fact is updated; every other fact is untouched.
    fn set_current_dir(&mut self, path: String) -> (r: Result<(), EnvironmentError>)
        ensures
            r is Ok ==> final(self).env_state() == old(self).env_state().with_current_dir(path@),
            r is Err ==> final(self).env_state() == old(self).env_state(),
    ;
}

/// Law: a freshly constructed provider has every fact unconfigured, so each
/// of the readers is forbidden independently until its fact is set.
pub proof fn lemma_unset_nothing_configured()
    ensures
        EnvState::unset().args is None,
        EnvState::unset().args_os is None,
        EnvState::unset().current_dir is None,
        EnvState::unset().current_exe is None,
{
}

/// Law: recording text arguments stores exactly the given sequence, in its
/// original order, and leaves every other fact as it was.
pub proof fn lemma_with_args_exact_and_independent(s: EnvState, args: Seq<Seq<char>>)
    ensures
        s.with_args(args).args == Some(args),
        s.with_args(args).args_os == s.args_os,
        s.with_args(args).current_dir == s.current_dir,
        s.with_args(args).current_exe == s.current_exe,
{
}

/// Law: recording raw byte-string arguments stores exactly the given
/// sequence, in its original order, and leaves every other fact as it was.
pub proof fn lemma_with_args_os_exact_and_independent(s: EnvState, args: Seq<Seq<u8>>)
    ensures
        s.with_args_os(args).args_os == Some(args),
        s.with_args_os(args).args == s.args,
        s.with_args_os(args).current_dir == s.current_dir,
        s.with_args_os(args).current_exe == s.current_exe,
{
}

/// Law: recording a working directory stores exactly the given path and
/// leaves every other fact as it was.
pub proof fn lemma_with_current_dir_exact_and_independent(s: EnvState, path: Seq<char>)
    ensures
        s.with_current_dir(path).current_dir == Some(path),
        s.with_current_dir(path).args == s.args,
        s.with_current_dir(path).args_os == s.args_os,
        s.with_current_dir(path).current_exe == s.current_exe,
{
}

/// Law: recording an executable path stores exactly the given path into the
/// executable-path fact — not into the working directory — and leaves every
/// other fact as it was.
pub proof fn lemma_with_current_exe_exact_and_independent(s: EnvState, path: Seq<char>)
    ensures
        s.with_current_exe(path).current_exe == Some(path),
        s.with_current_exe(path).args == s.args,
        s.with_current_exe(path).args_os == s.args_os,
        s.with_current_exe(path).current_dir == s.current_dir,
{
}

} // verus!
