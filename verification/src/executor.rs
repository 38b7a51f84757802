//! The process launcher's verified half: the launch request, the
//! platform-dependent indirection that turns it into the command line
//! actually spawned, and the classification of what came back.

use vstd::prelude::*;

use crate::text::str_views;

verus! {

/// A launch request: the executable to run and its argument tokens, in order.
pub struct ExecutorInfo {
    path: String,
    args: Vec<String>,
}

impl ExecutorInfo {
    /// Specification view of the executable path.
    pub closed spec fn path_spec(self) -> Seq<char> {
        self.path@
    }

    /// Specification view of the argument tokens.
    pub closed spec fn args_spec(self) -> Seq<String> {
        self.args@
    }

    /// Build a launch request from its parts.
    pub fn new(path: String, args: Vec<String>) -> (info: Self)
        ensures
            info.path_spec() == path@,
            info.args_spec() == args@,
    {
        Self { path, args }
    }

    /// The executable path.
    pub fn get_path(&self) -> (r: &str)
        ensures
            r@ == self.path_spec(),
    {
        self.path.as_str()
    }

    /// The argument tokens.
    pub fn get_args(&self) -> (r: &Vec<String>)
        ensures
            r@ == self.args_spec(),
    {
        &self.args
    }
}

/// How a launch request reaches the operating system. `Direct` runs the
/// executable with its arguments verbatim; `ShellOpen` goes through a
/// platform "open with" command with its own fixed flags, the executable
/// path and arguments appended, spawned without waiting for exit.
pub enum LaunchStrategy {
    Direct,
    ShellOpen { opener: String, flags: Vec<String> },
}

/// The command line actually spawned for `info` under `strategy`: the
/// request itself when direct, or the opener with its flags, then the
/// executable path, then the arguments, when shell-indirect.
pub fn build_command(strategy: &LaunchStrategy, info: ExecutorInfo) -> (full: ExecutorInfo)
    ensures
        match strategy {
            LaunchStrategy::Direct => {
                &&& full.path_spec() == info.path_spec()
                &&& full.args_spec() == info.args_spec()
            },
            LaunchStrategy::ShellOpen { opener, flags } => {
                &&& full.path_spec() == opener@
                &&& str_views(full.args_spec()) == str_views(flags@) + seq![info.path_spec()]
                    + str_views(info.args_spec())
            },
        },
{
    match strategy {
        LaunchStrategy::Direct => info,
        LaunchStrategy::ShellOpen { opener, flags } => {
            let mut full_args: Vec<String> = Vec::new();
            let mut k: usize = 0;
            while k < flags.len()
                invariant
                    k <= flags@.len(),
                    full_args@ == flags@.take(k as int),
                decreases flags@.len() - k,
            {
                full_args.push(flags[k].clone());
                proof {
                    assert(flags@.take(k as int).push(flags@[k as int]) =~= flags@.take(
                        k + 1,
                    ));
                }
                k = k + 1;
            }
            proof {
                assert(flags@.take(flags@.len() as int) =~= flags@);
            }
            full_args.push(info.path.clone());
            let mut j: usize = 0;
            let ghost head = full_args@;
            while j < info.args.len()
                invariant
                    j <= info.args@.len(),
                    full_args@ == head + info.args@.take(j as int),
                decreases info.args@.len() - j,
            {
                proof {
                    assert((head + info.args@.take(j as int)).push(info.args@[j as int])
                        =~= head + info.args@.take(j + 1));
                }
                full_args.push(info.args[j].clone());
                j = j + 1;
            }
            proof {
                assert(info.args@.take(info.args@.len() as int) =~= info.args@);
                assert(str_views(head + info.args@) =~= str_views(flags@) + seq![info.path@]
                    + str_views(info.args@));
            }
            ExecutorInfo { path: opener.clone(), args: full_args }
        },
    }
}

/// How a spawn attempt ended, as the host observed it: the executable was
/// missing, the spawn failed for another reason, the process exited with a
/// code, it was ended by a signal, or it was left running detached.
pub enum SpawnOutcome {
    ExecutableNotFound,
    SpawnFailure,
    Exited(i32),
    EndedBySignal,
    Detached,
}

/// What a finished (or detached) process reported: an exit code when it
/// exited normally, none when it is detached or was ended by a signal.
#[derive(Debug, Clone, Copy, PartialEq, Eq, Structural)]
pub struct ProcessResult {
    pub exit_code: Option<i32>,
    pub signaled: bool,
}

/// Why a launch failed: the executable does not exist, the process was
/// ended by a signal instead of exiting, or the spawn itself failed.
#[derive(Debug, Clone, Copy, PartialEq, Eq, Structural)]
pub enum LaunchError {
    NotFound,
    Signaled,
    SpawnFailed,
}

/// Classify a spawn outcome. A missing executable is always `NotFound`, a
/// signal-ended process is `Signaled` with no exit code to report, and any
/// other spawn failure is `SpawnFailed`; nothing is silently swallowed.
pub fn classify_outcome(outcome: &SpawnOutcome) -> (r: Result<ProcessResult, LaunchError>)
    ensures
        match outcome {
            SpawnOutcome::ExecutableNotFound => r == Result::<ProcessResult, LaunchError>::Err(
                LaunchError::NotFound,
            ),
            SpawnOutcome::SpawnFailure => r == Result::<ProcessResult, LaunchError>::Err(
                LaunchError::SpawnFailed,
            ),
            SpawnOutcome::Exited(code) => r == Result::<ProcessResult, LaunchError>::Ok(
                ProcessResult { exit_code: Some(*code), signaled: false },
            ),
            SpawnOutcome::EndedBySignal => r == Result::<ProcessResult, LaunchError>::Err(
                LaunchError::Signaled,
            ),
            SpawnOutcome::Detached => r == Result::<ProcessResult, LaunchError>::Ok(
                ProcessResult { exit_code: None, signaled: false },
            ),
        },
{
    match outcome {
        SpawnOutcome::ExecutableNotFound => Err(LaunchError::NotFound),
        SpawnOutcome::SpawnFailure => Err(LaunchError::SpawnFailed),
        SpawnOutcome::Exited(code) => Ok(ProcessResult { exit_code: Some(*code), signaled: false }),
        SpawnOutcome::EndedBySignal => Err(LaunchError::Signaled),
        SpawnOutcome::Detached => Ok(ProcessResult { exit_code: None, signaled: false }),
    }
}

} // verus!
