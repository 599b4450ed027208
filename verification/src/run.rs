//! How a run of a macro goes: a toggling macro whose script still runs is
//! stopped instead of started again; a started toggling script leaves its
//! process id in a file, which the next run reads back.

use vstd::prelude::*;

use crate::config::Macro;
use crate::numtext::{
    decimal_int, decimal_nat, lemma_i32_text_round_trip, parse_i32, parse_i32_spec, u64_text,
};
use crate::paths::{file_stem, file_stem_of, pid_file_name_for_stem, pid_file_name_spec};

verus! {

#[verifier::external_type_specification]
#[verifier::external_body]
pub struct ExPid(rustix::process::Pid);

/// Name for the number of a process id, what `rustix::process::Pid::as_raw`
/// gives for it.
pub uninterp spec fn pid_number(pid: rustix::process::Pid) -> i32;

/// Calls `rustix::process::Pid::from_raw`, which gives a pid for a positive
/// number and `None` for any other; the pid's number is the one given.
#[verifier::external_body]
pub(crate) fn pid_from_raw(raw: i32) -> (r: Option<rustix::process::Pid>)
    ensures
        r is Some <==> raw > 0,
        r matches Some(pid) ==> pid_number(pid) == raw,
{
    rustix::process::Pid::from_raw(raw)
}

/// The first step of a run.
#[derive(PartialEq, Eq, Structural, Debug)]
pub enum RunStart {
    /// Stop the script whose process id the pid file holds, and remove the
    /// file.
    StopRunning,
    /// Start the script.
    Launch,
}

/// Why a run could not go on.
#[derive(PartialEq, Eq, Structural, Debug)]
pub enum RunError {
    /// The script's path has no file name to name the pid file after.
    NoScriptName,
    /// The pid file does not hold a number.
    PidNotANumber,
    /// The pid file holds a number that is no process id.
    PidNotPositive,
    /// Sending the termination signal failed other than for a process that
    /// is gone.
    TerminateFailed,
}

/// The error number of `kill` for a process that does not exist (`ESRCH`).
pub const NO_SUCH_PROCESS: i32 = 3;

impl Macro {
    /// Decides the first step of a run: a toggling macro whose pid file
    /// exists stops the running script; anything else starts the script.
    pub fn run(&self, pid_file_found: bool) -> (r: RunStart)
        ensures
            r == (if self.toggle && pid_file_found {
                RunStart::StopRunning
            } else {
                RunStart::Launch
            }),
    {
        if self.toggle && pid_file_found {
            RunStart::StopRunning
        } else {
            RunStart::Launch
        }
    }

    /// The name of the file that holds the process id of the running script:
    /// the script's file stem followed by `.pid`; an error where the script's
    /// path has no file name (such as `/`, or a path ending in `..`).
    pub fn pid_file_name(&self) -> (r: Result<String, RunError>)
        ensures
            match file_stem_of(self.script@) {
                Some(stem) => r matches Ok(name) && name@ == pid_file_name_spec(stem),
                None => r == Err::<String, RunError>(RunError::NoScriptName),
            },
    {
        match file_stem(self.script.as_str()) {
            Some(stem) => Ok(pid_file_name_for_stem(stem.as_str())),
            None => Err(RunError::NoScriptName),
        }
    }

    /// What to write to the pid file once the script runs as process
    /// `child_id`: its decimal number for a toggling macro, nothing for
    /// another.
    pub fn pid_file_text(&self, child_id: u32) -> (r: Option<String>)
        ensures
            self.toggle ==> (r matches Some(text) && text@ == decimal_nat(child_id as nat)),
            !self.toggle ==> r is None,
    {
        if self.toggle {
            Some(u64_text(child_id as u64))
        } else {
            None
        }
    }
}

/// Reads the process id that a pid file holds, as `str::parse::<i32>` and
/// `Pid::from_raw` read it.
pub fn pid_from_file_text(text: &str) -> (r: Result<rustix::process::Pid, RunError>)
    ensures
        match parse_i32_spec(text@) {
            None => r == Err::<rustix::process::Pid, RunError>(RunError::PidNotANumber),
            Some(n) => if n > 0 {
                r matches Ok(pid) && pid_number(pid) == n
            } else {
                r == Err::<rustix::process::Pid, RunError>(RunError::PidNotPositive)
            },
        },
{
    match parse_i32(text) {
        Some(n) => match pid_from_raw(n) {
            Some(pid) => Ok(pid),
            None => Err(RunError::PidNotPositive),
        },
        None => Err(RunError::PidNotANumber),
    }
}

/// Decides what the result of sending the termination signal means:
/// success, or a process that no longer exists, lets the run go on; any
/// other error number stops it.
pub fn termination_outcome(error_number: Option<i32>) -> (r: Result<(), RunError>)
    ensures
        r is Ok <==> (error_number is None || error_number == Some(NO_SUCH_PROCESS)),
        r is Err ==> r == Err::<(), RunError>(RunError::TerminateFailed),
{
    match error_number {
        None => Ok(()),
        Some(n) => if n == NO_SUCH_PROCESS {
            Ok(())
        } else {
            Err(RunError::TerminateFailed)
        },
    }
}

/// Law: the pid file that a started toggling script leaves reads back as the
/// process id it was written for, for every process id that fits in a pid
/// (`0 < child_id <= i32::MAX`).
pub proof fn lemma_pid_file_round_trip(child_id: u32)
    requires
        0 < child_id <= i32::MAX,
    ensures
        parse_i32_spec(decimal_nat(child_id as nat)) == Some(child_id as i32),
{
    lemma_i32_text_round_trip(child_id as i32);
    assert(decimal_int(child_id as i32 as int) == decimal_nat(child_id as nat));
}

} // verus!
