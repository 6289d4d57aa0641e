//! Closure transfer: the exact command lines that push an artifact's closure
//! to the private cache or pull it from the public one, and the hard-failure
//! rule on the transfer subprocess's exit. The subprocess itself runs
//! outside.

use vstd::prelude::*;

verus! {

use vstd::string::StringExecFns;

/// Why a transfer failed.
#[derive(Debug)]
pub enum ClosureSyncError {
    /// The transfer subprocess could not be started.
    LaunchFailed,
    /// The transfer subprocess exited nonzero: a hard failure for the
    /// calling state machine.
    NonZeroExit,
}

/// The endpoints a transfer speaks to: the identity-bearing one pushed to,
/// the anonymous one pulled from. No process-wide constants.
pub struct ClosureSync {
    pub push_target: String,
    pub pull_source: String,
}

/// The argument views of a command line.
pub open spec fn argv_chars(args: Seq<String>) -> Seq<Seq<char>> {
    args.map_values(|a: String| a@)
}

impl ClosureSync {
    /// A transfer plan for one pair of endpoints.
    pub fn new(push_target: String, pull_source: String) -> (r: ClosureSync)
        ensures
            r.push_target == push_target,
            r.pull_source == pull_source,
    {
        ClosureSync { push_target, pull_source }
    }

    /// The full command line that pushes one closure to the private cache.
    pub fn push_argv(&self, store_hash: &str) -> (r: Vec<String>)
        ensures
            argv_chars(r@) == seq!["nix"@, "copy"@, "--to"@, self.push_target@, store_hash@],
    {
        let mut out: Vec<String> = Vec::new();
        out.push("nix".to_owned());
        out.push("copy".to_owned());
        out.push("--to".to_owned());
        out.push(self.push_target.clone());
        out.push(store_hash.to_owned());
        proof {
            assert(argv_chars(out@)
                =~= seq!["nix"@, "copy"@, "--to"@, self.push_target@, store_hash@]);
        }
        out
    }

    /// The full command line that pulls one closure from the public cache.
    pub fn pull_argv(&self, store_hash: &str) -> (r: Vec<String>)
        ensures
            argv_chars(r@) == seq!["nix"@, "copy"@, "--from"@, self.pull_source@, store_hash@],
    {
        let mut out: Vec<String> = Vec::new();
        out.push("nix".to_owned());
        out.push("copy".to_owned());
        out.push("--from".to_owned());
        out.push(self.pull_source.clone());
        out.push(store_hash.to_owned());
        proof {
            assert(argv_chars(out@)
                =~= seq!["nix"@, "copy"@, "--from"@, self.pull_source@, store_hash@]);
        }
        out
    }
}

/// The hard-failure rule on one transfer: it succeeded exactly when the
/// subprocess started and exited zero.
pub fn sync_outcome(launched: bool, exit_ok: bool) -> (r: Result<(), ClosureSyncError>)
    ensures
        r is Ok <==> (launched && exit_ok),
        !launched ==> r matches Err(ClosureSyncError::LaunchFailed),
        launched && !exit_ok ==> r matches Err(ClosureSyncError::NonZeroExit),
{
    if !launched {
        Err(ClosureSyncError::LaunchFailed)
    } else if !exit_ok {
        Err(ClosureSyncError::NonZeroExit)
    } else {
        Ok(())
    }
}

} // verus!
