//! The validated launch request.

use vstd::prelude::*;

verus! {

/// A fully resolved launch request: the sandbox policy in its external
/// encoded form, the working directory the policy is interpreted against,
/// one experimental feature toggle, and the target command line.
///
/// The policy descriptor is opaque to the launcher: it is handed to the
/// policy applier untouched and never inspected here. The command line is
/// captured exactly as provided (element 0 is the program, the rest its
/// arguments in order, duplicates and all); nothing is defaulted.
pub struct LandlockCommand {
    /// Working directory used as the policy's reference point. It may
    /// differ from the current directory of the launcher itself.
    pub sandbox_policy_cwd: String,
    /// The sandbox policy descriptor, in its external encoded form.
    pub sandbox_policy: String,
    /// Enables the experimental read-only bind-mount protections.
    pub enable_bind_mounts: bool,
    /// The target command and its arguments, taken verbatim.
    pub command: Vec<String>,
}

impl LandlockCommand {
    /// Build a launch request, capturing every field literally.
    pub fn new(
        sandbox_policy_cwd: String,
        sandbox_policy: String,
        enable_bind_mounts: bool,
        command: Vec<String>,
    ) -> (r: LandlockCommand)
        ensures
            r.sandbox_policy_cwd == sandbox_policy_cwd,
            r.sandbox_policy == sandbox_policy,
            r.enable_bind_mounts == enable_bind_mounts,
            r.command == command,
    {
        LandlockCommand { sandbox_policy_cwd, sandbox_policy, enable_bind_mounts, command }
    }
}

} // verus!
