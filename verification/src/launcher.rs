//! The staged setup-then-exec protocol.
//!
//! A launch moves through a fixed sequence of states: the policy is applied
//! to the calling thread first, the command is validated and encoded next,
//! and the process image is replaced last. Every failure state is terminal:
//! there is no retry and no path that runs the target command under
//! partially applied restrictions. The host binary performs the two
//! operating-system steps (applying the policy, calling the replacement
//! primitive) and reports their outcomes to the methods here; everything
//! the launcher decides from those outcomes is verified.

use crate::encoding::command_encodable;
use crate::encoding::encode_command;
use crate::encoding::nul_terminated;
use crate::errors::LaunchError;
use crate::errors::PolicyFailure;
use crate::invocation::LandlockCommand;
use vstd::prelude::*;

verus! {

/// The stages of one launch. `Replaced`, `ExecFailed`, `PolicyFailed` and
/// `Aborted` are terminal: no transition leaves them.
#[derive(Clone, Copy, Debug, PartialEq, Eq, Structural)]
pub enum LaunchState {
    /// Nothing has happened yet.
    Init,
    /// The policy applier has been handed the policy and is running.
    PolicyApplying,
    /// The calling thread's privileges are narrowed; they stay narrowed for
    /// the rest of the process's life, across the image replacement.
    PolicyApplied,
    /// The policy applier failed; the launch aborts.
    PolicyFailed,
    /// The command line was validated and encoded; the replacement
    /// primitive is being invoked.
    Execing,
    /// The process image was replaced: no code of the launcher runs any
    /// more. Recorded here only as the success end of the protocol.
    Replaced,
    /// The replacement primitive returned, which means it failed.
    ExecFailed,
    /// The command line was empty or not encodable; the launch aborts
    /// without attempting a replacement.
    Aborted,
}

/// The states a launch never leaves.
pub open spec fn is_terminal(s: LaunchState) -> bool {
    ||| s == LaunchState::PolicyFailed
    ||| s == LaunchState::Aborted
    ||| s == LaunchState::Replaced
    ||| s == LaunchState::ExecFailed
}

/// The transition relation of the launch protocol. Everything the
/// launcher's methods do steps along this relation.
pub open spec fn state_steps_to(pre: LaunchState, post: LaunchState) -> bool {
    ||| (pre == LaunchState::Init && post == LaunchState::PolicyApplying)
    ||| (pre == LaunchState::PolicyApplying && (post == LaunchState::PolicyApplied || post
        == LaunchState::PolicyFailed))
    ||| (pre == LaunchState::PolicyApplied && (post == LaunchState::Execing || post
        == LaunchState::Aborted))
    ||| (pre == LaunchState::Execing && (post == LaunchState::Replaced || post
        == LaunchState::ExecFailed))
}

/// One launch in progress: the request being served and the stage reached.
pub struct Launcher {
    /// The launch request, unchanged for the whole launch.
    pub invocation: LandlockCommand,
    /// The stage this launch has reached.
    pub state: LaunchState,
}

impl Launcher {
    /// A launch that has reached the replacement stages did so with a
    /// non-empty, encodable command line: the empty-command and encoding
    /// checks cannot be skipped on the way there.
    pub open spec fn wf(self) -> bool {
        (self.state == LaunchState::Execing || self.state == LaunchState::Replaced
            || self.state == LaunchState::ExecFailed) ==> {
            &&& self.invocation.command@.len() > 0
            &&& command_encodable(self.invocation.command@)
        }
    }

    /// Begin a launch for the given request.
    pub fn new(invocation: LandlockCommand) -> (r: Launcher)
        ensures
            r.invocation == invocation,
            r.state == LaunchState::Init,
            r.wf(),
    {
        Launcher { invocation, state: LaunchState::Init }
    }

    /// Record the hand-off of the policy to the policy applier. This is the
    /// only transition out of `Init`, so the policy is applied at most once
    /// per launch, and before anything else happens.
    pub fn begin_policy_application(&mut self)
        requires
            old(self).state == LaunchState::Init,
        ensures
            final(self).invocation == old(self).invocation,
            final(self).state == LaunchState::PolicyApplying,
            final(self).wf(),
            state_steps_to(old(self).state, final(self).state),
    {
        self.state = LaunchState::PolicyApplying;
    }

    /// Record the policy applier's outcome. On success the launch proceeds;
    /// on any of the four failure kinds it is over, and the returned error
    /// carries the kind and the underlying cause.
    pub fn on_policy_outcome(&mut self, outcome: Result<(), PolicyFailure>) -> (r: Option<
        LaunchError,
    >)
        requires
            old(self).state == LaunchState::PolicyApplying,
        ensures
            final(self).invocation == old(self).invocation,
            final(self).wf(),
            state_steps_to(old(self).state, final(self).state),
            match outcome {
                Ok(_) => {
                    &&& final(self).state == LaunchState::PolicyApplied
                    &&& r is None
                },
                Err(f) => {
                    &&& final(self).state == LaunchState::PolicyFailed
                    &&& r == Some(
                        LaunchError::PolicyFailure { kind: f.kind, detail: f.detail },
                    )
                },
            },
    {
        match outcome {
            Ok(_) => {
                self.state = LaunchState::PolicyApplied;
                None
            },
            Err(f) => {
                self.state = LaunchState::PolicyFailed;
                Some(LaunchError::PolicyFailure { kind: f.kind, detail: f.detail })
            },
        }
    }

    /// Validate and encode the command line. An empty command aborts the
    /// launch (even though the policy has already been applied: the process
    /// terminates immediately, so the narrowed privileges are moot). A
    /// command with an embedded NUL aborts before any replacement attempt.
    /// Otherwise the launch proceeds to the replacement stage and the
    /// encoded argument vector is returned.
    pub fn prepare_exec(&mut self) -> (r: Result<Vec<String>, LaunchError>)
        requires
            old(self).state == LaunchState::PolicyApplied,
        ensures
            final(self).invocation == old(self).invocation,
            final(self).wf(),
            state_steps_to(old(self).state, final(self).state),
            old(self).invocation.command@.len() == 0 ==> (r matches Err(e)
                && e is EmptyCommand),
            match r {
                Ok(argv) => {
                    &&& old(self).invocation.command@.len() > 0
                    &&& command_encodable(old(self).invocation.command@)
                    &&& final(self).state == LaunchState::Execing
                    &&& argv@.len() == old(self).invocation.command@.len()
                    &&& forall|i: int|
                        0 <= i < argv@.len() ==> argv@[i]@ == nul_terminated(
                            old(self).invocation.command@[i]@,
                        )
                },
                Err(e) => {
                    &&& final(self).state == LaunchState::Aborted
                    &&& match e {
                        LaunchError::EmptyCommand => old(self).invocation.command@.len() == 0,
                        LaunchError::StringEncoding { index } => {
                            &&& index < old(self).invocation.command@.len()
                            &&& crate::encoding::contains_nul(
                                old(self).invocation.command@[index as int]@,
                            )
                            &&& forall|j: int|
                                0 <= j < index ==> !crate::encoding::contains_nul(
                                    old(self).invocation.command@[j]@,
                                )
                        },
                        _ => false,
                    }
                },
            },
    {
        if self.invocation.command.len() == 0 {
            self.state = LaunchState::Aborted;
            return Err(LaunchError::EmptyCommand);
        }
        match encode_command(&self.invocation.command) {
            Ok(argv) => {
                self.state = LaunchState::Execing;
                Ok(argv)
            },
            Err(e) => {
                self.state = LaunchState::Aborted;
                Err(e)
            },
        }
    }

    /// Record that the replacement primitive returned. By the operating
    /// system's contract a successful replacement never returns, so a
    /// return means the launch failed; the error names the program (the
    /// first command element) and the reported cause.
    pub fn on_exec_returned(&mut self, os_error: String) -> (r: LaunchError)
        requires
            old(self).wf(),
            old(self).state == LaunchState::Execing,
        ensures
            final(self).invocation == old(self).invocation,
            final(self).state == LaunchState::ExecFailed,
            final(self).wf(),
            state_steps_to(old(self).state, final(self).state),
            r matches LaunchError::ImageReplacement { program, os_error: cause } && program == old(
                self,
            ).invocation.command@[0] && cause == os_error,
    {
        let program = self.invocation.command[0].clone();
        self.state = LaunchState::ExecFailed;
        LaunchError::ImageReplacement { program, os_error }
    }
}

/// Law: no transition leaves a terminal state. Once a launch has failed
/// (or succeeded), nothing is retried and nothing further happens.
pub proof fn lemma_no_step_after_terminal(pre: LaunchState, post: LaunchState)
    requires
        is_terminal(pre),
    ensures
        !state_steps_to(pre, post),
{
}

/// Law: the policy is applied at most once per launch. No transition
/// re-enters `Init`, and the policy hand-off happens only out of `Init`,
/// so the launch can never reach the policy applier a second time.
pub proof fn lemma_policy_applied_at_most_once(pre: LaunchState)
    ensures
        !state_steps_to(pre, LaunchState::Init),
        state_steps_to(pre, LaunchState::PolicyApplying) ==> pre == LaunchState::Init,
{
}

/// Law: the replacement stage is reachable only from a successfully
/// applied policy; no step skips the policy or runs the target command
/// under partially applied restrictions.
pub proof fn lemma_exec_only_after_policy(pre: LaunchState)
    ensures
        state_steps_to(pre, LaunchState::Execing) ==> pre == LaunchState::PolicyApplied,
{
}

/// Law: once the replacement primitive has been invoked, a launch ends in
/// exactly one of two ways: the process image is replaced, or the failure
/// is reported.
pub proof fn lemma_exec_outcomes(post: LaunchState)
    ensures
        state_steps_to(LaunchState::Execing, post) <==> (post == LaunchState::Replaced || post
            == LaunchState::ExecFailed),
{
}

} // verus!
