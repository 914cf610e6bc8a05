//! Failure taxonomy of the launcher.
//!
//! Every failure is terminal: nothing is caught and retried. Each variant
//! carries what is needed to produce a diagnostic that uniquely identifies
//! the failure kind, so that no exit path is silent or ambiguous.

use vstd::prelude::*;
use vstd::string::StringExecFns;

verus! {

/// The four mutually exclusive ways applying the sandbox policy to the
/// calling thread can fail.
#[derive(Clone, Copy, Debug, PartialEq, Eq, Structural)]
pub enum PolicyFailureKind {
    /// Isolation of the filesystem/namespace view could not be established.
    Namespaces,
    /// The "no new privileges" guarantee could not be set.
    NoNewPrivs,
    /// The syscall allow/deny filter could not be installed.
    Seccomp,
    /// The per-path access-control rules could not be installed.
    Landlock,
}

/// A structured policy-application failure: its kind, plus the underlying
/// operating-system error rendered as text.
#[derive(Debug)]
pub struct PolicyFailure {
    pub kind: PolicyFailureKind,
    pub detail: String,
}

/// Everything that can abort a launch. All variants are terminal: the
/// launcher never retries and never runs the target command after any of
/// these has occurred.
#[derive(Debug)]
pub enum LaunchError {
    /// The policy applier reported one of its four failure kinds.
    PolicyFailure { kind: PolicyFailureKind, detail: String },
    /// The trailing command line was empty, so there is nothing to execute.
    EmptyCommand,
    /// The command-line element at `index` contains an embedded NUL and so
    /// cannot be encoded as a NUL-terminated native string.
    StringEncoding { index: usize },
    /// The image-replacement primitive returned, which by the operating
    /// system's contract means it failed. `program` is the first command
    /// element; `os_error` the reported cause.
    ImageReplacement { program: String, os_error: String },
}

/// Diagnostic prefix that identifies one policy-application failure kind.
/// The underlying cause is appended after it.
pub open spec fn policy_failure_prefix(kind: PolicyFailureKind) -> Seq<char> {
    match kind {
        PolicyFailureKind::Namespaces => "error setting up namespaces/mounts: "@,
        PolicyFailureKind::NoNewPrivs => "error setting no_new_privs: "@,
        PolicyFailureKind::Seccomp => "error installing seccomp filter: "@,
        PolicyFailureKind::Landlock => "error running landlock: "@,
    }
}

/// The diagnostic message produced for each launch failure.
pub open spec fn diagnostic_spec(e: LaunchError) -> Seq<char> {
    match e {
        LaunchError::PolicyFailure { kind, detail } => policy_failure_prefix(kind) + detail@,
        LaunchError::EmptyCommand => "No command specified to execute."@,
        LaunchError::StringEncoding { index } => if index == 0 {
            "Failed to convert command to CString"@
        } else {
            "Failed to convert arg to CString"@
        },
        LaunchError::ImageReplacement { program, os_error } => "Failed to execvp "@ + program@
            + ": "@ + os_error@,
    }
}

fn policy_failure_prefix_str(kind: &PolicyFailureKind) -> (r: &'static str)
    ensures
        r@ == policy_failure_prefix(*kind),
{
    match kind {
        PolicyFailureKind::Namespaces => "error setting up namespaces/mounts: ",
        PolicyFailureKind::NoNewPrivs => "error setting no_new_privs: ",
        PolicyFailureKind::Seccomp => "error installing seccomp filter: ",
        PolicyFailureKind::Landlock => "error running landlock: ",
    }
}

impl LaunchError {
    /// Render the diagnostic message for this failure.
    pub fn diagnostic(&self) -> (r: String)
        ensures
            r@ == diagnostic_spec(*self),
    {
        match self {
            LaunchError::PolicyFailure { kind, detail } => {
                let mut m = policy_failure_prefix_str(kind).to_owned();
                m.append(detail.as_str());
                m
            },
            LaunchError::EmptyCommand => "No command specified to execute.".to_owned(),
            LaunchError::StringEncoding { index } => if *index == 0 {
                "Failed to convert command to CString".to_owned()
            } else {
                "Failed to convert arg to CString".to_owned()
            },
            LaunchError::ImageReplacement { program, os_error } => {
                let mut m = "Failed to execvp ".to_owned();
                m.append(program.as_str());
                m.append(": ");
                m.append(os_error.as_str());
                m
            },
        }
    }
}

/// If two character sequences differ at an index that both prefixes cover,
/// then no suffixes can make their concatenations equal.
proof fn lemma_concat_differs_at(p1: Seq<char>, p2: Seq<char>, d1: Seq<char>, d2: Seq<char>, j: int)
    requires
        0 <= j < p1.len(),
        j < p2.len(),
        p1[j] != p2[j],
    ensures
        p1 + d1 != p2 + d2,
{
    assert((p1 + d1)[j] == p1[j]);
    assert((p2 + d2)[j] == p2[j]);
}

/// Law: diagnostics of distinct policy-application failure kinds never
/// coincide, whatever underlying error text each carries. A reader of a
/// failed launch's message can always tell which of the four setup steps
/// failed.
pub proof fn lemma_policy_diagnostics_distinct(
    k1: PolicyFailureKind,
    k2: PolicyFailureKind,
    d1: Seq<char>,
    d2: Seq<char>,
)
    requires
        k1 != k2,
    ensures
        policy_failure_prefix(k1) + d1 != policy_failure_prefix(k2) + d2,
{
    reveal_strlit("error setting up namespaces/mounts: ");
    reveal_strlit("error setting no_new_privs: ");
    reveal_strlit("error installing seccomp filter: ");
    reveal_strlit("error running landlock: ");
    match (k1, k2) {
        (PolicyFailureKind::Namespaces, PolicyFailureKind::NoNewPrivs)
        | (PolicyFailureKind::NoNewPrivs, PolicyFailureKind::Namespaces) => {
            lemma_concat_differs_at(
                policy_failure_prefix(k1),
                policy_failure_prefix(k2),
                d1,
                d2,
                14,
            );
        },
        _ => {
            lemma_concat_differs_at(
                policy_failure_prefix(k1),
                policy_failure_prefix(k2),
                d1,
                d2,
                6,
            );
        },
    }
}

/// Law: the diagnostic for an image-replacement failure references the
/// program that could not be run: the first command element appears
/// verbatim in the message, immediately after the fixed prefix.
pub proof fn lemma_exec_failure_diagnostic_names_program(program: String, os_error: String)
    ensures
        diagnostic_spec(LaunchError::ImageReplacement { program, os_error }).subrange(
            17,
            17 + program@.len() as int,
        ) == program@,
{
    reveal_strlit("Failed to execvp ");
    let m = diagnostic_spec(LaunchError::ImageReplacement { program, os_error });
    assert(m.subrange(17, 17 + program@.len() as int) =~= program@);
}

/// Law: the diagnostic message determines the failure kind for every pair
/// of launch errors built from distinct policy-application failure kinds.
pub proof fn lemma_policy_launch_diagnostics_distinct(e1: LaunchError, e2: LaunchError)
    requires
        e1 is PolicyFailure,
        e2 is PolicyFailure,
        e1->kind != e2->kind,
    ensures
        diagnostic_spec(e1) != diagnostic_spec(e2),
{
    lemma_policy_diagnostics_distinct(e1->kind, e2->kind, e1->detail@, e2->detail@);
}

} // verus!
