//! Encoding the command line into NUL-terminated native strings.
//!
//! The image-replacement primitive takes its argument vector in the
//! operating system's native convention: each element NUL-terminated. An
//! element that itself contains a NUL cannot be represented there, so
//! encoding rejects it before any replacement is attempted.

use crate::errors::LaunchError;
use vstd::prelude::*;
use vstd::string::StrSliceExecFns;
use vstd::string::StringExecFns;

verus! {

/// True when the character sequence contains an embedded NUL.
pub open spec fn contains_nul(s: Seq<char>) -> bool {
    exists|i: int| 0 <= i < s.len() && s[i] == '\0'
}

/// True when every element of the command line is NUL-free, so that the
/// whole command can be encoded in the native argv convention.
pub open spec fn command_encodable(command: Seq<String>) -> bool {
    forall|i: int| 0 <= i < command.len() ==> !contains_nul(command[i]@)
}

/// The NUL-terminated image of one command-line element.
pub open spec fn nul_terminated(s: Seq<char>) -> Seq<char> {
    s.push('\0')
}

proof fn lemma_append_nul(s: Seq<char>)
    ensures
        s + "\0"@ == nul_terminated(s),
{
    reveal_strlit("\0");
    assert(s + "\0"@ =~= s.push('\0'));
}

/// Scan one element for an embedded NUL.
fn contains_nul_char(s: &str) -> (r: bool)
    ensures
        r == contains_nul(s@),
{
    let n = s.unicode_len();
    let mut i: usize = 0;
    while i < n
        invariant
            n == s@.len(),
            i <= n,
            forall|j: int| 0 <= j < i ==> s@[j] != '\0',
        decreases n - i,
    {
        if s.get_char(i) == '\0' {
            return true;
        }
        i += 1;
    }
    false
}

/// Encode the command line for the image-replacement primitive: each
/// element becomes its NUL-terminated image. Fails on the first element
/// that contains an embedded NUL, identifying that element; succeeds
/// exactly when the whole command line is NUL-free.
pub fn encode_command(command: &Vec<String>) -> (r: Result<Vec<String>, LaunchError>)
    ensures
        match r {
            Ok(argv) => {
                &&& command_encodable(command@)
                &&& argv@.len() == command@.len()
                &&& forall|i: int|
                    0 <= i < command@.len() ==> argv@[i]@ == nul_terminated(command@[i]@)
            },
            Err(e) => {
                &&& e matches LaunchError::StringEncoding { index }
                &&& e->index < command@.len()
                &&& contains_nul(command@[e->index as int]@)
                &&& forall|j: int| 0 <= j < e->index ==> !contains_nul(command@[j]@)
            },
        },
{
    let n = command.len();
    let mut i: usize = 0;
    while i < n
        invariant
            n == command@.len(),
            i <= n,
            forall|j: int| 0 <= j < i ==> !contains_nul(command@[j]@),
        decreases n - i,
    {
        if contains_nul_char(command[i].as_str()) {
            return Err(LaunchError::StringEncoding { index: i });
        }
        i += 1;
    }
    let mut argv: Vec<String> = Vec::new();
    let mut k: usize = 0;
    while k < n
        invariant
            n == command@.len(),
            k <= n,
            argv@.len() == k,
            forall|j: int| 0 <= j < k ==> argv@[j]@ == nul_terminated(command@[j]@),
        decreases n - k,
    {
        let mut s = command[k].clone();
        s.append("\0");
        proof {
            lemma_append_nul(command@[k as int]@);
        }
        argv.push(s);
        k += 1;
    }
    Ok(argv)
}

/// Law: a command line with an embedded NUL anywhere is never encodable,
/// so encoding it cannot succeed.
pub proof fn lemma_nul_blocks_encoding(command: Seq<String>, i: int)
    requires
        0 <= i < command.len(),
        contains_nul(command[i]@),
    ensures
        !command_encodable(command),
{
}

} // verus!
