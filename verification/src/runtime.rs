//! How each call is spelled for the container runtime's command line.

use vstd::prelude::*;
use vstd::string::*;
use crate::text::texts;
use crate::policy::sandbox_image;
use crate::cleanup::{RuntimeCall, RuntimeCallView};

verus! {

/// The arguments that ask whether the sandbox image is there.
pub open spec fn inspect_arg_seq() -> Seq<Seq<char>> {
    seq!["image"@, "inspect"@, sandbox_image()]
}

/// The arguments that build the sandbox image from a definition file, with
/// the current directory as context.
pub open spec fn build_arg_seq(definition_path: Seq<char>) -> Seq<Seq<char>> {
    seq!["build"@, "-f"@, definition_path, "-t"@, sandbox_image(), "."@]
}

/// The arguments that list the containers made from the sandbox image, one
/// id per line.
pub open spec fn list_arg_seq(include_stopped: bool) -> Seq<Seq<char>> {
    if include_stopped {
        seq!["ps"@, "-a"@, "--filter"@, "ancestor=gitingest-runner"@, "--format"@, "{{.ID}}"@]
    } else {
        seq!["ps"@, "--filter"@, "ancestor=gitingest-runner"@, "--format"@, "{{.ID}}"@]
    }
}

/// The arguments of a cleanup call.
pub open spec fn call_arg_seq(call: RuntimeCallView) -> Seq<Seq<char>> {
    match call {
        RuntimeCallView::ListContainers { include_stopped } => list_arg_seq(include_stopped),
        RuntimeCallView::Stop(id) => seq!["stop"@, id],
        RuntimeCallView::Remove(id) => seq!["rm"@, id],
        RuntimeCallView::Prune => seq!["system"@, "prune"@, "-f"@],
    }
}

fn literals(words: &[&str]) -> (r: Vec<String>)
    ensures
        r@.len() == words@.len(),
        forall|i: int| 0 <= i < words@.len() ==> (#[trigger] r@[i])@ == words@[i]@,
{
    let mut r: Vec<String> = Vec::new();
    let mut i: usize = 0;
    while i < words.len()
        invariant
            i <= words.len(),
            r@.len() == i,
            forall|j: int| 0 <= j < i ==> (#[trigger] r@[j])@ == words@[j]@,
        decreases words.len() - i,
    {
        r.push(String::from_str(words[i]));
        i += 1;
    }
    r
}

/// Spells the question whether the sandbox image is there.
pub fn inspect_args() -> (args: Vec<String>)
    ensures
        texts(args@) == inspect_arg_seq(),
{
    let args = literals(&["image", "inspect", "gitingest-runner"]);
    assert(texts(args@) =~= inspect_arg_seq());
    args
}

/// Spells the build of the sandbox image from the definition at
/// `definition_path`.
pub fn build_args(definition_path: &str) -> (args: Vec<String>)
    ensures
        texts(args@) == build_arg_seq(definition_path@),
{
    let args = literals(&["build", "-f", definition_path, "-t", "gitingest-runner", "."]);
    assert(texts(args@) =~= build_arg_seq(definition_path@));
    args
}

/// Spells a cleanup call.
pub fn call_args(call: &RuntimeCall) -> (args: Vec<String>)
    ensures
        texts(args@) == call_arg_seq(call@),
{
    let args = match call {
        RuntimeCall::ListContainers { include_stopped } => {
            if *include_stopped {
                literals(
                    &["ps", "-a", "--filter", "ancestor=gitingest-runner", "--format", "{{.ID}}"],
                )
            } else {
                literals(&["ps", "--filter", "ancestor=gitingest-runner", "--format", "{{.ID}}"])
            }
        },
        RuntimeCall::Stop(id) => literals(&["stop", id.as_str()]),
        RuntimeCall::Remove(id) => literals(&["rm", id.as_str()]),
        RuntimeCall::Prune => literals(&["system", "prune", "-f"]),
    };
    assert(texts(args@) =~= call_arg_seq(call@));
    args
}

} // verus!
