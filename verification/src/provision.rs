//! Image provisioning: when the sandbox image is built, and what the build
//! leaves behind.
//!
//! The provisioner decides; the caller makes each call it asks for and hands
//! back whether it succeeded.

use vstd::prelude::*;
use vstd::string::*;
use crate::text::{trim, to_lowercase, trimmed, lowercased};

verus! {

/// What a caller wants of the provisioner.
#[derive(Clone, Copy, Debug, PartialEq, Eq, Structural)]
pub struct ProvisionRequest {
    /// Build even where the image is there.
    pub force: bool,
    /// Somebody can be asked whether an image that is there is to be built
    /// again.
    pub interactive: bool,
}

/// Why provisioning failed.
#[derive(Clone, Copy, Debug, PartialEq, Eq, Structural)]
pub enum ProvisionError {
    /// The build definition could not be written out.
    DefinitionNotWritten,
    /// The runtime's build did not succeed.
    BuildFailed,
}

/// What provisioning came to.
#[derive(Clone, Copy, Debug, PartialEq, Eq, Structural)]
pub enum ProvisionOutcome {
    /// The image was there and was left as it is.
    Kept,
    /// The image was built.
    Built,
    /// Provisioning failed.
    Failed(ProvisionError),
}

/// One thing the provisioner asks its caller to do.
#[derive(Clone, Copy, Debug, PartialEq, Eq, Structural)]
pub enum ProvisionCall {
    /// Ask the runtime whether the image is there.
    InspectImage,
    /// Ask whether the image is to be built again.
    Confirm,
    /// Write the build definition to its temporary place.
    WriteDefinition,
    /// Have the runtime build the image from the definition.
    Build,
    /// Remove the temporary build definition.
    RemoveDefinition,
}

/// Where provisioning stands.
#[derive(Clone, Copy, Debug, PartialEq, Eq, Structural)]
pub enum ProvisionPhase {
    /// Nothing has been asked for yet.
    Ready,
    /// Waiting to hear whether the image is there.
    Inspecting,
    /// Waiting for the answer to the confirmation.
    Confirming,
    /// Waiting for the build definition to be written.
    Writing,
    /// Waiting for the build.
    Building,
    /// Waiting for the removal of the build definition, after a build that
    /// succeeded or not.
    Removing { built: bool },
    /// Over.
    Done(ProvisionOutcome),
}

/// The call whose outcome the provisioner is waiting for, if any.
pub open spec fn awaited_call(phase: ProvisionPhase) -> Option<ProvisionCall> {
    match phase {
        ProvisionPhase::Ready => None,
        ProvisionPhase::Inspecting => Some(ProvisionCall::InspectImage),
        ProvisionPhase::Confirming => Some(ProvisionCall::Confirm),
        ProvisionPhase::Writing => Some(ProvisionCall::WriteDefinition),
        ProvisionPhase::Building => Some(ProvisionCall::Build),
        ProvisionPhase::Removing { .. } => Some(ProvisionCall::RemoveDefinition),
        ProvisionPhase::Done(_) => None,
    }
}

/// The phase after the awaited call answered `yes` (the image is there, the
/// answer was yes, the call succeeded) or not.
///
/// An image that is missing is built, and so is any image on `force`. One
/// that is there is otherwise kept, unless somebody is asked and says yes.
/// A definition that cannot be written ends provisioning. After the build
/// the definition is removed whatever the build came to, and whether that
/// removal succeeds changes nothing.
pub open spec fn next_phase(
    request: ProvisionRequest,
    phase: ProvisionPhase,
    yes: bool,
) -> ProvisionPhase {
    match phase {
        ProvisionPhase::Ready => ProvisionPhase::Inspecting,
        ProvisionPhase::Inspecting => if !yes || request.force {
            ProvisionPhase::Writing
        } else if request.interactive {
            ProvisionPhase::Confirming
        } else {
            ProvisionPhase::Done(ProvisionOutcome::Kept)
        },
        ProvisionPhase::Confirming => if yes {
            ProvisionPhase::Writing
        } else {
            ProvisionPhase::Done(ProvisionOutcome::Kept)
        },
        ProvisionPhase::Writing => if yes {
            ProvisionPhase::Building
        } else {
            ProvisionPhase::Done(ProvisionOutcome::Failed(ProvisionError::DefinitionNotWritten))
        },
        ProvisionPhase::Building => ProvisionPhase::Removing { built: yes },
        ProvisionPhase::Removing { built } => if built {
            ProvisionPhase::Done(ProvisionOutcome::Built)
        } else {
            ProvisionPhase::Done(ProvisionOutcome::Failed(ProvisionError::BuildFailed))
        },
        ProvisionPhase::Done(outcome) => ProvisionPhase::Done(outcome),
    }
}

/// The call that a phase waits for, or `None` before the start and at the
/// end.
pub fn awaited(phase: ProvisionPhase) -> (call: Option<ProvisionCall>)
    ensures
        call == awaited_call(phase),
{
    match phase {
        ProvisionPhase::Ready => None,
        ProvisionPhase::Inspecting => Some(ProvisionCall::InspectImage),
        ProvisionPhase::Confirming => Some(ProvisionCall::Confirm),
        ProvisionPhase::Writing => Some(ProvisionCall::WriteDefinition),
        ProvisionPhase::Building => Some(ProvisionCall::Build),
        ProvisionPhase::Removing { .. } => Some(ProvisionCall::RemoveDefinition),
        ProvisionPhase::Done(_) => None,
    }
}

/// Takes in the answer to the awaited call and gives the next phase. The
/// first answer, before any call was made, only starts provisioning.
pub fn provision_step(request: ProvisionRequest, phase: ProvisionPhase, yes: bool) -> (next:
    ProvisionPhase)
    ensures
        next == next_phase(request, phase, yes),
{
    match phase {
        ProvisionPhase::Ready => ProvisionPhase::Inspecting,
        ProvisionPhase::Inspecting => {
            if !yes || request.force {
                ProvisionPhase::Writing
            } else if request.interactive {
                ProvisionPhase::Confirming
            } else {
                ProvisionPhase::Done(ProvisionOutcome::Kept)
            }
        },
        ProvisionPhase::Confirming => {
            if yes {
                ProvisionPhase::Writing
            } else {
                ProvisionPhase::Done(ProvisionOutcome::Kept)
            }
        },
        ProvisionPhase::Writing => {
            if yes {
                ProvisionPhase::Building
            } else {
                ProvisionPhase::Done(ProvisionOutcome::Failed(ProvisionError::DefinitionNotWritten))
            }
        },
        ProvisionPhase::Building => ProvisionPhase::Removing { built: yes },
        ProvisionPhase::Removing { built } => {
            if built {
                ProvisionPhase::Done(ProvisionOutcome::Built)
            } else {
                ProvisionPhase::Done(ProvisionOutcome::Failed(ProvisionError::BuildFailed))
            }
        },
        ProvisionPhase::Done(outcome) => ProvisionPhase::Done(outcome),
    }
}

/// What provisioning hands to its caller: success where the image is there
/// at the end, else the failure.
pub open spec fn outcome_result(outcome: ProvisionOutcome) -> Result<(), ProvisionError> {
    match outcome {
        ProvisionOutcome::Kept => Ok(()),
        ProvisionOutcome::Built => Ok(()),
        ProvisionOutcome::Failed(e) => Err(e),
    }
}

/// The result of provisioning: success where the image is there at the end,
/// else the failure.
pub fn provision_result(outcome: ProvisionOutcome) -> (r: Result<(), ProvisionError>)
    ensures
        r == outcome_result(outcome),
{
    match outcome {
        ProvisionOutcome::Kept => Ok(()),
        ProvisionOutcome::Built => Ok(()),
        ProvisionOutcome::Failed(e) => Err(e),
    }
}

/// Whether a normalised answer says yes.
pub open spec fn says_yes(normalized: Seq<char>) -> bool {
    normalized == "y"@ || normalized == "yes"@
}

/// Whether an answer that is already trimmed and in lower case says yes.
pub fn is_yes(normalized: &str) -> (r: bool)
    ensures
        r == says_yes(normalized@),
{
    let answer = String::from_str(normalized);
    answer == String::from_str("y") || answer == String::from_str("yes")
}

/// Whether an answer as it was typed says yes: surrounding whitespace and
/// letter case do not count.
pub fn is_affirmative(answer: &str) -> (r: bool)
    ensures
        r == says_yes(lowercased(trimmed(answer@))),
{
    let stripped = trim(answer);
    let lowered = to_lowercase(stripped.as_str());
    is_yes(lowered.as_str())
}

/// An image that is there is not built again unless that is forced or
/// confirmed: without `force`, the build definition is written only for a
/// missing image or after a confirmation that was asked for and given, and
/// the build is asked for only after the definition was written.
pub proof fn lemma_existing_image_is_kept(
    request: ProvisionRequest,
    phase: ProvisionPhase,
    yes: bool,
)
    ensures
        !request.force && !request.interactive ==> next_phase(
            request,
            ProvisionPhase::Inspecting,
            true,
        ) == ProvisionPhase::Done(ProvisionOutcome::Kept),
        !request.force && request.interactive ==> next_phase(
            request,
            next_phase(request, ProvisionPhase::Inspecting, true),
            false,
        ) == ProvisionPhase::Done(ProvisionOutcome::Kept),
        next_phase(request, phase, yes) == ProvisionPhase::Confirming ==> phase
            == ProvisionPhase::Inspecting && yes && !request.force && request.interactive,
        next_phase(request, phase, yes) == ProvisionPhase::Writing ==> (phase
            == ProvisionPhase::Inspecting && (!yes || request.force)) || (phase
            == ProvisionPhase::Confirming && yes),
        next_phase(request, phase, yes) == ProvisionPhase::Building ==> phase
            == ProvisionPhase::Writing && yes,
{
}

/// On `force` the image is built whether or not it is there: once the
/// definition is written, the build is the next call.
pub proof fn lemma_force_builds(request: ProvisionRequest, exists: bool)
    requires
        request.force,
    ensures
        next_phase(request, ProvisionPhase::Inspecting, exists) == ProvisionPhase::Writing,
        awaited_call(next_phase(request, ProvisionPhase::Writing, true)) == Some(
            ProvisionCall::Build,
        ),
{
}

/// The build definition is removed after every build, and the outcome is
/// that of the build alone, whatever came of the removal.
pub proof fn lemma_definition_is_removed(request: ProvisionRequest, built: bool, removed: bool)
    ensures
        awaited_call(next_phase(request, ProvisionPhase::Building, built)) == Some(
            ProvisionCall::RemoveDefinition,
        ),
        next_phase(request, next_phase(request, ProvisionPhase::Building, built), removed)
            == ProvisionPhase::Done(
            if built {
                ProvisionOutcome::Built
            } else {
                ProvisionOutcome::Failed(ProvisionError::BuildFailed)
            },
        ),
{
}

} // verus!
