//! The order in which a command goes through its stages, and the exit code
//! it ends with.

use vstd::prelude::*;
use vstd::string::*;
use crate::policy::{OperationMode, OperationModeView, trusted_prefix, is_trusted_url};
use crate::provision::{ProvisionRequest, ProvisionError, ProvisionOutcome};

verus! {

/// The four commands.
#[derive(Clone, Copy, Debug, PartialEq, Eq, Structural)]
pub enum CommandKind {
    /// Provision the sandbox image.
    Build { force: bool },
    /// Digest a directory of the host.
    Run,
    /// Digest a remote repository.
    RunUrl,
    /// Clean up and nothing else.
    Cleanup,
}

/// Why a command failed.
#[derive(Clone, Copy, Debug, PartialEq, Eq, Structural)]
pub enum SandboxError {
    /// A path could not be resolved.
    PathResolution,
    /// The input is not a directory.
    MissingDirectory,
    /// The remote source does not start with the trusted prefix.
    UntrustedSource,
    /// The sandbox image could not be provisioned.
    Provision(ProvisionError),
    /// The sandboxed run did not succeed.
    RunFailed,
}

/// A stage of a command.
#[derive(Clone, Copy, Debug, PartialEq, Eq, Structural)]
pub enum Stage {
    /// Check that the remote source is trusted. No runtime call is made.
    Validate,
    /// Make sure the sandbox image is there.
    Provision,
    /// Resolve the paths on the host.
    Resolve,
    /// Run the sandbox.
    Sandbox,
    /// Clean up.
    Cleanup,
    /// Leave with the exit code.
    Exit,
}

/// How far a command has come.
#[derive(Clone, Copy, Debug, PartialEq, Eq, Structural)]
pub struct Progress {
    /// The stage that is to be carried out now.
    pub stage: Stage,
    /// The first fatal failure so far.
    pub failure: Option<SandboxError>,
}

/// The stage a command starts with.
pub open spec fn first_stage(kind: CommandKind) -> Stage {
    match kind {
        CommandKind::Build { .. } => Stage::Provision,
        CommandKind::Run => Stage::Provision,
        CommandKind::RunUrl => Stage::Validate,
        CommandKind::Cleanup => Stage::Cleanup,
    }
}

/// Whether a command runs the sandbox.
pub open spec fn runs_sandbox(kind: CommandKind) -> bool {
    kind == CommandKind::Run || kind == CommandKind::RunUrl
}

/// The stage after `stage`, which ended with a failure or without one.
///
/// A source that is not trusted ends the command before any runtime call.
/// From provisioning on, a command that runs the sandbox always cleans up
/// before it leaves, whatever failed. The other commands leave after their
/// one stage.
pub open spec fn following_stage(kind: CommandKind, stage: Stage, failed: bool) -> Stage {
    if !runs_sandbox(kind) {
        Stage::Exit
    } else {
        match stage {
            Stage::Validate => if failed {
                Stage::Exit
            } else {
                Stage::Provision
            },
            Stage::Provision => if failed {
                Stage::Cleanup
            } else {
                Stage::Resolve
            },
            Stage::Resolve => if failed {
                Stage::Cleanup
            } else {
                Stage::Sandbox
            },
            Stage::Sandbox => Stage::Cleanup,
            Stage::Cleanup => Stage::Exit,
            Stage::Exit => Stage::Exit,
        }
    }
}

/// The progress after the current stage ended with `outcome`. The first
/// failure is kept. What comes of cleaning up is never a failure, and
/// nothing is noted once the command is at its exit.
pub open spec fn following_progress(
    kind: CommandKind,
    progress: Progress,
    outcome: Option<SandboxError>,
) -> Progress {
    let counts = progress.stage != Stage::Cleanup && progress.stage != Stage::Exit;
    Progress {
        stage: following_stage(kind, progress.stage, counts && outcome.is_some()),
        failure: if progress.failure.is_none() && counts {
            outcome
        } else {
            progress.failure
        },
    }
}

/// The exit code of a command: zero unless something fatal happened.
pub open spec fn exit_code_of(progress: Progress) -> u8 {
    if progress.failure.is_some() {
        1
    } else {
        0
    }
}

/// Where a command starts.
pub fn start(kind: CommandKind) -> (progress: Progress)
    ensures
        progress == (Progress { stage: first_stage(kind), failure: None }),
{
    let stage = match kind {
        CommandKind::Build { .. } => Stage::Provision,
        CommandKind::Run => Stage::Provision,
        CommandKind::RunUrl => Stage::Validate,
        CommandKind::Cleanup => Stage::Cleanup,
    };
    Progress { stage, failure: None }
}

/// Takes in how the current stage ended and says what comes next.
pub fn advance(kind: CommandKind, progress: Progress, outcome: Option<SandboxError>) -> (next:
    Progress)
    ensures
        next == following_progress(kind, progress, outcome),
{
    let counts = match progress.stage {
        Stage::Cleanup => false,
        Stage::Exit => false,
        _ => true,
    };
    let failed = counts && outcome.is_some();
    let sandboxed = match kind {
        CommandKind::Run => true,
        CommandKind::RunUrl => true,
        _ => false,
    };
    let stage = if !sandboxed {
        Stage::Exit
    } else {
        match progress.stage {
            Stage::Validate => if failed {
                Stage::Exit
            } else {
                Stage::Provision
            },
            Stage::Provision => if failed {
                Stage::Cleanup
            } else {
                Stage::Resolve
            },
            Stage::Resolve => if failed {
                Stage::Cleanup
            } else {
                Stage::Sandbox
            },
            Stage::Sandbox => Stage::Cleanup,
            Stage::Cleanup => Stage::Exit,
            Stage::Exit => Stage::Exit,
        }
    };
    let failure = if progress.failure.is_none() && counts {
        outcome
    } else {
        progress.failure
    };
    Progress { stage, failure }
}

/// The exit code a command leaves with.
pub fn exit_code(progress: Progress) -> (code: u8)
    ensures
        code == exit_code_of(progress),
{
    if progress.failure.is_some() {
        1
    } else {
        0
    }
}

/// What a command asks of the provisioner: only `build` may force a build,
/// and only `build` asks before it builds an image that is there.
pub fn provision_request(kind: CommandKind) -> (request: ProvisionRequest)
    ensures
        request == match kind {
            CommandKind::Build { force } => (ProvisionRequest { force, interactive: true }),
            _ => (ProvisionRequest { force: false, interactive: false }),
        },
{
    match kind {
        CommandKind::Build { force } => ProvisionRequest { force, interactive: true },
        _ => ProvisionRequest { force: false, interactive: false },
    }
}

/// Admits a remote source: the operation mode for it where it starts with
/// the trusted prefix, else the refusal.
pub fn admit_url(url: String, output_path: String) -> (r: Result<OperationMode, SandboxError>)
    ensures
        trusted_prefix().is_prefix_of(url@) ==> r is Ok && r->Ok_0@ == (OperationModeView::Url {
            url: url@,
            output_path: output_path@,
        }),
        !trusted_prefix().is_prefix_of(url@) ==> r == Err::<OperationMode, SandboxError>(
            SandboxError::UntrustedSource,
        ),
{
    if is_trusted_url(url.as_str()) {
        Ok(OperationMode::Url { url, output_path })
    } else {
        Err(SandboxError::UntrustedSource)
    }
}

/// Admits a local source whose paths are resolved: the operation mode for
/// it where the input is a directory, else the refusal.
pub fn admit_local(data_path: String, output_path: String, is_directory: bool) -> (r: Result<
    OperationMode,
    SandboxError,
>)
    ensures
        is_directory ==> r is Ok && r->Ok_0@ == (OperationModeView::Local {
            data_path: data_path@,
            output_path: output_path@,
        }),
        !is_directory ==> r == Err::<OperationMode, SandboxError>(SandboxError::MissingDirectory),
{
    if is_directory {
        Ok(OperationMode::Local { data_path, output_path })
    } else {
        Err(SandboxError::MissingDirectory)
    }
}

/// A command that runs the sandbox does not leave without cleaning up once
/// it has come to provisioning: the exit follows only the cleanup, or a
/// source that was refused before anything was started.
pub proof fn lemma_cleanup_on_all_paths(
    kind: CommandKind,
    progress: Progress,
    outcome: Option<SandboxError>,
)
    requires
        runs_sandbox(kind),
        following_progress(kind, progress, outcome).stage == Stage::Exit,
    ensures
        progress.stage == Stage::Cleanup || progress.stage == Stage::Exit || (progress.stage
            == Stage::Validate && outcome.is_some()),
{
}

/// What comes of cleaning up does not change the exit code, and a failure
/// once noted is never lost.
pub proof fn lemma_exit_code_is_kept(
    kind: CommandKind,
    progress: Progress,
    outcome: Option<SandboxError>,
)
    ensures
        progress.stage == Stage::Cleanup ==> exit_code_of(
            following_progress(kind, progress, outcome),
        ) == exit_code_of(progress),
        progress.failure.is_some() ==> following_progress(kind, progress, outcome).failure
            == progress.failure,
{
}

/// The failure, if any, that an outcome of provisioning means for a command.
pub fn provision_failure(outcome: ProvisionOutcome) -> (failure: Option<SandboxError>)
    ensures
        failure == match outcome {
            ProvisionOutcome::Failed(e) => Some(SandboxError::Provision(e)),
            _ => None,
        },
{
    match outcome {
        ProvisionOutcome::Failed(e) => Some(SandboxError::Provision(e)),
        _ => None,
    }
}

/// What the user is told of a failure.
pub open spec fn message_of(error: SandboxError) -> Seq<char> {
    match error {
        SandboxError::PathResolution => "Error: Cannot resolve path"@,
        SandboxError::MissingDirectory => "Error: Directory does not exist"@,
        SandboxError::UntrustedSource =>
            "Error: Only GitHub URLs are supported for security reasons; URL must start with 'https://github.com/'"@,
        SandboxError::Provision(ProvisionError::DefinitionNotWritten) =>
            "Error creating Dockerfile"@,
        SandboxError::Provision(ProvisionError::BuildFailed) => "Docker build failed"@,
        SandboxError::RunFailed => "gitingest run failed"@,
    }
}

/// The message for a failure; each failure has its own.
pub fn failure_message(error: SandboxError) -> (message: String)
    ensures
        message@ == message_of(error),
{
    match error {
        SandboxError::PathResolution => String::from_str("Error: Cannot resolve path"),
        SandboxError::MissingDirectory => String::from_str("Error: Directory does not exist"),
        SandboxError::UntrustedSource => String::from_str(
            "Error: Only GitHub URLs are supported for security reasons; URL must start with 'https://github.com/'",
        ),
        SandboxError::Provision(ProvisionError::DefinitionNotWritten) => String::from_str(
            "Error creating Dockerfile",
        ),
        SandboxError::Provision(ProvisionError::BuildFailed) => String::from_str(
            "Docker build failed",
        ),
        SandboxError::RunFailed => String::from_str("gitingest run failed"),
    }
}

} // verus!
