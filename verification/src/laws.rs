//! What holds of the supervisor over several steps.

use vstd::prelude::*;
use crate::launcher::{
    directory_action, stop_command, DirectoryAction, LaunchOutcome, LauncherError, ServerLauncher,
};

verus! {

/// From STOPPED or CRASHED, with a positive memory limit, a spawned child
/// makes the state RUNNING with one process held, and a further launch is
/// refused for as long as that child runs.
pub proof fn lemma_launch_from_rest(launcher: ServerLauncher)
    requires
        launcher.state is STOPPED || launcher.state is CRASHED,
        launcher.memory > 0,
    ensures
        launcher.launch_refusal() is None,
        launcher.launch_result(LaunchOutcome::Spawned) is Ok,
        launcher.launched().state is RUNNING,
        launcher.launched().process,
        launcher.launched().wf(),
        launcher.launched().launch_refusal() == Some(LauncherError::AlreadyRunning),
{
}

/// A launch that fails, at the directory or at the spawn, reports the error
/// that belongs to it.
pub proof fn lemma_failed_launch_reports(launcher: ServerLauncher)
    requires
        launcher.launch_refusal() is None,
    ensures
        launcher.launch_result(LaunchOutcome::ProvisioningFailed) == Err::<(), LauncherError>(
            LauncherError::Provisioning,
        ),
        launcher.launch_result(LaunchOutcome::SpawnFailed) == Err::<(), LauncherError>(
            LauncherError::Launch,
        ),
{
}

/// The exit code of a running child decides the state: zero gives STOPPED,
/// every other code, and an exit without a code, gives CRASHED. The code is
/// kept as observed, and nothing else changes.
pub proof fn lemma_exit_code_decides(launcher: ServerLauncher, code: Option<i32>)
    requires
        launcher.state is RUNNING,
    ensures
        code == Some(0i32) ==> launcher.after_exit(code).state is STOPPED,
        code != Some(0i32) ==> launcher.after_exit(code).state is CRASHED,
        launcher.after_exit(code).exit_code == code,
        launcher.after_exit(code).process == launcher.process,
        launcher.wf() ==> launcher.after_exit(code).wf(),
{
}

/// The state leaves RUNNING only by an observed exit, and an exit observed
/// in another state changes nothing.
pub proof fn lemma_exit_only_ends_running(launcher: ServerLauncher, code: Option<i32>)
    requires
        !(launcher.state is RUNNING),
    ensures
        launcher.after_exit(code) == launcher,
{
}

/// A graceful stop is the command `stop` and nothing more: the state is
/// RUNNING until the exit is observed, and STOPPED once the child has left
/// with code zero.
pub proof fn lemma_stop_takes_effect_at_exit(launcher: ServerLauncher)
    requires
        launcher.wf(),
        launcher.state is RUNNING,
    ensures
        launcher.send_result(stop_command()) is Ok,
        launcher.after_exit(Some(0i32)).state is STOPPED,
{
}

/// A forced shutdown without a process reports `NoProcess`. With a running
/// child it is granted, and whatever exit follows, the state observed then
/// is STOPPED or CRASHED, never RUNNING.
pub proof fn lemma_shutdown_ends_running(launcher: ServerLauncher, code: Option<i32>)
    requires
        launcher.wf(),
    ensures
        !launcher.process ==> launcher.shutdown_result() == Err::<(), LauncherError>(
            LauncherError::NoProcess,
        ),
        launcher.state is RUNNING ==> launcher.shutdown_result() is Ok,
        launcher.state is RUNNING ==> !(launcher.after_exit(code).state is RUNNING),
{
}

/// Launching again after a full stop is granted as the first launch was, and
/// a directory that exists is kept as it is both times.
pub proof fn lemma_relaunch_keeps_directory(launcher: ServerLauncher, code: Option<i32>)
    requires
        launcher.launch_refusal() is None,
    ensures
        directory_action(true) == DirectoryAction::Keep,
        launcher.launched().after_exit(code).launch_refusal() is None,
        launcher.launched().after_exit(code).spec_command_line() == launcher.spec_command_line(),
        launcher.launched().after_exit(code).server_dir == launcher.server_dir,
{
}

} // verus!
