use rsxn_launcher::launcher::{
    write_outcome, BackgroundTask, DirectoryAction, ExitPoll, LaunchOutcome, LauncherError,
    MonitorAction, ServerLauncher, ServerState, StreamSetup, POLL_INTERVAL_MS,
};

fn both_tasks() -> Vec<BackgroundTask> {
    vec![BackgroundTask::LogStreamer, BackgroundTask::ExitMonitor]
}

fn sample(memory: i32, args: Vec<String>) -> ServerLauncher {
    ServerLauncher::new(
        "server.jar".to_string(),
        "/usr/bin/java".to_string(),
        "/srv/mc".to_string(),
        args,
        "mc".to_string(),
        memory,
    )
}

fn running() -> ServerLauncher {
    let mut launcher = sample(1024, vec![]);
    assert_eq!(launcher.launch(LaunchOutcome::Spawned), Ok(both_tasks()));
    launcher
}

#[test]
fn new_supervisor_is_stopped_without_process() {
    let launcher = sample(512, vec!["--port".to_string()]);
    assert_eq!(launcher.state(), ServerState::STOPPED);
    assert!(!launcher.has_process());
    assert_eq!(launcher.exit_code(), None);
    assert_eq!(launcher.jarfile, "server.jar");
    assert_eq!(launcher.java_path, "/usr/bin/java");
    assert_eq!(launcher.server_dir, "/srv/mc");
    assert_eq!(launcher.server_args, vec!["--port".to_string()]);
    assert_eq!(launcher.server_name, "mc");
    assert_eq!(launcher.memory, 512);
}

#[test]
fn command_line_without_extra_arguments() {
    let launcher = sample(1024, vec![]);
    assert_eq!(
        launcher.command_line(),
        vec!["/usr/bin/java", "-Xmx1024M", "-jar", "server.jar", "-nogui"]
    );
}

#[test]
fn command_line_keeps_extra_arguments_in_order() {
    let launcher = sample(
        2048,
        vec!["--port".to_string(), "25565".to_string(), "--world".to_string()],
    );
    assert_eq!(
        launcher.command_line(),
        vec![
            "/usr/bin/java",
            "-Xmx2048M",
            "-jar",
            "server.jar",
            "--port",
            "25565",
            "--world",
            "-nogui"
        ]
    );
}

#[test]
fn command_line_writes_any_memory_value() {
    assert_eq!(sample(0, vec![]).command_line()[1], "-Xmx0M");
    assert_eq!(sample(-5, vec![]).command_line()[1], "-Xmx-5M");
    assert_eq!(sample(7, vec![]).command_line()[1], "-Xmx7M");
    assert_eq!(sample(i32::MAX, vec![]).command_line()[1], "-Xmx2147483647M");
    assert_eq!(sample(i32::MIN, vec![]).command_line()[1], "-Xmx-2147483648M");
}

#[test]
fn check_server_dir_creates_only_what_is_missing() {
    let launcher = sample(1024, vec![]);
    assert_eq!(launcher.check_server_dir(true), DirectoryAction::Keep);
    assert_eq!(launcher.check_server_dir(false), DirectoryAction::CreateTree);
}

#[test]
fn plan_for_absent_directory_creates_it_and_runs_there() {
    let launcher = sample(1024, vec![]);
    let plan = launcher.plan_launch(false).unwrap();
    assert_eq!(plan.directory, DirectoryAction::CreateTree);
    assert_eq!(plan.working_dir, "/srv/mc");
    assert_eq!(plan.stdin, StreamSetup::Piped);
    assert_eq!(plan.stdout, StreamSetup::Piped);
    assert_eq!(plan.stderr, StreamSetup::Piped);
    assert_eq!(
        plan.command_line,
        vec!["/usr/bin/java", "-Xmx1024M", "-jar", "server.jar", "-nogui"]
    );
    assert_eq!(launcher.state(), ServerState::STOPPED);
}

#[test]
fn plan_for_existing_directory_keeps_it() {
    let launcher = sample(1024, vec![]);
    let plan = launcher.plan_launch(true).unwrap();
    assert_eq!(plan.directory, DirectoryAction::Keep);
    assert_eq!(plan.working_dir, "/srv/mc");
}

#[test]
fn plan_is_refused_while_running() {
    let launcher = running();
    assert_eq!(
        launcher.plan_launch(true).err(),
        Some(LauncherError::AlreadyRunning)
    );
}

#[test]
fn plan_is_refused_for_memory_that_is_not_positive() {
    assert_eq!(
        sample(0, vec![]).plan_launch(true).err(),
        Some(LauncherError::InvalidMemory)
    );
    assert_eq!(
        sample(-1, vec![]).plan_launch(false).err(),
        Some(LauncherError::InvalidMemory)
    );
    assert!(sample(1, vec![]).plan_launch(false).is_ok());
}

#[test]
fn launch_from_stopped_runs_with_one_process() {
    let mut launcher = sample(1024, vec![]);
    assert_eq!(launcher.launch(LaunchOutcome::Spawned), Ok(both_tasks()));
    assert_eq!(launcher.state(), ServerState::RUNNING);
    assert!(launcher.has_process());
    assert_eq!(launcher.exit_code(), None);
    assert_eq!(
        launcher.launch(LaunchOutcome::Spawned),
        Err(LauncherError::AlreadyRunning)
    );
    assert_eq!(launcher.state(), ServerState::RUNNING);
}

#[test]
fn launch_from_crashed_runs_again() {
    let mut launcher = running();
    launcher.record_exit(Some(3));
    assert_eq!(launcher.state(), ServerState::CRASHED);
    assert_eq!(launcher.launch(LaunchOutcome::Spawned), Ok(both_tasks()));
    assert_eq!(launcher.state(), ServerState::RUNNING);
    assert_eq!(launcher.exit_code(), None);
    assert!(launcher.has_process());
}

#[test]
fn failed_provisioning_leaves_the_supervisor_as_it_was() {
    let mut launcher = sample(1024, vec![]);
    assert_eq!(
        launcher.launch(LaunchOutcome::ProvisioningFailed),
        Err(LauncherError::Provisioning)
    );
    assert_eq!(launcher.state(), ServerState::STOPPED);
    assert!(!launcher.has_process());
}

#[test]
fn failed_spawn_leaves_the_supervisor_as_it_was() {
    let mut launcher = running();
    launcher.record_exit(Some(2));
    assert_eq!(
        launcher.launch(LaunchOutcome::SpawnFailed),
        Err(LauncherError::Launch)
    );
    assert_eq!(launcher.state(), ServerState::CRASHED);
    assert_eq!(launcher.exit_code(), Some(2));
}

#[test]
fn launch_with_memory_that_is_not_positive_is_refused() {
    let mut launcher = sample(0, vec![]);
    assert_eq!(
        launcher.launch(LaunchOutcome::Spawned),
        Err(LauncherError::InvalidMemory)
    );
    assert_eq!(launcher.state(), ServerState::STOPPED);
    assert!(!launcher.has_process());
}

#[test]
fn exit_with_code_zero_is_stopped() {
    let mut launcher = running();
    assert_eq!(
        launcher.monitor_poll(ExitPoll::Exited { code: Some(0) }),
        MonitorAction::Finish
    );
    assert_eq!(launcher.state(), ServerState::STOPPED);
    assert_eq!(launcher.exit_code(), Some(0));
}

#[test]
fn exit_with_code_one_is_crashed_and_recorded() {
    let mut launcher = running();
    assert_eq!(
        launcher.monitor_poll(ExitPoll::Exited { code: Some(1) }),
        MonitorAction::Finish
    );
    assert_eq!(launcher.state(), ServerState::CRASHED);
    assert_eq!(launcher.exit_code(), Some(1));
}

#[test]
fn exit_codes_other_than_zero_crash() {
    for code in [1, -1, 2, 137, 255, i32::MAX, i32::MIN] {
        let mut launcher = running();
        launcher.record_exit(Some(code));
        assert_eq!(launcher.state(), ServerState::CRASHED);
        assert_eq!(launcher.exit_code(), Some(code));
    }
}

#[test]
fn exit_without_code_is_crashed() {
    let mut launcher = running();
    launcher.record_exit(None);
    assert_eq!(launcher.state(), ServerState::CRASHED);
    assert_eq!(launcher.exit_code(), None);
}

#[test]
fn exit_outside_running_changes_nothing() {
    let mut launcher = sample(1024, vec![]);
    launcher.record_exit(Some(1));
    assert_eq!(launcher.state(), ServerState::STOPPED);
    assert_eq!(launcher.exit_code(), None);
    let mut crashed = running();
    crashed.record_exit(Some(9));
    crashed.record_exit(Some(0));
    assert_eq!(crashed.state(), ServerState::CRASHED);
    assert_eq!(crashed.exit_code(), Some(9));
}

#[test]
fn pending_poll_waits_a_tenth_of_a_second() {
    let mut launcher = running();
    assert_eq!(POLL_INTERVAL_MS, 100);
    assert_eq!(
        launcher.monitor_poll(ExitPoll::Pending),
        MonitorAction::Wait { millis: 100 }
    );
    assert_eq!(launcher.state(), ServerState::RUNNING);
    assert_eq!(launcher.exit_code(), None);
}

#[test]
fn send_command_list_writes_list_and_newline() {
    let mut launcher = running();
    assert_eq!(
        launcher.send_command("list".to_string()),
        Ok(b"list\n".to_vec())
    );
    assert_eq!(launcher.state(), ServerState::RUNNING);
}

#[test]
fn send_command_say_hello() {
    let mut launcher = running();
    assert_eq!(
        launcher.send_command("say hello".to_string()),
        Ok(b"say hello\n".to_vec())
    );
}

#[test]
fn send_command_passes_text_through_unchanged() {
    let mut launcher = running();
    assert_eq!(launcher.send_command(String::new()), Ok(b"\n".to_vec()));
    assert_eq!(
        launcher.send_command("say \"a b\" \\ 'c'\n".to_string()),
        Ok(b"say \"a b\" \\ 'c'\n\n".to_vec())
    );
    assert_eq!(
        launcher.send_command("say h\u{e9}llo \u{1F600}".to_string()),
        Ok("say h\u{e9}llo \u{1F600}\n".as_bytes().to_vec())
    );
}

#[test]
fn send_command_without_process_reports_it() {
    let mut launcher = sample(1024, vec![]);
    assert_eq!(
        launcher.send_command("list".to_string()),
        Err(LauncherError::NoProcess)
    );
    assert_eq!(launcher.state(), ServerState::STOPPED);
}

#[test]
fn send_command_after_exit_still_frames_for_the_held_handle() {
    let mut launcher = running();
    launcher.record_exit(Some(0));
    assert_eq!(
        launcher.send_command("list".to_string()),
        Ok(b"list\n".to_vec())
    );
    assert_eq!(write_outcome(false), Err(LauncherError::Io));
}

#[test]
fn write_outcome_reports_failed_writes() {
    assert_eq!(write_outcome(true), Ok(()));
    assert_eq!(write_outcome(false), Err(LauncherError::Io));
}

#[test]
fn stop_is_the_stop_command() {
    let mut launcher = running();
    let by_stop = launcher.stop();
    let by_command = launcher.send_command("stop".to_string());
    assert_eq!(by_stop, Ok(b"stop\n".to_vec()));
    assert_eq!(by_stop, by_command);
    assert_eq!(launcher.state(), ServerState::RUNNING);
    launcher.record_exit(Some(0));
    assert_eq!(launcher.state(), ServerState::STOPPED);
}

#[test]
fn stop_without_process_reports_it() {
    let mut launcher = sample(1024, vec![]);
    assert_eq!(launcher.stop(), Err(LauncherError::NoProcess));
    assert_eq!(launcher.state(), ServerState::STOPPED);
}

#[test]
fn shutdown_without_process_reports_it_and_changes_nothing() {
    let mut launcher = sample(1024, vec![]);
    assert_eq!(launcher.shutdown(), Err(LauncherError::NoProcess));
    assert_eq!(launcher.state(), ServerState::STOPPED);
    assert!(!launcher.has_process());
    assert_eq!(launcher.exit_code(), None);
}

#[test]
fn shutdown_of_running_child_ends_in_stopped_or_crashed() {
    let mut launcher = running();
    assert_eq!(launcher.shutdown(), Ok(()));
    assert_eq!(launcher.state(), ServerState::RUNNING);
    assert_eq!(
        launcher.monitor_poll(ExitPoll::Exited { code: None }),
        MonitorAction::Finish
    );
    assert_eq!(launcher.state(), ServerState::CRASHED);

    let mut other = running();
    assert_eq!(other.shutdown(), Ok(()));
    other.record_exit(Some(0));
    assert_eq!(other.state(), ServerState::STOPPED);
}

#[test]
fn relaunch_with_existing_directory_is_granted_each_time() {
    let mut launcher = sample(1024, vec![]);
    let first = launcher.plan_launch(true).unwrap();
    assert_eq!(first.directory, DirectoryAction::Keep);
    assert_eq!(launcher.launch(LaunchOutcome::Spawned), Ok(both_tasks()));
    launcher.record_exit(Some(0));
    let second = launcher.plan_launch(true).unwrap();
    assert_eq!(second.directory, DirectoryAction::Keep);
    assert_eq!(second.working_dir, first.working_dir);
    assert_eq!(second.command_line, first.command_line);
    assert_eq!(launcher.launch(LaunchOutcome::Spawned), Ok(both_tasks()));
    assert_eq!(launcher.state(), ServerState::RUNNING);
}
