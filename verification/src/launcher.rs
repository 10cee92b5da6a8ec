//! The supervisor of the server process: its configuration, its lifecycle
//! state, and the decisions it takes on each request and each observation.
//!
//! Nothing here touches the operating system. A caller asks for a plan,
//! carries it out, and reports what happened.

use vstd::prelude::*;
use vstd::utf8::{encode_scalar, encode_utf8};
use crate::decimal::{decimal, decimal_string};

verus! {

/// Where the server process stands.
#[derive(Clone, Copy, PartialEq, Eq, Structural, Debug)]
pub enum ServerState {
    /// A child was spawned and no exit has been observed.
    RUNNING,
    /// No child was started yet, or the last one left with code zero.
    STOPPED,
    /// The last child left with another code, or without one.
    CRASHED,
}

/// Why a request could not be served.
#[derive(Clone, Copy, PartialEq, Eq, Structural, Debug)]
pub enum LauncherError {
    /// The working directory could not be created.
    Provisioning,
    /// The operating system could not spawn the child.
    Launch,
    /// The memory limit is not a positive number of megabytes.
    InvalidMemory,
    /// A child is running already.
    AlreadyRunning,
    /// There is no process handle to act on.
    NoProcess,
    /// A pipe of the child could not be read or written.
    Io,
}

/// What to do about the working directory before the child is spawned.
#[derive(Clone, Copy, PartialEq, Eq, Structural, Debug)]
pub enum DirectoryAction {
    /// The directory is there: leave it alone.
    Keep,
    /// The directory is missing: create it with all its parents.
    CreateTree,
}

/// Where one of the child's standard streams is connected.
#[derive(Clone, Copy, PartialEq, Eq, Structural, Debug)]
pub enum StreamSetup {
    /// A pipe whose other end the supervisor's side holds.
    Piped,
    /// The stream of the launching program itself.
    Inherited,
    /// Nowhere: what is written is lost, and reading ends at once.
    Discarded,
}

/// A background task that runs beside the child from a launch on.
#[derive(Clone, Copy, PartialEq, Eq, Structural, Debug)]
pub enum BackgroundTask {
    /// Reads the child's output line by line and forwards each line.
    LogStreamer,
    /// Polls the child's exit status and records the exit.
    ExitMonitor,
}

/// What came of carrying out a launch plan.
#[derive(Clone, Copy, PartialEq, Eq, Structural, Debug)]
pub enum LaunchOutcome {
    /// The working directory was missing and could not be created.
    ProvisioningFailed,
    /// The directory is in place, and the spawn failed.
    SpawnFailed,
    /// The child is alive, with its three streams piped.
    Spawned,
}

/// One look at the child's exit status.
#[derive(Clone, Copy, PartialEq, Eq, Structural, Debug)]
pub enum ExitPoll {
    /// The child has not exited.
    Pending,
    /// The child has exited; `code` is absent where a signal ended it.
    Exited { code: Option<i32> },
}

/// What the exit monitor does after a poll.
#[derive(Clone, Copy, PartialEq, Eq, Structural, Debug)]
pub enum MonitorAction {
    /// Sleep this long, holding no lock, then poll again.
    Wait { millis: u64 },
    /// The exit is recorded: the monitor ends.
    Finish,
}

/// The pause between two polls of the exit status, in milliseconds.
pub const POLL_INTERVAL_MS: u64 = 100;

/// Everything needed to start the child.
#[derive(Debug)]
pub struct LaunchPlan {
    /// Whether the working directory has to be created first.
    pub directory: DirectoryAction,
    /// The directory the child runs in.
    pub working_dir: String,
    /// The runtime, then its arguments in order.
    pub command_line: Vec<String>,
    /// Where the child reads its commands from.
    pub stdin: StreamSetup,
    /// Where the child's output goes.
    pub stdout: StreamSetup,
    /// Where the child's error output goes.
    pub stderr: StreamSetup,
}

/// The supervisor of one server process.
#[derive(Debug)]
pub struct ServerLauncher {
    /// The program artifact handed to the runtime.
    pub jarfile: String,
    /// The runtime that executes the artifact.
    pub java_path: String,
    /// The directory the server runs in.
    pub server_dir: String,
    /// Arguments placed after the artifact, in order.
    pub server_args: Vec<String>,
    /// The name shown for this server.
    pub server_name: String,
    /// The memory limit in megabytes.
    pub memory: i32,
    /// The lifecycle state.
    pub state: ServerState,
    /// Whether a process handle is held: from a successful spawn on.
    pub process: bool,
    /// The code of the last observed exit, where there was one.
    pub exit_code: Option<i32>,
}

/// The text of each string of a sequence.
pub open spec fn texts(v: Seq<String>) -> Seq<Seq<char>> {
    v.map_values(|s: String| s@)
}

/// The flag that sets the memory limit: `-Xmx`, the number, `M`.
pub open spec fn memory_flag(memory: int) -> Seq<char> {
    seq!['-', 'X', 'm', 'x'] + decimal(memory) + seq!['M']
}

/// The text `-jar`.
pub open spec fn jar_flag() -> Seq<char> {
    seq!['-', 'j', 'a', 'r']
}

/// The text `-nogui`.
pub open spec fn headless_flag() -> Seq<char> {
    seq!['-', 'n', 'o', 'g', 'u', 'i']
}

/// The text `stop`, the command a cooperative server leaves on.
pub open spec fn stop_command() -> Seq<char> {
    seq!['s', 't', 'o', 'p']
}

/// The bytes a command puts on the child's input: the text as it is, encoded
/// as UTF-8, and one newline byte after it.
pub open spec fn command_bytes(text: Seq<char>) -> Seq<u8> {
    encode_utf8(text) + seq![10u8]
}

/// A text with one more character encodes to the text's bytes, then the
/// character's.
pub proof fn lemma_encode_push(text: Seq<char>, c: char)
    ensures
        encode_utf8(text.push(c)) == encode_utf8(text) + encode_scalar(c as u32),
    decreases text.len(),
{
    let longer = text.push(c);
    if text.len() == 0 {
        assert(encode_utf8(longer.drop_first()) =~= Seq::<u8>::empty());
    } else {
        assert(longer.drop_first() =~= text.drop_first().push(c));
        lemma_encode_push(text.drop_first(), c);
    }
}

/// A text with a newline at its end encodes to the command's bytes.
pub proof fn lemma_newline_ends_command(text: Seq<char>)
    ensures
        encode_utf8(text.push('\n')) == command_bytes(text),
{
    lemma_encode_push(text, '\n');
    assert((10u32 & 0x7F) as u8 == 10u8) by (bit_vector);
}

/// The tasks started with each child: the log streamer and the exit monitor.
pub open spec fn launch_tasks() -> Seq<BackgroundTask> {
    seq![BackgroundTask::LogStreamer, BackgroundTask::ExitMonitor]
}

/// The state that an exit with this code leads to.
pub open spec fn state_after_exit(code: Option<i32>) -> ServerState {
    if code == Some(0i32) {
        ServerState::STOPPED
    } else {
        ServerState::CRASHED
    }
}

/// The directory action for a directory that exists or not.
pub open spec fn directory_action(exists: bool) -> DirectoryAction {
    if exists {
        DirectoryAction::Keep
    } else {
        DirectoryAction::CreateTree
    }
}

/// A result with its bytes taken as a sequence.
pub open spec fn bytes_view(r: Result<Vec<u8>, LauncherError>) -> Result<Seq<u8>, LauncherError> {
    match r {
        Ok(bytes) => Ok(bytes@),
        Err(e) => Err(e),
    }
}

fn memory_flag_string(memory: i32) -> (flag: String)
    ensures
        flag@ == memory_flag(memory as int),
{
    proof {
        reveal_strlit("-Xmx");
        reveal_strlit("M");
    }
    let mut flag = String::from_str("-Xmx");
    let number = decimal_string(memory);
    flag.append(number.as_str());
    flag.append("M");
    flag
}

impl ServerLauncher {
    /// The invariant of a supervisor: while the state is RUNNING a handle is
    /// held and no exit is recorded; STOPPED never stands beside a non-zero
    /// code, nor CRASHED beside code zero.
    pub open spec fn wf(&self) -> bool {
        &&& self.state is RUNNING ==> self.process && self.exit_code is None
        &&& self.state is STOPPED ==> self.exit_code is None || self.exit_code == Some(0i32)
        &&& self.state is CRASHED ==> self.process && self.exit_code != Some(0i32)
    }

    /// The command line that starts the server: the runtime, the memory flag,
    /// `-jar`, the artifact, the extra arguments, `-nogui`.
    pub open spec fn spec_command_line(&self) -> Seq<Seq<char>> {
        seq![self.java_path@, memory_flag(self.memory as int), jar_flag(), self.jarfile@] + texts(
            self.server_args@,
        ) + seq![headless_flag()]
    }

    /// Why a launch is refused before anything is done, if it is.
    pub open spec fn launch_refusal(&self) -> Option<LauncherError> {
        if self.state is RUNNING {
            Some(LauncherError::AlreadyRunning)
        } else if self.memory <= 0 {
            Some(LauncherError::InvalidMemory)
        } else {
            None
        }
    }

    /// Whether `result` is the answer to a request for a launch plan: the
    /// refusal where there is one, else the plan for this configuration.
    pub open spec fn plan_answers(
        &self,
        dir_exists: bool,
        result: Result<LaunchPlan, LauncherError>,
    ) -> bool {
        match result {
            Ok(plan) => {
                &&& self.launch_refusal() is None
                &&& plan.directory == directory_action(dir_exists)
                &&& plan.working_dir@ == self.server_dir@
                &&& texts(plan.command_line@) == self.spec_command_line()
                &&& plan.stdin is Piped
                &&& plan.stdout is Piped
                &&& plan.stderr is Piped
            },
            Err(e) => self.launch_refusal() == Some(e),
        }
    }

    /// What a launch reports for a given outcome of its plan.
    pub open spec fn launch_result(&self, outcome: LaunchOutcome) -> Result<(), LauncherError> {
        match self.launch_refusal() {
            Some(e) => Err(e),
            None => match outcome {
                LaunchOutcome::ProvisioningFailed => Err(LauncherError::Provisioning),
                LaunchOutcome::SpawnFailed => Err(LauncherError::Launch),
                LaunchOutcome::Spawned => Ok(()),
            },
        }
    }

    /// The supervisor after a successful spawn.
    pub open spec fn launched(self) -> ServerLauncher {
        ServerLauncher { state: ServerState::RUNNING, process: true, exit_code: None, ..self }
    }

    /// The supervisor after an exit with this code was observed. Only a
    /// running child can exit: in another state nothing changes.
    pub open spec fn after_exit(self, code: Option<i32>) -> ServerLauncher {
        if self.state is RUNNING {
            ServerLauncher { state: state_after_exit(code), exit_code: code, ..self }
        } else {
            self
        }
    }

    /// The supervisor after a poll of the exit status.
    pub open spec fn after_poll(self, poll: ExitPoll) -> ServerLauncher {
        match poll {
            ExitPoll::Pending => self,
            ExitPoll::Exited { code } => self.after_exit(code),
        }
    }

    /// What sending `text` gives: the bytes for the child's input, or the
    /// report that there is no process.
    pub open spec fn send_result(&self, text: Seq<char>) -> Result<Seq<u8>, LauncherError> {
        if self.process {
            Ok(command_bytes(text))
        } else {
            Err(LauncherError::NoProcess)
        }
    }

    /// What a forced shutdown gives: leave to kill, or the report that there
    /// is no process.
    pub open spec fn shutdown_result(&self) -> Result<(), LauncherError> {
        if self.process {
            Ok(())
        } else {
            Err(LauncherError::NoProcess)
        }
    }

    /// A supervisor for the given configuration: STOPPED, with no process.
    pub fn new(
        jarfile: String,
        java_path: String,
        server_dir: String,
        server_args: Vec<String>,
        server_name: String,
        memory: i32,
    ) -> (launcher: ServerLauncher)
        ensures
            launcher == (ServerLauncher {
                jarfile,
                java_path,
                server_dir,
                server_args,
                server_name,
                memory,
                state: ServerState::STOPPED,
                process: false,
                exit_code: None,
            }),
            launcher.wf(),
    {
        ServerLauncher {
            jarfile,
            java_path,
            server_dir,
            server_args,
            server_name,
            memory,
            state: ServerState::STOPPED,
            process: false,
            exit_code: None,
        }
    }

    /// The lifecycle state.
    pub fn state(&self) -> (state: ServerState)
        ensures
            state == self.state,
    {
        self.state
    }

    /// The code of the last observed exit.
    pub fn exit_code(&self) -> (code: Option<i32>)
        ensures
            code == self.exit_code,
    {
        self.exit_code
    }

    /// Whether a process handle is held.
    pub fn has_process(&self) -> (held: bool)
        ensures
            held == self.process,
    {
        self.process
    }

    /// Builds the command line from the configuration. The memory limit is
    /// written as it is; whether it is positive is checked at launch.
    pub fn command_line(&self) -> (line: Vec<String>)
        ensures
            texts(line@) == self.spec_command_line(),
    {
        proof {
            reveal_strlit("-jar");
            reveal_strlit("-nogui");
        }
        let mut line: Vec<String> = Vec::new();
        line.push(self.java_path.clone());
        line.push(memory_flag_string(self.memory));
        let jar = String::from_str("-jar");
        line.push(jar);
        line.push(self.jarfile.clone());
        let n: usize = self.server_args.len();
        let mut i: usize = 0;
        while i < n
            invariant
                n == self.server_args@.len(),
                i <= n,
                line@.len() == 4 + i,
                line@[0]@ == self.java_path@,
                line@[1]@ == memory_flag(self.memory as int),
                line@[2]@ == jar_flag(),
                line@[3]@ == self.jarfile@,
                forall|j: int| 0 <= j < i ==> (#[trigger] line@[4 + j])@ == self.server_args@[j]@,
            decreases n - i,
        {
            line.push(self.server_args[i].clone());
            i += 1;
        }
        let headless = String::from_str("-nogui");
        line.push(headless);
        proof {
            let want = self.spec_command_line();
            let got = texts(line@);
            assert forall|k: int| 0 <= k < got.len() implies got[k] == want[k] by {
                if 4 <= k < 4 + n {
                    assert(line@[4 + (k - 4)]@ == self.server_args@[k - 4]@);
                }
            }
        }
        line
    }

    /// Decides what to do about the working directory: nothing where it
    /// exists, create the whole tree where it does not.
    pub fn check_server_dir(&self, exists: bool) -> (action: DirectoryAction)
        ensures
            action == directory_action(exists),
    {
        if exists {
            DirectoryAction::Keep
        } else {
            DirectoryAction::CreateTree
        }
    }

    /// Plans a launch. It is refused while a child is running and where the
    /// memory limit is not positive; otherwise the plan names the directory
    /// action, the working directory and the command line, and has each of
    /// the child's three streams piped. The supervisor is left as it is:
    /// `launch` records what came of the plan.
    pub fn plan_launch(&self, dir_exists: bool) -> (result: Result<LaunchPlan, LauncherError>)
        ensures
            self.plan_answers(dir_exists, result),
    {
        if self.state == ServerState::RUNNING {
            return Err(LauncherError::AlreadyRunning);
        }
        if self.memory <= 0 {
            return Err(LauncherError::InvalidMemory);
        }
        Ok(
            LaunchPlan {
                directory: self.check_server_dir(dir_exists),
                working_dir: self.server_dir.clone(),
                command_line: self.command_line(),
                stdin: StreamSetup::Piped,
                stdout: StreamSetup::Piped,
                stderr: StreamSetup::Piped,
            },
        )
    }

    /// Records what came of a launch plan. A spawned child makes the state
    /// RUNNING, with a handle held and no exit recorded, and the answer names
    /// the two background tasks to start for it. Every failure, and every
    /// refusal (the same as `plan_launch` gives), leaves the supervisor as it
    /// was, and no task is to be started.
    pub fn launch(&mut self, outcome: LaunchOutcome) -> (result: Result<
        Vec<BackgroundTask>,
        LauncherError,
    >)
        ensures
            match result {
                Ok(tasks) => old(self).launch_result(outcome) is Ok && tasks@ == launch_tasks(),
                Err(e) => old(self).launch_result(outcome) == Err::<(), LauncherError>(e),
            },
            result is Ok ==> *final(self) == (*old(self)).launched(),
            result is Err ==> *final(self) == *old(self),
            result is Ok ==> final(self).state is RUNNING && final(self).process,
            old(self).wf() ==> final(self).wf(),
    {
        if self.state == ServerState::RUNNING {
            return Err(LauncherError::AlreadyRunning);
        }
        if self.memory <= 0 {
            return Err(LauncherError::InvalidMemory);
        }
        match outcome {
            LaunchOutcome::ProvisioningFailed => Err(LauncherError::Provisioning),
            LaunchOutcome::SpawnFailed => Err(LauncherError::Launch),
            LaunchOutcome::Spawned => {
                self.state = ServerState::RUNNING;
                self.process = true;
                self.exit_code = None;
                let mut tasks: Vec<BackgroundTask> = Vec::new();
                tasks.push(BackgroundTask::LogStreamer);
                tasks.push(BackgroundTask::ExitMonitor);
                Ok(tasks)
            },
        }
    }

    /// Records an observed exit of the running child: code zero gives
    /// STOPPED, anything else CRASHED, and the code is kept.
    pub fn record_exit(&mut self, code: Option<i32>)
        ensures
            *final(self) == (*old(self)).after_exit(code),
            old(self).wf() ==> final(self).wf(),
    {
        if self.state == ServerState::RUNNING {
            let clean = match code {
                Some(c) => c == 0,
                None => false,
            };
            if clean {
                self.state = ServerState::STOPPED;
            } else {
                self.state = ServerState::CRASHED;
            }
            self.exit_code = code;
        }
    }

    /// One round of the exit monitor: a pending child means a pause of
    /// `POLL_INTERVAL_MS` and another poll; an exit is recorded and ends the
    /// monitor.
    pub fn monitor_poll(&mut self, poll: ExitPoll) -> (action: MonitorAction)
        ensures
            *final(self) == (*old(self)).after_poll(poll),
            poll is Pending ==> action == (MonitorAction::Wait { millis: POLL_INTERVAL_MS }),
            poll is Exited ==> action == MonitorAction::Finish,
            old(self).wf() ==> final(self).wf(),
    {
        match poll {
            ExitPoll::Pending => MonitorAction::Wait { millis: POLL_INTERVAL_MS },
            ExitPoll::Exited { code } => {
                self.record_exit(code);
                MonitorAction::Finish
            },
        }
    }

    /// Frames a command for the child's input: the text unchanged, then one
    /// newline, as UTF-8. Without a process handle it reports `NoProcess`.
    /// The supervisor does not change.
    pub fn send_command(&mut self, command: String) -> (result: Result<Vec<u8>, LauncherError>)
        ensures
            bytes_view(result) == old(self).send_result(command@),
            *final(self) == *old(self),
    {
        if !self.process {
            return Err(LauncherError::NoProcess);
        }
        proof {
            reveal_strlit("\n");
        }
        let mut line = command;
        line.append("\n");
        assert(line@ =~= command@.push('\n'));
        proof {
            lemma_newline_ends_command(command@);
        }
        Ok(line.as_str().as_bytes_vec())
    }

    /// Asks the server to leave on its own: the command `stop`.
    pub fn stop(&mut self) -> (result: Result<Vec<u8>, LauncherError>)
        ensures
            bytes_view(result) == old(self).send_result(stop_command()),
            *final(self) == *old(self),
    {
        proof {
            reveal_strlit("stop");
        }
        let command = String::from_str("stop");
        assert(command@ =~= stop_command());
        self.send_command(command)
    }

    /// Decides a forced shutdown: with a process handle the child is to be
    /// killed, without one `NoProcess` is reported. The state changes only
    /// when the exit is observed.
    pub fn shutdown(&mut self) -> (result: Result<(), LauncherError>)
        ensures
            result == old(self).shutdown_result(),
            *final(self) == *old(self),
    {
        if self.process {
            Ok(())
        } else {
            Err(LauncherError::NoProcess)
        }
    }
}

/// What a write to the child's input came to: `Io` where it failed.
pub fn write_outcome(written: bool) -> (result: Result<(), LauncherError>)
    ensures
        result == (if written {
            Ok::<(), LauncherError>(())
        } else {
            Err::<(), LauncherError>(LauncherError::Io)
        }),
{
    if written {
        Ok(())
    } else {
        Err(LauncherError::Io)
    }
}

} // verus!
