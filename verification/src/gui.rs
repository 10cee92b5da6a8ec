//! The launcher's front end as a model: what each page holds, and what each
//! button and key does to it. Drawing is the caller's.

use vstd::prelude::*;
use crate::console::{clean_line, clean_text, join_lines, joined};
use crate::decimal::{parse_decimal, parsed};
use crate::launcher::{
    stop_command, bytes_view, texts, LaunchPlan, LauncherError, ServerLauncher, ServerState,
};

verus! {

/// The page on show.
#[derive(Clone, Copy, PartialEq, Eq, Structural, Debug)]
pub enum Page {
    /// The console of a configured server.
    LAUNCHER,
    /// The form that configures a server.
    START,
}

/// The settings kept between two runs, as the form holds them.
#[derive(Debug)]
pub struct LauncherConfig {
    pub server_jar_path: String,
    pub java_exe_path: String,
    pub rsxn_server_path: String,
    pub memory: String,
}

/// The front end: the form's fields, the console's lines and input, and the
/// supervisor once the form was sent.
#[derive(Debug)]
pub struct LauncherUI {
    /// The command being typed.
    pub command_input: String,
    /// The lines on the console, oldest first.
    pub logs: Vec<String>,
    /// The supervisor, from the first start on.
    pub launcher: Option<ServerLauncher>,
    /// The page on show.
    pub current_page: Page,
    pub server_jar_path: String,
    pub java_exe_path: String,
    pub rsxn_server_path: String,
    /// The memory limit as typed.
    pub memory: String,
}

/// The name given to a server whose directory has no usable last component.
pub open spec fn unknown_server() -> Seq<char> {
    "Unknown Server"@
}

/// The console line for a start.
pub open spec fn starting_line() -> Seq<char> {
    "[RSXN] Starting server..."@
}

/// The console line for a graceful stop.
pub open spec fn stopped_line() -> Seq<char> {
    "[RSXN] Stopped server."@
}

/// The console line for a forced shutdown.
pub open spec fn shutting_down_line() -> Seq<char> {
    "[RSXN] Shutting down server..."@
}

/// The console line for a directory that could not be opened.
pub open spec fn open_failed_line(reason: Seq<char>) -> Seq<char> {
    "[RSXN] Failed to open server directory: "@ + reason
}

/// The server's name: the last component of its directory, where it has one.
pub open spec fn server_name_of(dir_name: Option<String>) -> Seq<char> {
    match dir_name {
        Some(name) => name@,
        None => unknown_server(),
    }
}

/// Whether a start is on offer in this state.
pub open spec fn start_offered(state: ServerState) -> bool {
    state is STOPPED || state is CRASHED
}

/// Whether a stop, a shutdown and the command line are on offer in this state.
pub open spec fn running(state: ServerState) -> bool {
    state is RUNNING
}

/// Whether a start is on offer in this state.
pub fn can_start(state: ServerState) -> (offered: bool)
    ensures
        offered == start_offered(state),
{
    state == ServerState::STOPPED || state == ServerState::CRASHED
}

/// Whether a stop and a shutdown are on offer in this state.
pub fn can_stop(state: ServerState) -> (offered: bool)
    ensures
        offered == running(state),
{
    state == ServerState::RUNNING
}

impl LauncherUI {
    /// The invariant of the front end: the console page has a supervisor, and
    /// the supervisor is sound.
    pub open spec fn wf(&self) -> bool {
        &&& self.current_page is LAUNCHER ==> self.launcher is Some
        &&& self.launcher matches Some(launcher) ==> launcher.wf()
    }

    /// The settings that the form holds.
    pub open spec fn spec_config(&self) -> LauncherConfig {
        LauncherConfig {
            server_jar_path: self.server_jar_path,
            java_exe_path: self.java_exe_path,
            rsxn_server_path: self.rsxn_server_path,
            memory: self.memory,
        }
    }

    /// Whether `launcher` is the supervisor that the form describes, fresh.
    pub open spec fn describes(&self, launcher: ServerLauncher, name: Seq<char>, memory: i32) -> bool {
        &&& launcher.jarfile == self.server_jar_path
        &&& launcher.java_path == self.java_exe_path
        &&& launcher.server_dir == self.rsxn_server_path
        &&& launcher.server_args@ == Seq::<String>::empty()
        &&& launcher.server_name@ == name
        &&& launcher.memory == memory
        &&& launcher.state is STOPPED
        &&& !launcher.process
        &&& launcher.exit_code is None
    }

    /// Whether a typed command goes out: Enter was pressed as the field lost
    /// the focus, the field is not empty, and the server is running.
    pub open spec fn command_due(&self, enter_pressed: bool, lost_focus: bool) -> bool {
        &&& enter_pressed
        &&& lost_focus
        &&& self.command_input@.len() > 0
        &&& self.launcher matches Some(launcher) && launcher.state is RUNNING
    }

    /// An empty front end on the start page.
    pub fn new() -> (ui: LauncherUI)
        ensures
            ui.command_input@ == Seq::<char>::empty(),
            ui.logs@ == Seq::<String>::empty(),
            ui.launcher is None,
            ui.current_page is START,
            ui.server_jar_path@ == Seq::<char>::empty(),
            ui.java_exe_path@ == Seq::<char>::empty(),
            ui.rsxn_server_path@ == Seq::<char>::empty(),
            ui.memory@ == Seq::<char>::empty(),
            ui.wf(),
    {
        LauncherUI {
            command_input: String::new(),
            logs: Vec::new(),
            launcher: None,
            current_page: Page::START,
            server_jar_path: String::new(),
            java_exe_path: String::new(),
            rsxn_server_path: String::new(),
            memory: String::new(),
        }
    }

    /// Fills the form from saved settings.
    pub fn load_config(&mut self, config: LauncherConfig)
        ensures
            *final(self) == (LauncherUI {
                server_jar_path: config.server_jar_path,
                java_exe_path: config.java_exe_path,
                rsxn_server_path: config.rsxn_server_path,
                memory: config.memory,
                ..*old(self)
            }),
            old(self).wf() ==> final(self).wf(),
    {
        self.server_jar_path = config.server_jar_path;
        self.java_exe_path = config.java_exe_path;
        self.rsxn_server_path = config.rsxn_server_path;
        self.memory = config.memory;
    }

    /// The settings to save: the form as it stands.
    pub fn save_config(&self) -> (config: LauncherConfig)
        ensures
            config == self.spec_config(),
    {
        LauncherConfig {
            server_jar_path: self.server_jar_path.clone(),
            java_exe_path: self.java_exe_path.clone(),
            rsxn_server_path: self.rsxn_server_path.clone(),
            memory: self.memory.clone(),
        }
    }

    /// The page on show.
    pub fn current_page(&self) -> (page: Page)
        ensures
            page == self.current_page,
    {
        self.current_page
    }

    /// The Start button of the form. Where the memory field writes a 32-bit
    /// integer, a fresh supervisor is made from the form, named after
    /// `dir_name` (the last component of the server directory, if any), the
    /// console page comes up, and the settings to save are returned. Where it
    /// does not, nothing changes and nothing is returned.
    pub fn start_clicked(&mut self, dir_name: Option<String>) -> (saved: Option<LauncherConfig>)
        ensures
            match parsed(old(self).memory@) {
                Some(memory) => {
                    &&& saved == Some(old(self).spec_config())
                    &&& final(self).launcher is Some
                    &&& old(self).describes(
                        final(self).launcher->Some_0,
                        server_name_of(dir_name),
                        memory,
                    )
                    &&& *final(self) == (LauncherUI {
                        launcher: final(self).launcher,
                        current_page: Page::LAUNCHER,
                        ..*old(self)
                    })
                },
                None => saved is None && *final(self) == *old(self),
            },
            old(self).wf() ==> final(self).wf(),
    {
        let memory = match parse_decimal(self.memory.as_str()) {
            Some(memory) => memory,
            None => {
                return None;
            },
        };
        let server_name = match dir_name {
            Some(name) => name,
            None => String::from_str("Unknown Server"),
        };
        let launcher = ServerLauncher::new(
            self.server_jar_path.clone(),
            self.java_exe_path.clone(),
            self.rsxn_server_path.clone(),
            Vec::new(),
            server_name,
            memory,
        );
        self.launcher = Some(launcher);
        self.current_page = Page::LAUNCHER;
        Some(self.save_config())
    }

    /// The Start button of the console. While the server runs it is not on
    /// offer and nothing happens. Otherwise the console is cleared down to
    /// the starting line, and the answer is the supervisor's launch plan or
    /// its refusal.
    pub fn press_start(&mut self, dir_exists: bool) -> (plan: Option<
        Result<LaunchPlan, LauncherError>,
    >)
        requires
            old(self).launcher is Some,
        ensures
            !start_offered(old(self).launcher->Some_0.state) ==> plan is None && *final(self)
                == *old(self),
            start_offered(old(self).launcher->Some_0.state) ==> {
                &&& plan matches Some(answer) && old(self).launcher->Some_0.plan_answers(
                    dir_exists,
                    answer,
                )
                &&& texts(final(self).logs@) == seq![starting_line()]
                &&& *final(self) == (LauncherUI { logs: final(self).logs, ..*old(self) })
            },
            old(self).wf() ==> final(self).wf(),
    {
        let answer = match &self.launcher {
            Some(launcher) => {
                if !can_start(launcher.state) {
                    return None;
                }
                launcher.plan_launch(dir_exists)
            },
            None => {
                return None;
            },
        };
        self.logs.clear();
        self.logs.push(String::from_str("[RSXN] Starting server..."));
        Some(answer)
    }

    /// The Stop button. On offer only while the server runs: the `stop`
    /// command is framed for the child's input, and the console notes the
    /// stop. The state is left to the exit monitor.
    pub fn press_stop(&mut self) -> (sent: Option<Result<Vec<u8>, LauncherError>>)
        requires
            old(self).launcher is Some,
        ensures
            !running(old(self).launcher->Some_0.state) ==> sent is None && *final(self) == *old(
                self,
            ),
            running(old(self).launcher->Some_0.state) ==> {
                &&& sent matches Some(answer) && bytes_view(answer) == old(
                    self,
                ).launcher->Some_0.send_result(stop_command())
                &&& texts(final(self).logs@) == texts(old(self).logs@).push(stopped_line())
                &&& *final(self) == (LauncherUI { logs: final(self).logs, ..*old(self) })
            },
            old(self).wf() ==> final(self).wf(),
    {
        let answer = match &mut self.launcher {
            Some(launcher) => {
                if !can_stop(launcher.state) {
                    return None;
                }
                launcher.stop()
            },
            None => {
                return None;
            },
        };
        self.logs.push(String::from_str("[RSXN] Stopped server."));
        Some(answer)
    }

    /// The Shutdown button. On offer only while the server runs: the answer
    /// is the supervisor's leave to kill the child, or its report that there
    /// is none, and the console notes the shutdown.
    pub fn press_shutdown(&mut self) -> (kill: Option<Result<(), LauncherError>>)
        requires
            old(self).launcher is Some,
        ensures
            !running(old(self).launcher->Some_0.state) ==> kill is None && *final(self) == *old(
                self,
            ),
            running(old(self).launcher->Some_0.state) ==> {
                &&& kill == Some(old(self).launcher->Some_0.shutdown_result())
                &&& texts(final(self).logs@) == texts(old(self).logs@).push(shutting_down_line())
                &&& *final(self) == (LauncherUI { logs: final(self).logs, ..*old(self) })
            },
            old(self).wf() ==> final(self).wf(),
    {
        let answer = match &mut self.launcher {
            Some(launcher) => {
                if !can_stop(launcher.state) {
                    return None;
                }
                launcher.shutdown()
            },
            None => {
                return None;
            },
        };
        self.logs.push(String::from_str("[RSXN] Shutting down server..."));
        Some(answer)
    }

    /// The Clear Logs button: the console is emptied.
    pub fn clear_logs(&mut self)
        ensures
            final(self).logs@ == Seq::<String>::empty(),
            *final(self) == (LauncherUI { logs: final(self).logs, ..*old(self) }),
            old(self).wf() ==> final(self).wf(),
    {
        self.logs.clear();
    }

    /// Notes on the console that the server directory could not be opened.
    pub fn open_failed(&mut self, reason: &str)
        ensures
            texts(final(self).logs@) == texts(old(self).logs@).push(open_failed_line(reason@)),
            *final(self) == (LauncherUI { logs: final(self).logs, ..*old(self) }),
            old(self).wf() ==> final(self).wf(),
    {
        let mut line = String::from_str("[RSXN] Failed to open server directory: ");
        line.append(reason);
        self.logs.push(line);
    }

    /// Takes one line from the log channel: its escape sequences are taken
    /// out, and it goes to the end of the console.
    pub fn receive_log(&mut self, raw: String)
        ensures
            texts(final(self).logs@) == texts(old(self).logs@).push(clean_text(raw@)),
            *final(self) == (LauncherUI { logs: final(self).logs, ..*old(self) }),
            old(self).wf() ==> final(self).wf(),
    {
        let line = clean_line(raw.as_str());
        self.logs.push(line);
    }

    /// The console as one text, a line of it for each entry.
    pub fn logs_text(&self) -> (text: String)
        ensures
            text@ == joined(texts(self.logs@)),
    {
        join_lines(&self.logs)
    }

    /// The Enter key in the command field. The command goes out only where
    /// `command_due` holds: it is framed for the child's input as typed, and
    /// the field is emptied. Otherwise nothing happens.
    pub fn submit_command(&mut self, enter_pressed: bool, lost_focus: bool) -> (sent: Option<
        Result<Vec<u8>, LauncherError>,
    >)
        requires
            old(self).launcher is Some,
        ensures
            !old(self).command_due(enter_pressed, lost_focus) ==> sent is None && *final(self)
                == *old(self),
            old(self).command_due(enter_pressed, lost_focus) ==> {
                &&& sent matches Some(answer) && bytes_view(answer) == old(
                    self,
                ).launcher->Some_0.send_result(old(self).command_input@)
                &&& final(self).command_input@ == Seq::<char>::empty()
                &&& *final(self) == (LauncherUI {
                    command_input: final(self).command_input,
                    ..*old(self)
                })
            },
            old(self).wf() ==> final(self).wf(),
    {
        if !(enter_pressed && lost_focus) || self.command_input.as_str().is_empty() {
            return None;
        }
        let answer = match &mut self.launcher {
            Some(launcher) => {
                if !can_stop(launcher.state) {
                    return None;
                }
                launcher.send_command(self.command_input.clone())
            },
            None => {
                return None;
            },
        };
        self.command_input = String::new();
        Some(answer)
    }
}

} // verus!
