//! The state of a managed server process and the decisions taken on it.
//!
//! The controller owns no process itself: whoever drives it spawns, reads,
//! writes and waits, and reports each outcome back through these methods,
//! which decide how the state changes and what is reported to the user.
use std::collections::VecDeque;

use vstd::prelude::*;

use crate::config::file::{load_or_default, loaded_or_default};
use crate::error::{error_text, PumpkinError};
use crate::model::pumpkin_config::{
    clone_strings, default_config, ConfigView, Platform, PumpkinConfig,
};
use crate::model::server_log_line::{rendered, ServerLogLine};
use crate::model::server_snapshot::ServerSnapshot;
use crate::model::server_status::ServerStatus;
use crate::model::server_stream::ServerStream;
use crate::paths::{base_directory, base_directory_of, resolve_path, resolved};
use crate::text::{
    all_digits, concat2, concat3, decimal, decimal_string, digits_value, ends_with_char,
    law_decimal_denotes, owned,
};
use crate::words::views;

verus! {

/// The most lines of process output that the controller keeps.
pub const LOG_LIMIT: usize = 512;

/// How long a stopping server may take before it is killed, in milliseconds.
pub const STOP_TIMEOUT_MILLIS: u64 = 10000;

/// How long to wait between two looks at a stopping server, in milliseconds.
pub const STOP_POLL_MILLIS: u64 = 200;

/// The last `n` items of `s`, or all of them where there are fewer.
pub open spec fn newest<T>(s: Seq<T>, n: nat) -> Seq<T> {
    if s.len() <= n {
        s
    } else {
        s.skip(s.len() - n)
    }
}

/// The log after `line` was added to it.
pub open spec fn appended(logs: Seq<ServerLogLine>, line: ServerLogLine) -> Seq<ServerLogLine> {
    newest(logs.push(line), LOG_LIMIT as nat)
}

/// Drops the oldest lines until at most `LOG_LIMIT` are left.
pub fn trim_logs(logs: &mut VecDeque<ServerLogLine>)
    ensures
        final(logs)@ == newest(old(logs)@, LOG_LIMIT as nat),
{
    let ghost start = logs@;
    while logs.len() > LOG_LIMIT
        invariant
            start.len() >= logs@.len(),
            logs@ == start.skip(start.len() - logs@.len()),
            start.len() > LOG_LIMIT ==> logs@.len() >= LOG_LIMIT,
            start.len() <= LOG_LIMIT ==> logs@ == start,
        decreases logs@.len(),
    {
        let _ = logs.pop_front();
        assert(logs@ =~= start.skip(start.len() - logs@.len()));
    }
    assert(start.len() <= LOG_LIMIT ==> start.skip(0) =~= start);
}

/// The characters of an optional string.
pub open spec fn opt_view(o: Option<String>) -> Option<Seq<char>> {
    match o {
        Some(s) => Some(s@),
        None => None,
    }
}

fn clone_opt(o: &Option<String>) -> (r: Option<String>)
    ensures
        r == *o,
{
    match o {
        Some(s) => Some(s.clone()),
        None => None,
    }
}

/// The controller's state as plain values.
pub struct ControllerView {
    pub config_path: Seq<char>,
    pub config: ConfigView,
    pub status: ServerStatus,
    /// The process the controller tracks, by its id.
    pub process: Option<u32>,
    pub logs: Seq<ServerLogLine>,
    pub last_error: Option<Seq<char>>,
    /// The process whose output and exit are still taken into account.
    pub active_pid: Option<u32>,
}

/// What holds of every state the controller can be in: the log stays within
/// its limit, a running server has an active process, and a stopped one has
/// none.
pub open spec fn controller_ok(v: ControllerView) -> bool {
    &&& v.logs.len() <= LOG_LIMIT
    &&& (v.status == ServerStatus::Running ==> v.active_pid is Some)
    &&& (v.status == ServerStatus::Stopped ==> v.active_pid is None)
}

/// The state after `start` began a launch; unchanged where a process is tracked.
pub open spec fn started(v: ControllerView) -> ControllerView {
    if v.process is Some {
        v
    } else {
        ControllerView { status: ServerStatus::Starting, last_error: None, ..v }
    }
}

/// The state after `stop`; unchanged where no process is tracked.
pub open spec fn stopped(v: ControllerView) -> ControllerView {
    if v.process is None {
        v
    } else {
        ControllerView { process: None, status: ServerStatus::Stopping, last_error: None, ..v }
    }
}

/// The state after the stop of process `pid` completed.
pub open spec fn stop_completed(v: ControllerView, pid: u32) -> ControllerView {
    if v.active_pid == Some(pid) {
        ControllerView { status: ServerStatus::Stopped, active_pid: None, last_error: None, ..v }
    } else {
        v
    }
}

/// The state after process `pid` was seen to have exited.
pub open spec fn exited(v: ControllerView, pid: u32) -> ControllerView {
    if v.active_pid == Some(pid) {
        ControllerView { status: ServerStatus::Stopped, active_pid: None, process: None, ..v }
    } else {
        v
    }
}

/// The state after process `pid` wrote `line`.
pub open spec fn recorded(v: ControllerView, pid: u32, line: ServerLogLine) -> ControllerView {
    if v.active_pid == Some(pid) {
        ControllerView { logs: appended(v.logs, line), ..v }
    } else {
        v
    }
}

/// The state after a look at whether the tracked process still runs.
pub open spec fn refreshed(v: ControllerView, running: bool) -> ControllerView {
    match v.process {
        None => v,
        Some(pid) => if running {
            ControllerView { status: ServerStatus::Running, active_pid: Some(pid), ..v }
        } else {
            ControllerView { status: ServerStatus::Stopped, active_pid: None, process: None, ..v }
        },
    }
}

/// The log line that announces a started process.
pub open spec fn started_line_text(pid: u32) -> Seq<char> {
    "process "@ + decimal(pid as nat) + " started"@
}

/// The text written to the server's input for `command`: the command, with a
/// line break added unless it already ends in one.
pub open spec fn command_text(command: Seq<char>) -> Seq<char> {
    if command.len() > 0 && command.last() == '\n' {
        command
    } else {
        command + "\n"@
    }
}

/// What a launch needs: the program, the directory it runs in, its arguments.
#[derive(Debug)]
pub struct LaunchPlan {
    pub executable: String,
    pub working_directory: String,
    pub arguments: Vec<String>,
}

/// How the launch of a planned server ended.
#[derive(Debug)]
pub enum LaunchOutcome {
    /// The executable was missing and could not be fetched.
    ExecutableUnavailable(PumpkinError),
    /// The working directory does not exist.
    WorkingDirectoryMissing,
    /// The process could not be spawned; the message of the failure.
    SpawnFailed(String),
    /// The process was spawned without an input pipe, and was killed again.
    StdinUnavailable,
    /// The process runs, with this id.
    Spawned(u32),
}

/// The text written to the server's input to ask it to stop.
pub open spec fn stop_input_text() -> Seq<char> {
    "stop\n"@
}

/// A stop to carry out: the process to stop, and what to write to its input.
#[derive(Debug)]
pub struct StopRequest {
    pub pid: u32,
    pub input: String,
}

/// What a stop reports once its text was written to the server's input
/// (`written` holds the message of a failed write): `StopFailed` with that
/// message where the write failed.
pub fn stop_written(written: Result<(), String>) -> (r: Result<(), PumpkinError>)
    ensures
        match written {
            Ok(()) => r is Ok,
            Err(m) => r matches Err(PumpkinError::StopFailed(x)) && x@ == m@,
        },
{
    match written {
        Ok(()) => Ok(()),
        Err(m) => Err(PumpkinError::StopFailed(m)),
    }
}

/// What sending a command reports once its text was written to the
/// server's input (`written` holds the message of a failed write): an `Io`
/// error with that message where the write failed.
pub fn command_written(written: Result<(), String>) -> (r: Result<(), PumpkinError>)
    ensures
        match written {
            Ok(()) => r is Ok,
            Err(m) => r matches Err(PumpkinError::Io(x)) && x@ == m@,
        },
{
    match written {
        Ok(()) => Ok(()),
        Err(m) => Err(PumpkinError::Io(m)),
    }
}

/// What to do next while waiting for a stopping server.
#[derive(Debug, Clone, Copy, PartialEq, Eq, Structural)]
pub enum StopPoll {
    /// The process has exited.
    Finished,
    /// The process took too long: kill it and wait for it.
    Kill,
    /// Look again after `STOP_POLL_MILLIS`.
    Wait,
}

/// What to do after a look at a stopping server: `finished` tells whether it
/// has exited, `elapsed_millis` how long ago the stop began.
pub fn stop_poll(finished: bool, elapsed_millis: u64) -> (r: StopPoll)
    ensures
        finished ==> r == StopPoll::Finished,
        !finished && elapsed_millis >= STOP_TIMEOUT_MILLIS ==> r == StopPoll::Kill,
        !finished && elapsed_millis < STOP_TIMEOUT_MILLIS ==> r == StopPoll::Wait,
{
    if finished {
        StopPoll::Finished
    } else if elapsed_millis >= STOP_TIMEOUT_MILLIS {
        StopPoll::Kill
    } else {
        StopPoll::Wait
    }
}

/// The state of one managed server: its configuration, its status, the
/// process it tracks and the latest lines of its output.
#[derive(Debug)]
pub struct ServerController {
    config_path: String,
    config: PumpkinConfig,
    status: ServerStatus,
    process: Option<u32>,
    logs: VecDeque<ServerLogLine>,
    last_error: Option<String>,
    active_pid: Option<u32>,
}

impl View for ServerController {
    type V = ControllerView;

    closed spec fn view(&self) -> ControllerView {
        ControllerView {
            config_path: self.config_path@,
            config: self.config@,
            status: self.status,
            process: self.process,
            logs: self.logs@,
            last_error: opt_view(self.last_error),
            active_pid: self.active_pid,
        }
    }
}

impl ServerController {
    /// Whether the state is one the controller can be in.
    pub open spec fn wf(&self) -> bool {
        controller_ok(self@)
    }

    /// A controller for the configuration file at `config_path` holding
    /// `config`, with the server stopped and no output yet.
    pub fn new(config_path: String, config: PumpkinConfig) -> (r: Self)
        ensures
            r.wf(),
            r@ == (ControllerView {
                config_path: config_path@,
                config: config@,
                status: ServerStatus::Stopped,
                process: None,
                logs: Seq::empty(),
                last_error: None,
                active_pid: None,
            }),
    {
        ServerController {
            config_path,
            config,
            status: ServerStatus::Stopped,
            process: None,
            logs: VecDeque::new(),
            last_error: None,
            active_pid: None,
        }
    }

    /// A controller for the configuration file at `path`, given what reading
    /// that file gave (`None` where it does not exist): its configuration, or
    /// the default one of `platform` where there is no file.
    pub fn from_config_path(
        path: &str,
        found: Option<Result<PumpkinConfig, PumpkinError>>,
        platform: Platform,
    ) -> (r: Result<Self, PumpkinError>)
        ensures
            found matches Some(Err(e)) ==> r == Err::<Self, PumpkinError>(e),
            r is Ok <==> !(found matches Some(Err(_))),
            r matches Ok(c) ==> {
                &&& c.wf()
                &&& c@.config_path == path@
                &&& c@.config == loaded_or_default(found, platform)
                &&& c@.status == ServerStatus::Stopped
                &&& c@.process is None
                &&& c@.logs.len() == 0
                &&& c@.last_error is None
                &&& c@.active_pid is None
            },
    {
        match load_or_default(path, found, platform) {
            Ok(config) => Ok(Self::new(owned(path), config)),
            Err(e) => Err(e),
        }
    }

    /// A controller for the configuration file at `path` as the control
    /// panel opens one: with the configuration that reading the file gave
    /// (`None` where it does not exist, giving the default one of
    /// `platform`), or, where reading or parsing failed, with the default
    /// configuration and, beside the controller, the message of that failure.
    pub fn open_or_default(
        path: &str,
        found: Option<Result<PumpkinConfig, PumpkinError>>,
        platform: Platform,
    ) -> (r: (Self, Option<String>))
        ensures
            r.0.wf(),
            r.0@.config_path == path@,
            r.0@.status == ServerStatus::Stopped,
            r.0@.process is None,
            r.0@.logs.len() == 0,
            r.0@.last_error is None,
            r.0@.active_pid is None,
            match found {
                Some(Err(e)) => {
                    &&& r.0@.config == default_config(platform)
                    &&& r.1 matches Some(m) && m@ == error_text(e)
                },
                _ => r.0@.config == loaded_or_default(found, platform) && r.1 is None,
            },
    {
        match found {
            Some(Err(e)) => {
                let message = e.message();
                (Self::new(owned(path), PumpkinConfig::default_for(platform)), Some(message))
            },
            Some(Ok(config)) => (Self::new(owned(path), config), None),
            None => (Self::new(owned(path), PumpkinConfig::default_for(platform)), None),
        }
    }

    /// A copy of the configuration.
    pub fn config(&self) -> (r: PumpkinConfig)
        ensures
            r@ == self@.config,
    {
        self.config.clone()
    }

    /// Replaces the configuration; nothing else changes.
    pub fn set_config(&mut self, config: PumpkinConfig)
        requires
            old(self).wf(),
        ensures
            final(self).wf(),
            final(self)@ == (ControllerView { config: config@, ..old(self)@ }),
    {
        self.config = config;
    }

    /// Where the configuration file lies.
    pub fn config_path(&self) -> (r: String)
        ensures
            r@ == self@.config_path,
    {
        self.config_path.clone()
    }

    /// The status, the active process and the last error.
    pub fn status(&self) -> (r: ServerSnapshot)
        ensures
            r.status == self@.status,
            r.process_id == self@.active_pid,
            opt_view(r.last_error) == self@.last_error,
    {
        ServerSnapshot {
            status: self.status,
            process_id: self.active_pid,
            last_error: clone_opt(&self.last_error),
        }
    }

    /// The process that is tracked, if any.
    pub fn tracked_process(&self) -> (r: Option<u32>)
        ensures
            r == self@.process,
    {
        self.process
    }

    /// A copy of the kept output lines, oldest first.
    pub fn logs(&self) -> (r: Vec<ServerLogLine>)
        ensures
            r@ == self@.logs,
    {
        let mut r: Vec<ServerLogLine> = Vec::new();
        let mut i: usize = 0;
        while i < self.logs.len()
            invariant
                i <= self.logs@.len(),
                r@ == self.logs@.take(i as int),
            decreases self.logs@.len() - i,
        {
            r.push(self.logs[i].clone());
            i = i + 1;
            assert(r@ =~= self.logs@.take(i as int));
        }
        assert(self.logs@.take(self.logs@.len() as int) =~= self.logs@);
        r
    }

    /// Takes all kept output lines out, each rendered with its stream tag,
    /// oldest first; nothing else changes.
    pub fn drain_logs(&mut self) -> (r: Vec<String>)
        requires
            old(self).wf(),
        ensures
            final(self).wf(),
            final(self)@ == (ControllerView { logs: Seq::empty(), ..old(self)@ }),
            r@.len() == old(self)@.logs.len(),
            forall|i: int|
                0 <= i < r@.len() ==> #[trigger] r@[i]@ == rendered(
                    old(self)@.logs[i].stream,
                    old(self)@.logs[i].line@,
                ),
    {
        let mut r: Vec<String> = Vec::new();
        let mut i: usize = 0;
        while i < self.logs.len()
            invariant
                i <= self.logs@.len(),
                r@.len() == i,
                forall|k: int|
                    0 <= k < i ==> #[trigger] r@[k]@ == rendered(
                        self.logs@[k].stream,
                        self.logs@[k].line@,
                    ),
            decreases self.logs@.len() - i,
        {
            r.push(self.logs[i].render());
            i = i + 1;
        }
        self.logs.clear();
        r
    }

    /// Begins a launch. Refused with `ServerAlreadyRunning`, changing
    /// nothing, where a process is tracked; otherwise the status becomes
    /// `Starting`, the last error is cleared, and the plan says which program
    /// to run where: the configured paths resolved against the directory of
    /// the configuration file.
    pub fn start(&mut self) -> (r: Result<LaunchPlan, PumpkinError>)
        requires
            old(self).wf(),
        ensures
            final(self).wf(),
            final(self)@ == started(old(self)@),
            old(self)@.process is Some <==> r is Err,
            r matches Err(e) ==> e is ServerAlreadyRunning,
            r matches Ok(plan) ==> {
                let base = base_directory_of(old(self)@.config_path);
                &&& plan.executable@ == resolved(base, old(self)@.config.executable)
                &&& plan.working_directory@ == resolved(base, old(self)@.config.server_directory)
                &&& views(plan.arguments@) == old(self)@.config.arguments
            },
    {
        if self.process.is_some() {
            return Err(PumpkinError::ServerAlreadyRunning);
        }
        self.status = ServerStatus::Starting;
        self.last_error = None;
        let base = base_directory(self.config_path.as_str());
        let executable = resolve_path(base.as_str(), self.config.executable.as_str());
        let working_directory = resolve_path(base.as_str(), self.config.server_directory.as_str());
        let arguments = clone_strings(&self.config.arguments);
        Ok(LaunchPlan { executable, working_directory, arguments })
    }

    fn fail_start(&mut self, message: String)
        requires
            old(self).wf(),
        ensures
            final(self).wf(),
            final(self)@ == (ControllerView {
                status: ServerStatus::Failed,
                last_error: Some(message@),
                ..old(self)@
            }),
    {
        self.status = ServerStatus::Failed;
        self.last_error = Some(message);
    }

    /// Takes note of how the launch of `plan` ended. A failure marks the
    /// server `Failed`, records the failure as the last error and is
    /// returned; a spawned process becomes the tracked and active one, the
    /// server `Running`, and a line announcing it joins the log.
    pub fn complete_start(&mut self, plan: &LaunchPlan, outcome: LaunchOutcome) -> (r: Result<
        (),
        PumpkinError,
    >)
        requires
            old(self).wf(),
        ensures
            final(self).wf(),
            r is Ok <==> outcome is Spawned,
            match outcome {
                LaunchOutcome::ExecutableUnavailable(e) => {
                    &&& r == Err::<(), PumpkinError>(e)
                    &&& final(self)@ == (ControllerView {
                        status: ServerStatus::Failed,
                        last_error: Some(error_text(e)),
                        ..old(self)@
                    })
                },
                LaunchOutcome::WorkingDirectoryMissing => {
                    &&& r matches Err(PumpkinError::MissingWorkingDirectory(d))
                    &&& d@ == plan.working_directory@
                    &&& final(self)@ == (ControllerView {
                        status: ServerStatus::Failed,
                        last_error: Some("missing working directory: "@ + plan.working_directory@),
                        ..old(self)@
                    })
                },
                LaunchOutcome::SpawnFailed(m) => {
                    &&& r matches Err(PumpkinError::StartFailed(x))
                    &&& x@ == m@
                    &&& final(self)@ == (ControllerView {
                        status: ServerStatus::Failed,
                        last_error: Some(m@),
                        ..old(self)@
                    })
                },
                LaunchOutcome::StdinUnavailable => {
                    &&& r matches Err(PumpkinError::StartFailed(x))
                    &&& x@ == "stdin pipe unavailable"@
                    &&& final(self)@ == (ControllerView {
                        status: ServerStatus::Failed,
                        last_error: Some("stdin pipe unavailable"@),
                        ..old(self)@
                    })
                },
                LaunchOutcome::Spawned(pid) => {
                    let line = final(self)@.logs.last();
                    &&& r is Ok
                    &&& line.stream == ServerStream::Stdout
                    &&& line.line@ == started_line_text(pid)
                    &&& final(self)@ == (ControllerView {
                        status: ServerStatus::Running,
                        active_pid: Some(pid),
                        process: Some(pid),
                        logs: appended(old(self)@.logs, line),
                        ..old(self)@
                    })
                },
            },
    {
        match outcome {
            LaunchOutcome::ExecutableUnavailable(e) => {
                let message = e.message();
                self.fail_start(message);
                Err(e)
            },
            LaunchOutcome::WorkingDirectoryMissing => {
                let message = concat2(
                    "missing working directory: ",
                    plan.working_directory.as_str(),
                );
                self.fail_start(message);
                Err(PumpkinError::MissingWorkingDirectory(plan.working_directory.clone()))
            },
            LaunchOutcome::SpawnFailed(m) => {
                let message = m.clone();
                self.fail_start(message);
                Err(PumpkinError::StartFailed(m))
            },
            LaunchOutcome::StdinUnavailable => {
                self.fail_start(owned("stdin pipe unavailable"));
                Err(PumpkinError::StartFailed(owned("stdin pipe unavailable")))
            },
            LaunchOutcome::Spawned(pid) => {
                self.status = ServerStatus::Running;
                self.active_pid = Some(pid);
                self.process = Some(pid);
                let digits = decimal_string(pid);
                let text = concat3("process ", digits.as_str(), " started");
                let line = ServerLogLine { stream: ServerStream::Stdout, line: text };
                let ghost before = self.logs@;
                self.logs.push_back(line);
                trim_logs(&mut self.logs);
                proof {
                    let pushed = before.push(line);
                    assert(self.logs@ == newest(pushed, LOG_LIMIT as nat));
                    assert(self.logs@.last() == pushed.last());
                }
                Ok(())
            },
        }
    }

    /// Begins a stop. Refused with `ServerNotRunning`, changing nothing, where
    /// no process is tracked; otherwise the process is no longer tracked, the
    /// status becomes `Stopping`, the last error is cleared, and the id of the
    /// process to stop is returned.
    pub fn stop(&mut self) -> (r: Result<StopRequest, PumpkinError>)
        requires
            old(self).wf(),
        ensures
            final(self).wf(),
            final(self)@ == stopped(old(self)@),
            match old(self)@.process {
                None => r matches Err(e) && e is ServerNotRunning,
                Some(pid) => r matches Ok(req) && req.pid == pid && req.input@ == stop_input_text(),
            },
    {
        match self.process.take() {
            None => Err(PumpkinError::ServerNotRunning),
            Some(pid) => {
                self.status = ServerStatus::Stopping;
                self.last_error = None;
                proof {
                    reveal_strlit("stop\n");
                }
                Ok(StopRequest { pid, input: owned("stop\n") })
            },
        }
    }

    /// Takes note that the stop of process `pid` completed; where that
    /// process is still the active one the server is `Stopped`.
    pub fn stop_finished(&mut self, pid: u32)
        requires
            old(self).wf(),
        ensures
            final(self).wf(),
            final(self)@ == stop_completed(old(self)@, pid),
    {
        if self.active_pid == Some(pid) {
            self.status = ServerStatus::Stopped;
            self.active_pid = None;
            self.last_error = None;
        }
    }

    /// The text to write to the server's input for `command`. Refused with
    /// `ServerNotRunning` where no process is tracked.
    pub fn send_command(&self, command: &str) -> (r: Result<String, PumpkinError>)
        ensures
            self@.process is None <==> r is Err,
            r matches Err(e) ==> e is ServerNotRunning,
            r matches Ok(text) ==> text@ == command_text(command@),
    {
        if self.process.is_none() {
            return Err(PumpkinError::ServerNotRunning);
        }
        if ends_with_char(command, '\n') {
            Ok(owned(command))
        } else {
            proof {
                reveal_strlit("\n");
            }
            Ok(concat2(command, "\n"))
        }
    }

    /// Takes note of whether the tracked process still runs (`running`):
    /// if so the server is `Running` with that process active, else it is
    /// `Stopped` and nothing is tracked. Without a tracked process nothing
    /// changes.
    pub fn refresh(&mut self, running: bool)
        requires
            old(self).wf(),
        ensures
            final(self).wf(),
            final(self)@ == refreshed(old(self)@, running),
    {
        match self.process {
            None => {},
            Some(pid) => {
                if running {
                    self.status = ServerStatus::Running;
                    self.active_pid = Some(pid);
                } else {
                    self.status = ServerStatus::Stopped;
                    self.active_pid = None;
                    self.process = None;
                }
            },
        }
    }

    /// Takes a line that process `pid` wrote on `stream`. Where `pid` is the
    /// active process the line joins the log, the oldest lines giving way
    /// beyond `LOG_LIMIT`, and `true` is returned; otherwise nothing changes
    /// and `false` says that the output of `pid` is no longer wanted.
    pub fn record_output(&mut self, pid: u32, stream: ServerStream, line: String) -> (r: bool)
        requires
            old(self).wf(),
        ensures
            final(self).wf(),
            r == (old(self)@.active_pid == Some(pid)),
            final(self)@ == recorded(old(self)@, pid, ServerLogLine { stream, line }),
    {
        if self.active_pid != Some(pid) {
            return false;
        }
        self.logs.push_back(ServerLogLine { stream, line });
        trim_logs(&mut self.logs);
        true
    }

    /// Takes note that process `pid` has exited; where it is the active one,
    /// the server is `Stopped` and nothing is tracked any more.
    pub fn process_exited(&mut self, pid: u32)
        requires
            old(self).wf(),
        ensures
            final(self).wf(),
            final(self)@ == exited(old(self)@, pid),
    {
        if self.active_pid == Some(pid) {
            self.status = ServerStatus::Stopped;
            self.active_pid = None;
            self.process = None;
        }
    }
}

} // verus!

verus! {

/// A start is refused, and changes nothing, while a process is tracked.
pub proof fn law_start_refused_while_tracked(v: ControllerView)
    requires
        v.process is Some,
    ensures
        started(v) == v,
{
}

/// After a stop nothing is tracked, so a second stop is refused and changes
/// nothing, while a new start is accepted.
pub proof fn law_stop_then_stop_or_start(v: ControllerView)
    ensures
        stopped(v).process is None,
        stopped(stopped(v)) == stopped(v),
        started(stopped(v)).status == ServerStatus::Starting,
        started(stopped(v)).last_error is None,
{
}

/// Output, exits and completed stops of a process other than the active one
/// change nothing.
pub proof fn law_stale_events_ignored(v: ControllerView, pid: u32, line: ServerLogLine)
    requires
        v.active_pid != Some(pid),
    ensures
        recorded(v, pid, line) == v,
        exited(v, pid) == v,
        stop_completed(v, pid) == v,
{
}

/// Looking at the process changes nothing where none is tracked.
pub proof fn law_refresh_without_process(v: ControllerView, running: bool)
    requires
        v.process is None,
    ensures
        refreshed(v, running) == v,
{
}

/// A running server that is stopped, and whose stop then completes, ends
/// `Stopped` with no process and no error.
pub proof fn law_stop_then_complete(v: ControllerView, pid: u32)
    requires
        v.process == Some(pid),
        v.active_pid == Some(pid),
    ensures
        stop_completed(stopped(v), pid).status == ServerStatus::Stopped,
        stop_completed(stopped(v), pid).process is None,
        stop_completed(stopped(v), pid).active_pid is None,
        stop_completed(stopped(v), pid).last_error is None,
        stop_completed(stopped(v), pid).logs == v.logs,
{
}

/// Every change of state keeps the log within `LOG_LIMIT` lines, an active
/// process for a running server and none for a stopped one.
pub proof fn law_state_stays_ok(
    v: ControllerView,
    pid: u32,
    line: ServerLogLine,
    running: bool,
)
    requires
        controller_ok(v),
    ensures
        controller_ok(started(v)),
        controller_ok(stopped(v)),
        controller_ok(stop_completed(v, pid)),
        controller_ok(exited(v, pid)),
        controller_ok(recorded(v, pid, line)),
        controller_ok(refreshed(v, running)),
{
}

/// Adding a line keeps the newest lines in their order, the new one last:
/// all of them while there are fewer than `LOG_LIMIT`, else the newest
/// `LOG_LIMIT`.
pub proof fn law_log_keeps_newest(logs: Seq<ServerLogLine>, line: ServerLogLine)
    ensures
        appended(logs, line).len() == if logs.len() + 1 <= LOG_LIMIT {
            logs.len() + 1
        } else {
            LOG_LIMIT as nat
        },
        appended(logs, line).last() == line,
        logs.len() < LOG_LIMIT ==> appended(logs, line) == logs.push(line),
        forall|i: int|
            0 <= i < appended(logs, line).len() ==> #[trigger] appended(logs, line)[i] == logs.push(
                line,
            )[logs.len() + 1 - appended(logs, line).len() + i],
{
}

/// The text sent for a command always ends the line, keeps the command in
/// front, and is left alone when sent again.
pub proof fn law_command_text(command: Seq<char>)
    ensures
        command_text(command).len() > 0,
        command_text(command).last() == '\n',
        command_text(command).take(command.len() as int) == command,
        command_text(command_text(command)) == command_text(command),
{
    reveal_strlit("\n");
    assert(command_text(command).take(command.len() as int) =~= command);
}

/// Whether the tracked process, if any, is the active one.
pub open spec fn tracked_is_active(v: ControllerView) -> bool {
    v.process matches Some(p) ==> v.active_pid == Some(p)
}

/// A tracked process stays the active one through every change of state,
/// except a completed stop of a process whose id the tracked one has taken
/// over: that clears the active process while the new one stays tracked.
pub proof fn law_tracked_process_is_active(
    v: ControllerView,
    pid: u32,
    line: ServerLogLine,
    running: bool,
)
    requires
        tracked_is_active(v),
    ensures
        tracked_is_active(started(v)),
        tracked_is_active(stopped(v)),
        tracked_is_active(exited(v, pid)),
        tracked_is_active(recorded(v, pid, line)),
        tracked_is_active(refreshed(v, running)),
        v.process != Some(pid) ==> tracked_is_active(stop_completed(v, pid)),
{
}

/// In every state the controller can be in, a running server reports an
/// active process and a stopped one reports none.
pub proof fn law_status_matches_process(v: ControllerView)
    requires
        controller_ok(v),
    ensures
        v.status == ServerStatus::Running ==> v.active_pid is Some,
        v.status == ServerStatus::Stopped ==> v.active_pid is None,
{
}

/// Output of the active process joins the log, newest last, whether or not
/// the process is still tracked (a stopping server's last words are kept):
/// the log grows by one line up to `LOG_LIMIT`, the lines before the new one
/// are the newest of the old log, and nothing else changes.
pub proof fn law_active_output_is_logged(v: ControllerView, pid: u32, line: ServerLogLine)
    requires
        v.active_pid == Some(pid),
    ensures
        recorded(v, pid, line).logs.last() == line,
        recorded(v, pid, line).logs.len() == if v.logs.len() + 1 <= LOG_LIMIT {
            v.logs.len() + 1
        } else {
            LOG_LIMIT as nat
        },
        recorded(v, pid, line).logs.drop_last() == v.logs.skip(
            v.logs.len() - (recorded(v, pid, line).logs.len() - 1),
        ),
        recorded(v, pid, line).status == v.status,
        recorded(v, pid, line).process == v.process,
        recorded(v, pid, line).active_pid == v.active_pid,
        recorded(v, pid, line).last_error == v.last_error,
        recorded(v, pid, line).config == v.config,
        recorded(v, pid, line).config_path == v.config_path,
{
    let r = recorded(v, pid, line).logs;
    assert(r.drop_last() =~= v.logs.skip(v.logs.len() - (r.len() - 1)));
}

/// When the active process exits the server is `Stopped` with no process
/// active or tracked, whether or not a stop was under way; the log, the
/// last error and the configuration stay as they were.
pub proof fn law_active_exit_stops(v: ControllerView, pid: u32)
    requires
        v.active_pid == Some(pid),
    ensures
        exited(v, pid).status == ServerStatus::Stopped,
        exited(v, pid).active_pid is None,
        exited(v, pid).process is None,
        exited(v, pid).logs == v.logs,
        exited(v, pid).last_error == v.last_error,
        exited(v, pid).config == v.config,
        exited(v, pid).config_path == v.config_path,
{
}

/// A start that is not refused makes the server `Starting` and clears the
/// last error; the process, the log and the configuration stay.
pub proof fn law_start_effect(v: ControllerView)
    requires
        v.process is None,
    ensures
        started(v).status == ServerStatus::Starting,
        started(v).last_error is None,
        started(v).process is None,
        started(v).active_pid == v.active_pid,
        started(v).logs == v.logs,
        started(v).config == v.config,
        started(v).config_path == v.config_path,
{
}

/// A stop that is not refused makes the server `Stopping`, no longer tracks
/// the process and clears the last error; the process stays active until
/// its stop completes, and the log and configuration stay.
pub proof fn law_stop_effect(v: ControllerView)
    requires
        v.process is Some,
    ensures
        stopped(v).status == ServerStatus::Stopping,
        stopped(v).process is None,
        stopped(v).last_error is None,
        stopped(v).active_pid == v.active_pid,
        stopped(v).logs == v.logs,
        stopped(v).config == v.config,
        stopped(v).config_path == v.config_path,
{
}

/// A completed stop of the active process leaves the server `Stopped` with
/// no active process and no error; the log and configuration stay.
pub proof fn law_stop_completed_effect(v: ControllerView, pid: u32)
    requires
        v.active_pid == Some(pid),
    ensures
        stop_completed(v, pid).status == ServerStatus::Stopped,
        stop_completed(v, pid).active_pid is None,
        stop_completed(v, pid).last_error is None,
        stop_completed(v, pid).process == v.process,
        stop_completed(v, pid).logs == v.logs,
        stop_completed(v, pid).config == v.config,
{
}

/// A look at the tracked process makes the server `Running` with that
/// process active where it runs, and `Stopped` with nothing active or
/// tracked where it does not; the log, error and configuration stay.
pub proof fn law_refresh_effect(v: ControllerView, pid: u32, running: bool)
    requires
        v.process == Some(pid),
    ensures
        running ==> refreshed(v, running).status == ServerStatus::Running,
        running ==> refreshed(v, running).active_pid == Some(pid),
        running ==> refreshed(v, running).process == Some(pid),
        !running ==> refreshed(v, running).status == ServerStatus::Stopped,
        !running ==> refreshed(v, running).active_pid is None,
        !running ==> refreshed(v, running).process is None,
        refreshed(v, running).logs == v.logs,
        refreshed(v, running).last_error == v.last_error,
        refreshed(v, running).config == v.config,
{
}

/// The line announcing a started process reads `process `, then the
/// decimal digits that denote its id, then ` started`.
pub proof fn law_started_line(pid: u32)
    ensures
        started_line_text(pid).take(8) == "process "@,
        started_line_text(pid).skip(started_line_text(pid).len() - 8) == " started"@,
        all_digits(started_line_text(pid).subrange(8, started_line_text(pid).len() - 8)),
        digits_value(started_line_text(pid).subrange(8, started_line_text(pid).len() - 8))
            == pid as int,
{
    reveal_strlit("process ");
    reveal_strlit(" started");
    law_decimal_denotes(pid as nat);
    let t = started_line_text(pid);
    let d = decimal(pid as nat);
    assert(t.take(8) =~= "process "@);
    assert(t.skip(t.len() - 8) =~= " started"@);
    assert(t.subrange(8, t.len() - 8) =~= d);
}

/// The text written to ask the server to stop is the `stop` command as
/// `send_command` would write it.
pub proof fn law_stop_input_is_stop_command()
    ensures
        stop_input_text() == command_text("stop"@),
{
    reveal_strlit("stop");
    reveal_strlit("stop\n");
    reveal_strlit("\n");
    assert("stop"@ + "\n"@ =~= "stop\n"@);
}

} // verus!
