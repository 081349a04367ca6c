//! The state of the control panel and how it follows the controller.
//!
//! The window, its widgets and the worker threads belong to the caller; this
//! type holds what the panel shows and decides how it changes on each event.
use vstd::prelude::*;

use crate::model::pumpkin_config::{ConfigView, PumpkinConfig};
use crate::model::server_log_line::ServerLogLine;
use crate::model::server_snapshot::ServerSnapshot;
use crate::model::server_status::{status_label, ServerStatus};
use crate::server::controller::opt_view;
use crate::text::{
    concat3, decimal, decimal_string, law_trim_keeps_bare_text, no_outer_space, owned, trim, trimmed,
};
use crate::words::{
    is_word, join_with_spaces, joined_words, lemma_words_of_joined, split_words, views, words,
};

verus! {

/// The text shown for a status: its label, and the process id after it
/// where there is one.
pub open spec fn status_text(status: ServerStatus, pid: Option<u32>) -> Seq<char> {
    match pid {
        Some(p) => status_label(status) + " \u{b7} pid "@ + decimal(p as nat),
        None => status_label(status),
    }
}

/// The text of a status badge: the label, and `extra` after a dot where given.
pub open spec fn badge_text(status: ServerStatus, extra: Option<Seq<char>>) -> Seq<char> {
    match extra {
        Some(x) => status_label(status) + " \u{b7} "@ + x,
        None => status_label(status),
    }
}

/// The status text starts with the label of the given status; without a
/// process it is just that label, with one the label is followed by
/// ` · pid ` and the decimal notation of the id.
pub proof fn law_status_text_starts_with_label(status: ServerStatus, pid: Option<u32>)
    ensures
        status_text(status, pid).len() >= status_label(status).len(),
        status_text(status, pid).take(status_label(status).len() as int) == status_label(status),
        pid is None ==> status_text(status, pid) == status_label(status),
        pid matches Some(p) ==> status_text(status, pid).skip(status_label(status).len() as int)
            == " \u{b7} pid "@ + decimal(p as nat),
{
    let l = status_label(status);
    let t = status_text(status, pid);
    assert(t.take(l.len() as int) =~= l);
    if let Some(p) = pid {
        assert(t.skip(l.len() as int) =~= " \u{b7} pid "@ + decimal(p as nat));
    } else {
        assert(t =~= l);
    }
}

/// A badge starts with the label of its status, followed by ` · ` and the
/// extra text where there is one.
pub proof fn law_badge_text_starts_with_label(status: ServerStatus, extra: Option<Seq<char>>)
    ensures
        badge_text(status, extra).take(status_label(status).len() as int) == status_label(status),
        extra is None ==> badge_text(status, extra) == status_label(status),
        extra matches Some(x) ==> badge_text(status, extra).skip(status_label(status).len() as int)
            == " \u{b7} "@ + x,
{
    let l = status_label(status);
    let t = badge_text(status, extra);
    assert(t.take(l.len() as int) =~= l);
    if let Some(x) = extra {
        assert(t.skip(l.len() as int) =~= " \u{b7} "@ + x);
    }
}

/// The text of a status badge for `status`, with `extra` after a dot.
pub fn badge_label(status: ServerStatus, extra: Option<&str>) -> (r: String)
    ensures
        r@ == badge_text(
            status,
            match extra {
                Some(x) => Some(x@),
                None => None,
            },
        ),
{
    match extra {
        Some(x) => concat3(status.label(), " \u{b7} ", x),
        None => owned(status.label()),
    }
}

/// The text of a status with the process id, as the panel shows it.
pub fn status_line(status: ServerStatus, pid: Option<u32>) -> (r: String)
    ensures
        r@ == status_text(status, pid),
{
    match pid {
        Some(p) => {
            let digits = decimal_string(p);
            concat3(status.label(), " \u{b7} pid ", digits.as_str())
        },
        None => owned(status.label()),
    }
}

/// The whitespace-separated arguments typed into the arguments field.
pub fn parse_arguments(input: &str) -> (r: Vec<String>)
    ensures
        views(r@) == words(input@),
{
    split_words(input)
}

/// The texts of the three fields of the panel for `config`: the server
/// directory, the executable, and the arguments joined by single spaces.
pub fn fields_of_config(config: &PumpkinConfig) -> (r: (String, String, String))
    ensures
        r.0@ == config@.server_directory,
        r.1@ == config@.executable,
        r.2@ == joined_words(config@.arguments),
{
    (config.server_directory.clone(), config.executable.clone(), join_with_spaces(&config.arguments))
}

/// The configuration that the texts of the three fields describe: the paths
/// trimmed of surrounding whitespace, the arguments split at whitespace.
pub open spec fn config_of_fields(
    server_directory: Seq<char>,
    executable: Seq<char>,
    arguments: Seq<char>,
) -> ConfigView {
    ConfigView {
        server_directory: trimmed(server_directory),
        executable: trimmed(executable),
        arguments: words(arguments),
    }
}

/// Showing a configuration in the fields and reading the fields back gives
/// the same configuration, where its paths have no surrounding whitespace
/// and each of its arguments is a word.
pub proof fn law_fields_round_trip(c: ConfigView)
    requires
        no_outer_space(c.server_directory),
        no_outer_space(c.executable),
        forall|i: int| 0 <= i < c.arguments.len() ==> is_word(#[trigger] c.arguments[i]),
    ensures
        config_of_fields(c.server_directory, c.executable, joined_words(c.arguments)) == c,
{
    law_trim_keeps_bare_text(c.server_directory);
    law_trim_keeps_bare_text(c.executable);
    lemma_words_of_joined(c.arguments);
}

/// The state of the control panel as plain values.
pub struct AppStateView {
    pub logs: Seq<ServerLogLine>,
    pub status_message: Seq<char>,
    pub error_message: Option<Seq<char>>,
    pub config_error_message: Option<Seq<char>>,
    pub refresh_worker_started: bool,
    pub start_pending: bool,
}

/// What the control panel shows, and what it waits for.
#[derive(Debug)]
pub struct AppState {
    pub logs: Vec<ServerLogLine>,
    pub status_message: String,
    pub error_message: Option<String>,
    config_error_message: Option<String>,
    refresh_worker_started: bool,
    start_pending: bool,
}

impl View for AppState {
    type V = AppStateView;

    closed spec fn view(&self) -> AppStateView {
        AppStateView {
            logs: self.logs@,
            status_message: self.status_message@,
            error_message: opt_view(self.error_message),
            config_error_message: opt_view(self.config_error_message),
            refresh_worker_started: self.refresh_worker_started,
            start_pending: self.start_pending,
        }
    }
}

fn clone_opt(o: &Option<String>) -> (r: Option<String>)
    ensures
        opt_view(r) == opt_view(*o),
{
    match o {
        Some(s) => Some(s.clone()),
        None => None,
    }
}

impl AppState {
    /// The panel as it opens, given the error that loading the
    /// configuration gave, if any: the status reads `Stopped`, or
    /// `Config load failed` with that error shown.
    pub fn new(config_error: Option<String>) -> (r: Self)
        ensures
            r@ == (AppStateView {
                logs: Seq::empty(),
                status_message: if config_error is Some {
                    "Config load failed"@
                } else {
                    status_label(ServerStatus::Stopped)
                },
                error_message: opt_view(config_error),
                config_error_message: opt_view(config_error),
                refresh_worker_started: false,
                start_pending: false,
            }),
    {
        let status_message = if config_error.is_some() {
            owned("Config load failed")
        } else {
            owned(ServerStatus::Stopped.label())
        };
        AppState {
            logs: Vec::new(),
            status_message,
            error_message: clone_opt(&config_error),
            config_error_message: config_error,
            refresh_worker_started: false,
            start_pending: false,
        }
    }

    /// The configuration that the three fields describe: the paths trimmed
    /// of surrounding whitespace, the arguments split at whitespace.
    pub fn load_config_from_fields(server_directory: &str, executable: &str, arguments: &str) -> (r:
        PumpkinConfig)
        ensures
            r@ == config_of_fields(server_directory@, executable@, arguments@),
    {
        let arguments = parse_arguments(arguments);
        PumpkinConfig { server_directory: trim(server_directory), executable: trim(executable), arguments }
    }

    fn apply_snapshot(&mut self, snapshot: ServerSnapshot)
        ensures
            final(self)@ == (AppStateView {
                status_message: status_text(snapshot.status, snapshot.process_id),
                error_message: opt_view(snapshot.last_error),
                ..old(self)@
            }),
    {
        self.status_message = status_line(snapshot.status, snapshot.process_id);
        self.error_message = snapshot.last_error;
    }

    /// Shows what the controller reports: its status and process, its last
    /// error (or else the error of loading the configuration), and its log.
    pub fn refresh_runtime(&mut self, snapshot: ServerSnapshot, logs: Vec<ServerLogLine>)
        ensures
            final(self)@ == (AppStateView {
                status_message: status_text(snapshot.status, snapshot.process_id),
                error_message: if snapshot.last_error is Some {
                    opt_view(snapshot.last_error)
                } else {
                    old(self)@.config_error_message
                },
                logs: logs@,
                ..old(self)@
            }),
    {
        self.apply_snapshot(snapshot);
        if self.error_message.is_none() {
            self.error_message = clone_opt(&self.config_error_message);
        }
        self.logs = logs;
    }

    /// Takes note of how a background start ended: the start is no longer
    /// pending, and the panel then shows what the controller reports, whose
    /// last error (or else the error of loading the configuration) takes the
    /// place of the error that the start returned.
    pub fn start_finished(
        &mut self,
        result: Result<(), String>,
        snapshot: ServerSnapshot,
        logs: Vec<ServerLogLine>,
    )
        ensures
            final(self)@ == (AppStateView {
                status_message: status_text(snapshot.status, snapshot.process_id),
                error_message: if snapshot.last_error is Some {
                    opt_view(snapshot.last_error)
                } else {
                    old(self)@.config_error_message
                },
                logs: logs@,
                start_pending: false,
                ..old(self)@
            }),
    {
        self.start_pending = false;
        if let Err(error) = result {
            self.error_message = Some(error);
        }
        self.refresh_runtime(snapshot, logs);
    }

    /// Takes note of how saving the configuration went: on success the
    /// errors are cleared and `Config saved` shown, else the error is shown
    /// with `Save failed`.
    pub fn config_saved(&mut self, result: Result<(), String>)
        ensures
            match result {
                Ok(()) => final(self)@ == (AppStateView {
                    error_message: None,
                    config_error_message: None,
                    status_message: "Config saved"@,
                    ..old(self)@
                }),
                Err(e) => final(self)@ == (AppStateView {
                    error_message: Some(e@),
                    status_message: "Save failed"@,
                    ..old(self)@
                }),
            },
    {
        match result {
            Ok(()) => {
                self.error_message = None;
                self.config_error_message = None;
                self.status_message = owned("Config saved");
            },
            Err(error) => {
                self.error_message = Some(error);
                self.status_message = owned("Save failed");
            },
        }
    }

    /// Whether a start is to be launched: not while one is pending; else the
    /// start becomes pending, the error is cleared and `Starting` shown.
    pub fn start_server(&mut self) -> (r: bool)
        ensures
            r == !old(self)@.start_pending,
            old(self)@.start_pending ==> final(self)@ == old(self)@,
            !old(self)@.start_pending ==> final(self)@ == (AppStateView {
                start_pending: true,
                error_message: None,
                status_message: status_label(ServerStatus::Starting),
                ..old(self)@
            }),
    {
        if self.start_pending {
            return false;
        }
        self.start_pending = true;
        self.error_message = None;
        self.status_message = owned(ServerStatus::Starting.label());
        true
    }

    /// Takes note of how a stop request went: on success the error is
    /// cleared and `Stopping` shown, else the error is shown with `Failed`.
    /// The result says whether the stop went through.
    pub fn stop_server(&mut self, result: Result<(), String>) -> (r: bool)
        ensures
            r == result is Ok,
            match result {
                Ok(()) => final(self)@ == (AppStateView {
                    error_message: None,
                    status_message: status_label(ServerStatus::Stopping),
                    ..old(self)@
                }),
                Err(e) => final(self)@ == (AppStateView {
                    error_message: Some(e@),
                    status_message: status_label(ServerStatus::Failed),
                    ..old(self)@
                }),
            },
    {
        match result {
            Ok(()) => {
                self.error_message = None;
                self.status_message = owned(ServerStatus::Stopping.label());
                true
            },
            Err(error) => {
                self.error_message = Some(error);
                self.status_message = owned(ServerStatus::Failed.label());
                false
            },
        }
    }

    /// Whether the periodic refresh is to be started: only the first time.
    pub fn start_refresh_worker(&mut self) -> (r: bool)
        ensures
            r == !old(self)@.refresh_worker_started,
            final(self)@ == (AppStateView { refresh_worker_started: true, ..old(self)@ }),
    {
        if self.refresh_worker_started {
            return false;
        }
        self.refresh_worker_started = true;
        true
    }
}

} // verus!
