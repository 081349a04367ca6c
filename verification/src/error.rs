use vstd::prelude::*;

use crate::text::concat2;

verus! {

/// What can go wrong in this crate. The payloads are the messages or paths
/// that the message of each error shows.
#[derive(Debug)]
pub enum PumpkinError {
    Io(String),
    TomlDeserialize(String),
    TomlSerialize(String),
    ConfigNotFound(String),
    ServerAlreadyRunning,
    ServerNotRunning,
    MissingExecutable(String),
    MissingWorkingDirectory(String),
    StartFailed(String),
    StopFailed(String),
    InvalidConfig(String),
}

/// The text that describes an error.
pub open spec fn error_text(e: PumpkinError) -> Seq<char> {
    match e {
        PumpkinError::Io(m) => "io error: "@ + m@,
        PumpkinError::TomlDeserialize(m) => "toml deserialize error: "@ + m@,
        PumpkinError::TomlSerialize(m) => "toml serialize error: "@ + m@,
        PumpkinError::ConfigNotFound(p) => "configuration file not found: "@ + p@,
        PumpkinError::ServerAlreadyRunning => "server is already running"@,
        PumpkinError::ServerNotRunning => "server is not running"@,
        PumpkinError::MissingExecutable(p) => "server executable is missing: "@ + p@,
        PumpkinError::MissingWorkingDirectory(p) => "server working directory is missing: "@ + p@,
        PumpkinError::StartFailed(m) => "failed to start server: "@ + m@,
        PumpkinError::StopFailed(m) => "failed to stop server: "@ + m@,
        PumpkinError::InvalidConfig(m) => "invalid configuration: "@ + m@,
    }
}

impl PumpkinError {
    /// The text that describes this error, as it is shown to the user.
    pub fn message(&self) -> (r: String)
        ensures
            r@ == error_text(*self),
    {
        match self {
            PumpkinError::Io(m) => concat2("io error: ", m.as_str()),
            PumpkinError::TomlDeserialize(m) => concat2("toml deserialize error: ", m.as_str()),
            PumpkinError::TomlSerialize(m) => concat2("toml serialize error: ", m.as_str()),
            PumpkinError::ConfigNotFound(p) => concat2("configuration file not found: ", p.as_str()),
            PumpkinError::ServerAlreadyRunning => String::from_str("server is already running"),
            PumpkinError::ServerNotRunning => String::from_str("server is not running"),
            PumpkinError::MissingExecutable(p) => concat2(
                "server executable is missing: ",
                p.as_str(),
            ),
            PumpkinError::MissingWorkingDirectory(p) => concat2(
                "server working directory is missing: ",
                p.as_str(),
            ),
            PumpkinError::StartFailed(m) => concat2("failed to start server: ", m.as_str()),
            PumpkinError::StopFailed(m) => concat2("failed to stop server: ", m.as_str()),
            PumpkinError::InvalidConfig(m) => concat2("invalid configuration: ", m.as_str()),
        }
    }
}

/// The message of an error that carries a message or path ends with it.
pub proof fn law_error_text_ends_with_payload(e: PumpkinError)
    ensures
        match e {
            PumpkinError::Io(m) | PumpkinError::TomlDeserialize(m) | PumpkinError::TomlSerialize(m)
            | PumpkinError::ConfigNotFound(m) | PumpkinError::MissingExecutable(m)
            | PumpkinError::MissingWorkingDirectory(m) | PumpkinError::StartFailed(m)
            | PumpkinError::StopFailed(m) | PumpkinError::InvalidConfig(m) => {
                &&& error_text(e).len() > m@.len()
                &&& error_text(e).skip(error_text(e).len() - m@.len()) == m@
            },
            _ => error_text(e).len() > 0,
        },
{
    let t = error_text(e);
    match e {
        PumpkinError::Io(m) | PumpkinError::TomlDeserialize(m) | PumpkinError::TomlSerialize(m)
        | PumpkinError::ConfigNotFound(m) | PumpkinError::MissingExecutable(m)
        | PumpkinError::MissingWorkingDirectory(m) | PumpkinError::StartFailed(m)
        | PumpkinError::StopFailed(m) | PumpkinError::InvalidConfig(m) => {
            reveal_strlit("io error: ");
            reveal_strlit("toml deserialize error: ");
            reveal_strlit("toml serialize error: ");
            reveal_strlit("configuration file not found: ");
            reveal_strlit("server executable is missing: ");
            reveal_strlit("server working directory is missing: ");
            reveal_strlit("failed to start server: ");
            reveal_strlit("failed to stop server: ");
            reveal_strlit("invalid configuration: ");
            assert(t.skip(t.len() - m@.len()) =~= m@);
        },
        _ => {
            reveal_strlit("server is already running");
            reveal_strlit("server is not running");
        },
    }
}

} // verus!
