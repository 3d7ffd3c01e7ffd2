//! One command invocation: the engine call it makes, and the reply it sends
//! once that call has returned.
use vstd::prelude::*;

use crate::engine::{known_statuses, minecraft_containers, ContainerSummary};
use crate::registry::ValidContainers;
use crate::reply::{
    is_status_embed, logs_reply, logs_text, start_reply, start_text, status_embed, stop_reply,
    stop_text, texts, StatusEmbed, LOG_TAIL,
};

verus! {

/// A slash command with its argument.
#[derive(Clone, Copy, Debug, PartialEq, Eq, Structural)]
pub enum Command {
    Status,
    Start(ValidContainers),
    Stop(ValidContainers),
    Logs(ValidContainers),
}

/// A call into the container engine.
#[derive(Clone, Copy, Debug, PartialEq, Eq, Structural)]
pub enum EngineRequest {
    /// List every container, stopped ones included when `all` holds.
    ListContainers { all: bool },
    /// Start the container.
    StartContainer { container: ValidContainers },
    /// Stop the container.
    StopContainer { container: ValidContainers },
    /// The last `tail` lines of the chosen streams.
    FetchLogs {
        container: ValidContainers,
        stdout: bool,
        stderr: bool,
        timestamps: bool,
        tail: usize,
    },
}

/// What an engine call returned, where it did not fail outright.
#[derive(Clone, Debug, PartialEq, Eq)]
pub enum EngineResponse {
    /// The containers listed.
    Listed(Vec<ContainerSummary>),
    /// Whether a start or a stop succeeded.
    Done(bool),
    /// The log lines fetched, oldest first.
    LogLines(Vec<String>),
}

/// A message sent back to the chat.
#[derive(Clone, Debug, PartialEq, Eq)]
pub enum Reply {
    /// A titled field list.
    Embed(StatusEmbed),
    /// Plain text.
    Text(String),
}

/// The engine call that command `cmd` makes.
pub open spec fn request_of(cmd: Command) -> EngineRequest {
    match cmd {
        Command::Status => EngineRequest::ListContainers { all: true },
        Command::Start(c) => EngineRequest::StartContainer { container: c },
        Command::Stop(c) => EngineRequest::StopContainer { container: c },
        Command::Logs(c) => EngineRequest::FetchLogs {
            container: c,
            stdout: true,
            stderr: true,
            timestamps: false,
            tail: LOG_TAIL,
        },
    }
}

/// `r` is the reply of `cmd` to `resp`: none where the response is not of the
/// kind that the command's engine call returns.
pub open spec fn is_reply(cmd: Command, resp: EngineResponse, r: Option<Reply>) -> bool {
    match (cmd, resp) {
        (Command::Status, EngineResponse::Listed(cs)) => {
            r matches Some(Reply::Embed(e)) && is_status_embed(e, known_statuses(cs@))
        },
        (Command::Start(c), EngineResponse::Done(ok)) => {
            r matches Some(Reply::Text(t)) && t@ == start_text(c, ok)
        },
        (Command::Stop(c), EngineResponse::Done(ok)) => {
            r matches Some(Reply::Text(t)) && t@ == stop_text(c, ok)
        },
        (Command::Logs(_), EngineResponse::LogLines(lines)) => {
            r matches Some(Reply::Text(t)) && t@ == logs_text(texts(lines@))
        },
        _ => r is None,
    }
}

impl Command {
    /// The operation's name, as recorded when the command is invoked.
    pub fn operation(&self) -> (r: &'static str)
        ensures
            r@ == match *self {
                Command::Status => "status"@,
                Command::Start(_) => "start"@,
                Command::Stop(_) => "stop"@,
                Command::Logs(_) => "logs"@,
            },
    {
        match self {
            Command::Status => "status",
            Command::Start(_) => "start",
            Command::Stop(_) => "stop",
            Command::Logs(_) => "logs",
        }
    }

    /// The container the command acts on, if it takes one.
    pub fn target(&self) -> (r: Option<ValidContainers>)
        ensures
            r == match *self {
                Command::Status => None,
                Command::Start(c) | Command::Stop(c) | Command::Logs(c) => Some(c),
            },
    {
        match self {
            Command::Status => None,
            Command::Start(c) | Command::Stop(c) | Command::Logs(c) => Some(*c),
        }
    }

    /// The engine call this command makes.
    pub fn engine_request(&self) -> (r: EngineRequest)
        ensures
            r == request_of(*self),
    {
        match self {
            Command::Status => EngineRequest::ListContainers { all: true },
            Command::Start(c) => EngineRequest::StartContainer { container: *c },
            Command::Stop(c) => EngineRequest::StopContainer { container: *c },
            Command::Logs(c) => EngineRequest::FetchLogs {
                container: *c,
                stdout: true,
                stderr: true,
                timestamps: false,
                tail: LOG_TAIL,
            },
        }
    }

    /// The reply to send once the engine call returned `resp`.
    pub fn reply(&self, resp: EngineResponse) -> (r: Option<Reply>)
        ensures
            is_reply(*self, resp, r),
    {
        match (self, resp) {
            (Command::Status, EngineResponse::Listed(cs)) => {
                let table = minecraft_containers(&cs);
                Some(Reply::Embed(status_embed(&table)))
            },
            (Command::Start(c), EngineResponse::Done(ok)) => Some(Reply::Text(start_reply(*c, ok))),
            (Command::Stop(c), EngineResponse::Done(ok)) => Some(Reply::Text(stop_reply(*c, ok))),
            (Command::Logs(_), EngineResponse::LogLines(lines)) => {
                Some(Reply::Text(logs_reply(&lines)))
            },
            _ => None,
        }
    }
}

} // verus!
