//! Errors and plain data shared by the client's parts.

use vstd::prelude::*;
use vstd::string::StringExecFns;
use crate::theater::text::{decimal, decimal_text};

verus! {

/// Errors of a Theater client.
#[derive(Clone, Debug, PartialEq, Eq)]
pub enum TheaterError {
    /// The server reported an error of its own.
    ServerError(String),
    /// The connection could not be established or was lost.
    ConnectionError(String),
    /// A value could not be written as, or read from, its wire form.
    SerializationError(String),
    /// No actor has the given identifier.
    ActorNotFound(String),
    /// No channel has the given identifier.
    ChannelNotFound(String),
}

impl TheaterError {
    /// The error as a line of text.
    pub open spec fn text(self) -> Seq<char> {
        match self {
            TheaterError::ServerError(detail) => "Theater server error: "@ + detail@,
            TheaterError::ConnectionError(detail) => "Theater connection error: "@ + detail@,
            TheaterError::SerializationError(detail) => "Serialization error: "@ + detail@,
            TheaterError::ActorNotFound(detail) => "Actor not found: "@ + detail@,
            TheaterError::ChannelNotFound(detail) => "Channel not found: "@ + detail@,
        }
    }

    /// The error as a line of text.
    pub fn message(&self) -> (text: String)
        ensures
            text@ == self.text(),
    {
        match self {
            TheaterError::ServerError(detail) => String::from_str("Theater server error: ").concat(
                detail.as_str(),
            ),
            TheaterError::ConnectionError(detail) => String::from_str(
                "Theater connection error: ",
            ).concat(detail.as_str()),
            TheaterError::SerializationError(detail) => String::from_str(
                "Serialization error: ",
            ).concat(detail.as_str()),
            TheaterError::ActorNotFound(detail) => String::from_str("Actor not found: ").concat(
                detail.as_str(),
            ),
            TheaterError::ChannelNotFound(detail) => String::from_str("Channel not found: ").concat(
                detail.as_str(),
            ),
        }
    }
}

/// Whether an actor is running.
#[derive(Clone, Copy, Debug, PartialEq, Eq)]
pub enum ActorStatus {
    Running,
    Stopped,
    Failed,
}

impl ActorStatus {
    /// The status as the server's tools print it.
    pub open spec fn text(self) -> Seq<char> {
        match self {
            ActorStatus::Running => "RUNNING"@,
            ActorStatus::Stopped => "STOPPED"@,
            ActorStatus::Failed => "FAILED"@,
        }
    }

    /// The status as the server's tools print it.
    pub fn label(&self) -> (text: &'static str)
        ensures
            text@ == self.text(),
    {
        match self {
            ActorStatus::Running => "RUNNING",
            ActorStatus::Stopped => "STOPPED",
            ActorStatus::Failed => "FAILED",
        }
    }
}

/// The kinds of event in an actor's history.
#[derive(Clone, Debug, PartialEq, Eq)]
pub enum EventType {
    StateChanged,
    MessageReceived,
    MessageSent,
    ChannelOpened,
    ChannelClosed,
    ActorStarted,
    ActorStopped,
    ActorFailed,
    Custom(String),
}

/// One event of an actor's history.
#[derive(Clone, Debug)]
pub struct Event {
    pub event_id: String,
    pub actor_id: String,
    pub timestamp: String,
    pub event_type: EventType,
    pub data: Option<serde_json::Value>,
}

/// Why one attempt of a request failed. Every fault is recoverable: the
/// request is tried again while its attempt budget lasts.
#[derive(Clone, Debug, PartialEq, Eq)]
pub enum Fault {
    /// No connection could be established; the text is the dialer's report.
    Dial(String),
    /// Another caller was already establishing the connection.
    ReconnectInProgress,
    /// Writing the request failed on an established connection.
    Write(String),
    /// Reading the response's length prefix failed.
    ReadHeader(String),
    /// Reading the response's payload failed.
    ReadBody(String),
    /// The response's bytes were not a valid response.
    Decode(String),
}

impl Fault {
    /// Whether the fault arose while a connection was being secured, before
    /// anything was written.
    pub open spec fn is_connect(self) -> bool {
        self is Dial || self is ReconnectInProgress
    }

    /// Whether the fault is a failed write or read on an established connection.
    pub open spec fn is_transport(self) -> bool {
        self is Write || self is ReadHeader || self is ReadBody
    }

    /// Whether the fault is a failed write or read on an established connection.
    pub fn transport(&self) -> (b: bool)
        ensures
            b == self.is_transport(),
    {
        match self {
            Fault::Write(_) => true,
            Fault::ReadHeader(_) => true,
            Fault::ReadBody(_) => true,
            _ => false,
        }
    }
}

/// How a request ends when it does not end in a response.
#[derive(Clone, Debug, PartialEq, Eq)]
pub enum SendError {
    /// The server answered with an error of its own; the request is not retried.
    Server(String),
    /// Every allowed attempt failed. `last_cause` is the fault of the final
    /// attempt; it is absent only where the policy allows no attempt at all.
    AttemptsExhausted { attempts: u32, last_cause: Option<Fault> },
}

impl Fault {
    /// What failed, as the first words of a report.
    pub open spec fn headline(self) -> Seq<char> {
        match self {
            Fault::Dial(_) => "Failed to establish connection after "@,
            Fault::ReconnectInProgress => "Failed to establish connection after "@,
            Fault::Write(_) => "Failed to send message after "@,
            Fault::ReadHeader(_) => "Failed to read response length after "@,
            Fault::ReadBody(_) => "Failed to read response payload after "@,
            Fault::Decode(_) => "Failed to parse response after "@,
        }
    }

    /// The underlying cause, as the last words of a report.
    pub open spec fn cause(self) -> Seq<char> {
        match self {
            Fault::Dial(detail) => "Failed to connect to Theater server: "@ + detail@,
            Fault::ReconnectInProgress => "Connection attempt already in progress"@,
            Fault::Write(detail) => detail@,
            Fault::ReadHeader(detail) => detail@,
            Fault::ReadBody(detail) => detail@,
            Fault::Decode(detail) => detail@,
        }
    }

    fn headline_text(&self) -> (text: &'static str)
        ensures
            text@ == self.headline(),
    {
        match self {
            Fault::Dial(_) => "Failed to establish connection after ",
            Fault::ReconnectInProgress => "Failed to establish connection after ",
            Fault::Write(_) => "Failed to send message after ",
            Fault::ReadHeader(_) => "Failed to read response length after ",
            Fault::ReadBody(_) => "Failed to read response payload after ",
            Fault::Decode(_) => "Failed to parse response after ",
        }
    }

    /// The underlying cause as a line of text.
    pub fn cause_text(&self) -> (text: String)
        ensures
            text@ == self.cause(),
    {
        match self {
            Fault::Dial(detail) => String::from_str("Failed to connect to Theater server: ").concat(
                detail.as_str(),
            ),
            Fault::ReconnectInProgress => String::from_str("Connection attempt already in progress"),
            Fault::Write(detail) => detail.clone(),
            Fault::ReadHeader(detail) => detail.clone(),
            Fault::ReadBody(detail) => detail.clone(),
            Fault::Decode(detail) => detail.clone(),
        }
    }
}

impl SendError {
    /// The error as a line of text: the server's error as a
    /// [`TheaterError::ServerError`] reads, a spent budget with what failed,
    /// the number of attempts and the cause of the last failure.
    pub open spec fn text(self) -> Seq<char> {
        match self {
            SendError::Server(message) => TheaterError::ServerError(message).text(),
            SendError::AttemptsExhausted { attempts, last_cause: Some(fault) } => fault.headline()
                + decimal_text(attempts as nat) + " attempts: "@ + fault.cause(),
            SendError::AttemptsExhausted { attempts, last_cause: None } =>
                "Failed to send command after maximum attempts"@,
        }
    }

    /// The error as a line of text.
    pub fn message(&self) -> (text: String)
        ensures
            text@ == self.text(),
    {
        match self {
            SendError::Server(message) => String::from_str("Theater server error: ").concat(
                message.as_str(),
            ),
            SendError::AttemptsExhausted { attempts, last_cause: Some(fault) } => {
                let count: String = decimal(*attempts as u64);
                let cause: String = fault.cause_text();
                String::from_str(fault.headline_text()).concat(count.as_str()).concat(
                    " attempts: ",
                ).concat(cause.as_str())
            },
            SendError::AttemptsExhausted { attempts, last_cause: None } => String::from_str(
                "Failed to send command after maximum attempts",
            ),
        }
    }
}

/// What a call on the client can fail with.
#[derive(Clone, Debug, PartialEq, Eq)]
pub enum ClientError {
    /// One of the client's typed errors.
    Theater(TheaterError),
    /// The request ended without a response.
    Send(SendError),
    /// Anything else, as a line of text.
    Report(String),
}

impl ClientError {
    /// The error as a line of text.
    pub open spec fn text(self) -> Seq<char> {
        match self {
            ClientError::Theater(error) => error.text(),
            ClientError::Send(error) => error.text(),
            ClientError::Report(report) => report@,
        }
    }

    /// The error as a line of text.
    pub fn message(&self) -> (text: String)
        ensures
            text@ == self.text(),
    {
        match self {
            ClientError::Theater(error) => error.message(),
            ClientError::Send(error) => error.message(),
            ClientError::Report(report) => report.clone(),
        }
    }

    /// The error that is nothing but the line `report`.
    pub fn report(report: &str) -> (error: Self)
        ensures
            error matches ClientError::Report(text) && text@ == report@,
    {
        ClientError::Report(String::from_str(report))
    }
}

} // verus!
