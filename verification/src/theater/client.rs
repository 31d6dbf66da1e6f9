//! The client: one connection slot, one retry policy, and the commands that
//! travel over them.
//!
//! The client decides and computes; its owner performs. To send a command,
//! the owner starts an exchange, performs each [`Action`] it is handed and
//! reports the result as an [`Event`], until the exchange is done.

use vstd::prelude::*;
use vstd::string::StringExecFns;
use serde_json::Value;
use crate::theater::backoff::RetryPolicy;
use crate::theater::command::{opens_channel, Command, CommandView};
use crate::theater::connection::{Connection, ConnectionModel};
use crate::theater::exchange::{Action, Event, Exchange, ExchangeModel, Reply};
use crate::theater::frame::{fits, fits_frame};
use crate::theater::heartbeat::{Heartbeat, HeartbeatModel, DEFAULT_HEARTBEAT_INTERVAL_MS};
use crate::theater::id::{is_request_id, uuid_parse, TheaterId};
use crate::theater::reply::{classify, decodes_to};
use crate::theater::text::{contains, occurs_in};
use crate::theater::types::{ClientError, TheaterError};

verus! {

/// A client of one Theater server, generic in the transport handle.
#[derive(Debug)]
pub struct TheaterClient<H> {
    address: String,
    policy: RetryPolicy,
    heartbeat_interval_ms: u64,
    connection: Connection<H>,
}

/// Whether an error's text speaks of the connection: it mentions connecting,
/// reading or writing.
pub open spec fn is_connection_issue(text: Seq<char>) -> bool {
    occurs_in("connect"@, text) || occurs_in("connection"@, text) || occurs_in("read"@, text)
        || occurs_in("write"@, text)
}

/// An error's text, marked as a connection issue that the next request will
/// try to mend.
pub open spec fn connection_issue(text: Seq<char>) -> Seq<char> {
    "Theater server connection issue: "@ + text
        + ". The server will attempt to reconnect on the next request."@
}

/// The complaint about a command that no frame can carry.
pub open spec fn oversized() -> Seq<char> {
    "command exceeds the largest frame"@
}

/// Passes a result through, rewording an error that speaks of the
/// connection so that the caller learns a reconnect will follow. Every other
/// error, and every success, is returned as it came.
pub fn handle_connection_error<T>(result: Result<T, ClientError>, context: &str) -> (r: Result<
    T,
    ClientError,
>)
    ensures
        match result {
            Ok(value) => r == Ok::<T, ClientError>(value),
            Err(error) => if is_connection_issue(error.text()) {
                r matches Err(ClientError::Report(text)) && text@ == connection_issue(error.text())
            } else {
                r == Err::<T, ClientError>(error)
            },
        },
{
    match result {
        Ok(value) => Ok(value),
        Err(error) => {
            let text: String = error.message();
            if contains(text.as_str(), "connect") || contains(text.as_str(), "connection")
                || contains(text.as_str(), "read") || contains(text.as_str(), "write") {
                Err(
                    ClientError::Report(
                        String::from_str("Theater server connection issue: ").concat(
                            text.as_str(),
                        ).concat(". The server will attempt to reconnect on the next request."),
                    ),
                )
            } else {
                Err(error)
            }
        },
    }
}

impl<H> TheaterClient<H> {
    /// The server's address, as the owner dials it.
    pub closed spec fn address(self) -> Seq<char> {
        self.address@
    }

    /// The retry policy of every request.
    pub closed spec fn policy(self) -> RetryPolicy {
        self.policy
    }

    /// The time between two heartbeats, in milliseconds.
    pub closed spec fn heartbeat_interval(self) -> u64 {
        self.heartbeat_interval_ms
    }

    /// The connection slot.
    pub closed spec fn connection(self) -> ConnectionModel<H> {
        self.connection@
    }

    /// A client for the server at `address`, given the result of the first
    /// dial: with a handle the client starts connected, with the standard
    /// policy and heartbeat; a failed dial is an error.
    pub fn connect(address: &str, dialed: Result<H, String>) -> (r: Result<Self, ClientError>)
        ensures
            match dialed {
                Ok(handle) => r matches Ok(client) && client.address() == address@
                    && client.policy() == (RetryPolicy {
                    max_attempts: 3,
                    initial_backoff_ms: 500,
                    multiplier: 2,
                }) && client.heartbeat_interval() == DEFAULT_HEARTBEAT_INTERVAL_MS
                    && client.connection() == (ConnectionModel {
                    slot: Some(handle),
                    reconnecting: false,
                }),
                Err(report) => r matches Err(error) && error.text()
                    == "Failed to connect to Theater server: "@ + report@,
            },
    {
        match dialed {
            Ok(handle) => Ok(
                TheaterClient {
                    address: String::from_str(address),
                    policy: RetryPolicy::standard(),
                    heartbeat_interval_ms: DEFAULT_HEARTBEAT_INTERVAL_MS,
                    connection: Connection::with_handle(handle),
                },
            ),
            Err(report) => Err(
                ClientError::Report(
                    String::from_str("Failed to connect to Theater server: ").concat(
                        report.as_str(),
                    ),
                ),
            ),
        }
    }

    /// A client with its own policy and heartbeat interval, around a given slot.
    pub fn with_config(
        address: &str,
        policy: RetryPolicy,
        heartbeat_interval_ms: u64,
        connection: Connection<H>,
    ) -> (client: Self)
        ensures
            client.address() == address@,
            client.policy() == policy,
            client.heartbeat_interval() == heartbeat_interval_ms,
            client.connection() == connection@,
    {
        TheaterClient {
            address: String::from_str(address),
            policy,
            heartbeat_interval_ms,
            connection,
        }
    }

    /// The server's address.
    pub fn server_address(&self) -> (address: &String)
        ensures
            address@ == self.address(),
    {
        &self.address
    }

    /// The retry policy of every request.
    pub fn retry_policy(&self) -> (policy: RetryPolicy)
        ensures
            policy == self.policy(),
    {
        self.policy
    }

    /// Whether the slot holds a handle.
    pub fn is_connected(&self) -> (b: bool)
        ensures
            b == (self.connection().slot is Some),
    {
        self.connection.is_connected()
    }

    /// The held handle, for the owner to write to and read from.
    pub fn handle_mut(&mut self) -> (handle: Option<&mut H>)
        ensures
            final(self).address() == old(self).address(),
            final(self).policy() == old(self).policy(),
            final(self).heartbeat_interval() == old(self).heartbeat_interval(),
            final(self).connection().reconnecting == old(self).connection().reconnecting,
            match old(self).connection().slot {
                None => handle is None && final(self).connection().slot is None,
                Some(h) => handle is Some && *handle.unwrap() == h && final(self).connection().slot
                    == Some(*final(handle.unwrap())),
            },
    {
        self.connection.handle_mut()
    }

    /// Begins a request with an opaque payload. The payload must be one
    /// that a frame can carry.
    pub fn send_payload(&mut self, payload: Vec<u8>) -> (r: (Exchange, Action<Value>))
        requires
            fits_frame(payload@.len()),
        ensures
            final(self).address() == old(self).address(),
            final(self).policy() == old(self).policy(),
            final(self).heartbeat_interval() == old(self).heartbeat_interval(),
            (r.0@, final(self).connection(), r.1) == ExchangeModel::start::<H, Value>(
                old(self).policy(),
                payload@,
                old(self).connection(),
            ),
    {
        Exchange::start(self.policy, payload, &mut self.connection)
    }

    /// Begins a request with the given command.
    ///
    /// A command whose text a frame can carry begins its first attempt. A
    /// command of 2^32 bytes or more is refused before anything is dialed,
    /// probed or written, and the client stays as it was.
    pub fn send_command(&mut self, command: &Command) -> (r: Result<
        (Exchange, Action<Value>),
        ClientError,
    >)
        ensures
            final(self).address() == old(self).address(),
            final(self).policy() == old(self).policy(),
            final(self).heartbeat_interval() == old(self).heartbeat_interval(),
            r is Ok <==> fits_frame(command@.payload().len()),
            match r {
                Ok(begun) => (begun.0@, final(self).connection(), begun.1)
                    == ExchangeModel::start::<H, Value>(
                    old(self).policy(),
                    command@.payload(),
                    old(self).connection(),
                ),
                Err(error) => error matches ClientError::Theater(
                    TheaterError::SerializationError(complaint),
                ) && complaint@ == oversized() && final(self).connection() == old(
                    self,
                ).connection(),
            },
    {
        let payload: Vec<u8> = command.encode();
        if fits(payload.len()) {
            Ok(self.send_payload(payload))
        } else {
            Err(
                ClientError::Theater(
                    TheaterError::SerializationError(
                        String::from_str("command exceeds the largest frame"),
                    ),
                ),
            )
        }
    }

    /// Takes the result of the last action of `exchange` and answers with
    /// the next one.
    pub fn step(&mut self, exchange: &mut Exchange, event: Event<H, Value>) -> (action: Action<
        Value,
    >)
        ensures
            final(self).address() == old(self).address(),
            final(self).policy() == old(self).policy(),
            final(self).heartbeat_interval() == old(self).heartbeat_interval(),
            (final(exchange)@, final(self).connection(), action) == old(exchange)@.next(
                old(self).connection(),
                event,
            ),
    {
        exchange.step(&mut self.connection, event)
    }

    /// Takes the response body that was read for `exchange`, decodes it, and
    /// answers with the next action.
    pub fn received(&mut self, exchange: &mut Exchange, body: &[u8]) -> (action: Action<Value>)
        ensures
            final(self).address() == old(self).address(),
            final(self).policy() == old(self).policy(),
            final(self).heartbeat_interval() == old(self).heartbeat_interval(),
            exists|reply: Reply<Value>|
                #[trigger] decodes_to(body@, reply) && (
                    final(exchange)@,
                    final(self).connection(),
                    action,
                ) == old(exchange)@.next(
                    old(self).connection(),
                    Event::<H, Value>::BodyRead(Ok(reply)),
                ),
    {
        let reply: Reply<Value> = classify(body);
        let ghost event = Event::<H, Value>::BodyRead(Ok(reply));
        let action: Action<Value> = exchange.step(&mut self.connection, Event::BodyRead(Ok(reply)));
        assert(decodes_to(body@, reply) && (exchange@, self.connection(), action) == old(
            exchange,
        )@.next(old(self).connection(), event));
        action
    }

    /// The schedule of this client's heartbeat, started at `now_ms`.
    pub fn start_heartbeat(&self, now_ms: u64) -> (heartbeat: Heartbeat)
        ensures
            heartbeat@ == HeartbeatModel::started(self.heartbeat_interval(), now_ms),
    {
        Heartbeat::start(self.heartbeat_interval_ms, now_ms)
    }

    /// The command that a heartbeat sends: the cheapest one, a request for
    /// the list of actors.
    pub fn ping(&self) -> (command: Command)
        ensures
            command@ == CommandView::ListActors,
    {
        Command::ListActors
    }

    /// The command that lists the running actors.
    pub fn list_actors(&self) -> (command: Command)
        ensures
            command@ == CommandView::ListActors,
    {
        Command::ListActors
    }

    /// The command that starts an actor from a manifest.
    pub fn start_actor(&self, manifest: &str, initial_state: Option<&[u8]>) -> (command: Command)
        ensures
            command@ == (CommandView::StartActor {
                manifest: manifest@,
                initial_state: match initial_state {
                    Some(state) => Some(state@),
                    None => None,
                },
            }),
    {
        let state: Option<Vec<u8>> = match initial_state {
            Some(bytes) => Some(vstd::slice::slice_to_vec(bytes)),
            None => None,
        };
        Command::StartActor { manifest: String::from_str(manifest), initial_state: state }
    }

    /// The command that stops an actor.
    pub fn stop_actor(&self, actor_id: &str) -> (command: Command)
        ensures
            command@ == (CommandView::StopActor { actor_id: actor_id@ }),
    {
        Command::StopActor { actor_id: String::from_str(actor_id) }
    }

    /// The command that restarts an actor.
    pub fn restart_actor(&self, actor_id: &str) -> (command: Command)
        ensures
            command@ == (CommandView::RestartActor { actor_id: actor_id@ }),
    {
        Command::RestartActor { actor_id: String::from_str(actor_id) }
    }

    /// The command that asks for an actor's state.
    pub fn get_actor_state(&self, actor_id: &str) -> (command: Command)
        ensures
            command@ == (CommandView::GetActorState { actor_id: actor_id@ }),
    {
        Command::GetActorState { actor_id: String::from_str(actor_id) }
    }

    /// The command that asks for an actor's history.
    pub fn get_actor_events(&self, actor_id: &str) -> (command: Command)
        ensures
            command@ == (CommandView::GetActorEvents { actor_id: actor_id@ }),
    {
        Command::GetActorEvents { actor_id: String::from_str(actor_id) }
    }

    /// Whether an actor exists, judged by how a request for its state ended.
    pub fn actor_exists<T>(&self, state: &Result<T, ClientError>) -> (found: bool)
        ensures
            found == (state is Ok),
    {
        state.is_ok()
    }

    /// The command that sends a one-way message to an actor, under a fresh
    /// request identifier.
    pub fn send_message(&self, actor_id: &str, data: &[u8]) -> (command: Command)
        ensures
            command@ matches CommandView::SendActorMessage { actor_id: to, data: sent, request_id }
                && to == actor_id@ && sent == data@ && is_request_id(request_id),
    {
        Command::SendActorMessage {
            actor_id: String::from_str(actor_id),
            data: vstd::slice::slice_to_vec(data),
            request_id: TheaterId::request_id(),
        }
    }

    /// The command that sends a message to an actor and asks for an answer,
    /// under a fresh request identifier.
    pub fn request_message(&self, actor_id: &str, data: &[u8]) -> (command: Command)
        ensures
            command@ matches CommandView::RequestActorMessage {
                actor_id: to,
                data: sent,
                request_id,
            } && to == actor_id@ && sent == data@ && is_request_id(request_id),
    {
        Command::RequestActorMessage {
            actor_id: String::from_str(actor_id),
            data: vstd::slice::slice_to_vec(data),
            request_id: TheaterId::request_id(),
        }
    }

    /// The command that opens a channel to an actor, under a fresh request
    /// identifier. A name that is no identifier is refused with the
    /// parser's report, before anything is sent.
    pub fn open_channel(&self, actor_id: &str, initial_message: Option<&[u8]>) -> (r: Result<
        Command,
        ClientError,
    >)
        ensures
            match uuid_parse(actor_id@) {
                Some(actor) => r matches Ok(command) && opens_channel(
                    command@,
                    actor,
                    match initial_message {
                        Some(message) => Some(message@),
                        None => None,
                    },
                ),
                None => r is Err,
            },
    {
        let first: Option<Vec<u8>> = match initial_message {
            Some(bytes) => Some(vstd::slice::slice_to_vec(bytes)),
            None => None,
        };
        Command::open_channel(actor_id, first)
    }

    /// The command that sends a message on an open channel, under a fresh
    /// request identifier.
    pub fn send_on_channel(&self, channel_id: &str, message: &[u8]) -> (command: Command)
        ensures
            command@ matches CommandView::SendOnChannel {
                channel_id: on,
                message: sent,
                request_id,
            } && on == channel_id@ && sent == message@ && is_request_id(request_id),
    {
        Command::SendOnChannel {
            channel_id: String::from_str(channel_id),
            message: vstd::slice::slice_to_vec(message),
            request_id: TheaterId::request_id(),
        }
    }

    /// The command that closes a channel, under a fresh request identifier.
    pub fn close_channel(&self, channel_id: &str) -> (command: Command)
        ensures
            command@ matches CommandView::CloseChannel { channel_id: on, request_id } && on
                == channel_id@ && is_request_id(request_id),
    {
        Command::CloseChannel {
            channel_id: String::from_str(channel_id),
            request_id: TheaterId::request_id(),
        }
    }
}

} // verus!
