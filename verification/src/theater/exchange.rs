//! One request and its response, with bounded retry.
//!
//! An [`Exchange`] is the state of one `send`: which attempt is under way,
//! what the caller is waiting for, and how long to sleep after a failure. It
//! performs no I/O. Each step answers with the next [`Action`] for the caller
//! to perform, and the caller reports the result as the next [`Event`].

use vstd::prelude::*;
use crate::theater::backoff::{Backoff, Retry, RetryPolicy};
use crate::theater::connection::{Connection, ConnectionModel, Ensure};
use crate::theater::frame::{decode_header, encode, fits_frame, frame_of, header_value};
use crate::theater::types::{Fault, SendError};

verus! {

/// What a response body turned out to be, once decoded.
#[derive(Debug, PartialEq, Eq)]
pub enum Reply<R> {
    /// Not a valid response; the text is the decoder's report.
    Malformed(String),
    /// The server's reserved error shape, with the message it carries.
    Error(String),
    /// Any other valid response, decoded.
    Success(R),
}

/// What the caller is asked to do next.
#[derive(Debug, PartialEq, Eq)]
pub enum Action<R> {
    /// Probe the held connection with a zero-length write.
    Probe,
    /// Dial the server.
    Dial,
    /// Write the request frame to the connection.
    Write,
    /// Read the four bytes of the response's length prefix.
    ReadHeader,
    /// Read this many bytes of response payload.
    ReadBody(u32),
    /// Sleep for this many milliseconds.
    Sleep(u64),
    /// The request has ended, with this response or this error.
    Done(Result<R, SendError>),
    /// Nothing: the event was not the one awaited, or the request had ended.
    Idle,
}

/// The result of an action, as the caller reports it.
#[derive(Debug)]
pub enum Event<H, R> {
    /// The probe was accepted by the connection, or it was not.
    Probed(bool),
    /// The dial gave a new handle, or failed with this report.
    Dialed(Result<H, String>),
    /// The request frame was written in full, or the write failed.
    Written(Result<(), String>),
    /// The length prefix was read, or the read failed.
    HeaderRead(Result<[u8; 4], String>),
    /// The payload was read and decoded, or the read failed.
    BodyRead(Result<Reply<R>, String>),
    /// The sleep is over.
    Slept,
}

/// What an exchange is waiting for.
#[derive(Clone, Copy, Debug, PartialEq, Eq)]
pub enum Phase {
    /// The result of a probe.
    Probing,
    /// The result of a dial.
    Dialing,
    /// The result of writing the request frame.
    Writing,
    /// The response's length prefix.
    ReadingHeader,
    /// A response payload of this many bytes.
    ReadingBody(u32),
    /// The end of a sleep of this many milliseconds.
    Sleeping(u64),
    /// Nothing: the request has ended.
    Finished,
}

/// An exchange as plain values.
pub struct ExchangeModel {
    /// The retry policy of this request.
    pub policy: RetryPolicy,
    /// The number of the attempt under way or, during a sleep, about to begin.
    pub attempt: nat,
    /// What the exchange is waiting for.
    pub phase: Phase,
    /// The request payload, unframed.
    pub payload: Seq<u8>,
}

impl ExchangeModel {
    /// The action that the current phase is waiting on.
    pub open spec fn pending<R>(self) -> Action<R> {
        match self.phase {
            Phase::Probing => Action::Probe,
            Phase::Dialing => Action::Dial,
            Phase::Writing => Action::Write,
            Phase::ReadingHeader => Action::ReadHeader,
            Phase::ReadingBody(len) => Action::ReadBody(len),
            Phase::Sleeping(ms) => Action::Sleep(ms),
            Phase::Finished => Action::Idle,
        }
    }

    /// The exchange in another phase.
    pub open spec fn in_phase(self, phase: Phase) -> Self {
        ExchangeModel { phase, ..self }
    }

    /// The attempt under way has failed with `fault`: on the last attempt the
    /// request ends with the configured attempt count and this fault;
    /// before that, the caller sleeps the delay of this attempt and the next
    /// attempt is due.
    pub open spec fn fail<R>(self, fault: Fault) -> (Self, Action<R>) {
        if self.attempt >= self.policy.max_attempts {
            (
                self.in_phase(Phase::Finished),
                Action::Done(
                    Err(
                        SendError::AttemptsExhausted {
                            attempts: self.policy.max_attempts,
                            last_cause: Some(fault),
                        },
                    ),
                ),
            )
        } else {
            let ms = self.policy.delay_after(self.attempt);
            (
                ExchangeModel { attempt: self.attempt + 1, phase: Phase::Sleeping(ms), ..self },
                Action::Sleep(ms),
            )
        }
    }

    /// The connection manager has answered: a ready connection is written
    /// to, a probe or a dial is passed on, and a failure fails the attempt.
    pub open spec fn secured<R>(self, answer: Ensure) -> (Self, Action<R>) {
        match answer {
            Ensure::Ready => (self.in_phase(Phase::Writing), Action::Write),
            Ensure::Probe => (self.in_phase(Phase::Probing), Action::Probe),
            Ensure::Dial => (self.in_phase(Phase::Dialing), Action::Dial),
            Ensure::Failed(fault) => self.fail(fault),
        }
    }

    /// A response body has arrived: a malformed one fails the attempt, the
    /// server's own error ends the request at once, and anything else is
    /// the response.
    pub open spec fn decoded<R>(self, reply: Reply<R>) -> (Self, Action<R>) {
        match reply {
            Reply::Malformed(detail) => self.fail(Fault::Decode(detail)),
            Reply::Error(message) => (
                self.in_phase(Phase::Finished),
                Action::Done(Err(SendError::Server(message))),
            ),
            Reply::Success(response) => (self.in_phase(Phase::Finished), Action::Done(Ok(response))),
        }
    }

    /// The first step of a request: with no attempt allowed it ends at once;
    /// otherwise the first attempt begins by securing a connection.
    pub open spec fn start<H, R>(
        policy: RetryPolicy,
        payload: Seq<u8>,
        conn: ConnectionModel<H>,
    ) -> (Self, ConnectionModel<H>, Action<R>) {
        let fresh = ExchangeModel { policy, attempt: 1, phase: Phase::Finished, payload };
        if policy.max_attempts == 0 {
            (
                fresh,
                conn,
                Action::Done(
                    Err(SendError::AttemptsExhausted { attempts: 0, last_cause: None }),
                ),
            )
        } else {
            (
                fresh.secured::<R>(conn.begin().1).0,
                conn.begin().0,
                fresh.secured::<R>(conn.begin().1).1,
            )
        }
    }

    /// One step: the exchange, the connection and the next action after
    /// `event`. An event that the phase is not waiting for changes nothing
    /// and asks for nothing.
    pub open spec fn next<H, R>(self, conn: ConnectionModel<H>, event: Event<H, R>) -> (
        Self,
        ConnectionModel<H>,
        Action<R>,
    ) {
        match (self.phase, event) {
            (Phase::Probing, Event::Probed(alive)) => (
                self.secured::<R>(conn.probed(alive).1).0,
                conn.probed(alive).0,
                self.secured(conn.probed(alive).1).1,
            ),
            (Phase::Dialing, Event::Dialed(outcome)) => (
                self.secured::<R>(conn.dialed(outcome).1).0,
                conn.dialed(outcome).0,
                self.secured(conn.dialed(outcome).1).1,
            ),
            (Phase::Writing, Event::Written(Ok(_))) => (
                self.in_phase(Phase::ReadingHeader),
                conn,
                Action::ReadHeader,
            ),
            (Phase::Writing, Event::Written(Err(detail))) => (
                self.fail::<R>(Fault::Write(detail)).0,
                conn.cleared(),
                self.fail(Fault::Write(detail)).1,
            ),
            (Phase::ReadingHeader, Event::HeaderRead(Ok(header))) => (
                self.in_phase(Phase::ReadingBody(header_value(header@) as u32)),
                conn,
                Action::ReadBody(header_value(header@) as u32),
            ),
            (Phase::ReadingHeader, Event::HeaderRead(Err(detail))) => (
                self.fail::<R>(Fault::ReadHeader(detail)).0,
                conn.cleared(),
                self.fail(Fault::ReadHeader(detail)).1,
            ),
            (Phase::ReadingBody(_), Event::BodyRead(Ok(reply))) => (
                self.decoded(reply).0,
                conn,
                self.decoded(reply).1,
            ),
            (Phase::ReadingBody(_), Event::BodyRead(Err(detail))) => (
                self.fail::<R>(Fault::ReadBody(detail)).0,
                conn.cleared(),
                self.fail(Fault::ReadBody(detail)).1,
            ),
            (Phase::Sleeping(_), Event::Slept) => (
                self.secured::<R>(conn.begin().1).0,
                conn.begin().0,
                self.secured(conn.begin().1).1,
            ),
            _ => (self, conn, Action::Idle),
        }
    }
}

/// The state of one request, from its first attempt to its end.
#[derive(Debug)]
pub struct Exchange {
    backoff: Backoff,
    phase: Phase,
    payload: Vec<u8>,
}

impl View for Exchange {
    type V = ExchangeModel;

    closed spec fn view(&self) -> ExchangeModel {
        ExchangeModel {
            policy: self.backoff.policy(),
            attempt: self.backoff.attempt(),
            phase: self.phase,
            payload: self.payload@,
        }
    }
}

impl Exchange {
    #[verifier::type_invariant]
    spec fn inv(self) -> bool {
        fits_frame(self.payload@.len())
    }

    /// Begins a request with the payload `payload` on the connection `conn`.
    /// The payload must be one that a frame can carry.
    pub fn start<H, R>(policy: RetryPolicy, payload: Vec<u8>, conn: &mut Connection<H>) -> (r: (
        Exchange,
        Action<R>,
    ))
        requires
            fits_frame(payload@.len()),
        ensures
            (r.0@, final(conn)@, r.1) == ExchangeModel::start::<H, R>(policy, payload@, old(conn)@),
    {
        let mut exchange = Exchange {
            backoff: Backoff::start(policy),
            phase: Phase::Finished,
            payload,
        };
        if policy.max_attempts == 0 {
            let action = Action::Done(
                Err(SendError::AttemptsExhausted { attempts: 0, last_cause: None }),
            );
            (exchange, action)
        } else {
            let answer: Ensure = conn.ensure_connected();
            let action: Action<R> = exchange.secured(answer);
            (exchange, action)
        }
    }

    /// What the exchange is waiting for.
    pub fn phase(&self) -> (phase: Phase)
        ensures
            phase == self@.phase,
    {
        self.phase
    }

    /// The number of the attempt under way or, during a sleep, about to begin.
    pub fn attempt(&self) -> (n: u32)
        ensures
            n == self@.attempt,
    {
        self.backoff.attempt_number()
    }

    /// Whether the request has ended.
    pub fn is_finished(&self) -> (b: bool)
        ensures
            b == (self@.phase is Finished),
    {
        match self.phase {
            Phase::Finished => true,
            _ => false,
        }
    }

    /// The request frame to write: the length prefix, then the payload.
    pub fn frame(&self) -> (frame: Vec<u8>)
        ensures
            frame@ == frame_of(self@.payload),
            fits_frame(self@.payload.len()),
    {
        proof {
            use_type_invariant(self);
        }
        encode(self.payload.as_slice())
    }

    /// The action that the current phase is waiting on.
    pub fn pending<R>(&self) -> (action: Action<R>)
        ensures
            action == self@.pending::<R>(),
    {
        match self.phase {
            Phase::Probing => Action::Probe,
            Phase::Dialing => Action::Dial,
            Phase::Writing => Action::Write,
            Phase::ReadingHeader => Action::ReadHeader,
            Phase::ReadingBody(len) => Action::ReadBody(len),
            Phase::Sleeping(ms) => Action::Sleep(ms),
            Phase::Finished => Action::Idle,
        }
    }

    fn fail<R>(&mut self, fault: Fault) -> (action: Action<R>)
        ensures
            (final(self)@, action) == old(self)@.fail::<R>(fault),
    {
        proof {
            use_type_invariant(&*self);
        }
        let max_attempts: u32 = self.backoff.retry_policy().max_attempts;
        let mut backoff: Backoff = self.backoff;
        let retry: Retry = backoff.fail();
        self.backoff = backoff;
        match retry {
            Retry::GiveUp => {
                self.phase = Phase::Finished;
                Action::Done(
                    Err(
                        SendError::AttemptsExhausted {
                            attempts: max_attempts,
                            last_cause: Some(fault),
                        },
                    ),
                )
            },
            Retry::After(ms) => {
                self.phase = Phase::Sleeping(ms);
                Action::Sleep(ms)
            },
        }
    }

    fn secured<R>(&mut self, answer: Ensure) -> (action: Action<R>)
        ensures
            (final(self)@, action) == old(self)@.secured::<R>(answer),
    {
        proof {
            use_type_invariant(&*self);
        }
        match answer {
            Ensure::Ready => {
                self.phase = Phase::Writing;
                Action::Write
            },
            Ensure::Probe => {
                self.phase = Phase::Probing;
                Action::Probe
            },
            Ensure::Dial => {
                self.phase = Phase::Dialing;
                Action::Dial
            },
            Ensure::Failed(fault) => self.fail(fault),
        }
    }

    fn decoded<R>(&mut self, reply: Reply<R>) -> (action: Action<R>)
        ensures
            (final(self)@, action) == old(self)@.decoded(reply),
    {
        proof {
            use_type_invariant(&*self);
        }
        match reply {
            Reply::Malformed(detail) => self.fail(Fault::Decode(detail)),
            Reply::Error(message) => {
                self.phase = Phase::Finished;
                Action::Done(Err(SendError::Server(message)))
            },
            Reply::Success(response) => {
                self.phase = Phase::Finished;
                Action::Done(Ok(response))
            },
        }
    }

    /// Takes the result of the last action and answers with the next one.
    ///
    /// A handle that a failed probe, write or read has made useless is
    /// dropped from the connection here.
    pub fn step<H, R>(&mut self, conn: &mut Connection<H>, event: Event<H, R>) -> (action: Action<R>)
        ensures
            (final(self)@, final(conn)@, action) == old(self)@.next(old(conn)@, event),
    {
        proof {
            use_type_invariant(&*self);
        }
        match self.phase {
            Phase::Probing => match event {
                Event::Probed(alive) => {
                    let answer: (Ensure, Option<H>) = conn.probe_finished(alive);
                    self.secured(answer.0)
                },
                _ => Action::Idle,
            },
            Phase::Dialing => match event {
                Event::Dialed(outcome) => {
                    let answer: Ensure = conn.dial_finished(outcome);
                    self.secured(answer)
                },
                _ => Action::Idle,
            },
            Phase::Writing => match event {
                Event::Written(Ok(_)) => {
                    self.phase = Phase::ReadingHeader;
                    Action::ReadHeader
                },
                Event::Written(Err(detail)) => {
                    let _ = conn.clear();
                    self.fail(Fault::Write(detail))
                },
                _ => Action::Idle,
            },
            Phase::ReadingHeader => match event {
                Event::HeaderRead(Ok(header)) => {
                    let len: u32 = decode_header(header);
                    self.phase = Phase::ReadingBody(len);
                    Action::ReadBody(len)
                },
                Event::HeaderRead(Err(detail)) => {
                    let _ = conn.clear();
                    self.fail(Fault::ReadHeader(detail))
                },
                _ => Action::Idle,
            },
            Phase::ReadingBody(_) => match event {
                Event::BodyRead(Ok(reply)) => self.decoded(reply),
                Event::BodyRead(Err(detail)) => {
                    let _ = conn.clear();
                    self.fail(Fault::ReadBody(detail))
                },
                _ => Action::Idle,
            },
            Phase::Sleeping(_) => match event {
                Event::Slept => {
                    let answer: Ensure = conn.ensure_connected();
                    self.secured(answer)
                },
                _ => Action::Idle,
            },
            Phase::Finished => Action::Idle,
        }
    }
}

} // verus!
