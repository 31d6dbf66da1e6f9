//! What holds of every request, whatever the transport does.

use vstd::prelude::*;
use crate::theater::backoff::{lemma_default_delays, RetryPolicy};
use crate::theater::connection::ConnectionModel;
use crate::theater::exchange::{Action, Event, ExchangeModel, Phase, Reply};
use crate::theater::frame::header_value;
use crate::theater::types::{Fault, SendError};

verus! {

/// Whether `event` brings a response that the decoder accepted.
pub open spec fn is_valid_response<H, R>(event: Event<H, R>) -> bool {
    event matches Event::<H, R>::BodyRead(Ok(reply)) && !(reply is Malformed)
}

/// What a single step can and cannot do.
///
/// The policy and the payload never change. A sleep is asked for only after
/// a failed attempt that was not the last, it lasts the delay of that
/// attempt, and the attempt counter moves on by one; nothing else moves the
/// counter. A request ends once, and an ended request asks for nothing.
/// The error for a spent budget carries the configured attempt count and the
/// fault of the last attempt, and a request that ends without a valid
/// response ends with that error.
pub proof fn lemma_step<H, R>(
    exchange: ExchangeModel,
    conn: ConnectionModel<H>,
    event: Event<H, R>,
)
    ensures
        ({
            let after = exchange.next(conn, event);
            let action = after.2;
            &&& after.0.policy == exchange.policy
            &&& after.0.payload == exchange.payload
            &&& action matches Action::Sleep(ms) ==> {
                &&& ms == exchange.policy.delay_after(exchange.attempt)
                &&& after.0.attempt == exchange.attempt + 1
                &&& exchange.attempt < exchange.policy.max_attempts
                &&& after.0.phase == Phase::Sleeping(ms)
            }
            &&& !(action is Sleep) ==> after.0.attempt == exchange.attempt
            &&& action is Done ==> after.0.phase is Finished && !(exchange.phase is Finished)
            &&& !(action is Done) ==> (after.0.phase is Finished <==> exchange.phase is Finished)
            &&& exchange.phase is Finished ==> action is Idle && after.0 == exchange && after.1
                == conn
            &&& action matches Action::Done(Err(SendError::AttemptsExhausted { attempts, last_cause }))
                ==> {
                &&& attempts == exchange.policy.max_attempts
                &&& exchange.attempt >= exchange.policy.max_attempts
                &&& last_cause is Some
            }
            &&& action is Done && !is_valid_response(event) ==> action matches Action::Done(
                Err(SendError::AttemptsExhausted { .. }),
            )
        }),
{
}

/// A request from its start through a sequence of events: the exchange and
/// the connection at the end, and every action asked for on the way.
pub struct Trace<H, R> {
    pub exchange: ExchangeModel,
    pub conn: ConnectionModel<H>,
    pub actions: Seq<Action<R>>,
}

/// The trace of the request that starts on `conn` and then sees `events`.
pub open spec fn trace<H, R>(
    policy: RetryPolicy,
    payload: Seq<u8>,
    conn: ConnectionModel<H>,
    events: Seq<Event<H, R>>,
) -> Trace<H, R>
    decreases events.len(),
{
    if events.len() == 0 {
        let first = ExchangeModel::start::<H, R>(policy, payload, conn);
        Trace { exchange: first.0, conn: first.1, actions: seq![first.2] }
    } else {
        let before = trace(policy, payload, conn, events.drop_last());
        let after = before.exchange.next(before.conn, events.last());
        Trace { exchange: after.0, conn: after.1, actions: before.actions.push(after.2) }
    }
}

/// The sleeps among `actions`, in order.
pub open spec fn sleeps<R>(actions: Seq<Action<R>>) -> Seq<u64>
    decreases actions.len(),
{
    if actions.len() == 0 {
        Seq::empty()
    } else {
        match actions.last() {
            Action::Sleep(ms) => sleeps(actions.drop_last()).push(ms),
            _ => sleeps(actions.drop_last()),
        }
    }
}

/// How many of `actions` end the request.
pub open spec fn endings<R>(actions: Seq<Action<R>>) -> nat
    decreases actions.len(),
{
    if actions.len() == 0 {
        0
    } else if actions.last() is Done {
        endings(actions.drop_last()) + 1
    } else {
        endings(actions.drop_last())
    }
}

/// How many of `actions` are dials.
pub open spec fn dials<R>(actions: Seq<Action<R>>) -> nat
    decreases actions.len(),
{
    if actions.len() == 0 {
        0
    } else if actions.last() is Dial {
        dials(actions.drop_last()) + 1
    } else {
        dials(actions.drop_last())
    }
}

/// The sum of a sequence of delays.
pub open spec fn sum(delays: Seq<u64>) -> nat
    decreases delays.len(),
{
    if delays.len() == 0 {
        0
    } else {
        sum(delays.drop_last()) + delays.last() as nat
    }
}

/// Whether `delays` are the policy's delays after the first, the second, and
/// each further failed attempt, in that order.
pub open spec fn follows_backoff(policy: RetryPolicy, delays: Seq<u64>) -> bool {
    forall|k: int| 0 <= k < delays.len() ==> #[trigger] delays[k] == policy.delay_after((k + 1) as nat)
}

/// Whatever the transport does, a request keeps to its policy.
///
/// After any sequence of events: the attempt under way is never beyond the
/// attempt budget; the request has slept once for each earlier attempt, and
/// the sleeps were the policy's delays in order; and the request has ended
/// at most once, namely exactly if it is finished.
pub proof fn lemma_trace_keeps_policy<H, R>(
    policy: RetryPolicy,
    payload: Seq<u8>,
    conn: ConnectionModel<H>,
    events: Seq<Event<H, R>>,
)
    ensures
        ({
            let t = trace(policy, payload, conn, events);
            &&& t.exchange.policy == policy
            &&& t.exchange.payload == payload
            &&& t.actions.len() == events.len() + 1
            &&& 1 <= t.exchange.attempt
            &&& policy.max_attempts >= 1 ==> t.exchange.attempt <= policy.max_attempts
            &&& sleeps(t.actions).len() == t.exchange.attempt - 1
            &&& follows_backoff(policy, sleeps(t.actions))
            &&& endings(t.actions) == (if t.exchange.phase is Finished {
                1nat
            } else {
                0nat
            })
        }),
    decreases events.len(),
{
    let t = trace(policy, payload, conn, events);
    if events.len() == 0 {
        let first = ExchangeModel::start::<H, R>(policy, payload, conn);
        assert(t.actions.drop_last() =~= Seq::<Action<R>>::empty());
        assert(sleeps(t.actions.drop_last()) =~= Seq::<u64>::empty());
        assert(endings(t.actions.drop_last()) == 0);
        assert(t.actions.last() == first.2);
        if first.2 is Sleep {
            assert(sleeps(t.actions) =~= seq![policy.delay_after(1)]);
        }
    } else {
        let before = trace(policy, payload, conn, events.drop_last());
        lemma_trace_keeps_policy(policy, payload, conn, events.drop_last());
        lemma_step(before.exchange, before.conn, events.last());
        let after = before.exchange.next(before.conn, events.last());
        assert(t.actions.drop_last() =~= before.actions);
        assert(t.actions.last() == after.2);
    }
}

/// A request that starts with the reconnecting flag clear holds the flag
/// exactly while it is waiting for its own dial. So a request that has
/// ended, however it ended, leaves the flag clear for the next one.
pub proof fn lemma_flag_held_only_while_dialing<H, R>(
    policy: RetryPolicy,
    payload: Seq<u8>,
    conn: ConnectionModel<H>,
    events: Seq<Event<H, R>>,
)
    requires
        !conn.reconnecting,
    ensures
        ({
            let t = trace(policy, payload, conn, events);
            &&& t.conn.reconnecting <==> t.exchange.phase is Dialing
            &&& t.exchange.phase is Writing || t.exchange.phase is ReadingHeader
                || t.exchange.phase is ReadingBody || t.exchange.phase is Probing
                ==> t.conn.slot is Some
        }),
    decreases events.len(),
{
    if events.len() > 0 {
        lemma_flag_held_only_while_dialing(policy, payload, conn, events.drop_last());
    }
}

/// A request that ends without ever having received a valid response ends
/// with the error for a spent budget, and that error names the configured
/// number of attempts.
pub proof fn lemma_exhausted_without_response<H, R>(
    policy: RetryPolicy,
    payload: Seq<u8>,
    conn: ConnectionModel<H>,
    events: Seq<Event<H, R>>,
    at: int,
)
    requires
        forall|i: int| 0 <= i < events.len() ==> !is_valid_response(#[trigger] events[i]),
        0 <= at <= events.len(),
        trace(policy, payload, conn, events).actions[at] is Done,
    ensures
        trace(policy, payload, conn, events).actions[at] matches Action::Done(
            Err(SendError::AttemptsExhausted { attempts, last_cause }),
        ) && attempts == policy.max_attempts && (policy.max_attempts >= 1 ==> last_cause is Some),
    decreases events.len(),
{
    let t = trace(policy, payload, conn, events);
    lemma_trace_keeps_policy(policy, payload, conn, events);
    if events.len() == 0 {
    } else {
        let before = trace(policy, payload, conn, events.drop_last());
        lemma_trace_keeps_policy(policy, payload, conn, events.drop_last());
        if at < events.len() {
            assert(t.actions[at] == before.actions[at]);
            assert forall|i: int| 0 <= i < events.drop_last().len() implies !is_valid_response(
                #[trigger] events.drop_last()[i],
            ) by {
                assert(events.drop_last()[i] == events[i]);
            }
            lemma_exhausted_without_response(policy, payload, conn, events.drop_last(), at);
        } else {
            lemma_step(before.exchange, before.conn, events.last());
            assert(!is_valid_response(events[events.len() - 1]));
        }
    }
}

/// On a connection that is alive, a request whose transport never fails
/// probes once, writes once, reads one prefix and one payload, and ends in
/// the first attempt with the response payload exactly as it was read. The
/// connection is left as it was found.
pub proof fn lemma_round_trip_on_live_connection<H, R>(
    policy: RetryPolicy,
    payload: Seq<u8>,
    handle: H,
    header: [u8; 4],
    response: R,
)
    requires
        policy.max_attempts >= 1,
    ensures
        ({
            let conn = ConnectionModel { slot: Some(handle), reconnecting: false };
            let s0 = ExchangeModel::start::<H, R>(policy, payload, conn);
            let s1 = s0.0.next(s0.1, Event::<H, R>::Probed(true));
            let s2 = s1.0.next(s1.1, Event::<H, R>::Written(Ok(())));
            let s3 = s2.0.next(s2.1, Event::<H, R>::HeaderRead(Ok(header)));
            let s4 = s3.0.next(s3.1, Event::<H, R>::BodyRead(Ok(Reply::Success(response))));
            &&& s0.2 == Action::<R>::Probe
            &&& s1.2 == Action::<R>::Write
            &&& s2.2 == Action::<R>::ReadHeader
            &&& s3.2 == Action::<R>::ReadBody(header_value(header@) as u32)
            &&& s4.2 == Action::<R>::Done(Ok(response))
            &&& s4.0.attempt == 1
            &&& s4.0.phase is Finished
            &&& s4.1 == conn
        }),
{
}

/// On an empty slot, a request whose transport never fails dials once,
/// writes once, reads one prefix and one payload, and ends in the first
/// attempt with the response payload exactly as it was read. The new handle
/// stays in the slot, and the reconnecting flag is clear again.
pub proof fn lemma_round_trip_after_dial<H, R>(
    policy: RetryPolicy,
    payload: Seq<u8>,
    handle: H,
    header: [u8; 4],
    response: R,
)
    requires
        policy.max_attempts >= 1,
    ensures
        ({
            let conn = ConnectionModel::<H> { slot: None, reconnecting: false };
            let s0 = ExchangeModel::start::<H, R>(policy, payload, conn);
            let s1 = s0.0.next(s0.1, Event::<H, R>::Dialed(Ok(handle)));
            let s2 = s1.0.next(s1.1, Event::<H, R>::Written(Ok(())));
            let s3 = s2.0.next(s2.1, Event::<H, R>::HeaderRead(Ok(header)));
            let s4 = s3.0.next(s3.1, Event::<H, R>::BodyRead(Ok(Reply::Success(response))));
            &&& s0.2 == Action::<R>::Dial
            &&& s0.1.reconnecting
            &&& s1.2 == Action::<R>::Write
            &&& s2.2 == Action::<R>::ReadHeader
            &&& s3.2 == Action::<R>::ReadBody(header_value(header@) as u32)
            &&& s4.2 == Action::<R>::Done(Ok(response))
            &&& s4.0.attempt == 1
            &&& s4.0.phase is Finished
            &&& s4.1 == (ConnectionModel { slot: Some(handle), reconnecting: false })
        }),
{
}

/// A request whose write fails in the first and in the second attempt and
/// whose third attempt meets no failure ends with the response. Each failed
/// write empties the slot, so the next attempt dials; before the second
/// attempt the request sleeps the policy's first delay, and before the third
/// its second.
pub proof fn lemma_third_attempt_succeeds<H, R>(
    policy: RetryPolicy,
    payload: Seq<u8>,
    first: H,
    second: H,
    third: H,
    reports: (String, String),
    header: [u8; 4],
    response: R,
)
    requires
        policy.max_attempts >= 3,
    ensures
        ({
            let conn = ConnectionModel { slot: Some(first), reconnecting: false };
            let s0 = ExchangeModel::start::<H, R>(policy, payload, conn);
            let s1 = s0.0.next(s0.1, Event::<H, R>::Probed(true));
            let s2 = s1.0.next(s1.1, Event::<H, R>::Written(Err(reports.0)));
            let s3 = s2.0.next(s2.1, Event::<H, R>::Slept);
            let s4 = s3.0.next(s3.1, Event::<H, R>::Dialed(Ok(second)));
            let s5 = s4.0.next(s4.1, Event::<H, R>::Written(Err(reports.1)));
            let s6 = s5.0.next(s5.1, Event::<H, R>::Slept);
            let s7 = s6.0.next(s6.1, Event::<H, R>::Dialed(Ok(third)));
            let s8 = s7.0.next(s7.1, Event::<H, R>::Written(Ok(())));
            let s9 = s8.0.next(s8.1, Event::<H, R>::HeaderRead(Ok(header)));
            let s10 = s9.0.next(s9.1, Event::<H, R>::BodyRead(Ok(Reply::Success(response))));
            &&& s0.2 == Action::<R>::Probe
            &&& s1.2 == Action::<R>::Write
            &&& s2.2 == Action::<R>::Sleep(policy.delay_after(1))
            &&& s2.1.slot is None
            &&& s3.2 == Action::<R>::Dial
            &&& s4.2 == Action::<R>::Write
            &&& s5.2 == Action::<R>::Sleep(policy.delay_after(2))
            &&& s5.1.slot is None
            &&& s6.2 == Action::<R>::Dial
            &&& s7.2 == Action::<R>::Write
            &&& s8.2 == Action::<R>::ReadHeader
            &&& s9.2 == Action::<R>::ReadBody(header_value(header@) as u32)
            &&& s10.2 == Action::<R>::Done(Ok(response))
            &&& s10.0.attempt == 3
            &&& s10.1 == (ConnectionModel { slot: Some(third), reconnecting: false })
            &&& policy.initial_backoff_ms == 500 && policy.multiplier == 2 ==> s2.2
                == Action::<R>::Sleep(500) && s5.2 == Action::<R>::Sleep(1000)
        }),
{
    if policy.initial_backoff_ms == 500 && policy.multiplier == 2 {
        lemma_default_delays(policy);
    }
}

/// A response in the server's error shape ends the request at once with
/// the server's message, in whichever attempt it arrives: the connection is
/// kept, no sleep and no further attempt follows, and every later event is
/// answered with nothing to do.
pub proof fn lemma_server_error_ends_request<H, R>(
    exchange: ExchangeModel,
    conn: ConnectionModel<H>,
    message: String,
    later: Event<H, R>,
)
    requires
        exchange.phase is ReadingBody,
    ensures
        ({
            let answer = Event::<H, R>::BodyRead(Ok(Reply::Error(message)));
            let ended = exchange.next(conn, answer);
            let then = ended.0.next(ended.1, later);
            &&& ended.2 == Action::<R>::Done(Err(SendError::Server(message)))
            &&& ended.0 == exchange.in_phase(Phase::Finished)
            &&& ended.1 == conn
            &&& then.2 == Action::<R>::Idle
            &&& then.0 == ended.0
            &&& then.1 == ended.1
        }),
{
}

/// A malformed response fails the attempt like a transport fault, but the
/// connection is kept for the next attempt.
pub proof fn lemma_malformed_response_keeps_connection<H, R>(
    exchange: ExchangeModel,
    conn: ConnectionModel<H>,
    detail: String,
)
    requires
        exchange.phase is ReadingBody,
    ensures
        ({
            let answer = Event::<H, R>::BodyRead(Ok(Reply::Malformed(detail)));
            let after = exchange.next(conn, answer);
            &&& after.1 == conn
            &&& after.0 == exchange.fail::<R>(Fault::Decode(detail)).0
            &&& after.2 == exchange.fail::<R>(Fault::Decode(detail)).1
        }),
{
}

/// The sleeps of a request add up to the policy's total delay for as many
/// failed attempts.
pub proof fn lemma_sum_of_backoff(policy: RetryPolicy, delays: Seq<u64>)
    requires
        follows_backoff(policy, delays),
    ensures
        sum(delays) == policy.total_delay(delays.len()),
    decreases delays.len(),
{
    if delays.len() > 0 {
        let init = delays.drop_last();
        assert forall|k: int| 0 <= k < init.len() implies #[trigger] init[k]
            == policy.delay_after((k + 1) as nat) by {
            assert(init[k] == delays[k]);
        }
        lemma_sum_of_backoff(policy, init);
        assert(delays.last() == delays[delays.len() - 1]);
    }
}

/// What the caller reports while nothing listens at the server's address:
/// every dial fails with `report`, and every sleep ends.
pub open spec fn refused<H, R>(reports: nat, report: String) -> Seq<Event<H, R>> {
    Seq::new(
        reports,
        |i: int|
            if i % 2 == 0 {
                Event::<H, R>::Dialed(Err(report))
            } else {
                Event::<H, R>::Slept
            },
    )
}

proof fn lemma_refused_prefix<H, R>(policy: RetryPolicy, payload: Seq<u8>, report: String, seen: nat)
    requires
        policy.max_attempts >= 1,
        seen <= 2 * policy.max_attempts - 1,
    ensures
        ({
            let empty = ConnectionModel::<H> { slot: None, reconnecting: false };
            let t = trace(policy, payload, empty, refused::<H, R>(seen, report));
            &&& t.conn.slot is None
            &&& seen == 2 * policy.max_attempts - 1 ==> {
                &&& t.actions.last() == Action::<R>::Done(
                    Err(
                        SendError::AttemptsExhausted {
                            attempts: policy.max_attempts,
                            last_cause: Some(Fault::Dial(report)),
                        },
                    ),
                )
                &&& t.exchange.attempt == policy.max_attempts
                &&& dials(t.actions) == policy.max_attempts
            }
            &&& seen < 2 * policy.max_attempts - 1 && seen % 2 == 0 ==> {
                &&& t.exchange.phase is Dialing
                &&& t.exchange.attempt == seen / 2 + 1
                &&& t.conn.reconnecting
                &&& dials(t.actions) == seen / 2 + 1
            }
            &&& seen < 2 * policy.max_attempts - 1 && seen % 2 == 1 ==> {
                &&& t.exchange.phase is Sleeping
                &&& t.exchange.attempt == seen / 2 + 2
                &&& !t.conn.reconnecting
                &&& dials(t.actions) == seen / 2 + 1
            }
        }),
    decreases seen,
{
    let empty = ConnectionModel::<H> { slot: None, reconnecting: false };
    let events = refused::<H, R>(seen, report);
    let t = trace(policy, payload, empty, events);
    if seen == 0 {
        assert(t.actions.drop_last() =~= Seq::<Action<R>>::empty());
        assert(dials(t.actions.drop_last()) == 0);
    } else {
        assert(events.drop_last() =~= refused::<H, R>((seen - 1) as nat, report));
        lemma_refused_prefix::<H, R>(policy, payload, report, (seen - 1) as nat);
        let before = trace(policy, payload, empty, events.drop_last());
        let after = before.exchange.next(before.conn, events.last());
        lemma_trace_keeps_policy(policy, payload, empty, events.drop_last());
        assert(t.actions.drop_last() =~= before.actions);
        assert(t.actions.last() == after.2);
    }
}

/// While nothing listens at the server's address, a request dials once in
/// each attempt that its policy allows and then ends with the error for a
/// spent budget, which names the configured number of attempts and the last
/// dial's report. Between the dials it sleeps the policy's delays in order:
/// in all, the total delay for one failure fewer than there were attempts.
pub proof fn lemma_unreachable_server<H, R>(policy: RetryPolicy, payload: Seq<u8>, report: String)
    requires
        policy.max_attempts >= 1,
    ensures
        ({
            let empty = ConnectionModel::<H> { slot: None, reconnecting: false };
            let reports = (2 * policy.max_attempts - 1) as nat;
            let t = trace(policy, payload, empty, refused::<H, R>(reports, report));
            &&& t.actions.last() == Action::<R>::Done(
                Err(
                    SendError::AttemptsExhausted {
                        attempts: policy.max_attempts,
                        last_cause: Some(Fault::Dial(report)),
                    },
                ),
            )
            &&& dials(t.actions) == policy.max_attempts
            &&& sleeps(t.actions).len() == policy.max_attempts - 1
            &&& follows_backoff(policy, sleeps(t.actions))
            &&& sum(sleeps(t.actions)) == policy.total_delay((policy.max_attempts - 1) as nat)
            &&& policy.max_attempts == 3 && policy.initial_backoff_ms == 500 && policy.multiplier
                == 2 ==> sleeps(t.actions) == seq![500u64, 1000u64] && sum(sleeps(t.actions))
                == 1500
        }),
{
    if policy.initial_backoff_ms == 500 && policy.multiplier == 2 {
        lemma_default_delays(policy);
    }
    let empty = ConnectionModel::<H> { slot: None, reconnecting: false };
    let reports = (2 * policy.max_attempts - 1) as nat;
    let t = trace(policy, payload, empty, refused::<H, R>(reports, report));
    lemma_refused_prefix::<H, R>(policy, payload, report, reports);
    lemma_trace_keeps_policy(policy, payload, empty, refused::<H, R>(reports, report));
    lemma_sum_of_backoff(policy, sleeps(t.actions));
}

} // verus!
