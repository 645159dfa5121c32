//! What the control plane answers to each request.

use crate::proxy::connections::{ApiError, ApiState, ConnectionState, ConnectionStatus};
use std::time::Duration;
use tokio::sync::oneshot;
use vstd::prelude::*;

verus! {

/// The status of a request that was carried out.
pub const ACCEPTED: u16 = 202;

impl ApiError {
    /// The status that the error is answered with.
    pub fn status(&self) -> (status: u16)
        ensures
            status == match *self {
                ApiError::NotFound => 404u16,
                ApiError::BadProbability => 400u16,
                ApiError::Internal => 500u16,
            },
    {
        match *self {
            ApiError::NotFound => 404,
            ApiError::BadProbability => 400,
            ApiError::Internal => 500,
        }
    }

    /// The text that describes the error.
    pub fn message(&self) -> (text: &'static str)
        ensures
            text@ == match *self {
                ApiError::NotFound => "connection not found"@,
                ApiError::BadProbability => "invalid probability; must be between 0.0 and 1.0"@,
                ApiError::Internal => "internal error"@,
            },
    {
        match *self {
            ApiError::NotFound => "connection not found",
            ApiError::BadProbability => "invalid probability; must be between 0.0 and 1.0",
            ApiError::Internal => "internal error",
        }
    }
}

/// Asks for the shutdown of one connection, or of all.
#[derive(Debug)]
pub struct ShutdownReq {
    /// What the connections are told.
    pub reason: String,
}

/// Asks for another latency.
#[derive(Debug)]
pub struct DelayReq {
    /// The latency in milliseconds.
    pub delay_ms: u64,
}

/// Asks for another bandwidth.
#[derive(Debug)]
pub struct ThrottleReq {
    /// The bandwidth in bytes per second.
    pub rate_bytes: usize,
}

/// Asks for another size of write slices.
#[derive(Debug)]
pub struct SliceReq {
    /// The size in bytes.
    pub size_bytes: usize,
}

/// Asks for another termination probability.
#[derive(Debug)]
pub struct TerminationReq {
    /// The bits of the probability.
    pub probability_rate: u64,
}

/// Asks for another corruption probability.
#[derive(Debug)]
pub struct CorruptionReq {
    /// The bits of the probability.
    pub probability_rate: u64,
}

/// The answer to a request on one connection that cannot fail once the connection is found.
pub open spec fn answer_if_found(state: ApiState, id: Seq<char>) -> Result<u16, ApiError> {
    if state.table().contains_key(id) {
        Ok(ACCEPTED)
    } else {
        Err(ApiError::NotFound)
    }
}

/// The answer to a request that sets a probability of one connection.
pub open spec fn answer_if_probable(state: ApiState, id: Seq<char>, bits: u64) -> Result<
    u16,
    ApiError,
> {
    if !state.table().contains_key(id) {
        Err(ApiError::NotFound)
    } else if !crate::binary64::in_unit_interval(bits) {
        Err(ApiError::BadProbability)
    } else {
        Ok(ACCEPTED)
    }
}

/// Answers what all connections are set to, in no particular order.
pub fn list_connections(state: &ApiState) -> (result: Result<Vec<ConnectionStatus>, ApiError>)
    requires
        state.wf(),
    ensures
        result matches Ok(statuses) && crate::proxy::connections::lists(
            statuses@,
            state.table(),
        ),
{
    Ok(state.all())
}

/// Sets the latency of a connection.
pub fn set_delay(state: &ApiState, id: &str, req: DelayReq) -> (result: Result<u16, ApiError>)
    ensures
        result == answer_if_found(*state, id@),
        state.table().contains_key(id@) ==> result == Ok::<u16, ApiError>(202),
        !state.table().contains_key(id@) ==> result == Err::<u16, ApiError>(ApiError::NotFound),
        result is Ok ==> state.table()[id@].knobs.delay.delays().contains(
            crate::delayer::truncated_nanos((req.delay_ms * 1_000_000) as nat),
        ),
{
    match state.set_delay(id, Duration::from_millis(req.delay_ms)) {
        Ok(()) => Ok(ACCEPTED),
        Err(error) => Err(error),
    }
}

/// Sets the bandwidth of a connection.
pub fn set_throttle(state: &ApiState, id: &str, req: ThrottleReq) -> (result: Result<
    u16,
    ApiError,
>)
    ensures
        result == answer_if_found(*state, id@),
        state.table().contains_key(id@) ==> result == Ok::<u16, ApiError>(202),
        !state.table().contains_key(id@) ==> result == Err::<u16, ApiError>(ApiError::NotFound),
        result is Ok ==> state.table()[id@].knobs.throttle_rate.rates().contains(req.rate_bytes),
{
    match state.set_throttle_rate(id, req.rate_bytes) {
        Ok(()) => Ok(ACCEPTED),
        Err(error) => Err(error),
    }
}

/// Sets the size of the write slices of a connection.
pub fn set_slice(state: &ApiState, id: &str, req: SliceReq) -> (result: Result<u16, ApiError>)
    ensures
        result == answer_if_found(*state, id@),
        state.table().contains_key(id@) ==> result == Ok::<u16, ApiError>(202),
        !state.table().contains_key(id@) ==> result == Err::<u16, ApiError>(ApiError::NotFound),
        result is Ok ==> state.table()[id@].knobs.slice_size.sizes().contains(req.size_bytes),
{
    match state.set_slice_size(id, req.size_bytes) {
        Ok(()) => Ok(ACCEPTED),
        Err(error) => Err(error),
    }
}

/// Sets how likely an operation terminates a connection.
pub fn set_termination(state: &ApiState, id: &str, req: TerminationReq) -> (result: Result<
    u16,
    ApiError,
>)
    ensures
        result == answer_if_probable(*state, id@, req.probability_rate),
        !state.table().contains_key(id@) ==> result == Err::<u16, ApiError>(ApiError::NotFound),
        state.table().contains_key(id@) ==> result == if crate::binary64::in_unit_interval(
            req.probability_rate,
        ) {
            Ok::<u16, ApiError>(202)
        } else {
            Err::<u16, ApiError>(ApiError::BadProbability)
        },
        result is Ok ==> state.table()[id@].knobs.terminate_probability.takes(
            req.probability_rate,
        ),
{
    match state.set_terminate_probability_rate(id, req.probability_rate) {
        Ok(()) => Ok(ACCEPTED),
        Err(error) => Err(error),
    }
}

/// Sets how likely an operation corrupts data.
pub fn set_corruption(state: &ApiState, id: &str, req: CorruptionReq) -> (result: Result<
    u16,
    ApiError,
>)
    ensures
        result == answer_if_probable(*state, id@, req.probability_rate),
        !state.table().contains_key(id@) ==> result == Err::<u16, ApiError>(ApiError::NotFound),
        state.table().contains_key(id@) ==> result == if crate::binary64::in_unit_interval(
            req.probability_rate,
        ) {
            Ok::<u16, ApiError>(202)
        } else {
            Err::<u16, ApiError>(ApiError::BadProbability)
        },
        result is Ok ==> state.table()[id@].knobs.corrupt_probability.takes(req.probability_rate),
{
    match state.set_corrupt_probability_rate(id, req.probability_rate) {
        Ok(()) => Ok(ACCEPTED),
        Err(error) => Err(error),
    }
}

/// The one message that a channel takes from its sender, if it ever takes one.
pub uninterp spec fn channel_message(sender: oneshot::Sender<String>) -> Option<Seq<char>>;

/// `oneshot::Sender::send`: the channel takes `message`, or hands it back and, the sender being
/// used up, never takes any. Which of the two depends on whether the receiver has hung up, and
/// nothing is said of that.
#[verifier::external_body]
fn send_message(sender: oneshot::Sender<String>, message: String) -> (sent: Result<(), String>)
    ensures
        sent is Ok ==> channel_message(sender) == Some(message@),
        sent matches Err(back) ==> back@ == message@ && channel_message(sender) is None,
{
    sender.send(message)
}

/// Tells a connection to shut down. Returns whether it was still there to be told: the channel of
/// the connection has taken the reason, or it never takes anything.
pub fn notify(connection: ConnectionState, reason: &String) -> (sent: bool)
    ensures
        channel_message(connection.tx) == if sent {
            Some(reason@)
        } else {
            None
        },
{
    match send_message(connection.tx, reason.clone()) {
        Ok(()) => true,
        Err(_) => false,
    }
}

/// Tells connections to shut down, all of them even if some fail. Returns of each whether it was
/// still there to be told.
pub fn notify_all(connections: Vec<ConnectionState>, reason: &String) -> (sent: Vec<bool>)
    ensures
        sent@.len() == connections@.len(),
        forall|i: int|
            0 <= i < sent@.len() ==> channel_message(connections@[i].tx) == if #[trigger] sent@[i] {
                Some(reason@)
            } else {
                None
            },
{
    let mut sent: Vec<bool> = Vec::new();
    for connection in it: connections
        invariant
            sent@.len() == it.index(),
            it.seq() == connections@,
            forall|i: int|
                0 <= i < sent@.len() ==> channel_message(connections@[i].tx)
                    == if #[trigger] sent@[i] {
                    Some(reason@)
                } else {
                    None
                },
    {
        sent.push(notify(connection, reason));
    }
    sent
}

/// The answer to a shutdown, given of each connection whether it was told: an error if and only
/// if one was not.
pub fn shutdown_answer(sent: &[bool]) -> (result: Result<u16, ApiError>)
    ensures
        result == if forall|i: int| 0 <= i < sent@.len() ==> #[trigger] sent@[i] {
            Ok::<u16, ApiError>(ACCEPTED)
        } else {
            Err::<u16, ApiError>(ApiError::Internal)
        },
{
    let mut send_failed = false;
    let mut i: usize = 0;
    while i < sent.len()
        invariant
            i <= sent@.len(),
            send_failed <==> exists|k: int| 0 <= k < i && !(#[trigger] sent@[k]),
        decreases sent@.len() - i,
    {
        if !sent[i] {
            send_failed = true;
        }
        i = i + 1;
    }
    if send_failed {
        Err(ApiError::Internal)
    } else {
        Ok(ACCEPTED)
    }
}

/// Shuts down a connection. It is tracked no more, even if it could not be told.
pub fn shutdown_connection(state: &mut ApiState, id: &str, req: ShutdownReq) -> (result: Result<
    u16,
    ApiError,
>)
    requires
        old(state).wf(),
    ensures
        final(state).wf(),
        final(state).table() == old(state).table().remove(id@),
        result == Err::<u16, ApiError>(ApiError::NotFound) <==> !old(state).table().contains_key(
            id@,
        ),
        old(state).table().contains_key(id@) ==> match channel_message(
            old(state).table()[id@].tx,
        ) {
            Some(message) => message == req.reason@ && result == Ok::<u16, ApiError>(ACCEPTED),
            None => result == Err::<u16, ApiError>(ApiError::Internal),
        },
{
    match state.remove_connection(id) {
        Err(error) => Err(error),
        Ok(connection) => {
            let sent = [notify(connection, &req.reason)];
            shutdown_answer(&sent)
        },
    }
}

/// Shuts down all connections. None is tracked any more, even if some could not be told.
pub fn shutdown_all_connections(state: &mut ApiState, req: ShutdownReq) -> (result: Result<
    u16,
    ApiError,
>)
    requires
        old(state).wf(),
    ensures
        final(state).wf(),
        final(state).table() == crate::proxy::connections::no_connections(),
        result == Ok::<u16, ApiError>(ACCEPTED) || result == Err::<u16, ApiError>(
            ApiError::Internal,
        ),
        forall|id: Seq<char>| #[trigger]
            old(state).table().contains_key(id) ==> (channel_message(
                old(state).table()[id].tx,
            ) matches Some(message) ==> message == req.reason@),
        result is Ok <==> forall|id: Seq<char>| #[trigger]
            old(state).table().contains_key(id) ==> channel_message(
                old(state).table()[id].tx,
            ) is Some,
{
    let ghost before = state.table();
    let removed = state.remove_all();
    let ghost connections = removed@;
    let sent = notify_all(removed, &req.reason);
    let result = shutdown_answer(&sent);
    proof {
        assert forall|id: Seq<char>| #[trigger] before.contains_key(id) implies {
            &&& channel_message(before[id].tx) matches Some(message) ==> message == req.reason@
            &&& result is Ok ==> channel_message(before[id].tx) is Some
        } by {
            let i = choose|i: int|
                0 <= i < connections.len() && (#[trigger] connections[i]).id() == id;
            assert(before[connections[i].id()] == connections[i]);
            assert(sent@[i] ==> channel_message(connections[i].tx) == Some(req.reason@));
        }
        if result is Err {
            let i = choose|i: int| 0 <= i < sent@.len() && !(#[trigger] sent@[i]);
            assert(before.contains_key(connections[i].id()));
            assert(channel_message(connections[i].tx) is None);
        }
    }
    result
}

/// Once a connection is removed, a request on it is answered that it is not found, and requests
/// on other connections are answered as before.
pub proof fn law_removed_connection_is_not_found(before: ApiState, after: ApiState, id: Seq<char>)
    requires
        after.table() == before.table().remove(id),
    ensures
        answer_if_found(after, id) == Err::<u16, ApiError>(ApiError::NotFound),
        forall|bits: u64| #[trigger]
            answer_if_probable(after, id, bits) == Err::<u16, ApiError>(ApiError::NotFound),
        forall|other: Seq<char>|
            other != id ==> #[trigger] answer_if_found(after, other) == answer_if_found(
                before,
                other,
            ),
        forall|other: Seq<char>, bits: u64|
            other != id ==> #[trigger] answer_if_probable(after, other, bits)
                == answer_if_probable(before, other, bits),
{
}

/// Once a connection is tracked, requests on it are carried out, and requests on other
/// connections are answered as before.
pub proof fn law_tracked_connection_is_found(
    before: ApiState,
    after: ApiState,
    connection: ConnectionState,
)
    requires
        after.table() == before.table().insert(connection.id(), connection),
    ensures
        answer_if_found(after, connection.id()) == Ok::<u16, ApiError>(ACCEPTED),
        forall|bits: u64| #[trigger]
            answer_if_probable(after, connection.id(), bits) is Ok
                <==> crate::binary64::in_unit_interval(bits),
        forall|other: Seq<char>|
            other != connection.id() ==> #[trigger] answer_if_found(after, other)
                == answer_if_found(before, other),
        forall|other: Seq<char>, bits: u64|
            other != connection.id() ==> #[trigger] answer_if_probable(after, other, bits)
                == answer_if_probable(before, other, bits),
{
}

/// After the shutdown of all connections a request on any connection is answered that it is not
/// found.
pub proof fn law_nothing_is_found_after_full_shutdown(after: ApiState, id: Seq<char>)
    requires
        after.table() == crate::proxy::connections::no_connections(),
    ensures
        answer_if_found(after, id) == Err::<u16, ApiError>(ApiError::NotFound),
        forall|bits: u64| #[trigger]
            answer_if_probable(after, id, bits) == Err::<u16, ApiError>(ApiError::NotFound),
{
}

/// A number that is not between 0 and 1 is never accepted as a probability.
pub proof fn law_bad_probability_is_never_accepted(state: ApiState, id: Seq<char>, bits: u64)
    requires
        !crate::binary64::in_unit_interval(bits),
    ensures
        answer_if_probable(state, id, bits) is Err,
        state.table().contains_key(id) ==> answer_if_probable(state, id, bits) == Err::<
            u16,
            ApiError,
        >(ApiError::BadProbability),
{
}

/// A request on one connection is answered 202 if the connection is there and what it asks for can
/// be done; a bad probability is told from a missing connection.
pub proof fn law_answers_follow_the_table(state: ApiState, id: Seq<char>, bits: u64)
    ensures
        state.table().contains_key(id) <==> answer_if_found(state, id) == Ok::<u16, ApiError>(202),
        !state.table().contains_key(id) <==> answer_if_found(state, id) == Err::<u16, ApiError>(
            ApiError::NotFound,
        ),
        answer_if_probable(state, id, bits) == Ok::<u16, ApiError>(202) <==> state.table(
        ).contains_key(id) && crate::binary64::in_unit_interval(bits),
        answer_if_probable(state, id, bits) == Err::<u16, ApiError>(ApiError::BadProbability) <==> (
        state.table().contains_key(id) && !crate::binary64::in_unit_interval(bits)),
        answer_if_probable(state, id, bits) == Err::<u16, ApiError>(ApiError::NotFound)
            <==> !state.table().contains_key(id),
{
}

} // verus!
