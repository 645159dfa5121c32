//! The life of one connection.

use crate::delayer::DynamicDuration;
use crate::probability::DynamicProbability;
use crate::proxy::config::Config;
use crate::proxy::connections::{
    ApiState, ConnId, ConnectionInfo, ConnectionKnobs, ConnectionState, ConnectionStatus,
};
use crate::slicer::DynamicSize;
use crate::throttler::DynamicRate;
use std::sync::Arc;
use std::time::Duration;
use tokio::sync::oneshot;
use vstd::prelude::*;

verus! {

/// How the two-way copy of a connection came to its end.
#[derive(Debug, Clone, Copy, PartialEq, Eq, Structural)]
pub enum ProxyOutcome {
    /// Both directions were copied to their end.
    Completed,
    /// The connection was terminated by chance.
    Terminated,
    /// The connection lasted as long as it may.
    TimedOut,
    /// The copy failed in another way.
    Failed,
}

/// Error that cuts off a connection that has lasted as long as it may.
#[derive(Debug, Clone, Copy, PartialEq, Eq, Structural)]
pub struct TimeoutError;

impl TimeoutError {
    /// The text that describes the error.
    pub fn message(&self) -> (text: &'static str)
        ensures
            text@ == "TimeoutError"@,
    {
        "TimeoutError"
    }
}

/// How many characters an identifier has.
pub const ID_LENGTH: usize = 21;

/// The characters that identifiers are made of.
pub open spec fn is_id_char(c: char) -> bool {
    ||| 'a' <= c <= 'z'
    ||| 'A' <= c <= 'Z'
    ||| '0' <= c <= '9'
    ||| c == '_'
    ||| c == '-'
}

/// An identifier as it is drawn.
pub open spec fn is_id(id: Seq<char>) -> bool {
    &&& id.len() == ID_LENGTH
    &&& forall|i: int| 0 <= i < id.len() ==> is_id_char(#[trigger] id[i])
}

/// `nanoid::format` with the default generator and alphabet: so many random characters out of the
/// 64 that need no escape in a URL. That no two draws are the same is not said.
#[verifier::external_body]
fn fresh_id() -> (id: ConnId)
    ensures
        is_id(id@),
{
    nanoid::format(nanoid::rngs::default, &nanoid::alphabet::SAFE, ID_LENGTH)
}

/// `text` with so many underscores behind it.
pub open spec fn lengthened(text: Seq<char>, count: nat) -> Seq<char> {
    text + Seq::new(count, |_i: int| '_')
}

/// `id` is the first of `drawn`, `drawn` with one underscore, with two, and so on, under which no
/// connection is tracked.
pub open spec fn is_first_unused(
    table: Map<Seq<char>, ConnectionState>,
    drawn: Seq<char>,
    id: Seq<char>,
) -> bool {
    &&& !table.contains_key(id)
    &&& exists|count: nat|
        id == #[trigger] lengthened(drawn, count) && forall|fewer: nat|
            fewer < count ==> table.contains_key(#[trigger] lengthened(drawn, fewer))
}

/// The identifiers in use that have so many characters or more.
spec fn in_use_from(table: Map<Seq<char>, ConnectionState>, length: nat) -> Set<Seq<char>> {
    table.dom().filter(|id: Seq<char>| id.len() >= length)
}

/// Past an identifier in use there are fewer longer ones.
proof fn lemma_fewer_in_use(
    table: Map<Seq<char>, ConnectionState>,
    id: Seq<char>,
    longer: nat,
)
    requires
        table.dom().finite(),
        table.contains_key(id),
        longer > id.len(),
    ensures
        in_use_from(table, longer).len() < in_use_from(table, id.len()).len(),
{
    table.dom().lemma_len_filter(|key: Seq<char>| key.len() >= id.len());
    in_use_from(table, longer).lemma_subset_not_in_lt(in_use_from(table, id.len()), id);
}

/// An identifier of its own for a new connection: `drawn`, or if that is in use, `drawn` with as
/// few underscores behind it as it takes.
pub fn unused_id(state: &ApiState, drawn: ConnId) -> (id: ConnId)
    requires
        state.wf(),
    ensures
        is_first_unused(state.table(), drawn@, id@),
        !state.table().contains_key(id@),
        !state.table().contains_key(drawn@) ==> id@ == drawn@,
        drawn@.is_prefix_of(id@),
        forall|i: int| drawn@.len() <= i < id@.len() ==> (#[trigger] id@[i]) == '_',
        forall|length: int|
            drawn@.len() <= length < id@.len() ==> state.table().contains_key(
                #[trigger] id@.take(length),
            ),
{
    let ghost text = drawn@;
    let ghost mut count: nat = 0;
    let mut id = drawn;
    proof {
        reveal_strlit("_");
        assert(id@ =~= lengthened(text, 0));
    }
    while state.is_tracked(id.as_str())
        invariant
            state.wf(),
            id@ == lengthened(text, count),
            "_"@ == seq!['_'],
            forall|fewer: nat|
                fewer < count ==> state.table().contains_key(#[trigger] lengthened(text, fewer)),
        decreases in_use_from(state.table(), id@.len()).len(),
    {
        proof {
            lemma_fewer_in_use(state.table(), id@, id@.len() + 1);
        }
        id.append("_");
        proof {
            assert(id@ =~= lengthened(text, count + 1));
            count = count + 1;
        }
    }
    proof {
        law_new_identifier_is_as_short_as_may_be(state.table(), text, id@);
    }
    id
}

/// `Arc::clone`: another handle on the same knobs.
#[verifier::external_body]
fn share(knobs: &Arc<ConnectionKnobs>) -> (handle: Arc<ConnectionKnobs>)
    ensures
        handle == *knobs,
{
    Arc::clone(knobs)
}

/// Knobs that start out as `config` says.
pub open spec fn start_as(knobs: ConnectionKnobs, config: Config) -> bool {
    &&& knobs.delay.delays().contains(
        crate::delayer::truncated_nanos((config.delay_ms * 1_000_000) as nat),
    )
    &&& knobs.throttle_rate.rates().contains(config.throttle_rate_bytes)
    &&& knobs.slice_size.sizes().contains(config.slice_size_bytes)
    &&& knobs.terminate_probability.takes(config.terminate_probability_rate)
    &&& knobs.corrupt_probability.takes(config.corrupt_probability_rate)
}

/// Makes the knobs of a connection, or none if a probability is not between 0 and 1.
pub fn initial_knobs(config: &Config, conn_info: ConnectionInfo) -> (result: Option<
    ConnectionKnobs,
>)
    ensures
        result is Some <==> config.valid(),
        result matches Some(knobs) ==> {
            &&& knobs.conn_info == conn_info
            &&& start_as(knobs, *config)
            &&& knobs.delay.delays().contains(
                ((config.delay_ms * 1_000_000) % 0x1_0000_0000_0000_0000) as u64,
            )
            &&& knobs.throttle_rate.rates().contains(config.throttle_rate_bytes)
            &&& knobs.slice_size.sizes().contains(config.slice_size_bytes)
            &&& knobs.terminate_probability.takes(config.terminate_probability_rate)
            &&& knobs.corrupt_probability.takes(config.corrupt_probability_rate)
        },
{
    let terminate_probability = match DynamicProbability::new(config.terminate_probability_rate) {
        Ok(knob) => knob,
        Err(_) => return None,
    };
    let corrupt_probability = match DynamicProbability::new(config.corrupt_probability_rate) {
        Ok(knob) => knob,
        Err(_) => return None,
    };
    Some(
        ConnectionKnobs {
            conn_info,
            delay: DynamicDuration::new(Duration::from_millis(config.delay_ms)),
            throttle_rate: DynamicRate::new(config.throttle_rate_bytes),
            slice_size: DynamicSize::new(config.slice_size_bytes),
            terminate_probability,
            corrupt_probability,
        },
    )
}

/// Tracks a new connection under `id` and returns its knobs, or does nothing if a probability is
/// not between 0 and 1.
pub fn register(
    state: &mut ApiState,
    config: &Config,
    id: ConnId,
    downstream: String,
    upstream: String,
    tx: oneshot::Sender<String>,
) -> (result: Option<Arc<ConnectionKnobs>>)
    requires
        old(state).wf(),
    ensures
        final(state).wf(),
        result is Some <==> config.valid(),
        result is None ==> final(state).table() == old(state).table(),
        result matches Some(knobs) ==> {
            &&& knobs.conn_info@ == (id@, downstream@, upstream@)
            &&& knobs.conn_info.id@ == id@
            &&& knobs.conn_info.downstream@ == downstream@
            &&& knobs.conn_info.upstream@ == upstream@
            &&& start_as(*knobs, *config)
            &&& knobs.delay.delays().contains(
                ((config.delay_ms * 1_000_000) % 0x1_0000_0000_0000_0000) as u64,
            )
            &&& knobs.throttle_rate.rates().contains(config.throttle_rate_bytes)
            &&& knobs.slice_size.sizes().contains(config.slice_size_bytes)
            &&& knobs.terminate_probability.takes(config.terminate_probability_rate)
            &&& knobs.corrupt_probability.takes(config.corrupt_probability_rate)
            &&& final(state).table() == old(state).table().insert(
                id@,
                (ConnectionState { knobs, tx }),
            )
        },
{
    match initial_knobs(config, ConnectionInfo { id, downstream, upstream }) {
        None => None,
        Some(knobs) => {
            let knobs = Arc::new(knobs);
            state.insert(ConnectionState { knobs: share(&knobs), tx });
            Some(knobs)
        },
    }
}

/// Tracks a new connection under an identifier of its own and returns its knobs, or does nothing
/// if a probability is not between 0 and 1.
pub fn open_connection(
    state: &mut ApiState,
    config: &Config,
    downstream: String,
    upstream: String,
    tx: oneshot::Sender<String>,
) -> (result: Option<Arc<ConnectionKnobs>>)
    requires
        old(state).wf(),
    ensures
        final(state).wf(),
        result is Some <==> config.valid(),
        result is None ==> final(state).table() == old(state).table(),
        result matches Some(knobs) ==> {
            &&& !old(state).table().contains_key(knobs.conn_info.id@)
            &&& knobs.conn_info.id@.len() >= 21
            &&& exists|drawn: Seq<char>| #[trigger]
                is_id(drawn) && is_first_unused(old(state).table(), drawn, knobs.conn_info.id@)
            &&& knobs.conn_info.downstream@ == downstream@
            &&& knobs.conn_info.upstream@ == upstream@
            &&& start_as(*knobs, *config)
            &&& knobs.delay.delays().contains(
                ((config.delay_ms * 1_000_000) % 0x1_0000_0000_0000_0000) as u64,
            )
            &&& knobs.throttle_rate.rates().contains(config.throttle_rate_bytes)
            &&& knobs.slice_size.sizes().contains(config.slice_size_bytes)
            &&& knobs.terminate_probability.takes(config.terminate_probability_rate)
            &&& knobs.corrupt_probability.takes(config.corrupt_probability_rate)
            &&& final(state).table() == old(state).table().insert(
                knobs.conn_info.id@,
                (ConnectionState { knobs, tx }),
            )
        },
{
    let drawn = fresh_id();
    assert(drawn@.len() == 21);
    let id = unused_id(state, drawn);
    register(state, config, id, downstream, upstream, tx)
}

/// Stops tracking a connection whose copy has ended, if it is still tracked. Returns whether both
/// streams are to be reset rather than closed: if and only if the connection was terminated by
/// chance or lasted as long as it may.
pub fn close_connection(state: &mut ApiState, id: &str, outcome: ProxyOutcome) -> (reset: bool)
    requires
        old(state).wf(),
    ensures
        final(state).wf(),
        final(state).table() == old(state).table().remove(id@),
        reset <==> outcome == ProxyOutcome::Terminated || outcome == ProxyOutcome::TimedOut,
{
    let _ = state.remove_connection(id);
    match outcome {
        ProxyOutcome::Terminated | ProxyOutcome::TimedOut => true,
        ProxyOutcome::Completed | ProxyOutcome::Failed => false,
    }
}

/// The knobs are never set to anything but what `config` says.
pub open spec fn stay_as(knobs: ConnectionKnobs, config: Config) -> bool {
    &&& forall|delay: u64| #[trigger]
        knobs.delay.delays().contains(delay) ==> delay == crate::delayer::truncated_nanos(
            (config.delay_ms * 1_000_000) as nat,
        )
    &&& forall|rate: usize| #[trigger]
        knobs.throttle_rate.rates().contains(rate) ==> rate == config.throttle_rate_bytes
    &&& forall|size: usize| #[trigger]
        knobs.slice_size.sizes().contains(size) ==> size == config.slice_size_bytes
    &&& crate::probability::only_takes(
        *knobs.terminate_probability,
        config.terminate_probability_rate,
    )
    &&& crate::probability::only_takes(*knobs.corrupt_probability, config.corrupt_probability_rate)
}

/// A connection whose knobs nobody turns is listed with the settings that it started with, the
/// latency as far as 64 bits of nanoseconds go.
pub proof fn law_untouched_connection_shows_its_settings(
    knobs: ConnectionKnobs,
    config: Config,
    status: ConnectionStatus,
)
    requires
        stay_as(knobs, config),
        knobs.may_show(status),
    ensures
        crate::clock::duration_nanos(status.delay) == (config.delay_ms * 1_000_000)
            % 0x1_0000_0000_0000_0000,
        status.throttle_rate == config.throttle_rate_bytes,
        status.slice_size == config.slice_size_bytes,
        status.terminate_probability_rate == config.terminate_probability_rate,
        status.corrupt_probability_rate == config.corrupt_probability_rate,
{
    let read = crate::clock::duration_nanos(status.delay);
    assert(knobs.delay.delays().contains(read as u64));
}

/// Identifiers are unique: a connection that is opened takes the place of no other.
pub proof fn law_opened_connection_replaces_none(
    before: ApiState,
    after: ApiState,
    drawn: Seq<char>,
    connection: ConnectionState,
)
    requires
        is_first_unused(before.table(), drawn, connection.id()),
        after.table() == before.table().insert(connection.id(), connection),
    ensures
        after.table().contains_key(connection.id()),
        after.table()[connection.id()] == connection,
        forall|other: Seq<char>| #[trigger]
            before.table().contains_key(other) ==> {
                &&& other != connection.id()
                &&& after.table().contains_key(other)
                &&& after.table()[other] == before.table()[other]
            },
{
}

/// A connection that is opened under a new identifier and then closed leaves the table as it was.
pub proof fn law_open_then_close_restores_the_table(
    before: ApiState,
    opened: ApiState,
    closed: ApiState,
    connection: ConnectionState,
)
    requires
        !before.table().contains_key(connection.id()),
        opened.table() == before.table().insert(connection.id(), connection),
        closed.table() == opened.table().remove(connection.id()),
    ensures
        closed.table() == before.table(),
{
    assert(closed.table() =~= before.table());
}

/// A new identifier is the one drawn if that is free. Otherwise it is the one drawn with nothing
/// but underscores behind it, and with one fewer it would be in use.
pub proof fn law_new_identifier_is_as_short_as_may_be(
    table: Map<Seq<char>, ConnectionState>,
    drawn: Seq<char>,
    id: Seq<char>,
)
    requires
        is_first_unused(table, drawn, id),
    ensures
        !table.contains_key(id),
        !table.contains_key(drawn) ==> id == drawn,
        drawn.is_prefix_of(id),
        forall|i: int| drawn.len() <= i < id.len() ==> (#[trigger] id[i]) == '_',
        forall|length: int|
            drawn.len() <= length < id.len() ==> table.contains_key(#[trigger] id.take(length)),
{
    let count = choose|count: nat|
        id == #[trigger] lengthened(drawn, count) && forall|fewer: nat|
            fewer < count ==> table.contains_key(#[trigger] lengthened(drawn, fewer));
    assert(drawn =~= lengthened(drawn, 0));
    assert(id.subrange(0, drawn.len() as int) =~= drawn);
    assert forall|length: int| drawn.len() <= length < id.len() implies table.contains_key(
        #[trigger] id.take(length),
    ) by {
        let fewer = (length - drawn.len()) as nat;
        assert(fewer < count);
        assert(id.take(length) =~= lengthened(drawn, fewer));
    }
    if !table.contains_key(drawn) && count > 0 {
        assert(table.contains_key(lengthened(drawn, 0)));
    }
}

/// The knobs of a new connection take the settings that it is opened with, each its own.
pub proof fn law_new_connection_takes_its_settings(knobs: ConnectionKnobs, config: Config)
    requires
        start_as(knobs, config),
    ensures
        knobs.delay.delays().contains(
            ((config.delay_ms * 1_000_000) % 0x1_0000_0000_0000_0000) as u64,
        ),
        knobs.throttle_rate.rates().contains(config.throttle_rate_bytes),
        knobs.slice_size.sizes().contains(config.slice_size_bytes),
        knobs.terminate_probability.takes(config.terminate_probability_rate),
        knobs.corrupt_probability.takes(config.corrupt_probability_rate),
{
}

/// A drawn identifier has 21 characters, none of which needs an escape in a URL.
pub proof fn law_drawn_identifier_is_url_safe(id: Seq<char>, i: int)
    requires
        is_id(id),
        0 <= i < id.len(),
    ensures
        id.len() == 21,
        'a' <= id[i] <= 'z' || 'A' <= id[i] <= 'Z' || '0' <= id[i] <= '9' || id[i] == '_' || id[i]
            == '-',
{
    assert(is_id_char(id[i]));
}

} // verus!
