//! The connections that the proxy tracks.

use crate::delayer::{Duration, DynamicDuration};
use crate::probability::{DynamicProbability, Probability};
use crate::slicer::{DynamicSize, Size};
use crate::throttler::DynamicRate;
use ahash::RandomState;
use dashmap::DashMap;
use std::sync::Arc;
use std::time;
use tokio::sync::oneshot;
use vstd::prelude::*;

verus! {

/// What identifies a connection.
pub type ConnId = String;

/// Who is connected with whom.
#[derive(Debug)]
pub struct ConnectionInfo {
    /// The identifier of the connection.
    pub id: ConnId,
    /// The address of the client.
    pub downstream: String,
    /// The address that the proxy forwards to.
    pub upstream: String,
}

impl View for ConnectionInfo {
    type V = (Seq<char>, Seq<char>, Seq<char>);

    open spec fn view(&self) -> (Seq<char>, Seq<char>, Seq<char>) {
        (self.id@, self.downstream@, self.upstream@)
    }
}

impl Clone for ConnectionInfo {
    fn clone(&self) -> (copy: Self)
        ensures
            copy@ == self@,
            copy.id@ == self.id@,
            copy.downstream@ == self.downstream@,
            copy.upstream@ == self.upstream@,
    {
        ConnectionInfo {
            id: self.id.clone(),
            downstream: self.downstream.clone(),
            upstream: self.upstream.clone(),
        }
    }
}

/// What can be read and turned of a connection while it lasts.
#[derive(Debug)]
pub struct ConnectionKnobs {
    /// Who is connected with whom.
    pub conn_info: ConnectionInfo,
    /// The latency.
    pub delay: Arc<DynamicDuration>,
    /// The bandwidth.
    pub throttle_rate: Arc<DynamicRate>,
    /// The size of write slices.
    pub slice_size: Arc<DynamicSize>,
    /// How likely an operation terminates the connection.
    pub terminate_probability: Arc<DynamicProbability>,
    /// How likely an operation corrupts data.
    pub corrupt_probability: Arc<DynamicProbability>,
}

/// The settings of a connection at one moment.
#[derive(Debug)]
pub struct ConnectionStatus {
    /// Who is connected with whom.
    pub conn_info: ConnectionInfo,
    /// The latency.
    pub delay: time::Duration,
    /// The bandwidth.
    pub throttle_rate: usize,
    /// The size of write slices.
    pub slice_size: usize,
    /// The bits of the termination probability.
    pub terminate_probability_rate: u64,
    /// The bits of the corruption probability.
    pub corrupt_probability_rate: u64,
}

impl ConnectionKnobs {
    /// A reading of the knobs can give `status`.
    pub open spec fn may_show(&self, status: ConnectionStatus) -> bool {
        &&& status.conn_info@ == self.conn_info@
        &&& self.delay.may_report(crate::clock::duration_nanos(status.delay))
        &&& self.throttle_rate.rates().contains(status.throttle_rate)
        &&& self.slice_size.may_report(status.slice_size)
        &&& self.terminate_probability.may_report(status.terminate_probability_rate)
        &&& self.corrupt_probability.may_report(status.corrupt_probability_rate)
    }

    /// Reads the knobs.
    pub fn status(&self) -> (status: ConnectionStatus)
        ensures
            self.may_show(status),
            status.conn_info.id@ == self.conn_info.id@,
            status.conn_info.downstream@ == self.conn_info.downstream@,
            status.conn_info.upstream@ == self.conn_info.upstream@,
            crate::clock::duration_nanos(status.delay) <= u64::MAX,
            self.delay.delays().contains(crate::clock::duration_nanos(status.delay) as u64),
            self.throttle_rate.rates().contains(status.throttle_rate),
            self.slice_size.sizes().contains(status.slice_size),
            self.terminate_probability.takes(status.terminate_probability_rate),
            self.corrupt_probability.takes(status.corrupt_probability_rate),
            crate::binary64::in_unit_interval(status.terminate_probability_rate),
            crate::binary64::in_unit_interval(status.corrupt_probability_rate),
    {
        ConnectionStatus {
            conn_info: self.conn_info.clone(),
            delay: self.delay.duration(),
            throttle_rate: self.throttle_rate.rate(),
            slice_size: self.slice_size.size(),
            terminate_probability_rate: self.terminate_probability.probability(),
            corrupt_probability_rate: self.corrupt_probability.probability(),
        }
    }
}

#[verifier::external_type_specification]
#[verifier::external_body]
#[verifier::reject_recursive_types(T)]
pub struct ExOneshotSender<T>(tokio::sync::oneshot::Sender<T>);

/// A tracked connection.
#[derive(Debug)]
pub struct ConnectionState {
    /// What can be read and turned.
    pub knobs: Arc<ConnectionKnobs>,
    /// Takes the reason for which the connection is to be shut down.
    pub tx: oneshot::Sender<String>,
}

impl ConnectionState {
    /// The identifier of the connection.
    pub open spec fn id(&self) -> Seq<char> {
        self.knobs.conn_info.id@
    }
}

#[verifier::external_type_specification]
#[verifier::external_body]
#[verifier::reject_recursive_types(K)]
#[verifier::reject_recursive_types(V)]
#[verifier::reject_recursive_types(S)]
pub struct ExDashMap<K, V, S>(dashmap::DashMap<K, V, S>);

#[verifier::external_type_specification]
#[verifier::external_body]
pub struct ExRandomState(ahash::RandomState);

/// What the table of connections holds, by identifier.
pub uninterp spec fn table_contents(
    table: DashMap<String, ConnectionState, RandomState>,
) -> Map<Seq<char>, ConnectionState>;

/// A table without connections.
pub open spec fn no_connections() -> Map<Seq<char>, ConnectionState> {
    Map::empty()
}

/// `RandomState::new`: hashing keys of its own. Nothing is said of them.
#[verifier::external_body]
fn new_hasher() -> RandomState {
    RandomState::new()
}

/// `DashMap::with_hasher`: the table is empty.
#[verifier::external_body]
fn new_table(hasher: RandomState) -> (table: DashMap<String, ConnectionState, RandomState>)
    ensures
        table_contents(table) == no_connections(),
{
    DashMap::with_hasher(hasher)
}

/// `DashMap::insert`: `id` leads to `connection`, whatever it led to before.
#[verifier::external_body]
fn insert_connection(
    table: &mut DashMap<String, ConnectionState, RandomState>,
    id: String,
    connection: ConnectionState,
)
    ensures
        table_contents(*final(table)) == table_contents(*old(table)).insert(id@, connection),
{
    table.insert(id, connection);
}

/// `DashMap::remove`: hands out the connection that `id` leads to, if any, and `id` leads nowhere
/// any more.
#[verifier::external_body]
fn take_connection(
    table: &mut DashMap<String, ConnectionState, RandomState>,
    id: &str,
) -> (connection: Option<ConnectionState>)
    ensures
        table_contents(*final(table)) == table_contents(*old(table)).remove(id@),
        connection == if table_contents(*old(table)).contains_key(id@) {
            Some(table_contents(*old(table))[id@])
        } else {
            None
        },
{
    table.remove(id).map(|entry| entry.1)
}

/// `DashMap::get`: hands out the knobs of the connection that `id` leads to, if any.
#[verifier::external_body]
fn find_knobs(
    table: &DashMap<String, ConnectionState, RandomState>,
    id: &str,
) -> (knobs: Option<Arc<ConnectionKnobs>>)
    ensures
        knobs == if table_contents(*table).contains_key(id@) {
            Some(table_contents(*table)[id@].knobs)
        } else {
            None
        },
{
    table.get(id).map(|entry| entry.knobs.clone())
}

/// `DashMap::iter`: hands out each identifier with its knobs, each once, in no particular order.
#[verifier::external_body]
fn list_knobs(table: &DashMap<String, ConnectionState, RandomState>) -> (entries: Vec<
    (String, Arc<ConnectionKnobs>),
>)
    ensures
        forall|i: int|
            0 <= i < entries@.len() ==> table_contents(*table).contains_key(
                (#[trigger] entries@[i]).0@,
            ) && entries@[i].1 == table_contents(*table)[entries@[i].0@].knobs,
        forall|i: int, j: int|
            0 <= i < j < entries@.len() ==> (#[trigger] entries@[i]).0@ != (
            #[trigger] entries@[j]).0@,
        forall|id: Seq<char>| #[trigger]
            table_contents(*table).contains_key(id) ==> exists|i: int|
                0 <= i < entries@.len() && (#[trigger] entries@[i]).0@ == id,
{
    table.iter().map(|entry| (entry.key().clone(), entry.knobs.clone())).collect()
}

/// `statuses` has one reading of each connection in `table`, and nothing else.
pub open spec fn lists(
    statuses: Seq<ConnectionStatus>,
    table: Map<Seq<char>, ConnectionState>,
) -> bool {
    &&& forall|i: int|
        0 <= i < statuses.len() ==> {
            let id = (#[trigger] statuses[i]).conn_info.id@;
            table.contains_key(id) && table[id].knobs.may_show(statuses[i])
        }
    &&& forall|i: int, j: int|
        0 <= i < j < statuses.len() ==> (#[trigger] statuses[i]).conn_info.id@ != (
        #[trigger] statuses[j]).conn_info.id@
    &&& forall|id: Seq<char>| #[trigger]
        table.contains_key(id) ==> exists|i: int|
            0 <= i < statuses.len() && (#[trigger] statuses[i]).conn_info.id@ == id
}

/// A request that cannot be served.
#[derive(Debug, Clone, Copy, PartialEq, Eq, Structural)]
pub enum ApiError {
    /// There is no connection with that identifier.
    NotFound,
    /// The probability is not between 0 and 1.
    BadProbability,
    /// A connection could not be told to shut down.
    Internal,
}

/// The connections that the proxy tracks.
pub struct ApiState {
    connections: DashMap<String, ConnectionState, RandomState>,
}

impl ApiState {
    /// The tracked connections, by identifier.
    pub closed spec fn table(&self) -> Map<Seq<char>, ConnectionState> {
        table_contents(self.connections)
    }

    /// Every connection is tracked under its own identifier, and there are finitely many.
    pub open spec fn wf(&self) -> bool {
        &&& forall|id: Seq<char>| #[trigger]
            self.table().contains_key(id) ==> self.table()[id].id() == id
        &&& self.table().dom().finite()
    }

    /// Tracks no connection yet.
    pub fn new() -> (state: Self)
        ensures
            state.wf(),
            state.table() == no_connections(),
    {
        ApiState { connections: new_table(new_hasher()) }
    }

    /// Tracks a connection under its identifier.
    ///
    /// A connection that was tracked under the same identifier is tracked no more.
    pub fn insert(&mut self, connection: ConnectionState)
        requires
            old(self).wf(),
        ensures
            final(self).wf(),
            final(self).table() == old(self).table().insert(connection.id(), connection),
    {
        let id = connection.knobs.conn_info.id.clone();
        insert_connection(&mut self.connections, id, connection);
    }

    /// Whether a connection is tracked under `id`.
    pub fn is_tracked(&self, id: &str) -> (found: bool)
        ensures
            found == self.table().contains_key(id@),
    {
        match find_knobs(&self.connections, id) {
            Some(_) => true,
            None => false,
        }
    }

    /// Reads the settings of all connections, in no particular order.
    pub fn all(&self) -> (statuses: Vec<ConnectionStatus>)
        requires
            self.wf(),
        ensures
            lists(statuses@, self.table()),
            statuses@.len() == self.table().len(),
            forall|i: int|
                0 <= i < statuses@.len() ==> {
                    let id = (#[trigger] statuses@[i]).conn_info.id@;
                    &&& self.table().contains_key(id)
                    &&& self.table()[id].knobs.may_show(statuses@[i])
                },
    {
        let entries = list_knobs(&self.connections);
        let mut statuses: Vec<ConnectionStatus> = Vec::new();
        let mut i: usize = 0;
        while i < entries.len()
            invariant
                i <= entries.len(),
                statuses@.len() == i,
                forall|k: int|
                    0 <= k < entries@.len() ==> self.table().contains_key(
                        (#[trigger] entries@[k]).0@,
                    ) && entries@[k].1 == self.table()[entries@[k].0@].knobs,
                self.wf(),
                forall|k: int|
                    0 <= k < i ==> (#[trigger] statuses@[k]).conn_info.id@ == entries@[k].0@
                        && entries@[k].1.may_show(statuses@[k]),
            decreases entries.len() - i,
        {
            assert(self.table().contains_key(entries@[i as int].0@));
            statuses.push(entries[i].1.status());
            i = i + 1;
        }
        proof {
            assert forall|id: Seq<char>| #[trigger] self.table().contains_key(id) implies exists|
                k: int,
            | 0 <= k < statuses@.len() && (#[trigger] statuses@[k]).conn_info.id@ == id by {
                let k = choose|k: int|
                    0 <= k < entries@.len() && (#[trigger] entries@[k]).0@ == id;
                assert(statuses@[k].conn_info.id@ == id);
            }
            law_listing_has_every_connection_once(statuses@, self.table());
        }
        statuses
    }

    /// Stops tracking a connection and hands it out.
    pub fn remove_connection(&mut self, id: &str) -> (result: Result<ConnectionState, ApiError>)
        requires
            old(self).wf(),
        ensures
            final(self).wf(),
            final(self).table() == old(self).table().remove(id@),
            result == if old(self).table().contains_key(id@) {
                Ok::<ConnectionState, ApiError>(old(self).table()[id@])
            } else {
                Err::<ConnectionState, ApiError>(ApiError::NotFound)
            },
    {
        let taken = take_connection(&mut self.connections, id);
        assert forall|other: Seq<char>| #[trigger] self.table().contains_key(other) implies
            self.table()[other].id() == other by {
            assert(old(self).table().contains_key(other));
        }
        match taken {
            Some(connection) => Ok(connection),
            None => Err(ApiError::NotFound),
        }
    }

    /// Stops tracking all connections and hands them out, in no particular order.
    pub fn remove_all(&mut self) -> (removed: Vec<ConnectionState>)
        requires
            old(self).wf(),
        ensures
            final(self).wf(),
            final(self).table() == no_connections(),
            forall|i: int|
                0 <= i < removed@.len() ==> {
                    let id = (#[trigger] removed@[i]).id();
                    old(self).table().contains_key(id) && old(self).table()[id] == removed@[i]
                },
            forall|i: int, j: int|
                0 <= i < j < removed@.len() ==> (#[trigger] removed@[i]).id() != (
                #[trigger] removed@[j]).id(),
            forall|id: Seq<char>| #[trigger]
                old(self).table().contains_key(id) ==> exists|i: int|
                    0 <= i < removed@.len() && (#[trigger] removed@[i]).id() == id,
    {
        let entries = list_knobs(&self.connections);
        let ghost before = self.table();
        let mut removed: Vec<ConnectionState> = Vec::new();
        let mut i: usize = 0;
        while i < entries.len()
            invariant
                i <= entries.len(),
                removed@.len() == i,
                before == old(self).table(),
                old(self).wf(),
                forall|k: int|
                    0 <= k < entries@.len() ==> before.contains_key((#[trigger] entries@[k]).0@),
                forall|j: int, k: int|
                    0 <= j < k < entries@.len() ==> (#[trigger] entries@[j]).0@ != (
                    #[trigger] entries@[k]).0@,
                forall|k: int|
                    0 <= k < i ==> (#[trigger] removed@[k]) == before[entries@[k].0@],
                forall|id: Seq<char>| #[trigger]
                    self.table().contains_key(id) ==> before.contains_key(id) && self.table()[id]
                        == before[id],
                forall|k: int|
                    i <= k < entries@.len() ==> self.table().contains_key(
                        (#[trigger] entries@[k]).0@,
                    ),
                forall|k: int|
                    0 <= k < i ==> !self.table().contains_key((#[trigger] entries@[k]).0@),
            decreases entries.len() - i,
        {
            let ghost key = entries@[i as int].0@;
            assert(self.table().contains_key(key));
            if let Some(connection) = take_connection(
                &mut self.connections,
                entries[i].0.as_str(),
            ) {
                removed.push(connection);
            }
            i = i + 1;
        }
        proof {
            assert forall|id: Seq<char>| #[trigger] before.contains_key(id) implies exists|k: int|
                0 <= k < removed@.len() && (#[trigger] removed@[k]).id() == id by {
                let k = choose|k: int|
                    0 <= k < entries@.len() && (#[trigger] entries@[k]).0@ == id;
                assert(removed@[k].id() == id);
            }
            assert forall|id: Seq<char>| !self.table().contains_key(id) by {
                if self.table().contains_key(id) {
                    let k = choose|k: int|
                        0 <= k < entries@.len() && (#[trigger] entries@[k]).0@ == id;
                    assert(!self.table().contains_key(entries@[k].0@));
                }
            }
            assert(self.table() =~= no_connections());
        }
        removed
    }

    /// Sets the latency of a connection.
    pub fn set_delay(&self, id: &str, delay: time::Duration) -> (result: Result<(), ApiError>)
        ensures
            result == if self.table().contains_key(id@) {
                Ok::<(), ApiError>(())
            } else {
                Err::<(), ApiError>(ApiError::NotFound)
            },
            result is Ok ==> self.table()[id@].knobs.delay.delays().contains(
                crate::delayer::truncated_nanos(crate::clock::duration_nanos(delay)),
            ),
    {
        match find_knobs(&self.connections, id) {
            None => Err(ApiError::NotFound),
            Some(knobs) => {
                knobs.delay.set(delay);
                Ok(())
            },
        }
    }

    /// Sets the bandwidth of a connection.
    pub fn set_throttle_rate(&self, id: &str, rate: usize) -> (result: Result<(), ApiError>)
        ensures
            result == if self.table().contains_key(id@) {
                Ok::<(), ApiError>(())
            } else {
                Err::<(), ApiError>(ApiError::NotFound)
            },
            result is Ok ==> self.table()[id@].knobs.throttle_rate.rates().contains(rate),
    {
        match find_knobs(&self.connections, id) {
            None => Err(ApiError::NotFound),
            Some(knobs) => {
                knobs.throttle_rate.set(rate);
                Ok(())
            },
        }
    }

    /// Sets the size of the write slices of a connection.
    pub fn set_slice_size(&self, id: &str, size: usize) -> (result: Result<(), ApiError>)
        ensures
            result == if self.table().contains_key(id@) {
                Ok::<(), ApiError>(())
            } else {
                Err::<(), ApiError>(ApiError::NotFound)
            },
            result is Ok ==> self.table()[id@].knobs.slice_size.sizes().contains(size),
    {
        match find_knobs(&self.connections, id) {
            None => Err(ApiError::NotFound),
            Some(knobs) => {
                knobs.slice_size.set(size);
                Ok(())
            },
        }
    }

    /// Sets how likely an operation terminates a connection, by the bits of the probability.
    pub fn set_terminate_probability_rate(&self, id: &str, bits: u64) -> (result: Result<
        (),
        ApiError,
    >)
        ensures
            result == if !self.table().contains_key(id@) {
                Err::<(), ApiError>(ApiError::NotFound)
            } else if !crate::binary64::in_unit_interval(bits) {
                Err::<(), ApiError>(ApiError::BadProbability)
            } else {
                Ok::<(), ApiError>(())
            },
            result is Ok ==> self.table()[id@].knobs.terminate_probability.takes(bits),
    {
        match find_knobs(&self.connections, id) {
            None => Err(ApiError::NotFound),
            Some(knobs) => match knobs.terminate_probability.set(bits) {
                Ok(()) => Ok(()),
                Err(_) => Err(ApiError::BadProbability),
            },
        }
    }

    /// Sets how likely an operation corrupts data, by the bits of the probability.
    pub fn set_corrupt_probability_rate(&self, id: &str, bits: u64) -> (result: Result<
        (),
        ApiError,
    >)
        ensures
            result == if !self.table().contains_key(id@) {
                Err::<(), ApiError>(ApiError::NotFound)
            } else if !crate::binary64::in_unit_interval(bits) {
                Err::<(), ApiError>(ApiError::BadProbability)
            } else {
                Ok::<(), ApiError>(())
            },
            result is Ok ==> self.table()[id@].knobs.corrupt_probability.takes(bits),
    {
        match find_knobs(&self.connections, id) {
            None => Err(ApiError::NotFound),
            Some(knobs) => match knobs.corrupt_probability.set(bits) {
                Ok(()) => Ok(()),
                Err(_) => Err(ApiError::BadProbability),
            },
        }
    }
}

impl Default for ApiState {
    /// Tracks no connection yet.
    fn default() -> (state: Self)
        ensures
            state.wf(),
            state.table() == no_connections(),
    {
        ApiState::new()
    }
}

/// A listing has as many entries as connections are tracked.
pub proof fn law_listing_has_every_connection_once(
    statuses: Seq<ConnectionStatus>,
    table: Map<Seq<char>, ConnectionState>,
)
    requires
        lists(statuses, table),
    ensures
        table.dom().finite(),
        statuses.len() == table.len(),
{
    let ids = statuses.map_values(|status: ConnectionStatus| status.conn_info.id@);
    assert(ids.no_duplicates()) by {
        assert forall|i: int, j: int| 0 <= i < j < ids.len() implies ids[i] != ids[j] by {
            assert(statuses[i].conn_info.id@ != statuses[j].conn_info.id@);
        }
    }
    ids.unique_seq_to_set();
    assert forall|id: Seq<char>| table.dom().contains(id) implies ids.to_set().contains(id) by {
        assert(table.contains_key(id));
        let i = choose|i: int|
            0 <= i < statuses.len() && (#[trigger] statuses[i]).conn_info.id@ == id;
        assert(ids[i] == id);
    }
    assert forall|id: Seq<char>| ids.to_set().contains(id) implies table.dom().contains(id) by {
        let i = choose|i: int| 0 <= i < ids.len() && ids[i] == id;
        assert(statuses[i].conn_info.id@ == id);
    }
    assert(table.dom() =~= ids.to_set());
    vstd::seq_lib::seq_to_set_is_finite(ids);
}

/// A listing tells of every connection who is connected with whom, and settings that its knobs were
/// set to.
pub proof fn law_listing_tells_the_truth(
    statuses: Seq<ConnectionStatus>,
    table: Map<Seq<char>, ConnectionState>,
    i: int,
)
    requires
        lists(statuses, table),
        0 <= i < statuses.len(),
    ensures
        ({
            let status = statuses[i];
            let knobs = table[status.conn_info.id@].knobs;
            &&& table.contains_key(status.conn_info.id@)
            &&& status.conn_info.id@ == knobs.conn_info.id@
            &&& status.conn_info.downstream@ == knobs.conn_info.downstream@
            &&& status.conn_info.upstream@ == knobs.conn_info.upstream@
            &&& knobs.delay.delays().contains(crate::clock::duration_nanos(status.delay) as u64)
            &&& knobs.throttle_rate.rates().contains(status.throttle_rate)
            &&& knobs.slice_size.sizes().contains(status.slice_size)
            &&& knobs.terminate_probability.takes(status.terminate_probability_rate)
            &&& knobs.corrupt_probability.takes(status.corrupt_probability_rate)
        }),
{
}

/// Nothing is found in a table without connections.
pub proof fn law_no_connections_are_none(id: Seq<char>)
    ensures
        !no_connections().contains_key(id),
{
}

} // verus!
