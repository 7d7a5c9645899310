//! The open connections: which sink stands behind which identifier.
//!
//! The sinks themselves belong to whoever runs the sockets. A sink is known here
//! by a number that its owner gave it.
use crate::text::text_of;
use dashmap::DashMap;
use vstd::prelude::*;

verus! {

/// An open connection.
pub struct Connection {
    /// The number of the sink that frames for the client go to.
    pub sink: u64,
    /// What a request to send to the client has to name as its group, if anything.
    pub group: Option<String>,
}

/// An open connection as contracts speak of it.
pub struct ConnectionView {
    pub sink: u64,
    pub group: Option<Seq<char>>,
}

impl View for Connection {
    type V = ConnectionView;

    open spec fn view(&self) -> ConnectionView {
        ConnectionView { sink: self.sink, group: text_of(self.group) }
    }
}

/// What a sink's number and its group, side by side, say of a connection.
pub open spec fn entry_view(entry: (u64, Option<String>)) -> ConnectionView {
    ConnectionView { sink: entry.0, group: text_of(entry.1) }
}

/// The map without any connection.
pub open spec fn no_connections() -> Map<u128, ConnectionView> {
    Map::empty()
}

/// The connection under `id`, if there is one.
pub open spec fn connection_under(connections: Map<u128, ConnectionView>, id: u128) -> Option<
    ConnectionView,
> {
    if connections.contains_key(id) {
        Some(connections[id])
    } else {
        None
    }
}

/// The map type of the `dashmap` crate.
#[verifier::external_type_specification]
#[verifier::external_body]
#[verifier::reject_recursive_types(K)]
#[verifier::reject_recursive_types(V)]
#[verifier::reject_recursive_types(S)]
pub struct ExDashMap<K, V, S>(dashmap::DashMap<K, V, S>);

/// What a `DashMap` from identifiers to sinks and groups holds.
pub uninterp spec fn sinks_in(sinks: DashMap<u128, (u64, Option<String>)>) -> Map<
    u128,
    ConnectionView,
>;

/// `DashMap::new`: an empty map.
#[verifier::external_body]
fn dash_new() -> (sinks: DashMap<u128, (u64, Option<String>)>)
    ensures
        sinks_in(sinks) == no_connections(),
{
    DashMap::new()
}

/// `DashMap::insert`: the key is mapped to the value, in place of what it was
/// mapped to. The entry that was replaced, if there was one, is dropped.
#[verifier::external_body]
fn dash_insert(
    sinks: &mut DashMap<u128, (u64, Option<String>)>,
    id: u128,
    sink: u64,
    group: Option<String>,
)
    ensures
        sinks_in(*final(sinks)) == sinks_in(*old(sinks)).insert(
            id,
            entry_view((sink, group)),
        ),
{
    sinks.insert(id, (sink, group));
}

/// `DashMap::get`: a copy of what the key is mapped to.
#[verifier::external_body]
fn dash_get(sinks: &DashMap<u128, (u64, Option<String>)>, id: u128) -> (entry: Option<
    (u64, Option<String>),
>)
    ensures
        entry is Some == sinks_in(*sinks).contains_key(id),
        entry is Some ==> sinks_in(*sinks)[id] == entry_view(entry->0),
{
    sinks.get(&id).map(|entry| entry.value().clone())
}

/// `DashMap::remove`: the key is no longer mapped to anything; returns what it was
/// mapped to.
#[verifier::external_body]
fn dash_remove(sinks: &mut DashMap<u128, (u64, Option<String>)>, id: u128) -> (entry: Option<
    (u64, Option<String>),
>)
    ensures
        sinks_in(*final(sinks)) == sinks_in(*old(sinks)).remove(id),
        entry is Some == sinks_in(*old(sinks)).contains_key(id),
        entry is Some ==> sinks_in(*old(sinks))[id] == entry_view(entry->0),
{
    sinks.remove(&id).map(|entry| entry.1)
}

/// The open connections by identifier.
pub struct Connections {
    sinks: DashMap<u128, (u64, Option<String>)>,
}

impl View for Connections {
    type V = Map<u128, ConnectionView>;

    closed spec fn view(&self) -> Map<u128, ConnectionView> {
        sinks_in(self.sinks)
    }
}

impl Connections {
    /// No connection.
    pub fn new() -> (connections: Self)
        ensures
            connections@ == no_connections(),
    {
        Connections { sinks: dash_new() }
    }

    /// Registers `connection` under `id`. Another one under the same identifier is
    /// forgotten.
    pub fn insert(&mut self, id: u128, connection: Connection)
        ensures
            final(self)@ == old(self)@.insert(id, connection@),
    {
        dash_insert(&mut self.sinks, id, connection.sink, connection.group);
    }

    /// The connection under `id`.
    pub fn get(&self, id: u128) -> (connection: Option<Connection>)
        ensures
            connection is Some == self@.contains_key(id),
            connection is Some ==> connection->0@ == self@[id],
    {
        match dash_get(&self.sinks, id) {
            Some((sink, group)) => Some(Connection { sink, group }),
            None => None,
        }
    }

    /// Forgets the connection under `id` and returns it.
    pub fn remove(&mut self, id: u128) -> (connection: Option<Connection>)
        ensures
            final(self)@ == old(self)@.remove(id),
            connection is Some == old(self)@.contains_key(id),
            connection is Some ==> connection->0@ == old(self)@[id],
    {
        match dash_remove(&mut self.sinks, id) {
            Some((sink, group)) => Some(Connection { sink, group }),
            None => None,
        }
    }
}

} // verus!
