//! The registry of connected clients: each gets an id that names its socket.
use slab::Slab;
use vstd::prelude::*;

verus! {

/// `slab::Slab`, the storage that hands out the client ids.
#[verifier::external_type_specification]
#[verifier::external_body]
#[verifier::reject_recursive_types(T)]
pub struct ExSlab<T>(Slab<T>);

/// What a slab of socket descriptors holds: each occupied key and its value.
pub uninterp spec fn slab_entries(slab: Slab<i32>) -> Map<usize, i32>;

/// `Slab::new`: a slab that holds nothing.
#[verifier::external_body]
fn slab_new() -> (created: Slab<i32>)
    ensures
        slab_entries(created).dom() == Set::<usize>::empty(),
{
    Slab::new()
}

/// `Slab::insert`: stores `val` under a key that held nothing and returns that
/// key. Which free key is taken is left unstated (the slab reuses the most
/// recently freed one, else the next unused one). Allocation failure is not
/// modelled, as with `Vec::push`.
#[verifier::external_body]
fn slab_insert(slab: &mut Slab<i32>, val: i32) -> (key: usize)
    ensures
        !slab_entries(*old(slab)).contains_key(key),
        slab_entries(*final(slab)) == slab_entries(*old(slab)).insert(key, val),
{
    slab.insert(val)
}

/// `Slab::remove`: takes the value out of an occupied key, which becomes free.
/// The slab panics on a free key, which `requires` rules out.
#[verifier::external_body]
fn slab_remove(slab: &mut Slab<i32>, key: usize) -> (val: i32)
    requires
        slab_entries(*old(slab)).contains_key(key),
    ensures
        val == slab_entries(*old(slab))[key],
        slab_entries(*final(slab)) == slab_entries(*old(slab)).remove(key),
{
    slab.remove(key)
}

/// `Slab::get`, the value copied out: the value under `key`, if it is occupied.
#[verifier::external_body]
fn slab_get(slab: &Slab<i32>, key: usize) -> (val: Option<i32>)
    ensures
        val == (if slab_entries(*slab).contains_key(key) {
            Some(slab_entries(*slab)[key])
        } else {
            None
        }),
{
    slab.get(key).copied()
}

/// What a lookup of `client_id` among `clients` gives: its socket, if it is connected.
pub open spec fn client_lookup(clients: Map<usize, i32>, client_id: usize) -> Option<i32> {
    if clients.contains_key(client_id) {
        Some(clients[client_id])
    } else {
        None
    }
}

/// The connected clients, by id, with the descriptor of each one's socket.
pub struct State {
    connected_clients: Slab<i32>,
}

impl View for State {
    type V = Map<usize, i32>;

    closed spec fn view(&self) -> Map<usize, i32> {
        slab_entries(self.connected_clients)
    }
}

impl State {
    /// A registry with no client.
    pub fn new() -> (state: Self)
        ensures
            state@ == Map::<usize, i32>::empty(),
    {
        let state = Self { connected_clients: slab_new() };
        assert(state@ =~= Map::<usize, i32>::empty());
        state
    }

    /// Registers the client whose socket is `fd` and returns its new id, one
    /// that no connected client has.
    pub fn add_client(&mut self, fd: i32) -> (client_id: usize)
        ensures
            !old(self)@.contains_key(client_id),
            final(self)@ == old(self)@.insert(client_id, fd),
    {
        slab_insert(&mut self.connected_clients, fd)
    }

    /// Forgets the connected client `client_id`.
    pub fn remove_client(&mut self, client_id: usize)
        requires
            old(self)@.contains_key(client_id),
        ensures
            final(self)@ == old(self)@.remove(client_id),
    {
        slab_remove(&mut self.connected_clients, client_id);
    }

    /// The socket of client `client_id`, if it is connected.
    pub fn get_client(&self, client_id: usize) -> (fd: Option<i32>)
        ensures
            fd == client_lookup(self@, client_id),
    {
        slab_get(&self.connected_clients, client_id)
    }
}

/// A client just added is found under its id with its socket, and every other
/// id is looked up as before.
pub proof fn lemma_added_client_found(
    before: Map<usize, i32>,
    after: Map<usize, i32>,
    client_id: usize,
    fd: i32,
    other: usize,
)
    requires
        !before.contains_key(client_id),
        after == before.insert(client_id, fd),
    ensures
        client_lookup(after, client_id) == Some(fd),
        other != client_id ==> client_lookup(after, other) == client_lookup(before, other),
{
}

/// A client just removed is no longer found, and every other id is looked up
/// as before.
pub proof fn lemma_removed_client_gone(
    before: Map<usize, i32>,
    after: Map<usize, i32>,
    client_id: usize,
    other: usize,
)
    requires
        before.contains_key(client_id),
        after == before.remove(client_id),
    ensures
        client_lookup(after, client_id) == None::<i32>,
        other != client_id ==> client_lookup(after, other) == client_lookup(before, other),
{
}

} // verus!
