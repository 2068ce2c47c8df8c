//! The decisions of the completion-driven server loop: what to do when an
//! accept, read or write submitted to the kernel completes. The loop itself,
//! which submits the operations and waits for their completions, runs them.
use crate::state::State;
use vstd::multiset::Multiset;
use vstd::prelude::*;

verus! {

broadcast use vstd::multiset::group_multiset_axioms;

/// An operation submitted to the kernel and waiting for its completion.
#[derive(Debug, Clone, Copy, PartialEq, Eq, Structural)]
pub enum Operation {
    /// Waits for a new connection on the listening socket.
    Accept,
    /// Waits for a request from a connected client.
    Read { client_id: usize, client_fd: i32 },
    /// Sends the reply to a connected client.
    Write { client_id: usize, client_fd: i32 },
}

/// What the loop is to do after a completion.
#[derive(Debug, Clone, Copy, PartialEq, Eq, Structural)]
pub enum Action {
    /// Submit this operation.
    Submit(Operation),
    /// Close this socket.
    Close(i32),
}

/// The reply written to a client after each request: the RESP simple string `PONG`.
pub open spec fn pong_bytes() -> Seq<u8> {
    seq![0x2Bu8, 0x50u8, 0x4Fu8, 0x4Eu8, 0x47u8, 0x0Du8, 0x0Au8]
}

/// The bytes of `+PONG\r\n`, written by every `Write` operation.
pub fn pong_reply() -> (reply: Vec<u8>)
    ensures
        reply@ == pong_bytes(),
{
    let reply: Vec<u8> = vec![0x2B, 0x50, 0x4F, 0x4E, 0x47, 0x0D, 0x0A];
    assert(reply@ =~= pong_bytes());
    reply
}

/// The read that waits for the next request of the connected client `client_id`.
pub fn read_operation(state: &State, client_id: usize) -> (op: Operation)
    requires
        state@.contains_key(client_id),
    ensures
        op == (Operation::Read { client_id, client_fd: state@[client_id] }),
{
    match state.get_client(client_id) {
        Some(client_fd) => Operation::Read { client_id, client_fd },
        None => Operation::Accept,
    }
}

/// The write that sends the reply to the connected client `client_id`.
pub fn write_operation(state: &State, client_id: usize) -> (op: Operation)
    requires
        state@.contains_key(client_id),
    ensures
        op == (Operation::Write { client_id, client_fd: state@[client_id] }),
{
    match state.get_client(client_id) {
        Some(client_fd) => Operation::Write { client_id, client_fd },
        None => Operation::Accept,
    }
}

/// Whether a completion of `op` can be handled with `clients` connected: a
/// read or a write must belong to a connected client.
pub open spec fn completion_allowed(clients: Map<usize, i32>, op: Operation) -> bool {
    match op {
        Operation::Accept => true,
        Operation::Read { client_id, .. } => clients.contains_key(client_id),
        Operation::Write { client_id, .. } => clients.contains_key(client_id),
    }
}

/// How one completion of `op` with result `res` takes the clients from
/// `before` to `after` and which actions follow, in order:
/// - an accept that failed (`res < 0`) is submitted again;
/// - an accept that gave the socket `res` registers it under a fresh id,
///   submits a read for it, and submits the accept again;
/// - a read that saw the end of the stream or failed (`res <= 0`) closes the
///   client's socket and forgets the client;
/// - a read that got bytes submits the write of the reply;
/// - a finished write submits the next read.
pub open spec fn completion_step(
    before: Map<usize, i32>,
    op: Operation,
    res: i32,
    after: Map<usize, i32>,
    actions: Seq<Action>,
) -> bool {
    match op {
        Operation::Accept => if res < 0 {
            &&& after == before
            &&& actions == seq![Action::Submit(Operation::Accept)]
        } else {
            &&& actions.len() == 2
            &&& actions[0] matches Action::Submit(Operation::Read { client_id, client_fd })
                && client_fd == res && !before.contains_key(client_id) && after == before.insert(
                client_id,
                res,
            )
            &&& actions[1] == Action::Submit(Operation::Accept)
        },
        Operation::Read { client_id, client_fd } => if res <= 0 {
            &&& after == before.remove(client_id)
            &&& actions == seq![Action::Close(client_fd)]
        } else {
            &&& after == before
            &&& actions == seq![
                Action::Submit(Operation::Write { client_id, client_fd: before[client_id] }),
            ]
        },
        Operation::Write { client_id, .. } => {
            &&& after == before
            &&& actions == seq![
                Action::Submit(Operation::Read { client_id, client_fd: before[client_id] }),
            ]
        },
    }
}

/// Decides what follows the completion of `op` with result `res` (a socket
/// descriptor for an accept, a byte count for a read or a write, a negated
/// error code on failure), updating the registry of clients.
pub fn handle_completion(state: &mut State, op: Operation, res: i32) -> (actions: Vec<Action>)
    requires
        completion_allowed(old(state)@, op),
    ensures
        completion_step(old(state)@, op, res, final(state)@, actions@),
{
    let mut actions: Vec<Action> = Vec::new();
    match op {
        Operation::Accept => {
            if res >= 0 {
                let client_id = state.add_client(res);
                actions.push(Action::Submit(read_operation(state, client_id)));
            }
            actions.push(Action::Submit(Operation::Accept));
        },
        Operation::Read { client_id, client_fd } => {
            if res <= 0 {
                actions.push(Action::Close(client_fd));
                state.remove_client(client_id);
            } else {
                actions.push(Action::Submit(write_operation(state, client_id)));
            }
        },
        Operation::Write { client_id, .. } => {
            actions.push(Action::Submit(read_operation(state, client_id)));
        },
    }
    assert(actions@.len() == 1 ==> actions@ =~= seq![actions@[0]]);
    actions
}

/// The operations that `actions` submit.
pub open spec fn submitted(actions: Seq<Action>) -> Multiset<Operation>
    decreases actions.len(),
{
    if actions.len() == 0 {
        Multiset::empty()
    } else {
        match actions.last() {
            Action::Submit(op) => submitted(actions.drop_last()).insert(op),
            Action::Close(_) => submitted(actions.drop_last()),
        }
    }
}

/// Whether `op` belongs to the loop's current situation: an accept always
/// does; a read or a write must name a connected client and its socket.
pub open spec fn op_is_live(clients: Map<usize, i32>, op: Operation) -> bool {
    match op {
        Operation::Accept => true,
        Operation::Read { client_id, client_fd } => clients.contains_key(client_id)
            && clients[client_id] == client_fd,
        Operation::Write { client_id, client_fd } => clients.contains_key(client_id)
            && clients[client_id] == client_fd,
    }
}

/// What the loop keeps between completions: exactly one accept waits, every
/// waiting operation is live, and every connected client has exactly one
/// read or write waiting.
pub open spec fn pending_consistent(clients: Map<usize, i32>, pending: Multiset<Operation>) -> bool {
    &&& pending.count(Operation::Accept) == 1
    &&& forall|op: Operation| #[trigger] pending.count(op) > 0 ==> op_is_live(clients, op)
    &&& forall|client_id: usize| #[trigger]
        clients.contains_key(client_id) ==> pending.count(
            Operation::Read { client_id, client_fd: clients[client_id] },
        ) + pending.count(Operation::Write { client_id, client_fd: clients[client_id] }) == 1
}

/// The loop starts consistent: no client, and the first accept submitted.
pub proof fn lemma_start_consistent()
    ensures
        pending_consistent(Map::empty(), Multiset::singleton(Operation::Accept)),
{
    assert forall|op: Operation| #[trigger]
        Multiset::singleton(Operation::Accept).count(op) > 0 implies op_is_live(
        Map::empty(),
        op,
    ) by {
        if op != Operation::Accept {
            assert(Multiset::singleton(Operation::Accept).count(op) == 0);
        }
    }
}

/// Whatever completes while the loop is consistent can be handled: the
/// client of a read or a write is connected.
pub proof fn lemma_pending_completion_allowed(
    clients: Map<usize, i32>,
    pending: Multiset<Operation>,
    op: Operation,
)
    requires
        pending_consistent(clients, pending),
        pending.count(op) > 0,
    ensures
        completion_allowed(clients, op),
{
}

/// Handling a completion keeps the loop consistent: the completed operation
/// leaves the waiting ones and the submitted ones join them.
pub proof fn lemma_completion_keeps_consistent(
    before: Map<usize, i32>,
    after: Map<usize, i32>,
    pending: Multiset<Operation>,
    op: Operation,
    res: i32,
    actions: Seq<Action>,
)
    requires
        pending_consistent(before, pending),
        pending.count(op) > 0,
        completion_step(before, op, res, after, actions),
    ensures
        pending_consistent(after, pending.remove(op).add(submitted(actions))),
{
    reveal_with_fuel(submitted, 3);
    let next = pending.remove(op).add(submitted(actions));
    match op {
        Operation::Accept => {
            if res < 0 {
                assert(actions.drop_last() =~= Seq::<Action>::empty());
                assert(next =~= pending);
            } else {
                let client_id = actions[0]->Submit_0->Read_client_id;
                let read = Operation::Read { client_id, client_fd: res };
                assert(actions.drop_last() =~= seq![actions[0]]);
                assert(actions.drop_last().drop_last() =~= Seq::<Action>::empty());
                assert(submitted(actions) =~= Multiset::singleton(read).insert(Operation::Accept));
                assert forall|o: Operation| #[trigger] next.count(o) > 0 implies op_is_live(
                    after,
                    o,
                ) by {
                    if o != read && o != Operation::Accept {
                        assert(pending.count(o) > 0);
                        assert(op_is_live(before, o));
                    }
                }
                assert forall|id: usize| #[trigger]
                    after.contains_key(id) implies next.count(
                    Operation::Read { client_id: id, client_fd: after[id] },
                ) + next.count(Operation::Write { client_id: id, client_fd: after[id] }) == 1 by {
                    if id == client_id {
                        let w = Operation::Write { client_id: id, client_fd: res };
                        if pending.count(read) > 0 {
                            assert(op_is_live(before, read));
                        }
                        if pending.count(w) > 0 {
                            assert(op_is_live(before, w));
                        }
                    } else {
                        assert(before.contains_key(id));
                    }
                }
            }
        },
        Operation::Read { client_id, client_fd } => {
            assert(op_is_live(before, op));
            let w = Operation::Write { client_id, client_fd };
            assert(before.contains_key(client_id));
            assert(pending.count(op) + pending.count(w) == 1);
            if res <= 0 {
                assert(actions.drop_last() =~= Seq::<Action>::empty());
                assert(submitted(actions) =~= Multiset::<Operation>::empty());
                assert forall|o: Operation| #[trigger] next.count(o) > 0 implies op_is_live(
                    after,
                    o,
                ) by {
                    assert(pending.count(o) > 0);
                    assert(op_is_live(before, o));
                }
                assert forall|id: usize| #[trigger]
                    after.contains_key(id) implies next.count(
                    Operation::Read { client_id: id, client_fd: after[id] },
                ) + next.count(Operation::Write { client_id: id, client_fd: after[id] }) == 1 by {
                    assert(before.contains_key(id));
                }
            } else {
                assert(actions.drop_last() =~= Seq::<Action>::empty());
                assert(submitted(actions) =~= Multiset::singleton(w));
                assert forall|o: Operation| #[trigger] next.count(o) > 0 implies op_is_live(
                    after,
                    o,
                ) by {
                    if o != w {
                        assert(pending.count(o) > 0);
                    }
                }
                assert forall|id: usize| #[trigger]
                    after.contains_key(id) implies next.count(
                    Operation::Read { client_id: id, client_fd: after[id] },
                ) + next.count(Operation::Write { client_id: id, client_fd: after[id] }) == 1 by {
                    assert(before.contains_key(id));
                }
            }
        },
        Operation::Write { client_id, client_fd } => {
            assert(op_is_live(before, op));
            let r = Operation::Read { client_id, client_fd };
            assert(before.contains_key(client_id));
            assert(pending.count(r) + pending.count(op) == 1);
            assert(actions.drop_last() =~= Seq::<Action>::empty());
            assert(submitted(actions) =~= Multiset::singleton(r));
            assert forall|o: Operation| #[trigger] next.count(o) > 0 implies op_is_live(after, o) by {
                if o != r {
                    assert(pending.count(o) > 0);
                }
            }
            assert forall|id: usize| #[trigger]
                after.contains_key(id) implies next.count(
                Operation::Read { client_id: id, client_fd: after[id] },
            ) + next.count(Operation::Write { client_id: id, client_fd: after[id] }) == 1 by {
                assert(before.contains_key(id));
            }
        },
    }
}

/// Every accepted connection is served, whoever else is connected: the new
/// socket is registered under an id that no connected client had, every
/// client already connected keeps its socket, the first action reads the new
/// client's first request, and the accept is submitted again.
pub proof fn lemma_accept_serves_new_client(
    before: Map<usize, i32>,
    after: Map<usize, i32>,
    res: i32,
    actions: Seq<Action>,
)
    requires
        res >= 0,
        completion_step(before, Operation::Accept, res, after, actions),
    ensures
        actions.len() == 2,
        actions[1] == Action::Submit(Operation::Accept),
        exists|client_id: usize|
            {
                &&& !before.contains_key(client_id)
                &&& after.contains_key(client_id)
                &&& after[client_id] == res
                &&& actions[0] == Action::Submit(Operation::Read { client_id, client_fd: res })
                &&& after.dom() == before.dom().insert(client_id)
            },
        forall|other: usize|
            #[trigger] before.contains_key(other) ==> after.contains_key(other) && after[other]
                == before[other],
{
    let client_id = actions[0]->Submit_0->Read_client_id;
    assert(after.dom() =~= before.dom().insert(client_id));
    assert(!before.contains_key(client_id) && after.contains_key(client_id) && after[client_id]
        == res && actions[0] == Action::Submit(Operation::Read { client_id, client_fd: res }));
}

/// Every request gets its reply: a read of any positive number of bytes from
/// a connected client leaves the clients as they are and is followed by
/// exactly one action, the write of the reply to that client's socket.
pub proof fn lemma_request_is_answered(
    before: Map<usize, i32>,
    after: Map<usize, i32>,
    client_id: usize,
    client_fd: i32,
    res: i32,
    actions: Seq<Action>,
)
    requires
        res > 0,
        before.contains_key(client_id),
        before[client_id] == client_fd,
        completion_step(before, Operation::Read { client_id, client_fd }, res, after, actions),
    ensures
        after == before,
        actions.len() == 1,
        actions[0] == Action::Submit(Operation::Write { client_id, client_fd }),
{
}

/// A connection stays open after each reply: a finished write to any
/// connected client leaves the clients as they are and is followed by exactly
/// one action, the read of that client's next request on its socket.
pub proof fn lemma_reply_keeps_connection(
    before: Map<usize, i32>,
    after: Map<usize, i32>,
    client_id: usize,
    client_fd: i32,
    res: i32,
    actions: Seq<Action>,
)
    requires
        before.contains_key(client_id),
        before[client_id] == client_fd,
        completion_step(before, Operation::Write { client_id, client_fd }, res, after, actions),
    ensures
        after == before,
        actions.len() == 1,
        actions[0] == Action::Submit(Operation::Read { client_id, client_fd }),
{
}

/// A client that hangs up or whose read fails is closed and forgotten: its
/// socket is closed, it is no longer registered, every other client keeps its
/// socket, and nothing else is submitted for it.
pub proof fn lemma_hangup_closes_client(
    before: Map<usize, i32>,
    after: Map<usize, i32>,
    client_id: usize,
    client_fd: i32,
    res: i32,
    actions: Seq<Action>,
)
    requires
        res <= 0,
        before.contains_key(client_id),
        before[client_id] == client_fd,
        completion_step(before, Operation::Read { client_id, client_fd }, res, after, actions),
    ensures
        actions.len() == 1,
        actions[0] == Action::Close(client_fd),
        !after.contains_key(client_id),
        after.dom() == before.dom().remove(client_id),
        forall|other: usize|
            #[trigger] after.contains_key(other) ==> after[other] == before[other],
{
    assert(after.dom() =~= before.dom().remove(client_id));
}

/// Serving a request brings a client back to waiting for its next request:
/// the write that follows a read with bytes, once finished, is followed by the
/// very read that completed, and the clients are as before.
pub proof fn lemma_request_round_trip(
    before: Map<usize, i32>,
    middle: Map<usize, i32>,
    after: Map<usize, i32>,
    read: Operation,
    res: i32,
    written: i32,
    first: Seq<Action>,
    second: Seq<Action>,
)
    requires
        res > 0,
        read is Read,
        op_is_live(before, read),
        completion_step(before, read, res, middle, first),
        first.len() == 1,
        first[0] is Submit,
        completion_step(middle, first[0]->Submit_0, written, after, second),
    ensures
        first[0]->Submit_0 is Write,
        after == before,
        second == seq![Action::Submit(read)],
{
}

} // verus!
