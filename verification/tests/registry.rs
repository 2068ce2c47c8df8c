use server::event_loop::{handle_completion, pong_reply, read_operation, write_operation, Action, Operation};
use server::state::State;

#[test]
fn added_clients_are_found() {
    let mut state = State::new();
    let a = state.add_client(7);
    let b = state.add_client(9);
    assert_ne!(a, b);
    assert_eq!(state.get_client(a), Some(7));
    assert_eq!(state.get_client(b), Some(9));
}

#[test]
fn removed_client_is_gone_and_others_stay() {
    let mut state = State::new();
    let a = state.add_client(7);
    let b = state.add_client(9);
    state.remove_client(a);
    assert_eq!(state.get_client(a), None);
    assert_eq!(state.get_client(b), Some(9));
    let c = state.add_client(11);
    assert_ne!(c, b);
    assert_eq!(state.get_client(c), Some(11));
    assert_eq!(state.get_client(b), Some(9));
}

#[test]
fn unknown_client_is_not_found() {
    let state = State::new();
    assert_eq!(state.get_client(0), None);
    assert_eq!(state.get_client(usize::MAX), None);
}

#[test]
fn pong_reply_is_resp_simple_string() {
    assert_eq!(pong_reply(), b"+PONG\r\n".to_vec());
}

#[test]
fn operations_carry_the_client_socket() {
    let mut state = State::new();
    let id = state.add_client(42);
    assert_eq!(read_operation(&state, id), Operation::Read { client_id: id, client_fd: 42 });
    assert_eq!(write_operation(&state, id), Operation::Write { client_id: id, client_fd: 42 });
}

#[test]
fn failed_accept_is_retried() {
    let mut state = State::new();
    let actions = handle_completion(&mut state, Operation::Accept, -11);
    assert_eq!(actions, vec![Action::Submit(Operation::Accept)]);
    assert_eq!(state.get_client(0), None);
}

#[test]
fn accepted_client_is_read_and_accept_resubmitted() {
    let mut state = State::new();
    let actions = handle_completion(&mut state, Operation::Accept, 5);
    assert_eq!(actions.len(), 2);
    let id = match actions[0] {
        Action::Submit(Operation::Read { client_id, client_fd }) => {
            assert_eq!(client_fd, 5);
            client_id
        }
        other => panic!("unexpected {:?}", other),
    };
    assert_eq!(actions[1], Action::Submit(Operation::Accept));
    assert_eq!(state.get_client(id), Some(5));
}

#[test]
fn request_is_answered_then_read_again() {
    let mut state = State::new();
    let id = state.add_client(5);
    let read = Operation::Read { client_id: id, client_fd: 5 };
    let actions = handle_completion(&mut state, read, 14);
    let write = Operation::Write { client_id: id, client_fd: 5 };
    assert_eq!(actions, vec![Action::Submit(write)]);
    let actions = handle_completion(&mut state, write, 7);
    assert_eq!(actions, vec![Action::Submit(read)]);
    assert_eq!(state.get_client(id), Some(5));
}

#[test]
fn closed_connection_is_forgotten() {
    let mut state = State::new();
    let id = state.add_client(5);
    let actions = handle_completion(&mut state, Operation::Read { client_id: id, client_fd: 5 }, 0);
    assert_eq!(actions, vec![Action::Close(5)]);
    assert_eq!(state.get_client(id), None);
}

#[test]
fn read_error_closes_the_client() {
    let mut state = State::new();
    let id = state.add_client(8);
    let other = state.add_client(9);
    let actions = handle_completion(&mut state, Operation::Read { client_id: id, client_fd: 8 }, -104);
    assert_eq!(actions, vec![Action::Close(8)]);
    assert_eq!(state.get_client(id), None);
    assert_eq!(state.get_client(other), Some(9));
}

/// Runs completions in a fixed order and checks after each one that exactly
/// one accept waits and each connected client has exactly one read or write
/// waiting with its socket.
#[test]
fn pending_operations_stay_consistent() {
    let mut state = State::new();
    let mut pending: Vec<Operation> = vec![Operation::Accept];
    let results = [3, 4, 10, -1, 5, 2, 0, 6, 1, 0, 9];
    let mut next_fd = 20;
    for (step, res) in results.iter().enumerate() {
        let op = pending.remove(step % pending.len());
        let res = match op {
            Operation::Accept if *res > 0 => {
                next_fd += 1;
                next_fd
            }
            _ => *res,
        };
        for action in handle_completion(&mut state, op, res) {
            match action {
                Action::Submit(op) => pending.push(op),
                Action::Close(_) => {}
            }
        }
        let accepts = pending.iter().filter(|o| **o == Operation::Accept).count();
        assert_eq!(accepts, 1);
        for op in &pending {
            match *op {
                Operation::Accept => {}
                Operation::Read { client_id, client_fd } | Operation::Write { client_id, client_fd } => {
                    assert_eq!(state.get_client(client_id), Some(client_fd));
                    let same_client = pending
                        .iter()
                        .filter(|o| matches!(o, Operation::Read { client_id: c, .. } | Operation::Write { client_id: c, .. } if *c == client_id))
                        .count();
                    assert_eq!(same_client, 1);
                }
            }
        }
    }
}
