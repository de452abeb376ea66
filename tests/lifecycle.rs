use websocket_lifecycle::owner::OwningThread;
use websocket_lifecycle::ready_state::ReadyState;
use websocket_lifecycle::task_queue::TaskQueue;
use websocket_lifecycle::websocket::{
    Action, Notification, Trusted, WebSocket, WebSocketError, WebSocketTask,
    WebSocketTaskHandler,
};

const URL: &str = "ws://example.org/chat";

fn state_of(owner: &OwningThread, h: Trusted) -> u16 {
    owner.resolve(h).unwrap().ready_state()
}

/// A connection whose opening handshake succeeded.
fn open_connection(owner: &mut OwningThread) -> Trusted {
    let h = owner.connect(URL.to_string());
    let (_, action) = owner.run_next().unwrap();
    assert_eq!(action, Action::Connect);
    assert_eq!(owner.open_finished(h, true), vec![Notification::Open]);
    h
}

#[test]
fn handshake_success_opens() {
    let mut owner = OwningThread::new();
    let h = owner.connect(URL.to_string());
    let mut seen = vec![state_of(&owner, h)];
    assert_eq!(owner.pending_tasks(), 1);
    let (task, action) = owner.run_next().unwrap();
    assert_eq!(task, WebSocketTaskHandler::new(h, WebSocketTask::Open));
    assert_eq!(action, Action::Connect);
    seen.push(state_of(&owner, h));
    let fired = owner.open_finished(h, true);
    seen.push(state_of(&owner, h));
    assert_eq!(fired, vec![Notification::Open]);
    assert_eq!(seen, vec![0, 0, 1]);
    assert_eq!(owner.pending_tasks(), 0);
}

#[test]
fn handshake_failure_closes_with_error_first() {
    let mut owner = OwningThread::new();
    let h = owner.connect(URL.to_string());
    assert_eq!(state_of(&owner, h), 0);
    owner.run_next().unwrap();
    let fired = owner.open_finished(h, false);
    assert_eq!(fired, vec![Notification::Error, Notification::Close]);
    assert_eq!(state_of(&owner, h), 3);
}

#[test]
fn close_while_connecting_cancels_open() {
    let mut owner = OwningThread::new();
    let h = owner.connect(URL.to_string());
    assert_eq!(owner.close(h, Some(1000), Some("bye".to_string())), Ok(()));
    assert_eq!(state_of(&owner, h), 2);
    // no closing task was posted: only the opening task waits
    assert_eq!(owner.pending_tasks(), 1);
    let (task, action) = owner.run_next().unwrap();
    assert_eq!(task.task, WebSocketTask::Open);
    assert_eq!(action, Action::Connect);
    assert_eq!(owner.run_next(), None);
    let fired = owner.open_finished(h, true);
    assert!(!fired.contains(&Notification::Open));
    assert_eq!(fired, vec![Notification::Close]);
    assert_eq!(state_of(&owner, h), 3);
}

#[test]
fn close_while_open_runs_closing_handshake() {
    let mut owner = OwningThread::new();
    let h = open_connection(&mut owner);
    assert_eq!(owner.close(h, None, None), Ok(()));
    // the state moves only when the closing task starts
    assert_eq!(state_of(&owner, h), 1);
    let (task, action) = owner.run_next().unwrap();
    assert_eq!(task, WebSocketTaskHandler::new(h, WebSocketTask::Close));
    assert_eq!(action, Action::SendClose);
    assert_eq!(state_of(&owner, h), 2);
    assert_eq!(owner.close_finished(h), vec![Notification::Close]);
    assert_eq!(state_of(&owner, h), 3);
}

#[test]
fn double_close_fires_close_once() {
    let mut owner = OwningThread::new();
    let h = open_connection(&mut owner);
    assert_eq!(owner.close(h, None, None), Ok(()));
    assert_eq!(owner.close(h, Some(3001), Some("again".to_string())), Ok(()));
    assert_eq!(owner.pending_tasks(), 1);
    let mut fired = Vec::new();
    while let Some((_, action)) = owner.run_next() {
        if action == Action::SendClose {
            fired.extend(owner.close_finished(h));
        }
    }
    fired.extend(owner.close_finished(h));
    assert_eq!(fired, vec![Notification::Close]);
    assert_eq!(state_of(&owner, h), 3);
}

#[test]
fn first_close_request_sets_the_close_payload() {
    let mut owner = OwningThread::new();
    let h = open_connection(&mut owner);
    owner.close(h, Some(4000), Some("going away".to_string())).unwrap();
    owner.close(h, Some(1000), None).unwrap();
    let ws = owner.resolve(h).unwrap();
    assert_eq!(ws.close_code(), Some(4000));
    assert_eq!(ws.close_reason(), Some("going away".to_string()));
}

#[test]
fn close_code_1000_accepted_in_every_state() {
    let mut owner = OwningThread::new();
    // Connecting
    let a = owner.connect(URL.to_string());
    assert_eq!(owner.close(a, Some(1000), None), Ok(()));
    // Closing, then Closed
    assert_eq!(owner.close(a, Some(1000), None), Ok(()));
    owner.run_next().unwrap();
    owner.open_finished(a, false);
    assert_eq!(state_of(&owner, a), 3);
    assert_eq!(owner.close(a, Some(1000), None), Ok(()));
    // Open
    let b = open_connection(&mut owner);
    assert_eq!(owner.close(b, Some(1000), None), Ok(()));
}

#[test]
fn close_code_bounds() {
    let mut owner = OwningThread::new();
    let h = owner.connect(URL.to_string());
    assert_eq!(owner.close(h, Some(2999), None), Err(WebSocketError::InvalidAccess));
    assert_eq!(owner.close(h, Some(5000), None), Err(WebSocketError::InvalidAccess));
    assert_eq!(owner.close(h, Some(999), None), Err(WebSocketError::InvalidAccess));
    assert_eq!(owner.close(h, Some(1001), None), Err(WebSocketError::InvalidAccess));
    assert_eq!(owner.close(h, Some(0), None), Err(WebSocketError::InvalidAccess));
    // a refused request changes nothing
    assert_eq!(state_of(&owner, h), 0);
    assert_eq!(owner.close(h, Some(4999), None), Ok(()));
    assert_eq!(state_of(&owner, h), 2);
    let g = owner.connect(URL.to_string());
    assert_eq!(owner.close(g, Some(3000), None), Ok(()));
}

#[test]
fn close_reason_length() {
    let mut owner = OwningThread::new();
    let h = owner.connect(URL.to_string());
    assert_eq!(owner.close(h, None, Some("a".repeat(124))), Err(WebSocketError::Syntax));
    assert_eq!(state_of(&owner, h), 0);
    // two bytes per character: 124 bytes
    assert_eq!(owner.close(h, None, Some("é".repeat(62))), Err(WebSocketError::Syntax));
    assert_eq!(owner.close(h, None, Some("a".repeat(123))), Ok(()));
    assert_eq!(state_of(&owner, h), 2);
}

#[test]
fn close_code_checked_before_reason() {
    let mut owner = OwningThread::new();
    let h = owner.connect(URL.to_string());
    assert_eq!(
        owner.close(h, Some(2000), Some("a".repeat(200))),
        Err(WebSocketError::InvalidAccess)
    );
    assert_eq!(owner.close(h, Some(1000), Some("a".repeat(200))), Err(WebSocketError::Syntax));
}

#[test]
fn ready_state_never_goes_back() {
    let mut owner = OwningThread::new();
    let h = owner.connect(URL.to_string());
    let mut seen = vec![state_of(&owner, h)];
    owner.run_next();
    seen.push(state_of(&owner, h));
    owner.open_finished(h, true);
    seen.push(state_of(&owner, h));
    owner.close(h, None, None).unwrap();
    seen.push(state_of(&owner, h));
    owner.run_next();
    seen.push(state_of(&owner, h));
    owner.open_finished(h, false);
    seen.push(state_of(&owner, h));
    owner.close_finished(h);
    seen.push(state_of(&owner, h));
    owner.open_finished(h, true);
    seen.push(state_of(&owner, h));
    assert_eq!(seen, vec![0, 0, 1, 1, 2, 2, 3, 3]);
}

#[test]
fn unknown_handle_resolves_to_nothing() {
    let mut owner = OwningThread::new();
    let h = owner.connect(URL.to_string());
    assert_eq!(h.id, 0);
    assert!(owner.resolve(Trusted::new(1)).is_none());
    assert_eq!(owner.resolve(h).unwrap().url(), URL);
    let second = owner.connect("ws://example.org/b".to_string());
    assert_eq!(second.id, 1);
    assert_eq!(owner.resolve(second).unwrap().url(), "ws://example.org/b");
}

#[test]
fn tasks_run_in_posting_order() {
    let mut owner = OwningThread::new();
    let a = owner.connect(URL.to_string());
    let b = owner.connect(URL.to_string());
    assert_eq!(owner.run_next().unwrap().0.addr, a);
    assert_eq!(owner.run_next().unwrap().0.addr, b);
    assert_eq!(owner.run_next(), None);
}

#[test]
fn constructor_posts_open_task() {
    let mut queue = TaskQueue::new();
    let addr = Trusted::new(7);
    let ws = WebSocket::Constructor(addr, URL.to_string(), &mut queue).unwrap();
    assert_eq!(ws.state(), ReadyState::Connecting);
    assert_eq!(ws.ready_state(), 0);
    assert_eq!(ws.url(), URL);
    assert_eq!(ws.addr(), addr);
    assert_eq!(queue.len(), 1);
    assert_eq!(queue.next(), Some(WebSocketTaskHandler::new(addr, WebSocketTask::Open)));
    assert!(queue.is_empty());
}

#[test]
fn new_inherited_posts_nothing_until_open() {
    let mut queue = TaskQueue::new();
    let mut ws = WebSocket::new_inherited(Trusted::new(3), URL.to_string());
    assert_eq!(ws.ready_state(), 0);
    assert!(queue.is_empty());
    ws.open(&mut queue);
    ws.open(&mut queue);
    assert_eq!(queue.len(), 1);
}

#[test]
fn handler_ignores_other_connection() {
    let mut queue = TaskQueue::new();
    let mut ws = WebSocket::new(Trusted::new(1), URL.to_string(), &mut queue);
    let stray = WebSocketTaskHandler::new(Trusted::new(2), WebSocketTask::Open);
    assert_eq!(stray.handler(&mut ws), Action::Nothing);
    let own = queue.next().unwrap();
    assert_eq!(own.handler(&mut ws), Action::Connect);
    // the same task a second time starts nothing
    assert_eq!(own.handler(&mut ws), Action::Nothing);
    assert_eq!(ws.open_finished(true), vec![Notification::Open]);
    assert_eq!(ws.open_finished(true), Vec::<Notification>::new());
}

#[test]
fn ready_state_codes() {
    assert_eq!(ReadyState::Connecting.code(), 0);
    assert_eq!(ReadyState::Open.code(), 1);
    assert_eq!(ReadyState::Closing.code(), 2);
    assert_eq!(ReadyState::Closed.code(), 3);
}

#[test]
fn queue_is_fifo() {
    let mut q: TaskQueue<u32> = TaskQueue::new();
    assert_eq!(q.next(), None);
    q.post(1);
    q.post(2);
    q.post(3);
    assert_eq!(q.next(), Some(1));
    q.post(4);
    assert_eq!(q.next(), Some(2));
    assert_eq!(q.next(), Some(3));
    assert_eq!(q.next(), Some(4));
    assert_eq!(q.next(), None);
}
