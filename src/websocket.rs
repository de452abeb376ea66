use vstd::prelude::*;
use crate::ready_state::ReadyState;
use crate::task_queue::TaskQueue;

verus! {

/// Largest byte length of a close reason.
pub const MAX_REASON_BYTES: usize = 123;

/// Why a close request was refused. Either way nothing about the connection changed.
#[derive(PartialEq, Eq, Structural, Clone, Copy, Debug)]
pub enum WebSocketError {
    /// The close code is neither 1000 nor within 3000..=4999.
    InvalidAccess,
    /// The close reason is longer than `MAX_REASON_BYTES` bytes.
    Syntax,
}

/// A lifecycle notification, fired on the owning thread.
#[derive(PartialEq, Eq, Structural, Clone, Copy, Debug)]
pub enum Notification {
    Open,
    Close,
    Error,
}

/// The operation that a lifecycle task stands for.
#[derive(PartialEq, Eq, Structural, Clone, Copy, Debug)]
pub enum WebSocketTask {
    Open,
    Close,
}

/// Where the lifecycle task of one kind stands for a connection.
#[derive(PartialEq, Eq, Structural, Clone, Copy, Debug)]
pub enum TaskStage {
    /// No task of this kind is in flight.
    Idle,
    /// A task was posted to the owning thread's channel and has not started.
    Scheduled,
    /// The task started and its handshake runs off the owning thread.
    Running,
}

/// The background work that running a lifecycle task asks for.
#[derive(PartialEq, Eq, Structural, Clone, Copy, Debug)]
pub enum Action {
    /// Nothing to do.
    Nothing,
    /// Connect to the connection's url and run the opening handshake.
    Connect,
    /// Run the closing handshake with the stored close code and reason.
    SendClose,
}

/// A handle that addresses a connection from any thread. It carries the
/// connection's identity only; the connection itself is reached through it
/// on the owning thread alone.
#[derive(PartialEq, Eq, Structural, Clone, Copy, Debug)]
pub struct Trusted {
    pub id: u64,
}

impl Trusted {
    pub fn new(id: u64) -> (r: Trusted)
        ensures
            r.id == id,
    {
        Trusted { id }
    }

    /// Whether this handle addresses `ws`.
    pub fn resolves_to(&self, ws: &WebSocket) -> (r: bool)
        ensures
            r == (ws@.addr == *self),
    {
        self.id == ws.addr.id
    }
}

/// A lifecycle task: which connection, and which operation.
#[derive(PartialEq, Eq, Structural, Clone, Copy, Debug)]
pub struct WebSocketTaskHandler {
    pub addr: Trusted,
    pub task: WebSocketTask,
}

/// The abstract state of a connection.
pub struct SocketView {
    pub addr: Trusted,
    pub url: Seq<char>,
    pub ready_state: ReadyState,
    pub open_stage: TaskStage,
    pub close_stage: TaskStage,
    pub close_code: Option<u16>,
    pub close_reason: Option<Seq<char>>,
}

/// One connection, owned by the thread that created it.
pub struct WebSocket {
    addr: Trusted,
    url: String,
    ready_state: ReadyState,
    open_stage: TaskStage,
    close_stage: TaskStage,
    close_code: Option<u16>,
    close_reason: Option<String>,
}

/// The view of an optional string.
pub open spec fn opt_view(o: Option<String>) -> Option<Seq<char>> {
    match o {
        Some(s) => Some(s@),
        None => None,
    }
}

impl View for WebSocket {
    type V = SocketView;

    closed spec fn view(&self) -> SocketView {
        SocketView {
            addr: self.addr,
            url: self.url@,
            ready_state: self.ready_state,
            open_stage: self.open_stage,
            close_stage: self.close_stage,
            close_code: self.close_code,
            close_reason: opt_view(self.close_reason),
        }
    }
}

/// A close code that a consumer may send: 1000, or one in 3000..=4999.
pub open spec fn close_code_allowed(code: u16) -> bool {
    code == 1000 || (3000 <= code && code <= 4999)
}

/// The byte length of a string in UTF-8.
pub open spec fn byte_len(s: Seq<char>) -> nat {
    vstd::utf8::encode_utf8(s).len()
}

/// The outcome of validating a close request; the code is checked first.
pub open spec fn close_validation(code: Option<u16>, reason: Option<Seq<char>>) -> Result<
    (),
    WebSocketError,
> {
    if code is Some && !close_code_allowed(code->0) {
        Err(WebSocketError::InvalidAccess)
    } else if reason is Some && byte_len(reason->0) > MAX_REASON_BYTES {
        Err(WebSocketError::Syntax)
    } else {
        Ok(())
    }
}

/// The invariant that every reachable connection state keeps.
pub open spec fn socket_wf(s: SocketView) -> bool {
    &&& s.ready_state == ReadyState::Connecting ==> s.close_stage == TaskStage::Idle
    &&& s.ready_state == ReadyState::Open ==> s.open_stage == TaskStage::Idle && s.close_stage
        != TaskStage::Running
    &&& s.ready_state == ReadyState::Closing ==> s.close_stage != TaskStage::Scheduled
    &&& s.ready_state == ReadyState::Closed ==> s.open_stage == TaskStage::Idle && s.close_stage
        == TaskStage::Idle
    &&& s.open_stage != TaskStage::Idle ==> s.close_stage == TaskStage::Idle
}

/// A freshly constructed connection, before its opening task is posted.
pub open spec fn initial_socket(addr: Trusted, url: Seq<char>) -> SocketView {
    SocketView {
        addr,
        url,
        ready_state: ReadyState::Connecting,
        open_stage: TaskStage::Idle,
        close_stage: TaskStage::Idle,
        close_code: None,
        close_reason: None,
    }
}

/// Whether asking to open `s` posts an opening task.
pub open spec fn open_posts(s: SocketView) -> bool {
    s.ready_state == ReadyState::Connecting && s.open_stage == TaskStage::Idle
}

/// The state after asking to open.
pub open spec fn open_request(s: SocketView) -> SocketView {
    if open_posts(s) {
        SocketView { open_stage: TaskStage::Scheduled, ..s }
    } else {
        s
    }
}

/// Whether an accepted close request on `s` posts a closing task.
pub open spec fn close_posts(s: SocketView) -> bool {
    s.ready_state == ReadyState::Open && s.close_stage == TaskStage::Idle
}

/// The state after an accepted close request.
pub open spec fn close_request(s: SocketView, code: Option<u16>, reason: Option<Seq<char>>) -> SocketView {
    match s.ready_state {
        ReadyState::Connecting => SocketView { ready_state: ReadyState::Closing, ..s },
        ReadyState::Open => if s.close_stage == TaskStage::Idle {
            SocketView {
                close_stage: TaskStage::Scheduled,
                close_code: code,
                close_reason: reason,
                ..s
            }
        } else {
            s
        },
        _ => s,
    }
}

/// The state after a lifecycle task of kind `task` starts on the owning thread,
/// and the background work it asks for.
pub open spec fn task_start(s: SocketView, task: WebSocketTask) -> (SocketView, Action) {
    match task {
        WebSocketTask::Open => if s.open_stage == TaskStage::Scheduled {
            (SocketView { open_stage: TaskStage::Running, ..s }, Action::Connect)
        } else {
            (s, Action::Nothing)
        },
        WebSocketTask::Close => if s.close_stage == TaskStage::Scheduled {
            (
                SocketView {
                    ready_state: ReadyState::Closing,
                    close_stage: TaskStage::Running,
                    ..s
                },
                Action::SendClose,
            )
        } else {
            (s, Action::Nothing)
        },
    }
}

/// The state and the notifications, in order, once the opening handshake ends.
pub open spec fn open_done(s: SocketView, connected: bool) -> (SocketView, Seq<Notification>) {
    if s.open_stage != TaskStage::Running {
        (s, Seq::empty())
    } else if !connected {
        (
            SocketView { ready_state: ReadyState::Closed, open_stage: TaskStage::Idle, ..s },
            seq![Notification::Error, Notification::Close],
        )
    } else if s.ready_state == ReadyState::Connecting {
        (
            SocketView { ready_state: ReadyState::Open, open_stage: TaskStage::Idle, ..s },
            seq![Notification::Open],
        )
    } else {
        (
            SocketView { ready_state: ReadyState::Closed, open_stage: TaskStage::Idle, ..s },
            seq![Notification::Close],
        )
    }
}

/// The state and the notifications once the closing handshake ends, whatever its outcome.
pub open spec fn close_done(s: SocketView) -> (SocketView, Seq<Notification>) {
    if s.close_stage != TaskStage::Running {
        (s, Seq::empty())
    } else {
        (
            SocketView { ready_state: ReadyState::Closed, close_stage: TaskStage::Idle, ..s },
            seq![Notification::Close],
        )
    }
}

/// `post` follows `pre` by one step of the connection's lifecycle.
pub open spec fn lifecycle_step(pre: SocketView, post: SocketView) -> bool {
    ||| post == open_request(pre)
    ||| exists|code: Option<u16>, reason: Option<Seq<char>>|
        post == close_request(pre, code, reason)
    ||| exists|task: WebSocketTask| post == task_start(pre, task).0
    ||| exists|connected: bool| post == open_done(pre, connected).0
    ||| post == close_done(pre).0
}

impl WebSocketTaskHandler {
    pub fn new(addr: Trusted, task: WebSocketTask) -> (r: WebSocketTaskHandler)
        ensures
            r.addr == addr,
            r.task == task,
    {
        WebSocketTaskHandler { addr, task }
    }

    /// Runs the first step of the task held here for `ws` on the owning thread and
    /// returns the background work that follows. A task addressed to another connection,
    /// or one whose kind has nothing scheduled, does nothing.
    pub fn handler(&self, ws: &mut WebSocket) -> (r: Action)
        requires
            socket_wf(old(ws)@),
        ensures
            socket_wf(final(ws)@),
            old(ws)@.ready_state.may_advance_to(final(ws)@.ready_state),
            lifecycle_step(old(ws)@, final(ws)@),
            old(ws)@.addr == self.addr ==> (final(ws)@, r) == task_start(old(ws)@, self.task),
            old(ws)@.addr != self.addr ==> final(ws)@ == old(ws)@ && r == Action::Nothing,
    {
        if !self.addr.resolves_to(ws) {
            return Action::Nothing;
        }
        match self.task {
            WebSocketTask::Open => self.dispatch_open(ws),
            WebSocketTask::Close => self.dispatch_close(ws),
        }
    }
    /// Starts the opening task: the handshake may now run off the owning thread.
    fn dispatch_open(&self, ws: &mut WebSocket) -> (r: Action)
        requires
            socket_wf(old(ws)@),
        ensures
            socket_wf(final(ws)@),
            old(ws)@.ready_state.may_advance_to(final(ws)@.ready_state),
            lifecycle_step(old(ws)@, final(ws)@),
            (final(ws)@, r) == task_start(old(ws)@, WebSocketTask::Open),
    {
        let r = if ws.open_stage == TaskStage::Scheduled {
            ws.open_stage = TaskStage::Running;
            Action::Connect
        } else {
            Action::Nothing
        };
        proof {
            assert(ws@ == task_start(old(ws)@, WebSocketTask::Open).0);
        }
        r
    }

    /// Starts the closing task: the state becomes `Closing` now, when the
    /// closing handshake begins, not when the task was posted.
    fn dispatch_close(&self, ws: &mut WebSocket) -> (r: Action)
        requires
            socket_wf(old(ws)@),
        ensures
            socket_wf(final(ws)@),
            old(ws)@.ready_state.may_advance_to(final(ws)@.ready_state),
            lifecycle_step(old(ws)@, final(ws)@),
            (final(ws)@, r) == task_start(old(ws)@, WebSocketTask::Close),
    {
        let r = if ws.close_stage == TaskStage::Scheduled {
            ws.ready_state = ReadyState::Closing;
            ws.close_stage = TaskStage::Running;
            Action::SendClose
        } else {
            Action::Nothing
        };
        proof {
            assert(ws@ == task_start(old(ws)@, WebSocketTask::Close).0);
        }
        r
    }
}

impl WebSocket {
    /// A connection in state `Connecting` with no task posted yet.
    pub fn new_inherited(addr: Trusted, url: String) -> (r: WebSocket)
        ensures
            r@ == initial_socket(addr, url@),
            socket_wf(r@),
    {
        WebSocket {
            addr,
            url,
            ready_state: ReadyState::Connecting,
            open_stage: TaskStage::Idle,
            close_stage: TaskStage::Idle,
            close_code: None,
            close_reason: None,
        }
    }

    /// A connection in state `Connecting`, whose opening task is posted to `queue`.
    pub fn new(addr: Trusted, url: String, queue: &mut TaskQueue<WebSocketTaskHandler>) -> (r:
        WebSocket)
        ensures
            r@ == open_request(initial_socket(addr, url@)),
            r@.ready_state == ReadyState::Connecting,
            r@.open_stage == TaskStage::Scheduled,
            socket_wf(r@),
            final(queue)@ == old(queue)@.push(
                (WebSocketTaskHandler { addr, task: WebSocketTask::Open }),
            ),
    {
        let mut ws = WebSocket::new_inherited(addr, url);
        ws.open(queue);
        ws
    }

    /// The consumer-facing constructor: it cannot fail.
    #[allow(non_snake_case)]
    pub fn Constructor(addr: Trusted, url: String, queue: &mut TaskQueue<WebSocketTaskHandler>) -> (r:
        Result<WebSocket, WebSocketError>)
        ensures
            r is Ok,
            r->Ok_0@ == open_request(initial_socket(addr, url@)),
            socket_wf(r->Ok_0@),
            final(queue)@ == old(queue)@.push(
                (WebSocketTaskHandler { addr, task: WebSocketTask::Open }),
            ),
    {
        Ok(WebSocket::new(addr, url, queue))
    }

    /// Posts the opening task, unless the connection is past `Connecting` or
    /// one is already in flight.
    pub fn open(&mut self, queue: &mut TaskQueue<WebSocketTaskHandler>)
        requires
            socket_wf(old(self)@),
        ensures
            final(self)@ == open_request(old(self)@),
            socket_wf(final(self)@),
            old(self)@.ready_state.may_advance_to(final(self)@.ready_state),
            lifecycle_step(old(self)@, final(self)@),
            final(queue)@ == if open_posts(old(self)@) {
                old(queue)@.push((WebSocketTaskHandler { addr: old(self)@.addr, task: WebSocketTask::Open }))
            } else {
                old(queue)@
            },
    {
        if self.ready_state == ReadyState::Connecting && self.open_stage == TaskStage::Idle {
            queue.post(WebSocketTaskHandler::new(self.addr, WebSocketTask::Open));
            self.open_stage = TaskStage::Scheduled;
        }
    }

    pub fn addr(&self) -> (r: Trusted)
        ensures
            r == self@.addr,
    {
        self.addr
    }

    pub fn url(&self) -> (r: &str)
        ensures
            r@ == self@.url,
    {
        self.url.as_str()
    }

    /// The state as the consumer reads it: 0 to 3.
    pub fn ready_state(&self) -> (r: u16)
        ensures
            r == self@.ready_state.spec_code(),
    {
        self.ready_state.code()
    }

    pub fn state(&self) -> (r: ReadyState)
        ensures
            r == self@.ready_state,
    {
        self.ready_state
    }

    /// The close code that the closing handshake sends.
    pub fn close_code(&self) -> (r: Option<u16>)
        ensures
            r == self@.close_code,
    {
        self.close_code
    }

    /// The close reason that the closing handshake sends.
    pub fn close_reason(&self) -> (r: Option<String>)
        ensures
            opt_view(r) == self@.close_reason,
    {
        match &self.close_reason {
            Some(s) => Some(s.clone()),
            None => None,
        }
    }

    /// Checks a close request, then acts on it by the current state: from
    /// `Connecting` the state becomes `Closing` at once; from `Open` a closing
    /// task is posted, unless one is already in flight; otherwise nothing
    /// happens. A refused request changes nothing.
    pub fn close(
        &mut self,
        code: Option<u16>,
        reason: Option<String>,
        queue: &mut TaskQueue<WebSocketTaskHandler>,
    ) -> (r: Result<(), WebSocketError>)
        requires
            socket_wf(old(self)@),
        ensures
            r == close_validation(code, opt_view(reason)),
            socket_wf(final(self)@),
            old(self)@.ready_state.may_advance_to(final(self)@.ready_state),
            lifecycle_step(old(self)@, final(self)@),
            r is Err ==> final(self)@ == old(self)@ && final(queue)@ == old(queue)@,
            r is Ok ==> final(self)@ == close_request(old(self)@, code, opt_view(reason)),
            r is Ok && close_posts(old(self)@) ==> final(queue)@ == old(queue)@.push(
                (WebSocketTaskHandler { addr: old(self)@.addr, task: WebSocketTask::Close }),
            ),
            !(r is Ok && close_posts(old(self)@)) ==> final(queue)@ == old(queue)@,
    {
        match code {
            Some(c) => {
                if !(c == 1000 || (3000 <= c && c <= 4999)) {
                    return Err(WebSocketError::InvalidAccess);
                }
            },
            None => {},
        }
        match &reason {
            Some(text) => {
                if text.as_str().as_bytes().len() > MAX_REASON_BYTES {
                    return Err(WebSocketError::Syntax);
                }
            },
            None => {},
        }
        match self.ready_state {
            ReadyState::Closing => {},
            ReadyState::Closed => {},
            ReadyState::Connecting => {
                self.ready_state = ReadyState::Closing;
            },
            ReadyState::Open => {
                if self.close_stage == TaskStage::Idle {
                    queue.post(WebSocketTaskHandler::new(self.addr, WebSocketTask::Close));
                    self.close_stage = TaskStage::Scheduled;
                    self.close_code = code;
                    self.close_reason = reason;
                }
            },
        }
        Ok(())
    }

    /// Takes the outcome of the opening handshake back on the owning thread.
    /// On success the connection opens, unless a close request came first: then
    /// it is closed without an `open` notification. On failure it is closed
    /// with `error` and then `close`.
    pub fn open_finished(&mut self, connected: bool) -> (r: Vec<Notification>)
        requires
            socket_wf(old(self)@),
        ensures
            socket_wf(final(self)@),
            old(self)@.ready_state.may_advance_to(final(self)@.ready_state),
            lifecycle_step(old(self)@, final(self)@),
            (final(self)@, r@) == open_done(old(self)@, connected),
    {
        let mut fired: Vec<Notification> = Vec::new();
        if self.open_stage != TaskStage::Running {
            return fired;
        }
        self.open_stage = TaskStage::Idle;
        if !connected {
            self.ready_state = ReadyState::Closed;
            fired.push(Notification::Error);
            fired.push(Notification::Close);
        } else if self.ready_state == ReadyState::Connecting {
            self.ready_state = ReadyState::Open;
            fired.push(Notification::Open);
        } else {
            self.ready_state = ReadyState::Closed;
            fired.push(Notification::Close);
        }
        proof {
            assert(fired@ =~= open_done(old(self)@, connected).1);
        }
        fired
    }

    /// Takes the end of the closing handshake back on the owning thread: the
    /// connection is closed and `close` fires, whether the handshake succeeded
    /// or not, and only for the one closing task in flight.
    pub fn close_finished(&mut self) -> (r: Vec<Notification>)
        requires
            socket_wf(old(self)@),
        ensures
            socket_wf(final(self)@),
            old(self)@.ready_state.may_advance_to(final(self)@.ready_state),
            lifecycle_step(old(self)@, final(self)@),
            (final(self)@, r@) == close_done(old(self)@),
    {
        let mut fired: Vec<Notification> = Vec::new();
        if self.close_stage == TaskStage::Running {
            self.close_stage = TaskStage::Idle;
            self.ready_state = ReadyState::Closed;
            fired.push(Notification::Close);
        }
        proof {
            assert(fired@ =~= close_done(old(self)@).1);
        }
        fired
    }
}

} // verus!
