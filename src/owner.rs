use vstd::prelude::*;
use crate::task_queue::TaskQueue;
use crate::websocket::{
    close_done, close_posts, close_request, close_validation, initial_socket, open_done,
    open_request, opt_view, socket_wf, task_start, Action, Notification, SocketView, Trusted,
    WebSocket, WebSocketError, WebSocketTask, WebSocketTaskHandler,
};

verus! {

/// The connections that one thread owns, and the channel of lifecycle tasks
/// bound for it. Every change of a connection's state happens through here,
/// on this thread.
pub struct OwningThread {
    sockets: Vec<WebSocket>,
    queue: TaskQueue<WebSocketTaskHandler>,
}

/// The abstract state of an owning thread.
pub struct OwnerView {
    /// The connections, indexed by their handles' ids.
    pub sockets: Seq<SocketView>,
    /// The lifecycle tasks waiting to run, the oldest first.
    pub queue: Seq<WebSocketTaskHandler>,
}

impl View for OwningThread {
    type V = OwnerView;

    closed spec fn view(&self) -> OwnerView {
        OwnerView { sockets: self.sockets@.map_values(|ws: WebSocket| ws@), queue: self.queue@ }
    }
}

/// Each connection sits at the index of its handle's id and keeps its invariant.
pub open spec fn owner_wf(v: OwnerView) -> bool {
    forall|i: int|
        0 <= i < v.sockets.len() ==> (#[trigger] v.sockets[i]).addr.id == i && socket_wf(
            v.sockets[i],
        )
}

/// `h` addresses a connection of this thread.
pub open spec fn resolves(v: OwnerView, h: Trusted) -> bool {
    h.id < v.sockets.len()
}

impl OwningThread {
    pub fn new() -> (r: OwningThread)
        ensures
            r@.sockets == Seq::<SocketView>::empty(),
            r@.queue == Seq::<WebSocketTaskHandler>::empty(),
            owner_wf(r@),
    {
        let r = OwningThread { sockets: Vec::new(), queue: TaskQueue::new() };
        proof {
            assert(r@.sockets =~= Seq::<SocketView>::empty());
        }
        r
    }

    /// Constructs a connection to `url` owned by this thread, and posts its
    /// opening task. Returns the new connection's handle.
    pub fn connect(&mut self, url: String) -> (h: Trusted)
        requires
            owner_wf(old(self)@),
            old(self)@.sockets.len() < u64::MAX,
        ensures
            owner_wf(final(self)@),
            h.id == old(self)@.sockets.len(),
            final(self)@.sockets == old(self)@.sockets.push(
                open_request(initial_socket(h, url@)),
            ),
            final(self)@.queue == old(self)@.queue.push(
                (WebSocketTaskHandler { addr: h, task: WebSocketTask::Open }),
            ),
    {
        let h = Trusted::new(self.sockets.len() as u64);
        let ws = WebSocket::new(h, url, &mut self.queue);
        self.sockets.push(ws);
        proof {
            assert(self@.sockets =~= old(self)@.sockets.push(open_request(initial_socket(h, url@))));
        }
        h
    }

    /// The connection that `h` addresses, if this thread owns it.
    pub fn resolve(&self, h: Trusted) -> (r: Option<&WebSocket>)
        requires
            owner_wf(self@),
        ensures
            r is Some == resolves(self@, h),
            r is Some ==> r->0@ == self@.sockets[h.id as int],
    {
        if h.id < self.sockets.len() as u64 {
            Some(&self.sockets[h.id as usize])
        } else {
            None
        }
    }

    /// A close request on the connection that `h` addresses; see `WebSocket::close`.
    pub fn close(&mut self, h: Trusted, code: Option<u16>, reason: Option<String>) -> (r: Result<
        (),
        WebSocketError,
    >)
        requires
            owner_wf(old(self)@),
            resolves(old(self)@, h),
        ensures
            owner_wf(final(self)@),
            r == close_validation(code, opt_view(reason)),
            ({
                let s = old(self)@.sockets[h.id as int];
                &&& r is Err ==> final(self)@ == old(self)@
                &&& r is Ok ==> final(self)@.sockets == old(self)@.sockets.update(
                    h.id as int,
                    close_request(s, code, opt_view(reason)),
                )
                &&& r is Ok && close_posts(s) ==> final(self)@.queue == old(self)@.queue.push(
                    (WebSocketTaskHandler { addr: h, task: WebSocketTask::Close }),
                )
                &&& !(r is Ok && close_posts(s)) ==> final(self)@.queue == old(self)@.queue
            }),
    {
        let n: usize = self.sockets.len();
        proof {
            assert(self@.sockets.len() == n);
        }
        let i = h.id as usize;
        proof {
            assert(self@.sockets[i as int] == self.sockets@[i as int]@);
        }
        let r = self.sockets[i].close(code, reason, &mut self.queue);
        proof {
            assert(self@.sockets =~= old(self)@.sockets.update(i as int, self.sockets@[i as int]@));
            if r is Err {
                assert(self@.sockets =~= old(self)@.sockets);
            }
        }
        r
    }

    /// Runs the oldest waiting lifecycle task against the connection it
    /// addresses, and returns it with the background work it asks for.
    pub fn run_next(&mut self) -> (r: Option<(WebSocketTaskHandler, Action)>)
        requires
            owner_wf(old(self)@),
        ensures
            owner_wf(final(self)@),
            old(self)@.queue.len() == 0 ==> r is None && final(self)@ == old(self)@,
            old(self)@.queue.len() > 0 ==> ({
                let t = old(self)@.queue[0];
                &&& final(self)@.queue == old(self)@.queue.subrange(1, old(self)@.queue.len() as int)
                &&& resolves(old(self)@, t.addr) ==> {
                    let (s, a) = task_start(old(self)@.sockets[t.addr.id as int], t.task);
                    &&& final(self)@.sockets == old(self)@.sockets.update(t.addr.id as int, s)
                    &&& r == Some((t, a))
                }
                &&& !resolves(old(self)@, t.addr) ==> final(self)@.sockets == old(self)@.sockets
                    && r == Some((t, Action::Nothing))
            }),
    {
        match self.queue.next() {
            None => None,
            Some(t) => {
                if t.addr.id < self.sockets.len() as u64 {
                    let i = t.addr.id as usize;
                    proof {
                        assert(self@.sockets[i as int] == self.sockets@[i as int]@);
                    }
                    let a = t.handler(&mut self.sockets[i]);
                    proof {
                        assert(self@.sockets =~= old(self)@.sockets.update(
                            i as int,
                            self.sockets@[i as int]@,
                        ));
                    }
                    Some((t, a))
                } else {
                    Some((t, Action::Nothing))
                }
            },
        }
    }

    /// Hands the outcome of an opening handshake back to the connection that
    /// `h` addresses; returns the notifications to fire, in order.
    pub fn open_finished(&mut self, h: Trusted, connected: bool) -> (r: Vec<Notification>)
        requires
            owner_wf(old(self)@),
            resolves(old(self)@, h),
        ensures
            owner_wf(final(self)@),
            final(self)@.queue == old(self)@.queue,
            ({
                let (s, fired) = open_done(old(self)@.sockets[h.id as int], connected);
                &&& final(self)@.sockets == old(self)@.sockets.update(h.id as int, s)
                &&& r@ == fired
            }),
    {
        let n: usize = self.sockets.len();
        proof {
            assert(self@.sockets.len() == n);
        }
        let i = h.id as usize;
        proof {
            assert(self@.sockets[i as int] == self.sockets@[i as int]@);
        }
        let r = self.sockets[i].open_finished(connected);
        proof {
            assert(self@.sockets =~= old(self)@.sockets.update(i as int, self.sockets@[i as int]@));
        }
        r
    }

    /// Hands the end of a closing handshake back to the connection that `h`
    /// addresses; returns the notifications to fire, in order.
    pub fn close_finished(&mut self, h: Trusted) -> (r: Vec<Notification>)
        requires
            owner_wf(old(self)@),
            resolves(old(self)@, h),
        ensures
            owner_wf(final(self)@),
            final(self)@.queue == old(self)@.queue,
            ({
                let (s, fired) = close_done(old(self)@.sockets[h.id as int]);
                &&& final(self)@.sockets == old(self)@.sockets.update(h.id as int, s)
                &&& r@ == fired
            }),
    {
        let n: usize = self.sockets.len();
        proof {
            assert(self@.sockets.len() == n);
        }
        let i = h.id as usize;
        proof {
            assert(self@.sockets[i as int] == self.sockets@[i as int]@);
        }
        let r = self.sockets[i].close_finished();
        proof {
            assert(self@.sockets =~= old(self)@.sockets.update(i as int, self.sockets@[i as int]@));
        }
        r
    }

    /// The number of connections this thread owns.
    pub fn connections(&self) -> (r: usize)
        ensures
            r == self@.sockets.len(),
    {
        self.sockets.len()
    }

    /// The number of lifecycle tasks waiting to run.
    pub fn pending_tasks(&self) -> (r: usize)
        ensures
            r == self@.queue.len(),
    {
        self.queue.len()
    }
}

} // verus!
