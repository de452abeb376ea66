use vstd::prelude::*;
use crate::ready_state::ReadyState;
use crate::websocket::{
    close_done, close_posts, close_request, lifecycle_step, open_done, socket_wf, task_start, Action,
    Notification, SocketView, WebSocketTask,
};

verus! {

/// One step of the lifecycle keeps the invariant and never moves the state back.
pub proof fn lemma_step_never_regresses(pre: SocketView, post: SocketView)
    requires
        socket_wf(pre),
        lifecycle_step(pre, post),
    ensures
        socket_wf(post),
        pre.ready_state.may_advance_to(post.ready_state),
{
}

/// Along any run of lifecycle steps from a well-formed state, a state read
/// later is never earlier in `Connecting < Open < Closing < Closed` than one
/// read before it.
pub proof fn lemma_ready_state_never_regresses(trace: Seq<SocketView>)
    requires
        trace.len() > 0,
        socket_wf(trace[0]),
        forall|i: int| 0 <= i < trace.len() - 1 ==> #[trigger] lifecycle_step(trace[i], trace[i + 1]),
    ensures
        forall|i: int| 0 <= i < trace.len() ==> socket_wf(#[trigger] trace[i]),
        forall|i: int, j: int|
            0 <= i <= j < trace.len() ==> (#[trigger] trace[i]).ready_state.may_advance_to(
                (#[trigger] trace[j]).ready_state,
            ),
    decreases trace.len(),
{
    if trace.len() > 1 {
        let prefix = trace.drop_last();
        assert forall|i: int| 0 <= i < prefix.len() - 1 implies #[trigger] lifecycle_step(
            prefix[i],
            prefix[i + 1],
        ) by {
            assert(lifecycle_step(trace[i], trace[i + 1]));
        }
        lemma_ready_state_never_regresses(prefix);
        let last = trace.len() - 1;
        let k = last - 1;
        assert(lifecycle_step(trace[k], trace[k + 1]));
        assert(prefix[last - 1] == trace[last - 1]);
        lemma_step_never_regresses(trace[last - 1], trace[last]);
        assert forall|i: int| 0 <= i < trace.len() implies socket_wf(#[trigger] trace[i]) by {
            if i < last {
                assert(prefix[i] == trace[i]);
            }
        }
        assert forall|i: int, j: int| 0 <= i <= j < trace.len() implies (#[trigger] trace[
            i
        ]).ready_state.may_advance_to((#[trigger] trace[j]).ready_state) by {
            if j < last {
                assert(prefix[i] == trace[i] && prefix[j] == trace[j]);
            } else if i < last {
                assert(prefix[i] == trace[i] && prefix[last - 1] == trace[last - 1]);
            }
        }
    }
}

/// Two accepted close requests in a row on an open connection post one closing
/// task: the second changes nothing. Once that task has started and its
/// handshake has ended, `close` has fired exactly once; a repeated start or a
/// repeated end fires nothing more.
pub proof fn lemma_double_close_notifies_once(
    s: SocketView,
    code1: Option<u16>,
    reason1: Option<Seq<char>>,
    code2: Option<u16>,
    reason2: Option<Seq<char>>,
)
    requires
        socket_wf(s),
        s.ready_state == ReadyState::Open,
    ensures
        ({
            let s1 = close_request(s, code1, reason1);
            let s2 = close_request(s1, code2, reason2);
            let (s3, started) = task_start(s2, WebSocketTask::Close);
            let (s4, fired1) = close_done(s3);
            let (s5, fired2) = close_done(s4);
            &&& !close_posts(s1)
            &&& s2 == s1
            &&& started == Action::SendClose
            &&& fired1 == seq![Notification::Close]
            &&& task_start(s4, WebSocketTask::Close).1 == Action::Nothing
            &&& fired2 == Seq::<Notification>::empty()
            &&& s4.ready_state == ReadyState::Closed
            &&& s5 == s4
        }),
{
}

/// A close request accepted while the connection is still connecting makes it
/// `Closing` at once and posts no closing handshake; when the opening
/// handshake then ends, whatever its outcome, the connection is closed and
/// `open` is not among the notifications fired.
pub proof fn lemma_close_while_connecting_cancels_open(
    s: SocketView,
    code: Option<u16>,
    reason: Option<Seq<char>>,
    connected: bool,
)
    requires
        socket_wf(s),
        s.ready_state == ReadyState::Connecting,
    ensures
        !close_posts(s),
        close_request(s, code, reason).ready_state == ReadyState::Closing,
        ({
            let (s2, fired) = open_done(close_request(s, code, reason), connected);
            &&& !fired.contains(Notification::Open)
            &&& s2.ready_state != ReadyState::Open
        }),
{
}

} // verus!
