//! The connection worker state machine and the fixed-size worker pool.
//!
//! A worker serves one inbound connection at a time: it accepts, gathers
//! request bytes into its own fixed-capacity scratch buffer, dispatches each
//! complete request head through the route table, and answers.  A timeout, a
//! peer that went away, an overfull buffer or a malformed request all end the
//! same way: the connection is closed and the worker returns to accepting,
//! its buffer cleared - a bad connection never corrupts anything.  With
//! keep-alive configured a worker serves several requests on one connection
//! before returning to accept.
//!
//! Workers are mutually independent: each owns its buffers for the life of
//! the process, and the only resource they share is the reading store, which
//! they only read.  The surrounding program performs the socket traffic and
//! the timeouts and feeds each worker its events; the pool entry point below
//! shows that a step of one worker leaves every other worker untouched.

use vstd::prelude::*;

use crate::http::head_end;
use crate::http::is_first_at;
use crate::http::lemma_first_at_unique;
use crate::http::find_byte;
use crate::http::find_head_end;
use crate::http::parse_request_line;
use crate::http::route;
use crate::http::spec_parse_line;
use crate::http::spec_route;
use crate::http::CR;
use crate::http::LF;
use crate::reading::Reading;
use crate::response::response_for;
use crate::response::spec_response_for;
use crate::store::SharedReading;
use vstd::slice::slice_subrange;

verus! {

/// The well-known port the node listens on.
pub const HTTP_PORT: u16 = 80;

/// How many identical worker tasks the pool holds.
pub const WEB_TASK_POOL_SIZE: usize = 2;

/// Capacity of each worker's request scratch buffer.
pub const HTTP_BUFFER_BYTES: usize = 2048;

/// Size of the socket receive buffer each connection slot pre-allocates.
pub const TCP_RX_BUFFER_BYTES: usize = 1024;

/// Size of the socket transmit buffer each connection slot pre-allocates.
pub const TCP_TX_BUFFER_BYTES: usize = 1024;

/// Default time a fresh connection has to send its first byte.
pub const START_READ_TIMEOUT_MS: u64 = 5000;

/// Default time a connection has to make read progress.
pub const READ_TIMEOUT_MS: u64 = 1000;

/// Default time a connection has to make write progress.
pub const WRITE_TIMEOUT_MS: u64 = 1000;

/// The per-operation timeouts and the keep-alive policy of the worker pool.
#[derive(Clone, Copy, PartialEq, Eq, Structural, Debug)]
pub struct Timeouts {
    pub start_read_ms: u64,
    pub read_ms: u64,
    pub write_ms: u64,
    pub keep_alive: bool,
}

impl Timeouts {
    /// The default configuration: 5 s to begin receiving a request, 1 s per
    /// read or write progress, connections kept alive across requests.
    pub fn new_default() -> (t: Timeouts)
        ensures
            t == (Timeouts {
                start_read_ms: START_READ_TIMEOUT_MS,
                read_ms: READ_TIMEOUT_MS,
                write_ms: WRITE_TIMEOUT_MS,
                keep_alive: true,
            }),
    {
        Timeouts {
            start_read_ms: START_READ_TIMEOUT_MS,
            read_ms: READ_TIMEOUT_MS,
            write_ms: WRITE_TIMEOUT_MS,
            keep_alive: true,
        }
    }
}

/// One pre-allocated pair of socket buffers, owned by one worker for the
/// life of the process; no allocation happens per connection.
pub struct ConnectionSlot {
    pub rx: Vec<u8>,
    pub tx: Vec<u8>,
}

impl ConnectionSlot {
    /// Both buffers stand at their fixed sizes.
    pub open spec fn wf(self) -> bool {
        self.rx@.len() == TCP_RX_BUFFER_BYTES && self.tx@.len() == TCP_TX_BUFFER_BYTES
    }

    /// Pre-allocates the buffers of one slot.
    pub fn new() -> (s: ConnectionSlot)
        ensures
            s.wf(),
    {
        let mut rx: Vec<u8> = Vec::new();
        rx.resize(TCP_RX_BUFFER_BYTES, 0);
        let mut tx: Vec<u8> = Vec::new();
        tx.resize(TCP_TX_BUFFER_BYTES, 0);
        ConnectionSlot { rx, tx }
    }
}

/// The first line of a complete request head, when the head's first carriage
/// return is followed by a line feed; nothing otherwise.
pub open spec fn spec_head_line(head: Seq<u8>) -> Option<Seq<u8>> {
    if exists|i: int| is_first_at(head, 0, CR, i) {
        let i = choose|i: int| is_first_at(head, 0, CR, i);
        if i + 1 < head.len() && head[i + 1] == LF {
            Some(head.take(i))
        } else {
            None
        }
    } else {
        None
    }
}

/// What a complete request head is answered with: the routed response, or
/// nothing when the head is malformed - then the connection is closed.
pub open spec fn spec_handle(r: Reading, head: Seq<u8>) -> Option<Seq<u8>> {
    match spec_head_line(head) {
        None => None,
        Some(line) => match spec_parse_line(line) {
            None => None,
            Some((m, p)) => Some(spec_response_for(spec_route(m, p), r)),
        },
    }
}

/// Parses a complete request head, dispatches it through the route table and
/// builds the response; a malformed head yields nothing and the caller
/// closes the connection.
pub fn handle_request(store: &SharedReading, head: &[u8]) -> (o: Option<Vec<u8>>)
    ensures
        match o {
            Some(v) => spec_handle(store@, head@) == Some(v@),
            None => spec_handle(store@, head@) is None,
        },
{
    let cr = match find_byte(head, 0, CR) {
        Some(i) => i,
        None => {
            proof {
                if exists|i: int| is_first_at(head@, 0, CR, i) {
                    let i = choose|i: int| is_first_at(head@, 0, CR, i);
                    assert(head@[i] == CR);
                }
            }
            return None;
        },
    };
    proof {
        let i = choose|i: int| is_first_at(head@, 0, CR, i);
        lemma_first_at_unique(head@, 0, CR, i, cr as int);
    }
    let n = head.len();
    if cr + 1 >= n || head[cr + 1] != LF {
        return None;
    }
    let line = slice_subrange(head, 0, cr);
    proof {
        assert(line@ =~= head@.take(cr as int));
    }
    let rl = match parse_request_line(line) {
        Some(rl) => rl,
        None => {
            return None;
        },
    };
    let rt = route(rl.method.as_slice(), rl.path.as_slice());
    Some(response_for(rt, store))
}

/// Where a worker stands.
#[derive(Clone, Copy, PartialEq, Eq, Structural, Debug)]
pub enum WorkerPhase {
    /// Waiting to accept the next inbound connection.
    Accepting,
    /// Holding one connection and gathering its request bytes.
    Receiving,
}

/// What the surrounding program observed on a worker's connection.
#[derive(Debug)]
pub enum WorkerEvent {
    /// An inbound connection was accepted.
    Accepted,
    /// A chunk of request bytes arrived.
    Bytes(Vec<u8>),
    /// No byte arrived within the start-read timeout.
    StartReadTimedOut,
    /// No read progress within the read timeout.
    ReadTimedOut,
    /// No write progress within the write timeout.
    WriteTimedOut,
    /// The peer closed the connection.
    PeerClosed,
}

/// What the worker asks the surrounding program to do on its connection.
#[derive(Debug)]
pub enum WorkerAction {
    /// Keep waiting for bytes, under the configured timeouts.
    KeepWaiting,
    /// Send this response, then keep the connection for the next request.
    Respond(Vec<u8>),
    /// Send this response, then close the connection and accept the next.
    RespondThenClose(Vec<u8>),
    /// Close the connection and accept the next one.
    Close,
}

/// One connection worker: its phase and its fixed-capacity scratch buffer.
pub struct Worker {
    pub phase: WorkerPhase,
    pub buf: Vec<u8>,
}

/// One worker transition, in full: what each event does to the worker's
/// phase and buffer and which action it asks for, given the reading the
/// store held and the keep-alive policy.
pub open spec fn worker_step_spec(
    pre: Worker,
    reading: Reading,
    keep_alive: bool,
    ev: WorkerEvent,
    post: Worker,
    a: WorkerAction,
) -> bool {
    match ev {
        WorkerEvent::Accepted => post.phase is Receiving && post.buf@.len() == 0
            && a is KeepWaiting,
        WorkerEvent::Bytes(chunk) => {
            let joined = pre.buf@ + chunk@;
            if joined.len() > HTTP_BUFFER_BYTES {
                post.phase is Accepting && post.buf@.len() == 0 && a is Close
            } else {
                match head_end(joined) {
                    None => post.phase is Receiving && post.buf@ == joined && a is KeepWaiting,
                    Some(e) => match spec_handle(reading, joined.take(e + 4)) {
                        None => post.phase is Accepting && post.buf@.len() == 0 && a is Close,
                        Some(resp) => post.buf@.len() == 0 && if keep_alive {
                            post.phase is Receiving && (a matches WorkerAction::Respond(v)
                                && v@ == resp)
                        } else {
                            post.phase is Accepting && (a matches WorkerAction::RespondThenClose(v)
                                && v@ == resp)
                        },
                    },
                }
            }
        },
        _ => post.phase is Accepting && post.buf@.len() == 0 && a is Close,
    }
}

impl Worker {
    /// The buffer never exceeds its fixed capacity, and an accepting worker
    /// holds no bytes.
    pub open spec fn wf(self) -> bool {
        self.buf@.len() <= HTTP_BUFFER_BYTES && (self.phase is Accepting ==> self.buf@.len() == 0)
    }

    /// Which events fit which phase: an accept only while accepting; bytes,
    /// timeouts and a closing peer only while a connection is held.
    pub open spec fn event_fits(self, ev: WorkerEvent) -> bool {
        (self.phase is Accepting) <==> (ev is Accepted)
    }

    /// A fresh worker, accepting, with an empty buffer.
    pub fn new() -> (w: Worker)
        ensures
            w.wf(),
            w.phase is Accepting,
            w.buf@.len() == 0,
    {
        Worker { phase: WorkerPhase::Accepting, buf: Vec::new() }
    }

    /// Advances this worker by one observed event.  Every path that ends the
    /// connection - timeout, closed peer, overfull buffer, malformed head -
    /// returns the worker to accepting with a cleared buffer; a complete
    /// well-formed head is answered with exactly the routed response, and
    /// any bytes that arrived beyond the answered head are discarded: the
    /// next request on a kept-alive connection starts from a clean buffer.
    pub fn step(&mut self, config: &Timeouts, store: &SharedReading, ev: WorkerEvent) -> (a:
        WorkerAction)
        requires
            old(self).wf(),
            old(self).event_fits(ev),
        ensures
            final(self).wf(),
            worker_step_spec(*old(self), store@, config.keep_alive, ev, *final(self), a),
    {
        match ev {
            WorkerEvent::Accepted => {
                self.phase = WorkerPhase::Receiving;
                self.buf = Vec::new();
                WorkerAction::KeepWaiting
            },
            WorkerEvent::Bytes(chunk) => {
                if chunk.len() > HTTP_BUFFER_BYTES - self.buf.len() {
                    self.phase = WorkerPhase::Accepting;
                    self.buf = Vec::new();
                    return WorkerAction::Close;
                }
                self.buf.extend_from_slice(chunk.as_slice());
                proof {
                    assert(self.buf@ =~= old(self).buf@ + chunk@);
                    assert(self.phase is Receiving);
                }
                match find_head_end(self.buf.as_slice()) {
                    None => WorkerAction::KeepWaiting,
                    Some(e) => {
                        let head = slice_subrange(self.buf.as_slice(), 0, e + 4);
                        proof {
                            assert(head@ =~= (old(self).buf@ + chunk@).take(e + 4));
                        }
                        let outcome = handle_request(store, head);
                        match outcome {
                            None => {
                                self.phase = WorkerPhase::Accepting;
                                self.buf = Vec::new();
                                WorkerAction::Close
                            },
                            Some(v) => {
                                self.buf = Vec::new();
                                if config.keep_alive {
                                    WorkerAction::Respond(v)
                                } else {
                                    self.phase = WorkerPhase::Accepting;
                                    WorkerAction::RespondThenClose(v)
                                }
                            },
                        }
                    },
                }
            },
            _ => {
                self.phase = WorkerPhase::Accepting;
                self.buf = Vec::new();
                WorkerAction::Close
            },
        }
    }
}

/// Builds the fixed-size worker pool, every worker idle and accepting.
pub fn pool_new(n: usize) -> (ws: Vec<Worker>)
    ensures
        ws@.len() == n,
        forall|i: int| 0 <= i < n ==> (#[trigger] ws@[i]).wf() && ws@[i].phase is Accepting,
{
    let mut ws: Vec<Worker> = Vec::new();
    let mut k: usize = 0;
    while k < n
        invariant
            k <= n,
            ws@.len() == k,
            forall|i: int| 0 <= i < k ==> (#[trigger] ws@[i]).wf() && ws@[i].phase is Accepting,
        decreases n - k,
    {
        ws.push(Worker::new());
        k = k + 1;
    }
    ws
}

/// A mutable borrow of one worker of the pool.
fn worker_slot(ws: &mut Vec<Worker>, i: usize) -> (w: &mut Worker)
    requires
        i < old(ws)@.len(),
    ensures
        *w == old(ws)@[i as int],
        final(ws)@ == old(ws)@.update(i as int, *final(w)),
{
    &mut ws[i]
}

/// One worker of the pool takes one event.  Every other worker's slot is
/// untouched - workers are mutually independent, and the store, which this
/// function only passes on for reading, is untouched by construction.  A
/// timed-out or misbehaving connection therefore never affects the other
/// workers or the poll loop.
pub fn pool_step(
    pool: &mut Vec<Worker>,
    i: usize,
    config: &Timeouts,
    store: &SharedReading,
    ev: WorkerEvent,
) -> (a: WorkerAction)
    requires
        i < old(pool)@.len(),
        old(pool)@[i as int].wf(),
        old(pool)@[i as int].event_fits(ev),
    ensures
        final(pool)@.len() == old(pool)@.len(),
        forall|j: int|
            0 <= j < old(pool)@.len() && j != i ==> final(pool)@[j] == old(pool)@[j],
        final(pool)@[i as int].wf(),
        worker_step_spec(old(pool)@[i as int], store@, config.keep_alive, ev, final(pool)@[
            i as int], a),
{
    let w = worker_slot(pool, i);
    w.step(config, store, ev)
}

/// Transitions of two different workers commute: however the scheduler
/// interleaves two connections served by different workers, the pool ends in
/// the same state, because each step touches only its own slot.
pub proof fn lemma_worker_updates_commute(
    ws: Seq<Worker>,
    i: int,
    j: int,
    wi: Worker,
    wj: Worker,
)
    requires
        0 <= i < ws.len(),
        0 <= j < ws.len(),
        i != j,
    ensures
        ws.update(i, wi).update(j, wj) =~= ws.update(j, wj).update(i, wi),
{
}

} // verus!
