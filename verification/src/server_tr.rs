//! Server-side bookkeeping: each live connection owns a bounded FIFO queue
//! of inbound requests, drained by that connection's single worker. The
//! registry maps connection identifiers to their queues and publishes newly
//! connected identifiers for the accept loop. Requests on different
//! connections are independent; requests on one connection keep their
//! arrival order.

use vstd::prelude::*;

use crate::sys::{Context, Message, MessageView};

verus! {

/// How many requests one connection's queue may hold at a time.
pub const REQUEST_QUEUE_CAPACITY: usize = 100;

/// How many not-yet-accepted connections the registry may hold at a time.
pub const ACCEPT_QUEUE_CAPACITY: usize = 100;

// ---------------------------------------------------------------------------
// One unit of server work.
// ---------------------------------------------------------------------------

/// A request the server must process: the inbound message and the operation
/// context through which the reply is handed back to the provider.
pub struct ServerRequest {
    msg: Message,
    ctx: Context,
}

impl ServerRequest {
    /// The inbound message.
    pub closed spec fn spec_msg(&self) -> MessageView {
        self.msg@
    }

    /// Whether the request's context has completed.
    pub closed spec fn spec_completed(&self) -> bool {
        self.ctx.spec_completed()
    }

    /// The reply stored so far, if any.
    pub closed spec fn spec_reply(&self) -> Option<MessageView> {
        self.ctx.spec_msg()
    }

    /// Whether the completion callback has been fired.
    pub closed spec fn spec_callback_fired(&self) -> bool {
        self.ctx.spec_callback().has_fired()
    }

    pub fn new(msg: Message, ctx: Context) -> (r: ServerRequest)
        ensures
            r.spec_msg() == msg@,
            r.spec_completed() == ctx.spec_completed(),
            r.spec_reply() == ctx.spec_msg(),
            r.spec_callback_fired() == ctx.spec_callback().has_fired(),
    {
        ServerRequest { msg, ctx }
    }

    /// Hands the reply to the provider: stores it, completes the context,
    /// and fires the callback — all exactly once per request.
    pub fn complete(&mut self, reply: Message)
        requires
            !old(self).spec_completed(),
            old(self).spec_reply() is None,
        ensures
            final(self).spec_completed(),
            final(self).spec_reply() == Some(reply@),
            final(self).spec_callback_fired(),
            final(self).spec_msg() == old(self).spec_msg(),
    {
        self.ctx.set_msg(reply);
        self.ctx.complete();
        let _first = self.ctx.invoke_callback();
    }

    /// The inbound message this request carries.
    pub fn get_request_msg(&self) -> (m: &Message)
        ensures
            m@ == self.spec_msg(),
    {
        &self.msg
    }

    /// Reads the reply out of a completed request, as the provider does
    /// when it is told the result is ready.
    pub fn get_reply_msg(&self) -> (r: Option<Message>)
        requires
            self.spec_completed(),
        ensures
            match r {
                Some(m) => self.spec_reply() == Some(m@),
                None => self.spec_reply() is None,
            },
    {
        self.ctx.get_msg()
    }
}

// ---------------------------------------------------------------------------
// The per-connection request queue.
// ---------------------------------------------------------------------------

/// A bounded FIFO queue of server requests. The provider's callback thread
/// pushes; the connection's worker pops. Closing says nothing more will
/// enter; what is already queued still drains, in order.
pub struct RequestQueue {
    items: Vec<ServerRequest>,
    capacity: usize,
    closed: bool,
}

impl RequestQueue {
    /// The queued requests, oldest first.
    pub closed spec fn spec_items(&self) -> Seq<ServerRequest> {
        self.items@
    }

    pub closed spec fn spec_capacity(&self) -> nat {
        self.capacity as nat
    }

    pub closed spec fn spec_closed(&self) -> bool {
        self.closed
    }

    /// The queue never holds more than its capacity.
    pub open spec fn wf(&self) -> bool {
        self.spec_items().len() <= self.spec_capacity()
    }

    pub fn new(capacity: usize) -> (q: RequestQueue)
        ensures
            q.spec_items() == Seq::<ServerRequest>::empty(),
            q.spec_capacity() == capacity,
            !q.spec_closed(),
            q.wf(),
    {
        RequestQueue { items: Vec::new(), capacity, closed: false }
    }

    pub fn len(&self) -> (n: usize)
        ensures
            n == self.spec_items().len(),
    {
        self.items.len()
    }

    pub fn is_full(&self) -> (b: bool)
        ensures
            b == (self.spec_items().len() >= self.spec_capacity()),
    {
        self.items.len() >= self.capacity
    }

    pub fn is_closed(&self) -> (b: bool)
        ensures
            b == self.spec_closed(),
    {
        self.closed
    }

    /// Appends a request. The caller waits for room before pushing — that
    /// wait is the backpressure on the provider's callback thread — and
    /// never pushes after close.
    pub fn push(&mut self, req: ServerRequest)
        requires
            old(self).wf(),
            !old(self).spec_closed(),
            old(self).spec_items().len() < old(self).spec_capacity(),
        ensures
            final(self).spec_items() == old(self).spec_items().push(req),
            final(self).spec_capacity() == old(self).spec_capacity(),
            final(self).spec_closed() == old(self).spec_closed(),
            final(self).wf(),
    {
        self.items.push(req);
    }

    /// Removes the oldest request. `None` comes exactly when the queue is
    /// closed and drained — the worker's signal to stop. An open, empty
    /// queue is never popped; the worker waits instead.
    pub fn pop(&mut self) -> (r: Option<ServerRequest>)
        requires
            old(self).wf(),
            old(self).spec_items().len() > 0 || old(self).spec_closed(),
        ensures
            old(self).spec_items().len() > 0 ==> {
                &&& r matches Some(req) && req == old(self).spec_items()[0]
                &&& final(self).spec_items() == old(self).spec_items().skip(1)
            },
            old(self).spec_items().len() == 0 ==> r is None && final(self).spec_items()
                == old(self).spec_items(),
            final(self).spec_capacity() == old(self).spec_capacity(),
            final(self).spec_closed() == old(self).spec_closed(),
            final(self).wf(),
    {
        if self.items.len() > 0 {
            let req = self.items.remove(0);
            proof {
                assert(self.items@ =~= old(self).spec_items().skip(1));
            }
            Some(req)
        } else {
            None
        }
    }

    /// Closes the queue: nothing more enters, everything queued stays to be
    /// drained.
    pub fn close(&mut self)
        ensures
            final(self).spec_closed(),
            final(self).spec_items() == old(self).spec_items(),
            final(self).spec_capacity() == old(self).spec_capacity(),
    {
        self.closed = true;
    }
}

// ---------------------------------------------------------------------------
// The connection registry.
// ---------------------------------------------------------------------------

/// One registered connection: its identifier and its request queue. An
/// entry lives exactly as long as the provider reports the connection
/// live: registered at connect, removed at disconnect — when its queue,
/// closed, goes to the connection's worker to be drained.
pub struct ServerConnectionInternal {
    pub id: Vec<u8>,
    pub queue: RequestQueue,
}

/// The server's shared bookkeeping: every live connection's queue, plus the
/// identifiers of connections not yet handed to a worker. The registry is
/// consulted from the provider's callback threads and from the accept loop;
/// callers serialize access around it and hold no lock across a wait.
pub struct ServerInternal {
    conns: Vec<ServerConnectionInternal>,
    pending: Vec<Vec<u8>>,
}

impl ServerInternal {
    /// The registered connections, in registration order.
    pub closed spec fn spec_conns(&self) -> Seq<ServerConnectionInternal> {
        self.conns@
    }

    /// Identifiers of connections published but not yet accepted.
    pub closed spec fn spec_pending(&self) -> Seq<Seq<u8>> {
        Seq::new(self.pending@.len(), |i: int| self.pending@[i]@)
    }

    /// Whether some connection carries identifier `id`.
    pub open spec fn spec_has_conn(&self, id: Seq<u8>) -> bool {
        exists|i: int| 0 <= i < self.spec_conns().len() && self.spec_conns()[i].id@ == id
    }

    /// Identifiers are unique, and every registered queue is well formed
    /// and still open: a queue closes only on its way out, at disconnect.
    pub open spec fn wf(&self) -> bool {
        &&& forall|i: int, j: int|
            0 <= i < j < self.spec_conns().len() ==> self.spec_conns()[i].id@ != self.spec_conns(
            )[j].id@
        &&& forall|i: int|
            0 <= i < self.spec_conns().len() ==> (#[trigger] self.spec_conns()[i]).queue.wf()
                && !self.spec_conns()[i].queue.spec_closed()
    }

    pub fn new() -> (s: ServerInternal)
        ensures
            s.spec_conns() == Seq::<ServerConnectionInternal>::empty(),
            s.spec_pending() =~= Seq::<Seq<u8>>::empty(),
            s.wf(),
    {
        ServerInternal { conns: Vec::new(), pending: Vec::new() }
    }

    /// The index of the connection carrying `id`, if any.
    fn find(&self, id: &Vec<u8>) -> (r: Option<usize>)
        ensures
            match r {
                Some(i) => i < self.spec_conns().len() && self.spec_conns()[i as int].id@ == id@,
                None => !self.spec_has_conn(id@),
            },
    {
        let mut i: usize = 0;
        while i < self.conns.len()
            invariant
                i <= self.conns.len(),
                forall|j: int| 0 <= j < i ==> self.spec_conns()[j].id@ != id@,
            decreases self.conns.len() - i,
        {
            if self.conns[i].id == *id {
                return Some(i);
            }
            i = i + 1;
        }
        None
    }

    /// Whether a connection carrying `id` is registered.
    pub fn has_conn(&self, id: &Vec<u8>) -> (b: bool)
        ensures
            b == self.spec_has_conn(id@),
    {
        self.find(id).is_some()
    }

    /// How many published connections wait to be accepted.
    pub fn pending_len(&self) -> (n: usize)
        ensures
            n == self.spec_pending().len(),
    {
        self.pending.len()
    }

    /// Whether a request may enter `id`'s queue now: the connection is
    /// registered and its queue has room.
    pub fn can_enqueue(&self, id: &Vec<u8>) -> (b: bool)
        requires
            self.wf(),
        ensures
            b == exists|i: int|
                0 <= i < self.spec_conns().len() && (#[trigger] self.spec_conns()[i]).id@ == id@
                    && self.spec_conns()[i].queue.spec_items().len()
                    < self.spec_conns()[i].queue.spec_capacity(),
    {
        match self.find(id) {
            None => false,
            Some(i) => {
                let entry = &self.conns[i];
                let b = !entry.queue.is_full();
                proof {
                    if b {
                        assert(0 <= i < self.spec_conns().len() && self.spec_conns()[i as int].id@
                            == id@ && self.spec_conns()[i as int].queue.spec_items().len()
                            < self.spec_conns()[i as int].queue.spec_capacity());
                    }
                }
                b
            },
        }
    }

    /// Whether a request waits on `id`'s queue. Once the provider reports
    /// the connection gone its entry is no longer here; the worker then
    /// drains the queue `disconnect` handed it instead.
    pub fn request_ready(&self, id: &Vec<u8>) -> (b: bool)
        requires
            self.wf(),
        ensures
            b == exists|i: int|
                0 <= i < self.spec_conns().len() && (#[trigger] self.spec_conns()[i]).id@ == id@
                    && self.spec_conns()[i].queue.spec_items().len() > 0,
    {
        match self.find(id) {
            None => false,
            Some(i) => {
                let entry = &self.conns[i];
                let b = entry.queue.len() > 0;
                proof {
                    if b {
                        assert(0 <= i < self.spec_conns().len() && self.spec_conns()[i as int].id@
                            == id@ && self.spec_conns()[i as int].queue.spec_items().len() > 0);
                    }
                }
                b
            },
        }
    }

    /// Registers a connection the provider reports as newly connected: a
    /// fresh queue under its identifier, and the identifier published for
    /// the accept loop. A live identifier is registered once; a client that
    /// reconnects under an identifier seen before registers afresh, since
    /// `disconnect` removed the earlier entry.
    pub fn push(&mut self, id: Vec<u8>)
        requires
            old(self).wf(),
            !old(self).spec_has_conn(id@),
            old(self).spec_pending().len() < ACCEPT_QUEUE_CAPACITY,
        ensures
            final(self).wf(),
            final(self).spec_conns().len() == old(self).spec_conns().len() + 1,
            forall|j: int|
                0 <= j < old(self).spec_conns().len() ==> final(self).spec_conns()[j] == old(
                    self,
                ).spec_conns()[j],
            final(self).spec_conns().last().id@ == id@,
            final(self).spec_conns().last().queue.spec_items() == Seq::<ServerRequest>::empty(),
            !final(self).spec_conns().last().queue.spec_closed(),
            final(self).spec_conns().last().queue.spec_capacity() == REQUEST_QUEUE_CAPACITY as nat,
            final(self).spec_pending() =~= old(self).spec_pending().push(id@),
    {
        let queue = RequestQueue::new(REQUEST_QUEUE_CAPACITY);
        self.pending.push(id.clone());
        proof {
            assert(self.pending@.len() == old(self).pending@.len() + 1);
            assert(self.pending@.last()@ =~= id@);
        }
        self.conns.push(ServerConnectionInternal { id, queue });
    }

    /// Hands the accept loop the oldest not-yet-accepted connection
    /// identifier, if one is waiting.
    pub fn pop_connection(&mut self) -> (r: Option<Vec<u8>>)
        ensures
            final(self).spec_conns() == old(self).spec_conns(),
            old(self).spec_pending().len() > 0 ==> {
                &&& r matches Some(id) && id@ == old(self).spec_pending()[0]
                &&& final(self).spec_pending() =~= old(self).spec_pending().skip(1)
            },
            old(self).spec_pending().len() == 0 ==> r is None && final(self).spec_pending()
                =~= old(self).spec_pending(),
    {
        if self.pending.len() > 0 {
            let id = self.pending.remove(0);
            Some(id)
        } else {
            None
        }
    }

    /// Removes the connection the provider reports as gone and hands back
    /// its queue, closed. The worker drains what was already queued from
    /// the returned queue, and the identifier is free again: a client
    /// reconnecting under it registers afresh. The provider only reports
    /// connections it reported connecting, and reports each gone once.
    pub fn disconnect(&mut self, id: &Vec<u8>) -> (q: RequestQueue)
        requires
            old(self).wf(),
            old(self).spec_has_conn(id@),
        ensures
            final(self).wf(),
            final(self).spec_pending() =~= old(self).spec_pending(),
            !final(self).spec_has_conn(id@),
            q.spec_closed(),
            exists|i: int|
                {
                    &&& 0 <= i < old(self).spec_conns().len()
                    &&& (#[trigger] old(self).spec_conns()[i]).id@ == id@
                    &&& final(self).spec_conns() == old(self).spec_conns().remove(i)
                    &&& q.spec_items() == old(self).spec_conns()[i].queue.spec_items()
                    &&& q.spec_capacity() == old(self).spec_conns()[i].queue.spec_capacity()
                },
    {
        let idx = match self.find(id) {
            Some(i) => i,
            None => {
                proof {
                    assert(false);
                }
                0
            },
        };
        let mut entry = self.conns.remove(idx);
        entry.queue.close();
        proof {
            old(self).spec_conns().remove_ensures(idx as int);
            assert forall|j: int|
                0 <= j < self.conns@.len() implies self.conns@[j].id@ != id@ by {
                if j < idx {
                    assert(self.conns@[j] == old(self).spec_conns()[j]);
                } else {
                    assert(self.conns@[j] == old(self).spec_conns()[j + 1]);
                }
            }
        }
        entry.queue
    }

    /// Enqueues an inbound request onto its connection's queue. The
    /// provider only delivers requests for connections it reported and has
    /// not reported gone; the caller waits for room first.
    pub fn push_requst(&mut self, id: &Vec<u8>, req: ServerRequest)
        requires
            old(self).wf(),
            old(self).spec_has_conn(id@),
            forall|i: int|
                0 <= i < old(self).spec_conns().len() && old(self).spec_conns()[i].id@ == id@
                    ==> (#[trigger] old(self).spec_conns()[i]).queue.spec_items().len() < old(
                    self,
                ).spec_conns()[i].queue.spec_capacity(),
        ensures
            final(self).wf(),
            final(self).spec_pending() =~= old(self).spec_pending(),
            final(self).spec_conns().len() == old(self).spec_conns().len(),
            forall|j: int|
                0 <= j < old(self).spec_conns().len() && old(self).spec_conns()[j].id@ != id@
                    ==> final(self).spec_conns()[j] == old(self).spec_conns()[j],
            forall|j: int|
                0 <= j < old(self).spec_conns().len() && old(self).spec_conns()[j].id@ == id@ ==> {
                    &&& (#[trigger] final(self).spec_conns()[j]).id@ == id@
                    &&& final(self).spec_conns()[j].queue.spec_items() == old(self).spec_conns(
                    )[j].queue.spec_items().push(req)
                    &&& final(self).spec_conns()[j].queue.spec_capacity() == old(
                        self,
                    ).spec_conns()[j].queue.spec_capacity()
                },
    {
        let idx = match self.find(id) {
            Some(i) => i,
            None => {
                proof {
                    assert(false);
                }
                0
            },
        };
        let entry = &mut self.conns[idx];
        entry.queue.push(req);
    }

    /// Dequeues the oldest request of the connection carrying `id`, in
    /// arrival order. An empty queue is never popped; the worker waits, or
    /// — once the provider reports the connection gone — drains the queue
    /// `disconnect` handed it.
    pub fn pop_request(&mut self, id: &Vec<u8>) -> (r: ServerRequest)
        requires
            old(self).wf(),
            old(self).spec_has_conn(id@),
            forall|i: int|
                0 <= i < old(self).spec_conns().len() && old(self).spec_conns()[i].id@ == id@
                    ==> (#[trigger] old(self).spec_conns()[i]).queue.spec_items().len() > 0,
        ensures
            final(self).wf(),
            final(self).spec_pending() =~= old(self).spec_pending(),
            final(self).spec_conns().len() == old(self).spec_conns().len(),
            forall|j: int|
                0 <= j < old(self).spec_conns().len() && old(self).spec_conns()[j].id@ != id@
                    ==> final(self).spec_conns()[j] == old(self).spec_conns()[j],
            forall|j: int|
                0 <= j < old(self).spec_conns().len() && old(self).spec_conns()[j].id@ == id@ ==> {
                    &&& (#[trigger] final(self).spec_conns()[j]).id@ == id@
                    &&& r == old(self).spec_conns()[j].queue.spec_items()[0]
                    &&& final(self).spec_conns()[j].queue.spec_items() == old(self).spec_conns(
                    )[j].queue.spec_items().skip(1)
                    &&& final(self).spec_conns()[j].queue.spec_capacity() == old(
                        self,
                    ).spec_conns()[j].queue.spec_capacity()
                },
    {
        let idx = match self.find(id) {
            Some(i) => i,
            None => {
                proof {
                    assert(false);
                }
                0
            },
        };
        let entry = &mut self.conns[idx];
        let popped = entry.queue.pop();
        popped.unwrap()
    }
}

impl Default for ServerInternal {
    fn default() -> (s: Self)
        ensures
            s.spec_conns() == Seq::<ServerConnectionInternal>::empty(),
            s.spec_pending() =~= Seq::<Seq<u8>>::empty(),
            s.wf(),
    {
        ServerInternal::new()
    }
}

} // verus!
