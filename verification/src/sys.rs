//! Low-level building blocks of the transport boundary: the header + body
//! message envelope, the single-fire awaitable callback, and the operation
//! context through which a pending operation's result is reported back.

use vstd::prelude::*;

verus! {

// ---------------------------------------------------------------------------
// The message envelope.
// ---------------------------------------------------------------------------

/// What a message envelope holds: the two byte buffers every wire message is
/// made of.
pub struct MessageView {
    pub header: Seq<u8>,
    pub body: Seq<u8>,
}

/// A two-part message: header bytes and body bytes. Immutable once built;
/// the layer that built it owns it until it hands it across a boundary.
#[derive(Debug, PartialEq, Eq)]
pub struct Message {
    header: Vec<u8>,
    body: Vec<u8>,
}

impl View for Message {
    type V = MessageView;

    closed spec fn view(&self) -> MessageView {
        MessageView { header: self.header@, body: self.body@ }
    }
}

impl Clone for Message {
    fn clone(&self) -> (res: Self)
        ensures
            res@ == self@,
    {
        let header = self.header.clone();
        let body = self.body.clone();
        proof {
            assert(header@ =~= self.header@);
            assert(body@ =~= self.body@);
        }
        Message { header, body }
    }
}

impl Message {
    /// Builds a message from its two buffers.
    pub fn create(header: Vec<u8>, body: Vec<u8>) -> (m: Message)
        ensures
            m@.header == header@,
            m@.body == body@,
    {
        Message { header, body }
    }
}

/// Read access to the two buffers of a message.
pub struct MessageViewer<'a> {
    pub msg: &'a Message,
}

impl<'a> MessageViewer<'a> {
    pub fn new(msg: &'a Message) -> (v: MessageViewer<'a>)
        ensures
            v.msg@ == msg@,
    {
        MessageViewer { msg }
    }

    pub fn get_header(&self) -> (h: &Vec<u8>)
        ensures
            h@ == self.msg@.header,
    {
        &self.msg.header
    }

    pub fn get_body(&self) -> (b: &Vec<u8>)
        ensures
            b@ == self.msg@.body,
    {
        &self.msg.body
    }
}

// ---------------------------------------------------------------------------
// The awaitable callback.
// ---------------------------------------------------------------------------

/// The completion bridge's callback state: a one-shot signal that a provider
/// may try to fire from any thread, any number of times, and that delivers
/// to its waiter exactly once. The waiting side and its wake-up live with
/// whatever runtime drives the library; this type decides, per attempt,
/// whether the signal may be delivered.
#[derive(Clone, Copy, Debug, PartialEq, Eq, Structural)]
pub struct AwaitableCallback {
    fired: bool,
}

impl AwaitableCallback {
    /// Whether the one-shot signal has already been delivered.
    pub closed spec fn has_fired(&self) -> bool {
        self.fired
    }

    /// A fresh callback whose signal is still pending.
    pub fn create() -> (cb: AwaitableCallback)
        ensures
            !cb.has_fired(),
    {
        AwaitableCallback { fired: false }
    }

    /// One completion attempt. The result says whether this attempt won the
    /// signal: true exactly on the first attempt, false on every later one,
    /// so a duplicate completion is detected and never delivered twice.
    pub fn invoke(&mut self) -> (first: bool)
        ensures
            final(self).has_fired(),
            first == !old(self).has_fired(),
    {
        let first = !self.fired;
        self.fired = true;
        first
    }
}

// ---------------------------------------------------------------------------
// The operation context.
// ---------------------------------------------------------------------------

/// The object through which a pending operation's result and completion
/// signal are reported back. Its life is a single step:
/// pending, optionally given a result, then completed exactly once.
/// Completing an already-completed context is a contract violation of the
/// caller; here that call is ruled out by precondition, so no verified
/// caller can attempt it.
pub struct Context {
    completed: bool,
    callback: AwaitableCallback,
    msg: Option<Message>,
}

impl Context {
    /// Whether the context has completed.
    pub closed spec fn spec_completed(&self) -> bool {
        self.completed
    }

    /// The result message set so far, if any.
    pub closed spec fn spec_msg(&self) -> Option<MessageView> {
        match self.msg {
            Some(m) => Some(m@),
            None => None,
        }
    }

    /// The callback that reports completion to the waiting side.
    pub closed spec fn spec_callback(&self) -> AwaitableCallback {
        self.callback
    }

    /// A fresh, pending context around the completion callback.
    pub fn new(callback: AwaitableCallback) -> (c: Context)
        ensures
            !c.spec_completed(),
            c.spec_msg() is None,
            c.spec_callback() == callback,
    {
        Context { completed: false, callback, msg: None }
    }

    /// Marks the context complete. May happen exactly once.
    pub fn complete(&mut self)
        requires
            !old(self).spec_completed(),
        ensures
            final(self).spec_completed(),
            final(self).spec_msg() == old(self).spec_msg(),
            final(self).spec_callback() == old(self).spec_callback(),
    {
        self.completed = true;
    }

    /// Tries to complete the context, reporting whether this attempt was
    /// the one that completed it: true exactly on the first attempt, false
    /// on every later one, whatever thread the attempts come from in turn.
    /// Exactly one completion is ever observed; a duplicate attempt is
    /// detected and changes nothing. A caller holding the provider to its
    /// contract fails fast on a detected duplicate rather than carrying
    /// on.
    pub fn try_complete(&mut self) -> (first: bool)
        ensures
            final(self).spec_completed(),
            first == !old(self).spec_completed(),
            final(self).spec_msg() == old(self).spec_msg(),
            final(self).spec_callback() == old(self).spec_callback(),
    {
        let first = !self.completed;
        self.completed = true;
        first
    }

    /// Stores the result message: at most once, and only before completion.
    pub fn set_msg(&mut self, msg: Message)
        requires
            old(self).spec_msg() is None,
            !old(self).spec_completed(),
        ensures
            final(self).spec_msg() == Some(msg@),
            !final(self).spec_completed(),
            final(self).spec_callback() == old(self).spec_callback(),
    {
        self.msg = Some(msg);
    }

    /// Reads the result out of a completed context.
    pub fn get_msg(&self) -> (r: Option<Message>)
        requires
            self.spec_completed(),
        ensures
            match r {
                Some(m) => self.spec_msg() == Some(m@),
                None => self.spec_msg() is None,
            },
    {
        match &self.msg {
            Some(m) => Some(m.clone()),
            None => None,
        }
    }

    /// Whether the context has completed, as the provider reads it.
    pub fn is_completed(&self) -> (b: bool)
        ensures
            b == self.spec_completed(),
    {
        self.completed
    }

    /// Fires the completion callback once on behalf of this context; the
    /// result says whether this was the first delivery attempt.
    pub fn invoke_callback(&mut self) -> (first: bool)
        ensures
            final(self).spec_completed() == old(self).spec_completed(),
            final(self).spec_msg() == old(self).spec_msg(),
            final(self).spec_callback().has_fired(),
            first == !old(self).spec_callback().has_fired(),
    {
        self.callback.invoke()
    }
}

} // verus!
