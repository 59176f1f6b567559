//! When a non-blocking stream registers with the reactor, and when it leaves.
//!
//! A read that would block makes the stream ask the reactor to wake its task once
//! data arrives; a read that finishes, with data or with an error, ends that
//! registration.
use vstd::prelude::*;

verus! {

/// The reactor token of a stream, while the stream waits for readiness.
pub struct StreamRegistration {
    token: Option<usize>,
}

impl View for StreamRegistration {
    type V = Option<usize>;

    closed spec fn view(&self) -> Option<usize> {
        self.token
    }
}

/// What the stream does with the reactor after a read attempt.
#[derive(Debug, Copy, Clone, PartialEq, Eq, Structural)]
pub enum ReadStep {
    /// The read finished; the stream stops waiting under this token.
    Deregister(usize),
    /// The read would block and the stream is not registered yet: it registers.
    Register,
    /// Nothing changes with the reactor.
    Keep,
}

/// The registration after a read attempt that finished (`ready`) or would block,
/// and what the stream does with the reactor.
pub open spec fn read_transition(token: Option<usize>, ready: bool) -> (Option<usize>, ReadStep) {
    match (ready, token) {
        (true, Some(t)) => (None, ReadStep::Deregister(t)),
        (true, None) => (None, ReadStep::Keep),
        (false, None) => (None, ReadStep::Register),
        (false, Some(t)) => (Some(t), ReadStep::Keep),
    }
}

impl StreamRegistration {
    /// A stream that is not registered with the reactor.
    pub fn new() -> (r: Self)
        ensures
            r@ is None,
    {
        StreamRegistration { token: None }
    }

    /// The token the stream is registered under, if any.
    pub fn token(&self) -> (t: Option<usize>)
        ensures
            t == self@,
    {
        self.token
    }

    /// Decides, after a read attempt that finished (`ready`) or would block
    /// (`!ready`), what the stream does with the reactor. A finished read drops
    /// the registration.
    pub fn after_read(&mut self, ready: bool) -> (step: ReadStep)
        ensures
            (final(self)@, step) == read_transition(old(self)@, ready),
    {
        match (ready, self.token) {
            (true, Some(token)) => {
                self.token = None;
                ReadStep::Deregister(token)
            },
            (false, None) => ReadStep::Register,
            _ => ReadStep::Keep,
        }
    }

    /// Records the token the reactor gave the stream when it registered.
    pub fn registered(&mut self, token: usize)
        ensures
            final(self)@ == Some(token),
    {
        self.token = Some(token);
    }
}

/// A stream is registered with the reactor only while a read is pending: a
/// finished read always leaves it unregistered, deregistering exactly the token
/// it held.
pub proof fn lemma_finished_read_unregisters(token: Option<usize>)
    ensures
        read_transition(token, true).0 is None,
        token matches Some(t) ==> read_transition(token, true).1 == ReadStep::Deregister(t),
        token is None ==> read_transition(token, true).1 == ReadStep::Keep,
{
}

/// A stream registers once per wait: a read that blocks asks to register only
/// when the stream holds no token, and further blocked reads keep the token.
pub proof fn lemma_blocked_read_registers_once(t: usize)
    ensures
        read_transition(None, false) == (None::<usize>, ReadStep::Register),
        read_transition(Some(t), false) == (Some(t), ReadStep::Keep),
{
}

} // verus!
