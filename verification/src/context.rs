//! Exclusive ownership protocol for the single GPU rendering context.
//!
//! The context must be current on exactly one holder while a frame is
//! drawn and not current at every other time. Acquiring hands out a
//! proof-of-currency token; releasing consumes it. Acquiring while
//! current, or releasing while idle, is a caller bug and is reported,
//! never absorbed.

use vstd::prelude::*;

verus! {

/// A violation of the current/not-current discipline.
#[derive(Clone, Copy, PartialEq, Eq, Structural, Debug)]
pub enum ContextError {
    /// The context was already current when another acquisition arrived.
    AlreadyCurrent,
    /// The context was not current when a release arrived.
    NotCurrent,
}

/// Proof-of-currency token: only a successful acquisition creates one,
/// and releasing the context consumes it.
#[derive(Debug)]
pub struct ActiveContext {
    _held: (),
}

/// Owns the GPU context between frames and enforces the non-reentrant
/// current/not-current handoff.
#[derive(Debug)]
pub struct ContextHolder {
    current: bool,
}

/// One acquisition attempt on a context in the given currency state:
/// the currency afterwards, and whether the attempt succeeded. An
/// attempt succeeds exactly on a not-current context, and the context
/// is current afterwards either way.
pub open spec fn spec_try_acquire(current: bool) -> (bool, bool) {
    (true, !current)
}

/// One release attempt on a context in the given currency state: the
/// currency afterwards, and whether the attempt succeeded. An attempt
/// succeeds exactly on a current context, and the context is not
/// current afterwards either way.
pub open spec fn spec_try_release(current: bool) -> (bool, bool) {
    (false, current)
}

/// Law: the handoff is exclusive and non-reentrant. From the idle
/// state an acquisition succeeds; a second acquisition without a
/// release between them is refused; the paired release succeeds; and
/// a further release of the context, now idle again, is refused in
/// turn.
pub proof fn lemma_context_discipline()
    ensures
        spec_try_acquire(false).1,
        !spec_try_acquire(spec_try_acquire(false).0).1,
        spec_try_release(spec_try_acquire(false).0).1,
        !spec_try_release(spec_try_release(spec_try_acquire(false).0).0).1,
{
}

impl ContextHolder {
    /// Whether the context is current, that is, handed out for drawing.
    pub closed spec fn is_current(&self) -> bool {
        self.current
    }

    /// A fresh holder owns the context in its idle, not-current state.
    pub fn new() -> (r: ContextHolder)
        ensures
            !r.is_current(),
    {
        ContextHolder { current: false }
    }

    /// Makes the context current and hands out the token; refused if and
    /// only if the context is already current.
    pub fn try_acquire(&mut self) -> (r: Result<ActiveContext, ContextError>)
        ensures
            final(self).is_current() == spec_try_acquire(old(self).is_current()).0,
            r is Ok <==> spec_try_acquire(old(self).is_current()).1,
            old(self).is_current() ==> r == Err::<ActiveContext, ContextError>(
                ContextError::AlreadyCurrent,
            ),
    {
        if self.current {
            Err(ContextError::AlreadyCurrent)
        } else {
            self.current = true;
            Ok(ActiveContext { _held: () })
        }
    }

    /// Consumes the token and makes the context not current; refused if
    /// and only if the context is not current.
    pub fn try_release(&mut self, token: ActiveContext) -> (r: Result<(), ContextError>)
        ensures
            final(self).is_current() == spec_try_release(old(self).is_current()).0,
            r is Ok <==> spec_try_release(old(self).is_current()).1,
            !old(self).is_current() ==> r == Err::<(), ContextError>(ContextError::NotCurrent),
    {
        let ActiveContext { _held: () } = token;
        if self.current {
            self.current = false;
            Ok(())
        } else {
            Err(ContextError::NotCurrent)
        }
    }

    /// Acquisition for callers that have already ruled the reentrant case
    /// out; the reentrant case would be fatal, so it is excluded here.
    pub fn acquire(&mut self) -> (r: ActiveContext)
        requires
            !old(self).is_current(),
        ensures
            final(self).is_current(),
    {
        match self.try_acquire() {
            Ok(token) => token,
            Err(_) => {
                proof {
                    assert(false);
                }
                ActiveContext { _held: () }
            },
        }
    }

    /// Release for callers that hold the token of a current context.
    pub fn release(&mut self, token: ActiveContext)
        requires
            old(self).is_current(),
        ensures
            !final(self).is_current(),
    {
        let _ = self.try_release(token);
    }
}

} // verus!
