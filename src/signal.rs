use vstd::prelude::*;
use tokio_util::sync::CancellationToken;

verus! {

#[verifier::external_type_specification]
#[verifier::external_body]
pub struct ExCancellationToken(tokio_util::sync::CancellationToken);

/// A raise-only flag with handles derived from it.
///
/// Raising a handle is seen by every handle derived from it, directly or
/// through other derived handles. Propagation runs one way only: raising a
/// derived handle is not seen by the handle it came from. In a fixture's
/// teardown only the root of each signal is ever raised (the owner raises
/// the request, the watcher the completion) and derived handles only
/// observe, so every handle sees every raise; the one-way rule is what lets
/// a root be read exactly: it is raised when, and only when, it was raised
/// through itself. A derived handle is raised at least when it was raised
/// through itself or when its source was known to be raised at derivation.
/// Once raised, a handle stays raised: no operation lowers it.
pub struct CancellationSignal {
    token: CancellationToken,
    raised: Ghost<bool>,
    root: Ghost<bool>,
}

impl CancellationSignal {
    /// Whether this handle is known to be raised: it was raised through
    /// itself, or derived from a handle known to be raised.
    pub closed spec fn known_raised(&self) -> bool {
        self.raised@
    }

    /// Whether this handle is a root, made by `new`.
    pub closed spec fn is_root(&self) -> bool {
        self.root@
    }

    /// A fresh root signal that is not raised.
    pub fn new() -> (r: CancellationSignal)
        ensures
            !r.known_raised(),
            r.is_root(),
    {
        fresh_root()
    }

    /// A new handle that observes this signal: raising this signal raises it.
    pub fn derive(&self) -> (r: CancellationSignal)
        ensures
            r.known_raised() == self.known_raised(),
            !r.is_root(),
    {
        child_of(self)
    }

    /// Marks the signal, and every handle derived from it, as raised.
    /// Raising a raised signal changes nothing.
    pub fn raise(&mut self)
        ensures
            final(self).known_raised(),
            final(self).is_root() == old(self).is_root(),
    {
        cancel(self)
    }

    /// Whether the signal has been raised, observed without waiting.
    pub fn is_raised(&self) -> (r: bool)
        ensures
            self.known_raised() ==> r,
            self.is_root() ==> r == self.known_raised(),
    {
        observe(self)
    }
}

/// Relies on `CancellationToken::new`: a fresh token, not cancelled, that
/// no other token reaches.
#[verifier::external_body]
fn fresh_root() -> (r: CancellationSignal)
    ensures
        !r.known_raised(),
        r.is_root(),
{
    CancellationSignal { token: CancellationToken::new(), raised: Ghost(false), root: Ghost(true) }
}

/// Relies on `CancellationToken::child_token`: a child token, cancelled
/// already when its parent is, and cancelled whenever its parent later is.
#[verifier::external_body]
fn child_of(s: &CancellationSignal) -> (r: CancellationSignal)
    ensures
        r.known_raised() == s.known_raised(),
        !r.is_root(),
{
    CancellationSignal { token: s.token.child_token(), raised: Ghost(s.raised@), root: Ghost(false) }
}

/// Relies on `CancellationToken::cancel`: the token and its children are
/// cancelled, its parent is not; a second call does nothing.
#[verifier::external_body]
fn cancel(s: &mut CancellationSignal)
    ensures
        final(s).known_raised(),
        final(s).is_root() == old(s).is_root(),
{
    s.token.cancel();
    s.raised = Ghost(true);
}

/// Relies on `CancellationToken::is_cancelled`: true once the token, or a
/// token it was derived from, has been cancelled, and false before. The
/// token of a root handle is reached through that handle alone.
#[verifier::external_body]
fn observe(s: &CancellationSignal) -> (r: bool)
    ensures
        s.known_raised() ==> r,
        s.is_root() ==> r == s.known_raised(),
{
    s.token.is_cancelled()
}

} // verus!
