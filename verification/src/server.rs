//! Decision logic of the listener/shutdown controller.

use vstd::prelude::*;

use crate::stream::split_pair_wf;
use crate::stream::split_responsibilities;
use crate::stream::StreamHalf;

verus! {

/// Why an accept call failed.
#[derive(Debug)]
pub enum AcceptError {
    /// Transient failure of the underlying accept primitive.
    Accept(std::io::Error),
    /// The shared shutdown flag was set; the acceptor loop must stop.
    ShuttingDown,
}

/// Why a shutdown request failed.
#[derive(Debug)]
pub enum ShutdownError {
    /// The controller could not look up its own bound address.
    LocalAddr(std::io::Error),
    /// The self-dial connection could not be established.
    Connect(std::io::Error),
    /// The self-dial connection could not be closed.
    Shutdown(std::io::Error),
}

/// Relies on std::io::Error being an ordinary owned error value; the
/// library only stores and moves it, never inspects it.
#[verifier::external_type_specification]
#[verifier::external_body]
pub struct ExIoError(std::io::Error);

/// Returns `Ok` exactly when `value` holds, and the given error otherwise.
pub fn err_if_false<E>(value: bool, err: E) -> (r: Result<(), E>)
    ensures
        r is Ok <==> value,
        value ==> r == Result::<(), E>::Ok(()),
        !value ==> r == Result::<(), E>::Err(err),
{
    if value {
        Ok(())
    } else {
        Err(err)
    }
}

/// What an accept call decides at entry from the value it read off the
/// shared shutdown flag: refuse when the flag is set, go on to the
/// blocking accept primitive otherwise.
pub open spec fn spec_accept_gate(shutting_down: bool) -> Result<(), AcceptError> {
    if shutting_down {
        Err(AcceptError::ShuttingDown)
    } else {
        Ok(())
    }
}

/// The entry check of an accept call: fails fast with the shutting-down
/// error when the flag it was handed is set, without attempting to accept.
pub fn accept_gate(shutting_down: bool) -> (r: Result<(), AcceptError>)
    ensures
        r == spec_accept_gate(shutting_down),
{
    err_if_false(!shutting_down, AcceptError::ShuttingDown)
}

/// One listener group: the state that a bound listening socket and every
/// duplicated controller handle onto it share — the shutdown flag and the
/// connections that have arrived but were not yet accepted.
#[derive(Clone, Copy, PartialEq, Eq, Structural)]
pub struct ListenerState {
    /// The shared shutdown flag.
    pub shutting_down: bool,
    /// Connections waiting at the listening socket; each one lets a thread
    /// parked inside the blocking accept primitive return.
    pub pending_connections: usize,
}

/// One controller handle onto a listener group; duplicates differ only in
/// their identity, never in the state they act on.
#[derive(Clone, Copy, PartialEq, Eq, Structural)]
pub struct ControllerHandle {
    pub id: usize,
}

/// The state of a freshly bound listener: not shutting down, nothing
/// pending.
pub open spec fn spec_bind() -> ListenerState {
    ListenerState { shutting_down: false, pending_connections: 0 }
}

/// What the shutdown procedure does to the group state, through whichever
/// handle it was called: it sets the shared flag and then self-dials,
/// which queues one artificial incoming connection at the listening
/// socket. The count of waiting connections saturates at the largest
/// representable value.
pub open spec fn spec_shutdown(s: ListenerState, h: ControllerHandle) -> ListenerState {
    ListenerState {
        shutting_down: true,
        pending_connections: if s.pending_connections == usize::MAX {
            usize::MAX
        } else {
            (s.pending_connections + 1) as usize
        },
    }
}

/// The group state a bind establishes.
pub fn bind_state() -> (s: ListenerState)
    ensures
        s == spec_bind(),
{
    ListenerState { shutting_down: false, pending_connections: 0 }
}

/// The shutdown procedure on the group state: set the shared flag, then
/// wake any parked accept by dialling the listener's own address.
pub fn shutdown_signal(s: &mut ListenerState, h: &ControllerHandle)
    ensures
        *final(s) == spec_shutdown(*old(s), *h),
{
    s.shutting_down = true;
    if s.pending_connections < usize::MAX {
        s.pending_connections = s.pending_connections + 1;
    }
}

/// The blocking phase of an accept call returning: a waiting connection —
/// a real one, or the throwaway one manufactured by the shutdown self-dial
/// — is taken off the listening socket and split into its two closable
/// halves. A call parked here never touches the flag again; its caller
/// re-checks it on the next accept call.
pub fn accept_take(s: &mut ListenerState, h: &ControllerHandle) -> (p: (
    StreamHalf,
    StreamHalf,
))
    requires
        old(s).pending_connections > 0,
    ensures
        final(s).shutting_down == old(s).shutting_down,
        final(s).pending_connections == old(s).pending_connections - 1,
        split_pair_wf(p.0, p.1),
{
    s.pending_connections = s.pending_connections - 1;
    split_responsibilities()
}

/// One accept call that observes one consistent group state: it is
/// refused at entry when the shared flag is set, and otherwise returns
/// once a connection is waiting, split into its two closable halves.
pub fn accept_step(s: &mut ListenerState, h: &ControllerHandle) -> (r: Result<
    (StreamHalf, StreamHalf),
    AcceptError,
>)
    requires
        old(s).shutting_down || old(s).pending_connections > 0,
    ensures
        old(s).shutting_down ==> r == Err::<
            (StreamHalf, StreamHalf),
            AcceptError,
        >(AcceptError::ShuttingDown) && *final(s) == *old(s),
        !old(s).shutting_down ==> {
            &&& r matches Ok(p) && split_pair_wf(p.0, p.1)
            &&& final(s).shutting_down == old(s).shutting_down
            &&& final(s).pending_connections == old(s).pending_connections - 1
        },
{
    if let Err(e) = accept_gate(s.shutting_down) {
        return Err(e);
    }
    Ok(accept_take(s, h))
}

/// Labels a failure of the underlying accept primitive; the caller may
/// retry such an error.
pub fn accept_failure(err: std::io::Error) -> (r: AcceptError)
    ensures
        r == AcceptError::Accept(err),
{
    AcceptError::Accept(err)
}

/// The phases of the shutdown procedure that can fail: looking up the
/// listener's own address, establishing the self-dial connection, and
/// closing it.
pub enum ShutdownPhase {
    LocalAddr,
    Connect,
    Shutdown,
}

/// Labels an I/O failure of the shutdown procedure with the phase it
/// struck.
pub fn shutdown_failure(phase: ShutdownPhase, err: std::io::Error) -> (r: ShutdownError)
    ensures
        r == (match phase {
            ShutdownPhase::LocalAddr => ShutdownError::LocalAddr(err),
            ShutdownPhase::Connect => ShutdownError::Connect(err),
            ShutdownPhase::Shutdown => ShutdownError::Shutdown(err),
        }),
{
    match phase {
        ShutdownPhase::LocalAddr => ShutdownError::LocalAddr(err),
        ShutdownPhase::Connect => ShutdownError::Connect(err),
        ShutdownPhase::Shutdown => ShutdownError::Shutdown(err),
    }
}

/// After the shutdown procedure, a thread parked inside the blocking
/// accept primitive has a manufactured connection waiting for it — it
/// returns rather than hanging — and any accept call made against the new
/// state, the woken one re-entering or a fresh one, is refused with the
/// shutting-down error.
pub proof fn lemma_shutdown_unblocks_accept(s: ListenerState, h: ControllerHandle)
    ensures
        spec_shutdown(s, h).pending_connections > 0,
        spec_accept_gate(spec_shutdown(s, h).shutting_down) == Err::<(), AcceptError>(
            AcceptError::ShuttingDown,
        ),
{
}

/// The shutdown decision is shared: the shutdown procedure leads to the
/// same group state through any two handles of one group, and after it the
/// accept gate refuses through every handle.
pub proof fn lemma_shutdown_is_shared(s: ListenerState, h1: ControllerHandle, h2: ControllerHandle)
    ensures
        spec_shutdown(s, h1) == spec_shutdown(s, h2),
        spec_accept_gate(spec_shutdown(s, h1).shutting_down) == Err::<(), AcceptError>(
            AcceptError::ShuttingDown,
        ),
        spec_accept_gate(spec_shutdown(s, h2).shutting_down) == Err::<(), AcceptError>(
            AcceptError::ShuttingDown,
        ),
{
}

} // verus!
