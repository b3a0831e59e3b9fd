use crate::announce::announced_on_wire;
use crate::error::TransferError;
use crate::naming::{lemma_peers_do_not_collide, Timestamp};
use crate::receiver::{receiver_start, receiver_step};
use crate::receiver::{ReceiverEventView, ReceiverPhase, ReceiverSession, ReceiverState};
use vstd::prelude::*;

verus! {

/// Whether the server still takes connections.
#[derive(Clone, Copy, Debug, PartialEq, Eq, Structural)]
pub enum DispatchPhase {
    /// Connections are accepted, without a limit on how many are served at once.
    Accepting,
    /// Accepting failed; no further connection is taken.
    Stopped { error: TransferError },
}

/// What the accept loop reports.
#[derive(Debug, PartialEq, Eq)]
pub enum DispatchEvent {
    /// A connection from `peer_ip` was accepted.
    Accepted { peer_ip: String },
    /// Accepting a connection failed.
    AcceptFailed,
    /// The unit that served one connection ended with `outcome`.
    UnitEnded { outcome: Result<u64, TransferError> },
}

/// A [`DispatchEvent`] as a plain value.
pub enum DispatchEventView {
    Accepted { peer_ip: Seq<char> },
    AcceptFailed,
    UnitEnded { outcome: Result<u64, TransferError> },
}

impl View for DispatchEvent {
    type V = DispatchEventView;

    open spec fn view(&self) -> DispatchEventView {
        match self {
            DispatchEvent::Accepted { peer_ip } => DispatchEventView::Accepted { peer_ip: peer_ip@ },
            DispatchEvent::AcceptFailed => DispatchEventView::AcceptFailed,
            DispatchEvent::UnitEnded { outcome } => DispatchEventView::UnitEnded {
                outcome: *outcome,
            },
        }
    }
}

/// What the accept loop has to do.
#[derive(Debug, PartialEq, Eq)]
pub enum DispatchAction {
    /// Hand the new connection and this session to a unit of its own, and
    /// accept the next connection without waiting for it.
    Serve { session: ReceiverSession },
    /// Accept the next connection.
    Accept,
    /// Leave the loop with `error`.
    Stop { error: TransferError },
}

/// A [`DispatchAction`] as a plain value.
pub enum DispatchActionView {
    Serve { session: ReceiverState },
    Accept,
    Stop { error: TransferError },
}

impl View for DispatchAction {
    type V = DispatchActionView;

    open spec fn view(&self) -> DispatchActionView {
        match self {
            DispatchAction::Serve { session } => DispatchActionView::Serve { session: session@ },
            DispatchAction::Accept => DispatchActionView::Accept,
            DispatchAction::Stop { error } => DispatchActionView::Stop { error: *error },
        }
    }
}

/// The server's accept loop as decisions: every accepted connection gets a
/// session and a unit of its own, and what becomes of a unit is that unit's
/// affair alone.
#[derive(Clone, Debug, PartialEq, Eq)]
pub struct Dispatcher {
    pub write_dir: String,
    pub phase: DispatchPhase,
}

/// A [`Dispatcher`] as a plain value.
pub struct DispatcherState {
    pub write_dir: Seq<char>,
    pub phase: DispatchPhase,
}

impl View for Dispatcher {
    type V = DispatcherState;

    open spec fn view(&self) -> DispatcherState {
        DispatcherState { write_dir: self.write_dir@, phase: self.phase }
    }
}

/// The dispatcher that stores into `write_dir`, before the first connection.
pub open spec fn dispatcher_start(write_dir: Seq<char>) -> DispatcherState {
    DispatcherState { write_dir, phase: DispatchPhase::Accepting }
}

/// The state that follows `d` when `event` is reported: only a failure to
/// accept stops the dispatcher, and once stopped it stays so.
pub open spec fn dispatch_step(d: DispatcherState, event: DispatchEventView) -> DispatcherState {
    match (d.phase, event) {
        (DispatchPhase::Accepting, DispatchEventView::AcceptFailed) => DispatcherState {
            phase: DispatchPhase::Stopped { error: TransferError::Transport },
            ..d
        },
        _ => d,
    }
}

/// What the accept loop has to do when `event` is reported to `d`.
pub open spec fn dispatch_action(d: DispatcherState, event: DispatchEventView) -> DispatchActionView {
    match d.phase {
        DispatchPhase::Accepting => match event {
            DispatchEventView::Accepted { peer_ip } => DispatchActionView::Serve {
                session: receiver_start(peer_ip, d.write_dir),
            },
            DispatchEventView::AcceptFailed => DispatchActionView::Stop {
                error: TransferError::Transport,
            },
            DispatchEventView::UnitEnded { outcome } => DispatchActionView::Accept,
        },
        DispatchPhase::Stopped { error } => DispatchActionView::Stop { error },
    }
}

/// The dispatcher after the reports `events`, taken in order.
pub open spec fn dispatch_run(d: DispatcherState, events: Seq<DispatchEventView>) -> DispatcherState
    decreases events.len(),
{
    if events.len() == 0 {
        d
    } else {
        dispatch_step(dispatch_run(d, events.drop_last()), events.last())
    }
}

impl Dispatcher {
    /// The dispatcher of a server that stores into `write_dir`.
    pub fn new(write_dir: String) -> (dispatcher: Dispatcher)
        ensures
            dispatcher@ == dispatcher_start(write_dir@),
    {
        Dispatcher { write_dir, phase: DispatchPhase::Accepting }
    }

    /// Takes in a report of the accept loop and says what to do about it.
    pub fn step(&mut self, event: DispatchEvent) -> (action: DispatchAction)
        ensures
            final(self)@ == dispatch_step(old(self)@, event@),
            action@ == dispatch_action(old(self)@, event@),
    {
        match self.phase {
            DispatchPhase::Accepting => {
                match event {
                    DispatchEvent::Accepted { peer_ip } => DispatchAction::Serve {
                        session: ReceiverSession::new(peer_ip, self.write_dir.clone()),
                    },
                    DispatchEvent::AcceptFailed => {
                        self.phase = DispatchPhase::Stopped { error: TransferError::Transport };
                        DispatchAction::Stop { error: TransferError::Transport }
                    },
                    DispatchEvent::UnitEnded { outcome } => DispatchAction::Accept,
                }
            },
            DispatchPhase::Stopped { error } => DispatchAction::Stop { error },
        }
    }
}

/// What happens in a handling unit stays there: however many units end, and
/// however they end, the dispatcher goes on accepting as long as accepting
/// itself does not fail.
pub proof fn theorem_units_never_stop_dispatch(
    write_dir: Seq<char>,
    events: Seq<DispatchEventView>,
)
    requires
        forall|i: int| 0 <= i < events.len() ==> !(#[trigger] events[i] is AcceptFailed),
    ensures
        dispatch_run(dispatcher_start(write_dir), events) == dispatcher_start(write_dir),
    decreases events.len(),
{
    if events.len() > 0 {
        let before = events.drop_last();
        assert forall|i: int| 0 <= i < before.len() implies !(#[trigger] before[i]
            is AcceptFailed) by {
            assert(before[i] == events[i]);
        }
        theorem_units_never_stop_dispatch(write_dir, before);
    }
}

/// Two connections that one dispatcher serves at the same time, from peers
/// with different addresses, are stored in different files even when both
/// announce the same name in the same second.
pub proof fn theorem_concurrent_peers_are_isolated(
    d: DispatcherState,
    peer_a: Seq<char>,
    peer_b: Seq<char>,
    bytes: Seq<u8>,
    received_at: Timestamp,
)
    requires
        d.phase == DispatchPhase::Accepting,
        peer_a != peer_b,
        announced_on_wire(bytes) is Some,
    ensures
        ({
            let a = dispatch_action(d, DispatchEventView::Accepted { peer_ip: peer_a });
            let b = dispatch_action(d, DispatchEventView::Accepted { peer_ip: peer_b });
            let message = ReceiverEventView::Message { bytes, received_at };
            let stored_a = receiver_step(a->Serve_session, message);
            let stored_b = receiver_step(b->Serve_session, message);
            &&& a is Serve
            &&& b is Serve
            &&& stored_a.phase == ReceiverPhase::AckOk
            &&& stored_b.phase == ReceiverPhase::AckOk
            &&& stored_a.destination != stored_b.destination
        }),
{
    lemma_peers_do_not_collide(
        peer_a,
        peer_b,
        announced_on_wire(bytes)->0,
        received_at,
        d.write_dir,
    );
}

} // verus!
