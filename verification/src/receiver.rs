use crate::announce::{acknowledgment, announced_on_wire, is_valid_name, rejection};
use crate::announce::{acknowledgment_message, read_announcement, rejection_message};
use crate::common::local_now;
use crate::error::TransferError;
use crate::naming::{destination_path, storage_name, NamingResult, Timestamp};
use vstd::prelude::*;

verus! {

/// Where the receiving side of one connection stands. The announcement is
/// validated within the step that takes it in, so no phase waits on that.
#[derive(Clone, Copy, Debug, PartialEq, Eq, Structural)]
pub enum ReceiverPhase {
    /// The announcement is awaited.
    AwaitAnnounce,
    /// The announcement was accepted and the acknowledgment is being sent.
    AckOk,
    /// The announcement was turned down and the rejection is being sent.
    AckError,
    /// The acknowledgment is out and the payload is being stored.
    Streaming,
    /// The payload was stored to its end.
    Done { total_bytes: u64 },
    /// The connection ended without a stored payload.
    Closed { error: TransferError },
}

/// What the caller reports to the receiving side.
#[derive(Clone, Debug, PartialEq, Eq)]
pub enum ReceiverEvent {
    /// One read on the channel gave these bytes, at this local time.
    Message { bytes: Vec<u8>, received_at: Timestamp },
    /// The message asked for was written and flushed.
    Sent,
    /// The channel reached its end and this many bytes were stored.
    Stored { total_bytes: u64 },
    /// What was asked for failed.
    Failed { error: TransferError },
}

/// A [`ReceiverEvent`] as a plain value.
pub enum ReceiverEventView {
    Message { bytes: Seq<u8>, received_at: Timestamp },
    Sent,
    Stored { total_bytes: u64 },
    Failed { error: TransferError },
}

impl View for ReceiverEvent {
    type V = ReceiverEventView;

    open spec fn view(&self) -> ReceiverEventView {
        match self {
            ReceiverEvent::Message { bytes, received_at } => ReceiverEventView::Message {
                bytes: bytes@,
                received_at: *received_at,
            },
            ReceiverEvent::Sent => ReceiverEventView::Sent,
            ReceiverEvent::Stored { total_bytes } => ReceiverEventView::Stored {
                total_bytes: *total_bytes,
            },
            ReceiverEvent::Failed { error } => ReceiverEventView::Failed { error: *error },
        }
    }
}

/// What the receiving side asks its caller to do.
#[derive(Debug, PartialEq, Eq)]
pub enum ReceiverAction {
    /// Read one message from the channel.
    ReadAnnouncement,
    /// Write this message to the channel and flush it.
    Send { message: String },
    /// Create the file at `path` and copy the channel into it until the
    /// channel ends.
    Store { path: String },
    /// Shut the channel down; the connection ended with `outcome`.
    Shutdown { outcome: Result<u64, TransferError> },
}

/// A [`ReceiverAction`] as a plain value.
pub enum ReceiverActionView {
    ReadAnnouncement,
    Send { message: Seq<char> },
    Store { path: Seq<char> },
    Shutdown { outcome: Result<u64, TransferError> },
}

impl View for ReceiverAction {
    type V = ReceiverActionView;

    open spec fn view(&self) -> ReceiverActionView {
        match self {
            ReceiverAction::ReadAnnouncement => ReceiverActionView::ReadAnnouncement,
            ReceiverAction::Send { message } => ReceiverActionView::Send { message: message@ },
            ReceiverAction::Store { path } => ReceiverActionView::Store { path: path@ },
            ReceiverAction::Shutdown { outcome } => ReceiverActionView::Shutdown {
                outcome: *outcome,
            },
        }
    }
}

/// The receiving side of one connection: it takes the announcement,
/// validates it, answers, and has the payload stored under a name of its own
/// making. It decides; the caller reads, writes and stores.
#[derive(Clone, Debug, PartialEq, Eq)]
pub struct ReceiverSession {
    pub peer_ip: String,
    pub write_dir: String,
    pub phase: ReceiverPhase,
    pub destination: String,
}

/// A [`ReceiverSession`] as a plain value.
pub struct ReceiverState {
    pub peer_ip: Seq<char>,
    pub write_dir: Seq<char>,
    pub phase: ReceiverPhase,
    pub destination: Seq<char>,
}

impl View for ReceiverSession {
    type V = ReceiverState;

    open spec fn view(&self) -> ReceiverState {
        ReceiverState {
            peer_ip: self.peer_ip@,
            write_dir: self.write_dir@,
            phase: self.phase,
            destination: self.destination@,
        }
    }
}

impl ReceiverState {
    /// A destination is only ever built from a name that passed validation:
    /// there is none before an announcement is accepted, and none after one
    /// was turned down; while the acknowledgment goes out and the payload is
    /// stored, it is the path derived from the peer, a valid name and a time.
    pub open spec fn wf(self) -> bool {
        match self.phase {
            ReceiverPhase::AwaitAnnounce => self.destination.len() == 0,
            ReceiverPhase::AckError => self.destination.len() == 0,
            ReceiverPhase::AckOk => self.stores_a_valid_name(),
            ReceiverPhase::Streaming => self.stores_a_valid_name(),
            ReceiverPhase::Done { total_bytes } => self.stores_a_valid_name(),
            ReceiverPhase::Closed { error } => self.destination.len() == 0
                || self.stores_a_valid_name(),
        }
    }

    /// Whether the destination is the path derived from a valid name.
    pub open spec fn stores_a_valid_name(self) -> bool {
        exists|name: Seq<char>, at: Timestamp|
            is_valid_name(name) && self.destination == destination_path(
                self.write_dir,
                #[trigger] storage_name(self.peer_ip, name, at),
            )
    }
}

/// The session for a peer at `peer_ip`, before anything was read.
pub open spec fn receiver_start(peer_ip: Seq<char>, write_dir: Seq<char>) -> ReceiverState {
    ReceiverState {
        peer_ip,
        write_dir,
        phase: ReceiverPhase::AwaitAnnounce,
        destination: Seq::empty(),
    }
}

/// The session `s` ended by `error`.
pub open spec fn receiver_closed(s: ReceiverState, error: TransferError) -> ReceiverState {
    ReceiverState { phase: ReceiverPhase::Closed { error }, ..s }
}

/// The state that follows `s` when `event` is reported.
///
/// A message that announces a valid name is accepted: the destination is
/// fixed, from the peer's address, the name and the time of receipt, and the
/// acknowledgment goes out. Any other message is turned down: the rejection
/// goes out and the session closes with a validation error, whatever becomes
/// of the rejection. Once the acknowledgment is written and flushed, and not
/// before, the payload is stored. A failure closes the session with its
/// error, and a report that the phase does not await counts as a failure of
/// the channel. Once done or closed, the session stays as it is.
pub open spec fn receiver_step(s: ReceiverState, event: ReceiverEventView) -> ReceiverState {
    match s.phase {
        ReceiverPhase::AwaitAnnounce => match event {
            ReceiverEventView::Message { bytes, received_at } => match announced_on_wire(bytes) {
                Some(name) => ReceiverState {
                    phase: ReceiverPhase::AckOk,
                    destination: destination_path(
                        s.write_dir,
                        storage_name(s.peer_ip, name, received_at),
                    ),
                    ..s
                },
                None => ReceiverState { phase: ReceiverPhase::AckError, ..s },
            },
            ReceiverEventView::Failed { error } => receiver_closed(s, error),
            _ => receiver_closed(s, TransferError::Transport),
        },
        ReceiverPhase::AckOk => match event {
            ReceiverEventView::Sent => ReceiverState { phase: ReceiverPhase::Streaming, ..s },
            ReceiverEventView::Failed { error } => receiver_closed(s, error),
            _ => receiver_closed(s, TransferError::Transport),
        },
        ReceiverPhase::AckError => receiver_closed(s, TransferError::Validation),
        ReceiverPhase::Streaming => match event {
            ReceiverEventView::Stored { total_bytes } => ReceiverState {
                phase: ReceiverPhase::Done { total_bytes },
                ..s
            },
            ReceiverEventView::Failed { error } => receiver_closed(s, error),
            _ => receiver_closed(s, TransferError::Transport),
        },
        ReceiverPhase::Done { total_bytes } => s,
        ReceiverPhase::Closed { error } => s,
    }
}

/// What the caller of `s` has to do next.
pub open spec fn receiver_action(s: ReceiverState) -> ReceiverActionView {
    match s.phase {
        ReceiverPhase::AwaitAnnounce => ReceiverActionView::ReadAnnouncement,
        ReceiverPhase::AckOk => ReceiverActionView::Send { message: acknowledgment() },
        ReceiverPhase::AckError => ReceiverActionView::Send { message: rejection() },
        ReceiverPhase::Streaming => ReceiverActionView::Store { path: s.destination },
        ReceiverPhase::Done { total_bytes } => ReceiverActionView::Shutdown {
            outcome: Ok(total_bytes),
        },
        ReceiverPhase::Closed { error } => ReceiverActionView::Shutdown { outcome: Err(error) },
    }
}

/// A step keeps a session well-formed.
pub proof fn lemma_step_keeps_wf(s: ReceiverState, event: ReceiverEventView)
    requires
        s.wf(),
    ensures
        receiver_step(s, event).wf(),
{
    let after = receiver_step(s, event);
    if s.phase == ReceiverPhase::AwaitAnnounce && after.phase == ReceiverPhase::AckOk {
        let name = announced_on_wire(event->Message_bytes)->0;
        assert(is_valid_name(name));
        assert(after.destination == destination_path(
            after.write_dir,
            storage_name(after.peer_ip, name, event->Message_received_at),
        ));
    } else if s.stores_a_valid_name() {
        let (name, at) = choose|name: Seq<char>, at: Timestamp|
            is_valid_name(name) && s.destination == destination_path(
                s.write_dir,
                #[trigger] storage_name(s.peer_ip, name, at),
            );
        assert(after.destination == destination_path(
            after.write_dir,
            storage_name(after.peer_ip, name, at),
        ));
    }
}

impl ReceiverEvent {
    /// The report that one read gave `bytes`, stamped with the local time of
    /// this call, whichever time that is.
    pub fn received_now(bytes: Vec<u8>) -> (event: ReceiverEvent)
        ensures
            event@ matches ReceiverEventView::Message { bytes: b, received_at }
                && b == bytes@ && received_at.on_calendar(),
    {
        ReceiverEvent::Message { bytes, received_at: local_now() }
    }
}

impl ReceiverSession {
    /// The session for a connection from `peer_ip` whose payload goes into
    /// `write_dir`.
    pub fn new(peer_ip: String, write_dir: String) -> (session: ReceiverSession)
        ensures
            session@ == receiver_start(peer_ip@, write_dir@),
            session@.wf(),
    {
        ReceiverSession {
            peer_ip,
            write_dir,
            phase: ReceiverPhase::AwaitAnnounce,
            destination: String::new(),
        }
    }

    /// What the caller has to do next.
    pub fn action(&self) -> (action: ReceiverAction)
        ensures
            action@ == receiver_action(self@),
    {
        match self.phase {
            ReceiverPhase::AwaitAnnounce => ReceiverAction::ReadAnnouncement,
            ReceiverPhase::AckOk => ReceiverAction::Send { message: acknowledgment_message() },
            ReceiverPhase::AckError => ReceiverAction::Send { message: rejection_message() },
            ReceiverPhase::Streaming => ReceiverAction::Store { path: self.destination.clone() },
            ReceiverPhase::Done { total_bytes } => ReceiverAction::Shutdown {
                outcome: Ok(total_bytes),
            },
            ReceiverPhase::Closed { error } => ReceiverAction::Shutdown { outcome: Err(error) },
        }
    }

    /// Takes in what happened to the last action and says what to do next.
    pub fn step(&mut self, event: ReceiverEvent) -> (action: ReceiverAction)
        ensures
            final(self)@ == receiver_step(old(self)@, event@),
            action@ == receiver_action(final(self)@),
            old(self)@.wf() ==> final(self)@.wf(),
    {
        proof {
            if self@.wf() {
                lemma_step_keeps_wf(self@, event@);
            }
        }
        match self.phase {
            ReceiverPhase::AwaitAnnounce => {
                match event {
                    ReceiverEvent::Message { bytes, received_at } => {
                        match read_announcement(bytes) {
                            Ok(name) => {
                                let naming = NamingResult::derive(
                                    self.write_dir.as_str(),
                                    self.peer_ip.as_str(),
                                    name.as_str(),
                                    &received_at,
                                );
                                self.destination = naming.storage_path;
                                self.phase = ReceiverPhase::AckOk;
                            },
                            Err(_) => {
                                self.phase = ReceiverPhase::AckError;
                            },
                        }
                    },
                    ReceiverEvent::Failed { error } => {
                        self.phase = ReceiverPhase::Closed { error };
                    },
                    _ => {
                        self.phase = ReceiverPhase::Closed { error: TransferError::Transport };
                    },
                }
            },
            ReceiverPhase::AckOk => {
                match event {
                    ReceiverEvent::Sent => {
                        self.phase = ReceiverPhase::Streaming;
                    },
                    ReceiverEvent::Failed { error } => {
                        self.phase = ReceiverPhase::Closed { error };
                    },
                    _ => {
                        self.phase = ReceiverPhase::Closed { error: TransferError::Transport };
                    },
                }
            },
            ReceiverPhase::AckError => {
                self.phase = ReceiverPhase::Closed { error: TransferError::Validation };
            },
            ReceiverPhase::Streaming => {
                match event {
                    ReceiverEvent::Stored { total_bytes } => {
                        self.phase = ReceiverPhase::Done { total_bytes };
                    },
                    ReceiverEvent::Failed { error } => {
                        self.phase = ReceiverPhase::Closed { error };
                    },
                    _ => {
                        self.phase = ReceiverPhase::Closed { error: TransferError::Transport };
                    },
                }
            },
            ReceiverPhase::Done { total_bytes } => {},
            ReceiverPhase::Closed { error } => {},
        }
        self.action()
    }
}

} // verus!
