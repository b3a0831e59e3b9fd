use crate::announce::{acknowledgment_bytes, announcement};
use crate::announce::{compose_announcement, is_acknowledgment};
use crate::archive::{pipeline_of, Pipeline, TransferRequest, TransferRequestView};
use crate::error::TransferError;
use vstd::prelude::*;

verus! {

/// Where the sending side of one connection stands.
#[derive(Clone, Copy, Debug, PartialEq, Eq, Structural)]
pub enum SenderPhase {
    /// The announcement is being sent.
    Announcing,
    /// The announcement is out and the receiver's answer is awaited.
    AwaitAck,
    /// The receiver answered `OK` and the archive is being streamed.
    Streaming,
    /// The archive was streamed to its end.
    Done { total_bytes: u64 },
    /// The transfer was given up; nothing is tried again.
    Failed { error: TransferError },
}

/// What the caller reports to the sending side.
#[derive(Clone, Debug, PartialEq, Eq)]
pub enum SenderEvent {
    /// The message asked for was written and flushed.
    Sent,
    /// One read on the channel gave these bytes.
    Response { bytes: Vec<u8> },
    /// The archive reached its end and this many bytes were sent.
    Streamed { total_bytes: u64 },
    /// What was asked for failed.
    Failed { error: TransferError },
}

/// A [`SenderEvent`] as a plain value.
pub enum SenderEventView {
    Sent,
    Response { bytes: Seq<u8> },
    Streamed { total_bytes: u64 },
    Failed { error: TransferError },
}

impl View for SenderEvent {
    type V = SenderEventView;

    open spec fn view(&self) -> SenderEventView {
        match self {
            SenderEvent::Sent => SenderEventView::Sent,
            SenderEvent::Response { bytes } => SenderEventView::Response { bytes: bytes@ },
            SenderEvent::Streamed { total_bytes } => SenderEventView::Streamed {
                total_bytes: *total_bytes,
            },
            SenderEvent::Failed { error } => SenderEventView::Failed { error: *error },
        }
    }
}

/// What the sending side asks its caller to do.
#[derive(Debug, PartialEq, Eq)]
pub enum SenderAction {
    /// Write this message to the channel, in one write, and flush it.
    Send { message: String },
    /// Read one message from the channel.
    ReadResponse,
    /// Produce the archive with `pipeline` and copy it into the channel.
    Stream { pipeline: Pipeline },
    /// Shut the channel down; the transfer ended with `outcome`.
    Shutdown { outcome: Result<u64, TransferError> },
}

/// A [`SenderAction`] as a plain value.
pub enum SenderActionView {
    Send { message: Seq<char> },
    ReadResponse,
    Stream { pipeline: Pipeline },
    Shutdown { outcome: Result<u64, TransferError> },
}

impl View for SenderAction {
    type V = SenderActionView;

    open spec fn view(&self) -> SenderActionView {
        match self {
            SenderAction::Send { message } => SenderActionView::Send { message: message@ },
            SenderAction::ReadResponse => SenderActionView::ReadResponse,
            SenderAction::Stream { pipeline } => SenderActionView::Stream { pipeline: *pipeline },
            SenderAction::Shutdown { outcome } => SenderActionView::Shutdown { outcome: *outcome },
        }
    }
}

/// The sending side of one connection: one announcement, one answer, one
/// stream, in that order and without a second try.
#[derive(Clone, Debug, PartialEq, Eq)]
pub struct SenderSession {
    pub request: TransferRequest,
    pub phase: SenderPhase,
}

/// A [`SenderSession`] as a plain value.
pub struct SenderState {
    pub request: TransferRequestView,
    pub phase: SenderPhase,
}

impl View for SenderSession {
    type V = SenderState;

    open spec fn view(&self) -> SenderState {
        SenderState { request: self.request@, phase: self.phase }
    }
}

/// The session for `request`, before anything was sent.
pub open spec fn sender_start(request: TransferRequestView) -> SenderState {
    SenderState { request, phase: SenderPhase::Announcing }
}

/// The session `s` given up with `error`.
pub open spec fn sender_failed(s: SenderState, error: TransferError) -> SenderState {
    SenderState { phase: SenderPhase::Failed { error }, ..s }
}

/// The state that follows `s` when `event` is reported.
///
/// After the announcement is written and flushed the answer is read. The
/// archive is streamed if the answer is exactly the two bytes of `OK`; any
/// other answer is a handshake failure. A failure gives the transfer up with
/// its error, and a report that the phase does not await counts as a failure
/// of the channel. Once done or given up, the session stays as it is.
pub open spec fn sender_step(s: SenderState, event: SenderEventView) -> SenderState {
    match s.phase {
        SenderPhase::Announcing => match event {
            SenderEventView::Sent => SenderState { phase: SenderPhase::AwaitAck, ..s },
            SenderEventView::Failed { error } => sender_failed(s, error),
            _ => sender_failed(s, TransferError::Transport),
        },
        SenderPhase::AwaitAck => match event {
            SenderEventView::Response { bytes } => if bytes == acknowledgment_bytes() {
                SenderState { phase: SenderPhase::Streaming, ..s }
            } else {
                sender_failed(s, TransferError::Handshake)
            },
            SenderEventView::Failed { error } => sender_failed(s, error),
            _ => sender_failed(s, TransferError::Transport),
        },
        SenderPhase::Streaming => match event {
            SenderEventView::Streamed { total_bytes } => SenderState {
                phase: SenderPhase::Done { total_bytes },
                ..s
            },
            SenderEventView::Failed { error } => sender_failed(s, error),
            _ => sender_failed(s, TransferError::Transport),
        },
        SenderPhase::Done { total_bytes } => s,
        SenderPhase::Failed { error } => s,
    }
}

/// What the caller of `s` has to do next.
pub open spec fn sender_action(s: SenderState) -> SenderActionView {
    match s.phase {
        SenderPhase::Announcing => SenderActionView::Send {
            message: announcement(s.request.announced_name),
        },
        SenderPhase::AwaitAck => SenderActionView::ReadResponse,
        SenderPhase::Streaming => SenderActionView::Stream {
            pipeline: pipeline_of(s.request.is_directory),
        },
        SenderPhase::Done { total_bytes } => SenderActionView::Shutdown {
            outcome: Ok(total_bytes),
        },
        SenderPhase::Failed { error } => SenderActionView::Shutdown { outcome: Err(error) },
    }
}

impl SenderSession {
    /// The session that sends what `request` describes.
    pub fn new(request: TransferRequest) -> (session: SenderSession)
        ensures
            session@ == sender_start(request@),
    {
        SenderSession { request, phase: SenderPhase::Announcing }
    }

    /// What the caller has to do next.
    pub fn action(&self) -> (action: SenderAction)
        ensures
            action@ == sender_action(self@),
    {
        match self.phase {
            SenderPhase::Announcing => SenderAction::Send {
                message: compose_announcement(self.request.announced_name.as_str()),
            },
            SenderPhase::AwaitAck => SenderAction::ReadResponse,
            SenderPhase::Streaming => SenderAction::Stream { pipeline: self.request.pipeline() },
            SenderPhase::Done { total_bytes } => SenderAction::Shutdown {
                outcome: Ok(total_bytes),
            },
            SenderPhase::Failed { error } => SenderAction::Shutdown { outcome: Err(error) },
        }
    }

    /// Takes in what happened to the last action and says what to do next.
    pub fn step(&mut self, event: SenderEvent) -> (action: SenderAction)
        ensures
            final(self)@ == sender_step(old(self)@, event@),
            action@ == sender_action(final(self)@),
    {
        match self.phase {
            SenderPhase::Announcing => {
                match event {
                    SenderEvent::Sent => {
                        self.phase = SenderPhase::AwaitAck;
                    },
                    SenderEvent::Failed { error } => {
                        self.phase = SenderPhase::Failed { error };
                    },
                    _ => {
                        self.phase = SenderPhase::Failed { error: TransferError::Transport };
                    },
                }
            },
            SenderPhase::AwaitAck => {
                match event {
                    SenderEvent::Response { bytes } => {
                        if is_acknowledgment(bytes.as_slice()) {
                            self.phase = SenderPhase::Streaming;
                        } else {
                            self.phase = SenderPhase::Failed { error: TransferError::Handshake };
                        }
                    },
                    SenderEvent::Failed { error } => {
                        self.phase = SenderPhase::Failed { error };
                    },
                    _ => {
                        self.phase = SenderPhase::Failed { error: TransferError::Transport };
                    },
                }
            },
            SenderPhase::Streaming => {
                match event {
                    SenderEvent::Streamed { total_bytes } => {
                        self.phase = SenderPhase::Done { total_bytes };
                    },
                    SenderEvent::Failed { error } => {
                        self.phase = SenderPhase::Failed { error };
                    },
                    _ => {
                        self.phase = SenderPhase::Failed { error: TransferError::Transport };
                    },
                }
            },
            SenderPhase::Done { total_bytes } => {},
            SenderPhase::Failed { error } => {},
        }
        self.action()
    }
}

} // verus!
