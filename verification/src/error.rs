use vstd::prelude::*;

verus! {

/// Why a transfer ended early. Every failure is fatal to its connection only.
#[derive(Clone, Copy, Debug, PartialEq, Eq, Structural)]
pub enum TransferError {
    /// Reading from, writing to or flushing the channel failed.
    Transport,
    /// The announcement was not a well-formed `filename:<name>:filename`.
    Validation,
    /// The compressing pipeline failed.
    Codec,
    /// A local file could not be opened, read or written, or the path to
    /// send names neither a file nor a directory.
    Filesystem,
    /// The receiver answered the announcement with anything but the acknowledgment.
    Handshake,
}

impl TransferError {
    /// A short, stable description for logs and diagnostics.
    pub fn describe(&self) -> (text: &'static str)
        ensures
            text@ == error_text(*self),
    {
        match self {
            TransferError::Transport => "transport failure on the channel",
            TransferError::Validation => "Invalid message",
            TransferError::Codec => "compression pipeline failure",
            TransferError::Filesystem => "filesystem failure",
            TransferError::Handshake => "peer rejected the announcement",
        }
    }
}

/// The description that [`TransferError::describe`] gives for each error.
pub open spec fn error_text(e: TransferError) -> Seq<char> {
    match e {
        TransferError::Transport => "transport failure on the channel"@,
        TransferError::Validation => "Invalid message"@,
        TransferError::Codec => "compression pipeline failure"@,
        TransferError::Filesystem => "filesystem failure"@,
        TransferError::Handshake => "peer rejected the announcement"@,
    }
}

} // verus!
