use crate::error::TransferError;
use vstd::prelude::*;
use vstd::string::StringExecFns;

verus! {

/// What a path on the sender's side names.
#[derive(Clone, Copy, Debug, PartialEq, Eq, Structural)]
pub enum SourceKind {
    /// A regular file.
    File,
    /// A directory.
    Directory,
    /// Neither of the two.
    Other,
}

/// How the bytes of an archive are produced.
#[derive(Clone, Copy, Debug, PartialEq, Eq, Structural)]
pub enum Pipeline {
    /// The file's contents, compressed as they are read.
    CompressedFile,
    /// The directory tree serialised entry by entry, and that stream
    /// compressed as it is produced.
    CompressedTree,
}

/// The pipeline for a source of kind `kind`; there is none for what is
/// neither a file nor a directory.
pub open spec fn pipeline_for(kind: SourceKind) -> Option<Pipeline> {
    match kind {
        SourceKind::File => Some(Pipeline::CompressedFile),
        SourceKind::Directory => Some(Pipeline::CompressedTree),
        SourceKind::Other => None,
    }
}

/// The ending that tells the two kinds of archive apart.
pub open spec fn archive_suffix(is_directory: bool) -> Seq<char> {
    if is_directory {
        seq!['.', 't', 'a', 'r', '.', 'g', 'z']
    } else {
        seq!['.', 'g', 'z']
    }
}

/// The name under which a source is announced: `<basename>.tar.gz` for a
/// directory, `<basename>.gz` for anything else.
pub open spec fn archive_name(basename: Seq<char>, is_directory: bool) -> Seq<char> {
    basename + archive_suffix(is_directory)
}

/// Chooses the pipeline for a source, and refuses what is neither a file nor
/// a directory.
pub fn select_pipeline(kind: SourceKind) -> (result: Result<Pipeline, TransferError>)
    ensures
        match result {
            Ok(pipeline) => pipeline_for(kind) == Some(pipeline),
            Err(error) => pipeline_for(kind) is None && error == TransferError::Filesystem,
        },
{
    match kind {
        SourceKind::File => Ok(Pipeline::CompressedFile),
        SourceKind::Directory => Ok(Pipeline::CompressedTree),
        SourceKind::Other => Err(TransferError::Filesystem),
    }
}

/// What the sender settles before the handshake and does not change after.
#[derive(Clone, Debug, PartialEq, Eq)]
pub struct TransferRequest {
    pub announced_name: String,
    pub is_directory: bool,
}

/// A [`TransferRequest`] as a plain value.
pub struct TransferRequestView {
    pub announced_name: Seq<char>,
    pub is_directory: bool,
}

impl View for TransferRequest {
    type V = TransferRequestView;

    open spec fn view(&self) -> TransferRequestView {
        TransferRequestView {
            announced_name: self.announced_name@,
            is_directory: self.is_directory,
        }
    }
}

impl TransferRequest {
    /// The request to send the source whose last path component is
    /// `basename`.
    pub fn new(basename: &str, is_directory: bool) -> (request: TransferRequest)
        ensures
            request@ == (TransferRequestView {
                announced_name: archive_name(basename@, is_directory),
                is_directory,
            }),
    {
        proof {
            reveal_strlit(".tar.gz");
            reveal_strlit(".gz");
        }
        let mut announced_name = String::from_str(basename);
        if is_directory {
            announced_name.append(".tar.gz");
        } else {
            announced_name.append(".gz");
        }
        assert(announced_name@ =~= archive_name(basename@, is_directory));
        TransferRequest { announced_name, is_directory }
    }

    /// The pipeline that produces this request's archive.
    pub fn pipeline(&self) -> (pipeline: Pipeline)
        ensures
            pipeline == pipeline_of(self.is_directory),
    {
        if self.is_directory {
            Pipeline::CompressedTree
        } else {
            Pipeline::CompressedFile
        }
    }
}

/// The pipeline that an announced archive is made with.
pub open spec fn pipeline_of(is_directory: bool) -> Pipeline {
    if is_directory {
        Pipeline::CompressedTree
    } else {
        Pipeline::CompressedFile
    }
}

} // verus!
