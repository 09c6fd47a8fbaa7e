//! Request and response head types shared by both handlers.

use vstd::prelude::*;

verus! {

/// Outcome tag of a response head.
#[derive(Clone, Copy, PartialEq, Eq, Structural, Debug)]
pub enum StatusCode {
    Success,
    Error,
}

/// Which of the mutually exclusive payloads a response carries.
#[derive(Clone, Copy, PartialEq, Eq, Structural, Debug)]
pub enum PayloadKind {
    Files,
    Text,
    ClipImage,
    Binary,
}

/// One shareable file: its path and its byte length at enumeration time.
#[derive(Debug)]
pub struct FileEntry {
    pub path: String,
    pub size: u64,
}

/// Mathematical model of a `FileEntry`.
#[verifier::ext_equal]
pub struct FileEntryV {
    pub path: Seq<char>,
    pub size: u64,
}

impl View for FileEntry {
    type V = FileEntryV;

    open spec fn view(&self) -> FileEntryV {
        FileEntryV { path: self.path@, size: self.size }
    }
}

/// Model of a sequence of file entries.
pub open spec fn entries_view(s: Seq<FileEntry>) -> Seq<FileEntryV> {
    s.map_values(|e: FileEntry| e@)
}

/// Inbound download request: a half-open byte window of a target file.
#[derive(Debug)]
pub struct RouteRequestHead {
    pub target_path: String,
    pub range_start: u64,
    pub range_end: u64,
}

/// Model of a `RouteRequestHead`.
#[verifier::ext_equal]
pub struct RouteRequestHeadV {
    pub target_path: Seq<char>,
    pub range_start: u64,
    pub range_end: u64,
}

impl View for RouteRequestHead {
    type V = RouteRequestHeadV;

    open spec fn view(&self) -> RouteRequestHeadV {
        RouteRequestHeadV {
            target_path: self.target_path@,
            range_start: self.range_start,
            range_end: self.range_end,
        }
    }
}

impl RouteRequestHead {
    /// The request invariant: the byte window is not of negative length.
    pub open spec fn wf(self) -> bool {
        self.range_start <= self.range_end
    }
}

/// Outbound response head, written to the stream before any body bytes.
#[derive(Debug)]
pub struct RouteResponseHead {
    pub status_code: StatusCode,
    pub message: String,
    pub payload_kind: PayloadKind,
    pub declared_length: u64,
    pub file_entries: Vec<FileEntry>,
}

/// Mathematical model of a `RouteResponseHead`.
#[verifier::ext_equal]
pub struct RouteResponseHeadV {
    pub status_code: StatusCode,
    pub message: Seq<char>,
    pub payload_kind: PayloadKind,
    pub declared_length: u64,
    pub file_entries: Seq<FileEntryV>,
}

impl View for RouteResponseHead {
    type V = RouteResponseHeadV;

    open spec fn view(&self) -> RouteResponseHeadV {
        RouteResponseHeadV {
            status_code: self.status_code,
            message: self.message@,
            payload_kind: self.payload_kind,
            declared_length: self.declared_length,
            file_entries: entries_view(self.file_entries@),
        }
    }
}

/// Model of the error response the Error Responder sends: status `Error`,
/// the given human-readable message, and no payload (the kind field carries
/// no meaning on errors; `Text` stands in as its resting value).
pub open spec fn spec_error_head(msg: Seq<char>) -> RouteResponseHeadV {
    RouteResponseHeadV {
        status_code: StatusCode::Error,
        message: msg,
        payload_kind: PayloadKind::Text,
        declared_length: 0,
        file_entries: Seq::empty(),
    }
}

/// Error Responder: build the standardized failure response around a message.
pub fn error_head(message: String) -> (h: RouteResponseHead)
    ensures
        h@ == spec_error_head(message@),
{
    let h = RouteResponseHead {
        status_code: StatusCode::Error,
        message,
        payload_kind: PayloadKind::Text,
        declared_length: 0,
        file_entries: Vec::new(),
    };
    proof {
        assert(entries_view(h.file_entries@) =~= Seq::<FileEntryV>::empty());
        assert(h@ =~= spec_error_head(h.message@));
    }
    h
}

} // verus!
