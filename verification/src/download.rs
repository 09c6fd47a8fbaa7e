//! Download Handler and Range File Reader: validate a requested byte window,
//! declare its exact length, and stream it with bounded memory. The handler
//! is a step machine; the surrounding process performs the filesystem and
//! stream I/O each action asks for and feeds the outcome back.

use crate::protocol::{
    entries_view, error_head, spec_error_head, FileEntryV, PayloadKind, RouteRequestHead,
    RouteRequestHeadV, RouteResponseHead, RouteResponseHeadV, StatusCode,
};
use vstd::prelude::*;

verus! {

/// Upper bound on the streaming buffer: 30 MiB.
pub const MAX_BUFFER_SIZE: usize = 30 * 1024 * 1024;

/// Read cursor restricted to the byte window `[start, end)` of a file:
/// reads advance `pos` from `start` and end-of-data falls exactly at `end`,
/// whatever lies beyond.
#[derive(Clone, Copy, PartialEq, Eq, Structural, Debug)]
pub struct RangeWindow {
    pub start: u64,
    pub end: u64,
    pub pos: u64,
}

impl RangeWindow {
    /// The cursor invariant.
    pub open spec fn wf(self) -> bool {
        self.start <= self.pos <= self.end
    }

    /// Bytes still to be read before end-of-data.
    pub open spec fn spec_remaining(self) -> int {
        self.end - self.pos
    }

    /// Range File Reader construction: the window is valid if and only if
    /// `start <= end <= file_size`; an invalid one is refused with a
    /// descriptive error and nothing is read.
    pub fn new(start: u64, end: u64, file_size: u64) -> (r: Result<RangeWindow, String>)
        ensures
            r is Ok <==> start <= end && end <= file_size,
            r matches Ok(w) ==> w == (RangeWindow { start, end, pos: start }),
            r matches Err(m) ==> m@ == "invalid file part range"@,
    {
        if start <= end && end <= file_size {
            Ok(RangeWindow { start, end, pos: start })
        } else {
            Err(String::from_str("invalid file part range"))
        }
    }

    /// Bytes still to be read.
    pub fn remaining(&self) -> (n: u64)
        requires
            self.wf(),
        ensures
            n == self.spec_remaining(),
    {
        self.end - self.pos
    }

    /// Length of the next sequential read through a buffer of capacity
    /// `cap`: the smaller of the bytes remaining and the buffer.
    pub fn next_chunk_len(&self, cap: usize) -> (n: usize)
        requires
            self.wf(),
        ensures
            n <= cap,
            n <= self.spec_remaining(),
            n == self.spec_remaining() || n == cap,
    {
        let rem = self.end - self.pos;
        if rem < cap as u64 {
            rem as usize
        } else {
            cap
        }
    }

    /// Note that `n` bytes were read.
    pub fn advance(&mut self, n: u64)
        requires
            old(self).wf(),
            n <= old(self).spec_remaining(),
        ensures
            final(self).wf(),
            final(self).start == old(self).start,
            final(self).end == old(self).end,
            final(self).pos == old(self).pos + n,
    {
        self.pos = self.pos + n;
    }
}

/// Model of the streaming buffer capacity for the window `[start, end)`:
/// the window's length, capped at 30 MiB.
pub open spec fn spec_buffer_capacity(start: u64, end: u64) -> int {
    if end - start < MAX_BUFFER_SIZE {
        end - start
    } else {
        MAX_BUFFER_SIZE as int
    }
}

/// Buffer bound: size the streaming buffer to `min(end - start, 30 MiB)`,
/// bounding memory on large ranges without over-buffering small ones.
pub fn buffer_capacity(start: u64, end: u64) -> (n: usize)
    requires
        start <= end,
    ensures
        n == spec_buffer_capacity(start, end),
        n <= MAX_BUFFER_SIZE,
        n <= end - start,
{
    let len = end - start;
    if len < MAX_BUFFER_SIZE as u64 {
        len as usize
    } else {
        MAX_BUFFER_SIZE
    }
}

/// The streaming loop over an in-memory byte source: read the window
/// `[start, end)` through chunks of at most `cap` bytes each and return
/// exactly the window — the file's bytes at that offset window, nothing
/// else, end-of-data at `end`.
pub fn copy_file_window(file: &Vec<u8>, start: usize, end: usize, cap: usize) -> (out: Vec<u8>)
    requires
        start <= end <= file@.len(),
        start < end ==> cap >= 1,
    ensures
        out@ == file@.subrange(start as int, end as int),
        out@.len() == end - start,
        forall|i: int| 0 <= i < end - start ==> out@[i] == file@[start + i],
{
    let mut w = match RangeWindow::new(start as u64, end as u64, file.len() as u64) {
        Ok(w) => w,
        Err(_) => unreached(),
    };
    let mut out: Vec<u8> = Vec::new();
    proof {
        assert(out@ =~= file@.subrange(start as int, start as int));
    }
    while w.pos < w.end
        invariant
            w.wf(),
            w.start == start,
            w.end == end,
            end <= file@.len(),
            start < end ==> cap >= 1,
            out@ == file@.subrange(start as int, w.pos as int),
        decreases w.end - w.pos,
    {
        let k = w.next_chunk_len(cap);
        let base = w.pos as usize;
        let mut j: usize = 0;
        while j < k
            invariant
                j <= k,
                base == w.pos,
                k <= w.spec_remaining(),
                w.wf(),
                w.start == start,
                w.end == end,
                end <= file@.len(),
                out@ == file@.subrange(start as int, (base + j) as int),
            decreases k - j,
        {
            let b = file[base + j];
            out.push(b);
            j += 1;
            proof {
                assert(out@ =~= file@.subrange(start as int, (base + j) as int));
            }
        }
        w.advance(k as u64);
    }
    proof {
        assert(file@.subrange(start as int, w.pos as int) =~= file@.subrange(
            start as int,
            end as int,
        ));
    }
    out
}

/// Build the error message naming a missing download target.
pub fn missing_file_message(path: &String) -> (m: String)
    ensures
        m@ == "file not exists: "@ + path@,
{
    let mut m = String::from_str("file not exists: ");
    m.append(path.as_str());
    m
}

/// Build the error message embedding the reason a file would not open.
pub fn open_failed_message(err: &String) -> (m: String)
    ensures
        m@ == "open file failed, err: "@ + err@,
{
    let mut m = String::from_str("open file failed, err: ");
    m.append(err.as_str());
    m
}

/// Model of the `Binary` success head declaring the exact byte count that
/// will follow: `range_end - range_start`, with no file entries.
pub open spec fn spec_download_head(req: RouteRequestHeadV) -> RouteResponseHeadV {
    RouteResponseHeadV {
        status_code: StatusCode::Success,
        message: "start download"@,
        payload_kind: PayloadKind::Binary,
        declared_length: (req.range_end - req.range_start) as u64,
        file_entries: Seq::empty(),
    }
}

/// Build the `Binary` success head for a download request.
pub fn download_head(req: &RouteRequestHead) -> (h: RouteResponseHead)
    requires
        req.wf(),
    ensures
        h@ == spec_download_head(req@),
{
    let h = RouteResponseHead {
        status_code: StatusCode::Success,
        message: String::from_str("start download"),
        payload_kind: PayloadKind::Binary,
        declared_length: req.range_end - req.range_start,
        file_entries: Vec::new(),
    };
    proof {
        assert(entries_view(h.file_entries@) =~= Seq::<FileEntryV>::empty());
        assert(h@ =~= spec_download_head(req@));
    }
    h
}

/// Where the download handler stands between two events.
#[derive(Clone, Copy, PartialEq, Eq, Structural, Debug)]
pub enum DownloadState {
    CheckingPath,
    Opening,
    /// The head is on its way; the field is the opened file's byte length.
    AwaitingHeadAck(u64),
    Streaming,
    Finished,
}

/// What the surrounding process reports back to the download handler.
pub enum DownloadEvent {
    /// A download request arrived.
    Begin,
    /// Whether the target path exists.
    PathExists(bool),
    /// The opened file's byte length, or the reason the open failed.
    OpenResult(Result<u64, String>),
    /// Whether the success head reached the peer.
    HeadAck(bool),
    /// The stream copy ended after this many bytes.
    StreamEnd(u64),
}

/// Mathematical model of a `DownloadEvent`.
pub enum DownloadEventV {
    Begin,
    PathExists(bool),
    OpenResult(Result<u64, Seq<char>>),
    HeadAck(bool),
    StreamEnd(u64),
}

impl View for DownloadEvent {
    type V = DownloadEventV;

    open spec fn view(&self) -> DownloadEventV {
        match self {
            DownloadEvent::Begin => DownloadEventV::Begin,
            DownloadEvent::PathExists(b) => DownloadEventV::PathExists(*b),
            DownloadEvent::OpenResult(r) => DownloadEventV::OpenResult(
                match r {
                    Ok(size) => Ok(*size),
                    Err(e) => Err(e@),
                },
            ),
            DownloadEvent::HeadAck(ok) => DownloadEventV::HeadAck(*ok),
            DownloadEvent::StreamEnd(n) => DownloadEventV::StreamEnd(*n),
        }
    }
}

/// What the surrounding process must do next.
pub enum DownloadAction {
    /// Check whether the target path exists.
    CheckPath,
    /// Open the target file for reading and take its byte length.
    OpenFile,
    /// Send this error head; the download is over and nothing is streamed.
    SendErrorHead(RouteResponseHead),
    /// Send this success head, then report `HeadAck` with the write's
    /// outcome.
    SendSuccessHead(RouteResponseHead),
    /// Stream the window through a buffer of exactly this capacity: read
    /// chunks of `next_chunk_len` bytes, write each, `advance`, until the
    /// window's `remaining` is 0; then report `StreamEnd`.
    StreamWindow(RangeWindow, usize),
    /// The window proved invalid after the head was committed: log this
    /// reason and stop — the peer will observe a short body.
    WarnInvalidWindow(String),
    /// The bytes transferred — carried here — fell short of the declared
    /// length: log a warning, nothing more; the head is already committed.
    WarnMismatch(u64),
    /// Nothing further; the download is over.
    Stop,
}

/// Mathematical model of a `DownloadAction`.
pub enum DownloadActionV {
    CheckPath,
    OpenFile,
    SendErrorHead(RouteResponseHeadV),
    SendSuccessHead(RouteResponseHeadV),
    StreamWindow(RangeWindow, usize),
    WarnInvalidWindow(Seq<char>),
    WarnMismatch(u64),
    Stop,
}

impl View for DownloadAction {
    type V = DownloadActionV;

    open spec fn view(&self) -> DownloadActionV {
        match self {
            DownloadAction::CheckPath => DownloadActionV::CheckPath,
            DownloadAction::OpenFile => DownloadActionV::OpenFile,
            DownloadAction::SendErrorHead(h) => DownloadActionV::SendErrorHead(h@),
            DownloadAction::SendSuccessHead(h) => DownloadActionV::SendSuccessHead(h@),
            DownloadAction::StreamWindow(w, cap) => DownloadActionV::StreamWindow(*w, *cap),
            DownloadAction::WarnInvalidWindow(m) => DownloadActionV::WarnInvalidWindow(m@),
            DownloadAction::WarnMismatch(n) => DownloadActionV::WarnMismatch(*n),
            DownloadAction::Stop => DownloadActionV::Stop,
        }
    }
}

/// The download handler, one transition per event.
///
/// A missing path or a failed open is answered with an error head naming
/// the cause, and nothing is streamed. Once the file is open, the success
/// head declaring `range_end - range_start` bytes goes out *before* the
/// window is validated, as the reference behavior has it: a window that
/// then proves invalid ends the download with only a local warning, and
/// the peer observes a short body. A delivered head is followed by the
/// stream; a byte count that comes back short of the declared length is
/// only warned about.
pub open spec fn spec_download_step(
    req: RouteRequestHeadV,
    state: DownloadState,
    event: DownloadEventV,
) -> (DownloadState, DownloadActionV) {
    match (state, event) {
        (DownloadState::CheckingPath, DownloadEventV::Begin) => (
            DownloadState::CheckingPath,
            DownloadActionV::CheckPath,
        ),
        (DownloadState::CheckingPath, DownloadEventV::PathExists(false)) => (
            DownloadState::Finished,
            DownloadActionV::SendErrorHead(
                spec_error_head("file not exists: "@ + req.target_path),
            ),
        ),
        (DownloadState::CheckingPath, DownloadEventV::PathExists(true)) => (
            DownloadState::Opening,
            DownloadActionV::OpenFile,
        ),
        (DownloadState::Opening, DownloadEventV::OpenResult(Err(e))) => (
            DownloadState::Finished,
            DownloadActionV::SendErrorHead(spec_error_head("open file failed, err: "@ + e)),
        ),
        (DownloadState::Opening, DownloadEventV::OpenResult(Ok(size))) => (
            DownloadState::AwaitingHeadAck(size),
            DownloadActionV::SendSuccessHead(spec_download_head(req)),
        ),
        (DownloadState::AwaitingHeadAck(size), DownloadEventV::HeadAck(ok)) => {
            if !ok {
                (DownloadState::Finished, DownloadActionV::Stop)
            } else if req.range_end <= size {
                (
                    DownloadState::Streaming,
                    DownloadActionV::StreamWindow(
                        RangeWindow {
                            start: req.range_start,
                            end: req.range_end,
                            pos: req.range_start,
                        },
                        spec_buffer_capacity(req.range_start, req.range_end) as usize,
                    ),
                )
            } else {
                (
                    DownloadState::Finished,
                    DownloadActionV::WarnInvalidWindow("invalid file part range"@),
                )
            }
        },
        (DownloadState::Streaming, DownloadEventV::StreamEnd(n)) => {
            if n == (req.range_end - req.range_start) as u64 {
                (DownloadState::Finished, DownloadActionV::Stop)
            } else {
                (DownloadState::Finished, DownloadActionV::WarnMismatch(n))
            }
        },
        _ => (DownloadState::Finished, DownloadActionV::Stop),
    }
}

/// One transition of the download handler.
pub fn download_step(req: &RouteRequestHead, state: DownloadState, event: DownloadEvent) -> (r: (
    DownloadState,
    DownloadAction,
))
    requires
        req.wf(),
    ensures
        r.0 == spec_download_step(req@, state, event@).0,
        r.1@ == spec_download_step(req@, state, event@).1,
{
    match (state, event) {
        (DownloadState::CheckingPath, DownloadEvent::Begin) => (
            DownloadState::CheckingPath,
            DownloadAction::CheckPath,
        ),
        (DownloadState::CheckingPath, DownloadEvent::PathExists(false)) => {
            let head = error_head(missing_file_message(&req.target_path));
            (DownloadState::Finished, DownloadAction::SendErrorHead(head))
        },
        (DownloadState::CheckingPath, DownloadEvent::PathExists(true)) => (
            DownloadState::Opening,
            DownloadAction::OpenFile,
        ),
        (DownloadState::Opening, DownloadEvent::OpenResult(Err(e))) => {
            let head = error_head(open_failed_message(&e));
            (DownloadState::Finished, DownloadAction::SendErrorHead(head))
        },
        (DownloadState::Opening, DownloadEvent::OpenResult(Ok(size))) => {
            let head = download_head(req);
            (DownloadState::AwaitingHeadAck(size), DownloadAction::SendSuccessHead(head))
        },
        (DownloadState::AwaitingHeadAck(size), DownloadEvent::HeadAck(ok)) => {
            if !ok {
                (DownloadState::Finished, DownloadAction::Stop)
            } else {
                match RangeWindow::new(req.range_start, req.range_end, size) {
                    Ok(w) => {
                        let cap = buffer_capacity(req.range_start, req.range_end);
                        (DownloadState::Streaming, DownloadAction::StreamWindow(w, cap))
                    },
                    Err(e) => (DownloadState::Finished, DownloadAction::WarnInvalidWindow(e)),
                }
            }
        },
        (DownloadState::Streaming, DownloadEvent::StreamEnd(n)) => {
            if n == req.range_end - req.range_start {
                (DownloadState::Finished, DownloadAction::Stop)
            } else {
                (DownloadState::Finished, DownloadAction::WarnMismatch(n))
            }
        },
        _ => (DownloadState::Finished, DownloadAction::Stop),
    }
}

/// A missing target path is answered with an error head whose message
/// names the path, the download ends there, and — the finished state being
/// terminal — no event can make it stream a byte afterwards.
pub proof fn lemma_missing_path_streams_nothing(req: RouteRequestHeadV)
    ensures
        spec_download_step(req, DownloadState::CheckingPath, DownloadEventV::PathExists(false))
            == (
            DownloadState::Finished,
            DownloadActionV::SendErrorHead(spec_error_head("file not exists: "@ + req.target_path)),
        ),
        forall|event: DownloadEventV|
            spec_download_step(req, DownloadState::Finished, event) == (
                DownloadState::Finished,
                DownloadActionV::Stop,
            ),
{
}

} // verus!
