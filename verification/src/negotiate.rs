//! Content Negotiator: the strict clipboard priority cascade — files, then
//! text, then image, then a single "nothing copied" error — as a step
//! machine. The surrounding process performs the I/O each action asks for
//! and feeds the outcome back as the next event.

use crate::clip_image::{RawImage, RawImageV};
use crate::protocol::{
    entries_view, error_head, spec_error_head, FileEntry, FileEntryV, PayloadKind,
    RouteResponseHead, RouteResponseHeadV, StatusCode,
};
use vstd::prelude::*;

verus! {

/// Result of one metadata lookup on a selected path: its size, or nothing
/// when the lookup failed.
#[derive(Debug)]
pub struct FileStat {
    pub path: String,
    pub size: Option<u64>,
}

/// Mathematical model of a `FileStat`.
#[verifier::ext_equal]
pub struct FileStatV {
    pub path: Seq<char>,
    pub size: Option<u64>,
}

impl View for FileStat {
    type V = FileStatV;

    open spec fn view(&self) -> FileStatV {
        FileStatV { path: self.path@, size: self.size }
    }
}

/// Model of a selection snapshot with its stat results.
pub open spec fn stats_view(s: Seq<FileStat>) -> Seq<FileStatV> {
    s.map_values(|f: FileStat| f@)
}

/// The entries kept from a selection snapshot: every path whose metadata
/// lookup succeeded, with its size, in snapshot order; failed lookups are
/// dropped and abort nothing.
pub open spec fn entries_of(stats: Seq<FileStatV>) -> Seq<FileEntryV>
    decreases stats.len(),
{
    if stats.len() == 0 {
        Seq::empty()
    } else {
        let prefix = entries_of(stats.drop_last());
        match stats.last().size {
            Some(sz) => prefix.push(FileEntryV { path: stats.last().path, size: sz }),
            None => prefix,
        }
    }
}

/// The fixed human-readable message sent when nothing has been copied.
pub open spec fn nothing_copied_text() -> Seq<char> {
    "no content has been copied"@
}

/// Model of the `Files` response head: success, kind `Files`, declared
/// length 0 (the sizes travel in the entries), and the stat survivors.
pub open spec fn spec_files_head(stats: Seq<FileStatV>) -> RouteResponseHeadV {
    RouteResponseHeadV {
        status_code: StatusCode::Success,
        message: "copy success"@,
        payload_kind: PayloadKind::Files,
        declared_length: 0,
        file_entries: entries_of(stats),
    }
}

/// Where the negotiator stands between two events.
#[derive(Clone, Copy, PartialEq, Eq, Structural, Debug)]
pub enum CopyState {
    Starting,
    SelectionRequested,
    AwaitingFilesAck,
    TextRequested,
    ImageRequested,
    Finished,
}

/// What the surrounding process reports back to the negotiator.
pub enum CopyEvent {
    /// A copy request arrived.
    Begin,
    /// The selection snapshot, one stat result per selected path.
    SelectionRead(Vec<FileStat>),
    /// The clipboard text, or nothing when empty or inaccessible.
    TextRead(Option<String>),
    /// The clipboard pixel buffer, or nothing when empty or inaccessible.
    ImageRead(Option<RawImage>),
    /// Whether the `Files` head reached the peer.
    HeadAck(bool),
}

/// Mathematical model of a `CopyEvent`.
pub enum CopyEventV {
    Begin,
    SelectionRead(Seq<FileStatV>),
    TextRead(Option<Seq<char>>),
    ImageRead(Option<RawImageV>),
    HeadAck(bool),
}

impl View for CopyEvent {
    type V = CopyEventV;

    open spec fn view(&self) -> CopyEventV {
        match self {
            CopyEvent::Begin => CopyEventV::Begin,
            CopyEvent::SelectionRead(stats) => CopyEventV::SelectionRead(stats_view(stats@)),
            CopyEvent::TextRead(t) => CopyEventV::TextRead(
                match t {
                    Some(s) => Some(s@),
                    None => None,
                },
            ),
            CopyEvent::ImageRead(i) => CopyEventV::ImageRead(
                match i {
                    Some(img) => Some(img@),
                    None => None,
                },
            ),
            CopyEvent::HeadAck(ok) => CopyEventV::HeadAck(*ok),
        }
    }
}

/// What the surrounding process must do next.
pub enum CopyAction {
    /// Snapshot the shared selection state and stat each path.
    ReadSelection,
    /// Read the clipboard text.
    ReadClipboardText,
    /// Read the clipboard pixel buffer.
    ReadClipboardImage,
    /// Send this `Files` head, then report `HeadAck` with the write's outcome.
    SendFilesHead(RouteResponseHead),
    /// Send a `Text` response: empty logical filename, body the UTF-8 bytes
    /// of this text.
    SendTextBody(String),
    /// Encode this pixel buffer (`clip_image_message`) and send a `ClipImage`
    /// response with the produced filename and body.
    EncodeImage(RawImage),
    /// Emit the one-shot "selection consumed" signal.
    FireConsumedSignal,
    /// Send this error head; the cascade found nothing to share.
    SendNothingError(RouteResponseHead),
    /// Nothing further; the negotiation is over.
    Stop,
}

/// Mathematical model of a `CopyAction`.
pub enum CopyActionV {
    ReadSelection,
    ReadClipboardText,
    ReadClipboardImage,
    SendFilesHead(RouteResponseHeadV),
    SendTextBody(Seq<char>),
    EncodeImage(RawImageV),
    FireConsumedSignal,
    SendNothingError(RouteResponseHeadV),
    Stop,
}

impl View for CopyAction {
    type V = CopyActionV;

    open spec fn view(&self) -> CopyActionV {
        match self {
            CopyAction::ReadSelection => CopyActionV::ReadSelection,
            CopyAction::ReadClipboardText => CopyActionV::ReadClipboardText,
            CopyAction::ReadClipboardImage => CopyActionV::ReadClipboardImage,
            CopyAction::SendFilesHead(h) => CopyActionV::SendFilesHead(h@),
            CopyAction::SendTextBody(t) => CopyActionV::SendTextBody(t@),
            CopyAction::EncodeImage(img) => CopyActionV::EncodeImage(img@),
            CopyAction::FireConsumedSignal => CopyActionV::FireConsumedSignal,
            CopyAction::SendNothingError(h) => CopyActionV::SendNothingError(h@),
            CopyAction::Stop => CopyActionV::Stop,
        }
    }
}

/// The negotiation cascade, one transition per event.
///
/// A non-empty selection commits to `Files` at once — the clipboard is never
/// consulted — and only a delivered `Files` head fires the consumed signal.
/// An empty selection falls through to text, an unavailable text to the
/// image, an unavailable image to the single "nothing copied" error.
/// A mismatched state and event end the negotiation with no action.
pub open spec fn spec_copy_step(state: CopyState, event: CopyEventV) -> (CopyState, CopyActionV) {
    match (state, event) {
        (CopyState::Starting, CopyEventV::Begin) => (
            CopyState::SelectionRequested,
            CopyActionV::ReadSelection,
        ),
        (CopyState::SelectionRequested, CopyEventV::SelectionRead(stats)) => {
            if stats.len() > 0 {
                (CopyState::AwaitingFilesAck, CopyActionV::SendFilesHead(spec_files_head(stats)))
            } else {
                (CopyState::TextRequested, CopyActionV::ReadClipboardText)
            }
        },
        (CopyState::AwaitingFilesAck, CopyEventV::HeadAck(ok)) => {
            if ok {
                (CopyState::Finished, CopyActionV::FireConsumedSignal)
            } else {
                (CopyState::Finished, CopyActionV::Stop)
            }
        },
        (CopyState::TextRequested, CopyEventV::TextRead(Some(t))) => (
            CopyState::Finished,
            CopyActionV::SendTextBody(t),
        ),
        (CopyState::TextRequested, CopyEventV::TextRead(None)) => (
            CopyState::ImageRequested,
            CopyActionV::ReadClipboardImage,
        ),
        (CopyState::ImageRequested, CopyEventV::ImageRead(Some(img))) => (
            CopyState::Finished,
            CopyActionV::EncodeImage(img),
        ),
        (CopyState::ImageRequested, CopyEventV::ImageRead(None)) => (
            CopyState::Finished,
            CopyActionV::SendNothingError(spec_error_head(nothing_copied_text())),
        ),
        _ => (CopyState::Finished, CopyActionV::Stop),
    }
}

/// Keep every stat survivor of a selection snapshot, in order.
pub fn collect_file_entries(stats: &Vec<FileStat>) -> (entries: Vec<FileEntry>)
    ensures
        entries_view(entries@) == entries_of(stats_view(stats@)),
{
    let ghost all = stats_view(stats@);
    let mut entries: Vec<FileEntry> = Vec::new();
    let mut i: usize = 0;
    proof {
        assert(entries_view(entries@) =~= entries_of(all.take(0)));
    }
    while i < stats.len()
        invariant
            i <= stats@.len(),
            all == stats_view(stats@),
            entries_view(entries@) == entries_of(all.take(i as int)),
        decreases stats@.len() - i,
    {
        let ghost pre = entries_view(entries@);
        let st = &stats[i];
        match st.size {
            Some(sz) => {
                let entry = FileEntry { path: st.path.clone(), size: sz };
                proof {
                    assert(entry@ == (FileEntryV { path: st.path@, size: sz }));
                }
                entries.push(entry);
                proof {
                    assert(entries_view(entries@) =~= pre.push(entry@));
                }
            },
            None => {},
        }
        i += 1;
        proof {
            assert(all.take(i as int).drop_last() =~= all.take(i as int - 1));
            assert(all.take(i as int).last() == stats@[i as int - 1]@);
            assert(entries_view(entries@) =~= entries_of(all.take(i as int)));
        }
    }
    proof {
        assert(all.take(stats@.len() as int) =~= all);
    }
    entries
}

/// Build the `Files` response head for a selection snapshot.
pub fn files_head(stats: &Vec<FileStat>) -> (h: RouteResponseHead)
    ensures
        h@ == spec_files_head(stats_view(stats@)),
{
    let entries = collect_file_entries(stats);
    let h = RouteResponseHead {
        status_code: StatusCode::Success,
        message: String::from_str("copy success"),
        payload_kind: PayloadKind::Files,
        declared_length: 0,
        file_entries: entries,
    };
    proof {
        assert(h@ =~= spec_files_head(stats_view(stats@)));
    }
    h
}

/// One transition of the negotiation cascade.
pub fn copy_step(state: CopyState, event: CopyEvent) -> (r: (CopyState, CopyAction))
    ensures
        r.0 == spec_copy_step(state, event@).0,
        r.1@ == spec_copy_step(state, event@).1,
{
    match (state, event) {
        (CopyState::Starting, CopyEvent::Begin) => (
            CopyState::SelectionRequested,
            CopyAction::ReadSelection,
        ),
        (CopyState::SelectionRequested, CopyEvent::SelectionRead(stats)) => {
            if stats.len() > 0 {
                let head = files_head(&stats);
                (CopyState::AwaitingFilesAck, CopyAction::SendFilesHead(head))
            } else {
                (CopyState::TextRequested, CopyAction::ReadClipboardText)
            }
        },
        (CopyState::AwaitingFilesAck, CopyEvent::HeadAck(ok)) => {
            if ok {
                (CopyState::Finished, CopyAction::FireConsumedSignal)
            } else {
                (CopyState::Finished, CopyAction::Stop)
            }
        },
        (CopyState::TextRequested, CopyEvent::TextRead(Some(t))) => (
            CopyState::Finished,
            CopyAction::SendTextBody(t),
        ),
        (CopyState::TextRequested, CopyEvent::TextRead(None)) => (
            CopyState::ImageRequested,
            CopyAction::ReadClipboardImage,
        ),
        (CopyState::ImageRequested, CopyEvent::ImageRead(Some(img))) => (
            CopyState::Finished,
            CopyAction::EncodeImage(img),
        ),
        (CopyState::ImageRequested, CopyEvent::ImageRead(None)) => {
            let head = error_head(String::from_str("no content has been copied"));
            (CopyState::Finished, CopyAction::SendNothingError(head))
        },
        _ => (CopyState::Finished, CopyAction::Stop),
    }
}

/// Priority invariant: whenever the selection snapshot is non-empty, the
/// negotiator answers with a `Files` head — success, kind `Files`, declared
/// length 0, entries the stat survivors — and with nothing else, even when
/// every single lookup failed and the entry list comes out empty.
pub proof fn lemma_priority_invariant(stats: Seq<FileStatV>)
    requires
        stats.len() > 0,
    ensures
        ({
            let (s, a) = spec_copy_step(
                CopyState::SelectionRequested,
                CopyEventV::SelectionRead(stats),
            );
            &&& s == CopyState::AwaitingFilesAck
            &&& a == CopyActionV::SendFilesHead(spec_files_head(stats))
            &&& spec_files_head(stats).status_code == StatusCode::Success
            &&& spec_files_head(stats).payload_kind == PayloadKind::Files
            &&& spec_files_head(stats).declared_length == 0
            &&& spec_files_head(stats).file_entries == entries_of(stats)
        }),
{
}

/// Cascade completeness: with an empty selection, no clipboard text and no
/// clipboard image, the cascade walks all three steps and ends — no silent
/// hang — in exactly one error response carrying the fixed "nothing copied"
/// message.
pub proof fn lemma_cascade_completeness(stats: Seq<FileStatV>)
    requires
        stats.len() == 0,
    ensures
        ({
            let (s1, a1) = spec_copy_step(CopyState::Starting, CopyEventV::Begin);
            let (s2, a2) = spec_copy_step(s1, CopyEventV::SelectionRead(stats));
            let (s3, a3) = spec_copy_step(s2, CopyEventV::TextRead(None));
            let (s4, a4) = spec_copy_step(s3, CopyEventV::ImageRead(None));
            &&& a1 == CopyActionV::ReadSelection
            &&& a2 == CopyActionV::ReadClipboardText
            &&& a3 == CopyActionV::ReadClipboardImage
            &&& s4 == CopyState::Finished
            &&& a4 == CopyActionV::SendNothingError(spec_error_head(nothing_copied_text()))
            &&& spec_error_head(nothing_copied_text()).status_code == StatusCode::Error
        }),
{
}

/// Consumed-signal discipline: the one-shot "selection consumed" signal is
/// asked for exactly on a delivered `Files` head — never on a failed write,
/// and from no other state of the cascade.
pub proof fn lemma_consumed_signal_discipline()
    ensures
        spec_copy_step(CopyState::AwaitingFilesAck, CopyEventV::HeadAck(true)) == (
            CopyState::Finished,
            CopyActionV::FireConsumedSignal,
        ),
        spec_copy_step(
            CopyState::AwaitingFilesAck,
            CopyEventV::HeadAck(false),
        ).1 != CopyActionV::FireConsumedSignal,
        forall|state: CopyState, event: CopyEventV|
            spec_copy_step(state, event).1 is FireConsumedSignal ==> state
                is AwaitingFilesAck && event == CopyEventV::HeadAck(true),
{
}

/// A finished negotiation is terminal: no event makes it act again.
pub proof fn lemma_copy_finished_is_terminal(event: CopyEventV)
    ensures
        spec_copy_step(CopyState::Finished, event) == (CopyState::Finished, CopyActionV::Stop),
{
}

} // verus!
