use windsend::download::{
    buffer_capacity, copy_file_window, download_step, DownloadAction, DownloadEvent,
    DownloadState, RangeWindow, MAX_BUFFER_SIZE,
};
use windsend::protocol::{PayloadKind, RouteRequestHead, StatusCode};

fn request(path: &str, start: u64, end: u64) -> RouteRequestHead {
    RouteRequestHead { target_path: path.to_string(), range_start: start, range_end: end }
}

#[test]
fn missing_file_yields_an_error_naming_the_path_and_streams_nothing() {
    let req = request("/missing/path", 0, 10);
    let (state, action) =
        download_step(&req, DownloadState::CheckingPath, DownloadEvent::PathExists(false));
    assert_eq!(state, DownloadState::Finished);
    match action {
        DownloadAction::SendErrorHead(head) => {
            assert_eq!(head.status_code, StatusCode::Error);
            assert_eq!(head.message, "file not exists: /missing/path");
            assert_eq!(head.declared_length, 0);
        }
        _ => panic!("expected an error head"),
    }
}

#[test]
fn failed_open_embeds_the_reason() {
    let req = request("/a", 0, 10);
    let (state, action) = download_step(
        &req,
        DownloadState::Opening,
        DownloadEvent::OpenResult(Err("permission denied".to_string())),
    );
    assert_eq!(state, DownloadState::Finished);
    match action {
        DownloadAction::SendErrorHead(head) => {
            assert_eq!(head.status_code, StatusCode::Error);
            assert_eq!(head.message, "open file failed, err: permission denied");
        }
        _ => panic!("expected an error head"),
    }
}

#[test]
fn successful_open_declares_the_exact_byte_count() {
    let req = request("/a", 5, 25);
    let (state, action) = download_step(
        &req,
        DownloadState::CheckingPath,
        DownloadEvent::PathExists(true),
    );
    assert_eq!(state, DownloadState::Opening);
    assert!(matches!(action, DownloadAction::OpenFile));
    let (state, action) =
        download_step(&req, state, DownloadEvent::OpenResult(Ok(100)));
    assert_eq!(state, DownloadState::AwaitingHeadAck(100));
    match action {
        DownloadAction::SendSuccessHead(head) => {
            assert_eq!(head.status_code, StatusCode::Success);
            assert_eq!(head.payload_kind, PayloadKind::Binary);
            assert_eq!(head.declared_length, 20);
            assert_eq!(head.message, "start download");
            assert!(head.file_entries.is_empty());
        }
        _ => panic!("expected the Binary success head"),
    }
}

#[test]
fn delivered_head_starts_the_bounded_stream() {
    let req = request("/a", 5, 25);
    let (state, action) = download_step(
        &req,
        DownloadState::AwaitingHeadAck(100),
        DownloadEvent::HeadAck(true),
    );
    assert_eq!(state, DownloadState::Streaming);
    match action {
        DownloadAction::StreamWindow(w, cap) => {
            assert_eq!(w, RangeWindow { start: 5, end: 25, pos: 5 });
            assert_eq!(cap, 20);
        }
        _ => panic!("expected the stream to start"),
    }
}

#[test]
fn undelivered_head_aborts_silently() {
    let req = request("/a", 5, 25);
    let (state, action) = download_step(
        &req,
        DownloadState::AwaitingHeadAck(100),
        DownloadEvent::HeadAck(false),
    );
    assert_eq!(state, DownloadState::Finished);
    assert!(matches!(action, DownloadAction::Stop));
}

#[test]
fn out_of_bounds_window_warns_after_the_committed_head() {
    // The head went out already; a window past the file's end only warns
    // locally and stops — no second head reaches the peer.
    let req = request("/a", 5, 200);
    let (state, action) = download_step(
        &req,
        DownloadState::AwaitingHeadAck(100),
        DownloadEvent::HeadAck(true),
    );
    assert_eq!(state, DownloadState::Finished);
    match action {
        DownloadAction::WarnInvalidWindow(reason) => {
            assert_eq!(reason, "invalid file part range");
        }
        _ => panic!("expected the invalid-window warning"),
    }
}

#[test]
fn short_transfer_is_warned_about_full_transfer_is_not() {
    let req = request("/a", 5, 25);
    let (state, action) =
        download_step(&req, DownloadState::Streaming, DownloadEvent::StreamEnd(20));
    assert_eq!(state, DownloadState::Finished);
    assert!(matches!(action, DownloadAction::Stop));
    let (state, action) =
        download_step(&req, DownloadState::Streaming, DownloadEvent::StreamEnd(3));
    assert_eq!(state, DownloadState::Finished);
    assert!(matches!(action, DownloadAction::WarnMismatch(3)));
}

#[test]
fn window_construction_validates_the_range() {
    assert!(RangeWindow::new(3, 8, 8).is_ok());
    assert!(RangeWindow::new(0, 0, 0).is_ok());
    assert!(RangeWindow::new(3, 10, 8).is_err());
    assert!(RangeWindow::new(9, 8, 20).is_err());
}

#[test]
fn window_cursor_walks_the_range_in_bounded_chunks() {
    let mut w = RangeWindow::new(10, 30, 100).unwrap();
    assert_eq!(w.remaining(), 20);
    assert_eq!(w.next_chunk_len(7), 7);
    w.advance(7);
    w.advance(7);
    assert_eq!(w.remaining(), 6);
    assert_eq!(w.next_chunk_len(7), 6);
    w.advance(6);
    assert_eq!(w.remaining(), 0);
    assert_eq!(w.next_chunk_len(7), 0);
}

#[test]
fn buffer_capacity_is_the_window_length_capped_at_thirty_mib() {
    assert_eq!(buffer_capacity(0, 5), 5);
    assert_eq!(buffer_capacity(7, 7), 0);
    assert_eq!(buffer_capacity(10, 30), 20);
    assert_eq!(MAX_BUFFER_SIZE, 30 * 1024 * 1024);
    assert_eq!(buffer_capacity(0, MAX_BUFFER_SIZE as u64), MAX_BUFFER_SIZE);
    assert_eq!(buffer_capacity(0, MAX_BUFFER_SIZE as u64 + 1), MAX_BUFFER_SIZE);
    assert_eq!(buffer_capacity(0, u64::MAX), MAX_BUFFER_SIZE);
}

#[test]
fn range_streaming_returns_exactly_the_window() {
    let file: Vec<u8> = (0..=99).collect();
    let out = copy_file_window(&file, 10, 30, 7);
    assert_eq!(out, file[10..30].to_vec());
    let all = copy_file_window(&file, 0, 100, 30);
    assert_eq!(all, file);
    let none = copy_file_window(&file, 42, 42, 0);
    assert!(none.is_empty());
    let tail = copy_file_window(&file, 97, 100, 1024);
    assert_eq!(tail, vec![97, 98, 99]);
}
