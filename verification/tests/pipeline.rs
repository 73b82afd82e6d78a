use serial_term::guard::RawModeGuard;
use serial_term::history::HistoryBuffer;
use serial_term::ingest::{IngestAction, IngestLoop, ReadEvent};
use serial_term::keymap::{KeyCode, KeyEvent};
use serial_term::renderer::{render_tail, screen_restore, screen_setup, Renderer, RendererAction, UiEvent};
use serial_term::status::TermSize;

fn key(code: KeyCode) -> UiEvent {
    UiEvent::Key(KeyEvent::plain(code))
}

fn ctrl_key(code: KeyCode) -> UiEvent {
    UiEvent::Key(KeyEvent::with_ctrl(code))
}

#[test]
fn ingest_stores_nonempty_reads_and_asks_for_redraw() {
    let mut h = HistoryBuffer::new(4);
    let mut ingest = IngestLoop::new();
    assert_eq!(ingest.step(&mut h, ReadEvent::Data(b"abc".to_vec())), IngestAction::StoredChunk);
    assert_eq!(ingest.step(&mut h, ReadEvent::Data(b"de".to_vec())), IngestAction::StoredChunk);
    assert_eq!(h.visible_slice(4), vec![b"abc".to_vec(), b"de".to_vec()]);
}

#[test]
fn ingest_retries_silently_on_timeouts_and_empty_reads() {
    let mut h = HistoryBuffer::new(4);
    let mut ingest = IngestLoop::new();
    assert_eq!(ingest.step(&mut h, ReadEvent::Timeout), IngestAction::Retry);
    assert_eq!(ingest.step(&mut h, ReadEvent::Data(Vec::new())), IngestAction::Retry);
    assert_eq!(h.len(), 0);
}

#[test]
fn disconnect_raises_one_notice_and_freezes_the_history() {
    let mut h = HistoryBuffer::new(4);
    let mut ingest = IngestLoop::new();
    assert_eq!(ingest.step(&mut h, ReadEvent::Data(b"a".to_vec())), IngestAction::StoredChunk);
    assert_eq!(ingest.step(&mut h, ReadEvent::Disconnected), IngestAction::DeviceLost);
    // Exactly one notice: everything after the disconnect is inert.
    assert_eq!(ingest.step(&mut h, ReadEvent::Disconnected), IngestAction::Stopped);
    assert_eq!(ingest.step(&mut h, ReadEvent::Data(b"b".to_vec())), IngestAction::Stopped);
    assert_eq!(ingest.step(&mut h, ReadEvent::Timeout), IngestAction::Stopped);
    assert_eq!(h.visible_slice(4), vec![b"a".to_vec()]);
}

#[test]
fn typed_line_is_submitted_with_crlf_and_cleared() {
    let mut r = Renderer::new(TermSize(80, 24));
    r.start();
    assert_eq!(r.step(key(KeyCode::Char('h'))), RendererAction::Idle);
    assert_eq!(r.step(key(KeyCode::Char('i'))), RendererAction::Idle);
    assert_eq!(r.step(key(KeyCode::Enter)), RendererAction::SendChunk(b"hi\r\n".to_vec()));
    // The line was cleared on submit.
    assert_eq!(r.step(key(KeyCode::Enter)), RendererAction::SendChunk(b"\r\n".to_vec()));
}

#[test]
fn backspace_edits_the_pending_line() {
    let mut r = Renderer::new(TermSize(80, 24));
    r.start();
    r.step(key(KeyCode::Char('a')));
    r.step(key(KeyCode::Char('b')));
    assert_eq!(r.step(key(KeyCode::Backspace)), RendererAction::Idle);
    assert_eq!(r.step(key(KeyCode::Enter)), RendererAction::SendChunk(b"a\r\n".to_vec()));
    // Backspace on an empty line is harmless.
    assert_eq!(r.step(key(KeyCode::Backspace)), RendererAction::Idle);
    assert_eq!(r.step(key(KeyCode::Enter)), RendererAction::SendChunk(b"\r\n".to_vec()));
}

#[test]
fn special_keys_are_forwarded_at_once() {
    let mut r = Renderer::new(TermSize(80, 24));
    r.start();
    assert_eq!(r.step(key(KeyCode::Up)), RendererAction::SendChunk(b"\x1b[A".to_vec()));
    assert_eq!(r.step(key(KeyCode::Delete)), RendererAction::SendChunk(b"\x1b[3~".to_vec()));
    assert_eq!(
        r.step(ctrl_key(KeyCode::Char('d'))),
        RendererAction::SendChunk(b"\x04".to_vec())
    );
}

#[test]
fn interrupt_shuts_down_exactly_once() {
    let mut r = Renderer::new(TermSize(80, 24));
    r.start();
    assert_eq!(r.step(ctrl_key(KeyCode::Char('c'))), RendererAction::Shutdown);
    // Once shutting down, nothing is processed any more.
    assert_eq!(r.step(ctrl_key(KeyCode::Char('c'))), RendererAction::Idle);
    assert_eq!(r.step(key(KeyCode::Char('x'))), RendererAction::Idle);
    assert_eq!(r.step(UiEvent::Redraw), RendererAction::Idle);
}

#[test]
fn device_loss_shuts_the_renderer_down() {
    let mut r = Renderer::new(TermSize(80, 24));
    r.start();
    assert_eq!(r.step(UiEvent::DeviceLost), RendererAction::Shutdown);
    assert_eq!(r.step(UiEvent::DeviceLost), RendererAction::Idle);
}

#[test]
fn redraw_and_resize_demand_a_redraw() {
    let mut r = Renderer::new(TermSize(80, 24));
    r.start();
    assert_eq!(r.step(UiEvent::Redraw), RendererAction::Redraw);
    assert_eq!(r.visible_rows(), 22);
    assert_eq!(r.step(UiEvent::Resize(100, 30)), RendererAction::Redraw);
    assert_eq!(r.visible_rows(), 28);
}

#[test]
fn events_before_start_are_ignored() {
    let mut r = Renderer::new(TermSize(80, 24));
    assert_eq!(r.step(key(KeyCode::Char('x'))), RendererAction::Idle);
    assert_eq!(r.step(UiEvent::Redraw), RendererAction::Idle);
    r.start();
    assert_eq!(r.step(UiEvent::Redraw), RendererAction::Redraw);
}

#[test]
fn screen_setup_reserves_the_bar_rows() {
    let out = screen_setup(&TermSize(80, 5));
    let expected = format!("{}\x1b[1;1H\x1b[2;4r\x1b[2;1H", "\n".repeat(4));
    assert_eq!(out, expected.as_bytes().to_vec());
}

#[test]
fn screen_restore_gives_the_whole_screen_back() {
    let out = screen_restore(&TermSize(80, 5));
    let expected = "\x1b7\x1b[1;5r\x1b[1;1H\x1b[2K\x1b[5;1H\x1b[2K\x1b8\x1b[0m";
    assert_eq!(out, expected.as_bytes().to_vec());
}

#[test]
fn render_tail_terminates_each_row() {
    let rows = vec![b"one".to_vec(), b"two".to_vec()];
    assert_eq!(render_tail(&rows), b"one\r\ntwo\r\n".to_vec());
    assert_eq!(render_tail(&Vec::new()), Vec::<u8>::new());
}

#[test]
fn raw_mode_release_toggles_exactly_once() {
    let mut guard = RawModeGuard::new();
    assert!(guard.release());
    // A second release (scope exit after an explicit shutdown) demands no
    // second toggle.
    assert!(!guard.release());
}
