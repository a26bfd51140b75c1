//! Editor-mode signature detection and the shared mode cell.

use cursor_cli_wrapper::monitor::OutputMonitor;
use cursor_cli_wrapper::state::{get_vim_mode, set_vim_mode, VimMode, VimModeCell};

fn normal_sig() -> &'static [u8] {
    b"\x1b[100mX\x1b[49m"
}

fn insert_sig() -> &'static [u8] {
    b"\x1b[7mX\x1b[27m"
}

#[test]
fn normal_then_insert_signals_twice_in_order() {
    let cell = VimModeCell::new();
    let mut m = OutputMonitor::new(0);
    assert_eq!(m.detect_vim_mode(&cell, normal_sig()), Some(VimMode::Normal));
    assert_eq!(m.detect_vim_mode(&cell, insert_sig()), Some(VimMode::Insert));
}

#[test]
fn same_signature_twice_signals_once() {
    let cell = VimModeCell::new();
    let mut m = OutputMonitor::new(0);
    assert_eq!(m.detect_vim_mode(&cell, normal_sig()), Some(VimMode::Normal));
    // The signature re-appears with every redraw; only the change signals.
    assert_eq!(m.detect_vim_mode(&cell, normal_sig()), None);
    // The shared cell still reflects the detected mode.
    assert_eq!(get_vim_mode(&cell), VimMode::Normal);
}

#[test]
fn initial_mode_is_insert_so_insert_does_not_signal() {
    let cell = VimModeCell::new();
    let mut m = OutputMonitor::new(0);
    assert_eq!(m.detect_vim_mode(&cell, insert_sig()), None);
    assert_eq!(get_vim_mode(&cell), VimMode::Insert);
}

#[test]
fn signature_inside_larger_chunk_is_found() {
    let cell = VimModeCell::new();
    let mut m = OutputMonitor::new(0);
    let chunk: &[u8] = b"redraw\x1b[2J pad \x1b[100mq\x1b[49m tail";
    assert_eq!(m.detect_vim_mode(&cell, chunk), Some(VimMode::Normal));
}

#[test]
fn arbitrary_cursor_byte_is_tolerated() {
    let cell = VimModeCell::new();
    let mut m = OutputMonitor::new(0);
    assert_eq!(m.detect_vim_mode(&cell, b"\x1b[100m~\x1b[49m"), Some(VimMode::Normal));
    assert_eq!(m.detect_vim_mode(&cell, b"\x1b[7m \x1b[27m"), Some(VimMode::Insert));
}

#[test]
fn partial_signature_is_no_signal() {
    let cell = VimModeCell::new();
    let mut m = OutputMonitor::new(0);
    // Truncated or garbled sequences simply fail to match.
    assert_eq!(m.detect_vim_mode(&cell, b"\x1b[100mX\x1b[49"), None);
    assert_eq!(m.detect_vim_mode(&cell, b"\x1b[100mXY\x1b[49m"), None);
    assert_eq!(m.detect_vim_mode(&cell, b"\x1b[7m"), None);
    assert_eq!(m.detect_vim_mode(&cell, b""), None);
}

#[test]
fn process_chunk_reports_mode_changes() {
    let cell = VimModeCell::new();
    let mut m = OutputMonitor::new(0);
    let r1 = m.process_chunk(&cell, normal_sig(), 0);
    assert_eq!(r1.vim_mode_changed, Some(VimMode::Normal));
    assert!(!r1.entered_busy);
    let r2 = m.process_chunk(&cell, normal_sig(), 100);
    assert_eq!(r2.vim_mode_changed, None);
    let r3 = m.process_chunk(&cell, insert_sig(), 200);
    assert_eq!(r3.vim_mode_changed, Some(VimMode::Insert));
}

#[test]
fn mode_cell_round_trip() {
    let cell = VimModeCell::new();
    assert_eq!(get_vim_mode(&cell), VimMode::Insert);
    set_vim_mode(&cell, VimMode::Normal);
    assert_eq!(get_vim_mode(&cell), VimMode::Normal);
    set_vim_mode(&cell, VimMode::Insert);
    assert_eq!(get_vim_mode(&cell), VimMode::Insert);
}

#[test]
fn vim_mode_names_and_decoding() {
    assert_eq!(VimMode::Insert.as_str(), "insert");
    assert_eq!(VimMode::Normal.as_str(), "normal");
    assert_eq!(VimMode::from_u8(0), VimMode::Insert);
    assert_eq!(VimMode::from_u8(1), VimMode::Normal);
    // Decoding is total: anything unexpected reads as Insert.
    assert_eq!(VimMode::from_u8(7), VimMode::Insert);
}
