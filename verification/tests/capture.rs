use clear_view::capture::{
    capture_action, read_staging, recovery, rows_are_readable, Acquisition, CaptureAction,
    CaptureStep, Capturer, Recovery, DXGI_ERROR_ACCESS_LOST, DXGI_ERROR_DEVICE_REMOVED, DXGI_ERROR_WAIT_TIMEOUT,
};

fn capturer() -> Capturer {
    Capturer { width: 2, height: 3, output_idx: 4 }
}

/// Three rows of ten bytes, each byte telling its row and column.
fn padded() -> Vec<u8> {
    let mut bytes = Vec::new();
    for row in 0..3u8 {
        for col in 0..10u8 {
            bytes.push(row * 16 + col);
        }
    }
    bytes
}

#[test]
fn padding_is_cut_off() {
    let mut expected = Vec::new();
    for row in 0..3u8 {
        for col in 0..8u8 {
            expected.push(row * 16 + col);
        }
    }
    assert_eq!(read_staging(&padded(), 10, 2, 3), expected);
}

#[test]
fn rows_without_padding_are_copied() {
    let bytes: Vec<u8> = (0..24).collect();
    assert_eq!(read_staging(&bytes, 8, 2, 3), bytes);
}

#[test]
fn empty_pictures_have_no_bytes() {
    assert_eq!(read_staging(&[], 0, 2, 0), Vec::<u8>::new());
    assert_eq!(read_staging(&[1, 2, 3], 1, 0, 3), Vec::<u8>::new());
}

#[test]
fn pixels_stay_where_they_are() {
    let frame = match capturer().next_frame(Acquisition::Mapped { row_pitch: 10, bytes: &padded() }) {
        Ok(Some(frame)) => frame,
        _ => panic!("no frame"),
    };
    assert_eq!(frame.data.len(), 2 * 3 * 4);
    assert_eq!((frame.width, frame.height), (2, 3));
    for y in 0..3usize {
        for x in 0..2usize {
            let at = (y * 2 + x) * 4;
            let from = y * 10 + x * 4;
            assert_eq!(frame.data[at..at + 4], padded()[from..from + 4]);
        }
    }
}

#[test]
fn unreadable_rows_are_recognised() {
    assert!(rows_are_readable(&padded(), 10, 2, 3));
    assert!(!rows_are_readable(&padded(), 10, 3, 3));
    assert!(!rows_are_readable(&padded(), 9, 2, 3));
    assert!(rows_are_readable(&[], 4, 100, 0));
}

#[test]
fn timeout_is_no_frame_and_other_errors_are_errors() {
    assert!(matches!(
        capturer().next_frame(Acquisition::Failed(DXGI_ERROR_WAIT_TIMEOUT)),
        Ok(None)
    ));
    assert!(matches!(
        capturer().next_frame(Acquisition::Failed(DXGI_ERROR_ACCESS_LOST)),
        Err(DXGI_ERROR_ACCESS_LOST)
    ));
    assert!(matches!(
        capturer().next_frame(Acquisition::Lost(DXGI_ERROR_WAIT_TIMEOUT)),
        Err(DXGI_ERROR_WAIT_TIMEOUT)
    ));
    assert!(matches!(capturer().next_frame(Acquisition::Lost(-5)), Err(-5)));
}

#[test]
fn errors_are_recovered_from() {
    assert_eq!(recovery(DXGI_ERROR_WAIT_TIMEOUT), Recovery::Retry);
    assert_eq!(recovery(DXGI_ERROR_ACCESS_LOST), Recovery::RecreateDuplication);
    assert_eq!(recovery(DXGI_ERROR_DEVICE_REMOVED), Recovery::RecreateDevice);
    assert_eq!(recovery(-1), Recovery::RecreateDuplication);
}

#[test]
fn captures_are_opened() {
    assert_eq!(Capturer::new(Ok((5, 6))), Ok(Capturer { width: 5, height: 6, output_idx: 0 }));
    assert_eq!(
        Capturer::new_for_output(2, Ok((5, 6))),
        Ok(Capturer { width: 5, height: 6, output_idx: 2 })
    );
    assert_eq!(Capturer::new(Err(-7)), Err(-7));
    assert_eq!(Capturer::new_for_output(2, Err(-7)), Err(-7));
}

#[test]
fn a_failed_switch_changes_nothing() {
    let mut c = capturer();
    assert_eq!(c.switch_wanted(4), None);
    assert_eq!(c.switch_wanted(1), Some(1));
    assert_eq!(c.switch_output(1, Err(-3)), Err(-3));
    assert_eq!(c, capturer());
    assert_eq!(c.switch_output(1, Ok((7, 8))), Ok(()));
    assert_eq!(c, Capturer { width: 7, height: 8, output_idx: 1 });
    assert_eq!(c.switch_wanted(1), None);
}

#[test]
fn reconnecting_keeps_the_monitor() {
    let mut c = capturer();
    assert_eq!(c.reconnect(Err(-3)), Err(-3));
    assert_eq!(c, capturer());
    assert_eq!(c.reconnect(Ok((9, 9))), Ok(()));
    assert_eq!(c, Capturer { width: 9, height: 9, output_idx: 4 });
}

#[test]
fn outcomes_lead_to_actions() {
    let frame = capturer().next_frame(Acquisition::Mapped { row_pitch: 10, bytes: &padded() });
    assert_eq!(capture_action(&frame), CaptureAction::Publish);
    assert_eq!(capture_action(&Ok(None)), CaptureAction::Wait);
    assert_eq!(capture_action(&Err(-3)), CaptureAction::Reconnect);
}

#[test]
fn the_capture_thread_stops_only_where_opening_fails() {
    let wait = CaptureAction::Wait;
    for step in [CaptureStep::Open, CaptureStep::Reconnect] {
        assert_eq!(step.next(true, wait), CaptureStep::Switch);
        assert_eq!(step.next(false, wait), CaptureStep::Stopped);
    }
    assert_eq!(CaptureStep::Switch.next(true, wait), CaptureStep::Acquire);
    assert_eq!(CaptureStep::Switch.next(false, wait), CaptureStep::Acquire);
    assert_eq!(CaptureStep::Acquire.next(true, wait), CaptureStep::Switch);
    assert_eq!(CaptureStep::Acquire.next(true, CaptureAction::Publish), CaptureStep::Switch);
    assert_eq!(CaptureStep::Acquire.next(true, CaptureAction::Reconnect), CaptureStep::Reconnect);
    assert_eq!(CaptureStep::Stopped.next(true, wait), CaptureStep::Stopped);
}
