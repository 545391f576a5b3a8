use clear_view::capture::{
    DXGI_ERROR_ACCESS_LOST, DXGI_ERROR_DEVICE_REMOVED, DXGI_ERROR_WAIT_TIMEOUT,
};
use clear_view::inbox::Inbox;
use clear_view::renderer::{present_recovery, LatestFrame, PresentRecovery, Round};

#[test]
fn draining_keeps_the_freshest() {
    let (tx, rx) = crossbeam_channel::unbounded::<u32>();
    let left = rx.clone();
    let mut rx = Inbox::new(rx);
    let mut latest: LatestFrame<u32> = LatestFrame::new();
    assert_eq!(latest.drain(&mut rx), 0);
    assert_eq!(latest.texture, None);
    tx.send(1).unwrap();
    tx.send(2).unwrap();
    tx.send(3).unwrap();
    assert_eq!(latest.drain(&mut rx), 3);
    assert!(left.is_empty());
    assert_eq!(latest.texture, Some(3));
    assert_eq!(latest.drain(&mut rx), 0);
    assert_eq!(latest.texture, Some(3));
}

#[test]
fn a_closed_channel_is_drained_too() {
    let (tx, rx) = crossbeam_channel::bounded::<u32>(2);
    tx.send(9).unwrap();
    drop(tx);
    let mut rx = Inbox::new(rx);
    let mut latest: LatestFrame<u32> = LatestFrame::new();
    assert_eq!(latest.drain(&mut rx), 1);
    assert_eq!(latest.drain(&mut rx), 0);
    assert_eq!(latest.texture, Some(9));
}

#[test]
fn a_view_is_made_once_per_texture() {
    let mut latest: LatestFrame<u32> = LatestFrame::new();
    assert_eq!(latest.begin_round(true), Round::Draw { make_view: false });
    latest.receive(1);
    assert_eq!(latest.begin_round(true), Round::Draw { make_view: true });
    latest.view_made();
    assert_eq!(latest.begin_round(true), Round::Draw { make_view: false });
    latest.receive(2);
    assert_eq!(latest.begin_round(true), Round::Draw { make_view: true });
    assert_eq!(latest.begin_round(false), Round::Clear);
}

#[test]
fn without_a_new_texture_the_old_view_is_drawn_again() {
    let (tx, rx) = crossbeam_channel::unbounded::<u32>();
    let mut rx = Inbox::new(rx);
    let mut latest: LatestFrame<u32> = LatestFrame::new();
    tx.send(1).unwrap();
    tx.send(2).unwrap();
    latest.drain(&mut rx);
    assert_eq!(latest.begin_round(true), Round::Draw { make_view: true });
    latest.view_made();
    assert_eq!(latest.drain(&mut rx), 0);
    assert_eq!(latest.texture, Some(2));
    assert_eq!(latest.begin_round(true), Round::Draw { make_view: false });
}

#[test]
fn a_failed_presentation_is_recovered_from() {
    assert_eq!(present_recovery(DXGI_ERROR_DEVICE_REMOVED), PresentRecovery::AwaitDevice);
    assert_eq!(present_recovery(DXGI_ERROR_ACCESS_LOST), PresentRecovery::RecreateSwapChain);
    assert_eq!(present_recovery(DXGI_ERROR_WAIT_TIMEOUT), PresentRecovery::RecreateSwapChain);
    assert_eq!(present_recovery(-1), PresentRecovery::RecreateSwapChain);
}
