use clear_view::capture::{
    DXGI_ERROR_ACCESS_LOST, DXGI_ERROR_DEVICE_REMOVED, DXGI_ERROR_WAIT_TIMEOUT,
};
use clear_view::duplication::{LoopStep, Outcome, PAUSE_MS};

#[test]
fn a_frame_is_published_and_given_back() {
    assert_eq!(LoopStep::first(true), LoopStep::Open);
    assert_eq!(LoopStep::Open.next(true, Outcome::Done), LoopStep::Acquire);
    assert_eq!(LoopStep::Acquire.next(true, Outcome::Done), LoopStep::Publish);
    assert_eq!(LoopStep::Publish.next(true, Outcome::Done), LoopStep::Release);
    assert_eq!(LoopStep::Release.next(true, Outcome::Done), LoopStep::Acquire);
    assert_eq!(LoopStep::Acquire.next(true, Outcome::Empty), LoopStep::Release);
}

#[test]
fn each_error_has_its_answer() {
    let fails = |code: i32| LoopStep::Acquire.next(true, Outcome::Failed(code));
    assert_eq!(fails(DXGI_ERROR_WAIT_TIMEOUT), LoopStep::Acquire);
    assert_eq!(fails(DXGI_ERROR_ACCESS_LOST), LoopStep::Pause { renew: false });
    assert_eq!(fails(-1), LoopStep::Pause { renew: false });
    assert_eq!(fails(DXGI_ERROR_DEVICE_REMOVED), LoopStep::Pause { renew: true });
    assert_eq!(PAUSE_MS, 200);
    let renew = LoopStep::Pause { renew: true };
    assert_eq!(renew.next(true, Outcome::Done), LoopStep::RenewDevice);
    assert_eq!(LoopStep::Pause { renew: false }.next(true, Outcome::Done), LoopStep::Open);
    assert_eq!(LoopStep::RenewDevice.next(true, Outcome::Done), LoopStep::Open);
    assert_eq!(LoopStep::RenewDevice.next(true, Outcome::Failed(-1)), renew);
    for step in [LoopStep::Open, LoopStep::Publish, LoopStep::Release] {
        assert_eq!(step.next(true, Outcome::Failed(-1)), LoopStep::Pause { renew: false });
        assert_eq!(step.next(true, Outcome::Failed(DXGI_ERROR_DEVICE_REMOVED)), renew);
        // Only waiting for a frame can be repeated as it is.
        assert_eq!(
            step.next(true, Outcome::Failed(DXGI_ERROR_WAIT_TIMEOUT)),
            LoopStep::Pause { renew: false }
        );
    }
}

#[test]
fn the_loop_stops_when_the_program_does() {
    assert_eq!(LoopStep::first(false), LoopStep::Stopped);
    assert_eq!(LoopStep::Open.next(false, Outcome::Done), LoopStep::Stopped);
    assert_eq!(LoopStep::Release.next(false, Outcome::Done), LoopStep::Stopped);
    assert_eq!(
        LoopStep::Acquire.next(false, Outcome::Failed(DXGI_ERROR_WAIT_TIMEOUT)),
        LoopStep::Stopped
    );
    assert_eq!(LoopStep::Pause { renew: true }.next(false, Outcome::Done), LoopStep::Stopped);
    // A frame that came is still published and given back.
    assert_eq!(LoopStep::Acquire.next(false, Outcome::Done), LoopStep::Publish);
    assert_eq!(LoopStep::Publish.next(false, Outcome::Done), LoopStep::Release);
    assert_eq!(LoopStep::Stopped.next(true, Outcome::Done), LoopStep::Stopped);
}
