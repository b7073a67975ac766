use vrcbadge_core::touch::{
    remap_touch, AddressScan, InputDispatcher, PointerEvent, PollResult, Position, TouchState,
    TOUCH_ADDR_PRIMARY, TOUCH_ADDR_SECONDARY,
};

fn sample(x: u32, y: u32) -> PollResult {
    PollResult::Sample { position: Position { x, y } }
}

/// The documented scenario: press, move, then lift, with the release pair
/// at the last known position.
#[test]
fn press_move_release_sequence() {
    let mut d = InputDispatcher::new();

    let ev = d.dispatch(sample(5, 5));
    assert_eq!(ev, vec![PointerEvent::Pressed { position: Position { x: 5, y: 5 } }]);

    let ev = d.dispatch(sample(6, 5));
    assert_eq!(ev, vec![PointerEvent::Moved { position: Position { x: 6, y: 5 } }]);

    let ev = d.dispatch(PollResult::Empty);
    assert_eq!(
        ev,
        vec![
            PointerEvent::Released { position: Position { x: 6, y: 5 } },
            PointerEvent::Exited,
        ]
    );
    assert_eq!(d.state(), TouchState::Released);
}

/// Two samples in a row never press twice; two lifts in a row never release
/// twice.
#[test]
fn transitions_strictly_alternate() {
    let mut d = InputDispatcher::new();

    let ev = d.dispatch(sample(1, 1));
    assert!(matches!(ev[0], PointerEvent::Pressed { .. }));
    let ev = d.dispatch(sample(2, 2));
    assert!(matches!(ev[0], PointerEvent::Moved { .. }));

    let ev = d.dispatch(PollResult::Empty);
    assert!(matches!(ev[0], PointerEvent::Released { .. }));
    let ev = d.dispatch(PollResult::Empty);
    assert!(ev.is_empty());

    let ev = d.dispatch(sample(3, 3));
    assert!(matches!(ev[0], PointerEvent::Pressed { .. }));
}

#[test]
fn not_ready_and_errors_leave_the_state_alone() {
    let mut d = InputDispatcher::new();
    d.dispatch(sample(10, 10));
    assert_eq!(d.state(), TouchState::Pressed);

    let ev = d.dispatch(PollResult::NotReady);
    assert!(ev.is_empty());
    assert_eq!(d.state(), TouchState::Pressed);

    let ev = d.dispatch(PollResult::BusError);
    assert!(ev.is_empty());
    assert_eq!(d.state(), TouchState::Pressed);

    assert_eq!(d.poll_count(), 3);
    assert_eq!(d.touch_count(), 1);
    assert_eq!(d.not_ready_count(), 1);
    assert_eq!(d.error_count(), 1);
}

#[test]
fn released_stays_released_on_empty_poll() {
    let mut d = InputDispatcher::new();
    let ev = d.dispatch(PollResult::Empty);
    assert!(ev.is_empty());
    assert_eq!(d.state(), TouchState::Released);
}

/// Raw portrait coordinates swap into landscape, one axis inverted.
#[test]
fn remap_swaps_and_inverts_axes() {
    assert_eq!(remap_touch(5, 5), Position { x: 5, y: 314 });
    assert_eq!(remap_touch(0, 0), Position { x: 0, y: 319 });
    assert_eq!(remap_touch(319, 479), Position { x: 479, y: 0 });
}

/// Out-of-range raw readings clamp into the display.
#[test]
fn remap_clamps_to_display_bounds() {
    let p = remap_touch(400, 500);
    assert_eq!(p, Position { x: 479, y: 0 });
    let p = remap_touch(65535, 65535);
    assert!(p.x < 480 && p.y < 320);
}

/// The bring-up scenario: the primary address fails, the secondary answers,
/// and the scan binds to the secondary without a fatal error.
#[test]
fn secondary_address_rescues_bring_up() {
    let mut scan = AddressScan::new();
    assert_eq!(scan.candidate(), Some(TOUCH_ADDR_PRIMARY));
    scan.record_failure();
    assert_eq!(scan.candidate(), Some(TOUCH_ADDR_SECONDARY));
    scan.record_success();
    assert_eq!(scan.candidate(), None);
    assert_eq!(scan.resolved_address(), Some(0x14));
    assert!(!scan.exhausted());
}

#[test]
fn primary_address_wins_when_it_answers() {
    let mut scan = AddressScan::new();
    assert_eq!(scan.candidate(), Some(0x5D));
    scan.record_success();
    assert_eq!(scan.resolved_address(), Some(0x5D));
    assert!(!scan.exhausted());
}

/// Both addresses failing is the fatal bring-up outcome.
#[test]
fn exhausted_scan_is_fatal() {
    let mut scan = AddressScan::new();
    scan.record_failure();
    scan.record_failure();
    assert_eq!(scan.candidate(), None);
    assert_eq!(scan.resolved_address(), None);
    assert!(scan.exhausted());
}
