use app_shell::event::{EventResult, UserEvent};
use app_shell::input::{on_device_event, on_user_event, DeviceInput};
use app_shell::scheduler::{Directive, RedrawCheck, RepaintScheduler};

#[test]
fn earliest_repaint_request_wins() {
    let mut s = RepaintScheduler::new();
    let d: Directive<()> = s.handle_event_result(Ok(EventResult::RepaintAt(100)), 10, false, true);
    assert_eq!(d, Directive::Proceed);
    s.handle_event_result::<()>(Ok(EventResult::RepaintAt(200)), 20, false, true);
    assert_eq!(s.next_repaint_time(), Some(100));

    let mut s = RepaintScheduler::new();
    s.handle_event_result::<()>(Ok(EventResult::RepaintAt(200)), 10, false, true);
    s.handle_event_result::<()>(Ok(EventResult::RepaintAt(100)), 20, false, true);
    assert_eq!(s.next_repaint_time(), Some(100));
}

#[test]
fn repaint_next_then_tick_redraws_once() {
    let mut s = RepaintScheduler::new();
    assert_eq!(s.next_repaint_time(), None);
    let d: Directive<()> = s.handle_event_result(Ok(EventResult::RepaintNext), 1_000, false, true);
    assert_eq!(d, Directive::Proceed);
    assert_eq!(s.next_repaint_time(), Some(1_000));
    assert_eq!(s.check_redraw_requests(1_500), RedrawCheck::Redraw);
    assert_eq!(s.next_repaint_time(), None);
    assert_eq!(s.check_redraw_requests(2_000), RedrawCheck::Idle);
}

#[test]
fn future_deadline_is_waited_for() {
    let mut s = RepaintScheduler::new();
    s.handle_event_result::<()>(Ok(EventResult::RepaintAt(5_000)), 1_000, false, true);
    assert_eq!(s.check_redraw_requests(4_999), RedrawCheck::WaitUntil(5_000));
    assert_eq!(s.next_repaint_time(), Some(5_000));
    assert_eq!(s.check_redraw_requests(5_000), RedrawCheck::Redraw);
    assert_eq!(s.next_repaint_time(), None);
}

#[test]
fn repaint_next_overrides_later_deadline() {
    let mut s = RepaintScheduler::new();
    s.handle_event_result::<()>(Ok(EventResult::RepaintAt(9_000)), 1_000, false, true);
    s.handle_event_result::<()>(Ok(EventResult::RepaintNext), 2_000, false, true);
    assert_eq!(s.next_repaint_time(), Some(2_000));
}

#[test]
fn repaint_now_paints_inline_or_schedules() {
    let mut s = RepaintScheduler::new();
    let d: Directive<()> = s.handle_event_result(Ok(EventResult::RepaintNow), 300, true, true);
    assert_eq!(d, Directive::PaintInline);
    assert_eq!(s.next_repaint_time(), None);
    let d: Directive<()> = s.handle_event_result(Ok(EventResult::RepaintNow), 300, true, false);
    assert_eq!(d, Directive::Wait);
    assert_eq!(s.next_repaint_time(), None);
    let d: Directive<()> = s.handle_event_result(Ok(EventResult::RepaintNow), 300, false, true);
    assert_eq!(d, Directive::Proceed);
    assert_eq!(s.next_repaint_time(), Some(300));
}

#[test]
fn wait_exit_and_failure_directives() {
    let mut s = RepaintScheduler::new();
    s.handle_event_result::<()>(Ok(EventResult::RepaintAt(70)), 0, false, true);
    let d: Directive<()> = s.handle_event_result(Ok(EventResult::Wait), 10, false, true);
    assert_eq!(d, Directive::Wait);
    let d: Directive<()> = s.handle_event_result(Ok(EventResult::Exit), 10, false, true);
    assert_eq!(d, Directive::Exit);
    let d = s.handle_event_result(Err("surface lost"), 10, false, true);
    assert_eq!(d, Directive::Fail("surface lost"));
    assert_eq!(s.next_repaint_time(), Some(70));
}

#[test]
fn stale_repaint_request_is_ignored() {
    let req = |nr: u64| UserEvent::RequestRepaint { when: 42, cumulative_pass_nr: nr };
    assert_eq!(on_user_event(req(3), 5), EventResult::Wait);
    assert_eq!(on_user_event(req(0), 5), EventResult::Wait);
    assert_eq!(on_user_event(req(4), 5), EventResult::RepaintAt(42));
    assert_eq!(on_user_event(req(5), 5), EventResult::RepaintAt(42));
    assert_eq!(on_user_event(req(6), 5), EventResult::Wait);
    assert_eq!(on_user_event(req(u64::MAX), u64::MAX), EventResult::RepaintAt(42));
    assert_eq!(on_user_event(req(u64::MAX), 0), EventResult::Wait);

    let mut s = RepaintScheduler::new();
    let r = on_user_event(req(1), 9);
    s.handle_event_result::<()>(Ok(r), 0, false, true);
    assert_eq!(s.next_repaint_time(), None);
}

#[test]
fn only_mouse_motion_repaints() {
    assert_eq!(on_device_event(DeviceInput::MouseMotion), EventResult::RepaintNext);
    assert_eq!(on_device_event(DeviceInput::Other), EventResult::Wait);
}
