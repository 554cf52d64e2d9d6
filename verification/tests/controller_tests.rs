use sweetalert::ControlInfo;
use sweetalert::FireOutcome;
use sweetalert::ReopenOutcome;
use sweetalert::Swal;
use sweetalert::SwalDismissReason;
use sweetalert::SwalIcon;
use sweetalert::SwalOptions;
use sweetalert::SwalResult;
use sweetalert::Teardown;
use sweetalert::ThenCall;

fn button() -> ControlInfo {
    ControlInfo {
        interactive: true,
        disabled: false,
        aria_hidden: false,
        inert: false,
        has_tab_index: false,
        negative_tab_index: false,
        display_none: false,
    }
}

fn title_opts(title: &str) -> SwalOptions<SwalIcon> {
    SwalOptions::basic(String::from(title))
}

#[test]
fn test_is_open_before_and_after_fire() {
    let mut c = Swal::new();
    assert!(!c.is_open());
    let out = c.fire(&title_opts("Hi"), None);
    assert_eq!(out, FireOutcome::OpenedNow { instance: 1 });
    assert!(c.is_open());
}

#[test]
fn test_close_without_result_is_silent() {
    let mut c = Swal::new();
    c.fire(&title_opts("Hi"), None);
    let (closed, eff) = c.close(None, None);
    assert!(closed);
    assert_eq!(eff.invoke_then, None);
    assert!(eff.teardown.is_some());
}

#[test]
fn test_close_with_result_dispatches_exactly_once() {
    let mut c = Swal::new();
    c.fire(&title_opts("Hi"), None);
    let result = SwalResult::canceled(SwalDismissReason::Close);
    let (closed, eff) = c.close(Some(result), None);
    assert!(closed);
    assert_eq!(eff.invoke_then, Some(ThenCall { instance: 1, result }));
    // The registration is gone: nothing more is ever dispatched.
    let (_, eff) = c.close(Some(SwalResult::confirmed()), None);
    assert_eq!(eff.invoke_then, None);
}

#[test]
fn test_second_close_reports_failure() {
    let mut c = Swal::new();
    assert!(!c.close(None, None).0);
    c.fire(&title_opts("Hi"), None);
    assert!(c.close(None, None).0);
    assert!(!c.close(None, None).0);
    assert!(!c.close(Some(SwalResult::confirmed()), None).0);
    // Only a new alert makes close succeed again.
    c.detach_tick();
    c.fire(&title_opts("Again"), None);
    assert!(c.close(None, None).0);
}

#[test]
fn test_escape_blocked_without_auto_close() {
    let mut c = Swal::new();
    let opts = SwalOptions::<SwalIcon> { auto_close: false, ..SwalOptions::default() };
    c.fire(&opts, None);
    assert_eq!(c.handle_escape_key(None), None);
    assert!(c.is_open());
}

#[test]
fn test_escape_closes_with_escape_dismissal() {
    let mut c = Swal::new();
    c.fire(&title_opts("Hi"), None);
    let eff = c.handle_escape_key(None).unwrap();
    let call = eff.invoke_then.unwrap();
    assert!(call.result.is_dismissed);
    assert_eq!(call.result.dismiss, Some(SwalDismissReason::Esc));
    assert!(eff.teardown.is_some());
    assert!(!c.is_open());
}

#[test]
fn test_backdrop_click_dismisses() {
    let mut c = Swal::new();
    c.fire(&title_opts("Hi"), None);
    let eff = c.handle_backdrop_click(None).unwrap();
    let call = eff.invoke_then.unwrap();
    assert_eq!(call.result.dismiss, Some(SwalDismissReason::Backdrop));
    assert!(!c.is_open());

    let mut c = Swal::new();
    let opts = SwalOptions::<SwalIcon> { auto_close: false, ..SwalOptions::default() };
    c.fire(&opts, None);
    assert_eq!(c.handle_backdrop_click(None), None);
    assert!(c.is_open());
}

#[test]
fn test_confirm_scenario_with_mocked_transition() {
    let mut c = Swal::new();
    let out = c.fire(&title_opts("Hi"), None);
    assert_eq!(out, FireOutcome::OpenedNow { instance: 1 });
    assert!(c.is_open());

    // The visibility tick marks the popup visible and focuses the first
    // control.
    let controls = vec![button()];
    let vis = c.visible_tick(&controls);
    assert!(vis.mark_visible);
    assert_eq!(vis.focus_first, Some(0));

    // The confirm button with the default auto-close: the callback runs
    // with a confirmed result, the popup hides, and the detach is due
    // after the mocked transition duration.
    let eff = c.handle_confirm_click(Some(String::from("0.30s")));
    assert_eq!(
        eff.invoke_then,
        Some(ThenCall { instance: 1, result: SwalResult::confirmed() })
    );
    assert_eq!(
        eff.teardown,
        Some(Teardown { detach_delay_ms: 300, restore_focus: None })
    );
    assert!(!c.is_open());
    assert!(c.detach_tick());
    assert!(!c.detach_tick());
}

#[test]
fn test_confirm_blocked_without_auto_close() {
    let mut c = Swal::new();
    let opts = SwalOptions::<SwalIcon> { auto_close: false, ..SwalOptions::default() };
    c.fire(&opts, None);
    let eff = c.handle_confirm_click(None);
    assert_eq!(eff.invoke_then, None);
    assert_eq!(eff.teardown, None);
    assert!(c.is_open());
    // The pre-confirm hook of such an alert closes it programmatically,
    // which dispatches the stored callback.
    let (closed, eff) = c.close(Some(SwalResult::confirmed()), None);
    assert!(closed);
    assert_eq!(
        eff.invoke_then,
        Some(ThenCall { instance: 1, result: SwalResult::confirmed() })
    );
}

#[test]
fn test_deny_click_dispatches_denied() {
    let mut c = Swal::new();
    c.fire(&title_opts("Hi"), None);
    let eff = c.handle_deny_click(None);
    assert_eq!(eff.invoke_then, Some(ThenCall { instance: 1, result: SwalResult::denied() }));
    assert!(eff.teardown.is_some());
    assert!(!c.is_open());
}

#[test]
fn test_cancel_click_dispatches_even_without_auto_close() {
    let mut c = Swal::new();
    let opts = SwalOptions::<SwalIcon> { auto_close: false, ..SwalOptions::default() };
    c.fire(&opts, None);
    let eff = c.handle_cancel_click(None);
    let call = eff.invoke_then.unwrap();
    assert_eq!(call.result.dismiss, Some(SwalDismissReason::Cancel));
    // Without auto-close the popup stays.
    assert_eq!(eff.teardown, None);
    assert!(c.is_open());
}

#[test]
fn test_reopen_is_deferred_until_detach() {
    let mut c = Swal::new();
    let out = c.fire(&title_opts("A"), None);
    assert_eq!(out, FireOutcome::OpenedNow { instance: 1 });

    // A second fire while the first popup is on screen is queued, with a
    // wait of the closing transition plus the fixed margin.
    let out = c.fire(&title_opts("B"), Some(String::from("0.25s")));
    assert_eq!(out, FireOutcome::Deferred { instance: 2, delay_ms: 260 });
    assert!(c.is_open());

    // The first popup closes; the memoized duration drives its detach.
    let (closed, eff) = c.close(None, None);
    assert!(closed);
    assert_eq!(eff.teardown.unwrap().detach_delay_ms, 250);

    // A reopen tick while the first popup still plays its closing
    // transition arms another wait: never two popup nodes at a time.
    assert_eq!(c.reopen_tick(None), ReopenOutcome::Rearmed { delay_ms: 260 });

    // Once the old popup detached, the queued alert mounts.
    assert!(c.detach_tick());
    assert_eq!(c.reopen_tick(None), ReopenOutcome::Opened { instance: 2 });
    assert!(c.is_open());
    assert_eq!(c.reopen_tick(None), ReopenOutcome::Idle);
}

#[test]
fn test_later_fire_overwrites_queued_one() {
    let mut c = Swal::new();
    c.fire(&title_opts("A"), None);
    c.fire(&title_opts("B"), None);
    let out = c.fire(&title_opts("C"), None);
    assert_eq!(out, FireOutcome::Deferred { instance: 3, delay_ms: 10 });
    c.close(None, None);
    c.detach_tick();
    // Only the last queued alert mounts; the overwritten one is gone.
    assert_eq!(c.reopen_tick(None), ReopenOutcome::Opened { instance: 3 });
    assert_eq!(c.reopen_tick(None), ReopenOutcome::Idle);
}

#[test]
fn test_focus_restore_on_close() {
    let mut c = Swal::new();
    c.fire(&title_opts("Hi"), None);
    c.set_previously_focused_element(42);
    let (_, eff) = c.close(None, None);
    assert_eq!(eff.teardown.unwrap().restore_focus, Some(42));
    // The capture is cleared with the close.
    c.detach_tick();
    c.fire(&title_opts("Again"), None);
    let (_, eff) = c.close(None, None);
    assert_eq!(eff.teardown.unwrap().restore_focus, None);
}

#[test]
fn test_forget_previously_focused_element() {
    let mut c = Swal::new();
    c.fire(&title_opts("Hi"), None);
    c.set_previously_focused_element(7);
    c.forget_previously_focused_element();
    let (_, eff) = c.close(None, None);
    assert_eq!(eff.teardown.unwrap().restore_focus, None);
}

#[test]
fn test_visible_tick_outliving_its_popup() {
    let mut c = Swal::new();
    c.fire(&title_opts("Hi"), None);
    // The popup is closed again before the visibility tick arrives.
    c.close(None, None);
    let vis = c.visible_tick(&vec![button()]);
    assert!(!vis.mark_visible);
    assert_eq!(vis.focus_first, None);
}

#[test]
fn test_nested_alert_flow() {
    // An alert whose deny press fires a nested alert: the queued alert
    // only mounts after the outer one finished closing, and each
    // callback dispatch names its own alert.
    let mut c = Swal::new();
    c.fire(&title_opts("Outer"), None);
    let out = c.fire(&title_opts("Inner"), Some(String::from("0.1s")));
    assert_eq!(out, FireOutcome::Deferred { instance: 2, delay_ms: 110 });
    let eff = c.handle_deny_click(None);
    assert_eq!(eff.invoke_then, Some(ThenCall { instance: 1, result: SwalResult::denied() }));
    assert!(c.detach_tick());
    assert_eq!(c.reopen_tick(None), ReopenOutcome::Opened { instance: 2 });
    let (_, eff) = c.close(Some(SwalResult::confirmed()), None);
    assert_eq!(
        eff.invoke_then,
        Some(ThenCall { instance: 2, result: SwalResult::confirmed() })
    );
}
