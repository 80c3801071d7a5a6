use shell_integration::autostart::{
    set_autostart, AutostartIntegration, AutostartMechanism,
};
use shell_integration::window::{set_always_on_top, WindowHandle, WindowManager};

#[test]
fn always_on_top_set_then_clear() {
    // UI requests always_on_top = true on a visible window, then false:
    // each call succeeds with the empty marker and the OS flag follows.
    let mut wm = WindowManager::new();
    let w = wm.open_window();
    assert!(wm.live(w));
    assert!(!wm.always_on_top(w));

    assert_eq!(set_always_on_top(&mut wm, w, true), Ok(()));
    assert!(wm.always_on_top(w));

    assert_eq!(set_always_on_top(&mut wm, w, false), Ok(()));
    assert!(!wm.always_on_top(w));
}

#[test]
fn always_on_top_last_write_wins() {
    // Two requests in a row: the second alone decides the observed flag.
    for &(b1, b2) in &[(false, false), (false, true), (true, false), (true, true)] {
        let mut wm = WindowManager::new();
        let w = wm.open_window();
        assert_eq!(set_always_on_top(&mut wm, w, b1), Ok(()));
        assert_eq!(set_always_on_top(&mut wm, w, b2), Ok(()));
        assert_eq!(wm.always_on_top(w), b2);
        assert!(wm.live(w));
    }
}

#[test]
fn always_on_top_repeated_same_value_idempotent() {
    let mut wm = WindowManager::new();
    let w = wm.open_window();
    for _ in 0..3 {
        assert_eq!(set_always_on_top(&mut wm, w, true), Ok(()));
        assert!(wm.always_on_top(w));
    }
}

#[test]
fn always_on_top_on_destroyed_window_fails() {
    let mut wm = WindowManager::new();
    let w = wm.open_window();
    wm.destroy_window(w);
    assert!(!wm.live(w));

    let r = set_always_on_top(&mut wm, w, true);
    let msg = r.expect_err("a destroyed window must be rejected");
    assert_eq!(msg, "window handle does not name a live window");
    assert!(!msg.is_empty());
    // The failed call left the flag untouched.
    assert!(!wm.always_on_top(w));
}

#[test]
fn always_on_top_on_unknown_handle_fails() {
    let mut wm = WindowManager::new();
    let stale = WindowHandle { id: 7 };
    let r = set_always_on_top(&mut wm, stale, true);
    assert!(r.is_err());
    assert!(!r.unwrap_err().is_empty());
}

#[test]
fn always_on_top_leaves_other_windows_alone() {
    let mut wm = WindowManager::new();
    let a = wm.open_window();
    let b = wm.open_window();
    assert_eq!(set_always_on_top(&mut wm, b, true), Ok(()));
    assert!(!wm.always_on_top(a));
    assert!(wm.always_on_top(b));
    assert!(wm.live(a));
}

#[test]
fn autostart_enable_twice_idempotent() {
    let mut it = AutostartIntegration::init(AutostartMechanism::LoginItem, true, false);
    assert_eq!(set_autostart(&mut it, true), Ok(()));
    assert!(it.is_enabled());
    assert_eq!(set_autostart(&mut it, true), Ok(()));
    assert!(it.is_enabled());
}

#[test]
fn autostart_disable_twice_idempotent() {
    let mut it = AutostartIntegration::init(AutostartMechanism::ServiceUnit, true, true);
    assert_eq!(set_autostart(&mut it, false), Ok(()));
    assert!(!it.is_enabled());
    assert_eq!(set_autostart(&mut it, false), Ok(()));
    assert!(!it.is_enabled());
}

#[test]
fn autostart_enable_then_disable() {
    let mut it = AutostartIntegration::init(AutostartMechanism::RegistryKey, true, false);
    assert_eq!(set_autostart(&mut it, true), Ok(()));
    assert!(it.is_enabled());
    assert_eq!(set_autostart(&mut it, false), Ok(()));
    assert!(!it.is_enabled());
    assert_eq!(it.mechanism(), AutostartMechanism::RegistryKey);
}

#[test]
fn autostart_without_permission_fails_and_keeps_state() {
    // UI requests enabled = true on a platform without the needed
    // permission: a failure string comes back and the OS registration is
    // unchanged from before the call.
    let mut it = AutostartIntegration::init(AutostartMechanism::LoginItem, false, false);
    let r = set_autostart(&mut it, true);
    let msg = r.expect_err("a platform denial must surface as a failure");
    assert_eq!(msg, "platform denied changing the login registration");
    assert!(!msg.is_empty());
    assert!(!it.is_enabled());
    assert!(!it.is_permitted());

    // The same denial in the other direction, from an enabled registration.
    let mut it2 = AutostartIntegration::init(AutostartMechanism::LoginItem, false, true);
    assert!(set_autostart(&mut it2, false).is_err());
    assert!(it2.is_enabled());
}
