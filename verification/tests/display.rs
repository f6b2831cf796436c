use e7::adb::Adb;
use e7::display::{DisplayError, DisplayGuard, DisplayPlan};

fn adb() -> Adb {
    Adb::new("/usr/bin/adb".into(), Some("phone".to_string()))
}

#[test]
fn reference_screen_needs_nothing() {
    let (g, plan) = DisplayGuard::acquire(&adb(), true, 1920, 1080).unwrap();
    assert!(matches!(plan, DisplayPlan::Ready));
    assert!(!g.is_overridden());
}

#[test]
fn other_screen_without_override_is_refused() {
    assert!(matches!(
        DisplayGuard::acquire(&adb(), false, 2400, 1080),
        Err(DisplayError::WrongSize { w: 2400, h: 1080 })
    ));
}

#[test]
fn override_is_undone_exactly_once() {
    let (mut g, plan) = DisplayGuard::acquire(&adb(), true, 2400, 1080).unwrap();
    match plan {
        DisplayPlan::Override(args) => {
            assert_eq!(args, vec!["-s", "phone", "shell", "wm", "size", "1080x1920"])
        }
        DisplayPlan::Ready => panic!("expected an override"),
    }
    g.overridden();
    assert!(g.confirm(1920, 1080).is_ok());
    assert!(g.is_overridden());
    assert_eq!(
        g.reset(),
        Some(vec![
            "-s".to_string(),
            "phone".to_string(),
            "shell".to_string(),
            "wm".to_string(),
            "size".to_string(),
            "reset".to_string()
        ])
    );
    assert_eq!(g.reset(), None);
}

#[test]
fn failed_override_is_reset() {
    let (mut g, _) = DisplayGuard::acquire(&adb(), true, 2400, 1080).unwrap();
    g.overridden();
    match g.confirm(2400, 1080) {
        Err((DisplayError::OverrideFailed { w: 2400, h: 1080 }, Some(reset))) => {
            assert_eq!(reset.last().map(|s| s.as_str()), Some("reset"))
        }
        other => panic!("{:?}", other.is_ok()),
    }
    assert!(!g.is_overridden());
    assert_eq!(g.reset(), None);
}

#[test]
fn display_error_texts() {
    assert_eq!(
        DisplayError::WrongSize { w: 2400, h: 1080 }.message(),
        "screen is 2400x1080, need 1920x1080 (drop --no-display-override or set it on the device)"
    );
    assert_eq!(
        DisplayError::OverrideFailed { w: 1080, h: 2400 }.message(),
        "display override failed, screen is 1080x2400 (is the game open in landscape?)"
    );
}
