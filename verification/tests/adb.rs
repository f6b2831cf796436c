use e7::adb::{choose_device, gave_up_context, parse_devices, Adb, Device, DeviceError, Retry, ATTEMPTS};

#[test]
fn parses_adb_devices_output() {
    let out = "List of devices attached\n192.168.15.14:5555\tdevice\nemulator-5554\toffline\n\n";
    let d = parse_devices(out);
    assert_eq!(d.len(), 2);
    assert_eq!(d[0].serial, "192.168.15.14:5555");
    assert_eq!(d[0].state, "device");
    assert_eq!(d[1].state, "offline");
}

#[test]
fn parses_empty_list() {
    assert!(parse_devices("List of devices attached\n\n").is_empty());
}

fn dev(serial: &str, state: &str) -> Device {
    Device {
        serial: serial.into(),
        state: state.into(),
    }
}

#[test]
fn choose_single_online_device() {
    assert_eq!(choose_device(&[dev("a", "device")], None).unwrap(), "a");
}

#[test]
fn choose_requires_serial_when_ambiguous() {
    let d = vec![dev("a", "device"), dev("b", "device")];
    assert!(choose_device(&d, None).is_err());
    assert_eq!(choose_device(&d, Some("b".into())).unwrap(), "b");
    assert!(choose_device(&d, Some("zzz".into())).is_err());
}

#[test]
fn choose_rejects_offline() {
    assert!(choose_device(&[dev("a", "offline")], None).is_err());
}

#[test]
fn parse_trims_fields_and_skips_lines_without_tab() {
    let out = "List of devices attached\r\n  abc \t device \r\nno tab here\nx\ty\tz";
    let d = parse_devices(out);
    assert_eq!(d, vec![dev("abc", "device"), dev("x", "y\tz")]);
}

#[test]
fn parse_of_nothing_is_nothing() {
    assert!(parse_devices("").is_empty());
    assert!(parse_devices("a\tb").is_empty());
}

#[test]
fn choose_errors_carry_the_listing() {
    let d = vec![dev("a", "device"), dev("b", "unauthorized"), dev("c", "device")];
    match choose_device(&d, None) {
        Err(DeviceError::Several { listing }) => {
            assert_eq!(listing, "  a\tdevice\n  b\tunauthorized\n  c\tdevice")
        }
        other => panic!("{other:?}"),
    }
    match choose_device(&d, Some("b".into())) {
        Err(DeviceError::NotOnline { serial, state }) => {
            assert_eq!((serial.as_str(), state.as_str()), ("b", "unauthorized"))
        }
        other => panic!("{other:?}"),
    }
    match choose_device(&d, Some("q".into())) {
        Err(DeviceError::NotFound { serial, listing }) => {
            assert_eq!(serial, "q");
            assert_eq!(listing, "  a\tdevice\n  b\tunauthorized\n  c\tdevice");
        }
        other => panic!("{other:?}"),
    }
    match choose_device(&[dev("a", "offline")], None) {
        Err(DeviceError::NoneOnline { listing }) => assert_eq!(listing, "  a\toffline"),
        other => panic!("{other:?}"),
    }
    match choose_device(&[], None) {
        Err(DeviceError::NoneOnline { listing }) => assert_eq!(listing, ""),
        other => panic!("{other:?}"),
    }
}

#[test]
fn choose_takes_the_only_online_among_others() {
    let d = vec![dev("a", "offline"), dev("b", "device"), dev("c", "unauthorized")];
    assert_eq!(choose_device(&d, None).unwrap(), "b");
}

#[test]
fn invocations_name_the_picked_device() {
    let adb = Adb::new("/usr/bin/adb".into(), None);
    assert_eq!(adb.tap(1089, 759), vec!["shell", "input", "tap", "1089", "759"]);
    assert_eq!(adb.devices(), vec!["devices"]);
    let adb = adb.pick(&[dev("tablet", "device")], None).unwrap();
    assert_eq!(adb.serial(), Some("tablet"));
    assert_eq!(
        adb.swipe(1200, 807, 1200, 391),
        vec!["-s", "tablet", "shell", "input", "swipe", "1200", "807", "1200", "391"]
    );
    assert_eq!(
        adb.screencap(),
        vec!["-s", "tablet", "exec-out", "screencap", "-p"]
    );
    assert_eq!(
        adb.wm_size_set(1080, 1920),
        vec!["-s", "tablet", "shell", "wm", "size", "1080x1920"]
    );
    assert_eq!(
        adb.wm_size_reset(),
        vec!["-s", "tablet", "shell", "wm", "size", "reset"]
    );
    assert_eq!(adb.tap(0, 4294967295), vec!["-s", "tablet", "shell", "input", "tap", "0", "4294967295"]);
}

#[test]
fn pick_fails_like_choose() {
    let adb = Adb::new("/usr/bin/adb".into(), None);
    assert!(adb.pick(&[dev("a", "device"), dev("b", "device")], None).is_err());
}

#[test]
fn retry_gives_up_after_three_attempts() {
    let first = Retry::first();
    assert_eq!(first.attempt(), 1);
    let second = first.after_failure("e1").unwrap();
    assert_eq!(second.attempt(), 2);
    let third = second.after_failure("e2").unwrap();
    assert_eq!(third.attempt(), ATTEMPTS);
    assert_eq!(third.after_failure("e3").err(), Some("e3"));
    assert_eq!(gave_up_context("exec-out screencap -p"), "adb exec-out screencap -p failed after 3 attempts");
}

#[test]
fn device_error_texts() {
    let d = vec![dev("a", "device"), dev("b", "device")];
    assert_eq!(
        choose_device(&d, None).unwrap_err().message(),
        "several devices attached, pass --device:\n  a\tdevice\n  b\tdevice"
    );
    assert_eq!(
        choose_device(&[], None).unwrap_err().message(),
        "no online adb device (adb devices):\n"
    );
    assert_eq!(
        choose_device(&[dev("a", "offline")], Some("a".into())).unwrap_err().message(),
        "device a is offline"
    );
    assert_eq!(
        choose_device(&[dev("a", "offline")], Some("z".into())).unwrap_err().message(),
        "device z not found:\n  a\toffline"
    );
}
