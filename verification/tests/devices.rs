use atm_auto_runner::devices::{
    device_listing_from_output, device_prop_value, extract_prop, parse_device_listing,
    DeviceEntry, DeviceProbe, ProbeStep,
};
use atm_auto_runner::model::DeviceInfo;

fn entry(serial: &str, status: &str, model: &str) -> DeviceEntry {
    DeviceEntry { serial: serial.to_string(), status: status.to_string(), model: model.to_string() }
}

#[test]
fn extract_prop_takes_first_match() {
    let parts = ["R58N123", "device", "product:dm3q", "model:SM_S918B", "device:dm3q", "model:X"];
    assert_eq!(extract_prop(&parts, "model:"), "SM_S918B");
    assert_eq!(extract_prop(&parts, "device:"), "dm3q");
    assert_eq!(extract_prop(&parts, "transport_id:"), "");
    assert_eq!(extract_prop(&[], "model:"), "");
    assert_eq!(extract_prop(&["model:"], "model:"), "");
}

#[test]
fn listing_skips_heading_notices_and_short_lines() {
    let out = "List of devices attached\n\
               * daemon started successfully\n\
               R58N123   device usb:1-1 product:dm3q model:SM_S918B device:dm3q transport_id:1\r\n\
               \n\
               emulator-5554\toffline product:sdk device:generic\n\
               lonely\n\
               ABC unauthorized usb:2-1 transport_id:3\n";
    let d = parse_device_listing(out);
    assert_eq!(d.len(), 3);
    assert_eq!((d[0].serial.as_str(), d[0].status.as_str(), d[0].model.as_str()), ("R58N123", "device", "SM_S918B"));
    assert_eq!((d[1].serial.as_str(), d[1].status.as_str(), d[1].model.as_str()), ("emulator-5554", "offline", "generic"));
    assert_eq!((d[2].serial.as_str(), d[2].status.as_str(), d[2].model.as_str()), ("ABC", "unauthorized", ""));
}

#[test]
fn listing_of_heading_only_or_nothing_is_empty() {
    assert!(parse_device_listing("").is_empty());
    assert!(parse_device_listing("List of devices attached\n\n").is_empty());
    // the first line is always the heading, even when it looks like a device
    assert!(parse_device_listing("R58N123 device model:A").is_empty());
}

#[test]
fn listing_from_raw_bytes_replaces_invalid_utf8() {
    let mut bytes = b"List of devices attached\nR58\xffN device model:M\n".to_vec();
    let d = device_listing_from_output(&bytes);
    assert_eq!(d.len(), 1);
    assert_eq!(d[0].serial, "R58\u{fffd}N");
    bytes.clear();
    assert!(device_listing_from_output(&bytes).is_empty());
}

#[test]
fn prop_value_is_trimmed_output_or_na() {
    assert_eq!(device_prop_value(Some(b"  14\r\n")), "14");
    assert_eq!(device_prop_value(Some(b"\n")), "");
    assert_eq!(device_prop_value(Some("\u{a0}S918BXXU1AWBD\u{3000}".as_bytes())), "S918BXXU1AWBD");
    assert_eq!(device_prop_value(None), "N/A");
}

fn info(step: ProbeStep) -> DeviceInfo {
    match step {
        ProbeStep::Ready(d) => d,
        ProbeStep::Query(q) => panic!("unexpected query {}", q),
    }
}

fn query(step: ProbeStep) -> String {
    match step {
        ProbeStep::Query(q) => q,
        ProbeStep::Ready(_) => panic!("unexpected ready"),
    }
}

#[test]
fn probe_of_online_device_with_pda() {
    let (mut p, s) = DeviceProbe::start(entry("R58", "device", "SM_S918B"));
    assert_eq!(query(s), "ro.build.version.release");
    assert_eq!(query(p.answer("14".to_string())), "ro.build.PDA");
    let d = info(p.answer("S918BXXU1AWBD".to_string()));
    assert_eq!(d.serial, "R58");
    assert_eq!(d.model, "SM_S918B");
    assert_eq!(d.android_version, "14");
    assert_eq!(d.pda, "S918BXXU1AWBD");
    assert_eq!(d.status, "device");
    // answers after the end change nothing
    let again = info(p.answer("other".to_string()));
    assert_eq!(again.pda, "S918BXXU1AWBD");
}

#[test]
fn probe_falls_back_to_display_id() {
    for missing in ["", "N/A"] {
        let (mut p, s) = DeviceProbe::start(entry("R58", "device", "M"));
        assert_eq!(query(s), "ro.build.version.release");
        assert_eq!(query(p.answer("13".to_string())), "ro.build.PDA");
        assert_eq!(query(p.answer(missing.to_string())), "ro.build.display.id");
        let d = info(p.answer("TP1A.220624.014".to_string()));
        assert_eq!(d.pda, "TP1A.220624.014");
        assert_eq!(d.android_version, "13");
    }
}

#[test]
fn probe_of_offline_device_asks_nothing() {
    let (_, s) = DeviceProbe::start(entry("emu", "offline", "generic"));
    let d = info(s);
    assert_eq!(d.android_version, "N/A");
    assert_eq!(d.pda, "N/A");
    assert_eq!(d.status, "offline");
    assert_eq!(d.model, "generic");
}
