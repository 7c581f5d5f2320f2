use atm_auto_runner::clock::{chrono_now, clock_text_of, clock_text_since_epoch};
use atm_auto_runner::launch::{classpath, launch_command, uses_classpath, LibEntry};
use atm_auto_runner::runner::{
    classify_line, progress_for, DeviceRun, Emission, ExitOutcome, RunEvent, RunRequest, RunStep,
};

#[test]
fn line_levels_by_priority() {
    assert_eq!(classify_line("Test FAIL but PASS"), "error");
    assert_eq!(classify_line("ERROR"), "error");
    assert_eq!(classify_line("this will fail"), "error");
    assert_eq!(classify_line("all passed"), "success");
    assert_eq!(classify_line("OK"), "success");
    assert_eq!(classify_line("PASS with WARN"), "success");
    assert_eq!(classify_line("WARNING: low battery"), "warn");
    assert_eq!(classify_line("warn"), "warn");
    assert_eq!(classify_line("ok then"), "info");
    assert_eq!(classify_line(""), "info");
}

#[test]
fn progress_is_capped_until_exit() {
    assert_eq!(progress_for(0), 0);
    assert_eq!(progress_for(1), 1);
    assert_eq!(progress_for(94), 94);
    assert_eq!(progress_for(95), 95);
    assert_eq!(progress_for(1000), 95);
    assert_eq!(progress_for(u64::MAX), 95);
}

#[test]
fn clock_text_is_time_of_day() {
    assert_eq!(clock_text_of(0), "00:00:00");
    assert_eq!(clock_text_of(3661), "01:01:01");
    assert_eq!(clock_text_of(86399), "23:59:59");
    assert_eq!(clock_text_of(86400 + 45296), "12:34:56");
    assert_eq!(clock_text_of(1_700_000_000), "22:13:20");
    assert_eq!(clock_text_since_epoch(None), "00:00:00");
    assert_eq!(clock_text_since_epoch(Some(3661)), "01:01:01");
    let now = chrono_now();
    assert_eq!(now.len(), 8);
    let b = now.as_bytes();
    assert_eq!((b[2], b[5]), (b':', b':'));
}

fn libs() -> Vec<LibEntry> {
    vec![
        LibEntry { path: "/atm/tools/lib/a.jar".to_string(), extension: Some("jar".to_string()) },
        LibEntry { path: "/atm/tools/lib/readme".to_string(), extension: None },
        LibEntry { path: "/atm/tools/lib/b.txt".to_string(), extension: Some("txt".to_string()) },
        LibEntry { path: "/atm/tools/lib/c.jar".to_string(), extension: Some("jar".to_string()) },
    ]
}

#[test]
fn classpath_joins_jar_and_lib_jars() {
    assert_eq!(classpath("/t/x.jar", &libs(), ":"), "/t/x.jar:/atm/tools/lib/a.jar:/atm/tools/lib/c.jar");
    assert_eq!(classpath("/t/x.jar", &Vec::new(), ";"), "/t/x.jar");
}

#[test]
fn svt_runs_silently_with_output_folder() {
    let c = launch_command("svt", "/atm/tools/svt.jar", "R58", "/atm", &libs(), ":");
    assert_eq!(c.program, "java");
    assert_eq!(c.args, vec!["-jar", "/atm/tools/svt.jar", "--silent", "-s", "R58", "-o", "/atm/results/SVT/R58"]);
    assert_eq!(c.working_dir, "/atm");
    assert_eq!(c.output_dir, Some("/atm/results/SVT/R58".to_string()));
    assert!(!uses_classpath("svt"));
}

#[test]
fn classpath_tools_run_their_main_class() {
    for (id, main) in [("sdt", "com.sec.atm.Main"), ("getprop", "com.sec.ui.Main"), ("bvt", "com.bi.BVT.MainForm")] {
        assert!(uses_classpath(id));
        let c = launch_command(id, "/atm/tools/x.jar", "R58", "/atm", &libs(), ";");
        assert_eq!(
            c.args,
            vec!["-cp", "/atm/tools/x.jar;/atm/tools/lib/a.jar;/atm/tools/lib/c.jar", main, "-s", "R58", "-auto", "-e", "auto-start"]
        );
        assert_eq!(c.output_dir, None);
        assert_eq!(c.working_dir, "/atm");
    }
}

#[test]
fn other_tools_run_from_their_jar() {
    let c = launch_command("cscchecker", "/atm/tools/cscchecker.jar", "R58", "/atm", &libs(), ":");
    assert_eq!(c.args, vec!["-jar", "/atm/tools/cscchecker.jar", "-s", "R58"]);
    assert_eq!(c.output_dir, None);
    assert!(!uses_classpath("BVT"));
}

fn describe(step: &RunStep) -> Vec<String> {
    step.emitted
        .iter()
        .map(|e| match e {
            Emission::Status(s) => format!("S {} {} {} {} {}", s.device_serial, s.test_id, s.status, s.progress, s.message),
            Emission::Log(l) => format!("L {} {} {} {} {}", l.device_serial, l.test_id, l.timestamp, l.level, l.message),
        })
        .collect()
}

#[test]
fn sequence_of_one_device() {
    let tests = vec!["bvt".to_string(), "getprop".to_string(), "svt".to_string(), "sdt".to_string()];
    let (mut run, s) = DeviceRun::new("R58".to_string(), tests, "10:00:00");
    assert_eq!(describe(&s), vec!["S R58 bvt running 0 Starting bvt...", "L R58 bvt 10:00:00 info ▶ Starting bvt on R58"]);
    assert!(matches!(s.request, RunRequest::CheckJar { ref jar_name } if jar_name == "bvt.jar"));

    // the jar of bvt is missing: error, then getprop starts
    let s = run.step(RunEvent::JarChecked { exists: false, jar_path: "/atm/tools/bvt.jar".to_string() }, "10:00:01");
    assert_eq!(
        describe(&s),
        vec![
            "S R58 bvt error 0 JAR not found: bvt.jar",
            "L R58 bvt 10:00:01 error JAR not found: /atm/tools/bvt.jar",
            "S R58 getprop running 0 Starting getprop...",
            "L R58 getprop 10:00:01 info ▶ Starting getprop on R58",
        ]
    );

    // getprop starts without its jar
    let s = run.step(RunEvent::JarChecked { exists: false, jar_path: "/atm/tools/getprop.jar".to_string() }, "t");
    assert!(s.emitted.is_empty());
    assert!(matches!(s.request, RunRequest::Launch { ref test_id, ref jar_name } if test_id == "getprop" && jar_name == "getprop.jar"));
    let s = run.step(RunEvent::Launched, "t");
    assert!(matches!(s.request, RunRequest::ReadLine));
    let s = run.step(RunEvent::Line { text: "check PASS".to_string() }, "10:00:02");
    assert_eq!(describe(&s), vec!["L R58 getprop 10:00:02 success check PASS", "S R58 getprop running 1 Processing... (1 lines)"]);
    let s = run.step(RunEvent::Line { text: "WARN x".to_string() }, "10:00:03");
    assert_eq!(describe(&s), vec!["L R58 getprop 10:00:03 warn WARN x", "S R58 getprop running 2 Processing... (2 lines)"]);
    let s = run.step(RunEvent::OutputClosed, "t");
    assert!(matches!(s.request, RunRequest::AwaitExit));
    let s = run.step(RunEvent::Exited { outcome: ExitOutcome::Failure }, "10:00:04");
    assert_eq!(
        describe(&s),
        vec![
            "S R58 getprop fail 100 getprop completed: FAIL",
            "L R58 getprop 10:00:04 error FAIL getprop on R58 - FAIL",
            "S R58 svt running 0 Starting svt...",
            "L R58 svt 10:00:04 info ▶ Starting svt on R58",
        ]
    );

    // svt cannot start
    let s = run.step(RunEvent::JarChecked { exists: true, jar_path: "/atm/tools/svt.jar".to_string() }, "t");
    assert!(matches!(s.request, RunRequest::Launch { .. }));
    let s = run.step(RunEvent::LaunchFailed { reason: "No such file".to_string() }, "10:00:05");
    assert_eq!(
        describe(&s),
        vec![
            "S R58 svt error 0 Failed to start: No such file",
            "S R58 sdt running 0 Starting sdt...",
            "L R58 sdt 10:00:05 info ▶ Starting sdt on R58",
        ]
    );

    // sdt passes after many lines
    run.step(RunEvent::JarChecked { exists: true, jar_path: "p".to_string() }, "t");
    run.step(RunEvent::Launched, "t");
    let mut last = None;
    for i in 0..120 {
        last = Some(run.step(RunEvent::Line { text: format!("line {}", i) }, "t"));
    }
    assert_eq!(describe(&last.unwrap())[1], "S R58 sdt running 95 Processing... (120 lines)");
    run.step(RunEvent::OutputClosed, "t");
    let s = run.step(RunEvent::Exited { outcome: ExitOutcome::Success }, "10:01:00");
    assert_eq!(
        describe(&s),
        vec!["S R58 sdt pass 100 sdt completed: PASS", "L R58 sdt 10:01:00 success PASS sdt on R58 - PASS"]
    );
    assert!(matches!(s.request, RunRequest::Finished));

    // finished stays finished
    let s = run.step(RunEvent::Launched, "t");
    assert!(s.emitted.is_empty());
    assert!(matches!(s.request, RunRequest::Finished));
}

#[test]
fn wait_error_is_reported_as_error() {
    let (mut run, _) = DeviceRun::new("D".to_string(), vec!["x".to_string()], "t");
    run.step(RunEvent::JarChecked { exists: true, jar_path: "p".to_string() }, "t");
    run.step(RunEvent::Launched, "t");
    run.step(RunEvent::OutputClosed, "t");
    let s = run.step(RunEvent::Exited { outcome: ExitOutcome::Unknown }, "t");
    assert_eq!(describe(&s), vec!["S D x error 100 x completed: ERROR", "L D x t error FAIL x on D - ERROR"]);
}

#[test]
fn unexpected_events_repeat_the_pending_request() {
    let (mut run, _) = DeviceRun::new("D".to_string(), vec!["x".to_string()], "t");
    let s = run.step(RunEvent::Launched, "t");
    assert!(s.emitted.is_empty());
    assert!(matches!(s.request, RunRequest::CheckJar { ref jar_name } if jar_name == "x.jar"));
    let s = run.step(RunEvent::Line { text: "FAIL".to_string() }, "t");
    assert!(s.emitted.is_empty());
    assert!(matches!(s.request, RunRequest::CheckJar { .. }));
}

#[test]
fn empty_sequence_finishes_at_once() {
    let (_, s) = DeviceRun::new("D".to_string(), Vec::new(), "t");
    assert!(s.emitted.is_empty());
    assert!(matches!(s.request, RunRequest::Finished));
}
