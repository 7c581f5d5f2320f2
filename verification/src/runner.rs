//! The test sequence of one device, as a state machine: the caller performs
//! each request (look for a jar, start a process, read a line, wait for the
//! exit), hands back what happened, and publishes what the step emitted.

use vstd::prelude::*;
use crate::model::{LogEntry, LogEntryView, TestStatus, TestStatusView};
use crate::text::{contains, decimal, push_decimal, same_text, str_contains};

verus! {

broadcast use vstd::string::group_string_axioms;

// ─── Console lines ──────────────────────────────────────────────────────

/// The severity of a line that a tool printed: failures first, then
/// successes, then warnings.
pub open spec fn line_level(line: Seq<char>) -> Seq<char> {
    if contains(line, "FAIL"@) || contains(line, "ERROR"@) || contains(line, "fail"@) {
        "error"@
    } else if contains(line, "PASS"@) || contains(line, "pass"@) || contains(line, "OK"@) {
        "success"@
    } else if contains(line, "WARN"@) || contains(line, "warn"@) {
        "warn"@
    } else {
        "info"@
    }
}

/// Every console line gets one of the four levels the console filters on.
pub proof fn law_line_level_is_known(line: Seq<char>)
    ensures
        line_level(line) == "error"@ || line_level(line) == "success"@ || line_level(line)
            == "warn"@ || line_level(line) == "info"@,
{
}

pub fn classify_line(line: &str) -> (level: String)
    ensures
        level@ == line_level(line@),
{
    if str_contains(line, "FAIL") || str_contains(line, "ERROR") || str_contains(line, "fail") {
        "error".to_string()
    } else if str_contains(line, "PASS") || str_contains(line, "pass") || str_contains(
        line,
        "OK",
    ) {
        "success".to_string()
    } else if str_contains(line, "WARN") || str_contains(line, "warn") {
        "warn".to_string()
    } else {
        "info".to_string()
    }
}

/// The progress shown after `lines` lines of output, in hundredths: one per
/// line, at most 95 until the tool exits.
pub open spec fn progress_after(lines: nat) -> u32 {
    if lines < 95 {
        lines as u32
    } else {
        95
    }
}

pub fn progress_for(lines: u64) -> (p: u32)
    ensures
        p == progress_after(lines as nat),
{
    if lines < 95 {
        lines as u32
    } else {
        95
    }
}

// ─── How a tool ended ───────────────────────────────────────────────────

/// How the process of a tool ended.
#[derive(PartialEq, Eq, Structural, Clone, Copy)]
pub enum ExitOutcome {
    /// It exited with status 0.
    Success,
    /// It exited with another status.
    Failure,
    /// Waiting for it failed.
    Unknown,
}

/// The status of a tool that ended so.
pub open spec fn outcome_status(o: ExitOutcome) -> Seq<char> {
    match o {
        ExitOutcome::Success => "pass"@,
        ExitOutcome::Failure => "fail"@,
        ExitOutcome::Unknown => "error"@,
    }
}

/// The status in capitals.
pub open spec fn outcome_shout(o: ExitOutcome) -> Seq<char> {
    match o {
        ExitOutcome::Success => "PASS"@,
        ExitOutcome::Failure => "FAIL"@,
        ExitOutcome::Unknown => "ERROR"@,
    }
}

/// The log level of the final line.
pub open spec fn outcome_level(o: ExitOutcome) -> Seq<char> {
    match o {
        ExitOutcome::Success => "success"@,
        _ => "error"@,
    }
}

/// The verdict word that opens the final line.
pub open spec fn outcome_verdict(o: ExitOutcome) -> Seq<char> {
    match o {
        ExitOutcome::Success => "PASS"@,
        _ => "FAIL"@,
    }
}

// ─── Events, requests, emissions ────────────────────────────────────────

/// What happened since the last step.
pub enum RunEvent {
    /// The jar of the current tool was looked for; `jar_path` is where.
    JarChecked { exists: bool, jar_path: String },
    /// The process could not be started.
    LaunchFailed { reason: String },
    /// The process started.
    Launched,
    /// The process printed a line.
    Line { text: String },
    /// The output of the process ended.
    OutputClosed,
    /// The process exited.
    Exited { outcome: ExitOutcome },
}

pub enum RunEventView {
    JarChecked { exists: bool, jar_path: Seq<char> },
    LaunchFailed { reason: Seq<char> },
    Launched,
    Line { text: Seq<char> },
    OutputClosed,
    Exited { outcome: ExitOutcome },
}

impl View for RunEvent {
    type V = RunEventView;

    open spec fn view(&self) -> RunEventView {
        match self {
            RunEvent::JarChecked { exists, jar_path } => RunEventView::JarChecked {
                exists: *exists,
                jar_path: jar_path@,
            },
            RunEvent::LaunchFailed { reason } => RunEventView::LaunchFailed { reason: reason@ },
            RunEvent::Launched => RunEventView::Launched,
            RunEvent::Line { text } => RunEventView::Line { text: text@ },
            RunEvent::OutputClosed => RunEventView::OutputClosed,
            RunEvent::Exited { outcome } => RunEventView::Exited { outcome: *outcome },
        }
    }
}

/// What the caller should do next.
pub enum RunRequest {
    /// Look in the tools folder for `jar_name`.
    CheckJar { jar_name: String },
    /// Start tool `test_id` from `jar_name` (see `launch_command`).
    Launch { test_id: String, jar_name: String },
    /// Read the next line of output.
    ReadLine,
    /// Wait for the process to exit.
    AwaitExit,
    /// The sequence of this device is over.
    Finished,
}

pub enum RunRequestView {
    CheckJar { jar_name: Seq<char> },
    Launch { test_id: Seq<char>, jar_name: Seq<char> },
    ReadLine,
    AwaitExit,
    Finished,
}

impl View for RunRequest {
    type V = RunRequestView;

    open spec fn view(&self) -> RunRequestView {
        match self {
            RunRequest::CheckJar { jar_name } => RunRequestView::CheckJar { jar_name: jar_name@ },
            RunRequest::Launch { test_id, jar_name } => RunRequestView::Launch {
                test_id: test_id@,
                jar_name: jar_name@,
            },
            RunRequest::ReadLine => RunRequestView::ReadLine,
            RunRequest::AwaitExit => RunRequestView::AwaitExit,
            RunRequest::Finished => RunRequestView::Finished,
        }
    }
}

/// What a step publishes.
pub enum Emission {
    Status(TestStatus),
    Log(LogEntry),
}

pub enum EmissionView {
    Status(TestStatusView),
    Log(LogEntryView),
}

impl View for Emission {
    type V = EmissionView;

    open spec fn view(&self) -> EmissionView {
        match self {
            Emission::Status(s) => EmissionView::Status(s@),
            Emission::Log(l) => EmissionView::Log(l@),
        }
    }
}

pub open spec fn emissions_view(v: Seq<Emission>) -> Seq<EmissionView> {
    v.map_values(|e: Emission| e@)
}

/// The outcome of a step: what to publish, in order, and what to do next.
pub struct RunStep {
    pub emitted: Vec<Emission>,
    pub request: RunRequest,
}

pub struct RunStepView {
    pub emitted: Seq<EmissionView>,
    pub request: RunRequestView,
}

impl View for RunStep {
    type V = RunStepView;

    open spec fn view(&self) -> RunStepView {
        RunStepView { emitted: emissions_view(self.emitted@), request: self.request@ }
    }
}

// ─── The state machine ──────────────────────────────────────────────────

/// Where the current tool stands.
#[derive(PartialEq, Eq, Structural, Clone, Copy)]
pub enum RunStage {
    CheckingJar,
    Launching,
    Streaming,
    Exiting,
    Finished,
}

/// The test sequence of one device.
pub struct DeviceRun {
    pub device_serial: String,
    /// The ids of the tools to run, in order.
    pub tests: Vec<String>,
    /// The index of the current tool.
    pub current: usize,
    pub stage: RunStage,
    /// Lines printed by the current tool so far.
    pub line_count: u64,
}

pub struct DeviceRunView {
    pub device_serial: Seq<char>,
    pub tests: Seq<Seq<char>>,
    pub current: nat,
    pub stage: RunStage,
    pub line_count: nat,
}

impl View for DeviceRun {
    type V = DeviceRunView;

    open spec fn view(&self) -> DeviceRunView {
        DeviceRunView {
            device_serial: self.device_serial@,
            tests: self.tests@.map_values(|t: String| t@),
            current: self.current as nat,
            stage: self.stage,
            line_count: self.line_count as nat,
        }
    }
}

/// The current index is in range while a tool is under way.
pub open spec fn run_wf(s: DeviceRunView) -> bool {
    &&& s.current <= s.tests.len()
    &&& s.stage != RunStage::Finished ==> s.current < s.tests.len()
    &&& s.stage == RunStage::Finished ==> s.current == s.tests.len()
}

pub open spec fn status_of(
    s: DeviceRunView,
    status: Seq<char>,
    progress: u32,
    message: Seq<char>,
) -> EmissionView {
    EmissionView::Status(
        TestStatusView {
            device_serial: s.device_serial,
            test_id: s.tests[s.current as int],
            status: status,
            progress: progress,
            message: message,
        },
    )
}

pub open spec fn log_of(
    s: DeviceRunView,
    now: Seq<char>,
    level: Seq<char>,
    message: Seq<char>,
) -> EmissionView {
    EmissionView::Log(
        LogEntryView {
            device_serial: s.device_serial,
            test_id: s.tests[s.current as int],
            timestamp: now,
            level: level,
            message: message,
        },
    )
}

/// Starts the tool at `s.current`, or ends the sequence after the last one:
/// a tool starts as running at 0 with an info line, and its jar is looked
/// for.
pub open spec fn begin_current(s: DeviceRunView, now: Seq<char>) -> (DeviceRunView, RunStepView) {
    if s.current < s.tests.len() {
        let t = s.tests[s.current as int];
        (
            DeviceRunView { stage: RunStage::CheckingJar, line_count: 0, ..s },
            RunStepView {
                emitted: seq![
                    status_of(s, "running"@, 0, "Starting "@ + t + "..."@),
                    log_of(s, now, "info"@, "▶ Starting "@ + t + " on "@ + s.device_serial),
                ],
                request: RunRequestView::CheckJar { jar_name: t + ".jar"@ },
            },
        )
    } else {
        (
            DeviceRunView { stage: RunStage::Finished, line_count: 0, ..s },
            RunStepView { emitted: seq![], request: RunRequestView::Finished },
        )
    }
}

/// Ends the current tool after publishing `done`, and goes on to the next.
pub open spec fn advance(s: DeviceRunView, now: Seq<char>, done: Seq<EmissionView>) -> (
    DeviceRunView,
    RunStepView,
) {
    let (s2, step) = begin_current(DeviceRunView { current: s.current + 1, ..s }, now);
    (s2, RunStepView { emitted: done + step.emitted, request: step.request })
}

/// The request that a stage waits on.
pub open spec fn pending(s: DeviceRunView) -> RunRequestView {
    match s.stage {
        RunStage::CheckingJar => RunRequestView::CheckJar {
            jar_name: s.tests[s.current as int] + ".jar"@,
        },
        RunStage::Launching => RunRequestView::Launch {
            test_id: s.tests[s.current as int],
            jar_name: s.tests[s.current as int] + ".jar"@,
        },
        RunStage::Streaming => RunRequestView::ReadLine,
        RunStage::Exiting => RunRequestView::AwaitExit,
        RunStage::Finished => RunRequestView::Finished,
    }
}

/// One step of the sequence. A missing jar ends the tool with an error,
/// except for Getprop, which is started anyway; a process that cannot start
/// ends it with an error; each line of output is logged at its level and
/// moves the progress; the exit ends it as passed, failed or in error. An
/// event that does not fit the stage changes nothing and repeats the
/// pending request.
pub open spec fn run_step(s: DeviceRunView, e: RunEventView, now: Seq<char>) -> (
    DeviceRunView,
    RunStepView,
) {
    let t = s.tests[s.current as int];
    match (s.stage, e) {
        (RunStage::CheckingJar, RunEventView::JarChecked { exists, jar_path }) => {
            if !exists && t != "getprop"@ {
                advance(
                    s,
                    now,
                    seq![
                        status_of(s, "error"@, 0, "JAR not found: "@ + t + ".jar"@),
                        log_of(s, now, "error"@, "JAR not found: "@ + jar_path),
                    ],
                )
            } else {
                (
                    DeviceRunView { stage: RunStage::Launching, ..s },
                    RunStepView {
                        emitted: seq![],
                        request: RunRequestView::Launch { test_id: t, jar_name: t + ".jar"@ },
                    },
                )
            }
        },
        (RunStage::Launching, RunEventView::LaunchFailed { reason }) => advance(
            s,
            now,
            seq![status_of(s, "error"@, 0, "Failed to start: "@ + reason)],
        ),
        (RunStage::Launching, RunEventView::Launched) => (
            DeviceRunView { stage: RunStage::Streaming, line_count: 0, ..s },
            RunStepView { emitted: seq![], request: RunRequestView::ReadLine },
        ),
        (RunStage::Streaming, RunEventView::Line { text }) => {
            let n: nat = if s.line_count < u64::MAX {
                s.line_count + 1
            } else {
                s.line_count
            };
            (
                DeviceRunView { line_count: n, ..s },
                RunStepView {
                    emitted: seq![
                        log_of(s, now, line_level(text), text),
                        status_of(
                            s,
                            "running"@,
                            progress_after(n),
                            "Processing... ("@ + decimal(n) + " lines)"@,
                        ),
                    ],
                    request: RunRequestView::ReadLine,
                },
            )
        },
        (RunStage::Streaming, RunEventView::OutputClosed) => (
            DeviceRunView { stage: RunStage::Exiting, ..s },
            RunStepView { emitted: seq![], request: RunRequestView::AwaitExit },
        ),
        (RunStage::Exiting, RunEventView::Exited { outcome }) => advance(
            s,
            now,
            seq![
                status_of(s, outcome_status(outcome), 100, t + " completed: "@ + outcome_shout(outcome)),
                log_of(
                    s,
                    now,
                    outcome_level(outcome),
                    outcome_verdict(outcome) + " "@ + t + " on "@ + s.device_serial + " - "@
                        + outcome_shout(outcome),
                ),
            ],
        ),
        _ => (s, RunStepView { emitted: seq![], request: pending(s) }),
    }
}

/// A finished sequence stays finished and publishes nothing more.
pub proof fn law_finished_is_final(s: DeviceRunView, e: RunEventView, now: Seq<char>)
    requires
        s.stage == RunStage::Finished,
    ensures
        run_step(s, e, now) == (s, RunStepView { emitted: seq![], request: RunRequestView::Finished }),
{
}

/// The tools run one after the other, in the order given: a step either
/// stays on the current tool or moves to the next one, and it moves on only
/// after its first emission reported the final status of the current tool
/// (`"error"`, `"pass"` or `"fail"`).
pub proof fn law_tools_in_order(s: DeviceRunView, e: RunEventView, now: Seq<char>)
    requires
        run_wf(s),
        s.stage != RunStage::Finished,
    ensures
        ({
            let (s2, step) = run_step(s, e, now);
            &&& run_wf(s2)
            &&& s2.tests == s.tests
            &&& s2.device_serial == s.device_serial
            &&& s2.current == s.current || {
                &&& s2.current == s.current + 1
                &&& step.emitted.len() >= 1
                &&& step.emitted[0] matches EmissionView::Status(v)
                &&& v.test_id == s.tests[s.current as int]
                &&& (v.status == "error"@ || v.status == "pass"@ || v.status == "fail"@)
            }
        }),
{
}

/// A status whose progress fits: at most the whole, and at most 95
/// hundredths while running.
pub open spec fn progress_fits(em: EmissionView) -> bool {
    match em {
        EmissionView::Status(v) => v.progress <= 100 && (v.status == "running"@ ==> v.progress
            <= 95),
        EmissionView::Log(_) => true,
    }
}

proof fn lemma_begin_fits(s: DeviceRunView, now: Seq<char>)
    ensures
        forall|i: int|
            0 <= i < begin_current(s, now).1.emitted.len() ==> progress_fits(
                #[trigger] begin_current(s, now).1.emitted[i],
            ),
{
}

/// Progress never exceeds the whole, and a tool still running never shows
/// more than 95 hundredths.
pub proof fn law_progress_bounded(s: DeviceRunView, e: RunEventView, now: Seq<char>)
    requires
        run_wf(s),
    ensures
        forall|i: int|
            0 <= i < run_step(s, e, now).1.emitted.len() ==> progress_fits(
                #[trigger] run_step(s, e, now).1.emitted[i],
            ),
{
    reveal_strlit("running");
    reveal_strlit("pass");
    reveal_strlit("fail");
    reveal_strlit("error");
    let next = DeviceRunView { current: s.current + 1, ..s };
    lemma_begin_fits(next, now);
    let em = run_step(s, e, now).1.emitted;
    let b = begin_current(next, now).1.emitted;
    assert forall|i: int| 0 <= i < em.len() implies progress_fits(#[trigger] em[i]) by {
        match (s.stage, e) {
            (RunStage::CheckingJar, RunEventView::JarChecked { exists, jar_path }) => {
                if !exists && s.tests[s.current as int] != "getprop"@ {
                    if i >= 2 {
                        assert(em[i] == b[i - 2]);
                    } else {
                        assert(progress_fits(em[i]));
                    }
                } else {
                    assert(em.len() == 0);
                }
            },
            (RunStage::Launching, RunEventView::LaunchFailed { reason }) => {
                if i >= 1 {
                    assert(em[i] == b[i - 1]);
                } else {
                    assert(progress_fits(em[i]));
                }
            },
            (RunStage::Exiting, RunEventView::Exited { outcome }) => {
                assert(outcome_status(outcome).len() < "running"@.len());
                if i >= 2 {
                    assert(em[i] == b[i - 2]);
                } else {
                    assert(progress_fits(em[i]));
                }
            },
            (RunStage::Streaming, RunEventView::Line { text }) => {
                assert(progress_fits(em[i]));
            },
            _ => {
                assert(progress_fits(em[i]));
            },
        }
    }
}

/// Getprop is started even where its jar is missing.
pub proof fn law_getprop_needs_no_jar(s: DeviceRunView, jar_path: Seq<char>, now: Seq<char>)
    requires
        run_wf(s),
        s.stage == RunStage::CheckingJar,
        s.tests[s.current as int] == "getprop"@,
    ensures
        run_step(s, RunEventView::JarChecked { exists: false, jar_path }, now).1.request
            == (RunRequestView::Launch { test_id: "getprop"@, jar_name: "getprop"@ + ".jar"@ }),
{
}

/// A line that mentions a failure (`FAIL`, `ERROR` or `fail` anywhere in
/// it) is an error; otherwise a line that mentions a success (`PASS`,
/// `pass` or `OK`) is a success; otherwise one that mentions a warning
/// (`WARN` or `warn`) is a warning; any other line is information.
pub proof fn law_line_level_by_mentions(line: Seq<char>)
    ensures
        contains(line, "FAIL"@) ==> line_level(line) == "error"@,
        contains(line, "ERROR"@) ==> line_level(line) == "error"@,
        contains(line, "fail"@) ==> line_level(line) == "error"@,
        !contains(line, "FAIL"@) && !contains(line, "ERROR"@) && !contains(line, "fail"@) ==> (
        contains(line, "PASS"@) || contains(line, "pass"@) || contains(line, "OK"@) <==> line_level(
            line,
        ) == "success"@),
        !contains(line, "FAIL"@) && !contains(line, "ERROR"@) && !contains(line, "fail"@)
            && !contains(line, "PASS"@) && !contains(line, "pass"@) && !contains(line, "OK"@) ==> (
        contains(line, "WARN"@) || contains(line, "warn"@) <==> line_level(line) == "warn"@),
        line_level(line) == "info"@ <==> !contains(line, "FAIL"@) && !contains(line, "ERROR"@)
            && !contains(line, "fail"@) && !contains(line, "PASS"@) && !contains(line, "pass"@)
            && !contains(line, "OK"@) && !contains(line, "WARN"@) && !contains(line, "warn"@),
{
    reveal_strlit("error");
    reveal_strlit("success");
    reveal_strlit("warn");
    reveal_strlit("info");
    assert("error"@.len() != "success"@.len() && "error"@.len() != "warn"@.len()
        && "error"@.len() != "info"@.len());
    assert("success"@.len() != "warn"@.len() && "success"@.len() != "info"@.len());
    assert("warn"@[0] != "info"@[0]);
}

/// The jar that is launched is the jar that was looked for: a tool starts
/// by asking for `<id>.jar`, and once that jar is found (or the tool is
/// Getprop) the launch request names that same jar, for every tool.
pub proof fn law_launch_uses_checked_jar(
    s: DeviceRunView,
    found: bool,
    jar_path: Seq<char>,
    now: Seq<char>,
)
    requires
        run_wf(s),
        s.stage == RunStage::CheckingJar,
        found || s.tests[s.current as int] == "getprop"@,
    ensures
        ({
            let t = s.tests[s.current as int];
            let (s1, step) = begin_current(s, now);
            let (s2, launch) = run_step(s1, RunEventView::JarChecked { exists: found, jar_path }, now);
            &&& step.request == (RunRequestView::CheckJar { jar_name: t + ".jar"@ })
            &&& launch.request == (RunRequestView::Launch { test_id: t, jar_name: t + ".jar"@ })
            &&& launch.emitted.len() == 0
            &&& s2.stage == RunStage::Launching
            &&& s2.current == s.current
        }),
{
}

impl DeviceRun {
    pub open spec fn wf(&self) -> bool {
        &&& run_wf(self@)
        &&& self.tests@.len() == self@.tests.len()
    }

    fn status(&self, status: &str, progress: u32, message: String) -> (e: Emission)
        requires
            self.current < self.tests.len(),
        ensures
            e@ == status_of(self@, status@, progress, message@),
    {
        Emission::Status(
            TestStatus {
                device_serial: self.device_serial.clone(),
                test_id: self.tests[self.current].clone(),
                status: status.to_owned(),
                progress: progress,
                message: message,
            },
        )
    }

    fn log(&self, now: &str, level: &str, message: String) -> (e: Emission)
        requires
            self.current < self.tests.len(),
        ensures
            e@ == log_of(self@, now@, level@, message@),
    {
        Emission::Log(
            LogEntry {
                device_serial: self.device_serial.clone(),
                test_id: self.tests[self.current].clone(),
                timestamp: now.to_owned(),
                level: level.to_owned(),
                message: message,
            },
        )
    }

    fn jar_name(&self) -> (n: String)
        requires
            self.current < self.tests.len(),
        ensures
            n@ == self@.tests[self@.current as int] + ".jar"@,
    {
        let mut n = self.tests[self.current].clone();
        n.append(".jar");
        n
    }

    fn begin(&mut self, now: &str) -> (step: RunStep)
        requires
            old(self).current <= old(self).tests.len(),
        ensures
            final(self).wf(),
            (final(self)@, step@) == begin_current(old(self)@, now@),
    {
        self.line_count = 0;
        if self.current < self.tests.len() {
            self.stage = RunStage::CheckingJar;
            let t = self.tests[self.current].clone();
            let mut m1 = "Starting ".to_string();
            m1.append(t.as_str());
            m1.append("...");
            let mut m2 = "▶ Starting ".to_string();
            m2.append(t.as_str());
            m2.append(" on ");
            m2.append(self.device_serial.as_str());
            let mut emitted: Vec<Emission> = Vec::new();
            emitted.push(self.status("running", 0, m1));
            emitted.push(self.log(now, "info", m2));
            let step = RunStep { emitted: emitted, request: RunRequest::CheckJar { jar_name: self.jar_name() } };
            assert(step@.emitted =~= begin_current(old(self)@, now@).1.emitted);
            step
        } else {
            self.stage = RunStage::Finished;
            let step = RunStep { emitted: Vec::new(), request: RunRequest::Finished };
            assert(step@.emitted =~= Seq::<EmissionView>::empty());
            step
        }
    }

    fn advance(&mut self, now: &str, done: Vec<Emission>) -> (step: RunStep)
        requires
            old(self).wf(),
            old(self).stage != RunStage::Finished,
        ensures
            final(self).wf(),
            (final(self)@, step@) == advance(old(self)@, now@, emissions_view(done@)),
    {
        assert(self.current < self.tests.len());
        self.current = self.current + 1;
        let next = self.begin(now);
        let mut emitted = done;
        let mut rest = next.emitted;
        let ghost d = emitted@;
        let ghost r = rest@;
        emitted.append(&mut rest);
        assert(emissions_view(emitted@) =~= emissions_view(d) + emissions_view(r));
        RunStep { emitted: emitted, request: next.request }
    }

    fn pending_request(&self) -> (r: RunRequest)
        requires
            self.wf(),
        ensures
            r@ == pending(self@),
    {
        match self.stage {
            RunStage::CheckingJar => RunRequest::CheckJar { jar_name: self.jar_name() },
            RunStage::Launching => RunRequest::Launch {
                test_id: self.tests[self.current].clone(),
                jar_name: self.jar_name(),
            },
            RunStage::Streaming => RunRequest::ReadLine,
            RunStage::Exiting => RunRequest::AwaitExit,
            RunStage::Finished => RunRequest::Finished,
        }
    }

    /// Starts the sequence of `tests` on device `device_serial`; `now` is the
    /// time stamp of what the first step logs.
    pub fn new(device_serial: String, tests: Vec<String>, now: &str) -> (r: (DeviceRun, RunStep))
        ensures
            r.0.wf(),
            (r.0@, r.1@) == begin_current(
                DeviceRunView {
                    device_serial: device_serial@,
                    tests: tests@.map_values(|t: String| t@),
                    current: 0,
                    stage: RunStage::CheckingJar,
                    line_count: 0,
                },
                now@,
            ),
    {
        let mut run = DeviceRun {
            device_serial: device_serial,
            tests: tests,
            current: 0,
            stage: RunStage::CheckingJar,
            line_count: 0,
        };
        let step = run.begin(now);
        (run, step)
    }

    /// Takes what happened and returns what to publish and do next; `now` is
    /// the time stamp of what this step logs.
    pub fn step(&mut self, event: RunEvent, now: &str) -> (step: RunStep)
        requires
            old(self).wf(),
        ensures
            final(self).wf(),
            (final(self)@, step@) == run_step(old(self)@, event@, now@),
    {
        match (self.stage, event) {
            (RunStage::CheckingJar, RunEvent::JarChecked { exists, jar_path }) => {
                let t = self.tests[self.current].clone();
                assert(t@ == self@.tests[self@.current as int]);
                if !exists && !same_text(t.as_str(), "getprop") {
                    let mut m1 = "JAR not found: ".to_string();
                    m1.append(self.jar_name().as_str());
                    assert(m1@ =~= "JAR not found: "@ + t@ + ".jar"@);
                    let mut m2 = "JAR not found: ".to_string();
                    m2.append(jar_path.as_str());
                    let mut done: Vec<Emission> = Vec::new();
                    done.push(self.status("error", 0, m1));
                    done.push(self.log(now, "error", m2));
                    let ghost dv = emissions_view(done@);
                    assert(dv =~= seq![
                        status_of(self@, "error"@, 0, "JAR not found: "@ + t@ + ".jar"@),
                        log_of(self@, now@, "error"@, "JAR not found: "@ + jar_path@),
                    ]);
                    self.advance(now, done)
                } else {
                    self.stage = RunStage::Launching;
                    let step = RunStep {
                        emitted: Vec::new(),
                        request: RunRequest::Launch { test_id: t, jar_name: self.jar_name() },
                    };
                    assert(step@.emitted =~= Seq::<EmissionView>::empty());
                    step
                }
            },
            (RunStage::Launching, RunEvent::LaunchFailed { reason }) => {
                let mut m = "Failed to start: ".to_string();
                m.append(reason.as_str());
                let mut done: Vec<Emission> = Vec::new();
                done.push(self.status("error", 0, m));
                assert(emissions_view(done@) =~= seq![
                    status_of(self@, "error"@, 0, "Failed to start: "@ + reason@),
                ]);
                self.advance(now, done)
            },
            (RunStage::Launching, RunEvent::Launched) => {
                self.stage = RunStage::Streaming;
                self.line_count = 0;
                let step = RunStep { emitted: Vec::new(), request: RunRequest::ReadLine };
                assert(step@.emitted =~= Seq::<EmissionView>::empty());
                step
            },
            (RunStage::Streaming, RunEvent::Line { text }) => {
                if self.line_count < u64::MAX {
                    self.line_count = self.line_count + 1;
                }
                let n = self.line_count;
                let level = classify_line(text.as_str());
                let mut m = "Processing... (".to_string();
                push_decimal(&mut m, n);
                m.append(" lines)");
                let mut emitted: Vec<Emission> = Vec::new();
                emitted.push(self.log(now, level.as_str(), text));
                emitted.push(self.status("running", progress_for(n), m));
                let step = RunStep { emitted: emitted, request: RunRequest::ReadLine };
                assert(step@.emitted =~= run_step(old(self)@, event@, now@).1.emitted);
                step
            },
            (RunStage::Streaming, RunEvent::OutputClosed) => {
                self.stage = RunStage::Exiting;
                let step = RunStep { emitted: Vec::new(), request: RunRequest::AwaitExit };
                assert(step@.emitted =~= Seq::<EmissionView>::empty());
                step
            },
            (RunStage::Exiting, RunEvent::Exited { outcome }) => {
                let t = self.tests[self.current].clone();
                let (status, shout, level, verdict) = match outcome {
                    ExitOutcome::Success => ("pass", "PASS", "success", "PASS"),
                    ExitOutcome::Failure => ("fail", "FAIL", "error", "FAIL"),
                    ExitOutcome::Unknown => ("error", "ERROR", "error", "FAIL"),
                };
                let mut m1 = t.clone();
                m1.append(" completed: ");
                m1.append(shout);
                let mut m2 = verdict.to_owned();
                m2.append(" ");
                m2.append(t.as_str());
                m2.append(" on ");
                m2.append(self.device_serial.as_str());
                m2.append(" - ");
                m2.append(shout);
                let mut done: Vec<Emission> = Vec::new();
                done.push(self.status(status, 100, m1));
                done.push(self.log(now, level, m2));
                assert(emissions_view(done@) =~= seq![
                    status_of(self@, outcome_status(outcome), 100, t@ + " completed: "@ + outcome_shout(outcome)),
                    log_of(
                        self@,
                        now@,
                        outcome_level(outcome),
                        outcome_verdict(outcome) + " "@ + t@ + " on "@ + self@.device_serial + " - "@
                            + outcome_shout(outcome),
                    ),
                ]);
                self.advance(now, done)
            },
            (_, _) => {
                let step = RunStep { emitted: Vec::new(), request: self.pending_request() };
                assert(step@.emitted =~= Seq::<EmissionView>::empty());
                step
            },
        }
    }
}

} // verus!
