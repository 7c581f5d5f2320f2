//! What a whole device sequence publishes, checked by a reader that
//! accepts only well-formed reports: for each tool in the given order, its
//! start status and start line, then output lines and running statuses
//! whose progress never goes down and stays at most 95 hundredths, then
//! exactly one final status (`"error"`, `"pass"` or `"fail"`), then at most
//! more lines of that tool, before the next tool starts. Every emission
//! names the device and the tool under way.

use vstd::prelude::*;
use crate::model::TestStatusView;
use crate::runner::{
    DeviceRunView,
    EmissionView,
    RunEventView,
    RunStage,
    begin_current,
    progress_after,
    run_step,
    run_wf,
};

verus! {

/// Where the reader of a report stands within the current tool.
pub enum ReportPhase {
    /// Nothing of the tool was read yet.
    Idle,
    /// Its start status was read; its start line comes next.
    Started,
    /// It is under way.
    Running,
    /// Its final status was read.
    Finalized,
}

pub struct ReportState {
    /// The index of the current tool.
    pub index: nat,
    pub phase: ReportPhase,
    /// The last progress shown while running.
    pub progress: nat,
}

/// The final statuses of a tool.
pub open spec fn is_final_status(status: Seq<char>) -> bool {
    status == "error"@ || status == "pass"@ || status == "fail"@
}

/// The status that starts tool `t` on device `serial`.
pub open spec fn start_status(serial: Seq<char>, t: Seq<char>) -> EmissionView {
    EmissionView::Status(
        TestStatusView {
            device_serial: serial,
            test_id: t,
            status: "running"@,
            progress: 0,
            message: "Starting "@ + t + "..."@,
        },
    )
}

/// The info line that starts tool `t` on device `serial`.
pub open spec fn is_start_line(serial: Seq<char>, t: Seq<char>, e: EmissionView) -> bool {
    e matches EmissionView::Log(l) && l.device_serial == serial && l.test_id == t && l.level
        == "info"@ && l.message == "▶ Starting "@ + t + " on "@ + serial
}

/// A console line of tool `t` on device `serial`.
pub open spec fn is_line_of(serial: Seq<char>, t: Seq<char>, e: EmissionView) -> bool {
    e matches EmissionView::Log(l) && l.device_serial == serial && l.test_id == t
}

/// Reads one emission; `None` where the report is not well formed.
pub open spec fn report_step(
    serial: Seq<char>,
    tests: Seq<Seq<char>>,
    q: ReportState,
    e: EmissionView,
) -> Option<ReportState> {
    match q.phase {
        ReportPhase::Idle => if q.index < tests.len() && e == start_status(
            serial,
            tests[q.index as int],
        ) {
            Some(ReportState { phase: ReportPhase::Started, ..q })
        } else {
            None
        },
        ReportPhase::Started => if is_start_line(serial, tests[q.index as int], e) {
            Some(ReportState { phase: ReportPhase::Running, progress: 0, ..q })
        } else {
            None
        },
        ReportPhase::Running => match e {
            EmissionView::Log(_) => if is_line_of(serial, tests[q.index as int], e) {
                Some(q)
            } else {
                None
            },
            EmissionView::Status(v) => if v.device_serial == serial && v.test_id
                == tests[q.index as int] {
                if v.status == "running"@ && q.progress <= v.progress && v.progress <= 95 {
                    Some(ReportState { progress: v.progress as nat, ..q })
                } else if is_final_status(v.status) && v.progress <= 100 {
                    Some(ReportState { phase: ReportPhase::Finalized, progress: 0, ..q })
                } else {
                    None
                }
            } else {
                None
            },
        },
        ReportPhase::Finalized => match e {
            EmissionView::Log(_) => if is_line_of(serial, tests[q.index as int], e) {
                Some(q)
            } else {
                None
            },
            EmissionView::Status(_) => if q.index + 1 < tests.len() && e == start_status(
                serial,
                tests[q.index + 1 as int],
            ) {
                Some(ReportState { index: q.index + 1, phase: ReportPhase::Started, progress: 0 })
            } else {
                None
            },
        },
    }
}

/// Reads a whole report from the left.
pub open spec fn report_all(
    serial: Seq<char>,
    tests: Seq<Seq<char>>,
    q: ReportState,
    es: Seq<EmissionView>,
) -> Option<ReportState>
    decreases es.len(),
{
    if es.len() == 0 {
        Some(q)
    } else {
        match report_step(serial, tests, q, es[0]) {
            None => None,
            Some(q2) => report_all(serial, tests, q2, es.drop_first()),
        }
    }
}

/// Where the reader stands after all that a sequence in state `s` has
/// published.
pub open spec fn report_state_of(s: DeviceRunView) -> ReportState {
    if s.stage == RunStage::Finished {
        if s.tests.len() == 0 {
            ReportState { index: 0, phase: ReportPhase::Idle, progress: 0 }
        } else {
            ReportState { index: (s.tests.len() - 1) as nat, phase: ReportPhase::Finalized, progress: 0 }
        }
    } else {
        ReportState {
            index: s.current,
            phase: ReportPhase::Running,
            progress: progress_after(s.line_count) as nat,
        }
    }
}

/// The state of a sequence before its first step.
pub open spec fn initial_run(serial: Seq<char>, tests: Seq<Seq<char>>) -> DeviceRunView {
    DeviceRunView {
        device_serial: serial,
        tests: tests,
        current: 0,
        stage: RunStage::CheckingJar,
        line_count: 0,
    }
}

/// The states and emissions of a sequence that takes `events`, each with
/// its time stamp, from state `s`.
pub open spec fn run_trace(s: DeviceRunView, events: Seq<(RunEventView, Seq<char>)>) -> (
    DeviceRunView,
    Seq<EmissionView>,
)
    decreases events.len(),
{
    if events.len() == 0 {
        (s, seq![])
    } else {
        let (s1, e1) = run_trace(s, events.drop_last());
        let (s2, step) = run_step(s1, events.last().0, events.last().1);
        (s2, e1 + step.emitted)
    }
}

/// What the steps keep of a sequence: the index in range, and no line
/// counted before the tool starts.
pub open spec fn trace_ok(s: DeviceRunView) -> bool {
    &&& run_wf(s)
    &&& (s.stage == RunStage::CheckingJar || s.stage == RunStage::Launching) ==> s.line_count == 0
}

proof fn lemma_report_concat(
    serial: Seq<char>,
    tests: Seq<Seq<char>>,
    q: ReportState,
    a: Seq<EmissionView>,
    b: Seq<EmissionView>,
)
    ensures
        report_all(serial, tests, q, a + b) == match report_all(serial, tests, q, a) {
            None => None,
            Some(q2) => report_all(serial, tests, q2, b),
        },
    decreases a.len(),
{
    if a.len() == 0 {
        assert(a + b =~= b);
    } else {
        assert((a + b)[0] == a[0]);
        assert((a + b).drop_first() =~= a.drop_first() + b);
        match report_step(serial, tests, q, a[0]) {
            None => {},
            Some(q2) => {
                lemma_report_concat(serial, tests, q2, a.drop_first(), b);
            },
        }
    }
}

proof fn lemma_report_one(serial: Seq<char>, tests: Seq<Seq<char>>, q: ReportState, x: EmissionView)
    ensures
        report_all(serial, tests, q, seq![x]) == report_step(serial, tests, q, x),
{
    let e = Seq::<EmissionView>::empty();
    assert(seq![x].drop_first() =~= e);
    assert(seq![x][0] == x);
    match report_step(serial, tests, q, x) {
        None => {},
        Some(q2) => {
            assert(report_all(serial, tests, q2, e) == Some(q2));
        },
    }
}

proof fn lemma_report_two(
    serial: Seq<char>,
    tests: Seq<Seq<char>>,
    q: ReportState,
    x: EmissionView,
    y: EmissionView,
)
    ensures
        report_all(serial, tests, q, seq![x, y]) == match report_step(serial, tests, q, x) {
            None => None,
            Some(q2) => report_step(serial, tests, q2, y),
        },
{
    assert(seq![x, y] =~= seq![x] + seq![y]);
    lemma_report_concat(serial, tests, q, seq![x], seq![y]);
    lemma_report_one(serial, tests, q, x);
    match report_step(serial, tests, q, x) {
        None => {},
        Some(q2) => {
            lemma_report_one(serial, tests, q2, y);
        },
    }
}

/// Starting a tool, read after the previous tool was finalized, or at the
/// very beginning.
proof fn lemma_begin_reported(s: DeviceRunView, now: Seq<char>, q: ReportState)
    requires
        s.current <= s.tests.len(),
        s.current == 0 ==> q == (ReportState { index: 0, phase: ReportPhase::Idle, progress: 0 }),
        s.current > 0 ==> q == (ReportState {
            index: (s.current - 1) as nat,
            phase: ReportPhase::Finalized,
            progress: 0,
        }),
    ensures
        ({
            let (s2, step) = begin_current(s, now);
            &&& trace_ok(s2)
            &&& report_all(s.device_serial, s.tests, q, step.emitted) == Some(report_state_of(s2))
        }),
{
    let (s2, step) = begin_current(s, now);
    if s.current < s.tests.len() {
        let t = s.tests[s.current as int];
        lemma_report_two(s.device_serial, s.tests, q, step.emitted[0], step.emitted[1]);
        assert(step.emitted =~= seq![step.emitted[0], step.emitted[1]]);
        assert(step.emitted[0] == start_status(s.device_serial, t));
    } else {
        lemma_report_one(s.device_serial, s.tests, q, step.emitted[0]);
    }
}

/// One step of a sequence publishes a well-formed continuation of its
/// report.
pub proof fn law_step_reported(s: DeviceRunView, e: RunEventView, now: Seq<char>)
    requires
        trace_ok(s),
    ensures
        ({
            let (s2, step) = run_step(s, e, now);
            &&& trace_ok(s2)
            &&& report_all(s.device_serial, s.tests, report_state_of(s), step.emitted) == Some(
                report_state_of(s2),
            )
        }),
{
    reveal_strlit("running");
    reveal_strlit("error");
    reveal_strlit("pass");
    reveal_strlit("fail");
    let (s2, step) = run_step(s, e, now);
    let serial = s.device_serial;
    let tests = s.tests;
    let q = report_state_of(s);
    if s.stage == RunStage::Finished {
        return;
    }
    let next = DeviceRunView { current: s.current + 1, ..s };
    let fin = ReportState { index: s.current, phase: ReportPhase::Finalized, progress: 0 };
    lemma_begin_reported(next, now, fin);
    let b = begin_current(next, now).1.emitted;
    match (s.stage, e) {
        (RunStage::CheckingJar, RunEventView::JarChecked { exists, jar_path }) => {
            if !exists && s.tests[s.current as int] != "getprop"@ {
                let d = step.emitted.take(2);
                assert(step.emitted =~= d + b);
                lemma_report_concat(serial, tests, q, d, b);
                lemma_report_two(serial, tests, q, d[0], d[1]);
                assert(d =~= seq![d[0], d[1]]);
                assert(d[0] matches EmissionView::Status(v) && v.status == "error"@ && v.progress == 0 && v.test_id == tests[s.current as int] && v.device_serial == serial);
                assert(q.phase == ReportPhase::Running);
                assert(report_step(serial, tests, q, d[0]) == Some(fin));
                assert(report_all(serial, tests, fin, b) == Some(report_state_of(s2)));
                assert(report_all(serial, tests, q, step.emitted) == Some(report_state_of(s2)));
            } else {
                assert(step.emitted =~= Seq::<EmissionView>::empty());
                assert(report_all(serial, tests, q, step.emitted) == Some(report_state_of(s2)));
            }
        },
        (RunStage::Launching, RunEventView::LaunchFailed { reason }) => {
            let d = step.emitted.take(1);
            assert(step.emitted =~= d + b);
            assert(d[0] matches EmissionView::Status(v) && v.status == "error"@ && v.progress == 0 && v.test_id == tests[s.current as int] && v.device_serial == serial);
            assert(q.phase == ReportPhase::Running);
            assert(report_step(serial, tests, q, d[0]) == Some(fin));
            assert(report_all(serial, tests, fin, b) == Some(report_state_of(s2)));
            lemma_report_concat(serial, tests, q, d, b);
            lemma_report_one(serial, tests, q, d[0]);
            assert(d =~= seq![d[0]]);
            assert(report_all(serial, tests, q, step.emitted) == Some(report_state_of(s2)));
        },
        (RunStage::Streaming, RunEventView::Line { text }) => {
            lemma_report_two(serial, tests, q, step.emitted[0], step.emitted[1]);
            assert(step.emitted =~= seq![step.emitted[0], step.emitted[1]]);
            assert(report_all(serial, tests, q, step.emitted) == Some(report_state_of(s2)));
        },
        (RunStage::Exiting, RunEventView::Exited { outcome }) => {
            let d = step.emitted.take(2);
            assert(step.emitted =~= d + b);
            lemma_report_concat(serial, tests, q, d, b);
            lemma_report_two(serial, tests, q, d[0], d[1]);
            assert(d =~= seq![d[0], d[1]]);
            assert(report_all(serial, tests, q, step.emitted) == Some(report_state_of(s2)));
        },
        _ => {
            assert(step.emitted =~= Seq::<EmissionView>::empty());
            assert(report_all(serial, tests, q, step.emitted) == Some(q));
        },
    }
}

proof fn lemma_trace_reported(s0: DeviceRunView, events: Seq<(RunEventView, Seq<char>)>)
    requires
        trace_ok(s0),
    ensures
        ({
            let (sk, es) = run_trace(s0, events);
            &&& trace_ok(sk)
            &&& sk.device_serial == s0.device_serial
            &&& sk.tests == s0.tests
            &&& report_all(s0.device_serial, s0.tests, report_state_of(s0), es) == Some(
                report_state_of(sk),
            )
        }),
    decreases events.len(),
{
    if events.len() > 0 {
        lemma_trace_reported(s0, events.drop_last());
        let (s1, e1) = run_trace(s0, events.drop_last());
        law_step_reported(s1, events.last().0, events.last().1);
        let (s2, step) = run_step(s1, events.last().0, events.last().1);
        lemma_report_concat(s0.device_serial, s0.tests, report_state_of(s0), e1, step.emitted);
    } else {
        assert(run_trace(s0, events).1 =~= Seq::<EmissionView>::empty());
    }
}

/// Whatever happens, the whole report of a device sequence is well formed
/// (see the module documentation): every tool is started in the order
/// given, reports a progress that never goes down while running, and gets
/// exactly one final status before the next tool starts. Once the sequence
/// is finished, every tool has had its final status.
pub proof fn law_sequence_reported(
    serial: Seq<char>,
    tests: Seq<Seq<char>>,
    now: Seq<char>,
    events: Seq<(RunEventView, Seq<char>)>,
)
    ensures
        ({
            let (s0, first) = begin_current(initial_run(serial, tests), now);
            let (sk, rest) = run_trace(s0, events);
            &&& report_all(
                serial,
                tests,
                ReportState { index: 0, phase: ReportPhase::Idle, progress: 0 },
                first.emitted + rest,
            ) == Some(report_state_of(sk))
            &&& sk.stage == RunStage::Finished && tests.len() > 0 ==> report_state_of(sk) == (
            ReportState {
                index: (tests.len() - 1) as nat,
                phase: ReportPhase::Finalized,
                progress: 0,
            })
        }),
{
    let init = initial_run(serial, tests);
    let q0 = ReportState { index: 0, phase: ReportPhase::Idle, progress: 0 };
    lemma_begin_reported(init, now, q0);
    let (s0, first) = begin_current(init, now);
    lemma_trace_reported(s0, events);
    lemma_report_concat(serial, tests, q0, first.emitted, run_trace(s0, events).1);
}

} // verus!
