//! The records that the runner reports: devices, tests, status updates and
//! log entries, each with a view over `Seq<char>`.

use vstd::prelude::*;

verus! {

/// A device as `adb` reports it.
pub struct DeviceInfo {
    pub serial: String,
    pub model: String,
    pub pda: String,
    pub android_version: String,
    /// `"device"`, `"offline"`, `"unauthorized"`, ...
    pub status: String,
}

pub struct DeviceInfoView {
    pub serial: Seq<char>,
    pub model: Seq<char>,
    pub pda: Seq<char>,
    pub android_version: Seq<char>,
    pub status: Seq<char>,
}

impl View for DeviceInfo {
    type V = DeviceInfoView;

    open spec fn view(&self) -> DeviceInfoView {
        DeviceInfoView {
            serial: self.serial@,
            model: self.model@,
            pda: self.pda@,
            android_version: self.android_version@,
            status: self.status@,
        }
    }
}

/// A test tool of the ATM suite.
pub struct TestItem {
    pub id: String,
    pub name: String,
    pub jar: String,
    pub main_class: String,
    /// `"auto"`, `"optional"` or `"manual"`.
    pub test_type: String,
    pub description: String,
}

pub struct TestItemView {
    pub id: Seq<char>,
    pub name: Seq<char>,
    pub jar: Seq<char>,
    pub main_class: Seq<char>,
    pub test_type: Seq<char>,
    pub description: Seq<char>,
}

impl View for TestItem {
    type V = TestItemView;

    open spec fn view(&self) -> TestItemView {
        TestItemView {
            id: self.id@,
            name: self.name@,
            jar: self.jar@,
            main_class: self.main_class@,
            test_type: self.test_type@,
            description: self.description@,
        }
    }
}

/// The views of a sequence of test items.
pub open spec fn items_view(items: Seq<TestItem>) -> Seq<TestItemView> {
    items.map_values(|t: TestItem| t@)
}

/// The state of one test on one device.
pub struct TestStatus {
    pub device_serial: String,
    pub test_id: String,
    /// `"idle"`, `"running"`, `"pass"`, `"fail"`, `"skipped"` or `"error"`.
    pub status: String,
    /// Progress in hundredths: 0 to 100.
    pub progress: u32,
    pub message: String,
}

pub struct TestStatusView {
    pub device_serial: Seq<char>,
    pub test_id: Seq<char>,
    pub status: Seq<char>,
    pub progress: u32,
    pub message: Seq<char>,
}

impl View for TestStatus {
    type V = TestStatusView;

    open spec fn view(&self) -> TestStatusView {
        TestStatusView {
            device_serial: self.device_serial@,
            test_id: self.test_id@,
            status: self.status@,
            progress: self.progress,
            message: self.message@,
        }
    }
}

/// One line of the console.
pub struct LogEntry {
    pub device_serial: String,
    pub test_id: String,
    pub timestamp: String,
    /// `"info"`, `"warn"`, `"error"` or `"success"`.
    pub level: String,
    pub message: String,
}

pub struct LogEntryView {
    pub device_serial: Seq<char>,
    pub test_id: Seq<char>,
    pub timestamp: Seq<char>,
    pub level: Seq<char>,
    pub message: Seq<char>,
}

impl View for LogEntry {
    type V = LogEntryView;

    open spec fn view(&self) -> LogEntryView {
        LogEntryView {
            device_serial: self.device_serial@,
            test_id: self.test_id@,
            timestamp: self.timestamp@,
            level: self.level@,
            message: self.message@,
        }
    }
}

} // verus!
