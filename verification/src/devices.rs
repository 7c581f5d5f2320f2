//! Devices: the listing printed by `adb devices -l`, the properties read
//! with `getprop`, and the order in which a device is probed.

use vstd::prelude::*;
use crate::model::{DeviceInfo, DeviceInfoView};
use crate::platform::{lossy_text, utf8_lossy};
use crate::text::{
    chars_of,
    lines,
    matches_at,
    same_text,
    seqs_of,
    split_lines,
    split_words,
    starts_with,
    string_from,
    string_of,
    trim,
    trim_bounds,
    words,
    no_white,
    law_words_are_words,
};

verus! {

broadcast use vstd::string::group_string_axioms;

// ─── Listing ────────────────────────────────────────────────────────────

/// The value of the first part that starts with `prefix`, without the
/// prefix; empty when no part does.
pub open spec fn prop_in(parts: Seq<Seq<char>>, prefix: Seq<char>) -> Seq<char>
    decreases parts.len(),
{
    if parts.len() == 0 {
        seq![]
    } else if starts_with(parts[0], prefix) {
        parts[0].skip(prefix.len() as int)
    } else {
        prop_in(parts.drop_first(), prefix)
    }
}

fn prop_in_chars(parts: &Vec<Vec<char>>, prefix: &Vec<char>) -> (r: Vec<char>)
    ensures
        r@ == prop_in(seqs_of(parts@), prefix@),
{
    let ghost all = seqs_of(parts@);
    let mut i: usize = 0;
    assert(all.skip(0) =~= all);
    while i < parts.len()
        invariant
            i <= parts.len(),
            all == seqs_of(parts@),
            prop_in(all, prefix@) == prop_in(all.skip(i as int), prefix@),
        decreases parts.len() - i,
    {
        assert(all.skip(i as int)[0] == parts@[i as int]@);
        if matches_at(&parts[i], prefix, 0) {
            let part = &parts[i];
            let mut out: Vec<char> = Vec::new();
            let mut k: usize = prefix.len();
            while k < part.len()
                invariant
                    prefix.len() <= k <= part.len(),
                    out@ == part@.subrange(prefix.len() as int, k as int),
                decreases part.len() - k,
            {
                out.push(part[k]);
                k = k + 1;
            }
            assert(out@ =~= part@.skip(prefix.len() as int));
            return out;
        }
        assert(all.skip(i as int).drop_first() =~= all.skip(i + 1));
        i = i + 1;
    }
    Vec::new()
}

/// `parts[i]@` for a slice of text slices.
pub open spec fn texts_of(parts: Seq<&str>) -> Seq<Seq<char>> {
    parts.map_values(|p: &str| p@)
}

/// The value of the first part starting with `prefix`, after the prefix
/// (for example `model:` in `model:SM_S918B`); empty when there is none.
pub fn extract_prop(parts: &[&str], prefix: &str) -> (value: String)
    ensures
        value@ == prop_in(texts_of(parts@), prefix@),
{
    let mut all: Vec<Vec<char>> = Vec::new();
    let mut i: usize = 0;
    while i < parts.len()
        invariant
            i <= parts.len(),
            seqs_of(all@) == texts_of(parts@).take(i as int),
        decreases parts.len() - i,
    {
        let ghost before = all@;
        let c = chars_of(parts[i]);
        assert(c@ == texts_of(parts@)[i as int]);
        all.push(c);
        assert(all@ =~= before.push(c));
        assert(seqs_of(all@) =~= seqs_of(before).push(c@));
        assert(seqs_of(all@) =~= texts_of(parts@).take(i + 1));
        i = i + 1;
    }
    assert(texts_of(parts@).take(i as int) =~= texts_of(parts@));
    let p = chars_of(prefix);
    let v = prop_in_chars(&all, &p);
    string_of(&v)
}

/// One device line of the listing, before its properties are read.
pub struct DeviceEntry {
    pub serial: String,
    /// `"device"`, `"offline"`, `"unauthorized"`, ...
    pub status: String,
    /// The `model:` field, or the `device:` field where there is no model.
    pub model: String,
}

pub struct DeviceEntryView {
    pub serial: Seq<char>,
    pub status: Seq<char>,
    pub model: Seq<char>,
}

impl View for DeviceEntry {
    type V = DeviceEntryView;

    open spec fn view(&self) -> DeviceEntryView {
        DeviceEntryView { serial: self.serial@, status: self.status@, model: self.model@ }
    }
}

pub open spec fn entries_view(v: Seq<DeviceEntry>) -> Seq<DeviceEntryView> {
    v.map_values(|e: DeviceEntry| e@)
}

/// The device that one line of the listing describes: the line trimmed,
/// skipped when empty or a `*` daemon notice, and otherwise split at white
/// space into serial, status and `key:value` fields; fewer than two fields
/// describe no device.
pub open spec fn entry_of_line(line: Seq<char>) -> Option<DeviceEntryView> {
    let t = trim(line);
    if t.len() == 0 || t[0] == '*' {
        None
    } else {
        let parts = words(t);
        if parts.len() >= 2 {
            let model = prop_in(parts, "model:"@);
            Some(
                DeviceEntryView {
                    serial: parts[0],
                    status: parts[1],
                    model: if model.len() == 0 {
                        prop_in(parts, "device:"@)
                    } else {
                        model
                    },
                },
            )
        } else {
            None
        }
    }
}

/// The devices that the given lines describe, in order.
pub open spec fn entries_of(ls: Seq<Seq<char>>) -> Seq<DeviceEntryView>
    decreases ls.len(),
{
    if ls.len() == 0 {
        seq![]
    } else {
        let rest = entries_of(ls.drop_last());
        match entry_of_line(ls.last()) {
            Some(e) => rest.push(e),
            None => rest,
        }
    }
}

/// The devices of an `adb devices -l` listing: every line after the
/// heading line.
pub open spec fn device_listing(text: Seq<char>) -> Seq<DeviceEntryView> {
    let ls = lines(text);
    if ls.len() == 0 {
        seq![]
    } else {
        entries_of(ls.drop_first())
    }
}

fn entry_from_line(line: &Vec<char>) -> (e: Option<DeviceEntry>)
    ensures
        match e {
            Some(x) => entry_of_line(line@) == Some(x@),
            None => entry_of_line(line@) is None,
        },
{
    let (lo, hi) = trim_bounds(line);
    if lo == hi || line[lo] == '*' {
        return None;
    }
    let parts = split_words(line, lo, hi);
    if parts.len() < 2 {
        return None;
    }
    proof {
        reveal_strlit("model:");
        reveal_strlit("device:");
    }
    let model = prop_in_chars(&parts, &chars_of("model:"));
    let model = if model.len() == 0 {
        prop_in_chars(&parts, &chars_of("device:"))
    } else {
        model
    };
    Some(
        DeviceEntry {
            serial: string_of(&parts[0]),
            status: string_of(&parts[1]),
            model: string_of(&model),
        },
    )
}

/// The devices listed in the text printed by `adb devices -l`.
pub fn parse_device_listing(text: &str) -> (devices: Vec<DeviceEntry>)
    ensures
        entries_view(devices@) == device_listing(text@),
{
    let v = chars_of(text);
    let ls = split_lines(&v);
    let mut devices: Vec<DeviceEntry> = Vec::new();
    if ls.len() == 0 {
        return devices;
    }
    let ghost tail = seqs_of(ls@).drop_first();
    let mut i: usize = 1;
    assert(tail.take(0) =~= Seq::<Seq<char>>::empty());
    while i < ls.len()
        invariant
            1 <= i <= ls.len(),
            tail == seqs_of(ls@).drop_first(),
            entries_view(devices@) == entries_of(tail.take(i - 1)),
        decreases ls.len() - i,
    {
        assert(tail.take(i as int).drop_last() =~= tail.take(i - 1));
        assert(tail.take(i as int).last() == ls@[i as int]@);
        let ghost before = devices@;
        match entry_from_line(&ls[i]) {
            Some(e) => {
                devices.push(e);
                assert(entries_view(devices@) =~= entries_view(before).push(e@));
            },
            None => {},
        }
        i = i + 1;
    }
    assert(tail.take(i - 1) =~= tail);
    devices
}

/// The devices listed in the raw output of `adb devices -l`.
pub fn device_listing_from_output(stdout: &[u8]) -> (devices: Vec<DeviceEntry>)
    ensures
        entries_view(devices@) == device_listing(lossy_text(stdout@)),
{
    let text = utf8_lossy(stdout);
    parse_device_listing(text.as_str())
}

/// The value of a property: the trimmed output of `getprop`, or `"N/A"`
/// when the command could not be run.
pub open spec fn prop_answer(output: Option<Seq<u8>>) -> Seq<char> {
    match output {
        Some(bytes) => trim(lossy_text(bytes)),
        None => "N/A"@,
    }
}

/// The value of a device property from the output of
/// `adb -s <serial> shell getprop <prop>`; `None` where the command could
/// not be run.
pub fn device_prop_value(output: Option<&[u8]>) -> (value: String)
    ensures
        value@ == prop_answer(
            match output {
                Some(b) => Some(b@),
                None => None,
            },
        ),
{
    match output {
        Some(bytes) => {
            let text = utf8_lossy(bytes);
            let v = chars_of(text.as_str());
            let (lo, hi) = trim_bounds(&v);
            string_from(&v, lo, hi)
        },
        None => "N/A".to_string(),
    }
}

/// A listed device has a serial and a status, each a non-empty word
/// without white space.
proof fn law_listed_fields_are_words(ls: Seq<Seq<char>>)
    ensures
        forall|i: int|
            0 <= i < entries_of(ls).len() ==> {
                let e = #[trigger] entries_of(ls)[i];
                &&& e.serial.len() > 0 && no_white(e.serial)
                &&& e.status.len() > 0 && no_white(e.status)
            },
    decreases ls.len(),
{
    if ls.len() > 0 {
        law_listed_fields_are_words(ls.drop_last());
        let rest = entries_of(ls.drop_last());
        let t = trim(ls.last());
        law_words_are_words(t);
        match entry_of_line(ls.last()) {
            Some(e) => {
                assert(words(t).len() >= 2);
                assert(e.serial == words(t)[0]);
                assert(e.status == words(t)[1]);
                assert forall|i: int| 0 <= i < rest.push(e).len() implies {
                    let x = #[trigger] rest.push(e)[i];
                    &&& x.serial.len() > 0 && no_white(x.serial)
                    &&& x.status.len() > 0 && no_white(x.status)
                } by {
                    if i < rest.len() {
                        assert(rest.push(e)[i] == rest[i]);
                    }
                }
            },
            None => {},
        }
    }
}

/// Every device of a listing has a serial and a status, each a non-empty
/// word without white space.
pub proof fn law_listing_fields_are_words(text: Seq<char>)
    ensures
        forall|i: int|
            0 <= i < device_listing(text).len() ==> {
                let e = #[trigger] device_listing(text)[i];
                &&& e.serial.len() > 0 && no_white(e.serial)
                &&& e.status.len() > 0 && no_white(e.status)
            },
{
    let ls = lines(text);
    if ls.len() > 0 {
        law_listed_fields_are_words(ls.drop_first());
    }
}

/// A line that describes a device: trimmed, it is not empty, does not start
/// with `*`, and has at least two words.
pub open spec fn describes_device(line: Seq<char>) -> bool {
    let t = trim(line);
    t.len() > 0 && t[0] != '*' && words(t).len() >= 2
}

/// The trimmed lines that describe devices, in order.
pub open spec fn device_lines(ls: Seq<Seq<char>>) -> Seq<Seq<char>>
    decreases ls.len(),
{
    if ls.len() == 0 {
        seq![]
    } else {
        let rest = device_lines(ls.drop_last());
        if describes_device(ls.last()) {
            rest.push(trim(ls.last()))
        } else {
            rest
        }
    }
}

/// The device that a kept line describes: its first two words, and the
/// `model:` value or else the `device:` value.
pub open spec fn described_by(t: Seq<char>) -> DeviceEntryView {
    let parts = words(t);
    DeviceEntryView {
        serial: parts[0],
        status: parts[1],
        model: if prop_in(parts, "model:"@).len() > 0 {
            prop_in(parts, "model:"@)
        } else {
            prop_in(parts, "device:"@)
        },
    }
}

proof fn lemma_entries_follow_lines(ls: Seq<Seq<char>>)
    ensures
        entries_of(ls) == device_lines(ls).map_values(|t: Seq<char>| described_by(t)),
    decreases ls.len(),
{
    if ls.len() > 0 {
        lemma_entries_follow_lines(ls.drop_last());
        let d = device_lines(ls.drop_last());
        if describes_device(ls.last()) {
            assert(d.push(trim(ls.last())).map_values(|t: Seq<char>| described_by(t))
                =~= d.map_values(|t: Seq<char>| described_by(t)).push(described_by(trim(ls.last()))));
        }
    } else {
        assert(device_lines(ls).map_values(|t: Seq<char>| described_by(t)) =~= Seq::<
            DeviceEntryView,
        >::empty());
    }
}

/// The listing describes one device per line after the heading that
/// describes one, in order, duplicates kept: the serial is its first word,
/// the status its second, and the model its `model:` value or else its
/// `device:` value (empty where neither occurs).
pub proof fn law_listing_follows_lines(text: Seq<char>)
    ensures
        ({
            let ls = lines(text);
            let kept = if ls.len() == 0 {
                seq![]
            } else {
                device_lines(ls.drop_first())
            };
            &&& device_listing(text).len() == kept.len()
            &&& forall|i: int|
                0 <= i < kept.len() ==> #[trigger] device_listing(text)[i] == described_by(kept[i])
        }),
{
    let ls = lines(text);
    if ls.len() > 0 {
        lemma_entries_follow_lines(ls.drop_first());
    }
}

// ─── Probing one device ─────────────────────────────────────────────────

/// Where the probe of a device stands.
#[derive(PartialEq, Eq, Structural, Clone, Copy)]
pub enum ProbeStage {
    /// Waiting for `ro.build.version.release`.
    Version,
    /// Waiting for `ro.build.PDA`.
    Pda,
    /// Waiting for `ro.build.display.id`, asked when the PDA is empty or `"N/A"`.
    DisplayId,
    /// All is known.
    Done,
}

/// The properties of one device, read one after the other.
pub struct DeviceProbe {
    pub entry: DeviceEntry,
    pub android_version: String,
    pub pda: String,
    pub stage: ProbeStage,
}

pub struct DeviceProbeView {
    pub entry: DeviceEntryView,
    pub android_version: Seq<char>,
    pub pda: Seq<char>,
    pub stage: ProbeStage,
}

impl View for DeviceProbe {
    type V = DeviceProbeView;

    open spec fn view(&self) -> DeviceProbeView {
        DeviceProbeView {
            entry: self.entry@,
            android_version: self.android_version@,
            pda: self.pda@,
            stage: self.stage,
        }
    }
}

/// What the probe needs next.
pub enum ProbeStep {
    /// Read this property of the device.
    Query(String),
    /// The device is fully described.
    Ready(DeviceInfo),
}

pub enum ProbeStepView {
    Query(Seq<char>),
    Ready(DeviceInfoView),
}

impl View for ProbeStep {
    type V = ProbeStepView;

    open spec fn view(&self) -> ProbeStepView {
        match self {
            ProbeStep::Query(p) => ProbeStepView::Query(p@),
            ProbeStep::Ready(d) => ProbeStepView::Ready(d@),
        }
    }
}

/// The description of a device from its listing and its two properties.
pub open spec fn described(
    e: DeviceEntryView,
    android_version: Seq<char>,
    pda: Seq<char>,
) -> DeviceInfoView {
    DeviceInfoView {
        serial: e.serial,
        model: e.model,
        pda: pda,
        android_version: android_version,
        status: e.status,
    }
}

/// The first step of a probe: a device that is online (`"device"`) is asked
/// for its Android version; any other is described at once, with `"N/A"`
/// for both properties.
pub open spec fn probe_start(e: DeviceEntryView) -> (DeviceProbeView, ProbeStepView) {
    if e.status == "device"@ {
        (
            DeviceProbeView { entry: e, android_version: seq![], pda: seq![], stage: ProbeStage::Version },
            ProbeStepView::Query("ro.build.version.release"@),
        )
    } else {
        (
            DeviceProbeView { entry: e, android_version: "N/A"@, pda: "N/A"@, stage: ProbeStage::Done },
            ProbeStepView::Ready(described(e, "N/A"@, "N/A"@)),
        )
    }
}

/// A PDA value that calls for the display id in its place.
pub open spec fn pda_missing(pda: Seq<char>) -> bool {
    pda == "N/A"@ || pda.len() == 0
}

/// The step after the answer `value` to the pending query.
pub open spec fn probe_answer(p: DeviceProbeView, value: Seq<char>) -> (
    DeviceProbeView,
    ProbeStepView,
) {
    match p.stage {
        ProbeStage::Version => (
            DeviceProbeView { android_version: value, stage: ProbeStage::Pda, ..p },
            ProbeStepView::Query("ro.build.PDA"@),
        ),
        ProbeStage::Pda => if pda_missing(value) {
            (
                DeviceProbeView { pda: value, stage: ProbeStage::DisplayId, ..p },
                ProbeStepView::Query("ro.build.display.id"@),
            )
        } else {
            (
                DeviceProbeView { pda: value, stage: ProbeStage::Done, ..p },
                ProbeStepView::Ready(described(p.entry, p.android_version, value)),
            )
        },
        ProbeStage::DisplayId => (
            DeviceProbeView { pda: value, stage: ProbeStage::Done, ..p },
            ProbeStepView::Ready(described(p.entry, p.android_version, value)),
        ),
        ProbeStage::Done => (p, ProbeStepView::Ready(described(p.entry, p.android_version, p.pda))),
    }
}

fn describe(e: &DeviceEntry, android_version: &String, pda: &String) -> (d: DeviceInfo)
    ensures
        d@ == described(e@, android_version@, pda@),
{
    DeviceInfo {
        serial: e.serial.clone(),
        model: e.model.clone(),
        pda: pda.clone(),
        android_version: android_version.clone(),
        status: e.status.clone(),
    }
}

impl DeviceProbe {
    /// Starts probing the device of a listing line.
    pub fn start(entry: DeviceEntry) -> (r: (DeviceProbe, ProbeStep))
        ensures
            (r.0@, r.1@) == probe_start(entry@),
    {
        if same_text(entry.status.as_str(), "device") {
            let p = DeviceProbe {
                entry: entry,
                android_version: String::new(),
                pda: String::new(),
                stage: ProbeStage::Version,
            };
            (p, ProbeStep::Query("ro.build.version.release".to_string()))
        } else {
            let na = "N/A".to_string();
            let d = describe(&entry, &na, &na);
            let p = DeviceProbe {
                entry: entry,
                android_version: na.clone(),
                pda: na,
                stage: ProbeStage::Done,
            };
            (p, ProbeStep::Ready(d))
        }
    }

    /// Takes the value of the property last asked for.
    pub fn answer(&mut self, value: String) -> (step: ProbeStep)
        ensures
            (final(self)@, step@) == probe_answer(old(self)@, value@),
    {
        match self.stage {
            ProbeStage::Version => {
                self.android_version = value;
                self.stage = ProbeStage::Pda;
                ProbeStep::Query("ro.build.PDA".to_string())
            },
            ProbeStage::Pda => {
                let missing = same_text(value.as_str(), "N/A") || value.as_str().is_empty();
                self.pda = value;
                if missing {
                    self.stage = ProbeStage::DisplayId;
                    ProbeStep::Query("ro.build.display.id".to_string())
                } else {
                    self.stage = ProbeStage::Done;
                    ProbeStep::Ready(describe(&self.entry, &self.android_version, &self.pda))
                }
            },
            ProbeStage::DisplayId => {
                self.pda = value;
                self.stage = ProbeStage::Done;
                ProbeStep::Ready(describe(&self.entry, &self.android_version, &self.pda))
            },
            ProbeStage::Done => ProbeStep::Ready(
                describe(&self.entry, &self.android_version, &self.pda),
            ),
        }
    }
}

/// A device online is described by the three answers it is asked for: the
/// version as given, and the PDA unless it is empty or `"N/A"`, in which
/// case the display id stands for it. Any other device is described
/// without a question, with `"N/A"` for both.
pub proof fn law_probe_outcome(
    e: DeviceEntryView,
    version: Seq<char>,
    pda: Seq<char>,
    display_id: Seq<char>,
)
    ensures
        e.status == "device"@ ==> {
            let (p1, s1) = probe_start(e);
            let (p2, s2) = probe_answer(p1, version);
            let (p3, s3) = probe_answer(p2, pda);
            let (p4, s4) = probe_answer(p3, display_id);
            &&& s1 == ProbeStepView::Query("ro.build.version.release"@)
            &&& s2 == ProbeStepView::Query("ro.build.PDA"@)
            &&& if pda_missing(pda) {
                &&& s3 == ProbeStepView::Query("ro.build.display.id"@)
                &&& s4 == ProbeStepView::Ready(described(e, version, display_id))
            } else {
                s3 == ProbeStepView::Ready(described(e, version, pda))
            }
        },
        e.status != "device"@ ==> probe_start(e).1 == ProbeStepView::Ready(
            described(e, "N/A"@, "N/A"@),
        ),
{
}

/// Once a probe has described its device, further answers change nothing.
pub proof fn law_probe_done_is_final(p: DeviceProbeView, value: Seq<char>)
    requires
        p.stage == ProbeStage::Done,
    ensures
        probe_answer(p, value).0 == p,
{
}

} // verus!
