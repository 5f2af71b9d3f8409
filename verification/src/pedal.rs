//! The pedal side: what the scanner reports, which devices it tries and in
//! what order, and which raw input events are passed on.

use evdev::{EventType, InputEvent, InputEventKind};
use vstd::prelude::*;
use vstd::string::*;
use crate::config::{Config, DEFAULT_PRODUCT_ID, DEFAULT_VENDOR_ID};

verus! {

/// How long the scanner rests after a scan that connected nothing.
pub const SCAN_BACKOFF_MS: u64 = 2000;

/// The shortest time between two `Scanning` reports, in microseconds.
pub const SCAN_REPORT_INTERVAL_US: u64 = 1_000_000;

/// The event type of key events.
pub const EV_KEY: u16 = 1;

/// The wire value of a key press.
pub const VALUE_PRESS: i32 = 1;

/// The wire value of a key release.
pub const VALUE_RELEASE: i32 = 0;

/// The wire value of a key repeat made by the operating system.
pub const VALUE_AUTOREPEAT: i32 = 2;

#[derive(Debug, Clone)]
pub enum PedalStatus {
    NotStarted,
    Scanning,
    Connected { name: String, path: String, vendor: u16, product: u16 },
    NotFound,
    Error(String),
}

#[derive(Debug, Clone, Copy, PartialEq, Eq, Structural)]
pub struct PedalEvent {
    /// The key code.
    pub code: u32,
    /// 1 for a press, 0 for a release.
    pub value: i32,
}

#[derive(Debug)]
pub enum PedalMsg {
    Status(PedalStatus),
    Input(PedalEvent),
    Disconnected,
}

/// One candidate of the priority list: an identity to look for among the
/// enumerated devices, or a device path to open directly.
#[derive(Debug, Clone)]
pub enum Preferred {
    VidPid { vid: u16, pid: u16 },
    Path(String),
}

/// What enumeration tells of one input device.
#[derive(Debug, Clone)]
pub struct InputDeviceInfo {
    pub path: String,
    pub vendor: u16,
    pub product: u16,
}

/// One input event as it comes off the device.
#[derive(Debug, Clone, Copy, PartialEq, Eq, Structural)]
pub struct RawInput {
    pub event_type: u16,
    pub code: u16,
    pub value: i32,
}

/// `evdev::InputEvent::kind`, asked of an event with the given fields: the
/// key code, if evdev takes the event for a key event. evdev goes by the
/// event type alone, takes type 1 for keys, and hands the code on as it is.
#[verifier::external_body]
fn key_code(event_type: u16, code: u16, value: i32) -> (key: Option<u16>)
    ensures
        key == if event_type == EV_KEY {
            Some(code)
        } else {
            None::<u16>
        },
{
    match InputEvent::new(EventType(event_type), code, value).kind() {
        InputEventKind::Key(k) => Some(k.code()),
        _ => None,
    }
}

/// A place in the search: a candidate of the list and, for an identity
/// candidate, a device of the enumeration.
#[derive(Debug, Clone, Copy, PartialEq, Eq, Structural)]
pub struct ScanCursor {
    pub candidate: usize,
    pub device: usize,
}

/// The candidate list of a configuration: the default pedal first, then the
/// configured models in their listed order, then the fallback path if one is
/// set.
pub open spec fn preferred_of(cfg: &Config) -> Seq<Preferred> {
    seq![Preferred::VidPid { vid: DEFAULT_VENDOR_ID, pid: DEFAULT_PRODUCT_ID }] + Seq::new(
        cfg.pedals@.len(),
        |i: int| Preferred::VidPid { vid: cfg.pedals@[i].vendor_id, pid: cfg.pedals@[i].product_id },
    ) + match cfg.input.device_path {
        Some(p) => seq![Preferred::Path(p)],
        None => Seq::empty(),
    }
}

/// Builds the candidate list in priority order.
pub fn preferred_device_paths(cfg: &Config) -> (prefs: Vec<Preferred>)
    ensures
        prefs@ == preferred_of(cfg),
{
    let mut v: Vec<Preferred> = Vec::new();
    v.push(Preferred::VidPid { vid: DEFAULT_VENDOR_ID, pid: DEFAULT_PRODUCT_ID });
    let mut i: usize = 0;
    while i < cfg.pedals.len()
        invariant
            i <= cfg.pedals@.len(),
            v@.len() == i + 1,
            v@[0] == (Preferred::VidPid { vid: DEFAULT_VENDOR_ID, pid: DEFAULT_PRODUCT_ID }),
            forall|k: int|
                0 <= k < i ==> v@[k + 1] == (Preferred::VidPid {
                    vid: cfg.pedals@[k].vendor_id,
                    pid: cfg.pedals@[k].product_id,
                }),
        decreases cfg.pedals@.len() - i,
    {
        let model = &cfg.pedals[i];
        v.push(Preferred::VidPid { vid: model.vendor_id, pid: model.product_id });
        i = i + 1;
    }
    match &cfg.input.device_path {
        Some(p) => {
            v.push(Preferred::Path(p.clone()));
        },
        None => {},
    }
    assert(v@ =~= preferred_of(cfg));
    v
}

/// Whether device `j` is to be tried for candidate `i`: an identity candidate
/// is tried on every enumerated device that reports its vendor and product;
/// a path candidate is tried once, under device index zero.
pub open spec fn is_attempt(
    prefs: Seq<Preferred>,
    devices: Seq<InputDeviceInfo>,
    i: int,
    j: int,
) -> bool {
    &&& 0 <= i < prefs.len()
    &&& match prefs[i] {
        Preferred::VidPid { vid, pid } => 0 <= j < devices.len() && devices[j].vendor == vid
            && devices[j].product == pid,
        Preferred::Path(_) => j == 0,
    }
}

/// The order of the search: candidates in list order, and for one candidate
/// the devices in enumeration order.
pub open spec fn precedes(i1: int, j1: int, i2: int, j2: int) -> bool {
    i1 < i2 || (i1 == i2 && j1 < j2)
}

impl ScanCursor {
    /// The place just behind this one.
    pub fn advance(self) -> (next: ScanCursor)
        requires
            self.device < usize::MAX,
        ensures
            next.candidate == self.candidate,
            next.device == self.device + 1,
    {
        ScanCursor { candidate: self.candidate, device: self.device + 1 }
    }
}

/// Whether `(i, j)` is the first attempt at or after `(from_i, from_j)` in the
/// order of the search.
pub open spec fn is_first_attempt_from(
    prefs: Seq<Preferred>,
    devices: Seq<InputDeviceInfo>,
    from_i: int,
    from_j: int,
    i: int,
    j: int,
) -> bool {
    &&& is_attempt(prefs, devices, i, j)
    &&& !precedes(i, j, from_i, from_j)
    &&& forall|a: int, b: int|
        !precedes(a, b, from_i, from_j) && precedes(a, b, i, j) ==> !#[trigger] is_attempt(
            prefs,
            devices,
            a,
            b,
        )
}

/// Whether `(i, j)` is the first attempt of the whole search.
pub open spec fn is_first_attempt(
    prefs: Seq<Preferred>,
    devices: Seq<InputDeviceInfo>,
    i: int,
    j: int,
) -> bool {
    is_first_attempt_from(prefs, devices, 0, 0, i, j)
}

/// The first attempt at or after `start` in the order of the search, or
/// `None` when nothing is left to try. A caller whose attempt fails to open
/// goes on from the place behind it.
pub fn discover_from(
    prefs: &Vec<Preferred>,
    devices: &Vec<InputDeviceInfo>,
    start: ScanCursor,
) -> (found: Option<ScanCursor>)
    ensures
        match found {
            Some(c) => is_first_attempt_from(
                prefs@,
                devices@,
                start.candidate as int,
                start.device as int,
                c.candidate as int,
                c.device as int,
            ),
            None => forall|i: int, j: int|
                !precedes(i, j, start.candidate as int, start.device as int) ==> !#[trigger] is_attempt(
                    prefs@,
                    devices@,
                    i,
                    j,
                ),
        },
{
    let mut i: usize = start.candidate;
    let mut j: usize = start.device;
    while i < prefs.len()
        invariant
            !precedes(i as int, j as int, start.candidate as int, start.device as int),
            forall|a: int, b: int|
                !precedes(a, b, start.candidate as int, start.device as int) && precedes(
                    a,
                    b,
                    i as int,
                    j as int,
                ) ==> !#[trigger] is_attempt(prefs@, devices@, a, b),
        decreases
                prefs@.len() - i,
                if j < devices@.len() {
                    devices@.len() - j
                } else {
                    0
                },
    {
        match &prefs[i] {
            Preferred::VidPid { vid, pid } => {
                if j < devices.len() {
                    let dev = &devices[j];
                    if dev.vendor == *vid && dev.product == *pid {
                        return Some(ScanCursor { candidate: i, device: j });
                    }
                    j = j + 1;
                } else {
                    i = i + 1;
                    j = 0;
                }
            },
            Preferred::Path(_) => {
                if j == 0 {
                    return Some(ScanCursor { candidate: i, device: j });
                }
                i = i + 1;
                j = 0;
            },
        }
    }
    None
}

/// The first attempt of a scan: the candidate that stands first in the list
/// among those with anything to try, whatever the order of enumeration.
pub fn discover(prefs: &Vec<Preferred>, devices: &Vec<InputDeviceInfo>) -> (found: Option<
    ScanCursor,
>)
    ensures
        match found {
            Some(c) => is_first_attempt(prefs@, devices@, c.candidate as int, c.device as int),
            None => forall|i: int, j: int| !#[trigger] is_attempt(prefs@, devices@, i, j),
        },
{
    let found = discover_from(prefs, devices, ScanCursor { candidate: 0, device: 0 });
    proof {
        assert forall|i: int, j: int| #[trigger]
            is_attempt(prefs@, devices@, i, j) implies !precedes(i, j, 0, 0) by {}
    }
    found
}

/// A search has at most one first attempt.
pub proof fn law_first_attempt_unique(
    prefs: Seq<Preferred>,
    devices: Seq<InputDeviceInfo>,
    i1: int,
    j1: int,
    i2: int,
    j2: int,
)
    requires
        is_first_attempt(prefs, devices, i1, j1),
        is_first_attempt(prefs, devices, i2, j2),
    ensures
        i1 == i2,
        j1 == j2,
{
    if precedes(i1, j1, i2, j2) {
        assert(!is_attempt(prefs, devices, i1, j1));
    }
    if precedes(i2, j2, i1, j1) {
        assert(!is_attempt(prefs, devices, i2, j2));
    }
}

/// List order goes before enumeration order: with two identity candidates
/// and two devices that were enumerated the other way round, the search
/// starts with the device of the first candidate, though it was enumerated
/// second. The two identities have to differ.
pub proof fn law_list_order_wins(
    first: Preferred,
    second: Preferred,
    enumerated_first: InputDeviceInfo,
    enumerated_second: InputDeviceInfo,
)
    requires
        first matches Preferred::VidPid { vid, pid } && enumerated_second.vendor == vid
            && enumerated_second.product == pid && !(enumerated_first.vendor == vid
            && enumerated_first.product == pid),
        second matches Preferred::VidPid { vid, pid } && enumerated_first.vendor == vid
            && enumerated_first.product == pid,
    ensures
        is_first_attempt(seq![first, second], seq![enumerated_first, enumerated_second], 0, 1),
{
    let prefs = seq![first, second];
    let devices = seq![enumerated_first, enumerated_second];
    assert(is_attempt(prefs, devices, 0, 1));
    assert forall|a: int, b: int| !precedes(a, b, 0, 0) && precedes(a, b, 0, 1) implies !#[trigger] is_attempt(
        prefs,
        devices,
        a,
        b,
    ) by {
        if a == 0 && b == 0 {
            assert(!is_attempt(prefs, devices, 0, 0));
        }
    }
}

/// What is passed on of one raw event: a key event that is no repeat made
/// up by the operating system, with its code and value; nothing of any other.
pub open spec fn passed_on(e: RawInput) -> Option<PedalEvent> {
    if e.event_type == EV_KEY && e.value != VALUE_AUTOREPEAT {
        Some(PedalEvent { code: e.code as u32, value: e.value })
    } else {
        None
    }
}

/// The events of a batch that are passed on, in their order.
pub open spec fn forwarded(batch: Seq<RawInput>) -> Seq<PedalEvent> {
    batch.filter_map(|e: RawInput| passed_on(e))
}

/// Picks the events of one batch that are passed on to the dispatcher.
pub fn forward_key_events(batch: &Vec<RawInput>) -> (events: Vec<PedalEvent>)
    ensures
        events@ == forwarded(batch@),
{
    let mut out: Vec<PedalEvent> = Vec::new();
    let mut i: usize = 0;
    while i < batch.len()
        invariant
            i <= batch@.len(),
            out@ == forwarded(batch@.take(i as int)),
        decreases batch@.len() - i,
    {
        let e = batch[i];
        proof {
            batch@.lemma_filter_map_take_succ(|e: RawInput| passed_on(e), i as int);
        }
        match key_code(e.event_type, e.code, e.value) {
            Some(code) => {
                if e.value != VALUE_AUTOREPEAT {
                    out.push(PedalEvent { code: code as u32, value: e.value });
                }
            },
            None => {},
        }
        i = i + 1;
    }
    proof {
        assert(batch@.take(batch@.len() as int) =~= batch@);
    }
    out
}

/// Whether a `Scanning` report is due: none was made yet, or the last one is
/// at least a second old.
pub fn scanning_report_due(last_report_us: Option<u64>, now_us: u64) -> (due: bool)
    ensures
        due == match last_report_us {
            Some(last) => now_us >= last && now_us - last >= SCAN_REPORT_INTERVAL_US,
            None => true,
        },
{
    match last_report_us {
        Some(last) => now_us >= last && now_us - last >= SCAN_REPORT_INTERVAL_US,
        None => true,
    }
}

/// How one scan ended.
#[derive(Debug)]
pub enum ScanOutcome {
    /// A device was opened; `name` is what it reports of itself, if anything.
    Found { name: Option<String>, path: String, vendor: u16, product: u16 },
    /// Nothing that was tried could be opened.
    NotFound,
    /// The devices could not be enumerated.
    Failed(String),
}

/// What the scanner does next.
#[derive(Debug)]
pub struct ScanStep {
    /// The message to send to the dispatcher.
    pub message: PedalMsg,
    /// Whether to read events from the device until it fails.
    pub read_events: bool,
    /// How long to rest before the next scan, in milliseconds.
    pub backoff_ms: u64,
}

/// Decides the scanner's next step from the outcome of a scan: a found device
/// is announced and read; anything else is reported and followed by a rest
/// before the list is scanned again from the top.
pub fn after_scan(outcome: ScanOutcome) -> (step: ScanStep)
    ensures
        match outcome {
            ScanOutcome::Found { name, path, vendor, product } => {
                &&& step.read_events
                &&& step.backoff_ms == 0
                &&& step.message matches PedalMsg::Status(
                    PedalStatus::Connected { name: shown, path: at, vendor: v, product: p },
                )
                &&& at == path
                &&& v == vendor
                &&& p == product
                &&& shown@ == match name {
                    Some(n) => n@,
                    None => "Unknown"@,
                }
            },
            ScanOutcome::NotFound => {
                &&& !step.read_events
                &&& step.backoff_ms == SCAN_BACKOFF_MS
                &&& step.message == PedalMsg::Status(PedalStatus::NotFound)
            },
            ScanOutcome::Failed(message) => {
                &&& !step.read_events
                &&& step.backoff_ms == SCAN_BACKOFF_MS
                &&& step.message == PedalMsg::Status(PedalStatus::Error(message))
            },
        },
{
    match outcome {
        ScanOutcome::Found { name, path, vendor, product } => {
            let shown = match name {
                Some(n) => n,
                None => String::from_str("Unknown"),
            };
            ScanStep {
                message: PedalMsg::Status(
                    PedalStatus::Connected { name: shown, path, vendor, product },
                ),
                read_events: true,
                backoff_ms: 0,
            }
        },
        ScanOutcome::NotFound => ScanStep {
            message: PedalMsg::Status(PedalStatus::NotFound),
            read_events: false,
            backoff_ms: SCAN_BACKOFF_MS,
        },
        ScanOutcome::Failed(message) => ScanStep {
            message: PedalMsg::Status(PedalStatus::Error(message)),
            read_events: false,
            backoff_ms: SCAN_BACKOFF_MS,
        },
    }
}

/// The scanner's step after a read from a connected device failed: the
/// failure counts as a disconnect, which is announced; the device is not read
/// again, and after a rest the list is scanned from the top.
pub fn after_read_error() -> (step: ScanStep)
    ensures
        step.message is Disconnected,
        !step.read_events,
        step.backoff_ms == SCAN_BACKOFF_MS,
{
    ScanStep { message: PedalMsg::Disconnected, read_events: false, backoff_ms: SCAN_BACKOFF_MS }
}

/// The line that shows a status to the operator.
pub open spec fn status_text(status: PedalStatus) -> Seq<char> {
    match status {
        PedalStatus::NotStarted => "Pedal: Not started"@,
        PedalStatus::Scanning => "Pedal: Scanning"@,
        PedalStatus::Connected { name, path, vendor, product } => "Pedal: Connected ("@ + name@
            + ", "@ + path@ + ")"@,
        PedalStatus::NotFound => "Pedal: Not found"@,
        PedalStatus::Error(e) => "Pedal: Error ("@ + e@ + ")"@,
    }
}

/// Renders a status for the operator.
pub fn status_label(status: &PedalStatus) -> (label: String)
    ensures
        label@ == status_text(*status),
{
    match status {
        PedalStatus::NotStarted => String::from_str("Pedal: Not started"),
        PedalStatus::Scanning => String::from_str("Pedal: Scanning"),
        PedalStatus::Connected { name, path, vendor: _, product: _ } => {
            let mut out = String::from_str("Pedal: Connected (");
            out.append(name.as_str());
            out.append(", ");
            out.append(path.as_str());
            out.append(")");
            out
        },
        PedalStatus::NotFound => String::from_str("Pedal: Not found"),
        PedalStatus::Error(e) => {
            let mut out = String::from_str("Pedal: Error (");
            out.append(e.as_str());
            out.append(")");
            out
        },
    }
}

} // verus!
