//! The adb side of the tool: the argument lists of the adb invocations, the
//! parser of `adb devices` output, the choice of a device and the retry policy.
use vstd::prelude::*;
use std::path::PathBuf;

use crate::text::{
    opt_text, texts,
    chars_of, decimal, decimal_string, find_char, is_first, line_spans, lines, push_decimal,
    spans_text, split_once, string_of, trim, trim_span,
};

verus! {

#[verifier::external_type_specification]
#[verifier::external_body]
pub struct ExPathBuf(PathBuf);

/// `PathBuf::clone`: returns a copy of the path, the same path.
pub assume_specification[ <PathBuf as Clone>::clone ](p: &PathBuf) -> (r: PathBuf)
    ensures
        r == *p,
;

/// A device line of `adb devices`: its serial and its state.
#[derive(Clone, Debug, PartialEq, Eq)]
pub struct Device {
    pub serial: String,
    pub state: String,
}

impl View for Device {
    type V = (Seq<char>, Seq<char>);

    open spec fn view(&self) -> (Seq<char>, Seq<char>) {
        (self.serial@, self.state@)
    }
}

/// The views of a list of devices.
pub open spec fn devices_view(ds: Seq<Device>) -> Seq<(Seq<char>, Seq<char>)> {
    ds.map_values(|d: Device| d@)
}

/// The device that a line of `adb devices` describes: the trimmed text
/// before its first tab and the trimmed text after it.
pub open spec fn device_of_line(l: Seq<char>) -> Option<(Seq<char>, Seq<char>)> {
    match split_once(l, '\t') {
        Some((a, b)) => Some((trim(a), trim(b))),
        None => None,
    }
}

/// The devices that the lines `ls` describe, in order; lines without a tab
/// describe none.
pub open spec fn devices_of_lines(ls: Seq<Seq<char>>) -> Seq<(Seq<char>, Seq<char>)>
    decreases ls.len(),
{
    if ls.len() == 0 {
        seq![]
    } else {
        let rest = devices_of_lines(ls.drop_last());
        match device_of_line(ls.last()) {
            Some(d) => rest.push(d),
            None => rest,
        }
    }
}

/// The devices that `adb devices` output lists: every line after the
/// header that holds a tab.
pub open spec fn parsed_devices(out: Seq<char>) -> Seq<(Seq<char>, Seq<char>)> {
    if lines(out).len() == 0 {
        seq![]
    } else {
        devices_of_lines(lines(out).drop_first())
    }
}

/// Parses the output of `adb devices`.
pub fn parse_devices(out: &str) -> (r: Vec<Device>)
    ensures
        devices_view(r@) == parsed_devices(out@),
{
    let v = chars_of(out);
    let spans = line_spans(&v);
    let ghost ls = lines(v@);
    let mut r: Vec<Device> = Vec::new();
    if spans.len() == 0 {
        assert(devices_view(r@) =~= seq![]);
        return r;
    }
    let ghost tail = ls.drop_first();
    let mut k: usize = 1;
    assert(tail.take(0) =~= seq![]);
    while k < spans.len()
        invariant
            1 <= k <= spans.len(),
            v@ == out@,
            ls == lines(v@),
            tail == ls.drop_first(),
            spans_text(v@, spans@) == ls,
            forall|j: int| 0 <= j < spans.len() ==> (#[trigger] spans@[j]).0 <= spans@[j].1 && spans@[j].1 <= v.len(),
            devices_view(r@) == devices_of_lines(tail.take(k - 1)),
        decreases spans.len() - k,
    {
        let (a, b) = spans[k];
        let ghost l = v@.subrange(a as int, b as int);
        assert(l == ls[k as int]);
        assert(tail.take(k as int).drop_last() =~= tail.take(k - 1));
        assert(tail.take(k as int).last() == l);
        let ghost before = r@;
        match find_char(&v, a, b, '\t') {
            Some(i) => {
                let t = a + i;
                assert(l.take(i as int) =~= v@.subrange(a as int, t as int));
                assert(l.skip(i + 1) =~= v@.subrange(t + 1, b as int));
                assert(split_once(l, '\t') == Some((l.take(i as int), l.skip(i + 1)))) by {
                    let c = choose|j: int| is_first(l, '\t', j);
                    assert(is_first(l, '\t', c));
                    if c < i {
                        assert(l[c] != '\t');
                    }
                    if c > i {
                        assert(l[i as int] != '\t');
                    }
                }
                let (s0, s1) = trim_span(&v, a, t);
                let (t0, t1) = trim_span(&v, t + 1, b);
                let d = Device { serial: string_of(&v, s0, s1), state: string_of(&v, t0, t1) };
                r.push(d);
                assert(devices_view(r@) =~= devices_view(before).push(d@));
            },
            None => {
                assert(!exists|j: int| is_first(l, '\t', j)) by {
                    if exists|j: int| is_first(l, '\t', j) {
                        let j = choose|j: int| is_first(l, '\t', j);
                        assert(v@[a + j] == l[j]);
                    }
                }
                assert(devices_view(r@) =~= devices_view(before));
            },
        }
        k = k + 1;
    }
    assert(tail.take(k - 1) =~= tail);
    r
}


/// One line of a device listing: two spaces, the serial, a tab, the state.
pub open spec fn listing_line(d: (Seq<char>, Seq<char>)) -> Seq<char> {
    "  "@ + d.0 + "\t"@ + d.1
}

/// The listing of `ds` shown in errors: one line per device, joined by
/// newlines.
pub open spec fn listing(ds: Seq<(Seq<char>, Seq<char>)>) -> Seq<char>
    decreases ds.len(),
{
    if ds.len() == 0 {
        seq![]
    } else if ds.len() == 1 {
        listing_line(ds[0])
    } else {
        listing(ds.drop_last()) + "\n"@ + listing_line(ds.last())
    }
}

/// The serials of the devices of `ds` whose state is `device`, in order.
pub open spec fn online(ds: Seq<(Seq<char>, Seq<char>)>) -> Seq<Seq<char>>
    decreases ds.len(),
{
    if ds.len() == 0 {
        seq![]
    } else if ds.last().1 == "device"@ {
        online(ds.drop_last()).push(ds.last().0)
    } else {
        online(ds.drop_last())
    }
}

/// `i` is the first device of `ds` with serial `s`.
pub open spec fn is_first_serial(ds: Seq<(Seq<char>, Seq<char>)>, s: Seq<char>, i: int) -> bool {
    &&& 0 <= i < ds.len()
    &&& ds[i].0 == s
    &&& forall|j: int| 0 <= j < i ==> ds[j].0 != s
}

/// Why no device could be chosen.
#[derive(Debug)]
pub enum DeviceError {
    /// No listed device has the requested serial.
    NotFound { serial: String, listing: String },
    /// The requested device is listed in another state than `device`.
    NotOnline { serial: String, state: String },
    /// No listed device is online.
    NoneOnline { listing: String },
    /// More than one device is online and none was requested.
    Several { listing: String },
}

/// What a `DeviceError` says, as plain values.
pub enum DeviceFault {
    NotFound(Seq<char>, Seq<char>),
    NotOnline(Seq<char>, Seq<char>),
    NoneOnline(Seq<char>),
    Several(Seq<char>),
}

impl View for DeviceError {
    type V = DeviceFault;

    open spec fn view(&self) -> DeviceFault {
        match self {
            DeviceError::NotFound { serial, listing } => DeviceFault::NotFound(serial@, listing@),
            DeviceError::NotOnline { serial, state } => DeviceFault::NotOnline(serial@, state@),
            DeviceError::NoneOnline { listing } => DeviceFault::NoneOnline(listing@),
            DeviceError::Several { listing } => DeviceFault::Several(listing@),
        }
    }
}

/// The serial to use, given the listed devices and the serial asked for:
/// the asked one when it is listed and online; without one, the single
/// online device.
pub open spec fn chosen(ds: Seq<(Seq<char>, Seq<char>)>, serial: Option<Seq<char>>) -> Result<
    Seq<char>,
    DeviceFault,
> {
    match serial {
        Some(s) => if exists|i: int| is_first_serial(ds, s, i) {
            let i = choose|i: int| is_first_serial(ds, s, i);
            if ds[i].1 == "device"@ {
                Ok(s)
            } else {
                Err(DeviceFault::NotOnline(s, ds[i].1))
            }
        } else {
            Err(DeviceFault::NotFound(s, listing(ds)))
        },
        None => if online(ds).len() == 1 {
            Ok(online(ds)[0])
        } else if online(ds).len() == 0 {
            Err(DeviceFault::NoneOnline(listing(ds)))
        } else {
            Err(DeviceFault::Several(listing(ds)))
        },
    }
}

/// Every serial in `online(ds)` is that of a listed device whose state is
/// `device`.
pub proof fn lemma_online_listed(ds: Seq<(Seq<char>, Seq<char>)>)
    ensures
        forall|k: int| 0 <= k < online(ds).len() ==> exists|i: int|
            0 <= i < ds.len() && ds[i].0 == #[trigger] online(ds)[k] && ds[i].1 == "device"@,
    decreases ds.len(),
{
    if ds.len() > 0 {
        let rest = ds.drop_last();
        lemma_online_listed(rest);
        assert forall|k: int| 0 <= k < online(ds).len() implies exists|i: int|
            0 <= i < ds.len() && ds[i].0 == #[trigger] online(ds)[k] && ds[i].1 == "device"@ by {
            if k < online(rest).len() {
                assert(online(ds)[k] == online(rest)[k]);
                let i = choose|i: int| 0 <= i < rest.len() && rest[i].0 == online(rest)[k] && rest[i].1 == "device"@;
                assert(ds[i] == rest[i]);
            } else {
                assert(ds[ds.len() - 1].0 == online(ds)[k]);
            }
        }
    }
}

/// The chosen device is always one that is listed and online: when
/// `chosen` gives a serial, some listed device has that serial and the
/// state `device`.
pub proof fn lemma_chosen_is_online(ds: Seq<(Seq<char>, Seq<char>)>, serial: Option<Seq<char>>)
    ensures
        chosen(ds, serial) matches Ok(s) ==> exists|i: int| 0 <= i < ds.len() && ds[i].0 == s && ds[i].1
            == "device"@,
{
    lemma_online_listed(ds);
    if let Ok(s) = chosen(ds, serial) {
        match serial {
            Some(t) => {
                let i = choose|i: int| is_first_serial(ds, t, i);
                assert(ds[i].0 == s && ds[i].1 == "device"@);
            },
            None => {
                assert(online(ds)[0] == s);
            },
        }
    }
}

/// Without a requested serial, a choice among several online devices is
/// refused, and a single online device is chosen whatever else is listed.
pub proof fn lemma_choice_without_serial(ds: Seq<(Seq<char>, Seq<char>)>)
    ensures
        online(ds).len() >= 2 ==> chosen(ds, None) is Err,
        online(ds).len() == 1 ==> chosen(ds, None) == Ok::<Seq<char>, DeviceFault>(online(ds)[0]),
{
}

/// The text of a device error.
pub open spec fn device_error_text(f: DeviceFault) -> Seq<char> {
    match f {
        DeviceFault::NotFound(serial, listing) => "device "@ + serial + " not found:\n"@ + listing,
        DeviceFault::NotOnline(serial, state) => "device "@ + serial + " is "@ + state,
        DeviceFault::NoneOnline(listing) => "no online adb device (adb devices):\n"@ + listing,
        DeviceFault::Several(listing) => "several devices attached, pass --device:\n"@ + listing,
    }
}

impl DeviceError {
    /// What the error says: `device S not found:` and the listing, `device S
    /// is STATE`, `no online adb device (adb devices):` and the listing, or
    /// `several devices attached, pass --device:` and the listing.
    pub fn message(&self) -> (r: String)
        ensures
            r@ == device_error_text(self@),
    {
        let mut r = String::new();
        match self {
            DeviceError::NotFound { serial, listing } => {
                r.append("device ");
                r.append(serial.as_str());
                r.append(" not found:\n");
                r.append(listing.as_str());
            },
            DeviceError::NotOnline { serial, state } => {
                r.append("device ");
                r.append(serial.as_str());
                r.append(" is ");
                r.append(state.as_str());
            },
            DeviceError::NoneOnline { listing } => {
                r.append("no online adb device (adb devices):\n");
                r.append(listing.as_str());
            },
            DeviceError::Several { listing } => {
                r.append("several devices attached, pass --device:\n");
                r.append(listing.as_str());
            },
        }
        r
    }
}

/// The listing of `devices` (see `listing`).
pub fn device_listing(devices: &[Device]) -> (r: String)
    ensures
        r@ == listing(devices@.map_values(|d: Device| d@)),
{
    let ghost ds = devices@.map_values(|d: Device| d@);
    let mut r = String::new();
    let mut k: usize = 0;
    while k < devices.len()
        invariant
            0 <= k <= devices.len(),
            ds == devices@.map_values(|d: Device| d@),
            r@ == listing(ds.take(k as int)),
        decreases devices.len() - k,
    {
        if k > 0 {
            r.append("\n");
        }
        r.append("  ");
        r.append(devices[k].serial.as_str());
        r.append("\t");
        r.append(devices[k].state.as_str());
        assert(ds.take(k + 1).drop_last() =~= ds.take(k as int));
        k = k + 1;
    }
    assert(ds.take(k as int) =~= ds);
    r
}

/// Picks the device to talk to: the one with `serial` when given (it must be
/// online), else the only online one.
pub fn choose_device(devices: &[Device], serial: Option<String>) -> (r: Result<String, DeviceError>)
    ensures
        match (r, chosen(devices@.map_values(|d: Device| d@), opt_text(serial))) {
            (Ok(s), Ok(t)) => s@ == t,
            (Err(e), Err(f)) => e@ == f,
            _ => false,
        },
{
    let ghost ds = devices@.map_values(|d: Device| d@);
    let online_state = "device".to_owned();
    assert(online_state@ == "device"@);
    match serial {
        Some(s) => {
            let mut i: usize = 0;
            while i < devices.len()
                invariant
                    0 <= i <= devices.len(),
                    ds == devices@.map_values(|d: Device| d@),
                    online_state@ == "device"@,
                    opt_text(serial) == Some(s@),
                    forall|j: int| 0 <= j < i ==> ds[j].0 != s@,
                decreases devices.len() - i,
            {
                if devices[i].serial == s {
                    assert(is_first_serial(ds, s@, i as int));
                    proof {
                        let c = choose|c: int| is_first_serial(ds, s@, c);
                        if c < i {
                            assert(ds[c].0 != s@);
                        }
                        if c > i {
                            assert(ds[i as int].0 == s@);
                        }
                    }
                    assert(ds[i as int] == devices@[i as int]@);
                    if devices[i].state == online_state {
                        return Ok(s);
                    } else {
                        return Err(DeviceError::NotOnline { serial: s, state: devices[i].state.clone() });
                    }
                }
                i = i + 1;
            }
            assert(!exists|c: int| is_first_serial(ds, s@, c));
            Err(DeviceError::NotFound { serial: s, listing: device_listing(devices) })
        },
        None => {
            let mut found: Vec<usize> = Vec::new();
            let mut i: usize = 0;
            while i < devices.len()
                invariant
                    0 <= i <= devices.len(),
                    ds == devices@.map_values(|d: Device| d@),
                    online_state@ == "device"@,
                    found.len() == online(ds.take(i as int)).len(),
                    forall|j: int| 0 <= j < found.len() ==> (#[trigger] found@[j]) < i && ds[found@[j] as int].0
                        == online(ds.take(i as int))[j],
                decreases devices.len() - i,
            {
                assert(ds.take(i + 1).drop_last() =~= ds.take(i as int));
                assert(ds.take(i + 1).last() == devices@[i as int]@);
                let ghost before = found@;
                if devices[i].state == online_state {
                    found.push(i);
                    assert(online(ds.take(i + 1)) == online(ds.take(i as int)).push(ds[i as int].0));
                    assert forall|j: int| 0 <= j < found.len() implies (#[trigger] found@[j]) < i + 1
                        && ds[found@[j] as int].0 == online(ds.take(i + 1))[j] by {
                        if j < before.len() {
                            assert(found@[j] == before[j]);
                        }
                    }
                } else {
                    assert(online(ds.take(i + 1)) == online(ds.take(i as int)));
                }
                i = i + 1;
            }
            assert(ds.take(i as int) =~= ds);
            if found.len() == 1 {
                Ok(devices[found[0]].serial.clone())
            } else if found.len() == 0 {
                Err(DeviceError::NoneOnline { listing: device_listing(devices) })
            } else {
                Err(DeviceError::Several { listing: device_listing(devices) })
            }
        },
    }
}


/// The adb executable and the serial of the device it talks to.
#[derive(Clone, Debug)]
pub struct Adb {
    path: PathBuf,
    serial: Option<String>,
}

impl View for Adb {
    type V = Option<Seq<char>>;

    /// The serial that every invocation passes with `-s`.
    closed spec fn view(&self) -> Option<Seq<char>> {
        opt_text(self.serial)
    }
}

/// The arguments of an adb invocation that runs `args` against the device
/// `serial` (all devices when there is none).
pub open spec fn invocation(serial: Option<Seq<char>>, args: Seq<Seq<char>>) -> Seq<Seq<char>> {
    match serial {
        Some(s) => seq!["-s"@, s] + args,
        None => args,
    }
}

/// `adb devices`.
pub open spec fn devices_args() -> Seq<Seq<char>> {
    seq!["devices"@]
}

/// `adb exec-out screencap -p`: a PNG screenshot on stdout.
pub open spec fn screencap_args() -> Seq<Seq<char>> {
    seq!["exec-out"@, "screencap"@, "-p"@]
}

/// `adb shell input tap x y`.
pub open spec fn tap_args(x: u32, y: u32) -> Seq<Seq<char>> {
    seq!["shell"@, "input"@, "tap"@, decimal(x as nat), decimal(y as nat)]
}

/// `adb shell input swipe x1 y1 x2 y2`.
pub open spec fn swipe_args(x1: u32, y1: u32, x2: u32, y2: u32) -> Seq<Seq<char>> {
    seq![
        "shell"@,
        "input"@,
        "swipe"@,
        decimal(x1 as nat),
        decimal(y1 as nat),
        decimal(x2 as nat),
        decimal(y2 as nat),
    ]
}

/// `adb shell wm size WxH`.
pub open spec fn wm_size_set_args(w: u32, h: u32) -> Seq<Seq<char>> {
    seq!["shell"@, "wm"@, "size"@, decimal(w as nat) + "x"@ + decimal(h as nat)]
}

/// `adb shell wm size reset`.
pub open spec fn wm_size_reset_args() -> Seq<Seq<char>> {
    seq!["shell"@, "wm"@, "size"@, "reset"@]
}

/// A string holding `s`.
fn owned(s: &str) -> (r: String)
    ensures
        r@ == s@,
{
    s.to_owned()
}

impl Adb {
    /// The adb executable that every invocation runs.
    pub closed spec fn executable(&self) -> PathBuf {
        self.path
    }

    /// An adb at `path` that talks to `serial`, or to whatever device adb
    /// picks when there is none.
    pub fn new(path: PathBuf, serial: Option<String>) -> (r: Adb)
        ensures
            r@ == opt_text(serial),
            r.executable() == path,
    {
        Adb { path, serial }
    }

    /// Another handle on the same adb and device.
    pub fn duplicate(&self) -> (r: Adb)
        ensures
            r@ == self@,
            r.executable() == self.executable(),
    {
        let serial = match &self.serial {
            Some(s) => Some(s.clone()),
            None => None,
        };
        Adb { path: self.path.clone(), serial }
    }

    /// The adb executable.
    pub fn path(&self) -> (r: &PathBuf)
        ensures
            *r == self.executable(),
    {
        &self.path
    }

    /// The serial of the device, if one was picked.
    pub fn serial(&self) -> (r: Option<&str>)
        ensures
            match (r, self@) {
                (Some(a), Some(b)) => a@ == b,
                (None, None) => true,
                _ => false,
            },
    {
        match &self.serial {
            Some(s) => Some(s.as_str()),
            None => None,
        }
    }

    /// The same adb, talking to the device chosen among `devices` (see
    /// `choose_device`).
    pub fn pick(self, devices: &[Device], serial: Option<String>) -> (r: Result<Adb, DeviceError>)
        ensures
            match (r, chosen(devices@.map_values(|d: Device| d@), opt_text(serial))) {
                (Ok(a), Ok(t)) => a@ == Some(t),
                (Err(e), Err(f)) => e@ == f,
                _ => false,
            },
            r matches Ok(a) ==> a.executable() == self.executable(),
    {
        match choose_device(devices, serial) {
            Ok(chosen_serial) => Ok(Adb { path: self.path, serial: Some(chosen_serial) }),
            Err(e) => Err(e),
        }
    }

    /// The arguments of the adb invocation that runs `args` on this device.
    pub fn command_line(&self, args: Vec<String>) -> (r: Vec<String>)
        ensures
            texts(r@) == invocation(self@, texts(args@)),
    {
        let mut r: Vec<String> = Vec::new();
        if let Some(s) = &self.serial {
            r.push(owned("-s"));
            r.push(s.clone());
        }
        let ghost prefix = r@;
        let mut k: usize = 0;
        while k < args.len()
            invariant
                0 <= k <= args.len(),
                r@ == prefix + args@.take(k as int),
            decreases args.len() - k,
        {
            r.push(args[k].clone());
            assert(args@.take(k + 1) =~= args@.take(k as int).push(args@[k as int]));
            k = k + 1;
        }
        assert(args@.take(k as int) =~= args@);
        assert(texts(r@) =~= invocation(self@, texts(args@)));
        r
    }

    /// The invocation that lists the attached devices.
    pub fn devices(&self) -> (r: Vec<String>)
        ensures
            texts(r@) == invocation(self@, devices_args()),
    {
        let args = vec![owned("devices")];
        assert(texts(args@) =~= devices_args());
        self.command_line(args)
    }

    /// The invocation that writes a PNG screenshot to stdout.
    pub fn screencap(&self) -> (r: Vec<String>)
        ensures
            texts(r@) == invocation(self@, screencap_args()),
    {
        let args = vec![owned("exec-out"), owned("screencap"), owned("-p")];
        assert(texts(args@) =~= screencap_args());
        self.command_line(args)
    }

    /// The invocation that taps the screen at `(x, y)`.
    pub fn tap(&self, x: u32, y: u32) -> (r: Vec<String>)
        ensures
            texts(r@) == invocation(self@, tap_args(x, y)),
    {
        let args = vec![
            owned("shell"),
            owned("input"),
            owned("tap"),
            decimal_string(x as u64),
            decimal_string(y as u64),
        ];
        assert(texts(args@) =~= tap_args(x, y));
        self.command_line(args)
    }

    /// The invocation that swipes from `(x1, y1)` to `(x2, y2)`.
    pub fn swipe(&self, x1: u32, y1: u32, x2: u32, y2: u32) -> (r: Vec<String>)
        ensures
            texts(r@) == invocation(self@, swipe_args(x1, y1, x2, y2)),
    {
        let args = vec![
            owned("shell"),
            owned("input"),
            owned("swipe"),
            decimal_string(x1 as u64),
            decimal_string(y1 as u64),
            decimal_string(x2 as u64),
            decimal_string(y2 as u64),
        ];
        assert(texts(args@) =~= swipe_args(x1, y1, x2, y2));
        self.command_line(args)
    }

    /// The invocation that overrides the logical display size with `w`x`h`.
    pub fn wm_size_set(&self, w: u32, h: u32) -> (r: Vec<String>)
        ensures
            texts(r@) == invocation(self@, wm_size_set_args(w, h)),
    {
        let mut size = String::new();
        push_decimal(&mut size, w as u64);
        size.append("x");
        push_decimal(&mut size, h as u64);
        assert(size@ =~= decimal(w as nat) + "x"@ + decimal(h as nat));
        let args = vec![owned("shell"), owned("wm"), owned("size"), size];
        assert(texts(args@) =~= wm_size_set_args(w, h));
        self.command_line(args)
    }

    /// The invocation that restores the physical display size.
    pub fn wm_size_reset(&self) -> (r: Vec<String>)
        ensures
            texts(r@) == invocation(self@, wm_size_reset_args()),
    {
        let args = vec![owned("shell"), owned("wm"), owned("size"), owned("reset")];
        assert(texts(args@) =~= wm_size_reset_args());
        self.command_line(args)
    }
}

/// How many times an adb invocation is tried before its failure stands.
pub const ATTEMPTS: u32 = 3;

/// Seconds to wait between two attempts.
pub const BACKOFF_SECS: u64 = 2;

/// The context given to the error that stands after the last attempt of
/// the adb invocation `what`.
pub open spec fn gave_up_text(what: Seq<char>) -> Seq<char> {
    "adb "@ + what + " failed after "@ + decimal(ATTEMPTS as nat) + " attempts"@
}

/// `adb WHAT failed after 3 attempts`.
pub fn gave_up_context(what: &str) -> (r: String)
    ensures
        r@ == gave_up_text(what@),
{
    let mut r = String::new();
    r.append("adb ");
    r.append(what);
    r.append(" failed after ");
    push_decimal(&mut r, ATTEMPTS as u64);
    r.append(" attempts");
    r
}

/// Where a repeated adb invocation stands: the number of the attempt being
/// made, from 1 to `ATTEMPTS`.
pub struct Retry {
    attempt: u32,
}

impl Retry {
    #[verifier::type_invariant]
    spec fn in_range(self) -> bool {
        1 <= self.attempt <= ATTEMPTS
    }

    /// The number of the attempt being made.
    pub closed spec fn attempt_spec(self) -> u32 {
        self.attempt
    }

    /// The first attempt.
    pub fn first() -> (r: Retry)
        ensures
            r.attempt_spec() == 1,
    {
        Retry { attempt: 1 }
    }

    /// The number of the attempt being made.
    pub fn attempt(&self) -> (r: u32)
        ensures
            r == self.attempt_spec(),
            1 <= r <= ATTEMPTS,
    {
        proof {
            use_type_invariant(self);
        }
        self.attempt
    }

    /// After an attempt failed with `error`: the next attempt, to be made
    /// after a pause of `BACKOFF_SECS`, or, when the attempts are used up,
    /// that last error, which then stands.
    pub fn after_failure<E>(&self, error: E) -> (r: Result<Retry, E>)
        ensures
            r is Ok <==> self.attempt_spec() < ATTEMPTS,
            r matches Ok(n) ==> n.attempt_spec() == self.attempt_spec() + 1,
            r matches Err(e) ==> e == error,
    {
        proof {
            use_type_invariant(self);
        }
        if self.attempt < ATTEMPTS {
            Ok(Retry { attempt: self.attempt + 1 })
        } else {
            Err(error)
        }
    }
}

} // verus!
