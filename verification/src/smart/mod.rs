//! SMART disk health: reading `smartctl` output.
//!
//! `smartctl -j` prints JSON ([`json`]) and `smartctl -A` prints an
//! attribute table ([`table`]); [`device_read`] decides which runs to make
//! for a device. Temperatures are thousandths of a degree Celsius.

pub mod device_read;
pub mod json;
pub mod table;

pub use device_read::{DeviceRead, DeviceStage, DeviceStep, SmartctlOutput, SmartctlQuery};

use vstd::prelude::*;
use vstd::string::*;
use crate::text::{
    chars_of, decode_utf8_lossy, utf8_lossy, segments, segments_in, tokens, tokens_in, texts,
    window_equals, window,
};

verus! {

broadcast use vstd::std_specs::vec::group_vec_axioms;

/// `a` when it holds a value, otherwise `b`.
pub open spec fn first_some<T>(a: Option<T>, b: Option<T>) -> Option<T> {
    if a is Some {
        a
    } else {
        b
    }
}

/// What the library keeps of a disk's SMART report, as plain values.
pub ghost struct SmartDeviceView {
    pub name: Seq<char>,
    pub health_passed: bool,
    pub temperature: Option<i64>,
    pub reallocated_sectors: Option<u64>,
    pub pending_sectors: Option<u64>,
    pub unsafe_shutdowns: Option<u64>,
}

impl View for SmartDevice {
    type V = SmartDeviceView;

    open spec fn view(&self) -> SmartDeviceView {
        SmartDeviceView {
            name: self.name@,
            health_passed: self.health_passed,
            temperature: self.temperature,
            reallocated_sectors: self.reallocated_sectors,
            pending_sectors: self.pending_sectors,
            unsafe_shutdowns: self.unsafe_shutdowns,
        }
    }
}

pub open spec fn opt_device_view(d: Option<SmartDevice>) -> Option<SmartDeviceView> {
    match d {
        Some(d) => Some(d@),
        None => None,
    }
}

/// SMART health information for all disks.
#[derive(Clone, Debug)]
pub struct SmartHealth {
    /// Whether SMART data is available
    pub available: bool,
    /// Individual disk health data
    pub devices: Vec<SmartDevice>,
}

impl Default for SmartHealth {
    fn default() -> (h: Self)
        ensures
            !h.available,
            h.devices@.len() == 0,
    {
        SmartHealth { available: false, devices: Vec::new() }
    }
}

/// SMART health data for a single disk.
#[derive(Clone, Debug)]
pub struct SmartDevice {
    /// Device path, e.g. "/dev/sda".
    pub name: String,
    /// Overall health test passed
    pub health_passed: bool,
    /// Current temperature (thousandths of a degree C)
    pub temperature: Option<i64>,
    /// Reallocated sector count (bad sectors)
    pub reallocated_sectors: Option<u64>,
    /// Current pending sector count
    pub pending_sectors: Option<u64>,
    /// Cumulative count of unsafe (ungraceful) shutdowns.
    ///
    /// This is the NVMe `unsafe_shutdowns` lifetime counter. It only ever
    /// increases and rising while the host stays up (no reboot or power loss)
    /// is a sign the drive controller is dropping off the bus on its own.
    pub unsafe_shutdowns: Option<u64>,
}

/// `s` starts with `p`.
pub open spec fn starts_with(s: Seq<char>, p: Seq<char>) -> bool {
    s.len() >= p.len() && s.take(p.len() as int) == p
}

/// `s` with every leading `/dev/` removed (`str::trim_start_matches`).
pub open spec fn strip_dev(s: Seq<char>) -> Seq<char>
    decreases s.len(),
{
    if s.len() >= 5 && s.take(5) == "/dev/"@ {
        strip_dev(s.skip(5))
    } else {
        s
    }
}

/// The device name without its `/dev/` prefix, e.g. `sda` for `/dev/sda`.
pub fn normalize_device_name(name: &str) -> (r: String)
    ensures
        r@ == strip_dev(name@),
{
    let chars = chars_of(name);
    let prefix = chars_of("/dev/");
    proof {
        reveal_strlit("/dev/");
    }
    let hi = chars.len();
    let mut i: usize = 0;
    assert(window(chars@, 0, hi as int) =~= name@);
    while hi - i >= 5 && window_equals(&chars, i, i + 5, &prefix)
        invariant
            i <= hi,
            hi == chars.len(),
            chars@ == name@,
            prefix@ == "/dev/"@,
            "/dev/"@.len() == 5,
            strip_dev(name@) == strip_dev(window(chars@, i as int, hi as int)),
        decreases hi - i,
    {
        assert(window(chars@, i as int, hi as int).take(5) =~= window(chars@, i as int, i + 5));
        assert(window(chars@, i as int, hi as int).skip(5) =~= window(chars@, i + 5, hi as int));
        i = i + 5;
    }
    proof {
        if hi - i >= 5 {
            assert(window(chars@, i as int, hi as int).take(5) =~= window(
                chars@,
                i as int,
                i + 5,
            ));
        }
        assert(window(chars@, 0, hi as int) =~= name@);
    }
    String::from_str(name.substring_char(i, hi))
}

/// A device whose name starts with `sd` (SCSI/SATA naming), which may need
/// SAT pass-through to answer.
pub open spec fn is_sd_device(device: Seq<char>) -> bool {
    starts_with(strip_dev(device), "sd"@)
}

fn is_sd_name(device: &str) -> (r: bool)
    ensures
        r == is_sd_device(device@),
{
    let short = normalize_device_name(device);
    let chars = chars_of(short.as_str());
    let sd = chars_of("sd");
    proof {
        reveal_strlit("sd");
    }
    if chars.len() < 2 {
        return false;
    }
    let r = window_equals(&chars, 0, 2, &sd);
    assert(window(chars@, 0, 2) =~= chars@.take(2));
    r
}

/// One line of `lsblk -d -n -o NAME,TYPE`: the device path of a disk.
pub open spec fn lsblk_disk(line: Seq<char>) -> Seq<Seq<char>> {
    let w = tokens(line);
    if w.len() >= 2 && w[1] == "disk"@ {
        seq!["/dev/"@ + w[0]]
    } else {
        seq![]
    }
}

/// The device paths of the disks listed in lines of `lsblk` output.
pub open spec fn lsblk_disks(lines: Seq<Seq<char>>) -> Seq<Seq<char>>
    decreases lines.len(),
{
    if lines.len() == 0 {
        seq![]
    } else {
        lsblk_disks(lines.drop_last()) + lsblk_disk(lines.last())
    }
}

pub open spec fn string_views(v: Seq<String>) -> Seq<Seq<char>> {
    v.map_values(|s: String| s@)
}

/// Total reallocated sectors reported by `ds`.
pub open spec fn reallocated_total(ds: Seq<SmartDevice>) -> nat
    decreases ds.len(),
{
    if ds.len() == 0 {
        0
    } else {
        reallocated_total(ds.drop_last()) + match ds.last().reallocated_sectors {
            Some(v) => v as nat,
            None => 0,
        }
    }
}

/// Total pending sectors reported by `ds`.
pub open spec fn pending_total(ds: Seq<SmartDevice>) -> nat
    decreases ds.len(),
{
    if ds.len() == 0 {
        0
    } else {
        pending_total(ds.drop_last()) + match ds.last().pending_sectors {
            Some(v) => v as nat,
            None => 0,
        }
    }
}

/// Name and temperature of each device of `ds` that reported one, in order.
pub open spec fn temperatures_of(ds: Seq<SmartDevice>) -> Seq<(String, i64)>
    decreases ds.len(),
{
    if ds.len() == 0 {
        seq![]
    } else {
        let rest = temperatures_of(ds.drop_last());
        match ds.last().temperature {
            Some(t) => rest.push((ds.last().name, t)),
            None => rest,
        }
    }
}

/// Name and unsafe shutdown count of each device of `ds` that reported one,
/// in order.
pub open spec fn unsafe_shutdowns_of(ds: Seq<SmartDevice>) -> Seq<(String, u64)>
    decreases ds.len(),
{
    if ds.len() == 0 {
        seq![]
    } else {
        let rest = unsafe_shutdowns_of(ds.drop_last());
        match ds.last().unsafe_shutdowns {
            Some(c) => rest.push((ds.last().name, c)),
            None => rest,
        }
    }
}

proof fn lemma_reallocated_prefix(ds: Seq<SmartDevice>, i: int)
    requires
        0 <= i <= ds.len(),
    ensures
        reallocated_total(ds.take(i)) <= reallocated_total(ds),
    decreases ds.len() - i,
{
    if i < ds.len() {
        lemma_reallocated_prefix(ds, i + 1);
        assert(ds.take(i + 1).drop_last() =~= ds.take(i));
    } else {
        assert(ds.take(i) =~= ds);
    }
}

proof fn lemma_pending_prefix(ds: Seq<SmartDevice>, i: int)
    requires
        0 <= i <= ds.len(),
    ensures
        pending_total(ds.take(i)) <= pending_total(ds),
    decreases ds.len() - i,
{
    if i < ds.len() {
        lemma_pending_prefix(ds, i + 1);
        assert(ds.take(i + 1).drop_last() =~= ds.take(i));
    } else {
        assert(ds.take(i) =~= ds);
    }
}

impl SmartHealth {
    /// Whether SMART data can be read at all: `smartctl` needs root, or
    /// passwordless sudo to run it as root.
    pub fn smart_access(elevated: bool, sudo_access: bool) -> (r: bool)
        ensures
            r == (elevated || sudo_access),
    {
        elevated || sudo_access
    }

    /// Health of the disks that answered; SMART data counts as available
    /// when at least one did.
    pub fn from_devices(devices: Vec<SmartDevice>) -> (h: SmartHealth)
        ensures
            h.devices@ == devices@,
            h.available == (devices.len() > 0),
    {
        let available = devices.len() > 0;
        SmartHealth { available, devices }
    }

    /// The device paths of the disks in `lsblk -d -n -o NAME,TYPE` output.
    pub fn parse_lsblk_disks(stdout: &[u8]) -> (r: Vec<String>)
        ensures
            string_views(r@) == lsblk_disks(segments(utf8_lossy(stdout@))),
    {
        let text = decode_utf8_lossy(stdout);
        Self::parse_lsblk_text(text.as_str())
    }

    /// The device paths of the disks in decoded `lsblk -d -n -o NAME,TYPE`
    /// output.
    pub fn parse_lsblk_text(text: &str) -> (r: Vec<String>)
        ensures
            string_views(r@) == lsblk_disks(segments(text@)),
    {
        let chars = chars_of(text);
        let hi = chars.len();
        assert(window(chars@, 0, hi as int) =~= chars@);
        let lines = segments_in(&chars, 0, hi);
        let ghost ls = segments(chars@);
        let disk = chars_of("disk");
        let mut out: Vec<String> = Vec::new();
        let mut i: usize = 0;
        while i < lines.len()
            invariant
                i <= lines.len(),
                hi == chars.len(),
                chars@ == text@,
                ls == texts(chars@, lines@),
                ls == segments(text@),
                forall|j: int| 0 <= j < lines.len() ==> (#[trigger] lines@[j]).0 <= lines@[j].1 <= hi,
                disk@ == "disk"@,
                string_views(out@) == lsblk_disks(ls.take(i as int)),
            decreases lines.len() - i,
        {
            let (a, b) = lines[i];
            assert(ls[i as int] == window(chars@, a as int, b as int));
            assert(ls.take(i + 1).drop_last() =~= ls.take(i as int));
            assert(ls.take(i + 1).last() == ls[i as int]);
            let words = tokens_in(&chars, a, b);
            let ghost ws = tokens(window(chars@, a as int, b as int));
            let ghost before = out@;
            if words.len() >= 2 {
                let (c, d) = words[1];
                assert(ws[1] == window(chars@, c as int, d as int));
                if window_equals(&chars, c, d, &disk) {
                    let (e, f) = words[0];
                    assert(ws[0] == window(chars@, e as int, f as int));
                    let mut path = String::from_str("/dev/");
                    path.append(text.substring_char(e, f));
                    out.push(path);
                    assert(string_views(out@) =~= string_views(before) + lsblk_disk(ls[i as int]));
                } else {
                    assert(string_views(out@) =~= string_views(before) + lsblk_disk(ls[i as int]));
                }
            } else {
                assert(string_views(out@) =~= string_views(before) + lsblk_disk(ls[i as int]));
            }
            i = i + 1;
        }
        assert(ls.take(lines.len() as int) =~= ls);
        out
    }

    /// Get temperatures for all devices that reported them.
    pub fn device_temperatures(&self) -> (r: Vec<(String, i64)>)
        ensures
            r@ == temperatures_of(self.devices@),
    {
        let mut out: Vec<(String, i64)> = Vec::new();
        let mut i: usize = 0;
        while i < self.devices.len()
            invariant
                i <= self.devices.len(),
                out@ == temperatures_of(self.devices@.take(i as int)),
            decreases self.devices.len() - i,
        {
            assert(self.devices@.take(i + 1).drop_last() =~= self.devices@.take(i as int));
            let device = &self.devices[i];
            match device.temperature {
                Some(t) => {
                    out.push((device.name.clone(), t));
                },
                None => {},
            }
            i = i + 1;
        }
        assert(self.devices@.take(i as int) =~= self.devices@);
        out
    }

    /// Check if all devices passed health check.
    pub fn all_healthy(&self) -> (r: bool)
        ensures
            r == (self.devices.len() > 0 && forall|i: int|
                0 <= i < self.devices.len() ==> (#[trigger] self.devices@[i]).health_passed),
    {
        if self.devices.len() == 0 {
            return false;
        }
        let mut i: usize = 0;
        while i < self.devices.len()
            invariant
                i <= self.devices.len(),
                forall|j: int| 0 <= j < i ==> (#[trigger] self.devices@[j]).health_passed,
            decreases self.devices.len() - i,
        {
            if !self.devices[i].health_passed {
                return false;
            }
            i = i + 1;
        }
        true
    }

    /// Get total reallocated sectors across all devices.
    pub fn total_reallocated_sectors(&self) -> (r: u64)
        requires
            reallocated_total(self.devices@) <= u64::MAX,
        ensures
            r == reallocated_total(self.devices@),
    {
        let mut sum: u64 = 0;
        let mut i: usize = 0;
        while i < self.devices.len()
            invariant
                i <= self.devices.len(),
                reallocated_total(self.devices@) <= u64::MAX,
                sum == reallocated_total(self.devices@.take(i as int)),
            decreases self.devices.len() - i,
        {
            assert(self.devices@.take(i + 1).drop_last() =~= self.devices@.take(i as int));
            proof {
                lemma_reallocated_prefix(self.devices@, i + 1);
            }
            match self.devices[i].reallocated_sectors {
                Some(v) => {
                    sum = sum + v;
                },
                None => {},
            }
            i = i + 1;
        }
        assert(self.devices@.take(i as int) =~= self.devices@);
        sum
    }

    /// Get total pending sectors across all devices.
    pub fn total_pending_sectors(&self) -> (r: u64)
        requires
            pending_total(self.devices@) <= u64::MAX,
        ensures
            r == pending_total(self.devices@),
    {
        let mut sum: u64 = 0;
        let mut i: usize = 0;
        while i < self.devices.len()
            invariant
                i <= self.devices.len(),
                pending_total(self.devices@) <= u64::MAX,
                sum == pending_total(self.devices@.take(i as int)),
            decreases self.devices.len() - i,
        {
            assert(self.devices@.take(i + 1).drop_last() =~= self.devices@.take(i as int));
            proof {
                lemma_pending_prefix(self.devices@, i + 1);
            }
            match self.devices[i].pending_sectors {
                Some(v) => {
                    sum = sum + v;
                },
                None => {},
            }
            i = i + 1;
        }
        assert(self.devices@.take(i as int) =~= self.devices@);
        sum
    }

    /// Get unsafe shutdown counts for every device that reported one.
    pub fn unsafe_shutdowns(&self) -> (r: Vec<(String, u64)>)
        ensures
            r@ == unsafe_shutdowns_of(self.devices@),
    {
        let mut out: Vec<(String, u64)> = Vec::new();
        let mut i: usize = 0;
        while i < self.devices.len()
            invariant
                i <= self.devices.len(),
                out@ == unsafe_shutdowns_of(self.devices@.take(i as int)),
            decreases self.devices.len() - i,
        {
            assert(self.devices@.take(i + 1).drop_last() =~= self.devices@.take(i as int));
            let device = &self.devices[i];
            match device.unsafe_shutdowns {
                Some(c) => {
                    out.push((device.name.clone(), c));
                },
                None => {},
            }
            i = i + 1;
        }
        assert(self.devices@.take(i as int) =~= self.devices@);
        out
    }
}

/// One device on its own: it adds its reallocated and pending sectors (none
/// counting as zero), and its name with its temperature, or with its unsafe
/// shutdown count, when it reported one.
pub proof fn lemma_device_aggregates(d: SmartDevice)
    ensures
        reallocated_total(seq![d]) == (match d.reallocated_sectors {
            Some(v) => v as nat,
            None => 0nat,
        }),
        pending_total(seq![d]) == (match d.pending_sectors {
            Some(v) => v as nat,
            None => 0nat,
        }),
        temperatures_of(seq![d]) == (match d.temperature {
            Some(t) => seq![(d.name, t)],
            None => Seq::<(String, i64)>::empty(),
        }),
        unsafe_shutdowns_of(seq![d]) == (match d.unsafe_shutdowns {
            Some(c) => seq![(d.name, c)],
            None => Seq::<(String, u64)>::empty(),
        }),
{
    let none = Seq::<SmartDevice>::empty();
    assert(seq![d].drop_last() =~= none);
    assert(seq![d].last() == d);
    assert(reallocated_total(none) == 0 && pending_total(none) == 0);
    assert(temperatures_of(none) == Seq::<(String, i64)>::empty());
    assert(unsafe_shutdowns_of(none) == Seq::<(String, u64)>::empty());
    let e: Seq<(String, i64)> = seq![];
    let f: Seq<(String, u64)> = seq![];
    if let Some(t) = d.temperature {
        assert(e.push((d.name, t)) =~= seq![(d.name, t)]);
    }
    if let Some(c) = d.unsafe_shutdowns {
        assert(f.push((d.name, c)) =~= seq![(d.name, c)]);
    }
}

/// Aggregates over disks add up list by list: the totals for two lists of
/// devices together are the sums of their totals, and the temperature and
/// unsafe shutdown lists are the two lists' in order.
pub proof fn lemma_aggregates_join(a: Seq<SmartDevice>, b: Seq<SmartDevice>)
    ensures
        reallocated_total(a + b) == reallocated_total(a) + reallocated_total(b),
        pending_total(a + b) == pending_total(a) + pending_total(b),
        temperatures_of(a + b) == temperatures_of(a) + temperatures_of(b),
        unsafe_shutdowns_of(a + b) == unsafe_shutdowns_of(a) + unsafe_shutdowns_of(b),
    decreases b.len(),
{
    if b.len() == 0 {
        assert(a + b =~= a);
        assert(temperatures_of(a) + temperatures_of(b) =~= temperatures_of(a));
        assert(unsafe_shutdowns_of(a) + unsafe_shutdowns_of(b) =~= unsafe_shutdowns_of(a));
    } else {
        lemma_aggregates_join(a, b.drop_last());
        assert((a + b).drop_last() =~= a + b.drop_last());
        assert((a + b).last() == b.last());
        let d = b.last();
        match d.temperature {
            Some(t) => {
                assert(temperatures_of(a) + temperatures_of(b.drop_last()).push((d.name, t))
                    =~= (temperatures_of(a) + temperatures_of(b.drop_last())).push((d.name, t)));
            },
            None => {},
        }
        match d.unsafe_shutdowns {
            Some(c) => {
                assert(unsafe_shutdowns_of(a) + unsafe_shutdowns_of(b.drop_last()).push((d.name, c))
                    =~= (unsafe_shutdowns_of(a) + unsafe_shutdowns_of(b.drop_last())).push((d.name, c)));
            },
            None => {},
        }
    }
}

/// `lsblk` output is read line by line: the disks of two runs of lines
/// together are the disks of each in order, and one line gives `/dev/` and
/// its first word exactly when its second word is `disk`.
pub proof fn lemma_lsblk_lines(a: Seq<Seq<char>>, b: Seq<Seq<char>>, line: Seq<char>)
    ensures
        lsblk_disks(a + b) == lsblk_disks(a) + lsblk_disks(b),
        lsblk_disks(seq![line]) == (if tokens(line).len() >= 2 && tokens(line)[1] == "disk"@ {
            seq!["/dev/"@ + tokens(line)[0]]
        } else {
            Seq::<Seq<char>>::empty()
        }),
    decreases b.len(),
{
    if b.len() == 0 {
        assert(a + b =~= a);
        assert(lsblk_disks(a) + lsblk_disks(b) =~= lsblk_disks(a));
    } else {
        lemma_lsblk_lines(a, b.drop_last(), line);
        assert((a + b).drop_last() =~= a + b.drop_last());
        assert((a + b).last() == b.last());
        assert(lsblk_disks(a) + lsblk_disks(b.drop_last()) + lsblk_disk(b.last()) =~= lsblk_disks(a) + (
        lsblk_disks(b.drop_last()) + lsblk_disk(b.last())));
    }
    assert(seq![line].drop_last() =~= Seq::<Seq<char>>::empty());
    assert(lsblk_disks(Seq::<Seq<char>>::empty()) == Seq::<Seq<char>>::empty());
    assert(Seq::<Seq<char>>::empty() + lsblk_disk(line) =~= lsblk_disk(line));
}

} // verus!
