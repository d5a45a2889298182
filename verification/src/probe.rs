//! What the capability probe found, and the text that reports it: the
//! platforms and devices of the accelerated backend, whether acceleration
//! ended up enabled, and the device that is active.
use vstd::prelude::*;
use vstd::string::{StrSliceExecFns, StringExecFns};
use crate::text::{decimal_text, push_decimal};

verus! {

/// `needle` stands in `hay` from position `at` on.
pub open spec fn occurs_at(needle: Seq<char>, hay: Seq<char>, at: int) -> bool {
    0 <= at && at + needle.len() <= hay.len() && hay.subrange(at, at + needle.len()) == needle
}

/// `needle` stands somewhere in `hay`.
pub open spec fn occurs_in(needle: Seq<char>, hay: Seq<char>) -> bool {
    exists|at: int| occurs_at(needle, hay, at)
}

/// The characters of a text, one by one.
pub fn chars_of(s: &str) -> (v: Vec<char>)
    ensures
        v@ == s@,
{
    let n = s.unicode_len();
    let mut v: Vec<char> = Vec::new();
    let mut i: usize = 0;
    while i < n
        invariant
            n == s@.len(),
            i <= n,
            v@ == s@.subrange(0, i as int),
        decreases n - i,
    {
        v.push(s.get_char(i));
        i = i + 1;
        assert(v@ =~= s@.subrange(0, i as int));
    }
    assert(v@ =~= s@);
    v
}

/// Whether `needle` stands in `hay` from position `at` on.
pub fn matches_at(hay: &Vec<char>, needle: &Vec<char>, at: usize) -> (b: bool)
    requires
        at + needle@.len() <= hay@.len(),
    ensures
        b == occurs_at(needle@, hay@, at as int),
{
    let mut j: usize = 0;
    while j < needle.len()
        invariant
            at + needle.len() <= hay.len(),
            j <= needle.len(),
            hay@.subrange(at as int, at + j) == needle@.subrange(0, j as int),
        decreases needle@.len() - j,
    {
        if hay[at + j] != needle[j] {
            assert(hay@.subrange(at as int, at + needle@.len())[j as int] != needle@[j as int]);
            return false;
        }
        j = j + 1;
        assert(hay@.subrange(at as int, at + j) =~= needle@.subrange(0, j as int)) by {
            assert forall|k: int| 0 <= k < j implies hay@.subrange(at as int, at + j)[k]
                == needle@.subrange(0, j as int)[k] by {
                if k < j - 1 {
                    assert(hay@.subrange(at as int, at + j - 1)[k] == needle@.subrange(
                        0,
                        j - 1,
                    )[k]);
                }
            }
        }
    }
    assert(needle@.subrange(0, j as int) =~= needle@);
    true
}

/// Whether `needle` stands somewhere in `hay`.
pub fn contains(hay: &str, needle: &str) -> (b: bool)
    ensures
        b == occurs_in(needle@, hay@),
{
    let h = chars_of(hay);
    let n = chars_of(needle);
    if n.len() > h.len() {
        return false;
    }
    let last: usize = h.len() - n.len();
    let mut at: usize = 0;
    loop
        invariant
            h@ == hay@,
            n@ == needle@,
            last + n@.len() == h@.len(),
            at <= last,
            forall|k: int| 0 <= k < at ==> !occurs_at(needle@, hay@, k),
        decreases last - at,
    {
        if matches_at(&h, &n, at) {
            return true;
        }
        if at == last {
            return false;
        }
        at = at + 1;
    }
}

/// A device of a platform: its name and the version it reports.
pub struct DeviceInfo {
    pub name: String,
    pub version: String,
}

/// A platform of the accelerated backend with its devices.
pub struct PlatformInfo {
    pub name: String,
    pub devices: Vec<DeviceInfo>,
}

/// The device that the benchmark is meant for: one of the `rusticl`
/// platform that reports `OpenCL 3.0`.
pub open spec fn is_preferred(platform: Seq<char>, version: Seq<char>) -> bool {
    occurs_in("rusticl"@, platform) && occurs_in("OpenCL 3.0"@, version)
}

/// Whether a device of platform `platform` with version `version` is the one
/// that the benchmark is meant for.
pub fn preferred(platform: &str, version: &str) -> (b: bool)
    ensures
        b == is_preferred(platform@, version@),
{
    contains(platform, "rusticl") && contains(version, "OpenCL 3.0")
}

/// The line that names a platform.
pub open spec fn platform_text(index: nat, name: Seq<char>) -> Seq<char> {
    "Platform #"@ + decimal_text(index) + ": "@ + name + "\n"@
}

/// The line that names a device, and below it the mark of the preferred one.
pub open spec fn device_text(platform: Seq<char>, index: nat, d: DeviceInfo) -> Seq<char> {
    let line = "  Device #"@ + decimal_text(index) + ": "@ + d.name@ + " ("@ + d.version@ + ")\n"@;
    if is_preferred(platform, d.version@) {
        line + "  -> This is the rusticl platform with OpenCL 3.0 support\n"@
    } else {
        line
    }
}

/// The lines of the first `n` devices of a platform.
pub open spec fn devices_text(platform: Seq<char>, devices: Seq<DeviceInfo>, n: nat) -> Seq<char>
    decreases n,
{
    if n == 0 {
        Seq::empty()
    } else {
        devices_text(platform, devices, (n - 1) as nat) + device_text(
            platform,
            (n - 1) as nat,
            devices[n - 1],
        )
    }
}

/// One of the first `n` devices of the platform is the preferred one.
pub open spec fn any_preferred(platform: Seq<char>, devices: Seq<DeviceInfo>, n: nat) -> bool {
    exists|j: int| 0 <= j < n && is_preferred(platform, #[trigger] devices[j].version@)
}

/// The lines of the first `n` platforms, each followed by its devices.
pub open spec fn platforms_text(platforms: Seq<PlatformInfo>, n: nat) -> Seq<char>
    decreases n,
{
    if n == 0 {
        Seq::empty()
    } else {
        platforms_text(platforms, (n - 1) as nat) + platform_text(
            (n - 1) as nat,
            platforms[n - 1].name@,
        ) + devices_text(
            platforms[n - 1].name@,
            platforms[n - 1].devices@,
            platforms[n - 1].devices@.len(),
        )
    }
}

/// One of the first `n` platforms has the preferred device.
pub open spec fn found_preferred(platforms: Seq<PlatformInfo>, n: nat) -> bool {
    exists|i: int|
        0 <= i < n && any_preferred(
            #[trigger] platforms[i].name@,
            platforms[i].devices@,
            platforms[i].devices@.len(),
        )
}

/// The line that closes the listing.
pub open spec fn verdict_text(found: bool) -> Seq<char> {
    if found {
        "rusticl platform found - configured to use via OPENCV_OPENCL_DEVICE\n"@
    } else {
        "Warning: rusticl platform not found!\n"@
    }
}

/// The whole listing: every platform with its devices, then the verdict.
pub open spec fn listing_text(platforms: Seq<PlatformInfo>) -> Seq<char> {
    platforms_text(platforms, platforms.len()) + verdict_text(
        found_preferred(platforms, platforms.len()),
    )
}

/// Appends the lines of a platform's devices and tells whether the preferred
/// device is among them.
pub fn push_devices(out: &mut String, platform: &PlatformInfo) -> (found: bool)
    ensures
        final(out)@ == old(out)@ + devices_text(
            platform.name@,
            platform.devices@,
            platform.devices@.len(),
        ),
        found == any_preferred(platform.name@, platform.devices@, platform.devices@.len()),
{
    let mut found = false;
    let mut j: usize = 0;
    while j < platform.devices.len()
        invariant
            j <= platform.devices@.len(),
            out@ == old(out)@ + devices_text(platform.name@, platform.devices@, j as nat),
            found == any_preferred(platform.name@, platform.devices@, j as nat),
        decreases platform.devices@.len() - j,
    {
        let ghost before = out@;
        let d = &platform.devices[j];
        out.append("  Device #");
        push_decimal(out, j as u128);
        out.append(": ");
        out.append(d.name.as_str());
        out.append(" (");
        out.append(d.version.as_str());
        out.append(")\n");
        let hit = preferred(platform.name.as_str(), d.version.as_str());
        if hit {
            out.append("  -> This is the rusticl platform with OpenCL 3.0 support\n");
            found = true;
        }
        proof {
            assert(out@ =~= before + device_text(platform.name@, j as nat, platform.devices@[j as int]));
            assert(devices_text(platform.name@, platform.devices@, (j + 1) as nat)
                == devices_text(platform.name@, platform.devices@, j as nat) + device_text(
                platform.name@,
                j as nat,
                platform.devices@[j as int],
            ));
            assert(out@ =~= old(out)@ + devices_text(
                platform.name@,
                platform.devices@,
                (j + 1) as nat,
            ));
            if hit {
                assert(is_preferred(platform.name@, platform.devices@[j as int].version@));
            }
        }
        j = j + 1;
    }
    found
}

/// The listing that the probe prints when the accelerated backend is
/// present: every platform with its devices, and whether the preferred
/// device was among them.
pub fn listing(platforms: &Vec<PlatformInfo>) -> (out: String)
    ensures
        out@ == listing_text(platforms@),
{
    let mut out = String::new();
    let mut found = false;
    let mut i: usize = 0;
    while i < platforms.len()
        invariant
            i <= platforms@.len(),
            out@ == platforms_text(platforms@, i as nat),
            found == found_preferred(platforms@, i as nat),
        decreases platforms@.len() - i,
    {
        let ghost before = out@;
        let p = &platforms[i];
        out.append("Platform #");
        push_decimal(&mut out, i as u128);
        out.append(": ");
        out.append(p.name.as_str());
        out.append("\n");
        let hit = push_devices(&mut out, p);
        if hit {
            found = true;
        }
        proof {
            assert(out@ =~= before + platform_text(i as nat, p.name@) + devices_text(
                p.name@,
                p.devices@,
                p.devices@.len(),
            ));
            if hit {
                assert(any_preferred(
                    platforms@[i as int].name@,
                    platforms@[i as int].devices@,
                    platforms@[i as int].devices@.len(),
                ));
            }
        }
        i = i + 1;
    }
    out.append(if found {
        "rusticl platform found - configured to use via OPENCV_OPENCL_DEVICE\n"
    } else {
        "Warning: rusticl platform not found!\n"
    });
    out
}

/// The line that says whether acceleration ended up enabled, with the blank
/// line that follows it.
pub open spec fn status_text(enabled: bool) -> Seq<char> {
    if enabled {
        "OpenCL is enabled\n\n"@
    } else {
        "OpenCL is disabled\n\n"@
    }
}

/// The text that says whether acceleration ended up enabled.
pub fn status(enabled: bool) -> (out: String)
    ensures
        out@ == status_text(enabled),
{
    String::from_str(if enabled {
        "OpenCL is enabled\n\n"
    } else {
        "OpenCL is disabled\n\n"
    })
}

/// What the lookup of the active device came to. Each of the failures is
/// reported as a warning and the run goes on.
pub enum ActiveDevice {
    /// The default context has a first device. A name or version that could
    /// not be read is missing.
    Device { name: Option<String>, version: Option<String> },
    /// The default context did not hand out its first device.
    NoDevice { reason: String },
    /// The default context holds no device.
    EmptyContext,
    /// There is no default context.
    NoContext { reason: String },
}

/// A text that was read, or the word that stands for one that was not.
pub open spec fn or_unknown(text: Option<String>) -> Seq<char> {
    match text {
        Some(t) => t@,
        None => "Unknown"@,
    }
}

/// The block that names the active device, or the warning that says why none
/// is named; each ends with a blank line.
pub open spec fn active_device_text(found: ActiveDevice) -> Seq<char> {
    match found {
        ActiveDevice::Device { name, version } => "=== ACTIVE OpenCL DEVICE ===\nDevice Name: "@
            + or_unknown(name) + "\nDevice Version: "@ + or_unknown(version)
            + "\n=============================\n\n"@,
        ActiveDevice::NoDevice { reason } => "Warning: Could not get device from context: "@
            + reason@ + "\n\n"@,
        ActiveDevice::EmptyContext => "Warning: OpenCL context is empty\n\n"@,
        ActiveDevice::NoContext { reason } => "Warning: Could not get OpenCL context: "@ + reason@
            + "\n\n"@,
    }
}

/// Appends a text that was read, or `Unknown` for one that was not.
pub fn push_or_unknown(out: &mut String, text: &Option<String>)
    ensures
        final(out)@ == old(out)@ + or_unknown(*text),
{
    match text {
        Some(t) => out.append(t.as_str()),
        None => out.append("Unknown"),
    }
}

/// The text that reports the lookup of the active device.
pub fn active_device_report(found: &ActiveDevice) -> (out: String)
    ensures
        out@ == active_device_text(*found),
{
    match found {
        ActiveDevice::Device { name, version } => {
            let mut out = String::from_str("=== ACTIVE OpenCL DEVICE ===\nDevice Name: ");
            push_or_unknown(&mut out, name);
            out.append("\nDevice Version: ");
            push_or_unknown(&mut out, version);
            out.append("\n=============================\n\n");
            out
        },
        ActiveDevice::NoDevice { reason } => {
            let mut out = String::from_str("Warning: Could not get device from context: ");
            out.append(reason.as_str());
            out.append("\n\n");
            out
        },
        ActiveDevice::EmptyContext => String::from_str("Warning: OpenCL context is empty\n\n"),
        ActiveDevice::NoContext { reason } => {
            let mut out = String::from_str("Warning: Could not get OpenCL context: ");
            out.append(reason.as_str());
            out.append("\n\n");
            out
        },
    }
}

/// The hint that selects a device of the accelerated backend. The backend
/// reads it once, when it is first initialised: a hint that is set later
/// changes nothing.
pub struct DeviceHint {
    pub platform: String,
    pub class: String,
    pub index: Option<u32>,
}

/// The hint as the backend reads it: platform, device class and index,
/// separated by colons, with nothing in place of a missing index.
pub open spec fn hint_text(platform: Seq<char>, class: Seq<char>, index: Option<u32>) -> Seq<char> {
    platform + ":"@ + class + ":"@ + match index {
        Some(i) => decimal_text(i as nat),
        None => Seq::empty(),
    }
}

impl DeviceHint {
    /// The first graphics processor of the `rusticl` platform.
    pub fn rusticl_gpu() -> (h: DeviceHint)
        ensures
            h.platform@ == "rusticl"@,
            h.class@ == "GPU"@,
            h.index == Some(0u32),
    {
        DeviceHint {
            platform: String::from_str("rusticl"),
            class: String::from_str("GPU"),
            index: Some(0),
        }
    }

    /// The value to hand to the backend.
    pub fn setting(&self) -> (out: String)
        ensures
            out@ == hint_text(self.platform@, self.class@, self.index),
    {
        let mut out = self.platform.clone();
        out.append(":");
        out.append(self.class.as_str());
        out.append(":");
        match self.index {
            Some(i) => {
                push_decimal(&mut out, i as u128);
            },
            None => {
                assert(out@ + Seq::<char>::empty() =~= out@);
            },
        }
        out
    }
}

} // verus!
