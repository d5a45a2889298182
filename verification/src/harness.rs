//! The run of the whole benchmark as a sequence of decisions. The harness
//! says what to do next and what to print; its driver does it and reports
//! back what happened.
use vstd::prelude::*;
use vstd::string::StringExecFns;
use crate::probe::{
    ActiveDevice,
    DeviceHint,
    PlatformInfo,
    active_device_report,
    active_device_text,
    hint_text,
    listing,
    listing_text,
    status,
    status_text,
};
use crate::stage::Shape;
use crate::timing::{TimingResult, report_text};

verus! {

/// Where a run stands: what the harness has asked for and waits to hear of.
#[derive(Clone, Copy, Debug, PartialEq, Eq, Structural)]
pub enum Phase {
    /// The device hint is being set.
    Hint,
    /// The backend is being asked whether acceleration is present.
    Probe,
    /// The platforms and their devices are being listed.
    Platforms,
    /// Acceleration is being switched on or off.
    Enable,
    /// The backend is being asked whether acceleration is on.
    Status,
    /// The active device is being looked up.
    Active,
    /// The image is being decoded.
    Image,
    /// The host pipeline is being timed.
    Host,
    /// The device pipeline is being timed.
    Device,
    /// The run has ended well.
    Succeeded,
    /// The run was given up.
    Failed,
}

/// What the driver is to do next.
#[derive(Clone, Copy, Debug, PartialEq, Eq, Structural)]
pub enum Action {
    /// Hand the device hint to the backend's environment.
    SetDeviceHint,
    /// Ask the backend whether acceleration is present.
    ProbeBackend,
    /// List the platforms and their devices.
    ListPlatforms,
    /// Switch acceleration on or off.
    EnableBackend(bool),
    /// Ask the backend whether acceleration is on.
    QueryEnabled,
    /// Look up the active device.
    QueryActiveDevice,
    /// Decode the image.
    LoadImage,
    /// Time the pipeline on host memory.
    TimeHost,
    /// Time the pipeline on device memory.
    TimeDevice,
    /// Leave with this exit code.
    Exit(u8),
}

/// What the driver reports back. A failure comes with its message.
pub enum Event {
    HintSet,
    Probed(Result<bool, String>),
    Listed(Result<Vec<PlatformInfo>, String>),
    Switched(Result<(), String>),
    Enabled(Result<bool, String>),
    Active(ActiveDevice),
    Loaded(Result<Shape, String>),
    HostTimed(Result<TimingResult, String>),
    DeviceTimed(Result<TimingResult, String>),
}

/// The harness's answer to an event: a text to print, which may be empty,
/// and then the next thing to do.
pub struct Reaction {
    pub print: String,
    pub action: Action,
}

/// The state of a run.
pub struct Harness {
    pub phase: Phase,
    /// The path of the image to decode.
    pub image: String,
    /// The probe found an accelerated backend.
    pub available: bool,
    /// Acceleration ended up enabled.
    pub accelerated: bool,
}

/// The position of a phase in a run. Every step moves to a later one.
pub open spec fn rank(phase: Phase) -> nat {
    match phase {
        Phase::Hint => 0,
        Phase::Probe => 1,
        Phase::Platforms => 2,
        Phase::Enable => 3,
        Phase::Status => 4,
        Phase::Active => 5,
        Phase::Image => 6,
        Phase::Host => 7,
        Phase::Device => 8,
        Phase::Succeeded => 9,
        Phase::Failed => 9,
    }
}

/// The message of a failure that the event reports and that ends the run.
/// Listing the platforms and looking up the active device are diagnostic:
/// their failures end nothing.
pub open spec fn fatal(phase: Phase, event: Event) -> Option<Seq<char>> {
    match (phase, event) {
        (Phase::Hint, Event::HintSet) => None,
        (Phase::Probe, Event::Probed(r)) => match r {
            Ok(_) => None,
            Err(m) => Some(m@),
        },
        (Phase::Platforms, Event::Listed(_)) => None,
        (Phase::Enable, Event::Switched(r)) => match r {
            Ok(_) => None,
            Err(m) => Some(m@),
        },
        (Phase::Status, Event::Enabled(r)) => match r {
            Ok(_) => None,
            Err(m) => Some(m@),
        },
        (Phase::Active, Event::Active(_)) => None,
        (Phase::Image, Event::Loaded(r)) => match r {
            Ok(shape) => if shape.is_color_image() {
                None
            } else {
                Some("the image could not be decoded"@)
            },
            Err(m) => Some(m@),
        },
        (Phase::Host, Event::HostTimed(r)) => match r {
            Ok(_) => None,
            Err(m) => Some(m@),
        },
        (Phase::Device, Event::DeviceTimed(r)) => match r {
            Ok(_) => None,
            Err(m) => Some(m@),
        },
        _ => Some("unexpected event"@),
    }
}

/// The phase that follows `phase` on `event`, in a run whose probe found
/// `available` and whose status query found `accelerated`.
pub open spec fn next_phase(phase: Phase, accelerated: bool, event: Event) -> Phase {
    if fatal(phase, event) is Some {
        Phase::Failed
    } else {
        match (phase, event) {
            (Phase::Hint, _) => Phase::Probe,
            (Phase::Probe, Event::Probed(Ok(found))) => if found {
                Phase::Platforms
            } else {
                Phase::Enable
            },
            (Phase::Platforms, _) => Phase::Enable,
            (Phase::Enable, _) => Phase::Status,
            (Phase::Status, Event::Enabled(Ok(on))) => if on {
                Phase::Active
            } else {
                Phase::Image
            },
            (Phase::Active, _) => Phase::Image,
            (Phase::Image, _) => Phase::Host,
            (Phase::Host, _) => if accelerated {
                Phase::Device
            } else {
                Phase::Succeeded
            },
            _ => Phase::Succeeded,
        }
    }
}

/// What the driver is asked to do on entering `phase`.
pub open spec fn action_of(phase: Phase, available: bool) -> Action {
    match phase {
        Phase::Hint => Action::SetDeviceHint,
        Phase::Probe => Action::ProbeBackend,
        Phase::Platforms => Action::ListPlatforms,
        Phase::Enable => Action::EnableBackend(available),
        Phase::Status => Action::QueryEnabled,
        Phase::Active => Action::QueryActiveDevice,
        Phase::Image => Action::LoadImage,
        Phase::Host => Action::TimeHost,
        Phase::Device => Action::TimeDevice,
        Phase::Succeeded => Action::Exit(0),
        Phase::Failed => Action::Exit(1),
    }
}

/// The text that is printed on `event` in `phase`.
pub open spec fn printed(phase: Phase, event: Event) -> Seq<char> {
    match fatal(phase, event) {
        Some(message) => "Error: "@ + message + "\n"@,
        None => match event {
            Event::Listed(Ok(platforms)) => listing_text(platforms@),
            Event::Listed(Err(m)) => "Warning: Could not list the platforms: "@ + m@ + "\n"@,
            Event::Enabled(Ok(on)) => status_text(on),
            Event::Active(found) => active_device_text(found),
            Event::HostTimed(Ok(t)) => report_text(t.label(), t.iterations(), t.total_nanos()),
            Event::DeviceTimed(Ok(t)) => report_text(t.label(), t.iterations(), t.total_nanos()),
            _ => Seq::empty(),
        },
    }
}

/// The text that tells how to call the program.
pub open spec fn usage_text() -> Seq<char> {
    "Usage: cargo run --release <image>\n"@
}

impl Harness {
    /// The run is over: the last action was to leave.
    pub open spec fn is_over(&self) -> bool {
        self.phase == Phase::Succeeded || self.phase == Phase::Failed
    }

    /// Begins a run with the program's arguments, the program's own name
    /// first. Without the path of an image the run is over before it has
    /// touched the backend or the image: the usage is printed and the
    /// program leaves with a failure. Otherwise the device hint is set first,
    /// before anything is asked of the backend.
    pub fn start(args: &Vec<String>) -> (r: (Harness, Reaction))
        ensures
            args@.len() < 2 ==> r.0.phase == Phase::Failed && r.1.action == Action::Exit(1)
                && r.1.print@ == usage_text(),
            args@.len() >= 2 ==> r.0.phase == Phase::Hint && r.1.action == Action::SetDeviceHint
                && r.1.print@ == Seq::<char>::empty() && r.0.image@ == args@[1]@,
            !r.0.available,
            !r.0.accelerated,
    {
        if args.len() < 2 {
            (
                Harness {
                    phase: Phase::Failed,
                    image: String::new(),
                    available: false,
                    accelerated: false,
                },
                Reaction {
                    print: String::from_str("Usage: cargo run --release <image>\n"),
                    action: Action::Exit(1),
                },
            )
        } else {
            (
                Harness {
                    phase: Phase::Hint,
                    image: args[1].clone(),
                    available: false,
                    accelerated: false,
                },
                Reaction { print: String::new(), action: Action::SetDeviceHint },
            )
        }
    }

    /// The hint to set when the harness asks for it.
    pub fn device_hint(&self) -> (h: String)
        ensures
            h@ == hint_text("rusticl"@, "GPU"@, Some(0u32)),
    {
        DeviceHint::rusticl_gpu().setting()
    }

    /// Takes what the driver reports and says what to print and what to do
    /// next.
    ///
    /// A failure of an operation ends the run with its message and exit code
    /// 1, and so does an event that the phase does not wait for; a failed
    /// diagnostic query is printed as a warning and the run goes on. The
    /// device hint is never asked for again, the device pipeline is timed
    /// only when acceleration ended up enabled, and every step leads to a
    /// later phase, so that a run ends after at most nine steps.
    pub fn step(self, event: Event) -> (r: (Harness, Reaction))
        ensures
            r.0.phase == next_phase(self.phase, self.accelerated, event),
            r.0.image == self.image,
            r.0.available == (match (self.phase, event) {
                (Phase::Probe, Event::Probed(Ok(found))) => found,
                _ => self.available,
            }),
            r.0.accelerated == (match (self.phase, event) {
                (Phase::Status, Event::Enabled(Ok(on))) => on,
                _ => self.accelerated,
            }),
            r.1.action == action_of(r.0.phase, r.0.available),
            r.1.print@ == printed(self.phase, event),
            r.1.action != Action::SetDeviceHint,
            r.1.action == Action::TimeDevice ==> self.accelerated && self.phase == Phase::Host,
            !self.is_over() ==> rank(r.0.phase) > rank(self.phase),
            self.is_over() ==> r.0.phase == Phase::Failed,
    {
        let Harness { phase, image, available, accelerated } = self;
        let mut available = available;
        let mut accelerated = accelerated;
        let (next, print): (Phase, String) = match (phase, event) {
            (Phase::Hint, Event::HintSet) => (Phase::Probe, String::new()),
            (Phase::Probe, Event::Probed(Ok(found))) => {
                available = found;
                (
                    if found {
                        Phase::Platforms
                    } else {
                        Phase::Enable
                    },
                    String::new(),
                )
            },
            (Phase::Probe, Event::Probed(Err(m))) => (Phase::Failed, failure(m.as_str())),
            (Phase::Platforms, Event::Listed(Ok(platforms))) => (Phase::Enable, listing(&platforms)),
            (Phase::Platforms, Event::Listed(Err(m))) => {
                let mut w = String::from_str("Warning: Could not list the platforms: ");
                w.append(m.as_str());
                w.append("\n");
                (Phase::Enable, w)
            },
            (Phase::Enable, Event::Switched(Ok(_))) => (Phase::Status, String::new()),
            (Phase::Enable, Event::Switched(Err(m))) => (Phase::Failed, failure(m.as_str())),
            (Phase::Status, Event::Enabled(Ok(on))) => {
                accelerated = on;
                (
                    if on {
                        Phase::Active
                    } else {
                        Phase::Image
                    },
                    status(on),
                )
            },
            (Phase::Status, Event::Enabled(Err(m))) => (Phase::Failed, failure(m.as_str())),
            (Phase::Active, Event::Active(found)) => (Phase::Image, active_device_report(&found)),
            (Phase::Image, Event::Loaded(Ok(shape))) => if shape.color_image() {
                (Phase::Host, String::new())
            } else {
                (Phase::Failed, failure("the image could not be decoded"))
            },
            (Phase::Image, Event::Loaded(Err(m))) => (Phase::Failed, failure(m.as_str())),
            (Phase::Host, Event::HostTimed(Ok(t))) => (
                if accelerated {
                    Phase::Device
                } else {
                    Phase::Succeeded
                },
                t.report_line(),
            ),
            (Phase::Host, Event::HostTimed(Err(m))) => (Phase::Failed, failure(m.as_str())),
            (Phase::Device, Event::DeviceTimed(Ok(t))) => (Phase::Succeeded, t.report_line()),
            (Phase::Device, Event::DeviceTimed(Err(m))) => (Phase::Failed, failure(m.as_str())),
            _ => (Phase::Failed, failure("unexpected event")),
        };
        let action = next.action(available);
        (Harness { phase: next, image, available, accelerated }, Reaction { print, action })
    }
}

impl Phase {
    /// What the driver is asked to do on entering this phase.
    pub fn action(self, available: bool) -> (a: Action)
        ensures
            a == action_of(self, available),
    {
        match self {
            Phase::Hint => Action::SetDeviceHint,
            Phase::Probe => Action::ProbeBackend,
            Phase::Platforms => Action::ListPlatforms,
            Phase::Enable => Action::EnableBackend(available),
            Phase::Status => Action::QueryEnabled,
            Phase::Active => Action::QueryActiveDevice,
            Phase::Image => Action::LoadImage,
            Phase::Host => Action::TimeHost,
            Phase::Device => Action::TimeDevice,
            Phase::Succeeded => Action::Exit(0),
            Phase::Failed => Action::Exit(1),
        }
    }
}

/// The line that reports the failure that ends a run.
pub fn failure(message: &str) -> (out: String)
    ensures
        out@ == "Error: "@ + message@ + "\n"@,
{
    let mut out = String::from_str("Error: ");
    out.append(message);
    out.append("\n");
    out
}

/// A run that is over stays over: whatever is reported to it, it asks for
/// nothing but to leave with a failure. So a run that ended on the missing
/// argument never probes the backend and never decodes an image.
pub proof fn lemma_over_stays_over(phase: Phase, available: bool, accelerated: bool, event: Event)
    requires
        phase == Phase::Succeeded || phase == Phase::Failed,
    ensures
        next_phase(phase, accelerated, event) == Phase::Failed,
        action_of(next_phase(phase, accelerated, event), available) == Action::Exit(1),
{
}

/// Every step of a run that is not over leads to a later phase. No phase is
/// entered twice, and the actions come in one order: the hint, the probe, the
/// listing, the switch, the status, the active device, the image, the host
/// timing, the device timing, the exit.
pub proof fn lemma_steps_advance(phase: Phase, accelerated: bool, event: Event)
    requires
        phase != Phase::Succeeded,
        phase != Phase::Failed,
    ensures
        rank(next_phase(phase, accelerated, event)) > rank(phase),
{
}

/// The device hint is set before the backend is first asked anything: the
/// probe is the step that follows the hint and follows nothing else, and no
/// step asks for the hint again.
pub proof fn lemma_hint_comes_first(phase: Phase, available: bool, accelerated: bool, event: Event)
    ensures
        action_of(next_phase(phase, accelerated, event), available) != Action::SetDeviceHint,
        action_of(next_phase(phase, accelerated, event), available) == Action::ProbeBackend
            ==> phase == Phase::Hint,
{
}

/// The device pipeline is timed only after the host pipeline, and only in a
/// run in which acceleration ended up enabled. Without acceleration the host
/// timing is the last work of the run, which then ends well.
pub proof fn lemma_device_needs_acceleration(
    phase: Phase,
    available: bool,
    accelerated: bool,
    event: Event,
)
    ensures
        action_of(next_phase(phase, accelerated, event), available) == Action::TimeDevice ==> (
        accelerated && phase == Phase::Host),
        phase == Phase::Host && !accelerated && fatal(phase, event) is None ==> action_of(
            next_phase(phase, accelerated, event),
            available,
        ) == Action::Exit(0),
{
}

/// The image is decoded only after the status of the acceleration has been
/// printed, and the pipelines are timed only on a decoded colour image.
pub proof fn lemma_image_before_timing(phase: Phase, available: bool, accelerated: bool, event: Event)
    ensures
        action_of(next_phase(phase, accelerated, event), available) == Action::LoadImage ==> (
        phase == Phase::Status || phase == Phase::Active),
        action_of(next_phase(phase, accelerated, event), available) == Action::TimeHost ==> (
        phase == Phase::Image && event is Loaded && event->Loaded_0 is Ok
            && event->Loaded_0->Ok_0.is_color_image()),
{
}

} // verus!
