//! Capture source resolution: an ordered chain of capture backends for video,
//! and the choice of a monitor device for audio.

use vstd::prelude::*;
use vstd::string::*;
use crate::text::{push_decimal, push_signed_decimal, starts_with, decimal, signed_decimal};

verus! {

/// The backend that a resolved capture source belongs to.
#[derive(Clone, Copy, Debug, PartialEq, Eq, Structural)]
pub enum CaptureBackend {
    PortalScreenCapture,
    DisplayServerRegion,
    DisplayServerFullScreen,
    AudioMonitor,
}

/// A resolved capture source: the backend that answered and the source
/// description that the pipeline starts with.
#[derive(Clone, Debug)]
pub struct CaptureSourceDescriptor {
    pub backend: CaptureBackend,
    pub launch: String,
}

/// Why a capture backend gave no source.
#[derive(Clone, Copy, Debug, PartialEq, Eq, Structural)]
pub enum ResolveError {
    /// The portal granted no stream.
    NoStreams,
    /// The display server reports no monitor marked primary.
    NoPrimaryMonitor,
    /// The device registry holds no monitor-class audio source.
    NoAudioMonitor,
}

/// One monitor as the display server reports it.
#[derive(Clone, Copy, Debug, PartialEq, Eq, Structural)]
pub struct MonitorRegion {
    pub primary: bool,
    pub x: i16,
    pub y: i16,
    pub width: u16,
    pub height: u16,
}

/// One audio source as the device registry reports it.
#[derive(Clone, Debug)]
pub struct AudioDevice {
    pub name: String,
    pub device_class: Option<String>,
    pub internal_name: String,
}

/// `v` reduced into the 16-bit signed range by wrapping.
pub open spec fn wrap_i16(v: int) -> int {
    if v > 32767 {
        v - 65536
    } else if v < -32768 {
        v + 65536
    } else {
        v
    }
}

/// `v` cut off at the ends of the 16-bit signed range.
pub open spec fn clamp_i16(v: int) -> int {
    if v > 32767 {
        32767
    } else if v < -32768 {
        -32768
    } else {
        v
    }
}

/// The last coordinate that a region covers along one axis: the start plus
/// the extent less one. The extent is read as a 16-bit signed number (wrapping),
/// and the sum saturates at the ends of that range.
pub open spec fn region_end(start: i16, extent: u16) -> int {
    clamp_i16(start as int + wrap_i16(wrap_i16(extent as int) - 1))
}

/// The capture options that select the region of `m`.
pub open spec fn region_options(m: MonitorRegion) -> Seq<char> {
    "startx="@ + signed_decimal(m.x as int) + " starty="@ + signed_decimal(m.y as int)
        + " endx="@ + signed_decimal(region_end(m.x, m.width)) + " endy="@ + signed_decimal(
        region_end(m.y, m.height),
    )
}

/// Whether `i` is the position of the first primary monitor in `monitors`.
pub open spec fn is_first_primary(monitors: Seq<MonitorRegion>, i: int) -> bool {
    &&& 0 <= i < monitors.len()
    &&& monitors[i].primary
    &&& forall|j: int| 0 <= j < i ==> !(#[trigger] monitors[j]).primary
}

/// Whether no monitor in `monitors` is marked primary.
pub open spec fn no_primary(monitors: Seq<MonitorRegion>) -> bool {
    forall|j: int| 0 <= j < monitors.len() ==> !(#[trigger] monitors[j]).primary
}

/// The source description of a portal stream with the given node.
pub open spec fn portal_launch(node: u32) -> Seq<char> {
    "pipewiresrc do-timestamp=true keepalive-time=100 path="@ + decimal(node as nat)
        + " ! retimestamp"@
}

/// The source description that captures the region of `m`.
pub open spec fn region_launch(m: MonitorRegion) -> Seq<char> {
    "ximagesrc "@ + region_options(m)
}

/// Whether `d` is a monitor-class source of the system mixer.
pub open spec fn is_audio_monitor(d: AudioDevice) -> bool {
    &&& "pulse"@.is_prefix_of(d.name@)
    &&& d.device_class is Some
    &&& d.device_class->0@ == "monitor"@
}

/// Whether `i` is the position of the first monitor-class source in `devices`.
pub open spec fn is_first_audio_monitor(devices: Seq<AudioDevice>, i: int) -> bool {
    &&& 0 <= i < devices.len()
    &&& is_audio_monitor(devices[i])
    &&& forall|j: int| 0 <= j < i ==> !is_audio_monitor(#[trigger] devices[j])
}

/// Whether `devices` holds no monitor-class source.
pub open spec fn no_audio_monitor(devices: Seq<AudioDevice>) -> bool {
    forall|j: int| 0 <= j < devices.len() ==> !is_audio_monitor(#[trigger] devices[j])
}

/// The source description that records from the device `internal_name`.
pub open spec fn audio_launch(internal_name: Seq<char>) -> Seq<char> {
    "pulsesrc do-timestamp=true device="@ + internal_name
}

/// The last coordinate of a region along one axis.
fn axis_end(start: i16, extent: u16) -> (r: i32)
    ensures
        r as int == region_end(start, extent),
{
    let signed: i32 = if extent >= 32768 {
        extent as i32 - 65536
    } else {
        extent as i32
    };
    let span: i32 = if signed - 1 < -32768 {
        signed - 1 + 65536
    } else {
        signed - 1
    };
    let sum: i32 = start as i32 + span;
    if sum > 32767 {
        32767
    } else if sum < -32768 {
        -32768
    } else {
        sum
    }
}

/// Whether `d` is a monitor-class source of the system mixer.
pub fn device_is_audio_monitor(d: &AudioDevice) -> (r: bool)
    ensures
        r == is_audio_monitor(*d),
{
    if !starts_with(d.name.as_str(), "pulse") {
        return false;
    }
    match &d.device_class {
        Some(class) => {
            let monitor = String::from_str("monitor");
            *class == monitor
        },
        None => false,
    }
}

/// The video capture backends, tried in a fixed order.
pub struct VideoSourceHelper;

impl VideoSourceHelper {
    /// The node of the first stream that the portal granted.
    pub fn get_pipewire_stream_id(streams: &Vec<u32>) -> (r: Result<u32, ResolveError>)
        ensures
            streams@.len() == 0 ==> r == Err::<u32, ResolveError>(ResolveError::NoStreams),
            streams@.len() > 0 ==> r == Ok::<u32, ResolveError>(streams@[0]),
    {
        if streams.len() == 0 {
            Err(ResolveError::NoStreams)
        } else {
            Ok(streams[0])
        }
    }

    /// The capture options for the first monitor marked primary.
    pub fn get_x11_options(monitors: &Vec<MonitorRegion>) -> (r: Result<String, ResolveError>)
        ensures
            no_primary(monitors@) <==> r == Err::<String, ResolveError>(
                ResolveError::NoPrimaryMonitor,
            ),
            r is Err ==> no_primary(monitors@),
            r is Ok ==> exists|i: int|
                is_first_primary(monitors@, i) && r->Ok_0@ == region_options(monitors@[i]),
    {
        let mut i: usize = 0;
        while i < monitors.len()
            invariant
                i <= monitors@.len(),
                forall|j: int| 0 <= j < i ==> !(#[trigger] monitors@[j]).primary,
            decreases monitors@.len() - i,
        {
            if monitors[i].primary {
                let m = monitors[i];
                let mut out = String::from_str("startx=");
                push_signed_decimal(&mut out, m.x as i32);
                out.append(" starty=");
                push_signed_decimal(&mut out, m.y as i32);
                out.append(" endx=");
                push_signed_decimal(&mut out, axis_end(m.x, m.width));
                out.append(" endy=");
                push_signed_decimal(&mut out, axis_end(m.y, m.height));
                assert(is_first_primary(monitors@, i as int));
                return Ok(out);
            }
            i += 1;
        }
        Err(ResolveError::NoPrimaryMonitor)
    }

    /// The portal's answer as a capture source, where it granted a stream.
    pub fn from_portal(streams: &Vec<u32>) -> (r: Option<CaptureSourceDescriptor>)
        ensures
            streams@.len() == 0 <==> r is None,
            r is Some ==> r->0.backend == CaptureBackend::PortalScreenCapture && r->0.launch@
                == portal_launch(streams@[0]),
    {
        match Self::get_pipewire_stream_id(streams) {
            Ok(node) => {
                let mut launch = String::from_str(
                    "pipewiresrc do-timestamp=true keepalive-time=100 path=",
                );
                push_decimal(&mut launch, node as u64);
                launch.append(" ! retimestamp");
                Some(CaptureSourceDescriptor { backend: CaptureBackend::PortalScreenCapture, launch })
            },
            Err(_) => None,
        }
    }

    /// The display server's answer as a capture source: the region of the
    /// primary monitor where there is one, the whole display otherwise.
    /// `monitors` is `None` where the display server could not be asked.
    pub fn from_display_server(monitors: Option<&Vec<MonitorRegion>>) -> (r:
        CaptureSourceDescriptor)
        ensures
            video_from_display(monitors, r),
    {
        if let Some(list) = monitors {
            if let Ok(options) = Self::get_x11_options(list) {
                let mut launch = String::from_str("ximagesrc ");
                launch.append(options.as_str());
                return CaptureSourceDescriptor {
                    backend: CaptureBackend::DisplayServerRegion,
                    launch,
                };
            }
        }
        CaptureSourceDescriptor {
            backend: CaptureBackend::DisplayServerFullScreen,
            launch: String::from_str("ximagesrc"),
        }
    }

    /// Resolves the video source: the portal's first stream if it granted one,
    /// else the primary monitor's region, else the whole display. `portal` and
    /// `monitors` are `None` where the backend could not be asked.
    pub fn get_gst_videosource_launch(
        portal: Option<&Vec<u32>>,
        monitors: Option<&Vec<MonitorRegion>>,
    ) -> (r: CaptureSourceDescriptor)
        ensures
            portal is Some && portal->0@.len() > 0 ==> r.backend
                == CaptureBackend::PortalScreenCapture && r.launch@ == portal_launch(
                portal->0@[0],
            ),
            !(portal is Some && portal->0@.len() > 0) ==> video_from_display(monitors, r),
    {
        if let Some(streams) = portal {
            if let Some(found) = Self::from_portal(streams) {
                return found;
            }
        }
        Self::from_display_server(monitors)
    }
}

/// What the display server's answer resolves to.
pub open spec fn video_from_display(
    monitors: Option<&Vec<MonitorRegion>>,
    r: CaptureSourceDescriptor,
) -> bool {
    if monitors is Some && !no_primary(monitors->0@) {
        &&& r.backend == CaptureBackend::DisplayServerRegion
        &&& exists|i: int|
            is_first_primary(monitors->0@, i) && r.launch@ == region_launch(monitors->0@[i])
    } else {
        &&& r.backend == CaptureBackend::DisplayServerFullScreen
        &&& r.launch@ == "ximagesrc"@
    }
}

/// The audio capture backend.
pub struct AudioSourceHelper;

impl AudioSourceHelper {
    /// Resolves the audio source: the first monitor-class source among
    /// `devices`, named by its internal name.
    pub fn get_gst_audiosource_launch(devices: &Vec<AudioDevice>) -> (r: Result<
        CaptureSourceDescriptor,
        ResolveError,
    >)
        ensures
            no_audio_monitor(devices@) <==> r is Err,
            r is Err ==> r->Err_0 == ResolveError::NoAudioMonitor,
            r is Ok ==> r->Ok_0.backend == CaptureBackend::AudioMonitor && exists|i: int|
                is_first_audio_monitor(devices@, i) && r->Ok_0.launch@ == audio_launch(
                    devices@[i].internal_name@,
                ),
    {
        let mut i: usize = 0;
        while i < devices.len()
            invariant
                i <= devices@.len(),
                forall|j: int| 0 <= j < i ==> !is_audio_monitor(#[trigger] devices@[j]),
            decreases devices@.len() - i,
        {
            if device_is_audio_monitor(&devices[i]) {
                let mut launch = String::from_str("pulsesrc do-timestamp=true device=");
                launch.append(devices[i].internal_name.as_str());
                assert(is_first_audio_monitor(devices@, i as int));
                return Ok(
                    CaptureSourceDescriptor { backend: CaptureBackend::AudioMonitor, launch },
                );
            }
            i += 1;
        }
        Err(ResolveError::NoAudioMonitor)
    }
}

} // verus!
