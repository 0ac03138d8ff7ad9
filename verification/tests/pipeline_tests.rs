use desktopcast::config::{DesktopCastConfig, Resolution};
use desktopcast::pipeline::{compose, Stage};
use desktopcast::source::{CaptureBackend, CaptureSourceDescriptor};

fn video() -> CaptureSourceDescriptor {
    CaptureSourceDescriptor {
        backend: CaptureBackend::DisplayServerFullScreen,
        launch: "ximagesrc".to_string(),
    }
}

fn audio() -> CaptureSourceDescriptor {
    CaptureSourceDescriptor {
        backend: CaptureBackend::AudioMonitor,
        launch: "pulsesrc do-timestamp=true device=pulse_out.monitor".to_string(),
    }
}

fn full_hd() -> DesktopCastConfig {
    DesktopCastConfig { target_resolution: Some(Resolution { width: 1920, height: 1080 }) }
}

fn unscaled() -> DesktopCastConfig {
    DesktopCastConfig { target_resolution: None }
}

#[test]
fn topology_with_resolution_has_resize_stage() {
    let topology = compose(video(), audio(), &full_hd(), 4);
    assert!(topology.resizes());
    assert_eq!(topology.video.len(), 7);
    assert!(matches!(topology.video[2], Stage::Scale { threads: 4, width: 1920, height: 1080 }));
    assert_eq!(topology.audio.len(), 6);
}

#[test]
fn topology_without_resolution_has_no_resize_stage() {
    let topology = compose(video(), audio(), &unscaled(), 4);
    assert!(!topology.resizes());
    assert_eq!(topology.video.len(), 6);
    assert!(topology.video.iter().all(|s| !matches!(s, Stage::Scale { .. })));
    assert!(!topology.launch_text().contains("videoscale"));
}

#[test]
fn stages_stand_in_order() {
    let topology = compose(video(), audio(), &full_hd(), 2);
    assert!(matches!(&topology.video[0], Stage::Source(s) if s == "ximagesrc"));
    assert!(matches!(topology.video[1], Stage::Queue));
    assert!(matches!(topology.video[3], Stage::VideoConvert));
    assert!(matches!(topology.video[4], Stage::LeakyQueue));
    assert!(matches!(topology.video[5], Stage::VideoEncode { threads: 2 }));
    assert!(matches!(topology.video[6], Stage::VideoPayload));
    assert!(matches!(topology.audio[1], Stage::Queue));
    assert!(matches!(topology.audio[2], Stage::AudioConvert));
    assert!(matches!(topology.audio[3], Stage::LeakyQueue));
    assert!(matches!(topology.audio[4], Stage::AudioEncode));
    assert!(matches!(topology.audio[5], Stage::AudioPayload));
}

#[test]
fn launch_text_with_resolution() {
    let topology = compose(video(), audio(), &full_hd(), 4);
    assert_eq!(
        topology.launch_text(),
        "(  ximagesrc ! queue ! videoscale n-threads=4 ! video/x-raw,width=1920,height=1080 ! videoconvert ! queue leaky=2 ! x264enc threads=4 tune=zerolatency speed-preset=2 bframes=0 ! video/x-h264,profile=high ! queue ! rtph264pay name=pay0 pt=96 pulsesrc do-timestamp=true device=pulse_out.monitor ! queue ! audioconvert ! audioresample ! queue leaky=2 ! vorbisenc ! queue ! rtpvorbispay name=pay1 pt=97 )"
    );
}

#[test]
fn launch_text_without_resolution() {
    let topology = compose(video(), audio(), &unscaled(), 12);
    assert_eq!(
        topology.launch_text(),
        "(  ximagesrc ! queue ! videoconvert ! queue leaky=2 ! x264enc threads=12 tune=zerolatency speed-preset=2 bframes=0 ! video/x-h264,profile=high ! queue ! rtph264pay name=pay0 pt=96 pulsesrc do-timestamp=true device=pulse_out.monitor ! queue ! audioconvert ! audioresample ! queue leaky=2 ! vorbisenc ! queue ! rtpvorbispay name=pay1 pt=97 )"
    );
}
