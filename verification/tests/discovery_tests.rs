use desktopcast::discovery::{
    cast, cast_command, cast_first_match, start_via_upnp, supports_render_control,
    DiscoveredDevice, DiscoveryScan, MediaClass, ScanAction, ScanPolicy, SCAN_DEADLINE_SECONDS,
};

const RENDERING: &str = "urn:upnp-org:serviceId:RenderingControl";

fn renderer(location: &str, model: &str, services: &[&str]) -> DiscoveredDevice {
    DiscoveredDevice {
        location: location.to_string(),
        friendly_name: format!("device at {}", location),
        services: services.iter().map(|s| s.to_string()).collect(),
        model_name: model.to_string(),
    }
}

#[test]
fn repeated_device_is_attempted_once() {
    let feed = vec![
        renderer("http://10.0.0.5/desc.xml", "Kodi", &[RENDERING]),
        renderer("http://10.0.0.5/desc.xml", "Kodi", &[RENDERING]),
        renderer("http://10.0.0.6/desc.xml", "TV", &["urn:upnp-org:serviceId:AVTransport", RENDERING]),
        renderer("http://10.0.0.5/desc.xml", "Kodi", &[RENDERING]),
        renderer("http://10.0.0.6/desc.xml", "TV", &[RENDERING]),
    ];
    let plan = start_via_upnp("rtsp://10.0.0.2:8554", &feed);
    assert_eq!(plan.targets, vec![0, 2]);
    for a in 0..plan.targets.len() {
        for b in 0..a {
            assert_ne!(feed[plan.targets[a]].location, feed[plan.targets[b]].location);
        }
    }
}

#[test]
fn location_is_spent_by_its_first_device() {
    let feed = vec![
        renderer("http://10.0.0.5/desc.xml", "Hub", &[]),
        renderer("http://10.0.0.5/desc.xml", "Hub", &[RENDERING]),
        renderer("http://10.0.0.7/desc.xml", "TV", &[RENDERING]),
    ];
    let plan = start_via_upnp("rtsp://10.0.0.2:8554", &feed);
    assert_eq!(plan.targets, vec![2]);
}

#[test]
fn devices_without_render_control_are_not_attempted() {
    let feed = vec![
        renderer("http://10.0.0.5/desc.xml", "Router", &["urn:upnp-org:serviceId:WANIPConn1"]),
        renderer("http://10.0.0.6/desc.xml", "Nas", &[]),
        renderer("http://10.0.0.7/desc.xml", "Tv", &["urn:upnp-org:serviceId:renderingcontrol"]),
    ];
    let plan = start_via_upnp("rtsp://10.0.0.2:8554", &feed);
    assert!(plan.targets.is_empty());
    assert!(!supports_render_control(&feed[0]));
    assert!(supports_render_control(&renderer("x", "y", &["a", RENDERING])));
    assert!(start_via_upnp("rtsp://10.0.0.2:8554", &vec![]).targets.is_empty());
}

#[test]
fn cast_command_carries_the_stream() {
    let command = cast_command("rtsp://10.0.0.2:8554");
    assert_eq!(command.media_url, "rtsp://10.0.0.2:8554");
    assert_eq!(
        command.dlna_features,
        "DLNA.ORG_OP=01;DLNA.ORG_CI=0;DLNA.ORG_FLAGS=01700000000000000000000000000000"
    );
    assert_eq!(command.content_type, "application/x-rtsp");
    assert_eq!(command.title, "Desktop");
    assert_eq!(command.object_class, MediaClass::Video);
    assert!(command.autoplay);
    assert_eq!(start_via_upnp("rtsp://h:8554", &vec![]).command.media_url, "rtsp://h:8554");
}

#[test]
fn scan_ends_at_its_deadline() {
    assert_eq!(SCAN_DEADLINE_SECONDS, 5);
    let mut scan = DiscoveryScan::new();
    assert!(!scan.is_finished());
    let first = renderer("http://10.0.0.5/desc.xml", "Kodi", &[RENDERING]);
    let second = renderer("http://10.0.0.6/desc.xml", "Kodi", &[RENDERING]);
    assert_eq!(scan.on_device(&first), ScanAction::Cast);
    assert_eq!(scan.on_device(&first), ScanAction::Ignore);
    assert_eq!(scan.on_deadline(), 1);
    assert!(scan.is_finished());
    for _ in 0..1000 {
        assert_eq!(scan.on_device(&second), ScanAction::Ignore);
    }
    assert_eq!(scan.seen_count(), 1);
    assert!(scan.has_seen(&first.location));
    assert!(!scan.has_seen(&second.location));
}

#[test]
fn scan_without_devices_ends_without_failure() {
    let mut scan = DiscoveryScan::new();
    assert_eq!(scan.on_deadline(), 0);
    assert!(scan.is_finished());
}

#[test]
fn scan_step_records_devices_without_render_control() {
    let mut scan = DiscoveryScan::new();
    let plain = renderer("http://10.0.0.5/desc.xml", "Hub", &[]);
    assert_eq!(scan.on_device(&plain), ScanAction::Ignore);
    assert_eq!(scan.seen_count(), 1);
    let same_place = renderer("http://10.0.0.5/desc.xml", "Hub", &[RENDERING]);
    assert_eq!(scan.on_device(&same_place), ScanAction::Ignore);
    assert_eq!(scan.seen_count(), 1);
}

#[test]
fn named_scan_stops_at_first_match() {
    let feed = vec![
        renderer("http://10.0.0.5/desc.xml", "TV", &[RENDERING]),
        renderer("http://10.0.0.6/desc.xml", "Kodi", &[RENDERING]),
        renderer("http://10.0.0.7/desc.xml", "Kodi", &[RENDERING]),
    ];
    assert_eq!(cast_first_match("rtsp://h:8554", "Kodi", &feed).targets, vec![1]);
    assert!(cast_first_match("rtsp://h:8554", "kodi", &feed).targets.is_empty());
    assert!(cast_first_match("rtsp://h:8554", "Kodi", &vec![]).targets.is_empty());
}

#[test]
fn policy_selects_the_scan() {
    let feed = vec![
        renderer("http://10.0.0.5/desc.xml", "TV", &[RENDERING]),
        renderer("http://10.0.0.6/desc.xml", "Kodi", &[RENDERING]),
    ];
    assert_eq!(cast("rtsp://h:8554", &ScanPolicy::EveryRenderer, &feed).targets, vec![0, 1]);
    let named = ScanPolicy::NamedTarget("Kodi".to_string());
    assert_eq!(cast("rtsp://h:8554", &named, &feed).targets, vec![1]);
}
