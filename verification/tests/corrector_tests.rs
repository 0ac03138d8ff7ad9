use desktopcast::corrector::{BufferTimes, ElementState, FlowError, PadSide, Retimestamp};

fn linked() -> Retimestamp {
    let mut filter = Retimestamp::new();
    filter.constructed();
    filter
}

fn buffer(pts: Option<u64>, dts: Option<u64>) -> BufferTimes {
    BufferTimes { pts, dts, duration: Some(40) }
}

#[test]
fn filter_life_begins_idle_then_linked() {
    let mut filter = Retimestamp::new();
    assert_eq!(filter.state, ElementState::Idle);
    assert!(!filter.poisoned);
    filter.constructed();
    assert_eq!(filter.state, ElementState::Linked);
    filter.constructed();
    assert_eq!(filter.state, ElementState::Linked);
}

#[test]
fn buffer_is_stamped_with_running_time() {
    let mut filter = linked();
    let out = filter.sink_chain(buffer(Some(999_999), None), Some(1_000));
    assert_eq!(out, Ok(BufferTimes { pts: Some(1_000), dts: Some(1_000), duration: Some(40) }));
    assert_eq!(filter.state, ElementState::Flowing);
    assert!(!filter.poisoned);
}

#[test]
fn stamps_do_not_decrease_with_the_clock() {
    let mut filter = linked();
    let clock = [0u64, 5, 5, 17, u64::MAX];
    let sources = [Some(900u64), Some(3), None, Some(1), Some(0)];
    let mut last = 0u64;
    for (now, source) in clock.iter().zip(sources.iter()) {
        let out = filter.sink_chain(buffer(*source, *source), Some(*now));
        let out = out.unwrap_or_else(|_| panic!("the clock is running"));
        assert_eq!(out.pts, out.dts);
        assert_eq!(out.pts, Some(*now));
        assert!(out.pts.unwrap_or(0) >= last);
        last = out.pts.unwrap_or(0);
    }
}

#[test]
fn buffer_without_running_time_poisons_the_filter() {
    let mut filter = linked();
    assert_eq!(filter.sink_chain(buffer(Some(1), Some(1)), None), Err(FlowError::Error));
    assert!(filter.poisoned);
    assert_eq!(filter.sink_chain(buffer(Some(1), Some(1)), Some(7)), Err(FlowError::Error));
    assert!(filter.sink_event(3u8).is_none());
    assert!(filter.src_query("position").is_none());
}

#[test]
fn buffer_before_linking_is_refused() {
    let mut filter = Retimestamp::new();
    assert_eq!(filter.sink_chain(buffer(None, None), Some(7)), Err(FlowError::NotLinked));
    assert_eq!(filter.state, ElementState::Idle);
    assert!(!filter.poisoned);
}

#[test]
fn cut_short_call_poisons_the_filter() {
    let mut filter = linked();
    filter.on_panic();
    assert!(filter.poisoned);
    assert_eq!(filter.state, ElementState::Linked);
    assert_eq!(filter.sink_chain(buffer(None, None), Some(7)), Err(FlowError::Error));
}

#[test]
fn events_and_queries_cross_unchanged() {
    let filter = linked();
    let routed = filter.sink_event("caps: video/x-raw".to_string());
    let routed = routed.unwrap_or_else(|| panic!("the filter is sound"));
    assert_eq!(routed.to, PadSide::Src);
    assert_eq!(routed.item, "caps: video/x-raw");
    let routed = filter.src_event(vec![1u8, 2, 3]).unwrap_or_else(|| panic!("sound"));
    assert_eq!(routed.to, PadSide::Sink);
    assert_eq!(routed.item, vec![1u8, 2, 3]);
    let routed = filter.sink_query(17u32).unwrap_or_else(|| panic!("sound"));
    assert_eq!((routed.to, routed.item), (PadSide::Src, 17));
    let routed = filter.src_query(18u32).unwrap_or_else(|| panic!("sound"));
    assert_eq!((routed.to, routed.item), (PadSide::Sink, 18));
    let routed = filter.route(PadSide::Src, 'x').unwrap_or_else(|| panic!("sound"));
    assert_eq!((routed.to, routed.item), (PadSide::Sink, 'x'));
}

#[test]
fn filter_describes_itself() {
    assert_eq!(Retimestamp::element_name(), "retimestamp");
    let metadata = Retimestamp::metadata();
    assert_eq!(metadata.long_name, "Retimestamp");
    assert_eq!(metadata.classification, "Generic");
    let pads = Retimestamp::pad_templates();
    assert_eq!(pads.len(), 2);
    assert_eq!((pads[0].name.as_str(), pads[0].direction), ("src", PadSide::Src));
    assert_eq!((pads[1].name.as_str(), pads[1].direction), ("sink", PadSide::Sink));
}
