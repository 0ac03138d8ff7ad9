//! Device discovery and casting: which of the devices that a scan found are
//! told to play the stream, and with what command.

use vstd::prelude::*;
use vstd::string::*;

verus! {

/// One playback device as discovery reports it.
#[derive(Clone, Debug)]
pub struct DiscoveredDevice {
    /// Where the device is reached; a scan attempts each location once.
    pub location: String,
    pub friendly_name: String,
    /// The identifiers of the services that the device declares.
    pub services: Vec<String>,
    pub model_name: String,
}

/// The class of what is cast.
#[derive(Clone, Copy, Debug, PartialEq, Eq, Structural)]
pub enum MediaClass {
    Audio,
    Video,
    Image,
    Container,
}

/// The command that a scan sends to every device it attempts.
#[derive(Clone, Debug)]
pub struct CastCommand {
    pub media_url: String,
    pub dlna_features: String,
    pub content_type: String,
    pub title: String,
    pub object_class: MediaClass,
    pub autoplay: bool,
}

/// What a scan does with a device.
#[derive(Clone, Copy, Debug, PartialEq, Eq, Structural)]
pub enum ScanAction {
    Ignore,
    Cast,
}

/// How a scan picks its devices.
#[derive(Clone, Debug)]
pub enum ScanPolicy {
    /// Every device that can be told to render, until the deadline.
    EveryRenderer,
    /// The first device of the given model, and no other.
    NamedTarget(String),
}

/// The command of one scan and the positions in the feed of the devices it
/// is sent to, in the order of their arrival.
#[derive(Clone, Debug)]
pub struct CastPlan {
    pub command: CastCommand,
    pub targets: Vec<usize>,
}

/// How many seconds a scan may take.
pub const SCAN_DEADLINE_SECONDS: u64 = 5;

/// Whether `services` declares the rendering-control service.
pub open spec fn has_render_control(services: Seq<String>) -> bool {
    exists|k: int|
        0 <= k < services.len() && (#[trigger] services[k])@
            == "urn:upnp-org:serviceId:RenderingControl"@
}

/// Whether the location of the device at `i` occurs earlier in `feed`.
pub open spec fn seen_before(feed: Seq<DiscoveredDevice>, i: int) -> bool {
    exists|j: int| 0 <= j < i && (#[trigger] feed[j]).location@ == feed[i].location@
}

/// Whether the device at `i` is sent the command: it is the first of its
/// location and declares the rendering-control service.
pub open spec fn is_target(feed: Seq<DiscoveredDevice>, i: int) -> bool {
    &&& 0 <= i < feed.len()
    &&& !seen_before(feed, i)
    &&& has_render_control(feed[i].services@)
}

/// Whether `targets` is what a scan of `feed` attempts: the positions of
/// exactly the devices that are targets, in the order of their arrival.
pub open spec fn is_cast_plan(feed: Seq<DiscoveredDevice>, targets: Seq<usize>) -> bool {
    &&& forall|a: int, b: int|
        0 <= a < b < targets.len() ==> (#[trigger] targets[a]) < (#[trigger] targets[b])
    &&& forall|t: usize| #[trigger] targets.contains(t) <==> is_target(feed, t as int)
}

/// Whether `i` is the position of the first device of model `name` in `feed`.
pub open spec fn is_first_of_model(feed: Seq<DiscoveredDevice>, name: Seq<char>, i: int) -> bool {
    &&& 0 <= i < feed.len()
    &&& feed[i].model_name@ == name
    &&& forall|j: int| 0 <= j < i ==> (#[trigger] feed[j]).model_name@ != name
}

/// Whether `feed` holds no device of model `name`.
pub open spec fn no_device_of_model(feed: Seq<DiscoveredDevice>, name: Seq<char>) -> bool {
    forall|j: int| 0 <= j < feed.len() ==> (#[trigger] feed[j]).model_name@ != name
}

/// Whether `targets` is what a scan for the model `name` attempts: the first
/// device of that model, and nothing where there is none.
pub open spec fn is_named_plan(feed: Seq<DiscoveredDevice>, name: Seq<char>, targets: Seq<usize>)
    -> bool {
    if no_device_of_model(feed, name) {
        targets.len() == 0
    } else {
        targets.len() == 1 && is_first_of_model(feed, name, targets[0] as int)
    }
}

/// Whether `command` is the command that casts the stream at `media_url`.
pub open spec fn is_stream_command(command: CastCommand, media_url: Seq<char>) -> bool {
    &&& command.media_url@ == media_url
    &&& command.dlna_features@
        == "DLNA.ORG_OP=01;DLNA.ORG_CI=0;DLNA.ORG_FLAGS=01700000000000000000000000000000"@
    &&& command.content_type@ == "application/x-rtsp"@
    &&& command.title@ == "Desktop"@
    &&& command.object_class == MediaClass::Video
    &&& command.autoplay
}

/// Whether `device` declares the rendering-control service.
pub fn supports_render_control(device: &DiscoveredDevice) -> (r: bool)
    ensures
        r == has_render_control(device.services@),
{
    let wanted = String::from_str("urn:upnp-org:serviceId:RenderingControl");
    let mut k: usize = 0;
    while k < device.services.len()
        invariant
            k <= device.services@.len(),
            wanted@ == "urn:upnp-org:serviceId:RenderingControl"@,
            forall|j: int| 0 <= j < k ==> (#[trigger] device.services@[j])@ != wanted@,
        decreases device.services@.len() - k,
    {
        if device.services[k] == wanted {
            return true;
        }
        k += 1;
    }
    false
}

/// The command that casts the stream at `media_url`.
pub fn cast_command(media_url: &str) -> (r: CastCommand)
    ensures
        is_stream_command(r, media_url@),
{
    CastCommand {
        media_url: String::from_str(media_url),
        dlna_features: String::from_str(
            "DLNA.ORG_OP=01;DLNA.ORG_CI=0;DLNA.ORG_FLAGS=01700000000000000000000000000000",
        ),
        content_type: String::from_str("application/x-rtsp"),
        title: String::from_str("Desktop"),
        object_class: MediaClass::Video,
        autoplay: true,
    }
}

/// One discovery scan in progress: the locations it has met, and whether its
/// deadline has passed.
#[derive(Debug)]
pub struct DiscoveryScan {
    seen: Vec<String>,
    finished: bool,
}

impl DiscoveryScan {
    /// The locations met so far, in the order of their first arrival.
    pub closed spec fn keys(&self) -> Seq<Seq<char>> {
        Seq::new(self.seen@.len(), |k: int| self.seen@[k]@)
    }

    /// Whether the deadline has passed.
    pub closed spec fn finished(&self) -> bool {
        self.finished
    }

    /// No location is recorded twice.
    pub open spec fn wf(&self) -> bool {
        forall|a: int, b: int|
            0 <= a < b < self.keys().len() ==> #[trigger] self.keys()[a] != #[trigger] self.keys()[b]
    }

    /// A scan that has met no device.
    pub fn new() -> (r: Self)
        ensures
            r.wf(),
            r.keys() == Seq::<Seq<char>>::empty(),
            !r.finished(),
    {
        let r = DiscoveryScan { seen: Vec::new(), finished: false };
        assert(r.keys() =~= Seq::<Seq<char>>::empty());
        r
    }

    /// Whether the deadline has passed.
    pub fn is_finished(&self) -> (r: bool)
        ensures
            r == self.finished(),
    {
        self.finished
    }

    /// How many distinct locations the scan has met.
    pub fn seen_count(&self) -> (r: usize)
        ensures
            r == self.keys().len(),
    {
        self.seen.len()
    }

    /// Whether the scan has met `location`.
    pub fn has_seen(&self, location: &String) -> (r: bool)
        ensures
            r == self.keys().contains(location@),
    {
        let mut k: usize = 0;
        while k < self.seen.len()
            invariant
                k <= self.seen@.len(),
                forall|j: int| 0 <= j < k ==> #[trigger] self.keys()[j] != location@,
            decreases self.seen@.len() - k,
        {
            if self.seen[k] == *location {
                assert(self.keys()[k as int] == location@);
                return true;
            }
            k += 1;
        }
        false
    }

    /// Takes one device from the feed. A device whose location was met
    /// before is ignored. A new location is recorded, and the device is cast
    /// to exactly when it declares the rendering-control service. After the
    /// deadline every device is ignored and nothing is recorded.
    pub fn on_device(&mut self, device: &DiscoveredDevice) -> (action: ScanAction)
        requires
            old(self).wf(),
        ensures
            final(self).wf(),
            final(self).finished() == old(self).finished(),
            !old(self).finished() ==> final(self).keys().contains(device.location@),
            old(self).finished() || old(self).keys().contains(device.location@) ==> action
                == ScanAction::Ignore && final(self).keys() == old(self).keys(),
            !old(self).finished() && !old(self).keys().contains(device.location@) ==> {
                &&& final(self).keys() == old(self).keys().push(device.location@)
                &&& (action == ScanAction::Cast <==> has_render_control(device.services@))
            },
    {
        if self.finished || self.has_seen(&device.location) {
            return ScanAction::Ignore;
        }
        self.seen.push(device.location.clone());
        assert(self.keys() =~= old(self).keys().push(device.location@));
        assert(self.keys().last() == device.location@);
        if supports_render_control(device) {
            ScanAction::Cast
        } else {
            ScanAction::Ignore
        }
    }

    /// Ends the scan at its deadline, whatever the feed still holds, and says
    /// how many distinct locations were met. Reaching the deadline is the
    /// scan's normal end and no failure.
    pub fn on_deadline(&mut self) -> (met: usize)
        requires
            old(self).wf(),
        ensures
            final(self).wf(),
            final(self).finished(),
            final(self).keys() == old(self).keys(),
            met == old(self).keys().len(),
    {
        self.finished = true;
        assert(self.keys() =~= old(self).keys());
        self.seen.len()
    }
}

/// Plans one scan over the devices that arrived before the deadline: every
/// device that is the first of its location and declares the
/// rendering-control service is sent the command, in the order of arrival.
pub fn start_via_upnp(media_url: &str, feed: &Vec<DiscoveredDevice>) -> (plan: CastPlan)
    ensures
        is_stream_command(plan.command, media_url@),
        is_cast_plan(feed@, plan.targets@),
{
    let mut scan = DiscoveryScan::new();
    let mut targets: Vec<usize> = Vec::new();
    let mut i: usize = 0;
    while i < feed.len()
        invariant
            i <= feed@.len(),
            scan.wf(),
            !scan.finished(),
            forall|j: int| 0 <= j < i ==> scan.keys().contains(#[trigger] feed@[j].location@),
            forall|k: int|
                0 <= k < scan.keys().len() ==> exists|j: int|
                    0 <= j < i && (#[trigger] feed@[j]).location@ == #[trigger] scan.keys()[k],
            forall|a: int, b: int|
                0 <= a < b < targets@.len() ==> (#[trigger] targets@[a]) < (#[trigger] targets@[b]),
            forall|a: int| 0 <= a < targets@.len() ==> (#[trigger] targets@[a]) < i,
            forall|t: usize|
                #[trigger] targets@.contains(t) <==> t < i && is_target(feed@, t as int),
        decreases feed@.len() - i,
    {
        let ghost keys_before = scan.keys();
        let ghost targets_before = targets@;
        let action = scan.on_device(&feed[i]);
        proof {
            let here = feed@[i as int].location@;
            if keys_before.contains(here) {
                let k = choose|k: int| 0 <= k < keys_before.len() && keys_before[k] == here;
                let j = choose|j: int|
                    0 <= j < i && (#[trigger] feed@[j]).location@ == keys_before[k];
                assert(seen_before(feed@, i as int));
            } else {
                if seen_before(feed@, i as int) {
                    let j = choose|j: int|
                        0 <= j < i && (#[trigger] feed@[j]).location@ == here;
                    assert(keys_before.contains(feed@[j].location@));
                }
                assert(scan.keys().last() == here);
                assert forall|j: int| 0 <= j < i + 1 implies scan.keys().contains(
                    #[trigger] feed@[j].location@,
                ) by {
                    if j < i {
                        let k = choose|k: int|
                            0 <= k < keys_before.len() && keys_before[k] == feed@[j].location@;
                        assert(scan.keys()[k] == feed@[j].location@);
                    } else {
                        assert(scan.keys()[keys_before.len() as int] == here);
                    }
                }
            }
            assert((action == ScanAction::Cast) == is_target(feed@, i as int));
        }
        if action == ScanAction::Cast {
            targets.push(i);
            proof {
                assert(targets@.last() == i);
                assert forall|t: usize| #[trigger]
                    targets@.contains(t) <==> t < i + 1 && is_target(feed@, t as int) by {
                    if targets@.contains(t) {
                        let a = choose|a: int| 0 <= a < targets@.len() && targets@[a] == t;
                        if a < targets_before.len() {
                            assert(targets_before[a] == t);
                            assert(targets_before.contains(t));
                        }
                    }
                    if t < i + 1 && is_target(feed@, t as int) {
                        if t < i {
                            assert(targets_before.contains(t));
                            let a = choose|a: int|
                                0 <= a < targets_before.len() && targets_before[a] == t;
                            assert(targets@[a] == t);
                        } else {
                            assert(targets@[targets@.len() - 1] == t);
                        }
                    }
                }
            }
        }
        i += 1;
    }
    CastPlan { command: cast_command(media_url), targets }
}

/// Plans one scan for a single named device: the first device of model
/// `name` among those that arrived is sent the command, and no other.
pub fn cast_first_match(media_url: &str, name: &str, feed: &Vec<DiscoveredDevice>) -> (plan:
    CastPlan)
    ensures
        is_stream_command(plan.command, media_url@),
        is_named_plan(feed@, name@, plan.targets@),
{
    let wanted = String::from_str(name);
    let mut targets: Vec<usize> = Vec::new();
    let mut i: usize = 0;
    while i < feed.len()
        invariant
            i <= feed@.len(),
            wanted@ == name@,
            targets@.len() == 0,
            forall|j: int| 0 <= j < i ==> (#[trigger] feed@[j]).model_name@ != name@,
        decreases feed@.len() - i,
    {
        if feed[i].model_name == wanted {
            targets.push(i);
            assert(is_first_of_model(feed@, name@, i as int));
            return CastPlan { command: cast_command(media_url), targets };
        }
        i += 1;
    }
    CastPlan { command: cast_command(media_url), targets }
}

/// Plans one scan under the chosen policy.
pub fn cast(media_url: &str, policy: &ScanPolicy, feed: &Vec<DiscoveredDevice>) -> (plan:
    CastPlan)
    ensures
        is_stream_command(plan.command, media_url@),
        policy is EveryRenderer ==> is_cast_plan(feed@, plan.targets@),
        policy is NamedTarget ==> is_named_plan(feed@, policy->NamedTarget_0@, plan.targets@),
{
    match policy {
        ScanPolicy::EveryRenderer => start_via_upnp(media_url, feed),
        ScanPolicy::NamedTarget(name) => cast_first_match(media_url, name.as_str(), feed),
    }
}

/// No two devices that a scan attempts share a location, however often the
/// feed repeats a device.
pub proof fn lemma_no_location_attempted_twice(
    feed: Seq<DiscoveredDevice>,
    targets: Seq<usize>,
    a: int,
    b: int,
)
    requires
        is_cast_plan(feed, targets),
        0 <= a < targets.len(),
        0 <= b < targets.len(),
        a != b,
    ensures
        targets[a] != targets[b],
        feed[targets[a] as int].location@ != feed[targets[b] as int].location@,
{
    let (lo, hi) = if a < b {
        (a, b)
    } else {
        (b, a)
    };
    assert(targets[lo] < targets[hi]);
    assert(targets.contains(targets[hi]));
    assert(is_target(feed, targets[hi] as int));
    if feed[targets[lo] as int].location@ == feed[targets[hi] as int].location@ {
        assert(seen_before(feed, targets[hi] as int));
    }
}

/// A scan whose feed holds no device with the rendering-control service
/// attempts nothing.
pub proof fn lemma_no_renderer_no_attempt(feed: Seq<DiscoveredDevice>, targets: Seq<usize>)
    requires
        is_cast_plan(feed, targets),
        forall|i: int| 0 <= i < feed.len() ==> !has_render_control(#[trigger] feed[i].services@),
    ensures
        targets.len() == 0,
{
    if targets.len() > 0 {
        assert(targets.contains(targets[0]));
        assert(is_target(feed, targets[0] as int));
    }
}

/// Every device that a scan attempts declares the rendering-control service
/// and stands in the feed.
pub proof fn lemma_attempts_are_renderers(feed: Seq<DiscoveredDevice>, targets: Seq<usize>, a: int)
    requires
        is_cast_plan(feed, targets),
        0 <= a < targets.len(),
    ensures
        targets[a] < feed.len(),
        has_render_control(feed[targets[a] as int].services@),
{
    assert(targets.contains(targets[a]));
}

} // verus!
