//! Pipeline composition: the ordered stages of the video and audio chains and
//! the launch text that describes them.

use vstd::prelude::*;
use vstd::string::*;
use crate::config::{DesktopCastConfig, Resolution};
use crate::source::CaptureSourceDescriptor;
use crate::text::{push_decimal, decimal};

verus! {

/// One processing stage of a chain.
#[derive(Clone, Debug)]
pub enum Stage {
    /// The capture source, by its description.
    Source(String),
    /// An unbounded buffering stage.
    Queue,
    /// Resizes the picture, on `threads` threads.
    Scale { threads: usize, width: usize, height: usize },
    /// Converts the picture format.
    VideoConvert,
    /// Converts and resamples the sound.
    AudioConvert,
    /// A bounded buffering stage that drops its oldest entry when full.
    LeakyQueue,
    /// Encodes the picture with minimal latency and no frame reordering, on `threads` threads.
    VideoEncode { threads: usize },
    /// Encodes the sound.
    AudioEncode,
    /// Frames the encoded picture for the network.
    VideoPayload,
    /// Frames the encoded sound for the network.
    AudioPayload,
}

/// The stages of one session: the video chain and the audio chain, each in order.
#[derive(Clone, Debug)]
pub struct PipelineTopology {
    pub video: Vec<Stage>,
    pub audio: Vec<Stage>,
}

/// The launch text of one stage.
pub open spec fn stage_text(stage: Stage) -> Seq<char> {
    match stage {
        Stage::Source(launch) => launch@,
        Stage::Queue => "queue"@,
        Stage::Scale { threads, width, height } => "videoscale n-threads="@ + decimal(
            threads as nat,
        ) + " ! video/x-raw,width="@ + decimal(width as nat) + ",height="@ + decimal(
            height as nat,
        ),
        Stage::VideoConvert => "videoconvert"@,
        Stage::AudioConvert => "audioconvert ! audioresample"@,
        Stage::LeakyQueue => "queue leaky=2"@,
        Stage::VideoEncode { threads } => "x264enc threads="@ + decimal(threads as nat)
            + " tune=zerolatency speed-preset=2 bframes=0 ! video/x-h264,profile=high ! queue"@,
        Stage::AudioEncode => "vorbisenc ! queue"@,
        Stage::VideoPayload => "rtph264pay name=pay0 pt=96"@,
        Stage::AudioPayload => "rtpvorbispay name=pay1 pt=97"@,
    }
}

/// What stands before the stage at `position` of a chain.
pub open spec fn separator(position: int) -> Seq<char> {
    if position == 0 {
        " "@
    } else {
        " ! "@
    }
}

/// The launch text of a chain: its stages in order, each after its separator.
pub open spec fn chain_text(stages: Seq<Stage>) -> Seq<char>
    decreases stages.len(),
{
    if stages.len() == 0 {
        Seq::empty()
    } else {
        chain_text(stages.drop_last()) + separator(stages.len() - 1) + stage_text(stages.last())
    }
}

/// The launch text of a whole topology.
pub open spec fn topology_text(video: Seq<Stage>, audio: Seq<Stage>) -> Seq<char> {
    "( "@ + chain_text(video) + chain_text(audio) + " )"@
}

/// The video chain for a source, an optional target size and a thread count.
pub open spec fn video_chain(source: String, target: Option<Resolution>, threads: usize) -> Seq<
    Stage,
> {
    let head = seq![Stage::Source(source), Stage::Queue];
    let tail = seq![
        Stage::VideoConvert,
        Stage::LeakyQueue,
        Stage::VideoEncode { threads },
        Stage::VideoPayload,
    ];
    match target {
        Some(size) => head.push(Stage::Scale { threads, width: size.width, height: size.height })
            + tail,
        None => head + tail,
    }
}

/// The audio chain for a source.
pub open spec fn audio_chain(source: String) -> Seq<Stage> {
    seq![
        Stage::Source(source),
        Stage::Queue,
        Stage::AudioConvert,
        Stage::LeakyQueue,
        Stage::AudioEncode,
        Stage::AudioPayload,
    ]
}

/// Whether a chain holds a resize stage.
pub open spec fn has_resize(stages: Seq<Stage>) -> bool {
    exists|i: int| 0 <= i < stages.len() && (#[trigger] stages[i]) is Scale
}

/// A video chain holds a resize stage exactly when a target size is configured.
pub proof fn lemma_resize_iff_configured(source: String, target: Option<Resolution>, threads: usize)
    ensures
        has_resize(video_chain(source, target, threads)) <==> target is Some,
{
    let chain = video_chain(source, target, threads);
    if target is Some {
        assert(chain[2] is Scale);
    } else {
        assert(chain.len() == 6);
        assert forall|i: int| 0 <= i < chain.len() implies !((#[trigger] chain[i]) is Scale) by {
            if i == 0 {
            } else if i == 1 {
            } else if i == 2 {
            } else if i == 3 {
            } else if i == 4 {
            } else {
            }
        }
    }
}

/// An audio chain never holds a resize stage.
pub proof fn lemma_audio_chain_has_no_resize(source: String)
    ensures
        !has_resize(audio_chain(source)),
{
    let chain = audio_chain(source);
    assert forall|i: int| 0 <= i < chain.len() implies !((#[trigger] chain[i]) is Scale) by {
        if i == 0 {
        } else if i == 1 {
        } else if i == 2 {
        } else if i == 3 {
        } else if i == 4 {
        } else {
        }
    }
}

/// Appends the launch text of `stage` to `out`.
fn push_stage_text(out: &mut String, stage: &Stage)
    ensures
        final(out)@ == old(out)@ + stage_text(*stage),
{
    match stage {
        Stage::Source(launch) => {
            out.append(launch.as_str());
        },
        Stage::Queue => {
            out.append("queue");
        },
        Stage::Scale { threads, width, height } => {
            out.append("videoscale n-threads=");
            push_decimal(out, *threads as u64);
            out.append(" ! video/x-raw,width=");
            push_decimal(out, *width as u64);
            out.append(",height=");
            push_decimal(out, *height as u64);
            assert(out@ =~= old(out)@ + stage_text(*stage));
        },
        Stage::VideoConvert => {
            out.append("videoconvert");
        },
        Stage::AudioConvert => {
            out.append("audioconvert ! audioresample");
        },
        Stage::LeakyQueue => {
            out.append("queue leaky=2");
        },
        Stage::VideoEncode { threads } => {
            out.append("x264enc threads=");
            push_decimal(out, *threads as u64);
            out.append(
                " tune=zerolatency speed-preset=2 bframes=0 ! video/x-h264,profile=high ! queue",
            );
            assert(out@ =~= old(out)@ + stage_text(*stage));
        },
        Stage::AudioEncode => {
            out.append("vorbisenc ! queue");
        },
        Stage::VideoPayload => {
            out.append("rtph264pay name=pay0 pt=96");
        },
        Stage::AudioPayload => {
            out.append("rtpvorbispay name=pay1 pt=97");
        },
    }
}

/// Appends the launch text of the chain `stages` to `out`.
fn push_chain_text(out: &mut String, stages: &Vec<Stage>)
    ensures
        final(out)@ == old(out)@ + chain_text(stages@),
{
    let mut i: usize = 0;
    assert(out@ =~= old(out)@ + chain_text(stages@.take(0)));
    while i < stages.len()
        invariant
            i <= stages@.len(),
            out@ == old(out)@ + chain_text(stages@.take(i as int)),
        decreases stages@.len() - i,
    {
        let ghost before = out@;
        if i == 0 {
            out.append(" ");
        } else {
            out.append(" ! ");
        }
        push_stage_text(out, &stages[i]);
        proof {
            let next = stages@.take(i + 1);
            assert(next.drop_last() =~= stages@.take(i as int));
            assert(next.last() == stages@[i as int]);
            assert(out@ =~= old(out)@ + chain_text(next));
        }
        i += 1;
    }
    assert(stages@.take(i as int) =~= stages@);
}

impl PipelineTopology {
    /// The launch text of this topology.
    pub fn launch_text(&self) -> (r: String)
        ensures
            r@ == topology_text(self.video@, self.audio@),
    {
        let mut out = String::from_str("( ");
        push_chain_text(&mut out, &self.video);
        push_chain_text(&mut out, &self.audio);
        out.append(" )");
        assert(out@ =~= topology_text(self.video@, self.audio@));
        out
    }

    /// Whether the video chain holds a resize stage.
    pub fn resizes(&self) -> (r: bool)
        ensures
            r == has_resize(self.video@),
    {
        let mut i: usize = 0;
        while i < self.video.len()
            invariant
                i <= self.video@.len(),
                forall|j: int| 0 <= j < i ==> !((#[trigger] self.video@[j]) is Scale),
            decreases self.video@.len() - i,
        {
            if let Stage::Scale { .. } = &self.video[i] {
                return true;
            }
            i += 1;
        }
        false
    }
}

/// Composes the topology of one session from its resolved sources, the
/// configuration and the number of threads that resizing and encoding may use.
pub fn compose(
    video: CaptureSourceDescriptor,
    audio: CaptureSourceDescriptor,
    config: &DesktopCastConfig,
    threads: usize,
) -> (r: PipelineTopology)
    ensures
        r.video@ == video_chain(video.launch, config.target_resolution, threads),
        r.audio@ == audio_chain(audio.launch),
        has_resize(r.video@) <==> config.target_resolution is Some,
{
    let mut video_stages: Vec<Stage> = Vec::new();
    video_stages.push(Stage::Source(video.launch));
    video_stages.push(Stage::Queue);
    if let Some(size) = &config.target_resolution {
        video_stages.push(Stage::Scale { threads, width: size.width, height: size.height });
    }
    video_stages.push(Stage::VideoConvert);
    video_stages.push(Stage::LeakyQueue);
    video_stages.push(Stage::VideoEncode { threads });
    video_stages.push(Stage::VideoPayload);
    let mut audio_stages: Vec<Stage> = Vec::new();
    audio_stages.push(Stage::Source(audio.launch));
    audio_stages.push(Stage::Queue);
    audio_stages.push(Stage::AudioConvert);
    audio_stages.push(Stage::LeakyQueue);
    audio_stages.push(Stage::AudioEncode);
    audio_stages.push(Stage::AudioPayload);
    proof {
        assert(video_stages@ =~= video_chain(video.launch, config.target_resolution, threads));
        assert(audio_stages@ =~= audio_chain(audio.launch));
        lemma_resize_iff_configured(video.launch, config.target_resolution, threads);
    }
    PipelineTopology { video: video_stages, audio: audio_stages }
}

/// The number of processors that this process may use, as `num_cpus::get`
/// reports it. The number depends on the machine; all that is claimed of it
/// is what that function documents: it is at least one.
#[verifier::external_body]
pub(crate) fn available_processors() -> (n: usize)
    ensures
        n >= 1,
{
    num_cpus::get()
}

} // verus!
