//! The timestamp corrector: a pass-through filter that stamps every buffer
//! with the pipeline's running time and hands events and queries across
//! untouched.

use vstd::prelude::*;
use vstd::string::*;

verus! {

/// One side of the filter.
#[derive(Clone, Copy, Debug, PartialEq, Eq, Structural)]
pub enum PadSide {
    Sink,
    Src,
}

/// How far the filter has come in its life.
#[derive(Clone, Copy, Debug, PartialEq, Eq, Structural)]
pub enum ElementState {
    /// No pad is attached yet.
    Idle,
    /// Both pads are attached; no buffer has passed.
    Linked,
    /// At least one buffer has passed.
    Flowing,
}

/// Why a call into the filter gave nothing.
#[derive(Clone, Copy, Debug, PartialEq, Eq, Structural)]
pub enum FlowError {
    /// The filter has no pads yet.
    NotLinked,
    /// The filter failed, now or earlier, and takes no more work.
    Error,
}

/// The times that a buffer carries, in nanoseconds.
#[derive(Clone, Copy, Debug, PartialEq, Eq, Structural)]
pub struct BufferTimes {
    pub pts: Option<u64>,
    pub dts: Option<u64>,
    pub duration: Option<u64>,
}

/// Something handed across the filter, with the side it leaves on.
pub struct Routed<T> {
    pub to: PadSide,
    pub item: T,
}

/// How the filter presents itself to the pipeline engine.
#[derive(Clone, Debug)]
pub struct ElementMetadata {
    pub long_name: String,
    pub classification: String,
    pub description: String,
    pub author: String,
}

/// One pad that every instance of the filter has. It takes any format.
#[derive(Clone, Debug)]
pub struct PadTemplate {
    pub name: String,
    pub direction: PadSide,
}

/// Whether `templates` holds the filter's two pads: the source pad, then the sink pad.
pub open spec fn is_pad_pair(templates: Seq<PadTemplate>) -> bool {
    &&& templates.len() == 2
    &&& templates[0].name@ == "src"@
    &&& templates[0].direction == PadSide::Src
    &&& templates[1].name@ == "sink"@
    &&& templates[1].direction == PadSide::Sink
}

/// The side across from `side`.
pub open spec fn opposite(side: PadSide) -> PadSide {
    match side {
        PadSide::Sink => PadSide::Src,
        PadSide::Src => PadSide::Sink,
    }
}

/// `buffer` with both of its timestamps set to `running_time`.
pub open spec fn stamped(buffer: BufferTimes, running_time: u64) -> BufferTimes {
    BufferTimes { pts: Some(running_time), dts: Some(running_time), duration: buffer.duration }
}

/// The result of a buffer that did not pass.
pub open spec fn chain_failure(e: FlowError) -> Result<BufferTimes, FlowError> {
    Err(e)
}

/// The filter's own state.
pub struct Retimestamp {
    pub state: ElementState,
    pub poisoned: bool,
}

impl Retimestamp {
    /// A filter without pads.
    pub fn new() -> (r: Self)
        ensures
            r.state == ElementState::Idle,
            !r.poisoned,
    {
        Retimestamp { state: ElementState::Idle, poisoned: false }
    }

    /// The name under which the filter is registered and named in a launch text.
    pub fn element_name() -> (r: String)
        ensures
            r@ == "retimestamp"@,
    {
        String::from_str("retimestamp")
    }

    /// How the filter presents itself.
    pub fn metadata() -> (r: ElementMetadata)
        ensures
            r.long_name@ == "Retimestamp"@,
            r.classification@ == "Generic"@,
            r.description@
                == "Retimestamps all buffers flowing through the element with the pipelines monotonic running_time"@,
            r.author@ == "Markus Ebner <hiwatari.seiji@gmail.com>"@,
    {
        ElementMetadata {
            long_name: String::from_str("Retimestamp"),
            classification: String::from_str("Generic"),
            description: String::from_str(
                "Retimestamps all buffers flowing through the element with the pipelines monotonic running_time",
            ),
            author: String::from_str("Markus Ebner <hiwatari.seiji@gmail.com>"),
        }
    }

    /// The filter's pads: one source pad and one sink pad, both always present.
    pub fn pad_templates() -> (r: Vec<PadTemplate>)
        ensures
            is_pad_pair(r@),
    {
        let mut templates: Vec<PadTemplate> = Vec::new();
        templates.push(PadTemplate { name: String::from_str("src"), direction: PadSide::Src });
        templates.push(PadTemplate { name: String::from_str("sink"), direction: PadSide::Sink });
        templates
    }

    /// Records that a call into the filter was cut short. The filter is
    /// poisoned from then on.
    pub fn on_panic(&mut self)
        ensures
            final(self).poisoned,
            final(self).state == old(self).state,
    {
        self.poisoned = true;
    }

    /// Records that both pads were attached. A filter that is already linked
    /// or flowing stays as it is.
    pub fn constructed(&mut self)
        ensures
            final(self).poisoned == old(self).poisoned,
            old(self).state == ElementState::Idle ==> final(self).state == ElementState::Linked,
            old(self).state != ElementState::Idle ==> final(self).state == old(self).state,
    {
        if self.state == ElementState::Idle {
            self.state = ElementState::Linked;
        }
    }

    /// Takes one buffer on the sink side. With the pipeline's running time at
    /// hand the buffer leaves with both timestamps set to it and is otherwise
    /// unchanged. Without a running time the buffer is lost and the filter is
    /// poisoned; a poisoned filter fails every buffer.
    pub fn sink_chain(&mut self, buffer: BufferTimes, running_time: Option<u64>) -> (r: Result<
        BufferTimes,
        FlowError,
    >)
        ensures
            old(self).poisoned ==> r == chain_failure(FlowError::Error) && *final(self) == *old(self),
            !old(self).poisoned && old(self).state == ElementState::Idle ==> r == chain_failure(
                FlowError::NotLinked,
            ) && *final(self) == *old(self),
            !old(self).poisoned && old(self).state != ElementState::Idle && running_time is None
                ==> r == chain_failure(FlowError::Error) && final(self).poisoned && final(self).state == old(self).state,
            !old(self).poisoned && old(self).state != ElementState::Idle && running_time is Some
                ==> r == Ok::<BufferTimes, FlowError>(stamped(buffer, running_time->0))
                && !final(self).poisoned && final(self).state == ElementState::Flowing,
    {
        if self.poisoned {
            return Err(FlowError::Error);
        }
        if self.state == ElementState::Idle {
            return Err(FlowError::NotLinked);
        }
        match running_time {
            Some(now) => {
                self.state = ElementState::Flowing;
                Ok(BufferTimes { pts: Some(now), dts: Some(now), duration: buffer.duration })
            },
            None => {
                self.poisoned = true;
                Err(FlowError::Error)
            },
        }
    }

    /// Hands `item`, which arrived on `from`, to the opposite side as it is.
    /// A poisoned filter hands nothing on.
    pub fn route<T>(&self, from: PadSide, item: T) -> (r: Option<Routed<T>>)
        ensures
            self.poisoned <==> r is None,
            r is Some ==> r->0.to == opposite(from) && r->0.item == item,
    {
        if self.poisoned {
            None
        } else {
            let to = match from {
                PadSide::Sink => PadSide::Src,
                PadSide::Src => PadSide::Sink,
            };
            Some(Routed { to, item })
        }
    }

    /// Hands an event that arrived on the sink side to the source side.
    pub fn sink_event<E>(&self, event: E) -> (r: Option<Routed<E>>)
        ensures
            self.poisoned <==> r is None,
            r is Some ==> r->0.to == PadSide::Src && r->0.item == event,
    {
        self.route(PadSide::Sink, event)
    }

    /// Hands a query that arrived on the sink side to the source side.
    pub fn sink_query<Q>(&self, query: Q) -> (r: Option<Routed<Q>>)
        ensures
            self.poisoned <==> r is None,
            r is Some ==> r->0.to == PadSide::Src && r->0.item == query,
    {
        self.route(PadSide::Sink, query)
    }

    /// Hands an event that arrived on the source side to the sink side.
    pub fn src_event<E>(&self, event: E) -> (r: Option<Routed<E>>)
        ensures
            self.poisoned <==> r is None,
            r is Some ==> r->0.to == PadSide::Sink && r->0.item == event,
    {
        self.route(PadSide::Src, event)
    }

    /// Hands a query that arrived on the source side to the sink side.
    pub fn src_query<Q>(&self, query: Q) -> (r: Option<Routed<Q>>)
        ensures
            self.poisoned <==> r is None,
            r is Some ==> r->0.to == PadSide::Sink && r->0.item == query,
    {
        self.route(PadSide::Src, query)
    }
}

/// A stamped buffer carries the running time in both timestamps, and keeps
/// what else it carried.
pub proof fn lemma_stamp_is_running_time(buffer: BufferTimes, running_time: u64)
    ensures
        stamped(buffer, running_time).pts == Some(running_time),
        stamped(buffer, running_time).dts == stamped(buffer, running_time).pts,
        stamped(buffer, running_time).duration == buffer.duration,
{
}

/// Buffers stamped at running times that do not decrease carry timestamps
/// that do not decrease, whatever they carried before.
pub proof fn lemma_stamps_do_not_decrease(
    first: BufferTimes,
    first_time: u64,
    second: BufferTimes,
    second_time: u64,
)
    requires
        first_time <= second_time,
    ensures
        stamped(first, first_time).pts->0 <= stamped(second, second_time).pts->0,
        stamped(first, first_time).dts->0 <= stamped(second, second_time).dts->0,
{
}

/// What crosses the filter twice is back on the side it came from.
pub proof fn lemma_opposite_twice(side: PadSide)
    ensures
        opposite(opposite(side)) == side,
        opposite(side) != side,
{
}

} // verus!
