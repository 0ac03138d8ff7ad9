//! The streaming session: what is mounted at start, and how the events of a
//! running session decide when the control loop ends.

use vstd::prelude::*;
use vstd::string::*;
use crate::config::DesktopCastConfig;
use crate::pipeline::{compose, topology_text, video_chain, audio_chain, available_processors};
use crate::source::{CaptureSourceDescriptor, ResolveError};

verus! {

/// How far a session has come.
#[derive(Clone, Copy, Debug, PartialEq, Eq, Structural)]
pub enum SessionPhase {
    /// Nothing is mounted yet.
    Created,
    /// The pipeline is mounted and clients may connect.
    Serving,
    /// The control loop was told to end.
    Terminated,
}

/// What a running session reports to its owner.
#[derive(Clone, Copy, Debug, PartialEq, Eq, Structural)]
pub enum SessionEvent {
    /// A client connected.
    ClientConnected,
    /// A client closed its connection.
    ClientClosed,
    /// The pipeline reported a fatal error on its bus.
    PipelineError,
    /// The pipeline reported anything else on its bus.
    PipelineMessage,
}

/// What the owner does with the control loop after an event.
#[derive(Clone, Copy, Debug, PartialEq, Eq, Structural)]
pub enum LoopAction {
    Continue,
    Quit,
}

/// Which disconnect ends the session.
#[derive(Clone, Copy, Debug, PartialEq, Eq, Structural)]
pub enum DisconnectPolicy {
    /// Any client that closes its connection ends the session.
    EndOnAnyDisconnect,
    /// The session ends when the last connected client closes its connection.
    EndOnLastDisconnect,
}

/// Why a session did not start.
#[derive(Clone, Copy, Debug, PartialEq, Eq, Structural)]
pub enum StartError {
    /// The server gave no place to mount the pipeline.
    Configuration,
    /// No capture source could be resolved.
    Resolution(ResolveError),
}

/// How the pipeline is mounted.
#[derive(Clone, Copy, Debug, PartialEq, Eq, Structural)]
pub struct MountSettings {
    /// Whether several clients share one pipeline.
    pub shared: bool,
    /// Startup buffering, in milliseconds.
    pub latency_ms: u32,
    /// How long sent packets are kept for retransmission, in milliseconds.
    pub retransmission_ms: u64,
    /// Whether the pipeline is torn down when its client disconnects.
    pub stop_on_disconnect: bool,
}

/// What `start` asks the server to mount.
#[derive(Clone, Debug)]
pub struct MountPlan {
    /// The path under which the stream is served.
    pub path: String,
    pub launch: String,
    pub settings: MountSettings,
}

/// The settings of every mount: single-use, buffered, and torn down on disconnect.
pub open spec fn session_mount_settings() -> MountSettings {
    MountSettings {
        shared: false,
        latency_ms: 1500,
        retransmission_ms: 2500,
        stop_on_disconnect: true,
    }
}

/// The state of one streaming session.
#[derive(Clone, Copy, Debug, PartialEq, Eq, Structural)]
pub struct StreamServer {
    pub phase: SessionPhase,
    /// How many clients are connected.
    pub clients: usize,
    /// How many connections the server lets wait.
    pub backlog: u32,
    pub policy: DisconnectPolicy,
}

/// Whether `event` ends the control loop of a session that is still going on:
/// a fatal pipeline error always does, a closed connection as the policy says.
pub open spec fn ends_session(server: StreamServer, event: SessionEvent) -> bool {
    ||| event is PipelineError
    ||| event is ClientClosed && (server.policy == DisconnectPolicy::EndOnAnyDisconnect
        || server.clients <= 1)
}

/// The session after `event`. A terminated session stays as it is.
pub open spec fn after_event(server: StreamServer, event: SessionEvent) -> StreamServer {
    if server.phase == SessionPhase::Terminated {
        server
    } else {
        let phase = if ends_session(server, event) {
            SessionPhase::Terminated
        } else {
            server.phase
        };
        match event {
            SessionEvent::ClientConnected => StreamServer {
                clients: if server.clients < usize::MAX {
                    (server.clients + 1) as usize
                } else {
                    server.clients
                },
                ..server
            },
            SessionEvent::ClientClosed => StreamServer {
                phase,
                clients: if server.clients > 0 {
                    (server.clients - 1) as usize
                } else {
                    server.clients
                },
                ..server
            },
            SessionEvent::PipelineError => StreamServer { phase, ..server },
            SessionEvent::PipelineMessage => server,
        }
    }
}

/// The session after the events of `events`, in order.
pub open spec fn after_events(server: StreamServer, events: Seq<SessionEvent>) -> StreamServer
    decreases events.len(),
{
    if events.len() == 0 {
        server
    } else {
        after_event(after_events(server, events.drop_last()), events.last())
    }
}

/// What `run` saw.
#[derive(Clone, Copy, Debug, PartialEq, Eq, Structural)]
pub struct RunReport {
    /// How many events were taken.
    pub consumed: usize,
    /// Whether the control loop ended.
    pub terminated: bool,
}

impl StreamServer {
    /// A session with nothing mounted, no client, and room for one waiting
    /// connection, that ends on any disconnect.
    pub fn new() -> (r: Self)
        ensures
            r == (StreamServer {
                phase: SessionPhase::Created,
                clients: 0,
                backlog: 1,
                policy: DisconnectPolicy::EndOnAnyDisconnect,
            }),
    {
        StreamServer {
            phase: SessionPhase::Created,
            clients: 0,
            backlog: 1,
            policy: DisconnectPolicy::EndOnAnyDisconnect,
        }
    }

    /// A session as `new` gives it, under the chosen disconnect policy.
    pub fn with_policy(policy: DisconnectPolicy) -> (r: Self)
        ensures
            r == (StreamServer { phase: SessionPhase::Created, clients: 0, backlog: 1, policy }),
    {
        StreamServer { phase: SessionPhase::Created, clients: 0, backlog: 1, policy }
    }

    /// Starts the session from its resolved sources: composes the pipeline and
    /// says how to mount it. `mounts_available` is whether the server gave a
    /// place to mount; `audio` is the outcome of the audio resolution. A
    /// failure leaves the session as it was.
    pub fn start(
        &mut self,
        config: &DesktopCastConfig,
        mounts_available: bool,
        video: CaptureSourceDescriptor,
        audio: Result<CaptureSourceDescriptor, ResolveError>,
        threads: usize,
    ) -> (r: Result<MountPlan, StartError>)
        ensures
            !mounts_available ==> r is Err && r->Err_0 == StartError::Configuration,
            mounts_available && audio is Err ==> r is Err && r->Err_0 == StartError::Resolution(
                audio->Err_0,
            ),
            r is Ok <==> mounts_available && audio is Ok,
            r is Err ==> *final(self) == *old(self),
            r is Ok ==> *final(self) == (StreamServer {
                phase: SessionPhase::Serving,
                ..*old(self)
            }),
            r is Ok ==> r->Ok_0.path@ == "/"@ && r->Ok_0.settings == session_mount_settings()
                && r->Ok_0.launch@ == topology_text(
                video_chain(video.launch, config.target_resolution, threads),
                audio_chain(audio->Ok_0.launch),
            ),
    {
        if !mounts_available {
            return Err(StartError::Configuration);
        }
        match audio {
            Err(e) => Err(StartError::Resolution(e)),
            Ok(audio_source) => {
                let topology = compose(video, audio_source, config, threads);
                let launch = topology.launch_text();
                self.phase = SessionPhase::Serving;
                Ok(
                    MountPlan {
                        path: String::from_str("/"),
                        launch,
                        settings: MountSettings {
                            shared: false,
                            latency_ms: 1500,
                            retransmission_ms: 2500,
                            stop_on_disconnect: true,
                        },
                    },
                )
            },
        }
    }

    /// Starts the session as `start` does, with as many threads as this
    /// machine offers processors.
    pub fn start_on_host(
        &mut self,
        config: &DesktopCastConfig,
        mounts_available: bool,
        video: CaptureSourceDescriptor,
        audio: Result<CaptureSourceDescriptor, ResolveError>,
    ) -> (r: Result<MountPlan, StartError>)
        ensures
            !mounts_available ==> r is Err && r->Err_0 == StartError::Configuration,
            mounts_available && audio is Err ==> r is Err && r->Err_0 == StartError::Resolution(
                audio->Err_0,
            ),
            r is Ok <==> mounts_available && audio is Ok,
            r is Err ==> *final(self) == *old(self),
            r is Ok ==> *final(self) == (StreamServer {
                phase: SessionPhase::Serving,
                ..*old(self)
            }),
            r is Ok ==> r->Ok_0.path@ == "/"@ && r->Ok_0.settings == session_mount_settings()
                && exists|threads: usize|
                threads >= 1 && r->Ok_0.launch@ == topology_text(
                    #[trigger] video_chain(video.launch, config.target_resolution, threads),
                    audio_chain(audio->Ok_0.launch),
                ),
    {
        let threads = available_processors();
        self.start(config, mounts_available, video, audio, threads)
    }

    /// Takes one event of the running session and says whether the control
    /// loop goes on. A fatal pipeline error ends it, and a closed connection
    /// as the policy says; once ended, every further event ends it again and
    /// changes nothing.
    pub fn on_event(&mut self, event: SessionEvent) -> (action: LoopAction)
        ensures
            *final(self) == after_event(*old(self), event),
            action == LoopAction::Quit <==> final(self).phase == SessionPhase::Terminated,
            action == LoopAction::Quit <==> old(self).phase == SessionPhase::Terminated
                || ends_session(*old(self), event),
    {
        if self.phase == SessionPhase::Terminated {
            return LoopAction::Quit;
        }
        match event {
            SessionEvent::ClientConnected => {
                if self.clients < usize::MAX {
                    self.clients = self.clients + 1;
                }
                LoopAction::Continue
            },
            SessionEvent::ClientClosed => {
                let ends = match self.policy {
                    DisconnectPolicy::EndOnAnyDisconnect => true,
                    DisconnectPolicy::EndOnLastDisconnect => self.clients <= 1,
                };
                if self.clients > 0 {
                    self.clients = self.clients - 1;
                }
                if ends {
                    self.phase = SessionPhase::Terminated;
                    LoopAction::Quit
                } else {
                    LoopAction::Continue
                }
            },
            SessionEvent::PipelineError => {
                self.phase = SessionPhase::Terminated;
                LoopAction::Quit
            },
            SessionEvent::PipelineMessage => LoopAction::Continue,
        }
    }

    /// Runs the control loop over `events` until one of them ends it, and
    /// says how many were taken: as few as end the session, or all of them
    /// where none does. A session that was already terminated takes none.
    pub fn run(&mut self, events: &Vec<SessionEvent>) -> (r: RunReport)
        ensures
            r.consumed <= events@.len(),
            *final(self) == after_events(*old(self), events@.take(r.consumed as int)),
            r.terminated <==> final(self).phase == SessionPhase::Terminated,
            !r.terminated ==> r.consumed == events@.len(),
            forall|j: int|
                0 <= j < r.consumed ==> after_events(*old(self), #[trigger] events@.take(j)).phase
                    != SessionPhase::Terminated,
    {
        assert(events@.take(0) =~= Seq::<SessionEvent>::empty());
        if self.phase == SessionPhase::Terminated {
            return RunReport { consumed: 0, terminated: true };
        }
        let mut i: usize = 0;
        while i < events.len()
            invariant
                i <= events@.len(),
                self.phase != SessionPhase::Terminated,
                *self == after_events(*old(self), events@.take(i as int)),
                forall|j: int|
                    0 <= j <= i ==> after_events(*old(self), #[trigger] events@.take(j)).phase
                        != SessionPhase::Terminated,
            decreases events@.len() - i,
        {
            let action = self.on_event(events[i]);
            proof {
                let next = events@.take(i + 1);
                assert(next.drop_last() =~= events@.take(i as int));
                assert(next.last() == events@[i as int]);
            }
            i += 1;
            if action == LoopAction::Quit {
                return RunReport { consumed: i, terminated: true };
            }
        }
        RunReport { consumed: i, terminated: false }
    }
}

/// Ending the control loop is idempotent: a terminated session is changed by no event.
pub proof fn lemma_termination_is_idempotent(server: StreamServer, events: Seq<SessionEvent>)
    requires
        server.phase == SessionPhase::Terminated,
    ensures
        after_events(server, events) == server,
    decreases events.len(),
{
    if events.len() > 0 {
        lemma_termination_is_idempotent(server, events.drop_last());
    }
}

/// An ending event terminates the session, whatever came before.
pub proof fn lemma_ending_event_terminates(server: StreamServer, event: SessionEvent)
    requires
        ends_session(server, event),
    ensures
        after_event(server, event).phase == SessionPhase::Terminated,
{
}

/// Where any disconnect ends the session, a closed connection terminates it
/// however many clients are connected; so does a fatal pipeline error under
/// either policy.
pub proof fn lemma_any_disconnect_terminates(server: StreamServer)
    requires
        server.policy == DisconnectPolicy::EndOnAnyDisconnect,
    ensures
        after_event(server, SessionEvent::ClientClosed).phase == SessionPhase::Terminated,
        after_event(server, SessionEvent::PipelineError).phase == SessionPhase::Terminated,
{
}

/// Neither a new connection nor an ordinary pipeline message ends a session.
pub proof fn lemma_other_events_do_not_end(server: StreamServer, event: SessionEvent)
    requires
        event is ClientConnected || event is PipelineMessage,
    ensures
        after_event(server, event).phase == server.phase,
{
}

} // verus!
