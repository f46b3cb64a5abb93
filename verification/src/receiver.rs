//! The session event dispatcher: takes each event of one voice session to the
//! component that it concerns, and says what is to be done with the output
//! graph in answer.

use vstd::prelude::*;
use crate::activity::{edge_between, state_after, ActivityDetector, ActivityEdge, ActivityState};
use crate::config::{has_usual_parameters, StreamConfig};
use crate::frame::le_bytes;
use crate::identity::{IdentityTracker, ParticipantIdentity};
use crate::mixer::{mix, mixed};
use crate::pipeline::{
    after_delivery, after_step, begun, pending_step, step_result, stopped, BuildStep,
    ConstructionError, DeliveryError, EndpointOutcome, PipelineSession, SessionModel,
    SessionState,
};
use crate::tick::{
    speaking_count, PacketInfo, SourceEntry, SourceId, SourceState, Tick, TickContribution,
};

verus! {

/// Something that the voice client tells about one session.
#[derive(Debug)]
pub enum SessionEvent {
    /// A source was announced, with the participant behind it where known.
    IdentityUpdate { source: SourceId, identity: Option<ParticipantIdentity> },
    /// One window of the conversation has closed.
    Tick(Tick),
    /// A raw voice packet went by.
    RawPacket(PacketInfo),
    /// The voice connection is gone.
    Disconnect,
    /// Anything else.
    Unrecognized,
}

/// What is known of one speaking source of a tick.
#[derive(Clone, Copy, Debug, PartialEq, Eq, Structural)]
pub struct SourceReport {
    pub source: SourceId,
    /// The participant behind the source, if the tracker knows one.
    pub identity: Option<ParticipantIdentity>,
    /// How many samples were decoded for the source; `None` when decoding is
    /// off for it.
    pub samples: Option<usize>,
    /// The packet that arrived for the source in this window, if one did.
    pub packet: Option<PacketInfo>,
}

/// What is known of one tick.
#[derive(Debug)]
pub struct TickReport {
    /// Sources that had any signal.
    pub speaking: usize,
    /// All sources, silent ones included.
    pub participants: usize,
    /// The speaking sources, in the tick's order.
    pub sources: Vec<SourceReport>,
}

/// What the caller is to do in answer to an event.
#[derive(Debug)]
pub enum Reaction {
    /// Nothing.
    Nothing,
    /// Nothing but to take note of the packet.
    Packet(PacketInfo),
    /// Hand `payload` to the live endpoint, then report its answer with
    /// `Receiver::delivered`.
    Deliver { edge: Option<ActivityEdge>, report: TickReport, payload: Vec<u8> },
    /// Take the output graph down. `cause` is the failure that led to it,
    /// or `None` when the voice connection ended.
    Teardown { cause: Option<DeliveryError> },
}

/// The report on one speaking source.
pub open spec fn report_of(
    source: SourceId,
    contribution: TickContribution,
    known: Map<SourceId, ParticipantIdentity>,
) -> SourceReport {
    SourceReport {
        source,
        identity: if known.dom().contains(source) {
            Some(known[source])
        } else {
            None
        },
        samples: match contribution.decoded {
            Some(pcm) => Some(pcm@.len() as usize),
            None => None,
        },
        packet: contribution.packet,
    }
}

/// The reports on the speaking sources of a tick, in the tick's order.
pub open spec fn source_reports(
    entries: Seq<SourceEntry>,
    known: Map<SourceId, ParticipantIdentity>,
) -> Seq<SourceReport>
    decreases entries.len(),
{
    if entries.len() == 0 {
        Seq::empty()
    } else {
        let earlier = source_reports(entries.drop_last(), known);
        match entries.last().state {
            SourceState::Speaking(contribution) => earlier.push(
                report_of(entries.last().id, contribution, known),
            ),
            SourceState::Silent => earlier,
        }
    }
}

/// Whether `report` is the report on a tick with entries `entries`, seen by
/// a tracker that knows `known`.
pub open spec fn reports_on(
    report: TickReport,
    entries: Seq<SourceEntry>,
    known: Map<SourceId, ParticipantIdentity>,
) -> bool {
    &&& report.speaking == speaking_count(entries)
    &&& report.participants == entries.len()
    &&& report.sources@ == source_reports(entries, known)
}

/// What the tracker knows after an identity update.
pub open spec fn known_after(
    known: Map<SourceId, ParticipantIdentity>,
    source: SourceId,
    identity: Option<ParticipantIdentity>,
) -> Map<SourceId, ParticipantIdentity> {
    match identity {
        Some(participant) => known.insert(source, participant),
        None => known,
    }
}

/// Everything that one voice session keeps between events.
pub struct Receiver {
    config: StreamConfig,
    identities: IdentityTracker,
    activity: ActivityDetector,
    pipeline: PipelineSession,
}

impl Receiver {
    /// The parameters that the session was created with.
    pub closed spec fn settings(&self) -> StreamConfig {
        self.config
    }

    /// Which participant is known for which source.
    pub closed spec fn known(&self) -> Map<SourceId, ParticipantIdentity> {
        self.identities@
    }

    /// Whether the last tick was active.
    pub closed spec fn activity(&self) -> ActivityState {
        self.activity@
    }

    /// Where the output graph stands.
    pub closed spec fn session(&self) -> SessionModel {
        self.pipeline@
    }

    /// Whether two receivers differ in nothing but the output graph's state.
    pub open spec fn same_but_session(&self, other: &Receiver) -> bool {
        &&& self.settings() == other.settings()
        &&& self.known() == other.known()
        &&& self.activity() == other.activity()
    }

    /// Whether two receivers are in the same state.
    pub open spec fn same_as(&self, other: &Receiver) -> bool {
        &&& self.same_but_session(other)
        &&& self.session() == other.session()
    }

    /// A session that publishes at `url` with the usual parameters. Nothing
    /// of its graph is built yet, nobody is known, and nobody has spoken.
    pub fn new(url: &str) -> (receiver: Receiver)
        ensures
            receiver.settings().destination@ == url@,
            has_usual_parameters(receiver.settings()),
            receiver.known() == Map::<SourceId, ParticipantIdentity>::empty(),
            receiver.activity() == ActivityState::Silent,
            receiver.session() == begun(),
    {
        Receiver::with_config(StreamConfig::new(url))
    }

    /// A session with parameters of the caller's choice.
    pub fn with_config(config: StreamConfig) -> (receiver: Receiver)
        ensures
            receiver.settings() == config,
            receiver.known() == Map::<SourceId, ParticipantIdentity>::empty(),
            receiver.activity() == ActivityState::Silent,
            receiver.session() == begun(),
    {
        Receiver {
            config,
            identities: IdentityTracker::new(),
            activity: ActivityDetector::new(),
            pipeline: PipelineSession::new(),
        }
    }

    /// The parameters that the session was created with.
    pub fn config(&self) -> (config: &StreamConfig)
        ensures
            *config == self.settings(),
    {
        &self.config
    }

    /// Where the output graph stands.
    pub fn state(&self) -> (state: SessionState)
        ensures
            state == self.session().state,
    {
        self.pipeline.state()
    }

    /// The participant last announced for `source`, if any was.
    pub fn lookup(&self, source: SourceId) -> (found: Option<ParticipantIdentity>)
        ensures
            found == if self.known().dom().contains(source) {
                Some(self.known()[source])
            } else {
                None
            },
    {
        self.identities.lookup(source)
    }

    /// The build step to perform next on the output graph; `None` once the
    /// graph runs or the session has stopped.
    pub fn next_step(&self) -> (step: Option<BuildStep>)
        ensures
            step == pending_step(self.session()),
    {
        self.pipeline.next_step()
    }

    /// Takes in the outcome of the pending build step. A failure stops the
    /// session for good and is answered with the error of the step.
    pub fn step_done(&mut self, succeeded: bool) -> (result: Result<
        SessionState,
        ConstructionError,
    >)
        ensures
            final(self).session() == after_step(old(self).session(), succeeded),
            result == step_result(old(self).session(), succeeded),
            final(self).same_but_session(old(self)),
    {
        self.pipeline.step_done(succeeded)
    }

    /// Takes in what the live endpoint did with the payload of the last
    /// `Deliver`. A refusal or a timeout stops a running session, and the
    /// answer is to take the graph down; any other case asks for nothing.
    pub fn delivered(&mut self, outcome: EndpointOutcome) -> (reaction: Reaction)
        ensures
            final(self).session() == after_delivery(old(self).session(), outcome),
            final(self).same_but_session(old(self)),
            match reaction {
                Reaction::Nothing => old(self).session().state != SessionState::Running || outcome
                    == EndpointOutcome::Accepted,
                Reaction::Teardown { cause } => {
                    &&& old(self).session().state == SessionState::Running
                    &&& cause == match outcome {
                        EndpointOutcome::Accepted => None::<DeliveryError>,
                        EndpointOutcome::Rejected => Some(DeliveryError::Rejected),
                        EndpointOutcome::TimedOut => Some(DeliveryError::TimedOut),
                    }
                    &&& outcome != EndpointOutcome::Accepted
                },
                _ => false,
            },
    {
        match self.pipeline.delivered(outcome) {
            Ok(()) => Reaction::Nothing,
            Err(DeliveryError::NotRunning) => Reaction::Nothing,
            Err(cause) => Reaction::Teardown { cause: Some(cause) },
        }
    }

    /// The report on a tick, with the identities known at this moment.
    pub fn describe(&self, tick: &Tick) -> (report: TickReport)
        ensures
            reports_on(report, tick@, self.known()),
    {
        let entries = tick.entries();
        let mut sources: Vec<SourceReport> = Vec::new();
        let mut k: usize = 0;
        while k < entries.len()
            invariant
                k <= entries@.len(),
                sources@ == source_reports(entries@.take(k as int), self.known()),
            decreases entries@.len() - k,
        {
            assert(entries@.take(k + 1).drop_last() =~= entries@.take(k as int));
            assert(entries@.take(k + 1).last() == entries@[k as int]);
            let entry = &entries[k];
            match &entry.state {
                SourceState::Speaking(contribution) => {
                    let samples: Option<usize> = match &contribution.decoded {
                        Some(pcm) => Some(pcm.len()),
                        None => None,
                    };
                    sources.push(
                        SourceReport {
                            source: entry.id,
                            identity: self.identities.lookup(entry.id),
                            samples,
                            packet: contribution.packet,
                        },
                    );
                },
                SourceState::Silent => {},
            }
            k = k + 1;
        }
        assert(entries@.take(k as int) =~= entries@);
        TickReport { speaking: tick.speaking(), participants: tick.participants(), sources }
    }

    /// Takes in one event of the session and answers what is to be done.
    ///
    /// Once the session has stopped, every event is ignored. Before that:
    /// - an identity update that names a participant is recorded, last write
    ///   winning, and asks for nothing;
    /// - a tick on a running session is summed up, held against the activity
    ///   state, mixed, and answered with the frame to deliver; a tick on a
    ///   session whose graph does not run yet stops the session, and the
    ///   answer is to take the graph down;
    /// - a raw packet is passed through for the record;
    /// - a disconnect stops the session, and the answer is to take the graph
    ///   down;
    /// - anything else is ignored.
    pub fn act(&mut self, event: &SessionEvent) -> (reaction: Reaction)
        ensures
            final(self).settings() == old(self).settings(),
            old(self).session().state == SessionState::Stopped ==> {
                &&& reaction is Nothing
                &&& final(self).same_as(old(self))
            },
            old(self).session().state != SessionState::Stopped ==> match *event {
                SessionEvent::IdentityUpdate { source, identity } => {
                    &&& reaction is Nothing
                    &&& final(self).known() == known_after(old(self).known(), source, identity)
                    &&& final(self).activity() == old(self).activity()
                    &&& final(self).session() == old(self).session()
                },
                SessionEvent::Tick(tick) => if old(self).session().state == SessionState::Running {
                    &&& reaction matches Reaction::Deliver { edge, report, payload }
                    &&& edge == edge_between(old(self).activity(), speaking_count(tick@) > 0)
                    &&& reports_on(report, tick@, old(self).known())
                    &&& payload@ == le_bytes(mixed(tick@))
                    &&& final(self).activity() == state_after(speaking_count(tick@) > 0)
                    &&& final(self).known() == old(self).known()
                    &&& final(self).session() == old(self).session()
                } else {
                    &&& reaction matches Reaction::Teardown { cause }
                    &&& cause == Some(DeliveryError::NotRunning)
                    &&& final(self).session() == stopped(old(self).session())
                    &&& final(self).same_but_session(old(self))
                },
                SessionEvent::RawPacket(info) => {
                    &&& reaction matches Reaction::Packet(noted)
                    &&& noted == info
                    &&& final(self).same_as(old(self))
                },
                SessionEvent::Disconnect => {
                    &&& reaction matches Reaction::Teardown { cause }
                    &&& cause is None
                    &&& final(self).session() == stopped(old(self).session())
                    &&& final(self).same_but_session(old(self))
                },
                SessionEvent::Unrecognized => {
                    &&& reaction is Nothing
                    &&& final(self).same_as(old(self))
                },
            },
    {
        match self.pipeline.state() {
            SessionState::Stopped => {
                return Reaction::Nothing;
            },
            _ => {},
        }
        match event {
            SessionEvent::IdentityUpdate { source, identity } => {
                match identity {
                    Some(participant) => {
                        self.identities.observe(*source, *participant);
                    },
                    None => {},
                }
                Reaction::Nothing
            },
            SessionEvent::Tick(tick) => {
                let frame = mix(tick);
                match self.pipeline.push(&frame) {
                    Ok(payload) => {
                        let report = self.describe(tick);
                        let edge = self.activity.observe(tick.is_active());
                        Reaction::Deliver { edge, report, payload }
                    },
                    Err(cause) => {
                        let _ = self.pipeline.stop();
                        Reaction::Teardown { cause: Some(cause) }
                    },
                }
            },
            SessionEvent::RawPacket(info) => Reaction::Packet(*info),
            SessionEvent::Disconnect => {
                let _ = self.pipeline.stop();
                Reaction::Teardown { cause: None }
            },
            SessionEvent::Unrecognized => Reaction::Nothing,
        }
    }
}

/// A session asks for its graph to be taken down at most once: the answer to
/// an event is `Teardown` only on a session that has not stopped, and it
/// leaves the session stopped, after which every event is answered with
/// nothing.
pub proof fn lemma_stopped_session_stays_stopped(session: SessionModel, outcome: EndpointOutcome)
    requires
        session.state == SessionState::Stopped,
    ensures
        stopped(session) == session,
        after_delivery(session, outcome) == session,
        after_step(session, true) == session,
        after_step(session, false) == session,
        pending_step(session) is None,
{
}

} // verus!
