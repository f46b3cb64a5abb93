//! The pipeline session: the fixed shape of the output graph, the order in
//! which it is put together, and the lifecycle of one running graph.
//!
//! The media engine itself is not part of this library. The session decides
//! what is to be done next and what follows from each outcome; its caller
//! performs the step on the engine and reports back.

use vstd::prelude::*;
use crate::frame::{le_bytes, MixedFrame};

verus! {

/// The stages of the output graph, in the order in which they are created.
///
/// A synthetic video branch and a live audio branch meet in the muxer, which
/// feeds the network sink.
#[derive(Clone, Copy, Debug, PartialEq, Eq, Structural, Hash)]
pub enum Stage {
    VideoSource,
    VideoConvert,
    ClockOverlay,
    VideoRate,
    VideoEncoder,
    VideoQueue,
    AudioInput,
    AudioRate,
    AudioConvert,
    AudioResample,
    AudioEncoder,
    Muxer,
    NetworkSink,
}

/// How many stages the graph has.
pub const STAGE_COUNT: usize = 13;

/// How many links the graph has: one out of every stage but the sink.
pub const LINK_COUNT: usize = 12;

/// How many steps it takes to bring the graph up: every stage, every link,
/// and the switch to running.
pub const BUILD_STEPS: usize = 26;

/// The stage at a position of the creation order.
pub open spec fn stage_at(position: int) -> Stage {
    if position <= 0 {
        Stage::VideoSource
    } else if position == 1 {
        Stage::VideoConvert
    } else if position == 2 {
        Stage::ClockOverlay
    } else if position == 3 {
        Stage::VideoRate
    } else if position == 4 {
        Stage::VideoEncoder
    } else if position == 5 {
        Stage::VideoQueue
    } else if position == 6 {
        Stage::AudioInput
    } else if position == 7 {
        Stage::AudioRate
    } else if position == 8 {
        Stage::AudioConvert
    } else if position == 9 {
        Stage::AudioResample
    } else if position == 10 {
        Stage::AudioEncoder
    } else if position == 11 {
        Stage::Muxer
    } else {
        Stage::NetworkSink
    }
}

/// The position of a stage in the creation order.
pub open spec fn position_of(stage: Stage) -> int {
    match stage {
        Stage::VideoSource => 0,
        Stage::VideoConvert => 1,
        Stage::ClockOverlay => 2,
        Stage::VideoRate => 3,
        Stage::VideoEncoder => 4,
        Stage::VideoQueue => 5,
        Stage::AudioInput => 6,
        Stage::AudioRate => 7,
        Stage::AudioConvert => 8,
        Stage::AudioResample => 9,
        Stage::AudioEncoder => 10,
        Stage::Muxer => 11,
        Stage::NetworkSink => 12,
    }
}

/// The stage that a stage feeds; the sink feeds nothing.
pub open spec fn downstream_of(stage: Stage) -> Option<Stage> {
    match stage {
        Stage::VideoSource => Some(Stage::VideoConvert),
        Stage::VideoConvert => Some(Stage::ClockOverlay),
        Stage::ClockOverlay => Some(Stage::VideoRate),
        Stage::VideoRate => Some(Stage::VideoEncoder),
        Stage::VideoEncoder => Some(Stage::VideoQueue),
        Stage::VideoQueue => Some(Stage::Muxer),
        Stage::AudioInput => Some(Stage::AudioRate),
        Stage::AudioRate => Some(Stage::AudioConvert),
        Stage::AudioConvert => Some(Stage::AudioResample),
        Stage::AudioResample => Some(Stage::AudioEncoder),
        Stage::AudioEncoder => Some(Stage::Muxer),
        Stage::Muxer => Some(Stage::NetworkSink),
        Stage::NetworkSink => None,
    }
}

/// Where data that enters at `stage` is after `hops` links; nowhere once it
/// has left the graph through the sink.
pub open spec fn stage_after(stage: Stage, hops: nat) -> Option<Stage>
    decreases hops,
{
    if hops == 0 {
        Some(stage)
    } else {
        match downstream_of(stage) {
            Some(next) => stage_after(next, (hops - 1) as nat),
            None => None,
        }
    }
}

/// How many links lie between a stage and the sink.
pub open spec fn hops_to_sink(stage: Stage) -> nat {
    match stage {
        Stage::VideoSource => 7,
        Stage::VideoConvert => 6,
        Stage::ClockOverlay => 5,
        Stage::VideoRate => 4,
        Stage::VideoEncoder => 3,
        Stage::VideoQueue => 2,
        Stage::AudioInput => 6,
        Stage::AudioRate => 5,
        Stage::AudioConvert => 4,
        Stage::AudioResample => 3,
        Stage::AudioEncoder => 2,
        Stage::Muxer => 1,
        Stage::NetworkSink => 0,
    }
}

impl Stage {
    /// The position of the stage in the creation order.
    pub fn position(self) -> (position: usize)
        ensures
            position == position_of(self),
            position < STAGE_COUNT,
    {
        match self {
            Stage::VideoSource => 0,
            Stage::VideoConvert => 1,
            Stage::ClockOverlay => 2,
            Stage::VideoRate => 3,
            Stage::VideoEncoder => 4,
            Stage::VideoQueue => 5,
            Stage::AudioInput => 6,
            Stage::AudioRate => 7,
            Stage::AudioConvert => 8,
            Stage::AudioResample => 9,
            Stage::AudioEncoder => 10,
            Stage::Muxer => 11,
            Stage::NetworkSink => 12,
        }
    }

    /// The stage at `position` of the creation order, if there is one.
    pub fn at(position: usize) -> (stage: Option<Stage>)
        ensures
            stage == if position < STAGE_COUNT {
                Some(stage_at(position as int))
            } else {
                None
            },
    {
        match position {
            0 => Some(Stage::VideoSource),
            1 => Some(Stage::VideoConvert),
            2 => Some(Stage::ClockOverlay),
            3 => Some(Stage::VideoRate),
            4 => Some(Stage::VideoEncoder),
            5 => Some(Stage::VideoQueue),
            6 => Some(Stage::AudioInput),
            7 => Some(Stage::AudioRate),
            8 => Some(Stage::AudioConvert),
            9 => Some(Stage::AudioResample),
            10 => Some(Stage::AudioEncoder),
            11 => Some(Stage::Muxer),
            12 => Some(Stage::NetworkSink),
            _ => None,
        }
    }

    /// The stage that this one feeds; `None` for the sink.
    pub fn downstream(self) -> (next: Option<Stage>)
        ensures
            next == downstream_of(self),
    {
        match self {
            Stage::VideoSource => Some(Stage::VideoConvert),
            Stage::VideoConvert => Some(Stage::ClockOverlay),
            Stage::ClockOverlay => Some(Stage::VideoRate),
            Stage::VideoRate => Some(Stage::VideoEncoder),
            Stage::VideoEncoder => Some(Stage::VideoQueue),
            Stage::VideoQueue => Some(Stage::Muxer),
            Stage::AudioInput => Some(Stage::AudioRate),
            Stage::AudioRate => Some(Stage::AudioConvert),
            Stage::AudioConvert => Some(Stage::AudioResample),
            Stage::AudioResample => Some(Stage::AudioEncoder),
            Stage::AudioEncoder => Some(Stage::Muxer),
            Stage::Muxer => Some(Stage::NetworkSink),
            Stage::NetworkSink => None,
        }
    }
}

/// The creation order lists every stage once: a stage stands at its own
/// position and nowhere else.
pub proof fn lemma_creation_order_lists_every_stage_once(stage: Stage, position: int)
    ensures
        0 <= position_of(stage) < STAGE_COUNT,
        stage_at(position_of(stage)) == stage,
        0 <= position < STAGE_COUNT ==> position_of(stage_at(position)) == position,
{
}

/// Links only lead forward in the creation order, so the graph has no cycle;
/// and every stage but the sink has a link out.
pub proof fn lemma_links_lead_forward(stage: Stage)
    ensures
        downstream_of(stage) is None <==> stage == Stage::NetworkSink,
        downstream_of(stage) matches Some(next) ==> position_of(stage) < position_of(next),
{
}

/// Whatever enters the graph at any stage arrives at the network sink, and
/// passes through the muxer on the link just before it: both branches meet
/// in the muxer, and only the muxer feeds the sink.
pub proof fn lemma_every_stage_feeds_the_sink(stage: Stage)
    ensures
        stage_after(stage, hops_to_sink(stage)) == Some(Stage::NetworkSink),
        stage != Stage::NetworkSink ==> stage_after(stage, (hops_to_sink(stage) - 1) as nat)
            == Some(Stage::Muxer),
        downstream_of(stage) == Some(Stage::NetworkSink) <==> stage == Stage::Muxer,
{
    reveal_with_fuel(stage_after, 9);
}

/// One step of bringing the graph up.
#[derive(Clone, Copy, Debug, PartialEq, Eq, Structural)]
pub enum BuildStep {
    /// Construct a stage and add it to the graph.
    Create(Stage),
    /// Connect the output of the first stage to the input of the second.
    Link(Stage, Stage),
    /// Switch the finished graph to its running state.
    Run,
}

/// Why a session could not be brought up.
#[derive(Clone, Copy, Debug, PartialEq, Eq, Structural)]
pub enum ConstructionError {
    /// The engine could not construct the stage.
    StageUnavailable(Stage),
    /// The engine refused to connect the two stages.
    LinkRefused(Stage, Stage),
    /// The engine refused to switch the graph to its running state.
    StartRefused,
}

/// Why a frame was not delivered.
#[derive(Clone, Copy, Debug, PartialEq, Eq, Structural)]
pub enum DeliveryError {
    /// The session is not running: it is still being built, or has stopped.
    NotRunning,
    /// The live endpoint refused the buffer.
    Rejected,
    /// The live endpoint did not take the buffer in time.
    TimedOut,
}

/// What the live endpoint did with a buffer.
#[derive(Clone, Copy, Debug, PartialEq, Eq, Structural)]
pub enum EndpointOutcome {
    Accepted,
    Rejected,
    TimedOut,
}

/// Where a session stands in its life. `Stopped` is final.
#[derive(Clone, Copy, Debug, PartialEq, Eq, Structural)]
pub enum SessionState {
    Building,
    Running,
    Stopped,
}

/// The step at a position of the build plan: first every stage in creation
/// order, then the link out of every stage but the sink, in the same order,
/// then the switch to running.
pub open spec fn plan_step(position: int) -> BuildStep {
    if position < STAGE_COUNT {
        BuildStep::Create(stage_at(position))
    } else if position < STAGE_COUNT + LINK_COUNT {
        let from = stage_at(position - STAGE_COUNT);
        match downstream_of(from) {
            Some(to) => BuildStep::Link(from, to),
            None => BuildStep::Run,
        }
    } else {
        BuildStep::Run
    }
}

/// The error that stands for the failure of a build step.
pub open spec fn failure_of(step: BuildStep) -> ConstructionError {
    match step {
        BuildStep::Create(stage) => ConstructionError::StageUnavailable(stage),
        BuildStep::Link(from, to) => ConstructionError::LinkRefused(from, to),
        BuildStep::Run => ConstructionError::StartRefused,
    }
}

/// The build plan never links a stage before both ends of the link exist,
/// holds exactly the links of the graph, and switches to running only as its
/// last step.
pub proof fn lemma_plan_is_orderly(position: int)
    requires
        0 <= position < BUILD_STEPS,
    ensures
        position < STAGE_COUNT <==> plan_step(position) is Create,
        STAGE_COUNT <= position < STAGE_COUNT + LINK_COUNT <==> plan_step(position) is Link,
        position == BUILD_STEPS - 1 <==> plan_step(position) == BuildStep::Run,
        plan_step(position) matches BuildStep::Link(from, to) ==> {
            &&& downstream_of(from) == Some(to)
            &&& position_of(from) == position - STAGE_COUNT
            &&& plan_step(position_of(from)) == BuildStep::Create(from)
            &&& plan_step(position_of(to)) == BuildStep::Create(to)
            &&& position_of(from) < position
            &&& position_of(to) < position
        },
{
}

/// A session as the contracts see it.
#[derive(Clone, Copy, Debug, PartialEq, Eq, Structural)]
pub struct SessionModel {
    pub state: SessionState,
    /// Build steps that succeeded so far.
    pub completed: usize,
}

/// A session is running exactly when its whole build plan has succeeded,
/// and while it is being built some step is still open.
pub open spec fn consistent(model: SessionModel) -> bool {
    &&& model.completed <= BUILD_STEPS
    &&& model.state == SessionState::Building ==> model.completed < BUILD_STEPS
    &&& model.state == SessionState::Running ==> model.completed == BUILD_STEPS
}

/// A session of which nothing has been built yet.
pub open spec fn begun() -> SessionModel {
    SessionModel { state: SessionState::Building, completed: 0 }
}

/// The build step that a session waits for, if it is being built.
pub open spec fn pending_step(model: SessionModel) -> Option<BuildStep> {
    if model.state == SessionState::Building {
        Some(plan_step(model.completed as int))
    } else {
        None
    }
}

/// The session after the outcome of its pending step is known. Success moves
/// on to the next step, and to `Running` after the last; failure stops the
/// session. A session that is not being built is left as it is.
pub open spec fn after_step(model: SessionModel, succeeded: bool) -> SessionModel {
    if model.state != SessionState::Building {
        model
    } else if !succeeded {
        SessionModel { state: SessionState::Stopped, completed: model.completed }
    } else if model.completed + 1 >= BUILD_STEPS {
        SessionModel { state: SessionState::Running, completed: BUILD_STEPS }
    } else {
        SessionModel { state: SessionState::Building, completed: (model.completed + 1) as usize }
    }
}

/// What reporting the outcome of the pending step answers: the error of the
/// step on failure, else the state that the session is in afterwards.
pub open spec fn step_result(model: SessionModel, succeeded: bool) -> Result<
    SessionState,
    ConstructionError,
> {
    if model.state == SessionState::Building && !succeeded {
        Err(failure_of(plan_step(model.completed as int)))
    } else {
        Ok(after_step(model, succeeded).state)
    }
}

/// The session after the endpoint's answer to a delivery is known: any
/// answer but acceptance stops a running session.
pub open spec fn after_delivery(model: SessionModel, outcome: EndpointOutcome) -> SessionModel {
    if model.state == SessionState::Running && outcome != EndpointOutcome::Accepted {
        SessionModel { state: SessionState::Stopped, completed: model.completed }
    } else {
        model
    }
}

/// What a delivery comes to, given the endpoint's answer.
pub open spec fn delivery_result(model: SessionModel, outcome: EndpointOutcome) -> Result<
    (),
    DeliveryError,
> {
    if model.state != SessionState::Running {
        Err(DeliveryError::NotRunning)
    } else {
        match outcome {
            EndpointOutcome::Accepted => Ok(()),
            EndpointOutcome::Rejected => Err(DeliveryError::Rejected),
            EndpointOutcome::TimedOut => Err(DeliveryError::TimedOut),
        }
    }
}

/// The session after it was told to stop.
pub open spec fn stopped(model: SessionModel) -> SessionModel {
    SessionModel { state: SessionState::Stopped, completed: model.completed }
}

/// What a push of `frame` answers: the frame's bytes for the endpoint while
/// the session runs, else an error.
pub open spec fn push_result(model: SessionModel, frame: Seq<i16>) -> Result<
    Seq<u8>,
    DeliveryError,
> {
    if model.state == SessionState::Running {
        Ok(le_bytes(frame))
    } else {
        Err(DeliveryError::NotRunning)
    }
}

/// Something that happens to a session. A push alone changes nothing: what
/// counts is the endpoint's answer to it.
#[derive(Clone, Copy, Debug, PartialEq, Eq, Structural)]
pub enum SessionOp {
    StepDone(bool),
    Delivered(EndpointOutcome),
    Stop,
}

/// The session after one operation.
pub open spec fn apply(model: SessionModel, op: SessionOp) -> SessionModel {
    match op {
        SessionOp::StepDone(succeeded) => after_step(model, succeeded),
        SessionOp::Delivered(outcome) => after_delivery(model, outcome),
        SessionOp::Stop => stopped(model),
    }
}

/// The session after a run of operations, in order.
pub open spec fn apply_all(model: SessionModel, ops: Seq<SessionOp>) -> SessionModel
    decreases ops.len(),
{
    if ops.len() == 0 {
        model
    } else {
        apply(apply_all(model, ops.drop_last()), ops.last())
    }
}

/// No operation breaks a session's consistency.
pub proof fn lemma_consistency_is_kept(model: SessionModel, ops: Seq<SessionOp>)
    requires
        consistent(model),
    ensures
        consistent(apply_all(model, ops)),
    decreases ops.len(),
{
    if ops.len() > 0 {
        lemma_consistency_is_kept(model, ops.drop_last());
    }
}

/// `Stopped` is final: whatever happens to a stopped session, it stays
/// stopped.
pub proof fn lemma_stopped_is_final(model: SessionModel, ops: Seq<SessionOp>)
    requires
        model.state == SessionState::Stopped,
    ensures
        apply_all(model, ops) == model,
    decreases ops.len(),
{
    if ops.len() > 0 {
        lemma_stopped_is_final(model, ops.drop_last());
    }
}

/// A session is only ever running after every step of the build plan has
/// succeeded, and a failed step stops it for good.
pub proof fn lemma_failed_step_is_fatal(model: SessionModel, ops: Seq<SessionOp>)
    requires
        model.state == SessionState::Building,
    ensures
        after_step(model, false).state == SessionState::Stopped,
        step_result(model, false) is Err,
        apply_all(after_step(model, false), ops).state == SessionState::Stopped,
{
    lemma_stopped_is_final(after_step(model, false), ops);
}

/// Bringing a session up takes exactly the whole plan: after `n` successful
/// steps a fresh session has completed `n` of them, and it runs exactly when
/// `n` has reached the plan's length.
pub proof fn lemma_build_runs_after_the_last_step(n: nat)
    requires
        n <= BUILD_STEPS,
    ensures
        apply_all(begun(), Seq::new(n, |i: int| SessionOp::StepDone(true))).completed == n,
        apply_all(begun(), Seq::new(n, |i: int| SessionOp::StepDone(true))).state == if n
            == BUILD_STEPS {
            SessionState::Running
        } else {
            SessionState::Building
        },
    decreases n,
{
    if n > 0 {
        let ops = Seq::new(n, |i: int| SessionOp::StepDone(true));
        let fewer = Seq::new((n - 1) as nat, |i: int| SessionOp::StepDone(true));
        lemma_build_runs_after_the_last_step((n - 1) as nat);
        assert(ops.drop_last() =~= fewer);
    }
}

/// After a session was stopped, every push is answered with an error,
/// whatever the frame and whatever happened to the session in between.
pub proof fn lemma_push_after_stop_fails(
    model: SessionModel,
    later: Seq<SessionOp>,
    frame: Seq<i16>,
)
    ensures
        push_result(apply_all(stopped(model), later), frame) == Err::<Seq<u8>, DeliveryError>(
            DeliveryError::NotRunning,
        ),
        apply_all(stopped(model), later).state == SessionState::Stopped,
{
    lemma_stopped_is_final(stopped(model), later);
}

/// In any run of operations that holds a stop, the session is stopped from
/// that operation on: at every later point of the run a push is refused and
/// an endpoint's answer changes nothing, and the run ends in `Stopped`.
pub proof fn lemma_stop_cuts_the_run(
    model: SessionModel,
    ops: Seq<SessionOp>,
    stop_at: int,
    point: int,
    frame: Seq<i16>,
)
    requires
        0 <= stop_at < point <= ops.len(),
        ops[stop_at] == SessionOp::Stop,
    ensures
        apply_all(model, ops.take(point)).state == SessionState::Stopped,
        push_result(apply_all(model, ops.take(point)), frame) is Err,
        apply_all(model, ops).state == SessionState::Stopped,
    decreases ops.len() - stop_at,
{
    lemma_run_upto_stop(model, ops, stop_at, point);
    lemma_run_upto_stop(model, ops, stop_at, ops.len() as int);
    assert(ops.take(ops.len() as int) =~= ops);
}

proof fn lemma_run_upto_stop(model: SessionModel, ops: Seq<SessionOp>, stop_at: int, point: int)
    requires
        0 <= stop_at < point <= ops.len(),
        ops[stop_at] == SessionOp::Stop,
    ensures
        apply_all(model, ops.take(point)).state == SessionState::Stopped,
    decreases point,
{
    let prefix = ops.take(point);
    assert(prefix.drop_last() =~= ops.take(point - 1));
    assert(prefix.last() == ops[point - 1]);
    if point - 1 > stop_at {
        lemma_run_upto_stop(model, ops, stop_at, point - 1);
    }
}

/// One output graph, from the first build step to its end.
#[derive(Debug)]
pub struct PipelineSession {
    state: SessionState,
    completed: usize,
}

impl View for PipelineSession {
    type V = SessionModel;

    closed spec fn view(&self) -> SessionModel {
        SessionModel { state: self.state, completed: self.completed }
    }
}

impl PipelineSession {
    #[verifier::type_invariant]
    spec fn well_formed(&self) -> bool {
        consistent(self@)
    }

    /// A session of which nothing has been built yet.
    pub fn new() -> (session: PipelineSession)
        ensures
            session@ == begun(),
    {
        PipelineSession { state: SessionState::Building, completed: 0 }
    }

    /// Where the session stands.
    pub fn state(&self) -> (state: SessionState)
        ensures
            state == self@.state,
            consistent(self@),
    {
        proof {
            use_type_invariant(self);
        }
        self.state
    }

    /// How many build steps have succeeded.
    pub fn completed(&self) -> (n: usize)
        ensures
            n == self@.completed,
            n <= BUILD_STEPS,
    {
        proof {
            use_type_invariant(self);
        }
        self.completed
    }

    /// The build step to perform next; `None` once the session runs or has
    /// stopped.
    pub fn next_step(&self) -> (step: Option<BuildStep>)
        ensures
            step == pending_step(self@),
    {
        proof {
            use_type_invariant(self);
        }
        match self.state {
            SessionState::Building => {
                if self.completed < STAGE_COUNT {
                    match Stage::at(self.completed) {
                        Some(stage) => Some(BuildStep::Create(stage)),
                        None => None,
                    }
                } else if self.completed < STAGE_COUNT + LINK_COUNT {
                    match Stage::at(self.completed - STAGE_COUNT) {
                        Some(from) => match from.downstream() {
                            Some(to) => Some(BuildStep::Link(from, to)),
                            None => Some(BuildStep::Run),
                        },
                        None => None,
                    }
                } else {
                    Some(BuildStep::Run)
                }
            },
            _ => None,
        }
    }

    /// Takes in the outcome of the pending build step.
    ///
    /// On success the session moves on to the next step, and runs after the
    /// last one. On failure it stops for good, and the error names the step.
    /// A session that is not being built is left as it is.
    pub fn step_done(&mut self, succeeded: bool) -> (result: Result<SessionState, ConstructionError>)
        ensures
            final(self)@ == after_step(old(self)@, succeeded),
            result == step_result(old(self)@, succeeded),
    {
        proof {
            use_type_invariant(&*self);
        }
        match self.state {
            SessionState::Building => {
                if !succeeded {
                    let error = match self.next_step() {
                        Some(BuildStep::Create(stage)) => ConstructionError::StageUnavailable(stage),
                        Some(BuildStep::Link(from, to)) => ConstructionError::LinkRefused(from, to),
                        _ => ConstructionError::StartRefused,
                    };
                    *self = PipelineSession {
                        state: SessionState::Stopped,
                        completed: self.completed,
                    };
                    Err(error)
                } else if self.completed + 1 >= BUILD_STEPS {
                    *self = PipelineSession { state: SessionState::Running, completed: BUILD_STEPS };
                    Ok(SessionState::Running)
                } else {
                    *self = PipelineSession {
                        state: SessionState::Building,
                        completed: self.completed + 1,
                    };
                    Ok(SessionState::Building)
                }
            },
            state => Ok(state),
        }
    }

    /// Prepares one frame for the live endpoint.
    ///
    /// While the session runs the answer is the frame as the endpoint takes
    /// it, little-endian byte by byte; in any other state the push fails and
    /// nothing is to be delivered.
    pub fn push(&self, frame: &MixedFrame) -> (result: Result<Vec<u8>, DeliveryError>)
        ensures
            result is Ok <==> self@.state == SessionState::Running,
            result matches Ok(bytes) ==> push_result(self@, frame@) == Ok::<
                Seq<u8>,
                DeliveryError,
            >(bytes@),
            result matches Err(error) ==> push_result(self@, frame@) == Err::<
                Seq<u8>,
                DeliveryError,
            >(error),
    {
        match self.state {
            SessionState::Running => Ok(frame.to_le_bytes()),
            _ => Err(DeliveryError::NotRunning),
        }
    }

    /// Takes in what the live endpoint did with the last buffer.
    ///
    /// Acceptance leaves a running session running. A refusal or a timeout
    /// stops it for good. On a session that is not running the answer is
    /// `NotRunning`, and nothing changes.
    pub fn delivered(&mut self, outcome: EndpointOutcome) -> (result: Result<(), DeliveryError>)
        ensures
            final(self)@ == after_delivery(old(self)@, outcome),
            result == delivery_result(old(self)@, outcome),
    {
        proof {
            use_type_invariant(&*self);
        }
        match self.state {
            SessionState::Running => match outcome {
                EndpointOutcome::Accepted => Ok(()),
                EndpointOutcome::Rejected => {
                    *self = PipelineSession {
                        state: SessionState::Stopped,
                        completed: self.completed,
                    };
                    Err(DeliveryError::Rejected)
                },
                EndpointOutcome::TimedOut => {
                    *self = PipelineSession {
                        state: SessionState::Stopped,
                        completed: self.completed,
                    };
                    Err(DeliveryError::TimedOut)
                },
            },
            _ => Err(DeliveryError::NotRunning),
        }
    }

    /// Stops the session. The answer says whether there is a graph to take
    /// down: `true` the first time, `false` on a session that had already
    /// stopped, which is left as it is.
    pub fn stop(&mut self) -> (teardown: bool)
        ensures
            final(self)@ == stopped(old(self)@),
            teardown == (old(self)@.state != SessionState::Stopped),
    {
        proof {
            use_type_invariant(&*self);
        }
        match self.state {
            SessionState::Stopped => false,
            _ => {
                *self = PipelineSession { state: SessionState::Stopped, completed: self.completed };
                true
            },
        }
    }
}

} // verus!
