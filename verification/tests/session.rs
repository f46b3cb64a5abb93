use cordtap::config::StreamConfig;
use cordtap::frame::{MixedFrame, FRAME_BYTES};
use cordtap::pipeline::{
    BuildStep, ConstructionError, DeliveryError, EndpointOutcome, PipelineSession, SessionState,
    Stage, BUILD_STEPS, LINK_COUNT, STAGE_COUNT,
};

fn running_session() -> PipelineSession {
    let mut session = PipelineSession::new();
    while session.next_step().is_some() {
        session.step_done(true).unwrap();
    }
    assert_eq!(session.state(), SessionState::Running);
    session
}

fn session_after(steps: usize) -> PipelineSession {
    let mut session = PipelineSession::new();
    for _ in 0..steps {
        assert_eq!(session.step_done(true), Ok(SessionState::Building));
    }
    session
}

#[test]
fn plan_creates_then_links_then_runs() {
    let expected = vec![
        BuildStep::Create(Stage::VideoSource),
        BuildStep::Create(Stage::VideoConvert),
        BuildStep::Create(Stage::ClockOverlay),
        BuildStep::Create(Stage::VideoRate),
        BuildStep::Create(Stage::VideoEncoder),
        BuildStep::Create(Stage::VideoQueue),
        BuildStep::Create(Stage::AudioInput),
        BuildStep::Create(Stage::AudioRate),
        BuildStep::Create(Stage::AudioConvert),
        BuildStep::Create(Stage::AudioResample),
        BuildStep::Create(Stage::AudioEncoder),
        BuildStep::Create(Stage::Muxer),
        BuildStep::Create(Stage::NetworkSink),
        BuildStep::Link(Stage::VideoSource, Stage::VideoConvert),
        BuildStep::Link(Stage::VideoConvert, Stage::ClockOverlay),
        BuildStep::Link(Stage::ClockOverlay, Stage::VideoRate),
        BuildStep::Link(Stage::VideoRate, Stage::VideoEncoder),
        BuildStep::Link(Stage::VideoEncoder, Stage::VideoQueue),
        BuildStep::Link(Stage::VideoQueue, Stage::Muxer),
        BuildStep::Link(Stage::AudioInput, Stage::AudioRate),
        BuildStep::Link(Stage::AudioRate, Stage::AudioConvert),
        BuildStep::Link(Stage::AudioConvert, Stage::AudioResample),
        BuildStep::Link(Stage::AudioResample, Stage::AudioEncoder),
        BuildStep::Link(Stage::AudioEncoder, Stage::Muxer),
        BuildStep::Link(Stage::Muxer, Stage::NetworkSink),
        BuildStep::Run,
    ];
    assert_eq!(expected.len(), BUILD_STEPS);
    assert_eq!(STAGE_COUNT + LINK_COUNT + 1, BUILD_STEPS);
    let mut session = PipelineSession::new();
    let mut seen = Vec::new();
    while let Some(step) = session.next_step() {
        assert_eq!(session.completed(), seen.len());
        seen.push(step);
        let state = session.step_done(true).unwrap();
        if seen.len() < BUILD_STEPS {
            assert_eq!(state, SessionState::Building);
        } else {
            assert_eq!(state, SessionState::Running);
        }
    }
    assert_eq!(seen, expected);
    assert_eq!(session.state(), SessionState::Running);
    assert_eq!(session.completed(), BUILD_STEPS);
}

#[test]
fn stages_know_their_place() {
    for position in 0..STAGE_COUNT {
        let stage = Stage::at(position).unwrap();
        assert_eq!(stage.position(), position);
    }
    assert_eq!(Stage::at(STAGE_COUNT), None);
    assert_eq!(Stage::at(usize::MAX), None);
    assert_eq!(Stage::at(0), Some(Stage::VideoSource));
    assert_eq!(Stage::at(6), Some(Stage::AudioInput));
    assert_eq!(Stage::at(12), Some(Stage::NetworkSink));
}

#[test]
fn every_stage_leads_to_the_sink_through_the_muxer() {
    for position in 0..STAGE_COUNT {
        let mut stage = Stage::at(position).unwrap();
        let mut before = None;
        let mut hops = 0;
        while let Some(next) = stage.downstream() {
            assert!(next.position() > stage.position());
            before = Some(stage);
            stage = next;
            hops += 1;
            assert!(hops <= STAGE_COUNT);
        }
        assert_eq!(stage, Stage::NetworkSink);
        if position != 12 {
            assert_eq!(before, Some(Stage::Muxer));
        }
    }
    assert_eq!(Stage::VideoQueue.downstream(), Some(Stage::Muxer));
    assert_eq!(Stage::AudioEncoder.downstream(), Some(Stage::Muxer));
    assert_eq!(Stage::NetworkSink.downstream(), None);
}

#[test]
fn new_session_is_building() {
    let session = PipelineSession::new();
    assert_eq!(session.state(), SessionState::Building);
    assert_eq!(session.completed(), 0);
    assert_eq!(session.next_step(), Some(BuildStep::Create(Stage::VideoSource)));
}

#[test]
fn stage_that_cannot_be_made_stops_the_session() {
    let mut session = session_after(4);
    assert_eq!(session.next_step(), Some(BuildStep::Create(Stage::VideoEncoder)));
    assert_eq!(
        session.step_done(false),
        Err(ConstructionError::StageUnavailable(Stage::VideoEncoder))
    );
    assert_eq!(session.state(), SessionState::Stopped);
    assert_eq!(session.completed(), 4);
    assert_eq!(session.next_step(), None);
}

#[test]
fn link_that_is_refused_stops_the_session() {
    let mut session = session_after(18);
    assert_eq!(session.next_step(), Some(BuildStep::Link(Stage::VideoQueue, Stage::Muxer)));
    assert_eq!(
        session.step_done(false),
        Err(ConstructionError::LinkRefused(Stage::VideoQueue, Stage::Muxer))
    );
    assert_eq!(session.state(), SessionState::Stopped);
    assert_eq!(session.next_step(), None);
}

#[test]
fn start_that_is_refused_stops_the_session() {
    let mut session = session_after(25);
    assert_eq!(session.next_step(), Some(BuildStep::Run));
    assert_eq!(session.step_done(false), Err(ConstructionError::StartRefused));
    assert_eq!(session.state(), SessionState::Stopped);
}

#[test]
fn stopped_session_cannot_be_built_further() {
    let mut session = session_after(3);
    assert!(session.stop());
    assert_eq!(session.next_step(), None);
    assert_eq!(session.step_done(true), Ok(SessionState::Stopped));
    assert_eq!(session.step_done(false), Ok(SessionState::Stopped));
    assert_eq!(session.state(), SessionState::Stopped);
    assert_eq!(session.completed(), 3);
}

#[test]
fn running_session_takes_no_more_steps() {
    let mut session = running_session();
    assert_eq!(session.next_step(), None);
    assert_eq!(session.step_done(false), Ok(SessionState::Running));
    assert_eq!(session.step_done(true), Ok(SessionState::Running));
    assert_eq!(session.state(), SessionState::Running);
}

#[test]
fn running_session_hands_out_the_frame_bytes() {
    let session = running_session();
    let frame = MixedFrame::silent();
    let payload = session.push(&frame).unwrap();
    assert_eq!(payload.len(), FRAME_BYTES);
    assert_eq!(payload, frame.to_le_bytes());
    assert_eq!(session.state(), SessionState::Running);
}

#[test]
fn accepted_delivery_keeps_the_session_running() {
    let mut session = running_session();
    for _ in 0..50 {
        assert!(session.push(&MixedFrame::silent()).is_ok());
        assert_eq!(session.delivered(EndpointOutcome::Accepted), Ok(()));
    }
    assert_eq!(session.state(), SessionState::Running);
}

#[test]
fn rejected_delivery_stops_the_session() {
    let mut session = running_session();
    assert!(session.push(&MixedFrame::silent()).is_ok());
    assert_eq!(session.delivered(EndpointOutcome::Rejected), Err(DeliveryError::Rejected));
    assert_eq!(session.state(), SessionState::Stopped);
    assert_eq!(session.push(&MixedFrame::silent()), Err(DeliveryError::NotRunning));
}

#[test]
fn timed_out_delivery_stops_the_session() {
    let mut session = running_session();
    assert!(session.push(&MixedFrame::silent()).is_ok());
    assert_eq!(session.delivered(EndpointOutcome::TimedOut), Err(DeliveryError::TimedOut));
    assert_eq!(session.state(), SessionState::Stopped);
    assert_eq!(session.delivered(EndpointOutcome::Accepted), Err(DeliveryError::NotRunning));
}

#[test]
fn push_before_the_graph_runs_fails() {
    let session = session_after(10);
    assert_eq!(session.push(&MixedFrame::silent()), Err(DeliveryError::NotRunning));
    assert_eq!(session.state(), SessionState::Building);
}

#[test]
fn push_after_start_and_stop_fails() {
    let mut session = running_session();
    assert!(session.stop());
    assert_eq!(session.state(), SessionState::Stopped);
    for _ in 0..5 {
        assert_eq!(session.push(&MixedFrame::silent()), Err(DeliveryError::NotRunning));
    }
    assert_eq!(session.state(), SessionState::Stopped);
}

#[test]
fn stop_is_idempotent() {
    let mut session = running_session();
    assert!(session.stop());
    let completed = session.completed();
    assert!(!session.stop());
    assert!(!session.stop());
    assert_eq!(session.state(), SessionState::Stopped);
    assert_eq!(session.completed(), completed);
}

#[test]
fn stop_in_flight_fails_the_delivery() {
    let mut session = running_session();
    let payload = session.push(&MixedFrame::silent());
    assert!(payload.is_ok());
    assert!(session.stop());
    assert_eq!(session.delivered(EndpointOutcome::Accepted), Err(DeliveryError::NotRunning));
    assert_eq!(session.state(), SessionState::Stopped);
}

#[test]
fn pushes_around_one_stop_complete_or_fail() {
    // Every place of the stop among eight pushes.
    for stop_at in 0..=8 {
        let mut session = running_session();
        for push in 0..8 {
            if push == stop_at {
                assert!(session.stop());
            }
            let result = session.push(&MixedFrame::silent());
            if push < stop_at {
                assert!(result.is_ok());
                assert_eq!(session.delivered(EndpointOutcome::Accepted), Ok(()));
            } else {
                assert_eq!(result, Err(DeliveryError::NotRunning));
            }
        }
        if stop_at == 8 {
            assert!(session.stop());
        }
        assert_eq!(session.state(), SessionState::Stopped);
    }
}

#[test]
fn config_has_the_usual_parameters() {
    let config = StreamConfig::new("rtmp://live.example/app/key");
    assert_eq!(config.destination, "rtmp://live.example/app/key");
    assert_eq!(config.audio_bitrate, 96000);
    assert_eq!(config.video_bitrate, 4000);
    assert_eq!(config.width, 1280);
    assert_eq!(config.height, 720);
    assert_eq!(config.keyframe_interval, 60);
}
