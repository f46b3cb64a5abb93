use cordtap::activity::ActivityEdge;
use cordtap::config::StreamConfig;
use cordtap::frame::FRAME_BYTES;
use cordtap::identity::ParticipantIdentity;
use cordtap::mixer::mix;
use cordtap::pipeline::{
    BuildStep, ConstructionError, DeliveryError, EndpointOutcome, SessionState, Stage,
};
use cordtap::receiver::{Reaction, Receiver, SessionEvent, SourceReport};
use cordtap::tick::{PacketInfo, Tick, TickContribution};

fn running_receiver() -> Receiver {
    let mut receiver = Receiver::new("rtmp://live.example/app/key");
    while receiver.next_step().is_some() {
        receiver.step_done(true).unwrap();
    }
    assert_eq!(receiver.state(), SessionState::Running);
    receiver
}

fn tick_of(speaking: &[u32], silent: &[u32]) -> Tick {
    let mut tick = Tick::new();
    for id in speaking {
        assert!(tick.add_speaking(*id, TickContribution { decoded: Some(vec![*id as i16; 4]), packet: None }));
    }
    for id in silent {
        assert!(tick.add_silent(*id));
    }
    tick
}

#[test]
fn new_receiver_waits_for_its_graph() {
    let receiver = Receiver::new("rtmp://live.example/app/key");
    assert_eq!(receiver.state(), SessionState::Building);
    assert_eq!(receiver.config().destination, "rtmp://live.example/app/key");
    assert_eq!(receiver.config().audio_bitrate, 96000);
    assert_eq!(receiver.next_step(), Some(BuildStep::Create(Stage::VideoSource)));
    assert_eq!(receiver.lookup(7), None);
}

#[test]
fn receiver_keeps_the_config_it_was_given() {
    let mut config = StreamConfig::new("rtmp://other.example/live");
    config.video_bitrate = 2500;
    config.width = 640;
    config.height = 360;
    let receiver = Receiver::with_config(config);
    assert_eq!(receiver.config().destination, "rtmp://other.example/live");
    assert_eq!(receiver.config().video_bitrate, 2500);
    assert_eq!(receiver.config().width, 640);
    assert_eq!(receiver.config().height, 360);
    assert_eq!(receiver.config().keyframe_interval, 60);
}

#[test]
fn failed_construction_is_reported_and_final() {
    let mut receiver = Receiver::new("rtmp://live.example/app/key");
    assert_eq!(receiver.step_done(true), Ok(SessionState::Building));
    assert_eq!(
        receiver.step_done(false),
        Err(ConstructionError::StageUnavailable(Stage::VideoConvert))
    );
    assert_eq!(receiver.state(), SessionState::Stopped);
    assert_eq!(receiver.next_step(), None);
    let reaction = receiver.act(&SessionEvent::Tick(tick_of(&[1], &[])));
    assert!(matches!(reaction, Reaction::Nothing));
}

#[test]
fn identity_update_is_recorded() {
    let mut receiver = running_receiver();
    let reaction = receiver.act(&SessionEvent::IdentityUpdate {
        source: 7,
        identity: Some(ParticipantIdentity(1)),
    });
    assert!(matches!(reaction, Reaction::Nothing));
    assert_eq!(receiver.lookup(7), Some(ParticipantIdentity(1)));
    receiver.act(&SessionEvent::IdentityUpdate { source: 7, identity: Some(ParticipantIdentity(2)) });
    assert_eq!(receiver.lookup(7), Some(ParticipantIdentity(2)));
    receiver.act(&SessionEvent::IdentityUpdate { source: 7, identity: None });
    assert_eq!(receiver.lookup(7), Some(ParticipantIdentity(2)));
    receiver.act(&SessionEvent::IdentityUpdate { source: 8, identity: None });
    assert_eq!(receiver.lookup(8), None);
    assert_eq!(receiver.lookup(99), None);
}

#[test]
fn identity_update_is_recorded_while_building() {
    let mut receiver = Receiver::new("rtmp://live.example/app/key");
    receiver.act(&SessionEvent::IdentityUpdate { source: 3, identity: Some(ParticipantIdentity(30)) });
    assert_eq!(receiver.lookup(3), Some(ParticipantIdentity(30)));
    assert_eq!(receiver.state(), SessionState::Building);
}

#[test]
fn tick_is_mixed_and_handed_out() {
    let mut receiver = running_receiver();
    receiver.act(&SessionEvent::IdentityUpdate { source: 1, identity: Some(ParticipantIdentity(100)) });
    let packet = PacketInfo { source: 1, sequence: 42, timestamp: 96000, payload_len: 160 };
    let mut tick = Tick::new();
    assert!(tick.add_speaking(1, TickContribution { decoded: Some(vec![100, -100, 7]), packet: Some(packet) }));
    assert!(tick.add_silent(2));
    assert!(tick.add_speaking(3, TickContribution { decoded: None, packet: None }));
    assert!(tick.add_speaking(4, TickContribution { decoded: Some(vec![1, 1]), packet: None }));
    let expected_payload = mix(&tick).to_le_bytes();
    let reaction = receiver.act(&SessionEvent::Tick(tick));
    match reaction {
        Reaction::Deliver { edge, report, payload } => {
            assert_eq!(edge, Some(ActivityEdge::Started));
            assert_eq!(report.speaking, 3);
            assert_eq!(report.participants, 4);
            assert_eq!(
                report.sources,
                vec![
                    SourceReport {
                        source: 1,
                        identity: Some(ParticipantIdentity(100)),
                        samples: Some(3),
                        packet: Some(packet),
                    },
                    SourceReport { source: 3, identity: None, samples: None, packet: None },
                    SourceReport { source: 4, identity: None, samples: Some(2), packet: None },
                ]
            );
            assert_eq!(payload.len(), FRAME_BYTES);
            assert_eq!(payload, expected_payload);
            assert_eq!(&payload[..6], &[101, 0, 0x9D, 0xFF, 7, 0]);
        }
        other => panic!("unexpected reaction {:?}", other),
    }
    assert_eq!(receiver.state(), SessionState::Running);
}

#[test]
fn silent_tick_still_yields_a_frame() {
    let mut receiver = running_receiver();
    let reaction = receiver.act(&SessionEvent::Tick(tick_of(&[], &[1, 2])));
    match reaction {
        Reaction::Deliver { edge, report, payload } => {
            assert_eq!(edge, None);
            assert_eq!(report.speaking, 0);
            assert_eq!(report.participants, 2);
            assert!(report.sources.is_empty());
            assert_eq!(payload, vec![0u8; FRAME_BYTES]);
        }
        other => panic!("unexpected reaction {:?}", other),
    }
}

#[test]
fn speaker_without_decoded_audio_counts_as_activity() {
    let mut receiver = running_receiver();
    let mut tick = Tick::new();
    assert!(tick.add_speaking(1, TickContribution { decoded: None, packet: None }));
    match receiver.act(&SessionEvent::Tick(tick)) {
        Reaction::Deliver { edge, payload, .. } => {
            assert_eq!(edge, Some(ActivityEdge::Started));
            assert_eq!(payload, vec![0u8; FRAME_BYTES]);
        }
        other => panic!("unexpected reaction {:?}", other),
    }
}

#[test]
fn changing_speakers_give_one_start_and_no_silence() {
    let mut receiver = running_receiver();
    let ticks = vec![tick_of(&[1], &[2, 3]), tick_of(&[2], &[1, 3]), tick_of(&[3], &[1, 2])];
    let mut started = 0;
    let mut went_silent = 0;
    let mut edges = Vec::new();
    for tick in ticks {
        match receiver.act(&SessionEvent::Tick(tick)) {
            Reaction::Deliver { edge, report, payload } => {
                assert_eq!(report.participants, 3);
                assert_eq!(report.speaking, 1);
                assert_eq!(payload.len(), FRAME_BYTES);
                match edge {
                    Some(ActivityEdge::Started) => started += 1,
                    Some(ActivityEdge::WentSilent) => went_silent += 1,
                    None => {}
                }
                edges.push(edge);
                assert!(matches!(receiver.delivered(EndpointOutcome::Accepted), Reaction::Nothing));
            }
            other => panic!("unexpected reaction {:?}", other),
        }
    }
    assert_eq!(started, 1);
    assert_eq!(went_silent, 0);
    assert_eq!(edges, vec![Some(ActivityEdge::Started), None, None]);
}

#[test]
fn edges_follow_the_ticks() {
    let mut receiver = running_receiver();
    let pattern = [false, false, true, true, false];
    let mut edges = Vec::new();
    for active in pattern {
        let tick = if active { tick_of(&[1], &[2]) } else { tick_of(&[], &[1, 2]) };
        match receiver.act(&SessionEvent::Tick(tick)) {
            Reaction::Deliver { edge, .. } => edges.push(edge),
            other => panic!("unexpected reaction {:?}", other),
        }
    }
    assert_eq!(
        edges,
        vec![None, None, Some(ActivityEdge::Started), None, Some(ActivityEdge::WentSilent)]
    );
}

#[test]
fn raw_packet_is_passed_through() {
    let mut receiver = running_receiver();
    let info = PacketInfo { source: 9, sequence: 65535, timestamp: 123456, payload_len: 77 };
    match receiver.act(&SessionEvent::RawPacket(info)) {
        Reaction::Packet(noted) => assert_eq!(noted, info),
        other => panic!("unexpected reaction {:?}", other),
    }
    assert_eq!(receiver.state(), SessionState::Running);
    assert_eq!(receiver.lookup(9), None);
}

#[test]
fn unrecognized_event_is_ignored() {
    let mut receiver = running_receiver();
    assert!(matches!(receiver.act(&SessionEvent::Unrecognized), Reaction::Nothing));
    assert_eq!(receiver.state(), SessionState::Running);
}

#[test]
fn disconnect_takes_the_graph_down_once() {
    let mut receiver = running_receiver();
    receiver.act(&SessionEvent::IdentityUpdate { source: 1, identity: Some(ParticipantIdentity(5)) });
    match receiver.act(&SessionEvent::Disconnect) {
        Reaction::Teardown { cause } => assert_eq!(cause, None),
        other => panic!("unexpected reaction {:?}", other),
    }
    assert_eq!(receiver.state(), SessionState::Stopped);
    assert!(matches!(receiver.act(&SessionEvent::Disconnect), Reaction::Nothing));
    assert!(matches!(receiver.act(&SessionEvent::Tick(tick_of(&[1], &[]))), Reaction::Nothing));
    let info = PacketInfo { source: 1, sequence: 1, timestamp: 1, payload_len: 1 };
    assert!(matches!(receiver.act(&SessionEvent::RawPacket(info)), Reaction::Nothing));
    assert!(matches!(
        receiver.act(&SessionEvent::IdentityUpdate { source: 2, identity: Some(ParticipantIdentity(6)) }),
        Reaction::Nothing
    ));
    assert_eq!(receiver.lookup(2), None);
    assert_eq!(receiver.lookup(1), Some(ParticipantIdentity(5)));
    assert!(matches!(receiver.delivered(EndpointOutcome::Accepted), Reaction::Nothing));
    assert_eq!(receiver.state(), SessionState::Stopped);
}

#[test]
fn disconnect_while_building_stops_the_build() {
    let mut receiver = Receiver::new("rtmp://live.example/app/key");
    assert_eq!(receiver.step_done(true), Ok(SessionState::Building));
    assert!(matches!(receiver.act(&SessionEvent::Disconnect), Reaction::Teardown { cause: None }));
    assert_eq!(receiver.next_step(), None);
    assert_eq!(receiver.step_done(true), Ok(SessionState::Stopped));
}

#[test]
fn tick_before_the_graph_runs_stops_the_session() {
    let mut receiver = Receiver::new("rtmp://live.example/app/key");
    match receiver.act(&SessionEvent::Tick(tick_of(&[1], &[]))) {
        Reaction::Teardown { cause } => assert_eq!(cause, Some(DeliveryError::NotRunning)),
        other => panic!("unexpected reaction {:?}", other),
    }
    assert_eq!(receiver.state(), SessionState::Stopped);
}

#[test]
fn refused_buffer_takes_the_graph_down() {
    let mut receiver = running_receiver();
    assert!(matches!(
        receiver.act(&SessionEvent::Tick(tick_of(&[1], &[]))),
        Reaction::Deliver { .. }
    ));
    match receiver.delivered(EndpointOutcome::Rejected) {
        Reaction::Teardown { cause } => assert_eq!(cause, Some(DeliveryError::Rejected)),
        other => panic!("unexpected reaction {:?}", other),
    }
    assert_eq!(receiver.state(), SessionState::Stopped);
    assert!(matches!(receiver.act(&SessionEvent::Tick(tick_of(&[1], &[]))), Reaction::Nothing));
}

#[test]
fn stalled_endpoint_takes_the_graph_down() {
    let mut receiver = running_receiver();
    assert!(matches!(
        receiver.act(&SessionEvent::Tick(tick_of(&[], &[1]))),
        Reaction::Deliver { .. }
    ));
    match receiver.delivered(EndpointOutcome::TimedOut) {
        Reaction::Teardown { cause } => assert_eq!(cause, Some(DeliveryError::TimedOut)),
        other => panic!("unexpected reaction {:?}", other),
    }
    assert!(matches!(receiver.delivered(EndpointOutcome::TimedOut), Reaction::Nothing));
    assert_eq!(receiver.state(), SessionState::Stopped);
}

#[test]
fn report_uses_the_identities_known_at_the_tick() {
    let mut receiver = running_receiver();
    let before = receiver.describe(&tick_of(&[1, 2], &[3]));
    assert_eq!(before.speaking, 2);
    assert_eq!(before.participants, 3);
    assert_eq!(before.sources.len(), 2);
    assert_eq!(before.sources[0].identity, None);
    receiver.act(&SessionEvent::IdentityUpdate { source: 2, identity: Some(ParticipantIdentity(22)) });
    let after = receiver.describe(&tick_of(&[1, 2], &[3]));
    assert_eq!(after.sources[0].identity, None);
    assert_eq!(after.sources[1].identity, Some(ParticipantIdentity(22)));
    assert_eq!(after.sources[1].source, 2);
    assert_eq!(after.sources[1].samples, Some(4));
}
