use termusic::dur::PlayerDuration;
use termusic::error::PlayerError;
use termusic::player_msg::{
    clamp_u16, unwrap_msg, PlayerProgress, PlayerTime, StreamUpdateType, StreamUpdates,
    UpdateEvents, UpdateVolumeChanged, VolumeReply,
};

#[test]
fn clamp_u16_caps_at_max() {
    assert_eq!(clamp_u16(0), 0);
    assert_eq!(clamp_u16(70000), u16::MAX);
    assert_eq!(clamp_u16(u16::MAX as u32), u16::MAX);
    assert_eq!(clamp_u16(12345), 12345);
}

#[test]
fn unwrap_msg_ok_and_err() {
    let r: Result<u32, PlayerError> = unwrap_msg(Some(7), "field");
    assert_eq!(r.unwrap(), 7);
    let r: Result<u32, PlayerError> = unwrap_msg(None, "field");
    match r {
        Err(PlayerError::MissingMessage { place }) => assert_eq!(place, "field"),
        _ => panic!("expected a missing-message error"),
    }
}

#[test]
fn progress_and_time_convert_both_ways() {
    let p = PlayerProgress {
        position: Some(PlayerDuration::new(3, 500)),
        total_duration: Some(PlayerDuration::new(180, 0)),
    };
    let t: PlayerTime = PlayerTime::from(p);
    assert_eq!(t.position, p.position);
    assert_eq!(t.total_duration, p.total_duration);
    let back = PlayerProgress::from(t);
    assert_eq!(back, p);
}

#[test]
fn volume_event_round_trip() {
    let ev = UpdateEvents::VolumeChanged { volume: 55 };
    let wire = StreamUpdates::from(ev.clone());
    match wire.update_type {
        Some(StreamUpdateType::VolumeChanged(UpdateVolumeChanged { msg: Some(reply) })) => {
            assert_eq!(reply.volume, 55);
        }
        _ => panic!("wrong wire shape"),
    }
    let back = UpdateEvents::try_from(wire).unwrap();
    assert_eq!(back, ev);
}

#[test]
fn volume_event_clamps_oversized_wire_value() {
    let wire = StreamUpdates {
        update_type: Some(StreamUpdateType::VolumeChanged(UpdateVolumeChanged {
            msg: Some(VolumeReply { volume: 1_000_000 }),
        })),
    };
    let ev = UpdateEvents::try_from(wire).unwrap();
    assert_eq!(ev, UpdateEvents::VolumeChanged { volume: u16::MAX });
}

#[test]
fn missing_wire_layers_name_their_place() {
    let wire = StreamUpdates { update_type: None };
    match UpdateEvents::try_from(wire) {
        Err(PlayerError::MissingMessage { place }) => assert_eq!(place, "StreamUpdates.type"),
        _ => panic!("expected a missing-message error"),
    }
    let wire = StreamUpdates {
        update_type: Some(StreamUpdateType::VolumeChanged(UpdateVolumeChanged { msg: None })),
    };
    match UpdateEvents::try_from(wire) {
        Err(PlayerError::MissingMessage { place }) => {
            assert_eq!(place, "StreamUpdates.types.volume_changed.msg")
        }
        _ => panic!("expected a missing-message error"),
    }
}

#[test]
fn duration_arithmetic() {
    let a = PlayerDuration::new(2, 500_000_000);
    let b = PlayerDuration::new(1, 700_000_000);
    let d = a.saturating_sub(&b);
    assert_eq!((d.secs, d.nanos), (0, 800_000_000));
    let z = b.saturating_sub(&a);
    assert_eq!((z.secs, z.nanos), (0, 0));
    let s = a.saturating_add(&b);
    assert_eq!((s.secs, s.nanos), (4, 200_000_000));
    assert!(b.lt(&a));
    assert!(!a.lt(&b));
}

#[test]
fn error_kind_names() {
    assert_eq!(PlayerError::NoFilePath.kind_name(), "no file path found");
    assert_eq!(PlayerError::Protocol.kind_name(), "protocol error");
}
