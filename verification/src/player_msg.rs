use vstd::prelude::*;

use crate::dur::PlayerDuration;
use crate::error::PlayerError;

verus! {

/// A playback snapshot: current position and, when known, the total
/// duration of the active track.
#[derive(Debug, Clone, Copy, PartialEq)]
pub struct PlayerProgress {
    pub position: Option<PlayerDuration>,
    /// Total duration of the currently playing track, if there is a
    /// known total duration.
    pub total_duration: Option<PlayerDuration>,
}

/// Wire form of a playback snapshot, as it travels to and from the
/// remote-control layer.
#[derive(Debug, Clone, Copy, PartialEq)]
pub struct PlayerTime {
    pub position: Option<PlayerDuration>,
    pub total_duration: Option<PlayerDuration>,
}

/// Wire form of a volume report.
#[derive(Debug, Clone, Copy, PartialEq, Eq, Structural)]
pub struct VolumeReply {
    pub volume: u32,
}

/// Wire envelope of a volume-changed event.
#[derive(Debug, Clone, Copy, PartialEq, Eq, Structural)]
pub struct UpdateVolumeChanged {
    pub msg: Option<VolumeReply>,
}

/// The tagged payload of a pushed state update.
#[derive(Debug, Clone, Copy, PartialEq, Eq, Structural)]
pub enum StreamUpdateType {
    VolumeChanged(UpdateVolumeChanged),
}

/// Wire envelope of a pushed state update.
#[derive(Debug, Clone, Copy, PartialEq, Eq, Structural)]
pub struct StreamUpdates {
    pub update_type: Option<StreamUpdateType>,
}

/// A state change pushed from the engine to its observers.
#[derive(Debug, Clone, PartialEq)]
pub enum UpdateEvents {
    VolumeChanged { volume: u16 },
}

/// The one-shot notification the player loop sends near a track's end
/// so the orchestration layer can stage the next track in time.
#[derive(Debug, Clone, Copy, PartialEq, Eq, Structural)]
pub enum PlayerMsg {
    AboutToFinish,
}

impl From<PlayerTime> for PlayerProgress {
    fn from(value: PlayerTime) -> (r: Self) {
        PlayerProgress { position: value.position, total_duration: value.total_duration }
    }
}

impl vstd::std_specs::convert::FromSpecImpl<PlayerTime> for PlayerProgress {
    open spec fn obeys_from_spec() -> bool {
        true
    }

    open spec fn from_spec(value: PlayerTime) -> Self {
        PlayerProgress { position: value.position, total_duration: value.total_duration }
    }
}

impl From<PlayerProgress> for PlayerTime {
    fn from(value: PlayerProgress) -> (r: Self) {
        PlayerTime { position: value.position, total_duration: value.total_duration }
    }
}

impl vstd::std_specs::convert::FromSpecImpl<PlayerProgress> for PlayerTime {
    open spec fn obeys_from_spec() -> bool {
        true
    }

    open spec fn from_spec(value: PlayerProgress) -> Self {
        PlayerTime { position: value.position, total_duration: value.total_duration }
    }
}

impl From<UpdateEvents> for StreamUpdates {
    fn from(value: UpdateEvents) -> (r: Self) {
        let val = match value {
            UpdateEvents::VolumeChanged { volume } => StreamUpdateType::VolumeChanged(
                UpdateVolumeChanged { msg: Some(VolumeReply { volume: volume as u32 }) },
            ),
        };
        StreamUpdates { update_type: Some(val) }
    }
}

impl vstd::std_specs::convert::FromSpecImpl<UpdateEvents> for StreamUpdates {
    open spec fn obeys_from_spec() -> bool {
        true
    }

    open spec fn from_spec(value: UpdateEvents) -> Self {
        match value {
            UpdateEvents::VolumeChanged { volume } => StreamUpdates {
                update_type: Some(
                    StreamUpdateType::VolumeChanged(
                        UpdateVolumeChanged { msg: Some(VolumeReply { volume: volume as u32 }) },
                    ),
                ),
            },
        }
    }
}

impl UpdateEvents {
    /// Reads a pushed update back out of its wire envelope; each
    /// absent layer is reported with its location.
    pub fn try_from(value: StreamUpdates) -> (r: Result<UpdateEvents, PlayerError>)
        ensures
            value.update_type is None ==> (r matches Err(PlayerError::MissingMessage { place })
                && place@ == "StreamUpdates.type"@),
            value.update_type matches Some(StreamUpdateType::VolumeChanged(ev)) && ev.msg is None
                ==> (r matches Err(PlayerError::MissingMessage { place }) && place@
                == "StreamUpdates.types.volume_changed.msg"@),
            value.update_type matches Some(StreamUpdateType::VolumeChanged(ev)) ==> (ev.msg
                matches Some(reply) ==> r == Ok::<UpdateEvents, PlayerError>(
                UpdateEvents::VolumeChanged { volume: clamp_u16_spec(reply.volume) },
            )),
    {
        let value = match unwrap_msg(value.update_type, "StreamUpdates.type") {
            Ok(v) => v,
            Err(e) => {
                return Err(e);
            },
        };
        let res = match value {
            StreamUpdateType::VolumeChanged(ev) => {
                let reply = match unwrap_msg(ev.msg, "StreamUpdates.types.volume_changed.msg") {
                    Ok(v) => v,
                    Err(e) => {
                        return Err(e);
                    },
                };
                UpdateEvents::VolumeChanged { volume: clamp_u16(reply.volume) }
            },
        };
        Ok(res)
    }
}

/// Unwraps an optional wire field, turning an absent field into an
/// error that records where in the message it was missing.
pub fn unwrap_msg<T>(opt: Option<T>, place: &str) -> (r: Result<T, PlayerError>)
    ensures
        opt matches Some(v) ==> r matches Ok(rv) && rv == v,
        opt is None ==> (r matches Err(PlayerError::MissingMessage { place: p }) && p@ == place@),
{
    match opt {
        Some(val) => Ok(val),
        None => Err(PlayerError::MissingMessage { place: place.to_owned() }),
    }
}

/// What `clamp_u16` returns: the value capped at `u16::MAX`.
pub open spec fn clamp_u16_spec(val: u32) -> u16 {
    if val > u16::MAX as u32 {
        u16::MAX
    } else {
        val as u16
    }
}

/// Narrows a wire-format `u32` volume value into the `u16` range,
/// capping at `u16::MAX`.
pub fn clamp_u16(val: u32) -> (r: u16)
    ensures
        r == clamp_u16_spec(val),
{
    if val > u16::MAX as u32 {
        u16::MAX
    } else {
        val as u16
    }
}

} // verus!
