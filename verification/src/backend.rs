use vstd::prelude::*;

use std::collections::VecDeque;

use crate::dur::PlayerDuration;
use crate::error::PlayerError;
use crate::player_msg::PlayerProgress;
use crate::track::{MediaType, Settings, Track};

verus! {

/// Volume change applied by `volume_up` and `volume_down`.
pub const VOLUME_STEP: u16 = 5;

/// The ghost shape of a track descriptor: its kind and the character
/// sequences of its paths.
pub struct TrackV {
    pub media_type: MediaType,
    pub file: Option<Seq<char>>,
    pub podcast_localfile: Option<Seq<char>>,
}

impl View for Track {
    type V = TrackV;

    open spec fn view(&self) -> TrackV {
        TrackV {
            media_type: self.media_type,
            file: match self.file {
                Some(f) => Some(f@),
                None => None,
            },
            podcast_localfile: match self.podcast_localfile {
                Some(f) => Some(f@),
                None => None,
            },
        }
    }
}

impl Clone for Track {
    fn clone(&self) -> (r: Self)
        ensures
            r@ == self@,
    {
        Track {
            media_type: self.media_type,
            file: clone_opt_string(&self.file),
            podcast_localfile: clone_opt_string(&self.podcast_localfile),
        }
    }
}

fn clone_opt_string(s: &Option<String>) -> (r: Option<String>)
    ensures
        (match r {
            Some(v) => Some(v@),
            None => None,
        }) == (match *s {
            Some(v) => Some(v@),
            None => None,
        }),
{
    match s {
        Some(v) => Some(v.clone()),
        None => None,
    }
}

/// A command handed to the player loop. Delivery is strict FIFO, one
/// consumer; each command is processed to completion before the next.
#[derive(Clone, Debug)]
pub enum PlayerInternalCmd {
    /// Arm the sink's one-shot end-of-stream notification.
    MessageOnEnd,
    /// Resolve and decode a track, making it the active one.
    /// (Track, gapless)
    Play(Box<Track>, bool),
    /// A position report fed back from the sink.
    Progress(PlayerDuration),
    /// Resolve and decode a track behind the current one, without
    /// disturbing playback. (Track, gapless)
    QueueNext(Box<Track>, bool),
    Resume,
    SeekAbsolute(PlayerDuration),
    SeekRelative(i64),
    Skip,
    Speed(i32),
    Stop,
    TogglePause,
    Volume(u16),
    Eos,
}

impl PlayerInternalCmd {
    /// Durations carried by a command must be well formed.
    pub open spec fn wf(self) -> bool {
        match self {
            PlayerInternalCmd::Progress(p) => p.wf(),
            PlayerInternalCmd::SeekAbsolute(p) => p.wf(),
            _ => true,
        }
    }
}

/// What the loop asks of the world while handling one command: every
/// effect on the output device, plus resolution work and the
/// about-to-finish notification. The caller performs them in order.
#[derive(Clone, Debug)]
pub enum SinkAction {
    /// Resolve the track into a decoded source and, on success, hand
    /// the outcome back through `apply_resolved`.
    Resolve { track: Box<Track>, gapless: bool, enqueue: bool },
    /// Append the freshly decoded source to the sink's queue.
    Append,
    /// Start or resume playback.
    Play,
    /// Pause playback.
    Pause,
    /// Flip between playing and paused.
    TogglePlayback,
    /// Apply a volume in `[0, 100]` to the sink.
    SetVolume { volume: u16 },
    /// Apply a speed in tenths to the sink.
    SetSpeed { speed: i32 },
    /// Seek the sink to an absolute position.
    SeekTo { position: PlayerDuration },
    /// Drop the current source and advance to the next queued one.
    SkipOne,
    /// Arm the sink's one-shot end-of-stream notification.
    MessageOnEnd,
    /// Discard sink and queue, recreating them empty.
    Recreate,
    /// Wait a short fixed settle delay before re-pausing after a seek.
    SettleDelay,
    /// Send the one-shot about-to-finish notification upward.
    NotifyAboutToFinish,
}

/// What the loop reads from the sink before deciding: the elapsed
/// position of the current source and whether playback is paused.
#[derive(Clone, Copy, Debug)]
pub struct SinkView {
    pub elapsed: PlayerDuration,
    pub is_paused: bool,
}

/// The playback engine: the facade's shared snapshot state, the
/// command queue feeding the player loop, and the loop's own state.
///
/// The facade methods only push commands and update the shared cells;
/// the loop drains the queue with `next_command` and decides with
/// `process_command` / `apply_resolved`.
pub struct RustyBackend {
    /// Shared volume cell, clamped to `[0, 100]`.
    pub volume: u16,
    /// Shared speed cell in tenths, clamped to `[1, 30]`.
    pub speed: i32,
    /// Whether tracks are decoded for gapless transitions.
    pub gapless: bool,
    /// Shared position cell, written on each `Progress` command.
    pub position: PlayerDuration,
    /// Total duration of the active track, when the decoder knows it.
    pub total_duration: Option<PlayerDuration>,
    /// Staged duration of the queued next track; committed on `Eos`.
    pub next_duration: Option<PlayerDuration>,
    /// Whether the active source is a live radio stream.
    pub is_radio: bool,
    /// The "now playing" text of a live radio stream.
    pub radio_title: String,
    /// Bytes of the radio stream fetched so far, as reported upward.
    pub radio_downloaded: u64,
    /// Whether the one-shot about-to-finish notification has gone out
    /// for the active track.
    pub about_to_finish_sent: bool,
    /// The FIFO command queue between facade and loop.
    pub cmds: VecDeque<PlayerInternalCmd>,
}

impl RustyBackend {
    /// The engine's internal invariant: shared cells stay in their
    /// documented ranges and every stored duration is well formed.
    pub open spec fn wf(self) -> bool {
        &&& self.volume <= 100
        &&& 1 <= self.speed <= 30
        &&& self.position.wf()
        &&& (self.total_duration matches Some(d) ==> d.wf())
        &&& (self.next_duration matches Some(d) ==> d.wf())
    }

    /// Builds the engine from the configured volume, speed and
    /// gapless flag, clamping both cells into their ranges.
    pub fn new(config: &Settings) -> (r: RustyBackend)
        ensures
            r.wf(),
            r.volume == clamp_volume_spec(config.player_volume),
            r.speed == clamp_speed_spec(config.player_speed as int),
            r.gapless == config.player_gapless,
            r.position.total_nanos() == 0,
            r.total_duration is None,
            r.next_duration is None,
            !r.is_radio,
            r.radio_title@.len() == 0,
            r.radio_downloaded == 100,
            !r.about_to_finish_sent,
            r.cmds@.len() == 0,
    {
        RustyBackend {
            volume: clamp_volume(config.player_volume),
            speed: clamp_speed(config.player_speed),
            gapless: config.player_gapless,
            position: PlayerDuration::zero(),
            total_duration: None,
            next_duration: None,
            is_radio: false,
            radio_title: String::new(),
            radio_downloaded: 100,
            about_to_finish_sent: false,
            cmds: VecDeque::new(),
        }
    }

    /// Enqueues one command for the loop; all facade operations go
    /// through here.
    pub fn command(&mut self, cmd: PlayerInternalCmd)
        ensures
            final(self).cmds@ == old(self).cmds@.push(cmd),
            unchanged_but_cmds(*old(self), *final(self)),
    {
        self.cmds.push_back(cmd);
    }

    /// Takes the next command in FIFO order; the loop's receive step.
    pub fn next_command(&mut self) -> (r: Option<PlayerInternalCmd>)
        ensures
            old(self).cmds@.len() == 0 ==> r is None && final(self).cmds@ == old(self).cmds@,
            old(self).cmds@.len() > 0 ==> r == Some(old(self).cmds@[0]) && final(self).cmds@
                == old(self).cmds@.subrange(1, old(self).cmds@.len() as int),
            unchanged_but_cmds(*old(self), *final(self)),
    {
        self.cmds.pop_front()
    }

    /// Arms the sink's one-shot end-of-stream notification.
    pub fn message_on_end(&mut self)
        ensures
            final(self).cmds@ == old(self).cmds@.push(PlayerInternalCmd::MessageOnEnd),
            unchanged_but_cmds(*old(self), *final(self)),
    {
        self.command(PlayerInternalCmd::MessageOnEnd);
    }

    /// Stages the track for immediate playback and asks the loop to
    /// start it; the caller's play entry point.
    pub fn add_and_play(&mut self, track: &Track)
        ensures
            final(self).cmds@.len() == old(self).cmds@.len() + 2,
            final(self).cmds@.subrange(0, old(self).cmds@.len() as int) == old(self).cmds@,
            final(self).cmds@[old(self).cmds@.len() as int] matches PlayerInternalCmd::Play(
                t,
                gapless,
            ) && t@ == track@ && gapless == old(self).gapless,
            final(self).cmds@.last() == PlayerInternalCmd::Resume,
            unchanged_but_cmds(*old(self), *final(self)),
    {
        let boxed: Box<Track> = Box::new(track.clone());
        self.command(PlayerInternalCmd::Play(boxed, self.gapless));
        self.resume();
        proof {
            assert(final(self).cmds@.subrange(0, old(self).cmds@.len() as int) =~= old(
                self,
            ).cmds@);
        }
    }

    /// Stages the track behind the active one for a gapless handoff.
    pub fn enqueue_next(&mut self, track: &Track)
        ensures
            final(self).cmds@.len() == old(self).cmds@.len() + 1,
            final(self).cmds@.subrange(0, old(self).cmds@.len() as int) == old(self).cmds@,
            final(self).cmds@.last() matches PlayerInternalCmd::QueueNext(t, gapless) && t@
                == track@ && gapless == old(self).gapless,
            unchanged_but_cmds(*old(self), *final(self)),
    {
        let boxed: Box<Track> = Box::new(track.clone());
        self.command(PlayerInternalCmd::QueueNext(boxed, self.gapless));
        proof {
            assert(final(self).cmds@.subrange(0, old(self).cmds@.len() as int) =~= old(
                self,
            ).cmds@);
        }
    }

    pub fn volume(&self) -> (r: u16)
        ensures
            r == self.volume,
    {
        self.volume
    }

    /// Raises the shared volume by one step, clamped to 100.
    pub fn volume_up(&mut self)
        requires
            old(self).wf(),
        ensures
            final(self).wf(),
            final(self).volume == clamp_volume_spec((old(self).volume + VOLUME_STEP) as u16),
            final(self).cmds@ == old(self).cmds@.push(
                PlayerInternalCmd::Volume(final(self).volume),
            ),
            unchanged_but_cmds_volume(*old(self), *final(self)),
    {
        let volume = self.volume.saturating_add(VOLUME_STEP);
        self.set_volume(volume);
    }

    /// Lowers the shared volume by one step, saturating at 0.
    pub fn volume_down(&mut self)
        requires
            old(self).wf(),
        ensures
            final(self).wf(),
            final(self).volume == if old(self).volume >= VOLUME_STEP {
                (old(self).volume - VOLUME_STEP) as u16
            } else {
                0u16
            },
            final(self).cmds@ == old(self).cmds@.push(
                PlayerInternalCmd::Volume(final(self).volume),
            ),
            unchanged_but_cmds_volume(*old(self), *final(self)),
    {
        let volume = self.volume.saturating_sub(VOLUME_STEP);
        self.set_volume(volume);
    }

    /// Stores the volume clamped to `[0, 100]` and forwards it to the
    /// loop.
    pub fn set_volume(&mut self, volume: u16)
        ensures
            old(self).wf() ==> final(self).wf(),
            final(self).volume == clamp_volume_spec(volume),
            final(self).cmds@ == old(self).cmds@.push(
                PlayerInternalCmd::Volume(clamp_volume_spec(volume)),
            ),
            unchanged_but_cmds_volume(*old(self), *final(self)),
    {
        let volume = clamp_volume(volume);
        self.volume = volume;
        self.command(PlayerInternalCmd::Volume(volume));
    }

    /// Asks the loop to flip between playing and paused.
    pub fn pause(&mut self)
        ensures
            final(self).cmds@ == old(self).cmds@.push(PlayerInternalCmd::TogglePause),
            unchanged_but_cmds(*old(self), *final(self)),
    {
        self.command(PlayerInternalCmd::TogglePause);
    }

    /// Asks the loop to resume playback.
    pub fn resume(&mut self)
        ensures
            final(self).cmds@ == old(self).cmds@.push(PlayerInternalCmd::Resume),
            unchanged_but_cmds(*old(self), *final(self)),
    {
        self.command(PlayerInternalCmd::Resume);
    }

    /// The facade does not track the sink's pause state; it always
    /// reports not-paused.
    pub fn is_paused(&self) -> (r: bool)
        ensures
            r == false,
    {
        false
    }

    /// Asks the loop to seek by a relative offset in whole seconds.
    pub fn seek(&mut self, offset: i64) -> (r: Result<(), PlayerError>)
        ensures
            r is Ok,
            final(self).cmds@ == old(self).cmds@.push(PlayerInternalCmd::SeekRelative(offset)),
            unchanged_but_cmds(*old(self), *final(self)),
    {
        self.command(PlayerInternalCmd::SeekRelative(offset));
        Ok(())
    }

    /// Asks the loop to seek to an absolute position.
    pub fn seek_to(&mut self, position: PlayerDuration)
        ensures
            final(self).cmds@ == old(self).cmds@.push(PlayerInternalCmd::SeekAbsolute(position)),
            unchanged_but_cmds(*old(self), *final(self)),
    {
        self.command(PlayerInternalCmd::SeekAbsolute(position));
    }

    /// Raises the speed by one tenth, clamped to 30.
    pub fn speed_up(&mut self)
        requires
            old(self).wf(),
        ensures
            final(self).wf(),
            final(self).speed == clamp_speed_spec(old(self).speed + 1),
            final(self).cmds@ == old(self).cmds@.push(PlayerInternalCmd::Speed(final(self).speed)),
            unchanged_but_cmds_speed(*old(self), *final(self)),
    {
        let speed = self.speed + 1;
        self.set_speed(speed);
    }

    /// Lowers the speed by one tenth, clamped to 1.
    pub fn speed_down(&mut self)
        requires
            old(self).wf(),
        ensures
            final(self).wf(),
            final(self).speed == clamp_speed_spec(old(self).speed - 1),
            final(self).cmds@ == old(self).cmds@.push(PlayerInternalCmd::Speed(final(self).speed)),
            unchanged_but_cmds_speed(*old(self), *final(self)),
    {
        let speed = self.speed - 1;
        self.set_speed(speed);
    }

    /// Stores the speed clamped to `[1, 30]` and forwards it to the
    /// loop.
    pub fn set_speed(&mut self, speed: i32)
        ensures
            old(self).wf() ==> final(self).wf(),
            final(self).speed == clamp_speed_spec(speed as int),
            final(self).cmds@ == old(self).cmds@.push(
                PlayerInternalCmd::Speed(clamp_speed_spec(speed as int)),
            ),
            unchanged_but_cmds_speed(*old(self), *final(self)),
    {
        let speed = clamp_speed(speed);
        self.speed = speed;
        self.command(PlayerInternalCmd::Speed(speed));
    }

    pub fn speed(&self) -> (r: i32)
        ensures
            r == self.speed,
    {
        self.speed
    }

    /// Asks the loop to discard sink and queue.
    pub fn stop(&mut self)
        ensures
            final(self).cmds@ == old(self).cmds@.push(PlayerInternalCmd::Stop),
            unchanged_but_cmds(*old(self), *final(self)),
    {
        self.command(PlayerInternalCmd::Stop);
    }

    /// Reads position and total duration as one atomic snapshot.
    pub fn get_progress(&self) -> (r: Option<PlayerProgress>)
        ensures
            r == Some(
                PlayerProgress {
                    position: Some(self.position),
                    total_duration: self.total_duration,
                },
            ),
    {
        Some(PlayerProgress { position: Some(self.position), total_duration: self.total_duration })
    }

    pub fn gapless(&self) -> (r: bool)
        ensures
            r == self.gapless,
    {
        self.gapless
    }

    pub fn set_gapless(&mut self, to: bool)
        ensures
            final(self).gapless == to,
            final(self).volume == old(self).volume,
            final(self).speed == old(self).speed,
            final(self).position == old(self).position,
            final(self).total_duration == old(self).total_duration,
            final(self).next_duration == old(self).next_duration,
            final(self).is_radio == old(self).is_radio,
            final(self).radio_title == old(self).radio_title,
            final(self).radio_downloaded == old(self).radio_downloaded,
            final(self).about_to_finish_sent == old(self).about_to_finish_sent,
            final(self).cmds@ == old(self).cmds@,
    {
        self.gapless = to;
    }

    /// Asks the loop to drop the current source and advance.
    pub fn skip_one(&mut self)
        ensures
            final(self).cmds@ == old(self).cmds@.push(PlayerInternalCmd::Skip),
            unchanged_but_cmds(*old(self), *final(self)),
    {
        self.command(PlayerInternalCmd::Skip);
    }
}

/// Everything except the command queue is unchanged.
pub open spec fn unchanged_but_cmds(a: RustyBackend, b: RustyBackend) -> bool {
    &&& b.volume == a.volume
    &&& b.speed == a.speed
    &&& b.gapless == a.gapless
    &&& b.position == a.position
    &&& b.total_duration == a.total_duration
    &&& b.next_duration == a.next_duration
    &&& b.is_radio == a.is_radio
    &&& b.radio_title == a.radio_title
    &&& b.radio_downloaded == a.radio_downloaded
    &&& b.about_to_finish_sent == a.about_to_finish_sent
}

/// Everything except the command queue and the volume cell is
/// unchanged.
pub open spec fn unchanged_but_cmds_volume(a: RustyBackend, b: RustyBackend) -> bool {
    &&& b.speed == a.speed
    &&& b.gapless == a.gapless
    &&& b.position == a.position
    &&& b.total_duration == a.total_duration
    &&& b.next_duration == a.next_duration
    &&& b.is_radio == a.is_radio
    &&& b.radio_title == a.radio_title
    &&& b.radio_downloaded == a.radio_downloaded
    &&& b.about_to_finish_sent == a.about_to_finish_sent
}

/// Everything except the command queue and the speed cell is
/// unchanged.
pub open spec fn unchanged_but_cmds_speed(a: RustyBackend, b: RustyBackend) -> bool {
    &&& b.volume == a.volume
    &&& b.gapless == a.gapless
    &&& b.position == a.position
    &&& b.total_duration == a.total_duration
    &&& b.next_duration == a.next_duration
    &&& b.is_radio == a.is_radio
    &&& b.radio_title == a.radio_title
    &&& b.radio_downloaded == a.radio_downloaded
    &&& b.about_to_finish_sent == a.about_to_finish_sent
}

/// What `set_volume` stores: the requested volume clamped to 100.
pub open spec fn clamp_volume_spec(volume: u16) -> u16 {
    if volume > 100 {
        100u16
    } else {
        volume
    }
}

pub fn clamp_volume(volume: u16) -> (r: u16)
    ensures
        r == clamp_volume_spec(volume),
{
    if volume > 100 {
        100
    } else {
        volume
    }
}

/// What `set_speed` stores: the requested speed clamped to `[1, 30]`.
pub open spec fn clamp_speed_spec(speed: int) -> i32 {
    if speed < 1 {
        1i32
    } else if speed > 30 {
        30i32
    } else {
        speed as i32
    }
}

pub fn clamp_speed(speed: i32) -> (r: i32)
    ensures
        r == clamp_speed_spec(speed as int),
{
    if speed < 1 {
        1
    } else if speed > 30 {
        30
    } else {
        speed
    }
}

} // verus!

verus! {

/// Nanoseconds in the two-second window before a track's end inside
/// which the about-to-finish notification may fire.
pub const ABOUT_TO_FINISH_WINDOW_NANOS: u64 = 2_000_000_000;

/// The about-to-finish heuristic: at least half the track has played
/// and less than two seconds remain.
pub open spec fn about_to_finish_cond(pos: PlayerDuration, total: PlayerDuration) -> bool {
    &&& total.total_nanos() > 0
    &&& 2 * pos.total_nanos() >= total.total_nanos()
    &&& total.total_nanos() - pos.total_nanos() < ABOUT_TO_FINISH_WINDOW_NANOS as int
}

/// Whether a progress report at `pos` makes the loop emit the
/// one-shot about-to-finish notification: never for live radio, only
/// with a known total duration, and at most once per track.
pub open spec fn about_to_finish_fires(pre: RustyBackend, pos: PlayerDuration) -> bool {
    &&& !pre.is_radio
    &&& !pre.about_to_finish_sent
    &&& pre.total_duration matches Some(d) && about_to_finish_cond(pos, d)
}

/// Target of a backward relative seek: the elapsed seconds moved by
/// the (non-positive) offset, floored at zero.
pub open spec fn backward_seek_secs(elapsed_secs: int, offset: int) -> u64 {
    if elapsed_secs + offset >= 0 {
        (elapsed_secs + offset) as u64
    } else {
        0u64
    }
}

/// The sink effects of a relative seek. A paused engine is muted
/// first and, after the seek, given a settle delay, re-paused and
/// restored to the real volume. A forward offset is applied only when
/// `elapsed + offset < total - offset`; a backward offset always
/// seeks, floored at the track's start.
pub open spec fn seek_relative_actions(
    volume: u16,
    total_duration: Option<PlayerDuration>,
    sink: SinkView,
    offset: int,
) -> Seq<SinkAction> {
    let mute = if sink.is_paused {
        seq![SinkAction::SetVolume { volume: 0u16 }]
    } else {
        Seq::<SinkAction>::empty()
    };
    let seeks = if offset > 0 {
        match total_duration {
            Some(d) => if sink.elapsed.secs + offset < d.secs - offset {
                seq![
                    SinkAction::SeekTo {
                        position: PlayerDuration { secs: (sink.elapsed.secs + offset) as u64, nanos: 0u32 },
                    },
                ]
            } else {
                Seq::<SinkAction>::empty()
            },
            None => Seq::<SinkAction>::empty(),
        }
    } else {
        seq![
            SinkAction::SeekTo {
                position: PlayerDuration {
                    secs: backward_seek_secs(sink.elapsed.secs as int, offset),
                    nanos: 0u32,
                },
            },
        ]
    };
    let restore = if sink.is_paused {
        seq![SinkAction::SettleDelay, SinkAction::Pause, SinkAction::SetVolume { volume }]
    } else {
        Seq::<SinkAction>::empty()
    };
    mute + seeks + restore
}

/// The engine state after the loop has handled one command.
pub open spec fn step_state(pre: RustyBackend, cmd: PlayerInternalCmd, sink: SinkView) -> RustyBackend {
    match cmd {
        PlayerInternalCmd::Progress(p) => RustyBackend {
            position: p,
            about_to_finish_sent: pre.about_to_finish_sent || about_to_finish_fires(pre, p),
            ..pre
        },
        PlayerInternalCmd::Speed(s) => RustyBackend { speed: clamp_speed_spec(s as int), ..pre },
        PlayerInternalCmd::Volume(v) => RustyBackend { volume: clamp_volume_spec(v), ..pre },
        PlayerInternalCmd::Stop => RustyBackend { about_to_finish_sent: false, ..pre },
        PlayerInternalCmd::Skip => RustyBackend { about_to_finish_sent: false, ..pre },
        PlayerInternalCmd::Eos => RustyBackend {
            total_duration: if pre.next_duration is Some {
                pre.next_duration
            } else {
                pre.total_duration
            },
            next_duration: None,
            about_to_finish_sent: false,
            ..pre
        },
        _ => pre,
    }
}

/// The sink effects of one handled command.
pub open spec fn step_actions(
    pre: RustyBackend,
    cmd: PlayerInternalCmd,
    sink: SinkView,
) -> Seq<SinkAction> {
    match cmd {
        PlayerInternalCmd::Play(track, gapless) => seq![
            SinkAction::Resolve { track, gapless, enqueue: false },
        ],
        PlayerInternalCmd::QueueNext(track, gapless) => seq![
            SinkAction::Resolve { track, gapless, enqueue: true },
        ],
        PlayerInternalCmd::TogglePause => seq![SinkAction::TogglePlayback],
        PlayerInternalCmd::Resume => seq![SinkAction::Play],
        PlayerInternalCmd::Speed(s) => seq![
            SinkAction::SetSpeed { speed: clamp_speed_spec(s as int) },
        ],
        PlayerInternalCmd::Stop => seq![
            SinkAction::Recreate,
            SinkAction::SetSpeed { speed: pre.speed },
            SinkAction::SetVolume { volume: pre.volume },
        ],
        PlayerInternalCmd::Volume(v) => seq![
            SinkAction::SetVolume { volume: clamp_volume_spec(v) },
        ],
        PlayerInternalCmd::Skip => if sink.is_paused {
            seq![SinkAction::SkipOne, SinkAction::Play]
        } else {
            seq![SinkAction::SkipOne]
        },
        PlayerInternalCmd::Progress(p) => if about_to_finish_fires(pre, p) {
            seq![SinkAction::NotifyAboutToFinish]
        } else {
            Seq::<SinkAction>::empty()
        },
        PlayerInternalCmd::SeekAbsolute(p) => seq![SinkAction::SeekTo { position: p }],
        PlayerInternalCmd::SeekRelative(offset) => seek_relative_actions(
            pre.volume,
            pre.total_duration,
            sink,
            offset as int,
        ),
        PlayerInternalCmd::MessageOnEnd => seq![SinkAction::MessageOnEnd],
        PlayerInternalCmd::Eos => Seq::<SinkAction>::empty(),
    }
}

impl RustyBackend {
    /// The player loop's step: handles one command to completion,
    /// updating the shared state and returning the sink effects to
    /// perform, in order. Resolution work comes back as a `Resolve`
    /// action whose outcome the caller reports through
    /// `apply_resolved`.
    pub fn process_command(&mut self, cmd: PlayerInternalCmd, sink: SinkView) -> (actions: Vec<
        SinkAction,
    >)
        requires
            old(self).wf(),
            cmd.wf(),
            sink.elapsed.wf(),
        ensures
            final(self).wf(),
            *final(self) == step_state(*old(self), cmd, sink),
            actions@ =~= step_actions(*old(self), cmd, sink),
    {
        let mut actions: Vec<SinkAction> = Vec::new();
        match cmd {
            PlayerInternalCmd::Play(track, gapless) => {
                actions.push(SinkAction::Resolve { track, gapless, enqueue: false });
            },
            PlayerInternalCmd::QueueNext(track, gapless) => {
                actions.push(SinkAction::Resolve { track, gapless, enqueue: true });
            },
            PlayerInternalCmd::TogglePause => {
                actions.push(SinkAction::TogglePlayback);
            },
            PlayerInternalCmd::Resume => {
                actions.push(SinkAction::Play);
            },
            PlayerInternalCmd::Speed(s) => {
                let speed = clamp_speed(s);
                self.speed = speed;
                actions.push(SinkAction::SetSpeed { speed });
            },
            PlayerInternalCmd::Stop => {
                self.about_to_finish_sent = false;
                actions.push(SinkAction::Recreate);
                actions.push(SinkAction::SetSpeed { speed: self.speed });
                actions.push(SinkAction::SetVolume { volume: self.volume });
            },
            PlayerInternalCmd::Volume(v) => {
                let volume = clamp_volume(v);
                self.volume = volume;
                actions.push(SinkAction::SetVolume { volume });
            },
            PlayerInternalCmd::Skip => {
                self.about_to_finish_sent = false;
                actions.push(SinkAction::SkipOne);
                if sink.is_paused {
                    actions.push(SinkAction::Play);
                }
            },
            PlayerInternalCmd::Progress(new_position) => {
                self.position = new_position;
                let fire = !self.is_radio && !self.about_to_finish_sent && match self
                    .total_duration {
                    Some(d) => {
                        let pos_n: u128 = new_position.total_nanos_u128();
                        let d_n: u128 = d.total_nanos_u128();
                        d_n > 0 && 2 * pos_n >= d_n && (d_n <= pos_n || d_n - pos_n
                            < ABOUT_TO_FINISH_WINDOW_NANOS as u128)
                    },
                    None => false,
                };
                if fire {
                    self.about_to_finish_sent = true;
                    actions.push(SinkAction::NotifyAboutToFinish);
                }
            },
            PlayerInternalCmd::SeekAbsolute(position) => {
                actions.push(SinkAction::SeekTo { position });
            },
            PlayerInternalCmd::SeekRelative(offset) => {
                return seek_relative_plan(self.volume, self.total_duration, sink, offset);
            },
            PlayerInternalCmd::MessageOnEnd => {
                actions.push(SinkAction::MessageOnEnd);
            },
            PlayerInternalCmd::Eos => {
                if self.next_duration.is_some() {
                    self.total_duration = self.next_duration;
                    self.next_duration = None;
                }
                self.about_to_finish_sent = false;
            },
        }
        actions
    }

    /// Commits a successful resolution: records whether the new
    /// source is live radio and stores its reported duration, either
    /// as the active total duration (play) or as the staged next
    /// duration (enqueue). Live radio always reports an unknown
    /// duration. The returned actions append the decoded source and,
    /// for an enqueued track, arm the end-of-stream notification that
    /// later commits the staged duration.
    pub fn apply_resolved(
        &mut self,
        media_type: MediaType,
        enqueue: bool,
        duration: Option<PlayerDuration>,
    ) -> (actions: Vec<SinkAction>)
        requires
            old(self).wf(),
            duration matches Some(d) ==> d.wf(),
        ensures
            final(self).wf(),
            *final(self) == resolved_state(*old(self), media_type, enqueue, duration),
            actions@ =~= resolved_actions(enqueue),
    {
        let is_radio = match media_type {
            MediaType::LiveRadio => true,
            _ => false,
        };
        self.is_radio = is_radio;
        let eff = if is_radio {
            None
        } else {
            duration
        };
        let mut actions: Vec<SinkAction> = Vec::new();
        actions.push(SinkAction::Append);
        if enqueue {
            self.next_duration = eff;
            actions.push(SinkAction::MessageOnEnd);
        } else {
            self.total_duration = eff;
            self.about_to_finish_sent = false;
        }
        actions
    }

    /// Stores a freshly extracted radio title, formatted for display.
    pub fn store_radio_title(&mut self, title: &str)
        ensures
            final(self).radio_title@ == radio_title_text(title@),
            final(self).volume == old(self).volume,
            final(self).speed == old(self).speed,
            final(self).gapless == old(self).gapless,
            final(self).position == old(self).position,
            final(self).total_duration == old(self).total_duration,
            final(self).next_duration == old(self).next_duration,
            final(self).is_radio == old(self).is_radio,
            final(self).radio_downloaded == old(self).radio_downloaded,
            final(self).about_to_finish_sent == old(self).about_to_finish_sent,
            final(self).cmds@ == old(self).cmds@,
    {
        self.radio_title = format_radio_title(title);
    }
}

/// The engine state after a successful resolution has been committed.
pub open spec fn resolved_state(
    pre: RustyBackend,
    media_type: MediaType,
    enqueue: bool,
    duration: Option<PlayerDuration>,
) -> RustyBackend {
    let is_radio = media_type is LiveRadio;
    let eff = if is_radio {
        None
    } else {
        duration
    };
    if enqueue {
        RustyBackend { is_radio, next_duration: eff, ..pre }
    } else {
        RustyBackend { is_radio, total_duration: eff, about_to_finish_sent: false, ..pre }
    }
}

/// The sink effects of a committed resolution.
pub open spec fn resolved_actions(enqueue: bool) -> Seq<SinkAction> {
    if enqueue {
        seq![SinkAction::Append, SinkAction::MessageOnEnd]
    } else {
        seq![SinkAction::Append]
    }
}

/// The display text stored for a radio title: a placeholder for an
/// empty title, otherwise the title behind a fixed prefix.
pub open spec fn radio_title_text(title: Seq<char>) -> Seq<char> {
    if title.len() == 0 {
        "<no title>"@
    } else {
        "Current playing: "@ + title
    }
}

/// Formats a radio title as `radio_title_text` describes.
pub fn format_radio_title(title: &str) -> (r: String)
    ensures
        r@ == radio_title_text(title@),
{
    if title.is_empty() {
        String::from_str("<no title>")
    } else {
        let mut s = String::from_str("Current playing: ");
        s.append(title);
        s
    }
}

fn seek_relative_plan(
    volume: u16,
    total_duration: Option<PlayerDuration>,
    sink: SinkView,
    offset: i64,
) -> (actions: Vec<SinkAction>)
    requires
        sink.elapsed.wf(),
    ensures
        actions@ =~= seek_relative_actions(volume, total_duration, sink, offset as int),
{
    let mut actions: Vec<SinkAction> = Vec::new();
    if sink.is_paused {
        actions.push(SinkAction::SetVolume { volume: 0 });
    }
    if offset > 0 {
        let off = offset as u64;
        if let Some(d) = total_duration {
            let bound = if d.secs >= off {
                d.secs - off
            } else {
                0
            };
            if sink.elapsed.secs <= u64::MAX - off && sink.elapsed.secs + off < bound {
                actions.push(
                    SinkAction::SeekTo {
                        position: PlayerDuration { secs: sink.elapsed.secs + off, nanos: 0 },
                    },
                );
            }
        }
    } else {
        let abs: u64 = (-(offset as i128)) as u64;
        let target = if sink.elapsed.secs >= abs {
            sink.elapsed.secs - abs
        } else {
            0
        };
        actions.push(SinkAction::SeekTo { position: PlayerDuration { secs: target, nanos: 0 } });
    }
    if sink.is_paused {
        actions.push(SinkAction::SettleDelay);
        actions.push(SinkAction::Pause);
        actions.push(SinkAction::SetVolume { volume });
    }
    actions
}

} // verus!

verus! {

/// Law: while no next track is staged, no loop command moves the
/// reported total duration; it changes only when a new resolution
/// commits (play) or a staged duration is handed off on end of
/// stream. With `get_progress` reading `total_duration` directly,
/// the duration a resolved track reports stays visible unchanged
/// until the next play or stop.
pub proof fn lemma_total_duration_stable(
    pre: RustyBackend,
    cmd: PlayerInternalCmd,
    sink: SinkView,
)
    requires
        pre.next_duration is None,
    ensures
        step_state(pre, cmd, sink).total_duration == pre.total_duration,
{
}

/// Law: resuming an already running engine is idempotent; the loop
/// state is untouched and the only effect is the sink's (no-op when
/// already playing) play call.
pub proof fn lemma_resume_idempotent(pre: RustyBackend, sink: SinkView)
    ensures
        step_state(pre, PlayerInternalCmd::Resume, sink) == pre,
        step_actions(pre, PlayerInternalCmd::Resume, sink) == seq![SinkAction::Play],
{
}

/// Law: across play(A), queue-next(B), end-of-stream, the total
/// duration moves exactly once, from A's to B's, and the staged slot
/// is empty again afterwards.
pub proof fn lemma_gapless_handoff(
    pre: RustyBackend,
    kind_a: MediaType,
    kind_b: MediaType,
    dur_a: PlayerDuration,
    dur_b: PlayerDuration,
    sink: SinkView,
)
    requires
        !(kind_a is LiveRadio),
        !(kind_b is LiveRadio),
    ensures
        ({
            let after_play = resolved_state(pre, kind_a, false, Some(dur_a));
            let after_queue = resolved_state(after_play, kind_b, true, Some(dur_b));
            let after_eos = step_state(after_queue, PlayerInternalCmd::Eos, sink);
            &&& after_play.total_duration == Some(dur_a)
            &&& after_queue.total_duration == Some(dur_a)
            &&& after_queue.next_duration == Some(dur_b)
            &&& after_eos.total_duration == Some(dur_b)
            &&& after_eos.next_duration is None
        }),
{
}

/// Law: the about-to-finish notification fires only when at least
/// half the track has played and under two seconds remain, never
/// while live radio is active, and at most once per track: a report
/// that fired it suppresses it for every later report until a new
/// track becomes active.
pub proof fn lemma_about_to_finish_once(
    pre: RustyBackend,
    p1: PlayerDuration,
    p2: PlayerDuration,
    sink: SinkView,
)
    ensures
        ({
            let acts1 = step_actions(pre, PlayerInternalCmd::Progress(p1), sink);
            let mid = step_state(pre, PlayerInternalCmd::Progress(p1), sink);
            let acts2 = step_actions(mid, PlayerInternalCmd::Progress(p2), sink);
            &&& (acts1.contains(SinkAction::NotifyAboutToFinish) ==> !pre.is_radio && (
            pre.total_duration matches Some(d) && about_to_finish_cond(p1, d)))
            &&& (pre.is_radio ==> !acts1.contains(SinkAction::NotifyAboutToFinish))
            &&& (acts1.contains(SinkAction::NotifyAboutToFinish) ==> !acts2.contains(
                SinkAction::NotifyAboutToFinish,
            ))
        }),
{
    let acts1 = step_actions(pre, PlayerInternalCmd::Progress(p1), sink);
    let mid = step_state(pre, PlayerInternalCmd::Progress(p1), sink);
    let acts2 = step_actions(mid, PlayerInternalCmd::Progress(p2), sink);
    if about_to_finish_fires(pre, p1) {
        assert(acts1[0] == SinkAction::NotifyAboutToFinish);
        assert(mid.about_to_finish_sent);
        assert(acts2.len() == 0);
        assert(!acts2.contains(SinkAction::NotifyAboutToFinish));
    } else {
        assert(acts1.len() == 0);
        assert(!acts1.contains(SinkAction::NotifyAboutToFinish));
    }
}

/// Law: a relative seek never yields an out-of-range target. A
/// forward seek is applied only when its whole-second target stays
/// strictly below the known total duration; a backward seek never
/// goes below the track's start; and the loop state is untouched, so
/// an overlong offset simply leaves the position where it was.
pub proof fn lemma_seek_relative_in_range(pre: RustyBackend, sink: SinkView, offset: int)
    ensures
        step_state(pre, PlayerInternalCmd::SeekRelative(offset as i64), sink) == pre,
        ({
            let acts = seek_relative_actions(pre.volume, pre.total_duration, sink, offset);
            forall|i: int|
                0 <= i < acts.len() ==> (#[trigger] acts[i] matches SinkAction::SeekTo { position }
                    ==> position.wf() && (offset > 0 ==> (pre.total_duration matches Some(d)
                    && position.secs < d.secs)) && (offset <= 0 ==> position.secs
                    <= sink.elapsed.secs))
        }),
{
    let acts = seek_relative_actions(pre.volume, pre.total_duration, sink, offset);
    let mute: Seq<SinkAction> = if sink.is_paused {
        seq![SinkAction::SetVolume { volume: 0u16 }]
    } else {
        Seq::<SinkAction>::empty()
    };
    let restore: Seq<SinkAction> = if sink.is_paused {
        seq![
            SinkAction::SettleDelay,
            SinkAction::Pause,
            SinkAction::SetVolume { volume: pre.volume },
        ]
    } else {
        Seq::<SinkAction>::empty()
    };
    assert forall|i: int|
        0 <= i < acts.len() implies (#[trigger] acts[i] matches SinkAction::SeekTo { position }
        ==> position.wf() && (offset > 0 ==> (pre.total_duration matches Some(d) && position.secs
        < d.secs)) && (offset <= 0 ==> position.secs <= sink.elapsed.secs)) by {
        if offset > 0 {
            match pre.total_duration {
                Some(d) => {
                    if sink.elapsed.secs + offset < d.secs - offset {
                        assert(acts =~= mute + seq![
                            SinkAction::SeekTo {
                                position: PlayerDuration {
                                    secs: (sink.elapsed.secs + offset) as u64,
                                    nanos: 0u32,
                                },
                            },
                        ] + restore);
                    } else {
                        assert(acts =~= mute + Seq::<SinkAction>::empty() + restore);
                    }
                },
                None => {
                    assert(acts =~= mute + Seq::<SinkAction>::empty() + restore);
                },
            }
        } else {
            assert(acts =~= mute + seq![
                SinkAction::SeekTo {
                    position: PlayerDuration {
                        secs: backward_seek_secs(sink.elapsed.secs as int, offset),
                        nanos: 0u32,
                    },
                },
            ] + restore);
        }
    }
}

} // verus!
