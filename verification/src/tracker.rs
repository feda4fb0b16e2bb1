//! The playback tracker.
//!
//! One track at most is tracked at a time. Each telemetry event either starts
//! a new track, which may be announced as now playing, or advances the
//! current one, which is scrobbled once, when the time listened first reaches
//! the configured share of its duration.

use vstd::prelude::*;
use crate::clock::millis_now;
use crate::config::ScrobbleConfig;

verus! {

/// One report of the page script: what is playing, and where in the track.
#[derive(Debug)]
pub struct PlaybackPayload {
    pub track_id: String,
    pub title: String,
    pub artist: String,
    pub album: Option<String>,
    pub duration_ms: u64,
    pub position_ms: u64,
    pub paused: bool,
    pub ts: u64,
}

/// The track that is being followed.
#[derive(Debug)]
pub struct TrackState {
    pub track_id: String,
    pub title: String,
    pub artist: String,
    pub album: Option<String>,
    pub duration_ms: u64,
    /// Wall-clock time, in milliseconds, at which the track began.
    pub started_at: u64,
    /// Time listened so far, in milliseconds; it never decreases.
    pub listened_ms: u64,
    /// The position of the last report.
    pub last_pos_ms: u64,
    pub scrobbled: bool,
    pub now_playing_sent: bool,
}

/// The tracker's whole state: the current track, if there is one.
#[derive(Debug)]
pub struct ScrobbleState {
    pub current: Option<TrackState>,
}

/// What one event asks to be sent, each with the track as it was at that
/// instant.
#[derive(Debug)]
pub struct PlaybackActions {
    pub now_playing: Option<TrackState>,
    pub scrobble: Option<TrackState>,
}

/// The time that must be listened to before a track of `duration_ms` is
/// scrobbled: the duration times the threshold, rounded to the nearest
/// millisecond, halves upwards.
pub open spec fn threshold_ms(duration_ms: u64, threshold: u32) -> u64 {
    let exact = (duration_ms as int * threshold as int + 500_000) / 1_000_000;
    if exact > u64::MAX {
        u64::MAX
    } else {
        exact as u64
    }
}

/// The event names a title, an artist and a duration.
pub open spec fn payload_complete(p: PlaybackPayload) -> bool {
    p.duration_ms != 0 && p.title@.len() > 0 && p.artist@.len() > 0
}

/// The event is for another track than the current one, or there is none.
pub open spec fn is_new_track(current: Option<TrackState>, p: PlaybackPayload) -> bool {
    match current {
        Some(t) => t.track_id@ != p.track_id@,
        None => true,
    }
}

/// The track as it is first seen at time `now`, before anything is sent.
pub open spec fn fresh_track(p: PlaybackPayload, now: u64) -> TrackState {
    TrackState {
        track_id: p.track_id,
        title: p.title,
        artist: p.artist,
        album: p.album,
        duration_ms: p.duration_ms,
        started_at: if now >= p.position_ms {
            (now - p.position_ms) as u64
        } else {
            0
        },
        listened_ms: 0,
        last_pos_ms: p.position_ms,
        scrobbled: false,
        now_playing_sent: false,
    }
}

/// The time listened after a report of `position_ms`: forward movement while
/// playing is added, and nothing else is.
pub open spec fn listened_after(t: TrackState, p: PlaybackPayload) -> u64 {
    if p.paused || p.position_ms <= t.last_pos_ms {
        t.listened_ms
    } else if t.listened_ms + (p.position_ms - t.last_pos_ms) > u64::MAX {
        u64::MAX
    } else {
        (t.listened_ms + (p.position_ms - t.last_pos_ms)) as u64
    }
}

/// The current track after the report was counted, before the threshold is
/// looked at.
pub open spec fn advanced(t: TrackState, p: PlaybackPayload) -> TrackState {
    TrackState { listened_ms: listened_after(t, p), last_pos_ms: p.position_ms, ..t }
}

/// The track is due for its scrobble.
pub open spec fn crosses_threshold(t: TrackState, cfg: ScrobbleConfig) -> bool {
    !t.scrobbled && t.listened_ms >= threshold_ms(t.duration_ms, cfg.threshold) && t.duration_ms
        > 0
}

/// The event is acted upon: scrobbling is on and the event is complete.
pub open spec fn counted(cfg: ScrobbleConfig, p: PlaybackPayload) -> bool {
    cfg.enable_scrobble && payload_complete(p)
}

/// The current track after the event `p`, received at time `now`.
pub open spec fn next_track(
    current: Option<TrackState>,
    cfg: ScrobbleConfig,
    p: PlaybackPayload,
    now: u64,
) -> Option<TrackState> {
    if !counted(cfg, p) {
        current
    } else if is_new_track(current, p) {
        Some(TrackState { now_playing_sent: cfg.enable_now_playing, ..fresh_track(p, now) })
    } else {
        let t = advanced(current->Some_0, p);
        Some(TrackState { scrobbled: t.scrobbled || crosses_threshold(t, cfg), ..t })
    }
}

/// What the event `p`, received at time `now`, asks to be sent.
pub open spec fn emitted(
    current: Option<TrackState>,
    cfg: ScrobbleConfig,
    p: PlaybackPayload,
    now: u64,
) -> PlaybackActions {
    if !counted(cfg, p) {
        PlaybackActions { now_playing: None, scrobble: None }
    } else if is_new_track(current, p) {
        PlaybackActions {
            now_playing: if cfg.enable_now_playing {
                Some(fresh_track(p, now))
            } else {
                None
            },
            scrobble: None,
        }
    } else {
        let t = advanced(current->Some_0, p);
        PlaybackActions {
            now_playing: None,
            scrobble: if crosses_threshold(t, cfg) {
                Some(TrackState { scrobbled: true, ..t })
            } else {
                None
            },
        }
    }
}

/// The event asks for a scrobble.
pub open spec fn fires(
    current: Option<TrackState>,
    cfg: ScrobbleConfig,
    p: PlaybackPayload,
    now: u64,
) -> bool {
    emitted(current, cfg, p, now).scrobble is Some
}

/// Computes `threshold_ms`.
pub fn scrobble_threshold_ms(duration_ms: u64, threshold: u32) -> (ms: u64)
    ensures
        ms == threshold_ms(duration_ms, threshold),
{
    let d: u128 = duration_ms as u128;
    let t: u128 = threshold as u128;
    assert(d * t + 500_000 <= 0xffff_ffff_ffff_ffff * 0xffff_ffff + 500_000) by (nonlinear_arith)
        requires
            0 <= d <= 0xffff_ffff_ffff_ffff,
            0 <= t <= 0xffff_ffff,
    ;
    let exact: u128 = (d * t + 500_000) / 1_000_000;
    if exact > 0xffff_ffff_ffff_ffff {
        u64::MAX
    } else {
        exact as u64
    }
}

fn copy_text(s: &Option<String>) -> (copy: Option<String>)
    ensures
        copy == *s,
{
    match s {
        Some(text) => Some(text.clone()),
        None => None,
    }
}

impl Clone for TrackState {
    fn clone(&self) -> (copy: TrackState)
        ensures
            copy == *self,
    {
        TrackState {
            track_id: self.track_id.clone(),
            title: self.title.clone(),
            artist: self.artist.clone(),
            album: copy_text(&self.album),
            duration_ms: self.duration_ms,
            started_at: self.started_at,
            listened_ms: self.listened_ms,
            last_pos_ms: self.last_pos_ms,
            scrobbled: self.scrobbled,
            now_playing_sent: self.now_playing_sent,
        }
    }
}

impl PlaybackPayload {
    /// Whether the event names a title, an artist and a duration.
    pub fn is_complete(&self) -> (complete: bool)
        ensures
            complete == payload_complete(*self),
    {
        self.duration_ms != 0 && !self.title.as_str().is_empty() && !self.artist.as_str().is_empty()
    }
}

impl TrackState {
    /// The track of the event `p`, first seen at time `now`: it began
    /// `position_ms` before `now`, nothing was listened to yet and nothing
    /// was sent.
    pub fn start(p: &PlaybackPayload, now: u64) -> (t: TrackState)
        ensures
            t == fresh_track(*p, now),
    {
        TrackState {
            track_id: p.track_id.clone(),
            title: p.title.clone(),
            artist: p.artist.clone(),
            album: copy_text(&p.album),
            duration_ms: p.duration_ms,
            started_at: now.saturating_sub(p.position_ms),
            listened_ms: 0,
            last_pos_ms: p.position_ms,
            scrobbled: false,
            now_playing_sent: false,
        }
    }

    /// Counts a report for this track: forward movement while playing is
    /// added to the time listened, and the position is remembered.
    pub fn advance(&mut self, p: &PlaybackPayload)
        ensures
            *final(self) == advanced(*old(self), *p),
    {
        let delta: u64 = if p.position_ms > self.last_pos_ms {
            p.position_ms - self.last_pos_ms
        } else {
            0
        };
        if !p.paused {
            self.listened_ms = self.listened_ms.saturating_add(delta);
        }
        self.last_pos_ms = p.position_ms;
    }

    /// Whether the scrobble of this track is due under `cfg`.
    pub fn due(&self, cfg: &ScrobbleConfig) -> (due: bool)
        ensures
            due == crosses_threshold(*self, *cfg),
    {
        !self.scrobbled && self.listened_ms >= scrobble_threshold_ms(
            self.duration_ms,
            cfg.threshold,
        ) && self.duration_ms > 0
    }
}

impl ScrobbleState {
    /// Every tracked track has a duration.
    pub open spec fn wf(&self) -> bool {
        self.current matches Some(t) ==> t.duration_ms > 0
    }

    /// The state in which nothing is tracked.
    pub fn new() -> (state: ScrobbleState)
        ensures
            state.current is None,
            state.wf(),
    {
        ScrobbleState { current: None }
    }

    /// Applies one telemetry event, received at time `now`.
    ///
    /// With scrobbling switched off, or for an event without title, artist or
    /// duration, nothing changes and nothing is sent. An event for another
    /// track replaces the current one and asks for a now-playing
    /// announcement if those are on. An event for the current track adds to
    /// the time listened and asks for the scrobble when it becomes due. Each
    /// action carries the track as it was at that instant.
    pub fn observe(&mut self, cfg: &ScrobbleConfig, p: &PlaybackPayload, now: u64) -> (actions:
        PlaybackActions)
        ensures
            final(self).current == next_track(old(self).current, *cfg, *p, now),
            actions == emitted(old(self).current, *cfg, *p, now),
            old(self).wf() ==> final(self).wf(),
    {
        if !cfg.enable_scrobble || !p.is_complete() {
            return PlaybackActions { now_playing: None, scrobble: None };
        }
        match self.current.take() {
            Some(mut t) => {
                if t.track_id == p.track_id {
                    t.advance(p);
                    let mut scrobble: Option<TrackState> = None;
                    if t.due(cfg) {
                        t.scrobbled = true;
                        scrobble = Some(t.clone());
                    }
                    self.current = Some(t);
                    PlaybackActions { now_playing: None, scrobble }
                } else {
                    self.begin(cfg, p, now)
                }
            },
            None => self.begin(cfg, p, now),
        }
    }

    /// Whether the event `p` is for the track that is current.
    pub fn follows(&self, p: &PlaybackPayload) -> (same: bool)
        ensures
            same == !is_new_track(self.current, *p),
    {
        match &self.current {
            Some(t) => t.track_id == p.track_id,
            None => false,
        }
    }

    /// Replaces the current track by the one of the event `p`.
    fn begin(&mut self, cfg: &ScrobbleConfig, p: &PlaybackPayload, now: u64) -> (actions:
        PlaybackActions)
        ensures
            final(self).current == Some(
                TrackState { now_playing_sent: cfg.enable_now_playing, ..fresh_track(*p, now) },
            ),
            actions.scrobble is None,
            actions.now_playing == if cfg.enable_now_playing {
                Some(fresh_track(*p, now))
            } else {
                None::<TrackState>
            },
    {
        let mut t = TrackState::start(p, now);
        let mut now_playing: Option<TrackState> = None;
        if cfg.enable_now_playing {
            now_playing = Some(t.clone());
            t.now_playing_sent = true;
        }
        self.current = Some(t);
        PlaybackActions { now_playing, scrobble: None }
    }
}

/// Handles one telemetry event as it arrives; `linked` says whether an
/// account is connected and the keys of the service are at hand.
///
/// Without them nothing changes and nothing is sent. With them the event is
/// applied as `ScrobbleState::observe` applies it, and a track that starts
/// with this event is dated by the clock as it stands now.
pub fn handle_playback(
    state: &mut ScrobbleState,
    cfg: &ScrobbleConfig,
    linked: bool,
    payload: &PlaybackPayload,
) -> (actions: PlaybackActions)
    ensures
        !linked ==> final(state).current == old(state).current && actions.now_playing is None
            && actions.scrobble is None,
        linked ==> exists|now: u64|
            final(state).current == #[trigger] next_track(old(state).current, *cfg, *payload, now)
                && actions == emitted(old(state).current, *cfg, *payload, now),
        old(state).wf() ==> final(state).wf(),
{
    if !cfg.enable_scrobble || !payload.is_complete() || !linked {
        assert(linked ==> next_track(state.current, *cfg, *payload, 0) == state.current);
        return PlaybackActions { now_playing: None, scrobble: None };
    }
    let now: u64 = if state.follows(payload) {
        0
    } else {
        millis_now()
    };
    state.observe(cfg, payload, now)
}

} // verus!
