//! What holds of the tracker over whole streams of events.
//!
//! A stream is a sequence of events, each with the time at which it was
//! received. The statements here are about `next_track` and `emitted`, the
//! functions that `ScrobbleState::observe` computes.

use vstd::prelude::*;
use crate::config::ScrobbleConfig;
use crate::tracker::{
    counted, emitted, fires, is_new_track, next_track, payload_complete, threshold_ms,
    PlaybackPayload, TrackState,
};

verus! {

/// The current track after the first `n` events of the stream.
pub open spec fn state_after(
    current: Option<TrackState>,
    cfg: ScrobbleConfig,
    events: Seq<(PlaybackPayload, u64)>,
    n: nat,
) -> Option<TrackState>
    decreases n,
{
    if n == 0 {
        current
    } else {
        next_track(
            state_after(current, cfg, events, (n - 1) as nat),
            cfg,
            events[n - 1].0,
            events[n - 1].1,
        )
    }
}

/// Event `i` of the stream asks for a scrobble.
pub open spec fn fires_at(
    current: Option<TrackState>,
    cfg: ScrobbleConfig,
    events: Seq<(PlaybackPayload, u64)>,
    i: int,
) -> bool {
    fires(state_after(current, cfg, events, i as nat), cfg, events[i].0, events[i].1)
}

/// The time listened once event `i` of the stream was counted.
pub open spec fn listened_at(
    current: Option<TrackState>,
    cfg: ScrobbleConfig,
    events: Seq<(PlaybackPayload, u64)>,
    i: int,
) -> u64 {
    state_after(current, cfg, events, (i + 1) as nat)->Some_0.listened_ms
}

/// A track is current, scrobbling is on, and every event of the stream is
/// complete and for that track.
pub open spec fn single_track(
    current: Option<TrackState>,
    cfg: ScrobbleConfig,
    events: Seq<(PlaybackPayload, u64)>,
) -> bool {
    &&& current is Some
    &&& cfg.enable_scrobble
    &&& forall|i: int|
        0 <= i < events.len() ==> payload_complete((#[trigger] events[i]).0)
            && events[i].0.track_id@ == current->Some_0.track_id@
}

/// An event for the current track never takes away from the time listened,
/// and one whose position is not ahead of the last one adds nothing: a jump
/// backwards counts as no movement.
pub proof fn lemma_listened_never_decreases(
    current: Option<TrackState>,
    cfg: ScrobbleConfig,
    p: PlaybackPayload,
    now: u64,
)
    requires
        current is Some,
        !is_new_track(current, p),
    ensures
        next_track(current, cfg, p, now) is Some,
        next_track(current, cfg, p, now)->Some_0.listened_ms >= current->Some_0.listened_ms,
        p.position_ms <= current->Some_0.last_pos_ms ==> next_track(
            current,
            cfg,
            p,
            now,
        )->Some_0.listened_ms == current->Some_0.listened_ms,
{
}

/// An event for the current track never takes back a flag: a track that was
/// scrobbled stays scrobbled, and one that was announced stays announced.
pub proof fn lemma_flags_are_sticky(
    current: Option<TrackState>,
    cfg: ScrobbleConfig,
    p: PlaybackPayload,
    now: u64,
)
    requires
        current is Some,
        !is_new_track(current, p),
    ensures
        next_track(current, cfg, p, now) is Some,
        current->Some_0.scrobbled ==> next_track(current, cfg, p, now)->Some_0.scrobbled,
        current->Some_0.now_playing_sent ==> next_track(
            current,
            cfg,
            p,
            now,
        )->Some_0.now_playing_sent,
        current->Some_0.scrobbled ==> !fires(current, cfg, p, now),
{
}

/// A counted event for another track than the current one starts over: the
/// new track has listened to nothing and is not scrobbled, and it is
/// announced, with the flag set, exactly if announcements are on. The event
/// itself asks for no scrobble.
pub proof fn lemma_track_switch_starts_over(
    current: Option<TrackState>,
    cfg: ScrobbleConfig,
    p: PlaybackPayload,
    now: u64,
)
    requires
        counted(cfg, p),
        is_new_track(current, p),
    ensures
        next_track(current, cfg, p, now) is Some,
        next_track(current, cfg, p, now)->Some_0.track_id@ == p.track_id@,
        next_track(current, cfg, p, now)->Some_0.listened_ms == 0,
        next_track(current, cfg, p, now)->Some_0.last_pos_ms == p.position_ms,
        !next_track(current, cfg, p, now)->Some_0.scrobbled,
        next_track(current, cfg, p, now)->Some_0.now_playing_sent == cfg.enable_now_playing,
        emitted(current, cfg, p, now).now_playing is Some <==> cfg.enable_now_playing,
        emitted(current, cfg, p, now).now_playing matches Some(sent) ==> sent.track_id@
            == p.track_id@,
        !fires(current, cfg, p, now),
{
}

/// Along a stream for one track, the track stays the current one with its
/// duration, and once an event was counted it is scrobbled exactly if it was
/// scrobbled before the stream or the time listened has reached the
/// threshold.
proof fn lemma_single_track_state(
    current: Option<TrackState>,
    cfg: ScrobbleConfig,
    events: Seq<(PlaybackPayload, u64)>,
    n: nat,
)
    requires
        single_track(current, cfg, events),
        n <= events.len(),
    ensures
        state_after(current, cfg, events, n) is Some,
        state_after(current, cfg, events, n)->Some_0.track_id@ == current->Some_0.track_id@,
        state_after(current, cfg, events, n)->Some_0.duration_ms == current->Some_0.duration_ms,
        state_after(current, cfg, events, n)->Some_0.listened_ms >= current->Some_0.listened_ms,
        n > 0 && current->Some_0.duration_ms > 0 ==> (state_after(
            current,
            cfg,
            events,
            n,
        )->Some_0.scrobbled <==> current->Some_0.scrobbled || state_after(
            current,
            cfg,
            events,
            n,
        )->Some_0.listened_ms >= threshold_ms(current->Some_0.duration_ms, cfg.threshold)),
        n == 0 ==> state_after(current, cfg, events, n) == current,
    decreases n,
{
    if n > 0 {
        lemma_single_track_state(current, cfg, events, (n - 1) as nat);
        let before = state_after(current, cfg, events, (n - 1) as nat);
        let e = events[n - 1];
        assert(payload_complete(e.0) && e.0.track_id@ == current->Some_0.track_id@);
        lemma_listened_never_decreases(before, cfg, e.0, e.1);
    }
}

/// Along a stream for one track, the time listened never decreases.
proof fn lemma_single_track_listened_grows(
    current: Option<TrackState>,
    cfg: ScrobbleConfig,
    events: Seq<(PlaybackPayload, u64)>,
    m: nat,
    n: nat,
)
    requires
        single_track(current, cfg, events),
        m <= n <= events.len(),
    ensures
        state_after(current, cfg, events, m)->Some_0.listened_ms <= state_after(
            current,
            cfg,
            events,
            n,
        )->Some_0.listened_ms,
    decreases n,
{
    if m < n {
        lemma_single_track_listened_grows(current, cfg, events, m, (n - 1) as nat);
        lemma_single_track_state(current, cfg, events, (n - 1) as nat);
        let before = state_after(current, cfg, events, (n - 1) as nat);
        let e = events[n - 1];
        assert(payload_complete(e.0) && e.0.track_id@ == current->Some_0.track_id@);
        lemma_listened_never_decreases(before, cfg, e.0, e.1);
    }
}

/// Along a stream of events for the current track, which is not scrobbled
/// yet, the scrobble is asked for by the first event after which the time
/// listened has reached the threshold, and by that event only.
pub proof fn lemma_scrobble_at_first_crossing(
    current: Option<TrackState>,
    cfg: ScrobbleConfig,
    events: Seq<(PlaybackPayload, u64)>,
    i: int,
)
    requires
        single_track(current, cfg, events),
        current->Some_0.duration_ms > 0,
        !current->Some_0.scrobbled,
        0 <= i < events.len(),
    ensures
        fires_at(current, cfg, events, i) <==> listened_at(current, cfg, events, i) >= threshold_ms(
            current->Some_0.duration_ms,
            cfg.threshold,
        ) && forall|j: int|
            0 <= j < i ==> #[trigger] listened_at(current, cfg, events, j) < threshold_ms(
                current->Some_0.duration_ms,
                cfg.threshold,
            ),
{
    let limit = threshold_ms(current->Some_0.duration_ms, cfg.threshold);
    lemma_single_track_state(current, cfg, events, i as nat);
    lemma_single_track_state(current, cfg, events, (i + 1) as nat);
    let before = state_after(current, cfg, events, i as nat);
    let e = events[i];
    assert(payload_complete(e.0) && e.0.track_id@ == current->Some_0.track_id@);
    assert(state_after(current, cfg, events, (i + 1) as nat) == next_track(
        before,
        cfg,
        e.0,
        e.1,
    ));
    assert(fires_at(current, cfg, events, i) <==> !before->Some_0.scrobbled && listened_at(
        current,
        cfg,
        events,
        i,
    ) >= limit);
    if i > 0 {
        assert(before->Some_0.scrobbled <==> listened_at(current, cfg, events, i - 1) >= limit);
        assert forall|j: int| 0 <= j < i implies #[trigger] listened_at(current, cfg, events, j)
            <= listened_at(current, cfg, events, i - 1) by {
            lemma_single_track_listened_grows(current, cfg, events, (j + 1) as nat, i as nat);
        }
    }
}

/// Along a stream of events for the current track, which is not scrobbled
/// yet, the scrobble is asked for no later than the time listened reaches
/// the threshold.
pub proof fn lemma_scrobble_when_reached(
    current: Option<TrackState>,
    cfg: ScrobbleConfig,
    events: Seq<(PlaybackPayload, u64)>,
    k: int,
)
    requires
        single_track(current, cfg, events),
        current->Some_0.duration_ms > 0,
        !current->Some_0.scrobbled,
        0 <= k < events.len(),
        listened_at(current, cfg, events, k) >= threshold_ms(
            current->Some_0.duration_ms,
            cfg.threshold,
        ),
    ensures
        exists|i: int| 0 <= i <= k && #[trigger] fires_at(current, cfg, events, i),
    decreases k,
{
    let limit = threshold_ms(current->Some_0.duration_ms, cfg.threshold);
    if k > 0 && listened_at(current, cfg, events, k - 1) >= limit {
        lemma_scrobble_when_reached(current, cfg, events, k - 1);
    } else {
        assert forall|j: int| 0 <= j < k implies #[trigger] listened_at(current, cfg, events, j)
            < limit by {
            lemma_single_track_listened_grows(current, cfg, events, (j + 1) as nat, k as nat);
        }
        lemma_scrobble_at_first_crossing(current, cfg, events, k);
        assert(fires_at(current, cfg, events, k));
    }
}

/// The events of a stream after its first one.
pub open spec fn later_events(events: Seq<(PlaybackPayload, u64)>) -> Seq<(PlaybackPayload, u64)> {
    events.subrange(1, events.len() as int)
}

/// Scrobbling is on, the stream is not empty, every event of it is complete
/// and for one track, and that track is not the current one.
pub open spec fn new_track_stream(
    current: Option<TrackState>,
    cfg: ScrobbleConfig,
    events: Seq<(PlaybackPayload, u64)>,
) -> bool {
    &&& cfg.enable_scrobble
    &&& events.len() > 0
    &&& is_new_track(current, events[0].0)
    &&& forall|i: int|
        0 <= i < events.len() ==> payload_complete((#[trigger] events[i]).0)
            && events[i].0.track_id@ == events[0].0.track_id@
}

/// The state after the first event and `n` more is the state after `n` of
/// the later events, taken from the state after the first.
proof fn lemma_state_after_first(
    current: Option<TrackState>,
    cfg: ScrobbleConfig,
    events: Seq<(PlaybackPayload, u64)>,
    n: nat,
)
    requires
        0 < events.len(),
        n < events.len(),
    ensures
        state_after(current, cfg, events, n + 1) == state_after(
            next_track(current, cfg, events[0].0, events[0].1),
            cfg,
            later_events(events),
            n,
        ),
    decreases n,
{
    if n > 0 {
        lemma_state_after_first(current, cfg, events, (n - 1) as nat);
        assert(later_events(events)[n - 1] == events[n as int]);
    } else {
        assert(state_after(current, cfg, events, 0) == current);
    }
}

/// Along a stream of events for one track that starts with the track's first
/// event, the first event starts the track and asks for no scrobble; the
/// scrobble is asked for by the first later event after which the time
/// listened has reached the threshold, and by that event only.
pub proof fn lemma_new_track_scrobbles_once(
    current: Option<TrackState>,
    cfg: ScrobbleConfig,
    events: Seq<(PlaybackPayload, u64)>,
    i: int,
)
    requires
        new_track_stream(current, cfg, events),
        0 <= i < events.len(),
    ensures
        fires_at(current, cfg, events, i) <==> i > 0 && listened_at(current, cfg, events, i)
            >= threshold_ms(events[0].0.duration_ms, cfg.threshold) && forall|j: int|
            0 < j < i ==> #[trigger] listened_at(current, cfg, events, j) < threshold_ms(
                events[0].0.duration_ms,
                cfg.threshold,
            ),
{
    let limit = threshold_ms(events[0].0.duration_ms, cfg.threshold);
    let first = next_track(current, cfg, events[0].0, events[0].1);
    let rest = later_events(events);
    assert(payload_complete(events[0].0));
    lemma_track_switch_starts_over(current, cfg, events[0].0, events[0].1);
    if i > 0 {
        assert forall|k: int| 0 <= k < rest.len() implies payload_complete((#[trigger] rest[k]).0)
            && rest[k].0.track_id@ == first->Some_0.track_id@ by {
            assert(rest[k] == events[k + 1]);
        }
        assert(single_track(first, cfg, rest));
        lemma_state_after_first(current, cfg, events, (i - 1) as nat);
        lemma_state_after_first(current, cfg, events, i as nat);
        assert(rest[i - 1] == events[i]);
        assert(fires_at(current, cfg, events, i) == fires_at(first, cfg, rest, i - 1));
        assert(listened_at(current, cfg, events, i) == listened_at(first, cfg, rest, i - 1));
        lemma_scrobble_at_first_crossing(first, cfg, rest, i - 1);
        assert forall|j: int| 0 < j < i implies #[trigger] listened_at(current, cfg, events, j)
            == listened_at(first, cfg, rest, j - 1) by {
            lemma_state_after_first(current, cfg, events, j as nat);
        }
        if forall|j: int| 0 < j < i ==> #[trigger] listened_at(current, cfg, events, j) < limit {
            assert forall|k: int| 0 <= k < i - 1 implies #[trigger] listened_at(
                first,
                cfg,
                rest,
                k,
            ) < limit by {
                assert(listened_at(current, cfg, events, k + 1) == listened_at(
                    first,
                    cfg,
                    rest,
                    k,
                ));
            }
        }
        if forall|k: int| 0 <= k < i - 1 ==> #[trigger] listened_at(first, cfg, rest, k) < limit {
            assert forall|j: int| 0 < j < i implies #[trigger] listened_at(
                current,
                cfg,
                events,
                j,
            ) < limit by {
                assert(listened_at(first, cfg, rest, j - 1) < limit);
            }
        }
    } else {
        assert(state_after(current, cfg, events, 0) == current);
    }
}

/// Along a stream of events for the current track, at most one event asks
/// for a scrobble.
pub proof fn lemma_scrobble_at_most_once(
    current: Option<TrackState>,
    cfg: ScrobbleConfig,
    events: Seq<(PlaybackPayload, u64)>,
    i: int,
    j: int,
)
    requires
        single_track(current, cfg, events),
        0 <= i < events.len(),
        0 <= j < events.len(),
        fires_at(current, cfg, events, i),
        fires_at(current, cfg, events, j),
    ensures
        i == j,
{
    if i < j {
        lemma_fired_stays_scrobbled(current, cfg, events, i, j as nat);
    } else if j < i {
        lemma_fired_stays_scrobbled(current, cfg, events, j, i as nat);
    }
}

/// Along a stream for one track, the track is scrobbled from the event that
/// asked for the scrobble onwards.
proof fn lemma_fired_stays_scrobbled(
    current: Option<TrackState>,
    cfg: ScrobbleConfig,
    events: Seq<(PlaybackPayload, u64)>,
    i: int,
    n: nat,
)
    requires
        single_track(current, cfg, events),
        0 <= i < n <= events.len(),
        fires_at(current, cfg, events, i),
    ensures
        state_after(current, cfg, events, n) is Some,
        state_after(current, cfg, events, n)->Some_0.scrobbled,
    decreases n,
{
    lemma_single_track_state(current, cfg, events, (n - 1) as nat);
    let before = state_after(current, cfg, events, (n - 1) as nat);
    let e = events[n - 1];
    assert(payload_complete(e.0) && e.0.track_id@ == current->Some_0.track_id@);
    if n - 1 > i {
        lemma_fired_stays_scrobbled(current, cfg, events, i, (n - 1) as nat);
        lemma_flags_are_sticky(before, cfg, e.0, e.1);
    }
}

} // verus!
