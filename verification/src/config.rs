//! User settings for scrobbling.
//!
//! The threshold is the fraction of a track that must have been listened to
//! before it is scrobbled. It is held in millionths, so that every decision
//! made from it is exact integer arithmetic.

use vstd::prelude::*;

verus! {

/// One whole, in millionths.
pub const THRESHOLD_SCALE: u32 = 1_000_000;

/// The smallest threshold that is ever stored: one hundredth.
pub const MIN_THRESHOLD: u32 = 10_000;

/// The largest threshold that is ever stored: the whole track.
pub const MAX_THRESHOLD: u32 = 1_000_000;

/// The threshold of a fresh configuration: half of the track.
pub const DEFAULT_THRESHOLD: u32 = 500_000;

/// The persisted settings.
#[derive(Clone, Copy, Debug, PartialEq, Eq, Structural)]
pub struct ScrobbleConfig {
    /// Fraction of the duration that must be listened to, in millionths.
    pub threshold: u32,
    pub enable_scrobble: bool,
    pub enable_now_playing: bool,
    pub enable_notifications: bool,
}

/// A partial update of the settings: only the fields that are present change.
#[derive(Clone, Copy, Debug, PartialEq, Eq, Structural)]
pub struct ScrobbleConfigUpdate {
    pub threshold: Option<u32>,
    pub enable_scrobble: Option<bool>,
    pub enable_now_playing: Option<bool>,
    pub enable_notifications: Option<bool>,
}

/// `value` brought into the range of thresholds that may be stored.
pub open spec fn clamped_threshold(value: u32) -> u32 {
    if value < MIN_THRESHOLD {
        MIN_THRESHOLD
    } else if value > MAX_THRESHOLD {
        MAX_THRESHOLD
    } else {
        value
    }
}

/// `field` where the update leaves it alone, the new value where it does not.
pub open spec fn merged_flag(field: bool, change: Option<bool>) -> bool {
    match change {
        Some(v) => v,
        None => field,
    }
}

/// The settings that result from applying `update` to `cfg`.
pub open spec fn updated_config(cfg: ScrobbleConfig, update: ScrobbleConfigUpdate) -> ScrobbleConfig {
    ScrobbleConfig {
        threshold: match update.threshold {
            Some(v) => clamped_threshold(v),
            None => cfg.threshold,
        },
        enable_scrobble: merged_flag(cfg.enable_scrobble, update.enable_scrobble),
        enable_now_playing: merged_flag(cfg.enable_now_playing, update.enable_now_playing),
        enable_notifications: merged_flag(cfg.enable_notifications, update.enable_notifications),
    }
}

/// Brings a threshold into the range from `MIN_THRESHOLD` to `MAX_THRESHOLD`.
pub fn clamp_threshold(value: u32) -> (clamped: u32)
    ensures
        clamped == clamped_threshold(value),
        MIN_THRESHOLD <= clamped <= MAX_THRESHOLD,
        MIN_THRESHOLD <= value <= MAX_THRESHOLD ==> clamped == value,
{
    if value < MIN_THRESHOLD {
        MIN_THRESHOLD
    } else if value > MAX_THRESHOLD {
        MAX_THRESHOLD
    } else {
        value
    }
}

impl ScrobbleConfig {
    /// The threshold lies in the range that is stored.
    pub open spec fn wf(&self) -> bool {
        MIN_THRESHOLD <= self.threshold <= MAX_THRESHOLD
    }

    /// The settings used until something else was stored: half of the
    /// track, every feature switched on.
    pub fn new() -> (cfg: ScrobbleConfig)
        ensures
            cfg.threshold == DEFAULT_THRESHOLD,
            cfg.enable_scrobble,
            cfg.enable_now_playing,
            cfg.enable_notifications,
            cfg.wf(),
    {
        ScrobbleConfig {
            threshold: DEFAULT_THRESHOLD,
            enable_scrobble: true,
            enable_now_playing: true,
            enable_notifications: true,
        }
    }

    /// Applies a partial update: each field that the update names is
    /// replaced, the threshold after clamping; the others stay.
    pub fn apply(&mut self, update: &ScrobbleConfigUpdate)
        ensures
            *final(self) == updated_config(*old(self), *update),
            update.threshold is Some ==> final(self).wf(),
            old(self).wf() ==> final(self).wf(),
    {
        if let Some(v) = update.threshold {
            self.threshold = clamp_threshold(v);
        }
        if let Some(v) = update.enable_scrobble {
            self.enable_scrobble = v;
        }
        if let Some(v) = update.enable_now_playing {
            self.enable_now_playing = v;
        }
        if let Some(v) = update.enable_notifications {
            self.enable_notifications = v;
        }
    }
}

} // verus!
