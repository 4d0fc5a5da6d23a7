//! Animation layers: concurrent tracks blended by weight, with fade-in,
//! fade-out and pose-snapshot crossfade.
//!
//! A layer advances its frame by `dt * speed * 30`; fading scales the
//! configured weight by a progress clamped to the unit range, so a
//! completed fade-in pays out exactly the configured weight and a
//! completed fade-out exactly zero. A transition captures the pose at the
//! switch and blends it toward the new animation by a smoothstep of the
//! elapsed share of the transition time.

use vstd::prelude::*;

use crate::algebra::{q_slerp, v3_lerp, Q4, V3};
use crate::animation::VmdAnimation;
use crate::bezier::CurveCache;
use crate::bone_set::BoneSet;
use crate::morph::{spec_same_but_anim, weight_active, MorphManager};
use crate::scalar::{
    fadd, fclamp, fdiv, fle, flt, fmul, frem, fsub, lerp_f32, mul_bits, spec_is_nan, spec_mag,
    u32_to_float,
};

verus! {

/// IEEE 754 bit pattern of `1.0_f32`.
pub const L_ONE: u32 = 0x3F80_0000;

/// IEEE 754 bit pattern of `2.0_f32`.
pub const L_TWO: u32 = 0x4000_0000;

/// IEEE 754 bit pattern of `3.0_f32`.
pub const L_THREE: u32 = 0x4040_0000;

/// IEEE 754 bit pattern of `30.0_f32`: the frame grid rate.
pub const L_THIRTY: u32 = 0x41F0_0000;

/// IEEE 754 bit pattern of `1e-3_f32`: the weight threshold for an active
/// layer.
pub const L_EPSILON: u32 = 0x3A83_126F;

/// A layer's playback state.
#[derive(Clone, Copy, Debug, PartialEq, Eq, Structural)]
pub enum AnimationLayerState {
    /// Not playing.
    Stopped,
    /// Playing at the effective weight.
    Playing,
    /// Holding the current frame.
    Paused,
    /// Ramping the effective weight up.
    FadingIn,
    /// Ramping the effective weight down.
    FadingOut,
    /// Crossfading from a captured pose into the animation.
    Transitioning,
}

/// A layer's configuration.
#[derive(Clone, Copy, Debug)]
pub struct AnimationLayerConfig {
    /// Blend weight in the unit range.
    pub weight: u32,
    /// Playback speed factor.
    pub speed: u32,
    /// Whether playback wraps at the last frame.
    pub loop_playback: bool,
    /// Fade-in time in seconds.
    pub fade_in_time: u32,
    /// Fade-out time in seconds.
    pub fade_out_time: u32,
}

/// The default configuration: full weight, unit speed, looping, no fades.
pub open spec fn spec_layer_config_default() -> AnimationLayerConfig {
    AnimationLayerConfig {
        weight: L_ONE,
        speed: L_ONE,
        loop_playback: true,
        fade_in_time: 0,
        fade_out_time: 0,
    }
}

impl Default for AnimationLayerConfig {
    /// Full weight, unit speed, looping, no fades.
    fn default() -> (r: AnimationLayerConfig)
        ensures
            r == spec_layer_config_default(),
    {
        AnimationLayerConfig {
            weight: L_ONE,
            speed: L_ONE,
            loop_playback: true,
            fade_in_time: 0,
            fade_out_time: 0,
        }
    }
}

/// One bone's captured pose.
#[derive(Clone, Copy, Debug)]
pub struct BonePose {
    /// The captured animation translation.
    pub translation: V3,
    /// The captured animation rotation.
    pub rotation: Q4,
}

/// A pose snapshot: the animation inputs of every bone and the weights of
/// the active morphs at the moment a transition starts.
#[derive(Clone, Debug)]
pub struct PoseSnapshot {
    /// Captured bone poses, one per bone index.
    pub bone_poses: Vec<(usize, BonePose)>,
    /// Captured weights of the morphs that were active.
    pub morph_weights: Vec<(usize, u32)>,
}

/// The captured morph weights from index `m` on: one `(index, weight)`
/// pair per morph whose weight is active, in index order.
pub open spec fn spec_captured_weights(morphs: Seq<crate::morph::Morph>, m: int) -> Seq<
    (usize, u32),
>
    decreases morphs.len() - m,
{
    if m < 0 || m >= morphs.len() {
        Seq::empty()
    } else {
        let rest = spec_captured_weights(morphs, m + 1);
        if crate::morph::spec_weight_active(morphs[m].weight) {
            seq![(m as usize, morphs[m].weight)] + rest
        } else {
            rest
        }
    }
}

impl PoseSnapshot {
    /// Capture every bone's animation inputs and exactly the weights of
    /// the active morphs.
    pub fn capture(bones: &BoneSet, morphs: &MorphManager) -> (r: PoseSnapshot)
        ensures
            r.bone_poses@.len() == bones.links@.len(),
            forall|i: int|
                0 <= i < r.bone_poses@.len() ==> #[trigger] r.bone_poses@[i] == (
                    i as usize,
                    BonePose {
                        translation: bones.links@[i].animation_translate,
                        rotation: bones.links@[i].animation_rotate,
                    },
                ),
            r.morph_weights@ == spec_captured_weights(morphs.morphs@, 0),
    {
        let mut bone_poses: Vec<(usize, BonePose)> = Vec::new();
        let n = bones.bone_count();
        let mut i: usize = 0;
        while i < n
            invariant
                n == bones.links@.len(),
                i <= n,
                bone_poses@.len() == i,
                forall|j: int|
                    0 <= j < i ==> #[trigger] bone_poses@[j] == (
                        j as usize,
                        BonePose {
                            translation: bones.links@[j].animation_translate,
                            rotation: bones.links@[j].animation_rotate,
                        },
                    ),
            decreases n - i,
        {
            match bones.get_bone(i) {
                Some(b) => {
                    bone_poses.push(
                        (i, BonePose { translation: b.animation_translate, rotation: b.animation_rotate }),
                    );
                },
                None => {
                    proof {
                        assert(false);
                    }
                },
            }
            i = i + 1;
        }
        let mut morph_weights: Vec<(usize, u32)> = Vec::new();
        let nm = morphs.morph_count();
        let mut m: usize = 0;
        while m < nm
            invariant
                nm == morphs.morphs@.len(),
                m <= nm,
                spec_captured_weights(morphs.morphs@, 0) == morph_weights@
                    + spec_captured_weights(morphs.morphs@, m as int),
            decreases nm - m,
        {
            let ghost pre = morph_weights@;
            let w = morphs.get_morph_weight(m);
            if weight_active(w) {
                morph_weights.push((m, w));
                proof {
                    assert(pre + (seq![(m as usize, w)] + spec_captured_weights(
                        morphs.morphs@,
                        m as int + 1,
                    )) =~= morph_weights@ + spec_captured_weights(morphs.morphs@, m as int + 1));
                }
            }
            m = m + 1;
        }
        proof {
            assert(morph_weights@ + spec_captured_weights(morphs.morphs@, nm as int)
                =~= morph_weights@);
        }
        PoseSnapshot { bone_poses, morph_weights }
    }

    /// Whether the snapshot captured nothing.
    pub fn is_empty(&self) -> (r: bool)
        ensures
            r == (self.bone_poses@.len() == 0 && self.morph_weights@.len() == 0),
    {
        self.bone_poses.len() == 0 && self.morph_weights.len() == 0
    }
}

/// One animation layer.
pub struct AnimationLayer {
    /// The layer's position in the manager.
    pub id: usize,
    /// The layer's name.
    pub name: String,
    /// The animation it plays, if any.
    pub animation: Option<VmdAnimation>,
    /// The current fractional frame.
    pub current_frame: u32,
    /// The playback state.
    pub state: AnimationLayerState,
    /// The configuration.
    pub config: AnimationLayerConfig,
    /// The weight actually paid out, scaled by fading.
    pub effective_weight: u32,
    /// Fade progress in the unit range.
    pub fade_progress: u32,
    /// Whether the layer participates at all.
    pub enabled: bool,
    /// The pose captured when the running transition started.
    pub transition_snapshot: Option<PoseSnapshot>,
    /// The transition time in seconds.
    pub transition_duration: u32,
    /// Transition progress in the unit range.
    pub transition_progress: u32,
}

/// The smoothstep ease `t * t * (3 - 2 * t)`.
pub open spec fn spec_smoothstep(t: u32) -> u32 {
    mul_bits(mul_bits(t, t), crate::scalar::sub_bits(L_THREE, mul_bits(L_TWO, t)))
}

/// The smoothstep ease `t * t * (3 - 2 * t)`.
pub fn smoothstep(t: u32) -> (r: u32)
    ensures
        r == spec_smoothstep(t),
{
    fmul(fmul(t, t), fsub(L_THREE, fmul(L_TWO, t)))
}

impl AnimationLayer {
    /// The layer's animations are sound.
    pub open spec fn wf(self) -> bool {
        match self.animation {
            Some(a) => a.wf(),
            None => true,
        }
    }

    /// A fresh, stopped layer.
    pub fn new(id: usize, name: String) -> (r: AnimationLayer)
        ensures
            r.wf(),
            r.id == id,
            r.animation is None,
            r.current_frame == 0,
            r.state == AnimationLayerState::Stopped,
            r.config == spec_layer_config_default(),
            r.effective_weight == 0,
            r.fade_progress == 0,
            r.enabled,
            r.transition_snapshot is None,
    {
        AnimationLayer {
            id,
            name,
            animation: None,
            current_frame: 0,
            state: AnimationLayerState::Stopped,
            config: AnimationLayerConfig::default(),
            effective_weight: 0,
            fade_progress: 0,
            enabled: true,
            transition_snapshot: None,
            transition_duration: 0,
            transition_progress: 0,
        }
    }

    /// Replace the animation outright and stop.
    pub fn set_animation(&mut self, animation: Option<VmdAnimation>)
        requires
            match animation {
                Some(a) => a.wf(),
                None => true,
            },
        ensures
            final(self).wf(),
            final(self).animation == animation,
            final(self).current_frame == 0,
            final(self).state == AnimationLayerState::Stopped,
            final(self).effective_weight == 0,
            final(self).fade_progress == 0,
            final(self).transition_snapshot is None,
    {
        self.animation = animation;
        self.current_frame = 0;
        self.state = AnimationLayerState::Stopped;
        self.effective_weight = 0;
        self.fade_progress = 0;
        self.transition_snapshot = None;
        self.transition_progress = 0;
    }

    /// Switch to a new animation through a pose crossfade: capture the
    /// current pose and blend it out over the transition time; with no
    /// transition time (or nothing captured) play at once.
    pub fn transition_to(
        &mut self,
        animation: Option<VmdAnimation>,
        transition_time: u32,
        bones: &BoneSet,
        morphs: &MorphManager,
    )
        requires
            match animation {
                Some(a) => a.wf(),
                None => true,
            },
        ensures
            final(self).wf(),
            final(self).animation == animation,
            final(self).current_frame == 0,
            final(self).effective_weight == old(self).config.weight,
            // A positive transition time with anything captured starts the
            // crossfade; otherwise the layer plays at once, snapshot-free.
            if crate::scalar::spec_lt(0, transition_time) && (bones.links@.len() > 0
                || spec_captured_weights(morphs.morphs@, 0).len() > 0) {
                &&& final(self).state == AnimationLayerState::Transitioning
                &&& final(self).transition_progress == 0
                &&& final(self).transition_duration == transition_time
                &&& final(self).transition_snapshot is Some
            } else {
                &&& final(self).state == AnimationLayerState::Playing
                &&& final(self).transition_snapshot is None
            },
    {
        let snapshot = PoseSnapshot::capture(bones, morphs);
        self.animation = animation;
        self.current_frame = 0;
        if flt(0, transition_time) && !snapshot.is_empty() {
            self.transition_snapshot = Some(snapshot);
            self.transition_duration = transition_time;
            self.transition_progress = 0;
            self.state = AnimationLayerState::Transitioning;
            self.effective_weight = self.config.weight;
        } else {
            self.transition_snapshot = None;
            self.state = AnimationLayerState::Playing;
            self.effective_weight = self.config.weight;
        }
    }

    /// Start playing: through a fade-in when one is configured.
    pub fn play(&mut self)
        ensures
            final(self).wf() == old(self).wf(),
            *final(self) == (AnimationLayer {
                state: final(self).state,
                effective_weight: final(self).effective_weight,
                fade_progress: final(self).fade_progress,
                ..*old(self)
            }),
            old(self).animation is Some ==> {
                if crate::scalar::spec_lt(0, old(self).config.fade_in_time) {
                    final(self).state == AnimationLayerState::FadingIn && final(self).fade_progress
                        == 0
                } else {
                    final(self).state == AnimationLayerState::Playing && final(self).effective_weight == old(self).config.weight
                }
            },
            old(self).animation is None ==> *final(self) == *old(self),
    {
        if self.animation.is_some() {
            if flt(0, self.config.fade_in_time) {
                self.state = AnimationLayerState::FadingIn;
                self.fade_progress = 0;
            } else {
                self.state = AnimationLayerState::Playing;
                self.effective_weight = self.config.weight;
            }
        }
    }

    /// Hold the current frame.
    pub fn pause(&mut self)
        ensures
            *final(self) == (AnimationLayer { state: final(self).state, ..*old(self) }),
            final(self).state == if old(self).state == AnimationLayerState::Playing || old(
                self,
            ).state == AnimationLayerState::FadingIn {
                AnimationLayerState::Paused
            } else {
                old(self).state
            },
    {
        if self.state == AnimationLayerState::Playing || self.state
            == AnimationLayerState::FadingIn {
            self.state = AnimationLayerState::Paused;
        }
    }

    /// Resume from a pause.
    pub fn resume(&mut self)
        ensures
            *final(self) == (AnimationLayer { state: final(self).state, ..*old(self) }),
            final(self).state == if old(self).state == AnimationLayerState::Paused {
                AnimationLayerState::Playing
            } else {
                old(self).state
            },
    {
        if self.state == AnimationLayerState::Paused {
            self.state = AnimationLayerState::Playing;
        }
    }

    /// Stop: through a fade-out when one is configured and weight is still
    /// paid out, else at once with the weight dropped to zero.
    pub fn stop(&mut self)
        ensures
            *final(self) == (AnimationLayer {
                state: final(self).state,
                effective_weight: final(self).effective_weight,
                fade_progress: final(self).fade_progress,
                current_frame: final(self).current_frame,
                ..*old(self)
            }),
            if crate::scalar::spec_lt(0, old(self).config.fade_out_time) && crate::scalar::spec_lt(
                0,
                old(self).effective_weight,
            ) {
                final(self).state == AnimationLayerState::FadingOut && final(self).fade_progress
                    == L_ONE
            } else {
                final(self).state == AnimationLayerState::Stopped && final(self).effective_weight
                    == 0 && final(self).current_frame == 0
            },
    {
        if flt(0, self.config.fade_out_time) && flt(0, self.effective_weight) {
            self.state = AnimationLayerState::FadingOut;
            self.fade_progress = L_ONE;
        } else {
            self.state = AnimationLayerState::Stopped;
            self.effective_weight = 0;
            self.current_frame = 0;
        }
    }

    /// Back to the stopped initial state, keeping the animation.
    pub fn reset(&mut self)
        ensures
            final(self).wf() == old(self).wf(),
            final(self).current_frame == 0,
            final(self).state == AnimationLayerState::Stopped,
            final(self).effective_weight == 0,
            final(self).fade_progress == 0,
            final(self).transition_snapshot is None,
            final(self).animation == old(self).animation,
    {
        self.current_frame = 0;
        self.state = AnimationLayerState::Stopped;
        self.effective_weight = 0;
        self.fade_progress = 0;
        self.transition_snapshot = None;
        self.transition_progress = 0;
    }

    /// Jump to a frame, clamped below by zero.
    pub fn seek_to(&mut self, frame: u32)
        ensures
            *final(self) == (AnimationLayer {
                current_frame: crate::scalar::spec_max(frame, 0),
                ..*old(self)
            }),
    {
        self.current_frame = crate::scalar::fmax(frame, 0);
    }

    /// Configure the blend weight, clamped to the unit range; outside a
    /// fade it is paid out at once.
    pub fn set_weight(&mut self, weight: u32)
        ensures
            final(self).config.weight == crate::scalar::spec_clamp(weight, 0, L_ONE),
            (old(self).state != AnimationLayerState::FadingIn && old(self).state
                != AnimationLayerState::FadingOut) ==> final(self).effective_weight == final(self).config.weight,
            *final(self) == (AnimationLayer {
                config: final(self).config,
                effective_weight: final(self).effective_weight,
                ..*old(self)
            }),
    {
        self.config.weight = fclamp(weight, 0, L_ONE);
        if self.state != AnimationLayerState::FadingIn && self.state
            != AnimationLayerState::FadingOut {
            self.effective_weight = self.config.weight;
        }
    }

    /// Configure the playback speed, clamped below by zero.
    pub fn set_speed(&mut self, speed: u32)
        ensures
            *final(self) == (AnimationLayer { config: final(self).config, ..*old(self) }),
            final(self).config == (AnimationLayerConfig {
                speed: crate::scalar::spec_max(speed, 0),
                ..old(self).config
            }),
    {
        self.config.speed = crate::scalar::fmax(speed, 0);
    }

    /// Whether the layer participates at all.
    pub fn is_enabled(&self) -> (r: bool)
        ensures
            r == self.enabled,
    {
        self.enabled
    }

    /// Let the layer participate or not.
    pub fn set_enabled(&mut self, enabled: bool)
        ensures
            *final(self) == (AnimationLayer { enabled, ..*old(self) }),
    {
        self.enabled = enabled;
    }

    /// The playback state.
    pub fn state(&self) -> (r: AnimationLayerState)
        ensures
            r == self.state,
    {
        self.state
    }

    /// The current fractional frame.
    pub fn current_frame(&self) -> (r: u32)
        ensures
            r == self.current_frame,
    {
        self.current_frame
    }

    /// The weight actually paid out.
    pub fn effective_weight(&self) -> (r: u32)
        ensures
            r == self.effective_weight,
    {
        self.effective_weight
    }

    /// The configured weight.
    pub fn weight(&self) -> (r: u32)
        ensures
            r == self.config.weight,
    {
        self.config.weight
    }

    /// The animation's largest frame, zero without one.
    pub fn max_frame(&self) -> (r: u32)
        ensures
            r == match self.animation {
                Some(a) => a.max_frame,
                None => 0u32,
            },
    {
        match &self.animation {
            Some(a) => a.max_frame(),
            None => 0,
        }
    }

    /// Whether the layer is playing or fading in.
    pub fn is_playing(&self) -> (r: bool)
        ensures
            r == (self.state == AnimationLayerState::Playing || self.state
                == AnimationLayerState::FadingIn),
    {
        self.state == AnimationLayerState::Playing || self.state == AnimationLayerState::FadingIn
    }

    /// Advance the layer by the elapsed time: the frame by
    /// `dt * speed * 30` (wrapping or clamping at the last frame), a fade
    /// by its share of the fade time, a transition by its share of the
    /// transition time; a completed fade-in pays out exactly the
    /// configured weight, a completed fade-out exactly a signed zero of
    /// it.
    pub fn update(&mut self, delta_time: u32) -> (r: bool)
        requires
            old(self).wf(),
        ensures
            final(self).wf(),
            final(self).animation == old(self).animation,
            final(self).config == old(self).config,
            final(self).enabled == old(self).enabled,
            r == (old(self).enabled && old(self).animation is Some && old(self).state
                != AnimationLayerState::Stopped),
            !(old(self).enabled && old(self).animation is Some) ==> *final(self) == *old(self),
            // A fade-in that reaches full progress pays out the configured
            // weight exactly (for a non-NaN weight).
            old(self).enabled && old(self).animation is Some && old(self).state
                == AnimationLayerState::FadingIn && final(self).fade_progress == L_ONE
                && !spec_is_nan(old(self).config.weight) ==> final(self).effective_weight == old(
                self,
            ).config.weight,
            // A completed fade-out pays out a signed zero of the weight.
            old(self).enabled && old(self).animation is Some && old(self).state
                == AnimationLayerState::FadingOut && final(self).fade_progress == 0 && spec_mag(
                old(self).config.weight,
            ) < 0x7F80_0000 ==> final(self).effective_weight == (old(self).config.weight
                & 0x8000_0000),
    {
        if !self.enabled || self.animation.is_none() {
            return false;
        }
        let dt = fmul(delta_time, self.config.speed);
        match self.state {
            AnimationLayerState::Playing => {
                self.update_frame(dt);
                true
            },
            AnimationLayerState::FadingIn => {
                self.update_fade_in(dt);
                self.update_frame(dt);
                true
            },
            AnimationLayerState::FadingOut => {
                self.update_fade_out(dt);
                self.update_frame(dt);
                true
            },
            AnimationLayerState::Transitioning => {
                self.update_transition(delta_time);
                self.update_frame(dt);
                true
            },
            AnimationLayerState::Paused => true,
            AnimationLayerState::Stopped => false,
        }
    }

    /// Advance the frame, wrapping or clamping at the animation's last
    /// frame.
    fn update_frame(&mut self, dt: u32)
        requires
            old(self).wf(),
        ensures
            final(self).wf(),
            final(self).animation == old(self).animation,
            final(self).config == old(self).config,
            final(self).enabled == old(self).enabled,
            final(self).effective_weight == old(self).effective_weight,
            final(self).fade_progress == old(self).fade_progress,
            *final(self) == (AnimationLayer {
                current_frame: final(self).current_frame,
                state: final(self).state,
                ..*old(self)
            }),
    {
        let max_frame: u32 = match &self.animation {
            Some(a) => a.max_frame(),
            None => {
                return ;
            },
        };
        let max_f = u32_to_float(max_frame);
        if flt(0, max_f) {
            self.current_frame = fadd(self.current_frame, fmul(dt, L_THIRTY));
            if flt(max_f, self.current_frame) {
                if self.config.loop_playback {
                    self.current_frame = frem(self.current_frame, max_f);
                } else {
                    self.current_frame = max_f;
                    self.state = AnimationLayerState::Stopped;
                }
            }
        }
    }

    /// Advance a fade-in: progress grows by the elapsed share of the
    /// fade-in time and saturates at one, where the state turns playing;
    /// the effective weight is the configured weight scaled by the
    /// progress.
    fn update_fade_in(&mut self, dt: u32)
        ensures
            final(self).effective_weight == mul_bits(
                old(self).config.weight,
                final(self).fade_progress,
            ),
            final(self).fade_progress == L_ONE && !spec_is_nan(old(self).config.weight) ==> final(self).effective_weight == old(self).config.weight,
            *final(self) == (AnimationLayer {
                fade_progress: final(self).fade_progress,
                state: final(self).state,
                effective_weight: final(self).effective_weight,
                ..*old(self)
            }),
    {
        if flt(0, self.config.fade_in_time) {
            self.fade_progress = fadd(self.fade_progress, fdiv(dt, self.config.fade_in_time));
            if fle(L_ONE, self.fade_progress) {
                self.fade_progress = L_ONE;
                self.state = AnimationLayerState::Playing;
            }
        } else {
            self.fade_progress = L_ONE;
            self.state = AnimationLayerState::Playing;
        }
        self.effective_weight = fmul(self.config.weight, self.fade_progress);
    }

    /// Advance a fade-out: progress shrinks by the elapsed share of the
    /// fade-out time and saturates at zero, where the layer stops and
    /// rewinds; the effective weight is the configured weight scaled by
    /// the progress, an exact signed zero at the end.
    fn update_fade_out(&mut self, dt: u32)
        ensures
            final(self).effective_weight == mul_bits(
                old(self).config.weight,
                final(self).fade_progress,
            ),
            final(self).fade_progress == 0 && spec_mag(old(self).config.weight) < 0x7F80_0000
                ==> final(self).effective_weight == (old(self).config.weight & 0x8000_0000),
            *final(self) == (AnimationLayer {
                fade_progress: final(self).fade_progress,
                state: final(self).state,
                effective_weight: final(self).effective_weight,
                current_frame: final(self).current_frame,
                ..*old(self)
            }),
    {
        if flt(0, self.config.fade_out_time) {
            self.fade_progress = fsub(self.fade_progress, fdiv(dt, self.config.fade_out_time));
            if fle(self.fade_progress, 0) {
                self.fade_progress = 0;
                self.state = AnimationLayerState::Stopped;
                self.current_frame = 0;
            }
        } else {
            self.fade_progress = 0;
            self.state = AnimationLayerState::Stopped;
            self.current_frame = 0;
        }
        self.effective_weight = fmul(self.config.weight, self.fade_progress);
    }

    /// Advance a transition by real time: progress grows by the elapsed
    /// share of the transition time and saturates at one, where the
    /// snapshot is dropped and the state turns playing.
    fn update_transition(&mut self, dt: u32)
        ensures
            *final(self) == (AnimationLayer {
                transition_progress: final(self).transition_progress,
                state: final(self).state,
                transition_snapshot: final(self).transition_snapshot,
                ..*old(self)
            }),
            // Progress advances by the elapsed share of the transition
            // time (real time, not scaled by speed) and saturates at one,
            // where the snapshot is dropped and the state turns playing.
            if crate::scalar::spec_lt(0, old(self).transition_duration) {
                ({
                    let p = crate::scalar::add_bits(
                        old(self).transition_progress,
                        crate::scalar::div_bits(dt, old(self).transition_duration),
                    );
                    if crate::scalar::spec_le(L_ONE, p) {
                        final(self).transition_progress == L_ONE && final(self).state
                            == AnimationLayerState::Playing && final(self).transition_snapshot
                            is None
                    } else {
                        final(self).transition_progress == p && final(self).state == old(
                            self,
                        ).state && final(self).transition_snapshot == old(
                            self,
                        ).transition_snapshot
                    }
                })
            } else {
                final(self).transition_progress == L_ONE && final(self).state
                    == AnimationLayerState::Playing && final(self).transition_snapshot is None
            },
    {
        if flt(0, self.transition_duration) {
            self.transition_progress = fadd(
                self.transition_progress,
                fdiv(dt, self.transition_duration),
            );
            if fle(L_ONE, self.transition_progress) {
                self.transition_progress = L_ONE;
                self.state = AnimationLayerState::Playing;
                self.transition_snapshot = None;
            }
        } else {
            self.transition_progress = L_ONE;
            self.state = AnimationLayerState::Playing;
            self.transition_snapshot = None;
        }
    }

    /// Apply the layer: during a transition, crossfade the snapshot toward
    /// the animation by the smoothstep of the progress; otherwise apply
    /// the animation when the effective weight exceeds the threshold.
    pub fn evaluate(
        &self,
        bones: &mut BoneSet,
        morphs: &mut MorphManager,
        cache: &mut CurveCache,
    )
        requires
            self.wf(),
            old(bones).wf(),
            old(cache).wf(),
        ensures
            final(bones).wf(),
            final(cache).wf(),
            final(bones).links@.len() == old(bones).links@.len(),
            *final(bones) == (BoneSet {
                links: final(bones).links,
                ik_solvers: final(bones).ik_solvers,
                ..*old(bones)
            }),
            forall|i: int|
                0 <= i < old(bones).links@.len() ==> spec_same_but_anim(
                    old(bones).links@[i],
                    #[trigger] final(bones).links@[i],
                ),
            final(morphs).morphs@.len() == old(morphs).morphs@.len(),
            final(morphs).material_morph_results@ == old(morphs).material_morph_results@,
            final(morphs).uv_morph_deltas@ == old(morphs).uv_morph_deltas@,
    {
        if self.state == AnimationLayerState::Transitioning {
            self.evaluate_transition(bones, morphs, cache);
        } else {
            match &self.animation {
                Some(animation) => {
                    if flt(L_EPSILON, self.effective_weight) {
                        animation.evaluate_with_weight(
                            self.current_frame,
                            self.effective_weight,
                            bones,
                            morphs,
                            cache,
                        );
                    }
                },
                None => {},
            }
        }
    }

    /// Apply the transition: write the animation first, then blend each
    /// captured bone pose and morph weight toward it with the snapshot
    /// weight `1 - smoothstep(progress)`.
    #[verifier::rlimit(100)]
    #[verifier::spinoff_prover]
    fn evaluate_transition(
        &self,
        bones: &mut BoneSet,
        morphs: &mut MorphManager,
        cache: &mut CurveCache,
    )
        requires
            self.wf(),
            old(bones).wf(),
            old(cache).wf(),
        ensures
            final(bones).wf(),
            final(cache).wf(),
            final(bones).links@.len() == old(bones).links@.len(),
            *final(bones) == (BoneSet {
                links: final(bones).links,
                ik_solvers: final(bones).ik_solvers,
                ..*old(bones)
            }),
            forall|i: int|
                0 <= i < old(bones).links@.len() ==> spec_same_but_anim(
                    old(bones).links@[i],
                    #[trigger] final(bones).links@[i],
                ),
            final(morphs).morphs@.len() == old(morphs).morphs@.len(),
            final(morphs).material_morph_results@ == old(morphs).material_morph_results@,
            final(morphs).uv_morph_deltas@ == old(morphs).uv_morph_deltas@,
    {
        let smooth_t = smoothstep(self.transition_progress);
        let snapshot_weight = fsub(L_ONE, smooth_t);

        match &self.animation {
            Some(animation) => {
                animation.evaluate_with_weight(
                    self.current_frame,
                    self.effective_weight,
                    bones,
                    morphs,
                    cache,
                );
            },
            None => {},
        }

        let ghost bones1 = *bones;
        match &self.transition_snapshot {
            Some(snapshot) => {
                blend_snapshot(snapshot, snapshot_weight, bones, morphs);
                proof {
                    assert forall|j: int|
                        0 <= j < bones1.links@.len() implies spec_same_but_anim(
                        bones1.links@[j],
                        #[trigger] bones.links@[j],
                    ) by {
                        crate::morph::lemma_same_but_anim_trans(
                            bones1.links@[j],
                            bones1.links@[j],
                            bones.links@[j],
                        );
                    }
                }
            },
            None => {},
        }
    }
}

/// The bones after the captured poses from index `k` on are blended in:
/// each in-range bone's animation translation moves toward the captured
/// translation and its animation rotation toward the captured rotation,
/// both by the snapshot weight.
pub open spec fn spec_blend_snapshot_bones(
    poses: Seq<(usize, BonePose)>,
    links: Seq<crate::bone::BoneLink>,
    snapshot_weight: u32,
    k: int,
) -> Seq<crate::bone::BoneLink>
    decreases poses.len() - k,
{
    if k < 0 || k >= poses.len() {
        links
    } else {
        let (bi, pose) = poses[k];
        let cur = if (bi as int) < links.len() {
            links.update(
                bi as int,
                crate::bone::BoneLink {
                    animation_translate: crate::algebra::lerp3_of(
                        links[bi as int].animation_translate,
                        pose.translation,
                        snapshot_weight,
                    ),
                    animation_rotate: crate::algebra::slerp_of(
                        links[bi as int].animation_rotate,
                        pose.rotation,
                        snapshot_weight,
                    ),
                    ..links[bi as int]
                },
            )
        } else {
            links
        };
        spec_blend_snapshot_bones(poses, cur, snapshot_weight, k + 1)
    }
}

/// The morphs after the captured weights from index `k` on are blended in:
/// each in-range morph's weight moves toward the captured weight by the
/// snapshot weight.
pub open spec fn spec_blend_snapshot_morphs(
    weights: Seq<(usize, u32)>,
    morphs: Seq<crate::morph::Morph>,
    snapshot_weight: u32,
    k: int,
) -> Seq<crate::morph::Morph>
    decreases weights.len() - k,
{
    if k < 0 || k >= weights.len() {
        morphs
    } else {
        let (mi, w) = weights[k];
        let cur = if (mi as int) < morphs.len() {
            morphs.update(
                mi as int,
                crate::morph::Morph {
                    weight: crate::scalar::spec_lerp1(morphs[mi as int].weight, w, snapshot_weight),
                    ..morphs[mi as int]
                },
            )
        } else {
            morphs
        };
        spec_blend_snapshot_morphs(weights, cur, snapshot_weight, k + 1)
    }
}

/// Blend a captured pose toward the already-written animation: each
/// captured bone's animation inputs move toward the snapshot by the
/// snapshot weight (a lerp for translations, a short-arc slerp for
/// rotations), and each captured morph weight likewise.
fn blend_snapshot(
    snapshot: &PoseSnapshot,
    snapshot_weight: u32,
    bones: &mut BoneSet,
    morphs: &mut MorphManager,
)
    requires
        old(bones).wf(),
    ensures
        final(bones).wf(),
        *final(bones) == (BoneSet { links: final(bones).links, ..*old(bones) }),
        final(bones).links@ == spec_blend_snapshot_bones(
            snapshot.bone_poses@,
            old(bones).links@,
            snapshot_weight,
            0,
        ),
        *final(morphs) == (MorphManager { morphs: final(morphs).morphs, ..*old(morphs) }),
        final(morphs).morphs@.len() == old(morphs).morphs@.len(),
        final(morphs).morphs@ == spec_blend_snapshot_morphs(
            snapshot.morph_weights@,
            old(morphs).morphs@,
            snapshot_weight,
            0,
        ),
        forall|i: int|
            0 <= i < old(bones).links@.len() ==> spec_same_but_anim(
                old(bones).links@[i],
                #[trigger] final(bones).links@[i],
            ),
{
    let ghost bones1 = *bones;
    let nb = snapshot.bone_poses.len();
    let mut i: usize = 0;
    while i < nb
        invariant
            nb == snapshot.bone_poses@.len(),
            i <= nb,
            bones.wf(),
            bones.links@.len() == bones1.links@.len(),
            *bones == (BoneSet { links: bones.links, ..bones1 }),
            spec_blend_snapshot_bones(snapshot.bone_poses@, bones1.links@, snapshot_weight, 0)
                == spec_blend_snapshot_bones(
                snapshot.bone_poses@,
                bones.links@,
                snapshot_weight,
                i as int,
            ),
            forall|j: int|
                0 <= j < bones1.links@.len() ==> spec_same_but_anim(
                    bones1.links@[j],
                    #[trigger] bones.links@[j],
                ),
        decreases nb - i,
    {
        let ghost pre_links = bones.links@;
        let (bone_idx, pose) = snapshot.bone_poses[i];
        match bones.get_bone(bone_idx) {
            Some(b) => {
                let ghost pre = *bones;
                let blended_t = v3_lerp(b.animation_translate, pose.translation, snapshot_weight);
                let blended_q = q_slerp(b.animation_rotate, pose.rotation, snapshot_weight);
                bones.set_bone_translation(bone_idx, blended_t);
                bones.set_bone_rotation(bone_idx, blended_q);
                proof {
                    assert(bones.links@ =~= pre_links.update(
                        bone_idx as int,
                        crate::bone::BoneLink {
                            animation_translate: crate::algebra::lerp3_of(
                                pre_links[bone_idx as int].animation_translate,
                                pose.translation,
                                snapshot_weight,
                            ),
                            animation_rotate: crate::algebra::slerp_of(
                                pre_links[bone_idx as int].animation_rotate,
                                pose.rotation,
                                snapshot_weight,
                            ),
                            ..pre_links[bone_idx as int]
                        },
                    ));
                    assert forall|j: int|
                        0 <= j < bones1.links@.len() implies spec_same_but_anim(
                        bones1.links@[j],
                        #[trigger] bones.links@[j],
                    ) by {
                        crate::morph::lemma_same_but_anim_trans(
                            bones1.links@[j],
                            pre.links@[j],
                            bones.links@[j],
                        );
                    }
                }
            },
            None => {},
        }
        proof {
            assert(spec_blend_snapshot_bones(
                snapshot.bone_poses@,
                pre_links,
                snapshot_weight,
                i as int,
            ) == spec_blend_snapshot_bones(
                snapshot.bone_poses@,
                bones.links@,
                snapshot_weight,
                i as int + 1,
            ));
        }
        i = i + 1;
    }
    proof {
        assert(spec_blend_snapshot_bones(
            snapshot.bone_poses@,
            bones.links@,
            snapshot_weight,
            nb as int,
        ) == bones.links@);
    }
    let ghost morphs1 = *morphs;
    let nm = snapshot.morph_weights.len();
    let mut m: usize = 0;
    while m < nm
        invariant
            nm == snapshot.morph_weights@.len(),
            m <= nm,
            *morphs == (MorphManager { morphs: morphs.morphs, ..morphs1 }),
            morphs.morphs@.len() == morphs1.morphs@.len(),
            spec_blend_snapshot_morphs(snapshot.morph_weights@, morphs1.morphs@, snapshot_weight, 0)
                == spec_blend_snapshot_morphs(
                snapshot.morph_weights@,
                morphs.morphs@,
                snapshot_weight,
                m as int,
            ),
        decreases nm - m,
    {
        let ghost pre_morphs = morphs.morphs@;
        let (morph_idx, snapshot_morph_weight) = snapshot.morph_weights[m];
        let new_anim_weight = morphs.get_morph_weight(morph_idx);
        let blended = lerp_f32(new_anim_weight, snapshot_morph_weight, snapshot_weight);
        morphs.set_morph_weight(morph_idx, blended);
        proof {
            assert(spec_blend_snapshot_morphs(
                snapshot.morph_weights@,
                pre_morphs,
                snapshot_weight,
                m as int,
            ) == spec_blend_snapshot_morphs(
                snapshot.morph_weights@,
                morphs.morphs@,
                snapshot_weight,
                m as int + 1,
            ));
        }
        m = m + 1;
    }
    proof {
        assert(spec_blend_snapshot_morphs(
            snapshot.morph_weights@,
            morphs.morphs@,
            snapshot_weight,
            nm as int,
        ) == morphs.morphs@);
    }
}

/// The set of layers, evaluated in order so later layers blend over
/// earlier writes.
pub struct AnimationLayerManager {
    /// The layers.
    pub layers: Vec<AnimationLayer>,
}

impl AnimationLayerManager {
    /// Every layer is sound.
    pub open spec fn wf(self) -> bool {
        forall|i: int| 0 <= i < self.layers@.len() ==> (#[trigger] self.layers@[i]).wf()
    }

    /// A manager with `max_layers` fresh layers.
    pub fn new(max_layers: usize) -> (r: AnimationLayerManager)
        ensures
            r.wf(),
            r.layers@.len() == max_layers,
    {
        let mut layers: Vec<AnimationLayer> = Vec::new();
        let mut i: usize = 0;
        while i < max_layers
            invariant
                i <= max_layers,
                layers@.len() == i,
                forall|j: int| 0 <= j < i ==> (#[trigger] layers@[j]).wf(),
            decreases max_layers - i,
        {
            layers.push(AnimationLayer::new(i, String::new()));
            i = i + 1;
        }
        AnimationLayerManager { layers }
    }

    /// The layer at `layer_id`, when it exists.
    pub fn get_layer(&self, layer_id: usize) -> (r: Option<&AnimationLayer>)
        ensures
            match r {
                Some(layer) => layer_id < self.layers@.len() && *layer == self.layers@[layer_id
                    as int],
                None => layer_id >= self.layers@.len(),
            },
    {
        if layer_id < self.layers.len() {
            Some(&self.layers[layer_id])
        } else {
            None
        }
    }

    /// Number of layers.
    pub fn layer_count(&self) -> (r: usize)
        ensures
            r == self.layers@.len(),
    {
        self.layers.len()
    }

    /// Run a closure-free update of one layer: remove, change, reinsert.
    fn with_layer<'a>(&'a mut self, layer_id: usize) -> (r: Option<AnimationLayer>)
        requires
            old(self).wf(),
        ensures
            match r {
                Some(layer) => layer_id < old(self).layers@.len() && layer == old(
                    self,
                ).layers@[layer_id as int] && final(self).layers@ == old(self).layers@.remove(
                    layer_id as int,
                ) && layer.wf(),
                None => layer_id >= old(self).layers@.len() && *final(self) == *old(self),
            },
            final(self).wf(),
    {
        if layer_id < self.layers.len() {
            let layer = self.layers.remove(layer_id);
            Some(layer)
        } else {
            None
        }
    }

    /// Put a changed layer back at its slot.
    fn put_layer(&mut self, layer_id: usize, layer: AnimationLayer)
        requires
            old(self).wf(),
            layer.wf(),
            layer_id <= old(self).layers@.len(),
        ensures
            final(self).wf(),
            final(self).layers@ == old(self).layers@.insert(layer_id as int, layer),
    {
        self.layers.insert(layer_id, layer);
    }

    /// Replace a layer's animation; out-of-range layers do nothing.
    pub fn set_layer_animation(&mut self, layer_id: usize, animation: Option<VmdAnimation>)
        requires
            old(self).wf(),
            match animation {
                Some(a) => a.wf(),
                None => true,
            },
        ensures
            final(self).wf(),
            final(self).layers@.len() == old(self).layers@.len(),
    {
        match self.with_layer(layer_id) {
            Some(mut layer) => {
                layer.set_animation(animation);
                self.put_layer(layer_id, layer);
            },
            None => {},
        }
    }

    /// Start a layer playing.
    pub fn play_layer(&mut self, layer_id: usize)
        requires
            old(self).wf(),
        ensures
            final(self).wf(),
            final(self).layers@.len() == old(self).layers@.len(),
    {
        match self.with_layer(layer_id) {
            Some(mut layer) => {
                layer.play();
                self.put_layer(layer_id, layer);
            },
            None => {},
        }
    }

    /// Stop a layer.
    pub fn stop_layer(&mut self, layer_id: usize)
        requires
            old(self).wf(),
        ensures
            final(self).wf(),
            final(self).layers@.len() == old(self).layers@.len(),
    {
        match self.with_layer(layer_id) {
            Some(mut layer) => {
                layer.stop();
                self.put_layer(layer_id, layer);
            },
            None => {},
        }
    }

    /// Pause a layer.
    pub fn pause_layer(&mut self, layer_id: usize)
        requires
            old(self).wf(),
        ensures
            final(self).wf(),
            final(self).layers@.len() == old(self).layers@.len(),
    {
        match self.with_layer(layer_id) {
            Some(mut layer) => {
                layer.pause();
                self.put_layer(layer_id, layer);
            },
            None => {},
        }
    }

    /// Resume a paused layer.
    pub fn resume_layer(&mut self, layer_id: usize)
        requires
            old(self).wf(),
        ensures
            final(self).wf(),
            final(self).layers@.len() == old(self).layers@.len(),
    {
        match self.with_layer(layer_id) {
            Some(mut layer) => {
                layer.resume();
                self.put_layer(layer_id, layer);
            },
            None => {},
        }
    }

    /// Configure a layer's weight.
    pub fn set_layer_weight(&mut self, layer_id: usize, weight: u32)
        requires
            old(self).wf(),
        ensures
            final(self).wf(),
            final(self).layers@.len() == old(self).layers@.len(),
    {
        match self.with_layer(layer_id) {
            Some(mut layer) => {
                layer.set_weight(weight);
                self.put_layer(layer_id, layer);
            },
            None => {},
        }
    }

    /// Configure a layer's speed.
    pub fn set_layer_speed(&mut self, layer_id: usize, speed: u32)
        requires
            old(self).wf(),
        ensures
            final(self).wf(),
            final(self).layers@.len() == old(self).layers@.len(),
    {
        match self.with_layer(layer_id) {
            Some(mut layer) => {
                layer.set_speed(speed);
                self.put_layer(layer_id, layer);
            },
            None => {},
        }
    }

    /// Jump a layer to a frame.
    pub fn seek_layer(&mut self, layer_id: usize, frame: u32)
        requires
            old(self).wf(),
        ensures
            final(self).wf(),
            final(self).layers@.len() == old(self).layers@.len(),
    {
        match self.with_layer(layer_id) {
            Some(mut layer) => {
                layer.seek_to(frame);
                self.put_layer(layer_id, layer);
            },
            None => {},
        }
    }

    /// Configure a layer's fade times, clamped below by zero.
    pub fn set_layer_fade_times(&mut self, layer_id: usize, fade_in: u32, fade_out: u32)
        requires
            old(self).wf(),
        ensures
            final(self).wf(),
            final(self).layers@.len() == old(self).layers@.len(),
    {
        match self.with_layer(layer_id) {
            Some(mut layer) => {
                layer.config.fade_in_time = crate::scalar::fmax(fade_in, 0);
                layer.config.fade_out_time = crate::scalar::fmax(fade_out, 0);
                self.put_layer(layer_id, layer);
            },
            None => {},
        }
    }

    /// Switch a layer's animation through a pose crossfade.
    pub fn transition_layer_to(
        &mut self,
        layer_id: usize,
        animation: Option<VmdAnimation>,
        transition_time: u32,
        bones: &BoneSet,
        morphs: &MorphManager,
    )
        requires
            old(self).wf(),
            match animation {
                Some(a) => a.wf(),
                None => true,
            },
        ensures
            final(self).wf(),
            final(self).layers@.len() == old(self).layers@.len(),
    {
        match self.with_layer(layer_id) {
            Some(mut layer) => {
                layer.transition_to(animation, transition_time, bones, morphs);
                self.put_layer(layer_id, layer);
            },
            None => {},
        }
    }

    /// Advance every layer by the elapsed time.
    pub fn update(&mut self, delta_time: u32)
        requires
            old(self).wf(),
        ensures
            final(self).wf(),
            final(self).layers@.len() == old(self).layers@.len(),
    {
        let n = self.layers.len();
        let mut i: usize = 0;
        while i < n
            invariant
                n == self.layers@.len(),
                i <= n,
                self.wf(),
            decreases n - i,
        {
            let mut layer = self.layers.remove(i);
            layer.update(delta_time);
            self.layers.insert(i, layer);
            i = i + 1;
        }
    }

    /// Apply every enabled layer that is transitioning or pays out more
    /// than the threshold, in order, so later layers blend over earlier
    /// writes.
    pub fn evaluate_normalized(
        &self,
        bones: &mut BoneSet,
        morphs: &mut MorphManager,
        cache: &mut CurveCache,
    )
        requires
            self.wf(),
            old(bones).wf(),
            old(cache).wf(),
        ensures
            final(bones).wf(),
            final(cache).wf(),
            final(bones).links@.len() == old(bones).links@.len(),
            *final(bones) == (BoneSet {
                links: final(bones).links,
                ik_solvers: final(bones).ik_solvers,
                ..*old(bones)
            }),
            forall|i: int|
                0 <= i < old(bones).links@.len() ==> spec_same_but_anim(
                    old(bones).links@[i],
                    #[trigger] final(bones).links@[i],
                ),
            final(morphs).morphs@.len() == old(morphs).morphs@.len(),
            final(morphs).material_morph_results@ == old(morphs).material_morph_results@,
            final(morphs).uv_morph_deltas@ == old(morphs).uv_morph_deltas@,
    {
        let ghost bones0 = *bones;
        let n = self.layers.len();
        let mut i: usize = 0;
        while i < n
            invariant
                self.wf(),
                n == self.layers@.len(),
                i <= n,
                bones.wf(),
                cache.wf(),
                bones.links@.len() == bones0.links@.len(),
                *bones == (BoneSet {
                    links: bones.links,
                    ik_solvers: bones.ik_solvers,
                    ..bones0
                }),
                forall|j: int|
                    0 <= j < bones0.links@.len() ==> spec_same_but_anim(
                        bones0.links@[j],
                        #[trigger] bones.links@[j],
                    ),
                morphs.morphs@.len() == old(morphs).morphs@.len(),
                morphs.material_morph_results@ == old(morphs).material_morph_results@,
                morphs.uv_morph_deltas@ == old(morphs).uv_morph_deltas@,
            decreases n - i,
        {
            let layer = &self.layers[i];
            let active = layer.is_enabled() && layer.animation.is_some() && (flt(
                L_EPSILON,
                layer.effective_weight,
            ) || layer.state == AnimationLayerState::Transitioning);
            if active {
                let ghost pre = *bones;
                layer.evaluate(bones, morphs, cache);
                proof {
                    assert forall|j: int|
                        0 <= j < bones0.links@.len() implies spec_same_but_anim(
                        bones0.links@[j],
                        #[trigger] bones.links@[j],
                    ) by {
                        crate::morph::lemma_same_but_anim_trans(
                            bones0.links@[j],
                            pre.links@[j],
                            bones.links@[j],
                        );
                    }
                }
            }
            i = i + 1;
        }
    }

    /// Stop every layer.
    pub fn stop_all(&mut self)
        requires
            old(self).wf(),
        ensures
            final(self).wf(),
            final(self).layers@.len() == old(self).layers@.len(),
    {
        let n = self.layers.len();
        let mut i: usize = 0;
        while i < n
            invariant
                n == self.layers@.len(),
                i <= n,
                self.wf(),
            decreases n - i,
        {
            let mut layer = self.layers.remove(i);
            layer.stop();
            self.layers.insert(i, layer);
            i = i + 1;
        }
    }

    /// Reset every layer.
    pub fn reset_all(&mut self)
        requires
            old(self).wf(),
        ensures
            final(self).wf(),
            final(self).layers@.len() == old(self).layers@.len(),
    {
        let n = self.layers.len();
        let mut i: usize = 0;
        while i < n
            invariant
                n == self.layers@.len(),
                i <= n,
                self.wf(),
            decreases n - i,
        {
            let mut layer = self.layers.remove(i);
            layer.reset();
            self.layers.insert(i, layer);
            i = i + 1;
        }
    }

    /// Number of enabled layers currently playing.
    pub fn active_layer_count(&self) -> (r: usize)
        ensures
            r <= self.layers@.len(),
    {
        let n = self.layers.len();
        let mut count: usize = 0;
        let mut i: usize = 0;
        while i < n
            invariant
                n == self.layers@.len(),
                i <= n,
                count <= i,
            decreases n - i,
        {
            if self.layers[i].is_enabled() && self.layers[i].is_playing() {
                count = count + 1;
            }
            i = i + 1;
        }
        count
    }
}

} // verus!
