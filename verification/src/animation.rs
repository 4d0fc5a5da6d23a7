//! A loaded animation: per-bone, per-morph and per-IK tracks bound to the
//! skeleton's indices, evaluated with a blend weight.

use vstd::prelude::*;

use crate::algebra::{q4_identity, q_mul, q_slerp, v3_add, v3_scale};
use crate::bezier::CurveCache;
use crate::bone_set::BoneSet;
use crate::morph::{spec_same_but_anim, MorphManager};
use crate::scalar::{fadd, ffloor, float_to_usize, fmul, fsub, u32_to_float};
use crate::track::{BoneMotionTrack, IkMotionTrack, MorphMotionTrack};

verus! {

/// One animation: each track carries the index (or name, for IK) of the
/// channel it drives, and the largest frame index of any track.
pub struct VmdAnimation {
    /// Bone tracks, each bound to a bone index.
    pub bone_tracks: Vec<(usize, BoneMotionTrack)>,
    /// Morph tracks, each bound to a morph index.
    pub morph_tracks: Vec<(usize, MorphMotionTrack)>,
    /// IK tracks, each bound to an IK bone name.
    pub ik_tracks: Vec<(String, IkMotionTrack)>,
    /// The largest frame index of any track.
    pub max_frame: u32,
}

/// A bone after one track pose lands on it with a blend weight: the
/// crossfaded track translation, scaled by the weight, is added onto the
/// animation translation; the crossfaded track orientation, pulled from
/// the identity by the weight along the short arc, is composed onto the
/// animation rotation.
pub open spec fn spec_applied_track_pose(
    b: crate::bone::BoneLink,
    t: crate::track::BoneFrameTransform,
    weight: u32,
) -> crate::bone::BoneLink {
    let mixed_t = match t.local_transform_mix {
        Some(coef) => crate::algebra::lerp3_of(b.animation_translate, t.translation, coef),
        None => t.translation,
    };
    let mixed_q = match t.local_transform_mix {
        Some(coef) => crate::algebra::slerp_of(b.animation_rotate, t.orientation, coef),
        None => t.orientation,
    };
    crate::bone::BoneLink {
        animation_translate: crate::algebra::spec_v3_add(
            b.animation_translate,
            crate::algebra::spec_v3_scale(mixed_t, weight),
        ),
        animation_rotate: crate::algebra::quat_mul_of(
            b.animation_rotate,
            crate::algebra::slerp_of(crate::algebra::spec_q4_identity(), mixed_q, weight),
        ),
        ..b
    }
}

/// A morph's weight after a track value lands on it: the track value,
/// scaled by the blend weight, is added on.
pub open spec fn spec_added_morph_weight(cur: u32, w: u32, weight: u32) -> u32 {
    crate::scalar::add_bits(cur, crate::scalar::mul_bits(w, weight))
}

/// Add a weighted track value onto one morph's weight.
fn add_weighted_morph(morphs: &mut MorphManager, morph_index: usize, w: u32, weight: u32)
    ensures
        morph_index < old(morphs).morphs@.len() ==> final(morphs).morphs@ == old(
            morphs,
        ).morphs@.update(
            morph_index as int,
            crate::morph::Morph {
                weight: spec_added_morph_weight(
                    old(morphs).morphs@[morph_index as int].weight,
                    w,
                    weight,
                ),
                ..old(morphs).morphs@[morph_index as int]
            },
        ),
        morph_index >= old(morphs).morphs@.len() ==> *final(morphs) == *old(morphs),
        *final(morphs) == (MorphManager { morphs: final(morphs).morphs, ..*old(morphs) }),
        final(morphs).morphs@.len() == old(morphs).morphs@.len(),
{
    let cur = morphs.get_morph_weight(morph_index);
    morphs.set_morph_weight(morph_index, fadd(cur, fmul(w, weight)));
}

/// Land one track pose on a bone with a blend weight.
fn apply_track_pose(
    bones: &mut BoneSet,
    bone_index: usize,
    t: crate::track::BoneFrameTransform,
    weight: u32,
)
    requires
        old(bones).wf(),
    ensures
        final(bones).wf(),
        *final(bones) == (BoneSet { links: final(bones).links, ..*old(bones) }),
        bone_index < old(bones).links@.len() ==> final(bones).links@ == old(
            bones,
        ).links@.update(
            bone_index as int,
            spec_applied_track_pose(old(bones).links@[bone_index as int], t, weight),
        ),
        bone_index >= old(bones).links@.len() ==> *final(bones) == *old(bones),
        forall|i: int|
            0 <= i < old(bones).links@.len() ==> crate::morph::spec_same_but_anim(
                old(bones).links@[i],
                #[trigger] final(bones).links@[i],
            ),
{
    let ghost pre_links = bones.links@;
    match bones.get_bone(bone_index) {
        Some(b) => {
            let mixed_t = t.mixed_translation(b.animation_translate);
            let mixed_q = t.mixed_orientation(b.animation_rotate);
            bones.set_bone_translation(
                bone_index,
                v3_add(b.animation_translate, v3_scale(mixed_t, weight)),
            );
            let cur = match bones.get_bone(bone_index) {
                Some(b2) => b2.animation_rotate,
                None => crate::algebra::q4_identity(),
            };
            bones.set_bone_rotation(
                bone_index,
                q_mul(cur, q_slerp(q4_identity(), mixed_q, weight)),
            );
            proof {
                assert(bones.links@ =~= pre_links.update(
                    bone_index as int,
                    spec_applied_track_pose(pre_links[bone_index as int], t, weight),
                ));
            }
        },
        None => {},
    }
}

impl VmdAnimation {
    /// Every track is sorted.
    pub open spec fn wf(self) -> bool {
        &&& (forall|i: int|
            0 <= i < self.bone_tracks@.len() ==> (#[trigger] self.bone_tracks@[i]).1.wf())
        &&& (forall|i: int|
            0 <= i < self.morph_tracks@.len() ==> (#[trigger] self.morph_tracks@[i]).1.wf())
        &&& (forall|i: int|
            0 <= i < self.ik_tracks@.len() ==> (#[trigger] self.ik_tracks@[i]).1.wf())
    }

    /// An empty animation.
    pub fn new() -> (r: VmdAnimation)
        ensures
            r.wf(),
            r.bone_tracks@.len() == 0,
            r.morph_tracks@.len() == 0,
            r.ik_tracks@.len() == 0,
            r.max_frame == 0,
    {
        VmdAnimation {
            bone_tracks: Vec::new(),
            morph_tracks: Vec::new(),
            ik_tracks: Vec::new(),
            max_frame: 0,
        }
    }

    /// The largest frame index of any track.
    pub fn max_frame(&self) -> (r: u32)
        ensures
            r == self.max_frame,
    {
        self.max_frame
    }

    /// Bind a bone track to a bone index; the animation's frame bound
    /// takes the track's in.
    pub fn add_bone_track(&mut self, bone_index: usize, track: BoneMotionTrack)
        requires
            old(self).wf(),
            track.wf(),
        ensures
            final(self).wf(),
            final(self).bone_tracks@.len() == old(self).bone_tracks@.len() + 1,
            final(self).bone_tracks@.last().0 == bone_index,
            final(self).bone_tracks@.last().1 == track,
    {
        let mf = track.max_frame_index();
        if mf > self.max_frame {
            self.max_frame = mf;
        }
        self.bone_tracks.push((bone_index, track));
    }

    /// Bind a morph track to a morph index.
    pub fn add_morph_track(&mut self, morph_index: usize, track: MorphMotionTrack)
        requires
            old(self).wf(),
            track.wf(),
        ensures
            final(self).wf(),
            final(self).morph_tracks@.len() == old(self).morph_tracks@.len() + 1,
            final(self).morph_tracks@.last().0 == morph_index,
            final(self).morph_tracks@.last().1 == track,
    {
        let mf = track.max_frame_index();
        if mf > self.max_frame {
            self.max_frame = mf;
        }
        self.morph_tracks.push((morph_index, track));
    }

    /// Bind an IK track to an IK bone name.
    pub fn add_ik_track(&mut self, ik_name: String, track: IkMotionTrack)
        requires
            old(self).wf(),
            track.wf(),
        ensures
            final(self).wf(),
            final(self).ik_tracks@.len() == old(self).ik_tracks@.len() + 1,
    {
        let mf = track.max_frame_index();
        if mf > self.max_frame {
            self.max_frame = mf;
        }
        self.ik_tracks.push((ik_name, track));
    }

    /// Apply the animated pose at a fractional frame with a blend weight:
    /// each bone track's pose is added onto the bone's animation inputs
    /// (translation scaled by the weight, rotation composed through a
    /// weighted short-arc interpolation from the identity); each morph
    /// track's weighted value is added onto the morph's weight; each IK
    /// track sets its solver's enabled flag.
    #[verifier::rlimit(100)]
    #[verifier::spinoff_prover]
    pub fn evaluate_with_weight(
        &self,
        frame: u32,
        weight: u32,
        bones: &mut BoneSet,
        morphs: &mut MorphManager,
        cache: &mut CurveCache,
    )
        requires
            self.wf(),
            old(bones).wf(),
            old(cache).wf(),
        ensures
            final(bones).wf(),
            final(cache).wf(),
            final(bones).links@.len() == old(bones).links@.len(),
            *final(bones) == (BoneSet {
                links: final(bones).links,
                ik_solvers: final(bones).ik_solvers,
                ..*old(bones)
            }),
            forall|i: int|
                0 <= i < old(bones).links@.len() ==> spec_same_but_anim(
                    old(bones).links@[i],
                    #[trigger] final(bones).links@[i],
                ),
            final(morphs).morphs@.len() == old(morphs).morphs@.len(),
            final(morphs).material_morph_results@ == old(morphs).material_morph_results@,
            final(morphs).uv_morph_deltas@ == old(morphs).uv_morph_deltas@,
    {
        // Split the fractional frame into the grid frame and the remainder.
        let whole = ffloor(frame);
        let raw_index = float_to_usize(whole);
        let frame_index: u32 = if raw_index > u32::MAX as usize {
            u32::MAX
        } else {
            raw_index as u32
        };
        let sub_amount = fsub(frame, u32_to_float(frame_index));

        let ghost bones0 = *bones;
        let nb = self.bone_tracks.len();
        let mut i: usize = 0;
        while i < nb
            invariant
                self.wf(),
                nb == self.bone_tracks@.len(),
                i <= nb,
                bones.wf(),
                cache.wf(),
                bones.links@.len() == bones0.links@.len(),
                *bones == (BoneSet { links: bones.links, ..bones0 }),
                forall|j: int|
                    0 <= j < bones0.links@.len() ==> spec_same_but_anim(
                        bones0.links@[j],
                        #[trigger] bones.links@[j],
                    ),
            decreases nb - i,
        {
            let bone_index = self.bone_tracks[i].0;
            if bone_index < bones.bone_count() {
                let ghost pre = *bones;
                let t = self.bone_tracks[i].1.seek_precisely(frame_index, sub_amount, cache);
                apply_track_pose(bones, bone_index, t, weight);
                proof {
                    assert forall|j: int|
                        0 <= j < bones0.links@.len() implies spec_same_but_anim(
                        bones0.links@[j],
                        #[trigger] bones.links@[j],
                    ) by {
                        crate::morph::lemma_same_but_anim_trans(
                            bones0.links@[j],
                            pre.links@[j],
                            bones.links@[j],
                        );
                    }
                }
            }
            i = i + 1;
        }

        let nm = self.morph_tracks.len();
        let mut m: usize = 0;
        while m < nm
            invariant
                self.wf(),
                nm == self.morph_tracks@.len(),
                m <= nm,
                morphs.morphs@.len() == old(morphs).morphs@.len(),
                morphs.material_morph_results@ == old(morphs).material_morph_results@,
                morphs.uv_morph_deltas@ == old(morphs).uv_morph_deltas@,
            decreases nm - m,
        {
            let morph_index = self.morph_tracks[m].0;
            let w = self.morph_tracks[m].1.seek_precisely(frame_index, sub_amount);
            add_weighted_morph(morphs, morph_index, w, weight);
            m = m + 1;
        }

        let ni = self.ik_tracks.len();
        let mut k: usize = 0;
        while k < ni
            invariant
                self.wf(),
                ni == self.ik_tracks@.len(),
                k <= ni,
                bones.wf(),
                bones.links@.len() == bones0.links@.len(),
                *bones == (BoneSet { links: bones.links, ik_solvers: bones.ik_solvers, ..bones0 }),
                forall|j: int|
                    0 <= j < bones0.links@.len() ==> spec_same_but_anim(
                        bones0.links@[j],
                        #[trigger] bones.links@[j],
                    ),
            decreases ni - k,
        {
            let enabled = self.ik_tracks[k].1.is_enabled_at(frame_index);
            let name = &self.ik_tracks[k].0;
            bones.set_ik_enabled_by_name(name, enabled);
            k = k + 1;
        }
    }
}

} // verus!
