//! The bloom pass scheduler as a state machine, and the order it guarantees.
//!
//! A frame's bloom work runs `Idle → Prefiltering → Downsampling(1) → … →
//! Blurring(0, Horizontal) → Blurring(0, Vertical) → … → Compositing → Idle`.
//! Each stage but `Idle` records exactly one compute pass. Passes on one
//! queue execute in the order recorded, so that order is the only
//! synchronisation there is: the laws below say that it respects every data
//! dependency between the passes.

use crate::bloom::{
    BloomEffect, BloomModel, BlurAxis, ComputePass, ComputePassView, PassKind, MAX_MIP_LEVELS,
};
use crate::bind::{lemma_texture_pair_access, lemma_uniform_group, BufferRef, GroupLayout};
use crate::texture::{ChainKind, ViewRef};
use vstd::prelude::*;

verus! {

/// Where the scheduler stands within a frame.
#[derive(Clone, Copy, Debug, PartialEq, Eq, Structural)]
pub enum BloomStage {
    /// Between frames: nothing to record.
    Idle,
    /// Recording the bright-pass filter into downsample level 0.
    Prefiltering,
    /// Recording the downsample into the given level.
    Downsampling(u32),
    /// Recording the blur of the given level along the given axis.
    Blurring(u32, BlurAxis),
    /// Recording the composite.
    Compositing,
}

/// The stage that follows `stage` in a chain of `max_level` levels.
pub open spec fn spec_next_stage(max_level: u32, stage: BloomStage) -> BloomStage {
    match stage {
        BloomStage::Idle => BloomStage::Prefiltering,
        BloomStage::Prefiltering => if 1 < max_level {
            BloomStage::Downsampling(1)
        } else {
            BloomStage::Blurring(0, BlurAxis::Horizontal)
        },
        BloomStage::Downsampling(level) => if level + 1 < max_level {
            BloomStage::Downsampling((level + 1) as u32)
        } else {
            BloomStage::Blurring(0, BlurAxis::Horizontal)
        },
        BloomStage::Blurring(level, BlurAxis::Horizontal) => BloomStage::Blurring(
            level,
            BlurAxis::Vertical,
        ),
        BloomStage::Blurring(level, BlurAxis::Vertical) => if level + 1 < max_level {
            BloomStage::Blurring((level + 1) as u32, BlurAxis::Horizontal)
        } else {
            BloomStage::Compositing
        },
        BloomStage::Compositing => BloomStage::Idle,
    }
}

/// Whether `stage` occurs in a frame of a chain of `max_level` levels.
pub open spec fn spec_stage_valid(max_level: u32, stage: BloomStage) -> bool {
    match stage {
        BloomStage::Downsampling(level) => 1 <= level < max_level,
        BloomStage::Blurring(level, _) => level < max_level,
        _ => true,
    }
}

/// The position in the recording order of the pass that a stage records;
/// the composite comes right after the last blur. `Idle` records nothing
/// and is given position -1.
pub open spec fn spec_stage_position(max_level: u32, stage: BloomStage) -> int {
    match stage {
        BloomStage::Idle => -1,
        BloomStage::Prefiltering => 0,
        BloomStage::Downsampling(level) => level as int,
        BloomStage::Blurring(level, BlurAxis::Horizontal) => max_level + 2 * level,
        BloomStage::Blurring(level, BlurAxis::Vertical) => max_level + 2 * level + 1,
        BloomStage::Compositing => 3 * max_level,
    }
}

/// The stage that records the pass at `position`.
pub open spec fn spec_stage_at(max_level: u32, position: int) -> BloomStage {
    if position < 0 {
        BloomStage::Idle
    } else if position == 0 {
        BloomStage::Prefiltering
    } else if position < max_level {
        BloomStage::Downsampling(position as u32)
    } else if position >= 3 * max_level {
        BloomStage::Compositing
    } else if (position - max_level) % 2 == 0 {
        BloomStage::Blurring(((position - max_level) / 2) as u32, BlurAxis::Horizontal)
    } else {
        BloomStage::Blurring(((position - max_level) / 2) as u32, BlurAxis::Vertical)
    }
}

/// The pass a stage records, if it records one: none while idle, and none
/// for a stage that names a level the chain does not have.
pub open spec fn spec_stage_pass(
    model: BloomModel,
    stage: BloomStage,
    scene: ViewRef,
    target: ViewRef,
) -> Option<ComputePassView> {
    if !spec_stage_valid(model.max_level, stage) {
        None
    } else {
        match stage {
            BloomStage::Idle => None,
            BloomStage::Prefiltering => Some(model.prefilter_pass(scene)),
            BloomStage::Downsampling(level) => Some(model.downsample_pass(level)),
            BloomStage::Blurring(level, axis) => Some(model.blur_pass(axis, level)),
            BloomStage::Compositing => Some(model.composite_pass(scene, target)),
        }
    }
}

impl BloomEffect {
    /// The stage that follows `stage`.
    pub fn next_stage(&self, stage: BloomStage) -> (next: BloomStage)
        ensures
            next == spec_next_stage(self@.max_level, stage),
    {
        let max_level: u32 = self.max_level();
        match stage {
            BloomStage::Idle => BloomStage::Prefiltering,
            BloomStage::Prefiltering => if 1 < max_level {
                BloomStage::Downsampling(1)
            } else {
                BloomStage::Blurring(0, BlurAxis::Horizontal)
            },
            BloomStage::Downsampling(level) => if level < max_level - 1 {
                BloomStage::Downsampling(level + 1)
            } else {
                BloomStage::Blurring(0, BlurAxis::Horizontal)
            },
            BloomStage::Blurring(level, BlurAxis::Horizontal) => BloomStage::Blurring(
                level,
                BlurAxis::Vertical,
            ),
            BloomStage::Blurring(level, BlurAxis::Vertical) => if level < max_level - 1 {
                BloomStage::Blurring(level + 1, BlurAxis::Horizontal)
            } else {
                BloomStage::Compositing
            },
            BloomStage::Compositing => BloomStage::Idle,
        }
    }

    /// The pass to record in `stage`: `None` while idle or when the stage
    /// names a level the chains do not have, the stage's pass otherwise.
    pub fn stage_pass(&self, stage: BloomStage, scene: ViewRef, target: ViewRef) -> (pass: Option<
        ComputePass,
    >)
        ensures
            match pass {
                Some(p) => spec_stage_pass(self@, stage, scene, target) == Some(p@),
                None => spec_stage_pass(self@, stage, scene, target) is None,
            },
    {
        let max_level: u32 = self.max_level();
        match stage {
            BloomStage::Idle => None,
            BloomStage::Prefiltering => Some(self.prefilter_pass(scene)),
            BloomStage::Downsampling(level) => if 1 <= level && level < max_level {
                Some(self.downsample_pass(level))
            } else {
                None
            },
            BloomStage::Blurring(level, axis) => if level < max_level {
                Some(self.blur_pass(axis, level))
            } else {
                None
            },
            BloomStage::Compositing => Some(self.apply(target, scene)),
        }
    }
}

/// Stepping the machine walks the recording order: from `Idle` it enters the
/// stage of position 0, from the stage of any position before the composite
/// it enters the stage of the next position, the stage after the last blur
/// is `Compositing`, and from there it returns to `Idle`.
pub proof fn lemma_stages_walk_the_schedule(max_level: u32, position: int)
    requires
        1 <= max_level <= MAX_MIP_LEVELS,
        0 <= position < 3 * max_level,
    ensures
        spec_next_stage(max_level, BloomStage::Idle) == spec_stage_at(max_level, 0),
        spec_next_stage(max_level, spec_stage_at(max_level, position)) == spec_stage_at(
            max_level,
            position + 1,
        ),
        spec_stage_at(max_level, 3 * max_level) == BloomStage::Compositing,
        spec_next_stage(max_level, BloomStage::Compositing) == BloomStage::Idle,
        spec_stage_valid(max_level, spec_stage_at(max_level, position)),
        spec_stage_position(max_level, spec_stage_at(max_level, position)) == position,
{
}

/// The machine records the schedule: the stage of position `position`
/// records exactly the pass at that position of [`BloomModel::schedule`],
/// and `Compositing` records the composite pass.
pub proof fn lemma_stage_records_scheduled_pass(
    model: BloomModel,
    scene: ViewRef,
    target: ViewRef,
    position: int,
)
    requires
        1 <= model.max_level <= MAX_MIP_LEVELS,
        0 <= position < model.schedule_len(),
    ensures
        spec_stage_pass(model, spec_stage_at(model.max_level, position), scene, target) == Some(
            model.schedule(scene)[position],
        ),
        spec_stage_pass(model, BloomStage::Compositing, scene, target) == Some(
            model.composite_pass(scene, target),
        ),
        spec_stage_pass(model, BloomStage::Idle, scene, target) is None,
{
}

/// Position in the recording order of the pass that writes level `level` of
/// the downsample chain: the prefilter for level 0, the downsample into
/// `level` otherwise.
pub open spec fn spec_downsample_position(level: u32) -> int {
    level as int
}

/// Position of the blur of `level` along `axis`.
pub open spec fn spec_blur_position(max_level: u32, axis: BlurAxis, level: u32) -> int {
    match axis {
        BlurAxis::Horizontal => max_level + 2 * level,
        BlurAxis::Vertical => max_level + 2 * level + 1,
    }
}

/// The recording order respects the levels. The pass that fills downsample
/// level `level` is recorded strictly after the one that fills the level
/// above it, and both blurs of `level` are recorded strictly after the pass
/// that fills downsample level `level`, the horizontal before the vertical.
/// The passes at the named positions are the passes meant.
pub proof fn lemma_recording_order(model: BloomModel, scene: ViewRef, level: u32)
    requires
        1 <= model.max_level <= MAX_MIP_LEVELS,
        level < model.max_level,
    ensures
        level >= 1 ==> spec_downsample_position((level - 1) as u32) < spec_downsample_position(
            level,
        ),
        spec_downsample_position(level) < spec_blur_position(
            model.max_level,
            BlurAxis::Horizontal,
            level,
        ) < spec_blur_position(model.max_level, BlurAxis::Vertical, level)
            < model.schedule_len(),
        model.schedule(scene)[spec_downsample_position(level)] == if level == 0 {
            model.prefilter_pass(scene)
        } else {
            model.downsample_pass(level)
        },
        model.schedule(scene)[spec_blur_position(model.max_level, BlurAxis::Horizontal, level)]
            == model.blur_pass(BlurAxis::Horizontal, level),
        model.schedule(scene)[spec_blur_position(model.max_level, BlurAxis::Vertical, level)]
            == model.blur_pass(BlurAxis::Vertical, level),
{
}

/// Each kind of pass occurs once per level and nowhere else: a scheduled
/// pass of a given kind and level stands at the position named for it.
pub proof fn lemma_scheduled_pass_position(model: BloomModel, scene: ViewRef, k: int)
    requires
        1 <= model.max_level <= MAX_MIP_LEVELS,
        0 <= k < model.schedule_len(),
    ensures
        ({
            let pass = model.schedule(scene)[k];
            &&& pass.level < model.max_level
            &&& pass.kind != PassKind::Composite
            &&& pass.kind == PassKind::Prefilter ==> k == 0 && pass.level == 0
            &&& pass.kind == PassKind::Downsample ==> k == spec_downsample_position(pass.level)
                && pass.level >= 1
            &&& pass.kind == PassKind::HorizontalBlur ==> k == spec_blur_position(
                model.max_level,
                BlurAxis::Horizontal,
                pass.level,
            )
            &&& pass.kind == PassKind::VerticalBlur ==> k == spec_blur_position(
                model.max_level,
                BlurAxis::Vertical,
                pass.level,
            )
        }),
{
}

/// A pass over one level reads exactly the view its wiring samples and
/// writes exactly the view its wiring stores to.
pub proof fn lemma_level_pass_access(
    model: BloomModel,
    kind: PassKind,
    level: u32,
    read: ViewRef,
    write: ViewRef,
    view: ViewRef,
)
    ensures
        model.level_pass(kind, level, crate::bind::spec_texture_pair(read, write)).reads(view)
            <==> view == read,
        model.level_pass(kind, level, crate::bind::spec_texture_pair(read, write)).writes(view)
            <==> view == write,
{
    let pair = crate::bind::spec_texture_pair(read, write);
    let pass = model.level_pass(kind, level, pair);
    lemma_texture_pair_access(read, write, view);
    lemma_uniform_group(GroupLayout::Settings, BufferRef::BloomSettings, view);
    assert(pass.groups[0] == model.settings_group());
    assert(pass.groups[1] == pair);
    if view == read {
        assert(pass.groups[1].reads(view));
    }
    if view == write {
        assert(pass.groups[1].writes(view));
    }
    if pass.reads(view) {
        let g = choose|g: int| 0 <= g < pass.groups.len() && (#[trigger] pass.groups[g]).reads(view);
        assert(g == 0 || g == 1);
    }
    if pass.writes(view) {
        let g = choose|g: int|
            0 <= g < pass.groups.len() && (#[trigger] pass.groups[g]).writes(view);
        assert(g == 0 || g == 1);
    }
}

/// What each scheduled pass reads and writes: the pass at position `k`
/// reads one view and writes one view, namely those of its level's wiring.
pub proof fn lemma_scheduled_pass_access(model: BloomModel, scene: ViewRef, k: int, view: ViewRef)
    requires
        1 <= model.max_level <= MAX_MIP_LEVELS,
        0 <= k < model.schedule_len(),
    ensures
        ({
            let pass = model.schedule(scene)[k];
            let level = pass.level;
            match pass.kind {
                PassKind::Prefilter => {
                    &&& pass.reads(view) <==> view == scene
                    &&& pass.writes(view) <==> view == model.mip_ref(ChainKind::Downsample, 0)
                },
                PassKind::Downsample => {
                    &&& pass.reads(view) <==> view == model.mip_ref(
                        ChainKind::Downsample,
                        (level - 1) as u32,
                    )
                    &&& pass.writes(view) <==> view == model.mip_ref(ChainKind::Downsample, level)
                },
                PassKind::HorizontalBlur => {
                    &&& pass.reads(view) <==> view == model.mip_ref(ChainKind::Downsample, level)
                    &&& pass.writes(view) <==> view == model.mip_ref(
                        ChainKind::HorizontalBlur,
                        level,
                    )
                },
                PassKind::VerticalBlur => {
                    &&& pass.reads(view) <==> view == model.mip_ref(
                        ChainKind::HorizontalBlur,
                        level,
                    )
                    &&& pass.writes(view) <==> view == model.mip_ref(ChainKind::VerticalBlur, level)
                },
                PassKind::Composite => false,
            }
        }),
{
    let pass = model.schedule(scene)[k];
    let level = pass.level;
    if k == 0 {
        lemma_level_pass_access(
            model,
            PassKind::Prefilter,
            0,
            scene,
            model.mip_ref(ChainKind::Downsample, 0),
            view,
        );
    } else if k < model.max_level {
        lemma_level_pass_access(
            model,
            PassKind::Downsample,
            level,
            model.mip_ref(ChainKind::Downsample, (level - 1) as u32),
            model.mip_ref(ChainKind::Downsample, level),
            view,
        );
    } else if (k - model.max_level) % 2 == 0 {
        lemma_level_pass_access(
            model,
            PassKind::HorizontalBlur,
            level,
            model.mip_ref(ChainKind::Downsample, level),
            model.mip_ref(ChainKind::HorizontalBlur, level),
            view,
        );
    } else {
        lemma_level_pass_access(
            model,
            PassKind::VerticalBlur,
            level,
            model.mip_ref(ChainKind::HorizontalBlur, level),
            model.mip_ref(ChainKind::VerticalBlur, level),
            view,
        );
    }
}

/// Ordering is all the synchronisation the schedule needs: whatever a
/// scheduled pass reads, other than the scene itself, was written by a pass
/// recorded strictly before it.
pub proof fn lemma_reads_follow_writes(model: BloomModel, scene: ViewRef, k: int, view: ViewRef)
    requires
        1 <= model.max_level <= MAX_MIP_LEVELS,
        0 <= k < model.schedule_len(),
        model.schedule(scene)[k].reads(view),
        view != scene,
    ensures
        exists|j: int| 0 <= j < k && (#[trigger] model.schedule(scene)[j]).writes(view),
{
    let schedule = model.schedule(scene);
    let pass = schedule[k];
    lemma_scheduled_pass_access(model, scene, k, view);
    let j: int = match pass.kind {
        PassKind::Downsample => k - 1,
        PassKind::HorizontalBlur => pass.level as int,
        _ => k - 1,
    };
    assert(0 <= j < k);
    lemma_scheduled_pass_access(model, scene, j, view);
    assert(schedule[j].writes(view));
}

/// No two passes of the schedule write the same view.
pub proof fn lemma_single_writer(model: BloomModel, scene: ViewRef, j: int, k: int, view: ViewRef)
    requires
        1 <= model.max_level <= MAX_MIP_LEVELS,
        0 <= j < model.schedule_len(),
        0 <= k < model.schedule_len(),
        model.schedule(scene)[j].writes(view),
        model.schedule(scene)[k].writes(view),
    ensures
        j == k,
{
    lemma_scheduled_pass_access(model, scene, j, view);
    lemma_scheduled_pass_access(model, scene, k, view);
    lemma_scheduled_pass_position(model, scene, j);
    lemma_scheduled_pass_position(model, scene, k);
}

} // verus!
