//! What holds of every bloom effect: level sizes, dispatch grids, the wiring
//! of the bind groups, and what a resize does to them.

use crate::bind::{
    lemma_texture_pair_access, lemma_uniform_group, BindResource, BufferRef, GroupLayout,
    COMPOSITE_SLOTS,
};
use crate::bloom::{BloomModel, BlurAxis, MAX_MIP_LEVELS};
use crate::mip::{lemma_mip_dim_fits, spec_dispatch_count, spec_mip_dim, spec_mip_views};
use crate::texture::{spec_next_generation, ChainKind, ViewRef};
use vstd::arithmetic::power2::{lemma2_to64, lemma_pow2_pos, lemma_pow2_strictly_increases, pow2};
use vstd::bits::lemma_u32_shr_is_div;
use vstd::prelude::*;

verus! {

/// `max(1, base >> level)` for a level below the width of the integer.
pub open spec fn spec_shifted_dim(base: u32, level: u32) -> u32 {
    if (base >> level) < 1 {
        1
    } else {
        base >> level
    }
}

/// Clamping the base extent to one texel changes no level: every level of a
/// chain allocated at `max(1, base)` measures `max(1, base >> level)`.
pub proof fn lemma_clamped_base_same_levels(base: u32, level: u32)
    ensures
        spec_mip_dim((if base < 1 { 1u32 } else { base }) as nat, level as nat) == spec_mip_dim(
            base as nat,
            level as nat,
        ),
{
    if base < 1 {
        lemma_pow2_pos(level as nat);
        if level > 0 {
            lemma2_to64();
            lemma_pow2_strictly_increases(0, level as nat);
        } else {
            lemma2_to64();
        }
        let p = pow2(level as nat);
        assert(0nat / p == 0) by (nonlinear_arith)
            requires
                p > 0,
        ;
        assert(1nat / p <= 1) by (nonlinear_arith)
            requires
                p > 0,
        ;
    }
}

/// The chains run at half the scene's resolution, and level `level` of each
/// measures `max(1, half_width >> level)` by `max(1, half_height >> level)`;
/// the views of all three chains carry exactly those sizes.
pub proof fn lemma_level_sizes(model: BloomModel, kind: ChainKind, level: u32)
    requires
        1 <= model.max_level <= MAX_MIP_LEVELS,
        level < model.max_level,
    ensures
        model.half_width() == model.full_width / 2,
        model.half_height() == model.full_height / 2,
        model.level_width(level) == spec_shifted_dim(model.half_width(), level),
        model.level_height(level) == spec_shifted_dim(model.half_height(), level),
        ({
            let chain = model.chain(kind);
            let view = spec_mip_views(
                chain.kind,
                chain.generation,
                chain.width,
                chain.height,
                chain.levels,
            )[level as int];
            &&& chain.levels == model.max_level
            &&& view.base_mip_level == level
            &&& view.width == model.level_width(level)
            &&& view.height == model.level_height(level)
        }),
{
    lemma_u32_shr_is_div(model.half_width(), level);
    lemma_u32_shr_is_div(model.half_height(), level);
    lemma_clamped_base_same_levels(model.half_width(), level);
    lemma_clamped_base_same_levels(model.half_height(), level);
    lemma_mip_dim_fits(model.half_width(), level);
    lemma_mip_dim_fits(model.half_height(), level);
}

/// Every scheduled pass dispatches the ceiling of `extent / 8` workgroups
/// along each axis of the level it writes: enough tiles to cover the level,
/// and not one more.
pub proof fn lemma_dispatch_covers_level(model: BloomModel, scene: ViewRef, k: int)
    requires
        1 <= model.max_level <= MAX_MIP_LEVELS,
        0 <= k < model.schedule_len(),
    ensures
        ({
            let pass = model.schedule(scene)[k];
            let width = model.level_width(pass.level);
            let height = model.level_height(pass.level);
            &&& pass.dispatch_x == spec_dispatch_count(width)
            &&& pass.dispatch_y == spec_dispatch_count(height)
            &&& pass.dispatch_z == 1
            &&& width <= 8 * pass.dispatch_x < width + 8
            &&& height <= 8 * pass.dispatch_y < height + 8
        }),
{
    let pass = model.schedule(scene)[k];
    lemma_mip_dim_fits(model.half_width(), pass.level);
    lemma_mip_dim_fits(model.half_height(), pass.level);
}

/// The composite dispatches over the full resolution, not the half.
pub proof fn lemma_composite_dispatch(model: BloomModel, scene: ViewRef, target: ViewRef)
    ensures
        ({
            let pass = model.composite_pass(scene, target);
            &&& pass.dispatch_x == spec_dispatch_count(model.full_width as nat)
            &&& pass.dispatch_y == spec_dispatch_count(model.full_height as nat)
            &&& model.full_width <= 8 * pass.dispatch_x < model.full_width + 8
            &&& model.full_height <= 8 * pass.dispatch_y < model.full_height + 8
        }),
{
}

/// Resizing twice to the same size wires everything as resizing once does.
/// Sizes, depth and settings agree, every scheduled pass and the composite
/// are wired identically, and only the generation, the identity of the
/// resources, has moved on.
pub proof fn lemma_resize_idempotent(
    model: BloomModel,
    width: u32,
    height: u32,
    scene: ViewRef,
    target: ViewRef,
    k: int,
)
    requires
        1 <= model.max_level <= MAX_MIP_LEVELS,
        0 <= k < model.schedule_len(),
    ensures
        ({
            let once = model.resized(width, height);
            let twice = once.resized(width, height);
            &&& twice.max_level == once.max_level
            &&& twice.full_width == once.full_width == width
            &&& twice.full_height == once.full_height == height
            &&& twice.settings == once.settings
            &&& twice.generation != once.generation
            &&& twice.schedule_len() == once.schedule_len() == model.schedule_len()
            &&& twice.schedule(scene)[k].same_wiring(once.schedule(scene)[k])
            &&& twice.composite_pass(scene, target).same_wiring(
                once.composite_pass(scene, target),
            )
        }),
{
    let once = model.resized(width, height);
    let twice = once.resized(width, height);
    let a = twice.schedule(scene)[k];
    let b = once.schedule(scene)[k];
    assert(a.groups.len() == 2 && b.groups.len() == 2);
    assert(a.groups[0].same_wiring(b.groups[0]));
    assert(a.groups[1].same_wiring(b.groups[1]));
    let c = twice.composite_pass(scene, target);
    let d = once.composite_pass(scene, target);
    assert(c.groups[0].same_wiring(d.groups[0]));
    assert(c.groups[1].same_wiring(d.groups[1]));
    assert(c.groups[2].same_wiring(d.groups[2]));
}

/// A resize leaves nothing of the old allocation in use: no bind group of a
/// scheduled pass of the resized effect binds a view of the generation
/// before, apart from the scene view the caller passes in.
pub proof fn lemma_resize_drops_old_views(
    model: BloomModel,
    width: u32,
    height: u32,
    scene: ViewRef,
    k: int,
    view: ViewRef,
)
    requires
        1 <= model.max_level <= MAX_MIP_LEVELS,
        0 <= k < model.schedule_len(),
        view != scene,
        model.resized(width, height).schedule(scene)[k].reads(view) || model.resized(
            width,
            height,
        ).schedule(scene)[k].writes(view),
    ensures
        view.generation == spec_next_generation(model.generation),
        view.generation != model.generation,
{
    crate::schedule::lemma_scheduled_pass_access(model.resized(width, height), scene, k, view);
}

/// The composite reads the scene and exactly the first `min(max_level, 8)`
/// levels of the vertical-blur chain, level `i` in slot `i`, and writes
/// exactly its target. Levels from the ninth on are blurred but not read.
pub proof fn lemma_composite_access(
    model: BloomModel,
    scene: ViewRef,
    target: ViewRef,
    view: ViewRef,
)
    requires
        1 <= model.max_level <= MAX_MIP_LEVELS,
    ensures
        model.composite_levels() == if model.max_level < 8 {
            model.max_level
        } else {
            8
        },
        model.composite_inputs().entries.len() == model.composite_levels() + 1,
        forall|i: int|
            0 <= i < model.composite_levels() ==> (#[trigger] model.composite_inputs().entries[i])
                == (crate::bind::BindGroupEntry {
                binding: i as u32,
                resource: BindResource::Sampled(model.mip_ref(ChainKind::VerticalBlur, i as u32)),
            }),
        model.composite_pass(scene, target).reads(view) <==> (view == scene || exists|level: u32|
            level < model.composite_levels() && view == #[trigger] model.mip_ref(
                ChainKind::VerticalBlur,
                level,
            )),
        model.composite_pass(scene, target).writes(view) <==> view == target,
{
    let pass = model.composite_pass(scene, target);
    let inputs = model.composite_inputs();
    let count = model.composite_levels();
    lemma_texture_pair_access(scene, target, view);
    lemma_uniform_group(GroupLayout::Settings, BufferRef::BloomSettings, view);
    assert(pass.groups[0] == model.settings_group());
    assert(pass.groups[1] == model.composite_targets(scene, target));
    assert(pass.groups[2] == inputs);
    assert(!inputs.writes(view)) by {
        if inputs.writes(view) {
            let i = choose|i: int|
                0 <= i < inputs.entries.len() && (#[trigger] inputs.entries[i]).resource
                    == BindResource::Storage(view);
            assert(false);
        }
    }
    if view == scene {
        assert(pass.groups[1].reads(view));
    }
    if view == target {
        assert(pass.groups[1].writes(view));
    }
    if exists|level: u32|
        level < count && view == #[trigger] model.mip_ref(ChainKind::VerticalBlur, level) {
        let level = choose|level: u32|
            level < count && view == #[trigger] model.mip_ref(ChainKind::VerticalBlur, level);
        assert(inputs.entries[level as int].resource == BindResource::Sampled(view));
        assert(pass.groups[2].reads(view));
    }
    if pass.reads(view) {
        let g = choose|g: int| 0 <= g < pass.groups.len() && (#[trigger] pass.groups[g]).reads(view);
        assert(g == 0 || g == 1 || g == 2);
        if g == 2 {
            let i = choose|i: int|
                0 <= i < inputs.entries.len() && (#[trigger] inputs.entries[i]).resource
                    == BindResource::Sampled(view);
            assert(i < count);
            assert(view == model.mip_ref(ChainKind::VerticalBlur, i as u32));
        }
    }
    if pass.writes(view) {
        let g = choose|g: int|
            0 <= g < pass.groups.len() && (#[trigger] pass.groups[g]).writes(view);
        assert(g == 0 || g == 1 || g == 2);
    }
}

/// Whatever the composite reads from the chains was written by a pass of
/// the schedule, which is recorded before it.
pub proof fn lemma_composite_reads_blurred(
    model: BloomModel,
    scene: ViewRef,
    target: ViewRef,
    view: ViewRef,
)
    requires
        1 <= model.max_level <= MAX_MIP_LEVELS,
        model.composite_pass(scene, target).reads(view),
        view != scene,
    ensures
        exists|j: int|
            0 <= j < model.schedule_len() && (#[trigger] model.schedule(scene)[j]).writes(view),
{
    lemma_composite_access(model, scene, target, view);
    let level = choose|level: u32|
        level < model.composite_levels() && view == #[trigger] model.mip_ref(
            ChainKind::VerticalBlur,
            level,
        );
    let j = crate::schedule::spec_blur_position(model.max_level, BlurAxis::Vertical, level);
    crate::schedule::lemma_recording_order(model, scene, level);
    crate::schedule::lemma_scheduled_pass_access(model, scene, j, view);
    assert(model.schedule(scene)[j].writes(view));
}

/// Every bind group of every pass fits the layout it is built against, and
/// all but the composite's inputs fill it. The composite's inputs fill
/// theirs exactly when the chains have at least eight levels.
pub proof fn lemma_groups_fit_layouts(model: BloomModel, scene: ViewRef, target: ViewRef, k: int)
    requires
        1 <= model.max_level <= MAX_MIP_LEVELS,
        0 <= k < model.schedule_len(),
    ensures
        model.schedule(scene)[k].groups.len() == 2,
        model.schedule(scene)[k].groups[0].layout == GroupLayout::Settings,
        model.schedule(scene)[k].groups[0].fills_layout(),
        model.schedule(scene)[k].groups[1].layout == GroupLayout::TexturePair,
        model.schedule(scene)[k].groups[1].fills_layout(),
        model.composite_pass(scene, target).groups.len() == 3,
        model.composite_pass(scene, target).groups[0].fills_layout(),
        model.composite_pass(scene, target).groups[1].fills_layout(),
        model.composite_pass(scene, target).groups[2].layout == GroupLayout::CompositeInputs,
        model.composite_pass(scene, target).groups[2].fits_layout(),
        model.composite_pass(scene, target).groups[2].fills_layout() <==> model.max_level
            >= COMPOSITE_SLOTS,
{
    let pass = model.schedule(scene)[k];
    lemma_uniform_group(GroupLayout::Settings, BufferRef::BloomSettings, scene);
    assert(pass.groups[0] == model.settings_group());
    let wiring = pass.groups[1];
    assert(wiring.fills_layout()) by {
        let read = wiring.entries[0].resource->Sampled_0;
        let write = wiring.entries[1].resource->Storage_0;
        assert(wiring =~= crate::bind::spec_texture_pair(read, write));
        lemma_texture_pair_access(read, write, scene);
    }
    let composite = model.composite_pass(scene, target);
    lemma_texture_pair_access(scene, target, scene);
    assert(composite.groups[1] == model.composite_targets(scene, target));
    assert(composite.groups[2] == model.composite_inputs());
}

/// Textures and slots agree. The textures of the chains and the
/// full-resolution colour targets have the format of the storage slot and
/// may be both sampled and written as storage, so any of their views fits
/// either slot of a texture pair; the slots of the composite's inputs take
/// 2D textures through a filtering sampler.
pub proof fn lemma_textures_fit_slots(width: u32, height: u32, levels: u32, slot: u32)
    ensures
        crate::bind::spec_slot_type(GroupLayout::TexturePair, 0) == Some(
            crate::bind::BindingType::SampledTexture {
                dimension: crate::texture::TextureDimension::D2,
                filterable: true,
            },
        ),
        crate::bind::spec_slot_type(GroupLayout::TexturePair, 1) == Some(
            crate::bind::BindingType::StorageTexture {
                format: crate::texture::spec_mip_texture(width, height, levels).format,
                write_only: true,
            },
        ),
        crate::texture::spec_mip_texture(width, height, levels).format
            == crate::texture::spec_color_target(width, height).format,
        crate::texture::spec_mip_texture(width, height, levels).dimension
            == crate::texture::TextureDimension::D2,
        crate::texture::spec_mip_texture(width, height, levels).usage.texture_binding,
        crate::texture::spec_mip_texture(width, height, levels).usage.storage_binding,
        crate::texture::spec_color_target(width, height).usage.texture_binding,
        crate::texture::spec_color_target(width, height).usage.storage_binding,
        crate::texture::spec_color_target(width, height).usage.render_attachment,
        slot < COMPOSITE_SLOTS ==> crate::bind::spec_slot_type(GroupLayout::CompositeInputs, slot)
            == Some(
            crate::bind::BindingType::SampledTexture {
                dimension: crate::texture::TextureDimension::D2,
                filterable: true,
            },
        ),
        crate::bind::spec_slot_type(GroupLayout::CompositeInputs, COMPOSITE_SLOTS) == Some(
            crate::bind::BindingType::Sampler { filtering: true },
        ),
        crate::bind::spec_slot_type(GroupLayout::Settings, 0) == Some(
            crate::bind::BindingType::UniformBuffer { dynamic_offset: false },
        ),
{
}

} // verus!
