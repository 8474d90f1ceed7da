//! Sizes of mip levels and of the dispatch grids that cover them.

use crate::texture::{create_mip_texture, spec_mip_texture, ChainKind, TextureDesc, ViewRef, ViewSource};
use vstd::arithmetic::power2::{lemma2_to64, lemma_pow2_pos, lemma_pow2_strictly_increases, lemma_pow2_unfold, pow2};
use vstd::bits::lemma_u32_shr_is_div;
use vstd::prelude::*;

verus! {

/// Edge length, in texels, of the square tile that one compute workgroup covers.
pub const TILE: u32 = 8;

/// Number of workgroups needed to cover `dim` texels along one axis.
pub open spec fn spec_dispatch_count(dim: nat) -> nat {
    (dim + 7) / 8
}

/// Extent along one axis of mip level `level` of a texture whose base extent
/// is `base`: the base halved `level` times, rounded down, and never below one.
pub open spec fn spec_mip_dim(base: nat, level: nat) -> nat {
    let shrunk = base / pow2(level);
    if shrunk < 1 {
        1
    } else {
        shrunk
    }
}

/// Workgroups along one axis for a target `dim` texels wide: the ceiling of
/// `dim / 8`. Unlike `(dim + 7) / 8` in machine arithmetic this cannot
/// overflow, whatever `dim` is.
pub fn dispatch_count(dim: u32) -> (n: u32)
    ensures
        n == spec_dispatch_count(dim as nat),
{
    let whole: u32 = dim / TILE;
    if dim % TILE == 0 {
        whole
    } else {
        whole + 1
    }
}

/// Extent of mip level `level` along an axis whose base extent is `base`.
/// Levels past the width of the integer give one, as halving would.
pub fn mip_dim(base: u32, level: u32) -> (d: u32)
    ensures
        d == spec_mip_dim(base as nat, level as nat),
        d >= 1,
{
    if level >= 32 {
        proof {
            lemma_mip_dim_bottom(base as nat, level as nat);
        }
        1
    } else {
        proof {
            lemma_u32_shr_is_div(base, level);
        }
        let shrunk: u32 = base >> level;
        if shrunk < 1 {
            1
        } else {
            shrunk
        }
    }
}

/// Once a level is deep enough that `base < 2^level`, its extent is one.
pub proof fn lemma_mip_dim_bottom(base: nat, level: nat)
    requires
        base < 0x1_0000_0000,
        level >= 32,
    ensures
        spec_mip_dim(base, level) == 1,
{
    lemma2_to64();
    if level > 32 {
        lemma_pow2_strictly_increases(32, level);
    }
    assert(base < pow2(level));
    assert(base / pow2(level) == 0) by (nonlinear_arith)
        requires
            base < pow2(level),
    ;
}

/// The dispatch count is the ceiling of `dim / 8`: that many tiles cover the
/// extent, and one tile fewer would not.
pub proof fn lemma_dispatch_count_is_ceiling(dim: nat)
    ensures
        8 * spec_dispatch_count(dim) >= dim,
        8 * spec_dispatch_count(dim) < dim + 8,
        dim > 0 ==> spec_dispatch_count(dim) >= 1,
{
}

/// Level zero has the base extent, clamped to one.
pub proof fn lemma_mip_dim_level_zero(base: nat)
    ensures
        spec_mip_dim(base, 0) == if base < 1 { 1 } else { base },
{
    lemma2_to64();
}

/// Each level is half the one before it, rounded down and clamped to one.
pub proof fn lemma_mip_dim_halves(base: nat, level: nat)
    ensures
        spec_mip_dim(base, level + 1) == if spec_mip_dim(base, level) / 2 < 1 {
            1
        } else {
            spec_mip_dim(base, level) / 2
        },
{
    lemma_pow2_unfold(level + 1);
    lemma_pow2_pos(level);
    let p = pow2(level);
    assert(pow2(level + 1) == 2 * p);
    assert(base / (p * 2) == (base / p) / 2) by (nonlinear_arith)
        requires
            p > 0,
    ;
}

/// Mip extents never grow with the level.
pub proof fn lemma_mip_dim_monotone(base: nat, level: nat)
    ensures
        spec_mip_dim(base, level + 1) <= spec_mip_dim(base, level),
        1 <= spec_mip_dim(base, level),
{
    lemma_mip_dim_halves(base, level);
}

/// A view of exactly one level of a mip chain, with the size of that level.
#[derive(Clone, Copy, Debug, PartialEq, Eq, Structural)]
pub struct MipView {
    pub chain: ChainKind,
    pub generation: u64,
    pub base_mip_level: u32,
    pub mip_level_count: u32,
    pub width: u32,
    pub height: u32,
}

/// The view of level `level` of a chain whose base level is `width` by `height`.
pub open spec fn spec_mip_view(
    chain: ChainKind,
    generation: u64,
    width: u32,
    height: u32,
    level: u32,
) -> MipView {
    MipView {
        chain,
        generation,
        base_mip_level: level,
        mip_level_count: 1,
        width: spec_mip_dim(width as nat, level as nat) as u32,
        height: spec_mip_dim(height as nat, level as nat) as u32,
    }
}

/// One view per level, level `i` at index `i`.
pub open spec fn spec_mip_views(
    chain: ChainKind,
    generation: u64,
    width: u32,
    height: u32,
    mip_count: u32,
) -> Seq<MipView> {
    Seq::new(mip_count as nat, |i: int| spec_mip_view(chain, generation, width, height, i as u32))
}

/// The reference by which bind groups name level `level` of a chain.
pub open spec fn spec_mip_ref(chain: ChainKind, generation: u64, level: u32) -> ViewRef {
    ViewRef { source: ViewSource::Mip { chain, level }, generation }
}

impl MipView {
    /// The reference that names this view in a bind group.
    pub fn view_ref(&self) -> (r: ViewRef)
        ensures
            r == spec_mip_ref(self.chain, self.generation, self.base_mip_level),
    {
        ViewRef {
            source: ViewSource::Mip { chain: self.chain, level: self.base_mip_level },
            generation: self.generation,
        }
    }
}

/// Describes `mip_count` single-level views over `texture`, one per level
/// starting at the base level.
pub fn create_mip_views(
    chain: ChainKind,
    generation: u64,
    texture: &TextureDesc,
    mip_count: u32,
) -> (views: Vec<MipView>)
    requires
        mip_count <= texture.mip_level_count,
    ensures
        views@ == spec_mip_views(chain, generation, texture.width, texture.height, mip_count),
{
    let mut views: Vec<MipView> = Vec::new();
    let mut level: u32 = 0;
    while level < mip_count
        invariant
            level <= mip_count,
            views@ == spec_mip_views(chain, generation, texture.width, texture.height, level),
        decreases mip_count - level,
    {
        let view = MipView {
            chain,
            generation,
            base_mip_level: level,
            mip_level_count: 1,
            width: mip_dim(texture.width, level),
            height: mip_dim(texture.height, level),
        };
        views.push(view);
        level = level + 1;
        assert(views@ =~= spec_mip_views(
            chain,
            generation,
            texture.width,
            texture.height,
            level,
        ));
    }
    views
}

/// What a [`MipChain`] is, as plain values: everything else about it follows.
pub struct MipChainModel {
    pub kind: ChainKind,
    pub generation: u64,
    pub width: u32,
    pub height: u32,
    pub levels: u32,
}

/// One mip-leveled colour target together with a single-level view of each
/// of its levels. Level `i` measures `max(1, width >> i)` by
/// `max(1, height >> i)`.
pub struct MipChain {
    kind: ChainKind,
    generation: u64,
    texture: TextureDesc,
    views: Vec<MipView>,
}

impl View for MipChain {
    type V = MipChainModel;

    closed spec fn view(&self) -> MipChainModel {
        MipChainModel {
            kind: self.kind,
            generation: self.generation,
            width: self.texture.width,
            height: self.texture.height,
            levels: self.texture.mip_level_count,
        }
    }
}

impl MipChain {
    #[verifier::type_invariant]
    spec fn well_formed(&self) -> bool {
        &&& self.texture.width >= 1
        &&& self.texture.height >= 1
        &&& self.texture.mip_level_count >= 1
        &&& self.texture == spec_mip_texture(
            self.texture.width,
            self.texture.height,
            self.texture.mip_level_count,
        )
        &&& self.views@ == spec_mip_views(
            self.kind,
            self.generation,
            self.texture.width,
            self.texture.height,
            self.texture.mip_level_count,
        )
    }

    /// Allocates a chain of `levels` levels whose base level is `width` by
    /// `height`. Callers clamp the size to at least one texel first.
    pub fn allocate(kind: ChainKind, generation: u64, width: u32, height: u32, levels: u32) -> (chain:
        MipChain)
        requires
            width >= 1,
            height >= 1,
            levels >= 1,
        ensures
            chain@ == (MipChainModel { kind, generation, width, height, levels }),
    {
        let texture = create_mip_texture(width, height, levels);
        let views = create_mip_views(kind, generation, &texture, levels);
        MipChain { kind, generation, texture, views }
    }

    /// Which of the three chains this is.
    pub fn kind(&self) -> (kind: ChainKind)
        ensures
            kind == self@.kind,
    {
        self.kind
    }

    /// The generation of this allocation.
    pub fn generation(&self) -> (generation: u64)
        ensures
            generation == self@.generation,
    {
        self.generation
    }

    /// Number of levels, at least one.
    pub fn levels(&self) -> (levels: u32)
        ensures
            levels == self@.levels,
            levels >= 1,
    {
        proof {
            use_type_invariant(self);
        }
        self.texture.mip_level_count
    }

    /// The texture to allocate for this chain.
    pub fn texture(&self) -> (texture: TextureDesc)
        ensures
            texture == spec_mip_texture(self@.width, self@.height, self@.levels),
            self@.width >= 1,
            self@.height >= 1,
            self@.levels >= 1,
    {
        proof {
            use_type_invariant(self);
        }
        self.texture
    }

    /// The views of this chain, level `i` at index `i`.
    pub fn views(&self) -> (views: &Vec<MipView>)
        ensures
            views@ == spec_mip_views(
                self@.kind,
                self@.generation,
                self@.width,
                self@.height,
                self@.levels,
            ),
    {
        proof {
            use_type_invariant(self);
        }
        &self.views
    }

    /// The reference that names level `level` of this chain.
    pub fn view_ref(&self, level: u32) -> (r: ViewRef)
        requires
            level < self@.levels,
        ensures
            r == spec_mip_ref(self@.kind, self@.generation, level),
    {
        proof {
            use_type_invariant(self);
        }
        self.views[level as usize].view_ref()
    }

    /// Width and height of level `level`.
    pub fn level_size(&self, level: u32) -> (size: (u32, u32))
        requires
            level < self@.levels,
        ensures
            size.0 == spec_mip_dim(self@.width as nat, level as nat),
            size.1 == spec_mip_dim(self@.height as nat, level as nat),
    {
        proof {
            use_type_invariant(self);
            lemma_mip_dim_fits(self.texture.width, level);
            lemma_mip_dim_fits(self.texture.height, level);
        }
        let view = &self.views[level as usize];
        (view.width, view.height)
    }
}

/// A mip extent of a `u32` base fits in a `u32`.
pub proof fn lemma_mip_dim_fits(base: u32, level: u32)
    ensures
        1 <= spec_mip_dim(base as nat, level as nat) <= u32::MAX,
        base >= 1 ==> spec_mip_dim(base as nat, level as nat) <= base,
{
    lemma_pow2_pos(level as nat);
    let p = pow2(level as nat);
    assert(base as nat / p <= base as nat) by (nonlinear_arith)
        requires
            p > 0,
    ;
}

} // verus!
