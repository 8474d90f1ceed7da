//! Render passes as plain values: what is drawn, into what, and whether the
//! target's previous content is kept.

use crate::bind::{group_views, BindGroup, BindGroupView};
use crate::texture::ViewRef;
use vstd::prelude::*;

verus! {

/// The three render passes of a frame.
#[derive(Clone, Copy, Debug, PartialEq, Eq, Structural)]
pub enum RenderPassKind {
    /// The scene, drawn into the scene target with depth testing.
    Scene,
    /// Colour correction, drawn into the surface.
    ColorCorrection,
    /// The user interface, drawn over the surface.
    Ui,
}

/// What happens to an attachment's previous content when a pass begins.
#[derive(Clone, Copy, Debug, PartialEq, Eq, Structural)]
pub enum LoadOp {
    /// Cleared to opaque black.
    ClearBlack,
    /// Kept: the pass draws over what is there.
    Load,
}

/// What happens to what a pass drew into an attachment when the pass ends.
#[derive(Clone, Copy, Debug, PartialEq, Eq, Structural)]
pub enum StoreOp {
    /// Written back: later passes see it.
    Store,
    /// Thrown away.
    Discard,
}

/// Bit pattern of the single-precision float `1.0`, the depth of the far
/// plane.
pub const CLEAR_DEPTH_FAR: u32 = 0x3F80_0000;

/// The depth attachment of a pass.
#[derive(Clone, Copy, Debug, PartialEq, Eq, Structural)]
pub struct DepthAttachment {
    pub view: ViewRef,
    /// The depth the attachment is cleared to when the pass begins, as the
    /// bit pattern of a single-precision float.
    pub clear_depth: u32,
    pub store: StoreOp,
}

/// A depth attachment that is cleared to the far plane and stored.
pub open spec fn spec_depth_attachment(view: ViewRef) -> DepthAttachment {
    DepthAttachment { view, clear_depth: CLEAR_DEPTH_FAR, store: StoreOp::Store }
}

/// Width of the indices of an index buffer.
#[derive(Clone, Copy, Debug, PartialEq, Eq, Structural)]
pub enum IndexFormat {
    Uint16,
    Uint32,
}

/// What a render pass draws.
#[derive(Clone, Copy, Debug, PartialEq, Eq, Structural)]
pub enum DrawCall {
    /// `vertex_count` vertices without a vertex buffer, `instance_count`
    /// times.
    Vertices { vertex_count: u32, instance_count: u32 },
    /// `index_count` indices of the given width into the quad's vertex
    /// buffer, `instance_count` times.
    Indexed { index_count: u32, instance_count: u32, format: IndexFormat },
    /// Whatever the user interface produced for this frame.
    UiDrawData,
}

/// One render pass to record.
#[derive(Debug, PartialEq, Eq)]
pub struct RenderPass {
    pub kind: RenderPassKind,
    /// The colour attachment.
    pub target: ViewRef,
    /// What happens to the colour attachment's previous content.
    pub color_load: LoadOp,
    /// What happens to what the pass drew into the colour attachment.
    pub color_store: StoreOp,
    /// The depth attachment, if the pass tests depth.
    pub depth: Option<DepthAttachment>,
    /// `groups[g]` is bound at group index `g`.
    pub groups: Vec<BindGroup>,
    pub draw: DrawCall,
}

/// A render pass as a mathematical value.
pub struct RenderPassView {
    pub kind: RenderPassKind,
    pub target: ViewRef,
    pub color_load: LoadOp,
    pub color_store: StoreOp,
    pub depth: Option<DepthAttachment>,
    pub groups: Seq<BindGroupView>,
    pub draw: DrawCall,
}

impl View for RenderPass {
    type V = RenderPassView;

    open spec fn view(&self) -> RenderPassView {
        RenderPassView {
            kind: self.kind,
            target: self.target,
            color_load: self.color_load,
            color_store: self.color_store,
            depth: self.depth,
            groups: group_views(self.groups@),
            draw: self.draw,
        }
    }
}

impl RenderPassView {
    /// Some bind group of the pass binds `view` for reading.
    pub open spec fn reads(self, view: ViewRef) -> bool {
        exists|g: int| 0 <= g < self.groups.len() && (#[trigger] self.groups[g]).reads(view)
    }

    /// The pass draws into `view`, as colour or as depth.
    pub open spec fn writes(self, view: ViewRef) -> bool {
        self.target == view || (self.depth is Some && self.depth.unwrap().view == view)
    }

    /// The pass keeps what its colour attachment held before.
    pub open spec fn preserves_target(self) -> bool {
        self.color_load == LoadOp::Load
    }

    /// Whatever the pass draws is written back, colour and depth.
    pub open spec fn stores_all(self) -> bool {
        &&& self.color_store == StoreOp::Store
        &&& self.depth is Some ==> self.depth.unwrap().store == StoreOp::Store
    }
}

} // verus!
