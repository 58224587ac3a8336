//! The GPU-facing backend pipeline, modelled as verified state plus a command
//! buffer.
//!
//! The pipeline owns the renderer's view of the GPU atlas texture (its
//! dimensions and the hardware size limit) and of the uploaded vertex batch.
//! Every mutation is recorded as a [`Command`]; the hosting application drains
//! the buffer with [`Pipeline::take_commands`] and performs each command
//! verbatim against its graphics context, so the dimensions tracked here are
//! the dimensions of the real atlas texture.
use vstd::prelude::*;

use crate::cache::{Patch, Quad};
use crate::region::Region;

verus! {

/// A transform applied to glyph positions by a draw call, passed through to
/// the GPU backend unread.
pub enum Transform {
    /// An orthographic projection mapping `(0,0)`..`(width,height)` pixel
    /// space to clip space with the origin at the top left; the backend
    /// derives the matrix from these target dimensions.
    Orthographic { width: u32, height: u32 },
    /// A full 4x4 matrix, row major, each cell the bit pattern of an IEEE 754
    /// single-precision number.
    Matrix { cells: [u32; 16] },
}

/// One GPU operation the renderer asks its backend to perform. Commands come
/// out of [`Pipeline::take_commands`] in the order they must run.
pub enum Command {
    /// Write `data`, one coverage byte per texel, row major, into the
    /// sub-rectangle of the atlas texture of the given size at `(x, y)`.
    PatchAtlas { x: u32, y: u32, width: u32, height: u32, data: Vec<u8> },
    /// Reallocate the atlas texture at the new dimensions. Prior contents are
    /// not preserved: the cache engine re-emits every needed glyph as fresh
    /// patches after a resize.
    GrowAtlas { old_width: u32, old_height: u32, width: u32, height: u32 },
    /// Replace the vertex buffer contents with these quads, superseding the
    /// previous batch.
    UploadVertices { quads: Vec<Quad> },
    /// Issue one draw call covering the currently uploaded batch, under the
    /// transform and the optional scissor region.
    Draw { transform: Transform, scissor: Option<Region> },
}

/// The command that writes `p` into the atlas texture.
pub open spec fn patch_command(p: Patch) -> Command {
    Command::PatchAtlas { x: p.x, y: p.y, width: p.width, height: p.height, data: p.data }
}

/// The commands that write `ps` into the atlas texture, in order.
pub open spec fn patch_commands(ps: Seq<Patch>) -> Seq<Command> {
    ps.map_values(|p: Patch| patch_command(p))
}

/// One backend pipeline: the GPU-side state for one capability tier.
pub struct Pipeline {
    /// Width of the atlas texture, in texels.
    pub atlas_width: u32,
    /// Height of the atlas texture, in texels.
    pub atlas_height: u32,
    /// The GPU-imposed upper bound on any texture axis, probed once at
    /// construction.
    pub max_texture_size: u32,
    /// How many quads the currently uploaded vertex batch holds.
    pub quad_count: usize,
    /// GPU operations recorded and not yet handed to the host.
    pub commands: Vec<Command>,
}

impl Pipeline {
    /// The atlas texture dimensions `(width, height)`.
    pub open spec fn atlas_dims(&self) -> (u32, u32) {
        (self.atlas_width, self.atlas_height)
    }

    /// A fresh pipeline whose atlas texture has the given dimensions, holding
    /// an empty vertex batch and no pending commands.
    pub fn new(atlas_width: u32, atlas_height: u32, max_texture_size: u32) -> (r: Pipeline)
        ensures
            r.atlas_width == atlas_width,
            r.atlas_height == atlas_height,
            r.max_texture_size == max_texture_size,
            r.quad_count == 0,
            r.commands@ == Seq::<Command>::empty(),
    {
        Pipeline { atlas_width, atlas_height, max_texture_size, quad_count: 0, commands: Vec::new() }
    }

    /// Records the write of one patch into the atlas texture. The patch must
    /// lie within the current atlas dimensions: writing outside a texture is
    /// undefined at the GPU level.
    pub fn update_cache(&mut self, patch: Patch)
        requires
            patch.fits(old(self).atlas_dims()),
        ensures
            final(self).commands@ == old(self).commands@.push(patch_command(patch)),
            final(self).atlas_width == old(self).atlas_width,
            final(self).atlas_height == old(self).atlas_height,
            final(self).max_texture_size == old(self).max_texture_size,
            final(self).quad_count == old(self).quad_count,
    {
        let c = Command::PatchAtlas {
            x: patch.x,
            y: patch.y,
            width: patch.width,
            height: patch.height,
            data: patch.data,
        };
        self.commands.push(c);
    }

    /// Records the writes of all of `patches` into the atlas texture, in
    /// order.
    pub fn apply_patches(&mut self, patches: Vec<Patch>)
        requires
            forall|i: int|
                0 <= i < patches@.len() ==> (#[trigger] patches@[i]).fits(old(self).atlas_dims()),
        ensures
            final(self).commands@ == old(self).commands@ + patch_commands(patches@),
            final(self).atlas_width == old(self).atlas_width,
            final(self).atlas_height == old(self).atlas_height,
            final(self).max_texture_size == old(self).max_texture_size,
            final(self).quad_count == old(self).quad_count,
    {
        let ghost orig = patches@;
        let ghost done: int = 0;
        let mut patches = patches;
        while patches.len() > 0
            invariant
                0 <= done <= orig.len(),
                patches@ == orig.skip(done),
                forall|i: int| 0 <= i < orig.len() ==> (#[trigger] orig[i]).fits(old(self).atlas_dims()),
                self.commands@ == old(self).commands@ + patch_commands(orig.take(done)),
                self.atlas_width == old(self).atlas_width,
                self.atlas_height == old(self).atlas_height,
                self.max_texture_size == old(self).max_texture_size,
                self.quad_count == old(self).quad_count,
            decreases patches@.len(),
        {
            let p = patches.remove(0);
            assert(p == orig[done]);
            self.update_cache(p);
            proof {
                assert(orig.take(done + 1) =~= orig.take(done).push(orig[done]));
                assert(patch_commands(orig.take(done + 1)) =~= patch_commands(orig.take(done)).push(
                    patch_command(orig[done]),
                ));
                done = done + 1;
            }
        }
        proof {
            assert(orig.take(done) =~= orig);
        }
    }

    /// Records the reallocation of the atlas texture at the new dimensions
    /// and tracks them.
    pub fn increase_cache_size(&mut self, width: u32, height: u32)
        ensures
            final(self).atlas_width == width,
            final(self).atlas_height == height,
            final(self).commands@ == old(self).commands@.push(
                (Command::GrowAtlas {
                    old_width: old(self).atlas_width,
                    old_height: old(self).atlas_height,
                    width,
                    height,
                }),
            ),
            final(self).max_texture_size == old(self).max_texture_size,
            final(self).quad_count == old(self).quad_count,
    {
        let c = Command::GrowAtlas {
            old_width: self.atlas_width,
            old_height: self.atlas_height,
            width,
            height,
        };
        self.atlas_width = width;
        self.atlas_height = height;
        self.commands.push(c);
    }

    /// Records the upload of a fresh vertex batch, superseding the previous
    /// one.
    pub fn upload(&mut self, quads: Vec<Quad>)
        ensures
            final(self).quad_count == quads@.len(),
            final(self).commands@ == old(self).commands@.push(
                (Command::UploadVertices { quads }),
            ),
            final(self).atlas_width == old(self).atlas_width,
            final(self).atlas_height == old(self).atlas_height,
            final(self).max_texture_size == old(self).max_texture_size,
    {
        self.quad_count = quads.len();
        self.commands.push(Command::UploadVertices { quads });
    }

    /// Records one draw call over the currently uploaded batch.
    pub fn draw(&mut self, transform: Transform, scissor: Option<Region>)
        ensures
            final(self).commands@ == old(self).commands@.push(
                (Command::Draw { transform, scissor }),
            ),
            final(self).atlas_width == old(self).atlas_width,
            final(self).atlas_height == old(self).atlas_height,
            final(self).max_texture_size == old(self).max_texture_size,
            final(self).quad_count == old(self).quad_count,
    {
        self.commands.push(Command::Draw { transform, scissor });
    }

    /// The GPU-imposed upper bound on any texture axis.
    pub fn get_max_texture_size(&self) -> (r: u32)
        ensures
            r == self.max_texture_size,
    {
        self.max_texture_size
    }

    /// The atlas texture dimensions `(width, height)`.
    pub fn atlas_dimensions(&self) -> (r: (u32, u32))
        ensures
            r == self.atlas_dims(),
    {
        (self.atlas_width, self.atlas_height)
    }

    /// Hands every pending command to the caller, in the order they must run,
    /// and leaves the buffer empty.
    pub fn take_commands(&mut self) -> (r: Vec<Command>)
        ensures
            r@ == old(self).commands@,
            final(self).commands@ == Seq::<Command>::empty(),
            final(self).atlas_width == old(self).atlas_width,
            final(self).atlas_height == old(self).atlas_height,
            final(self).max_texture_size == old(self).max_texture_size,
            final(self).quad_count == old(self).quad_count,
    {
        let mut out: Vec<Command> = Vec::new();
        core::mem::swap(&mut out, &mut self.commands);
        out
    }
}

} // verus!
