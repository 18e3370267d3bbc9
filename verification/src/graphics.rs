//! The engine, which lives as long as the device, and the frame, which
//! records one frame's passes.

use vstd::prelude::*;
use crate::batch::{
    flush_before_append, lemma_capacity_bound, lemma_flush_colored, lemma_flush_textured,
    lemma_no_empty_draw, lemma_order_kept, lemma_step_paints, lemma_whole_triangles, FrameState,
    Op,
};
use crate::command::{
    paints, CommandBuffer, DrawCall, DrawSetup, Paint, Pass, RenderPass, Vertices,
};
use crate::draw_state::{DrawState, PipelineKey, Rect, VertexKind};
use crate::pipeline::{ColorFormat, PipelineCache, PipelineDescriptor};
use crate::texture::{Texture, TextureError};
use crate::vertex::{
    colored_vertices, colored_vertices_c, shortest, textured_vertices, textured_vertices_c,
    ColoredPipelineInput, TexturedPipelineInput, ONE,
};

verus! {

/// Number of largest chunks of vertices that a batch of the default
/// capacity holds.
pub const CHUNKS: usize = 100;

/// Largest number of vertices that one call of a vertex callback hands
/// over.
///
/// Not proved: this reads the constant `BACK_END_MAX_VERTEX_COUNT` of the
/// `graphics` crate, and the contract says that the constant is 1023.
#[verifier::external_body]
fn buffer_size() -> (n: usize)
    ensures
        n == 1023,
{
    ::graphics::BACK_END_MAX_VERTEX_COUNT
}

/// The default soft capacity of a batch, in vertices: room for
/// [`CHUNKS`] chunks of the largest size.
pub fn soft_buffer_limit() -> (n: usize)
    ensures
        n == 102300,
{
    CHUNKS * buffer_size()
}

/// One drawing operation of a frame, as it is handed to [`Wgpu2d::draw`].
#[derive(Debug, PartialEq, Eq)]
pub enum DrawOp {
    /// [`WgpuGraphics::tri_list`].
    TriList { draw_state: DrawState, color: [u32; 4], positions: Vec<[u32; 2]> },
    /// [`WgpuGraphics::tri_list_c`].
    TriListC { draw_state: DrawState, positions: Vec<[u32; 2]>, colors: Vec<[u32; 4]> },
    /// [`WgpuGraphics::tri_list_uv`].
    TriListUv {
        draw_state: DrawState,
        color: [u32; 4],
        texture: Texture,
        xys: Vec<[u32; 2]>,
        uvs: Vec<[u32; 2]>,
    },
    /// [`WgpuGraphics::tri_list_uv_c`].
    TriListUvC {
        draw_state: DrawState,
        texture: Texture,
        xys: Vec<[u32; 2]>,
        uvs: Vec<[u32; 2]>,
        colors: Vec<[u32; 4]>,
    },
    /// [`WgpuGraphics::clear_color`].
    ClearColor([u32; 4]),
    /// [`WgpuGraphics::clear_stencil`].
    ClearStencil(u8),
}

impl View for DrawOp {
    type V = Op;

    open spec fn view(&self) -> Op {
        match self {
            DrawOp::TriList { draw_state, color, positions } => Op::Colored {
                state: *draw_state,
                vertices: colored_vertices(positions@, *color),
            },
            DrawOp::TriListC { draw_state, positions, colors } => Op::Colored {
                state: *draw_state,
                vertices: colored_vertices_c(positions@, colors@),
            },
            DrawOp::TriListUv { draw_state, color, texture, xys, uvs } => Op::Textured {
                state: *draw_state,
                texture: *texture,
                vertices: textured_vertices(xys@, uvs@, *color),
            },
            DrawOp::TriListUvC { draw_state, texture, xys, uvs, colors } => Op::Textured {
                state: *draw_state,
                texture: *texture,
                vertices: textured_vertices_c(xys@, uvs@, colors@),
            },
            DrawOp::ClearColor(color) => Op::ClearColor(*color),
            DrawOp::ClearStencil(value) => Op::ClearStencil(*value),
        }
    }
}

/// The operations of `ops` as mathematical values.
pub open spec fn ops_of(ops: Seq<DrawOp>) -> Seq<Op> {
    ops.map_values(|op: DrawOp| op@)
}

/// The resource needed for rendering 2D: the pipelines, built once, and the
/// two vertex batches, whose storage is kept from frame to frame.
pub struct Wgpu2d {
    render_pipelines: PipelineCache,
    capacity: usize,
    colored_data: Vec<ColoredPipelineInput>,
    textured_data: Vec<TexturedPipelineInput>,
}

impl Wgpu2d {
    /// The pipelines.
    pub closed spec fn pipelines(&self) -> PipelineCache {
        self.render_pipelines
    }

    /// Pixel format of the output the pipelines were built for.
    pub open spec fn format(&self) -> ColorFormat {
        self.pipelines().format()
    }

    /// Soft limit on the number of vertices of one batch.
    pub closed spec fn capacity(&self) -> usize {
        self.capacity
    }

    /// The pending batch of colored vertices.
    pub closed spec fn colored(&self) -> Seq<ColoredPipelineInput> {
        self.colored_data@
    }

    /// The pending batch of textured vertices.
    pub closed spec fn textured(&self) -> Seq<TexturedPipelineInput> {
        self.textured_data@
    }

    /// Builds the sixty pipelines for an output of `format` and two empty
    /// batches with a soft capacity of `capacity` vertices. Storage for a
    /// full batch is reserved at once, though for no more vertices than
    /// the default capacity has.
    pub fn new(format: ColorFormat, capacity: usize) -> (r: Wgpu2d)
        ensures
            r.pipelines().wf(),
            r.format() == format,
            r.capacity() == capacity,
            r.colored().len() == 0,
            r.textured().len() == 0,
    {
        let limit = soft_buffer_limit();
        let reserved = if capacity <= limit {
            capacity
        } else {
            limit
        };
        Wgpu2d {
            render_pipelines: PipelineCache::build(format),
            capacity,
            colored_data: Vec::with_capacity(reserved),
            textured_data: Vec::with_capacity(reserved),
        }
    }

    /// The pipeline of `key`. Every key has one, and the same one at every
    /// call.
    pub fn pipeline(&self, key: PipelineKey) -> (r: &PipelineDescriptor)
        ensures
            self.pipelines().wf(),
            *r == self.pipelines().stored(key),
            *r == PipelineDescriptor::spec_of(self.format(), key),
    {
        self.render_pipelines.get(key)
    }

    /// Appends one colored vertex per position, all of one color.
    fn extend_colored(&mut self, positions: &[[u32; 2]], color: [u32; 4])
        ensures
            final(self).colored_data@ == old(self).colored_data@ + colored_vertices(
                positions@,
                color,
            ),
            final(self).textured_data == old(self).textured_data,
            final(self).capacity == old(self).capacity,
            final(self).render_pipelines == old(self).render_pipelines,
    {
        let ghost all = colored_vertices(positions@, color);
        let mut i: usize = 0;
        while i < positions.len()
            invariant
                i <= positions.len(),
                all == colored_vertices(positions@, color),
                self.colored_data@ == old(self).colored_data@ + all.take(i as int),
                self.textured_data == old(self).textured_data,
                self.capacity == old(self).capacity,
                self.render_pipelines == old(self).render_pipelines,
            decreases positions.len() - i,
        {
            self.colored_data.push(ColoredPipelineInput { position: positions[i], color });
            i += 1;
            assert(self.colored_data@ =~= old(self).colored_data@ + all.take(i as int));
        }
        assert(all.take(i as int) =~= all);
    }

    /// Appends one colored vertex per pair of a position and a color.
    fn extend_colored_c(&mut self, positions: &[[u32; 2]], colors: &[[u32; 4]])
        ensures
            final(self).colored_data@ == old(self).colored_data@ + colored_vertices_c(
                positions@,
                colors@,
            ),
            final(self).textured_data == old(self).textured_data,
            final(self).capacity == old(self).capacity,
            final(self).render_pipelines == old(self).render_pipelines,
    {
        let ghost all = colored_vertices_c(positions@, colors@);
        let n = shortest(positions.len(), colors.len(), colors.len());
        let mut i: usize = 0;
        while i < n
            invariant
                i <= n,
                n == all.len(),
                n <= positions.len(),
                n <= colors.len(),
                all == colored_vertices_c(positions@, colors@),
                self.colored_data@ == old(self).colored_data@ + all.take(i as int),
                self.textured_data == old(self).textured_data,
                self.capacity == old(self).capacity,
                self.render_pipelines == old(self).render_pipelines,
            decreases n - i,
        {
            self.colored_data.push(
                ColoredPipelineInput { position: positions[i], color: colors[i] },
            );
            i += 1;
            assert(self.colored_data@ =~= old(self).colored_data@ + all.take(i as int));
        }
        assert(all.take(i as int) =~= all);
    }

    /// Appends one textured vertex per pair of a position and a texture
    /// coordinate, all of one color.
    fn extend_textured(&mut self, xys: &[[u32; 2]], uvs: &[[u32; 2]], color: [u32; 4])
        ensures
            final(self).textured_data@ == old(self).textured_data@ + textured_vertices(
                xys@,
                uvs@,
                color,
            ),
            final(self).colored_data == old(self).colored_data,
            final(self).capacity == old(self).capacity,
            final(self).render_pipelines == old(self).render_pipelines,
    {
        let ghost all = textured_vertices(xys@, uvs@, color);
        let n = shortest(xys.len(), uvs.len(), uvs.len());
        let mut i: usize = 0;
        while i < n
            invariant
                i <= n,
                n == all.len(),
                n <= xys.len(),
                n <= uvs.len(),
                all == textured_vertices(xys@, uvs@, color),
                self.textured_data@ == old(self).textured_data@ + all.take(i as int),
                self.colored_data == old(self).colored_data,
                self.capacity == old(self).capacity,
                self.render_pipelines == old(self).render_pipelines,
            decreases n - i,
        {
            self.textured_data.push(TexturedPipelineInput { xy: xys[i], uv: uvs[i], color });
            i += 1;
            assert(self.textured_data@ =~= old(self).textured_data@ + all.take(i as int));
        }
        assert(all.take(i as int) =~= all);
    }

    /// Appends one textured vertex per triple of a position, a texture
    /// coordinate and a color.
    fn extend_textured_c(&mut self, xys: &[[u32; 2]], uvs: &[[u32; 2]], colors: &[[u32; 4]])
        ensures
            final(self).textured_data@ == old(self).textured_data@ + textured_vertices_c(
                xys@,
                uvs@,
                colors@,
            ),
            final(self).colored_data == old(self).colored_data,
            final(self).capacity == old(self).capacity,
            final(self).render_pipelines == old(self).render_pipelines,
    {
        let ghost all = textured_vertices_c(xys@, uvs@, colors@);
        let n = shortest(xys.len(), uvs.len(), colors.len());
        let mut i: usize = 0;
        while i < n
            invariant
                i <= n,
                n == all.len(),
                n <= xys.len(),
                n <= uvs.len(),
                n <= colors.len(),
                all == textured_vertices_c(xys@, uvs@, colors@),
                self.textured_data@ == old(self).textured_data@ + all.take(i as int),
                self.colored_data == old(self).colored_data,
                self.capacity == old(self).capacity,
                self.render_pipelines == old(self).render_pipelines,
            decreases n - i,
        {
            self.textured_data.push(
                TexturedPipelineInput { xy: xys[i], uv: uvs[i], color: colors[i] },
            );
            i += 1;
            assert(self.textured_data@ =~= old(self).textured_data@ + all.take(i as int));
        }
        assert(all.take(i as int) =~= all);
    }

}

/// A copy of `source` in storage of its own.
fn copy_of<T: Copy>(source: &Vec<T>) -> (r: Vec<T>)
    ensures
        r@ == source@,
{
    let mut r: Vec<T> = Vec::new();
    let mut i: usize = 0;
    while i < source.len()
        invariant
            i <= source.len(),
            r@ == source@.take(i as int),
        decreases source.len() - i,
    {
        r.push(source[i]);
        i += 1;
        assert(r@ =~= source@.take(i as int));
    }
    assert(source@.take(source.len() as int) =~= source@);
    r
}

/// The passes of `recorded` as mathematical values.
pub open spec fn passes_of(recorded: Seq<RenderPass>) -> Seq<Pass> {
    recorded.map_values(|p: RenderPass| p@)
}

/// Graphics back-end: one frame under construction.
pub struct WgpuGraphics<'a> {
    /// The engine, whose batches the frame fills.
    wgpu2d: &'a mut Wgpu2d,
    /// Extent of the output.
    width: u32,
    height: u32,
    /// The passes recorded so far.
    command_encoder: Vec<RenderPass>,
    /// The draw state of the pending batch.
    draw_state: DrawState,
    /// The texture of the pending textured batch.
    texture: Option<Texture>,
}

impl<'a> WgpuGraphics<'a> {
    /// The frame as a mathematical value.
    pub closed spec fn view(&self) -> FrameState {
        FrameState {
            format: self.wgpu2d.render_pipelines.format(),
            capacity: self.wgpu2d.capacity as nat,
            width: self.width,
            height: self.height,
            passes: passes_of(self.command_encoder@),
            draw_state: self.draw_state,
            texture: self.texture,
            colored: self.wgpu2d.colored_data@,
            textured: self.wgpu2d.textured_data@,
        }
    }

    /// [`WgpuGraphics::new`], which also says that the frame hands the
    /// engine back to where it was borrowed from.
    fn open(wgpu2d: &'a mut Wgpu2d, width: u32, height: u32) -> (r: WgpuGraphics<'a>)
        ensures
            r@ == FrameState::begin(
                old(wgpu2d).format(),
                old(wgpu2d).capacity() as nat,
                width,
                height,
            ),
            *final(r.wgpu2d) == *final(wgpu2d),
    {
        wgpu2d.colored_data.clear();
        wgpu2d.textured_data.clear();
        let r = WgpuGraphics {
            wgpu2d,
            width,
            height,
            command_encoder: Vec::new(),
            draw_state: DrawState::default(),
            texture: None,
        };
        assert(r@.passes =~= Seq::<Pass>::empty());
        r
    }

    /// What is bound to draw the pending batch of `kind`.
    fn setup(&self, kind: VertexKind) -> (r: DrawSetup)
        ensures
            r == self@.setup(kind),
    {
        let key = self.draw_state.key(kind);
        let (pipeline, stencil_val) = self.wgpu2d.render_pipelines.stencil_blend(
            kind,
            self.draw_state.stencil,
            self.draw_state.blend,
        );
        DrawSetup {
            key,
            pipeline: *pipeline,
            blend_constant: [ONE, ONE, ONE, ONE],
            scissor: match self.draw_state.scissor {
                Some(rect) => rect,
                None => Rect { x: 0, y: 0, width: self.width, height: self.height },
            },
            stencil_reference: match stencil_val {
                Some(value) => Some(value as u32),
                None => None,
            },
            texture: match kind {
                VertexKind::Colored => None,
                VertexKind::Textured => self.texture,
            },
        }
    }

    /// [`WgpuGraphics::command_colored`].
    fn emit_colored(&mut self)
        ensures
            final(self)@ == old(self)@.flush_colored(),
            *final(final(self).wgpu2d) == *final(old(self).wgpu2d),
    {
        if self.wgpu2d.colored_data.len() == 0 {
            return ;
        }
        let setup = self.setup(VertexKind::Colored);
        let vertices = copy_of(&self.wgpu2d.colored_data);
        let pass = RenderPass::Draw(DrawCall { setup, vertices: Vertices::Colored(vertices) });
        self.command_encoder.push(pass);
        self.wgpu2d.colored_data.clear();
        assert(self@.passes =~= old(self)@.flush_colored().passes);
        assert(self@.colored =~= old(self)@.flush_colored().colored);
    }

    /// [`WgpuGraphics::command_textured`].
    fn emit_textured(&mut self)
        ensures
            final(self)@ == old(self)@.flush_textured(),
            *final(final(self).wgpu2d) == *final(old(self).wgpu2d),
    {
        if self.wgpu2d.textured_data.len() == 0 {
            return ;
        }
        let setup = self.setup(VertexKind::Textured);
        let vertices = copy_of(&self.wgpu2d.textured_data);
        let pass = RenderPass::Draw(DrawCall { setup, vertices: Vertices::Textured(vertices) });
        self.command_encoder.push(pass);
        self.wgpu2d.textured_data.clear();
        assert(self@.passes =~= old(self)@.flush_textured().passes);
        assert(self@.textured =~= old(self)@.flush_textured().textured);
    }

    /// [`WgpuGraphics::draw`], which also says how the frame leaves the
    /// engine: as it was, with both batches empty.
    fn close(self) -> (r: CommandBuffer)
        ensures
            r@ == self@.finish(),
            r.width == self@.width,
            r.height == self@.height,
            final(self.wgpu2d).format() == self@.format,
            final(self.wgpu2d).capacity() == self@.capacity,
            final(self.wgpu2d).colored().len() == 0,
            final(self.wgpu2d).textured().len() == 0,
    {
        let mut frame = self;
        frame.emit_colored();
        frame.emit_textured();
        CommandBuffer { width: frame.width, height: frame.height, passes: frame.command_encoder }
    }

    /// [`WgpuGraphics::clear_color`]. Like every operation on the frame it
    /// also says that the frame still hands the engine back to where it was
    /// borrowed from.
    fn record_clear_color(&mut self, color: [u32; 4])
        ensures
            final(self)@ == old(self)@.clear_color(color),
            *final(final(self).wgpu2d) == *final(old(self).wgpu2d),
    {
        self.emit_colored();
        self.emit_textured();
        let ghost before = self@;
        self.command_encoder.push(RenderPass::ClearColor(color));
        assert(self@.passes =~= before.passes.push(Pass::ClearColor(color)));
    }

    /// [`WgpuGraphics::clear_stencil`].
    fn record_clear_stencil(&mut self, value: u8)
        ensures
            final(self)@ == old(self)@.clear_stencil(value),
            *final(final(self).wgpu2d) == *final(old(self).wgpu2d),
    {
        self.emit_colored();
        self.emit_textured();
        let ghost before = self@;
        self.command_encoder.push(RenderPass::ClearStencil(value as u32));
        assert(self@.passes =~= before.passes.push(Pass::ClearStencil(value as u32)));
    }

    /// Makes room for `incoming` colored vertices drawn in `draw_state`:
    /// flushes the textured batch, then the colored batch if it has to be.
    fn prepare_colored(&mut self, draw_state: &DrawState, incoming: usize)
        ensures
            final(self)@ == old(self)@.prepare_colored(*draw_state, incoming as nat),
            *final(final(self).wgpu2d) == *final(old(self).wgpu2d),
    {
        self.emit_textured();
        let same = *draw_state == self.draw_state;
        if flush_before_append(
            self.wgpu2d.colored_data.len(),
            incoming,
            self.wgpu2d.capacity,
            same,
        ) {
            self.emit_colored();
        }
        self.draw_state = *draw_state;
    }

    /// Makes room for `incoming` textured vertices drawn in `draw_state`
    /// with `texture`: flushes the colored batch, then the textured batch
    /// if it has to be.
    fn prepare_textured(&mut self, draw_state: &DrawState, texture: &Texture, incoming: usize)
        ensures
            final(self)@ == old(self)@.prepare_textured(*draw_state, *texture, incoming as nat),
            *final(final(self).wgpu2d) == *final(old(self).wgpu2d),
    {
        self.emit_colored();
        let same = *draw_state == self.draw_state && match self.texture {
            Some(prev_texture) => *texture == prev_texture,
            None => false,
        };
        if flush_before_append(
            self.wgpu2d.textured_data.len(),
            incoming,
            self.wgpu2d.capacity,
            same,
        ) {
            self.emit_textured();
        }
        self.texture = Some(*texture);
        self.draw_state = *draw_state;
    }

    /// [`WgpuGraphics::tri_list`].
    fn record_tri_list(&mut self, draw_state: &DrawState, color: &[u32; 4], positions: &[[u32; 2]])
        ensures
            final(self)@ == old(self)@.submit_colored(
                *draw_state,
                colored_vertices(positions@, *color),
            ),
            *final(final(self).wgpu2d) == *final(old(self).wgpu2d),
    {
        self.prepare_colored(draw_state, positions.len());
        self.wgpu2d.extend_colored(positions, *color);
    }

    /// [`WgpuGraphics::tri_list_c`].
    fn record_tri_list_c(&mut self, draw_state: &DrawState, positions: &[[u32; 2]], colors: &[[u32; 4]])
        ensures
            final(self)@ == old(self)@.submit_colored(
                *draw_state,
                colored_vertices_c(positions@, colors@),
            ),
            *final(final(self).wgpu2d) == *final(old(self).wgpu2d),
    {
        let n = shortest(positions.len(), colors.len(), colors.len());
        self.prepare_colored(draw_state, n);
        self.wgpu2d.extend_colored_c(positions, colors);
    }

    /// [`WgpuGraphics::tri_list_uv`].
    fn record_tri_list_uv(
        &mut self,
        draw_state: &DrawState,
        color: &[u32; 4],
        texture: &Texture,
        xys: &[[u32; 2]],
        uvs: &[[u32; 2]],
    ) -> (r: Result<(), TextureError>)
        ensures
            r is Ok <==> texture.spec_is_valid(),
            r is Ok ==> final(self)@ == old(self)@.submit_textured(
                *draw_state,
                *texture,
                textured_vertices(xys@, uvs@, *color),
            ),
            r is Err ==> r == Err::<(), TextureError>(TextureError::Invalid) && final(self)@ == old(
                self,
            )@,
            *final(final(self).wgpu2d) == *final(old(self).wgpu2d),
    {
        if !texture.is_valid() {
            return Err(TextureError::Invalid);
        }
        let n = shortest(xys.len(), uvs.len(), uvs.len());
        self.prepare_textured(draw_state, texture, n);
        self.wgpu2d.extend_textured(xys, uvs, *color);
        Ok(())
    }

    /// [`WgpuGraphics::tri_list_uv_c`].
    fn record_tri_list_uv_c(
        &mut self,
        draw_state: &DrawState,
        texture: &Texture,
        xys: &[[u32; 2]],
        uvs: &[[u32; 2]],
        colors: &[[u32; 4]],
    ) -> (r: Result<(), TextureError>)
        ensures
            r is Ok <==> texture.spec_is_valid(),
            r is Ok ==> final(self)@ == old(self)@.submit_textured(
                *draw_state,
                *texture,
                textured_vertices_c(xys@, uvs@, colors@),
            ),
            r is Err ==> r == Err::<(), TextureError>(TextureError::Invalid) && final(self)@ == old(
                self,
            )@,
            *final(final(self).wgpu2d) == *final(old(self).wgpu2d),
    {
        if !texture.is_valid() {
            return Err(TextureError::Invalid);
        }
        let n = shortest(xys.len(), uvs.len(), colors.len());
        self.prepare_textured(draw_state, texture, n);
        self.wgpu2d.extend_textured_c(xys, uvs, colors);
        Ok(())
    }
}

impl<'a> WgpuGraphics<'a> {
    /// [`WgpuGraphics::perform`].
    fn record(&mut self, op: &DrawOp) -> (r: Result<(), TextureError>)
        ensures
            final(self)@ == old(self)@.step(op@),
            r is Err <==> op@.refused(),
            r is Err ==> r == Err::<(), TextureError>(TextureError::Invalid),
            *final(final(self).wgpu2d) == *final(old(self).wgpu2d),
    {
        match op {
            DrawOp::TriList { draw_state, color, positions } => {
                self.record_tri_list(draw_state, color, positions.as_slice());
                Ok(())
            },
            DrawOp::TriListC { draw_state, positions, colors } => {
                self.record_tri_list_c(draw_state, positions.as_slice(), colors.as_slice());
                Ok(())
            },
            DrawOp::TriListUv { draw_state, color, texture, xys, uvs } => {
                self.record_tri_list_uv(draw_state, color, texture, xys.as_slice(), uvs.as_slice())
            },
            DrawOp::TriListUvC { draw_state, texture, xys, uvs, colors } => {
                self.record_tri_list_uv_c(
                    draw_state,
                    texture,
                    xys.as_slice(),
                    uvs.as_slice(),
                    colors.as_slice(),
                )
            },
            DrawOp::ClearColor(color) => {
                self.record_clear_color(*color);
                Ok(())
            },
            DrawOp::ClearStencil(value) => {
                self.record_clear_stencil(*value);
                Ok(())
            },
        }
    }
}

impl<'a> WgpuGraphics<'a> {
    /// Begins a frame on an output `width` by `height` pixels. Vertices
    /// that an abandoned frame left in the engine are discarded.
    pub fn new(wgpu2d: &'a mut Wgpu2d, width: u32, height: u32) -> (r: WgpuGraphics<'a>)
        ensures
            r@ == FrameState::begin(
                old(wgpu2d).format(),
                old(wgpu2d).capacity() as nat,
                width,
                height,
            ),
            r@.wf(),
    {
        WgpuGraphics::open(wgpu2d, width, height)
    }

    /// Performs the recorded operations: records whatever is pending and
    /// returns the frame's passes for submission.
    pub fn draw(self) -> (r: CommandBuffer)
        ensures
            r@ == self@.finish(),
            r.width == self@.width,
            r.height == self@.height,
    {
        self.close()
    }

    /// Records whatever is pending, then a pass that fills the color
    /// target with `color` and keeps the stencil attachment.
    pub fn clear_color(&mut self, color: [u32; 4])
        ensures
            final(self)@ == old(self)@.clear_color(color),
            old(self)@.wf() ==> final(self)@.wf(),
    {
        proof {
            if self@.wf() {
                lemma_step_paints(self@, Op::ClearColor(color));
            }
        }
        self.record_clear_color(color)
    }

    /// Records whatever is pending, then a pass that fills the stencil
    /// attachment with `value` and keeps the color target.
    pub fn clear_stencil(&mut self, value: u8)
        ensures
            final(self)@ == old(self)@.clear_stencil(value),
            old(self)@.wf() ==> final(self)@.wf(),
    {
        proof {
            if self@.wf() {
                lemma_step_paints(self@, Op::ClearStencil(value));
            }
        }
        self.record_clear_stencil(value)
    }

    /// Renders a list of triangles in one color.
    ///
    /// `positions` holds one position per vertex. The vertices join the
    /// colored batch; what has to be drawn before them is flushed first.
    pub fn tri_list(&mut self, draw_state: &DrawState, color: &[u32; 4], positions: &[[u32; 2]])
        ensures
            final(self)@ == old(self)@.submit_colored(
                *draw_state,
                colored_vertices(positions@, *color),
            ),
            old(self)@.wf() ==> final(self)@.wf(),
    {
        proof {
            if self@.wf() {
                lemma_step_paints(
                    self@,
                    Op::Colored {
                        state: *draw_state,
                        vertices: colored_vertices(positions@, *color),
                    },
                );
            }
        }
        self.record_tri_list(draw_state, color, positions)
    }

    /// Renders a list of triangles with a color per vertex.
    ///
    /// A vertex is made of each pair of a position and a color; what is
    /// left over of the longer list is dropped.
    pub fn tri_list_c(&mut self, draw_state: &DrawState, positions: &[[u32; 2]], colors: &[[u32; 4]])
        ensures
            final(self)@ == old(self)@.submit_colored(
                *draw_state,
                colored_vertices_c(positions@, colors@),
            ),
            old(self)@.wf() ==> final(self)@.wf(),
    {
        proof {
            if self@.wf() {
                lemma_step_paints(
                    self@,
                    Op::Colored {
                        state: *draw_state,
                        vertices: colored_vertices_c(positions@, colors@),
                    },
                );
            }
        }
        self.record_tri_list_c(draw_state, positions, colors)
    }

    /// Renders a list of textured triangles in one color.
    ///
    /// A texture that is not valid is refused at once, and the frame stays
    /// as it was. Otherwise a vertex is made of each pair of a position and
    /// a texture coordinate, and the vertices join the textured batch; what
    /// has to be drawn before them is flushed first.
    pub fn tri_list_uv(
        &mut self,
        draw_state: &DrawState,
        color: &[u32; 4],
        texture: &Texture,
        xys: &[[u32; 2]],
        uvs: &[[u32; 2]],
    ) -> (r: Result<(), TextureError>)
        ensures
            r is Ok <==> texture.spec_is_valid(),
            r is Ok ==> final(self)@ == old(self)@.submit_textured(
                *draw_state,
                *texture,
                textured_vertices(xys@, uvs@, *color),
            ),
            r is Err ==> r == Err::<(), TextureError>(TextureError::Invalid) && final(self)@ == old(
                self,
            )@,
            old(self)@.wf() ==> final(self)@.wf(),
    {
        proof {
            if self@.wf() {
                lemma_step_paints(
                    self@,
                    Op::Textured {
                        state: *draw_state,
                        texture: *texture,
                        vertices: textured_vertices(xys@, uvs@, *color),
                    },
                );
            }
        }
        self.record_tri_list_uv(draw_state, color, texture, xys, uvs)
    }

    /// Renders a list of textured triangles with a color per vertex.
    ///
    /// As [`WgpuGraphics::tri_list_uv`], with a vertex made of each triple
    /// of a position, a texture coordinate and a color.
    pub fn tri_list_uv_c(
        &mut self,
        draw_state: &DrawState,
        texture: &Texture,
        xys: &[[u32; 2]],
        uvs: &[[u32; 2]],
        colors: &[[u32; 4]],
    ) -> (r: Result<(), TextureError>)
        ensures
            r is Ok <==> texture.spec_is_valid(),
            r is Ok ==> final(self)@ == old(self)@.submit_textured(
                *draw_state,
                *texture,
                textured_vertices_c(xys@, uvs@, colors@),
            ),
            r is Err ==> r == Err::<(), TextureError>(TextureError::Invalid) && final(self)@ == old(
                self,
            )@,
            old(self)@.wf() ==> final(self)@.wf(),
    {
        proof {
            if self@.wf() {
                lemma_step_paints(
                    self@,
                    Op::Textured {
                        state: *draw_state,
                        texture: *texture,
                        vertices: textured_vertices_c(xys@, uvs@, colors@),
                    },
                );
            }
        }
        self.record_tri_list_uv_c(draw_state, texture, xys, uvs, colors)
    }

    /// Performs one operation. An operation that submits textured
    /// vertices with a texture that is not valid is refused at once, and
    /// the frame stays as it was.
    pub fn perform(&mut self, op: &DrawOp) -> (r: Result<(), TextureError>)
        ensures
            final(self)@ == old(self)@.step(op@),
            r is Err <==> op@.refused(),
            r is Err ==> r == Err::<(), TextureError>(TextureError::Invalid),
            old(self)@.wf() ==> final(self)@.wf(),
    {
        proof {
            if self@.wf() {
                lemma_step_paints(self@, op@);
            }
        }
        self.record(op)
    }

    /// Records the pending colored batch, if it holds vertices, as one pass
    /// with one draw, and empties the batch.
    pub fn command_colored(&mut self)
        ensures
            final(self)@ == old(self)@.flush_colored(),
            old(self)@.wf() ==> final(self)@.wf(),
    {
        proof {
            if self@.wf() {
                lemma_flush_colored(self@);
            }
        }
        self.emit_colored()
    }

    /// Records the pending textured batch, if it holds vertices, as one
    /// pass with one draw, and empties the batch.
    pub fn command_textured(&mut self)
        ensures
            final(self)@ == old(self)@.flush_textured(),
            old(self)@.wf() ==> final(self)@.wf(),
    {
        proof {
            if self@.wf() {
                lemma_flush_textured(self@);
            }
        }
        self.emit_textured()
    }
}

impl Wgpu2d {
    /// Performs the 2D graphics operations of one frame on an output
    /// `width` by `height` pixels and returns the encoded passes.
    ///
    /// An operation that submits textured vertices with a texture that is
    /// not valid ends the frame at once: it is abandoned, and the error is
    /// returned. Otherwise the passes are those of the state machine run
    /// over `ops` from a fresh frame. They paint what the operations paint
    /// when each is executed at once and alone, in the order of `ops`. If
    /// no operation submits more vertices than the capacity, no pass draws
    /// more than the capacity. If every operation submits whole triangles,
    /// every pass draws whole triangles. No pass draws nothing. Either way
    /// the engine keeps its pipelines, and its batches are empty for the
    /// next frame.
    pub fn draw(&mut self, width: u32, height: u32, ops: &[DrawOp]) -> (r: Result<
        CommandBuffer,
        TextureError,
    >)
        ensures
            final(self).format() == old(self).format(),
            final(self).capacity() == old(self).capacity(),
            final(self).colored().len() == 0,
            final(self).textured().len() == 0,
            r is Ok <==> forall|i: int| 0 <= i < ops.len() ==> !(#[trigger] ops[i])@.refused(),
            r matches Err(e) ==> e == TextureError::Invalid,
            r matches Ok(buffer) ==> {
                let start = FrameState::begin(
                    old(self).format(),
                    old(self).capacity() as nat,
                    width,
                    height,
                );
                &&& buffer.width == width
                &&& buffer.height == height
                &&& buffer@ == start.run(ops_of(ops@)).finish()
                &&& paints(buffer@) == start.each_alone(ops_of(ops@))
                &&& (forall|i: int|
                    0 <= i < ops.len() ==> FrameState::submitted((#[trigger] ops[i])@)
                        <= start.capacity) ==> forall|i: int|
                    0 <= i < buffer@.len() ==> (#[trigger] buffer@[i]).vertex_count()
                        <= start.capacity
                &&& (forall|i: int|
                    0 <= i < ops.len() ==> FrameState::submitted((#[trigger] ops[i])@) % 3 == 0)
                    ==> forall|i: int|
                    0 <= i < buffer@.len() ==> (#[trigger] buffer@[i]).vertex_count() % 3 == 0
                &&& forall|i: int|
                    0 <= i < buffer@.len() && (#[trigger] buffer@[i]) is Draw
                        ==> buffer@[i].vertex_count() > 0
            },
    {
        let ghost start = FrameState::begin(self.format(), self.capacity as nat, width, height);
        let ghost script = ops_of(ops@);
        let ghost after = *final(self);
        let mut g = WgpuGraphics::open(self, width, height);
        let mut refused: Option<TextureError> = None;
        let mut i: usize = 0;
        while i < ops.len() && refused.is_none()
            invariant
                i <= ops.len(),
                script == ops_of(ops@),
                g@ == start.run(script.take(i as int)),
                forall|j: int| 0 <= j < i ==> !(#[trigger] ops[j])@.refused(),
                refused matches Some(e) ==> e == TextureError::Invalid && i < ops.len()
                    && ops[i as int]@.refused(),
                *final(g.wgpu2d) == after,
            decreases ops.len() - i + if refused is None { 1nat } else { 0nat },
        {
            match g.record(&ops[i]) {
                Ok(()) => {
                    i += 1;
                    assert(script.take(i as int).drop_last() =~= script.take(i as int - 1));
                },
                Err(e) => {
                    refused = Some(e);
                },
            }
        }
        proof {
            lemma_order_kept(start, script.take(i as int));
        }
        let buffer = g.close();
        if let Some(e) = refused {
            return Err(e);
        }
        assert(script.take(i as int) =~= script);
        proof {
            lemma_order_kept(start, script);
            lemma_no_empty_draw(start, script);
            assert(start.painted() =~= Seq::empty());
            assert(Seq::<Paint>::empty() + start.each_alone(script)
                =~= start.each_alone(script));
            if forall|k: int|
                0 <= k < ops.len() ==> FrameState::submitted((#[trigger] ops[k])@)
                    <= start.capacity {
                assert forall|k: int| 0 <= k < script.len() implies FrameState::submitted(
                    #[trigger] script[k],
                ) <= start.capacity by {
                    assert(script[k] == ops[k]@);
                }
                lemma_capacity_bound(start, script);
            }
            if forall|k: int|
                0 <= k < ops.len() ==> FrameState::submitted((#[trigger] ops[k])@) % 3 == 0 {
                assert forall|k: int| 0 <= k < script.len() implies FrameState::submitted(
                    #[trigger] script[k],
                ) % 3 == 0 by {
                    assert(script[k] == ops[k]@);
                }
                lemma_whole_triangles(start, script);
            }
        }
        Ok(buffer)
    }
}

} // verus!
