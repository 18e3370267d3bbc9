//! The recorded form of a frame: render passes, each with at most one draw.

use vstd::prelude::*;
use crate::draw_state::{DrawState, PipelineKey, Rect, StencilMode, VertexKind};
use crate::pipeline::{lemma_stencil_classes, ColorFormat, PipelineDescriptor};
use crate::texture::Texture;
use crate::vertex::{
    colored_contents, colored_words, in_memory, textured_contents, textured_words,
    ColoredPipelineInput, TexturedPipelineInput, ONE,
};

verus! {

/// What a pass does with the color target before it draws.
#[derive(Clone, Copy, Debug, PartialEq, Eq)]
pub enum ColorLoad {
    /// Keep what earlier passes drew.
    Load,
    /// Fill the target with a color: red, green, blue, alpha.
    Clear([u32; 4]),
}

/// What a pass does with the stencil attachment before it draws.
#[derive(Clone, Copy, Debug, PartialEq, Eq, Structural)]
pub enum StencilLoad {
    /// Keep what earlier passes wrote.
    Load,
    /// Fill the attachment with a value.
    Clear(u32),
}

/// Everything that is bound for one draw but the vertices.
#[derive(Clone, Copy, Debug, PartialEq, Eq)]
pub struct DrawSetup {
    /// The key of the bound pipeline.
    pub key: PipelineKey,
    /// The bound pipeline.
    pub pipeline: PipelineDescriptor,
    /// The constant blend color.
    pub blend_constant: [u32; 4],
    /// No pixel outside this rectangle is written.
    pub scissor: Rect,
    /// The stencil reference value that is set, if one is.
    pub stencil_reference: Option<u32>,
    /// The texture whose binding set is bound, for textured vertices.
    pub texture: Option<Texture>,
}

/// The vertices of one draw.
#[derive(Debug, PartialEq, Eq)]
pub enum Vertices {
    Colored(Vec<ColoredPipelineInput>),
    Textured(Vec<TexturedPipelineInput>),
}

/// One draw call over a freshly filled vertex buffer.
#[derive(Debug, PartialEq, Eq)]
pub struct DrawCall {
    pub setup: DrawSetup,
    pub vertices: Vertices,
}

/// One render pass against the output color target and the frame's stencil
/// attachment.
#[derive(Debug, PartialEq, Eq)]
pub enum RenderPass {
    /// Keeps both attachments and issues one draw.
    Draw(DrawCall),
    /// Fills the color target with a color and keeps the stencil
    /// attachment.
    ClearColor([u32; 4]),
    /// Fills the stencil attachment with a value and keeps the color
    /// target.
    ClearStencil(u32),
}

/// The passes of a finished frame, in the order they are to run.
#[derive(Debug, PartialEq, Eq)]
pub struct CommandBuffer {
    /// Extent of the output and of the stencil attachment.
    pub width: u32,
    pub height: u32,
    pub passes: Vec<RenderPass>,
}

/// The vertices of one draw as mathematical sequences.
pub enum VertexSeq {
    Colored(Seq<ColoredPipelineInput>),
    Textured(Seq<TexturedPipelineInput>),
}

/// A render pass as a mathematical value.
pub enum Pass {
    /// Keeps both attachments and draws `vertices` with `setup`.
    Draw { setup: DrawSetup, vertices: VertexSeq },
    /// Fills the color target and keeps the stencil attachment.
    ClearColor([u32; 4]),
    /// Fills the stencil attachment and keeps the color target.
    ClearStencil(u32),
}

/// The effect of a frame on the output, one entry per vertex drawn and per
/// clear, in paint order.
pub enum Paint {
    Colored(DrawSetup, ColoredPipelineInput),
    Textured(DrawSetup, TexturedPipelineInput),
    ClearColor([u32; 4]),
    ClearStencil(u32),
}

impl DrawSetup {
    /// What is bound to draw vertices of `kind` in `state`, with `texture`
    /// current, onto an output `width` by `height` pixels in `format`.
    ///
    /// The scissor rectangle is that of the state, or the full output where
    /// the state has none. The stencil reference is that of the stencil
    /// mode, where it carries one. Only textured vertices bind a texture.
    pub open spec fn spec_of(
        format: ColorFormat,
        width: u32,
        height: u32,
        kind: VertexKind,
        state: DrawState,
        texture: Option<Texture>,
    ) -> DrawSetup {
        let key = state.spec_key(kind);
        DrawSetup {
            key,
            pipeline: PipelineDescriptor::spec_of(format, key),
            blend_constant: [ONE, ONE, ONE, ONE],
            scissor: match state.scissor {
                Some(rect) => rect,
                None => Rect { x: 0, y: 0, width, height },
            },
            stencil_reference: match state.stencil {
                Some(mode) => match mode.spec_reference() {
                    Some(value) => Some(value as u32),
                    None => None,
                },
                None => None,
            },
            texture: match kind {
                VertexKind::Colored => None,
                VertexKind::Textured => texture,
            },
        }
    }
}

/// What drawing colored vertices with `setup` paints.
pub open spec fn colored_paints(setup: DrawSetup, vertices: Seq<ColoredPipelineInput>) -> Seq<
    Paint,
> {
    Seq::new(vertices.len(), |i: int| Paint::Colored(setup, vertices[i]))
}

/// What drawing textured vertices with `setup` paints.
pub open spec fn textured_paints(setup: DrawSetup, vertices: Seq<TexturedPipelineInput>) -> Seq<
    Paint,
> {
    Seq::new(vertices.len(), |i: int| Paint::Textured(setup, vertices[i]))
}

impl DrawSetup {
    /// What the draw does at one pixel it covers whose stored stencil
    /// value is `stored`: whether the pixel is drawn, and the stencil value
    /// that is stored afterwards.
    pub open spec fn at_pixel(self, stored: u8) -> (bool, u8) {
        self.pipeline.stencil.spec_test(
            match self.stencil_reference {
                Some(reference) => reference as u8,
                None => 0,
            },
            stored,
        )
    }
}

/// What a draw in `state` does at a pixel it covers, by the stencil mode of
/// the state.
///
/// Without a stencil mode the pixel is drawn and the stencil value stays.
/// `Clip` draws nothing and stores its value. `Increment` draws nothing and
/// stores the stored value plus one, up to 255. `Inside` draws where the
/// stored value equals its value, `Outside` where it differs, and both
/// leave the stored value.
pub proof fn lemma_stencil_modes(
    format: ColorFormat,
    width: u32,
    height: u32,
    kind: VertexKind,
    state: DrawState,
    texture: Option<Texture>,
    stored: u8,
)
    ensures
        DrawSetup::spec_of(format, width, height, kind, state, texture).at_pixel(stored)
            == match state.stencil {
            None => (true, stored),
            Some(StencilMode::Clip(value)) => (false, value),
            Some(StencilMode::Increment) => (
                false,
                if stored < 255 {
                    (stored + 1) as u8
                } else {
                    stored
                },
            ),
            Some(StencilMode::Inside(value)) => (stored == value, stored),
            Some(StencilMode::Outside(value)) => (stored != value, stored),
        },
{
    let setup = DrawSetup::spec_of(format, width, height, kind, state, texture);
    let reference: u8 = match setup.stencil_reference {
        Some(reference) => reference as u8,
        None => 0,
    };
    lemma_stencil_classes(reference, stored);
}

impl VertexSeq {
    /// Number of vertices.
    pub open spec fn len(self) -> nat {
        match self {
            VertexSeq::Colored(v) => v.len(),
            VertexSeq::Textured(v) => v.len(),
        }
    }
}

impl View for Vertices {
    type V = VertexSeq;

    open spec fn view(&self) -> VertexSeq {
        match self {
            Vertices::Colored(v) => VertexSeq::Colored(v@),
            Vertices::Textured(v) => VertexSeq::Textured(v@),
        }
    }
}

impl VertexSeq {
    /// The words of the vertices, vertex after vertex.
    pub open spec fn words(self) -> Seq<u32> {
        match self {
            VertexSeq::Colored(v) => colored_words(v),
            VertexSeq::Textured(v) => textured_words(v),
        }
    }
}

impl Vertices {
    /// Number of vertices.
    pub fn len(&self) -> (n: usize)
        ensures
            n == self@.len(),
    {
        match self {
            Vertices::Colored(v) => v.len(),
            Vertices::Textured(v) => v.len(),
        }
    }

    /// The contents of the vertex buffer of the draw: the words of the
    /// vertices as they lie in memory.
    pub fn contents(&self) -> (bytes: Vec<u8>)
        ensures
            in_memory(bytes@, self@.words()),
    {
        match self {
            Vertices::Colored(v) => colored_contents(v.as_slice()),
            Vertices::Textured(v) => textured_contents(v.as_slice()),
        }
    }
}

impl View for RenderPass {
    type V = Pass;

    open spec fn view(&self) -> Pass {
        match self {
            RenderPass::Draw(call) => Pass::Draw { setup: call.setup, vertices: call.vertices@ },
            RenderPass::ClearColor(color) => Pass::ClearColor(*color),
            RenderPass::ClearStencil(value) => Pass::ClearStencil(*value),
        }
    }
}

impl RenderPass {
    /// What the pass does with the color target before it draws.
    pub fn color_load(&self) -> (load: ColorLoad)
        ensures
            load == match self@ {
                Pass::ClearColor(color) => ColorLoad::Clear(color),
                _ => ColorLoad::Load,
            },
    {
        match self {
            RenderPass::ClearColor(color) => ColorLoad::Clear(*color),
            _ => ColorLoad::Load,
        }
    }

    /// What the pass does with the stencil attachment before it draws.
    pub fn stencil_load(&self) -> (load: StencilLoad)
        ensures
            load == match self@ {
                Pass::ClearStencil(value) => StencilLoad::Clear(value),
                _ => StencilLoad::Load,
            },
    {
        match self {
            RenderPass::ClearStencil(value) => StencilLoad::Clear(*value),
            _ => StencilLoad::Load,
        }
    }

    /// The draw of the pass, if it has one.
    pub fn draw(&self) -> (call: Option<&DrawCall>)
        ensures
            match self {
                RenderPass::Draw(c) => call == Some(c),
                _ => call.is_none(),
            },
    {
        match self {
            RenderPass::Draw(call) => Some(call),
            _ => None,
        }
    }
}

impl Pass {
    /// Number of vertices the pass draws.
    pub open spec fn vertex_count(self) -> nat {
        match self {
            Pass::Draw { vertices, .. } => vertices.len(),
            _ => 0,
        }
    }

    /// What the pass paints.
    pub open spec fn paints(self) -> Seq<Paint> {
        match self {
            Pass::Draw { setup, vertices: VertexSeq::Colored(v) } => colored_paints(setup, v),
            Pass::Draw { setup, vertices: VertexSeq::Textured(v) } => textured_paints(setup, v),
            Pass::ClearColor(color) => seq![Paint::ClearColor(color)],
            Pass::ClearStencil(value) => seq![Paint::ClearStencil(value)],
        }
    }
}

/// What a sequence of passes paints: what each paints, one after the other.
pub open spec fn paints(passes: Seq<Pass>) -> Seq<Paint>
    decreases passes.len(),
{
    if passes.len() == 0 {
        Seq::empty()
    } else {
        paints(passes.drop_last()) + passes.last().paints()
    }
}

/// Painting with one more pass adds what that pass paints.
pub proof fn lemma_paints_push(passes: Seq<Pass>, pass: Pass)
    ensures
        paints(passes.push(pass)) == paints(passes) + pass.paints(),
{
    assert(passes.push(pass).drop_last() =~= passes);
}

impl View for CommandBuffer {
    type V = Seq<Pass>;

    open spec fn view(&self) -> Seq<Pass> {
        self.passes@.map_values(|p: RenderPass| p@)
    }
}

} // verus!
