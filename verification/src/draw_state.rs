//! Draw state carried by every drawing operation, and the pipeline key that
//! is derived from it.

use vstd::prelude::*;

verus! {

/// How a newly drawn pixel is combined with the pixel already in the target.
#[derive(Clone, Copy, Debug, PartialEq, Eq, Structural)]
pub enum BlendMode {
    /// Blending is switched off: the new pixel replaces the old one.
    Disabled,
    Alpha,
    Add,
    Lighter,
    Multiply,
    Invert,
}

/// Stencil behaviour requested for a drawing operation.
#[derive(Clone, Copy, Debug, PartialEq, Eq, Structural)]
pub enum StencilMode {
    /// Stamp the reference value into the stencil buffer.
    Clip(u8),
    /// Draw only where the stencil buffer equals the reference value.
    Inside(u8),
    /// Draw only where the stencil buffer differs from the reference value.
    Outside(u8),
    /// Raise the stencil buffer by one where the shape covers it.
    Increment,
}

/// A rectangle in output pixel coordinates.
#[derive(Clone, Copy, Debug, PartialEq, Eq, Structural)]
pub struct Rect {
    pub x: u32,
    pub y: u32,
    pub width: u32,
    pub height: u32,
}

/// The state one drawing operation is issued with.
#[derive(Clone, Copy, Debug, PartialEq, Eq, Structural)]
pub struct DrawState {
    pub blend: BlendMode,
    /// `None` switches the stencil test off.
    pub stencil: Option<StencilMode>,
    /// `None` stands for the full output extent.
    pub scissor: Option<Rect>,
}

/// The stencil mode without its reference value.
#[derive(Clone, Copy, Debug, PartialEq, Eq, Structural)]
pub enum StencilClass {
    Disabled,
    Clip,
    Inside,
    Outside,
    Increment,
}

/// Whether vertices are flat-colored or texture-sampled.
#[derive(Clone, Copy, Debug, PartialEq, Eq, Structural)]
pub enum VertexKind {
    Colored,
    Textured,
}

/// Identifies one precompiled pipeline.
#[derive(Clone, Copy, Debug, PartialEq, Eq, Structural)]
pub struct PipelineKey {
    pub stencil: StencilClass,
    pub blend: BlendMode,
    pub kind: VertexKind,
}

/// Number of blend modes.
pub const BLEND_MODES: usize = 6;

/// Number of stencil classes.
pub const STENCIL_CLASSES: usize = 5;

/// Number of pipelines: one per stencil class, blend mode and vertex kind.
pub const PIPELINES: usize = 60;

impl BlendMode {
    /// Position of the mode among the six blend modes.
    pub open spec fn spec_index(self) -> nat {
        match self {
            BlendMode::Disabled => 0,
            BlendMode::Alpha => 1,
            BlendMode::Add => 2,
            BlendMode::Lighter => 3,
            BlendMode::Multiply => 4,
            BlendMode::Invert => 5,
        }
    }

    /// The mode at position `i`; `Invert` past the end.
    pub open spec fn at(i: nat) -> BlendMode {
        if i == 0 {
            BlendMode::Disabled
        } else if i == 1 {
            BlendMode::Alpha
        } else if i == 2 {
            BlendMode::Add
        } else if i == 3 {
            BlendMode::Lighter
        } else if i == 4 {
            BlendMode::Multiply
        } else {
            BlendMode::Invert
        }
    }

    /// Position of the mode among the six blend modes.
    pub fn index(self) -> (i: usize)
        ensures
            i == self.spec_index(),
            i < BLEND_MODES,
    {
        match self {
            BlendMode::Disabled => 0,
            BlendMode::Alpha => 1,
            BlendMode::Add => 2,
            BlendMode::Lighter => 3,
            BlendMode::Multiply => 4,
            BlendMode::Invert => 5,
        }
    }
}

impl StencilMode {
    /// The class of the mode: the mode without its reference value.
    pub open spec fn spec_class(self) -> StencilClass {
        match self {
            StencilMode::Clip(_) => StencilClass::Clip,
            StencilMode::Inside(_) => StencilClass::Inside,
            StencilMode::Outside(_) => StencilClass::Outside,
            StencilMode::Increment => StencilClass::Increment,
        }
    }

    /// The reference value the mode carries, if it carries one.
    pub open spec fn spec_reference(self) -> Option<u8> {
        match self {
            StencilMode::Clip(v) => Some(v),
            StencilMode::Inside(v) => Some(v),
            StencilMode::Outside(v) => Some(v),
            StencilMode::Increment => None,
        }
    }

    /// The class of the mode: the mode without its reference value.
    #[verifier::when_used_as_spec(spec_class)]
    pub fn class(self) -> (c: StencilClass)
        ensures
            c == self.spec_class(),
    {
        match self {
            StencilMode::Clip(_) => StencilClass::Clip,
            StencilMode::Inside(_) => StencilClass::Inside,
            StencilMode::Outside(_) => StencilClass::Outside,
            StencilMode::Increment => StencilClass::Increment,
        }
    }

    /// The reference value the mode carries, if it carries one.
    #[verifier::when_used_as_spec(spec_reference)]
    pub fn reference(self) -> (r: Option<u8>)
        ensures
            r == self.spec_reference(),
    {
        match self {
            StencilMode::Clip(v) => Some(v),
            StencilMode::Inside(v) => Some(v),
            StencilMode::Outside(v) => Some(v),
            StencilMode::Increment => None,
        }
    }
}

impl StencilClass {
    /// Position of the class among the five stencil classes.
    pub open spec fn spec_index(self) -> nat {
        match self {
            StencilClass::Disabled => 0,
            StencilClass::Clip => 1,
            StencilClass::Inside => 2,
            StencilClass::Outside => 3,
            StencilClass::Increment => 4,
        }
    }

    /// The class at position `i`; `Increment` past the end.
    pub open spec fn at(i: nat) -> StencilClass {
        if i == 0 {
            StencilClass::Disabled
        } else if i == 1 {
            StencilClass::Clip
        } else if i == 2 {
            StencilClass::Inside
        } else if i == 3 {
            StencilClass::Outside
        } else {
            StencilClass::Increment
        }
    }

    /// The class of an optional stencil mode.
    pub open spec fn spec_of(stencil: Option<StencilMode>) -> StencilClass {
        match stencil {
            None => StencilClass::Disabled,
            Some(mode) => mode.spec_class(),
        }
    }

    /// Position of the class among the five stencil classes.
    pub fn index(self) -> (i: usize)
        ensures
            i == self.spec_index(),
            i < STENCIL_CLASSES,
    {
        match self {
            StencilClass::Disabled => 0,
            StencilClass::Clip => 1,
            StencilClass::Inside => 2,
            StencilClass::Outside => 3,
            StencilClass::Increment => 4,
        }
    }

    /// The class of an optional stencil mode.
    #[verifier::when_used_as_spec(spec_of)]
    pub fn of(stencil: Option<StencilMode>) -> (c: StencilClass)
        ensures
            c == StencilClass::spec_of(stencil),
    {
        match stencil {
            None => StencilClass::Disabled,
            Some(mode) => mode.class(),
        }
    }
}

impl DrawState {
    /// Alpha blending, no stencil test, no scissor rectangle.
    pub open spec fn spec_default() -> DrawState {
        DrawState { blend: BlendMode::Alpha, stencil: None, scissor: None }
    }

    /// Whether two draw states select the same pipeline: they agree in
    /// blend mode and stencil class. The scissor rectangle and the stencil
    /// reference value are set per draw and ask for no other pipeline.
    pub open spec fn spec_pipeline_compatible(self, other: DrawState) -> bool {
        self.blend == other.blend && StencilClass::spec_of(self.stencil) == StencilClass::spec_of(
            other.stencil,
        )
    }

    /// Whether two draw states select the same pipeline.
    #[verifier::when_used_as_spec(spec_pipeline_compatible)]
    pub fn pipeline_compatible(self, other: DrawState) -> (b: bool)
        ensures
            b == self.spec_pipeline_compatible(other),
    {
        self.blend == other.blend && StencilClass::of(self.stencil) == StencilClass::of(
            other.stencil,
        )
    }

    /// The key of the pipeline that draws vertices of `kind` in this state.
    pub open spec fn spec_key(self, kind: VertexKind) -> PipelineKey {
        PipelineKey { stencil: StencilClass::spec_of(self.stencil), blend: self.blend, kind }
    }

    /// The key of the pipeline that draws vertices of `kind` in this state.
    #[verifier::when_used_as_spec(spec_key)]
    pub fn key(self, kind: VertexKind) -> (k: PipelineKey)
        ensures
            k == self.spec_key(kind),
    {
        PipelineKey { stencil: StencilClass::of(self.stencil), blend: self.blend, kind }
    }
}

impl Default for DrawState {
    fn default() -> (s: DrawState)
        ensures
            s == DrawState::spec_default(),
    {
        DrawState { blend: BlendMode::Alpha, stencil: None, scissor: None }
    }
}

impl VertexKind {
    /// Position of the kind: colored first.
    pub open spec fn spec_index(self) -> nat {
        match self {
            VertexKind::Colored => 0,
            VertexKind::Textured => 1,
        }
    }

    /// Position of the kind: colored first.
    pub fn index(self) -> (i: usize)
        ensures
            i == self.spec_index(),
            i < 2,
    {
        match self {
            VertexKind::Colored => 0,
            VertexKind::Textured => 1,
        }
    }

    /// The kind at position `i`; `Textured` past the end.
    pub open spec fn at(i: nat) -> VertexKind {
        if i == 0 {
            VertexKind::Colored
        } else {
            VertexKind::Textured
        }
    }
}

impl PipelineKey {
    /// Position of the key among the sixty keys: by kind, then by stencil
    /// class, then by blend mode.
    pub open spec fn spec_index(self) -> nat {
        self.kind.spec_index() * 30 + self.stencil.spec_index() * 6 + self.blend.spec_index()
    }

    /// The key at position `i`.
    pub open spec fn at(i: nat) -> PipelineKey {
        PipelineKey {
            kind: VertexKind::at(i / 30),
            stencil: StencilClass::at((i % 30) / 6),
            blend: BlendMode::at(i % 6),
        }
    }

    /// Position of the key among the sixty keys.
    pub fn index(self) -> (i: usize)
        ensures
            i == self.spec_index(),
            i < PIPELINES,
    {
        self.kind.index() * 30 + self.stencil.index() * 6 + self.blend.index()
    }
}

/// There are exactly sixty keys: every key has a position below sixty, no
/// two keys share one, and every position below sixty has its key.
pub proof fn lemma_sixty_keys(key: PipelineKey, i: nat)
    ensures
        key.spec_index() < 60,
        PipelineKey::at(key.spec_index()) == key,
        i < 60 ==> PipelineKey::at(i).spec_index() == i,
{
}

/// Two draw states are pipeline-compatible exactly if they have the same
/// key for every vertex kind.
pub proof fn lemma_compatible_same_key(a: DrawState, b: DrawState, kind: VertexKind)
    ensures
        a.spec_pipeline_compatible(b) <==> a.spec_key(kind) == b.spec_key(kind),
{
}

} // verus!
