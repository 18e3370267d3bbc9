//! Fixed-function state of the pipelines and the table that holds one
//! object per stencil class and blend mode.

use vstd::prelude::*;
use crate::draw_state::{BlendMode, PipelineKey, StencilClass, StencilMode, VertexKind};

verus! {

/// Comparison of the stencil reference value with the stored stencil value.
#[derive(Clone, Copy, Debug, PartialEq, Eq, Structural)]
pub enum CompareFunction {
    Never,
    Equal,
    NotEqual,
    Always,
}

/// What happens to the stored stencil value after a stencil test.
#[derive(Clone, Copy, Debug, PartialEq, Eq, Structural)]
pub enum StencilOperation {
    Keep,
    Replace,
    IncrementClamp,
}

/// Stencil test and operations for one face orientation.
#[derive(Clone, Copy, Debug, PartialEq, Eq, Structural)]
pub struct StencilFaceState {
    pub compare: CompareFunction,
    pub fail_op: StencilOperation,
    pub depth_fail_op: StencilOperation,
    pub pass_op: StencilOperation,
}

/// Stencil configuration of a pipeline.
#[derive(Clone, Copy, Debug, PartialEq, Eq, Structural)]
pub struct StencilState {
    pub front: StencilFaceState,
    pub back: StencilFaceState,
    pub read_mask: u32,
    pub write_mask: u32,
}

/// Weight of the source or destination value in a blend equation.
#[derive(Clone, Copy, Debug, PartialEq, Eq, Structural)]
pub enum BlendFactor {
    Zero,
    One,
    Src,
    SrcAlpha,
    OneMinusSrcAlpha,
    Dst,
    DstAlpha,
    Constant,
}

/// How the weighted source and destination values are combined.
#[derive(Clone, Copy, Debug, PartialEq, Eq, Structural)]
pub enum BlendOperation {
    Add,
    Subtract,
}

/// Blend equation of the color channels or of the alpha channel.
#[derive(Clone, Copy, Debug, PartialEq, Eq, Structural)]
pub struct BlendComponent {
    pub src_factor: BlendFactor,
    pub dst_factor: BlendFactor,
    pub operation: BlendOperation,
}

/// Blend configuration of a pipeline.
#[derive(Clone, Copy, Debug, PartialEq, Eq, Structural)]
pub struct BlendState {
    pub color: BlendComponent,
    pub alpha: BlendComponent,
}

impl StencilFaceState {
    /// A face whose test fails on every pixel and then applies `fail_op`.
    pub open spec fn failing(fail_op: StencilOperation) -> StencilFaceState {
        StencilFaceState {
            compare: CompareFunction::Never,
            fail_op,
            depth_fail_op: StencilOperation::Keep,
            pass_op: StencilOperation::Keep,
        }
    }

    /// A face that tests with `compare` and leaves the stencil buffer alone.
    pub open spec fn testing(compare: CompareFunction) -> StencilFaceState {
        StencilFaceState {
            compare,
            fail_op: StencilOperation::Keep,
            depth_fail_op: StencilOperation::Keep,
            pass_op: StencilOperation::Keep,
        }
    }
}

impl StencilState {
    /// The stencil configuration of a stencil class.
    ///
    /// Without a stencil mode the test always passes and both masks are
    /// zero. `Clip` and `Increment` never pass: they only write, the first
    /// the reference value, the second the stored value plus one. `Inside`
    /// and `Outside` only test, for equality and for inequality.
    pub open spec fn spec_of(class: StencilClass) -> StencilState {
        match class {
            StencilClass::Disabled => StencilState {
                front: StencilFaceState::testing(CompareFunction::Always),
                back: StencilFaceState::testing(CompareFunction::Always),
                read_mask: 0,
                write_mask: 0,
            },
            StencilClass::Clip => StencilState {
                front: StencilFaceState::failing(StencilOperation::Replace),
                back: StencilFaceState::failing(StencilOperation::Replace),
                read_mask: 255,
                write_mask: 255,
            },
            StencilClass::Inside => StencilState {
                front: StencilFaceState::testing(CompareFunction::Equal),
                back: StencilFaceState::testing(CompareFunction::Equal),
                read_mask: 255,
                write_mask: 255,
            },
            StencilClass::Outside => StencilState {
                front: StencilFaceState::testing(CompareFunction::NotEqual),
                back: StencilFaceState::testing(CompareFunction::NotEqual),
                read_mask: 255,
                write_mask: 255,
            },
            StencilClass::Increment => StencilState {
                front: StencilFaceState::failing(StencilOperation::IncrementClamp),
                back: StencilFaceState::failing(StencilOperation::IncrementClamp),
                read_mask: 255,
                write_mask: 255,
            },
        }
    }

    /// The stencil configuration of a stencil class.
    #[verifier::when_used_as_spec(spec_of)]
    pub fn of(class: StencilClass) -> (s: StencilState)
        ensures
            s == StencilState::spec_of(class),
    {
        let keep = StencilOperation::Keep;
        let (compare, fail_op, mask): (CompareFunction, StencilOperation, u32) = match class {
            StencilClass::Disabled => (CompareFunction::Always, keep, 0),
            StencilClass::Clip => (CompareFunction::Never, StencilOperation::Replace, 255),
            StencilClass::Inside => (CompareFunction::Equal, keep, 255),
            StencilClass::Outside => (CompareFunction::NotEqual, keep, 255),
            StencilClass::Increment => (
                CompareFunction::Never,
                StencilOperation::IncrementClamp,
                255,
            ),
        };
        let face = StencilFaceState { compare, fail_op, depth_fail_op: keep, pass_op: keep };
        StencilState { front: face, back: face, read_mask: mask, write_mask: mask }
    }
}

impl BlendComponent {
    /// The equation `source · src_factor (operation) destination · dst_factor`.
    pub open spec fn spec_new(
        src_factor: BlendFactor,
        dst_factor: BlendFactor,
        operation: BlendOperation,
    ) -> BlendComponent {
        BlendComponent { src_factor, dst_factor, operation }
    }

    /// The equation `source · src_factor (operation) destination · dst_factor`.
    #[verifier::when_used_as_spec(spec_new)]
    pub fn new(src_factor: BlendFactor, dst_factor: BlendFactor, operation: BlendOperation) -> (c:
        BlendComponent)
        ensures
            c == BlendComponent::spec_new(src_factor, dst_factor, operation),
    {
        BlendComponent { src_factor, dst_factor, operation }
    }
}

impl BlendState {
    /// The blend configuration of a blend mode; none where blending is off.
    ///
    /// | mode     | color                         | alpha                       |
    /// |----------|-------------------------------|-----------------------------|
    /// | Alpha    | src·srcα + dst·(1 − srcα)     | src + dst·(1 − srcα)        |
    /// | Add      | src + dst                     | src + dst                   |
    /// | Lighter  | src·srcα + dst                | dst                         |
    /// | Multiply | src·dst                       | src·dstα                    |
    /// | Invert   | src·constant − dst·src        | dst                         |
    pub open spec fn spec_of(mode: BlendMode) -> Option<BlendState> {
        let add = BlendOperation::Add;
        match mode {
            BlendMode::Disabled => None,
            BlendMode::Alpha => Some(
                BlendState {
                    color: BlendComponent::spec_new(
                        BlendFactor::SrcAlpha,
                        BlendFactor::OneMinusSrcAlpha,
                        add,
                    ),
                    alpha: BlendComponent::spec_new(
                        BlendFactor::One,
                        BlendFactor::OneMinusSrcAlpha,
                        add,
                    ),
                },
            ),
            BlendMode::Add => Some(
                BlendState {
                    color: BlendComponent::spec_new(BlendFactor::One, BlendFactor::One, add),
                    alpha: BlendComponent::spec_new(BlendFactor::One, BlendFactor::One, add),
                },
            ),
            BlendMode::Lighter => Some(
                BlendState {
                    color: BlendComponent::spec_new(BlendFactor::SrcAlpha, BlendFactor::One, add),
                    alpha: BlendComponent::spec_new(BlendFactor::Zero, BlendFactor::One, add),
                },
            ),
            BlendMode::Multiply => Some(
                BlendState {
                    color: BlendComponent::spec_new(BlendFactor::Dst, BlendFactor::Zero, add),
                    alpha: BlendComponent::spec_new(BlendFactor::DstAlpha, BlendFactor::Zero, add),
                },
            ),
            BlendMode::Invert => Some(
                BlendState {
                    color: BlendComponent::spec_new(
                        BlendFactor::Constant,
                        BlendFactor::Src,
                        BlendOperation::Subtract,
                    ),
                    alpha: BlendComponent::spec_new(BlendFactor::Zero, BlendFactor::One, add),
                },
            ),
        }
    }

    /// The blend configuration of a blend mode; none where blending is off.
    #[verifier::when_used_as_spec(spec_of)]
    pub fn of(mode: BlendMode) -> (b: Option<BlendState>)
        ensures
            b == BlendState::spec_of(mode),
    {
        let add = BlendOperation::Add;
        let (color, alpha): (BlendComponent, BlendComponent) = match mode {
            BlendMode::Disabled => {
                return None;
            },
            BlendMode::Alpha => (
                BlendComponent::new(BlendFactor::SrcAlpha, BlendFactor::OneMinusSrcAlpha, add),
                BlendComponent::new(BlendFactor::One, BlendFactor::OneMinusSrcAlpha, add),
            ),
            BlendMode::Add => (
                BlendComponent::new(BlendFactor::One, BlendFactor::One, add),
                BlendComponent::new(BlendFactor::One, BlendFactor::One, add),
            ),
            BlendMode::Lighter => (
                BlendComponent::new(BlendFactor::SrcAlpha, BlendFactor::One, add),
                BlendComponent::new(BlendFactor::Zero, BlendFactor::One, add),
            ),
            BlendMode::Multiply => (
                BlendComponent::new(BlendFactor::Dst, BlendFactor::Zero, add),
                BlendComponent::new(BlendFactor::DstAlpha, BlendFactor::Zero, add),
            ),
            BlendMode::Invert => (
                BlendComponent::new(
                    BlendFactor::Constant,
                    BlendFactor::Src,
                    BlendOperation::Subtract,
                ),
                BlendComponent::new(BlendFactor::Zero, BlendFactor::One, add),
            ),
        };
        Some(BlendState { color, alpha })
    }

}

/// One object per blend mode.
pub struct PsoBlend<T> {
    none: T,
    alpha: T,
    add: T,
    lighter: T,
    multiply: T,
    invert: T,
}

impl<T> PsoBlend<T> {
    /// The object stored for `blend`.
    pub closed spec fn slot(self, blend: BlendMode) -> T {
        match blend {
            BlendMode::Disabled => self.none,
            BlendMode::Alpha => self.alpha,
            BlendMode::Add => self.add,
            BlendMode::Lighter => self.lighter,
            BlendMode::Multiply => self.multiply,
            BlendMode::Invert => self.invert,
        }
    }

    /// Builds one object per blend mode, each by `f` from the blend
    /// configuration of its mode and from `stencil`.
    pub fn new<F: Fn(Option<BlendState>, StencilState) -> T>(f: &F, stencil: StencilState) -> (r:
        PsoBlend<T>)
        requires
            forall|blend: BlendMode| #[trigger]
                call_requires(*f, (BlendState::spec_of(blend), stencil)),
        ensures
            forall|blend: BlendMode|
                call_ensures(*f, (BlendState::spec_of(blend), stencil), #[trigger] r.slot(blend)),
    {
        PsoBlend {
            none: f(BlendState::of(BlendMode::Disabled), stencil),
            alpha: f(BlendState::of(BlendMode::Alpha), stencil),
            add: f(BlendState::of(BlendMode::Add), stencil),
            lighter: f(BlendState::of(BlendMode::Lighter), stencil),
            multiply: f(BlendState::of(BlendMode::Multiply), stencil),
            invert: f(BlendState::of(BlendMode::Invert), stencil),
        }
    }

    /// Returns the object for `blend`.
    pub fn blend(&self, blend: BlendMode) -> (r: &T)
        ensures
            *r == self.slot(blend),
    {
        match blend {
            BlendMode::Disabled => &self.none,
            BlendMode::Alpha => &self.alpha,
            BlendMode::Add => &self.add,
            BlendMode::Lighter => &self.lighter,
            BlendMode::Multiply => &self.multiply,
            BlendMode::Invert => &self.invert,
        }
    }
}

/// One object per stencil class and blend mode.
pub struct PsoStencil<T> {
    none: PsoBlend<T>,
    clip: PsoBlend<T>,
    inside: PsoBlend<T>,
    outside: PsoBlend<T>,
    increment: PsoBlend<T>,
}

impl<T> PsoStencil<T> {
    /// The object stored for a stencil class and a blend mode.
    pub closed spec fn slot(self, class: StencilClass, blend: BlendMode) -> T {
        match class {
            StencilClass::Disabled => self.none.slot(blend),
            StencilClass::Clip => self.clip.slot(blend),
            StencilClass::Inside => self.inside.slot(blend),
            StencilClass::Outside => self.outside.slot(blend),
            StencilClass::Increment => self.increment.slot(blend),
        }
    }

    /// Builds the table: every one of the thirty objects is made by one
    /// call of `f` with the blend configuration of its blend mode and the
    /// stencil configuration of its stencil class.
    pub fn new<F: Fn(Option<BlendState>, StencilState) -> T>(f: F) -> (r: PsoStencil<T>)
        requires
            forall|class: StencilClass, blend: BlendMode| #[trigger]
                call_requires(f, (BlendState::spec_of(blend), StencilState::spec_of(class))),
        ensures
            forall|class: StencilClass, blend: BlendMode|
                call_ensures(
                    f,
                    (BlendState::spec_of(blend), StencilState::spec_of(class)),
                    #[trigger] r.slot(class, blend),
                ),
    {
        let none = PsoBlend::new(&f, StencilState::of(StencilClass::Disabled));
        let clip = PsoBlend::new(&f, StencilState::of(StencilClass::Clip));
        let inside = PsoBlend::new(&f, StencilState::of(StencilClass::Inside));
        let outside = PsoBlend::new(&f, StencilState::of(StencilClass::Outside));
        let increment = PsoBlend::new(&f, StencilState::of(StencilClass::Increment));
        PsoStencil { none, clip, inside, outside, increment }
    }

    /// Returns the object for a stencil class and a blend mode.
    pub fn class_blend(&self, class: StencilClass, blend: BlendMode) -> (r: &T)
        ensures
            *r == self.slot(class, blend),
    {
        match class {
            StencilClass::Disabled => self.none.blend(blend),
            StencilClass::Clip => self.clip.blend(blend),
            StencilClass::Inside => self.inside.blend(blend),
            StencilClass::Outside => self.outside.blend(blend),
            StencilClass::Increment => self.increment.blend(blend),
        }
    }

    /// Returns the object for `stencil` and `blend`, and the stencil
    /// reference value to set for the draw, if the stencil mode carries one.
    pub fn stencil_blend(&self, stencil: Option<StencilMode>, blend: BlendMode) -> (r: (
        &T,
        Option<u8>,
    ))
        ensures
            *r.0 == self.slot(StencilClass::spec_of(stencil), blend),
            r.1 == match stencil {
                Some(mode) => mode.spec_reference(),
                None => None,
            },
    {
        match stencil {
            None => (self.none.blend(blend), None),
            Some(StencilMode::Clip(val)) => (self.clip.blend(blend), Some(val)),
            Some(StencilMode::Inside(val)) => (self.inside.blend(blend), Some(val)),
            Some(StencilMode::Outside(val)) => (self.outside.blend(blend), Some(val)),
            Some(StencilMode::Increment) => (self.increment.blend(blend), None),
        }
    }
}

impl CompareFunction {
    /// Whether the test passes for a reference value and a stored value.
    pub open spec fn spec_passes(self, reference: u32, stored: u32) -> bool {
        match self {
            CompareFunction::Never => false,
            CompareFunction::Equal => reference == stored,
            CompareFunction::NotEqual => reference != stored,
            CompareFunction::Always => true,
        }
    }

    /// Whether the test passes for a reference value and a stored value.
    #[verifier::when_used_as_spec(spec_passes)]
    pub fn passes(self, reference: u32, stored: u32) -> (b: bool)
        ensures
            b == self.spec_passes(reference, stored),
    {
        match self {
            CompareFunction::Never => false,
            CompareFunction::Equal => reference == stored,
            CompareFunction::NotEqual => reference != stored,
            CompareFunction::Always => true,
        }
    }
}

impl StencilOperation {
    /// The value the operation leaves in place of `stored`.
    pub open spec fn spec_apply(self, reference: u8, stored: u8) -> u8 {
        match self {
            StencilOperation::Keep => stored,
            StencilOperation::Replace => reference,
            StencilOperation::IncrementClamp => if stored < 255 {
                (stored + 1) as u8
            } else {
                stored
            },
        }
    }

    /// The value the operation leaves in place of `stored`.
    #[verifier::when_used_as_spec(spec_apply)]
    pub fn apply(self, reference: u8, stored: u8) -> (v: u8)
        ensures
            v == self.spec_apply(reference, stored),
    {
        match self {
            StencilOperation::Keep => stored,
            StencilOperation::Replace => reference,
            StencilOperation::IncrementClamp => if stored < 255 {
                stored + 1
            } else {
                stored
            },
        }
    }
}

impl StencilState {
    /// What the stencil unit does at one pixel that a front-facing
    /// triangle covers: whether the pixel is drawn, and the stencil value
    /// that is stored afterwards.
    ///
    /// The reference and the stored value are compared under the read
    /// mask. The pixel is drawn if the comparison passes; the depth test
    /// never fails. The operation for the outcome gives the new value, of
    /// which the bits under the write mask are stored.
    pub open spec fn spec_test(self, reference: u8, stored: u8) -> (bool, u8) {
        let passed = self.front.compare.spec_passes(
            reference as u32 & self.read_mask,
            stored as u32 & self.read_mask,
        );
        let operation = if passed {
            self.front.pass_op
        } else {
            self.front.fail_op
        };
        let value = operation.spec_apply(reference, stored);
        let written = (stored as u32 & !self.write_mask) | (value as u32 & self.write_mask);
        (passed, (written & 255) as u8)
    }

    /// What the stencil unit does at one pixel: whether the pixel is drawn,
    /// and the stencil value that is stored afterwards.
    #[verifier::when_used_as_spec(spec_test)]
    pub fn test(self, reference: u8, stored: u8) -> (r: (bool, u8))
        ensures
            r == self.spec_test(reference, stored),
    {
        let passed = self.front.compare.passes(
            reference as u32 & self.read_mask,
            stored as u32 & self.read_mask,
        );
        let operation = if passed {
            self.front.pass_op
        } else {
            self.front.fail_op
        };
        let value = operation.apply(reference, stored);
        let written = (stored as u32 & !self.write_mask) | (value as u32 & self.write_mask);
        let low: u32 = written & 255;
        assert(low < 256) by (bit_vector)
            requires
                low == written & 255,
        ;
        (passed, low as u8)
    }
}

/// The stencil value of a pixel after `n` stamps in `Increment` mode: it
/// counts the stamps, up to 255.
pub open spec fn stamped(stored: u8, n: nat) -> u8
    decreases n,
{
    if n == 0 {
        stored
    } else {
        StencilState::spec_of(StencilClass::Increment).spec_test(
            0,
            stamped(stored, (n - 1) as nat),
        ).1
    }
}

/// What each stencil class does at a pixel with reference value
/// `reference` and stored value `stored`.
///
/// Without a stencil mode the pixel is drawn and the value stays. `Clip`
/// draws nothing and stores the reference. `Increment` draws nothing and
/// stores the value plus one, up to 255. `Inside` draws where the value
/// equals the reference, `Outside` where it differs, and both leave the
/// value.
pub proof fn lemma_stencil_classes(reference: u8, stored: u8)
    ensures
        StencilState::spec_of(StencilClass::Disabled).spec_test(reference, stored) == (
            true,
            stored,
        ),
        StencilState::spec_of(StencilClass::Clip).spec_test(reference, stored) == (
            false,
            reference,
        ),
        StencilState::spec_of(StencilClass::Increment).spec_test(reference, stored) == (
            false,
            if stored < 255 {
                (stored + 1) as u8
            } else {
                stored
            },
        ),
        StencilState::spec_of(StencilClass::Inside).spec_test(reference, stored) == (
            reference == stored,
            stored,
        ),
        StencilState::spec_of(StencilClass::Outside).spec_test(reference, stored) == (
            reference != stored,
            stored,
        ),
{
    let r = reference as u32;
    let s = stored as u32;
    let t: u32 = if stored < 255 {
        (stored + 1) as u32
    } else {
        s
    };
    assert(r & 255 == r && s & 255 == s && t & 255 == t) by (bit_vector)
        requires
            r < 256,
            s < 256,
            t < 256,
    ;
    assert(r & 0 == 0 && s & 0 == 0 && (s & !0u32) | (s & 0) == s) by (bit_vector);
    assert((s & !255u32) | (r & 255) == r && (s & !255u32) | (s & 255) == s && (s & !255u32) | (t
        & 255) == t) by (bit_vector)
        requires
            r < 256,
            s < 256,
            t < 256,
    ;
}

/// Stamps count: after `n` stamps a pixel that held `stored` holds
/// `stored + n`, or 255 where that is more.
pub proof fn lemma_stamped(stored: u8, n: nat)
    ensures
        stamped(stored, n) == if stored + n < 255 {
            stored + n
        } else {
            255
        },
    decreases n,
{
    if n > 0 {
        lemma_stamped(stored, (n - 1) as nat);
        lemma_stencil_classes(0, stamped(stored, (n - 1) as nat));
    }
}

/// Nested clipping. On a stencil buffer cleared to zero, a pixel that
/// `covering` of the stamped shapes cover is drawn in `Inside(level)` mode
/// exactly if `covering` equals `level`: after two stamps `Inside(2)`
/// draws only where both shapes overlap, and after one stamp `Inside(1)`
/// draws all over the stamped shape. Drawing leaves the stencil buffer as
/// it is.
pub proof fn lemma_nested_clipping(covering: nat, level: u8)
    requires
        covering <= 255,
    ensures
        StencilState::spec_of(StencilClass::Inside).spec_test(level, stamped(0, covering)) == (
            covering == level,
            stamped(0, covering),
        ),
{
    lemma_stamped(0, covering);
    lemma_stencil_classes(level, stamped(0, covering));
}

impl BlendState {
    /// Whether the blend equations read the constant blend color.
    pub open spec fn reads_constant(self) -> bool {
        self.color.src_factor == BlendFactor::Constant || self.color.dst_factor
            == BlendFactor::Constant || self.alpha.src_factor == BlendFactor::Constant
            || self.alpha.dst_factor == BlendFactor::Constant
    }
}

/// Of the blend modes only `Invert` reads the constant blend color.
pub proof fn lemma_only_invert_reads_constant(mode: BlendMode)
    ensures
        (BlendState::spec_of(mode) matches Some(state) && state.reads_constant()) <==> mode
            == BlendMode::Invert,
{
}

/// Pixel format of the output color target. The library reads nothing of
/// a format: it hands it on to every pipeline.
#[derive(Clone, Copy, Debug, PartialEq, Eq, Structural)]
pub enum ColorFormat {
    Rgba8Unorm,
    Rgba8UnormSrgb,
    Bgra8Unorm,
    Bgra8UnormSrgb,
    Rgb10a2Unorm,
    Rgba16Float,
    /// Any other format, under a number that the caller knows it by.
    Other(u32),
}

/// What one pipeline is compiled from, beside what all pipelines share.
#[derive(Clone, Copy, Debug, PartialEq, Eq, Structural)]
pub struct PipelineDescriptor {
    /// Selects the shader pair and the vertex buffer layout.
    pub kind: VertexKind,
    /// Format of the color target the pipeline writes.
    pub format: ColorFormat,
    /// `None` where blending is off.
    pub blend: Option<BlendState>,
    pub stencil: StencilState,
}

impl PipelineDescriptor {
    /// The pipeline of `key` for an output of `format`.
    pub open spec fn spec_of(format: ColorFormat, key: PipelineKey) -> PipelineDescriptor {
        PipelineDescriptor {
            kind: key.kind,
            format,
            blend: BlendState::spec_of(key.blend),
            stencil: StencilState::spec_of(key.stencil),
        }
    }
}

/// Distinct keys have distinct pipelines: a pipeline tells its stencil
/// class, its blend mode and its vertex kind.
pub proof fn lemma_pipelines_distinct(format: ColorFormat, a: PipelineKey, b: PipelineKey)
    requires
        PipelineDescriptor::spec_of(format, a) == PipelineDescriptor::spec_of(format, b),
    ensures
        a == b,
{
}

/// The pipelines of an engine: one for every key, built once for one
/// output format.
pub struct PipelineCache {
    format: ColorFormat,
    colored: PsoStencil<PipelineDescriptor>,
    textured: PsoStencil<PipelineDescriptor>,
}

impl PipelineCache {
    /// Pixel format of the output the pipelines were built for.
    pub closed spec fn format(&self) -> ColorFormat {
        self.format
    }

    /// The pipeline stored for `key`.
    pub closed spec fn stored(&self, key: PipelineKey) -> PipelineDescriptor {
        match key.kind {
            VertexKind::Colored => self.colored.slot(key.stencil, key.blend),
            VertexKind::Textured => self.textured.slot(key.stencil, key.blend),
        }
    }

    /// Every key has its pipeline, built for the output format of the
    /// cache. This holds of every cache at all times.
    pub closed spec fn wf(&self) -> bool {
        forall|class: StencilClass, blend: BlendMode|
            #![trigger self.colored.slot(class, blend)]
            #![trigger self.textured.slot(class, blend)]
            self.colored.slot(class, blend) == PipelineDescriptor::spec_of(
                self.format,
                PipelineKey { stencil: class, blend, kind: VertexKind::Colored },
            ) && self.textured.slot(class, blend) == PipelineDescriptor::spec_of(
                self.format,
                PipelineKey { stencil: class, blend, kind: VertexKind::Textured },
            )
    }

    #[verifier::type_invariant]
    spec fn always(&self) -> bool {
        self.wf()
    }

    /// What it means that every key has its pipeline.
    pub proof fn lemma_wf(&self, key: PipelineKey)
        requires
            self.wf(),
        ensures
            self.stored(key) == PipelineDescriptor::spec_of(self.format(), key),
    {
        match key.kind {
            VertexKind::Colored => {
                assert(self.stored(key) == self.colored.slot(key.stencil, key.blend));
            },
            VertexKind::Textured => {
                assert(self.stored(key) == self.textured.slot(key.stencil, key.blend));
            },
        }
    }

    /// The cache holds sixty pipelines, one for each key and no two alike:
    /// which pipeline a key has never changes, and two keys that have the
    /// same pipeline are the same key.
    pub proof fn lemma_sixty_pipelines(&self, a: PipelineKey, b: PipelineKey)
        requires
            self.wf(),
            self.stored(a) == self.stored(b),
        ensures
            a == b,
    {
        self.lemma_wf(a);
        self.lemma_wf(b);
        lemma_pipelines_distinct(self.format(), a, b);
    }

    /// Builds the sixty pipelines for an output of `format`.
    pub fn build(format: ColorFormat) -> (r: PipelineCache)
        ensures
            r.wf(),
            r.format() == format,
    {
        let colored = |blend: Option<BlendState>, stencil: StencilState| -> (d: PipelineDescriptor)
            ensures
                d == (PipelineDescriptor { kind: VertexKind::Colored, format, blend, stencil }),
            { PipelineDescriptor { kind: VertexKind::Colored, format, blend, stencil } };
        let textured = |blend: Option<BlendState>, stencil: StencilState| -> (d: PipelineDescriptor)
            ensures
                d == (PipelineDescriptor { kind: VertexKind::Textured, format, blend, stencil }),
            { PipelineDescriptor { kind: VertexKind::Textured, format, blend, stencil } };
        PipelineCache {
            format,
            colored: PsoStencil::new(colored),
            textured: PsoStencil::new(textured),
        }
    }

    /// The pipeline of `key`. Every key has one, and the same one at every
    /// call.
    pub fn get(&self, key: PipelineKey) -> (r: &PipelineDescriptor)
        ensures
            self.wf(),
            *r == self.stored(key),
            *r == PipelineDescriptor::spec_of(self.format(), key),
    {
        proof {
            use_type_invariant(self);
            self.lemma_wf(key);
        }
        match key.kind {
            VertexKind::Colored => self.colored.class_blend(key.stencil, key.blend),
            VertexKind::Textured => self.textured.class_blend(key.stencil, key.blend),
        }
    }

    /// The pipeline that draws vertices of `kind` with `stencil` and
    /// `blend`, and the stencil reference value to set for the draw, if
    /// the stencil mode carries one.
    pub fn stencil_blend(
        &self,
        kind: VertexKind,
        stencil: Option<StencilMode>,
        blend: BlendMode,
    ) -> (r: (&PipelineDescriptor, Option<u8>))
        ensures
            *r.0 == PipelineDescriptor::spec_of(
                self.format(),
                PipelineKey { stencil: StencilClass::spec_of(stencil), blend, kind },
            ),
            r.1 == match stencil {
                Some(mode) => mode.spec_reference(),
                None => None,
            },
    {
        proof {
            use_type_invariant(self);
        }
        match kind {
            VertexKind::Colored => self.colored.stencil_blend(stencil, blend),
            VertexKind::Textured => self.textured.stencil_blend(stencil, blend),
        }
    }
}

} // verus!
