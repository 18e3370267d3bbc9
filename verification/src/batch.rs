//! The batching rules as a state machine over mathematical values, and what
//! holds of every run of it.

use vstd::prelude::*;
use crate::command::{
    colored_paints, lemma_paints_push, paints, textured_paints, DrawSetup, Paint, Pass, VertexSeq,
};
use crate::draw_state::{DrawState, Rect, VertexKind};
use crate::pipeline::ColorFormat;
use crate::texture::Texture;
use crate::vertex::{ColoredPipelineInput, TexturedPipelineInput};

verus! {

/// A frame under construction.
pub struct FrameState {
    /// Pixel format of the output.
    pub format: ColorFormat,
    /// Soft limit on the number of vertices of one batch.
    pub capacity: nat,
    /// Extent of the output.
    pub width: u32,
    pub height: u32,
    /// The passes recorded so far.
    pub passes: Seq<Pass>,
    /// The draw state of the pending batch.
    pub draw_state: DrawState,
    /// The texture of the pending textured batch.
    pub texture: Option<Texture>,
    /// The pending batch of colored vertices.
    pub colored: Seq<ColoredPipelineInput>,
    /// The pending batch of textured vertices.
    pub textured: Seq<TexturedPipelineInput>,
}

/// One drawing operation of a frame.
#[allow(inconsistent_fields)]
pub enum Op {
    /// Submits colored vertices.
    Colored { state: DrawState, vertices: Seq<ColoredPipelineInput> },
    /// Submits textured vertices.
    Textured { state: DrawState, texture: Texture, vertices: Seq<TexturedPipelineInput> },
    ClearColor([u32; 4]),
    ClearStencil(u8),
}

/// Whether a pending batch of `pending` vertices has to be flushed before
/// `incoming` vertices are taken in.
///
/// An empty batch is never flushed. A batch with vertices is flushed when
/// the incoming vertices are not bound as the batch is (another draw state,
/// another texture), or when they would raise the batch over `capacity`.
pub open spec fn spec_flush_before_append(
    pending: nat,
    incoming: nat,
    capacity: nat,
    same_binding: bool,
) -> bool {
    pending > 0 && (!same_binding || pending + incoming > capacity)
}

/// The decision shared by both vertex kinds: see
/// [`spec_flush_before_append`].
pub fn flush_before_append(
    pending: usize,
    incoming: usize,
    capacity: usize,
    same_binding: bool,
) -> (flush: bool)
    ensures
        flush == spec_flush_before_append(
            pending as nat,
            incoming as nat,
            capacity as nat,
            same_binding,
        ),
{
    pending > 0 && (!same_binding || pending > capacity || incoming > capacity - pending)
}

impl FrameState {
    /// The state of a frame that has just begun: nothing recorded, nothing
    /// pending, the default draw state, no texture.
    pub open spec fn begin(format: ColorFormat, capacity: nat, width: u32, height: u32) -> Self {
        FrameState {
            format,
            capacity,
            width,
            height,
            passes: Seq::empty(),
            draw_state: DrawState::spec_default(),
            texture: None,
            colored: Seq::empty(),
            textured: Seq::empty(),
        }
    }

    /// What holds between any two operations: at most one of the two
    /// batches holds vertices, and a textured batch has its texture.
    pub open spec fn wf(self) -> bool {
        &&& self.colored.len() == 0 || self.textured.len() == 0
        &&& self.textured.len() > 0 ==> self.texture is Some
    }

    /// What is bound to draw the pending batch of `kind`.
    pub open spec fn setup(self, kind: VertexKind) -> DrawSetup {
        DrawSetup::spec_of(
            self.format,
            self.width,
            self.height,
            kind,
            self.draw_state,
            self.texture,
        )
    }

    /// Records the pending colored batch as one pass and empties it.
    pub open spec fn flush_colored(self) -> Self {
        if self.colored.len() == 0 {
            self
        } else {
            FrameState {
                passes: self.passes.push(
                    Pass::Draw {
                        setup: self.setup(VertexKind::Colored),
                        vertices: VertexSeq::Colored(self.colored),
                    },
                ),
                colored: Seq::empty(),
                ..self
            }
        }
    }

    /// Records the pending textured batch as one pass and empties it.
    pub open spec fn flush_textured(self) -> Self {
        if self.textured.len() == 0 {
            self
        } else {
            FrameState {
                passes: self.passes.push(
                    Pass::Draw {
                        setup: self.setup(VertexKind::Textured),
                        vertices: VertexSeq::Textured(self.textured),
                    },
                ),
                textured: Seq::empty(),
                ..self
            }
        }
    }

    /// Records whatever is pending.
    pub open spec fn flush(self) -> Self {
        self.flush_colored().flush_textured()
    }

    /// Makes room for `incoming` colored vertices drawn in `state`.
    ///
    /// A pending textured batch is flushed first. The pending colored batch
    /// is flushed if [`spec_flush_before_append`] says so. The frame takes
    /// `state`.
    pub open spec fn prepare_colored(self, state: DrawState, incoming: nat) -> Self {
        let a = self.flush_textured();
        let b = if spec_flush_before_append(
            a.colored.len(),
            incoming,
            a.capacity,
            state == a.draw_state,
        ) {
            a.flush_colored()
        } else {
            a
        };
        FrameState { draw_state: state, ..b }
    }

    /// Makes room for `incoming` textured vertices drawn in `state` with
    /// `texture`.
    ///
    /// A pending colored batch is flushed first. The pending textured batch
    /// is flushed if [`spec_flush_before_append`] says so. The frame takes
    /// `state` and `texture`.
    pub open spec fn prepare_textured(
        self,
        state: DrawState,
        texture: Texture,
        incoming: nat,
    ) -> Self {
        let a = self.flush_colored();
        let b = if spec_flush_before_append(
            a.textured.len(),
            incoming,
            a.capacity,
            state == a.draw_state && a.texture == Some(texture),
        ) {
            a.flush_textured()
        } else {
            a
        };
        FrameState { draw_state: state, texture: Some(texture), ..b }
    }

    /// Takes in colored vertices drawn in `state`: makes room for them,
    /// then appends them to the colored batch.
    pub open spec fn submit_colored(
        self,
        state: DrawState,
        vertices: Seq<ColoredPipelineInput>,
    ) -> Self {
        let b = self.prepare_colored(state, vertices.len());
        FrameState { colored: b.colored + vertices, ..b }
    }

    /// Takes in textured vertices drawn in `state` with `texture`: makes
    /// room for them, then appends them to the textured batch.
    pub open spec fn submit_textured(
        self,
        state: DrawState,
        texture: Texture,
        vertices: Seq<TexturedPipelineInput>,
    ) -> Self {
        let b = self.prepare_textured(state, texture, vertices.len());
        FrameState { textured: b.textured + vertices, ..b }
    }

    /// Records whatever is pending, then a pass that fills the color target.
    pub open spec fn clear_color(self, color: [u32; 4]) -> Self {
        let a = self.flush();
        FrameState { passes: a.passes.push(Pass::ClearColor(color)), ..a }
    }

    /// Records whatever is pending, then a pass that fills the stencil
    /// attachment.
    pub open spec fn clear_stencil(self, value: u8) -> Self {
        let a = self.flush();
        FrameState { passes: a.passes.push(Pass::ClearStencil(value as u32)), ..a }
    }

    /// The passes of the frame once whatever is pending is recorded.
    pub open spec fn finish(self) -> Seq<Pass> {
        self.flush().passes
    }

    /// What the frame paints if it is finished now: what the recorded
    /// passes paint, then what the pending batches paint.
    pub open spec fn painted(self) -> Seq<Paint> {
        paints(self.passes) + colored_paints(self.setup(VertexKind::Colored), self.colored)
            + textured_paints(self.setup(VertexKind::Textured), self.textured)
    }

    /// One operation. A textured submission whose texture is not valid is
    /// refused: it leaves the frame as it is.
    pub open spec fn step(self, op: Op) -> Self {
        match op {
            Op::Colored { state, vertices } => self.submit_colored(state, vertices),
            Op::Textured { state, texture, vertices } => if texture.spec_is_valid() {
                self.submit_textured(state, texture, vertices)
            } else {
                self
            },
            Op::ClearColor(color) => self.clear_color(color),
            Op::ClearStencil(value) => self.clear_stencil(value),
        }
    }

    /// The operations of `ops`, one after the other.
    pub open spec fn run(self, ops: Seq<Op>) -> Self
        decreases ops.len(),
    {
        if ops.len() == 0 {
            self
        } else {
            self.run(ops.drop_last()).step(ops.last())
        }
    }

    /// What `op` paints when it is executed at once and alone on this
    /// frame's output: one draw of its own vertices in its own state, or
    /// its clear.
    pub open spec fn alone(self, op: Op) -> Seq<Paint> {
        match op {
            Op::Colored { state, vertices } => colored_paints(
                DrawSetup::spec_of(
                    self.format,
                    self.width,
                    self.height,
                    VertexKind::Colored,
                    state,
                    None,
                ),
                vertices,
            ),
            Op::Textured { state, texture, vertices } => if texture.spec_is_valid() {
                textured_paints(
                    DrawSetup::spec_of(
                        self.format,
                        self.width,
                        self.height,
                        VertexKind::Textured,
                        state,
                        Some(texture),
                    ),
                    vertices,
                )
            } else {
                Seq::empty()
            },
            Op::ClearColor(color) => seq![Paint::ClearColor(color)],
            Op::ClearStencil(value) => seq![Paint::ClearStencil(value as u32)],
        }
    }

    /// What the operations of `ops` paint when each is executed at once and
    /// alone, in order.
    pub open spec fn each_alone(self, ops: Seq<Op>) -> Seq<Paint>
        decreases ops.len(),
    {
        if ops.len() == 0 {
            Seq::empty()
        } else {
            self.each_alone(ops.drop_last()) + self.alone(ops.last())
        }
    }

    /// Whether no recorded pass and no pending batch has more vertices than
    /// the capacity.
    pub open spec fn bounded(self) -> bool {
        &&& forall|i: int|
            0 <= i < self.passes.len() ==> (#[trigger] self.passes[i]).vertex_count()
                <= self.capacity
        &&& self.colored.len() <= self.capacity
        &&& self.textured.len() <= self.capacity
    }

    /// Whether every recorded draw has a vertex: no empty batch is ever
    /// recorded.
    pub open spec fn no_empty_draw(self) -> bool {
        forall|i: int|
            0 <= i < self.passes.len() && (#[trigger] self.passes[i]) is Draw
                ==> self.passes[i].vertex_count() > 0
    }

    /// Number of vertices `op` submits: those of a submission that is
    /// taken in, none for a submission that is refused and none for a
    /// clear.
    pub open spec fn submitted(op: Op) -> nat {
        match op {
            Op::Colored { vertices, .. } => vertices.len(),
            Op::Textured { texture, vertices, .. } => if texture.spec_is_valid() {
                vertices.len()
            } else {
                0
            },
            _ => 0,
        }
    }

    /// Whether every recorded draw and every pending batch holds whole
    /// triangles: a number of vertices that three divides.
    pub open spec fn whole_triangles(self) -> bool {
        &&& forall|i: int|
            0 <= i < self.passes.len() ==> (#[trigger] self.passes[i]).vertex_count() % 3 == 0
        &&& self.colored.len() % 3 == 0
        &&& self.textured.len() % 3 == 0
    }
}

impl Op {
    /// Whether the operation is refused: it submits textured vertices
    /// with a texture that is not valid.
    pub open spec fn refused(self) -> bool {
        self matches Op::Textured { texture, .. } && !texture.spec_is_valid()
    }
}

/// Flushing the colored batch changes nothing that is painted, empties the
/// batch and keeps the frame well formed.
pub proof fn lemma_flush_colored(s: FrameState)
    requires
        s.wf(),
    ensures
        s.flush_colored().wf(),
        s.flush_colored().painted() == s.painted(),
        s.flush_colored().colored.len() == 0,
{
    let t = s.flush_colored();
    if s.colored.len() > 0 {
        let pass = Pass::Draw {
            setup: s.setup(VertexKind::Colored),
            vertices: VertexSeq::Colored(s.colored),
        };
        lemma_paints_push(s.passes, pass);
        assert(t.painted() =~= s.painted());
    }
}

/// Flushing the textured batch changes nothing that is painted, empties
/// the batch and keeps the frame well formed.
pub proof fn lemma_flush_textured(s: FrameState)
    requires
        s.wf(),
    ensures
        s.flush_textured().wf(),
        s.flush_textured().painted() == s.painted(),
        s.flush_textured().textured.len() == 0,
{
    let t = s.flush_textured();
    if s.textured.len() > 0 {
        let pass = Pass::Draw {
            setup: s.setup(VertexKind::Textured),
            vertices: VertexSeq::Textured(s.textured),
        };
        lemma_paints_push(s.passes, pass);
        assert(t.painted() =~= s.painted());
    }
}

/// Flushing both batches changes nothing that is painted and leaves
/// nothing pending: all that is painted is then in the recorded passes.
pub proof fn lemma_flush(s: FrameState)
    requires
        s.wf(),
    ensures
        s.flush().wf(),
        s.flush().painted() == s.painted(),
        s.flush().colored.len() == 0,
        s.flush().textured.len() == 0,
        paints(s.flush().passes) == s.painted(),
{
    lemma_flush_colored(s);
    lemma_flush_textured(s.flush_colored());
    let t = s.flush();
    assert(t.painted() =~= paints(t.passes));
}

/// After an operation the frame paints what it painted before and then
/// what the operation paints alone: whatever was flushed on the way, no
/// vertex is lost, moved or bound otherwise, and no clear is skipped.
pub proof fn lemma_step_paints(s: FrameState, op: Op)
    requires
        s.wf(),
    ensures
        s.step(op).wf(),
        s.step(op).painted() == s.painted() + s.alone(op),
        s.step(op).format == s.format,
        s.step(op).capacity == s.capacity,
        s.step(op).width == s.width,
        s.step(op).height == s.height,
{
    let t = s.step(op);
    match op {
        Op::Colored { state, vertices } => {
            let a = s.flush_textured();
            lemma_flush_textured(s);
            lemma_flush_colored(a);
            assert(t.painted() =~= s.painted() + s.alone(op));
        },
        Op::Textured { state, texture, vertices } => {
            if texture.spec_is_valid() {
                let a = s.flush_colored();
                lemma_flush_colored(s);
                lemma_flush_textured(a);
                assert(t.painted() =~= s.painted() + s.alone(op));
            } else {
                assert(t.painted() =~= s.painted() + s.alone(op));
            }
        },
        Op::ClearColor(color) => {
            lemma_flush(s);
            let a = s.flush();
            lemma_paints_push(a.passes, Pass::ClearColor(color));
            assert(t.painted() =~= s.painted() + s.alone(op));
        },
        Op::ClearStencil(value) => {
            lemma_flush(s);
            let a = s.flush();
            lemma_paints_push(a.passes, Pass::ClearStencil(value as u32));
            assert(t.painted() =~= s.painted() + s.alone(op));
        },
    }
}

/// Paint order is kept. For every sequence of operations, colored and
/// textured in any mixture, the passes of the finished frame paint exactly
/// what the operations paint when each is executed at once and alone, in
/// the order they were issued.
pub proof fn lemma_order_kept(s: FrameState, ops: Seq<Op>)
    requires
        s.wf(),
    ensures
        s.run(ops).wf(),
        s.run(ops).painted() == s.painted() + s.each_alone(ops),
        paints(s.run(ops).finish()) == s.painted() + s.each_alone(ops),
        s.run(ops).format == s.format,
        s.run(ops).capacity == s.capacity,
        s.run(ops).width == s.width,
        s.run(ops).height == s.height,
    decreases ops.len(),
{
    if ops.len() == 0 {
        assert(s.painted() + s.each_alone(ops) =~= s.painted());
    } else {
        let before = s.run(ops.drop_last());
        lemma_order_kept(s, ops.drop_last());
        lemma_step_paints(before, ops.last());
        assert(before.alone(ops.last()) == s.alone(ops.last()));
        assert(s.run(ops).painted() =~= s.painted() + s.each_alone(ops));
    }
    lemma_flush(s.run(ops));
}

/// A clear between two submissions erases nothing that was submitted
/// before it and is not skipped for what is submitted after it: the frame
/// paints the first vertices, then the clear, then the second vertices.
pub proof fn lemma_clear_ordering(
    s: FrameState,
    first: Op,
    color: [u32; 4],
    second: Op,
)
    requires
        s.wf(),
    ensures
        paints(s.step(first).clear_color(color).step(second).finish()) == s.painted() + s.alone(
            first,
        ) + seq![Paint::ClearColor(color)] + s.alone(second),
{
    let a = s.step(first);
    lemma_step_paints(s, first);
    let b = a.step(Op::ClearColor(color));
    lemma_step_paints(a, Op::ClearColor(color));
    let c = b.step(second);
    lemma_step_paints(b, second);
    lemma_flush(c);
    assert(a.alone(Op::ClearColor(color)) == seq![Paint::ClearColor(color)]);
    assert(b.alone(second) == s.alone(second));
}

/// No batch grows over the capacity: where no recorded pass and no pending
/// batch has more vertices than the capacity, and the operation submits no
/// more than the capacity, the same holds after the operation.
pub proof fn lemma_step_bounded(s: FrameState, op: Op)
    requires
        s.wf(),
        s.bounded(),
        FrameState::submitted(op) <= s.capacity,
    ensures
        s.step(op).bounded(),
{
}

/// No flushed batch has more vertices than the capacity, whatever the
/// operations, as long as none of them submits more than the capacity at
/// once.
pub proof fn lemma_capacity_bound(s: FrameState, ops: Seq<Op>)
    requires
        s.wf(),
        s.bounded(),
        forall|i: int| 0 <= i < ops.len() ==> FrameState::submitted(#[trigger] ops[i]) <= s.capacity,
    ensures
        s.run(ops).bounded(),
        forall|i: int|
            0 <= i < s.run(ops).finish().len() ==> (#[trigger] s.run(ops).finish()[i]).vertex_count()
                <= s.capacity,
    decreases ops.len(),
{
    if ops.len() > 0 {
        lemma_capacity_bound(s, ops.drop_last());
        lemma_order_kept(s, ops.drop_last());
        lemma_step_bounded(s.run(ops.drop_last()), ops.last());
    }
    lemma_order_kept(s, ops);
}

/// Triangles stay whole. A draw forms its triangles from consecutive
/// triples of its own vertices, so a batch of several submissions draws
/// the triangles of each only if every submission before the last holds
/// whole triangles. Where every recorded draw and every pending batch
/// holds whole triangles and the operation submits whole triangles, the
/// same holds after the operation.
pub proof fn lemma_step_whole_triangles(s: FrameState, op: Op)
    requires
        s.whole_triangles(),
        FrameState::submitted(op) % 3 == 0,
    ensures
        s.step(op).whole_triangles(),
{
}

/// Triangles stay whole in every frame: where every operation submits a
/// number of vertices that three divides, so does every pass of the
/// finished frame draw one.
pub proof fn lemma_whole_triangles(s: FrameState, ops: Seq<Op>)
    requires
        s.whole_triangles(),
        forall|i: int| 0 <= i < ops.len() ==> FrameState::submitted(#[trigger] ops[i]) % 3 == 0,
    ensures
        s.run(ops).whole_triangles(),
        forall|i: int|
            0 <= i < s.run(ops).finish().len() ==> (#[trigger] s.run(ops).finish()[i]).vertex_count()
                % 3 == 0,
    decreases ops.len(),
{
    if ops.len() > 0 {
        lemma_whole_triangles(s, ops.drop_last());
        lemma_step_whole_triangles(s.run(ops.drop_last()), ops.last());
    }
}

/// No empty batch is recorded: where every recorded draw has a vertex, the
/// same holds after any operations and in the finished frame.
pub proof fn lemma_no_empty_draw(s: FrameState, ops: Seq<Op>)
    requires
        s.wf(),
        s.no_empty_draw(),
    ensures
        s.run(ops).no_empty_draw(),
        forall|i: int|
            0 <= i < s.run(ops).finish().len() && (#[trigger] s.run(ops).finish()[i]) is Draw
                ==> s.run(ops).finish()[i].vertex_count() > 0,
    decreases ops.len(),
{
    if ops.len() > 0 {
        lemma_no_empty_draw(s, ops.drop_last());
        lemma_order_kept(s, ops.drop_last());
    }
    lemma_order_kept(s, ops);
}

/// A draw state without a scissor rectangle binds the full output extent.
pub proof fn lemma_scissor_default(
    format: ColorFormat,
    width: u32,
    height: u32,
    kind: VertexKind,
    state: DrawState,
    texture: Option<Texture>,
)
    requires
        state.scissor is None,
    ensures
        DrawSetup::spec_of(format, width, height, kind, state, texture).scissor == (Rect {
            x: 0,
            y: 0,
            width,
            height,
        }),
{
}

} // verus!
