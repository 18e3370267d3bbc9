use wgpu_graphics::command::{ColorLoad, CommandBuffer, RenderPass, StencilLoad, Vertices};
use wgpu_graphics::draw_state::{
    BlendMode, DrawState, PipelineKey, Rect, StencilClass, StencilMode, VertexKind,
};
use wgpu_graphics::graphics::{soft_buffer_limit, DrawOp, Wgpu2d, WgpuGraphics, CHUNKS};
use wgpu_graphics::pipeline::{BlendState, ColorFormat, StencilState};
use wgpu_graphics::texture::{Texture, TextureError};
use wgpu_graphics::vertex::{ColoredPipelineInput, TexturedPipelineInput};

const RED: [u32; 4] = [0x3f80_0000, 0, 0, 0x3f80_0000];
const BLUE: [u32; 4] = [0, 0, 0x3f80_0000, 0x3f80_0000];

fn state(blend: BlendMode) -> DrawState {
    DrawState { blend, stencil: None, scissor: None }
}

fn positions(first: u32, n: u32) -> Vec<[u32; 2]> {
    (0..n).map(|i| [first + i, first + i + 1000]).collect()
}

fn colored(pass: &RenderPass) -> &Vec<ColoredPipelineInput> {
    match &pass.draw().unwrap().vertices {
        Vertices::Colored(v) => v,
        Vertices::Textured(_) => panic!("textured draw"),
    }
}

fn textured(pass: &RenderPass) -> &Vec<TexturedPipelineInput> {
    match &pass.draw().unwrap().vertices {
        Vertices::Textured(v) => v,
        Vertices::Colored(_) => panic!("colored draw"),
    }
}

fn counts(buffer: &CommandBuffer) -> Vec<usize> {
    buffer
        .passes
        .iter()
        .map(|p| match p.draw() {
            Some(call) => match &call.vertices {
                Vertices::Colored(v) => v.len(),
                Vertices::Textured(v) => v.len(),
            },
            None => 0,
        })
        .collect()
}

#[test]
fn empty_frame_records_nothing() {
    let mut engine = Wgpu2d::new(ColorFormat::Bgra8UnormSrgb, 100);
    let frame = WgpuGraphics::new(&mut engine, 640, 480);
    let buffer = frame.draw();
    assert_eq!(buffer.width, 640);
    assert_eq!(buffer.height, 480);
    assert!(buffer.passes.is_empty());
}

#[test]
fn same_state_is_one_draw() {
    let mut engine = Wgpu2d::new(ColorFormat::Bgra8UnormSrgb, 100);
    let mut frame = WgpuGraphics::new(&mut engine, 640, 480);
    let s = state(BlendMode::Alpha);
    frame.tri_list(&s, &RED, &positions(0, 3));
    frame.tri_list(&s, &BLUE, &positions(10, 6));
    let buffer = frame.draw();
    assert_eq!(counts(&buffer), vec![9]);
    let v = colored(&buffer.passes[0]);
    assert_eq!(v[0], ColoredPipelineInput { position: [0, 1000], color: RED });
    assert_eq!(v[2], ColoredPipelineInput { position: [2, 1002], color: RED });
    assert_eq!(v[3], ColoredPipelineInput { position: [10, 1010], color: BLUE });
    assert_eq!(v[8], ColoredPipelineInput { position: [15, 1015], color: BLUE });
    assert_eq!(buffer.passes[0].color_load(), ColorLoad::Load);
    assert_eq!(buffer.passes[0].stencil_load(), StencilLoad::Load);
}

#[test]
fn changed_state_flushes() {
    let mut engine = Wgpu2d::new(ColorFormat::Bgra8UnormSrgb, 100);
    let mut frame = WgpuGraphics::new(&mut engine, 640, 480);
    frame.tri_list(&state(BlendMode::Disabled), &RED, &positions(0, 3));
    frame.tri_list(&state(BlendMode::Alpha), &RED, &positions(3, 3));
    let buffer = frame.draw();
    assert_eq!(counts(&buffer), vec![3, 3]);
    let first = buffer.passes[0].draw().unwrap();
    let second = buffer.passes[1].draw().unwrap();
    assert_eq!(first.setup.key.blend, BlendMode::Disabled);
    assert_eq!(first.setup.pipeline.blend, None);
    assert_eq!(second.setup.key.blend, BlendMode::Alpha);
    assert_eq!(second.setup.pipeline.blend, BlendState::of(BlendMode::Alpha));
}

#[test]
fn changed_scissor_flushes_and_is_bound() {
    let mut engine = Wgpu2d::new(ColorFormat::Bgra8UnormSrgb, 100);
    let mut frame = WgpuGraphics::new(&mut engine, 640, 480);
    let open = state(BlendMode::Alpha);
    let clipped = DrawState {
        blend: BlendMode::Alpha,
        stencil: None,
        scissor: Some(Rect { x: 5, y: 6, width: 7, height: 8 }),
    };
    frame.tri_list(&open, &RED, &positions(0, 3));
    frame.tri_list(&clipped, &RED, &positions(3, 3));
    let buffer = frame.draw();
    assert_eq!(counts(&buffer), vec![3, 3]);
    assert_eq!(
        buffer.passes[0].draw().unwrap().setup.scissor,
        Rect { x: 0, y: 0, width: 640, height: 480 }
    );
    assert_eq!(
        buffer.passes[1].draw().unwrap().setup.scissor,
        Rect { x: 5, y: 6, width: 7, height: 8 }
    );
}

#[test]
fn scissor_defaults_to_full_output() {
    let mut engine = Wgpu2d::new(ColorFormat::Rgba8Unorm, 100);
    let mut frame = WgpuGraphics::new(&mut engine, 1920, 1080);
    frame.tri_list(&state(BlendMode::Add), &RED, &positions(0, 3));
    let buffer = frame.draw();
    let setup = buffer.passes[0].draw().unwrap().setup;
    assert_eq!(setup.scissor, Rect { x: 0, y: 0, width: 1920, height: 1080 });
}

#[test]
fn stencil_reference_is_set_where_the_mode_has_one() {
    let mut engine = Wgpu2d::new(ColorFormat::Rgba8Unorm, 100);
    let mut frame = WgpuGraphics::new(&mut engine, 64, 64);
    let modes = [
        (Some(StencilMode::Clip(9)), Some(9), StencilClass::Clip),
        (Some(StencilMode::Inside(255)), Some(255), StencilClass::Inside),
        (Some(StencilMode::Outside(0)), Some(0), StencilClass::Outside),
        (Some(StencilMode::Increment), None, StencilClass::Increment),
        (None, None, StencilClass::Disabled),
    ];
    for (stencil, _, _) in modes.iter() {
        let s = DrawState { blend: BlendMode::Alpha, stencil: *stencil, scissor: None };
        frame.tri_list(&s, &RED, &positions(0, 3));
    }
    let buffer = frame.draw();
    assert_eq!(buffer.passes.len(), 5);
    for (i, (_, reference, class)) in modes.iter().enumerate() {
        let setup = buffer.passes[i].draw().unwrap().setup;
        assert_eq!(setup.stencil_reference, *reference);
        assert_eq!(setup.key.stencil, *class);
        assert_eq!(setup.pipeline.stencil, StencilState::of(*class));
    }
}

#[test]
fn changed_reference_flushes() {
    let mut engine = Wgpu2d::new(ColorFormat::Rgba8Unorm, 100);
    let mut frame = WgpuGraphics::new(&mut engine, 64, 64);
    let one = DrawState { blend: BlendMode::Alpha, stencil: Some(StencilMode::Inside(1)), scissor: None };
    let two = DrawState { blend: BlendMode::Alpha, stencil: Some(StencilMode::Inside(2)), scissor: None };
    assert!(one.pipeline_compatible(two));
    frame.tri_list(&one, &RED, &positions(0, 3));
    frame.tri_list(&two, &RED, &positions(0, 3));
    let buffer = frame.draw();
    assert_eq!(counts(&buffer), vec![3, 3]);
    let a = buffer.passes[0].draw().unwrap().setup;
    let b = buffer.passes[1].draw().unwrap().setup;
    assert_eq!(a.pipeline, b.pipeline);
    assert_eq!(a.stencil_reference, Some(1));
    assert_eq!(b.stencil_reference, Some(2));
}

fn rect(x: f32, y: f32, w: f32, h: f32) -> Vec<[u32; 2]> {
    let corners = [[x, y], [x + w, y], [x, y + h], [x + w, y], [x + w, y + h], [x, y + h]];
    corners.iter().map(|c| [c[0].to_bits(), c[1].to_bits()]).collect()
}

#[test]
fn interleaved_kinds_keep_paint_order() {
    let mut engine = Wgpu2d::new(ColorFormat::Bgra8UnormSrgb, 100);
    let mut frame = WgpuGraphics::new(&mut engine, 200, 200);
    let texture = Texture::new(1, 16, 16);
    let a = rect(0.0, 0.0, 100.0, 100.0);
    let b = rect(50.0, 50.0, 100.0, 100.0);
    let c = rect(25.0, 25.0, 50.0, 50.0);
    let uv = rect(0.0, 0.0, 1.0, 1.0);
    frame.tri_list(&state(BlendMode::Disabled), &RED, &a);
    assert_eq!(frame.tri_list_uv(&state(BlendMode::Alpha), &BLUE, &texture, &b, &uv), Ok(()));
    frame.tri_list(&state(BlendMode::Alpha), &BLUE, &c);
    let buffer = frame.draw();
    assert_eq!(counts(&buffer), vec![6, 6, 6]);
    let first_a: Vec<[u32; 2]> = colored(&buffer.passes[0]).iter().map(|v| v.position).collect();
    let drawn_b: Vec<[u32; 2]> = textured(&buffer.passes[1]).iter().map(|v| v.xy).collect();
    let last_c: Vec<[u32; 2]> = colored(&buffer.passes[2]).iter().map(|v| v.position).collect();
    assert_eq!(first_a, a);
    assert_eq!(drawn_b, b);
    assert_eq!(last_c, c);
    assert_eq!(textured(&buffer.passes[1])[4].uv, [1.0f32.to_bits(), 1.0f32.to_bits()]);
    let first = buffer.passes[0].draw().unwrap().setup;
    let second = buffer.passes[1].draw().unwrap().setup;
    let third = buffer.passes[2].draw().unwrap().setup;
    assert_eq!(first.key, PipelineKey { stencil: StencilClass::Disabled, blend: BlendMode::Disabled, kind: VertexKind::Colored });
    assert_eq!(second.key, PipelineKey { stencil: StencilClass::Disabled, blend: BlendMode::Alpha, kind: VertexKind::Textured });
    assert_eq!(third.key, PipelineKey { stencil: StencilClass::Disabled, blend: BlendMode::Alpha, kind: VertexKind::Colored });
    assert_eq!(first.pipeline.blend, None);
    assert_eq!(third.pipeline.blend, BlendState::of(BlendMode::Alpha));
    assert_eq!(first.texture, None);
    assert_eq!(second.texture, Some(texture));
    assert_eq!(third.texture, None);
}

#[test]
fn same_state_other_kind_still_flushes() {
    let mut engine = Wgpu2d::new(ColorFormat::Bgra8UnormSrgb, 100);
    let mut frame = WgpuGraphics::new(&mut engine, 200, 200);
    let texture = Texture::new(1, 16, 16);
    let s = state(BlendMode::Alpha);
    let p = positions(0, 3);
    frame.tri_list(&s, &RED, &p);
    frame.tri_list_uv(&s, &RED, &texture, &p, &p).unwrap();
    frame.tri_list(&s, &RED, &p);
    frame.tri_list_uv(&s, &RED, &texture, &p, &p).unwrap();
    let buffer = frame.draw();
    assert_eq!(counts(&buffer), vec![3, 3, 3, 3]);
}

#[test]
fn changed_texture_flushes() {
    let mut engine = Wgpu2d::new(ColorFormat::Bgra8UnormSrgb, 100);
    let mut frame = WgpuGraphics::new(&mut engine, 200, 200);
    let s = state(BlendMode::Alpha);
    let p = positions(0, 3);
    let one = Texture::new(1, 16, 16);
    let two = Texture::new(2, 16, 16);
    frame.tri_list_uv(&s, &RED, &one, &p, &p).unwrap();
    frame.tri_list_uv(&s, &RED, &one, &p, &p).unwrap();
    frame.tri_list_uv(&s, &RED, &two, &p, &p).unwrap();
    let buffer = frame.draw();
    assert_eq!(counts(&buffer), vec![6, 3]);
    assert_eq!(buffer.passes[0].draw().unwrap().setup.texture, Some(one));
    assert_eq!(buffer.passes[1].draw().unwrap().setup.texture, Some(two));
}

#[test]
fn invalid_texture_is_refused_at_once() {
    let mut engine = Wgpu2d::new(ColorFormat::Bgra8UnormSrgb, 100);
    let mut frame = WgpuGraphics::new(&mut engine, 200, 200);
    let s = state(BlendMode::Alpha);
    let p = positions(0, 3);
    frame.tri_list(&s, &RED, &p);
    let flat = Texture::new(3, 0, 16);
    assert!(!flat.is_valid());
    assert_eq!(frame.tri_list_uv(&state(BlendMode::Add), &RED, &flat, &p, &p), Err(TextureError::Invalid));
    let colors = vec![RED, RED, RED];
    assert_eq!(
        frame.tri_list_uv_c(&state(BlendMode::Add), &Texture::new(4, 16, 0), &p, &p, &colors),
        Err(TextureError::Invalid)
    );
    frame.tri_list(&s, &RED, &p);
    let buffer = frame.draw();
    assert_eq!(counts(&buffer), vec![6]);
}

#[test]
fn capacity_splits_batches() {
    let mut engine = Wgpu2d::new(ColorFormat::Bgra8UnormSrgb, 9);
    let mut frame = WgpuGraphics::new(&mut engine, 64, 64);
    let s = state(BlendMode::Alpha);
    for i in 0..5 {
        frame.tri_list(&s, &RED, &positions(i * 6, 6));
    }
    let buffer = frame.draw();
    assert_eq!(counts(&buffer), vec![6, 6, 6, 6, 6]);
    for n in counts(&buffer) {
        assert!(n <= 9);
    }
}

#[test]
fn capacity_is_reached_exactly() {
    let mut engine = Wgpu2d::new(ColorFormat::Bgra8UnormSrgb, 9);
    let mut frame = WgpuGraphics::new(&mut engine, 64, 64);
    let s = state(BlendMode::Alpha);
    frame.tri_list(&s, &RED, &positions(0, 6));
    frame.tri_list(&s, &RED, &positions(6, 3));
    frame.tri_list(&s, &RED, &positions(9, 3));
    let buffer = frame.draw();
    assert_eq!(counts(&buffer), vec![9, 3]);
}

#[test]
fn oversized_submission_is_one_batch() {
    let mut engine = Wgpu2d::new(ColorFormat::Bgra8UnormSrgb, 3);
    let mut frame = WgpuGraphics::new(&mut engine, 64, 64);
    frame.tri_list(&state(BlendMode::Alpha), &RED, &positions(0, 6));
    let buffer = frame.draw();
    assert_eq!(counts(&buffer), vec![6]);
}

#[test]
fn clear_color_keeps_what_came_before() {
    let mut engine = Wgpu2d::new(ColorFormat::Bgra8UnormSrgb, 100);
    let mut frame = WgpuGraphics::new(&mut engine, 64, 64);
    let s = state(BlendMode::Alpha);
    frame.tri_list(&s, &RED, &positions(0, 3));
    frame.clear_color(BLUE);
    frame.tri_list(&s, &RED, &positions(3, 3));
    let buffer = frame.draw();
    assert_eq!(buffer.passes.len(), 3);
    assert_eq!(colored(&buffer.passes[0])[0].position, [0, 1000]);
    assert_eq!(buffer.passes[1].color_load(), ColorLoad::Clear(BLUE));
    assert_eq!(buffer.passes[1].stencil_load(), StencilLoad::Load);
    assert!(buffer.passes[1].draw().is_none());
    assert_eq!(colored(&buffer.passes[2])[0].position, [3, 1003]);
}

#[test]
fn clear_stencil_keeps_color() {
    let mut engine = Wgpu2d::new(ColorFormat::Bgra8UnormSrgb, 100);
    let mut frame = WgpuGraphics::new(&mut engine, 64, 64);
    let texture = Texture::new(1, 2, 2);
    let p = positions(0, 3);
    frame.tri_list_uv(&state(BlendMode::Alpha), &RED, &texture, &p, &p).unwrap();
    frame.clear_stencil(7);
    let buffer = frame.draw();
    assert_eq!(buffer.passes.len(), 2);
    assert_eq!(textured(&buffer.passes[0]).len(), 3);
    assert_eq!(buffer.passes[1].color_load(), ColorLoad::Load);
    assert_eq!(buffer.passes[1].stencil_load(), StencilLoad::Clear(7));
    assert!(buffer.passes[1].draw().is_none());
}

#[test]
fn blend_constant_is_white() {
    let mut engine = Wgpu2d::new(ColorFormat::Bgra8UnormSrgb, 100);
    let mut frame = WgpuGraphics::new(&mut engine, 64, 64);
    frame.tri_list(&state(BlendMode::Invert), &RED, &positions(0, 3));
    let buffer = frame.draw();
    let setup = buffer.passes[0].draw().unwrap().setup;
    let one = 1.0f32.to_bits();
    assert_eq!(setup.blend_constant, [one, one, one, one]);
}

#[test]
fn per_vertex_lists_are_zipped_to_the_shortest() {
    let mut engine = Wgpu2d::new(ColorFormat::Bgra8UnormSrgb, 100);
    let mut frame = WgpuGraphics::new(&mut engine, 64, 64);
    let s = state(BlendMode::Alpha);
    frame.tri_list_c(&s, &positions(0, 5), &[RED, BLUE, RED]);
    let texture = Texture::new(1, 2, 2);
    frame
        .tri_list_uv_c(&s, &texture, &positions(0, 4), &positions(100, 6), &[RED, BLUE])
        .unwrap();
    frame.tri_list_uv(&s, &BLUE, &texture, &positions(7, 1), &positions(200, 3)).unwrap();
    let buffer = frame.draw();
    assert_eq!(counts(&buffer), vec![3, 3]);
    let c = colored(&buffer.passes[0]);
    assert_eq!(c[1], ColoredPipelineInput { position: [1, 1001], color: BLUE });
    let t = textured(&buffer.passes[1]);
    assert_eq!(t[0], TexturedPipelineInput { xy: [0, 1000], uv: [100, 1100], color: RED });
    assert_eq!(t[1], TexturedPipelineInput { xy: [1, 1001], uv: [101, 1101], color: BLUE });
    assert_eq!(t[2], TexturedPipelineInput { xy: [7, 1007], uv: [200, 1200], color: BLUE });
}

#[test]
fn engine_is_reused_across_frames() {
    let mut engine = Wgpu2d::new(ColorFormat::Bgra8UnormSrgb, 100);
    for _ in 0..3 {
        let mut frame = WgpuGraphics::new(&mut engine, 64, 64);
        frame.tri_list(&state(BlendMode::Alpha), &RED, &positions(0, 3));
        let buffer = frame.draw();
        assert_eq!(counts(&buffer), vec![3]);
    }
}

#[test]
fn abandoned_frame_is_discarded() {
    let mut engine = Wgpu2d::new(ColorFormat::Bgra8UnormSrgb, 100);
    {
        let mut frame = WgpuGraphics::new(&mut engine, 64, 64);
        frame.tri_list(&state(BlendMode::Alpha), &RED, &positions(0, 3));
    }
    let frame = WgpuGraphics::new(&mut engine, 64, 64);
    let buffer = frame.draw();
    assert!(buffer.passes.is_empty());
}

fn whole_frame(texture: Texture) -> Vec<DrawOp> {
    vec![
        DrawOp::ClearColor(BLUE),
        DrawOp::ClearStencil(0),
        DrawOp::TriList { draw_state: state(BlendMode::Disabled), color: RED, positions: positions(0, 6) },
        DrawOp::TriListUv {
            draw_state: state(BlendMode::Alpha),
            color: BLUE,
            texture,
            xys: positions(50, 6),
            uvs: positions(0, 6),
        },
        DrawOp::TriListC {
            draw_state: state(BlendMode::Alpha),
            positions: positions(25, 3),
            colors: vec![RED, RED, BLUE],
        },
        DrawOp::TriListUvC {
            draw_state: state(BlendMode::Alpha),
            texture,
            xys: positions(1, 3),
            uvs: positions(2, 3),
            colors: vec![RED, RED, BLUE],
        },
    ]
}

#[test]
fn draw_runs_a_whole_frame() {
    let mut engine = Wgpu2d::new(ColorFormat::Bgra8UnormSrgb, 100);
    let ops = whole_frame(Texture::new(1, 8, 8));
    let buffer = engine.draw(200, 100, &ops).unwrap();
    assert_eq!(buffer.width, 200);
    assert_eq!(buffer.height, 100);
    assert_eq!(counts(&buffer), vec![0, 0, 6, 6, 3, 3]);
    assert_eq!(buffer.passes[0].color_load(), ColorLoad::Clear(BLUE));
    assert_eq!(buffer.passes[1].stencil_load(), StencilLoad::Clear(0));
    let mut by_hand = WgpuGraphics::new(&mut engine, 200, 100);
    for op in ops.iter() {
        assert_eq!(by_hand.perform(op), Ok(()));
    }
    assert_eq!(by_hand.draw(), buffer);
}

#[test]
fn draw_surfaces_a_refused_texture_at_once() {
    let mut engine = Wgpu2d::new(ColorFormat::Bgra8UnormSrgb, 100);
    let mut ops = whole_frame(Texture::new(1, 8, 8));
    ops.insert(
        3,
        DrawOp::TriListUvC {
            draw_state: state(BlendMode::Alpha),
            texture: Texture::new(9, 0, 0),
            xys: positions(50, 6),
            uvs: positions(0, 6),
            colors: vec![RED; 6],
        },
    );
    assert_eq!(engine.draw(200, 100, &ops), Err(TextureError::Invalid));
    // The frame is abandoned; the engine serves the next one.
    ops.remove(3);
    let buffer = engine.draw(200, 100, &ops).unwrap();
    assert_eq!(counts(&buffer), vec![0, 0, 6, 6, 3, 3]);
    let empty = engine.draw(1, 1, &[]).unwrap();
    assert!(empty.passes.is_empty());
}

#[test]
fn perform_surfaces_a_refused_texture_and_goes_on() {
    let mut engine = Wgpu2d::new(ColorFormat::Bgra8UnormSrgb, 100);
    let mut frame = WgpuGraphics::new(&mut engine, 64, 64);
    let good = DrawOp::TriListUv {
        draw_state: state(BlendMode::Alpha),
        color: RED,
        texture: Texture::new(1, 2, 2),
        xys: positions(0, 3),
        uvs: positions(0, 3),
    };
    let bad = DrawOp::TriListUv {
        draw_state: state(BlendMode::Add),
        color: RED,
        texture: Texture::new(2, 2, 0),
        xys: positions(0, 3),
        uvs: positions(0, 3),
    };
    assert_eq!(frame.perform(&good), Ok(()));
    assert_eq!(frame.perform(&bad), Err(TextureError::Invalid));
    assert_eq!(frame.perform(&good), Ok(()));
    assert_eq!(frame.perform(&DrawOp::ClearColor(RED)), Ok(()));
    let buffer = frame.draw();
    assert_eq!(counts(&buffer), vec![6, 0]);
}

#[test]
fn flushes_by_hand() {
    let mut engine = Wgpu2d::new(ColorFormat::Bgra8UnormSrgb, 100);
    let mut frame = WgpuGraphics::new(&mut engine, 320, 240);
    let texture = Texture::new(1, 2, 2);
    let clip = DrawState {
        blend: BlendMode::Add,
        stencil: Some(StencilMode::Clip(200)),
        scissor: None,
    };
    let cut = DrawState {
        blend: BlendMode::Alpha,
        stencil: Some(StencilMode::Increment),
        scissor: Some(Rect { x: 1, y: 2, width: 3, height: 4 }),
    };
    frame.command_colored();
    frame.command_textured();
    frame.tri_list(&clip, &RED, &positions(0, 3));
    frame.command_textured();
    frame.command_colored();
    frame.command_colored();
    frame.tri_list(&clip, &RED, &positions(3, 3));
    frame.tri_list_uv(&cut, &RED, &texture, &positions(0, 3), &positions(0, 3)).unwrap();
    frame.command_textured();
    frame.tri_list_uv(&clip, &RED, &texture, &positions(0, 3), &positions(0, 3)).unwrap();
    frame.command_textured();
    let buffer = frame.draw();
    assert_eq!(counts(&buffer), vec![3, 3, 3, 3]);
    let colored_setup = buffer.passes[0].draw().unwrap().setup;
    assert_eq!(colored_setup.scissor, Rect { x: 0, y: 0, width: 320, height: 240 });
    assert_eq!(colored_setup.stencil_reference, Some(200));
    assert_eq!(colored_setup.pipeline, *engine_pipeline(clip, VertexKind::Colored));
    assert_eq!(colored_setup.texture, None);
    let cut_setup = buffer.passes[2].draw().unwrap().setup;
    assert_eq!(cut_setup.scissor, Rect { x: 1, y: 2, width: 3, height: 4 });
    assert_eq!(cut_setup.stencil_reference, None);
    assert_eq!(cut_setup.texture, Some(texture));
    assert_eq!(cut_setup.pipeline, *engine_pipeline(cut, VertexKind::Textured));
    let full_setup = buffer.passes[3].draw().unwrap().setup;
    assert_eq!(full_setup.scissor, Rect { x: 0, y: 0, width: 320, height: 240 });
    assert_eq!(full_setup.stencil_reference, Some(200));
}

fn engine_pipeline(state: DrawState, kind: VertexKind) -> Box<wgpu_graphics::pipeline::PipelineDescriptor> {
    let engine = Wgpu2d::new(ColorFormat::Bgra8UnormSrgb, 1);
    Box::new(*engine.pipeline(state.key(kind)))
}

#[test]
fn whole_triangles_stay_whole() {
    let mut engine = Wgpu2d::new(ColorFormat::Bgra8UnormSrgb, 10);
    let s = state(BlendMode::Alpha);
    let ops: Vec<DrawOp> = [3u32, 6, 0, 9, 3, 12, 3]
        .iter()
        .map(|&n| DrawOp::TriList { draw_state: s, color: RED, positions: positions(0, n) })
        .collect();
    let buffer = engine.draw(64, 64, &ops).unwrap();
    assert_eq!(counts(&buffer), vec![9, 9, 3, 12, 3]);
    for n in counts(&buffer) {
        assert_eq!(n % 3, 0);
    }
}

#[test]
fn other_formats_are_carried() {
    let engine = Wgpu2d::new(ColorFormat::Other(77), 100);
    let key = PipelineKey {
        stencil: StencilClass::Clip,
        blend: BlendMode::Add,
        kind: VertexKind::Colored,
    };
    assert_eq!(engine.pipeline(key).format, ColorFormat::Other(77));
}

#[test]
fn batched_frame_paints_what_single_draws_paint() {
    let s = state(BlendMode::Alpha);
    let t = state(BlendMode::Add);
    let ops = vec![
        DrawOp::TriList { draw_state: s, color: RED, positions: positions(0, 3) },
        DrawOp::TriList { draw_state: s, color: BLUE, positions: positions(3, 3) },
        DrawOp::TriList { draw_state: t, color: BLUE, positions: positions(6, 3) },
        DrawOp::ClearColor(RED),
        DrawOp::TriList { draw_state: t, color: BLUE, positions: positions(9, 3) },
    ];
    let flat = |buffer: &CommandBuffer| -> Vec<(Option<BlendMode>, Option<[u32; 2]>)> {
        let mut out = Vec::new();
        for pass in buffer.passes.iter() {
            match pass.draw() {
                Some(call) => match &call.vertices {
                    Vertices::Colored(v) => {
                        for x in v.iter() {
                            out.push((Some(call.setup.key.blend), Some(x.position)));
                        }
                    }
                    Vertices::Textured(_) => panic!("textured draw"),
                },
                None => out.push((None, None)),
            }
        }
        out
    };
    let mut engine = Wgpu2d::new(ColorFormat::Bgra8UnormSrgb, 100);
    let batched = engine.draw(64, 64, &ops).unwrap();
    assert_eq!(counts(&batched), vec![6, 3, 0, 3]);
    let mut single = Vec::new();
    for op in ops.iter() {
        let mut lone = Wgpu2d::new(ColorFormat::Bgra8UnormSrgb, 100);
        let buffer = lone.draw(64, 64, std::slice::from_ref(op)).unwrap();
        single.extend(flat(&buffer));
    }
    assert_eq!(flat(&batched), single);
}

#[test]
fn every_key_has_its_pipeline() {
    let engine = Wgpu2d::new(ColorFormat::Rgba16Float, 100);
    let classes = [
        StencilClass::Disabled,
        StencilClass::Clip,
        StencilClass::Inside,
        StencilClass::Outside,
        StencilClass::Increment,
    ];
    let blends = [
        BlendMode::Disabled,
        BlendMode::Alpha,
        BlendMode::Add,
        BlendMode::Lighter,
        BlendMode::Multiply,
        BlendMode::Invert,
    ];
    let mut seen = Vec::new();
    for kind in [VertexKind::Colored, VertexKind::Textured] {
        for stencil in classes {
            for blend in blends {
                let key = PipelineKey { stencil, blend, kind };
                let pipeline = *engine.pipeline(key);
                assert_eq!(pipeline, *engine.pipeline(key));
                assert_eq!(pipeline.kind, kind);
                assert_eq!(pipeline.format, ColorFormat::Rgba16Float);
                assert_eq!(pipeline.blend, BlendState::of(blend));
                assert_eq!(pipeline.stencil, StencilState::of(stencil));
                assert!(!seen.contains(&pipeline));
                seen.push(pipeline);
            }
        }
    }
    assert_eq!(seen.len(), 60);
}

#[test]
fn default_capacity_holds_a_hundred_chunks() {
    assert_eq!(CHUNKS, 100);
    assert_eq!(soft_buffer_limit(), 102300);
    assert_eq!(soft_buffer_limit(), CHUNKS * graphics::BACK_END_MAX_VERTEX_COUNT);
}

#[test]
fn default_capacity_takes_largest_chunks() {
    let mut engine = Wgpu2d::new(ColorFormat::Bgra8UnormSrgb, soft_buffer_limit());
    let mut frame = WgpuGraphics::new(&mut engine, 64, 64);
    let chunk = positions(0, graphics::BACK_END_MAX_VERTEX_COUNT as u32);
    for _ in 0..(CHUNKS + 1) {
        frame.tri_list(&state(BlendMode::Alpha), &RED, &chunk);
    }
    let buffer = frame.draw();
    assert_eq!(counts(&buffer), vec![102300, 1023]);
}

#[test]
fn empty_submissions_record_no_draw() {
    let mut engine = Wgpu2d::new(ColorFormat::Bgra8UnormSrgb, 100);
    let mut frame = WgpuGraphics::new(&mut engine, 64, 64);
    let texture = Texture::new(1, 2, 2);
    frame.tri_list(&state(BlendMode::Alpha), &RED, &[]);
    frame.tri_list_uv(&state(BlendMode::Add), &RED, &texture, &[], &[]).unwrap();
    frame.tri_list_c(&state(BlendMode::Alpha), &positions(0, 3), &[]);
    frame.clear_stencil(0);
    let buffer = frame.draw();
    assert_eq!(buffer.passes.len(), 1);
    assert_eq!(buffer.passes[0].stencil_load(), StencilLoad::Clear(0));
}

#[test]
fn empty_submission_with_another_state_flushes() {
    let mut engine = Wgpu2d::new(ColorFormat::Bgra8UnormSrgb, 100);
    let mut frame = WgpuGraphics::new(&mut engine, 64, 64);
    frame.tri_list(&state(BlendMode::Alpha), &RED, &positions(0, 3));
    frame.tri_list(&state(BlendMode::Add), &RED, &[]);
    frame.tri_list(&state(BlendMode::Alpha), &RED, &positions(3, 3));
    let buffer = frame.draw();
    assert_eq!(counts(&buffer), vec![3, 3]);
    assert_eq!(buffer.passes[0].draw().unwrap().setup.key.blend, BlendMode::Alpha);
    assert_eq!(buffer.passes[1].draw().unwrap().setup.key.blend, BlendMode::Alpha);
}
