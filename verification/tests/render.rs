use sillyengine::drawable::{build_drawable, BufferHandle, Drawable, ProgramHandle};
use sillyengine::frame::{
    classify_draw_results, frame_steps, ClearColor, DrawCall, FrameResult, FrameStep, Topology,
    CLEAR_A_BITS, CLEAR_B_BITS, CLEAR_G_BITS, CLEAR_R_BITS,
};
use sillyengine::geometry::{Geometry, Vertex};

fn v(x: f32, y: f32, z: f32) -> Vertex {
    Vertex { position: [x.to_bits(), y.to_bits(), z.to_bits()] }
}

fn background() -> ClearColor {
    ClearColor {
        r_bits: CLEAR_R_BITS,
        g_bits: CLEAR_G_BITS,
        b_bits: CLEAR_B_BITS,
        a_bits: CLEAR_A_BITS,
    }
}

fn triangle_drawable() -> Drawable {
    let desc = Geometry::new(
        String::from("vertex shader"),
        String::from("fragment shader"),
        vec![v(-0.5, -0.5, 1.0), v(0.0, 0.5, 1.0), v(0.5, -0.5, 1.0)],
        None,
    );
    build_drawable(
        desc,
        Ok(ProgramHandle { id: 1 }),
        Ok(BufferHandle { id: 2 }),
        None,
    )
    .unwrap()
}

fn quad_drawable() -> Drawable {
    let desc = Geometry::new(
        String::from("vertex shader"),
        String::from("fragment shader"),
        vec![
            v(-0.5, -0.5, 1.0),
            v(-0.5, 0.5, 1.0),
            v(0.5, 0.5, 1.0),
            v(0.5, -0.5, 1.0),
        ],
        Some(vec![0u32, 1, 2, 0, 2, 3]),
    );
    build_drawable(
        desc,
        Ok(ProgramHandle { id: 1 }),
        Ok(BufferHandle { id: 2 }),
        Some(Ok(BufferHandle { id: 3 })),
    )
    .unwrap()
}

#[test]
fn clear_color_is_fixed_background() {
    assert_eq!(f32::from_bits(CLEAR_R_BITS), 0.6);
    assert_eq!(f32::from_bits(CLEAR_G_BITS), 0.2);
    assert_eq!(f32::from_bits(CLEAR_B_BITS), 0.7);
    assert_eq!(f32::from_bits(CLEAR_A_BITS), 1.0);
}

#[test]
fn triangle_scenario_one_non_indexed_draw() {
    let drawables = vec![triangle_drawable()];
    let steps = frame_steps(&drawables, false);
    assert_eq!(
        steps,
        vec![
            FrameStep::Clear { color: background() },
            FrameStep::Draw {
                call: DrawCall::NonIndexed {
                    drawable: 0,
                    vertex_count: 3,
                    topology: Topology::TriangleList,
                },
            },
            FrameStep::Present,
        ]
    );
}

#[test]
fn quad_scenario_one_indexed_draw() {
    let drawables = vec![quad_drawable()];
    let steps = frame_steps(&drawables, false);
    assert_eq!(
        steps,
        vec![
            FrameStep::Clear { color: background() },
            FrameStep::Draw {
                call: DrawCall::Indexed {
                    drawable: 0,
                    index_count: 6,
                    topology: Topology::TriangleList,
                },
            },
            FrameStep::Present,
        ]
    );
}

#[test]
fn render_twice_identical_steps() {
    let drawables = vec![triangle_drawable(), quad_drawable()];
    let first = frame_steps(&drawables, true);
    let second = frame_steps(&drawables, true);
    assert_eq!(first, second);
}

#[test]
fn frame_draws_in_collection_order_with_overlay() {
    let drawables = vec![quad_drawable(), triangle_drawable()];
    let steps = frame_steps(&drawables, true);
    assert_eq!(
        steps,
        vec![
            FrameStep::Clear { color: background() },
            FrameStep::Draw {
                call: DrawCall::Indexed {
                    drawable: 0,
                    index_count: 6,
                    topology: Topology::TriangleList,
                },
            },
            FrameStep::Draw {
                call: DrawCall::NonIndexed {
                    drawable: 1,
                    vertex_count: 3,
                    topology: Topology::TriangleList,
                },
            },
            FrameStep::OverlayPass,
            FrameStep::Present,
        ]
    );
}

#[test]
fn empty_collection_still_clears_and_presents() {
    let drawables: Vec<Drawable> = Vec::new();
    let steps = frame_steps(&drawables, false);
    assert_eq!(
        steps,
        vec![FrameStep::Clear { color: background() }, FrameStep::Present]
    );
}

#[test]
fn classify_no_draw_calls() {
    assert_eq!(classify_draw_results(&Vec::new()), FrameResult::NoneFailed);
}

#[test]
fn classify_all_succeeded() {
    assert_eq!(
        classify_draw_results(&vec![true, true, true]),
        FrameResult::NoneFailed
    );
}

#[test]
fn classify_some_failed() {
    assert_eq!(
        classify_draw_results(&vec![true, false, true]),
        FrameResult::SomeFailed
    );
}

#[test]
fn classify_all_failed() {
    assert_eq!(
        classify_draw_results(&vec![false, false]),
        FrameResult::AllFailed
    );
}

#[test]
fn one_failure_does_not_abort_frame() {
    let drawables = vec![triangle_drawable(), quad_drawable(), triangle_drawable()];
    let steps = frame_steps(&drawables, false);
    // the plan holds one draw per drawable and is fixed before any draw call
    // runs, so a failure of the middle draw leaves the other two draws and
    // the present in place
    let outcomes = vec![true, false, true];
    assert_eq!(classify_draw_results(&outcomes), FrameResult::SomeFailed);
    let draws: Vec<&FrameStep> = steps
        .iter()
        .filter(|s| matches!(s, FrameStep::Draw { .. }))
        .collect();
    assert_eq!(draws.len(), 3);
    assert_eq!(steps.last(), Some(&FrameStep::Present));
}
