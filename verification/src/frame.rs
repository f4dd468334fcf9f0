//! The frame composer: turns the current drawable collection into the exact
//! sequence of rendering steps for one frame, and classifies the per-draw
//! outcomes the front end reports back.

use vstd::prelude::*;
use crate::drawable::Drawable;

verus! {

/// Bit pattern of the red channel of the fixed background color, 0.6.
pub const CLEAR_R_BITS: u32 = 0x3F19999A;

/// Bit pattern of the green channel of the fixed background color, 0.2.
pub const CLEAR_G_BITS: u32 = 0x3E4CCCCD;

/// Bit pattern of the blue channel of the fixed background color, 0.7.
pub const CLEAR_B_BITS: u32 = 0x3F333333;

/// Bit pattern of the alpha channel of the fixed background color, 1.0.
pub const CLEAR_A_BITS: u32 = 0x3F800000;

/// A clear color, each channel carried as the bit pattern of a 32-bit
/// IEEE-754 float.
#[derive(Copy, Clone, PartialEq, Eq, Structural, Debug)]
pub struct ClearColor {
    pub r_bits: u32,
    pub g_bits: u32,
    pub b_bits: u32,
    pub a_bits: u32,
}

/// The primitive topology of a draw call. The composer only ever draws
/// triangle lists.
#[derive(Copy, Clone, PartialEq, Eq, Structural, Debug)]
pub enum Topology {
    TriangleList,
}

/// One draw call: `drawable` is the position of the target drawable in the
/// collection; a non-indexed call consumes the drawable's whole vertex range,
/// an indexed call its whole index range.
#[derive(Copy, Clone, PartialEq, Eq, Structural, Debug)]
pub enum DrawCall {
    NonIndexed { drawable: usize, vertex_count: usize, topology: Topology },
    Indexed { drawable: usize, index_count: usize, topology: Topology },
}

/// One step of composing a frame, in the order the front end must execute
/// them: clear, one draw per drawable, optionally the UI overlay pass, then
/// present.
#[derive(Copy, Clone, PartialEq, Eq, Structural, Debug)]
pub enum FrameStep {
    Clear { color: ClearColor },
    Draw { call: DrawCall },
    OverlayPass,
    Present,
}

/// How many draw calls of a frame failed: none, some but not all, or all.
/// The application-level policy is the same in every case: log and continue.
#[derive(Copy, Clone, PartialEq, Eq, Structural, Debug)]
pub enum FrameResult {
    NoneFailed,
    SomeFailed,
    AllFailed,
}

/// The fixed background color (R=0.6, G=0.2, B=0.7, A=1.0).
pub open spec fn spec_background() -> ClearColor {
    ClearColor {
        r_bits: CLEAR_R_BITS,
        g_bits: CLEAR_G_BITS,
        b_bits: CLEAR_B_BITS,
        a_bits: CLEAR_A_BITS,
    }
}

/// The draw call the composer issues for the drawable at position `i`:
/// indexed over the full index range when indices are present, otherwise
/// non-indexed over the full vertex range, triangle-list topology either way.
pub open spec fn spec_draw_call(i: int, d: Drawable) -> DrawCall {
    match d.indices {
        Some(ix) => DrawCall::Indexed {
            drawable: i as usize,
            index_count: ix@.len() as usize,
            topology: Topology::TriangleList,
        },
        None => DrawCall::NonIndexed {
            drawable: i as usize,
            vertex_count: d.vertices@.len() as usize,
            topology: Topology::TriangleList,
        },
    }
}

/// The position in the collection a draw call targets.
pub open spec fn spec_call_target(c: DrawCall) -> usize {
    match c {
        DrawCall::NonIndexed { drawable, .. } => drawable,
        DrawCall::Indexed { drawable, .. } => drawable,
    }
}

/// The full step sequence of one frame over the drawable collection `ds`:
/// step 0 clears to the background color, steps 1..=len draw the drawables in
/// collection order, then the overlay pass when an overlay is configured, and
/// the last step presents.
pub open spec fn spec_frame_steps(ds: Seq<Drawable>, overlay: bool) -> Seq<FrameStep> {
    let n = ds.len() as int;
    Seq::new(
        (n + 2 + if overlay {
            1int
        } else {
            0int
        }) as nat,
        |i: int|
            if i == 0 {
                FrameStep::Clear { color: spec_background() }
            } else if i <= n {
                FrameStep::Draw { call: spec_draw_call(i - 1, ds[i - 1]) }
            } else if overlay && i == n + 1 {
                FrameStep::OverlayPass
            } else {
                FrameStep::Present
            },
    )
}

/// Compose one frame: the steps the front end must execute, in order. The
/// plan depends only on the drawable collection and the overlay flag, never
/// on the outcome of any draw call.
pub fn frame_steps(drawables: &Vec<Drawable>, overlay: bool) -> (steps: Vec<FrameStep>)
    ensures
        steps@ == spec_frame_steps(drawables@, overlay),
{
    let n: usize = drawables.len();
    let mut steps: Vec<FrameStep> = Vec::new();
    steps.push(
        FrameStep::Clear {
            color: ClearColor {
                r_bits: CLEAR_R_BITS,
                g_bits: CLEAR_G_BITS,
                b_bits: CLEAR_B_BITS,
                a_bits: CLEAR_A_BITS,
            },
        },
    );
    let mut i: usize = 0;
    while i < n
        invariant
            n == drawables@.len(),
            i <= n,
            steps@.len() == i + 1,
            steps@[0] == (FrameStep::Clear { color: spec_background() }),
            forall|j: int|
                0 <= j < i ==> steps@[j + 1] == (FrameStep::Draw {
                    call: spec_draw_call(j, drawables@[j]),
                }),
        decreases n - i,
    {
        let call: DrawCall = match &drawables[i].indices {
            Some(ix) => DrawCall::Indexed {
                drawable: i,
                index_count: ix.len(),
                topology: Topology::TriangleList,
            },
            None => DrawCall::NonIndexed {
                drawable: i,
                vertex_count: drawables[i].vertices.len(),
                topology: Topology::TriangleList,
            },
        };
        assert(call == spec_draw_call(i as int, drawables@[i as int]));
        steps.push(FrameStep::Draw { call });
        i = i + 1;
    }
    if overlay {
        steps.push(FrameStep::OverlayPass);
    }
    steps.push(FrameStep::Present);
    assert(steps@ =~= spec_frame_steps(drawables@, overlay));
    steps
}

/// How many of the reported draw outcomes are failures (`false` means the
/// draw call failed).
pub open spec fn spec_failure_count(outcomes: Seq<bool>) -> nat
    decreases outcomes.len(),
{
    if outcomes.len() == 0 {
        0
    } else {
        spec_failure_count(outcomes.drop_last()) + if outcomes.last() {
            0nat
        } else {
            1nat
        }
    }
}

/// There are never more failures than outcomes.
proof fn lemma_failure_count_le_len(outcomes: Seq<bool>)
    ensures
        spec_failure_count(outcomes) <= outcomes.len(),
    decreases outcomes.len(),
{
    if outcomes.len() > 0 {
        lemma_failure_count_le_len(outcomes.drop_last());
    }
}

/// The frame result the outcomes of one frame amount to.
pub open spec fn spec_classify(outcomes: Seq<bool>) -> FrameResult {
    if spec_failure_count(outcomes) == 0 {
        FrameResult::NoneFailed
    } else if spec_failure_count(outcomes) == outcomes.len() {
        FrameResult::AllFailed
    } else {
        FrameResult::SomeFailed
    }
}

/// Classify the draw outcomes of one frame (`true` means the draw call
/// succeeded): did none, some, or all of the draw calls fail? A frame with no
/// draw calls has no failures.
pub fn classify_draw_results(outcomes: &Vec<bool>) -> (r: FrameResult)
    ensures
        r == spec_classify(outcomes@),
        r == FrameResult::NoneFailed <==> spec_failure_count(outcomes@) == 0,
        r == FrameResult::AllFailed <==> (spec_failure_count(outcomes@) == outcomes@.len()
            && outcomes@.len() > 0),
        r == FrameResult::SomeFailed <==> 0 < spec_failure_count(outcomes@) < outcomes@.len(),
{
    let n: usize = outcomes.len();
    let mut failures: usize = 0;
    let mut i: usize = 0;
    while i < n
        invariant
            n == outcomes@.len(),
            i <= n,
            failures == spec_failure_count(outcomes@.take(i as int)),
            failures <= i,
        decreases n - i,
    {
        assert(outcomes@.take(i as int + 1).drop_last() =~= outcomes@.take(i as int));
        assert(outcomes@.take(i as int + 1).last() == outcomes@[i as int]);
        if !outcomes[i] {
            failures = failures + 1;
        }
        i = i + 1;
    }
    assert(outcomes@.take(n as int) =~= outcomes@);
    proof {
        lemma_failure_count_le_len(outcomes@);
    }
    if failures == 0 {
        FrameResult::NoneFailed
    } else if failures == n {
        FrameResult::AllFailed
    } else {
        FrameResult::SomeFailed
    }
}

/// Law: a drawable without indices gets exactly one draw call per frame, a
/// non-indexed one over its whole vertex range with triangle-list topology —
/// it stands at step `k + 1`, and no other step draws that drawable.
pub proof fn lemma_non_indexed_draw_once(ds: Seq<Drawable>, overlay: bool, k: int)
    requires
        ds.len() <= usize::MAX,
        0 <= k < ds.len(),
        ds[k].indices is None,
    ensures
        spec_frame_steps(ds, overlay)[k + 1] == (FrameStep::Draw {
            call: DrawCall::NonIndexed {
                drawable: k as usize,
                vertex_count: ds[k].vertices@.len() as usize,
                topology: Topology::TriangleList,
            },
        }),
        forall|i: int|
            0 <= i < spec_frame_steps(ds, overlay).len() && i != k + 1 ==> match #[trigger] spec_frame_steps(
                ds,
                overlay,
            )[i] {
                FrameStep::Draw { call } => spec_call_target(call) != k as usize,
                _ => true,
            },
{
    lemma_draw_once(ds, overlay, k);
}

/// Law: a drawable with indices gets exactly one draw call per frame, an
/// indexed one over its whole index range with triangle-list topology — it
/// stands at step `k + 1`, and no other step draws that drawable.
pub proof fn lemma_indexed_draw_once(ds: Seq<Drawable>, overlay: bool, k: int)
    requires
        ds.len() <= usize::MAX,
        0 <= k < ds.len(),
        ds[k].indices is Some,
    ensures
        spec_frame_steps(ds, overlay)[k + 1] == (FrameStep::Draw {
            call: DrawCall::Indexed {
                drawable: k as usize,
                index_count: ds[k].indices->Some_0@.len() as usize,
                topology: Topology::TriangleList,
            },
        }),
        forall|i: int|
            0 <= i < spec_frame_steps(ds, overlay).len() && i != k + 1 ==> match #[trigger] spec_frame_steps(
                ds,
                overlay,
            )[i] {
                FrameStep::Draw { call } => spec_call_target(call) != k as usize,
                _ => true,
            },
{
    lemma_draw_once(ds, overlay, k);
}

/// Each drawable is the target of the one draw step at its own position and
/// of no other step of the frame.
proof fn lemma_draw_once(ds: Seq<Drawable>, overlay: bool, k: int)
    requires
        ds.len() <= usize::MAX,
        0 <= k < ds.len(),
    ensures
        spec_frame_steps(ds, overlay)[k + 1] == (FrameStep::Draw { call: spec_draw_call(k, ds[k]) }),
        forall|i: int|
            0 <= i < spec_frame_steps(ds, overlay).len() && i != k + 1 ==> match #[trigger] spec_frame_steps(
                ds,
                overlay,
            )[i] {
                FrameStep::Draw { call } => spec_call_target(call) != k as usize,
                _ => true,
            },
{
    let steps = spec_frame_steps(ds, overlay);
    assert forall|i: int| 0 <= i < steps.len() && i != k + 1 implies match #[trigger] steps[i] {
        FrameStep::Draw { call } => spec_call_target(call) != k as usize,
        _ => true,
    } by {
        if 1 <= i <= ds.len() {
            assert(steps[i] == (FrameStep::Draw { call: spec_draw_call(i - 1, ds[i - 1]) }));
            assert(spec_call_target(spec_draw_call(i - 1, ds[i - 1])) == (i - 1) as usize);
            assert((i - 1) as usize != k as usize);
        }
    }
}

/// Law: frame composition is deterministic, so rendering twice with an
/// unchanged drawable collection produces two frames with identical step
/// sequences.
pub proof fn lemma_render_idempotent(d1: Seq<Drawable>, d2: Seq<Drawable>, overlay: bool)
    requires
        d1 == d2,
    ensures
        spec_frame_steps(d1, overlay) == spec_frame_steps(d2, overlay),
{
}

/// A frame whose draw calls all succeeded has no failures.
proof fn lemma_no_failures(outcomes: Seq<bool>)
    requires
        forall|k: int| 0 <= k < outcomes.len() ==> outcomes[k],
    ensures
        spec_failure_count(outcomes) == 0,
    decreases outcomes.len(),
{
    if outcomes.len() > 0 {
        lemma_no_failures(outcomes.drop_last());
    }
}

/// A frame in which exactly one draw call failed has exactly one failure.
proof fn lemma_single_failure_count(outcomes: Seq<bool>, j: int)
    requires
        0 <= j < outcomes.len(),
        !outcomes[j],
        forall|k: int| 0 <= k < outcomes.len() && k != j ==> outcomes[k],
    ensures
        spec_failure_count(outcomes) == 1,
    decreases outcomes.len(),
{
    if j == outcomes.len() - 1 {
        lemma_no_failures(outcomes.drop_last());
    } else {
        lemma_single_failure_count(outcomes.drop_last(), j);
    }
}

/// Law: one failing draw call does not abort the frame. When exactly the
/// drawable at `j` fails, every other drawable still has its draw call in the
/// frame and succeeded, the frame is still presented, and the outcomes
/// classify as a partial failure (or, with a single drawable, as all failed).
pub proof fn lemma_draw_failure_isolated(
    ds: Seq<Drawable>,
    overlay: bool,
    outcomes: Seq<bool>,
    j: int,
)
    requires
        ds.len() <= usize::MAX,
        outcomes.len() == ds.len(),
        0 <= j < ds.len(),
        !outcomes[j],
        forall|k: int| 0 <= k < ds.len() && k != j ==> outcomes[k],
    ensures
        spec_failure_count(outcomes) == 1,
        spec_classify(outcomes) == if ds.len() == 1 {
            FrameResult::AllFailed
        } else {
            FrameResult::SomeFailed
        },
        forall|k: int|
            0 <= k < ds.len() && k != j ==> #[trigger] spec_frame_steps(ds, overlay)[k + 1]
                == (FrameStep::Draw { call: spec_draw_call(k, ds[k]) }) && outcomes[k],
        spec_frame_steps(ds, overlay).last() == FrameStep::Present,
{
    lemma_single_failure_count(outcomes, j);
}

} // verus!
