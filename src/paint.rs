use vstd::prelude::*;

verus! {

/// One piece of GPU work in a frame.
#[derive(Clone, Copy, Debug, PartialEq, Eq, Structural)]
pub enum PaintStep {
    /// Upload the texture at this index of the frame's newly set textures.
    UploadTexture(usize),
    /// Fill the vertex and index buffers with the frame's primitives.
    UpdateBuffers,
    /// Record the render pass that loads the current image and draws all
    /// primitives on top of it.
    RenderPass,
    /// Free the texture at this index of the frame's textures to delete.
    FreeTexture(usize),
}

/// The order of a frame's GPU work: every upload, then the buffers, then the
/// one render pass, and only after it every free.
pub open spec fn paint_order(n_set: nat, n_free: nat) -> Seq<PaintStep> {
    Seq::new(n_set, |i: int| PaintStep::UploadTexture(i as usize)) + seq![
        PaintStep::UpdateBuffers,
        PaintStep::RenderPass,
    ] + Seq::new(n_free, |i: int| PaintStep::FreeTexture(i as usize))
}

/// The GPU work of a frame that sets `n_set` textures and frees `n_free`.
pub fn paint_steps(n_set: usize, n_free: usize) -> (r: Vec<PaintStep>)
    requires
        n_set + n_free + 2 <= usize::MAX,
    ensures
        r@ == paint_order(n_set as nat, n_free as nat),
{
    let mut steps: Vec<PaintStep> = Vec::new();
    let mut i: usize = 0;
    while i < n_set
        invariant
            i <= n_set,
            steps@ =~= Seq::new(i as nat, |k: int| PaintStep::UploadTexture(k as usize)),
        decreases n_set - i,
    {
        steps.push(PaintStep::UploadTexture(i));
        i = i + 1;
    }
    steps.push(PaintStep::UpdateBuffers);
    steps.push(PaintStep::RenderPass);
    let ghost head = steps@;
    assert(head =~= Seq::new(n_set as nat, |i: int| PaintStep::UploadTexture(i as usize)) + seq![
        PaintStep::UpdateBuffers,
        PaintStep::RenderPass,
    ]);
    let mut j: usize = 0;
    while j < n_free
        invariant
            j <= n_free,
            steps@ =~= head + Seq::new(j as nat, |k: int| PaintStep::FreeTexture(k as usize)),
        decreases n_free - j,
    {
        steps.push(PaintStep::FreeTexture(j));
        j = j + 1;
    }
    steps
}

/// In a frame's GPU work, every upload comes before the render pass and
/// every free after it.
pub proof fn lemma_frees_follow_render_pass(n_set: nat, n_free: nat, a: int, b: int)
    requires
        0 <= a < paint_order(n_set, n_free).len(),
        0 <= b < paint_order(n_set, n_free).len(),
        paint_order(n_set, n_free)[b] == PaintStep::RenderPass,
    ensures
        paint_order(n_set, n_free)[a] is UploadTexture ==> a < b,
        paint_order(n_set, n_free)[a] is FreeTexture ==> b < a,
        paint_order(n_set, n_free)[a] == PaintStep::RenderPass ==> a == b,
{
    let s = paint_order(n_set, n_free);
    assert(s.len() == n_set + 2 + n_free);
    assert(b == n_set + 1);
}

} // verus!
