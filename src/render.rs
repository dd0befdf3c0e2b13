use vstd::prelude::*;

verus! {

/// Triangles need at least this many indices; smaller batches are skipped.
pub const MIN_TRIANGLE_INDICES: usize = 3;

/// One command of a GUI draw list.
#[derive(Clone, Copy, Debug, PartialEq, Eq, Structural)]
pub enum DrawCmd {
    /// `count` indices from `idx_offset`, each naming a vertex relative to `vtx_offset`,
    /// drawn under one clip rectangle with one texture.
    Elements { count: usize, idx_offset: usize, vtx_offset: usize, texture_id: usize },
    ResetRenderState,
    RawCallback,
}

/// The shape of one GUI draw list: its index buffer, how many vertices it holds, and its
/// commands.
pub struct DrawList {
    pub idx_buffer: Vec<u16>,
    pub vtx_count: usize,
    pub commands: Vec<DrawCmd>,
}

/// One call to make on the host's immediate-mode rasteriser.
#[derive(Debug, PartialEq, Eq)]
pub enum RenderOp {
    FlushBatch,
    DisableBackfaceCulling,
    /// Clip to the rectangle of the given command of the given list.
    EnableScissor { list: usize, command: usize },
    /// A triangle list bound to a texture; each entry indexes the vertex buffer of the list.
    Triangles { list: usize, texture_id: usize, vertices: Vec<usize> },
    UnbindTexture,
    /// Invoke the callback embedded in the given command of the given list.
    Callback { list: usize, command: usize },
    DisableScissor,
    EnableBackfaceCulling,
}

/// A render op as a mathematical value.
pub enum RenderStep {
    FlushBatch,
    DisableBackfaceCulling,
    EnableScissor { list: usize, command: usize },
    Triangles { list: usize, texture_id: usize, vertices: Seq<usize> },
    UnbindTexture,
    Callback { list: usize, command: usize },
    DisableScissor,
    EnableBackfaceCulling,
}

impl RenderOp {
    pub open spec fn step(self) -> RenderStep {
        match self {
            RenderOp::FlushBatch => RenderStep::FlushBatch,
            RenderOp::DisableBackfaceCulling => RenderStep::DisableBackfaceCulling,
            RenderOp::EnableScissor { list, command } => RenderStep::EnableScissor { list, command },
            RenderOp::Triangles { list, texture_id, vertices } => RenderStep::Triangles {
                list,
                texture_id,
                vertices: vertices@,
            },
            RenderOp::UnbindTexture => RenderStep::UnbindTexture,
            RenderOp::Callback { list, command } => RenderStep::Callback { list, command },
            RenderOp::DisableScissor => RenderStep::DisableScissor,
            RenderOp::EnableBackfaceCulling => RenderStep::EnableBackfaceCulling,
        }
    }
}

pub open spec fn steps_of(ops: Seq<RenderOp>) -> Seq<RenderStep> {
    ops.map_values(|o: RenderOp| o.step())
}

/// Every index of an elements batch lies in the index buffer and names a vertex that exists.
pub open spec fn batch_in_range(list: DrawList, count: usize, idx_offset: usize, vtx_offset: usize) -> bool {
    &&& idx_offset + count <= list.idx_buffer@.len()
    &&& forall|j: int|
        idx_offset <= j < idx_offset + count ==> vtx_offset + #[trigger] list.idx_buffer@[j]
            < list.vtx_count
}

/// The vertices of an elements batch, in index order.
pub open spec fn batch_vertices(list: DrawList, count: usize, idx_offset: usize, vtx_offset: usize) -> Seq<usize> {
    Seq::new(count as nat, |i: int| (vtx_offset + list.idx_buffer@[idx_offset + i]) as usize)
}

pub open spec fn command_valid(list: DrawList, c: int) -> bool {
    match list.commands@[c] {
        DrawCmd::Elements { count, idx_offset, vtx_offset, texture_id } => count < MIN_TRIANGLE_INDICES
            || batch_in_range(list, count, idx_offset, vtx_offset),
        _ => true,
    }
}

pub open spec fn list_valid(list: DrawList) -> bool {
    forall|c: int| 0 <= c < list.commands@.len() ==> command_valid(list, c)
}

/// Every list of the draw data only references indices and vertices it holds.
pub open spec fn draw_data_valid(lists: Seq<DrawList>) -> bool {
    forall|l: int| 0 <= l < lists.len() ==> list_valid(#[trigger] lists[l])
}

pub open spec fn command_steps(list: DrawList, l: int, c: int) -> Seq<RenderStep> {
    match list.commands@[c] {
        DrawCmd::Elements { count, idx_offset, vtx_offset, texture_id } => seq![
            RenderStep::EnableScissor { list: l as usize, command: c as usize },
        ] + (if count >= MIN_TRIANGLE_INDICES {
            seq![
                RenderStep::Triangles {
                    list: l as usize,
                    texture_id,
                    vertices: batch_vertices(list, count, idx_offset, vtx_offset),
                },
            ]
        } else {
            seq![]
        }) + seq![RenderStep::FlushBatch],
        DrawCmd::ResetRenderState => seq![RenderStep::UnbindTexture],
        DrawCmd::RawCallback => seq![RenderStep::Callback { list: l as usize, command: c as usize }],
    }
}

pub open spec fn list_steps(list: DrawList, l: int, n: nat) -> Seq<RenderStep>
    decreases n,
{
    if n == 0 {
        seq![]
    } else {
        list_steps(list, l, (n - 1) as nat) + command_steps(list, l, n - 1)
    }
}

pub open spec fn lists_steps(lists: Seq<DrawList>, n: nat) -> Seq<RenderStep>
    decreases n,
{
    if n == 0 {
        seq![]
    } else {
        lists_steps(lists, (n - 1) as nat) + list_steps(
            lists[n - 1],
            n - 1,
            lists[n - 1].commands@.len(),
        )
    }
}

/// Nothing is drawn when the framebuffer is empty or there are no draw lists.
pub open spec fn render_skipped(fb_width: i32, fb_height: i32, lists: Seq<DrawList>) -> bool {
    fb_width <= 0 || fb_height <= 0 || lists.len() == 0
}

/// The host calls that replay the draw data.
pub open spec fn render_steps(fb_width: i32, fb_height: i32, lists: Seq<DrawList>) -> Seq<RenderStep> {
    if render_skipped(fb_width, fb_height, lists) {
        seq![]
    } else {
        seq![RenderStep::FlushBatch, RenderStep::DisableBackfaceCulling] + lists_steps(
            lists,
            lists.len(),
        ) + seq![
            RenderStep::UnbindTexture,
            RenderStep::DisableScissor,
            RenderStep::EnableBackfaceCulling,
        ]
    }
}

/// A batch references an index or a vertex that its draw list does not hold.
#[derive(Clone, Copy, Debug, PartialEq, Eq, Structural)]
pub enum RenderError {
    IndexOutOfRange,
}

/// The vertices of an elements batch in index order, or `None` when the batch reaches
/// outside its draw list.
pub fn render_triangles(list: &DrawList, count: usize, idx_offset: usize, vtx_offset: usize) -> (r:
    Option<Vec<usize>>)
    ensures
        r is Some <==> batch_in_range(*list, count, idx_offset, vtx_offset),
        r matches Some(v) ==> v@ == batch_vertices(*list, count, idx_offset, vtx_offset),
{
    if idx_offset > list.idx_buffer.len() || count > list.idx_buffer.len() - idx_offset {
        return None;
    }
    let len = list.idx_buffer.len();
    let mut vertices: Vec<usize> = Vec::new();
    let mut i: usize = 0;
    while i < count
        invariant
            i <= count,
            len == list.idx_buffer@.len(),
            idx_offset + count <= list.idx_buffer@.len(),
            vertices@ == batch_vertices(*list, i, idx_offset, vtx_offset),
            forall|j: int|
                idx_offset <= j < idx_offset + i ==> vtx_offset + #[trigger] list.idx_buffer@[j]
                    < list.vtx_count,
        decreases count - i,
    {
        let idx = list.idx_buffer[idx_offset + i] as usize;
        if vtx_offset >= list.vtx_count || idx >= list.vtx_count - vtx_offset {
            assert(list.idx_buffer@[idx_offset + i] == idx);
            return None;
        }
        vertices.push(vtx_offset + idx);
        assert(vertices@ =~= batch_vertices(*list, (i + 1) as usize, idx_offset, vtx_offset));
        i = i + 1;
    }
    Some(vertices)
}

proof fn lemma_steps_push(ops: Seq<RenderOp>, o: RenderOp)
    ensures
        steps_of(ops.push(o)) == steps_of(ops).push(o.step()),
{
    assert(steps_of(ops.push(o)) =~= steps_of(ops).push(o.step()));
}

fn push_op(ops: &mut Vec<RenderOp>, o: RenderOp)
    ensures
        steps_of(final(ops)@) == steps_of(old(ops)@).push(o.step()),
{
    proof {
        lemma_steps_push(ops@, o);
    }
    ops.push(o);
}

fn push_command_ops(ops: &mut Vec<RenderOp>, list: &DrawList, l: usize, c: usize) -> (ok: bool)
    requires
        c < list.commands@.len(),
    ensures
        ok == command_valid(*list, c as int),
        ok ==> steps_of(final(ops)@) == steps_of(old(ops)@) + command_steps(*list, l as int, c as int),
{
    let ghost head = steps_of(ops@);
    match list.commands[c] {
        DrawCmd::Elements { count, idx_offset, vtx_offset, texture_id } => {
            push_op(ops, RenderOp::EnableScissor { list: l, command: c });
            if count >= MIN_TRIANGLE_INDICES {
                match render_triangles(list, count, idx_offset, vtx_offset) {
                    Some(vertices) => {
                        push_op(ops, RenderOp::Triangles { list: l, texture_id, vertices });
                    },
                    None => {
                        return false;
                    },
                }
            }
            push_op(ops, RenderOp::FlushBatch);
        },
        DrawCmd::ResetRenderState => {
            push_op(ops, RenderOp::UnbindTexture);
        },
        DrawCmd::RawCallback => {
            push_op(ops, RenderOp::Callback { list: l, command: c });
        },
    }
    assert(steps_of(ops@) =~= head + command_steps(*list, l as int, c as int));
    true
}

fn push_list_ops(ops: &mut Vec<RenderOp>, list: &DrawList, l: usize) -> (ok: bool)
    ensures
        ok == list_valid(*list),
        ok ==> steps_of(final(ops)@) == steps_of(old(ops)@) + list_steps(
            *list,
            l as int,
            list.commands@.len(),
        ),
{
    let ghost head = steps_of(ops@);
    let mut c: usize = 0;
    while c < list.commands.len()
        invariant
            c <= list.commands@.len(),
            forall|k: int| 0 <= k < c ==> command_valid(*list, k),
            steps_of(ops@) == head + list_steps(*list, l as int, c as nat),
        decreases list.commands@.len() - c,
    {
        if !push_command_ops(ops, list, l, c) {
            return false;
        }
        assert(steps_of(ops@) =~= head + list_steps(*list, l as int, (c + 1) as nat));
        c = c + 1;
    }
    true
}

/// The host calls that replay the draw data, in order: nothing when the framebuffer is empty
/// or there are no draw lists, an error when a batch reaches outside its list.
pub fn render_plan(fb_width: i32, fb_height: i32, lists: &Vec<DrawList>) -> (r: Result<
    Vec<RenderOp>,
    RenderError,
>)
    ensures
        r is Ok <==> (render_skipped(fb_width, fb_height, lists@) || draw_data_valid(lists@)),
        r matches Ok(ops) ==> steps_of(ops@) == render_steps(fb_width, fb_height, lists@),
{
    let mut ops: Vec<RenderOp> = Vec::new();
    if fb_width <= 0 || fb_height <= 0 || lists.len() == 0 {
        assert(steps_of(ops@) =~= Seq::<RenderStep>::empty());
        return Ok(ops);
    }
    push_op(&mut ops, RenderOp::FlushBatch);
    push_op(&mut ops, RenderOp::DisableBackfaceCulling);
    let ghost head = steps_of(ops@);
    assert(head =~= seq![RenderStep::FlushBatch, RenderStep::DisableBackfaceCulling]);
    let mut l: usize = 0;
    while l < lists.len()
        invariant
            l <= lists@.len(),
            !render_skipped(fb_width, fb_height, lists@),
            forall|k: int| 0 <= k < l ==> list_valid(#[trigger] lists@[k]),
            steps_of(ops@) == head + lists_steps(lists@, l as nat),
        decreases lists@.len() - l,
    {
        if !push_list_ops(&mut ops, &lists[l], l) {
            assert(!list_valid(lists@[l as int]));
            return Err(RenderError::IndexOutOfRange);
        }
        assert(steps_of(ops@) =~= head + lists_steps(lists@, (l + 1) as nat));
        l = l + 1;
    }
    assert(draw_data_valid(lists@));
    push_op(&mut ops, RenderOp::UnbindTexture);
    push_op(&mut ops, RenderOp::DisableScissor);
    push_op(&mut ops, RenderOp::EnableBackfaceCulling);
    assert(steps_of(ops@) =~= render_steps(fb_width, fb_height, lists@));
    Ok(ops)
}

} // verus!
