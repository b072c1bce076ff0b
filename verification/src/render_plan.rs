//! The commands that one render pass issues for a list of meshes.
//!
//! The pass first binds the pipeline. Then, for each mesh in order, it binds
//! the texture group of the mesh's material at slot 0 and the mesh's own
//! uniform groups at slots 1, 2, ..., binds the vertex buffer at slot 0 and
//! draws: by index when the mesh has indices, by vertex otherwise. Every draw
//! covers one instance and starts at vertex (or index) 0.

use vstd::prelude::*;

verus! {

/// What the render pass needs to know of one mesh.
#[derive(Clone, Copy, Debug, PartialEq, Eq)]
pub struct MeshDraw {
    /// Number of uniform bind groups the mesh carries.
    pub uniform_count: usize,
    /// Number of vertices in the vertex buffer.
    pub num_vertices: u32,
    /// Number of indices in the index buffer; 0 when the mesh is not indexed.
    pub num_indices: u32,
}

/// The bind group that a `SetBindGroup` command binds.
#[derive(Clone, Copy, Debug, PartialEq, Eq)]
pub enum BindGroupSource {
    /// The texture group of the mesh's material.
    MaterialTexture,
    /// The uniform group at this position in the mesh's uniform list.
    Uniform(usize),
}

/// One command of a render pass; `mesh` is the mesh's position in the list.
#[derive(Clone, Copy, Debug, PartialEq, Eq)]
pub enum RenderCommand {
    SetPipeline,
    SetBindGroup { slot: u32, mesh: usize, source: BindGroupSource },
    SetVertexBuffer { slot: u32, mesh: usize },
    SetIndexBuffer { mesh: usize },
    /// Draws vertices `0..vertex_count` of the mesh, instances `0..1`.
    Draw { mesh: usize, vertex_count: u32 },
    /// Draws indices `0..index_count` of the mesh, base vertex 0, instances `0..1`.
    DrawIndexed { mesh: usize, index_count: u32 },
}

/// Slots 1, 2, ... take the uniform groups of mesh `k` in order.
pub open spec fn uniform_binds(k: int, count: nat) -> Seq<RenderCommand> {
    Seq::new(
        count,
        |j: int|
            RenderCommand::SetBindGroup {
                slot: (j + 1) as u32,
                mesh: k as usize,
                source: BindGroupSource::Uniform(j as usize),
            },
    )
}

/// The draw of mesh `k`: indexed when it has indices, by vertex otherwise.
pub open spec fn draw_commands(m: MeshDraw, k: int) -> Seq<RenderCommand> {
    if m.num_indices == 0 {
        seq![RenderCommand::Draw { mesh: k as usize, vertex_count: m.num_vertices }]
    } else {
        seq![
            RenderCommand::SetIndexBuffer { mesh: k as usize },
            RenderCommand::DrawIndexed { mesh: k as usize, index_count: m.num_indices },
        ]
    }
}

/// Everything the pass issues for mesh `m` at position `k`.
pub open spec fn mesh_commands(m: MeshDraw, k: int) -> Seq<RenderCommand> {
    seq![
        RenderCommand::SetBindGroup {
            slot: 0,
            mesh: k as usize,
            source: BindGroupSource::MaterialTexture,
        },
    ] + uniform_binds(k, m.uniform_count as nat) + seq![
        RenderCommand::SetVertexBuffer { slot: 0, mesh: k as usize },
    ] + draw_commands(m, k)
}

/// The commands for all meshes, mesh by mesh in list order.
pub open spec fn meshes_commands(meshes: Seq<MeshDraw>) -> Seq<RenderCommand>
    decreases meshes.len(),
{
    if meshes.len() == 0 {
        Seq::empty()
    } else {
        meshes_commands(meshes.drop_last()) + mesh_commands(meshes.last(), meshes.len() - 1)
    }
}

/// The whole pass: the pipeline, then the meshes.
pub open spec fn render_pass_commands(meshes: Seq<MeshDraw>) -> Seq<RenderCommand> {
    seq![RenderCommand::SetPipeline] + meshes_commands(meshes)
}

/// Each mesh's uniform slots, counted from 1, fit in a `u32`.
pub open spec fn slots_fit(meshes: Seq<MeshDraw>) -> bool {
    forall|k: int| 0 <= k < meshes.len() ==> #[trigger] meshes[k].uniform_count < u32::MAX
}

/// Plans the render pass for `meshes`.
pub fn plan_render_pass(meshes: &Vec<MeshDraw>) -> (commands: Vec<RenderCommand>)
    requires
        slots_fit(meshes@),
    ensures
        commands@ == render_pass_commands(meshes@),
{
    let mut commands: Vec<RenderCommand> = Vec::new();
    commands.push(RenderCommand::SetPipeline);
    let n = meshes.len();
    let mut k: usize = 0;
    assert(meshes@.take(0) =~= Seq::<MeshDraw>::empty());
    while k < n
        invariant
            n == meshes@.len(),
            k <= n,
            slots_fit(meshes@),
            commands@ == seq![RenderCommand::SetPipeline] + meshes_commands(meshes@.take(k as int)),
        decreases n - k,
    {
        let m = meshes[k];
        let ghost before = commands@;
        commands.push(
            RenderCommand::SetBindGroup {
                slot: 0,
                mesh: k,
                source: BindGroupSource::MaterialTexture,
            },
        );
        let mut slot: u32 = 1;
        let mut j: usize = 0;
        while j < m.uniform_count
            invariant
                m == meshes@[k as int],
                m.uniform_count < u32::MAX,
                j <= m.uniform_count,
                slot == j + 1,
                commands@ == before + seq![
                    RenderCommand::SetBindGroup {
                        slot: 0,
                        mesh: k,
                        source: BindGroupSource::MaterialTexture,
                    },
                ] + uniform_binds(k as int, j as nat),
            decreases m.uniform_count - j,
        {
            commands.push(
                RenderCommand::SetBindGroup { slot, mesh: k, source: BindGroupSource::Uniform(j) },
            );
            slot = slot + 1;
            j = j + 1;
        }
        commands.push(RenderCommand::SetVertexBuffer { slot: 0, mesh: k });
        if m.num_indices == 0 {
            commands.push(RenderCommand::Draw { mesh: k, vertex_count: m.num_vertices });
        } else {
            commands.push(RenderCommand::SetIndexBuffer { mesh: k });
            commands.push(RenderCommand::DrawIndexed { mesh: k, index_count: m.num_indices });
        }
        assert(meshes@.take(k + 1).drop_last() =~= meshes@.take(k as int));
        assert(commands@ =~= seq![RenderCommand::SetPipeline] + meshes_commands(
            meshes@.take(k + 1),
        ));
        k = k + 1;
    }
    assert(meshes@.take(n as int) =~= meshes@);
    commands
}

/// The draw a command makes, as (mesh, indexed, element count); none for
/// a command that does not draw.
pub open spec fn draw_of(c: RenderCommand) -> Seq<(usize, bool, u32)> {
    match c {
        RenderCommand::Draw { mesh, vertex_count } => seq![(mesh, false, vertex_count)],
        RenderCommand::DrawIndexed { mesh, index_count } => seq![(mesh, true, index_count)],
        _ => Seq::empty(),
    }
}

/// The draws of a command list, in order.
pub open spec fn draws(commands: Seq<RenderCommand>) -> Seq<(usize, bool, u32)>
    decreases commands.len(),
{
    if commands.len() == 0 {
        Seq::empty()
    } else {
        draws(commands.drop_last()) + draw_of(commands.last())
    }
}

/// The draw that mesh `m` at position `k` calls for.
pub open spec fn expected_draw(m: MeshDraw, k: int) -> (usize, bool, u32) {
    if m.num_indices == 0 {
        (k as usize, false, m.num_vertices)
    } else {
        (k as usize, true, m.num_indices)
    }
}

proof fn lemma_draws_concat(a: Seq<RenderCommand>, b: Seq<RenderCommand>)
    ensures
        draws(a + b) == draws(a) + draws(b),
    decreases b.len(),
{
    if b.len() == 0 {
        assert(a + b =~= a);
        assert(draws(a) + draws(b) =~= draws(a));
    } else {
        lemma_draws_concat(a, b.drop_last());
        assert((a + b).drop_last() =~= a + b.drop_last());
        assert((a + b).last() == b.last());
        assert(draws(a + b) =~= draws(a) + draws(b));
    }
}

proof fn lemma_uniform_binds_do_not_draw(k: int, count: nat)
    ensures
        draws(uniform_binds(k, count)) == Seq::<(usize, bool, u32)>::empty(),
    decreases count,
{
    if count > 0 {
        lemma_uniform_binds_do_not_draw(k, (count - 1) as nat);
        assert(uniform_binds(k, count).drop_last() =~= uniform_binds(k, (count - 1) as nat));
        assert(draws(uniform_binds(k, count)) =~= Seq::<(usize, bool, u32)>::empty());
    }
}

proof fn lemma_single_draw_of_command(c: RenderCommand)
    ensures
        draws(seq![c]) == draw_of(c),
{
    assert(seq![c].drop_last() =~= Seq::<RenderCommand>::empty());
    assert(seq![c].last() == c);
    assert(draws(Seq::<RenderCommand>::empty()) =~= Seq::<(usize, bool, u32)>::empty());
    assert(draws(seq![c]) =~= draw_of(c));
}

proof fn lemma_mesh_draws_once(m: MeshDraw, k: int)
    ensures
        draws(mesh_commands(m, k)) == seq![expected_draw(m, k)],
{
    let bind0 = seq![
        RenderCommand::SetBindGroup {
            slot: 0,
            mesh: k as usize,
            source: BindGroupSource::MaterialTexture,
        },
    ];
    let binds = uniform_binds(k, m.uniform_count as nat);
    let vbuf = seq![RenderCommand::SetVertexBuffer { slot: 0, mesh: k as usize }];
    let dc = draw_commands(m, k);
    lemma_draws_concat(bind0 + binds + vbuf, dc);
    lemma_draws_concat(bind0 + binds, vbuf);
    lemma_draws_concat(bind0, binds);
    lemma_uniform_binds_do_not_draw(k, m.uniform_count as nat);
    lemma_single_draw_of_command(bind0[0]);
    assert(bind0 =~= seq![bind0[0]]);
    lemma_single_draw_of_command(vbuf[0]);
    assert(vbuf =~= seq![vbuf[0]]);
    if m.num_indices == 0 {
        lemma_single_draw_of_command(dc[0]);
        assert(dc =~= seq![dc[0]]);
    } else {
        let d0 = seq![dc[0]];
        let d1 = seq![dc[1]];
        assert(dc =~= d0 + d1);
        lemma_draws_concat(d0, d1);
        lemma_single_draw_of_command(dc[0]);
        lemma_single_draw_of_command(dc[1]);
    }
    assert(draws(mesh_commands(m, k)) =~= seq![expected_draw(m, k)]);
}

/// Every mesh is drawn exactly once, in list order, by index exactly when it
/// has indices (all of them) and otherwise by vertex (all of them); nothing
/// else in the pass draws.
pub proof fn lemma_each_mesh_drawn_once_in_order(meshes: Seq<MeshDraw>)
    ensures
        draws(render_pass_commands(meshes)) == Seq::new(
            meshes.len(),
            |k: int| expected_draw(meshes[k], k),
        ),
    decreases meshes.len(),
{
    let p = seq![RenderCommand::SetPipeline];
    lemma_draws_concat(p, meshes_commands(meshes));
    lemma_single_draw_of_command(RenderCommand::SetPipeline);
    if meshes.len() == 0 {
        assert(draws(render_pass_commands(meshes)) =~= Seq::new(
            meshes.len(),
            |k: int| expected_draw(meshes[k], k),
        ));
    } else {
        let init = meshes.drop_last();
        let n = meshes.len() - 1;
        lemma_each_mesh_drawn_once_in_order(init);
        lemma_draws_concat(p, meshes_commands(init));
        lemma_draws_concat(meshes_commands(init), mesh_commands(meshes.last(), n));
        lemma_mesh_draws_once(meshes.last(), n);
        assert(draws(render_pass_commands(meshes)) =~= Seq::new(
            meshes.len(),
            |k: int| expected_draw(meshes[k], k),
        ));
    }
}

/// The command that follows the texture group of mesh `k`: its first
/// uniform group, or its vertex buffer when it has no uniforms.
pub open spec fn after_texture(m: MeshDraw, k: usize) -> RenderCommand {
    if m.uniform_count == 0 {
        RenderCommand::SetVertexBuffer { slot: 0, mesh: k }
    } else {
        RenderCommand::SetBindGroup { slot: 1, mesh: k, source: BindGroupSource::Uniform(0) }
    }
}

/// What command `i` of a pass `c` over `meshes` says, and what must come
/// right after it:
/// - the pipeline is the first command; the texture group of mesh 0 follows
///   it, or nothing when there are no meshes;
/// - a texture group of mesh `x` is bound at slot 0, and mesh `x`'s first
///   uniform group (or its vertex buffer) follows;
/// - uniform group `j` of mesh `x` exists, is bound at slot `j + 1`, and is
///   followed by uniform group `j + 1` of the same mesh, or by the same
///   mesh's vertex buffer after its last uniform group;
/// - the vertex buffer of mesh `x` is bound at slot 0 and is followed by
///   mesh `x`'s draw of all its vertices, or, when it has indices, by mesh
///   `x`'s own index buffer;
/// - the index buffer of mesh `x` belongs to a mesh with indices and is
///   followed by the draw of all of mesh `x`'s indices;
/// - a draw of mesh `x` covers all of its vertices (or indices) and is
///   followed by the texture group of mesh `x + 1`, or ends the pass after
///   the last mesh.
pub open spec fn follows_in_pass(meshes: Seq<MeshDraw>, c: Seq<RenderCommand>, i: int) -> bool {
    let n = meshes.len();
    match c[i] {
        RenderCommand::SetPipeline => i == 0 && if n == 0 {
            i + 1 == c.len()
        } else {
            i + 1 < c.len() && c[i + 1] == RenderCommand::SetBindGroup {
                slot: 0,
                mesh: 0,
                source: BindGroupSource::MaterialTexture,
            }
        },
        RenderCommand::SetBindGroup { slot, mesh, source } => mesh < n && i + 1 < c.len()
            && match source {
            BindGroupSource::MaterialTexture => slot == 0 && c[i + 1] == after_texture(
                meshes[mesh as int],
                mesh,
            ),
            BindGroupSource::Uniform(j) => j < meshes[mesh as int].uniform_count && slot == j + 1
                && c[i + 1] == if j + 1 == meshes[mesh as int].uniform_count {
                RenderCommand::SetVertexBuffer { slot: 0, mesh }
            } else {
                RenderCommand::SetBindGroup {
                    slot: (j + 2) as u32,
                    mesh,
                    source: BindGroupSource::Uniform((j + 1) as usize),
                }
            },
        },
        RenderCommand::SetVertexBuffer { slot, mesh } => slot == 0 && mesh < n && i + 1 < c.len()
            && c[i + 1] == if meshes[mesh as int].num_indices == 0 {
            RenderCommand::Draw { mesh, vertex_count: meshes[mesh as int].num_vertices }
        } else {
            RenderCommand::SetIndexBuffer { mesh }
        },
        RenderCommand::SetIndexBuffer { mesh } => mesh < n && meshes[mesh as int].num_indices != 0
            && i + 1 < c.len() && c[i + 1] == RenderCommand::DrawIndexed {
            mesh,
            index_count: meshes[mesh as int].num_indices,
        },
        RenderCommand::Draw { mesh, vertex_count } => mesh < n && meshes[mesh as int].num_indices
            == 0 && vertex_count == meshes[mesh as int].num_vertices && ends_mesh(meshes, c, i, mesh),
        RenderCommand::DrawIndexed { mesh, index_count } => mesh < n
            && meshes[mesh as int].num_indices != 0 && index_count == meshes[mesh as int].num_indices
            && ends_mesh(meshes, c, i, mesh),
    }
}

/// After the draw of mesh `x` at `i` comes the texture group of mesh `x + 1`,
/// or the end of the pass when `x` is the last mesh.
pub open spec fn ends_mesh(meshes: Seq<MeshDraw>, c: Seq<RenderCommand>, i: int, x: usize) -> bool {
    if x + 1 < meshes.len() {
        i + 1 < c.len() && c[i + 1] == RenderCommand::SetBindGroup {
            slot: 0,
            mesh: (x + 1) as usize,
            source: BindGroupSource::MaterialTexture,
        }
    } else {
        i + 1 == c.len()
    }
}

spec fn closing_draw(m: MeshDraw, k: int) -> RenderCommand {
    if m.num_indices == 0 {
        RenderCommand::Draw { mesh: k as usize, vertex_count: m.num_vertices }
    } else {
        RenderCommand::DrawIndexed { mesh: k as usize, index_count: m.num_indices }
    }
}

proof fn lemma_block_layout(m: MeshDraw, k: int)
    ensures
        ({
            let b = mesh_commands(m, k);
            let u = m.uniform_count as int;
            &&& b.len() == u + if m.num_indices == 0 {
                3int
            } else {
                4int
            }
            &&& b[0] == RenderCommand::SetBindGroup {
                slot: 0,
                mesh: k as usize,
                source: BindGroupSource::MaterialTexture,
            }
            &&& forall|j: int|
                0 <= j < u ==> #[trigger] b[1 + j] == RenderCommand::SetBindGroup {
                    slot: (j + 1) as u32,
                    mesh: k as usize,
                    source: BindGroupSource::Uniform(j as usize),
                }
            &&& b[1 + u] == RenderCommand::SetVertexBuffer { slot: 0, mesh: k as usize }
            &&& m.num_indices != 0 ==> b[2 + u] == RenderCommand::SetIndexBuffer {
                mesh: k as usize,
            }
            &&& b[b.len() - 1] == closing_draw(m, k)
        }),
{
    let b = mesh_commands(m, k);
    let u = m.uniform_count as int;
    let bind0 = seq![
        RenderCommand::SetBindGroup {
            slot: 0,
            mesh: k as usize,
            source: BindGroupSource::MaterialTexture,
        },
    ];
    let binds = uniform_binds(k, m.uniform_count as nat);
    let vbuf = seq![RenderCommand::SetVertexBuffer { slot: 0, mesh: k as usize }];
    let dc = draw_commands(m, k);
    assert(b == bind0 + binds + vbuf + dc);
    assert forall|j: int| 0 <= j < u implies #[trigger] b[1 + j] == RenderCommand::SetBindGroup {
        slot: (j + 1) as u32,
        mesh: k as usize,
        source: BindGroupSource::Uniform(j as usize),
    } by {
        assert(b[1 + j] == binds[j]);
    }
    assert(b[1 + u] == vbuf[0]);
    if m.num_indices != 0 {
        assert(b[2 + u] == dc[0]);
        assert(b[3 + u] == dc[1]);
    } else {
        assert(b[2 + u] == dc[0]);
    }
}

proof fn lemma_pass_prefix(meshes: Seq<MeshDraw>, t: int)
    requires
        slots_fit(meshes),
        meshes.len() <= usize::MAX,
        0 <= t <= meshes.len(),
    ensures
        ({
            let c = seq![RenderCommand::SetPipeline] + meshes_commands(meshes.take(t));
            &&& c.len() >= 1
            &&& c[0] == RenderCommand::SetPipeline
            &&& c[c.len() - 1] == if t == 0 {
                RenderCommand::SetPipeline
            } else {
                closing_draw(meshes[t - 1], t - 1)
            }
            &&& forall|i: int| 0 <= i < c.len() - 1 ==> #[trigger] follows_in_pass(meshes, c, i)
        }),
    decreases t,
{
    let c = seq![RenderCommand::SetPipeline] + meshes_commands(meshes.take(t));
    if t == 0 {
        assert(meshes.take(0) =~= Seq::<MeshDraw>::empty());
        assert(c =~= seq![RenderCommand::SetPipeline]);
    } else {
        lemma_pass_prefix(meshes, t - 1);
        let prev = seq![RenderCommand::SetPipeline] + meshes_commands(meshes.take(t - 1));
        let m = meshes[t - 1];
        let b = mesh_commands(m, t - 1);
        assert(meshes.take(t).drop_last() =~= meshes.take(t - 1));
        assert(meshes.take(t).last() == m);
        assert(c =~= prev + b);
        lemma_block_layout(m, t - 1);
        let l = prev.len() as int;
        let u = m.uniform_count as int;
        assert(m.uniform_count < u32::MAX);
        assert forall|i: int| 0 <= i < c.len() - 1 implies #[trigger] follows_in_pass(
            meshes,
            c,
            i,
        ) by {
            if i < l - 1 {
                assert(c[i] == prev[i]);
                assert(c[i + 1] == prev[i + 1]);
                assert(follows_in_pass(meshes, prev, i));
            } else if i == l - 1 {
                assert(c[i] == prev[l - 1]);
                assert(c[i + 1] == b[0]);
            } else {
                let q = i - l;
                assert(c[i] == b[q]);
                assert(c[i + 1] == b[q + 1]);
                if q == 0 {
                    if u > 0 {
                        assert(b[1 + 0int] == b[1int]);
                    }
                } else if q <= u {
                    let j = q - 1;
                    assert(b[1 + j] == b[q]);
                    if j + 1 < u {
                        assert(b[1 + (j + 1)] == b[q + 1]);
                    }
                } else if q == u + 1 {
                } else {
                }
            }
        }
        assert(c[c.len() - 1] == b[b.len() - 1]);
    }
}

/// The pass is issued mesh by mesh: it starts with the pipeline, and each
/// command is followed by exactly what `follows_in_pass` names, so every
/// bind group, vertex buffer, index buffer and draw between the texture
/// group of mesh `k` and the draw of mesh `k` belongs to mesh `k`.
pub proof fn lemma_pass_is_mesh_by_mesh(meshes: Seq<MeshDraw>)
    requires
        slots_fit(meshes),
        meshes.len() <= usize::MAX,
    ensures
        render_pass_commands(meshes).len() >= 1,
        render_pass_commands(meshes)[0] == RenderCommand::SetPipeline,
        forall|i: int|
            0 <= i < render_pass_commands(meshes).len() ==> #[trigger] follows_in_pass(
                meshes,
                render_pass_commands(meshes),
                i,
            ),
{
    let n = meshes.len() as int;
    lemma_pass_prefix(meshes, n);
    assert(meshes.take(n) =~= meshes);
    let c = render_pass_commands(meshes);
    let last = c.len() - 1;
    assert forall|i: int| 0 <= i < c.len() implies #[trigger] follows_in_pass(meshes, c, i) by {
        if i < last {
        } else {
            assert(i == last);
        }
    }
}

} // verus!
