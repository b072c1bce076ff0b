use game_renderer::render_plan::{plan_render_pass, BindGroupSource, MeshDraw, RenderCommand};

#[test]
fn empty_pass_only_sets_pipeline() {
    let commands = plan_render_pass(&vec![]);
    assert_eq!(commands, vec![RenderCommand::SetPipeline]);
}

#[test]
fn vertex_mesh_is_drawn_by_vertex() {
    let meshes = vec![MeshDraw { uniform_count: 0, num_vertices: 6, num_indices: 0 }];
    let commands = plan_render_pass(&meshes);
    assert_eq!(
        commands,
        vec![
            RenderCommand::SetPipeline,
            RenderCommand::SetBindGroup { slot: 0, mesh: 0, source: BindGroupSource::MaterialTexture },
            RenderCommand::SetVertexBuffer { slot: 0, mesh: 0 },
            RenderCommand::Draw { mesh: 0, vertex_count: 6 },
        ]
    );
}

#[test]
fn indexed_mesh_with_uniforms() {
    let meshes = vec![
        MeshDraw { uniform_count: 3, num_vertices: 4, num_indices: 6 },
        MeshDraw { uniform_count: 1, num_vertices: 3, num_indices: 0 },
    ];
    let commands = plan_render_pass(&meshes);
    assert_eq!(
        commands,
        vec![
            RenderCommand::SetPipeline,
            RenderCommand::SetBindGroup { slot: 0, mesh: 0, source: BindGroupSource::MaterialTexture },
            RenderCommand::SetBindGroup { slot: 1, mesh: 0, source: BindGroupSource::Uniform(0) },
            RenderCommand::SetBindGroup { slot: 2, mesh: 0, source: BindGroupSource::Uniform(1) },
            RenderCommand::SetBindGroup { slot: 3, mesh: 0, source: BindGroupSource::Uniform(2) },
            RenderCommand::SetVertexBuffer { slot: 0, mesh: 0 },
            RenderCommand::SetIndexBuffer { mesh: 0 },
            RenderCommand::DrawIndexed { mesh: 0, index_count: 6 },
            RenderCommand::SetBindGroup { slot: 0, mesh: 1, source: BindGroupSource::MaterialTexture },
            RenderCommand::SetBindGroup { slot: 1, mesh: 1, source: BindGroupSource::Uniform(0) },
            RenderCommand::SetVertexBuffer { slot: 0, mesh: 1 },
            RenderCommand::Draw { mesh: 1, vertex_count: 3 },
        ]
    );
}

#[test]
fn each_mesh_drawn_once_in_order() {
    let meshes = vec![
        MeshDraw { uniform_count: 2, num_vertices: 4, num_indices: 6 },
        MeshDraw { uniform_count: 0, num_vertices: 3, num_indices: 0 },
        MeshDraw { uniform_count: 5, num_vertices: 8, num_indices: 36 },
    ];
    let commands = plan_render_pass(&meshes);
    let draws: Vec<(usize, bool, u32)> = commands
        .iter()
        .filter_map(|c| match c {
            RenderCommand::Draw { mesh, vertex_count } => Some((*mesh, false, *vertex_count)),
            RenderCommand::DrawIndexed { mesh, index_count } => Some((*mesh, true, *index_count)),
            _ => None,
        })
        .collect();
    assert_eq!(draws, vec![(0, true, 6), (1, false, 3), (2, true, 36)]);
    assert_eq!(commands.len(), 1 + (1 + 2 + 1 + 2) + (1 + 0 + 1 + 1) + (1 + 5 + 1 + 2));
}
