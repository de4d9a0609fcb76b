use mdr_engine::command_buffer::{MdrCommandBuffer, MdrRenderCommand, CLEAR_GRAY_BITS, ONE_BITS};
use mdr_engine::resources::{MdrMeshData, MdrResourceManager};

fn quad_handle() -> mdr_engine::resources::MdrGpuMeshHandle {
    let mut m = MdrResourceManager::new();
    let data = MdrMeshData {
        positions: vec![[0, 0, 0]; 4],
        normals: vec![[0, 0, 0]; 4],
        uvs: vec![[0, 0]; 4],
        tangents: vec![[0, 0, 0]; 4],
        indices: vec![0, 1, 2, 2, 3, 0],
    };
    let mesh = m.load_mesh(Some(data), "quad").unwrap();
    m.get_mesh_handle(&mesh)
}

#[test]
fn one_buffer_and_one_draw_per_framebuffer() {
    let mesh = quad_handle();
    let framebuffers = vec![100, 101, 102];
    let cb = MdrCommandBuffer::new(7, &framebuffers, &mesh, 9);
    assert_eq!(cb.cmd_buffers.len(), 3);
    for (i, fb) in framebuffers.iter().enumerate() {
        let cmds = cb.get_primary(i);
        let draws: Vec<(u32, u32)> = cmds
            .iter()
            .filter_map(|c| match c {
                MdrRenderCommand::DrawIndexed { index_count, instance_count, .. } => Some((*index_count, *instance_count)),
                _ => None,
            })
            .collect();
        assert_eq!(draws, vec![(6, 1)]);
        assert_eq!(
            cmds[0],
            MdrRenderCommand::BeginRenderPass {
                framebuffer: *fb,
                clear: mdr_engine::command_buffer::MdrClearValues {
                    color_bits: [CLEAR_GRAY_BITS, CLEAR_GRAY_BITS, CLEAR_GRAY_BITS, ONE_BITS],
                    depth_bits: ONE_BITS,
                },
            }
        );
    }
}

#[test]
fn binding_order_matches_layout() {
    let mesh = quad_handle();
    let cb = MdrCommandBuffer::new(7, &vec![100], &mesh, 9);
    let cmds = cb.get_primary(0);
    assert_eq!(
        cmds,
        vec![
            cmds[0],
            MdrRenderCommand::BindPipelineGraphics { pipeline: 7 },
            MdrRenderCommand::BindDescriptorSets { first_set: 0, set: 9 },
            MdrRenderCommand::BindVertexBuffers { first_binding: 0, buffers: [0, 1, 2, 3] },
            MdrRenderCommand::BindIndexBuffer { buffer: 4 },
            MdrRenderCommand::DrawIndexed {
                index_count: 6,
                instance_count: 1,
                first_index: 0,
                vertex_offset: 0,
                first_instance: 0,
            },
            MdrRenderCommand::EndRenderPass,
        ]
    );
}

#[test]
fn no_framebuffers_no_buffers() {
    let mesh = quad_handle();
    let cb = MdrCommandBuffer::new(7, &vec![], &mesh, 9);
    assert!(cb.cmd_buffers.is_empty());
}

#[test]
fn clear_bits_are_gray_and_one() {
    assert_eq!(f32::from_bits(ONE_BITS), 1.0);
    assert_eq!(f32::from_bits(CLEAR_GRAY_BITS), 0.1);
}
