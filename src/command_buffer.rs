use vstd::prelude::*;

use crate::resources::MdrGpuMeshHandle;

verus! {

/// IEEE-754 single-precision bit pattern of 0.1, the gray of the clear color.
pub const CLEAR_GRAY_BITS: u32 = 0x3dcc_cccd;

/// IEEE-754 single-precision bit pattern of 1.0.
pub const ONE_BITS: u32 = 0x3f80_0000;

/// Clear values of a render pass as single-precision bit patterns: an RGBA color
/// and a depth.
#[derive(Clone, Copy, Debug, PartialEq, Eq)]
pub struct MdrClearValues {
    pub color_bits: [u32; 4],
    pub depth_bits: u32,
}

/// One recorded command. Device objects are named by their ids.
#[derive(Clone, Copy, Debug, PartialEq, Eq)]
pub enum MdrRenderCommand {
    BeginRenderPass { framebuffer: u64, clear: MdrClearValues },
    BindPipelineGraphics { pipeline: u64 },
    BindDescriptorSets { first_set: u32, set: u64 },
    BindVertexBuffers { first_binding: u32, buffers: [u64; 4] },
    BindIndexBuffer { buffer: u64 },
    DrawIndexed {
        index_count: u32,
        instance_count: u32,
        first_index: u32,
        vertex_offset: i32,
        first_instance: u32,
    },
    EndRenderPass,
}

/// Dark gray, opaque, and the far depth.
pub open spec fn clear_values() -> MdrClearValues {
    MdrClearValues {
        color_bits: [CLEAR_GRAY_BITS, CLEAR_GRAY_BITS, CLEAR_GRAY_BITS, ONE_BITS],
        depth_bits: ONE_BITS,
    }
}

/// The commands drawing `mesh` into `framebuffer`: clear, bind the pipeline, the
/// descriptor set at index 0, the position, normal, UV and tangent streams at
/// bindings 0 to 3, the index stream, then one draw of all indices, once.
pub open spec fn render_commands(
    framebuffer: u64,
    pipeline: u64,
    mesh: MdrGpuMeshHandle,
    set: u64,
) -> Seq<MdrRenderCommand> {
    seq![
        MdrRenderCommand::BeginRenderPass { framebuffer, clear: clear_values() },
        MdrRenderCommand::BindPipelineGraphics { pipeline },
        MdrRenderCommand::BindDescriptorSets { first_set: 0, set },
        MdrRenderCommand::BindVertexBuffers {
            first_binding: 0,
            buffers: [mesh.positions_chunk, mesh.normals_chunk, mesh.uvs_chunk, mesh.tangents_chunk],
        },
        MdrRenderCommand::BindIndexBuffer { buffer: mesh.index_chunk },
        MdrRenderCommand::DrawIndexed {
            index_count: mesh.index_count,
            instance_count: 1,
            first_index: 0,
            vertex_offset: 0,
            first_instance: 0,
        },
        MdrRenderCommand::EndRenderPass,
    ]
}

/// Records the commands drawing `mesh` into `framebuffer`.
fn record(framebuffer: u64, pipeline: u64, mesh: &MdrGpuMeshHandle, set: u64) -> (r: Vec<
    MdrRenderCommand,
>)
    ensures
        r@ == render_commands(framebuffer, pipeline, *mesh, set),
{
    let clear = MdrClearValues {
        color_bits: [CLEAR_GRAY_BITS, CLEAR_GRAY_BITS, CLEAR_GRAY_BITS, ONE_BITS],
        depth_bits: ONE_BITS,
    };
    let r = vec![
        MdrRenderCommand::BeginRenderPass { framebuffer, clear },
        MdrRenderCommand::BindPipelineGraphics { pipeline },
        MdrRenderCommand::BindDescriptorSets { first_set: 0, set },
        MdrRenderCommand::BindVertexBuffers {
            first_binding: 0,
            buffers: [mesh.positions_chunk, mesh.normals_chunk, mesh.uvs_chunk, mesh.tangents_chunk],
        },
        MdrRenderCommand::BindIndexBuffer { buffer: mesh.index_chunk },
        MdrRenderCommand::DrawIndexed {
            index_count: mesh.index_count,
            instance_count: 1,
            first_index: 0,
            vertex_offset: 0,
            first_instance: 0,
        },
        MdrRenderCommand::EndRenderPass,
    ];
    proof {
        assert(r@ =~= render_commands(framebuffer, pipeline, *mesh, set));
    }
    r
}

/// One recorded command list per framebuffer, in swapchain order.
pub struct MdrCommandBuffer {
    pub cmd_buffers: Vec<Vec<MdrRenderCommand>>,
}

impl MdrCommandBuffer {
    /// Records, for each of `framebuffers`, the commands drawing `mesh` through
    /// `pipeline` with descriptor set `set`.
    pub fn new(
        pipeline: u64,
        framebuffers: &Vec<u64>,
        mesh: &MdrGpuMeshHandle,
        set: u64,
    ) -> (r: Self)
        ensures
            r.cmd_buffers@.len() == framebuffers@.len(),
            forall|i: int|
                0 <= i < framebuffers@.len() ==> (#[trigger] r.cmd_buffers@[i])@ == render_commands(
                    framebuffers@[i],
                    pipeline,
                    *mesh,
                    set,
                ),
    {
        let mut cmd_buffers: Vec<Vec<MdrRenderCommand>> = Vec::new();
        let mut i: usize = 0;
        while i < framebuffers.len()
            invariant
                i <= framebuffers@.len(),
                cmd_buffers@.len() == i,
                forall|j: int|
                    0 <= j < i ==> (#[trigger] cmd_buffers@[j])@ == render_commands(
                        framebuffers@[j],
                        pipeline,
                        *mesh,
                        set,
                    ),
            decreases framebuffers@.len() - i,
        {
            let commands = record(framebuffers[i], pipeline, mesh, set);
            cmd_buffers.push(commands);
            i = i + 1;
        }
        MdrCommandBuffer { cmd_buffers }
    }

    /// The command list recorded for swapchain image `index`.
    pub fn get_primary(&self, index: usize) -> (r: Vec<MdrRenderCommand>)
        requires
            index < self.cmd_buffers@.len(),
        ensures
            r@ == self.cmd_buffers@[index as int]@,
    {
        let src = &self.cmd_buffers[index];
        let mut r: Vec<MdrRenderCommand> = Vec::new();
        let mut i: usize = 0;
        while i < src.len()
            invariant
                i <= src@.len(),
                r@ == src@.subrange(0, i as int),
            decreases src@.len() - i,
        {
            r.push(src[i]);
            i = i + 1;
            proof {
                assert(r@ =~= src@.subrange(0, i as int));
            }
        }
        proof {
            assert(r@ =~= src@);
        }
        r
    }
}

} // verus!
