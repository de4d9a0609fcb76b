use vstd::prelude::*;

use crate::command_buffer::{MdrCommandBuffer, MdrRenderCommand, render_commands};
use crate::pixels::{
    MdrColor, MdrColorType, MdrImageData, as_rgba, color_type_of, converted, format_for, layout_of,
    solid_layout, solid_pixels, texel,
};
use crate::resources::{
    MdrGpuMeshHandle, MdrMaterialCreateInfo, MdrMaterial, MdrMesh, MdrMeshData, MdrResourceError,
    MdrResourceManager, MdrSamplerMode, MdrTexture, MdrUpload, get_sampler_post,
    material_create_post, mesh_data_valid, mesh_load_post, palette_lookup, texture_load_post,
    texture_stored,
};

verus! {

/// A fresh name with usable geometry loads, and the mesh is then in the library,
/// so `retrieve_mesh` of that name succeeds and names it.
pub proof fn lemma_load_then_retrieve_mesh(
    pre: MdrResourceManager,
    post: MdrResourceManager,
    parsed: Option<MdrMeshData>,
    name: Seq<char>,
    load_error: MdrResourceError,
    r: Result<MdrMesh, MdrResourceError>,
)
    requires
        mesh_load_post(pre, post, parsed, name, load_error, r),
        !pre.meshes().contains_key(name),
        parsed matches Some(d) && mesh_data_valid(d),
        pre.has_room(5),
    ensures
        r matches Ok(m) && m.name@ == name,
        post.meshes().contains_key(name),
{
}

/// Loading a mesh under a taken name fails with `DuplicateMeshName` and changes
/// nothing, so the existing entry stays.
pub proof fn lemma_duplicate_mesh(
    pre: MdrResourceManager,
    post: MdrResourceManager,
    parsed: Option<MdrMeshData>,
    name: Seq<char>,
    load_error: MdrResourceError,
    r: Result<MdrMesh, MdrResourceError>,
)
    requires
        mesh_load_post(pre, post, parsed, name, load_error, r),
        pre.meshes().contains_key(name),
    ensures
        r == Err::<MdrMesh, MdrResourceError>(MdrResourceError::DuplicateMeshName),
        post.meshes() == pre.meshes(),
        post.meshes()[name] == pre.meshes()[name],
{
}

/// Loading a texture under a taken name fails with `DuplicateTextureName` and
/// changes nothing, so the existing entry stays.
pub proof fn lemma_duplicate_texture(
    pre: MdrResourceManager,
    post: MdrResourceManager,
    decoded: Option<MdrImageData>,
    color_type: MdrColorType,
    mode: MdrSamplerMode,
    name: Seq<char>,
    r: Result<MdrTexture, MdrResourceError>,
)
    requires
        texture_load_post(pre, post, decoded, color_type, mode, name, r),
        pre.textures().contains_key(name),
    ensures
        r == Err::<MdrTexture, MdrResourceError>(MdrResourceError::DuplicateTextureName),
        post.textures() == pre.textures(),
        post.textures()[name] == pre.textures()[name],
{
}

/// Creating a material under a taken name fails with `DuplicateMaterialName` and
/// changes nothing, so the existing entry stays.
pub proof fn lemma_duplicate_material(
    pre: MdrResourceManager,
    post: MdrResourceManager,
    info: MdrMaterialCreateInfo,
    name: Seq<char>,
    r: Result<MdrMaterial, MdrResourceError>,
)
    requires
        material_create_post(pre, post, info, name, r),
        pre.materials().contains_key(name),
    ensures
        r == Err::<MdrMaterial, MdrResourceError>(MdrResourceError::DuplicateMaterialName),
        post.materials() == pre.materials(),
        post.materials()[name] == pre.materials()[name],
{
}

/// Unloading: an absent name leaves the mesh library and its size as they were;
/// afterwards the name is absent, so `retrieve_mesh` of it fails with `MeshNotFound`.
pub proof fn lemma_unload_mesh(pre: MdrResourceManager, post: MdrResourceManager, name: Seq<char>)
    requires
        post.meshes() == pre.meshes().remove(name),
    ensures
        !pre.meshes().contains_key(name) ==> post.meshes() == pre.meshes() && post.meshes().len()
            == pre.meshes().len(),
        !post.meshes().contains_key(name),
{
    if !pre.meshes().contains_key(name) {
        assert(pre.meshes().remove(name) =~= pre.meshes());
    }
}

/// A material whose name is free but one of whose three maps is not a loaded
/// texture fails with `TextureNotFound`, and the material library is unchanged.
pub proof fn lemma_material_missing_texture(
    pre: MdrResourceManager,
    post: MdrResourceManager,
    info: MdrMaterialCreateInfo,
    name: Seq<char>,
    r: Result<MdrMaterial, MdrResourceError>,
)
    requires
        material_create_post(pre, post, info, name, r),
        !pre.materials().contains_key(name),
        !pre.textures().contains_key(info.diffuse.name@) || !pre.textures().contains_key(
            info.roughness.name@,
        ) || !pre.textures().contains_key(info.normal.name@),
    ensures
        r == Err::<MdrMaterial, MdrResourceError>(MdrResourceError::TextureNotFound),
        post.materials() == pre.materials(),
        post.materials().len() == pre.materials().len(),
{
}

/// Asking twice for the sampler of one mode gives the same sampler, and the second
/// call changes nothing: the cache does not grow.
pub proof fn lemma_sampler_reuse(
    m0: MdrResourceManager,
    m1: MdrResourceManager,
    m2: MdrResourceManager,
    mode: MdrSamplerMode,
    r1: u64,
    r2: u64,
)
    requires
        get_sampler_post(m0, m1, mode, r1),
        get_sampler_post(m1, m2, mode, r2),
    ensures
        r1 == r2,
        m2 == m1,
{
    let p0 = m0.sampler_palette();
    if palette_lookup(p0, mode) is None {
        assert(m1.sampler_palette().drop_last() =~= p0);
    }
}

/// The draws of a command list, each as its index count and instance count.
pub open spec fn draw_calls(s: Seq<MdrRenderCommand>) -> Seq<(u32, u32)>
    decreases s.len(),
{
    if s.len() == 0 {
        Seq::empty()
    } else {
        let rest = draw_calls(s.drop_last());
        match s.last() {
            MdrRenderCommand::DrawIndexed { index_count, instance_count, .. } => rest.push(
                (index_count, instance_count),
            ),
            _ => rest,
        }
    }
}

/// Every command buffer built for a mesh of N indices holds exactly one draw, of
/// N indices and one instance, and there is one buffer per framebuffer.
pub proof fn lemma_one_draw_per_framebuffer(
    cb: MdrCommandBuffer,
    framebuffers: Seq<u64>,
    pipeline: u64,
    mesh: MdrGpuMeshHandle,
    set: u64,
)
    requires
        cb.cmd_buffers@.len() == framebuffers.len(),
        forall|i: int|
            0 <= i < framebuffers.len() ==> (#[trigger] cb.cmd_buffers@[i])@ == render_commands(
                framebuffers[i],
                pipeline,
                mesh,
                set,
            ),
    ensures
        cb.cmd_buffers@.len() == framebuffers.len(),
        forall|i: int|
            0 <= i < framebuffers.len() ==> draw_calls((#[trigger] cb.cmd_buffers@[i])@) == seq![
                (mesh.index_count, 1u32),
            ],
{
    assert forall|i: int| 0 <= i < framebuffers.len() implies draw_calls(
        (#[trigger] cb.cmd_buffers@[i])@,
    ) == seq![(mesh.index_count, 1u32)] by {
        let s = render_commands(framebuffers[i], pipeline, mesh, set);
        reveal_with_fuel(draw_calls, 8);
        assert(s.drop_last().drop_last().drop_last().drop_last().drop_last().drop_last().drop_last()
            =~= Seq::<MdrRenderCommand>::empty());
        assert(draw_calls(s) =~= seq![(mesh.index_count, 1u32)]);
    }
}

/// A solid-color texture, created under a fresh name, is uploaded so that its one
/// pixel, read in the device format its color tag selects, is the color itself
/// (a color without alpha reads as opaque).
pub proof fn lemma_solid_texture_round_trip(
    pre: MdrResourceManager,
    post: MdrResourceManager,
    color: MdrColor,
    name: Seq<char>,
    r: Result<MdrTexture, MdrResourceError>,
)
    requires
        texture_stored(
            pre,
            post,
            1,
            1,
            solid_pixels(color),
            solid_layout(color),
            color_type_of(color),
            MdrSamplerMode::ClampToEdge,
            name,
            r,
        ),
    ensures
        post.pending_uploads().last() matches MdrUpload::Image(u) && u.image_view
            == post.textures()[name].image_view && texel(u.format, u.pixels@, 0) == as_rgba(color),
{
    let fmt = format_for(color_type_of(color));
    assert(converted(solid_pixels(color), solid_layout(color), layout_of(fmt)) == solid_pixels(color));
}

} // verus!
