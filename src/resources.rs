use vstd::prelude::*;

use crate::library::ResourceLibrary;
use crate::pixels::{
    MdrColor, MdrColorType, MdrFormat, MdrImageData, MdrPixelLayout, MdrRgb, color_type_of,
    convert_pixels, converted, format_for, image_is_well_formed, layout_of, solid_layout,
    layout_for_format, select_format, solid_pixels,
};

verus! {

/// How a sampler addresses coordinates outside the image.
#[derive(Clone, Copy, Debug, PartialEq, Eq, Structural, Hash)]
pub enum MdrSamplerMode {
    Repeat,
    ClampToEdge,
}

/// Texel filtering of a sampler.
#[derive(Clone, Copy, Debug, PartialEq, Eq, Structural)]
pub enum MdrFilter {
    Nearest,
    Linear,
}

/// The device buffers of a mesh: four vertex-attribute streams, an index stream and
/// the number of indices. Each field but the count is a device object id.
#[derive(Clone, Copy, Debug, PartialEq, Eq, Structural)]
pub struct MdrGpuMeshHandle {
    pub positions_chunk: u64,
    pub normals_chunk: u64,
    pub uvs_chunk: u64,
    pub tangents_chunk: u64,
    pub index_chunk: u64,
    pub index_count: u32,
}

/// A device image view and the sampler it is read through.
#[derive(Clone, Copy, Debug, PartialEq, Eq, Structural)]
pub struct MdrGpuTextureHandle {
    pub image_view: u64,
    pub sampler: u64,
}

/// A device uniform buffer and copies of the handles of the material's three maps.
#[derive(Clone, Copy, Debug, PartialEq, Eq, Structural)]
pub struct MdrGpuMaterialHandle {
    pub material_data: u64,
    pub diffuse_map: MdrGpuTextureHandle,
    pub roughness_map: MdrGpuTextureHandle,
    pub normal_map: MdrGpuTextureHandle,
}

/// A by-name reference to a mesh of the mesh library.
#[derive(Clone, Debug)]
pub struct MdrMesh {
    pub name: String,
}

/// A by-name reference to a texture of the texture library.
#[derive(Clone, Debug)]
pub struct MdrTexture {
    pub name: String,
}

/// A by-name reference to a material of the material library.
#[derive(Clone, Debug)]
pub struct MdrMaterial {
    pub name: String,
}

/// Parsed geometry: four vertex-attribute streams, each component an IEEE-754
/// single-precision bit pattern, and the indices into them.
#[derive(Clone, Debug)]
pub struct MdrMeshData {
    pub positions: Vec<[u32; 3]>,
    pub normals: Vec<[u32; 3]>,
    pub uvs: Vec<[u32; 2]>,
    pub tangents: Vec<[u32; 3]>,
    pub indices: Vec<u32>,
}

/// The four streams describe the same vertices, every index names one of them, and
/// the index count fits the device's 32-bit count.
pub open spec fn mesh_data_valid(d: MdrMeshData) -> bool {
    &&& d.normals@.len() == d.positions@.len()
    &&& d.uvs@.len() == d.positions@.len()
    &&& d.tangents@.len() == d.positions@.len()
    &&& d.indices@.len() <= u32::MAX
    &&& forall|i: int| 0 <= i < d.indices@.len() ==> #[trigger] d.indices@[i] < d.positions@.len()
}

/// The uniform block of a material: specular color and the bit pattern of a
/// single-precision shininess.
#[derive(Clone, Copy, Debug, PartialEq, Eq, Structural)]
pub struct MdrMaterialUniformData {
    pub specular_color: MdrRgb,
    pub shininess_bits: u32,
}

/// What a material is made of: its uniform values and the names of its three maps.
#[derive(Clone, Debug)]
pub struct MdrMaterialCreateInfo {
    pub specular_color: MdrRgb,
    pub shininess_bits: u32,
    pub diffuse: MdrTexture,
    pub roughness: MdrTexture,
    pub normal: MdrTexture,
}

/// Where a texture comes from and how it is to be read.
#[derive(Clone, Debug)]
pub struct MdrTextureCreateInfo {
    pub source: String,
    pub color_type: MdrColorType,
    pub sampler_mode: MdrSamplerMode,
}

/// A device sampler to create under the id `sampler`.
#[derive(Clone, Copy, Debug, PartialEq, Eq, Structural)]
pub struct MdrSamplerCreateInfo {
    pub sampler: u64,
    pub mag_filter: MdrFilter,
    pub min_filter: MdrFilter,
    pub address_mode: MdrSamplerMode,
}

/// Mesh streams to copy into the buffers named by `handle`.
#[derive(Clone, Debug)]
pub struct MdrMeshUpload {
    pub handle: MdrGpuMeshHandle,
    pub data: MdrMeshData,
}

/// Pixels to copy into a new device image under the id `image_view`.
#[derive(Clone, Debug)]
pub struct MdrImageUpload {
    pub image_view: u64,
    pub width: u32,
    pub height: u32,
    pub format: MdrFormat,
    pub pixels: Vec<u8>,
}

/// A uniform block to copy into a new device buffer under the id `buffer`.
#[derive(Clone, Copy, Debug, PartialEq, Eq, Structural)]
pub struct MdrMaterialUpload {
    pub buffer: u64,
    pub uniforms: MdrMaterialUniformData,
}

/// One outstanding piece of device work.
#[derive(Clone, Debug)]
pub enum MdrUpload {
    Mesh(MdrMeshUpload),
    Image(MdrImageUpload),
    Sampler(MdrSamplerCreateInfo),
    Material(MdrMaterialUpload),
}

/// A cached sampler and the mode it was made for.
#[derive(Clone, Copy, Debug, PartialEq, Eq, Structural)]
pub struct SamplerSlot {
    pub mode: MdrSamplerMode,
    pub sampler: u64,
}

/// The sampler cached for `mode`: the latest slot of that mode.
pub open spec fn palette_lookup(p: Seq<SamplerSlot>, mode: MdrSamplerMode) -> Option<u64>
    decreases p.len(),
{
    if p.len() == 0 {
        None
    } else if p.last().mode == mode {
        Some(p.last().sampler)
    } else {
        palette_lookup(p.drop_last(), mode)
    }
}

/// No two cached samplers share a mode.
pub open spec fn palette_distinct(p: Seq<SamplerSlot>) -> bool {
    forall|i: int, j: int| 0 <= i < j < p.len() ==> (#[trigger] p[i]).mode != (#[trigger] p[j]).mode
}

proof fn lemma_lookup_none(p: Seq<SamplerSlot>, mode: MdrSamplerMode)
    requires
        palette_lookup(p, mode) is None,
    ensures
        forall|i: int| 0 <= i < p.len() ==> (#[trigger] p[i]).mode != mode,
    decreases p.len(),
{
    if p.len() > 0 {
        lemma_lookup_none(p.drop_last(), mode);
        assert forall|i: int| 0 <= i < p.len() implies (#[trigger] p[i]).mode != mode by {
            if i < p.len() - 1 {
                assert(p[i] == p.drop_last()[i]);
            }
        }
    }
}

/// Sampler settings for `mode`: linear filtering both ways.
pub open spec fn sampler_info(sampler: u64, mode: MdrSamplerMode) -> MdrSamplerCreateInfo {
    MdrSamplerCreateInfo {
        sampler,
        mag_filter: MdrFilter::Linear,
        min_filter: MdrFilter::Linear,
        address_mode: mode,
    }
}

/// Error of the resource manager.
#[derive(Clone, Copy, Debug, PartialEq, Eq, Structural)]
pub enum MdrResourceError {
    /// Mesh geometry from an .obj file could not be loaded.
    ObjLoadError,
    /// Mesh geometry from a scene loader could not be loaded.
    AssimpLoadError,
    /// An image could not be opened or decoded.
    ImageLoadError,
    /// No mesh of that name is in the mesh library.
    MeshNotFound,
    /// The mesh library already holds that name.
    DuplicateMeshName,
    /// No material of that name is in the material library.
    MaterialNotFound,
    /// The material library already holds that name.
    DuplicateMaterialName,
    /// No texture of that name is in the texture library.
    TextureNotFound,
    /// The texture library already holds that name.
    DuplicateTextureName,
    /// The device object ids are used up.
    GpuUploadFailure,
}


/// Owns the mesh, texture and material libraries, the sampler cache and the queue
/// of device work that has been issued but not yet taken by the device side.
///
/// Every device object is named by an id drawn from one increasing counter.
pub struct MdrResourceManager {
    mesh_library: ResourceLibrary<MdrGpuMeshHandle>,
    material_library: ResourceLibrary<MdrGpuMaterialHandle>,
    texture_library: ResourceLibrary<MdrGpuTextureHandle>,
    sampler_palette: Vec<SamplerSlot>,
    pending_uploads: Vec<MdrUpload>,
    next_id: u64,
}

impl MdrResourceManager {
    pub closed spec fn meshes(&self) -> Map<Seq<char>, MdrGpuMeshHandle> {
        self.mesh_library@
    }

    pub closed spec fn textures(&self) -> Map<Seq<char>, MdrGpuTextureHandle> {
        self.texture_library@
    }

    pub closed spec fn materials(&self) -> Map<Seq<char>, MdrGpuMaterialHandle> {
        self.material_library@
    }

    /// The cached samplers, oldest first.
    pub closed spec fn sampler_palette(&self) -> Seq<SamplerSlot> {
        self.sampler_palette@
    }

    /// Device work issued since creation or since the last drain, oldest first.
    pub closed spec fn pending_uploads(&self) -> Seq<MdrUpload> {
        self.pending_uploads@
    }

    /// The id the next device object receives.
    pub closed spec fn next_id(&self) -> u64 {
        self.next_id
    }

    pub closed spec fn wf(&self) -> bool {
        &&& self.mesh_library.wf()
        &&& self.material_library.wf()
        &&& self.texture_library.wf()
        &&& palette_distinct(self.sampler_palette@)
    }

    /// `k` more device object ids can be drawn.
    pub open spec fn has_room(&self, k: u64) -> bool {
        self.next_id() <= u64::MAX - k
    }

    /// An empty manager: no resources, no samplers, nothing pending.
    pub fn new() -> (r: Self)
        ensures
            r.wf(),
            r.meshes() == Map::<Seq<char>, MdrGpuMeshHandle>::empty(),
            r.textures() == Map::<Seq<char>, MdrGpuTextureHandle>::empty(),
            r.materials() == Map::<Seq<char>, MdrGpuMaterialHandle>::empty(),
            r.sampler_palette() == Seq::<SamplerSlot>::empty(),
            r.pending_uploads() == Seq::<MdrUpload>::empty(),
            r.next_id() == 0,
    {
        MdrResourceManager {
            mesh_library: ResourceLibrary::new(),
            material_library: ResourceLibrary::new(),
            texture_library: ResourceLibrary::new(),
            sampler_palette: Vec::new(),
            pending_uploads: Vec::new(),
            next_id: 0,
        }
    }

    /// The number of meshes in the mesh library.
    pub fn mesh_count(&self) -> (r: usize)
        requires
            self.wf(),
        ensures
            r == self.meshes().len(),
    {
        self.mesh_library.len()
    }

    /// The number of textures in the texture library.
    pub fn texture_count(&self) -> (r: usize)
        requires
            self.wf(),
        ensures
            r == self.textures().len(),
    {
        self.texture_library.len()
    }

    /// The number of materials in the material library.
    pub fn material_count(&self) -> (r: usize)
        requires
            self.wf(),
        ensures
            r == self.materials().len(),
    {
        self.material_library.len()
    }

    /// The number of cached samplers.
    pub fn sampler_count(&self) -> (r: usize)
        ensures
            r == self.sampler_palette().len(),
    {
        self.sampler_palette.len()
    }

    /// How many device object ids are left to draw.
    pub fn ids_left(&self) -> (r: u64)
        ensures
            r == u64::MAX - self.next_id(),
    {
        u64::MAX - self.next_id
    }

    /// Hands over all pending device work and leaves the queue empty.
    pub fn take_pending_uploads(&mut self) -> (r: Vec<MdrUpload>)
        requires
            old(self).wf(),
        ensures
            final(self).wf(),
            r@ == old(self).pending_uploads(),
            final(self).pending_uploads() == Seq::<MdrUpload>::empty(),
            final(self).meshes() == old(self).meshes(),
            final(self).textures() == old(self).textures(),
            final(self).materials() == old(self).materials(),
            final(self).sampler_palette() == old(self).sampler_palette(),
            final(self).next_id() == old(self).next_id(),
    {
        self.pending_uploads.split_off(0)
    }

    /// Appends one piece of device work to the pending queue.
    fn join_upload(&mut self, upload: MdrUpload)
        ensures
            final(self).pending_uploads() == old(self).pending_uploads().push(upload),
            final(self).mesh_library == old(self).mesh_library,
            final(self).texture_library == old(self).texture_library,
            final(self).material_library == old(self).material_library,
            final(self).sampler_palette == old(self).sampler_palette,
            final(self).next_id == old(self).next_id,
    {
        self.pending_uploads.push(upload);
    }

    /// Draws a fresh device object id.
    fn fresh_id(&mut self) -> (r: u64)
        requires
            old(self).next_id < u64::MAX,
        ensures
            r == old(self).next_id,
            final(self).next_id == old(self).next_id + 1,
            final(self).pending_uploads == old(self).pending_uploads,
            final(self).mesh_library == old(self).mesh_library,
            final(self).texture_library == old(self).texture_library,
            final(self).material_library == old(self).material_library,
            final(self).sampler_palette == old(self).sampler_palette,
    {
        let id = self.next_id;
        self.next_id = self.next_id + 1;
        id
    }

    /// The sampler for `mode`: the cached one if there is one, else a new one, which
    /// is cached and whose creation is queued.
    pub fn get_sampler(&mut self, mode: MdrSamplerMode) -> (r: u64)
        requires
            old(self).wf(),
            old(self).has_room(1),
        ensures
            final(self).wf(),
            get_sampler_post(*old(self), *final(self), mode, r),
    {
        let mut i: usize = self.sampler_palette.len();
        proof {
            assert(self.sampler_palette@.subrange(0, i as int) =~= self.sampler_palette@);
        }
        while i > 0
            invariant
                *self == *old(self),
                self.wf(),
                i <= self.sampler_palette@.len(),
                palette_lookup(self.sampler_palette@.subrange(0, i as int), mode)
                    == palette_lookup(self.sampler_palette@, mode),
            decreases i,
        {
            let slot = self.sampler_palette[i - 1];
            proof {
                let p = self.sampler_palette@.subrange(0, i as int);
                assert(p.drop_last() =~= self.sampler_palette@.subrange(0, i - 1));
                assert(p.last() == slot);
            }
            if slot.mode == mode {
                return slot.sampler;
            }
            i = i - 1;
        }
        proof {
            assert(self.sampler_palette@.subrange(0, 0) =~= Seq::<SamplerSlot>::empty());
            lemma_lookup_none(self.sampler_palette@, mode);
        }
        let sampler = self.fresh_id();
        let info = MdrSamplerCreateInfo {
            sampler,
            mag_filter: MdrFilter::Linear,
            min_filter: MdrFilter::Linear,
            address_mode: mode,
        };
        self.join_upload(MdrUpload::Sampler(info));
        let ghost before = self.sampler_palette@;
        self.sampler_palette.push(SamplerSlot { mode, sampler });
        proof {
            let p = self.sampler_palette@;
            assert(p.drop_last() =~= before);
            assert forall|a: int, b: int| 0 <= a < b < p.len() implies
                (#[trigger] p[a]).mode != (#[trigger] p[b]).mode by {
                if b == p.len() - 1 {
                    assert(p[a] == before[a]);
                } else {
                    assert(p[a] == before[a]);
                    assert(p[b] == before[b]);
                }
            }
        }
        sampler
    }
}


/// The handle of a mesh whose five buffers are numbered from `base`.
pub open spec fn mesh_handle_at(base: u64, index_count: nat) -> MdrGpuMeshHandle {
    MdrGpuMeshHandle {
        positions_chunk: base,
        normals_chunk: (base + 1) as u64,
        uvs_chunk: (base + 2) as u64,
        tangents_chunk: (base + 3) as u64,
        index_chunk: (base + 4) as u64,
        index_count: index_count as u32,
    }
}

/// What loading a mesh did, where `load_error` is the error for unusable geometry:
/// a taken name and unusable geometry are refused in that order, then a lack of
/// ids; on success the mesh is stored under `name` and its upload queued.
pub open spec fn mesh_load_post(
    pre: MdrResourceManager,
    post: MdrResourceManager,
    parsed: Option<MdrMeshData>,
    name: Seq<char>,
    load_error: MdrResourceError,
    r: Result<MdrMesh, MdrResourceError>,
) -> bool {
    if pre.meshes().contains_key(name) {
        r == Err::<MdrMesh, MdrResourceError>(MdrResourceError::DuplicateMeshName) && post == pre
    } else if !(parsed matches Some(d) && mesh_data_valid(d)) {
        r == Err::<MdrMesh, MdrResourceError>(load_error) && post == pre
    } else if !pre.has_room(5) {
        r == Err::<MdrMesh, MdrResourceError>(MdrResourceError::GpuUploadFailure) && post == pre
    } else {
        let d = parsed.unwrap();
        let h = mesh_handle_at(pre.next_id(), d.indices@.len());
        &&& r matches Ok(m) && m.name@ == name
        &&& post.meshes() == pre.meshes().insert(name, h)
        &&& post.pending_uploads() == pre.pending_uploads().push(
            MdrUpload::Mesh(MdrMeshUpload { handle: h, data: d }),
        )
        &&& post.next_id() == pre.next_id() + 5
        &&& post.textures() == pre.textures()
        &&& post.materials() == pre.materials()
        &&& post.sampler_palette() == pre.sampler_palette()
    }
}

/// Whether `d` is usable geometry.
pub fn check_mesh_data(d: &MdrMeshData) -> (r: bool)
    ensures
        r == mesh_data_valid(*d),
{
    let n = d.positions.len();
    if d.normals.len() != n || d.uvs.len() != n || d.tangents.len() != n {
        return false;
    }
    if d.indices.len() > 4294967295 {
        return false;
    }
    let mut i: usize = 0;
    while i < d.indices.len()
        invariant
            n == d.positions@.len(),
            i <= d.indices@.len(),
            forall|j: int| 0 <= j < i ==> #[trigger] d.indices@[j] < n,
        decreases d.indices@.len() - i,
    {
        if d.indices[i] as usize >= n {
            return false;
        }
        i = i + 1;
    }
    true
}

impl MdrResourceManager {
    /// Queues the upload of `mesh` into five fresh buffers and returns their handle.
    fn upload_mesh_to_gpu(&mut self, mesh: MdrMeshData) -> (r: MdrGpuMeshHandle)
        requires
            old(self).wf(),
            old(self).has_room(5),
            mesh.indices@.len() <= u32::MAX,
        ensures
            final(self).wf(),
            r == mesh_handle_at(old(self).next_id(), mesh.indices@.len()),
            final(self).pending_uploads() == old(self).pending_uploads().push(
                MdrUpload::Mesh(MdrMeshUpload { handle: r, data: mesh }),
            ),
            final(self).next_id() == old(self).next_id() + 5,
            final(self).mesh_library == old(self).mesh_library,
            final(self).texture_library == old(self).texture_library,
            final(self).material_library == old(self).material_library,
            final(self).sampler_palette == old(self).sampler_palette,
    {
        let index_count = mesh.indices.len() as u32;
        let positions_chunk = self.fresh_id();
        let normals_chunk = self.fresh_id();
        let uvs_chunk = self.fresh_id();
        let tangents_chunk = self.fresh_id();
        let index_chunk = self.fresh_id();
        let handle = MdrGpuMeshHandle {
            positions_chunk,
            normals_chunk,
            uvs_chunk,
            tangents_chunk,
            index_chunk,
            index_count,
        };
        self.join_upload(MdrUpload::Mesh(MdrMeshUpload { handle, data: mesh }));
        handle
    }

    fn add_mesh(
        &mut self,
        parsed: Option<MdrMeshData>,
        name: &str,
        load_error: MdrResourceError,
    ) -> (r: Result<MdrMesh, MdrResourceError>)
        requires
            old(self).wf(),
        ensures
            final(self).wf(),
            mesh_load_post(*old(self), *final(self), parsed, name@, load_error, r),
    {
        if self.mesh_library.contains(name) {
            return Err(MdrResourceError::DuplicateMeshName);
        }
        let mesh_data = match parsed {
            Some(d) => d,
            None => return Err(load_error),
        };
        if !check_mesh_data(&mesh_data) {
            return Err(load_error);
        }
        if self.next_id > u64::MAX - 5 {
            return Err(MdrResourceError::GpuUploadFailure);
        }
        let mesh_handle = self.upload_mesh_to_gpu(mesh_data);
        self.mesh_library.insert(name, mesh_handle);
        Ok(MdrMesh { name: name.to_owned() })
    }

    /// Stores geometry read from an .obj file in the mesh library under `name`;
    /// `parsed` is the reader's result, `None` where the file could not be read.
    pub fn load_mesh_obj(&mut self, parsed: Option<MdrMeshData>, name: &str) -> (r: Result<
        MdrMesh,
        MdrResourceError,
    >)
        requires
            old(self).wf(),
        ensures
            final(self).wf(),
            mesh_load_post(*old(self), *final(self), parsed, name@, MdrResourceError::ObjLoadError, r),
    {
        self.add_mesh(parsed, name, MdrResourceError::ObjLoadError)
    }

    /// Stores geometry read by a scene loader in the mesh library under `name`;
    /// `parsed` is the loader's result, `None` where the file could not be read.
    pub fn load_mesh(&mut self, parsed: Option<MdrMeshData>, name: &str) -> (r: Result<
        MdrMesh,
        MdrResourceError,
    >)
        requires
            old(self).wf(),
        ensures
            final(self).wf(),
            mesh_load_post(*old(self), *final(self), parsed, name@, MdrResourceError::AssimpLoadError, r),
    {
        self.add_mesh(parsed, name, MdrResourceError::AssimpLoadError)
    }

    /// A reference to the mesh `name`, which must be in the library.
    pub fn retrieve_mesh(&self, name: &str) -> (r: Result<MdrMesh, MdrResourceError>)
        requires
            self.wf(),
        ensures
            self.meshes().contains_key(name@) ==> (r matches Ok(m) && m.name@ == name@),
            !self.meshes().contains_key(name@) ==> r == Err::<MdrMesh, MdrResourceError>(
                MdrResourceError::MeshNotFound,
            ),
    {
        if !self.mesh_library.contains(name) {
            return Err(MdrResourceError::MeshNotFound);
        }
        Ok(MdrMesh { name: name.to_owned() })
    }

    /// Removes the mesh `name` and frees its buffers; an absent name changes nothing.
    pub fn unload_mesh(&mut self, name: &str)
        requires
            old(self).wf(),
        ensures
            final(self).wf(),
            final(self).meshes() == old(self).meshes().remove(name@),
            !old(self).meshes().contains_key(name@) ==> final(self).meshes() == old(self).meshes(),
            final(self).textures() == old(self).textures(),
            final(self).materials() == old(self).materials(),
            final(self).sampler_palette() == old(self).sampler_palette(),
            final(self).pending_uploads() == old(self).pending_uploads(),
            final(self).next_id() == old(self).next_id(),
    {
        self.mesh_library.remove(name);
        proof {
            if !old(self).meshes().contains_key(name@) {
                assert(old(self).meshes().remove(name@) =~= old(self).meshes());
            }
        }
    }

    /// The device handle of `mesh`, which must be in the library.
    pub fn get_mesh_handle(&self, mesh: &MdrMesh) -> (r: MdrGpuMeshHandle)
        requires
            self.wf(),
            self.meshes().contains_key(mesh.name@),
        ensures
            r == self.meshes()[mesh.name@],
    {
        self.mesh_library.get(mesh.name.as_str()).unwrap()
    }
}


/// `u` uploads, under the id `id`, a `width` by `height` image in `format` whose
/// bytes are `pixels`.
pub open spec fn is_image_upload(
    u: MdrUpload,
    id: u64,
    width: u32,
    height: u32,
    format: MdrFormat,
    pixels: Seq<u8>,
) -> bool {
    u matches MdrUpload::Image(i) && i.image_view == id && i.width == width && i.height == height
        && i.format == format && i.pixels@ == pixels
}

/// What uploading an image did: it took the sampler for `mode` from the cache or
/// made one, then queued the image in the format of its color tag, converted to
/// that format's layout, under a fresh id. `r` is the resulting texture handle.
/// The libraries are left to the caller.
pub open spec fn image_upload_post(
    pre: MdrResourceManager,
    post: MdrResourceManager,
    width: u32,
    height: u32,
    pixels: Seq<u8>,
    layout: MdrPixelLayout,
    color_type: MdrColorType,
    mode: MdrSamplerMode,
    r: MdrGpuTextureHandle,
) -> bool {
    let format = format_for(color_type);
    let queued = post.pending_uploads();
    &&& queued.len() > 0
    &&& is_image_upload(queued.last(), r.image_view, width, height, format, converted(pixels, layout, layout_of(format)))
    &&& r.image_view == post.next_id() - 1
    &&& match palette_lookup(pre.sampler_palette(), mode) {
        Some(s) => {
            &&& r.sampler == s
            &&& post.next_id() == pre.next_id() + 1
            &&& post.sampler_palette() == pre.sampler_palette()
            &&& queued.drop_last() == pre.pending_uploads()
        },
        None => {
            &&& r.sampler == pre.next_id()
            &&& post.next_id() == pre.next_id() + 2
            &&& post.sampler_palette() == pre.sampler_palette().push(SamplerSlot { mode, sampler: r.sampler })
            &&& queued.drop_last() == pre.pending_uploads().push(MdrUpload::Sampler(sampler_info(r.sampler, mode)))
        },
    }
}

/// What storing a decoded image as texture `name` did: a taken name, then a
/// missing or malformed image, then a lack of ids are refused; on success the
/// image is uploaded and its handle stored under `name`.
pub open spec fn texture_load_post(
    pre: MdrResourceManager,
    post: MdrResourceManager,
    decoded: Option<MdrImageData>,
    color_type: MdrColorType,
    mode: MdrSamplerMode,
    name: Seq<char>,
    r: Result<MdrTexture, MdrResourceError>,
) -> bool {
    if pre.textures().contains_key(name) {
        r == Err::<MdrTexture, MdrResourceError>(MdrResourceError::DuplicateTextureName) && post == pre
    } else if !(decoded matches Some(img) && img.wf()) {
        r == Err::<MdrTexture, MdrResourceError>(MdrResourceError::ImageLoadError) && post == pre
    } else if !pre.has_room(2) {
        r == Err::<MdrTexture, MdrResourceError>(MdrResourceError::GpuUploadFailure) && post == pre
    } else {
        let img = decoded.unwrap();
        texture_stored(pre, post, img.width, img.height, img.pixels@, img.layout, color_type, mode, name, r)
    }
}

/// A successful texture creation: `r` names `name`, whose handle is new in the
/// library and is the result of the image upload; nothing else changed.
pub open spec fn texture_stored(
    pre: MdrResourceManager,
    post: MdrResourceManager,
    width: u32,
    height: u32,
    pixels: Seq<u8>,
    layout: MdrPixelLayout,
    color_type: MdrColorType,
    mode: MdrSamplerMode,
    name: Seq<char>,
    r: Result<MdrTexture, MdrResourceError>,
) -> bool {
    &&& r matches Ok(t) && t.name@ == name
    &&& post.textures().contains_key(name)
    &&& post.textures() == pre.textures().insert(name, post.textures()[name])
    &&& image_upload_post(pre, post, width, height, pixels, layout, color_type, mode, post.textures()[name])
    &&& post.meshes() == pre.meshes()
    &&& post.materials() == pre.materials()
}

impl MdrResourceManager {
    /// Queues the upload of `image` in the format of `color_type`, with the sampler
    /// for `mode`, and returns the texture handle.
    fn upload_image_to_gpu(
        &mut self,
        image: MdrImageData,
        color_type: MdrColorType,
        mode: MdrSamplerMode,
    ) -> (r: MdrGpuTextureHandle)
        requires
            old(self).wf(),
            old(self).has_room(2),
            image.wf(),
        ensures
            final(self).wf(),
            image_upload_post(*old(self), *final(self), image.width, image.height, image.pixels@, image.layout, color_type, mode, r),
            final(self).meshes() == old(self).meshes(),
            final(self).textures() == old(self).textures(),
            final(self).materials() == old(self).materials(),
    {
        let ghost pre = *self;
        let sampler = self.get_sampler(mode);
        let ghost mid = *self;
        let format = select_format(color_type);
        let width = image.width;
        let height = image.height;
        let pixels = convert_pixels(image, layout_for_format(format));
        let image_view = self.fresh_id();
        let upload = MdrUpload::Image(MdrImageUpload { image_view, width, height, format, pixels });
        self.join_upload(upload);
        proof {
            assert(self.pending_uploads@.drop_last() =~= mid.pending_uploads@);
            assert(self.pending_uploads@.last() == upload);
        }
        MdrGpuTextureHandle { image_view, sampler }
    }

    /// Stores the image decoded from `texture_create_info.source` as texture `name`,
    /// read as `texture_create_info` says; `decoded` is `None` where the source could
    /// not be read or decoded.
    pub fn load_texture(
        &mut self,
        texture_create_info: MdrTextureCreateInfo,
        decoded: Option<MdrImageData>,
        name: &str,
    ) -> (r: Result<MdrTexture, MdrResourceError>)
        requires
            old(self).wf(),
        ensures
            final(self).wf(),
            texture_load_post(*old(self), *final(self), decoded, texture_create_info.color_type, texture_create_info.sampler_mode, name@, r),
    {
        if self.texture_library.contains(name) {
            return Err(MdrResourceError::DuplicateTextureName);
        }
        let image = match decoded {
            Some(img) => img,
            None => return Err(MdrResourceError::ImageLoadError),
        };
        if !image_is_well_formed(&image) {
            return Err(MdrResourceError::ImageLoadError);
        }
        if self.next_id > u64::MAX - 2 {
            return Err(MdrResourceError::GpuUploadFailure);
        }
        let texture_handle = self.upload_image_to_gpu(
            image,
            texture_create_info.color_type,
            texture_create_info.sampler_mode,
        );
        self.texture_library.insert(name, texture_handle);
        Ok(MdrTexture { name: name.to_owned() })
    }

    /// Creates a one-pixel texture of `color` under `name`, read as display color
    /// and clamped at the edges.
    pub fn create_solid_texture(&mut self, color: MdrColor, name: &str) -> (r: Result<
        MdrTexture,
        MdrResourceError,
    >)
        requires
            old(self).wf(),
        ensures
            final(self).wf(),
            old(self).textures().contains_key(name@) ==> r == Err::<MdrTexture, MdrResourceError>(
                MdrResourceError::DuplicateTextureName,
            ) && *final(self) == *old(self),
            !old(self).textures().contains_key(name@) && !old(self).has_room(2) ==> r == Err::<
                MdrTexture,
                MdrResourceError,
            >(MdrResourceError::GpuUploadFailure) && *final(self) == *old(self),
            !old(self).textures().contains_key(name@) && old(self).has_room(2) ==> texture_stored(
                *old(self),
                *final(self),
                1,
                1,
                solid_pixels(color),
                solid_layout(color),
                color_type_of(color),
                MdrSamplerMode::ClampToEdge,
                name@,
                r,
            ),
    {
        if self.texture_library.contains(name) {
            return Err(MdrResourceError::DuplicateTextureName);
        }
        if self.next_id > u64::MAX - 2 {
            return Err(MdrResourceError::GpuUploadFailure);
        }
        let image = MdrImageData::solid(color);
        let texture_handle = self.upload_image_to_gpu(
            image,
            MdrColorType::from(color),
            MdrSamplerMode::ClampToEdge,
        );
        self.texture_library.insert(name, texture_handle);
        Ok(MdrTexture { name: name.to_owned() })
    }

    /// A reference to the texture `name`, which must be in the library.
    pub fn retrieve_texture(&self, name: &str) -> (r: Result<MdrTexture, MdrResourceError>)
        requires
            self.wf(),
        ensures
            self.textures().contains_key(name@) ==> (r matches Ok(t) && t.name@ == name@),
            !self.textures().contains_key(name@) ==> r == Err::<MdrTexture, MdrResourceError>(
                MdrResourceError::TextureNotFound,
            ),
    {
        if !self.texture_library.contains(name) {
            return Err(MdrResourceError::TextureNotFound);
        }
        Ok(MdrTexture { name: name.to_owned() })
    }

    /// Removes the texture `name` and frees its image; an absent name changes
    /// nothing. Materials keep their own copies of the handle.
    pub fn unload_texture(&mut self, name: &str)
        requires
            old(self).wf(),
        ensures
            final(self).wf(),
            final(self).textures() == old(self).textures().remove(name@),
            !old(self).textures().contains_key(name@) ==> final(self).textures() == old(self).textures(),
            final(self).meshes() == old(self).meshes(),
            final(self).materials() == old(self).materials(),
            final(self).sampler_palette() == old(self).sampler_palette(),
            final(self).pending_uploads() == old(self).pending_uploads(),
            final(self).next_id() == old(self).next_id(),
    {
        self.texture_library.remove(name);
        proof {
            if !old(self).textures().contains_key(name@) {
                assert(old(self).textures().remove(name@) =~= old(self).textures());
            }
        }
    }
}


/// What creating material `name` did: a taken name, then any of the three maps
/// missing from the texture library, then a lack of ids are refused; on success
/// the uniform block is queued for upload and the material, holding copies of the
/// three texture handles, is stored under `name`.
pub open spec fn material_create_post(
    pre: MdrResourceManager,
    post: MdrResourceManager,
    info: MdrMaterialCreateInfo,
    name: Seq<char>,
    r: Result<MdrMaterial, MdrResourceError>,
) -> bool {
    let t = pre.textures();
    if pre.materials().contains_key(name) {
        r == Err::<MdrMaterial, MdrResourceError>(MdrResourceError::DuplicateMaterialName) && post == pre
    } else if !(t.contains_key(info.diffuse.name@) && t.contains_key(info.roughness.name@)
        && t.contains_key(info.normal.name@)) {
        r == Err::<MdrMaterial, MdrResourceError>(MdrResourceError::TextureNotFound) && post == pre
    } else if !pre.has_room(1) {
        r == Err::<MdrMaterial, MdrResourceError>(MdrResourceError::GpuUploadFailure) && post == pre
    } else {
        let h = MdrGpuMaterialHandle {
            material_data: pre.next_id(),
            diffuse_map: t[info.diffuse.name@],
            roughness_map: t[info.roughness.name@],
            normal_map: t[info.normal.name@],
        };
        let uniforms = MdrMaterialUniformData {
            specular_color: info.specular_color,
            shininess_bits: info.shininess_bits,
        };
        &&& r matches Ok(m) && m.name@ == name
        &&& post.materials() == pre.materials().insert(name, h)
        &&& post.pending_uploads() == pre.pending_uploads().push(
            MdrUpload::Material(MdrMaterialUpload { buffer: pre.next_id(), uniforms }),
        )
        &&& post.next_id() == pre.next_id() + 1
        &&& post.meshes() == pre.meshes()
        &&& post.textures() == pre.textures()
        &&& post.sampler_palette() == pre.sampler_palette()
    }
}

impl MdrResourceManager {
    /// Queues the upload of a material's uniform block into a fresh buffer and
    /// returns the material handle holding it and the three maps.
    fn upload_material_to_gpu(
        &mut self,
        material_uniforms: MdrMaterialUniformData,
        diffuse_map: MdrGpuTextureHandle,
        roughness_map: MdrGpuTextureHandle,
        normal_map: MdrGpuTextureHandle,
    ) -> (r: MdrGpuMaterialHandle)
        requires
            old(self).wf(),
            old(self).has_room(1),
        ensures
            final(self).wf(),
            r == (MdrGpuMaterialHandle {
                material_data: old(self).next_id(),
                diffuse_map,
                roughness_map,
                normal_map,
            }),
            final(self).pending_uploads() == old(self).pending_uploads().push(
                MdrUpload::Material(MdrMaterialUpload { buffer: old(self).next_id(), uniforms: material_uniforms }),
            ),
            final(self).next_id() == old(self).next_id() + 1,
            final(self).mesh_library == old(self).mesh_library,
            final(self).texture_library == old(self).texture_library,
            final(self).material_library == old(self).material_library,
            final(self).sampler_palette == old(self).sampler_palette,
    {
        let material_data = self.fresh_id();
        self.join_upload(
            MdrUpload::Material(MdrMaterialUpload { buffer: material_data, uniforms: material_uniforms }),
        );
        MdrGpuMaterialHandle { material_data, diffuse_map, roughness_map, normal_map }
    }

    /// Creates material `name` from `material_create_info`, whose three maps must
    /// already be in the texture library.
    pub fn create_material(
        &mut self,
        material_create_info: MdrMaterialCreateInfo,
        name: &str,
    ) -> (r: Result<MdrMaterial, MdrResourceError>)
        requires
            old(self).wf(),
        ensures
            final(self).wf(),
            material_create_post(*old(self), *final(self), material_create_info, name@, r),
    {
        if self.material_library.contains(name) {
            return Err(MdrResourceError::DuplicateMaterialName);
        }
        let material = MdrMaterialUniformData {
            specular_color: material_create_info.specular_color,
            shininess_bits: material_create_info.shininess_bits,
        };
        let diffuse_map = match self.texture_library.get(material_create_info.diffuse.name.as_str()) {
            Some(texture) => texture,
            None => return Err(MdrResourceError::TextureNotFound),
        };
        let roughness_map = match self.texture_library.get(material_create_info.roughness.name.as_str()) {
            Some(texture) => texture,
            None => return Err(MdrResourceError::TextureNotFound),
        };
        let normal_map = match self.texture_library.get(material_create_info.normal.name.as_str()) {
            Some(texture) => texture,
            None => return Err(MdrResourceError::TextureNotFound),
        };
        if self.next_id > u64::MAX - 1 {
            return Err(MdrResourceError::GpuUploadFailure);
        }
        let material_handle = self.upload_material_to_gpu(material, diffuse_map, roughness_map, normal_map);
        self.material_library.insert(name, material_handle);
        Ok(MdrMaterial { name: name.to_owned() })
    }

    /// A reference to the material `name`, which must be in the library.
    pub fn retrieve_material(&self, name: &str) -> (r: Result<MdrMaterial, MdrResourceError>)
        requires
            self.wf(),
        ensures
            self.materials().contains_key(name@) ==> (r matches Ok(m) && m.name@ == name@),
            !self.materials().contains_key(name@) ==> r == Err::<MdrMaterial, MdrResourceError>(
                MdrResourceError::MaterialNotFound,
            ),
    {
        if !self.material_library.contains(name) {
            return Err(MdrResourceError::MaterialNotFound);
        }
        Ok(MdrMaterial { name: name.to_owned() })
    }

    /// Removes the material `name` and frees its uniform buffer; an absent name
    /// changes nothing.
    pub fn unload_material(&mut self, name: &str)
        requires
            old(self).wf(),
        ensures
            final(self).wf(),
            final(self).materials() == old(self).materials().remove(name@),
            !old(self).materials().contains_key(name@) ==> final(self).materials() == old(self).materials(),
            final(self).meshes() == old(self).meshes(),
            final(self).textures() == old(self).textures(),
            final(self).sampler_palette() == old(self).sampler_palette(),
            final(self).pending_uploads() == old(self).pending_uploads(),
            final(self).next_id() == old(self).next_id(),
    {
        self.material_library.remove(name);
        proof {
            if !old(self).materials().contains_key(name@) {
                assert(old(self).materials().remove(name@) =~= old(self).materials());
            }
        }
    }

    /// The device handle of `mat`, which must be in the library.
    pub fn get_material_handle(&self, mat: &MdrMaterial) -> (r: MdrGpuMaterialHandle)
        requires
            self.wf(),
            self.materials().contains_key(mat.name@),
        ensures
            r == self.materials()[mat.name@],
    {
        self.material_library.get(mat.name.as_str()).unwrap()
    }
}

/// What a call of `get_sampler(mode)` that returned `r` did: it returned the cached
/// sampler and changed nothing, or drew a fresh id, cached it for `mode` and queued
/// its creation.
pub open spec fn get_sampler_post(
    pre: MdrResourceManager,
    post: MdrResourceManager,
    mode: MdrSamplerMode,
    r: u64,
) -> bool {
    match palette_lookup(pre.sampler_palette(), mode) {
        Some(s) => r == s && post == pre,
        None => {
            &&& r == pre.next_id()
            &&& post.next_id() == pre.next_id() + 1
            &&& post.sampler_palette() == pre.sampler_palette().push(SamplerSlot { mode, sampler: r })
            &&& post.pending_uploads() == pre.pending_uploads().push(MdrUpload::Sampler(sampler_info(r, mode)))
            &&& post.meshes() == pre.meshes()
            &&& post.textures() == pre.textures()
            &&& post.materials() == pre.materials()
        },
    }
}

/// No two cached samplers share a mode, so the cache holds at most one sampler
/// per mode ever requested, and never more than there are modes.
pub proof fn lemma_sampler_palette_bounded(m: MdrResourceManager)
    requires
        m.wf(),
    ensures
        palette_distinct(m.sampler_palette()),
        m.sampler_palette().len() <= 2,
{
    let p = m.sampler_palette();
    if p.len() > 2 {
        assert(p[0].mode != p[1].mode);
        assert(p[0].mode != p[2].mode);
        assert(p[1].mode != p[2].mode);
    }
}

} // verus!
