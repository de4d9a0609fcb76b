use mdr_engine::pixels::{MdrColor, MdrColorType, MdrFormat, MdrImageData, MdrPixelLayout, MdrRgb, MdrRgba};
use mdr_engine::resources::{
    MdrMaterialCreateInfo, MdrMeshData, MdrResourceError, MdrResourceManager, MdrSamplerMode,
    MdrTexture, MdrTextureCreateInfo, MdrUpload,
};

fn triangle() -> MdrMeshData {
    MdrMeshData {
        positions: vec![[0, 0, 0], [1, 0, 0], [0, 1, 0]],
        normals: vec![[0, 0, 1]; 3],
        uvs: vec![[0, 0]; 3],
        tangents: vec![[1, 0, 0]; 3],
        indices: vec![0, 1, 2],
    }
}

fn info(color_type: MdrColorType, sampler_mode: MdrSamplerMode) -> MdrTextureCreateInfo {
    MdrTextureCreateInfo { source: String::from("albedo.png"), color_type, sampler_mode }
}

fn material_info(diffuse: &str, roughness: &str, normal: &str) -> MdrMaterialCreateInfo {
    MdrMaterialCreateInfo {
        specular_color: MdrRgb { r: 255, g: 255, b: 255 },
        shininess_bits: 0x4200_0000,
        diffuse: MdrTexture { name: String::from(diffuse) },
        roughness: MdrTexture { name: String::from(roughness) },
        normal: MdrTexture { name: String::from(normal) },
    }
}

fn last_image(m: &mut MdrResourceManager) -> (u64, u32, u32, MdrFormat, Vec<u8>) {
    let uploads = m.take_pending_uploads();
    match uploads.last() {
        Some(MdrUpload::Image(u)) => (u.image_view, u.width, u.height, u.format, u.pixels.clone()),
        _ => panic!("no image upload"),
    }
}

#[test]
fn load_mesh_then_retrieve() {
    let mut m = MdrResourceManager::new();
    let mesh = m.load_mesh(Some(triangle()), "tri").unwrap();
    assert_eq!(mesh.name, "tri");
    let again = m.retrieve_mesh("tri").unwrap();
    assert_eq!(again.name, "tri");
    let handle = m.get_mesh_handle(&again);
    assert_eq!(handle.index_count, 3);
    assert_eq!(m.mesh_count(), 1);
}

#[test]
fn mesh_upload_is_queued_with_five_buffers() {
    let mut m = MdrResourceManager::new();
    let mesh = m.load_mesh_obj(Some(triangle()), "tri").unwrap();
    let handle = m.get_mesh_handle(&mesh);
    assert_eq!(
        [handle.positions_chunk, handle.normals_chunk, handle.uvs_chunk, handle.tangents_chunk, handle.index_chunk],
        [0, 1, 2, 3, 4]
    );
    let uploads = m.take_pending_uploads();
    assert_eq!(uploads.len(), 1);
    match &uploads[0] {
        MdrUpload::Mesh(u) => {
            assert_eq!(u.handle, handle);
            assert_eq!(u.data.indices, vec![0, 1, 2]);
        }
        _ => panic!("expected a mesh upload"),
    }
    assert!(m.take_pending_uploads().is_empty());
    assert_eq!(m.ids_left(), u64::MAX - 5);
}

#[test]
fn duplicate_mesh_keeps_original() {
    let mut m = MdrResourceManager::new();
    let first = m.load_mesh(Some(triangle()), "tri").unwrap();
    let before = m.get_mesh_handle(&first);
    let mut bigger = triangle();
    bigger.indices = vec![0, 1, 2, 2, 1, 0];
    assert_eq!(m.load_mesh(Some(bigger), "tri").unwrap_err(), MdrResourceError::DuplicateMeshName);
    let after = m.get_mesh_handle(&m.retrieve_mesh("tri").unwrap());
    assert_eq!(before, after);
    assert_eq!(after.index_count, 3);
    assert_eq!(m.mesh_count(), 1);
}

#[test]
fn mesh_load_errors() {
    let mut m = MdrResourceManager::new();
    assert_eq!(m.load_mesh_obj(None, "a").unwrap_err(), MdrResourceError::ObjLoadError);
    assert_eq!(m.load_mesh(None, "a").unwrap_err(), MdrResourceError::AssimpLoadError);
    let mut out_of_range = triangle();
    out_of_range.indices = vec![0, 1, 3];
    assert_eq!(m.load_mesh_obj(Some(out_of_range), "a").unwrap_err(), MdrResourceError::ObjLoadError);
    let mut short_normals = triangle();
    short_normals.normals.pop();
    assert_eq!(m.load_mesh(Some(short_normals), "a").unwrap_err(), MdrResourceError::AssimpLoadError);
    assert_eq!(m.mesh_count(), 0);
    assert!(m.take_pending_uploads().is_empty());
}

#[test]
fn unload_mesh_absent_and_present() {
    let mut m = MdrResourceManager::new();
    m.load_mesh(Some(triangle()), "tri").unwrap();
    m.unload_mesh("missing");
    assert_eq!(m.mesh_count(), 1);
    m.unload_mesh("tri");
    assert_eq!(m.mesh_count(), 0);
    assert_eq!(m.retrieve_mesh("tri").unwrap_err(), MdrResourceError::MeshNotFound);
}

#[test]
fn retrieve_missing_resources() {
    let m = MdrResourceManager::new();
    assert_eq!(m.retrieve_mesh("x").unwrap_err(), MdrResourceError::MeshNotFound);
    assert_eq!(m.retrieve_texture("x").unwrap_err(), MdrResourceError::TextureNotFound);
    assert_eq!(m.retrieve_material("x").unwrap_err(), MdrResourceError::MaterialNotFound);
}

#[test]
fn solid_red_texture_round_trip() {
    let mut m = MdrResourceManager::new();
    let red = MdrColor::RGB(MdrRgb { r: 255, g: 0, b: 0 });
    let t = m.create_solid_texture(red, "red").unwrap();
    assert_eq!(t.name, "red");
    let (view, w, h, format, pixels) = last_image(&mut m);
    assert_eq!((w, h), (1, 1));
    assert_eq!(format, MdrFormat::R8G8B8_SRGB);
    assert_eq!(pixels, vec![255, 0, 0]);
    assert_eq!(view, 1);
    assert_eq!(m.retrieve_texture("red").unwrap().name, "red");
}

#[test]
fn solid_rgba_texture_keeps_alpha() {
    let mut m = MdrResourceManager::new();
    let c = MdrColor::RGBA(MdrRgba { r: 10, g: 20, b: 30, a: 40 });
    m.create_solid_texture(c, "glass").unwrap();
    let (_, _, _, format, pixels) = last_image(&mut m);
    assert_eq!(format, MdrFormat::R8G8B8A8_SRGB);
    assert_eq!(pixels, vec![10, 20, 30, 40]);
}

#[test]
fn data_texture_from_rgb_is_widened() {
    let mut m = MdrResourceManager::new();
    let img = MdrImageData { width: 2, height: 1, layout: MdrPixelLayout::Rgb8, pixels: vec![1, 2, 3, 4, 5, 6] };
    m.load_texture(info(MdrColorType::NonColorData, MdrSamplerMode::Repeat), Some(img), "normal").unwrap();
    let (_, w, h, format, pixels) = last_image(&mut m);
    assert_eq!((w, h), (2, 1));
    assert_eq!(format, MdrFormat::R8G8B8A8_UNORM);
    assert_eq!(pixels, vec![1, 2, 3, 255, 4, 5, 6, 255]);
}

#[test]
fn display_texture_without_alpha_drops_alpha() {
    let mut m = MdrResourceManager::new();
    let img = MdrImageData { width: 1, height: 2, layout: MdrPixelLayout::Rgba8, pixels: vec![1, 2, 3, 4, 5, 6, 7, 8] };
    m.load_texture(info(MdrColorType::SRGB, MdrSamplerMode::Repeat), Some(img), "albedo").unwrap();
    let (_, _, _, format, pixels) = last_image(&mut m);
    assert_eq!(format, MdrFormat::R8G8B8_SRGB);
    assert_eq!(pixels, vec![1, 2, 3, 5, 6, 7]);
}

#[test]
fn texture_load_errors() {
    let mut m = MdrResourceManager::new();
    assert_eq!(
        m.load_texture(info(MdrColorType::SRGBA, MdrSamplerMode::Repeat), None, "a").unwrap_err(),
        MdrResourceError::ImageLoadError
    );
    let bad = MdrImageData { width: 2, height: 2, layout: MdrPixelLayout::Rgba8, pixels: vec![0; 15] };
    assert_eq!(
        m.load_texture(info(MdrColorType::SRGBA, MdrSamplerMode::Repeat), Some(bad), "a").unwrap_err(),
        MdrResourceError::ImageLoadError
    );
    assert_eq!(m.texture_count(), 0);
    assert!(m.take_pending_uploads().is_empty());
}

#[test]
fn duplicate_texture_keeps_original() {
    let mut m = MdrResourceManager::new();
    m.create_solid_texture(MdrColor::RGB(MdrRgb { r: 1, g: 2, b: 3 }), "t").unwrap();
    m.take_pending_uploads();
    let err = m.create_solid_texture(MdrColor::RGB(MdrRgb { r: 9, g: 9, b: 9 }), "t").unwrap_err();
    assert_eq!(err, MdrResourceError::DuplicateTextureName);
    let img = MdrImageData { width: 1, height: 1, layout: MdrPixelLayout::Rgb8, pixels: vec![0, 0, 0] };
    let err = m.load_texture(info(MdrColorType::SRGB, MdrSamplerMode::Repeat), Some(img), "t").unwrap_err();
    assert_eq!(err, MdrResourceError::DuplicateTextureName);
    assert!(m.take_pending_uploads().is_empty());
    assert_eq!(m.texture_count(), 1);
}

#[test]
fn sampler_reused_per_mode() {
    let mut m = MdrResourceManager::new();
    let a = m.get_sampler(MdrSamplerMode::Repeat);
    let b = m.get_sampler(MdrSamplerMode::Repeat);
    assert_eq!(a, b);
    assert_eq!(m.sampler_count(), 1);
    let c = m.get_sampler(MdrSamplerMode::ClampToEdge);
    assert_ne!(a, c);
    assert_eq!(m.get_sampler(MdrSamplerMode::ClampToEdge), c);
    assert_eq!(m.sampler_count(), 2);
    let samplers = m
        .take_pending_uploads()
        .iter()
        .filter(|u| matches!(u, MdrUpload::Sampler(_)))
        .count();
    assert_eq!(samplers, 2);
}

#[test]
fn textures_share_cached_sampler() {
    let mut m = MdrResourceManager::new();
    m.create_solid_texture(MdrColor::RGB(MdrRgb { r: 1, g: 1, b: 1 }), "a").unwrap();
    m.create_solid_texture(MdrColor::RGB(MdrRgb { r: 2, g: 2, b: 2 }), "b").unwrap();
    assert_eq!(m.sampler_count(), 1);
    m.create_material(material_info("a", "b", "a"), "mat").unwrap();
    let handle = m.get_material_handle(&m.retrieve_material("mat").unwrap());
    assert_eq!(handle.diffuse_map.sampler, handle.roughness_map.sampler);
    assert_ne!(handle.diffuse_map.image_view, handle.roughness_map.image_view);
}

#[test]
fn material_with_missing_texture() {
    let mut m = MdrResourceManager::new();
    m.create_solid_texture(MdrColor::RGB(MdrRgb { r: 1, g: 1, b: 1 }), "a").unwrap();
    for (d, r, n) in [("x", "a", "a"), ("a", "x", "a"), ("a", "a", "x")] {
        let err = m.create_material(material_info(d, r, n), "mat").unwrap_err();
        assert_eq!(err, MdrResourceError::TextureNotFound);
        assert_eq!(m.material_count(), 0);
    }
}

#[test]
fn material_create_retrieve_unload() {
    let mut m = MdrResourceManager::new();
    m.create_solid_texture(MdrColor::RGB(MdrRgb { r: 1, g: 1, b: 1 }), "white").unwrap();
    m.take_pending_uploads();
    let mat = m.create_material(material_info("white", "white", "white"), "plain").unwrap();
    assert_eq!(mat.name, "plain");
    let handle = m.get_material_handle(&mat);
    let uploads = m.take_pending_uploads();
    assert_eq!(uploads.len(), 1);
    match &uploads[0] {
        MdrUpload::Material(u) => {
            assert_eq!(u.buffer, handle.material_data);
            assert_eq!(u.uniforms.specular_color, MdrRgb { r: 255, g: 255, b: 255 });
            assert_eq!(u.uniforms.shininess_bits, 0x4200_0000);
        }
        _ => panic!("expected a material upload"),
    }
    let err = m.create_material(material_info("white", "white", "white"), "plain").unwrap_err();
    assert_eq!(err, MdrResourceError::DuplicateMaterialName);
    assert_eq!(m.get_material_handle(&m.retrieve_material("plain").unwrap()), handle);

    m.unload_texture("white");
    assert_eq!(m.retrieve_texture("white").unwrap_err(), MdrResourceError::TextureNotFound);
    assert_eq!(m.get_material_handle(&mat), handle);

    m.unload_material("absent");
    assert_eq!(m.material_count(), 1);
    m.unload_material("plain");
    assert_eq!(m.retrieve_material("plain").unwrap_err(), MdrResourceError::MaterialNotFound);
    m.unload_texture("white");
    assert_eq!(m.texture_count(), 0);
}

#[test]
fn many_names_resolve_independently() {
    let mut m = MdrResourceManager::new();
    for i in 0..40u8 {
        let name = format!("tex{}", i);
        m.create_solid_texture(MdrColor::RGB(MdrRgb { r: i, g: 0, b: 0 }), &name).unwrap();
    }
    assert_eq!(m.texture_count(), 40);
    for i in (0..40u8).step_by(2) {
        m.unload_texture(&format!("tex{}", i));
    }
    assert_eq!(m.texture_count(), 20);
    for i in 0..40u8 {
        let found = m.retrieve_texture(&format!("tex{}", i)).is_ok();
        assert_eq!(found, i % 2 == 1);
    }
    assert_eq!(m.retrieve_texture("tex").unwrap_err(), MdrResourceError::TextureNotFound);
}
