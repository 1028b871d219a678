use desert_shooter_engine::gpu::{find_memory_type, GpuMesh, GpuTexture, MeshCache, TextureData};

fn mesh(id: u64) -> GpuMesh {
    GpuMesh { vertex_count: 24, index_count: 36, gpu_id: id, albedo_tex: None }
}

#[test]
fn cache_read_after_write() {
    let mut c = MeshCache::default();
    assert!(!c.contains_key("cube_255_0_0"));
    assert!(c.get("cube_255_0_0").is_none());
    c.insert("cube_255_0_0".to_string(), mesh(7));
    c.insert("sphere_0_0_255".to_string(), mesh(9));
    assert!(c.contains_key("cube_255_0_0"));
    assert_eq!(c.get("cube_255_0_0").unwrap().gpu_id, 7);
    assert_eq!(c.get("sphere_0_0_255").unwrap().gpu_id, 9);
    c.insert("cube_255_0_0".to_string(), mesh(11));
    assert_eq!(c.get("cube_255_0_0").unwrap().gpu_id, 11);
    assert_eq!(c.get("sphere_0_0_255").unwrap().gpu_id, 9);
    assert!(c.get("plane").is_none());
}

#[test]
fn plain_gpu_records() {
    let t = GpuTexture { gpu_id: 3, width: 64, height: 32 };
    assert_eq!(t.width * t.height, 2048);
    let d = TextureData { width: 2, height: 2, pixels: vec![0u8; 16] };
    assert_eq!(d.pixels.len() as u32, d.width * d.height * 4);
    let m = GpuMesh { vertex_count: 3, index_count: 3, gpu_id: 1, albedo_tex: Some(5) };
    assert_eq!(m.albedo_tex, Some(5));
}

#[test]
fn memory_type_search() {
    let flags = vec![0b001u32, 0b110, 0b111];
    assert_eq!(find_memory_type(0b111, &flags, 0b110), Some(1));
    assert_eq!(find_memory_type(0b110, &flags, 0b001), Some(2));
    assert_eq!(find_memory_type(0b001, &flags, 0b110), None);
    assert_eq!(find_memory_type(0b100, &flags, 0), Some(2));
    assert_eq!(find_memory_type(0, &flags, 0), None);
    assert_eq!(find_memory_type(u32::MAX, &Vec::new(), 0), None);
}
