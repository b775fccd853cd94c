use bevy_luna::scene::proxy::{
    make_raytracing_proxy_mesh, proxy_tag_step, proxy_tag_step_for, widen_indices, MeshIndices,
    MeshSourceKey, PrimitiveTopology, ProxyTagStep, ProxyTangents, RaytraceProxyMeshes, SourceMesh,
};

fn triangle(indices: Option<MeshIndices>) -> SourceMesh<Vec<Vec<f32>>> {
    SourceMesh {
        primitive_topology: PrimitiveTopology::TriangleList,
        asset_usage: 0b11,
        position: Some(vec![vec![0.0, 0.0, 0.0], vec![1.0, 0.0, 0.0], vec![0.0, 1.0, 0.0]]),
        normal: Some(vec![vec![0.0, 0.0, 1.0], vec![0.0, 0.0, 1.0], vec![0.0, 0.0, 1.0]]),
        uv_0: Some(vec![vec![0.0, 0.0], vec![1.0, 0.0], vec![0.0, 1.0]]),
        tangent: None,
        indices,
    }
}

#[test]
fn proxy_mesh_enables_raytracing_and_upgrades_indices() {
    let mesh = triangle(Some(MeshIndices::U16(vec![0, 1, 2])));
    let proxy = make_raytracing_proxy_mesh(mesh).expect("proxy mesh should be generated");
    assert!(proxy.enable_raytracing);
    assert!(matches!(proxy.indices, MeshIndices::U32(_)));
}

#[test]
fn proxy_keeps_source_data() {
    let proxy = make_raytracing_proxy_mesh(triangle(Some(MeshIndices::U16(vec![2, 1, 0, 65535]))))
        .expect("proxy");
    match proxy.indices {
        MeshIndices::U32(values) => assert_eq!(values, vec![2, 1, 0, 65535]),
        MeshIndices::U16(_) => panic!("indices were not widened"),
    }
    assert_eq!(proxy.primitive_topology, PrimitiveTopology::TriangleList);
    assert_eq!(proxy.asset_usage, 0b11);
    assert!(matches!(proxy.tangents, ProxyTangents::Generate));
    assert_eq!(proxy.uv_0, vec![vec![0.0, 0.0], vec![1.0, 0.0], vec![0.0, 1.0]]);

    let mut with_tangents = triangle(Some(MeshIndices::U32(vec![0, 1, 2])));
    with_tangents.tangent = Some(vec![vec![1.0, 0.0, 0.0, 1.0]; 3]);
    let proxy = make_raytracing_proxy_mesh(with_tangents).expect("proxy");
    match proxy.tangents {
        ProxyTangents::Copied(values) => {
            assert_eq!(values, vec![vec![1.0, 0.0, 0.0, 1.0]; 3])
        }
        ProxyTangents::Generate => panic!("tangents were not copied"),
    }
}

#[test]
fn proxy_needs_triangles_attributes_and_indices() {
    assert!(make_raytracing_proxy_mesh(triangle(None)).is_none());
    let mut strip = triangle(Some(MeshIndices::U16(vec![0, 1, 2])));
    strip.primitive_topology = PrimitiveTopology::TriangleStrip;
    assert!(make_raytracing_proxy_mesh(strip).is_none());
    let mut no_normals = triangle(Some(MeshIndices::U16(vec![0, 1, 2])));
    no_normals.normal = None;
    assert!(make_raytracing_proxy_mesh(no_normals).is_none());
    let mut no_uvs = triangle(Some(MeshIndices::U16(vec![0, 1, 2])));
    no_uvs.uv_0 = None;
    assert!(make_raytracing_proxy_mesh(no_uvs).is_none());
    let mut no_positions = triangle(Some(MeshIndices::U16(vec![0, 1, 2])));
    no_positions.position = None;
    assert!(make_raytracing_proxy_mesh(no_positions).is_none());
}

#[test]
fn widening_keeps_index_values() {
    assert_eq!(widen_indices(&MeshIndices::U16(vec![7, 0, 65535])), vec![7, 0, 65535]);
    assert_eq!(widen_indices(&MeshIndices::U32(vec![70000, 3])), vec![70000, 3]);
    assert!(widen_indices(&MeshIndices::U16(vec![])).is_empty());
}

#[test]
fn proxies_are_built_once_per_source() {
    assert_eq!(proxy_tag_step(true, false), ProxyTagStep::ReuseCachedProxy);
    assert_eq!(proxy_tag_step(true, true), ProxyTagStep::ReuseCachedProxy);
    assert_eq!(proxy_tag_step(false, false), ProxyTagStep::WaitForSource);
    assert_eq!(proxy_tag_step(false, true), ProxyTagStep::BuildProxy);
}

#[test]
fn proxy_cache_builds_once_per_source() {
    let mut cache: RaytraceProxyMeshes<&str> = RaytraceProxyMeshes::new();
    let first = MeshSourceKey::Index(7);
    let second = MeshSourceKey::Uuid(7);
    assert_eq!(proxy_tag_step_for(&cache, first, false), ProxyTagStep::WaitForSource);
    assert_eq!(proxy_tag_step_for(&cache, first, true), ProxyTagStep::BuildProxy);
    cache.remember(first, "proxy-a");
    assert_eq!(proxy_tag_step_for(&cache, first, true), ProxyTagStep::ReuseCachedProxy);
    assert_eq!(cache.cached(first), Some(&"proxy-a"));
    assert_eq!(cache.cached(second), None);
    assert_eq!(proxy_tag_step_for(&cache, second, true), ProxyTagStep::BuildProxy);
    cache.remember(second, "proxy-b");
    assert_eq!(cache.cached(first), Some(&"proxy-a"));
    assert_eq!(cache.cached(second), Some(&"proxy-b"));
}
