use tree_scene::texture::{depth_extent, Extent};
use tree_scene::vertex::{
    float_layout, instance_layout, mesh_indices, model_vertex_layout, vertex_layout, VertexAttribute,
};

fn attr(location: u32, components: u32, offset: u64) -> VertexAttribute {
    VertexAttribute { location, components, offset }
}

#[test]
fn vertex_stream_is_twenty_bytes() {
    let l = vertex_layout();
    assert_eq!(l.array_stride, 20);
    assert!(!l.per_instance);
    assert_eq!(l.attributes, vec![attr(0, 3, 0), attr(1, 2, 12)]);
}

#[test]
fn model_vertex_stream_is_thirty_two_bytes() {
    let l = model_vertex_layout();
    assert_eq!(l.array_stride, 32);
    assert_eq!(l.attributes, vec![attr(0, 3, 0), attr(1, 2, 12), attr(2, 3, 20)]);
}

#[test]
fn instance_stream_is_one_matrix() {
    let l = instance_layout();
    assert_eq!(l.array_stride, 64);
    assert!(l.per_instance);
    assert_eq!(l.attributes, vec![attr(5, 4, 0), attr(6, 4, 16), attr(7, 4, 32), attr(8, 4, 48)]);
}

#[test]
fn empty_layout_has_zero_stride() {
    let l = float_layout(3, &vec![], true);
    assert_eq!(l.array_stride, 0);
    assert!(l.attributes.is_empty());
}

#[test]
fn single_float_attributes_pack_tightly() {
    let l = float_layout(2, &vec![1, 1, 4], false);
    assert_eq!(l.array_stride, 24);
    assert_eq!(l.attributes, vec![attr(2, 1, 0), attr(3, 1, 4), attr(4, 4, 8)]);
}

#[test]
fn mesh_is_a_fan_of_three_triangles() {
    let i = mesh_indices();
    assert_eq!(i, vec![0, 1, 4, 1, 2, 4, 2, 3, 4]);
    assert!(i.iter().all(|&v| v < 5));
}

#[test]
fn depth_extent_matches_surface() {
    assert_eq!(depth_extent(320, 180), Extent { width: 320, height: 180 });
}

#[test]
fn depth_extent_never_empty() {
    assert_eq!(depth_extent(0, 0), Extent { width: 1, height: 1 });
    assert_eq!(depth_extent(0, 7), Extent { width: 1, height: 7 });
}

