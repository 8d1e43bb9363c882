use yagl::graphics::vertex::{desc, describe, vertex_buffer_descriptor};
use yagl::graphics::{VertexAttribute, VertexFormat};

#[test]
fn colored_vertices_take_24_bytes() {
    let descriptor = vertex_buffer_descriptor();
    assert_eq!(descriptor.stride, 24);
    assert_eq!(
        descriptor.attributes,
        vec![
            VertexAttribute { offset: 0, shader_location: 0, format: VertexFormat::Float3 },
            VertexAttribute { offset: 12, shader_location: 1, format: VertexFormat::Float3 },
        ]
    );
    assert_eq!(descriptor.stride as usize, std::mem::size_of::<[[f32; 3]; 2]>());
}

#[test]
fn textured_vertices_take_20_bytes() {
    let descriptor = desc();
    assert_eq!(descriptor.stride, 20);
    assert_eq!(
        descriptor.attributes,
        vec![
            VertexAttribute { offset: 0, shader_location: 0, format: VertexFormat::Float3 },
            VertexAttribute { offset: 12, shader_location: 1, format: VertexFormat::Float2 },
        ]
    );
    assert_eq!(descriptor.stride as usize, std::mem::size_of::<([f32; 3], [f32; 2])>());
}

#[test]
fn attributes_are_packed_in_order() {
    let descriptor = describe(&vec![
        VertexFormat::Float2,
        VertexFormat::Float3,
        VertexFormat::Float2,
        VertexFormat::Float3,
    ]);
    assert_eq!(descriptor.stride, 40);
    let offsets: Vec<u64> = descriptor.attributes.iter().map(|a| a.offset).collect();
    let locations: Vec<u32> = descriptor.attributes.iter().map(|a| a.shader_location).collect();
    assert_eq!(offsets, vec![0, 8, 20, 28]);
    assert_eq!(locations, vec![0, 1, 2, 3]);
    assert_eq!(VertexFormat::Float2.size(), 8);
    assert_eq!(VertexFormat::Float3.size(), 12);
}

#[test]
fn no_attributes_take_no_bytes() {
    let descriptor = describe(&Vec::new());
    assert_eq!(descriptor.stride, 0);
    assert!(descriptor.attributes.is_empty());
}
