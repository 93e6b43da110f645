use bevy::asset::RenderAssetUsages;
use bevy::mesh::{
    Indices, Mesh, MeshVertexAttribute, PrimitiveTopology, VertexAttributeValues, VertexFormat,
};
use bevy_trimesh::{
    convert_indicies, convert_verticies, extract_geometry, ExtractGeometryError, Point,
};

fn empty_mesh() -> Mesh {
    Mesh::new(PrimitiveTopology::TriangleList, RenderAssetUsages::default())
}

fn corners() -> Vec<[f32; 3]> {
    vec![[0.0, 0.0, 0.0], [1.0, 0.0, 0.0], [0.0, 1.0, 0.0]]
}

fn point(x: f32, y: f32, z: f32) -> Point {
    Point { x: x.to_bits(), y: y.to_bits(), z: z.to_bits() }
}

#[test]
fn extraction_fails_on_a_mesh_without_positions() {
    let mesh = empty_mesh().with_inserted_indices(Indices::U32(vec![0, 1, 2]));
    assert_eq!(extract_geometry(&mesh).unwrap_err(), ExtractGeometryError::NoVertexPositionData);
    let normals_only = empty_mesh()
        .with_inserted_attribute(Mesh::ATTRIBUTE_NORMAL, corners())
        .with_inserted_indices(Indices::U32(vec![0, 1, 2]));
    assert_eq!(
        extract_geometry(&normals_only).unwrap_err(),
        ExtractGeometryError::NoVertexPositionData
    );
}

#[test]
fn missing_positions_are_reported_before_missing_indices() {
    assert_eq!(
        extract_geometry(&empty_mesh()).unwrap_err(),
        ExtractGeometryError::NoVertexPositionData
    );
}

#[test]
fn extraction_fails_on_a_mesh_without_indices() {
    let mesh = empty_mesh().with_inserted_attribute(Mesh::ATTRIBUTE_POSITION, corners());
    assert_eq!(extract_geometry(&mesh).unwrap_err(), ExtractGeometryError::NoVertexIndicies);
}

#[test]
fn extraction_hands_out_both_buffers_of_the_mesh() {
    let mesh = empty_mesh()
        .with_inserted_attribute(Mesh::ATTRIBUTE_POSITION, corners())
        .with_inserted_attribute(Mesh::ATTRIBUTE_NORMAL, vec![[0.0, 0.0, 1.0]; 3])
        .with_inserted_indices(Indices::U32(vec![2, 1, 0]));
    let (verticies, indicies) = extract_geometry(&mesh).unwrap();
    assert_eq!(*verticies, VertexAttributeValues::Float32x3(corners()));
    assert_eq!(*indicies, Indices::U32(vec![2, 1, 0]));
}

#[test]
fn extraction_does_not_look_at_the_layouts() {
    let flat_position = MeshVertexAttribute::new("Vertex_Position", 0, VertexFormat::Float32x2);
    let mesh = empty_mesh()
        .with_inserted_attribute(flat_position, vec![[0.0f32, 1.0], [2.0, 3.0]])
        .with_inserted_indices(Indices::U16(vec![0, 1, 0]));
    let (verticies, indicies) = extract_geometry(&mesh).unwrap();
    assert_eq!(*verticies, VertexAttributeValues::Float32x2(vec![[0.0, 1.0], [2.0, 3.0]]));
    assert_eq!(*indicies, Indices::U16(vec![0, 1, 0]));
}

#[test]
fn extraction_finds_nothing_once_the_data_went_to_the_renderer() {
    let mut mesh = empty_mesh()
        .with_inserted_attribute(Mesh::ATTRIBUTE_POSITION, corners())
        .with_inserted_indices(Indices::U32(vec![0, 1, 2]));
    let taken = mesh.take_gpu_data().unwrap();
    assert_eq!(extract_geometry(&mesh).unwrap_err(), ExtractGeometryError::NoVertexPositionData);
    assert!(extract_geometry(&taken).is_ok());
}

#[test]
fn vertex_conversion_refuses_every_other_layout() {
    let others = vec![
        VertexAttributeValues::Float32(vec![0.0, 1.0, 2.0]),
        VertexAttributeValues::Float32x2(vec![[0.0, 1.0]]),
        VertexAttributeValues::Float32x4(vec![[0.0, 1.0, 2.0, 3.0]]),
        VertexAttributeValues::Uint32x3(vec![[0, 1, 2]]),
        VertexAttributeValues::Sint32x3(vec![[0, 1, 2]]),
        VertexAttributeValues::Unorm8x4(vec![[0, 1, 2, 3]]),
        VertexAttributeValues::Float32x2(Vec::new()),
    ];
    for values in &others {
        let error = convert_verticies(values).unwrap_err();
        assert_eq!(error.message(), "unsupported format: only [f32; 3] is supported");
    }
}

#[test]
fn vertex_conversion_gives_one_point_per_entry() {
    let values = VertexAttributeValues::Float32x3(vec![
        [0.0, 0.0, 0.0],
        [1.0, 0.0, 0.0],
        [0.0, 1.0, 0.0],
        [-2.5, 1e10, -0.0],
        [f32::MAX, f32::MIN_POSITIVE, f32::NEG_INFINITY],
    ]);
    let points = convert_verticies(&values).unwrap();
    assert_eq!(
        points,
        vec![
            point(0.0, 0.0, 0.0),
            point(1.0, 0.0, 0.0),
            point(0.0, 1.0, 0.0),
            point(-2.5, 1e10, -0.0),
            point(f32::MAX, f32::MIN_POSITIVE, f32::NEG_INFINITY),
        ]
    );
    assert_eq!(points[1].x, 0x3f80_0000);
    assert_eq!(points[3].z, 0x8000_0000);
}

#[test]
fn vertex_conversion_of_an_empty_buffer_is_empty() {
    let points = convert_verticies(&VertexAttributeValues::Float32x3(Vec::new())).unwrap();
    assert!(points.is_empty());
}

#[test]
fn index_conversion_refuses_sixteen_bit_indices() {
    let error = convert_indicies(&Indices::U16(vec![0, 1, 2])).unwrap_err();
    assert_eq!(error.message(), "unsupported format: only u32 is supported");
    let error = convert_indicies(&Indices::U16(Vec::new())).unwrap_err();
    assert_eq!(error.message(), "unsupported format: only u32 is supported");
}

#[test]
fn index_conversion_groups_triples_in_input_order() {
    let triangles = convert_indicies(&Indices::U32(vec![0, 3, 1, 1, 3, 2])).unwrap();
    assert_eq!(triangles, vec![[0, 3, 1], [1, 3, 2]]);
    let twelve: Vec<u32> = (10..22).collect();
    let triangles = convert_indicies(&Indices::U32(twelve)).unwrap();
    assert_eq!(triangles, vec![[10, 11, 12], [13, 14, 15], [16, 17, 18], [19, 20, 21]]);
}

#[test]
fn index_conversion_leaves_out_a_trailing_partial_group() {
    let triangles = convert_indicies(&Indices::U32(vec![0, 1, 2, 3, 4])).unwrap();
    assert_eq!(triangles, vec![[0, 1, 2]]);
    assert!(convert_indicies(&Indices::U32(vec![0, 1])).unwrap().is_empty());
    assert!(convert_indicies(&Indices::U32(Vec::new())).unwrap().is_empty());
}
