use rusty_sandbox::buffer::{Buffer, BufferUsages, VERTEX};
use rusty_sandbox::pod::{encode_slice, Pod};
use rusty_sandbox::vertex::{
    Mesh, Vertex, VertexAttribute, VertexFormat, VertexStepMode, INDICES, VERTICES,
};

fn numbers(vertex: &Vertex) -> ([f32; 3], [f32; 3]) {
    (
        [
            f32::from_bits(vertex.position[0]),
            f32::from_bits(vertex.position[1]),
            f32::from_bits(vertex.position[2]),
        ],
        [
            f32::from_bits(vertex.color[0]),
            f32::from_bits(vertex.color[1]),
            f32::from_bits(vertex.color[2]),
        ],
    )
}

#[test]
fn the_layout_is_two_attributes_in_twenty_four_bytes() {
    let layout = Vertex::layout();
    assert_eq!(layout.array_stride, 24);
    assert_eq!(layout.step_mode, VertexStepMode::Vertex);
    assert_eq!(
        layout.attributes,
        vec![
            VertexAttribute { format: VertexFormat::Float32x3, offset: 0, shader_location: 0 },
            VertexAttribute { format: VertexFormat::Float32x3, offset: 12, shader_location: 1 },
        ]
    );
}

#[test]
fn the_layout_fits_the_memory_of_six_numbers() {
    let layout = Vertex::layout();
    assert_eq!(layout.array_stride as usize, std::mem::size_of::<[f32; 6]>());
    assert_eq!(layout.attributes[1].offset as usize, std::mem::size_of::<[f32; 3]>());
    assert_eq!(<Vertex as Pod>::size(), std::mem::size_of::<[f32; 6]>());
}

#[test]
fn format_sizes_are_those_of_the_device() {
    assert_eq!(VertexFormat::Float32.size(), wgpu::VertexFormat::Float32.size());
    assert_eq!(VertexFormat::Float32x2.size(), wgpu::VertexFormat::Float32x2.size());
    assert_eq!(VertexFormat::Float32x3.size(), wgpu::VertexFormat::Float32x3.size());
    assert_eq!(VertexFormat::Float32x4.size(), wgpu::VertexFormat::Float32x4.size());
    assert_eq!(VertexFormat::Float32x3.size(), 12);
}

#[test]
fn a_vertex_is_its_position_then_its_colour() {
    let vertex = Vertex::new(
        [1.0f32.to_bits(), 2.0f32.to_bits(), 3.0f32.to_bits()],
        [0.25f32.to_bits(), 0.5f32.to_bits(), 0.75f32.to_bits()],
    );
    let mut bytes = Vec::new();
    vertex.write_bytes(&mut bytes);
    assert_eq!(bytes.len(), 24);
    let mut expected = Vec::new();
    for number in [1.0f32, 2.0, 3.0, 0.25, 0.5, 0.75] {
        expected.extend_from_slice(&number.to_le_bytes());
    }
    assert_eq!(bytes, expected);
    let layout = Vertex::layout();
    let color = layout.attributes[1].offset as usize;
    assert_eq!(&bytes[color..color + 4], &0.25f32.to_le_bytes()[..]);
}

#[test]
fn six_words_spell_a_vertex() {
    let vertex = Vertex::from_words([1, 2, 3, 4, 5, 6]);
    assert_eq!(vertex.position, [1, 2, 3]);
    assert_eq!(vertex.color, [4, 5, 6]);
}

#[test]
fn the_pentagon_has_the_vertices_it_was_drawn_with() {
    let expected: [([f32; 3], [f32; 3]); 5] = [
        ([-0.0868241, 0.49240386, 0.0], [1.0, 0.4, 1.0]),
        ([-0.49513406, 0.06958647, 0.0], [1.0, 0.3, 0.4]),
        ([-0.21918549, -0.44939706, 0.0], [1.0, 1.0, 1.0]),
        ([0.35966998, -0.3473291, 0.0], [0.4, 0.0, 1.0]),
        ([0.44147372, 0.2347359, 0.0], [0.5, 0.5, 0.5]),
    ];
    let mesh = Mesh::pentagon().vertices;
    assert_eq!(mesh.len(), 5);
    assert_eq!(VERTICES.len(), 5);
    for (vertex, (position, color)) in mesh.iter().zip(expected.iter()) {
        let (p, c) = numbers(vertex);
        assert_eq!(p, *position);
        assert_eq!(c, *color);
    }
    for (vertex, words) in mesh.iter().zip(VERTICES.iter()) {
        assert_eq!(vertex.position, [words[0], words[1], words[2]]);
        assert_eq!(vertex.color, [words[3], words[4], words[5]]);
    }
}

#[test]
fn the_pentagon_has_three_triangles_around_its_last_vertex() {
    assert_eq!(INDICES, [0, 1, 4, 1, 2, 4, 2, 3, 4]);
    assert_eq!(Mesh::pentagon().indices, vec![0, 1, 4, 1, 2, 4, 2, 3, 4]);
    assert_eq!(INDICES.len() % 3, 0);
    assert!(INDICES.iter().all(|&i| (i as usize) < VERTICES.len()));
}

#[test]
fn a_mesh_keeps_what_it_was_given() {
    let mesh = Mesh::new(vec![Vertex::from_words([0; 6]); 4], vec![0, 1, 2, 2, 3, 0]);
    assert_eq!(mesh.vertices.len(), 4);
    assert_eq!(mesh.indices, vec![0, 1, 2, 2, 3, 0]);
    let pentagon = Mesh::pentagon();
    assert_eq!(pentagon.indices, INDICES.to_vec());
    let words: Vec<Vertex> = VERTICES.iter().map(|&words| Vertex::from_words(words)).collect();
    assert_eq!(encode_slice(&pentagon.vertices), encode_slice(&words));
}

#[test]
fn the_vertex_buffer_of_the_pentagon_is_the_memory_of_its_numbers() {
    let numbers: [[f32; 6]; 5] = [
        [-0.0868241, 0.49240386, 0.0, 1.0, 0.4, 1.0],
        [-0.49513406, 0.06958647, 0.0, 1.0, 0.3, 0.4],
        [-0.21918549, -0.44939706, 0.0, 1.0, 1.0, 1.0],
        [0.35966998, -0.3473291, 0.0, 0.4, 0.0, 1.0],
        [0.44147372, 0.2347359, 0.0, 0.5, 0.5, 0.5],
    ];
    let memory: &[u8] = bytemuck::cast_slice(&numbers);
    let buffer = Buffer::new(&Mesh::pentagon().vertices, BufferUsages::from_bits(VERTEX));
    assert_eq!(buffer.size(), 120);
    assert_eq!(buffer.data(), memory);
}
