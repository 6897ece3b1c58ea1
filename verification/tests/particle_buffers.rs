use portals::particle_buffers::color_ramp_slot;
use portals::particle_buffers::vertex_size;
use portals::particle_buffers::ParticleBuffers;

fn word(bytes: &[u8], off: usize) -> u32 {
    u32::from_le_bytes([bytes[off], bytes[off + 1], bytes[off + 2], bytes[off + 3]])
}

const ONE_BITS: u32 = 0x3F80_0000;

#[test]
fn tex_coord_constants_encode_zero_and_one() {
    assert_eq!(0.0f32.to_bits(), 0);
    assert_eq!(1.0f32.to_bits(), ONE_BITS);
}

#[test]
fn vertex_size_covers_all_layouts() {
    assert_eq!(vertex_size(false, false), 20);
    assert_eq!(vertex_size(false, true), 24);
    assert_eq!(vertex_size(true, false), 36);
    assert_eq!(vertex_size(true, true), 40);
}

#[test]
fn index_array_two_quads() {
    let mut buffers = ParticleBuffers::new();
    let indices = buffers.get_index_array(2);
    assert_eq!(indices, &vec![0u16, 1, 3, 3, 1, 2, 4, 5, 7, 7, 5, 6]);
}

#[test]
fn index_array_never_shrinks() {
    let mut buffers = ParticleBuffers::new();
    assert_eq!(buffers.get_index_array(3).len(), 18);
    // fewer particles: the buffer keeps its length, callers just use less of it
    let indices = buffers.get_index_array(1);
    assert_eq!(indices.len(), 18);
    assert_eq!(&indices[..6], &[0u16, 1, 3, 3, 1, 2]);
}

#[test]
fn index_array_extends_incrementally() {
    let mut buffers = ParticleBuffers::new();
    let first = buffers.get_index_array(1).clone();
    let second = buffers.get_index_array(3).clone();
    assert_eq!(first.len(), 6);
    assert_eq!(second.len(), 18);
    assert_eq!(&second[..6], &first[..]);
    assert_eq!(&second[12..], &[8u16, 9, 11, 11, 9, 10]);
}

#[test]
fn vertex_array_length_with_colors() {
    let mut buffers = ParticleBuffers::new();
    let corners: Vec<u32> = (0..24).collect();
    let fades: Vec<u32> = Vec::new();
    let colors: Vec<u32> = (100..108).collect();
    let vertices = buffers.get_vertex_array(&corners, &fades, &colors, 2, true, false);
    assert_eq!(vertices.len(), 2 * (12 + 8 + 16) * 4);
}

#[test]
fn vertex_array_layout_plain() {
    let mut buffers = ParticleBuffers::new();
    let corners: Vec<u32> = (10..22).collect();
    let empty: Vec<u32> = Vec::new();
    let vertices = buffers.get_vertex_array(&corners, &empty, &empty, 1, false, false);
    assert_eq!(vertices.len(), 80);
    // texture coordinates of the four corners: (0,0), (1,0), (1,1), (0,1)
    let tex = [(0, 0), (ONE_BITS, 0), (ONE_BITS, ONE_BITS), (0, ONE_BITS)];
    for j in 0..4 {
        let base = j * 20;
        assert_eq!(word(vertices, base), (10 + 3 * j) as u32);
        assert_eq!(word(vertices, base + 4), (11 + 3 * j) as u32);
        assert_eq!(word(vertices, base + 8), (12 + 3 * j) as u32);
        assert_eq!(word(vertices, base + 12), tex[j].0);
        assert_eq!(word(vertices, base + 16), tex[j].1);
    }
}

#[test]
fn vertex_array_layout_with_fade_and_colors() {
    let mut buffers = ParticleBuffers::new();
    let corners: Vec<u32> = (0..24).collect();
    let fades: Vec<u32> = vec![0xAAAA_0001, 0xAAAA_0002];
    let colors: Vec<u32> = (200..208).collect();
    let vertices = buffers.get_vertex_array(&corners, &fades, &colors, 2, true, true);
    assert_eq!(vertices.len(), 2 * 40 * 4);
    for p in 0..2 {
        for j in 0..4 {
            let base = (4 * p + j) * 40;
            assert_eq!(word(vertices, base), (12 * p + 3 * j) as u32);
            assert_eq!(word(vertices, base + 20), fades[p]);
            for m in 0..4 {
                assert_eq!(word(vertices, base + 24 + 4 * m), (200 + 4 * p + m) as u32);
            }
        }
    }
}

#[test]
fn vertex_array_fade_only_layout() {
    let mut buffers = ParticleBuffers::new();
    let corners: Vec<u32> = (0..12).collect();
    let fades: Vec<u32> = vec![0x1234_5678];
    let empty: Vec<u32> = Vec::new();
    let vertices = buffers.get_vertex_array(&corners, &fades, &empty, 1, false, true);
    assert_eq!(vertices.len(), 96);
    for j in 0..4 {
        assert_eq!(word(vertices, j * 24 + 20), 0x1234_5678);
    }
}

#[test]
fn vertex_array_never_shrinks_and_keeps_tail() {
    let mut buffers = ParticleBuffers::new();
    let corners2: Vec<u32> = (0..24).map(|k| k + 500).collect();
    let empty: Vec<u32> = Vec::new();
    let big = buffers.get_vertex_array(&corners2, &empty, &empty, 2, false, false).clone();
    assert_eq!(big.len(), 160);

    let corners1: Vec<u32> = (0..12).collect();
    let small = buffers.get_vertex_array(&corners1, &empty, &empty, 1, false, false);
    // grow-only: still 160 bytes, and the bytes past the packed region are stale
    assert_eq!(small.len(), 160);
    assert_eq!(&small[80..], &big[80..]);
    assert_eq!(word(&big, 0), 500);
    assert_eq!(word(small, 0), 0);
}

#[test]
fn index_and_vertex_buffers_are_independent() {
    let mut buffers = ParticleBuffers::new();
    let corners: Vec<u32> = (0..12).collect();
    let empty: Vec<u32> = Vec::new();
    buffers.get_vertex_array(&corners, &empty, &empty, 1, false, false);
    assert_eq!(buffers.get_index_array(1), &vec![0u16, 1, 3, 3, 1, 2]);
    let vertices = buffers.get_vertex_array(&corners, &empty, &empty, 1, false, false);
    assert_eq!(vertices.len(), 80);
}

#[test]
fn color_ramp_slot_keeps_both_stops_in_range() {
    for scaled in -3..=14 {
        let slot = color_ramp_slot(scaled);
        assert!(slot + 1 <= 11);
    }
    assert_eq!(color_ramp_slot(0), 0);
    assert_eq!(color_ramp_slot(7), 7);
    assert_eq!(color_ramp_slot(10), 10);
    // an age fraction of exactly 1 scales to 11: clamped to the last segment
    assert_eq!(color_ramp_slot(11), 10);
    assert_eq!(color_ramp_slot(-1), 0);
}
