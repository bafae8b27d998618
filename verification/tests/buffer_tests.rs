use lve_engine::buffer::get_alignment;
use lve_engine::buffer::BufferType;
use lve_engine::buffer::LveBuffer;

#[test]
fn alignment_rounds_up_to_power_of_two() {
    assert_eq!(get_alignment(64, 0), 64);
    assert_eq!(get_alignment(60, 64), 64);
    assert_eq!(get_alignment(64, 64), 64);
    assert_eq!(get_alignment(65, 64), 128);
    assert_eq!(get_alignment(1, 1), 1);
    assert_eq!(get_alignment(0, 256), 0);
    assert_eq!(get_alignment(300, 256), 512);
    // The largest size the precondition admits for a 64-byte alignment.
    assert_eq!(get_alignment(u64::MAX - 64, 64), u64::MAX - 63);
}

#[test]
fn uniform_buffer_layout_uses_aligned_slots() {
    // Two instances of 40 bytes, aligned to a 64-byte minimum offset.
    let buffer = LveBuffer::new(40, 2, 0x10, 0x2, 64, BufferType::Uniform);
    assert_eq!(buffer.alignment_size, 64);
    assert_eq!(buffer.buffer_size, 128);
    assert_eq!(buffer.instance_size, 40);
    assert_eq!(buffer.instance_count, 2);
    assert!(!buffer.mapped);
}

#[test]
fn vertex_buffer_with_unit_alignment_is_tight() {
    // Vertex and index buffers pass a minimum offset alignment of 1.
    let buffer = LveBuffer::new(36, 100, 0x80, 0x1, 1, BufferType::Vertex);
    assert_eq!(buffer.alignment_size, 36);
    assert_eq!(buffer.buffer_size, 3600);
}

#[test]
fn index_addressing_stays_in_bounds() {
    let mut buffer = LveBuffer::new(40, 3, 0x10, 0x2, 64, BufferType::Uniform);
    buffer.map();
    assert!(buffer.mapped);
    assert_eq!(buffer.write_to_index(0), 0);
    assert_eq!(buffer.write_to_index(2), 128);
    assert_eq!(buffer.flush_index(1), (64, 64));
    assert_eq!(buffer.invalidate_index(2), (128, 64));
    assert_eq!(buffer.descriptor_info_for_index(1), (64, 64));
    buffer.unmap();
    assert!(!buffer.mapped);
}
