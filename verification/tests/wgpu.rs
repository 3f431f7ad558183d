use shader_lower::wgpu::command_encoder::{
    buffer_texture_copy, place, texture_buffer_copy, texture_copy, BufferCopy,
    BufferTextureCopy, Command, CommandEncoder, CopyExtent, ImageDataLayout, Origin3d, Region,
    TextureCopy, TextureCopyBase,
};
use shader_lower::wgpu::device::Device;
use shader_lower::wgpu::queue::Queue;
use shader_lower::wgpu::texture::{
    Extent3d, Texture, TextureDescriptor, TextureDimension, TextureFormat,
};
use shader_lower::wgpu::{checked_plus, checked_times, word_of};

fn texture(dimension: TextureDimension, width: u32, height: u32, layers: u32) -> Texture {
    Texture::new(&TextureDescriptor {
        size: Extent3d { width, height, depth_or_array_layers: layers },
        dimension,
        format: TextureFormat::Rgba8Unorm,
    })
    .unwrap()
}

fn base(x: u32, y: u32, z: u32, layer: u32) -> TextureCopyBase {
    TextureCopyBase { array_layer: layer, origin: Origin3d { x, y, z } }
}

fn extent(width: u32, height: u32, depth: u32) -> CopyExtent {
    CopyExtent { width, height, depth }
}

#[test]
fn texel_sizes_follow_the_format() {
    assert_eq!(TextureFormat::R8Unorm.pixel_width(), 1);
    assert_eq!(TextureFormat::Stencil8.pixel_width(), 1);
    assert_eq!(TextureFormat::R16Float.pixel_width(), 2);
    assert_eq!(TextureFormat::Depth16Unorm.pixel_width(), 2);
    assert_eq!(TextureFormat::Rgba8UnormSrgb.pixel_width(), 4);
    assert_eq!(TextureFormat::Depth32Float.pixel_width(), 4);
    assert_eq!(TextureFormat::Rg32Float.pixel_width(), 8);
    assert_eq!(TextureFormat::Rgba16Float.pixel_width(), 8);
    assert_eq!(TextureFormat::Rgba32Uint.pixel_width(), 16);
}

#[test]
fn texture_is_a_zeroed_block_of_its_size() {
    let made = Texture::new(&TextureDescriptor {
        size: Extent3d { width: 3, height: 5, depth_or_array_layers: 2 },
        dimension: TextureDimension::D2,
        format: TextureFormat::Rg16Uint,
    })
    .unwrap();
    assert_eq!(made.data.len(), 4 * 3 * 5 * 2);
    assert!(made.data.iter().all(|byte| *byte == 0));
    assert_eq!(made.dimension, TextureDimension::D3);
    assert_eq!(made.pixel_size, 4);
    assert_eq!(made.size, Extent3d { width: 3, height: 5, depth_or_array_layers: 2 });
    assert_eq!(texture(TextureDimension::D2, 4, 4, 1).dimension, TextureDimension::D2);
    assert_eq!(texture(TextureDimension::D1, 4, 1, 1).dimension, TextureDimension::D1);
    assert_eq!(texture(TextureDimension::D2, 4, 0, 1).data.len(), 0);
}

#[test]
fn texture_beyond_memory_is_refused() {
    let huge = TextureDescriptor {
        size: Extent3d { width: u32::MAX, height: u32::MAX, depth_or_array_layers: u32::MAX },
        dimension: TextureDimension::D3,
        format: TextureFormat::Rgba32Float,
    };
    assert!(Texture::new(&huge).is_none());
    assert_eq!(huge.byte_len(), None);
    let small = TextureDescriptor {
        size: Extent3d { width: 7, height: 3, depth_or_array_layers: 1 },
        dimension: TextureDimension::D2,
        format: TextureFormat::Rgba16Float,
    };
    assert_eq!(small.byte_len(), Some(8 * 7 * 3));
    assert_eq!(small.stored_dimension(), TextureDimension::D2);
}

#[test]
fn words_are_checked() {
    assert_eq!(checked_times(Some(6), Some(7)), Some(42));
    assert_eq!(checked_times(Some(usize::MAX), Some(2)), None);
    assert_eq!(checked_times(None, Some(2)), None);
    assert_eq!(checked_plus(Some(usize::MAX), Some(0)), Some(usize::MAX));
    assert_eq!(checked_plus(Some(usize::MAX), Some(1)), None);
    assert_eq!(checked_plus(Some(1), None), None);
    assert_eq!(word_of(9), Some(9));
}

#[test]
fn buffers_are_limited_by_their_alignment() {
    let device = Device;
    assert_eq!(device.buffer_len(0), Some(0));
    assert_eq!(device.buffer_len(4096), Some(4096));
    assert_eq!(device.buffer_len(isize::MAX as u64 - 31), Some(isize::MAX as usize - 31));
    assert_eq!(device.buffer_len(isize::MAX as u64 - 30), None);
    assert_eq!(device.mapping_offset(16, 16), Some(16));
    assert_eq!(device.mapping_offset(16, 17), None);
}

#[test]
fn encoder_records_clears_and_buffer_copies() {
    let mut encoder = CommandEncoder::new();
    assert!(encoder.clear_buffer(1000, 4, 20));
    assert!(!encoder.clear_buffer(1000, 20, 4));
    assert!(!encoder.clear_buffer(usize::MAX - 10, 4, 20));
    assert!(encoder.copy_buffer_to_buffer(
        1000,
        2000,
        &vec![
            BufferCopy { src_offset: 1, dst_offset: 2, size: 3 },
            BufferCopy { src_offset: 4, dst_offset: 5, size: 6 },
        ]
    ));
    assert!(!encoder.copy_buffer_to_buffer(
        1000,
        usize::MAX,
        &vec![
            BufferCopy { src_offset: 1, dst_offset: 0, size: 3 },
            BufferCopy { src_offset: 4, dst_offset: 5, size: 6 },
            BufferCopy { src_offset: 4, dst_offset: 0, size: 6 },
        ]
    ));
    assert_eq!(
        encoder.commands,
        vec![
            Command::Clear { buffer: Region { offset: 1004, len: 16 } },
            Command::Copy { src: Region { offset: 1001, len: 3 }, dst: 2002 },
            Command::Copy { src: Region { offset: 1004, len: 6 }, dst: 2005 },
            Command::Copy { src: Region { offset: 1001, len: 3 }, dst: usize::MAX },
        ]
    );
    let recorded = encoder.end_encoding();
    assert_eq!(recorded.len(), 4);
    assert!(encoder.commands.is_empty());
    assert!(encoder.clear_buffer(0, 0, 0));
    encoder.discard_encoding();
    assert!(encoder.commands.is_empty());
}

#[test]
fn texture_copies_go_by_the_dimension_of_the_source() {
    let region = TextureCopy {
        src_base: base(1, 2, 3, 5),
        dst_base: base(6, 7, 8, 0),
        size: extent(9, 10, 11),
    };
    let dst = texture(TextureDimension::D2, 32, 8, 1);
    assert_eq!(
        texture_copy(&texture(TextureDimension::D1, 16, 1, 1), &dst, &region),
        Some(Command::Copy { src: Region { offset: 4, len: 36 }, dst: 24 })
    );
    assert_eq!(
        texture_copy(&texture(TextureDimension::D2, 16, 4, 1), &dst, &region),
        Some(Command::Copy2 {
            src: 1 + 2 * 64,
            dst: 6 + 7 * 128,
            src_pitch: 64,
            dst_pitch: 128,
            rows: 10,
            columns: 9,
        })
    );
    assert_eq!(
        texture_copy(&texture(TextureDimension::D3, 16, 4, 2), &dst, &region),
        Some(Command::Copy3 {
            src: 1 + 2 * 64 + 5 * 256,
            dst: 6 + 7 * 128 + 8 * 1024,
            src_pitch: 64,
            dst_pitch: 128,
            src_depth_pitch: 256,
            dst_depth_pitch: 1024,
            rows: 10,
            columns: 9,
            depth: 11,
        })
    );
}

#[test]
fn buffer_and_texture_copies_take_their_pitch_from_the_layout() {
    let region = BufferTextureCopy {
        buffer_layout: ImageDataLayout { offset: 100, bytes_per_row: Some(80), rows_per_image: Some(6) },
        texture_base: base(1, 2, 3, 0),
        size: extent(9, 10, 11),
    };
    let flat = texture(TextureDimension::D2, 16, 4, 1);
    let deep = texture(TextureDimension::D3, 16, 4, 2);
    let line = texture(TextureDimension::D1, 16, 1, 1);
    assert_eq!(
        buffer_texture_copy(&line, &region),
        Some(Command::Copy { src: Region { offset: 100, len: 9 }, dst: 1 })
    );
    assert_eq!(
        buffer_texture_copy(&flat, &region),
        Some(Command::Copy2 { src: 100, dst: 129, src_pitch: 80, dst_pitch: 64, rows: 10, columns: 9 })
    );
    assert_eq!(
        buffer_texture_copy(&deep, &region),
        Some(Command::Copy3 {
            src: 100,
            dst: 129 + 3 * 256,
            src_pitch: 80,
            dst_pitch: 64,
            src_depth_pitch: 480,
            dst_depth_pitch: 256,
            rows: 10,
            columns: 9,
            depth: 11,
        })
    );
    assert_eq!(
        texture_buffer_copy(&line, &region),
        Some(Command::Copy { src: Region { offset: 4, len: 36 }, dst: 100 })
    );
    assert_eq!(
        texture_buffer_copy(&flat, &region),
        Some(Command::Copy2 { src: 129, dst: 100, src_pitch: 64, dst_pitch: 80, rows: 10, columns: 9 })
    );
    assert_eq!(
        texture_buffer_copy(&deep, &region),
        Some(Command::Copy3 {
            src: 129 + 3 * 256,
            dst: 100,
            src_pitch: 64,
            dst_pitch: 80,
            src_depth_pitch: 256,
            dst_depth_pitch: 480,
            rows: 10,
            columns: 9,
            depth: 11,
        })
    );
}

#[test]
fn copy_without_the_pitch_it_needs_is_not_recorded() {
    let whole = ImageDataLayout { offset: 0, bytes_per_row: Some(64), rows_per_image: Some(4) };
    let copy = |layout| BufferTextureCopy {
        buffer_layout: layout,
        texture_base: base(0, 0, 0, 0),
        size: extent(1, 1, 1),
    };
    let flat = texture(TextureDimension::D2, 16, 4, 1);
    let deep = texture(TextureDimension::D3, 16, 4, 2);
    let no_rows = ImageDataLayout { rows_per_image: None, ..whole };
    let no_pitch = ImageDataLayout { bytes_per_row: None, ..whole };
    assert!(buffer_texture_copy(&flat, &copy(no_rows)).is_some());
    assert!(buffer_texture_copy(&flat, &copy(no_pitch)).is_none());
    assert!(buffer_texture_copy(&deep, &copy(no_rows)).is_none());
    assert!(texture_buffer_copy(&deep, &copy(no_pitch)).is_none());
    let mut encoder = CommandEncoder::new();
    assert!(!encoder.copy_buffer_to_texture(
        500,
        &flat,
        700,
        &vec![copy(whole), copy(no_pitch), copy(whole)]
    ));
    assert_eq!(
        encoder.commands,
        vec![Command::Copy2 {
            src: 500,
            dst: 700,
            src_pitch: 64,
            dst_pitch: 64,
            rows: 1,
            columns: 1
        }]
    );
    assert!(encoder.copy_texture_to_buffer(&flat, 700, 500, &vec![copy(whole), copy(whole)]));
    assert_eq!(encoder.commands.len(), 3);
    assert!(encoder.copy_texture_to_texture(&flat, 700, &deep, 900, &Vec::new()));
    assert_eq!(encoder.commands.len(), 3);
    let region = TextureCopy {
        src_base: base(1, 1, 0, 0),
        dst_base: base(2, 0, 0, 1),
        size: extent(1, 1, 1),
    };
    assert!(encoder.copy_texture_to_texture(&flat, 700, &deep, 900, &vec![region]));
    assert_eq!(
        encoder.commands[3],
        Command::Copy2 {
            src: 700 + 1 + 64,
            dst: 900 + 2,
            src_pitch: 64,
            dst_pitch: 64,
            rows: 1,
            columns: 1
        }
    );
}

#[test]
fn queue_takes_buffers_in_order_and_then_the_signal() {
    let mut queue = Queue::new();
    let clear = |offset| Command::Clear { buffer: Region { offset, len: 1 } };
    queue.submit(&vec![vec![clear(1), clear(2)], vec![], vec![clear(3)]], Some((77, 9)));
    queue.submit(&vec![vec![clear(4)]], None);
    assert_eq!(
        queue.commands,
        vec![clear(1), clear(2), clear(3), Command::Signal { fence: 77, value: 9 }, clear(4)]
    );
}

#[test]
fn commands_move_to_where_their_resources_lie() {
    let rows = Command::Copy2 { src: 1, dst: 2, src_pitch: 3, dst_pitch: 4, rows: 5, columns: 6 };
    assert_eq!(
        place(Some(rows), 100, 200),
        Some(Command::Copy2 { src: 101, dst: 202, src_pitch: 3, dst_pitch: 4, rows: 5, columns: 6 })
    );
    assert_eq!(place(Some(rows), usize::MAX, 200), None);
    assert_eq!(place(Some(rows), 100, usize::MAX - 1), None);
    assert_eq!(place(None, 0, 0), None);
    let signal = Command::Signal { fence: 8, value: 9 };
    assert_eq!(place(Some(signal), usize::MAX, usize::MAX), Some(signal));
    let clear = Command::Clear { buffer: Region { offset: 5, len: 6 } };
    assert_eq!(
        place(Some(clear), 10, usize::MAX),
        Some(Command::Clear { buffer: Region { offset: 15, len: 6 } })
    );
}
