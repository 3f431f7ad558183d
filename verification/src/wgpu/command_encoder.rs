//! The commands of the software backend and their encoder.

use crate::wgpu::texture::{Texture, TextureDimension};
use crate::wgpu::{checked_plus, checked_times, plus, times, word, word_of};
use vstd::prelude::*;

verus! {

/// A run of bytes in a resource.
#[derive(Clone, Copy, Debug, PartialEq, Eq, Structural, Hash)]
pub struct Region {
    pub offset: usize,
    pub len: usize,
}

/// A recorded command. Places are addresses of bytes.
#[derive(Clone, Copy, Debug, PartialEq, Eq, Structural, Hash)]
pub enum Command {
    /// Set a run of bytes to zero.
    Clear { buffer: Region },
    /// Copy a run of bytes.
    Copy { src: Region, dst: usize },
    /// Copy `rows` rows of `columns` bytes; rows lie a pitch apart.
    Copy2 {
        src: usize,
        dst: usize,
        src_pitch: usize,
        dst_pitch: usize,
        rows: usize,
        columns: usize,
    },
    /// Copy `depth` planes of `rows` rows of `columns` bytes; rows lie a
    /// pitch apart, planes a depth pitch.
    Copy3 {
        src: usize,
        dst: usize,
        src_pitch: usize,
        dst_pitch: usize,
        src_depth_pitch: usize,
        dst_depth_pitch: usize,
        rows: usize,
        columns: usize,
        depth: usize,
    },
    /// Set the fence at an address to a value.
    Signal { fence: usize, value: u64 },
}

/// A copy between two buffers.
#[derive(Clone, Copy, Debug, PartialEq, Eq, Structural, Hash)]
pub struct BufferCopy {
    pub src_offset: u64,
    pub dst_offset: u64,
    pub size: u64,
}

#[derive(Clone, Copy, Debug, PartialEq, Eq, Structural, Hash)]
pub struct Origin3d {
    pub x: u32,
    pub y: u32,
    pub z: u32,
}

/// Where in a texture a copy begins.
#[derive(Clone, Copy, Debug, PartialEq, Eq, Structural, Hash)]
pub struct TextureCopyBase {
    pub array_layer: u32,
    pub origin: Origin3d,
}

#[derive(Clone, Copy, Debug, PartialEq, Eq, Structural, Hash)]
pub struct CopyExtent {
    pub width: u32,
    pub height: u32,
    pub depth: u32,
}

/// A copy between two textures.
#[derive(Clone, Copy, Debug, PartialEq, Eq, Structural, Hash)]
pub struct TextureCopy {
    pub src_base: TextureCopyBase,
    pub dst_base: TextureCopyBase,
    pub size: CopyExtent,
}

/// How an image lies in a buffer.
#[derive(Clone, Copy, Debug, PartialEq, Eq, Structural, Hash)]
pub struct ImageDataLayout {
    pub offset: u64,
    pub bytes_per_row: Option<u32>,
    pub rows_per_image: Option<u32>,
}

/// A copy between a buffer and a texture.
#[derive(Clone, Copy, Debug, PartialEq, Eq, Structural, Hash)]
pub struct BufferTextureCopy {
    pub buffer_layout: ImageDataLayout,
    pub texture_base: TextureCopyBase,
    pub size: CopyExtent,
}

/// An optional 32-bit number as a word.
pub open spec fn word_if(value: Option<u32>) -> Option<usize> {
    match value {
        Some(v) => word(v as int),
        None => None,
    }
}

/// The plane in which a copy begins: the larger of its depth and its
/// array layer.
pub open spec fn plane(base: TextureCopyBase) -> u32 {
    if base.origin.z >= base.array_layer {
        base.origin.z
    } else {
        base.array_layer
    }
}

/// The offset at which a copy begins in a texture whose rows lie `pitch`
/// apart.
pub open spec fn offset_in_plane(base: TextureCopyBase, pitch: Option<usize>) -> Option<usize> {
    plus(word(base.origin.x as int), times(word(base.origin.y as int), pitch))
}

/// The offset at which a copy begins in a texture whose rows lie `pitch`
/// apart and whose planes lie `depth_pitch` apart.
pub open spec fn offset_in_volume(
    base: TextureCopyBase,
    pitch: Option<usize>,
    depth_pitch: Option<usize>,
) -> Option<usize> {
    plus(offset_in_plane(base, pitch), times(word(plane(base) as int), depth_pitch))
}

/// The command for a run of bytes, where each part fits a word.
pub open spec fn copy_of(src: Option<usize>, len: Option<usize>, dst: Option<usize>) -> Option<
    Command,
> {
    match (src, len, dst) {
        (Some(src), Some(len), Some(dst)) => Some(
            Command::Copy { src: Region { offset: src, len }, dst },
        ),
        _ => None,
    }
}

/// The command for rows of bytes, where each part fits a word.
pub open spec fn copy2_of(
    src: Option<usize>,
    dst: Option<usize>,
    src_pitch: Option<usize>,
    dst_pitch: Option<usize>,
    size: CopyExtent,
) -> Option<Command> {
    match (src, dst, src_pitch, dst_pitch) {
        (Some(src), Some(dst), Some(src_pitch), Some(dst_pitch)) => Some(
            Command::Copy2 {
                src,
                dst,
                src_pitch,
                dst_pitch,
                rows: size.height as usize,
                columns: size.width as usize,
            },
        ),
        _ => None,
    }
}

/// The command for planes of rows of bytes, where each part fits a word.
pub open spec fn copy3_of(
    src: Option<usize>,
    dst: Option<usize>,
    src_pitch: Option<usize>,
    dst_pitch: Option<usize>,
    src_depth_pitch: Option<usize>,
    dst_depth_pitch: Option<usize>,
    size: CopyExtent,
) -> Option<Command> {
    match (src, dst, src_pitch, dst_pitch, src_depth_pitch, dst_depth_pitch) {
        (
            Some(src),
            Some(dst),
            Some(src_pitch),
            Some(dst_pitch),
            Some(src_depth_pitch),
            Some(dst_depth_pitch),
        ) => Some(
            Command::Copy3 {
                src,
                dst,
                src_pitch,
                dst_pitch,
                src_depth_pitch,
                dst_depth_pitch,
                rows: size.height as usize,
                columns: size.width as usize,
                depth: size.depth as usize,
            },
        ),
        _ => None,
    }
}

/// The distance between the rows of a texture of `width` texels of
/// `pixel_size` bytes.
pub open spec fn row_pitch(pixel_size: usize, width: u32) -> Option<usize> {
    times(Some(pixel_size), word(width as int))
}

/// The distance between the planes of a texture of `width` by `height`
/// texels of `pixel_size` bytes.
pub open spec fn plane_pitch(pixel_size: usize, width: u32, height: u32) -> Option<usize> {
    times(row_pitch(pixel_size, width), word(height as int))
}

/// The command that copies a region from one buffer to another.
pub open spec fn buffer_to_buffer(region: BufferCopy) -> Option<Command> {
    copy_of(
        word(region.src_offset as int),
        word(region.size as int),
        word(region.dst_offset as int),
    )
}

/// The command that copies a region from the texture `src` to the
/// texture `dst`, by the dimension of `src`, over offsets into the two.
/// Pitches go by the texel size of `src`.
pub open spec fn texture_to_texture(src: &Texture, dst: &Texture, region: TextureCopy) -> Option<
    Command,
> {
    let texel = src.pixel_size;
    match src.dimension {
        TextureDimension::D1 => copy_of(
            times(word(region.src_base.origin.x as int), Some(texel)),
            times(word(region.size.width as int), Some(texel)),
            times(word(region.dst_base.origin.x as int), Some(texel)),
        ),
        TextureDimension::D2 => copy2_of(
            offset_in_plane(region.src_base, row_pitch(texel, src.size.width)),
            offset_in_plane(region.dst_base, row_pitch(texel, dst.size.width)),
            row_pitch(texel, src.size.width),
            row_pitch(texel, dst.size.width),
            region.size,
        ),
        TextureDimension::D3 => copy3_of(
            offset_in_volume(
                region.src_base,
                row_pitch(texel, src.size.width),
                plane_pitch(texel, src.size.width, src.size.height),
            ),
            offset_in_volume(
                region.dst_base,
                row_pitch(texel, dst.size.width),
                plane_pitch(texel, dst.size.width, dst.size.height),
            ),
            row_pitch(texel, src.size.width),
            row_pitch(texel, dst.size.width),
            plane_pitch(texel, src.size.width, src.size.height),
            plane_pitch(texel, dst.size.width, dst.size.height),
            region.size,
        ),
    }
}

/// The distance between the rows of an image in a buffer.
pub open spec fn buffer_pitch(layout: ImageDataLayout) -> Option<usize> {
    word_if(layout.bytes_per_row)
}

/// The distance between the planes of an image in a buffer.
pub open spec fn buffer_plane_pitch(layout: ImageDataLayout) -> Option<usize> {
    times(word_if(layout.bytes_per_row), word_if(layout.rows_per_image))
}

/// The command that copies a region from a buffer to the texture `dst`,
/// by the dimension of `dst`.
pub open spec fn buffer_to_texture(dst: &Texture, region: BufferTextureCopy) -> Option<Command> {
    let texel = dst.pixel_size;
    let from = word(region.buffer_layout.offset as int);
    match dst.dimension {
        TextureDimension::D1 => copy_of(
            from,
            word(region.size.width as int),
            word(region.texture_base.origin.x as int),
        ),
        TextureDimension::D2 => copy2_of(
            from,
            offset_in_plane(region.texture_base, row_pitch(texel, dst.size.width)),
            buffer_pitch(region.buffer_layout),
            row_pitch(texel, dst.size.width),
            region.size,
        ),
        TextureDimension::D3 => copy3_of(
            from,
            offset_in_volume(
                region.texture_base,
                row_pitch(texel, dst.size.width),
                plane_pitch(texel, dst.size.width, dst.size.height),
            ),
            buffer_pitch(region.buffer_layout),
            row_pitch(texel, dst.size.width),
            buffer_plane_pitch(region.buffer_layout),
            plane_pitch(texel, dst.size.width, dst.size.height),
            region.size,
        ),
    }
}

/// The command that copies a region from the texture `src` to a buffer,
/// by the dimension of `src`.
pub open spec fn texture_to_buffer(src: &Texture, region: BufferTextureCopy) -> Option<Command> {
    let texel = src.pixel_size;
    let to = word(region.buffer_layout.offset as int);
    match src.dimension {
        TextureDimension::D1 => copy_of(
            times(word(region.texture_base.origin.x as int), Some(texel)),
            times(word(region.size.width as int), Some(texel)),
            to,
        ),
        TextureDimension::D2 => copy2_of(
            offset_in_plane(region.texture_base, row_pitch(texel, src.size.width)),
            to,
            row_pitch(texel, src.size.width),
            buffer_pitch(region.buffer_layout),
            region.size,
        ),
        TextureDimension::D3 => copy3_of(
            offset_in_volume(
                region.texture_base,
                row_pitch(texel, src.size.width),
                plane_pitch(texel, src.size.width, src.size.height),
            ),
            to,
            row_pitch(texel, src.size.width),
            buffer_pitch(region.buffer_layout),
            plane_pitch(texel, src.size.width, src.size.height),
            buffer_plane_pitch(region.buffer_layout),
            region.size,
        ),
    }
}

/// A command for places in two resources, moved to where the resources
/// lie: its source by the address `src`, its destination by the address
/// `dst`. `None` where an address does not fit a word.
pub open spec fn placed(command: Option<Command>, src: usize, dst: usize) -> Option<Command> {
    match command {
        Some(Command::Clear { buffer }) => match word(buffer.offset + src) {
            Some(offset) => Some(Command::Clear { buffer: Region { offset, len: buffer.len } }),
            None => None,
        },
        Some(Command::Copy { src: from, dst: to }) => match (
            word(from.offset + src),
            word(to + dst),
        ) {
            (Some(offset), Some(to)) => Some(
                Command::Copy { src: Region { offset, len: from.len }, dst: to },
            ),
            _ => None,
        },
        Some(
            Command::Copy2 { src: from, dst: to, src_pitch, dst_pitch, rows, columns },
        ) => match (word(from + src), word(to + dst)) {
            (Some(from), Some(to)) => Some(
                Command::Copy2 { src: from, dst: to, src_pitch, dst_pitch, rows, columns },
            ),
            _ => None,
        },
        Some(
            Command::Copy3 {
                src: from,
                dst: to,
                src_pitch,
                dst_pitch,
                src_depth_pitch,
                dst_depth_pitch,
                rows,
                columns,
                depth,
            },
        ) => match (word(from + src), word(to + dst)) {
            (Some(from), Some(to)) => Some(
                Command::Copy3 {
                    src: from,
                    dst: to,
                    src_pitch,
                    dst_pitch,
                    src_depth_pitch,
                    dst_depth_pitch,
                    rows,
                    columns,
                    depth,
                },
            ),
            _ => None,
        },
        Some(Command::Signal { fence, value }) => Some(Command::Signal { fence, value }),
        None => None,
    }
}

/// A command moved to where its resources lie.
pub fn place(command: Option<Command>, src: usize, dst: usize) -> (moved: Option<Command>)
    ensures
        moved == placed(command, src, dst),
{
    match command {
        Some(Command::Clear { buffer }) => match buffer.offset.checked_add(src) {
            Some(offset) => Some(Command::Clear { buffer: Region { offset, len: buffer.len } }),
            None => None,
        },
        Some(Command::Copy { src: from, dst: to }) => match (
            from.offset.checked_add(src),
            to.checked_add(dst),
        ) {
            (Some(offset), Some(to)) => Some(
                Command::Copy { src: Region { offset, len: from.len }, dst: to },
            ),
            _ => None,
        },
        Some(
            Command::Copy2 { src: from, dst: to, src_pitch, dst_pitch, rows, columns },
        ) => match (from.checked_add(src), to.checked_add(dst)) {
            (Some(from), Some(to)) => Some(
                Command::Copy2 { src: from, dst: to, src_pitch, dst_pitch, rows, columns },
            ),
            _ => None,
        },
        Some(
            Command::Copy3 {
                src: from,
                dst: to,
                src_pitch,
                dst_pitch,
                src_depth_pitch,
                dst_depth_pitch,
                rows,
                columns,
                depth,
            },
        ) => match (from.checked_add(src), to.checked_add(dst)) {
            (Some(from), Some(to)) => Some(
                Command::Copy3 {
                    src: from,
                    dst: to,
                    src_pitch,
                    dst_pitch,
                    src_depth_pitch,
                    dst_depth_pitch,
                    rows,
                    columns,
                    depth,
                },
            ),
            _ => None,
        },
        Some(Command::Signal { fence, value }) => Some(Command::Signal { fence, value }),
        None => None,
    }
}

/// The commands after those of `made` from `i` on have been recorded, up
/// to the first that is missing; and whether none was missing.
pub open spec fn recorded(commands: Seq<Command>, made: Seq<Option<Command>>, i: int) -> (
    Seq<Command>,
    bool,
)
    decreases made.len() - i,
{
    if i < 0 || i >= made.len() {
        (commands, true)
    } else {
        match made[i] {
            None => (commands, false),
            Some(command) => recorded(commands.push(command), made, i + 1),
        }
    }
}

fn some_u32(value: Option<u32>) -> (converted: Option<usize>)
    ensures
        converted == word_if(value),
{
    match value {
        Some(v) => Some(v as usize),
        None => None,
    }
}

fn make_copy(src: Option<usize>, len: Option<usize>, dst: Option<usize>) -> (command: Option<
    Command,
>)
    ensures
        command == copy_of(src, len, dst),
{
    match (src, len, dst) {
        (Some(src), Some(len), Some(dst)) => Some(
            Command::Copy { src: Region { offset: src, len }, dst },
        ),
        _ => None,
    }
}

fn make_copy2(
    src: Option<usize>,
    dst: Option<usize>,
    src_pitch: Option<usize>,
    dst_pitch: Option<usize>,
    size: CopyExtent,
) -> (command: Option<Command>)
    ensures
        command == copy2_of(src, dst, src_pitch, dst_pitch, size),
{
    match (src, dst, src_pitch, dst_pitch) {
        (Some(src), Some(dst), Some(src_pitch), Some(dst_pitch)) => Some(
            Command::Copy2 {
                src,
                dst,
                src_pitch,
                dst_pitch,
                rows: size.height as usize,
                columns: size.width as usize,
            },
        ),
        _ => None,
    }
}

fn make_copy3(
    src: Option<usize>,
    dst: Option<usize>,
    src_pitch: Option<usize>,
    dst_pitch: Option<usize>,
    src_depth_pitch: Option<usize>,
    dst_depth_pitch: Option<usize>,
    size: CopyExtent,
) -> (command: Option<Command>)
    ensures
        command == copy3_of(src, dst, src_pitch, dst_pitch, src_depth_pitch, dst_depth_pitch, size),
{
    match (src, dst, src_pitch, dst_pitch, src_depth_pitch, dst_depth_pitch) {
        (
            Some(src),
            Some(dst),
            Some(src_pitch),
            Some(dst_pitch),
            Some(src_depth_pitch),
            Some(dst_depth_pitch),
        ) => Some(
            Command::Copy3 {
                src,
                dst,
                src_pitch,
                dst_pitch,
                src_depth_pitch,
                dst_depth_pitch,
                rows: size.height as usize,
                columns: size.width as usize,
                depth: size.depth as usize,
            },
        ),
        _ => None,
    }
}

fn plane_offset(base: TextureCopyBase, pitch: Option<usize>) -> (offset: Option<usize>)
    ensures
        offset == offset_in_plane(base, pitch),
{
    checked_plus(
        Some(base.origin.x as usize),
        checked_times(Some(base.origin.y as usize), pitch),
    )
}

fn volume_offset(base: TextureCopyBase, pitch: Option<usize>, depth_pitch: Option<usize>) -> (offset:
    Option<usize>)
    ensures
        offset == offset_in_volume(base, pitch, depth_pitch),
{
    let plane: u32 = if base.origin.z >= base.array_layer {
        base.origin.z
    } else {
        base.array_layer
    };
    checked_plus(plane_offset(base, pitch), checked_times(Some(plane as usize), depth_pitch))
}

/// The command that copies a region from the texture `src` to the
/// texture `dst`.
pub fn texture_copy(src: &Texture, dst: &Texture, region: &TextureCopy) -> (command: Option<
    Command,
>)
    ensures
        command == texture_to_texture(src, dst, *region),
{
    let texel: usize = src.pixel_size;
    match src.dimension {
        TextureDimension::D1 => make_copy(
            checked_times(Some(region.src_base.origin.x as usize), Some(texel)),
            checked_times(Some(region.size.width as usize), Some(texel)),
            checked_times(Some(region.dst_base.origin.x as usize), Some(texel)),
        ),
        TextureDimension::D2 => {
            let src_pitch = checked_times(Some(texel), Some(src.size.width as usize));
            let dst_pitch = checked_times(Some(texel), Some(dst.size.width as usize));
            make_copy2(
                plane_offset(region.src_base, src_pitch),
                plane_offset(region.dst_base, dst_pitch),
                src_pitch,
                dst_pitch,
                region.size,
            )
        },
        TextureDimension::D3 => {
            let src_pitch = checked_times(Some(texel), Some(src.size.width as usize));
            let dst_pitch = checked_times(Some(texel), Some(dst.size.width as usize));
            let src_depth_pitch = checked_times(src_pitch, Some(src.size.height as usize));
            let dst_depth_pitch = checked_times(dst_pitch, Some(dst.size.height as usize));
            make_copy3(
                volume_offset(region.src_base, src_pitch, src_depth_pitch),
                volume_offset(region.dst_base, dst_pitch, dst_depth_pitch),
                src_pitch,
                dst_pitch,
                src_depth_pitch,
                dst_depth_pitch,
                region.size,
            )
        },
    }
}

/// The command that copies a region from a buffer to the texture `dst`.
pub fn buffer_texture_copy(dst: &Texture, region: &BufferTextureCopy) -> (command: Option<Command>)
    ensures
        command == buffer_to_texture(dst, *region),
{
    let texel: usize = dst.pixel_size;
    let from = word_of(region.buffer_layout.offset);
    match dst.dimension {
        TextureDimension::D1 => make_copy(
            from,
            Some(region.size.width as usize),
            Some(region.texture_base.origin.x as usize),
        ),
        TextureDimension::D2 => {
            let dst_pitch = checked_times(Some(texel), Some(dst.size.width as usize));
            make_copy2(
                from,
                plane_offset(region.texture_base, dst_pitch),
                some_u32(region.buffer_layout.bytes_per_row),
                dst_pitch,
                region.size,
            )
        },
        TextureDimension::D3 => {
            let dst_pitch = checked_times(Some(texel), Some(dst.size.width as usize));
            let dst_depth_pitch = checked_times(dst_pitch, Some(dst.size.height as usize));
            make_copy3(
                from,
                volume_offset(region.texture_base, dst_pitch, dst_depth_pitch),
                some_u32(region.buffer_layout.bytes_per_row),
                dst_pitch,
                checked_times(
                    some_u32(region.buffer_layout.bytes_per_row),
                    some_u32(region.buffer_layout.rows_per_image),
                ),
                dst_depth_pitch,
                region.size,
            )
        },
    }
}

/// The command that copies a region from the texture `src` to a buffer.
pub fn texture_buffer_copy(src: &Texture, region: &BufferTextureCopy) -> (command: Option<Command>)
    ensures
        command == texture_to_buffer(src, *region),
{
    let texel: usize = src.pixel_size;
    let to = word_of(region.buffer_layout.offset);
    match src.dimension {
        TextureDimension::D1 => make_copy(
            checked_times(Some(region.texture_base.origin.x as usize), Some(texel)),
            checked_times(Some(region.size.width as usize), Some(texel)),
            to,
        ),
        TextureDimension::D2 => {
            let src_pitch = checked_times(Some(texel), Some(src.size.width as usize));
            make_copy2(
                plane_offset(region.texture_base, src_pitch),
                to,
                src_pitch,
                some_u32(region.buffer_layout.bytes_per_row),
                region.size,
            )
        },
        TextureDimension::D3 => {
            let src_pitch = checked_times(Some(texel), Some(src.size.width as usize));
            let src_depth_pitch = checked_times(src_pitch, Some(src.size.height as usize));
            make_copy3(
                volume_offset(region.texture_base, src_pitch, src_depth_pitch),
                to,
                src_pitch,
                some_u32(region.buffer_layout.bytes_per_row),
                src_depth_pitch,
                checked_times(
                    some_u32(region.buffer_layout.bytes_per_row),
                    some_u32(region.buffer_layout.rows_per_image),
                ),
                region.size,
            )
        },
    }
}

/// Records commands for later submission.
#[derive(Debug)]
pub struct CommandEncoder {
    pub commands: Vec<Command>,
}

impl CommandEncoder {
    pub fn new() -> (encoder: CommandEncoder)
        ensures
            encoder.commands@ == Seq::<Command>::empty(),
    {
        CommandEncoder { commands: Vec::new() }
    }

    /// Drops what has been recorded.
    pub fn discard_encoding(&mut self)
        ensures
            final(self).commands@ == Seq::<Command>::empty(),
    {
        self.commands.clear();
    }

    /// Hands out what has been recorded and starts anew.
    pub fn end_encoding(&mut self) -> (recorded: Vec<Command>)
        ensures
            recorded@ == old(self).commands@,
            final(self).commands@ == Seq::<Command>::empty(),
    {
        let mut commands: Vec<Command> = Vec::new();
        core::mem::swap(&mut self.commands, &mut commands);
        commands
    }

    /// Records the clearing of the bytes from `start` up to `end` of the
    /// buffer at the address `buffer`. Returns whether the range is one:
    /// whether its end does not come before its start, and its addresses
    /// fit a word.
    pub fn clear_buffer(&mut self, buffer: usize, start: u64, end: u64) -> (done: bool)
        ensures
            done == (start <= end && buffer + end <= usize::MAX),
            done ==> final(self).commands@ == old(self).commands@.push(
                Command::Clear {
                    buffer: Region {
                        offset: (buffer + start) as usize,
                        len: (end - start) as usize,
                    },
                },
            ),
            !done ==> final(self).commands@ == old(self).commands@,
    {
        if start <= end && end <= (usize::MAX - buffer) as u64 {
            self.commands.push(
                Command::Clear {
                    buffer: Region { offset: buffer + start as usize, len: (end - start) as usize },
                },
            );
            true
        } else {
            false
        }
    }

    /// Records a copy for each of `regions` from the buffer at the
    /// address `src` to the buffer at the address `dst`, up to the first
    /// whose numbers do not fit a word. Returns whether all were recorded.
    pub fn copy_buffer_to_buffer(&mut self, src: usize, dst: usize, regions: &Vec<BufferCopy>) -> (done:
        bool)
        ensures
            (final(self).commands@, done) == recorded(
                old(self).commands@,
                regions@.map_values(
                    |region: BufferCopy| placed(buffer_to_buffer(region), src, dst),
                ),
                0,
            ),
    {
        let ghost made = regions@.map_values(
            |region: BufferCopy| placed(buffer_to_buffer(region), src, dst),
        );
        let mut i: usize = 0;
        while i < regions.len()
            invariant
                made == regions@.map_values(
                    |region: BufferCopy| placed(buffer_to_buffer(region), src, dst),
                ),
                recorded(self.commands@, made, i as int) == recorded(old(self).commands@, made, 0),
            decreases regions@.len() - i,
        {
            let command = place(
                make_copy(
                    word_of(regions[i].src_offset),
                    word_of(regions[i].size),
                    word_of(regions[i].dst_offset),
                ),
                src,
                dst,
            );
            match command {
                Some(command) => self.commands.push(command),
                None => {
                    return false;
                },
            }
            i += 1;
        }
        true
    }

    /// Records a copy for each of `regions` from the texture `src`, whose
    /// texels lie at the address `from`, to the texture `dst`, whose
    /// texels lie at the address `to`, up to the first whose numbers do
    /// not fit a word. Returns whether all were recorded.
    pub fn copy_texture_to_texture(
        &mut self,
        src: &Texture,
        from: usize,
        dst: &Texture,
        to: usize,
        regions: &Vec<TextureCopy>,
    ) -> (done: bool)
        ensures
            (final(self).commands@, done) == recorded(
                old(self).commands@,
                regions@.map_values(
                    |region: TextureCopy| placed(texture_to_texture(src, dst, region), from, to),
                ),
                0,
            ),
    {
        let ghost made = regions@.map_values(
            |region: TextureCopy| placed(texture_to_texture(src, dst, region), from, to),
        );
        let mut i: usize = 0;
        while i < regions.len()
            invariant
                made == regions@.map_values(
                    |region: TextureCopy| placed(texture_to_texture(src, dst, region), from, to),
                ),
                recorded(self.commands@, made, i as int) == recorded(old(self).commands@, made, 0),
            decreases regions@.len() - i,
        {
            match place(texture_copy(src, dst, &regions[i]), from, to) {
                Some(command) => self.commands.push(command),
                None => {
                    return false;
                },
            }
            i += 1;
        }
        true
    }

    /// Records a copy for each of `regions` from the buffer at the
    /// address `from` to the texture `dst`, whose texels lie at the
    /// address `to`, up to the first that lacks a pitch it needs or whose
    /// numbers do not fit a word. Returns whether all were recorded.
    pub fn copy_buffer_to_texture(
        &mut self,
        from: usize,
        dst: &Texture,
        to: usize,
        regions: &Vec<BufferTextureCopy>,
    ) -> (done: bool)
        ensures
            (final(self).commands@, done) == recorded(
                old(self).commands@,
                regions@.map_values(
                    |region: BufferTextureCopy| placed(buffer_to_texture(dst, region), from, to),
                ),
                0,
            ),
    {
        let ghost made = regions@.map_values(
            |region: BufferTextureCopy| placed(buffer_to_texture(dst, region), from, to),
        );
        let mut i: usize = 0;
        while i < regions.len()
            invariant
                made == regions@.map_values(
                    |region: BufferTextureCopy| placed(buffer_to_texture(dst, region), from, to),
                ),
                recorded(self.commands@, made, i as int) == recorded(old(self).commands@, made, 0),
            decreases regions@.len() - i,
        {
            match place(buffer_texture_copy(dst, &regions[i]), from, to) {
                Some(command) => self.commands.push(command),
                None => {
                    return false;
                },
            }
            i += 1;
        }
        true
    }

    /// Records a copy for each of `regions` from the texture `src`, whose
    /// texels lie at the address `from`, to the buffer at the address
    /// `to`, up to the first that lacks a pitch it needs or whose numbers
    /// do not fit a word. Returns whether all were recorded.
    pub fn copy_texture_to_buffer(
        &mut self,
        src: &Texture,
        from: usize,
        to: usize,
        regions: &Vec<BufferTextureCopy>,
    ) -> (done: bool)
        ensures
            (final(self).commands@, done) == recorded(
                old(self).commands@,
                regions@.map_values(
                    |region: BufferTextureCopy| placed(texture_to_buffer(src, region), from, to),
                ),
                0,
            ),
    {
        let ghost made = regions@.map_values(
            |region: BufferTextureCopy| placed(texture_to_buffer(src, region), from, to),
        );
        let mut i: usize = 0;
        while i < regions.len()
            invariant
                made == regions@.map_values(
                    |region: BufferTextureCopy| placed(texture_to_buffer(src, region), from, to),
                ),
                recorded(self.commands@, made, i as int) == recorded(old(self).commands@, made, 0),
            decreases regions@.len() - i,
        {
            match place(texture_buffer_copy(src, &regions[i]), from, to) {
                Some(command) => self.commands.push(command),
                None => {
                    return false;
                },
            }
            i += 1;
        }
        true
    }
}

} // verus!
