//! Reading one mip level back into host memory.
//!
//! A readback goes through a staging buffer in a fixed order: the buffer is
//! allocated, the copy into it is submitted, its map is requested, the device
//! is polled until the map completes, the mapped bytes are read, and the buffer
//! is unmapped. Each step is a method that consumes the state before it, so a
//! map cannot be requested before the copy is submitted, bytes cannot be read
//! before the map completed or after the unmap, and a buffer cannot be
//! unmapped before its map completed.
use crate::error::GpuError;
use crate::layout::{
    copy_extent, image_bytes, image_size, lemma_align_up_is_least_multiple, padded_bytes_per_row,
    padded_row_bytes, row_bytes, source_index, unpad_rows, unpadded, written_by_copy,
};
use vstd::prelude::*;

verus! {

/// A copy of one mip level of a texture into a buffer, from the origin of the
/// level to offset 0 of the buffer.
#[derive(Clone, Copy, Debug, PartialEq, Eq, Structural)]
pub struct CopyCommand {
    pub mip_level: u32,
    pub width: u32,
    pub height: u32,
    pub bytes_per_row: u32,
    pub rows_per_image: u32,
    pub buffer_size: u64,
}

impl CopyCommand {
    /// The copy of a `width` by `height` level with rows padded to
    /// `alignment`, into a buffer that ends with the last row.
    pub open spec fn of_level(mip_level: u32, width: u32, height: u32, alignment: u32) -> CopyCommand {
        CopyCommand {
            mip_level,
            width,
            height,
            bytes_per_row: padded_row_bytes(width as nat, alignment as nat) as u32,
            rows_per_image: height,
            buffer_size: copy_extent(
                row_bytes(width as nat),
                height as nat,
                padded_row_bytes(width as nat, alignment as nat),
            ) as u64,
        }
    }

    /// The sizes of the copy fit the fields that carry them and the host
    /// buffer fits in memory.
    pub open spec fn fits(width: u32, height: u32, alignment: u32) -> bool {
        &&& padded_row_bytes(width as nat, alignment as nat) <= u32::MAX
        &&& copy_extent(
            row_bytes(width as nat),
            height as nat,
            padded_row_bytes(width as nat, alignment as nat),
        ) <= u64::MAX
        &&& image_bytes(width as nat, height as nat) <= usize::MAX
    }

    /// Rows are at least a row long and the buffer ends with the last row.
    pub open spec fn consistent(self) -> bool {
        &&& self.bytes_per_row >= row_bytes(self.width as nat)
        &&& self.rows_per_image == self.height
        &&& self.buffer_size == copy_extent(
            row_bytes(self.width as nat),
            self.height as nat,
            self.bytes_per_row as nat,
        )
        &&& image_bytes(self.width as nat, self.height as nat) <= usize::MAX
    }

    /// The image that a buffer filled by this copy holds.
    pub open spec fn image(self, mapped: Seq<u8>) -> Seq<u8> {
        unpadded(mapped, row_bytes(self.width as nat), self.height as nat, self.bytes_per_row as nat)
    }
}

/// A staging buffer that was allocated; the copy into it is not yet submitted.
pub struct StagingBuffer {
    copy: CopyCommand,
}

/// A staging buffer whose copy was submitted to the queue.
pub struct SubmittedCopy {
    copy: CopyCommand,
}

/// A staging buffer whose map was requested and has not completed.
pub struct PendingMap {
    copy: CopyCommand,
    polls_left: u32,
}

/// A staging buffer whose map completed: its bytes can be read.
pub struct MappedBuffer {
    copy: CopyCommand,
}

/// Where a map stands after a poll.
pub enum MapState {
    /// The map completed.
    Mapped(MappedBuffer),
    /// The map has not completed and may be polled again.
    Pending(PendingMap),
}

impl StagingBuffer {
    #[verifier::type_invariant]
    spec fn consistent(&self) -> bool {
        self.copy.consistent()
    }

    /// The copy that fills the buffer.
    pub closed spec fn view(&self) -> CopyCommand {
        self.copy
    }

    /// Lays out the staging buffer for a `width` by `height` mip level whose
    /// rows are padded to `alignment` in the buffer. `None` exactly when a size
    /// does not fit.
    pub fn new(mip_level: u32, width: u32, height: u32, alignment: u32) -> (r: Option<
        StagingBuffer,
    >)
        requires
            alignment > 0,
        ensures
            r is Some <==> CopyCommand::fits(width, height, alignment),
            r matches Some(buffer) ==> buffer@ == CopyCommand::of_level(
                mip_level,
                width,
                height,
                alignment,
            ) && buffer@.consistent(),
            r matches Some(buffer) ==> {
                let copy = buffer@;
                &&& copy.mip_level == mip_level
                &&& copy.width == width
                &&& copy.height == height
                &&& copy.rows_per_image == height
                &&& copy.bytes_per_row == padded_row_bytes(width as nat, alignment as nat)
                &&& copy.bytes_per_row % alignment == 0
                &&& 4 * width <= copy.bytes_per_row < 4 * width + alignment
                &&& copy.buffer_size == copy_extent(
                    row_bytes(width as nat),
                    height as nat,
                    copy.bytes_per_row as nat,
                )
            },
    {
        let stride = match padded_bytes_per_row(width, alignment) {
            Some(stride) => stride,
            None => { return None; },
        };
        if image_size(width, height).is_none() {
            return None;
        }
        proof {
            lemma_align_up_is_least_multiple(row_bytes(width as nat), alignment as nat);
        }
        let extent: u128 = if height == 0 || width == 0 {
            0
        } else {
            proof {
                assert((height - 1) * stride <= 0xffff_ffff * 0xffff_ffff) by (nonlinear_arith)
                    requires
                        0 <= height - 1 <= 0xffff_ffff,
                        0 <= stride <= 0xffff_ffff,
                ;
            }
            (height - 1) as u128 * stride as u128 + width as u128 * 4
        };
        if extent > u64::MAX as u128 {
            return None;
        }
        Some(
            StagingBuffer {
                copy: CopyCommand {
                    mip_level,
                    width,
                    height,
                    bytes_per_row: stride,
                    rows_per_image: height,
                    buffer_size: extent as u64,
                },
            },
        )
    }

    /// The copy to record and the size to allocate.
    pub fn copy_command(&self) -> (r: CopyCommand)
        ensures
            r == self@,
            r.consistent(),
    {
        proof {
            use_type_invariant(self);
        }
        self.copy
    }

    /// The copy was submitted to the queue: the map may now be requested.
    pub fn submit(self) -> (r: SubmittedCopy)
        ensures
            r@ == self@,
    {
        proof {
            use_type_invariant(&self);
        }
        SubmittedCopy { copy: self.copy }
    }
}

impl SubmittedCopy {
    #[verifier::type_invariant]
    spec fn consistent(&self) -> bool {
        self.copy.consistent()
    }

    /// The copy that fills the buffer.
    pub closed spec fn view(&self) -> CopyCommand {
        self.copy
    }

    /// The map of the buffer was requested. The device may be polled
    /// `max_polls` times for it to complete, and at least once.
    pub fn map_async(self, max_polls: u32) -> (r: PendingMap)
        ensures
            r@ == self@,
            r.polls_left() == (if max_polls == 0 { 1u32 } else { max_polls }),
    {
        proof {
            use_type_invariant(&self);
        }
        PendingMap { copy: self.copy, polls_left: if max_polls == 0 { 1 } else { max_polls } }
    }
}

impl PendingMap {
    #[verifier::type_invariant]
    spec fn consistent(&self) -> bool {
        self.copy.consistent() && self.polls_left >= 1
    }

    /// The copy that fills the buffer.
    pub closed spec fn view(&self) -> CopyCommand {
        self.copy
    }

    /// How many more polls the wait allows.
    pub closed spec fn polls_left(&self) -> u32 {
        self.polls_left
    }

    /// How many more polls the wait allows, which is at least one.
    pub fn remaining_polls(&self) -> (r: u32)
        ensures
            r == self.polls_left(),
            r >= 1,
    {
        proof {
            use_type_invariant(self);
        }
        self.polls_left
    }

    /// Takes in the result of one poll of the device: whether the map's
    /// completion was signalled.
    ///
    /// A completed map can be read. One that has not completed may be polled
    /// again while the wait lasts; the poll that ends the wait without
    /// completion is `ReadbackTimeout`.
    pub fn poll(self, completed: bool) -> (r: Result<MapState, GpuError>)
        ensures
            completed ==> (r matches Ok(MapState::Mapped(buffer)) && buffer@ == self@),
            !completed && self.polls_left() > 1 ==> (r matches Ok(MapState::Pending(pending))
                && pending@ == self@ && pending.polls_left() == self.polls_left() - 1),
            !completed && self.polls_left() <= 1 ==> (r matches Err(e) && e
                == GpuError::ReadbackTimeout),
    {
        proof {
            use_type_invariant(&self);
        }
        if completed {
            Ok(MapState::Mapped(MappedBuffer { copy: self.copy }))
        } else if self.polls_left > 1 {
            Ok(MapState::Pending(PendingMap { copy: self.copy, polls_left: self.polls_left - 1 }))
        } else {
            Err(GpuError::ReadbackTimeout)
        }
    }
}

impl MappedBuffer {
    #[verifier::type_invariant]
    spec fn consistent(&self) -> bool {
        self.copy.consistent()
    }

    /// The copy that filled the buffer.
    pub closed spec fn view(&self) -> CopyCommand {
        self.copy
    }

    /// Copies the image out of the mapped bytes, row by row and without the
    /// padding.
    ///
    /// `mapped` is the mapped range of the buffer. The image is returned when
    /// the range reaches to the end of the last row, which a range of the
    /// whole buffer does. Every byte of the image is a byte that the copy
    /// wrote.
    pub fn read(&self, mapped: &Vec<u8>) -> (r: Option<Vec<u8>>)
        ensures
            r is Some <==> mapped@.len() >= self@.buffer_size,
            r matches Some(image) ==> image@ == self@.image(mapped@) && image@.len() == image_bytes(
                self@.width as nat,
                self@.height as nat,
            ),
            r matches Some(image) ==> forall|k: int|
                0 <= k < image@.len() ==> written_by_copy(
                    #[trigger] source_index(
                        k,
                        row_bytes(self@.width as nat) as int,
                        self@.bytes_per_row as int,
                    ),
                    row_bytes(self@.width as nat),
                    self@.height as nat,
                    self@.bytes_per_row as nat,
                ),
    {
        proof {
            use_type_invariant(self);
        }
        unpad_rows(mapped, self.copy.width, self.copy.height, self.copy.bytes_per_row)
    }

    /// The buffer is unmapped and can be destroyed: nothing can be read from
    /// it any more. Returns the size of the allocation that is released.
    pub fn unmap(self) -> (released: u64)
        ensures
            released == self@.buffer_size,
    {
        self.copy.buffer_size
    }
}

} // verus!
