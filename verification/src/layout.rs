//! Byte layout of RGBA8 pixel data in host memory and in copy buffers.
//!
//! Rows in a copy buffer start at multiples of a padded stride, so a buffer
//! that came back from the device holds padding after each row. The functions
//! here compute the stride and the sizes, and strip the padding again.
use vstd::arithmetic::div_mod::{lemma_fundamental_div_mod, lemma_fundamental_div_mod_converse};
use vstd::prelude::*;

verus! {

/// Bytes of one RGBA8 texel.
pub const BYTES_PER_PIXEL: u32 = 4;

/// The row alignment that texture-to-buffer copies commonly require.
pub const ROW_ALIGNMENT: u32 = 256;

/// Bytes of one row of `width` texels, without padding.
pub open spec fn row_bytes(width: nat) -> nat {
    width * 4
}

/// `n` rounded up to a multiple of `alignment`.
pub open spec fn align_up(n: nat, alignment: nat) -> nat {
    (((n + alignment - 1) / (alignment as int)) * alignment) as nat
}

/// Stride of a row of `width` texels in a copy buffer.
pub open spec fn padded_row_bytes(width: nat, alignment: nat) -> nat {
    align_up(row_bytes(width), alignment)
}

/// Bytes of a tightly packed `width` by `height` image.
pub open spec fn image_bytes(width: nat, height: nat) -> nat {
    width * height * 4
}

/// Bytes that a copy of `rows` rows of `row_len` bytes touches when rows are
/// `stride` bytes apart: whole strides for all rows but the last.
pub open spec fn copy_extent(row_len: nat, rows: nat, stride: nat) -> nat {
    if rows == 0 || row_len == 0 {
        0
    } else {
        ((rows - 1) * stride + row_len) as nat
    }
}

/// Where byte `k` of the tightly packed image lies in the padded buffer.
pub open spec fn source_index(k: int, row_len: int, stride: int) -> int {
    (k / row_len) * stride + k % row_len
}

/// The tightly packed image held in a padded buffer: row `r` is the first
/// `row_len` bytes at offset `r * stride`.
pub open spec fn unpadded(mapped: Seq<u8>, row_len: nat, rows: nat, stride: nat) -> Seq<u8> {
    Seq::new(row_len * rows, |k: int| mapped[source_index(k, row_len as int, stride as int)])
}

/// Byte `index` of a padded buffer was written by the copy: it lies in one of
/// the rows, before that row's padding.
pub open spec fn written_by_copy(index: int, row_len: nat, rows: nat, stride: nat) -> bool {
    &&& 0 <= index < copy_extent(row_len, rows, stride)
    &&& 0 <= index / (stride as int) < rows
    &&& 0 <= index % (stride as int) < row_len
}

/// Whether a padded buffer of `len` bytes holds `rows` rows of `row_len` bytes.
pub open spec fn holds_rows(len: nat, row_len: nat, rows: nat, stride: nat) -> bool {
    stride >= row_len && len >= copy_extent(row_len, rows, stride)
}

/// `align_up` gives the least multiple of the alignment that is not below `n`.
pub proof fn lemma_align_up_is_least_multiple(n: nat, alignment: nat)
    requires
        alignment > 0,
    ensures
        align_up(n, alignment) % alignment == 0,
        n <= align_up(n, alignment) < n + alignment,
        forall|m: nat| m >= n && #[trigger] (m % alignment) == 0 ==> m >= align_up(n, alignment),
{
    let a = alignment as int;
    let x = n + a - 1;
    let q = x / a;
    lemma_fundamental_div_mod(x, a);
    assert(x == a * q + x % a);
    assert(0 <= x % a < a);
    assert(q * a == a * q) by (nonlinear_arith);
    assert(q >= 0) by (nonlinear_arith)
        requires
            a * q + x % a >= 0,
            x % a < a,
            a > 0,
    ;
    lemma_fundamental_div_mod_converse(q * a, a, q, 0);
    assert forall|m: nat| m >= n && #[trigger] (m % alignment) == 0 implies m >= align_up(
        n,
        alignment,
    ) by {
        lemma_fundamental_div_mod(m as int, a);
        let p = (m as int) / a;
        assert(m == a * p);
        assert(p >= q) by (nonlinear_arith)
            requires
                a * p >= n,
                a * q < n + a,
                a > 0,
        ;
        assert(a * p >= a * q) by (nonlinear_arith)
            requires
                p >= q,
                a > 0,
        ;
    }
}

/// Rounding up keeps the order of what is rounded.
pub proof fn lemma_align_up_is_monotone(a: nat, b: nat, alignment: nat)
    requires
        alignment > 0,
        a <= b,
    ensures
        align_up(a, alignment) <= align_up(b, alignment),
{
    lemma_align_up_is_least_multiple(a, alignment);
    lemma_align_up_is_least_multiple(b, alignment);
    let m = align_up(b, alignment);
    assert(m >= a && m % alignment == 0);
}

/// A copy whose rows need no padding, or that has a single row, touches
/// exactly the bytes of the packed image.
pub proof fn lemma_unpadded_copy_is_exact(width: nat, height: nat, stride: nat)
    requires
        width > 0,
        height > 0,
        stride == row_bytes(width) || height == 1,
    ensures
        copy_extent(row_bytes(width), height, stride) == image_bytes(width, height),
{
    assert((height - 1) * (width * 4) + width * 4 == width * height * 4) by (nonlinear_arith);
    if height == 1 {
        assert((height - 1) * stride == 0) by (nonlinear_arith)
            requires
                height == 1,
        ;
    }
}

/// Stride of a row of `width` RGBA8 texels, rounded up to `alignment`; `None`
/// when the stride does not fit the 32-bit field of a copy.
pub fn padded_bytes_per_row(width: u32, alignment: u32) -> (r: Option<u32>)
    requires
        alignment > 0,
    ensures
        match r {
            Some(stride) => stride == padded_row_bytes(width as nat, alignment as nat),
            None => padded_row_bytes(width as nat, alignment as nat) > u32::MAX,
        },
{
    let unpadded: u64 = width as u64 * 4;
    let a: u64 = alignment as u64;
    let blocks: u64 = (unpadded + a - 1) / a;
    proof {
        lemma_align_up_is_least_multiple(unpadded as nat, a as nat);
        assert(blocks * a == align_up(unpadded as nat, a as nat));
    }
    let stride: u64 = blocks * a;
    if stride > u32::MAX as u64 {
        None
    } else {
        Some(stride as u32)
    }
}

/// Bytes of a tightly packed `width` by `height` RGBA8 image; `None` when that
/// is more than a host buffer can hold.
pub fn image_size(width: u32, height: u32) -> (r: Option<usize>)
    ensures
        match r {
            Some(n) => n == image_bytes(width as nat, height as nat),
            None => image_bytes(width as nat, height as nat) > usize::MAX,
        },
{
    proof {
        assert(width * height <= 0xffff_ffff * 0xffff_ffff) by (nonlinear_arith)
            requires
                width <= 0xffff_ffff,
                height <= 0xffff_ffff,
        ;
    }
    let texels: u64 = width as u64 * height as u64;
    if texels > (usize::MAX / 4) as u64 {
        None
    } else {
        Some((texels * 4) as usize)
    }
}

/// Byte `k` of the packed image is read from column `k % row_len` of row
/// `k / row_len` of the padded buffer, a byte that the copy wrote.
pub proof fn lemma_source_index_is_copied(k: int, row_len: nat, rows: nat, stride: nat)
    requires
        0 <= k < row_len * rows,
        stride >= row_len,
    ensures
        written_by_copy(source_index(k, row_len as int, stride as int), row_len, rows, stride),
        source_index(k, row_len as int, stride as int) / (stride as int) == k / (row_len as int),
        source_index(k, row_len as int, stride as int) % (stride as int) == k % (row_len as int),
        0 <= k / (row_len as int) < rows,
        0 <= k % (row_len as int) < row_len,
{
    let len = row_len as int;
    let s = stride as int;
    assert(len > 0 && rows > 0) by (nonlinear_arith)
        requires
            0 <= k < len * rows,
            len >= 0,
            rows >= 0,
    ;
    lemma_fundamental_div_mod(k, len);
    let q = k / len;
    let c = k % len;
    assert(0 <= q < rows) by (nonlinear_arith)
        requires
            k == len * q + c,
            0 <= c < len,
            0 <= k < len * rows,
    ;
    assert(q * s <= (rows - 1) * s) by (nonlinear_arith)
        requires
            0 <= q <= rows - 1,
            s >= 0,
    ;
    assert(q * s >= 0) by (nonlinear_arith)
        requires
            q >= 0,
            s >= 0,
    ;
    lemma_fundamental_div_mod_converse(q * s + c, s, q, c);
}

/// Strips the row padding from a buffer that a texture-to-buffer copy filled.
///
/// Returns the `width * height * 4` bytes of the image, row by row, when
/// `stride` is at least a row long and `mapped` reaches to the end of the last
/// row; `None` otherwise.
pub fn unpad_rows(mapped: &Vec<u8>, width: u32, height: u32, stride: u32) -> (r: Option<Vec<u8>>)
    ensures
        r is Some <==> holds_rows(
            mapped@.len(),
            row_bytes(width as nat),
            height as nat,
            stride as nat,
        ),
        r matches Some(out) ==> out@ == unpadded(
            mapped@,
            row_bytes(width as nat),
            height as nat,
            stride as nat,
        ) && out@.len() == image_bytes(width as nat, height as nat),
        r matches Some(out) ==> forall|k: int|
            0 <= k < out@.len() ==> written_by_copy(
                #[trigger] source_index(k, row_bytes(width as nat) as int, stride as int),
                row_bytes(width as nat),
                height as nat,
                stride as nat,
            ),
{
    let row_len: u64 = width as u64 * 4;
    if (stride as u64) < row_len {
        return None;
    }
    let rows: u64 = height as u64;
    let step: u64 = stride as u64;
    let needed: u64 = if rows == 0 || row_len == 0 {
        0
    } else {
        proof {
            assert((rows - 1) * step <= 0xffff_ffff * 0xffff_ffff) by (nonlinear_arith)
                requires
                    0 <= rows - 1 <= 0xffff_ffff,
                    0 <= step <= 0xffff_ffff,
            ;
        }
        (rows - 1) * step + row_len
    };
    if (mapped.len() as u64) < needed {
        return None;
    }
    let ghost len = row_len as nat;
    let ghost count = rows as nat;
    let ghost gap = step as nat;
    assert(image_bytes(width as nat, height as nat) == len * count) by (nonlinear_arith)
        requires
            len == width * 4,
            count == height,
    ;
    let mut out: Vec<u8> = Vec::new();
    if row_len == 0 || rows == 0 {
        assert(len * count == 0) by (nonlinear_arith)
            requires
                len == 0 || count == 0,
        ;
        assert(out@ =~= unpadded(mapped@, len, count, gap));
        return Some(out);
    }
    let mut row: u64 = 0;
    while row < rows
        invariant
            row <= rows,
            rows == count,
            row_len == len,
            step == gap,
            0 < row_len <= step,
            rows > 0,
            needed == (rows - 1) * step + row_len,
            needed <= mapped@.len() <= usize::MAX,
            out@.len() == len * (row as nat),
            forall|k: int|
                0 <= k < out@.len() ==> out@[k] == mapped@[#[trigger] source_index(
                    k,
                    len as int,
                    gap as int,
                )],
        decreases rows - row,
    {
        let mut col: u64 = 0;
        proof {
            assert(row * step <= (rows - 1) * step) by (nonlinear_arith)
                requires
                    0 <= row <= rows - 1,
                    step >= 0,
            ;
        }
        let base: u64 = row * step;
        while col < row_len
            invariant
                col <= row_len,
                row < rows,
                rows == count,
                row_len == len,
                step == gap,
                0 < row_len <= step,
                base == row * step,
                base + row_len <= needed,
                needed <= mapped@.len() <= usize::MAX,
                out@.len() == len * (row as nat) + col,
                forall|k: int|
                    0 <= k < out@.len() ==> out@[k] == mapped@[#[trigger] source_index(
                        k,
                        len as int,
                        gap as int,
                    )],
            decreases row_len - col,
        {
            let at: usize = (base + col) as usize;
            let byte: u8 = mapped[at];
            proof {
                let k = out@.len() as int;
                assert(k == (row as int) * (len as int) + col) by (nonlinear_arith)
                    requires
                        k == len * (row as nat) + col,
                ;
                lemma_fundamental_div_mod_converse(k, len as int, row as int, col as int);
                assert(source_index(k, len as int, gap as int) == at);
            }
            out.push(byte);
            col = col + 1;
        }
        proof {
            assert(len * (row as nat) + len == len * ((row + 1) as nat)) by (nonlinear_arith);
        }
        row = row + 1;
    }
    proof {
        assert(out@ =~= unpadded(mapped@, len, count, gap));
        assert forall|k: int| 0 <= k < out@.len() implies written_by_copy(
            #[trigger] source_index(k, len as int, gap as int),
            len,
            count,
            gap,
        ) by {
            lemma_source_index_is_copied(k, len, count, gap);
        }
    }
    Some(out)
}

} // verus!
