//! Layout of a video frame for texture upload: rows of 4-byte pixels, `stride`
//! bytes apart in the decoded frame, re-packed so that each row starts at a
//! multiple of `ROW_ALIGN` bytes.
use vstd::prelude::*;

verus! {

/// Row alignment that texture uploads require, in bytes.
pub const ROW_ALIGN: u32 = 256;

/// `stride` rounded up to a multiple of `ROW_ALIGN`.
pub open spec fn spec_aligned_row(stride: u32) -> nat {
    ((stride + 255) / 256 * 256) as nat
}

/// Bytes per row of the upload buffer for rows `stride` bytes apart.
pub fn aligned_row_bytes(stride: u32) -> (r: u64)
    ensures
        r == spec_aligned_row(stride),
        r >= stride,
        r < stride + 256,
{
    (stride as u64 + 255) / 256 * 256
}

/// Row `y` of the upload buffer: the row's `row_len` pixel bytes, then zero
/// padding up to `row` bytes; all zero when the frame data is short.
pub open spec fn padded_row(data: Seq<u8>, row_len: nat, stride: nat, row: nat, y: nat) -> Seq<u8> {
    if y * stride + row_len <= data.len() {
        data.subrange((y * stride) as int, (y * stride + row_len) as int) + Seq::new(
            (row - row_len) as nat,
            |i: int| 0u8,
        )
    } else {
        Seq::new(row, |i: int| 0u8)
    }
}

/// The first `height` rows of the upload buffer.
pub open spec fn padded_frame(data: Seq<u8>, row_len: nat, stride: nat, row: nat, height: nat) -> Seq<u8>
    decreases height,
{
    if height == 0 {
        Seq::empty()
    } else {
        padded_frame(data, row_len, stride, row, (height - 1) as nat) + padded_row(
            data,
            row_len,
            stride,
            row,
            (height - 1) as nat,
        )
    }
}

proof fn lemma_padded_len(data: Seq<u8>, row_len: nat, stride: nat, row: nat, height: nat)
    requires
        row_len <= row,
    ensures
        padded_frame(data, row_len, stride, row, height).len() == height * row,
    decreases height,
{
    if height > 0 {
        let h1 = (height - 1) as nat;
        lemma_padded_len(data, row_len, stride, row, h1);
        assert(padded_row(data, row_len, stride, row, h1).len() == row);
        assert(padded_frame(data, row_len, stride, row, height) == padded_frame(data, row_len, stride, row, h1)
            + padded_row(data, row_len, stride, row, h1));
        assert(h1 * row + row == height * row) by (nonlinear_arith)
            requires
                h1 == height - 1,
        ;
    } else {
        assert(height * row == 0) by (nonlinear_arith)
            requires
                height == 0,
        ;
    }
}

/// Re-packs `height` rows of `width` pixels, `stride` bytes apart in `data`,
/// into rows of `aligned_row_bytes(stride)` bytes.
pub fn pad_rows(data: &[u8], width: u32, height: u32, stride: u32) -> (r: Vec<u8>)
    requires
        width * 4 <= stride,
        spec_aligned_row(stride) * height <= usize::MAX,
    ensures
        r@ == padded_frame(data@, (width * 4) as nat, stride as nat, spec_aligned_row(stride), height as nat),
        r@.len() == spec_aligned_row(stride) * height,
{
    let row: u64 = aligned_row_bytes(stride);
    let row_len: u64 = width as u64 * 4;
    let ghost rl = (width * 4) as nat;
    let mut out: Vec<u8> = Vec::new();
    let mut y: u64 = 0;
    while y < height as u64
        invariant
            y <= height,
            row == spec_aligned_row(stride),
            row_len == rl,
            rl <= stride <= row,
            row * height <= usize::MAX,
            out@ == padded_frame(data@, rl, stride as nat, row as nat, y as nat),
        decreases height - y,
    {
        proof {
            lemma_padded_len(data@, rl, stride as nat, row as nat, y as nat);
            assert(y * row + row <= height * row) by (nonlinear_arith)
                requires
                    y < height,
            ;
            assert(y * stride <= y * row) by (nonlinear_arith)
                requires
                    stride <= row,
            ;
            assert(y * stride + rl <= height * row);
            assert(usize::MAX <= u64::MAX);
            assert(height * row == row * height) by (nonlinear_arith);
        }
        let ghost before = out@;
        let start: u64 = y * stride as u64;
        let mut pad: u64 = row;
        if start + row_len <= data.len() as u64 {
            let end: u64 = start + row_len;
            out.extend_from_slice(&data[start as usize..end as usize]);
            pad = row - row_len;
        }
        let ghost copied = out@;
        let mut k: u64 = 0;
        while k < pad
            invariant
                k <= pad,
                out@ == copied + Seq::new(k as nat, |i: int| 0u8),
            decreases pad - k,
        {
            out.push(0u8);
            k = k + 1;
            assert(out@ =~= copied + Seq::new(k as nat, |i: int| 0u8));
        }
        proof {
            let r = padded_row(data@, rl, stride as nat, row as nat, y as nat);
            if start + row_len <= data@.len() {
                assert(copied =~= before + data@.subrange(start as int, (start + row_len) as int));
            } else {
                assert(copied =~= before);
            }
            assert(out@ =~= before + r);
        }
        y = y + 1;
    }
    proof {
        lemma_padded_len(data@, rl, stride as nat, row as nat, height as nat);
        assert(height * row == row * height) by (nonlinear_arith);
    }
    out
}

} // verus!
