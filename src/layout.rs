use vstd::prelude::*;

verus! {

/// A row of `row_bytes` bytes starting at row `row < height` ends inside the
/// `height * row_bytes` block.
pub proof fn lemma_row_offset(row: int, height: int, row_bytes: int)
    requires
        0 <= row < height,
        0 <= row_bytes,
    ensures
        row * row_bytes + row_bytes <= height * row_bytes,
        0 <= row * row_bytes,
{
    assert(row * row_bytes + row_bytes <= height * row_bytes) by (nonlinear_arith)
        requires
            0 <= row < height,
            0 <= row_bytes,
    ;
    assert(0 <= row * row_bytes) by (nonlinear_arith)
        requires
            0 <= row,
            0 <= row_bytes,
    ;
}

/// Column `col < width` of a packed row of depth `bpp` lies in byte
/// `col * bpp / 8` of the row's `ceil(width * bpp / 8)` bytes; at 16 bpp its
/// two bytes both lie in the row.
pub proof fn lemma_cell_index(col: int, width: int, bpp: int)
    requires
        0 <= col < width,
        bpp == 1 || bpp == 2 || bpp == 4 || bpp == 8 || bpp == 16,
    ensures
        col * bpp / 8 < (width * bpp + 7) / 8,
        bpp == 16 ==> 2 * col + 1 < (width * bpp + 7) / 8,
{
}

/// The byte that holds column `col` of a packed row of depth `bpp`.
pub proof fn lemma_pixel_byte(col: int, bpp: int)
    requires
        0 <= col,
        bpp == 1 || bpp == 2 || bpp == 4 || bpp == 8,
    ensures
        bpp == 1 ==> col * bpp / 8 == col / 8,
        bpp == 2 ==> col * bpp / 8 == col / 4,
        bpp == 4 ==> col * bpp / 8 == col / 2,
        bpp == 8 ==> col * bpp / 8 == col,
{
}

/// Rows `0..y` of a `w`-wide canvas end where row `y` begins, and all rows up
/// to `y` fit in `h` rows.
pub proof fn lemma_row_span(y: int, w: int, h: int)
    requires
        0 <= y < h,
        0 <= w,
    ensures
        (y + 1) * w == y * w + w,
        y * w + w <= w * h,
        0 <= y * w,
{
    vstd::arithmetic::mul::lemma_mul_is_distributive_add_other_way(w, y, 1);
    vstd::arithmetic::mul::lemma_mul_inequality(y + 1, h, w);
    vstd::arithmetic::mul::lemma_mul_is_commutative(w, h);
    vstd::arithmetic::mul::lemma_mul_nonnegative(y, w);
}

/// Index `y * w + x` of a row-major canvas, with `x < w`, is at column `x`
/// and row `y`.
pub proof fn lemma_index_split(i: int, y: int, x: int, w: int)
    requires
        0 <= x < w,
        0 <= y,
        i == y * w + x,
    ensures
        i % w == x,
        i / w == y,
{
    vstd::arithmetic::div_mod::lemma_fundamental_div_mod_converse(i, w, y, x);
}

} // verus!
