use vstd::prelude::*;

verus! {

/// Bytes in one RGBA pixel of the output buffer.
pub const BYTES_PER_PIXEL: usize = 4;

/// Row alignment that the compute backend asks of buffer copies.
pub const ROW_ALIGN: usize = 256;

/// Smallest multiple of `ROW_ALIGN` that holds `width` RGBA pixels.
pub open spec fn padded_row_bytes(width: nat) -> nat {
    let bpr = width * 4;
    if bpr % 256 == 0 { bpr } else { bpr + (256 - bpr % 256) as nat }
}

/// Bytes per padded row and total bytes of a padded output buffer of
/// `width` by `height` pixels.
pub fn output_buffer_bytes_per_row_and_size(width: usize, height: usize) -> (r: (usize, usize))
    requires
        padded_row_bytes(width as nat) <= usize::MAX,
        padded_row_bytes(width as nat) * height <= usize::MAX,
    ensures
        r.0 == padded_row_bytes(width as nat),
        r.1 == padded_row_bytes(width as nat) * height,
        r.0 % ROW_ALIGN == 0,
        r.0 >= width * BYTES_PER_PIXEL,
        r.0 < width * BYTES_PER_PIXEL + ROW_ALIGN,
{
    assert(width * 4 <= padded_row_bytes(width as nat));
    let bpr_min: usize = width * BYTES_PER_PIXEL;
    let padding: usize = (ROW_ALIGN - bpr_min % ROW_ALIGN) % ROW_ALIGN;
    let bpr: usize = bpr_min + padding;
    let size: usize = bpr * height;
    (bpr, size)
}

/// The rows of a padded buffer with the padding cut off: row `r`, byte
/// `c` of the result is byte `c` of padded row `r`.
pub open spec fn unpadded_spec(padded: Seq<u8>, row_bytes: nat, stride: nat, height: nat) -> Seq<u8> {
    Seq::new(row_bytes * height, |i: int| padded[(i / row_bytes as int) * stride + i % row_bytes as int])
}

/// Copies the `width * 4` pixel bytes of each row out of a buffer whose
/// rows are padded to `bytes_per_row`.
pub fn strip_row_padding(padded: &Vec<u8>, width: usize, height: usize, bytes_per_row: usize) -> (r: Vec<u8>)
    requires
        width * BYTES_PER_PIXEL <= bytes_per_row,
        padded@.len() == bytes_per_row * height,
    ensures
        r@ == unpadded_spec(padded@, (width * 4) as nat, bytes_per_row as nat, height as nat),
{
    let row: usize = width * BYTES_PER_PIXEL;
    let ghost want = unpadded_spec(padded@, row as nat, bytes_per_row as nat, height as nat);
    let total: usize = padded.len();
    let mut out: Vec<u8> = Vec::new();
    let mut y: usize = 0;
    while y < height
        invariant
            total == padded@.len(),
            row == width * 4,
            row <= bytes_per_row,
            padded@.len() == bytes_per_row * height,
            y <= height,
            want == unpadded_spec(padded@, row as nat, bytes_per_row as nat, height as nat),
            out@.len() == y * row,
            forall|i: int| 0 <= i < out@.len() ==> out@[i] == want[i],
        decreases height - y,
    {
        proof {
            assert((y + 1) * bytes_per_row <= height * bytes_per_row) by (nonlinear_arith)
                requires y + 1 <= height;
            assert(y * bytes_per_row + bytes_per_row == (y + 1) * bytes_per_row) by (nonlinear_arith);
            assert(bytes_per_row * height == height * bytes_per_row) by (nonlinear_arith);
            assert((y + 1) * row <= height * row) by (nonlinear_arith)
                requires y + 1 <= height;
            assert(y * row + row == (y + 1) * row) by (nonlinear_arith);
        }
        let start: usize = y * bytes_per_row;
        let mut c: usize = 0;
        while c < row
            invariant
                total == padded@.len(),
                row == width * 4,
                row <= bytes_per_row,
                padded@.len() == bytes_per_row * height,
                y < height,
                start == y * bytes_per_row,
                start + bytes_per_row <= padded@.len(),
                (y + 1) * row <= height * row,
                want == unpadded_spec(padded@, row as nat, bytes_per_row as nat, height as nat),
                c <= row,
                out@.len() == y * row + c,
                forall|i: int| 0 <= i < out@.len() ==> out@[i] == want[i],
            decreases row - c,
        {
            proof {
                let i = (y * row + c) as int;
                assert(i / row as int == y && i % row as int == c) by {
                    vstd::arithmetic::div_mod::lemma_fundamental_div_mod_converse(
                        i,
                        row as int,
                        y as int,
                        c as int,
                    );
                }
                assert(i < height * row) by (nonlinear_arith)
                    requires i == y * row + c, c < row, (y + 1) * row <= height * row;
                assert(height * row == row * height) by (nonlinear_arith);
                assert(want.len() == row * height);
                assert(want[i] == padded@[(i / row as int) * bytes_per_row + i % row as int]);
                assert(want[i] == padded@[start + c]);
            }
            out.push(padded[start + c]);
            c = c + 1;
        }
        y = y + 1;
    }
    proof {
        assert(height * row == row * height) by (nonlinear_arith);
    }
    assert(out@ =~= want);
    out
}

/// Kernel pixels per output pixel along each axis.
pub fn ssaa_factor(enabled: bool) -> (r: u32)
    ensures
        r == if enabled { 2u32 } else { 1u32 },
{
    if enabled { 2 } else { 1 }
}

/// `ceil(n / d)`.
pub open spec fn div_ceil_spec(n: nat, d: nat) -> nat {
    ((n + d - 1) / d as int) as nat
}

/// Edge of a square tile of the conservative render pass.
pub const TILE_SIZE: u32 = 64;

/// Edge of a square workgroup of the compute kernel.
pub const WORKGROUP_SIZE: u32 = 16;

/// Workgroups along one axis of a kernel target of `extent` pixels.
pub fn workgroups(extent: u32) -> (r: u32)
    ensures
        r == div_ceil_spec(extent as nat, WORKGROUP_SIZE as nat),
{
    let r: u64 = (extent as u64 + 15) / 16;
    r as u32
}

/// Whether the render is split into small scissored tiles, so that no
/// single pass runs long enough to trip a driver watchdog.
pub open spec fn needs_tiling_spec(iterations: nat, width: nat, height: nat, ssaa: bool) -> bool {
    iterations > 50_000 || (width * height >= 1000 * 1000 && ssaa) || width * height >= 2560 * 1440
}

pub fn needs_tiling(iterations: u32, width: u32, height: u32, ssaa: bool) -> (r: bool)
    ensures
        r == needs_tiling_spec(iterations as nat, width as nat, height as nat, ssaa),
{
    assert(width as u64 * height as u64 <= 0xffff_ffffu64 * 0xffff_ffffu64) by (nonlinear_arith)
        requires width <= 0xffff_ffffu32, height <= 0xffff_ffffu32;
    let px: u64 = width as u64 * height as u64;
    iterations > 50_000 || (px >= 1000 * 1000 && ssaa) || px >= 2560 * 1440
}

/// Number of tiles along an axis of `extent` pixels.
pub fn tile_count(extent: u32) -> (r: u32)
    ensures
        r == div_ceil_spec(extent as nat, TILE_SIZE as nat),
{
    let r: u64 = (extent as u64 + 63) / 64;
    r as u32
}

/// Origin and size, along one axis, of tile `t` of a target `extent`
/// pixels long: it starts at `64·t` and is `min(64, extent − 64·t)` long.
pub fn tile_span(t: u32, extent: u32) -> (r: (u32, u32))
    requires
        (t as nat) < div_ceil_spec(extent as nat, TILE_SIZE as nat),
    ensures
        r.0 == 64 * t,
        r.0 < extent,
        r.1 == if extent - r.0 < 64 { extent - r.0 } else { 64 },
        r.0 + r.1 <= extent,
        r.1 >= 1,
{
    assert(64 * t < extent) by (nonlinear_arith)
        requires t < (extent + 63) / 64;
    let x: u32 = 64 * t;
    let rest: u32 = extent - x;
    let w: u32 = if rest < 64 { rest } else { 64 };
    (x, w)
}

/// The tiles of an axis partition it: pixel `p` lies in tile `p / 64`,
/// which exists and spans it, and in no other tile.
pub proof fn tiles_partition_axis(p: nat, extent: nat, t: nat)
    requires
        p < extent,
    ensures
        p / 64 < div_ceil_spec(extent, TILE_SIZE as nat),
        64 * (p / 64) <= p,
        p < 64 * (p / 64) + if extent - 64 * (p / 64) < 64 { extent - 64 * (p / 64) } else { 64 },
        64 * t <= p < 64 * t + 64 ==> t == p / 64,
{
    let q = p / 64;
    vstd::arithmetic::div_mod::lemma_fundamental_div_mod(p as int, 64);
    assert(p % 64 < 64);
    assert(q < (extent + 63) / 64) by {
        vstd::arithmetic::div_mod::lemma_div_is_ordered((p + 64) as int, (extent + 63) as int, 64);
        vstd::arithmetic::div_mod::lemma_div_plus_one(p as int, 64);
    }
    if 64 * t <= p && p < 64 * t + 64 {
        vstd::arithmetic::div_mod::lemma_fundamental_div_mod_converse(p as int, 64, t as int, (p - 64 * t) as int);
    }
}

/// The remaining-work counter as the device writes it: four bytes, least
/// significant first.
pub open spec fn le_u32(b: [u8; 4]) -> nat {
    b[0] as nat + 256 * b[1] as nat + 65536 * b[2] as nat + 16777216 * b[3] as nat
}

pub fn counter_from_le_bytes(b: [u8; 4]) -> (r: u32)
    ensures
        r == le_u32(b),
{
    let v: u64 = b[0] as u64 + 256 * b[1] as u64 + 65536 * b[2] as u64 + 16777216 * b[3] as u64;
    v as u32
}

/// Position of a kernel pixel across its axis, on `[-1, 1]`:
/// `2·(p + 0.5)/extent − 1 = (2p + 1 − extent)/extent`, as that numerator
/// over the denominator `extent`.
pub fn unit_offset(p: u32, extent: u32) -> (r: (i64, u32))
    ensures
        r.0 == 2 * p + 1 - extent,
        r.1 == extent,
{
    (2 * p as i64 + 1 - extent as i64, extent)
}

/// Index, in the kernel target of `factor·width` columns, of sample
/// `(i, j)` of output pixel `(x, y)`.
pub open spec fn sample_index(x: nat, y: nat, i: nat, j: nat, width: nat, factor: nat) -> nat {
    (factor * y + j) * (factor * width) + (factor * x + i)
}

/// The `factor²` kernel samples that the resolve pass averages, in linear
/// light, into output pixel `(x, y)`: row by row, `j` outer and `i` inner.
pub fn resolve_sources(x: u32, y: u32, width: u32, height: u32, factor: u32) -> (r: Vec<u64>)
    requires
        x < width,
        y < height,
        1 <= factor <= 2,
        (factor * width) * (factor * height) <= u32::MAX,
    ensures
        r@.len() == factor * factor,
        forall|j: int, i: int| 0 <= j < factor && 0 <= i < factor ==>
            r@[j * factor + i] == #[trigger] sample_index(x as nat, y as nat, i as nat, j as nat, width as nat, factor as nat),
{
    let mut out: Vec<u64> = Vec::new();
    let k: u64 = factor as u64;
    assert(k * width <= 2 * width) by (nonlinear_arith)
        requires k <= 2;
    let tw: u64 = k * width as u64;
    let mut j: u64 = 0;
    while j < k
        invariant
            k == factor,
            1 <= k <= 2,
            x < width,
            y < height,
            tw == k * width,
            (k * width) * (k * height) <= u32::MAX,
            j <= k,
            out@.len() == j * k,
            forall|jj: int, ii: int| 0 <= jj < j && 0 <= ii < k ==>
                out@[jj * k + ii] == #[trigger] sample_index(x as nat, y as nat, ii as nat, jj as nat, width as nat, factor as nat),
        decreases k - j,
    {
        let mut i: u64 = 0;
        while i < k
            invariant
                k == factor,
                1 <= k <= 2,
                x < width,
                y < height,
                tw == k * width,
                (k * width) * (k * height) <= u32::MAX,
                j < k,
                i <= k,
                out@.len() == j * k + i,
                forall|jj: int, ii: int| 0 <= jj < j && 0 <= ii < k ==>
                    out@[jj * k + ii] == #[trigger] sample_index(x as nat, y as nat, ii as nat, jj as nat, width as nat, factor as nat),
                forall|ii: int| 0 <= ii < i ==>
                    out@[j * k + ii] == #[trigger] sample_index(x as nat, y as nat, ii as nat, j as nat, width as nat, factor as nat),
            decreases k - i,
        {
            assert(k * y + j < k * height) by (nonlinear_arith)
                requires y < height, j < k;
            assert(k * x + i < tw) by (nonlinear_arith)
                requires x < width, i < k, tw == k * width;
            assert((k * y + j) * tw + (k * x + i) < (k * height) * tw) by (nonlinear_arith)
                requires k * y + j < k * height, k * x + i < tw;
            assert((k * height) * tw == (k * width) * (k * height)) by (nonlinear_arith)
                requires tw == k * width;
            let ghost a = k * y + j;
            let ghost b = k * x + i;
            assert(a * tw <= a * tw + b);
            assert(k * y <= 2 * y) by (nonlinear_arith)
                requires k <= 2;
            assert(k * x <= 2 * x) by (nonlinear_arith)
                requires k <= 2;
            let ky: u64 = k * y as u64;
            let kx: u64 = k * x as u64;
            let v: u64 = (ky + j) * tw + (kx + i);
            out.push(v);
            proof {
                assert forall|jj: int, ii: int| 0 <= jj < j && 0 <= ii < k implies
                    out@[jj * k + ii] == #[trigger] sample_index(x as nat, y as nat, ii as nat, jj as nat, width as nat, factor as nat) by {
                    assert(jj * k + ii < j * k) by (nonlinear_arith)
                        requires jj < j, ii < k, jj >= 0, ii >= 0;
                }
            }
            i = i + 1;
        }
        proof {
            assert forall|jj: int, ii: int| 0 <= jj < j + 1 && 0 <= ii < k implies
                out@[jj * k + ii] == #[trigger] sample_index(x as nat, y as nat, ii as nat, jj as nat, width as nat, factor as nat) by {
                if jj < j {
                } else {
                    assert(jj == j);
                }
            }
            assert(out@.len() == (j + 1) * k) by (nonlinear_arith)
                requires out@.len() == j * k + k;
        }
        j = j + 1;
    }
    out
}

proof fn lemma_split_unique(a: int, b: int, c: int, d: int, m: int)
    requires
        m > 0,
        0 <= b < m,
        0 <= d < m,
        a >= 0,
        c >= 0,
        a * m + b == c * m + d,
    ensures
        a == c,
        b == d,
{
    vstd::arithmetic::div_mod::lemma_fundamental_div_mod_converse(a * m + b, m, a, b);
    vstd::arithmetic::div_mod::lemma_fundamental_div_mod_converse(c * m + d, m, c, d);
}

/// The resolve pass reads every kernel sample exactly once: distinct
/// samples of distinct output pixels sit at distinct places of the target,
/// and each place of the `factor·width` by `factor·height` target is one of
/// them.
pub proof fn resolve_partitions_target(
    x: nat,
    y: nat,
    i: nat,
    j: nat,
    x2: nat,
    y2: nat,
    i2: nat,
    j2: nat,
    n: nat,
    width: nat,
    height: nat,
    factor: nat,
)
    requires
        factor >= 1,
        x < width,
        x2 < width,
        i < factor,
        i2 < factor,
        j < factor,
        j2 < factor,
    ensures
        sample_index(x, y, i, j, width, factor) == sample_index(x2, y2, i2, j2, width, factor) ==> (x == x2
            && y == y2 && i == i2 && j == j2),
        n < (factor * width) * (factor * height) ==> ({
            let col = n % (factor * width);
            let row = n / (factor * width);
            &&& col / factor < width
            &&& row / factor < height
            &&& sample_index(col / factor, row / factor, col % factor, row % factor, width, factor) == n
        }),
{
    let k = factor as int;
    let w = width as int;
    let tw = k * w;
    assert(tw > 0) by (nonlinear_arith)
        requires k >= 1, w > 0, tw == k * w;
    assert(k * x + i < tw && k * x2 + i2 < tw) by (nonlinear_arith)
        requires x < w, x2 < w, i < k, i2 < k, tw == k * w;
    if sample_index(x, y, i, j, width, factor) == sample_index(x2, y2, i2, j2, width, factor) {
        assert((k * y + j) * tw + (k * x + i) == (k * y2 + j2) * tw + (k * x2 + i2));
        lemma_split_unique(k * y + j, k * x + i, k * y2 + j2, k * x2 + i2, tw);
        assert(y * k + j == y2 * k + j2) by (nonlinear_arith)
            requires k * y + j == k * y2 + j2;
        lemma_split_unique(y as int, j as int, y2 as int, j2 as int, k);
        assert(x * k + i == x2 * k + i2) by (nonlinear_arith)
            requires k * x + i == k * x2 + i2;
        lemma_split_unique(x as int, i as int, x2 as int, i2 as int, k);
    }
    if n < (factor * width) * (factor * height) {
        let ni = n as int;
        let h = height as int;
        let th = k * h;
        let col = ni % tw;
        let row = ni / tw;
        vstd::arithmetic::div_mod::lemma_fundamental_div_mod(ni, tw);
        vstd::arithmetic::div_mod::lemma_fundamental_div_mod(col, k);
        vstd::arithmetic::div_mod::lemma_fundamental_div_mod(row, k);
        vstd::arithmetic::div_mod::lemma_multiply_divide_lt(col, k, w);
        assert(ni < tw * th) by (nonlinear_arith)
            requires ni < (k * w) * (k * h), tw == k * w, th == k * h;
        vstd::arithmetic::div_mod::lemma_multiply_divide_lt(ni, tw, th);
        vstd::arithmetic::div_mod::lemma_multiply_divide_lt(row, k, h);
        assert(col == k * (col / k) + col % k);
        assert(row == k * (row / k) + row % k);
        assert(ni == tw * row + col);
        assert(sample_index((col / k) as nat, (row / k) as nat, (col % k) as nat, (row % k) as nat, width, factor)
            == (k * (row / k) + row % k) * tw + (k * (col / k) + col % k));
        assert((k * (row / k) + row % k) * tw == tw * row) by (nonlinear_arith)
            requires row == k * (row / k) + row % k;
    }
}

/// Without super-sampling, output pixel `(x, y)` is resolved from the one
/// kernel sample at the same place: the resolve is a pass-through.
pub proof fn single_sample_passthrough(x: nat, y: nat, width: nat)
    ensures
        sample_index(x, y, 0, 0, width, 1) == y * width + x,
{
}

/// Bytes of the pixel-state store: six 4-byte words for each pixel of a
/// `factor·width` by `factor·height` kernel target.
pub fn pixel_state_bytes(width: u32, height: u32, factor: u32) -> (r: u64)
    requires
        (factor * width) * (factor * height) <= u32::MAX,
    ensures
        r == 24 * ((factor * width) * (factor * height)),
{
    assert(factor as u64 * width as u64 <= 0xffff_ffffu64 * 0xffff_ffffu64) by (nonlinear_arith)
        requires factor <= 0xffff_ffffu32, width <= 0xffff_ffffu32;
    assert(factor as u64 * height as u64 <= 0xffff_ffffu64 * 0xffff_ffffu64) by (nonlinear_arith)
        requires factor <= 0xffff_ffffu32, height <= 0xffff_ffffu32;
    let tw: u64 = factor as u64 * width as u64;
    let th: u64 = factor as u64 * height as u64;
    24 * (tw * th)
}

} // verus!
