use vstd::prelude::*;

use vstd::arithmetic::div_mod::{lemma_div_is_ordered, lemma_div_multiples_vanish, lemma_fundamental_div_mod_converse_div};

verus! {

/// Fixed-point unit: a coordinate `v` stands for `v / 2^24`.
pub const ONE: i64 = 16777216;

/// The iteration count at which a point counts as inside the set.
pub const MAX_ITERATIONS: u8 = 255;

/// Fixed-point product, rounded down.
pub open spec fn fmul(a: int, b: int) -> int {
    (a * b) / (ONE as int)
}

/// The iterations `z := z * z + c` takes, from `z = (x, y)` with `count`
/// already done, until `|z|` reaches 2 or the count reaches the maximum.
pub open spec fn escape(x: int, y: int, cx: int, cy: int, count: int) -> int
    decreases MAX_ITERATIONS - count,
{
    if count >= MAX_ITERATIONS || x * x + y * y >= 4 * ONE * ONE {
        count
    } else {
        escape(fmul(x, x) - fmul(y, y) + cx, fmul(2 * x, y) + cy, cx, cy, count + 1)
    }
}

/// Real part of the point for column `col` of a `size`-wide image: the
/// columns span `[-2, 1]`.
pub open spec fn start_re(col: int, size: int) -> int {
    (3 * col * ONE) / (size - 1) - 2 * ONE
}

/// Imaginary part of the point for row `row`: the rows span `[-1, 1]`.
pub open spec fn start_im(row: int, size: int) -> int {
    (2 * row * ONE) / (size - 1) - ONE
}

/// The texel at row-major index `id` of a `size` by `size` Mandelbrot
/// image: the escape count of its point. An image one texel wide has no
/// spacing between points, and its one texel is 0.
pub open spec fn texel(id: int, size: int) -> int {
    if size <= 1 {
        0
    } else {
        let cx = start_re(id % size, size);
        let cy = start_im(id / size, size);
        escape(cx, cy, cx, cy, 0)
    }
}

fn fixed_mul(a: i64, b: i64) -> (r: i64)
    requires
        -4 * ONE <= a <= 4 * ONE,
        -2 * ONE <= b <= 2 * ONE,
    ensures
        r == fmul(a as int, b as int),
        -8 * ONE <= r <= 8 * ONE,
{
    assert(-8 * ONE * ONE <= a * b <= 8 * ONE * ONE) by (nonlinear_arith)
        requires
            -4 * ONE <= a <= 4 * ONE,
            -2 * ONE <= b <= 2 * ONE,
    ;
    let p = a * b;
    let unit = ONE as u64;
    if p >= 0 {
        let q = (p as u64) / unit;
        proof {
            let m = p as int;
            lemma_fundamental_div_mod_converse_div(m, ONE as int, q as int, m - q * ONE);
            lemma_div_is_ordered(m, 8 * ONE * ONE, ONE as int);
            lemma_div_multiples_vanish(8 * ONE, ONE as int);
            assert(8 * ONE * ONE == (ONE as int) * (8 * ONE));
        }
        q as i64
    } else {
        let m = (-p) as u64;
        let q = (m + (unit - 1)) / unit;
        proof {
            let mi = m as int;
            let qi = q as int;
            assert(qi * ONE <= mi + ONE - 1 < qi * ONE + ONE);
            lemma_fundamental_div_mod_converse_div(p as int, ONE as int, -qi, p + qi * ONE);
            lemma_div_is_ordered(mi + ONE - 1, 8 * ONE * ONE + ONE - 1, ONE as int);
            lemma_fundamental_div_mod_converse_div(8 * ONE * ONE + ONE - 1, ONE as int, 8 * ONE, ONE - 1);
        }
        -(q as i64)
    }
}

fn escape_count(cx: i64, cy: i64) -> (r: u8)
    requires
        -2 * ONE <= cx <= 2 * ONE,
        -2 * ONE <= cy <= 2 * ONE,
    ensures
        r == escape(cx as int, cy as int, cx as int, cy as int, 0),
{
    let mut x = cx;
    let mut y = cy;
    let mut count: u8 = 0;
    loop
        invariant
            -2 * ONE <= cx <= 2 * ONE,
            -2 * ONE <= cy <= 2 * ONE,
            -16 * ONE <= x <= 16 * ONE,
            -16 * ONE <= y <= 16 * ONE,
            escape(x as int, y as int, cx as int, cy as int, count as int) == escape(
                cx as int,
                cy as int,
                cx as int,
                cy as int,
                0,
            ),
        decreases MAX_ITERATIONS - count,
    {
        assert(0 <= x * x <= 256 * ONE * ONE && 0 <= y * y <= 256 * ONE * ONE) by (nonlinear_arith)
            requires
                -16 * ONE <= x <= 16 * ONE,
                -16 * ONE <= y <= 16 * ONE,
        ;
        if count >= MAX_ITERATIONS || x * x + y * y >= 4 * ONE * ONE {
            return count;
        }
        assert(-2 * ONE <= x <= 2 * ONE && -2 * ONE <= y <= 2 * ONE) by (nonlinear_arith)
            requires
                x * x + y * y < 4 * ONE * ONE,
                x * x >= 0,
                y * y >= 0,
        ;
        let old_x = x;
        x = fixed_mul(x, x) - fixed_mul(y, y) + cx;
        y = fixed_mul(2 * old_x, y) + cy;
        count = count + 1;
    }
}

/// The texel at `id`; see `texel`.
fn texel_at(id: usize, size: usize) -> (t: u8)
    requires
        id < size * size,
        size * size <= usize::MAX,
    ensures
        t == texel(id as int, size as int),
{
    if size <= 1 {
        return 0;
    }
    assert(size < 0x1_0000_0000) by (nonlinear_arith)
        requires
            size * size <= usize::MAX,
            usize::MAX <= u64::MAX,
    ;
    let col = (id % size) as u64;
    let row = (id / size) as u64;
    assert(row < size) by (nonlinear_arith)
        requires
            id < size * size,
            row == id / size,
            size > 1,
    ;
    let d = (size - 1) as u64;
    let unit = ONE as u64;
    assert(3 * col * ONE <= 3 * d * ONE) by (nonlinear_arith)
        requires
            col <= d,
    ;
    assert(2 * row * ONE <= 2 * d * ONE) by (nonlinear_arith)
        requires
            row <= d,
    ;
    assert(3 * d * ONE < 0x1_0000_0000_0000_0000) by (nonlinear_arith)
        requires
            d < 0x1_0000_0000,
    ;
    let re = (3 * col * unit) / d;
    let im = (2 * row * unit) / d;
    proof {
        lemma_div_is_ordered(3 * col * ONE, 3 * d * ONE, d as int);
        lemma_div_is_ordered(2 * row * ONE, 2 * d * ONE, d as int);
        assert(3 * d * ONE == d * (3 * ONE)) by (nonlinear_arith);
        assert(2 * d * ONE == d * (2 * ONE)) by (nonlinear_arith);
        lemma_div_multiples_vanish(3 * ONE, d as int);
        lemma_div_multiples_vanish(2 * ONE, d as int);
    }
    let cx = re as i64 - 2 * ONE;
    let cy = im as i64 - ONE;
    escape_count(cx, cy)
}

/// A `size` by `size` single-channel texture approximating the Mandelbrot
/// set, row by row: each texel is the escape count of its point, iterated in
/// fixed-point arithmetic with 24 fractional bits (see `escape`). Near the
/// set's boundary a count can differ from one iterated in floating point.
pub fn create_texels(size: usize) -> (r: Vec<u8>)
    requires
        size * size <= usize::MAX,
    ensures
        r@.len() == size * size,
        forall|i: int| 0 <= i < size * size ==> #[trigger] r@[i] == texel(i, size as int),
{
    let n = size * size;
    let mut texels: Vec<u8> = Vec::with_capacity(n);
    let mut id: usize = 0;
    while id < n
        invariant
            n == size * size,
            n <= usize::MAX,
            id <= n,
            texels@.len() == id,
            forall|i: int| 0 <= i < id ==> texels@[i] == texel(i, size as int),
        decreases n - id,
    {
        let t = texel_at(id, size);
        texels.push(t);
        id = id + 1;
    }
    texels
}

} // verus!
