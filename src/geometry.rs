use vstd::prelude::*;

verus! {

/// Fixed-point units in one pixel, and in the scalar 1.
pub const UNIT: i64 = 1_000_000;

/// Fixed-point units in one percent of a length.
pub const UNITS_PER_PERCENT: i64 = 10_000;

pub open spec fn clamp64(x: int) -> i64 {
    if x > i64::MAX {
        i64::MAX
    } else if x < i64::MIN {
        i64::MIN
    } else {
        x as i64
    }
}

/// `x` pinned to the range of `i64`.
pub fn clamp_i128(x: i128) -> (r: i64)
    ensures
        r == clamp64(x as int),
{
    if x > i64::MAX as i128 {
        i64::MAX
    } else if x < i64::MIN as i128 {
        i64::MIN
    } else {
        x as i64
    }
}

/// The exact product of two `i64` values.
pub(crate) fn wide_mul(x: i64, y: i64) -> (r: i128)
    ensures
        r as int == x as int * y as int,
        -0x4000_0000_0000_0000_0000_0000_0000_0000 <= r <= 0x4000_0000_0000_0000_0000_0000_0000_0000,
{
    proof {
        let xi = x as int;
        let yi = y as int;
        assert(-0x4000_0000_0000_0000_0000_0000_0000_0000 <= xi * yi
            <= 0x4000_0000_0000_0000_0000_0000_0000_0000) by (nonlinear_arith)
            requires
                -0x8000_0000_0000_0000 <= xi <= 0x7fff_ffff_ffff_ffff,
                -0x8000_0000_0000_0000 <= yi <= 0x7fff_ffff_ffff_ffff,
        ;
    }
    (x as i128) * (y as i128)
}

/// Floor of `x / d` for a positive divisor.
pub(crate) fn floor_div(x: i128, d: i128) -> (r: i128)
    requires
        d > 0,
    ensures
        r as int == x as int / d as int,
{
    proof {
        vstd::arithmetic::div_mod::lemma_fundamental_div_mod(x as int, d as int);
        let q = x as int / d as int;
        let m = x as int % d as int;
        assert(x >= 0 ==> 0 <= q <= x) by (nonlinear_arith)
            requires
                x as int == d * q + m,
                0 <= m < d,
                d >= 1,
        ;
        assert(x < 0 ==> x <= q < 0) by (nonlinear_arith)
            requires
                x as int == d * q + m,
                0 <= m < d,
                d >= 1,
        ;
    }
    match x.checked_div_euclid(d) {
        Some(q) => q,
        None => 0,
    }
}

/// Fixed-point product: floor of `x * y / UNIT`.
pub open spec fn fx(x: int, y: int) -> int {
    (x * y) / (UNIT as int)
}

fn fx_mul(x: i64, y: i64) -> (r: i128)
    ensures
        r as int == fx(x as int, y as int),
        -0x1_0000_0000_0000_0000_0000_0000_0000 <= r <= 0x1_0000_0000_0000_0000_0000_0000_0000,
{
    let p = wide_mul(x, y);
    let q = floor_div(p, UNIT as i128);
    proof {
        let pi = p as int;
        vstd::arithmetic::div_mod::lemma_div_is_ordered(
            -0x4000_0000_0000_0000_0000_0000_0000_0000,
            pi,
            UNIT as int,
        );
        vstd::arithmetic::div_mod::lemma_div_is_ordered(
            pi,
            0x4000_0000_0000_0000_0000_0000_0000_0000,
            UNIT as int,
        );
    }
    q
}

/// A length in pixels, or a percentage of the length it is measured against.
#[derive(Clone, Copy, PartialEq, Eq, Structural, Debug)]
pub enum Size {
    Pixels(i64),
    Percent(i64),
}

/// `p` percent of `total`, rounded down.
pub open spec fn percent_of(total: int, p: int) -> int {
    (total * p) / 100
}

impl Size {
    /// This size in pixels against a length of `parent` pixels.
    pub open spec fn spec_pixels(self, parent: int) -> i64 {
        match self {
            Size::Pixels(p) => p,
            Size::Percent(p) => clamp64(percent_of(parent, p as int)),
        }
    }

    /// This size in fixed-point units against a length of `parent` pixels.
    pub open spec fn spec_units(self, parent: int) -> i64 {
        match self {
            Size::Pixels(p) => clamp64(p * UNIT),
            Size::Percent(p) => clamp64(parent * p * UNITS_PER_PERCENT),
        }
    }

    pub fn get_pixels(&self, parent: i64) -> (r: i64)
        ensures
            r == self.spec_pixels(parent as int),
    {
        match self {
            Size::Pixels(p) => *p,
            Size::Percent(p) => {
                let w = wide_mul(parent, *p);
                clamp_i128(floor_div(w, 100))
            },
        }
    }

    /// This size in pixels, measured against the first of `bounds`.
    pub fn evaluate(&self, bounds: (i64, i64)) -> (r: i64)
        ensures
            r == self.spec_pixels(bounds.0 as int),
    {
        self.get_pixels(bounds.0)
    }

    pub fn get_units(&self, parent: i64) -> (r: i64)
        ensures
            r == self.spec_units(parent as int),
    {
        match self {
            Size::Pixels(p) => scale_to_units(*p, UNIT),
            Size::Percent(p) => {
                let w = wide_mul(parent, *p);
                scale_wide(w, UNITS_PER_PERCENT)
            },
        }
    }

    pub open spec fn spec_mul(self, rhs: Size) -> Size {
        match (self, rhs) {
            (Size::Pixels(a), Size::Pixels(b)) => Size::Pixels(clamp64(a + b)),
            (Size::Pixels(a), Size::Percent(b)) => Size::Pixels(clamp64(a * b)),
            (Size::Percent(a), Size::Pixels(b)) => Size::Pixels(clamp64(a * b)),
            (Size::Percent(a), Size::Percent(b)) => Size::Percent(clamp64(a * b)),
        }
    }

    /// Chains two sizes as two translations would chain: two pixel lengths add;
    /// when a percentage is involved the two numbers multiply as they stand.
    pub fn mul(self, rhs: Size) -> (r: Size)
        ensures
            r == self.spec_mul(rhs),
    {
        match self {
            Size::Pixels(a) => match rhs {
                Size::Pixels(b) => Size::Pixels(clamp_i128(a as i128 + b as i128)),
                Size::Percent(b) => Size::Pixels(clamp_i128(wide_mul(a, b))),
            },
            Size::Percent(a) => match rhs {
                Size::Pixels(b) => Size::Pixels(clamp_i128(wide_mul(a, b))),
                Size::Percent(b) => Size::Percent(clamp_i128(wide_mul(a, b))),
            },
        }
    }
}

impl Default for Size {
    /// The whole of the parent length.
    fn default() -> (r: Size)
        ensures
            r == Size::Percent(100),
    {
        Size::Percent(100)
    }
}

/// `clamp64(x * k)` for a positive factor.
fn scale_to_units(x: i64, k: i64) -> (r: i64)
    requires
        0 < k <= UNIT,
    ensures
        r == clamp64(x * k),
{
    let w = wide_mul(x, k);
    clamp_i128(w)
}

/// `clamp64(w * k)` for a wide value and a small positive factor.
fn scale_wide(w: i128, k: i64) -> (r: i64)
    requires
        0 < k <= UNIT,
        -0x4000_0000_0000_0000_0000_0000_0000_0000 <= w <= 0x4000_0000_0000_0000_0000_0000_0000_0000,
    ensures
        r == clamp64(w * k),
{
    let lim: i128 = 0x8000_0000_0000_0000;
    if w >= lim {
        proof {
            assert(w * k >= w) by (nonlinear_arith)
                requires
                    w >= 0,
                    k >= 1,
            ;
        }
        i64::MAX
    } else if w <= -lim {
        proof {
            assert(w * k <= w) by (nonlinear_arith)
                requires
                    w <= 0,
                    k >= 1,
            ;
        }
        i64::MIN
    } else {
        proof {
            assert(-0x8000_0000_0000_0000_0000_0000 <= w * k <= 0x8000_0000_0000_0000_0000_0000)
                by (nonlinear_arith)
                requires
                    -0x8000_0000_0000_0000 < w < 0x8000_0000_0000_0000,
                    1 <= k <= 1_000_000,
            ;
        }
        clamp_i128(w * (k as i128))
    }
}

/// A size in whole pixels.
#[derive(Clone, Copy, PartialEq, Eq, Structural, Debug)]
pub struct SizePixels(pub i64);

impl SizePixels {
    /// The pixel size held by `value`, which must be a pixel size: a percentage
    /// cannot be coerced into pixels.
    pub fn from_size(value: Size) -> (r: SizePixels)
        requires
            value is Pixels,
        ensures
            r == SizePixels(value->Pixels_0),
    {
        match value {
            Size::Pixels(p) => SizePixels(p),
            Size::Percent(p) => SizePixels(p),
        }
    }
}

impl Default for SizePixels {
    fn default() -> (r: SizePixels)
        ensures
            r == SizePixels(150),
    {
        SizePixels(150)
    }
}

/// A 2-D affine map in fixed point: `x' = a x + c y + e`, `y' = b x + d y + f`,
/// where `a`..`d` are scalars and `e`, `f` lengths, all in units of `UNIT`.
#[derive(Clone, Copy, PartialEq, Eq, Structural, Debug)]
pub struct Affine {
    pub a: i64,
    pub b: i64,
    pub c: i64,
    pub d: i64,
    pub e: i64,
    pub f: i64,
}

pub open spec fn spec_identity() -> Affine {
    Affine { a: UNIT, b: 0, c: 0, d: UNIT, e: 0, f: 0 }
}

pub open spec fn spec_translate(x: i64, y: i64) -> Affine {
    Affine { a: UNIT, b: 0, c: 0, d: UNIT, e: x, f: y }
}

/// The map that applies `r` first and `l` after it.
pub open spec fn spec_compose(l: Affine, r: Affine) -> Affine {
    Affine {
        a: clamp64(fx(l.a as int, r.a as int) + fx(l.c as int, r.b as int)),
        b: clamp64(fx(l.b as int, r.a as int) + fx(l.d as int, r.b as int)),
        c: clamp64(fx(l.a as int, r.c as int) + fx(l.c as int, r.d as int)),
        d: clamp64(fx(l.b as int, r.c as int) + fx(l.d as int, r.d as int)),
        e: clamp64(fx(l.a as int, r.e as int) + fx(l.c as int, r.f as int) + l.e),
        f: clamp64(fx(l.b as int, r.e as int) + fx(l.d as int, r.f as int) + l.f),
    }
}

/// Where `m` takes the point `(x, y)`, all in units of `UNIT`.
pub open spec fn spec_apply(m: Affine, x: int, y: int) -> (i64, i64) {
    (clamp64(fx(m.a as int, x) + fx(m.c as int, y) + m.e), clamp64(
        fx(m.b as int, x) + fx(m.d as int, y) + m.f,
    ))
}

impl Affine {
    pub fn identity() -> (r: Affine)
        ensures
            r == spec_identity(),
    {
        Affine { a: UNIT, b: 0, c: 0, d: UNIT, e: 0, f: 0 }
    }

    /// A translation by `(x, y)` units.
    pub fn translate(x: i64, y: i64) -> (r: Affine)
        ensures
            r == spec_translate(x, y),
    {
        Affine { a: UNIT, b: 0, c: 0, d: UNIT, e: x, f: y }
    }

    /// A scale by the factors `x` and `y`, in units of `UNIT`.
    pub fn scale_non_uniform(x: i64, y: i64) -> (r: Affine)
        ensures
            r == (Affine { a: x, b: 0, c: 0, d: y, e: 0, f: 0 }),
    {
        Affine { a: x, b: 0, c: 0, d: y, e: 0, f: 0 }
    }

    /// A rotation given by its cosine and sine, in units of `UNIT`.
    pub fn rotate(cos: i64, sin: i64) -> (r: Affine)
        ensures
            r == (Affine { a: cos, b: sin, c: clamp64(-sin), d: cos, e: 0, f: 0 }),
    {
        Affine { a: cos, b: sin, c: clamp_i128(-(sin as i128)), d: cos, e: 0, f: 0 }
    }

    /// The map that applies `rhs` first and `self` after it.
    pub fn then_after(&self, rhs: &Affine) -> (r: Affine)
        ensures
            r == spec_compose(*self, *rhs),
    {
        let l = self;
        Affine {
            a: clamp_i128(fx_mul(l.a, rhs.a) + fx_mul(l.c, rhs.b)),
            b: clamp_i128(fx_mul(l.b, rhs.a) + fx_mul(l.d, rhs.b)),
            c: clamp_i128(fx_mul(l.a, rhs.c) + fx_mul(l.c, rhs.d)),
            d: clamp_i128(fx_mul(l.b, rhs.c) + fx_mul(l.d, rhs.d)),
            e: clamp_i128(fx_mul(l.a, rhs.e) + fx_mul(l.c, rhs.f) + l.e as i128),
            f: clamp_i128(fx_mul(l.b, rhs.e) + fx_mul(l.d, rhs.f) + l.f as i128),
        }
    }

    /// Where this map takes the point `(x, y)`, all in units of `UNIT`.
    pub fn apply(&self, x: i64, y: i64) -> (r: (i64, i64))
        ensures
            r == spec_apply(*self, x as int, y as int),
    {
        (
            clamp_i128(fx_mul(self.a, x) + fx_mul(self.c, y) + self.e as i128),
            clamp_i128(fx_mul(self.b, x) + fx_mul(self.d, y) + self.f as i128),
        )
    }

    /// The six coefficients `[a, b, c, d, e, f]`.
    pub fn coefficients(&self) -> (r: Vec<i64>)
        ensures
            r@ == seq![self.a, self.b, self.c, self.d, self.e, self.f],
    {
        vec![self.a, self.b, self.c, self.d, self.e, self.f]
    }
}

impl Default for Affine {
    fn default() -> (r: Affine)
        ensures
            r == spec_identity(),
    {
        Affine::identity()
    }
}

} // verus!
