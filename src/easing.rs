use vstd::prelude::*;

use crate::geometry::{floor_div, UNIT};

verus! {

/// The shape of a transition over time.
#[derive(Clone, Copy, PartialEq, Eq, Structural, Debug)]
pub enum EasingCurve {
    Linear,
    InQuad,
    OutQuad,
    InBack,
    OutBack,
    InOutBack,
}

/// The eased progress for a time `t` on `[0, UNIT]`, in units of `UNIT`,
/// rounded down. The back curves overshoot by 1.70158 (in-out: 2.59491) and
/// leave `[0, UNIT]` on purpose.
pub open spec fn eased(curve: EasingCurve, t: int) -> int {
    match curve {
        EasingCurve::Linear => t,
        EasingCurve::InQuad => (t * t) / 1_000_000,
        EasingCurve::OutQuad => 1_000_000 - ((1_000_000 - t) * (1_000_000 - t)) / 1_000_000,
        EasingCurve::InBack => (2_701_580 * (t * t * t) - 1_701_580_000_000 * (t * t))
            / 1_000_000_000_000_000_000,
        EasingCurve::OutBack => {
            let s = t - 1_000_000;
            1_000_000 + (2_701_580 * (s * s * s) + 1_701_580_000_000 * (s * s))
                / 1_000_000_000_000_000_000
        },
        EasingCurve::InOutBack => if 2 * t < 1_000_000 {
            let x = 2 * t;
            ((x * x) * (3_594_910 * x - 2_594_910_000_000)) / 2_000_000_000_000_000_000
        } else {
            let y = 2 * t - 2_000_000;
            ((y * y) * (3_594_910 * y + 2_594_910_000_000) + 2_000_000_000_000_000_000_000_000)
                / 2_000_000_000_000_000_000
        },
    }
}

/// Every curve starts at 0 and ends at `UNIT`.
pub proof fn lemma_eased_ends(curve: EasingCurve)
    ensures
        eased(curve, 0) == 0,
        eased(curve, UNIT as int) == UNIT as int,
{
    assert(eased(EasingCurve::InQuad, 1_000_000) == 1_000_000);
    assert(eased(EasingCurve::OutQuad, 1_000_000) == 1_000_000);
    assert(eased(EasingCurve::InBack, 1_000_000) == 1_000_000);
    assert(eased(EasingCurve::OutBack, 1_000_000) == 1_000_000);
    assert(eased(EasingCurve::OutBack, 0) == 0);
    assert(eased(EasingCurve::InOutBack, 1_000_000) == 1_000_000);
}

fn in_quad(t: i128) -> (r: i128)
    requires
        0 <= t <= UNIT,
    ensures
        r == eased(EasingCurve::InQuad, t as int),
{
    proof {
        assert(0 <= t * t <= 1_000_000_000_000) by (nonlinear_arith)
            requires
                0 <= t <= 1_000_000,
        ;
    }
    floor_div(t * t, UNIT as i128)
}

fn out_quad(t: i128) -> (r: i128)
    requires
        0 <= t <= UNIT,
    ensures
        r == eased(EasingCurve::OutQuad, t as int),
{
    let s = UNIT as i128 - t;
    proof {
        assert(0 <= s * s <= 1_000_000_000_000) by (nonlinear_arith)
            requires
                0 <= s <= 1_000_000,
        ;
    }
    let q = floor_div(s * s, UNIT as i128);
    proof {
        vstd::arithmetic::div_mod::lemma_div_is_ordered(0, s * s, UNIT as int);
        vstd::arithmetic::div_mod::lemma_div_is_ordered(s * s, 1_000_000_000_000, UNIT as int);
    }
    UNIT as i128 - q
}

fn in_back(t: i128) -> (r: i128)
    requires
        0 <= t <= UNIT,
    ensures
        r == eased(EasingCurve::InBack, t as int),
{
    proof {
        assert(0 <= t * t <= 1_000_000_000_000) by (nonlinear_arith)
            requires
                0 <= t <= 1_000_000,
        ;
        assert(0 <= t * t * t <= 1_000_000_000_000_000_000) by (nonlinear_arith)
            requires
                0 <= t <= 1_000_000,
        ;
    }
    let t2 = t * t;
    let t3 = t2 * t;
    floor_div(2_701_580 * t3 - 1_701_580_000_000 * t2, 1_000_000_000_000_000_000)
}

fn out_back(t: i128) -> (r: i128)
    requires
        0 <= t <= UNIT,
    ensures
        r == eased(EasingCurve::OutBack, t as int),
{
    let s = t - UNIT as i128;
    proof {
        assert(0 <= s * s <= 1_000_000_000_000) by (nonlinear_arith)
            requires
                -1_000_000 <= s <= 0,
        ;
        assert(-1_000_000_000_000_000_000 <= s * s * s <= 0) by (nonlinear_arith)
            requires
                -1_000_000 <= s <= 0,
        ;
    }
    let s2 = s * s;
    let s3 = s2 * s;
    let num = 2_701_580 * s3 + 1_701_580_000_000 * s2;
    let q = floor_div(num, 1_000_000_000_000_000_000);
    proof {
        vstd::arithmetic::div_mod::lemma_div_is_ordered(
            -2_701_580_000_000_000_000_000_000,
            num as int,
            1_000_000_000_000_000_000,
        );
        vstd::arithmetic::div_mod::lemma_div_is_ordered(
            num as int,
            1_701_580_000_000_000_000_000_000,
            1_000_000_000_000_000_000,
        );
    }
    1_000_000 + q
}

fn in_out_back(t: i128) -> (r: i128)
    requires
        0 <= t <= UNIT,
    ensures
        r == eased(EasingCurve::InOutBack, t as int),
{
    if 2 * t < 1_000_000 {
        let x = 2 * t;
        proof {
            assert(0 <= x * x <= 1_000_000_000_000) by (nonlinear_arith)
                requires
                    0 <= x <= 1_000_000,
            ;
        }
        let inner = 3_594_910 * x - 2_594_910_000_000;
        let x2 = x * x;
        proof {
            assert(-3_000_000_000_000_000_000_000_000 <= x2 * inner
                <= 3_000_000_000_000_000_000_000_000) by (nonlinear_arith)
                requires
                    0 <= x2 <= 1_000_000_000_000,
                    -2_600_000_000_000 <= inner <= 1_000_000_000_000,
            ;
        }
        floor_div(x2 * inner, 2_000_000_000_000_000_000)
    } else {
        let y = 2 * t - 2_000_000;
        proof {
            assert(0 <= y * y <= 1_000_000_000_000) by (nonlinear_arith)
                requires
                    -1_000_000 <= y <= 0,
            ;
        }
        let inner = 3_594_910 * y + 2_594_910_000_000;
        let y2 = y * y;
        proof {
            assert(-3_000_000_000_000_000_000_000_000 <= y2 * inner
                <= 3_000_000_000_000_000_000_000_000) by (nonlinear_arith)
                requires
                    0 <= y2 <= 1_000_000_000_000,
                    -1_000_000_000_000 <= inner <= 2_600_000_000_000,
            ;
        }
        floor_div(y2 * inner + 2_000_000_000_000_000_000_000_000, 2_000_000_000_000_000_000)
    }
}

impl EasingCurve {
    /// The eased progress for a time `t` on `[0, UNIT]`.
    pub fn ease(&self, t: i64) -> (r: i64)
        requires
            0 <= t <= UNIT,
        ensures
            r as int == eased(*self, t as int),
    {
        let ti = t as i128;
        let r = match self {
            EasingCurve::Linear => ti,
            EasingCurve::InQuad => in_quad(ti),
            EasingCurve::OutQuad => out_quad(ti),
            EasingCurve::InBack => in_back(ti),
            EasingCurve::OutBack => out_back(ti),
            EasingCurve::InOutBack => in_out_back(ti),
        };
        proof {
            lemma_eased_bounded(*self, t as int);
        }
        r as i64
    }
}

/// Eased progress stays within a few units of `[0, UNIT]`.
pub proof fn lemma_eased_bounded(curve: EasingCurve, t: int)
    requires
        0 <= t <= UNIT,
    ensures
        -4 * UNIT <= eased(curve, t) <= 4 * UNIT,
{
    let u = UNIT as int;
    match curve {
        EasingCurve::Linear => {},
        EasingCurve::InQuad => {
            assert(0 <= t * t <= u * u) by (nonlinear_arith)
                requires
                    0 <= t <= u,
            ;
            vstd::arithmetic::div_mod::lemma_div_is_ordered(0, t * t, u);
            vstd::arithmetic::div_mod::lemma_div_is_ordered(t * t, u * u, u);
        },
        EasingCurve::OutQuad => {
            let s = u - t;
            assert(0 <= s * s <= u * u) by (nonlinear_arith)
                requires
                    0 <= s <= u,
            ;
            vstd::arithmetic::div_mod::lemma_div_is_ordered(0, s * s, u);
            vstd::arithmetic::div_mod::lemma_div_is_ordered(s * s, u * u, u);
        },
        EasingCurve::InBack => {
            let n = (2_701_580 * (t * t * t) - 1_701_580 * 1_000_000 * (t * t));
            assert(-2_000_000_000_000_000_000_000_000 <= n <= 3_000_000_000_000_000_000_000_000)
                by (nonlinear_arith)
                requires
                    0 <= t <= 1_000_000,
                    n == 2_701_580 * (t * t * t) - 1_701_580 * 1_000_000 * (t * t),
            ;
            vstd::arithmetic::div_mod::lemma_div_is_ordered(
                -2_000_000_000_000_000_000_000_000,
                n,
                1_000_000_000_000_000_000,
            );
            vstd::arithmetic::div_mod::lemma_div_is_ordered(
                n,
                3_000_000_000_000_000_000_000_000,
                1_000_000_000_000_000_000,
            );
        },
        EasingCurve::OutBack => {
            let s = t - u;
            let n = 2_701_580 * (s * s * s) + 1_701_580 * 1_000_000 * (s * s);
            assert(-3_000_000_000_000_000_000_000_000 <= n <= 2_000_000_000_000_000_000_000_000)
                by (nonlinear_arith)
                requires
                    -1_000_000 <= s <= 0,
                    n == 2_701_580 * (s * s * s) + 1_701_580 * 1_000_000 * (s * s),
            ;
            vstd::arithmetic::div_mod::lemma_div_is_ordered(
                -3_000_000_000_000_000_000_000_000,
                n,
                1_000_000_000_000_000_000,
            );
            vstd::arithmetic::div_mod::lemma_div_is_ordered(
                n,
                2_000_000_000_000_000_000_000_000,
                1_000_000_000_000_000_000,
            );
        },
        EasingCurve::InOutBack => {
            if 2 * t < u {
                let x = 2 * t;
                let n = (x * x) * (3_594_910 * x - 2_594_910 * 1_000_000);
                assert(-3_000_000_000_000_000_000_000_000 <= n <= 3_000_000_000_000_000_000_000_000)
                    by (nonlinear_arith)
                    requires
                        0 <= x <= 1_000_000,
                        n == (x * x) * (3_594_910 * x - 2_594_910 * 1_000_000),
                ;
                vstd::arithmetic::div_mod::lemma_div_is_ordered(
                    -3_000_000_000_000_000_000_000_000,
                    n,
                    2_000_000_000_000_000_000,
                );
                vstd::arithmetic::div_mod::lemma_div_is_ordered(
                    n,
                    3_000_000_000_000_000_000_000_000,
                    2_000_000_000_000_000_000,
                );
            } else {
                let y = 2 * t - 2 * u;
                let n = (y * y) * (3_594_910 * y + 2_594_910 * 1_000_000) + 2_000_000_000_000_000_000_000_000;
                assert(-3_000_000_000_000_000_000_000_000 <= n <= 6_000_000_000_000_000_000_000_000)
                    by (nonlinear_arith)
                    requires
                        -1_000_000 <= y <= 0,
                        n == (y * y) * (3_594_910 * y + 2_594_910 * 1_000_000)
                            + 2_000_000_000_000_000_000_000_000,
                ;
                vstd::arithmetic::div_mod::lemma_div_is_ordered(
                    -3_000_000_000_000_000_000_000_000,
                    n,
                    2_000_000_000_000_000_000,
                );
                vstd::arithmetic::div_mod::lemma_div_is_ordered(
                    n,
                    6_000_000_000_000_000_000_000_000,
                    2_000_000_000_000_000_000,
                );
            }
        },
    }
}

} // verus!
