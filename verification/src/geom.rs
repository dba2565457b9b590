//! Plain integer planar geometry: vectors, fixed-point rotations, and the
//! floor division the rest of the engine builds on.

use vstd::prelude::*;

verus! {

/// One full unit of the fixed-point cosine/sine scale: a rotation stores
/// `cos * ROT_ONE` and `sin * ROT_ONE` rounded to integers.
pub const ROT_ONE: i64 = 4096;

/// Largest magnitude a world coordinate may have. Together with
/// `EXTENT_LIMIT` and `ROT_ONE` it keeps every product the intersection
/// tests form (up to squares of corner projections) inside 128 bits.
pub const COORD_LIMIT: i64 = 196608;

/// Largest half-extent or radius a hitbox may have.
pub const EXTENT_LIMIT: i64 = 8192;

/// A point or translation in the plane, in world units.
#[derive(Clone, Copy, Debug, PartialEq, Eq, Structural)]
pub struct Vec2 {
    pub x: i64,
    pub y: i64,
}

/// A rotation, stored as its cosine and sine in units of `ROT_ONE`.
/// `Rot { cos_q: ROT_ONE, sin_q: 0 }` is the identity (angle zero).
#[derive(Clone, Copy, Debug, PartialEq, Eq, Structural)]
pub struct Rot {
    pub cos_q: i64,
    pub sin_q: i64,
}

impl Vec2 {
    /// Both coordinates lie inside the world.
    pub open spec fn in_world(self) -> bool {
        -COORD_LIMIT <= self.x <= COORD_LIMIT && -COORD_LIMIT <= self.y <= COORD_LIMIT
    }

    pub fn new(x: i64, y: i64) -> (v: Vec2)
        ensures
            v == (Vec2 { x, y }),
    {
        Vec2 { x, y }
    }

    /// Runtime check matching `in_world`.
    pub fn is_in_world(&self) -> (r: bool)
        ensures
            r == self.in_world(),
    {
        -COORD_LIMIT <= self.x && self.x <= COORD_LIMIT && -COORD_LIMIT <= self.y
            && self.y <= COORD_LIMIT
    }
}

impl Rot {
    /// The stored pair is at most one full unit long: each component is
    /// bounded by `ROT_ONE` and the squared length by `ROT_ONE` squared.
    /// So a well-formed `Rot` is a rotation combined with a scale of at
    /// most one; it never enlarges what it turns.
    pub open spec fn wf(self) -> bool {
        &&& -ROT_ONE <= self.cos_q <= ROT_ONE
        &&& -ROT_ONE <= self.sin_q <= ROT_ONE
        &&& self.cos_q * self.cos_q + self.sin_q * self.sin_q <= ROT_ONE * ROT_ONE
    }

    /// The identity rotation (angle zero).
    pub fn zero() -> (r: Rot)
        ensures
            r == Rot::spec_zero(),
            r.wf(),
    {
        Rot { cos_q: ROT_ONE, sin_q: 0 }
    }

    pub open spec fn spec_zero() -> Rot {
        Rot { cos_q: ROT_ONE as i64, sin_q: 0 as i64 }
    }

    /// Runtime check matching `wf`.
    pub fn is_wf(&self) -> (r: bool)
        ensures
            r == self.wf(),
    {
        let boxed = -ROT_ONE <= self.cos_q && self.cos_q <= ROT_ONE && -ROT_ONE <= self.sin_q
            && self.sin_q <= ROT_ONE;
        if !boxed {
            return false;
        }
        proof {
            lemma_mul_bound(self.cos_q as int, self.cos_q as int, 4096, 4096);
            lemma_mul_bound(self.sin_q as int, self.sin_q as int, 4096, 4096);
        }
        self.cos_q * self.cos_q + self.sin_q * self.sin_q <= ROT_ONE * ROT_ONE
    }

    /// The composition of two rotations (the rotation by the sum of their
    /// angles), each product pair rounded toward zero.
    pub open spec fn spec_compose(self, other: Rot) -> Rot {
        Rot {
            cos_q: div_trunc_spec(
                self.cos_q * other.cos_q - self.sin_q * other.sin_q,
                ROT_ONE as int,
            ) as i64,
            sin_q: div_trunc_spec(
                self.sin_q * other.cos_q + self.cos_q * other.sin_q,
                ROT_ONE as int,
            ) as i64,
        }
    }

    /// Turn this rotation further by `other` (add the two angles). The
    /// result is again well-formed: the exact products satisfy
    /// `C * C + S * S == (c1*c1 + s1*s1) * (c2*c2 + s2*s2)`, so a pair of
    /// at-most-unit rotations composes to an at-most-unit rotation, and
    /// rounding toward zero never lengthens the pair.
    pub fn compose(&self, other: &Rot) -> (r: Rot)
        requires
            self.wf(),
            other.wf(),
        ensures
            r == self.spec_compose(*other),
            r.wf(),
    {
        let a = self.cos_q;
        let b = self.sin_q;
        let c = other.cos_q;
        let d = other.sin_q;
        proof {
            lemma_mul_bound(a as int, c as int, 4096, 4096);
            lemma_mul_bound(b as int, d as int, 4096, 4096);
            lemma_mul_bound(b as int, c as int, 4096, 4096);
            lemma_mul_bound(a as int, d as int, 4096, 4096);
        }
        let cn = a * c - b * d;
        let sn = b * c + a * d;
        proof {
            assert(a * a >= 0 && b * b >= 0 && c * c >= 0 && d * d >= 0) by (nonlinear_arith);
            lemma_rot_product_identity(a as int, b as int, c as int, d as int);
            assert((a * a + b * b) * (c * c + d * d) <= 281474976710656) by (nonlinear_arith)
                requires
                    0 <= a * a + b * b <= 16777216,
                    0 <= c * c + d * d <= 16777216,
            ;
        }
        let rc = div_trunc(cn, ROT_ONE);
        let rs = div_trunc(sn, ROT_ONE);
        proof {
            lemma_trunc_quotient_shrinks(cn as int, ROT_ONE as int, rc as int);
            lemma_trunc_quotient_shrinks(sn as int, ROT_ONE as int, rs as int);
            assert((rc as int) * (rc as int) >= 0 && (rs as int) * (rs as int) >= 0 && (cn as int)
                * (cn as int) >= 0 && (sn as int) * (sn as int) >= 0) by (nonlinear_arith);
            assert(-4096 <= rc && rc <= 4096) by (nonlinear_arith)
                requires
                    (rc as int) * (rc as int) <= 16777216,
            ;
            assert(-4096 <= rs && rs <= 4096) by (nonlinear_arith)
                requires
                    (rs as int) * (rs as int) <= 16777216,
            ;
        }
        Rot { cos_q: rc, sin_q: rs }
    }
}

/// Quotient rounded toward zero, as Rust's own integer division rounds.
pub open spec fn div_trunc_spec(n: int, d: int) -> int {
    if n >= 0 {
        n / d
    } else {
        -((-n) / d)
    }
}

/// Division rounding toward zero.
pub fn div_trunc(n: i64, d: i64) -> (q: i64)
    requires
        d > 0,
        -0x4000_0000_0000_0000 <= n <= 0x4000_0000_0000_0000,
        d <= 0x4000_0000_0000_0000,
    ensures
        q == div_trunc_spec(n as int, d as int),
        n >= 0 ==> 0 <= q <= n,
        n <= 0 ==> n <= q <= 0,
{
    if n >= 0 {
        proof {
            vstd::arithmetic::div_mod::lemma_div_pos_is_pos(n as int, d as int);
            vstd::arithmetic::div_mod::lemma_div_nonincreasing(n as int, d as int);
        }
        ((n as u64) / (d as u64)) as i64
    } else {
        let m = (-n) as u64;
        let qm = m / (d as u64);
        proof {
            vstd::arithmetic::div_mod::lemma_div_pos_is_pos(m as int, d as int);
            vstd::arithmetic::div_mod::lemma_div_nonincreasing(m as int, d as int);
        }
        -(qm as i64)
    }
}

/// The two products of a rotation composition satisfy the two-squares
/// identity: their squared length is the product of the two pairs'
/// squared lengths.
proof fn lemma_rot_product_identity(a: int, b: int, c: int, d: int)
    ensures
        (a * c - b * d) * (a * c - b * d) + (b * c + a * d) * (b * c + a * d) == (a * a + b * b) * (
        c * c + d * d),
{
    let p = a * c;
    let q = b * d;
    let r = b * c;
    let s = a * d;
    assert((p - q) * (p - q) == p * p - 2 * (p * q) + q * q) by (nonlinear_arith);
    assert((r + s) * (r + s) == r * r + 2 * (r * s) + s * s) by (nonlinear_arith);
    assert(p * q == r * s) by (nonlinear_arith)
        requires
            p == a * c,
            q == b * d,
            r == b * c,
            s == a * d,
    ;
    assert(p * p == (a * a) * (c * c)) by (nonlinear_arith)
        requires
            p == a * c,
    ;
    assert(q * q == (b * b) * (d * d)) by (nonlinear_arith)
        requires
            q == b * d,
    ;
    assert(r * r == (b * b) * (c * c)) by (nonlinear_arith)
        requires
            r == b * c,
    ;
    assert(s * s == (a * a) * (d * d)) by (nonlinear_arith)
        requires
            s == a * d,
    ;
    assert((a * a + b * b) * (c * c + d * d) == (a * a) * (c * c) + (a * a) * (d * d) + (b * b) * (
    c * c) + (b * b) * (d * d)) by (nonlinear_arith);
}

/// A quotient rounded toward zero, squared and scaled back by the
/// divisor, is no longer than the dividend squared: with `|q * d| <= |n|`,
/// `q * q * (d * d) <= n * n`.
proof fn lemma_trunc_quotient_shrinks(n: int, d: int, q: int)
    requires
        d > 0,
        q == div_trunc_spec(n, d),
    ensures
        q * q * (d * d) <= n * n,
{
    if n >= 0 {
        vstd::arithmetic::div_mod::lemma_fundamental_div_mod(n, d);
        vstd::arithmetic::div_mod::lemma_mod_bound(n, d);
        vstd::arithmetic::div_mod::lemma_div_pos_is_pos(n, d);
        assert(q * q * (d * d) <= n * n) by (nonlinear_arith)
            requires
                0 <= q,
                d > 0,
                d * q <= n,
        ;
    } else {
        vstd::arithmetic::div_mod::lemma_fundamental_div_mod(-n, d);
        vstd::arithmetic::div_mod::lemma_mod_bound(-n, d);
        vstd::arithmetic::div_mod::lemma_div_pos_is_pos(-n, d);
        assert(q * q * (d * d) <= n * n) by (nonlinear_arith)
            requires
                q == -((-n) / d),
                0 <= (-n) / d,
                d > 0,
                d * ((-n) / d) <= -n,
        ;
    }
}

/// A product of two bounded factors is bounded by the product of the
/// bounds.
pub proof fn lemma_mul_bound(a: int, b: int, ma: int, mb: int)
    by (nonlinear_arith)
    requires
        -ma <= a <= ma,
        -mb <= b <= mb,
    ensures
        -(ma * mb) <= a * b <= ma * mb,
{
}

/// Floor division (quotient rounded toward negative infinity), the rounding
/// used throughout the engine; it agrees with mathematical `/` on `int`.
pub fn div_floor(n: i64, d: i64) -> (q: i64)
    requires
        d > 0,
        -0x4000_0000_0000_0000 <= n <= 0x4000_0000_0000_0000,
        d <= 0x4000_0000_0000_0000,
    ensures
        q == n as int / d as int,
        n >= 0 ==> 0 <= q <= n,
        n <= 0 ==> n <= q <= 0,
        d * q <= n < d * q + d,
{
    proof {
        vstd::arithmetic::div_mod::lemma_fundamental_div_mod(n as int, d as int);
        vstd::arithmetic::div_mod::lemma_mod_bound(n as int, d as int);
    }
    if n >= 0 {
        proof {
            vstd::arithmetic::div_mod::lemma_div_pos_is_pos(n as int, d as int);
            vstd::arithmetic::div_mod::lemma_div_nonincreasing(n as int, d as int);
        }
        ((n as u64) / (d as u64)) as i64
    } else {
        let m = (-n) as u64;
        let qm = m / (d as u64);
        let rm = m % (d as u64);
        proof {
            vstd::arithmetic::div_mod::lemma_fundamental_div_mod(m as int, d as int);
            vstd::arithmetic::div_mod::lemma_div_pos_is_pos(m as int, d as int);
            vstd::arithmetic::div_mod::lemma_div_nonincreasing(m as int, d as int);
            vstd::arithmetic::div_mod::lemma_mod_bound(m as int, d as int);
            if rm == 0 {
                assert(n as int == (-(qm as int)) * d + 0) by (nonlinear_arith)
                    requires
                        n == -(m as int),
                        m as int == d as int * (qm as int) + rm,
                        rm == 0,
                ;
                vstd::arithmetic::div_mod::lemma_fundamental_div_mod_converse(
                    n as int,
                    d as int,
                    -(qm as int),
                    0,
                );
            } else {
                assert(n as int == (-(qm as int) - 1) * d + (d - rm)) by (nonlinear_arith)
                    requires
                        n == -(m as int),
                        m as int == d as int * (qm as int) + rm,
                ;
                vstd::arithmetic::div_mod::lemma_fundamental_div_mod_converse(
                    n as int,
                    d as int,
                    -(qm as int) - 1,
                    d - rm,
                );
                vstd::arithmetic::div_mod::lemma_div_decreases(m as int, d as int);
            }
        }
        if rm == 0 {
            -(qm as i64)
        } else {
            -(qm as i64) - 1
        }
    }
}

} // verus!
