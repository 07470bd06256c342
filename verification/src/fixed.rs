use vstd::prelude::*;

verus! {

/// Largest magnitude, in micro-units, that a `Fixed` may hold (one billion whole units).
pub const FX_MAX: i64 = 1_000_000_000_000_000;

/// Clamp a mathematical value into the representable range of `Fixed`.
pub open spec fn fx_clamp(v: int) -> int {
    if v > FX_MAX as int {
        FX_MAX as int
    } else if v < -(FX_MAX as int) {
        -(FX_MAX as int)
    } else {
        v
    }
}

/// Absolute value.
pub open spec fn int_abs(v: int) -> int {
    if v < 0 {
        -v
    } else {
        v
    }
}

/// Division that truncates toward zero, for a positive divisor.
pub open spec fn tz_div(a: int, d: int) -> int
    recommends
        d > 0,
{
    if a >= 0 {
        a / d
    } else {
        -((-a) / d)
    }
}

/// Saturating sum of two micro-unit values.
pub open spec fn fx_add(a: int, b: int) -> int {
    fx_clamp(a + b)
}

/// Saturating difference of two micro-unit values.
pub open spec fn fx_sub(a: int, b: int) -> int {
    fx_clamp(a - b)
}

/// Saturating product of two fixed-point values, in micro-units.
pub open spec fn fx_mul(a: int, b: int) -> int {
    fx_clamp(tz_div(a * b, 1_000_000))
}

/// A saturating decimal fixed-point number: a signed count of micro-units
/// (six fractional decimal digits), kept within `±FX_MAX`. All operations
/// are total; results outside the range saturate to the nearest bound.
#[derive(Clone, Copy, PartialEq, Eq, Structural, Debug)]
pub struct Fixed {
    micros: i64,
}

impl Fixed {
    /// The value as a signed count of micro-units.
    pub closed spec fn as_micros(self) -> int {
        self.micros as int
    }

    #[verifier::type_invariant]
    pub closed spec fn inv(self) -> bool {
        -(FX_MAX as int) <= self.micros as int <= FX_MAX as int
    }

    /// The zero value.
    pub fn zero() -> (r: Self)
        ensures
            r.as_micros() == 0,
    {
        Fixed { micros: 0 }
    }

    /// Build a value from a count of micro-units, saturating.
    pub fn from_micros(m: i64) -> (r: Self)
        ensures
            r.as_micros() == fx_clamp(m as int),
    {
        if m > FX_MAX {
            Fixed { micros: FX_MAX }
        } else if m < -FX_MAX {
            Fixed { micros: -FX_MAX }
        } else {
            Fixed { micros: m }
        }
    }

    /// Build a value from a count of whole units, saturating.
    pub fn from_int(v: i64) -> (r: Self)
        ensures
            r.as_micros() == fx_clamp(v as int * 1_000_000),
    {
        let wide: i128 = (v as i128) * 1_000_000;
        if wide > FX_MAX as i128 {
            Fixed { micros: FX_MAX }
        } else if wide < -(FX_MAX as i128) {
            Fixed { micros: -FX_MAX }
        } else {
            Fixed { micros: wide as i64 }
        }
    }

    /// The stored count of micro-units.
    pub fn micros(&self) -> (r: i64)
        ensures
            r as int == self.as_micros(),
            -(FX_MAX as int) <= r as int <= FX_MAX as int,
    {
        proof {
            use_type_invariant(self);
        }
        self.micros
    }

    /// Saturating addition.
    pub fn add(self, other: Self) -> (r: Self)
        ensures
            r.as_micros() == fx_add(self.as_micros(), other.as_micros()),
    {
        proof {
            use_type_invariant(self);
            use_type_invariant(other);
        }
        Self::from_micros(self.micros + other.micros)
    }

    /// Saturating subtraction.
    pub fn sub(self, other: Self) -> (r: Self)
        ensures
            r.as_micros() == fx_sub(self.as_micros(), other.as_micros()),
    {
        proof {
            use_type_invariant(self);
            use_type_invariant(other);
        }
        Self::from_micros(self.micros - other.micros)
    }

    /// Absolute value (exact: the range is symmetric).
    pub fn abs(self) -> (r: Self)
        ensures
            r.as_micros() == int_abs(self.as_micros()),
    {
        proof {
            use_type_invariant(self);
        }
        if self.micros < 0 {
            Fixed { micros: -self.micros }
        } else {
            self
        }
    }

    /// Saturating fixed-point multiplication, truncating toward zero.
    pub fn mul(self, other: Self) -> (r: Self)
        ensures
            r.as_micros() == fx_mul(self.as_micros(), other.as_micros()),
    {
        proof {
            use_type_invariant(self);
            use_type_invariant(other);
        }
        let a = self.micros;
        let b = other.micros;
        let neg: bool = (a < 0) != (b < 0);
        let ma: u128 = if a < 0 {
            (-(a as i128)) as u128
        } else {
            a as u128
        };
        let mb: u128 = if b < 0 {
            (-(b as i128)) as u128
        } else {
            b as u128
        };
        proof {
            assert(ma <= FX_MAX && mb <= FX_MAX);
            assert(ma * mb <= (FX_MAX as u128) * (FX_MAX as u128)) by (nonlinear_arith)
                requires
                    ma <= FX_MAX as u128 && mb <= FX_MAX as u128,
            ;
        }
        let prod: u128 = (ma * mb) / 1_000_000;
        proof {
            let p = (a as int) * (b as int);
            assert(ma * mb == int_abs(a as int) * int_abs(b as int));
            if (a as int) >= 0 && (b as int) >= 0 {
                assert(p >= 0) by (nonlinear_arith)
                    requires
                        p == (a as int) * (b as int) && (a as int) >= 0 && (b as int) >= 0,
                ;
                assert(int_abs(p) == int_abs(a as int) * int_abs(b as int));
            }
            if (a as int) < 0 && (b as int) < 0 {
                assert(p >= 0) by (nonlinear_arith)
                    requires
                        p == (a as int) * (b as int) && (a as int) < 0 && (b as int) < 0,
                ;
                assert((-(a as int)) * (-(b as int)) == p) by (nonlinear_arith)
                    requires
                        p == (a as int) * (b as int),
                ;
                assert(int_abs(p) == int_abs(a as int) * int_abs(b as int));
            }
            if (a as int) < 0 && (b as int) >= 0 {
                assert(p <= 0) by (nonlinear_arith)
                    requires
                        p == (a as int) * (b as int) && (a as int) < 0 && (b as int) >= 0,
                ;
                assert((-(a as int)) * (b as int) == -p) by (nonlinear_arith)
                    requires
                        p == (a as int) * (b as int),
                ;
                assert(int_abs(p) == int_abs(a as int) * int_abs(b as int));
            }
            if (a as int) >= 0 && (b as int) < 0 {
                assert(p <= 0) by (nonlinear_arith)
                    requires
                        p == (a as int) * (b as int) && (a as int) >= 0 && (b as int) < 0,
                ;
                assert((a as int) * (-(b as int)) == -p) by (nonlinear_arith)
                    requires
                        p == (a as int) * (b as int),
                ;
                assert(int_abs(p) == int_abs(a as int) * int_abs(b as int));
            }
            assert(int_abs(p) == int_abs(a as int) * int_abs(b as int));
            assert(tz_div(p, 1_000_000) == if neg {
                -(int_abs(p) / 1_000_000)
            } else {
                int_abs(p) / 1_000_000
            }) by {
                if p >= 0 && neg {
                    assert(p == 0);
                }
            }
        }
        if neg {
            if prod > FX_MAX as u128 {
                Fixed { micros: -FX_MAX }
            } else {
                Fixed { micros: -((prod as i64)) }
            }
        } else {
            if prod > FX_MAX as u128 {
                Fixed { micros: FX_MAX }
            } else {
                Fixed { micros: prod as i64 }
            }
        }
    }

    /// Division by a positive whole number, truncating toward zero (exact, never saturates).
    pub fn div_pos(self, d: i64) -> (r: Self)
        requires
            d >= 1,
        ensures
            r.as_micros() == tz_div(self.as_micros(), d as int),
    {
        proof {
            use_type_invariant(self);
        }
        if self.micros < 0 {
            let q = (-self.micros) / d;
            proof {
                assert(0 <= q <= -(self.micros as int)) by (nonlinear_arith)
                    requires
                        q == (-(self.micros as int)) / (d as int) && (d as int) >= 1 && self.micros < 0,
                ;
            }
            Fixed { micros: -q }
        } else {
            let q = self.micros / d;
            proof {
                assert(0 <= q <= self.micros as int) by (nonlinear_arith)
                    requires
                        q == (self.micros as int) / (d as int) && (d as int) >= 1 && self.micros >= 0,
                ;
            }
            Fixed { micros: q }
        }
    }

    /// Midpoint of two values, truncating toward zero (never saturates).
    pub fn avg(self, other: Self) -> (r: Self)
        ensures
            r.as_micros() == tz_div(self.as_micros() + other.as_micros(), 2),
    {
        proof {
            use_type_invariant(self);
            use_type_invariant(other);
        }
        let s: i64 = self.micros + other.micros;
        if s < 0 {
            Fixed { micros: -((-s) / 2) }
        } else {
            Fixed { micros: s / 2 }
        }
    }

    /// Whether this value is strictly below another.
    pub fn lt(self, other: Self) -> (r: bool)
        ensures
            r == (self.as_micros() < other.as_micros()),
    {
        self.micros < other.micros
    }

    /// Whether this value is at most another.
    pub fn le(self, other: Self) -> (r: bool)
        ensures
            r == (self.as_micros() <= other.as_micros()),
    {
        self.micros <= other.micros
    }
}

} // verus!
