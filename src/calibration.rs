//! Three-point affine calibration: the solver that maps raw touch positions
//! onto display pixels, its application to a sample, and the capture sequence
//! that collects the three touch positions.
//!
//! Coefficients are exact rationals sharing one positive denominator, so a
//! solved transform reproduces its reference points exactly.

use vstd::prelude::*;
use crate::touch::{Point, TouchEvent, TouchKind};
use vstd::arithmetic::div_mod::lemma_div_multiples_vanish;

verus! {

/// Magnitude below which every coefficient and the denominator stay.
pub const COEFF_LIMIT: i128 = 0x10_0000_0000_0000_0000_0000_0000;

/// Largest display coordinate a calibrated sample maps to.
pub const DISPLAY_MAX: i32 = 65535;

/// A point in raw touch space or in screen space.
#[derive(Clone, Copy, Debug, PartialEq, Eq, Structural)]
pub struct CalibrationPoint {
    pub x: i32,
    pub y: i32,
}

impl From<Point> for CalibrationPoint {
    fn from(value: Point) -> (r: CalibrationPoint) {
        CalibrationPoint { x: value.x, y: value.y }
    }
}

impl vstd::std_specs::convert::FromSpecImpl<Point> for CalibrationPoint {
    open spec fn obeys_from_spec() -> bool {
        true
    }

    open spec fn from_spec(v: Point) -> CalibrationPoint {
        CalibrationPoint { x: v.x, y: v.y }
    }
}

/// Three corresponding points: the on-screen targets, or where they were tapped.
#[derive(Clone, Copy, Debug, PartialEq, Eq, Structural)]
pub struct CalibrationSet {
    pub a: CalibrationPoint,
    pub b: CalibrationPoint,
    pub c: CalibrationPoint,
}

/// The three on-screen targets: well separated and not collinear on a
/// 320x240 surface.
pub open spec fn reference_set() -> CalibrationSet {
    CalibrationSet {
        a: CalibrationPoint { x: 30, y: 30 },
        b: CalibrationPoint { x: 312, y: 113 },
        c: CalibrationPoint { x: 167, y: 214 },
    }
}

impl Default for CalibrationSet {
    /// The reference targets, which are not collinear.
    fn default() -> (r: CalibrationSet)
        ensures
            r == reference_set(),
            det(r) != 0,
    {
        assert(det(reference_set()) == 40517) by (nonlinear_arith);
        CalibrationSet {
            a: CalibrationPoint { x: 30, y: 30 },
            b: CalibrationPoint { x: 312, y: 113 },
            c: CalibrationPoint { x: 167, y: 214 },
        }
    }
}

/// The determinant of the touch-space points; zero exactly when they are collinear.
pub open spec fn det(t: CalibrationSet) -> int {
    (t.a.x - t.c.x) * (t.b.y - t.c.y) - (t.b.x - t.c.x) * (t.a.y - t.c.y)
}

/// Numerator of the coefficient of raw x, by Cramer's rule, for screen
/// coordinates `sa`, `sb`, `sc`; the coefficient is it over `det(t)`.
pub open spec fn alpha_num(sa: int, sb: int, sc: int, t: CalibrationSet) -> int {
    (sa - sc) * (t.b.y - t.c.y) - (sb - sc) * (t.a.y - t.c.y)
}

/// Numerator of the coefficient of raw y, by Cramer's rule.
pub open spec fn beta_num(sa: int, sb: int, sc: int, t: CalibrationSet) -> int {
    (t.a.x - t.c.x) * (sb - sc) - (t.b.x - t.c.x) * (sa - sc)
}

/// Numerator of the constant term, by Cramer's rule.
pub open spec fn offset_num(sa: int, sb: int, sc: int, t: CalibrationSet) -> int {
    sa * (t.b.x * t.c.y - t.c.x * t.b.y) - sb * (t.a.x * t.c.y - t.c.x * t.a.y) + sc * (t.a.x
        * t.b.y - t.b.x * t.a.y)
}

/// The numerators `(al, be, of)` of one axis are the Cramer's rule ones,
/// negated when the determinant is negative.
pub open spec fn is_closed_form(al: int, be: int, of: int, sa: int, sb: int, sc: int, t: CalibrationSet) -> bool {
    let s: int = if det(t) > 0 {
        1
    } else {
        -1
    };
    &&& al == s * alpha_num(sa, sb, sc, t)
    &&& be == s * beta_num(sa, sb, sc, t)
    &&& of == s * offset_num(sa, sb, sc, t)
}

/// `al * p.x + be * p.y + of == v * scale`: the numerators send touch point
/// `p` exactly onto screen coordinate `v`.
pub open spec fn sends(al: int, be: int, of: int, scale: int, p: CalibrationPoint, v: int) -> bool {
    al * p.x + be * p.y + of == v * scale
}

/// The solver can fail only on collinear touch points.
#[derive(Clone, Copy, Debug, PartialEq, Eq, Structural)]
pub enum CalibrationError {
    /// The three touch-space points are collinear (zero determinant).
    DegenerateInput,
}

/// An affine map from raw touch space to screen space:
/// `screen_x = (alpha_x * raw_x + beta_x * raw_y + delta_x) / scale`, and
/// likewise for y. Every coefficient is the field divided by `scale`.
#[derive(Clone, Copy, Debug, PartialEq, Eq, Structural)]
pub struct CalibrationData {
    pub alpha_x: i128,
    pub beta_x: i128,
    pub delta_x: i128,
    pub alpha_y: i128,
    pub beta_y: i128,
    pub delta_y: i128,
    /// The common denominator, always positive.
    pub scale: i128,
}

/// Clamps a mapped coordinate into the display range `0..=65535`.
pub open spec fn clamp_display(v: int) -> i32 {
    if v < 0 {
        0
    } else if v > DISPLAY_MAX {
        DISPLAY_MAX
    } else {
        v as i32
    }
}

/// `v` lies strictly within `COEFF_LIMIT` in magnitude.
pub open spec fn within_limit(v: int) -> bool {
    -COEFF_LIMIT < v < COEFF_LIMIT
}

impl CalibrationData {
    /// Well formed: a positive denominator and coefficients within `COEFF_LIMIT`.
    pub open spec fn wf(self) -> bool {
        &&& 0 < self.scale < COEFF_LIMIT
        &&& within_limit(self.alpha_x as int)
        &&& within_limit(self.beta_x as int)
        &&& within_limit(self.delta_x as int)
        &&& within_limit(self.alpha_y as int)
        &&& within_limit(self.beta_y as int)
        &&& within_limit(self.delta_y as int)
    }

    /// The exact screen x of raw `(x, y)`, rounded down.
    pub open spec fn map_x(self, x: int, y: int) -> int {
        (self.alpha_x * x + self.beta_x * y + self.delta_x) / (self.scale as int)
    }

    /// The exact screen y of raw `(x, y)`, rounded down.
    pub open spec fn map_y(self, x: int, y: int) -> int {
        (self.alpha_y * x + self.beta_y * y + self.delta_y) / (self.scale as int)
    }

    /// The display point raw `(x, y)` maps to.
    pub open spec fn apply_spec(self, x: int, y: int) -> Point {
        Point { x: clamp_display(self.map_x(x, y)), y: clamp_display(self.map_y(x, y)) }
    }

    /// The map is the identity.
    pub open spec fn is_identity(self) -> bool {
        &&& self.alpha_x == self.scale
        &&& self.beta_x == 0
        &&& self.delta_x == 0
        &&& self.alpha_y == 0
        &&& self.beta_y == self.scale
        &&& self.delta_y == 0
    }

    /// `self` is the transform solved from `screen` and `touch`: its
    /// denominator is the magnitude of the touch points' determinant, and it
    /// sends each touch point exactly onto the matching screen point. Three
    /// non-collinear points fix such a map.
    pub open spec fn solves(self, screen: CalibrationSet, touch: CalibrationSet) -> bool {
        let sc = self.scale as int;
        &&& det(touch) != 0
        &&& sc == if det(touch) > 0 { det(touch) } else { -det(touch) }
        &&& sends(self.alpha_x as int, self.beta_x as int, self.delta_x as int, sc, touch.a, screen.a.x as int)
        &&& sends(self.alpha_x as int, self.beta_x as int, self.delta_x as int, sc, touch.b, screen.b.x as int)
        &&& sends(self.alpha_x as int, self.beta_x as int, self.delta_x as int, sc, touch.c, screen.c.x as int)
        &&& sends(self.alpha_y as int, self.beta_y as int, self.delta_y as int, sc, touch.a, screen.a.y as int)
        &&& sends(self.alpha_y as int, self.beta_y as int, self.delta_y as int, sc, touch.b, screen.b.y as int)
        &&& sends(self.alpha_y as int, self.beta_y as int, self.delta_y as int, sc, touch.c, screen.c.y as int)
    }

    /// The fields are the Cramer's rule solution for `screen` and `touch`,
    /// with the sign of the determinant folded into every numerator.
    pub open spec fn is_cramer_solution(self, screen: CalibrationSet, touch: CalibrationSet) -> bool {
        let d = det(touch);
        &&& self.scale == (if d > 0 { d } else { -d })
        &&& is_closed_form(self.alpha_x as int, self.beta_x as int, self.delta_x as int, screen.a.x as int, screen.b.x as int, screen.c.x as int, touch)
        &&& is_closed_form(self.alpha_y as int, self.beta_y as int, self.delta_y as int, screen.a.y as int, screen.b.y as int, screen.c.y as int, touch)
    }

    /// Builds a transform from its fields; `None` unless they are well formed.
    pub fn from_coefficients(
        alpha_x: i128,
        beta_x: i128,
        delta_x: i128,
        alpha_y: i128,
        beta_y: i128,
        delta_y: i128,
        scale: i128,
    ) -> (r: Option<CalibrationData>)
        ensures
            r.is_some() <==> (CalibrationData { alpha_x, beta_x, delta_x, alpha_y, beta_y, delta_y, scale }).wf(),
            r.is_some() ==> r == Some(CalibrationData { alpha_x, beta_x, delta_x, alpha_y, beta_y, delta_y, scale }),
    {
        let c = CalibrationData { alpha_x, beta_x, delta_x, alpha_y, beta_y, delta_y, scale };
        if c.is_well_formed() {
            Some(c)
        } else {
            None
        }
    }

    /// Whether the fields are well formed.
    pub fn is_well_formed(&self) -> (r: bool)
        ensures
            r == self.wf(),
    {
        let lim = COEFF_LIMIT;
        0 < self.scale && self.scale < lim && -lim < self.alpha_x && self.alpha_x < lim && -lim
            < self.beta_x && self.beta_x < lim && -lim < self.delta_x && self.delta_x < lim && -lim
            < self.alpha_y && self.alpha_y < lim && -lim < self.beta_y && self.beta_y < lim && -lim
            < self.delta_y && self.delta_y < lim
    }
}

impl Default for CalibrationData {
    /// The identity map.
    fn default() -> (r: CalibrationData)
        ensures
            r.wf(),
            r.is_identity(),
            r.scale == 1,
    {
        CalibrationData {
            alpha_x: 1,
            beta_x: 0,
            delta_x: 0,
            alpha_y: 0,
            beta_y: 1,
            delta_y: 0,
            scale: 1,
        }
    }
}

/// `|a * b| <= ba * bb` whenever `|a| <= ba` and `|b| <= bb`.
proof fn lemma_mul_bound(a: int, b: int, ba: int, bb: int)
    requires
        -ba <= a <= ba,
        -bb <= b <= bb,
    ensures
        -(ba * bb) <= a * b <= ba * bb,
{
    assert(-(ba * bb) <= a * b <= ba * bb) by (nonlinear_arith)
        requires
            -ba <= a <= ba,
            -bb <= b <= bb,
    ;
}

/// `x * (y - z) == x * y - x * z` and `(y - z) * x == y * x - z * x`.
proof fn lemma_distribute_sub(x: int, y: int, z: int)
    ensures
        x * (y - z) == x * y - x * z,
        (y - z) * x == y * x - z * x,
{
    assert(x * (y - z) == x * y - x * z) by (nonlinear_arith);
    assert((y - z) * x == y * x - z * x) by (nonlinear_arith);
}

/// `(-x) * y == -(x * y)`.
proof fn lemma_neg_mul(x: int, y: int)
    ensures
        (-x) * y == -(x * y),
{
    assert((-x) * y == -(x * y)) by (nonlinear_arith);
}

/// With `u, v` the offset of the first point and `p, q` that of the second
/// (both from the third), the numerators below send the two offsets to the
/// screen offsets `ea`, `eb`, scaled by the determinant.
proof fn lemma_offsets_fit(ea: int, eb: int, u: int, v: int, p: int, q: int)
    ensures
        (ea * q - eb * v) * u + (u * eb - p * ea) * v == ea * (u * q - p * v),
        (ea * q - eb * v) * p + (u * eb - p * ea) * q == eb * (u * q - p * v),
{
    lemma_distribute_sub(u, ea * q, eb * v);
    lemma_distribute_sub(v, u * eb, p * ea);
    lemma_distribute_sub(p, ea * q, eb * v);
    lemma_distribute_sub(q, u * eb, p * ea);
    lemma_distribute_sub(ea, u * q, p * v);
    lemma_distribute_sub(eb, u * q, p * v);
    assert((ea * q) * u == ea * (u * q)) by (nonlinear_arith);
    assert((eb * v) * u == (u * eb) * v) by (nonlinear_arith);
    assert((p * ea) * v == ea * (p * v)) by (nonlinear_arith);
    assert((ea * q) * p == (p * ea) * q) by (nonlinear_arith);
    assert((eb * v) * p == eb * (p * v)) by (nonlinear_arith);
    assert((u * eb) * q == eb * (u * q)) by (nonlinear_arith);
}

/// The constant term computed from the third point equals the Cramer's
/// rule numerator.
proof fn lemma_offset_closed_form(ea: int, eb: int, sc: int, ax: int, ay: int, bx: int, by: int, cx: int, cy: int)
    ensures
        sc * ((ax - cx) * (by - cy) - (bx - cx) * (ay - cy)) - (ea * (by - cy) - eb * (ay - cy)) * cx - ((ax
            - cx) * eb - (bx - cx) * ea) * cy == (ea + sc) * (bx * cy - cx * by) - (eb + sc) * (ax * cy
            - cx * ay) + sc * (ax * by - bx * ay),
{
    let (u, v, p, q) = (ax - cx, ay - cy, bx - cx, by - cy);
    let m_a = bx * cy - cx * by;
    let m_b = ax * cy - cx * ay;
    let m_c = ax * by - bx * ay;
    assert(u * q - p * v == m_a - m_b + m_c) by (nonlinear_arith)
        requires
            u == ax - cx,
            v == ay - cy,
            p == bx - cx,
            q == by - cy,
            m_a == bx * cy - cx * by,
            m_b == ax * cy - cx * ay,
            m_c == ax * by - bx * ay,
    ;
    assert(p * cy - q * cx == m_a) by (nonlinear_arith)
        requires
            p == bx - cx,
            q == by - cy,
            m_a == bx * cy - cx * by,
    ;
    assert(v * cx - u * cy == -m_b) by (nonlinear_arith)
        requires
            u == ax - cx,
            v == ay - cy,
            m_b == ax * cy - cx * ay,
    ;
    lemma_distribute_sub(cx, ea * q, eb * v);
    lemma_distribute_sub(cy, u * eb, p * ea);
    lemma_distribute_sub(ea, p * cy, q * cx);
    lemma_distribute_sub(eb, v * cx, u * cy);
    assert((ea * q) * cx == ea * (q * cx)) by (nonlinear_arith);
    assert((eb * v) * cx == eb * (v * cx)) by (nonlinear_arith);
    assert((u * eb) * cy == eb * (u * cy)) by (nonlinear_arith);
    assert((p * ea) * cy == ea * (p * cy)) by (nonlinear_arith);
    assert((ea + sc) * m_a - (eb + sc) * m_b + sc * m_c == ea * m_a - eb * m_b + sc * (m_a - m_b + m_c))
        by (nonlinear_arith);
    assert(ea * (p * cy - q * cx) == ea * m_a);
    assert(eb * (v * cx - u * cy) == eb * (-m_b));
    assert(eb * (-m_b) == -(eb * m_b)) by (nonlinear_arith);
    assert(sc * (u * q - p * v) == sc * (m_a - m_b + m_c));
}

/// The numerators of one axis: for screen coordinates `sa`, `sb`, `sc` and a
/// denominator `scale`, the determinant with `sign` folded in, they send each touch point onto its
/// screen coordinate.
fn axis_numerators(sa: i32, sb: i32, sc: i32, t: &CalibrationSet, sign: i128, scale: i128) -> (r: (i128, i128, i128))
    requires
        sign == 1 || sign == -1,
        sign == 1 <==> det(*t) > 0,
        scale == (if sign == 1 { det(*t) } else { -det(*t) }),
        -0x2_0000_0000_0000_0000 <= scale <= 0x2_0000_0000_0000_0000,
    ensures
        sends(r.0 as int, r.1 as int, r.2 as int, scale as int, t.a, sa as int),
        sends(r.0 as int, r.1 as int, r.2 as int, scale as int, t.b, sb as int),
        sends(r.0 as int, r.1 as int, r.2 as int, scale as int, t.c, sc as int),
        is_closed_form(r.0 as int, r.1 as int, r.2 as int, sa as int, sb as int, sc as int, *t),
        within_limit(r.0 as int),
        within_limit(r.1 as int),
        within_limit(r.2 as int),
{
    let u = t.a.x as i128 - t.c.x as i128;
    let v = t.a.y as i128 - t.c.y as i128;
    let p = t.b.x as i128 - t.c.x as i128;
    let q = t.b.y as i128 - t.c.y as i128;
    let ea = sa as i128 - sc as i128;
    let eb = sb as i128 - sc as i128;
    let ghost b31: int = 0x8000_0000;
    let ghost b32: int = 0x1_0000_0000;
    let ghost b65: int = 0x2_0000_0000_0000_0000;
    proof {
        lemma_mul_bound(ea as int, q as int, b32, b32);
        lemma_mul_bound(eb as int, v as int, b32, b32);
        lemma_mul_bound(u as int, eb as int, b32, b32);
        lemma_mul_bound(p as int, ea as int, b32, b32);
    }
    let alpha0 = ea * q - eb * v;
    let beta0 = u * eb - p * ea;
    let (alpha, beta) = if sign == 1 {
        (alpha0, beta0)
    } else {
        (-alpha0, -beta0)
    };
    proof {
        lemma_mul_bound(sc as int, scale as int, b31, b65);
        lemma_mul_bound(alpha as int, t.c.x as int, b65, b31);
        lemma_mul_bound(beta as int, t.c.y as int, b65, b31);
    }
    let offset = sc as i128 * scale - alpha * t.c.x as i128 - beta * t.c.y as i128;
    proof {
        let (ax, ay, bx, by, cx, cy) = (t.a.x as int, t.a.y as int, t.b.x as int, t.b.y as int, t.c.x as int, t.c.y as int);
        lemma_offsets_fit(ea as int, eb as int, u as int, v as int, p as int, q as int);
        assert(det(*t) == u * q - p * v);
        let al = alpha as int;
        let be = beta as int;
        let sg = sign as int;
        let d = det(*t);
        if sign == 1 {
            assert(al * u + be * v == ea * (scale as int));
            assert(al * p + be * q == eb * (scale as int));
        } else {
            lemma_neg_mul(alpha0 as int, u as int);
            lemma_neg_mul(beta0 as int, v as int);
            lemma_neg_mul(alpha0 as int, p as int);
            lemma_neg_mul(beta0 as int, q as int);
            lemma_neg_mul(d, ea as int);
            lemma_neg_mul(d, eb as int);
            assert(ea * (-d) == (-d) * ea) by (nonlinear_arith);
            assert(eb * (-d) == (-d) * eb) by (nonlinear_arith);
            assert(ea * d == d * ea) by (nonlinear_arith);
            assert(eb * d == d * eb) by (nonlinear_arith);
            assert(al * u + be * v == ea * (scale as int));
            assert(al * p + be * q == eb * (scale as int));
        }
        lemma_distribute_sub(al, ax, cx);
        lemma_distribute_sub(be, ay, cy);
        lemma_distribute_sub(al, bx, cx);
        lemma_distribute_sub(be, by, cy);
        lemma_distribute_sub(scale as int, sa as int, sc as int);
        assert(ea * (scale as int) == (scale as int) * ea) by (nonlinear_arith);
        assert(eb * (scale as int) == (scale as int) * eb) by (nonlinear_arith);
        lemma_distribute_sub(scale as int, sb as int, sc as int);
        assert((sa as int) * (scale as int) == (scale as int) * (sa as int)) by (nonlinear_arith);
        assert((sb as int) * (scale as int) == (scale as int) * (sb as int)) by (nonlinear_arith);
        assert((sc as int) * (scale as int) == (scale as int) * (sc as int)) by (nonlinear_arith);
    }
    proof {
        let (ax, ay, bx, by, cx, cy) = (t.a.x as int, t.a.y as int, t.b.x as int, t.b.y as int, t.c.x as int, t.c.y as int);
        lemma_offset_closed_form(ea as int, eb as int, sc as int, ax, ay, bx, by, cx, cy);
        let on = offset_num(sa as int, sb as int, sc as int, *t);
        let sci = sc as int;
        let d = det(*t);
        assert(sci * d - (alpha0 as int) * cx - (beta0 as int) * cy == on);
        if sign == 1 {
            assert(offset as int == sci * d - (alpha0 as int) * cx - (beta0 as int) * cy);
        } else {
            lemma_neg_mul(alpha0 as int, cx);
            lemma_neg_mul(beta0 as int, cy);
            assert(sci * (-d) == -(sci * d)) by (nonlinear_arith);
            assert(offset as int == -(sci * d - (alpha0 as int) * cx - (beta0 as int) * cy));
        }
    }
    (alpha, beta, offset)
}

/// The determinant of the touch points, exactly.
fn determinant(t: &CalibrationSet) -> (r: i128)
    ensures
        r == det(*t),
        -0x2_0000_0000_0000_0000 <= r <= 0x2_0000_0000_0000_0000,
{
    let ghost b32: int = 0x1_0000_0000;
    let dx1 = t.a.x as i128 - t.c.x as i128;
    let dy1 = t.b.y as i128 - t.c.y as i128;
    let dx2 = t.b.x as i128 - t.c.x as i128;
    let dy2 = t.a.y as i128 - t.c.y as i128;
    proof {
        lemma_mul_bound(dx1 as int, dy1 as int, b32, b32);
        lemma_mul_bound(dx2 as int, dy2 as int, b32, b32);
    }
    dx1 * dy1 - dx2 * dy2
}

/// Solves the affine map that sends each point of `touch` to the matching
/// point of `screen`. Fails exactly when the touch points are collinear.
pub fn solve(screen: &CalibrationSet, touch: &CalibrationSet) -> (r: Result<
    CalibrationData,
    CalibrationError,
>)
    ensures
        r.is_err() <==> det(*touch) == 0,
        r.is_ok() ==> r->Ok_0.wf() && r->Ok_0.solves(*screen, *touch),
        r.is_ok() ==> r->Ok_0.is_cramer_solution(*screen, *touch),
{
    let d = determinant(touch);
    if d == 0 {
        return Err(CalibrationError::DegenerateInput);
    }
    let sign: i128 = if d > 0 {
        1
    } else {
        -1
    };
    let scale = if d > 0 {
        d
    } else {
        -d
    };
    let (alpha_x, beta_x, delta_x) = axis_numerators(screen.a.x, screen.b.x, screen.c.x, touch, sign, scale);
    let (alpha_y, beta_y, delta_y) = axis_numerators(screen.a.y, screen.b.y, screen.c.y, touch, sign, scale);
    Ok(CalibrationData { alpha_x, beta_x, delta_x, alpha_y, beta_y, delta_y, scale })
}

/// Solves the calibration for the touch positions at which the three
/// reference targets were tapped.
pub fn calibration_math(touch_space_points: &CalibrationSet) -> (r: Result<
    CalibrationData,
    CalibrationError,
>)
    ensures
        r.is_err() <==> det(*touch_space_points) == 0,
        r.is_ok() ==> r->Ok_0.wf() && r->Ok_0.solves(reference_set(), *touch_space_points),
        r.is_ok() ==> r->Ok_0.is_cramer_solution(reference_set(), *touch_space_points),
{
    let screen = CalibrationSet::default();
    solve(&screen, touch_space_points)
}

/// Divides a mapped numerator by the positive denominator, rounding down, and
/// clamps the quotient into the display range.
fn scaled_coordinate(n: i128, scale: i128) -> (r: i32)
    requires
        scale > 0,
    ensures
        r == clamp_display(n as int / scale as int),
{
    if n <= 0 {
        proof {
            vstd::arithmetic::div_mod::lemma_div_is_ordered(n as int, 0, scale as int);
        }
        0
    } else {
        let q = n / scale;
        if q > 65535 {
            65535
        } else {
            q as i32
        }
    }
}

impl CalibrationData {
    /// Maps a raw sample to display coordinates. The result depends on `self`
    /// and the sample alone.
    pub fn apply(&self, x: u16, y: u16) -> (r: Point)
        requires
            self.wf(),
        ensures
            r == self.apply_spec(x as int, y as int),
    {
        let ghost lim: int = COEFF_LIMIT as int;
        let ghost b16: int = 0x1_0000;
        proof {
            lemma_mul_bound(self.alpha_x as int, x as int, lim, b16);
            lemma_mul_bound(self.beta_x as int, y as int, lim, b16);
            lemma_mul_bound(self.alpha_y as int, x as int, lim, b16);
            lemma_mul_bound(self.beta_y as int, y as int, lim, b16);
        }
        let nx = self.alpha_x * (x as i128) + self.beta_x * (y as i128) + self.delta_x;
        let ny = self.alpha_y * (x as i128) + self.beta_y * (y as i128) + self.delta_y;
        Point { x: scaled_coordinate(nx, self.scale), y: scaled_coordinate(ny, self.scale) }
    }
}

/// The display point with the same coordinates.
pub open spec fn as_point(p: CalibrationPoint) -> Point {
    Point { x: p.x, y: p.y }
}

/// The point lies in the display range `0..=65535` on both axes.
pub open spec fn in_display(p: CalibrationPoint) -> bool {
    0 <= p.x <= DISPLAY_MAX && 0 <= p.y <= DISPLAY_MAX
}

/// `c` maps the touch point `(x, y)` exactly onto screen point `(sx, sy)`.
pub open spec fn maps_onto(c: CalibrationData, x: int, y: int, sx: int, sy: int) -> bool {
    c.map_x(x, y) == sx && c.map_y(x, y) == sy
}

/// A solved transform maps each of the three touch-space points exactly onto
/// the screen-space point it was solved against.
pub proof fn lemma_solution_reproduces_references(
    screen: CalibrationSet,
    touch: CalibrationSet,
    c: CalibrationData,
)
    requires
        c.solves(screen, touch),
    ensures
        maps_onto(c, touch.a.x as int, touch.a.y as int, screen.a.x as int, screen.a.y as int),
        maps_onto(c, touch.b.x as int, touch.b.y as int, screen.b.x as int, screen.b.y as int),
        maps_onto(c, touch.c.x as int, touch.c.y as int, screen.c.x as int, screen.c.y as int),
        in_display(screen.a) ==> c.apply_spec(touch.a.x as int, touch.a.y as int) == as_point(screen.a),
        in_display(screen.b) ==> c.apply_spec(touch.b.x as int, touch.b.y as int) == as_point(screen.b),
        in_display(screen.c) ==> c.apply_spec(touch.c.x as int, touch.c.y as int) == as_point(screen.c),
{
    let sc = c.scale as int;
    lemma_div_multiples_vanish(screen.a.x as int, sc);
    lemma_div_multiples_vanish(screen.b.x as int, sc);
    lemma_div_multiples_vanish(screen.c.x as int, sc);
    lemma_div_multiples_vanish(screen.a.y as int, sc);
    lemma_div_multiples_vanish(screen.b.y as int, sc);
    lemma_div_multiples_vanish(screen.c.y as int, sc);
}

/// The only numerators that send two independent offsets `(u, v)`, `(p, q)`
/// to `(ea, eb)` times the determinant are the ones that do it linearly:
/// here, a zero combination forces both numerators to zero.
proof fn lemma_unique_offsets(a: int, b: int, u: int, v: int, p: int, q: int)
    requires
        a * u + b * v == 0,
        a * p + b * q == 0,
        u * q - p * v != 0,
    ensures
        a == 0,
        b == 0,
{
    assert(a * (u * q - p * v) == q * (a * u + b * v) - v * (a * p + b * q)) by (nonlinear_arith);
    assert(b * (u * q - p * v) == u * (a * p + b * q) - p * (a * u + b * v)) by (nonlinear_arith);
    assert(a == 0) by (nonlinear_arith)
        requires
            a * (u * q - p * v) == 0,
            u * q - p * v != 0,
    ;
    assert(b == 0) by (nonlinear_arith)
        requires
            b * (u * q - p * v) == 0,
            u * q - p * v != 0,
    ;
}

/// One axis of a transform solved against its own touch points: the
/// numerators are `scale, 0, 0` along the axis and `0, scale, 0` across it.
proof fn lemma_self_axis(al: int, be: int, of: int, sc: int, s: CalibrationSet, x_axis: bool)
    requires
        det(s) != 0,
        x_axis ==> sends(al, be, of, sc, s.a, s.a.x as int) && sends(al, be, of, sc, s.b, s.b.x as int)
            && sends(al, be, of, sc, s.c, s.c.x as int),
        !x_axis ==> sends(al, be, of, sc, s.a, s.a.y as int) && sends(al, be, of, sc, s.b, s.b.y as int)
            && sends(al, be, of, sc, s.c, s.c.y as int),
    ensures
        x_axis ==> al == sc && be == 0 && of == 0,
        !x_axis ==> al == 0 && be == sc && of == 0,
{
    let (ax, ay, bx, by, cx, cy) = (s.a.x as int, s.a.y as int, s.b.x as int, s.b.y as int, s.c.x as int, s.c.y as int);
    let (u, v, p, q) = (ax - cx, ay - cy, bx - cx, by - cy);
    assert(det(s) == u * q - p * v);
    lemma_distribute_sub(al, ax, cx);
    lemma_distribute_sub(be, ay, cy);
    lemma_distribute_sub(al, bx, cx);
    lemma_distribute_sub(be, by, cy);
    lemma_distribute_sub(sc, ax, cx);
    lemma_distribute_sub(sc, ay, cy);
    lemma_distribute_sub(sc, bx, cx);
    lemma_distribute_sub(sc, by, cy);
    assert(ax * sc == sc * ax && ay * sc == sc * ay && bx * sc == sc * bx) by (nonlinear_arith);
    assert(by * sc == sc * by && cx * sc == sc * cx && cy * sc == sc * cy) by (nonlinear_arith);
    if x_axis {
        lemma_distribute_sub(u, al, sc);
        lemma_distribute_sub(p, al, sc);
        assert(u * al == al * u && p * al == al * p && u * sc == sc * u && p * sc == sc * p) by (nonlinear_arith);
        lemma_unique_offsets(al - sc, be, u, v, p, q);
    } else {
        lemma_distribute_sub(v, be, sc);
        lemma_distribute_sub(q, be, sc);
        assert(v * be == be * v && q * be == be * q && v * sc == sc * v && q * sc == sc * q) by (nonlinear_arith);
        lemma_unique_offsets(al, be - sc, u, v, p, q);
    }
}

/// Solving a point set against itself gives the identity map.
pub proof fn lemma_same_points_solve_to_identity(s: CalibrationSet, c: CalibrationData)
    requires
        c.solves(s, s),
    ensures
        c.is_identity(),
{
    let sc = c.scale as int;
    lemma_self_axis(c.alpha_x as int, c.beta_x as int, c.delta_x as int, sc, s, true);
    lemma_self_axis(c.alpha_y as int, c.beta_y as int, c.delta_y as int, sc, s, false);
}

/// Calibrating one raw sample twice with one transform gives one result:
/// the mapping holds no state.
pub proof fn lemma_apply_is_deterministic(c: CalibrationData, x1: int, y1: int, x2: int, y2: int)
    requires
        x1 == x2,
        y1 == y2,
    ensures
        c.apply_spec(x1, y1) == c.apply_spec(x2, y2),
{
}

/// Milliseconds to wait after a target is captured, before the next one.
pub const SETTLE_DELAY_MS: u32 = 200;

/// Milliseconds between two polls of the touch screen during capture.
pub const POLL_INTERVAL_MS: u32 = 10;

/// Where the capture sequence stands; it only moves forward.
#[derive(Clone, Copy, Debug, PartialEq, Eq, Structural)]
pub enum CaptureStage {
    CapturingA,
    CapturingB,
    CapturingC,
    Done,
}

/// What the caller does after handing an event to the capture.
#[derive(Clone, Copy, Debug, PartialEq, Eq, Structural)]
pub enum CaptureStep {
    /// Keep polling.
    Continue,
    /// A target was released and captured: wait `SETTLE_DELAY_MS`, then go on
    /// with the next one.
    Advance,
}

/// The interactive three-point capture: for each target in turn, the last
/// `Move` position is kept as its touch-space point and the release (`End`)
/// moves on to the next target.
#[derive(Clone, Copy, Debug, PartialEq, Eq, Structural)]
pub struct CalibrationCapture {
    pub stage: CaptureStage,
    /// The touch-space points captured so far.
    pub touched: CalibrationSet,
    /// Whether the current target is being pressed.
    pub pressed: bool,
}

/// The stage after the current target is released.
pub open spec fn next_stage(s: CaptureStage) -> CaptureStage {
    match s {
        CaptureStage::CapturingA => CaptureStage::CapturingB,
        CaptureStage::CapturingB => CaptureStage::CapturingC,
        _ => CaptureStage::Done,
    }
}

/// `set` with the point of the target of `stage` replaced by `p`.
pub open spec fn with_target(set: CalibrationSet, stage: CaptureStage, p: CalibrationPoint) -> CalibrationSet {
    match stage {
        CaptureStage::CapturingA => CalibrationSet { a: p, ..set },
        CaptureStage::CapturingB => CalibrationSet { b: p, ..set },
        CaptureStage::CapturingC => CalibrationSet { c: p, ..set },
        CaptureStage::Done => set,
    }
}

/// The event is a release.
pub open spec fn is_release(event: Option<TouchEvent>) -> bool {
    event matches Some(e) && e.kind == TouchKind::End
}

impl CalibrationCapture {
    /// The capture after one polled event.
    pub open spec fn after_event(self, event: Option<TouchEvent>) -> CalibrationCapture {
        if self.stage == CaptureStage::Done {
            self
        } else {
            match event {
                Some(e) => if e.kind == TouchKind::Move {
                    CalibrationCapture {
                        touched: with_target(self.touched, self.stage, CalibrationPoint { x: e.point.x, y: e.point.y }),
                        pressed: true,
                        ..self
                    }
                } else if e.kind == TouchKind::End {
                    CalibrationCapture { stage: next_stage(self.stage), pressed: false, ..self }
                } else {
                    self
                },
                None => self,
            }
        }
    }

    /// A capture at the first target, nothing pressed.
    pub fn new() -> (r: CalibrationCapture)
        ensures
            r.stage == CaptureStage::CapturingA,
            r.touched == reference_set(),
            !r.pressed,
    {
        CalibrationCapture {
            stage: CaptureStage::CapturingA,
            touched: CalibrationSet::default(),
            pressed: false,
        }
    }

    /// The on-screen target to tap now; `None` once all three are captured.
    pub fn target(&self) -> (r: Option<Point>)
        ensures
            self.stage == CaptureStage::CapturingA ==> r == Some(as_point(reference_set().a)),
            self.stage == CaptureStage::CapturingB ==> r == Some(as_point(reference_set().b)),
            self.stage == CaptureStage::CapturingC ==> r == Some(as_point(reference_set().c)),
            self.stage == CaptureStage::Done ==> r.is_none(),
    {
        let screen = CalibrationSet::default();
        match self.stage {
            CaptureStage::CapturingA => Some(Point { x: screen.a.x, y: screen.a.y }),
            CaptureStage::CapturingB => Some(Point { x: screen.b.x, y: screen.b.y }),
            CaptureStage::CapturingC => Some(Point { x: screen.c.x, y: screen.c.y }),
            CaptureStage::Done => None,
        }
    }

    /// Hands one polled event to the capture.
    pub fn handle(&mut self, event: Option<TouchEvent>) -> (r: CaptureStep)
        ensures
            *final(self) == old(self).after_event(event),
            r == (if old(self).stage != CaptureStage::Done && is_release(event) {
                CaptureStep::Advance
            } else {
                CaptureStep::Continue
            }),
    {
        if self.stage == CaptureStage::Done {
            return CaptureStep::Continue;
        }
        match event {
            Some(e) => {
                if e.kind == TouchKind::Move {
                    let p = CalibrationPoint { x: e.point.x, y: e.point.y };
                    match self.stage {
                        CaptureStage::CapturingA => self.touched.a = p,
                        CaptureStage::CapturingB => self.touched.b = p,
                        _ => self.touched.c = p,
                    }
                    self.pressed = true;
                    CaptureStep::Continue
                } else if e.kind == TouchKind::End {
                    self.stage = match self.stage {
                        CaptureStage::CapturingA => CaptureStage::CapturingB,
                        CaptureStage::CapturingB => CaptureStage::CapturingC,
                        _ => CaptureStage::Done,
                    };
                    self.pressed = false;
                    CaptureStep::Advance
                } else {
                    CaptureStep::Continue
                }
            },
            None => CaptureStep::Continue,
        }
    }

    /// Once all three targets are captured, solves the calibration from them;
    /// `None` before that.
    pub fn finish(&self) -> (r: Option<Result<CalibrationData, CalibrationError>>)
        ensures
            self.stage != CaptureStage::Done ==> r.is_none(),
            self.stage == CaptureStage::Done ==> r.is_some() && (r->Some_0.is_err() <==> det(self.touched) == 0),
            self.stage == CaptureStage::Done && r->Some_0.is_ok() ==> r->Some_0->Ok_0.wf()
                && r->Some_0->Ok_0.solves(reference_set(), self.touched),
    {
        if self.stage == CaptureStage::Done {
            Some(calibration_math(&self.touched))
        } else {
            None
        }
    }
}

} // verus!
