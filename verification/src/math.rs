//! Coordinate-space helpers: transforming a point by the inverse of an affine
//! 2D transform and testing half-open containment against an axis-aligned
//! rectangle.
//!
//! Coordinates are modeled in integer units (for instance whole pixels). The
//! containment test under a transform is computed exactly, without division:
//! the inverse-transformed point is a rational `numerator / det`, and the
//! half-open interval bounds are cross-multiplied by the determinant instead.

use vstd::prelude::*;

verus! {

/// The type used for scalars.
pub type Scalar = i32;

/// A 2D point or vector.
#[derive(Clone, Copy, PartialEq, Eq, Structural, Debug)]
pub struct Vec2d {
    /// Horizontal coordinate.
    pub x: Scalar,
    /// Vertical coordinate.
    pub y: Scalar,
}

/// A row-major 2x3 affine transform matrix.
///
/// Applying it to a point `(x, y)` yields
/// `(m00 * x + m01 * y + m02, m10 * x + m11 * y + m12)`.
#[derive(Clone, Copy, PartialEq, Eq, Structural, Debug)]
pub struct Matrix2d {
    /// Row 0, column 0.
    pub m00: Scalar,
    /// Row 0, column 1.
    pub m01: Scalar,
    /// Row 0, column 2 (horizontal translation).
    pub m02: Scalar,
    /// Row 1, column 0.
    pub m10: Scalar,
    /// Row 1, column 1.
    pub m11: Scalar,
    /// Row 1, column 2 (vertical translation).
    pub m12: Scalar,
}

impl Matrix2d {
    /// The identity transform.
    pub fn identity() -> (m: Matrix2d)
        ensures
            m == (Matrix2d { m00: 1, m01: 0, m02: 0, m10: 0, m11: 1, m12: 0 }),
    {
        Matrix2d { m00: 1, m01: 0, m02: 0, m10: 0, m11: 1, m12: 0 }
    }
}

/// Rectangle dimensions: top-left corner, width and height.
#[derive(Clone, Copy, PartialEq, Eq, Structural, Debug)]
pub struct Rectangle {
    /// Horizontal coordinate of the top-left corner.
    pub x: Scalar,
    /// Vertical coordinate of the top-left corner.
    pub y: Scalar,
    /// Width (non-negative).
    pub w: Scalar,
    /// Height (non-negative).
    pub h: Scalar,
}

/// Determinant of the linear part of the transform.
pub open spec fn det(t: Matrix2d) -> int {
    t.m00 * t.m11 - t.m01 * t.m10
}

/// Numerator of the horizontal coordinate of the inverse-transformed point;
/// the denominator is `det(t)`.
pub open spec fn inv_x_num(t: Matrix2d, pos: Vec2d) -> int {
    t.m11 * (pos.x - t.m02) - t.m01 * (pos.y - t.m12)
}

/// Numerator of the vertical coordinate of the inverse-transformed point;
/// the denominator is `det(t)`.
pub open spec fn inv_y_num(t: Matrix2d, pos: Vec2d) -> int {
    t.m00 * (pos.y - t.m12) - t.m10 * (pos.x - t.m02)
}

/// The rational `num / den` lies in the half-open interval `[lo, lo + len)`,
/// stated by cross-multiplication so no division is needed.
pub open spec fn ratio_in_half_open(num: int, den: int, lo: int, len: int) -> bool {
    if den > 0 {
        lo * den <= num && num < (lo + len) * den
    } else {
        lo * den >= num && num > (lo + len) * den
    }
}

/// The inverse-transformed point falls within the rectangle, with half-open
/// bounds on both axes.
pub open spec fn is_inside_spec(pos: Vec2d, transform: Matrix2d, rect: Rectangle) -> bool {
    &&& ratio_in_half_open(inv_x_num(transform, pos), det(transform), rect.x as int, rect.w as int)
    &&& ratio_in_half_open(inv_y_num(transform, pos), det(transform), rect.y as int, rect.h as int)
}

/// Horizontal coordinate of the forward transform applied to a local point.
pub open spec fn apply_x(t: Matrix2d, local: Vec2d) -> int {
    t.m00 * local.x + t.m01 * local.y + t.m02
}

/// Vertical coordinate of the forward transform applied to a local point.
pub open spec fn apply_y(t: Matrix2d, local: Vec2d) -> int {
    t.m10 * local.x + t.m11 * local.y + t.m12
}

/// Direct half-open containment of a local point in a rectangle:
/// `x <= px < x + w` and `y <= py < y + h`.
pub open spec fn rect_contains(rect: Rectangle, local: Vec2d) -> bool {
    &&& rect.x <= local.x < rect.x + rect.w
    &&& rect.y <= local.y < rect.y + rect.h
}

/// Multiplies two `i128` values whose magnitudes are bounded by the given
/// ghost bounds, so the product provably fits.
fn mul_i128(x: i128, y: i128, Ghost(bx): Ghost<int>, Ghost(by): Ghost<int>) -> (r: i128)
    requires
        -bx <= x <= bx,
        -by <= y <= by,
        0 <= bx,
        0 <= by,
        bx * by <= 0x7fff_ffff_ffff_ffff_ffff_ffff_ffff_ffff,
    ensures
        r == x * y,
        -(bx * by) <= r <= bx * by,
{
    proof {
        assert(-(bx * by) <= x * y <= bx * by) by (nonlinear_arith)
            requires
                -bx <= x <= bx,
                -by <= y <= by,
                0 <= bx,
                0 <= by,
        ;
    }
    x * y
}

/// Returns true if the transformed point is inside the rectangle.
///
/// The point is carried to the rectangle's local space by the inverse of
/// `transform` and then tested with half-open bounds: the left and top edges
/// are inside, the right and bottom edges are outside. The transform must not
/// be degenerate.
pub fn is_inside(pos: Vec2d, transform: Matrix2d, rect: Rectangle) -> (r: bool)
    requires
        det(transform) != 0,
    ensures
        r == is_inside_spec(pos, transform, rect),
{
    let m00: i128 = transform.m00 as i128;
    let m01: i128 = transform.m01 as i128;
    let m02: i128 = transform.m02 as i128;
    let m10: i128 = transform.m10 as i128;
    let m11: i128 = transform.m11 as i128;
    let m12: i128 = transform.m12 as i128;
    let ghost b31: int = 0x8000_0000;
    let ghost b32: int = 0x1_0000_0000;
    let ghost b63: int = 0x8000_0000_0000_0000;

    let den: i128 = mul_i128(m00, m11, Ghost(b31), Ghost(b31))
        - mul_i128(m01, m10, Ghost(b31), Ghost(b31));
    let dx: i128 = pos.x as i128 - m02;
    let dy: i128 = pos.y as i128 - m12;
    let nx: i128 = mul_i128(m11, dx, Ghost(b31), Ghost(b32))
        - mul_i128(m01, dy, Ghost(b31), Ghost(b32));
    let ny: i128 = mul_i128(m00, dy, Ghost(b31), Ghost(b32))
        - mul_i128(m10, dx, Ghost(b31), Ghost(b32));

    let x0: i128 = rect.x as i128;
    let x1: i128 = x0 + rect.w as i128;
    let y0: i128 = rect.y as i128;
    let y1: i128 = y0 + rect.h as i128;
    let x0d: i128 = mul_i128(x0, den, Ghost(b32), Ghost(b63));
    let x1d: i128 = mul_i128(x1, den, Ghost(b32), Ghost(b63));
    let y0d: i128 = mul_i128(y0, den, Ghost(b32), Ghost(b63));
    let y1d: i128 = mul_i128(y1, den, Ghost(b32), Ghost(b63));

    let inside_x: bool = if den > 0 {
        x0d <= nx && nx < x1d
    } else {
        x0d >= nx && nx > x1d
    };
    let inside_y: bool = if den > 0 {
        y0d <= ny && ny < y1d
    } else {
        y0d >= ny && ny > y1d
    };
    inside_x && inside_y
}

/// Scaling a rational's numerator and denominator by the same nonzero factor
/// keeps the half-open interval test; here the rational is the exact multiple
/// `(den * l) / den == l`.
proof fn lemma_ratio_of_multiple(den: int, l: int, lo: int, len: int)
    requires
        den != 0,
    ensures
        ratio_in_half_open(den * l, den, lo, len) == (lo <= l < lo + len),
{
    if den > 0 {
        assert((lo * den <= den * l) == (lo <= l)) by (nonlinear_arith)
            requires den > 0,
        ;
        assert((den * l < (lo + len) * den) == (l < lo + len)) by (nonlinear_arith)
            requires den > 0,
        ;
    } else {
        assert((lo * den >= den * l) == (lo <= l)) by (nonlinear_arith)
            requires den < 0,
        ;
        assert((den * l > (lo + len) * den) == (l < lo + len)) by (nonlinear_arith)
            requires den < 0,
        ;
    }
}

/// Law: hit-testing agrees with direct half-open containment of the
/// inverse-transformed point. For every non-degenerate transform, a position
/// that is the forward image of a local point tests inside exactly when that
/// local point satisfies `x <= px < x + w` and `y <= py < y + h`; in
/// particular points on the left edge are inside and points at `x + w` are
/// outside.
pub proof fn lemma_is_inside_agrees(transform: Matrix2d, rect: Rectangle, local: Vec2d, pos: Vec2d)
    requires
        det(transform) != 0,
        pos.x == apply_x(transform, local),
        pos.y == apply_y(transform, local),
    ensures
        is_inside_spec(pos, transform, rect) == rect_contains(rect, local),
{
    let a = transform.m00 as int;
    let b = transform.m01 as int;
    let c = transform.m02 as int;
    let d = transform.m10 as int;
    let e = transform.m11 as int;
    let f = transform.m12 as int;
    let lx = local.x as int;
    let ly = local.y as int;
    assert(e * ((a * lx + b * ly + c) - c) - b * ((d * lx + e * ly + f) - f)
        == (a * e - b * d) * lx) by (nonlinear_arith);
    assert(a * ((d * lx + e * ly + f) - f) - d * ((a * lx + b * ly + c) - c)
        == (a * e - b * d) * ly) by (nonlinear_arith);
    lemma_ratio_of_multiple(det(transform), lx, rect.x as int, rect.w as int);
    lemma_ratio_of_multiple(det(transform), ly, rect.y as int, rect.h as int);
}

/// Law: the containment test is half-open on its boundary. A point on the
/// left edge of a non-empty rectangle, vertically in range, is contained; a
/// point at `x + w` never is.
pub proof fn lemma_boundary_half_open(rect: Rectangle, local: Vec2d)
    ensures
        rect.w > 0 && local.x == rect.x && rect.y <= local.y < rect.y + rect.h
            ==> rect_contains(rect, local),
        local.x == rect.x + rect.w ==> !rect_contains(rect, local),
{
}

} // verus!
