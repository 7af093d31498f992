//! Lemmas on products and quotients of real numbers, as the laws of the
//! moments need them.
use vstd::prelude::*;

verus! {


/// Two factors of a product may change places in front of the third.
pub(crate) proof fn lemma_swap(x: real, y: real, z: real)
    ensures
        x * (y * z) == y * (x * z),
        (x * y) * z == x * (y * z),
{
    assert(x * (y * z) == y * (x * z)) by (nonlinear_arith);
    assert((x * y) * z == x * (y * z)) by (nonlinear_arith);
}

/// A quotient is the number that gives the dividend when multiplied by
/// the divisor.
pub(crate) proof fn lemma_quotient(x: real, y: real, m: real)
    requires
        x * m == y,
        m != 0real,
    ensures
        y / m == x,
{
    assert(y / m == x) by (nonlinear_arith)
        requires
            x * m == y,
            m != 0real,
    ;
}

/// The quotient times the divisor gives the dividend back.
pub(crate) proof fn lemma_quotient_back(y: real, m: real)
    requires
        m != 0real,
    ensures
        (y / m) * m == y,
{
    assert((y / m) * m == y) by (nonlinear_arith)
        requires
            m != 0real,
    ;
}

/// The second central moment along one axis does not move with the
/// points: `m` is the moment `(0, 0)`, `c` the centroid on that axis,
/// `m1` and `m2` the first and second raw moment on it.
pub(crate) proof fn lemma_second_pure(m: real, c: real, a: real, m1: real, m2: real)
    requires
        m1 == c * m,
    ensures
        (m2 + 2real * (a * m1) + a * (a * m)) - (m1 + a * m) * (c + a) == m2 - m1 * c,
{
    let y = a * m;
    let moved = (m1 + y) * (c + a);
    assert(moved == m1 * c + m1 * a + y * c + y * a) by (nonlinear_arith)
        requires
            moved == (m1 + y) * (c + a),
    ;
    lemma_swap(c, a, m);
}

/// The mixed second central moment does not move with the points.
pub(crate) proof fn lemma_second_mixed(
    m: real,
    cx: real,
    cy: real,
    a: real,
    b: real,
    m10: real,
    m01: real,
    m11: real,
)
    requires
        m10 == cx * m,
        m01 == cy * m,
    ensures
        (m11 + a * m01 + b * m10 + a * (b * m)) - (m10 + a * m) * (cy + b) == m11 - m10 * cy,
{
    let y = a * m;
    let moved = (m10 + y) * (cy + b);
    assert(moved == m10 * cy + m10 * b + y * cy + y * b) by (nonlinear_arith)
        requires
            moved == (m10 + y) * (cy + b),
    ;
    lemma_swap(cy, a, m);
    lemma_swap(a, b, m);
    lemma_swap(a, m, b);
}

/// The third central moment along one axis does not move with the
/// points: `m3` is the third raw moment on that axis and `mu2` the second
/// central moment.
pub(crate) proof fn lemma_third_pure(m: real, c: real, a: real, m1: real, m2: real, m3: real, mu2: real)
    requires
        m1 == c * m,
        mu2 == m2 - m1 * c,
    ensures
        (m3 + 3real * (a * m2) + 3real * (a * (a * m1)) + a * (a * (a * m))) - (c + a) * (3real
            * mu2 + (c + a) * (m1 + a * m)) == m3 - c * (3real * mu2 + c * m1),
{
    let y = a * m;
    let q = m1 * c;
    let p1 = c * m1;
    let p2 = c * y;
    let p3 = a * m1;
    let p4 = a * y;
    let inner = (c + a) * (m1 + y);
    assert(inner == p1 + p2 + p3 + p4) by (nonlinear_arith)
        requires
            inner == (c + a) * (m1 + y),
            p1 == c * m1,
            p2 == c * y,
            p3 == a * m1,
            p4 == a * y,
    ;
    let outer = (c + a) * (3real * mu2 + inner);
    assert(outer == 3real * (c * mu2) + c * p1 + c * p2 + c * p3 + c * p4 + 3real * (a * mu2) + a
        * p1 + a * p2 + a * p3 + a * p4) by (nonlinear_arith)
        requires
            outer == (c + a) * (3real * mu2 + inner),
            inner == p1 + p2 + p3 + p4,
    ;
    let before = c * (3real * mu2 + p1);
    assert(before == 3real * (c * mu2) + c * p1) by (nonlinear_arith)
        requires
            before == c * (3real * mu2 + p1),
    ;
    assert(a * mu2 == a * m2 - a * q) by (nonlinear_arith)
        requires
            mu2 == m2 - q,
    ;
    lemma_swap(c, a, m);
    assert(p2 == p3);
    lemma_swap(c, a, m1);
    assert(c * p3 == a * q);
    lemma_swap(c, a, y);
    assert(c * p4 == a * p3);
}

/// The third central moment that is of second degree along one axis and
/// of first degree along the other does not move with the points. The
/// axis of second degree is named first: `m10`, `m20` and `m21` are raw
/// moments, `mu20` and `mu11` central ones.
pub(crate) proof fn lemma_third_mixed(
    m: real,
    cx: real,
    cy: real,
    a: real,
    b: real,
    m10: real,
    m01: real,
    m20: real,
    m11: real,
    m21: real,
    mu20: real,
    mu11: real,
)
    requires
        m10 == cx * m,
        m01 == cy * m,
        mu20 == m20 - m10 * cx,
        mu11 == m11 - cx * m01,
    ensures
        (m21 + 2real * (a * m11) + a * (a * m01) + b * m20 + 2real * (a * (b * m10)) + a * (a * (b
            * m))) - (cx + a) * ((m01 + b * m) * (cx + a) + mu11 * 2real) - (cy + b) * mu20 == m21
            - cx * (m01 * cx + mu11 * 2real) - cy * mu20,
{
    let w = b * m;
    let r1 = m01 * cx;
    let r2 = m01 * a;
    let r3 = w * cx;
    let r4 = w * a;
    let inner = (m01 + w) * (cx + a);
    assert(inner == r1 + r2 + r3 + r4) by (nonlinear_arith)
        requires
            inner == (m01 + w) * (cx + a),
            r1 == m01 * cx,
            r2 == m01 * a,
            r3 == w * cx,
            r4 == w * a,
    ;
    let outer = (cx + a) * (inner + mu11 * 2real);
    assert(outer == cx * r1 + cx * r2 + cx * r3 + cx * r4 + 2real * (cx * mu11) + a * r1 + a * r2
        + a * r3 + a * r4 + 2real * (a * mu11)) by (nonlinear_arith)
        requires
            outer == (cx + a) * (inner + mu11 * 2real),
            inner == r1 + r2 + r3 + r4,
    ;
    let before = cx * (r1 + mu11 * 2real);
    assert(before == cx * r1 + 2real * (cx * mu11)) by (nonlinear_arith)
        requires
            before == cx * (r1 + mu11 * 2real),
    ;
    let side = (cy + b) * mu20;
    assert(side == cy * mu20 + b * mu20) by (nonlinear_arith)
        requires
            side == (cy + b) * mu20,
    ;
    let q = m10 * cx;
    assert(b * mu20 == b * m20 - b * q) by (nonlinear_arith)
        requires
            mu20 == m20 - q,
    ;
    let z = cx * m01;
    assert(a * mu11 == a * m11 - a * z) by (nonlinear_arith)
        requires
            mu11 == m11 - z,
    ;
    // cx * r2 and a * r1 are both a * (cx * m01)
    lemma_swap(cx, a, m01);
    assert(cx * r2 == a * z);
    assert(a * r1 == a * z);
    // r3 is b * m10
    lemma_swap(b, m, cx);
    assert(r3 == b * m10);
    lemma_swap(cx, b, m10);
    assert(cx * r3 == b * q);
    // r4 is b * (a * m)
    lemma_swap(b, m, a);
    assert(r4 == b * (a * m));
    lemma_swap(cx, b, a * m);
    lemma_swap(cx, a, m);
    lemma_swap(b, a, m10);
    assert(cx * r4 == a * (b * m10));
    lemma_swap(b, a, m);
    assert(a * r4 == a * (a * w));
}

/// The first powers of a number, as products.
pub(crate) proof fn lemma_powers(l: real)
    ensures
        crate::exact::power(l, 0) == 1real,
        crate::exact::power(l, 1) == l,
        crate::exact::power(l, 2) == l * l,
        crate::exact::power(l, 3) == l * (l * l),
        crate::exact::power(l, 4) == l * (l * (l * l)),
        crate::exact::power(l, 5) == l * (l * (l * (l * l))),
{
    reveal_with_fuel(crate::exact::power, 7);
    assert(l * 1real == l) by (nonlinear_arith);
}

/// A product of two multiples is the multiple, by the product of the two
/// factors, of the product.
pub(crate) proof fn lemma_multiples(k: real, x: real, l: real, y: real)
    ensures
        (k * x) * (l * y) == (k * l) * (x * y),
{
    assert((k * x) * (l * y) == (k * l) * (x * y)) by (nonlinear_arith);
}

/// A multiple of a sum is the sum of the multiples.
pub(crate) proof fn lemma_multiple_of_sum(l: real, x: real, y: real)
    ensures
        l * (x + y) == l * x + l * y,
        l * (x - y) == l * x - l * y,
{
    assert(l * (x + y) == l * x + l * y) by (nonlinear_arith);
    assert(l * (x - y) == l * x - l * y) by (nonlinear_arith);
}

/// The cross term of an edge grows with the square of the factor by which
/// the polygon is scaled.
pub(crate) proof fn lemma_cross_scaled(l: real, p: (real, real), q: (real, real))
    ensures
        crate::polygon::cross((l * p.0, l * p.1), (l * q.0, l * q.1)) == (l * l) * crate::polygon::cross(
            p,
            q,
        ),
{
    let k = l * l;
    let u = p.0 * q.1;
    let v = q.0 * p.1;
    lemma_multiples(l, p.0, l, q.1);
    lemma_multiples(l, q.0, l, p.1);
    assert((l * p.0) * (l * q.1) == k * u);
    assert((l * q.0) * (l * p.1) == k * v);
    lemma_multiple_of_sum(k, u, v);
    assert(k * (u - v) == k * u - k * v);
}

/// The factor of an edge in a sum of first degree grows with the factor
/// by which the polygon is scaled.
pub(crate) proof fn lemma_term_scaled_first(i: int, j: int, l: real, p: (real, real), q: (real, real))
    requires
        0 <= i,
        0 <= j,
        i + j == 1,
    ensures
        crate::polygon::term(i, j, (l * p.0, l * p.1), (l * q.0, l * q.1)) == l * crate::polygon::term(
            i,
            j,
            p,
            q,
        ),
{
    lemma_multiple_of_sum(l, p.0, q.0);
    lemma_multiple_of_sum(l, p.1, q.1);
}

/// The factor of an edge in a sum of second degree grows with the square
/// of the factor by which the polygon is scaled.
pub(crate) proof fn lemma_term_scaled_second(i: int, j: int, l: real, p: (real, real), q: (real, real))
    requires
        0 <= i,
        0 <= j,
        i + j == 2,
    ensures
        crate::polygon::term(i, j, (l * p.0, l * p.1), (l * q.0, l * q.1)) == (l * l)
            * crate::polygon::term(i, j, p, q),
{
    let k = l * l;
    if i == 2 {
        let s = p.0 + q.0;
        lemma_multiple_of_sum(l, p.0, q.0);
        lemma_multiples(l, p.0, l, s);
        lemma_multiples(l, q.0, l, q.0);
        lemma_multiple_of_sum(k, p.0 * s, q.0 * q.0);
    } else if j == 2 {
        let s = p.1 + q.1;
        lemma_multiple_of_sum(l, p.1, q.1);
        lemma_multiples(l, p.1, l, s);
        lemma_multiples(l, q.1, l, q.1);
        lemma_multiple_of_sum(k, p.1 * s, q.1 * q.1);
    } else {
        let s = p.1 + q.1;
        let u = s + p.1;
        let v = s + q.1;
        lemma_multiple_of_sum(l, p.1, q.1);
        lemma_multiple_of_sum(l, s, p.1);
        lemma_multiple_of_sum(l, s, q.1);
        lemma_multiples(l, p.0, l, u);
        lemma_multiples(l, q.0, l, v);
        lemma_multiple_of_sum(k, p.0 * u, q.0 * v);
    }
}

/// A product of three multiples by the same factor is the multiple, by
/// the third power of the factor, of the product.
pub(crate) proof fn lemma_three_multiples(l: real, x: real, y: real, z: real)
    ensures
        ((l * x) * (l * y)) * (l * z) == (l * (l * l)) * ((x * y) * z),
        (l * x) * ((l * l) * y) == (l * (l * l)) * (x * y),
        ((2real * (l * x)) * (l * y)) * (l * z) == (l * (l * l)) * (((2real * x) * y) * z),
{
    assert(((l * x) * (l * y)) * (l * z) == (l * (l * l)) * ((x * y) * z)) by (nonlinear_arith);
    assert((l * x) * ((l * l) * y) == (l * (l * l)) * (x * y)) by (nonlinear_arith);
    assert(((2real * (l * x)) * (l * y)) * (l * z) == (l * (l * l)) * (((2real * x) * y) * z))
        by (nonlinear_arith);
}

/// A multiple of a sum in which the first summand counts three times.
pub(crate) proof fn lemma_multiple_of_weighted_sum(l: real, x: real, y: real)
    ensures
        l * (3real * x + y) == 3real * (l * x) + l * y,
{
    assert(l * (3real * x + y) == 3real * (l * x) + l * y) by (nonlinear_arith);
}

/// A multiple of a sum of three is the sum of the multiples.
pub(crate) proof fn lemma_multiple_of_three(l: real, x: real, y: real, z: real)
    ensures
        l * (x + y + z) == l * x + l * y + l * z,
{
    assert(l * (x + y + z) == l * x + l * y + l * z) by (nonlinear_arith);
}

/// The factor of an edge in a sum of third degree grows with the third
/// power of the factor by which the polygon is scaled.
pub(crate) proof fn lemma_term_scaled_third(i: int, j: int, l: real, p: (real, real), q: (real, real))
    requires
        0 <= i,
        0 <= j,
        i + j == 3,
    ensures
        crate::polygon::term(i, j, (l * p.0, l * p.1), (l * q.0, l * q.1)) == (l * (l * l))
            * crate::polygon::term(i, j, p, q),
{
    let k = l * l;
    let c = l * k;
    if i == 3 {
        let s = p.0 + q.0;
        let w = p.0 * p.0 + q.0 * q.0;
        lemma_multiple_of_sum(l, p.0, q.0);
        lemma_multiples(l, p.0, l, p.0);
        lemma_multiples(l, q.0, l, q.0);
        lemma_multiple_of_sum(k, p.0 * p.0, q.0 * q.0);
        lemma_three_multiples(l, s, w, 0real);
    } else if j == 3 {
        let s = p.1 + q.1;
        let w = p.1 * p.1 + q.1 * q.1;
        lemma_multiple_of_sum(l, p.1, q.1);
        lemma_multiples(l, p.1, l, p.1);
        lemma_multiples(l, q.1, l, q.1);
        lemma_multiple_of_sum(k, p.1 * p.1, q.1 * q.1);
        lemma_three_multiples(l, s, w, 0real);
    } else if i == 2 {
        lemma_term_scaled_mixed(l, p.0, p.1, q.0, q.1);
    } else {
        lemma_term_scaled_mixed(l, p.1, p.0, q.1, q.0);
    }
}

/// The factor of an edge in a mixed sum of third degree grows with the
/// third power of the factor by which the polygon is scaled. The axis of
/// second degree is named first.
pub(crate) proof fn lemma_term_scaled_mixed(l: real, px: real, py: real, qx: real, qy: real)
    ensures
        (l * px) * (l * px) * (3real * (l * py) + l * qy) + 2real * (l * qx) * (l * px) * (l * py + l
            * qy) + (l * qx) * (l * qx) * (3real * (l * qy) + l * py) == (l * (l * l)) * (px * px
            * (3real * py + qy) + 2real * qx * px * (py + qy) + qx * qx * (3real * qy + py)),
{
    let c = l * (l * l);
    let u = 3real * py + qy;
    let s = py + qy;
    let v = 3real * qy + py;
    lemma_multiple_of_weighted_sum(l, py, qy);
    lemma_multiple_of_sum(l, py, qy);
    lemma_multiple_of_weighted_sum(l, qy, py);
    lemma_three_multiples(l, px, px, u);
    lemma_three_multiples(l, qx, px, s);
    lemma_three_multiples(l, qx, qx, v);
    lemma_multiple_of_three(c, (px * px) * u, ((2real * qx) * px) * s, (qx * qx) * v);
}

/// What an edge adds to the sum of the coefficient `(i, j)` grows with
/// the power `i + j + 2` of the factor by which the polygon is scaled.
pub(crate) proof fn lemma_edge_scaled(i: int, j: int, l: real, p: (real, real), q: (real, real))
    requires
        0 <= i,
        0 <= j,
        i + j <= 3,
    ensures
        crate::polygon::edge(i, j, (l * p.0, l * p.1), (l * q.0, l * q.1)) == crate::exact::power(
            l,
            (i + j + 2) as nat,
        ) * crate::polygon::edge(i, j, p, q),
{
    lemma_powers(l);
    lemma_cross_scaled(l, p, q);
    let c = crate::polygon::cross(p, q);
    let t = crate::polygon::term(i, j, p, q);
    let k = l * l;
    let grown = crate::polygon::term(i, j, (l * p.0, l * p.1), (l * q.0, l * q.1));
    if i + j == 0 {
        assert((k * c) * 1real == k * c) by (nonlinear_arith);
        assert(c * 1real == c) by (nonlinear_arith);
    } else if i + j == 1 {
        lemma_term_scaled_first(i, j, l, p, q);
        assert(grown == l * t);
        lemma_multiples(k, c, l, t);
        assert(k * l == l * (l * l)) by (nonlinear_arith)
            requires
                k == l * l,
        ;
    } else if i + j == 2 {
        lemma_term_scaled_second(i, j, l, p, q);
        assert(grown == k * t);
        lemma_multiples(k, c, k, t);
        assert(k * k == l * (l * (l * l))) by (nonlinear_arith)
            requires
                k == l * l,
        ;
    } else {
        lemma_term_scaled_third(i, j, l, p, q);
        assert(grown == (l * k) * t);
        lemma_multiples(k, c, l * k, t);
        assert(k * (l * k) == l * (l * (l * (l * l)))) by (nonlinear_arith)
            requires
                k == l * l,
        ;
    }
}

/// A factor other than zero may be cancelled from both sides.
pub(crate) proof fn lemma_cancel(x: real, y: real, k: real)
    requires
        x * k == y * k,
        k != 0real,
    ensures
        x == y,
{
    assert(x == y) by (nonlinear_arith)
        requires
            x * k == y * k,
            k != 0real,
    ;
}

/// The product of two positive numbers is positive.
pub(crate) proof fn lemma_positive_product(x: real, y: real)
    requires
        x > 0real,
        y > 0real,
    ensures
        x * y > 0real,
{
    assert(x * y > 0real) by (nonlinear_arith)
        requires
            x > 0real,
            y > 0real,
    ;
}

/// The quotient of a number that is not negative by a positive one is not
/// negative, and that of two positive numbers is positive.
pub(crate) proof fn lemma_quotient_sign(x: real, m: real)
    requires
        x >= 0real,
        m > 0real,
    ensures
        x / m >= 0real,
        x > 0real ==> x / m > 0real,
{
    let q = x / m;
    lemma_quotient_back(x, m);
    assert(q >= 0real && (x > 0real ==> q > 0real)) by (nonlinear_arith)
        requires
            q * m == x,
            x >= 0real,
            m > 0real,
    ;
}

/// A second central moment grows with the fourth power of the factor by
/// which the polygon is scaled: `l3` and `l4` are the third and fourth
/// power of `l`.
pub(crate) proof fn lemma_second_grown(l3: real, l: real, l4: real, m1: real, c: real, m2: real)
    requires
        l3 * l == l4,
    ensures
        l4 * m2 - (l3 * m1) * (l * c) == l4 * (m2 - m1 * c),
{
    lemma_multiples(l3, m1, l, c);
    lemma_multiple_of_sum(l4, m2, m1 * c);
}

/// A third central moment along one axis grows with the fifth power of
/// the factor by which the polygon is scaled.
pub(crate) proof fn lemma_third_pure_grown(
    l: real,
    l3: real,
    l4: real,
    l5: real,
    c: real,
    m1: real,
    m3: real,
    mu2: real,
)
    requires
        l * l3 == l4,
        l * l4 == l5,
    ensures
        l5 * m3 - (l * c) * (3real * (l4 * mu2) + (l * c) * (l3 * m1)) == l5 * (m3 - c * (3real * mu2
            + c * m1)),
{
    let w1 = c * m1;
    lemma_multiples(l, c, l3, m1);
    assert((l * c) * (l3 * m1) == l4 * w1);
    let w = 3real * mu2 + w1;
    assert(l4 * w == 3real * (l4 * mu2) + l4 * w1) by (nonlinear_arith)
        requires
            w == 3real * mu2 + w1,
    ;
    lemma_multiples(l, c, l4, w);
    assert((l * c) * (l4 * w) == l5 * (c * w));
    lemma_multiple_of_sum(l5, m3, c * w);
}

/// A mixed third central moment grows with the fifth power of the factor
/// by which the polygon is scaled. The axis of second degree is named
/// first.
pub(crate) proof fn lemma_third_mixed_grown(
    l: real,
    l3: real,
    l4: real,
    l5: real,
    cx: real,
    cy: real,
    m01: real,
    m21: real,
    mu11: real,
    mu20: real,
)
    requires
        l * l3 == l4,
        l * l4 == l5,
    ensures
        l5 * m21 - (l * cx) * ((l3 * m01) * (l * cx) + (l4 * mu11) * 2real) - (l * cy) * (l4 * mu20)
            == l5 * (m21 - cx * (m01 * cx + mu11 * 2real) - cy * mu20),
{
    let w1 = m01 * cx;
    let w2 = mu11 * 2real;
    lemma_multiples(l3, m01, l, cx);
    assert((l3 * m01) * (l * cx) == l4 * w1);
    assert((l4 * mu11) * 2real == l4 * w2) by (nonlinear_arith)
        requires
            w2 == mu11 * 2real,
    ;
    let w = w1 + w2;
    lemma_multiple_of_sum(l4, w1, w2);
    assert(l4 * w == l4 * w1 + l4 * w2);
    lemma_multiples(l, cx, l4, w);
    assert((l * cx) * (l4 * w) == l5 * (cx * w));
    lemma_multiples(l, cy, l4, mu20);
    assert((l * cy) * (l4 * mu20) == l5 * (cy * mu20));
    let u = cx * w;
    let v = cy * mu20;
    assert(l5 * (m21 - u - v) == l5 * m21 - l5 * u - l5 * v) by (nonlinear_arith);
}

/// A second central moment times the square of a smaller inverse is the
/// moment of the unscaled polygon times the square of its inverse: `k` is
/// the square of the factor, `small` the inverse after scaling.
pub(crate) proof fn lemma_normalizer_second(k: real, mu: real, small: real, inv: real)
    requires
        small * k == inv,
    ensures
        ((k * k) * mu) * (small * small) == mu * (inv * inv),
{
    assert(((k * k) * mu) * (small * small) == mu * ((small * k) * (small * k)))
        by (nonlinear_arith);
}

/// The same for a third central moment, where the root of the inverse
/// enters: `thin` is the root after scaling.
pub(crate) proof fn lemma_normalizer_third(
    l: real,
    k: real,
    mu: real,
    small: real,
    inv: real,
    thin: real,
    r: real,
)
    requires
        small * k == inv,
        thin * l == r,
    ensures
        ((l * (k * k)) * mu) * ((small * small) * thin) == mu * ((inv * inv) * r),
{
    let kk = k * k;
    let ss = small * small;
    lemma_multiples(k, small, k, small);
    assert(kk * ss == inv * inv);
    assert((l * kk) * (ss * thin) == (kk * ss) * (l * thin)) by (nonlinear_arith);
    assert((l * kk) * (ss * thin) == (inv * inv) * r);
    lemma_swap(mu, l * kk, ss * thin);
}

/// The fourth and fifth power of a number, by its square.
pub(crate) proof fn lemma_powers_by_square(l: real)
    ensures
        l * (l * (l * l)) == (l * l) * (l * l),
        l * (l * (l * (l * l))) == l * ((l * l) * (l * l)),
{
    assert(l * (l * (l * l)) == (l * l) * (l * l)) by (nonlinear_arith);
    assert(l * (l * (l * (l * l))) == l * ((l * l) * (l * l))) by (nonlinear_arith);
}

/// Any number times zero is zero.
pub(crate) proof fn lemma_zero(x: real)
    ensures
        x * 0real == 0real,
{
    assert(x * 0real == 0real) by (nonlinear_arith);
}

} // verus!
