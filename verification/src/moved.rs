//! The algebra of an edge whose ends have moved: identities between
//! polynomials in the coordinates of the edge and of the movement, each
//! proved by writing both sides out as sums of products.
use vstd::prelude::*;

verus! {

/// A sum or difference times a number is the sum or difference of the
/// products.
pub(crate) proof fn lemma_sum_times(x: real, y: real, z: real)
    ensures
        (x + y) * z == x * z + y * z,
        (x - y) * z == x * z - y * z,
{
    assert((x + y) * z == x * z + y * z) by (nonlinear_arith);
    assert((x - y) * z == x * z - y * z) by (nonlinear_arith);
}

/// A number times a sum or difference is the sum or difference of the
/// products.
pub(crate) proof fn lemma_times_sum(z: real, x: real, y: real)
    ensures
        z * (x + y) == z * x + z * y,
        z * (x - y) == z * x - z * y,
{
    assert(z * (x + y) == z * x + z * y) by (nonlinear_arith);
    assert(z * (x - y) == z * x - z * y) by (nonlinear_arith);
}

/// A multiple of a number times another is the multiple of the product.
pub(crate) proof fn lemma_scaled_times(c: real, x: real, z: real)
    ensures
        (c * x) * z == c * (x * z),
{
    assert((c * x) * z == c * (x * z)) by (nonlinear_arith);
}

/// A number times a multiple of another is the multiple of the product.
pub(crate) proof fn lemma_times_scaled(z: real, c: real, x: real)
    ensures
        z * (c * x) == c * (z * x),
{
    assert(z * (c * x) == c * (z * x)) by (nonlinear_arith);
}

/// The factor of second degree along one axis, for an edge from `x` to `y`
/// that has moved by `a` to run from `u` to `v`: what moving the apex of the
/// triangle under the edge to either end, or back to the origin, changes.
pub(crate) proof fn lemma_moved_second(x: real, y: real, a: real, u: real, v: real)
    requires
        u == x + a,
        v == y + a,
    ensures
        u * (u + v) + v * v - (a * (a + v) + v * v) == x * (u + v + a),
        u * (u + v) + v * v - (a * (a + u) + u * u) == y * (u + v + a),
        x * (x + y) + y * y + 4real * (a * (x + y)) + 6real * (a * (a * 1real)) - (u * (u + v)
            + v * v) == a * (u + v + a),
{
    let m_a_a = a * a;
    let m_a_x = a * x;
    let m_a_y = a * y;
    let m_x_x = x * x;
    let m_x_y = x * y;
    let m_y_y = y * y;
    let n1 = u + v;
    assert(n1 == 2real * a + x + y);
    let n2 = u * n1;
    let s3 = a;
    let s4 = s3 + x;
    let s5 = 2real * a;
    let s6 = s5 + x;
    let s7 = s6 + y;
    assert(u == s4);
    assert(n1 == s7);
    lemma_times_scaled(a, 2real, a);
    lemma_times_sum(a, s5, x);
    lemma_times_sum(a, s6, y);
    lemma_sum_times(s3, x, s7);
    lemma_times_scaled(x, 2real, a);
    lemma_times_sum(x, s5, x);
    lemma_times_sum(x, s6, y);
    assert(x * a == m_a_x) by (nonlinear_arith)
        requires
            m_a_x == a * x,
    ;
    assert(n2 == 2real * m_a_a + 3real * m_a_x + m_a_y + m_x_x + m_x_y);
    let n8 = v * v;
    let s9 = a;
    let s10 = s9 + y;
    let s11 = a;
    let s12 = s11 + y;
    assert(v == s10);
    assert(v == s12);
    lemma_times_sum(a, s11, y);
    lemma_sum_times(s9, y, s12);
    lemma_times_sum(y, s11, y);
    assert(y * a == m_a_y) by (nonlinear_arith)
        requires
            m_a_y == a * y,
    ;
    assert(n8 == m_a_a + 2real * m_a_y + m_y_y);
    let n13 = n2 + n8;
    assert(n13 == 3real * m_a_a + 3real * m_a_x + 3real * m_a_y + m_x_x + m_x_y + m_y_y);
    let n14 = a + v;
    assert(n14 == 2real * a + y);
    let n15 = a * n14;
    let s16 = 2real * a;
    let s17 = s16 + y;
    assert(n14 == s17);
    lemma_times_scaled(a, 2real, a);
    lemma_times_sum(a, s16, y);
    assert(n15 == 2real * m_a_a + m_a_y);
    let n18 = n15 + n8;
    assert(n18 == 3real * m_a_a + 3real * m_a_y + m_y_y);
    let n19 = n13 - n18;
    assert(n19 == 3real * m_a_x + m_x_x + m_x_y);
    let n20 = n1 + a;
    assert(n20 == 3real * a + x + y);
    let n21 = x * n20;
    let s22 = 3real * a;
    let s23 = s22 + x;
    let s24 = s23 + y;
    assert(n20 == s24);
    lemma_times_scaled(x, 3real, a);
    lemma_times_sum(x, s22, x);
    lemma_times_sum(x, s23, y);
    assert(n21 == 3real * m_a_x + m_x_x + m_x_y);
    assert(n19 == n21);
    let n25 = a + u;
    assert(n25 == 2real * a + x);
    let n26 = a * n25;
    let s27 = 2real * a;
    let s28 = s27 + x;
    assert(n25 == s28);
    lemma_times_scaled(a, 2real, a);
    lemma_times_sum(a, s27, x);
    assert(n26 == 2real * m_a_a + m_a_x);
    let n29 = u * u;
    let s30 = a;
    let s31 = s30 + x;
    let s32 = a;
    let s33 = s32 + x;
    assert(u == s31);
    assert(u == s33);
    lemma_times_sum(a, s32, x);
    lemma_sum_times(s30, x, s33);
    lemma_times_sum(x, s32, x);
    assert(n29 == m_a_a + 2real * m_a_x + m_x_x);
    let n34 = n26 + n29;
    assert(n34 == 3real * m_a_a + 3real * m_a_x + m_x_x);
    let n35 = n13 - n34;
    assert(n35 == 3real * m_a_y + m_x_y + m_y_y);
    let n36 = y * n20;
    let s37 = 3real * a;
    let s38 = s37 + x;
    let s39 = s38 + y;
    assert(n20 == s39);
    lemma_times_scaled(y, 3real, a);
    lemma_times_sum(y, s37, x);
    lemma_times_sum(y, s38, y);
    assert(y * x == m_x_y) by (nonlinear_arith)
        requires
            m_x_y == x * y,
    ;
    assert(n36 == 3real * m_a_y + m_x_y + m_y_y);
    assert(n35 == n36);
    let n40 = x + y;
    assert(n40 == x + y);
    let n41 = x * n40;
    let s42 = x;
    let s43 = s42 + y;
    assert(n40 == s43);
    lemma_times_sum(x, s42, y);
    assert(n41 == m_x_x + m_x_y);
    let n44 = y * y;
    assert(n44 == m_y_y);
    let n45 = n41 + n44;
    assert(n45 == m_x_x + m_x_y + m_y_y);
    let n46 = a * n40;
    let s47 = x;
    let s48 = s47 + y;
    assert(n40 == s48);
    lemma_times_sum(a, s47, y);
    assert(n46 == m_a_x + m_a_y);
    let n49 = 4real * n46;
    assert(n49 == 4real * m_a_x + 4real * m_a_y);
    let n50 = n45 + n49;
    assert(n50 == 4real * m_a_x + 4real * m_a_y + m_x_x + m_x_y + m_y_y);
    let n51 = a * 1real;
    assert(n51 == a);
    let n52 = a * n51;
    assert(n51 == a);
    assert(n52 == m_a_a);
    let n53 = 6real * n52;
    assert(n53 == 6real * m_a_a);
    let n54 = n50 + n53;
    assert(n54 == 6real * m_a_a + 4real * m_a_x + 4real * m_a_y + m_x_x + m_x_y + m_y_y);
    let n55 = n54 - n13;
    assert(n55 == 3real * m_a_a + m_a_x + m_a_y);
    let n56 = a * n20;
    let s57 = 3real * a;
    let s58 = s57 + x;
    let s59 = s58 + y;
    assert(n20 == s59);
    lemma_times_scaled(a, 3real, a);
    lemma_times_sum(a, s57, x);
    lemma_times_sum(a, s58, y);
    assert(n56 == 3real * m_a_a + m_a_x + m_a_y);
    assert(n55 == n56);
}

/// The same for the factor of third degree along one axis.
pub(crate) proof fn lemma_moved_third(x: real, y: real, a: real, u: real, v: real)
    requires
        u == x + a,
        v == y + a,
    ensures
        (u + v) * (u * u + v * v) - (a + v) * (a * a + v * v) == x * (u * (u + v) + v * v + a
            * (u + v + a)),
        (u + v) * (u * u + v * v) - (a + u) * (a * a + u * u) == y * (u * (u + v) + v * v + a
            * (u + v + a)),
        (x + y) * (x * x + y * y) + 5real * (a * (x * (x + y) + y * y)) + 10real * (a * (a * (x
            + y))) + 10real * (a * (a * (a * 1real))) - (u + v) * (u * u + v * v) == a * (u * (u
            + v) + v * v + a * (u + v + a)),
{
    let m_a_a = a * a;
    let m_a_x = a * x;
    let m_x_x = x * x;
    let m_a_y = a * y;
    let m_y_y = y * y;
    let m_a_a_a = a * (a * a);
    let m_a_a_x = a * (a * x);
    let m_a_a_y = a * (a * y);
    let m_a_x_x = a * (x * x);
    let m_a_y_y = a * (y * y);
    let m_a_x_y = a * (x * y);
    let m_x_x_x = x * (x * x);
    let m_x_y_y = x * (y * y);
    let m_x_x_y = x * (x * y);
    let m_y_y_y = y * (y * y);
    let m_x_y = x * y;
    let n1 = u + v;
    assert(n1 == 2real * a + x + y);
    let n2 = u * u;
    let s3 = a;
    let s4 = s3 + x;
    let s5 = a;
    let s6 = s5 + x;
    assert(u == s4);
    assert(u == s6);
    lemma_times_sum(a, s5, x);
    lemma_sum_times(s3, x, s6);
    lemma_times_sum(x, s5, x);
    assert(x * a == m_a_x) by (nonlinear_arith)
        requires
            m_a_x == a * x,
    ;
    assert(n2 == m_a_a + 2real * m_a_x + m_x_x);
    let n7 = v * v;
    let s8 = a;
    let s9 = s8 + y;
    let s10 = a;
    let s11 = s10 + y;
    assert(v == s9);
    assert(v == s11);
    lemma_times_sum(a, s10, y);
    lemma_sum_times(s8, y, s11);
    lemma_times_sum(y, s10, y);
    assert(y * a == m_a_y) by (nonlinear_arith)
        requires
            m_a_y == a * y,
    ;
    assert(n7 == m_a_a + 2real * m_a_y + m_y_y);
    let n12 = n2 + n7;
    assert(n12 == 2real * m_a_a + 2real * m_a_x + 2real * m_a_y + m_x_x + m_y_y);
    let n13 = n1 * n12;
    let s14 = 2real * a;
    let s15 = s14 + x;
    let s16 = s15 + y;
    let s17 = 2real * m_a_a;
    let s18 = s17 + 2real * m_a_x;
    let s19 = s18 + 2real * m_a_y;
    let s20 = s19 + m_x_x;
    let s21 = s20 + m_y_y;
    assert(n1 == s16);
    assert(n12 == s21);
    lemma_scaled_times(2real, a, s21);
    lemma_times_scaled(a, 2real, m_a_a);
    lemma_times_sum(a, s17, 2real * m_a_x);
    lemma_times_scaled(a, 2real, m_a_x);
    lemma_times_sum(a, s18, 2real * m_a_y);
    lemma_times_scaled(a, 2real, m_a_y);
    lemma_times_sum(a, s19, m_x_x);
    lemma_times_sum(a, s20, m_y_y);
    lemma_sum_times(s14, x, s21);
    lemma_times_scaled(x, 2real, m_a_a);
    lemma_times_sum(x, s17, 2real * m_a_x);
    lemma_times_scaled(x, 2real, m_a_x);
    lemma_times_sum(x, s18, 2real * m_a_y);
    lemma_times_scaled(x, 2real, m_a_y);
    lemma_times_sum(x, s19, m_x_x);
    lemma_times_sum(x, s20, m_y_y);
    lemma_sum_times(s15, y, s21);
    lemma_times_scaled(y, 2real, m_a_a);
    lemma_times_sum(y, s17, 2real * m_a_x);
    lemma_times_scaled(y, 2real, m_a_x);
    lemma_times_sum(y, s18, 2real * m_a_y);
    lemma_times_scaled(y, 2real, m_a_y);
    lemma_times_sum(y, s19, m_x_x);
    lemma_times_sum(y, s20, m_y_y);
    assert(a * m_a_a == m_a_a_a) by (nonlinear_arith)
        requires
            m_a_a == a * a,
            m_a_a_a == a * (a * a),
    ;
    assert(a * m_a_x == m_a_a_x) by (nonlinear_arith)
        requires
            m_a_x == a * x,
            m_a_a_x == a * (a * x),
    ;
    assert(a * m_a_y == m_a_a_y) by (nonlinear_arith)
        requires
            m_a_y == a * y,
            m_a_a_y == a * (a * y),
    ;
    assert(a * m_x_x == m_a_x_x) by (nonlinear_arith)
        requires
            m_x_x == x * x,
            m_a_x_x == a * (x * x),
    ;
    assert(a * m_y_y == m_a_y_y) by (nonlinear_arith)
        requires
            m_y_y == y * y,
            m_a_y_y == a * (y * y),
    ;
    assert(x * m_a_a == m_a_a_x) by (nonlinear_arith)
        requires
            m_a_a == a * a,
            m_a_a_x == a * (a * x),
    ;
    assert(x * m_a_x == m_a_x_x) by (nonlinear_arith)
        requires
            m_a_x == a * x,
            m_a_x_x == a * (x * x),
    ;
    assert(x * m_a_y == m_a_x_y) by (nonlinear_arith)
        requires
            m_a_y == a * y,
            m_a_x_y == a * (x * y),
    ;
    assert(x * m_x_x == m_x_x_x) by (nonlinear_arith)
        requires
            m_x_x == x * x,
            m_x_x_x == x * (x * x),
    ;
    assert(x * m_y_y == m_x_y_y) by (nonlinear_arith)
        requires
            m_y_y == y * y,
            m_x_y_y == x * (y * y),
    ;
    assert(y * m_a_a == m_a_a_y) by (nonlinear_arith)
        requires
            m_a_a == a * a,
            m_a_a_y == a * (a * y),
    ;
    assert(y * m_a_x == m_a_x_y) by (nonlinear_arith)
        requires
            m_a_x == a * x,
            m_a_x_y == a * (x * y),
    ;
    assert(y * m_a_y == m_a_y_y) by (nonlinear_arith)
        requires
            m_a_y == a * y,
            m_a_y_y == a * (y * y),
    ;
    assert(y * m_x_x == m_x_x_y) by (nonlinear_arith)
        requires
            m_x_x == x * x,
            m_x_x_y == x * (x * y),
    ;
    assert(y * m_y_y == m_y_y_y) by (nonlinear_arith)
        requires
            m_y_y == y * y,
            m_y_y_y == y * (y * y),
    ;
    assert(n13 == 4real * m_a_a_a + 6real * m_a_a_x + 6real * m_a_a_y + 4real * m_a_x_x + 4real
        * m_a_x_y + 4real * m_a_y_y + m_x_x_x + m_x_x_y + m_x_y_y + m_y_y_y);
    let n22 = a + v;
    assert(n22 == 2real * a + y);
    let n23 = a * a;
    assert(n23 == m_a_a);
    let n24 = n23 + n7;
    assert(n24 == 2real * m_a_a + 2real * m_a_y + m_y_y);
    let n25 = n22 * n24;
    let s26 = 2real * a;
    let s27 = s26 + y;
    let s28 = 2real * m_a_a;
    let s29 = s28 + 2real * m_a_y;
    let s30 = s29 + m_y_y;
    assert(n22 == s27);
    assert(n24 == s30);
    lemma_scaled_times(2real, a, s30);
    lemma_times_scaled(a, 2real, m_a_a);
    lemma_times_sum(a, s28, 2real * m_a_y);
    lemma_times_scaled(a, 2real, m_a_y);
    lemma_times_sum(a, s29, m_y_y);
    lemma_sum_times(s26, y, s30);
    lemma_times_scaled(y, 2real, m_a_a);
    lemma_times_sum(y, s28, 2real * m_a_y);
    lemma_times_scaled(y, 2real, m_a_y);
    lemma_times_sum(y, s29, m_y_y);
    assert(n25 == 4real * m_a_a_a + 6real * m_a_a_y + 4real * m_a_y_y + m_y_y_y);
    let n31 = n13 - n25;
    assert(n31 == 6real * m_a_a_x + 4real * m_a_x_x + 4real * m_a_x_y + m_x_x_x + m_x_x_y
        + m_x_y_y);
    let n32 = u * n1;
    let s33 = a;
    let s34 = s33 + x;
    let s35 = 2real * a;
    let s36 = s35 + x;
    let s37 = s36 + y;
    assert(u == s34);
    assert(n1 == s37);
    lemma_times_scaled(a, 2real, a);
    lemma_times_sum(a, s35, x);
    lemma_times_sum(a, s36, y);
    lemma_sum_times(s33, x, s37);
    lemma_times_scaled(x, 2real, a);
    lemma_times_sum(x, s35, x);
    lemma_times_sum(x, s36, y);
    assert(n32 == 2real * m_a_a + 3real * m_a_x + m_a_y + m_x_x + m_x_y);
    let n38 = n32 + n7;
    assert(n38 == 3real * m_a_a + 3real * m_a_x + 3real * m_a_y + m_x_x + m_x_y + m_y_y);
    let n39 = n1 + a;
    assert(n39 == 3real * a + x + y);
    let n40 = a * n39;
    let s41 = 3real * a;
    let s42 = s41 + x;
    let s43 = s42 + y;
    assert(n39 == s43);
    lemma_times_scaled(a, 3real, a);
    lemma_times_sum(a, s41, x);
    lemma_times_sum(a, s42, y);
    assert(n40 == 3real * m_a_a + m_a_x + m_a_y);
    let n44 = n38 + n40;
    assert(n44 == 6real * m_a_a + 4real * m_a_x + 4real * m_a_y + m_x_x + m_x_y + m_y_y);
    let n45 = x * n44;
    let s46 = 6real * m_a_a;
    let s47 = s46 + 4real * m_a_x;
    let s48 = s47 + 4real * m_a_y;
    let s49 = s48 + m_x_x;
    let s50 = s49 + m_x_y;
    let s51 = s50 + m_y_y;
    assert(n44 == s51);
    lemma_times_scaled(x, 6real, m_a_a);
    lemma_times_sum(x, s46, 4real * m_a_x);
    lemma_times_scaled(x, 4real, m_a_x);
    lemma_times_sum(x, s47, 4real * m_a_y);
    lemma_times_scaled(x, 4real, m_a_y);
    lemma_times_sum(x, s48, m_x_x);
    lemma_times_sum(x, s49, m_x_y);
    lemma_times_sum(x, s50, m_y_y);
    assert(x * m_x_y == m_x_x_y) by (nonlinear_arith)
        requires
            m_x_y == x * y,
            m_x_x_y == x * (x * y),
    ;
    assert(n45 == 6real * m_a_a_x + 4real * m_a_x_x + 4real * m_a_x_y + m_x_x_x + m_x_x_y
        + m_x_y_y);
    assert(n31 == n45);
    let n52 = a + u;
    assert(n52 == 2real * a + x);
    let n53 = n23 + n2;
    assert(n53 == 2real * m_a_a + 2real * m_a_x + m_x_x);
    let n54 = n52 * n53;
    let s55 = 2real * a;
    let s56 = s55 + x;
    let s57 = 2real * m_a_a;
    let s58 = s57 + 2real * m_a_x;
    let s59 = s58 + m_x_x;
    assert(n52 == s56);
    assert(n53 == s59);
    lemma_scaled_times(2real, a, s59);
    lemma_times_scaled(a, 2real, m_a_a);
    lemma_times_sum(a, s57, 2real * m_a_x);
    lemma_times_scaled(a, 2real, m_a_x);
    lemma_times_sum(a, s58, m_x_x);
    lemma_sum_times(s55, x, s59);
    lemma_times_scaled(x, 2real, m_a_a);
    lemma_times_sum(x, s57, 2real * m_a_x);
    lemma_times_scaled(x, 2real, m_a_x);
    lemma_times_sum(x, s58, m_x_x);
    assert(n54 == 4real * m_a_a_a + 6real * m_a_a_x + 4real * m_a_x_x + m_x_x_x);
    let n60 = n13 - n54;
    assert(n60 == 6real * m_a_a_y + 4real * m_a_x_y + 4real * m_a_y_y + m_x_x_y + m_x_y_y
        + m_y_y_y);
    let n61 = y * n44;
    let s62 = 6real * m_a_a;
    let s63 = s62 + 4real * m_a_x;
    let s64 = s63 + 4real * m_a_y;
    let s65 = s64 + m_x_x;
    let s66 = s65 + m_x_y;
    let s67 = s66 + m_y_y;
    assert(n44 == s67);
    lemma_times_scaled(y, 6real, m_a_a);
    lemma_times_sum(y, s62, 4real * m_a_x);
    lemma_times_scaled(y, 4real, m_a_x);
    lemma_times_sum(y, s63, 4real * m_a_y);
    lemma_times_scaled(y, 4real, m_a_y);
    lemma_times_sum(y, s64, m_x_x);
    lemma_times_sum(y, s65, m_x_y);
    lemma_times_sum(y, s66, m_y_y);
    assert(y * m_x_y == m_x_y_y) by (nonlinear_arith)
        requires
            m_x_y == x * y,
            m_x_y_y == x * (y * y),
    ;
    assert(n61 == 6real * m_a_a_y + 4real * m_a_x_y + 4real * m_a_y_y + m_x_x_y + m_x_y_y
        + m_y_y_y);
    assert(n60 == n61);
    let n68 = x + y;
    assert(n68 == x + y);
    let n69 = x * x;
    assert(n69 == m_x_x);
    let n70 = y * y;
    assert(n70 == m_y_y);
    let n71 = n69 + n70;
    assert(n71 == m_x_x + m_y_y);
    let n72 = n68 * n71;
    let s73 = x;
    let s74 = s73 + y;
    let s75 = m_x_x;
    let s76 = s75 + m_y_y;
    assert(n68 == s74);
    assert(n71 == s76);
    lemma_times_sum(x, s75, m_y_y);
    lemma_sum_times(s73, y, s76);
    lemma_times_sum(y, s75, m_y_y);
    assert(n72 == m_x_x_x + m_x_x_y + m_x_y_y + m_y_y_y);
    let n77 = x * n68;
    let s78 = x;
    let s79 = s78 + y;
    assert(n68 == s79);
    lemma_times_sum(x, s78, y);
    assert(n77 == m_x_x + m_x_y);
    let n80 = n77 + n70;
    assert(n80 == m_x_x + m_x_y + m_y_y);
    let n81 = a * n80;
    let s82 = m_x_x;
    let s83 = s82 + m_x_y;
    let s84 = s83 + m_y_y;
    assert(n80 == s84);
    lemma_times_sum(a, s82, m_x_y);
    lemma_times_sum(a, s83, m_y_y);
    assert(a * m_x_y == m_a_x_y) by (nonlinear_arith)
        requires
            m_x_y == x * y,
            m_a_x_y == a * (x * y),
    ;
    assert(n81 == m_a_x_x + m_a_x_y + m_a_y_y);
    let n85 = 5real * n81;
    assert(n85 == 5real * m_a_x_x + 5real * m_a_x_y + 5real * m_a_y_y);
    let n86 = n72 + n85;
    assert(n86 == 5real * m_a_x_x + 5real * m_a_x_y + 5real * m_a_y_y + m_x_x_x + m_x_x_y
        + m_x_y_y + m_y_y_y);
    let n87 = a * n68;
    let s88 = x;
    let s89 = s88 + y;
    assert(n68 == s89);
    lemma_times_sum(a, s88, y);
    assert(n87 == m_a_x + m_a_y);
    let n90 = a * n87;
    let s91 = m_a_x;
    let s92 = s91 + m_a_y;
    assert(n87 == s92);
    lemma_times_sum(a, s91, m_a_y);
    assert(n90 == m_a_a_x + m_a_a_y);
    let n93 = 10real * n90;
    assert(n93 == 10real * m_a_a_x + 10real * m_a_a_y);
    let n94 = n86 + n93;
    assert(n94 == 10real * m_a_a_x + 10real * m_a_a_y + 5real * m_a_x_x + 5real * m_a_x_y + 5real
        * m_a_y_y + m_x_x_x + m_x_x_y + m_x_y_y + m_y_y_y);
    let n95 = a * 1real;
    assert(n95 == a);
    let n96 = a * n95;
    assert(n95 == a);
    assert(n96 == m_a_a);
    let n97 = a * n96;
    assert(n96 == m_a_a);
    assert(n97 == m_a_a_a);
    let n98 = 10real * n97;
    assert(n98 == 10real * m_a_a_a);
    let n99 = n94 + n98;
    assert(n99 == 10real * m_a_a_a + 10real * m_a_a_x + 10real * m_a_a_y + 5real * m_a_x_x
        + 5real * m_a_x_y + 5real * m_a_y_y + m_x_x_x + m_x_x_y + m_x_y_y + m_y_y_y);
    let n100 = n99 - n13;
    assert(n100 == 6real * m_a_a_a + 4real * m_a_a_x + 4real * m_a_a_y + m_a_x_x + m_a_x_y
        + m_a_y_y);
    let n101 = a * n44;
    let s102 = 6real * m_a_a;
    let s103 = s102 + 4real * m_a_x;
    let s104 = s103 + 4real * m_a_y;
    let s105 = s104 + m_x_x;
    let s106 = s105 + m_x_y;
    let s107 = s106 + m_y_y;
    assert(n44 == s107);
    lemma_times_scaled(a, 6real, m_a_a);
    lemma_times_sum(a, s102, 4real * m_a_x);
    lemma_times_scaled(a, 4real, m_a_x);
    lemma_times_sum(a, s103, 4real * m_a_y);
    lemma_times_scaled(a, 4real, m_a_y);
    lemma_times_sum(a, s104, m_x_x);
    lemma_times_sum(a, s105, m_x_y);
    lemma_times_sum(a, s106, m_y_y);
    assert(n101 == 6real * m_a_a_a + 4real * m_a_a_x + 4real * m_a_a_y + m_a_x_x + m_a_x_y
        + m_a_y_y);
    assert(n100 == n101);
}

/// The same for the mixed factor of second degree, for an edge from
/// `(px, py)` to `(qx, qy)` that has moved by `(a, b)` to run from `(ux, uy)`
/// to `(vx, vy)`.
pub(crate) proof fn lemma_moved_mixed_second(px: real, py: real, qx: real, qy: real, a: real,
    b: real, ux: real, uy: real, vx: real, vy: real)
    requires
        ux == px + a,
        uy == py + b,
        vx == qx + a,
        vy == qy + b,
    ensures
        ux * (uy + vy + uy) + vx * (uy + vy + vy) - (a * (b + vy + b) + vx * (b + vy + vy)) == px
            * (uy + vy + b) + py * (ux + vx + a),
        ux * (uy + vy + uy) + vx * (uy + vy + vy) - (a * (b + uy + b) + ux * (b + uy + uy)) == qx
            * (uy + vy + b) + qy * (ux + vx + a),
        px * (py + qy + py) + qx * (py + qy + qy) + 4real * (b * (px + qx)) + 4real * (a * (py
            + qy)) + 12real * (a * (b * 1real)) - (ux * (uy + vy + uy) + vx * (uy + vy + vy))
            == a * (uy + vy + b) + b * (ux + vx + a),
{
    let m_a_b = a * b;
    let m_a_py = a * py;
    let m_a_qy = a * qy;
    let m_b_px = b * px;
    let m_px_py = px * py;
    let m_px_qy = px * qy;
    let m_b_qx = b * qx;
    let m_py_qx = py * qx;
    let m_qx_qy = qx * qy;
    let n1 = uy + vy;
    assert(n1 == 2real * b + py + qy);
    let n2 = n1 + uy;
    assert(n2 == 3real * b + 2real * py + qy);
    let n3 = ux * n2;
    let s4 = a;
    let s5 = s4 + px;
    let s6 = 3real * b;
    let s7 = s6 + 2real * py;
    let s8 = s7 + qy;
    assert(ux == s5);
    assert(n2 == s8);
    lemma_times_scaled(a, 3real, b);
    lemma_times_sum(a, s6, 2real * py);
    lemma_times_scaled(a, 2real, py);
    lemma_times_sum(a, s7, qy);
    lemma_sum_times(s4, px, s8);
    lemma_times_scaled(px, 3real, b);
    lemma_times_sum(px, s6, 2real * py);
    lemma_times_scaled(px, 2real, py);
    lemma_times_sum(px, s7, qy);
    assert(px * b == m_b_px) by (nonlinear_arith)
        requires
            m_b_px == b * px,
    ;
    assert(n3 == 3real * m_a_b + 2real * m_a_py + m_a_qy + 3real * m_b_px + 2real * m_px_py
        + m_px_qy);
    let n9 = n1 + vy;
    assert(n9 == 3real * b + py + 2real * qy);
    let n10 = vx * n9;
    let s11 = a;
    let s12 = s11 + qx;
    let s13 = 3real * b;
    let s14 = s13 + py;
    let s15 = s14 + 2real * qy;
    assert(vx == s12);
    assert(n9 == s15);
    lemma_times_scaled(a, 3real, b);
    lemma_times_sum(a, s13, py);
    lemma_times_sum(a, s14, 2real * qy);
    lemma_times_scaled(a, 2real, qy);
    lemma_sum_times(s11, qx, s15);
    lemma_times_scaled(qx, 3real, b);
    lemma_times_sum(qx, s13, py);
    lemma_times_sum(qx, s14, 2real * qy);
    lemma_times_scaled(qx, 2real, qy);
    assert(qx * b == m_b_qx) by (nonlinear_arith)
        requires
            m_b_qx == b * qx,
    ;
    assert(qx * py == m_py_qx) by (nonlinear_arith)
        requires
            m_py_qx == py * qx,
    ;
    assert(n10 == 3real * m_a_b + m_a_py + 2real * m_a_qy + 3real * m_b_qx + m_py_qx + 2real
        * m_qx_qy);
    let n16 = n3 + n10;
    assert(n16 == 6real * m_a_b + 3real * m_a_py + 3real * m_a_qy + 3real * m_b_px + 3real
        * m_b_qx + 2real * m_px_py + m_px_qy + m_py_qx + 2real * m_qx_qy);
    let n17 = b + vy;
    assert(n17 == 2real * b + qy);
    let n18 = n17 + b;
    assert(n18 == 3real * b + qy);
    let n19 = a * n18;
    let s20 = 3real * b;
    let s21 = s20 + qy;
    assert(n18 == s21);
    lemma_times_scaled(a, 3real, b);
    lemma_times_sum(a, s20, qy);
    assert(n19 == 3real * m_a_b + m_a_qy);
    let n22 = n17 + vy;
    assert(n22 == 3real * b + 2real * qy);
    let n23 = vx * n22;
    let s24 = a;
    let s25 = s24 + qx;
    let s26 = 3real * b;
    let s27 = s26 + 2real * qy;
    assert(vx == s25);
    assert(n22 == s27);
    lemma_times_scaled(a, 3real, b);
    lemma_times_sum(a, s26, 2real * qy);
    lemma_times_scaled(a, 2real, qy);
    lemma_sum_times(s24, qx, s27);
    lemma_times_scaled(qx, 3real, b);
    lemma_times_sum(qx, s26, 2real * qy);
    lemma_times_scaled(qx, 2real, qy);
    assert(n23 == 3real * m_a_b + 2real * m_a_qy + 3real * m_b_qx + 2real * m_qx_qy);
    let n28 = n19 + n23;
    assert(n28 == 6real * m_a_b + 3real * m_a_qy + 3real * m_b_qx + 2real * m_qx_qy);
    let n29 = n16 - n28;
    assert(n29 == 3real * m_a_py + 3real * m_b_px + 2real * m_px_py + m_px_qy + m_py_qx);
    let n30 = n1 + b;
    assert(n30 == 3real * b + py + qy);
    let n31 = px * n30;
    let s32 = 3real * b;
    let s33 = s32 + py;
    let s34 = s33 + qy;
    assert(n30 == s34);
    lemma_times_scaled(px, 3real, b);
    lemma_times_sum(px, s32, py);
    lemma_times_sum(px, s33, qy);
    assert(n31 == 3real * m_b_px + m_px_py + m_px_qy);
    let n35 = ux + vx;
    assert(n35 == 2real * a + px + qx);
    let n36 = n35 + a;
    assert(n36 == 3real * a + px + qx);
    let n37 = py * n36;
    let s38 = 3real * a;
    let s39 = s38 + px;
    let s40 = s39 + qx;
    assert(n36 == s40);
    lemma_times_scaled(py, 3real, a);
    lemma_times_sum(py, s38, px);
    lemma_times_sum(py, s39, qx);
    assert(py * a == m_a_py) by (nonlinear_arith)
        requires
            m_a_py == a * py,
    ;
    assert(py * px == m_px_py) by (nonlinear_arith)
        requires
            m_px_py == px * py,
    ;
    assert(n37 == 3real * m_a_py + m_px_py + m_py_qx);
    let n41 = n31 + n37;
    assert(n41 == 3real * m_a_py + 3real * m_b_px + 2real * m_px_py + m_px_qy + m_py_qx);
    assert(n29 == n41);
    let n42 = b + uy;
    assert(n42 == 2real * b + py);
    let n43 = n42 + b;
    assert(n43 == 3real * b + py);
    let n44 = a * n43;
    let s45 = 3real * b;
    let s46 = s45 + py;
    assert(n43 == s46);
    lemma_times_scaled(a, 3real, b);
    lemma_times_sum(a, s45, py);
    assert(n44 == 3real * m_a_b + m_a_py);
    let n47 = n42 + uy;
    assert(n47 == 3real * b + 2real * py);
    let n48 = ux * n47;
    let s49 = a;
    let s50 = s49 + px;
    let s51 = 3real * b;
    let s52 = s51 + 2real * py;
    assert(ux == s50);
    assert(n47 == s52);
    lemma_times_scaled(a, 3real, b);
    lemma_times_sum(a, s51, 2real * py);
    lemma_times_scaled(a, 2real, py);
    lemma_sum_times(s49, px, s52);
    lemma_times_scaled(px, 3real, b);
    lemma_times_sum(px, s51, 2real * py);
    lemma_times_scaled(px, 2real, py);
    assert(n48 == 3real * m_a_b + 2real * m_a_py + 3real * m_b_px + 2real * m_px_py);
    let n53 = n44 + n48;
    assert(n53 == 6real * m_a_b + 3real * m_a_py + 3real * m_b_px + 2real * m_px_py);
    let n54 = n16 - n53;
    assert(n54 == 3real * m_a_qy + 3real * m_b_qx + m_px_qy + m_py_qx + 2real * m_qx_qy);
    let n55 = qx * n30;
    let s56 = 3real * b;
    let s57 = s56 + py;
    let s58 = s57 + qy;
    assert(n30 == s58);
    lemma_times_scaled(qx, 3real, b);
    lemma_times_sum(qx, s56, py);
    lemma_times_sum(qx, s57, qy);
    assert(n55 == 3real * m_b_qx + m_py_qx + m_qx_qy);
    let n59 = qy * n36;
    let s60 = 3real * a;
    let s61 = s60 + px;
    let s62 = s61 + qx;
    assert(n36 == s62);
    lemma_times_scaled(qy, 3real, a);
    lemma_times_sum(qy, s60, px);
    lemma_times_sum(qy, s61, qx);
    assert(qy * a == m_a_qy) by (nonlinear_arith)
        requires
            m_a_qy == a * qy,
    ;
    assert(qy * px == m_px_qy) by (nonlinear_arith)
        requires
            m_px_qy == px * qy,
    ;
    assert(qy * qx == m_qx_qy) by (nonlinear_arith)
        requires
            m_qx_qy == qx * qy,
    ;
    assert(n59 == 3real * m_a_qy + m_px_qy + m_qx_qy);
    let n63 = n55 + n59;
    assert(n63 == 3real * m_a_qy + 3real * m_b_qx + m_px_qy + m_py_qx + 2real * m_qx_qy);
    assert(n54 == n63);
    let n64 = py + qy;
    assert(n64 == py + qy);
    let n65 = n64 + py;
    assert(n65 == 2real * py + qy);
    let n66 = px * n65;
    let s67 = 2real * py;
    let s68 = s67 + qy;
    assert(n65 == s68);
    lemma_times_scaled(px, 2real, py);
    lemma_times_sum(px, s67, qy);
    assert(n66 == 2real * m_px_py + m_px_qy);
    let n69 = n64 + qy;
    assert(n69 == py + 2real * qy);
    let n70 = qx * n69;
    let s71 = py;
    let s72 = s71 + 2real * qy;
    assert(n69 == s72);
    lemma_times_sum(qx, s71, 2real * qy);
    lemma_times_scaled(qx, 2real, qy);
    assert(n70 == m_py_qx + 2real * m_qx_qy);
    let n73 = n66 + n70;
    assert(n73 == 2real * m_px_py + m_px_qy + m_py_qx + 2real * m_qx_qy);
    let n74 = px + qx;
    assert(n74 == px + qx);
    let n75 = b * n74;
    let s76 = px;
    let s77 = s76 + qx;
    assert(n74 == s77);
    lemma_times_sum(b, s76, qx);
    assert(n75 == m_b_px + m_b_qx);
    let n78 = 4real * n75;
    assert(n78 == 4real * m_b_px + 4real * m_b_qx);
    let n79 = n73 + n78;
    assert(n79 == 4real * m_b_px + 4real * m_b_qx + 2real * m_px_py + m_px_qy + m_py_qx + 2real
        * m_qx_qy);
    let n80 = a * n64;
    let s81 = py;
    let s82 = s81 + qy;
    assert(n64 == s82);
    lemma_times_sum(a, s81, qy);
    assert(n80 == m_a_py + m_a_qy);
    let n83 = 4real * n80;
    assert(n83 == 4real * m_a_py + 4real * m_a_qy);
    let n84 = n79 + n83;
    assert(n84 == 4real * m_a_py + 4real * m_a_qy + 4real * m_b_px + 4real * m_b_qx + 2real
        * m_px_py + m_px_qy + m_py_qx + 2real * m_qx_qy);
    let n85 = b * 1real;
    assert(n85 == b);
    let n86 = a * n85;
    assert(n85 == b);
    assert(n86 == m_a_b);
    let n87 = 12real * n86;
    assert(n87 == 12real * m_a_b);
    let n88 = n84 + n87;
    assert(n88 == 12real * m_a_b + 4real * m_a_py + 4real * m_a_qy + 4real * m_b_px + 4real
        * m_b_qx + 2real * m_px_py + m_px_qy + m_py_qx + 2real * m_qx_qy);
    let n89 = n88 - n16;
    assert(n89 == 6real * m_a_b + m_a_py + m_a_qy + m_b_px + m_b_qx);
    let n90 = a * n30;
    let s91 = 3real * b;
    let s92 = s91 + py;
    let s93 = s92 + qy;
    assert(n30 == s93);
    lemma_times_scaled(a, 3real, b);
    lemma_times_sum(a, s91, py);
    lemma_times_sum(a, s92, qy);
    assert(n90 == 3real * m_a_b + m_a_py + m_a_qy);
    let n94 = b * n36;
    let s95 = 3real * a;
    let s96 = s95 + px;
    let s97 = s96 + qx;
    assert(n36 == s97);
    lemma_times_scaled(b, 3real, a);
    lemma_times_sum(b, s95, px);
    lemma_times_sum(b, s96, qx);
    assert(b * a == m_a_b) by (nonlinear_arith)
        requires
            m_a_b == a * b,
    ;
    assert(n94 == 3real * m_a_b + m_b_px + m_b_qx);
    let n98 = n90 + n94;
    assert(n98 == 6real * m_a_b + m_a_py + m_a_qy + m_b_px + m_b_qx);
    assert(n89 == n98);
}

/// The mixed factor of third degree of the moved edge, written out.
pub(crate) proof fn lemma_expand_moved(px: real, py: real, qx: real, qy: real, a: real, b: real,
    ux: real, uy: real, vx: real, vy: real)
    requires
        ux == px + a,
        uy == py + b,
        vx == qx + a,
        vy == qy + b,
    ensures
        ux * ux * (3real * uy + vy) + 2real * vx * ux * (uy + vy) + vx * vx * (3real * vy + uy)
            == 12real * (a * (a * b)) + 6real * (a * (a * py)) + 6real * (a * (a * qy)) + 12real
            * (a * (b * px)) + 12real * (a * (b * qx)) + 8real * (a * (px * py)) + 4real * (a
            * (px * qy)) + 4real * (a * (py * qx)) + 8real * (a * (qx * qy)) + 4real * (b * (px
            * px)) + 4real * (b * (px * qx)) + 4real * (b * (qx * qx)) + 3real * (px * (px * py))
            + (px * (px * qy)) + 2real * (px * (py * qx)) + 2real * (px * (qx * qy)) + (py * (qx
            * qx)) + 3real * (qx * (qx * qy)),
{
    let m_a_a = a * a;
    let m_a_px = a * px;
    let m_px_px = px * px;
    let m_a_a_b = a * (a * b);
    let m_a_a_py = a * (a * py);
    let m_a_a_qy = a * (a * qy);
    let m_a_b_px = a * (b * px);
    let m_a_px_py = a * (px * py);
    let m_a_px_qy = a * (px * qy);
    let m_b_px_px = b * (px * px);
    let m_px_px_py = px * (px * py);
    let m_px_px_qy = px * (px * qy);
    let m_a_qx = a * qx;
    let m_px_qx = px * qx;
    let m_a_b_qx = a * (b * qx);
    let m_a_py_qx = a * (py * qx);
    let m_a_qx_qy = a * (qx * qy);
    let m_b_px_qx = b * (px * qx);
    let m_px_py_qx = px * (py * qx);
    let m_px_qx_qy = px * (qx * qy);
    let m_qx_qx = qx * qx;
    let m_b_qx_qx = b * (qx * qx);
    let m_py_qx_qx = py * (qx * qx);
    let m_qx_qx_qy = qx * (qx * qy);
    let n1 = ux * ux;
    let s2 = a;
    let s3 = s2 + px;
    let s4 = a;
    let s5 = s4 + px;
    assert(ux == s3);
    assert(ux == s5);
    lemma_times_sum(a, s4, px);
    lemma_sum_times(s2, px, s5);
    lemma_times_sum(px, s4, px);
    assert(px * a == m_a_px) by (nonlinear_arith)
        requires
            m_a_px == a * px,
    ;
    assert(n1 == m_a_a + 2real * m_a_px + m_px_px);
    let n6 = 3real * uy;
    assert(n6 == 3real * b + 3real * py);
    let n7 = n6 + vy;
    assert(n7 == 4real * b + 3real * py + qy);
    let n8 = n1 * n7;
    let s9 = m_a_a;
    let s10 = s9 + 2real * m_a_px;
    let s11 = s10 + m_px_px;
    let s12 = 4real * b;
    let s13 = s12 + 3real * py;
    let s14 = s13 + qy;
    assert(n1 == s11);
    assert(n7 == s14);
    lemma_times_scaled(m_a_a, 4real, b);
    lemma_times_sum(m_a_a, s12, 3real * py);
    lemma_times_scaled(m_a_a, 3real, py);
    lemma_times_sum(m_a_a, s13, qy);
    lemma_sum_times(s9, 2real * m_a_px, s14);
    lemma_scaled_times(2real, m_a_px, s14);
    lemma_times_scaled(m_a_px, 4real, b);
    lemma_times_sum(m_a_px, s12, 3real * py);
    lemma_times_scaled(m_a_px, 3real, py);
    lemma_times_sum(m_a_px, s13, qy);
    lemma_sum_times(s10, m_px_px, s14);
    lemma_times_scaled(m_px_px, 4real, b);
    lemma_times_sum(m_px_px, s12, 3real * py);
    lemma_times_scaled(m_px_px, 3real, py);
    lemma_times_sum(m_px_px, s13, qy);
    assert(m_a_a * b == m_a_a_b) by (nonlinear_arith)
        requires
            m_a_a == a * a,
            m_a_a_b == a * (a * b),
    ;
    assert(m_a_a * py == m_a_a_py) by (nonlinear_arith)
        requires
            m_a_a == a * a,
            m_a_a_py == a * (a * py),
    ;
    assert(m_a_a * qy == m_a_a_qy) by (nonlinear_arith)
        requires
            m_a_a == a * a,
            m_a_a_qy == a * (a * qy),
    ;
    assert(m_a_px * b == m_a_b_px) by (nonlinear_arith)
        requires
            m_a_px == a * px,
            m_a_b_px == a * (b * px),
    ;
    assert(m_a_px * py == m_a_px_py) by (nonlinear_arith)
        requires
            m_a_px == a * px,
            m_a_px_py == a * (px * py),
    ;
    assert(m_a_px * qy == m_a_px_qy) by (nonlinear_arith)
        requires
            m_a_px == a * px,
            m_a_px_qy == a * (px * qy),
    ;
    assert(m_px_px * b == m_b_px_px) by (nonlinear_arith)
        requires
            m_px_px == px * px,
            m_b_px_px == b * (px * px),
    ;
    assert(m_px_px * py == m_px_px_py) by (nonlinear_arith)
        requires
            m_px_px == px * px,
            m_px_px_py == px * (px * py),
    ;
    assert(m_px_px * qy == m_px_px_qy) by (nonlinear_arith)
        requires
            m_px_px == px * px,
            m_px_px_qy == px * (px * qy),
    ;
    assert(n8 == 4real * m_a_a_b + 3real * m_a_a_py + m_a_a_qy + 8real * m_a_b_px + 6real
        * m_a_px_py + 2real * m_a_px_qy + 4real * m_b_px_px + 3real * m_px_px_py + m_px_px_qy);
    let n15 = 2real * vx;
    assert(n15 == 2real * a + 2real * qx);
    let n16 = n15 * ux;
    let s17 = 2real * a;
    let s18 = s17 + 2real * qx;
    let s19 = a;
    let s20 = s19 + px;
    assert(n15 == s18);
    assert(ux == s20);
    lemma_scaled_times(2real, a, s20);
    lemma_times_sum(a, s19, px);
    lemma_sum_times(s17, 2real * qx, s20);
    lemma_scaled_times(2real, qx, s20);
    lemma_times_sum(qx, s19, px);
    assert(qx * a == m_a_qx) by (nonlinear_arith)
        requires
            m_a_qx == a * qx,
    ;
    assert(qx * px == m_px_qx) by (nonlinear_arith)
        requires
            m_px_qx == px * qx,
    ;
    assert(n16 == 2real * m_a_a + 2real * m_a_px + 2real * m_a_qx + 2real * m_px_qx);
    let n21 = uy + vy;
    assert(n21 == 2real * b + py + qy);
    let n22 = n16 * n21;
    let s23 = 2real * m_a_a;
    let s24 = s23 + 2real * m_a_px;
    let s25 = s24 + 2real * m_a_qx;
    let s26 = s25 + 2real * m_px_qx;
    let s27 = 2real * b;
    let s28 = s27 + py;
    let s29 = s28 + qy;
    assert(n16 == s26);
    assert(n21 == s29);
    lemma_scaled_times(2real, m_a_a, s29);
    lemma_times_scaled(m_a_a, 2real, b);
    lemma_times_sum(m_a_a, s27, py);
    lemma_times_sum(m_a_a, s28, qy);
    lemma_sum_times(s23, 2real * m_a_px, s29);
    lemma_scaled_times(2real, m_a_px, s29);
    lemma_times_scaled(m_a_px, 2real, b);
    lemma_times_sum(m_a_px, s27, py);
    lemma_times_sum(m_a_px, s28, qy);
    lemma_sum_times(s24, 2real * m_a_qx, s29);
    lemma_scaled_times(2real, m_a_qx, s29);
    lemma_times_scaled(m_a_qx, 2real, b);
    lemma_times_sum(m_a_qx, s27, py);
    lemma_times_sum(m_a_qx, s28, qy);
    lemma_sum_times(s25, 2real * m_px_qx, s29);
    lemma_scaled_times(2real, m_px_qx, s29);
    lemma_times_scaled(m_px_qx, 2real, b);
    lemma_times_sum(m_px_qx, s27, py);
    lemma_times_sum(m_px_qx, s28, qy);
    assert(m_a_qx * b == m_a_b_qx) by (nonlinear_arith)
        requires
            m_a_qx == a * qx,
            m_a_b_qx == a * (b * qx),
    ;
    assert(m_a_qx * py == m_a_py_qx) by (nonlinear_arith)
        requires
            m_a_qx == a * qx,
            m_a_py_qx == a * (py * qx),
    ;
    assert(m_a_qx * qy == m_a_qx_qy) by (nonlinear_arith)
        requires
            m_a_qx == a * qx,
            m_a_qx_qy == a * (qx * qy),
    ;
    assert(m_px_qx * b == m_b_px_qx) by (nonlinear_arith)
        requires
            m_px_qx == px * qx,
            m_b_px_qx == b * (px * qx),
    ;
    assert(m_px_qx * py == m_px_py_qx) by (nonlinear_arith)
        requires
            m_px_qx == px * qx,
            m_px_py_qx == px * (py * qx),
    ;
    assert(m_px_qx * qy == m_px_qx_qy) by (nonlinear_arith)
        requires
            m_px_qx == px * qx,
            m_px_qx_qy == px * (qx * qy),
    ;
    assert(n22 == 4real * m_a_a_b + 2real * m_a_a_py + 2real * m_a_a_qy + 4real * m_a_b_px
        + 4real * m_a_b_qx + 2real * m_a_px_py + 2real * m_a_px_qy + 2real * m_a_py_qx + 2real
        * m_a_qx_qy + 4real * m_b_px_qx + 2real * m_px_py_qx + 2real * m_px_qx_qy);
    let n30 = n8 + n22;
    assert(n30 == 8real * m_a_a_b + 5real * m_a_a_py + 3real * m_a_a_qy + 12real * m_a_b_px
        + 4real * m_a_b_qx + 8real * m_a_px_py + 4real * m_a_px_qy + 2real * m_a_py_qx + 2real
        * m_a_qx_qy + 4real * m_b_px_px + 4real * m_b_px_qx + 3real * m_px_px_py + m_px_px_qy
        + 2real * m_px_py_qx + 2real * m_px_qx_qy);
    let n31 = vx * vx;
    let s32 = a;
    let s33 = s32 + qx;
    let s34 = a;
    let s35 = s34 + qx;
    assert(vx == s33);
    assert(vx == s35);
    lemma_times_sum(a, s34, qx);
    lemma_sum_times(s32, qx, s35);
    lemma_times_sum(qx, s34, qx);
    assert(n31 == m_a_a + 2real * m_a_qx + m_qx_qx);
    let n36 = 3real * vy;
    assert(n36 == 3real * b + 3real * qy);
    let n37 = n36 + uy;
    assert(n37 == 4real * b + py + 3real * qy);
    let n38 = n31 * n37;
    let s39 = m_a_a;
    let s40 = s39 + 2real * m_a_qx;
    let s41 = s40 + m_qx_qx;
    let s42 = 4real * b;
    let s43 = s42 + py;
    let s44 = s43 + 3real * qy;
    assert(n31 == s41);
    assert(n37 == s44);
    lemma_times_scaled(m_a_a, 4real, b);
    lemma_times_sum(m_a_a, s42, py);
    lemma_times_sum(m_a_a, s43, 3real * qy);
    lemma_times_scaled(m_a_a, 3real, qy);
    lemma_sum_times(s39, 2real * m_a_qx, s44);
    lemma_scaled_times(2real, m_a_qx, s44);
    lemma_times_scaled(m_a_qx, 4real, b);
    lemma_times_sum(m_a_qx, s42, py);
    lemma_times_sum(m_a_qx, s43, 3real * qy);
    lemma_times_scaled(m_a_qx, 3real, qy);
    lemma_sum_times(s40, m_qx_qx, s44);
    lemma_times_scaled(m_qx_qx, 4real, b);
    lemma_times_sum(m_qx_qx, s42, py);
    lemma_times_sum(m_qx_qx, s43, 3real * qy);
    lemma_times_scaled(m_qx_qx, 3real, qy);
    assert(m_qx_qx * b == m_b_qx_qx) by (nonlinear_arith)
        requires
            m_qx_qx == qx * qx,
            m_b_qx_qx == b * (qx * qx),
    ;
    assert(m_qx_qx * py == m_py_qx_qx) by (nonlinear_arith)
        requires
            m_qx_qx == qx * qx,
            m_py_qx_qx == py * (qx * qx),
    ;
    assert(m_qx_qx * qy == m_qx_qx_qy) by (nonlinear_arith)
        requires
            m_qx_qx == qx * qx,
            m_qx_qx_qy == qx * (qx * qy),
    ;
    assert(n38 == 4real * m_a_a_b + m_a_a_py + 3real * m_a_a_qy + 8real * m_a_b_qx + 2real
        * m_a_py_qx + 6real * m_a_qx_qy + 4real * m_b_qx_qx + m_py_qx_qx + 3real * m_qx_qx_qy);
    let n45 = n30 + n38;
    assert(n45 == 12real * m_a_a_b + 6real * m_a_a_py + 6real * m_a_a_qy + 12real * m_a_b_px
        + 12real * m_a_b_qx + 8real * m_a_px_py + 4real * m_a_px_qy + 4real * m_a_py_qx + 8real
        * m_a_qx_qy + 4real * m_b_px_px + 4real * m_b_px_qx + 4real * m_b_qx_qx + 3real
        * m_px_px_py + m_px_px_qy + 2real * m_px_py_qx + 2real * m_px_qx_qy + m_py_qx_qx + 3real
        * m_qx_qx_qy);
}

/// The mixed factor of third degree from the movement to the end of the
/// moved edge, written out.
pub(crate) proof fn lemma_expand_from_end(px: real, py: real, qx: real, qy: real, a: real, b: real,
    ux: real, uy: real, vx: real, vy: real)
    requires
        ux == px + a,
        uy == py + b,
        vx == qx + a,
        vy == qy + b,
    ensures
        a * a * (3real * b + vy) + 2real * vx * a * (b + vy) + vx * vx * (3real * vy + b)
            == 12real * (a * (a * b)) + 6real * (a * (a * qy)) + 12real * (a * (b * qx)) + 8real
            * (a * (qx * qy)) + 4real * (b * (qx * qx)) + 3real * (qx * (qx * qy)),
{
    let m_a_a = a * a;
    let m_a_a_b = a * (a * b);
    let m_a_a_qy = a * (a * qy);
    let m_a_qx = a * qx;
    let m_a_b_qx = a * (b * qx);
    let m_a_qx_qy = a * (qx * qy);
    let m_qx_qx = qx * qx;
    let m_b_qx_qx = b * (qx * qx);
    let m_qx_qx_qy = qx * (qx * qy);
    let n1 = a * a;
    assert(n1 == m_a_a);
    let n2 = 3real * b;
    assert(n2 == 3real * b);
    let n3 = n2 + vy;
    assert(n3 == 4real * b + qy);
    let n4 = n1 * n3;
    let s5 = 4real * b;
    let s6 = s5 + qy;
    assert(n1 == m_a_a);
    assert(n3 == s6);
    lemma_times_scaled(m_a_a, 4real, b);
    lemma_times_sum(m_a_a, s5, qy);
    assert(m_a_a * b == m_a_a_b) by (nonlinear_arith)
        requires
            m_a_a == a * a,
            m_a_a_b == a * (a * b),
    ;
    assert(m_a_a * qy == m_a_a_qy) by (nonlinear_arith)
        requires
            m_a_a == a * a,
            m_a_a_qy == a * (a * qy),
    ;
    assert(n4 == 4real * m_a_a_b + m_a_a_qy);
    let n7 = 2real * vx;
    assert(n7 == 2real * a + 2real * qx);
    let n8 = n7 * a;
    let s9 = 2real * a;
    let s10 = s9 + 2real * qx;
    assert(n7 == s10);
    lemma_scaled_times(2real, a, a);
    lemma_sum_times(s9, 2real * qx, a);
    lemma_scaled_times(2real, qx, a);
    assert(qx * a == m_a_qx) by (nonlinear_arith)
        requires
            m_a_qx == a * qx,
    ;
    assert(n8 == 2real * m_a_a + 2real * m_a_qx);
    let n11 = b + vy;
    assert(n11 == 2real * b + qy);
    let n12 = n8 * n11;
    let s13 = 2real * m_a_a;
    let s14 = s13 + 2real * m_a_qx;
    let s15 = 2real * b;
    let s16 = s15 + qy;
    assert(n8 == s14);
    assert(n11 == s16);
    lemma_scaled_times(2real, m_a_a, s16);
    lemma_times_scaled(m_a_a, 2real, b);
    lemma_times_sum(m_a_a, s15, qy);
    lemma_sum_times(s13, 2real * m_a_qx, s16);
    lemma_scaled_times(2real, m_a_qx, s16);
    lemma_times_scaled(m_a_qx, 2real, b);
    lemma_times_sum(m_a_qx, s15, qy);
    assert(m_a_qx * b == m_a_b_qx) by (nonlinear_arith)
        requires
            m_a_qx == a * qx,
            m_a_b_qx == a * (b * qx),
    ;
    assert(m_a_qx * qy == m_a_qx_qy) by (nonlinear_arith)
        requires
            m_a_qx == a * qx,
            m_a_qx_qy == a * (qx * qy),
    ;
    assert(n12 == 4real * m_a_a_b + 2real * m_a_a_qy + 4real * m_a_b_qx + 2real * m_a_qx_qy);
    let n17 = n4 + n12;
    assert(n17 == 8real * m_a_a_b + 3real * m_a_a_qy + 4real * m_a_b_qx + 2real * m_a_qx_qy);
    let n18 = vx * vx;
    let s19 = a;
    let s20 = s19 + qx;
    let s21 = a;
    let s22 = s21 + qx;
    assert(vx == s20);
    assert(vx == s22);
    lemma_times_sum(a, s21, qx);
    lemma_sum_times(s19, qx, s22);
    lemma_times_sum(qx, s21, qx);
    assert(n18 == m_a_a + 2real * m_a_qx + m_qx_qx);
    let n23 = 3real * vy;
    assert(n23 == 3real * b + 3real * qy);
    let n24 = n23 + b;
    assert(n24 == 4real * b + 3real * qy);
    let n25 = n18 * n24;
    let s26 = m_a_a;
    let s27 = s26 + 2real * m_a_qx;
    let s28 = s27 + m_qx_qx;
    let s29 = 4real * b;
    let s30 = s29 + 3real * qy;
    assert(n18 == s28);
    assert(n24 == s30);
    lemma_times_scaled(m_a_a, 4real, b);
    lemma_times_sum(m_a_a, s29, 3real * qy);
    lemma_times_scaled(m_a_a, 3real, qy);
    lemma_sum_times(s26, 2real * m_a_qx, s30);
    lemma_scaled_times(2real, m_a_qx, s30);
    lemma_times_scaled(m_a_qx, 4real, b);
    lemma_times_sum(m_a_qx, s29, 3real * qy);
    lemma_times_scaled(m_a_qx, 3real, qy);
    lemma_sum_times(s27, m_qx_qx, s30);
    lemma_times_scaled(m_qx_qx, 4real, b);
    lemma_times_sum(m_qx_qx, s29, 3real * qy);
    lemma_times_scaled(m_qx_qx, 3real, qy);
    assert(m_qx_qx * b == m_b_qx_qx) by (nonlinear_arith)
        requires
            m_qx_qx == qx * qx,
            m_b_qx_qx == b * (qx * qx),
    ;
    assert(m_qx_qx * qy == m_qx_qx_qy) by (nonlinear_arith)
        requires
            m_qx_qx == qx * qx,
            m_qx_qx_qy == qx * (qx * qy),
    ;
    assert(n25 == 4real * m_a_a_b + 3real * m_a_a_qy + 8real * m_a_b_qx + 6real * m_a_qx_qy
        + 4real * m_b_qx_qx + 3real * m_qx_qx_qy);
    let n31 = n17 + n25;
    assert(n31 == 12real * m_a_a_b + 6real * m_a_a_qy + 12real * m_a_b_qx + 8real * m_a_qx_qy
        + 4real * m_b_qx_qx + 3real * m_qx_qx_qy);
}

/// The mixed factor of third degree from the movement to the start of the
/// moved edge, written out.
pub(crate) proof fn lemma_expand_from_start(px: real, py: real, qx: real, qy: real, a: real,
    b: real, ux: real, uy: real, vx: real, vy: real)
    requires
        ux == px + a,
        uy == py + b,
        vx == qx + a,
        vy == qy + b,
    ensures
        a * a * (3real * b + uy) + 2real * ux * a * (b + uy) + ux * ux * (3real * uy + b)
            == 12real * (a * (a * b)) + 6real * (a * (a * py)) + 12real * (a * (b * px)) + 8real
            * (a * (px * py)) + 4real * (b * (px * px)) + 3real * (px * (px * py)),
{
    let m_a_a = a * a;
    let m_a_a_b = a * (a * b);
    let m_a_a_py = a * (a * py);
    let m_a_px = a * px;
    let m_a_b_px = a * (b * px);
    let m_a_px_py = a * (px * py);
    let m_px_px = px * px;
    let m_b_px_px = b * (px * px);
    let m_px_px_py = px * (px * py);
    let n1 = a * a;
    assert(n1 == m_a_a);
    let n2 = 3real * b;
    assert(n2 == 3real * b);
    let n3 = n2 + uy;
    assert(n3 == 4real * b + py);
    let n4 = n1 * n3;
    let s5 = 4real * b;
    let s6 = s5 + py;
    assert(n1 == m_a_a);
    assert(n3 == s6);
    lemma_times_scaled(m_a_a, 4real, b);
    lemma_times_sum(m_a_a, s5, py);
    assert(m_a_a * b == m_a_a_b) by (nonlinear_arith)
        requires
            m_a_a == a * a,
            m_a_a_b == a * (a * b),
    ;
    assert(m_a_a * py == m_a_a_py) by (nonlinear_arith)
        requires
            m_a_a == a * a,
            m_a_a_py == a * (a * py),
    ;
    assert(n4 == 4real * m_a_a_b + m_a_a_py);
    let n7 = 2real * ux;
    assert(n7 == 2real * a + 2real * px);
    let n8 = n7 * a;
    let s9 = 2real * a;
    let s10 = s9 + 2real * px;
    assert(n7 == s10);
    lemma_scaled_times(2real, a, a);
    lemma_sum_times(s9, 2real * px, a);
    lemma_scaled_times(2real, px, a);
    assert(px * a == m_a_px) by (nonlinear_arith)
        requires
            m_a_px == a * px,
    ;
    assert(n8 == 2real * m_a_a + 2real * m_a_px);
    let n11 = b + uy;
    assert(n11 == 2real * b + py);
    let n12 = n8 * n11;
    let s13 = 2real * m_a_a;
    let s14 = s13 + 2real * m_a_px;
    let s15 = 2real * b;
    let s16 = s15 + py;
    assert(n8 == s14);
    assert(n11 == s16);
    lemma_scaled_times(2real, m_a_a, s16);
    lemma_times_scaled(m_a_a, 2real, b);
    lemma_times_sum(m_a_a, s15, py);
    lemma_sum_times(s13, 2real * m_a_px, s16);
    lemma_scaled_times(2real, m_a_px, s16);
    lemma_times_scaled(m_a_px, 2real, b);
    lemma_times_sum(m_a_px, s15, py);
    assert(m_a_px * b == m_a_b_px) by (nonlinear_arith)
        requires
            m_a_px == a * px,
            m_a_b_px == a * (b * px),
    ;
    assert(m_a_px * py == m_a_px_py) by (nonlinear_arith)
        requires
            m_a_px == a * px,
            m_a_px_py == a * (px * py),
    ;
    assert(n12 == 4real * m_a_a_b + 2real * m_a_a_py + 4real * m_a_b_px + 2real * m_a_px_py);
    let n17 = n4 + n12;
    assert(n17 == 8real * m_a_a_b + 3real * m_a_a_py + 4real * m_a_b_px + 2real * m_a_px_py);
    let n18 = ux * ux;
    let s19 = a;
    let s20 = s19 + px;
    let s21 = a;
    let s22 = s21 + px;
    assert(ux == s20);
    assert(ux == s22);
    lemma_times_sum(a, s21, px);
    lemma_sum_times(s19, px, s22);
    lemma_times_sum(px, s21, px);
    assert(n18 == m_a_a + 2real * m_a_px + m_px_px);
    let n23 = 3real * uy;
    assert(n23 == 3real * b + 3real * py);
    let n24 = n23 + b;
    assert(n24 == 4real * b + 3real * py);
    let n25 = n18 * n24;
    let s26 = m_a_a;
    let s27 = s26 + 2real * m_a_px;
    let s28 = s27 + m_px_px;
    let s29 = 4real * b;
    let s30 = s29 + 3real * py;
    assert(n18 == s28);
    assert(n24 == s30);
    lemma_times_scaled(m_a_a, 4real, b);
    lemma_times_sum(m_a_a, s29, 3real * py);
    lemma_times_scaled(m_a_a, 3real, py);
    lemma_sum_times(s26, 2real * m_a_px, s30);
    lemma_scaled_times(2real, m_a_px, s30);
    lemma_times_scaled(m_a_px, 4real, b);
    lemma_times_sum(m_a_px, s29, 3real * py);
    lemma_times_scaled(m_a_px, 3real, py);
    lemma_sum_times(s27, m_px_px, s30);
    lemma_times_scaled(m_px_px, 4real, b);
    lemma_times_sum(m_px_px, s29, 3real * py);
    lemma_times_scaled(m_px_px, 3real, py);
    assert(m_px_px * b == m_b_px_px) by (nonlinear_arith)
        requires
            m_px_px == px * px,
            m_b_px_px == b * (px * px),
    ;
    assert(m_px_px * py == m_px_px_py) by (nonlinear_arith)
        requires
            m_px_px == px * px,
            m_px_px_py == px * (px * py),
    ;
    assert(n25 == 4real * m_a_a_b + 3real * m_a_a_py + 8real * m_a_b_px + 6real * m_a_px_py
        + 4real * m_b_px_px + 3real * m_px_px_py);
    let n31 = n17 + n25;
    assert(n31 == 12real * m_a_a_b + 6real * m_a_a_py + 12real * m_a_b_px + 8real * m_a_px_py
        + 4real * m_b_px_px + 3real * m_px_px_py);
}

/// The mixed factor of third degree of the edge with the factors of lower
/// degree that a movement carries into it, written out.
pub(crate) proof fn lemma_expand_carried(px: real, py: real, qx: real, qy: real, a: real, b: real,
    ux: real, uy: real, vx: real, vy: real)
    requires
        ux == px + a,
        uy == py + b,
        vx == qx + a,
        vy == qy + b,
    ensures
        px * px * (3real * py + qy) + 2real * qx * px * (py + qy) + qx * qx * (3real * qy + py)
            + 5real * (b * (px * (px + qx) + qx * qx)) + 5real * (a * (px * (py + qy + py) + qx
            * (py + qy + qy))) + 20real * (a * (b * (px + qx))) + 10real * (a * (a * (py + qy)))
            + 30real * (a * (a * (b * 1real))) == 30real * (a * (a * b)) + 10real * (a * (a
            * py)) + 10real * (a * (a * qy)) + 20real * (a * (b * px)) + 20real * (a * (b * qx))
            + 10real * (a * (px * py)) + 5real * (a * (px * qy)) + 5real * (a * (py * qx))
            + 10real * (a * (qx * qy)) + 5real * (b * (px * px)) + 5real * (b * (px * qx))
            + 5real * (b * (qx * qx)) + 3real * (px * (px * py)) + (px * (px * qy)) + 2real * (px
            * (py * qx)) + 2real * (px * (qx * qy)) + (py * (qx * qx)) + 3real * (qx * (qx * qy)),
{
    let m_px_px = px * px;
    let m_px_px_py = px * (px * py);
    let m_px_px_qy = px * (px * qy);
    let m_px_qx = px * qx;
    let m_px_py_qx = px * (py * qx);
    let m_px_qx_qy = px * (qx * qy);
    let m_qx_qx = qx * qx;
    let m_py_qx_qx = py * (qx * qx);
    let m_qx_qx_qy = qx * (qx * qy);
    let m_b_px_px = b * (px * px);
    let m_b_px_qx = b * (px * qx);
    let m_b_qx_qx = b * (qx * qx);
    let m_px_py = px * py;
    let m_px_qy = px * qy;
    let m_py_qx = py * qx;
    let m_qx_qy = qx * qy;
    let m_a_px_py = a * (px * py);
    let m_a_px_qy = a * (px * qy);
    let m_a_py_qx = a * (py * qx);
    let m_a_qx_qy = a * (qx * qy);
    let m_b_px = b * px;
    let m_b_qx = b * qx;
    let m_a_b_px = a * (b * px);
    let m_a_b_qx = a * (b * qx);
    let m_a_py = a * py;
    let m_a_qy = a * qy;
    let m_a_a_py = a * (a * py);
    let m_a_a_qy = a * (a * qy);
    let m_a_b = a * b;
    let m_a_a_b = a * (a * b);
    let n1 = px * px;
    assert(n1 == m_px_px);
    let n2 = 3real * py;
    assert(n2 == 3real * py);
    let n3 = n2 + qy;
    assert(n3 == 3real * py + qy);
    let n4 = n1 * n3;
    let s5 = 3real * py;
    let s6 = s5 + qy;
    assert(n1 == m_px_px);
    assert(n3 == s6);
    lemma_times_scaled(m_px_px, 3real, py);
    lemma_times_sum(m_px_px, s5, qy);
    assert(m_px_px * py == m_px_px_py) by (nonlinear_arith)
        requires
            m_px_px == px * px,
            m_px_px_py == px * (px * py),
    ;
    assert(m_px_px * qy == m_px_px_qy) by (nonlinear_arith)
        requires
            m_px_px == px * px,
            m_px_px_qy == px * (px * qy),
    ;
    assert(n4 == 3real * m_px_px_py + m_px_px_qy);
    let n7 = 2real * qx;
    assert(n7 == 2real * qx);
    let n8 = n7 * px;
    let s9 = 2real * qx;
    assert(n7 == s9);
    lemma_scaled_times(2real, qx, px);
    assert(qx * px == m_px_qx) by (nonlinear_arith)
        requires
            m_px_qx == px * qx,
    ;
    assert(n8 == 2real * m_px_qx);
    let n10 = py + qy;
    assert(n10 == py + qy);
    let n11 = n8 * n10;
    let s12 = 2real * m_px_qx;
    let s13 = py;
    let s14 = s13 + qy;
    assert(n8 == s12);
    assert(n10 == s14);
    lemma_scaled_times(2real, m_px_qx, s14);
    lemma_times_sum(m_px_qx, s13, qy);
    assert(m_px_qx * py == m_px_py_qx) by (nonlinear_arith)
        requires
            m_px_qx == px * qx,
            m_px_py_qx == px * (py * qx),
    ;
    assert(m_px_qx * qy == m_px_qx_qy) by (nonlinear_arith)
        requires
            m_px_qx == px * qx,
            m_px_qx_qy == px * (qx * qy),
    ;
    assert(n11 == 2real * m_px_py_qx + 2real * m_px_qx_qy);
    let n15 = n4 + n11;
    assert(n15 == 3real * m_px_px_py + m_px_px_qy + 2real * m_px_py_qx + 2real * m_px_qx_qy);
    let n16 = qx * qx;
    assert(n16 == m_qx_qx);
    let n17 = 3real * qy;
    assert(n17 == 3real * qy);
    let n18 = n17 + py;
    assert(n18 == py + 3real * qy);
    let n19 = n16 * n18;
    let s20 = py;
    let s21 = s20 + 3real * qy;
    assert(n16 == m_qx_qx);
    assert(n18 == s21);
    lemma_times_sum(m_qx_qx, s20, 3real * qy);
    lemma_times_scaled(m_qx_qx, 3real, qy);
    assert(m_qx_qx * py == m_py_qx_qx) by (nonlinear_arith)
        requires
            m_qx_qx == qx * qx,
            m_py_qx_qx == py * (qx * qx),
    ;
    assert(m_qx_qx * qy == m_qx_qx_qy) by (nonlinear_arith)
        requires
            m_qx_qx == qx * qx,
            m_qx_qx_qy == qx * (qx * qy),
    ;
    assert(n19 == m_py_qx_qx + 3real * m_qx_qx_qy);
    let n22 = n15 + n19;
    assert(n22 == 3real * m_px_px_py + m_px_px_qy + 2real * m_px_py_qx + 2real * m_px_qx_qy
        + m_py_qx_qx + 3real * m_qx_qx_qy);
    let n23 = px + qx;
    assert(n23 == px + qx);
    let n24 = px * n23;
    let s25 = px;
    let s26 = s25 + qx;
    assert(n23 == s26);
    lemma_times_sum(px, s25, qx);
    assert(n24 == m_px_px + m_px_qx);
    let n27 = n24 + n16;
    assert(n27 == m_px_px + m_px_qx + m_qx_qx);
    let n28 = b * n27;
    let s29 = m_px_px;
    let s30 = s29 + m_px_qx;
    let s31 = s30 + m_qx_qx;
    assert(n27 == s31);
    lemma_times_sum(b, s29, m_px_qx);
    lemma_times_sum(b, s30, m_qx_qx);
    assert(b * m_px_px == m_b_px_px) by (nonlinear_arith)
        requires
            m_px_px == px * px,
            m_b_px_px == b * (px * px),
    ;
    assert(b * m_px_qx == m_b_px_qx) by (nonlinear_arith)
        requires
            m_px_qx == px * qx,
            m_b_px_qx == b * (px * qx),
    ;
    assert(b * m_qx_qx == m_b_qx_qx) by (nonlinear_arith)
        requires
            m_qx_qx == qx * qx,
            m_b_qx_qx == b * (qx * qx),
    ;
    assert(n28 == m_b_px_px + m_b_px_qx + m_b_qx_qx);
    let n32 = 5real * n28;
    assert(n32 == 5real * m_b_px_px + 5real * m_b_px_qx + 5real * m_b_qx_qx);
    let n33 = n22 + n32;
    assert(n33 == 5real * m_b_px_px + 5real * m_b_px_qx + 5real * m_b_qx_qx + 3real * m_px_px_py
        + m_px_px_qy + 2real * m_px_py_qx + 2real * m_px_qx_qy + m_py_qx_qx + 3real * m_qx_qx_qy);
    let n34 = n10 + py;
    assert(n34 == 2real * py + qy);
    let n35 = px * n34;
    let s36 = 2real * py;
    let s37 = s36 + qy;
    assert(n34 == s37);
    lemma_times_scaled(px, 2real, py);
    lemma_times_sum(px, s36, qy);
    assert(n35 == 2real * m_px_py + m_px_qy);
    let n38 = n10 + qy;
    assert(n38 == py + 2real * qy);
    let n39 = qx * n38;
    let s40 = py;
    let s41 = s40 + 2real * qy;
    assert(n38 == s41);
    lemma_times_sum(qx, s40, 2real * qy);
    lemma_times_scaled(qx, 2real, qy);
    assert(qx * py == m_py_qx) by (nonlinear_arith)
        requires
            m_py_qx == py * qx,
    ;
    assert(n39 == m_py_qx + 2real * m_qx_qy);
    let n42 = n35 + n39;
    assert(n42 == 2real * m_px_py + m_px_qy + m_py_qx + 2real * m_qx_qy);
    let n43 = a * n42;
    let s44 = 2real * m_px_py;
    let s45 = s44 + m_px_qy;
    let s46 = s45 + m_py_qx;
    let s47 = s46 + 2real * m_qx_qy;
    assert(n42 == s47);
    lemma_times_scaled(a, 2real, m_px_py);
    lemma_times_sum(a, s44, m_px_qy);
    lemma_times_sum(a, s45, m_py_qx);
    lemma_times_sum(a, s46, 2real * m_qx_qy);
    lemma_times_scaled(a, 2real, m_qx_qy);
    assert(a * m_px_py == m_a_px_py) by (nonlinear_arith)
        requires
            m_px_py == px * py,
            m_a_px_py == a * (px * py),
    ;
    assert(a * m_px_qy == m_a_px_qy) by (nonlinear_arith)
        requires
            m_px_qy == px * qy,
            m_a_px_qy == a * (px * qy),
    ;
    assert(a * m_py_qx == m_a_py_qx) by (nonlinear_arith)
        requires
            m_py_qx == py * qx,
            m_a_py_qx == a * (py * qx),
    ;
    assert(a * m_qx_qy == m_a_qx_qy) by (nonlinear_arith)
        requires
            m_qx_qy == qx * qy,
            m_a_qx_qy == a * (qx * qy),
    ;
    assert(n43 == 2real * m_a_px_py + m_a_px_qy + m_a_py_qx + 2real * m_a_qx_qy);
    let n48 = 5real * n43;
    assert(n48 == 10real * m_a_px_py + 5real * m_a_px_qy + 5real * m_a_py_qx + 10real * m_a_qx_qy);
    let n49 = n33 + n48;
    assert(n49 == 10real * m_a_px_py + 5real * m_a_px_qy + 5real * m_a_py_qx + 10real * m_a_qx_qy
        + 5real * m_b_px_px + 5real * m_b_px_qx + 5real * m_b_qx_qx + 3real * m_px_px_py
        + m_px_px_qy + 2real * m_px_py_qx + 2real * m_px_qx_qy + m_py_qx_qx + 3real * m_qx_qx_qy);
    let n50 = b * n23;
    let s51 = px;
    let s52 = s51 + qx;
    assert(n23 == s52);
    lemma_times_sum(b, s51, qx);
    assert(n50 == m_b_px + m_b_qx);
    let n53 = a * n50;
    let s54 = m_b_px;
    let s55 = s54 + m_b_qx;
    assert(n50 == s55);
    lemma_times_sum(a, s54, m_b_qx);
    assert(a * m_b_px == m_a_b_px) by (nonlinear_arith)
        requires
            m_b_px == b * px,
            m_a_b_px == a * (b * px),
    ;
    assert(a * m_b_qx == m_a_b_qx) by (nonlinear_arith)
        requires
            m_b_qx == b * qx,
            m_a_b_qx == a * (b * qx),
    ;
    assert(n53 == m_a_b_px + m_a_b_qx);
    let n56 = 20real * n53;
    assert(n56 == 20real * m_a_b_px + 20real * m_a_b_qx);
    let n57 = n49 + n56;
    assert(n57 == 20real * m_a_b_px + 20real * m_a_b_qx + 10real * m_a_px_py + 5real * m_a_px_qy
        + 5real * m_a_py_qx + 10real * m_a_qx_qy + 5real * m_b_px_px + 5real * m_b_px_qx + 5real
        * m_b_qx_qx + 3real * m_px_px_py + m_px_px_qy + 2real * m_px_py_qx + 2real * m_px_qx_qy
        + m_py_qx_qx + 3real * m_qx_qx_qy);
    let n58 = a * n10;
    let s59 = py;
    let s60 = s59 + qy;
    assert(n10 == s60);
    lemma_times_sum(a, s59, qy);
    assert(n58 == m_a_py + m_a_qy);
    let n61 = a * n58;
    let s62 = m_a_py;
    let s63 = s62 + m_a_qy;
    assert(n58 == s63);
    lemma_times_sum(a, s62, m_a_qy);
    assert(a * m_a_py == m_a_a_py) by (nonlinear_arith)
        requires
            m_a_py == a * py,
            m_a_a_py == a * (a * py),
    ;
    assert(a * m_a_qy == m_a_a_qy) by (nonlinear_arith)
        requires
            m_a_qy == a * qy,
            m_a_a_qy == a * (a * qy),
    ;
    assert(n61 == m_a_a_py + m_a_a_qy);
    let n64 = 10real * n61;
    assert(n64 == 10real * m_a_a_py + 10real * m_a_a_qy);
    let n65 = n57 + n64;
    assert(n65 == 10real * m_a_a_py + 10real * m_a_a_qy + 20real * m_a_b_px + 20real * m_a_b_qx
        + 10real * m_a_px_py + 5real * m_a_px_qy + 5real * m_a_py_qx + 10real * m_a_qx_qy + 5real
        * m_b_px_px + 5real * m_b_px_qx + 5real * m_b_qx_qx + 3real * m_px_px_py + m_px_px_qy
        + 2real * m_px_py_qx + 2real * m_px_qx_qy + m_py_qx_qx + 3real * m_qx_qx_qy);
    let n66 = b * 1real;
    assert(n66 == b);
    let n67 = a * n66;
    assert(n66 == b);
    assert(n67 == m_a_b);
    let n68 = a * n67;
    assert(n67 == m_a_b);
    assert(a * m_a_b == m_a_a_b) by (nonlinear_arith)
        requires
            m_a_b == a * b,
            m_a_a_b == a * (a * b),
    ;
    assert(n68 == m_a_a_b);
    let n69 = 30real * n68;
    assert(n69 == 30real * m_a_a_b);
    let n70 = n65 + n69;
    assert(n70 == 30real * m_a_a_b + 10real * m_a_a_py + 10real * m_a_a_qy + 20real * m_a_b_px
        + 20real * m_a_b_qx + 10real * m_a_px_py + 5real * m_a_px_qy + 5real * m_a_py_qx + 10real
        * m_a_qx_qy + 5real * m_b_px_px + 5real * m_b_px_qx + 5real * m_b_qx_qx + 3real
        * m_px_px_py + m_px_px_qy + 2real * m_px_py_qx + 2real * m_px_qx_qy + m_py_qx_qx + 3real
        * m_qx_qx_qy);
}

/// The start of the edge times the two weights, written out.
pub(crate) proof fn lemma_expand_start_weighted(px: real, py: real, qx: real, qy: real, a: real,
    b: real, ux: real, uy: real, vx: real, vy: real)
    requires
        ux == px + a,
        uy == py + b,
        vx == qx + a,
        vy == qy + b,
    ensures
        px * (ux * (uy + vy + uy) + vx * (uy + vy + vy) + a * (uy + vy) + b * (ux + vx) + 2real
            * (a * b)) + py * (ux * (ux + vx) + vx * vx + a * (ux + vx + a)) == 6real * (a * (a
            * py)) + 12real * (a * (b * px)) + 8real * (a * (px * py)) + 4real * (a * (px * qy))
            + 4real * (a * (py * qx)) + 4real * (b * (px * px)) + 4real * (b * (px * qx)) + 3real
            * (px * (px * py)) + (px * (px * qy)) + 2real * (px * (py * qx)) + 2real * (px * (qx
            * qy)) + (py * (qx * qx)),
{
    let m_a_b = a * b;
    let m_a_py = a * py;
    let m_a_qy = a * qy;
    let m_b_px = b * px;
    let m_px_py = px * py;
    let m_px_qy = px * qy;
    let m_b_qx = b * qx;
    let m_py_qx = py * qx;
    let m_qx_qy = qx * qy;
    let m_a_b_px = a * (b * px);
    let m_a_px_py = a * (px * py);
    let m_a_px_qy = a * (px * qy);
    let m_b_px_px = b * (px * px);
    let m_b_px_qx = b * (px * qx);
    let m_px_px_py = px * (px * py);
    let m_px_px_qy = px * (px * qy);
    let m_px_py_qx = px * (py * qx);
    let m_px_qx_qy = px * (qx * qy);
    let m_a_a = a * a;
    let m_a_px = a * px;
    let m_a_qx = a * qx;
    let m_px_px = px * px;
    let m_px_qx = px * qx;
    let m_qx_qx = qx * qx;
    let m_a_a_py = a * (a * py);
    let m_a_py_qx = a * (py * qx);
    let m_py_qx_qx = py * (qx * qx);
    let n1 = uy + vy;
    assert(n1 == 2real * b + py + qy);
    let n2 = n1 + uy;
    assert(n2 == 3real * b + 2real * py + qy);
    let n3 = ux * n2;
    let s4 = a;
    let s5 = s4 + px;
    let s6 = 3real * b;
    let s7 = s6 + 2real * py;
    let s8 = s7 + qy;
    assert(ux == s5);
    assert(n2 == s8);
    lemma_times_scaled(a, 3real, b);
    lemma_times_sum(a, s6, 2real * py);
    lemma_times_scaled(a, 2real, py);
    lemma_times_sum(a, s7, qy);
    lemma_sum_times(s4, px, s8);
    lemma_times_scaled(px, 3real, b);
    lemma_times_sum(px, s6, 2real * py);
    lemma_times_scaled(px, 2real, py);
    lemma_times_sum(px, s7, qy);
    assert(px * b == m_b_px) by (nonlinear_arith)
        requires
            m_b_px == b * px,
    ;
    assert(n3 == 3real * m_a_b + 2real * m_a_py + m_a_qy + 3real * m_b_px + 2real * m_px_py
        + m_px_qy);
    let n9 = n1 + vy;
    assert(n9 == 3real * b + py + 2real * qy);
    let n10 = vx * n9;
    let s11 = a;
    let s12 = s11 + qx;
    let s13 = 3real * b;
    let s14 = s13 + py;
    let s15 = s14 + 2real * qy;
    assert(vx == s12);
    assert(n9 == s15);
    lemma_times_scaled(a, 3real, b);
    lemma_times_sum(a, s13, py);
    lemma_times_sum(a, s14, 2real * qy);
    lemma_times_scaled(a, 2real, qy);
    lemma_sum_times(s11, qx, s15);
    lemma_times_scaled(qx, 3real, b);
    lemma_times_sum(qx, s13, py);
    lemma_times_sum(qx, s14, 2real * qy);
    lemma_times_scaled(qx, 2real, qy);
    assert(qx * b == m_b_qx) by (nonlinear_arith)
        requires
            m_b_qx == b * qx,
    ;
    assert(qx * py == m_py_qx) by (nonlinear_arith)
        requires
            m_py_qx == py * qx,
    ;
    assert(n10 == 3real * m_a_b + m_a_py + 2real * m_a_qy + 3real * m_b_qx + m_py_qx + 2real
        * m_qx_qy);
    let n16 = n3 + n10;
    assert(n16 == 6real * m_a_b + 3real * m_a_py + 3real * m_a_qy + 3real * m_b_px + 3real
        * m_b_qx + 2real * m_px_py + m_px_qy + m_py_qx + 2real * m_qx_qy);
    let n17 = a * n1;
    let s18 = 2real * b;
    let s19 = s18 + py;
    let s20 = s19 + qy;
    assert(n1 == s20);
    lemma_times_scaled(a, 2real, b);
    lemma_times_sum(a, s18, py);
    lemma_times_sum(a, s19, qy);
    assert(n17 == 2real * m_a_b + m_a_py + m_a_qy);
    let n21 = n16 + n17;
    assert(n21 == 8real * m_a_b + 4real * m_a_py + 4real * m_a_qy + 3real * m_b_px + 3real
        * m_b_qx + 2real * m_px_py + m_px_qy + m_py_qx + 2real * m_qx_qy);
    let n22 = ux + vx;
    assert(n22 == 2real * a + px + qx);
    let n23 = b * n22;
    let s24 = 2real * a;
    let s25 = s24 + px;
    let s26 = s25 + qx;
    assert(n22 == s26);
    lemma_times_scaled(b, 2real, a);
    lemma_times_sum(b, s24, px);
    lemma_times_sum(b, s25, qx);
    assert(b * a == m_a_b) by (nonlinear_arith)
        requires
            m_a_b == a * b,
    ;
    assert(n23 == 2real * m_a_b + m_b_px + m_b_qx);
    let n27 = n21 + n23;
    assert(n27 == 10real * m_a_b + 4real * m_a_py + 4real * m_a_qy + 4real * m_b_px + 4real
        * m_b_qx + 2real * m_px_py + m_px_qy + m_py_qx + 2real * m_qx_qy);
    let n28 = a * b;
    assert(n28 == m_a_b);
    let n29 = 2real * n28;
    assert(n29 == 2real * m_a_b);
    let n30 = n27 + n29;
    assert(n30 == 12real * m_a_b + 4real * m_a_py + 4real * m_a_qy + 4real * m_b_px + 4real
        * m_b_qx + 2real * m_px_py + m_px_qy + m_py_qx + 2real * m_qx_qy);
    let n31 = px * n30;
    let s32 = 12real * m_a_b;
    let s33 = s32 + 4real * m_a_py;
    let s34 = s33 + 4real * m_a_qy;
    let s35 = s34 + 4real * m_b_px;
    let s36 = s35 + 4real * m_b_qx;
    let s37 = s36 + 2real * m_px_py;
    let s38 = s37 + m_px_qy;
    let s39 = s38 + m_py_qx;
    let s40 = s39 + 2real * m_qx_qy;
    assert(n30 == s40);
    lemma_times_scaled(px, 12real, m_a_b);
    lemma_times_sum(px, s32, 4real * m_a_py);
    lemma_times_scaled(px, 4real, m_a_py);
    lemma_times_sum(px, s33, 4real * m_a_qy);
    lemma_times_scaled(px, 4real, m_a_qy);
    lemma_times_sum(px, s34, 4real * m_b_px);
    lemma_times_scaled(px, 4real, m_b_px);
    lemma_times_sum(px, s35, 4real * m_b_qx);
    lemma_times_scaled(px, 4real, m_b_qx);
    lemma_times_sum(px, s36, 2real * m_px_py);
    lemma_times_scaled(px, 2real, m_px_py);
    lemma_times_sum(px, s37, m_px_qy);
    lemma_times_sum(px, s38, m_py_qx);
    lemma_times_sum(px, s39, 2real * m_qx_qy);
    lemma_times_scaled(px, 2real, m_qx_qy);
    assert(px * m_a_b == m_a_b_px) by (nonlinear_arith)
        requires
            m_a_b == a * b,
            m_a_b_px == a * (b * px),
    ;
    assert(px * m_a_py == m_a_px_py) by (nonlinear_arith)
        requires
            m_a_py == a * py,
            m_a_px_py == a * (px * py),
    ;
    assert(px * m_a_qy == m_a_px_qy) by (nonlinear_arith)
        requires
            m_a_qy == a * qy,
            m_a_px_qy == a * (px * qy),
    ;
    assert(px * m_b_px == m_b_px_px) by (nonlinear_arith)
        requires
            m_b_px == b * px,
            m_b_px_px == b * (px * px),
    ;
    assert(px * m_b_qx == m_b_px_qx) by (nonlinear_arith)
        requires
            m_b_qx == b * qx,
            m_b_px_qx == b * (px * qx),
    ;
    assert(px * m_px_py == m_px_px_py) by (nonlinear_arith)
        requires
            m_px_py == px * py,
            m_px_px_py == px * (px * py),
    ;
    assert(px * m_px_qy == m_px_px_qy) by (nonlinear_arith)
        requires
            m_px_qy == px * qy,
            m_px_px_qy == px * (px * qy),
    ;
    assert(px * m_py_qx == m_px_py_qx) by (nonlinear_arith)
        requires
            m_py_qx == py * qx,
            m_px_py_qx == px * (py * qx),
    ;
    assert(px * m_qx_qy == m_px_qx_qy) by (nonlinear_arith)
        requires
            m_qx_qy == qx * qy,
            m_px_qx_qy == px * (qx * qy),
    ;
    assert(n31 == 12real * m_a_b_px + 4real * m_a_px_py + 4real * m_a_px_qy + 4real * m_b_px_px
        + 4real * m_b_px_qx + 2real * m_px_px_py + m_px_px_qy + m_px_py_qx + 2real * m_px_qx_qy);
    let n41 = ux * n22;
    let s42 = a;
    let s43 = s42 + px;
    let s44 = 2real * a;
    let s45 = s44 + px;
    let s46 = s45 + qx;
    assert(ux == s43);
    assert(n22 == s46);
    lemma_times_scaled(a, 2real, a);
    lemma_times_sum(a, s44, px);
    lemma_times_sum(a, s45, qx);
    lemma_sum_times(s42, px, s46);
    lemma_times_scaled(px, 2real, a);
    lemma_times_sum(px, s44, px);
    lemma_times_sum(px, s45, qx);
    assert(px * a == m_a_px) by (nonlinear_arith)
        requires
            m_a_px == a * px,
    ;
    assert(n41 == 2real * m_a_a + 3real * m_a_px + m_a_qx + m_px_px + m_px_qx);
    let n47 = vx * vx;
    let s48 = a;
    let s49 = s48 + qx;
    let s50 = a;
    let s51 = s50 + qx;
    assert(vx == s49);
    assert(vx == s51);
    lemma_times_sum(a, s50, qx);
    lemma_sum_times(s48, qx, s51);
    lemma_times_sum(qx, s50, qx);
    assert(qx * a == m_a_qx) by (nonlinear_arith)
        requires
            m_a_qx == a * qx,
    ;
    assert(n47 == m_a_a + 2real * m_a_qx + m_qx_qx);
    let n52 = n41 + n47;
    assert(n52 == 3real * m_a_a + 3real * m_a_px + 3real * m_a_qx + m_px_px + m_px_qx + m_qx_qx);
    let n53 = n22 + a;
    assert(n53 == 3real * a + px + qx);
    let n54 = a * n53;
    let s55 = 3real * a;
    let s56 = s55 + px;
    let s57 = s56 + qx;
    assert(n53 == s57);
    lemma_times_scaled(a, 3real, a);
    lemma_times_sum(a, s55, px);
    lemma_times_sum(a, s56, qx);
    assert(n54 == 3real * m_a_a + m_a_px + m_a_qx);
    let n58 = n52 + n54;
    assert(n58 == 6real * m_a_a + 4real * m_a_px + 4real * m_a_qx + m_px_px + m_px_qx + m_qx_qx);
    let n59 = py * n58;
    let s60 = 6real * m_a_a;
    let s61 = s60 + 4real * m_a_px;
    let s62 = s61 + 4real * m_a_qx;
    let s63 = s62 + m_px_px;
    let s64 = s63 + m_px_qx;
    let s65 = s64 + m_qx_qx;
    assert(n58 == s65);
    lemma_times_scaled(py, 6real, m_a_a);
    lemma_times_sum(py, s60, 4real * m_a_px);
    lemma_times_scaled(py, 4real, m_a_px);
    lemma_times_sum(py, s61, 4real * m_a_qx);
    lemma_times_scaled(py, 4real, m_a_qx);
    lemma_times_sum(py, s62, m_px_px);
    lemma_times_sum(py, s63, m_px_qx);
    lemma_times_sum(py, s64, m_qx_qx);
    assert(py * m_a_a == m_a_a_py) by (nonlinear_arith)
        requires
            m_a_a == a * a,
            m_a_a_py == a * (a * py),
    ;
    assert(py * m_a_px == m_a_px_py) by (nonlinear_arith)
        requires
            m_a_px == a * px,
            m_a_px_py == a * (px * py),
    ;
    assert(py * m_a_qx == m_a_py_qx) by (nonlinear_arith)
        requires
            m_a_qx == a * qx,
            m_a_py_qx == a * (py * qx),
    ;
    assert(py * m_px_px == m_px_px_py) by (nonlinear_arith)
        requires
            m_px_px == px * px,
            m_px_px_py == px * (px * py),
    ;
    assert(py * m_px_qx == m_px_py_qx) by (nonlinear_arith)
        requires
            m_px_qx == px * qx,
            m_px_py_qx == px * (py * qx),
    ;
    assert(py * m_qx_qx == m_py_qx_qx) by (nonlinear_arith)
        requires
            m_qx_qx == qx * qx,
            m_py_qx_qx == py * (qx * qx),
    ;
    assert(n59 == 6real * m_a_a_py + 4real * m_a_px_py + 4real * m_a_py_qx + m_px_px_py
        + m_px_py_qx + m_py_qx_qx);
    let n66 = n31 + n59;
    assert(n66 == 6real * m_a_a_py + 12real * m_a_b_px + 8real * m_a_px_py + 4real * m_a_px_qy
        + 4real * m_a_py_qx + 4real * m_b_px_px + 4real * m_b_px_qx + 3real * m_px_px_py
        + m_px_px_qy + 2real * m_px_py_qx + 2real * m_px_qx_qy + m_py_qx_qx);
}

/// The end of the edge times the two weights, written out.
pub(crate) proof fn lemma_expand_end_weighted(px: real, py: real, qx: real, qy: real, a: real,
    b: real, ux: real, uy: real, vx: real, vy: real)
    requires
        ux == px + a,
        uy == py + b,
        vx == qx + a,
        vy == qy + b,
    ensures
        qx * (ux * (uy + vy + uy) + vx * (uy + vy + vy) + a * (uy + vy) + b * (ux + vx) + 2real
            * (a * b)) + qy * (ux * (ux + vx) + vx * vx + a * (ux + vx + a)) == 6real * (a * (a
            * qy)) + 12real * (a * (b * qx)) + 4real * (a * (px * qy)) + 4real * (a * (py * qx))
            + 8real * (a * (qx * qy)) + 4real * (b * (px * qx)) + 4real * (b * (qx * qx)) + (px
            * (px * qy)) + 2real * (px * (py * qx)) + 2real * (px * (qx * qy)) + (py * (qx * qx))
            + 3real * (qx * (qx * qy)),
{
    let m_a_b = a * b;
    let m_a_py = a * py;
    let m_a_qy = a * qy;
    let m_b_px = b * px;
    let m_px_py = px * py;
    let m_px_qy = px * qy;
    let m_b_qx = b * qx;
    let m_py_qx = py * qx;
    let m_qx_qy = qx * qy;
    let m_a_b_qx = a * (b * qx);
    let m_a_py_qx = a * (py * qx);
    let m_a_qx_qy = a * (qx * qy);
    let m_b_px_qx = b * (px * qx);
    let m_b_qx_qx = b * (qx * qx);
    let m_px_py_qx = px * (py * qx);
    let m_px_qx_qy = px * (qx * qy);
    let m_py_qx_qx = py * (qx * qx);
    let m_qx_qx_qy = qx * (qx * qy);
    let m_a_a = a * a;
    let m_a_px = a * px;
    let m_a_qx = a * qx;
    let m_px_px = px * px;
    let m_px_qx = px * qx;
    let m_qx_qx = qx * qx;
    let m_a_a_qy = a * (a * qy);
    let m_a_px_qy = a * (px * qy);
    let m_px_px_qy = px * (px * qy);
    let n1 = uy + vy;
    assert(n1 == 2real * b + py + qy);
    let n2 = n1 + uy;
    assert(n2 == 3real * b + 2real * py + qy);
    let n3 = ux * n2;
    let s4 = a;
    let s5 = s4 + px;
    let s6 = 3real * b;
    let s7 = s6 + 2real * py;
    let s8 = s7 + qy;
    assert(ux == s5);
    assert(n2 == s8);
    lemma_times_scaled(a, 3real, b);
    lemma_times_sum(a, s6, 2real * py);
    lemma_times_scaled(a, 2real, py);
    lemma_times_sum(a, s7, qy);
    lemma_sum_times(s4, px, s8);
    lemma_times_scaled(px, 3real, b);
    lemma_times_sum(px, s6, 2real * py);
    lemma_times_scaled(px, 2real, py);
    lemma_times_sum(px, s7, qy);
    assert(px * b == m_b_px) by (nonlinear_arith)
        requires
            m_b_px == b * px,
    ;
    assert(n3 == 3real * m_a_b + 2real * m_a_py + m_a_qy + 3real * m_b_px + 2real * m_px_py
        + m_px_qy);
    let n9 = n1 + vy;
    assert(n9 == 3real * b + py + 2real * qy);
    let n10 = vx * n9;
    let s11 = a;
    let s12 = s11 + qx;
    let s13 = 3real * b;
    let s14 = s13 + py;
    let s15 = s14 + 2real * qy;
    assert(vx == s12);
    assert(n9 == s15);
    lemma_times_scaled(a, 3real, b);
    lemma_times_sum(a, s13, py);
    lemma_times_sum(a, s14, 2real * qy);
    lemma_times_scaled(a, 2real, qy);
    lemma_sum_times(s11, qx, s15);
    lemma_times_scaled(qx, 3real, b);
    lemma_times_sum(qx, s13, py);
    lemma_times_sum(qx, s14, 2real * qy);
    lemma_times_scaled(qx, 2real, qy);
    assert(qx * b == m_b_qx) by (nonlinear_arith)
        requires
            m_b_qx == b * qx,
    ;
    assert(qx * py == m_py_qx) by (nonlinear_arith)
        requires
            m_py_qx == py * qx,
    ;
    assert(n10 == 3real * m_a_b + m_a_py + 2real * m_a_qy + 3real * m_b_qx + m_py_qx + 2real
        * m_qx_qy);
    let n16 = n3 + n10;
    assert(n16 == 6real * m_a_b + 3real * m_a_py + 3real * m_a_qy + 3real * m_b_px + 3real
        * m_b_qx + 2real * m_px_py + m_px_qy + m_py_qx + 2real * m_qx_qy);
    let n17 = a * n1;
    let s18 = 2real * b;
    let s19 = s18 + py;
    let s20 = s19 + qy;
    assert(n1 == s20);
    lemma_times_scaled(a, 2real, b);
    lemma_times_sum(a, s18, py);
    lemma_times_sum(a, s19, qy);
    assert(n17 == 2real * m_a_b + m_a_py + m_a_qy);
    let n21 = n16 + n17;
    assert(n21 == 8real * m_a_b + 4real * m_a_py + 4real * m_a_qy + 3real * m_b_px + 3real
        * m_b_qx + 2real * m_px_py + m_px_qy + m_py_qx + 2real * m_qx_qy);
    let n22 = ux + vx;
    assert(n22 == 2real * a + px + qx);
    let n23 = b * n22;
    let s24 = 2real * a;
    let s25 = s24 + px;
    let s26 = s25 + qx;
    assert(n22 == s26);
    lemma_times_scaled(b, 2real, a);
    lemma_times_sum(b, s24, px);
    lemma_times_sum(b, s25, qx);
    assert(b * a == m_a_b) by (nonlinear_arith)
        requires
            m_a_b == a * b,
    ;
    assert(n23 == 2real * m_a_b + m_b_px + m_b_qx);
    let n27 = n21 + n23;
    assert(n27 == 10real * m_a_b + 4real * m_a_py + 4real * m_a_qy + 4real * m_b_px + 4real
        * m_b_qx + 2real * m_px_py + m_px_qy + m_py_qx + 2real * m_qx_qy);
    let n28 = a * b;
    assert(n28 == m_a_b);
    let n29 = 2real * n28;
    assert(n29 == 2real * m_a_b);
    let n30 = n27 + n29;
    assert(n30 == 12real * m_a_b + 4real * m_a_py + 4real * m_a_qy + 4real * m_b_px + 4real
        * m_b_qx + 2real * m_px_py + m_px_qy + m_py_qx + 2real * m_qx_qy);
    let n31 = qx * n30;
    let s32 = 12real * m_a_b;
    let s33 = s32 + 4real * m_a_py;
    let s34 = s33 + 4real * m_a_qy;
    let s35 = s34 + 4real * m_b_px;
    let s36 = s35 + 4real * m_b_qx;
    let s37 = s36 + 2real * m_px_py;
    let s38 = s37 + m_px_qy;
    let s39 = s38 + m_py_qx;
    let s40 = s39 + 2real * m_qx_qy;
    assert(n30 == s40);
    lemma_times_scaled(qx, 12real, m_a_b);
    lemma_times_sum(qx, s32, 4real * m_a_py);
    lemma_times_scaled(qx, 4real, m_a_py);
    lemma_times_sum(qx, s33, 4real * m_a_qy);
    lemma_times_scaled(qx, 4real, m_a_qy);
    lemma_times_sum(qx, s34, 4real * m_b_px);
    lemma_times_scaled(qx, 4real, m_b_px);
    lemma_times_sum(qx, s35, 4real * m_b_qx);
    lemma_times_scaled(qx, 4real, m_b_qx);
    lemma_times_sum(qx, s36, 2real * m_px_py);
    lemma_times_scaled(qx, 2real, m_px_py);
    lemma_times_sum(qx, s37, m_px_qy);
    lemma_times_sum(qx, s38, m_py_qx);
    lemma_times_sum(qx, s39, 2real * m_qx_qy);
    lemma_times_scaled(qx, 2real, m_qx_qy);
    assert(qx * m_a_b == m_a_b_qx) by (nonlinear_arith)
        requires
            m_a_b == a * b,
            m_a_b_qx == a * (b * qx),
    ;
    assert(qx * m_a_py == m_a_py_qx) by (nonlinear_arith)
        requires
            m_a_py == a * py,
            m_a_py_qx == a * (py * qx),
    ;
    assert(qx * m_a_qy == m_a_qx_qy) by (nonlinear_arith)
        requires
            m_a_qy == a * qy,
            m_a_qx_qy == a * (qx * qy),
    ;
    assert(qx * m_b_px == m_b_px_qx) by (nonlinear_arith)
        requires
            m_b_px == b * px,
            m_b_px_qx == b * (px * qx),
    ;
    assert(qx * m_b_qx == m_b_qx_qx) by (nonlinear_arith)
        requires
            m_b_qx == b * qx,
            m_b_qx_qx == b * (qx * qx),
    ;
    assert(qx * m_px_py == m_px_py_qx) by (nonlinear_arith)
        requires
            m_px_py == px * py,
            m_px_py_qx == px * (py * qx),
    ;
    assert(qx * m_px_qy == m_px_qx_qy) by (nonlinear_arith)
        requires
            m_px_qy == px * qy,
            m_px_qx_qy == px * (qx * qy),
    ;
    assert(qx * m_py_qx == m_py_qx_qx) by (nonlinear_arith)
        requires
            m_py_qx == py * qx,
            m_py_qx_qx == py * (qx * qx),
    ;
    assert(qx * m_qx_qy == m_qx_qx_qy) by (nonlinear_arith)
        requires
            m_qx_qy == qx * qy,
            m_qx_qx_qy == qx * (qx * qy),
    ;
    assert(n31 == 12real * m_a_b_qx + 4real * m_a_py_qx + 4real * m_a_qx_qy + 4real * m_b_px_qx
        + 4real * m_b_qx_qx + 2real * m_px_py_qx + m_px_qx_qy + m_py_qx_qx + 2real * m_qx_qx_qy);
    let n41 = ux * n22;
    let s42 = a;
    let s43 = s42 + px;
    let s44 = 2real * a;
    let s45 = s44 + px;
    let s46 = s45 + qx;
    assert(ux == s43);
    assert(n22 == s46);
    lemma_times_scaled(a, 2real, a);
    lemma_times_sum(a, s44, px);
    lemma_times_sum(a, s45, qx);
    lemma_sum_times(s42, px, s46);
    lemma_times_scaled(px, 2real, a);
    lemma_times_sum(px, s44, px);
    lemma_times_sum(px, s45, qx);
    assert(px * a == m_a_px) by (nonlinear_arith)
        requires
            m_a_px == a * px,
    ;
    assert(n41 == 2real * m_a_a + 3real * m_a_px + m_a_qx + m_px_px + m_px_qx);
    let n47 = vx * vx;
    let s48 = a;
    let s49 = s48 + qx;
    let s50 = a;
    let s51 = s50 + qx;
    assert(vx == s49);
    assert(vx == s51);
    lemma_times_sum(a, s50, qx);
    lemma_sum_times(s48, qx, s51);
    lemma_times_sum(qx, s50, qx);
    assert(qx * a == m_a_qx) by (nonlinear_arith)
        requires
            m_a_qx == a * qx,
    ;
    assert(n47 == m_a_a + 2real * m_a_qx + m_qx_qx);
    let n52 = n41 + n47;
    assert(n52 == 3real * m_a_a + 3real * m_a_px + 3real * m_a_qx + m_px_px + m_px_qx + m_qx_qx);
    let n53 = n22 + a;
    assert(n53 == 3real * a + px + qx);
    let n54 = a * n53;
    let s55 = 3real * a;
    let s56 = s55 + px;
    let s57 = s56 + qx;
    assert(n53 == s57);
    lemma_times_scaled(a, 3real, a);
    lemma_times_sum(a, s55, px);
    lemma_times_sum(a, s56, qx);
    assert(n54 == 3real * m_a_a + m_a_px + m_a_qx);
    let n58 = n52 + n54;
    assert(n58 == 6real * m_a_a + 4real * m_a_px + 4real * m_a_qx + m_px_px + m_px_qx + m_qx_qx);
    let n59 = qy * n58;
    let s60 = 6real * m_a_a;
    let s61 = s60 + 4real * m_a_px;
    let s62 = s61 + 4real * m_a_qx;
    let s63 = s62 + m_px_px;
    let s64 = s63 + m_px_qx;
    let s65 = s64 + m_qx_qx;
    assert(n58 == s65);
    lemma_times_scaled(qy, 6real, m_a_a);
    lemma_times_sum(qy, s60, 4real * m_a_px);
    lemma_times_scaled(qy, 4real, m_a_px);
    lemma_times_sum(qy, s61, 4real * m_a_qx);
    lemma_times_scaled(qy, 4real, m_a_qx);
    lemma_times_sum(qy, s62, m_px_px);
    lemma_times_sum(qy, s63, m_px_qx);
    lemma_times_sum(qy, s64, m_qx_qx);
    assert(qy * m_a_a == m_a_a_qy) by (nonlinear_arith)
        requires
            m_a_a == a * a,
            m_a_a_qy == a * (a * qy),
    ;
    assert(qy * m_a_px == m_a_px_qy) by (nonlinear_arith)
        requires
            m_a_px == a * px,
            m_a_px_qy == a * (px * qy),
    ;
    assert(qy * m_a_qx == m_a_qx_qy) by (nonlinear_arith)
        requires
            m_a_qx == a * qx,
            m_a_qx_qy == a * (qx * qy),
    ;
    assert(qy * m_px_px == m_px_px_qy) by (nonlinear_arith)
        requires
            m_px_px == px * px,
            m_px_px_qy == px * (px * qy),
    ;
    assert(qy * m_px_qx == m_px_qx_qy) by (nonlinear_arith)
        requires
            m_px_qx == px * qx,
            m_px_qx_qy == px * (qx * qy),
    ;
    assert(qy * m_qx_qx == m_qx_qx_qy) by (nonlinear_arith)
        requires
            m_qx_qx == qx * qx,
            m_qx_qx_qy == qx * (qx * qy),
    ;
    assert(n59 == 6real * m_a_a_qy + 4real * m_a_px_qy + 4real * m_a_qx_qy + m_px_px_qy
        + m_px_qx_qy + m_qx_qx_qy);
    let n66 = n31 + n59;
    assert(n66 == 6real * m_a_a_qy + 12real * m_a_b_qx + 4real * m_a_px_qy + 4real * m_a_py_qx
        + 8real * m_a_qx_qy + 4real * m_b_px_qx + 4real * m_b_qx_qx + m_px_px_qy + 2real
        * m_px_py_qx + 2real * m_px_qx_qy + m_py_qx_qx + 3real * m_qx_qx_qy);
}

/// The movement times the two weights, written out.
pub(crate) proof fn lemma_expand_movement_weighted(px: real, py: real, qx: real, qy: real, a: real,
    b: real, ux: real, uy: real, vx: real, vy: real)
    requires
        ux == px + a,
        uy == py + b,
        vx == qx + a,
        vy == qy + b,
    ensures
        a * (ux * (uy + vy + uy) + vx * (uy + vy + vy) + a * (uy + vy) + b * (ux + vx) + 2real
            * (a * b)) + b * (ux * (ux + vx) + vx * vx + a * (ux + vx + a)) == 18real * (a * (a
            * b)) + 4real * (a * (a * py)) + 4real * (a * (a * qy)) + 8real * (a * (b * px))
            + 8real * (a * (b * qx)) + 2real * (a * (px * py)) + (a * (px * qy)) + (a * (py
            * qx)) + 2real * (a * (qx * qy)) + (b * (px * px)) + (b * (px * qx)) + (b * (qx * qx)),
{
    let m_a_b = a * b;
    let m_a_py = a * py;
    let m_a_qy = a * qy;
    let m_b_px = b * px;
    let m_px_py = px * py;
    let m_px_qy = px * qy;
    let m_b_qx = b * qx;
    let m_py_qx = py * qx;
    let m_qx_qy = qx * qy;
    let m_a_a_b = a * (a * b);
    let m_a_a_py = a * (a * py);
    let m_a_a_qy = a * (a * qy);
    let m_a_b_px = a * (b * px);
    let m_a_b_qx = a * (b * qx);
    let m_a_px_py = a * (px * py);
    let m_a_px_qy = a * (px * qy);
    let m_a_py_qx = a * (py * qx);
    let m_a_qx_qy = a * (qx * qy);
    let m_a_a = a * a;
    let m_a_px = a * px;
    let m_a_qx = a * qx;
    let m_px_px = px * px;
    let m_px_qx = px * qx;
    let m_qx_qx = qx * qx;
    let m_b_px_px = b * (px * px);
    let m_b_px_qx = b * (px * qx);
    let m_b_qx_qx = b * (qx * qx);
    let n1 = uy + vy;
    assert(n1 == 2real * b + py + qy);
    let n2 = n1 + uy;
    assert(n2 == 3real * b + 2real * py + qy);
    let n3 = ux * n2;
    let s4 = a;
    let s5 = s4 + px;
    let s6 = 3real * b;
    let s7 = s6 + 2real * py;
    let s8 = s7 + qy;
    assert(ux == s5);
    assert(n2 == s8);
    lemma_times_scaled(a, 3real, b);
    lemma_times_sum(a, s6, 2real * py);
    lemma_times_scaled(a, 2real, py);
    lemma_times_sum(a, s7, qy);
    lemma_sum_times(s4, px, s8);
    lemma_times_scaled(px, 3real, b);
    lemma_times_sum(px, s6, 2real * py);
    lemma_times_scaled(px, 2real, py);
    lemma_times_sum(px, s7, qy);
    assert(px * b == m_b_px) by (nonlinear_arith)
        requires
            m_b_px == b * px,
    ;
    assert(n3 == 3real * m_a_b + 2real * m_a_py + m_a_qy + 3real * m_b_px + 2real * m_px_py
        + m_px_qy);
    let n9 = n1 + vy;
    assert(n9 == 3real * b + py + 2real * qy);
    let n10 = vx * n9;
    let s11 = a;
    let s12 = s11 + qx;
    let s13 = 3real * b;
    let s14 = s13 + py;
    let s15 = s14 + 2real * qy;
    assert(vx == s12);
    assert(n9 == s15);
    lemma_times_scaled(a, 3real, b);
    lemma_times_sum(a, s13, py);
    lemma_times_sum(a, s14, 2real * qy);
    lemma_times_scaled(a, 2real, qy);
    lemma_sum_times(s11, qx, s15);
    lemma_times_scaled(qx, 3real, b);
    lemma_times_sum(qx, s13, py);
    lemma_times_sum(qx, s14, 2real * qy);
    lemma_times_scaled(qx, 2real, qy);
    assert(qx * b == m_b_qx) by (nonlinear_arith)
        requires
            m_b_qx == b * qx,
    ;
    assert(qx * py == m_py_qx) by (nonlinear_arith)
        requires
            m_py_qx == py * qx,
    ;
    assert(n10 == 3real * m_a_b + m_a_py + 2real * m_a_qy + 3real * m_b_qx + m_py_qx + 2real
        * m_qx_qy);
    let n16 = n3 + n10;
    assert(n16 == 6real * m_a_b + 3real * m_a_py + 3real * m_a_qy + 3real * m_b_px + 3real
        * m_b_qx + 2real * m_px_py + m_px_qy + m_py_qx + 2real * m_qx_qy);
    let n17 = a * n1;
    let s18 = 2real * b;
    let s19 = s18 + py;
    let s20 = s19 + qy;
    assert(n1 == s20);
    lemma_times_scaled(a, 2real, b);
    lemma_times_sum(a, s18, py);
    lemma_times_sum(a, s19, qy);
    assert(n17 == 2real * m_a_b + m_a_py + m_a_qy);
    let n21 = n16 + n17;
    assert(n21 == 8real * m_a_b + 4real * m_a_py + 4real * m_a_qy + 3real * m_b_px + 3real
        * m_b_qx + 2real * m_px_py + m_px_qy + m_py_qx + 2real * m_qx_qy);
    let n22 = ux + vx;
    assert(n22 == 2real * a + px + qx);
    let n23 = b * n22;
    let s24 = 2real * a;
    let s25 = s24 + px;
    let s26 = s25 + qx;
    assert(n22 == s26);
    lemma_times_scaled(b, 2real, a);
    lemma_times_sum(b, s24, px);
    lemma_times_sum(b, s25, qx);
    assert(b * a == m_a_b) by (nonlinear_arith)
        requires
            m_a_b == a * b,
    ;
    assert(n23 == 2real * m_a_b + m_b_px + m_b_qx);
    let n27 = n21 + n23;
    assert(n27 == 10real * m_a_b + 4real * m_a_py + 4real * m_a_qy + 4real * m_b_px + 4real
        * m_b_qx + 2real * m_px_py + m_px_qy + m_py_qx + 2real * m_qx_qy);
    let n28 = a * b;
    assert(n28 == m_a_b);
    let n29 = 2real * n28;
    assert(n29 == 2real * m_a_b);
    let n30 = n27 + n29;
    assert(n30 == 12real * m_a_b + 4real * m_a_py + 4real * m_a_qy + 4real * m_b_px + 4real
        * m_b_qx + 2real * m_px_py + m_px_qy + m_py_qx + 2real * m_qx_qy);
    let n31 = a * n30;
    let s32 = 12real * m_a_b;
    let s33 = s32 + 4real * m_a_py;
    let s34 = s33 + 4real * m_a_qy;
    let s35 = s34 + 4real * m_b_px;
    let s36 = s35 + 4real * m_b_qx;
    let s37 = s36 + 2real * m_px_py;
    let s38 = s37 + m_px_qy;
    let s39 = s38 + m_py_qx;
    let s40 = s39 + 2real * m_qx_qy;
    assert(n30 == s40);
    lemma_times_scaled(a, 12real, m_a_b);
    lemma_times_sum(a, s32, 4real * m_a_py);
    lemma_times_scaled(a, 4real, m_a_py);
    lemma_times_sum(a, s33, 4real * m_a_qy);
    lemma_times_scaled(a, 4real, m_a_qy);
    lemma_times_sum(a, s34, 4real * m_b_px);
    lemma_times_scaled(a, 4real, m_b_px);
    lemma_times_sum(a, s35, 4real * m_b_qx);
    lemma_times_scaled(a, 4real, m_b_qx);
    lemma_times_sum(a, s36, 2real * m_px_py);
    lemma_times_scaled(a, 2real, m_px_py);
    lemma_times_sum(a, s37, m_px_qy);
    lemma_times_sum(a, s38, m_py_qx);
    lemma_times_sum(a, s39, 2real * m_qx_qy);
    lemma_times_scaled(a, 2real, m_qx_qy);
    assert(a * m_a_b == m_a_a_b) by (nonlinear_arith)
        requires
            m_a_b == a * b,
            m_a_a_b == a * (a * b),
    ;
    assert(a * m_a_py == m_a_a_py) by (nonlinear_arith)
        requires
            m_a_py == a * py,
            m_a_a_py == a * (a * py),
    ;
    assert(a * m_a_qy == m_a_a_qy) by (nonlinear_arith)
        requires
            m_a_qy == a * qy,
            m_a_a_qy == a * (a * qy),
    ;
    assert(a * m_b_px == m_a_b_px) by (nonlinear_arith)
        requires
            m_b_px == b * px,
            m_a_b_px == a * (b * px),
    ;
    assert(a * m_b_qx == m_a_b_qx) by (nonlinear_arith)
        requires
            m_b_qx == b * qx,
            m_a_b_qx == a * (b * qx),
    ;
    assert(a * m_px_py == m_a_px_py) by (nonlinear_arith)
        requires
            m_px_py == px * py,
            m_a_px_py == a * (px * py),
    ;
    assert(a * m_px_qy == m_a_px_qy) by (nonlinear_arith)
        requires
            m_px_qy == px * qy,
            m_a_px_qy == a * (px * qy),
    ;
    assert(a * m_py_qx == m_a_py_qx) by (nonlinear_arith)
        requires
            m_py_qx == py * qx,
            m_a_py_qx == a * (py * qx),
    ;
    assert(a * m_qx_qy == m_a_qx_qy) by (nonlinear_arith)
        requires
            m_qx_qy == qx * qy,
            m_a_qx_qy == a * (qx * qy),
    ;
    assert(n31 == 12real * m_a_a_b + 4real * m_a_a_py + 4real * m_a_a_qy + 4real * m_a_b_px
        + 4real * m_a_b_qx + 2real * m_a_px_py + m_a_px_qy + m_a_py_qx + 2real * m_a_qx_qy);
    let n41 = ux * n22;
    let s42 = a;
    let s43 = s42 + px;
    let s44 = 2real * a;
    let s45 = s44 + px;
    let s46 = s45 + qx;
    assert(ux == s43);
    assert(n22 == s46);
    lemma_times_scaled(a, 2real, a);
    lemma_times_sum(a, s44, px);
    lemma_times_sum(a, s45, qx);
    lemma_sum_times(s42, px, s46);
    lemma_times_scaled(px, 2real, a);
    lemma_times_sum(px, s44, px);
    lemma_times_sum(px, s45, qx);
    assert(px * a == m_a_px) by (nonlinear_arith)
        requires
            m_a_px == a * px,
    ;
    assert(n41 == 2real * m_a_a + 3real * m_a_px + m_a_qx + m_px_px + m_px_qx);
    let n47 = vx * vx;
    let s48 = a;
    let s49 = s48 + qx;
    let s50 = a;
    let s51 = s50 + qx;
    assert(vx == s49);
    assert(vx == s51);
    lemma_times_sum(a, s50, qx);
    lemma_sum_times(s48, qx, s51);
    lemma_times_sum(qx, s50, qx);
    assert(qx * a == m_a_qx) by (nonlinear_arith)
        requires
            m_a_qx == a * qx,
    ;
    assert(n47 == m_a_a + 2real * m_a_qx + m_qx_qx);
    let n52 = n41 + n47;
    assert(n52 == 3real * m_a_a + 3real * m_a_px + 3real * m_a_qx + m_px_px + m_px_qx + m_qx_qx);
    let n53 = n22 + a;
    assert(n53 == 3real * a + px + qx);
    let n54 = a * n53;
    let s55 = 3real * a;
    let s56 = s55 + px;
    let s57 = s56 + qx;
    assert(n53 == s57);
    lemma_times_scaled(a, 3real, a);
    lemma_times_sum(a, s55, px);
    lemma_times_sum(a, s56, qx);
    assert(n54 == 3real * m_a_a + m_a_px + m_a_qx);
    let n58 = n52 + n54;
    assert(n58 == 6real * m_a_a + 4real * m_a_px + 4real * m_a_qx + m_px_px + m_px_qx + m_qx_qx);
    let n59 = b * n58;
    let s60 = 6real * m_a_a;
    let s61 = s60 + 4real * m_a_px;
    let s62 = s61 + 4real * m_a_qx;
    let s63 = s62 + m_px_px;
    let s64 = s63 + m_px_qx;
    let s65 = s64 + m_qx_qx;
    assert(n58 == s65);
    lemma_times_scaled(b, 6real, m_a_a);
    lemma_times_sum(b, s60, 4real * m_a_px);
    lemma_times_scaled(b, 4real, m_a_px);
    lemma_times_sum(b, s61, 4real * m_a_qx);
    lemma_times_scaled(b, 4real, m_a_qx);
    lemma_times_sum(b, s62, m_px_px);
    lemma_times_sum(b, s63, m_px_qx);
    lemma_times_sum(b, s64, m_qx_qx);
    assert(b * m_a_a == m_a_a_b) by (nonlinear_arith)
        requires
            m_a_a == a * a,
            m_a_a_b == a * (a * b),
    ;
    assert(b * m_a_px == m_a_b_px) by (nonlinear_arith)
        requires
            m_a_px == a * px,
            m_a_b_px == a * (b * px),
    ;
    assert(b * m_a_qx == m_a_b_qx) by (nonlinear_arith)
        requires
            m_a_qx == a * qx,
            m_a_b_qx == a * (b * qx),
    ;
    assert(b * m_px_px == m_b_px_px) by (nonlinear_arith)
        requires
            m_px_px == px * px,
            m_b_px_px == b * (px * px),
    ;
    assert(b * m_px_qx == m_b_px_qx) by (nonlinear_arith)
        requires
            m_px_qx == px * qx,
            m_b_px_qx == b * (px * qx),
    ;
    assert(b * m_qx_qx == m_b_qx_qx) by (nonlinear_arith)
        requires
            m_qx_qx == qx * qx,
            m_b_qx_qx == b * (qx * qx),
    ;
    assert(n59 == 6real * m_a_a_b + 4real * m_a_b_px + 4real * m_a_b_qx + m_b_px_px + m_b_px_qx
        + m_b_qx_qx);
    let n66 = n31 + n59;
    assert(n66 == 18real * m_a_a_b + 4real * m_a_a_py + 4real * m_a_a_qy + 8real * m_a_b_px
        + 8real * m_a_b_qx + 2real * m_a_px_py + m_a_px_qy + m_a_py_qx + 2real * m_a_qx_qy
        + m_b_px_px + m_b_px_qx + m_b_qx_qx);
}

/// The same for the mixed factor of third degree; the axis of second degree
/// is named first.
pub(crate) proof fn lemma_moved_mixed_third(px: real, py: real, qx: real, qy: real, a: real,
    b: real, ux: real, uy: real, vx: real, vy: real)
    requires
        ux == px + a,
        uy == py + b,
        vx == qx + a,
        vy == qy + b,
    ensures
        ux * ux * (3real * uy + vy) + 2real * vx * ux * (uy + vy) + vx * vx * (3real * vy + uy)
            - (a * a * (3real * b + vy) + 2real * vx * a * (b + vy) + vx * vx * (3real * vy
            + b)) == px * (ux * (uy + vy + uy) + vx * (uy + vy + vy) + a * (uy + vy) + b * (ux
            + vx) + 2real * (a * b)) + py * (ux * (ux + vx) + vx * vx + a * (ux + vx + a)),
        ux * ux * (3real * uy + vy) + 2real * vx * ux * (uy + vy) + vx * vx * (3real * vy + uy)
            - (a * a * (3real * b + uy) + 2real * ux * a * (b + uy) + ux * ux * (3real * uy
            + b)) == qx * (ux * (uy + vy + uy) + vx * (uy + vy + vy) + a * (uy + vy) + b * (ux
            + vx) + 2real * (a * b)) + qy * (ux * (ux + vx) + vx * vx + a * (ux + vx + a)),
        px * px * (3real * py + qy) + 2real * qx * px * (py + qy) + qx * qx * (3real * qy + py)
            + 5real * (b * (px * (px + qx) + qx * qx)) + 5real * (a * (px * (py + qy + py) + qx
            * (py + qy + qy))) + 20real * (a * (b * (px + qx))) + 10real * (a * (a * (py + qy)))
            + 30real * (a * (a * (b * 1real))) - (ux * ux * (3real * uy + vy) + 2real * vx * ux
            * (uy + vy) + vx * vx * (3real * vy + uy)) == a * (ux * (uy + vy + uy) + vx * (uy
            + vy + vy) + a * (uy + vy) + b * (ux + vx) + 2real * (a * b)) + b * (ux * (ux + vx)
            + vx * vx + a * (ux + vx + a)),
{
    let m_a_a_b = a * (a * b);
    let m_a_a_py = a * (a * py);
    let m_a_a_qy = a * (a * qy);
    let m_a_b_px = a * (b * px);
    let m_a_b_qx = a * (b * qx);
    let m_a_px_py = a * (px * py);
    let m_a_px_qy = a * (px * qy);
    let m_a_py_qx = a * (py * qx);
    let m_a_qx_qy = a * (qx * qy);
    let m_b_px_px = b * (px * px);
    let m_b_px_qx = b * (px * qx);
    let m_b_qx_qx = b * (qx * qx);
    let m_px_px_py = px * (px * py);
    let m_px_px_qy = px * (px * qy);
    let m_px_py_qx = px * (py * qx);
    let m_px_qx_qy = px * (qx * qy);
    let m_py_qx_qx = py * (qx * qx);
    let m_qx_qx_qy = qx * (qx * qy);
    let moved = ux * ux * (3real * uy + vy) + 2real * vx * ux * (uy + vy) + vx * vx * (3real * vy
        + uy);
    lemma_expand_moved(px, py, qx, qy, a, b, ux, uy, vx, vy);
    assert(moved == 12real * m_a_a_b + 6real * m_a_a_py + 6real * m_a_a_qy + 12real * m_a_b_px
        + 12real * m_a_b_qx + 8real * m_a_px_py + 4real * m_a_px_qy + 4real * m_a_py_qx + 8real
        * m_a_qx_qy + 4real * m_b_px_px + 4real * m_b_px_qx + 4real * m_b_qx_qx + 3real
        * m_px_px_py + m_px_px_qy + 2real * m_px_py_qx + 2real * m_px_qx_qy + m_py_qx_qx + 3real
        * m_qx_qx_qy);
    let from_end = a * a * (3real * b + vy) + 2real * vx * a * (b + vy) + vx * vx * (3real * vy
        + b);
    lemma_expand_from_end(px, py, qx, qy, a, b, ux, uy, vx, vy);
    assert(from_end == 12real * m_a_a_b + 6real * m_a_a_qy + 12real * m_a_b_qx + 8real
        * m_a_qx_qy + 4real * m_b_qx_qx + 3real * m_qx_qx_qy);
    let n1 = moved - from_end;
    assert(n1 == 6real * m_a_a_py + 12real * m_a_b_px + 8real * m_a_px_py + 4real * m_a_px_qy
        + 4real * m_a_py_qx + 4real * m_b_px_px + 4real * m_b_px_qx + 3real * m_px_px_py
        + m_px_px_qy + 2real * m_px_py_qx + 2real * m_px_qx_qy + m_py_qx_qx);
    let start_weighted = px * (ux * (uy + vy + uy) + vx * (uy + vy + vy) + a * (uy + vy) + b
        * (ux + vx) + 2real * (a * b)) + py * (ux * (ux + vx) + vx * vx + a * (ux + vx + a));
    lemma_expand_start_weighted(px, py, qx, qy, a, b, ux, uy, vx, vy);
    assert(start_weighted == 6real * m_a_a_py + 12real * m_a_b_px + 8real * m_a_px_py + 4real
        * m_a_px_qy + 4real * m_a_py_qx + 4real * m_b_px_px + 4real * m_b_px_qx + 3real
        * m_px_px_py + m_px_px_qy + 2real * m_px_py_qx + 2real * m_px_qx_qy + m_py_qx_qx);
    assert(n1 == start_weighted);
    let from_start = a * a * (3real * b + uy) + 2real * ux * a * (b + uy) + ux * ux * (3real * uy
        + b);
    lemma_expand_from_start(px, py, qx, qy, a, b, ux, uy, vx, vy);
    assert(from_start == 12real * m_a_a_b + 6real * m_a_a_py + 12real * m_a_b_px + 8real
        * m_a_px_py + 4real * m_b_px_px + 3real * m_px_px_py);
    let n2 = moved - from_start;
    assert(n2 == 6real * m_a_a_qy + 12real * m_a_b_qx + 4real * m_a_px_qy + 4real * m_a_py_qx
        + 8real * m_a_qx_qy + 4real * m_b_px_qx + 4real * m_b_qx_qx + m_px_px_qy + 2real
        * m_px_py_qx + 2real * m_px_qx_qy + m_py_qx_qx + 3real * m_qx_qx_qy);
    let end_weighted = qx * (ux * (uy + vy + uy) + vx * (uy + vy + vy) + a * (uy + vy) + b * (ux
        + vx) + 2real * (a * b)) + qy * (ux * (ux + vx) + vx * vx + a * (ux + vx + a));
    lemma_expand_end_weighted(px, py, qx, qy, a, b, ux, uy, vx, vy);
    assert(end_weighted == 6real * m_a_a_qy + 12real * m_a_b_qx + 4real * m_a_px_qy + 4real
        * m_a_py_qx + 8real * m_a_qx_qy + 4real * m_b_px_qx + 4real * m_b_qx_qx + m_px_px_qy
        + 2real * m_px_py_qx + 2real * m_px_qx_qy + m_py_qx_qx + 3real * m_qx_qx_qy);
    assert(n2 == end_weighted);
    let carried = px * px * (3real * py + qy) + 2real * qx * px * (py + qy) + qx * qx * (3real
        * qy + py) + 5real * (b * (px * (px + qx) + qx * qx)) + 5real * (a * (px * (py + qy + py)
        + qx * (py + qy + qy))) + 20real * (a * (b * (px + qx))) + 10real * (a * (a * (py + qy)))
        + 30real * (a * (a * (b * 1real)));
    lemma_expand_carried(px, py, qx, qy, a, b, ux, uy, vx, vy);
    assert(carried == 30real * m_a_a_b + 10real * m_a_a_py + 10real * m_a_a_qy + 20real
        * m_a_b_px + 20real * m_a_b_qx + 10real * m_a_px_py + 5real * m_a_px_qy + 5real
        * m_a_py_qx + 10real * m_a_qx_qy + 5real * m_b_px_px + 5real * m_b_px_qx + 5real
        * m_b_qx_qx + 3real * m_px_px_py + m_px_px_qy + 2real * m_px_py_qx + 2real * m_px_qx_qy
        + m_py_qx_qx + 3real * m_qx_qx_qy);
    let n3 = carried - moved;
    assert(n3 == 18real * m_a_a_b + 4real * m_a_a_py + 4real * m_a_a_qy + 8real * m_a_b_px
        + 8real * m_a_b_qx + 2real * m_a_px_py + m_a_px_qy + m_a_py_qx + 2real * m_a_qx_qy
        + m_b_px_px + m_b_px_qx + m_b_qx_qx);
    let movement_weighted = a * (ux * (uy + vy + uy) + vx * (uy + vy + vy) + a * (uy + vy) + b
        * (ux + vx) + 2real * (a * b)) + b * (ux * (ux + vx) + vx * vx + a * (ux + vx + a));
    lemma_expand_movement_weighted(px, py, qx, qy, a, b, ux, uy, vx, vy);
    assert(movement_weighted == 18real * m_a_a_b + 4real * m_a_a_py + 4real * m_a_a_qy + 8real
        * m_a_b_px + 8real * m_a_b_qx + 2real * m_a_px_py + m_a_px_qy + m_a_py_qx + 2real
        * m_a_qx_qy + m_b_px_px + m_b_px_qx + m_b_qx_qx);
    assert(n3 == movement_weighted);
}

/// The cross term of an edge that has moved, by the cross terms that the
/// movement spans with its two ends; and the cross term of the edge times
/// each coordinate of the movement.
pub(crate) proof fn lemma_moved_cross(px: real, py: real, qx: real, qy: real, a: real, b: real,
    ux: real, uy: real, vx: real, vy: real)
    requires
        ux == px + a,
        uy == py + b,
        vx == qx + a,
        vy == qy + b,
    ensures
        ux * vy - vx * uy == px * qy - qx * py + a * vy - vx * b - (a * uy - ux * b),
        (px * qy - qx * py) * a == (a * vy - vx * b) * px - (a * uy - ux * b) * qx,
        (px * qy - qx * py) * b == (a * vy - vx * b) * py - (a * uy - ux * b) * qy,
{
    let m_a_b = a * b;
    let m_a_qy = a * qy;
    let m_b_px = b * px;
    let m_px_qy = px * qy;
    let m_a_py = a * py;
    let m_b_qx = b * qx;
    let m_py_qx = py * qx;
    let m_a_px_qy = a * (px * qy);
    let m_a_py_qx = a * (py * qx);
    let m_b_px_qx = b * (px * qx);
    let m_b_px_qy = b * (px * qy);
    let m_b_py_qx = b * (py * qx);
    let m_a_py_qy = a * (py * qy);
    let n1 = ux * vy;
    let s2 = a;
    let s3 = s2 + px;
    let s4 = b;
    let s5 = s4 + qy;
    assert(ux == s3);
    assert(vy == s5);
    lemma_times_sum(a, s4, qy);
    lemma_sum_times(s2, px, s5);
    lemma_times_sum(px, s4, qy);
    assert(px * b == m_b_px) by (nonlinear_arith)
        requires
            m_b_px == b * px,
    ;
    assert(n1 == m_a_b + m_a_qy + m_b_px + m_px_qy);
    let n6 = vx * uy;
    let s7 = a;
    let s8 = s7 + qx;
    let s9 = b;
    let s10 = s9 + py;
    assert(vx == s8);
    assert(uy == s10);
    lemma_times_sum(a, s9, py);
    lemma_sum_times(s7, qx, s10);
    lemma_times_sum(qx, s9, py);
    assert(qx * b == m_b_qx) by (nonlinear_arith)
        requires
            m_b_qx == b * qx,
    ;
    assert(qx * py == m_py_qx) by (nonlinear_arith)
        requires
            m_py_qx == py * qx,
    ;
    assert(n6 == m_a_b + m_a_py + m_b_qx + m_py_qx);
    let n11 = n1 - n6;
    assert(n11 == -m_a_py + m_a_qy + m_b_px - m_b_qx + m_px_qy - m_py_qx);
    let n12 = px * qy;
    assert(n12 == m_px_qy);
    let n13 = qx * py;
    assert(n13 == m_py_qx);
    let n14 = n12 - n13;
    assert(n14 == m_px_qy - m_py_qx);
    let n15 = a * vy;
    let s16 = b;
    let s17 = s16 + qy;
    assert(vy == s17);
    lemma_times_sum(a, s16, qy);
    assert(n15 == m_a_b + m_a_qy);
    let n18 = vx * b;
    let s19 = a;
    let s20 = s19 + qx;
    assert(vx == s20);
    lemma_sum_times(s19, qx, b);
    assert(n18 == m_a_b + m_b_qx);
    let n21 = n15 - n18;
    assert(n21 == m_a_qy - m_b_qx);
    let n22 = n14 + n21;
    assert(n22 == m_a_qy - m_b_qx + m_px_qy - m_py_qx);
    let n23 = a * uy;
    let s24 = b;
    let s25 = s24 + py;
    assert(uy == s25);
    lemma_times_sum(a, s24, py);
    assert(n23 == m_a_b + m_a_py);
    let n26 = ux * b;
    let s27 = a;
    let s28 = s27 + px;
    assert(ux == s28);
    lemma_sum_times(s27, px, b);
    assert(n26 == m_a_b + m_b_px);
    let n29 = n23 - n26;
    assert(n29 == m_a_py - m_b_px);
    let n30 = n22 - n29;
    assert(n30 == -m_a_py + m_a_qy + m_b_px - m_b_qx + m_px_qy - m_py_qx);
    assert(n11 == n30);
    let n31 = n14 * a;
    let s32 = m_px_qy;
    let s33 = s32 - m_py_qx;
    assert(n14 == s33);
    lemma_sum_times(s32, m_py_qx, a);
    assert(m_px_qy * a == m_a_px_qy) by (nonlinear_arith)
        requires
            m_px_qy == px * qy,
            m_a_px_qy == a * (px * qy),
    ;
    assert(m_py_qx * a == m_a_py_qx) by (nonlinear_arith)
        requires
            m_py_qx == py * qx,
            m_a_py_qx == a * (py * qx),
    ;
    assert(n31 == m_a_px_qy - m_a_py_qx);
    let n34 = n21 * px;
    let s35 = m_a_qy;
    let s36 = s35 - m_b_qx;
    assert(n21 == s36);
    lemma_sum_times(s35, m_b_qx, px);
    assert(m_a_qy * px == m_a_px_qy) by (nonlinear_arith)
        requires
            m_a_qy == a * qy,
            m_a_px_qy == a * (px * qy),
    ;
    assert(m_b_qx * px == m_b_px_qx) by (nonlinear_arith)
        requires
            m_b_qx == b * qx,
            m_b_px_qx == b * (px * qx),
    ;
    assert(n34 == m_a_px_qy - m_b_px_qx);
    let n37 = n29 * qx;
    let s38 = m_a_py;
    let s39 = s38 - m_b_px;
    assert(n29 == s39);
    lemma_sum_times(s38, m_b_px, qx);
    assert(m_a_py * qx == m_a_py_qx) by (nonlinear_arith)
        requires
            m_a_py == a * py,
            m_a_py_qx == a * (py * qx),
    ;
    assert(m_b_px * qx == m_b_px_qx) by (nonlinear_arith)
        requires
            m_b_px == b * px,
            m_b_px_qx == b * (px * qx),
    ;
    assert(n37 == m_a_py_qx - m_b_px_qx);
    let n40 = n34 - n37;
    assert(n40 == m_a_px_qy - m_a_py_qx);
    assert(n31 == n40);
    let n41 = n14 * b;
    let s42 = m_px_qy;
    let s43 = s42 - m_py_qx;
    assert(n14 == s43);
    lemma_sum_times(s42, m_py_qx, b);
    assert(m_px_qy * b == m_b_px_qy) by (nonlinear_arith)
        requires
            m_px_qy == px * qy,
            m_b_px_qy == b * (px * qy),
    ;
    assert(m_py_qx * b == m_b_py_qx) by (nonlinear_arith)
        requires
            m_py_qx == py * qx,
            m_b_py_qx == b * (py * qx),
    ;
    assert(n41 == m_b_px_qy - m_b_py_qx);
    let n44 = n21 * py;
    let s45 = m_a_qy;
    let s46 = s45 - m_b_qx;
    assert(n21 == s46);
    lemma_sum_times(s45, m_b_qx, py);
    assert(m_a_qy * py == m_a_py_qy) by (nonlinear_arith)
        requires
            m_a_qy == a * qy,
            m_a_py_qy == a * (py * qy),
    ;
    assert(m_b_qx * py == m_b_py_qx) by (nonlinear_arith)
        requires
            m_b_qx == b * qx,
            m_b_py_qx == b * (py * qx),
    ;
    assert(n44 == m_a_py_qy - m_b_py_qx);
    let n47 = n29 * qy;
    let s48 = m_a_py;
    let s49 = s48 - m_b_px;
    assert(n29 == s49);
    lemma_sum_times(s48, m_b_px, qy);
    assert(m_a_py * qy == m_a_py_qy) by (nonlinear_arith)
        requires
            m_a_py == a * py,
            m_a_py_qy == a * (py * qy),
    ;
    assert(m_b_px * qy == m_b_px_qy) by (nonlinear_arith)
        requires
            m_b_px == b * px,
            m_b_px_qy == b * (px * qy),
    ;
    assert(n47 == m_a_py_qy - m_b_px_qy);
    let n50 = n44 - n47;
    assert(n50 == m_b_px_qy - m_b_py_qx);
    assert(n41 == n50);
}

/// What a movement carries into the sum of first degree, for one
/// edge: the cross term `d` of the edge may be taken out of it.
pub(crate) proof fn lemma_carried_edge_first(d: real, a: real, t10: real, t00: real)
    ensures
        d * t10 + 3real * (a * (d * t00)) == d * (t10 + 3real * (a * t00)),
{
    let m_d_t10 = d * t10;
    let m_d_t00 = d * t00;
    let m_a_d_t00 = a * (d * t00);
    let m_a_t00 = a * t00;
    let n1 = d * t10;
    assert(n1 == m_d_t10);
    let n2 = d * t00;
    assert(n2 == m_d_t00);
    let n3 = a * n2;
    assert(n2 == m_d_t00);
    assert(a * m_d_t00 == m_a_d_t00) by (nonlinear_arith)
        requires
            m_d_t00 == d * t00,
            m_a_d_t00 == a * (d * t00),
    ;
    assert(n3 == m_a_d_t00);
    let n4 = 3real * n3;
    assert(n4 == 3real * m_a_d_t00);
    let n5 = n1 + n4;
    assert(n5 == m_d_t10 + 3real * m_a_d_t00);
    let n6 = a * t00;
    assert(n6 == m_a_t00);
    let n7 = 3real * n6;
    assert(n7 == 3real * m_a_t00);
    let n8 = t10 + n7;
    assert(n8 == t10 + 3real * m_a_t00);
    let n9 = d * n8;
    let s10 = t10;
    let s11 = s10 + 3real * m_a_t00;
    assert(n8 == s11);
    lemma_times_sum(d, s10, 3real * m_a_t00);
    lemma_times_scaled(d, 3real, m_a_t00);
    assert(d * m_a_t00 == m_a_d_t00) by (nonlinear_arith)
        requires
            m_a_t00 == a * t00,
            m_a_d_t00 == a * (d * t00),
    ;
    assert(n9 == m_d_t10 + 3real * m_a_d_t00);
    assert(n5 == n9);
}

/// What a movement carries into the sum of first degree is additive in
/// the sums.
pub(crate) proof fn lemma_carried_sum_first(a: real, e10: real, e00: real, g10: real, g00: real)
    ensures
        e10 + g10 + 3real * (a * (e00 + g00)) == e10 + 3real * (a * e00) + g10 + 3real * (a * g00),
{
    let m_a_e00 = a * e00;
    let m_a_g00 = a * g00;
    let n1 = e10 + g10;
    assert(n1 == e10 + g10);
    let n2 = e00 + g00;
    assert(n2 == e00 + g00);
    let n3 = a * n2;
    let s4 = e00;
    let s5 = s4 + g00;
    assert(n2 == s5);
    lemma_times_sum(a, s4, g00);
    assert(n3 == m_a_e00 + m_a_g00);
    let n6 = 3real * n3;
    assert(n6 == 3real * m_a_e00 + 3real * m_a_g00);
    let n7 = n1 + n6;
    assert(n7 == e10 + g10 + 3real * m_a_e00 + 3real * m_a_g00);
    let n8 = a * e00;
    assert(n8 == m_a_e00);
    let n9 = 3real * n8;
    assert(n9 == 3real * m_a_e00);
    let n10 = e10 + n9;
    assert(n10 == e10 + 3real * m_a_e00);
    let n11 = a * g00;
    assert(n11 == m_a_g00);
    let n12 = 3real * n11;
    assert(n12 == 3real * m_a_g00);
    let n13 = g10 + n12;
    assert(n13 == g10 + 3real * m_a_g00);
    let n14 = n10 + n13;
    assert(n14 == e10 + g10 + 3real * m_a_e00 + 3real * m_a_g00);
    assert(n7 == n14);
}

/// What a movement carries into the sum of first degree, times the share
/// of that sum, is the moment after the movement: `h` names the shares.
pub(crate) proof fn lemma_carried_share_first(a: real, e10: real, e00: real, h10: real, h00: real)
    requires
        h00 == 3real * h10,
    ensures
        (e10 + 3real * (a * e00)) * h10 == e10 * h10 + a * (e00 * h00),
{
    let m_a_e00 = a * e00;
    let m_h10_e10 = h10 * e10;
    let m_a_h10_e00 = a * (h10 * e00);
    let m_h10_e00 = h10 * e00;
    let n1 = a * e00;
    assert(n1 == m_a_e00);
    let n2 = 3real * n1;
    assert(n2 == 3real * m_a_e00);
    let n3 = e10 + n2;
    assert(n3 == e10 + 3real * m_a_e00);
    let n4 = n3 * h10;
    let s5 = e10;
    let s6 = s5 + 3real * m_a_e00;
    assert(n3 == s6);
    lemma_sum_times(s5, 3real * m_a_e00, h10);
    lemma_scaled_times(3real, m_a_e00, h10);
    assert(e10 * h10 == m_h10_e10) by (nonlinear_arith)
        requires
            m_h10_e10 == h10 * e10,
    ;
    assert(m_a_e00 * h10 == m_a_h10_e00) by (nonlinear_arith)
        requires
            m_a_e00 == a * e00,
            m_a_h10_e00 == a * (h10 * e00),
    ;
    assert(n4 == m_h10_e10 + 3real * m_a_h10_e00);
    let n7 = e10 * h10;
    assert(n7 == m_h10_e10);
    let n8 = e00 * h00;
    let s9 = 3real * h10;
    assert(h00 == s9);
    lemma_times_scaled(e00, 3real, h10);
    assert(e00 * h10 == m_h10_e00) by (nonlinear_arith)
        requires
            m_h10_e00 == h10 * e00,
    ;
    assert(n8 == 3real * m_h10_e00);
    let n10 = a * n8;
    let s11 = 3real * m_h10_e00;
    assert(n8 == s11);
    lemma_times_scaled(a, 3real, m_h10_e00);
    assert(a * m_h10_e00 == m_a_h10_e00) by (nonlinear_arith)
        requires
            m_h10_e00 == h10 * e00,
            m_a_h10_e00 == a * (h10 * e00),
    ;
    assert(n10 == 3real * m_a_h10_e00);
    let n12 = n7 + n10;
    assert(n12 == m_h10_e10 + 3real * m_a_h10_e00);
    assert(n4 == n12);
}

/// What a movement carries into the sum of second degree along one axis, for one
/// edge: the cross term `d` of the edge may be taken out of it.
pub(crate) proof fn lemma_carried_edge_second(d: real, a: real, t20: real, t10: real, t00: real)
    ensures
        d * t20 + 4real * (a * (d * t10)) + 6real * (a * (a * (d * t00))) == d * (t20 + 4real
            * (a * t10) + 6real * (a * (a * t00))),
{
    let m_d_t20 = d * t20;
    let m_d_t10 = d * t10;
    let m_a_d_t10 = a * (d * t10);
    let m_d_t00 = d * t00;
    let m_a_d_t00 = a * (d * t00);
    let m_a_a_d_t00 = a * (a * (d * t00));
    let m_a_t10 = a * t10;
    let m_a_t00 = a * t00;
    let m_a_a_t00 = a * (a * t00);
    let n1 = d * t20;
    assert(n1 == m_d_t20);
    let n2 = d * t10;
    assert(n2 == m_d_t10);
    let n3 = a * n2;
    assert(n2 == m_d_t10);
    assert(a * m_d_t10 == m_a_d_t10) by (nonlinear_arith)
        requires
            m_d_t10 == d * t10,
            m_a_d_t10 == a * (d * t10),
    ;
    assert(n3 == m_a_d_t10);
    let n4 = 4real * n3;
    assert(n4 == 4real * m_a_d_t10);
    let n5 = n1 + n4;
    assert(n5 == m_d_t20 + 4real * m_a_d_t10);
    let n6 = d * t00;
    assert(n6 == m_d_t00);
    let n7 = a * n6;
    assert(n6 == m_d_t00);
    assert(a * m_d_t00 == m_a_d_t00) by (nonlinear_arith)
        requires
            m_d_t00 == d * t00,
            m_a_d_t00 == a * (d * t00),
    ;
    assert(n7 == m_a_d_t00);
    let n8 = a * n7;
    assert(n7 == m_a_d_t00);
    assert(a * m_a_d_t00 == m_a_a_d_t00) by (nonlinear_arith)
        requires
            m_a_d_t00 == a * (d * t00),
            m_a_a_d_t00 == a * (a * (d * t00)),
    ;
    assert(n8 == m_a_a_d_t00);
    let n9 = 6real * n8;
    assert(n9 == 6real * m_a_a_d_t00);
    let n10 = n5 + n9;
    assert(n10 == m_d_t20 + 4real * m_a_d_t10 + 6real * m_a_a_d_t00);
    let n11 = a * t10;
    assert(n11 == m_a_t10);
    let n12 = 4real * n11;
    assert(n12 == 4real * m_a_t10);
    let n13 = t20 + n12;
    assert(n13 == t20 + 4real * m_a_t10);
    let n14 = a * t00;
    assert(n14 == m_a_t00);
    let n15 = a * n14;
    assert(n14 == m_a_t00);
    assert(a * m_a_t00 == m_a_a_t00) by (nonlinear_arith)
        requires
            m_a_t00 == a * t00,
            m_a_a_t00 == a * (a * t00),
    ;
    assert(n15 == m_a_a_t00);
    let n16 = 6real * n15;
    assert(n16 == 6real * m_a_a_t00);
    let n17 = n13 + n16;
    assert(n17 == t20 + 4real * m_a_t10 + 6real * m_a_a_t00);
    let n18 = d * n17;
    let s19 = t20;
    let s20 = s19 + 4real * m_a_t10;
    let s21 = s20 + 6real * m_a_a_t00;
    assert(n17 == s21);
    lemma_times_sum(d, s19, 4real * m_a_t10);
    lemma_times_scaled(d, 4real, m_a_t10);
    lemma_times_sum(d, s20, 6real * m_a_a_t00);
    lemma_times_scaled(d, 6real, m_a_a_t00);
    assert(d * m_a_t10 == m_a_d_t10) by (nonlinear_arith)
        requires
            m_a_t10 == a * t10,
            m_a_d_t10 == a * (d * t10),
    ;
    assert(d * m_a_a_t00 == m_a_a_d_t00) by (nonlinear_arith)
        requires
            m_a_a_t00 == a * (a * t00),
            m_a_a_d_t00 == a * (a * (d * t00)),
    ;
    assert(n18 == m_d_t20 + 4real * m_a_d_t10 + 6real * m_a_a_d_t00);
    assert(n10 == n18);
}

/// What a movement carries into the sum of second degree along one axis is additive in
/// the sums.
pub(crate) proof fn lemma_carried_sum_second(a: real, e20: real, e10: real, e00: real, g20: real,
    g10: real, g00: real)
    ensures
        e20 + g20 + 4real * (a * (e10 + g10)) + 6real * (a * (a * (e00 + g00))) == e20 + 4real
            * (a * e10) + 6real * (a * (a * e00)) + g20 + 4real * (a * g10) + 6real * (a * (a
            * g00)),
{
    let m_a_e10 = a * e10;
    let m_a_g10 = a * g10;
    let m_a_e00 = a * e00;
    let m_a_g00 = a * g00;
    let m_a_a_e00 = a * (a * e00);
    let m_a_a_g00 = a * (a * g00);
    let n1 = e20 + g20;
    assert(n1 == e20 + g20);
    let n2 = e10 + g10;
    assert(n2 == e10 + g10);
    let n3 = a * n2;
    let s4 = e10;
    let s5 = s4 + g10;
    assert(n2 == s5);
    lemma_times_sum(a, s4, g10);
    assert(n3 == m_a_e10 + m_a_g10);
    let n6 = 4real * n3;
    assert(n6 == 4real * m_a_e10 + 4real * m_a_g10);
    let n7 = n1 + n6;
    assert(n7 == e20 + g20 + 4real * m_a_e10 + 4real * m_a_g10);
    let n8 = e00 + g00;
    assert(n8 == e00 + g00);
    let n9 = a * n8;
    let s10 = e00;
    let s11 = s10 + g00;
    assert(n8 == s11);
    lemma_times_sum(a, s10, g00);
    assert(n9 == m_a_e00 + m_a_g00);
    let n12 = a * n9;
    let s13 = m_a_e00;
    let s14 = s13 + m_a_g00;
    assert(n9 == s14);
    lemma_times_sum(a, s13, m_a_g00);
    assert(a * m_a_e00 == m_a_a_e00) by (nonlinear_arith)
        requires
            m_a_e00 == a * e00,
            m_a_a_e00 == a * (a * e00),
    ;
    assert(a * m_a_g00 == m_a_a_g00) by (nonlinear_arith)
        requires
            m_a_g00 == a * g00,
            m_a_a_g00 == a * (a * g00),
    ;
    assert(n12 == m_a_a_e00 + m_a_a_g00);
    let n15 = 6real * n12;
    assert(n15 == 6real * m_a_a_e00 + 6real * m_a_a_g00);
    let n16 = n7 + n15;
    assert(n16 == e20 + g20 + 4real * m_a_e10 + 4real * m_a_g10 + 6real * m_a_a_e00 + 6real
        * m_a_a_g00);
    let n17 = a * e10;
    assert(n17 == m_a_e10);
    let n18 = 4real * n17;
    assert(n18 == 4real * m_a_e10);
    let n19 = e20 + n18;
    assert(n19 == e20 + 4real * m_a_e10);
    let n20 = a * e00;
    assert(n20 == m_a_e00);
    let n21 = a * n20;
    assert(n20 == m_a_e00);
    assert(n21 == m_a_a_e00);
    let n22 = 6real * n21;
    assert(n22 == 6real * m_a_a_e00);
    let n23 = n19 + n22;
    assert(n23 == e20 + 4real * m_a_e10 + 6real * m_a_a_e00);
    let n24 = a * g10;
    assert(n24 == m_a_g10);
    let n25 = 4real * n24;
    assert(n25 == 4real * m_a_g10);
    let n26 = g20 + n25;
    assert(n26 == g20 + 4real * m_a_g10);
    let n27 = a * g00;
    assert(n27 == m_a_g00);
    let n28 = a * n27;
    assert(n27 == m_a_g00);
    assert(n28 == m_a_a_g00);
    let n29 = 6real * n28;
    assert(n29 == 6real * m_a_a_g00);
    let n30 = n26 + n29;
    assert(n30 == g20 + 4real * m_a_g10 + 6real * m_a_a_g00);
    let n31 = n23 + n30;
    assert(n31 == e20 + g20 + 4real * m_a_e10 + 4real * m_a_g10 + 6real * m_a_a_e00 + 6real
        * m_a_a_g00);
    assert(n16 == n31);
}

/// What a movement carries into the sum of second degree along one axis, times the share
/// of that sum, is the moment after the movement: `h` names the shares.
pub(crate) proof fn lemma_carried_share_second(a: real, e20: real, e10: real, e00: real, h20: real,
    h10: real, h00: real)
    requires
        h10 == 2real * h20,
        h00 == 6real * h20,
    ensures
        (e20 + 4real * (a * e10) + 6real * (a * (a * e00))) * h20 == e20 * h20 + 2real * (a
            * (e10 * h10)) + a * (a * (e00 * h00)),
{
    let m_a_e10 = a * e10;
    let m_a_e00 = a * e00;
    let m_a_a_e00 = a * (a * e00);
    let m_h20_e20 = h20 * e20;
    let m_a_h20_e10 = a * (h20 * e10);
    let m_a_a_h20_e00 = a * (a * (h20 * e00));
    let m_h20_e10 = h20 * e10;
    let m_h20_e00 = h20 * e00;
    let m_a_h20_e00 = a * (h20 * e00);
    let n1 = a * e10;
    assert(n1 == m_a_e10);
    let n2 = 4real * n1;
    assert(n2 == 4real * m_a_e10);
    let n3 = e20 + n2;
    assert(n3 == e20 + 4real * m_a_e10);
    let n4 = a * e00;
    assert(n4 == m_a_e00);
    let n5 = a * n4;
    assert(n4 == m_a_e00);
    assert(a * m_a_e00 == m_a_a_e00) by (nonlinear_arith)
        requires
            m_a_e00 == a * e00,
            m_a_a_e00 == a * (a * e00),
    ;
    assert(n5 == m_a_a_e00);
    let n6 = 6real * n5;
    assert(n6 == 6real * m_a_a_e00);
    let n7 = n3 + n6;
    assert(n7 == e20 + 4real * m_a_e10 + 6real * m_a_a_e00);
    let n8 = n7 * h20;
    let s9 = e20;
    let s10 = s9 + 4real * m_a_e10;
    let s11 = s10 + 6real * m_a_a_e00;
    assert(n7 == s11);
    lemma_sum_times(s9, 4real * m_a_e10, h20);
    lemma_scaled_times(4real, m_a_e10, h20);
    lemma_sum_times(s10, 6real * m_a_a_e00, h20);
    lemma_scaled_times(6real, m_a_a_e00, h20);
    assert(e20 * h20 == m_h20_e20) by (nonlinear_arith)
        requires
            m_h20_e20 == h20 * e20,
    ;
    assert(m_a_e10 * h20 == m_a_h20_e10) by (nonlinear_arith)
        requires
            m_a_e10 == a * e10,
            m_a_h20_e10 == a * (h20 * e10),
    ;
    assert(m_a_a_e00 * h20 == m_a_a_h20_e00) by (nonlinear_arith)
        requires
            m_a_a_e00 == a * (a * e00),
            m_a_a_h20_e00 == a * (a * (h20 * e00)),
    ;
    assert(n8 == m_h20_e20 + 4real * m_a_h20_e10 + 6real * m_a_a_h20_e00);
    let n12 = e20 * h20;
    assert(n12 == m_h20_e20);
    let n13 = e10 * h10;
    let s14 = 2real * h20;
    assert(h10 == s14);
    lemma_times_scaled(e10, 2real, h20);
    assert(e10 * h20 == m_h20_e10) by (nonlinear_arith)
        requires
            m_h20_e10 == h20 * e10,
    ;
    assert(n13 == 2real * m_h20_e10);
    let n15 = a * n13;
    let s16 = 2real * m_h20_e10;
    assert(n13 == s16);
    lemma_times_scaled(a, 2real, m_h20_e10);
    assert(a * m_h20_e10 == m_a_h20_e10) by (nonlinear_arith)
        requires
            m_h20_e10 == h20 * e10,
            m_a_h20_e10 == a * (h20 * e10),
    ;
    assert(n15 == 2real * m_a_h20_e10);
    let n17 = 2real * n15;
    assert(n17 == 4real * m_a_h20_e10);
    let n18 = n12 + n17;
    assert(n18 == m_h20_e20 + 4real * m_a_h20_e10);
    let n19 = e00 * h00;
    let s20 = 6real * h20;
    assert(h00 == s20);
    lemma_times_scaled(e00, 6real, h20);
    assert(e00 * h20 == m_h20_e00) by (nonlinear_arith)
        requires
            m_h20_e00 == h20 * e00,
    ;
    assert(n19 == 6real * m_h20_e00);
    let n21 = a * n19;
    let s22 = 6real * m_h20_e00;
    assert(n19 == s22);
    lemma_times_scaled(a, 6real, m_h20_e00);
    assert(a * m_h20_e00 == m_a_h20_e00) by (nonlinear_arith)
        requires
            m_h20_e00 == h20 * e00,
            m_a_h20_e00 == a * (h20 * e00),
    ;
    assert(n21 == 6real * m_a_h20_e00);
    let n23 = a * n21;
    let s24 = 6real * m_a_h20_e00;
    assert(n21 == s24);
    lemma_times_scaled(a, 6real, m_a_h20_e00);
    assert(a * m_a_h20_e00 == m_a_a_h20_e00) by (nonlinear_arith)
        requires
            m_a_h20_e00 == a * (h20 * e00),
            m_a_a_h20_e00 == a * (a * (h20 * e00)),
    ;
    assert(n23 == 6real * m_a_a_h20_e00);
    let n25 = n18 + n23;
    assert(n25 == m_h20_e20 + 4real * m_a_h20_e10 + 6real * m_a_a_h20_e00);
    assert(n8 == n25);
}

/// What a movement carries into the sum of mixed second degree, for one
/// edge: the cross term `d` of the edge may be taken out of it.
pub(crate) proof fn lemma_carried_edge_mixed_second(d: real, a: real, b: real, t11: real,
    t10: real, t01: real, t00: real)
    ensures
        d * t11 + 4real * (b * (d * t10)) + 4real * (a * (d * t01)) + 12real * (a * (b * (d
            * t00))) == d * (t11 + 4real * (b * t10) + 4real * (a * t01) + 12real * (a * (b
            * t00))),
{
    let m_d_t11 = d * t11;
    let m_d_t10 = d * t10;
    let m_b_d_t10 = b * (d * t10);
    let m_d_t01 = d * t01;
    let m_a_d_t01 = a * (d * t01);
    let m_d_t00 = d * t00;
    let m_b_d_t00 = b * (d * t00);
    let m_a_b_d_t00 = a * (b * (d * t00));
    let m_b_t10 = b * t10;
    let m_a_t01 = a * t01;
    let m_b_t00 = b * t00;
    let m_a_b_t00 = a * (b * t00);
    let n1 = d * t11;
    assert(n1 == m_d_t11);
    let n2 = d * t10;
    assert(n2 == m_d_t10);
    let n3 = b * n2;
    assert(n2 == m_d_t10);
    assert(b * m_d_t10 == m_b_d_t10) by (nonlinear_arith)
        requires
            m_d_t10 == d * t10,
            m_b_d_t10 == b * (d * t10),
    ;
    assert(n3 == m_b_d_t10);
    let n4 = 4real * n3;
    assert(n4 == 4real * m_b_d_t10);
    let n5 = n1 + n4;
    assert(n5 == m_d_t11 + 4real * m_b_d_t10);
    let n6 = d * t01;
    assert(n6 == m_d_t01);
    let n7 = a * n6;
    assert(n6 == m_d_t01);
    assert(a * m_d_t01 == m_a_d_t01) by (nonlinear_arith)
        requires
            m_d_t01 == d * t01,
            m_a_d_t01 == a * (d * t01),
    ;
    assert(n7 == m_a_d_t01);
    let n8 = 4real * n7;
    assert(n8 == 4real * m_a_d_t01);
    let n9 = n5 + n8;
    assert(n9 == m_d_t11 + 4real * m_a_d_t01 + 4real * m_b_d_t10);
    let n10 = d * t00;
    assert(n10 == m_d_t00);
    let n11 = b * n10;
    assert(n10 == m_d_t00);
    assert(b * m_d_t00 == m_b_d_t00) by (nonlinear_arith)
        requires
            m_d_t00 == d * t00,
            m_b_d_t00 == b * (d * t00),
    ;
    assert(n11 == m_b_d_t00);
    let n12 = a * n11;
    assert(n11 == m_b_d_t00);
    assert(a * m_b_d_t00 == m_a_b_d_t00) by (nonlinear_arith)
        requires
            m_b_d_t00 == b * (d * t00),
            m_a_b_d_t00 == a * (b * (d * t00)),
    ;
    assert(n12 == m_a_b_d_t00);
    let n13 = 12real * n12;
    assert(n13 == 12real * m_a_b_d_t00);
    let n14 = n9 + n13;
    assert(n14 == m_d_t11 + 4real * m_a_d_t01 + 4real * m_b_d_t10 + 12real * m_a_b_d_t00);
    let n15 = b * t10;
    assert(n15 == m_b_t10);
    let n16 = 4real * n15;
    assert(n16 == 4real * m_b_t10);
    let n17 = t11 + n16;
    assert(n17 == t11 + 4real * m_b_t10);
    let n18 = a * t01;
    assert(n18 == m_a_t01);
    let n19 = 4real * n18;
    assert(n19 == 4real * m_a_t01);
    let n20 = n17 + n19;
    assert(n20 == t11 + 4real * m_a_t01 + 4real * m_b_t10);
    let n21 = b * t00;
    assert(n21 == m_b_t00);
    let n22 = a * n21;
    assert(n21 == m_b_t00);
    assert(a * m_b_t00 == m_a_b_t00) by (nonlinear_arith)
        requires
            m_b_t00 == b * t00,
            m_a_b_t00 == a * (b * t00),
    ;
    assert(n22 == m_a_b_t00);
    let n23 = 12real * n22;
    assert(n23 == 12real * m_a_b_t00);
    let n24 = n20 + n23;
    assert(n24 == t11 + 4real * m_a_t01 + 4real * m_b_t10 + 12real * m_a_b_t00);
    let n25 = d * n24;
    let s26 = t11;
    let s27 = s26 + 4real * m_a_t01;
    let s28 = s27 + 4real * m_b_t10;
    let s29 = s28 + 12real * m_a_b_t00;
    assert(n24 == s29);
    lemma_times_sum(d, s26, 4real * m_a_t01);
    lemma_times_scaled(d, 4real, m_a_t01);
    lemma_times_sum(d, s27, 4real * m_b_t10);
    lemma_times_scaled(d, 4real, m_b_t10);
    lemma_times_sum(d, s28, 12real * m_a_b_t00);
    lemma_times_scaled(d, 12real, m_a_b_t00);
    assert(d * m_a_t01 == m_a_d_t01) by (nonlinear_arith)
        requires
            m_a_t01 == a * t01,
            m_a_d_t01 == a * (d * t01),
    ;
    assert(d * m_b_t10 == m_b_d_t10) by (nonlinear_arith)
        requires
            m_b_t10 == b * t10,
            m_b_d_t10 == b * (d * t10),
    ;
    assert(d * m_a_b_t00 == m_a_b_d_t00) by (nonlinear_arith)
        requires
            m_a_b_t00 == a * (b * t00),
            m_a_b_d_t00 == a * (b * (d * t00)),
    ;
    assert(n25 == m_d_t11 + 4real * m_a_d_t01 + 4real * m_b_d_t10 + 12real * m_a_b_d_t00);
    assert(n14 == n25);
}

/// What a movement carries into the sum of mixed second degree is additive in
/// the sums.
pub(crate) proof fn lemma_carried_sum_mixed_second(a: real, b: real, e11: real, e10: real,
    e01: real, e00: real, g11: real, g10: real, g01: real, g00: real)
    ensures
        e11 + g11 + 4real * (b * (e10 + g10)) + 4real * (a * (e01 + g01)) + 12real * (a * (b
            * (e00 + g00))) == e11 + 4real * (b * e10) + 4real * (a * e01) + 12real * (a * (b
            * e00)) + g11 + 4real * (b * g10) + 4real * (a * g01) + 12real * (a * (b * g00)),
{
    let m_b_e10 = b * e10;
    let m_b_g10 = b * g10;
    let m_a_e01 = a * e01;
    let m_a_g01 = a * g01;
    let m_b_e00 = b * e00;
    let m_b_g00 = b * g00;
    let m_a_b_e00 = a * (b * e00);
    let m_a_b_g00 = a * (b * g00);
    let n1 = e11 + g11;
    assert(n1 == e11 + g11);
    let n2 = e10 + g10;
    assert(n2 == e10 + g10);
    let n3 = b * n2;
    let s4 = e10;
    let s5 = s4 + g10;
    assert(n2 == s5);
    lemma_times_sum(b, s4, g10);
    assert(n3 == m_b_e10 + m_b_g10);
    let n6 = 4real * n3;
    assert(n6 == 4real * m_b_e10 + 4real * m_b_g10);
    let n7 = n1 + n6;
    assert(n7 == e11 + g11 + 4real * m_b_e10 + 4real * m_b_g10);
    let n8 = e01 + g01;
    assert(n8 == e01 + g01);
    let n9 = a * n8;
    let s10 = e01;
    let s11 = s10 + g01;
    assert(n8 == s11);
    lemma_times_sum(a, s10, g01);
    assert(n9 == m_a_e01 + m_a_g01);
    let n12 = 4real * n9;
    assert(n12 == 4real * m_a_e01 + 4real * m_a_g01);
    let n13 = n7 + n12;
    assert(n13 == e11 + g11 + 4real * m_a_e01 + 4real * m_a_g01 + 4real * m_b_e10 + 4real
        * m_b_g10);
    let n14 = e00 + g00;
    assert(n14 == e00 + g00);
    let n15 = b * n14;
    let s16 = e00;
    let s17 = s16 + g00;
    assert(n14 == s17);
    lemma_times_sum(b, s16, g00);
    assert(n15 == m_b_e00 + m_b_g00);
    let n18 = a * n15;
    let s19 = m_b_e00;
    let s20 = s19 + m_b_g00;
    assert(n15 == s20);
    lemma_times_sum(a, s19, m_b_g00);
    assert(a * m_b_e00 == m_a_b_e00) by (nonlinear_arith)
        requires
            m_b_e00 == b * e00,
            m_a_b_e00 == a * (b * e00),
    ;
    assert(a * m_b_g00 == m_a_b_g00) by (nonlinear_arith)
        requires
            m_b_g00 == b * g00,
            m_a_b_g00 == a * (b * g00),
    ;
    assert(n18 == m_a_b_e00 + m_a_b_g00);
    let n21 = 12real * n18;
    assert(n21 == 12real * m_a_b_e00 + 12real * m_a_b_g00);
    let n22 = n13 + n21;
    assert(n22 == e11 + g11 + 4real * m_a_e01 + 4real * m_a_g01 + 4real * m_b_e10 + 4real
        * m_b_g10 + 12real * m_a_b_e00 + 12real * m_a_b_g00);
    let n23 = b * e10;
    assert(n23 == m_b_e10);
    let n24 = 4real * n23;
    assert(n24 == 4real * m_b_e10);
    let n25 = e11 + n24;
    assert(n25 == e11 + 4real * m_b_e10);
    let n26 = a * e01;
    assert(n26 == m_a_e01);
    let n27 = 4real * n26;
    assert(n27 == 4real * m_a_e01);
    let n28 = n25 + n27;
    assert(n28 == e11 + 4real * m_a_e01 + 4real * m_b_e10);
    let n29 = b * e00;
    assert(n29 == m_b_e00);
    let n30 = a * n29;
    assert(n29 == m_b_e00);
    assert(n30 == m_a_b_e00);
    let n31 = 12real * n30;
    assert(n31 == 12real * m_a_b_e00);
    let n32 = n28 + n31;
    assert(n32 == e11 + 4real * m_a_e01 + 4real * m_b_e10 + 12real * m_a_b_e00);
    let n33 = b * g10;
    assert(n33 == m_b_g10);
    let n34 = 4real * n33;
    assert(n34 == 4real * m_b_g10);
    let n35 = g11 + n34;
    assert(n35 == g11 + 4real * m_b_g10);
    let n36 = a * g01;
    assert(n36 == m_a_g01);
    let n37 = 4real * n36;
    assert(n37 == 4real * m_a_g01);
    let n38 = n35 + n37;
    assert(n38 == g11 + 4real * m_a_g01 + 4real * m_b_g10);
    let n39 = b * g00;
    assert(n39 == m_b_g00);
    let n40 = a * n39;
    assert(n39 == m_b_g00);
    assert(n40 == m_a_b_g00);
    let n41 = 12real * n40;
    assert(n41 == 12real * m_a_b_g00);
    let n42 = n38 + n41;
    assert(n42 == g11 + 4real * m_a_g01 + 4real * m_b_g10 + 12real * m_a_b_g00);
    let n43 = n32 + n42;
    assert(n43 == e11 + g11 + 4real * m_a_e01 + 4real * m_a_g01 + 4real * m_b_e10 + 4real
        * m_b_g10 + 12real * m_a_b_e00 + 12real * m_a_b_g00);
    assert(n22 == n43);
}

/// What a movement carries into the sum of mixed second degree, times the share
/// of that sum, is the moment after the movement: `h` names the shares.
pub(crate) proof fn lemma_carried_share_mixed_second(a: real, b: real, e11: real, e10: real,
    e01: real, e00: real, h11: real, h10: real, h01: real, h00: real)
    requires
        h10 == 4real * h11,
        h01 == 4real * h11,
        h00 == 12real * h11,
    ensures
        (e11 + 4real * (b * e10) + 4real * (a * e01) + 12real * (a * (b * e00))) * h11 == e11
            * h11 + a * (e01 * h01) + b * (e10 * h10) + a * (b * (e00 * h00)),
{
    let m_b_e10 = b * e10;
    let m_a_e01 = a * e01;
    let m_b_e00 = b * e00;
    let m_a_b_e00 = a * (b * e00);
    let m_h11_e11 = h11 * e11;
    let m_a_h11_e01 = a * (h11 * e01);
    let m_b_h11_e10 = b * (h11 * e10);
    let m_a_b_h11_e00 = a * (b * (h11 * e00));
    let m_h11_e01 = h11 * e01;
    let m_h11_e10 = h11 * e10;
    let m_h11_e00 = h11 * e00;
    let m_b_h11_e00 = b * (h11 * e00);
    let n1 = b * e10;
    assert(n1 == m_b_e10);
    let n2 = 4real * n1;
    assert(n2 == 4real * m_b_e10);
    let n3 = e11 + n2;
    assert(n3 == e11 + 4real * m_b_e10);
    let n4 = a * e01;
    assert(n4 == m_a_e01);
    let n5 = 4real * n4;
    assert(n5 == 4real * m_a_e01);
    let n6 = n3 + n5;
    assert(n6 == e11 + 4real * m_a_e01 + 4real * m_b_e10);
    let n7 = b * e00;
    assert(n7 == m_b_e00);
    let n8 = a * n7;
    assert(n7 == m_b_e00);
    assert(a * m_b_e00 == m_a_b_e00) by (nonlinear_arith)
        requires
            m_b_e00 == b * e00,
            m_a_b_e00 == a * (b * e00),
    ;
    assert(n8 == m_a_b_e00);
    let n9 = 12real * n8;
    assert(n9 == 12real * m_a_b_e00);
    let n10 = n6 + n9;
    assert(n10 == e11 + 4real * m_a_e01 + 4real * m_b_e10 + 12real * m_a_b_e00);
    let n11 = n10 * h11;
    let s12 = e11;
    let s13 = s12 + 4real * m_a_e01;
    let s14 = s13 + 4real * m_b_e10;
    let s15 = s14 + 12real * m_a_b_e00;
    assert(n10 == s15);
    lemma_sum_times(s12, 4real * m_a_e01, h11);
    lemma_scaled_times(4real, m_a_e01, h11);
    lemma_sum_times(s13, 4real * m_b_e10, h11);
    lemma_scaled_times(4real, m_b_e10, h11);
    lemma_sum_times(s14, 12real * m_a_b_e00, h11);
    lemma_scaled_times(12real, m_a_b_e00, h11);
    assert(e11 * h11 == m_h11_e11) by (nonlinear_arith)
        requires
            m_h11_e11 == h11 * e11,
    ;
    assert(m_a_e01 * h11 == m_a_h11_e01) by (nonlinear_arith)
        requires
            m_a_e01 == a * e01,
            m_a_h11_e01 == a * (h11 * e01),
    ;
    assert(m_b_e10 * h11 == m_b_h11_e10) by (nonlinear_arith)
        requires
            m_b_e10 == b * e10,
            m_b_h11_e10 == b * (h11 * e10),
    ;
    assert(m_a_b_e00 * h11 == m_a_b_h11_e00) by (nonlinear_arith)
        requires
            m_a_b_e00 == a * (b * e00),
            m_a_b_h11_e00 == a * (b * (h11 * e00)),
    ;
    assert(n11 == m_h11_e11 + 4real * m_a_h11_e01 + 4real * m_b_h11_e10 + 12real * m_a_b_h11_e00);
    let n16 = e11 * h11;
    assert(n16 == m_h11_e11);
    let n17 = e01 * h01;
    let s18 = 4real * h11;
    assert(h01 == s18);
    lemma_times_scaled(e01, 4real, h11);
    assert(e01 * h11 == m_h11_e01) by (nonlinear_arith)
        requires
            m_h11_e01 == h11 * e01,
    ;
    assert(n17 == 4real * m_h11_e01);
    let n19 = a * n17;
    let s20 = 4real * m_h11_e01;
    assert(n17 == s20);
    lemma_times_scaled(a, 4real, m_h11_e01);
    assert(a * m_h11_e01 == m_a_h11_e01) by (nonlinear_arith)
        requires
            m_h11_e01 == h11 * e01,
            m_a_h11_e01 == a * (h11 * e01),
    ;
    assert(n19 == 4real * m_a_h11_e01);
    let n21 = n16 + n19;
    assert(n21 == m_h11_e11 + 4real * m_a_h11_e01);
    let n22 = e10 * h10;
    let s23 = 4real * h11;
    assert(h10 == s23);
    lemma_times_scaled(e10, 4real, h11);
    assert(e10 * h11 == m_h11_e10) by (nonlinear_arith)
        requires
            m_h11_e10 == h11 * e10,
    ;
    assert(n22 == 4real * m_h11_e10);
    let n24 = b * n22;
    let s25 = 4real * m_h11_e10;
    assert(n22 == s25);
    lemma_times_scaled(b, 4real, m_h11_e10);
    assert(b * m_h11_e10 == m_b_h11_e10) by (nonlinear_arith)
        requires
            m_h11_e10 == h11 * e10,
            m_b_h11_e10 == b * (h11 * e10),
    ;
    assert(n24 == 4real * m_b_h11_e10);
    let n26 = n21 + n24;
    assert(n26 == m_h11_e11 + 4real * m_a_h11_e01 + 4real * m_b_h11_e10);
    let n27 = e00 * h00;
    let s28 = 12real * h11;
    assert(h00 == s28);
    lemma_times_scaled(e00, 12real, h11);
    assert(e00 * h11 == m_h11_e00) by (nonlinear_arith)
        requires
            m_h11_e00 == h11 * e00,
    ;
    assert(n27 == 12real * m_h11_e00);
    let n29 = b * n27;
    let s30 = 12real * m_h11_e00;
    assert(n27 == s30);
    lemma_times_scaled(b, 12real, m_h11_e00);
    assert(b * m_h11_e00 == m_b_h11_e00) by (nonlinear_arith)
        requires
            m_h11_e00 == h11 * e00,
            m_b_h11_e00 == b * (h11 * e00),
    ;
    assert(n29 == 12real * m_b_h11_e00);
    let n31 = a * n29;
    let s32 = 12real * m_b_h11_e00;
    assert(n29 == s32);
    lemma_times_scaled(a, 12real, m_b_h11_e00);
    assert(a * m_b_h11_e00 == m_a_b_h11_e00) by (nonlinear_arith)
        requires
            m_b_h11_e00 == b * (h11 * e00),
            m_a_b_h11_e00 == a * (b * (h11 * e00)),
    ;
    assert(n31 == 12real * m_a_b_h11_e00);
    let n33 = n26 + n31;
    assert(n33 == m_h11_e11 + 4real * m_a_h11_e01 + 4real * m_b_h11_e10 + 12real * m_a_b_h11_e00);
    assert(n11 == n33);
}

/// What a movement carries into the sum of third degree along one axis, for one
/// edge: the cross term `d` of the edge may be taken out of it.
pub(crate) proof fn lemma_carried_edge_third(d: real, a: real, t30: real, t20: real, t10: real,
    t00: real)
    ensures
        d * t30 + 5real * (a * (d * t20)) + 10real * (a * (a * (d * t10))) + 10real * (a * (a
            * (a * (d * t00)))) == d * (t30 + 5real * (a * t20) + 10real * (a * (a * t10))
            + 10real * (a * (a * (a * t00)))),
{
    let m_d_t30 = d * t30;
    let m_d_t20 = d * t20;
    let m_a_d_t20 = a * (d * t20);
    let m_d_t10 = d * t10;
    let m_a_d_t10 = a * (d * t10);
    let m_a_a_d_t10 = a * (a * (d * t10));
    let m_d_t00 = d * t00;
    let m_a_d_t00 = a * (d * t00);
    let m_a_a_d_t00 = a * (a * (d * t00));
    let m_a_a_a_d_t00 = a * (a * (a * (d * t00)));
    let m_a_t20 = a * t20;
    let m_a_t10 = a * t10;
    let m_a_a_t10 = a * (a * t10);
    let m_a_t00 = a * t00;
    let m_a_a_t00 = a * (a * t00);
    let m_a_a_a_t00 = a * (a * (a * t00));
    let n1 = d * t30;
    assert(n1 == m_d_t30);
    let n2 = d * t20;
    assert(n2 == m_d_t20);
    let n3 = a * n2;
    assert(n2 == m_d_t20);
    assert(a * m_d_t20 == m_a_d_t20) by (nonlinear_arith)
        requires
            m_d_t20 == d * t20,
            m_a_d_t20 == a * (d * t20),
    ;
    assert(n3 == m_a_d_t20);
    let n4 = 5real * n3;
    assert(n4 == 5real * m_a_d_t20);
    let n5 = n1 + n4;
    assert(n5 == m_d_t30 + 5real * m_a_d_t20);
    let n6 = d * t10;
    assert(n6 == m_d_t10);
    let n7 = a * n6;
    assert(n6 == m_d_t10);
    assert(a * m_d_t10 == m_a_d_t10) by (nonlinear_arith)
        requires
            m_d_t10 == d * t10,
            m_a_d_t10 == a * (d * t10),
    ;
    assert(n7 == m_a_d_t10);
    let n8 = a * n7;
    assert(n7 == m_a_d_t10);
    assert(a * m_a_d_t10 == m_a_a_d_t10) by (nonlinear_arith)
        requires
            m_a_d_t10 == a * (d * t10),
            m_a_a_d_t10 == a * (a * (d * t10)),
    ;
    assert(n8 == m_a_a_d_t10);
    let n9 = 10real * n8;
    assert(n9 == 10real * m_a_a_d_t10);
    let n10 = n5 + n9;
    assert(n10 == m_d_t30 + 5real * m_a_d_t20 + 10real * m_a_a_d_t10);
    let n11 = d * t00;
    assert(n11 == m_d_t00);
    let n12 = a * n11;
    assert(n11 == m_d_t00);
    assert(a * m_d_t00 == m_a_d_t00) by (nonlinear_arith)
        requires
            m_d_t00 == d * t00,
            m_a_d_t00 == a * (d * t00),
    ;
    assert(n12 == m_a_d_t00);
    let n13 = a * n12;
    assert(n12 == m_a_d_t00);
    assert(a * m_a_d_t00 == m_a_a_d_t00) by (nonlinear_arith)
        requires
            m_a_d_t00 == a * (d * t00),
            m_a_a_d_t00 == a * (a * (d * t00)),
    ;
    assert(n13 == m_a_a_d_t00);
    let n14 = a * n13;
    assert(n13 == m_a_a_d_t00);
    assert(a * m_a_a_d_t00 == m_a_a_a_d_t00) by (nonlinear_arith)
        requires
            m_a_a_d_t00 == a * (a * (d * t00)),
            m_a_a_a_d_t00 == a * (a * (a * (d * t00))),
    ;
    assert(n14 == m_a_a_a_d_t00);
    let n15 = 10real * n14;
    assert(n15 == 10real * m_a_a_a_d_t00);
    let n16 = n10 + n15;
    assert(n16 == m_d_t30 + 5real * m_a_d_t20 + 10real * m_a_a_d_t10 + 10real * m_a_a_a_d_t00);
    let n17 = a * t20;
    assert(n17 == m_a_t20);
    let n18 = 5real * n17;
    assert(n18 == 5real * m_a_t20);
    let n19 = t30 + n18;
    assert(n19 == t30 + 5real * m_a_t20);
    let n20 = a * t10;
    assert(n20 == m_a_t10);
    let n21 = a * n20;
    assert(n20 == m_a_t10);
    assert(a * m_a_t10 == m_a_a_t10) by (nonlinear_arith)
        requires
            m_a_t10 == a * t10,
            m_a_a_t10 == a * (a * t10),
    ;
    assert(n21 == m_a_a_t10);
    let n22 = 10real * n21;
    assert(n22 == 10real * m_a_a_t10);
    let n23 = n19 + n22;
    assert(n23 == t30 + 5real * m_a_t20 + 10real * m_a_a_t10);
    let n24 = a * t00;
    assert(n24 == m_a_t00);
    let n25 = a * n24;
    assert(n24 == m_a_t00);
    assert(a * m_a_t00 == m_a_a_t00) by (nonlinear_arith)
        requires
            m_a_t00 == a * t00,
            m_a_a_t00 == a * (a * t00),
    ;
    assert(n25 == m_a_a_t00);
    let n26 = a * n25;
    assert(n25 == m_a_a_t00);
    assert(a * m_a_a_t00 == m_a_a_a_t00) by (nonlinear_arith)
        requires
            m_a_a_t00 == a * (a * t00),
            m_a_a_a_t00 == a * (a * (a * t00)),
    ;
    assert(n26 == m_a_a_a_t00);
    let n27 = 10real * n26;
    assert(n27 == 10real * m_a_a_a_t00);
    let n28 = n23 + n27;
    assert(n28 == t30 + 5real * m_a_t20 + 10real * m_a_a_t10 + 10real * m_a_a_a_t00);
    let n29 = d * n28;
    let s30 = t30;
    let s31 = s30 + 5real * m_a_t20;
    let s32 = s31 + 10real * m_a_a_t10;
    let s33 = s32 + 10real * m_a_a_a_t00;
    assert(n28 == s33);
    lemma_times_sum(d, s30, 5real * m_a_t20);
    lemma_times_scaled(d, 5real, m_a_t20);
    lemma_times_sum(d, s31, 10real * m_a_a_t10);
    lemma_times_scaled(d, 10real, m_a_a_t10);
    lemma_times_sum(d, s32, 10real * m_a_a_a_t00);
    lemma_times_scaled(d, 10real, m_a_a_a_t00);
    assert(d * m_a_t20 == m_a_d_t20) by (nonlinear_arith)
        requires
            m_a_t20 == a * t20,
            m_a_d_t20 == a * (d * t20),
    ;
    assert(d * m_a_a_t10 == m_a_a_d_t10) by (nonlinear_arith)
        requires
            m_a_a_t10 == a * (a * t10),
            m_a_a_d_t10 == a * (a * (d * t10)),
    ;
    assert(d * m_a_a_a_t00 == m_a_a_a_d_t00) by (nonlinear_arith)
        requires
            m_a_a_a_t00 == a * (a * (a * t00)),
            m_a_a_a_d_t00 == a * (a * (a * (d * t00))),
    ;
    assert(n29 == m_d_t30 + 5real * m_a_d_t20 + 10real * m_a_a_d_t10 + 10real * m_a_a_a_d_t00);
    assert(n16 == n29);
}

/// What a movement carries into the sum of third degree along one axis is additive in
/// the sums.
pub(crate) proof fn lemma_carried_sum_third(a: real, e30: real, e20: real, e10: real, e00: real,
    g30: real, g20: real, g10: real, g00: real)
    ensures
        e30 + g30 + 5real * (a * (e20 + g20)) + 10real * (a * (a * (e10 + g10))) + 10real * (a
            * (a * (a * (e00 + g00)))) == e30 + 5real * (a * e20) + 10real * (a * (a * e10))
            + 10real * (a * (a * (a * e00))) + g30 + 5real * (a * g20) + 10real * (a * (a * g10))
            + 10real * (a * (a * (a * g00))),
{
    let m_a_e20 = a * e20;
    let m_a_g20 = a * g20;
    let m_a_e10 = a * e10;
    let m_a_g10 = a * g10;
    let m_a_a_e10 = a * (a * e10);
    let m_a_a_g10 = a * (a * g10);
    let m_a_e00 = a * e00;
    let m_a_g00 = a * g00;
    let m_a_a_e00 = a * (a * e00);
    let m_a_a_g00 = a * (a * g00);
    let m_a_a_a_e00 = a * (a * (a * e00));
    let m_a_a_a_g00 = a * (a * (a * g00));
    let n1 = e30 + g30;
    assert(n1 == e30 + g30);
    let n2 = e20 + g20;
    assert(n2 == e20 + g20);
    let n3 = a * n2;
    let s4 = e20;
    let s5 = s4 + g20;
    assert(n2 == s5);
    lemma_times_sum(a, s4, g20);
    assert(n3 == m_a_e20 + m_a_g20);
    let n6 = 5real * n3;
    assert(n6 == 5real * m_a_e20 + 5real * m_a_g20);
    let n7 = n1 + n6;
    assert(n7 == e30 + g30 + 5real * m_a_e20 + 5real * m_a_g20);
    let n8 = e10 + g10;
    assert(n8 == e10 + g10);
    let n9 = a * n8;
    let s10 = e10;
    let s11 = s10 + g10;
    assert(n8 == s11);
    lemma_times_sum(a, s10, g10);
    assert(n9 == m_a_e10 + m_a_g10);
    let n12 = a * n9;
    let s13 = m_a_e10;
    let s14 = s13 + m_a_g10;
    assert(n9 == s14);
    lemma_times_sum(a, s13, m_a_g10);
    assert(a * m_a_e10 == m_a_a_e10) by (nonlinear_arith)
        requires
            m_a_e10 == a * e10,
            m_a_a_e10 == a * (a * e10),
    ;
    assert(a * m_a_g10 == m_a_a_g10) by (nonlinear_arith)
        requires
            m_a_g10 == a * g10,
            m_a_a_g10 == a * (a * g10),
    ;
    assert(n12 == m_a_a_e10 + m_a_a_g10);
    let n15 = 10real * n12;
    assert(n15 == 10real * m_a_a_e10 + 10real * m_a_a_g10);
    let n16 = n7 + n15;
    assert(n16 == e30 + g30 + 5real * m_a_e20 + 5real * m_a_g20 + 10real * m_a_a_e10 + 10real
        * m_a_a_g10);
    let n17 = e00 + g00;
    assert(n17 == e00 + g00);
    let n18 = a * n17;
    let s19 = e00;
    let s20 = s19 + g00;
    assert(n17 == s20);
    lemma_times_sum(a, s19, g00);
    assert(n18 == m_a_e00 + m_a_g00);
    let n21 = a * n18;
    let s22 = m_a_e00;
    let s23 = s22 + m_a_g00;
    assert(n18 == s23);
    lemma_times_sum(a, s22, m_a_g00);
    assert(a * m_a_e00 == m_a_a_e00) by (nonlinear_arith)
        requires
            m_a_e00 == a * e00,
            m_a_a_e00 == a * (a * e00),
    ;
    assert(a * m_a_g00 == m_a_a_g00) by (nonlinear_arith)
        requires
            m_a_g00 == a * g00,
            m_a_a_g00 == a * (a * g00),
    ;
    assert(n21 == m_a_a_e00 + m_a_a_g00);
    let n24 = a * n21;
    let s25 = m_a_a_e00;
    let s26 = s25 + m_a_a_g00;
    assert(n21 == s26);
    lemma_times_sum(a, s25, m_a_a_g00);
    assert(a * m_a_a_e00 == m_a_a_a_e00) by (nonlinear_arith)
        requires
            m_a_a_e00 == a * (a * e00),
            m_a_a_a_e00 == a * (a * (a * e00)),
    ;
    assert(a * m_a_a_g00 == m_a_a_a_g00) by (nonlinear_arith)
        requires
            m_a_a_g00 == a * (a * g00),
            m_a_a_a_g00 == a * (a * (a * g00)),
    ;
    assert(n24 == m_a_a_a_e00 + m_a_a_a_g00);
    let n27 = 10real * n24;
    assert(n27 == 10real * m_a_a_a_e00 + 10real * m_a_a_a_g00);
    let n28 = n16 + n27;
    assert(n28 == e30 + g30 + 5real * m_a_e20 + 5real * m_a_g20 + 10real * m_a_a_e10 + 10real
        * m_a_a_g10 + 10real * m_a_a_a_e00 + 10real * m_a_a_a_g00);
    let n29 = a * e20;
    assert(n29 == m_a_e20);
    let n30 = 5real * n29;
    assert(n30 == 5real * m_a_e20);
    let n31 = e30 + n30;
    assert(n31 == e30 + 5real * m_a_e20);
    let n32 = a * e10;
    assert(n32 == m_a_e10);
    let n33 = a * n32;
    assert(n32 == m_a_e10);
    assert(n33 == m_a_a_e10);
    let n34 = 10real * n33;
    assert(n34 == 10real * m_a_a_e10);
    let n35 = n31 + n34;
    assert(n35 == e30 + 5real * m_a_e20 + 10real * m_a_a_e10);
    let n36 = a * e00;
    assert(n36 == m_a_e00);
    let n37 = a * n36;
    assert(n36 == m_a_e00);
    assert(n37 == m_a_a_e00);
    let n38 = a * n37;
    assert(n37 == m_a_a_e00);
    assert(n38 == m_a_a_a_e00);
    let n39 = 10real * n38;
    assert(n39 == 10real * m_a_a_a_e00);
    let n40 = n35 + n39;
    assert(n40 == e30 + 5real * m_a_e20 + 10real * m_a_a_e10 + 10real * m_a_a_a_e00);
    let n41 = a * g20;
    assert(n41 == m_a_g20);
    let n42 = 5real * n41;
    assert(n42 == 5real * m_a_g20);
    let n43 = g30 + n42;
    assert(n43 == g30 + 5real * m_a_g20);
    let n44 = a * g10;
    assert(n44 == m_a_g10);
    let n45 = a * n44;
    assert(n44 == m_a_g10);
    assert(n45 == m_a_a_g10);
    let n46 = 10real * n45;
    assert(n46 == 10real * m_a_a_g10);
    let n47 = n43 + n46;
    assert(n47 == g30 + 5real * m_a_g20 + 10real * m_a_a_g10);
    let n48 = a * g00;
    assert(n48 == m_a_g00);
    let n49 = a * n48;
    assert(n48 == m_a_g00);
    assert(n49 == m_a_a_g00);
    let n50 = a * n49;
    assert(n49 == m_a_a_g00);
    assert(n50 == m_a_a_a_g00);
    let n51 = 10real * n50;
    assert(n51 == 10real * m_a_a_a_g00);
    let n52 = n47 + n51;
    assert(n52 == g30 + 5real * m_a_g20 + 10real * m_a_a_g10 + 10real * m_a_a_a_g00);
    let n53 = n40 + n52;
    assert(n53 == e30 + g30 + 5real * m_a_e20 + 5real * m_a_g20 + 10real * m_a_a_e10 + 10real
        * m_a_a_g10 + 10real * m_a_a_a_e00 + 10real * m_a_a_a_g00);
    assert(n28 == n53);
}

/// What a movement carries into the sum of third degree along one axis, times the share
/// of that sum, is the moment after the movement: `h` names the shares.
pub(crate) proof fn lemma_carried_share_third(a: real, e30: real, e20: real, e10: real, e00: real,
    h30: real, h20: real, h10: real, h00: real)
    requires
        h20 == (5real / 3real) * h30,
        h10 == (10real / 3real) * h30,
        h00 == 10real * h30,
    ensures
        (e30 + 5real * (a * e20) + 10real * (a * (a * e10)) + 10real * (a * (a * (a * e00))))
            * h30 == e30 * h30 + 3real * (a * (e20 * h20)) + 3real * (a * (a * (e10 * h10))) + a
            * (a * (a * (e00 * h00))),
{
    let m_a_e20 = a * e20;
    let m_a_e10 = a * e10;
    let m_a_a_e10 = a * (a * e10);
    let m_a_e00 = a * e00;
    let m_a_a_e00 = a * (a * e00);
    let m_a_a_a_e00 = a * (a * (a * e00));
    let m_h30_e30 = h30 * e30;
    let m_a_h30_e20 = a * (h30 * e20);
    let m_a_a_h30_e10 = a * (a * (h30 * e10));
    let m_a_a_a_h30_e00 = a * (a * (a * (h30 * e00)));
    let m_h30_e20 = h30 * e20;
    let m_h30_e10 = h30 * e10;
    let m_a_h30_e10 = a * (h30 * e10);
    let m_h30_e00 = h30 * e00;
    let m_a_h30_e00 = a * (h30 * e00);
    let m_a_a_h30_e00 = a * (a * (h30 * e00));
    let n1 = a * e20;
    assert(n1 == m_a_e20);
    let n2 = 5real * n1;
    assert(n2 == 5real * m_a_e20);
    let n3 = e30 + n2;
    assert(n3 == e30 + 5real * m_a_e20);
    let n4 = a * e10;
    assert(n4 == m_a_e10);
    let n5 = a * n4;
    assert(n4 == m_a_e10);
    assert(a * m_a_e10 == m_a_a_e10) by (nonlinear_arith)
        requires
            m_a_e10 == a * e10,
            m_a_a_e10 == a * (a * e10),
    ;
    assert(n5 == m_a_a_e10);
    let n6 = 10real * n5;
    assert(n6 == 10real * m_a_a_e10);
    let n7 = n3 + n6;
    assert(n7 == e30 + 5real * m_a_e20 + 10real * m_a_a_e10);
    let n8 = a * e00;
    assert(n8 == m_a_e00);
    let n9 = a * n8;
    assert(n8 == m_a_e00);
    assert(a * m_a_e00 == m_a_a_e00) by (nonlinear_arith)
        requires
            m_a_e00 == a * e00,
            m_a_a_e00 == a * (a * e00),
    ;
    assert(n9 == m_a_a_e00);
    let n10 = a * n9;
    assert(n9 == m_a_a_e00);
    assert(a * m_a_a_e00 == m_a_a_a_e00) by (nonlinear_arith)
        requires
            m_a_a_e00 == a * (a * e00),
            m_a_a_a_e00 == a * (a * (a * e00)),
    ;
    assert(n10 == m_a_a_a_e00);
    let n11 = 10real * n10;
    assert(n11 == 10real * m_a_a_a_e00);
    let n12 = n7 + n11;
    assert(n12 == e30 + 5real * m_a_e20 + 10real * m_a_a_e10 + 10real * m_a_a_a_e00);
    let n13 = n12 * h30;
    let s14 = e30;
    let s15 = s14 + 5real * m_a_e20;
    let s16 = s15 + 10real * m_a_a_e10;
    let s17 = s16 + 10real * m_a_a_a_e00;
    assert(n12 == s17);
    lemma_sum_times(s14, 5real * m_a_e20, h30);
    lemma_scaled_times(5real, m_a_e20, h30);
    lemma_sum_times(s15, 10real * m_a_a_e10, h30);
    lemma_scaled_times(10real, m_a_a_e10, h30);
    lemma_sum_times(s16, 10real * m_a_a_a_e00, h30);
    lemma_scaled_times(10real, m_a_a_a_e00, h30);
    assert(e30 * h30 == m_h30_e30) by (nonlinear_arith)
        requires
            m_h30_e30 == h30 * e30,
    ;
    assert(m_a_e20 * h30 == m_a_h30_e20) by (nonlinear_arith)
        requires
            m_a_e20 == a * e20,
            m_a_h30_e20 == a * (h30 * e20),
    ;
    assert(m_a_a_e10 * h30 == m_a_a_h30_e10) by (nonlinear_arith)
        requires
            m_a_a_e10 == a * (a * e10),
            m_a_a_h30_e10 == a * (a * (h30 * e10)),
    ;
    assert(m_a_a_a_e00 * h30 == m_a_a_a_h30_e00) by (nonlinear_arith)
        requires
            m_a_a_a_e00 == a * (a * (a * e00)),
            m_a_a_a_h30_e00 == a * (a * (a * (h30 * e00))),
    ;
    assert(n13 == m_h30_e30 + 5real * m_a_h30_e20 + 10real * m_a_a_h30_e10 + 10real
        * m_a_a_a_h30_e00);
    let n18 = e30 * h30;
    assert(n18 == m_h30_e30);
    let n19 = e20 * h20;
    let s20 = (5real / 3real) * h30;
    assert(h20 == s20);
    lemma_times_scaled(e20, (5real / 3real), h30);
    assert(e20 * h30 == m_h30_e20) by (nonlinear_arith)
        requires
            m_h30_e20 == h30 * e20,
    ;
    assert(n19 == (5real / 3real) * m_h30_e20);
    let n21 = a * n19;
    let s22 = (5real / 3real) * m_h30_e20;
    assert(n19 == s22);
    lemma_times_scaled(a, (5real / 3real), m_h30_e20);
    assert(a * m_h30_e20 == m_a_h30_e20) by (nonlinear_arith)
        requires
            m_h30_e20 == h30 * e20,
            m_a_h30_e20 == a * (h30 * e20),
    ;
    assert(n21 == (5real / 3real) * m_a_h30_e20);
    let n23 = 3real * n21;
    assert(n23 == 5real * m_a_h30_e20);
    let n24 = n18 + n23;
    assert(n24 == m_h30_e30 + 5real * m_a_h30_e20);
    let n25 = e10 * h10;
    let s26 = (10real / 3real) * h30;
    assert(h10 == s26);
    lemma_times_scaled(e10, (10real / 3real), h30);
    assert(e10 * h30 == m_h30_e10) by (nonlinear_arith)
        requires
            m_h30_e10 == h30 * e10,
    ;
    assert(n25 == (10real / 3real) * m_h30_e10);
    let n27 = a * n25;
    let s28 = (10real / 3real) * m_h30_e10;
    assert(n25 == s28);
    lemma_times_scaled(a, (10real / 3real), m_h30_e10);
    assert(a * m_h30_e10 == m_a_h30_e10) by (nonlinear_arith)
        requires
            m_h30_e10 == h30 * e10,
            m_a_h30_e10 == a * (h30 * e10),
    ;
    assert(n27 == (10real / 3real) * m_a_h30_e10);
    let n29 = a * n27;
    let s30 = (10real / 3real) * m_a_h30_e10;
    assert(n27 == s30);
    lemma_times_scaled(a, (10real / 3real), m_a_h30_e10);
    assert(a * m_a_h30_e10 == m_a_a_h30_e10) by (nonlinear_arith)
        requires
            m_a_h30_e10 == a * (h30 * e10),
            m_a_a_h30_e10 == a * (a * (h30 * e10)),
    ;
    assert(n29 == (10real / 3real) * m_a_a_h30_e10);
    let n31 = 3real * n29;
    assert(n31 == 10real * m_a_a_h30_e10);
    let n32 = n24 + n31;
    assert(n32 == m_h30_e30 + 5real * m_a_h30_e20 + 10real * m_a_a_h30_e10);
    let n33 = e00 * h00;
    let s34 = 10real * h30;
    assert(h00 == s34);
    lemma_times_scaled(e00, 10real, h30);
    assert(e00 * h30 == m_h30_e00) by (nonlinear_arith)
        requires
            m_h30_e00 == h30 * e00,
    ;
    assert(n33 == 10real * m_h30_e00);
    let n35 = a * n33;
    let s36 = 10real * m_h30_e00;
    assert(n33 == s36);
    lemma_times_scaled(a, 10real, m_h30_e00);
    assert(a * m_h30_e00 == m_a_h30_e00) by (nonlinear_arith)
        requires
            m_h30_e00 == h30 * e00,
            m_a_h30_e00 == a * (h30 * e00),
    ;
    assert(n35 == 10real * m_a_h30_e00);
    let n37 = a * n35;
    let s38 = 10real * m_a_h30_e00;
    assert(n35 == s38);
    lemma_times_scaled(a, 10real, m_a_h30_e00);
    assert(a * m_a_h30_e00 == m_a_a_h30_e00) by (nonlinear_arith)
        requires
            m_a_h30_e00 == a * (h30 * e00),
            m_a_a_h30_e00 == a * (a * (h30 * e00)),
    ;
    assert(n37 == 10real * m_a_a_h30_e00);
    let n39 = a * n37;
    let s40 = 10real * m_a_a_h30_e00;
    assert(n37 == s40);
    lemma_times_scaled(a, 10real, m_a_a_h30_e00);
    assert(a * m_a_a_h30_e00 == m_a_a_a_h30_e00) by (nonlinear_arith)
        requires
            m_a_a_h30_e00 == a * (a * (h30 * e00)),
            m_a_a_a_h30_e00 == a * (a * (a * (h30 * e00))),
    ;
    assert(n39 == 10real * m_a_a_a_h30_e00);
    let n41 = n32 + n39;
    assert(n41 == m_h30_e30 + 5real * m_a_h30_e20 + 10real * m_a_a_h30_e10 + 10real
        * m_a_a_a_h30_e00);
    assert(n13 == n41);
}

/// What a movement carries into the sum of mixed third degree, for one
/// edge: the cross term `d` of the edge may be taken out of it.
pub(crate) proof fn lemma_carried_edge_mixed_third(d: real, a: real, b: real, t21: real, t20: real,
    t11: real, t10: real, t01: real, t00: real)
    ensures
        d * t21 + 5real * (b * (d * t20)) + 5real * (a * (d * t11)) + 20real * (a * (b * (d
            * t10))) + 10real * (a * (a * (d * t01))) + 30real * (a * (a * (b * (d * t00)))) == d
            * (t21 + 5real * (b * t20) + 5real * (a * t11) + 20real * (a * (b * t10)) + 10real
            * (a * (a * t01)) + 30real * (a * (a * (b * t00)))),
{
    let m_d_t21 = d * t21;
    let m_d_t20 = d * t20;
    let m_b_d_t20 = b * (d * t20);
    let m_d_t11 = d * t11;
    let m_a_d_t11 = a * (d * t11);
    let m_d_t10 = d * t10;
    let m_b_d_t10 = b * (d * t10);
    let m_a_b_d_t10 = a * (b * (d * t10));
    let m_d_t01 = d * t01;
    let m_a_d_t01 = a * (d * t01);
    let m_a_a_d_t01 = a * (a * (d * t01));
    let m_d_t00 = d * t00;
    let m_b_d_t00 = b * (d * t00);
    let m_a_b_d_t00 = a * (b * (d * t00));
    let m_a_a_b_d_t00 = a * (a * (b * (d * t00)));
    let m_b_t20 = b * t20;
    let m_a_t11 = a * t11;
    let m_b_t10 = b * t10;
    let m_a_b_t10 = a * (b * t10);
    let m_a_t01 = a * t01;
    let m_a_a_t01 = a * (a * t01);
    let m_b_t00 = b * t00;
    let m_a_b_t00 = a * (b * t00);
    let m_a_a_b_t00 = a * (a * (b * t00));
    let n1 = d * t21;
    assert(n1 == m_d_t21);
    let n2 = d * t20;
    assert(n2 == m_d_t20);
    let n3 = b * n2;
    assert(n2 == m_d_t20);
    assert(b * m_d_t20 == m_b_d_t20) by (nonlinear_arith)
        requires
            m_d_t20 == d * t20,
            m_b_d_t20 == b * (d * t20),
    ;
    assert(n3 == m_b_d_t20);
    let n4 = 5real * n3;
    assert(n4 == 5real * m_b_d_t20);
    let n5 = n1 + n4;
    assert(n5 == m_d_t21 + 5real * m_b_d_t20);
    let n6 = d * t11;
    assert(n6 == m_d_t11);
    let n7 = a * n6;
    assert(n6 == m_d_t11);
    assert(a * m_d_t11 == m_a_d_t11) by (nonlinear_arith)
        requires
            m_d_t11 == d * t11,
            m_a_d_t11 == a * (d * t11),
    ;
    assert(n7 == m_a_d_t11);
    let n8 = 5real * n7;
    assert(n8 == 5real * m_a_d_t11);
    let n9 = n5 + n8;
    assert(n9 == m_d_t21 + 5real * m_a_d_t11 + 5real * m_b_d_t20);
    let n10 = d * t10;
    assert(n10 == m_d_t10);
    let n11 = b * n10;
    assert(n10 == m_d_t10);
    assert(b * m_d_t10 == m_b_d_t10) by (nonlinear_arith)
        requires
            m_d_t10 == d * t10,
            m_b_d_t10 == b * (d * t10),
    ;
    assert(n11 == m_b_d_t10);
    let n12 = a * n11;
    assert(n11 == m_b_d_t10);
    assert(a * m_b_d_t10 == m_a_b_d_t10) by (nonlinear_arith)
        requires
            m_b_d_t10 == b * (d * t10),
            m_a_b_d_t10 == a * (b * (d * t10)),
    ;
    assert(n12 == m_a_b_d_t10);
    let n13 = 20real * n12;
    assert(n13 == 20real * m_a_b_d_t10);
    let n14 = n9 + n13;
    assert(n14 == m_d_t21 + 5real * m_a_d_t11 + 5real * m_b_d_t20 + 20real * m_a_b_d_t10);
    let n15 = d * t01;
    assert(n15 == m_d_t01);
    let n16 = a * n15;
    assert(n15 == m_d_t01);
    assert(a * m_d_t01 == m_a_d_t01) by (nonlinear_arith)
        requires
            m_d_t01 == d * t01,
            m_a_d_t01 == a * (d * t01),
    ;
    assert(n16 == m_a_d_t01);
    let n17 = a * n16;
    assert(n16 == m_a_d_t01);
    assert(a * m_a_d_t01 == m_a_a_d_t01) by (nonlinear_arith)
        requires
            m_a_d_t01 == a * (d * t01),
            m_a_a_d_t01 == a * (a * (d * t01)),
    ;
    assert(n17 == m_a_a_d_t01);
    let n18 = 10real * n17;
    assert(n18 == 10real * m_a_a_d_t01);
    let n19 = n14 + n18;
    assert(n19 == m_d_t21 + 5real * m_a_d_t11 + 5real * m_b_d_t20 + 10real * m_a_a_d_t01 + 20real
        * m_a_b_d_t10);
    let n20 = d * t00;
    assert(n20 == m_d_t00);
    let n21 = b * n20;
    assert(n20 == m_d_t00);
    assert(b * m_d_t00 == m_b_d_t00) by (nonlinear_arith)
        requires
            m_d_t00 == d * t00,
            m_b_d_t00 == b * (d * t00),
    ;
    assert(n21 == m_b_d_t00);
    let n22 = a * n21;
    assert(n21 == m_b_d_t00);
    assert(a * m_b_d_t00 == m_a_b_d_t00) by (nonlinear_arith)
        requires
            m_b_d_t00 == b * (d * t00),
            m_a_b_d_t00 == a * (b * (d * t00)),
    ;
    assert(n22 == m_a_b_d_t00);
    let n23 = a * n22;
    assert(n22 == m_a_b_d_t00);
    assert(a * m_a_b_d_t00 == m_a_a_b_d_t00) by (nonlinear_arith)
        requires
            m_a_b_d_t00 == a * (b * (d * t00)),
            m_a_a_b_d_t00 == a * (a * (b * (d * t00))),
    ;
    assert(n23 == m_a_a_b_d_t00);
    let n24 = 30real * n23;
    assert(n24 == 30real * m_a_a_b_d_t00);
    let n25 = n19 + n24;
    assert(n25 == m_d_t21 + 5real * m_a_d_t11 + 5real * m_b_d_t20 + 10real * m_a_a_d_t01 + 20real
        * m_a_b_d_t10 + 30real * m_a_a_b_d_t00);
    let n26 = b * t20;
    assert(n26 == m_b_t20);
    let n27 = 5real * n26;
    assert(n27 == 5real * m_b_t20);
    let n28 = t21 + n27;
    assert(n28 == t21 + 5real * m_b_t20);
    let n29 = a * t11;
    assert(n29 == m_a_t11);
    let n30 = 5real * n29;
    assert(n30 == 5real * m_a_t11);
    let n31 = n28 + n30;
    assert(n31 == t21 + 5real * m_a_t11 + 5real * m_b_t20);
    let n32 = b * t10;
    assert(n32 == m_b_t10);
    let n33 = a * n32;
    assert(n32 == m_b_t10);
    assert(a * m_b_t10 == m_a_b_t10) by (nonlinear_arith)
        requires
            m_b_t10 == b * t10,
            m_a_b_t10 == a * (b * t10),
    ;
    assert(n33 == m_a_b_t10);
    let n34 = 20real * n33;
    assert(n34 == 20real * m_a_b_t10);
    let n35 = n31 + n34;
    assert(n35 == t21 + 5real * m_a_t11 + 5real * m_b_t20 + 20real * m_a_b_t10);
    let n36 = a * t01;
    assert(n36 == m_a_t01);
    let n37 = a * n36;
    assert(n36 == m_a_t01);
    assert(a * m_a_t01 == m_a_a_t01) by (nonlinear_arith)
        requires
            m_a_t01 == a * t01,
            m_a_a_t01 == a * (a * t01),
    ;
    assert(n37 == m_a_a_t01);
    let n38 = 10real * n37;
    assert(n38 == 10real * m_a_a_t01);
    let n39 = n35 + n38;
    assert(n39 == t21 + 5real * m_a_t11 + 5real * m_b_t20 + 10real * m_a_a_t01 + 20real
        * m_a_b_t10);
    let n40 = b * t00;
    assert(n40 == m_b_t00);
    let n41 = a * n40;
    assert(n40 == m_b_t00);
    assert(a * m_b_t00 == m_a_b_t00) by (nonlinear_arith)
        requires
            m_b_t00 == b * t00,
            m_a_b_t00 == a * (b * t00),
    ;
    assert(n41 == m_a_b_t00);
    let n42 = a * n41;
    assert(n41 == m_a_b_t00);
    assert(a * m_a_b_t00 == m_a_a_b_t00) by (nonlinear_arith)
        requires
            m_a_b_t00 == a * (b * t00),
            m_a_a_b_t00 == a * (a * (b * t00)),
    ;
    assert(n42 == m_a_a_b_t00);
    let n43 = 30real * n42;
    assert(n43 == 30real * m_a_a_b_t00);
    let n44 = n39 + n43;
    assert(n44 == t21 + 5real * m_a_t11 + 5real * m_b_t20 + 10real * m_a_a_t01 + 20real
        * m_a_b_t10 + 30real * m_a_a_b_t00);
    let n45 = d * n44;
    let s46 = t21;
    let s47 = s46 + 5real * m_a_t11;
    let s48 = s47 + 5real * m_b_t20;
    let s49 = s48 + 10real * m_a_a_t01;
    let s50 = s49 + 20real * m_a_b_t10;
    let s51 = s50 + 30real * m_a_a_b_t00;
    assert(n44 == s51);
    lemma_times_sum(d, s46, 5real * m_a_t11);
    lemma_times_scaled(d, 5real, m_a_t11);
    lemma_times_sum(d, s47, 5real * m_b_t20);
    lemma_times_scaled(d, 5real, m_b_t20);
    lemma_times_sum(d, s48, 10real * m_a_a_t01);
    lemma_times_scaled(d, 10real, m_a_a_t01);
    lemma_times_sum(d, s49, 20real * m_a_b_t10);
    lemma_times_scaled(d, 20real, m_a_b_t10);
    lemma_times_sum(d, s50, 30real * m_a_a_b_t00);
    lemma_times_scaled(d, 30real, m_a_a_b_t00);
    assert(d * m_a_t11 == m_a_d_t11) by (nonlinear_arith)
        requires
            m_a_t11 == a * t11,
            m_a_d_t11 == a * (d * t11),
    ;
    assert(d * m_b_t20 == m_b_d_t20) by (nonlinear_arith)
        requires
            m_b_t20 == b * t20,
            m_b_d_t20 == b * (d * t20),
    ;
    assert(d * m_a_a_t01 == m_a_a_d_t01) by (nonlinear_arith)
        requires
            m_a_a_t01 == a * (a * t01),
            m_a_a_d_t01 == a * (a * (d * t01)),
    ;
    assert(d * m_a_b_t10 == m_a_b_d_t10) by (nonlinear_arith)
        requires
            m_a_b_t10 == a * (b * t10),
            m_a_b_d_t10 == a * (b * (d * t10)),
    ;
    assert(d * m_a_a_b_t00 == m_a_a_b_d_t00) by (nonlinear_arith)
        requires
            m_a_a_b_t00 == a * (a * (b * t00)),
            m_a_a_b_d_t00 == a * (a * (b * (d * t00))),
    ;
    assert(n45 == m_d_t21 + 5real * m_a_d_t11 + 5real * m_b_d_t20 + 10real * m_a_a_d_t01 + 20real
        * m_a_b_d_t10 + 30real * m_a_a_b_d_t00);
    assert(n25 == n45);
}

/// What a movement carries into the sum of mixed third degree is additive in
/// the sums.
pub(crate) proof fn lemma_carried_sum_mixed_third(a: real, b: real, e21: real, e20: real,
    e11: real, e10: real, e01: real, e00: real, g21: real, g20: real, g11: real, g10: real,
    g01: real, g00: real)
    ensures
        e21 + g21 + 5real * (b * (e20 + g20)) + 5real * (a * (e11 + g11)) + 20real * (a * (b
            * (e10 + g10))) + 10real * (a * (a * (e01 + g01))) + 30real * (a * (a * (b * (e00
            + g00)))) == e21 + 5real * (b * e20) + 5real * (a * e11) + 20real * (a * (b * e10))
            + 10real * (a * (a * e01)) + 30real * (a * (a * (b * e00))) + g21 + 5real * (b * g20)
            + 5real * (a * g11) + 20real * (a * (b * g10)) + 10real * (a * (a * g01)) + 30real
            * (a * (a * (b * g00))),
{
    let m_b_e20 = b * e20;
    let m_b_g20 = b * g20;
    let m_a_e11 = a * e11;
    let m_a_g11 = a * g11;
    let m_b_e10 = b * e10;
    let m_b_g10 = b * g10;
    let m_a_b_e10 = a * (b * e10);
    let m_a_b_g10 = a * (b * g10);
    let m_a_e01 = a * e01;
    let m_a_g01 = a * g01;
    let m_a_a_e01 = a * (a * e01);
    let m_a_a_g01 = a * (a * g01);
    let m_b_e00 = b * e00;
    let m_b_g00 = b * g00;
    let m_a_b_e00 = a * (b * e00);
    let m_a_b_g00 = a * (b * g00);
    let m_a_a_b_e00 = a * (a * (b * e00));
    let m_a_a_b_g00 = a * (a * (b * g00));
    let n1 = e21 + g21;
    assert(n1 == e21 + g21);
    let n2 = e20 + g20;
    assert(n2 == e20 + g20);
    let n3 = b * n2;
    let s4 = e20;
    let s5 = s4 + g20;
    assert(n2 == s5);
    lemma_times_sum(b, s4, g20);
    assert(n3 == m_b_e20 + m_b_g20);
    let n6 = 5real * n3;
    assert(n6 == 5real * m_b_e20 + 5real * m_b_g20);
    let n7 = n1 + n6;
    assert(n7 == e21 + g21 + 5real * m_b_e20 + 5real * m_b_g20);
    let n8 = e11 + g11;
    assert(n8 == e11 + g11);
    let n9 = a * n8;
    let s10 = e11;
    let s11 = s10 + g11;
    assert(n8 == s11);
    lemma_times_sum(a, s10, g11);
    assert(n9 == m_a_e11 + m_a_g11);
    let n12 = 5real * n9;
    assert(n12 == 5real * m_a_e11 + 5real * m_a_g11);
    let n13 = n7 + n12;
    assert(n13 == e21 + g21 + 5real * m_a_e11 + 5real * m_a_g11 + 5real * m_b_e20 + 5real
        * m_b_g20);
    let n14 = e10 + g10;
    assert(n14 == e10 + g10);
    let n15 = b * n14;
    let s16 = e10;
    let s17 = s16 + g10;
    assert(n14 == s17);
    lemma_times_sum(b, s16, g10);
    assert(n15 == m_b_e10 + m_b_g10);
    let n18 = a * n15;
    let s19 = m_b_e10;
    let s20 = s19 + m_b_g10;
    assert(n15 == s20);
    lemma_times_sum(a, s19, m_b_g10);
    assert(a * m_b_e10 == m_a_b_e10) by (nonlinear_arith)
        requires
            m_b_e10 == b * e10,
            m_a_b_e10 == a * (b * e10),
    ;
    assert(a * m_b_g10 == m_a_b_g10) by (nonlinear_arith)
        requires
            m_b_g10 == b * g10,
            m_a_b_g10 == a * (b * g10),
    ;
    assert(n18 == m_a_b_e10 + m_a_b_g10);
    let n21 = 20real * n18;
    assert(n21 == 20real * m_a_b_e10 + 20real * m_a_b_g10);
    let n22 = n13 + n21;
    assert(n22 == e21 + g21 + 5real * m_a_e11 + 5real * m_a_g11 + 5real * m_b_e20 + 5real
        * m_b_g20 + 20real * m_a_b_e10 + 20real * m_a_b_g10);
    let n23 = e01 + g01;
    assert(n23 == e01 + g01);
    let n24 = a * n23;
    let s25 = e01;
    let s26 = s25 + g01;
    assert(n23 == s26);
    lemma_times_sum(a, s25, g01);
    assert(n24 == m_a_e01 + m_a_g01);
    let n27 = a * n24;
    let s28 = m_a_e01;
    let s29 = s28 + m_a_g01;
    assert(n24 == s29);
    lemma_times_sum(a, s28, m_a_g01);
    assert(a * m_a_e01 == m_a_a_e01) by (nonlinear_arith)
        requires
            m_a_e01 == a * e01,
            m_a_a_e01 == a * (a * e01),
    ;
    assert(a * m_a_g01 == m_a_a_g01) by (nonlinear_arith)
        requires
            m_a_g01 == a * g01,
            m_a_a_g01 == a * (a * g01),
    ;
    assert(n27 == m_a_a_e01 + m_a_a_g01);
    let n30 = 10real * n27;
    assert(n30 == 10real * m_a_a_e01 + 10real * m_a_a_g01);
    let n31 = n22 + n30;
    assert(n31 == e21 + g21 + 5real * m_a_e11 + 5real * m_a_g11 + 5real * m_b_e20 + 5real
        * m_b_g20 + 10real * m_a_a_e01 + 10real * m_a_a_g01 + 20real * m_a_b_e10 + 20real
        * m_a_b_g10);
    let n32 = e00 + g00;
    assert(n32 == e00 + g00);
    let n33 = b * n32;
    let s34 = e00;
    let s35 = s34 + g00;
    assert(n32 == s35);
    lemma_times_sum(b, s34, g00);
    assert(n33 == m_b_e00 + m_b_g00);
    let n36 = a * n33;
    let s37 = m_b_e00;
    let s38 = s37 + m_b_g00;
    assert(n33 == s38);
    lemma_times_sum(a, s37, m_b_g00);
    assert(a * m_b_e00 == m_a_b_e00) by (nonlinear_arith)
        requires
            m_b_e00 == b * e00,
            m_a_b_e00 == a * (b * e00),
    ;
    assert(a * m_b_g00 == m_a_b_g00) by (nonlinear_arith)
        requires
            m_b_g00 == b * g00,
            m_a_b_g00 == a * (b * g00),
    ;
    assert(n36 == m_a_b_e00 + m_a_b_g00);
    let n39 = a * n36;
    let s40 = m_a_b_e00;
    let s41 = s40 + m_a_b_g00;
    assert(n36 == s41);
    lemma_times_sum(a, s40, m_a_b_g00);
    assert(a * m_a_b_e00 == m_a_a_b_e00) by (nonlinear_arith)
        requires
            m_a_b_e00 == a * (b * e00),
            m_a_a_b_e00 == a * (a * (b * e00)),
    ;
    assert(a * m_a_b_g00 == m_a_a_b_g00) by (nonlinear_arith)
        requires
            m_a_b_g00 == a * (b * g00),
            m_a_a_b_g00 == a * (a * (b * g00)),
    ;
    assert(n39 == m_a_a_b_e00 + m_a_a_b_g00);
    let n42 = 30real * n39;
    assert(n42 == 30real * m_a_a_b_e00 + 30real * m_a_a_b_g00);
    let n43 = n31 + n42;
    assert(n43 == e21 + g21 + 5real * m_a_e11 + 5real * m_a_g11 + 5real * m_b_e20 + 5real
        * m_b_g20 + 10real * m_a_a_e01 + 10real * m_a_a_g01 + 20real * m_a_b_e10 + 20real
        * m_a_b_g10 + 30real * m_a_a_b_e00 + 30real * m_a_a_b_g00);
    let n44 = b * e20;
    assert(n44 == m_b_e20);
    let n45 = 5real * n44;
    assert(n45 == 5real * m_b_e20);
    let n46 = e21 + n45;
    assert(n46 == e21 + 5real * m_b_e20);
    let n47 = a * e11;
    assert(n47 == m_a_e11);
    let n48 = 5real * n47;
    assert(n48 == 5real * m_a_e11);
    let n49 = n46 + n48;
    assert(n49 == e21 + 5real * m_a_e11 + 5real * m_b_e20);
    let n50 = b * e10;
    assert(n50 == m_b_e10);
    let n51 = a * n50;
    assert(n50 == m_b_e10);
    assert(n51 == m_a_b_e10);
    let n52 = 20real * n51;
    assert(n52 == 20real * m_a_b_e10);
    let n53 = n49 + n52;
    assert(n53 == e21 + 5real * m_a_e11 + 5real * m_b_e20 + 20real * m_a_b_e10);
    let n54 = a * e01;
    assert(n54 == m_a_e01);
    let n55 = a * n54;
    assert(n54 == m_a_e01);
    assert(n55 == m_a_a_e01);
    let n56 = 10real * n55;
    assert(n56 == 10real * m_a_a_e01);
    let n57 = n53 + n56;
    assert(n57 == e21 + 5real * m_a_e11 + 5real * m_b_e20 + 10real * m_a_a_e01 + 20real
        * m_a_b_e10);
    let n58 = b * e00;
    assert(n58 == m_b_e00);
    let n59 = a * n58;
    assert(n58 == m_b_e00);
    assert(n59 == m_a_b_e00);
    let n60 = a * n59;
    assert(n59 == m_a_b_e00);
    assert(n60 == m_a_a_b_e00);
    let n61 = 30real * n60;
    assert(n61 == 30real * m_a_a_b_e00);
    let n62 = n57 + n61;
    assert(n62 == e21 + 5real * m_a_e11 + 5real * m_b_e20 + 10real * m_a_a_e01 + 20real
        * m_a_b_e10 + 30real * m_a_a_b_e00);
    let n63 = b * g20;
    assert(n63 == m_b_g20);
    let n64 = 5real * n63;
    assert(n64 == 5real * m_b_g20);
    let n65 = g21 + n64;
    assert(n65 == g21 + 5real * m_b_g20);
    let n66 = a * g11;
    assert(n66 == m_a_g11);
    let n67 = 5real * n66;
    assert(n67 == 5real * m_a_g11);
    let n68 = n65 + n67;
    assert(n68 == g21 + 5real * m_a_g11 + 5real * m_b_g20);
    let n69 = b * g10;
    assert(n69 == m_b_g10);
    let n70 = a * n69;
    assert(n69 == m_b_g10);
    assert(n70 == m_a_b_g10);
    let n71 = 20real * n70;
    assert(n71 == 20real * m_a_b_g10);
    let n72 = n68 + n71;
    assert(n72 == g21 + 5real * m_a_g11 + 5real * m_b_g20 + 20real * m_a_b_g10);
    let n73 = a * g01;
    assert(n73 == m_a_g01);
    let n74 = a * n73;
    assert(n73 == m_a_g01);
    assert(n74 == m_a_a_g01);
    let n75 = 10real * n74;
    assert(n75 == 10real * m_a_a_g01);
    let n76 = n72 + n75;
    assert(n76 == g21 + 5real * m_a_g11 + 5real * m_b_g20 + 10real * m_a_a_g01 + 20real
        * m_a_b_g10);
    let n77 = b * g00;
    assert(n77 == m_b_g00);
    let n78 = a * n77;
    assert(n77 == m_b_g00);
    assert(n78 == m_a_b_g00);
    let n79 = a * n78;
    assert(n78 == m_a_b_g00);
    assert(n79 == m_a_a_b_g00);
    let n80 = 30real * n79;
    assert(n80 == 30real * m_a_a_b_g00);
    let n81 = n76 + n80;
    assert(n81 == g21 + 5real * m_a_g11 + 5real * m_b_g20 + 10real * m_a_a_g01 + 20real
        * m_a_b_g10 + 30real * m_a_a_b_g00);
    let n82 = n62 + n81;
    assert(n82 == e21 + g21 + 5real * m_a_e11 + 5real * m_a_g11 + 5real * m_b_e20 + 5real
        * m_b_g20 + 10real * m_a_a_e01 + 10real * m_a_a_g01 + 20real * m_a_b_e10 + 20real
        * m_a_b_g10 + 30real * m_a_a_b_e00 + 30real * m_a_a_b_g00);
    assert(n43 == n82);
}

/// What a movement carries into the sum of mixed third degree, times the share
/// of that sum, is the moment after the movement: `h` names the shares.
pub(crate) proof fn lemma_carried_share_mixed_third(a: real, b: real, e21: real, e20: real,
    e11: real, e10: real, e01: real, e00: real, h21: real, h20: real, h11: real, h10: real,
    h01: real, h00: real)
    requires
        h20 == 5real * h21,
        h11 == (5real / 2real) * h21,
        h10 == 10real * h21,
        h01 == 10real * h21,
        h00 == 30real * h21,
    ensures
        (e21 + 5real * (b * e20) + 5real * (a * e11) + 20real * (a * (b * e10)) + 10real * (a
            * (a * e01)) + 30real * (a * (a * (b * e00)))) * h21 == e21 * h21 + 2real * (a * (e11
            * h11)) + a * (a * (e01 * h01)) + b * (e20 * h20) + 2real * (a * (b * (e10 * h10)))
            + a * (a * (b * (e00 * h00))),
{
    let m_b_e20 = b * e20;
    let m_a_e11 = a * e11;
    let m_b_e10 = b * e10;
    let m_a_b_e10 = a * (b * e10);
    let m_a_e01 = a * e01;
    let m_a_a_e01 = a * (a * e01);
    let m_b_e00 = b * e00;
    let m_a_b_e00 = a * (b * e00);
    let m_a_a_b_e00 = a * (a * (b * e00));
    let m_h21_e21 = h21 * e21;
    let m_a_h21_e11 = a * (h21 * e11);
    let m_b_h21_e20 = b * (h21 * e20);
    let m_a_a_h21_e01 = a * (a * (h21 * e01));
    let m_a_b_h21_e10 = a * (b * (h21 * e10));
    let m_a_a_b_h21_e00 = a * (a * (b * (h21 * e00)));
    let m_h21_e11 = h21 * e11;
    let m_h21_e01 = h21 * e01;
    let m_a_h21_e01 = a * (h21 * e01);
    let m_h21_e20 = h21 * e20;
    let m_h21_e10 = h21 * e10;
    let m_b_h21_e10 = b * (h21 * e10);
    let m_h21_e00 = h21 * e00;
    let m_b_h21_e00 = b * (h21 * e00);
    let m_a_b_h21_e00 = a * (b * (h21 * e00));
    let n1 = b * e20;
    assert(n1 == m_b_e20);
    let n2 = 5real * n1;
    assert(n2 == 5real * m_b_e20);
    let n3 = e21 + n2;
    assert(n3 == e21 + 5real * m_b_e20);
    let n4 = a * e11;
    assert(n4 == m_a_e11);
    let n5 = 5real * n4;
    assert(n5 == 5real * m_a_e11);
    let n6 = n3 + n5;
    assert(n6 == e21 + 5real * m_a_e11 + 5real * m_b_e20);
    let n7 = b * e10;
    assert(n7 == m_b_e10);
    let n8 = a * n7;
    assert(n7 == m_b_e10);
    assert(a * m_b_e10 == m_a_b_e10) by (nonlinear_arith)
        requires
            m_b_e10 == b * e10,
            m_a_b_e10 == a * (b * e10),
    ;
    assert(n8 == m_a_b_e10);
    let n9 = 20real * n8;
    assert(n9 == 20real * m_a_b_e10);
    let n10 = n6 + n9;
    assert(n10 == e21 + 5real * m_a_e11 + 5real * m_b_e20 + 20real * m_a_b_e10);
    let n11 = a * e01;
    assert(n11 == m_a_e01);
    let n12 = a * n11;
    assert(n11 == m_a_e01);
    assert(a * m_a_e01 == m_a_a_e01) by (nonlinear_arith)
        requires
            m_a_e01 == a * e01,
            m_a_a_e01 == a * (a * e01),
    ;
    assert(n12 == m_a_a_e01);
    let n13 = 10real * n12;
    assert(n13 == 10real * m_a_a_e01);
    let n14 = n10 + n13;
    assert(n14 == e21 + 5real * m_a_e11 + 5real * m_b_e20 + 10real * m_a_a_e01 + 20real
        * m_a_b_e10);
    let n15 = b * e00;
    assert(n15 == m_b_e00);
    let n16 = a * n15;
    assert(n15 == m_b_e00);
    assert(a * m_b_e00 == m_a_b_e00) by (nonlinear_arith)
        requires
            m_b_e00 == b * e00,
            m_a_b_e00 == a * (b * e00),
    ;
    assert(n16 == m_a_b_e00);
    let n17 = a * n16;
    assert(n16 == m_a_b_e00);
    assert(a * m_a_b_e00 == m_a_a_b_e00) by (nonlinear_arith)
        requires
            m_a_b_e00 == a * (b * e00),
            m_a_a_b_e00 == a * (a * (b * e00)),
    ;
    assert(n17 == m_a_a_b_e00);
    let n18 = 30real * n17;
    assert(n18 == 30real * m_a_a_b_e00);
    let n19 = n14 + n18;
    assert(n19 == e21 + 5real * m_a_e11 + 5real * m_b_e20 + 10real * m_a_a_e01 + 20real
        * m_a_b_e10 + 30real * m_a_a_b_e00);
    let n20 = n19 * h21;
    let s21 = e21;
    let s22 = s21 + 5real * m_a_e11;
    let s23 = s22 + 5real * m_b_e20;
    let s24 = s23 + 10real * m_a_a_e01;
    let s25 = s24 + 20real * m_a_b_e10;
    let s26 = s25 + 30real * m_a_a_b_e00;
    assert(n19 == s26);
    lemma_sum_times(s21, 5real * m_a_e11, h21);
    lemma_scaled_times(5real, m_a_e11, h21);
    lemma_sum_times(s22, 5real * m_b_e20, h21);
    lemma_scaled_times(5real, m_b_e20, h21);
    lemma_sum_times(s23, 10real * m_a_a_e01, h21);
    lemma_scaled_times(10real, m_a_a_e01, h21);
    lemma_sum_times(s24, 20real * m_a_b_e10, h21);
    lemma_scaled_times(20real, m_a_b_e10, h21);
    lemma_sum_times(s25, 30real * m_a_a_b_e00, h21);
    lemma_scaled_times(30real, m_a_a_b_e00, h21);
    assert(e21 * h21 == m_h21_e21) by (nonlinear_arith)
        requires
            m_h21_e21 == h21 * e21,
    ;
    assert(m_a_e11 * h21 == m_a_h21_e11) by (nonlinear_arith)
        requires
            m_a_e11 == a * e11,
            m_a_h21_e11 == a * (h21 * e11),
    ;
    assert(m_b_e20 * h21 == m_b_h21_e20) by (nonlinear_arith)
        requires
            m_b_e20 == b * e20,
            m_b_h21_e20 == b * (h21 * e20),
    ;
    assert(m_a_a_e01 * h21 == m_a_a_h21_e01) by (nonlinear_arith)
        requires
            m_a_a_e01 == a * (a * e01),
            m_a_a_h21_e01 == a * (a * (h21 * e01)),
    ;
    assert(m_a_b_e10 * h21 == m_a_b_h21_e10) by (nonlinear_arith)
        requires
            m_a_b_e10 == a * (b * e10),
            m_a_b_h21_e10 == a * (b * (h21 * e10)),
    ;
    assert(m_a_a_b_e00 * h21 == m_a_a_b_h21_e00) by (nonlinear_arith)
        requires
            m_a_a_b_e00 == a * (a * (b * e00)),
            m_a_a_b_h21_e00 == a * (a * (b * (h21 * e00))),
    ;
    assert(n20 == m_h21_e21 + 5real * m_a_h21_e11 + 5real * m_b_h21_e20 + 10real * m_a_a_h21_e01
        + 20real * m_a_b_h21_e10 + 30real * m_a_a_b_h21_e00);
    let n27 = e21 * h21;
    assert(n27 == m_h21_e21);
    let n28 = e11 * h11;
    let s29 = (5real / 2real) * h21;
    assert(h11 == s29);
    lemma_times_scaled(e11, (5real / 2real), h21);
    assert(e11 * h21 == m_h21_e11) by (nonlinear_arith)
        requires
            m_h21_e11 == h21 * e11,
    ;
    assert(n28 == (5real / 2real) * m_h21_e11);
    let n30 = a * n28;
    let s31 = (5real / 2real) * m_h21_e11;
    assert(n28 == s31);
    lemma_times_scaled(a, (5real / 2real), m_h21_e11);
    assert(a * m_h21_e11 == m_a_h21_e11) by (nonlinear_arith)
        requires
            m_h21_e11 == h21 * e11,
            m_a_h21_e11 == a * (h21 * e11),
    ;
    assert(n30 == (5real / 2real) * m_a_h21_e11);
    let n32 = 2real * n30;
    assert(n32 == 5real * m_a_h21_e11);
    let n33 = n27 + n32;
    assert(n33 == m_h21_e21 + 5real * m_a_h21_e11);
    let n34 = e01 * h01;
    let s35 = 10real * h21;
    assert(h01 == s35);
    lemma_times_scaled(e01, 10real, h21);
    assert(e01 * h21 == m_h21_e01) by (nonlinear_arith)
        requires
            m_h21_e01 == h21 * e01,
    ;
    assert(n34 == 10real * m_h21_e01);
    let n36 = a * n34;
    let s37 = 10real * m_h21_e01;
    assert(n34 == s37);
    lemma_times_scaled(a, 10real, m_h21_e01);
    assert(a * m_h21_e01 == m_a_h21_e01) by (nonlinear_arith)
        requires
            m_h21_e01 == h21 * e01,
            m_a_h21_e01 == a * (h21 * e01),
    ;
    assert(n36 == 10real * m_a_h21_e01);
    let n38 = a * n36;
    let s39 = 10real * m_a_h21_e01;
    assert(n36 == s39);
    lemma_times_scaled(a, 10real, m_a_h21_e01);
    assert(a * m_a_h21_e01 == m_a_a_h21_e01) by (nonlinear_arith)
        requires
            m_a_h21_e01 == a * (h21 * e01),
            m_a_a_h21_e01 == a * (a * (h21 * e01)),
    ;
    assert(n38 == 10real * m_a_a_h21_e01);
    let n40 = n33 + n38;
    assert(n40 == m_h21_e21 + 5real * m_a_h21_e11 + 10real * m_a_a_h21_e01);
    let n41 = e20 * h20;
    let s42 = 5real * h21;
    assert(h20 == s42);
    lemma_times_scaled(e20, 5real, h21);
    assert(e20 * h21 == m_h21_e20) by (nonlinear_arith)
        requires
            m_h21_e20 == h21 * e20,
    ;
    assert(n41 == 5real * m_h21_e20);
    let n43 = b * n41;
    let s44 = 5real * m_h21_e20;
    assert(n41 == s44);
    lemma_times_scaled(b, 5real, m_h21_e20);
    assert(b * m_h21_e20 == m_b_h21_e20) by (nonlinear_arith)
        requires
            m_h21_e20 == h21 * e20,
            m_b_h21_e20 == b * (h21 * e20),
    ;
    assert(n43 == 5real * m_b_h21_e20);
    let n45 = n40 + n43;
    assert(n45 == m_h21_e21 + 5real * m_a_h21_e11 + 5real * m_b_h21_e20 + 10real * m_a_a_h21_e01);
    let n46 = e10 * h10;
    let s47 = 10real * h21;
    assert(h10 == s47);
    lemma_times_scaled(e10, 10real, h21);
    assert(e10 * h21 == m_h21_e10) by (nonlinear_arith)
        requires
            m_h21_e10 == h21 * e10,
    ;
    assert(n46 == 10real * m_h21_e10);
    let n48 = b * n46;
    let s49 = 10real * m_h21_e10;
    assert(n46 == s49);
    lemma_times_scaled(b, 10real, m_h21_e10);
    assert(b * m_h21_e10 == m_b_h21_e10) by (nonlinear_arith)
        requires
            m_h21_e10 == h21 * e10,
            m_b_h21_e10 == b * (h21 * e10),
    ;
    assert(n48 == 10real * m_b_h21_e10);
    let n50 = a * n48;
    let s51 = 10real * m_b_h21_e10;
    assert(n48 == s51);
    lemma_times_scaled(a, 10real, m_b_h21_e10);
    assert(a * m_b_h21_e10 == m_a_b_h21_e10) by (nonlinear_arith)
        requires
            m_b_h21_e10 == b * (h21 * e10),
            m_a_b_h21_e10 == a * (b * (h21 * e10)),
    ;
    assert(n50 == 10real * m_a_b_h21_e10);
    let n52 = 2real * n50;
    assert(n52 == 20real * m_a_b_h21_e10);
    let n53 = n45 + n52;
    assert(n53 == m_h21_e21 + 5real * m_a_h21_e11 + 5real * m_b_h21_e20 + 10real * m_a_a_h21_e01
        + 20real * m_a_b_h21_e10);
    let n54 = e00 * h00;
    let s55 = 30real * h21;
    assert(h00 == s55);
    lemma_times_scaled(e00, 30real, h21);
    assert(e00 * h21 == m_h21_e00) by (nonlinear_arith)
        requires
            m_h21_e00 == h21 * e00,
    ;
    assert(n54 == 30real * m_h21_e00);
    let n56 = b * n54;
    let s57 = 30real * m_h21_e00;
    assert(n54 == s57);
    lemma_times_scaled(b, 30real, m_h21_e00);
    assert(b * m_h21_e00 == m_b_h21_e00) by (nonlinear_arith)
        requires
            m_h21_e00 == h21 * e00,
            m_b_h21_e00 == b * (h21 * e00),
    ;
    assert(n56 == 30real * m_b_h21_e00);
    let n58 = a * n56;
    let s59 = 30real * m_b_h21_e00;
    assert(n56 == s59);
    lemma_times_scaled(a, 30real, m_b_h21_e00);
    assert(a * m_b_h21_e00 == m_a_b_h21_e00) by (nonlinear_arith)
        requires
            m_b_h21_e00 == b * (h21 * e00),
            m_a_b_h21_e00 == a * (b * (h21 * e00)),
    ;
    assert(n58 == 30real * m_a_b_h21_e00);
    let n60 = a * n58;
    let s61 = 30real * m_a_b_h21_e00;
    assert(n58 == s61);
    lemma_times_scaled(a, 30real, m_a_b_h21_e00);
    assert(a * m_a_b_h21_e00 == m_a_a_b_h21_e00) by (nonlinear_arith)
        requires
            m_a_b_h21_e00 == a * (b * (h21 * e00)),
            m_a_a_b_h21_e00 == a * (a * (b * (h21 * e00))),
    ;
    assert(n60 == 30real * m_a_a_b_h21_e00);
    let n62 = n53 + n60;
    assert(n62 == m_h21_e21 + 5real * m_a_h21_e11 + 5real * m_b_h21_e20 + 10real * m_a_a_h21_e01
        + 20real * m_a_b_h21_e10 + 30real * m_a_a_b_h21_e00);
    assert(n20 == n62);
}

/// The mixed factor of second degree does not depend on the axis that is
/// named first.
pub(crate) proof fn lemma_mixed_second_mirror(px: real, py: real, qx: real, qy: real)
    ensures
        py * (px + qx + px) + qy * (px + qx + qx) == px * (py + qy + py) + qx * (py + qy + qy),
{
    let m_px_py = px * py;
    let m_py_qx = py * qx;
    let m_px_qy = px * qy;
    let m_qx_qy = qx * qy;
    let n1 = px + qx;
    assert(n1 == px + qx);
    let n2 = n1 + px;
    assert(n2 == 2real * px + qx);
    let n3 = py * n2;
    let s4 = 2real * px;
    let s5 = s4 + qx;
    assert(n2 == s5);
    lemma_times_scaled(py, 2real, px);
    lemma_times_sum(py, s4, qx);
    assert(py * px == m_px_py) by (nonlinear_arith)
        requires
            m_px_py == px * py,
    ;
    assert(n3 == 2real * m_px_py + m_py_qx);
    let n6 = n1 + qx;
    assert(n6 == px + 2real * qx);
    let n7 = qy * n6;
    let s8 = px;
    let s9 = s8 + 2real * qx;
    assert(n6 == s9);
    lemma_times_sum(qy, s8, 2real * qx);
    lemma_times_scaled(qy, 2real, qx);
    assert(qy * px == m_px_qy) by (nonlinear_arith)
        requires
            m_px_qy == px * qy,
    ;
    assert(qy * qx == m_qx_qy) by (nonlinear_arith)
        requires
            m_qx_qy == qx * qy,
    ;
    assert(n7 == m_px_qy + 2real * m_qx_qy);
    let n10 = n3 + n7;
    assert(n10 == 2real * m_px_py + m_px_qy + m_py_qx + 2real * m_qx_qy);
    let n11 = py + qy;
    assert(n11 == py + qy);
    let n12 = n11 + py;
    assert(n12 == 2real * py + qy);
    let n13 = px * n12;
    let s14 = 2real * py;
    let s15 = s14 + qy;
    assert(n12 == s15);
    lemma_times_scaled(px, 2real, py);
    lemma_times_sum(px, s14, qy);
    assert(n13 == 2real * m_px_py + m_px_qy);
    let n16 = n11 + qy;
    assert(n16 == py + 2real * qy);
    let n17 = qx * n16;
    let s18 = py;
    let s19 = s18 + 2real * qy;
    assert(n16 == s19);
    lemma_times_sum(qx, s18, 2real * qy);
    lemma_times_scaled(qx, 2real, qy);
    assert(qx * py == m_py_qx) by (nonlinear_arith)
        requires
            m_py_qx == py * qx,
    ;
    assert(n17 == m_py_qx + 2real * m_qx_qy);
    let n20 = n13 + n17;
    assert(n20 == 2real * m_px_py + m_px_qy + m_py_qx + 2real * m_qx_qy);
    assert(n10 == n20);
}

/// The sum of an edge that has moved, by the same sum with the apex of
/// the triangle under the edge at either end of it: `d` and `dd` are the
/// cross terms of the edge before and after, `x` and `y` those that the
/// movement `(a, b)` spans with the moved start and end; `t` is the factor
/// of the moved edge, `tq` and `tp` those from the movement to its ends,
/// and `kt` the factor of the edge with what the movement carries into it.
pub(crate) proof fn lemma_apex(
    d: real,
    dd: real,
    x: real,
    y: real,
    a: real,
    b: real,
    px: real,
    py: real,
    qx: real,
    qy: real,
    t: real,
    kt: real,
    tq: real,
    tp: real,
    wu: real,
    wv: real,
)
    requires
        dd == d + y - x,
        d * a == y * px - x * qx,
        d * b == y * py - x * qy,
        kt - t == a * wu + b * wv,
        t - tq == px * wu + py * wv,
        t - tp == qx * wu + qy * wv,
    ensures
        dd * t == d * kt + y * tq - x * tp,
{
    let au = a * wu;
    let bv = b * wv;
    let pu = px * wu;
    let pv = py * wv;
    let qu = qx * wu;
    let qv = qy * wv;
    // the three products, summand by summand
    lemma_sum_times(d + y, x, t);
    lemma_sum_times(d, y, t);
    assert(dd * t == d * t + y * t - x * t);
    lemma_times_sum(d, t + au, bv);
    lemma_times_sum(d, t, au);
    assert(kt == t + au + bv);
    assert(d * kt == d * t + d * au + d * bv);
    lemma_times_sum(y, t - pu, pv);
    lemma_times_sum(y, t, pu);
    assert(tq == t - pu - pv);
    assert(y * tq == y * t - y * pu - y * pv);
    lemma_times_sum(x, t - qu, qv);
    lemma_times_sum(x, t, qu);
    assert(tp == t - qu - qv);
    assert(x * tp == x * t - x * qu - x * qv);
    // what is left over vanishes with the cross term times each coordinate
    let da = d * a;
    let ypx = y * px;
    let xqx = x * qx;
    assert(d * au == da * wu) by (nonlinear_arith)
        requires
            au == a * wu,
            da == d * a,
    ;
    assert(y * pu == ypx * wu) by (nonlinear_arith)
        requires
            pu == px * wu,
            ypx == y * px,
    ;
    assert(x * qu == xqx * wu) by (nonlinear_arith)
        requires
            qu == qx * wu,
            xqx == x * qx,
    ;
    lemma_sum_times(ypx, xqx, wu);
    assert(da * wu == ypx * wu - xqx * wu);
    let db = d * b;
    let ypy = y * py;
    let xqy = x * qy;
    assert(d * bv == db * wv) by (nonlinear_arith)
        requires
            bv == b * wv,
            db == d * b,
    ;
    assert(y * pv == ypy * wv) by (nonlinear_arith)
        requires
            pv == py * wv,
            ypy == y * py,
    ;
    assert(x * qv == xqy * wv) by (nonlinear_arith)
        requires
            qv == qy * wv,
            xqy == x * qy,
    ;
    lemma_sum_times(ypy, xqy, wv);
    assert(db * wv == ypy * wv - xqy * wv);
}

} // verus!
