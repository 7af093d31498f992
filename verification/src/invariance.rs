//! The laws of the moments over the real numbers: what becomes of them when
//! a polygon is moved or scaled.
use vstd::prelude::*;

verus! {

/// Whether the table `moved` holds, for every coefficient, the raw moment
/// that the table `raw` gives it after every point has moved by `(a, b)`.
pub open spec fn is_shifted(
    moved: spec_fn(int, int) -> real,
    raw: spec_fn(int, int) -> real,
    a: real,
    b: real,
) -> bool {
    forall|k: int, l: int|
        0 <= k && 0 <= l && k + l <= 3 ==> #[trigger] moved(k, l) == crate::polygon::shifted(
            k,
            l,
            a,
            b,
            raw,
        )
}

/// Whether the table `big` holds, for every coefficient `(k, l)`, the
/// value of the table `small` times the power `k + l + 2` of `factor`.
pub open spec fn is_grown(
    big: spec_fn(int, int) -> real,
    small: spec_fn(int, int) -> real,
    factor: real,
) -> bool {
    forall|k: int, l: int|
        0 <= k && 0 <= l && k + l <= 3 ==> #[trigger] big(k, l) == crate::exact::power(
            factor,
            (k + l + 2) as nat,
        ) * small(k, l)
}

/// The central moments do not move with the points: where every raw
/// moment is the one that a movement of all points by `(a, b)` gives it,
/// the central moments are the same, unless the moment `(0, 0)` is within
/// `epsilon` of zero or below.
pub proof fn lemma_central_shifted(
    i: int,
    j: int,
    a: real,
    b: real,
    raw: spec_fn(int, int) -> real,
    moved: spec_fn(int, int) -> real,
    epsilon: real,
)
    requires
        0 <= i,
        0 <= j,
        i + j <= 3,
        epsilon >= 0real,
        raw(0, 0) > epsilon,
        is_shifted(moved, raw, a, b),
    ensures
        crate::polygon::central(i, j, moved, epsilon) == crate::polygon::central(i, j, raw, epsilon),
{
    let m = raw(0, 0);
    let (cx, cy) = crate::polygon::center(raw, epsilon);
    let (dx, dy) = crate::polygon::center(moved, epsilon);
    assert(moved(0, 0) == m);
    crate::algebra::lemma_quotient_back(raw(1, 0), m);
    crate::algebra::lemma_quotient_back(raw(0, 1), m);
    assert((cx + a) * m == cx * m + a * m) by (nonlinear_arith);
    assert((cy + b) * m == cy * m + b * m) by (nonlinear_arith);
    crate::algebra::lemma_quotient(cx + a, moved(1, 0), m);
    crate::algebra::lemma_quotient(cy + b, moved(0, 1), m);
    assert(dx == cx + a);
    assert(dy == cy + b);
    crate::algebra::lemma_swap(cx, m, cy);
    assert(raw(1, 0) * cy == cx * raw(0, 1));
    let mu20 = raw(2, 0) - raw(1, 0) * cx;
    let mu11 = raw(1, 1) - raw(1, 0) * cy;
    let mu02 = raw(0, 2) - raw(0, 1) * cy;
    crate::algebra::lemma_second_pure(m, cx, a, raw(1, 0), raw(2, 0));
    crate::algebra::lemma_second_pure(m, cy, b, raw(0, 1), raw(0, 2));
    crate::algebra::lemma_second_mixed(m, cx, cy, a, b, raw(1, 0), raw(0, 1), raw(1, 1));
    assert(crate::polygon::central(2, 0, moved, epsilon) == mu20);
    assert(crate::polygon::central(1, 1, moved, epsilon) == mu11);
    assert(crate::polygon::central(0, 2, moved, epsilon) == mu02);
    if i == 3 && j == 0 {
        crate::algebra::lemma_third_pure(m, cx, a, raw(1, 0), raw(2, 0), raw(3, 0), mu20);
    } else if i == 0 && j == 3 {
        crate::algebra::lemma_third_pure(m, cy, b, raw(0, 1), raw(0, 2), raw(0, 3), mu02);
    } else if i == 2 && j == 1 {
        crate::algebra::lemma_third_mixed(
            m,
            cx,
            cy,
            a,
            b,
            raw(1, 0),
            raw(0, 1),
            raw(2, 0),
            raw(1, 1),
            raw(2, 1),
            mu20,
            mu11,
        );
    } else if i == 1 && j == 2 {
        crate::algebra::lemma_third_mixed(
            m,
            cy,
            cx,
            b,
            a,
            raw(0, 1),
            raw(1, 0),
            raw(0, 2),
            raw(1, 1),
            raw(1, 2),
            mu02,
            mu11,
        );
    }
}

/// The sums over the edges of a polygon grow with the power `i + j + 2`
/// of the factor by which the polygon is scaled.
pub proof fn lemma_edge_sum_scaled(
    i: int,
    j: int,
    l: real,
    vertices: Seq<(real, real)>,
    edges: nat,
)
    requires
        0 <= i,
        0 <= j,
        i + j <= 3,
        edges <= vertices.len(),
    ensures
        crate::polygon::edge_sum(i, j, crate::polygon::scaled_by(vertices, l), edges) == crate::exact::power(
            l,
            (i + j + 2) as nat,
        ) * crate::polygon::edge_sum(i, j, vertices, edges),
    decreases edges,
{
    let g = crate::exact::power(l, (i + j + 2) as nat);
    let grown = crate::polygon::scaled_by(vertices, l);
    if edges == 0 {
        assert(g * 0real == 0real) by (nonlinear_arith);
    } else {
        let n = vertices.len() as int;
        vstd::arithmetic::div_mod::lemma_mod_pos_bound(edges as int, n);
        let first = edges - 1;
        let second = edges as int % n;
        let before = crate::polygon::edge_sum(i, j, vertices, first as nat);
        let added = crate::polygon::edge(i, j, vertices[first], vertices[second]);
        let grown_before = crate::polygon::edge_sum(i, j, grown, first as nat);
        let grown_added = crate::polygon::edge(i, j, grown[first], grown[second]);
        lemma_edge_sum_scaled(i, j, l, vertices, first as nat);
        assert(grown_before == g * before);
        assert(grown[first] == (l * vertices[first].0, l * vertices[first].1));
        assert(grown[second] == (l * vertices[second].0, l * vertices[second].1));
        crate::algebra::lemma_edge_scaled(i, j, l, vertices[first], vertices[second]);
        assert(grown_added == g * added);
        crate::algebra::lemma_multiple_of_sum(g, before, added);
        assert(g * (before + added) == g * before + g * added);
        assert(grown.len() == n);
        assert(crate::polygon::edge_sum(i, j, grown, edges) == grown_before + grown_added);
        assert(crate::polygon::edge_sum(i, j, vertices, edges) == before + added);
    }
}

/// The raw moment `(i, j)` of a polygon grows with the power `i + j + 2`
/// of the factor by which the polygon is scaled, where the area exceeds
/// `epsilon` before and after.
pub proof fn lemma_moment_scaled(
    i: int,
    j: int,
    l: real,
    vertices: Seq<(real, real)>,
    epsilon: real,
)
    requires
        0 <= i,
        0 <= j,
        i + j <= 3,
        l > 0real,
        epsilon >= 0real,
        crate::polygon::moment(0, 0, vertices, epsilon) > epsilon,
        crate::polygon::moment(0, 0, crate::polygon::scaled_by(vertices, l), epsilon) > epsilon,
    ensures
        crate::polygon::moment(i, j, crate::polygon::scaled_by(vertices, l), epsilon)
            == crate::exact::power(l, (i + j + 2) as nat) * crate::polygon::moment(
            i,
            j,
            vertices,
            epsilon,
        ),
{
    let grown = crate::polygon::scaled_by(vertices, l);
    let n = vertices.len();
    assert(grown.len() == n);
    let g = crate::exact::power(l, (i + j + 2) as nat);
    let k = l * l;
    crate::algebra::lemma_powers(l);
    crate::algebra::lemma_positive_product(l, l);
    lemma_edge_sum_scaled(i, j, l, vertices, n);
    lemma_edge_sum_scaled(0, 0, l, vertices, n);
    let sum = crate::polygon::total(i, j, vertices);
    let area_sum = crate::polygon::total(0, 0, vertices);
    let grown_area_sum = crate::polygon::total(0, 0, grown);
    assert(grown_area_sum == k * area_sum);
    assert(crate::polygon::total(i, j, grown) == g * sum);
    assert(crate::polygon::magnitude(area_sum) > epsilon);
    assert(crate::polygon::magnitude(grown_area_sum) > epsilon);
    assert((area_sum >= 0real) == (grown_area_sum >= 0real)) by (nonlinear_arith)
        requires
            grown_area_sum == k * area_sum,
            k > 0real,
    ;
    let part = crate::polygon::share(i, j);
    crate::algebra::lemma_swap(g, sum, part);
    crate::algebra::lemma_swap(g, sum, -part);
}

/// The central moment `(i, j)` grows with the power `i + j + 2` of the
/// factor by which the polygon is scaled: where every raw moment has
/// grown so and the moment `(0, 0)` exceeds `epsilon` before and after, the
/// central moments have grown in the same way.
pub proof fn lemma_central_grown(
    i: int,
    j: int,
    l: real,
    raw: spec_fn(int, int) -> real,
    big: spec_fn(int, int) -> real,
    epsilon: real,
)
    requires
        0 <= i,
        0 <= j,
        i + j <= 3,
        l > 0real,
        epsilon >= 0real,
        raw(0, 0) > epsilon,
        big(0, 0) > epsilon,
        is_grown(big, raw, l),
    ensures
        crate::polygon::central(i, j, big, epsilon) == crate::exact::power(l, (i + j + 2) as nat)
            * crate::polygon::central(i, j, raw, epsilon),
{
    crate::algebra::lemma_powers(l);
    let k = l * l;
    let l3 = l * k;
    let l4 = l * l3;
    let l5 = l * l4;
    let m = raw(0, 0);
    let (cx, cy) = crate::polygon::center(raw, epsilon);
    let (dx, dy) = crate::polygon::center(big, epsilon);
    assert(big(0, 0) == k * m);
    assert(big(1, 0) == l3 * raw(1, 0));
    assert(big(0, 1) == l3 * raw(0, 1));
    assert(big(2, 0) == l4 * raw(2, 0));
    assert(big(1, 1) == l4 * raw(1, 1));
    assert(big(0, 2) == l4 * raw(0, 2));
    assert(big(3, 0) == l5 * raw(3, 0));
    assert(big(2, 1) == l5 * raw(2, 1));
    assert(big(1, 2) == l5 * raw(1, 2));
    assert(big(0, 3) == l5 * raw(0, 3));
    crate::algebra::lemma_quotient_back(raw(1, 0), m);
    crate::algebra::lemma_quotient_back(raw(0, 1), m);
    crate::algebra::lemma_multiples(l, cx, k, m);
    crate::algebra::lemma_multiples(l, cy, k, m);
    crate::algebra::lemma_quotient(l * cx, big(1, 0), k * m);
    crate::algebra::lemma_quotient(l * cy, big(0, 1), k * m);
    assert(dx == l * cx);
    assert(dy == l * cy);
    let mu20 = raw(2, 0) - raw(1, 0) * cx;
    let mu11 = raw(1, 1) - raw(1, 0) * cy;
    let mu02 = raw(0, 2) - raw(0, 1) * cy;
    assert(l3 * l == l4) by (nonlinear_arith)
        requires
            l4 == l * l3,
    ;
    crate::algebra::lemma_second_grown(l3, l, l4, raw(1, 0), cx, raw(2, 0));
    crate::algebra::lemma_second_grown(l3, l, l4, raw(1, 0), cy, raw(1, 1));
    crate::algebra::lemma_second_grown(l3, l, l4, raw(0, 1), cy, raw(0, 2));
    assert(crate::polygon::central(2, 0, big, epsilon) == l4 * mu20);
    assert(crate::polygon::central(1, 1, big, epsilon) == l4 * mu11);
    assert(crate::polygon::central(0, 2, big, epsilon) == l4 * mu02);
    if i + j == 1 {
        assert(l3 * 0real == 0real) by (nonlinear_arith);
    } else if i == 3 && j == 0 {
        crate::algebra::lemma_third_pure_grown(l, l3, l4, l5, cx, raw(1, 0), raw(3, 0), mu20);
    } else if i == 0 && j == 3 {
        crate::algebra::lemma_third_pure_grown(l, l3, l4, l5, cy, raw(0, 1), raw(0, 3), mu02);
    } else if i == 2 && j == 1 {
        crate::algebra::lemma_third_mixed_grown(
            l,
            l3,
            l4,
            l5,
            cx,
            cy,
            raw(0, 1),
            raw(2, 1),
            mu11,
            mu20,
        );
    } else if i == 1 && j == 2 {
        crate::algebra::lemma_third_mixed_grown(
            l,
            l3,
            l4,
            l5,
            cy,
            cx,
            raw(1, 0),
            raw(1, 2),
            mu11,
            mu02,
        );
    }
}

/// The normalized central moments do not grow with the polygon: where
/// every central moment `(k, l)` has grown by the power `k + l + 2` of a
/// positive factor and the moment `(0, 0)` exceeds `epsilon` before and
/// after, the normalized central moments are the same. The inverse of the
/// moment `(0, 0)` is taken to have a square root.
pub proof fn lemma_normalized_grown(
    i: int,
    j: int,
    l: real,
    mu: spec_fn(int, int) -> real,
    big: spec_fn(int, int) -> real,
    epsilon: real,
)
    requires
        0 <= i,
        0 <= j,
        i + j <= 3,
        l > 0real,
        epsilon >= 0real,
        mu(0, 0) > epsilon,
        big(0, 0) > epsilon,
        is_grown(big, mu, l),
        crate::polygon::has_root(crate::polygon::inverse(mu(0, 0), epsilon)),
    ensures
        crate::polygon::normalized(i, j, big, epsilon) == crate::polygon::normalized(
            i,
            j,
            mu,
            epsilon,
        ),
{
    if i + j >= 2 {
        crate::algebra::lemma_powers(l);
        crate::algebra::lemma_powers_by_square(l);
        crate::algebra::lemma_positive_product(l, l);
        let k = l * l;
        let m = mu(0, 0);
        let inv = crate::polygon::inverse(m, epsilon);
        let small = crate::polygon::inverse(big(0, 0), epsilon);
        assert(big(0, 0) == k * m);
        assert(inv == 1real / m);
        assert(small == 1real / (k * m));
        crate::algebra::lemma_quotient_back(1real, m);
        crate::algebra::lemma_quotient_back(1real, k * m);
        crate::algebra::lemma_swap(small, k, m);
        assert((small * k) * m == 1real);
        crate::algebra::lemma_quotient(small * k, 1real, m);
        assert(small * k == inv);
        let value = mu(i, j);
        if i + j == 2 {
            assert(big(i, j) == (k * k) * value);
            crate::algebra::lemma_normalizer_second(k, value, small, inv);
        } else {
            assert(big(i, j) == (l * (k * k)) * value);
            crate::algebra::lemma_quotient_sign(1real, m);
            crate::algebra::lemma_quotient_sign(1real, k * m);
            assert(inv > 0real);
            assert(small > 0real);
            let r = choose|r: real| crate::polygon::is_root(r, inv);
            assert(crate::polygon::is_root(r, inv));
            let thin = r / l;
            crate::algebra::lemma_quotient_back(r, l);
            crate::algebra::lemma_quotient_sign(r, l);
            crate::algebra::lemma_multiples(thin, l, thin, l);
            assert((thin * thin) * k == small * k);
            crate::algebra::lemma_cancel(thin * thin, small, k);
            assert(crate::polygon::is_root(thin, small));
            crate::polygon::lemma_root_unique(thin, small);
            crate::polygon::lemma_root_unique(r, inv);
            crate::algebra::lemma_normalizer_third(l, k, value, small, inv, thin, r);
        }
    }
}

/// The normalized central moments of a polygon do not change when every
/// coordinate is multiplied by the same positive factor, where the area
/// exceeds `epsilon` before and after. The inverse of the area is taken to
/// have a square root.
pub proof fn lemma_normalized_scaled(
    i: int,
    j: int,
    l: real,
    vertices: Seq<(real, real)>,
    epsilon: real,
)
    requires
        0 <= i,
        0 <= j,
        i + j <= 3,
        l > 0real,
        epsilon >= 0real,
        crate::polygon::moment(0, 0, vertices, epsilon) > epsilon,
        crate::polygon::moment(0, 0, crate::polygon::scaled_by(vertices, l), epsilon) > epsilon,
        crate::polygon::has_root(
            crate::polygon::inverse(crate::polygon::moment(0, 0, vertices, epsilon), epsilon),
        ),
    ensures
        crate::polygon::normalized(
            i,
            j,
            crate::polygon::centrals(
                crate::polygon::moments(crate::polygon::scaled_by(vertices, l), epsilon),
                epsilon,
            ),
            epsilon,
        ) == crate::polygon::normalized(
            i,
            j,
            crate::polygon::centrals(crate::polygon::moments(vertices, epsilon), epsilon),
            epsilon,
        ),
{
    let raw = crate::polygon::moments(vertices, epsilon);
    let grown_raw = crate::polygon::moments(crate::polygon::scaled_by(vertices, l), epsilon);
    assert forall|k: int, h: int| 0 <= k && 0 <= h && k + h <= 3 implies #[trigger] grown_raw(k, h)
        == crate::exact::power(l, (k + h + 2) as nat) * raw(k, h) by {
        lemma_moment_scaled(k, h, l, vertices, epsilon);
    }
    let mu = crate::polygon::centrals(raw, epsilon);
    let grown_mu = crate::polygon::centrals(grown_raw, epsilon);
    assert forall|k: int, h: int| 0 <= k && 0 <= h && k + h <= 3 implies #[trigger] grown_mu(k, h)
        == crate::exact::power(l, (k + h + 2) as nat) * mu(k, h) by {
        lemma_central_grown(k, h, l, raw, grown_raw, epsilon);
    }
    assert(mu(0, 0) == raw(0, 0));
    assert(grown_mu(0, 0) == grown_raw(0, 0));
    lemma_normalized_grown(i, j, l, mu, grown_mu, epsilon);
}

/// What an edge that has moved by `(a, b)` adds to a sum of degree 0 or 1:
/// what the edge itself adds, with what the movement carries into it, and
/// the difference of what the edges from the movement to its two ends
/// add.
proof fn lemma_edge_moved_first(i: int, j: int, a: real, b: real, p: (real, real), q: (real, real))
    requires
        0 <= i,
        0 <= j,
        i + j <= 1,
    ensures
        crate::polygon::edge(i, j, (p.0 + a, p.1 + b), (q.0 + a, q.1 + b)) == crate::polygon::carried(
            i,
            j,
            a,
            b,
            crate::polygon::edge_table(p, q),
        ) + crate::polygon::edge(i, j, (a, b), (q.0 + a, q.1 + b)) - crate::polygon::edge(
            i,
            j,
            (a, b),
            (p.0 + a, p.1 + b),
        ),
{
    let start = (p.0 + a, p.1 + b);
    let end = (q.0 + a, q.1 + b);
    let d = crate::polygon::cross(p, q);
    let dd = crate::polygon::cross(start, end);
    let x = crate::polygon::cross((a, b), start);
    let y = crate::polygon::cross((a, b), end);
    crate::moved::lemma_moved_cross(p.0, p.1, q.0, q.1, a, b, start.0, start.1, end.0, end.1);
    let t = crate::polygon::term(i, j, start, end);
    let tq = crate::polygon::term(i, j, (a, b), end);
    let tp = crate::polygon::term(i, j, (a, b), start);
    let table = crate::polygon::edge_table(p, q);
    assert(table(0, 0) == d * 1real);
    if i == 1 {
        let kt = (p.0 + q.0) + 3real * (a * 1real);
        crate::moved::lemma_apex(d, dd, x, y, a, b, p.0, p.1, q.0, q.1, t, kt, tq, tp, 1real, 0real);
        crate::moved::lemma_carried_edge_first(d, a, p.0 + q.0, 1real);
        assert(table(1, 0) == d * (p.0 + q.0));
    } else if j == 1 {
        let kt = (p.1 + q.1) + 3real * (b * 1real);
        crate::moved::lemma_apex(d, dd, x, y, a, b, p.0, p.1, q.0, q.1, t, kt, tq, tp, 0real, 1real);
        crate::moved::lemma_carried_edge_first(d, b, p.1 + q.1, 1real);
        assert(table(0, 1) == d * (p.1 + q.1));
    } else {
        crate::moved::lemma_apex(
            d,
            dd,
            x,
            y,
            a,
            b,
            p.0,
            p.1,
            q.0,
            q.1,
            1real,
            1real,
            1real,
            1real,
            0real,
            0real,
        );
    }
}

/// The same for a sum of degree 2.
proof fn lemma_edge_moved_second(i: int, j: int, a: real, b: real, p: (real, real), q: (real, real))
    requires
        0 <= i,
        0 <= j,
        i + j == 2,
    ensures
        crate::polygon::edge(i, j, (p.0 + a, p.1 + b), (q.0 + a, q.1 + b)) == crate::polygon::carried(
            i,
            j,
            a,
            b,
            crate::polygon::edge_table(p, q),
        ) + crate::polygon::edge(i, j, (a, b), (q.0 + a, q.1 + b)) - crate::polygon::edge(
            i,
            j,
            (a, b),
            (p.0 + a, p.1 + b),
        ),
{
    let start = (p.0 + a, p.1 + b);
    let end = (q.0 + a, q.1 + b);
    let d = crate::polygon::cross(p, q);
    let dd = crate::polygon::cross(start, end);
    let x = crate::polygon::cross((a, b), start);
    let y = crate::polygon::cross((a, b), end);
    crate::moved::lemma_moved_cross(p.0, p.1, q.0, q.1, a, b, start.0, start.1, end.0, end.1);
    let t = crate::polygon::term(i, j, start, end);
    let tq = crate::polygon::term(i, j, (a, b), end);
    let tp = crate::polygon::term(i, j, (a, b), start);
    let table = crate::polygon::edge_table(p, q);
    let t10 = crate::polygon::term(1, 0, p, q);
    let t01 = crate::polygon::term(0, 1, p, q);
    let tij = crate::polygon::term(i, j, p, q);
    assert(table(0, 0) == d * 1real);
    assert(table(1, 0) == d * t10);
    assert(table(0, 1) == d * t01);
    assert(table(i, j) == d * tij);
    if i == 2 {
        crate::moved::lemma_moved_second(p.0, q.0, a, start.0, end.0);
        let w = start.0 + end.0 + a;
        let kt = tij + 4real * (a * t10) + 6real * (a * (a * 1real));
        crate::moved::lemma_apex(d, dd, x, y, a, b, p.0, p.1, q.0, q.1, t, kt, tq, tp, w, 0real);
        crate::moved::lemma_carried_edge_second(d, a, tij, t10, 1real);
    } else if j == 2 {
        crate::moved::lemma_moved_second(p.1, q.1, b, start.1, end.1);
        let w = start.1 + end.1 + b;
        let kt = tij + 4real * (b * t01) + 6real * (b * (b * 1real));
        crate::moved::lemma_apex(d, dd, x, y, a, b, p.0, p.1, q.0, q.1, t, kt, tq, tp, 0real, w);
        crate::moved::lemma_carried_edge_second(d, b, tij, t01, 1real);
    } else {
        crate::moved::lemma_moved_mixed_second(
            p.0,
            p.1,
            q.0,
            q.1,
            a,
            b,
            start.0,
            start.1,
            end.0,
            end.1,
        );
        let wu = start.1 + end.1 + b;
        let wv = start.0 + end.0 + a;
        let kt = tij + 4real * (b * t10) + 4real * (a * t01) + 12real * (a * (b * 1real));
        crate::moved::lemma_apex(d, dd, x, y, a, b, p.0, p.1, q.0, q.1, t, kt, tq, tp, wu, wv);
        crate::moved::lemma_carried_edge_mixed_second(d, a, b, tij, t10, t01, 1real);
    }
}

/// The same for a sum of degree 3 along one axis.
proof fn lemma_edge_moved_third(i: int, j: int, a: real, b: real, p: (real, real), q: (real, real))
    requires
        (i == 3 && j == 0) || (i == 0 && j == 3),
    ensures
        crate::polygon::edge(i, j, (p.0 + a, p.1 + b), (q.0 + a, q.1 + b)) == crate::polygon::carried(
            i,
            j,
            a,
            b,
            crate::polygon::edge_table(p, q),
        ) + crate::polygon::edge(i, j, (a, b), (q.0 + a, q.1 + b)) - crate::polygon::edge(
            i,
            j,
            (a, b),
            (p.0 + a, p.1 + b),
        ),
{
    let start = (p.0 + a, p.1 + b);
    let end = (q.0 + a, q.1 + b);
    let d = crate::polygon::cross(p, q);
    let dd = crate::polygon::cross(start, end);
    let x = crate::polygon::cross((a, b), start);
    let y = crate::polygon::cross((a, b), end);
    crate::moved::lemma_moved_cross(p.0, p.1, q.0, q.1, a, b, start.0, start.1, end.0, end.1);
    let t = crate::polygon::term(i, j, start, end);
    let tq = crate::polygon::term(i, j, (a, b), end);
    let tp = crate::polygon::term(i, j, (a, b), start);
    let table = crate::polygon::edge_table(p, q);
    let tij = crate::polygon::term(i, j, p, q);
    assert(table(0, 0) == d * 1real);
    assert(table(i, j) == d * tij);
    if i == 3 {
        let t10 = crate::polygon::term(1, 0, p, q);
        let t20 = crate::polygon::term(2, 0, p, q);
        assert(table(1, 0) == d * t10);
        assert(table(2, 0) == d * t20);
        crate::moved::lemma_moved_third(p.0, q.0, a, start.0, end.0);
        let w = start.0 * (start.0 + end.0) + end.0 * end.0 + a * (start.0 + end.0 + a);
        let kt = tij + 5real * (a * t20) + 10real * (a * (a * t10)) + 10real * (a * (a * (a * 1real)));
        crate::moved::lemma_apex(d, dd, x, y, a, b, p.0, p.1, q.0, q.1, t, kt, tq, tp, w, 0real);
        crate::moved::lemma_carried_edge_third(d, a, tij, t20, t10, 1real);
    } else {
        let t01 = crate::polygon::term(0, 1, p, q);
        let t02 = crate::polygon::term(0, 2, p, q);
        assert(table(0, 1) == d * t01);
        assert(table(0, 2) == d * t02);
        crate::moved::lemma_moved_third(p.1, q.1, b, start.1, end.1);
        let w = start.1 * (start.1 + end.1) + end.1 * end.1 + b * (start.1 + end.1 + b);
        let kt = tij + 5real * (b * t02) + 10real * (b * (b * t01)) + 10real * (b * (b * (b * 1real)));
        crate::moved::lemma_apex(d, dd, x, y, a, b, p.0, p.1, q.0, q.1, t, kt, tq, tp, 0real, w);
        crate::moved::lemma_carried_edge_third(d, b, tij, t02, t01, 1real);
    }
}

/// The same for a mixed sum of degree 3.
proof fn lemma_edge_moved_mixed(i: int, j: int, a: real, b: real, p: (real, real), q: (real, real))
    requires
        (i == 2 && j == 1) || (i == 1 && j == 2),
    ensures
        crate::polygon::edge(i, j, (p.0 + a, p.1 + b), (q.0 + a, q.1 + b)) == crate::polygon::carried(
            i,
            j,
            a,
            b,
            crate::polygon::edge_table(p, q),
        ) + crate::polygon::edge(i, j, (a, b), (q.0 + a, q.1 + b)) - crate::polygon::edge(
            i,
            j,
            (a, b),
            (p.0 + a, p.1 + b),
        ),
{
    let start = (p.0 + a, p.1 + b);
    let end = (q.0 + a, q.1 + b);
    let d = crate::polygon::cross(p, q);
    let dd = crate::polygon::cross(start, end);
    let x = crate::polygon::cross((a, b), start);
    let y = crate::polygon::cross((a, b), end);
    crate::moved::lemma_moved_cross(p.0, p.1, q.0, q.1, a, b, start.0, start.1, end.0, end.1);
    let t = crate::polygon::term(i, j, start, end);
    let tq = crate::polygon::term(i, j, (a, b), end);
    let tp = crate::polygon::term(i, j, (a, b), start);
    let table = crate::polygon::edge_table(p, q);
    let tij = crate::polygon::term(i, j, p, q);
    let t10 = crate::polygon::term(1, 0, p, q);
    let t01 = crate::polygon::term(0, 1, p, q);
    let t11 = crate::polygon::term(1, 1, p, q);
    assert(table(0, 0) == d * 1real);
    assert(table(1, 0) == d * t10);
    assert(table(0, 1) == d * t01);
    assert(table(1, 1) == d * t11);
    assert(table(i, j) == d * tij);
    if i == 2 {
        let t20 = crate::polygon::term(2, 0, p, q);
        assert(table(2, 0) == d * t20);
        crate::moved::lemma_moved_mixed_third(
            p.0,
            p.1,
            q.0,
            q.1,
            a,
            b,
            start.0,
            start.1,
            end.0,
            end.1,
        );
        let wu = start.0 * (start.1 + end.1 + start.1) + end.0 * (start.1 + end.1 + end.1) + a * (
        start.1 + end.1) + b * (start.0 + end.0) + 2real * (a * b);
        let wv = start.0 * (start.0 + end.0) + end.0 * end.0 + a * (start.0 + end.0 + a);
        let kt = tij + 5real * (b * t20) + 5real * (a * t11) + 20real * (a * (b * t10)) + 10real * (a
            * (a * t01)) + 30real * (a * (a * (b * 1real)));
        crate::moved::lemma_apex(d, dd, x, y, a, b, p.0, p.1, q.0, q.1, t, kt, tq, tp, wu, wv);
        crate::moved::lemma_carried_edge_mixed_third(d, a, b, tij, t20, t11, t10, t01, 1real);
    } else {
        let t02 = crate::polygon::term(0, 2, p, q);
        assert(table(0, 2) == d * t02);
        crate::moved::lemma_moved_mixed_third(
            p.1,
            p.0,
            q.1,
            q.0,
            b,
            a,
            start.1,
            start.0,
            end.1,
            end.0,
        );
        crate::moved::lemma_mixed_second_mirror(p.0, p.1, q.0, q.1);
        let wu = start.1 * (start.1 + end.1) + end.1 * end.1 + b * (start.1 + end.1 + b);
        let wv = start.1 * (start.0 + end.0 + start.0) + end.1 * (start.0 + end.0 + end.0) + b * (
        start.0 + end.0) + a * (start.1 + end.1) + 2real * (b * a);
        let kt = tij + 5real * (a * t02) + 5real * (b * t11) + 20real * (b * (a * t01)) + 10real * (b
            * (b * t10)) + 30real * (b * (b * (a * 1real)));
        crate::moved::lemma_apex(d, dd, x, y, a, b, p.0, p.1, q.0, q.1, t, kt, tq, tp, wu, wv);
        crate::moved::lemma_carried_edge_mixed_third(d, b, a, tij, t02, t11, t01, t10, 1real);
    }
}

/// What an edge that has moved by `(a, b)` adds to the sum of the
/// coefficient `(i, j)`: what the edge itself adds, with what the movement
/// carries into it from the sums of lower degree, and the difference of
/// what the edges from the movement to its two ends add.
pub proof fn lemma_edge_moved(i: int, j: int, a: real, b: real, p: (real, real), q: (real, real))
    requires
        0 <= i,
        0 <= j,
        i + j <= 3,
    ensures
        crate::polygon::edge(i, j, (p.0 + a, p.1 + b), (q.0 + a, q.1 + b)) == crate::polygon::carried(
            i,
            j,
            a,
            b,
            crate::polygon::edge_table(p, q),
        ) + crate::polygon::edge(i, j, (a, b), (q.0 + a, q.1 + b)) - crate::polygon::edge(
            i,
            j,
            (a, b),
            (p.0 + a, p.1 + b),
        ),
{
    if i + j <= 1 {
        lemma_edge_moved_first(i, j, a, b, p, q);
    } else if i + j == 2 {
        lemma_edge_moved_second(i, j, a, b, p, q);
    } else if i == 3 || j == 3 {
        lemma_edge_moved_third(i, j, a, b, p, q);
    } else {
        lemma_edge_moved_mixed(i, j, a, b, p, q);
    }
}

/// Whether the table `whole` is the sum of the tables `first` and
/// `second`.
pub open spec fn is_sum(
    whole: spec_fn(int, int) -> real,
    first: spec_fn(int, int) -> real,
    second: spec_fn(int, int) -> real,
) -> bool {
    forall|k: int, l: int|
        0 <= k && 0 <= l && k + l <= 3 ==> #[trigger] whole(k, l) == first(k, l) + second(k, l)
}

/// What a movement carries into the sums is additive in the sums.
pub proof fn lemma_carried_additive(
    i: int,
    j: int,
    a: real,
    b: real,
    whole: spec_fn(int, int) -> real,
    first: spec_fn(int, int) -> real,
    second: spec_fn(int, int) -> real,
)
    requires
        0 <= i,
        0 <= j,
        i + j <= 3,
        is_sum(whole, first, second),
    ensures
        crate::polygon::carried(i, j, a, b, whole) == crate::polygon::carried(i, j, a, b, first)
            + crate::polygon::carried(i, j, a, b, second),
{
    let e = first;
    let g = second;
    assert(whole(0, 0) == e(0, 0) + g(0, 0));
    assert(whole(1, 0) == e(1, 0) + g(1, 0));
    assert(whole(0, 1) == e(0, 1) + g(0, 1));
    assert(whole(2, 0) == e(2, 0) + g(2, 0));
    assert(whole(1, 1) == e(1, 1) + g(1, 1));
    assert(whole(0, 2) == e(0, 2) + g(0, 2));
    assert(whole(i, j) == e(i, j) + g(i, j));
    if i == 1 && j == 0 {
        crate::moved::lemma_carried_sum_first(a, e(1, 0), e(0, 0), g(1, 0), g(0, 0));
    } else if i == 0 && j == 1 {
        crate::moved::lemma_carried_sum_first(b, e(0, 1), e(0, 0), g(0, 1), g(0, 0));
    } else if i == 2 && j == 0 {
        crate::moved::lemma_carried_sum_second(a, e(2, 0), e(1, 0), e(0, 0), g(2, 0), g(1, 0), g(0, 0));
    } else if i == 0 && j == 2 {
        crate::moved::lemma_carried_sum_second(b, e(0, 2), e(0, 1), e(0, 0), g(0, 2), g(0, 1), g(0, 0));
    } else if i == 1 && j == 1 {
        crate::moved::lemma_carried_sum_mixed_second(
            a,
            b,
            e(1, 1),
            e(1, 0),
            e(0, 1),
            e(0, 0),
            g(1, 1),
            g(1, 0),
            g(0, 1),
            g(0, 0),
        );
    } else if i == 3 && j == 0 {
        crate::moved::lemma_carried_sum_third(
            a,
            e(3, 0),
            e(2, 0),
            e(1, 0),
            e(0, 0),
            g(3, 0),
            g(2, 0),
            g(1, 0),
            g(0, 0),
        );
    } else if i == 0 && j == 3 {
        crate::moved::lemma_carried_sum_third(
            b,
            e(0, 3),
            e(0, 2),
            e(0, 1),
            e(0, 0),
            g(0, 3),
            g(0, 2),
            g(0, 1),
            g(0, 0),
        );
    } else if i == 2 && j == 1 {
        crate::moved::lemma_carried_sum_mixed_third(
            a,
            b,
            e(2, 1),
            e(2, 0),
            e(1, 1),
            e(1, 0),
            e(0, 1),
            e(0, 0),
            g(2, 1),
            g(2, 0),
            g(1, 1),
            g(1, 0),
            g(0, 1),
            g(0, 0),
        );
    } else if i == 1 && j == 2 {
        crate::moved::lemma_carried_sum_mixed_third(
            b,
            a,
            e(1, 2),
            e(0, 2),
            e(1, 1),
            e(0, 1),
            e(1, 0),
            e(0, 0),
            g(1, 2),
            g(0, 2),
            g(1, 1),
            g(0, 1),
            g(1, 0),
            g(0, 0),
        );
    }
}

/// The sums over the first edges of a polygon that has moved by
/// `(a, b)`: the sums of the polygon itself, with what the movement
/// carries into them, and what the edges from the movement to the two
/// ends of the path add.
pub proof fn lemma_edge_sum_moved(
    i: int,
    j: int,
    a: real,
    b: real,
    vertices: Seq<(real, real)>,
    edges: nat,
)
    requires
        0 <= i,
        0 <= j,
        i + j <= 3,
        vertices.len() >= 1,
        edges <= vertices.len(),
    ensures
        crate::polygon::edge_sum(i, j, crate::polygon::translated(vertices, a, b), edges)
            == crate::polygon::carried(i, j, a, b, crate::polygon::sum_table(vertices, edges))
            + crate::polygon::edge(
            i,
            j,
            (a, b),
            crate::polygon::translated(vertices, a, b)[edges as int % vertices.len() as int],
        ) - crate::polygon::edge(i, j, (a, b), crate::polygon::translated(vertices, a, b)[0]),
    decreases edges,
{
    let moved = crate::polygon::translated(vertices, a, b);
    let n = vertices.len() as int;
    assert(moved.len() == n);
    if edges == 0 {
        vstd::arithmetic::div_mod::lemma_small_mod(0, n as nat);
        let none = crate::polygon::sum_table(vertices, 0);
        assert(none(0, 0) == 0real);
        assert(none(1, 0) == 0real);
        assert(none(0, 1) == 0real);
        assert(none(2, 0) == 0real);
        assert(none(1, 1) == 0real);
        assert(none(0, 2) == 0real);
        assert(none(i, j) == 0real);
        crate::algebra::lemma_zero(a);
        crate::algebra::lemma_zero(b);
        assert(crate::polygon::carried(i, j, a, b, none) == 0real);
    } else {
        let first = edges - 1;
        let second = edges as int % n;
        vstd::arithmetic::div_mod::lemma_mod_pos_bound(edges as int, n);
        vstd::arithmetic::div_mod::lemma_small_mod(first as nat, n as nat);
        lemma_edge_sum_moved(i, j, a, b, vertices, first as nat);
        assert(moved[first] == (vertices[first].0 + a, vertices[first].1 + b));
        assert(moved[second] == (vertices[second].0 + a, vertices[second].1 + b));
        lemma_edge_moved(i, j, a, b, vertices[first], vertices[second]);
        let before = crate::polygon::sum_table(vertices, first as nat);
        let added = crate::polygon::edge_table(vertices[first], vertices[second]);
        let after = crate::polygon::sum_table(vertices, edges);
        assert forall|k: int, l: int| 0 <= k && 0 <= l && k + l <= 3 implies #[trigger] after(k, l)
            == before(k, l) + added(k, l) by {
            assert(crate::polygon::edge_sum(k, l, vertices, edges) == crate::polygon::edge_sum(
                k,
                l,
                vertices,
                first as nat,
            ) + crate::polygon::edge(k, l, vertices[first], vertices[second]));
        }
        lemma_carried_additive(i, j, a, b, after, before, added);
        assert(crate::polygon::edge_sum(i, j, moved, edges) == crate::polygon::edge_sum(
            i,
            j,
            moved,
            first as nat,
        ) + crate::polygon::edge(i, j, moved[first], moved[second]));
    }
}

/// The raw moments of a polygon that has moved by `(a, b)` are the
/// moments of the polygon itself with the moments of lower degree times
/// the powers of `a` and `b` that a binomial expansion gives them, where
/// the area exceeds `epsilon`.
pub proof fn lemma_moment_translated(
    i: int,
    j: int,
    a: real,
    b: real,
    vertices: Seq<(real, real)>,
    epsilon: real,
)
    requires
        0 <= i,
        0 <= j,
        i + j <= 3,
        epsilon >= 0real,
        crate::polygon::moment(0, 0, vertices, epsilon) > epsilon,
    ensures
        crate::polygon::moment(i, j, crate::polygon::translated(vertices, a, b), epsilon)
            == crate::polygon::shifted(i, j, a, b, crate::polygon::moments(vertices, epsilon)),
{
    let moved = crate::polygon::translated(vertices, a, b);
    let n = vertices.len();
    assert(moved.len() == n);
    assert(n >= 1);
    vstd::arithmetic::div_mod::lemma_mod_self_0(n as int);
    lemma_edge_sum_moved(i, j, a, b, vertices, n);
    lemma_edge_sum_moved(0, 0, a, b, vertices, n);
    let sums = crate::polygon::sum_table(vertices, n);
    let raw = crate::polygon::moments(vertices, epsilon);
    let area_sum = crate::polygon::total(0, 0, vertices);
    assert(crate::polygon::total(0, 0, moved) == area_sum);
    assert(crate::polygon::total(i, j, moved) == crate::polygon::carried(i, j, a, b, sums));
    assert(crate::polygon::magnitude(area_sum) > epsilon);
    if area_sum >= 0real {
        lemma_carried_share(
            i,
            j,
            a,
            b,
            sums,
            raw,
            crate::polygon::share(0, 0),
            crate::polygon::share(1, 0),
            crate::polygon::share(2, 0),
            crate::polygon::share(1, 1),
            crate::polygon::share(3, 0),
            crate::polygon::share(2, 1),
        );
    } else {
        lemma_carried_share(
            i,
            j,
            a,
            b,
            sums,
            raw,
            -crate::polygon::share(0, 0),
            -crate::polygon::share(1, 0),
            -crate::polygon::share(2, 0),
            -crate::polygon::share(1, 1),
            -crate::polygon::share(3, 0),
            -crate::polygon::share(2, 1),
        );
    }
}

/// What a movement carries into a sum, times the share of that sum, is
/// the moment after the movement: `h0` is the share of the sum of degree
/// 0, `h1` that of the sums of degree 1, `h2` and `h11` those of the sums
/// of degree 2 along one axis and of the mixed one, `h3` and `h21` those
/// of degree 3.
proof fn lemma_carried_share(
    i: int,
    j: int,
    a: real,
    b: real,
    sums: spec_fn(int, int) -> real,
    raw: spec_fn(int, int) -> real,
    h0: real,
    h1: real,
    h2: real,
    h11: real,
    h3: real,
    h21: real,
)
    requires
        0 <= i,
        0 <= j,
        i + j <= 3,
        h0 == 3real * h1,
        h1 == 2real * h2,
        h1 == 4real * h11,
        h2 == (5real / 3real) * h3,
        h2 == 5real * h21,
        h11 == (5real / 2real) * h21,
        raw(0, 0) == sums(0, 0) * h0,
        raw(1, 0) == sums(1, 0) * h1,
        raw(0, 1) == sums(0, 1) * h1,
        raw(2, 0) == sums(2, 0) * h2,
        raw(1, 1) == sums(1, 1) * h11,
        raw(0, 2) == sums(0, 2) * h2,
        raw(3, 0) == sums(3, 0) * h3,
        raw(2, 1) == sums(2, 1) * h21,
        raw(1, 2) == sums(1, 2) * h21,
        raw(0, 3) == sums(0, 3) * h3,
    ensures
        crate::polygon::carried(i, j, a, b, sums) * (if i + j == 0 {
            h0
        } else if i + j == 1 {
            h1
        } else if i + j == 2 {
            if i == 1 {
                h11
            } else {
                h2
            }
        } else if i == 3 || j == 3 {
            h3
        } else {
            h21
        }) == crate::polygon::shifted(i, j, a, b, raw),
{
    let e = sums;
    if i == 1 && j == 0 {
        crate::moved::lemma_carried_share_first(a, e(1, 0), e(0, 0), h1, h0);
    } else if i == 0 && j == 1 {
        crate::moved::lemma_carried_share_first(b, e(0, 1), e(0, 0), h1, h0);
    } else if i == 2 && j == 0 {
        crate::moved::lemma_carried_share_second(a, e(2, 0), e(1, 0), e(0, 0), h2, h1, h0);
    } else if i == 0 && j == 2 {
        crate::moved::lemma_carried_share_second(b, e(0, 2), e(0, 1), e(0, 0), h2, h1, h0);
    } else if i == 1 && j == 1 {
        crate::moved::lemma_carried_share_mixed_second(
            a,
            b,
            e(1, 1),
            e(1, 0),
            e(0, 1),
            e(0, 0),
            h11,
            h1,
            h1,
            h0,
        );
    } else if i == 3 && j == 0 {
        crate::moved::lemma_carried_share_third(a, e(3, 0), e(2, 0), e(1, 0), e(0, 0), h3, h2, h1, h0);
    } else if i == 0 && j == 3 {
        crate::moved::lemma_carried_share_third(b, e(0, 3), e(0, 2), e(0, 1), e(0, 0), h3, h2, h1, h0);
    } else if i == 2 && j == 1 {
        crate::moved::lemma_carried_share_mixed_third(
            a,
            b,
            e(2, 1),
            e(2, 0),
            e(1, 1),
            e(1, 0),
            e(0, 1),
            e(0, 0),
            h21,
            h2,
            h11,
            h1,
            h1,
            h0,
        );
    } else if i == 1 && j == 2 {
        crate::moved::lemma_carried_share_mixed_third(
            b,
            a,
            e(1, 2),
            e(0, 2),
            e(1, 1),
            e(0, 1),
            e(1, 0),
            e(0, 0),
            h21,
            h2,
            h11,
            h1,
            h1,
            h0,
        );
    }
}

/// The central moments of a polygon do not change when every point moves
/// by the same offset `(a, b)`, where the area exceeds `epsilon`.
pub proof fn lemma_central_translated(
    i: int,
    j: int,
    a: real,
    b: real,
    vertices: Seq<(real, real)>,
    epsilon: real,
)
    requires
        0 <= i,
        0 <= j,
        i + j <= 3,
        epsilon >= 0real,
        crate::polygon::moment(0, 0, vertices, epsilon) > epsilon,
    ensures
        crate::polygon::central(
            i,
            j,
            crate::polygon::moments(crate::polygon::translated(vertices, a, b), epsilon),
            epsilon,
        ) == crate::polygon::central(i, j, crate::polygon::moments(vertices, epsilon), epsilon),
{
    let raw = crate::polygon::moments(vertices, epsilon);
    let moved = crate::polygon::moments(crate::polygon::translated(vertices, a, b), epsilon);
    assert forall|k: int, l: int| 0 <= k && 0 <= l && k + l <= 3 implies #[trigger] moved(k, l)
        == crate::polygon::shifted(k, l, a, b, raw) by {
        lemma_moment_translated(k, l, a, b, vertices, epsilon);
    }
    lemma_central_shifted(i, j, a, b, raw, moved, epsilon);
}

} // verus!
