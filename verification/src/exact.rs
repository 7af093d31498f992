//! Scalars that calculate without error: what the tables of this crate hold
//! for them, read as real numbers, and the laws that follow.
use vstd::prelude::*;
use crate::primitives::Scalar;
use crate::storage::Storage;

verus! {

/// `x` raised to the power `n`.
pub open spec fn power(x: real, n: nat) -> real
    decreases n,
{
    if n == 0 {
        1real
    } else {
        x * power(x, (n - 1) as nat)
    }
}

/// Whether the scalar type calculates without error when each scalar is
/// read as the real number `value` gives: every constant is the number it
/// is named after, every operation yields the number that the operation
/// of the same name yields on real numbers, and the order is that of the
/// real numbers. A type that rounds is not exact under any reading.
pub open spec fn exact<T: Scalar>(value: spec_fn(T) -> real) -> bool {
    &&& value(T::EPSILON) >= 0real
    &&& value(T::ZERO) == 0real
    &&& value(T::ONE) == 1real
    &&& value(T::TWO) == 2real
    &&& value(T::THREE) == 3real
    &&& value(T::F1_2) == 1real / 2real
    &&& value(T::F1_6) == 1real / 6real
    &&& value(T::F1_12) == 1real / 12real
    &&& value(T::F1_20) == 1real / 20real
    &&& value(T::F1_24) == 1real / 24real
    &&& value(T::F1_60) == 1real / 60real
    &&& forall|a: T, b: T| value(#[trigger] a.spec_add(b)) == value(a) + value(b)
    &&& forall|a: T, b: T| value(#[trigger] a.spec_sub(b)) == value(a) - value(b)
    &&& forall|a: T, b: T| value(#[trigger] a.spec_mul(b)) == value(a) * value(b)
    &&& forall|a: T, b: T|
        value(b) != 0real ==> value(#[trigger] a.spec_div(b)) == value(a) / value(b)
    &&& forall|a: T| value(#[trigger] a.spec_neg()) == -value(a)
    &&& forall|a: T| value(#[trigger] a.spec_abs()) == crate::polygon::magnitude(value(a))
    &&& forall|a: T, b: T, c: T|
        value(#[trigger] a.spec_mul_add(b, c)) == value(a) * value(b) + value(c)
    &&& forall|a: T, n: i32|
        n >= 0 ==> value(#[trigger] a.spec_powi(n)) == power(value(a), n as nat)
    &&& forall|a: T, s: T|
        value(s) > 0real ==> value(#[trigger] a.spec_copysign(s)) == crate::polygon::magnitude(
            value(a),
        )
    &&& forall|a: T, s: T|
        value(s) < 0real ==> value(#[trigger] a.spec_copysign(s)) == -crate::polygon::magnitude(
            value(a),
        )
    &&& forall|a: T|
        value(a) >= 0real ==> value(#[trigger] a.spec_sqrt()) >= 0real && value(a.spec_sqrt())
            * value(a.spec_sqrt()) == value(a)
    &&& forall|a: T, b: T| #[trigger] a.spec_gt(b) == (value(a) > value(b))
}

/// The point of real numbers that a point of scalars stands for.
pub open spec fn place<T: Scalar>(value: spec_fn(T) -> real, point: (T, T)) -> (real, real) {
    (value(point.0), value(point.1))
}

/// The polygon of real numbers that a polygon of scalars stands for.
pub open spec fn places<T: Scalar>(value: spec_fn(T) -> real, vertices: Seq<(T, T)>) -> Seq<
    (real, real),
> {
    Seq::new(vertices.len(), |k: int| place(value, vertices[k]))
}

/// The square of a number is its second power.
proof fn lemma_square(x: real)
    ensures
        power(x, 2) == x * x,
{
    reveal_with_fuel(power, 3);
    assert(power(x, 0) == 1real);
    assert(power(x, 1) == x * 1real);
    assert(x * 1real == x) by (nonlinear_arith);
}

/// A product with a negated factor is the negated product.
proof fn lemma_negated_factor(x: real, y: real)
    ensures
        x * (-y) == -(x * y),
{
    assert(x * (-y) == -(x * y)) by (nonlinear_arith);
}

/// In exact arithmetic the cross term of an edge is that of the edge of
/// real numbers.
pub proof fn lemma_cross_exact<T: Scalar>(value: spec_fn(T) -> real, last: (T, T), current: (T, T))
    requires
        exact(value),
    ensures
        value(crate::accumulator::cross(last, current)) == crate::polygon::cross(
            place(value, last),
            place(value, current),
        ),
{
    lemma_negated_factor(value(current.0), value(last.1));
}

/// In exact arithmetic the factor of an edge is that of the edge of real
/// numbers.
pub proof fn lemma_term_exact<T: Scalar>(
    value: spec_fn(T) -> real,
    i: int,
    j: int,
    last: (T, T),
    current: (T, T),
)
    requires
        exact(value),
        0 <= i,
        0 <= j,
        1 <= i + j <= 3,
    ensures
        value(crate::accumulator::term(i, j, last, current)) == crate::polygon::term(
            i,
            j,
            place(value, last),
            place(value, current),
        ),
{
    lemma_square(value(last.0));
    lemma_square(value(last.1));
    lemma_square(value(current.0));
    lemma_square(value(current.1));
}

/// In exact arithmetic an edge adds to a running sum what the edge of real
/// numbers adds.
pub proof fn lemma_accumulated_exact<T: Scalar>(
    value: spec_fn(T) -> real,
    i: int,
    j: int,
    sum: T,
    last: (T, T),
    current: (T, T),
)
    requires
        exact(value),
        0 <= i,
        0 <= j,
        i + j <= 3,
    ensures
        value(crate::accumulator::accumulated(i, j, sum, last, current)) == value(sum)
            + crate::polygon::edge(i, j, place(value, last), place(value, current)),
{
    lemma_cross_exact(value, last, current);
    let c = crate::polygon::cross(place(value, last), place(value, current));
    if i + j >= 1 {
        lemma_term_exact(value, i, j, last, current);
    } else {
        assert(c * 1real == c) by (nonlinear_arith);
    }
}

/// In exact arithmetic the running sums are the sums over the edges of the
/// polygon of real numbers.
pub proof fn lemma_running_sum_exact<T: Scalar>(
    value: spec_fn(T) -> real,
    i: int,
    j: int,
    vertices: Seq<(T, T)>,
    edges: nat,
)
    requires
        exact(value),
        0 <= i,
        0 <= j,
        i + j <= 3,
        edges <= vertices.len(),
    ensures
        value(crate::spatial::running_sum(i, j, vertices, edges)) == crate::polygon::edge_sum(
            i,
            j,
            places(value, vertices),
            edges,
        ),
    decreases edges,
{
    if edges > 0 {
        lemma_running_sum_exact(value, i, j, vertices, (edges - 1) as nat);
        let n = vertices.len() as int;
        assert(0 <= edges as int % n < n) by {
            vstd::arithmetic::div_mod::lemma_mod_pos_bound(edges as int, n);
        }
        lemma_accumulated_exact(
            value,
            i,
            j,
            crate::spatial::running_sum(i, j, vertices, (edges - 1) as nat),
            vertices[edges - 1],
            vertices[edges as int % n],
        );
    }
}

/// In exact arithmetic the raw moments of a polygon are the moments of the
/// polygon of real numbers.
pub proof fn lemma_spatial_moment_exact<T: Scalar>(
    value: spec_fn(T) -> real,
    i: int,
    j: int,
    vertices: Seq<(T, T)>,
)
    requires
        exact(value),
        0 <= i,
        0 <= j,
        i + j <= 3,
    ensures
        value(crate::spatial::spatial_moment(i, j, vertices)) == crate::polygon::moment(
            i,
            j,
            places(value, vertices),
            value(T::EPSILON),
        ),
{
    let n = vertices.len();
    lemma_running_sum_exact(value, i, j, vertices, n);
    lemma_running_sum_exact(value, 0, 0, vertices, n);
    let sum = crate::spatial::running_sum(i, j, vertices, n);
    let area_sum = crate::spatial::running_sum(0, 0, vertices, n);
    if n > 0 && !crate::accumulator::degenerate(area_sum) {
        let sign = T::ONE.spec_copysign(area_sum);
        let share = crate::accumulator::factor::<T>(i, j);
        assert(value(share) == crate::polygon::share(i, j));
        assert(value(share) > 0real);
        if value(area_sum) >= 0real {
            assert(value(sign) == 1real);
            assert(value(share.spec_copysign(sign)) == crate::polygon::share(i, j));
        } else {
            assert(value(sign) == -1real);
            assert(value(share.spec_copysign(sign)) == -crate::polygon::share(i, j));
        }
    }
}

/// In exact arithmetic the raw moments of a polygon do not depend on the
/// vertex at which it starts: the area, and with it every other raw
/// moment.
pub proof fn lemma_spatial_moment_rotated<T: Scalar>(
    value: spec_fn(T) -> real,
    i: int,
    j: int,
    vertices: Seq<(T, T)>,
    start: int,
)
    requires
        exact(value),
        0 <= i,
        0 <= j,
        i + j <= 3,
        0 <= start <= vertices.len(),
    ensures
        value(
            crate::spatial::spatial_moment(i, j, crate::polygon::rotated(vertices, start)),
        ) == value(crate::spatial::spatial_moment(i, j, vertices)),
{
    let turned = crate::polygon::rotated(vertices, start);
    lemma_spatial_moment_exact(value, i, j, vertices);
    lemma_spatial_moment_exact(value, i, j, turned);
    assert(places(value, turned) =~= crate::polygon::rotated(places(value, vertices), start));
    crate::polygon::lemma_moment_rotated(i, j, places(value, vertices), start, value(T::EPSILON));
}

/// The table of real numbers that a table of scalars stands for.
pub open spec fn readings<T: Scalar, S: Storage<T>>(value: spec_fn(T) -> real, table: &S) -> spec_fn(
    int,
    int,
) -> real {
    |i: int, j: int| value(table.at(i, j))
}

/// In exact arithmetic the centroid of a table of raw moments is that of
/// the table of real numbers.
pub proof fn lemma_centroid_exact<T: Scalar, S: Storage<T>>(value: spec_fn(T) -> real, raw: &S)
    requires
        exact(value),
    ensures
        place(value, crate::central_moments::centroid(raw.at(0, 0), raw.at(1, 0), raw.at(0, 1)))
            == crate::polygon::center(readings(value, raw), value(T::EPSILON)),
{
    let mass = raw.at(0, 0).spec_abs();
    assert(value(mass) == crate::polygon::magnitude(value(raw.at(0, 0))));
}

/// In exact arithmetic the central moments of a table of raw moments are
/// those of the table of real numbers.
pub proof fn lemma_central_moment_exact<T: Scalar, S: Storage<T>>(
    value: spec_fn(T) -> real,
    i: int,
    j: int,
    raw: &S,
)
    requires
        exact(value),
        0 <= i,
        0 <= j,
        i + j <= 3,
    ensures
        value(crate::central_moments::central_moment(i, j, raw)) == crate::polygon::central(
            i,
            j,
            readings(value, raw),
            value(T::EPSILON),
        ),
{
    lemma_centroid_exact(value, raw);
}

/// In exact arithmetic the normalized central moments of a table of
/// central moments are those of the table of real numbers.
pub proof fn lemma_normalized_moment_exact<T: Scalar, S: Storage<T>>(
    value: spec_fn(T) -> real,
    i: int,
    j: int,
    central: &S,
)
    requires
        exact(value),
        0 <= i,
        0 <= j,
        i + j <= 3,
    ensures
        value(crate::normalized_central_moments::normalized_moment(i, j, central))
            == crate::polygon::normalized(i, j, readings(value, central), value(T::EPSILON)),
{
    let mu00 = central.at(0, 0);
    let inv = crate::normalized_central_moments::inverse_mass(mu00);
    assert(value(inv) == crate::polygon::inverse(value(mu00), value(T::EPSILON))) by {
        if mu00.spec_abs().spec_gt(T::EPSILON) {
            assert(crate::polygon::magnitude(value(mu00)) > 0real);
        }
    }
    lemma_square(value(inv));
    let size = inv.spec_abs();
    assert(value(size) >= 0real);
    crate::polygon::lemma_root_unique(value(size.spec_sqrt()), value(size));
}

/// Whether `table` holds the raw moments of the polygon through
/// `vertices` up to total degree `order`.
pub open spec fn holds_spatial<T: Scalar, S: Storage<T>>(
    table: &S,
    vertices: Seq<(T, T)>,
    order: int,
) -> bool {
    forall|k: int, l: int|
        crate::storage::valid(k, l, order) ==> #[trigger] table.at(k, l)
            == crate::spatial::spatial_moment(k, l, vertices)
}

/// Whether `table` holds the central moments that belong to the raw
/// moments in `raw` up to total degree `order`.
pub open spec fn holds_central<T: Scalar, S: Storage<T>>(table: &S, raw: &S, order: int) -> bool {
    forall|k: int, l: int|
        crate::storage::valid(k, l, order) ==> #[trigger] table.at(k, l)
            == crate::central_moments::central_moment(k, l, raw)
}

/// In exact arithmetic a table of the raw moments of a polygon reads as
/// the table of the moments of the polygon of real numbers.
proof fn lemma_entry_exact<T: Scalar, S: Storage<T>>(
    value: spec_fn(T) -> real,
    k: int,
    l: int,
    order: int,
    vertices: Seq<(T, T)>,
    raw: &S,
)
    requires
        exact(value),
        0 <= order <= 3,
        crate::storage::valid(k, l, order),
        holds_spatial(raw, vertices, order),
    ensures
        readings(value, raw)(k, l) == crate::polygon::moments(
            places(value, vertices),
            value(T::EPSILON),
        )(k, l),
{
    lemma_spatial_moment_exact(value, k, l, vertices);
}

/// In exact arithmetic the central moments of a polygon are those of the
/// polygon of real numbers.
pub proof fn lemma_central_of_polygon_exact<T: Scalar, S: Storage<T>>(
    value: spec_fn(T) -> real,
    i: int,
    j: int,
    order: int,
    vertices: Seq<(T, T)>,
    raw: &S,
)
    requires
        exact(value),
        0 <= order <= 3,
        crate::storage::valid(i, j, order),
        holds_spatial(raw, vertices, order),
    ensures
        value(crate::central_moments::central_moment(i, j, raw)) == crate::polygon::central(
            i,
            j,
            crate::polygon::moments(places(value, vertices), value(T::EPSILON)),
            value(T::EPSILON),
        ),
{
    let epsilon = value(T::EPSILON);
    let model = crate::polygon::moments(places(value, vertices), epsilon);
    let read = readings(value, raw);
    lemma_central_moment_exact(value, i, j, raw);
    assert(crate::storage::valid(0, 0, order));
    lemma_entry_exact(value, 0, 0, order, vertices, raw);
    if i + j >= 2 {
        assert(crate::storage::valid(1, 0, order));
        lemma_entry_exact(value, 1, 0, order, vertices, raw);
        assert(crate::storage::valid(0, 1, order));
        lemma_entry_exact(value, 0, 1, order, vertices, raw);
        assert(crate::storage::valid(2, 0, order));
        lemma_entry_exact(value, 2, 0, order, vertices, raw);
        assert(crate::storage::valid(1, 1, order));
        lemma_entry_exact(value, 1, 1, order, vertices, raw);
        assert(crate::storage::valid(0, 2, order));
        lemma_entry_exact(value, 0, 2, order, vertices, raw);
    }
    if i + j == 3 {
        lemma_entry_exact(value, i, j, order, vertices, raw);
    }
}

/// In exact arithmetic the normalized central moments of a polygon do not
/// change when every coordinate is multiplied by the same positive
/// factor `l`, where the area exceeds the scalar's epsilon before and
/// after: `raw` and `central` hold the moments of the polygon through
/// `vertices`, `grown_raw` and `grown_central` those of the scaled polygon
/// through `grown`.
pub proof fn lemma_normalized_moment_scaled<T: Scalar, S: Storage<T>>(
    value: spec_fn(T) -> real,
    i: int,
    j: int,
    order: int,
    l: real,
    vertices: Seq<(T, T)>,
    grown: Seq<(T, T)>,
    raw: &S,
    grown_raw: &S,
    central: &S,
    grown_central: &S,
)
    requires
        exact(value),
        0 <= order <= 3,
        crate::storage::valid(i, j, order),
        l > 0real,
        places(value, grown) == crate::polygon::scaled_by(places(value, vertices), l),
        holds_spatial(raw, vertices, order),
        holds_spatial(grown_raw, grown, order),
        holds_central(central, raw, order),
        holds_central(grown_central, grown_raw, order),
        value(raw.at(0, 0)) > value(T::EPSILON),
        value(grown_raw.at(0, 0)) > value(T::EPSILON),
    ensures
        value(crate::normalized_central_moments::normalized_moment(i, j, grown_central)) == value(
            crate::normalized_central_moments::normalized_moment(i, j, central),
        ),
{
    let epsilon = value(T::EPSILON);
    let polygon = places(value, vertices);
    let grown_polygon = places(value, grown);
    let mu = crate::polygon::centrals(crate::polygon::moments(polygon, epsilon), epsilon);
    let grown_mu = crate::polygon::centrals(crate::polygon::moments(grown_polygon, epsilon), epsilon);
    assert(crate::storage::valid(0, 0, order));
    lemma_spatial_moment_exact(value, 0, 0, vertices);
    lemma_spatial_moment_exact(value, 0, 0, grown);
    lemma_normalized_moment_exact(value, i, j, central);
    lemma_normalized_moment_exact(value, i, j, grown_central);
    lemma_central_of_polygon_exact(value, 0, 0, order, vertices, raw);
    lemma_central_of_polygon_exact(value, 0, 0, order, grown, grown_raw);
    lemma_central_of_polygon_exact(value, i, j, order, vertices, raw);
    lemma_central_of_polygon_exact(value, i, j, order, grown, grown_raw);
    assert(readings(value, central)(0, 0) == mu(0, 0));
    assert(readings(value, central)(i, j) == mu(i, j));
    assert(readings(value, grown_central)(0, 0) == grown_mu(0, 0));
    assert(readings(value, grown_central)(i, j) == grown_mu(i, j));
    // the scalar's own square root is the root that the law asks for
    let mass = central.at(0, 0);
    let inv = crate::normalized_central_moments::inverse_mass(mass);
    let area = crate::polygon::moment(0, 0, polygon, epsilon);
    assert(value(mass) == area);
    assert(value(inv) == crate::polygon::inverse(area, epsilon));
    crate::algebra::lemma_quotient_sign(1real, area);
    let size = inv.spec_abs();
    assert(value(size) == crate::polygon::inverse(area, epsilon));
    assert(crate::polygon::is_root(
        value(size.spec_sqrt()),
        crate::polygon::inverse(area, epsilon),
    ));
    crate::invariance::lemma_normalized_scaled(i, j, l, polygon, epsilon);
}

/// In exact arithmetic the central moments of a polygon do not change
/// when every point moves by the same offset `(a, b)`, where the area
/// exceeds the scalar's epsilon: `raw` holds the raw moments of the
/// polygon through `vertices`, `moved_raw` those of the moved polygon
/// through `moved`.
pub proof fn lemma_central_moment_translated<T: Scalar, S: Storage<T>>(
    value: spec_fn(T) -> real,
    i: int,
    j: int,
    order: int,
    a: real,
    b: real,
    vertices: Seq<(T, T)>,
    moved: Seq<(T, T)>,
    raw: &S,
    moved_raw: &S,
)
    requires
        exact(value),
        0 <= order <= 3,
        crate::storage::valid(i, j, order),
        places(value, moved) == crate::polygon::translated(places(value, vertices), a, b),
        holds_spatial(raw, vertices, order),
        holds_spatial(moved_raw, moved, order),
        value(raw.at(0, 0)) > value(T::EPSILON),
    ensures
        value(crate::central_moments::central_moment(i, j, moved_raw)) == value(
            crate::central_moments::central_moment(i, j, raw),
        ),
{
    assert(crate::storage::valid(0, 0, order));
    lemma_spatial_moment_exact(value, 0, 0, vertices);
    lemma_central_of_polygon_exact(value, i, j, order, vertices, raw);
    lemma_central_of_polygon_exact(value, i, j, order, moved, moved_raw);
    crate::invariance::lemma_central_translated(
        i,
        j,
        a,
        b,
        places(value, vertices),
        value(T::EPSILON),
    );
}

} // verus!
