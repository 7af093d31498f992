//! The moments of a polygon over the real numbers: the model that the
//! tables of an exact scalar are held against.
use vstd::prelude::*;

verus! {

/// The cross term `p.x * q.y - q.x * p.y` of the edge from `p` to `q`:
/// twice the signed area of the triangle that the edge spans with the
/// origin.
pub open spec fn cross(p: (real, real), q: (real, real)) -> real {
    p.0 * q.1 - q.0 * p.1
}

/// The factor by which the cross term of the edge from `p` to `q` enters
/// the sum of the coefficient `(i, j)`.
pub open spec fn term(i: int, j: int, p: (real, real), q: (real, real)) -> real {
    if i == 0 && j == 0 {
        1real
    } else if i == 1 && j == 0 {
        p.0 + q.0
    } else if i == 0 && j == 1 {
        p.1 + q.1
    } else if i == 2 && j == 0 {
        p.0 * (p.0 + q.0) + q.0 * q.0
    } else if i == 1 && j == 1 {
        p.0 * (p.1 + q.1 + p.1) + q.0 * (p.1 + q.1 + q.1)
    } else if i == 0 && j == 2 {
        p.1 * (p.1 + q.1) + q.1 * q.1
    } else if i == 3 && j == 0 {
        (p.0 + q.0) * (p.0 * p.0 + q.0 * q.0)
    } else if i == 0 && j == 3 {
        (p.1 + q.1) * (p.1 * p.1 + q.1 * q.1)
    } else if i == 2 && j == 1 {
        p.0 * p.0 * (3real * p.1 + q.1) + 2real * q.0 * p.0 * (p.1 + q.1) + q.0 * q.0 * (3real * q.1
            + p.1)
    } else if i == 1 && j == 2 {
        p.1 * p.1 * (3real * p.0 + q.0) + 2real * q.1 * p.1 * (p.0 + q.0) + q.1 * q.1 * (3real * q.0
            + p.0)
    } else {
        0real
    }
}

/// What the edge from `p` to `q` adds to the sum of the coefficient
/// `(i, j)`.
pub open spec fn edge(i: int, j: int, p: (real, real), q: (real, real)) -> real {
    cross(p, q) * term(i, j, p, q)
}

/// The sum of the coefficient `(i, j)` over the first `edges` edges of the
/// closed polygon through `vertices`. Edge `k` runs from vertex `k` to
/// vertex `k + 1`, the last one back to vertex 0.
pub open spec fn edge_sum(i: int, j: int, vertices: Seq<(real, real)>, edges: nat) -> real
    decreases edges,
{
    if edges == 0 {
        0real
    } else {
        edge_sum(i, j, vertices, (edges - 1) as nat) + edge(
            i,
            j,
            vertices[edges - 1],
            vertices[edges as int % vertices.len() as int],
        )
    }
}

/// The sum of the coefficient `(i, j)` over all edges of the polygon.
pub open spec fn total(i: int, j: int, vertices: Seq<(real, real)>) -> real {
    edge_sum(i, j, vertices, vertices.len())
}

/// The share of its sum that makes the moment `(i, j)`.
pub open spec fn share(i: int, j: int) -> real {
    if i + j == 0 {
        1real / 2real
    } else if i + j == 1 {
        1real / 6real
    } else if i + j == 2 {
        if i == 1 {
            1real / 24real
        } else {
            1real / 12real
        }
    } else if i == 3 || j == 3 {
        1real / 20real
    } else {
        1real / 60real
    }
}

/// The magnitude of a real number.
pub open spec fn magnitude(x: real) -> real {
    if x >= 0real {
        x
    } else {
        -x
    }
}

/// The raw moment `(i, j)` of the polygon through `vertices`: its sum
/// taken with the sign that makes the area positive and scaled by its
/// share, unless the sum of the cross terms is within `epsilon` of zero,
/// where the sum is left as it is.
pub open spec fn moment(i: int, j: int, vertices: Seq<(real, real)>, epsilon: real) -> real {
    let area_sum = total(0, 0, vertices);
    if magnitude(area_sum) > epsilon {
        if area_sum >= 0real {
            total(i, j, vertices) * share(i, j)
        } else {
            total(i, j, vertices) * -share(i, j)
        }
    } else {
        total(i, j, vertices)
    }
}

/// The same polygon, its vertices named from vertex `start` on.
pub open spec fn rotated<A>(vertices: Seq<A>, start: int) -> Seq<A> {
    vertices.subrange(start, vertices.len() as int) + vertices.subrange(0, start)
}

/// The sums of a polygon named from its second vertex on lag one edge
/// behind those of the polygon itself.
proof fn lemma_edge_sum_shifted(i: int, j: int, vertices: Seq<(real, real)>, edges: nat)
    requires
        vertices.len() >= 1,
        edges < vertices.len(),
    ensures
        edge_sum(i, j, rotated(vertices, 1), edges) == edge_sum(i, j, vertices, edges + 1) - edge(
            i,
            j,
            vertices[0],
            vertices[1int % vertices.len() as int],
        ),
    decreases edges,
{
    let n = vertices.len() as int;
    let turned = rotated(vertices, 1);
    if edges == 0 {
        assert(edge_sum(i, j, vertices, 1) == edge_sum(i, j, vertices, 0) + edge(
            i,
            j,
            vertices[0],
            vertices[1int % n],
        ));
    } else {
        lemma_edge_sum_shifted(i, j, vertices, (edges - 1) as nat);
        vstd::arithmetic::div_mod::lemma_small_mod(edges, n as nat);
        assert(turned[edges - 1] == vertices[edges as int]);
        if edges + 1 < n {
            vstd::arithmetic::div_mod::lemma_small_mod(edges + 1, n as nat);
            assert(turned[edges as int] == vertices[edges as int + 1]);
        } else {
            vstd::arithmetic::div_mod::lemma_mod_self_0(n);
            assert(turned[edges as int] == vertices[0]);
        }
        assert(turned[edges as int] == vertices[(edges as int + 1) % n]);
    }
}

/// Naming a polygon from its second vertex on leaves every sum as it is.
proof fn lemma_total_turned_once(i: int, j: int, vertices: Seq<(real, real)>)
    requires
        vertices.len() >= 1,
    ensures
        total(i, j, rotated(vertices, 1)) == total(i, j, vertices),
{
    let n = vertices.len() as int;
    let turned = rotated(vertices, 1);
    lemma_edge_sum_shifted(i, j, vertices, (n - 1) as nat);
    vstd::arithmetic::div_mod::lemma_mod_self_0(n);
    assert(turned[n - 1] == vertices[0]);
    if n == 1 {
        assert(turned[0] == vertices[0]);
    } else {
        vstd::arithmetic::div_mod::lemma_small_mod(1, n as nat);
        assert(turned[0] == vertices[1]);
    }
    assert(turned[0] == vertices[1int % n]);
}

/// The sums over all edges do not depend on the vertex at which the
/// polygon starts.
pub proof fn lemma_total_rotated(i: int, j: int, vertices: Seq<(real, real)>, start: int)
    requires
        0 <= start <= vertices.len(),
    ensures
        total(i, j, rotated(vertices, start)) == total(i, j, vertices),
    decreases start,
{
    if start == 0 {
        assert(rotated(vertices, 0) =~= vertices);
    } else {
        lemma_total_rotated(i, j, vertices, start - 1);
        let before = rotated(vertices, start - 1);
        assert(rotated(before, 1) =~= rotated(vertices, start));
        lemma_total_turned_once(i, j, before);
    }
}

/// The moments of a polygon do not depend on the vertex at which it
/// starts: the area, and with it every other raw moment.
pub proof fn lemma_moment_rotated(
    i: int,
    j: int,
    vertices: Seq<(real, real)>,
    start: int,
    epsilon: real,
)
    requires
        0 <= start <= vertices.len(),
    ensures
        moment(i, j, rotated(vertices, start), epsilon) == moment(i, j, vertices, epsilon),
{
    lemma_total_rotated(i, j, vertices, start);
    lemma_total_rotated(0, 0, vertices, start);
}

/// The centroid that a table of raw moments gives: the first moments over
/// the magnitude of the moment `(0, 0)`, or the origin where that
/// magnitude is within `epsilon` of zero.
pub open spec fn center(raw: spec_fn(int, int) -> real, epsilon: real) -> (real, real) {
    let mass = magnitude(raw(0, 0));
    if mass > epsilon {
        (raw(1, 0) / mass, raw(0, 1) / mass)
    } else {
        (0real, 0real)
    }
}

/// The central moment `(i, j)` that belongs to a table of raw moments.
pub open spec fn central(i: int, j: int, raw: spec_fn(int, int) -> real, epsilon: real) -> real {
    let (cx, cy) = center(raw, epsilon);
    let mu20 = raw(2, 0) - raw(1, 0) * cx;
    let mu11 = raw(1, 1) - raw(1, 0) * cy;
    let mu02 = raw(0, 2) - raw(0, 1) * cy;
    if i == 0 && j == 0 {
        raw(0, 0)
    } else if i == 2 && j == 0 {
        mu20
    } else if i == 1 && j == 1 {
        mu11
    } else if i == 0 && j == 2 {
        mu02
    } else if i == 3 && j == 0 {
        raw(3, 0) - cx * (3real * mu20 + cx * raw(1, 0))
    } else if i == 2 && j == 1 {
        raw(2, 1) - cx * (raw(0, 1) * cx + mu11 * 2real) - cy * mu20
    } else if i == 1 && j == 2 {
        raw(1, 2) - cy * (raw(1, 0) * cy + mu11 * 2real) - cx * mu02
    } else if i == 0 && j == 3 {
        raw(0, 3) - cy * (3real * mu02 + cy * raw(0, 1))
    } else {
        0real
    }
}

/// Whether `r` is the square root of `x`.
pub open spec fn is_root(r: real, x: real) -> bool {
    r >= 0real && r * r == x
}

/// The square root of `x`, where `x` has one.
pub open spec fn root(x: real) -> real {
    choose|r: real| is_root(r, x)
}

/// Whether `x` has a square root.
pub open spec fn has_root(x: real) -> bool {
    exists|r: real| is_root(r, x)
}

/// A number has at most one square root.
pub proof fn lemma_root_unique(r: real, x: real)
    requires
        is_root(r, x),
    ensures
        root(x) == r,
{
    let s = root(x);
    assert(is_root(s, x));
    assert(r == s) by (nonlinear_arith)
        requires
            r >= 0real,
            s >= 0real,
            r * r == s * s,
    ;
}

/// The inverse of the central moment `mu00`, or zero where its magnitude
/// is within `epsilon` of zero.
pub open spec fn inverse(mu00: real, epsilon: real) -> real {
    if magnitude(mu00) > epsilon {
        1real / mu00
    } else {
        0real
    }
}

/// The scale by which the central moments of total degree `degree` are
/// normalized: the power `degree / 2 + 1` of the inverse of `mu00`, for
/// degree 2 and 3.
pub open spec fn normalizer(degree: int, mu00: real, epsilon: real) -> real {
    let inv = inverse(mu00, epsilon);
    if degree == 2 {
        inv * inv
    } else {
        inv * inv * root(magnitude(inv))
    }
}

/// The normalized central moment `(i, j)` that belongs to a table of
/// central moments.
pub open spec fn normalized(i: int, j: int, mu: spec_fn(int, int) -> real, epsilon: real) -> real {
    if i == 0 && j == 0 {
        1real
    } else if i + j == 2 || i + j == 3 {
        mu(i, j) * normalizer(i + j, mu(0, 0), epsilon)
    } else {
        0real
    }
}

/// The moment `(i, j)` of a table of raw moments after every point has
/// moved by `(a, b)`: the moment itself, with the moments of lower degree
/// times the powers of `a` and `b` that a binomial expansion of
/// `(x + a)^i * (y + b)^j` gives them.
pub open spec fn shifted(i: int, j: int, a: real, b: real, raw: spec_fn(int, int) -> real) -> real {
    if i == 1 && j == 0 {
        raw(1, 0) + a * raw(0, 0)
    } else if i == 0 && j == 1 {
        raw(0, 1) + b * raw(0, 0)
    } else if i == 2 && j == 0 {
        raw(2, 0) + 2real * (a * raw(1, 0)) + a * (a * raw(0, 0))
    } else if i == 1 && j == 1 {
        raw(1, 1) + a * raw(0, 1) + b * raw(1, 0) + a * (b * raw(0, 0))
    } else if i == 0 && j == 2 {
        raw(0, 2) + 2real * (b * raw(0, 1)) + b * (b * raw(0, 0))
    } else if i == 3 && j == 0 {
        raw(3, 0) + 3real * (a * raw(2, 0)) + 3real * (a * (a * raw(1, 0))) + a * (a * (a * raw(
            0,
            0,
        )))
    } else if i == 2 && j == 1 {
        raw(2, 1) + 2real * (a * raw(1, 1)) + a * (a * raw(0, 1)) + b * raw(2, 0) + 2real * (a * (b
            * raw(1, 0))) + a * (a * (b * raw(0, 0)))
    } else if i == 1 && j == 2 {
        raw(1, 2) + 2real * (b * raw(1, 1)) + b * (b * raw(1, 0)) + a * raw(0, 2) + 2real * (b * (a
            * raw(0, 1))) + b * (b * (a * raw(0, 0)))
    } else if i == 0 && j == 3 {
        raw(0, 3) + 3real * (b * raw(0, 2)) + 3real * (b * (b * raw(0, 1))) + b * (b * (b * raw(
            0,
            0,
        )))
    } else {
        raw(i, j)
    }
}

/// The polygon with every coordinate multiplied by `factor`.
pub open spec fn scaled_by(vertices: Seq<(real, real)>, factor: real) -> Seq<(real, real)> {
    Seq::new(vertices.len(), |k: int| (factor * vertices[k].0, factor * vertices[k].1))
}

/// The polygon with every point moved by `(a, b)`.
pub open spec fn translated(vertices: Seq<(real, real)>, a: real, b: real) -> Seq<(real, real)> {
    Seq::new(vertices.len(), |k: int| (vertices[k].0 + a, vertices[k].1 + b))
}

/// The table of the raw moments of a polygon.
pub open spec fn moments(vertices: Seq<(real, real)>, epsilon: real) -> spec_fn(int, int) -> real {
    |i: int, j: int| moment(i, j, vertices, epsilon)
}

/// The table of the central moments that belong to a table of raw
/// moments.
pub open spec fn centrals(raw: spec_fn(int, int) -> real, epsilon: real) -> spec_fn(int, int) -> real {
    |i: int, j: int| central(i, j, raw, epsilon)
}

/// The sum of the coefficient `(i, j)` after every point has moved by
/// `(a, b)`, by the sums before: the sum itself, with what the movement
/// carries into it from the sums of lower degree.
pub open spec fn carried(i: int, j: int, a: real, b: real, sums: spec_fn(int, int) -> real) -> real {
    if i == 1 && j == 0 {
        sums(1, 0) + 3real * (a * sums(0, 0))
    } else if i == 0 && j == 1 {
        sums(0, 1) + 3real * (b * sums(0, 0))
    } else if i == 2 && j == 0 {
        sums(2, 0) + 4real * (a * sums(1, 0)) + 6real * (a * (a * sums(0, 0)))
    } else if i == 1 && j == 1 {
        sums(1, 1) + 4real * (b * sums(1, 0)) + 4real * (a * sums(0, 1)) + 12real * (a * (b * sums(
            0,
            0,
        )))
    } else if i == 0 && j == 2 {
        sums(0, 2) + 4real * (b * sums(0, 1)) + 6real * (b * (b * sums(0, 0)))
    } else if i == 3 && j == 0 {
        sums(3, 0) + 5real * (a * sums(2, 0)) + 10real * (a * (a * sums(1, 0))) + 10real * (a * (a
            * (a * sums(0, 0))))
    } else if i == 2 && j == 1 {
        sums(2, 1) + 5real * (b * sums(2, 0)) + 5real * (a * sums(1, 1)) + 20real * (a * (b * sums(
            1,
            0,
        ))) + 10real * (a * (a * sums(0, 1))) + 30real * (a * (a * (b * sums(0, 0))))
    } else if i == 1 && j == 2 {
        sums(1, 2) + 5real * (a * sums(0, 2)) + 5real * (b * sums(1, 1)) + 20real * (b * (a * sums(
            0,
            1,
        ))) + 10real * (b * (b * sums(1, 0))) + 30real * (b * (b * (a * sums(0, 0))))
    } else if i == 0 && j == 3 {
        sums(0, 3) + 5real * (b * sums(0, 2)) + 10real * (b * (b * sums(0, 1))) + 10real * (b * (b
            * (b * sums(0, 0))))
    } else {
        sums(i, j)
    }
}

/// What the edge from `p` to `q` adds to each sum.
pub open spec fn edge_table(p: (real, real), q: (real, real)) -> spec_fn(int, int) -> real {
    |i: int, j: int| edge(i, j, p, q)
}

/// The sums over the first `edges` edges of a polygon.
pub open spec fn sum_table(vertices: Seq<(real, real)>, edges: nat) -> spec_fn(int, int) -> real {
    |i: int, j: int| edge_sum(i, j, vertices, edges)
}

} // verus!
