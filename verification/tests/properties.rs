use image_moments::accumulator::{Accumulator, SealedSupportedOrder};
use image_moments::storage::{calculate_index, calculate_space, Storage};
use image_moments::{Central, Moments, NormalizedCentral, Order, Point, Scalar, Spatial};

/// Double precision numbers as the scalar of the moments.
#[derive(Debug, Clone, Copy, PartialEq, PartialOrd)]
struct F64(f64);

impl Scalar for F64 {
    const EPSILON: Self = F64(f64::EPSILON);
    const ZERO: Self = F64(0.0);
    const ONE: Self = F64(1.0);
    const TWO: Self = F64(2.0);
    const THREE: Self = F64(3.0);
    const F1_2: Self = F64(1.0 / 2.0);
    const F1_6: Self = F64(1.0 / 6.0);
    const F1_12: Self = F64(1.0 / 12.0);
    const F1_20: Self = F64(1.0 / 20.0);
    const F1_24: Self = F64(1.0 / 24.0);
    const F1_60: Self = F64(1.0 / 60.0);

    fn spec_add(self, rhs: Self) -> Self {
        F64(self.0 + rhs.0)
    }

    fn spec_sub(self, rhs: Self) -> Self {
        F64(self.0 - rhs.0)
    }

    fn spec_mul(self, rhs: Self) -> Self {
        F64(self.0 * rhs.0)
    }

    fn spec_div(self, rhs: Self) -> Self {
        F64(self.0 / rhs.0)
    }

    fn spec_neg(self) -> Self {
        F64(-self.0)
    }

    fn spec_abs(self) -> Self {
        F64(self.0.abs())
    }

    fn spec_mul_add(self, a: Self, b: Self) -> Self {
        F64(self.0.mul_add(a.0, b.0))
    }

    fn spec_powi(self, n: i32) -> Self {
        F64(self.0.powi(n))
    }

    fn spec_copysign(self, sign: Self) -> Self {
        F64(self.0.copysign(sign.0))
    }

    fn spec_sqrt(self) -> Self {
        F64(self.0.sqrt())
    }

    fn spec_gt(self, rhs: Self) -> bool {
        self.0 > rhs.0
    }

    fn add(self, rhs: Self) -> Self {
        self.spec_add(rhs)
    }

    fn sub(self, rhs: Self) -> Self {
        self.spec_sub(rhs)
    }

    fn mul(self, rhs: Self) -> Self {
        self.spec_mul(rhs)
    }

    fn div(self, rhs: Self) -> Self {
        self.spec_div(rhs)
    }

    fn neg(self) -> Self {
        self.spec_neg()
    }

    fn abs(self) -> Self {
        self.spec_abs()
    }

    fn mul_add(self, a: Self, b: Self) -> Self {
        self.spec_mul_add(a, b)
    }

    fn powi(self, n: i32) -> Self {
        self.spec_powi(n)
    }

    fn copysign(self, sign: Self) -> Self {
        self.spec_copysign(sign)
    }

    fn sqrt(self) -> Self {
        self.spec_sqrt()
    }

    fn gt(self, rhs: Self) -> bool {
        self.spec_gt(rhs)
    }
}

fn polygon(points: &[(f64, f64)]) -> Vec<(F64, F64)> {
    points.iter().map(|p| (F64(p.0), F64(p.1))).collect()
}

fn near(actual: F64, expected: f64) -> bool {
    (actual.0 - expected).abs() <= 1e-9 * (1.0 + expected.abs())
}

fn spatial_all(m: &Spatial<F64, 3>) -> [f64; 10] {
    [
        m.get::<0, 0>().0,
        m.get::<1, 0>().0,
        m.get::<0, 1>().0,
        m.get::<2, 0>().0,
        m.get::<1, 1>().0,
        m.get::<0, 2>().0,
        m.get::<3, 0>().0,
        m.get::<2, 1>().0,
        m.get::<1, 2>().0,
        m.get::<0, 3>().0,
    ]
}

fn central_all(m: &Central<F64, 3>) -> [f64; 10] {
    [
        m.get::<0, 0>().0,
        m.get::<1, 0>().0,
        m.get::<0, 1>().0,
        m.get::<2, 0>().0,
        m.get::<1, 1>().0,
        m.get::<0, 2>().0,
        m.get::<3, 0>().0,
        m.get::<2, 1>().0,
        m.get::<1, 2>().0,
        m.get::<0, 3>().0,
    ]
}

fn normalized_all(m: &NormalizedCentral<F64, 3>) -> [f64; 10] {
    [
        m.get::<0, 0>().0,
        m.get::<1, 0>().0,
        m.get::<0, 1>().0,
        m.get::<2, 0>().0,
        m.get::<1, 1>().0,
        m.get::<0, 2>().0,
        m.get::<3, 0>().0,
        m.get::<2, 1>().0,
        m.get::<1, 2>().0,
        m.get::<0, 3>().0,
    ]
}

fn kite() -> Vec<(f64, f64)> {
    vec![(1.0, 2.0), (6.0, 1.0), (9.0, 5.0), (7.0, 9.0), (4.0, 6.0), (2.0, 8.0)]
}

#[test]
fn right_triangle_has_its_closed_form_moments() {
    // legs 4 and 3 on the axes: the moment (i, j) is 4^(i+1) 3^(j+1) i! j! / (i + j + 2)!
    let moments: Spatial<F64, 3> =
        Spatial::from_points(&polygon(&[(0.0, 0.0), (4.0, 0.0), (0.0, 3.0)]));
    assert!(near(moments.get::<0, 0>(), 6.0));
    assert!(near(moments.get::<1, 0>(), 8.0));
    assert!(near(moments.get::<0, 1>(), 6.0));
    assert!(near(moments.get::<2, 0>(), 16.0));
    assert!(near(moments.get::<1, 1>(), 6.0));
    assert!(near(moments.get::<0, 2>(), 9.0));
    assert!(near(moments.get::<3, 0>(), 38.4));
    assert!(near(moments.get::<2, 1>(), 9.6));
    assert!(near(moments.get::<1, 2>(), 7.2));
    assert!(near(moments.get::<0, 3>(), 16.2));
}

#[test]
fn unit_square_moments_at_every_stage() {
    let raw: Spatial<F64, 3> =
        Spatial::from_points(&polygon(&[(0.0, 0.0), (1.0, 0.0), (1.0, 1.0), (0.0, 1.0)]));
    assert_eq!(raw.get::<0, 0>(), F64(1.0));
    assert!(near(raw.get::<1, 0>(), 0.5));
    assert!(near(raw.get::<0, 1>(), 0.5));
    assert!(near(raw.get::<2, 0>(), 1.0 / 3.0));
    assert!(near(raw.get::<1, 1>(), 0.25));
    assert!(near(raw.get::<0, 2>(), 1.0 / 3.0));
    assert!(near(raw.get::<3, 0>(), 0.25));
    assert!(near(raw.get::<2, 1>(), 1.0 / 6.0));
    assert!(near(raw.get::<1, 2>(), 1.0 / 6.0));
    assert!(near(raw.get::<0, 3>(), 0.25));

    let central = Central::from(&raw);
    assert_eq!(central.get::<0, 0>(), F64(1.0));
    assert_eq!(central.get::<1, 0>(), F64(0.0));
    assert_eq!(central.get::<0, 1>(), F64(0.0));
    assert!(near(central.get::<2, 0>(), 1.0 / 12.0));
    assert!(near(central.get::<1, 1>(), 0.0));
    assert!(near(central.get::<0, 2>(), 1.0 / 12.0));
    assert!(near(central.get::<3, 0>(), 0.0));
    assert!(near(central.get::<2, 1>(), 0.0));
    assert!(near(central.get::<1, 2>(), 0.0));
    assert!(near(central.get::<0, 3>(), 0.0));

    let normalized = NormalizedCentral::from(&central);
    assert_eq!(normalized.get::<0, 0>(), F64(1.0));
    assert_eq!(normalized.get::<1, 0>(), F64(0.0));
    assert_eq!(normalized.get::<0, 1>(), F64(0.0));
    assert!(near(normalized.get::<2, 0>(), 1.0 / 12.0));
    assert!(near(normalized.get::<0, 2>(), 1.0 / 12.0));
}

#[test]
fn normalized_moments_of_a_larger_square_use_the_powers_of_the_area() {
    // side 2: mu20 = 16 / 12, mu00 = 4, so nu20 = mu20 / 4^2
    let raw: Spatial<F64, 3> =
        Spatial::from_points(&polygon(&[(0.0, 0.0), (2.0, 0.0), (2.0, 2.0), (0.0, 2.0)]));
    let central = Central::from(&raw);
    assert!(near(central.get::<2, 0>(), 16.0 / 12.0));
    let normalized = NormalizedCentral::from(&central);
    assert!(near(normalized.get::<2, 0>(), 1.0 / 12.0));
    assert!(near(normalized.get::<1, 1>(), 0.0));
    assert!(near(normalized.get::<3, 0>(), 0.0));
}

#[test]
fn third_normalized_moment_scales_with_the_root_of_the_area() {
    // right triangle with legs 4 and 3: mu30 over area^2.5
    let raw: Spatial<F64, 3> =
        Spatial::from_points(&polygon(&[(0.0, 0.0), (4.0, 0.0), (0.0, 3.0)]));
    let central = Central::from(&raw);
    let cx = 8.0 / 6.0;
    let mu20 = 16.0 - 8.0 * cx;
    let mu30 = 38.4 - cx * (3.0 * mu20 + cx * 8.0);
    assert!(near(central.get::<2, 0>(), mu20));
    assert!(near(central.get::<3, 0>(), mu30));
    let normalized = NormalizedCentral::from(&central);
    assert!(near(normalized.get::<3, 0>(), mu30 / (36.0 * 6.0_f64.sqrt())));
}

#[test]
fn clockwise_polygon_has_the_same_moments() {
    let forward = kite();
    let mut backward = kite();
    backward.reverse();
    let a: Spatial<F64, 3> = Spatial::from_points(&polygon(&forward));
    let b: Spatial<F64, 3> = Spatial::from_points(&polygon(&backward));
    let a = spatial_all(&a);
    let b = spatial_all(&b);
    assert!(a[0] > 0.0);
    for k in 0..10 {
        assert!((a[k] - b[k]).abs() <= 1e-9 * (1.0 + a[k].abs()));
    }
}

#[test]
fn area_does_not_depend_on_the_starting_vertex() {
    let points = kite();
    let whole: Spatial<F64, 3> = Spatial::from_points(&polygon(&points));
    for start in 0..points.len() {
        let mut turned = points[start..].to_vec();
        turned.extend_from_slice(&points[..start]);
        let moments: Spatial<F64, 3> = Spatial::from_points(&polygon(&turned));
        // whole numbers: every sum is exact, so the moments agree to the last bit
        assert_eq!(spatial_all(&moments), spatial_all(&whole));
    }
    // twice the area is -11 + 21 + 46 + 6 + 20 - 4
    assert_eq!(whole.get::<0, 0>(), F64(39.0));
}

#[test]
fn central_moments_do_not_move_with_the_polygon() {
    let points = kite();
    let moved: Vec<(f64, f64)> = points.iter().map(|p| (p.0 + 11.0, p.1 - 4.0)).collect();
    let a = central_all(&Central::from(&Spatial::<F64, 3>::from_points(&polygon(&points))));
    let b = central_all(&Central::from(&Spatial::<F64, 3>::from_points(&polygon(&moved))));
    for k in 0..10 {
        assert!((a[k] - b[k]).abs() <= 1e-7 * (1.0 + a[k].abs()));
    }
}

#[test]
fn normalized_moments_do_not_grow_with_the_polygon() {
    let points = kite();
    let grown: Vec<(f64, f64)> = points.iter().map(|p| (p.0 * 2.5, p.1 * 2.5)).collect();
    let a = normalized_all(&NormalizedCentral::from(&Central::from(
        &Spatial::<F64, 3>::from_points(&polygon(&points)),
    )));
    let b = normalized_all(&NormalizedCentral::from(&Central::from(
        &Spatial::<F64, 3>::from_points(&polygon(&grown)),
    )));
    assert_eq!(a[0], 1.0);
    assert_eq!(b[0], 1.0);
    for k in 0..10 {
        assert!((a[k] - b[k]).abs() <= 1e-9);
    }
}

#[test]
fn tables_convert_into_each_other() {
    let raw: Spatial<F64, 3> = Spatial::from_points(&polygon(&kite()));
    let central: Central<F64, 3> = (&raw).into();
    let normalized: NormalizedCentral<F64, 3> = (&central).into();
    assert_eq!(central_all(&central), central_all(&Central::from(&raw)));
    assert_eq!(normalized_all(&normalized), normalized_all(&NormalizedCentral::from(&central)));
    assert_eq!(central.get::<0, 0>(), F64(39.0));
    assert_eq!(normalized.get::<0, 0>(), F64(1.0));
}

#[test]
fn first_central_and_normalized_moments_are_exactly_zero() {
    let raw: Spatial<F64, 3> = Spatial::from_points(&polygon(&kite()));
    let central = Central::from(&raw);
    assert_eq!(central.get::<1, 0>(), F64(0.0));
    assert_eq!(central.get::<0, 1>(), F64(0.0));
    assert_eq!(central.get::<0, 0>(), raw.get::<0, 0>());
    let normalized = NormalizedCentral::from(&central);
    assert_eq!(normalized.get::<0, 0>(), F64(1.0));
    assert_eq!(normalized.get::<1, 0>(), F64(0.0));
    assert_eq!(normalized.get::<0, 1>(), F64(0.0));
}

#[test]
fn no_point_gives_zero_moments_of_every_order() {
    let points: [(F64, F64); 0] = [];
    let third: Spatial<F64, 3> = Spatial::from_points(&points);
    assert_eq!(spatial_all(&third), [0.0; 10]);
    let second: Spatial<F64, 2> = Spatial::from_points(&points);
    assert_eq!(second.get::<0, 0>(), F64(0.0));
    assert_eq!(second.get::<1, 1>(), F64(0.0));
    let first: Spatial<F64, 1> = Spatial::from_points(&points);
    assert_eq!(first.get::<0, 1>(), F64(0.0));
    let zeroth: Spatial<F64, 0> = Spatial::from_points(&points);
    assert_eq!(zeroth.get::<0, 0>(), F64(0.0));
}

#[test]
fn repeated_point_keeps_its_unscaled_sums() {
    // 0.1 * 0.3 is not exact, so the fused cross term is the rounding error of the product
    let p = (F64(0.1), F64(0.3));
    let moments: Spatial<F64, 3> = Spatial::from_points(&[p, p, p]);
    let dxy = 0.1_f64.mul_add(0.3, 0.1 * -0.3);
    assert!(dxy != 0.0);
    assert!(dxy.abs() <= f64::EPSILON);
    // three equal edges, none of them divided by anything
    assert_eq!(moments.get::<0, 0>(), F64(dxy + dxy + dxy));
    let edge = dxy * (0.1 + 0.1);
    assert_eq!(moments.get::<1, 0>(), F64(dxy.mul_add(0.2, dxy.mul_add(0.2, edge))));
    assert!(moments.get::<0, 0>().0.abs() <= f64::EPSILON);
    assert!(moments.get::<3, 0>().0.abs() <= f64::EPSILON);
}

#[test]
fn points_on_a_line_give_zero_area() {
    let moments: Spatial<F64, 3> =
        Spatial::from_points(&polygon(&[(0.0, 0.0), (1.0, 1.0), (2.0, 2.0), (5.0, 5.0)]));
    assert_eq!(spatial_all(&moments), [0.0; 10]);
    let central = Central::from(&moments);
    assert_eq!(central_all(&central), [0.0; 10]);
    let normalized = NormalizedCentral::from(&central);
    assert_eq!(normalized.get::<0, 0>(), F64(1.0));
    assert_eq!(normalized.get::<2, 0>(), F64(0.0));
    assert_eq!(normalized.get::<0, 3>(), F64(0.0));
}

#[test]
fn tiny_area_takes_the_origin_as_centroid() {
    // the area is below epsilon: nothing is scaled and nothing divided
    let s = 1.0e-9;
    let raw: Spatial<F64, 3> =
        Spatial::from_points(&polygon(&[(1.0, 1.0), (1.0 + s, 1.0), (1.0, 1.0 + s)]));
    assert!(raw.get::<0, 0>().0.abs() <= f64::EPSILON);
    let central = Central::from(&raw);
    assert_eq!(central.get::<2, 0>(), raw.get::<2, 0>());
    assert_eq!(central.get::<1, 1>(), raw.get::<1, 1>());
    assert_eq!(central.get::<0, 3>(), raw.get::<0, 3>());
    let normalized = NormalizedCentral::from(&central);
    assert_eq!(normalized.get::<0, 0>(), F64(1.0));
    assert_eq!(normalized.get::<2, 0>().0, 0.0);
    assert_eq!(normalized.get::<3, 0>().0, 0.0);
}

#[test]
fn lower_orders_agree_with_the_third() {
    let points = polygon(&kite());
    let third: Spatial<F64, 3> = Spatial::from_points(&points);
    let second: Spatial<F64, 2> = Spatial::from_points(&points);
    let first: Spatial<F64, 1> = Spatial::from_points(&points);
    let zeroth: Spatial<F64, 0> = Spatial::from_points(&points);
    assert_eq!(zeroth.get::<0, 0>(), third.get::<0, 0>());
    assert_eq!(first.get::<0, 0>(), third.get::<0, 0>());
    assert_eq!(first.get::<1, 0>(), third.get::<1, 0>());
    assert_eq!(first.get::<0, 1>(), third.get::<0, 1>());
    assert_eq!(second.get::<2, 0>(), third.get::<2, 0>());
    assert_eq!(second.get::<1, 1>(), third.get::<1, 1>());
    assert_eq!(second.get::<0, 2>(), third.get::<0, 2>());
    let central_second = Central::from(&second);
    let central_third = Central::from(&third);
    assert_eq!(central_second.get::<2, 0>(), central_third.get::<2, 0>());
    assert_eq!(central_second.get::<1, 1>(), central_third.get::<1, 1>());
    let normalized_second = NormalizedCentral::from(&central_second);
    let normalized_third = NormalizedCentral::from(&central_third);
    assert_eq!(normalized_second.get::<0, 2>(), normalized_third.get::<0, 2>());
}

#[test]
fn points_may_be_arrays() {
    let pairs = polygon(&kite());
    let arrays: Vec<[F64; 2]> = pairs.iter().map(|p| [p.0, p.1]).collect();
    let a: Spatial<F64, 3> = Spatial::from_points(&pairs);
    let b: Spatial<F64, 3> = Spatial::from_points(&arrays);
    assert_eq!(spatial_all(&a), spatial_all(&b));
    assert_eq!(arrays[1].x(), F64(6.0));
    assert_eq!(arrays[1].y(), F64(1.0));
    assert_eq!(pairs[2].x(), F64(9.0));
    assert_eq!(pairs[2].y(), F64(5.0));
}

#[test]
fn one_edge_adds_its_cross_term_to_each_sum() {
    let mut acc = Accumulator::<F64, [F64; 10]>::from_point(&(F64(1.0), F64(2.0)));
    assert_eq!(acc.last_point, (F64(1.0), F64(2.0)));
    acc.update::<Order<3>, _>(&(F64(3.0), F64(5.0)));
    assert_eq!(acc.last_point, (F64(3.0), F64(5.0)));
    // dxy = 1 * 5 - 3 * 2
    let dxy = -1.0;
    assert_eq!(acc.storage.get::<0, 0>(), F64(dxy));
    assert_eq!(acc.storage.get::<1, 0>(), F64(dxy * 4.0));
    assert_eq!(acc.storage.get::<0, 1>(), F64(dxy * 7.0));
    assert_eq!(acc.storage.get::<2, 0>(), F64(dxy * (1.0 * 4.0 + 9.0)));
    assert_eq!(acc.storage.get::<1, 1>(), F64(dxy * (1.0 * (7.0 + 2.0) + 3.0 * (7.0 + 5.0))));
    assert_eq!(acc.storage.get::<0, 2>(), F64(dxy * (2.0 * 7.0 + 25.0)));
    assert_eq!(acc.storage.get::<3, 0>(), F64(dxy * 4.0 * (1.0 + 9.0)));
    assert_eq!(acc.storage.get::<0, 3>(), F64(dxy * 7.0 * (4.0 + 25.0)));
    assert_eq!(
        acc.storage.get::<2, 1>(),
        F64(dxy * (1.0 * (3.0 * 2.0 + 5.0) + 2.0 * 3.0 * 1.0 * 7.0 + 9.0 * (3.0 * 5.0 + 2.0)))
    );
    assert_eq!(
        acc.storage.get::<1, 2>(),
        F64(dxy * (4.0 * (3.0 * 1.0 + 3.0) + 2.0 * 5.0 * 2.0 * 4.0 + 25.0 * (3.0 * 3.0 + 1.0)))
    );
}

#[test]
fn lower_engine_leaves_higher_sums_alone() {
    let mut acc = Accumulator::<F64, [F64; 10]>::from_point(&(F64(1.0), F64(2.0)));
    acc.update::<Order<1>, _>(&(F64(3.0), F64(5.0)));
    assert_eq!(acc.storage.get::<0, 0>(), F64(-1.0));
    assert_eq!(acc.storage.get::<1, 0>(), F64(-4.0));
    assert_eq!(acc.storage.get::<0, 1>(), F64(-7.0));
    assert_eq!(acc.storage.get::<2, 0>(), F64(0.0));
    assert_eq!(acc.storage.get::<1, 1>(), F64(0.0));
    assert_eq!(acc.storage.get::<0, 3>(), F64(0.0));
    let table = acc.finalize::<Order<1>>();
    // the sum of the cross terms is negative: every share takes its sign
    assert_eq!(table.get::<0, 0>(), F64(-1.0 * -0.5));
    assert_eq!(table.get::<1, 0>(), F64(-4.0 * (-1.0 / 6.0)));
    assert_eq!(table.get::<0, 1>(), F64(-7.0 * (-1.0 / 6.0)));
    assert_eq!(table.get::<2, 0>(), F64(0.0));
}

#[test]
fn finalize_scales_each_sum_by_its_share() {
    let mut acc = Accumulator::<F64, <Order<3> as SealedSupportedOrder<F64>>::Storage>::from_point(
        &(F64(0.0), F64(0.0)),
    );
    *acc.storage.get_mut::<0, 0>() = F64(120.0);
    *acc.storage.get_mut::<1, 0>() = F64(120.0);
    *acc.storage.get_mut::<0, 1>() = F64(120.0);
    *acc.storage.get_mut::<2, 0>() = F64(120.0);
    *acc.storage.get_mut::<1, 1>() = F64(120.0);
    *acc.storage.get_mut::<0, 2>() = F64(120.0);
    *acc.storage.get_mut::<3, 0>() = F64(120.0);
    *acc.storage.get_mut::<2, 1>() = F64(120.0);
    *acc.storage.get_mut::<1, 2>() = F64(120.0);
    *acc.storage.get_mut::<0, 3>() = F64(120.0);
    let table = acc.finalize::<Order<3>>();
    assert_eq!(table.get::<0, 0>(), F64(120.0 * (1.0 / 2.0)));
    assert_eq!(table.get::<1, 0>(), F64(120.0 * (1.0 / 6.0)));
    assert_eq!(table.get::<0, 1>(), F64(120.0 * (1.0 / 6.0)));
    assert_eq!(table.get::<2, 0>(), F64(120.0 * (1.0 / 12.0)));
    assert_eq!(table.get::<1, 1>(), F64(120.0 * (1.0 / 24.0)));
    assert_eq!(table.get::<0, 2>(), F64(120.0 * (1.0 / 12.0)));
    assert_eq!(table.get::<3, 0>(), F64(120.0 * (1.0 / 20.0)));
    assert_eq!(table.get::<2, 1>(), F64(120.0 * (1.0 / 60.0)));
    assert_eq!(table.get::<1, 2>(), F64(120.0 * (1.0 / 60.0)));
    assert_eq!(table.get::<0, 3>(), F64(120.0 * (1.0 / 20.0)));
}

#[test]
fn finalize_leaves_a_degenerate_table_alone() {
    let mut acc = Accumulator::<F64, [F64; 10]>::from_point(&(F64(0.0), F64(0.0)));
    *acc.storage.get_mut::<0, 0>() = F64(f64::EPSILON);
    *acc.storage.get_mut::<2, 1>() = F64(7.0);
    let table = acc.finalize::<Order<3>>();
    assert_eq!(table.get::<0, 0>(), F64(f64::EPSILON));
    assert_eq!(table.get::<2, 1>(), F64(7.0));
}

#[test]
fn every_coefficient_has_its_own_place() {
    let third = [
        calculate_index::<0, 0, 3>(),
        calculate_index::<1, 0, 3>(),
        calculate_index::<2, 0, 3>(),
        calculate_index::<3, 0, 3>(),
        calculate_index::<0, 1, 3>(),
        calculate_index::<1, 1, 3>(),
        calculate_index::<2, 1, 3>(),
        calculate_index::<0, 2, 3>(),
        calculate_index::<1, 2, 3>(),
        calculate_index::<0, 3, 3>(),
    ];
    assert_eq!(third, [0, 1, 2, 3, 4, 5, 6, 7, 8, 9]);
    let second = [
        calculate_index::<0, 0, 2>(),
        calculate_index::<1, 0, 2>(),
        calculate_index::<2, 0, 2>(),
        calculate_index::<0, 1, 2>(),
        calculate_index::<1, 1, 2>(),
        calculate_index::<0, 2, 2>(),
    ];
    assert_eq!(second, [0, 1, 2, 3, 4, 5]);
    let first = [
        calculate_index::<0, 0, 1>(),
        calculate_index::<1, 0, 1>(),
        calculate_index::<0, 1, 1>(),
    ];
    assert_eq!(first, [0, 1, 2]);
    assert_eq!(calculate_index::<0, 0, 0>(), 0);
    assert_eq!(calculate_space::<3>(), third.len());
}

#[test]
fn storage_keeps_each_coefficient_apart() {
    let mut table = <[F64; 10] as Storage<F64>>::zeros();
    assert_eq!(table, [F64(0.0); 10]);
    *table.get_mut::<2, 1>() = F64(21.0);
    *table.get_mut::<0, 3>() = F64(3.0);
    *table.get_mut::<1, 0>() = F64(10.0);
    assert_eq!(table.get::<2, 1>(), F64(21.0));
    assert_eq!(table.get::<0, 3>(), F64(3.0));
    assert_eq!(table.get::<1, 0>(), F64(10.0));
    assert_eq!(table.get::<1, 2>(), F64(0.0));
    assert_eq!(table.get::<0, 0>(), F64(0.0));
    assert_eq!(<[F64; 10] as Storage<F64>>::ORDER, 3);
    assert_eq!(<[F64; 10] as Storage<F64>>::SIZE, 10);
    assert_eq!(<[F64; 6] as Storage<F64>>::ORDER, 2);
    assert_eq!(<[F64; 6] as Storage<F64>>::SIZE, 6);
    assert_eq!(<[F64; 3] as Storage<F64>>::ORDER, 1);
    assert_eq!(<[F64; 1] as Storage<F64>>::SIZE, 1);
    let mut small = <[F64; 3] as Storage<F64>>::zeros();
    *small.get_mut::<0, 1>() = F64(5.0);
    assert_eq!(small, [F64(0.0), F64(0.0), F64(5.0)]);
}
