use image_moments::accumulator::{Accumulator, SealedSupportedOrder};
use image_moments::storage::{calculate_index, calculate_space, Storage};
use image_moments::{Central, Moments, NormalizedCentral, Order, Point, Scalar, Spatial};

/// Double precision numbers as the scalar of the moments.
#[derive(Debug, Clone, Copy, PartialEq, PartialOrd)]
struct F64(f64);

impl Scalar for F64 {
    const EPSILON: Self = F64(f64::EPSILON);
    const ZERO: Self = F64(0.0);
    const ONE: Self = F64(1.0);
    const TWO: Self = F64(2.0);
    const THREE: Self = F64(3.0);
    const F1_2: Self = F64(1.0 / 2.0);
    const F1_6: Self = F64(1.0 / 6.0);
    const F1_12: Self = F64(1.0 / 12.0);
    const F1_20: Self = F64(1.0 / 20.0);
    const F1_24: Self = F64(1.0 / 24.0);
    const F1_60: Self = F64(1.0 / 60.0);

    fn spec_add(self, rhs: Self) -> Self {
        F64(self.0 + rhs.0)
    }

    fn spec_sub(self, rhs: Self) -> Self {
        F64(self.0 - rhs.0)
    }

    fn spec_mul(self, rhs: Self) -> Self {
        F64(self.0 * rhs.0)
    }

    fn spec_div(self, rhs: Self) -> Self {
        F64(self.0 / rhs.0)
    }

    fn spec_neg(self) -> Self {
        F64(-self.0)
    }

    fn spec_abs(self) -> Self {
        F64(self.0.abs())
    }

    fn spec_mul_add(self, a: Self, b: Self) -> Self {
        F64(self.0.mul_add(a.0, b.0))
    }

    fn spec_powi(self, n: i32) -> Self {
        F64(self.0.powi(n))
    }

    fn spec_copysign(self, sign: Self) -> Self {
        F64(self.0.copysign(sign.0))
    }

    fn spec_sqrt(self) -> Self {
        F64(self.0.sqrt())
    }

    fn spec_gt(self, rhs: Self) -> bool {
        self.0 > rhs.0
    }

    fn add(self, rhs: Self) -> Self {
        self.spec_add(rhs)
    }

    fn sub(self, rhs: Self) -> Self {
        self.spec_sub(rhs)
    }

    fn mul(self, rhs: Self) -> Self {
        self.spec_mul(rhs)
    }

    fn div(self, rhs: Self) -> Self {
        self.spec_div(rhs)
    }

    fn neg(self) -> Self {
        self.spec_neg()
    }

    fn abs(self) -> Self {
        self.spec_abs()
    }

    fn mul_add(self, a: Self, b: Self) -> Self {
        self.spec_mul_add(a, b)
    }

    fn powi(self, n: i32) -> Self {
        self.spec_powi(n)
    }

    fn copysign(self, sign: Self) -> Self {
        self.spec_copysign(sign)
    }

    fn sqrt(self) -> Self {
        self.spec_sqrt()
    }

    fn gt(self, rhs: Self) -> bool {
        self.spec_gt(rhs)
    }
}

/// Points given by whole numbers.
#[derive(Debug, Clone, Copy)]
struct Lattice(i32, i32);

impl Point<F64> for Lattice {
    fn position(&self) -> (F64, F64) {
        (self.x(), self.y())
    }

    fn x(&self) -> F64 {
        F64(self.0 as f64)
    }

    fn y(&self) -> F64 {
        F64(self.1 as f64)
    }
}

fn scalars(points: &[(f64, f64)]) -> Vec<(F64, F64)> {
    points.iter().map(|p| (F64(p.0), F64(p.1))).collect()
}

fn lattice(points: &[(i32, i32)]) -> Vec<Lattice> {
    points.iter().map(|p| Lattice(p.0, p.1)).collect()
}

fn close(actual: F64, expected: f64, epsilon: f64) -> bool {
    (actual.0 - expected).abs() <= epsilon
}

fn contour() -> Vec<(f64, f64)> {
    vec![
        (53.0, 19.0),
        (52.0, 20.0),
        (49.0, 20.0),
        (48.0, 21.0),
        (47.0, 21.0),
        (46.0, 22.0),
        (45.0, 22.0),
        (44.0, 23.0),
        (43.0, 23.0),
        (42.0, 24.0),
        (41.0, 24.0),
        (39.0, 26.0),
        (38.0, 26.0),
        (34.0, 30.0),
        (76.0, 30.0),
        (77.0, 31.0),
        (79.0, 31.0),
        (80.0, 32.0),
        (81.0, 32.0),
        (83.0, 34.0),
        (84.0, 34.0),
        (86.0, 36.0),
        (86.0, 37.0),
        (87.0, 38.0),
        (87.0, 39.0),
        (88.0, 40.0),
        (88.0, 47.0),
        (86.0, 49.0),
        (86.0, 50.0),
        (83.0, 53.0),
        (82.0, 53.0),
        (81.0, 54.0),
        (81.0, 55.0),
        (82.0, 55.0),
        (84.0, 57.0),
        (84.0, 58.0),
        (85.0, 59.0),
        (85.0, 60.0),
        (86.0, 61.0),
        (86.0, 63.0),
        (87.0, 64.0),
        (87.0, 65.0),
        (88.0, 66.0),
        (93.0, 66.0),
        (94.0, 65.0),
        (94.0, 64.0),
        (95.0, 63.0),
        (95.0, 60.0),
        (96.0, 59.0),
        (99.0, 59.0),
        (99.0, 53.0),
        (98.0, 52.0),
        (97.0, 52.0),
        (96.0, 51.0),
        (95.0, 51.0),
        (94.0, 50.0),
        (93.0, 50.0),
        (90.0, 47.0),
        (90.0, 46.0),
        (91.0, 45.0),
        (91.0, 44.0),
        (92.0, 43.0),
        (92.0, 42.0),
        (93.0, 41.0),
        (93.0, 39.0),
        (94.0, 38.0),
        (94.0, 36.0),
        (91.0, 33.0),
        (91.0, 32.0),
        (85.0, 26.0),
        (84.0, 26.0),
        (82.0, 24.0),
        (81.0, 24.0),
        (80.0, 23.0),
        (79.0, 23.0),
        (78.0, 22.0),
        (77.0, 22.0),
        (76.0, 21.0),
        (75.0, 21.0),
        (74.0, 20.0),
        (71.0, 20.0),
        (70.0, 19.0),
        (69.0, 19.0),
        (67.0, 21.0),
        (66.0, 21.0),
        (62.0, 25.0),
        (60.0, 25.0),
        (54.0, 19.0),
    ]
}

fn lattice_contour() -> Vec<(i32, i32)> {
    vec![
        (53, 19),
        (52, 20),
        (49, 20),
        (48, 21),
        (47, 21),
        (46, 22),
        (45, 22),
        (44, 23),
        (43, 23),
        (42, 24),
        (41, 24),
        (39, 26),
        (38, 26),
        (34, 30),
        (76, 30),
        (77, 31),
        (79, 31),
        (80, 32),
        (81, 32),
        (83, 34),
        (84, 34),
        (86, 36),
        (86, 37),
        (87, 38),
        (87, 39),
        (88, 40),
        (88, 47),
        (86, 49),
        (86, 50),
        (83, 53),
        (82, 53),
        (81, 54),
        (81, 55),
        (82, 55),
        (84, 57),
        (84, 58),
        (85, 59),
        (85, 60),
        (86, 61),
        (86, 63),
        (87, 64),
        (87, 65),
        (88, 66),
        (93, 66),
        (94, 65),
        (94, 64),
        (95, 63),
        (95, 60),
        (96, 59),
        (99, 59),
        (99, 53),
        (98, 52),
        (97, 52),
        (96, 51),
        (95, 51),
        (94, 50),
        (93, 50),
        (90, 47),
        (90, 46),
        (91, 45),
        (91, 44),
        (92, 43),
        (92, 42),
        (93, 41),
        (93, 39),
        (94, 38),
        (94, 36),
        (91, 33),
        (91, 32),
        (85, 26),
        (84, 26),
        (82, 24),
        (81, 24),
        (80, 23),
        (79, 23),
        (78, 22),
        (77, 22),
        (76, 21),
        (75, 21),
        (74, 20),
        (71, 20),
        (70, 19),
        (69, 19),
        (67, 21),
        (66, 21),
        (62, 25),
        (60, 25),
        (54, 19),
    ]
}

#[test]
fn test_accumulator() {
    let points = scalars(&contour());
    let moments = {
        let mut acc = Accumulator::<F64, <Order<3> as SealedSupportedOrder<F64>>::Storage>::from_point(
            points.last().expect("last point"),
        );

        for point in points.iter() {
            acc.update::<Order<3>, _>(point);
        }
        acc.finalize::<Order<3>>()
    };

    assert!(close(moments.get::<0, 0>(), 703.0, f64::EPSILON));
    assert!(close(moments.get::<1, 0>(), 52175.166666666664, f64::EPSILON));
    assert!(close(moments.get::<0, 1>(), 25661.5, f64::EPSILON));
    assert!(close(moments.get::<2, 0>(), 4084450.6666666665, f64::EPSILON));
    assert!(close(moments.get::<1, 1>(), 2024477.75, f64::EPSILON));
    assert!(close(moments.get::<0, 2>(), 1071256.0, f64::EPSILON));
    assert!(close(moments.get::<3, 0>(), 332589780.65000004, f64::EPSILON));
    assert!(close(moments.get::<2, 1>(), 166738807.83333334, f64::EPSILON));
    assert!(close(moments.get::<1, 2>(), 89124447.63333333, f64::EPSILON));
    assert!(close(moments.get::<0, 3>(), 50269189.75, f64::EPSILON));
}

#[test]
fn test_empty() {
    let points: [(F64, F64); 0] = [];
    let moments: Spatial<F64, 3> = Spatial::from_points(&points);
    assert!(close(moments.get::<0, 0>(), 0.0, f64::EPSILON));
}

#[test]
fn test_spatial_moments() {
    let points = scalars(&contour());

    let moments: Spatial<F64, 3> = Spatial::from_points(&points);
    assert!(close(moments.get::<0, 0>(), 703.0, f64::EPSILON));
    assert!(close(moments.get::<1, 0>(), 52175.166666666664, f64::EPSILON));
    assert!(close(moments.get::<0, 1>(), 25661.5, f64::EPSILON));
    assert!(close(moments.get::<2, 0>(), 4084450.6666666665, f64::EPSILON));
    assert!(close(moments.get::<1, 1>(), 2024477.75, f64::EPSILON));
    assert!(close(moments.get::<0, 2>(), 1071256.0, f64::EPSILON));
    assert!(close(moments.get::<3, 0>(), 332589780.65000004, f64::EPSILON));
    assert!(close(moments.get::<2, 1>(), 166738807.83333334, f64::EPSILON));
    assert!(close(moments.get::<1, 2>(), 89124447.63333333, f64::EPSILON));
    assert!(close(moments.get::<0, 3>(), 50269189.75, f64::EPSILON));
}

#[test]
fn test_central_moments() {
    let points = lattice(&lattice_contour());

    let central_moments = {
        let moments: Spatial<F64, 3> = Spatial::from_points(&points);
        Central::from(&moments)
    };

    assert!(close(central_moments.get::<0, 0>(), 703.0, f64::EPSILON));
    assert!(close(central_moments.get::<1, 0>(), 0.0, f64::EPSILON));
    assert!(close(central_moments.get::<0, 1>(), 0.0, f64::EPSILON));

    assert!(close(central_moments.get::<2, 0>(), 212120.628694484, f64::EPSILON));
    assert!(close(central_moments.get::<1, 1>(), 119935.73091512569, f64::EPSILON));
    assert!(close(central_moments.get::<0, 2>(), 134538.24431009952, f64::EPSILON));
    assert!(close(central_moments.get::<3, 0>(), -2035756.4570507407, f64::EPSILON));
    assert!(close(central_moments.get::<2, 1>(), -158011.91380318906, 10e-7));
    assert!(close(central_moments.get::<1, 2>(), 862112.1277520265, 10e-7));
    assert!(close(central_moments.get::<0, 3>(), 1343240.7361632437, 10e-7));
}

#[test]
fn test_normalized_central_moments() {
    let points = lattice(&lattice_contour());

    let normalized_central_moments = {
        let moments: Spatial<F64, 3> = Spatial::from_points(&points);
        NormalizedCentral::from(&Central::from(&moments))
    };

    assert!(close(normalized_central_moments.get::<0, 0>(), 1.0, f64::EPSILON));
    assert!(close(normalized_central_moments.get::<1, 0>(), 0.0, f64::EPSILON));
    assert!(close(normalized_central_moments.get::<0, 1>(), 0.0, f64::EPSILON));

    assert!(close(normalized_central_moments.get::<2, 0>(), 0.4292123953519341, 10e-7));
    assert!(close(normalized_central_moments.get::<1, 1>(), 0.24268220715350328, 10e-7));
    assert!(close(normalized_central_moments.get::<0, 2>(), 0.27222945011138916, 10e-7));
    assert!(close(normalized_central_moments.get::<3, 0>(), -0.15535939037876878, 10e-7));
    assert!(close(normalized_central_moments.get::<2, 1>(), -0.012058728594976597, 10e-7));
    assert!(close(normalized_central_moments.get::<1, 2>(), 0.06579235651780115, 10e-7));
    assert!(close(normalized_central_moments.get::<0, 3>(), 0.10250983666512753, 10e-7));
}

#[test]
fn test_index() {
    // Check corner case
    assert_eq!(calculate_index::<0, 0, 1>(), 0);

    // Check even: Size == 4
    assert_eq!(calculate_index::<0, 0, 4>(), 0);
    assert_eq!(calculate_index::<0, 1, 4>(), 5);
    assert_eq!(calculate_index::<0, 2, 4>(), 9);
    assert_eq!(calculate_index::<2, 2, 4>(), 11);
    assert_eq!(calculate_index::<0, 3, 4>(), 12);
    assert_eq!(calculate_index::<0, 4, 4>(), 14);

    // Check uneven: Size == 5
    assert_eq!(calculate_index::<0, 0, 5>(), 0);
    assert_eq!(calculate_index::<0, 2, 5>(), 11);
    assert_eq!(calculate_index::<2, 2, 5>(), 13);
    assert_eq!(calculate_index::<0, 5, 5>(), 20);
}

#[test]
fn test_space_calculation() {
    assert_eq!(calculate_space::<0>(), 1);
    assert_eq!(calculate_space::<1>(), 3);
    assert_eq!(calculate_space::<2>(), 6);
    assert_eq!(calculate_space::<3>(), 10);
    assert_eq!(calculate_space::<4>(), 15);
    assert_eq!(calculate_space::<5>(), 21);
}

#[test]
fn test_access() {
    let mut data = [F64(0.0); 1];
    assert_eq!(data.get::<0, 0>(), F64(0.0));
    *data.get_mut::<0, 0>() = F64(42.0);
    assert_eq!(data.get::<0, 0>(), F64(42.0));
}
