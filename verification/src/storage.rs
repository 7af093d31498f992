//! The packed triangular storage of the coefficients.
use vstd::prelude::*;
use crate::primitives::Scalar;

verus! {

/// Number of coefficients `(i, j)` with `i + j <= order`.
pub open spec fn space(order: int) -> int {
    (order + 1) * (order + 2) / 2
}

/// Whether `(i, j)` names a coefficient of a table of the given order.
pub open spec fn valid(i: int, j: int, order: int) -> bool {
    0 <= i && 0 <= j && i + j <= order
}

/// Position of the coefficient `(i, j)` in a table of the given order:
/// the columns `j = 0, 1, ...` follow each other, column `j` holding
/// its `order + 1 - j` entries by rising `i`.
pub open spec fn offset(i: int, j: int, order: int) -> int {
    j * (order + 1) - (j - 1) * j / 2 + i
}

/// Calculate the space required to hold a storage of a specific order.
pub fn calculate_space<const ORDER: usize>() -> (size: usize)
    requires
        (ORDER + 1) * (ORDER + 2) <= usize::MAX,
    ensures
        size == space(ORDER as int),
{
    assert(ORDER + 2 <= (ORDER + 1) * (ORDER + 2)) by (nonlinear_arith);
    let n: usize = ORDER + 1;
    assert(n * (n + 1) == (ORDER + 1) * (ORDER + 2)) by (nonlinear_arith)
        requires
            n == ORDER + 1,
    ;
    n * (n + 1) / 2
}

/// The product of two neighbouring integers is even, so the division in
/// `offset` leaves no remainder.
pub proof fn lemma_neighbours_even(j: int)
    requires
        0 <= j,
    ensures
        2 * ((j - 1) * j / 2) == (j - 1) * j,
    decreases j,
{
    if j > 0 {
        lemma_neighbours_even(j - 1);
        assert((j - 1) * j == (j - 2) * (j - 1) + 2 * (j - 1)) by (nonlinear_arith);
    }
}

/// Every valid coefficient has its place inside the table.
pub proof fn lemma_offset_in_range(i: int, j: int, order: int)
    requires
        valid(i, j, order),
    ensures
        0 <= offset(i, j, order) < space(order),
{
    lemma_neighbours_even(j);
    lemma_neighbours_even(order + 2);
    let m = order - j;
    let t = (j - 1) * j;
    let o = offset(i, j, order);
    assert(2 * o == 2 * (j * (order + 1)) - t + 2 * i);
    assert((order + 1) * (order + 2) - (2 * (j * (order + 1)) - t + 2 * m) == m * m + m + 2)
        by (nonlinear_arith)
        requires
            m == order - j,
            t == (j - 1) * j,
    ;
    assert(m * m >= 0) by (nonlinear_arith);
    assert(2 * (j * (order + 1)) - t >= 0) by (nonlinear_arith)
        requires
            t == (j - 1) * j,
            0 <= j <= order,
    ;
}

/// Two valid coefficients never share a place.
pub proof fn lemma_offset_injective(i1: int, j1: int, i2: int, j2: int, order: int)
    requires
        valid(i1, j1, order),
        valid(i2, j2, order),
        offset(i1, j1, order) == offset(i2, j2, order),
    ensures
        i1 == i2,
        j1 == j2,
{
    if j1 < j2 {
        lemma_columns_apart(i1, j1, i2, j2, order);
    } else if j2 < j1 {
        lemma_columns_apart(i2, j2, i1, j1, order);
    }
}

/// A coefficient of an earlier column stands before every coefficient of a
/// later one.
proof fn lemma_columns_apart(i1: int, j1: int, i2: int, j2: int, order: int)
    requires
        valid(i1, j1, order),
        valid(i2, j2, order),
        j1 < j2,
    ensures
        offset(i1, j1, order) < offset(i2, j2, order),
{
    lemma_neighbours_even(j1);
    lemma_neighbours_even(j2);
    let t1 = (j1 - 1) * j1;
    let t2 = (j2 - 1) * j2;
    let k = j2 - j1;
    let m = order - j1;
    assert(2 * (j2 * (order + 1)) - t2 - (2 * (j1 * (order + 1)) - t1 + 2 * m) == 2 * (m * (k - 1))
        + 3 * k - k * k) by (nonlinear_arith)
        requires
            t1 == (j1 - 1) * j1,
            t2 == (j2 - 1) * j2,
            k == j2 - j1,
            m == order - j1,
    ;
    assert(2 * (m * (k - 1)) + 3 * k - k * k > 0) by (nonlinear_arith)
        requires
            1 <= k <= m,
    ;
}

/// The place of the coefficient `(I, J)` in a storage of a specific order.
pub fn calculate_index<const I: usize, const J: usize, const ORDER: usize>() -> (index: usize)
    requires
        I + J <= ORDER,
        (ORDER + 1) * (ORDER + 2) <= usize::MAX,
    ensures
        index == offset(I as int, J as int, ORDER as int),
        index < space(ORDER as int),
{
    proof {
        lemma_offset_in_range(I as int, J as int, ORDER as int);
        lemma_neighbours_even(J as int);
        lemma_neighbours_even(ORDER + 2);
        assert(ORDER + 2 <= (ORDER + 1) * (ORDER + 2)) by (nonlinear_arith);
        assert(J * (ORDER + 1) <= (ORDER + 1) * (ORDER + 2)) by (nonlinear_arith)
            requires
                J <= ORDER,
        ;
        if J >= 1 {
            assert(0 <= (J - 1) * J <= J * (ORDER + 1)) by (nonlinear_arith)
                requires
                    1 <= J <= ORDER,
            ;
        } else {
            assert((J - 1) * J == 0) by (nonlinear_arith)
                requires
                    J == 0,
            ;
        }
        assert(space(ORDER as int) <= (ORDER + 1) * (ORDER + 2));
    }
    let skipped: usize = if J == 0 {
        0
    } else {
        (J - 1) * J / 2
    };
    J * (ORDER + 1) - skipped + I
}

/// An efficient storage to access the required coefficients.
pub trait Storage<T: Scalar>: Sized {
    /// The coefficient `(i, j)` that the storage holds.
    spec fn at(&self, i: int, j: int) -> T;

    /// The "order" of the storage.
    const ORDER: usize;

    /// The required number of elements.
    const SIZE: usize;

    /// Create an instance of this storage with all values set to 0.
    fn zeros() -> (s: Self)
        ensures
            forall|i: int, j: int| valid(i, j, Self::ORDER as int) ==> #[trigger] s.at(i, j) == T::ZERO,
    ;

    /// Access the element at a specific 0-based position.
    fn get<const I: usize, const J: usize>(&self) -> (r: T)
        requires
            I + J <= Self::ORDER,
        ensures
            r == self.at(I as int, J as int),
    ;

    /// A storage is determined by its coefficients.
    proof fn lemma_extensional(a: &Self, b: &Self)
        requires
            forall|i: int, j: int|
                valid(i, j, Self::ORDER as int) ==> #[trigger] a.at(i, j) == b.at(i, j),
        ensures
            *a == *b,
    ;

    /// Access the element at a specific 0-based position mutably.
    fn get_mut<const I: usize, const J: usize>(&mut self) -> (r: &mut T)
        requires
            I + J <= Self::ORDER,
        ensures
            *r == old(self).at(I as int, J as int),
            final(self).at(I as int, J as int) == *final(r),
            forall|i: int, j: int|
                valid(i, j, Self::ORDER as int) && (i != I || j != J) ==> #[trigger] final(self).at(i, j)
                    == old(self).at(i, j),
    ;
}

/// Every valid coefficient has its place inside the table, whatever the pair.
proof fn lemma_places(order: int)
    ensures
        forall|i: int, j: int| valid(i, j, order) ==> 0 <= #[trigger] offset(i, j, order) < space(order),
{
    assert forall|i: int, j: int| valid(i, j, order) implies 0 <= #[trigger] offset(i, j, order)
        < space(order) by {
        lemma_offset_in_range(i, j, order);
    }
}

/// The other valid coefficients stand at other places of the table.
proof fn lemma_other_places(i0: int, j0: int, order: int)
    requires
        valid(i0, j0, order),
    ensures
        forall|i: int, j: int|
            valid(i, j, order) && (i != i0 || j != j0) ==> 0 <= #[trigger] offset(i, j, order)
                < space(order) && offset(i, j, order) != offset(i0, j0, order),
{
    assert forall|i: int, j: int| valid(i, j, order) && (i != i0 || j != j0) implies 0
        <= #[trigger] offset(i, j, order) < space(order) && offset(i, j, order) != offset(
        i0,
        j0,
        order,
    ) by {
        lemma_offset_in_range(i, j, order);
        if offset(i, j, order) == offset(i0, j0, order) {
            lemma_offset_injective(i, j, i0, j0, order);
        }
    }
}

impl<T: Scalar> Storage<T> for [T; 1] {
    open spec fn at(&self, i: int, j: int) -> T {
        self@[offset(i, j, 0)]
    }

    const ORDER: usize = 0;

    const SIZE: usize = 1;

    #[inline(always)]
    fn zeros() -> Self {
        proof {
            lemma_places(0);
        }
        [T::ZERO; 1]
    }

    proof fn lemma_extensional(a: &Self, b: &Self) {
        assert(a@[0] == a.at(0, 0) && b@[0] == b.at(0, 0));
        assert(a@ =~= b@);
    }

    #[inline(always)]
    fn get<const I: usize, const J: usize>(&self) -> T {
        self[calculate_index::<I, J, 0>()]
    }

    #[inline(always)]
    fn get_mut<const I: usize, const J: usize>(&mut self) -> &mut T {
        proof {
            lemma_other_places(I as int, J as int, 0);
        }
        &mut self[calculate_index::<I, J, 0>()]
    }
}

impl<T: Scalar> Storage<T> for [T; 3] {
    open spec fn at(&self, i: int, j: int) -> T {
        self@[offset(i, j, 1)]
    }

    const ORDER: usize = 1;

    const SIZE: usize = 3;

    #[inline(always)]
    fn zeros() -> Self {
        proof {
            lemma_places(1);
        }
        [T::ZERO; 3]
    }

    proof fn lemma_extensional(a: &Self, b: &Self) {
        assert(a@[0] == a.at(0, 0) && b@[0] == b.at(0, 0));
        assert(a@[1] == a.at(1, 0) && b@[1] == b.at(1, 0));
        assert(a@[2] == a.at(0, 1) && b@[2] == b.at(0, 1));
        assert(a@ =~= b@);
    }

    #[inline(always)]
    fn get<const I: usize, const J: usize>(&self) -> T {
        self[calculate_index::<I, J, 1>()]
    }

    #[inline(always)]
    fn get_mut<const I: usize, const J: usize>(&mut self) -> &mut T {
        proof {
            lemma_other_places(I as int, J as int, 1);
        }
        &mut self[calculate_index::<I, J, 1>()]
    }
}

impl<T: Scalar> Storage<T> for [T; 6] {
    open spec fn at(&self, i: int, j: int) -> T {
        self@[offset(i, j, 2)]
    }

    const ORDER: usize = 2;

    const SIZE: usize = 6;

    #[inline(always)]
    fn zeros() -> Self {
        proof {
            lemma_places(2);
        }
        [T::ZERO; 6]
    }

    proof fn lemma_extensional(a: &Self, b: &Self) {
        assert(a@[0] == a.at(0, 0) && b@[0] == b.at(0, 0));
        assert(a@[1] == a.at(1, 0) && b@[1] == b.at(1, 0));
        assert(a@[2] == a.at(2, 0) && b@[2] == b.at(2, 0));
        assert(a@[3] == a.at(0, 1) && b@[3] == b.at(0, 1));
        assert(a@[4] == a.at(1, 1) && b@[4] == b.at(1, 1));
        assert(a@[5] == a.at(0, 2) && b@[5] == b.at(0, 2));
        assert(a@ =~= b@);
    }

    #[inline(always)]
    fn get<const I: usize, const J: usize>(&self) -> T {
        self[calculate_index::<I, J, 2>()]
    }

    #[inline(always)]
    fn get_mut<const I: usize, const J: usize>(&mut self) -> &mut T {
        proof {
            lemma_other_places(I as int, J as int, 2);
        }
        &mut self[calculate_index::<I, J, 2>()]
    }
}

impl<T: Scalar> Storage<T> for [T; 10] {
    open spec fn at(&self, i: int, j: int) -> T {
        self@[offset(i, j, 3)]
    }

    const ORDER: usize = 3;

    const SIZE: usize = 10;

    #[inline(always)]
    fn zeros() -> Self {
        proof {
            lemma_places(3);
        }
        [T::ZERO; 10]
    }

    proof fn lemma_extensional(a: &Self, b: &Self) {
        assert(a@[0] == a.at(0, 0) && b@[0] == b.at(0, 0));
        assert(a@[1] == a.at(1, 0) && b@[1] == b.at(1, 0));
        assert(a@[2] == a.at(2, 0) && b@[2] == b.at(2, 0));
        assert(a@[3] == a.at(3, 0) && b@[3] == b.at(3, 0));
        assert(a@[4] == a.at(0, 1) && b@[4] == b.at(0, 1));
        assert(a@[5] == a.at(1, 1) && b@[5] == b.at(1, 1));
        assert(a@[6] == a.at(2, 1) && b@[6] == b.at(2, 1));
        assert(a@[7] == a.at(0, 2) && b@[7] == b.at(0, 2));
        assert(a@[8] == a.at(1, 2) && b@[8] == b.at(1, 2));
        assert(a@[9] == a.at(0, 3) && b@[9] == b.at(0, 3));
        assert(a@ =~= b@);
    }

    #[inline(always)]
    fn get<const I: usize, const J: usize>(&self) -> T {
        self[calculate_index::<I, J, 3>()]
    }

    #[inline(always)]
    fn get_mut<const I: usize, const J: usize>(&mut self) -> &mut T {
        proof {
            lemma_other_places(I as int, J as int, 3);
        }
        &mut self[calculate_index::<I, J, 3>()]
    }
}

/// The arrays of 1, 3, 6 and 10 scalars are the storages of the orders 0
/// to 3, each with exactly the space that its order asks for.
pub proof fn lemma_array_orders<T: Scalar>()
    ensures
        <[T; 1] as Storage<T>>::ORDER == 0,
        <[T; 3] as Storage<T>>::ORDER == 1,
        <[T; 6] as Storage<T>>::ORDER == 2,
        <[T; 10] as Storage<T>>::ORDER == 3,
        <[T; 1] as Storage<T>>::SIZE == space(0),
        <[T; 3] as Storage<T>>::SIZE == space(1),
        <[T; 6] as Storage<T>>::SIZE == space(2),
        <[T; 10] as Storage<T>>::SIZE == space(3),
{
}

} // verus!
