//! The `Vector` value type: an ordered, non-empty sequence of coordinates.
use vstd::prelude::*;
use crate::text::{debug_text, render_coordinates, rendered, views_of};
use vstd::std_specs::cmp::PartialEqSpec;
use vstd::std_specs::ops::{AddSpec, MulSpec, SubSpec};

verus! {

/// Why a vector could not be built.
#[derive(Debug, Clone, Copy, PartialEq, Eq, Structural)]
pub enum VectorError {
    /// A vector needs at least one coordinate.
    EmptyVector,
    /// The two operands of an elementwise operation have different dimensions.
    DimensionMismatch { left: usize, right: usize },
}

/// A point or displacement in n-dimensional space, with n at least 1.
///
/// A vector is never changed after it is built: every operation returns a new one.
#[derive(Debug)]
pub struct Vector<T> {
    dimension: usize,
    coordinates: Vec<T>,
}

impl<T> View for Vector<T> {
    type V = Seq<T>;

    /// The coordinates, in axis order.
    closed spec fn view(&self) -> Seq<T> {
        self.coordinates@
    }
}

impl<T> Vector<T> {
    #[verifier::type_invariant]
    spec fn well_formed(self) -> bool {
        &&& self.dimension == self.coordinates.len()
        &&& self.dimension >= 1
    }

    /// Builds a vector from its coordinates; fails when there are none.
    pub fn new(coordinates: Vec<T>) -> (r: Result<Vector<T>, VectorError>)
        ensures
            coordinates@.len() == 0 <==> r == Err::<Vector<T>, VectorError>(VectorError::EmptyVector),
            coordinates@.len() > 0 <==> r is Ok,
            r is Ok ==> r->Ok_0@ == coordinates@,
    {
        if coordinates.len() == 0 {
            return Err(VectorError::EmptyVector);
        }
        Ok(Vector { dimension: coordinates.len(), coordinates })
    }

    /// The number of coordinates.
    pub fn dimension(&self) -> (r: usize)
        ensures
            r == self@.len(),
            r >= 1,
    {
        proof {
            use_type_invariant(self);
        }
        self.dimension
    }

    /// The coordinates, in axis order.
    pub fn coordinates(&self) -> (r: &Vec<T>)
        ensures
            r@ == self@,
    {
        &self.coordinates
    }
}


impl<T: core::fmt::Debug> Vector<T> {
    /// The vector as text, `Vector: [c0, c1, ...]`, each coordinate in its `Debug` form.
    pub fn to_string(&self) -> (r: String)
        ensures
            exists|parts: Seq<Seq<char>>| parts.len() == self@.len() && r@ == rendered(parts),
    {
        let n = self.coordinates.len();
        let mut parts: Vec<String> = Vec::with_capacity(n);
        let mut i: usize = 0;
        while i < n
            invariant
                n == self@.len(),
                i <= n,
                parts@.len() == i,
            decreases n - i,
        {
            parts.push(debug_text(&self.coordinates[i]));
            i += 1;
        }
        let r = render_coordinates(&parts);
        assert(views_of(parts@).len() == self@.len());
        r
    }
}

/// The elementwise sums of two coordinate sequences, as the coordinate type defines `+`.
pub open spec fn sum_of<T: core::ops::Add<Output = T>>(a: Seq<T>, b: Seq<T>) -> Seq<T> {
    Seq::new(a.len(), |i: int| a[i].add_spec(b[i]))
}

/// The elementwise differences of two coordinate sequences, as the coordinate type defines `-`.
pub open spec fn difference_of<T: core::ops::Sub<Output = T>>(a: Seq<T>, b: Seq<T>) -> Seq<T> {
    Seq::new(a.len(), |i: int| a[i].sub_spec(b[i]))
}

/// Each coordinate multiplied by `k`, as the coordinate type defines `*`.
pub open spec fn scaled_by<T: core::ops::Mul<Output = T>>(a: Seq<T>, k: T) -> Seq<T> {
    Seq::new(a.len(), |i: int| a[i].mul_spec(k))
}

/// The error of an elementwise operation on operands of dimensions `left` and `right`.
pub open spec fn mismatch(left: nat, right: nat) -> VectorError {
    VectorError::DimensionMismatch { left: left as usize, right: right as usize }
}

impl<T: Copy> Vector<T> {
    /// Fails unless `self` and `other` have the same dimension.
    fn check_same_dimension(&self, other: &Vector<T>) -> (r: Result<(), VectorError>)
        ensures
            r is Ok <==> self@.len() == other@.len(),
            r is Err ==> r->Err_0 == mismatch(self@.len(), other@.len()),
    {
        let left = self.dimension();
        let right = other.dimension();
        if left == right {
            Ok(())
        } else {
            Err(VectorError::DimensionMismatch { left, right })
        }
    }

    /// The elementwise sum of `self` and `other`, which must have the same dimension.
    pub fn add(&self, other: &Vector<T>) -> (r: Result<Vector<T>, VectorError>)
        where
            T: core::ops::Add<Output = T>,
        requires
            self@.len() == other@.len() ==> forall|i: int|
                0 <= i < self@.len() ==> #[trigger] self@[i].add_req(other@[i]),
        ensures
            r is Err <==> self@.len() != other@.len(),
            r is Err ==> r == Err::<Vector<T>, VectorError>(mismatch(self@.len(), other@.len())),
            r is Ok ==> r->Ok_0@.len() == self@.len(),
            r is Ok ==> forall|i: int|
                0 <= i < self@.len() ==> call_ensures(
                    <T as core::ops::Add>::add,
                    (self@[i], other@[i]),
                    #[trigger] r->Ok_0@[i],
                ),
            r is Ok && T::obeys_add_spec() ==> r->Ok_0@ == sum_of(self@, other@),
    {
        match self.check_same_dimension(other) {
            Err(e) => Err(e),
            Ok(()) => {
                let n = self.dimension();
                let mut result: Vec<T> = Vec::with_capacity(n);
                let mut i: usize = 0;
                while i < n
                    invariant
                        n == self@.len(),
                        n == other@.len(),
                        i <= n,
                        result@.len() == i,
                        forall|j: int|
                            0 <= j < n ==> #[trigger] self@[j].add_req(other@[j]),
                        forall|j: int|
                            0 <= j < i ==> call_ensures(
                                <T as core::ops::Add>::add,
                                (self@[j], other@[j]),
                                #[trigger] result@[j],
                            ),
                        T::obeys_add_spec() ==> forall|j: int|
                            0 <= j < i ==> #[trigger] result@[j] == self@[j].add_spec(other@[j]),
                    decreases n - i,
                {
                    result.push(self.coordinates[i] + other.coordinates[i]);
                    i += 1;
                }
                proof {
                    if T::obeys_add_spec() {
                        assert(result@ =~= sum_of(self@, other@));
                    }
                }
                Ok(Vector { dimension: n, coordinates: result })
            },
        }
    }

    /// The elementwise difference `self - other`; both must have the same dimension.
    pub fn subtract(&self, other: &Vector<T>) -> (r: Result<Vector<T>, VectorError>)
        where
            T: core::ops::Sub<Output = T>,
        requires
            self@.len() == other@.len() ==> forall|i: int|
                0 <= i < self@.len() ==> #[trigger] self@[i].sub_req(other@[i]),
        ensures
            r is Err <==> self@.len() != other@.len(),
            r is Err ==> r == Err::<Vector<T>, VectorError>(mismatch(self@.len(), other@.len())),
            r is Ok ==> r->Ok_0@.len() == self@.len(),
            r is Ok ==> forall|i: int|
                0 <= i < self@.len() ==> call_ensures(
                    <T as core::ops::Sub>::sub,
                    (self@[i], other@[i]),
                    #[trigger] r->Ok_0@[i],
                ),
            r is Ok && T::obeys_sub_spec() ==> r->Ok_0@ == difference_of(self@, other@),
    {
        match self.check_same_dimension(other) {
            Err(e) => Err(e),
            Ok(()) => {
                let n = self.dimension();
                let mut result: Vec<T> = Vec::with_capacity(n);
                let mut i: usize = 0;
                while i < n
                    invariant
                        n == self@.len(),
                        n == other@.len(),
                        i <= n,
                        result@.len() == i,
                        forall|j: int|
                            0 <= j < n ==> #[trigger] self@[j].sub_req(other@[j]),
                        forall|j: int|
                            0 <= j < i ==> call_ensures(
                                <T as core::ops::Sub>::sub,
                                (self@[j], other@[j]),
                                #[trigger] result@[j],
                            ),
                        T::obeys_sub_spec() ==> forall|j: int|
                            0 <= j < i ==> #[trigger] result@[j] == self@[j].sub_spec(other@[j]),
                    decreases n - i,
                {
                    result.push(self.coordinates[i] - other.coordinates[i]);
                    i += 1;
                }
                proof {
                    if T::obeys_sub_spec() {
                        assert(result@ =~= difference_of(self@, other@));
                    }
                }
                Ok(Vector { dimension: n, coordinates: result })
            },
        }
    }

    /// Every coordinate multiplied by the scalar `k`.
    pub fn scale(&self, k: T) -> (r: Vector<T>)
        where
            T: core::ops::Mul<Output = T>,
        requires
            forall|i: int| 0 <= i < self@.len() ==> #[trigger] self@[i].mul_req(k),
        ensures
            r@.len() == self@.len(),
            forall|i: int|
                0 <= i < self@.len() ==> call_ensures(
                    <T as core::ops::Mul>::mul,
                    (self@[i], k),
                    #[trigger] r@[i],
                ),
            T::obeys_mul_spec() ==> r@ == scaled_by(self@, k),
    {
        let n = self.dimension();
        let mut result: Vec<T> = Vec::with_capacity(n);
        let mut i: usize = 0;
        while i < n
            invariant
                n == self@.len(),
                n >= 1,
                i <= n,
                result@.len() == i,
                forall|j: int| 0 <= j < n ==> #[trigger] self@[j].mul_req(k),
                forall|j: int|
                    0 <= j < i ==> call_ensures(
                        <T as core::ops::Mul>::mul,
                        (self@[j], k),
                        #[trigger] result@[j],
                    ),
                T::obeys_mul_spec() ==> forall|j: int|
                    0 <= j < i ==> #[trigger] result@[j] == self@[j].mul_spec(k),
            decreases n - i,
        {
            result.push(self.coordinates[i] * k);
            i += 1;
        }
        proof {
            if T::obeys_mul_spec() {
                assert(result@ =~= scaled_by(self@, k));
            }
        }
        Vector { dimension: n, coordinates: result }
    }
}

/// Two coordinate sequences of one length whose coordinates are pairwise equal,
/// as the coordinate type defines `==`.
pub open spec fn coordinates_match<T: PartialEq>(a: Seq<T>, b: Seq<T>) -> bool {
    &&& a.len() == b.len()
    &&& forall|i: int| 0 <= i < a.len() ==> #[trigger] a[i].eq_spec(&b[i])
}

impl<T: PartialEq> Vector<T> {
    /// Whether `self` and `other` have the same coordinates in the same order.
    ///
    /// Vectors of different dimensions are never equal.
    pub fn equals(&self, other: &Vector<T>) -> (r: bool)
        ensures
            self@.len() != other@.len() ==> !r,
            r ==> forall|i: int|
                #![trigger self@[i]]
                0 <= i < self@.len() ==> call_ensures(
                    <T as PartialEq>::eq,
                    (&self@[i], &other@[i]),
                    true,
                ),
            T::obeys_eq_spec() ==> (r <==> coordinates_match(self@, other@)),
    {
        let n = self.coordinates.len();
        if n != other.coordinates.len() {
            return false;
        }
        let mut i: usize = 0;
        while i < n
            invariant
                n == self@.len(),
                n == other@.len(),
                i <= n,
                forall|j: int|
                    #![trigger self@[j]]
                    0 <= j < i ==> call_ensures(
                        <T as PartialEq>::eq,
                        (&self@[j], &other@[j]),
                        true,
                    ),
                T::obeys_eq_spec() ==> forall|j: int|
                    0 <= j < i ==> #[trigger] self@[j].eq_spec(&other@[j]),
            decreases n - i,
        {
            if !(self.coordinates[i] == other.coordinates[i]) {
                return false;
            }
            i += 1;
        }
        true
    }
}

impl<T: PartialEq> PartialEq for Vector<T> {
    fn eq(&self, other: &Vector<T>) -> (r: bool) {
        self.equals(other)
    }
}

impl<T: PartialEq> vstd::std_specs::cmp::PartialEqSpecImpl for Vector<T> {
    open spec fn obeys_eq_spec() -> bool {
        T::obeys_eq_spec()
    }

    open spec fn eq_spec(&self, other: &Vector<T>) -> bool {
        coordinates_match(self@, other@)
    }
}

/// Equality is reflexive on every vector whose coordinates each equal themselves
/// (with floating-point coordinates: every vector without a NaN).
pub proof fn lemma_equals_reflexive<T: PartialEq>(v: Vector<T>)
    requires
        forall|i: int| 0 <= i < v@.len() ==> #[trigger] v@[i].eq_spec(&v@[i]),
    ensures
        coordinates_match(v@, v@),
{
}

/// Equality is symmetric wherever the coordinate type's `==` is.
pub proof fn lemma_equals_symmetric<T: PartialEq>(a: Vector<T>, b: Vector<T>)
    requires
        vstd::laws_eq::obeys_eq::<T>(),
        coordinates_match(a@, b@),
    ensures
        coordinates_match(b@, a@),
{
    reveal(vstd::laws_eq::obeys_eq_spec_properties);
    assert forall|i: int| 0 <= i < b@.len() implies #[trigger] b@[i].eq_spec(&a@[i]) by {
        assert(a@[i].eq_spec(&b@[i]));
    }
}

/// Equality is transitive wherever the coordinate type's `==` is.
pub proof fn lemma_equals_transitive<T: PartialEq>(a: Vector<T>, b: Vector<T>, c: Vector<T>)
    requires
        vstd::laws_eq::obeys_eq::<T>(),
        coordinates_match(a@, b@),
        coordinates_match(b@, c@),
    ensures
        coordinates_match(a@, c@),
{
    reveal(vstd::laws_eq::obeys_eq_spec_properties);
    assert forall|i: int| 0 <= i < a@.len() implies #[trigger] a@[i].eq_spec(&c@[i]) by {
        assert(a@[i].eq_spec(&b@[i]));
        assert(b@[i].eq_spec(&c@[i]));
    }
}

/// Vector addition commutes wherever addition of coordinates does.
pub proof fn lemma_add_commutative<T: core::ops::Add<Output = T>>(a: Vector<T>, b: Vector<T>)
    requires
        a@.len() == b@.len(),
        forall|x: T, y: T| #[trigger] x.add_spec(y) == y.add_spec(x),
    ensures
        sum_of(a@, b@) == sum_of(b@, a@),
{
    assert(sum_of(a@, b@) =~= sum_of(b@, a@));
}

/// Adding the vector whose coordinates are all `zero` leaves a vector unchanged,
/// wherever `zero` is neutral for addition of coordinates.
pub proof fn lemma_add_identity<T: core::ops::Add<Output = T>>(a: Vector<T>, zero: T)
    requires
        forall|x: T| #[trigger] x.add_spec(zero) == x,
    ensures
        sum_of(a@, Seq::new(a@.len(), |i: int| zero)) == a@,
{
    assert(sum_of(a@, Seq::new(a@.len(), |i: int| zero)) =~= a@);
}

/// Scaling by `one` leaves a vector unchanged, wherever `one` is neutral for
/// multiplication of coordinates.
pub proof fn lemma_scale_identity<T: core::ops::Mul<Output = T>>(a: Vector<T>, one: T)
    requires
        forall|x: T| #[trigger] x.mul_spec(one) == x,
    ensures
        scaled_by(a@, one) == a@,
{
    assert(scaled_by(a@, one) =~= a@);
}

} // verus!
