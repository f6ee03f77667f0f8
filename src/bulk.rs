//! Collections of vectors that apply a matrix to every element.
use vstd::prelude::*;

use crate::mat2::Mat2f;
use crate::mat3::Mat3f;
use crate::vec2::{fits_i32_pair, Vec2};
use crate::vec3::{fits_i32_triple, Vec3};

verus! {

/// A list of 2D vectors.
#[derive(Debug, Clone)]
pub struct Array2f {
    pub data: Vec<Vec2>,
}

/// A list of 3D vectors.
#[derive(Debug, Clone)]
pub struct Tensor3f {
    pub data: Vec<Vec3>,
}

impl Array2f {
    /// An empty list.
    pub fn new() -> (r: Self)
        ensures
            r.data@ == Seq::<Vec2>::empty(),
    {
        Array2f { data: Vec::new() }
    }

    /// Appends every vector of `list`, in order.
    pub fn extend(&mut self, list: &Vec<Vec2>)
        ensures
            final(self).data@ == old(self).data@ + list@,
    {
        let mut i: usize = 0;
        while i < list.len()
            invariant
                i <= list.len(),
                self.data@ == old(self).data@ + list@.subrange(0, i as int),
            decreases list.len() - i,
        {
            self.data.push(list[i]);
            i += 1;
            assert(list@.subrange(0, i as int) == list@.subrange(0, i - 1) + seq![list@[i - 1]]);
        }
        assert(list@.subrange(0, i as int) == list@);
    }

    /// Appends `v`.
    pub fn push(&mut self, v: Vec2)
        ensures
            final(self).data@ == old(self).data@.push(v),
    {
        self.data.push(v);
    }

    /// The number of vectors.
    pub fn len(&self) -> (r: u64)
        ensures
            r == self.data@.len(),
    {
        self.data.len() as u64
    }

    /// The vector at position `i`.
    pub fn get(&self, i: usize) -> (r: Vec2)
        requires
            i < self.data@.len(),
        ensures
            r == self.data@[i as int],
    {
        self.data[i]
    }

    /// Overwrites the vector at position `i`.
    pub fn set(&mut self, i: usize, v: Vec2)
        requires
            i < old(self).data@.len(),
        ensures
            final(self).data@ == old(self).data@.update(i as int, v),
    {
        self.data.set(i, v);
    }

    /// Removes the vector at position `i` and returns it; the vectors after it
    /// move down by one.
    pub fn remove(&mut self, i: usize) -> (r: Vec2)
        requires
            i < old(self).data@.len(),
        ensures
            r == old(self).data@[i as int],
            final(self).data@ == old(self).data@.remove(i as int),
    {
        self.data.remove(i)
    }

    /// A copy of the vectors, in order.
    pub fn to_list(&self) -> (r: Vec<Vec2>)
        ensures
            r@ == self.data@,
    {
        self.data.clone()
    }

    /// Replaces every vector `v` by `m * v`.
    pub fn right_prod(&mut self, m: &Mat2f)
        requires
            forall|i: int|
                0 <= i < old(self).data@.len() ==> fits_i32_pair(
                    #[trigger] m.right_prod_spec(old(self).data@[i]@),
                ),
        ensures
            final(self).data@.len() == old(self).data@.len(),
            forall|i: int|
                0 <= i < old(self).data@.len() ==> #[trigger] final(self).data@[i]@ == m.right_prod_spec(
                    old(self).data@[i]@,
                ),
    {
        let n = self.data.len();
        let mut i: usize = 0;
        while i < n
            invariant
                n == self.data@.len(),
                n == old(self).data@.len(),
                i <= n,
                forall|j: int| 0 <= j < i ==> #[trigger] self.data@[j]@ == m.right_prod_spec(
                    old(self).data@[j]@,
                ),
                forall|j: int| i <= j < n ==> #[trigger] self.data@[j] == old(self).data@[j],
                forall|j: int|
                    0 <= j < n ==> fits_i32_pair(#[trigger] m.right_prod_spec(old(self).data@[j]@)),
            decreases n - i,
        {
            let v = m.right_prod(self.data[i]);
            self.data.set(i, v);
            i += 1;
        }
    }

    /// Replaces every vector `v` by `v * m`.
    pub fn left_prod(&mut self, m: &Mat2f)
        requires
            forall|i: int|
                0 <= i < old(self).data@.len() ==> fits_i32_pair(
                    #[trigger] m.left_prod_spec(old(self).data@[i]@),
                ),
        ensures
            final(self).data@.len() == old(self).data@.len(),
            forall|i: int|
                0 <= i < old(self).data@.len() ==> #[trigger] final(self).data@[i]@ == m.left_prod_spec(
                    old(self).data@[i]@,
                ),
    {
        let n = self.data.len();
        let mut i: usize = 0;
        while i < n
            invariant
                n == self.data@.len(),
                n == old(self).data@.len(),
                i <= n,
                forall|j: int| 0 <= j < i ==> #[trigger] self.data@[j]@ == m.left_prod_spec(
                    old(self).data@[j]@,
                ),
                forall|j: int| i <= j < n ==> #[trigger] self.data@[j] == old(self).data@[j],
                forall|j: int|
                    0 <= j < n ==> fits_i32_pair(#[trigger] m.left_prod_spec(old(self).data@[j]@)),
            decreases n - i,
        {
            let v = m.left_prod(self.data[i]);
            self.data.set(i, v);
            i += 1;
        }
    }
}

impl Tensor3f {
    /// An empty list.
    pub fn new() -> (r: Self)
        ensures
            r.data@ == Seq::<Vec3>::empty(),
    {
        Tensor3f { data: Vec::new() }
    }

    /// Appends every vector of `list`, in order.
    pub fn extend(&mut self, list: &Vec<Vec3>)
        ensures
            final(self).data@ == old(self).data@ + list@,
    {
        let mut i: usize = 0;
        while i < list.len()
            invariant
                i <= list.len(),
                self.data@ == old(self).data@ + list@.subrange(0, i as int),
            decreases list.len() - i,
        {
            self.data.push(list[i]);
            i += 1;
            assert(list@.subrange(0, i as int) == list@.subrange(0, i - 1) + seq![list@[i - 1]]);
        }
        assert(list@.subrange(0, i as int) == list@);
    }

    /// Appends `v`.
    pub fn push(&mut self, v: Vec3)
        ensures
            final(self).data@ == old(self).data@.push(v),
    {
        self.data.push(v);
    }

    /// The number of vectors.
    pub fn len(&self) -> (r: u64)
        ensures
            r == self.data@.len(),
    {
        self.data.len() as u64
    }

    /// The vector at position `i`.
    pub fn get(&self, i: usize) -> (r: Vec3)
        requires
            i < self.data@.len(),
        ensures
            r == self.data@[i as int],
    {
        self.data[i]
    }

    /// Overwrites the vector at position `i`.
    pub fn set(&mut self, i: usize, v: Vec3)
        requires
            i < old(self).data@.len(),
        ensures
            final(self).data@ == old(self).data@.update(i as int, v),
    {
        self.data.set(i, v);
    }

    /// Removes the vector at position `i` and returns it; the vectors after it
    /// move down by one.
    pub fn remove(&mut self, i: usize) -> (r: Vec3)
        requires
            i < old(self).data@.len(),
        ensures
            r == old(self).data@[i as int],
            final(self).data@ == old(self).data@.remove(i as int),
    {
        self.data.remove(i)
    }

    /// A copy of the vectors, in order.
    pub fn to_list(&self) -> (r: Vec<Vec3>)
        ensures
            r@ == self.data@,
    {
        self.data.clone()
    }

    /// Replaces every vector `v` by `m * v`.
    pub fn right_prod(&mut self, m: &Mat3f)
        requires
            forall|i: int|
                0 <= i < old(self).data@.len() ==> fits_i32_triple(
                    #[trigger] m.right_prod_spec(old(self).data@[i]@),
                ),
        ensures
            final(self).data@.len() == old(self).data@.len(),
            forall|i: int|
                0 <= i < old(self).data@.len() ==> #[trigger] final(self).data@[i]@ == m.right_prod_spec(
                    old(self).data@[i]@,
                ),
    {
        let n = self.data.len();
        let mut i: usize = 0;
        while i < n
            invariant
                n == self.data@.len(),
                n == old(self).data@.len(),
                i <= n,
                forall|j: int| 0 <= j < i ==> #[trigger] self.data@[j]@ == m.right_prod_spec(
                    old(self).data@[j]@,
                ),
                forall|j: int| i <= j < n ==> #[trigger] self.data@[j] == old(self).data@[j],
                forall|j: int|
                    0 <= j < n ==> fits_i32_triple(#[trigger] m.right_prod_spec(old(self).data@[j]@)),
            decreases n - i,
        {
            let v = m.right_prod(&self.data[i]);
            self.data.set(i, v);
            i += 1;
        }
    }

    /// Replaces every vector `v` by `v * m`.
    pub fn left_prod(&mut self, m: &Mat3f)
        requires
            forall|i: int|
                0 <= i < old(self).data@.len() ==> fits_i32_triple(
                    #[trigger] m.left_prod_spec(old(self).data@[i]@),
                ),
        ensures
            final(self).data@.len() == old(self).data@.len(),
            forall|i: int|
                0 <= i < old(self).data@.len() ==> #[trigger] final(self).data@[i]@ == m.left_prod_spec(
                    old(self).data@[i]@,
                ),
    {
        let n = self.data.len();
        let mut i: usize = 0;
        while i < n
            invariant
                n == self.data@.len(),
                n == old(self).data@.len(),
                i <= n,
                forall|j: int| 0 <= j < i ==> #[trigger] self.data@[j]@ == m.left_prod_spec(
                    old(self).data@[j]@,
                ),
                forall|j: int| i <= j < n ==> #[trigger] self.data@[j] == old(self).data@[j],
                forall|j: int|
                    0 <= j < n ==> fits_i32_triple(#[trigger] m.left_prod_spec(old(self).data@[j]@)),
            decreases n - i,
        {
            let v = m.left_prod(&self.data[i]);
            self.data.set(i, v);
            i += 1;
        }
    }
}

} // verus!
