use vstd::prelude::*;
use std::ops::{Add, Mul, Sub};
use vstd::std_specs::ops::{AddSpec, MulSpec, SubSpec};
use crate::gpu::{lemma_split_bytes, FixedLayout};
use super::{Vector3, Vector4};

verus! {

/// A two-component vector: `x`, then `y`.
#[derive(Clone, Copy, Debug, PartialEq, Eq)]
pub struct Vector2<T> {
    pub x: T,
    pub y: T,
}

impl<T: Default + Copy> Vector2<T> {
    pub fn new(x: T, y: T) -> (r: Vector2<T>)
        ensures
            r == (Vector2 { x, y }),
    {
        Vector2 { x, y }
    }

    /// The vector with a third component of `T`'s default value.
    pub fn as_vector3(&self) -> (r: Vector3<T>)
        ensures
            r.x == self.x,
            r.y == self.y,
    {
        Vector3::new(self.x, self.y, T::default())
    }

    /// The vector with a third and fourth component of `T`'s default value.
    pub fn as_vector4(&self) -> (r: Vector4<T>)
        ensures
            r.x == self.x,
            r.y == self.y,
            r.z == r.w,
    {
        let d = T::default();
        Vector4::new(self.x, self.y, d, d)
    }

    pub fn x(&self) -> (r: T)
        ensures
            r == self.x,
    {
        self.x
    }

    pub fn y(&self) -> (r: T)
        ensures
            r == self.y,
    {
        self.y
    }
}

impl<T: Add<Output = T>> Add<Vector2<T>> for Vector2<T> {
    type Output = Vector2<T>;

    fn add(self, rhs: Vector2<T>) -> (r: Vector2<T>) {
        Vector2 { x: self.x + rhs.x, y: self.y + rhs.y }
    }
}

impl<T: Add<Output = T>> vstd::std_specs::ops::AddSpecImpl<Vector2<T>> for Vector2<T> {
    open spec fn obeys_add_spec() -> bool {
        T::obeys_add_spec()
    }

    open spec fn add_req(self, rhs: Vector2<T>) -> bool {
        self.x.add_req(rhs.x) && self.y.add_req(rhs.y)
    }

    open spec fn add_spec(self, rhs: Vector2<T>) -> Vector2<T> {
        Vector2 { x: self.x.add_spec(rhs.x), y: self.y.add_spec(rhs.y) }
    }
}

impl<T: Sub<Output = T>> Sub<Vector2<T>> for Vector2<T> {
    type Output = Vector2<T>;

    fn sub(self, rhs: Vector2<T>) -> (r: Vector2<T>) {
        Vector2 { x: self.x - rhs.x, y: self.y - rhs.y }
    }
}

impl<T: Sub<Output = T>> vstd::std_specs::ops::SubSpecImpl<Vector2<T>> for Vector2<T> {
    open spec fn obeys_sub_spec() -> bool {
        T::obeys_sub_spec()
    }

    open spec fn sub_req(self, rhs: Vector2<T>) -> bool {
        self.x.sub_req(rhs.x) && self.y.sub_req(rhs.y)
    }

    open spec fn sub_spec(self, rhs: Vector2<T>) -> Vector2<T> {
        Vector2 { x: self.x.sub_spec(rhs.x), y: self.y.sub_spec(rhs.y) }
    }
}

/// Scaling by a factor.
impl<T: Mul<Output = T> + Copy> Mul<T> for Vector2<T> {
    type Output = Vector2<T>;

    fn mul(self, rhs: T) -> (r: Vector2<T>) {
        Vector2 { x: self.x * rhs, y: self.y * rhs }
    }
}

impl<T: Mul<Output = T> + Copy> vstd::std_specs::ops::MulSpecImpl<T> for Vector2<T> {
    open spec fn obeys_mul_spec() -> bool {
        T::obeys_mul_spec()
    }

    open spec fn mul_req(self, rhs: T) -> bool {
        self.x.mul_req(rhs) && self.y.mul_req(rhs)
    }

    open spec fn mul_spec(self, rhs: T) -> Vector2<T> {
        Vector2 { x: self.x.mul_spec(rhs), y: self.y.mul_spec(rhs) }
    }
}

impl<T: Add<Output = T> + Copy> Vector2<T> {
    /// Adds `rhs` to this vector in place.
    pub fn add_assign(&mut self, rhs: Vector2<T>)
        requires
            old(self).add_req(rhs),
        ensures
            T::obeys_add_spec() ==> *final(self) == old(self).add_spec(rhs),
    {
        *self = *self + rhs;
    }
}

impl<T: Sub<Output = T> + Copy> Vector2<T> {
    /// Subtracts `rhs` from this vector in place.
    pub fn sub_assign(&mut self, rhs: Vector2<T>)
        requires
            old(self).sub_req(rhs),
        ensures
            T::obeys_sub_spec() ==> *final(self) == old(self).sub_spec(rhs),
    {
        *self = *self - rhs;
    }
}

impl<T: Mul<Output = T> + Copy> Vector2<T> {
    /// Scales this vector in place.
    pub fn mul_assign(&mut self, rhs: T)
        requires
            old(self).mul_req(rhs),
        ensures
            T::obeys_mul_spec() ==> *final(self) == old(self).mul_spec(rhs),
    {
        *self = *self * rhs;
    }
}

/// Laid out as `x`, then `y`.
impl<T: FixedLayout> FixedLayout for Vector2<T> {
    open spec fn layout_size() -> nat {
        2 * T::layout_size()
    }

    open spec fn layout_bytes(&self) -> Seq<u8> {
        self.x.layout_bytes() + self.y.layout_bytes()
    }

    proof fn lemma_layout_len(&self) {
        self.x.lemma_layout_len();
        self.y.lemma_layout_len();
    }

    proof fn lemma_layout_injective(&self, other: &Vector2<T>) {
        let (x1, y1) = (self.x.layout_bytes(), self.y.layout_bytes());
        let (x2, y2) = (other.x.layout_bytes(), other.y.layout_bytes());
        lemma_split_bytes(self.x, other.x, y1, y2);
        self.x.lemma_layout_injective(&other.x);
        self.y.lemma_layout_injective(&other.y);
    }

    fn write_layout(&self, out: &mut Vec<u8>) {
        self.x.write_layout(out);
        self.y.write_layout(out);
        assert(out@ =~= old(out)@ + self.layout_bytes());
    }

    fn read_layout(src: &[u8], start: usize) -> (r: (Vector2<T>, usize)) {
        let (x, p0) = T::read_layout(src, start);
        let (y, end) = T::read_layout(src, p0);
        let v = Vector2 { x, y };
        assert(v.layout_bytes() =~= src@.subrange(start as int, end as int));
        (v, end)
    }
}

} // verus!
