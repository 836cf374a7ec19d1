use vstd::prelude::*;
use std::ops::{Add, Mul, Sub};
use vstd::std_specs::ops::{AddSpec, MulSpec, SubSpec};
use crate::gpu::{lemma_split_bytes, FixedLayout};
use super::Vector4;

verus! {

/// A three-component vector: `x`, `y`, then `z`.
#[derive(Clone, Copy, Debug, PartialEq, Eq)]
pub struct Vector3<T> {
    pub x: T,
    pub y: T,
    pub z: T,
}

impl<T: Default + Copy> Vector3<T> {
    pub fn new(x: T, y: T, z: T) -> (r: Vector3<T>)
        ensures
            r == (Vector3 { x, y, z }),
    {
        Vector3 { x, y, z }
    }

    /// The vector with a fourth component of `T`'s default value.
    pub fn as_vector4(&self) -> (r: Vector4<T>)
        ensures
            r.x == self.x,
            r.y == self.y,
            r.z == self.z,
    {
        Vector4::new(self.x, self.y, self.z, T::default())
    }

    pub fn x(&self) -> (r: T)
        ensures
            r == self.x,
    {
        self.x
    }

    pub fn y(&self) -> (r: T)
        ensures
            r == self.y,
    {
        self.y
    }

    pub fn z(&self) -> (r: T)
        ensures
            r == self.z,
    {
        self.z
    }
}

impl<T: Add<Output = T>> Add<Vector3<T>> for Vector3<T> {
    type Output = Vector3<T>;

    fn add(self, rhs: Vector3<T>) -> (r: Vector3<T>) {
        Vector3 { x: self.x + rhs.x, y: self.y + rhs.y, z: self.z + rhs.z }
    }
}

impl<T: Add<Output = T>> vstd::std_specs::ops::AddSpecImpl<Vector3<T>> for Vector3<T> {
    open spec fn obeys_add_spec() -> bool {
        T::obeys_add_spec()
    }

    open spec fn add_req(self, rhs: Vector3<T>) -> bool {
        self.x.add_req(rhs.x) && self.y.add_req(rhs.y) && self.z.add_req(rhs.z)
    }

    open spec fn add_spec(self, rhs: Vector3<T>) -> Vector3<T> {
        Vector3 { x: self.x.add_spec(rhs.x), y: self.y.add_spec(rhs.y), z: self.z.add_spec(rhs.z) }
    }
}

impl<T: Sub<Output = T>> Sub<Vector3<T>> for Vector3<T> {
    type Output = Vector3<T>;

    fn sub(self, rhs: Vector3<T>) -> (r: Vector3<T>) {
        Vector3 { x: self.x - rhs.x, y: self.y - rhs.y, z: self.z - rhs.z }
    }
}

impl<T: Sub<Output = T>> vstd::std_specs::ops::SubSpecImpl<Vector3<T>> for Vector3<T> {
    open spec fn obeys_sub_spec() -> bool {
        T::obeys_sub_spec()
    }

    open spec fn sub_req(self, rhs: Vector3<T>) -> bool {
        self.x.sub_req(rhs.x) && self.y.sub_req(rhs.y) && self.z.sub_req(rhs.z)
    }

    open spec fn sub_spec(self, rhs: Vector3<T>) -> Vector3<T> {
        Vector3 { x: self.x.sub_spec(rhs.x), y: self.y.sub_spec(rhs.y), z: self.z.sub_spec(rhs.z) }
    }
}

/// Scaling by a factor.
impl<T: Mul<Output = T> + Copy> Mul<T> for Vector3<T> {
    type Output = Vector3<T>;

    fn mul(self, rhs: T) -> (r: Vector3<T>) {
        Vector3 { x: self.x * rhs, y: self.y * rhs, z: self.z * rhs }
    }
}

impl<T: Mul<Output = T> + Copy> vstd::std_specs::ops::MulSpecImpl<T> for Vector3<T> {
    open spec fn obeys_mul_spec() -> bool {
        T::obeys_mul_spec()
    }

    open spec fn mul_req(self, rhs: T) -> bool {
        self.x.mul_req(rhs) && self.y.mul_req(rhs) && self.z.mul_req(rhs)
    }

    open spec fn mul_spec(self, rhs: T) -> Vector3<T> {
        Vector3 { x: self.x.mul_spec(rhs), y: self.y.mul_spec(rhs), z: self.z.mul_spec(rhs) }
    }
}

impl<T: Add<Output = T> + Copy> Vector3<T> {
    /// Adds `rhs` to this vector in place.
    pub fn add_assign(&mut self, rhs: Vector3<T>)
        requires
            old(self).add_req(rhs),
        ensures
            T::obeys_add_spec() ==> *final(self) == old(self).add_spec(rhs),
    {
        *self = *self + rhs;
    }
}

impl<T: Sub<Output = T> + Copy> Vector3<T> {
    /// Subtracts `rhs` from this vector in place.
    pub fn sub_assign(&mut self, rhs: Vector3<T>)
        requires
            old(self).sub_req(rhs),
        ensures
            T::obeys_sub_spec() ==> *final(self) == old(self).sub_spec(rhs),
    {
        *self = *self - rhs;
    }
}

impl<T: Mul<Output = T> + Copy> Vector3<T> {
    /// Scales this vector in place.
    pub fn mul_assign(&mut self, rhs: T)
        requires
            old(self).mul_req(rhs),
        ensures
            T::obeys_mul_spec() ==> *final(self) == old(self).mul_spec(rhs),
    {
        *self = *self * rhs;
    }
}

/// Laid out as `x`, then `y`, then `z`.
impl<T: FixedLayout> FixedLayout for Vector3<T> {
    open spec fn layout_size() -> nat {
        3 * T::layout_size()
    }

    open spec fn layout_bytes(&self) -> Seq<u8> {
        self.x.layout_bytes() + self.y.layout_bytes() + self.z.layout_bytes()
    }

    proof fn lemma_layout_len(&self) {
        self.x.lemma_layout_len();
        self.y.lemma_layout_len();
        self.z.lemma_layout_len();
    }

    proof fn lemma_layout_injective(&self, other: &Vector3<T>) {
        let (x1, y1, z1) = (self.x.layout_bytes(), self.y.layout_bytes(), self.z.layout_bytes());
        let (x2, y2, z2) = (other.x.layout_bytes(), other.y.layout_bytes(), other.z.layout_bytes());
        assert(x1 + y1 + z1 =~= x1 + (y1 + z1));
        assert(x2 + y2 + z2 =~= x2 + (y2 + z2));
        lemma_split_bytes(self.x, other.x, y1 + z1, y2 + z2);
        lemma_split_bytes(self.y, other.y, z1, z2);
        self.x.lemma_layout_injective(&other.x);
        self.y.lemma_layout_injective(&other.y);
        self.z.lemma_layout_injective(&other.z);
    }

    fn write_layout(&self, out: &mut Vec<u8>) {
        self.x.write_layout(out);
        self.y.write_layout(out);
        self.z.write_layout(out);
        assert(out@ =~= old(out)@ + self.layout_bytes());
    }

    fn read_layout(src: &[u8], start: usize) -> (r: (Vector3<T>, usize)) {
        let (x, p0) = T::read_layout(src, start);
        let (y, p1) = T::read_layout(src, p0);
        let (z, end) = T::read_layout(src, p1);
        let v = Vector3 { x, y, z };
        assert(v.layout_bytes() =~= src@.subrange(start as int, end as int));
        (v, end)
    }
}

} // verus!
