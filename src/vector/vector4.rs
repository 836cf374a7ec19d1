use vstd::prelude::*;
use std::ops::{Add, Mul, Sub};
use vstd::std_specs::ops::{AddSpec, MulSpec, SubSpec};
use crate::gpu::{lemma_split_bytes, FixedLayout};

verus! {

/// A four-component vector: `x`, `y`, `z`, then `w`.
#[derive(Clone, Copy, Debug, PartialEq, Eq)]
pub struct Vector4<T> {
    pub x: T,
    pub y: T,
    pub z: T,
    pub w: T,
}

impl<T: Copy> Vector4<T> {
    pub fn new(x: T, y: T, z: T, w: T) -> (r: Vector4<T>)
        ensures
            r == (Vector4 { x, y, z, w }),
    {
        Vector4 { x, y, z, w }
    }

    /// References to the four components, in order.
    pub fn components(&self) -> (r: (&T, &T, &T, &T))
        ensures
            *r.0 == self.x,
            *r.1 == self.y,
            *r.2 == self.z,
            *r.3 == self.w,
    {
        (&self.x, &self.y, &self.z, &self.w)
    }

    /// Mutable references to the four components, in order.
    pub fn components_mut(&mut self) -> (r: (&mut T, &mut T, &mut T, &mut T))
        ensures
            *r.0 == old(self).x,
            *r.1 == old(self).y,
            *r.2 == old(self).z,
            *r.3 == old(self).w,
            *final(self) == (Vector4 {
                x: *final(r.0),
                y: *final(r.1),
                z: *final(r.2),
                w: *final(r.3),
            }),
    {
        (&mut self.x, &mut self.y, &mut self.z, &mut self.w)
    }
}

impl<T: Add<Output = T>> Add<Vector4<T>> for Vector4<T> {
    type Output = Vector4<T>;

    fn add(self, rhs: Vector4<T>) -> (r: Vector4<T>) {
        Vector4 { x: self.x + rhs.x, y: self.y + rhs.y, z: self.z + rhs.z, w: self.w + rhs.w }
    }
}

impl<T: Add<Output = T>> vstd::std_specs::ops::AddSpecImpl<Vector4<T>> for Vector4<T> {
    open spec fn obeys_add_spec() -> bool {
        T::obeys_add_spec()
    }

    open spec fn add_req(self, rhs: Vector4<T>) -> bool {
        self.x.add_req(rhs.x)
            && self.y.add_req(rhs.y)
            && self.z.add_req(rhs.z)
            && self.w.add_req(rhs.w)
    }

    open spec fn add_spec(self, rhs: Vector4<T>) -> Vector4<T> {
        Vector4 {
            x: self.x.add_spec(rhs.x),
            y: self.y.add_spec(rhs.y),
            z: self.z.add_spec(rhs.z),
            w: self.w.add_spec(rhs.w),
        }
    }
}

impl<T: Sub<Output = T>> Sub<Vector4<T>> for Vector4<T> {
    type Output = Vector4<T>;

    fn sub(self, rhs: Vector4<T>) -> (r: Vector4<T>) {
        Vector4 { x: self.x - rhs.x, y: self.y - rhs.y, z: self.z - rhs.z, w: self.w - rhs.w }
    }
}

impl<T: Sub<Output = T>> vstd::std_specs::ops::SubSpecImpl<Vector4<T>> for Vector4<T> {
    open spec fn obeys_sub_spec() -> bool {
        T::obeys_sub_spec()
    }

    open spec fn sub_req(self, rhs: Vector4<T>) -> bool {
        self.x.sub_req(rhs.x)
            && self.y.sub_req(rhs.y)
            && self.z.sub_req(rhs.z)
            && self.w.sub_req(rhs.w)
    }

    open spec fn sub_spec(self, rhs: Vector4<T>) -> Vector4<T> {
        Vector4 {
            x: self.x.sub_spec(rhs.x),
            y: self.y.sub_spec(rhs.y),
            z: self.z.sub_spec(rhs.z),
            w: self.w.sub_spec(rhs.w),
        }
    }
}

/// Scaling by a factor.
impl<T: Mul<Output = T> + Copy> Mul<T> for Vector4<T> {
    type Output = Vector4<T>;

    fn mul(self, rhs: T) -> (r: Vector4<T>) {
        Vector4 { x: self.x * rhs, y: self.y * rhs, z: self.z * rhs, w: self.w * rhs }
    }
}

impl<T: Mul<Output = T> + Copy> vstd::std_specs::ops::MulSpecImpl<T> for Vector4<T> {
    open spec fn obeys_mul_spec() -> bool {
        T::obeys_mul_spec()
    }

    open spec fn mul_req(self, rhs: T) -> bool {
        self.x.mul_req(rhs) && self.y.mul_req(rhs) && self.z.mul_req(rhs) && self.w.mul_req(rhs)
    }

    open spec fn mul_spec(self, rhs: T) -> Vector4<T> {
        Vector4 {
            x: self.x.mul_spec(rhs),
            y: self.y.mul_spec(rhs),
            z: self.z.mul_spec(rhs),
            w: self.w.mul_spec(rhs),
        }
    }
}

impl<T: Add<Output = T> + Copy> Vector4<T> {
    /// Adds `rhs` to this vector in place.
    pub fn add_assign(&mut self, rhs: Vector4<T>)
        requires
            old(self).add_req(rhs),
        ensures
            T::obeys_add_spec() ==> *final(self) == old(self).add_spec(rhs),
    {
        *self = *self + rhs;
    }
}

impl<T: Sub<Output = T> + Copy> Vector4<T> {
    /// Subtracts `rhs` from this vector in place.
    pub fn sub_assign(&mut self, rhs: Vector4<T>)
        requires
            old(self).sub_req(rhs),
        ensures
            T::obeys_sub_spec() ==> *final(self) == old(self).sub_spec(rhs),
    {
        *self = *self - rhs;
    }
}

impl<T: Mul<Output = T> + Copy> Vector4<T> {
    /// Scales this vector in place.
    pub fn mul_assign(&mut self, rhs: T)
        requires
            old(self).mul_req(rhs),
        ensures
            T::obeys_mul_spec() ==> *final(self) == old(self).mul_spec(rhs),
    {
        *self = *self * rhs;
    }
}

/// Laid out as `x`, then `y`, then `z`, then `w`.
impl<T: FixedLayout> FixedLayout for Vector4<T> {
    open spec fn layout_size() -> nat {
        4 * T::layout_size()
    }

    open spec fn layout_bytes(&self) -> Seq<u8> {
        self.x.layout_bytes()
            + self.y.layout_bytes()
            + self.z.layout_bytes()
            + self.w.layout_bytes()
    }

    proof fn lemma_layout_len(&self) {
        self.x.lemma_layout_len();
        self.y.lemma_layout_len();
        self.z.lemma_layout_len();
        self.w.lemma_layout_len();
    }

    proof fn lemma_layout_injective(&self, other: &Vector4<T>) {
        let (x1, y1, z1, w1) = (
            self.x.layout_bytes(),
            self.y.layout_bytes(),
            self.z.layout_bytes(),
            self.w.layout_bytes(),
        );
        let (x2, y2, z2, w2) = (
            other.x.layout_bytes(),
            other.y.layout_bytes(),
            other.z.layout_bytes(),
            other.w.layout_bytes(),
        );
        assert(x1 + y1 + z1 + w1 =~= x1 + (y1 + z1 + w1));
        assert(x2 + y2 + z2 + w2 =~= x2 + (y2 + z2 + w2));
        lemma_split_bytes(self.x, other.x, y1 + z1 + w1, y2 + z2 + w2);
        assert(y1 + z1 + w1 =~= y1 + (z1 + w1));
        assert(y2 + z2 + w2 =~= y2 + (z2 + w2));
        lemma_split_bytes(self.y, other.y, z1 + w1, z2 + w2);
        lemma_split_bytes(self.z, other.z, w1, w2);
        self.x.lemma_layout_injective(&other.x);
        self.y.lemma_layout_injective(&other.y);
        self.z.lemma_layout_injective(&other.z);
        self.w.lemma_layout_injective(&other.w);
    }

    fn write_layout(&self, out: &mut Vec<u8>) {
        self.x.write_layout(out);
        self.y.write_layout(out);
        self.z.write_layout(out);
        self.w.write_layout(out);
        assert(out@ =~= old(out)@ + self.layout_bytes());
    }

    fn read_layout(src: &[u8], start: usize) -> (r: (Vector4<T>, usize)) {
        let (x, p0) = T::read_layout(src, start);
        let (y, p1) = T::read_layout(src, p0);
        let (z, p2) = T::read_layout(src, p1);
        let (w, end) = T::read_layout(src, p2);
        let v = Vector4 { x, y, z, w };
        assert(v.layout_bytes() =~= src@.subrange(start as int, end as int));
        (v, end)
    }
}

} // verus!
