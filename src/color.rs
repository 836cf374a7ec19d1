//! Colors, as red, green and blue components.
use vstd::prelude::*;
use crate::vector::Vector3;

verus! {

/// A color: `x` is red, `y` green and `z` blue.
pub type Color<T> = Vector3<T>;

} // verus!
