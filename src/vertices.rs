//! Vertex array objects and element buffers.
use vstd::prelude::*;

verus! {

/// A primitive mode (points, lines, triangles, ...) as the driver numbers it.
pub type DrawMode = u32;

/// The one draw call that drawing a vertex array issues.
#[derive(Clone, Copy, Debug, PartialEq, Eq)]
pub enum DrawCall {
    /// Draws `count` indices of the bound element buffer, read as `u32`.
    Elements { mode: DrawMode, count: i32 },
    /// Draws `count` consecutive vertices, starting at vertex `first`.
    Arrays { mode: DrawMode, first: i32, count: i32 },
}

/// A vertex array object, known by the name the driver gave it.
pub struct VAO {
    id: u32,
}

impl VAO {
    pub closed spec fn spec_id(&self) -> u32 {
        self.id
    }

    /// Wraps the vertex array that the driver created as `id`.
    pub fn new(id: u32) -> (r: VAO)
        ensures
            r.id() == id,
    {
        VAO { id }
    }

    #[verifier::when_used_as_spec(spec_id)]
    pub fn id(&self) -> (r: u32)
        ensures
            r == self.spec_id(),
    {
        self.id
    }

    /// The call that draws `vertex_count` vertices with this array bound:
    /// through the element buffer when there is one, else straight from the
    /// first vertex.
    pub fn draw(&self, mode: DrawMode, vertex_count: i32, has_ebo: bool) -> (r: DrawCall)
        ensures
            r == (if has_ebo {
                DrawCall::Elements { mode, count: vertex_count }
            } else {
                DrawCall::Arrays { mode, first: 0, count: vertex_count }
            }),
    {
        if has_ebo {
            DrawCall::Elements { mode, count: vertex_count }
        } else {
            DrawCall::Arrays { mode, first: 0, count: vertex_count }
        }
    }
}

/// An element (index) buffer, known by the name the driver gave it, with the
/// number of indices it holds.
pub struct EBO {
    id: u32,
    len: usize,
}

impl EBO {
    pub closed spec fn spec_id(&self) -> u32 {
        self.id
    }

    pub closed spec fn spec_len(&self) -> usize {
        self.len
    }

    /// Wraps the element buffer that the driver created as `id` and filled
    /// with `indices`, if any were given.
    pub fn new(id: u32, indices: Option<&Vec<u32>>) -> (r: EBO)
        ensures
            r.id() == id,
            r.len() == match indices {
                Some(ind) => ind@.len(),
                None => 0,
            },
    {
        let len = match indices {
            Some(ind) => ind.len(),
            None => 0,
        };
        EBO { id, len }
    }

    #[verifier::when_used_as_spec(spec_id)]
    pub fn id(&self) -> (r: u32)
        ensures
            r == self.spec_id(),
    {
        self.id
    }

    /// The number of indices in the buffer.
    #[verifier::when_used_as_spec(spec_len)]
    pub fn len(&self) -> (r: usize)
        ensures
            r == self.spec_len(),
    {
        self.len
    }
}

} // verus!
