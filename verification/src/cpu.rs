//! CPU feature snapshot for kernel dispatch.
//!
//! Detection of vector instruction sets is a one-time, process-wide query
//! made outside this core (it touches the platform, not audio data); the
//! scheduler passes the snapshot in with every block's context, and every
//! node picks its kernel from it. The accelerated path is only reachable
//! when the snapshot says the feature is there, and the scalar path remains
//! the reference the vector path is held to.

use vstd::prelude::*;

verus! {

/// Samples one vector instruction of the wide kernel covers.
pub const AVX_VECTOR_WIDTH: usize = 8;

/// The vector instruction sets available on this machine.
#[derive(Clone, Copy, Debug, PartialEq, Eq, Structural)]
pub struct CpuFeatures {
    /// Whether the wide (AVX-class) kernel may run.
    pub avx: bool,
}

impl CpuFeatures {
    /// A snapshot that forces the scalar reference path.
    pub fn scalar_only() -> (c: CpuFeatures)
        ensures
            c.avx == false,
    {
        CpuFeatures { avx: false }
    }

    /// A snapshot built from a detector's answer.
    pub fn from_detection(avx: bool) -> (c: CpuFeatures)
        ensures
            c.avx == avx,
    {
        CpuFeatures { avx }
    }

    /// How many samples each stride of the dispatched kernel covers.
    pub fn vector_width(&self) -> (w: usize)
        ensures
            w == if self.avx {
                AVX_VECTOR_WIDTH as int
            } else {
                1int
            },
    {
        if self.avx {
            AVX_VECTOR_WIDTH
        } else {
            1
        }
    }
}

} // verus!
