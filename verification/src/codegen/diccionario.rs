//! Layout of the buckets of the runtime's dictionaries.

use vstd::prelude::*;
use crate::codegen::Codegen;

verus! {

/// The size of a bucket holding a key of `k` bytes and a value of `v` bytes:
/// an 8-byte header (hash and occupancy) followed by key and value, rounded
/// up to a multiple of 8.
pub open spec fn paso_bucket(k: int, v: int) -> int {
    ((8 + k + v + 7) / 8) * 8
}

impl Codegen {
    /// The stride between consecutive buckets of a dictionary whose keys take
    /// `tamano_k` bytes and whose values take `tamano_v` bytes.
    pub fn diccionario_bucket_stride(&self, tamano_k: u32, tamano_v: u32) -> (r: u32)
        requires
            8 + tamano_k + tamano_v + 7 <= u32::MAX,
        ensures
            r == paso_bucket(tamano_k as int, tamano_v as int),
            r % 8 == 0,
            8 + tamano_k + tamano_v <= r < 8 + tamano_k + tamano_v + 8,
    {
        let raw = 8 + tamano_k + tamano_v;
        ((raw + 7) / 8) * 8
    }
}

} // verus!
