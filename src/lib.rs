//! A bridge between serde's visitor-driven data model and the CBOR wire
//! format, built on minicbor's item-level encoder and decoder.
//!
//! The encode side (`ser`) drives the container framing state machine and
//! the flatten switch; the decode side (`de`) owns the type dispatch, the
//! sequence, map and enum access steps, the depth counter and the byte
//! coercion slot. `wire` models the bytes these produce and consume.
use vstd::prelude::*;

pub mod codec;
pub mod de;
pub mod error;
pub mod laws;
pub mod ser;
pub mod wire;

verus! {

/// Configuration shared by both bridges.
#[derive(Debug, Clone, Copy)]
pub struct Config {
    /// Encode or decode the outermost struct, tuple or sequence as a bare
    /// run of its elements, with no enclosing array or map header.
    pub top_flatten: bool,
}

impl Default for Config {
    fn default() -> (r: Config)
        ensures
            !r.top_flatten,
    {
        Config { top_flatten: false }
    }
}

} // verus!
