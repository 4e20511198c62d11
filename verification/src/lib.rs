//! Viewer core for 16-bit grayscale disparity maps.
//!
//! The crate holds the verified heart of a small image viewer: the
//! full-range normalizer that rescales 16-bit samples to 8-bit bytes,
//! the blocking driver that runs one polled computation to completion,
//! the GPU context state machine (surface configuration, resize and the
//! per-frame draw protocol), and the window-event dispatcher.

use vstd::prelude::*;
use vstd::string::StringExecFns;

pub mod block;
pub mod ctx;
pub mod display;
pub mod normalize;
pub mod png_codec;

pub use crate::png_codec::decode_png;
pub use crate::png_codec::PngError;

verus! {

/// A small greeting, kept from the library's web-facing front.
pub fn greet(name: &str) -> (r: String)
    ensures
        r@ == "Hello, "@ + name@ + " from Rust+WASM!"@,
{
    let mut s = String::from_str("Hello, ");
    s.append(name);
    s.append(" from Rust+WASM!");
    s
}

} // verus!
