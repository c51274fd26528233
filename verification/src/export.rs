//! The exporter: the decision between a rasterized image of the graph
//! description and the textual fallback.
//!
//! The external layout tool runs outside the library.  Whatever happened
//! there is handed in as an `Option`: rendered bytes, or `None` for any
//! failure — tool missing, non-zero exit, broken pipe.  The decision below
//! guarantees that a failed layout never alters the text: the fallback body
//! is the renderer's output, byte for byte.

use vstd::prelude::*;

verus! {

/// What a graph request answers with: a rasterized image, or the textual
/// graph description itself.
#[derive(Debug)]
pub enum RenderedOutput {
    Image(Vec<u8>),
    Text(String),
}

/// Wraps the layout tool's outcome: an image when the tool produced one, the
/// unchanged description otherwise.  A failed layout is absorbed here and
/// never becomes an error.
pub fn export_outcome(dot: String, image: Option<Vec<u8>>) -> (r: RenderedOutput)
    ensures
        image matches Option::Some(bytes) ==> (r matches RenderedOutput::Image(b) && b
            == bytes),
        image is None ==> (r matches RenderedOutput::Text(t) && t == dot),
{
    match image {
        Option::Some(bytes) => RenderedOutput::Image(bytes),
        Option::None => RenderedOutput::Text(dot),
    }
}

} // verus!
