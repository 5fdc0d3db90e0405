pub mod events;
pub mod ingest;
pub mod path;
pub mod registry;
pub mod swap;

use vstd::prelude::*;

verus! {

/// An opaque, copyable reference to a texture whose pixel data may still be
/// resolving asynchronously; the numeric id stands in for the render
/// system's handle value.
#[derive(Clone, Copy, Debug, PartialEq, Eq, Structural)]
pub struct TexHandle {
    pub id: u64,
}

} // verus!
