//! Widget markers shared with the presentation layer.

use vstd::prelude::*;

verus! {

/// Marker for the progress spinner shown while a scan is active. Its
/// drawing is animation-time float geometry and belongs to the
/// presentation layer; the engine only decides when it appears (see
/// `crate::frontend::header_status`).
#[derive(Default)]
pub struct Spinner;

} // verus!
