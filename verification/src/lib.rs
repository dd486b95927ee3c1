//! Batch extraction of typed metadata attributes and pixel sample buffers
//! from DICOM files.
//!
//! The library holds the decision logic of the extractor: classifying an
//! attribute's value representation, converting raw element values into a
//! uniform [`value::Value`], probing a pixel-data element through a fixed
//! priority list of sample encodings, assembling the per-file record, and
//! aggregating per-file outcomes into a batch report. File discovery, the
//! worker pool and progress rendering sit outside, in the binary that
//! drives the library.

pub mod attrmap;
pub mod decode;
pub mod dicom_api;
pub mod pipeline;
pub mod pixels;
pub mod record;
pub mod tag;
pub mod value;
pub mod vr;

use vstd::prelude::*;

verus! {

/// Computes the number of workers for a batch run: an explicit request
/// wins; otherwise all processing units but one, and at least one.
pub fn effective_worker_count(cores: usize, requested: Option<usize>) -> (n: usize)
    ensures
        requested matches Some(r) ==> n == r,
        requested is None && cores > 1 ==> n == cores - 1,
        requested is None && cores <= 1 ==> n == 1,
{
    match requested {
        Some(r) => r,
        None => {
            if cores > 1 {
                cores - 1
            } else {
                1
            }
        },
    }
}

} // verus!

