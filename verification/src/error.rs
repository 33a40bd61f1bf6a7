//! The closed error taxonomy threaded through every component.
//!
//! Each kind carries enough context to localize the failure: the missing
//! path, the missing column, the offending coordinate or pixel. Backend
//! failures are wrapped into [`ClassifierError::GdalError`] rather than
//! leaking library-specific types.

use vstd::prelude::*;

verus! {

/// A failure of the classification pipeline.
///
/// Coordinates are in fixed-point micro-degrees and pixel indices are
/// signed, matching the values the pipeline computes.
#[derive(Debug)]
pub enum ClassifierError {
    /// The specified file path does not exist.
    FileNotFound { path: String },
    /// The raster backend failed to open or read the raster source.
    GdalError { message: String },
    /// A required column is missing from the input table.
    ColumnNotFound { column: String },
    /// A coordinate lies outside the valid WGS84 range.
    InvalidCoordinate { lon: i64, lat: i64 },
    /// A coordinate could not be transformed between reference systems.
    CoordinateTransform { message: String },
    /// A raster sample at the given pixel/line failed.
    RasterSampling { pixel: i64, line: i64, message: String },
    /// The input table does not meet the required schema.
    SchemaValidation { message: String },
    /// A manual override could not be applied to a station.
    /// Reserved: the current engine never produces it, since override
    /// application cannot fail.
    OverrideApplication { station_id: String, message: String },
}

} // verus!
