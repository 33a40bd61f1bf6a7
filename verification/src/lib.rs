//! Classification of point locations against a global land-cover raster
//! using the Local Climate Zone (LCZ) taxonomy: a 17-class scheme that
//! groups urban, suburban and rural surface types.
//!
//! Input is a table of (identity, longitude, latitude) records in WGS84;
//! output is the same table enriched with a numeric LCZ code, a
//! human-readable class name, and a simplified three-way category.
//!
//! The crate is organised leaf-first:
//!
//! - [`lcz`]: the pure taxonomy mapping numeric codes to named classes,
//!   display names and the simplified category.
//! - [`error`]: the closed error taxonomy threaded through every
//!   component.
//! - [`spatial`]: coordinate validation, geotransform validation,
//!   geographic-to-pixel indexing and bounded sampling of an in-memory
//!   raster band.
//! - [`table`]: the minimal tabular record model the classifier consumes
//!   and produces.
//! - [`overrides`]: caller-supplied manual replacements of sampled
//!   codes, keyed by station identity.
//! - [`classifier`]: the engine that validates input, samples the raster
//!   per record, applies overrides and assembles the augmented result.
//!
//! Coordinates and geotransform coefficients are fixed-point integers in
//! micro-units (one millionth of a degree or map unit), so every step of
//! the pipeline is exact integer arithmetic with a proved contract.

pub mod classifier;
pub mod error;
pub mod lcz;
pub mod overrides;
pub mod spatial;
pub mod table;

pub use classifier::UrbanClassifier;
pub use error::ClassifierError;
pub use overrides::OverrideMap;
pub use lcz::{lcz_info, Lcz, LczCategory};
pub use spatial::{GeoTransform, RasterGrid};
pub use table::{Column, ColumnData, Table};
