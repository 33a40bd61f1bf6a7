//! Spatial primitives: coordinate validation, the affine geotransform,
//! geographic-to-pixel indexing, and bounded sampling of an in-memory
//! raster band.
//!
//! All coordinates and geotransform coefficients are fixed-point integers
//! in micro-units (one millionth of a map unit; for geographic data, a
//! micro-degree). The fixed scale cancels in the pixel-index quotient, so
//! the arithmetic here is exact.
//!
//! A geotransform is the usual six-coefficient affine map from pixel/line
//! indices to map coordinates: origin-x, pixel-width, x-skew, origin-y,
//! y-skew, pixel-height (negative for north-up rasters). The inverse map
//! implemented by [`geo_to_pixel`] ignores the skew terms and truncates
//! the quotient toward zero — truncation semantics, not rounding, which
//! differs from floor for points left of or above the origin.

use crate::error::ClassifierError;
use vstd::arithmetic::div_mod::{lemma_div_nonincreasing, lemma_div_pos_is_pos};
use vstd::prelude::*;

verus! {

/// Largest valid longitude, in micro-degrees (180 degrees).
pub const LON_LIMIT_MICRO: i64 = 180_000_000;

/// Largest valid latitude, in micro-degrees (90 degrees).
pub const LAT_LIMIT_MICRO: i64 = 90_000_000;

/// Whether a longitude/latitude pair (in micro-degrees) lies in the
/// valid WGS84 range: longitude in [-180, 180], latitude in [-90, 90].
pub open spec fn valid_coordinate(lon: int, lat: int) -> bool {
    &&& -(LON_LIMIT_MICRO as int) <= lon <= LON_LIMIT_MICRO as int
    &&& -(LAT_LIMIT_MICRO as int) <= lat <= LAT_LIMIT_MICRO as int
}

/// Validate a longitude/latitude pair in micro-degrees.
pub fn validate_coordinate(lon: i64, lat: i64) -> (ok: bool)
    ensures
        ok == valid_coordinate(lon as int, lat as int),
{
    -LON_LIMIT_MICRO <= lon && lon <= LON_LIMIT_MICRO && -LAT_LIMIT_MICRO <= lat && lat
        <= LAT_LIMIT_MICRO
}

/// A six-coefficient affine geotransform in micro-units.
#[derive(Debug, Clone, Copy, PartialEq, Eq, Structural)]
pub struct GeoTransform {
    pub origin_x: i64,
    pub pixel_width: i64,
    pub x_skew: i64,
    pub origin_y: i64,
    pub y_skew: i64,
    pub pixel_height: i64,
}

/// A geotransform is usable when both pixel dimensions are non-zero.
/// (The finiteness demand on the coefficients is discharged by the
/// integer representation itself.)
pub open spec fn spec_valid_geo_transform(gt: GeoTransform) -> bool {
    gt.pixel_width != 0 && gt.pixel_height != 0
}

/// Validate a geotransform: rejects zero pixel width or height.
/// Invoked once at raster-open time; downstream code never re-checks.
pub fn validate_geo_transform(gt: &GeoTransform) -> (r: Result<(), ClassifierError>)
    ensures
        r is Ok <==> spec_valid_geo_transform(*gt),
        r matches Err(e) ==> e matches ClassifierError::GdalError { message } && message@
            == "Invalid geotransform: zero pixel size"@,
{
    if gt.pixel_width == 0 || gt.pixel_height == 0 {
        Err(
            ClassifierError::GdalError {
                message: "Invalid geotransform: zero pixel size".to_owned(),
            },
        )
    } else {
        Ok(())
    }
}

/// Integer division truncating toward zero, as the hardware performs it;
/// distinct from the Euclidean `/` of specifications when the operands
/// have mixed signs.
pub open spec fn trunc_div(x: int, d: int) -> int
    recommends
        d != 0,
{
    if x == 0 {
        0
    } else if x > 0 && d > 0 {
        x / d
    } else if x < 0 && d < 0 {
        (x * -1) / (d * -1)
    } else if x < 0 {
        ((x * -1) / d) * -1
    } else {
        (x / (d * -1)) * -1
    }
}

/// Saturate an unbounded integer into the `i64` range.
pub open spec fn clamp_to_i64(v: int) -> int {
    if v > i64::MAX as int {
        i64::MAX as int
    } else if v < i64::MIN as int {
        i64::MIN as int
    } else {
        v
    }
}

/// The pixel (or line) index of a map coordinate along one axis: the
/// offset from the origin divided by the pixel size, truncated toward
/// zero and saturated to the `i64` range.
pub open spec fn pixel_index(coord: int, origin: int, step: int) -> int
    recommends
        step != 0,
{
    clamp_to_i64(trunc_div(coord - origin, step))
}

/// Truncating division on wide intermediates. The operand bound keeps the
/// quotient representable, so the checked division cannot fail.
fn trunc_div_i128(x: i128, d: i128) -> (q: i128)
    requires
        d != 0,
        -0x20000000000000000 <= x <= 0x20000000000000000,
    ensures
        q == trunc_div(x as int, d as int),
        -0x20000000000000000 <= q <= 0x20000000000000000,
{
    let opt = x.checked_div(d);
    proof {
        let xi = x as int;
        let di = d as int;
        if xi == 0 {
        } else if xi > 0 && di > 0 {
            lemma_div_pos_is_pos(xi, di);
            lemma_div_nonincreasing(xi, di);
        } else if xi < 0 && di < 0 {
            lemma_div_pos_is_pos(xi * -1, di * -1);
            lemma_div_nonincreasing(xi * -1, di * -1);
        } else if xi < 0 {
            lemma_div_pos_is_pos(xi * -1, di);
            lemma_div_nonincreasing(xi * -1, di);
        } else {
            lemma_div_pos_is_pos(xi, di * -1);
            lemma_div_nonincreasing(xi, di * -1);
        }
        assert(opt matches Some(q) && q == trunc_div(xi, di));
    }
    match opt {
        Some(q) => q,
        None => 0,
    }
}

/// Saturate a wide quotient into the `i64` range.
fn clamp_i128_to_i64(v: i128) -> (r: i64)
    ensures
        r as int == clamp_to_i64(v as int),
{
    if v > i64::MAX as i128 {
        i64::MAX
    } else if v < i64::MIN as i128 {
        i64::MIN
    } else {
        v as i64
    }
}

/// Convert map coordinates (micro-units) to raster pixel/line indices by
/// inverting the affine geotransform, with truncation toward zero. No
/// bounds check happens here: the indices may be negative or beyond the
/// raster extent, and the sampling step rejects those.
pub fn geo_to_pixel(x: i64, y: i64, geo_transform: &GeoTransform) -> (r: (i64, i64))
    requires
        spec_valid_geo_transform(*geo_transform),
    ensures
        r.0 as int == pixel_index(
            x as int,
            geo_transform.origin_x as int,
            geo_transform.pixel_width as int,
        ),
        r.1 as int == pixel_index(
            y as int,
            geo_transform.origin_y as int,
            geo_transform.pixel_height as int,
        ),
{
    let pixel = clamp_i128_to_i64(
        trunc_div_i128(x as i128 - geo_transform.origin_x as i128, geo_transform.pixel_width as i128),
    );
    let line = clamp_i128_to_i64(
        trunc_div_i128(y as i128 - geo_transform.origin_y as i128, geo_transform.pixel_height as i128),
    );
    (pixel, line)
}

/// Whether four leading bytes bear a TIFF signature: "II*\0" for a
/// little-endian file or "MM\0*" for a big-endian one.
pub open spec fn spec_tiff_signature(b: Seq<u8>) -> bool {
    b == seq![0x49u8, 0x49u8, 0x2au8, 0x00u8] || b == seq![0x4du8, 0x4du8, 0x00u8, 0x2au8]
}

/// Test a raster file's four leading bytes for the TIFF signature.
pub fn tiff_signature_ok(header: &[u8; 4]) -> (r: bool)
    ensures
        r == spec_tiff_signature(header@),
{
    let r = (header[0] == 0x49 && header[1] == 0x49 && header[2] == 0x2a && header[3] == 0x00) || (
    header[0] == 0x4d && header[1] == 0x4d && header[2] == 0x00 && header[3] == 0x2a);
    proof {
        if r {
            if header@[0] == 0x49 {
                assert(header@ =~= seq![0x49u8, 0x49u8, 0x2au8, 0x00u8]);
            } else {
                assert(header@ =~= seq![0x4du8, 0x4du8, 0x00u8, 0x2au8]);
            }
        }
    }
    r
}

/// A raster band held in memory: `width * height` single-byte samples in
/// row-major order.
#[derive(Debug)]
pub struct RasterGrid {
    pub width: usize,
    pub height: usize,
    pub data: Vec<u8>,
}

impl RasterGrid {
    /// The stored data covers exactly the advertised extent.
    pub open spec fn wf(self) -> bool {
        self.data@.len() == self.width * self.height
    }

    /// Whether a pixel/line index pair lies inside the raster extent.
    pub open spec fn spec_in_bounds(self, pixel: int, line: int) -> bool {
        0 <= pixel < self.width && 0 <= line < self.height
    }

    /// The sample stored at an in-bounds pixel/line index pair.
    pub open spec fn spec_value_at(self, pixel: int, line: int) -> u8
        recommends
            self.wf(),
            self.spec_in_bounds(pixel, line),
    {
        self.data@[line * self.width + pixel]
    }

    /// Assemble a raster band from its extent and row-major samples;
    /// rejects data whose length does not match the extent.
    pub fn new(width: usize, height: usize, data: Vec<u8>) -> (r: Option<RasterGrid>)
        ensures
            match r {
                Some(g) => g.width == width && g.height == height && g.data@ == data@ && g.wf(),
                None => data@.len() != width * height,
            },
    {
        let len = data.len();
        match width.checked_mul(height) {
            Some(n) => {
                if len == n {
                    Some(RasterGrid { width, height, data })
                } else {
                    None
                }
            },
            None => None,
        }
    }
}

/// Sample a single band value at the given pixel/line indices, checking
/// bounds first. Succeeds exactly on in-bounds indices and returns the
/// raw stored byte (the LCZ code at that cell).
pub fn sample_raster_value(band: &RasterGrid, pixel: i64, line: i64) -> (r: Result<
    u8,
    ClassifierError,
>)
    requires
        band.wf(),
    ensures
        match r {
            Ok(v) => band.spec_in_bounds(pixel as int, line as int) && v == band.spec_value_at(
                pixel as int,
                line as int,
            ),
            Err(e) => !band.spec_in_bounds(pixel as int, line as int) && (e
                matches ClassifierError::RasterSampling { pixel: p, line: l, message } && p == pixel
                && l == line && message@ == "Coordinates out of bounds"@),
        },
{
    if pixel < 0 || line < 0 || (pixel as u64) >= (band.width as u64) || (line as u64)
        >= (band.height as u64) {
        Err(
            ClassifierError::RasterSampling {
                pixel,
                line,
                message: "Coordinates out of bounds".to_owned(),
            },
        )
    } else {
        let p = pixel as usize;
        let l = line as usize;
        let total = band.data.len();
        proof {
            assert(l * band.width + p < band.height * band.width) by (nonlinear_arith)
                requires
                    0 <= p < band.width,
                    0 <= l < band.height,
            ;
            assert(band.height * band.width == band.width * band.height) by (nonlinear_arith);
            assert(l * band.width + p < total);
        }
        let idx = l * band.width + p;
        Ok(band.data[idx])
    }
}

} // verus!

