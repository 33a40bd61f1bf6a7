//! The classification engine.
//!
//! [`UrbanClassifier`] owns a validated raster source (geotransform plus
//! an in-memory band of LCZ codes addressed in geographic micro-degrees)
//! and classifies a table of station records against it: schema
//! validation first, then strictly sequential per-record sampling that
//! aborts the whole run at the first failing record, then override
//! application, then assembly of the augmented result table.
//!
//! The run is all-or-nothing: no partial results survive a failure, and
//! the error names the first offending record in input order.

use crate::error::ClassifierError;
use crate::lcz::Lcz;
use crate::overrides::OverrideMap;
use crate::spatial::{
    geo_to_pixel, pixel_index, sample_raster_value, spec_valid_geo_transform, valid_coordinate,
    validate_coordinate, validate_geo_transform, GeoTransform, RasterGrid,
};
use crate::table::{
    spec_col_of, spec_has_col, spec_num_rows, spec_with_col, Column, ColumnData, ColumnDataModel,
    ColumnModel, Table,
};
use vstd::prelude::*;
use vstd::string::StringExecFns;

verus! {

/// The classifier: a validated raster source held for the engine's
/// lifetime and reused across classification runs.
pub struct UrbanClassifier {
    pub gt: GeoTransform,
    pub band: RasterGrid,
}

impl UrbanClassifier {
    /// A usable classifier: a validated geotransform and a coherent band.
    pub open spec fn wf(self) -> bool {
        spec_valid_geo_transform(self.gt) && self.band.wf()
    }

    /// The pixel index a longitude falls in.
    pub open spec fn spec_pixel_of(self, lon: i64) -> int {
        pixel_index(lon as int, self.gt.origin_x as int, self.gt.pixel_width as int)
    }

    /// The line index a latitude falls in.
    pub open spec fn spec_line_of(self, lat: i64) -> int {
        pixel_index(lat as int, self.gt.origin_y as int, self.gt.pixel_height as int)
    }

    /// A record samples successfully: its coordinate is valid and its
    /// pixel falls inside the raster extent.
    pub open spec fn spec_record_ok(self, lon: i64, lat: i64) -> bool {
        &&& valid_coordinate(lon as int, lat as int)
        &&& self.band.spec_in_bounds(self.spec_pixel_of(lon), self.spec_line_of(lat))
    }

    /// The raw code sampled for a record.
    pub open spec fn spec_code_at(self, lon: i64, lat: i64) -> u8 {
        self.band.spec_value_at(self.spec_pixel_of(lon), self.spec_line_of(lat))
    }
}

/// The three required columns exist and the coordinate columns are
/// fixed-point columns.
pub open spec fn spec_schema_ok(
    cols: Seq<ColumnModel>,
    idc: Seq<char>,
    lonc: Seq<char>,
    latc: Seq<char>,
) -> bool {
    &&& spec_has_col(cols, idc)
    &&& spec_has_col(cols, lonc)
    &&& spec_has_col(cols, latc)
    &&& spec_col_of(cols, lonc).data is Real
    &&& spec_col_of(cols, latc).data is Real
}

/// The identity column is a string column.
pub open spec fn spec_ids_ok(cols: Seq<ColumnModel>, idc: Seq<char>) -> bool {
    spec_col_of(cols, idc).data is Utf8
}

/// The cells of the identity column.
pub open spec fn spec_id_cells(cols: Seq<ColumnModel>, idc: Seq<char>) -> Seq<
    Option<Seq<char>>,
>
    recommends
        spec_ids_ok(cols, idc),
{
    spec_col_of(cols, idc).data->Utf8_0
}

/// The station identities, with a null cell read as "unknown".
pub open spec fn spec_ids(cols: Seq<ColumnModel>, idc: Seq<char>) -> Seq<Seq<char>> {
    spec_id_cells(cols, idc).map(
        |i: int, o: Option<Seq<char>>|
            match o {
                Some(s) => s,
                None => "unknown"@,
            },
    )
}

/// The cells of a fixed-point column.
pub open spec fn spec_real_cells(cols: Seq<ColumnModel>, name: Seq<char>) -> Seq<Option<i64>>
    recommends
        spec_col_of(cols, name).data is Real,
{
    spec_col_of(cols, name).data->Real_0
}

/// A fixed-point column holds no null cell.
pub open spec fn spec_col_full(cols: Seq<ColumnModel>, name: Seq<char>) -> bool {
    forall|i: int|
        0 <= i < spec_real_cells(cols, name).len() ==> spec_real_cells(cols, name)[i] is Some
}

/// The values of a fixed-point column without nulls.
pub open spec fn spec_reals(cols: Seq<ColumnModel>, name: Seq<char>) -> Seq<i64> {
    spec_real_cells(cols, name).map(
        |i: int, o: Option<i64>|
            match o {
                Some(x) => x,
                None => 0i64,
            },
    )
}

/// The whole input is usable: schema, identity column type, no nulls.
pub open spec fn spec_input_ok(
    cols: Seq<ColumnModel>,
    idc: Seq<char>,
    lonc: Seq<char>,
    latc: Seq<char>,
) -> bool {
    &&& spec_schema_ok(cols, idc, lonc, latc)
    &&& spec_ids_ok(cols, idc)
    &&& spec_col_full(cols, lonc)
    &&& spec_col_full(cols, latc)
}

/// A run succeeds exactly when the input is usable and every record
/// validates and samples inside the raster.
pub open spec fn spec_run_ok(
    cls: UrbanClassifier,
    cols: Seq<ColumnModel>,
    idc: Seq<char>,
    lonc: Seq<char>,
    latc: Seq<char>,
) -> bool {
    &&& spec_input_ok(cols, idc, lonc, latc)
    &&& forall|i: int|
        0 <= i < spec_num_rows(cols) ==> cls.spec_record_ok(
            spec_reals(cols, lonc)[i],
            spec_reals(cols, latc)[i],
        )
}

/// The override map an optional argument denotes.
pub open spec fn spec_override_map(overrides: Option<&OverrideMap>) -> Map<Seq<char>, u8> {
    match overrides {
        Some(m) => m@,
        None => Map::<Seq<char>, u8>::empty(),
    }
}

/// The code a record ends with: its manual override when its identity is
/// mapped, otherwise the sampled code.
pub open spec fn spec_final_code(
    cls: UrbanClassifier,
    cols: Seq<ColumnModel>,
    idc: Seq<char>,
    lonc: Seq<char>,
    latc: Seq<char>,
    ov: Map<Seq<char>, u8>,
    i: int,
) -> u8 {
    let id = spec_ids(cols, idc)[i];
    if ov.dom().contains(id) {
        ov[id]
    } else {
        cls.spec_code_at(spec_reals(cols, lonc)[i], spec_reals(cols, latc)[i])
    }
}

/// The codes all records end with, in input order.
pub open spec fn spec_final_codes(
    cls: UrbanClassifier,
    cols: Seq<ColumnModel>,
    idc: Seq<char>,
    lonc: Seq<char>,
    latc: Seq<char>,
    ov: Map<Seq<char>, u8>,
) -> Seq<u8> {
    Seq::new(spec_num_rows(cols), |i: int| spec_final_code(cls, cols, idc, lonc, latc, ov, i))
}

/// The appended numeric code column.
pub open spec fn spec_code_column(codes: Seq<u8>) -> ColumnModel {
    ColumnModel {
        name: "lcz_code"@,
        data: ColumnDataModel::Code(Seq::new(codes.len(), |i: int| codes[i] as u32)),
    }
}

/// The appended display-name column.
pub open spec fn spec_name_column(codes: Seq<u8>) -> ColumnModel {
    ColumnModel {
        name: "lcz_name"@,
        data: ColumnDataModel::Utf8(
            Seq::new(codes.len(), |i: int| Some(Lcz::spec_from_code(codes[i]).spec_full_name())),
        ),
    }
}

/// The appended simplified-category column.
pub open spec fn spec_class_column(codes: Seq<u8>) -> ColumnModel {
    ColumnModel {
        name: "simple_class"@,
        data: ColumnDataModel::Utf8(
            Seq::new(
                codes.len(),
                |i: int| Some(Lcz::spec_from_code(codes[i]).spec_simple_category().spec_as_ref()),
            ),
        ),
    }
}

/// The columns of a successful run: the input columns with the three
/// derived columns set, in this order.
pub open spec fn spec_result_cols(
    cls: UrbanClassifier,
    cols: Seq<ColumnModel>,
    idc: Seq<char>,
    lonc: Seq<char>,
    latc: Seq<char>,
    ov: Map<Seq<char>, u8>,
) -> Seq<ColumnModel> {
    let codes = spec_final_codes(cls, cols, idc, lonc, latc, ov);
    spec_with_col(
        spec_with_col(spec_with_col(cols, spec_code_column(codes)), spec_name_column(codes)),
        spec_class_column(codes),
    )
}

/// The error a failing record produces: an invalid coordinate is
/// rejected before any raster access, and an out-of-extent pixel is
/// reported with its indices and the station identity.
pub open spec fn spec_record_error(
    cls: UrbanClassifier,
    lon: i64,
    lat: i64,
    id: Seq<char>,
    e: ClassifierError,
) -> bool {
    if !valid_coordinate(lon as int, lat as int) {
        e matches ClassifierError::InvalidCoordinate { lon: lo, lat: la } && lo == lon && la == lat
    } else {
        e matches ClassifierError::RasterSampling { pixel, line, message } && pixel as int
            == cls.spec_pixel_of(lon) && line as int == cls.spec_line_of(lat) && message@
            == "Failed to sample raster for station "@ + id
    }
}

/// The error a failing run reports, by the first reason that applies:
/// missing columns in id/longitude/latitude order, then column types,
/// then null cells, then the first record that fails to sample.
pub open spec fn spec_run_error(
    cls: UrbanClassifier,
    cols: Seq<ColumnModel>,
    idc: Seq<char>,
    lonc: Seq<char>,
    latc: Seq<char>,
    e: ClassifierError,
) -> bool {
    if !spec_has_col(cols, idc) {
        e matches ClassifierError::ColumnNotFound { column } && column@ == idc
    } else if !spec_has_col(cols, lonc) {
        e matches ClassifierError::ColumnNotFound { column } && column@ == lonc
    } else if !spec_has_col(cols, latc) {
        e matches ClassifierError::ColumnNotFound { column } && column@ == latc
    } else if !(spec_col_of(cols, lonc).data is Real) {
        e matches ClassifierError::SchemaValidation { message } && message@
            == "Longitude column must contain numeric data"@
    } else if !(spec_col_of(cols, latc).data is Real) {
        e matches ClassifierError::SchemaValidation { message } && message@
            == "Latitude column must contain numeric data"@
    } else if !spec_ids_ok(cols, idc) {
        e matches ClassifierError::SchemaValidation { message } && message@
            == "Station ID column must contain string data"@
    } else if !spec_col_full(cols, lonc) {
        e matches ClassifierError::SchemaValidation { message } && message@
            == "Found null value in longitude column"@
    } else if !spec_col_full(cols, latc) {
        e matches ClassifierError::SchemaValidation { message } && message@
            == "Found null value in latitude column"@
    } else {
        exists|i: int|
            #![auto]
            {
                &&& 0 <= i < spec_num_rows(cols)
                &&& !cls.spec_record_ok(spec_reals(cols, lonc)[i], spec_reals(cols, latc)[i])
                &&& forall|j: int|
                    0 <= j < i ==> cls.spec_record_ok(
                        spec_reals(cols, lonc)[j],
                        spec_reals(cols, latc)[j],
                    )
                &&& spec_record_error(
                    cls,
                    spec_reals(cols, lonc)[i],
                    spec_reals(cols, latc)[i],
                    spec_ids(cols, idc)[i],
                    e,
                )
            }
    }
}

impl UrbanClassifier {
    /// Construct a classifier from an opened raster source: the band
    /// count of the source, its geotransform and its first band. Rejects
    /// a source without bands, then an invalid geotransform.
    pub fn new(band_count: usize, geo_transform: GeoTransform, band: RasterGrid) -> (r: Result<
        UrbanClassifier,
        ClassifierError,
    >)
        requires
            band.wf(),
        ensures
            r is Ok <==> band_count >= 1 && spec_valid_geo_transform(geo_transform),
            r matches Ok(cls) ==> cls == (UrbanClassifier { gt: geo_transform, band })
                && cls.wf(),
            r matches Err(e) ==> (e matches ClassifierError::GdalError { message } && ((band_count
                == 0 && message@ == "GeoTIFF file contains no raster bands"@) || (band_count >= 1
                && !spec_valid_geo_transform(geo_transform) && message@
                == "Invalid geotransform: zero pixel size"@))),
    {
        if band_count == 0 {
            return Err(
                ClassifierError::GdalError {
                    message: "GeoTIFF file contains no raster bands".to_owned(),
                },
            );
        }
        match validate_geo_transform(&geo_transform) {
            Err(e) => Err(e),
            Ok(()) => Ok(UrbanClassifier { gt: geo_transform, band }),
        }
    }

    /// Confirm the three required columns exist by name and that the
    /// coordinate columns are fixed-point columns. Checked before any
    /// raster access.
    fn validate_dataframe_schema(&self, df: &Table, idc: &str, lonc: &str, latc: &str) -> (r:
        Result<(), ClassifierError>)
        requires
            df.wf(),
        ensures
            r is Ok <==> spec_schema_ok(df.model(), idc@, lonc@, latc@),
            r matches Err(e) ==> spec_run_error(*self, df.model(), idc@, lonc@, latc@, e),
    {
        if !df.has_column(idc) {
            return Err(ClassifierError::ColumnNotFound { column: idc.to_owned() });
        }
        if !df.has_column(lonc) {
            return Err(ClassifierError::ColumnNotFound { column: lonc.to_owned() });
        }
        if !df.has_column(latc) {
            return Err(ClassifierError::ColumnNotFound { column: latc.to_owned() });
        }
        let lon_col = match df.get_column(lonc) {
            Some(c) => c,
            None => {
                return Err(ClassifierError::ColumnNotFound { column: lonc.to_owned() });
            },
        };
        if !matches!(lon_col.data, ColumnData::Real(_)) {
            return Err(
                ClassifierError::SchemaValidation {
                    message: "Longitude column must contain numeric data".to_owned(),
                },
            );
        }
        let lat_col = match df.get_column(latc) {
            Some(c) => c,
            None => {
                return Err(ClassifierError::ColumnNotFound { column: latc.to_owned() });
            },
        };
        if !matches!(lat_col.data, ColumnData::Real(_)) {
            return Err(
                ClassifierError::SchemaValidation {
                    message: "Latitude column must contain numeric data".to_owned(),
                },
            );
        }
        Ok(())
    }

    /// Pull the station identities and coordinates out of the table:
    /// identities with nulls read as "unknown", coordinates rejected on
    /// the first null cell, longitude before latitude.
    fn extract_coordinates(&self, df: &Table, idc: &str, lonc: &str, latc: &str) -> (r: Result<
        (Vec<String>, Vec<i64>, Vec<i64>),
        ClassifierError,
    >)
        requires
            df.wf(),
            spec_schema_ok(df.model(), idc@, lonc@, latc@),
        ensures
            r matches Ok(t) ==> ({
                &&& spec_ids_ok(df.model(), idc@)
                &&& spec_col_full(df.model(), lonc@)
                &&& spec_col_full(df.model(), latc@)
                &&& t.0.deep_view() == spec_ids(df.model(), idc@)
                &&& t.1@ == spec_reals(df.model(), lonc@)
                &&& t.2@ == spec_reals(df.model(), latc@)
                &&& t.0@.len() == spec_num_rows(df.model())
                &&& t.1@.len() == spec_num_rows(df.model())
                &&& t.2@.len() == spec_num_rows(df.model())
            }),
            r matches Err(e) ==> spec_run_error(*self, df.model(), idc@, lonc@, latc@, e),
    {
        let ghost cols = df.model();
        let id_col = match df.get_column(idc) {
            Some(c) => c,
            None => {
                return Err(
                    ClassifierError::SchemaValidation {
                        message: "Station ID column must contain string data".to_owned(),
                    },
                );
            },
        };
        let station_ids: Vec<String> = match &id_col.data {
            ColumnData::Utf8(cells) => {
                let n = cells.len();
                let mut out: Vec<String> = Vec::new();
                let mut i: usize = 0;
                while i < n
                    invariant
                        i <= n,
                        n == cells@.len(),
                        out@.len() == i,
                        cols == df.model(),
                        cells.deep_view() == spec_id_cells(cols, idc@),
                        forall|j: int| 0 <= j < i ==> out@[j]@ == spec_ids(cols, idc@)[j],
                    decreases n - i,
                {
                    proof {
                        assert(cells.deep_view()[i as int] == cells@[i as int].deep_view());
                    }
                    match &cells[i] {
                        Some(s) => {
                            let c = s.clone();
                            out.push(c);
                            proof {
                                assert(spec_id_cells(cols, idc@)[i as int] matches Some(v) && v
                                    == s@);
                                assert(out@[i as int]@ == spec_ids(cols, idc@)[i as int]);
                            }
                        },
                        None => {
                            out.push("unknown".to_owned());
                            proof {
                                assert(spec_id_cells(cols, idc@)[i as int] is None);
                                assert(out@[i as int]@ == spec_ids(cols, idc@)[i as int]);
                            }
                        },
                    }
                    i += 1;
                }
                proof {
                    assert forall|j: int| 0 <= j < out@.len() implies out.deep_view()[j]
                        == spec_ids(cols, idc@)[j] by {
                        assert(out.deep_view()[j] == out@[j]@);
                    }
                    assert(out.deep_view() =~= spec_ids(cols, idc@));
                }
                out
            },
            _ => {
                return Err(
                    ClassifierError::SchemaValidation {
                        message: "Station ID column must contain string data".to_owned(),
                    },
                );
            },
        };
        let lon_values: Vec<i64> = match self.extract_full_reals(
            df,
            lonc,
            "Found null value in longitude column",
        ) {
            Ok(v) => v,
            Err(e) => {
                return Err(e);
            },
        };
        let lat_values: Vec<i64> = match self.extract_full_reals(
            df,
            latc,
            "Found null value in latitude column",
        ) {
            Ok(v) => v,
            Err(e) => {
                return Err(e);
            },
        };
        Ok((station_ids, lon_values, lat_values))
    }

    /// Pull a fixed-point column out whole, failing with the given
    /// message on the first null cell.
    fn extract_full_reals(&self, df: &Table, name: &str, null_message: &str) -> (r: Result<
        Vec<i64>,
        ClassifierError,
    >)
        requires
            df.wf(),
            spec_has_col(df.model(), name@),
            spec_col_of(df.model(), name@).data is Real,
        ensures
            r matches Ok(v) ==> spec_col_full(df.model(), name@) && v@ == spec_reals(
                df.model(),
                name@,
            ) && v@.len() == spec_real_cells(df.model(), name@).len(),
            r matches Err(e) ==> !spec_col_full(df.model(), name@) && (e
                matches ClassifierError::SchemaValidation { message } && message@
                == null_message@),
    {
        let ghost cols = df.model();
        let col = match df.get_column(name) {
            Some(c) => c,
            None => {
                return Err(
                    ClassifierError::SchemaValidation { message: null_message.to_owned() },
                );
            },
        };
        match &col.data {
            ColumnData::Real(cells) => {
                let n = cells.len();
                let mut out: Vec<i64> = Vec::new();
                let mut i: usize = 0;
                while i < n
                    invariant
                        i <= n,
                        n == cells@.len(),
                        out@.len() == i,
                        cols == df.model(),
                        cells@ == spec_real_cells(cols, name@),
                        forall|j: int| 0 <= j < i ==> cells@[j] is Some,
                        forall|j: int| 0 <= j < i ==> out@[j] == spec_reals(cols, name@)[j],
                    decreases n - i,
                {
                    match cells[i] {
                        Some(x) => {
                            out.push(x);
                        },
                        None => {
                            proof {
                                assert(spec_real_cells(cols, name@)[i as int] is None);
                                assert(!spec_col_full(cols, name@));
                            }
                            return Err(
                                ClassifierError::SchemaValidation {
                                    message: null_message.to_owned(),
                                },
                            );
                        },
                    }
                    i += 1;
                }
                proof {
                    assert(out@ =~= spec_reals(cols, name@));
                }
                Ok(out)
            },
            _ => {
                proof {
                    assert(false);
                }
                Err(ClassifierError::SchemaValidation { message: null_message.to_owned() })
            },
        }
    }

    /// Classify one record: validate its coordinate, index the raster
    /// through the inverse geotransform, and sample the band. The raster
    /// is addressed in the same geographic micro-degrees as the input, so
    /// the coordinate feeds the inverse geotransform directly. A failure
    /// names the offending station.
    fn sample_record(&self, lon: i64, lat: i64, station_id: &String) -> (r: Result<
        u8,
        ClassifierError,
    >)
        requires
            self.wf(),
        ensures
            match r {
                Ok(code) => self.spec_record_ok(lon, lat) && code == self.spec_code_at(lon, lat),
                Err(e) => !self.spec_record_ok(lon, lat) && spec_record_error(
                    *self,
                    lon,
                    lat,
                    station_id@,
                    e,
                ),
            },
    {
        if !validate_coordinate(lon, lat) {
            return Err(ClassifierError::InvalidCoordinate { lon, lat });
        }
        let pl = geo_to_pixel(lon, lat, &self.gt);
        match sample_raster_value(&self.band, pl.0, pl.1) {
            Ok(code) => Ok(code),
            Err(_) => Err(
                ClassifierError::RasterSampling {
                    pixel: pl.0,
                    line: pl.1,
                    message: "Failed to sample raster for station ".to_owned().concat(
                        station_id.as_str(),
                    ),
                },
            ),
        }
    }

    /// Replace the sampled code of every station whose identity the
    /// override map holds; all other records are untouched.
    fn apply_overrides(
        &self,
        lcz_codes: &mut Vec<u8>,
        station_ids: &Vec<String>,
        overrides: &OverrideMap,
    )
        requires
            old(lcz_codes)@.len() == station_ids@.len(),
        ensures
            final(lcz_codes)@.len() == old(lcz_codes)@.len(),
            forall|i: int|
                0 <= i < old(lcz_codes)@.len() ==> final(lcz_codes)@[i] == (
                if overrides@.dom().contains(station_ids@[i]@) {
                    overrides@[station_ids@[i]@]
                } else {
                    old(lcz_codes)@[i]
                }),
    {
        let n = station_ids.len();
        let mut i: usize = 0;
        while i < n
            invariant
                i <= n,
                n == station_ids@.len(),
                lcz_codes@.len() == n,
                forall|j: int|
                    0 <= j < i ==> lcz_codes@[j] == (if overrides@.dom().contains(
                        station_ids@[j]@,
                    ) {
                        overrides@[station_ids@[j]@]
                    } else {
                        old(lcz_codes)@[j]
                    }),
                forall|j: int| i <= j < n ==> lcz_codes@[j] == old(lcz_codes)@[j],
            decreases n - i,
        {
            match overrides.get(station_ids[i].as_str()) {
                Some(code) => {
                    lcz_codes.set(i, code);
                },
                None => {},
            }
            i += 1;
        }
    }

    /// Build the three derived columns from the final codes: the numeric
    /// code, the display name, and the simplified category of each record.
    fn create_lcz_columns(&self, lcz_codes: &Vec<u8>) -> (r: (Column, Column, Column))
        ensures
            r.0.model() == spec_code_column(lcz_codes@),
            r.1.model() == spec_name_column(lcz_codes@),
            r.2.model() == spec_class_column(lcz_codes@),
    {
        let n = lcz_codes.len();
        let mut codes_u32: Vec<u32> = Vec::new();
        let mut names: Vec<Option<String>> = Vec::new();
        let mut classes: Vec<Option<String>> = Vec::new();
        let mut i: usize = 0;
        while i < n
            invariant
                i <= n,
                n == lcz_codes@.len(),
                codes_u32@.len() == i,
                names@.len() == i,
                classes@.len() == i,
                forall|j: int| 0 <= j < i ==> codes_u32@[j] == lcz_codes@[j] as u32,
                forall|j: int|
                    0 <= j < i ==> #[trigger] names@[j].deep_view() == Some(
                        Lcz::spec_from_code(lcz_codes@[j]).spec_full_name(),
                    ),
                forall|j: int|
                    0 <= j < i ==> #[trigger] classes@[j].deep_view() == Some(
                        Lcz::spec_from_code(lcz_codes@[j]).spec_simple_category().spec_as_ref(),
                    ),
            decreases n - i,
        {
            let code = lcz_codes[i];
            let lcz = Lcz::from_code(code);
            codes_u32.push(code as u32);
            names.push(Some(lcz.full_name().to_owned()));
            classes.push(Some(lcz.simple_category().as_ref().to_owned()));
            i += 1;
        }
        let code_col = Column { name: "lcz_code".to_owned(), data: ColumnData::Code(codes_u32) };
        let name_col = Column { name: "lcz_name".to_owned(), data: ColumnData::Utf8(names) };
        let class_col = Column { name: "simple_class".to_owned(), data: ColumnData::Utf8(classes) };
        proof {
            assert forall|j: int| 0 <= j < n implies names.deep_view()[j] == Some(
                Lcz::spec_from_code(lcz_codes@[j]).spec_full_name(),
            ) by {
                assert(names.deep_view()[j] == names@[j].deep_view());
            }
            assert forall|j: int| 0 <= j < n implies classes.deep_view()[j] == Some(
                Lcz::spec_from_code(lcz_codes@[j]).spec_simple_category().spec_as_ref(),
            ) by {
                assert(classes.deep_view()[j] == classes@[j].deep_view());
            }
            assert(code_col.model().data->Code_0 =~= spec_code_column(lcz_codes@).data->Code_0);
            assert(name_col.model().data->Utf8_0 =~= spec_name_column(lcz_codes@).data->Utf8_0);
            assert(class_col.model().data->Utf8_0 =~= spec_class_column(lcz_codes@).data->Utf8_0);
            assert(code_col.model() == spec_code_column(lcz_codes@));
            assert(name_col.model() == spec_name_column(lcz_codes@));
            assert(class_col.model() == spec_class_column(lcz_codes@));
        }
        (code_col, name_col, class_col)
    }

    /// Run LCZ classification on a table of station records.
    ///
    /// Validates the schema before any raster access, then samples the
    /// raster per record in input order, aborting the whole run on the
    /// first record that fails; applies the caller's overrides strictly
    /// after sampling, so an override always wins over raster data; and
    /// returns a new table holding the original columns unchanged plus
    /// `lcz_code`, `lcz_name` and `simple_class`, in the original row
    /// order. The caller's table is never mutated.
    pub fn run_classification(
        &self,
        stations_df: &Table,
        station_id_col: &str,
        lon_col: &str,
        lat_col: &str,
        overrides: Option<&OverrideMap>,
    ) -> (r: Result<Table, ClassifierError>)
        requires
            self.wf(),
            stations_df.wf(),
        ensures
            r is Ok <==> spec_run_ok(
                *self,
                stations_df.model(),
                station_id_col@,
                lon_col@,
                lat_col@,
            ),
            r matches Ok(out) ==> out.wf() && out.model() == spec_result_cols(
                *self,
                stations_df.model(),
                station_id_col@,
                lon_col@,
                lat_col@,
                spec_override_map(overrides),
            ),
            r matches Err(e) ==> spec_run_error(
                *self,
                stations_df.model(),
                station_id_col@,
                lon_col@,
                lat_col@,
                e,
            ),
    {
        let ghost cols = stations_df.model();
        match self.validate_dataframe_schema(stations_df, station_id_col, lon_col, lat_col) {
            Ok(()) => {},
            Err(e) => {
                return Err(e);
            },
        }
        let extracted = match self.extract_coordinates(
            stations_df,
            station_id_col,
            lon_col,
            lat_col,
        ) {
            Ok(t) => t,
            Err(e) => {
                return Err(e);
            },
        };
        let (station_ids, lons, lats) = extracted;
        let n = station_ids.len();
        let mut lcz_codes: Vec<u8> = Vec::new();
        let mut i: usize = 0;
        while i < n
            invariant
                i <= n,
                self.wf(),
                cols == stations_df.model(),
                spec_input_ok(cols, station_id_col@, lon_col@, lat_col@),
                n == spec_num_rows(cols),
                n == station_ids@.len(),
                lons@.len() == n,
                lats@.len() == n,
                station_ids.deep_view() == spec_ids(cols, station_id_col@),
                lons@ == spec_reals(cols, lon_col@),
                lats@ == spec_reals(cols, lat_col@),
                lcz_codes@.len() == i,
                forall|j: int| 0 <= j < i ==> #[trigger] self.spec_record_ok(lons@[j], lats@[j]),
                forall|j: int|
                    0 <= j < i ==> lcz_codes@[j] == #[trigger] self.spec_code_at(
                        lons@[j],
                        lats@[j],
                    ),
            decreases n - i,
        {
            match self.sample_record(lons[i], lats[i], &station_ids[i]) {
                Ok(code) => {
                    lcz_codes.push(code);
                    proof {
                        let k = i as int;
                        assert(self.spec_record_ok(lons@[k], lats@[k]));
                        assert(lcz_codes@[k] == self.spec_code_at(lons@[k], lats@[k]));
                    }
                },
                Err(e) => {
                    proof {
                        let k = i as int;
                        assert(spec_reals(cols, lon_col@)[k] == lons@[k]);
                        assert(spec_reals(cols, lat_col@)[k] == lats@[k]);
                        assert(!self.spec_record_ok(
                            spec_reals(cols, lon_col@)[k],
                            spec_reals(cols, lat_col@)[k],
                        ));
                        assert forall|j: int| 0 <= j < k implies self.spec_record_ok(
                            spec_reals(cols, lon_col@)[j],
                            spec_reals(cols, lat_col@)[j],
                        ) by {
                            assert(spec_reals(cols, lon_col@)[j] == lons@[j]);
                            assert(spec_reals(cols, lat_col@)[j] == lats@[j]);
                            assert(self.spec_record_ok(lons@[j], lats@[j]));
                        }
                        assert(station_ids.deep_view()[k] == station_ids@[k]@);
                        assert(spec_ids(cols, station_id_col@)[k] == station_ids@[k]@);
                        assert(spec_record_error(
                            *self,
                            spec_reals(cols, lon_col@)[k],
                            spec_reals(cols, lat_col@)[k],
                            spec_ids(cols, station_id_col@)[k],
                            e,
                        ));
                        assert(spec_run_error(
                            *self,
                            cols,
                            station_id_col@,
                            lon_col@,
                            lat_col@,
                            e,
                        ));
                    }
                    return Err(e);
                },
            }
            i += 1;
        }
        match overrides {
            Some(ov) => {
                self.apply_overrides(&mut lcz_codes, &station_ids, ov);
            },
            None => {},
        }
        let ghost ovm = spec_override_map(overrides);
        proof {
            assert forall|j: int| 0 <= j < n implies lcz_codes@[j] == spec_final_code(
                *self,
                cols,
                station_id_col@,
                lon_col@,
                lat_col@,
                ovm,
                j,
            ) by {
                assert(station_ids@[j]@ == spec_ids(cols, station_id_col@)[j]);
            }
            assert(lcz_codes@ =~= spec_final_codes(
                *self,
                cols,
                station_id_col@,
                lon_col@,
                lat_col@,
                ovm,
            ));
        }
        let columns3 = self.create_lcz_columns(&lcz_codes);
        let (code_col, name_col, class_col) = columns3;
        let mut result_df = stations_df.duplicate();
        proof {
            assert(result_df.model().len() > 0);
            assert(spec_num_rows(result_df.model()) == n);
        }
        result_df.with_column(code_col);
        proof {
            assert(result_df.model().len() > 0);
            assert(spec_num_rows(result_df.model()) == n);
        }
        result_df.with_column(name_col);
        proof {
            assert(result_df.model().len() > 0);
            assert(spec_num_rows(result_df.model()) == n);
        }
        result_df.with_column(class_col);
        proof {
            assert forall|j: int| 0 <= j < spec_num_rows(cols) implies self.spec_record_ok(
                spec_reals(cols, lon_col@)[j],
                spec_reals(cols, lat_col@)[j],
            ) by {
                assert(spec_reals(cols, lon_col@)[j] == lons@[j]);
                assert(spec_reals(cols, lat_col@)[j] == lats@[j]);
                assert(self.spec_record_ok(lons@[j], lats@[j]));
            }
            assert(spec_run_ok(*self, cols, station_id_col@, lon_col@, lat_col@));
        }
        Ok(result_df)
    }
}

} // verus!

