use urban_classifier::Lcz;
use urban_classifier::{
    ClassifierError, Column, ColumnData, GeoTransform, OverrideMap, RasterGrid, Table,
    UrbanClassifier,
};

/// Micro-units per degree: the library's fixed-point scale.
const MICRO: f64 = 1_000_000.0;

fn micro(degrees: f64) -> i64 {
    (degrees * MICRO).round() as i64
}

fn str_col(name: &str, values: &[&str]) -> Column {
    Column {
        name: name.to_string(),
        data: ColumnData::Utf8(values.iter().map(|s| Some(s.to_string())).collect()),
    }
}

fn real_col(name: &str, values: &[f64]) -> Column {
    Column {
        name: name.to_string(),
        data: ColumnData::Real(values.iter().map(|&v| Some(micro(v))).collect()),
    }
}

fn stations(ids: &[&str], lons: &[f64], lats: &[f64]) -> Table {
    let mut t = Table::new();
    t.with_column(str_col("station_id", ids));
    t.with_column(real_col("longitude", lons));
    t.with_column(real_col("latitude", lats));
    t
}

/// A 10x10 one-degree raster with origin (0, 10): longitudes 0..10 map to
/// pixels 0..9 and latitudes 10..0 map to lines 0..9. Its first row holds
/// `row0` and every other cell holds 14 ("Low plants").
fn classifier_with_row0(row0: &[u8]) -> UrbanClassifier {
    let mut data = vec![14u8; 100];
    data[..row0.len()].copy_from_slice(row0);
    let band = RasterGrid::new(10, 10, data).unwrap();
    let gt = GeoTransform {
        origin_x: 0,
        pixel_width: micro(1.0),
        x_skew: 0,
        origin_y: micro(10.0),
        y_skew: 0,
        pixel_height: micro(-1.0),
    };
    UrbanClassifier::new(1, gt, band).unwrap()
}

/// A whole-globe one-degree raster filled with one code.
fn world_classifier(code: u8) -> UrbanClassifier {
    let band = RasterGrid::new(360, 180, vec![code; 360 * 180]).unwrap();
    let gt = GeoTransform {
        origin_x: micro(-180.0),
        pixel_width: micro(1.0),
        x_skew: 0,
        origin_y: micro(90.0),
        y_skew: 0,
        pixel_height: micro(-1.0),
    };
    UrbanClassifier::new(1, gt, band).unwrap()
}

fn code_values(t: &Table, name: &str) -> Vec<u32> {
    match &t.get_column(name).unwrap().data {
        ColumnData::Code(v) => v.clone(),
        _ => panic!("column {} is not a code column", name),
    }
}

fn str_values(t: &Table, name: &str) -> Vec<String> {
    match &t.get_column(name).unwrap().data {
        ColumnData::Utf8(v) => v.iter().map(|o| o.clone().unwrap()).collect(),
        _ => panic!("column {} is not a string column", name),
    }
}

#[test]
fn test_dataframe_creation() {
    // Test creating a valid table for classification
    let mut df = stations(
        &["STATION_001", "STATION_002", "STATION_003"],
        &[-0.1278, 2.3522, 13.4050],
        &[51.5074, 48.8566, 52.5200],
    );
    df.with_column(real_col("elevation", &[35.0, 35.0, 34.0]));

    // Verify table structure
    assert_eq!(df.num_rows(), 3);
    assert_eq!(df.columns.len(), 4);
    assert!(df.has_column("station_id"));
    assert!(df.has_column("longitude"));
    assert!(df.has_column("latitude"));

    // Test coordinate extraction
    let lon_values: Vec<i64> = match &df.get_column("longitude").unwrap().data {
        ColumnData::Real(v) => v.iter().map(|o| o.unwrap_or(0)).collect(),
        _ => panic!("longitude is not a coordinate column"),
    };
    assert_eq!(lon_values, vec![-127_800, 2_352_200, 13_405_000]);
}

#[test]
fn test_dataframe_validation() {
    let classifier = world_classifier(5);

    // A complete table passes validation and classifies
    let df = stations(&["A", "B", "C"], &[1.0, 2.0, 3.0], &[50.0, 51.0, 52.0]);
    let result = classifier.run_classification(&df, "station_id", "longitude", "latitude", None);
    assert!(result.is_ok());

    // A table missing the latitude column is rejected before any raster access
    let mut df_missing = Table::new();
    df_missing.with_column(str_col("station_id", &["A", "B", "C"]));
    df_missing.with_column(real_col("longitude", &[1.0, 2.0, 3.0]));
    let result =
        classifier.run_classification(&df_missing, "station_id", "longitude", "latitude", None);
    match result {
        Err(ClassifierError::ColumnNotFound { column }) => assert_eq!(column, "latitude"),
        other => panic!("expected a missing-column error, got {:?}", other.map(|_| ())),
    }
}

#[test]
fn test_invalid_coordinates() {
    // Test coordinate validation logic
    let invalid_coords = vec![
        (-181.0, 0.0),  // Longitude too low
        (181.0, 0.0),   // Longitude too high
        (0.0, -91.0),   // Latitude too low
        (0.0, 91.0),    // Latitude too high
    ];

    for (lon, lat) in invalid_coords {
        assert!(
            !urban_classifier::spatial::validate_coordinate(micro(lon), micro(lat)),
            "Coordinate ({}, {}) should be invalid",
            lon,
            lat
        );
    }
    assert!(urban_classifier::spatial::validate_coordinate(0, 0));
    assert!(urban_classifier::spatial::validate_coordinate(micro(45.0), micro(-45.0)));
}

#[test]
fn test_override_logic() {
    // Test override application logic
    let mut lcz_codes = vec![1, 2, 3, 4, 5];
    let station_ids = vec![
        "A".to_string(),
        "B".to_string(),
        "C".to_string(),
        "D".to_string(),
        "E".to_string(),
    ];

    let mut overrides = OverrideMap::new();
    overrides.insert("B".to_string(), 11);
    overrides.insert("D".to_string(), 17);

    // Apply overrides manually (simulating the classifier logic)
    for (i, station_id) in station_ids.iter().enumerate() {
        if let Some(override_code) = overrides.get(station_id) {
            lcz_codes[i] = override_code;
        }
    }

    assert_eq!(lcz_codes, vec![1, 11, 3, 17, 5]);
}

#[test]
fn test_polars_series_creation() {
    // Classify five records whose samples hit the codes 1, 2, 3, 11, 17
    let classifier = classifier_with_row0(&[1, 2, 3, 11, 17]);
    let df = stations(
        &["S1", "S2", "S3", "S4", "S5"],
        &[0.5, 1.5, 2.5, 3.5, 4.5],
        &[9.5, 9.5, 9.5, 9.5, 9.5],
    );
    let result = classifier
        .run_classification(&df, "station_id", "longitude", "latitude", None)
        .unwrap();

    let lcz_code_values = code_values(&result, "lcz_code");
    assert_eq!(lcz_code_values.len(), 5);
    assert_eq!(lcz_code_values, vec![1, 2, 3, 11, 17]);

    let lcz_names = str_values(&result, "lcz_name");
    assert_eq!(lcz_names.len(), 5);

    let simple_classes = str_values(&result, "simple_class");
    assert_eq!(simple_classes.len(), 5);

    // Verify expected values
    let expected_names =
        vec!["Compact high-rise", "Compact midrise", "Compact low-rise", "Dense trees", "Water"];
    for (expected, actual) in expected_names.iter().zip(lcz_names.iter()) {
        assert_eq!(*expected, actual);
    }
    assert_eq!(simple_classes, vec!["Urban", "Urban", "Urban", "Rural", "Rural"]);
}

/// Test creation of LCZ result columns
#[test]
fn test_lcz_column_creation() {
    let lcz_codes = [1, 2, 3, 11, 17];

    // Test LCZ conversion
    let lcz_types: Vec<Lcz> = lcz_codes.iter().map(|&code| Lcz::from_code(code)).collect();
    assert_eq!(lcz_types[0], Lcz::CompactHighRise);
    assert_eq!(lcz_types[1], Lcz::CompactMidRise);
    assert_eq!(lcz_types[4], Lcz::Water);

    // Test names and categories
    assert_eq!(Lcz::from_code(1).full_name(), "Compact high-rise");
    assert_eq!(Lcz::from_code(11).simple_category().as_ref(), "Rural");
}

/// A full run on a 2-row table produces exactly the original columns plus
/// lcz_code, lcz_name and simple_class, in original row order.
#[test]
fn test_full_run_two_rows() {
    let classifier = classifier_with_row0(&[3, 3, 8]);
    let mut df = stations(&["N1", "N2"], &[0.5, 2.5], &[9.5, 9.5]);
    df.with_column(real_col("elevation", &[12.0, 40.0]));

    let result = classifier
        .run_classification(&df, "station_id", "longitude", "latitude", None)
        .unwrap();

    let names: Vec<String> = result.columns.iter().map(|c| c.name.clone()).collect();
    assert_eq!(
        names,
        vec!["station_id", "longitude", "latitude", "elevation", "lcz_code", "lcz_name", "simple_class"]
    );
    assert_eq!(result.num_rows(), 2);

    // The original columns are unchanged, in order
    assert_eq!(str_values(&result, "station_id"), vec!["N1", "N2"]);
    let elevations: Vec<i64> = match &result.get_column("elevation").unwrap().data {
        ColumnData::Real(v) => v.iter().map(|o| o.unwrap()).collect(),
        _ => panic!("elevation is not a coordinate column"),
    };
    assert_eq!(elevations, vec![micro(12.0), micro(40.0)]);

    assert_eq!(code_values(&result, "lcz_code"), vec![3, 8]);
    assert_eq!(str_values(&result, "lcz_name"), vec!["Compact low-rise", "Large low-rise"]);
    assert_eq!(str_values(&result, "simple_class"), vec!["Urban", "Suburban"]);
}

/// Overrides replace sampled codes after sampling; records absent from
/// the map are untouched.
#[test]
fn test_run_with_overrides() {
    let classifier = classifier_with_row0(&[1, 2, 3, 4, 5]);
    let df = stations(
        &["A", "B", "C", "D", "E"],
        &[0.5, 1.5, 2.5, 3.5, 4.5],
        &[9.5, 9.5, 9.5, 9.5, 9.5],
    );
    let mut overrides = OverrideMap::new();
    overrides.insert("B".to_string(), 11);
    overrides.insert("D".to_string(), 17);

    let result = classifier
        .run_classification(&df, "station_id", "longitude", "latitude", Some(&overrides))
        .unwrap();
    assert_eq!(code_values(&result, "lcz_code"), vec![1, 11, 3, 17, 5]);
    assert_eq!(
        str_values(&result, "lcz_name"),
        vec!["Compact high-rise", "Dense trees", "Compact low-rise", "Water", "Open midrise"]
    );
}

/// A source without raster bands and an invalid geotransform are both
/// rejected at construction.
#[test]
fn test_new_rejects_bad_sources() {
    let band = RasterGrid::new(2, 2, vec![1, 2, 3, 4]).unwrap();
    let gt = GeoTransform {
        origin_x: 0,
        pixel_width: micro(1.0),
        x_skew: 0,
        origin_y: micro(2.0),
        y_skew: 0,
        pixel_height: micro(-1.0),
    };
    let no_bands = UrbanClassifier::new(0, gt, band);
    assert!(matches!(no_bands, Err(ClassifierError::GdalError { .. })));

    let band = RasterGrid::new(2, 2, vec![1, 2, 3, 4]).unwrap();
    let zero_width = GeoTransform { pixel_width: 0, ..gt };
    let rejected = UrbanClassifier::new(1, zero_width, band);
    assert!(matches!(rejected, Err(ClassifierError::GdalError { .. })));
}

/// The first record with an out-of-range coordinate aborts the run,
/// carrying the offending coordinate.
#[test]
fn test_invalid_coordinate_aborts_run() {
    let classifier = classifier_with_row0(&[1, 2, 3]);
    let df = stations(&["A", "B"], &[0.5, 181.0], &[9.5, 0.0]);
    let result = classifier.run_classification(&df, "station_id", "longitude", "latitude", None);
    match result {
        Err(ClassifierError::InvalidCoordinate { lon, lat }) => {
            assert_eq!(lon, micro(181.0));
            assert_eq!(lat, 0);
        },
        other => panic!("expected an invalid-coordinate error, got {:?}", other.map(|_| ())),
    }
}

/// A record outside the raster extent aborts the run with the computed
/// pixel indices, and the first failing record wins.
#[test]
fn test_out_of_bounds_sampling_aborts() {
    let classifier = classifier_with_row0(&[1, 2, 3]);
    let df = stations(&["GOOD", "FAR", "FARTHER"], &[0.5, 50.5, 60.5], &[9.5, 9.5, 9.5]);
    let result = classifier.run_classification(&df, "station_id", "longitude", "latitude", None);
    match result {
        Err(ClassifierError::RasterSampling { pixel, line, message }) => {
            assert_eq!(pixel, 50);
            assert_eq!(line, 0);
            assert!(message.contains("FAR"));
        },
        other => panic!("expected a sampling error, got {:?}", other.map(|_| ())),
    }
}

/// A null coordinate cell is rejected during extraction.
#[test]
fn test_null_longitude_rejected() {
    let classifier = classifier_with_row0(&[1]);
    let mut df = Table::new();
    df.with_column(str_col("station_id", &["A", "B"]));
    df.with_column(Column {
        name: "longitude".to_string(),
        data: ColumnData::Real(vec![Some(micro(0.5)), None]),
    });
    df.with_column(real_col("latitude", &[9.5, 9.5]));
    let result = classifier.run_classification(&df, "station_id", "longitude", "latitude", None);
    assert!(matches!(result, Err(ClassifierError::SchemaValidation { .. })));
}

/// Coordinate columns must be fixed-point and the identity column must be
/// a string column.
#[test]
fn test_wrong_column_types_rejected() {
    let classifier = classifier_with_row0(&[1]);

    let mut df = Table::new();
    df.with_column(str_col("station_id", &["A"]));
    df.with_column(str_col("longitude", &["east"]));
    df.with_column(real_col("latitude", &[9.5]));
    let result = classifier.run_classification(&df, "station_id", "longitude", "latitude", None);
    assert!(matches!(result, Err(ClassifierError::SchemaValidation { .. })));

    let mut df = Table::new();
    df.with_column(real_col("station_id", &[1.0]));
    df.with_column(real_col("longitude", &[0.5]));
    df.with_column(real_col("latitude", &[9.5]));
    let result = classifier.run_classification(&df, "station_id", "longitude", "latitude", None);
    assert!(matches!(result, Err(ClassifierError::SchemaValidation { .. })));
}

/// A null station identity reads as "unknown", which an override can key.
#[test]
fn test_null_station_id_reads_unknown() {
    let classifier = classifier_with_row0(&[1, 2]);
    let mut df = Table::new();
    df.with_column(Column {
        name: "station_id".to_string(),
        data: ColumnData::Utf8(vec![Some("A".to_string()), None]),
    });
    df.with_column(real_col("longitude", &[0.5, 1.5]));
    df.with_column(real_col("latitude", &[9.5, 9.5]));

    let mut overrides = OverrideMap::new();
    overrides.insert("unknown".to_string(), 15);
    let result = classifier
        .run_classification(&df, "station_id", "longitude", "latitude", Some(&overrides))
        .unwrap();
    assert_eq!(code_values(&result, "lcz_code"), vec![1, 15]);
}

/// Setting the same identity twice keeps the later code.
#[test]
fn test_override_last_write_wins() {
    let mut overrides = OverrideMap::new();
    overrides.insert("A".to_string(), 3);
    overrides.insert("A".to_string(), 9);
    assert_eq!(overrides.get("A"), Some(9));
    assert_eq!(overrides.get("B"), None);
}

/// Every record bearing an overridden identity is replaced, including
/// duplicates of the same identity.
#[test]
fn test_duplicate_ids_override_all() {
    let classifier = classifier_with_row0(&[1, 2]);
    let df = stations(&["X", "X"], &[0.5, 1.5], &[9.5, 9.5]);
    let mut overrides = OverrideMap::new();
    overrides.insert("X".to_string(), 11);
    let result = classifier
        .run_classification(&df, "station_id", "longitude", "latitude", Some(&overrides))
        .unwrap();
    assert_eq!(code_values(&result, "lcz_code"), vec![11, 11]);
}

/// An input that already carries a derived column has it replaced in
/// place rather than duplicated.
#[test]
fn test_existing_derived_column_replaced() {
    let classifier = classifier_with_row0(&[7]);
    let mut df = stations(&["A"], &[0.5], &[9.5]);
    df.with_column(Column { name: "lcz_code".to_string(), data: ColumnData::Code(vec![99]) });
    assert_eq!(df.columns.len(), 4);

    let result = classifier
        .run_classification(&df, "station_id", "longitude", "latitude", None)
        .unwrap();
    assert_eq!(result.columns.len(), 6);
    assert_eq!(code_values(&result, "lcz_code"), vec![7]);
}

/// A table with no rows classifies to a result with no rows and the three
/// derived columns present.
#[test]
fn test_empty_table_run() {
    let classifier = classifier_with_row0(&[1]);
    let df = stations(&[], &[], &[]);
    let result = classifier
        .run_classification(&df, "station_id", "longitude", "latitude", None)
        .unwrap();
    assert_eq!(result.num_rows(), 0);
    assert_eq!(result.columns.len(), 6);
    assert_eq!(code_values(&result, "lcz_code"), Vec::<u32>::new());
}

/// Unknown raster codes surface as "Unknown" / "Rural" rather than an
/// error.
#[test]
fn test_unknown_raster_code_is_rural() {
    let classifier = classifier_with_row0(&[99]);
    let df = stations(&["A"], &[0.5], &[9.5]);
    let result = classifier
        .run_classification(&df, "station_id", "longitude", "latitude", None)
        .unwrap();
    assert_eq!(code_values(&result, "lcz_code"), vec![99]);
    assert_eq!(str_values(&result, "lcz_name"), vec!["Unknown"]);
    assert_eq!(str_values(&result, "simple_class"), vec!["Rural"]);
}
