use eo_identifiers::input::Input;
use eo_identifiers::calendar::{Date, DateTime, Time};
use eo_identifiers::identifiers::sentinel2::{
    parse_mission_id, parse_processing_baseline_number, parse_product, parse_product_level,
    parse_relative_orbit_number, parse_tile_number, MissionId, Product, ProductLevel,
};
use eo_identifiers::{Mission, ParseError};
use std::str::FromStr;

#[test]
fn parse_s2_product() {
    let (_, product) =
        parse_product("S2A_MSIL1C_20170105T013442_N0204_R031_T53NMJ_20170105T013443.SAFE")
            .unwrap();
    assert_eq!(product.mission_id, MissionId::S2A);
    assert_eq!(product.product_level, ProductLevel::L1C);
    // timestamp omitted
    assert_eq!(product.pdgs_baseline_number, (2, 4));
    assert_eq!(product.relative_orbit_number, 31);
    assert_eq!(product.tile_number.as_str(), "53NMJ");
    assert_eq!(product.product_discriminator.as_str(), "20170105T013443");
}

#[test]
fn test_from_str() {
    assert!(
        Product::from_str("S2A_MSIL1C_20170105T013442_N0204_R031_T53NMJ_20170105T013443")
            .is_ok()
    );
}

#[test]
fn s2_product_with_every_field() {
    let (rest, product) =
        parse_product("s2b_msil2a_20170105t013442_n0204_r143_t53nmj_20170105t013443.SAFE")
            .unwrap();
    assert_eq!(rest, ".SAFE");
    assert_eq!(
        product,
        Product {
            mission_id: MissionId::S2B,
            product_level: ProductLevel::L2A,
            start_datetime: DateTime {
                date: Date { year: 2017, month: 1, day: 5 },
                time: Time { hour: 1, minute: 34, second: 42 },
            },
            pdgs_baseline_number: (2, 4),
            relative_orbit_number: 143,
            tile_number: "53NMJ".to_string(),
            product_discriminator: "20170105T013443".to_string(),
        }
    );
    assert_eq!(product.clone(), product);
}

#[test]
fn s2_product_errors() {
    assert_eq!(parse_product("").unwrap_err(), ParseError::FailedAtPosition(0));
    assert_eq!(parse_product("S2C_").unwrap_err(), ParseError::FailedAtPosition(0));
    assert_eq!(parse_product("S2A-MSIL1C").unwrap_err(), ParseError::FailedAtPosition(3));
    assert_eq!(parse_product("S2A_OLIL1C").unwrap_err(), ParseError::FailedAtPosition(4));
    assert_eq!(parse_product("S2A_MSIL1B").unwrap_err(), ParseError::FailedAtPosition(7));
    assert_eq!(
        parse_product("S2A_MSIL1C_20170105T013442_N0204_R000_T53NMJ_20170105T013443")
            .unwrap_err(),
        ParseError::FailedAtPosition(34)
    );
    assert_eq!(
        parse_product("S2A_MSIL1C_20170105T013442_N0204_R144_T53NMJ_20170105T013443")
            .unwrap_err(),
        ParseError::FailedAtPosition(34)
    );
    assert_eq!(
        parse_product("S2A_MSIL1C_20170105T013442_N0204_R999_T53NMJ_20170105T013443")
            .unwrap_err(),
        ParseError::FailedAtPosition(34)
    );
    assert_eq!(
        parse_product("S2A_MSIL1C_20170105T013442_N0204_R031_T53NMJ_20170105T01344")
            .unwrap_err(),
        ParseError::FailedAtPosition(45)
    );
    assert_eq!(
        parse_product("S2A_MSIL1C_20170105T013442_N0204_R031_T53NM_20170105T013443")
            .unwrap_err(),
        ParseError::FailedAtPosition(39)
    );
}

#[test]
fn s2_fields() {
    assert_eq!(parse_mission_id(&Input::new("S2A"), 0), Ok((MissionId::S2A, 3)));
    assert_eq!(parse_mission_id(&Input::new("s2b"), 0), Ok((MissionId::S2B, 3)));
    assert_eq!(parse_mission_id(&Input::new("S3A"), 0), Err(ParseError::FailedAtPosition(0)));
    assert_eq!(parse_product_level(&Input::new("L1C"), 0), Ok((ProductLevel::L1C, 3)));
    assert_eq!(parse_product_level(&Input::new("xl2a"), 1), Ok((ProductLevel::L2A, 4)));
    assert_eq!(parse_product_level(&Input::new("L3A"), 0), Err(ParseError::FailedAtPosition(0)));
    assert_eq!(parse_processing_baseline_number(&Input::new("N0204"), 0), Ok(((2, 4), 5)));
    assert_eq!(parse_processing_baseline_number(&Input::new("n9900"), 0), Ok(((99, 0), 5)));
    assert_eq!(
        parse_processing_baseline_number(&Input::new("N02x4"), 0),
        Err(ParseError::FailedAtPosition(3))
    );
    assert_eq!(parse_processing_baseline_number(&Input::new("M0204"), 0), Err(ParseError::FailedAtPosition(0)));
    assert_eq!(parse_relative_orbit_number(&Input::new("R001"), 0), Ok((1, 4)));
    assert_eq!(parse_relative_orbit_number(&Input::new("r143"), 0), Ok((143, 4)));
    assert_eq!(parse_relative_orbit_number(&Input::new("R256"), 0), Err(ParseError::FailedAtPosition(1)));
    assert_eq!(parse_tile_number(&Input::new("t53nmj"), 0), Ok(("53NMJ".to_string(), 6)));
    assert_eq!(parse_tile_number(&Input::new("T53N"), 0), Err(ParseError::FailedAtPosition(1)));
    assert_eq!(Mission::from(MissionId::S2A), Mission::Sentinel2);
    assert_eq!(Mission::from(MissionId::S2B), Mission::Sentinel2);
}

#[test]
fn sentinel2_apply_to_product_testdata() {
    let samples = [
        "S2A_MSIL1C_20170105T013442_N0204_R031_T53NMJ_20170105T013443",
        "S2A_MSIL1C_20170105T013442_N0204_R031_T53NMJ_20170105T013443.SAFE",
        "S2B_MSIL2A_20190716T105629_N0213_R094_T31UFS_20190716T141912",
        "S2A_MSIL2A_20220101T101421_N0301_R022_T32TQM_20220101T133642.zip",
        "S2B_MSIL1C_20211231T235959_N0400_R143_T01CCV_20220101T000000",
    ];
    for s in samples {
        parse_product(s).unwrap();
    }
}
