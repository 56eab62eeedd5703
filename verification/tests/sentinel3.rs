use eo_identifiers::input::Input;
use eo_identifiers::calendar::{Date, DateTime, Time};
use eo_identifiers::identifiers::sentinel3::{
    parse_collection, parse_data_source, parse_data_type, parse_instance, parse_mission_id,
    parse_platform, parse_processing_level, parse_product, parse_timeliness, DataSource,
    DataType, InstanceId, MissionId, Platform, Product, Timeliness,
};
use eo_identifiers::{Mission, ParseError};
use std::str::FromStr;

fn at(year: i32, month: u32, day: u32, hour: u32, minute: u32, second: u32) -> DateTime {
    DateTime { date: Date { year, month, day }, time: Time { hour, minute, second } }
}

#[test]
fn s3_frame_product() {
    let name = "S3A_OL_1_EFR____20220801T210143_20220801T210443_20220803T023357_0179_088_157_1800_MAR_O_NT_002";
    let (rest, product) = parse_product(name).unwrap();
    assert_eq!(rest, "");
    assert_eq!(
        product,
        Product {
            mission_id: MissionId::S3A,
            data_source: DataSource::OLCI,
            processing_level: Some(1),
            data_type: DataType::EFR,
            start_datetime: at(2022, 8, 1, 21, 1, 43),
            stop_datetime: at(2022, 8, 1, 21, 4, 43),
            product_creation_datetime: at(2022, 8, 3, 2, 33, 57),
            instance_id: InstanceId::Frame {
                duration: 179,
                cycle_number: 88,
                relative_order_number: 157,
                frame_along_track_coordinate: 1800,
            },
            centre_generating_file: "MAR".to_string(),
            platform: Some(Platform::Operational),
            timeliness: Some(Timeliness::NTC),
            collection_or_usage: Some("002".to_string()),
        }
    );
    assert!(Product::from_str(name).is_ok());
}

#[test]
fn s3_stripe_product() {
    let name = "S3B_SL_2_LST____20151229T095534_20151229T114422_20160102T150019_6528_064_365______LN2_D_NR_001.SEN3";
    let (rest, product) = parse_product(name).unwrap();
    assert_eq!(rest, ".SEN3");
    assert_eq!(product.mission_id, MissionId::S3B);
    assert_eq!(product.data_source, DataSource::SLSTR);
    assert_eq!(product.data_type, DataType::LST);
    assert_eq!(
        product.instance_id,
        InstanceId::Stripe { duration: 6528, cycle_number: 64, relative_order_number: 365 }
    );
    assert_eq!(product.centre_generating_file, "LN2");
    assert_eq!(product.platform, Some(Platform::Development));
    assert_eq!(product.timeliness, Some(Timeliness::NRT));
    assert_eq!(product.collection_or_usage, Some("001".to_string()));
}

#[test]
fn s3_global_tile_and_aux_products() {
    let name = "S3A_SY_2_VG1____20191227T124111_20191227T124111_20200109T133116_GLOBAL____________LN2_O_ST_002";
    let (_, product) = parse_product(name).unwrap();
    assert_eq!(product.data_source, DataSource::Synergy);
    assert_eq!(product.data_type, DataType::VG1);
    assert_eq!(product.instance_id, InstanceId::GlobalTile);
    assert_eq!(product.timeliness, Some(Timeliness::STC));

    let name = format!(
        "S3__SR___LSM_AX_20000101T000000_20991231T235959_20160107T120000_{}_MPC_{}_{}_{}.SEN3",
        "_".repeat(17),
        "_",
        "__",
        "___"
    );
    let (rest, product) = parse_product(&name).unwrap();
    assert_eq!(rest, ".SEN3");
    assert_eq!(product.mission_id, MissionId::S3AB);
    assert_eq!(product.data_source, DataSource::SRAL);
    assert_eq!(product.processing_level, None);
    assert_eq!(product.data_type, DataType::Other("LSM_AX".to_string()));
    assert_eq!(product.instance_id, InstanceId::Aux);
    assert_eq!(product.centre_generating_file, "MPC");
    assert_eq!(product.platform, None);
    assert_eq!(product.timeliness, None);
    assert_eq!(product.collection_or_usage, None);
}

#[test]
fn s3_tile_product() {
    let name = "S3A_SY_2_V10____20191216T110000_20191226T110000_20200105T114106_europe19abcdefghi_LN2_F_NT_a";
    let (rest, product) = parse_product(name).unwrap();
    assert_eq!(rest, "");
    assert_eq!(product.data_type, DataType::V10);
    assert_eq!(
        product.instance_id,
        InstanceId::Tile { tile_identifier: "EUROPE19ABCDEFGHI".to_string() }
    );
    assert_eq!(product.platform, Some(Platform::Reference));
    assert_eq!(product.collection_or_usage, Some("A".to_string()));
}

#[test]
fn s3_product_errors() {
    assert_eq!(parse_product("").unwrap_err(), ParseError::FailedAtPosition(0));
    assert_eq!(parse_product("S3C_OL").unwrap_err(), ParseError::FailedAtPosition(0));
    assert_eq!(parse_product("S3A_XX").unwrap_err(), ParseError::FailedAtPosition(4));
    assert_eq!(parse_product("S3A_OL_X").unwrap_err(), ParseError::FailedAtPosition(7));
    assert_eq!(parse_product("S3A_OL_1_EFR").unwrap_err(), ParseError::FailedAtPosition(9));
    assert_eq!(
        parse_product("S3A_OL_1_EFR____20220801T250143").unwrap_err(),
        ParseError::FailedAtPosition(25)
    );
    assert_eq!(
        parse_product(
            "S3A_OL_1_EFR____20220801T210143_20220801T210443_20220803T023357_0179_088_157_18_0_MAR_O_NT_002"
        )
        .unwrap_err(),
        ParseError::FailedAtPosition(64)
    );
    assert_eq!(
        parse_product(
            "S3A_OL_1_EFR____20220801T210143_20220801T210443_20220803T023357_0179_088_157_1800_MAR_X_NT_002"
        )
        .unwrap_err(),
        ParseError::FailedAtPosition(86)
    );
    assert_eq!(
        parse_product(
            "S3A_OL_1_EFR____20220801T210143_20220801T210443_20220803T023357_0179_088_157_1800_MAR_O_NT_-"
        )
        .unwrap_err(),
        ParseError::FailedAtPosition(91)
    );
}

#[test]
fn s3_mission_source_and_level() {
    assert_eq!(parse_mission_id(&Input::new("S3A"), 0), Ok((MissionId::S3A, 3)));
    assert_eq!(parse_mission_id(&Input::new("s3b"), 0), Ok((MissionId::S3B, 3)));
    assert_eq!(parse_mission_id(&Input::new("S3_"), 0), Ok((MissionId::S3AB, 3)));
    assert_eq!(parse_mission_id(&Input::new("S2A"), 0), Err(ParseError::FailedAtPosition(0)));
    assert_eq!(parse_data_source(&Input::new("OL"), 0), Ok((DataSource::OLCI, 2)));
    assert_eq!(parse_data_source(&Input::new("sl"), 0), Ok((DataSource::SLSTR, 2)));
    assert_eq!(parse_data_source(&Input::new("SY"), 0), Ok((DataSource::Synergy, 2)));
    assert_eq!(parse_data_source(&Input::new("SR"), 0), Ok((DataSource::SRAL, 2)));
    assert_eq!(parse_data_source(&Input::new("DO"), 0), Ok((DataSource::DORIS, 2)));
    assert_eq!(parse_data_source(&Input::new("MW"), 0), Ok((DataSource::MWR, 2)));
    assert_eq!(parse_data_source(&Input::new("_GN"), 1), Ok((DataSource::GNSS, 3)));
    assert_eq!(parse_data_source(&Input::new("GX"), 0), Err(ParseError::FailedAtPosition(0)));
    assert_eq!(parse_processing_level(&Input::new("0"), 0), Ok((Some(0), 1)));
    assert_eq!(parse_processing_level(&Input::new("2_"), 0), Ok((Some(2), 1)));
    assert_eq!(parse_processing_level(&Input::new("_"), 0), Ok((None, 1)));
    assert_eq!(parse_processing_level(&Input::new("x"), 0), Err(ParseError::FailedAtPosition(0)));
    assert_eq!(Mission::from(MissionId::S3AB), Mission::Sentinel3);
}

#[test]
fn s3_data_types() {
    let known = [
        ("AER_AX", DataType::AER_AX),
        ("AOD___", DataType::AOD),
        ("ATP_AX", DataType::ATP_AX),
        ("CAL___", DataType::CAL),
        ("CR0___", DataType::CR0),
        ("CR1___", DataType::CR1),
        ("EFR___", DataType::EFR),
        ("EFR_BW", DataType::EFR_BW),
        ("ERR___", DataType::ERR),
        ("ERR_BW", DataType::ERR_BW),
        ("FRP___", DataType::FRP),
        ("INS_AX", DataType::INS_AX),
        ("LAN___", DataType::LAN),
        ("LAP_AX", DataType::LAP_AX),
        ("LFR___", DataType::LFR),
        ("LFR_BW", DataType::LFR_BW),
        ("LRR___", DataType::LRR),
        ("LRR_BW", DataType::LRR_BW),
        ("LST___", DataType::LST),
        ("LST_BW", DataType::LST_BW),
        ("LVI_AX", DataType::LVI_AX),
        ("MSIR__", DataType::MSIR),
        ("RAC___", DataType::RAC),
        ("RBT___", DataType::RBT),
        ("RBT_BW", DataType::RBT_BW),
        ("SLT___", DataType::SLT),
        ("SPC___", DataType::SPC),
        ("SRA___", DataType::SRA),
        ("SYN___", DataType::SYN),
        ("SYN_BW", DataType::SYN_BW),
        ("V10___", DataType::V10),
        ("V10_BW", DataType::V10_BW),
        ("VG1___", DataType::VG1),
        ("VG1_BW", DataType::VG1_BW),
        ("VGP___", DataType::VGP),
        ("VGP_BW", DataType::VGP_BW),
        ("WAT___", DataType::WAT),
        ("WCT___", DataType::WCT),
        ("WFR___", DataType::WFR),
        ("WFR_BW", DataType::WFR_BW),
        ("WRR___", DataType::WRR),
        ("WRR_BW", DataType::WRR_BW),
        ("WST___", DataType::WST),
        ("WST_BW", DataType::WST_BW),
    ];
    for (tag, data_type) in known {
        assert_eq!(parse_data_type(&Input::new(tag), 0), Ok((data_type.clone(), 6)));
        let lower = format!("_{}_", tag.to_lowercase());
        assert_eq!(parse_data_type(&Input::new(&lower), 1), Ok((data_type, 7)));
    }
}

#[test]
fn s3_other_data_types() {
    assert_eq!(parse_data_type(&Input::new("abc___"), 0), Ok((DataType::Other("ABC".to_string()), 6)));
    assert_eq!(parse_data_type(&Input::new("a_c_x_"), 0), Ok((DataType::Other("A_C_X".to_string()), 6)));
    assert_eq!(parse_data_type(&Input::new("______"), 0), Ok((DataType::Other(String::new()), 6)));
    assert_eq!(parse_data_type(&Input::new("efr__x"), 0), Ok((DataType::Other("EFR__X".to_string()), 6)));
    assert_eq!(
        parse_data_type(&Input::new("stra\u{df}e"), 0),
        Ok((DataType::Other("STRASSE".to_string()), 6))
    );
    assert_eq!(parse_data_type(&Input::new("abc__"), 0), Err(ParseError::FailedAtPosition(0)));
    assert_eq!(parse_data_type(&Input::new("xEFR__"), 1), Err(ParseError::FailedAtPosition(1)));
}

#[test]
fn s3_instances() {
    assert_eq!(parse_instance(&Input::new("_________________"), 0), Ok((InstanceId::Aux, 17)));
    assert_eq!(parse_instance(&Input::new("global___________"), 0), Ok((InstanceId::GlobalTile, 17)));
    assert_eq!(
        parse_instance(&Input::new("0179_088_157_____"), 0),
        Ok((
            InstanceId::Stripe { duration: 179, cycle_number: 88, relative_order_number: 157 },
            17
        ))
    );
    assert_eq!(
        parse_instance(&Input::new("x0179_088_157_0001"), 1),
        Ok((
            InstanceId::Frame {
                duration: 179,
                cycle_number: 88,
                relative_order_number: 157,
                frame_along_track_coordinate: 1,
            },
            18
        ))
    );
    assert_eq!(
        parse_instance(&Input::new("01790088015701800"), 0),
        Ok((InstanceId::Tile { tile_identifier: "01790088015701800".to_string() }, 17))
    );
    assert_eq!(parse_instance(&Input::new("0179_088_157_18__"), 0), Err(ParseError::FailedAtPosition(0)));
    assert_eq!(parse_instance(&Input::new("________________"), 0), Err(ParseError::FailedAtPosition(0)));
    assert_eq!(parse_instance(&Input::new("x_______________y"), 0), Err(ParseError::FailedAtPosition(0)));
}

#[test]
fn s3_platform_timeliness_and_collection() {
    assert_eq!(parse_platform(&Input::new("O"), 0), Ok((Some(Platform::Operational), 1)));
    assert_eq!(parse_platform(&Input::new("f"), 0), Ok((Some(Platform::Reference), 1)));
    assert_eq!(parse_platform(&Input::new("D"), 0), Ok((Some(Platform::Development), 1)));
    assert_eq!(parse_platform(&Input::new("R"), 0), Ok((Some(Platform::Reprocessing), 1)));
    assert_eq!(parse_platform(&Input::new("_"), 0), Ok((None, 1)));
    assert_eq!(parse_platform(&Input::new("X"), 0), Err(ParseError::FailedAtPosition(0)));
    assert_eq!(parse_timeliness(&Input::new("NR"), 0), Ok((Some(Timeliness::NRT), 2)));
    assert_eq!(parse_timeliness(&Input::new("st"), 0), Ok((Some(Timeliness::STC), 2)));
    assert_eq!(parse_timeliness(&Input::new("NT"), 0), Ok((Some(Timeliness::NTC), 2)));
    assert_eq!(parse_timeliness(&Input::new("__"), 0), Ok((None, 2)));
    assert_eq!(parse_timeliness(&Input::new("_N"), 0), Err(ParseError::FailedAtPosition(0)));
    assert_eq!(parse_collection(&Input::new("002"), 0), Ok((Some("002".to_string()), 3)));
    assert_eq!(parse_collection(&Input::new("0025"), 0), Ok((Some("002".to_string()), 3)));
    assert_eq!(parse_collection(&Input::new("ab."), 0), Ok((Some("AB".to_string()), 2)));
    assert_eq!(parse_collection(&Input::new("x__"), 0), Ok((Some("X".to_string()), 1)));
    assert_eq!(parse_collection(&Input::new("___"), 0), Ok((None, 3)));
    assert_eq!(parse_collection(&Input::new("__"), 0), Err(ParseError::FailedAtPosition(0)));
    assert_eq!(parse_collection(&Input::new(""), 0), Err(ParseError::FailedAtPosition(0)));
    assert_eq!(parse_collection(&Input::new("ab"), 5), Err(ParseError::FailedAtPosition(5)));
}

#[test]
fn sentinel3_apply_to_product_testdata() {
    let samples = [
        "S3A_OL_1_EFR____20220801T210143_20220801T210443_20220803T023357_0179_088_157_1800_MAR_O_NT_002",
        "S3B_SL_1_RBT____20200101T103021_20200101T103321_20200102T153046_0179_033_379_2160_LN2_O_NT_003",
        "S3A_SR_2_LAN____20190101T000000_20190101T005959_20190126T123456_3599_039_316______LN3_O_NT_003",
        "S3A_SL_2_LST____20151229T095534_20151229T114422_20160102T150019_6528_064_365______LN2_D_NT_001",
        "S3A_SY_2_VG1____20191227T124111_20191227T124111_20200109T133116_GLOBAL____________LN2_O_ST_002",
        "S3B_OL_2_WFR____20210615T093015_20210615T093315_20210616T181522_0179_053_307_2160_MAR_O_NT_003.SEN3",
    ];
    for s in samples {
        parse_product(s).unwrap();
    }
}
