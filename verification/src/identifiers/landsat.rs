//! Landsat scene ids and product names.
//!
//! A scene id such as `LC80390222013076EDC00` holds `L`, the sensor, the
//! satellite, the path and the row of the scene, the year and the day of the
//! year of the acquisition, the ground station and the archive version.
//!
//! A product name such as `LC08_L2SP_008008_20180520_20200901_02_T2` holds
//! `L`, the sensor, the satellite in two digits, the processing level, path
//! and row, the dates of acquisition and of processing, the collection
//! number and, where there is one, the collection category.
use crate::calendar::{ordinal_date, Date};
use crate::common_parsers::{
    advances, after, alphanumerics_at, ascii_uppercase, char_at, chars_at, decimal_value,
    digits_at, digits_in_range_at, failure, finish, lemma_alphanumeric_len_run,
    lemma_pow10_values, lower, one_of, one_of_at, rest_view_of,
    tag_no_case, tag_no_case_at, take_alphanumeric, take_alphanumeric_upper, take_char,
    take_chars, take_n_digits, take_n_digits_in_range, to_uppercase, upper_alphanumeric_at, value,
    view_of, with_rest, Parsed, Recognised,
};
use crate::temporal::{date_at, date_year, parse_simple_date, year_at};
use crate::{Mission, Name, NameLong};
use crate::input::Input;
use vstd::prelude::*;
use vstd::std_specs::convert::FromSpecImpl;
use vstd::utf8::is_ascii_chars;

verus! {

#[derive(PartialOrd, PartialEq, Eq, Structural, Debug, Clone, Copy, Hash)]
pub enum MissionId {
    Landsat1,
    Landsat2,
    Landsat3,
    Landsat4,
    Landsat5,
    Landsat6,
    Landsat7,
    Landsat8,
    Landsat9,
}

impl MissionId {
    /// The satellite with the number `v`.
    pub open spec fn of_number(v: int) -> MissionId {
        if v == 1 {
            MissionId::Landsat1
        } else if v == 2 {
            MissionId::Landsat2
        } else if v == 3 {
            MissionId::Landsat3
        } else if v == 4 {
            MissionId::Landsat4
        } else if v == 5 {
            MissionId::Landsat5
        } else if v == 6 {
            MissionId::Landsat6
        } else if v == 7 {
            MissionId::Landsat7
        } else if v == 8 {
            MissionId::Landsat8
        } else {
            MissionId::Landsat9
        }
    }

    /// The mission that the satellite flies.
    pub open spec fn mission(self) -> Mission {
        match self {
            MissionId::Landsat1 => Mission::Landsat1,
            MissionId::Landsat2 => Mission::Landsat2,
            MissionId::Landsat3 => Mission::Landsat3,
            MissionId::Landsat4 => Mission::Landsat4,
            MissionId::Landsat5 => Mission::Landsat5,
            MissionId::Landsat6 => Mission::Landsat6,
            MissionId::Landsat7 => Mission::Landsat7,
            MissionId::Landsat8 => Mission::Landsat8,
            MissionId::Landsat9 => Mission::Landsat9,
        }
    }

    /// The satellite with the number `v`, which is one of 1 to 9.
    pub fn from(v: u8) -> (r: MissionId)
        requires
            1 <= v <= 9,
        ensures
            r == MissionId::of_number(v as int),
    {
        match v {
            1 => MissionId::Landsat1,
            2 => MissionId::Landsat2,
            3 => MissionId::Landsat3,
            4 => MissionId::Landsat4,
            5 => MissionId::Landsat5,
            6 => MissionId::Landsat6,
            7 => MissionId::Landsat7,
            8 => MissionId::Landsat8,
            _ => MissionId::Landsat9,
        }
    }
}

impl From<MissionId> for Mission {
    fn from(mission: MissionId) -> (r: Mission) {
        match mission {
            MissionId::Landsat1 => Mission::Landsat1,
            MissionId::Landsat2 => Mission::Landsat2,
            MissionId::Landsat3 => Mission::Landsat3,
            MissionId::Landsat4 => Mission::Landsat4,
            MissionId::Landsat5 => Mission::Landsat5,
            MissionId::Landsat6 => Mission::Landsat6,
            MissionId::Landsat7 => Mission::Landsat7,
            MissionId::Landsat8 => Mission::Landsat8,
            MissionId::Landsat9 => Mission::Landsat9,
        }
    }
}

impl FromSpecImpl<MissionId> for Mission {
    open spec fn obeys_from_spec() -> bool {
        true
    }

    open spec fn from_spec(mission: MissionId) -> Mission {
        mission.mission()
    }
}

#[allow(non_camel_case_types)]
#[derive(PartialOrd, PartialEq, Eq, Structural, Debug, Clone, Copy, Hash)]
pub enum Sensor {
    /// C = OLI & TIRS
    OLI_TRIS,
    /// O = OLI only
    OLI,
    /// T = IRS only
    IRS,
    /// E = ETM+
    ETM_PLUS,
    /// T = TM
    TM,
    /// M = MSS
    MSS,
}

impl Name for Sensor {
    open spec fn name_text(&self) -> Seq<char> {
        match self {
            Sensor::OLI_TRIS => "OLI+TRIS"@,
            Sensor::OLI => "OLI"@,
            Sensor::IRS => "IRS"@,
            Sensor::ETM_PLUS => "ETM+"@,
            Sensor::TM => "TM"@,
            Sensor::MSS => "MSS"@,
        }
    }

    fn name(&self) -> (r: &str) {
        match self {
            Sensor::OLI_TRIS => "OLI+TRIS",
            Sensor::OLI => "OLI",
            Sensor::IRS => "IRS",
            Sensor::ETM_PLUS => "ETM+",
            Sensor::TM => "TM",
            Sensor::MSS => "MSS",
        }
    }
}

impl NameLong for Sensor {
    open spec fn name_long_text(&self) -> Seq<char> {
        match self {
            Sensor::OLI_TRIS => "Operational Land Imager+TRIS"@,
            Sensor::OLI => "Operational Land Imager"@,
            Sensor::IRS => "InfraRed Sensor"@,
            Sensor::ETM_PLUS => "Enhanced Thematic Mapper Plus"@,
            Sensor::TM => "Thematic Mapper"@,
            Sensor::MSS => "Multi Spectral Scanner"@,
        }
    }

    fn name_long(&self) -> (r: &str) {
        match self {
            Sensor::OLI_TRIS => "Operational Land Imager+TRIS",
            Sensor::OLI => "Operational Land Imager",
            Sensor::IRS => "InfraRed Sensor",
            Sensor::ETM_PLUS => "Enhanced Thematic Mapper Plus",
            Sensor::TM => "Thematic Mapper",
            Sensor::MSS => "Multi Spectral Scanner",
        }
    }
}

/// Landsat scene id
#[derive(PartialOrd, PartialEq, Eq, Debug, Clone, Hash)]
pub struct SceneId {
    pub sensor: Sensor,
    /// satellite
    pub mission: MissionId,
    pub wrs_path: u32,
    pub wrs_row: u32,
    pub acquire_date: Date,
    pub ground_station_identifier: String,
    pub archive_version_number: u8,
}

/// A scene id with its text as a sequence of characters.
pub struct SceneIdView {
    pub sensor: Sensor,
    pub mission: MissionId,
    pub wrs_path: u32,
    pub wrs_row: u32,
    pub acquire_date: Date,
    pub ground_station_identifier: Seq<char>,
    pub archive_version_number: u8,
}

impl View for SceneId {
    type V = SceneIdView;

    open spec fn view(&self) -> SceneIdView {
        SceneIdView {
            sensor: self.sensor,
            mission: self.mission,
            wrs_path: self.wrs_path,
            wrs_row: self.wrs_row,
            acquire_date: self.acquire_date,
            ground_station_identifier: self.ground_station_identifier@,
            archive_version_number: self.archive_version_number,
        }
    }
}

#[derive(PartialOrd, PartialEq, Eq, Debug, Clone, Hash)]
pub enum ProcessingLevel {
    L1TP,
    L1GT,
    L1GS,
    L2SP,
    L2SR,
    /// CONUS
    CU,
    /// Alaska
    AK,
    /// Hawaii
    HI,
    Other(String),
}

/// A processing level with its text, if it has one, as a sequence of
/// characters.
pub enum ProcessingLevelView {
    Known(ProcessingLevel),
    Other(Seq<char>),
}

impl View for ProcessingLevel {
    type V = ProcessingLevelView;

    open spec fn view(&self) -> ProcessingLevelView {
        match self {
            ProcessingLevel::Other(text) => ProcessingLevelView::Other(text@),
            _ => ProcessingLevelView::Known(*self),
        }
    }
}

#[derive(PartialOrd, PartialEq, Eq, Structural, Debug, Clone, Hash, Copy)]
pub enum CollectionCategory {
    RealTime,
    Tier1,
    Tier2,
    AlbersTier1,
    AlbersTier2,
}

impl Name for CollectionCategory {
    open spec fn name_text(&self) -> Seq<char> {
        match self {
            CollectionCategory::RealTime => "RT"@,
            CollectionCategory::Tier1 => "T1"@,
            CollectionCategory::Tier2 => "T2"@,
            CollectionCategory::AlbersTier1 => "A1"@,
            CollectionCategory::AlbersTier2 => "A2"@,
        }
    }

    fn name(&self) -> (r: &str) {
        match self {
            CollectionCategory::RealTime => "RT",
            CollectionCategory::Tier1 => "T1",
            CollectionCategory::Tier2 => "T2",
            CollectionCategory::AlbersTier1 => "A1",
            CollectionCategory::AlbersTier2 => "A2",
        }
    }
}

impl NameLong for CollectionCategory {
    open spec fn name_long_text(&self) -> Seq<char> {
        match self {
            CollectionCategory::RealTime => "Real-Time"@,
            CollectionCategory::Tier1 => "Tier 1"@,
            CollectionCategory::Tier2 => "Tier 2"@,
            CollectionCategory::AlbersTier1 => "Albers Tier 1"@,
            CollectionCategory::AlbersTier2 => "Albers Tier 2"@,
        }
    }

    fn name_long(&self) -> (r: &str) {
        match self {
            CollectionCategory::RealTime => "Real-Time",
            CollectionCategory::Tier1 => "Tier 1",
            CollectionCategory::Tier2 => "Tier 2",
            CollectionCategory::AlbersTier1 => "Albers Tier 1",
            CollectionCategory::AlbersTier2 => "Albers Tier 2",
        }
    }
}

/// Landsat product
#[derive(PartialOrd, PartialEq, Eq, Debug, Clone, Hash)]
pub struct Product {
    pub sensor: Sensor,
    /// satellite
    pub mission: MissionId,
    /// processing correction level
    pub processing_level: ProcessingLevel,
    pub wrs_path: u32,
    pub wrs_row: u32,
    pub acquire_date: Date,
    pub processing_date: Date,
    pub collection_number: u8,
    pub collection_category: Option<CollectionCategory>,
}

/// A product with its text as a sequence of characters.
pub struct ProductView {
    pub sensor: Sensor,
    pub mission: MissionId,
    pub processing_level: ProcessingLevelView,
    pub wrs_path: u32,
    pub wrs_row: u32,
    pub acquire_date: Date,
    pub processing_date: Date,
    pub collection_number: u8,
    pub collection_category: Option<CollectionCategory>,
}

impl View for Product {
    type V = ProductView;

    open spec fn view(&self) -> ProductView {
        ProductView {
            sensor: self.sensor,
            mission: self.mission,
            processing_level: self.processing_level@,
            wrs_path: self.wrs_path,
            wrs_row: self.wrs_row,
            acquire_date: self.acquire_date,
            processing_date: self.processing_date,
            collection_number: self.collection_number,
            collection_category: self.collection_category,
        }
    }
}

impl SceneIdView {
    /// The numbers are as wide as their fields, the date is one of the
    /// calendar, and the ground station has three characters.
    pub open spec fn is_valid(self) -> bool {
        &&& self.wrs_path <= 999
        &&& self.wrs_row <= 999
        &&& self.acquire_date.is_valid()
        &&& self.ground_station_identifier.len() == 3
        &&& self.archive_version_number <= 99
    }
}

impl ProductView {
    /// The numbers are as wide as their fields, and the dates are dates of
    /// the calendar.
    pub open spec fn is_valid(self) -> bool {
        &&& self.wrs_path <= 999
        &&& self.wrs_row <= 999
        &&& self.acquire_date.is_valid()
        &&& self.processing_date.is_valid()
        &&& self.collection_number <= 99
    }
}

/// A date as a year and the day of the year, three digits wide and of any
/// value: the day may lie in another year.
#[verifier::opaque]
pub open spec fn julian_date_at(s: Seq<char>, pos: int) -> Parsed<Date> {
    match year_at(s, pos) {
        Err(e) => Err(e),
        Ok((year, after_year)) => match digits_at(s, after_year as int, 3) {
            Err(e) => Err(e),
            Ok((day, after_day)) => Ok((ordinal_date(year as int, day as int), after_day)),
        },
    }
}

pub open spec fn sensor_tags() -> Seq<&'static str> {
    seq!["c", "o", "t", "e", "m"]
}

/// The sensor that the letter at index `i` of `sensor_tags` stands for on
/// the satellite with the number `mission`: `t` is the Thematic Mapper on
/// Landsat 4 and 5.
pub open spec fn sensor_of(i: usize, mission: u32) -> Sensor {
    match i {
        0 => Sensor::OLI_TRIS,
        1 => Sensor::OLI,
        2 => if mission == 4 || mission == 5 {
            Sensor::TM
        } else {
            Sensor::IRS
        },
        3 => Sensor::ETM_PLUS,
        _ => Sensor::MSS,
    }
}

#[verifier::opaque]
pub open spec fn sensor_at(s: Seq<char>, pos: int, mission: u32) -> Parsed<Sensor> {
    match one_of_at(s, pos, sensor_tags()) {
        Ok((i, next)) => Ok((sensor_of(i, mission), next)),
        Err(e) => Err(e),
    }
}

/// A scene id: its fields in their order. The sensor is read when the
/// satellite is known, and rejected where it stands.
pub open spec fn scene_id_at(s: Seq<char>) -> Parsed<SceneIdView> {
    let l = tag_no_case_at(s, 0, "L"@);
    let letter = chars_at(s, after(l), 1);
    let mission = digits_in_range_at(s, after(letter), 1, 1, 9);
    let sensor = sensor_at(s, after(l), value(mission));
    let wrs_path = digits_at(s, after(mission), 3);
    let wrs_row = digits_at(s, after(wrs_path), 3);
    let acquire_date = julian_date_at(s, after(wrs_row));
    let station = upper_alphanumeric_at(s, after(acquire_date), 3);
    let version = digits_at(s, after(station), 2);
    if l is Err {
        failure(l)
    } else if letter is Err {
        failure(letter)
    } else if mission is Err {
        failure(mission)
    } else if sensor is Err {
        failure(sensor)
    } else if wrs_path is Err {
        failure(wrs_path)
    } else if wrs_row is Err {
        failure(wrs_row)
    } else if acquire_date is Err {
        failure(acquire_date)
    } else if station is Err {
        failure(station)
    } else if version is Err {
        failure(version)
    } else {
        Ok(
            (
                SceneIdView {
                    sensor: value(sensor),
                    mission: MissionId::of_number(value(mission) as int),
                    wrs_path: value(wrs_path),
                    wrs_row: value(wrs_row),
                    acquire_date: value(acquire_date),
                    ground_station_identifier: value(station),
                    archive_version_number: value(version) as u8,
                },
                after(version) as usize,
            ),
        )
    }
}

pub open spec fn processing_level_tags() -> Seq<&'static str> {
    seq!["l1tp", "l1gs", "l1gt", "l2sp", "l2sr", "cu", "ak", "hi"]
}

pub open spec fn processing_level_of(i: usize) -> ProcessingLevel {
    match i {
        0 => ProcessingLevel::L1TP,
        1 => ProcessingLevel::L1GS,
        2 => ProcessingLevel::L1GT,
        3 => ProcessingLevel::L2SP,
        4 => ProcessingLevel::L2SR,
        5 => ProcessingLevel::CU,
        6 => ProcessingLevel::AK,
        _ => ProcessingLevel::HI,
    }
}

/// A processing level: one of the tags, or else the letters and digits that
/// stand there, as many as there are, which give `Other` with that text in
/// upper case.
#[verifier::opaque]
pub open spec fn processing_level_at(s: Seq<char>, pos: int) -> Parsed<ProcessingLevelView> {
    match one_of_at(s, pos, processing_level_tags()) {
        Ok((i, next)) => Ok((ProcessingLevelView::Known(processing_level_of(i)), next)),
        Err(_) => match alphanumerics_at(s, pos) {
            Ok((text, next)) => Ok((ProcessingLevelView::Other(ascii_uppercase(text)), next)),
            Err(e) => Err(e),
        },
    }
}

pub open spec fn collection_category_tags() -> Seq<&'static str> {
    seq!["rt", "t1", "t2", "a1", "a2"]
}

pub open spec fn collection_category_of(i: usize) -> CollectionCategory {
    match i {
        0 => CollectionCategory::RealTime,
        1 => CollectionCategory::Tier1,
        2 => CollectionCategory::Tier2,
        3 => CollectionCategory::AlbersTier1,
        _ => CollectionCategory::AlbersTier2,
    }
}

#[verifier::opaque]
pub open spec fn collection_category_at(s: Seq<char>, pos: int) -> Parsed<CollectionCategory> {
    match one_of_at(s, pos, collection_category_tags()) {
        Ok((i, next)) => Ok((collection_category_of(i), next)),
        Err(e) => Err(e),
    }
}

/// An underscore and a collection category, or neither of them: where one
/// of the two is missing nothing is consumed and there is no category.
#[verifier::opaque]
pub open spec fn optional_category_at(s: Seq<char>, pos: int) -> (Option<CollectionCategory>, int) {
    match char_at(s, pos, '_') {
        Ok((_, after_sep)) => match collection_category_at(s, after_sep as int) {
            Ok((category, after_category)) => (Some(category), after_category as int),
            Err(_) => (None, pos),
        },
        Err(_) => (None, pos),
    }
}

/// A product name: its fields in their order. The sensor is read when the
/// satellite is known, and rejected where it stands.
pub open spec fn product_at(s: Seq<char>) -> Parsed<ProductView> {
    let l = tag_no_case_at(s, 0, "L"@);
    let letter = chars_at(s, after(l), 1);
    let zero = char_at(s, after(letter), '0');
    let mission = digits_in_range_at(s, after(zero), 1, 1, 9);
    let sensor = sensor_at(s, after(l), value(mission));
    let sep1 = char_at(s, after(mission), '_');
    let processing_level = processing_level_at(s, after(sep1));
    let sep2 = char_at(s, after(processing_level), '_');
    let wrs_path = digits_at(s, after(sep2), 3);
    let wrs_row = digits_at(s, after(wrs_path), 3);
    let sep3 = char_at(s, after(wrs_row), '_');
    let acquire_date = date_at(s, after(sep3));
    let sep4 = char_at(s, after(acquire_date), '_');
    let processing_date = date_at(s, after(sep4));
    let sep5 = char_at(s, after(processing_date), '_');
    let collection_number = digits_at(s, after(sep5), 2);
    let category = optional_category_at(s, after(collection_number));
    if l is Err {
        failure(l)
    } else if letter is Err {
        failure(letter)
    } else if zero is Err {
        failure(zero)
    } else if mission is Err {
        failure(mission)
    } else if sensor is Err {
        failure(sensor)
    } else if sep1 is Err {
        failure(sep1)
    } else if processing_level is Err {
        failure(processing_level)
    } else if sep2 is Err {
        failure(sep2)
    } else if wrs_path is Err {
        failure(wrs_path)
    } else if wrs_row is Err {
        failure(wrs_row)
    } else if sep3 is Err {
        failure(sep3)
    } else if acquire_date is Err {
        failure(acquire_date)
    } else if sep4 is Err {
        failure(sep4)
    } else if processing_date is Err {
        failure(processing_date)
    } else if sep5 is Err {
        failure(sep5)
    } else if collection_number is Err {
        failure(collection_number)
    } else {
        Ok(
            (
                ProductView {
                    sensor: value(sensor),
                    mission: MissionId::of_number(value(mission) as int),
                    processing_level: value(processing_level),
                    wrs_path: value(wrs_path),
                    wrs_row: value(wrs_row),
                    acquire_date: value(acquire_date),
                    processing_date: value(processing_date),
                    collection_number: value(collection_number) as u8,
                    collection_category: category.0,
                },
                category.1 as usize,
            ),
        )
    }
}

/// A scene id starts with `L`, and its third character is the number of
/// the satellite.
pub proof fn lemma_scene_id_start(s: Seq<char>)
    requires
        scene_id_at(s) is Ok,
    ensures
        s.len() >= 3,
        lower(s[0]) == 'l',
        '1' <= s[2] <= '9',
{
    reveal_strlit("L");
    assert(lower(s[0int + 0]) == lower("L"@[0]));
    assert(s.subrange(2, 3).drop_last() =~= Seq::<char>::empty());
    assert(s.subrange(2, 3).last() == s[2]);
    reveal_with_fuel(decimal_value, 2);
}

/// A product name starts with `L`, and its third character is `0`.
pub proof fn lemma_product_start(s: Seq<char>)
    requires
        product_at(s) is Ok,
    ensures
        s.len() >= 3,
        lower(s[0]) == 'l',
        s[2] == '0',
{
    reveal_strlit("L");
    assert(lower(s[0int + 0]) == lower("L"@[0]));
}

/// Reads a year and a day of the year, and gives the date that they name.
pub fn parse_julian_date(s: &Input, pos: usize) -> (r: Parsed<Date>)
    ensures
        r == julian_date_at(s@, pos as int),
        advances(r, s@, pos),
        r matches Ok((date, _)) ==> date.is_valid(),
{
    reveal(julian_date_at);
    let (year, p) = date_year(s, pos)?;
    let (day_of_year, p) = take_n_digits(s, p, 3)?;
    proof {
        lemma_pow10_values();
    }
    Ok((Date::from_ordinal(year, day_of_year), p))
}

pub fn parse_sensor(s: &Input, pos: usize, mission: u32) -> (r: Parsed<Sensor>)
    ensures
        r == sensor_at(s@, pos as int, mission),
        advances(r, s@, pos),
{
    reveal(sensor_at);
    let tags = ["c", "o", "t", "e", "m"];
    assert(tags@ =~= sensor_tags());
    let (i, next) = one_of(s, pos, &tags)?;
    let sensor = match i {
        0 => Sensor::OLI_TRIS,
        1 => Sensor::OLI,
        2 => if mission == 4 || mission == 5 {
            Sensor::TM
        } else {
            Sensor::IRS
        },
        3 => Sensor::ETM_PLUS,
        _ => Sensor::MSS,
    };
    Ok((sensor, next))
}

/// Reads a scene id at the start of `s`.
pub fn scene_id(s: &Input) -> (r: Parsed<SceneId>)
    ensures
        view_of(r) == scene_id_at(s@),
        advances(r, s@, 0),
        r matches Ok((scene, _)) ==> scene@.is_valid(),
{
    let (_, p_sensor) = tag_no_case(s, 0, "L")?;
    let (_, p) = take_chars(s, p_sensor, 1)?;
    let (mission, p) = take_n_digits_in_range(s, p, 1, 1, 9)?;
    let (sensor, _) = parse_sensor(s, p_sensor, mission)?;
    let (wrs_path, p) = take_n_digits(s, p, 3)?;
    let (wrs_row, p) = take_n_digits(s, p, 3)?;
    let (acquire_date, p) = parse_julian_date(s, p)?;
    let (ground_station_identifier, p) = take_alphanumeric_upper(s, p, 3)?;
    let (version, p) = take_n_digits(s, p, 2)?;
    proof {
        lemma_pow10_values();
    }
    Ok(
        (
            SceneId {
                sensor,
                mission: MissionId::from(mission as u8),
                wrs_path,
                wrs_row,
                acquire_date,
                ground_station_identifier,
                archive_version_number: version as u8,
            },
            p,
        ),
    )
}

/// Reads a scene id at the start of `s` and gives the scene with what
/// follows the id.
pub fn parse_scene_id<'a>(s: &'a str) -> (r: Recognised<'a, SceneId>)
    ensures
        rest_view_of(r) == with_rest(s@, scene_id_at(s@)),
        r matches Ok((_, scene)) ==> scene@.is_valid(),
{
    let input = Input::new(s);
    finish(&input, scene_id(&input))
}

pub fn parse_processing_level(s: &Input, pos: usize) -> (r: Parsed<ProcessingLevel>)
    ensures
        view_of(r) == processing_level_at(s@, pos as int),
        advances(r, s@, pos),
{
    reveal(processing_level_at);
    let tags = ["l1tp", "l1gs", "l1gt", "l2sp", "l2sr", "cu", "ak", "hi"];
    assert(tags@ =~= processing_level_tags());
    match one_of(s, pos, &tags) {
        Ok((i, next)) => {
            let level = match i {
                0 => ProcessingLevel::L1TP,
                1 => ProcessingLevel::L1GS,
                2 => ProcessingLevel::L1GT,
                3 => ProcessingLevel::L2SP,
                4 => ProcessingLevel::L2SR,
                5 => ProcessingLevel::CU,
                6 => ProcessingLevel::AK,
                _ => ProcessingLevel::HI,
            };
            Ok((level, next))
        },
        Err(_) => {
            let (text, next) = take_alphanumeric(s, pos)?;
            proof {
                lemma_alphanumeric_len_run(s@, pos as int);
                assert(is_ascii_chars(text@));
            }
            Ok((ProcessingLevel::Other(to_uppercase(text)), next))
        },
    }
}

pub fn parse_collection_category(s: &Input, pos: usize) -> (r: Parsed<CollectionCategory>)
    ensures
        r == collection_category_at(s@, pos as int),
        advances(r, s@, pos),
{
    reveal(collection_category_at);
    let tags = ["rt", "t1", "t2", "a1", "a2"];
    assert(tags@ =~= collection_category_tags());
    let (i, next) = one_of(s, pos, &tags)?;
    let category = match i {
        0 => CollectionCategory::RealTime,
        1 => CollectionCategory::Tier1,
        2 => CollectionCategory::Tier2,
        3 => CollectionCategory::AlbersTier1,
        _ => CollectionCategory::AlbersTier2,
    };
    Ok((category, next))
}

/// Reads an underscore and a collection category, where both are there.
pub fn parse_optional_category(s: &Input, pos: usize) -> (r: (Option<CollectionCategory>, usize))
    ensures
        (r.0, r.1 as int) == optional_category_at(s@, pos as int),
        r.1 == pos || pos < r.1 <= s@.len(),
{
    reveal(optional_category_at);
    match take_char(s, pos, '_') {
        Ok((_, p)) => match parse_collection_category(s, p) {
            Ok((category, next)) => (Some(category), next),
            Err(_) => (None, pos),
        },
        Err(_) => (None, pos),
    }
}

/// Reads a product name at the start of `s`.
pub fn product(s: &Input) -> (r: Parsed<Product>)
    ensures
        view_of(r) == product_at(s@),
        advances(r, s@, 0),
        r matches Ok((product, _)) ==> product@.is_valid(),
{
    let (_, p_sensor) = tag_no_case(s, 0, "L")?;
    let (_, p) = take_chars(s, p_sensor, 1)?;
    let (_, p) = take_char(s, p, '0')?;
    let (mission, p) = take_n_digits_in_range(s, p, 1, 1, 9)?;
    let (sensor, _) = parse_sensor(s, p_sensor, mission)?;
    let (_, p) = take_char(s, p, '_')?;
    let (processing_level, p) = parse_processing_level(s, p)?;
    let (_, p) = take_char(s, p, '_')?;
    let (wrs_path, p) = take_n_digits(s, p, 3)?;
    let (wrs_row, p) = take_n_digits(s, p, 3)?;
    let (_, p) = take_char(s, p, '_')?;
    let (acquire_date, p) = parse_simple_date(s, p)?;
    let (_, p) = take_char(s, p, '_')?;
    let (processing_date, p) = parse_simple_date(s, p)?;
    let (_, p) = take_char(s, p, '_')?;
    let (collection_number, p) = take_n_digits(s, p, 2)?;
    let (collection_category, p) = parse_optional_category(s, p);
    proof {
        lemma_pow10_values();
    }
    Ok(
        (
            Product {
                sensor,
                mission: MissionId::from(mission as u8),
                processing_level,
                wrs_path,
                wrs_row,
                acquire_date,
                processing_date,
                collection_number: collection_number as u8,
                collection_category,
            },
            p,
        ),
    )
}

/// Reads a product name at the start of `s` and gives the product with what
/// follows the name.
pub fn parse_product<'a>(s: &'a str) -> (r: Recognised<'a, Product>)
    ensures
        rest_view_of(r) == with_rest(s@, product_at(s@)),
        r matches Ok((_, product)) ==> product@.is_valid(),
{
    let input = Input::new(s);
    finish(&input, product(&input))
}

} // verus!
