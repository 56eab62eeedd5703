//! Sentinel 3 product names.
//!
//! A name such as
//! `S3A_OL_1_EFR____20220801T210143_20220801T210443_20220803T023357_0179_088_157_1800_MAR_O_NT_002`
//! holds, between underscores: the mission, the data source, the processing
//! level, the data type, three timestamps (sensing start, sensing stop,
//! product creation), the instance, the centre that made the file, the
//! platform, the timeliness and the collection or usage.
use crate::calendar::DateTime;
use crate::common_parsers::{
    advances, after, alphanumeric_len, ascii_uppercase, char_at, chars_at, digit_run, digits_at,
    failure, finish, first_tag_from, has, lemma_alphanumeric_len_run, lemma_first_tag,
    lemma_pow10_values, lower, one_of, one_of_at, option_view_of, reject, repeated, rest_view_of,
    tag_no_case, tag_no_case_matches, take_alphanumeric, take_alphanumeric_upper, take_char,
    take_chars, take_n_digits, take_repeated, to_uppercase, upper_alphanumeric_at, uppercase_of,
    value, view_of, with_rest, Parsed, Recognised,
};
use crate::temporal::{parse_esa_timestamp, timestamp_at};
use crate::Mission;
use crate::input::Input;
use vstd::prelude::*;
use vstd::std_specs::convert::FromSpecImpl;
use vstd::utf8::is_ascii_chars;

verus! {

#[derive(PartialOrd, PartialEq, Eq, Structural, Debug, Clone, Copy, Hash)]
pub enum MissionId {
    S3A,
    S3B,
    S3AB,
}

impl From<MissionId> for Mission {
    fn from(mission: MissionId) -> (r: Mission) {
        Mission::Sentinel3
    }
}

impl FromSpecImpl<MissionId> for Mission {
    open spec fn obeys_from_spec() -> bool {
        true
    }

    open spec fn from_spec(mission: MissionId) -> Mission {
        Mission::Sentinel3
    }
}

#[derive(PartialOrd, PartialEq, Eq, Structural, Debug, Clone, Copy, Hash)]
pub enum DataSource {
    OLCI,
    SLSTR,
    Synergy,
    SRAL,
    DORIS,
    MWR,
    GNSS,
}

#[allow(non_camel_case_types)]
#[derive(PartialOrd, PartialEq, Eq, Debug, Clone, Hash)]
pub enum DataType {
    AER_AX,
    AOD,
    ATP_AX,
    CAL,
    CR0,
    CR1,
    EFR,
    EFR_BW,
    ERR,
    ERR_BW,
    FRP,
    INS_AX,
    LAN,
    LAP_AX,
    LFR,
    LFR_BW,
    LRR,
    LRR_BW,
    LST,
    LST_BW,
    LVI_AX,
    MSIR,
    RAC,
    RBT,
    RBT_BW,
    SLT,
    SPC,
    SRA,
    SYN,
    SYN_BW,
    V10,
    V10_BW,
    VG1,
    VG1_BW,
    VGP,
    VGP_BW,
    WAT,
    WCT,
    WFR,
    WFR_BW,
    WRR,
    WRR_BW,
    WST,
    WST_BW,
    Other(String),
}

/// A data type with its text, if it has one, as a sequence of characters.
pub enum DataTypeView {
    Known(DataType),
    Other(Seq<char>),
}

impl View for DataType {
    type V = DataTypeView;

    open spec fn view(&self) -> DataTypeView {
        match self {
            DataType::Other(text) => DataTypeView::Other(text@),
            _ => DataTypeView::Known(*self),
        }
    }
}

#[derive(PartialOrd, PartialEq, Eq, Debug, Clone, Hash)]
pub enum InstanceId {
    Stripe { duration: u32, cycle_number: u32, relative_order_number: u32 },
    Frame {
        duration: u32,
        cycle_number: u32,
        relative_order_number: u32,
        frame_along_track_coordinate: u32,
    },
    GlobalTile,
    Tile { tile_identifier: String },
    Aux,
}

/// An instance with its text, if it has one, as a sequence of characters.
pub enum InstanceIdView {
    Known(InstanceId),
    Tile(Seq<char>),
}

impl View for InstanceId {
    type V = InstanceIdView;

    open spec fn view(&self) -> InstanceIdView {
        match self {
            InstanceId::Tile { tile_identifier } => InstanceIdView::Tile(tile_identifier@),
            _ => InstanceIdView::Known(*self),
        }
    }
}

#[derive(PartialOrd, PartialEq, Eq, Structural, Debug, Clone, Copy, Hash)]
pub enum Platform {
    Operational,
    Reference,
    Development,
    Reprocessing,
}

#[derive(PartialOrd, PartialEq, Eq, Structural, Debug, Clone, Copy, Hash)]
pub enum Timeliness {
    NRT,
    STC,
    NTC,
}

/// Sentinel 3 product
#[derive(PartialOrd, PartialEq, Eq, Debug, Clone, Hash)]
pub struct Product {
    pub mission_id: MissionId,
    pub data_source: DataSource,
    pub processing_level: Option<u8>,
    pub data_type: DataType,
    pub start_datetime: DateTime,
    pub stop_datetime: DateTime,
    pub product_creation_datetime: DateTime,
    pub instance_id: InstanceId,
    pub centre_generating_file: String,
    pub platform: Option<Platform>,
    pub timeliness: Option<Timeliness>,
    /// baseline collection or data usage
    pub collection_or_usage: Option<String>,
}

/// A product with its texts as sequences of characters.
pub struct ProductView {
    pub mission_id: MissionId,
    pub data_source: DataSource,
    pub processing_level: Option<u8>,
    pub data_type: DataTypeView,
    pub start_datetime: DateTime,
    pub stop_datetime: DateTime,
    pub product_creation_datetime: DateTime,
    pub instance_id: InstanceIdView,
    pub centre_generating_file: Seq<char>,
    pub platform: Option<Platform>,
    pub timeliness: Option<Timeliness>,
    pub collection_or_usage: Option<Seq<char>>,
}

impl View for Product {
    type V = ProductView;

    open spec fn view(&self) -> ProductView {
        ProductView {
            mission_id: self.mission_id,
            data_source: self.data_source,
            processing_level: self.processing_level,
            data_type: self.data_type@,
            start_datetime: self.start_datetime,
            stop_datetime: self.stop_datetime,
            product_creation_datetime: self.product_creation_datetime,
            instance_id: self.instance_id@,
            centre_generating_file: self.centre_generating_file@,
            platform: self.platform,
            timeliness: self.timeliness,
            collection_or_usage: match self.collection_or_usage {
                Some(text) => Some(text@),
                None => None,
            },
        }
    }
}

impl ProductView {
    /// The three times are times of the calendar, the processing level is
    /// one digit, and the centre has three characters.
    pub open spec fn is_valid(self) -> bool {
        &&& self.start_datetime.is_valid()
        &&& self.stop_datetime.is_valid()
        &&& self.product_creation_datetime.is_valid()
        &&& self.processing_level matches Some(level) ==> level <= 9
        &&& self.centre_generating_file.len() == 3
    }
}

pub open spec fn mission_id_tags() -> Seq<&'static str> {
    seq!["s3a", "s3b", "s3_"]
}

pub open spec fn mission_id_of(i: usize) -> MissionId {
    match i {
        0 => MissionId::S3A,
        1 => MissionId::S3B,
        _ => MissionId::S3AB,
    }
}

#[verifier::opaque]
pub open spec fn mission_id_at(s: Seq<char>, pos: int) -> Parsed<MissionId> {
    match one_of_at(s, pos, mission_id_tags()) {
        Ok((i, next)) => Ok((mission_id_of(i), next)),
        Err(e) => Err(e),
    }
}

pub open spec fn data_source_tags() -> Seq<&'static str> {
    seq!["ol", "sl", "sy", "sr", "do", "mw", "gn"]
}

pub open spec fn data_source_of(i: usize) -> DataSource {
    match i {
        0 => DataSource::OLCI,
        1 => DataSource::SLSTR,
        2 => DataSource::Synergy,
        3 => DataSource::SRAL,
        4 => DataSource::DORIS,
        5 => DataSource::MWR,
        _ => DataSource::GNSS,
    }
}

#[verifier::opaque]
pub open spec fn data_source_at(s: Seq<char>, pos: int) -> Parsed<DataSource> {
    match one_of_at(s, pos, data_source_tags()) {
        Ok((i, next)) => Ok((data_source_of(i), next)),
        Err(e) => Err(e),
    }
}

/// A processing level: one digit, or an underscore for none.
#[verifier::opaque]
pub open spec fn processing_level_at(s: Seq<char>, pos: int) -> Parsed<Option<u8>> {
    match digits_at(s, pos, 1) {
        Ok((level, next)) => Ok((Some(level as u8), next)),
        Err(_) => match char_at(s, pos, '_') {
            Ok((_, next)) => Ok((None, next)),
            Err(e) => Err(e),
        },
    }
}

/// The tags of the data types that have a name, each six characters wide.
pub open spec fn data_type_tags() -> Seq<&'static str> {
    seq![
        "AER_AX",
        "AOD___",
        "ATP_AX",
        "CAL___",
        "CR0___",
        "CR1___",
        "EFR___",
        "EFR_BW",
        "ERR___",
        "ERR_BW",
        "FRP___",
        "INS_AX",
        "LAN___",
        "LAP_AX",
        "LFR___",
        "LFR_BW",
        "LRR___",
        "LRR_BW",
        "LST___",
        "LST_BW",
        "LVI_AX",
        "MSIR__",
        "RAC___",
        "RBT___",
        "RBT_BW",
        "SLT___",
        "SPC___",
        "SRA___",
        "SYN___",
        "SYN_BW",
        "V10___",
        "V10_BW",
        "VG1___",
        "VG1_BW",
        "VGP___",
        "VGP_BW",
        "WAT___",
        "WCT___",
        "WFR___",
        "WFR_BW",
        "WRR___",
        "WRR_BW",
        "WST___",
        "WST_BW",
    ]
}

/// The data type whose tag stands at index `i` of `data_type_tags`.
pub open spec fn known_data_type(i: usize) -> DataType {
    match i {
        0 => DataType::AER_AX,
        1 => DataType::AOD,
        2 => DataType::ATP_AX,
        3 => DataType::CAL,
        4 => DataType::CR0,
        5 => DataType::CR1,
        6 => DataType::EFR,
        7 => DataType::EFR_BW,
        8 => DataType::ERR,
        9 => DataType::ERR_BW,
        10 => DataType::FRP,
        11 => DataType::INS_AX,
        12 => DataType::LAN,
        13 => DataType::LAP_AX,
        14 => DataType::LFR,
        15 => DataType::LFR_BW,
        16 => DataType::LRR,
        17 => DataType::LRR_BW,
        18 => DataType::LST,
        19 => DataType::LST_BW,
        20 => DataType::LVI_AX,
        21 => DataType::MSIR,
        22 => DataType::RAC,
        23 => DataType::RBT,
        24 => DataType::RBT_BW,
        25 => DataType::SLT,
        26 => DataType::SPC,
        27 => DataType::SRA,
        28 => DataType::SYN,
        29 => DataType::SYN_BW,
        30 => DataType::V10,
        31 => DataType::V10_BW,
        32 => DataType::VG1,
        33 => DataType::VG1_BW,
        34 => DataType::VGP,
        35 => DataType::VGP_BW,
        36 => DataType::WAT,
        37 => DataType::WCT,
        38 => DataType::WFR,
        39 => DataType::WFR_BW,
        40 => DataType::WRR,
        41 => DataType::WRR_BW,
        42 => DataType::WST,
        _ => DataType::WST_BW,
    }
}

/// `t` without the underscores at its end.
pub open spec fn trim_end_underscores(t: Seq<char>) -> Seq<char>
    decreases t.len(),
{
    if t.len() > 0 && t.last() == '_' {
        trim_end_underscores(t.drop_last())
    } else {
        t
    }
}

/// A data type: one of the tags, or else any six characters, which give
/// `Other` with the text in upper case, less the underscores at its end.
#[verifier::opaque]
pub open spec fn data_type_at(s: Seq<char>, pos: int) -> Parsed<DataTypeView> {
    match one_of_at(s, pos, data_type_tags()) {
        Ok((i, next)) => Ok((DataTypeView::Known(known_data_type(i)), next)),
        Err(_) => match chars_at(s, pos, 6) {
            Ok((text, next)) => Ok(
                (DataTypeView::Other(uppercase_of(trim_end_underscores(text))), next),
            ),
            Err(e) => Err(e),
        },
    }
}

/// The three numbers that a stripe and a frame start with: four digits,
/// three digits and three digits, an underscore behind each.
pub open spec fn instance_numbers(s: Seq<char>, pos: int) -> bool {
    &&& digit_run(s, pos, 4)
    &&& has(s, pos + 4, 1) && s[pos + 4] == '_'
    &&& digit_run(s, pos + 5, 3)
    &&& has(s, pos + 8, 1) && s[pos + 8] == '_'
    &&& digit_run(s, pos + 9, 3)
    &&& has(s, pos + 12, 1) && s[pos + 12] == '_'
}

/// An instance, seventeen characters wide. In this order: seventeen
/// underscores for auxiliary data; `GLOBAL` and eleven underscores; the three
/// numbers of a stripe and four underscores; the three numbers of a frame
/// and its coordinate of four digits; or seventeen letters or digits, the
/// name of a tile, put in upper case.
#[verifier::opaque]
pub open spec fn instance_at(s: Seq<char>, pos: int) -> Parsed<InstanceIdView> {
    let next = (pos + 17) as usize;
    let duration = value(digits_at(s, pos, 4));
    let cycle_number = value(digits_at(s, pos + 5, 3));
    let relative_order_number = value(digits_at(s, pos + 9, 3));
    if repeated(s, pos, 17, '_') {
        Ok((InstanceIdView::Known(InstanceId::Aux), next))
    } else if tag_no_case_matches(s, pos, "GLOBAL___________"@) {
        Ok((InstanceIdView::Known(InstanceId::GlobalTile), (pos + "GLOBAL___________"@.len()) as usize))
    } else if instance_numbers(s, pos) && repeated(s, pos + 13, 4, '_') {
        Ok(
            (
                InstanceIdView::Known(
                    InstanceId::Stripe { duration, cycle_number, relative_order_number },
                ),
                next,
            ),
        )
    } else if instance_numbers(s, pos) && digit_run(s, pos + 13, 4) {
        Ok(
            (
                InstanceIdView::Known(
                    InstanceId::Frame {
                        duration,
                        cycle_number,
                        relative_order_number,
                        frame_along_track_coordinate: value(digits_at(s, pos + 13, 4)),
                    },
                ),
                next,
            ),
        )
    } else {
        match upper_alphanumeric_at(s, pos, 17) {
            Ok((text, next)) => Ok((InstanceIdView::Tile(text), next)),
            Err(e) => Err(e),
        }
    }
}

pub open spec fn platform_tags() -> Seq<&'static str> {
    seq!["o", "f", "d", "r", "_"]
}

pub open spec fn platform_of(i: usize) -> Option<Platform> {
    match i {
        0 => Some(Platform::Operational),
        1 => Some(Platform::Reference),
        2 => Some(Platform::Development),
        3 => Some(Platform::Reprocessing),
        _ => None,
    }
}

/// A platform: one letter, or an underscore for none.
#[verifier::opaque]
pub open spec fn platform_at(s: Seq<char>, pos: int) -> Parsed<Option<Platform>> {
    match one_of_at(s, pos, platform_tags()) {
        Ok((i, next)) => Ok((platform_of(i), next)),
        Err(e) => Err(e),
    }
}

pub open spec fn timeliness_tags() -> Seq<&'static str> {
    seq!["nr", "st", "nt", "__"]
}

pub open spec fn timeliness_of(i: usize) -> Option<Timeliness> {
    match i {
        0 => Some(Timeliness::NRT),
        1 => Some(Timeliness::STC),
        2 => Some(Timeliness::NTC),
        _ => None,
    }
}

/// A timeliness: two letters, or two underscores for none.
#[verifier::opaque]
pub open spec fn timeliness_at(s: Seq<char>, pos: int) -> Parsed<Option<Timeliness>> {
    match one_of_at(s, pos, timeliness_tags()) {
        Ok((i, next)) => Ok((timeliness_of(i), next)),
        Err(e) => Err(e),
    }
}

/// A collection or usage: one to three letters or digits, as many as there
/// are, put in upper case; or three underscores for none.
#[verifier::opaque]
pub open spec fn collection_at(s: Seq<char>, pos: int) -> Parsed<Option<Seq<char>>> {
    let run = alphanumeric_len(s, pos);
    let n = if run < 3 {
        run as int
    } else {
        3
    };
    if n >= 1 {
        Ok((Some(ascii_uppercase(s.subrange(pos, pos + n))), (pos + n) as usize))
    } else if repeated(s, pos, 3, '_') {
        Ok((None, (pos + 3) as usize))
    } else {
        reject(pos)
    }
}

/// A product name: its fields in their order, an underscore between each
/// two. The first that is not there decides the error.
pub open spec fn product_at(s: Seq<char>) -> Parsed<ProductView> {
    let mission_id = mission_id_at(s, 0);
    let sep1 = char_at(s, after(mission_id), '_');
    let data_source = data_source_at(s, after(sep1));
    let sep2 = char_at(s, after(data_source), '_');
    let processing_level = processing_level_at(s, after(sep2));
    let sep3 = char_at(s, after(processing_level), '_');
    let data_type = data_type_at(s, after(sep3));
    let sep4 = char_at(s, after(data_type), '_');
    let start = timestamp_at(s, after(sep4));
    let sep5 = char_at(s, after(start), '_');
    let stop = timestamp_at(s, after(sep5));
    let sep6 = char_at(s, after(stop), '_');
    let creation = timestamp_at(s, after(sep6));
    let sep7 = char_at(s, after(creation), '_');
    let instance_id = instance_at(s, after(sep7));
    let sep8 = char_at(s, after(instance_id), '_');
    let centre = upper_alphanumeric_at(s, after(sep8), 3);
    let sep9 = char_at(s, after(centre), '_');
    let platform = platform_at(s, after(sep9));
    let sep10 = char_at(s, after(platform), '_');
    let timeliness = timeliness_at(s, after(sep10));
    let sep11 = char_at(s, after(timeliness), '_');
    let collection = collection_at(s, after(sep11));
    if mission_id is Err {
        failure(mission_id)
    } else if sep1 is Err {
        failure(sep1)
    } else if data_source is Err {
        failure(data_source)
    } else if sep2 is Err {
        failure(sep2)
    } else if processing_level is Err {
        failure(processing_level)
    } else if sep3 is Err {
        failure(sep3)
    } else if data_type is Err {
        failure(data_type)
    } else if sep4 is Err {
        failure(sep4)
    } else if start is Err {
        failure(start)
    } else if sep5 is Err {
        failure(sep5)
    } else if stop is Err {
        failure(stop)
    } else if sep6 is Err {
        failure(sep6)
    } else if creation is Err {
        failure(creation)
    } else if sep7 is Err {
        failure(sep7)
    } else if instance_id is Err {
        failure(instance_id)
    } else if sep8 is Err {
        failure(sep8)
    } else if centre is Err {
        failure(centre)
    } else if sep9 is Err {
        failure(sep9)
    } else if platform is Err {
        failure(platform)
    } else if sep10 is Err {
        failure(sep10)
    } else if timeliness is Err {
        failure(timeliness)
    } else if sep11 is Err {
        failure(sep11)
    } else if collection is Err {
        failure(collection)
    } else {
        Ok(
            (
                ProductView {
                    mission_id: value(mission_id),
                    data_source: value(data_source),
                    processing_level: value(processing_level),
                    data_type: value(data_type),
                    start_datetime: value(start),
                    stop_datetime: value(stop),
                    product_creation_datetime: value(creation),
                    instance_id: value(instance_id),
                    centre_generating_file: value(centre),
                    platform: value(platform),
                    timeliness: value(timeliness),
                    collection_or_usage: value(collection),
                },
                after(collection) as usize,
            ),
        )
    }
}

fn data_type_of(i: usize) -> (r: DataType)
    ensures
        r == known_data_type(i),
{
    match i {
        0 => DataType::AER_AX,
        1 => DataType::AOD,
        2 => DataType::ATP_AX,
        3 => DataType::CAL,
        4 => DataType::CR0,
        5 => DataType::CR1,
        6 => DataType::EFR,
        7 => DataType::EFR_BW,
        8 => DataType::ERR,
        9 => DataType::ERR_BW,
        10 => DataType::FRP,
        11 => DataType::INS_AX,
        12 => DataType::LAN,
        13 => DataType::LAP_AX,
        14 => DataType::LFR,
        15 => DataType::LFR_BW,
        16 => DataType::LRR,
        17 => DataType::LRR_BW,
        18 => DataType::LST,
        19 => DataType::LST_BW,
        20 => DataType::LVI_AX,
        21 => DataType::MSIR,
        22 => DataType::RAC,
        23 => DataType::RBT,
        24 => DataType::RBT_BW,
        25 => DataType::SLT,
        26 => DataType::SPC,
        27 => DataType::SRA,
        28 => DataType::SYN,
        29 => DataType::SYN_BW,
        30 => DataType::V10,
        31 => DataType::V10_BW,
        32 => DataType::VG1,
        33 => DataType::VG1_BW,
        34 => DataType::VGP,
        35 => DataType::VGP_BW,
        36 => DataType::WAT,
        37 => DataType::WCT,
        38 => DataType::WFR,
        39 => DataType::WFR_BW,
        40 => DataType::WRR,
        41 => DataType::WRR_BW,
        42 => DataType::WST,
        _ => DataType::WST_BW,
    }
}

/// Where the text of `s` from `pos` to `end` stops once the underscores at
/// its end are taken away.
fn trimmed_end(s: &Input, pos: usize, end: usize) -> (r: usize)
    requires
        pos <= end <= s@.len(),
    ensures
        pos <= r <= end,
        s@.subrange(pos as int, r as int) == trim_end_underscores(
            s@.subrange(pos as int, end as int),
        ),
{
    let mut r = end;
    while r > pos && s.get(r - 1) == '_'
        invariant
            pos <= r <= end <= s@.len(),
            trim_end_underscores(s@.subrange(pos as int, r as int)) == trim_end_underscores(
                s@.subrange(pos as int, end as int),
            ),
        decreases r,
    {
        assert(s@.subrange(pos as int, r as int).drop_last() == s@.subrange(
            pos as int,
            r - 1,
        ));
        r -= 1;
    }
    r
}

pub fn parse_data_type(s: &Input, pos: usize) -> (r: Parsed<DataType>)
    ensures
        view_of(r) == data_type_at(s@, pos as int),
        advances(r, s@, pos),
{
    reveal(data_type_at);
    let tags = [
        "AER_AX",
        "AOD___",
        "ATP_AX",
        "CAL___",
        "CR0___",
        "CR1___",
        "EFR___",
        "EFR_BW",
        "ERR___",
        "ERR_BW",
        "FRP___",
        "INS_AX",
        "LAN___",
        "LAP_AX",
        "LFR___",
        "LFR_BW",
        "LRR___",
        "LRR_BW",
        "LST___",
        "LST_BW",
        "LVI_AX",
        "MSIR__",
        "RAC___",
        "RBT___",
        "RBT_BW",
        "SLT___",
        "SPC___",
        "SRA___",
        "SYN___",
        "SYN_BW",
        "V10___",
        "V10_BW",
        "VG1___",
        "VG1_BW",
        "VGP___",
        "VGP_BW",
        "WAT___",
        "WCT___",
        "WFR___",
        "WFR_BW",
        "WRR___",
        "WRR_BW",
        "WST___",
        "WST_BW",
    ];
    assert(tags@ =~= data_type_tags());
    match one_of(s, pos, &tags) {
        Ok((i, next)) => Ok((data_type_of(i), next)),
        Err(_) => {
            let (_, next) = take_chars(s, pos, 6)?;
            let end = trimmed_end(s, pos, next);
            let text = s.slice(pos, end);
            Ok((DataType::Other(to_uppercase(text)), next))
        },
    }
}

/// A product name starts with `S3`.
pub proof fn lemma_product_start(s: Seq<char>)
    requires
        product_at(s) is Ok,
    ensures
        s.len() >= 2,
        lower(s[0]) == 's',
        s[1] == '3',
{
    reveal(mission_id_at);
    reveal_strlit("s3a");
    reveal_strlit("s3b");
    reveal_strlit("s3_");
    lemma_first_tag(s, 0, mission_id_tags(), 0);
    let i = first_tag_from(s, 0, mission_id_tags(), 0)->Some_0;
    assert(lower(s[0int + 0]) == lower(mission_id_tags()[i]@[0]));
    assert(lower(s[0int + 1]) == lower(mission_id_tags()[i]@[1]));
}

pub fn parse_mission_id(s: &Input, pos: usize) -> (r: Parsed<MissionId>)
    ensures
        r == mission_id_at(s@, pos as int),
        advances(r, s@, pos),
{
    reveal(mission_id_at);
    let tags = ["s3a", "s3b", "s3_"];
    assert(tags@ =~= mission_id_tags());
    let (i, next) = one_of(s, pos, &tags)?;
    let id = match i {
        0 => MissionId::S3A,
        1 => MissionId::S3B,
        _ => MissionId::S3AB,
    };
    Ok((id, next))
}

pub fn parse_data_source(s: &Input, pos: usize) -> (r: Parsed<DataSource>)
    ensures
        r == data_source_at(s@, pos as int),
        advances(r, s@, pos),
{
    reveal(data_source_at);
    let tags = ["ol", "sl", "sy", "sr", "do", "mw", "gn"];
    assert(tags@ =~= data_source_tags());
    let (i, next) = one_of(s, pos, &tags)?;
    let source = match i {
        0 => DataSource::OLCI,
        1 => DataSource::SLSTR,
        2 => DataSource::Synergy,
        3 => DataSource::SRAL,
        4 => DataSource::DORIS,
        5 => DataSource::MWR,
        _ => DataSource::GNSS,
    };
    Ok((source, next))
}

pub fn parse_processing_level(s: &Input, pos: usize) -> (r: Parsed<Option<u8>>)
    ensures
        r == processing_level_at(s@, pos as int),
        advances(r, s@, pos),
        r matches Ok((Some(level), _)) ==> level <= 9,
{
    reveal(processing_level_at);
    match take_n_digits(s, pos, 1) {
        Ok((level, next)) => {
            proof {
                lemma_pow10_values();
            }
            Ok((Some(level as u8), next))
        },
        Err(_) => {
            let (_, next) = take_char(s, pos, '_')?;
            Ok((None, next))
        },
    }
}

/// Reads the three numbers that a stripe and a frame start with.
fn parse_instance_numbers(s: &Input, pos: usize) -> (r: Option<(u32, u32, u32, usize)>)
    ensures
        r is Some <==> instance_numbers(s@, pos as int),
        r matches Some(n) ==> n.0 == value(digits_at(s@, pos as int, 4)) && n.1 == value(
            digits_at(s@, pos + 5, 3),
        ) && n.2 == value(digits_at(s@, pos + 9, 3)) && n.3 == pos + 13,
{
    let (duration, p) = match take_n_digits(s, pos, 4) {
        Ok(v) => v,
        Err(_) => { return None; },
    };
    let p = match take_char(s, p, '_') {
        Ok((_, p)) => p,
        Err(_) => { return None; },
    };
    let (cycle_number, p) = match take_n_digits(s, p, 3) {
        Ok(v) => v,
        Err(_) => { return None; },
    };
    let p = match take_char(s, p, '_') {
        Ok((_, p)) => p,
        Err(_) => { return None; },
    };
    let (relative_order_number, p) = match take_n_digits(s, p, 3) {
        Ok(v) => v,
        Err(_) => { return None; },
    };
    match take_char(s, p, '_') {
        Ok((_, p)) => Some((duration, cycle_number, relative_order_number, p)),
        Err(_) => None,
    }
}

pub fn parse_instance(s: &Input, pos: usize) -> (r: Parsed<InstanceId>)
    ensures
        view_of(r) == instance_at(s@, pos as int),
        advances(r, s@, pos),
{
    reveal(instance_at);
    match take_repeated(s, pos, 17, '_') {
        Ok((_, next)) => {
            return Ok((InstanceId::Aux, next));
        },
        Err(_) => {},
    }
    match tag_no_case(s, pos, "GLOBAL___________") {
        Ok((_, next)) => {
            return Ok((InstanceId::GlobalTile, next));
        },
        Err(_) => {},
    }
    match parse_instance_numbers(s, pos) {
        Some((duration, cycle_number, relative_order_number, p)) => {
            match take_repeated(s, p, 4, '_') {
                Ok((_, next)) => {
                    return Ok(
                        (
                            InstanceId::Stripe { duration, cycle_number, relative_order_number },
                            next,
                        ),
                    );
                },
                Err(_) => {},
            }
            match take_n_digits(s, p, 4) {
                Ok((frame_along_track_coordinate, next)) => {
                    return Ok(
                        (
                            InstanceId::Frame {
                                duration,
                                cycle_number,
                                relative_order_number,
                                frame_along_track_coordinate,
                            },
                            next,
                        ),
                    );
                },
                Err(_) => {},
            }
        },
        None => {},
    }
    let (tile_identifier, next) = take_alphanumeric_upper(s, pos, 17)?;
    Ok((InstanceId::Tile { tile_identifier }, next))
}

pub fn parse_platform(s: &Input, pos: usize) -> (r: Parsed<Option<Platform>>)
    ensures
        r == platform_at(s@, pos as int),
        advances(r, s@, pos),
{
    reveal(platform_at);
    let tags = ["o", "f", "d", "r", "_"];
    assert(tags@ =~= platform_tags());
    let (i, next) = one_of(s, pos, &tags)?;
    let platform = match i {
        0 => Some(Platform::Operational),
        1 => Some(Platform::Reference),
        2 => Some(Platform::Development),
        3 => Some(Platform::Reprocessing),
        _ => None,
    };
    Ok((platform, next))
}

pub fn parse_timeliness(s: &Input, pos: usize) -> (r: Parsed<Option<Timeliness>>)
    ensures
        r == timeliness_at(s@, pos as int),
        advances(r, s@, pos),
{
    reveal(timeliness_at);
    let tags = ["nr", "st", "nt", "__"];
    assert(tags@ =~= timeliness_tags());
    let (i, next) = one_of(s, pos, &tags)?;
    let timeliness = match i {
        0 => Some(Timeliness::NRT),
        1 => Some(Timeliness::STC),
        2 => Some(Timeliness::NTC),
        _ => None,
    };
    Ok((timeliness, next))
}

pub fn parse_collection(s: &Input, pos: usize) -> (r: Parsed<Option<String>>)
    ensures
        option_view_of(r) == collection_at(s@, pos as int),
        advances(r, s@, pos),
{
    reveal(collection_at);
    let (_, run_end) = take_alphanumeric(s, pos)?;
    let end = if run_end - pos < 3 {
        run_end
    } else {
        pos + 3
    };
    if end > pos {
        let text = s.slice(pos, end);
        proof {
            lemma_alphanumeric_len_run(s@, pos as int);
            assert(is_ascii_chars(text@));
        }
        return Ok((Some(to_uppercase(text)), end));
    }
    let (_, next) = take_repeated(s, pos, 3, '_')?;
    Ok((None, next))
}

/// Reads a product name at the start of `s`.
pub fn product(s: &Input) -> (r: Parsed<Product>)
    ensures
        view_of(r) == product_at(s@),
        advances(r, s@, 0),
        r matches Ok((product, _)) ==> product@.is_valid(),
{
    let (mission_id, p) = parse_mission_id(s, 0)?;
    let (_, p) = take_char(s, p, '_')?;
    let (data_source, p) = parse_data_source(s, p)?;
    let (_, p) = take_char(s, p, '_')?;
    let (processing_level, p) = parse_processing_level(s, p)?;
    let (_, p) = take_char(s, p, '_')?;
    let (data_type, p) = parse_data_type(s, p)?;
    let (_, p) = take_char(s, p, '_')?;
    let (start_datetime, p) = parse_esa_timestamp(s, p)?;
    let (_, p) = take_char(s, p, '_')?;
    let (stop_datetime, p) = parse_esa_timestamp(s, p)?;
    let (_, p) = take_char(s, p, '_')?;
    let (product_creation_datetime, p) = parse_esa_timestamp(s, p)?;
    let (_, p) = take_char(s, p, '_')?;
    let (instance_id, p) = parse_instance(s, p)?;
    let (_, p) = take_char(s, p, '_')?;
    let (centre_generating_file, p) = take_alphanumeric_upper(s, p, 3)?;
    let (_, p) = take_char(s, p, '_')?;
    let (platform, p) = parse_platform(s, p)?;
    let (_, p) = take_char(s, p, '_')?;
    let (timeliness, p) = parse_timeliness(s, p)?;
    let (_, p) = take_char(s, p, '_')?;
    let (collection_or_usage, p) = parse_collection(s, p)?;
    Ok(
        (
            Product {
                mission_id,
                data_source,
                processing_level,
                data_type,
                start_datetime,
                stop_datetime,
                product_creation_datetime,
                instance_id,
                centre_generating_file,
                platform,
                timeliness,
                collection_or_usage,
            },
            p,
        ),
    )
}

/// Reads a product name at the start of `s` and gives the product with what
/// follows the name.
pub fn parse_product<'a>(s: &'a str) -> (r: Recognised<'a, Product>)
    ensures
        rest_view_of(r) == with_rest(s@, product_at(s@)),
        r matches Ok((_, product)) ==> product@.is_valid(),
{
    let input = Input::new(s);
    finish(&input, product(&input))
}

} // verus!
